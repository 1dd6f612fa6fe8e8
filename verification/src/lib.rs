//! Loopback bridge between a browser extension and a desktop vault:
//! the vault store, the fill-command queue, the form-snapshot cache,
//! the audit journal and the request routing that ties them together.

pub mod text;
pub mod timestamp;
pub mod vault;
pub mod store;
pub mod wire;
pub mod queue;
pub mod snapshot;
pub mod audit;
pub mod convert;
pub mod decode;
pub mod escape;
pub mod route;
pub mod bridge;
pub mod desk;
pub mod llm;
