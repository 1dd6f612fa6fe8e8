//! The records that cross the bridge: vault items as the extension sees them, form
//! snapshots, fill commands and audit entries.

use crate::vault::Confidence;
use vstd::prelude::*;

verus! {

/// How a vault item came into the vault, as the extension sees it.
#[derive(Debug, Clone)]
pub struct ProvenanceJson {
    pub source: String,
    pub timestamp: String,
    pub confidence: Confidence,
    pub origin: Option<String>,
}

/// The metadata of a vault item, with its times as RFC 3339 text.
#[derive(Debug, Clone)]
pub struct VaultMetadataJson {
    pub created: String,
    pub updated: String,
    pub last_used: Option<String>,
    pub usage_count: u32,
}

/// A vault item as the extension sees it.
#[derive(Debug, Clone)]
pub struct VaultItemJson {
    pub key: String,
    pub value: String,
    pub label: String,
    pub category: String,
    pub provenance: ProvenanceJson,
    pub metadata: VaultMetadataJson,
}

/// One choice of a select field.
#[derive(Debug, Clone)]
pub struct SelectOptionJson {
    pub value: String,
    pub label: String,
}

/// One field of a captured form.
#[derive(Debug, Clone)]
pub struct FieldNodeJson {
    pub id: String,
    pub name: String,
    pub label: String,
    pub field_type: String,
    pub semantic: String,
    pub required: bool,
    pub validation: Option<String>,
    pub autocomplete: Option<String>,
    pub max_length: Option<u32>,
    pub min_length: Option<u32>,
    pub placeholder: Option<String>,
    pub input_mode: Option<String>,
    pub options: Option<Vec<SelectOptionJson>>,
}

/// A summary of a form's structure, by which the form is recognised later.
#[derive(Debug, Clone)]
pub struct FormFingerprintJson {
    pub field_count: u32,
    pub field_types: Vec<String>,
    pub required_count: u32,
    pub hash: String,
}

/// A web form as it stood when it was captured.
#[derive(Debug, Clone)]
pub struct FormSnapshotJson {
    pub url: String,
    pub domain: String,
    pub title: String,
    pub captured_at: String,
    pub fingerprint: FormFingerprintJson,
    pub fields: Vec<FieldNodeJson>,
}

/// The value to write into one field.
#[derive(Debug, Clone)]
pub struct FieldFillJson {
    pub field_id: String,
    pub value: String,
}

/// An instruction to fill a form on a domain, valid until it expires.
#[derive(Debug, Clone)]
pub struct FillCommandJson {
    pub id: String,
    pub target_domain: String,
    pub target_url: Option<String>,
    pub fills: Vec<FieldFillJson>,
    pub created_at: String,
    pub expires_at: String,
}

/// How much of a value the audit trail shows.
#[derive(Debug, Clone, Copy)]
pub enum RedactionLevel {
    /// The value is shown as it is.
    Unredacted,
    Partial,
    Masked,
}

/// The policy bucket of a field, by the confidence of its match.
#[derive(Debug, Clone, Copy)]
pub enum Disposition {
    Safe,
    Review,
    Blocked,
}

/// What happened to one field in a fill operation.
#[derive(Debug, Clone)]
pub struct AuditItemJson {
    pub field_id: String,
    pub label: String,
    pub kind: String,
    pub confidence: Confidence,
    pub disposition: Disposition,
    pub applied: bool,
    pub source: String,
    pub old_value_redacted: String,
    pub new_value_redacted: String,
    pub redaction: RedactionLevel,
    pub user_confirmed: bool,
    pub notes: Option<String>,
}

/// How many fields of a fill operation were planned, applied, blocked and reviewed.
#[derive(Debug, Clone, Copy)]
pub struct AuditSummaryJson {
    pub planned_count: u32,
    pub applied_count: u32,
    pub blocked_count: u32,
    pub reviewed_count: u32,
}

/// The record of one fill operation.
#[derive(Debug, Clone)]
pub struct AuditEntryJson {
    pub id: String,
    pub created_at: String,
    pub url: String,
    pub domain: String,
    pub fingerprint: String,
    pub summary: AuditSummaryJson,
    pub items: Vec<AuditItemJson>,
}

/// One page of audit entries, and where the next page begins if there is one.
#[derive(Debug, Clone)]
pub struct AuditListResponse {
    pub items: Vec<AuditEntryJson>,
    pub next_cursor: Option<u32>,
}

} // verus!
