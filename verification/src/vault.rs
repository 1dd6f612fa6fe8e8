//! The vault: personal data items and the storage contract that holds them.

use crate::timestamp::Timestamp;
use vstd::prelude::*;
use vstd::string::*;

verus! {

/// Why a vault operation failed.
#[derive(Debug)]
pub enum VaultError {
    /// No item is stored under the key.
    NotFound(String),
    /// The key cannot be used.
    InvalidKey(String),
    /// An item could not be encoded or decoded.
    SerializationError(String),
    /// The backend failed.
    StorageError(String),
}

impl VaultError {
    /// The words that introduce the detail of each kind of error.
    pub open spec fn prefix(self) -> Seq<char> {
        match self {
            VaultError::NotFound(_) => "Item not found: "@,
            VaultError::InvalidKey(_) => "Invalid key: "@,
            VaultError::SerializationError(_) => "Serialization error: "@,
            VaultError::StorageError(_) => "Storage error: "@,
        }
    }

    /// The detail that the error carries.
    pub open spec fn detail(self) -> Seq<char> {
        match self {
            VaultError::NotFound(d) => d@,
            VaultError::InvalidKey(d) => d@,
            VaultError::SerializationError(d) => d@,
            VaultError::StorageError(d) => d@,
        }
    }

    /// The error in words: its kind, then its detail.
    pub fn message(&self) -> (r: String)
        ensures
            r@ == self.prefix() + self.detail(),
    {
        match self {
            VaultError::NotFound(d) => String::from_str("Item not found: ").concat(d.as_str()),
            VaultError::InvalidKey(d) => String::from_str("Invalid key: ").concat(d.as_str()),
            VaultError::SerializationError(d) => String::from_str("Serialization error: ").concat(
                d.as_str(),
            ),
            VaultError::StorageError(d) => String::from_str("Storage error: ").concat(d.as_str()),
        }
    }
}

/// A confidence score, held as the bit pattern of its IEEE 754 double-precision value.
#[derive(Clone, Copy, Debug)]
pub struct Confidence {
    pub bits: u64,
}

/// How a value came into the vault.
#[derive(Clone, Copy, Debug, PartialEq, Eq, Structural)]
pub enum ProvenanceSource {
    UserEntered,
    Imported,
    Autofilled,
}

/// Where a value came from, when, and how far it is trusted.
#[derive(Debug)]
pub struct Provenance {
    pub source: ProvenanceSource,
    pub timestamp: Timestamp,
    pub confidence: Confidence,
    pub origin: Option<String>,
}

/// When an item was created, changed and used.
#[derive(Clone, Copy, Debug)]
pub struct VaultMetadata {
    pub created: Timestamp,
    pub updated: Timestamp,
    pub last_used: Option<Timestamp>,
    pub usage_count: u32,
}

/// The group an item belongs to.
#[derive(Clone, Copy, Debug, PartialEq, Eq, Structural)]
pub enum VaultCategory {
    Identity,
    Contact,
    Address,
    Financial,
    Custom,
}

/// One fact about the user.
#[derive(Debug)]
pub struct VaultItem {
    pub key: String,
    pub value: String,
    pub label: String,
    pub category: VaultCategory,
    pub provenance: Provenance,
    pub metadata: VaultMetadata,
}

/// A copy of an optional string.
pub fn copy_of_optional(o: &Option<String>) -> (r: Option<String>)
    ensures
        r == *o,
{
    match o {
        Some(s) => Some(s.clone()),
        None => None,
    }
}

impl Clone for Provenance {
    fn clone(&self) -> (r: Self)
        ensures
            r == *self,
    {
        Provenance {
            source: self.source,
            timestamp: self.timestamp,
            confidence: self.confidence,
            origin: copy_of_optional(&self.origin),
        }
    }
}

impl Clone for VaultItem {
    fn clone(&self) -> (r: Self)
        ensures
            r == *self,
    {
        VaultItem {
            key: self.key.clone(),
            value: self.value.clone(),
            label: self.label.clone(),
            category: self.category,
            provenance: self.provenance.clone(),
            metadata: self.metadata,
        }
    }
}

impl VaultMetadata {
    /// The metadata of an item created at `now` and not used yet.
    pub fn created_at(now: Timestamp) -> (r: VaultMetadata)
        ensures
            r == (VaultMetadata { created: now, updated: now, last_used: None, usage_count: 0 }),
    {
        VaultMetadata { created: now, updated: now, last_used: None, usage_count: 0 }
    }
}

impl Default for VaultMetadata {
    /// The metadata of an item created now.
    fn default() -> (r: Self)
        ensures
            r == VaultMetadata::created_at_spec(r.created),
    {
        VaultMetadata::created_at(Timestamp::now())
    }
}

impl VaultMetadata {
    /// The metadata of an item created at `now` and not used yet.
    pub open spec fn created_at_spec(now: Timestamp) -> VaultMetadata {
        VaultMetadata { created: now, updated: now, last_used: None, usage_count: 0 }
    }
}

impl VaultItem {
    /// A new item whose metadata says that it was created at `now`.
    pub fn new_at(
        key: &str,
        value: &str,
        label: &str,
        category: VaultCategory,
        provenance: Provenance,
        now: Timestamp,
    ) -> (r: VaultItem)
        ensures
            r.key@ == key@,
            r.value@ == value@,
            r.label@ == label@,
            r.category == category,
            r.provenance == provenance,
            r.metadata == VaultMetadata::created_at_spec(now),
    {
        VaultItem {
            key: key.to_owned(),
            value: value.to_owned(),
            label: label.to_owned(),
            category,
            provenance,
            metadata: VaultMetadata::created_at(now),
        }
    }

    /// A new item, created now and not used yet.
    pub fn new(
        key: &str,
        value: &str,
        label: &str,
        category: VaultCategory,
        provenance: Provenance,
    ) -> (r: VaultItem)
        ensures
            r.key@ == key@,
            r.value@ == value@,
            r.label@ == label@,
            r.category == category,
            r.provenance == provenance,
            r.metadata == VaultMetadata::created_at_spec(r.metadata.created),
    {
        VaultItem::new_at(key, value, label, category, provenance, Timestamp::now())
    }

    /// Replaces the value and records `now` as the time of the change.
    pub fn update_value_at(&mut self, new_value: &str, now: Timestamp)
        ensures
            final(self).value@ == new_value@,
            final(self).metadata == (VaultMetadata { updated: now, ..old(self).metadata }),
            final(self).key == old(self).key,
            final(self).label == old(self).label,
            final(self).category == old(self).category,
            final(self).provenance == old(self).provenance,
    {
        self.value = new_value.to_owned();
        self.metadata.updated = now;
    }

    /// Replaces the value and records the current time as the time of the change.
    pub fn update_value(&mut self, new_value: &str)
        ensures
            final(self).value@ == new_value@,
            final(self).metadata == (VaultMetadata {
                updated: final(self).metadata.updated,
                ..old(self).metadata
            }),
            final(self).key == old(self).key,
            final(self).label == old(self).label,
            final(self).category == old(self).category,
            final(self).provenance == old(self).provenance,
    {
        self.update_value_at(new_value, Timestamp::now());
    }

    /// Counts one more use and records `now` as the time of the last use.
    pub fn mark_used_at(&mut self, now: Timestamp)
        requires
            old(self).metadata.usage_count < u32::MAX,
        ensures
            final(self).metadata == (VaultMetadata {
                last_used: Some(now),
                usage_count: (old(self).metadata.usage_count + 1) as u32,
                ..old(self).metadata
            }),
            final(self).key == old(self).key,
            final(self).value == old(self).value,
            final(self).label == old(self).label,
            final(self).category == old(self).category,
            final(self).provenance == old(self).provenance,
    {
        self.metadata.last_used = Some(now);
        self.metadata.usage_count = self.metadata.usage_count + 1;
    }

    /// Counts one more use and records the current time as the time of the last use.
    pub fn mark_used(&mut self)
        requires
            old(self).metadata.usage_count < u32::MAX,
        ensures
            final(self).metadata.last_used is Some,
            final(self).metadata == (VaultMetadata {
                last_used: final(self).metadata.last_used,
                usage_count: (old(self).metadata.usage_count + 1) as u32,
                ..old(self).metadata
            }),
            final(self).key == old(self).key,
            final(self).value == old(self).value,
            final(self).label == old(self).label,
            final(self).category == old(self).category,
            final(self).provenance == old(self).provenance,
    {
        self.mark_used_at(Timestamp::now());
    }
}

} // verus!
