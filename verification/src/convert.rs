//! Vault items as the vault holds them and as the extension sees them, and the way from
//! one to the other.

use crate::store::is_listing;
use crate::text::same_text;
use crate::timestamp::rfc3339_reading;
use crate::timestamp::Timestamp;
use crate::vault::Provenance;
use crate::vault::ProvenanceSource;
use crate::vault::VaultCategory;
use crate::vault::VaultItem;
use crate::vault::VaultMetadata;
use crate::wire::ProvenanceJson;
use crate::wire::VaultItemJson;
use crate::wire::VaultMetadataJson;
use vstd::prelude::*;
use vstd::string::*;

verus! {

/// The name under which the extension knows a category.
pub open spec fn category_name(category: VaultCategory) -> Seq<char> {
    match category {
        VaultCategory::Identity => "identity"@,
        VaultCategory::Contact => "contact"@,
        VaultCategory::Address => "address"@,
        VaultCategory::Financial => "financial"@,
        VaultCategory::Custom => "custom"@,
    }
}

/// The category that `name` names.
pub open spec fn category_named(name: Seq<char>) -> Option<VaultCategory> {
    if name == "identity"@ {
        Some(VaultCategory::Identity)
    } else if name == "contact"@ {
        Some(VaultCategory::Contact)
    } else if name == "address"@ {
        Some(VaultCategory::Address)
    } else if name == "financial"@ {
        Some(VaultCategory::Financial)
    } else if name == "custom"@ {
        Some(VaultCategory::Custom)
    } else {
        None
    }
}

/// The name under which the extension knows a source.
pub open spec fn source_name(source: ProvenanceSource) -> Seq<char> {
    match source {
        ProvenanceSource::UserEntered => "user_entered"@,
        ProvenanceSource::Imported => "imported"@,
        ProvenanceSource::Autofilled => "autofilled"@,
    }
}

/// The source that `name` names.
pub open spec fn source_named(name: Seq<char>) -> Option<ProvenanceSource> {
    if name == "user_entered"@ {
        Some(ProvenanceSource::UserEntered)
    } else if name == "imported"@ {
        Some(ProvenanceSource::Imported)
    } else if name == "autofilled"@ {
        Some(ProvenanceSource::Autofilled)
    } else {
        None
    }
}

/// Whether `text` is the RFC 3339 text of an optional instant.
pub open spec fn spells_optional(text: Option<String>, instant: Option<Timestamp>) -> bool {
    match instant {
        Some(t) => text matches Some(s) && s@ == t.text(),
        None => text is None,
    }
}

/// Whether `json` shows `item`: the same strings and numbers, the category and the source by
/// name, every instant as its RFC 3339 text.
pub open spec fn shows(json: VaultItemJson, item: VaultItem) -> bool {
    &&& json.key == item.key
    &&& json.value == item.value
    &&& json.label == item.label
    &&& json.category@ == category_name(item.category)
    &&& json.provenance.source@ == source_name(item.provenance.source)
    &&& json.provenance.timestamp@ == item.provenance.timestamp.text()
    &&& json.provenance.confidence == item.provenance.confidence
    &&& json.provenance.origin == item.provenance.origin
    &&& json.metadata.created@ == item.metadata.created.text()
    &&& json.metadata.updated@ == item.metadata.updated.text()
    &&& spells_optional(json.metadata.last_used, item.metadata.last_used)
    &&& json.metadata.usage_count == item.metadata.usage_count
}

/// Whether `text` reads as the instant `t`.
pub open spec fn reads_as(text: Seq<char>, t: Timestamp) -> bool {
    rfc3339_reading(text) == Ok::<(i64, u32), Seq<char>>((t.secs(), t.nanos()))
}

/// Whether an optional text reads as an optional instant.
pub open spec fn reads_as_optional(text: Option<String>, instant: Option<Timestamp>) -> bool {
    match text {
        Some(s) => instant matches Some(t) && reads_as(s@, t),
        None => instant is None,
    }
}

/// Whether `item` is what `json` decodes to.
pub open spec fn decodes_to(json: VaultItemJson, item: VaultItem) -> bool {
    &&& item.key == json.key
    &&& item.value == json.value
    &&& item.label == json.label
    &&& category_named(json.category@) == Some(item.category)
    &&& source_named(json.provenance.source@) == Some(item.provenance.source)
    &&& reads_as(json.provenance.timestamp@, item.provenance.timestamp)
    &&& item.provenance.confidence == json.provenance.confidence
    &&& item.provenance.origin == json.provenance.origin
    &&& reads_as(json.metadata.created@, item.metadata.created)
    &&& reads_as(json.metadata.updated@, item.metadata.updated)
    &&& reads_as_optional(json.metadata.last_used, item.metadata.last_used)
    &&& item.metadata.usage_count == json.metadata.usage_count
}

/// Why `json` cannot be decoded, in words: the first of its faults, looking at the category,
/// the source, the provenance timestamp, the creation time, the update time and the time of
/// last use, in this order. `None` where it has no fault.
pub open spec fn refusal(json: VaultItemJson) -> Option<Seq<char>> {
    if category_named(json.category@) is None {
        Some("Invalid category: "@ + json.category@)
    } else if source_named(json.provenance.source@) is None {
        Some("Invalid source: "@ + json.provenance.source@)
    } else if rfc3339_reading(json.provenance.timestamp@) is Err {
        Some("Invalid timestamp: "@ + rfc3339_reading(json.provenance.timestamp@)->Err_0)
    } else if rfc3339_reading(json.metadata.created@) is Err {
        Some("Invalid created timestamp: "@ + rfc3339_reading(json.metadata.created@)->Err_0)
    } else if rfc3339_reading(json.metadata.updated@) is Err {
        Some("Invalid updated timestamp: "@ + rfc3339_reading(json.metadata.updated@)->Err_0)
    } else if json.metadata.last_used is Some && rfc3339_reading(json.metadata.last_used->0@)
        is Err {
        Some(
            "Invalid last_used timestamp: "@ + rfc3339_reading(
                json.metadata.last_used->0@,
            )->Err_0,
        )
    } else {
        None
    }
}

/// The category that `name` names.
pub fn parse_category(name: &str) -> (r: Option<VaultCategory>)
    ensures
        r == category_named(name@),
{
    if same_text(name, "identity") {
        Some(VaultCategory::Identity)
    } else if same_text(name, "contact") {
        Some(VaultCategory::Contact)
    } else if same_text(name, "address") {
        Some(VaultCategory::Address)
    } else if same_text(name, "financial") {
        Some(VaultCategory::Financial)
    } else if same_text(name, "custom") {
        Some(VaultCategory::Custom)
    } else {
        None
    }
}

/// The source that `name` names.
pub fn parse_source(name: &str) -> (r: Option<ProvenanceSource>)
    ensures
        r == source_named(name@),
{
    if same_text(name, "user_entered") {
        Some(ProvenanceSource::UserEntered)
    } else if same_text(name, "imported") {
        Some(ProvenanceSource::Imported)
    } else if same_text(name, "autofilled") {
        Some(ProvenanceSource::Autofilled)
    } else {
        None
    }
}

/// The name under which the extension knows `category`.
pub fn category_text(category: VaultCategory) -> (r: String)
    ensures
        r@ == category_name(category),
{
    match category {
        VaultCategory::Identity => String::from_str("identity"),
        VaultCategory::Contact => String::from_str("contact"),
        VaultCategory::Address => String::from_str("address"),
        VaultCategory::Financial => String::from_str("financial"),
        VaultCategory::Custom => String::from_str("custom"),
    }
}

/// The name under which the extension knows `source`.
pub fn source_text(source: ProvenanceSource) -> (r: String)
    ensures
        r@ == source_name(source),
{
    match source {
        ProvenanceSource::UserEntered => String::from_str("user_entered"),
        ProvenanceSource::Imported => String::from_str("imported"),
        ProvenanceSource::Autofilled => String::from_str("autofilled"),
    }
}

impl VaultItemJson {
    /// The item as the extension sees it.
    pub fn from(item: VaultItem) -> (r: VaultItemJson)
        ensures
            shows(r, item),
    {
        let last_used: Option<String> = match item.metadata.last_used {
            Some(t) => Some(t.to_rfc3339()),
            None => None,
        };
        VaultItemJson {
            key: item.key,
            value: item.value,
            label: item.label,
            category: category_text(item.category),
            provenance: ProvenanceJson {
                source: source_text(item.provenance.source),
                timestamp: item.provenance.timestamp.to_rfc3339(),
                confidence: item.provenance.confidence,
                origin: item.provenance.origin,
            },
            metadata: VaultMetadataJson {
                created: item.metadata.created.to_rfc3339(),
                updated: item.metadata.updated.to_rfc3339(),
                last_used,
                usage_count: item.metadata.usage_count,
            },
        }
    }
}

impl VaultItem {
    /// The item that `json` describes, or the first fault of `json` in words.
    pub fn try_from(json: VaultItemJson) -> (r: Result<VaultItem, String>)
        ensures
            match r {
                Ok(item) => refusal(json) is None && decodes_to(json, item),
                Err(why) => refusal(json) == Some(why@),
            },
    {
        let category: VaultCategory = match parse_category(json.category.as_str()) {
            Some(c) => c,
            None => {
                return Err(String::from_str("Invalid category: ").concat(json.category.as_str()));
            },
        };
        let source: ProvenanceSource = match parse_source(json.provenance.source.as_str()) {
            Some(s) => s,
            None => {
                return Err(
                    String::from_str("Invalid source: ").concat(json.provenance.source.as_str()),
                );
            },
        };
        let timestamp: Timestamp = match Timestamp::parse_rfc3339(
            json.provenance.timestamp.as_str(),
        ) {
            Ok(t) => t,
            Err(e) => {
                return Err(String::from_str("Invalid timestamp: ").concat(e.as_str()));
            },
        };
        let created: Timestamp = match Timestamp::parse_rfc3339(json.metadata.created.as_str()) {
            Ok(t) => t,
            Err(e) => {
                return Err(String::from_str("Invalid created timestamp: ").concat(e.as_str()));
            },
        };
        let updated: Timestamp = match Timestamp::parse_rfc3339(json.metadata.updated.as_str()) {
            Ok(t) => t,
            Err(e) => {
                return Err(String::from_str("Invalid updated timestamp: ").concat(e.as_str()));
            },
        };
        let last_used: Option<Timestamp> = match &json.metadata.last_used {
            Some(s) => match Timestamp::parse_rfc3339(s.as_str()) {
                Ok(t) => Some(t),
                Err(e) => {
                    return Err(
                        String::from_str("Invalid last_used timestamp: ").concat(e.as_str()),
                    );
                },
            },
            None => None,
        };
        Ok(
            VaultItem {
                key: json.key,
                value: json.value,
                label: json.label,
                category,
                provenance: Provenance {
                    source,
                    timestamp,
                    confidence: json.provenance.confidence,
                    origin: json.provenance.origin,
                },
                metadata: VaultMetadata {
                    created,
                    updated,
                    last_used,
                    usage_count: json.metadata.usage_count,
                },
            },
        )
    }
}

/// Whether `shown` shows the `items`, position by position.
pub open spec fn shows_all(shown: Seq<VaultItemJson>, items: Seq<VaultItem>) -> bool {
    shown.len() == items.len() && forall|i: int|
        0 <= i < shown.len() ==> shows(#[trigger] shown[i], items[i])
}

/// Whether `shown` shows the vault: every stored item once, in some order.
pub open spec fn shows_listing(shown: Seq<VaultItemJson>, vault: Map<Seq<char>, VaultItem>) -> bool {
    exists|items: Seq<VaultItem>| #[trigger] is_listing(items, vault) && shows_all(shown, items)
}

/// The items as the extension sees them.
pub fn shown_items(items: Vec<VaultItem>) -> (r: Vec<VaultItemJson>)
    ensures
        shows_all(r@, items@),
{
    let ghost all = items@;
    let mut out: Vec<VaultItemJson> = Vec::new();
    for item in it: items
        invariant
            it.seq() == all,
            out@.len() == it.index(),
            forall|j: int| 0 <= j < out@.len() ==> shows(#[trigger] out@[j], all[j]),
    {
        out.push(VaultItemJson::from(item));
    }
    out
}

} // verus!
