//! The field-analysis assistant: the prompt that asks a language model which vault key a
//! form field expects, and the reading of its reply.

use crate::text::trim;
use crate::text::trimmed;
use crate::vault::Confidence;
use serde_json::Value;
use vstd::prelude::*;
use vstd::string::*;

verus! {

/// A form field to analyse, and the vault keys to choose from.
#[derive(Debug)]
pub struct AnalyzeFieldRequest {
    pub label: String,
    pub name: String,
    pub field_type: String,
    pub placeholder: Option<String>,
    pub semantic: Option<String>,
    pub available_keys: Vec<String>,
}

/// The model's suggestion: a vault key, if one fits, and how sure the model is.
#[derive(Debug)]
pub struct AnalyzeFieldResponse {
    pub vault_key: Option<String>,
    pub confidence: Confidence,
    pub reasoning: String,
}

/// The prompt up to the field's label.
pub const PROMPT_LABEL: &'static str =
    "You are analyzing a form field to determine which user data it expects.\n\nField information:\n- Label: \"";

/// The prompt between the field's label and its name.
pub const PROMPT_NAME: &'static str = "\"\n- Name attribute: \"";

/// The prompt between the field's name and its type.
pub const PROMPT_TYPE: &'static str = "\"\n- Input type: \"";

/// The prompt between the field's type and its placeholder.
pub const PROMPT_PLACEHOLDER: &'static str = "\"\n- Placeholder: ";

/// The prompt between the field's placeholder and its semantic hint.
pub const PROMPT_SEMANTIC: &'static str = "\n- Semantic hint: ";

/// The prompt between the field's semantic hint and the vault keys.
pub const PROMPT_KEYS: &'static str = "\n\nAvailable vault data keys:\n";

/// The prompt behind the vault keys: the task and the form of the answer.
pub const PROMPT_TASK: &'static str =
    "\n\nTask: Determine which vault key (if any) should be used to fill this field.\n\nRespond ONLY with valid JSON in this exact format:\n{\"vaultKey\": \"keyName\", \"confidence\": 0.85, \"reasoning\": \"explanation\"}\n\nOr if no match:\n{\"vaultKey\": null, \"confidence\": 0.0, \"reasoning\": \"explanation\"}\n\nConfidence scale:\n- 0.80-0.90: Strong semantic match\n- 0.60-0.80: Likely match but some ambiguity\n- 0.40-0.60: Possible match, low confidence\n- 0.0-0.40: No clear match\n\nIf no vault key matches, set vaultKey to null. Be conservative with confidence scores.";

/// The texts of `keys`, each behind a comma and a space but the first.
pub open spec fn joined(keys: Seq<String>) -> Seq<char>
    decreases keys.len(),
{
    if keys.len() == 0 {
        Seq::empty()
    } else if keys.len() == 1 {
        keys[0]@
    } else {
        joined(keys.drop_last()) + ", "@ + keys.last()@
    }
}

/// The text of an optional string, or `otherwise` where there is none.
pub open spec fn text_or(text: Option<String>, otherwise: Seq<char>) -> Seq<char> {
    match text {
        Some(t) => t@,
        None => otherwise,
    }
}

/// The prompt for `request`: the fixed words with the field's label, name, type,
/// placeholder and semantic hint and the vault keys in their places.
pub open spec fn prompt_for(request: AnalyzeFieldRequest) -> Seq<char> {
    PROMPT_LABEL@ + request.label@ + PROMPT_NAME@ + request.name@ + PROMPT_TYPE@
        + request.field_type@ + PROMPT_PLACEHOLDER@ + text_or(request.placeholder, "(none)"@)
        + PROMPT_SEMANTIC@ + text_or(request.semantic, "unknown"@) + PROMPT_KEYS@ + joined(
        request.available_keys@,
    ) + PROMPT_TASK@
}

/// The texts of `keys`, separated by a comma and a space.
pub fn join_keys(keys: &Vec<String>) -> (r: String)
    ensures
        r@ == joined(keys@),
{
    let mut out: String = String::new();
    let mut i: usize = 0;
    while i < keys.len()
        invariant
            i <= keys@.len(),
            out@ == joined(keys@.subrange(0, i as int)),
        decreases keys@.len() - i,
    {
        proof {
            let upto = keys@.subrange(0, i + 1);
            assert(upto.drop_last() =~= keys@.subrange(0, i as int));
            assert(upto.last() == keys@[i as int]);
            if i == 0 {
                assert(upto[0] == keys@[0]);
            }
        }
        if i > 0 {
            out.append(", ");
        }
        out.append(keys[i].as_str());
        i = i + 1;
    }
    proof {
        assert(keys@.subrange(0, keys@.len() as int) =~= keys@);
    }
    out
}

/// The prompt that asks which vault key the field of `request` expects.
pub fn build_prompt(request: &AnalyzeFieldRequest) -> (r: String)
    ensures
        r@ == prompt_for(*request),
{
    let keys: String = join_keys(&request.available_keys);
    let mut out: String = String::from_str(PROMPT_LABEL);
    out.append(request.label.as_str());
    out.append(PROMPT_NAME);
    out.append(request.name.as_str());
    out.append(PROMPT_TYPE);
    out.append(request.field_type.as_str());
    out.append(PROMPT_PLACEHOLDER);
    match &request.placeholder {
        Some(t) => out.append(t.as_str()),
        None => out.append("(none)"),
    }
    out.append(PROMPT_SEMANTIC);
    match &request.semantic {
        Some(t) => out.append(t.as_str()),
        None => out.append("unknown"),
    }
    out.append(PROMPT_KEYS);
    out.append(keys.as_str());
    out.append(PROMPT_TASK);
    out
}

/// A JSON value, as serde_json holds it. Nothing of what it holds is visible here.
#[verifier::external_type_specification]
#[verifier::external_body]
pub struct ExValue(serde_json::Value);

/// What serde_json reads from `text`: the JSON value that the text spells, or the message of
/// its error.
pub uninterp spec fn json_reading(text: Seq<char>) -> Result<Value, Seq<char>>;

/// The member `key` of a JSON object; `None` where `value` is no object or has no such
/// member.
pub uninterp spec fn json_member(value: Value, key: Seq<char>) -> Option<Value>;

/// The text of a JSON string; `None` where `value` is no string.
pub uninterp spec fn json_text(value: Value) -> Option<Seq<char>>;

/// The number that a JSON number stands for, as the bit pattern of a double; `None` where
/// `value` is no number.
pub uninterp spec fn json_number(value: Value) -> Option<u64>;

/// Calls `serde_json::from_str` for a `Value`; an error is handed on as the text that
/// serde_json displays for it. The result is the named reading of the text.
#[verifier::external_body]
fn read_json(text: &str) -> (r: Result<Value, String>)
    ensures
        match r {
            Ok(v) => json_reading(text@) == Ok::<Value, Seq<char>>(v),
            Err(e) => json_reading(text@) == Err::<Value, Seq<char>>(e@),
        },
{
    serde_json::from_str::<Value>(text).map_err(|e| e.to_string())
}

/// Calls `Value::get` with a string key. The result is the named member.
#[verifier::external_body]
fn member<'a>(value: &'a Value, key: &str) -> (r: Option<&'a Value>)
    ensures
        match r {
            Some(m) => json_member(*value, key@) == Some(*m),
            None => json_member(*value, key@) is None,
        },
{
    value.get(key)
}

/// Calls `Value::as_str` and copies the text. The result is the named text.
#[verifier::external_body]
fn text_of(value: &Value) -> (r: Option<String>)
    ensures
        match r {
            Some(t) => json_text(*value) == Some(t@),
            None => json_text(*value) is None,
        },
{
    value.as_str().map(|t| t.to_string())
}

/// Calls `Value::as_f64` and takes the bit pattern of the double with std's `f64::to_bits`.
/// The result is the named number.
#[verifier::external_body]
fn number_of(value: &Value) -> (r: Option<u64>)
    ensures
        r == json_number(*value),
{
    value.as_f64().map(|x| x.to_bits())
}

/// The text member `key` of `value`, if it has one.
pub open spec fn text_member(value: Value, key: Seq<char>) -> Option<Seq<char>> {
    match json_member(value, key) {
        Some(m) => json_text(m),
        None => None,
    }
}

/// The number member `key` of `value`, if it has one.
pub open spec fn number_member(value: Value, key: Seq<char>) -> Option<u64> {
    match json_member(value, key) {
        Some(m) => json_number(m),
        None => None,
    }
}

/// Whether `key` is one of `keys`.
pub open spec fn is_available(keys: Seq<String>, key: Seq<char>) -> bool {
    exists|i: int| 0 <= i < keys.len() && #[trigger] keys[i]@ == key
}

/// Whether `response` is what a reply with these members means: the suggested key where it
/// is one of the available keys, a confidence of zero where the reply names none, and a
/// few fixed words where it gives no reasoning.
pub open spec fn interprets(
    response: AnalyzeFieldResponse,
    vault_key: Option<Seq<char>>,
    confidence: Option<u64>,
    reasoning: Option<Seq<char>>,
    keys: Seq<String>,
) -> bool {
    &&& match vault_key {
        Some(k) => if is_available(keys, k) {
            response.vault_key matches Some(chosen) && chosen@ == k
        } else {
            response.vault_key is None
        },
        None => response.vault_key is None,
    }
    &&& response.confidence.bits == match confidence {
        Some(bits) => bits,
        None => 0,
    }
    &&& response.reasoning@ == match reasoning {
        Some(t) => t,
        None => "No reasoning provided"@,
    }
}

/// Whether `key` is one of `keys`.
pub fn key_is_available(keys: &[String], key: &String) -> (r: bool)
    ensures
        r == is_available(keys@, key@),
{
    let mut i: usize = 0;
    while i < keys.len()
        invariant
            i <= keys@.len(),
            forall|j: int| 0 <= j < i ==> (#[trigger] keys@[j])@ != key@,
        decreases keys@.len() - i,
    {
        if keys[i] == *key {
            return true;
        }
        i = i + 1;
    }
    false
}

/// The characters of an optional string.
pub open spec fn optional_text(text: Option<String>) -> Option<Seq<char>> {
    match text {
        Some(t) => Some(t@),
        None => None,
    }
}

/// The confidence's bits, if there is one.
pub open spec fn optional_bits(confidence: Option<Confidence>) -> Option<u64> {
    match confidence {
        Some(c) => Some(c.bits),
        None => None,
    }
}

/// What a reply with these members means, given the keys to choose from.
pub fn interpret_reply(
    vault_key: Option<String>,
    confidence: Option<Confidence>,
    reasoning: Option<String>,
    available_keys: &[String],
) -> (r: AnalyzeFieldResponse)
    ensures
        interprets(
            r,
            optional_text(vault_key),
            optional_bits(confidence),
            optional_text(reasoning),
            available_keys@,
        ),
{
    let chosen: Option<String> = match vault_key {
        Some(k) => if key_is_available(available_keys, &k) {
            Some(k)
        } else {
            None
        },
        None => None,
    };
    let sure: Confidence = match confidence {
        Some(c) => c,
        None => Confidence { bits: 0 },
    };
    let why: String = match reasoning {
        Some(t) => t,
        None => String::from_str("No reasoning provided"),
    };
    AnalyzeFieldResponse { vault_key: chosen, confidence: sure, reasoning: why }
}

/// Reads the model's reply: a JSON object with the members `vaultKey`, `confidence` and
/// `reasoning`, surrounded by white space at most. A reply that is no JSON is an error, in
/// words; members that are missing or of another kind count as not given.
pub fn parse_llm_response(text: &str, available_keys: &[String]) -> (r: Result<
    AnalyzeFieldResponse,
    String,
>)
    ensures
        match json_reading(trimmed(text@)) {
            Ok(value) => r matches Ok(response) && interprets(
                response,
                text_member(value, "vaultKey"@),
                number_member(value, "confidence"@),
                text_member(value, "reasoning"@),
                available_keys@,
            ),
            Err(why) => r matches Err(e) && e@ == "Failed to parse LLM response as JSON: "@
                + why,
        },
{
    let body: String = trim(text);
    let parsed: Value = match read_json(body.as_str()) {
        Ok(v) => v,
        Err(e) => {
            return Err(
                String::from_str("Failed to parse LLM response as JSON: ").concat(e.as_str()),
            );
        },
    };
    let vault_key: Option<String> = match member(&parsed, "vaultKey") {
        Some(m) => text_of(m),
        None => None,
    };
    let confidence: Option<Confidence> = match member(&parsed, "confidence") {
        Some(m) => match number_of(m) {
            Some(bits) => Some(Confidence { bits }),
            None => None,
        },
        None => None,
    };
    let reasoning: Option<String> = match member(&parsed, "reasoning") {
        Some(m) => text_of(m),
        None => None,
    };
    Ok(interpret_reply(vault_key, confidence, reasoning, available_keys))
}

/// The error for a call of the model's service that came back with a failure status.
pub fn api_failure(status: &str, body: &str) -> (r: String)
    ensures
        r@ == "API returned "@ + status@ + ": "@ + body@,
{
    let mut out: String = String::from_str("API returned ");
    out.append(status);
    out.append(": ");
    out.append(body);
    out
}

/// The text of the model's reply: the first of the texts that the service sent, and the
/// empty text where it sent none.
pub fn first_text(texts: &[String]) -> (r: String)
    ensures
        r@ == if texts@.len() > 0 {
            texts@[0]@
        } else {
            Seq::<char>::empty()
        },
{
    if texts.len() > 0 {
        texts[0].clone()
    } else {
        String::new()
    }
}

} // verus!
