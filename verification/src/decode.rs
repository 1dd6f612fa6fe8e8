//! Percent-decoding of the components of a request's address.

use vstd::prelude::*;

verus! {

/// What percent-decoding makes of `data`: each `%` with two hexadecimal digits behind it
/// becomes the byte they spell, and the bytes are read as UTF-8; `None` where they are not
/// valid UTF-8.
pub uninterp spec fn percent_decoding(data: Seq<char>) -> Option<Seq<char>>;

/// The text that a decoding stands for in a request: what was decoded, and the empty text
/// where nothing could be.
pub open spec fn decoded_or_empty(outcome: Option<Seq<char>>) -> Seq<char> {
    match outcome {
        Some(t) => t,
        None => Seq::empty(),
    }
}

/// The characters of an optional string.
pub open spec fn view_of_string(text: Option<String>) -> Option<Seq<char>> {
    match text {
        Some(t) => Some(t@),
        None => None,
    }
}

/// Calls `urlencoding::decode` and copies what it borrowed. The result is the named decoding
/// of the text; a text without any `%` comes back as it is.
#[verifier::external_body]
fn percent_decode(data: &str) -> (r: Option<String>)
    ensures
        view_of_string(r) == percent_decoding(data@),
        !data@.contains('%') ==> view_of_string(r) == Some(data@),
{
    urlencoding::decode(data).ok().map(|t| t.into_owned())
}

/// The text that the outcome of a decoding stands for: the decoded text, or the empty text.
pub fn text_or_empty(outcome: Option<String>) -> (r: String)
    ensures
        r@ == decoded_or_empty(view_of_string(outcome)),
{
    match outcome {
        Some(t) => t,
        None => String::new(),
    }
}

/// `raw` percent-decoded; the empty text where the decoded bytes are not valid UTF-8.
pub fn decode_component(raw: &str) -> (r: String)
    ensures
        r@ == decoded_or_empty(percent_decoding(raw@)),
        !raw@.contains('%') ==> r@ == raw@,
{
    text_or_empty(percent_decode(raw))
}

} // verus!
