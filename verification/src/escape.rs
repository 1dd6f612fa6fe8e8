//! Texts written as JSON strings.

use crate::text::chars_of;
use vstd::prelude::*;
use vstd::string::*;

verus! {

/// The hexadecimal digit of a number below sixteen.
pub open spec fn hex_digit(n: int) -> Seq<char> {
    if n == 0 {
        "0"@
    } else if n == 1 {
        "1"@
    } else if n == 2 {
        "2"@
    } else if n == 3 {
        "3"@
    } else if n == 4 {
        "4"@
    } else if n == 5 {
        "5"@
    } else if n == 6 {
        "6"@
    } else if n == 7 {
        "7"@
    } else if n == 8 {
        "8"@
    } else if n == 9 {
        "9"@
    } else if n == 10 {
        "a"@
    } else if n == 11 {
        "b"@
    } else if n == 12 {
        "c"@
    } else if n == 13 {
        "d"@
    } else if n == 14 {
        "e"@
    } else {
        "f"@
    }
}

/// How a character stands inside a JSON string: a double quote and a backslash behind a
/// backslash, a character below the space as `\u00` and its two hexadecimal digits, and every
/// other character as itself.
pub open spec fn escaped(c: char) -> Seq<char> {
    let code = c as u32;
    if code == 0x22 {
        "\\\""@
    } else if code == 0x5C {
        "\\\\"@
    } else if code < 0x20 {
        "\\u00"@ + hex_digit(code as int / 16) + hex_digit(code as int % 16)
    } else {
        seq![c]
    }
}

/// The characters of `text`, each as it stands inside a JSON string.
pub open spec fn escaped_all(text: Seq<char>) -> Seq<char>
    decreases text.len(),
{
    if text.len() == 0 {
        Seq::empty()
    } else {
        escaped_all(text.drop_last()) + escaped(text.last())
    }
}

/// `text` as a JSON string: between double quotes, every character escaped as JSON asks.
pub open spec fn json_string(text: Seq<char>) -> Seq<char> {
    "\""@ + escaped_all(text) + "\""@
}

/// The hexadecimal digit of a number below sixteen.
fn hex(n: u32) -> (r: &'static str)
    requires
        n < 16,
    ensures
        r@ == hex_digit(n as int),
{
    if n == 0 {
        "0"
    } else if n == 1 {
        "1"
    } else if n == 2 {
        "2"
    } else if n == 3 {
        "3"
    } else if n == 4 {
        "4"
    } else if n == 5 {
        "5"
    } else if n == 6 {
        "6"
    } else if n == 7 {
        "7"
    } else if n == 8 {
        "8"
    } else if n == 9 {
        "9"
    } else if n == 10 {
        "a"
    } else if n == 11 {
        "b"
    } else if n == 12 {
        "c"
    } else if n == 13 {
        "d"
    } else if n == 14 {
        "e"
    } else {
        "f"
    }
}

/// `text` as a JSON string.
pub fn quote_json(text: &str) -> (r: String)
    ensures
        r@ == json_string(text@),
{
    let chars: Vec<char> = chars_of(text);
    let mut out: String = String::from_str("\"");
    let mut i: usize = 0;
    while i < chars.len()
        invariant
            chars@ == text@,
            i <= chars@.len(),
            out@ == "\""@ + escaped_all(text@.subrange(0, i as int)),
        decreases chars@.len() - i,
    {
        proof {
            let upto = text@.subrange(0, i + 1);
            assert(upto.drop_last() =~= text@.subrange(0, i as int));
            assert(upto.last() == text@[i as int]);
        }
        let ghost before = out@;
        let code: u32 = chars[i] as u32;
        if code == 0x22 {
            out.append("\\\"");
        } else if code == 0x5C {
            out.append("\\\\");
        } else if code < 0x20 {
            out.append("\\u00");
            out.append(hex(code / 16));
            out.append(hex(code % 16));
        } else {
            let one: &str = text.substring_char(i, i + 1);
            assert(one@ =~= seq![text@[i as int]]);
            out.append(one);
        }
        assert(out@ =~= before + escaped(text@[i as int]));
        i = i + 1;
        assert(out@ =~= "\""@ + escaped_all(text@.subrange(0, i as int)));
    }
    proof {
        assert(text@.subrange(0, text@.len() as int) =~= text@);
    }
    out.append("\"");
    out
}

} // verus!
