use asterisk_bridge::decode::{decode_component, text_or_empty};
use asterisk_bridge::escape::quote_json;
use asterisk_bridge::text::{
    blank, chars_of, find_in, same_text, starts_with, text_after, trim, white_space,
};

#[test]
fn strings_compare_as_std_compares_them() {
    let samples = [
        "", "a", "b", "ab", "abc", "abd", "B", "é", "z", "日本", "2024-06-01T12:00:00+00:00",
        "2024-06-01T12:00:00.5+00:00", "2024-06-01T13:00:00+00:00", "2025", "\u{10FFFF}",
    ];
    for a in samples.iter() {
        for b in samples.iter() {
            assert_eq!(same_text(a, b), a == b);
            assert_eq!(starts_with(a, b), a.starts_with(b));
        }
    }
}

#[test]
fn white_space_is_what_std_calls_white_space() {
    let mut code: u32 = 0;
    while code <= 0x10FFFF {
        if let Some(c) = char::from_u32(code) {
            assert_eq!(white_space(c), c.is_whitespace());
        }
        code += 1;
    }
}

#[test]
fn blank_and_trim_follow_std() {
    let samples = ["", " ", "\t\r\n", " a ", "a", "\u{3000}x\u{2003}", "  {\"k\": 1}\n", " a b "];
    for s in samples.iter() {
        assert_eq!(blank(s), s.trim().is_empty());
        assert_eq!(trim(s), s.trim());
    }
}

#[test]
fn characters_and_remainders() {
    assert_eq!(chars_of("héllo"), vec!['h', 'é', 'l', 'l', 'o']);
    assert_eq!(text_after("héllo", 2), "llo");
    assert_eq!(text_after("abc", 3), "");
}

#[test]
fn search_finds_the_first_occurrence() {
    let hay: Vec<char> = "a?domain=b?domain=c".chars().collect();
    let mark: Vec<char> = "?domain=".chars().collect();
    assert_eq!(find_in(&hay, &mark, 0), Some(1));
    assert_eq!(find_in(&hay, &mark, 2), Some(10));
    assert_eq!(find_in(&hay, &mark, 11), None);
    assert_eq!(find_in(&mark, &hay, 0), None);
    let empty: Vec<char> = Vec::new();
    assert_eq!(find_in(&hay, &empty, 0), Some(0));
}

#[test]
fn percent_decoding_decodes() {
    assert_eq!(decode_component("a%20b"), "a b");
    assert_eq!(decode_component("user%40example.com"), "user@example.com");
    assert_eq!(decode_component("plain"), "plain");
    assert_eq!(decode_component("a+b"), "a+b");
    assert_eq!(decode_component("100%"), "100%");
    assert_eq!(decode_component("%E2%9C%93"), "✓");
    assert_eq!(decode_component(""), "");
}

#[test]
fn undecodable_component_counts_as_empty() {
    assert_eq!(decode_component("%FF"), "");
    assert_eq!(text_or_empty(None), "");
    assert_eq!(text_or_empty(Some("k".to_string())), "k");
}

#[test]
fn text_is_quoted_as_a_json_string() {
    assert_eq!(quote_json(""), "\"\"");
    assert_eq!(quote_json("plain"), "\"plain\"");
    assert_eq!(quote_json("say \"hi\""), "\"say \\\"hi\\\"\"");
    assert_eq!(quote_json("a\\b"), "\"a\\\\b\"");
    assert_eq!(quote_json("line\nbreak\ttab"), "\"line\\u000abreak\\u0009tab\"");
    assert_eq!(quote_json("\u{0}\u{1f}"), "\"\\u0000\\u001f\"");
    assert_eq!(quote_json("é ✓ /"), "\"é ✓ /\"");
}

#[test]
fn quoted_text_reads_back_as_the_text() {
    let mut all = String::new();
    let mut code: u32 = 0;
    while code < 0x300 {
        if let Some(c) = char::from_u32(code) {
            all.push(c);
        }
        code += 1;
    }
    all.push('\u{2028}');
    all.push('\u{10FFFF}');
    let samples = [all.as_str(), "", "\"", "\\", "\\\"", "expected `,` or `}` at line 1 column 5"];
    for s in samples.iter() {
        let back: String = serde_json::from_str(&quote_json(s)).unwrap();
        assert_eq!(&back, s);
    }
}
