use fluid_voice_windows::text::{
    chars_of, decimal_string, parse_u32, split_trimmed_tokens, to_ascii_lowercase, trim_chars,
};

fn s(v: &[char]) -> String {
    v.iter().collect()
}

#[test]
fn trimming_matches_str_trim() {
    for case in ["  a b  ", "\u{3000}x\u{a0}", "", "   ", "\tq\n", "\u{85}z"] {
        let v = chars_of(case);
        assert_eq!(s(&trim_chars(&v)), case.trim());
    }
}

#[test]
fn lowercasing_touches_ascii_only() {
    let v = chars_of("AbÇ-Z");
    assert_eq!(s(&to_ascii_lowercase(&v)), "AbÇ-Z".to_ascii_lowercase());
}

#[test]
fn tokens_drop_empty_pieces() {
    let v = chars_of("+ a ++b+ ");
    let tokens: Vec<String> = split_trimmed_tokens(&v, '+').iter().map(|t| s(t)).collect();
    assert_eq!(tokens, vec!["a".to_string(), "b".to_string()]);
}

#[test]
fn u32_parsing_matches_str_parse() {
    for case in ["0", "+7", "4294967295", "4294967296", "", "+", "-1", "12a", "007", "++1"] {
        let v = chars_of(case);
        assert_eq!(parse_u32(&v), case.parse::<u32>().ok(), "case {case:?}");
    }
}

#[test]
fn decimal_strings() {
    for n in [0u64, 7, 10, 401, 18446744073709551615] {
        assert_eq!(decimal_string(n), n.to_string());
    }
}
