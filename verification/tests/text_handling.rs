use zinit_client::text::{contains, find, is_whitespace, str_eq, string_of, to_chars, trim_range};

#[test]
fn whitespace_agrees_with_std() {
    for n in 0u32..=0x10FFFF {
        if let Some(c) = char::from_u32(n) {
            assert_eq!(is_whitespace(c), c.is_whitespace(), "U+{:04X}", n);
        }
    }
}

#[test]
fn trim_agrees_with_std() {
    for s in ["", "  ", " a ", "\tab c\n", "x", "\u{3000}y\u{2028}", " a b "] {
        let v = to_chars(s);
        assert_eq!(trim_range(&v, 0, v.len()), s.trim());
    }
}

#[test]
fn substring_search() {
    let hay = to_chars("service \"web\" is up");
    assert!(contains(&hay, &to_chars("is up")));
    assert!(!contains(&hay, &to_chars("is down")));
    assert!(contains(&hay, &to_chars("")));
    assert_eq!(find(&hay, &to_chars("web"), 0), 9);
    assert_eq!(find(&hay, &to_chars("web"), 10), hay.len());
}

#[test]
fn equality_and_ranges() {
    assert!(str_eq("Running", "Running"));
    assert!(!str_eq("Running", "running"));
    let v = to_chars("héllo wörld");
    assert_eq!(string_of(&v, 6, 11), "wörld");
}
