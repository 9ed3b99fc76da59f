use solstice::utils::truncate_str;

#[test]
fn test_truncate_no_truncation() {
    assert_eq!(truncate_str("Hello", 10), "Hello");
}

#[test]
fn test_truncate_exact_fit() {
    assert_eq!(truncate_str("Hello", 5), "Hello");
}

#[test]
fn test_truncate_with_ellipsis() {
    assert_eq!(truncate_str("Hello World", 5), "Hell…");
}

#[test]
fn test_truncate_zero_max() {
    assert_eq!(truncate_str("Hello", 0), "Hello");
}

#[test]
fn test_truncate_empty() {
    assert_eq!(truncate_str("", 5), "");
}

#[test]
fn truncate_counts_characters_not_bytes() {
    assert_eq!(truncate_str("ñañañaña", 4), "ñañ…");
    assert_eq!(truncate_str("ñaña", 4), "ñaña");
    assert_eq!(truncate_str("abc", 1), "…");
}
