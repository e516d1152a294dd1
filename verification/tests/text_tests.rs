use crashfinder::text::{contains_substr, str_lt};

#[test]
fn lexicographic_order_by_code_point() {
    assert!(str_lt("alpha", "beta"));
    assert!(!str_lt("beta", "alpha"));
    assert!(str_lt("Z", "a"));
    assert!(str_lt("alpha-1.0", "alpha-hyphen-name-2.3"));
    assert!(str_lt("alpha-hyphen-name-2.3", "beta-0.2"));
}

#[test]
fn proper_prefix_sorts_first() {
    assert!(str_lt("alpha", "alpha-1"));
    assert!(!str_lt("alpha-1", "alpha"));
    assert!(str_lt("", "a"));
}

#[test]
fn equal_strings_are_not_ordered() {
    assert!(!str_lt("alpha", "alpha"));
    assert!(!str_lt("", ""));
}

#[test]
fn containment_finds_patterns_at_every_position() {
    assert!(contains_substr("internal compiler error: x", "internal compiler error:"));
    assert!(contains_substr("x internal compiler error:", "internal compiler error:"));
    assert!(contains_substr("abc", "a"));
    assert!(contains_substr("abc", "c"));
    assert!(!contains_substr("", "a"));
    assert!(contains_substr("", ""));
}
