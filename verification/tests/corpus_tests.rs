use crashfinder::corpus::build_corpus;

fn names(files: &[&str]) -> Vec<String> {
    files.iter().map(|f| f.to_string()).collect()
}

#[test]
fn three_item_corpus_sorts_by_canonical_string() {
    let files = names(&[
        "alpha-1.0.crate",
        "beta-0.2.crate",
        "alpha-hyphen-name-2.3.crate",
    ]);
    let corpus = build_corpus(&files);
    let canon: Vec<String> = corpus.iter().map(|id| id.canonical()).collect();
    assert_eq!(canon, vec!["alpha-1.0", "alpha-hyphen-name-2.3", "beta-0.2"]);
    assert_eq!(corpus[0].name, "alpha");
    assert_eq!(corpus[0].version, "1.0");
    assert_eq!(corpus[1].name, "alpha-hyphen-name");
    assert_eq!(corpus[1].version, "2.3");
    assert_eq!(corpus[2].name, "beta");
    assert_eq!(corpus[2].version, "0.2");
}

#[test]
fn unparseable_entries_are_skipped_not_fatal() {
    let files = names(&[
        "README.md",
        "zeta-1.0.crate",
        "junk",
        ".crate",
        "eta-0.1.crate",
    ]);
    let corpus = build_corpus(&files);
    let canon: Vec<String> = corpus.iter().map(|id| id.canonical()).collect();
    assert_eq!(canon, vec!["eta-0.1", "zeta-1.0"]);
}

#[test]
fn duplicate_listings_collapse_to_one_identifier() {
    let files = names(&[
        "alpha-1.0.crate",
        "alpha-1.0.crate",
        "alpha-1.0.crate",
    ]);
    let corpus = build_corpus(&files);
    assert_eq!(corpus.len(), 1);
    assert_eq!(corpus[0].canonical(), "alpha-1.0");
}

#[test]
fn order_is_independent_of_listing_order() {
    let a = names(&["b-1.crate", "a-2.crate", "c-0.crate"]);
    let b = names(&["c-0.crate", "b-1.crate", "a-2.crate"]);
    let left: Vec<String> = build_corpus(&a).iter().map(|id| id.canonical()).collect();
    let right: Vec<String> = build_corpus(&b).iter().map(|id| id.canonical()).collect();
    assert_eq!(left, vec!["a-2", "b-1", "c-0"]);
    assert_eq!(left, right);
}

#[test]
fn corpus_is_sorted_and_free_of_duplicates() {
    let files = names(&[
        "tokio-1.0.crate",
        "serde-1.0.104.crate",
        "serde-1.0.104.crate",
        "serde_json-1.0.44.crate",
        "proc-macro-hack-0.5.11.crate",
        "a-b-c-1.crate",
        "a-b-2.crate",
        "garbage.txt",
    ]);
    let corpus = build_corpus(&files);
    let canon: Vec<String> = corpus.iter().map(|id| id.canonical()).collect();
    let mut sorted = canon.clone();
    sorted.sort();
    sorted.dedup();
    assert_eq!(canon, sorted);
    assert_eq!(corpus.len(), 6);
}

#[test]
fn empty_listing_gives_empty_corpus() {
    let corpus = build_corpus(&Vec::new());
    assert!(corpus.is_empty());
}
