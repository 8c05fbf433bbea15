use paii::registry::{
    cache_file_name, classify_fetch, find_in_listings, http_fetch_outcome, parse_cached_listings,
    parse_listing_text, search_listings, FetchMethod, RegistryListing,
};

const DB_REGISTRY: &str = r#"
[registry]
name = "data"

[[plugins]]
name = "sqlite-store"
description = "A local database-backed store"
tags = ["Database", "sqlite"]

[[plugins]]
name = "postgres-Database"
version = "0.3"

[[plugins]]
name = "scratchpad"
description = "notes"
tags = ["text"]
"#;

const OTHER_REGISTRY: &str = r#"
[registry]
name = "misc"

[[plugins]]
name = "weather"
description = "forecasts"
tags = ["net"]
"#;

fn listings() -> Vec<RegistryListing> {
    vec![
        parse_listing_text(DB_REGISTRY).unwrap(),
        parse_listing_text(OTHER_REGISTRY).unwrap(),
    ]
}

#[test]
fn search_is_case_insensitive_over_name_description_and_tags() {
    let results = search_listings(&listings(), "database");
    let names: Vec<&str> = results.iter().map(|(_, e)| e.name.as_str()).collect();
    // Only entries of the first registry match: one by tag, one by name.
    assert_eq!(names, vec!["sqlite-store", "postgres-Database"]);
    for (registry, _) in &results {
        assert_eq!(registry, "data");
    }

    // Match on description as well, still case-insensitively.
    let results = search_listings(&listings(), "FORECAST");
    assert_eq!(results.len(), 1);
    assert_eq!(results[0].0, "misc");
    assert_eq!(results[0].1.name, "weather");

    // A query nothing matches.
    assert!(search_listings(&listings(), "no-such-thing").is_empty());
}

#[test]
fn find_takes_first_match_in_enumeration_order() {
    let a = parse_listing_text(
        "[registry]\nname = \"first\"\n\n[[plugins]]\nname = \"dup\"\nversion = \"1\"\n",
    )
    .unwrap();
    let b = parse_listing_text(
        "[registry]\nname = \"second\"\n\n[[plugins]]\nname = \"dup\"\nversion = \"2\"\n",
    )
    .unwrap();
    let (registry, entry) = find_in_listings(&vec![a, b], "dup").unwrap();
    assert_eq!(registry, "first");
    assert_eq!(entry.version.as_deref(), Some("1"));

    assert!(find_in_listings(&listings(), "absent").is_none());
}

#[test]
fn listing_parsing_requires_registry_name() {
    let err = parse_listing_text("[[plugins]]\nname = \"x\"\n").unwrap_err();
    assert!(matches!(err, paii::errors::CoreError::InvalidInput { .. }));

    let err = parse_listing_text("not toml [").unwrap_err();
    assert!(matches!(err, paii::errors::CoreError::InvalidInput { .. }));

    let ok = parse_listing_text("[registry]\nname = \"empty\"\n").unwrap();
    assert_eq!(ok.name, "empty");
    assert!(ok.entries.is_empty());
}

#[test]
fn fetch_classification() {
    match classify_fetch("file:///srv/reg.toml") {
        FetchMethod::LocalFile { path } => assert_eq!(path, "/srv/reg.toml"),
        other => panic!("expected LocalFile, got {:?}", other),
    }
    match classify_fetch("./local/reg.toml") {
        FetchMethod::LocalFile { path } => assert_eq!(path, "./local/reg.toml"),
        other => panic!("expected LocalFile, got {:?}", other),
    }
    match classify_fetch("https://example/reg.toml") {
        FetchMethod::Http { url } => assert_eq!(url, "https://example/reg.toml"),
        other => panic!("expected Http, got {:?}", other),
    }
    assert!(matches!(classify_fetch("ftp://example/reg.toml"), FetchMethod::Unsupported));
}

#[test]
fn http_fetch_requires_success_status() {
    let ok = http_fetch_outcome("https://example/r", 200, "body".to_string()).unwrap();
    assert_eq!(ok, "body");

    let err = http_fetch_outcome("https://example/r", 404, String::new()).unwrap_err();
    match err {
        paii::errors::CoreError::NetworkFailure { context } => {
            assert_eq!(context, "https://example/r")
        }
        other => panic!("expected NetworkFailure, got {:?}", other),
    }
}

#[test]
fn cache_document_name() {
    assert_eq!(cache_file_name("core"), "core.toml");
}

#[test]
fn corrupt_cache_files_are_skipped_with_their_names() {
    let files = vec![
        ("data".to_string(), DB_REGISTRY.to_string()),
        ("broken".to_string(), "not [ toml".to_string()),
        ("misc".to_string(), OTHER_REGISTRY.to_string()),
    ];
    let (listings, skipped) = parse_cached_listings(&files);
    assert_eq!(skipped, vec!["broken".to_string()]);
    let names: Vec<&str> = listings.iter().map(|l| l.name.as_str()).collect();
    assert_eq!(names, vec!["data", "misc"]);
}

#[test]
fn search_folds_beyond_ascii() {
    let listing = parse_listing_text(
        "[registry]\nname = \"intl\"\n\n[[plugins]]\nname = \"\u{dc}ber-Store\"\n",
    )
    .unwrap();
    let results = search_listings(&vec![listing], "\u{fc}ber");
    assert_eq!(results.len(), 1);
    assert_eq!(results[0].1.name, "\u{dc}ber-Store");
}
