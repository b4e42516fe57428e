use duckup::catalog::ReleaseCatalog;
use duckup::error::{FetchError, NotFoundError};
use duckup::release::{Asset, Release};

fn asset(name: &str, url: &str) -> Asset {
    Asset::new(name.to_string(), url.to_string())
}

fn release(tag: &str, assets: Vec<Asset>) -> Release {
    Release::new(tag.to_string(), assets)
}

fn two_releases() -> Vec<Release> {
    vec![
        release(
            "v1.1.0",
            vec![asset("duckdb_cli-linux-amd64.zip", "https://example.org/v1.1.0/linux-amd64.zip")],
        ),
        release("v1.0.0", vec![]),
    ]
}

#[test]
fn catalog_lists_tags_most_recent_first() {
    let catalog = ReleaseCatalog::new(two_releases()).unwrap();
    assert_eq!(catalog.list(), vec!["v1.1.0".to_string(), "v1.0.0".to_string()]);
    assert_eq!(catalog.len(), 2);
}

#[test]
fn catalog_of_empty_listing_is_empty() {
    let catalog = ReleaseCatalog::new(vec![]).unwrap();
    assert_eq!(catalog.len(), 0);
    assert_eq!(catalog.list(), Vec::<String>::new());
    assert!(!catalog.contains("v1.0.0"));
    assert_eq!(catalog.resolve("v1.0.0"), Err(NotFoundError));
}

#[test]
fn catalog_contains_matches_exactly() {
    let catalog = ReleaseCatalog::new(two_releases()).unwrap();
    assert!(catalog.contains("v1.0.0"));
    assert!(catalog.contains("v1.1.0"));
    assert!(!catalog.contains("V1.0.0"));
    assert!(!catalog.contains("v1.0"));
    assert!(!catalog.contains("v1.0.0 "));
    assert!(!catalog.contains(""));
    assert!(!catalog.contains("v9.9.9"));
}

#[test]
fn catalog_resolve_gives_the_release() {
    let catalog = ReleaseCatalog::new(two_releases()).unwrap();
    let found = catalog.resolve("v1.1.0").unwrap();
    assert_eq!(found.tag, "v1.1.0");
    assert_eq!(found.assets.len(), 1);
    assert_eq!(found.assets[0].url, "https://example.org/v1.1.0/linux-amd64.zip");
    let older = catalog.resolve("v1.0.0").unwrap();
    assert_eq!(older, &release("v1.0.0", vec![]));
}

#[test]
fn catalog_resolve_fails_for_absent_tag() {
    let catalog = ReleaseCatalog::new(two_releases()).unwrap();
    assert_eq!(catalog.resolve("v9.9.9"), Err(NotFoundError));
    assert_eq!(catalog.resolve("v1.1.0-rc1"), Err(NotFoundError));
}

#[test]
fn catalog_rejects_repeated_tag() {
    let listing = vec![release("v1.1.0", vec![]), release("v1.0.0", vec![]), release("v1.1.0", vec![])];
    assert_eq!(ReleaseCatalog::new(listing).err(), Some(FetchError::Parse));
    let adjacent = vec![release("a", vec![]), release("a", vec![])];
    assert_eq!(ReleaseCatalog::new(adjacent).err(), Some(FetchError::Parse));
}

#[test]
fn catalog_accepts_tags_that_differ_in_case() {
    let listing = vec![release("V1", vec![]), release("v1", vec![])];
    let catalog = ReleaseCatalog::new(listing).unwrap();
    assert_eq!(catalog.list(), vec!["V1".to_string(), "v1".to_string()]);
}

#[test]
fn release_find_asset_takes_the_first_of_that_name() {
    let r = release(
        "v1",
        vec![asset("a.zip", "first"), asset("b.zip", "second"), asset("a.zip", "third")],
    );
    assert_eq!(r.find_asset("a.zip").map(|a| a.url.as_str()), Some("first"));
    assert_eq!(r.find_asset("b.zip").map(|a| a.url.as_str()), Some("second"));
    assert_eq!(r.find_asset("c.zip"), None);
    assert_eq!(r.find_asset("A.zip"), None);
}

#[test]
fn asset_clone_is_equal() {
    let a = asset("a.zip", "https://example.org/a.zip");
    assert_eq!(a.clone(), a);
}
