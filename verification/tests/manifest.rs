//! Tests for manifest construction and the identifier-prefix policy.

use rusty_addon::manifest::{
    default_manifest, CatalogDescriptor, Manifest, ManifestError, ManifestExt, Version,
};
use rusty_addon::resources::Resource;

fn catalog(content_type: &str, id: &str) -> CatalogDescriptor {
    CatalogDescriptor {
        content_type: content_type.to_string(),
        id: id.to_string(),
        name: None,
        extra: Vec::new(),
    }
}

#[test]
fn manifest_with_unknown_catalog_type_is_refused() {
    let r = Manifest::new(
        "org.example".to_string(),
        "Example".to_string(),
        Version { major: 0, minor: 1, patch: 0 },
        vec![Resource::Catalog],
        vec!["movie".to_string(), "series".to_string()],
        vec![catalog("others", "bbbcatalog")],
        None,
        None,
    );
    assert!(matches!(r, Err(ManifestError::UnsupportedCatalogType)));
}

#[test]
fn manifest_with_listed_catalog_types_is_accepted() {
    let r = Manifest::new(
        "org.example".to_string(),
        "Example".to_string(),
        Version { major: 1, minor: 2, patch: 3 },
        vec![Resource::Catalog, Resource::Stream],
        vec!["movie".to_string(), "series".to_string()],
        vec![catalog("series", "last-videos")],
        Some(vec!["tt".to_string()]),
        Some("example".to_string()),
    )
    .unwrap();
    assert_eq!(r.id, "org.example");
    assert_eq!(r.version, Version { major: 1, minor: 2, patch: 3 });
    assert_eq!(r.catalogs.len(), 1);
    assert_eq!(r.id_prefixes, Some(vec!["tt".to_string()]));
}

#[test]
fn unset_prefixes_accept_every_identifier() {
    let m = Manifest::new(
        "org.example".to_string(),
        "Example".to_string(),
        Version { major: 0, minor: 1, patch: 0 },
        vec![Resource::Catalog],
        vec!["movie".to_string()],
        Vec::new(),
        None,
        None,
    )
    .unwrap();
    assert!(m.is_id_supported("tt1254207"));
    assert!(m.is_id_supported("anything-at-all"));
    assert!(m.is_id_supported(""));
}

#[test]
fn set_prefixes_accept_exactly_the_prefixed_identifiers() {
    let m = default_manifest();
    assert!(m.is_id_supported("tt1254207"));
    assert!(m.is_id_supported("kitsu:44081"));
    assert!(m.is_id_supported("tt"));
    assert!(!m.is_id_supported("zzz-unknown"));
    assert!(!m.is_id_supported("t"));
    assert!(!m.is_id_supported(""));
}

#[test]
fn default_manifest_is_well_formed() {
    let m = default_manifest();
    assert_eq!(m.id, "org.stremio.rusty-addon");
    assert_eq!(m.id_prefixes, Some(vec!["tt".to_string(), "kitsu".to_string()]));
    assert_eq!(m.catalogs.len(), 2);
    assert_eq!(m.catalogs[1].id, "last-videos");
    assert_eq!(m.catalogs[1].content_type, "series");
    assert!(m.types.contains(&m.catalogs[0].content_type));
    assert!(m.types.contains(&m.catalogs[1].content_type));
}
