//! Tests of the resolvers, the hex decoding, and the path parsers.

use rusty_addon::catalog::{CatalogResolver, MetaItem};
use rusty_addon::resources::{Resource, ResourceType};
use rusty_addon::stream::{decode_info_hash, StreamResolver};

#[test]
fn hex_decoding_matches_the_fixture_hash() {
    let bytes = decode_info_hash("ba44b8864cfb3ee13a7a20f8d2687baa1b9d5351").unwrap();
    assert_eq!(
        bytes,
        vec![
            0xba, 0x44, 0xb8, 0x86, 0x4c, 0xfb, 0x3e, 0xe1, 0x3a, 0x7a, 0x20, 0xf8, 0xd2, 0x68,
            0x7b, 0xaa, 0x1b, 0x9d, 0x53, 0x51,
        ]
    );
}

#[test]
fn hex_decoding_accepts_mixed_case() {
    assert_eq!(decode_info_hash("BA44").unwrap(), vec![0xba, 0x44]);
    assert_eq!(decode_info_hash("bA44").unwrap(), vec![0xba, 0x44]);
}

#[test]
fn hex_decoding_refuses_bad_input() {
    assert!(decode_info_hash("xyz").is_none());
    assert!(decode_info_hash("abc").is_none());
    assert!(decode_info_hash("zz").is_none());
}

#[test]
fn stream_fixture_holds_both_entries() {
    let streams = StreamResolver::fixture();
    assert_eq!(streams.entries.len(), 2);
    assert_eq!(streams.entries[0].endpoint_id, "tt1254207.json");
    assert_eq!(streams.entries[1].endpoint_id, "tt13622776:1:5.json");
}

#[test]
fn catalog_resolver_keeps_order_and_drops_misses() {
    let catalog = CatalogResolver::fixture();
    let ids = vec![
        "kitsu:44081".to_string(),
        "missing".to_string(),
        "tt7772588".to_string(),
    ];
    let metas = catalog.resolve(&ids);
    assert_eq!(metas.len(), 2);
    assert_eq!(metas[0].id, "kitsu:44081");
    assert_eq!(metas[0].name, "Demon Slayer: Kimetsu no Yaiba");
    assert_eq!(metas[1].id, "tt7772588");
}

#[test]
fn catalog_resolver_repeats_duplicates() {
    let catalog = CatalogResolver::fixture();
    let ids = vec!["tt7772588".to_string(), "tt7772588".to_string()];
    let metas = catalog.resolve(&ids);
    assert_eq!(metas.len(), 2);
    assert_eq!(metas[0].id, metas[1].id);
}

#[test]
fn meta_item_duplicate_copies_every_field() {
    let catalog = CatalogResolver::fixture();
    let copy: MetaItem = catalog.entries[0].duplicate();
    assert_eq!(copy.id, catalog.entries[0].id);
    assert_eq!(copy.content_type, catalog.entries[0].content_type);
    assert_eq!(copy.name, catalog.entries[0].name);
    assert_eq!(copy.videos.len(), catalog.entries[0].videos.len());
    assert_eq!(copy.videos[0].id, catalog.entries[0].videos[0].id);
}

#[test]
fn resource_kinds_parse_from_path_segments() {
    assert!(matches!(Resource::from_path_segment("stream"), Some(Resource::Stream)));
    assert!(matches!(Resource::from_path_segment("catalog"), Some(Resource::Catalog)));
    assert!(Resource::from_path_segment("subtitles").is_none());
    assert!(Resource::from_path_segment("").is_none());
}

#[test]
fn resource_types_parse_from_path_segments() {
    assert!(matches!(ResourceType::from_path_segment("movie"), Some(ResourceType::Movie)));
    assert!(matches!(ResourceType::from_path_segment("series"), Some(ResourceType::Series)));
    assert!(ResourceType::from_path_segment("music").is_none());
}
