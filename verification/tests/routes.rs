//! End-to-end tests of the dispatcher against the fixture resolvers.

use rusty_addon::catalog::CatalogResolver;
use rusty_addon::manifest::default_manifest;
use rusty_addon::resources::{Resource, ResourceType};
use rusty_addon::routes::{
    handle_catalog_resource, handle_catalog_resource_last_videos, handle_resource,
    handle_stream_resource, ResourceResponse, RouteError,
};
use rusty_addon::stream::{decode_info_hash, StreamResolver, StreamSource};

#[test]
fn last_videos_returns_the_requested_item() {
    let manifest = default_manifest();
    let catalog = CatalogResolver::fixture();
    let r = handle_catalog_resource_last_videos(
        &manifest,
        &catalog,
        "lastVideosIds=tt7772588.json",
    )
    .unwrap();
    match r {
        ResourceResponse::MetasDetailed { metas_detailed } => {
            assert_eq!(metas_detailed.len(), 1);
            assert_eq!(metas_detailed[0].id, "tt7772588");
            assert_eq!(metas_detailed[0].name, "For All Mankind");
        },
        ResourceResponse::Streams { .. } => panic!("expected a detailed-metas envelope"),
    }
}

#[test]
fn last_videos_drops_unknown_identifiers_silently() {
    let manifest = default_manifest();
    let catalog = CatalogResolver::fixture();
    let r = handle_catalog_resource_last_videos(
        &manifest,
        &catalog,
        "lastVideosIds=tt7772588,zzz-unknown.json",
    )
    .unwrap();
    match r {
        ResourceResponse::MetasDetailed { metas_detailed } => {
            assert_eq!(metas_detailed.len(), 1);
            assert_eq!(metas_detailed[0].id, "tt7772588");
        },
        ResourceResponse::Streams { .. } => panic!("expected a detailed-metas envelope"),
    }
}

#[test]
fn last_videos_keeps_input_order() {
    let manifest = default_manifest();
    let catalog = CatalogResolver::fixture();
    let r = handle_catalog_resource_last_videos(
        &manifest,
        &catalog,
        "lastVideosIds=kitsu:44081,tt7772588.json",
    )
    .unwrap();
    match r {
        ResourceResponse::MetasDetailed { metas_detailed } => {
            assert_eq!(metas_detailed.len(), 2);
            assert_eq!(metas_detailed[0].id, "kitsu:44081");
            assert_eq!(metas_detailed[1].id, "tt7772588");
        },
        ResourceResponse::Streams { .. } => panic!("expected a detailed-metas envelope"),
    }
}

#[test]
fn last_videos_empty_list_is_not_found() {
    let manifest = default_manifest();
    let catalog = CatalogResolver::fixture();
    let r = handle_catalog_resource_last_videos(&manifest, &catalog, "lastVideosIds=.json");
    assert!(matches!(r, Err(RouteError::EmptyQuery)));
}

#[test]
fn last_videos_fully_filtered_list_is_not_found() {
    let manifest = default_manifest();
    let catalog = CatalogResolver::fixture();
    let r = handle_catalog_resource_last_videos(
        &manifest,
        &catalog,
        "lastVideosIds=zzz-unknown,qqq-other.json",
    );
    assert!(matches!(r, Err(RouteError::EmptyQuery)));
}

#[test]
fn last_videos_malformed_segment_is_not_found() {
    let manifest = default_manifest();
    let catalog = CatalogResolver::fixture();
    let r = handle_catalog_resource_last_videos(&manifest, &catalog, "tt7772588.json");
    assert!(matches!(r, Err(RouteError::MalformedSegment)));
}

#[test]
fn stream_request_returns_the_fixture_stream() {
    let streams = StreamResolver::fixture();
    let r = handle_stream_resource(&streams, ResourceType::Movie, "tt1254207.json");
    match r {
        ResourceResponse::Streams { streams } => {
            assert_eq!(streams.len(), 1);
            match &streams[0].source {
                StreamSource::Url { url } => assert_eq!(
                    url,
                    "https://download.blender.org/peach/bigbuckbunny_movies/big_buck_bunny_720p_h264.mov"
                ),
                StreamSource::Torrent { .. } => panic!("expected a direct URL source"),
            }
            assert_eq!(streams[0].name, Some("720p".to_string()));
            assert!(!streams[0].behavior_hints.not_web_ready);
        },
        ResourceResponse::MetasDetailed { .. } => panic!("expected a streams envelope"),
    }
}

#[test]
fn unknown_stream_request_is_an_empty_success() {
    let streams = StreamResolver::fixture();
    let r = handle_stream_resource(&streams, ResourceType::Movie, "unknown.json");
    match r {
        ResourceResponse::Streams { streams } => assert!(streams.is_empty()),
        ResourceResponse::MetasDetailed { .. } => panic!("expected a streams envelope"),
    }
}

#[test]
fn series_stream_request_returns_the_torrent() {
    let streams = StreamResolver::fixture();
    let r = handle_stream_resource(&streams, ResourceType::Series, "tt13622776:1:5.json");
    match r {
        ResourceResponse::Streams { streams } => {
            assert_eq!(streams.len(), 1);
            match &streams[0].source {
                StreamSource::Torrent { info_hash, file_idx, announce } => {
                    let expected =
                        decode_info_hash("ba44b8864cfb3ee13a7a20f8d2687baa1b9d5351").unwrap();
                    assert_eq!(info_hash, &expected);
                    assert_eq!(*file_idx, Some(0));
                    assert!(announce.is_empty());
                },
                StreamSource::Url { .. } => panic!("expected a torrent source"),
            }
        },
        ResourceResponse::MetasDetailed { .. } => panic!("expected a streams envelope"),
    }
}

#[test]
fn generic_catalog_is_an_unresolved_capability() {
    let r = handle_catalog_resource(ResourceType::Series, "bbbcatalog.json");
    assert!(matches!(r, Err(RouteError::UnresolvedCapability)));
    let r = handle_catalog_resource(ResourceType::Movie, "anything.json");
    assert!(matches!(r, Err(RouteError::UnresolvedCapability)));
}

#[test]
fn resource_dispatch_by_kind() {
    let streams = StreamResolver::fixture();
    let r = handle_resource(&streams, Resource::Stream, ResourceType::Movie, "tt1254207.json");
    assert!(matches!(r, Ok(ResourceResponse::Streams { .. })));
    let r = handle_resource(&streams, Resource::Catalog, ResourceType::Series, "x.json");
    assert!(matches!(r, Err(RouteError::UnresolvedCapability)));
}
