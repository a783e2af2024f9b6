use terrain_streaming::cache_manifest::{
    CacheFreshnessPolicy, CacheTileEncoding, CachedTileMetadata, RegisteredStreamingSource, StreamedAttachmentKind,
    StreamingCacheManifest, StreamingSourceDescriptor, StreamingSourceKind, CURRENT_STREAMING_CACHE_FORMAT_VERSION,
};
use terrain_streaming::cache_writer::{plan_cache_write, register_source};
use terrain_streaming::coordinate::{AttachmentLabel, IVec2, TileCoordinate};
use terrain_streaming::tile_source::{CacheFirstLocalTileSource, LocalTileRequest};

fn source(id: &str) -> StreamingSourceDescriptor {
    StreamingSourceDescriptor {
        source_id: id.to_string(),
        source_kind: StreamingSourceKind::NasaGibs,
        attachment_kind: StreamedAttachmentKind::Imagery,
    }
}

fn metadata() -> CachedTileMetadata {
    CachedTileMetadata {
        format_version: CURRENT_STREAMING_CACHE_FORMAT_VERSION,
        terrain_path: "terrains/earth".to_string(),
        attachment_label: AttachmentLabel::Custom("albedo".to_string()),
        coordinate: TileCoordinate::new(0, 1, IVec2::new(0, 1)),
        source: source("nasa_gibs/modis_true_color"),
        fetched_at_unix_ms: 1,
        expires_at_unix_ms: None,
        source_zoom: None,
        source_revision: None,
        source_content_hash: None,
        source_crs: None,
        encoding: CacheTileEncoding::Tiff,
    }
}

#[test]
fn a_missing_manifest_is_created_with_the_source() {
    let terrain = "terrains/earth".to_string();
    let manifest = register_source(None, &terrain, &source("a")).unwrap();
    assert_eq!(manifest.format_version, CURRENT_STREAMING_CACHE_FORMAT_VERSION);
    assert_eq!(manifest.terrain_path, terrain);
    assert_eq!(
        manifest.sources,
        vec![RegisteredStreamingSource { descriptor: source("a"), freshness_policy: CacheFreshnessPolicy::default() }]
    );
}

#[test]
fn registration_appends_new_sources_once() {
    let terrain = "terrains/earth".to_string();
    let first = register_source(None, &terrain, &source("a")).unwrap();
    let second = register_source(Some(first.clone()), &terrain, &source("b")).unwrap();
    assert_eq!(second.sources.len(), 2);
    assert_eq!(second.sources[0], first.sources[0]);
    let again = register_source(Some(second.clone()), &terrain, &source("a")).unwrap();
    assert_eq!(again, second);
}

#[test]
fn a_manifest_of_another_terrain_is_refused() {
    let moon = StreamingCacheManifest { terrain_path: "terrains/moon".to_string(), ..StreamingCacheManifest::default() };
    let error = register_source(Some(moon), &"terrains/earth".to_string(), &source("a")).unwrap_err();
    assert_eq!(
        error.message(),
        "cache manifest terrain path 'terrains/moon' does not match streamed tile terrain path 'terrains/earth'"
    );
    let unnamed = StreamingCacheManifest::default();
    let adopted = register_source(Some(unnamed), &"terrains/earth".to_string(), &source("a")).unwrap();
    assert_eq!(adopted.terrain_path, "terrains/earth");
}

#[test]
fn written_tiles_are_found_by_the_cache_first_resolver() {
    let plan = plan_cache_write("assets", "streaming_cache", &metadata());
    assert_eq!(plan.tile_asset_path, "streaming_cache/terrains/earth/albedo/1/0_0/0_1_0_1.tif");
    assert_eq!(plan.tile_fs_path, "assets/streaming_cache/terrains/earth/albedo/1/0_0/0_1_0_1.tif");
    assert_eq!(plan.sidecar_path, "assets/streaming_cache/terrains/earth/albedo/1/0_0/0_1_0_1.tile-cache.ron");
    assert_eq!(plan.terrain_root, "assets/streaming_cache/terrains/earth");
    assert_eq!(plan.manifest_path, "assets/streaming_cache/terrains/earth/streaming_cache_manifest.ron");

    let resolver = CacheFirstLocalTileSource::new("assets".to_string(), Some("streaming_cache".to_string()));
    let request = LocalTileRequest {
        terrain_path: "terrains/earth".to_string(),
        attachment_label: AttachmentLabel::Custom("albedo".to_string()),
        coordinate: TileCoordinate::new(0, 1, IVec2::new(0, 1)),
    };
    let resolved = resolver.resolve_tile_with(&request, true);
    assert_eq!(resolved.asset_path, plan.tile_asset_path);
    assert_eq!(resolver.file_system_path(&resolved.asset_path), plan.tile_fs_path);
}
