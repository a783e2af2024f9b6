use terrain_streaming::coordinate::{AttachmentLabel, IVec2, TileCoordinate};
use terrain_streaming::paths::{cache_tile_asset_path, starter_tile_asset_path};
use terrain_streaming::tile_source::{CacheFirstLocalTileSource, LocalTileRequest, LocalTileSourceKind};

fn request(label: AttachmentLabel) -> LocalTileRequest {
    LocalTileRequest {
        terrain_path: "terrains/earth".to_string(),
        attachment_label: label,
        coordinate: TileCoordinate::new(0, 1, IVec2::new(2, 3)),
    }
}

#[test]
fn resolver_prefers_cache_when_the_cached_file_exists() {
    let request = request(AttachmentLabel::Custom("albedo".to_string()));
    let resolver = CacheFirstLocalTileSource::new("assets".to_string(), Some("streaming_cache".to_string()));
    let cache_tile =
        cache_tile_asset_path("streaming_cache", &request.terrain_path, &request.attachment_label, request.coordinate);
    let resolved = resolver.resolve_tile_with(&request, true);
    assert_eq!(resolved.asset_path, cache_tile);
    assert_eq!(resolved.source_kind, LocalTileSourceKind::StreamingCache);
    assert_eq!(resolver.file_system_path(&cache_tile), format!("assets/{cache_tile}"));
}

#[test]
fn resolver_falls_back_to_starter_without_a_cached_file() {
    let request = request(AttachmentLabel::Height);
    let resolver = CacheFirstLocalTileSource::new("assets".to_string(), Some("streaming_cache".to_string()));
    let starter_tile = starter_tile_asset_path(&request.terrain_path, &request.attachment_label, request.coordinate);
    let resolved = resolver.resolve_tile_with(&request, false);
    assert_eq!(resolved.asset_path, starter_tile);
    assert_eq!(resolved.source_kind, LocalTileSourceKind::StarterDataset);

    let no_cache = CacheFirstLocalTileSource::new("assets".to_string(), None);
    assert!(no_cache.resolve_cache_tile(&request).is_none());
    assert_eq!(no_cache.resolve_tile_with(&request, true).source_kind, LocalTileSourceKind::StarterDataset);
}

#[test]
fn present_tiles_need_an_existing_file() {
    let request = request(AttachmentLabel::Height);
    let resolver = CacheFirstLocalTileSource::new("assets".to_string(), Some("streaming_cache".to_string()));
    assert!(resolver.resolve_present_tile_with(&request, false, false).is_none());
    assert_eq!(
        resolver.resolve_present_tile_with(&request, false, true).unwrap().source_kind,
        LocalTileSourceKind::StarterDataset
    );
    assert_eq!(
        resolver.resolve_present_tile_with(&request, true, true).unwrap().source_kind,
        LocalTileSourceKind::StreamingCache
    );
}
