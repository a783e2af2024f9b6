use terrain_streaming::cache_manifest::{
    CacheFreshnessPolicy, CacheTileEncoding, CachedTileMetadata, StreamedAttachmentKind,
    StreamingCacheManifest, StreamingSourceDescriptor, StreamingSourceKind,
    CURRENT_STREAMING_CACHE_FORMAT_VERSION, strip_utf8_bom,
};
use terrain_streaming::coordinate::{AttachmentLabel, IVec2, TileCoordinate};

#[test]
fn cache_manifest_default_uses_current_version() {
    let manifest = StreamingCacheManifest::default();
    assert_eq!(manifest.format_version, CURRENT_STREAMING_CACHE_FORMAT_VERSION);
}

#[test]
fn tile_metadata_path_uses_sidecar_extension() {
    let path = CachedTileMetadata::path_for_tile("/tmp/0/0_0/0_0_0_0.tif");
    assert_eq!(path, "/tmp/0/0_0/0_0_0_0.tile-cache.ron");
}

fn imagery_source() -> StreamingSourceDescriptor {
    StreamingSourceDescriptor {
        source_id: "nasa_gibs/modis_true_color".to_string(),
        source_kind: StreamingSourceKind::NasaGibs,
        attachment_kind: StreamedAttachmentKind::Imagery,
    }
}

#[test]
fn metadata_usability_rejects_version_source_and_expiry_mismatches() {
    let source = imagery_source();
    let freshness_policy = CacheFreshnessPolicy { max_age_seconds: Some(1), revalidate_on_startup: false };

    let valid = CachedTileMetadata {
        format_version: CURRENT_STREAMING_CACHE_FORMAT_VERSION,
        terrain_path: "terrains/earth".to_string(),
        attachment_label: AttachmentLabel::Custom("albedo".to_string()),
        coordinate: TileCoordinate::new(0, 0, IVec2::zero()),
        source: source.clone(),
        fetched_at_unix_ms: 1_000,
        expires_at_unix_ms: Some(2_500),
        source_zoom: None,
        source_revision: None,
        source_content_hash: None,
        source_crs: None,
        encoding: CacheTileEncoding::Tiff,
    };
    assert!(valid.is_usable_with(&source, &freshness_policy, 1_500));

    let mut stale = valid.clone();
    stale.fetched_at_unix_ms = 0;
    assert!(!stale.is_usable_with(&source, &freshness_policy, 2_000));

    let mut wrong_source = valid.clone();
    wrong_source.source.source_id = "sentinel-2/default".to_string();
    assert!(!wrong_source.is_usable_with(&source, &freshness_policy, 1_500));

    let mut expired = valid;
    expired.expires_at_unix_ms = Some(1_100);
    assert!(!expired.is_usable_with(&source, &freshness_policy, 1_500));
}

#[test]
fn metadata_of_an_older_format_is_never_usable() {
    let source = imagery_source();
    let policy = CacheFreshnessPolicy::default();
    let metadata = CachedTileMetadata {
        format_version: CURRENT_STREAMING_CACHE_FORMAT_VERSION + 1,
        terrain_path: "terrains/earth".to_string(),
        attachment_label: AttachmentLabel::Height,
        coordinate: TileCoordinate::new(0, 0, IVec2::zero()),
        source: source.clone(),
        fetched_at_unix_ms: 0,
        expires_at_unix_ms: None,
        source_zoom: None,
        source_revision: None,
        source_content_hash: None,
        source_crs: None,
        encoding: CacheTileEncoding::Tiff,
    };
    assert!(!metadata.is_usable_with(&source, &policy, 0));
}

#[test]
fn unlimited_age_stays_usable_until_expiry() {
    let source = imagery_source();
    let policy = CacheFreshnessPolicy::default();
    let metadata = CachedTileMetadata {
        format_version: CURRENT_STREAMING_CACHE_FORMAT_VERSION,
        terrain_path: "terrains/earth".to_string(),
        attachment_label: AttachmentLabel::Height,
        coordinate: TileCoordinate::new(0, 0, IVec2::zero()),
        source: source.clone(),
        fetched_at_unix_ms: 0,
        expires_at_unix_ms: Some(u64::MAX),
        source_zoom: None,
        source_revision: None,
        source_content_hash: None,
        source_crs: None,
        encoding: CacheTileEncoding::Tiff,
    };
    assert!(metadata.is_usable_with(&source, &policy, u64::MAX));
    let huge_age = CacheFreshnessPolicy { max_age_seconds: Some(u64::MAX), revalidate_on_startup: true };
    assert!(metadata.is_usable_with(&source, &huge_age, u64::MAX));
}

#[test]
fn manifest_path_is_inside_the_terrain_cache_root() {
    assert_eq!(
        StreamingCacheManifest::path_for("assets/streaming_cache/terrains/earth"),
        "assets/streaming_cache/terrains/earth/streaming_cache_manifest.ron"
    );
}

#[test]
fn utf8_bom_is_stripped_once() {
    assert_eq!(strip_utf8_bom("\u{feff}(a: 1)"), "(a: 1)");
    assert_eq!(strip_utf8_bom("(a: 1)"), "(a: 1)");
    assert_eq!(strip_utf8_bom("\u{feff}\u{feff}x"), "\u{feff}x");
    assert_eq!(strip_utf8_bom(""), "");
}
