use terrain_streaming::coordinate::{AttachmentLabel, IVec2, TerrainShape, TileCoordinate};
use terrain_streaming::terrain::{TerrainSettings, TileAvailability};

#[test]
fn procedural_full_face_tile_availability_accepts_in_bounds_tiles() {
    let availability = TileAvailability::FullFace;
    let unreachable = || -> bool { panic!("full-face availability never asks for the tile list") };
    assert!(availability.contains(TileCoordinate::new(5, 3, IVec2::new(7, 7)), TerrainShape::WGS84, 4, unreachable));
    assert!(!availability.contains(TileCoordinate::new(6, 3, IVec2::new(7, 7)), TerrainShape::WGS84, 4, || true));
    assert!(!availability.contains(TileCoordinate::new(5, 4, IVec2::new(0, 0)), TerrainShape::WGS84, 4, || true));
    assert!(!availability.contains(TileCoordinate::new(5, 3, IVec2::new(8, 7)), TerrainShape::WGS84, 4, || true));
    assert!(!availability.contains(TileCoordinate::new(5, 3, IVec2::new(-1, 0)), TerrainShape::WGS84, 4, || true));
    assert!(!availability.contains(TileCoordinate::invalid(), TerrainShape::WGS84, 4, || true));
    assert!(!availability.contains(TileCoordinate::new(1, 0, IVec2::new(0, 0)), TerrainShape::Plane, 4, || true));
}

#[test]
fn explicit_tile_availability_only_accepts_listed_tiles() {
    let listed_tile = TileCoordinate::new(0, 1, IVec2::new(1, 1));
    let tiles = vec![listed_tile];
    let availability = TileAvailability::Explicit;
    let is_listed = |tile: TileCoordinate| tiles.contains(&tile);
    assert!(availability.contains(listed_tile, TerrainShape::WGS84, 3, || is_listed(listed_tile)));
    let other = TileCoordinate::new(0, 1, IVec2::new(1, 0));
    assert!(!availability.contains(other, TerrainShape::WGS84, 3, || is_listed(other)));
    let out_of_bounds = TileCoordinate::new(0, 1, IVec2::new(2, 0));
    assert!(!availability.contains(out_of_bounds, TerrainShape::WGS84, 3, || true));
    assert_eq!(TileAvailability::default(), TileAvailability::Explicit);
}

#[test]
fn tile_counts_follow_availability() {
    assert_eq!(TileAvailability::Explicit.tile_count(TerrainShape::WGS84, 4, 17), 17);
    assert_eq!(TileAvailability::FullFace.tile_count(TerrainShape::WGS84, 0, 17), 0);
    assert_eq!(TileAvailability::FullFace.tile_count(TerrainShape::WGS84, 1, 17), 6);
    assert_eq!(TileAvailability::FullFace.tile_count(TerrainShape::WGS84, 3, 0), 6 * (1 + 4 + 16));
    assert_eq!(TileAvailability::FullFace.tile_count(TerrainShape::Plane, 4, 0), 1 + 4 + 16 + 64);
}

#[test]
fn settings_list_height_first() {
    let settings = TerrainSettings::new(&["albedo", "normals"]);
    assert_eq!(
        settings.attachments,
        vec![
            AttachmentLabel::Height,
            AttachmentLabel::Custom("albedo".to_string()),
            AttachmentLabel::Custom("normals".to_string())
        ]
    );
    assert_eq!(settings.atlas_size, 1028);
    assert_eq!(settings.upload_budget_bytes_per_frame, 24 * 1024 * 1024);
    assert_eq!(TerrainSettings::with_albedo(), TerrainSettings::with_attachment("albedo"));
    assert_eq!(TerrainSettings::default().attachments, vec![AttachmentLabel::Height]);
}

#[test]
fn streaming_depth_override_only_deepens() {
    let settings = TerrainSettings::with_albedo()
        .with_streaming_cache_root("streaming_cache".to_string())
        .with_upload_budget_bytes_per_frame(1024)
        .with_streaming_target_lod_count(12);
    assert_eq!(settings.streaming_cache_root, Some("streaming_cache".to_string()));
    assert_eq!(settings.upload_budget_bytes_per_frame, 1024);
    assert_eq!(settings.effective_terrain_lod_count(8), 12);
    assert_eq!(settings.effective_terrain_lod_count(14), 14);
    assert_eq!(TerrainSettings::default().effective_terrain_lod_count(8), 8);
}
