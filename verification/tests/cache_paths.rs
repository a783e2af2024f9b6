use terrain_streaming::coordinate::{AttachmentLabel, IVec2, TileCoordinate};
use terrain_streaming::paths::{
    attachment_relative_root, cache_terrain_root, cache_tile_asset_path, join_path, replace_extension,
    starter_tile_asset_path,
};

#[test]
fn starter_paths_match_existing_tile_layout() {
    let path = starter_tile_asset_path(
        "terrains/earth",
        &AttachmentLabel::Custom("albedo".to_string()),
        TileCoordinate::new(3, 4, IVec2::new(5, 7)),
    );
    assert_eq!(path, "terrains/earth/albedo/4/0_0/3_4_5_7.tif");
}

#[test]
fn cache_paths_prefix_the_cache_root() {
    let path = cache_tile_asset_path(
        "streaming_cache",
        "terrains/earth",
        &AttachmentLabel::Height,
        TileCoordinate::new(1, 2, IVec2::new(3, 0)),
    );
    assert_eq!(path, "streaming_cache/terrains/earth/height/2/0_0/1_2_3_0.tif");
}

#[test]
fn empty_attachments_are_named_by_index() {
    assert_eq!(attachment_relative_root("terrains/moon", &AttachmentLabel::Empty(3)), "terrains/moon/empty_3");
}

#[test]
fn negative_tile_indices_round_directory_groups_down() {
    let path = starter_tile_asset_path("t", &AttachmentLabel::Height, TileCoordinate::new(0, 9, IVec2::new(-1, 130)));
    assert_eq!(path, "t/height/9/-1_2/0_9_-1_130.tif");
}

#[test]
fn joining_follows_path_rules() {
    assert_eq!(join_path("a", "b"), "a/b");
    assert_eq!(join_path("a/", "b"), "a/b");
    assert_eq!(join_path("", "b"), "b");
    assert_eq!(join_path("a", "/b"), "/b");
    assert_eq!(cache_terrain_root("streaming_cache", "terrains/earth"), "streaming_cache/terrains/earth");
}

#[test]
fn extension_replacement_follows_path_rules() {
    assert_eq!(replace_extension("a/b.tif", "ron"), "a/b.ron");
    assert_eq!(replace_extension("a/b", "ron"), "a/b.ron");
    assert_eq!(replace_extension("a.d/b", "ron"), "a.d/b.ron");
    assert_eq!(replace_extension("a/.hidden", "ron"), "a/.hidden.ron");
    assert_eq!(replace_extension("a/b.tar.gz", "ron"), "a/b.tar.ron");
}

#[test]
fn cache_paths_join_the_starter_path_onto_the_cache_root() {
    let coordinate = TileCoordinate::new(2, 3, IVec2::new(-1, 4));
    for terrain in ["", "terrains/earth", "terrains/earth/", "/abs/earth"] {
        for label in [AttachmentLabel::Height, AttachmentLabel::Custom(String::new()), AttachmentLabel::Custom("/x".to_string())] {
            for root in ["", "cache", "cache/", "/var/cache"] {
                let cached = cache_tile_asset_path(root, terrain, &label, coordinate);
                let starter = starter_tile_asset_path(terrain, &label, coordinate);
                assert_eq!(cached, join_path(root, &starter));
            }
        }
    }
}

#[test]
fn extension_replacement_matches_std_paths() {
    let paths = [
        "", "/", "//", ".", "./", "..", "../", "a", "a/", "a//", "a/.", "a/./", "a/..", "a/../", "tiles/",
        "a.b", "a.b/", "a.b/.", ".x", "..x", "...", "a.b..", "x.y.zz/", "ab.c/./", "a/b.tar.gz", "./a",
        "/a.b/c", "a.d/b", ".hidden.", "a./", "/.", "/..", "a/.b.c", "./.", "a.bc//", "q.rs////", "é.ü/ñ.ö",
    ];
    for path in paths {
        for ext in ["", "ron", "tile-cache.ron", "a.b", "."] {
            let expected = std::path::Path::new(path).with_extension(ext);
            assert_eq!(replace_extension(path, ext), expected.to_str().unwrap(), "{path:?} with {ext:?}");
        }
    }
}

#[test]
fn metadata_of_a_directory_like_path_follows_std() {
    assert_eq!(
        terrain_streaming::cache_manifest::CachedTileMetadata::path_for_tile("tiles/"),
        "tiles.tile-cache.ron"
    );
}
