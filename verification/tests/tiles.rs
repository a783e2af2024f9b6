use terrain_streaming::tiles::TileId;

#[test]
fn parent_child_relationships_are_consistent() {
    let tile = TileId { z: 10, x: 759, y: 429 };
    for child in tile.children() {
        assert_eq!(child.parent(), Some(tile));
    }
    assert_eq!(TileId { z: 0, x: 0, y: 0 }.parent(), None);
}

#[test]
fn tiles_per_axis_doubles_per_zoom() {
    assert_eq!(TileId::tiles_per_axis(0), 1);
    assert_eq!(TileId::tiles_per_axis(1), 2);
    assert_eq!(TileId::tiles_per_axis(10), 1024);
    assert_eq!(TileId::tiles_per_axis(31), 0x8000_0000);
}

#[test]
fn children_are_ordered_north_west_to_south_east() {
    let children = TileId { z: 3, x: 2, y: 5 }.children();
    assert_eq!(children[0], TileId { z: 4, x: 4, y: 10 });
    assert_eq!(children[1], TileId { z: 4, x: 5, y: 10 });
    assert_eq!(children[2], TileId { z: 4, x: 4, y: 11 });
    assert_eq!(children[3], TileId { z: 4, x: 5, y: 11 });
}

#[test]
fn parent_halves_the_indices_rounding_down() {
    assert_eq!(TileId { z: 5, x: 7, y: 12 }.parent(), Some(TileId { z: 4, x: 3, y: 6 }));
}
