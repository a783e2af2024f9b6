use terrain_streaming::cache_manifest::StreamingSourceKind;
use terrain_streaming::coordinate::{AttachmentConfig, AttachmentFormat, AttachmentLabel, IVec2, TerrainShape, TileCoordinate};
use terrain_streaming::height_derivation::{
    ancestor_chain, check_square_height_tile, derived_height_metadata, derived_height_request,
    height_source_candidates, plan_child_height_tile, plan_imagery_fetch, request_with_coordinate,
    select_height_source, ImageryStep,
};
use terrain_streaming::source_contract::{StreamingProviderError, StreamingRequestPriority, StreamingTileRequest};
use terrain_streaming::streaming_jobs::StreamingTaskError;
use terrain_streaming::tile_source::LocalTileSourceKind;

fn albedo_request(coordinate: TileCoordinate) -> StreamingTileRequest {
    StreamingTileRequest {
        terrain_path: "terrains/earth".to_string(),
        attachment_label: AttachmentLabel::Custom("albedo".to_string()),
        attachment_config: AttachmentConfig {
            texture_size: 64,
            border_size: 2,
            mip_level_count: 3,
            mask: true,
            format: AttachmentFormat::Rgb8U,
        },
        coordinate,
        terrain_shape: TerrainShape::WGS84,
        terrain_lod_count: 6,
        priority: StreamingRequestPriority::Focused,
    }
}

#[test]
fn ancestor_chain_runs_from_the_root_to_the_parent() {
    let tile = TileCoordinate::new(2, 3, IVec2::new(5, 6));
    let chain = ancestor_chain(tile);
    assert_eq!(
        chain,
        vec![
            TileCoordinate::new(2, 0, IVec2::new(0, 0)),
            TileCoordinate::new(2, 1, IVec2::new(1, 1)),
            TileCoordinate::new(2, 2, IVec2::new(2, 3)),
        ]
    );
    assert!(ancestor_chain(TileCoordinate::new(0, 0, IVec2::new(0, 0))).is_empty());
    assert_eq!(height_source_candidates(tile)[0], tile);
    assert_eq!(height_source_candidates(tile).len(), 4);
}

#[test]
fn derived_height_requests_keep_the_tile_and_layout() {
    let request = albedo_request(TileCoordinate::new(0, 2, IVec2::new(1, 1)));
    let height = derived_height_request(&request);
    assert_eq!(height.attachment_label, AttachmentLabel::Height);
    assert_eq!(height.attachment_config.format, AttachmentFormat::R32F);
    assert!(!height.attachment_config.mask);
    assert_eq!(height.attachment_config.texture_size, 64);
    assert_eq!(height.attachment_config.border_size, 2);
    assert_eq!(height.coordinate, request.coordinate);
    assert_eq!(height.priority, StreamingRequestPriority::Focused);
    let moved = request_with_coordinate(&request, TileCoordinate::new(0, 1, IVec2::new(0, 0)));
    assert_eq!(moved.coordinate, TileCoordinate::new(0, 1, IVec2::new(0, 0)));
    assert_eq!(moved.attachment_config, request.attachment_config);
}

#[test]
fn imagery_plans_fetch_missing_ancestors_first() {
    let request = albedo_request(TileCoordinate::new(0, 2, IVec2::new(1, 1)));
    let steps = plan_imagery_fetch(&request, false, &vec![true, false]);
    assert_eq!(steps.len(), 4);
    match &steps[0] {
        ImageryStep::EnsureDerivedHeight(r) => {
            assert_eq!(r.coordinate, TileCoordinate::new(0, 1, IVec2::new(0, 0)));
            assert_eq!(r.attachment_label, AttachmentLabel::Height);
        }
        other => panic!("unexpected first step {other:?}"),
    }
    match &steps[1] {
        ImageryStep::Fetch(r) => assert_eq!(r.coordinate, TileCoordinate::new(0, 1, IVec2::new(0, 0))),
        other => panic!("unexpected second step {other:?}"),
    }
    assert!(matches!(&steps[3], ImageryStep::Fetch(r) if r.coordinate == request.coordinate));

    let streamed_height = plan_imagery_fetch(&request, true, &vec![false, true]);
    assert_eq!(streamed_height.len(), 2);
    assert!(matches!(&streamed_height[0], ImageryStep::Fetch(r) if r.coordinate.lod == 0));
}

#[test]
fn height_sources_are_the_finest_present_tile() {
    let request = derived_height_request(&albedo_request(TileCoordinate::new(0, 2, IVec2::new(3, 1))));
    assert_eq!(
        select_height_source(&request, &vec![false, true, true]).unwrap(),
        TileCoordinate::new(0, 1, IVec2::new(1, 0))
    );
    assert!(matches!(
        select_height_source(&request, &vec![false, false, false]),
        Err(StreamingTaskError::Provider(StreamingProviderError::Unavailable(_)))
    ));
    let imagery = albedo_request(TileCoordinate::new(0, 2, IVec2::new(3, 1)));
    assert!(matches!(
        select_height_source(&imagery, &vec![true, true, true]),
        Err(StreamingTaskError::UnsupportedAttachment(_))
    ));
    let mut integer_height = request.clone();
    integer_height.attachment_config.format = AttachmentFormat::R16U;
    assert!(matches!(
        select_height_source(&integer_height, &vec![true, true, true]),
        Err(StreamingTaskError::Provider(StreamingProviderError::Unsupported(_)))
    ));
}

#[test]
fn child_tiles_are_placed_inside_their_ancestor() {
    let request = derived_height_request(&albedo_request(TileCoordinate::new(0, 4, IVec2::new(13, 6))));
    let placement = plan_child_height_tile(&request, TileCoordinate::new(0, 2, IVec2::new(3, 1)), 130, 1).unwrap();
    assert_eq!(placement.lod_delta, 2);
    assert_eq!(placement.descendant_scale, 4);
    assert_eq!(placement.relative_x, 1);
    assert_eq!(placement.relative_y, 2);
    assert_eq!(placement.target_center, 60);
    assert_eq!(placement.source_center, 128);
    assert!(plan_child_height_tile(&request, TileCoordinate::new(0, 2, IVec2::new(3, 1)), 0, 0).is_err());
    assert_eq!(check_square_height_tile(4, 4), Ok(()));
    assert_eq!(
        check_square_height_tile(4, 5),
        Err(StreamingProviderError::Permanent("non-square local ancestor height tile 4x5".to_string()))
    );
}

#[test]
fn derived_height_metadata_names_its_local_source() {
    let request = derived_height_request(&albedo_request(TileCoordinate::new(0, 4, IVec2::new(13, 6))));
    let metadata =
        derived_height_metadata(&request, LocalTileSourceKind::StarterDataset, TileCoordinate::new(0, 2, IVec2::new(3, 1)), 9);
    assert_eq!(metadata.source.source_id, "local/derived_height_from_starter");
    assert_eq!(metadata.source.source_kind, StreamingSourceKind::LocalStarter);
    assert_eq!(metadata.source_zoom, Some(2));
    assert_eq!(metadata.source_revision, Some("0_2_3_1".to_string()));
    let cached =
        derived_height_metadata(&request, LocalTileSourceKind::StreamingCache, TileCoordinate::new(0, 4, IVec2::new(13, 6)), 9);
    assert_eq!(cached.source.source_kind, StreamingSourceKind::LocalCache);
}
