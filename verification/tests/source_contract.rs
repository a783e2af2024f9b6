use terrain_streaming::cache_manifest::{
    CacheTileEncoding, CachedTileMetadata, StreamedAttachmentKind, StreamingSourceDescriptor, StreamingSourceKind,
    CURRENT_STREAMING_CACHE_FORMAT_VERSION,
};
use terrain_streaming::coordinate::{AttachmentConfig, AttachmentLabel, IVec2, TerrainShape, TileCoordinate};
use terrain_streaming::source_contract::{
    availability_from_plan, MaterializedStreamingTile, StreamingProviderError, StreamingRequestPriority,
    StreamingSourceAvailability, StreamingTileProvider, StreamingTileRequest,
};

struct StubProvider;

impl StreamingTileProvider for StubProvider {
    fn descriptor(&self) -> StreamingSourceDescriptor {
        StreamingSourceDescriptor {
            source_id: "stub/source".to_string(),
            source_kind: StreamingSourceKind::Custom("stub".to_string()),
            attachment_kind: StreamedAttachmentKind::Imagery,
        }
    }

    fn availability(&self, request: &StreamingTileRequest) -> StreamingSourceAvailability {
        if request.attachment_kind() == StreamedAttachmentKind::Imagery {
            StreamingSourceAvailability::Available
        } else {
            StreamingSourceAvailability::Unavailable { reason: "stub provider only serves imagery".to_string() }
        }
    }

    fn materialize_tile(&self, request: &StreamingTileRequest) -> Result<MaterializedStreamingTile, StreamingProviderError> {
        match self.availability(request) {
            StreamingSourceAvailability::Available => Ok(MaterializedStreamingTile {
                bytes: vec![1, 2, 3],
                metadata: CachedTileMetadata {
                    format_version: CURRENT_STREAMING_CACHE_FORMAT_VERSION,
                    terrain_path: request.terrain_path.clone(),
                    attachment_label: request.attachment_label.clone(),
                    coordinate: request.coordinate,
                    source: self.descriptor(),
                    fetched_at_unix_ms: 1,
                    expires_at_unix_ms: None,
                    source_zoom: Some(request.coordinate.lod),
                    source_revision: None,
                    source_content_hash: None,
                    source_crs: Some("EPSG:4326".to_string()),
                    encoding: CacheTileEncoding::Tiff,
                },
            }),
            StreamingSourceAvailability::Unavailable { reason } => Err(StreamingProviderError::Unsupported(reason)),
            StreamingSourceAvailability::Unknown => {
                Err(StreamingProviderError::Unavailable("availability unknown".to_string()))
            }
        }
    }
}

fn request(label: AttachmentLabel) -> StreamingTileRequest {
    StreamingTileRequest {
        terrain_path: "terrains/earth".to_string(),
        attachment_label: label,
        attachment_config: AttachmentConfig::default(),
        coordinate: TileCoordinate::new(0, 1, IVec2::new(2, 3)),
        terrain_shape: TerrainShape::WGS84,
        terrain_lod_count: 6,
        priority: StreamingRequestPriority::Background,
    }
}

#[test]
fn request_attachment_kind_tracks_attachment_label() {
    let request = request(AttachmentLabel::Custom("albedo".to_string()));
    assert_eq!(request.attachment_kind(), StreamedAttachmentKind::Imagery);
}

#[test]
fn height_and_other_attachments_have_their_own_kinds() {
    assert_eq!(request(AttachmentLabel::Height).attachment_kind(), StreamedAttachmentKind::Height);
    assert_eq!(
        request(AttachmentLabel::Custom("normals".to_string())).attachment_kind(),
        StreamedAttachmentKind::Custom("normals".to_string())
    );
}

#[test]
fn provider_errors_describe_themselves() {
    assert_eq!(
        StreamingProviderError::Unavailable("no key".to_string()).message(),
        "streaming provider is unavailable: no key"
    );
    assert_eq!(
        StreamingProviderError::Unsupported("height only".to_string()).message(),
        "streaming provider rejected the request: height only"
    );
    assert_eq!(
        StreamingProviderError::Permanent("bad body".to_string()).message(),
        "streaming provider encountered a permanent failure: bad body"
    );
    assert_eq!(StreamingProviderError::Transient("slow".to_string()).reason(), "slow");
}

#[test]
fn availability_reflects_the_plan() {
    let ok: Result<(), StreamingProviderError> = Ok(());
    assert_eq!(availability_from_plan(ok), StreamingSourceAvailability::Available);
    let refused: Result<(), StreamingProviderError> =
        Err(StreamingProviderError::Unsupported("imagery only".to_string()));
    assert_eq!(
        availability_from_plan(refused),
        StreamingSourceAvailability::Unavailable { reason: "imagery only".to_string() }
    );
}

#[test]
fn provider_contract_can_describe_and_materialize_tiles() {
    let provider = StubProvider;
    let request = request(AttachmentLabel::Custom("albedo".to_string()));

    assert_eq!(provider.availability(&request), StreamingSourceAvailability::Available);
    let materialized = provider.materialize_tile(&request).unwrap();
    assert_eq!(materialized.bytes, vec![1, 2, 3]);
    assert_eq!(materialized.metadata.source.source_id, "stub/source");
}
