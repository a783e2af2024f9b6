use image::ImageFormat;
use std::time::Duration;
use terrain_streaming::cache_manifest::{CacheTileEncoding, StreamedAttachmentKind, StreamingSourceKind};
use terrain_streaming::coordinate::{AttachmentConfig, AttachmentFormat, AttachmentLabel, IVec2, TerrainShape, TileCoordinate};
use terrain_streaming::gibs::{
    decide_imagery_attempt, decode_source_image, descriptor_from_config, encode_rgb_tiff, tiff_tile_result, imagery_decode_error,
    imagery_looks_like_blank_fill, imagery_tile_metadata, non_image_response_error, pick_source_format,
    unknown_format_error, validate_request, ImageryAttempt, ImageryDecision, NasaGibsImageryConfig,
    NasaGibsImageryProvider, TiffEncodeFailure,
};
use terrain_streaming::source_contract::{
    availability_from_plan, StreamingProviderError, StreamingRequestPriority, StreamingSourceAvailability,
    StreamingTileRequest,
};

fn imagery_request(tile: TileCoordinate) -> StreamingTileRequest {
    StreamingTileRequest {
        terrain_path: "terrains/earth".to_string(),
        attachment_label: AttachmentLabel::Custom("albedo".to_string()),
        attachment_config: AttachmentConfig {
            texture_size: 512,
            border_size: 4,
            mip_level_count: 4,
            mask: false,
            format: AttachmentFormat::Rgb8U,
        },
        coordinate: tile,
        terrain_shape: TerrainShape::WGS84,
        terrain_lod_count: 5,
        priority: StreamingRequestPriority::Background,
    }
}

#[test]
fn blank_fill_detection_flags_near_uniform_extremes() {
    assert!(imagery_looks_like_blank_fill(&[240; 128 * 128 * 3]));
    assert!(imagery_looks_like_blank_fill(&[5; 128 * 128 * 3]));

    let mut textured = vec![140_u8; 128 * 128 * 3];
    textured[0] = 10;
    textured[1] = 200;
    assert!(!imagery_looks_like_blank_fill(&textured));
}

#[test]
fn eox_config_includes_modis_fallback() {
    let config = NasaGibsImageryConfig::eox_s2cloudless_2017();
    let fallback = config.fallback.expect("EOX preset should install fallback");
    assert_eq!(fallback.source_id, "nasa_gibs/modis_true_color");
}

#[test]
fn html_response_is_reported_as_non_image() {
    let error = decode_source_image(b"<!DOCTYPE html><html><body>blocked</body></html>", "text/html", "image/png")
        .expect_err("HTML bodies should be rejected before PNG decode");

    let message = error.message();
    assert!(message.contains("non-image response"));
    assert!(message.contains("text/html"));
}

#[test]
fn blank_fill_edges_follow_the_mean_and_spread() {
    assert!(imagery_looks_like_blank_fill(&[]));
    assert!(!imagery_looks_like_blank_fill(&[20; 30]));
    assert!(!imagery_looks_like_blank_fill(&[235; 30]));
    assert!(imagery_looks_like_blank_fill(&[19; 30]));
    assert!(imagery_looks_like_blank_fill(&[236; 30]));
    let mut spread = vec![250_u8; 30];
    spread[3] = 243;
    assert!(!imagery_looks_like_blank_fill(&spread));
    spread[3] = 244;
    assert!(imagery_looks_like_blank_fill(&spread));
}

#[test]
fn modis_preset_is_png_from_gibs() {
    let config = NasaGibsImageryConfig::default();
    assert_eq!(config.source_id, "nasa_gibs/modis_true_color");
    assert_eq!(config.source_kind, StreamingSourceKind::NasaGibs);
    assert_eq!(config.wms_endpoint, "https://gibs.earthdata.nasa.gov/wms/epsg4326/best/wms.cgi");
    assert_eq!(config.layer, "MODIS_Terra_CorrectedReflectance_TrueColor");
    assert_eq!(config.image_format, "image/png");
    assert_eq!(config.connect_timeout, Duration::from_secs(10));
    assert_eq!(config.read_timeout, Duration::from_secs(30));
    assert!(config.fallback.is_none());
    let descriptor = descriptor_from_config(&config);
    assert_eq!(descriptor.attachment_kind, StreamedAttachmentKind::Imagery);
}

#[test]
fn provider_rejects_height_and_flat_terrains() {
    let mut height = imagery_request(TileCoordinate::new(0, 1, IVec2::new(0, 0)));
    height.attachment_label = AttachmentLabel::Height;
    assert_eq!(
        validate_request(&height),
        Err(StreamingProviderError::Unsupported("NASA GIBS only serves imagery attachments".to_string()))
    );
    let mut flat = imagery_request(TileCoordinate::new(0, 1, IVec2::new(0, 0)));
    flat.terrain_shape = TerrainShape::Plane;
    assert_eq!(
        validate_request(&flat),
        Err(StreamingProviderError::Unsupported(
            "NASA GIBS provider currently requires a spherical terrain".to_string()
        ))
    );
    assert_eq!(validate_request(&imagery_request(TileCoordinate::new(0, 2, IVec2::new(1, 1)))), Ok(()));
}

#[test]
fn png_bodies_decode_to_images() {
    let image = image::RgbImage::from_pixel(2, 3, image::Rgb([12, 34, 56]));
    let mut bytes = std::io::Cursor::new(Vec::new());
    image.write_to(&mut bytes, ImageFormat::Png).unwrap();
    let decoded = decode_source_image(bytes.get_ref(), "application/octet-stream", "image/jpeg").unwrap();
    assert_eq!(decoded.width(), 2);
    assert_eq!(decoded.height(), 3);
    assert_eq!(decoded.to_rgb8().get_pixel(1, 2).0, [12, 34, 56]);
}

#[test]
fn undecodable_bodies_report_format_and_content_type() {
    let error = decode_source_image(b"not an image at all", "image/png", "image/png").unwrap_err();
    let message = error.message();
    assert!(message.contains("imagery decode failed (content_type='image/png', format=Png)"), "{message}");

    let unknown = decode_source_image(b"????", "text/plain", "text/plain").unwrap_err();
    assert_eq!(
        unknown,
        StreamingProviderError::Permanent("unsupported imagery response content type 'text/plain'".to_string())
    );
}

#[test]
fn fallback_is_tried_after_failures_and_blank_tiles() {
    let eox = NasaGibsImageryConfig::eox_s2cloudless_2017();
    let modis = NasaGibsImageryConfig::gibs_modis_true_color();
    let failure = || StreamingProviderError::Permanent("bad".to_string());
    assert!(matches!(
        decide_imagery_attempt(&eox, ImageryAttempt::DecodeFailed(failure())),
        ImageryDecision::RetryWithFallback
    ));
    assert!(matches!(
        decide_imagery_attempt(&modis, ImageryAttempt::DecodeFailed(failure())),
        ImageryDecision::Fail(StreamingProviderError::Permanent(_))
    ));
    assert!(matches!(
        decide_imagery_attempt(&eox, ImageryAttempt::Decoded { blank: true }),
        ImageryDecision::RetryWithFallback
    ));
    assert!(matches!(decide_imagery_attempt(&modis, ImageryAttempt::Decoded { blank: true }), ImageryDecision::Encode));
    assert!(matches!(decide_imagery_attempt(&eox, ImageryAttempt::Decoded { blank: false }), ImageryDecision::Encode));
}

#[test]
fn imagery_metadata_names_the_source() {
    let mut config = NasaGibsImageryConfig::gibs_modis_true_color();
    config.time = Some("2024-01-01".to_string());
    let request = imagery_request(TileCoordinate::new(1, 3, IVec2::new(2, 5)));
    let metadata = imagery_tile_metadata(&config, &request, 77);
    assert_eq!(metadata.source.source_id, "nasa_gibs/modis_true_color");
    assert_eq!(metadata.source_revision, Some("2024-01-01".to_string()));
    assert_eq!(metadata.source_crs, Some("EPSG:4326".to_string()));
    assert_eq!(metadata.fetched_at_unix_ms, 77);
    assert_eq!(metadata.coordinate, request.coordinate);
    assert_eq!(metadata.encoding, CacheTileEncoding::Tiff);
    let provider = NasaGibsImageryProvider::new(config.duplicate());
    assert_eq!(provider.descriptor().source_id, "nasa_gibs/modis_true_color");
    assert_eq!(provider.config().time, Some("2024-01-01".to_string()));
}

#[test]
fn decoding_format_and_error_texts_follow_preferences() {
    assert_eq!(pick_source_format(Some(ImageFormat::Png), Some(ImageFormat::Jpeg), None), Some(ImageFormat::Png));
    assert_eq!(pick_source_format(None, Some(ImageFormat::Jpeg), Some(ImageFormat::Png)), Some(ImageFormat::Jpeg));
    assert_eq!(pick_source_format(None, None, Some(ImageFormat::Png)), Some(ImageFormat::Png));
    assert_eq!(pick_source_format(None, None, None), None);
    assert_eq!(
        unknown_format_error("text/plain").message(),
        "streaming provider encountered a permanent failure: unsupported imagery response content type 'text/plain'"
    );
    assert_eq!(
        non_image_response_error(b"<html>\nno</html>", "text/html"),
        StreamingProviderError::Permanent(
            "imagery source returned a non-image response (content_type='text/html', preview='<html> no</html>')"
                .to_string()
        )
    );
    assert_eq!(
        imagery_decode_error("image/png", "Png", "bad crc"),
        StreamingProviderError::Permanent("imagery decode failed (content_type='image/png', format=Png): bad crc".to_string())
    );
}

#[test]
fn provider_rejects_height_requests() {
    let mut request = imagery_request(TileCoordinate::new(0, 1, IVec2::new(0, 0)));
    request.attachment_label = AttachmentLabel::Height;

    assert!(matches!(
        availability_from_plan(validate_request(&request)),
        StreamingSourceAvailability::Unavailable { .. }
    ));
}

#[test]
fn rgb_tiles_encode_as_tiff_files() {
    let samples: Vec<u8> = (0u8..12).collect();
    let bytes = encode_rgb_tiff(2, 2, &samples).expect("a 2x2 tile encodes");
    assert_eq!(&bytes[..4], b"II*\0");
    assert_ne!(bytes, samples);
    let mut decoder = tiff::decoder::Decoder::new(std::io::Cursor::new(bytes)).expect("the tile decodes");
    assert_eq!(decoder.dimensions().unwrap(), (2, 2));
    match decoder.read_image().unwrap() {
        tiff::decoder::DecodingResult::U8(values) => assert_eq!(values, samples),
        _ => panic!("RGB8 samples expected"),
    }
}

#[test]
fn empty_or_undersized_tiles_are_permanent_errors() {
    for (width, height, len) in [(0u32, 4u32, 0usize), (4, 0, 0), (2, 2, 3)] {
        match encode_rgb_tiff(width, height, &vec![7u8; len]) {
            Err(StreamingProviderError::Permanent(message)) => {
                assert!(message.starts_with("failed to encode TIFF tile: "), "{message}")
            }
            other => panic!("expected a permanent error, got {other:?}"),
        }
    }
}

#[test]
fn tiff_failures_name_the_failed_step() {
    assert_eq!(
        tiff_tile_result(Err(TiffEncodeFailure::Create("io".to_string()))),
        Err(StreamingProviderError::Permanent("failed to create TIFF encoder: io".to_string()))
    );
    assert_eq!(
        tiff_tile_result(Err(TiffEncodeFailure::Write("bad".to_string()))),
        Err(StreamingProviderError::Permanent("failed to encode TIFF tile: bad".to_string()))
    );
    assert_eq!(tiff_tile_result(Ok(vec![1, 2])), Ok(vec![1, 2]));
}
