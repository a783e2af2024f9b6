use std::time::Duration;
use terrain_streaming::coordinate::{AttachmentConfig, AttachmentFormat, AttachmentLabel, IVec2, TerrainShape, TileCoordinate};
use terrain_streaming::opentopography::{
    check_dem_sample_count, check_dem_tiff_body, max_request_area_sq_km_for_dem_type, non_tiff_response_error,
    opentopography_status_error, redact_api_key_in_url, redact_query_parameter, validate_request,
    OpenTopographyHeightConfig, OpenTopographyHeightProvider,
};
use terrain_streaming::source_contract::{
    availability_from_plan, StreamingProviderError, StreamingRequestPriority, StreamingSourceAvailability,
    StreamingTileRequest,
};

fn height_request(tile: TileCoordinate) -> StreamingTileRequest {
    StreamingTileRequest {
        terrain_path: "terrains/earth".to_string(),
        attachment_label: AttachmentLabel::Height,
        attachment_config: AttachmentConfig {
            texture_size: 128,
            border_size: 4,
            mip_level_count: 4,
            mask: false,
            format: AttachmentFormat::R32F,
        },
        coordinate: tile,
        terrain_shape: TerrainShape::WGS84,
        terrain_lod_count: 5,
        priority: StreamingRequestPriority::Background,
    }
}

fn config_with_key(key: Option<&str>) -> OpenTopographyHeightConfig {
    OpenTopographyHeightConfig {
        api_key: key.map(|k| k.to_string()),
        ..OpenTopographyHeightConfig::from_environment_values(None, None, None)
    }
}

#[test]
fn api_key_is_redacted_from_error_urls() {
    let redacted = redact_api_key_in_url(
        "https://portal.opentopography.org/API/globaldem?demtype=AW3D30_E&API_Key=secret-value&outputFormat=GTiff",
    );

    assert!(redacted.contains("API_Key=REDACTED"));
    assert!(!redacted.contains("secret-value"));
}

#[test]
fn html_response_is_reported_as_non_tiff() {
    let error = check_dem_tiff_body(b"<!DOCTYPE html><html><body>rate limited</body></html>", "text/html")
        .expect_err("html error pages should not reach the TIFF decoder");

    let message = error.message();
    assert!(message.contains("non-TIFF response"));
    assert!(message.contains("text/html"));
    assert!(message.contains("rate limited"));
}

#[test]
fn environment_values_fill_the_default_configuration() {
    let config = OpenTopographyHeightConfig::from_environment_values(None, None, None);
    assert_eq!(config.source_id, "opentopography/aw3d30_e");
    assert_eq!(config.endpoint, "https://portal.opentopography.org/API/globaldem");
    assert_eq!(config.dem_type, "AW3D30_E");
    assert_eq!(config.output_format, "GTiff");
    assert_eq!(config.api_key, None);
    assert_eq!(config.connect_timeout, Duration::from_secs(10));
    assert_eq!(config.read_timeout, Duration::from_secs(45));

    let configured = OpenTopographyHeightConfig::from_environment_values(
        Some("COP90".to_string()),
        Some("  ".to_string()),
        Some("legacy".to_string()),
    );
    assert_eq!(configured.dem_type, "COP90");
    assert_eq!(configured.api_key, Some("legacy".to_string()));

    let blank = OpenTopographyHeightConfig::from_environment_values(Some(" \t".to_string()), Some("key".to_string()), None);
    assert_eq!(blank.dem_type, "AW3D30_E");
    assert_eq!(blank.api_key, Some("key".to_string()));
}

#[test]
fn provider_requires_api_key_before_planning() {
    let provider = OpenTopographyHeightProvider::new(config_with_key(None));
    assert_eq!(
        provider.plan_global_dem_checks(&height_request(TileCoordinate::new(0, 6, IVec2::new(20, 18)))),
        Err(StreamingProviderError::Unavailable(
            "OpenTopography height streaming requires OPENTOPOGRAPHY_API_KEY".to_string()
        ))
    );
    let keyed = OpenTopographyHeightProvider::new(config_with_key(Some("test-key")));
    assert_eq!(
        keyed.plan_global_dem_checks(&height_request(TileCoordinate::new(0, 6, IVec2::new(20, 18)))),
        Ok("test-key".to_string())
    );
}

#[test]
fn provider_serves_float_height_on_spherical_terrains_only() {
    let mut imagery = height_request(TileCoordinate::new(0, 2, IVec2::new(1, 1)));
    imagery.attachment_label = AttachmentLabel::Custom("albedo".to_string());
    assert_eq!(
        validate_request(&imagery),
        Err(StreamingProviderError::Unsupported("OpenTopography only serves height attachments".to_string()))
    );
    let mut integer_height = height_request(TileCoordinate::new(0, 2, IVec2::new(1, 1)));
    integer_height.attachment_config.format = AttachmentFormat::R16U;
    assert!(matches!(validate_request(&integer_height), Err(StreamingProviderError::Unsupported(_))));
    let mut flat = height_request(TileCoordinate::new(0, 2, IVec2::new(1, 1)));
    flat.terrain_shape = TerrainShape::Plane;
    assert!(matches!(validate_request(&flat), Err(StreamingProviderError::Unsupported(_))));
    let provider = OpenTopographyHeightProvider::new(config_with_key(Some("k")));
    assert!(matches!(provider.plan_global_dem_checks(&imagery), Err(StreamingProviderError::Unsupported(_))));
}

#[test]
fn dataset_area_limits_ignore_case_and_padding() {
    assert_eq!(max_request_area_sq_km_for_dem_type("AW3D30_E"), Some(450_000));
    assert_eq!(max_request_area_sq_km_for_dem_type(" cop30 "), Some(450_000));
    assert_eq!(max_request_area_sq_km_for_dem_type("SRTMGL3"), Some(4_050_000));
    assert_eq!(max_request_area_sq_km_for_dem_type("cop90\n"), Some(4_050_000));
    assert_eq!(max_request_area_sq_km_for_dem_type("GEDI_L3"), None);
}

#[test]
fn redaction_keeps_the_rest_of_the_url() {
    assert_eq!(redact_query_parameter("a?x=1&key=s&y=2", "key"), "a?x=1&key=REDACTED&y=2");
    assert_eq!(redact_query_parameter("a?key=s", "key"), "a?key=REDACTED");
    assert_eq!(redact_query_parameter("a?x=1", "key"), "a?x=1");
    assert_eq!(redact_query_parameter("a?key=&y", "key"), "a?key=REDACTED&y");
}

#[test]
fn binary_non_tiff_bodies_show_their_magic_bytes() {
    let error = non_tiff_response_error(&[0x89, 0x50, 0x4e, 0x47, 1, 2, 3, 4, 5, 6], "image/png");
    assert_eq!(
        error,
        StreamingProviderError::Permanent(
            "OpenTopography returned a non-TIFF body (content_type='image/png', magic='89 50 4E 47 01 02 03 04')"
                .to_string()
        )
    );
    let empty = non_tiff_response_error(&[], "application/octet-stream");
    assert!(empty.message().contains("magic='empty'"));
    let json = non_tiff_response_error(b"  {\"error\": \"quota\"}", "application/octet-stream");
    assert!(json.message().contains("non-TIFF response"));
    let textual_type = non_tiff_response_error(&[1, 2], " Application/JSON; charset=utf-8");
    assert!(textual_type.message().contains("non-TIFF response"));
}

#[test]
fn tiff_signatures_pass_the_body_check() {
    assert_eq!(check_dem_tiff_body(b"II*\0rest", "image/tiff"), Ok(()));
    assert_eq!(check_dem_tiff_body(b"MM\0*", "image/tiff"), Ok(()));
    assert_eq!(check_dem_tiff_body(b"II+\0", "image/tiff"), Ok(()));
    assert!(check_dem_tiff_body(b"II*", "image/tiff").is_err());
}

#[test]
fn sample_counts_must_match_dimensions() {
    assert_eq!(check_dem_sample_count(12, 3, 4), Ok(()));
    assert_eq!(
        check_dem_sample_count(11, 3, 4),
        Err(StreamingProviderError::Permanent(
            "OpenTopography TIFF sample count 11 did not match dimensions 3x4".to_string()
        ))
    );
}

#[test]
fn http_failures_are_classified_and_redacted() {
    assert_eq!(
        opentopography_status_error(429, "https://x/?API_Key=abc"),
        StreamingProviderError::Transient("OpenTopography returned HTTP 429 for https://x/?API_Key=REDACTED".to_string())
    );
    assert!(matches!(opentopography_status_error(503, "u"), StreamingProviderError::Transient(_)));
    assert!(matches!(opentopography_status_error(404, "u"), StreamingProviderError::Permanent(_)));
}

#[test]
fn height_metadata_names_the_dataset() {
    let provider = OpenTopographyHeightProvider::new(config_with_key(Some("k")));
    let request = height_request(TileCoordinate::new(0, 6, IVec2::new(20, 18)));
    let metadata = provider.height_tile_metadata(&request, 5);
    assert_eq!(metadata.source.source_id, "opentopography/aw3d30_e");
    assert_eq!(metadata.source_revision, Some("AW3D30_E".to_string()));
    assert_eq!(metadata.fetched_at_unix_ms, 5);
}

#[test]
fn provider_requires_api_key() {
    let provider = OpenTopographyHeightProvider::new(config_with_key(None));

    assert!(matches!(
        availability_from_plan(provider.plan_global_dem_checks(&height_request(TileCoordinate::new(0, 6, IVec2::new(20, 18))))),
        StreamingSourceAvailability::Unavailable { .. }
    ));
}

#[test]
fn provider_rejects_imagery_requests() {
    let provider = OpenTopographyHeightProvider::new(config_with_key(Some("test-key")));
    let mut request = height_request(TileCoordinate::new(0, 2, IVec2::new(1, 1)));
    request.attachment_label = AttachmentLabel::Custom("albedo".to_string());

    assert!(matches!(
        availability_from_plan(provider.plan_global_dem_checks(&request)),
        StreamingSourceAvailability::Unavailable { .. }
    ));
}
