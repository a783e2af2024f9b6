//! The OpenTopography global-DEM height provider: its configuration, which requests it
//! serves, its per-dataset request-area limits, how non-TIFF answers are reported, how its
//! API key is kept out of error messages, and the metadata of the tiles it produces. The
//! network round trip, the TIFF decoding and the resampling run in the application.

use vstd::prelude::*;
use std::time::Duration;
use crate::cache_manifest::{
    CURRENT_STREAMING_CACHE_FORMAT_VERSION, CacheTileEncoding, CacheTileEncodingView, CachedTileMetadata,
    CachedTileMetadataView, StreamedAttachmentKind, StreamedAttachmentKindView, StreamingSourceDescriptor,
    StreamingSourceDescriptorView, StreamingSourceKind, StreamingSourceKindView, spec_attachment_kind,
};
use crate::coordinate::AttachmentFormat;
use crate::gibs::{duration_from_secs, seconds};
use crate::http_body::{
    body_has_tiff_signature, body_magic_preview, content_type_looks_textual, http_status_error,
    response_looks_like_text_document, response_preview, spec_body_magic_preview, spec_content_type_looks_textual,
    spec_has_tiff_signature, spec_http_status_error, spec_looks_like_text_document, spec_response_preview, trim,
    trim_chars,
};
use crate::source_contract::{StreamingProviderError, StreamingProviderErrorView, StreamingTileRequest, StreamingTileRequestView};
use crate::text::{
    ascii_upper_seq, chars_equal, chars_of, contains_seq, decimal, find_chars, occurs_at, push_char, push_decimal,
    string_from_chars, to_ascii_upper,
};

verus! {

/// Where and how heights are fetched from OpenTopography.
#[derive(Clone, Debug, PartialEq, Eq)]
pub struct OpenTopographyHeightConfig {
    pub source_id: String,
    pub endpoint: String,
    pub dem_type: String,
    pub output_format: String,
    pub api_key: Option<String>,
    pub connect_timeout: Duration,
    pub read_timeout: Duration,
}

/// A setting value counts when it is not blank.
pub open spec fn present_value(v: Option<String>) -> Option<Seq<char>> {
    match v {
        Some(s) => if trim(s@).len() > 0 {
            Some(s@)
        } else {
            None
        },
        None => None,
    }
}

fn present_value_exec(v: Option<String>) -> (r: Option<String>)
    ensures
        match r {
            Some(s) => present_value(v) == Some(s@),
            None => present_value(v) is None,
        },
{
    match v {
        Some(s) => {
            if trim_chars(s.as_str()).len() > 0 {
                Some(s)
            } else {
                None
            }
        },
        None => None,
    }
}

/// The configuration made from the environment's settings: the dataset named by
/// `OPENTOPOGRAPHY_DEM_TYPE` (AW3D30_E when unset or blank), the API key from
/// `OPENTOPOGRAPHY_API_KEY` or else `OPEN_TOPOGRAPHY_API_KEY` (blank values ignored),
/// GeoTIFF output, 10 s to connect, 45 s to read.
pub open spec fn is_environment_config(
    c: OpenTopographyHeightConfig,
    dem_type_var: Option<String>,
    api_key_var: Option<String>,
    legacy_api_key_var: Option<String>,
) -> bool {
    &&& c.source_id@ == "opentopography/aw3d30_e"@
    &&& c.endpoint@ == "https://portal.opentopography.org/API/globaldem"@
    &&& c.dem_type@ == match present_value(dem_type_var) {
        Some(v) => v,
        None => "AW3D30_E"@,
    }
    &&& c.output_format@ == "GTiff"@
    &&& match c.api_key {
        Some(k) => Some(k@) == match present_value(api_key_var) {
            Some(v) => Some(v),
            None => present_value(legacy_api_key_var),
        },
        None => present_value(api_key_var) is None && present_value(legacy_api_key_var) is None,
    }
    &&& c.connect_timeout == seconds(10)
    &&& c.read_timeout == seconds(45)
}

impl OpenTopographyHeightConfig {
    /// The configuration for the values of `OPENTOPOGRAPHY_DEM_TYPE`, `OPENTOPOGRAPHY_API_KEY`
    /// and `OPEN_TOPOGRAPHY_API_KEY` (each `None` when unset).
    pub fn from_environment_values(
        dem_type_var: Option<String>,
        api_key_var: Option<String>,
        legacy_api_key_var: Option<String>,
    ) -> (c: OpenTopographyHeightConfig)
        ensures
            is_environment_config(c, dem_type_var, api_key_var, legacy_api_key_var),
    {
        let dem_type = match present_value_exec(dem_type_var) {
            Some(v) => v,
            None => String::from_str("AW3D30_E"),
        };
        let api_key = match present_value_exec(api_key_var) {
            Some(v) => Some(v),
            None => present_value_exec(legacy_api_key_var),
        };
        OpenTopographyHeightConfig {
            source_id: String::from_str("opentopography/aw3d30_e"),
            endpoint: String::from_str("https://portal.opentopography.org/API/globaldem"),
            dem_type,
            output_format: String::from_str("GTiff"),
            api_key,
            connect_timeout: duration_from_secs(10),
            read_timeout: duration_from_secs(45),
        }
    }
}

/// The height provider for one configuration.
#[derive(Clone, Debug)]
pub struct OpenTopographyHeightProvider {
    config: OpenTopographyHeightConfig,
}

impl OpenTopographyHeightProvider {
    /// The configuration the provider was made with.
    pub closed spec fn configured(&self) -> OpenTopographyHeightConfig {
        self.config
    }

    pub fn new(config: OpenTopographyHeightConfig) -> (p: OpenTopographyHeightProvider)
        ensures
            p.configured() == config,
    {
        OpenTopographyHeightProvider { config }
    }

    /// The configuration the provider was made with.
    pub fn config(&self) -> (c: &OpenTopographyHeightConfig)
        ensures
            *c == self.configured(),
    {
        &self.config
    }

    /// The identity of the provider's source: its id, OpenTopography, serving height.
    pub fn descriptor(&self) -> (d: StreamingSourceDescriptor)
        ensures
            d@ == spec_height_descriptor(self.configured()),
    {
        StreamingSourceDescriptor {
            source_id: self.config.source_id.clone(),
            source_kind: StreamingSourceKind::OpenTopography,
            attachment_kind: StreamedAttachmentKind::Height,
        }
    }

    /// The checks that come before a DEM request is planned: the request must be one the
    /// provider serves, and an API key must be configured. Returns the API key.
    pub fn plan_global_dem_checks(&self, request: &StreamingTileRequest) -> (r: Result<String, StreamingProviderError>)
        ensures
            spec_height_request_error(request@) matches Some(e) ==> r matches Err(err) && err@ == e,
            spec_height_request_error(request@) is None ==> match self.configured().api_key {
                Some(k) => r matches Ok(key) && key@ == k@,
                None => r matches Err(err) && err@ == StreamingProviderErrorView::Unavailable(
                    "OpenTopography height streaming requires OPENTOPOGRAPHY_API_KEY"@,
                ),
            },
    {
        match validate_request(request) {
            Ok(()) => {},
            Err(e) => return Err(e),
        }
        match &self.config.api_key {
            Some(k) => Ok(k.clone()),
            None => Err(
                StreamingProviderError::Unavailable(
                    String::from_str("OpenTopography height streaming requires OPENTOPOGRAPHY_API_KEY"),
                ),
            ),
        }
    }
}

/// The identity of a configured height source.
pub open spec fn spec_height_descriptor(config: OpenTopographyHeightConfig) -> StreamingSourceDescriptorView {
    StreamingSourceDescriptorView {
        source_id: config.source_id@,
        source_kind: StreamingSourceKindView::OpenTopography,
        attachment_kind: StreamedAttachmentKindView::Height,
    }
}

/// Why the height provider cannot serve a request, if it cannot: height only, 32-bit float
/// texels only, spherical terrains only.
pub open spec fn spec_height_request_error(r: StreamingTileRequestView) -> Option<StreamingProviderErrorView> {
    if spec_attachment_kind(r.attachment_label) != StreamedAttachmentKindView::Height {
        Some(StreamingProviderErrorView::Unsupported("OpenTopography only serves height attachments"@))
    } else if r.attachment_config.format != AttachmentFormat::R32F {
        Some(
            StreamingProviderErrorView::Unsupported(
                "OpenTopography height streaming currently requires R32F terrain attachments"@,
            ),
        )
    } else if !r.terrain_shape.spec_is_spherical() {
        Some(StreamingProviderErrorView::Unsupported("OpenTopography provider currently requires a spherical terrain"@))
    } else {
        None
    }
}

/// Checks that the height provider can serve a request.
pub fn validate_request(request: &StreamingTileRequest) -> (r: Result<(), StreamingProviderError>)
    ensures
        spec_height_request_error(request@) is None <==> r is Ok,
        r matches Err(e) ==> Some(e@) == spec_height_request_error(request@),
{
    if !request.attachment_kind().is_height() {
        return Err(
            StreamingProviderError::Unsupported(String::from_str("OpenTopography only serves height attachments")),
        );
    }
    if request.attachment_config.format != AttachmentFormat::R32F {
        return Err(
            StreamingProviderError::Unsupported(
                String::from_str("OpenTopography height streaming currently requires R32F terrain attachments"),
            ),
        );
    }
    if !request.terrain_shape.is_spherical() {
        return Err(
            StreamingProviderError::Unsupported(
                String::from_str("OpenTopography provider currently requires a spherical terrain"),
            ),
        );
    }
    Ok(())
}

/// The 30 m datasets, limited to 450 000 km² per request.
pub open spec fn fine_dem_types() -> Seq<Seq<char>> {
    seq!["AW3D30"@, "AW3D30_E"@, "SRTMGL1"@, "SRTMGL1_E"@, "NASADEM"@, "COP30"@, "EU_DTM"@]
}

/// The 90 m datasets, limited to 4 050 000 km² per request.
pub open spec fn coarse_dem_types() -> Seq<Seq<char>> {
    seq!["SRTMGL3"@, "COP90"@]
}

/// The largest area, in km², one request for a dataset may cover: the dataset name is
/// trimmed and upper-cased; unknown datasets have no limit.
pub open spec fn spec_max_request_area_sq_km(dem_type: Seq<char>) -> Option<u64> {
    let d = ascii_upper_seq(trim(dem_type));
    if fine_dem_types().contains(d) {
        Some(450000)
    } else if coarse_dem_types().contains(d) {
        Some(4050000)
    } else {
        None
    }
}

/// OpenTopography's request-area limits by dataset, whatever the case and surrounding white
/// space of its name: the 30 m datasets AW3D30, AW3D30_E, SRTMGL1, SRTMGL1_E, NASADEM, COP30
/// and EU_DTM are limited to 450 000 km², the 90 m datasets SRTMGL3 and COP90 to
/// 4 050 000 km².
pub proof fn lemma_dataset_area_limits(dem_type: Seq<char>)
    ensures
        ({
            let d = ascii_upper_seq(trim(dem_type));
            &&& (d == "AW3D30"@ || d == "AW3D30_E"@ || d == "SRTMGL1"@ || d == "SRTMGL1_E"@ || d == "NASADEM"@
                || d == "COP30"@ || d == "EU_DTM"@) ==> spec_max_request_area_sq_km(dem_type) == Some(450000u64)
            &&& (d == "SRTMGL3"@ || d == "COP90"@) ==> spec_max_request_area_sq_km(dem_type) == Some(4050000u64)
        }),
{
    let d = ascii_upper_seq(trim(dem_type));
    let fine = fine_dem_types();
    assert(fine[0] == "AW3D30"@);
    assert(fine[1] == "AW3D30_E"@);
    assert(fine[2] == "SRTMGL1"@);
    assert(fine[3] == "SRTMGL1_E"@);
    assert(fine[4] == "NASADEM"@);
    assert(fine[5] == "COP30"@);
    assert(fine[6] == "EU_DTM"@);
    let coarse = coarse_dem_types();
    assert(coarse[0] == "SRTMGL3"@);
    assert(coarse[1] == "COP90"@);
    if d == "SRTMGL3"@ || d == "COP90"@ {
        reveal_strlit("AW3D30");
        reveal_strlit("AW3D30_E");
        reveal_strlit("SRTMGL1");
        reveal_strlit("SRTMGL1_E");
        reveal_strlit("NASADEM");
        reveal_strlit("COP30");
        reveal_strlit("EU_DTM");
        reveal_strlit("SRTMGL3");
        reveal_strlit("COP90");
        assert forall|i: int| 0 <= i < fine.len() implies #[trigger] fine[i] != d by {
            if i == 0 || i == 1 || i == 3 || i == 5 || i == 6 {
                assert(fine[i].len() != d.len() || fine[i][0] != d[0] || fine[i][3] != d[3]);
            } else if i == 2 {
                assert(fine[i][6] != d[6] || fine[i].len() != d.len());
            } else {
                assert(fine[i][0] != d[0] || fine[i].len() != d.len());
            }
        }
    }
}

fn is_one_of(d: &Vec<char>, names: &Vec<&str>) -> (r: bool)
    ensures
        r == names@.map_values(|n: &str| n@).contains(d@),
{
    let ghost views = names@.map_values(|n: &str| n@);
    let mut i: usize = 0;
    while i < names.len()
        invariant
            views == names@.map_values(|n: &str| n@),
            i <= names.len(),
            forall|j: int| 0 <= j < i ==> #[trigger] views[j] != d@,
        decreases names.len() - i,
    {
        let name = chars_of(names[i]);
        if chars_equal(d, &name) {
            assert(views[i as int] == d@);
            return true;
        }
        i = i + 1;
    }
    false
}

/// The request-area limit of a dataset, in km².
pub fn max_request_area_sq_km_for_dem_type(dem_type: &str) -> (r: Option<u64>)
    ensures
        r == spec_max_request_area_sq_km(dem_type@),
{
    let trimmed = trim_chars(dem_type);
    let mut d: Vec<char> = Vec::new();
    let mut i: usize = 0;
    while i < trimmed.len()
        invariant
            i <= trimmed.len(),
            d@ == ascii_upper_seq(trimmed@.subrange(0, i as int)),
        decreases trimmed.len() - i,
    {
        d.push(to_ascii_upper(trimmed[i]));
        i = i + 1;
        assert(d@ =~= ascii_upper_seq(trimmed@.subrange(0, i as int)));
    }
    assert(trimmed@.subrange(0, trimmed@.len() as int) =~= trimmed@);
    let fine: Vec<&str> = vec!["AW3D30", "AW3D30_E", "SRTMGL1", "SRTMGL1_E", "NASADEM", "COP30", "EU_DTM"];
    let coarse: Vec<&str> = vec!["SRTMGL3", "COP90"];
    assert(fine@.map_values(|n: &str| n@) =~= fine_dem_types());
    assert(coarse@.map_values(|n: &str| n@) =~= coarse_dem_types());
    if is_one_of(&d, &fine) {
        Some(450000)
    } else if is_one_of(&d, &coarse) {
        Some(4050000)
    } else {
        None
    }
}

/// The error for a response that is not a TIFF: a textual body or content type is
/// reported with a text preview, anything else with its leading bytes in hexadecimal.
pub open spec fn spec_non_tiff_response_error(body: Seq<u8>, content_type: Seq<char>) -> StreamingProviderErrorView {
    if spec_looks_like_text_document(body) || spec_content_type_looks_textual(content_type) {
        StreamingProviderErrorView::Permanent(
            "OpenTopography returned a non-TIFF response (content_type='"@ + content_type + "', preview='"@
                + spec_response_preview(body) + "')"@,
        )
    } else {
        StreamingProviderErrorView::Permanent(
            "OpenTopography returned a non-TIFF body (content_type='"@ + content_type + "', magic='"@
                + spec_body_magic_preview(body) + "')"@,
        )
    }
}

/// Describes a response that is not a TIFF.
pub fn non_tiff_response_error(body: &[u8], content_type: &str) -> (e: StreamingProviderError)
    ensures
        e@ == spec_non_tiff_response_error(body@, content_type@),
{
    if response_looks_like_text_document(body) || content_type_looks_textual(content_type) {
        let m = String::from_str("OpenTopography returned a non-TIFF response (content_type='");
        let m = m.concat(content_type);
        let m = m.concat("', preview='");
        let preview = response_preview(body);
        let m = m.concat(preview.as_str());
        let m = m.concat("')");
        StreamingProviderError::Permanent(m)
    } else {
        let m = String::from_str("OpenTopography returned a non-TIFF body (content_type='");
        let m = m.concat(content_type);
        let m = m.concat("', magic='");
        let magic = body_magic_preview(body);
        let m = m.concat(magic.as_str());
        let m = m.concat("')");
        StreamingProviderError::Permanent(m)
    }
}

/// What a DEM response must show before it is decoded: it must start with a TIFF
/// signature, else it is reported as a non-TIFF response.
pub fn check_dem_tiff_body(body: &[u8], content_type: &str) -> (r: Result<(), StreamingProviderError>)
    ensures
        r is Ok <==> spec_has_tiff_signature(body@),
        r matches Err(e) ==> e@ == spec_non_tiff_response_error(body@, content_type@),
{
    if body_has_tiff_signature(body) {
        Ok(())
    } else {
        Err(non_tiff_response_error(body, content_type))
    }
}

/// Rejects a decoded DEM whose sample count does not match its dimensions.
pub fn check_dem_sample_count(sample_count: usize, width: u32, height: u32) -> (r: Result<(), StreamingProviderError>)
    requires
        width * height <= u32::MAX,
    ensures
        r is Ok <==> sample_count == width * height,
        r matches Err(e) ==> e@ == StreamingProviderErrorView::Permanent(
            "OpenTopography TIFF sample count "@ + decimal(sample_count as nat) + " did not match dimensions "@
                + decimal(width as nat) + seq!['x'] + decimal(height as nat),
        ),
{
    let expected = width * height;
    if sample_count as u64 == expected as u64 {
        return Ok(());
    }
    let mut m = String::from_str("OpenTopography TIFF sample count ");
    push_decimal(&mut m, sample_count as u64);
    m = m.concat(" did not match dimensions ");
    push_decimal(&mut m, width as u64);
    push_char(&mut m, 'x');
    push_decimal(&mut m, height as u64);
    assert(m@ =~= "OpenTopography TIFF sample count "@ + decimal(sample_count as nat) + " did not match dimensions "@
        + decimal(width as nat) + seq!['x'] + decimal(height as nat));
    Err(StreamingProviderError::Permanent(m))
}

/// The first position at or after `from` holding `&`, or the end.
pub open spec fn next_ampersand(s: Seq<char>, from: int) -> int
    decreases s.len() - from,
{
    if from >= s.len() {
        s.len() as int
    } else if s[from] == '&' {
        from
    } else {
        next_ampersand(s, from + 1)
    }
}

/// The first position at which `needle` occurs in `s`, if it occurs.
pub open spec fn first_occurrence(s: Seq<char>, needle: Seq<char>) -> Option<int> {
    if contains_seq(s, needle) {
        Some(choose|k: int| occurs_at(s, needle, k) && forall|j: int| 0 <= j < k ==> !occurs_at(s, needle, j))
    } else {
        None
    }
}

/// `url` with the value of its first `parameter=` replaced by `REDACTED` (the value runs to
/// the next `&` or the end); unchanged when the parameter does not occur.
pub open spec fn spec_redact_query_parameter(url: Seq<char>, parameter: Seq<char>) -> Seq<char> {
    let needle = parameter + seq!['='];
    match first_occurrence(url, needle) {
        None => url,
        Some(start) => {
            let value_start = start + needle.len();
            let value_end = next_ampersand(url, value_start);
            url.subrange(0, value_start) + "REDACTED"@ + url.subrange(value_end, url.len() as int)
        },
    }
}

/// Replaces the value of a query parameter in a URL with `REDACTED`.
pub fn redact_query_parameter(url: &str, parameter: &str) -> (r: String)
    ensures
        r@ == spec_redact_query_parameter(url@, parameter@),
{
    let mut needle = chars_of(parameter);
    needle.push('=');
    let chars = chars_of(url);
    let ghost nv = parameter@ + seq!['='];
    assert(needle@ =~= nv);
    match find_chars(&chars, &needle) {
        None => String::from_str(url),
        Some(start) => {
            proof {
                let k = choose|k: int| occurs_at(url@, nv, k) && forall|j: int| 0 <= j < k ==> !occurs_at(url@, nv, j);
                assert(occurs_at(url@, nv, start as int));
                if k < start {
                } else if k > start {
                }
                assert(k == start);
            }
            assert(occurs_at(chars@, needle@, start as int));
            assert(start + needle@.len() <= chars@.len() == chars.len());
            let value_start = start + needle.len();
            let mut value_end = value_start;
            while value_end < chars.len() && chars[value_end] != '&'
                invariant
                    chars@ == url@,
                    value_start <= value_end <= chars.len(),
                    next_ampersand(url@, value_end as int) == next_ampersand(url@, value_start as int),
                decreases chars.len() - value_end,
            {
                value_end = value_end + 1;
            }
            let mut r = string_from_chars(&chars, 0, value_start);
            r = r.concat("REDACTED");
            let tail = string_from_chars(&chars, value_end, chars.len());
            r = r.concat(tail.as_str());
            r
        },
    }
}

/// Replaces the API key in a request URL with `REDACTED`.
pub fn redact_api_key_in_url(url: &str) -> (r: String)
    ensures
        r@ == spec_redact_query_parameter(url@, "API_Key"@),
{
    redact_query_parameter(url, "API_Key")
}

/// After redaction, the parameter is immediately followed by `REDACTED`.
pub proof fn lemma_redaction_marks_the_value(url: Seq<char>, parameter: Seq<char>)
    requires
        contains_seq(url, parameter + seq!['=']),
    ensures
        contains_seq(spec_redact_query_parameter(url, parameter), parameter + seq!['='] + "REDACTED"@),
{
    let needle = parameter + seq!['='];
    let start = choose|k: int| occurs_at(url, needle, k) && forall|j: int| 0 <= j < k ==> !occurs_at(url, needle, j);
    lemma_first_occurrence_exists(url, needle);
    let r = spec_redact_query_parameter(url, parameter);
    let marked = needle + "REDACTED"@;
    let value_start = start + needle.len();
    let value_end = next_ampersand(url, value_start);
    assert(r == url.subrange(0, value_start) + "REDACTED"@ + url.subrange(value_end, url.len() as int));
    assert(r.subrange(start, start + marked.len()) =~= marked);
    assert(occurs_at(r, marked, start));
}

/// When `needle` occurs, a first occurrence exists.
pub proof fn lemma_first_occurrence_exists(s: Seq<char>, needle: Seq<char>)
    requires
        contains_seq(s, needle),
    ensures
        exists|k: int| occurs_at(s, needle, k) && forall|j: int| 0 <= j < k ==> !occurs_at(s, needle, j),
{
    let w = choose|at: int| occurs_at(s, needle, at);
    lemma_first_below(s, needle, w);
}

proof fn lemma_first_below(s: Seq<char>, needle: Seq<char>, w: int)
    requires
        occurs_at(s, needle, w),
    ensures
        exists|k: int| occurs_at(s, needle, k) && forall|j: int| 0 <= j < k ==> !occurs_at(s, needle, j),
    decreases w,
{
    if exists|j: int| 0 <= j < w && occurs_at(s, needle, j) {
        let j = choose|j: int| 0 <= j < w && occurs_at(s, needle, j);
        lemma_first_below(s, needle, j);
    } else {
        assert(occurs_at(s, needle, w) && forall|j: int| 0 <= j < w ==> !occurs_at(s, needle, j));
    }
}

/// The provider error for an HTTP failure status, with the API key redacted from the URL.
pub fn opentopography_status_error(code: u16, url: &str) -> (e: StreamingProviderError)
    ensures
        e@ == spec_http_status_error("OpenTopography"@, code, spec_redact_query_parameter(url@, "API_Key"@)),
{
    let redacted = redact_api_key_in_url(url);
    http_status_error("OpenTopography", code, redacted.as_str())
}

/// The sidecar metadata of a height tile fetched from OpenTopography: the source's identity,
/// the dataset as revision, in EPSG:4326, TIFF-encoded.
pub open spec fn spec_height_tile_metadata(
    config: OpenTopographyHeightConfig,
    r: StreamingTileRequestView,
    fetched_at_unix_ms: u64,
) -> CachedTileMetadataView {
    CachedTileMetadataView {
        format_version: CURRENT_STREAMING_CACHE_FORMAT_VERSION,
        terrain_path: r.terrain_path,
        attachment_label: r.attachment_label,
        coordinate: r.coordinate,
        source: spec_height_descriptor(config),
        fetched_at_unix_ms,
        expires_at_unix_ms: None,
        source_zoom: None,
        source_revision: Some(config.dem_type@),
        source_content_hash: None,
        source_crs: Some("EPSG:4326"@),
        encoding: CacheTileEncodingView::Tiff,
    }
}

impl OpenTopographyHeightProvider {
    /// The sidecar metadata of a height tile this provider fetched.
    pub fn height_tile_metadata(&self, request: &StreamingTileRequest, fetched_at_unix_ms: u64) -> (m: CachedTileMetadata)
        ensures
            m@ == spec_height_tile_metadata(self.configured(), request@, fetched_at_unix_ms),
    {
        CachedTileMetadata {
            format_version: CURRENT_STREAMING_CACHE_FORMAT_VERSION,
            terrain_path: request.terrain_path.clone(),
            attachment_label: request.attachment_label.duplicate(),
            coordinate: request.coordinate,
            source: self.descriptor(),
            fetched_at_unix_ms,
            expires_at_unix_ms: None,
            source_zoom: None,
            source_revision: Some(self.config.dem_type.clone()),
            source_content_hash: None,
            source_crs: Some(String::from_str("EPSG:4326")),
            encoding: CacheTileEncoding::Tiff,
        }
    }
}

} // verus!
