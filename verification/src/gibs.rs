//! The NASA GIBS (and compatible WMS) imagery provider: its presets, which requests it
//! serves, how its responses are checked and decoded, and the metadata of the tiles it
//! produces. The network round trip and the resampling onto the tile run in the application.

use vstd::prelude::*;
use std::time::Duration;
use image::{DynamicImage, ImageError, ImageFormat};
use crate::cache_manifest::{
    CURRENT_STREAMING_CACHE_FORMAT_VERSION, CacheTileEncoding, CacheTileEncodingView, CachedTileMetadata,
    CachedTileMetadataView, StreamedAttachmentKind, StreamedAttachmentKindView, StreamingSourceDescriptor,
    StreamingSourceDescriptorView, StreamingSourceKind, StreamingSourceKindView, opt_chars,
};
use crate::http_body::{response_looks_like_error_document, response_preview, spec_looks_like_error_document, spec_response_preview};
use crate::source_contract::{StreamingProviderError, StreamingProviderErrorView, StreamingTileRequest, StreamingTileRequestView};

verus! {

/// `image::ImageFormat`, carried through as an opaque value.
#[verifier::external_type_specification]
#[verifier::external_body]
pub struct ExImageFormat(ImageFormat);

/// `image::DynamicImage`, a decoded image carried through as an opaque value.
#[verifier::external_type_specification]
#[verifier::external_body]
pub struct ExDynamicImage(DynamicImage);

/// `image::ImageError`, carried through as an opaque value.
#[verifier::external_type_specification]
#[verifier::external_body]
pub struct ExImageError(ImageError);

/// `Duration` is `Copy`; its `clone` returns the same duration.
pub assume_specification[ <Duration as Clone>::clone ](d: &Duration) -> (r: Duration)
    ensures
        r == *d,
;

/// The duration of a whole number of seconds (`Duration::from_secs`).
pub uninterp spec fn seconds(secs: u64) -> Duration;

#[verifier::external_body]
pub(crate) fn duration_from_secs(secs: u64) -> (d: Duration)
    ensures
        d == seconds(secs),
{
    Duration::from_secs(secs)
}

/// The format `image::guess_format` recognises from a body's leading magic bytes, if any.
pub uninterp spec fn guessed_image_format(body: Seq<u8>) -> Option<ImageFormat>;

/// The format `ImageFormat::from_mime_type` maps a MIME type to, if any.
pub uninterp spec fn mime_image_format(mime: Seq<char>) -> Option<ImageFormat>;

/// What `image::load_from_memory_with_format` makes of a body in a format.
pub uninterp spec fn decoded_image(body: Seq<u8>, format: ImageFormat) -> Result<DynamicImage, ImageError>;

/// The `Debug` name of an image format.
pub uninterp spec fn image_format_name(format: ImageFormat) -> Seq<char>;

/// The `Display` text of an image error.
pub uninterp spec fn image_error_text(error: ImageError) -> Seq<char>;

/// Guesses an image format from a body's magic bytes (`image::guess_format`, its error
/// mapped to `None`). No magic number of the crate starts with `<`, so a body whose first
/// byte is `<` is never recognised.
#[verifier::external_body]
fn guess_image_format(body: &[u8]) -> (r: Option<ImageFormat>)
    ensures
        r == guessed_image_format(body@),
        body@.len() > 0 && body@[0] == 0x3c ==> r is None,
{
    image::guess_format(body).ok()
}

/// Maps a MIME type to an image format (`ImageFormat::from_mime_type`); `image/png` and
/// `image/jpeg` are among the types it knows.
#[verifier::external_body]
fn image_format_from_mime(mime: &str) -> (r: Option<ImageFormat>)
    ensures
        r == mime_image_format(mime@),
        mime@ == "image/png"@ ==> r is Some,
        mime@ == "image/jpeg"@ ==> r is Some,
{
    ImageFormat::from_mime_type(mime)
}

/// Decodes a body in a known format (`image::load_from_memory_with_format`).
#[verifier::external_body]
fn load_image_with_format(body: &[u8], format: ImageFormat) -> (r: Result<DynamicImage, ImageError>)
    ensures
        r == decoded_image(body@, format),
{
    image::load_from_memory_with_format(body, format)
}

/// The `Debug` name of an image format (`<ImageFormat as Debug>::fmt`).
#[verifier::external_body]
fn format_name(format: ImageFormat) -> (s: String)
    ensures
        s@ == image_format_name(format),
{
    format!("{:?}", format)
}

/// The `Display` text of an image error (`<ImageError as Display>::fmt`).
#[verifier::external_body]
fn error_text(error: &ImageError) -> (s: String)
    ensures
        s@ == image_error_text(*error),
{
    format!("{}", error)
}

/// Which call of the TIFF encoder failed, with the error's `Display` text.
#[derive(Debug, PartialEq, Eq)]
pub enum TiffEncodeFailure {
    /// `TiffEncoder::new` could not write the file header.
    Create(String),
    /// `TiffEncoder::write_image` rejected the image or could not write it.
    Write(String),
}

/// The content of a TIFF encoding failure.
pub enum TiffEncodeFailureView {
    Create(Seq<char>),
    Write(Seq<char>),
}

impl View for TiffEncodeFailure {
    type V = TiffEncodeFailureView;

    open spec fn view(&self) -> TiffEncodeFailureView {
        match self {
            TiffEncodeFailure::Create(t) => TiffEncodeFailureView::Create(t@),
            TiffEncodeFailure::Write(t) => TiffEncodeFailureView::Write(t@),
        }
    }
}

/// The content of a TIFF encoding outcome.
pub open spec fn tiff_encoding_view(r: Result<Vec<u8>, TiffEncodeFailure>) -> Result<Seq<u8>, TiffEncodeFailureView> {
    match r {
        Ok(bytes) => Ok(bytes@),
        Err(e) => Err(e@),
    }
}

/// What the `tiff` crate makes of RGB8 samples of a `width` x `height` image: the bytes of a
/// baseline TIFF file, or the failure of one of its calls.
pub uninterp spec fn rgb8_tiff_encoding(width: u32, height: u32, samples: Seq<u8>) -> Result<Seq<u8>, TiffEncodeFailureView>;

/// The encoder reads `3 * width * height` samples once it has checked that there are at least
/// `width * height`; a slice between the two would be read past its end.
pub open spec fn tiff_samples_readable(width: u32, height: u32, len: nat) -> bool {
    width == 0 || height == 0 || len < width * height || len >= 3 * (width * height)
}

/// Encodes RGB8 samples as a TIFF file in memory: `tiff::encoder::TiffEncoder::new` on a
/// cursor over an empty `Vec`, then `write_image::<colortype::RGB8>`, each error kept with its
/// `Display` text. Claimed: the outcome is a function of the arguments, and an empty image or
/// one with fewer than `width * height` samples is refused (`ImageEncoder::new` checks the
/// dimensions, `write_data` the slice length). Whether the encoder can be created on an
/// in-memory cursor, and which bytes it writes, is left to the name.
#[verifier::external_body]
fn write_rgb8_tiff(width: u32, height: u32, samples: &[u8]) -> (r: Result<Vec<u8>, TiffEncodeFailure>)
    requires
        tiff_samples_readable(width, height, samples@.len()),
    ensures
        tiff_encoding_view(r) == rgb8_tiff_encoding(width, height, samples@),
        width == 0 || height == 0 || samples@.len() < width * height ==> r is Err,
{
    let mut cursor = std::io::Cursor::new(Vec::new());
    let mut encoder = match tiff::encoder::TiffEncoder::new(&mut cursor) {
        Ok(encoder) => encoder,
        Err(error) => return Err(TiffEncodeFailure::Create(format!("{}", error))),
    };
    match encoder.write_image::<tiff::encoder::colortype::RGB8>(width, height, samples) {
        Ok(()) => Ok(cursor.into_inner()),
        Err(error) => Err(TiffEncodeFailure::Write(format!("{}", error))),
    }
}

/// The provider's answer to a TIFF encoding outcome: the file's bytes, or a permanent error
/// that names the failed step and carries the encoder's text.
pub open spec fn spec_tiff_tile_result(outcome: Result<Seq<u8>, TiffEncodeFailureView>) -> Result<Seq<u8>, StreamingProviderErrorView> {
    match outcome {
        Ok(bytes) => Ok(bytes),
        Err(TiffEncodeFailureView::Create(t)) => Err(StreamingProviderErrorView::Permanent("failed to create TIFF encoder: "@ + t)),
        Err(TiffEncodeFailureView::Write(t)) => Err(StreamingProviderErrorView::Permanent("failed to encode TIFF tile: "@ + t)),
    }
}

/// The content of an encoded tile or its error.
pub open spec fn tile_bytes_view(r: Result<Vec<u8>, StreamingProviderError>) -> Result<Seq<u8>, StreamingProviderErrorView> {
    match r {
        Ok(bytes) => Ok(bytes@),
        Err(e) => Err(e@),
    }
}

/// Turns a TIFF encoding outcome into the provider's answer.
pub fn tiff_tile_result(outcome: Result<Vec<u8>, TiffEncodeFailure>) -> (r: Result<Vec<u8>, StreamingProviderError>)
    ensures
        tile_bytes_view(r) == spec_tiff_tile_result(tiff_encoding_view(outcome)),
{
    match outcome {
        Ok(bytes) => Ok(bytes),
        Err(TiffEncodeFailure::Create(t)) => {
            let m = String::from_str("failed to create TIFF encoder: ");
            Err(StreamingProviderError::Permanent(m.concat(t.as_str())))
        },
        Err(TiffEncodeFailure::Write(t)) => {
            let m = String::from_str("failed to encode TIFF tile: ");
            Err(StreamingProviderError::Permanent(m.concat(t.as_str())))
        },
    }
}

/// Encodes RGB8 texels as a TIFF tile. An empty image, or fewer samples than pixels, is a
/// permanent error.
pub fn encode_rgb_tiff(width: u32, height: u32, rgb_bytes: &[u8]) -> (r: Result<Vec<u8>, StreamingProviderError>)
    requires
        tiff_samples_readable(width, height, rgb_bytes@.len()),
    ensures
        tile_bytes_view(r) == spec_tiff_tile_result(rgb8_tiff_encoding(width, height, rgb_bytes@)),
        width == 0 || height == 0 || rgb_bytes@.len() < width * height ==> r matches Err(StreamingProviderError::Permanent(_)),
{
    let outcome = write_rgb8_tiff(width, height, rgb_bytes);
    tiff_tile_result(outcome)
}

/// Where and what a WMS imagery source serves, with an optional source to fall back to.
#[derive(Debug, PartialEq, Eq)]
pub struct NasaGibsImageryConfig {
    pub source_id: String,
    pub source_kind: StreamingSourceKind,
    pub wms_endpoint: String,
    pub layer: String,
    pub image_format: String,
    pub time: Option<String>,
    pub connect_timeout: Duration,
    pub read_timeout: Duration,
    pub fallback: Option<Box<NasaGibsImageryConfig>>,
}

/// The content of a configuration, fallbacks included.
pub enum NasaGibsImageryConfigView {
    Config {
        source_id: Seq<char>,
        source_kind: StreamingSourceKindView,
        wms_endpoint: Seq<char>,
        layer: Seq<char>,
        image_format: Seq<char>,
        time: Option<Seq<char>>,
        connect_timeout: Duration,
        read_timeout: Duration,
        fallback: Option<Box<NasaGibsImageryConfigView>>,
    },
}

/// The content of a configuration.
pub open spec fn config_view(c: NasaGibsImageryConfig) -> NasaGibsImageryConfigView
    decreases c,
{
    NasaGibsImageryConfigView::Config {
        source_id: c.source_id@,
        source_kind: c.source_kind@,
        wms_endpoint: c.wms_endpoint@,
        layer: c.layer@,
        image_format: c.image_format@,
        time: opt_chars(c.time),
        connect_timeout: c.connect_timeout,
        read_timeout: c.read_timeout,
        fallback: match c.fallback {
            Some(f) => Some(Box::new(config_view(*f))),
            None => None,
        },
    }
}

impl View for NasaGibsImageryConfig {
    type V = NasaGibsImageryConfigView;

    open spec fn view(&self) -> NasaGibsImageryConfigView {
        config_view(*self)
    }
}

impl NasaGibsImageryConfig {
    /// A copy with the same content, fallbacks included.
    pub fn duplicate(&self) -> (r: NasaGibsImageryConfig)
        ensures
            r@ == self@,
        decreases self,
    {
        let fallback = match &self.fallback {
            Some(f) => Some(Box::new(f.duplicate())),
            None => None,
        };
        let time = match &self.time {
            Some(t) => Some(t.clone()),
            None => None,
        };
        NasaGibsImageryConfig {
            source_id: self.source_id.clone(),
            source_kind: self.source_kind.duplicate(),
            wms_endpoint: self.wms_endpoint.clone(),
            layer: self.layer.clone(),
            image_format: self.image_format.clone(),
            time,
            connect_timeout: self.connect_timeout,
            read_timeout: self.read_timeout,
            fallback,
        }
    }
}

/// `c` is the MODIS true-colour preset of NASA GIBS, without a fallback.
pub open spec fn is_gibs_modis_true_color(c: NasaGibsImageryConfig) -> bool {
    &&& c.source_id@ == "nasa_gibs/modis_true_color"@
    &&& c.source_kind@ == StreamingSourceKindView::NasaGibs
    &&& c.wms_endpoint@ == "https://gibs.earthdata.nasa.gov/wms/epsg4326/best/wms.cgi"@
    &&& c.layer@ == "MODIS_Terra_CorrectedReflectance_TrueColor"@
    &&& c.image_format@ == "image/png"@
    &&& c.time is None
    &&& c.connect_timeout == seconds(10)
    &&& c.read_timeout == seconds(30)
    &&& c.fallback is None
}

/// `c` is the EOX Sentinel-2 cloudless 2017 preset, falling back to MODIS true colour.
pub open spec fn is_eox_s2cloudless_2017(c: NasaGibsImageryConfig) -> bool {
    &&& c.source_id@ == "eox/s2cloudless_2017"@
    &&& c.source_kind@ == StreamingSourceKindView::Custom("eox_cloudless"@)
    &&& c.wms_endpoint@ == "https://tiles.maps.eox.at/wms"@
    &&& c.layer@ == "s2cloudless-2017"@
    &&& c.image_format@ == "image/jpeg"@
    &&& c.time is None
    &&& c.connect_timeout == seconds(10)
    &&& c.read_timeout == seconds(30)
    &&& c.fallback matches Some(f) && is_gibs_modis_true_color(*f)
}

impl NasaGibsImageryConfig {
    /// MODIS Terra corrected-reflectance true colour from NASA GIBS, as PNG.
    pub fn gibs_modis_true_color() -> (c: NasaGibsImageryConfig)
        ensures
            is_gibs_modis_true_color(c),
    {
        NasaGibsImageryConfig {
            source_id: String::from_str("nasa_gibs/modis_true_color"),
            source_kind: StreamingSourceKind::NasaGibs,
            wms_endpoint: String::from_str("https://gibs.earthdata.nasa.gov/wms/epsg4326/best/wms.cgi"),
            layer: String::from_str("MODIS_Terra_CorrectedReflectance_TrueColor"),
            image_format: String::from_str("image/png"),
            time: None,
            connect_timeout: duration_from_secs(10),
            read_timeout: duration_from_secs(30),
            fallback: None,
        }
    }

    /// Sentinel-2 cloudless 2017 from EOX, as JPEG, falling back to MODIS true colour.
    pub fn eox_s2cloudless_2017() -> (c: NasaGibsImageryConfig)
        ensures
            is_eox_s2cloudless_2017(c),
    {
        NasaGibsImageryConfig {
            source_id: String::from_str("eox/s2cloudless_2017"),
            source_kind: StreamingSourceKind::Custom(String::from_str("eox_cloudless")),
            wms_endpoint: String::from_str("https://tiles.maps.eox.at/wms"),
            layer: String::from_str("s2cloudless-2017"),
            image_format: String::from_str("image/jpeg"),
            time: None,
            connect_timeout: duration_from_secs(10),
            read_timeout: duration_from_secs(30),
            fallback: Some(Box::new(Self::gibs_modis_true_color())),
        }
    }
}

impl Default for NasaGibsImageryConfig {
    /// The MODIS true-colour preset.
    fn default() -> (c: NasaGibsImageryConfig)
        ensures
            is_gibs_modis_true_color(c),
    {
        Self::gibs_modis_true_color()
    }
}

/// The imagery provider for one configured source.
#[derive(Debug)]
pub struct NasaGibsImageryProvider {
    config: NasaGibsImageryConfig,
}

impl NasaGibsImageryProvider {
    /// The configuration the provider was made with.
    pub closed spec fn configured(&self) -> NasaGibsImageryConfig {
        self.config
    }

    pub fn new(config: NasaGibsImageryConfig) -> (p: NasaGibsImageryProvider)
        ensures
            p.configured() == config,
    {
        NasaGibsImageryProvider { config }
    }

    /// The configuration the provider was made with.
    pub fn config(&self) -> (c: &NasaGibsImageryConfig)
        ensures
            *c == self.configured(),
    {
        &self.config
    }

    /// A provider of the same configuration.
    pub fn duplicate(&self) -> (p: NasaGibsImageryProvider)
        ensures
            p.configured()@ == self.configured()@,
    {
        NasaGibsImageryProvider { config: self.config.duplicate() }
    }

    /// The identity of the provider's source.
    pub fn descriptor(&self) -> (d: StreamingSourceDescriptor)
        ensures
            d@ == spec_descriptor_from_config(self.configured()),
    {
        descriptor_from_config(&self.config)
    }
}

impl Default for NasaGibsImageryProvider {
    /// A provider of the MODIS true-colour preset.
    fn default() -> (p: NasaGibsImageryProvider)
        ensures
            is_gibs_modis_true_color(p.configured()),
    {
        NasaGibsImageryProvider { config: NasaGibsImageryConfig::gibs_modis_true_color() }
    }
}

/// The identity of a configured imagery source: its id and kind, serving imagery.
pub open spec fn spec_descriptor_from_config(config: NasaGibsImageryConfig) -> StreamingSourceDescriptorView {
    StreamingSourceDescriptorView {
        source_id: config.source_id@,
        source_kind: config.source_kind@,
        attachment_kind: StreamedAttachmentKindView::Imagery,
    }
}

/// The identity of a configured imagery source.
pub fn descriptor_from_config(config: &NasaGibsImageryConfig) -> (d: StreamingSourceDescriptor)
    ensures
        d@ == spec_descriptor_from_config(*config),
{
    StreamingSourceDescriptor {
        source_id: config.source_id.clone(),
        source_kind: config.source_kind.duplicate(),
        attachment_kind: StreamedAttachmentKind::Imagery,
    }
}

/// Why an imagery source cannot serve a request, if it cannot: it serves imagery only, and
/// only for spherical terrains.
pub open spec fn spec_imagery_request_error(r: StreamingTileRequestView) -> Option<StreamingProviderErrorView> {
    if crate::cache_manifest::spec_attachment_kind(r.attachment_label) != StreamedAttachmentKindView::Imagery {
        Some(StreamingProviderErrorView::Unsupported("NASA GIBS only serves imagery attachments"@))
    } else if !r.terrain_shape.spec_is_spherical() {
        Some(StreamingProviderErrorView::Unsupported("NASA GIBS provider currently requires a spherical terrain"@))
    } else {
        None
    }
}

/// Checks that an imagery source can serve a request.
pub fn validate_request(request: &StreamingTileRequest) -> (r: Result<(), StreamingProviderError>)
    ensures
        spec_imagery_request_error(request@) is None <==> r is Ok,
        r matches Err(e) ==> Some(e@) == spec_imagery_request_error(request@),
{
    if !request.attachment_kind().is_imagery() {
        return Err(StreamingProviderError::Unsupported(String::from_str("NASA GIBS only serves imagery attachments")));
    }
    if !request.terrain_shape.is_spherical() {
        return Err(
            StreamingProviderError::Unsupported(
                String::from_str("NASA GIBS provider currently requires a spherical terrain"),
            ),
        );
    }
    Ok(())
}

/// The first format that is known, in order of preference.
pub open spec fn spec_pick_source_format(
    guessed: Option<ImageFormat>,
    from_content_type: Option<ImageFormat>,
    from_planned: Option<ImageFormat>,
) -> Option<ImageFormat> {
    match guessed {
        Some(f) => Some(f),
        None => match from_content_type {
            Some(f) => Some(f),
            None => from_planned,
        },
    }
}

/// The format a response is decoded in: the one its magic bytes show, else the one its
/// content type names, else the one that was asked for.
pub open spec fn spec_source_format(body: Seq<u8>, content_type: Seq<char>, planned_image_format: Seq<char>) -> Option<ImageFormat> {
    spec_pick_source_format(
        guessed_image_format(body),
        mime_image_format(content_type),
        mime_image_format(planned_image_format),
    )
}

/// Picks the decoding format: the guessed one, else the content type's, else the planned one.
pub fn pick_source_format(
    guessed: Option<ImageFormat>,
    from_content_type: Option<ImageFormat>,
    from_planned: Option<ImageFormat>,
) -> (r: Option<ImageFormat>)
    ensures
        r == spec_pick_source_format(guessed, from_content_type, from_planned),
{
    match guessed {
        Some(f) => Some(f),
        None => match from_content_type {
            Some(f) => Some(f),
            None => from_planned,
        },
    }
}

/// The error for a response whose format cannot be determined.
pub open spec fn spec_unknown_format_error(content_type: Seq<char>) -> StreamingProviderErrorView {
    StreamingProviderErrorView::Permanent("unsupported imagery response content type '"@ + content_type + "'"@)
}

/// The error for a response whose format cannot be determined.
pub fn unknown_format_error(content_type: &str) -> (e: StreamingProviderError)
    ensures
        e@ == spec_unknown_format_error(content_type@),
{
    let m = String::from_str("unsupported imagery response content type '");
    let m = m.concat(content_type);
    let m = m.concat("'");
    StreamingProviderError::Permanent(m)
}

/// The error for a response that is an error page rather than an image.
pub open spec fn spec_non_image_response_error(body: Seq<u8>, content_type: Seq<char>) -> StreamingProviderErrorView {
    StreamingProviderErrorView::Permanent(
        "imagery source returned a non-image response (content_type='"@ + content_type + "', preview='"@
            + spec_response_preview(body) + "')"@,
    )
}

/// The error for a response that is an error page rather than an image.
pub fn non_image_response_error(body: &[u8], content_type: &str) -> (e: StreamingProviderError)
    ensures
        e@ == spec_non_image_response_error(body@, content_type@),
{
    let m = String::from_str("imagery source returned a non-image response (content_type='");
    let m = m.concat(content_type);
    let m = m.concat("', preview='");
    let preview = response_preview(body);
    let m = m.concat(preview.as_str());
    let m = m.concat("')");
    StreamingProviderError::Permanent(m)
}

/// The error for a response the decoder rejected.
pub open spec fn spec_imagery_decode_error(
    content_type: Seq<char>,
    format_name: Seq<char>,
    error_text: Seq<char>,
) -> StreamingProviderErrorView {
    StreamingProviderErrorView::Permanent(
        "imagery decode failed (content_type='"@ + content_type + "', format="@ + format_name + "): "@ + error_text,
    )
}

/// The error for a response the decoder rejected, given the format's name and the
/// decoder's error text.
pub fn imagery_decode_error(content_type: &str, format_name: &str, error_text: &str) -> (e: StreamingProviderError)
    ensures
        e@ == spec_imagery_decode_error(content_type@, format_name@, error_text@),
{
    let m = String::from_str("imagery decode failed (content_type='");
    let m = m.concat(content_type);
    let m = m.concat("', format=");
    let m = m.concat(format_name);
    let m = m.concat("): ");
    let m = m.concat(error_text);
    StreamingProviderError::Permanent(m)
}

/// The outcome of decoding an imagery response: an error when no format can be determined,
/// when the body is not recognisably an image and looks like an HTML or XML error page, or
/// when decoding fails; the decoded image otherwise.
pub open spec fn spec_decode_source_image(
    body: Seq<u8>,
    content_type: Seq<char>,
    planned_image_format: Seq<char>,
) -> Result<DynamicImage, StreamingProviderErrorView> {
    match spec_source_format(body, content_type, planned_image_format) {
        None => Err(spec_unknown_format_error(content_type)),
        Some(format) => if guessed_image_format(body) is None && spec_looks_like_error_document(body) {
            Err(spec_non_image_response_error(body, content_type))
        } else {
            match decoded_image(body, format) {
                Ok(image) => Ok(image),
                Err(e) => Err(spec_imagery_decode_error(content_type, image_format_name(format), image_error_text(e))),
            }
        },
    }
}

/// The content of a decoding outcome.
pub open spec fn decode_outcome_view(r: Result<DynamicImage, StreamingProviderError>) -> Result<DynamicImage, StreamingProviderErrorView> {
    match r {
        Ok(image) => Ok(image),
        Err(e) => Err(e@),
    }
}

/// Decodes an imagery response body.
pub fn decode_source_image(body: &[u8], content_type: &str, planned_image_format: &str) -> (r: Result<
    DynamicImage,
    StreamingProviderError,
>)
    ensures
        decode_outcome_view(r) == spec_decode_source_image(body@, content_type@, planned_image_format@),
{
    let guessed = guess_image_format(body);
    let from_content_type = image_format_from_mime(content_type);
    let from_planned = image_format_from_mime(planned_image_format);
    let format = match pick_source_format(guessed, from_content_type, from_planned) {
        Some(f) => f,
        None => return Err(unknown_format_error(content_type)),
    };
    if guessed.is_none() && response_looks_like_error_document(body) {
        return Err(non_image_response_error(body, content_type));
    }
    match load_image_with_format(body, format) {
        Ok(image) => Ok(image),
        Err(error) => {
            let name = format_name(format);
            let text = error_text(&error);
            Err(imagery_decode_error(content_type, name.as_str(), text.as_str()))
        },
    }
}

/// An HTML or XML body that no magic number recognises is reported as a non-image response
/// and never handed to a decoder, whatever its content type claims.
pub proof fn lemma_markup_body_is_not_decoded(body: Seq<u8>, content_type: Seq<char>, planned_image_format: Seq<char>)
    requires
        guessed_image_format(body) is None,
        spec_looks_like_error_document(body),
        spec_source_format(body, content_type, planned_image_format) is Some,
    ensures
        spec_decode_source_image(body, content_type, planned_image_format) == Err::<DynamicImage, StreamingProviderErrorView>(
            spec_non_image_response_error(body, content_type),
        ),
{
}

/// The largest byte minus the smallest.
pub open spec fn byte_range(b: Seq<u8>) -> int {
    byte_max(b) - byte_min(b)
}

/// The largest byte (0 for no bytes).
pub open spec fn byte_max(b: Seq<u8>) -> int
    decreases b.len(),
{
    if b.len() == 0 {
        0
    } else if b.last() as int > byte_max(b.drop_last()) {
        b.last() as int
    } else {
        byte_max(b.drop_last())
    }
}

/// The smallest byte (255 for no bytes).
pub open spec fn byte_min(b: Seq<u8>) -> int
    decreases b.len(),
{
    if b.len() == 0 {
        255
    } else if (b.last() as int) < byte_min(b.drop_last()) {
        b.last() as int
    } else {
        byte_min(b.drop_last())
    }
}

/// The sum of the bytes.
pub open spec fn byte_sum(b: Seq<u8>) -> int
    decreases b.len(),
{
    if b.len() == 0 {
        0
    } else {
        byte_sum(b.drop_last()) + b.last()
    }
}

/// A tile looks like blank fill when it is empty, or when its values span at most 6 and
/// their mean lies outside `20..=235` (a near-uniform black or white tile).
pub open spec fn spec_looks_like_blank_fill(b: Seq<u8>) -> bool {
    b.len() == 0 || (byte_range(b) <= 6 && !(20 * b.len() <= byte_sum(b) && byte_sum(b) <= 235 * b.len()))
}

/// Whether resampled RGB bytes look like a blank fill rather than imagery.
pub fn imagery_looks_like_blank_fill(rgb_bytes: &[u8]) -> (r: bool)
    ensures
        r == spec_looks_like_blank_fill(rgb_bytes@),
{
    if rgb_bytes.len() == 0 {
        return true;
    }
    let mut min_value: u8 = 255;
    let mut max_value: u8 = 0;
    let mut sum: u128 = 0;
    let mut i: usize = 0;
    while i < rgb_bytes.len()
        invariant
            i <= rgb_bytes@.len(),
            rgb_bytes@.len() == rgb_bytes.len(),
            min_value == byte_min(rgb_bytes@.subrange(0, i as int)),
            max_value == byte_max(rgb_bytes@.subrange(0, i as int)),
            sum == byte_sum(rgb_bytes@.subrange(0, i as int)),
            sum <= 255 * i,
        decreases rgb_bytes.len() - i,
    {
        let v = rgb_bytes[i];
        let ghost prefix = rgb_bytes@.subrange(0, i + 1);
        assert(prefix.drop_last() =~= rgb_bytes@.subrange(0, i as int));
        if v < min_value {
            min_value = v;
        }
        if v > max_value {
            max_value = v;
        }
        sum = sum + v as u128;
        i = i + 1;
    }
    assert(rgb_bytes@.subrange(0, rgb_bytes@.len() as int) =~= rgb_bytes@);
    let n = rgb_bytes.len() as u128;
    let in_mid_range = 20 * n <= sum && sum <= 235 * n;
    let spread: u8 = if max_value >= min_value { max_value - min_value } else { 0 };
    proof {
        lemma_min_le_max(rgb_bytes@);
    }
    spread <= 6 && !in_mid_range
}

/// A non-empty byte sequence has its smallest byte below or at its largest.
pub proof fn lemma_min_le_max(b: Seq<u8>)
    requires
        b.len() > 0,
    ensures
        byte_min(b) <= byte_max(b),
        0 <= byte_min(b),
        byte_max(b) <= 255,
    decreases b.len(),
{
    let rest = b.drop_last();
    if b.len() > 1 {
        lemma_min_le_max(rest);
    } else {
        assert(rest.len() == 0);
        assert(byte_max(rest) == 0);
        assert(byte_min(rest) == 255);
    }
    assert(byte_max(b) == if b.last() as int > byte_max(rest) { b.last() as int } else { byte_max(rest) });
    assert(byte_min(b) == if (b.last() as int) < byte_min(rest) { b.last() as int } else { byte_min(rest) });
}

/// A uniform tile of value `v` is blank fill exactly when `v` is below 20 or above 235.
pub proof fn lemma_uniform_tile_is_blank_iff_extreme(b: Seq<u8>, v: u8)
    requires
        b.len() > 0,
        forall|i: int| 0 <= i < b.len() ==> b[i] == v,
    ensures
        spec_looks_like_blank_fill(b) <==> (v < 20 || v > 235),
    decreases b.len(),
{
    lemma_uniform_stats(b, v);
    assert(byte_sum(b) == v * b.len());
    if v < 20 {
        assert(byte_sum(b) < 20 * b.len()) by (nonlinear_arith)
            requires
                byte_sum(b) == v * b.len(),
                v < 20,
                b.len() > 0,
        ;
    } else if v > 235 {
        assert(byte_sum(b) > 235 * b.len()) by (nonlinear_arith)
            requires
                byte_sum(b) == v * b.len(),
                v > 235,
                b.len() > 0,
        ;
    } else {
        assert(20 * b.len() <= byte_sum(b) <= 235 * b.len()) by (nonlinear_arith)
            requires
                byte_sum(b) == v * b.len(),
                20 <= v <= 235,
        ;
    }
}

proof fn lemma_uniform_stats(b: Seq<u8>, v: u8)
    requires
        b.len() > 0,
        forall|i: int| 0 <= i < b.len() ==> b[i] == v,
    ensures
        byte_min(b) == v,
        byte_max(b) == v,
        byte_sum(b) == v * b.len(),
    decreases b.len(),
{
    let rest = b.drop_last();
    assert(b.last() == v);
    if b.len() > 1 {
        assert forall|i: int| 0 <= i < rest.len() implies rest[i] == v by {
            assert(rest[i] == b[i]);
        }
        lemma_uniform_stats(rest, v);
        assert(byte_sum(b) == byte_sum(rest) + v);
        assert(v * (b.len() - 1) + v == v * b.len()) by (nonlinear_arith);
    } else {
        assert(rest.len() == 0);
        assert(byte_max(rest) == 0);
        assert(byte_min(rest) == 255);
        assert(byte_sum(rest) == 0);
    }
    assert(byte_max(b) == if b.last() as int > byte_max(rest) { b.last() as int } else { byte_max(rest) });
    assert(byte_min(b) == if (b.last() as int) < byte_min(rest) { b.last() as int } else { byte_min(rest) });
}

/// The result of trying one imagery source for a tile.
pub enum ImageryAttempt {
    /// The response decoded; whether the resampled tile looks like blank fill.
    Decoded { blank: bool },
    /// The response could not be decoded.
    DecodeFailed(StreamingProviderError),
}

/// What to do after an attempt.
#[derive(Debug)]
pub enum ImageryDecision {
    /// Encode and cache the resampled tile.
    Encode,
    /// Try the configured fallback source instead.
    RetryWithFallback,
    /// Give up with this error.
    Fail(StreamingProviderError),
}

/// After a failed decode the fallback source is tried when there is one, else the failure
/// stands; a blank-looking tile is retried with the fallback when there is one, else kept.
pub fn decide_imagery_attempt(config: &NasaGibsImageryConfig, attempt: ImageryAttempt) -> (d: ImageryDecision)
    ensures
        match attempt {
            ImageryAttempt::DecodeFailed(e) => if config.fallback is Some {
                d is RetryWithFallback
            } else {
                d matches ImageryDecision::Fail(f) && f@ == e@
            },
            ImageryAttempt::Decoded { blank } => if blank && config.fallback is Some {
                d is RetryWithFallback
            } else {
                d is Encode
            },
        },
{
    match attempt {
        ImageryAttempt::DecodeFailed(e) => {
            if config.fallback.is_some() {
                ImageryDecision::RetryWithFallback
            } else {
                ImageryDecision::Fail(e)
            }
        },
        ImageryAttempt::Decoded { blank } => {
            if blank && config.fallback.is_some() {
                ImageryDecision::RetryWithFallback
            } else {
                ImageryDecision::Encode
            }
        },
    }
}

/// The sidecar metadata of an imagery tile fetched from a configured source: the source's
/// identity, its `time` as revision, in EPSG:4326, TIFF-encoded.
pub open spec fn spec_imagery_tile_metadata(
    config: NasaGibsImageryConfig,
    r: StreamingTileRequestView,
    fetched_at_unix_ms: u64,
) -> CachedTileMetadataView {
    CachedTileMetadataView {
        format_version: CURRENT_STREAMING_CACHE_FORMAT_VERSION,
        terrain_path: r.terrain_path,
        attachment_label: r.attachment_label,
        coordinate: r.coordinate,
        source: spec_descriptor_from_config(config),
        fetched_at_unix_ms,
        expires_at_unix_ms: None,
        source_zoom: None,
        source_revision: opt_chars(config.time),
        source_content_hash: None,
        source_crs: Some("EPSG:4326"@),
        encoding: CacheTileEncodingView::Tiff,
    }
}

/// The sidecar metadata of an imagery tile fetched from a configured source.
pub fn imagery_tile_metadata(
    config: &NasaGibsImageryConfig,
    request: &StreamingTileRequest,
    fetched_at_unix_ms: u64,
) -> (m: CachedTileMetadata)
    ensures
        m@ == spec_imagery_tile_metadata(*config, request@, fetched_at_unix_ms),
{
    let time = match &config.time {
        Some(t) => Some(t.clone()),
        None => None,
    };
    CachedTileMetadata {
        format_version: CURRENT_STREAMING_CACHE_FORMAT_VERSION,
        terrain_path: request.terrain_path.clone(),
        attachment_label: request.attachment_label.duplicate(),
        coordinate: request.coordinate,
        source: descriptor_from_config(config),
        fetched_at_unix_ms,
        expires_at_unix_ms: None,
        source_zoom: None,
        source_revision: time,
        source_content_hash: None,
        source_crs: Some(String::from_str("EPSG:4326")),
        encoding: CacheTileEncoding::Tiff,
    }
}

} // verus!
