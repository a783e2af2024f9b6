//! The streamed-tile cache contract: which source produced a cached tile, how fresh it must
//! be, and the per-terrain manifest that registers every source that has written tiles.

use vstd::prelude::*;
use crate::coordinate::{AttachmentLabel, AttachmentLabelView, TileCoordinate, albedo_chars};
use crate::paths::{join, join_path, replace_extension, with_extension};
use crate::text::decimal;

verus! {

pub const CURRENT_STREAMING_CACHE_FORMAT_VERSION: u32 = 1;

pub open spec fn manifest_file_name() -> Seq<char> {
    seq![
        's', 't', 'r', 'e', 'a', 'm', 'i', 'n', 'g', '_', 'c', 'a', 'c', 'h', 'e', '_', 'm', 'a',
        'n', 'i', 'f', 'e', 's', 't', '.', 'r', 'o', 'n',
    ]
}

pub open spec fn metadata_extension() -> Seq<char> {
    seq!['t', 'i', 'l', 'e', '-', 'c', 'a', 'c', 'h', 'e', '.', 'r', 'o', 'n']
}

/// The kind of service a streamed source is.
#[derive(Clone, Debug, PartialEq, Eq)]
pub enum StreamingSourceKind {
    NasaGibs,
    Sentinel2Cog,
    OpenTopography,
    LocalStarter,
    LocalCache,
    Custom(String),
}

pub enum StreamingSourceKindView {
    NasaGibs,
    Sentinel2Cog,
    OpenTopography,
    LocalStarter,
    LocalCache,
    Custom(Seq<char>),
}

impl View for StreamingSourceKind {
    type V = StreamingSourceKindView;

    open spec fn view(&self) -> StreamingSourceKindView {
        match self {
            StreamingSourceKind::NasaGibs => StreamingSourceKindView::NasaGibs,
            StreamingSourceKind::Sentinel2Cog => StreamingSourceKindView::Sentinel2Cog,
            StreamingSourceKind::OpenTopography => StreamingSourceKindView::OpenTopography,
            StreamingSourceKind::LocalStarter => StreamingSourceKindView::LocalStarter,
            StreamingSourceKind::LocalCache => StreamingSourceKindView::LocalCache,
            StreamingSourceKind::Custom(name) => StreamingSourceKindView::Custom(name@),
        }
    }
}

impl StreamingSourceKind {
    /// Structural equality.
    pub fn same_as(&self, other: &StreamingSourceKind) -> (r: bool)
        ensures
            r == (self@ == other@),
    {
        match (self, other) {
            (StreamingSourceKind::NasaGibs, StreamingSourceKind::NasaGibs) => true,
            (StreamingSourceKind::Sentinel2Cog, StreamingSourceKind::Sentinel2Cog) => true,
            (StreamingSourceKind::OpenTopography, StreamingSourceKind::OpenTopography) => true,
            (StreamingSourceKind::LocalStarter, StreamingSourceKind::LocalStarter) => true,
            (StreamingSourceKind::LocalCache, StreamingSourceKind::LocalCache) => true,
            (StreamingSourceKind::Custom(a), StreamingSourceKind::Custom(b)) => *a == *b,
            _ => false,
        }
    }

    /// A copy with the same content.
    pub fn duplicate(&self) -> (r: StreamingSourceKind)
        ensures
            r@ == self@,
    {
        match self {
            StreamingSourceKind::NasaGibs => StreamingSourceKind::NasaGibs,
            StreamingSourceKind::Sentinel2Cog => StreamingSourceKind::Sentinel2Cog,
            StreamingSourceKind::OpenTopography => StreamingSourceKind::OpenTopography,
            StreamingSourceKind::LocalStarter => StreamingSourceKind::LocalStarter,
            StreamingSourceKind::LocalCache => StreamingSourceKind::LocalCache,
            StreamingSourceKind::Custom(name) => StreamingSourceKind::Custom(name.clone()),
        }
    }
}

/// What a streamed source delivers.
#[derive(Clone, Debug, PartialEq, Eq)]
pub enum StreamedAttachmentKind {
    Height,
    Imagery,
    Custom(String),
}

pub enum StreamedAttachmentKindView {
    Height,
    Imagery,
    Custom(Seq<char>),
}

impl View for StreamedAttachmentKind {
    type V = StreamedAttachmentKindView;

    open spec fn view(&self) -> StreamedAttachmentKindView {
        match self {
            StreamedAttachmentKind::Height => StreamedAttachmentKindView::Height,
            StreamedAttachmentKind::Imagery => StreamedAttachmentKindView::Imagery,
            StreamedAttachmentKind::Custom(name) => StreamedAttachmentKindView::Custom(name@),
        }
    }
}

/// The kind of content an attachment label streams: `Height` for height, `Imagery` for
/// `albedo`, otherwise a custom kind named after the label (`empty_<index>` for empty slots).
pub open spec fn spec_attachment_kind(label: AttachmentLabelView) -> StreamedAttachmentKindView {
    match label {
        AttachmentLabelView::Height => StreamedAttachmentKindView::Height,
        AttachmentLabelView::Custom(name) => if name == albedo_chars() {
            StreamedAttachmentKindView::Imagery
        } else {
            StreamedAttachmentKindView::Custom(name)
        },
        AttachmentLabelView::Empty(i) => StreamedAttachmentKindView::Custom(
            seq!['e', 'm', 'p', 't', 'y', '_'] + decimal(i as nat),
        ),
    }
}

impl StreamedAttachmentKind {
    /// The kind of content an attachment label streams.
    pub fn from_label(label: &AttachmentLabel) -> (kind: StreamedAttachmentKind)
        ensures
            kind@ == spec_attachment_kind(label@),
    {
        match label {
            AttachmentLabel::Height => StreamedAttachmentKind::Height,
            AttachmentLabel::Custom(name) => {
                if crate::coordinate::str_is_albedo(name) {
                    StreamedAttachmentKind::Imagery
                } else {
                    StreamedAttachmentKind::Custom(name.clone())
                }
            },
            AttachmentLabel::Empty(_) => StreamedAttachmentKind::Custom(label.name()),
        }
    }

    /// Structural equality.
    pub fn same_as(&self, other: &StreamedAttachmentKind) -> (r: bool)
        ensures
            r == (self@ == other@),
    {
        match (self, other) {
            (StreamedAttachmentKind::Height, StreamedAttachmentKind::Height) => true,
            (StreamedAttachmentKind::Imagery, StreamedAttachmentKind::Imagery) => true,
            (StreamedAttachmentKind::Custom(a), StreamedAttachmentKind::Custom(b)) => *a == *b,
            _ => false,
        }
    }

    /// A copy with the same content.
    pub fn duplicate(&self) -> (r: StreamedAttachmentKind)
        ensures
            r@ == self@,
    {
        match self {
            StreamedAttachmentKind::Height => StreamedAttachmentKind::Height,
            StreamedAttachmentKind::Imagery => StreamedAttachmentKind::Imagery,
            StreamedAttachmentKind::Custom(name) => StreamedAttachmentKind::Custom(name.clone()),
        }
    }

    pub fn is_height(&self) -> (r: bool)
        ensures
            r == (self@ is Height),
    {
        match self {
            StreamedAttachmentKind::Height => true,
            _ => false,
        }
    }

    pub fn is_imagery(&self) -> (r: bool)
        ensures
            r == (self@ is Imagery),
    {
        match self {
            StreamedAttachmentKind::Imagery => true,
            _ => false,
        }
    }
}

/// The identity of a streamed source.
#[derive(Clone, Debug, PartialEq, Eq)]
pub struct StreamingSourceDescriptor {
    pub source_id: String,
    pub source_kind: StreamingSourceKind,
    pub attachment_kind: StreamedAttachmentKind,
}

pub struct StreamingSourceDescriptorView {
    pub source_id: Seq<char>,
    pub source_kind: StreamingSourceKindView,
    pub attachment_kind: StreamedAttachmentKindView,
}

impl View for StreamingSourceDescriptor {
    type V = StreamingSourceDescriptorView;

    open spec fn view(&self) -> StreamingSourceDescriptorView {
        StreamingSourceDescriptorView {
            source_id: self.source_id@,
            source_kind: self.source_kind@,
            attachment_kind: self.attachment_kind@,
        }
    }
}

impl StreamingSourceDescriptor {
    /// Structural equality.
    pub fn same_as(&self, other: &StreamingSourceDescriptor) -> (r: bool)
        ensures
            r == (self@ == other@),
    {
        self.source_id == other.source_id && self.source_kind.same_as(&other.source_kind)
            && self.attachment_kind.same_as(&other.attachment_kind)
    }

    /// A copy with the same content.
    pub fn duplicate(&self) -> (r: StreamingSourceDescriptor)
        ensures
            r@ == self@,
    {
        StreamingSourceDescriptor {
            source_id: self.source_id.clone(),
            source_kind: self.source_kind.duplicate(),
            attachment_kind: self.attachment_kind.duplicate(),
        }
    }
}

/// How long cached tiles of a source stay usable.
#[derive(Clone, Copy, Debug, PartialEq, Eq, Structural)]
pub struct CacheFreshnessPolicy {
    pub max_age_seconds: Option<u64>,
    pub revalidate_on_startup: bool,
}

impl Default for CacheFreshnessPolicy {
    fn default() -> (p: CacheFreshnessPolicy)
        ensures
            p.max_age_seconds is None,
            !p.revalidate_on_startup,
    {
        CacheFreshnessPolicy { max_age_seconds: None, revalidate_on_startup: false }
    }
}

/// A source registered in a cache manifest, with its freshness policy.
#[derive(Clone, Debug, PartialEq, Eq)]
pub struct RegisteredStreamingSource {
    pub descriptor: StreamingSourceDescriptor,
    pub freshness_policy: CacheFreshnessPolicy,
}

pub struct RegisteredStreamingSourceView {
    pub descriptor: StreamingSourceDescriptorView,
    pub freshness_policy: CacheFreshnessPolicy,
}

impl View for RegisteredStreamingSource {
    type V = RegisteredStreamingSourceView;

    open spec fn view(&self) -> RegisteredStreamingSourceView {
        RegisteredStreamingSourceView {
            descriptor: self.descriptor@,
            freshness_policy: self.freshness_policy,
        }
    }
}

/// The per-terrain registry of streamed sources.
#[derive(Clone, Debug, PartialEq, Eq)]
pub struct StreamingCacheManifest {
    pub format_version: u32,
    pub terrain_path: String,
    pub sources: Vec<RegisteredStreamingSource>,
}

pub struct StreamingCacheManifestView {
    pub format_version: u32,
    pub terrain_path: Seq<char>,
    pub sources: Seq<RegisteredStreamingSourceView>,
}

impl View for StreamingCacheManifest {
    type V = StreamingCacheManifestView;

    open spec fn view(&self) -> StreamingCacheManifestView {
        StreamingCacheManifestView {
            format_version: self.format_version,
            terrain_path: self.terrain_path@,
            sources: self.sources@.map_values(|s: RegisteredStreamingSource| s@),
        }
    }
}

impl Default for StreamingCacheManifest {
    /// An empty manifest of the current format version.
    fn default() -> (m: StreamingCacheManifest)
        ensures
            m.format_version == CURRENT_STREAMING_CACHE_FORMAT_VERSION,
            m.terrain_path@ == Seq::<char>::empty(),
            m.sources@.len() == 0,
    {
        StreamingCacheManifest {
            format_version: CURRENT_STREAMING_CACHE_FORMAT_VERSION,
            terrain_path: String::new(),
            sources: Vec::new(),
        }
    }
}

/// The manifest location inside a terrain's cache directory.
pub open spec fn spec_manifest_path(cache_terrain_root: Seq<char>) -> Seq<char> {
    join(cache_terrain_root, manifest_file_name())
}

/// The sidecar metadata location of a cached tile.
pub open spec fn spec_metadata_path(tile_path: Seq<char>) -> Seq<char> {
    with_extension(tile_path, metadata_extension())
}

impl StreamingCacheManifest {
    /// Where the manifest of a terrain's cache directory lives.
    pub fn path_for(cache_terrain_root: &str) -> (p: String)
        ensures
            p@ == spec_manifest_path(cache_terrain_root@),
    {
        let name = "streaming_cache_manifest.ron";
        proof {
            reveal_strlit("streaming_cache_manifest.ron");
        }
        assert(name@ =~= manifest_file_name());
        join_path(cache_terrain_root, name)
    }
}

/// How a cached tile is encoded on disk.
#[derive(Clone, Debug, PartialEq, Eq)]
pub enum CacheTileEncoding {
    Tiff,
    Custom(String),
}

/// The sidecar metadata written next to every cached tile.
#[derive(Clone, Debug, PartialEq, Eq)]
pub struct CachedTileMetadata {
    pub format_version: u32,
    pub terrain_path: String,
    pub attachment_label: AttachmentLabel,
    pub coordinate: TileCoordinate,
    pub source: StreamingSourceDescriptor,
    pub fetched_at_unix_ms: u64,
    pub expires_at_unix_ms: Option<u64>,
    pub source_zoom: Option<u32>,
    pub source_revision: Option<String>,
    pub source_content_hash: Option<String>,
    pub source_crs: Option<String>,
    pub encoding: CacheTileEncoding,
}

pub enum CacheTileEncodingView {
    Tiff,
    Custom(Seq<char>),
}

impl View for CacheTileEncoding {
    type V = CacheTileEncodingView;

    open spec fn view(&self) -> CacheTileEncodingView {
        match self {
            CacheTileEncoding::Tiff => CacheTileEncodingView::Tiff,
            CacheTileEncoding::Custom(name) => CacheTileEncodingView::Custom(name@),
        }
    }
}

/// The characters of an optional string.
pub open spec fn opt_chars(s: Option<String>) -> Option<Seq<char>> {
    match s {
        Some(s) => Some(s@),
        None => None,
    }
}

pub struct CachedTileMetadataView {
    pub format_version: u32,
    pub terrain_path: Seq<char>,
    pub attachment_label: AttachmentLabelView,
    pub coordinate: TileCoordinate,
    pub source: StreamingSourceDescriptorView,
    pub fetched_at_unix_ms: u64,
    pub expires_at_unix_ms: Option<u64>,
    pub source_zoom: Option<u32>,
    pub source_revision: Option<Seq<char>>,
    pub source_content_hash: Option<Seq<char>>,
    pub source_crs: Option<Seq<char>>,
    pub encoding: CacheTileEncodingView,
}

impl View for CachedTileMetadata {
    type V = CachedTileMetadataView;

    open spec fn view(&self) -> CachedTileMetadataView {
        CachedTileMetadataView {
            format_version: self.format_version,
            terrain_path: self.terrain_path@,
            attachment_label: self.attachment_label@,
            coordinate: self.coordinate,
            source: self.source@,
            fetched_at_unix_ms: self.fetched_at_unix_ms,
            expires_at_unix_ms: self.expires_at_unix_ms,
            source_zoom: self.source_zoom,
            source_revision: opt_chars(self.source_revision),
            source_content_hash: opt_chars(self.source_content_hash),
            source_crs: opt_chars(self.source_crs),
            encoding: self.encoding@,
        }
    }
}

/// `a * b`, saturated at `u64::MAX`.
pub open spec fn saturating_mul(a: nat, b: nat) -> nat {
    if a * b > u64::MAX {
        u64::MAX as nat
    } else {
        a * b
    }
}

/// `a - b`, saturated at 0.
pub open spec fn saturating_sub(a: int, b: int) -> nat {
    if a > b {
        (a - b) as nat
    } else {
        0
    }
}

/// A cached tile can be used for `source` under `policy` at time `now_unix_ms`: it has the
/// current format, came from exactly that source, is no older than the policy allows (ages
/// and limits saturate), and has not passed its expiry time.
pub open spec fn spec_is_usable(
    format_version: u32,
    cached_source: StreamingSourceDescriptorView,
    fetched_at_unix_ms: u64,
    expires_at_unix_ms: Option<u64>,
    source: StreamingSourceDescriptorView,
    policy: CacheFreshnessPolicy,
    now_unix_ms: u64,
) -> bool {
    &&& format_version == CURRENT_STREAMING_CACHE_FORMAT_VERSION
    &&& cached_source == source
    &&& (policy.max_age_seconds matches Some(max_age) ==> saturating_sub(
        now_unix_ms as int,
        fetched_at_unix_ms as int,
    ) <= saturating_mul(max_age as nat, 1000))
    &&& (expires_at_unix_ms matches Some(expires) ==> now_unix_ms <= expires)
}

fn saturating_mul_1000(a: u64) -> (r: u64)
    ensures
        r == saturating_mul(a as nat, 1000),
{
    if a > u64::MAX / 1000 {
        u64::MAX
    } else {
        a * 1000
    }
}

impl CachedTileMetadata {
    /// Where the sidecar metadata of a cached tile lives: the tile path with its extension
    /// replaced by `tile-cache.ron`.
    pub fn path_for_tile(tile_path: &str) -> (p: String)
        ensures
            p@ == spec_metadata_path(tile_path@),
    {
        let ext = "tile-cache.ron";
        proof {
            reveal_strlit("tile-cache.ron");
        }
        assert(ext@ =~= metadata_extension());
        replace_extension(tile_path, ext)
    }

    /// Whether this cached tile can stand in for a fresh fetch from `source`.
    pub fn is_usable_with(
        &self,
        source: &StreamingSourceDescriptor,
        freshness_policy: &CacheFreshnessPolicy,
        now_unix_ms: u64,
    ) -> (usable: bool)
        ensures
            usable == spec_is_usable(
                self.format_version,
                self.source@,
                self.fetched_at_unix_ms,
                self.expires_at_unix_ms,
                source@,
                *freshness_policy,
                now_unix_ms,
            ),
    {
        if self.format_version != CURRENT_STREAMING_CACHE_FORMAT_VERSION {
            return false;
        }
        if !self.source.same_as(source) {
            return false;
        }
        if let Some(max_age_seconds) = freshness_policy.max_age_seconds {
            let max_age_ms = saturating_mul_1000(max_age_seconds);
            let age = now_unix_ms.saturating_sub(self.fetched_at_unix_ms);
            if age > max_age_ms {
                return false;
            }
        }
        if let Some(expires_at_unix_ms) = self.expires_at_unix_ms {
            if now_unix_ms > expires_at_unix_ms {
                return false;
            }
        }
        true
    }
}

/// An expired tile is never used: once the time is past a tile's expiry, it cannot stand in
/// for a fresh fetch, whatever the freshness policy, its age or its source.
pub proof fn lemma_expired_tile_is_never_usable(
    format_version: u32,
    cached_source: StreamingSourceDescriptorView,
    fetched_at_unix_ms: u64,
    expires_at_unix_ms: u64,
    source: StreamingSourceDescriptorView,
    policy: CacheFreshnessPolicy,
    now_unix_ms: u64,
)
    requires
        now_unix_ms > expires_at_unix_ms,
    ensures
        !spec_is_usable(
            format_version,
            cached_source,
            fetched_at_unix_ms,
            Some(expires_at_unix_ms),
            source,
            policy,
            now_unix_ms,
        ),
{
}

/// A cached tile never becomes usable again once it has expired: if it is unusable at some
/// time because of its age or expiry, it stays unusable later.
pub proof fn lemma_usability_is_monotone_in_time(
    format_version: u32,
    cached_source: StreamingSourceDescriptorView,
    fetched_at_unix_ms: u64,
    expires_at_unix_ms: Option<u64>,
    source: StreamingSourceDescriptorView,
    policy: CacheFreshnessPolicy,
    earlier: u64,
    later: u64,
)
    requires
        earlier <= later,
        spec_is_usable(
            format_version,
            cached_source,
            fetched_at_unix_ms,
            expires_at_unix_ms,
            source,
            policy,
            later,
        ),
    ensures
        spec_is_usable(
            format_version,
            cached_source,
            fetched_at_unix_ms,
            expires_at_unix_ms,
            source,
            policy,
            earlier,
        ),
{
}

/// The UTF-8 byte order mark.
pub open spec fn bom() -> char {
    '\u{feff}'
}

/// `s` without one leading byte order mark.
pub open spec fn spec_strip_bom(s: Seq<char>) -> Seq<char> {
    if s.len() > 0 && s[0] == bom() {
        s.drop_first()
    } else {
        s
    }
}

/// Drops one leading UTF-8 byte order mark, so that documents written by editors that add
/// one still parse.
pub fn strip_utf8_bom(encoded: &str) -> (r: &str)
    ensures
        r@ == spec_strip_bom(encoded@),
{
    let n = encoded.unicode_len();
    if n > 0 && encoded.get_char(0) == '\u{feff}' {
        let r = encoded.substring_char(1, n);
        assert(r@ =~= encoded@.drop_first());
        r
    } else {
        encoded
    }
}

} // verus!
