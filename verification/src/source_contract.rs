//! The contract between the scheduler and remote tile providers: what a streamed tile
//! request names, how a provider answers, and how it fails.

use vstd::prelude::*;
use crate::cache_manifest::{
    CachedTileMetadata, StreamedAttachmentKind, StreamedAttachmentKindView, StreamingSourceDescriptor,
    spec_attachment_kind,
};
use crate::coordinate::{AttachmentConfig, AttachmentLabel, AttachmentLabelView, TerrainShape, TileCoordinate};

verus! {

/// How urgently the view needs a tile.
#[derive(Clone, Copy, Debug, PartialEq, Eq, Hash, Structural)]
pub enum StreamingRequestPriority {
    Background,
    Focused,
}

/// The rank of a priority: focused requests rank above background ones.
pub open spec fn spec_priority_rank(p: StreamingRequestPriority) -> u8 {
    match p {
        StreamingRequestPriority::Background => 0,
        StreamingRequestPriority::Focused => 1,
    }
}

impl StreamingRequestPriority {
    pub fn rank(&self) -> (r: u8)
        ensures
            r == spec_priority_rank(*self),
    {
        match self {
            StreamingRequestPriority::Background => 0,
            StreamingRequestPriority::Focused => 1,
        }
    }
}

/// One tile of one attachment that the renderer wants streamed.
#[derive(Clone, Debug)]
pub struct StreamingTileRequest {
    pub terrain_path: String,
    pub attachment_label: AttachmentLabel,
    pub attachment_config: AttachmentConfig,
    pub coordinate: TileCoordinate,
    pub terrain_shape: TerrainShape,
    pub terrain_lod_count: u32,
    pub priority: StreamingRequestPriority,
}

pub struct StreamingTileRequestView {
    pub terrain_path: Seq<char>,
    pub attachment_label: AttachmentLabelView,
    pub attachment_config: AttachmentConfig,
    pub coordinate: TileCoordinate,
    pub terrain_shape: TerrainShape,
    pub terrain_lod_count: u32,
    pub priority: StreamingRequestPriority,
}

impl View for StreamingTileRequest {
    type V = StreamingTileRequestView;

    open spec fn view(&self) -> StreamingTileRequestView {
        StreamingTileRequestView {
            terrain_path: self.terrain_path@,
            attachment_label: self.attachment_label@,
            attachment_config: self.attachment_config,
            coordinate: self.coordinate,
            terrain_shape: self.terrain_shape,
            terrain_lod_count: self.terrain_lod_count,
            priority: self.priority,
        }
    }
}

impl StreamingTileRequest {
    /// The kind of content the requested attachment streams.
    pub fn attachment_kind(&self) -> (kind: StreamedAttachmentKind)
        ensures
            kind@ == spec_attachment_kind(self.attachment_label@),
    {
        StreamedAttachmentKind::from_label(&self.attachment_label)
    }

    /// A copy with the same content.
    pub fn duplicate(&self) -> (r: StreamingTileRequest)
        ensures
            r@ == self@,
    {
        StreamingTileRequest {
            terrain_path: self.terrain_path.clone(),
            attachment_label: self.attachment_label.duplicate(),
            attachment_config: self.attachment_config,
            coordinate: self.coordinate,
            terrain_shape: self.terrain_shape,
            terrain_lod_count: self.terrain_lod_count,
            priority: self.priority,
        }
    }
}

/// Whether a provider can serve a request.
#[derive(Clone, Debug, PartialEq, Eq)]
pub enum StreamingSourceAvailability {
    Available,
    Unavailable { reason: String },
    Unknown,
}

/// A tile a provider produced: the encoded bytes and the sidecar metadata.
#[derive(Clone, Debug, PartialEq, Eq)]
pub struct MaterializedStreamingTile {
    pub bytes: Vec<u8>,
    pub metadata: CachedTileMetadata,
}

/// How a provider failed.
#[derive(Clone, Debug, PartialEq, Eq)]
pub enum StreamingProviderError {
    Unavailable(String),
    Unsupported(String),
    Transient(String),
    Permanent(String),
}

/// The content of a provider error.
pub enum StreamingProviderErrorView {
    Unavailable(Seq<char>),
    Unsupported(Seq<char>),
    Transient(Seq<char>),
    Permanent(Seq<char>),
}

impl View for StreamingProviderError {
    type V = StreamingProviderErrorView;

    open spec fn view(&self) -> StreamingProviderErrorView {
        match self {
            StreamingProviderError::Unavailable(m) => StreamingProviderErrorView::Unavailable(m@),
            StreamingProviderError::Unsupported(m) => StreamingProviderErrorView::Unsupported(m@),
            StreamingProviderError::Transient(m) => StreamingProviderErrorView::Transient(m@),
            StreamingProviderError::Permanent(m) => StreamingProviderErrorView::Permanent(m@),
        }
    }
}

/// The message carried by a provider error.
pub open spec fn spec_error_reason(e: StreamingProviderErrorView) -> Seq<char> {
    match e {
        StreamingProviderErrorView::Unavailable(m) => m,
        StreamingProviderErrorView::Unsupported(m) => m,
        StreamingProviderErrorView::Transient(m) => m,
        StreamingProviderErrorView::Permanent(m) => m,
    }
}

pub open spec fn unavailable_prefix() -> Seq<char> {
    seq!['s', 't', 'r', 'e', 'a', 'm', 'i', 'n', 'g', ' ', 'p', 'r', 'o', 'v', 'i', 'd', 'e', 'r', ' ', 'i', 's', ' ', 'u', 'n', 'a', 'v', 'a', 'i', 'l', 'a', 'b', 'l', 'e', ':', ' ']
}

pub open spec fn unsupported_prefix() -> Seq<char> {
    seq!['s', 't', 'r', 'e', 'a', 'm', 'i', 'n', 'g', ' ', 'p', 'r', 'o', 'v', 'i', 'd', 'e', 'r', ' ', 'r', 'e', 'j', 'e', 'c', 't', 'e', 'd', ' ', 't', 'h', 'e', ' ', 'r', 'e', 'q', 'u', 'e', 's', 't', ':', ' ']
}

pub open spec fn transient_prefix() -> Seq<char> {
    seq!['s', 't', 'r', 'e', 'a', 'm', 'i', 'n', 'g', ' ', 'p', 'r', 'o', 'v', 'i', 'd', 'e', 'r', ' ', 'e', 'n', 'c', 'o', 'u', 'n', 't', 'e', 'r', 'e', 'd', ' ', 'a', ' ', 't', 'r', 'a', 'n', 's', 'i', 'e', 'n', 't', ' ', 'f', 'a', 'i', 'l', 'u', 'r', 'e', ':', ' ']
}

pub open spec fn permanent_prefix() -> Seq<char> {
    seq!['s', 't', 'r', 'e', 'a', 'm', 'i', 'n', 'g', ' ', 'p', 'r', 'o', 'v', 'i', 'd', 'e', 'r', ' ', 'e', 'n', 'c', 'o', 'u', 'n', 't', 'e', 'r', 'e', 'd', ' ', 'a', ' ', 'p', 'e', 'r', 'm', 'a', 'n', 'e', 'n', 't', ' ', 'f', 'a', 'i', 'l', 'u', 'r', 'e', ':', ' ']
}

/// The human-readable description of a provider error.
pub open spec fn spec_error_message(e: StreamingProviderErrorView) -> Seq<char> {
    match e {
        StreamingProviderErrorView::Unavailable(m) => unavailable_prefix() + m,
        StreamingProviderErrorView::Unsupported(m) => unsupported_prefix() + m,
        StreamingProviderErrorView::Transient(m) => transient_prefix() + m,
        StreamingProviderErrorView::Permanent(m) => permanent_prefix() + m,
    }
}

impl StreamingProviderError {
    /// The human-readable description (the `Display` form).
    pub fn message(&self) -> (s: String)
        ensures
            s@ == spec_error_message(self@),
    {
        match self {
            StreamingProviderError::Unavailable(m) => {
                let p = "streaming provider is unavailable: ";
                proof {
                    reveal_strlit("streaming provider is unavailable: ");
                }
                assert(p@ =~= unavailable_prefix());
                String::from_str(p).concat(m.as_str())
            },
            StreamingProviderError::Unsupported(m) => {
                let p = "streaming provider rejected the request: ";
                proof {
                    reveal_strlit("streaming provider rejected the request: ");
                }
                assert(p@ =~= unsupported_prefix());
                String::from_str(p).concat(m.as_str())
            },
            StreamingProviderError::Transient(m) => {
                let p = "streaming provider encountered a transient failure: ";
                proof {
                    reveal_strlit("streaming provider encountered a transient failure: ");
                }
                assert(p@ =~= transient_prefix());
                String::from_str(p).concat(m.as_str())
            },
            StreamingProviderError::Permanent(m) => {
                let p = "streaming provider encountered a permanent failure: ";
                proof {
                    reveal_strlit("streaming provider encountered a permanent failure: ");
                }
                assert(p@ =~= permanent_prefix());
                String::from_str(p).concat(m.as_str())
            },
        }
    }

    /// The message the error carries.
    pub fn reason(&self) -> (s: String)
        ensures
            s@ == spec_error_reason(self@),
    {
        match self {
            StreamingProviderError::Unavailable(m) => m.clone(),
            StreamingProviderError::Unsupported(m) => m.clone(),
            StreamingProviderError::Transient(m) => m.clone(),
            StreamingProviderError::Permanent(m) => m.clone(),
        }
    }
}

/// A remote source of streamed tiles: what it is, whether it can serve a request, and the
/// tile it produces for one.
pub trait StreamingTileProvider {
    /// The identity of the source.
    fn descriptor(&self) -> StreamingSourceDescriptor;

    /// Whether the source can serve a request.
    fn availability(&self, request: &StreamingTileRequest) -> StreamingSourceAvailability;

    /// Produces the tile for a request.
    fn materialize_tile(&self, request: &StreamingTileRequest) -> Result<MaterializedStreamingTile, StreamingProviderError>;
}

/// A provider's availability answer for a request it tried to plan: available when the
/// plan succeeded, otherwise unavailable with the failure's reason.
pub fn availability_from_plan<T>(plan: Result<T, StreamingProviderError>) -> (a: StreamingSourceAvailability)
    ensures
        match plan {
            Ok(_) => a is Available,
            Err(e) => a matches StreamingSourceAvailability::Unavailable { reason } && reason@ == spec_error_reason(e@),
        },
{
    match plan {
        Ok(_) => StreamingSourceAvailability::Available,
        Err(e) => StreamingSourceAvailability::Unavailable { reason: e.reason() },
    }
}

} // verus!
