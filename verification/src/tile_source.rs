//! Resolving a tile to a local file: the streaming cache first, then the bundled starter
//! dataset. Whether a candidate file exists is asked of the file system by the caller; this
//! module decides which candidate is used.

use vstd::prelude::*;
use crate::coordinate::{AttachmentLabel, AttachmentLabelView, TileCoordinate};
use crate::paths::{
    cache_tile_asset_path, join, join_path, spec_cache_tile_asset_path,
    spec_starter_tile_asset_path, starter_tile_asset_path,
};

verus! {

/// A tile of one attachment of a terrain, to be found on disk.
#[derive(Clone, Debug, PartialEq, Eq)]
pub struct LocalTileRequest {
    pub terrain_path: String,
    pub attachment_label: AttachmentLabel,
    pub coordinate: TileCoordinate,
}

/// Where a resolved tile came from.
#[derive(Clone, Copy, Debug, PartialEq, Eq, Structural)]
pub enum LocalTileSourceKind {
    StreamingCache,
    StarterDataset,
}

/// A tile found on disk: its path relative to the asset root, and where it came from.
#[derive(Clone, Debug, PartialEq, Eq)]
pub struct ResolvedLocalTile {
    pub asset_path: String,
    pub source_kind: LocalTileSourceKind,
}

/// The content of a resolved tile.
pub struct ResolvedLocalTileView {
    pub asset_path: Seq<char>,
    pub source_kind: LocalTileSourceKind,
}

impl View for ResolvedLocalTile {
    type V = ResolvedLocalTileView;

    open spec fn view(&self) -> ResolvedLocalTileView {
        ResolvedLocalTileView { asset_path: self.asset_path@, source_kind: self.source_kind }
    }
}

/// The content of an optional resolved tile.
pub open spec fn resolved_view(r: Option<ResolvedLocalTile>) -> Option<ResolvedLocalTileView> {
    match r {
        Some(t) => Some(t@),
        None => None,
    }
}

/// Something that resolves a tile request to a local file.
pub trait LocalTileSource {
    fn resolve_tile(&self, request: &LocalTileRequest) -> Option<ResolvedLocalTile>;
}

/// Looks a tile up in the streaming cache first and in the starter dataset second.
pub struct CacheFirstLocalTileSource {
    asset_root: String,
    cache_root: Option<String>,
}

/// The roots a resolver looks below.
pub struct CacheFirstLocalTileSourceView {
    pub asset_root: Seq<char>,
    pub cache_root: Option<Seq<char>>,
}

impl View for CacheFirstLocalTileSource {
    type V = CacheFirstLocalTileSourceView;

    closed spec fn view(&self) -> CacheFirstLocalTileSourceView {
        CacheFirstLocalTileSourceView {
            asset_root: self.asset_root@,
            cache_root: match self.cache_root {
                Some(c) => Some(c@),
                None => None,
            },
        }
    }
}

/// The streaming-cache candidate for a request, when a cache root is configured.
pub open spec fn spec_cache_candidate(
    src: CacheFirstLocalTileSourceView,
    terrain_path: Seq<char>,
    label: AttachmentLabelView,
    coordinate: TileCoordinate,
) -> Option<ResolvedLocalTileView> {
    match src.cache_root {
        Some(cache_root) => Some(
            ResolvedLocalTileView {
                asset_path: spec_cache_tile_asset_path(cache_root, terrain_path, label, coordinate),
                source_kind: LocalTileSourceKind::StreamingCache,
            },
        ),
        None => None,
    }
}

/// The starter-dataset candidate for a request.
pub open spec fn spec_starter_candidate(
    terrain_path: Seq<char>,
    label: AttachmentLabelView,
    coordinate: TileCoordinate,
) -> ResolvedLocalTileView {
    ResolvedLocalTileView {
        asset_path: spec_starter_tile_asset_path(terrain_path, label, coordinate),
        source_kind: LocalTileSourceKind::StarterDataset,
    }
}

impl CacheFirstLocalTileSource {
    pub fn new(asset_root: String, cache_root: Option<String>) -> (s: CacheFirstLocalTileSource)
        ensures
            s@.asset_root == asset_root@,
            s@.cache_root == match cache_root {
                Some(c) => Some(c@),
                None => None::<Seq<char>>,
            },
    {
        CacheFirstLocalTileSource { asset_root, cache_root }
    }

    /// The streaming-cache candidate for a request: the cache path of the tile, or `None`
    /// when no cache root is configured. Whether the file exists is not checked here.
    pub fn resolve_cache_tile(&self, request: &LocalTileRequest) -> (r: Option<ResolvedLocalTile>)
        ensures
            resolved_view(r) == spec_cache_candidate(
                self@,
                request.terrain_path@,
                request.attachment_label@,
                request.coordinate,
            ),
    {
        match &self.cache_root {
            Some(cache_root) => {
                let asset_path = cache_tile_asset_path(
                    cache_root.as_str(),
                    request.terrain_path.as_str(),
                    &request.attachment_label,
                    request.coordinate,
                );
                Some(ResolvedLocalTile { asset_path, source_kind: LocalTileSourceKind::StreamingCache })
            },
            None => None,
        }
    }

    /// The starter-dataset candidate for a request.
    pub fn resolve_starter_tile(&self, request: &LocalTileRequest) -> (r: ResolvedLocalTile)
        ensures
            r@ == spec_starter_candidate(
                request.terrain_path@,
                request.attachment_label@,
                request.coordinate,
            ),
    {
        let asset_path = starter_tile_asset_path(
            request.terrain_path.as_str(),
            &request.attachment_label,
            request.coordinate,
        );
        ResolvedLocalTile { asset_path, source_kind: LocalTileSourceKind::StarterDataset }
    }

    /// The file-system path of an asset path: the asset root joined with it.
    pub fn file_system_path(&self, asset_path: &str) -> (r: String)
        ensures
            r@ == join(self@.asset_root, asset_path@),
    {
        join_path(self.asset_root.as_str(), asset_path)
    }

    /// The resolution of a request given whether the cache candidate's file exists: the cached
    /// tile when a cache root is configured and the file exists, otherwise the starter tile.
    pub fn resolve_tile_with(&self, request: &LocalTileRequest, cache_file_exists: bool) -> (r: ResolvedLocalTile)
        ensures
            spec_cache_candidate(self@, request.terrain_path@, request.attachment_label@, request.coordinate)
                is Some && cache_file_exists ==> Some(r@) == spec_cache_candidate(
                self@,
                request.terrain_path@,
                request.attachment_label@,
                request.coordinate,
            ),
            !(spec_cache_candidate(self@, request.terrain_path@, request.attachment_label@, request.coordinate)
                is Some && cache_file_exists) ==> r@ == spec_starter_candidate(
                request.terrain_path@,
                request.attachment_label@,
                request.coordinate,
            ),
    {
        match self.resolve_cache_tile(request) {
            Some(cached) => {
                if cache_file_exists {
                    cached
                } else {
                    self.resolve_starter_tile(request)
                }
            },
            None => self.resolve_starter_tile(request),
        }
    }

    /// The resolution of a request to a file that is present, given which candidate files
    /// exist: the cached tile first, the starter tile second, `None` when neither exists.
    pub fn resolve_present_tile_with(
        &self,
        request: &LocalTileRequest,
        cache_file_exists: bool,
        starter_file_exists: bool,
    ) -> (r: Option<ResolvedLocalTile>)
        ensures
            spec_cache_candidate(self@, request.terrain_path@, request.attachment_label@, request.coordinate)
                is Some && cache_file_exists ==> resolved_view(r) == spec_cache_candidate(
                self@,
                request.terrain_path@,
                request.attachment_label@,
                request.coordinate,
            ),
            !(spec_cache_candidate(self@, request.terrain_path@, request.attachment_label@, request.coordinate)
                is Some && cache_file_exists) ==> resolved_view(r) == if starter_file_exists {
                Some(spec_starter_candidate(request.terrain_path@, request.attachment_label@, request.coordinate))
            } else {
                None
            },
    {
        match self.resolve_cache_tile(request) {
            Some(cached) => {
                if cache_file_exists {
                    return Some(cached);
                }
            },
            None => {},
        }
        if starter_file_exists {
            Some(self.resolve_starter_tile(request))
        } else {
            None
        }
    }
}

/// A tile the cache writer stores for a terrain, attachment and tile below `cache_root`
/// (see `plan_cache_write`) is exactly the streaming-cache candidate a resolver with that
/// cache root looks for, at the same file below the asset root: once the file exists, the
/// resolver serves it without a new fetch.
pub proof fn lemma_cached_write_is_resolved(
    asset_root: Seq<char>,
    cache_root: Seq<char>,
    terrain_path: Seq<char>,
    label: AttachmentLabelView,
    coordinate: TileCoordinate,
)
    ensures
        ({
            let resolver = CacheFirstLocalTileSourceView { asset_root, cache_root: Some(cache_root) };
            let written = spec_cache_tile_asset_path(cache_root, terrain_path, label, coordinate);
            &&& spec_cache_candidate(resolver, terrain_path, label, coordinate) == Some(
                ResolvedLocalTileView { asset_path: written, source_kind: LocalTileSourceKind::StreamingCache },
            )
            &&& join(resolver.asset_root, written) == join(asset_root, written)
        }),
{
}

} // verus!
