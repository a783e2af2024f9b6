//! Where a streamed tile, its sidecar and its terrain's manifest are written, and how the
//! manifest registers the tile's source.

use vstd::prelude::*;
use crate::cache_manifest::{
    CURRENT_STREAMING_CACHE_FORMAT_VERSION, CacheFreshnessPolicy, CachedTileMetadata,
    RegisteredStreamingSource, RegisteredStreamingSourceView, StreamingCacheManifest,
    StreamingCacheManifestView, StreamingSourceDescriptor, StreamingSourceDescriptorView,
    spec_manifest_path, spec_metadata_path,
};
use crate::paths::{
    cache_terrain_root, cache_tile_asset_path, join, join_path, spec_cache_terrain_root,
    spec_cache_tile_asset_path,
};

verus! {

/// The manifest already in a terrain's cache directory names another terrain.
#[derive(Clone, Debug, PartialEq, Eq)]
pub struct ManifestTerrainMismatch {
    pub manifest_terrain_path: String,
    pub tile_terrain_path: String,
}

impl ManifestTerrainMismatch {
    /// The human-readable description of the mismatch.
    pub fn message(&self) -> (s: String)
        ensures
            s@ == seq!['c', 'a', 'c', 'h', 'e', ' ', 'm', 'a', 'n', 'i', 'f', 'e', 's', 't', ' ', 't', 'e', 'r', 'r', 'a', 'i', 'n', ' ', 'p', 'a', 't', 'h', ' ', '\'']
                + self.manifest_terrain_path@
                + seq!['\'', ' ', 'd', 'o', 'e', 's', ' ', 'n', 'o', 't', ' ', 'm', 'a', 't', 'c', 'h', ' ', 's', 't', 'r', 'e', 'a', 'm', 'e', 'd', ' ', 't', 'i', 'l', 'e', ' ', 't', 'e', 'r', 'r', 'a', 'i', 'n', ' ', 'p', 'a', 't', 'h', ' ', '\'']
                + self.tile_terrain_path@ + seq!['\''],
    {
        let head = "cache manifest terrain path '";
        let mid = "' does not match streamed tile terrain path '";
        let tail = "'";
        proof {
            reveal_strlit("cache manifest terrain path '");
            reveal_strlit("' does not match streamed tile terrain path '");
            reveal_strlit("'");
        }
        let s = String::from_str(head);
        let s = s.concat(self.manifest_terrain_path.as_str());
        let s = s.concat(mid);
        let s = s.concat(self.tile_terrain_path.as_str());
        let s = s.concat(tail);
        assert(s@ =~= seq!['c', 'a', 'c', 'h', 'e', ' ', 'm', 'a', 'n', 'i', 'f', 'e', 's', 't', ' ', 't', 'e', 'r', 'r', 'a', 'i', 'n', ' ', 'p', 'a', 't', 'h', ' ', '\'']
                + self.manifest_terrain_path@
                + seq!['\'', ' ', 'd', 'o', 'e', 's', ' ', 'n', 'o', 't', ' ', 'm', 'a', 't', 'c', 'h', ' ', 's', 't', 'r', 'e', 'a', 'm', 'e', 'd', ' ', 't', 'i', 'l', 'e', ' ', 't', 'e', 'r', 'r', 'a', 'i', 'n', ' ', 'p', 'a', 't', 'h', ' ', '\'']
                + self.tile_terrain_path@ + seq!['\'']);
        s
    }
}

/// The content of an optional manifest.
pub open spec fn manifest_view(m: Option<StreamingCacheManifest>) -> Option<StreamingCacheManifestView> {
    match m {
        Some(m) => Some(m@),
        None => None,
    }
}

/// The manifest a registration starts from: the loaded one, or a fresh one for the tile's
/// terrain when none could be loaded; an empty terrain path is filled in.
pub open spec fn registration_base(
    existing: Option<StreamingCacheManifestView>,
    terrain_path: Seq<char>,
) -> StreamingCacheManifestView {
    let base = match existing {
        Some(m) => m,
        None => StreamingCacheManifestView {
            format_version: CURRENT_STREAMING_CACHE_FORMAT_VERSION,
            terrain_path: terrain_path,
            sources: Seq::empty(),
        },
    };
    if base.terrain_path.len() == 0 {
        StreamingCacheManifestView { terrain_path: terrain_path, ..base }
    } else {
        base
    }
}

/// `source` is registered in `sources`.
pub open spec fn lists_source(
    sources: Seq<RegisteredStreamingSourceView>,
    source: StreamingSourceDescriptorView,
) -> bool {
    exists|i: int| 0 <= i < sources.len() && #[trigger] sources[i].descriptor == source
}

/// Registering the source of a tile of `terrain_path` in a terrain manifest: `None` when
/// the manifest names another terrain; otherwise the manifest with the source appended
/// (default freshness policy) unless it was already registered.
pub open spec fn spec_register_source(
    existing: Option<StreamingCacheManifestView>,
    terrain_path: Seq<char>,
    source: StreamingSourceDescriptorView,
) -> Option<StreamingCacheManifestView> {
    let base = registration_base(existing, terrain_path);
    if base.terrain_path != terrain_path {
        None
    } else if lists_source(base.sources, source) {
        Some(base)
    } else {
        Some(
            StreamingCacheManifestView {
                sources: base.sources.push(
                    RegisteredStreamingSourceView {
                        descriptor: source,
                        freshness_policy: CacheFreshnessPolicy {
                            max_age_seconds: None,
                            revalidate_on_startup: false,
                        },
                    },
                ),
                ..base
            },
        )
    }
}

/// Registers the source of a streamed tile in its terrain's cache manifest. `existing` is
/// the manifest found on disk, or `None` when there is none or it could not be parsed.
pub fn register_source(
    existing: Option<StreamingCacheManifest>,
    terrain_path: &String,
    source: &StreamingSourceDescriptor,
) -> (r: Result<StreamingCacheManifest, ManifestTerrainMismatch>)
    ensures
        match r {
            Ok(m) => spec_register_source(
                manifest_view(existing),
                terrain_path@,
                source@,
            ) == Some(m@),
            Err(e) => spec_register_source(
                manifest_view(existing),
                terrain_path@,
                source@,
            ) is None && e.tile_terrain_path@ == terrain_path@ && e.manifest_terrain_path@
                == registration_base(
                manifest_view(existing),
                terrain_path@,
            ).terrain_path,
        },
{
    let ghost existing_view = manifest_view(existing);
    let mut manifest = match existing {
        Some(m) => m,
        None => StreamingCacheManifest {
            format_version: CURRENT_STREAMING_CACHE_FORMAT_VERSION,
            terrain_path: terrain_path.clone(),
            sources: Vec::new(),
        },
    };
    assert(manifest.sources@.map_values(|s: RegisteredStreamingSource| s@) =~= registration_base(existing_view, terrain_path@).sources) by {
        if existing.is_none() {
            assert(manifest.sources@.map_values(|s: RegisteredStreamingSource| s@) =~= Seq::<RegisteredStreamingSourceView>::empty());
        }
    }
    if manifest.terrain_path.as_str().unicode_len() == 0 {
        manifest.terrain_path = terrain_path.clone();
    }
    assert(manifest@ == registration_base(existing_view, terrain_path@));
    if manifest.terrain_path != *terrain_path {
        return Err(
            ManifestTerrainMismatch {
                manifest_terrain_path: manifest.terrain_path,
                tile_terrain_path: terrain_path.clone(),
            },
        );
    }
    let ghost base = manifest@;
    let mut i: usize = 0;
    while i < manifest.sources.len()
        invariant
            i <= manifest.sources.len(),
            manifest@ == base,
            base == registration_base(existing_view, terrain_path@),
            existing_view == manifest_view(existing),
            base.terrain_path == terrain_path@,
            forall|k: int| 0 <= k < i ==> base.sources[k].descriptor != source@,
        decreases manifest.sources.len() - i,
    {
        if manifest.sources[i].descriptor.same_as(source) {
            assert(base.sources[i as int].descriptor == source@);
            return Ok(manifest);
        }
        i = i + 1;
    }
    assert(!lists_source(base.sources, source@));
    manifest.sources.push(
        RegisteredStreamingSource {
            descriptor: source.duplicate(),
            freshness_policy: CacheFreshnessPolicy::default(),
        },
    );
    assert(manifest@.sources =~= base.sources.push(
        RegisteredStreamingSourceView {
            descriptor: source@,
            freshness_policy: CacheFreshnessPolicy { max_age_seconds: None, revalidate_on_startup: false },
        },
    ));
    Ok(manifest)
}

/// After a successful registration the manifest lists the source, belongs to the tile's
/// terrain, and still lists every source it listed before, in the same order.
pub proof fn lemma_registration_lists_source(
    existing: Option<StreamingCacheManifestView>,
    terrain_path: Seq<char>,
    source: StreamingSourceDescriptorView,
)
    requires
        spec_register_source(existing, terrain_path, source) is Some,
    ensures
        ({
            let m = spec_register_source(existing, terrain_path, source)->0;
            let base = registration_base(existing, terrain_path);
            &&& lists_source(m.sources, source)
            &&& m.terrain_path == terrain_path
            &&& base.sources.len() <= m.sources.len()
            &&& m.sources.subrange(0, base.sources.len() as int) == base.sources
        }),
{
    let m = spec_register_source(existing, terrain_path, source)->0;
    let base = registration_base(existing, terrain_path);
    if !lists_source(base.sources, source) {
        assert(m.sources[base.sources.len() as int].descriptor == source);
    }
    assert(m.sources.subrange(0, base.sources.len() as int) =~= base.sources);
}

/// Registering the same source again leaves the manifest unchanged.
pub proof fn lemma_registration_is_idempotent(
    existing: Option<StreamingCacheManifestView>,
    terrain_path: Seq<char>,
    source: StreamingSourceDescriptorView,
)
    requires
        spec_register_source(existing, terrain_path, source) is Some,
    ensures
        spec_register_source(
            spec_register_source(existing, terrain_path, source),
            terrain_path,
            source,
        ) == spec_register_source(existing, terrain_path, source),
{
    lemma_registration_lists_source(existing, terrain_path, source);
    let m = spec_register_source(existing, terrain_path, source)->0;
    if terrain_path.len() == 0 {
        assert(registration_base(Some(m), terrain_path) =~= m);
    }
}

/// Registration never lists a source twice when it did not before.
pub proof fn lemma_registration_keeps_sources_distinct(
    existing: Option<StreamingCacheManifestView>,
    terrain_path: Seq<char>,
    source: StreamingSourceDescriptorView,
)
    requires
        spec_register_source(existing, terrain_path, source) is Some,
        ({
            let s = registration_base(existing, terrain_path).sources;
            forall|i: int, j: int|
                0 <= i < j < s.len() ==> s[i].descriptor != s[j].descriptor
        }),
    ensures
        ({
            let s = spec_register_source(existing, terrain_path, source)->0.sources;
            forall|i: int, j: int|
                0 <= i < j < s.len() ==> s[i].descriptor != s[j].descriptor
        }),
{
}

/// The files one streamed tile write touches, all relative to the process working directory
/// except `tile_asset_path`, which is relative to the asset root.
#[derive(Clone, Debug, PartialEq, Eq)]
pub struct CacheWritePlan {
    pub tile_asset_path: String,
    pub tile_fs_path: String,
    pub sidecar_path: String,
    pub terrain_root: String,
    pub manifest_path: String,
}

/// Where a streamed tile with this metadata is written below `asset_root` and `cache_root`.
pub fn plan_cache_write(asset_root: &str, cache_root: &str, metadata: &CachedTileMetadata) -> (plan: CacheWritePlan)
    ensures
        plan.tile_asset_path@ == spec_cache_tile_asset_path(
            cache_root@,
            metadata.terrain_path@,
            metadata.attachment_label@,
            metadata.coordinate,
        ),
        plan.tile_fs_path@ == join(asset_root@, plan.tile_asset_path@),
        plan.sidecar_path@ == spec_metadata_path(plan.tile_fs_path@),
        plan.terrain_root@ == join(
            asset_root@,
            spec_cache_terrain_root(cache_root@, metadata.terrain_path@),
        ),
        plan.manifest_path@ == spec_manifest_path(plan.terrain_root@),
{
    let tile_asset_path = cache_tile_asset_path(
        cache_root,
        metadata.terrain_path.as_str(),
        &metadata.attachment_label,
        metadata.coordinate,
    );
    let tile_fs_path = join_path(asset_root, tile_asset_path.as_str());
    let sidecar_path = CachedTileMetadata::path_for_tile(tile_fs_path.as_str());
    let relative_root = cache_terrain_root(cache_root, metadata.terrain_path.as_str());
    let terrain_root = join_path(asset_root, relative_root.as_str());
    let manifest_path = StreamingCacheManifest::path_for(terrain_root.as_str());
    CacheWritePlan { tile_asset_path, tile_fs_path, sidecar_path, terrain_root, manifest_path }
}

} // verus!
