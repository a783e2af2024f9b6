//! Terrain-wide configuration: which tiles a terrain has, and the renderer settings that
//! decide which attachments are streamed and how deep.

use vstd::prelude::*;
use crate::coordinate::{AttachmentLabel, AttachmentLabelView, TerrainShape, TileCoordinate};

verus! {

/// The version of the terrain configuration format this crate writes.
pub const CURRENT_TERRAIN_FORMAT_VERSION: u32 = 2;

/// The version of the geodetic mapping this crate uses.
pub const CURRENT_GEODETIC_MAPPING_VERSION: u32 = 2;

/// Which tiles of a terrain exist.
#[derive(Clone, Copy, Debug, PartialEq, Eq, Structural)]
pub enum TileAvailability {
    /// Exactly the tiles listed in the terrain configuration.
    Explicit,
    /// Every tile of every face on every level.
    FullFace,
}

impl Default for TileAvailability {
    fn default() -> (a: TileAvailability)
        ensures
            a == TileAvailability::Explicit,
    {
        TileAvailability::Explicit
    }
}

/// A tile lies inside a terrain of this shape and depth: it is not the sentinel, its face
/// exists, its level is below `lod_count` and both its indices lie in `0..2^lod`.
pub open spec fn tile_in_bounds(tile: TileCoordinate, shape: TerrainShape, lod_count: u32) -> bool {
    &&& tile != TileCoordinate::spec_invalid()
    &&& tile.face < shape.spec_face_count()
    &&& tile.lod < lod_count
    &&& 0 <= tile.xy.x && 0 <= tile.xy.y
    &&& tile.xy.x < (1i32 << tile.lod) && tile.xy.y < (1i32 << tile.lod)
}

/// `4^n`.
pub open spec fn pow4(n: nat) -> nat
    decreases n,
{
    if n == 0 {
        1
    } else {
        4 * pow4((n - 1) as nat)
    }
}

/// The number of tiles of `face_count` full faces on levels `0..lod_count`.
pub open spec fn full_face_tile_count(face_count: nat, lod_count: nat) -> nat
    decreases lod_count,
{
    if lod_count == 0 {
        0
    } else {
        full_face_tile_count(face_count, (lod_count - 1) as nat) + face_count * pow4((lod_count - 1) as nat)
    }
}

/// The number of tiles of a terrain with this availability.
pub open spec fn spec_tile_count(
    availability: TileAvailability,
    shape: TerrainShape,
    lod_count: u32,
    explicit_tile_count: usize,
) -> nat {
    match availability {
        TileAvailability::Explicit => explicit_tile_count as nat,
        TileAvailability::FullFace => full_face_tile_count(shape.spec_face_count() as nat, lod_count as nat),
    }
}

/// A level's tiles never outnumber all the levels up to and including it.
proof fn lemma_full_face_count_grows(face_count: nat, a: nat, b: nat)
    requires
        a < b,
    ensures
        full_face_tile_count(face_count, a) + face_count * pow4(a) <= full_face_tile_count(face_count, b),
    decreases b,
{
    if a + 1 < b {
        lemma_full_face_count_grows(face_count, a, (b - 1) as nat);
    }
}

/// The full-face tile count in closed form: `face_count * (4^lod_count - 1) / 3`.
pub proof fn lemma_full_face_count_closed_form(face_count: nat, lod_count: nat)
    ensures
        3 * full_face_tile_count(face_count, lod_count) == face_count * (pow4(lod_count) - 1),
    decreases lod_count,
{
    if lod_count == 0 {
        assert(pow4(0) == 1);
        assert(face_count * (pow4(lod_count) - 1) == 0) by (nonlinear_arith)
            requires
                pow4(lod_count) == 1,
        ;
    } else {
        let n = (lod_count - 1) as nat;
        assert(pow4(lod_count) == 4 * pow4(n));
        lemma_full_face_count_closed_form(face_count, n);
        assert(3 * full_face_tile_count(face_count, lod_count) == 3 * full_face_tile_count(face_count, n) + 3 * (
        face_count * pow4(n))) by (nonlinear_arith)
            requires
                full_face_tile_count(face_count, lod_count) == full_face_tile_count(face_count, n) + face_count * pow4(n),
        ;
        assert(face_count * (pow4(n) - 1) + 3 * (face_count * pow4(n)) == face_count * (4 * pow4(n) - 1))
            by (nonlinear_arith);
    }
}

impl TileAvailability {
    /// Whether a tile exists: it must lie in bounds; then an explicit availability asks
    /// `explicit_tiles` (called only then), a full-face availability accepts it.
    pub fn contains<F: FnOnce() -> bool>(
        self,
        tile: TileCoordinate,
        shape: TerrainShape,
        lod_count: u32,
        explicit_tiles: F,
    ) -> (r: bool)
        requires
            tile != TileCoordinate::spec_invalid() && tile.face < shape.spec_face_count() && tile.lod < lod_count
                ==> tile.lod < 32,
            self is Explicit ==> explicit_tiles.requires(()),
        ensures
            !tile_in_bounds(tile, shape, lod_count) ==> !r,
            tile_in_bounds(tile, shape, lod_count) && self is FullFace ==> r,
            tile_in_bounds(tile, shape, lod_count) && self is Explicit ==> explicit_tiles.ensures((), r),
    {
        if tile == TileCoordinate::invalid() || tile.face >= shape.face_count() || tile.lod >= lod_count {
            return false;
        }
        let tile_count: i32 = 1i32 << tile.lod;
        if tile.xy.x < 0 || tile.xy.y < 0 || tile.xy.x >= tile_count || tile.xy.y >= tile_count {
            return false;
        }
        match self {
            TileAvailability::Explicit => explicit_tiles(),
            TileAvailability::FullFace => true,
        }
    }

    /// How many tiles a terrain with this availability has: the explicit count, or every
    /// tile of every face on every level.
    pub fn tile_count(self, shape: TerrainShape, lod_count: u32, explicit_tile_count: usize) -> (n: usize)
        requires
            self is FullFace ==> full_face_tile_count(shape.spec_face_count() as nat, lod_count as nat) <= usize::MAX,
        ensures
            n == spec_tile_count(self, shape, lod_count, explicit_tile_count),
    {
        match self {
            TileAvailability::Explicit => explicit_tile_count,
            TileAvailability::FullFace => {
                let face_count = shape.face_count() as usize;
                let ghost fc = face_count as nat;
                let mut sum: usize = 0;
                let mut term: usize = face_count;
                let mut lod: u32 = 0;
                while lod < lod_count
                    invariant
                        fc == shape.spec_face_count(),
                        lod <= lod_count,
                        full_face_tile_count(fc, lod_count as nat) <= usize::MAX,
                        sum == full_face_tile_count(fc, lod as nat),
                        lod < lod_count ==> term == fc * pow4(lod as nat),
                    decreases lod_count - lod,
                {
                    proof {
                        lemma_full_face_count_grows(fc, lod as nat, (lod + 1) as nat);
                        if lod + 1 < lod_count {
                            lemma_full_face_count_grows(fc, (lod + 1) as nat, lod_count as nat);
                        } else {
                            assert(lod + 1 == lod_count);
                        }
                    }
                    sum = sum + term;
                    if lod + 1 < lod_count {
                        assert(fc * pow4((lod + 1) as nat) == term * 4) by (nonlinear_arith)
                            requires
                                term == fc * pow4(lod as nat),
                                pow4((lod + 1) as nat) == 4 * pow4(lod as nat),
                        ;
                        term = term * 4;
                    }
                    lod = lod + 1;
                }
                sum
            },
        }
    }
}

/// Which attachments the renderer loads and streams, and its streaming and upload limits.
#[derive(Clone, Debug, PartialEq, Eq)]
pub struct TerrainSettings {
    pub attachments: Vec<AttachmentLabel>,
    pub atlas_size: u32,
    pub upload_budget_bytes_per_frame: usize,
    pub streaming_cache_root: Option<String>,
    pub streaming_target_lod_count: Option<u32>,
}

/// The content of renderer settings.
pub struct TerrainSettingsView {
    pub attachments: Seq<AttachmentLabelView>,
    pub atlas_size: u32,
    pub upload_budget_bytes_per_frame: usize,
    pub streaming_cache_root: Option<Seq<char>>,
    pub streaming_target_lod_count: Option<u32>,
}

impl View for TerrainSettings {
    type V = TerrainSettingsView;

    open spec fn view(&self) -> TerrainSettingsView {
        TerrainSettingsView {
            attachments: self.attachments@.map_values(|l: AttachmentLabel| l@),
            atlas_size: self.atlas_size,
            upload_budget_bytes_per_frame: self.upload_budget_bytes_per_frame,
            streaming_cache_root: match self.streaming_cache_root {
                Some(c) => Some(c@),
                None => None,
            },
            streaming_target_lod_count: self.streaming_target_lod_count,
        }
    }
}

/// Settings with these attachments, an atlas of 1028 tiles, a 24 MiB per-frame upload
/// budget, no streaming cache and no streaming depth override.
pub open spec fn default_settings_with(attachments: Seq<AttachmentLabelView>) -> TerrainSettingsView {
    TerrainSettingsView {
        attachments,
        atlas_size: 1028,
        upload_budget_bytes_per_frame: 25165824,
        streaming_cache_root: None,
        streaming_target_lod_count: None,
    }
}

/// Height followed by one custom attachment per name, in order.
pub open spec fn height_and_custom(names: Seq<Seq<char>>) -> Seq<AttachmentLabelView> {
    seq![AttachmentLabelView::Height] + names.map_values(|n: Seq<char>| AttachmentLabelView::Custom(n))
}

/// The streaming depth: the override when it is deeper than the configured depth, else the
/// configured depth.
pub open spec fn spec_effective_terrain_lod_count(override_lod: Option<u32>, config_lod_count: u32) -> u32 {
    match override_lod {
        Some(o) => if o > config_lod_count {
            o
        } else {
            config_lod_count
        },
        None => config_lod_count,
    }
}

impl Default for TerrainSettings {
    /// Height only.
    fn default() -> (s: TerrainSettings)
        ensures
            s@ == default_settings_with(seq![AttachmentLabelView::Height]),
    {
        let mut attachments: Vec<AttachmentLabel> = Vec::new();
        attachments.push(AttachmentLabel::Height);
        let s = TerrainSettings {
            attachments,
            atlas_size: 1028,
            upload_budget_bytes_per_frame: 24 * 1024 * 1024,
            streaming_cache_root: None,
            streaming_target_lod_count: None,
        };
        assert(s@.attachments =~= seq![AttachmentLabelView::Height]);
        s
    }
}

impl TerrainSettings {
    /// Settings for height plus the named custom attachments.
    pub fn new(custom_attachments: &[&str]) -> (s: TerrainSettings)
        ensures
            s@ == default_settings_with(height_and_custom(custom_attachments@.map_values(|n: &str| n@))),
    {
        let ghost names = custom_attachments@.map_values(|n: &str| n@);
        let mut attachments: Vec<AttachmentLabel> = Vec::new();
        attachments.push(AttachmentLabel::Height);
        let mut i: usize = 0;
        while i < custom_attachments.len()
            invariant
                i <= custom_attachments@.len(),
                names == custom_attachments@.map_values(|n: &str| n@),
                attachments@.map_values(|l: AttachmentLabel| l@) == height_and_custom(names.subrange(0, i as int)),
            decreases custom_attachments.len() - i,
        {
            let label = AttachmentLabel::Custom(String::from_str(custom_attachments[i]));
            assert(label@ == AttachmentLabelView::Custom(names[i as int]));
            let ghost before = attachments@;
            attachments.push(label);
            assert(attachments@.map_values(|l: AttachmentLabel| l@) =~= before.map_values(|l: AttachmentLabel| l@).push(
                AttachmentLabelView::Custom(names[i as int]),
            ));
            assert(names.subrange(0, i + 1) =~= names.subrange(0, i as int).push(names[i as int]));
            i = i + 1;
            assert(attachments@.map_values(|l: AttachmentLabel| l@) =~= height_and_custom(names.subrange(0, i as int)));
        }
        assert(names.subrange(0, names.len() as int) =~= names);
        TerrainSettings {
            attachments,
            atlas_size: 1028,
            upload_budget_bytes_per_frame: 24 * 1024 * 1024,
            streaming_cache_root: None,
            streaming_target_lod_count: None,
        }
    }

    /// Settings for height plus one custom attachment.
    pub fn with_attachment(attachment: &str) -> (s: TerrainSettings)
        ensures
            s@ == default_settings_with(height_and_custom(seq![attachment@])),
    {
        let names: [&str; 1] = [attachment];
        let s = Self::new(names.as_slice());
        assert(names@.map_values(|n: &str| n@) =~= seq![attachment@]);
        s
    }

    /// Settings for height plus `albedo`.
    pub fn with_albedo() -> (s: TerrainSettings)
        ensures
            s@ == default_settings_with(height_and_custom(seq!["albedo"@])),
    {
        Self::with_attachment("albedo")
    }

    pub fn with_upload_budget_bytes_per_frame(self, upload_budget_bytes_per_frame: usize) -> (s: TerrainSettings)
        ensures
            s@ == (TerrainSettingsView { upload_budget_bytes_per_frame, ..self@ }),
    {
        TerrainSettings { upload_budget_bytes_per_frame, ..self }
    }

    /// Prefer cached streamed tiles below this asset-relative root over the starter data.
    pub fn with_streaming_cache_root(self, streaming_cache_root: String) -> (s: TerrainSettings)
        ensures
            s@ == (TerrainSettingsView { streaming_cache_root: Some(streaming_cache_root@), ..self@ }),
    {
        TerrainSettings { streaming_cache_root: Some(streaming_cache_root), ..self }
    }

    /// Let the renderer request levels deeper than the starter data has.
    pub fn with_streaming_target_lod_count(self, lod_count: u32) -> (s: TerrainSettings)
        ensures
            s@ == (TerrainSettingsView { streaming_target_lod_count: Some(lod_count), ..self@ }),
    {
        TerrainSettings { streaming_target_lod_count: Some(lod_count), ..self }
    }

    /// The number of levels the renderer works with for a terrain configured with
    /// `config_lod_count` levels.
    pub fn effective_terrain_lod_count(&self, config_lod_count: u32) -> (n: u32)
        ensures
            n == spec_effective_terrain_lod_count(self.streaming_target_lod_count, config_lod_count),
    {
        match self.streaming_target_lod_count {
            Some(override_lod) => {
                if override_lod > config_lod_count {
                    override_lod
                } else {
                    config_lod_count
                }
            },
            None => config_lod_count,
        }
    }
}

/// Streaming never makes a terrain shallower than its configuration, and without an
/// override it keeps the configured depth.
pub proof fn lemma_effective_lod_count_never_shrinks(override_lod: Option<u32>, config_lod_count: u32)
    ensures
        spec_effective_terrain_lod_count(override_lod, config_lod_count) >= config_lod_count,
        override_lod is None ==> spec_effective_terrain_lod_count(override_lod, config_lod_count) == config_lod_count,
{
}

} // verus!
