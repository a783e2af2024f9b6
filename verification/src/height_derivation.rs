//! The tile-tree side of streaming jobs: the ancestor chains a job walks, the requests it
//! derives from the one it serves, where a locally derived height tile comes from and how a
//! child tile sits inside the ancestor it is derived from.

use vstd::prelude::*;
use crate::cache_manifest::{
    CURRENT_STREAMING_CACHE_FORMAT_VERSION, CacheTileEncoding, CacheTileEncodingView, CachedTileMetadata,
    CachedTileMetadataView, StreamedAttachmentKind, StreamedAttachmentKindView, StreamingSourceDescriptor,
    StreamingSourceDescriptorView, StreamingSourceKind, StreamingSourceKindView,
};
use crate::coordinate::{
    AttachmentConfig, AttachmentFormat, AttachmentLabel, AttachmentLabelView, TileCoordinate, spec_tile_parent,
    tile_name,
};
use crate::source_contract::{StreamingProviderError, StreamingProviderErrorView, StreamingTileRequest, StreamingTileRequestView};
use crate::streaming_jobs::{StreamingTaskError, StreamingTaskErrorView};
use crate::text::{decimal, push_char, push_decimal};
use crate::tile_source::LocalTileSourceKind;

verus! {

/// The tile `k` levels above `tile` (`tile` itself for `k == 0`); level 0 is its own parent.
pub open spec fn nth_ancestor(tile: TileCoordinate, k: nat) -> TileCoordinate
    decreases k,
{
    if k == 0 {
        tile
    } else {
        match spec_tile_parent(nth_ancestor(tile, (k - 1) as nat)) {
            Some(p) => p,
            None => nth_ancestor(tile, (k - 1) as nat),
        }
    }
}

/// Walking up `k <= lod` levels lands on level `lod - k` of the same face.
pub proof fn lemma_nth_ancestor_level(tile: TileCoordinate, k: nat)
    requires
        k <= tile.lod,
    ensures
        nth_ancestor(tile, k).lod == tile.lod - k,
        nth_ancestor(tile, k).face == tile.face,
    decreases k,
{
    if k > 0 {
        lemma_nth_ancestor_level(tile, (k - 1) as nat);
    }
}

/// The ancestors of `tile`, coarsest first: entry `i` is the ancestor on level `i`.
pub open spec fn spec_ancestor_chain(tile: TileCoordinate) -> Seq<TileCoordinate> {
    Seq::new(tile.lod as nat, |i: int| nth_ancestor(tile, (tile.lod - i) as nat))
}

/// The ancestor chain starts at level 0, goes down one level per entry, each entry the
/// parent of the next, and the last entry is the parent of `tile`.
pub proof fn lemma_ancestor_chain_is_linked(tile: TileCoordinate)
    ensures
        forall|i: int| 0 <= i < tile.lod ==> (#[trigger] spec_ancestor_chain(tile)[i]).lod == i,
        forall|i: int| 0 <= i < tile.lod - 1 ==> spec_tile_parent(#[trigger] spec_ancestor_chain(tile)[i + 1])
            == Some(spec_ancestor_chain(tile)[i]),
        tile.lod > 0 ==> spec_tile_parent(tile) == Some(spec_ancestor_chain(tile)[tile.lod - 1]),
{
    let chain = spec_ancestor_chain(tile);
    assert forall|i: int| 0 <= i < tile.lod implies (#[trigger] chain[i]).lod == i by {
        lemma_nth_ancestor_level(tile, (tile.lod - i) as nat);
    }
    assert forall|i: int| 0 <= i < tile.lod - 1 implies spec_tile_parent(#[trigger] chain[i + 1]) == Some(chain[i]) by {
        let k = (tile.lod - i - 1) as nat;
        lemma_nth_ancestor_level(tile, k);
        assert(chain[i + 1] == nth_ancestor(tile, k));
        assert(chain[i] == nth_ancestor(tile, k + 1));
    }
    if tile.lod > 0 {
        assert(chain[tile.lod - 1] == nth_ancestor(tile, 1));
        assert(nth_ancestor(tile, 0) == tile);
    }
}

/// The ancestors of a tile, coarsest first, ending with its parent.
pub fn ancestor_chain(tile: TileCoordinate) -> (chain: Vec<TileCoordinate>)
    ensures
        chain@ == spec_ancestor_chain(tile),
{
    let mut upward: Vec<TileCoordinate> = Vec::new();
    let mut current = tile;
    while current.lod > 0
        invariant
            upward.len() <= tile.lod,
            current == nth_ancestor(tile, upward.len() as nat),
            current.lod == tile.lod - upward.len(),
            forall|j: int| 0 <= j < upward.len() ==> #[trigger] upward@[j] == nth_ancestor(tile, (j + 1) as nat),
        decreases current.lod,
    {
        let parent = match current.parent() {
            Some(p) => p,
            None => current,
        };
        upward.push(parent);
        current = parent;
    }
    let n = upward.len();
    let mut chain: Vec<TileCoordinate> = Vec::new();
    while chain.len() < n
        invariant
            n == upward.len() == tile.lod,
            chain.len() <= n,
            forall|j: int| 0 <= j < upward.len() ==> #[trigger] upward@[j] == nth_ancestor(tile, (j + 1) as nat),
            forall|j: int| 0 <= j < chain.len() ==> #[trigger] chain@[j] == nth_ancestor(tile, (tile.lod - j) as nat),
        decreases n - chain.len(),
    {
        let k = n - 1 - chain.len();
        chain.push(upward[k]);
    }
    assert(chain@ =~= spec_ancestor_chain(tile));
    chain
}

/// The tile and its ancestors, finest first: entry `i` is `i` levels above the tile.
pub open spec fn spec_height_source_candidates(tile: TileCoordinate) -> Seq<TileCoordinate> {
    Seq::new((tile.lod + 1) as nat, |i: int| nth_ancestor(tile, i as nat))
}

/// The tile and its ancestors, finest first, as a derived height tile looks for its source.
pub fn height_source_candidates(tile: TileCoordinate) -> (candidates: Vec<TileCoordinate>)
    ensures
        candidates@ == spec_height_source_candidates(tile),
{
    let mut candidates: Vec<TileCoordinate> = Vec::new();
    let mut current = tile;
    candidates.push(current);
    while current.lod > 0
        invariant
            1 <= candidates.len() <= tile.lod + 1,
            current == nth_ancestor(tile, (candidates.len() - 1) as nat),
            current.lod == tile.lod - (candidates.len() - 1),
            forall|j: int| 0 <= j < candidates.len() ==> #[trigger] candidates@[j] == nth_ancestor(tile, j as nat),
        decreases current.lod,
    {
        let parent = match current.parent() {
            Some(p) => p,
            None => current,
        };
        candidates.push(parent);
        current = parent;
    }
    assert(candidates@ =~= spec_height_source_candidates(tile));
    candidates
}

/// A request with only its tile replaced.
pub open spec fn spec_with_coordinate(r: StreamingTileRequestView, coordinate: TileCoordinate) -> StreamingTileRequestView {
    StreamingTileRequestView { coordinate, ..r }
}

/// The same request for another tile.
pub fn request_with_coordinate(request: &StreamingTileRequest, coordinate: TileCoordinate) -> (r: StreamingTileRequest)
    ensures
        r@ == spec_with_coordinate(request@, coordinate),
{
    StreamingTileRequest {
        terrain_path: request.terrain_path.clone(),
        attachment_label: request.attachment_label.duplicate(),
        attachment_config: AttachmentConfig {
            texture_size: request.attachment_config.texture_size,
            border_size: request.attachment_config.border_size,
            mip_level_count: request.attachment_config.mip_level_count,
            mask: request.attachment_config.mask,
            format: request.attachment_config.format,
        },
        coordinate,
        terrain_shape: request.terrain_shape,
        terrain_lod_count: request.terrain_lod_count,
        priority: request.priority,
    }
}

/// The height request that accompanies an imagery request when height is derived locally:
/// same terrain, tile and texture layout, height label, no mask, 32-bit float texels.
pub open spec fn spec_derived_height_request(r: StreamingTileRequestView) -> StreamingTileRequestView {
    StreamingTileRequestView {
        attachment_label: AttachmentLabelView::Height,
        attachment_config: AttachmentConfig {
            texture_size: r.attachment_config.texture_size,
            border_size: r.attachment_config.border_size,
            mip_level_count: r.attachment_config.mip_level_count,
            mask: false,
            format: AttachmentFormat::R32F,
        },
        ..r
    }
}

/// The locally derived height request that accompanies an imagery request.
pub fn derived_height_request(request: &StreamingTileRequest) -> (r: StreamingTileRequest)
    ensures
        r@ == spec_derived_height_request(request@),
{
    StreamingTileRequest {
        terrain_path: request.terrain_path.clone(),
        attachment_label: AttachmentLabel::Height,
        attachment_config: AttachmentConfig {
            texture_size: request.attachment_config.texture_size,
            border_size: request.attachment_config.border_size,
            mip_level_count: request.attachment_config.mip_level_count,
            mask: false,
            format: AttachmentFormat::R32F,
        },
        coordinate: request.coordinate,
        terrain_shape: request.terrain_shape,
        terrain_lod_count: request.terrain_lod_count,
        priority: request.priority,
    }
}

/// One step of an imagery job.
#[derive(Debug)]
pub enum ImageryStep {
    /// Make sure local height exists for this height request, deriving it when it does not.
    EnsureDerivedHeight(StreamingTileRequest),
    /// Fetch this imagery request from the provider into the cache.
    Fetch(StreamingTileRequest),
}

/// The content of a step.
pub enum ImageryStepView {
    EnsureDerivedHeight(StreamingTileRequestView),
    Fetch(StreamingTileRequestView),
}

impl View for ImageryStep {
    type V = ImageryStepView;

    open spec fn view(&self) -> ImageryStepView {
        match self {
            ImageryStep::EnsureDerivedHeight(r) => ImageryStepView::EnsureDerivedHeight(r@),
            ImageryStep::Fetch(r) => ImageryStepView::Fetch(r@),
        }
    }
}

/// The steps for one imagery tile: when height is not streamed, local height for the tile
/// first; then the tile itself.
pub open spec fn spec_tile_steps(r: StreamingTileRequestView, stream_height: bool) -> Seq<ImageryStepView> {
    if stream_height {
        seq![ImageryStepView::Fetch(r)]
    } else {
        seq![ImageryStepView::EnsureDerivedHeight(spec_derived_height_request(r)), ImageryStepView::Fetch(r)]
    }
}

/// The steps for the first `n` ancestors (coarsest first) that are not present locally.
pub open spec fn spec_ancestor_steps(
    r: StreamingTileRequestView,
    stream_height: bool,
    ancestor_present: Seq<bool>,
    n: nat,
) -> Seq<ImageryStepView>
    decreases n,
{
    if n == 0 {
        Seq::empty()
    } else {
        let before = spec_ancestor_steps(r, stream_height, ancestor_present, (n - 1) as nat);
        if ancestor_present[n - 1] {
            before
        } else {
            before + spec_tile_steps(
                spec_with_coordinate(r, spec_ancestor_chain(r.coordinate)[n - 1]),
                stream_height,
            )
        }
    }
}

/// All steps of an imagery job: the missing ancestors coarsest first, then the tile.
pub open spec fn spec_imagery_plan(
    r: StreamingTileRequestView,
    stream_height: bool,
    ancestor_present: Seq<bool>,
) -> Seq<ImageryStepView> {
    spec_ancestor_steps(r, stream_height, ancestor_present, r.coordinate.lod as nat) + spec_tile_steps(
        r,
        stream_height,
    )
}

/// The request a step is about.
pub open spec fn step_request(s: ImageryStepView) -> StreamingTileRequestView {
    match s {
        ImageryStepView::EnsureDerivedHeight(r) => r,
        ImageryStepView::Fetch(r) => r,
    }
}

proof fn lemma_ancestor_steps_ordered(
    r: StreamingTileRequestView,
    stream_height: bool,
    ancestor_present: Seq<bool>,
    n: nat,
)
    requires
        n <= r.coordinate.lod,
        ancestor_present.len() == r.coordinate.lod,
    ensures
        ({
            let steps = spec_ancestor_steps(r, stream_height, ancestor_present, n);
            &&& forall|i: int| 0 <= i < steps.len() ==> (#[trigger] step_request(steps[i])).coordinate.lod < n
            &&& forall|i: int, j: int|
                0 <= i < j < steps.len() && steps[i] is Fetch && steps[j] is Fetch ==> (#[trigger] step_request(
                    steps[i],
                )).coordinate.lod < (#[trigger] step_request(steps[j])).coordinate.lod
            &&& forall|k: int|
                0 <= k < n && !ancestor_present[k] ==> steps.contains(
                    ImageryStepView::Fetch(spec_with_coordinate(r, #[trigger] spec_ancestor_chain(r.coordinate)[k])),
                )
        }),
    decreases n,
{
    lemma_ancestor_chain_is_linked(r.coordinate);
    if n > 0 {
        let m = (n - 1) as nat;
        lemma_ancestor_steps_ordered(r, stream_height, ancestor_present, m);
        let before = spec_ancestor_steps(r, stream_height, ancestor_present, m);
        let steps = spec_ancestor_steps(r, stream_height, ancestor_present, n);
        let a = spec_with_coordinate(r, spec_ancestor_chain(r.coordinate)[m as int]);
        assert(spec_ancestor_chain(r.coordinate)[m as int].lod == m);
        if !ancestor_present[m as int] {
            let tail = spec_tile_steps(a, stream_height);
            assert(steps == before + tail);
            assert forall|i: int| 0 <= i < steps.len() implies (#[trigger] step_request(steps[i])).coordinate.lod < n by {
                if i < before.len() {
                    assert(steps[i] == before[i]);
                } else {
                    assert(steps[i] == tail[i - before.len()]);
                }
            }
            assert forall|i: int, j: int|
                0 <= i < j < steps.len() && steps[i] is Fetch && steps[j] is Fetch implies (#[trigger] step_request(
                    steps[i],
                )).coordinate.lod < (#[trigger] step_request(steps[j])).coordinate.lod by {
                if j < before.len() {
                    assert(steps[i] == before[i]);
                    assert(steps[j] == before[j]);
                } else if i < before.len() {
                    assert(steps[i] == before[i]);
                    assert(step_request(before[i]).coordinate.lod < m);
                    assert(steps[j] == tail[j - before.len()]);
                } else {
                    assert(steps[i] == tail[i - before.len()]);
                    assert(steps[j] == tail[j - before.len()]);
                }
            }
            assert forall|k: int|
                0 <= k < n && !ancestor_present[k] implies steps.contains(
                ImageryStepView::Fetch(spec_with_coordinate(r, #[trigger] spec_ancestor_chain(r.coordinate)[k])),
            ) by {
                if k < m {
                    let x = ImageryStepView::Fetch(spec_with_coordinate(r, spec_ancestor_chain(r.coordinate)[k]));
                    assert(before.contains(x));
                    let w = choose|w: int| 0 <= w < before.len() && before[w] == x;
                    assert(steps[w] == x);
                } else {
                    let last = steps.len() - 1;
                    assert(steps[last] == tail[tail.len() - 1]);
                }
            }
        } else {
            assert(steps == before);
        }
    }
}

/// An imagery plan ends with the tile itself, fetches every ancestor that is missing
/// locally, and fetches coarser tiles before finer ones: of two fetches, the earlier one is
/// on a coarser level.
pub proof fn lemma_imagery_plan_fetches_coarsest_first(
    r: StreamingTileRequestView,
    stream_height: bool,
    ancestor_present: Seq<bool>,
)
    requires
        ancestor_present.len() == r.coordinate.lod,
    ensures
        ({
            let plan = spec_imagery_plan(r, stream_height, ancestor_present);
            &&& plan.len() > 0
            &&& plan.last() == ImageryStepView::Fetch(r)
            &&& forall|i: int, j: int|
                0 <= i < j < plan.len() && plan[i] is Fetch && plan[j] is Fetch ==> (#[trigger] step_request(
                    plan[i],
                )).coordinate.lod < (#[trigger] step_request(plan[j])).coordinate.lod
            &&& forall|k: int|
                0 <= k < r.coordinate.lod && !ancestor_present[k] ==> plan.contains(
                    ImageryStepView::Fetch(spec_with_coordinate(r, #[trigger] spec_ancestor_chain(r.coordinate)[k])),
                )
        }),
{
    let n = r.coordinate.lod as nat;
    lemma_ancestor_steps_ordered(r, stream_height, ancestor_present, n);
    let before = spec_ancestor_steps(r, stream_height, ancestor_present, n);
    let tail = spec_tile_steps(r, stream_height);
    let plan = spec_imagery_plan(r, stream_height, ancestor_present);
    assert(plan == before + tail);
    assert(plan[plan.len() - 1] == tail[tail.len() - 1]);
    assert forall|i: int, j: int|
        0 <= i < j < plan.len() && plan[i] is Fetch && plan[j] is Fetch implies (#[trigger] step_request(
            plan[i],
        )).coordinate.lod < (#[trigger] step_request(plan[j])).coordinate.lod by {
        if j < before.len() {
            assert(plan[i] == before[i]);
            assert(plan[j] == before[j]);
        } else if i < before.len() {
            assert(plan[i] == before[i]);
            assert(step_request(before[i]).coordinate.lod < n);
            assert(plan[j] == tail[j - before.len()]);
        } else {
            assert(plan[i] == tail[i - before.len()]);
            assert(plan[j] == tail[j - before.len()]);
        }
    }
    assert forall|k: int|
        0 <= k < r.coordinate.lod && !ancestor_present[k] implies plan.contains(
        ImageryStepView::Fetch(spec_with_coordinate(r, #[trigger] spec_ancestor_chain(r.coordinate)[k])),
    ) by {
        let x = ImageryStepView::Fetch(spec_with_coordinate(r, spec_ancestor_chain(r.coordinate)[k]));
        assert(before.contains(x));
        let w = choose|w: int| 0 <= w < before.len() && before[w] == x;
        assert(plan[w] == x);
    }
}

/// The views of steps.
pub open spec fn step_views(steps: Seq<ImageryStep>) -> Seq<ImageryStepView> {
    steps.map_values(|s: ImageryStep| s@)
}

fn push_tile_steps(steps: &mut Vec<ImageryStep>, request: StreamingTileRequest, stream_height: bool)
    ensures
        step_views(final(steps)@) == step_views(old(steps)@) + spec_tile_steps(request@, stream_height),
{
    let ghost r = request@;
    if !stream_height {
        let height = derived_height_request(&request);
        steps.push(ImageryStep::EnsureDerivedHeight(height));
    }
    steps.push(ImageryStep::Fetch(request));
    assert(step_views(steps@) =~= step_views(old(steps)@) + spec_tile_steps(r, stream_height));
}

/// The steps of an imagery job, given which ancestors of the tile (coarsest first) are
/// already present locally: every missing ancestor is fetched, coarsest first, before the
/// tile; when height is not streamed, local height is ensured before each fetch.
pub fn plan_imagery_fetch(
    request: &StreamingTileRequest,
    stream_height: bool,
    ancestor_present: &Vec<bool>,
) -> (steps: Vec<ImageryStep>)
    requires
        ancestor_present.len() == request.coordinate.lod,
    ensures
        step_views(steps@) == spec_imagery_plan(request@, stream_height, ancestor_present@),
{
    let chain = ancestor_chain(request.coordinate);
    let mut steps: Vec<ImageryStep> = Vec::new();
    let mut i: usize = 0;
    while i < chain.len()
        invariant
            chain@ == spec_ancestor_chain(request.coordinate),
            ancestor_present.len() == chain.len(),
            i <= chain.len(),
            step_views(steps@) == spec_ancestor_steps(request@, stream_height, ancestor_present@, i as nat),
        decreases chain.len() - i,
    {
        if !ancestor_present[i] {
            let ancestor = request_with_coordinate(request, chain[i]);
            push_tile_steps(&mut steps, ancestor, stream_height);
        }
        i = i + 1;
    }
    let own = request.duplicate();
    push_tile_steps(&mut steps, own, stream_height);
    steps
}

/// The error for a derived height request whose label is not height or whose texels are not
/// 32-bit floats, if any.
pub open spec fn spec_derived_height_request_error(r: StreamingTileRequestView) -> Option<StreamingTaskErrorView> {
    if !(r.attachment_label is Height) {
        Some(StreamingTaskErrorView::UnsupportedAttachment(r.attachment_label))
    } else if r.attachment_config.format != AttachmentFormat::R32F {
        Some(
            StreamingTaskErrorView::Provider(
                StreamingProviderErrorView::Unsupported("derived local height currently requires R32F attachments"@),
            ),
        )
    } else {
        None
    }
}

/// Picks the tile a derived height tile is computed from: the finest of the tile and its
/// ancestors (`present[i]` tells whether the height tile `i` levels up exists locally).
/// Fails for a request that is not a 32-bit float height request, and when no candidate is
/// present.
pub fn select_height_source(request: &StreamingTileRequest, present: &Vec<bool>) -> (r: Result<TileCoordinate, StreamingTaskError>)
    requires
        present.len() == request.coordinate.lod + 1,
    ensures
        spec_derived_height_request_error(request@) matches Some(e) ==> r matches Err(err) && err@ == e,
        spec_derived_height_request_error(request@) is None ==> match r {
            Ok(t) => exists|i: int|
                #![trigger nth_ancestor(request.coordinate, i as nat)]
                0 <= i < present.len() && present@[i] && (forall|j: int| 0 <= j < i ==> !present@[j]) && t
                    == nth_ancestor(request.coordinate, i as nat),
            Err(err) => (forall|i: int| 0 <= i < present.len() ==> !present@[i]) && err@
                == StreamingTaskErrorView::Provider(
                StreamingProviderErrorView::Unavailable(
                    "no local ancestor height tile was available for derived imagery-only refinement"@,
                ),
            ),
        },
{
    if !request.attachment_label.is_height() {
        return Err(StreamingTaskError::UnsupportedAttachment(request.attachment_label.duplicate()));
    }
    if request.attachment_config.format != AttachmentFormat::R32F {
        return Err(
            StreamingTaskError::Provider(
                StreamingProviderError::Unsupported(
                    String::from_str("derived local height currently requires R32F attachments"),
                ),
            ),
        );
    }
    let candidates = height_source_candidates(request.coordinate);
    let mut i: usize = 0;
    while i < present.len()
        invariant
            spec_derived_height_request_error(request@) is None,
            candidates@ == spec_height_source_candidates(request.coordinate),
            present.len() == candidates.len(),
            i <= present.len(),
            forall|j: int| 0 <= j < i ==> !present@[j],
        decreases present.len() - i,
    {
        if present[i] {
            assert(0 <= i < present.len() && present@[i as int] && (forall|j: int| 0 <= j < i ==> !present@[j])
                && candidates@[i as int] == nth_ancestor(request.coordinate, i as nat));
            return Ok(candidates[i]);
        }
        i = i + 1;
    }
    Err(
        StreamingTaskError::Provider(
            StreamingProviderError::Unavailable(
                String::from_str("no local ancestor height tile was available for derived imagery-only refinement"),
            ),
        ),
    )
}

/// Rejects a local ancestor height tile that is not square.
pub fn check_square_height_tile(width: u32, height: u32) -> (r: Result<(), StreamingProviderError>)
    ensures
        width == height <==> r is Ok,
        r matches Err(e) ==> e@ == StreamingProviderErrorView::Permanent(
            "non-square local ancestor height tile "@ + decimal(width as nat) + seq!['x'] + decimal(height as nat),
        ),
{
    if width == height {
        return Ok(());
    }
    let mut message = String::from_str("non-square local ancestor height tile ");
    push_decimal(&mut message, width as u64);
    push_char(&mut message, 'x');
    push_decimal(&mut message, height as u64);
    assert(message@ =~= "non-square local ancestor height tile "@ + decimal(width as nat) + seq!['x'] + decimal(
        height as nat,
    ));
    Err(StreamingProviderError::Permanent(message))
}

/// How a child height tile sits inside the ancestor it is derived from, in texels and tiles.
#[derive(Clone, Copy, Debug, PartialEq, Eq, Structural)]
pub struct ChildHeightPlacement {
    /// Texture size of the child, border included.
    pub target_size: u32,
    pub target_border: u32,
    /// Texture size of the child without its borders.
    pub target_center: u32,
    pub source_border: u32,
    /// Texture size of the ancestor without its borders.
    pub source_center: u32,
    /// How many levels the child lies below the ancestor.
    pub lod_delta: u32,
    /// How many child tiles span the ancestor along each axis.
    pub descendant_scale: u32,
    /// The child's position inside the ancestor, in child tiles.
    pub relative_x: i32,
    pub relative_y: i32,
}

/// The placement of a child tile inside an ancestor tile of `source_texture_size` texels
/// with `source_border_size` border texels. Fails when either texture is empty.
pub fn plan_child_height_tile(
    request: &StreamingTileRequest,
    source_coordinate: TileCoordinate,
    source_texture_size: u32,
    source_border_size: u32,
) -> (r: Result<ChildHeightPlacement, StreamingProviderError>)
    requires
        2 * request.attachment_config.border_size <= request.attachment_config.texture_size,
        2 * source_border_size <= source_texture_size,
        request.coordinate.lod - source_coordinate.lod < 32,
        i32::MIN <= request.coordinate.xy.x - (source_coordinate.xy.x << (if request.coordinate.lod > source_coordinate.lod {
            (request.coordinate.lod - source_coordinate.lod) as u32
        } else {
            0u32
        })) <= i32::MAX,
        i32::MIN <= request.coordinate.xy.y - (source_coordinate.xy.y << (if request.coordinate.lod > source_coordinate.lod {
            (request.coordinate.lod - source_coordinate.lod) as u32
        } else {
            0u32
        })) <= i32::MAX,
    ensures
        (source_texture_size == 0 || request.attachment_config.texture_size == 0) <==> r is Err,
        r matches Err(e) ==> e@ == StreamingProviderErrorView::Permanent(
            "derived local height encountered an empty texture"@,
        ),
        r matches Ok(p) ==> {
            let delta = if request.coordinate.lod > source_coordinate.lod {
                (request.coordinate.lod - source_coordinate.lod) as u32
            } else {
                0u32
            };
            &&& p.target_size == request.attachment_config.texture_size
            &&& p.target_border == request.attachment_config.border_size
            &&& p.target_center == request.attachment_config.texture_size - 2 * request.attachment_config.border_size
            &&& p.source_border == source_border_size
            &&& p.source_center == source_texture_size - 2 * source_border_size
            &&& p.lod_delta == delta
            &&& p.descendant_scale == 1u32 << delta
            &&& p.relative_x == request.coordinate.xy.x - (source_coordinate.xy.x << delta)
            &&& p.relative_y == request.coordinate.xy.y - (source_coordinate.xy.y << delta)
        },
{
    let target_size = request.attachment_config.texture_size;
    let target_border = request.attachment_config.border_size;
    let target_center = request.attachment_config.center_size();
    let source_center = source_texture_size - 2 * source_border_size;
    if source_texture_size == 0 || target_size == 0 {
        return Err(
            StreamingProviderError::Permanent(String::from_str("derived local height encountered an empty texture")),
        );
    }
    let lod_delta = request.coordinate.lod.saturating_sub(source_coordinate.lod);
    let descendant_scale = 1u32 << lod_delta;
    let relative_x = request.coordinate.xy.x - (source_coordinate.xy.x << lod_delta);
    let relative_y = request.coordinate.xy.y - (source_coordinate.xy.y << lod_delta);
    Ok(
        ChildHeightPlacement {
            target_size,
            target_border,
            target_center,
            source_border: source_border_size,
            source_center,
            lod_delta,
            descendant_scale,
            relative_x,
            relative_y,
        },
    )
}

/// The sidecar metadata of a height tile derived locally from `source_coordinate`, taken from
/// the cache or the starter dataset.
pub open spec fn spec_derived_height_metadata(
    r: StreamingTileRequestView,
    source_kind: LocalTileSourceKind,
    source_coordinate: TileCoordinate,
    fetched_at_unix_ms: u64,
) -> CachedTileMetadataView {
    CachedTileMetadataView {
        format_version: CURRENT_STREAMING_CACHE_FORMAT_VERSION,
        terrain_path: r.terrain_path,
        attachment_label: r.attachment_label,
        coordinate: r.coordinate,
        source: StreamingSourceDescriptorView {
            source_id: match source_kind {
                LocalTileSourceKind::StreamingCache => "local/derived_height_from_cache"@,
                LocalTileSourceKind::StarterDataset => "local/derived_height_from_starter"@,
            },
            source_kind: match source_kind {
                LocalTileSourceKind::StreamingCache => StreamingSourceKindView::LocalCache,
                LocalTileSourceKind::StarterDataset => StreamingSourceKindView::LocalStarter,
            },
            attachment_kind: StreamedAttachmentKindView::Height,
        },
        fetched_at_unix_ms,
        expires_at_unix_ms: None,
        source_zoom: Some(source_coordinate.lod),
        source_revision: Some(tile_name(source_coordinate)),
        source_content_hash: None,
        source_crs: None,
        encoding: CacheTileEncodingView::Tiff,
    }
}

/// The sidecar metadata of a locally derived height tile.
pub fn derived_height_metadata(
    request: &StreamingTileRequest,
    source_kind: LocalTileSourceKind,
    source_coordinate: TileCoordinate,
    fetched_at_unix_ms: u64,
) -> (m: CachedTileMetadata)
    ensures
        m@ == spec_derived_height_metadata(request@, source_kind, source_coordinate, fetched_at_unix_ms),
{
    let source_id = match source_kind {
        LocalTileSourceKind::StreamingCache => String::from_str("local/derived_height_from_cache"),
        LocalTileSourceKind::StarterDataset => String::from_str("local/derived_height_from_starter"),
    };
    let kind = match source_kind {
        LocalTileSourceKind::StreamingCache => StreamingSourceKind::LocalCache,
        LocalTileSourceKind::StarterDataset => StreamingSourceKind::LocalStarter,
    };
    CachedTileMetadata {
        format_version: CURRENT_STREAMING_CACHE_FORMAT_VERSION,
        terrain_path: request.terrain_path.clone(),
        attachment_label: request.attachment_label.duplicate(),
        coordinate: request.coordinate,
        source: StreamingSourceDescriptor {
            source_id,
            source_kind: kind,
            attachment_kind: StreamedAttachmentKind::Height,
        },
        fetched_at_unix_ms,
        expires_at_unix_ms: None,
        source_zoom: Some(source_coordinate.lod),
        source_revision: Some(source_coordinate.name()),
        source_content_hash: None,
        source_crs: None,
        encoding: CacheTileEncoding::Tiff,
    }
}

} // verus!
