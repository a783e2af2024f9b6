//! The streaming request queue: which requested tiles are fetched, in which order, and what
//! is dropped when the queue is full.

use vstd::prelude::*;
use crate::coordinate::{AttachmentLabel, AttachmentLabelView, TileCoordinate, is_albedo};
use crate::source_contract::{
    StreamingRequestPriority, StreamingTileRequest, StreamingTileRequestView, spec_priority_rank,
};

verus! {

/// Whether and how much the renderer streams.
#[derive(Clone, Copy, Debug, PartialEq, Eq, Structural)]
pub struct TerrainStreamingSettings {
    pub offline_only: bool,
    pub stream_imagery: bool,
    pub stream_height: bool,
    pub max_pending_requests: usize,
    pub max_inflight_requests: usize,
}

impl Default for TerrainStreamingSettings {
    /// Offline: nothing is streamed until a caller opts in.
    fn default() -> (s: TerrainStreamingSettings)
        ensures
            s == (TerrainStreamingSettings {
                offline_only: true,
                stream_imagery: true,
                stream_height: false,
                max_pending_requests: 1024,
                max_inflight_requests: 4,
            }),
    {
        TerrainStreamingSettings {
            offline_only: true,
            stream_imagery: true,
            stream_height: false,
            max_pending_requests: 1024,
            max_inflight_requests: 4,
        }
    }
}

impl TerrainStreamingSettings {
    /// Stream imagery, keep height local.
    pub fn online_imagery() -> (s: TerrainStreamingSettings)
        ensures
            s == (TerrainStreamingSettings {
                offline_only: false,
                stream_imagery: true,
                stream_height: false,
                max_pending_requests: 1024,
                max_inflight_requests: 4,
            }),
    {
        TerrainStreamingSettings {
            offline_only: false,
            stream_imagery: true,
            stream_height: false,
            max_pending_requests: 1024,
            max_inflight_requests: 4,
        }
    }

    /// Stream imagery and height.
    pub fn online_imagery_and_height() -> (s: TerrainStreamingSettings)
        ensures
            s == (TerrainStreamingSettings {
                offline_only: false,
                stream_imagery: true,
                stream_height: true,
                max_pending_requests: 1024,
                max_inflight_requests: 4,
            }),
    {
        TerrainStreamingSettings {
            offline_only: false,
            stream_imagery: true,
            stream_height: true,
            max_pending_requests: 1024,
            max_inflight_requests: 4,
        }
    }

    pub fn with_max_pending_requests(self, max_pending_requests: usize) -> (s: TerrainStreamingSettings)
        ensures
            s == (TerrainStreamingSettings { max_pending_requests, ..self }),
    {
        TerrainStreamingSettings { max_pending_requests, ..self }
    }

    pub fn with_max_inflight_requests(self, max_inflight_requests: usize) -> (s: TerrainStreamingSettings)
        ensures
            s == (TerrainStreamingSettings { max_inflight_requests, ..self }),
    {
        TerrainStreamingSettings { max_inflight_requests, ..self }
    }
}

/// Running totals of what the queue did with requests.
#[derive(Clone, Copy, Debug, PartialEq, Eq, Structural)]
pub struct StreamingQueueStats {
    pub enqueued_total: u64,
    pub deduped_total: u64,
    pub dropped_offline_total: u64,
    pub dropped_policy_total: u64,
    pub dropped_capacity_total: u64,
    pub completed_total: u64,
    pub failed_total: u64,
}

impl Default for StreamingQueueStats {
    fn default() -> (s: StreamingQueueStats)
        ensures
            s == (StreamingQueueStats {
                enqueued_total: 0,
                deduped_total: 0,
                dropped_offline_total: 0,
                dropped_policy_total: 0,
                dropped_capacity_total: 0,
                completed_total: 0,
                failed_total: 0,
            }),
    {
        StreamingQueueStats {
            enqueued_total: 0,
            deduped_total: 0,
            dropped_offline_total: 0,
            dropped_policy_total: 0,
            dropped_capacity_total: 0,
            completed_total: 0,
            failed_total: 0,
        }
    }
}

/// All totals zero.
pub open spec fn zero_stats() -> StreamingQueueStats {
    StreamingQueueStats {
        enqueued_total: 0,
        deduped_total: 0,
        dropped_offline_total: 0,
        dropped_policy_total: 0,
        dropped_capacity_total: 0,
        completed_total: 0,
        failed_total: 0,
    }
}

/// A request waiting in the queue, with its arrival number and attachment class.
#[derive(Clone, Debug)]
pub struct QueuedStreamingRequest {
    pub request: StreamingTileRequest,
    pub sequence: u64,
    pub priority_class: u8,
}

pub struct QueuedStreamingRequestView {
    pub request: StreamingTileRequestView,
    pub sequence: u64,
    pub priority_class: u8,
}

impl View for QueuedStreamingRequest {
    type V = QueuedStreamingRequestView;

    open spec fn view(&self) -> QueuedStreamingRequestView {
        QueuedStreamingRequestView {
            request: self.request@,
            sequence: self.sequence,
            priority_class: self.priority_class,
        }
    }
}

/// What identifies a request: two requests with the same key are the same work.
struct StreamingRequestKey {
    terrain_path: String,
    attachment_label: AttachmentLabel,
    coordinate: TileCoordinate,
}

pub struct StreamingRequestKeyView {
    pub terrain_path: Seq<char>,
    pub attachment_label: AttachmentLabelView,
    pub coordinate: TileCoordinate,
}

impl View for StreamingRequestKey {
    type V = StreamingRequestKeyView;

    closed spec fn view(&self) -> StreamingRequestKeyView {
        StreamingRequestKeyView {
            terrain_path: self.terrain_path@,
            attachment_label: self.attachment_label@,
            coordinate: self.coordinate,
        }
    }
}

/// The key of a request: terrain, attachment and tile.
pub open spec fn request_key(r: StreamingTileRequestView) -> StreamingRequestKeyView {
    StreamingRequestKeyView {
        terrain_path: r.terrain_path,
        attachment_label: r.attachment_label,
        coordinate: r.coordinate,
    }
}

impl StreamingRequestKey {
    fn from_request(request: &StreamingTileRequest) -> (k: StreamingRequestKey)
        ensures
            k@ == request_key(request@),
    {
        StreamingRequestKey {
            terrain_path: request.terrain_path.clone(),
            attachment_label: request.attachment_label.duplicate(),
            coordinate: request.coordinate,
        }
    }

    fn matches(&self, request: &StreamingTileRequest) -> (r: bool)
        ensures
            r == (self@ == request_key(request@)),
    {
        self.terrain_path == request.terrain_path && self.attachment_label.same_as(
            &request.attachment_label,
        ) && self.coordinate == request.coordinate
    }
}

/// Imagery (`albedo`) outranks every other attachment when the queue is full.
pub open spec fn spec_attachment_priority(label: AttachmentLabelView) -> u8 {
    if is_albedo(label) {
        1
    } else {
        0
    }
}

/// Whether the settings allow streaming an attachment: height only when height streaming
/// is on, `albedo` only when imagery streaming is on, nothing else.
pub open spec fn spec_streaming_allowed_for(
    label: AttachmentLabelView,
    settings: TerrainStreamingSettings,
) -> bool {
    match label {
        AttachmentLabelView::Height => settings.stream_height,
        AttachmentLabelView::Custom(_) => is_albedo(label) && settings.stream_imagery,
        AttachmentLabelView::Empty(_) => false,
    }
}

pub fn attachment_priority(attachment_label: &AttachmentLabel) -> (p: u8)
    ensures
        p == spec_attachment_priority(attachment_label@),
{
    if attachment_label.is_albedo() {
        1
    } else {
        0
    }
}

pub fn streaming_allowed_for(
    attachment_label: &AttachmentLabel,
    settings: &TerrainStreamingSettings,
) -> (allowed: bool)
    ensures
        allowed == spec_streaming_allowed_for(attachment_label@, *settings),
{
    match attachment_label {
        AttachmentLabel::Height => settings.stream_height,
        AttachmentLabel::Custom(_) => attachment_label.is_albedo() && settings.stream_imagery,
        AttachmentLabel::Empty(_) => false,
    }
}

/// `a` is served before `b`: compared by request priority, then attachment class, then
/// level of detail (finer first), then arrival (later first).
pub open spec fn priority_above(a: QueuedStreamingRequestView, b: QueuedStreamingRequestView) -> bool {
    let (ap, bp) = (spec_priority_rank(a.request.priority), spec_priority_rank(b.request.priority));
    if ap != bp {
        ap > bp
    } else if a.priority_class != b.priority_class {
        a.priority_class > b.priority_class
    } else if a.request.coordinate.lod != b.request.coordinate.lod {
        a.request.coordinate.lod > b.request.coordinate.lod
    } else {
        a.sequence > b.sequence
    }
}

fn queued_above(a: &QueuedStreamingRequest, b: &QueuedStreamingRequest) -> (r: bool)
    ensures
        r == priority_above(a@, b@),
{
    let ap = a.request.priority.rank();
    let bp = b.request.priority.rank();
    if ap != bp {
        ap > bp
    } else if a.priority_class != b.priority_class {
        a.priority_class > b.priority_class
    } else if a.request.coordinate.lod != b.request.coordinate.lod {
        a.request.coordinate.lod > b.request.coordinate.lod
    } else {
        a.sequence > b.sequence
    }
}

/// Ranking is transitive.
pub proof fn lemma_priority_above_transitive(
    a: QueuedStreamingRequestView,
    b: QueuedStreamingRequestView,
    c: QueuedStreamingRequestView,
)
    requires
        priority_above(a, b),
        priority_above(b, c),
    ensures
        priority_above(a, c),
{
}

/// Of two queued requests with different arrival numbers, exactly one ranks above the other.
pub proof fn lemma_priority_above_total(a: QueuedStreamingRequestView, b: QueuedStreamingRequestView)
    requires
        a.sequence != b.sequence,
    ensures
        priority_above(a, b) != priority_above(b, a),
{
}

/// The queue's content: the requests waiting to be fetched, the keys of requests being
/// fetched, the next arrival number and the running totals.
pub struct StreamingQueueView {
    pub pending: Seq<QueuedStreamingRequestView>,
    pub inflight: Seq<StreamingRequestKeyView>,
    pub next_sequence: u64,
    pub stats: StreamingQueueStats,
}

/// Some pending request has this key.
pub open spec fn pending_has_key(pending: Seq<QueuedStreamingRequestView>, key: StreamingRequestKeyView) -> bool {
    exists|i: int| 0 <= i < pending.len() && request_key(#[trigger] pending[i].request) == key
}

/// `pending[i]` is served after every other pending request.
pub open spec fn is_lowest(pending: Seq<QueuedStreamingRequestView>, i: int) -> bool {
    &&& 0 <= i < pending.len()
    &&& forall|j: int| 0 <= j < pending.len() && j != i ==> priority_above(#[trigger] pending[j], pending[i])
}

/// The queue invariant: no key is pending twice, in flight twice, or both pending and in
/// flight; pending requests carry distinct arrival numbers below the next one.
pub open spec fn queue_well_formed(q: StreamingQueueView) -> bool {
    &&& forall|i: int, j: int|
        0 <= i < q.pending.len() && 0 <= j < q.pending.len() && i != j ==> request_key(
            #[trigger] q.pending[i].request,
        ) != request_key(#[trigger] q.pending[j].request)
    &&& forall|i: int, j: int|
        0 <= i < q.pending.len() && 0 <= j < q.pending.len() && i != j ==> (#[trigger] q.pending[i]).sequence
            != (#[trigger] q.pending[j]).sequence
    &&& forall|i: int| 0 <= i < q.pending.len() ==> (#[trigger] q.pending[i]).sequence < q.next_sequence
    &&& forall|i: int, j: int|
        0 <= i < q.inflight.len() && 0 <= j < q.inflight.len() && i != j ==> #[trigger] q.inflight[i]
            != #[trigger] q.inflight[j]
    &&& forall|i: int, j: int|
        0 <= i < q.pending.len() && 0 <= j < q.inflight.len() ==> request_key(
            #[trigger] q.pending[i].request,
        ) != #[trigger] q.inflight[j]
}

/// The counter that offering `r` to `q` bumps is below its maximum, and so is the next
/// arrival number when `r` is accepted.
pub open spec fn enqueue_has_room(q: StreamingQueueView, r: StreamingTileRequestView, settings: TerrainStreamingSettings) -> bool {
    let key = request_key(r);
    if settings.offline_only {
        q.stats.dropped_offline_total < u64::MAX
    } else if !spec_streaming_allowed_for(r.attachment_label, settings) {
        q.stats.dropped_policy_total < u64::MAX
    } else if pending_has_key(q.pending, key) || q.inflight.contains(key) {
        q.stats.deduped_total < u64::MAX
    } else {
        let new = QueuedStreamingRequestView {
            request: r,
            sequence: q.next_sequence,
            priority_class: spec_attachment_priority(r.attachment_label),
        };
        if q.pending.len() >= settings.max_pending_requests && q.pending.len() > 0 && !priority_above(
            new,
            q.pending[choose|i: int| is_lowest(q.pending, i)],
        ) {
            q.stats.dropped_capacity_total < u64::MAX
        } else {
            q.stats.enqueued_total < u64::MAX && q.next_sequence < u64::MAX
        }
    }
}

/// The outcome of offering a request to the queue: the new queue and whether the request
/// was accepted. Offline mode, the attachment policy, an identical pending or in-flight
/// request, or a full queue whose lowest request outranks this one drop it (each counted);
/// otherwise it is added with the next arrival number, evicting the lowest pending request
/// when the queue is full.
pub open spec fn spec_enqueue(
    q: StreamingQueueView,
    r: StreamingTileRequestView,
    settings: TerrainStreamingSettings,
) -> (StreamingQueueView, bool) {
    let key = request_key(r);
    if settings.offline_only {
        (
            StreamingQueueView {
                stats: StreamingQueueStats {
                    dropped_offline_total: (q.stats.dropped_offline_total + 1) as u64,
                    ..q.stats
                },
                ..q
            },
            false,
        )
    } else if !spec_streaming_allowed_for(r.attachment_label, settings) {
        (
            StreamingQueueView {
                stats: StreamingQueueStats {
                    dropped_policy_total: (q.stats.dropped_policy_total + 1) as u64,
                    ..q.stats
                },
                ..q
            },
            false,
        )
    } else if pending_has_key(q.pending, key) || q.inflight.contains(key) {
        (
            StreamingQueueView {
                stats: StreamingQueueStats { deduped_total: (q.stats.deduped_total + 1) as u64, ..q.stats },
                ..q
            },
            false,
        )
    } else {
        let new = QueuedStreamingRequestView {
            request: r,
            sequence: q.next_sequence,
            priority_class: spec_attachment_priority(r.attachment_label),
        };
        let accepted_stats = StreamingQueueStats {
            enqueued_total: (q.stats.enqueued_total + 1) as u64,
            ..q.stats
        };
        if q.pending.len() >= settings.max_pending_requests && q.pending.len() > 0 {
            let lowest = choose|i: int| is_lowest(q.pending, i);
            if priority_above(new, q.pending[lowest]) {
                (
                    StreamingQueueView {
                        pending: q.pending.remove(lowest).push(new),
                        inflight: q.inflight,
                        next_sequence: (q.next_sequence + 1) as u64,
                        stats: accepted_stats,
                    },
                    true,
                )
            } else {
                (
                    StreamingQueueView {
                        stats: StreamingQueueStats {
                            dropped_capacity_total: (q.stats.dropped_capacity_total + 1) as u64,
                            ..q.stats
                        },
                        ..q
                    },
                    false,
                )
            }
        } else {
            (
                StreamingQueueView {
                    pending: q.pending.push(new),
                    inflight: q.inflight,
                    next_sequence: (q.next_sequence + 1) as u64,
                    stats: accepted_stats,
                },
                true,
            )
        }
    }
}

/// The queue of streaming requests waiting for, or being served by, a worker.
pub struct StreamingRequestQueue {
    pending: Vec<QueuedStreamingRequest>,
    inflight: Vec<StreamingRequestKey>,
    next_sequence: u64,
    stats: StreamingQueueStats,
}

impl View for StreamingRequestQueue {
    type V = StreamingQueueView;

    closed spec fn view(&self) -> StreamingQueueView {
        StreamingQueueView {
            pending: self.pending@.map_values(|q: QueuedStreamingRequest| q@),
            inflight: self.inflight@.map_values(|k: StreamingRequestKey| k@),
            next_sequence: self.next_sequence,
            stats: self.stats,
        }
    }
}

impl Default for StreamingRequestQueue {
    /// An empty queue.
    fn default() -> (q: StreamingRequestQueue)
        ensures
            q@.pending.len() == 0,
            q@.inflight.len() == 0,
            q@.next_sequence == 0,
            q@.stats == zero_stats(),
            queue_well_formed(q@),
    {
        let q = StreamingRequestQueue {
            pending: Vec::new(),
            inflight: Vec::new(),
            next_sequence: 0,
            stats: StreamingQueueStats::default(),
        };
        assert(q@.pending =~= Seq::empty());
        assert(q@.inflight =~= Seq::empty());
        q
    }
}

/// At most one index is the lowest when arrival numbers are distinct.
pub proof fn lemma_lowest_unique(pending: Seq<QueuedStreamingRequestView>, i: int, j: int)
    requires
        is_lowest(pending, i),
        is_lowest(pending, j),
    ensures
        i == j,
{
    if i != j {
        assert(priority_above(pending[j], pending[i]));
        assert(priority_above(pending[i], pending[j]));
    }
}

impl StreamingRequestQueue {
    /// The running totals.
    pub fn stats(&self) -> (s: &StreamingQueueStats)
        ensures
            *s == self@.stats,
    {
        &self.stats
    }

    /// How many requests wait to be fetched.
    pub fn pending_count(&self) -> (n: usize)
        ensures
            n == self@.pending.len(),
    {
        self.pending.len()
    }

    /// How many requests are being fetched.
    pub fn inflight_count(&self) -> (n: usize)
        ensures
            n == self@.inflight.len(),
    {
        self.inflight.len()
    }

    fn has_pending_key(&self, request: &StreamingTileRequest) -> (r: bool)
        ensures
            r == pending_has_key(self@.pending, request_key(request@)),
    {
        let mut i: usize = 0;
        while i < self.pending.len()
            invariant
                i <= self.pending.len(),
                forall|k: int| 0 <= k < i ==> request_key(#[trigger] self@.pending[k].request) != request_key(request@),
            decreases self.pending.len() - i,
        {
            if self.pending[i].request.terrain_path == request.terrain_path
                && self.pending[i].request.attachment_label.same_as(&request.attachment_label)
                && self.pending[i].request.coordinate == request.coordinate
            {
                assert(request_key(self@.pending[i as int].request) == request_key(request@));
                return true;
            }
            i = i + 1;
        }
        false
    }

    fn has_inflight_key(&self, request: &StreamingTileRequest) -> (r: bool)
        ensures
            r == self@.inflight.contains(request_key(request@)),
    {
        let mut i: usize = 0;
        while i < self.inflight.len()
            invariant
                i <= self.inflight.len(),
                forall|k: int| 0 <= k < i ==> #[trigger] self@.inflight[k] != request_key(request@),
            decreases self.inflight.len() - i,
        {
            if self.inflight[i].matches(request) {
                assert(self@.inflight[i as int] == request_key(request@));
                return true;
            }
            i = i + 1;
        }
        false
    }

    fn lowest_pending_index(&self) -> (m: usize)
        requires
            queue_well_formed(self@),
            self@.pending.len() > 0,
        ensures
            is_lowest(self@.pending, m as int),
    {
        let ghost p = self@.pending;
        let mut m: usize = 0;
        let mut i: usize = 1;
        while i < self.pending.len()
            invariant
                p == self@.pending,
                queue_well_formed(self@),
                1 <= i <= self.pending.len(),
                m < i,
                forall|k: int| 0 <= k < i && k != m ==> priority_above(#[trigger] p[k], p[m as int]),
            decreases self.pending.len() - i,
        {
            if queued_above(&self.pending[m], &self.pending[i]) {
                assert forall|k: int| 0 <= k < i + 1 && k != i implies priority_above(#[trigger] p[k], p[i as int]) by {
                    if k != m {
                        lemma_priority_above_transitive(p[k], p[m as int], p[i as int]);
                    }
                }
                m = i;
            } else {
                proof {
                    lemma_priority_above_total(p[m as int], p[i as int]);
                }
            }
            i = i + 1;
        }
        m
    }

    /// Offers a request to the queue; returns whether it was accepted.
    #[verifier::rlimit(30)]
    pub fn enqueue(&mut self, request: StreamingTileRequest, settings: &TerrainStreamingSettings) -> (accepted: bool)
        requires
            queue_well_formed(old(self)@),
            enqueue_has_room(old(self)@, request@, *settings),
        ensures
            (final(self)@, accepted) == spec_enqueue(old(self)@, request@, *settings),
            queue_well_formed(final(self)@),
    {
        let ghost q = self@;
        let ghost r = request@;
        if settings.offline_only {
            self.stats.dropped_offline_total = self.stats.dropped_offline_total + 1;
            return false;
        }
        if !streaming_allowed_for(&request.attachment_label, settings) {
            self.stats.dropped_policy_total = self.stats.dropped_policy_total + 1;
            return false;
        }
        if self.has_pending_key(&request) || self.has_inflight_key(&request) {
            self.stats.deduped_total = self.stats.deduped_total + 1;
            return false;
        }
        let sequence = self.next_sequence;
        let priority_class = attachment_priority(&request.attachment_label);
        let queued = QueuedStreamingRequest { request, sequence, priority_class };
        if self.pending.len() >= settings.max_pending_requests && self.pending.len() > 0 {
            let lowest = self.lowest_pending_index();
            proof {
                let chosen = choose|i: int| is_lowest(q.pending, i);
                lemma_lowest_unique(q.pending, chosen, lowest as int);
            }
            if queued_above(&queued, &self.pending[lowest]) {
                self.pending.remove(lowest);
                assert(self@.pending =~= q.pending.remove(lowest as int));
                proof {
                    lemma_remove_preserves_well_formed(q, lowest as int);
                }
            } else {
                self.stats.dropped_capacity_total = self.stats.dropped_capacity_total + 1;
                return false;
            }
        }
        self.push_new(queued);
        true
    }

    fn highest_pending_index(&self) -> (m: usize)
        requires
            queue_well_formed(self@),
            self@.pending.len() > 0,
        ensures
            is_highest(self@.pending, m as int),
    {
        let ghost p = self@.pending;
        let mut m: usize = 0;
        let mut i: usize = 1;
        while i < self.pending.len()
            invariant
                p == self@.pending,
                queue_well_formed(self@),
                1 <= i <= self.pending.len(),
                m < i,
                forall|k: int| 0 <= k < i && k != m ==> priority_above(p[m as int], #[trigger] p[k]),
            decreases self.pending.len() - i,
        {
            if queued_above(&self.pending[i], &self.pending[m]) {
                assert forall|k: int| 0 <= k < i + 1 && k != i implies priority_above(p[i as int], #[trigger] p[k]) by {
                    if k != m {
                        lemma_priority_above_transitive(p[i as int], p[m as int], p[k]);
                    }
                }
                m = i;
            } else {
                proof {
                    lemma_priority_above_total(p[m as int], p[i as int]);
                }
            }
            i = i + 1;
        }
        m
    }

    /// Takes up to `limit` pending requests, highest ranked first, and marks them in flight.
    pub fn dequeue_batch(&mut self, limit: usize) -> (batch: Vec<QueuedStreamingRequest>)
        requires
            queue_well_formed(old(self)@),
        ensures
            queue_well_formed(final(self)@),
            dequeued(old(self)@, final(self)@, queued_views(batch@), limit),
    {
        let ghost q = self@;
        let take = if limit < self.pending.len() { limit } else { self.pending.len() };
        let mut batch: Vec<QueuedStreamingRequest> = Vec::new();
        assert(q.pending.to_multiset() =~= self@.pending.to_multiset().add(queued_views(batch@).to_multiset())) by {
            broadcast use vstd::seq_lib::group_to_multiset_ensures, vstd::multiset::lemma_multiset_empty_len;
            assert(queued_views(batch@).len() == 0);
        }
        while batch.len() < take
            invariant
                queue_well_formed(self@),
                take <= q.pending.len(),
                batch.len() <= take,
                batch.len() + self@.pending.len() == q.pending.len(),
                forall|i: int, j: int| 0 <= i < j < batch.len() ==> priority_above(#[trigger] batch@[i]@, #[trigger] batch@[j]@),
                forall|i: int, j: int| 0 <= i < batch.len() && 0 <= j < self@.pending.len() ==> priority_above(#[trigger] batch@[i]@, #[trigger] self@.pending[j]),
                forall|x: QueuedStreamingRequestView| q.pending.contains(x) <==> (self@.pending.contains(x) || queued_views(batch@).contains(x)),
                q.pending.to_multiset() == self@.pending.to_multiset().add(queued_views(batch@).to_multiset()),
                self@.inflight == q.inflight + queued_views(batch@).map_values(|x: QueuedStreamingRequestView| request_key(x.request)),
                self@.next_sequence == q.next_sequence,
                self@.stats == q.stats,
            decreases take - batch.len(),
        {
            let ghost before = self@;
            let ghost before_batch = batch@;
            let h = self.highest_pending_index();
            let item = self.pending.remove(h);
            let key = StreamingRequestKey::from_request(&item.request);
            self.inflight.push(key);
            batch.push(item);
            proof {
                let top = before.pending[h as int];
                assert(self@.pending =~= before.pending.remove(h as int));
                assert(self@.inflight =~= before.inflight.push(request_key(top.request)));
                lemma_move_preserves_well_formed(before, h as int);
                lemma_remove_contains(before.pending, h as int);
                assert(queued_views(batch@) =~= queued_views(before_batch).push(top));
                assert(q.pending.to_multiset() =~= self@.pending.to_multiset().add(queued_views(batch@).to_multiset())) by {
                    broadcast use vstd::seq_lib::group_to_multiset_ensures;
                    assert(before.pending.to_multiset().count(top) > 0);
                }
                assert(queued_views(batch@).map_values(|x: QueuedStreamingRequestView| request_key(x.request))
                    =~= queued_views(before_batch).map_values(|x: QueuedStreamingRequestView| request_key(x.request)).push(request_key(top.request)));
                assert forall|i: int, j: int| 0 <= i < batch.len() && 0 <= j < self@.pending.len() implies priority_above(#[trigger] batch@[i]@, #[trigger] self@.pending[j]) by {
                    let j2 = if j < h { j } else { j + 1 };
                    assert(self@.pending[j] == before.pending[j2]);
                    if i < before_batch.len() {
                        assert(batch@[i] == before_batch[i]);
                    } else {
                        assert(j2 != h);
                    }
                }
                assert forall|i: int, j: int| 0 <= i < j < batch.len() implies priority_above(#[trigger] batch@[i]@, #[trigger] batch@[j]@) by {
                    assert(batch@[i] == before_batch[i]);
                    if j < before_batch.len() {
                        assert(batch@[j] == before_batch[j]);
                    }
                }
                assert forall|x: QueuedStreamingRequestView| q.pending.contains(x) <==> (self@.pending.contains(x) || queued_views(batch@).contains(x)) by {
                    if queued_views(batch@).contains(x) {
                        let k = choose|k: int| 0 <= k < queued_views(batch@).len() && queued_views(batch@)[k] == x;
                        if k < before_batch.len() {
                            assert(queued_views(before_batch)[k] == x);
                        }
                    }
                    if queued_views(before_batch).contains(x) {
                        let k = choose|k: int| 0 <= k < queued_views(before_batch).len() && queued_views(before_batch)[k] == x;
                        assert(queued_views(batch@)[k] == x);
                    }
                    if x == top {
                        assert(queued_views(batch@)[before_batch.len() as int] == x);
                    }
                }
            }
        }
        proof {
            assert forall|x: QueuedStreamingRequestView| !(self@.pending.contains(x) && queued_views(batch@).contains(x)) by {
                if self@.pending.contains(x) && queued_views(batch@).contains(x) {
                    let a = choose|a: int| 0 <= a < self@.pending.len() && self@.pending[a] == x;
                    let b = choose|b: int| 0 <= b < queued_views(batch@).len() && queued_views(batch@)[b] == x;
                    assert(priority_above(batch@[b]@, self@.pending[a]));
                }
            }
        }
        batch
    }

    /// Forgets the in-flight mark of a request whose fetch has ended.
    pub fn finish(&mut self, request: &StreamingTileRequest)
        requires
            queue_well_formed(old(self)@),
        ensures
            queue_well_formed(final(self)@),
            finished(old(self)@, final(self)@, request_key(request@)),
    {
        let ghost q = self@;
        let mut i: usize = 0;
        while i < self.inflight.len()
            invariant
                self@ == q,
                q == old(self)@,
                queue_well_formed(q),
                i <= self.inflight.len(),
                forall|k: int| 0 <= k < i ==> #[trigger] q.inflight[k] != request_key(request@),
            decreases self.inflight.len() - i,
        {
            if self.inflight[i].matches(request) {
                self.inflight.remove(i);
                proof {
                    assert(self@.inflight =~= q.inflight.remove(i as int));
                    assert(self@.pending =~= q.pending);
                    lemma_inflight_remove_preserves_well_formed(q, i as int);
                    lemma_remove_contains(q.inflight, i as int);
                    assert(q.inflight[i as int] == request_key(request@));
                    assert(0 <= i < q.inflight.len() && q.inflight[i as int] == request_key(request@)
                        && self@.inflight == q.inflight.remove(i as int));
                    if self@.inflight.contains(request_key(request@)) {
                        let k = choose|k: int| 0 <= k < self@.inflight.len() && self@.inflight[k] == request_key(request@);
                        let k2 = if k < i { k } else { k + 1 };
                        assert(q.inflight[k2] == request_key(request@));
                    }
                }
                return;
            }
            i = i + 1;
        }
    }

    /// Counts a request that completed.
    pub fn note_completed(&mut self)
        requires
            old(self)@.stats.completed_total < u64::MAX,
        ensures
            final(self)@ == (StreamingQueueView {
                stats: StreamingQueueStats {
                    completed_total: (old(self)@.stats.completed_total + 1) as u64,
                    ..old(self)@.stats
                },
                ..old(self)@
            }),
    {
        self.stats.completed_total = self.stats.completed_total + 1;
    }

    /// Counts a request that failed.
    pub fn note_failed(&mut self)
        requires
            old(self)@.stats.failed_total < u64::MAX,
        ensures
            final(self)@ == (StreamingQueueView {
                stats: StreamingQueueStats {
                    failed_total: (old(self)@.stats.failed_total + 1) as u64,
                    ..old(self)@.stats
                },
                ..old(self)@
            }),
    {
        self.stats.failed_total = self.stats.failed_total + 1;
    }

    fn push_new(&mut self, queued: QueuedStreamingRequest)
        requires
            queue_well_formed(old(self)@),
            !pending_has_key(old(self)@.pending, request_key(queued@.request)),
            !old(self)@.inflight.contains(request_key(queued@.request)),
            queued.sequence == old(self)@.next_sequence,
            old(self)@.next_sequence < u64::MAX,
            old(self)@.stats.enqueued_total < u64::MAX,
        ensures
            final(self)@ == (StreamingQueueView {
                pending: old(self)@.pending.push(queued@),
                inflight: old(self)@.inflight,
                next_sequence: (old(self)@.next_sequence + 1) as u64,
                stats: StreamingQueueStats {
                    enqueued_total: (old(self)@.stats.enqueued_total + 1) as u64,
                    ..old(self)@.stats
                },
            }),
            queue_well_formed(final(self)@),
    {
        let ghost q = self@;
        self.next_sequence = self.next_sequence + 1;
        self.pending.push(queued);
        self.stats.enqueued_total = self.stats.enqueued_total + 1;
        assert(self@.pending =~= q.pending.push(queued@));
        assert(self@.inflight =~= q.inflight);
        proof {
            lemma_push_preserves_well_formed(q, queued@);
        }
    }
}

/// `new` is `old` after the highest ranked `min(limit, pending)` requests were taken as
/// `batch`, in rank order, and marked in flight: the requests left pending and the batch
/// together are exactly the requests that were pending, every request left pending ranks
/// below every taken one, and nothing else changed.
pub open spec fn dequeued(
    old: StreamingQueueView,
    new: StreamingQueueView,
    batch: Seq<QueuedStreamingRequestView>,
    limit: usize,
) -> bool {
    &&& batch.len() == if limit < old.pending.len() { limit as int } else { old.pending.len() as int }
    &&& new.pending.len() == old.pending.len() - batch.len()
    &&& new.inflight.len() == old.inflight.len() + batch.len()
    &&& old.pending.to_multiset() == new.pending.to_multiset().add(batch.to_multiset())
    &&& forall|i: int, j: int| 0 <= i < j < batch.len() ==> priority_above(#[trigger] batch[i], #[trigger] batch[j])
    &&& forall|i: int, j: int| 0 <= i < batch.len() && 0 <= j < new.pending.len() ==> priority_above(#[trigger] batch[i], #[trigger] new.pending[j])
    &&& forall|x: QueuedStreamingRequestView| old.pending.contains(x) <==> (new.pending.contains(x) || batch.contains(x))
    &&& forall|x: QueuedStreamingRequestView| !(new.pending.contains(x) && batch.contains(x))
    &&& new.inflight == old.inflight + batch.map_values(|x: QueuedStreamingRequestView| request_key(x.request))
    &&& new.next_sequence == old.next_sequence
    &&& new.stats == old.stats
}

/// `new` is `old` after the in-flight mark of `key` was dropped: only that entry is removed
/// from the in-flight list, and it is no longer in flight.
pub open spec fn finished(old: StreamingQueueView, new: StreamingQueueView, key: StreamingRequestKeyView) -> bool {
    &&& new.pending == old.pending
    &&& new.next_sequence == old.next_sequence
    &&& new.stats == old.stats
    &&& old.inflight.contains(key) ==> exists|i: int|
        0 <= i < old.inflight.len() && old.inflight[i] == key && new.inflight == old.inflight.remove(i)
    &&& !old.inflight.contains(key) ==> new.inflight == old.inflight
    &&& !new.inflight.contains(key)
}

/// The views of queued requests.
pub open spec fn queued_views(v: Seq<QueuedStreamingRequest>) -> Seq<QueuedStreamingRequestView> {
    v.map_values(|q: QueuedStreamingRequest| q@)
}

/// `pending[i]` is served before every other pending request.
pub open spec fn is_highest(pending: Seq<QueuedStreamingRequestView>, i: int) -> bool {
    &&& 0 <= i < pending.len()
    &&& forall|j: int| 0 <= j < pending.len() && j != i ==> priority_above(pending[i], #[trigger] pending[j])
}

proof fn lemma_remove_contains<T>(s: Seq<T>, i: int)
    requires
        0 <= i < s.len(),
    ensures
        forall|x: T| s.contains(x) <==> (s.remove(i).contains(x) || x == s[i]),
{
    let r = s.remove(i);
    assert forall|x: T| s.contains(x) <==> (r.contains(x) || x == s[i]) by {
        if s.contains(x) && x != s[i] {
            let k = choose|k: int| 0 <= k < s.len() && s[k] == x;
            let k2 = if k < i { k } else { k - 1 };
            assert(r[k2] == x);
        }
        if r.contains(x) {
            let k = choose|k: int| 0 <= k < r.len() && r[k] == x;
            let k2 = if k < i { k } else { k + 1 };
            assert(s[k2] == x);
        }
    }
}

proof fn lemma_move_preserves_well_formed(q: StreamingQueueView, i: int)
    requires
        queue_well_formed(q),
        0 <= i < q.pending.len(),
    ensures
        queue_well_formed(
            StreamingQueueView {
                pending: q.pending.remove(i),
                inflight: q.inflight.push(request_key(q.pending[i].request)),
                ..q
            },
        ),
{
    lemma_remove_preserves_well_formed(q, i);
    let p = q.pending.remove(i);
    let f = q.inflight.push(request_key(q.pending[i].request));
    assert forall|a: int, b: int| 0 <= a < f.len() && 0 <= b < f.len() && a != b implies #[trigger] f[a] != #[trigger] f[b] by {
        if a == q.inflight.len() {
            assert(request_key(q.pending[i].request) != q.inflight[b]);
        } else if b == q.inflight.len() {
            assert(request_key(q.pending[i].request) != q.inflight[a]);
        }
    }
    assert forall|a: int, b: int| 0 <= a < p.len() && 0 <= b < f.len() implies request_key(#[trigger] p[a].request) != #[trigger] f[b] by {
        let a2 = if a < i { a } else { a + 1 };
        assert(p[a] == q.pending[a2]);
        if b == q.inflight.len() {
            assert(a2 != i);
        }
    }
}

proof fn lemma_inflight_remove_preserves_well_formed(q: StreamingQueueView, i: int)
    requires
        queue_well_formed(q),
        0 <= i < q.inflight.len(),
    ensures
        queue_well_formed(StreamingQueueView { inflight: q.inflight.remove(i), ..q }),
{
    let f = q.inflight.remove(i);
    assert forall|a: int, b: int| 0 <= a < f.len() && 0 <= b < f.len() && a != b implies #[trigger] f[a] != #[trigger] f[b] by {
        let a2 = if a < i { a } else { a + 1 };
        let b2 = if b < i { b } else { b + 1 };
        assert(f[a] == q.inflight[a2]);
        assert(f[b] == q.inflight[b2]);
    }
    assert forall|a: int, b: int| 0 <= a < q.pending.len() && 0 <= b < f.len() implies request_key(#[trigger] q.pending[a].request) != #[trigger] f[b] by {
        let b2 = if b < i { b } else { b + 1 };
        assert(f[b] == q.inflight[b2]);
    }
}

proof fn lemma_remove_preserves_well_formed(q: StreamingQueueView, i: int)
    requires
        queue_well_formed(q),
        0 <= i < q.pending.len(),
    ensures
        queue_well_formed(StreamingQueueView { pending: q.pending.remove(i), ..q }),
        forall|k: StreamingRequestKeyView| pending_has_key(q.pending.remove(i), k) ==> pending_has_key(q.pending, k),
{
    let p = q.pending.remove(i);
    assert forall|a: int| 0 <= a < p.len() implies #[trigger] p[a] == q.pending[if a < i { a } else { a + 1 }] by {}
    assert forall|k: StreamingRequestKeyView| pending_has_key(p, k) implies pending_has_key(q.pending, k) by {
        let a = choose|a: int| 0 <= a < p.len() && request_key(#[trigger] p[a].request) == k;
        let b = if a < i { a } else { a + 1 };
        assert(request_key(q.pending[b].request) == k);
    }
    let q2 = StreamingQueueView { pending: p, ..q };
    assert forall|a: int, b: int| 0 <= a < p.len() && 0 <= b < p.len() && a != b implies request_key(#[trigger] p[a].request) != request_key(#[trigger] p[b].request) && p[a].sequence != p[b].sequence by {
        let a2 = if a < i { a } else { a + 1 };
        let b2 = if b < i { b } else { b + 1 };
        assert(p[a] == q.pending[a2]);
        assert(p[b] == q.pending[b2]);
    }
    assert forall|a: int, b: int| 0 <= a < p.len() && 0 <= b < q.inflight.len() implies request_key(#[trigger] p[a].request) != #[trigger] q.inflight[b] by {
        let a2 = if a < i { a } else { a + 1 };
        assert(p[a] == q.pending[a2]);
    }
    assert forall|a: int| 0 <= a < p.len() implies (#[trigger] p[a]).sequence < q.next_sequence by {
        let a2 = if a < i { a } else { a + 1 };
        assert(p[a] == q.pending[a2]);
    }
}

proof fn lemma_push_preserves_well_formed(q: StreamingQueueView, new: QueuedStreamingRequestView)
    requires
        queue_well_formed(q),
        !pending_has_key(q.pending, request_key(new.request)),
        !q.inflight.contains(request_key(new.request)),
        new.sequence == q.next_sequence,
        q.next_sequence < u64::MAX,
    ensures
        queue_well_formed(
            StreamingQueueView {
                pending: q.pending.push(new),
                next_sequence: (q.next_sequence + 1) as u64,
                ..q
            },
        ),
{
    let p = q.pending.push(new);
    assert forall|a: int, b: int| 0 <= a < p.len() && 0 <= b < p.len() && a != b implies request_key(#[trigger] p[a].request) != request_key(#[trigger] p[b].request) && p[a].sequence != p[b].sequence by {
        if a == q.pending.len() {
            assert(request_key(q.pending[b].request) != request_key(new.request));
        } else if b == q.pending.len() {
            assert(request_key(q.pending[a].request) != request_key(new.request));
        }
    }
    assert forall|a: int, b: int| 0 <= a < p.len() && 0 <= b < q.inflight.len() implies request_key(#[trigger] p[a].request) != #[trigger] q.inflight[b] by {
        if a == q.pending.len() {
            if q.inflight[b] == request_key(new.request) {
                assert(q.inflight.contains(request_key(new.request)));
            }
        }
    }
}


/// Offering the same request again right after it was accepted is refused as a duplicate:
/// nothing is added and only the duplicate count grows.
pub proof fn lemma_repeated_request_is_deduplicated(
    q: StreamingQueueView,
    r: StreamingTileRequestView,
    settings: TerrainStreamingSettings,
)
    requires
        spec_enqueue(q, r, settings).1,
    ensures
        ({
            let q1 = spec_enqueue(q, r, settings).0;
            let (q2, accepted) = spec_enqueue(q1, r, settings);
            &&& !accepted
            &&& q2.pending == q1.pending
            &&& q2.inflight == q1.inflight
            &&& q2.stats == (StreamingQueueStats { deduped_total: (q1.stats.deduped_total + 1) as u64, ..q1.stats })
        }),
{
    let q1 = spec_enqueue(q, r, settings).0;
    let last = q1.pending.len() - 1;
    assert(q1.pending[last].request == r);
    assert(request_key(q1.pending[last].request) == request_key(r));
    assert(pending_has_key(q1.pending, request_key(r)));
}

/// An accepted request is appended to the pending list. A queue below its capacity (or
/// empty) keeps every pending request; a full queue makes room by dropping exactly one
/// request, its lowest ranked one: every request left pending ranks above the dropped one.
pub proof fn lemma_full_queue_evicts_its_lowest_request(
    q: StreamingQueueView,
    r: StreamingTileRequestView,
    settings: TerrainStreamingSettings,
)
    requires
        queue_well_formed(q),
        spec_enqueue(q, r, settings).1,
    ensures
        ({
            let new = QueuedStreamingRequestView {
                request: r,
                sequence: q.next_sequence,
                priority_class: spec_attachment_priority(r.attachment_label),
            };
            let after = spec_enqueue(q, r, settings).0.pending;
            &&& (q.pending.len() < settings.max_pending_requests || q.pending.len() == 0) ==> after
                == q.pending.push(new)
            &&& (q.pending.len() >= settings.max_pending_requests && q.pending.len() > 0) ==> exists|k: int|
                #![trigger q.pending.remove(k)]
                0 <= k < q.pending.len() && (forall|j: int|
                    0 <= j < q.pending.len() && j != k ==> priority_above(#[trigger] q.pending[j], q.pending[k]))
                    && priority_above(new, q.pending[k]) && after == q.pending.remove(k).push(new)
        }),
{
    if q.pending.len() >= settings.max_pending_requests && q.pending.len() > 0 {
        lemma_lowest_exists(q.pending);
        let k = choose|i: int| is_lowest(q.pending, i);
        assert(is_lowest(q.pending, k));
    }
}

/// Every offered request is counted exactly once: one of the enqueued, duplicate, offline,
/// policy and capacity counters grows by one and every other counter stays; the request is
/// accepted exactly when the enqueued counter grows, and a refused request leaves the pending
/// and in-flight lists and the next arrival number alone.
pub proof fn lemma_each_offer_is_counted_once(
    q: StreamingQueueView,
    r: StreamingTileRequestView,
    settings: TerrainStreamingSettings,
)
    requires
        enqueue_has_room(q, r, settings),
    ensures
        ({
            let (after, accepted) = spec_enqueue(q, r, settings);
            let a = after.stats;
            let b = q.stats;
            let grew = |x: u64, y: u64| x == y + 1;
            &&& a.completed_total == b.completed_total && a.failed_total == b.failed_total
            &&& (grew(a.enqueued_total, b.enqueued_total) as int) + (grew(a.deduped_total, b.deduped_total) as int)
                + (grew(a.dropped_offline_total, b.dropped_offline_total) as int) + (grew(
                a.dropped_policy_total,
                b.dropped_policy_total,
            ) as int) + (grew(a.dropped_capacity_total, b.dropped_capacity_total) as int) == 1
            &&& (a.enqueued_total == b.enqueued_total || grew(a.enqueued_total, b.enqueued_total))
            &&& (a.deduped_total == b.deduped_total || grew(a.deduped_total, b.deduped_total))
            &&& (a.dropped_offline_total == b.dropped_offline_total || grew(a.dropped_offline_total, b.dropped_offline_total))
            &&& (a.dropped_policy_total == b.dropped_policy_total || grew(a.dropped_policy_total, b.dropped_policy_total))
            &&& (a.dropped_capacity_total == b.dropped_capacity_total || grew(
                a.dropped_capacity_total,
                b.dropped_capacity_total,
            ))
            &&& accepted <==> grew(a.enqueued_total, b.enqueued_total)
            &&& !accepted ==> after.pending == q.pending && after.inflight == q.inflight && after.next_sequence
                == q.next_sequence
        }),
{
}

/// Which requests the queue takes: none while offline, none that the streaming policy
/// excludes, none already pending or in flight; any other request is taken when there is
/// room, or when it ranks above the lowest ranked pending request of a full queue.
pub proof fn lemma_which_requests_are_accepted(
    q: StreamingQueueView,
    r: StreamingTileRequestView,
    settings: TerrainStreamingSettings,
)
    requires
        queue_well_formed(q),
    ensures
        ({
            let key = request_key(r);
            let new = QueuedStreamingRequestView {
                request: r,
                sequence: q.next_sequence,
                priority_class: spec_attachment_priority(r.attachment_label),
            };
            let accepted = spec_enqueue(q, r, settings).1;
            &&& settings.offline_only ==> !accepted
            &&& !spec_streaming_allowed_for(r.attachment_label, settings) ==> !accepted
            &&& (pending_has_key(q.pending, key) || q.inflight.contains(key)) ==> !accepted
            &&& (!settings.offline_only && spec_streaming_allowed_for(r.attachment_label, settings)
                && !pending_has_key(q.pending, key) && !q.inflight.contains(key)) ==> (accepted <==> (
            q.pending.len() < settings.max_pending_requests || q.pending.len() == 0 || exists|k: int|
                is_lowest(q.pending, k) && priority_above(new, #[trigger] q.pending[k])))
        }),
{
    if q.pending.len() > 0 {
        lemma_lowest_exists(q.pending);
        let c = choose|i: int| is_lowest(q.pending, i);
        assert forall|k: int| is_lowest(q.pending, k) implies k == c by {
            lemma_lowest_unique(q.pending, c, k);
        }
    }
}

/// The queue never grows past its capacity (or past one request when the capacity is 0):
/// a full queue either refuses a request or evicts its lowest ranked one for it.
pub proof fn lemma_enqueue_respects_capacity(
    q: StreamingQueueView,
    r: StreamingTileRequestView,
    settings: TerrainStreamingSettings,
)
    requires
        queue_well_formed(q),
        q.pending.len() <= if settings.max_pending_requests > 0 { settings.max_pending_requests as int } else { 1 },
    ensures
        spec_enqueue(q, r, settings).0.pending.len() <= if settings.max_pending_requests > 0 {
            settings.max_pending_requests as int
        } else {
            1
        },
{
    if q.pending.len() > 0 {
        lemma_lowest_exists(q.pending);
    }
}

/// A non-empty pending list whose arrival numbers are distinct has a lowest ranked request.
pub proof fn lemma_lowest_exists(p: Seq<QueuedStreamingRequestView>)
    requires
        p.len() > 0,
        forall|i: int, j: int| 0 <= i < p.len() && 0 <= j < p.len() && i != j ==> (#[trigger] p[i]).sequence
            != (#[trigger] p[j]).sequence,
    ensures
        exists|i: int| is_lowest(p, i),
    decreases p.len(),
{
    let last = p.len() - 1;
    if p.len() == 1 {
        assert(is_lowest(p, 0));
    } else {
        let prefix = p.drop_last();
        assert forall|i: int, j: int| 0 <= i < prefix.len() && 0 <= j < prefix.len() && i != j implies (
        #[trigger] prefix[i]).sequence != (#[trigger] prefix[j]).sequence by {
            assert(prefix[i] == p[i]);
            assert(prefix[j] == p[j]);
        }
        lemma_lowest_exists(prefix);
        let m = choose|i: int| is_lowest(prefix, i);
        assert(prefix[m] == p[m]);
        if priority_above(p[m], p[last]) {
            assert forall|j: int| 0 <= j < p.len() && j != last implies priority_above(#[trigger] p[j], p[last]) by {
                if j != m {
                    assert(prefix[j] == p[j]);
                    assert(priority_above(prefix[j], prefix[m]));
                    lemma_priority_above_transitive(p[j], p[m], p[last]);
                }
            }
            assert(is_lowest(p, last));
        } else {
            lemma_priority_above_total(p[m], p[last]);
            assert forall|j: int| 0 <= j < p.len() && j != m implies priority_above(#[trigger] p[j], p[m]) by {
                if j != last {
                    assert(prefix[j] == p[j]);
                    assert(priority_above(prefix[j], prefix[m]));
                }
            }
            assert(is_lowest(p, m));
        }
    }
}


/// The queue after offering each request in turn.
pub open spec fn spec_enqueue_all(
    q: StreamingQueueView,
    requests: Seq<StreamingTileRequestView>,
    settings: TerrainStreamingSettings,
) -> StreamingQueueView
    decreases requests.len(),
{
    if requests.len() == 0 {
        q
    } else {
        spec_enqueue(spec_enqueue_all(q, requests.drop_last(), settings), requests.last(), settings).0
    }
}

/// Every counter, and the next arrival number, can grow by `n` without overflowing.
pub open spec fn room_for(q: StreamingQueueView, n: nat) -> bool {
    &&& q.next_sequence + n <= u64::MAX
    &&& q.stats.enqueued_total + n <= u64::MAX
    &&& q.stats.deduped_total + n <= u64::MAX
    &&& q.stats.dropped_offline_total + n <= u64::MAX
    &&& q.stats.dropped_policy_total + n <= u64::MAX
    &&& q.stats.dropped_capacity_total + n <= u64::MAX
}

/// No counter, nor the next arrival number, grows by more than one per offered request.
pub open spec fn grew_at_most(before: StreamingQueueView, after: StreamingQueueView, n: nat) -> bool {
    &&& after.next_sequence <= before.next_sequence + n
    &&& after.stats.enqueued_total <= before.stats.enqueued_total + n
    &&& after.stats.deduped_total <= before.stats.deduped_total + n
    &&& after.stats.dropped_offline_total <= before.stats.dropped_offline_total + n
    &&& after.stats.dropped_policy_total <= before.stats.dropped_policy_total + n
    &&& after.stats.dropped_capacity_total <= before.stats.dropped_capacity_total + n
    &&& after.stats.completed_total == before.stats.completed_total
    &&& after.stats.failed_total == before.stats.failed_total
}

/// Offers every request the renderer asked for to the queue, in order.
pub fn collect_streaming_requests(
    queue: &mut StreamingRequestQueue,
    requests: Vec<StreamingTileRequest>,
    settings: &TerrainStreamingSettings,
)
    requires
        queue_well_formed(old(queue)@),
        room_for(old(queue)@, requests.len() as nat),
    ensures
        queue_well_formed(final(queue)@),
        final(queue)@ == spec_enqueue_all(old(queue)@, requests@.map_values(|r: StreamingTileRequest| r@), *settings),
{
    let ghost start = queue@;
    let ghost views = requests@.map_values(|r: StreamingTileRequest| r@);
    let n = requests.len();
    let mut remaining = requests;
    let mut i: usize = 0;
    while i < n
        invariant
            n == views.len(),
            remaining@.len() == n - i,
            forall|k: int| 0 <= k < remaining@.len() ==> #[trigger] remaining@[k]@ == views[i + k],
            i <= n,
            start == old(queue)@,
            queue_well_formed(queue@),
            room_for(start, n as nat),
            grew_at_most(start, queue@, i as nat),
            queue@ == spec_enqueue_all(start, views.subrange(0, i as int), *settings),
        decreases n - i,
    {
        let request = remaining.remove(0);
        let ghost before = queue@;
        queue.enqueue(request, settings);
        proof {
            let prefix = views.subrange(0, i + 1);
            assert(prefix.drop_last() =~= views.subrange(0, i as int));
            assert(prefix.last() == views[i as int]);
        }
        i = i + 1;
    }
    assert(views.subrange(0, n as int) =~= views);
}

/// Focused requests are served before background ones: when any focused request is
/// pending, a non-empty batch starts with a focused request.
pub proof fn lemma_batch_starts_with_a_focused_request(
    old: StreamingQueueView,
    new: StreamingQueueView,
    batch: Seq<QueuedStreamingRequestView>,
    limit: usize,
    focused: QueuedStreamingRequestView,
)
    requires
        dequeued(old, new, batch, limit),
        limit >= 1,
        old.pending.contains(focused),
        focused.request.priority == StreamingRequestPriority::Focused,
    ensures
        batch.len() >= 1,
        batch[0].request.priority == StreamingRequestPriority::Focused,
{
    let k = choose|k: int| 0 <= k < old.pending.len() && old.pending[k] == focused;
    assert(old.pending.len() >= 1);
    if batch[0].request.priority != StreamingRequestPriority::Focused {
        if batch.contains(focused) {
            let j = choose|j: int| 0 <= j < batch.len() && batch[j] == focused;
            assert(j != 0);
            assert(priority_above(batch[0], batch[j]));
        } else {
            assert(new.pending.contains(focused));
            let j = choose|j: int| 0 <= j < new.pending.len() && new.pending[j] == focused;
            assert(priority_above(batch[0], new.pending[j]));
        }
    }
}

} // verus!
