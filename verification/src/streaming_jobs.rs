//! What the streaming worker does with the requests it takes from the queue: which job each
//! request becomes, how a failed job is described and logged, and how outcomes are counted.

use vstd::prelude::*;
use crate::coordinate::{AttachmentLabel, AttachmentLabelView, is_albedo, label_debug};
use crate::scheduler::{
    QueuedStreamingRequest, QueuedStreamingRequestView, StreamingQueueView, StreamingRequestQueue,
    TerrainStreamingSettings, dequeued, finished, queue_well_formed, queued_views, request_key,
};
use crate::source_contract::{
    StreamingProviderError, StreamingProviderErrorView, StreamingTileRequest, spec_error_message,
};
use crate::text::{chars_of, contains_seq, find_chars};

verus! {

/// Running totals of the streaming worker.
#[derive(Clone, Copy, Debug, PartialEq, Eq, Structural)]
pub struct StreamingWorkerStats {
    pub started_total: u64,
    pub completed_total: u64,
    pub failed_total: u64,
    pub cache_writes_total: u64,
}

impl Default for StreamingWorkerStats {
    fn default() -> (s: StreamingWorkerStats)
        ensures
            s == (StreamingWorkerStats {
                started_total: 0,
                completed_total: 0,
                failed_total: 0,
                cache_writes_total: 0,
            }),
    {
        StreamingWorkerStats { started_total: 0, completed_total: 0, failed_total: 0, cache_writes_total: 0 }
    }
}

/// Why a streaming job failed.
#[derive(Debug)]
pub enum StreamingTaskError {
    /// The provider could not serve the tile.
    Provider(StreamingProviderError),
    /// Writing the tile into the cache failed; the description of the write error.
    CacheWrite(String),
    /// No streaming cache root is configured, so there is nowhere to write.
    MissingCacheRoot,
    /// No provider serves this attachment.
    UnsupportedAttachment(AttachmentLabel),
}

/// The content of a task error.
pub enum StreamingTaskErrorView {
    Provider(StreamingProviderErrorView),
    CacheWrite(Seq<char>),
    MissingCacheRoot,
    UnsupportedAttachment(AttachmentLabelView),
}

impl View for StreamingTaskError {
    type V = StreamingTaskErrorView;

    open spec fn view(&self) -> StreamingTaskErrorView {
        match self {
            StreamingTaskError::Provider(e) => StreamingTaskErrorView::Provider(e@),
            StreamingTaskError::CacheWrite(m) => StreamingTaskErrorView::CacheWrite(m@),
            StreamingTaskError::MissingCacheRoot => StreamingTaskErrorView::MissingCacheRoot,
            StreamingTaskError::UnsupportedAttachment(l) => StreamingTaskErrorView::UnsupportedAttachment(l@),
        }
    }
}

/// The description of a failed job, as the worker logs it.
pub open spec fn spec_describe_task_error(e: StreamingTaskErrorView) -> Seq<char> {
    match e {
        StreamingTaskErrorView::Provider(p) => spec_error_message(p),
        StreamingTaskErrorView::CacheWrite(m) => m,
        StreamingTaskErrorView::MissingCacheRoot => "streaming cache root is not configured"@,
        StreamingTaskErrorView::UnsupportedAttachment(l) => "no streaming provider is configured for attachment "@
            + label_debug(l),
    }
}

/// Describes a failed job.
pub fn describe_streaming_task_error(error: &StreamingTaskError) -> (s: String)
    ensures
        s@ == spec_describe_task_error(error@),
{
    match error {
        StreamingTaskError::Provider(e) => e.message(),
        StreamingTaskError::CacheWrite(m) => m.clone(),
        StreamingTaskError::MissingCacheRoot => String::from_str("streaming cache root is not configured"),
        StreamingTaskError::UnsupportedAttachment(label) => {
            let s = String::from_str("no streaming provider is configured for attachment ");
            s.concat(label.debug_form().as_str())
        },
    }
}

/// The reason an imagery provider gives for a tile whose longitude span crosses the
/// antimeridian.
pub open spec fn antimeridian_phrase() -> Seq<char> {
    "tile longitude span crosses the antimeridian"@
}

/// A failure that is expected noise and logged quietly: an imagery (`albedo`) request that a
/// provider rejected as unsupported because the tile crosses the antimeridian.
pub open spec fn spec_downgrades_failure_log(e: StreamingTaskErrorView, label: AttachmentLabelView) -> bool {
    &&& e matches StreamingTaskErrorView::Provider(StreamingProviderErrorView::Unsupported(reason))
    &&& is_albedo(label)
    &&& contains_seq(e->Provider_0->Unsupported_0, antimeridian_phrase())
}

/// Whether a failure is logged as expected noise rather than as a warning.
pub fn should_downgrade_streaming_failure_log(error: &StreamingTaskError, request: &StreamingTileRequest) -> (r: bool)
    ensures
        r == spec_downgrades_failure_log(error@, request.attachment_label@),
{
    match error {
        StreamingTaskError::Provider(StreamingProviderError::Unsupported(reason)) => {
            if !request.attachment_label.is_albedo() {
                return false;
            }
            let phrase = chars_of("tile longitude span crosses the antimeridian");
            let text = chars_of(reason.as_str());
            find_chars(&text, &phrase).is_some()
        },
        _ => false,
    }
}

/// The work a dequeued request turns into.
#[derive(Clone, Debug, PartialEq, Eq)]
pub enum StreamingJob {
    /// Fetch the imagery tile, and its missing coarser ancestors first, into the cache below
    /// `cache_root`; when height is not streamed, derive local height for each fetched tile.
    Imagery { cache_root: String, stream_height: bool },
    /// Fetch the height tile from the height provider into the cache below `cache_root`.
    RemoteHeight { cache_root: String },
    /// Derive the height tile from a local coarser height tile into the cache below `cache_root`.
    DerivedHeight { cache_root: String },
}

/// The content of a job.
pub enum StreamingJobView {
    Imagery { cache_root: Seq<char>, stream_height: bool },
    RemoteHeight { cache_root: Seq<char> },
    DerivedHeight { cache_root: Seq<char> },
}

impl View for StreamingJob {
    type V = StreamingJobView;

    open spec fn view(&self) -> StreamingJobView {
        match self {
            StreamingJob::Imagery { cache_root, stream_height } => StreamingJobView::Imagery {
                cache_root: cache_root@,
                stream_height: *stream_height,
            },
            StreamingJob::RemoteHeight { cache_root } => StreamingJobView::RemoteHeight { cache_root: cache_root@ },
            StreamingJob::DerivedHeight { cache_root } => StreamingJobView::DerivedHeight { cache_root: cache_root@ },
        }
    }
}

/// The content of a planned job, or of the error that stands in its place.
pub open spec fn job_plan_view(r: Result<StreamingJob, StreamingTaskError>) -> Result<StreamingJobView, StreamingTaskErrorView> {
    match r {
        Ok(j) => Ok(j@),
        Err(e) => Err(e@),
    }
}

/// The job for a request: imagery (`albedo`) is fetched; height is fetched when height
/// streaming is on and derived locally otherwise; both need a cache root. No other
/// attachment is streamed.
pub open spec fn spec_plan_job(
    label: AttachmentLabelView,
    cache_root: Option<Seq<char>>,
    stream_height: bool,
) -> Result<StreamingJobView, StreamingTaskErrorView> {
    if is_albedo(label) {
        match cache_root {
            Some(c) => Ok(StreamingJobView::Imagery { cache_root: c, stream_height }),
            None => Err(StreamingTaskErrorView::MissingCacheRoot),
        }
    } else if label is Height {
        match cache_root {
            Some(c) => if stream_height {
                Ok(StreamingJobView::RemoteHeight { cache_root: c })
            } else {
                Ok(StreamingJobView::DerivedHeight { cache_root: c })
            },
            None => Err(StreamingTaskErrorView::MissingCacheRoot),
        }
    } else {
        Err(StreamingTaskErrorView::UnsupportedAttachment(label))
    }
}

/// The characters of an optional cache root.
pub open spec fn cache_root_view(cache_root: Option<String>) -> Option<Seq<char>> {
    match cache_root {
        Some(c) => Some(c@),
        None => None,
    }
}

/// Decides the job for a request.
pub fn plan_streaming_job(
    attachment_label: &AttachmentLabel,
    cache_root: &Option<String>,
    stream_height: bool,
) -> (r: Result<StreamingJob, StreamingTaskError>)
    ensures
        job_plan_view(r) == spec_plan_job(attachment_label@, cache_root_view(*cache_root), stream_height),
{
    if attachment_label.is_albedo() {
        match cache_root {
            Some(c) => Ok(StreamingJob::Imagery { cache_root: c.clone(), stream_height }),
            None => Err(StreamingTaskError::MissingCacheRoot),
        }
    } else if attachment_label.is_height() {
        match cache_root {
            Some(c) => {
                if stream_height {
                    Ok(StreamingJob::RemoteHeight { cache_root: c.clone() })
                } else {
                    Ok(StreamingJob::DerivedHeight { cache_root: c.clone() })
                }
            },
            None => Err(StreamingTaskError::MissingCacheRoot),
        }
    } else {
        Err(StreamingTaskError::UnsupportedAttachment(attachment_label.duplicate()))
    }
}

/// A request taken from the queue together with the job it became.
#[derive(Debug)]
pub struct StartedStreamingJob {
    pub queued: QueuedStreamingRequest,
    pub job: Result<StreamingJob, StreamingTaskError>,
}

/// How many more jobs may start while `inflight_jobs` are running.
pub open spec fn spec_available_slots(settings: TerrainStreamingSettings, inflight_jobs: usize) -> usize {
    if settings.max_inflight_requests > inflight_jobs {
        (settings.max_inflight_requests - inflight_jobs) as usize
    } else {
        0
    }
}

/// How many jobs start: one per free slot (`max_inflight` minus the running jobs, none when
/// they are all taken), but no more than there are pending requests.
pub open spec fn free_slots_filled(max_inflight: int, running: int, pending: int) -> int {
    let free = if max_inflight > running { max_inflight - running } else { 0 };
    if free < pending { free } else { pending }
}

/// A batch taken for the worker's free slots has one request per free slot, up to the number
/// pending: with `running` jobs out of `max_inflight_requests`, it holds
/// `min(max_inflight_requests - running, pending)` requests, and none when every slot is taken.
pub proof fn lemma_batch_fills_the_free_slots(
    old: StreamingQueueView,
    new: StreamingQueueView,
    batch: Seq<QueuedStreamingRequestView>,
    settings: TerrainStreamingSettings,
    running: usize,
)
    requires
        dequeued(old, new, batch, spec_available_slots(settings, running)),
    ensures
        batch.len() == free_slots_filled(settings.max_inflight_requests as int, running as int, old.pending.len() as int),
        running >= settings.max_inflight_requests ==> batch.len() == 0,
        running < settings.max_inflight_requests && old.pending.len() > 0 ==> batch.len() > 0,
        new.pending.len() + batch.len() == old.pending.len(),
{
}

/// Starts as many jobs as there are free slots: takes the highest ranked pending requests
/// from the queue, counts each as started and decides its job. Nothing is taken when no slot
/// is free.
pub fn start_streaming_jobs(
    queue: &mut StreamingRequestQueue,
    stats: &mut StreamingWorkerStats,
    settings: &TerrainStreamingSettings,
    inflight_jobs: usize,
    cache_root: &Option<String>,
) -> (started: Vec<StartedStreamingJob>)
    requires
        queue_well_formed(old(queue)@),
        old(stats).started_total + old(queue)@.pending.len() <= u64::MAX,
    ensures
        queue_well_formed(final(queue)@),
        spec_available_slots(*settings, inflight_jobs) == 0 ==> final(queue)@ == old(queue)@ && started.len() == 0,
        started.len() == free_slots_filled(settings.max_inflight_requests as int, inflight_jobs as int, old(queue)@.pending.len() as int),
        dequeued(
            old(queue)@,
            final(queue)@,
            started@.map_values(|s: StartedStreamingJob| s.queued@),
            spec_available_slots(*settings, inflight_jobs),
        ),
        forall|i: int| 0 <= i < started.len() ==> job_plan_view(#[trigger] started@[i].job) == spec_plan_job(
            started@[i].queued.request.attachment_label@,
            cache_root_view(*cache_root),
            settings.stream_height,
        ),
        *final(stats) == (StreamingWorkerStats {
            started_total: (old(stats).started_total + started.len()) as u64,
            ..*old(stats)
        }),
{
    let slots = settings.max_inflight_requests.saturating_sub(inflight_jobs);
    if slots == 0 {
        let ghost q = queue@;
        let started: Vec<StartedStreamingJob> = Vec::new();
        assert(started@.map_values(|s: StartedStreamingJob| s.queued@) =~= Seq::<QueuedStreamingRequestView>::empty());
        assert(q.inflight + Seq::<QueuedStreamingRequestView>::empty().map_values(
            |x: QueuedStreamingRequestView| request_key(x.request),
        ) =~= q.inflight);
        assert(q.pending.to_multiset() =~= q.pending.to_multiset().add(Seq::<QueuedStreamingRequestView>::empty().to_multiset())) by {
            broadcast use vstd::seq_lib::group_to_multiset_ensures, vstd::multiset::lemma_multiset_empty_len;
        }
        return started;
    }
    let mut batch = queue.dequeue_batch(slots);
    let ghost batch_views = queued_views(batch@);
    let ghost n = batch.len();
    let mut started: Vec<StartedStreamingJob> = Vec::new();
    let mut i: usize = 0;
    let ghost original = batch@;
    while batch.len() > 0
        invariant
            n == original.len(),
            batch@ == original.subrange(i as int, n as int),
            i + batch.len() == n,
            n <= old(queue)@.pending.len(),
            started.len() == i,
            forall|k: int| 0 <= k < i ==> (#[trigger] started@[k]).queued@ == original[k]@,
            forall|k: int| 0 <= k < i ==> job_plan_view(#[trigger] started@[k].job) == spec_plan_job(
                started@[k].queued.request.attachment_label@,
                cache_root_view(*cache_root),
                settings.stream_height,
            ),
            old(stats).started_total + old(queue)@.pending.len() <= u64::MAX,
            *stats == (StreamingWorkerStats { started_total: (old(stats).started_total + i) as u64, ..*old(stats) }),
        decreases batch.len(),
    {
        let queued = batch.remove(0);
        let job = plan_streaming_job(&queued.request.attachment_label, cache_root, settings.stream_height);
        stats.started_total = stats.started_total + 1;
        started.push(StartedStreamingJob { queued, job });
        i = i + 1;
        assert(batch@ =~= original.subrange(i as int, n as int));
    }
    assert(started@.map_values(|s: StartedStreamingJob| s.queued@) =~= batch_views);
    started
}

/// How a finished job is reported.
#[derive(Clone, Debug, PartialEq, Eq)]
pub enum StreamingOutcomeReport {
    /// The tile was written into the cache at this asset path.
    Completed { asset_path: String },
    /// The job failed with expected noise; logged quietly.
    Skipped { message: String },
    /// The job failed; logged as a warning.
    Failed { message: String },
}

/// The content of a report.
pub enum StreamingOutcomeReportView {
    Completed { asset_path: Seq<char> },
    Skipped { message: Seq<char> },
    Failed { message: Seq<char> },
}

impl View for StreamingOutcomeReport {
    type V = StreamingOutcomeReportView;

    open spec fn view(&self) -> StreamingOutcomeReportView {
        match self {
            StreamingOutcomeReport::Completed { asset_path } => StreamingOutcomeReportView::Completed {
                asset_path: asset_path@,
            },
            StreamingOutcomeReport::Skipped { message } => StreamingOutcomeReportView::Skipped { message: message@ },
            StreamingOutcomeReport::Failed { message } => StreamingOutcomeReportView::Failed { message: message@ },
        }
    }
}

/// The report for a job's outcome.
pub open spec fn spec_outcome_report(
    outcome: Result<Seq<char>, StreamingTaskErrorView>,
    label: AttachmentLabelView,
) -> StreamingOutcomeReportView {
    match outcome {
        Ok(p) => StreamingOutcomeReportView::Completed { asset_path: p },
        Err(e) => if spec_downgrades_failure_log(e, label) {
            StreamingOutcomeReportView::Skipped { message: spec_describe_task_error(e) }
        } else {
            StreamingOutcomeReportView::Failed { message: spec_describe_task_error(e) }
        },
    }
}

/// The content of a job's outcome.
pub open spec fn outcome_view(outcome: Result<String, StreamingTaskError>) -> Result<Seq<char>, StreamingTaskErrorView> {
    match outcome {
        Ok(p) => Ok(p@),
        Err(e) => Err(e@),
    }
}

/// Books a finished job: the request is no longer in flight; a success counts as completed
/// in the queue and as a completed cache write in the worker, a failure as failed in both.
pub fn record_streaming_outcome(
    queue: &mut StreamingRequestQueue,
    stats: &mut StreamingWorkerStats,
    request: &StreamingTileRequest,
    outcome: &Result<String, StreamingTaskError>,
) -> (report: StreamingOutcomeReport)
    requires
        queue_well_formed(old(queue)@),
        outcome is Ok ==> old(queue)@.stats.completed_total < u64::MAX,
        outcome is Ok ==> old(stats).completed_total < u64::MAX,
        outcome is Ok ==> old(stats).cache_writes_total < u64::MAX,
        outcome is Err ==> old(queue)@.stats.failed_total < u64::MAX,
        outcome is Err ==> old(stats).failed_total < u64::MAX,
    ensures
        queue_well_formed(final(queue)@),
        report@ == spec_outcome_report(outcome_view(*outcome), request.attachment_label@),
        exists|mid: StreamingQueueView|
            finished(old(queue)@, mid, request_key(request@)) && final(queue)@ == (StreamingQueueView {
                stats: if outcome is Ok {
                    crate::scheduler::StreamingQueueStats {
                        completed_total: (mid.stats.completed_total + 1) as u64,
                        ..mid.stats
                    }
                } else {
                    crate::scheduler::StreamingQueueStats { failed_total: (mid.stats.failed_total + 1) as u64, ..mid.stats }
                },
                ..mid
            }),
        outcome is Ok ==> *final(stats) == (StreamingWorkerStats {
            completed_total: (old(stats).completed_total + 1) as u64,
            cache_writes_total: (old(stats).cache_writes_total + 1) as u64,
            ..*old(stats)
        }),
        outcome is Err ==> *final(stats) == (StreamingWorkerStats {
            failed_total: (old(stats).failed_total + 1) as u64,
            ..*old(stats)
        }),
{
    queue.finish(request);
    let ghost mid = queue@;
    match outcome {
        Ok(path) => {
            queue.note_completed();
            stats.completed_total = stats.completed_total + 1;
            stats.cache_writes_total = stats.cache_writes_total + 1;
            StreamingOutcomeReport::Completed { asset_path: path.clone() }
        },
        Err(error) => {
            let message = describe_streaming_task_error(error);
            queue.note_failed();
            stats.failed_total = stats.failed_total + 1;
            if should_downgrade_streaming_failure_log(error, request) {
                StreamingOutcomeReport::Skipped { message }
            } else {
                StreamingOutcomeReport::Failed { message }
            }
        },
    }
}

} // verus!
