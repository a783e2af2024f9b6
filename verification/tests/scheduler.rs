use terrain_streaming::coordinate::{AttachmentConfig, AttachmentLabel, IVec2, TerrainShape, TileCoordinate};
use terrain_streaming::scheduler::{StreamingRequestQueue, TerrainStreamingSettings};
use terrain_streaming::source_contract::{StreamingProviderError, StreamingRequestPriority, StreamingTileRequest};
use terrain_streaming::streaming_jobs::{
    describe_streaming_task_error, plan_streaming_job, record_streaming_outcome, should_downgrade_streaming_failure_log,
    start_streaming_jobs, StreamingJob, StreamingOutcomeReport, StreamingTaskError, StreamingWorkerStats,
};

fn albedo_request() -> StreamingTileRequest {
    StreamingTileRequest {
        terrain_path: "terrains/earth".to_string(),
        attachment_label: AttachmentLabel::Custom("albedo".to_string()),
        attachment_config: AttachmentConfig::default(),
        coordinate: TileCoordinate::new(0, 2, IVec2::new(1, 1)),
        terrain_shape: TerrainShape::WGS84,
        terrain_lod_count: 4,
        priority: StreamingRequestPriority::Background,
    }
}

#[test]
fn queue_dedupes_identical_requests() {
    let settings = TerrainStreamingSettings::online_imagery();
    let request = albedo_request();
    let mut queue = StreamingRequestQueue::default();

    assert!(queue.enqueue(request.clone(), &settings));
    assert!(!queue.enqueue(request.clone(), &settings));
    assert_eq!(queue.pending_count(), 1);
    assert_eq!(queue.stats().enqueued_total, 1);
    assert_eq!(queue.stats().deduped_total, 1);
}

#[test]
fn queue_respects_offline_only_mode() {
    let settings = TerrainStreamingSettings::default();
    let mut queue = StreamingRequestQueue::default();

    assert!(!queue.enqueue(albedo_request(), &settings));
    assert_eq!(queue.pending_count(), 0);
    assert_eq!(queue.stats().dropped_offline_total, 1);
}

#[test]
fn queue_filters_height_when_height_streaming_is_disabled() {
    let settings = TerrainStreamingSettings::online_imagery();
    let mut queue = StreamingRequestQueue::default();
    let mut request = albedo_request();
    request.attachment_label = AttachmentLabel::Height;

    assert!(!queue.enqueue(request, &settings));
    assert_eq!(queue.pending_count(), 0);
    assert_eq!(queue.stats().dropped_policy_total, 1);
}

#[test]
fn queue_prefers_focused_requests_over_background_requests() {
    let settings = TerrainStreamingSettings::online_imagery();
    let mut queue = StreamingRequestQueue::default();

    let mut background = albedo_request();
    background.coordinate = TileCoordinate::new(0, 3, IVec2::new(0, 0));
    background.priority = StreamingRequestPriority::Background;

    let mut focused = albedo_request();
    focused.coordinate = TileCoordinate::new(0, 2, IVec2::new(1, 1));
    focused.priority = StreamingRequestPriority::Focused;

    assert!(queue.enqueue(background, &settings));
    assert!(queue.enqueue(focused.clone(), &settings));

    let drained = queue.dequeue_batch(1);
    assert_eq!(drained.len(), 1);
    assert_eq!(drained[0].request.priority, StreamingRequestPriority::Focused);
    assert_eq!(drained[0].request.coordinate, focused.coordinate);
}

#[test]
fn queue_prefers_imagery_over_height_when_capacity_is_tight() {
    let settings = TerrainStreamingSettings::online_imagery_and_height().with_max_pending_requests(1);
    let mut queue = StreamingRequestQueue::default();

    let mut height_request = albedo_request();
    height_request.attachment_label = AttachmentLabel::Height;
    height_request.coordinate = TileCoordinate::new(0, 6, IVec2::new(3, 5));

    let mut imagery_request = albedo_request();
    imagery_request.coordinate = TileCoordinate::new(0, 4, IVec2::new(8, 2));

    assert!(queue.enqueue(height_request, &settings));
    assert!(queue.enqueue(imagery_request.clone(), &settings));

    let drained = queue.dequeue_batch(1);
    assert_eq!(drained.len(), 1);
    assert_eq!(drained[0].request.attachment_label, imagery_request.attachment_label);
    assert_eq!(drained[0].request.coordinate, imagery_request.coordinate);
}

#[test]
fn queue_replaces_coarse_imagery_with_deeper_imagery() {
    let settings = TerrainStreamingSettings::online_imagery().with_max_pending_requests(1);
    let mut queue = StreamingRequestQueue::default();

    let mut coarse_request = albedo_request();
    coarse_request.coordinate = TileCoordinate::new(0, 3, IVec2::new(2, 1));

    let mut deep_request = albedo_request();
    deep_request.coordinate = TileCoordinate::new(0, 9, IVec2::new(40, 17));

    assert!(queue.enqueue(coarse_request, &settings));
    assert!(queue.enqueue(deep_request.clone(), &settings));

    let drained = queue.dequeue_batch(1);
    assert_eq!(drained.len(), 1);
    assert_eq!(drained[0].request.coordinate, deep_request.coordinate);
}

#[test]
fn antimeridian_albedo_rejections_are_treated_as_expected_noise() {
    let error = StreamingTaskError::Provider(StreamingProviderError::Unsupported(
        "tile longitude span crosses the antimeridian; split-request planning is not implemented yet".to_string(),
    ));

    assert!(should_downgrade_streaming_failure_log(&error, &albedo_request()));
}

#[test]
fn non_albedo_or_non_antimeridian_failures_still_warn() {
    let antimeridian_error = StreamingTaskError::Provider(StreamingProviderError::Unsupported(
        "tile longitude span crosses the antimeridian; split-request planning is not implemented yet".to_string(),
    ));
    let mut height_request = albedo_request();
    height_request.attachment_label = AttachmentLabel::Height;

    assert!(!should_downgrade_streaming_failure_log(&antimeridian_error, &height_request));

    let other_albedo_error =
        StreamingTaskError::Provider(StreamingProviderError::Unsupported("provider is rate limited".to_string()));
    assert!(!should_downgrade_streaming_failure_log(&other_albedo_error, &albedo_request()));
}

#[test]
fn a_full_queue_refuses_a_lower_ranked_request() {
    let settings = TerrainStreamingSettings::online_imagery().with_max_pending_requests(1);
    let mut queue = StreamingRequestQueue::default();
    let mut deep = albedo_request();
    deep.coordinate = TileCoordinate::new(0, 9, IVec2::new(40, 17));
    let mut coarse = albedo_request();
    coarse.coordinate = TileCoordinate::new(0, 3, IVec2::new(2, 1));

    assert!(queue.enqueue(deep, &settings));
    assert!(!queue.enqueue(coarse, &settings));
    assert_eq!(queue.pending_count(), 1);
    assert_eq!(queue.stats().dropped_capacity_total, 1);
}

#[test]
fn in_flight_requests_are_deduplicated_until_finished() {
    let settings = TerrainStreamingSettings::online_imagery();
    let mut queue = StreamingRequestQueue::default();
    let request = albedo_request();

    assert!(queue.enqueue(request.clone(), &settings));
    let batch = queue.dequeue_batch(4);
    assert_eq!(batch.len(), 1);
    assert_eq!(queue.pending_count(), 0);
    assert_eq!(queue.inflight_count(), 1);
    assert!(!queue.enqueue(request.clone(), &settings));
    assert_eq!(queue.stats().deduped_total, 1);

    queue.finish(&request);
    assert_eq!(queue.inflight_count(), 0);
    assert!(queue.enqueue(request, &settings));
}

#[test]
fn dequeue_returns_requests_highest_ranked_first() {
    let settings = TerrainStreamingSettings::online_imagery_and_height();
    let mut queue = StreamingRequestQueue::default();
    let mut first = albedo_request();
    first.coordinate = TileCoordinate::new(0, 1, IVec2::new(0, 0));
    let mut second = albedo_request();
    second.coordinate = TileCoordinate::new(0, 1, IVec2::new(1, 0));
    let mut height = albedo_request();
    height.attachment_label = AttachmentLabel::Height;
    height.coordinate = TileCoordinate::new(0, 5, IVec2::new(1, 0));

    assert!(queue.enqueue(first.clone(), &settings));
    assert!(queue.enqueue(height.clone(), &settings));
    assert!(queue.enqueue(second.clone(), &settings));

    let drained = queue.dequeue_batch(10);
    assert_eq!(drained.len(), 3);
    // Same class and depth: the later arrival first; height last.
    assert_eq!(drained[0].request.coordinate, second.coordinate);
    assert_eq!(drained[1].request.coordinate, first.coordinate);
    assert_eq!(drained[2].request.attachment_label, AttachmentLabel::Height);
    assert_eq!(queue.inflight_count(), 3);
}

#[test]
fn outcomes_are_counted_once() {
    let mut queue = StreamingRequestQueue::default();
    queue.note_completed();
    queue.note_failed();
    queue.note_failed();
    assert_eq!(queue.stats().completed_total, 1);
    assert_eq!(queue.stats().failed_total, 2);
}

#[test]
fn jobs_follow_attachment_and_cache_settings() {
    let cache = Some("streaming_cache".to_string());
    assert_eq!(
        plan_streaming_job(&AttachmentLabel::Custom("albedo".to_string()), &cache, false).unwrap(),
        StreamingJob::Imagery { cache_root: "streaming_cache".to_string(), stream_height: false }
    );
    assert_eq!(
        plan_streaming_job(&AttachmentLabel::Height, &cache, true).unwrap(),
        StreamingJob::RemoteHeight { cache_root: "streaming_cache".to_string() }
    );
    assert_eq!(
        plan_streaming_job(&AttachmentLabel::Height, &cache, false).unwrap(),
        StreamingJob::DerivedHeight { cache_root: "streaming_cache".to_string() }
    );
    assert!(matches!(
        plan_streaming_job(&AttachmentLabel::Height, &None, true),
        Err(StreamingTaskError::MissingCacheRoot)
    ));
    assert!(matches!(
        plan_streaming_job(&AttachmentLabel::Empty(2), &cache, true),
        Err(StreamingTaskError::UnsupportedAttachment(AttachmentLabel::Empty(2)))
    ));
}

#[test]
fn task_errors_are_described_for_the_log() {
    assert_eq!(
        describe_streaming_task_error(&StreamingTaskError::MissingCacheRoot),
        "streaming cache root is not configured"
    );
    assert_eq!(
        describe_streaming_task_error(&StreamingTaskError::UnsupportedAttachment(AttachmentLabel::Custom(
            "normal \"map\"".to_string()
        ))),
        "no streaming provider is configured for attachment Custom(\"normal \\\"map\\\"\")"
    );
    assert_eq!(
        describe_streaming_task_error(&StreamingTaskError::UnsupportedAttachment(AttachmentLabel::Empty(7))),
        format!("no streaming provider is configured for attachment {:?}", AttachmentLabel::Empty(7))
    );
    assert_eq!(
        describe_streaming_task_error(&StreamingTaskError::Provider(StreamingProviderError::Transient(
            "timeout".to_string()
        ))),
        "streaming provider encountered a transient failure: timeout"
    );
    assert_eq!(describe_streaming_task_error(&StreamingTaskError::CacheWrite("disk full".to_string())), "disk full");
}

#[test]
fn started_jobs_respect_free_slots() {
    let settings = TerrainStreamingSettings::online_imagery().with_max_inflight_requests(2);
    let mut queue = StreamingRequestQueue::default();
    for x in 0..3 {
        let mut request = albedo_request();
        request.coordinate = TileCoordinate::new(0, 2, IVec2::new(x, 0));
        assert!(queue.enqueue(request, &settings));
    }
    let mut stats = StreamingWorkerStats::default();
    let cache = Some("cache".to_string());

    let none = start_streaming_jobs(&mut queue, &mut stats, &settings, 2, &cache);
    assert!(none.is_empty());
    assert_eq!(queue.pending_count(), 3);

    let started = start_streaming_jobs(&mut queue, &mut stats, &settings, 1, &cache);
    assert_eq!(started.len(), 1);
    assert_eq!(stats.started_total, 1);
    assert_eq!(queue.pending_count(), 2);
    assert_eq!(queue.inflight_count(), 1);
    assert!(matches!(started[0].job, Ok(StreamingJob::Imagery { .. })));
}

#[test]
fn finished_jobs_are_booked_and_reported() {
    let settings = TerrainStreamingSettings::online_imagery();
    let mut queue = StreamingRequestQueue::default();
    let request = albedo_request();
    assert!(queue.enqueue(request.clone(), &settings));
    let _ = queue.dequeue_batch(1);
    let mut stats = StreamingWorkerStats::default();

    let report = record_streaming_outcome(&mut queue, &mut stats, &request, &Ok("cache/tile.tif".to_string()));
    assert_eq!(report, StreamingOutcomeReport::Completed { asset_path: "cache/tile.tif".to_string() });
    assert_eq!(queue.inflight_count(), 0);
    assert_eq!(queue.stats().completed_total, 1);
    assert_eq!(stats.completed_total, 1);
    assert_eq!(stats.cache_writes_total, 1);

    let noise = StreamingTaskError::Provider(StreamingProviderError::Unsupported(
        "tile longitude span crosses the antimeridian".to_string(),
    ));
    let report = record_streaming_outcome(&mut queue, &mut stats, &request, &Err(noise));
    assert!(matches!(report, StreamingOutcomeReport::Skipped { .. }));
    let report = record_streaming_outcome(&mut queue, &mut stats, &request, &Err(StreamingTaskError::MissingCacheRoot));
    assert_eq!(
        report,
        StreamingOutcomeReport::Failed { message: "streaming cache root is not configured".to_string() }
    );
    assert_eq!(queue.stats().failed_total, 2);
    assert_eq!(stats.failed_total, 2);
}

#[test]
fn collected_requests_are_offered_in_order() {
    let settings = TerrainStreamingSettings::online_imagery();
    let mut queue = StreamingRequestQueue::default();
    let mut height = albedo_request();
    height.attachment_label = AttachmentLabel::Height;
    terrain_streaming::scheduler::collect_streaming_requests(
        &mut queue,
        vec![albedo_request(), albedo_request(), height],
        &settings,
    );
    assert_eq!(queue.pending_count(), 1);
    assert_eq!(queue.stats().enqueued_total, 1);
    assert_eq!(queue.stats().deduped_total, 1);
    assert_eq!(queue.stats().dropped_policy_total, 1);
}

#[test]
fn a_zero_capacity_queue_still_holds_one_request() {
    let settings = TerrainStreamingSettings::online_imagery().with_max_pending_requests(0);
    let mut queue = StreamingRequestQueue::default();
    let mut first = albedo_request();
    first.coordinate = TileCoordinate::new(0, 1, IVec2::new(0, 0));
    let mut second = albedo_request();
    second.coordinate = TileCoordinate::new(0, 1, IVec2::new(1, 0));

    assert!(queue.enqueue(first, &settings));
    assert!(queue.enqueue(second.clone(), &settings));
    assert_eq!(queue.pending_count(), 1);
    let drained = queue.dequeue_batch(1);
    assert_eq!(drained[0].request.coordinate, second.coordinate);
}

#[test]
fn partial_dequeue_leaves_the_rest_pending() {
    let settings = TerrainStreamingSettings::online_imagery_and_height();
    let mut queue = StreamingRequestQueue::default();
    for x in 0..4 {
        let mut request = albedo_request();
        request.coordinate = TileCoordinate::new(0, 3, IVec2::new(x, 0));
        assert!(queue.enqueue(request, &settings));
    }
    let taken = queue.dequeue_batch(3);
    assert_eq!(taken.len(), 3);
    assert_eq!(queue.pending_count(), 1);
    assert_eq!(queue.inflight_count(), 3);
    let rest = queue.dequeue_batch(3);
    assert_eq!(rest.len(), 1);
    assert_eq!(queue.pending_count(), 0);
    assert_eq!(queue.inflight_count(), 4);
    let mut xs: Vec<i32> = taken.iter().chain(rest.iter()).map(|q| q.request.coordinate.xy.x).collect();
    xs.sort();
    assert_eq!(xs, vec![0, 1, 2, 3]);
}
