//! Operational counters.

use assistant_core::audio::{account_for_block, Enqueued};
use assistant_core::metrics::{filetime_millis, process_cpu_millis, CoreMetrics};

#[test]
fn metrics_track_queue_and_maximum() {
    let mut metrics = CoreMetrics::default();
    metrics.audio_queued();
    metrics.audio_queued();
    metrics.audio_dequeued();
    assert_eq!(metrics.snapshot().audio_queue_depth, 1);
    assert_eq!(metrics.snapshot().audio_queue_max_depth, 2);
}

#[test]
fn latencies_keep_the_last_and_the_largest_value() {
    let mut metrics = CoreMetrics::default();
    metrics.observe_stt(40);
    metrics.observe_stt(10);
    metrics.observe_kws(7);
    metrics.observe_handler(3);
    let snapshot = metrics.snapshot();
    assert_eq!((snapshot.stt_last_ms, snapshot.stt_max_ms), (10, 40));
    assert_eq!((snapshot.kws_last_us, snapshot.kws_max_us), (7, 7));
    assert_eq!((snapshot.handler_last_ms, snapshot.handler_max_ms), (3, 3));
}

#[test]
fn a_full_queue_loses_blocks_without_growing() {
    let mut metrics = CoreMetrics::default();
    account_for_block(&mut metrics, Enqueued::Queued);
    account_for_block(&mut metrics, Enqueued::Full);
    account_for_block(&mut metrics, Enqueued::Disconnected);
    let snapshot = metrics.snapshot();
    assert_eq!(snapshot.audio_queue_depth, 1);
    assert_eq!(snapshot.audio_frames_dropped, 1);
    assert_eq!(snapshot.audio_queue_max_depth, 2);
}

#[test]
fn process_times_are_milliseconds() {
    assert_eq!(filetime_millis(0, 20_000), 2);
    assert_eq!(filetime_millis(1, 0), 429_496);
    assert_eq!(process_cpu_millis((0, 10_000), (0, 30_000)), 4);
    let snapshot = CoreMetrics::default().snapshot().with_process_usage(11, 12);
    assert_eq!(snapshot.process_working_set_bytes, 11);
    assert_eq!(snapshot.process_cpu_time_ms, 12);
}
