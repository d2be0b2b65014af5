//! Pre-roll, command collection and the frame pipeline.

use assistant_core::signal::{
    AudioRingBuffer, CommandAudioPipeline, CommandCollector, VadDecision, VoiceActivityDetector,
};

struct EnergyVad {
    threshold: f32,
}

impl EnergyVad {
    fn new(threshold: f32) -> Self {
        EnergyVad { threshold }
    }
}

impl VoiceActivityDetector<f32> for EnergyVad {
    fn reset(&mut self) {}

    fn process(&mut self, frame: &[f32]) -> VadDecision {
        let energy = frame.iter().map(|sample| sample * sample).sum::<f32>() / frame.len().max(1) as f32;
        if energy.sqrt() >= self.threshold {
            VadDecision::Speech
        } else {
            VadDecision::Silence
        }
    }
}

#[test]
fn ring_keeps_only_pre_roll() {
    let mut ring = AudioRingBuffer::new(3);
    ring.push(&[1.0, 2.0]);
    ring.push(&[3.0, 4.0]);
    assert_eq!(ring.snapshot(), vec![2.0, 3.0, 4.0]);
}

#[test]
fn collector_stops_after_silence() {
    let mut collector = CommandCollector::start(vec![1.0], 3, 10, 2);
    assert!(collector.push(&[1.0, 1.0], VadDecision::Speech).is_none());
    assert_eq!(
        collector.push(&[0.0, 0.0], VadDecision::Silence),
        Some(vec![1.0, 1.0, 1.0, 0.0, 0.0])
    );
}

#[test]
fn collector_stops_at_its_limit() {
    let mut collector = CommandCollector::start(vec![9.0, 1.0, 2.0], 1, 4, 100);
    assert_eq!(
        collector.push(&[3.0, 4.0, 5.0], VadDecision::Speech),
        Some(vec![9.0, 1.0, 2.0, 3.0])
    );
}

#[test]
fn zero_capacity_ring_stays_empty() {
    let mut ring = AudioRingBuffer::new(0);
    ring.push(&[1.0]);
    assert!(ring.snapshot().is_empty());
}

#[test]
fn frame_pipeline_collects_after_fake_wake_word() {
    let mut pipeline = CommandAudioPipeline::new(EnergyVad::new(0.5), 2, 3, 10, 2);
    assert!(pipeline.push(&[1.0, 1.0], true).is_none());
    assert!(pipeline.push(&[1.0], false).is_none());
    assert_eq!(
        pipeline.push(&[0.0, 0.0], false),
        Some(vec![1.0, 1.0, 1.0, 0.0, 0.0])
    );
}

/// Takes every frame after the first one for silence, until its history is cleared.
struct Impatient {
    heard: usize,
}

impl VoiceActivityDetector<f32> for Impatient {
    fn reset(&mut self) {
        self.heard = 0;
    }

    fn process(&mut self, _frame: &[f32]) -> VadDecision {
        self.heard += 1;
        if self.heard > 1 {
            VadDecision::Silence
        } else {
            VadDecision::Speech
        }
    }
}

#[test]
fn the_detector_decides_and_forgets_between_captures() {
    let mut pipeline = CommandAudioPipeline::new(Impatient { heard: 0 }, 1, 1, 10, 1);
    for _ in 0..2 {
        assert!(pipeline.push(&[1.0], true).is_none());
        assert!(pipeline.push(&[0.0], false).is_none());
        assert_eq!(pipeline.push(&[1.0], false), Some(vec![1.0, 0.0, 1.0]));
    }
}

#[test]
fn manual_finish_keeps_only_a_long_enough_capture() {
    let mut pipeline = CommandAudioPipeline::new(EnergyVad::new(0.5), 0, 3, 10, 2);
    pipeline.start_manual();
    pipeline.push(&[1.0], false);
    assert!(pipeline.finish().is_none());

    pipeline.start_manual();
    pipeline.push(&[1.0, 1.0, 1.0], false);
    assert_eq!(pipeline.finish(), Some(vec![1.0, 1.0, 1.0]));
    assert!(!pipeline.is_collecting());
}

#[test]
fn blocks_may_arrive_in_any_size() {
    let mut whole = AudioRingBuffer::new(4);
    whole.push(&[1.0, 2.0, 3.0, 4.0, 5.0, 6.0]);
    let mut parts = AudioRingBuffer::new(4);
    parts.push(&[1.0]);
    parts.push(&[2.0, 3.0, 4.0]);
    parts.push(&[]);
    parts.push(&[5.0, 6.0]);
    assert_eq!(whole.snapshot(), parts.snapshot());
}
