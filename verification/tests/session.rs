//! Microphone sessions and their supervision.

use assistant_core::config::{
    AudioConfig, CoreConfig, InferenceConfig, IpcConfig, MatchingConfig, PolicyConfig, WakeWordConfig,
    CURRENT_CONFIG_VERSION,
};
use assistant_core::diagnostics::{device_line, Soak, SoakEvent, SoakStep};
use assistant_core::domain::{AudioDeviceInfo, TranscriptUnavailableReason};
use assistant_core::float32::Real32;
use assistant_core::metrics::CoreMetrics;
use assistant_core::session::{
    fallback_error, flush_stream_chunk, may_fall_back, opening_messages, samples_for_ms, should_reopen_audio,
    AudioSession, BlockUse, FrameNext, ManualCapture, MissedWakeWord, Outgoing, PipelineMessage, SessionEnd, SessionStep,
};
use assistant_core::signal::{VadDecision, VoiceActivityDetector};
use assistant_core::supervisor::{AudioSupervisor, Preparation, Recovery};

const MILLI: u64 = 1_000_000;

struct NoVad;

impl VoiceActivityDetector<f32> for NoVad {
    fn reset(&mut self) {}

    fn process(&mut self, _frame: &[f32]) -> VadDecision {
        VadDecision::Silence
    }
}

fn level(value: f32) -> Real32 {
    Real32::from_bits(value.to_bits())
}

fn device(id: &str) -> AudioDeviceInfo {
    AudioDeviceInfo { id: id.into(), name: id.into(), is_default: false }
}

/// Frames of 20 ms, a pre-roll of 40 ms, commands of 40 ms to 200 ms and 40 ms of trailing silence.
fn config(device_id: &str) -> CoreConfig {
    CoreConfig {
        schema_version: CURRENT_CONFIG_VERSION,
        audio: AudioConfig {
            device_id: device_id.into(),
            pre_roll_ms: 40,
            command_min_ms: 40,
            command_max_ms: 200,
            trailing_silence_ms: 40,
            vad_threshold: level(0.1),
            ..AudioConfig::default()
        },
        matching: MatchingConfig::default(),
        wake_word: WakeWordConfig { cooldown_ms: 1_000, ..WakeWordConfig::default() },
        inference: InferenceConfig::default(),
        policy: PolicyConfig::default(),
        ipc: IpcConfig::default(),
        commands: Vec::new(),
    }
}

fn open(device_id: &str) -> AudioSession<f32, NoVad> {
    AudioSession::new(&config(device_id), NoVad, "microphone-a", false, 0)
}

/// Feeds one frame of constant samples through a session.
fn hear(
    session: &mut AudioSession<f32, NoVad>,
    manual: &mut ManualCapture,
    value: f32,
    wake: bool,
    continuous: bool,
    now: u64,
) -> Vec<Outgoing<f32>> {
    session.buffer(&vec![value; 320]);
    let frame = session.next_frame().unwrap();
    let mut start = session.begin_frame(level(value), manual, now);
    let detected = match start.next {
        FrameNext::Done => return start.messages,
        FrameNext::Detect => wake,
        FrameNext::Skip => false,
    };
    let mut rest = session.end_frame(&frame, level(value), detected, continuous, manual, now);
    start.messages.append(&mut rest);
    start.messages
}

/// The messages that have to arrive, by their names.
fn names(messages: &[Outgoing<f32>]) -> Vec<&'static str> {
    messages
        .iter()
        .map(|outgoing| match &outgoing.message {
            PipelineMessage::WakeWord(_) => "wake",
            PipelineMessage::Speech(_) => "speech",
            PipelineMessage::StreamBegin(_) => "begin",
            PipelineMessage::StreamChunk(_) => "chunk",
            PipelineMessage::Command { authorized: true, .. } => "command",
            PipelineMessage::Command { authorized: false, .. } => "utterance",
            PipelineMessage::CaptureCancelled => "cancelled",
            PipelineMessage::CaptureUnavailable(_) => "unavailable",
            PipelineMessage::TranscriptUnavailable(_) => "missed",
            PipelineMessage::AudioLevel(_) => "level",
            PipelineMessage::AudioDeviceChanged(_) => "device",
            PipelineMessage::AudioDeviceFallback { .. } => "fallback",
            PipelineMessage::AudioError(_) => "error",
        })
        .filter(|name| *name != "level")
        .collect()
}

#[test]
fn millisecond_conversion_is_exact_for_canonical_audio() {
    assert_eq!(samples_for_ms(16_000, 20), 320);
    assert_eq!(samples_for_ms(16_000, 900), 14_400);
}

#[test]
fn only_a_changed_default_device_reopens_the_session() {
    assert!(should_reopen_audio("default", "microphone-a", "microphone-b", false, false));
    assert!(!should_reopen_audio("default", "microphone-a", "microphone-a", false, false));
    assert!(!should_reopen_audio("microphone-a", "microphone-a", "microphone-b", false, false));
    assert!(should_reopen_audio("microphone-a", "default-a", "default-a", true, true));
}

#[test]
fn missed_wake_word_is_reported_after_trailing_silence() {
    let mut tracker = MissedWakeWord::default();
    assert!(!tracker.observe(level(0.2), level(0.1), 10, 20));
    assert!(!tracker.observe(level(0.0), level(0.1), 10, 20));
    assert!(tracker.observe(level(0.0), level(0.1), 10, 20));
    assert!(!tracker.observe(level(0.0), level(0.1), 10, 20));
}

#[test]
fn streaming_samples_are_flushed_as_one_batch() {
    let mut messages = Vec::new();
    let mut samples = vec![0.1, 0.2, 0.3];
    flush_stream_chunk(&mut messages, &mut samples);
    assert!(samples.is_empty());
    match &messages[0].message {
        PipelineMessage::StreamChunk(samples) => assert_eq!(samples.len(), 3),
        _ => panic!("unexpected pipeline message"),
    }
    flush_stream_chunk(&mut messages, &mut samples);
    assert_eq!(messages.len(), 1);
}

#[test]
fn manual_capture_states_follow_each_other() {
    let mut manual = ManualCapture::Idle;
    assert!(!manual.begin());
    assert!(!manual.end());
    assert!(manual.reserve());
    assert!(!manual.reserve());
    assert!(manual.begin());
    assert!(manual.end());
    assert!(manual.end());
    assert_eq!(manual, ManualCapture::Finish);
    assert!(manual.release());
    assert!(!manual.release());
}

#[test]
fn wake_word_starts_an_authorized_command() {
    let mut session = open("default");
    let mut manual = ManualCapture::Idle;
    assert_eq!(names(&hear(&mut session, &mut manual, 0.5, true, false, 0)), ["wake"]);
    assert!(names(&hear(&mut session, &mut manual, 0.5, false, false, 20 * MILLI)).is_empty());
    assert!(names(&hear(&mut session, &mut manual, 0.0, false, false, 40 * MILLI)).is_empty());
    let last = hear(&mut session, &mut manual, 0.0, false, false, 60 * MILLI);
    assert_eq!(names(&last), ["chunk", "command"]);
    match &last[0].message {
        PipelineMessage::StreamChunk(samples) => assert_eq!(samples.len(), 4 * 320),
        _ => panic!("a batch was expected"),
    }
    assert!(names(&hear(&mut session, &mut manual, 0.5, true, false, 80 * MILLI)).is_empty());
    assert_eq!(names(&hear(&mut session, &mut manual, 0.5, true, false, 1_060 * MILLI)), ["wake"]);
}

#[test]
fn speech_without_a_wake_word_is_only_reported() {
    let mut session = open("default");
    let mut manual = ManualCapture::Idle;
    assert!(names(&hear(&mut session, &mut manual, 0.5, false, false, 0)).is_empty());
    assert!(names(&hear(&mut session, &mut manual, 0.0, false, false, 20 * MILLI)).is_empty());
    let silence = hear(&mut session, &mut manual, 0.0, false, false, 40 * MILLI);
    assert_eq!(names(&silence), ["missed"]);
    assert!(silence.last().unwrap().droppable);
}

#[test]
fn continuous_recognition_segments_every_utterance() {
    let mut session = open("default");
    let mut manual = ManualCapture::Idle;
    assert!(names(&hear(&mut session, &mut manual, 0.0, false, true, 0)).is_empty());
    assert_eq!(names(&hear(&mut session, &mut manual, 0.5, false, true, 20 * MILLI)), ["speech"]);
    assert!(names(&hear(&mut session, &mut manual, 0.0, false, true, 40 * MILLI)).is_empty());
    let last = hear(&mut session, &mut manual, 0.0, false, true, 60 * MILLI);
    assert_eq!(names(&last), ["chunk", "utterance"]);
    match &last[1].message {
        PipelineMessage::Command { request, .. } => {
            assert_eq!(request.samples.len(), 4 * 320);
            assert_eq!(request.samples[0], 0.0);
            assert_eq!(request.samples[320], 0.5);
        }
        _ => panic!("an utterance was expected"),
    }
    assert_eq!(names(&hear(&mut session, &mut manual, 0.5, false, true, 80 * MILLI)), ["speech"]);
    let authorized = hear(&mut session, &mut manual, 0.5, true, true, 100 * MILLI);
    assert!(names(&authorized).iter().all(|name| *name == "chunk"));
    hear(&mut session, &mut manual, 0.0, false, true, 120 * MILLI);
    assert!(names(&hear(&mut session, &mut manual, 0.0, false, true, 140 * MILLI)).contains(&"command"));
}

#[test]
fn manual_captures_need_length_and_speech() {
    let mut session = open("default");
    let mut manual = ManualCapture::Begin;
    assert_eq!(names(&hear(&mut session, &mut manual, 0.0, false, false, 0)), ["begin"]);
    assert_eq!(manual, ManualCapture::Active);
    manual = ManualCapture::Finish;
    let short = hear(&mut session, &mut manual, 0.0, false, false, 20 * MILLI);
    assert_eq!(names(&short), ["chunk", "unavailable"]);
    assert!(matches!(
        short.last().unwrap().message,
        PipelineMessage::CaptureUnavailable(TranscriptUnavailableReason::TooShort)
    ));
    assert_eq!(manual, ManualCapture::Idle);

    manual = ManualCapture::Begin;
    hear(&mut session, &mut manual, 0.5, false, false, 40 * MILLI);
    hear(&mut session, &mut manual, 0.5, false, false, 60 * MILLI);
    manual = ManualCapture::Finish;
    let spoken = hear(&mut session, &mut manual, 0.0, false, false, 80 * MILLI);
    assert_eq!(names(&spoken), ["chunk", "command"]);
}

#[test]
fn silent_manual_captures_are_reported() {
    let mut session = open("default");
    let mut manual = ManualCapture::Begin;
    hear(&mut session, &mut manual, 0.0, false, false, 0);
    let silent = hear(&mut session, &mut manual, 0.0, false, false, 20 * MILLI);
    assert_eq!(names(&silent), ["chunk", "unavailable"]);
    assert!(matches!(
        silent.last().unwrap().message,
        PipelineMessage::CaptureUnavailable(TranscriptUnavailableReason::Silence)
    ));
    assert_eq!(manual, ManualCapture::Idle);
}

#[test]
fn levels_are_reported_ten_times_per_second() {
    let mut session = open("default");
    let mut manual = ManualCapture::Idle;
    let mut reports = 0;
    for index in 0..50 {
        let messages = hear(&mut session, &mut manual, 0.0, false, false, index * 20 * MILLI);
        reports += messages
            .iter()
            .filter(|outgoing| matches!(outgoing.message, PipelineMessage::AudioLevel(_)))
            .count();
    }
    assert_eq!(reports, 10);
}

#[test]
fn nothing_is_heard_while_nobody_listens() {
    let mut session = open("default");
    let mut manual = ManualCapture::Active;
    session.buffer(&vec![0.5; 400]);
    assert_eq!(
        session.block_received(false, &mut manual, 5),
        BlockUse::Discard { reset_detector: true }
    );
    assert_eq!(manual, ManualCapture::Idle);
    assert!(session.next_frame().is_none());
    assert_eq!(
        session.block_received(false, &mut manual, 6),
        BlockUse::Discard { reset_detector: false }
    );
    assert_eq!(session.block_received(true, &mut manual, 7), BlockUse::Process);
}

#[test]
fn silent_devices_stall() {
    let session = open("default");
    assert!(session.no_block(2_999 * MILLI).is_ok());
    assert_eq!(session.no_block(3_000 * MILLI).unwrap_err(), "audio callback stalled");
}

#[test]
fn sessions_end_for_a_reason() {
    let mut session = open("default");
    assert_eq!(session.poll(true, true, 0), SessionStep::End(SessionEnd::Stopped));
    assert_eq!(session.poll(false, true, 0), SessionStep::End(SessionEnd::Reconfigured));
    assert_eq!(session.poll(false, false, 0), SessionStep::Receive);
    assert_eq!(session.poll(false, false, 1_000 * MILLI), SessionStep::CheckDevices);
    assert_eq!(session.poll(false, false, 1_500 * MILLI), SessionStep::Receive);
    let mut selected = open("microphone-a");
    assert_eq!(selected.poll(false, false, 9_000 * MILLI), SessionStep::Receive);
}

#[test]
fn a_changed_device_gives_a_capture_up() {
    let mut session = open("default");
    let mut manual = ManualCapture::Idle;
    assert!(session.devices_checked("microphone-a", &Vec::new(), &mut manual).is_none());
    let quiet = session.devices_checked("microphone-b", &Vec::new(), &mut manual).unwrap();
    assert!(quiet.is_empty());
    hear(&mut session, &mut manual, 0.5, true, false, 0);
    let busy = session.devices_checked("microphone-b", &Vec::new(), &mut manual).unwrap();
    assert_eq!(names(&busy), ["cancelled"]);
    let fallback = AudioSession::<f32, NoVad>::new(&config("selected"), NoVad, "microphone-a", true, 0);
    assert!(fallback.devices_checked("microphone-a", &vec![device("other")], &mut manual).is_none());
    assert!(fallback.devices_checked("microphone-a", &vec![device("selected")], &mut manual).is_some());
}

#[test]
fn only_a_missing_selection_falls_back() {
    assert!(may_fall_back("selected", &vec![device("other")]));
    assert!(!may_fall_back("selected", &vec![device("selected")]));
    assert!(!may_fall_back("default", &Vec::new()));
    assert_eq!(fallback_error("a", "b"), "a; system default fallback failed: b");
    let opened: Vec<Outgoing<f32>> = opening_messages("selected", &device("other"), true);
    assert_eq!(names(&opened), ["fallback", "device"]);
    let direct: Vec<Outgoing<f32>> = opening_messages("selected", &device("selected"), false);
    assert_eq!(names(&direct), ["device"]);
}

#[test]
fn failures_are_retried_and_then_rested() {
    let mut supervisor = AudioSupervisor::new();
    let mut metrics = CoreMetrics::default();
    for expected in [1_000, 2_000, 4_000, 8_000, 16_000] {
        let failure = supervisor.session_failed::<f32>(&mut metrics, "lost".into(), 10, 1_000, false);
        assert_eq!(failure.recovery, Recovery::Retry(expected));
        assert_eq!(names(&failure.messages), ["device", "error"]);
    }
    let rest = supervisor.session_failed::<f32>(&mut metrics, "lost".into(), 10, 1_000, false);
    assert_eq!(rest.recovery, Recovery::Rest(60_000));
    assert_eq!(names(&rest.messages), ["device", "error", "error"]);
    assert_eq!(metrics.snapshot().audio_reconnects, 6);
    assert!(supervisor.faulted);
    assert!(AudioSupervisor::rests(false, false, 1, 2));
    assert!(!AudioSupervisor::rests(true, false, 1, 2));
    assert!(!AudioSupervisor::rests(false, true, 1, 2));
    assert!(!AudioSupervisor::rests(false, false, 2, 2));
    supervisor.rest_over();
    assert_eq!(supervisor, AudioSupervisor::new());
}

#[test]
fn long_sessions_make_up_for_failures() {
    let mut supervisor = AudioSupervisor { failures: 5, faulted: false };
    let mut metrics = CoreMetrics::default();
    let failure = supervisor.session_failed::<f32>(&mut metrics, "lost".into(), 30_000, 60_000, false);
    assert_eq!(failure.recovery, Recovery::Retry(60_000));
    assert_eq!(supervisor.failures, 1);
    let stopping = supervisor.session_failed::<f32>(&mut metrics, "lost".into(), 0, 1_000, true);
    assert_eq!(stopping.recovery, Recovery::Stop);
    assert!(stopping.messages.is_empty());
    assert_eq!(metrics.snapshot().audio_reconnects, 1);
    assert!(!supervisor.session_ended(SessionEnd::Stopped));
    assert!(supervisor.session_ended(SessionEnd::InputChanged));
    assert_eq!(supervisor.failures, 0);
}

#[test]
fn detectors_need_a_catalog_model() {
    let mut supervisor = AudioSupervisor::new();
    assert!(matches!(supervisor.prepare(false, "x"), Preparation::NoModel(200)));
    assert!(matches!(supervisor.prepare(true, "x"), Preparation::InvalidModel(200)));
    assert!(supervisor.faulted);
    match supervisor.prepare(true, "alphacep/vosk-model-streaming-ru") {
        Preparation::OpenDetector(model) => assert_eq!(model.id(), "alphacep/vosk-model-streaming-ru"),
        _ => panic!("a detector was expected"),
    }
}

#[test]
fn soak_tests_count_reconnects() {
    let mut metrics = CoreMetrics::default();
    let mut soak = Soak::new(500, 0);
    assert_eq!(soak.observe(SoakEvent::Received, &mut metrics, 400 * MILLI), SoakStep::Continue);
    assert_eq!(soak.observe(SoakEvent::Nothing, &mut metrics, 800 * MILLI), SoakStep::Continue);
    assert_eq!(soak.observe(SoakEvent::Nothing, &mut metrics, 900 * MILLI), SoakStep::Reopen);
    assert_eq!(soak.observe(SoakEvent::Failed, &mut metrics, 900 * MILLI), SoakStep::Reopen);
    assert_eq!(metrics.snapshot().audio_reconnects, 2);
    assert_eq!(device_line(&device("a")), "a");
    assert_eq!(device_line(&AudioDeviceInfo { is_default: true, ..device("a") }), "a (default)");
}
