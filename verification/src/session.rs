//! One microphone session: from blocks of samples to the messages that drive the runtime.
//!
//! Reading the device, measuring levels, running the keyword spotter and delivering messages
//! happen outside; a session decides what follows from each of them.

use crate::config::{ConfigView, CoreConfig};
use crate::domain::{AudioDeviceInfo, DeviceView, TranscriptUnavailableReason, TranscriptionRequest};
use crate::float32::Real32;
use crate::runtime::NANOS_PER_MILLI;
use crate::signal::{
    last_samples, CommandAudioPipeline, PipelineView, VadDecision, VoiceActivityDetector,
};
use crate::text::{option_view, same_text, views};
use crate::text_map::Duplicate;
use vstd::prelude::*;

verus! {

/// Milliseconds of audio in one batch for incremental STT.
pub const STREAMING_STT_CHUNK_MS: u32 = 100;

/// Milliseconds between two level reports at least.
pub const LEVEL_INTERVAL_MS: u128 = 100;

/// Milliseconds between two looks at the input devices at least.
pub const DEVICE_CHECK_INTERVAL_MS: u128 = 1_000;

/// The identifier that stands for the system's default input.
pub const DEFAULT_DEVICE: &'static str = "default";

/// The samples of a duration; of a count that the machine cannot hold, the bits that it can.
pub open spec fn duration_samples(sample_rate: u32, milliseconds: u32) -> usize {
    let exact = sample_rate * milliseconds / 1_000;
    if exact <= usize::MAX {
        exact as usize
    } else {
        (exact % (usize::MAX + 1)) as usize
    }
}

/// Counts the samples of a duration.
pub fn samples_for_ms(sample_rate: u32, milliseconds: u32) -> (samples: usize)
    ensures
        samples == duration_samples(sample_rate, milliseconds),
{
    assert(sample_rate * milliseconds <= 0xffff_ffff * 0xffff_ffff) by (nonlinear_arith)
        requires
            sample_rate <= 0xffff_ffff,
            milliseconds <= 0xffff_ffff,
    ;
    let exact: u64 = sample_rate as u64 * milliseconds as u64 / 1_000;
    if exact <= usize::MAX as u64 {
        return exact as usize;
    }
    (exact as u128 % (usize::MAX as u128 + 1)) as usize
}

/// Whether an open input has to be opened again.
pub open spec fn reopens(
    configured_id: Seq<char>,
    active_id: Seq<char>,
    current_default_id: Seq<char>,
    using_fallback: bool,
    selected_available: bool,
) -> bool {
    ||| (configured_id == DEFAULT_DEVICE@ || using_fallback) && active_id != current_default_id
    ||| using_fallback && selected_available
}

/// Tells whether an open input has to be opened again: the default device changed under a
/// session that follows it, or the selected device is back.
pub fn should_reopen_audio(
    configured_id: &str,
    active_id: &str,
    current_default_id: &str,
    using_fallback: bool,
    selected_available: bool,
) -> (answer: bool)
    ensures
        answer == reopens(
            configured_id@,
            active_id@,
            current_default_id@,
            using_fallback,
            selected_available,
        ),
{
    (same_text(configured_id, DEFAULT_DEVICE) || using_fallback) && !same_text(
        active_id,
        current_default_id,
    ) || using_fallback && selected_available
}

/// A manual capture, as requests and the audio worker share it.
#[derive(Debug, Clone, Copy, PartialEq, Eq, Structural)]
pub enum ManualCapture {
    /// There is none.
    Idle,
    /// A request asks the runtime for one.
    Reserving,
    /// The runtime agreed; the audio worker has not started it yet.
    Begin,
    /// The audio worker collects samples.
    Active,
    /// The application asked to end it.
    Finish,
}

impl ManualCapture {
    /// Reserves the capture for one request.
    pub fn reserve(&mut self) -> (reserved: bool)
        ensures
            reserved == (*old(self) is Idle),
            *final(self) == if reserved {
                ManualCapture::Reserving
            } else {
                *old(self)
            },
    {
        if matches!(*self, ManualCapture::Idle) {
            *self = ManualCapture::Reserving;
            true
        } else {
            false
        }
    }

    /// Lets the audio worker start a reserved capture.
    pub fn begin(&mut self) -> (begun: bool)
        ensures
            begun == (*old(self) is Reserving),
            *final(self) == if begun {
                ManualCapture::Begin
            } else {
                *old(self)
            },
    {
        if matches!(*self, ManualCapture::Reserving) {
            *self = ManualCapture::Begin;
            true
        } else {
            false
        }
    }

    /// Asks the audio worker to end the capture.
    pub fn end(&mut self) -> (accepted: bool)
        ensures
            accepted == (*old(self) is Begin || *old(self) is Active || *old(self) is Finish),
            *final(self) == if accepted {
                ManualCapture::Finish
            } else {
                *old(self)
            },
    {
        match *self {
            ManualCapture::Begin | ManualCapture::Active | ManualCapture::Finish => {
                *self = ManualCapture::Finish;
                true
            },
            _ => false,
        }
    }

    /// Gives the capture up, telling whether there was one.
    pub fn release(&mut self) -> (active: bool)
        ensures
            active == (*old(self) !is Idle),
            *final(self) is Idle,
    {
        let active = !matches!(*self, ManualCapture::Idle);
        *self = ManualCapture::Idle;
        active
    }
}

/// Finds speech that ended without a wake word.
#[derive(Debug, Clone, Copy, PartialEq, Eq, Structural)]
pub struct MissedWakeWord {
    /// Whether speech was heard.
    pub speech: bool,
    /// Samples of silence since then.
    pub silence_samples: usize,
}

impl Default for MissedWakeWord {
    fn default() -> (tracker: Self)
        ensures
            tracker == no_speech(),
    {
        MissedWakeWord { speech: false, silence_samples: 0 }
    }
}

/// A tracker that heard nothing yet.
pub open spec fn no_speech() -> MissedWakeWord {
    MissedWakeWord { speech: false, silence_samples: 0 }
}

/// Whether a level reaches the threshold of speech.
pub open spec fn is_speech(level: Real32, threshold: Real32) -> bool {
    threshold.at_most_spec(level)
}

impl MissedWakeWord {
    /// The tracker after one more frame, before it reports.
    pub open spec fn heard(self, speech: bool, frame_samples: usize) -> Self {
        if speech {
            MissedWakeWord { speech: true, silence_samples: 0 }
        } else if self.speech {
            MissedWakeWord {
                silence_samples: if self.silence_samples + frame_samples > usize::MAX {
                    usize::MAX
                } else {
                    (self.silence_samples + frame_samples) as usize
                },
                ..self
            }
        } else {
            self
        }
    }

    /// Whether speech was followed by enough silence.
    pub open spec fn over(self, trailing_silence_samples: usize) -> bool {
        self.speech && self.silence_samples >= trailing_silence_samples
    }

    /// Forgets what was heard.
    pub fn reset(&mut self)
        ensures
            *final(self) == no_speech(),
    {
        *self = MissedWakeWord::default();
    }

    /// Takes the level of one frame, and tells whether speech has just ended unanswered; after
    /// that it starts anew.
    pub fn observe(
        &mut self,
        frame_rms: Real32,
        threshold: Real32,
        frame_samples: usize,
        trailing_silence_samples: usize,
    ) -> (missed: bool)
        ensures
            ({
                let heard = old(self).heard(is_speech(frame_rms, threshold), frame_samples);
                missed == heard.over(trailing_silence_samples) && *final(self) == if missed {
                    no_speech()
                } else {
                    heard
                }
            }),
    {
        if threshold.at_most(frame_rms) {
            self.speech = true;
            self.silence_samples = 0;
        } else if self.speech {
            self.silence_samples = self.silence_samples.saturating_add(frame_samples);
        }
        let missed = self.speech && self.silence_samples >= trailing_silence_samples;
        if missed {
            self.reset();
        }
        missed
    }
}

/// What a session tells the runtime.
pub enum PipelineMessage<S> {
    /// The wake word was heard; samples per second of what follows.
    WakeWord(u32),
    /// Speech began without a wake word; samples per second of what follows.
    Speech(u32),
    /// A manual capture began; samples per second of what follows.
    StreamBegin(u32),
    /// Samples for incremental STT.
    StreamChunk(Vec<S>),
    /// A complete utterance.
    Command {
        /// Its audio.
        request: TranscriptionRequest<S>,
        /// Whether a wake word or an application authorizes a command.
        authorized: bool,
    },
    /// A capture ended with the session.
    CaptureCancelled,
    /// A capture gave nothing to transcribe.
    CaptureUnavailable(TranscriptUnavailableReason),
    /// Speech was left without a transcript.
    TranscriptUnavailable(TranscriptUnavailableReason),
    /// Microphone level.
    AudioLevel(Real32),
    /// The active input device changed.
    AudioDeviceChanged(Option<AudioDeviceInfo>),
    /// The selected input device is missing and the default one is used.
    AudioDeviceFallback {
        /// Selected device identifier.
        requested_device_id: String,
        /// The device in use.
        device: AudioDeviceInfo,
    },
    /// The session failed.
    AudioError(String),
}

/// What a [`PipelineMessage`] says.
pub enum MessageView<S> {
    /// The wake word was heard.
    WakeWord(u32),
    /// Speech began without a wake word.
    Speech(u32),
    /// A manual capture began.
    StreamBegin(u32),
    /// Samples for incremental STT.
    StreamChunk(Seq<S>),
    /// A complete utterance.
    Command { samples: Seq<S>, sample_rate: u32, authorized: bool },
    /// A capture ended with the session.
    CaptureCancelled,
    /// A capture gave nothing to transcribe.
    CaptureUnavailable(TranscriptUnavailableReason),
    /// Speech was left without a transcript.
    TranscriptUnavailable(TranscriptUnavailableReason),
    /// Microphone level.
    AudioLevel(Real32),
    /// The active input device changed.
    AudioDeviceChanged(Option<DeviceView>),
    /// The default input device replaces the selected one.
    AudioDeviceFallback { requested_device_id: Seq<char>, device: DeviceView },
    /// The session failed.
    AudioError(Seq<char>),
}

impl<S> View for PipelineMessage<S> {
    type V = MessageView<S>;

    open spec fn view(&self) -> MessageView<S> {
        match self {
            PipelineMessage::WakeWord(rate) => MessageView::WakeWord(*rate),
            PipelineMessage::Speech(rate) => MessageView::Speech(*rate),
            PipelineMessage::StreamBegin(rate) => MessageView::StreamBegin(*rate),
            PipelineMessage::StreamChunk(samples) => MessageView::StreamChunk(samples@),
            PipelineMessage::Command { request, authorized } => MessageView::Command {
                samples: request.samples@,
                sample_rate: request.sample_rate,
                authorized: *authorized,
            },
            PipelineMessage::CaptureCancelled => MessageView::CaptureCancelled,
            PipelineMessage::CaptureUnavailable(reason) => MessageView::CaptureUnavailable(*reason),
            PipelineMessage::TranscriptUnavailable(reason) => MessageView::TranscriptUnavailable(
                *reason,
            ),
            PipelineMessage::AudioLevel(rms) => MessageView::AudioLevel(*rms),
            PipelineMessage::AudioDeviceChanged(device) => MessageView::AudioDeviceChanged(
                option_view(*device),
            ),
            PipelineMessage::AudioDeviceFallback { requested_device_id, device } =>
                MessageView::AudioDeviceFallback {
                    requested_device_id: requested_device_id@,
                    device: device@,
                },
            PipelineMessage::AudioError(message) => MessageView::AudioError(message@),
        }
    }
}

/// A message with the promise that goes with it.
pub struct Outgoing<S> {
    /// What is said.
    pub message: PipelineMessage<S>,
    /// Whether a full queue may lose it.
    pub droppable: bool,
}

/// What an [`Outgoing`] holds.
pub struct OutgoingView<S> {
    /// What is said.
    pub message: MessageView<S>,
    /// Whether a full queue may lose it.
    pub droppable: bool,
}

impl<S> View for Outgoing<S> {
    type V = OutgoingView<S>;

    open spec fn view(&self) -> OutgoingView<S> {
        OutgoingView { message: self.message@, droppable: self.droppable }
    }
}

/// A message that has to arrive.
pub open spec fn required<S>(message: MessageView<S>) -> Seq<OutgoingView<S>> {
    seq![OutgoingView { message, droppable: false }]
}

/// A message that may get lost.
pub open spec fn droppable<S>(message: MessageView<S>) -> Seq<OutgoingView<S>> {
    seq![OutgoingView { message, droppable: true }]
}

/// Adds a message at the end.
fn say<S>(messages: &mut Vec<Outgoing<S>>, message: PipelineMessage<S>, droppable: bool)
    ensures
        views(final(messages)@) == views(old(messages)@) + seq![
            OutgoingView { message: message@, droppable },
        ],
{
    messages.push(Outgoing { message, droppable });
    assert(views(messages@) =~= views(old(messages)@) + seq![
        OutgoingView { message: message@, droppable },
    ]);
}

/// The batch that samples make: none where there are none.
pub open spec fn chunk_of<S>(samples: Seq<S>) -> Seq<OutgoingView<S>> {
    if samples.len() == 0 {
        Seq::empty()
    } else {
        required(MessageView::StreamChunk(samples))
    }
}

/// Hands the buffered samples over as one batch.
pub fn flush_stream_chunk<S>(messages: &mut Vec<Outgoing<S>>, buffered: &mut Vec<S>)
    ensures
        final(buffered)@ == Seq::<S>::empty(),
        views(final(messages)@) == views(old(messages)@) + chunk_of(old(buffered)@),
{
    if buffered.len() == 0 {
        assert(buffered@ =~= Seq::empty());
        assert(views(messages@) =~= views(old(messages)@) + chunk_of(old(buffered)@));
        return ;
    }
    let mut samples: Vec<S> = Vec::new();
    std::mem::swap(&mut samples, buffered);
    say(messages, PipelineMessage::StreamChunk(samples), false);
}

/// Limits that stay the same over a session.
#[derive(Debug, Clone, Copy, PartialEq, Eq, Structural)]
pub struct SessionSettings {
    /// Samples per second.
    pub sample_rate: u32,
    /// Samples in one frame.
    pub frame_samples: usize,
    /// Samples in one batch for incremental STT.
    pub chunk_samples: usize,
    /// Samples retained before a capture.
    pub pre_roll_samples: usize,
    /// Fewest samples of a command.
    pub min_samples: usize,
    /// Most samples of a command.
    pub max_samples: usize,
    /// Samples of silence that end a command.
    pub trailing_silence_samples: usize,
    /// Level of speech.
    pub vad_threshold: Real32,
    /// Milliseconds before another wake word is accepted.
    pub cooldown_ms: u64,
    /// Longest time without samples.
    pub stall_timeout_ms: u64,
}

/// The limits that a configuration sets.
pub open spec fn session_settings(config: ConfigView) -> SessionSettings {
    let rate = config.audio.target_sample_rate;
    SessionSettings {
        sample_rate: rate,
        frame_samples: duration_samples(rate, config.audio.frame_ms),
        chunk_samples: duration_samples(rate, STREAMING_STT_CHUNK_MS),
        pre_roll_samples: duration_samples(rate, config.audio.pre_roll_ms),
        min_samples: duration_samples(rate, config.audio.command_min_ms),
        max_samples: duration_samples(rate, config.audio.command_max_ms),
        trailing_silence_samples: duration_samples(rate, config.audio.trailing_silence_ms),
        vad_threshold: config.audio.vad_threshold,
        cooldown_ms: config.wake_word.cooldown_ms,
        stall_timeout_ms: config.audio.stall_timeout_ms,
    }
}

/// Reads the limits out of a configuration.
fn settings_of(config: &CoreConfig) -> (settings: SessionSettings)
    ensures
        settings == session_settings(config@),
{
    let rate: u32 = config.audio.target_sample_rate;
    SessionSettings {
        sample_rate: rate,
        frame_samples: samples_for_ms(rate, config.audio.frame_ms),
        chunk_samples: samples_for_ms(rate, STREAMING_STT_CHUNK_MS),
        pre_roll_samples: samples_for_ms(rate, config.audio.pre_roll_ms),
        min_samples: samples_for_ms(rate, config.audio.command_min_ms),
        max_samples: samples_for_ms(rate, config.audio.command_max_ms),
        trailing_silence_samples: samples_for_ms(rate, config.audio.trailing_silence_ms),
        vad_threshold: config.audio.vad_threshold,
        cooldown_ms: config.wake_word.cooldown_ms,
        stall_timeout_ms: config.audio.stall_timeout_ms,
    }
}

/// Why a session ended without a failure.
#[derive(Debug, Clone, Copy, PartialEq, Eq, Structural)]
pub enum SessionEnd {
    /// The daemon stops.
    Stopped,
    /// Audio settings changed.
    Reconfigured,
    /// Another input device has to be opened.
    InputChanged,
}

/// What a session does next.
#[derive(Debug, Clone, Copy, PartialEq, Eq, Structural)]
pub enum SessionStep {
    /// It is over.
    End(SessionEnd),
    /// Ask for the current input devices.
    CheckDevices,
    /// Wait for the next block.
    Receive,
}

/// What becomes of a block.
#[derive(Debug, Clone, Copy, PartialEq, Eq, Structural)]
pub enum BlockUse {
    /// It is discarded.
    Discard {
        /// Whether the keyword spotter starts anew.
        reset_detector: bool,
    },
    /// It is resampled and processed.
    Process,
}

/// What follows the start of a frame.
#[derive(Debug, Clone, Copy, PartialEq, Eq, Structural)]
pub enum FrameNext {
    /// The frame is done.
    Done,
    /// The keyword spotter hears the frame.
    Detect,
    /// The frame goes on without the keyword spotter.
    Skip,
}

/// What the start of a frame gives.
pub struct FrameStart<S> {
    /// Messages in order.
    pub messages: Vec<Outgoing<S>>,
    /// Whether the keyword spotter starts anew.
    pub reset_detector: bool,
    /// What follows.
    pub next: FrameNext,
}

/// One microphone session.
pub struct AudioSession<S, V> {
    settings: SessionSettings,
    device_id: String,
    active_id: String,
    using_fallback: bool,
    pipeline: CommandAudioPipeline<S, V>,
    buffered: std::collections::VecDeque<S>,
    stream_buffer: Vec<S>,
    cooldown_until: u128,
    last_audio: u64,
    devices_due: u128,
    level_due: u128,
    missed: MissedWakeWord,
    processing: bool,
    authorized: bool,
    speech: bool,
}

/// What an [`AudioSession`] holds besides its detector.
#[verifier::ext_equal]
pub struct SessionView<S> {
    /// Limits.
    pub settings: SessionSettings,
    /// Configured device.
    pub device_id: Seq<char>,
    /// Device in use.
    pub active_id: Seq<char>,
    /// Whether the default device replaces the configured one.
    pub using_fallback: bool,
    /// Pre-roll and capture.
    pub pipeline: PipelineView<S>,
    /// Resampled samples that make no frame yet.
    pub buffered: Seq<S>,
    /// Samples that make no batch yet.
    pub stream_buffer: Seq<S>,
    /// When the next wake word is accepted, in nanoseconds.
    pub cooldown_until: u128,
    /// When the last block came, in nanoseconds.
    pub last_audio: u64,
    /// When the input devices are looked at again, in nanoseconds.
    pub devices_due: u128,
    /// When the next level is reported, in nanoseconds.
    pub level_due: u128,
    /// Speech without a wake word.
    pub missed: MissedWakeWord,
    /// Whether the last block was processed.
    pub processing: bool,
    /// Whether a command may follow from the capture.
    pub authorized: bool,
    /// Whether a frame of the capture was speech.
    pub speech: bool,
}

impl<S, V> View for AudioSession<S, V> {
    type V = SessionView<S>;

    closed spec fn view(&self) -> SessionView<S> {
        SessionView {
            settings: self.settings,
            device_id: self.device_id@,
            active_id: self.active_id@,
            using_fallback: self.using_fallback,
            pipeline: self.pipeline@,
            buffered: self.buffered@,
            stream_buffer: self.stream_buffer@,
            cooldown_until: self.cooldown_until,
            last_audio: self.last_audio,
            devices_due: self.devices_due,
            level_due: self.level_due,
            missed: self.missed,
            processing: self.processing,
            authorized: self.authorized,
            speech: self.speech,
        }
    }
}

/// A moment some milliseconds after another one, in nanoseconds.
pub open spec fn moment_after(now: u64, millis: int) -> u128 {
    (now + millis * NANOS_PER_MILLI) as u128
}

/// A session, the manual capture and the messages after a step.
#[verifier::ext_equal]
pub struct Heard<S> {
    /// The session.
    pub session: SessionView<S>,
    /// The manual capture.
    pub manual: ManualCapture,
    /// Messages in order.
    pub messages: Seq<OutgoingView<S>>,
}

impl<S> SessionView<S> {
    /// A session that begins.
    pub open spec fn opened(
        config: ConfigView,
        active_id: Seq<char>,
        using_fallback: bool,
        now: u64,
    ) -> Self {
        let settings = session_settings(config);
        SessionView {
            settings,
            device_id: config.audio.device_id,
            active_id,
            using_fallback,
            pipeline: PipelineView {
                ring: Seq::empty(),
                collector: None,
                pre_roll_samples: settings.pre_roll_samples as nat,
                min_samples: settings.min_samples as nat,
                max_samples: settings.max_samples as nat,
                trailing_silence_samples: settings.trailing_silence_samples as nat,
            },
            buffered: Seq::empty(),
            stream_buffer: Seq::empty(),
            cooldown_until: now as u128,
            last_audio: now,
            devices_due: moment_after(now, DEVICE_CHECK_INTERVAL_MS as int),
            level_due: now as u128,
            missed: no_speech(),
            processing: true,
            authorized: false,
            speech: false,
        }
    }

    /// Whether a capture is active.
    pub open spec fn collecting(self) -> bool {
        self.pipeline.collector is Some
    }

    /// Whether neither a capture nor a cooldown is active.
    pub open spec fn idle(self, manual: ManualCapture, now: u64) -> bool {
        manual is Idle && !self.collecting() && now >= self.cooldown_until
    }

    /// Whether the keyword spotter hears a frame: outside a cooldown, where no wake word and no
    /// application authorized a capture yet.
    pub open spec fn detects(self, manual: ManualCapture, now: u64) -> bool {
        manual is Idle && !(self.collecting() && self.authorized) && now >= self.cooldown_until
    }

    /// Whether the session follows the default device.
    pub open spec fn watches_devices(self) -> bool {
        self.device_id == DEFAULT_DEVICE@ || self.using_fallback
    }

    /// The session without anything heard.
    pub open spec fn paused(self) -> Self {
        SessionView {
            buffered: Seq::empty(),
            stream_buffer: Seq::empty(),
            pipeline: self.pipeline.cleared(),
            missed: no_speech(),
            processing: false,
            ..self
        }
    }

    /// The session with a manual capture.
    pub open spec fn manually_started(self) -> Self {
        if self.collecting() {
            SessionView { authorized: true, ..self }
        } else {
            SessionView {
                pipeline: self.pipeline.cleared().capturing(Seq::empty()),
                authorized: true,
                speech: false,
                ..self
            }
        }
    }

    /// The samples that the capture would give if it ended now.
    pub open spec fn kept(self) -> Option<Seq<S>> {
        match self.pipeline.collector {
            Some(collector) => if collector.samples.len() >= collector.min_samples {
                Some(collector.samples)
            } else {
                None
            },
            None => None,
        }
    }

    /// The session after a level was measured.
    pub open spec fn levelled(self, now: u64) -> Self {
        if now >= self.level_due {
            SessionView { level_due: moment_after(now, LEVEL_INTERVAL_MS as int), ..self }
        } else {
            self
        }
    }

    /// The report of a level: at most one in a hundred milliseconds.
    pub open spec fn level_report(self, level: Real32, now: u64) -> Seq<OutgoingView<S>> {
        if now >= self.level_due {
            droppable(MessageView::AudioLevel(level))
        } else {
            Seq::empty()
        }
    }

    /// What a capture that an application ended gives.
    pub open spec fn manual_result(self) -> MessageView<S> {
        match self.kept() {
            None => MessageView::CaptureUnavailable(TranscriptUnavailableReason::TooShort),
            Some(samples) => if self.speech {
                MessageView::Command {
                    samples,
                    sample_rate: self.settings.sample_rate,
                    authorized: true,
                }
            } else {
                MessageView::CaptureUnavailable(TranscriptUnavailableReason::Silence)
            },
        }
    }

    /// The session after a manual capture ended.
    pub open spec fn manually_finished(self, now: u64) -> Self {
        SessionView {
            pipeline: self.pipeline.cleared(),
            stream_buffer: Seq::empty(),
            cooldown_until: moment_after(now, self.settings.cooldown_ms as int),
            ..self
        }
    }

    /// The start of a frame: its level, and what applications asked for.
    pub open spec fn begin_frame(self, level: Real32, manual: ManualCapture, now: u64) -> Heard<S> {
        let session = self.levelled(now);
        let report = self.level_report(level, now);
        match manual {
            ManualCapture::Begin => Heard {
                session: session.manually_started(),
                manual: ManualCapture::Active,
                messages: report + required(MessageView::StreamBegin(self.settings.sample_rate)),
            },
            ManualCapture::Finish => {
                let started = session.manually_started();
                Heard {
                    session: started.manually_finished(now),
                    manual: ManualCapture::Idle,
                    messages: report + chunk_of(self.stream_buffer) + required(
                        started.manual_result(),
                    ),
                }
            },
            _ => Heard { session, manual, messages: report },
        }
    }
}

/// Whether a device is among those present.
pub open spec fn lists(devices: Seq<AudioDeviceInfo>, id: Seq<char>) -> bool {
    exists|i: int| 0 <= i < devices.len() && #[trigger] devices[i].id@ == id
}

/// Tells whether a device is among those present.
pub fn is_listed(devices: &Vec<AudioDeviceInfo>, id: &str) -> (listed: bool)
    ensures
        listed == lists(devices@, id@),
{
    let mut i: usize = 0;
    while i < devices.len()
        invariant
            0 <= i <= devices@.len(),
            forall|j: int| 0 <= j < i ==> #[trigger] devices@[j].id@ != id@,
        decreases devices@.len() - i,
    {
        if same_text(devices[i].id.as_str(), id) {
            assert(devices@[i as int].id@ == id@);
            return true;
        }
        i = i + 1;
    }
    false
}

/// Tells whether the default device may replace one that could not be opened: only where a
/// device was selected and it is not present.
pub fn may_fall_back(requested_device_id: &str, devices: &Vec<AudioDeviceInfo>) -> (answer: bool)
    ensures
        answer == (requested_device_id@ != DEFAULT_DEVICE@ && !lists(
            devices@,
            requested_device_id@,
        )),
{
    !same_text(requested_device_id, DEFAULT_DEVICE) && !is_listed(devices, requested_device_id)
}

/// Explains that neither the selected nor the default device could be opened.
pub fn fallback_error(selected: &str, fallback: &str) -> (message: String)
    ensures
        message@ == selected@ + "; system default fallback failed: "@ + fallback@,
{
    let mut message = selected.to_owned();
    message.append("; system default fallback failed: ");
    message.append(fallback);
    message
}

/// Announces the device that a session opened.
pub fn opening_messages<S>(requested_device_id: &str, device: &AudioDeviceInfo, using_fallback: bool) -> (messages:
    Vec<Outgoing<S>>)
    ensures
        views(messages@) == (if using_fallback {
            required(
                MessageView::<S>::AudioDeviceFallback {
                    requested_device_id: requested_device_id@,
                    device: device@,
                },
            )
        } else {
            Seq::empty()
        }) + required(MessageView::<S>::AudioDeviceChanged(Some(device@))),
{
    let mut messages: Vec<Outgoing<S>> = Vec::new();
    assert(views(messages@) =~= Seq::empty());
    if using_fallback {
        say(
            &mut messages,
            PipelineMessage::AudioDeviceFallback {
                requested_device_id: requested_device_id.to_owned(),
                device: device.duplicate(),
            },
            false,
        );
    }
    say(&mut messages, PipelineMessage::AudioDeviceChanged(Some(device.duplicate())), false);
    messages
}

impl<S, V> AudioSession<S, V> {
    /// Whether the capture has the configured shape.
    pub closed spec fn well_formed(self) -> bool {
        self.pipeline.well_formed()
    }
}

impl<S: Copy, V: VoiceActivityDetector<S>> AudioSession<S, V> {
    /// Begins a session on an open device.
    pub fn new(config: &CoreConfig, vad: V, active_id: &str, using_fallback: bool, now: u64) -> (session:
        Self)
        ensures
            session.well_formed(),
            session@ == SessionView::<S>::opened(config@, active_id@, using_fallback, now),
    {
        let settings = settings_of(config);
        let session = AudioSession {
            settings,
            device_id: config.audio.device_id.clone(),
            active_id: active_id.to_owned(),
            using_fallback,
            pipeline: CommandAudioPipeline::new(
                vad,
                settings.pre_roll_samples,
                settings.min_samples,
                settings.max_samples,
                settings.trailing_silence_samples,
            ),
            buffered: std::collections::VecDeque::new(),
            stream_buffer: Vec::new(),
            cooldown_until: now as u128,
            last_audio: now,
            devices_due: now as u128 + DEVICE_CHECK_INTERVAL_MS * NANOS_PER_MILLI,
            level_due: now as u128,
            missed: MissedWakeWord::default(),
            processing: true,
            authorized: false,
            speech: false,
        };
        assert(session@ =~= SessionView::<S>::opened(config@, active_id@, using_fallback, now));
        session
    }

    /// Decides what a session does next.
    pub fn poll(&mut self, stopping: bool, reconfigured: bool, now: u64) -> (step: SessionStep)
        ensures
            step == if stopping {
                SessionStep::End(SessionEnd::Stopped)
            } else if reconfigured {
                SessionStep::End(SessionEnd::Reconfigured)
            } else if old(self)@.watches_devices() && now >= old(self)@.devices_due {
                SessionStep::CheckDevices
            } else {
                SessionStep::Receive
            },
            final(self).well_formed() == old(self).well_formed(),
            final(self)@ == if step is CheckDevices {
                SessionView {
                    devices_due: moment_after(now, DEVICE_CHECK_INTERVAL_MS as int),
                    ..old(self)@
                }
            } else {
                old(self)@
            },
    {
        if stopping {
            return SessionStep::End(SessionEnd::Stopped);
        }
        if reconfigured {
            return SessionStep::End(SessionEnd::Reconfigured);
        }
        if (same_text(self.device_id.as_str(), DEFAULT_DEVICE) || self.using_fallback) && now as u128
            >= self.devices_due {
            self.devices_due = now as u128 + DEVICE_CHECK_INTERVAL_MS * NANOS_PER_MILLI;
            return SessionStep::CheckDevices;
        }
        SessionStep::Receive
    }

    /// Takes the current default device and the devices present. Where another device has to be
    /// opened the session is over, and a capture in progress is given up.
    pub fn devices_checked(
        &self,
        current_default_id: &str,
        devices: &Vec<AudioDeviceInfo>,
        manual: &mut ManualCapture,
    ) -> (end: Option<Vec<Outgoing<S>>>)
        ensures
            ({
                let reopen = reopens(
                    self@.device_id,
                    self@.active_id,
                    current_default_id@,
                    self@.using_fallback,
                    self@.using_fallback && lists(devices@, self@.device_id),
                );
                &&& end is Some == reopen
                &&& *final(manual) == if reopen {
                    ManualCapture::Idle
                } else {
                    *old(manual)
                }
                &&& end matches Some(messages) ==> views(messages@) == if self@.collecting() || *old(
                    manual,
                ) !is Idle {
                    required(MessageView::<S>::CaptureCancelled)
                } else {
                    Seq::empty()
                }
            }),
    {
        let selected_available = self.using_fallback && is_listed(devices, self.device_id.as_str());
        if !should_reopen_audio(
            self.device_id.as_str(),
            self.active_id.as_str(),
            current_default_id,
            self.using_fallback,
            selected_available,
        ) {
            return None;
        }
        let manual_active = manual.release();
        let mut messages: Vec<Outgoing<S>> = Vec::new();
        assert(views(messages@) =~= Seq::empty());
        if self.pipeline.is_collecting() || manual_active {
            say(&mut messages, PipelineMessage::CaptureCancelled, false);
        }
        Some(messages)
    }

    /// Takes that no block came in time: after too long a silence of the device the session
    /// fails.
    pub fn no_block(&self, now: u64) -> (result: Result<(), String>)
        ensures
            match result {
                Ok(_) => now < self@.last_audio + self@.settings.stall_timeout_ms * NANOS_PER_MILLI,
                Err(message) => now >= self@.last_audio + self@.settings.stall_timeout_ms
                    * NANOS_PER_MILLI && message@ == "audio callback stalled"@,
            },
    {
        if now as u128 >= self.last_audio as u128 + self.settings.stall_timeout_ms as u128
            * NANOS_PER_MILLI {
            Err("audio callback stalled".to_owned())
        } else {
            Ok(())
        }
    }

    /// Takes that a block came. While nobody listens blocks are discarded, and what was heard
    /// before is forgotten.
    pub fn block_received(&mut self, listening: bool, manual: &mut ManualCapture, now: u64) -> (block_use:
        BlockUse)
        requires
            old(self).well_formed(),
        ensures
            final(self).well_formed(),
            ({
                let timed = SessionView { last_audio: now, ..old(self)@ };
                if listening {
                    &&& block_use == BlockUse::Process
                    &&& final(self)@ == SessionView { processing: true, ..timed }
                    &&& *final(manual) == *old(manual)
                } else if old(self)@.processing {
                    &&& block_use == (BlockUse::Discard { reset_detector: true })
                    &&& final(self)@ == timed.paused()
                    &&& *final(manual) is Idle
                } else {
                    &&& block_use == (BlockUse::Discard { reset_detector: false })
                    &&& final(self)@ == timed
                    &&& *final(manual) == *old(manual)
                }
            }),
    {
        self.last_audio = now;
        if listening {
            self.processing = true;
            return BlockUse::Process;
        }
        if self.processing {
            self.buffered = std::collections::VecDeque::new();
            self.stream_buffer = Vec::new();
            self.pipeline.reset();
            let _ = manual.release();
            self.missed.reset();
            self.processing = false;
            proof {
                assert(self@ =~= (SessionView { last_audio: now, ..old(self)@ }).paused());
            }
            return BlockUse::Discard { reset_detector: true };
        }
        BlockUse::Discard { reset_detector: false }
    }

    /// Adds resampled samples.
    pub fn buffer(&mut self, samples: &Vec<S>)
        ensures
            final(self).well_formed() == old(self).well_formed(),
            final(self)@ == (SessionView { buffered: old(self)@.buffered + samples@, ..old(self)@ }),
    {
        let mut i: usize = 0;
        assert(self@.buffered =~= old(self)@.buffered + samples@.take(0));
        while i < samples.len()
            invariant
                0 <= i <= samples@.len(),
                self.well_formed() == old(self).well_formed(),
                self@ == (SessionView {
                    buffered: old(self)@.buffered + samples@.take(i as int),
                    ..old(self)@
                }),
            decreases samples@.len() - i,
        {
            let ghost before = self@;
            self.buffered.push_back(samples[i]);
            assert(self@ =~= SessionView {
                buffered: before.buffered.push(samples@[i as int]),
                ..before
            });
            assert(before.buffered.push(samples@[i as int]) =~= old(self)@.buffered + samples@.take(
                i + 1,
            ));
            i = i + 1;
        }
        assert(samples@.take(i as int) =~= samples@);
    }

    /// Takes the next whole frame out of the buffer.
    pub fn next_frame(&mut self) -> (frame: Option<Vec<S>>)
        ensures
            final(self).well_formed() == old(self).well_formed(),
            ({
                let size = old(self)@.settings.frame_samples as int;
                let buffered = old(self)@.buffered;
                match frame {
                    Some(frame) => buffered.len() >= size && frame@ == buffered.take(size)
                        && final(self)@ == (SessionView {
                        buffered: buffered.skip(size),
                        ..old(self)@
                    }),
                    None => buffered.len() < size && final(self)@ == old(self)@,
                }
            }),
    {
        let size: usize = self.settings.frame_samples;
        if self.buffered.len() < size {
            return None;
        }
        let ghost held = self@.buffered;
        let mut frame: Vec<S> = Vec::new();
        assert(held.take(0) =~= Seq::empty());
        assert(held.skip(0) =~= held);
        while frame.len() < size
            invariant
                frame@.len() <= size <= held.len(),
                frame@ == held.take(frame@.len() as int),
                self.well_formed() == old(self).well_formed(),
                self@ == (SessionView { buffered: held.skip(frame@.len() as int), ..old(self)@ }),
            decreases size - frame@.len(),
        {
            let ghost taken = frame@.len() as int;
            let ghost before = self@;
            match self.buffered.pop_front() {
                Some(sample) => {
                    frame.push(sample);
                    assert(frame@ =~= held.take(taken + 1));
                    assert(held.skip(taken).subrange(1, held.skip(taken).len() as int) =~= held.skip(
                        taken + 1,
                    ));
                    assert(self@ =~= SessionView { buffered: held.skip(taken + 1), ..before });
                },
                None => {
                    assert(false);
                    return None;
                },
            }
        }
        Some(frame)
    }

    /// Starts a frame with the level measured of it: reports the level, starts or ends a manual
    /// capture, and says whether the keyword spotter hears the frame.
    pub fn begin_frame(&mut self, level: Real32, manual: &mut ManualCapture, now: u64) -> (start:
        FrameStart<S>)
        requires
            old(self).well_formed(),
        ensures
            final(self).well_formed(),
            ({
                let heard = old(self)@.begin_frame(level, *old(manual), now);
                &&& final(self)@ == heard.session
                &&& *final(manual) == heard.manual
                &&& views(start.messages@) == heard.messages
                &&& start.reset_detector == (*old(manual) is Begin)
                &&& start.next == if *old(manual) is Finish {
                    FrameNext::Done
                } else if heard.session.detects(heard.manual, now) {
                    FrameNext::Detect
                } else {
                    FrameNext::Skip
                }
            }),
    {
        let mut messages: Vec<Outgoing<S>> = Vec::new();
        assert(views(messages@) =~= Seq::empty());
        if now as u128 >= self.level_due {
            say(&mut messages, PipelineMessage::AudioLevel(level), true);
            self.level_due = now as u128 + LEVEL_INTERVAL_MS * NANOS_PER_MILLI;
        }
        assert(self@ =~= old(self)@.levelled(now));
        assert(views(messages@) =~= old(self)@.level_report(level, now));
        match *manual {
            ManualCapture::Begin => {
                *manual = ManualCapture::Active;
                self.start_manual();
                say(&mut messages, PipelineMessage::StreamBegin(self.settings.sample_rate), false);
                FrameStart { messages, reset_detector: true, next: FrameNext::Skip }
            },
            ManualCapture::Finish => {
                self.start_manual();
                let ghost started = self@;
                let captured = self.pipeline.finish();
                *manual = ManualCapture::Idle;
                flush_stream_chunk(&mut messages, &mut self.stream_buffer);
                let message = match captured {
                    None => PipelineMessage::CaptureUnavailable(
                        TranscriptUnavailableReason::TooShort,
                    ),
                    Some(samples) => if self.speech {
                        PipelineMessage::Command {
                            request: TranscriptionRequest {
                                samples,
                                sample_rate: self.settings.sample_rate,
                            },
                            authorized: true,
                        }
                    } else {
                        PipelineMessage::CaptureUnavailable(TranscriptUnavailableReason::Silence)
                    },
                };
                assert(message@ == started.manual_result());
                say(&mut messages, message, false);
                self.cooldown_until = now as u128 + self.settings.cooldown_ms as u128
                    * NANOS_PER_MILLI;
                assert(self@ =~= started.manually_finished(now));
                FrameStart { messages, reset_detector: false, next: FrameNext::Done }
            },
            _ => {
                let detect = matches!(*manual, ManualCapture::Idle) && !(
                self.pipeline.is_collecting() && self.authorized) && now as u128
                    >= self.cooldown_until;
                FrameStart {
                    messages,
                    reset_detector: false,
                    next: if detect {
                        FrameNext::Detect
                    } else {
                        FrameNext::Skip
                    },
                }
            },
        }
    }

    /// Starts a manual capture where none is active.
    fn start_manual(&mut self)
        requires
            old(self).well_formed(),
        ensures
            final(self).well_formed(),
            final(self)@ == old(self)@.manually_started(),
    {
        if !self.pipeline.is_collecting() {
            self.pipeline.start_manual();
            self.speech = false;
        }
        self.authorized = true;
        assert(self@ =~= old(self)@.manually_started());
    }
}

/// How a frame with a level is classified.
pub open spec fn decision_of(level: Real32, threshold: Real32) -> VadDecision {
    if is_speech(level, threshold) {
        VadDecision::Speech
    } else {
        VadDecision::Silence
    }
}

/// What the rest of a frame is about.
pub struct Frame<S> {
    /// Its samples.
    pub samples: Seq<S>,
    /// Its level.
    pub level: Real32,
    /// Whether the keyword spotter heard the wake word.
    pub detected: bool,
    /// Whether every utterance is captured.
    pub continuous: bool,
}

impl<S> SessionView<S> {
    /// Whether a frame is speech.
    pub open spec fn speaking(self, frame: Frame<S>) -> bool {
        is_speech(frame.level, self.settings.vad_threshold)
    }

    /// Whether a capture begins with a frame although no wake word was heard.
    pub open spec fn begins_by_speech(self, frame: Frame<S>, manual: ManualCapture, now: u64) -> bool {
        !frame.detected && frame.continuous && self.speaking(frame) && self.idle(manual, now)
    }

    /// Whether a capture begins with a frame.
    pub open spec fn begins(self, frame: Frame<S>, manual: ManualCapture, now: u64) -> bool {
        frame.detected && !self.collecting() || self.begins_by_speech(frame, manual, now)
    }

    /// Whether a frame is watched for speech that stays without a wake word.
    pub open spec fn watches_speech(self, frame: Frame<S>, manual: ManualCapture, now: u64) -> bool {
        !frame.detected && !self.begins_by_speech(frame, manual, now) && self.idle(manual, now)
    }

    /// What was heard without a wake word, up to a frame.
    pub open spec fn unanswered(self, frame: Frame<S>) -> MissedWakeWord {
        self.missed.heard(self.speaking(frame), frame.samples.len() as usize)
    }

    /// What a frame announces.
    pub open spec fn announcement(self, frame: Frame<S>, manual: ManualCapture, now: u64) -> Seq<
        OutgoingView<S>,
    > {
        if frame.detected && !self.collecting() {
            required(MessageView::WakeWord(self.settings.sample_rate))
        } else if self.begins_by_speech(frame, manual, now) {
            required(MessageView::Speech(self.settings.sample_rate))
        } else if self.watches_speech(frame, manual, now) && self.unanswered(frame).over(
            self.settings.trailing_silence_samples,
        ) {
            droppable(
                MessageView::TranscriptUnavailable(
                    TranscriptUnavailableReason::WakeWordNotDetected,
                ),
            )
        } else {
            Seq::empty()
        }
    }

    /// The tracker of speech without a wake word after a frame.
    pub open spec fn missed_after(self, frame: Frame<S>, manual: ManualCapture, now: u64) -> MissedWakeWord {
        if frame.detected || self.begins_by_speech(frame, manual, now) {
            no_speech()
        } else if self.watches_speech(frame, manual, now) {
            let heard = self.unanswered(frame);
            if heard.over(self.settings.trailing_silence_samples) {
                no_speech()
            } else {
                heard
            }
        } else {
            self.missed
        }
    }

    /// Pre-roll and capture after a frame, and the utterance where it completes.
    pub open spec fn advanced(self, frame: Frame<S>, manual: ManualCapture, now: u64) -> (
        PipelineView<S>,
        Option<Seq<S>>,
    ) {
        if self.collecting() {
            self.pipeline.captured(
                frame.samples,
                decision_of(frame.level, self.settings.vad_threshold),
            )
        } else {
            (self.pipeline.listened(frame.samples, self.begins(frame, manual, now)), None)
        }
    }

    /// The samples that a frame adds for incremental STT: of a capture that speech began, the
    /// pre-roll too.
    pub open spec fn streamed(self, frame: Frame<S>, manual: ManualCapture, now: u64) -> Seq<S> {
        if self.begins_by_speech(frame, manual, now) {
            last_samples(self.pipeline.ring + frame.samples, self.pipeline.pre_roll_samples)
        } else if frame.detected || self.collecting() {
            frame.samples
        } else {
            Seq::empty()
        }
    }

    /// Whether a command may follow from the capture after a frame.
    pub open spec fn authorized_after(self, frame: Frame<S>, manual: ManualCapture, now: u64) -> bool {
        if self.begins(frame, manual, now) {
            frame.detected
        } else {
            self.authorized || (self.collecting() && frame.detected)
        }
    }

    /// Whether the capture holds speech after a frame.
    pub open spec fn speech_after(self, frame: Frame<S>, manual: ManualCapture, now: u64) -> bool {
        if self.begins(frame, manual, now) {
            self.speaking(frame)
        } else {
            self.speech || (self.collecting() && self.speaking(frame))
        }
    }

    /// The rest of a frame: a capture begins, grows or completes.
    pub open spec fn end_frame(self, frame: Frame<S>, manual: ManualCapture, now: u64) -> Heard<S> {
        let (pipeline, completed) = self.advanced(frame, manual, now);
        let stream = self.stream_buffer + self.streamed(frame, manual, now);
        let flushed = completed is Some || ((self.collecting() || self.begins(frame, manual, now))
            && stream.len() >= self.settings.chunk_samples);
        let authorized = self.authorized_after(frame, manual, now);
        let speech = self.speech_after(frame, manual, now);
        let session = SessionView {
            pipeline,
            stream_buffer: if flushed {
                Seq::empty()
            } else {
                stream
            },
            missed: self.missed_after(frame, manual, now),
            authorized,
            speech,
            cooldown_until: if completed is Some && authorized {
                moment_after(now, self.settings.cooldown_ms as int)
            } else {
                self.cooldown_until
            },
            ..self
        };
        let announced = self.announcement(frame, manual, now) + if flushed {
            chunk_of(stream)
        } else {
            Seq::empty()
        };
        match completed {
            None => Heard { session, manual, messages: announced },
            Some(samples) => Heard {
                session,
                manual: ManualCapture::Idle,
                messages: announced + required(
                    if manual !is Idle && !speech {
                        MessageView::CaptureUnavailable(TranscriptUnavailableReason::Silence)
                    } else {
                        MessageView::Command {
                            samples,
                            sample_rate: self.settings.sample_rate,
                            authorized,
                        }
                    },
                ),
            },
        }
    }
}

impl<S: Copy, V: VoiceActivityDetector<S>> AudioSession<S, V> {
    /// Adds samples to the batch in progress.
    fn stream(&mut self, samples: &Vec<S>)
        ensures
            final(self).well_formed() == old(self).well_formed(),
            final(self)@ == (SessionView {
                stream_buffer: old(self)@.stream_buffer + samples@,
                ..old(self)@
            }),
    {
        let mut i: usize = 0;
        assert(self@.stream_buffer =~= old(self)@.stream_buffer + samples@.take(0));
        while i < samples.len()
            invariant
                0 <= i <= samples@.len(),
                self.well_formed() == old(self).well_formed(),
                self@ == (SessionView {
                    stream_buffer: old(self)@.stream_buffer + samples@.take(i as int),
                    ..old(self)@
                }),
            decreases samples@.len() - i,
        {
            let ghost before = self@;
            self.stream_buffer.push(samples[i]);
            assert(self@ =~= SessionView {
                stream_buffer: before.stream_buffer.push(samples@[i as int]),
                ..before
            });
            assert(before.stream_buffer.push(samples@[i as int]) =~= old(self)@.stream_buffer
                + samples@.take(i + 1));
            i = i + 1;
        }
        assert(samples@.take(i as int) =~= samples@);
    }

    /// Ends a frame with what the keyword spotter heard in it: a capture begins, grows or
    /// completes, and the messages say so.
    pub fn end_frame(
        &mut self,
        frame: &Vec<S>,
        level: Real32,
        detected: bool,
        continuous: bool,
        manual: &mut ManualCapture,
        now: u64,
    ) -> (messages: Vec<Outgoing<S>>)
        requires
            old(self).well_formed(),
        ensures
            final(self).well_formed(),
            ({
                let heard = old(self)@.end_frame(
                    Frame { samples: frame@, level, detected, continuous },
                    *old(manual),
                    now,
                );
                &&& final(self)@ == heard.session
                &&& *final(manual) == heard.manual
                &&& views(messages@) == heard.messages
            }),
    {
        let ghost before = self@;
        let ghost whole = Frame { samples: frame@, level, detected, continuous };
        let ghost held = *manual;
        let rate: u32 = self.settings.sample_rate;
        let mut messages: Vec<Outgoing<S>> = Vec::new();
        assert(views(messages@) =~= Seq::empty());
        let speaking = self.settings.vad_threshold.at_most(level);
        let was_collecting = self.pipeline.is_collecting();
        let was_manual = !matches!(*manual, ManualCapture::Idle);
        let idle = !was_manual && !was_collecting && now as u128 >= self.cooldown_until;
        let by_speech = !detected && continuous && speaking && idle;
        let begins = detected && !was_collecting || by_speech;
        if detected || by_speech {
            self.missed.reset();
            if detected {
                if !was_collecting {
                    say(&mut messages, PipelineMessage::WakeWord(rate), false);
                }
            } else {
                say(&mut messages, PipelineMessage::Speech(rate), false);
            }
        } else if idle {
            let missed = self.missed.observe(
                level,
                self.settings.vad_threshold,
                frame.len(),
                self.settings.trailing_silence_samples,
            );
            if missed {
                say(
                    &mut messages,
                    PipelineMessage::TranscriptUnavailable(
                        TranscriptUnavailableReason::WakeWordNotDetected,
                    ),
                    true,
                );
            }
        }
        assert(views(messages@) =~= before.announcement(whole, held, now));
        let completed = self.pipeline.push_classified(
            frame.as_slice(),
            if speaking {
                VadDecision::Speech
            } else {
                VadDecision::Silence
            },
            begins,
        );
        if begins {
            self.authorized = detected;
            self.speech = speaking;
        } else if was_collecting {
            self.authorized = self.authorized || detected;
            self.speech = self.speech || speaking;
        }
        let ghost pushed = self@;
        proof {
            assert((pushed.pipeline, crate::signal::samples_view(completed)) == before.advanced(
                whole,
                held,
                now,
            ));
            assert(pushed =~= SessionView {
                pipeline: before.advanced(whole, held, now).0,
                missed: before.missed_after(whole, held, now),
                authorized: before.authorized_after(whole, held, now),
                speech: before.speech_after(whole, held, now),
                ..before
            });
        }
        if by_speech {
            let pre_roll = self.pipeline.pre_roll();
            self.stream(&pre_roll);
        } else if detected || was_collecting {
            self.stream(frame);
        }
        let ghost stream = before.stream_buffer + before.streamed(whole, held, now);
        proof {
            assert(stream =~= self@.stream_buffer);
            assert(self@ =~= SessionView { stream_buffer: stream, ..pushed });
        }
        if completed.is_some() || ((was_collecting || begins) && self.stream_buffer.len()
            >= self.settings.chunk_samples) {
            flush_stream_chunk(&mut messages, &mut self.stream_buffer);
        }
        assert(views(messages@) =~= before.announcement(whole, held, now) + if completed is Some || ((
        was_collecting || begins) && stream.len() >= before.settings.chunk_samples) {
            chunk_of(stream)
        } else {
            Seq::empty()
        });
        match completed {
            None => {},
            Some(samples) => {
                *manual = ManualCapture::Idle;
                let message = if was_manual && !self.speech {
                    PipelineMessage::CaptureUnavailable(TranscriptUnavailableReason::Silence)
                } else {
                    PipelineMessage::Command {
                        request: TranscriptionRequest { samples, sample_rate: rate },
                        authorized: self.authorized,
                    }
                };
                say(&mut messages, message, false);
                if self.authorized {
                    self.cooldown_until = now as u128 + self.settings.cooldown_ms as u128
                        * NANOS_PER_MILLI;
                }
            },
        }
        assert(self@ =~= before.end_frame(whole, held, now).session);
        messages
    }
}

/// Levels are reported at most ten times per second: after one report no frame gives another
/// within a hundred milliseconds, whatever else the session does.
pub proof fn levels_are_rationed<S>(
    session: SessionView<S>,
    level: Real32,
    manual: ManualCapture,
    now: u64,
    later: SessionView<S>,
    next_level: Real32,
    soon: u64,
)
    requires
        session.level_report(level, now).len() > 0,
        later.level_due == session.begin_frame(level, manual, now).session.level_due,
        soon < now + LEVEL_INTERVAL_MS * NANOS_PER_MILLI,
    ensures
        later.level_report(next_level, soon).len() == 0,
{
}

/// Only the start of a frame sets when the next level is reported.
pub proof fn levels_wait_for_frames<S>(session: SessionView<S>, frame: Frame<S>, manual: ManualCapture, now: u64)
    ensures
        session.end_frame(frame, manual, now).session.level_due == session.level_due,
        session.paused().level_due == session.level_due,
{
}

/// All batches of a step, one after the other.
pub open spec fn batched<S>(messages: Seq<OutgoingView<S>>) -> Seq<S>
    decreases messages.len(),
{
    if messages.len() == 0 {
        Seq::empty()
    } else {
        batched(messages.drop_last()) + match messages.last().message {
            MessageView::StreamChunk(samples) => samples,
            _ => Seq::empty(),
        }
    }
}

/// Batches of messages that follow one another.
proof fn batched_adds<S>(first: Seq<OutgoingView<S>>, second: OutgoingView<S>)
    ensures
        batched(first + seq![second]) == batched(first) + match second.message {
            MessageView::StreamChunk(samples) => samples,
            _ => Seq::empty(),
        },
{
    assert((first + seq![second]).drop_last() =~= first);
}

/// No sample is lost or doubled on its way to incremental STT: what a frame adds is handed over
/// in order or still buffered.
pub proof fn streamed_samples_arrive<S>(session: SessionView<S>, frame: Frame<S>, manual: ManualCapture, now: u64)
    ensures
        ({
            let heard = session.end_frame(frame, manual, now);
            batched(heard.messages) + heard.session.stream_buffer == session.stream_buffer
                + session.streamed(frame, manual, now)
        }),
{
    let heard = session.end_frame(frame, manual, now);
    let (pipeline, completed) = session.advanced(frame, manual, now);
    let stream = session.stream_buffer + session.streamed(frame, manual, now);
    let announced = session.announcement(frame, manual, now);
    let flushed = completed is Some || ((session.collecting() || session.begins(frame, manual, now))
        && stream.len() >= session.settings.chunk_samples);
    let none = Seq::<OutgoingView<S>>::empty();
    assert(batched(none) =~= Seq::<S>::empty());
    if announced.len() > 0 {
        assert(announced =~= none + seq![announced[0]]);
        batched_adds(none, announced[0]);
    } else {
        assert(announced =~= none);
    }
    assert(batched(announced) =~= Seq::<S>::empty());
    let chunk = if flushed {
        chunk_of(stream)
    } else {
        none
    };
    if chunk.len() > 0 {
        assert(chunk =~= seq![chunk[0]]);
        batched_adds(announced, chunk[0]);
    } else {
        assert(announced + chunk =~= announced);
    }
    assert(batched(announced + chunk) =~= if flushed {
        stream
    } else {
        Seq::empty()
    });
    if completed is Some {
        let last = heard.messages.last();
        assert(heard.messages =~= (announced + chunk) + seq![last]);
        batched_adds(announced + chunk, last);
    } else {
        assert(heard.messages =~= announced + chunk);
    }
    assert(batched(heard.messages) + heard.session.stream_buffer =~= stream);
}

/// A batch for incremental STT is handed over as soon as it is full.
pub proof fn batches_stay_small<S>(session: SessionView<S>, frame: Frame<S>, manual: ManualCapture, now: u64)
    requires
        session.settings.chunk_samples > 0,
        session.stream_buffer.len() < session.settings.chunk_samples,
    ensures
        session.end_frame(frame, manual, now).session.stream_buffer.len()
            < session.settings.chunk_samples,
        session.begin_frame(frame.level, manual, now).session.stream_buffer.len()
            < session.settings.chunk_samples,
{
    assert(session.stream_buffer + Seq::<S>::empty() =~= session.stream_buffer);
}

/// Speech without a wake word never authorizes a command: an utterance of a frame in which the
/// spotter heard nothing is authorized only if its capture was before.
pub proof fn speech_alone_authorizes_nothing<S>(
    session: SessionView<S>,
    frame: Frame<S>,
    now: u64,
)
    requires
        !frame.detected,
        !session.authorized || !session.collecting(),
    ensures
        forall|i: int|
            #![trigger session.end_frame(frame, ManualCapture::Idle, now).messages[i]]
            0 <= i < session.end_frame(frame, ManualCapture::Idle, now).messages.len() ==> !(
            session.end_frame(
                frame,
                ManualCapture::Idle,
                now,
            ).messages[i].message matches MessageView::Command { authorized, .. } && authorized),
        session.collecting() || session.begins(frame, ManualCapture::Idle, now)
            ==> !session.end_frame(frame, ManualCapture::Idle, now).session.authorized,
{
}

/// The keyword spotter hears nothing within the cooldown of an authorized capture, and no
/// capture begins by speech.
pub proof fn cooldown_is_quiet<S>(session: SessionView<S>, frame: Frame<S>, manual: ManualCapture, now: u64)
    requires
        now < session.cooldown_until,
    ensures
        !session.detects(manual, now),
        !session.begins_by_speech(frame, manual, now),
        !session.watches_speech(frame, manual, now),
{
}

/// A manual capture is transcribed only if it is long enough and holds speech; otherwise the reason
/// is reported, and either way the application's request is done.
pub proof fn short_or_silent_captures_are_reported<S>(session: SessionView<S>, level: Real32, now: u64)
    requires
        session.collecting(),
    ensures
        ({
            let heard = session.begin_frame(level, ManualCapture::Finish, now);
            let collector = session.pipeline.collector->0;
            let long = collector.samples.len() >= collector.min_samples;
            &&& heard.manual is Idle
            &&& heard.messages.last().message == if !long {
                MessageView::<S>::CaptureUnavailable(TranscriptUnavailableReason::TooShort)
            } else if !session.speech {
                MessageView::<S>::CaptureUnavailable(TranscriptUnavailableReason::Silence)
            } else {
                MessageView::<S>::Command {
                    samples: collector.samples,
                    sample_rate: session.settings.sample_rate,
                    authorized: true,
                }
            }
        }),
{
}

/// An utterance that speech began keeps its pre-roll: collected and streamed are the samples
/// retained up to its first frame.
pub proof fn utterances_keep_their_pre_roll<S>(
    session: SessionView<S>,
    frame: Frame<S>,
    manual: ManualCapture,
    now: u64,
)
    requires
        session.begins_by_speech(frame, manual, now),
        session.pipeline.pre_roll_samples <= session.pipeline.max_samples,
    ensures
        ({
            let heard = session.end_frame(frame, manual, now);
            let retained = last_samples(
                session.pipeline.ring + frame.samples,
                session.pipeline.pre_roll_samples,
            );
            &&& heard.session.collecting()
            &&& heard.session.pipeline.collector->0.samples == retained
            &&& session.streamed(frame, manual, now) == retained
            &&& heard.messages[0].message == MessageView::<S>::Speech(session.settings.sample_rate)
        }),
{
}

} // verus!
