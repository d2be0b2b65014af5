//! Versioned configuration: its shape, defaults, slots and schema versions.

use crate::commands::{normalize, normalized, normalizing_twice_changes_nothing};
use crate::domain::Parameters;
use crate::float32::Real32;
use crate::number::{in_range, parse_i64, push_decimal, signed_decimal, signed_decimal_text, signed_numeral, decimal};
use crate::text::{lowercase, same_text, views};
use crate::text_map::{duplicate_all, same_all, Comparable, Duplicate, TextMap};
use vstd::prelude::*;

verus! {

/// Current on-disk and IPC configuration schema.
pub const CURRENT_CONFIG_VERSION: u16 = 6;

/// Default pinned Alphacep model used for both STT and wake-word detection.
pub const DEFAULT_MODEL_ID: &'static str = "alphacep/vosk-model-streaming-ru";

/// Complete versioned core configuration.
#[derive(Debug, Clone, PartialEq)]
pub struct CoreConfig {
    /// Configuration schema version.
    pub schema_version: u16,
    /// Audio capture and VAD settings.
    pub audio: AudioConfig,
    /// Text matching settings.
    pub matching: MatchingConfig,
    /// Wake-word detector settings.
    pub wake_word: WakeWordConfig,
    /// Native inference worker limits.
    pub inference: InferenceConfig,
    /// Command confirmation policy.
    pub policy: PolicyConfig,
    /// Windows named-pipe settings.
    pub ipc: IpcConfig,
    /// Configured typed commands.
    pub commands: Vec<CommandConfig>,
}

/// What a [`CoreConfig`] says.
pub struct ConfigView {
    /// Configuration schema version.
    pub schema_version: u16,
    /// Audio capture and VAD settings.
    pub audio: AudioView,
    /// Text matching settings.
    pub matching: MatchingConfig,
    /// Wake-word detector settings.
    pub wake_word: WakeWordView,
    /// Native inference worker limits.
    pub inference: InferenceView,
    /// Command confirmation policy.
    pub policy: PolicyView,
    /// Windows named-pipe settings.
    pub ipc: IpcView,
    /// Configured typed commands.
    pub commands: Seq<CommandView>,
}

impl View for CoreConfig {
    type V = ConfigView;

    open spec fn view(&self) -> ConfigView {
        ConfigView {
            schema_version: self.schema_version,
            audio: self.audio@,
            matching: self.matching,
            wake_word: self.wake_word@,
            inference: self.inference@,
            policy: self.policy@,
            ipc: self.ipc@,
            commands: views(self.commands@),
        }
    }
}

/// Audio capture, buffering, VAD and recovery settings.
#[derive(Debug, Clone, PartialEq)]
pub struct AudioConfig {
    /// Device identifier or `default`.
    pub device_id: String,
    /// Canonical worker sample rate; currently 16 kHz.
    pub target_sample_rate: u32,
    /// Canonical channel count; currently mono.
    pub channels: u16,
    /// Processing frame duration in milliseconds.
    pub frame_ms: u32,
    /// Audio retained before wake-word detection.
    pub pre_roll_ms: u32,
    /// Capacity of the callback-to-worker bounded queue in frames.
    pub queue_capacity_frames: usize,
    /// Energy VAD RMS threshold in normalized sample units.
    pub vad_threshold: Real32,
    /// Minimum captured command duration.
    pub command_min_ms: u32,
    /// Maximum captured command duration.
    pub command_max_ms: u32,
    /// Silence required to finish command capture.
    pub trailing_silence_ms: u32,
    /// Delay before reopening a failed input device.
    pub reconnect_delay_ms: u64,
    /// Maximum time without callback data before reopening the device.
    pub stall_timeout_ms: u64,
}

/// What an [`AudioConfig`] says.
pub struct AudioView {
    /// Device identifier or `default`.
    pub device_id: Seq<char>,
    /// Canonical worker sample rate.
    pub target_sample_rate: u32,
    /// Canonical channel count.
    pub channels: u16,
    /// Processing frame duration in milliseconds.
    pub frame_ms: u32,
    /// Audio retained before wake-word detection.
    pub pre_roll_ms: u32,
    /// Capacity of the callback-to-worker bounded queue in frames.
    pub queue_capacity_frames: usize,
    /// Energy VAD RMS threshold in normalized sample units.
    pub vad_threshold: Real32,
    /// Minimum captured command duration.
    pub command_min_ms: u32,
    /// Maximum captured command duration.
    pub command_max_ms: u32,
    /// Silence required to finish command capture.
    pub trailing_silence_ms: u32,
    /// Delay before reopening a failed input device.
    pub reconnect_delay_ms: u64,
    /// Maximum time without callback data before reopening the device.
    pub stall_timeout_ms: u64,
}

impl View for AudioConfig {
    type V = AudioView;

    open spec fn view(&self) -> AudioView {
        AudioView {
            device_id: self.device_id@,
            target_sample_rate: self.target_sample_rate,
            channels: self.channels,
            frame_ms: self.frame_ms,
            pre_roll_ms: self.pre_roll_ms,
            queue_capacity_frames: self.queue_capacity_frames,
            vad_threshold: self.vad_threshold,
            command_min_ms: self.command_min_ms,
            command_max_ms: self.command_max_ms,
            trailing_silence_ms: self.trailing_silence_ms,
            reconnect_delay_ms: self.reconnect_delay_ms,
            stall_timeout_ms: self.stall_timeout_ms,
        }
    }
}

/// The audio settings in force where a configuration names none; the threshold is the
/// single-precision value nearest to 0.015.
pub open spec fn default_audio() -> AudioView {
    AudioView {
        device_id: "default"@,
        target_sample_rate: 16_000,
        channels: 1,
        frame_ms: 20,
        pre_roll_ms: 900,
        queue_capacity_frames: 250,
        vad_threshold: Real32 { bits: 0x3c75_c28f },
        command_min_ms: 300,
        command_max_ms: 10_000,
        trailing_silence_ms: 700,
        reconnect_delay_ms: 1_000,
        stall_timeout_ms: 3_000,
    }
}

impl Default for AudioConfig {
    fn default() -> (config: Self)
        ensures
            config@ == default_audio(),
    {
        AudioConfig {
            device_id: "default".to_owned(),
            target_sample_rate: 16_000,
            channels: 1,
            frame_ms: 20,
            pre_roll_ms: 900,
            queue_capacity_frames: 250,
            vad_threshold: Real32::from_bits(0x3c75_c28f),
            command_min_ms: 300,
            command_max_ms: 10_000,
            trailing_silence_ms: 700,
            reconnect_delay_ms: 1_000,
            stall_timeout_ms: 3_000,
        }
    }
}

/// Transcript normalization settings.
#[derive(Debug, Clone, Copy, PartialEq, Eq, Structural)]
pub struct MatchingConfig {
    /// Whether Russian `ё` is normalized to `е`.
    pub normalize_yo: bool,
}

impl Default for MatchingConfig {
    fn default() -> (config: Self)
        ensures
            config.normalize_yo,
    {
        MatchingConfig { normalize_yo: true }
    }
}

/// Open-vocabulary wake-word detector settings.
#[derive(Debug, Clone, PartialEq)]
pub struct WakeWordConfig {
    /// Pinned model catalog identifier used by the keyword spotter.
    pub model: String,
    /// Phrase required before a command.
    pub keyword: String,
    /// Additional phrases accepted by the same detector and command matcher.
    pub aliases: Vec<String>,
    /// Keyword boosting score passed to the detector.
    pub score: Real32,
    /// Detector activation threshold.
    pub threshold: Real32,
    /// Delay before accepting another wake word.
    pub cooldown_ms: u64,
}

/// What a [`WakeWordConfig`] says.
pub struct WakeWordView {
    /// Pinned model catalog identifier used by the keyword spotter.
    pub model: Seq<char>,
    /// Phrase required before a command.
    pub keyword: Seq<char>,
    /// Additional phrases accepted by the same detector and command matcher.
    pub aliases: Seq<Seq<char>>,
    /// Keyword boosting score passed to the detector.
    pub score: Real32,
    /// Detector activation threshold.
    pub threshold: Real32,
    /// Delay before accepting another wake word.
    pub cooldown_ms: u64,
}

impl View for WakeWordConfig {
    type V = WakeWordView;

    open spec fn view(&self) -> WakeWordView {
        WakeWordView {
            model: self.model@,
            keyword: self.keyword@,
            aliases: views(self.aliases@),
            score: self.score,
            threshold: self.threshold,
            cooldown_ms: self.cooldown_ms,
        }
    }
}

impl WakeWordView {
    /// The keyword followed by its aliases.
    pub open spec fn phrases(self) -> Seq<Seq<char>> {
        seq![self.keyword] + self.aliases
    }
}

/// The wake-word settings in force where a configuration names none: a score of 1.5 and the
/// single-precision value nearest to 0.35 as threshold.
pub open spec fn default_wake_word() -> WakeWordView {
    WakeWordView {
        model: DEFAULT_MODEL_ID@,
        keyword: "ассистент"@,
        aliases: Seq::empty(),
        score: Real32 { bits: 0x3fc0_0000 },
        threshold: Real32 { bits: 0x3eb3_3333 },
        cooldown_ms: 1_200,
    }
}

impl Default for WakeWordConfig {
    fn default() -> (config: Self)
        ensures
            config@ == default_wake_word(),
    {
        let config = WakeWordConfig {
            model: DEFAULT_MODEL_ID.to_owned(),
            keyword: "ассистент".to_owned(),
            aliases: Vec::new(),
            score: Real32::from_bits(0x3fc0_0000),
            threshold: Real32::from_bits(0x3eb3_3333),
            cooldown_ms: 1_200,
        };
        assert(config@.aliases =~= Seq::empty());
        config
    }
}

impl WakeWordConfig {
    /// The keyword followed by its aliases.
    pub fn wake_words(&self) -> (phrases: Vec<String>)
        ensures
            views(phrases@) == self@.phrases(),
    {
        let mut phrases: Vec<String> = Vec::new();
        phrases.push(self.keyword.clone());
        let mut aliases = duplicate_all(&self.aliases);
        let ghost copied = aliases@;
        phrases.append(&mut aliases);
        assert(views(phrases@) =~= seq![self.keyword@] + views(copied));
        phrases
    }
}

/// Native STT worker limits.
#[derive(Debug, Clone, PartialEq, Eq)]
pub struct InferenceConfig {
    /// Pinned model catalog identifier used for transcription.
    pub model: String,
    /// Native inference thread count; zero selects the host parallelism automatically.
    pub threads: i32,
    /// Maximum queued STT requests.
    pub queue_capacity: usize,
    /// End-to-end STT request timeout.
    pub timeout_ms: u64,
    /// Maximum automatic worker restarts before the component is faulted.
    pub max_restarts: u32,
    /// Initial exponential-backoff delay between worker restarts.
    pub restart_backoff_ms: u64,
}

/// What an [`InferenceConfig`] says.
pub struct InferenceView {
    /// Pinned model catalog identifier used for transcription.
    pub model: Seq<char>,
    /// Native inference thread count.
    pub threads: i32,
    /// Maximum queued STT requests.
    pub queue_capacity: usize,
    /// End-to-end STT request timeout.
    pub timeout_ms: u64,
    /// Maximum automatic worker restarts before the component is faulted.
    pub max_restarts: u32,
    /// Initial exponential-backoff delay between worker restarts.
    pub restart_backoff_ms: u64,
}

impl View for InferenceConfig {
    type V = InferenceView;

    open spec fn view(&self) -> InferenceView {
        InferenceView {
            model: self.model@,
            threads: self.threads,
            queue_capacity: self.queue_capacity,
            timeout_ms: self.timeout_ms,
            max_restarts: self.max_restarts,
            restart_backoff_ms: self.restart_backoff_ms,
        }
    }
}

impl Default for InferenceConfig {
    fn default() -> (config: Self)
        ensures
            config@ == (InferenceView {
                model: DEFAULT_MODEL_ID@,
                threads: 0,
                queue_capacity: 2,
                timeout_ms: 30_000,
                max_restarts: 3,
                restart_backoff_ms: 500,
            }),
    {
        InferenceConfig {
            model: DEFAULT_MODEL_ID.to_owned(),
            threads: 0,
            queue_capacity: 2,
            timeout_ms: 30_000,
            max_restarts: 3,
            restart_backoff_ms: 500,
        }
    }
}

/// Confirmation policy shared by all commands.
#[derive(Debug, Clone, PartialEq, Eq)]
pub struct PolicyConfig {
    /// When false, even high-risk commands execute without confirmation.
    pub confirmations_enabled: bool,
    /// Lifetime of one pending confirmation.
    pub confirmation_timeout_ms: u64,
    /// Whether a pending invocation accepts speech after another wake word.
    pub voice_confirmations_enabled: bool,
    /// Normalized phrases that confirm a pending invocation.
    pub confirmation_accept_phrases: Vec<String>,
    /// Normalized phrases that cancel a pending invocation.
    pub confirmation_cancel_phrases: Vec<String>,
    /// Minimum delay between starts of the same handler; zero disables it.
    pub handler_rate_limit_ms: u64,
    /// Consecutive failures that open a handler circuit; zero disables it.
    pub handler_failure_threshold: u32,
    /// Delay before an open handler circuit permits a probe call.
    pub handler_circuit_breaker_ms: u64,
}

/// What a [`PolicyConfig`] says.
pub struct PolicyView {
    /// When false, even high-risk commands execute without confirmation.
    pub confirmations_enabled: bool,
    /// Lifetime of one pending confirmation.
    pub confirmation_timeout_ms: u64,
    /// Whether a pending invocation accepts speech after another wake word.
    pub voice_confirmations_enabled: bool,
    /// Phrases that confirm a pending invocation.
    pub confirmation_accept_phrases: Seq<Seq<char>>,
    /// Phrases that cancel a pending invocation.
    pub confirmation_cancel_phrases: Seq<Seq<char>>,
    /// Minimum delay between starts of the same handler; zero disables it.
    pub handler_rate_limit_ms: u64,
    /// Consecutive failures that open a handler circuit; zero disables it.
    pub handler_failure_threshold: u32,
    /// Delay before an open handler circuit permits a probe call.
    pub handler_circuit_breaker_ms: u64,
}

impl View for PolicyConfig {
    type V = PolicyView;

    open spec fn view(&self) -> PolicyView {
        PolicyView {
            confirmations_enabled: self.confirmations_enabled,
            confirmation_timeout_ms: self.confirmation_timeout_ms,
            voice_confirmations_enabled: self.voice_confirmations_enabled,
            confirmation_accept_phrases: views(self.confirmation_accept_phrases@),
            confirmation_cancel_phrases: views(self.confirmation_cancel_phrases@),
            handler_rate_limit_ms: self.handler_rate_limit_ms,
            handler_failure_threshold: self.handler_failure_threshold,
            handler_circuit_breaker_ms: self.handler_circuit_breaker_ms,
        }
    }
}

/// The policy in force where a configuration names none.
pub open spec fn default_policy() -> PolicyView {
    PolicyView {
        confirmations_enabled: true,
        confirmation_timeout_ms: 15_000,
        voice_confirmations_enabled: true,
        confirmation_accept_phrases: seq!["да"@, "подтверждаю"@],
        confirmation_cancel_phrases: seq!["нет"@, "отмена"@],
        handler_rate_limit_ms: 0,
        handler_failure_threshold: 3,
        handler_circuit_breaker_ms: 30_000,
    }
}

impl Default for PolicyConfig {
    fn default() -> (config: Self)
        ensures
            config@ == default_policy(),
    {
        let accept: Vec<String> = vec!["да".to_owned(), "подтверждаю".to_owned()];
        let cancel: Vec<String> = vec!["нет".to_owned(), "отмена".to_owned()];
        assert(views(accept@) =~= seq!["да"@, "подтверждаю"@]);
        assert(views(cancel@) =~= seq!["нет"@, "отмена"@]);
        PolicyConfig {
            confirmations_enabled: true,
            confirmation_timeout_ms: 15_000,
            voice_confirmations_enabled: true,
            confirmation_accept_phrases: accept,
            confirmation_cancel_phrases: cancel,
            handler_rate_limit_ms: 0,
            handler_failure_threshold: 3,
            handler_circuit_breaker_ms: 30_000,
        }
    }
}

impl Duplicate for PolicyConfig {
    fn duplicate(&self) -> (copy: Self) {
        PolicyConfig {
            confirmations_enabled: self.confirmations_enabled,
            confirmation_timeout_ms: self.confirmation_timeout_ms,
            voice_confirmations_enabled: self.voice_confirmations_enabled,
            confirmation_accept_phrases: duplicate_all(&self.confirmation_accept_phrases),
            confirmation_cancel_phrases: duplicate_all(&self.confirmation_cancel_phrases),
            handler_rate_limit_ms: self.handler_rate_limit_ms,
            handler_failure_threshold: self.handler_failure_threshold,
            handler_circuit_breaker_ms: self.handler_circuit_breaker_ms,
        }
    }
}

impl Comparable for PolicyConfig {
    fn same_as(&self, other: &Self) -> (same: bool) {
        self.confirmations_enabled == other.confirmations_enabled && self.confirmation_timeout_ms
            == other.confirmation_timeout_ms && self.voice_confirmations_enabled
            == other.voice_confirmations_enabled && same_all(
            &self.confirmation_accept_phrases,
            &other.confirmation_accept_phrases,
        ) && same_all(&self.confirmation_cancel_phrases, &other.confirmation_cancel_phrases)
            && self.handler_rate_limit_ms == other.handler_rate_limit_ms
            && self.handler_failure_threshold == other.handler_failure_threshold
            && self.handler_circuit_breaker_ms == other.handler_circuit_breaker_ms
    }
}

/// Windows named-pipe transport settings.
#[derive(Debug, Clone, PartialEq, Eq)]
pub struct IpcConfig {
    /// Named pipe suffix, without `\\.\pipe\`.
    pub pipe_name: String,
    /// Per-read and per-write timeout.
    pub io_timeout_ms: u64,
}

/// What an [`IpcConfig`] says.
pub struct IpcView {
    /// Named pipe suffix, without `\\.\pipe\`.
    pub pipe_name: Seq<char>,
    /// Per-read and per-write timeout.
    pub io_timeout_ms: u64,
}

impl View for IpcConfig {
    type V = IpcView;

    open spec fn view(&self) -> IpcView {
        IpcView { pipe_name: self.pipe_name@, io_timeout_ms: self.io_timeout_ms }
    }
}

impl Default for IpcConfig {
    fn default() -> (config: Self)
        ensures
            config@ == (IpcView { pipe_name: "voice-assistant-core"@, io_timeout_ms: 30_000 }),
    {
        IpcConfig { pipe_name: "voice-assistant-core".to_owned(), io_timeout_ms: 30_000 }
    }
}

impl Comparable for IpcConfig {
    fn same_as(&self, other: &Self) -> (same: bool) {
        same_text(&self.pipe_name, &other.pipe_name) && self.io_timeout_ms == other.io_timeout_ms
    }
}

/// Runtime type used to validate one captured command slot.
#[derive(Debug, Clone, Copy, PartialEq, Eq, Structural)]
pub enum SlotType {
    /// One normalized value from the configured allowlist.
    Text,
    /// A signed integer within inclusive bounds.
    Integer,
    /// The literal value `true` or `false`.
    Boolean,
}

/// Validation policy for one command phrase slot.
#[derive(Debug, Clone, PartialEq, Eq)]
pub struct SlotConfig {
    /// Slot value type.
    pub value_type: SlotType,
    /// Inclusive minimum for an integer slot.
    pub min: Option<i64>,
    /// Inclusive maximum for an integer slot.
    pub max: Option<i64>,
    /// Allowed normalized values for a text slot.
    pub values: Vec<String>,
}

/// What a [`SlotConfig`] says.
pub struct SlotView {
    /// Slot value type.
    pub value_type: SlotType,
    /// Inclusive minimum for an integer slot.
    pub min: Option<i64>,
    /// Inclusive maximum for an integer slot.
    pub max: Option<i64>,
    /// Allowed values for a text slot.
    pub values: Seq<Seq<char>>,
}

impl View for SlotConfig {
    type V = SlotView;

    open spec fn view(&self) -> SlotView {
        SlotView {
            value_type: self.value_type,
            min: self.min,
            max: self.max,
            values: views(self.values@),
        }
    }
}

impl Duplicate for SlotConfig {
    fn duplicate(&self) -> (copy: Self) {
        SlotConfig {
            value_type: self.value_type,
            min: self.min,
            max: self.max,
            values: duplicate_all(&self.values),
        }
    }
}

/// Compares two optional integers.
pub(crate) fn same_bound(left: Option<i64>, right: Option<i64>) -> (same: bool)
    ensures
        same == (left == right),
{
    match (left, right) {
        (Some(a), Some(b)) => a == b,
        (None, None) => true,
        _ => false,
    }
}

impl Comparable for SlotConfig {
    fn same_as(&self, other: &Self) -> (same: bool) {
        self.value_type == other.value_type && same_bound(self.min, other.min) && same_bound(
            self.max,
            other.max,
        ) && same_all(&self.values, &other.values)
    }
}

impl SlotView {
    /// Whether an integer lies within the bounds that are set.
    pub open spec fn admits(self, value: int) -> bool {
        &&& self.min matches Some(low) ==> low <= value
        &&& self.max matches Some(high) ==> value <= high
    }

    /// The canonical form of a recognized token, or nothing where the slot does not accept it.
    pub open spec fn canonical(self, value: Seq<char>, normalize_yo: bool) -> Option<Seq<char>> {
        match self.value_type {
            SlotType::Text => {
                let form = normalized(value, normalize_yo);
                if exists|i: int|
                    0 <= i < self.values.len() && #[trigger] normalized(self.values[i], normalize_yo)
                        == form {
                    Some(form)
                } else {
                    None
                }
            },
            SlotType::Integer => match in_range(
                signed_numeral(value),
                i64::MIN as int,
                i64::MAX as int,
            ) {
                Some(number) if self.admits(number) => Some(signed_decimal(number)),
                _ => None,
            },
            SlotType::Boolean => if value == "true"@ || value == "false"@ {
                Some(value)
            } else {
                None
            },
        }
    }

    /// A value that stands for any captured one, where the slot has one to offer.
    pub open spec fn sample_value(self, normalize_yo: bool) -> Option<Seq<char>> {
        match self.value_type {
            SlotType::Text => if self.values.len() > 0 {
                Some(normalized(self.values[0], normalize_yo))
            } else {
                None
            },
            SlotType::Integer => match self.min {
                Some(low) => Some(signed_decimal(low as int)),
                None => None,
            },
            SlotType::Boolean => Some("false"@),
        }
    }
}

/// A canonical form obeys its slot: it is the normal form of a listed text, the plain decimal form of
/// an integer within the bounds, or the boolean that was said.
pub proof fn canonical_obeys_the_slot(slot: SlotView, value: Seq<char>, normalize_yo: bool)
    requires
        slot.canonical(value, normalize_yo) is Some,
    ensures
        ({
            let form = slot.canonical(value, normalize_yo)->0;
            match slot.value_type {
                SlotType::Text => exists|i: int|
                    0 <= i < slot.values.len() && form == #[trigger] normalized(
                        slot.values[i],
                        normalize_yo,
                    ),
                SlotType::Integer => exists|number: int|
                    i64::MIN <= number <= i64::MAX && slot.admits(number) && form
                        == #[trigger] signed_decimal(number),
                SlotType::Boolean => form == value && (form == "true"@ || form == "false"@),
            }
        }),
{
    if slot.value_type is Integer {
        let number = signed_numeral(value)->0;
        assert(slot.canonical(value, normalize_yo)->0 == signed_decimal(number));
    }
}

/// Accepting a canonical form once more changes nothing. The canonical form of a text has to be one
/// that lower-casing leaves as it is.
pub proof fn canonical_is_stable(slot: SlotView, value: Seq<char>, normalize_yo: bool)
    requires
        slot.canonical(value, normalize_yo) is Some,
        slot.value_type is Text ==> lowercase(normalized(value, normalize_yo)) == normalized(
            value,
            normalize_yo,
        ),
    ensures
        slot.canonical(slot.canonical(value, normalize_yo)->0, normalize_yo) == slot.canonical(
            value,
            normalize_yo,
        ),
{
    if slot.value_type is Integer {
        let number = signed_numeral(value)->0;
        crate::number::signed_decimal_round_trip(number);
    }
    if slot.value_type is Text {
        normalizing_twice_changes_nothing(value, normalize_yo);
    }
}

impl SlotConfig {
    /// Validates and canonicalizes one recognized slot token.
    pub fn canonicalize(&self, value: &str, normalize_yo: bool) -> (canonical: Option<String>)
        ensures
            match canonical {
                Some(canonical) => self@.canonical(value@, normalize_yo) == Some(canonical@),
                None => self@.canonical(value@, normalize_yo) is None,
            },
    {
        match self.value_type {
            SlotType::Text => {
                let form = normalize(value, normalize_yo);
                let mut i: usize = 0;
                while i < self.values.len()
                    invariant
                        0 <= i <= self.values@.len(),
                        self.value_type is Text,
                        form@ == normalized(value@, normalize_yo),
                        forall|j: int|
                            0 <= j < i ==> #[trigger] normalized(self@.values[j], normalize_yo)
                                != form@,
                    decreases self.values@.len() - i,
                {
                    let allowed = normalize(&self.values[i], normalize_yo);
                    assert(self@.values[i as int] == self.values@[i as int]@);
                    if allowed == form {
                        return Some(allowed);
                    }
                    i = i + 1;
                }
                None
            },
            SlotType::Integer => {
                match parse_i64(value) {
                    Some(number) => {
                        let above = match self.min {
                            Some(low) => low <= number,
                            None => true,
                        };
                        let below = match self.max {
                            Some(high) => number <= high,
                            None => true,
                        };
                        if above && below {
                            Some(signed_decimal_text(number))
                        } else {
                            None
                        }
                    },
                    None => None,
                }
            },
            SlotType::Boolean => {
                if same_text(value, "true") || same_text(value, "false") {
                    Some(value.to_owned())
                } else {
                    None
                }
            },
        }
    }

    /// A value that stands for any captured one.
    pub fn sample(&self, normalize_yo: bool) -> (value: Option<String>)
        ensures
            match value {
                Some(value) => self@.sample_value(normalize_yo) == Some(value@),
                None => self@.sample_value(normalize_yo) is None,
            },
    {
        match self.value_type {
            SlotType::Text => {
                if self.values.len() > 0 {
                    Some(normalize(&self.values[0], normalize_yo))
                } else {
                    None
                }
            },
            SlotType::Integer => match self.min {
                Some(low) => Some(signed_decimal_text(low)),
                None => None,
            },
            SlotType::Boolean => Some("false".to_owned()),
        }
    }
}

/// One typed action in an ordered command sequence.
#[derive(Debug, Clone, PartialEq)]
pub struct CommandActionConfig {
    /// Registered handler name.
    pub handler: String,
    /// Delay before this action, in milliseconds.
    pub delay_ms: u64,
    /// Handler-specific values checked against the handler's schema.
    pub parameters: TextMap<String>,
}

/// What a [`CommandActionConfig`] says.
pub struct ActionView {
    /// Registered handler name.
    pub handler: Seq<char>,
    /// Delay before this action, in milliseconds.
    pub delay_ms: u64,
    /// Handler-specific values.
    pub parameters: Parameters,
}

impl View for CommandActionConfig {
    type V = ActionView;

    open spec fn view(&self) -> ActionView {
        ActionView {
            handler: self.handler@,
            delay_ms: self.delay_ms,
            parameters: self.parameters@,
        }
    }
}

impl Duplicate for CommandActionConfig {
    fn duplicate(&self) -> (copy: Self) {
        CommandActionConfig {
            handler: self.handler.clone(),
            delay_ms: self.delay_ms,
            parameters: self.parameters.duplicate(),
        }
    }
}

impl Comparable for CommandActionConfig {
    fn same_as(&self, other: &Self) -> (same: bool) {
        same_text(&self.handler, &other.handler) && self.delay_ms == other.delay_ms
            && self.parameters.same_as(&other.parameters)
    }
}

/// Security risk classification used by confirmation policy.
#[derive(Debug, Clone, Copy, PartialEq, Eq, Structural)]
pub enum RiskLevel {
    /// Routine local action.
    Low,
    /// Action with meaningful but limited side effects.
    Medium,
    /// Destructive or otherwise sensitive action.
    High,
}

impl Default for RiskLevel {
    fn default() -> (level: Self)
        ensures
            level is Low,
    {
        RiskLevel::Low
    }
}

/// One exact-match command and its typed handler parameters.
#[derive(Debug, Clone, PartialEq)]
pub struct CommandConfig {
    /// Stable application-defined command identifier.
    pub id: String,
    /// Whether matching can select this command.
    pub enabled: bool,
    /// Exact phrases accepted after normalization.
    pub phrases: Vec<String>,
    /// Typed single-token slots referenced as `{name}` in phrases and parameters.
    pub slots: TextMap<SlotConfig>,
    /// Registered handler name for a single-action command.
    pub handler: String,
    /// Security classification used by confirmation policy.
    pub risk: RiskLevel,
    /// Whether this command explicitly requests confirmation.
    pub requires_confirmation: bool,
    /// Maximum handler execution time.
    pub timeout_ms: u64,
    /// Handler-specific values checked against the handler's schema.
    pub parameters: TextMap<String>,
    /// Ordered actions; mutually exclusive with `handler` and `parameters`.
    pub actions: Vec<CommandActionConfig>,
}

/// What a [`CommandConfig`] says.
pub struct CommandView {
    /// Stable application-defined command identifier.
    pub id: Seq<char>,
    /// Whether matching can select this command.
    pub enabled: bool,
    /// Exact phrases accepted after normalization.
    pub phrases: Seq<Seq<char>>,
    /// Typed single-token slots.
    pub slots: Seq<(Seq<char>, SlotView)>,
    /// Registered handler name for a single-action command.
    pub handler: Seq<char>,
    /// Security classification used by confirmation policy.
    pub risk: RiskLevel,
    /// Whether this command explicitly requests confirmation.
    pub requires_confirmation: bool,
    /// Maximum handler execution time.
    pub timeout_ms: u64,
    /// Handler-specific values.
    pub parameters: Parameters,
    /// Ordered actions.
    pub actions: Seq<ActionView>,
}

impl View for CommandConfig {
    type V = CommandView;

    open spec fn view(&self) -> CommandView {
        CommandView {
            id: self.id@,
            enabled: self.enabled,
            phrases: views(self.phrases@),
            slots: self.slots@,
            handler: self.handler@,
            risk: self.risk,
            requires_confirmation: self.requires_confirmation,
            timeout_ms: self.timeout_ms,
            parameters: self.parameters@,
            actions: views(self.actions@),
        }
    }
}

impl Duplicate for CommandConfig {
    fn duplicate(&self) -> (copy: Self) {
        CommandConfig {
            id: self.id.clone(),
            enabled: self.enabled,
            phrases: duplicate_all(&self.phrases),
            slots: self.slots.duplicate(),
            handler: self.handler.clone(),
            risk: self.risk,
            requires_confirmation: self.requires_confirmation,
            timeout_ms: self.timeout_ms,
            parameters: self.parameters.duplicate(),
            actions: duplicate_all(&self.actions),
        }
    }
}

impl Comparable for CommandConfig {
    fn same_as(&self, other: &Self) -> (same: bool) {
        same_text(&self.id, &other.id) && self.enabled == other.enabled && same_all(
            &self.phrases,
            &other.phrases,
        ) && self.slots.same_as(&other.slots) && same_text(&self.handler, &other.handler)
            && self.risk == other.risk && self.requires_confirmation == other.requires_confirmation
            && self.timeout_ms == other.timeout_ms && self.parameters.same_as(&other.parameters)
            && same_all(&self.actions, &other.actions)
    }
}

impl CommandView {
    /// The configured actions, or the single action that handler and parameters describe.
    pub open spec fn resolved(self) -> Seq<ActionView> {
        if self.actions.len() == 0 {
            seq![
                ActionView { handler: self.handler, delay_ms: 0, parameters: self.parameters },
            ]
        } else {
            self.actions
        }
    }
}

impl CommandConfig {
    /// Returns the single legacy action or the configured ordered actions.
    pub fn resolved_actions(&self) -> (actions: Vec<CommandActionConfig>)
        ensures
            views(actions@) == self@.resolved(),
    {
        if self.actions.len() == 0 {
            let mut actions: Vec<CommandActionConfig> = Vec::new();
            actions.push(
                CommandActionConfig {
                    handler: self.handler.clone(),
                    delay_ms: 0,
                    parameters: self.parameters.duplicate(),
                },
            );
            assert(views(actions@) =~= self@.resolved());
            actions
        } else {
            duplicate_all(&self.actions)
        }
    }
}

/// Configuration reading, decoding and validation failures.
#[derive(Debug, Clone, PartialEq, Eq)]
pub enum ConfigError {
    /// Filesystem operation failed.
    Io(String),
    /// TOML decoding failed.
    Toml(String),
    /// A decoded value violates a core or handler invariant.
    Validation(String),
}

/// What a [`ConfigError`] says.
pub enum ConfigErrorView {
    /// Filesystem operation failed.
    Io(Seq<char>),
    /// TOML decoding failed.
    Toml(Seq<char>),
    /// A decoded value violates a core or handler invariant.
    Validation(Seq<char>),
}

impl View for ConfigError {
    type V = ConfigErrorView;

    open spec fn view(&self) -> ConfigErrorView {
        match self {
            ConfigError::Io(message) => ConfigErrorView::Io(message@),
            ConfigError::Toml(message) => ConfigErrorView::Toml(message@),
            ConfigError::Validation(message) => ConfigErrorView::Validation(message@),
        }
    }
}

impl ConfigErrorView {
    /// The message that describes the error.
    pub open spec fn message(self) -> Seq<char> {
        match self {
            ConfigErrorView::Io(message) => "cannot read config: "@ + message,
            ConfigErrorView::Toml(message) => "invalid TOML: "@ + message,
            ConfigErrorView::Validation(message) => "invalid config: "@ + message,
        }
    }
}

impl ConfigError {
    /// The message that describes the error.
    pub fn to_string(&self) -> (text: String)
        ensures
            text@ == self@.message(),
    {
        match self {
            ConfigError::Io(message) => {
                let mut text = "cannot read config: ".to_owned();
                text.append(message);
                text
            },
            ConfigError::Toml(message) => {
                let mut text = "invalid TOML: ".to_owned();
                text.append(message);
                text
            },
            ConfigError::Validation(message) => {
                let mut text = "invalid config: ".to_owned();
                text.append(message);
                text
            },
        }
    }
}

/// What `toml` finds under a key of the top-level table of a document: an integer, something else
/// or nothing, or the message of its parse error.
pub uninterp spec fn toml_integer(text: Seq<char>, key: Seq<char>) -> Result<Option<i64>, Seq<char>>;

/// Calls `toml::from_str` and reads one integer of the parsed document: the outcome is a function
/// of the text and the key alone.
#[verifier::external_body]
fn read_toml_integer(text: &str, key: &str) -> (found: Result<Option<i64>, String>)
    ensures
        match (found, toml_integer(text@, key@)) {
            (Ok(found), Ok(named)) => found == named,
            (Err(message), Err(named)) => message@ == named,
            _ => false,
        },
{
    let document: toml::Value = toml::from_str(text).map_err(
        |error: toml::de::Error| error.to_string(),
    )?;
    Ok(document.get(key).and_then(toml::Value::as_integer))
}

/// Whether a configuration schema can be read.
pub open spec fn supported_schema(version: int) -> bool {
    1 <= version <= CURRENT_CONFIG_VERSION
}

/// What is wrong with the schema version of a document.
pub open spec fn schema_error(version: Option<int>) -> Option<Seq<char>> {
    match version {
        None => Some("schema_version is required"@),
        Some(version) => if supported_schema(version) {
            None
        } else {
            Some("unsupported schema_version "@ + signed_decimal(version))
        },
    }
}

/// Accepts every schema up to the current one and rejects a missing or unknown version.
pub fn check_schema_version(version: Option<i64>) -> (checked: Result<(), ConfigError>)
    ensures
        match (checked, schema_error(
            match version {
                Some(version) => Some(version as int),
                None => None,
            },
        )) {
            (Ok(_), None) => true,
            (Err(error), Some(message)) => error@ == ConfigErrorView::Validation(message),
            _ => false,
        },
{
    match version {
        None => Err(ConfigError::Validation("schema_version is required".to_owned())),
        Some(version) => {
            if 1 <= version && version <= CURRENT_CONFIG_VERSION as i64 {
                Ok(())
            } else {
                let mut message = "unsupported schema_version ".to_owned();
                message.append(&signed_decimal_text(version));
                Err(ConfigError::Validation(message))
            }
        },
    }
}

/// What is wrong with a TOML document before its fields are read.
pub open spec fn toml_schema_error(found: Result<Option<i64>, Seq<char>>) -> Option<ConfigErrorView> {
    match found {
        Err(message) => Some(ConfigErrorView::Toml(message)),
        Ok(version) => match schema_error(
            match version {
                Some(version) => Some(version as int),
                None => None,
            },
        ) {
            Some(message) => Some(ConfigErrorView::Validation(message)),
            None => None,
        },
    }
}

/// Rejects a TOML document that cannot be parsed or whose `schema_version` is not supported.
pub fn check_toml_schema(text: &str) -> (checked: Result<(), ConfigError>)
    ensures
        match (checked, toml_schema_error(toml_integer(text@, "schema_version"@))) {
            (Ok(_), None) => true,
            (Err(error), Some(expected)) => error@ == expected,
            _ => false,
        },
{
    match read_toml_integer(text, "schema_version") {
        Ok(version) => check_schema_version(version),
        Err(message) => Err(ConfigError::Toml(message)),
    }
}

impl Duplicate for CoreConfig {
    fn duplicate(&self) -> (copy: Self) {
        CoreConfig {
            schema_version: self.schema_version,
            audio: AudioConfig {
                device_id: self.audio.device_id.clone(),
                target_sample_rate: self.audio.target_sample_rate,
                channels: self.audio.channels,
                frame_ms: self.audio.frame_ms,
                pre_roll_ms: self.audio.pre_roll_ms,
                queue_capacity_frames: self.audio.queue_capacity_frames,
                vad_threshold: self.audio.vad_threshold,
                command_min_ms: self.audio.command_min_ms,
                command_max_ms: self.audio.command_max_ms,
                trailing_silence_ms: self.audio.trailing_silence_ms,
                reconnect_delay_ms: self.audio.reconnect_delay_ms,
                stall_timeout_ms: self.audio.stall_timeout_ms,
            },
            matching: self.matching,
            wake_word: WakeWordConfig {
                model: self.wake_word.model.clone(),
                keyword: self.wake_word.keyword.clone(),
                aliases: duplicate_all(&self.wake_word.aliases),
                score: self.wake_word.score,
                threshold: self.wake_word.threshold,
                cooldown_ms: self.wake_word.cooldown_ms,
            },
            inference: InferenceConfig {
                model: self.inference.model.clone(),
                threads: self.inference.threads,
                queue_capacity: self.inference.queue_capacity,
                timeout_ms: self.inference.timeout_ms,
                max_restarts: self.inference.max_restarts,
                restart_backoff_ms: self.inference.restart_backoff_ms,
            },
            policy: self.policy.duplicate(),
            ipc: IpcConfig {
                pipe_name: self.ipc.pipe_name.clone(),
                io_timeout_ms: self.ipc.io_timeout_ms,
            },
            commands: duplicate_all(&self.commands),
        }
    }
}

impl CoreConfig {
    /// Migrates an IPC-supplied configuration object to the current schema.
    pub fn migrate(self) -> (migrated: Result<Self, ConfigError>)
        ensures
            match migrated {
                Ok(config) => supported_schema(self.schema_version as int) && config@ == (ConfigView {
                    schema_version: CURRENT_CONFIG_VERSION,
                    ..self@
                }),
                Err(error) => !supported_schema(self.schema_version as int) && error@
                    == ConfigErrorView::Validation(
                    "unsupported schema_version "@ + decimal(self.schema_version as nat),
                ),
            },
    {
        if 1 <= self.schema_version && self.schema_version <= CURRENT_CONFIG_VERSION {
            let mut config = self;
            config.schema_version = CURRENT_CONFIG_VERSION;
            Ok(config)
        } else {
            let mut message = "unsupported schema_version ".to_owned();
            push_decimal(&mut message, self.schema_version as u64);
            Err(ConfigError::Validation(message))
        }
    }
}

/// Application-owned locations below the local application data of a user.
#[derive(Debug, Clone, PartialEq, Eq)]
pub struct AppPaths {
    /// `%LOCALAPPDATA%\VoiceAssistantCore`.
    pub root: String,
    /// Default `assistant.toml` path.
    pub config: String,
    /// Default model storage root.
    pub models: String,
    /// Default diagnostic log directory.
    pub logs: String,
}

/// Whether a path has a verbatim prefix, which Windows takes literally.
pub open spec fn is_verbatim(path: Seq<char>) -> bool {
    path.len() >= 4 && path[0] == '\\' && path[1] == '\\' && path[2] == '?' && path[3] == '\\'
}

/// Whether a name has nothing that separates components or names a drive on some platform.
pub open spec fn is_plain_name(name: Seq<char>) -> bool {
    &&& name.len() > 0
    &&& forall|i: int|
        0 <= i < name.len() ==> (#[trigger] name[i]) != '/' && name[i] != '\\' && name[i] != ':'
}

/// Whether a name may follow a path without a separator: the path is empty, ends with one, or ends
/// with the colon of a drive.
pub open spec fn needs_no_separator(base: Seq<char>) -> bool {
    ||| base.len() == 0
    ||| base.last() == '/'
    ||| base.last() == '\\'
    ||| base.last() == ':'
}

/// Whether a path is another one followed by a name, with the separator of the platform between them
/// where one is needed.
pub open spec fn adjoined(path: Seq<char>, base: Seq<char>, name: Seq<char>) -> bool {
    ||| path == base.push('/') + name
    ||| path == base.push('\\') + name
    ||| needs_no_separator(base) && path == base + name
}

/// Whether a path lies below another one. Of what Windows makes of a verbatim prefix nothing is said.
pub open spec fn lies_below(path: Seq<char>, base: Seq<char>, name: Seq<char>) -> bool {
    is_verbatim(base) || adjoined(path, base, name)
}

/// Calls `Path::join`, which adjoins a relative path to another one. Which separator it writes, and
/// whether it writes one, depends on the platform; a path with a verbatim prefix is normalized on
/// Windows, and nothing is said of it.
#[verifier::external_body]
fn path_below(base: &str, name: &str) -> (path: String)
    ensures
        is_plain_name(name@) ==> lies_below(path@, base@, name@),
{
    std::path::Path::new(base).join(name).to_string_lossy().into_owned()
}

impl AppPaths {
    /// Finds the locations below the local application data, which the environment has to name.
    pub fn discover(local: Option<String>) -> (paths: Result<Self, ConfigError>)
        ensures
            match (paths, local) {
                (Ok(paths), Some(local)) => {
                    &&& lies_below(paths.root@, local@, "VoiceAssistantCore"@)
                    &&& lies_below(paths.config@, paths.root@, "assistant.toml"@)
                    &&& lies_below(paths.models@, paths.root@, "models"@)
                    &&& lies_below(paths.logs@, paths.root@, "logs"@)
                },
                (Err(error), None) => error@ == ConfigErrorView::Validation(
                    "LOCALAPPDATA is unavailable on Windows"@,
                ),
                _ => false,
            },
    {
        match local {
            None => Err(
                ConfigError::Validation("LOCALAPPDATA is unavailable on Windows".to_owned()),
            ),
            Some(local) => {
                proof {
                    reveal_strlit("VoiceAssistantCore");
                    reveal_strlit("assistant.toml");
                    reveal_strlit("models");
                    reveal_strlit("logs");
                }
                let root = path_below(&local, "VoiceAssistantCore");
                Ok(
                    AppPaths {
                        config: path_below(&root, "assistant.toml"),
                        models: path_below(&root, "models"),
                        logs: path_below(&root, "logs"),
                        root,
                    },
                )
            },
        }
    }
}

/// A slot admits what it lists: every listed text in its normal form, every integer within the bounds
/// that are set, and both booleans. It admits nothing else.
pub proof fn slots_admit_what_they_list(slot: SlotView, value: Seq<char>, normalize_yo: bool, i: int, number: int)
    ensures
        slot.value_type is Text ==> {
            &&& 0 <= i < slot.values.len() ==> slot.canonical(slot.values[i], normalize_yo) == Some(
                normalized(slot.values[i], normalize_yo),
            )
            &&& (forall|j: int|
                0 <= j < slot.values.len() ==> #[trigger] normalized(slot.values[j], normalize_yo)
                    != normalized(value, normalize_yo)) ==> slot.canonical(value, normalize_yo) is None
        },
        slot.value_type is Integer ==> {
            &&& i64::MIN <= number <= i64::MAX && (slot.min is None || slot.min->0 <= number) && (
            slot.max is None || number <= slot.max->0) ==> slot.canonical(
                signed_decimal(number),
                normalize_yo,
            ) == Some(signed_decimal(number))
            &&& (slot.min matches Some(low) && number < low) ==> slot.canonical(
                signed_decimal(number),
                normalize_yo,
            ) is None
            &&& (slot.max matches Some(high) && number > high) ==> slot.canonical(
                signed_decimal(number),
                normalize_yo,
            ) is None
            &&& signed_numeral(value) is None ==> slot.canonical(value, normalize_yo) is None
        },
        slot.value_type is Boolean ==> (slot.canonical(value, normalize_yo) is Some <==> value
            == "true"@ || value == "false"@),
{
    crate::number::signed_decimal_round_trip(number);
}

/// A command has the actions that are configured, or the single one that its handler and parameters
/// describe.
pub proof fn commands_have_their_actions(command: CommandView)
    ensures
        command.actions.len() > 0 ==> command.resolved() == command.actions,
        command.actions.len() == 0 ==> command.resolved().len() == 1 && command.resolved()[0].handler
            == command.handler && command.resolved()[0].parameters == command.parameters
            && command.resolved()[0].delay_ms == 0,
{
}

/// The sample of a slot is a value that the slot admits.
pub proof fn samples_are_admitted(slot: SlotView, normalize_yo: bool)
    ensures
        slot.value_type is Text && slot.values.len() > 0 ==> slot.sample_value(normalize_yo) is Some
            && slot.sample_value(normalize_yo) == slot.canonical(slot.values[0], normalize_yo),
        slot.value_type is Integer && (slot.min matches Some(low) && (slot.max matches Some(high) ==> low
            <= high)) ==> (slot.sample_value(normalize_yo) matches Some(sample) && slot.canonical(
            sample,
            normalize_yo,
        ) == Some(sample) && signed_numeral(sample) == Some(slot.min->0 as int)),
        slot.value_type is Boolean ==> (slot.sample_value(normalize_yo) matches Some(sample)
            && slot.canonical(sample, normalize_yo) == Some(sample)),
        slot.value_type is Text && slot.values.len() == 0 ==> slot.sample_value(normalize_yo) is None,
        slot.value_type is Integer && slot.min is None ==> slot.sample_value(normalize_yo) is None,
{
    if let Some(low) = slot.min {
        crate::number::signed_decimal_round_trip(low as int);
    }
    if slot.value_type is Text && slot.values.len() > 0 {
        assert(normalized(slot.values[0], normalize_yo) == normalized(slot.values[0], normalize_yo));
    }
}

/// Documents are read exactly if they parse and name a schema from the first to the sixth.
pub proof fn known_schemas_are_read(found: Result<Option<i64>, Seq<char>>)
    ensures
        toml_schema_error(found) is None <==> (found matches Ok(Some(version)) && 1 <= version && version
            <= 6),
        found matches Err(message) ==> toml_schema_error(found) == Some(ConfigErrorView::Toml(message)),
        found is Ok && toml_schema_error(found) is Some ==> toml_schema_error(found)->0 is Validation,
{
}

/// The message of a configuration error ends with what is wrong.
pub proof fn configuration_errors_tell_the_cause(cause: Seq<char>)
    ensures
        forall|error: ConfigErrorView|
            (error == ConfigErrorView::Io(cause) || error == ConfigErrorView::Toml(cause) || error
                == ConfigErrorView::Validation(cause)) ==> (#[trigger] error.message()).len()
                >= cause.len() && error.message().skip(error.message().len() - cause.len()) == cause,
{
    assert forall|error: ConfigErrorView|
        (error == ConfigErrorView::Io(cause) || error == ConfigErrorView::Toml(cause) || error
            == ConfigErrorView::Validation(cause)) implies (#[trigger] error.message()).len()
        >= cause.len() && error.message().skip(error.message().len() - cause.len()) == cause by {
        assert(error.message().skip(error.message().len() - cause.len()) =~= cause);
    }
}

/// A configuration is reasoned about as it is written: each part stands for itself.
pub proof fn configurations_stand_for_themselves(config: CoreConfig, i: int)
    ensures
        config@.schema_version == config.schema_version,
        config@.matching == config.matching,
        config@.audio.device_id == config.audio.device_id@,
        config@.wake_word.keyword == config.wake_word.keyword@,
        config@.wake_word.aliases == views(config.wake_word.aliases@),
        config@.wake_word.model == config.wake_word.model@,
        config@.inference.model == config.inference.model@,
        config@.inference.timeout_ms == config.inference.timeout_ms,
        config@.ipc.pipe_name == config.ipc.pipe_name@,
        config@.ipc.io_timeout_ms == config.ipc.io_timeout_ms,
        config@.policy.confirmations_enabled == config.policy.confirmations_enabled,
        config@.policy.voice_confirmations_enabled == config.policy.voice_confirmations_enabled,
        config@.policy.confirmation_timeout_ms == config.policy.confirmation_timeout_ms,
        config@.policy.confirmation_accept_phrases == views(config.policy.confirmation_accept_phrases@),
        config@.policy.confirmation_cancel_phrases == views(config.policy.confirmation_cancel_phrases@),
        config@.policy.handler_rate_limit_ms == config.policy.handler_rate_limit_ms,
        config@.policy.handler_failure_threshold == config.policy.handler_failure_threshold,
        config@.policy.handler_circuit_breaker_ms == config.policy.handler_circuit_breaker_ms,
        config@.commands.len() == config.commands@.len(),
        0 <= i < config.commands@.len() ==> {
            let command = config.commands@[i];
            let view = config@.commands[i];
            &&& view.id == command.id@ && view.enabled == command.enabled
            &&& view.phrases == views(command.phrases@) && view.slots == command.slots@
            &&& view.handler == command.handler@ && view.risk == command.risk
            &&& view.requires_confirmation == command.requires_confirmation
            &&& view.timeout_ms == command.timeout_ms && view.parameters == command.parameters@
            &&& view.actions.len() == command.actions@.len()
            &&& forall|a: int|
                0 <= a < command.actions@.len() ==> (#[trigger] view.actions[a]).handler
                    == command.actions@[a].handler@ && view.actions[a].delay_ms
                    == command.actions@[a].delay_ms && view.actions[a].parameters
                    == command.actions@[a].parameters@
        },
{
    assert(views(config.commands@).len() == config.commands@.len());
    if 0 <= i < config.commands@.len() {
        assert(config@.commands[i] == config.commands@[i]@);
        let command = config.commands@[i];
        assert forall|a: int| 0 <= a < command.actions@.len() implies (#[trigger] views(
            command.actions@,
        )[a]) == command.actions@[a]@ by {}
    }
}

} // verus!
