//! States, events and errors that every part of the assistant shares.

use crate::float32::Real32;
use crate::text::{option_view, views};
use crate::text_map::{Duplicate, TextMap};
use vstd::prelude::*;

verus! {

/// Current incompatible-version boundary for serialized IPC envelopes.
pub const PROTOCOL_VERSION: u16 = 7;

/// Stable Rust extension API version. Increment only for breaking contracts.
pub const CORE_API_VERSION: u16 = 6;

/// Semantic version of the running core build.
pub const CORE_VERSION: &'static str = "1.5.1";

/// Observable runtime state machine.
#[derive(Debug, Clone, Copy, PartialEq, Eq, Structural)]
pub enum AssistantState {
    /// Runtime adapters are being initialized.
    Starting,
    /// Ready and waiting for speech.
    IdleListening,
    /// Voice activity began.
    SpeechDetected,
    /// Configured keyword was detected.
    WakeWordDetected,
    /// Post-keyword command audio is being collected.
    CapturingCommand,
    /// Captured audio is in the STT worker.
    Transcribing,
    /// Transcript is being matched to configured phrases.
    MatchingCommand,
    /// A matched invocation waits for a one-time confirmation token.
    AwaitingConfirmation,
    /// A typed handler is running.
    ExecutingCommand,
    /// New wake words are temporarily suppressed.
    Cooldown,
    /// Listening is explicitly paused.
    Suspended,
    /// A recoverable component is being reset.
    Recovering,
    /// Recovery failed and external action is required.
    Faulted,
    /// Runtime shutdown has started.
    ShuttingDown,
}

/// Whether the state machine has a direct transition from one state to another.
pub open spec fn may_transition(from: AssistantState, to: AssistantState) -> bool {
    match from {
        AssistantState::Starting => to is IdleListening || to is ShuttingDown,
        AssistantState::IdleListening => {
            ||| to is SpeechDetected
            ||| to is CapturingCommand
            ||| to is MatchingCommand
            ||| to is Suspended
            ||| to is Recovering
            ||| to is ShuttingDown
        },
        AssistantState::SpeechDetected => {
            ||| to is WakeWordDetected
            ||| to is CapturingCommand
            ||| to is IdleListening
            ||| to is Recovering
            ||| to is ShuttingDown
        },
        AssistantState::WakeWordDetected => {
            ||| to is CapturingCommand
            ||| to is Recovering
            ||| to is ShuttingDown
        },
        AssistantState::CapturingCommand => {
            ||| to is Transcribing
            ||| to is AwaitingConfirmation
            ||| to is IdleListening
            ||| to is Recovering
            ||| to is ShuttingDown
        },
        AssistantState::Transcribing => {
            ||| to is MatchingCommand
            ||| to is AwaitingConfirmation
            ||| to is IdleListening
            ||| to is Recovering
            ||| to is ShuttingDown
        },
        AssistantState::MatchingCommand => {
            ||| to is ExecutingCommand
            ||| to is AwaitingConfirmation
            ||| to is Cooldown
            ||| to is ShuttingDown
        },
        AssistantState::AwaitingConfirmation => {
            ||| to is CapturingCommand
            ||| to is ExecutingCommand
            ||| to is Cooldown
            ||| to is Recovering
            ||| to is ShuttingDown
        },
        AssistantState::ExecutingCommand => {
            ||| to is Cooldown
            ||| to is Recovering
            ||| to is ShuttingDown
        },
        AssistantState::Cooldown => {
            ||| to is IdleListening
            ||| to is Suspended
            ||| to is ShuttingDown
        },
        AssistantState::Suspended => to is IdleListening || to is ShuttingDown,
        AssistantState::Recovering => {
            ||| to is IdleListening
            ||| to is Faulted
            ||| to is ShuttingDown
        },
        AssistantState::Faulted => to is Recovering || to is ShuttingDown,
        AssistantState::ShuttingDown => false,
    }
}

/// The name under which a state appears in messages.
pub open spec fn state_name(state: AssistantState) -> Seq<char> {
    match state {
        AssistantState::Starting => "Starting"@,
        AssistantState::IdleListening => "IdleListening"@,
        AssistantState::SpeechDetected => "SpeechDetected"@,
        AssistantState::WakeWordDetected => "WakeWordDetected"@,
        AssistantState::CapturingCommand => "CapturingCommand"@,
        AssistantState::Transcribing => "Transcribing"@,
        AssistantState::MatchingCommand => "MatchingCommand"@,
        AssistantState::AwaitingConfirmation => "AwaitingConfirmation"@,
        AssistantState::ExecutingCommand => "ExecutingCommand"@,
        AssistantState::Cooldown => "Cooldown"@,
        AssistantState::Suspended => "Suspended"@,
        AssistantState::Recovering => "Recovering"@,
        AssistantState::Faulted => "Faulted"@,
        AssistantState::ShuttingDown => "ShuttingDown"@,
    }
}

impl AssistantState {
    /// Returns whether the state machine permits a direct transition.
    pub fn can_transition_to(self, next: Self) -> (allowed: bool)
        ensures
            allowed == may_transition(self, next),
    {
        if matches!(next, AssistantState::ShuttingDown) {
            return !matches!(self, AssistantState::ShuttingDown);
        }
        match self {
            AssistantState::Starting => matches!(next, AssistantState::IdleListening),
            AssistantState::IdleListening => matches!(
                next,
                AssistantState::SpeechDetected
                    | AssistantState::CapturingCommand
                    | AssistantState::MatchingCommand
                    | AssistantState::Suspended
                    | AssistantState::Recovering
            ),
            AssistantState::SpeechDetected => matches!(
                next,
                AssistantState::WakeWordDetected
                    | AssistantState::CapturingCommand
                    | AssistantState::IdleListening
                    | AssistantState::Recovering
            ),
            AssistantState::WakeWordDetected => matches!(
                next,
                AssistantState::CapturingCommand | AssistantState::Recovering
            ),
            AssistantState::CapturingCommand => matches!(
                next,
                AssistantState::Transcribing
                    | AssistantState::AwaitingConfirmation
                    | AssistantState::IdleListening
                    | AssistantState::Recovering
            ),
            AssistantState::Transcribing => matches!(
                next,
                AssistantState::MatchingCommand
                    | AssistantState::AwaitingConfirmation
                    | AssistantState::IdleListening
                    | AssistantState::Recovering
            ),
            AssistantState::MatchingCommand => matches!(
                next,
                AssistantState::ExecutingCommand
                    | AssistantState::AwaitingConfirmation
                    | AssistantState::Cooldown
            ),
            AssistantState::AwaitingConfirmation => matches!(
                next,
                AssistantState::CapturingCommand
                    | AssistantState::ExecutingCommand
                    | AssistantState::Cooldown
                    | AssistantState::Recovering
            ),
            AssistantState::ExecutingCommand => matches!(
                next,
                AssistantState::Cooldown | AssistantState::Recovering
            ),
            AssistantState::Cooldown => matches!(
                next,
                AssistantState::IdleListening | AssistantState::Suspended
            ),
            AssistantState::Suspended => matches!(next, AssistantState::IdleListening),
            AssistantState::Recovering => matches!(
                next,
                AssistantState::IdleListening | AssistantState::Faulted
            ),
            AssistantState::Faulted => matches!(next, AssistantState::Recovering),
            AssistantState::ShuttingDown => false,
        }
    }

    /// The name of the state.
    pub fn name(self) -> (name: &'static str)
        ensures
            name@ == state_name(self),
    {
        match self {
            AssistantState::Starting => "Starting",
            AssistantState::IdleListening => "IdleListening",
            AssistantState::SpeechDetected => "SpeechDetected",
            AssistantState::WakeWordDetected => "WakeWordDetected",
            AssistantState::CapturingCommand => "CapturingCommand",
            AssistantState::Transcribing => "Transcribing",
            AssistantState::MatchingCommand => "MatchingCommand",
            AssistantState::AwaitingConfirmation => "AwaitingConfirmation",
            AssistantState::ExecutingCommand => "ExecutingCommand",
            AssistantState::Cooldown => "Cooldown",
            AssistantState::Suspended => "Suspended",
            AssistantState::Recovering => "Recovering",
            AssistantState::Faulted => "Faulted",
            AssistantState::ShuttingDown => "ShuttingDown",
        }
    }
}

/// Shutdown is final and open from every other state, and no state leads to itself.
pub proof fn shutdown_is_final(state: AssistantState)
    ensures
        !may_transition(AssistantState::ShuttingDown, state),
        state !is ShuttingDown ==> may_transition(state, AssistantState::ShuttingDown),
        !may_transition(state, state),
{
}

/// Whether a chain of at most `steps` transitions leads from one state to another.
pub open spec fn reaches(from: AssistantState, to: AssistantState, steps: nat) -> bool
    decreases steps,
{
    from == to || (steps > 0 && exists|next: AssistantState|
        #[trigger] may_transition(from, next) && reaches(next, to, (steps - 1) as nat))
}

/// Listening can be resumed from every state but shutdown, in at most two transitions.
pub proof fn listening_is_recoverable(state: AssistantState)
    requires
        state !is ShuttingDown,
    ensures
        reaches(state, AssistantState::IdleListening, 2),
{
    let idle = AssistantState::IdleListening;
    reveal_with_fuel(reaches, 3);
    let via = match state {
        AssistantState::WakeWordDetected => AssistantState::CapturingCommand,
        AssistantState::MatchingCommand => AssistantState::Cooldown,
        AssistantState::AwaitingConfirmation => AssistantState::Cooldown,
        AssistantState::ExecutingCommand => AssistantState::Cooldown,
        AssistantState::Faulted => AssistantState::Recovering,
        _ => idle,
    };
    assert(reaches(idle, idle, 1));
    assert(may_transition(via, idle) || via == idle);
    assert(reaches(idle, idle, 0));
    assert(reaches(via, idle, 1));
    if state != idle {
        assert(may_transition(state, via));
    }
}

/// Successful typed handler result.
#[derive(Debug, Clone, PartialEq, Eq)]
pub struct CommandResult {
    /// Short user-visible result message.
    pub message: String,
}

/// Validated string parameters passed to a typed command handler.
pub type CommandParameters = TextMap<String>;

/// What [`CommandParameters`] hold: names with values, in order of the names.
pub type Parameters = Seq<(Seq<char>, Seq<char>)>;

/// Speech-recognition output.
#[derive(Debug, Clone, PartialEq)]
pub struct Transcript {
    /// Recognized UTF-8 text.
    pub text: String,
    /// Optional engine-specific confidence in the range `[0, 1]`.
    pub confidence: Option<Real32>,
}

/// Owned mono audio submitted to a recognizer.
#[derive(Debug, Clone)]
pub struct TranscriptionRequest<S> {
    /// Normalized mono samples.
    pub samples: Vec<S>,
    /// Samples per second.
    pub sample_rate: u32,
}

/// Timestamped interleaved audio frame at a device-native format.
#[derive(Debug, Clone)]
pub struct AudioFrame<S> {
    /// Interleaved normalized samples.
    pub samples: Vec<S>,
    /// Samples per second.
    pub sample_rate: u32,
    /// Number of interleaved channels.
    pub channels: u16,
    /// Monotonic capture timestamp in nanoseconds.
    pub captured_at: u64,
}

/// Typed failures returned across core adapter boundaries.
#[derive(Debug, Clone, PartialEq, Eq)]
pub enum CoreError {
    /// State transition violates [`AssistantState::can_transition_to`].
    InvalidTransition(AssistantState, AssistantState),
    /// Speech recognizer failed.
    Recognition(String),
    /// Matching, handler validation or handler execution failed.
    Command(String),
    /// Operation cannot run in the current non-idle state.
    Busy(String),
    /// Confirmation token is missing, expired or does not match.
    Confirmation(String),
    /// Required adapter or resource is not available.
    Unavailable(String),
}

/// What a [`CoreError`] says.
pub enum ErrorView {
    /// No such transition.
    InvalidTransition(AssistantState, AssistantState),
    /// Speech recognizer failed.
    Recognition(Seq<char>),
    /// Matching, handler validation or handler execution failed.
    Command(Seq<char>),
    /// Operation cannot run in the current state.
    Busy(Seq<char>),
    /// Confirmation token is missing, expired or does not match.
    Confirmation(Seq<char>),
    /// Required adapter or resource is not available.
    Unavailable(Seq<char>),
}

impl View for CoreError {
    type V = ErrorView;

    open spec fn view(&self) -> ErrorView {
        match self {
            CoreError::InvalidTransition(from, to) => ErrorView::InvalidTransition(*from, *to),
            CoreError::Recognition(message) => ErrorView::Recognition(message@),
            CoreError::Command(message) => ErrorView::Command(message@),
            CoreError::Busy(message) => ErrorView::Busy(message@),
            CoreError::Confirmation(message) => ErrorView::Confirmation(message@),
            CoreError::Unavailable(message) => ErrorView::Unavailable(message@),
        }
    }
}

impl ErrorView {
    /// The message that describes the error.
    pub open spec fn message(self) -> Seq<char> {
        match self {
            ErrorView::InvalidTransition(from, to) => "invalid state transition: "@ + state_name(from)
                + " -> "@ + state_name(to),
            ErrorView::Recognition(message) => "speech recognition failed: "@ + message,
            ErrorView::Command(message) => "command failed: "@ + message,
            ErrorView::Busy(message) => "runtime is busy: "@ + message,
            ErrorView::Confirmation(message) => "confirmation failed: "@ + message,
            ErrorView::Unavailable(message) => "component is unavailable: "@ + message,
        }
    }

    /// The category of the error.
    pub open spec fn category(self) -> CoreErrorCode {
        match self {
            ErrorView::InvalidTransition(_, _) => CoreErrorCode::InvalidState,
            ErrorView::Recognition(_) => CoreErrorCode::Recognition,
            ErrorView::Command(_) => CoreErrorCode::Command,
            ErrorView::Busy(_) => CoreErrorCode::Busy,
            ErrorView::Confirmation(_) => CoreErrorCode::Confirmation,
            ErrorView::Unavailable(_) => CoreErrorCode::Unavailable,
        }
    }
}

/// Stable machine-readable category for [`CoreError`].
#[derive(Debug, Clone, Copy, PartialEq, Eq, Structural)]
pub enum CoreErrorCode {
    /// Invalid runtime state transition.
    InvalidState,
    /// Speech-recognition failure.
    Recognition,
    /// Command validation or execution failure.
    Command,
    /// Runtime is busy.
    Busy,
    /// Invalid confirmation operation.
    Confirmation,
    /// Adapter or resource unavailable.
    Unavailable,
}

impl CoreError {
    /// Stable machine-readable category for logs, IPC and extensions.
    pub fn code(&self) -> (code: CoreErrorCode)
        ensures
            code == self@.category(),
    {
        match self {
            CoreError::InvalidTransition(_, _) => CoreErrorCode::InvalidState,
            CoreError::Recognition(_) => CoreErrorCode::Recognition,
            CoreError::Command(_) => CoreErrorCode::Command,
            CoreError::Busy(_) => CoreErrorCode::Busy,
            CoreError::Confirmation(_) => CoreErrorCode::Confirmation,
            CoreError::Unavailable(_) => CoreErrorCode::Unavailable,
        }
    }

    /// The message that describes the error.
    pub fn to_string(&self) -> (text: String)
        ensures
            text@ == self@.message(),
    {
        match self {
            CoreError::InvalidTransition(from, to) => {
                let mut text = "invalid state transition: ".to_owned();
                text.append(from.name());
                text.append(" -> ");
                text.append(to.name());
                text
            },
            CoreError::Recognition(message) => {
                let mut text = "speech recognition failed: ".to_owned();
                text.append(message);
                text
            },
            CoreError::Command(message) => {
                let mut text = "command failed: ".to_owned();
                text.append(message);
                text
            },
            CoreError::Busy(message) => {
                let mut text = "runtime is busy: ".to_owned();
                text.append(message);
                text
            },
            CoreError::Confirmation(message) => {
                let mut text = "confirmation failed: ".to_owned();
                text.append(message);
                text
            },
            CoreError::Unavailable(message) => {
                let mut text = "component is unavailable: ".to_owned();
                text.append(message);
                text
            },
        }
    }
}

/// A result without a value, by what its error says.
pub open spec fn result_view(result: Result<(), CoreError>) -> Result<(), ErrorView> {
    match result {
        Ok(_) => Ok(()),
        Err(error) => Err(error@),
    }
}

/// Reason a pending one-time confirmation token became invalid.
#[derive(Debug, Clone, Copy, PartialEq, Eq, Structural)]
pub enum ConfirmationCancelReason {
    /// Application explicitly cancelled it.
    User,
    /// Confirmation deadline elapsed.
    Expired,
    /// Runtime recovery invalidated it.
    Recovery,
    /// Listening was suspended.
    Suspended,
    /// Runtime components or policy changed.
    Reconfigured,
}

/// Reason why a speech session gave no transcript.
#[derive(Debug, Clone, Copy, PartialEq, Eq, Structural)]
pub enum TranscriptUnavailableReason {
    /// Speech ended without the configured wake word.
    WakeWordNotDetected,
    /// Captured audio was shorter than the configured minimum.
    TooShort,
    /// The recognizer found no text.
    Silence,
    /// No recognizer model is active.
    ModelUnavailable,
}

/// User-visible input-device descriptor.
#[derive(Debug, Clone, PartialEq, Eq)]
pub struct AudioDeviceInfo {
    /// Stable backend identifier.
    pub id: String,
    /// Display name reported by the operating system.
    pub name: String,
    /// Whether this is the current default input device.
    pub is_default: bool,
}

/// What an [`AudioDeviceInfo`] describes.
pub struct DeviceView {
    /// Stable backend identifier.
    pub id: Seq<char>,
    /// Display name reported by the operating system.
    pub name: Seq<char>,
    /// Whether this is the current default input device.
    pub is_default: bool,
}

impl View for AudioDeviceInfo {
    type V = DeviceView;

    open spec fn view(&self) -> DeviceView {
        DeviceView { id: self.id@, name: self.name@, is_default: self.is_default }
    }
}

impl Duplicate for AudioDeviceInfo {
    fn duplicate(&self) -> (copy: Self) {
        AudioDeviceInfo {
            id: self.id.clone(),
            name: self.name.clone(),
            is_default: self.is_default,
        }
    }
}

/// Ordered events emitted by runtime and model lifecycle operations.
#[derive(Debug, Clone, PartialEq)]
#[allow(inconsistent_fields)]
pub enum AssistantEvent {
    /// Runtime entered a new state.
    StateChanged {
        /// State before the transition.
        previous: AssistantState,
        /// State after the transition.
        current: AssistantState,
    },
    /// A speech session began.
    SpeechStarted {
        /// Session number.
        session_id: u64,
    },
    /// A speech session ended.
    SpeechEnded {
        /// Session number.
        session_id: u64,
    },
    /// Incremental STT produced a changed partial transcript.
    TranscriptPartial {
        /// Session number.
        session_id: u64,
        /// Text recognized so far.
        text: String,
        /// Optional recognizer confidence.
        confidence: Option<Real32>,
    },
    /// STT produced the final transcript of a session.
    TranscriptFinal {
        /// Session number.
        session_id: u64,
        /// Recognizer output.
        text: String,
        /// Optional recognizer confidence.
        confidence: Option<Real32>,
    },
    /// A speech session gave no transcript.
    TranscriptUnavailable {
        /// Why there is none.
        reason: TranscriptUnavailableReason,
    },
    /// Exact matching selected a command.
    CommandMatched {
        /// Configured command identifier.
        command_id: String,
    },
    /// Handler execution started.
    CommandStarted {
        /// Configured command identifier.
        command_id: String,
    },
    /// An invocation requires explicit confirmation.
    ConfirmationRequired {
        /// Configured command identifier.
        command_id: String,
        /// One-time invocation token accepted by confirm or cancel.
        confirmation_id: String,
    },
    /// Speech or text during a pending confirmation was neither accepted nor a cancellation.
    ConfirmationUnrecognized {
        /// Normalized text.
        text: String,
    },
    /// A pending confirmation was cancelled explicitly, by timeout or recovery.
    ConfirmationCancelled {
        /// Configured command identifier.
        command_id: String,
        /// Invalidated one-time invocation token.
        confirmation_id: String,
        /// Why the token was invalidated.
        reason: ConfirmationCancelReason,
    },
    /// Handler execution completed successfully.
    CommandFinished {
        /// Configured command identifier.
        command_id: String,
        /// Typed handler result.
        result: CommandResult,
    },
    /// No exact command matched the transcript.
    CommandNotMatched {
        /// Unmatched transcript.
        text: String,
    },
    /// A component failed but runtime recovery remains possible.
    RecoverableError {
        /// Stable component label such as `audio` or `stt`.
        component: String,
        /// Diagnostic failure description.
        message: String,
    },
    /// Microphone level.
    AudioLevel {
        /// Root mean square of recent samples.
        rms: Real32,
    },
    /// The active input device changed.
    AudioDeviceChanged {
        /// The active device, if any.
        device: Option<AudioDeviceInfo>,
    },
    /// The selected input device is missing and the default one is used.
    AudioDeviceFallback {
        /// Selected device identifier.
        requested_device_id: String,
        /// The device in use.
        device: AudioDeviceInfo,
    },
    /// Model installation advanced between allowlisted files.
    ModelInstallProgress {
        /// Completed allowlisted file count.
        completed_files: usize,
        /// Total allowlisted file count.
        total_files: usize,
        /// Current relative file, if any.
        file: Option<String>,
    },
    /// Native STT initialization advanced to a new stage.
    ModelLoadProgress {
        /// Coarse completion percentage.
        progress: u8,
        /// Stable user-visible loading stage.
        stage: String,
    },
    /// A verified model revision became active.
    ModelReady {
        /// Pinned model commit SHA.
        revision: String,
    },
}

/// What an [`AssistantEvent`] says.
#[allow(inconsistent_fields)]
pub enum EventView {
    /// Runtime entered a new state.
    StateChanged { previous: AssistantState, current: AssistantState },
    /// A speech session began.
    SpeechStarted { session_id: u64 },
    /// A speech session ended.
    SpeechEnded { session_id: u64 },
    /// A changed partial transcript.
    TranscriptPartial { session_id: u64, text: Seq<char>, confidence: Option<Real32> },
    /// The final transcript of a session.
    TranscriptFinal { session_id: u64, text: Seq<char>, confidence: Option<Real32> },
    /// A session without a transcript.
    TranscriptUnavailable { reason: TranscriptUnavailableReason },
    /// A command was selected.
    CommandMatched { command_id: Seq<char> },
    /// Handler execution started.
    CommandStarted { command_id: Seq<char> },
    /// An invocation requires confirmation.
    ConfirmationRequired { command_id: Seq<char>, confirmation_id: Seq<char> },
    /// An answer was not understood.
    ConfirmationUnrecognized { text: Seq<char> },
    /// A pending confirmation was cancelled.
    ConfirmationCancelled {
        command_id: Seq<char>,
        confirmation_id: Seq<char>,
        reason: ConfirmationCancelReason,
    },
    /// Handler execution completed.
    CommandFinished { command_id: Seq<char>, message: Seq<char> },
    /// No command matched.
    CommandNotMatched { text: Seq<char> },
    /// A component failed.
    RecoverableError { component: Seq<char>, message: Seq<char> },
    /// Microphone level.
    AudioLevel { rms: Real32 },
    /// The active input device changed.
    AudioDeviceChanged { device: Option<DeviceView> },
    /// The default input device replaces the selected one.
    AudioDeviceFallback { requested_device_id: Seq<char>, device: DeviceView },
    /// Model installation advanced.
    ModelInstallProgress { completed_files: usize, total_files: usize, file: Option<Seq<char>> },
    /// Native STT initialization advanced.
    ModelLoadProgress { progress: u8, stage: Seq<char> },
    /// A verified model revision became active.
    ModelReady { revision: Seq<char> },
}

impl View for AssistantEvent {
    type V = EventView;

    open spec fn view(&self) -> EventView {
        match self {
            AssistantEvent::StateChanged { previous, current } => EventView::StateChanged {
                previous: *previous,
                current: *current,
            },
            AssistantEvent::SpeechStarted { session_id } => EventView::SpeechStarted {
                session_id: *session_id,
            },
            AssistantEvent::SpeechEnded { session_id } => EventView::SpeechEnded {
                session_id: *session_id,
            },
            AssistantEvent::TranscriptPartial { session_id, text, confidence } =>
                EventView::TranscriptPartial {
                    session_id: *session_id,
                    text: text@,
                    confidence: *confidence,
                },
            AssistantEvent::TranscriptFinal { session_id, text, confidence } =>
                EventView::TranscriptFinal {
                    session_id: *session_id,
                    text: text@,
                    confidence: *confidence,
                },
            AssistantEvent::TranscriptUnavailable { reason } => EventView::TranscriptUnavailable {
                reason: *reason,
            },
            AssistantEvent::CommandMatched { command_id } => EventView::CommandMatched {
                command_id: command_id@,
            },
            AssistantEvent::CommandStarted { command_id } => EventView::CommandStarted {
                command_id: command_id@,
            },
            AssistantEvent::ConfirmationRequired { command_id, confirmation_id } =>
                EventView::ConfirmationRequired {
                    command_id: command_id@,
                    confirmation_id: confirmation_id@,
                },
            AssistantEvent::ConfirmationUnrecognized { text } =>
                EventView::ConfirmationUnrecognized { text: text@ },
            AssistantEvent::ConfirmationCancelled { command_id, confirmation_id, reason } =>
                EventView::ConfirmationCancelled {
                    command_id: command_id@,
                    confirmation_id: confirmation_id@,
                    reason: *reason,
                },
            AssistantEvent::CommandFinished { command_id, result } => EventView::CommandFinished {
                command_id: command_id@,
                message: result.message@,
            },
            AssistantEvent::CommandNotMatched { text } => EventView::CommandNotMatched {
                text: text@,
            },
            AssistantEvent::RecoverableError { component, message } =>
                EventView::RecoverableError { component: component@, message: message@ },
            AssistantEvent::AudioLevel { rms } => EventView::AudioLevel { rms: *rms },
            AssistantEvent::AudioDeviceChanged { device } => EventView::AudioDeviceChanged {
                device: option_view(*device),
            },
            AssistantEvent::AudioDeviceFallback { requested_device_id, device } =>
                EventView::AudioDeviceFallback {
                    requested_device_id: requested_device_id@,
                    device: device@,
                },
            AssistantEvent::ModelInstallProgress { completed_files, total_files, file } =>
                EventView::ModelInstallProgress {
                    completed_files: *completed_files,
                    total_files: *total_files,
                    file: option_view(*file),
                },
            AssistantEvent::ModelLoadProgress { progress, stage } => EventView::ModelLoadProgress {
                progress: *progress,
                stage: stage@,
            },
            AssistantEvent::ModelReady { revision } => EventView::ModelReady {
                revision: revision@,
            },
        }
    }
}

/// Durable model lifecycle state.
#[derive(Debug, Clone, PartialEq, Eq)]
pub enum ModelStatus {
    /// No verified model is installed.
    Missing,
    /// Installation is active.
    Installing {
        /// Number of allowlisted files copied and verified so far.
        completed_files: usize,
        /// Total allowlisted file count.
        total_files: usize,
        /// Current or most recently completed relative file.
        file: Option<String>,
    },
    /// A verified model is being loaded into the native STT engine.
    Loading {
        /// Coarse completion percentage.
        progress: u8,
        /// Stable user-visible loading stage.
        stage: String,
        /// Whether the previous recognizer remains active during replacement.
        active: bool,
    },
    /// A verified revision is active.
    Ready {
        /// Pinned model commit SHA.
        revision: String,
    },
    /// Installation or activation failed.
    Failed {
        /// User-visible failure description.
        message: String,
    },
    /// The last installation or STT loading was cancelled cooperatively.
    Cancelled,
}

/// What a [`ModelStatus`] says.
pub enum ModelStatusView {
    /// No verified model is installed.
    Missing,
    /// Installation is active.
    Installing { completed_files: usize, total_files: usize, file: Option<Seq<char>> },
    /// A verified model is being loaded.
    Loading { progress: u8, stage: Seq<char>, active: bool },
    /// A verified revision is active.
    Ready { revision: Seq<char> },
    /// Installation or activation failed.
    Failed { message: Seq<char> },
    /// The last installation or loading was cancelled.
    Cancelled,
}

impl View for ModelStatus {
    type V = ModelStatusView;

    open spec fn view(&self) -> ModelStatusView {
        match self {
            ModelStatus::Missing => ModelStatusView::Missing,
            ModelStatus::Installing { completed_files, total_files, file } =>
                ModelStatusView::Installing {
                    completed_files: *completed_files,
                    total_files: *total_files,
                    file: option_view(*file),
                },
            ModelStatus::Loading { progress, stage, active } => ModelStatusView::Loading {
                progress: *progress,
                stage: stage@,
                active: *active,
            },
            ModelStatus::Ready { revision } => ModelStatusView::Ready { revision: revision@ },
            ModelStatus::Failed { message } => ModelStatusView::Failed { message: message@ },
            ModelStatus::Cancelled => ModelStatusView::Cancelled,
        }
    }
}

impl Duplicate for ModelStatus {
    fn duplicate(&self) -> (copy: Self) {
        match self {
            ModelStatus::Missing => ModelStatus::Missing,
            ModelStatus::Installing { completed_files, total_files, file } =>
                ModelStatus::Installing {
                    completed_files: *completed_files,
                    total_files: *total_files,
                    file: match file {
                        Some(file) => Some(file.clone()),
                        None => None,
                    },
                },
            ModelStatus::Loading { progress, stage, active } => ModelStatus::Loading {
                progress: *progress,
                stage: stage.clone(),
                active: *active,
            },
            ModelStatus::Ready { revision } => ModelStatus::Ready { revision: revision.clone() },
            ModelStatus::Failed { message } => ModelStatus::Failed { message: message.clone() },
            ModelStatus::Cancelled => ModelStatus::Cancelled,
        }
    }
}

/// Condition of one supervised component.
#[derive(Debug, Clone, Copy, PartialEq, Eq, Structural)]
pub enum ComponentStatus {
    /// The component works.
    Ready,
    /// The component is starting or being restarted.
    Recovering,
    /// Automatic recovery ended without success.
    Faulted,
    /// The component does not run.
    Stopped,
}

/// Health of one supervised component.
#[derive(Debug, Clone, PartialEq, Eq)]
pub struct ComponentHealth {
    /// Stable component label.
    pub name: String,
    /// Current condition.
    pub status: ComponentStatus,
    /// Automatic restarts so far.
    pub restart_count: u32,
    /// Last error, when present.
    pub last_error: Option<String>,
}

/// What a [`ComponentHealth`] reports.
pub struct ComponentView {
    /// Stable component label.
    pub name: Seq<char>,
    /// Current condition.
    pub status: ComponentStatus,
    /// Automatic restarts so far.
    pub restart_count: u32,
    /// Last error, when present.
    pub last_error: Option<Seq<char>>,
}

impl View for ComponentHealth {
    type V = ComponentView;

    open spec fn view(&self) -> ComponentView {
        ComponentView {
            name: self.name@,
            status: self.status,
            restart_count: self.restart_count,
            last_error: option_view(self.last_error),
        }
    }
}

/// Readiness and compatibility information returned to applications.
#[derive(Debug, Clone, PartialEq, Eq)]
pub struct HealthSnapshot {
    /// Current runtime state.
    pub state: AssistantState,
    /// Semantic version of the running core build.
    pub core_version: String,
    /// Whether an input stream is currently producing frames.
    pub audio_ready: bool,
    /// Input device in use, if any.
    pub active_audio_device: Option<AudioDeviceInfo>,
    /// Whether a verified recognizer model is active.
    pub model_ready: bool,
    /// Loaded configuration schema.
    pub config_version: u16,
    /// Public Rust extension API version.
    pub core_api_version: u16,
    /// Serialized IPC protocol version.
    pub protocol_version: u16,
    /// Last recoverable component error, when present.
    pub last_error: Option<String>,
    /// Supervised components.
    pub components: Vec<ComponentHealth>,
}

/// What a [`HealthSnapshot`] reports.
#[verifier::ext_equal]
pub struct HealthView {
    /// Current runtime state.
    pub state: AssistantState,
    /// Semantic version of the running core build.
    pub core_version: Seq<char>,
    /// Whether an input stream is currently producing frames.
    pub audio_ready: bool,
    /// Input device in use, if any.
    pub active_audio_device: Option<DeviceView>,
    /// Whether a verified recognizer model is active.
    pub model_ready: bool,
    /// Loaded configuration schema.
    pub config_version: u16,
    /// Public Rust extension API version.
    pub core_api_version: u16,
    /// Serialized IPC protocol version.
    pub protocol_version: u16,
    /// Last recoverable component error, when present.
    pub last_error: Option<Seq<char>>,
    /// Supervised components.
    pub components: Seq<ComponentView>,
}

impl View for HealthSnapshot {
    type V = HealthView;

    open spec fn view(&self) -> HealthView {
        HealthView {
            state: self.state,
            core_version: self.core_version@,
            audio_ready: self.audio_ready,
            active_audio_device: option_view(self.active_audio_device),
            model_ready: self.model_ready,
            config_version: self.config_version,
            core_api_version: self.core_api_version,
            protocol_version: self.protocol_version,
            last_error: option_view(self.last_error),
            components: views(self.components@),
        }
    }
}

/// Where each state can be entered from. A command is executed only once it is matched or confirmed; it
/// is matched only once it was transcribed, or submitted while nothing else goes on; and only captured
/// audio is transcribed.
pub proof fn states_are_entered_in_order(from: AssistantState)
    ensures
        !may_transition(from, AssistantState::Starting),
        may_transition(from, AssistantState::ExecutingCommand) <==> from is MatchingCommand || from
            is AwaitingConfirmation,
        may_transition(from, AssistantState::AwaitingConfirmation) <==> from is MatchingCommand || from
            is CapturingCommand || from is Transcribing,
        may_transition(from, AssistantState::MatchingCommand) <==> from is Transcribing || from
            is IdleListening,
        may_transition(from, AssistantState::Transcribing) <==> from is CapturingCommand,
        may_transition(from, AssistantState::CapturingCommand) <==> from is IdleListening || from
            is SpeechDetected || from is WakeWordDetected || from is AwaitingConfirmation,
        may_transition(from, AssistantState::WakeWordDetected) <==> from is SpeechDetected,
        may_transition(from, AssistantState::SpeechDetected) <==> from is IdleListening,
        may_transition(from, AssistantState::Cooldown) <==> from is MatchingCommand || from
            is AwaitingConfirmation || from is ExecutingCommand,
        may_transition(from, AssistantState::Suspended) <==> from is IdleListening || from is Cooldown,
        may_transition(from, AssistantState::IdleListening) <==> from is Starting || from
            is SpeechDetected || from is CapturingCommand || from is Transcribing || from is Cooldown
            || from is Suspended || from is Recovering,
        may_transition(from, AssistantState::Recovering) <==> from is IdleListening || from
            is SpeechDetected || from is WakeWordDetected || from is CapturingCommand || from
            is Transcribing || from is AwaitingConfirmation || from is ExecutingCommand || from
            is Faulted,
        may_transition(from, AssistantState::Faulted) <==> from is Recovering,
        may_transition(from, AssistantState::ShuttingDown) <==> from !is ShuttingDown,
{
}

/// Results keep whether they are failures, and failures what they say.
pub proof fn results_keep_their_failures(result: Result<(), CoreError>)
    ensures
        result is Ok <==> result_view(result) is Ok,
        result matches Err(error) ==> result_view(result) == Err::<(), _>(error@),
{
}

/// The message of a failure ends with what it was given.
pub proof fn failures_tell_the_cause(cause: Seq<char>)
    ensures
        forall|error: ErrorView|
            (error == ErrorView::Recognition(cause) || error == ErrorView::Command(cause) || error
                == ErrorView::Busy(cause) || error == ErrorView::Confirmation(cause) || error
                == ErrorView::Unavailable(cause)) ==> (#[trigger] error.message()).len() >= cause.len()
                && error.message().skip(error.message().len() - cause.len()) == cause,
{
    assert forall|error: ErrorView|
        (error == ErrorView::Recognition(cause) || error == ErrorView::Command(cause) || error
            == ErrorView::Busy(cause) || error == ErrorView::Confirmation(cause) || error
            == ErrorView::Unavailable(cause)) implies (#[trigger] error.message()).len() >= cause.len()
        && error.message().skip(error.message().len() - cause.len()) == cause by {
        assert(error.message().skip(error.message().len() - cause.len()) =~= cause);
    }
}

} // verus!
