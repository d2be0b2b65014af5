//! The command pipeline: a state machine from captured speech or text to handler calls.
//!
//! Waiting, recognizing and calling handlers happen outside: each operation returns the next
//! [`Step`], and the answer to it comes back through [`Runtime::resume_execution`] or
//! [`Runtime::finish_captured_speech`].

use crate::commands::{normalized, CommandRegistry, RegistryView};
use crate::config::{
    ActionView, CommandActionConfig, CommandConfig, CommandView, PolicyConfig, PolicyView, RiskLevel,
};
use crate::domain::{
    may_transition, result_view, AssistantEvent, AssistantState, CommandParameters, CommandResult,
    ConfirmationCancelReason, CoreError, ErrorView, EventView, Parameters, Transcript, TranscriptUnavailableReason,
};
use crate::metrics::{counted, larger, CoreMetrics};
use crate::number::{decimal, hexadecimal, push_decimal, push_hexadecimal};
use crate::text::{blank, chars_of, is_blank, option_view, same_text, text_between, views};
use crate::text_map::{inserted, inserted_last, keys_increase, lookup, Duplicate, TextMap};
use vstd::prelude::*;
use vstd::utf8::encode_utf8;

verus! {

/// Largest submitted text in UTF-8 bytes.
pub const MAX_SUBMITTED_TEXT_BYTES: usize = 4_096;

/// Nanoseconds in one millisecond.
pub const NANOS_PER_MILLI: u128 = 1_000_000;

/// One matched invocation.
pub struct PendingCommand {
    /// Configured command identifier.
    pub id: String,
    /// Actions with slot values filled in.
    pub actions: Vec<CommandActionConfig>,
    /// Maximum execution time.
    pub timeout_ms: u64,
    /// Time in nanoseconds from which a confirmation is too late.
    pub expires_at: u128,
    /// One-time confirmation token.
    pub confirmation_id: Option<String>,
}

/// What a [`PendingCommand`] holds.
pub struct PendingView {
    /// Configured command identifier.
    pub id: Seq<char>,
    /// Actions with slot values filled in.
    pub actions: Seq<ActionView>,
    /// Maximum execution time.
    pub timeout_ms: u64,
    /// Time in nanoseconds from which a confirmation is too late.
    pub expires_at: u128,
    /// One-time confirmation token.
    pub confirmation_id: Option<Seq<char>>,
}

impl View for PendingCommand {
    type V = PendingView;

    open spec fn view(&self) -> PendingView {
        PendingView {
            id: self.id@,
            actions: views(self.actions@),
            timeout_ms: self.timeout_ms,
            expires_at: self.expires_at,
            confirmation_id: option_view(self.confirmation_id),
        }
    }
}

/// Protection state of one handler.
#[derive(Debug, Clone, Copy, PartialEq, Eq)]
pub struct HandlerGuard {
    /// When the handler was last started.
    pub last_started: Option<u64>,
    /// Failures since the last success.
    pub consecutive_failures: u32,
    /// When the circuit opened, while it is open.
    pub opened_at: Option<u64>,
}

impl View for HandlerGuard {
    type V = HandlerGuard;

    open spec fn view(&self) -> HandlerGuard {
        *self
    }
}

/// The protection state of a handler that was never used.
pub open spec fn fresh_guard() -> HandlerGuard {
    HandlerGuard { last_started: None, consecutive_failures: 0, opened_at: None }
}

/// A command whose actions are being carried out.
pub struct Execution {
    /// The invocation.
    pub command: PendingCommand,
    /// Index of the next action.
    pub next: usize,
    /// Whether the delay before the next action has passed.
    pub waited: bool,
    /// The handler called last.
    pub current_handler: Option<String>,
    /// Result of the last action.
    pub last_result: Option<CommandResult>,
    /// When execution started, in nanoseconds.
    pub started_at: u64,
}

/// What an [`Execution`] holds.
pub struct ExecutionView {
    /// The invocation.
    pub command: PendingView,
    /// Index of the next action.
    pub next: usize,
    /// Whether the delay before the next action has passed.
    pub waited: bool,
    /// The handler called last.
    pub current_handler: Option<Seq<char>>,
    /// Result message of the last action.
    pub last_result: Option<Seq<char>>,
    /// When execution started, in nanoseconds.
    pub started_at: u64,
}

/// The message of an optional result.
pub open spec fn message_view(result: Option<CommandResult>) -> Option<Seq<char>> {
    match result {
        Some(result) => Some(result.message@),
        None => None,
    }
}

impl View for Execution {
    type V = ExecutionView;

    open spec fn view(&self) -> ExecutionView {
        ExecutionView {
            command: self.command@,
            next: self.next,
            waited: self.waited,
            current_handler: option_view(self.current_handler),
            last_result: message_view(self.last_result),
            started_at: self.started_at,
        }
    }
}

/// What has to happen next.
pub enum Step {
    /// Nothing: the operation is complete.
    Done,
    /// Wait, then report that the delay has passed.
    Wait {
        /// Delay in milliseconds.
        delay_ms: u64,
        /// The command in progress.
        execution: Execution,
    },
    /// Call a handler, then report its result.
    Call {
        /// Handler name.
        handler: String,
        /// Handler parameters.
        parameters: CommandParameters,
        /// The command in progress.
        execution: Execution,
    },
}

/// What a [`Step`] asks for.
pub enum StepView {
    /// Nothing.
    Done,
    /// Wait.
    Wait { delay_ms: u64, execution: ExecutionView },
    /// Call a handler.
    Call { handler: Seq<char>, parameters: Parameters, execution: ExecutionView },
}

impl View for Step {
    type V = StepView;

    open spec fn view(&self) -> StepView {
        match self {
            Step::Done => StepView::Done,
            Step::Wait { delay_ms, execution } => StepView::Wait {
                delay_ms: *delay_ms,
                execution: execution@,
            },
            Step::Call { handler, parameters, execution } => StepView::Call {
                handler: handler@,
                parameters: parameters@,
                execution: execution@,
            },
        }
    }
}

/// The outcome of an operation with a next step, by its views.
pub open spec fn step_view(result: Result<Step, CoreError>) -> Result<StepView, ErrorView> {
    match result {
        Ok(step) => Ok(step@),
        Err(error) => Err(error@),
    }
}

/// What happened to a command in progress.
pub enum ExecutionEvent {
    /// The delay before the next action has passed.
    Waited,
    /// The handler succeeded.
    Completed(CommandResult),
    /// The handler failed.
    Failed(CoreError),
    /// The command took longer than its timeout.
    TimedOut,
}

/// What an [`ExecutionEvent`] reports.
pub enum ExecutionEventView {
    /// The delay before the next action has passed.
    Waited,
    /// The handler succeeded.
    Completed(Seq<char>),
    /// The handler failed.
    Failed(ErrorView),
    /// The command took longer than its timeout.
    TimedOut,
}

impl View for ExecutionEvent {
    type V = ExecutionEventView;

    open spec fn view(&self) -> ExecutionEventView {
        match self {
            ExecutionEvent::Waited => ExecutionEventView::Waited,
            ExecutionEvent::Completed(result) => ExecutionEventView::Completed(result.message@),
            ExecutionEvent::Failed(error) => ExecutionEventView::Failed(error@),
            ExecutionEvent::TimedOut => ExecutionEventView::TimedOut,
        }
    }
}

/// How a timed-out recognizer was recovered.
#[derive(Debug, Clone, Copy, PartialEq, Eq, Structural)]
pub enum RecognizerRecovery {
    /// The worker was restarted.
    Restarted,
    /// There was nothing to restart.
    Unchanged,
    /// No restart is left.
    Exhausted,
}

/// What became of a transcription.
pub enum TranscriptionOutcome {
    /// The recognizer answered.
    Transcribed(Transcript),
    /// The recognizer failed.
    Failed(CoreError),
    /// The recognizer took too long.
    TimedOut(RecognizerRecovery),
}

/// What a [`TranscriptionOutcome`] reports.
pub enum TranscriptionOutcomeView {
    /// The recognizer answered.
    Transcribed(Seq<char>, Option<crate::float32::Real32>),
    /// The recognizer failed.
    Failed(ErrorView),
    /// The recognizer took too long.
    TimedOut(RecognizerRecovery),
}

impl View for TranscriptionOutcome {
    type V = TranscriptionOutcomeView;

    open spec fn view(&self) -> TranscriptionOutcomeView {
        match self {
            TranscriptionOutcome::Transcribed(transcript) => TranscriptionOutcomeView::Transcribed(
                transcript.text@,
                transcript.confidence,
            ),
            TranscriptionOutcome::Failed(error) => TranscriptionOutcomeView::Failed(error@),
            TranscriptionOutcome::TimedOut(recovery) => TranscriptionOutcomeView::TimedOut(*recovery),
        }
    }
}

/// What became of starting an incremental transcription.
pub enum StreamStart {
    /// The recognizer answered whether it streams.
    Started(bool),
    /// The recognizer failed.
    Failed(CoreError),
    /// The recognizer took too long.
    TimedOut,
}

/// What became of one streamed frame.
pub enum StreamPush {
    /// The recognizer accepted it, perhaps with a partial transcript.
    Accepted(Option<Transcript>),
    /// The recognizer failed.
    Failed(CoreError),
    /// The recognizer took too long.
    TimedOut,
}

/// A transcription to be carried out.
#[derive(Debug, Clone, Copy, PartialEq, Eq, Structural)]
pub struct Transcription {
    /// The speech session it belongs to.
    pub session_id: u64,
    /// Whether an incremental transcription is to be finished instead of a new one made.
    pub finish_stream: bool,
}

/// Differential runtime update; omitted fields keep their active component.
pub struct RuntimeUpdate {
    /// Replacement command matcher.
    pub commands: Option<CommandRegistry>,
    /// Replacement prefixes removed before exact command matching.
    pub wake_words: Option<Vec<String>>,
    /// Replacement confirmation behavior.
    pub policy: Option<PolicyConfig>,
    /// Replacement maximum duration of one recognizer request.
    pub stt_timeout_ms: Option<u64>,
    /// Replacement delay before returning from `Cooldown`.
    pub cooldown_ms: Option<u64>,
}

/// Stateful command pipeline shared by the daemon and diagnostic CLI.
pub struct Runtime {
    state: AssistantState,
    registry: CommandRegistry,
    wake_words: Vec<String>,
    policy: PolicyConfig,
    stt_timeout_ms: u64,
    cooldown_ms: u64,
    pending: Option<PendingCommand>,
    confirmation_sequence: u64,
    streaming_stt: bool,
    confirming_by_voice: bool,
    last_partial: String,
    session_sequence: u64,
    active_session_id: Option<u64>,
    handler_guards: TextMap<HandlerGuard>,
    metrics: CoreMetrics,
    events: Vec<AssistantEvent>,
}

/// What a [`Runtime`] holds.
#[verifier::ext_equal]
pub struct RuntimeView {
    /// Current state of the state machine.
    pub state: AssistantState,
    /// Command matcher.
    pub registry: RegistryView,
    /// Wake word and aliases.
    pub wake_words: Seq<Seq<char>>,
    /// Confirmation and protection policy.
    pub policy: PolicyView,
    /// Maximum duration of one recognizer request.
    pub stt_timeout_ms: u64,
    /// Delay before returning from `Cooldown`.
    pub cooldown_ms: u64,
    /// The invocation that waits for confirmation.
    pub pending: Option<PendingView>,
    /// Number of confirmation tokens given out.
    pub confirmation_sequence: u64,
    /// Whether incremental transcription is active.
    pub streaming_stt: bool,
    /// Whether the current speech answers a confirmation.
    pub confirming_by_voice: bool,
    /// Partial transcript published last.
    pub last_partial: Seq<char>,
    /// Number of speech sessions so far.
    pub session_sequence: u64,
    /// The speech session in progress.
    pub active_session_id: Option<u64>,
    /// Protection state of the handlers used so far.
    pub handler_guards: Seq<(Seq<char>, HandlerGuard)>,
    /// Counters.
    pub metrics: CoreMetrics,
    /// Events published and not yet taken.
    pub events: Seq<EventView>,
}

impl View for Runtime {
    type V = RuntimeView;

    closed spec fn view(&self) -> RuntimeView {
        RuntimeView {
            state: self.state,
            registry: self.registry@,
            wake_words: views(self.wake_words@),
            policy: self.policy@,
            stt_timeout_ms: self.stt_timeout_ms,
            cooldown_ms: self.cooldown_ms,
            pending: option_view(self.pending),
            confirmation_sequence: self.confirmation_sequence,
            streaming_stt: self.streaming_stt,
            confirming_by_voice: self.confirming_by_voice,
            last_partial: self.last_partial@,
            session_sequence: self.session_sequence,
            active_session_id: self.active_session_id,
            handler_guards: self.handler_guards@,
            metrics: self.metrics,
            events: views(self.events@),
        }
    }
}

/// A runtime with the outcome of the operation that led to it.
pub struct After<T> {
    /// The runtime after the operation.
    pub runtime: RuntimeView,
    /// What the operation returned.
    pub result: Result<T, ErrorView>,
}

/// An outcome without a value.
pub open spec fn after(runtime: RuntimeView, result: Result<(), ErrorView>) -> After<()> {
    After { runtime, result }
}

/// An outcome with a next step.
pub open spec fn after_step(runtime: RuntimeView, result: Result<StepView, ErrorView>) -> After<StepView> {
    After { runtime, result }
}

impl After<()> {
    /// A transition that follows, unless an error came before.
    pub open spec fn and_enter(self, next: AssistantState) -> After<()> {
        match self.result {
            Ok(_) => self.runtime.enter(next),
            Err(_) => self,
        }
    }

    /// A speech session that follows, unless an error came before.
    pub open spec fn and_open_session(self) -> After<()> {
        match self.result {
            Ok(_) => self.runtime.open_session(),
            Err(_) => self,
        }
    }

    /// The same outcome, complete where it succeeded.
    pub open spec fn done(self) -> After<StepView> {
        After {
            runtime: self.runtime,
            result: match self.result {
                Ok(_) => Ok(StepView::Done),
                Err(error) => Err(error),
            },
        }
    }

    /// The same runtime, failed with an error unless an earlier one came.
    pub open spec fn then_fail(self, error: ErrorView) -> After<StepView> {
        After {
            runtime: self.runtime,
            result: match self.result {
                Ok(_) => Err(error),
                Err(earlier) => Err(earlier),
            },
        }
    }
}

/// The error for an operation on a confirmation that does not exist.
pub open spec fn nothing_pending() -> ErrorView {
    ErrorView::Confirmation("no command is awaiting confirmation"@)
}

/// The error for a token that is not the pending one.
pub open spec fn wrong_token() -> ErrorView {
    ErrorView::Confirmation("confirmation command id does not match"@)
}

/// The error for a confirmation that comes too late.
pub open spec fn too_late() -> ErrorView {
    ErrorView::Confirmation("confirmation expired"@)
}

/// Time passed between two times in nanoseconds, none where the second lies before the first.
pub open spec fn passed(from: u64, to: u64) -> int {
    if to >= from {
        to - from
    } else {
        0
    }
}

impl RuntimeView {
    /// The runtime with one more event published.
    pub open spec fn emit(self, event: EventView) -> RuntimeView {
        RuntimeView { events: self.events.push(event), ..self }
    }

    /// One state transition.
    pub open spec fn enter(self, next: AssistantState) -> After<()> {
        if may_transition(self.state, next) {
            after(
                (RuntimeView { state: next, ..self }).emit(
                    EventView::StateChanged { previous: self.state, current: next },
                ),
                Ok(()),
            )
        } else {
            after(self, Err(ErrorView::InvalidTransition(self.state, next)))
        }
    }

    /// The runtime without its pending invocation, whose cancellation is published.
    pub open spec fn drop_pending(self, reason: ConfirmationCancelReason) -> RuntimeView {
        match self.pending {
            Some(pending) => (RuntimeView { pending: None, ..self }).emit(
                EventView::ConfirmationCancelled {
                    command_id: pending.id,
                    confirmation_id: match pending.confirmation_id {
                        Some(token) => token,
                        None => Seq::empty(),
                    },
                    reason,
                },
            ),
            None => self,
        }
    }

    /// Cancels the pending invocation.
    pub open spec fn cancel_pending(self, reason: ConfirmationCancelReason) -> After<()> {
        match self.pending {
            Some(_) => self.drop_pending(reason).enter(AssistantState::Cooldown),
            None => after(self, Err(nothing_pending())),
        }
    }

    /// Pauses listening.
    pub open spec fn suspend(self) -> After<()> {
        if self.state is Suspended {
            after(self, Ok(()))
        } else if self.state is AwaitingConfirmation {
            self.cancel_pending(ConfirmationCancelReason::Suspended).and_enter(
                AssistantState::Suspended,
            )
        } else {
            self.enter(AssistantState::Suspended)
        }
    }

    /// Resumes listening.
    pub open spec fn resume(self) -> After<()> {
        if self.state is IdleListening {
            after(self, Ok(()))
        } else {
            self.enter(AssistantState::IdleListening)
        }
    }

    /// Shuts down.
    pub open spec fn shutdown(self) -> After<()> {
        if self.state is ShuttingDown {
            after(self, Ok(()))
        } else {
            (RuntimeView { pending: None, ..self }).enter(AssistantState::ShuttingDown)
        }
    }

    /// Publishes a recoverable error and returns to listening where the state permits it.
    #[verifier::opaque]
    pub open spec fn recover(self, component: Seq<char>, message: Seq<char>) -> RuntimeView {
        if self.state is ShuttingDown {
            self
        } else {
            let reported = (RuntimeView {
                metrics: CoreMetrics {
                    recoverable_errors: counted(self.metrics.recoverable_errors),
                    ..self.metrics
                },
                ..self
            }).emit(EventView::RecoverableError { component, message }).drop_pending(
                ConfirmationCancelReason::Recovery,
            );
            if may_transition(self.state, AssistantState::Recovering) {
                reported.enter(AssistantState::Recovering).runtime.enter(
                    AssistantState::IdleListening,
                ).runtime
            } else {
                reported
            }
        }
    }

    /// Opens a speech session.
    pub open spec fn open_session(self) -> After<()> {
        match self.active_session_id {
            Some(_) => after(self, Err(ErrorView::Busy("speech session is already active"@))),
            None => {
                let session_id = counted(self.session_sequence);
                after(
                    (RuntimeView {
                        session_sequence: session_id,
                        active_session_id: Some(session_id),
                        ..self
                    }).emit(EventView::SpeechStarted { session_id }),
                    Ok(()),
                )
            },
        }
    }

    /// Closes the speech session in progress, if there is one.
    pub open spec fn close_session(self) -> RuntimeView {
        match self.active_session_id {
            Some(session_id) => (RuntimeView { active_session_id: None, ..self }).emit(
                EventView::SpeechEnded { session_id },
            ),
            None => self,
        }
    }

    /// Whether speech and text answer a pending confirmation.
    pub open spec fn answers_confirmation(self) -> bool {
        self.state is AwaitingConfirmation && self.policy.voice_confirmations_enabled
    }

    /// Starts a capture that answers a confirmation.
    pub open spec fn start_answer(self) -> After<()> {
        (RuntimeView { confirming_by_voice: true, ..self }).enter(
            AssistantState::CapturingCommand,
        ).and_open_session()
    }

    /// Starts a speech capture, with or without a wake word.
    pub open spec fn start_speech(self, wake_word_detected: bool) -> After<()> {
        if self.answers_confirmation() {
            self.start_answer()
        } else {
            let heard = self.enter(AssistantState::SpeechDetected);
            let awake = if wake_word_detected {
                heard.and_enter(AssistantState::WakeWordDetected)
            } else {
                heard
            };
            awake.and_enter(AssistantState::CapturingCommand).and_open_session()
        }
    }

    /// Starts a capture that an application asked for.
    pub open spec fn start_manual(self) -> After<()> {
        if self.state is AwaitingConfirmation {
            if self.policy.voice_confirmations_enabled {
                self.start_answer()
            } else {
                after(self, Err(ErrorView::Busy("voice confirmation is disabled"@)))
            }
        } else {
            self.enter(AssistantState::CapturingCommand).and_open_session()
        }
    }

    /// Gives a capture up.
    pub open spec fn cancel_capture(self) -> After<()> {
        let closed = (RuntimeView {
            streaming_stt: false,
            last_partial: Seq::empty(),
            ..self
        }).close_session();
        if self.confirming_by_voice {
            (RuntimeView { confirming_by_voice: false, ..closed }).enter(
                AssistantState::AwaitingConfirmation,
            )
        } else {
            closed.enter(AssistantState::IdleListening)
        }
    }
}

impl Runtime {
    /// Creates a runtime with explicit wake-word, policy and metrics.
    pub fn new(
        registry: CommandRegistry,
        wake_word: String,
        policy: PolicyConfig,
        stt_timeout_ms: u64,
        cooldown_ms: u64,
        metrics: CoreMetrics,
    ) -> (runtime: Self)
        ensures
            runtime@ == new_runtime(
                registry@,
                seq![wake_word@],
                policy@,
                stt_timeout_ms,
                cooldown_ms,
                metrics,
            ),
    {
        let ghost phrase = wake_word@;
        let mut wake_words: Vec<String> = Vec::new();
        wake_words.push(wake_word);
        assert(views(wake_words@) =~= seq![phrase]);
        Self::new_with_wake_words(
            registry,
            wake_words,
            policy,
            stt_timeout_ms,
            cooldown_ms,
            metrics,
        )
    }

    /// Creates a runtime accepting the canonical wake word and all configured aliases.
    pub fn new_with_wake_words(
        registry: CommandRegistry,
        wake_words: Vec<String>,
        policy: PolicyConfig,
        stt_timeout_ms: u64,
        cooldown_ms: u64,
        metrics: CoreMetrics,
    ) -> (runtime: Self)
        ensures
            runtime@ == new_runtime(
                registry@,
                views(wake_words@),
                policy@,
                stt_timeout_ms,
                cooldown_ms,
                metrics,
            ),
    {
        let runtime = Runtime {
            state: AssistantState::Starting,
            registry,
            wake_words,
            policy,
            stt_timeout_ms,
            cooldown_ms,
            pending: None,
            confirmation_sequence: 0,
            streaming_stt: false,
            confirming_by_voice: false,
            last_partial: String::new(),
            session_sequence: 0,
            active_session_id: None,
            handler_guards: TextMap::new(),
            metrics,
            events: Vec::new(),
        };
        assert(runtime@.events =~= Seq::empty());
        runtime
    }

    /// Current state of the state machine.
    pub fn state(&self) -> (state: AssistantState)
        ensures
            state == self@.state,
    {
        self.state
    }

    /// Counters so far.
    pub fn metrics(&self) -> (metrics: &CoreMetrics)
        ensures
            *metrics == self@.metrics,
    {
        &self.metrics
    }

    /// Maximum duration of one recognizer request in milliseconds.
    pub fn stt_timeout_ms(&self) -> (millis: u64)
        ensures
            millis == self@.stt_timeout_ms,
    {
        self.stt_timeout_ms
    }

    /// Cooldown duration in milliseconds used by the runtime service and audio gate.
    pub fn cooldown(&self) -> (millis: u64)
        ensures
            millis == self@.cooldown_ms,
    {
        self.cooldown_ms
    }

    /// Hands out the events published since the last call.
    pub fn take_events(&mut self) -> (events: Vec<AssistantEvent>)
        ensures
            views(events@) == old(self)@.events,
            final(self)@ == (RuntimeView { events: Seq::empty(), ..old(self)@ }),
    {
        let mut events: Vec<AssistantEvent> = Vec::new();
        std::mem::swap(&mut events, &mut self.events);
        assert(self@.events =~= Seq::empty());
        events
    }

    /// Publishes a lifecycle event produced by model or audio services.
    pub fn publish_event(&mut self, event: AssistantEvent)
        ensures
            final(self)@ == old(self)@.emit(event@),
    {
        let ghost before = self.events@;
        let ghost added = event@;
        self.events.push(event);
        assert(views(self.events@) =~= views(before).push(added));
    }

    /// Validates and publishes one state transition.
    pub fn transition(&mut self, next: AssistantState) -> (result: Result<(), CoreError>)
        ensures
            final(self)@ == old(self)@.enter(next).runtime,
            result_view(result) == old(self)@.enter(next).result,
    {
        if !self.state.can_transition_to(next) {
            return Err(CoreError::InvalidTransition(self.state, next));
        }
        let previous = self.state;
        self.state = next;
        self.publish_event(AssistantEvent::StateChanged { previous, current: next });
        Ok(())
    }

    /// Moves a new runtime into idle listening.
    pub fn start(&mut self) -> (result: Result<(), CoreError>)
        ensures
            final(self)@ == old(self)@.enter(AssistantState::IdleListening).runtime,
            result_view(result) == old(self)@.enter(AssistantState::IdleListening).result,
    {
        self.transition(AssistantState::IdleListening)
    }

    /// Publishes the cancellation of the pending invocation, if there is one.
    fn drop_pending(&mut self, reason: ConfirmationCancelReason)
        ensures
            final(self)@ == old(self)@.drop_pending(reason),
    {
        match self.pending.take() {
            Some(pending) => {
                let confirmation_id = match pending.confirmation_id {
                    Some(token) => token,
                    None => String::new(),
                };
                self.publish_event(
                    AssistantEvent::ConfirmationCancelled {
                        command_id: pending.id,
                        confirmation_id,
                        reason,
                    },
                );
            },
            None => {},
        }
    }

    /// Cancels the pending invocation.
    fn cancel_pending(&mut self, reason: ConfirmationCancelReason) -> (result: Result<(), CoreError>)
        ensures
            final(self)@ == old(self)@.cancel_pending(reason).runtime,
            result_view(result) == old(self)@.cancel_pending(reason).result,
    {
        if self.pending.is_none() {
            return Err(
                CoreError::Confirmation("no command is awaiting confirmation".to_owned()),
            );
        }
        self.drop_pending(reason);
        self.transition(AssistantState::Cooldown)
    }

    /// Stops audio processing without shutting down the daemon.
    pub fn suspend(&mut self) -> (result: Result<(), CoreError>)
        ensures
            final(self)@ == old(self)@.suspend().runtime,
            result_view(result) == old(self)@.suspend().result,
    {
        if matches!(self.state, AssistantState::Suspended) {
            return Ok(());
        }
        if matches!(self.state, AssistantState::AwaitingConfirmation) {
            let cancelled = self.cancel_pending(ConfirmationCancelReason::Suspended);
            if cancelled.is_err() {
                return cancelled;
            }
        }
        self.transition(AssistantState::Suspended)
    }

    /// Resumes a suspended runtime.
    pub fn resume(&mut self) -> (result: Result<(), CoreError>)
        ensures
            final(self)@ == old(self)@.resume().runtime,
            result_view(result) == old(self)@.resume().result,
    {
        if matches!(self.state, AssistantState::IdleListening) {
            return Ok(());
        }
        self.transition(AssistantState::IdleListening)
    }

    /// Moves any active state to shutdown.
    pub fn shutdown(&mut self) -> (result: Result<(), CoreError>)
        ensures
            final(self)@ == old(self)@.shutdown().runtime,
            result_view(result) == old(self)@.shutdown().result,
    {
        if matches!(self.state, AssistantState::ShuttingDown) {
            return Ok(());
        }
        self.pending = None;
        self.transition(AssistantState::ShuttingDown)
    }

    /// Publishes a recoverable component error and restores idle state.
    pub fn report_recoverable(&mut self, component: &str, message: String)
        ensures
            final(self)@ == old(self)@.recover(component@, message@),
    {
        proof {
            reveal(RuntimeView::recover);
        }
        if matches!(self.state, AssistantState::ShuttingDown) {
            return ;
        }
        self.metrics.recoverable_error();
        self.publish_event(
            AssistantEvent::RecoverableError { component: component.to_owned(), message },
        );
        self.drop_pending(ConfirmationCancelReason::Recovery);
        if self.state.can_transition_to(AssistantState::Recovering) {
            let _ = self.transition(AssistantState::Recovering);
            let _ = self.transition(AssistantState::IdleListening);
        }
    }

    /// Opens a speech session.
    fn start_speech_session(&mut self) -> (result: Result<(), CoreError>)
        ensures
            final(self)@ == old(self)@.open_session().runtime,
            result_view(result) == old(self)@.open_session().result,
    {
        if self.active_session_id.is_some() {
            return Err(CoreError::Busy("speech session is already active".to_owned()));
        }
        self.session_sequence = self.session_sequence.wrapping_add(1);
        let session_id: u64 = self.session_sequence;
        self.active_session_id = Some(session_id);
        self.publish_event(AssistantEvent::SpeechStarted { session_id });
        Ok(())
    }

    /// Closes the speech session in progress, if there is one.
    fn end_speech_session(&mut self)
        ensures
            final(self)@ == old(self)@.close_session(),
    {
        match self.active_session_id {
            Some(session_id) => {
                self.active_session_id = None;
                self.publish_event(AssistantEvent::SpeechEnded { session_id });
            },
            None => {},
        }
    }

    /// Starts a capture that answers a confirmation.
    fn start_answer(&mut self) -> (result: Result<(), CoreError>)
        ensures
            final(self)@ == old(self)@.start_answer().runtime,
            result_view(result) == old(self)@.start_answer().result,
    {
        self.confirming_by_voice = true;
        let entered = self.transition(AssistantState::CapturingCommand);
        if entered.is_err() {
            return entered;
        }
        self.start_speech_session()
    }

    /// Publishes wake-word and capture states at detection time.
    pub fn start_command_capture(&mut self) -> (result: Result<(), CoreError>)
        ensures
            final(self)@ == old(self)@.start_speech(true).runtime,
            result_view(result) == old(self)@.start_speech(true).result,
    {
        self.start_speech_capture(true)
    }

    /// Starts a VAD-delimited speech session that may or may not authorize a command.
    pub fn start_speech_capture(&mut self, wake_word_detected: bool) -> (result: Result<(), CoreError>)
        ensures
            final(self)@ == old(self)@.start_speech(wake_word_detected).runtime,
            result_view(result) == old(self)@.start_speech(wake_word_detected).result,
    {
        if matches!(self.state, AssistantState::AwaitingConfirmation)
            && self.policy.voice_confirmations_enabled {
            return self.start_answer();
        }
        let heard = self.transition(AssistantState::SpeechDetected);
        if heard.is_err() {
            return heard;
        }
        if wake_word_detected {
            let awake = self.transition(AssistantState::WakeWordDetected);
            if awake.is_err() {
                return awake;
            }
        }
        let capturing = self.transition(AssistantState::CapturingCommand);
        if capturing.is_err() {
            return capturing;
        }
        self.start_speech_session()
    }

    /// Starts capture requested by a trusted application without a wake word.
    pub fn start_manual_capture(&mut self) -> (result: Result<(), CoreError>)
        ensures
            final(self)@ == old(self)@.start_manual().runtime,
            result_view(result) == old(self)@.start_manual().result,
    {
        if matches!(self.state, AssistantState::AwaitingConfirmation) {
            if !self.policy.voice_confirmations_enabled {
                return Err(CoreError::Busy("voice confirmation is disabled".to_owned()));
            }
            return self.start_answer();
        }
        let capturing = self.transition(AssistantState::CapturingCommand);
        if capturing.is_err() {
            return capturing;
        }
        self.start_speech_session()
    }

    /// Returns an empty or too-short manual capture to idle listening.
    pub fn cancel_capture(&mut self) -> (result: Result<(), CoreError>)
        ensures
            final(self)@ == old(self)@.cancel_capture().runtime,
            result_view(result) == old(self)@.cancel_capture().result,
    {
        self.streaming_stt = false;
        self.last_partial = String::new();
        self.end_speech_session();
        if self.confirming_by_voice {
            self.confirming_by_voice = false;
            return self.transition(AssistantState::AwaitingConfirmation);
        }
        self.transition(AssistantState::IdleListening)
    }
}

/// A runtime before it is started.
pub open spec fn new_runtime(
    registry: RegistryView,
    wake_words: Seq<Seq<char>>,
    policy: PolicyView,
    stt_timeout_ms: u64,
    cooldown_ms: u64,
    metrics: CoreMetrics,
) -> RuntimeView {
    RuntimeView {
        state: AssistantState::Starting,
        registry,
        wake_words,
        policy,
        stt_timeout_ms,
        cooldown_ms,
        pending: None,
        confirmation_sequence: 0,
        streaming_stt: false,
        confirming_by_voice: false,
        last_partial: Seq::empty(),
        session_sequence: 0,
        active_session_id: None,
        handler_guards: Seq::empty(),
        metrics,
        events: Seq::empty(),
    }
}

/// The name between braces, where a value stands for a captured slot.
pub open spec fn slot_reference(value: Seq<char>) -> Option<Seq<char>> {
    if value.len() >= 2 && value[0] == '{' && value.last() == '}' {
        Some(value.subrange(1, value.len() - 1))
    } else {
        None
    }
}

/// A parameter value with the captured slot in place of its reference.
pub open spec fn substituted(slots: Parameters, value: Seq<char>) -> Seq<char> {
    match slot_reference(value) {
        Some(name) => match lookup(slots, name) {
            Some(captured) => captured,
            None => value,
        },
        None => value,
    }
}

/// Parameters with captured slots in place of their references.
pub open spec fn filled_parameters(slots: Parameters, parameters: Parameters) -> Parameters {
    Seq::new(parameters.len(), |i: int| (parameters[i].0, substituted(slots, parameters[i].1)))
}

/// An action with captured slots filled in and the command named.
pub open spec fn filled_action(command: CommandView, slots: Parameters, action: ActionView) -> ActionView {
    ActionView {
        parameters: inserted(
            filled_parameters(slots, action.parameters),
            "_command_id"@,
            command.id,
        ),
        ..action
    }
}

/// The actions of a command with captured slots filled in.
pub open spec fn filled_actions(command: CommandView, slots: Parameters) -> Seq<ActionView> {
    Seq::new(
        command.resolved().len(),
        |i: int| filled_action(command, slots, command.resolved()[i]),
    )
}

/// Replaces a reference by the captured slot.
fn substitute(slots: &CommandParameters, value: &str) -> (result: String)
    ensures
        result@ == substituted(slots@, value@),
{
    let chars = chars_of(value);
    if chars.len() >= 2 && chars[0] == '{' && chars[chars.len() - 1] == '}' {
        let name = text_between(&chars, 1, chars.len() - 1);
        match slots.get(&name) {
            Some(captured) => {
                return captured.clone();
            },
            None => {},
        }
    }
    value.to_owned()
}

/// Replaces references by captured slots.
fn fill_parameters(slots: &CommandParameters, parameters: &CommandParameters) -> (filled: CommandParameters)
    ensures
        filled@ == filled_parameters(slots@, parameters@),
{
    let ghost all = filled_parameters(slots@, parameters@);
    let mut filled: CommandParameters = TextMap::new();
    let mut i: usize = 0;
    let count: usize = parameters.len();
    assert(all.take(0) =~= filled@);
    while i < count
        invariant
            0 <= i <= count == parameters@.len(),
            all == filled_parameters(slots@, parameters@),
            filled@ == all.take(i as int),
            keys_increase(parameters@),
        decreases count - i,
    {
        proof {
            inserted_last(all.take(i as int), all[i as int].0, all[i as int].1);
            assert(all.take(i + 1) =~= all.take(i as int).push(all[i as int]));
        }
        filled.insert(parameters.key_at(i).clone(), substitute(slots, parameters.value_at(i)));
        i = i + 1;
    }
    assert(all.take(i as int) =~= all);
    filled
}

/// Fills the captured slots into the actions of a command.
fn fill_actions(command: &CommandConfig, slots: &CommandParameters) -> (filled: Vec<
    CommandActionConfig,
>)
    ensures
        views(filled@) == filled_actions(command@, slots@),
{
    let actions = command.resolved_actions();
    let ghost all = filled_actions(command@, slots@);
    let mut filled: Vec<CommandActionConfig> = Vec::new();
    let mut i: usize = 0;
    while i < actions.len()
        invariant
            0 <= i <= actions@.len(),
            views(actions@) == command@.resolved(),
            all == filled_actions(command@, slots@),
            views(filled@) == all.take(i as int),
        decreases actions@.len() - i,
    {
        assert(command@.resolved()[i as int] == actions@[i as int]@);
        let mut parameters = fill_parameters(slots, &actions[i].parameters);
        parameters.insert("_command_id".to_owned(), command.id.clone());
        let action = CommandActionConfig {
            handler: actions[i].handler.clone(),
            delay_ms: actions[i].delay_ms,
            parameters,
        };
        let ghost before = views(filled@);
        let ghost added = action@;
        filled.push(action);
        assert(views(filled@) =~= before.push(added));
        assert(all.take(i + 1) =~= all.take(i as int).push(all[i as int]));
        i = i + 1;
    }
    assert(all.take(i as int) =~= all);
    filled
}

/// What the matcher selected.
struct Selected {
    id: String,
    actions: Vec<CommandActionConfig>,
    timeout_ms: u64,
    confirm: bool,
}

/// The token of a command for a position in the sequence of confirmations.
pub open spec fn confirmation_token(command_id: Seq<char>, sequence: u64) -> Seq<char> {
    command_id + "-"@ + hexadecimal(sequence as nat, 16)
}

/// The guard of a handler.
pub open spec fn guard_of(guards: Seq<(Seq<char>, HandlerGuard)>, handler: Seq<char>) -> HandlerGuard {
    match lookup(guards, handler) {
        Some(guard) => guard,
        None => fresh_guard(),
    }
}

/// Whether a circuit is still open.
pub open spec fn circuit_open(guard: HandlerGuard, policy: PolicyView, now: u64) -> bool {
    guard.opened_at matches Some(opened) && passed(opened, now) < policy.handler_circuit_breaker_ms
        * NANOS_PER_MILLI
}

/// Whether a handler was started too recently.
pub open spec fn rate_limited(guard: HandlerGuard, policy: PolicyView, now: u64) -> bool {
    policy.handler_rate_limit_ms != 0 && (guard.last_started matches Some(started) && passed(
        started,
        now,
    ) < policy.handler_rate_limit_ms * NANOS_PER_MILLI)
}

/// What a command in progress leads to.
pub enum Outcome {
    /// Every action succeeded, with this message.
    Succeeded(Seq<char>),
    /// An action failed.
    Failed(ErrorView),
}

impl ExecutionView {
    /// The message of a command whose actions have all succeeded.
    pub open spec fn outcome(self) -> Outcome {
        if self.command.actions.len() == 1 {
            match self.last_result {
                Some(message) => Outcome::Succeeded(message),
                None => Outcome::Failed(ErrorView::Command("command has no actions"@)),
            }
        } else {
            Outcome::Succeeded(
                "completed "@ + decimal(self.command.actions.len()) + " actions"@,
            )
        }
    }
}

impl RuntimeView {
    /// The runtime with the guard of a handler replaced.
    pub open spec fn with_guard(self, handler: Seq<char>, guard: HandlerGuard) -> RuntimeView {
        RuntimeView { handler_guards: inserted(self.handler_guards, handler, guard), ..self }
    }

    /// Asks whether a handler may start now; where it may, the start is recorded.
    #[verifier::opaque]
    pub open spec fn check_handler(self, handler: Seq<char>, now: u64) -> After<()> {
        let guard = guard_of(self.handler_guards, handler);
        let closed = HandlerGuard { opened_at: None, ..guard };
        if circuit_open(guard, self.policy, now) {
            after(
                self.with_guard(handler, guard),
                Err(ErrorView::Command("handler circuit is open: "@ + handler)),
            )
        } else if rate_limited(guard, self.policy, now) {
            after(
                self.with_guard(handler, closed),
                Err(ErrorView::Command("handler rate limit exceeded: "@ + handler)),
            )
        } else {
            after(
                self.with_guard(handler, HandlerGuard { last_started: Some(now), ..closed }),
                Ok(()),
            )
        }
    }

    /// Records a success: failures are forgotten and the circuit closes.
    pub open spec fn record_success(self, handler: Seq<char>) -> RuntimeView {
        self.with_guard(
            handler,
            HandlerGuard {
                consecutive_failures: 0,
                opened_at: None,
                ..guard_of(self.handler_guards, handler)
            },
        )
    }

    /// Records a failure: enough of them in a row open the circuit.
    pub open spec fn record_failure(self, handler: Seq<char>, now: u64) -> RuntimeView {
        if self.policy.handler_failure_threshold == 0 {
            self
        } else {
            let guard = guard_of(self.handler_guards, handler);
            let failures = if guard.consecutive_failures == u32::MAX {
                u32::MAX
            } else {
                (guard.consecutive_failures + 1) as u32
            };
            self.with_guard(
                handler,
                HandlerGuard {
                    consecutive_failures: failures,
                    opened_at: if failures >= self.policy.handler_failure_threshold {
                        Some(now)
                    } else {
                        guard.opened_at
                    },
                    ..guard
                },
            )
        }
    }

    /// Reports a failed component and fails with its error.
    pub open spec fn fail(self, component: Seq<char>, error: ErrorView) -> After<StepView> {
        after_step(self.recover(component, error.message()), Err(error))
    }

    /// The runtime with the latency of a command observed.
    pub open spec fn observe_handler(self, started_at: u64, now: u64) -> RuntimeView {
        let millis = (passed(started_at, now) / 1_000_000) as u64;
        RuntimeView {
            metrics: CoreMetrics {
                handler_last_ms: millis,
                handler_max_ms: larger(self.metrics.handler_max_ms, millis),
                ..self.metrics
            },
            ..self
        }
    }

    /// Completes a command.
    #[verifier::opaque]
    pub open spec fn finish(self, execution: ExecutionView, outcome: Outcome, now: u64) -> After<StepView> {
        let observed = self.observe_handler(execution.started_at, now);
        match outcome {
            Outcome::Failed(error) => observed.fail("command"@, error),
            Outcome::Succeeded(message) => (RuntimeView {
                metrics: CoreMetrics {
                    commands_completed: counted(observed.metrics.commands_completed),
                    ..observed.metrics
                },
                ..observed
            }).emit(
                EventView::CommandFinished { command_id: execution.command.id, message },
            ).enter(AssistantState::Cooldown).done(),
        }
    }

    /// Goes on with a command: waits before an action, calls its handler or completes.
    #[verifier::opaque]
    pub open spec fn next_step(self, execution: ExecutionView, now: u64) -> After<StepView> {
        if execution.next >= execution.command.actions.len() {
            self.finish(execution, execution.outcome(), now)
        } else {
            let action = execution.command.actions[execution.next as int];
            if action.delay_ms > 0 && !execution.waited {
                after_step(
                    self,
                    Ok(
                        StepView::Wait {
                            delay_ms: action.delay_ms,
                            execution: ExecutionView { waited: true, ..execution },
                        },
                    ),
                )
            } else {
                let checked = self.check_handler(action.handler, now);
                match checked.result {
                    Err(error) => checked.runtime.finish(execution, Outcome::Failed(error), now),
                    Ok(_) => after_step(
                        checked.runtime,
                        Ok(
                            StepView::Call {
                                handler: action.handler,
                                parameters: action.parameters,
                                execution: ExecutionView {
                                    current_handler: Some(action.handler),
                                    ..execution
                                },
                            },
                        ),
                    ),
                }
            }
        }
    }

    /// What follows from an event of a command in progress.
    pub open spec fn resume_execution(
        self,
        execution: ExecutionView,
        event: ExecutionEventView,
        now: u64,
    ) -> After<StepView> {
        match event {
            ExecutionEventView::Waited => self.next_step(execution, now),
            ExecutionEventView::Completed(message) => if execution.next
                >= execution.command.actions.len() {
                self.finish(execution, execution.outcome(), now)
            } else {
                let handler = execution.command.actions[execution.next as int].handler;
                self.record_success(handler).next_step(
                    ExecutionView {
                        next: (execution.next + 1) as usize,
                        waited: false,
                        last_result: Some(message),
                        ..execution
                    },
                    now,
                )
            },
            ExecutionEventView::Failed(error) => {
                let recorded = if execution.next >= execution.command.actions.len() {
                    self
                } else {
                    self.record_failure(
                        execution.command.actions[execution.next as int].handler,
                        now,
                    )
                };
                recorded.finish(execution, Outcome::Failed(error), now)
            },
            ExecutionEventView::TimedOut => {
                let recorded = match execution.current_handler {
                    Some(handler) => self.record_failure(handler, now),
                    None => self,
                };
                recorded.finish(
                    execution,
                    Outcome::Failed(ErrorView::Command("command timed out"@)),
                    now,
                )
            },
        }
    }

    /// Starts the actions of a command.
    #[verifier::opaque]
    pub open spec fn execute(self, command: PendingView, now: u64) -> After<StepView> {
        let entered = self.enter(AssistantState::ExecutingCommand);
        match entered.result {
            Err(error) => after_step(entered.runtime, Err(error)),
            Ok(_) => entered.runtime.emit(
                EventView::CommandStarted { command_id: command.id },
            ).next_step(
                ExecutionView {
                    command,
                    next: 0,
                    waited: false,
                    current_handler: None,
                    last_result: None,
                    started_at: now,
                },
                now,
            ),
        }
    }

    /// Whether a command has to be confirmed before it runs.
    pub open spec fn requires_confirmation(self, command: CommandView) -> bool {
        self.policy.confirmations_enabled && (command.requires_confirmation || command.risk is High)
    }

    /// Whether the time for a confirmation is over.
    pub open spec fn expired(self, pending: PendingView, now: u64) -> bool {
        now >= pending.expires_at
    }

    /// The invocation that a selection makes.
    pub open spec fn invocation(self, command: CommandView, slots: Parameters, now: u64) -> PendingView {
        PendingView {
            id: command.id,
            actions: filled_actions(command, slots),
            timeout_ms: command.timeout_ms,
            expires_at: (now + self.policy.confirmation_timeout_ms * NANOS_PER_MILLI) as u128,
            confirmation_id: None,
        }
    }

    /// Matches a text and runs the selected command or asks for its confirmation.
    #[verifier::opaque]
    pub open spec fn match_text(self, text: Seq<char>, allow_wake_word: bool, now: u64) -> After<StepView> {
        let selected = if allow_wake_word {
            self.registry.selects_after(text, self.wake_words)
        } else {
            self.registry.selects(text)
        };
        match selected {
            None => self.emit(EventView::CommandNotMatched { text }).enter(
                AssistantState::Cooldown,
            ).done(),
            Some((k, slots)) => {
                let command = self.registry.commands[k];
                let invocation = self.invocation(command, slots, now);
                let matched = self.emit(EventView::CommandMatched { command_id: command.id });
                if self.requires_confirmation(command) {
                    let sequence = counted(self.confirmation_sequence);
                    let token = confirmation_token(command.id, sequence);
                    (RuntimeView {
                        confirmation_sequence: sequence,
                        pending: Some(
                            PendingView { confirmation_id: Some(token), ..invocation },
                        ),
                        ..matched
                    }).emit(
                        EventView::ConfirmationRequired {
                            command_id: command.id,
                            confirmation_id: token,
                        },
                    ).enter(AssistantState::AwaitingConfirmation).done()
                } else {
                    matched.execute(invocation, now)
                }
            },
        }
    }

    /// Runs a pending invocation that was confirmed in time.
    #[verifier::opaque]
    pub open spec fn confirm_pending(self, now: u64) -> After<StepView> {
        match self.pending {
            None => after_step(self, Err(nothing_pending())),
            Some(pending) => if self.expired(pending, now) {
                self.cancel_pending(ConfirmationCancelReason::Expired).then_fail(too_late())
            } else {
                (RuntimeView { pending: None, ..self }).execute(pending, now)
            },
        }
    }

    /// Takes a text as the answer to a pending confirmation.
    #[verifier::opaque]
    pub open spec fn answer(self, text: Seq<char>, now: u64) -> After<StepView> {
        let form = normalized(text, self.registry.normalize_yo);
        let yo = self.registry.normalize_yo;
        let waiting = if self.state is AwaitingConfirmation {
            after(self, Ok(()))
        } else {
            self.enter(AssistantState::AwaitingConfirmation)
        };
        match waiting.result {
            Err(error) => after_step(waiting.runtime, Err(error)),
            Ok(_) => if is_one_of(form, self.policy.confirmation_accept_phrases, yo) {
                waiting.runtime.confirm_pending(now)
            } else if is_one_of(form, self.policy.confirmation_cancel_phrases, yo) {
                waiting.runtime.cancel_pending(ConfirmationCancelReason::User).done()
            } else {
                after_step(
                    waiting.runtime.emit(EventView::ConfirmationUnrecognized { text: form }),
                    Ok(StepView::Done),
                )
            },
        }
    }

    /// Takes a text that an application submitted.
    pub open spec fn process_text(self, text: Seq<char>, now: u64) -> After<StepView> {
        if is_blank(text) || encode_utf8(text).len() > MAX_SUBMITTED_TEXT_BYTES {
            after_step(
                self,
                Err(
                    ErrorView::Command("submitted text must contain 1..=4096 UTF-8 bytes"@),
                ),
            )
        } else if self.answers_confirmation() {
            self.answer(text, now)
        } else {
            let matching = self.enter(AssistantState::MatchingCommand);
            match matching.result {
                Err(error) => after_step(matching.runtime, Err(error)),
                Ok(_) => matching.runtime.match_text(text, false, now),
            }
        }
    }

    /// Confirms with a token.
    pub open spec fn confirm(self, token: Seq<char>, now: u64) -> After<StepView> {
        match self.pending {
            None => after_step(self, Err(nothing_pending())),
            Some(pending) => if pending.confirmation_id == Some(token) {
                self.confirm_pending(now)
            } else {
                after_step(self, Err(wrong_token()))
            },
        }
    }

    /// Whether a token is the pending one.
    pub open spec fn awaits(self, token: Seq<char>) -> bool {
        self.pending matches Some(pending) && pending.confirmation_id == Some(token)
    }

    /// Cancels with a token.
    pub open spec fn cancel(self, token: Seq<char>) -> After<()> {
        if self.awaits(token) {
            self.cancel_pending(ConfirmationCancelReason::User)
        } else {
            after(self, Err(wrong_token()))
        }
    }
}

/// Whether a normal form is that of one of several phrases.
pub open spec fn is_one_of(form: Seq<char>, phrases: Seq<Seq<char>>, normalize_yo: bool) -> bool {
    exists|i: int| 0 <= i < phrases.len() && #[trigger] normalized(phrases[i], normalize_yo) == form
}

impl Runtime {
    /// The guard of a handler.
    fn guard(&self, handler: &str) -> (guard: HandlerGuard)
        ensures
            guard == guard_of(self@.handler_guards, handler@),
    {
        match self.handler_guards.get(handler) {
            Some(guard) => *guard,
            None => HandlerGuard { last_started: None, consecutive_failures: 0, opened_at: None },
        }
    }

    /// Asks whether a handler may start now; where it may, the start is recorded.
    fn check_handler(&mut self, handler: &str, now: u64) -> (result: Result<(), CoreError>)
        ensures
            final(self)@ == old(self)@.check_handler(handler@, now).runtime,
            result_view(result) == old(self)@.check_handler(handler@, now).result,
    {
        proof {
            reveal(RuntimeView::check_handler);
        }
        let mut guard = self.guard(handler);
        match guard.opened_at {
            Some(opened) => {
                let since: u64 = now.saturating_sub(opened);
                let reset: u128 = self.policy.handler_circuit_breaker_ms as u128 * NANOS_PER_MILLI;
                if (since as u128) < reset {
                    self.handler_guards.insert(handler.to_owned(), guard);
                    let mut message = "handler circuit is open: ".to_owned();
                    message.append(handler);
                    return Err(CoreError::Command(message));
                }
                guard.opened_at = None;
            },
            None => {},
        }
        if self.policy.handler_rate_limit_ms != 0 {
            match guard.last_started {
                Some(started) => {
                    let since: u64 = now.saturating_sub(started);
                    let limit: u128 = self.policy.handler_rate_limit_ms as u128 * NANOS_PER_MILLI;
                    if (since as u128) < limit {
                        self.handler_guards.insert(handler.to_owned(), guard);
                        let mut message = "handler rate limit exceeded: ".to_owned();
                        message.append(handler);
                        return Err(CoreError::Command(message));
                    }
                },
                None => {},
            }
        }
        guard.last_started = Some(now);
        self.handler_guards.insert(handler.to_owned(), guard);
        Ok(())
    }

    /// Records a success.
    fn record_handler_success(&mut self, handler: &str)
        ensures
            final(self)@ == old(self)@.record_success(handler@),
    {
        let mut guard = self.guard(handler);
        guard.consecutive_failures = 0;
        guard.opened_at = None;
        self.handler_guards.insert(handler.to_owned(), guard);
    }

    /// Records a failure.
    fn record_handler_failure(&mut self, handler: &str, now: u64)
        ensures
            final(self)@ == old(self)@.record_failure(handler@, now),
    {
        if self.policy.handler_failure_threshold == 0 {
            return ;
        }
        let mut guard = self.guard(handler);
        guard.consecutive_failures = guard.consecutive_failures.saturating_add(1);
        if guard.consecutive_failures >= self.policy.handler_failure_threshold {
            guard.opened_at = Some(now);
        }
        self.handler_guards.insert(handler.to_owned(), guard);
    }

    /// Reports a failed component and fails with its error.
    fn fail(&mut self, component: &str, error: CoreError) -> (result: Result<Step, CoreError>)
        ensures
            final(self)@ == old(self)@.fail(component@, error@).runtime,
            step_view(result) == old(self)@.fail(component@, error@).result,
    {
        self.report_recoverable(component, error.to_string());
        Err(error)
    }

    /// Observes the latency of a command.
    fn observe_handler(&mut self, started_at: u64, now: u64)
        ensures
            final(self)@ == old(self)@.observe_handler(started_at, now),
    {
        let millis: u64 = now.saturating_sub(started_at) / 1_000_000;
        self.metrics.observe_handler(millis);
    }

    /// Completes a command that failed.
    fn finish_failed(&mut self, execution: Execution, error: CoreError, now: u64) -> (result: Result<
        Step,
        CoreError,
    >)
        ensures
            final(self)@ == old(self)@.finish(execution@, Outcome::Failed(error@), now).runtime,
            step_view(result) == old(self)@.finish(execution@, Outcome::Failed(error@), now).result,
    {
        proof {
            reveal(RuntimeView::finish);
        }
        self.observe_handler(execution.started_at, now);
        self.fail("command", error)
    }

    /// Completes a command whose actions have all succeeded.
    fn finish_completed(&mut self, execution: Execution, now: u64) -> (result: Result<Step, CoreError>)
        ensures
            final(self)@ == old(self)@.finish(execution@, execution@.outcome(), now).runtime,
            step_view(result) == old(self)@.finish(execution@, execution@.outcome(), now).result,
    {
        proof {
            reveal(RuntimeView::finish);
        }
        let result = if execution.command.actions.len() == 1 {
            match execution.last_result {
                Some(result) => result,
                None => {
                    self.observe_handler(execution.started_at, now);
                    return self.fail(
                        "command",
                        CoreError::Command("command has no actions".to_owned()),
                    );
                },
            }
        } else {
            let mut message = "completed ".to_owned();
            push_decimal(&mut message, execution.command.actions.len() as u64);
            message.append(" actions");
            CommandResult { message }
        };
        self.observe_handler(execution.started_at, now);
        self.metrics.command_completed();
        self.publish_event(
            AssistantEvent::CommandFinished { command_id: execution.command.id, result },
        );
        match self.transition(AssistantState::Cooldown) {
            Ok(_) => Ok(Step::Done),
            Err(error) => Err(error),
        }
    }

    /// Goes on with a command.
    fn next_step(&mut self, execution: Execution, now: u64) -> (result: Result<Step, CoreError>)
        ensures
            final(self)@ == old(self)@.next_step(execution@, now).runtime,
            step_view(result) == old(self)@.next_step(execution@, now).result,
    {
        proof {
            reveal(RuntimeView::next_step);
        }
        if execution.next >= execution.command.actions.len() {
            return self.finish_completed(execution, now);
        }
        let ghost index = execution.next as int;
        assert(execution@.command.actions[index] == execution.command.actions@[index]@);
        let delay_ms: u64 = execution.command.actions[execution.next].delay_ms;
        if delay_ms > 0 && !execution.waited {
            let mut execution = execution;
            execution.waited = true;
            return Ok(Step::Wait { delay_ms, execution });
        }
        let handler = execution.command.actions[execution.next].handler.clone();
        match self.check_handler(&handler, now) {
            Err(error) => self.finish_failed(execution, error, now),
            Ok(_) => {
                let parameters = execution.command.actions[execution.next].parameters.duplicate();
                let mut execution = execution;
                execution.current_handler = Some(handler.clone());
                Ok(Step::Call { handler, parameters, execution })
            },
        }
    }

    /// Takes what happened to a command in progress and says what follows.
    pub fn resume_execution(&mut self, execution: Execution, event: ExecutionEvent, now: u64) -> (result:
        Result<Step, CoreError>)
        ensures
            final(self)@ == old(self)@.resume_execution(execution@, event@, now).runtime,
            step_view(result) == old(self)@.resume_execution(execution@, event@, now).result,
    {
        match event {
            ExecutionEvent::Waited => self.next_step(execution, now),
            ExecutionEvent::Completed(done) => {
                if execution.next >= execution.command.actions.len() {
                    return self.finish_completed(execution, now);
                }
                let ghost index = execution.next as int;
                assert(execution@.command.actions[index] == execution.command.actions@[index]@);
                let mut execution = execution;
                self.record_handler_success(&execution.command.actions[execution.next].handler);
                execution.next = execution.next + 1;
                execution.waited = false;
                execution.last_result = Some(done);
                self.next_step(execution, now)
            },
            ExecutionEvent::Failed(error) => {
                if execution.next < execution.command.actions.len() {
                    let ghost index = execution.next as int;
                    assert(execution@.command.actions[index]
                        == execution.command.actions@[index]@);
                    self.record_handler_failure(
                        &execution.command.actions[execution.next].handler,
                        now,
                    );
                }
                self.finish_failed(execution, error, now)
            },
            ExecutionEvent::TimedOut => {
                match &execution.current_handler {
                    Some(handler) => {
                        self.record_handler_failure(handler, now);
                    },
                    None => {},
                }
                self.finish_failed(
                    execution,
                    CoreError::Command("command timed out".to_owned()),
                    now,
                )
            },
        }
    }

    /// Starts the actions of a command.
    fn execute(&mut self, command: PendingCommand, now: u64) -> (result: Result<Step, CoreError>)
        ensures
            final(self)@ == old(self)@.execute(command@, now).runtime,
            step_view(result) == old(self)@.execute(command@, now).result,
    {
        proof {
            reveal(RuntimeView::execute);
        }
        match self.transition(AssistantState::ExecutingCommand) {
            Err(error) => {
                return Err(error);
            },
            Ok(_) => {},
        }
        self.publish_event(AssistantEvent::CommandStarted { command_id: command.id.clone() });
        let execution = Execution {
            command,
            next: 0,
            waited: false,
            current_handler: None,
            last_result: None,
            started_at: now,
        };
        self.next_step(execution, now)
    }

    /// Matches a text against the commands.
    fn select(&self, text: &str, allow_wake_word: bool) -> (selected: Option<Selected>)
        ensures
            match (selected, if allow_wake_word {
                self@.registry.selects_after(text@, self@.wake_words)
            } else {
                self@.registry.selects(text@)
            }) {
                (Some(selected), Some((k, slots))) => {
                    let command = self@.registry.commands[k];
                    &&& selected.id@ == command.id
                    &&& views(selected.actions@) == filled_actions(command, slots)
                    &&& selected.timeout_ms == command.timeout_ms
                    &&& selected.confirm == self@.requires_confirmation(command)
                },
                (None, None) => true,
                _ => false,
            },
    {
        let found = if allow_wake_word {
            self.registry.match_after_wake_words(text, &self.wake_words)
        } else {
            self.registry.match_text(text)
        };
        match found {
            None => None,
            Some(matched) => {
                let command = matched.command;
                Some(
                    Selected {
                        id: command.id.clone(),
                        actions: fill_actions(command, &matched.slots),
                        timeout_ms: command.timeout_ms,
                        confirm: self.policy.confirmations_enabled && (
                        command.requires_confirmation || matches!(command.risk, RiskLevel::High)),
                    },
                )
            },
        }
    }

    /// Matches a text and runs the selected command or asks for its confirmation.
    fn match_text(&mut self, text: String, allow_wake_word: bool, now: u64) -> (result: Result<
        Step,
        CoreError,
    >)
        ensures
            final(self)@ == old(self)@.match_text(text@, allow_wake_word, now).runtime,
            step_view(result) == old(self)@.match_text(text@, allow_wake_word, now).result,
    {
        proof {
            reveal(RuntimeView::match_text);
        }
        match self.select(&text, allow_wake_word) {
            None => {
                self.publish_event(AssistantEvent::CommandNotMatched { text });
                match self.transition(AssistantState::Cooldown) {
                    Ok(_) => Ok(Step::Done),
                    Err(error) => Err(error),
                }
            },
            Some(selected) => {
                let wait: u128 = self.policy.confirmation_timeout_ms as u128 * NANOS_PER_MILLI;
                let mut pending = PendingCommand {
                    id: selected.id.clone(),
                    actions: selected.actions,
                    timeout_ms: selected.timeout_ms,
                    expires_at: now as u128 + wait,
                    confirmation_id: None,
                };
                self.publish_event(
                    AssistantEvent::CommandMatched { command_id: selected.id.clone() },
                );
                if selected.confirm {
                    self.confirmation_sequence = self.confirmation_sequence.wrapping_add(1);
                    let mut token = selected.id.clone();
                    token.append("-");
                    push_hexadecimal(&mut token, self.confirmation_sequence, 16);
                    pending.confirmation_id = Some(token.clone());
                    self.pending = Some(pending);
                    self.publish_event(
                        AssistantEvent::ConfirmationRequired {
                            command_id: selected.id,
                            confirmation_id: token,
                        },
                    );
                    return match self.transition(AssistantState::AwaitingConfirmation) {
                        Ok(_) => Ok(Step::Done),
                        Err(error) => Err(error),
                    };
                }
                self.execute(pending, now)
            },
        }
    }

    /// Runs the pending invocation if the confirmation is in time.
    fn confirm_pending(&mut self, now: u64) -> (result: Result<Step, CoreError>)
        ensures
            final(self)@ == old(self)@.confirm_pending(now).runtime,
            step_view(result) == old(self)@.confirm_pending(now).result,
    {
        proof {
            reveal(RuntimeView::confirm_pending);
        }
        let expired = match &self.pending {
            None => {
                return Err(
                    CoreError::Confirmation("no command is awaiting confirmation".to_owned()),
                );
            },
            Some(pending) => now as u128 >= pending.expires_at,
        };
        if expired {
            return match self.cancel_pending(ConfirmationCancelReason::Expired) {
                Ok(_) => Err(CoreError::Confirmation("confirmation expired".to_owned())),
                Err(error) => Err(error),
            };
        }
        match self.pending.take() {
            Some(pending) => self.execute(pending, now),
            None => Err(
                CoreError::Confirmation("no command is awaiting confirmation".to_owned()),
            ),
        }
    }

    /// Tells whether a normal form is that of one of several phrases.
    fn is_phrase(&self, form: &str, phrases: &Vec<String>) -> (answer: bool)
        ensures
            answer == is_one_of(form@, views(phrases@), self@.registry.normalize_yo),
    {
        let mut i: usize = 0;
        while i < phrases.len()
            invariant
                0 <= i <= phrases@.len(),
                forall|j: int|
                    0 <= j < i ==> #[trigger] normalized(
                        views(phrases@)[j],
                        self@.registry.normalize_yo,
                    ) != form@,
            decreases phrases@.len() - i,
        {
            assert(views(phrases@)[i as int] == phrases@[i as int]@);
            if same_text(&self.registry.normalized(&phrases[i]), form) {
                return true;
            }
            i = i + 1;
        }
        false
    }

    /// Takes a text as the answer to a pending confirmation.
    fn process_confirmation_text(&mut self, text: &str, now: u64) -> (result: Result<Step, CoreError>)
        ensures
            final(self)@ == old(self)@.answer(text@, now).runtime,
            step_view(result) == old(self)@.answer(text@, now).result,
    {
        proof {
            reveal(RuntimeView::answer);
        }
        let form = self.registry.normalized(text);
        let accepted = self.is_phrase(&form, &self.policy.confirmation_accept_phrases);
        let cancelled = self.is_phrase(&form, &self.policy.confirmation_cancel_phrases);
        if !matches!(self.state, AssistantState::AwaitingConfirmation) {
            match self.transition(AssistantState::AwaitingConfirmation) {
                Err(error) => {
                    return Err(error);
                },
                Ok(_) => {},
            }
        }
        if accepted {
            return self.confirm_pending(now);
        }
        if cancelled {
            return match self.cancel_pending(ConfirmationCancelReason::User) {
                Ok(_) => Ok(Step::Done),
                Err(error) => Err(error),
            };
        }
        self.publish_event(AssistantEvent::ConfirmationUnrecognized { text: form });
        Ok(Step::Done)
    }

    /// Matches application-supplied text through the normal command policy.
    pub fn process_text(&mut self, text: String, now: u64) -> (result: Result<Step, CoreError>)
        ensures
            final(self)@ == old(self)@.process_text(text@, now).runtime,
            step_view(result) == old(self)@.process_text(text@, now).result,
    {
        if blank(&text) || text.as_str().as_bytes().len() > MAX_SUBMITTED_TEXT_BYTES {
            return Err(
                CoreError::Command("submitted text must contain 1..=4096 UTF-8 bytes".to_owned()),
            );
        }
        if matches!(self.state, AssistantState::AwaitingConfirmation)
            && self.policy.voice_confirmations_enabled {
            return self.process_confirmation_text(&text, now);
        }
        match self.transition(AssistantState::MatchingCommand) {
            Err(error) => Err(error),
            Ok(_) => self.match_text(text, false, now),
        }
    }

    /// Tells whether a token is the pending one.
    fn is_pending(&self, token: &str) -> (answer: bool)
        ensures
            answer == self@.awaits(token@),
    {
        match &self.pending {
            Some(pending) => match &pending.confirmation_id {
                Some(id) => same_text(id, token),
                None => false,
            },
            None => false,
        }
    }

    /// Executes the matching pending command before its deadline.
    pub fn confirm_command(&mut self, confirmation_id: &str, now: u64) -> (result: Result<Step, CoreError>)
        ensures
            final(self)@ == old(self)@.confirm(confirmation_id@, now).runtime,
            step_view(result) == old(self)@.confirm(confirmation_id@, now).result,
    {
        if self.pending.is_none() {
            return Err(
                CoreError::Confirmation("no command is awaiting confirmation".to_owned()),
            );
        }
        if !self.is_pending(confirmation_id) {
            return Err(
                CoreError::Confirmation("confirmation command id does not match".to_owned()),
            );
        }
        self.confirm_pending(now)
    }

    /// Cancels the matching pending command.
    pub fn cancel_command(&mut self, confirmation_id: &str) -> (result: Result<(), CoreError>)
        ensures
            final(self)@ == old(self)@.cancel(confirmation_id@).runtime,
            result_view(result) == old(self)@.cancel(confirmation_id@).result,
    {
        if !self.is_pending(confirmation_id) {
            return Err(
                CoreError::Confirmation("confirmation command id does not match".to_owned()),
            );
        }
        self.cancel_pending(ConfirmationCancelReason::User)
    }

    /// Returns the current one-time confirmation token.
    pub fn pending_confirmation_id(&self) -> (token: Option<&str>)
        ensures
            match (token, self@.pending) {
                (Some(token), Some(pending)) => pending.confirmation_id == Some(token@),
                (None, Some(pending)) => pending.confirmation_id is None,
                (None, None) => true,
                (Some(_), None) => false,
            },
    {
        match &self.pending {
            Some(pending) => match &pending.confirmation_id {
                Some(token) => Some(token.as_str()),
                None => None,
            },
            None => None,
        }
    }
}

/// The error for speech operations without a session.
pub open spec fn no_session() -> ErrorView {
    ErrorView::Busy("no speech session is active"@)
}

/// What is said about a recognizer that took too long.
pub open spec fn timeout_message(recovery: RecognizerRecovery) -> Seq<char> {
    match recovery {
        RecognizerRecovery::Restarted => "STT timed out; worker restarted"@,
        RecognizerRecovery::Unchanged => "STT timed out"@,
        RecognizerRecovery::Exhausted => "STT timed out; worker restart budget exhausted"@,
    }
}

impl RuntimeView {
    /// Whether a partial transcript is worth publishing.
    pub open spec fn publishes(self, partial: Option<Transcript>) -> bool {
        partial matches Some(partial) && !is_blank(partial.text@) && partial.text@ != self.last_partial
    }

    /// Takes what became of one streamed frame.
    pub open spec fn push_stream(self, push: StreamPush) -> After<()> {
        if !self.streaming_stt {
            after(self, Ok(()))
        } else {
            match push {
                StreamPush::Accepted(partial) => if self.publishes(partial) {
                    after(
                        (RuntimeView { last_partial: partial->0.text@, ..self }).emit(
                            EventView::TranscriptPartial {
                                session_id: match self.active_session_id {
                                    Some(session_id) => session_id,
                                    None => 0,
                                },
                                text: partial->0.text@,
                                confidence: partial->0.confidence,
                            },
                        ),
                        Ok(()),
                    )
                } else {
                    after(self, Ok(()))
                },
                StreamPush::Failed(error) => after(
                    RuntimeView { streaming_stt: false, ..self },
                    Err(error@),
                ),
                StreamPush::TimedOut => after(
                    RuntimeView { streaming_stt: false, ..self },
                    Err(ErrorView::Recognition("STT stream timed out"@)),
                ),
            }
        }
    }

    /// Ends the speech session and turns to transcription.
    #[verifier::opaque]
    pub open spec fn begin_transcription(self) -> After<Transcription> {
        match self.active_session_id {
            None => After { runtime: self, result: Err(no_session()) },
            Some(session_id) => {
                let entered = self.close_session().enter(AssistantState::Transcribing);
                match entered.result {
                    Err(error) => After { runtime: entered.runtime, result: Err(error) },
                    Ok(_) => After {
                        runtime: RuntimeView { streaming_stt: false, ..entered.runtime },
                        result: Ok(
                            Transcription { session_id, finish_stream: self.streaming_stt },
                        ),
                    },
                }
            },
        }
    }

    /// Reports that no text was recognized.
    #[verifier::opaque]
    pub open spec fn report_silence(self, command_authorized: bool) -> After<StepView> {
        let reported = self.emit(
            EventView::TranscriptUnavailable { reason: TranscriptUnavailableReason::Silence },
        );
        if self.confirming_by_voice {
            (RuntimeView { confirming_by_voice: false, ..reported }).enter(
                AssistantState::AwaitingConfirmation,
            ).done()
        } else if !command_authorized {
            reported.enter(AssistantState::IdleListening).done()
        } else {
            reported.enter(AssistantState::MatchingCommand).and_enter(
                AssistantState::Cooldown,
            ).done()
        }
    }

    /// Takes a recognized text: an answer, a command, or speech that only gets transcribed. Only
    /// authorized speech answers a confirmation; other speech leaves it pending.
    #[verifier::opaque]
    pub open spec fn take_transcript(
        self,
        session_id: u64,
        command_authorized: bool,
        text: Seq<char>,
        confidence: Option<crate::float32::Real32>,
        now: u64,
    ) -> After<StepView> {
        let published = self.emit(EventView::TranscriptFinal { session_id, text, confidence });
        if self.confirming_by_voice {
            let heard = RuntimeView { confirming_by_voice: false, ..published };
            if command_authorized {
                heard.answer(text, now)
            } else {
                heard.enter(AssistantState::AwaitingConfirmation).done()
            }
        } else if !command_authorized {
            published.enter(AssistantState::IdleListening).done()
        } else {
            let matching = published.enter(AssistantState::MatchingCommand);
            match matching.result {
                Err(error) => after_step(matching.runtime, Err(error)),
                Ok(_) => matching.runtime.match_text(text, true, now),
            }
        }
    }

    /// The runtime with the latency of a transcription observed.
    pub open spec fn observe_stt(self, millis: u64) -> RuntimeView {
        RuntimeView {
            metrics: CoreMetrics {
                stt_last_ms: millis,
                stt_max_ms: larger(self.metrics.stt_max_ms, millis),
                ..self.metrics
            },
            ..self
        }
    }

    /// Takes what became of a transcription.
    pub open spec fn finish_speech(
        self,
        session_id: u64,
        command_authorized: bool,
        outcome: TranscriptionOutcomeView,
        elapsed_ms: u64,
        now: u64,
    ) -> After<StepView> {
        let observed = self.observe_stt(elapsed_ms);
        match outcome {
            TranscriptionOutcomeView::Failed(error) => {
                let reported = if error is Unavailable {
                    observed.emit(
                        EventView::TranscriptUnavailable {
                            reason: TranscriptUnavailableReason::ModelUnavailable,
                        },
                    )
                } else {
                    observed
                };
                reported.fail("stt"@, error)
            },
            TranscriptionOutcomeView::TimedOut(recovery) => observed.fail(
                "stt"@,
                ErrorView::Recognition(timeout_message(recovery)),
            ),
            TranscriptionOutcomeView::Transcribed(text, confidence) => {
                let heard = RuntimeView { last_partial: Seq::empty(), ..observed };
                if is_blank(text) {
                    heard.report_silence(command_authorized)
                } else {
                    heard.take_transcript(session_id, command_authorized, text, confidence, now)
                }
            },
        }
    }

    /// Cancels a confirmation whose time is over.
    pub open spec fn expire(self, now: u64) -> After<bool> {
        let expired = self.pending matches Some(pending) && self.expired(pending, now);
        if expired {
            let cancelled = self.cancel_pending(ConfirmationCancelReason::Expired);
            After {
                runtime: cancelled.runtime,
                result: match cancelled.result {
                    Ok(_) => Ok(true),
                    Err(error) => Err(error),
                },
            }
        } else {
            After { runtime: self, result: Ok(false) }
        }
    }

    /// Ends a cooldown.
    pub open spec fn complete_cooldown(self) -> After<()> {
        if self.state is Cooldown {
            self.enter(AssistantState::IdleListening)
        } else {
            after(self, Ok(()))
        }
    }

    /// The runtime with supplied components in place of the active ones; new commands or a new
    /// policy forget the protection state of the handlers.
    pub open spec fn with_update(self, update: RuntimeUpdate) -> RuntimeView {
        RuntimeView {
            registry: match update.commands {
                Some(registry) => registry@,
                None => self.registry,
            },
            wake_words: match update.wake_words {
                Some(wake_words) => views(wake_words@),
                None => self.wake_words,
            },
            policy: match update.policy {
                Some(policy) => policy@,
                None => self.policy,
            },
            stt_timeout_ms: match update.stt_timeout_ms {
                Some(millis) => millis,
                None => self.stt_timeout_ms,
            },
            cooldown_ms: match update.cooldown_ms {
                Some(millis) => millis,
                None => self.cooldown_ms,
            },
            handler_guards: if update.commands is Some || update.policy is Some {
                Seq::empty()
            } else {
                self.handler_guards
            },
            ..self
        }
    }

    /// Leaves a pending confirmation for a reload.
    #[verifier::opaque]
    pub open spec fn settle(self) -> After<()> {
        if self.state is AwaitingConfirmation {
            let cancelled = self.cancel_pending(ConfirmationCancelReason::Reconfigured);
            match cancelled.result {
                Err(_) => cancelled,
                Ok(_) => cancelled.runtime.complete_cooldown(),
            }
        } else {
            after(self, Ok(()))
        }
    }

    /// Replaces components between commands.
    pub open spec fn reconfigure(self, update: RuntimeUpdate) -> After<()> {
        let settled = self.settle();
        match settled.result {
            Err(_) => settled,
            Ok(_) => if settled.runtime.state is Starting || settled.runtime.state is IdleListening
                || settled.runtime.state is Suspended {
                after(settled.runtime.with_update(update), Ok(()))
            } else {
                after(settled.runtime, Err(ErrorView::Busy("configuration reload"@)))
            },
        }
    }
}

impl Runtime {
    /// Tells whether incremental transcription takes audio.
    pub fn is_streaming(&self) -> (streaming: bool)
        ensures
            streaming == self@.streaming_stt,
    {
        self.streaming_stt
    }

    /// Prepares incremental STT as soon as command capture begins.
    pub fn begin_transcription_stream(&mut self) -> (result: Result<(), CoreError>)
        ensures
            old(self)@.active_session_id is None ==> final(self)@ == old(self)@ && result_view(result)
                == Err::<(), ErrorView>(no_session()),
            old(self)@.active_session_id is Some ==> result is Ok && final(self)@ == (RuntimeView {
                last_partial: Seq::empty(),
                ..old(self)@
            }),
    {
        if self.active_session_id.is_none() {
            return Err(CoreError::Busy("no speech session is active".to_owned()));
        }
        self.last_partial = String::new();
        Ok(())
    }

    /// Takes what became of starting incremental STT.
    pub fn finish_stream_start(&mut self, start: StreamStart) -> (result: Result<(), CoreError>)
        ensures
            match start {
                StreamStart::Started(streaming) => result is Ok && final(self)@ == (RuntimeView {
                    streaming_stt: streaming,
                    ..old(self)@
                }),
                StreamStart::Failed(error) => final(self)@ == old(self)@ && result_view(result)
                    == Err::<(), ErrorView>(error@),
                StreamStart::TimedOut => final(self)@ == old(self)@ && result_view(result) == Err::<
                    (),
                    ErrorView,
                >(ErrorView::Recognition("STT stream startup timed out"@)),
            },
    {
        match start {
            StreamStart::Started(streaming) => {
                self.streaming_stt = streaming;
                Ok(())
            },
            StreamStart::Failed(error) => Err(error),
            StreamStart::TimedOut => Err(
                CoreError::Recognition("STT stream startup timed out".to_owned()),
            ),
        }
    }

    /// Takes what became of one command-audio frame in an active incremental STT session.
    pub fn push_transcription_stream(&mut self, push: StreamPush) -> (result: Result<(), CoreError>)
        ensures
            final(self)@ == old(self)@.push_stream(push).runtime,
            result_view(result) == old(self)@.push_stream(push).result,
    {
        if !self.streaming_stt {
            return Ok(());
        }
        match push {
            StreamPush::Accepted(partial) => {
                match partial {
                    Some(partial) => {
                        if !blank(&partial.text) && !same_text(&partial.text, &self.last_partial) {
                            self.last_partial = partial.text.clone();
                            let session_id: u64 = match self.active_session_id {
                                Some(session_id) => session_id,
                                None => 0,
                            };
                            self.publish_event(
                                AssistantEvent::TranscriptPartial {
                                    session_id,
                                    text: partial.text,
                                    confidence: partial.confidence,
                                },
                            );
                        }
                    },
                    None => {},
                }
                Ok(())
            },
            StreamPush::Failed(error) => {
                self.streaming_stt = false;
                Err(error)
            },
            StreamPush::TimedOut => {
                self.streaming_stt = false;
                Err(CoreError::Recognition("STT stream timed out".to_owned()))
            },
        }
    }

    /// Ends the captured speech session and asks for its transcription.
    pub fn process_captured_speech(&mut self) -> (result: Result<Transcription, CoreError>)
        ensures
            final(self)@ == old(self)@.begin_transcription().runtime,
            match (result, old(self)@.begin_transcription().result) {
                (Ok(transcription), Ok(expected)) => transcription == expected,
                (Err(error), Err(expected)) => error@ == expected,
                _ => false,
            },
    {
        proof {
            reveal(RuntimeView::begin_transcription);
        }
        let session_id: u64 = match self.active_session_id {
            Some(session_id) => session_id,
            None => {
                return Err(CoreError::Busy("no speech session is active".to_owned()));
            },
        };
        self.end_speech_session();
        match self.transition(AssistantState::Transcribing) {
            Err(error) => {
                return Err(error);
            },
            Ok(_) => {},
        }
        let finish_stream: bool = self.streaming_stt;
        self.streaming_stt = false;
        Ok(Transcription { session_id, finish_stream })
    }

    /// Asks for the transcription of captured command audio.
    pub fn process_captured_audio(&mut self) -> (result: Result<Transcription, CoreError>)
        ensures
            final(self)@ == old(self)@.begin_transcription().runtime,
            match (result, old(self)@.begin_transcription().result) {
                (Ok(transcription), Ok(expected)) => transcription == expected,
                (Err(error), Err(expected)) => error@ == expected,
                _ => false,
            },
    {
        self.process_captured_speech()
    }

    /// Publishes the capture phase of command audio that is complete already and asks for its
    /// transcription.
    pub fn process_command_audio(&mut self) -> (result: Result<Transcription, CoreError>)
        ensures
            ({
                let started = old(self)@.start_speech(true);
                let expected = match started.result {
                    Err(error) => After { runtime: started.runtime, result: Err(error) },
                    Ok(_) => started.runtime.begin_transcription(),
                };
                &&& final(self)@ == expected.runtime
                &&& match (result, expected.result) {
                    (Ok(transcription), Ok(expected)) => transcription == expected,
                    (Err(error), Err(expected)) => error@ == expected,
                    _ => false,
                }
            }),
    {
        match self.start_command_capture() {
            Err(error) => Err(error),
            Ok(_) => self.process_captured_speech(),
        }
    }

    /// Reports that no text was recognized.
    fn report_silence(&mut self, command_authorized: bool) -> (result: Result<Step, CoreError>)
        ensures
            final(self)@ == old(self)@.report_silence(command_authorized).runtime,
            step_view(result) == old(self)@.report_silence(command_authorized).result,
    {
        proof {
            reveal(RuntimeView::report_silence);
        }
        self.publish_event(
            AssistantEvent::TranscriptUnavailable { reason: TranscriptUnavailableReason::Silence },
        );
        let entered = if self.confirming_by_voice {
            self.confirming_by_voice = false;
            self.transition(AssistantState::AwaitingConfirmation)
        } else if !command_authorized {
            self.transition(AssistantState::IdleListening)
        } else {
            match self.transition(AssistantState::MatchingCommand) {
                Ok(_) => self.transition(AssistantState::Cooldown),
                Err(error) => Err(error),
            }
        };
        match entered {
            Ok(_) => Ok(Step::Done),
            Err(error) => Err(error),
        }
    }

    /// Finalizes STT and only matches commands for wake-word-authorized speech.
    pub fn finish_captured_speech(
        &mut self,
        session_id: u64,
        command_authorized: bool,
        outcome: TranscriptionOutcome,
        elapsed_ms: u64,
        now: u64,
    ) -> (result: Result<Step, CoreError>)
        ensures
            final(self)@ == old(self)@.finish_speech(
                session_id,
                command_authorized,
                outcome@,
                elapsed_ms,
                now,
            ).runtime,
            step_view(result) == old(self)@.finish_speech(
                session_id,
                command_authorized,
                outcome@,
                elapsed_ms,
                now,
            ).result,
    {
        proof {
            reveal(RuntimeView::take_transcript);
        }
        self.metrics.observe_stt(elapsed_ms);
        let transcript = match outcome {
            TranscriptionOutcome::Transcribed(transcript) => transcript,
            TranscriptionOutcome::Failed(error) => {
                if matches!(error, CoreError::Unavailable(_)) {
                    self.publish_event(
                        AssistantEvent::TranscriptUnavailable {
                            reason: TranscriptUnavailableReason::ModelUnavailable,
                        },
                    );
                }
                return self.fail("stt", error);
            },
            TranscriptionOutcome::TimedOut(recovery) => {
                let message = match recovery {
                    RecognizerRecovery::Restarted => "STT timed out; worker restarted",
                    RecognizerRecovery::Unchanged => "STT timed out",
                    RecognizerRecovery::Exhausted => "STT timed out; worker restart budget exhausted",
                };
                return self.fail("stt", CoreError::Recognition(message.to_owned()));
            },
        };
        self.last_partial = String::new();
        if blank(&transcript.text) {
            return self.report_silence(command_authorized);
        }
        self.publish_event(
            AssistantEvent::TranscriptFinal {
                session_id,
                text: transcript.text.clone(),
                confidence: transcript.confidence,
            },
        );
        if self.confirming_by_voice {
            self.confirming_by_voice = false;
            if command_authorized {
                return self.process_confirmation_text(&transcript.text, now);
            }
            return match self.transition(AssistantState::AwaitingConfirmation) {
                Ok(_) => Ok(Step::Done),
                Err(error) => Err(error),
            };
        }
        if !command_authorized {
            return match self.transition(AssistantState::IdleListening) {
                Ok(_) => Ok(Step::Done),
                Err(error) => Err(error),
            };
        }
        match self.transition(AssistantState::MatchingCommand) {
            Err(error) => Err(error),
            Ok(_) => self.match_text(transcript.text, true, now),
        }
    }

    /// Cancels an expired confirmation, returning whether one expired.
    pub fn expire_confirmation(&mut self, now: u64) -> (result: Result<bool, CoreError>)
        ensures
            final(self)@ == old(self)@.expire(now).runtime,
            match (result, old(self)@.expire(now).result) {
                (Ok(expired), Ok(expected)) => expired == expected,
                (Err(error), Err(expected)) => error@ == expected,
                _ => false,
            },
    {
        let expired = match &self.pending {
            Some(pending) => now as u128 >= pending.expires_at,
            None => false,
        };
        if expired {
            match self.cancel_pending(ConfirmationCancelReason::Expired) {
                Err(error) => {
                    return Err(error);
                },
                Ok(_) => {},
            }
        }
        Ok(expired)
    }

    /// Completes the configured cooldown and resumes listening.
    pub fn complete_cooldown(&mut self) -> (result: Result<(), CoreError>)
        ensures
            final(self)@ == old(self)@.complete_cooldown().runtime,
            result_view(result) == old(self)@.complete_cooldown().result,
    {
        if !matches!(self.state, AssistantState::Cooldown) {
            return Ok(());
        }
        self.transition(AssistantState::IdleListening)
    }

    /// Replaces the complete component set after validated config reload.
    pub fn reconfigure(
        &mut self,
        registry: CommandRegistry,
        wake_words: Vec<String>,
        policy: PolicyConfig,
        stt_timeout_ms: u64,
        cooldown_ms: u64,
    ) -> (result: Result<(), CoreError>)
        ensures
            ({
                let update = RuntimeUpdate {
                    commands: Some(registry),
                    wake_words: Some(wake_words),
                    policy: Some(policy),
                    stt_timeout_ms: Some(stt_timeout_ms),
                    cooldown_ms: Some(cooldown_ms),
                };
                &&& final(self)@ == old(self)@.reconfigure(update).runtime
                &&& result_view(result) == old(self)@.reconfigure(update).result
            }),
    {
        self.reconfigure_partial(
            RuntimeUpdate {
                commands: Some(registry),
                wake_words: Some(wake_words),
                policy: Some(policy),
                stt_timeout_ms: Some(stt_timeout_ms),
                cooldown_ms: Some(cooldown_ms),
            },
        )
    }

    /// Replaces only supplied components and policy after validated config reload.
    pub fn reconfigure_partial(&mut self, update: RuntimeUpdate) -> (result: Result<(), CoreError>)
        ensures
            final(self)@ == old(self)@.reconfigure(update).runtime,
            result_view(result) == old(self)@.reconfigure(update).result,
    {
        proof {
            reveal(RuntimeView::settle);
        }
        if matches!(self.state, AssistantState::AwaitingConfirmation) {
            let cancelled = self.cancel_pending(ConfirmationCancelReason::Reconfigured);
            if cancelled.is_err() {
                return cancelled;
            }
            let completed = self.complete_cooldown();
            if completed.is_err() {
                return completed;
            }
        }
        if !matches!(
            self.state,
            AssistantState::Starting | AssistantState::IdleListening | AssistantState::Suspended
        ) {
            return Err(CoreError::Busy("configuration reload".to_owned()));
        }
        match update.commands {
            Some(registry) => {
                self.registry = registry;
                self.handler_guards = TextMap::new();
            },
            None => {},
        }
        match update.wake_words {
            Some(wake_words) => {
                self.wake_words = wake_words;
            },
            None => {},
        }
        match update.policy {
            Some(policy) => {
                self.policy = policy;
                self.handler_guards = TextMap::new();
            },
            None => {},
        }
        match update.stt_timeout_ms {
            Some(millis) => {
                self.stt_timeout_ms = millis;
            },
            None => {},
        }
        match update.cooldown_ms {
            Some(millis) => {
                self.cooldown_ms = millis;
            },
            None => {},
        }
        Ok(())
    }
}

} // verus!
