//! The task that owns the runtime: one control at a time, and a clock that ends confirmations and
//! cooldowns.

use crate::commands::CommandRegistry;
use crate::config::PolicyConfig;
use crate::domain::{
    may_transition, result_view, AssistantEvent, AssistantState, CoreError, ErrorView, TranscriptionRequest,
};
use crate::runtime::{Runtime, RuntimeUpdate, RuntimeView, Step, StepView, Transcription, no_session, NANOS_PER_MILLI};
use vstd::prelude::*;

verus! {

/// Complete validated adapter set accepted during runtime reload.
pub struct RuntimeComponents {
    /// Exact command matcher.
    pub commands: CommandRegistry,
    /// Prefixes removed before exact command matching.
    pub wake_words: Vec<String>,
    /// Confirmation behavior.
    pub policy: PolicyConfig,
    /// Maximum duration of one recognizer request.
    pub stt_timeout_ms: u64,
    /// Delay before returning from `Cooldown` to listening.
    pub cooldown_ms: u64,
}

impl RuntimeComponents {
    /// The update that replaces every component.
    pub fn into_update(self) -> (update: RuntimeUpdate)
        ensures
            update == (RuntimeUpdate {
                commands: Some(self.commands),
                wake_words: Some(self.wake_words),
                policy: Some(self.policy),
                stt_timeout_ms: Some(self.stt_timeout_ms),
                cooldown_ms: Some(self.cooldown_ms),
            }),
    {
        RuntimeUpdate {
            commands: Some(self.commands),
            wake_words: Some(self.wake_words),
            policy: Some(self.policy),
            stt_timeout_ms: Some(self.stt_timeout_ms),
            cooldown_ms: Some(self.cooldown_ms),
        }
    }
}

/// What the runtime is asked to do.
pub enum Control<S> {
    /// Complete startup.
    Start,
    /// Capture a command after the wake word.
    BeginCapture,
    /// Capture speech without a wake word.
    BeginSpeech,
    /// Capture for an application.
    BeginManualCapture,
    /// Begin incremental STT at a sample rate.
    BeginStream(u32),
    /// Continue incremental STT.
    PushStream(Vec<S>),
    /// Transcribe captured audio.
    Captured {
        /// The audio.
        request: TranscriptionRequest<S>,
        /// Whether a command may follow.
        authorized: bool,
    },
    /// Give a capture up.
    CancelCapture,
    /// Match a text.
    SubmitText(String),
    /// Suspend listening.
    Suspend,
    /// Resume listening.
    Resume,
    /// Confirm the invocation with a token.
    Confirm(String),
    /// Cancel the invocation with a token.
    Cancel(String),
    /// Replace components.
    Reconfigure(RuntimeUpdate),
    /// Recover from the failure of a component.
    Recover {
        /// The component.
        component: String,
        /// What failed.
        message: String,
    },
    /// Publish an event.
    Publish(AssistantEvent),
    /// Shut down.
    Shutdown,
}

/// What follows a control.
pub enum Reaction<S> {
    /// The caller gets an answer.
    Reply(Result<(), CoreError>),
    /// Nobody waits for an answer.
    Silent,
    /// The recognizer begins a stream; its answer goes to `finish_stream_start`.
    BeginStream(u32),
    /// The recognizer continues the stream; its answer goes to `push_transcription_stream`.
    PushStream(Vec<S>),
    /// The recognizer transcribes; its answer goes to `finish_captured_speech`.
    Transcribe {
        /// Which session, and whether a stream is finished.
        transcription: Transcription,
        /// The audio.
        request: TranscriptionRequest<S>,
        /// Whether a command may follow.
        authorized: bool,
    },
    /// A command goes on.
    Run(Step),
    /// The caller gets an answer and the task ends.
    Stop,
}

/// What a [`Reaction`] asks for.
pub enum ReactionView<S> {
    /// The caller gets an answer.
    Reply(Result<(), ErrorView>),
    /// Nobody waits for an answer.
    Silent,
    /// The recognizer begins a stream.
    BeginStream(u32),
    /// The recognizer continues the stream.
    PushStream(Seq<S>),
    /// The recognizer transcribes.
    Transcribe {
        transcription: Transcription,
        samples: Seq<S>,
        sample_rate: u32,
        authorized: bool,
    },
    /// A command goes on.
    Run(StepView),
    /// The task ends.
    Stop,
}

impl<S> View for Reaction<S> {
    type V = ReactionView<S>;

    open spec fn view(&self) -> ReactionView<S> {
        match self {
            Reaction::Reply(result) => ReactionView::Reply(result_view(*result)),
            Reaction::Silent => ReactionView::Silent,
            Reaction::BeginStream(sample_rate) => ReactionView::BeginStream(*sample_rate),
            Reaction::PushStream(samples) => ReactionView::PushStream(samples@),
            Reaction::Transcribe { transcription, request, authorized } =>
                ReactionView::Transcribe {
                    transcription: *transcription,
                    samples: request.samples@,
                    sample_rate: request.sample_rate,
                    authorized: *authorized,
                },
            Reaction::Run(step) => ReactionView::Run(step@),
            Reaction::Stop => ReactionView::Stop,
        }
    }
}

/// What follows an operation with a next step.
pub open spec fn run_or_reply<S>(result: Result<StepView, ErrorView>) -> ReactionView<S> {
    match result {
        Ok(step) => ReactionView::Run(step),
        Err(error) => ReactionView::Reply(Err(error)),
    }
}

/// The runtime after a control, and what follows.
pub open spec fn reaction<S>(runtime: RuntimeView, control: Control<S>, now: u64) -> (
    RuntimeView,
    ReactionView<S>,
) {
    match control {
        Control::Start => {
            let after = runtime.enter(AssistantState::IdleListening);
            (after.runtime, ReactionView::Reply(after.result))
        },
        Control::BeginCapture => {
            let after = runtime.start_speech(true);
            (after.runtime, ReactionView::Reply(after.result))
        },
        Control::BeginSpeech => {
            let after = runtime.start_speech(false);
            (after.runtime, ReactionView::Reply(after.result))
        },
        Control::BeginManualCapture => {
            let after = runtime.start_manual();
            (after.runtime, ReactionView::Reply(after.result))
        },
        Control::BeginStream(sample_rate) => if runtime.active_session_id is None {
            (runtime, ReactionView::Reply(Err(no_session())))
        } else {
            (
                RuntimeView { last_partial: Seq::empty(), ..runtime },
                ReactionView::BeginStream(sample_rate),
            )
        },
        Control::PushStream(samples) => if runtime.streaming_stt {
            (runtime, ReactionView::PushStream(samples@))
        } else {
            (runtime, ReactionView::Reply(Ok(())))
        },
        Control::Captured { request, authorized } => {
            let after = runtime.begin_transcription();
            (
                after.runtime,
                match after.result {
                    Ok(transcription) => ReactionView::Transcribe {
                        transcription,
                        samples: request.samples@,
                        sample_rate: request.sample_rate,
                        authorized,
                    },
                    Err(error) => ReactionView::Reply(Err(error)),
                },
            )
        },
        Control::CancelCapture => {
            let after = runtime.cancel_capture();
            (after.runtime, ReactionView::Reply(after.result))
        },
        Control::SubmitText(text) => {
            let after = runtime.process_text(text@, now);
            (after.runtime, run_or_reply(after.result))
        },
        Control::Suspend => {
            let after = runtime.suspend();
            (after.runtime, ReactionView::Reply(after.result))
        },
        Control::Resume => {
            let after = runtime.resume();
            (after.runtime, ReactionView::Reply(after.result))
        },
        Control::Confirm(token) => {
            let after = runtime.confirm(token@, now);
            (after.runtime, run_or_reply(after.result))
        },
        Control::Cancel(token) => {
            let after = runtime.cancel(token@);
            (after.runtime, ReactionView::Reply(after.result))
        },
        Control::Reconfigure(update) => {
            let after = runtime.reconfigure(update);
            (after.runtime, ReactionView::Reply(after.result))
        },
        Control::Recover { component, message } => (
            runtime.recover(component@, message@),
            ReactionView::Silent,
        ),
        Control::Publish(event) => (runtime.emit(event@), ReactionView::Silent),
        Control::Shutdown => {
            let after = runtime.shutdown();
            (
                after.runtime,
                match after.result {
                    Ok(_) => ReactionView::Stop,
                    Err(error) => ReactionView::Reply(Err(error)),
                },
            )
        },
    }
}

/// The runtime with the clock of its task.
pub struct RuntimeService {
    /// The runtime.
    pub runtime: Runtime,
    /// When the cooldown in progress ends, in nanoseconds.
    pub cooldown_deadline: Option<u128>,
}

/// When a cooldown ends that a tick sees.
pub open spec fn cooldown_end(runtime: RuntimeView, deadline: Option<u128>, now: u64) -> u128 {
    match deadline {
        Some(deadline) => deadline,
        None => (now + runtime.cooldown_ms * NANOS_PER_MILLI) as u128,
    }
}

/// Prepares the task that exclusively owns mutable runtime state, with a queue of controls.
pub fn spawn_runtime_service(runtime: Runtime, capacity: usize) -> (service: Result<
    RuntimeService,
    CoreError,
>)
    ensures
        match service {
            Ok(service) => capacity > 0 && service.runtime == runtime && service.cooldown_deadline
                is None,
            Err(error) => capacity == 0 && error@ == ErrorView::Unavailable(
                "runtime control queue capacity must be greater than zero"@,
            ),
        },
{
    if capacity == 0 {
        return Err(
            CoreError::Unavailable(
                "runtime control queue capacity must be greater than zero".to_owned(),
            ),
        );
    }
    Ok(RuntimeService { runtime, cooldown_deadline: None })
}

/// The failure of a control that the task no longer takes.
pub fn stopped() -> (error: CoreError)
    ensures
        error@ == ErrorView::Unavailable("runtime service stopped"@),
{
    CoreError::Unavailable("runtime service stopped".to_owned())
}

impl RuntimeService {
    /// Takes one control.
    pub fn control<S>(&mut self, control: Control<S>, now: u64) -> (next: Reaction<S>)
        ensures
            (final(self).runtime@, next@) == reaction(old(self).runtime@, control, now),
            final(self).cooldown_deadline == old(self).cooldown_deadline,
    {
        match control {
            Control::Start => Reaction::Reply(self.runtime.start()),
            Control::BeginCapture => Reaction::Reply(self.runtime.start_command_capture()),
            Control::BeginSpeech => Reaction::Reply(self.runtime.start_speech_capture(false)),
            Control::BeginManualCapture => Reaction::Reply(self.runtime.start_manual_capture()),
            Control::BeginStream(sample_rate) => match self.runtime.begin_transcription_stream() {
                Ok(_) => Reaction::BeginStream(sample_rate),
                Err(error) => Reaction::Reply(Err(error)),
            },
            Control::PushStream(samples) => if self.runtime.is_streaming() {
                Reaction::PushStream(samples)
            } else {
                Reaction::Reply(Ok(()))
            },
            Control::Captured { request, authorized } => {
                match self.runtime.process_captured_speech() {
                    Ok(transcription) => Reaction::Transcribe {
                        transcription,
                        request,
                        authorized,
                    },
                    Err(error) => Reaction::Reply(Err(error)),
                }
            },
            Control::CancelCapture => Reaction::Reply(self.runtime.cancel_capture()),
            Control::SubmitText(text) => match self.runtime.process_text(text, now) {
                Ok(step) => Reaction::Run(step),
                Err(error) => Reaction::Reply(Err(error)),
            },
            Control::Suspend => Reaction::Reply(self.runtime.suspend()),
            Control::Resume => Reaction::Reply(self.runtime.resume()),
            Control::Confirm(token) => match self.runtime.confirm_command(&token, now) {
                Ok(step) => Reaction::Run(step),
                Err(error) => Reaction::Reply(Err(error)),
            },
            Control::Cancel(token) => Reaction::Reply(self.runtime.cancel_command(&token)),
            Control::Reconfigure(update) => Reaction::Reply(
                self.runtime.reconfigure_partial(update),
            ),
            Control::Recover { component, message } => {
                self.runtime.report_recoverable(&component, message);
                Reaction::Silent
            },
            Control::Publish(event) => {
                self.runtime.publish_event(event);
                Reaction::Silent
            },
            Control::Shutdown => match self.runtime.shutdown() {
                Ok(_) => Reaction::Stop,
                Err(error) => Reaction::Reply(Err(error)),
            },
        }
    }

    /// Looks at the clock: a confirmation may be too late, and a cooldown over. A cooldown is
    /// measured from the first look at it.
    pub fn tick(&mut self, now: u64)
        ensures
            ({
                let expired = old(self).runtime@.expire(now).runtime;
                let end = cooldown_end(expired, old(self).cooldown_deadline, now);
                if !(expired.state is Cooldown) {
                    final(self).runtime@ == expired && final(self).cooldown_deadline is None
                } else if now >= end {
                    final(self).cooldown_deadline is None && final(self).runtime@
                        == expired.complete_cooldown().runtime
                } else {
                    final(self).runtime@ == expired && final(self).cooldown_deadline == Some(end)
                }
            }),
    {
        let _ = self.runtime.expire_confirmation(now);
        if !matches!(self.runtime.state(), AssistantState::Cooldown) {
            self.cooldown_deadline = None;
            return ;
        }
        let deadline: u128 = match self.cooldown_deadline {
            Some(deadline) => deadline,
            None => now as u128 + self.runtime.cooldown() as u128 * NANOS_PER_MILLI,
        };
        if now as u128 >= deadline {
            let _ = self.runtime.complete_cooldown();
            self.cooldown_deadline = None;
        } else {
            self.cooldown_deadline = Some(deadline);
        }
    }
}

/// The end of a cooldown is listening again, and a cooldown first seen now ends after the
/// configured time.
pub proof fn cooldown_ends_in_listening(runtime: RuntimeView, deadline: Option<u128>, now: u64)
    requires
        runtime.state is Cooldown,
    ensures
        runtime.complete_cooldown().runtime.state is IdleListening,
        runtime.complete_cooldown().result is Ok,
        deadline is None ==> cooldown_end(runtime, deadline, now) == now + runtime.cooldown_ms
            * NANOS_PER_MILLI,
{
    assert(may_transition(AssistantState::Cooldown, AssistantState::IdleListening));
    reveal(RuntimeView::enter);
}

/// Each control reaches the operation of the runtime that it is named after, with what it carries, and
/// the caller is told the outcome. Only the wake word and applications open captures for commands.
pub proof fn controls_reach_the_runtime<S>(
    runtime: RuntimeView,
    text: String,
    samples: Vec<S>,
    rate: u32,
    now: u64,
)
    ensures
        ({
            let started = reaction(runtime, Control::<S>::Start, now);
            let capture = reaction(runtime, Control::<S>::BeginCapture, now);
            let speech = reaction(runtime, Control::<S>::BeginSpeech, now);
            let manual = reaction(runtime, Control::<S>::BeginManualCapture, now);
            let given_up = reaction(runtime, Control::<S>::CancelCapture, now);
            let suspended = reaction(runtime, Control::<S>::Suspend, now);
            let resumed = reaction(runtime, Control::<S>::Resume, now);
            let cancelled = reaction(runtime, Control::<S>::Cancel(text), now);
            &&& started == (
                runtime.enter(AssistantState::IdleListening).runtime,
                ReactionView::<S>::Reply(runtime.enter(AssistantState::IdleListening).result),
            )
            &&& capture == (
                runtime.start_speech(true).runtime,
                ReactionView::<S>::Reply(runtime.start_speech(true).result),
            )
            &&& speech == (
                runtime.start_speech(false).runtime,
                ReactionView::<S>::Reply(runtime.start_speech(false).result),
            )
            &&& manual == (
                runtime.start_manual().runtime,
                ReactionView::<S>::Reply(runtime.start_manual().result),
            )
            &&& given_up == (
                runtime.cancel_capture().runtime,
                ReactionView::<S>::Reply(runtime.cancel_capture().result),
            )
            &&& suspended == (
                runtime.suspend().runtime,
                ReactionView::<S>::Reply(runtime.suspend().result),
            )
            &&& resumed == (
                runtime.resume().runtime,
                ReactionView::<S>::Reply(runtime.resume().result),
            )
            &&& cancelled == (
                runtime.cancel(text@).runtime,
                ReactionView::<S>::Reply(runtime.cancel(text@).result),
            )
        }),
        ({
            let submitted = reaction(runtime, Control::<S>::SubmitText(text), now);
            let confirmed = reaction(runtime, Control::<S>::Confirm(text), now);
            &&& submitted.0 == runtime.process_text(text@, now).runtime
            &&& submitted.1 == match runtime.process_text(text@, now).result {
                Ok(step) => ReactionView::<S>::Run(step),
                Err(error) => ReactionView::<S>::Reply(Err(error)),
            }
            &&& confirmed.0 == runtime.confirm(text@, now).runtime
            &&& confirmed.1 == match runtime.confirm(text@, now).result {
                Ok(step) => ReactionView::<S>::Run(step),
                Err(error) => ReactionView::<S>::Reply(Err(error)),
            }
        }),
        ({
            let begun = reaction(runtime, Control::<S>::BeginStream(rate), now);
            let pushed = reaction(runtime, Control::PushStream(samples), now);
            &&& runtime.active_session_id is Some ==> begun == (
                RuntimeView { last_partial: Seq::empty(), ..runtime },
                ReactionView::<S>::BeginStream(rate),
            )
            &&& runtime.active_session_id is None ==> begun.0 == runtime && (begun.1 matches
                ReactionView::Reply(result) && result is Err)
            &&& pushed.0 == runtime
            &&& runtime.streaming_stt ==> pushed.1 == ReactionView::<S>::PushStream(samples@)
            &&& !runtime.streaming_stt ==> pushed.1 == ReactionView::<S>::Reply(Ok(()))
        }),
{
}

/// Captured audio is transcribed as it is, and whether a command may follow is passed on.
pub proof fn captured_audio_is_transcribed<S>(
    runtime: RuntimeView,
    request: TranscriptionRequest<S>,
    authorized: bool,
    now: u64,
)
    ensures
        ({
            let captured = reaction(runtime, Control::Captured { request, authorized }, now);
            let begun = runtime.begin_transcription();
            &&& captured.0 == begun.runtime
            &&& captured.1 is Transcribe <==> begun.result is Ok
            &&& captured.1 matches ReactionView::Transcribe {
                transcription,
                samples,
                sample_rate,
                authorized: allowed,
            } ==> begun.result == Ok::<_, ErrorView>(transcription) && samples == request.samples@
                && sample_rate == request.sample_rate && allowed == authorized
            &&& begun.result matches Err(error) ==> captured.1 == ReactionView::<S>::Reply(Err(error))
        }),
{
}

/// A cooldown that is being measured ends when it was to end; one that is seen first ends the
/// configured number of milliseconds later.
pub proof fn cooldowns_end_on_time(runtime: RuntimeView, deadline: u128, now: u64)
    ensures
        cooldown_end(runtime, Some(deadline), now) == deadline,
        cooldown_end(runtime, None, now) == now + runtime.cooldown_ms * 1_000_000,
{
}

} // verus!
