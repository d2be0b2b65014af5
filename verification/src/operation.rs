//! Laws of the daemon: what its requests do, what its health says, and what becomes of a configuration
//! that is being applied.

use crate::apply::{apply_error, Applied, ApplyAction, ApplyPhaseView, ApplyStep, ApplyView, RecognizerChange};
use crate::bridge::Plan;
use crate::config::{ConfigView, CoreConfig};
use crate::daemon::{
    candidate_error, core_error_response, handled_as, CallView, Handled, HandledView, Pending, RequestStepView,
};
use crate::domain::{AssistantState, ErrorView, EventView, ModelStatusView, TranscriptUnavailableReason};
use crate::ipc::{CoreRequest, IpcErrorCode, ResponseView};
use crate::metrics::MetricsSnapshot;
use crate::reload::{changed_limits, is_difference, session_changed, stock_error, worker_changed};
use crate::service::Control;
use crate::session::{ManualCapture, PipelineMessage};
use crate::state::{health_of, new_daemon, Daemon, DaemonView};
use crate::text::{is_blank, option_view, views};
use vstd::prelude::*;
use vstd::utf8::encode_utf8;

verus! {

/// Requests that only read answer with what the daemon holds, publish nothing and change nothing.
pub proof fn reads_tell_what_is(daemon: DaemonView, state: AssistantState, metrics: MetricsSnapshot)
    ensures
        ({
            let status = daemon.request(CoreRequest::GetStatus, state, metrics);
            let health = daemon.request(CoreRequest::GetHealth, state, metrics);
            let config = daemon.request(CoreRequest::GetConfig, state, metrics);
            let measured = daemon.request(CoreRequest::GetMetrics, state, metrics);
            let model = daemon.request(CoreRequest::GetModelStatus, state, metrics);
            let devices = daemon.request(CoreRequest::ListAudioDevices, state, metrics);
            let verify = daemon.request(CoreRequest::VerifyModel, state, metrics);
            &&& status.daemon == daemon && status.events.len() == 0
            &&& status.step == RequestStepView::Reply(ResponseView::Status { state })
            &&& health.daemon == daemon && health.events.len() == 0
            &&& health.step == RequestStepView::Reply(
                ResponseView::Health { health: health_of(daemon, state, metrics) },
            )
            &&& config.daemon == daemon && config.events.len() == 0
            &&& config.step == RequestStepView::Reply(ResponseView::Config { config: daemon.config })
            &&& measured.daemon == daemon && measured.events.len() == 0
            &&& measured.step == RequestStepView::Reply(ResponseView::Metrics { metrics })
            &&& model.daemon == daemon && model.events.len() == 0
            &&& model.step == RequestStepView::Reply(
                ResponseView::ModelStatus { status: daemon.model_status },
            )
            &&& devices.daemon == daemon && devices.events.len() == 0 && devices.step is ListDevices
            &&& verify.daemon == daemon && verify.events.len() == 0 && verify.step is Verify
        }),
{
}

/// Suspending and resuming go through the runtime. The daemon stops or begins to listen exactly when
/// the runtime agreed; what it refused is answered as an error and changes nothing.
pub proof fn listening_follows_the_runtime(
    daemon: DaemonView,
    later: DaemonView,
    state: AssistantState,
    metrics: MetricsSnapshot,
    error: ErrorView,
)
    ensures
        ({
            let suspend = daemon.request(CoreRequest::SuspendListening, state, metrics);
            let resume = daemon.request(CoreRequest::ResumeListening, state, metrics);
            let suspended = later.call_finished(Pending::Suspend, Ok(()));
            let resumed = later.call_finished(Pending::Resume, Ok(()));
            let stays = later.call_finished(Pending::Suspend, Err(error));
            let remains = later.call_finished(Pending::Resume, Err(error));
            &&& suspend.daemon == daemon && suspend.step == RequestStepView::Call(
                CallView::Suspend,
                Pending::Suspend,
            )
            &&& resume.daemon == daemon && resume.step == RequestStepView::Call(
                CallView::Resume,
                Pending::Resume,
            )
            &&& suspended.step == RequestStepView::Reply(ResponseView::Accepted)
            &&& resumed.step == RequestStepView::Reply(ResponseView::Accepted)
            &&& !suspended.daemon.listening && resumed.daemon.listening
            &&& suspended.daemon == (DaemonView { listening: suspended.daemon.listening, ..later })
            &&& resumed.daemon == (DaemonView { listening: resumed.daemon.listening, ..later })
            &&& stays.daemon == later && remains.daemon == later
            &&& stays.step matches RequestStepView::Reply(ResponseView::Error { message, .. })
            &&& message == error.message()
            &&& remains.step == stays.step
        }),
{
}

/// A manual capture begins exactly if the daemon listens to a ready microphone and none is going on.
/// It is reserved while the runtime is asked, begins when the runtime agreed, and is free again when the
/// runtime refused. Where it was released meanwhile, the capture of the runtime is given up.
pub proof fn manual_captures_take_their_course(
    daemon: DaemonView,
    later: DaemonView,
    state: AssistantState,
    metrics: MetricsSnapshot,
    error: ErrorView,
)
    ensures
        ({
            let begin = daemon.request(CoreRequest::BeginCapture, state, metrics);
            let begun = later.call_finished(Pending::BeginCapture, Ok(()));
            let refused = later.call_finished(Pending::BeginCapture, Err(error));
            &&& begin.step is Call <==> daemon.listening && daemon.audio_ready && daemon.manual is Idle
            &&& begin.step is Call ==> begin.step == RequestStepView::Call(
                CallView::BeginManualCapture,
                Pending::BeginCapture,
            ) && begin.daemon == (DaemonView { manual: ManualCapture::Reserving, ..daemon })
                && begin.events.len() == 0
            &&& begin.step !is Call ==> begin.daemon == daemon && (begin.step matches
                RequestStepView::Reply(ResponseView::Error { code, .. }) && code == if daemon.listening
                && daemon.audio_ready {
                IpcErrorCode::RuntimeBusy
            } else {
                IpcErrorCode::Audio
            })
            &&& begin.events.len() > 0 <==> !(daemon.listening && daemon.audio_ready)
                && daemon.model_status !is Ready
            &&& begin.events.len() > 0 ==> begin.events == seq![
                EventView::TranscriptUnavailable {
                    reason: TranscriptUnavailableReason::ModelUnavailable,
                },
            ]
            &&& later.manual is Reserving ==> begun.daemon == (DaemonView {
                manual: ManualCapture::Begin,
                ..later
            }) && begun.step == RequestStepView::Reply(ResponseView::Accepted)
            &&& later.manual !is Reserving ==> begun.daemon == later && begun.step
                == RequestStepView::Call(CallView::CancelCapture, Pending::AbandonCapture)
            &&& refused.daemon == (DaemonView { manual: ManualCapture::Idle, ..later })
            &&& refused.step == RequestStepView::Reply(core_error_response(error))
        }),
{
}

/// A manual capture ends when asked to exactly if it has begun; it is then to be finished.
pub proof fn manual_captures_end_on_request(
    daemon: DaemonView,
    state: AssistantState,
    metrics: MetricsSnapshot,
)
    ensures
        ({
            let end = daemon.request(CoreRequest::EndCapture, state, metrics);
            &&& end.events.len() == 0
            &&& end.step == RequestStepView::Reply(ResponseView::Accepted) <==> !(daemon.manual is Idle
                || daemon.manual is Reserving)
            &&& end.daemon == if daemon.manual is Idle || daemon.manual is Reserving {
                daemon
            } else {
                DaemonView { manual: ManualCapture::Finish, ..daemon }
            }
            &&& end.step != RequestStepView::Reply(ResponseView::Accepted) ==> (end.step matches
                RequestStepView::Reply(ResponseView::Error { code, .. }) && code
                is RuntimeBusy)
        }),
{
}

/// A submitted text reaches the runtime unchanged exactly if it is not blank and holds at most 4096
/// bytes; any other is an invalid request.
pub proof fn texts_reach_the_runtime(
    daemon: DaemonView,
    text: String,
    state: AssistantState,
    metrics: MetricsSnapshot,
)
    ensures
        ({
            let submitted = daemon.request(CoreRequest::SubmitText { text }, state, metrics);
            &&& submitted.daemon == daemon && submitted.events.len() == 0
            &&& submitted.step == RequestStepView::Call(CallView::SubmitText(text@), Pending::SubmitText)
                <==> !is_blank(text@) && encode_utf8(text@).len() <= 4096
            &&& submitted.step !is Call ==> (submitted.step matches RequestStepView::Reply(
                ResponseView::Error { code, .. },
            ) && code is InvalidRequest)
        }),
{
}

/// Answers to a confirmation go to the runtime with their token. What the runtime says of a text or
/// an answer is what the client is told.
pub proof fn answers_reach_the_runtime(
    daemon: DaemonView,
    token: String,
    state: AssistantState,
    metrics: MetricsSnapshot,
    error: ErrorView,
)
    ensures
        ({
            let confirm = daemon.request(
                CoreRequest::ConfirmCommand { confirmation_id: token },
                state,
                metrics,
            );
            let cancel = daemon.request(
                CoreRequest::CancelCommand { confirmation_id: token },
                state,
                metrics,
            );
            let answered = daemon.call_finished(Pending::Answer, Ok(()));
            let unanswered = daemon.call_finished(Pending::Answer, Err(error));
            let matched = daemon.call_finished(Pending::SubmitText, Ok(()));
            let unmatched = daemon.call_finished(Pending::SubmitText, Err(error));
            &&& confirm.daemon == daemon && confirm.step == RequestStepView::Call(
                CallView::Confirm(token@),
                Pending::Answer,
            )
            &&& cancel.daemon == daemon && cancel.step == RequestStepView::Call(
                CallView::Cancel(token@),
                Pending::Answer,
            )
            &&& answered.daemon == daemon && answered.step == RequestStepView::Reply(
                ResponseView::Accepted,
            )
            &&& unanswered.daemon == daemon && unanswered.step == RequestStepView::Reply(
                ResponseView::Error { code: IpcErrorCode::Confirmation, message: error.message() },
            )
            &&& matched.daemon == daemon && matched.step == RequestStepView::Reply(
                ResponseView::Accepted,
            )
            &&& unmatched.daemon == daemon && unmatched.step == RequestStepView::Reply(
                core_error_response(error),
            )
        }),
{
}

/// Failures of the runtime are told with their message, under the category that clients know: what is
/// busy or out of turn as busy, what concerns recognition as a matter of the model.
pub proof fn failures_keep_their_message(error: ErrorView)
    ensures
        core_error_response(error) matches ResponseView::Error { code, message } && message
            == error.message() && match error {
            ErrorView::InvalidTransition(_, _) | ErrorView::Busy(_) => code is RuntimeBusy,
            ErrorView::Recognition(_) | ErrorView::Unavailable(_) => code is Model,
            ErrorView::Confirmation(_) => code is Confirmation,
            ErrorView::Command(_) => code is Internal,
        },
{
}

/// Models are installed one installation at a time; only what is going on can be cancelled, and an
/// installation before a load.
pub proof fn installations_are_exclusive(
    daemon: DaemonView,
    state: AssistantState,
    metrics: MetricsSnapshot,
)
    ensures
        ({
            let install = daemon.request(CoreRequest::InstallModel, state, metrics);
            let cancel = daemon.request(CoreRequest::CancelModelInstall, state, metrics);
            &&& install.daemon == daemon && install.events.len() == 0
            &&& install.step is Install <==> !daemon.model_installing
            &&& install.step !is Install ==> (install.step matches RequestStepView::Reply(
                ResponseView::Error { code, .. },
            ) && code is Model)
            &&& cancel.events.len() == 0
            &&& cancel.step == RequestStepView::Reply(ResponseView::Accepted)
                <==> daemon.model_installing || daemon.stt_loading
            &&& cancel.daemon.model_cancel == (daemon.model_cancel || daemon.model_installing)
            &&& cancel.daemon.stt_cancel == (daemon.stt_cancel || (!daemon.model_installing
                && daemon.stt_loading))
            &&& cancel.daemon == (DaemonView {
                model_cancel: cancel.daemon.model_cancel,
                stt_cancel: cancel.daemon.stt_cancel,
                ..daemon
            })
        }),
{
}

/// Continuous recognition is what was asked for last; a shutdown stops the daemon and whatever is being
/// loaded or installed.
pub proof fn switches_are_set(
    daemon: DaemonView,
    enabled: bool,
    state: AssistantState,
    metrics: MetricsSnapshot,
)
    ensures
        ({
            let switched = daemon.request(
                CoreRequest::SetContinuousRecognition { enabled },
                state,
                metrics,
            );
            let shutdown = daemon.request(CoreRequest::Shutdown, state, metrics);
            &&& switched.daemon.continuous == enabled
            &&& switched.daemon == (DaemonView { continuous: switched.daemon.continuous, ..daemon })
            &&& switched.step == RequestStepView::Reply(ResponseView::Accepted)
            &&& shutdown.step is Shutdown
            &&& shutdown.daemon.stopping && shutdown.daemon.stt_cancel && shutdown.daemon.model_cancel
            &&& shutdown.daemon == (DaemonView {
                stopping: shutdown.daemon.stopping,
                stt_cancel: shutdown.daemon.stt_cancel,
                model_cancel: shutdown.daemon.model_cancel,
                ..daemon
            })
        }),
{
}

/// A configuration is accepted exactly if its schema is known and the configuration is valid once it
/// has the current schema; it is applied exactly if, moreover, the runtime is idle or suspended, and
/// unchanged but for its schema.
pub proof fn valid_configurations_are_applied(
    daemon: DaemonView,
    config: CoreConfig,
    state: AssistantState,
    metrics: MetricsSnapshot,
)
    ensures
        ({
            let validate = daemon.request(CoreRequest::ValidateConfig { config }, state, metrics);
            let apply = daemon.request(CoreRequest::ApplyConfig { config }, state, metrics);
            let current = ConfigView { schema_version: 6, ..config@ };
            let valid = 1 <= config@.schema_version && config@.schema_version <= 6 && stock_error(
                current,
            ) is None;
            &&& validate.daemon == daemon && validate.events.len() == 0
            &&& apply.daemon == daemon && apply.events.len() == 0
            &&& validate.step == RequestStepView::Reply(ResponseView::Accepted) <==> valid
            &&& !valid ==> apply.step == validate.step && (validate.step matches RequestStepView::Reply(
                ResponseView::Error { code, .. },
            ) && code is Configuration)
            &&& apply.step is Apply <==> valid && (state is IdleListening || state is Suspended)
            &&& apply.step is Apply ==> apply.step == RequestStepView::Apply(current)
            &&& valid && apply.step !is Apply ==> (apply.step matches RequestStepView::Reply(
                ResponseView::Error { code, .. },
            ) && code is RuntimeBusy)
        }),
{
    reveal(candidate_error);
}

/// Applying needs an idle runtime and leaves the pipe and the models alone.
pub proof fn applications_need_a_restart_elsewhere(old: ConfigView, new: ConfigView, state: AssistantState)
    ensures
        apply_error(old, new, state) is None <==> {
            &&& state is IdleListening || state is Suspended
            &&& new.ipc == old.ipc
            &&& new.inference.model == old.inference.model
            &&& new.wake_word.model == old.wake_word.model
        },
        apply_error(old, new, state) matches Some((code, _)) ==> code == if state is IdleListening
            || state is Suspended {
            IpcErrorCode::Configuration
        } else {
            IpcErrorCode::RuntimeBusy
        },
{
}

/// A configuration is in force once it is written, and only then. The microphone session is renumbered
/// exactly if its settings changed; a replaced model is reported ready.
pub proof fn written_configurations_are_in_force(
    before: DaemonView,
    later: DaemonView,
    apply: ApplyView,
    applied: Applied,
)
    requires
        before.after_save(later, apply, Ok(()), applied),
    ensures
        applied.step == ApplyStep::Done(Ok(())),
        later.config == apply.config,
        later.audio_generation == before.audio_generation <==> !session_changed(
            before.config,
            apply.config,
        ),
        session_changed(before.config, apply.config) && before.audio_generation < u64::MAX
            ==> later.audio_generation == before.audio_generation + 1,
        apply.replace_stt && apply.model is Some ==> later.model_status is Ready && later.last_error
            is None && views(applied.events@).len() == 1 && views(applied.events@)[0] is ModelReady,
        !(apply.replace_stt && apply.model is Some) ==> later.model_status == before.model_status
            && later.last_error == before.last_error && views(applied.events@).len() == 0,
        later.listening == before.listening && later.manual == before.manual && later.stopping
            == before.stopping && later.stt_model == before.stt_model && later.wake_model
            == before.wake_model,
{
}

/// A configuration that could not be written is taken back: the runtime is given the differences back to
/// the previous configuration, with the recognizer of the previous one where it was replaced, and in the
/// end the failure to write is reported and the previous configuration is in force.
pub proof fn unwritten_configurations_are_taken_back(
    before: DaemonView,
    later: DaemonView,
    apply: ApplyView,
    message: String,
    applied: Applied,
)
    requires
        before.after_save(later, apply, Err(message), applied),
    ensures
        later == before,
        views(applied.events@).len() == 0,
        apply.replace_stt && apply.model is Some ==> (applied.step matches ApplyStep::Continue(
            next,
            ApplyAction::Load { model, previous },
        ) && previous && Some(model@) == apply.model && next@.phase == ApplyPhaseView::Reloading(
            message@,
        ) && next@.config == apply.config),
        !(apply.replace_stt && apply.model is Some) ==> (applied.step matches ApplyStep::Continue(
            next,
            ApplyAction::Reconfigure { update, recognizer, limits },
        ) && next@.phase == ApplyPhaseView::Reverting(message@) && is_difference(
            update,
            apply.config,
            before.config,
        ) && recognizer == if apply.replace_stt {
            RecognizerChange::Unavailable
        } else {
            RecognizerChange::Keep
        } && limits == changed_limits(apply.config, before.config)),
{
}

/// Once a recognizer for the previous configuration was loaded, the runtime takes it and goes back; a
/// recognizer for the new configuration that could not be loaded ends the application.
pub proof fn loaded_recognizers_are_used(
    before: DaemonView,
    later: DaemonView,
    apply: ApplyView,
    loaded: Result<(), String>,
    applied: Applied,
)
    requires
        before.after_load(later, apply, loaded, applied),
    ensures
        later == before,
        views(applied.events@).len() == 0,
        apply.phase is Loading && loaded is Err ==> (applied.step matches ApplyStep::Done(
            Err(failure),
        ) && failure.0 is Model && failure.1@ == loaded->Err_0@),
        apply.phase is Loading && loaded is Ok ==> (applied.step matches ApplyStep::Continue(
            next,
            ApplyAction::Reconfigure { update, recognizer, .. },
        ) && next@.phase is Reconfiguring && recognizer is Loaded && is_difference(
            update,
            before.config,
            apply.config,
        )),
        apply.phase matches ApplyPhaseView::Reloading(message) ==> (applied.step matches
            ApplyStep::Continue(
            next,
            ApplyAction::Reconfigure { update, recognizer, .. },
        ) && next@.phase == ApplyPhaseView::Reverting(message) && (recognizer is Loaded <==> loaded
            is Ok) && recognizer !is Unavailable && is_difference(update, apply.config, before.config)),
{
}

/// A configuration is written only after the runtime took it; what the runtime refused is not, and a
/// configuration that was taken back ends in the failure that made it so.
pub proof fn only_taken_configurations_are_written(
    before: DaemonView,
    later: DaemonView,
    apply: ApplyView,
    result: Result<(), ErrorView>,
    applied: Applied,
)
    requires
        before.after_reconfigure(later, apply, result, applied),
    ensures
        later.config == before.config,
        later.audio_generation == before.audio_generation,
        apply.phase is Reconfiguring && result is Ok ==> (applied.step matches ApplyStep::Continue(
            next,
            ApplyAction::Save,
        ) && next@.phase is Saving && next@.config == apply.config && later == before),
        apply.phase is Reconfiguring && result is Err ==> (applied.step matches ApplyStep::Done(
            Err(failure),
        ) && failure.0 is RuntimeBusy && failure.1@ == result->Err_0.message()),
        apply.phase matches ApplyPhaseView::Reverting(message) ==> (applied.step matches
            ApplyStep::Done(Err(failure)) && failure.0 is Configuration && failure.1@ == message),
        applied.step is Done && !(apply.replace_stt && apply.model is Some) ==> later == before,
        applied.step is Done && apply.replace_stt && apply.model is Some ==> later.model_status
            is Ready,
{
}

/// Only the model, the threads and the queue need another recognizer; restart limits are handed over
/// exactly if they changed, with the new values.
pub proof fn recognizers_are_replaced_when_they_must(old: ConfigView, new: ConfigView)
    ensures
        !worker_changed(old, new) <==> old.inference.model == new.inference.model
            && old.inference.threads == new.inference.threads && old.inference.queue_capacity
            == new.inference.queue_capacity,
        changed_limits(old, new) is None <==> old.inference.max_restarts == new.inference.max_restarts
            && old.inference.restart_backoff_ms == new.inference.restart_backoff_ms,
        changed_limits(old, new) matches Some(limits) ==> limits.max_restarts
            == new.inference.max_restarts && limits.backoff_ms == new.inference.restart_backoff_ms,
{
}

/// The microphone session starts anew exactly if its own settings or those of the wake word differ,
/// numbers being compared as numbers.
pub proof fn sessions_restart_for_their_settings(old: ConfigView, new: ConfigView)
    ensures
        session_changed(old, new) <==> !({
            let a = old.audio;
            let b = new.audio;
            let v = old.wake_word;
            let w = new.wake_word;
            &&& a.device_id == b.device_id && a.target_sample_rate == b.target_sample_rate
            &&& a.channels == b.channels && a.frame_ms == b.frame_ms && a.pre_roll_ms == b.pre_roll_ms
            &&& a.queue_capacity_frames == b.queue_capacity_frames
            &&& a.vad_threshold.same_number(b.vad_threshold)
            &&& a.command_min_ms == b.command_min_ms && a.command_max_ms == b.command_max_ms
            &&& a.trailing_silence_ms == b.trailing_silence_ms
            &&& a.reconnect_delay_ms == b.reconnect_delay_ms
            &&& a.stall_timeout_ms == b.stall_timeout_ms
            &&& v.model == w.model && v.keyword == w.keyword && v.aliases == w.aliases
            &&& v.score.same_number(w.score) && v.threshold.same_number(w.threshold)
            &&& v.cooldown_ms == w.cooldown_ms
        }),
{
}

/// The health of a daemon: it is that of its microphone, its recognizer, its runtime and its model, and
/// tells the last error.
pub proof fn health_tells_the_conditions(
    daemon: DaemonView,
    state: AssistantState,
    metrics: MetricsSnapshot,
)
    ensures
        ({
            let health = health_of(daemon, state, metrics);
            let parts = health.components;
            &&& health.state == state
            &&& health.audio_ready == daemon.audio_ready
            &&& health.active_audio_device == daemon.active_device
            &&& health.last_error == daemon.last_error
            &&& health.config_version == 6 && health.core_api_version == 6 && health.protocol_version
                == 7
            &&& health.model_ready <==> daemon.model_status is Ready || (daemon.model_status matches
                ModelStatusView::Loading { active, .. } && active)
            &&& parts.len() == 5
            &&& parts[0].name == "audio"@ && parts[1].name == "stt"@ && parts[2].name == "runtime"@
                && parts[3].name == "model"@ && parts[4].name == "ipc"@
            &&& parts[0].status is Faulted <==> daemon.audio_faulted
            &&& parts[0].status is Ready <==> daemon.audio_ready && !daemon.audio_faulted
            &&& parts[0].status is Recovering <==> !daemon.audio_ready && !daemon.audio_faulted
            &&& parts[0].last_error == daemon.last_error
            &&& metrics.audio_reconnects <= 0xffff_ffff ==> parts[0].restart_count
                == metrics.audio_reconnects
            &&& parts[1].status is Faulted <==> metrics.stt_faults > 0
            &&& parts[1].status is Ready <==> metrics.stt_faults == 0 && daemon.model_status is Ready
            &&& parts[1].status is Recovering <==> metrics.stt_faults == 0 && daemon.model_status
                !is Ready
            &&& parts[1].last_error is Some <==> metrics.stt_faults > 0
            &&& metrics.stt_restarts <= 0xffff_ffff ==> parts[1].restart_count == metrics.stt_restarts
            &&& parts[2].status is Faulted <==> state is Faulted
            &&& parts[2].status is Ready <==> state !is Faulted
            &&& parts[3].status is Ready <==> daemon.model_status is Ready
            &&& parts[3].status is Faulted <==> daemon.model_status is Failed
            &&& parts[3].status is Stopped <==> daemon.model_status is Missing || daemon.model_status
                is Cancelled
            &&& parts[3].status is Recovering <==> daemon.model_status is Installing
                || daemon.model_status is Loading
            &&& daemon.model_status matches ModelStatusView::Failed { message }
                ==> parts[3].last_error == Some(message)
            &&& daemon.model_status !is Failed ==> parts[3].last_error is None
            &&& parts[4].status is Ready
        }),
{
    reveal(health_of);
}

/// What the microphone session tells is passed on: a wake word opens a capture for commands and speech
/// one that is only transcribed, each followed by incremental recognition if the runtime agreed;
/// utterances, chunks and reasons arrive as they are.
pub proof fn microphone_messages_are_passed_on<S>(
    daemon: DaemonView,
    message: PipelineMessage<S>,
    plan: Plan<S>,
)
    requires
        daemon.plans(message, plan),
    ensures
        plan.first == Some(Control::<S>::BeginCapture) <==> message is WakeWord,
        plan.first == Some(Control::<S>::BeginSpeech) <==> message is Speech,
        message matches PipelineMessage::WakeWord(rate) ==> plan.next == Some(
            Control::<S>::BeginStream(rate),
        ) && plan.next_needs_success,
        message matches PipelineMessage::Speech(rate) ==> plan.next == Some(
            Control::<S>::BeginStream(rate),
        ) && plan.next_needs_success,
        message matches PipelineMessage::StreamBegin(rate) ==> plan.first == Some(
            Control::<S>::BeginStream(rate),
        ),
        message matches PipelineMessage::StreamChunk(samples) ==> plan.first == Some(
            Control::PushStream(samples),
        ),
        message matches PipelineMessage::Command { request, authorized } ==> plan.first == Some(
            Control::Captured { request, authorized },
        ),
        message is CaptureCancelled ==> plan.first == Some(Control::<S>::CancelCapture),
        message matches PipelineMessage::CaptureUnavailable(reason) ==> plan.next == Some(
            Control::<S>::CancelCapture,
        ) && !plan.next_needs_success && (plan.first matches Some(Control::Publish(event)) && event@
            == EventView::TranscriptUnavailable { reason }),
        message matches PipelineMessage::TranscriptUnavailable(reason) ==> (plan.first matches Some(
            Control::Publish(event),
        ) && event@ == EventView::TranscriptUnavailable { reason }),
        message matches PipelineMessage::AudioLevel(rms) ==> (plan.first matches Some(
            Control::Publish(event),
        ) && event@ == EventView::AudioLevel { rms }),
        message matches PipelineMessage::AudioDeviceChanged(device) ==> (plan.first is None
            <==> daemon.device_observed && daemon.active_device == option_view(device)),
        message matches PipelineMessage::AudioError(text) ==> (plan.first matches Some(
            Control::Recover { component, message },
        ) && component@ == "audio"@ && message@ == text@),
        plan.next is Some <==> message is WakeWord || message is Speech || message
            is CaptureUnavailable,
{
}

/// The daemon remembers the microphone in use and the last failure of the microphone, and nothing else
/// of what the session tells.
pub proof fn microphone_messages_are_remembered<S>(daemon: DaemonView, message: PipelineMessage<S>)
    ensures
        ({
            let later = daemon.told(message@);
            &&& later == (DaemonView {
                device_observed: later.device_observed,
                active_device: later.active_device,
                last_error: later.last_error,
                ..daemon
            })
            &&& message matches PipelineMessage::AudioDeviceChanged(device) ==> later.device_observed
                && later.active_device == option_view(device) && later.last_error == daemon.last_error
            &&& message matches PipelineMessage::AudioError(text) ==> later.last_error == Some(text@)
                && later.active_device == daemon.active_device && later.device_observed
                == daemon.device_observed
            &&& message !is AudioDeviceChanged && message !is AudioError ==> later == daemon
        }),
{
}

/// A daemon begins with its configuration and with nothing loaded, nothing heard and nothing asked for.
pub proof fn daemons_begin_with_nothing(config: ConfigView)
    ensures
        ({
            let daemon = new_daemon(config);
            &&& daemon.config == config
            &&& daemon.model_status matches ModelStatusView::Loading { progress, active, .. } && progress
                == 0 && !active
            &&& !daemon.model_installing && !daemon.model_cancel && !daemon.stt_loading
                && !daemon.stt_cancel
            &&& daemon.stt_model is None && daemon.wake_model is None
            &&& !daemon.audio_ready && !daemon.audio_faulted && !daemon.device_observed
                && daemon.active_device is None
            &&& daemon.manual is Idle && !daemon.continuous && !daemon.listening && !daemon.stopping
            &&& daemon.last_error is None
        }),
{
}

/// What a daemon hands out is what its state asks for.
pub proof fn steps_are_handed_out(daemon: Daemon, handled: Handled, expected: HandledView)
    requires
        handled_as(daemon, handled, expected),
    ensures
        daemon@ == expected.daemon,
        handled.step@ == expected.step,
        handled.events@.len() == expected.events.len(),
        forall|i: int|
            0 <= i < handled.events@.len() ==> (#[trigger] handled.events@[i])@ == expected.events[i],
{
    assert(views(handled.events@).len() == handled.events@.len());
    assert forall|i: int| 0 <= i < handled.events@.len() implies (#[trigger] handled.events@[i])@
        == expected.events[i] by {
        assert(views(handled.events@)[i] == handled.events@[i]@);
    }
}

} // verus!
