//! Requests, model lifecycle, configuration changes and health of the daemon.

use assistant_core::apply::{Apply, ApplyAction, ApplyEvent, ApplyStep, RecognizerChange};
use assistant_core::bridge::Plan;
use assistant_core::config::{
    AudioConfig, CoreConfig, InferenceConfig, IpcConfig, MatchingConfig, PolicyConfig, WakeWordConfig,
    CURRENT_CONFIG_VERSION,
};
use assistant_core::daemon::{core_error, devices_response, Call, Pending, RequestStep};
use assistant_core::domain::{
    AssistantEvent, AssistantState, AudioDeviceInfo, ComponentStatus, CoreError, ModelStatus,
    TranscriptUnavailableReason, CORE_API_VERSION, CORE_VERSION, PROTOCOL_VERSION,
};
use assistant_core::float32::Real32;
use assistant_core::ipc::{CoreRequest, CoreResponse, IpcErrorCode};
use assistant_core::lifecycle::{ActivationGate, InstallOutcome};
use assistant_core::metrics::CoreMetrics;
use assistant_core::models::{model_spec, ModelError, ModelInstallProgress};
use assistant_core::service::Control;
use assistant_core::session::{ManualCapture, PipelineMessage};
use assistant_core::state::Daemon;
use assistant_core::stt::{LoadStage, RestartLimits};

const MODEL: &str = "alphacep/vosk-model-streaming-ru";

fn config() -> CoreConfig {
    CoreConfig {
        schema_version: CURRENT_CONFIG_VERSION,
        audio: AudioConfig::default(),
        matching: MatchingConfig::default(),
        wake_word: WakeWordConfig::default(),
        inference: InferenceConfig::default(),
        policy: PolicyConfig::default(),
        ipc: IpcConfig::default(),
        commands: Vec::new(),
    }
}

fn ask_in(daemon: &mut Daemon, request: CoreRequest, state: AssistantState) -> RequestStep {
    daemon.handle_request(request, state, CoreMetrics::default().snapshot()).step
}

fn ask(daemon: &mut Daemon, request: CoreRequest) -> RequestStep {
    ask_in(daemon, request, AssistantState::IdleListening)
}

/// The category and message of a refusal.
fn refusal(step: RequestStep) -> (IpcErrorCode, String) {
    match step {
        RequestStep::Reply(CoreResponse::Error { code, message }) => (code, message),
        _ => panic!("a refusal was expected"),
    }
}

fn is_accepted(step: RequestStep) -> bool {
    matches!(step, RequestStep::Reply(CoreResponse::Accepted))
}

fn revision() -> String {
    model_spec(MODEL).unwrap().revision().to_string()
}

#[test]
fn health_reports_versions_and_components() {
    let mut daemon = Daemon::new(config());
    let health = match ask_in(&mut daemon, CoreRequest::GetHealth, AssistantState::Starting) {
        RequestStep::Reply(CoreResponse::Health { health }) => health,
        _ => panic!("health was expected"),
    };
    assert_eq!(health.state, AssistantState::Starting);
    assert_eq!(health.core_version, CORE_VERSION);
    assert!(!health.model_ready);
    assert_eq!(health.config_version, CURRENT_CONFIG_VERSION);
    assert_eq!(health.core_api_version, CORE_API_VERSION);
    assert_eq!(health.protocol_version, PROTOCOL_VERSION);
    let names: Vec<&str> = health.components.iter().map(|component| component.name.as_str()).collect();
    assert_eq!(names, ["audio", "stt", "runtime", "model", "ipc"]);
    assert!(health.components.iter().all(|component| component.status != ComponentStatus::Faulted));
}

#[test]
fn faults_show_in_health() {
    let mut daemon = Daemon::new(config());
    daemon.set_audio_faulted(true);
    daemon.models_missing();
    let mut metrics = CoreMetrics::default();
    metrics.stt_faulted();
    let health = daemon.health(AssistantState::Faulted, &metrics.snapshot());
    let statuses: Vec<ComponentStatus> = health.components.iter().map(|component| component.status).collect();
    assert_eq!(
        statuses,
        [
            ComponentStatus::Faulted,
            ComponentStatus::Faulted,
            ComponentStatus::Faulted,
            ComponentStatus::Stopped,
            ComponentStatus::Ready,
        ]
    );
    assert_eq!(health.components[1].last_error.as_deref(), Some("STT restart budget exhausted"));
}

#[test]
fn readings_are_answered_at_once() {
    let mut daemon = Daemon::new(config());
    assert!(matches!(
        ask(&mut daemon, CoreRequest::GetStatus),
        RequestStep::Reply(CoreResponse::Status { state: AssistantState::IdleListening })
    ));
    match ask(&mut daemon, CoreRequest::GetConfig) {
        RequestStep::Reply(CoreResponse::Config { config: active }) => assert_eq!(active, config()),
        _ => panic!("a configuration was expected"),
    }
    assert!(matches!(ask(&mut daemon, CoreRequest::GetMetrics), RequestStep::Reply(CoreResponse::Metrics { .. })));
    match ask(&mut daemon, CoreRequest::ListHandlers) {
        RequestStep::Reply(CoreResponse::Handlers { handlers }) => {
            assert!(handlers.iter().any(|handler| handler.name == "launch_app"));
            assert_eq!(handlers.len(), 4);
        }
        _ => panic!("handlers were expected"),
    }
    assert!(matches!(
        ask(&mut daemon, CoreRequest::GetModelStatus),
        RequestStep::Reply(CoreResponse::ModelStatus { status: ModelStatus::Loading { progress: 0, .. } })
    ));
    assert!(is_accepted(ask(&mut daemon, CoreRequest::SubscribeEvents)));
    assert!(matches!(ask(&mut daemon, CoreRequest::ListAudioDevices), RequestStep::ListDevices));
    assert!(matches!(ask(&mut daemon, CoreRequest::VerifyModel), RequestStep::Verify));
}

#[test]
fn configurations_are_validated_without_effect() {
    let mut daemon = Daemon::new(config());
    assert!(is_accepted(ask(&mut daemon, CoreRequest::ValidateConfig { config: config() })));
    let mut old = config();
    old.schema_version = 3;
    assert!(is_accepted(ask(&mut daemon, CoreRequest::ValidateConfig { config: old })));
    let mut future = config();
    future.schema_version = 9;
    assert_eq!(
        refusal(ask(&mut daemon, CoreRequest::ValidateConfig { config: future })),
        (IpcErrorCode::Configuration, "invalid config: unsupported schema_version 9".to_string())
    );
}

#[test]
fn texts_are_bounded_before_they_reach_the_runtime() {
    let mut daemon = Daemon::new(config());
    let refused = (IpcErrorCode::InvalidRequest, "submitted text must contain 1..=4096 UTF-8 bytes".to_string());
    assert_eq!(refusal(ask(&mut daemon, CoreRequest::SubmitText { text: String::new() })), refused);
    assert_eq!(refusal(ask(&mut daemon, CoreRequest::SubmitText { text: "я".repeat(2_049) })), refused);
    assert!(matches!(
        ask(&mut daemon, CoreRequest::SubmitText { text: "я".repeat(2_048) }),
        RequestStep::Call(Call::SubmitText(_), Pending::SubmitText)
    ));
}

#[test]
fn manual_captures_need_a_ready_microphone() {
    let mut daemon = Daemon::new(config());
    let handled = daemon.handle_request(
        CoreRequest::BeginCapture,
        AssistantState::IdleListening,
        CoreMetrics::default().snapshot(),
    );
    assert_eq!(
        handled.events,
        [AssistantEvent::TranscriptUnavailable { reason: TranscriptUnavailableReason::ModelUnavailable }]
    );
    assert_eq!(refusal(handled.step), (IpcErrorCode::Audio, "audio input is not ready".to_string()));
    daemon.set_listening(true);
    daemon.set_audio_ready(true);
    assert!(matches!(
        ask(&mut daemon, CoreRequest::BeginCapture),
        RequestStep::Call(Call::BeginManualCapture, Pending::BeginCapture)
    ));
    assert_eq!(
        refusal(ask(&mut daemon, CoreRequest::BeginCapture)),
        (IpcErrorCode::RuntimeBusy, "manual capture is already active".to_string())
    );
    assert_eq!(
        refusal(ask(&mut daemon, CoreRequest::EndCapture)),
        (IpcErrorCode::RuntimeBusy, "manual capture is not active".to_string())
    );
    assert!(is_accepted(daemon.call_finished(Pending::BeginCapture, Ok(())).step));
    assert_eq!(daemon.manual(), ManualCapture::Begin);
    assert!(is_accepted(ask(&mut daemon, CoreRequest::EndCapture)));
    assert_eq!(daemon.manual(), ManualCapture::Finish);
}

#[test]
fn manual_captures_are_abandoned_with_their_device() {
    let mut daemon = Daemon::new(config());
    daemon.set_listening(true);
    daemon.set_audio_ready(true);
    ask(&mut daemon, CoreRequest::BeginCapture);
    daemon.set_manual(ManualCapture::Idle);
    assert!(matches!(
        daemon.call_finished(Pending::BeginCapture, Ok(())).step,
        RequestStep::Call(Call::CancelCapture, Pending::AbandonCapture)
    ));
    assert_eq!(
        refusal(daemon.call_finished(Pending::AbandonCapture, Ok(())).step),
        (IpcErrorCode::Audio, "audio input changed while starting manual capture".to_string())
    );
    ask(&mut daemon, CoreRequest::BeginCapture);
    let busy = daemon.call_finished(Pending::BeginCapture, Err(CoreError::Busy("command".into())));
    assert_eq!(refusal(busy.step), (IpcErrorCode::RuntimeBusy, "runtime is busy: command".to_string()));
    assert_eq!(daemon.manual(), ManualCapture::Idle);
}

#[test]
fn listening_follows_the_runtime() {
    let mut daemon = Daemon::new(config());
    daemon.runtime_started(Ok(()));
    assert!(daemon.is_listening());
    assert!(matches!(
        ask(&mut daemon, CoreRequest::SuspendListening),
        RequestStep::Call(Call::Suspend, Pending::Suspend)
    ));
    assert!(is_accepted(daemon.call_finished(Pending::Suspend, Ok(())).step));
    assert!(!daemon.is_listening());
    assert!(matches!(ask(&mut daemon, CoreRequest::ResumeListening), RequestStep::Call(Call::Resume, Pending::Resume)));
    assert!(is_accepted(daemon.call_finished(Pending::Resume, Ok(())).step));
    assert!(daemon.is_listening());
    assert!(is_accepted(ask(&mut daemon, CoreRequest::SetContinuousRecognition { enabled: true })));
    assert!(daemon.is_continuous());
    daemon.runtime_started(Err(CoreError::Unavailable("gone".into())));
    assert_eq!(daemon.last_error().unwrap(), "component is unavailable: gone");
}

#[test]
fn confirmations_report_their_failures() {
    let mut daemon = Daemon::new(config());
    match ask(&mut daemon, CoreRequest::ConfirmCommand { confirmation_id: "t".into() }) {
        RequestStep::Call(call, Pending::Answer) => {
            assert!(matches!(call.into_control::<f32>(), Control::Confirm(token) if token == "t"));
        }
        _ => panic!("a call was expected"),
    }
    assert!(matches!(
        ask(&mut daemon, CoreRequest::CancelCommand { confirmation_id: "t".into() }),
        RequestStep::Call(Call::Cancel(_), Pending::Answer)
    ));
    let failed = daemon.call_finished(Pending::Answer, Err(CoreError::Busy("x".into())));
    assert_eq!(refusal(failed.step).0, IpcErrorCode::Confirmation);
    assert!(is_accepted(daemon.call_finished(Pending::SubmitText, Ok(())).step));
}

#[test]
fn errors_map_to_stable_codes() {
    let code = |error: CoreError| match core_error(&error) {
        CoreResponse::Error { code, .. } => code,
        _ => panic!("an error was expected"),
    };
    assert_eq!(
        code(CoreError::InvalidTransition(AssistantState::Starting, AssistantState::Cooldown)),
        IpcErrorCode::RuntimeBusy
    );
    assert_eq!(code(CoreError::Busy("x".into())), IpcErrorCode::RuntimeBusy);
    assert_eq!(code(CoreError::Recognition("x".into())), IpcErrorCode::Model);
    assert_eq!(code(CoreError::Unavailable("x".into())), IpcErrorCode::Model);
    assert_eq!(code(CoreError::Confirmation("x".into())), IpcErrorCode::Confirmation);
    assert_eq!(code(CoreError::Command("x".into())), IpcErrorCode::Internal);
    assert!(matches!(
        devices_response(Err("no host".into()), true),
        CoreResponse::Error { code: IpcErrorCode::Audio, .. }
    ));
    assert!(matches!(
        devices_response(Err("lost".into()), false),
        CoreResponse::Error { code: IpcErrorCode::Internal, .. }
    ));
    assert!(matches!(devices_response(Ok(Vec::new()), true), CoreResponse::AudioDevices { .. }));
}

#[test]
fn shutdown_cancels_everything() {
    let mut daemon = Daemon::new(config());
    assert!(matches!(ask(&mut daemon, CoreRequest::Shutdown), RequestStep::Shutdown));
    assert!(daemon.is_stopping() && daemon.model_cancelled() && daemon.loading_cancelled());
    assert!(matches!(daemon.activation_gate(AssistantState::Cooldown), ActivationGate::Closed(_)));
}

#[test]
fn installations_run_one_at_a_time() {
    let mut daemon = Daemon::new(config());
    assert_eq!(
        refusal(ask(&mut daemon, CoreRequest::CancelModelInstall)),
        (IpcErrorCode::Model, "no model installation or loading is running".to_string())
    );
    assert!(matches!(ask(&mut daemon, CoreRequest::InstallModel), RequestStep::Install));
    let plan = daemon.begin_install().ok().unwrap();
    assert!(plan.wake.is_none());
    assert_eq!(plan.total_files, model_spec(MODEL).unwrap().file_count());
    assert_eq!(daemon.begin_install().err().unwrap(), "model installation is already running");
    assert_eq!(refusal(ask(&mut daemon, CoreRequest::InstallModel)).0, IpcErrorCode::Model);
    let event = daemon.install_progress(
        &plan,
        false,
        ModelInstallProgress { completed_files: 2, total_files: 5, file: Some("lang/tokens.txt".into()) },
    );
    assert_eq!(
        event,
        AssistantEvent::ModelInstallProgress {
            completed_files: 2,
            total_files: 5,
            file: Some("lang/tokens.txt".into())
        }
    );
    assert!(is_accepted(ask(&mut daemon, CoreRequest::CancelModelInstall)));
    assert!(daemon.model_cancelled());
    daemon.install_finished(InstallOutcome::NotInstalled(ModelError::Cancelled));
    assert_eq!(*daemon.model_status(), ModelStatus::Cancelled);
    assert!(!daemon.installing());
}

#[test]
fn unknown_models_are_not_installed() {
    let mut unknown = config();
    unknown.inference.model = "someone/else".into();
    let mut daemon = Daemon::new(unknown);
    assert_eq!(
        daemon.begin_install().err().unwrap(),
        "model manifest failed: unsupported model: someone/else"
    );
    assert!(daemon.installing());
    assert_eq!(daemon.begin_install().err().unwrap(), "model installation is already running");
}

#[test]
fn two_models_are_counted_together() {
    let mut both = config();
    both.inference.model = "alphacep/vosk-model-small-ru".into();
    let mut daemon = Daemon::new(both);
    let plan = daemon.begin_install().ok().unwrap();
    let first = model_spec("alphacep/vosk-model-small-ru").unwrap().file_count();
    assert_eq!(plan.total_files, first + model_spec(MODEL).unwrap().file_count());
    let progress = ModelInstallProgress { completed_files: 1, total_files: 5, file: None };
    match daemon.install_progress(&plan, true, progress) {
        AssistantEvent::ModelInstallProgress { completed_files, total_files, .. } => {
            assert_eq!((completed_files, total_files), (first + 1, plan.total_files));
        }
        _ => panic!("progress was expected"),
    }
    daemon.install_finished(InstallOutcome::NotActivated("no engine".into()));
    assert_eq!(*daemon.model_status(), ModelStatus::Failed { message: "no engine".into() });
    daemon.install_finished(InstallOutcome::Lost("panicked".into()));
    assert_eq!(*daemon.model_status(), ModelStatus::Failed { message: "panicked".into() });
    assert_eq!(daemon.last_error().unwrap(), "no engine");
    daemon.install_finished(InstallOutcome::NotInstalled(ModelError::Hub("offline".into())));
    assert_eq!(daemon.last_error().unwrap(), "Hugging Face failed: offline");
    daemon.install_finished(InstallOutcome::Activated);
}

#[test]
fn loading_reports_its_stages() {
    let mut daemon = Daemon::new(config());
    assert_eq!(
        daemon.begin_loading(false).unwrap(),
        AssistantEvent::ModelLoadProgress { progress: 5, stage: "scheduling STT load".into() }
    );
    assert_eq!(daemon.begin_loading(false).unwrap_err(), "STT loading is already running");
    daemon.loading_stage(LoadStage::Warming, false);
    assert_eq!(
        *daemon.model_status(),
        ModelStatus::Loading { progress: 75, stage: "warming STT engine".into(), active: false }
    );
    assert!(is_accepted(ask(&mut daemon, CoreRequest::CancelModelInstall)));
    assert!(daemon.loading_cancelled());
    daemon.end_loading(false, false, "r");
    assert!(!daemon.loading());
    daemon.initialization_failed("STT loading cancelled".into());
    assert_eq!(*daemon.model_status(), ModelStatus::Cancelled);
    daemon.begin_loading(true).unwrap();
    daemon.end_loading(false, true, "r");
    assert_eq!(*daemon.model_status(), ModelStatus::Ready { revision: "r".into() });
}

#[test]
fn activated_models_restart_the_microphone() {
    let mut daemon = Daemon::new(config());
    assert!(matches!(daemon.activation_gate(AssistantState::Starting), ActivationGate::Open));
    assert!(matches!(daemon.activation_gate(AssistantState::Transcribing), ActivationGate::Wait(100)));
    let event = daemon.model_activated("stt".into(), "wake".into());
    assert_eq!(event, AssistantEvent::ModelReady { revision: revision() });
    assert_eq!(daemon.audio_generation(), 1);
    assert_eq!(daemon.stt_model().unwrap(), "stt");
    assert_eq!(daemon.wake_model().unwrap(), "wake");
    assert!(daemon.health(AssistantState::IdleListening, &CoreMetrics::default().snapshot()).model_ready);
}

/// Begins to apply a configuration from idle listening.
fn begin(daemon: &mut Daemon, new: CoreConfig) -> ApplyStep {
    match ask(daemon, CoreRequest::ApplyConfig { config: new }) {
        RequestStep::Apply(config) => daemon.begin_apply(config, AssistantState::IdleListening),
        step => panic!("an application was expected, not {:?}", refusal(step)),
    }
}

fn going_on(step: ApplyStep) -> (Apply, ApplyAction) {
    match step {
        ApplyStep::Continue(apply, action) => (apply, action),
        ApplyStep::Done(_) => panic!("an action was expected"),
    }
}

#[test]
fn configurations_are_applied_between_commands() {
    let mut daemon = Daemon::new(config());
    assert_eq!(
        refusal(ask_in(&mut daemon, CoreRequest::ApplyConfig { config: config() }, AssistantState::Transcribing)),
        (IpcErrorCode::RuntimeBusy, "runtime is busy".to_string())
    );
    let mut new = config();
    new.audio.device_id = "usb".into();
    let (apply, action) = going_on(begin(&mut daemon, new));
    assert!(matches!(action, ApplyAction::Reconfigure { recognizer: RecognizerChange::Keep, .. }));
    let (apply, action) = going_on(daemon.advance_apply(apply, ApplyEvent::Reconfigured(Ok(()))).step);
    assert!(matches!(action, ApplyAction::Save));
    assert_eq!(daemon.config().audio.device_id, "default");
    assert!(matches!(daemon.advance_apply(apply, ApplyEvent::Saved(Ok(()))).step, ApplyStep::Done(Ok(()))));
    assert_eq!(daemon.config().audio.device_id, "usb");
    assert_eq!(daemon.audio_generation(), 1);
}

#[test]
fn restart_limits_change_without_a_new_worker() {
    let mut daemon = Daemon::new(config());
    daemon.model_activated("stt".into(), "stt".into());
    let mut new = config();
    new.inference.max_restarts = 9;
    let (apply, action) = going_on(begin(&mut daemon, new));
    let expected = RestartLimits { max_restarts: 9, backoff_ms: config().inference.restart_backoff_ms };
    assert!(matches!(
        action,
        ApplyAction::Reconfigure { recognizer: RecognizerChange::Keep, limits: Some(limits), .. } if limits == expected
    ));
    let (apply, _) = going_on(daemon.advance_apply(apply, ApplyEvent::Reconfigured(Ok(()))).step);
    let (_, action) = going_on(daemon.advance_apply(apply, ApplyEvent::Saved(Err("full".into()))).step);
    assert!(matches!(
        action,
        ApplyAction::Reconfigure { limits: Some(limits), .. } if limits.max_restarts == config().inference.max_restarts
    ));
}

#[test]
fn restarts_are_required_for_transport_and_models() {
    let mut daemon = Daemon::new(config());
    let mut pipe = config();
    pipe.ipc.io_timeout_ms = 1_000;
    match begin(&mut daemon, pipe) {
        ApplyStep::Done(Err((code, message))) => {
            assert_eq!(code, IpcErrorCode::Configuration);
            assert_eq!(message, "IPC pipe name and timeout require daemon restart");
        }
        _ => panic!("a failure was expected"),
    }
    let mut model = config();
    model.inference.model = "alphacep/vosk-model-small-ru".into();
    match begin(&mut daemon, model) {
        ApplyStep::Done(Err((_, message))) => assert_eq!(message, "model selection requires daemon restart"),
        _ => panic!("a failure was expected"),
    }
}

#[test]
fn a_new_worker_is_loaded_and_rolled_back() {
    let mut daemon = Daemon::new(config());
    daemon.model_activated("stt".into(), "stt".into());
    let mut new = config();
    new.inference.threads = 3;
    let (apply, action) = going_on(begin(&mut daemon, new.clone()));
    assert!(matches!(action, ApplyAction::Load { model, previous: false } if model == "stt"));
    let (apply, action) = going_on(daemon.advance_apply(apply, ApplyEvent::Loaded(Ok(()))).step);
    assert!(matches!(action, ApplyAction::Reconfigure { recognizer: RecognizerChange::Loaded, .. }));
    let (apply, _) = going_on(daemon.advance_apply(apply, ApplyEvent::Reconfigured(Ok(()))).step);
    let (apply, action) = going_on(daemon.advance_apply(apply, ApplyEvent::Saved(Err("full".into()))).step);
    assert!(matches!(action, ApplyAction::Load { model, previous: true } if model == "stt"));
    let (apply, action) = going_on(daemon.advance_apply(apply, ApplyEvent::Loaded(Err("x".into()))).step);
    assert!(matches!(action, ApplyAction::Reconfigure { recognizer: RecognizerChange::Keep, .. }));
    let applied = daemon.advance_apply(apply, ApplyEvent::Reconfigured(Ok(())));
    assert_eq!(applied.events, [AssistantEvent::ModelReady { revision: revision() }]);
    assert!(matches!(
        applied.step,
        ApplyStep::Done(Err((IpcErrorCode::Configuration, message))) if message == "full"
    ));
    assert_eq!(daemon.config().inference.threads, config().inference.threads);

    let (apply, _) = going_on(begin(&mut daemon, new));
    assert!(matches!(
        daemon.advance_apply(apply, ApplyEvent::Loaded(Err("no memory".into()))).step,
        ApplyStep::Done(Err((IpcErrorCode::Model, message))) if message == "no memory"
    ));
}

#[test]
fn a_busy_runtime_keeps_the_old_configuration() {
    let mut daemon = Daemon::new(config());
    let mut new = config();
    new.inference.threads = 3;
    let (apply, action) = going_on(begin(&mut daemon, new.clone()));
    assert!(matches!(action, ApplyAction::Reconfigure { recognizer: RecognizerChange::Keep, .. }));
    let busy = daemon.advance_apply(apply, ApplyEvent::Reconfigured(Err(CoreError::Busy("reload".into()))));
    assert!(matches!(
        busy.step,
        ApplyStep::Done(Err((IpcErrorCode::RuntimeBusy, message))) if message == "runtime is busy: reload"
    ));
    let (apply, _) = going_on(begin(&mut daemon, new));
    let (apply, _) = going_on(daemon.advance_apply(apply, ApplyEvent::Reconfigured(Ok(()))).step);
    let (_, action) = going_on(daemon.advance_apply(apply, ApplyEvent::Saved(Err("full".into()))).step);
    assert!(matches!(action, ApplyAction::Reconfigure { recognizer: RecognizerChange::Unavailable, .. }));
}

fn first(plan: Plan<f32>) -> Control<f32> {
    assert!(plan.next.is_none());
    plan.first.unwrap()
}

#[test]
fn microphone_messages_drive_the_runtime() {
    let mut daemon = Daemon::new(config());
    let wake = daemon.pipeline_message::<f32>(PipelineMessage::WakeWord(16_000));
    assert!(matches!(wake.first, Some(Control::BeginCapture)));
    assert!(matches!(wake.next, Some(Control::BeginStream(16_000))));
    assert!(wake.next_needs_success);
    let speech = daemon.pipeline_message::<f32>(PipelineMessage::Speech(16_000));
    assert!(matches!(speech.first, Some(Control::BeginSpeech)));
    let silence = daemon.pipeline_message::<f32>(PipelineMessage::CaptureUnavailable(
        TranscriptUnavailableReason::Silence,
    ));
    assert!(matches!(silence.first, Some(Control::Publish(_))));
    assert!(matches!(silence.next, Some(Control::CancelCapture)));
    assert!(!silence.next_needs_success);
    assert!(matches!(
        first(daemon.pipeline_message(PipelineMessage::StreamChunk(vec![0.5]))),
        Control::PushStream(samples) if samples == [0.5]
    ));
    assert!(matches!(
        first(daemon.pipeline_message(PipelineMessage::AudioLevel(Real32::from_bits(0)))),
        Control::Publish(AssistantEvent::AudioLevel { .. })
    ));
    assert!(matches!(
        first(daemon.pipeline_message(PipelineMessage::AudioError("lost".into()))),
        Control::Recover { component, message } if component == "audio" && message == "lost"
    ));
    assert_eq!(daemon.last_error().unwrap(), "lost");
}

#[test]
fn only_news_about_the_device_are_published() {
    let mut daemon = Daemon::new(config());
    let device = AudioDeviceInfo { id: "a".into(), name: "a".into(), is_default: true };
    let mut tell = |device: Option<AudioDeviceInfo>| {
        daemon.pipeline_message::<f32>(PipelineMessage::AudioDeviceChanged(device)).first.is_some()
    };
    assert!(tell(None));
    assert!(!tell(None));
    assert!(tell(Some(device.clone())));
    assert!(!tell(Some(device)));
}

#[test]
fn refused_requests_have_no_effect() {
    let mut daemon = Daemon::new(config());
    refusal(ask(&mut daemon, CoreRequest::CancelModelInstall));
    refusal(ask(&mut daemon, CoreRequest::BeginCapture));
    refusal(ask(&mut daemon, CoreRequest::EndCapture));
    assert_eq!(daemon.manual(), ManualCapture::Idle);
    assert!(!daemon.model_cancelled() && !daemon.loading_cancelled());
}
