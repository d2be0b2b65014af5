//! The command pipeline, pumped by hand: every outside answer is given where it is asked for.

use assistant_core::commands::CommandRegistry;
use assistant_core::config::{CommandActionConfig, CommandConfig, PolicyConfig, RiskLevel};
use assistant_core::domain::{
    AssistantEvent, AssistantState, CommandParameters, CommandResult, ConfirmationCancelReason, CoreError, CoreErrorCode,
    Transcript, TranscriptUnavailableReason, TranscriptionRequest,
};
use assistant_core::metrics::CoreMetrics;
use assistant_core::runtime::{
    ExecutionEvent, RecognizerRecovery, Runtime, RuntimeUpdate, Step, StreamPush, StreamStart, TranscriptionOutcome,
};
use assistant_core::service::{spawn_runtime_service, stopped, Control, Reaction, RuntimeComponents};
use assistant_core::stt::{MockRecognizer, UnavailableRecognizer};
use assistant_core::text_map::TextMap;

const MILLI: u64 = 1_000_000;

/// What the handlers of a test do.
enum Executor {
    Succeeds,
    Fails,
    Hangs,
}

/// Runs a command to its end; gives the names of the handlers that were called and the outcome.
fn run(
    runtime: &mut Runtime,
    first: Result<Step, CoreError>,
    executor: &Executor,
    now: &mut u64,
) -> (Vec<String>, Result<(), CoreError>) {
    let mut called = Vec::new();
    let mut next = first;
    loop {
        match next {
            Err(error) => return (called, Err(error)),
            Ok(Step::Done) => return (called, Ok(())),
            Ok(Step::Wait { delay_ms, execution }) => {
                *now += delay_ms * MILLI;
                next = runtime.resume_execution(execution, ExecutionEvent::Waited, *now);
            }
            Ok(Step::Call { handler, parameters, execution }) => {
                called.push(handler);
                assert!(parameters.get("_command_id").is_some());
                let event = match executor {
                    Executor::Succeeds => ExecutionEvent::Completed(CommandResult { message: "ok".into() }),
                    Executor::Fails => ExecutionEvent::Failed(CoreError::Command("failed".into())),
                    Executor::Hangs => ExecutionEvent::TimedOut,
                };
                next = runtime.resume_execution(execution, event, *now);
            }
        }
    }
}

fn command(risk: RiskLevel) -> CommandConfig {
    let mut parameters = TextMap::new();
    parameters.insert("executable".to_string(), "notepad.exe".to_string());
    CommandConfig {
        id: "test".into(),
        enabled: true,
        phrases: vec!["открой блокнот".into()],
        slots: TextMap::new(),
        handler: "launch_app".into(),
        risk,
        requires_confirmation: false,
        timeout_ms: 1_000,
        parameters,
        actions: Vec::new(),
    }
}

fn started(commands: Vec<CommandConfig>, wake_word: &str, policy: PolicyConfig) -> Runtime {
    let mut runtime = Runtime::new(
        CommandRegistry::new(commands, true),
        wake_word.into(),
        policy,
        1_000,
        10,
        CoreMetrics::default(),
    );
    runtime.start().unwrap();
    runtime
}

fn heard(text: &str) -> TranscriptionOutcome {
    let request = TranscriptionRequest { samples: vec![0.0f32], sample_rate: 16_000 };
    match (MockRecognizer { text: text.into() }).transcribe(&request) {
        Ok(transcript) => TranscriptionOutcome::Transcribed(transcript),
        Err(error) => TranscriptionOutcome::Failed(error),
    }
}

/// Captures a command and hands the recognizer's answer to the runtime.
fn command_audio(
    runtime: &mut Runtime,
    outcome: TranscriptionOutcome,
    executor: &Executor,
    now: &mut u64,
) -> (Vec<String>, Result<(), CoreError>) {
    let transcription = match runtime.process_command_audio() {
        Ok(transcription) => transcription,
        Err(error) => return (Vec::new(), Err(error)),
    };
    let step = runtime.finish_captured_speech(transcription.session_id, true, outcome, 5, *now);
    run(runtime, step, executor, now)
}

#[test]
fn high_risk_command_can_run_with_confirmations_disabled() {
    let mut now = 0;
    let policy = PolicyConfig { confirmations_enabled: false, ..PolicyConfig::default() };
    let mut runtime = started(vec![command(RiskLevel::High)], "ассистент", policy);
    let (calls, result) =
        command_audio(&mut runtime, heard("ассистент открой блокнот"), &Executor::Succeeds, &mut now);
    result.unwrap();
    assert_eq!(runtime.state(), AssistantState::Cooldown);
    runtime.complete_cooldown().unwrap();
    assert_eq!(calls.len(), 1);
}

#[test]
fn submitted_text_uses_matching_and_command_policy_without_stt() {
    let mut now = 0;
    let mut runtime = started(vec![command(RiskLevel::Low)], "ассистент", PolicyConfig::default());
    let step = runtime.process_text("открой блокнот".into(), now);
    let (calls, result) = run(&mut runtime, step, &Executor::Succeeds, &mut now);
    result.unwrap();
    assert_eq!(calls.len(), 1);
    assert_eq!(runtime.state(), AssistantState::Cooldown);
}

#[test]
fn non_wake_speech_is_transcribed_without_executing() {
    let mut now = 0;
    let mut runtime = started(vec![command(RiskLevel::Low)], "assistant", PolicyConfig::default());
    runtime.start_speech_capture(false).unwrap();
    let transcription = runtime.process_captured_speech().unwrap();
    let step =
        runtime.finish_captured_speech(transcription.session_id, false, heard("открой блокнот"), 5, now);
    let (calls, result) = run(&mut runtime, step, &Executor::Succeeds, &mut now);
    result.unwrap();

    assert_eq!(calls.len(), 0);
    assert_eq!(runtime.state(), AssistantState::IdleListening);
    let session_events: Vec<_> = runtime
        .take_events()
        .into_iter()
        .filter_map(|event| match event {
            AssistantEvent::SpeechStarted { session_id } => Some(("start", session_id)),
            AssistantEvent::SpeechEnded { session_id } => Some(("end", session_id)),
            AssistantEvent::TranscriptFinal { session_id, .. } => Some(("final", session_id)),
            _ => None,
        })
        .collect();
    assert_eq!(session_events, [("start", 1), ("end", 1), ("final", 1)]);
}

#[test]
fn command_actions_execute_in_order_with_delays() {
    let mut sequenced = command(RiskLevel::Low);
    sequenced.handler.clear();
    sequenced.parameters = TextMap::new();
    sequenced.actions = vec![
        CommandActionConfig { handler: "first".into(), delay_ms: 0, parameters: TextMap::new() },
        CommandActionConfig { handler: "second".into(), delay_ms: 20, parameters: TextMap::new() },
    ];
    let phrase = sequenced.phrases[0].clone();
    let mut runtime = started(vec![sequenced], "assistant", PolicyConfig::default());
    let mut now = 7;
    let step = runtime.process_text(phrase, now);
    let (calls, result) = run(&mut runtime, step, &Executor::Succeeds, &mut now);
    result.unwrap();
    assert_eq!(calls, ["first", "second"]);
    assert!(now - 7 >= 20 * MILLI);
}

#[test]
fn unavailable_model_emits_transcript_reason() {
    let mut now = 0;
    let mut runtime = started(Vec::new(), "assistant", PolicyConfig::default());
    let request = TranscriptionRequest { samples: vec![0.0f32], sample_rate: 16_000 };
    let refused = (UnavailableRecognizer { message: "model missing".into() }).transcribe(&request);
    let outcome = TranscriptionOutcome::Failed(refused.unwrap_err());
    assert!(command_audio(&mut runtime, outcome, &Executor::Succeeds, &mut now).1.is_err());
    assert!(runtime.take_events().contains(&AssistantEvent::TranscriptUnavailable {
        reason: TranscriptUnavailableReason::ModelUnavailable
    }));
}

#[test]
fn empty_recognizer_output_is_reported_as_silence() {
    let mut now = 0;
    let mut runtime = started(Vec::new(), "assistant", PolicyConfig::default());
    command_audio(&mut runtime, heard("  "), &Executor::Succeeds, &mut now).1.unwrap();
    assert!(runtime.take_events().contains(&AssistantEvent::TranscriptUnavailable {
        reason: TranscriptUnavailableReason::Silence
    }));
}

#[test]
fn manual_capture_can_return_to_idle_without_transcription() {
    let mut runtime = started(Vec::new(), "ассистент", PolicyConfig::default());
    runtime.start_manual_capture().unwrap();
    assert_eq!(runtime.state(), AssistantState::CapturingCommand);
    runtime.cancel_capture().unwrap();
    assert_eq!(runtime.state(), AssistantState::IdleListening);
}

#[test]
fn confirmation_waits_for_matching_command_id() {
    let mut now = 0;
    let mut runtime = started(vec![command(RiskLevel::High)], "ассистент", PolicyConfig::default());
    let (calls, result) = command_audio(&mut runtime, heard("открой блокнот"), &Executor::Succeeds, &mut now);
    result.unwrap();
    assert_eq!(calls.len(), 0);
    assert_eq!(runtime.state(), AssistantState::AwaitingConfirmation);
    assert!(runtime.confirm_command("wrong", now).is_err());
    let confirmation_id = runtime.pending_confirmation_id().unwrap().to_string();
    let step = runtime.confirm_command(&confirmation_id, now);
    let (calls, result) = run(&mut runtime, step, &Executor::Succeeds, &mut now);
    result.unwrap();
    assert_eq!(runtime.state(), AssistantState::Cooldown);
    assert_eq!(calls.len(), 1);
}

#[test]
fn confirmation_tokens_work_once_and_expire() {
    let mut now = 0;
    let mut runtime = started(vec![command(RiskLevel::High)], "ассистент", PolicyConfig::default());
    command_audio(&mut runtime, heard("открой блокнот"), &Executor::Succeeds, &mut now).1.unwrap();
    let token = runtime.pending_confirmation_id().unwrap().to_string();
    now += PolicyConfig::default().confirmation_timeout_ms * MILLI + 1;
    assert!(runtime.expire_confirmation(now).unwrap());
    assert!(runtime.take_events().contains(&AssistantEvent::ConfirmationCancelled {
        command_id: "test".into(),
        confirmation_id: token.clone(),
        reason: ConfirmationCancelReason::Expired,
    }));
    assert!(matches!(runtime.confirm_command(&token, now), Err(CoreError::Confirmation(_))));
}

#[test]
fn pending_command_can_be_confirmed_by_voice() {
    let mut now = 0;
    let mut runtime = started(vec![command(RiskLevel::High)], "ассистент", PolicyConfig::default());
    command_audio(&mut runtime, heard("открой блокнот"), &Executor::Succeeds, &mut now).1.unwrap();
    runtime.start_command_capture().unwrap();
    let transcription = runtime.process_captured_audio().unwrap();
    let step = runtime.finish_captured_speech(transcription.session_id, true, heard("да"), 5, now);
    let (calls, result) = run(&mut runtime, step, &Executor::Succeeds, &mut now);
    result.unwrap();
    assert_eq!(calls.len(), 1);
    assert_eq!(runtime.state(), AssistantState::Cooldown);
}

#[test]
fn pending_command_is_not_confirmed_without_a_wake_word() {
    let mut now = 0;
    let mut runtime = started(vec![command(RiskLevel::High)], "ассистент", PolicyConfig::default());
    command_audio(&mut runtime, heard("открой блокнот"), &Executor::Succeeds, &mut now).1.unwrap();
    let token = runtime.pending_confirmation_id().map(str::to_owned);
    for words in ["да", "нет"] {
        runtime.take_events();
        runtime.start_speech_capture(false).unwrap();
        let transcription = runtime.process_captured_speech().unwrap();
        let step = runtime.finish_captured_speech(transcription.session_id, false, heard(words), 5, now);
        let (calls, result) = run(&mut runtime, step, &Executor::Succeeds, &mut now);
        result.unwrap();
        assert_eq!(calls.len(), 0);
        assert_eq!(runtime.state(), AssistantState::AwaitingConfirmation);
        assert_eq!(runtime.pending_confirmation_id().map(str::to_owned), token);
        let events = runtime.take_events();
        assert!(events.iter().any(|event| matches!(event, AssistantEvent::TranscriptFinal { .. })));
        assert!(!events.iter().any(|event| matches!(event, AssistantEvent::CommandStarted { .. })));
    }
    runtime.start_speech_capture(true).unwrap();
    let transcription = runtime.process_captured_speech().unwrap();
    let step = runtime.finish_captured_speech(transcription.session_id, true, heard("да"), 5, now);
    let (calls, result) = run(&mut runtime, step, &Executor::Succeeds, &mut now);
    result.unwrap();
    assert_eq!(calls.len(), 1);
}

#[test]
fn changed_partial_transcript_is_published_once() {
    let mut runtime = started(Vec::new(), "ассистент", PolicyConfig::default());
    runtime.start_command_capture().unwrap();
    runtime.begin_transcription_stream().unwrap();
    runtime.finish_stream_start(StreamStart::Started(true)).unwrap();
    for _ in 0..2 {
        let partial = Transcript { text: "открой".into(), confidence: None };
        runtime.push_transcription_stream(StreamPush::Accepted(Some(partial))).unwrap();
    }
    let partials: Vec<_> = runtime
        .take_events()
        .into_iter()
        .filter_map(|event| match event {
            AssistantEvent::TranscriptPartial { session_id, .. } => Some(session_id),
            _ => None,
        })
        .collect();
    assert_eq!(partials, [1]);
}

#[test]
fn handler_rate_limit_rejects_repeated_start() {
    let mut now = 0;
    let policy = PolicyConfig { handler_rate_limit_ms: 60_000, ..PolicyConfig::default() };
    let mut runtime = started(vec![command(RiskLevel::Low)], "ассистент", policy);
    let step = runtime.process_text("открой блокнот".into(), now);
    let (first, result) = run(&mut runtime, step, &Executor::Succeeds, &mut now);
    result.unwrap();
    runtime.complete_cooldown().unwrap();
    let step = runtime.process_text("открой блокнот".into(), now);
    let (second, result) = run(&mut runtime, step, &Executor::Succeeds, &mut now);
    assert!(result.is_err());
    assert_eq!(first.len() + second.len(), 1);
}

#[test]
fn handler_circuit_opens_after_consecutive_failures() {
    let mut now = 0;
    let mut calls = 0;
    let policy = PolicyConfig { handler_failure_threshold: 2, ..PolicyConfig::default() };
    let mut runtime = started(vec![command(RiskLevel::Low)], "ассистент", policy);
    for _ in 0..3 {
        let step = runtime.process_text("открой блокнот".into(), now);
        let (called, result) = run(&mut runtime, step, &Executor::Fails, &mut now);
        assert!(result.is_err());
        calls += called.len();
    }
    assert_eq!(calls, 2);
}

#[test]
fn recognition_failure_recovers_to_idle() {
    let mut now = 0;
    let mut runtime = started(vec![command(RiskLevel::Low)], "ассистент", PolicyConfig::default());
    let broken = TranscriptionOutcome::Failed(CoreError::Recognition("broken".into()));
    assert!(command_audio(&mut runtime, broken, &Executor::Succeeds, &mut now).1.is_err());
    assert_eq!(runtime.state(), AssistantState::IdleListening);
}

#[test]
fn streaming_stt_starts_during_capture_and_finishes_without_batch_fallback() {
    let mut now = 0;
    let mut runtime = started(vec![command(RiskLevel::Low)], "ассистент", PolicyConfig::default());
    runtime.start_command_capture().unwrap();
    runtime.begin_transcription_stream().unwrap();
    runtime.finish_stream_start(StreamStart::Started(true)).unwrap();
    assert!(runtime.is_streaming());
    runtime.push_transcription_stream(StreamPush::Accepted(None)).unwrap();
    let transcription = runtime.process_captured_audio().unwrap();
    assert!(transcription.finish_stream);
    let outcome = TranscriptionOutcome::Transcribed(Transcript {
        text: "открой блокнот".into(),
        confidence: None,
    });
    let step = runtime.finish_captured_speech(transcription.session_id, true, outcome, 5, now);
    let (calls, result) = run(&mut runtime, step, &Executor::Succeeds, &mut now);
    result.unwrap();
    assert_eq!(calls.len(), 1);
}

#[test]
fn handler_timeout_recovers_to_idle() {
    let mut now = 0;
    let mut timed = command(RiskLevel::Low);
    timed.timeout_ms = 1;
    let mut runtime = started(vec![timed], "ассистент", PolicyConfig::default());
    assert!(command_audio(&mut runtime, heard("открой блокнот"), &Executor::Hangs, &mut now).1.is_err());
    assert_eq!(runtime.state(), AssistantState::IdleListening);
    assert_eq!(runtime.metrics().snapshot().recoverable_errors, 1);
}

#[test]
fn stt_timeout_recovers_to_idle() {
    let mut now = 0;
    let mut runtime = started(vec![command(RiskLevel::Low)], "ассистент", PolicyConfig::default());
    let late = TranscriptionOutcome::TimedOut(RecognizerRecovery::Restarted);
    assert!(command_audio(&mut runtime, late, &Executor::Succeeds, &mut now).1.is_err());
    assert_eq!(runtime.state(), AssistantState::IdleListening);
}

#[test]
fn captured_slots_fill_the_parameters() {
    let mut volume = command(RiskLevel::Low);
    volume.phrases = vec!["громкость {level}".into()];
    volume.handler = "set_volume".into();
    volume.parameters = TextMap::new();
    volume.parameters.insert("level".to_string(), "{level}".to_string());
    volume.slots.insert(
        "level".to_string(),
        assistant_core::config::SlotConfig {
            value_type: assistant_core::config::SlotType::Integer,
            min: Some(0),
            max: Some(100),
            values: Vec::new(),
        },
    );
    let mut runtime = started(vec![volume], "ассистент", PolicyConfig::default());
    match runtime.process_text("Громкость 035".into(), 0).ok().unwrap() {
        Step::Call { handler, parameters, .. } => {
            assert_eq!(handler, "set_volume");
            assert_eq!(parameters.get("level").unwrap(), "35");
            assert_eq!(parameters.get("_command_id").unwrap(), "test");
        }
        _ => panic!("a handler call was expected"),
    }
}

#[test]
fn errors_have_stable_categories() {
    let mut runtime = started(Vec::new(), "ассистент", PolicyConfig::default());
    assert_eq!(runtime.process_text(" ".into(), 0).err().unwrap().code(), CoreErrorCode::Command);
    assert_eq!(runtime.start().unwrap_err().code(), CoreErrorCode::InvalidState);
    assert_eq!(runtime.start_manual_capture(), Ok(()));
    assert_eq!(runtime.process_captured_speech().is_ok(), true);
    let busy = RuntimeUpdate {
        commands: None,
        wake_words: None,
        policy: None,
        stt_timeout_ms: Some(5),
        cooldown_ms: None,
    };
    assert_eq!(runtime.reconfigure_partial(busy).unwrap_err().code(), CoreErrorCode::Busy);
    assert_eq!(runtime.confirm_command("none", 0).err().unwrap().code(), CoreErrorCode::Confirmation);
    assert_eq!(stopped().code(), CoreErrorCode::Unavailable);
    assert_eq!(stopped().to_string(), "component is unavailable: runtime service stopped");
    assert_eq!(CoreError::Recognition("x".into()).code(), CoreErrorCode::Recognition);
}

#[test]
fn state_reads_do_not_queue_behind_the_runtime() {
    let runtime = started(Vec::new(), "assistant", PolicyConfig::default());
    let mut service = spawn_runtime_service(runtime, 4).ok().unwrap();
    assert_eq!(service.runtime.state(), AssistantState::IdleListening);
    assert!(matches!(service.control::<f32>(Control::BeginCapture, 0), Reaction::Reply(Ok(()))));
    assert_eq!(service.runtime.state(), AssistantState::CapturingCommand);
    assert!(matches!(service.control::<f32>(Control::Shutdown, 0), Reaction::Stop));
    assert_eq!(service.runtime.state(), AssistantState::ShuttingDown);
}

#[test]
fn a_service_needs_a_queue() {
    let runtime = started(Vec::new(), "assistant", PolicyConfig::default());
    assert!(matches!(
        spawn_runtime_service(runtime, 0),
        Err(CoreError::Unavailable(message)) if message == "runtime control queue capacity must be greater than zero"
    ));
}

#[test]
fn cooldown_ends_after_its_time() {
    let mut now = 0;
    let mut runtime = started(vec![command(RiskLevel::Low)], "ассистент", PolicyConfig::default());
    let step = runtime.process_text("открой блокнот".into(), now);
    run(&mut runtime, step, &Executor::Succeeds, &mut now).1.unwrap();
    let mut service = spawn_runtime_service(runtime, 1).ok().unwrap();
    service.tick(100 * MILLI);
    assert_eq!(service.runtime.state(), AssistantState::Cooldown);
    service.tick(110 * MILLI - 1);
    assert_eq!(service.runtime.state(), AssistantState::Cooldown);
    service.tick(110 * MILLI);
    assert_eq!(service.runtime.state(), AssistantState::IdleListening);
}

#[test]
fn controls_reach_the_runtime() {
    let runtime = started(vec![command(RiskLevel::Low)], "ассистент", PolicyConfig::default());
    let mut service = spawn_runtime_service(runtime, 1).ok().unwrap();
    assert!(matches!(service.control::<f32>(Control::Suspend, 0), Reaction::Reply(Ok(()))));
    assert!(matches!(service.control::<f32>(Control::Resume, 0), Reaction::Reply(Ok(()))));
    assert!(matches!(service.control::<f32>(Control::BeginStream(16_000), 0), Reaction::Reply(Err(_))));
    assert!(matches!(service.control(Control::PushStream(vec![0.0f32]), 0), Reaction::Reply(Ok(()))));
    assert!(matches!(service.control::<f32>(Control::BeginSpeech, 0), Reaction::Reply(Ok(()))));
    assert!(matches!(service.control::<f32>(Control::BeginStream(16_000), 0), Reaction::BeginStream(16_000)));
    service.runtime.finish_stream_start(StreamStart::Started(true)).unwrap();
    assert!(matches!(service.control(Control::PushStream(vec![0.5f32]), 0), Reaction::PushStream(_)));
    let request = TranscriptionRequest { samples: vec![0.5f32], sample_rate: 16_000 };
    assert!(matches!(
        service.control(Control::Captured { request, authorized: false }, 0),
        Reaction::Transcribe { authorized: false, .. }
    ));
    service.control::<f32>(Control::Recover { component: "stt".into(), message: "lost".into() }, 0);
    assert_eq!(service.runtime.state(), AssistantState::IdleListening);
    assert!(matches!(
        service.control::<f32>(Control::SubmitText("открой блокнот".into()), 0),
        Reaction::Run(Step::Call { .. })
    ));
}

#[test]
fn components_replace_everything() {
    let runtime = started(vec![command(RiskLevel::Low)], "ассистент", PolicyConfig::default());
    let mut service = spawn_runtime_service(runtime, 1).ok().unwrap();
    let update = RuntimeComponents {
        commands: CommandRegistry::new(Vec::new(), true),
        wake_words: vec!["помощник".into()],
        policy: PolicyConfig::default(),
        stt_timeout_ms: 7,
        cooldown_ms: 8,
    }
    .into_update();
    assert!(matches!(service.control::<f32>(Control::Reconfigure(update), 0), Reaction::Reply(Ok(()))));
    assert_eq!(service.runtime.stt_timeout_ms(), 7);
    assert_eq!(service.runtime.cooldown(), 8);
    let parameters: CommandParameters = TextMap::new();
    assert!(parameters.is_empty());
}

/// Brings a guarded command to its confirmation and gives the token.
fn await_confirmation(runtime: &mut Runtime, now: &mut u64) -> String {
    command_audio(runtime, heard("открой блокнот"), &Executor::Succeeds, now).1.unwrap();
    runtime.pending_confirmation_id().unwrap().to_string()
}

#[test]
fn tokens_are_used_up() {
    let mut now = 0;
    let mut runtime = started(vec![command(RiskLevel::High)], "ассистент", PolicyConfig::default());
    let first = await_confirmation(&mut runtime, &mut now);
    let step = runtime.confirm_command(&first, now);
    run(&mut runtime, step, &Executor::Succeeds, &mut now).1.unwrap();
    assert!(runtime.confirm_command(&first, now).is_err());
    runtime.complete_cooldown().unwrap();
    now += 1_000 * MILLI;
    let second = await_confirmation(&mut runtime, &mut now);
    assert_ne!(first, second);
    assert!(runtime.confirm_command(&first, now).is_err());
    assert_eq!(runtime.state(), AssistantState::AwaitingConfirmation);
    runtime.cancel_command(&second).unwrap();
    assert!(runtime.pending_confirmation_id().is_none());
}

#[test]
fn late_confirmations_run_nothing() {
    let mut now = 0;
    let mut runtime = started(vec![command(RiskLevel::High)], "ассистент", PolicyConfig::default());
    let token = await_confirmation(&mut runtime, &mut now);
    now += PolicyConfig::default().confirmation_timeout_ms * MILLI + 1;
    assert!(matches!(runtime.confirm_command(&token, now), Err(CoreError::Confirmation(_))));
    assert!(runtime.pending_confirmation_id().is_none());
}

#[test]
fn submitted_texts_are_bounded_by_bytes() {
    let mut runtime = started(Vec::new(), "ассистент", PolicyConfig::default());
    assert!(matches!(
        runtime.process_text("я".repeat(2_049), 0),
        Err(CoreError::Command(message)) if message == "submitted text must contain 1..=4096 UTF-8 bytes"
    ));
    assert_eq!(runtime.state(), AssistantState::IdleListening);
    assert!(runtime.process_text("я".repeat(2_048), 0).is_ok());
}

#[test]
fn a_success_forgives_failures_of_its_handler_only() {
    let mut now = 0;
    let policy = PolicyConfig { handler_failure_threshold: 2, ..PolicyConfig::default() };
    let mut other = command(RiskLevel::Low);
    other.id = "other".into();
    other.phrases = vec!["сделай другое".into()];
    other.handler = "open_url".into();
    let mut runtime = started(vec![command(RiskLevel::Low), other], "ассистент", policy);
    let mut say = |text: &str, executor: Executor, now: &mut u64| {
        let step = runtime.process_text(text.into(), *now);
        let outcome = run(&mut runtime, step, &executor, now);
        runtime.complete_cooldown().unwrap();
        outcome
    };
    assert!(say("открой блокнот", Executor::Fails, &mut now).1.is_err());
    assert!(say("открой блокнот", Executor::Succeeds, &mut now).1.is_ok());
    assert!(say("открой блокнот", Executor::Fails, &mut now).1.is_err());
    assert!(say("сделай другое", Executor::Succeeds, &mut now).1.is_ok());
    let (calls, result) = say("открой блокнот", Executor::Fails, &mut now);
    assert!(result.is_err());
    assert_eq!(calls.len(), 1);
    let (calls, result) = say("открой блокнот", Executor::Succeeds, &mut now);
    assert!(result.is_err());
    assert_eq!(calls.len(), 0);
    assert!(say("сделай другое", Executor::Succeeds, &mut now).1.is_ok());
}

#[test]
fn nothing_runs_after_shutdown() {
    let mut runtime = started(vec![command(RiskLevel::Low)], "ассистент", PolicyConfig::default());
    runtime.shutdown().unwrap();
    assert!(runtime.process_text("открой блокнот".into(), 0).is_err());
    assert!(runtime.start_command_capture().is_err());
    assert!(runtime.resume().is_err());
    assert_eq!(runtime.state(), AssistantState::ShuttingDown);
}

#[test]
fn speech_sessions_are_numbered() {
    let mut runtime = started(Vec::new(), "ассистент", PolicyConfig::default());
    for expected in 1..=3 {
        runtime.start_speech_capture(false).unwrap();
        assert!(runtime.start_speech_capture(false).is_err());
        runtime.cancel_capture().unwrap();
        assert!(runtime.take_events().contains(&AssistantEvent::SpeechStarted { session_id: expected }));
    }
}
