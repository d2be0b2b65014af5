//! The daemon's answers to requests.
//!
//! Talking to the runtime, the devices, the disk and the model engine happens outside: a request
//! gives a [`RequestStep`], and what came of it comes back through the daemon's other methods.

use crate::builtins::{builtin_schemas, stock_schemas};
use crate::config::{ConfigErrorView, ConfigView, CoreConfig, CURRENT_CONFIG_VERSION, supported_schema};
use crate::domain::{
    result_view, AssistantEvent, AssistantState, AudioDeviceInfo, CoreError, CoreErrorCode, ErrorView, EventView,
    ModelStatus, TranscriptUnavailableReason,
};
use crate::ipc::{CoreRequest, CoreResponse, IpcErrorCode, ResponseView};
use crate::metrics::MetricsSnapshot;
use crate::number::decimal;
use crate::reload::{stock_error, validate_stock_config};
use crate::runtime::MAX_SUBMITTED_TEXT_BYTES;
use crate::service::Control;
use crate::session::ManualCapture;
use crate::state::{health_of, Daemon, DaemonView};
use crate::text::{blank, is_blank, views};
use crate::text_map::Duplicate;
use vstd::prelude::*;
use vstd::utf8::encode_utf8;

verus! {

/// The category of an error for IPC clients.
pub open spec fn ipc_code(code: CoreErrorCode) -> IpcErrorCode {
    match code {
        CoreErrorCode::InvalidState | CoreErrorCode::Busy => IpcErrorCode::RuntimeBusy,
        CoreErrorCode::Recognition | CoreErrorCode::Unavailable => IpcErrorCode::Model,
        CoreErrorCode::Confirmation => IpcErrorCode::Confirmation,
        CoreErrorCode::Command => IpcErrorCode::Internal,
    }
}

/// The response to a failure of the runtime.
pub open spec fn core_error_response(error: ErrorView) -> ResponseView {
    ResponseView::Error { code: ipc_code(error.category()), message: error.message() }
}

/// Answers with a failure of the runtime.
pub fn core_error(error: &CoreError) -> (response: CoreResponse)
    ensures
        response@ == core_error_response(error@),
{
    let code = match error.code() {
        CoreErrorCode::InvalidState | CoreErrorCode::Busy => IpcErrorCode::RuntimeBusy,
        CoreErrorCode::Recognition | CoreErrorCode::Unavailable => IpcErrorCode::Model,
        CoreErrorCode::Confirmation => IpcErrorCode::Confirmation,
        CoreErrorCode::Command => IpcErrorCode::Internal,
    };
    CoreResponse::Error { code, message: error.to_string() }
}

/// Answers with a failure of a category.
pub fn error_response(code: IpcErrorCode, message: &str) -> (response: CoreResponse)
    ensures
        response@ == (ResponseView::Error { code, message: message@ }),
{
    CoreResponse::Error { code, message: message.to_owned() }
}

/// What the runtime is asked to do for a request.
pub enum Call {
    /// Suspend listening.
    Suspend,
    /// Resume listening.
    Resume,
    /// Capture for an application.
    BeginManualCapture,
    /// Give a capture up.
    CancelCapture,
    /// Match a text.
    SubmitText(String),
    /// Confirm the invocation with a token.
    Confirm(String),
    /// Cancel the invocation with a token.
    Cancel(String),
}

/// What a [`Call`] asks for.
pub enum CallView {
    /// Suspend listening.
    Suspend,
    /// Resume listening.
    Resume,
    /// Capture for an application.
    BeginManualCapture,
    /// Give a capture up.
    CancelCapture,
    /// Match a text.
    SubmitText(Seq<char>),
    /// Confirm the invocation with a token.
    Confirm(Seq<char>),
    /// Cancel the invocation with a token.
    Cancel(Seq<char>),
}

impl View for Call {
    type V = CallView;

    open spec fn view(&self) -> CallView {
        match self {
            Call::Suspend => CallView::Suspend,
            Call::Resume => CallView::Resume,
            Call::BeginManualCapture => CallView::BeginManualCapture,
            Call::CancelCapture => CallView::CancelCapture,
            Call::SubmitText(text) => CallView::SubmitText(text@),
            Call::Confirm(token) => CallView::Confirm(token@),
            Call::Cancel(token) => CallView::Cancel(token@),
        }
    }
}

impl Call {
    /// The control that the runtime takes for a call.
    pub fn into_control<S>(self) -> (control: Control<S>)
        ensures
            match self {
                Call::Suspend => control is Suspend,
                Call::Resume => control is Resume,
                Call::BeginManualCapture => control is BeginManualCapture,
                Call::CancelCapture => control is CancelCapture,
                Call::SubmitText(text) => control == Control::<S>::SubmitText(text),
                Call::Confirm(token) => control == Control::<S>::Confirm(token),
                Call::Cancel(token) => control == Control::<S>::Cancel(token),
            },
    {
        match self {
            Call::Suspend => Control::Suspend,
            Call::Resume => Control::Resume,
            Call::BeginManualCapture => Control::BeginManualCapture,
            Call::CancelCapture => Control::CancelCapture,
            Call::SubmitText(text) => Control::SubmitText(text),
            Call::Confirm(token) => Control::Confirm(token),
            Call::Cancel(token) => Control::Cancel(token),
        }
    }
}

/// What a request waits for.
#[derive(Debug, Clone, Copy, PartialEq, Eq, Structural)]
pub enum Pending {
    /// Listening is suspended.
    Suspend,
    /// Listening is resumed.
    Resume,
    /// A manual capture begins.
    BeginCapture,
    /// A manual capture is given up again.
    AbandonCapture,
    /// A text is matched.
    SubmitText,
    /// An invocation is confirmed or cancelled.
    Answer,
}

/// What follows a request.
pub enum RequestStep {
    /// The answer.
    Reply(CoreResponse),
    /// The runtime is called; its answer goes to [`Daemon::call_finished`].
    Call(Call, Pending),
    /// The input devices are listed; they go to [`devices_response`].
    ListDevices,
    /// Models are installed in the background, and the request is accepted.
    Install,
    /// The configured models are looked for and activated.
    Verify,
    /// A migrated and valid configuration is applied.
    Apply(CoreConfig),
    /// The daemon stops, and the request is accepted.
    Shutdown,
}

/// What a [`RequestStep`] asks for.
pub enum RequestStepView {
    /// The answer.
    Reply(ResponseView),
    /// The runtime is called.
    Call(CallView, Pending),
    /// The input devices are listed.
    ListDevices,
    /// Models are installed.
    Install,
    /// The configured models are activated.
    Verify,
    /// A configuration is applied.
    Apply(ConfigView),
    /// The daemon stops.
    Shutdown,
}

impl View for RequestStep {
    type V = RequestStepView;

    open spec fn view(&self) -> RequestStepView {
        match self {
            RequestStep::Reply(response) => RequestStepView::Reply(response@),
            RequestStep::Call(call, pending) => RequestStepView::Call(call@, *pending),
            RequestStep::ListDevices => RequestStepView::ListDevices,
            RequestStep::Install => RequestStepView::Install,
            RequestStep::Verify => RequestStepView::Verify,
            RequestStep::Apply(config) => RequestStepView::Apply(config@),
            RequestStep::Shutdown => RequestStepView::Shutdown,
        }
    }
}

/// A step together with the events that precede it.
pub struct Handled {
    /// Events to publish, in order.
    pub events: Vec<AssistantEvent>,
    /// What follows.
    pub step: RequestStep,
}

/// The daemon, the events and the step after a request.
pub struct HandledView {
    /// The daemon.
    pub daemon: DaemonView,
    /// Events to publish, in order.
    pub events: Seq<EventView>,
    /// What follows.
    pub step: RequestStepView,
}

/// An answer that a daemon gives at once.
pub open spec fn replies(daemon: DaemonView, response: ResponseView) -> HandledView {
    HandledView { daemon, events: Seq::empty(), step: RequestStepView::Reply(response) }
}

/// A call that a daemon makes.
pub open spec fn calls(daemon: DaemonView, call: CallView, pending: Pending) -> HandledView {
    HandledView { daemon, events: Seq::empty(), step: RequestStepView::Call(call, pending) }
}

/// The failure of a candidate configuration: its schema, or what is wrong with it once migrated.
#[verifier::opaque]
pub open spec fn candidate_error(config: ConfigView) -> Option<Seq<char>> {
    if !supported_schema(config.schema_version as int) {
        Some(
            ConfigErrorView::Validation(
                "unsupported schema_version "@ + decimal(config.schema_version as nat),
            ).message(),
        )
    } else {
        match stock_error(migrated(config)) {
            Some(message) => Some(ConfigErrorView::Validation(message).message()),
            None => None,
        }
    }
}

/// A configuration with the current schema.
pub open spec fn migrated(config: ConfigView) -> ConfigView {
    ConfigView { schema_version: CURRENT_CONFIG_VERSION, ..config }
}

/// Migrates and validates a candidate configuration.
fn check_candidate(config: CoreConfig) -> (checked: Result<CoreConfig, String>)
    ensures
        match (checked, candidate_error(config@)) {
            (Ok(checked), None) => checked@ == migrated(config@),
            (Err(message), Some(expected)) => message@ == expected,
            _ => false,
        },
{
    reveal(candidate_error);
    match config.migrate() {
        Err(error) => Err(error.to_string()),
        Ok(config) => match validate_stock_config(&config) {
            Err(error) => Err(error.to_string()),
            Ok(_) => Ok(config),
        },
    }
}

/// Whether the runtime takes a new configuration.
pub open spec fn reloadable(state: AssistantState) -> bool {
    state is IdleListening || state is Suspended
}

/// Tells whether the runtime takes a new configuration.
pub fn is_reloadable(state: AssistantState) -> (answer: bool)
    ensures
        answer == reloadable(state),
{
    matches!(state, AssistantState::IdleListening | AssistantState::Suspended)
}

impl DaemonView {
    /// The daemon with its cancellation flags raised.
    pub open spec fn stopped(self) -> DaemonView {
        DaemonView { stopping: true, stt_cancel: true, model_cancel: true, ..self }
    }

    /// The request to cancel an installation or the loading of a model.
    pub open spec fn cancel_install(self) -> HandledView {
        if self.model_installing {
            replies(DaemonView { model_cancel: true, ..self }, ResponseView::Accepted)
        } else if self.stt_loading {
            replies(DaemonView { stt_cancel: true, ..self }, ResponseView::Accepted)
        } else {
            replies(
                self,
                ResponseView::Error {
                    code: IpcErrorCode::Model,
                    message: "no model installation or loading is running"@,
                },
            )
        }
    }

    /// The request to begin a manual capture.
    pub open spec fn begin_capture(self) -> HandledView {
        if !self.listening || !self.audio_ready {
            HandledView {
                daemon: self,
                events: if self.model_status is Ready {
                    Seq::empty()
                } else {
                    seq![
                        EventView::TranscriptUnavailable {
                            reason: TranscriptUnavailableReason::ModelUnavailable,
                        },
                    ]
                },
                step: RequestStepView::Reply(
                    ResponseView::Error {
                        code: IpcErrorCode::Audio,
                        message: "audio input is not ready"@,
                    },
                ),
            }
        } else if self.manual !is Idle {
            replies(
                self,
                ResponseView::Error {
                    code: IpcErrorCode::RuntimeBusy,
                    message: "manual capture is already active"@,
                },
            )
        } else {
            calls(
                DaemonView { manual: ManualCapture::Reserving, ..self },
                CallView::BeginManualCapture,
                Pending::BeginCapture,
            )
        }
    }

    /// The request to end a manual capture.
    pub open spec fn end_capture(self) -> HandledView {
        if self.manual is Begin || self.manual is Active || self.manual is Finish {
            replies(DaemonView { manual: ManualCapture::Finish, ..self }, ResponseView::Accepted)
        } else {
            replies(
                self,
                ResponseView::Error {
                    code: IpcErrorCode::RuntimeBusy,
                    message: "manual capture is not active"@,
                },
            )
        }
    }

    /// The request to match a text.
    pub open spec fn submit_text(self, text: Seq<char>) -> HandledView {
        if is_blank(text) || encode_utf8(text).len() > MAX_SUBMITTED_TEXT_BYTES {
            replies(
                self,
                ResponseView::Error {
                    code: IpcErrorCode::InvalidRequest,
                    message: "submitted text must contain 1..=4096 UTF-8 bytes"@,
                },
            )
        } else {
            calls(self, CallView::SubmitText(text), Pending::SubmitText)
        }
    }

    /// The request to apply a configuration, as far as its contents and the runtime decide.
    pub open spec fn apply_request(self, config: ConfigView, state: AssistantState) -> HandledView {
        match candidate_error(config) {
            Some(message) => replies(
                self,
                ResponseView::Error { code: IpcErrorCode::Configuration, message },
            ),
            None => if reloadable(state) {
                HandledView {
                    daemon: self,
                    events: Seq::empty(),
                    step: RequestStepView::Apply(migrated(config)),
                }
            } else {
                replies(
                    self,
                    ResponseView::Error {
                        code: IpcErrorCode::RuntimeBusy,
                        message: "runtime is busy"@,
                    },
                )
            },
        }
    }

    /// What a request leads to.
    pub open spec fn request(
        self,
        request: CoreRequest,
        state: AssistantState,
        metrics: MetricsSnapshot,
    ) -> HandledView {
        match request {
            CoreRequest::GetStatus => replies(self, ResponseView::Status { state }),
            CoreRequest::GetHealth => replies(
                self,
                ResponseView::Health { health: health_of(self, state, metrics) },
            ),
            CoreRequest::GetConfig => replies(self, ResponseView::Config { config: self.config }),
            CoreRequest::ValidateConfig { config } => replies(
                self,
                match candidate_error(config@) {
                    Some(message) => ResponseView::Error {
                        code: IpcErrorCode::Configuration,
                        message,
                    },
                    None => ResponseView::Accepted,
                },
            ),
            CoreRequest::ApplyConfig { config } => self.apply_request(config@, state),
            CoreRequest::ListAudioDevices => HandledView {
                daemon: self,
                events: Seq::empty(),
                step: RequestStepView::ListDevices,
            },
            CoreRequest::GetMetrics => replies(self, ResponseView::Metrics { metrics }),
            CoreRequest::ListHandlers => replies(
                self,
                ResponseView::Handlers { handlers: stock_schemas() },
            ),
            CoreRequest::GetModelStatus => replies(
                self,
                ResponseView::ModelStatus { status: self.model_status },
            ),
            CoreRequest::InstallModel => if self.model_installing {
                replies(
                    self,
                    ResponseView::Error {
                        code: IpcErrorCode::Model,
                        message: "model installation is already running"@,
                    },
                )
            } else {
                HandledView {
                    daemon: self,
                    events: Seq::empty(),
                    step: RequestStepView::Install,
                }
            },
            CoreRequest::CancelModelInstall => self.cancel_install(),
            CoreRequest::VerifyModel => HandledView {
                daemon: self,
                events: Seq::empty(),
                step: RequestStepView::Verify,
            },
            CoreRequest::SuspendListening => calls(self, CallView::Suspend, Pending::Suspend),
            CoreRequest::ResumeListening => calls(self, CallView::Resume, Pending::Resume),
            CoreRequest::SetContinuousRecognition { enabled } => replies(
                DaemonView { continuous: enabled, ..self },
                ResponseView::Accepted,
            ),
            CoreRequest::BeginCapture => self.begin_capture(),
            CoreRequest::EndCapture => self.end_capture(),
            CoreRequest::SubmitText { text } => self.submit_text(text@),
            CoreRequest::ConfirmCommand { confirmation_id } => calls(
                self,
                CallView::Confirm(confirmation_id@),
                Pending::Answer,
            ),
            CoreRequest::CancelCommand { confirmation_id } => calls(
                self,
                CallView::Cancel(confirmation_id@),
                Pending::Answer,
            ),
            CoreRequest::SubscribeEvents => replies(self, ResponseView::Accepted),
            CoreRequest::Shutdown => HandledView {
                daemon: self.stopped(),
                events: Seq::empty(),
                step: RequestStepView::Shutdown,
            },
        }
    }

    /// What the answer of the runtime to a call leads to.
    pub open spec fn call_finished(self, pending: Pending, result: Result<(), ErrorView>) -> HandledView {
        match pending {
            Pending::Suspend => match result {
                Ok(_) => replies(
                    DaemonView { listening: false, ..self },
                    ResponseView::Accepted,
                ),
                Err(error) => replies(self, core_error_response(error)),
            },
            Pending::Resume => match result {
                Ok(_) => replies(DaemonView { listening: true, ..self }, ResponseView::Accepted),
                Err(error) => replies(self, core_error_response(error)),
            },
            Pending::BeginCapture => match result {
                Ok(_) => if self.manual is Reserving {
                    replies(
                        DaemonView { manual: ManualCapture::Begin, ..self },
                        ResponseView::Accepted,
                    )
                } else {
                    calls(self, CallView::CancelCapture, Pending::AbandonCapture)
                },
                Err(error) => replies(
                    DaemonView { manual: ManualCapture::Idle, ..self },
                    core_error_response(error),
                ),
            },
            Pending::AbandonCapture => replies(
                self,
                ResponseView::Error {
                    code: IpcErrorCode::Audio,
                    message: "audio input changed while starting manual capture"@,
                },
            ),
            Pending::SubmitText => match result {
                Ok(_) => replies(self, ResponseView::Accepted),
                Err(error) => replies(self, core_error_response(error)),
            },
            Pending::Answer => match result {
                Ok(_) => replies(self, ResponseView::Accepted),
                Err(error) => replies(
                    self,
                    ResponseView::Error {
                        code: IpcErrorCode::Confirmation,
                        message: error.message(),
                    },
                ),
            },
        }
    }
}

/// Whether a daemon and what it hands out are as expected.
pub open spec fn handled_as(daemon: Daemon, handled: Handled, expected: HandledView) -> bool {
    &&& daemon@ == expected.daemon
    &&& views(handled.events@) == expected.events
    &&& handled.step@ == expected.step
}

/// An answer without events.
fn reply(response: CoreResponse) -> (handled: Handled)
    ensures
        views(handled.events@) == Seq::<EventView>::empty(),
        handled.step@ == RequestStepView::Reply(response@),
{
    let handled = Handled { events: Vec::new(), step: RequestStep::Reply(response) };
    assert(views(handled.events@) =~= Seq::empty());
    handled
}

/// A step without events.
fn proceed(step: RequestStep) -> (handled: Handled)
    ensures
        views(handled.events@) == Seq::<EventView>::empty(),
        handled.step == step,
{
    let handled = Handled { events: Vec::new(), step };
    assert(views(handled.events@) =~= Seq::empty());
    handled
}

/// Answers with input devices, or why they are not known: the audio system failed, or the task
/// that asked it.
pub fn devices_response(devices: Result<Vec<AudioDeviceInfo>, String>, asked: bool) -> (response:
    CoreResponse)
    ensures
        response@ == match devices {
            Ok(devices) => ResponseView::AudioDevices { devices: views(devices@) },
            Err(message) => ResponseView::Error {
                code: if asked {
                    IpcErrorCode::Audio
                } else {
                    IpcErrorCode::Internal
                },
                message: message@,
            },
        },
{
    match devices {
        Ok(devices) => CoreResponse::AudioDevices { devices },
        Err(message) => CoreResponse::Error {
            code: if asked {
                IpcErrorCode::Audio
            } else {
                IpcErrorCode::Internal
            },
            message,
        },
    }
}

impl Daemon {
    /// Takes a request, with the state of the runtime and the metrics of this moment.
    pub fn handle_request(
        &mut self,
        request: CoreRequest,
        state: AssistantState,
        metrics: MetricsSnapshot,
    ) -> (handled: Handled)
        ensures
            handled_as(*final(self), handled, old(self)@.request(request, state, metrics)),
    {
        match request {
            CoreRequest::GetStatus => reply(CoreResponse::Status { state }),
            CoreRequest::GetHealth => reply(
                CoreResponse::Health { health: self.health(state, &metrics) },
            ),
            CoreRequest::GetConfig => reply(
                CoreResponse::Config { config: self.config().duplicate() },
            ),
            CoreRequest::ValidateConfig { config } => match check_candidate(config) {
                Ok(_) => reply(CoreResponse::Accepted),
                Err(message) => reply(error_response(IpcErrorCode::Configuration, &message)),
            },
            CoreRequest::ApplyConfig { config } => match check_candidate(config) {
                Err(message) => reply(error_response(IpcErrorCode::Configuration, &message)),
                Ok(config) => if is_reloadable(state) {
                    proceed(RequestStep::Apply(config))
                } else {
                    reply(error_response(IpcErrorCode::RuntimeBusy, "runtime is busy"))
                },
            },
            CoreRequest::ListAudioDevices => proceed(RequestStep::ListDevices),
            CoreRequest::GetMetrics => reply(CoreResponse::Metrics { metrics }),
            CoreRequest::ListHandlers => reply(
                CoreResponse::Handlers { handlers: builtin_schemas(&self.config().commands) },
            ),
            CoreRequest::GetModelStatus => reply(
                CoreResponse::ModelStatus { status: self.model_status().duplicate() },
            ),
            CoreRequest::InstallModel => if self.installing() {
                reply(
                    error_response(IpcErrorCode::Model, "model installation is already running"),
                )
            } else {
                proceed(RequestStep::Install)
            },
            CoreRequest::CancelModelInstall => if self.installing() {
                self.set_model_cancel(true);
                reply(CoreResponse::Accepted)
            } else if self.loading() {
                self.set_stt_cancel(true);
                reply(CoreResponse::Accepted)
            } else {
                reply(
                    error_response(
                        IpcErrorCode::Model,
                        "no model installation or loading is running",
                    ),
                )
            },
            CoreRequest::VerifyModel => proceed(RequestStep::Verify),
            CoreRequest::SuspendListening => proceed(
                RequestStep::Call(Call::Suspend, Pending::Suspend),
            ),
            CoreRequest::ResumeListening => proceed(
                RequestStep::Call(Call::Resume, Pending::Resume),
            ),
            CoreRequest::SetContinuousRecognition { enabled } => {
                self.set_continuous(enabled);
                reply(CoreResponse::Accepted)
            },
            CoreRequest::BeginCapture => self.begin_capture(),
            CoreRequest::EndCapture => {
                let mut manual = self.manual();
                if manual.end() {
                    self.set_manual(manual);
                    reply(CoreResponse::Accepted)
                } else {
                    reply(
                        error_response(IpcErrorCode::RuntimeBusy, "manual capture is not active"),
                    )
                }
            },
            CoreRequest::SubmitText { text } => if blank(&text) || text.as_str().as_bytes().len()
                > MAX_SUBMITTED_TEXT_BYTES {
                reply(
                    error_response(
                        IpcErrorCode::InvalidRequest,
                        "submitted text must contain 1..=4096 UTF-8 bytes",
                    ),
                )
            } else {
                proceed(RequestStep::Call(Call::SubmitText(text), Pending::SubmitText))
            },
            CoreRequest::ConfirmCommand { confirmation_id } => proceed(
                RequestStep::Call(Call::Confirm(confirmation_id), Pending::Answer),
            ),
            CoreRequest::CancelCommand { confirmation_id } => proceed(
                RequestStep::Call(Call::Cancel(confirmation_id), Pending::Answer),
            ),
            CoreRequest::SubscribeEvents => reply(CoreResponse::Accepted),
            CoreRequest::Shutdown => {
                self.set_stopping(true);
                self.set_stt_cancel(true);
                self.set_model_cancel(true);
                proceed(RequestStep::Shutdown)
            },
        }
    }

    /// Reserves a manual capture where the microphone is ready and no other one is active.
    fn begin_capture(&mut self) -> (handled: Handled)
        ensures
            handled_as(*final(self), handled, old(self)@.begin_capture()),
    {
        if !self.is_listening() || !self.is_audio_ready() {
            let response = error_response(IpcErrorCode::Audio, "audio input is not ready");
            if matches!(self.model_status(), ModelStatus::Ready { .. }) {
                return reply(response);
            }
            let handled = Handled {
                events: vec![
                    AssistantEvent::TranscriptUnavailable {
                        reason: TranscriptUnavailableReason::ModelUnavailable,
                    },
                ],
                step: RequestStep::Reply(response),
            };
            assert(views(handled.events@) =~= self@.begin_capture().events);
            return handled;
        }
        let mut manual = self.manual();
        if !manual.reserve() {
            return reply(
                error_response(IpcErrorCode::RuntimeBusy, "manual capture is already active"),
            );
        }
        self.set_manual(manual);
        proceed(RequestStep::Call(Call::BeginManualCapture, Pending::BeginCapture))
    }

    /// Takes the answer of the runtime to a call.
    pub fn call_finished(&mut self, pending: Pending, result: Result<(), CoreError>) -> (handled: Handled)
        ensures
            handled_as(*final(self), handled, old(self)@.call_finished(pending, result_view(result))),
    {
        match pending {
            Pending::Suspend => match result {
                Ok(_) => {
                    self.set_listening(false);
                    reply(CoreResponse::Accepted)
                },
                Err(error) => reply(core_error(&error)),
            },
            Pending::Resume => match result {
                Ok(_) => {
                    self.set_listening(true);
                    reply(CoreResponse::Accepted)
                },
                Err(error) => reply(core_error(&error)),
            },
            Pending::BeginCapture => match result {
                Ok(_) => {
                    let mut manual = self.manual();
                    if manual.begin() {
                        self.set_manual(manual);
                        reply(CoreResponse::Accepted)
                    } else {
                        proceed(RequestStep::Call(Call::CancelCapture, Pending::AbandonCapture))
                    }
                },
                Err(error) => {
                    self.set_manual(ManualCapture::Idle);
                    reply(core_error(&error))
                },
            },
            Pending::AbandonCapture => reply(
                error_response(
                    IpcErrorCode::Audio,
                    "audio input changed while starting manual capture",
                ),
            ),
            Pending::SubmitText => match result {
                Ok(_) => reply(CoreResponse::Accepted),
                Err(error) => reply(core_error(&error)),
            },
            Pending::Answer => match result {
                Ok(_) => reply(CoreResponse::Accepted),
                Err(error) => reply(
                    error_response(IpcErrorCode::Confirmation, &error.to_string()),
                ),
            },
        }
    }
}

/// A refused request leaves the daemon as it was.
pub proof fn refusals_change_nothing(
    daemon: DaemonView,
    request: CoreRequest,
    state: AssistantState,
    metrics: MetricsSnapshot,
)
    ensures
        daemon.request(request, state, metrics).step matches RequestStepView::Reply(
            ResponseView::Error { .. },
        ) ==> daemon.request(request, state, metrics).daemon == daemon,
{
}

/// At most one manual capture is active: while there is one, no request reaches the runtime to
/// begin another.
pub proof fn manual_captures_exclude_each_other(daemon: DaemonView)
    requires
        daemon.manual !is Idle,
    ensures
        daemon.begin_capture().step is Reply,
        daemon.begin_capture().daemon == daemon,
{
}

} // verus!
