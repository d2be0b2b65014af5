//! Versioned requests and responses: envelopes, framing, and what either side makes of a message.

use crate::config::{ConfigView, CoreConfig};
use crate::domain::{
    AssistantEvent, AssistantState, AudioDeviceInfo, DeviceView, EventView, HealthSnapshot, HealthView, ModelStatus,
    ModelStatusView, PROTOCOL_VERSION,
};
use crate::handlers::{HandlerSchema, SchemaView};
use crate::metrics::MetricsSnapshot;
use crate::number::{decimal, hexadecimal, hexadecimal_injective, push_decimal, push_hexadecimal};
use crate::text::{same_text, views};
use crate::validation::{is_pipe_name, pipe_name_valid};
use vstd::prelude::*;

verus! {

/// Largest message in bytes.
pub const MAX_MESSAGE_BYTES: usize = 1_048_576;

/// Most connections served at the same time.
pub const MAX_PIPE_INSTANCES: usize = 16;

/// Versioned request, response or event frame.
#[derive(Debug, Clone)]
pub struct Envelope<T> {
    /// Must equal [`PROTOCOL_VERSION`].
    pub protocol_version: u16,
    /// Caller-generated identifier echoed by the response.
    pub request_id: String,
    /// Typed frame body.
    pub payload: T,
}

impl<T> Envelope<T> {
    /// Wraps a payload using the current protocol version.
    pub fn new(request_id: String, payload: T) -> (envelope: Self)
        ensures
            envelope.protocol_version == PROTOCOL_VERSION,
            envelope.request_id@ == request_id@,
            envelope.payload == payload,
    {
        Envelope { protocol_version: PROTOCOL_VERSION, request_id, payload }
    }

    /// Whether an envelope answers a request of the current protocol.
    pub open spec fn answers(self, request_id: Seq<char>) -> bool {
        self.protocol_version == PROTOCOL_VERSION && self.request_id@ == request_id
    }
}

/// Versioned requests accepted by the core IPC server.
#[derive(Debug)]
pub enum CoreRequest {
    /// Reads only the current runtime state.
    GetStatus,
    /// Reads readiness, versions and last recoverable error.
    GetHealth,
    /// Reads the active configuration.
    GetConfig,
    /// Validates without changing runtime or disk.
    ValidateConfig {
        /// Candidate configuration.
        config: CoreConfig,
    },
    /// Validates, differentially reconfigures idle runtime and atomically persists.
    ApplyConfig {
        /// Candidate configuration.
        config: CoreConfig,
    },
    /// Lists current Windows input devices.
    ListAudioDevices,
    /// Reads a point-in-time operational metrics snapshot.
    GetMetrics,
    /// Lists command-handler capability contracts installed in the daemon.
    ListHandlers,
    /// Reads durable model lifecycle status.
    GetModelStatus,
    /// Starts pinned model installation if none is active.
    InstallModel,
    /// Requests cooperative cancellation of active installation or STT loading.
    CancelModelInstall,
    /// Verifies the installed pinned revision and activates it when possible.
    VerifyModel,
    /// Pauses listening.
    SuspendListening,
    /// Resumes listening.
    ResumeListening,
    /// Turns the capture of every utterance on or off.
    SetContinuousRecognition {
        /// Whether every utterance is transcribed.
        enabled: bool,
    },
    /// Starts microphone capture without requiring the wake word.
    BeginCapture,
    /// Stops manual capture and submits audio that meets the configured minimum duration.
    EndCapture,
    /// Matches validated application text through the same command policy as recognized speech.
    SubmitText {
        /// Command phrase without a required wake-word prefix.
        text: String,
    },
    /// Executes the invocation addressed by a one-time token.
    ConfirmCommand {
        /// Token from `confirmation_required`.
        confirmation_id: String,
    },
    /// Cancels the invocation addressed by a one-time token.
    CancelCommand {
        /// Token from `confirmation_required`.
        confirmation_id: String,
    },
    /// Switches the connection to event-only streaming after `Accepted`.
    SubscribeEvents,
    /// Requests daemon and runtime shutdown.
    Shutdown,
}

/// Versioned responses and event frames returned by the core IPC server.
#[derive(Debug)]
pub enum CoreResponse {
    /// Response to `get_status`.
    Status {
        /// Current runtime state.
        state: AssistantState,
    },
    /// Response to `get_health`.
    Health {
        /// Current readiness and compatibility snapshot.
        health: HealthSnapshot,
    },
    /// Response to `get_config`.
    Config {
        /// Active configuration.
        config: CoreConfig,
    },
    /// Response to `list_audio_devices`.
    AudioDevices {
        /// Current input devices.
        devices: Vec<AudioDeviceInfo>,
    },
    /// Response to `get_metrics`.
    Metrics {
        /// Point-in-time counters and process usage.
        metrics: MetricsSnapshot,
    },
    /// Response to `list_handlers`.
    Handlers {
        /// Installed handler schemas sorted by stable name.
        handlers: Vec<HandlerSchema>,
    },
    /// Response to `get_model_status`.
    ModelStatus {
        /// Durable model lifecycle status.
        status: ModelStatus,
    },
    /// Mutation accepted or event subscription established.
    Accepted,
    /// Typed request failure.
    Error {
        /// Stable machine-readable category.
        code: IpcErrorCode,
        /// User-visible diagnostic text.
        message: String,
    },
    /// Event-only subscription frame.
    Event {
        /// Ordered runtime or model event.
        event: AssistantEvent,
    },
}

/// What a [`CoreResponse`] says.
pub enum ResponseView {
    /// Response to `get_status`.
    Status { state: AssistantState },
    /// Response to `get_health`.
    Health { health: HealthView },
    /// Response to `get_config`.
    Config { config: ConfigView },
    /// Response to `list_audio_devices`.
    AudioDevices { devices: Seq<DeviceView> },
    /// Response to `get_metrics`.
    Metrics { metrics: MetricsSnapshot },
    /// Response to `list_handlers`.
    Handlers { handlers: Seq<SchemaView> },
    /// Response to `get_model_status`.
    ModelStatus { status: ModelStatusView },
    /// Mutation accepted or event subscription established.
    Accepted,
    /// Typed request failure.
    Error { code: IpcErrorCode, message: Seq<char> },
    /// Event-only subscription frame.
    Event { event: EventView },
}

impl View for CoreResponse {
    type V = ResponseView;

    open spec fn view(&self) -> ResponseView {
        match self {
            CoreResponse::Status { state } => ResponseView::Status { state: *state },
            CoreResponse::Health { health } => ResponseView::Health { health: health@ },
            CoreResponse::Config { config } => ResponseView::Config { config: config@ },
            CoreResponse::AudioDevices { devices } => ResponseView::AudioDevices {
                devices: views(devices@),
            },
            CoreResponse::Metrics { metrics } => ResponseView::Metrics { metrics: *metrics },
            CoreResponse::Handlers { handlers } => ResponseView::Handlers {
                handlers: views(handlers@),
            },
            CoreResponse::ModelStatus { status } => ResponseView::ModelStatus { status: status@ },
            CoreResponse::Accepted => ResponseView::Accepted,
            CoreResponse::Error { code, message } => ResponseView::Error {
                code: *code,
                message: message@,
            },
            CoreResponse::Event { event } => ResponseView::Event { event: event@ },
        }
    }
}

/// Stable IPC error category.
#[derive(Debug, Clone, Copy, PartialEq, Eq, Structural)]
pub enum IpcErrorCode {
    /// Malformed or unsupported request.
    InvalidRequest,
    /// Envelope protocol version does not match.
    ProtocolVersion,
    /// Configuration failed parsing, migration or validation.
    Configuration,
    /// Audio device operation failed.
    Audio,
    /// Model operation failed.
    Model,
    /// Runtime cannot accept the operation in its current state.
    RuntimeBusy,
    /// Confirmation token operation failed.
    Confirmation,
    /// Unexpected server failure.
    Internal,
}

/// The name of an error category.
pub open spec fn code_name(code: IpcErrorCode) -> Seq<char> {
    match code {
        IpcErrorCode::InvalidRequest => "InvalidRequest"@,
        IpcErrorCode::ProtocolVersion => "ProtocolVersion"@,
        IpcErrorCode::Configuration => "Configuration"@,
        IpcErrorCode::Audio => "Audio"@,
        IpcErrorCode::Model => "Model"@,
        IpcErrorCode::RuntimeBusy => "RuntimeBusy"@,
        IpcErrorCode::Confirmation => "Confirmation"@,
        IpcErrorCode::Internal => "Internal"@,
    }
}

impl IpcErrorCode {
    /// The name of an error category.
    pub fn name(self) -> (name: &'static str)
        ensures
            name@ == code_name(self),
    {
        match self {
            IpcErrorCode::InvalidRequest => "InvalidRequest",
            IpcErrorCode::ProtocolVersion => "ProtocolVersion",
            IpcErrorCode::Configuration => "Configuration",
            IpcErrorCode::Audio => "Audio",
            IpcErrorCode::Model => "Model",
            IpcErrorCode::RuntimeBusy => "RuntimeBusy",
            IpcErrorCode::Confirmation => "Confirmation",
            IpcErrorCode::Internal => "Internal",
        }
    }
}

/// Typed client failures suitable for application retry policy.
#[derive(Debug, Clone, PartialEq, Eq)]
pub enum IpcClientError {
    /// Pipe connection or framed I/O failed.
    Io(String),
    /// Response version or request identifier does not match.
    Protocol,
    /// Server returned a typed failure.
    Server {
        /// Stable server error category.
        code: IpcErrorCode,
        /// Server diagnostic text.
        message: String,
    },
    /// Response variant is invalid for the operation.
    UnexpectedResponse,
}

/// What an [`IpcClientError`] says.
pub enum ClientErrorView {
    /// Pipe connection or framed I/O failed.
    Io(Seq<char>),
    /// Response version or request identifier does not match.
    Protocol,
    /// Server returned a typed failure.
    Server { code: IpcErrorCode, message: Seq<char> },
    /// Response variant is invalid for the operation.
    UnexpectedResponse,
}

impl View for IpcClientError {
    type V = ClientErrorView;

    open spec fn view(&self) -> ClientErrorView {
        match self {
            IpcClientError::Io(message) => ClientErrorView::Io(message@),
            IpcClientError::Protocol => ClientErrorView::Protocol,
            IpcClientError::Server { code, message } => ClientErrorView::Server {
                code: *code,
                message: message@,
            },
            IpcClientError::UnexpectedResponse => ClientErrorView::UnexpectedResponse,
        }
    }
}

impl ClientErrorView {
    /// The message that describes the error.
    pub open spec fn message(self) -> Seq<char> {
        match self {
            ClientErrorView::Io(message) => "IPC I/O failed: "@ + message,
            ClientErrorView::Protocol => "IPC response protocol or request id does not match"@,
            ClientErrorView::Server { code, message } => "IPC server returned "@ + code_name(code)
                + ": "@ + message,
            ClientErrorView::UnexpectedResponse => "IPC server returned an unexpected response"@,
        }
    }
}

impl IpcClientError {
    /// The message that describes the error.
    pub fn to_string(&self) -> (text: String)
        ensures
            text@ == self@.message(),
    {
        match self {
            IpcClientError::Io(message) => {
                let mut text = "IPC I/O failed: ".to_owned();
                text.append(message);
                text
            },
            IpcClientError::Protocol =>
                "IPC response protocol or request id does not match".to_owned(),
            IpcClientError::Server { code, message } => {
                let mut text = "IPC server returned ".to_owned();
                text.append(code.name());
                text.append(": ");
                text.append(message);
                text
            },
            IpcClientError::UnexpectedResponse =>
                "IPC server returned an unexpected response".to_owned(),
        }
    }
}

/// A message that cannot be framed.
#[derive(Debug, Clone, Copy, PartialEq, Eq, Structural)]
pub enum FrameError {
    /// The announced size is zero or too large.
    Size,
}

impl FrameError {
    /// The message that describes the error.
    pub fn to_string(&self) -> (text: String)
        ensures
            text@ == "IPC message size is invalid"@,
    {
        "IPC message size is invalid".to_owned()
    }
}

/// The number that four bytes stand for, the least significant first.
pub open spec fn little_endian(bytes: Seq<u8>) -> int {
    bytes[0] + 0x100 * bytes[1] + 0x1_0000 * bytes[2] + 0x100_0000 * bytes[3]
}

/// The four bytes that stand for a number, as far as thirty-two bits go.
pub open spec fn size_bytes(size: nat) -> Seq<u8> {
    seq![
        (size % 0x100) as u8,
        (size / 0x100 % 0x100) as u8,
        (size / 0x1_0000 % 0x100) as u8,
        (size / 0x100_0000 % 0x100) as u8,
    ]
}

/// Whether a message may have a size.
pub open spec fn size_valid(size: int) -> bool {
    1 <= size <= MAX_MESSAGE_BYTES
}

/// Writes the size that precedes a message.
pub fn frame_header(size: usize) -> (header: Vec<u8>)
    ensures
        header@ == size_bytes(size as nat),
{
    let size: u64 = size as u64;
    vec![
        (size % 0x100) as u8,
        (size / 0x100 % 0x100) as u8,
        (size / 0x1_0000 % 0x100) as u8,
        (size / 0x100_0000 % 0x100) as u8,
    ]
}

/// Writes a message with the size that precedes it.
pub fn frame(message: &Vec<u8>) -> (bytes: Vec<u8>)
    ensures
        bytes@ == size_bytes(message@.len()) + message@,
{
    let mut bytes = frame_header(message.len());
    bytes.extend_from_slice(message.as_slice());
    assert(bytes@ =~= size_bytes(message@.len()) + message@);
    bytes
}

/// Reads the size that precedes a message.
pub fn message_size(header: &Vec<u8>) -> (size: Result<usize, FrameError>)
    requires
        header@.len() == 4,
    ensures
        match size {
            Ok(size) => size == little_endian(header@) && size_valid(size as int),
            Err(error) => error is Size && !size_valid(little_endian(header@)),
        },
{
    let size: u32 = header[0] as u32 + 0x100 * header[1] as u32 + 0x1_0000 * header[2] as u32
        + 0x100_0000 * header[3] as u32;
    if size == 0 || size > MAX_MESSAGE_BYTES as u32 {
        return Err(FrameError::Size);
    }
    Ok(size as usize)
}

/// What was written as a message of a valid size is read as that message: the announced size is
/// its own, and the bytes behind the size are its bytes.
pub proof fn frames_round_trip(message: Seq<u8>)
    requires
        size_valid(message.len() as int),
    ensures
        ({
            let bytes = size_bytes(message.len()) + message;
            &&& little_endian(bytes.take(4)) == message.len()
            &&& bytes.skip(4) == message
        }),
{
    let bytes = size_bytes(message.len()) + message;
    assert(bytes.take(4) =~= size_bytes(message.len()));
    assert(bytes.skip(4) =~= message);
}

/// The identifier of a client's request.
pub open spec fn client_request_id(sequence: u64) -> Seq<char> {
    "client-"@ + hexadecimal(sequence as nat, 16)
}

/// Requests of one client have different identifiers.
pub proof fn request_ids_are_distinct(first: u64, second: u64)
    requires
        client_request_id(first) == client_request_id(second),
    ensures
        first == second,
{
    let left = hexadecimal(first as nat, 16);
    let right = hexadecimal(second as nat, 16);
    let start = "client-"@.len() as int;
    assert(client_request_id(first).skip(start) =~= left);
    assert(client_request_id(second).skip(start) =~= right);
    assert(vstd::arithmetic::power::pow(16, 16) == 0x1_0000_0000_0000_0000) by {
        reveal_with_fuel(vstd::arithmetic::power::pow, 17);
    }
    hexadecimal_injective(first as nat, second as nat, 16);
}

/// The path of a named pipe.
pub open spec fn pipe_path_of(name: Seq<char>) -> Seq<char> {
    "\\\\.\\pipe\\"@ + name
}

/// Writes the path of a named pipe.
pub fn pipe_path(name: &str) -> (path: String)
    ensures
        path@ == pipe_path_of(name@),
{
    let mut path = "\\\\.\\pipe\\".to_owned();
    path.append(name);
    path
}

/// Milliseconds between two attempts to connect.
pub const CONNECTION_RETRY_MS: u64 = 25;

/// Decides on a connection that failed: how long to wait before the next attempt, or that the time
/// is over. Both times are in nanoseconds.
pub fn retry_connection(now: u64, deadline: u128) -> (wait_ms: Option<u64>)
    ensures
        wait_ms == if now < deadline {
            Some(CONNECTION_RETRY_MS)
        } else {
            None
        },
{
    if (now as u128) < deadline {
        Some(CONNECTION_RETRY_MS)
    } else {
        None
    }
}

/// Checks the suffix of a named pipe.
pub fn validate_pipe_name(pipe_name: &str) -> (result: Result<(), IpcClientError>)
    ensures
        match result {
            Ok(_) => pipe_name_valid(pipe_name@),
            Err(error) => !pipe_name_valid(pipe_name@) && error@ == ClientErrorView::Io(
                "invalid pipe name"@,
            ),
        },
{
    if is_pipe_name(pipe_name) {
        Ok(())
    } else {
        Err(IpcClientError::Io("invalid pipe name".to_owned()))
    }
}

/// Request side of the stable IPC contract.
#[derive(Debug)]
pub struct CoreIpcClient {
    /// Suffix of the named pipe.
    pub pipe_name: String,
    /// Longest time that one read or write may take.
    pub io_timeout_ms: u64,
    /// Number of the next request.
    pub sequence: u64,
}

impl CoreIpcClient {
    /// Creates a client for a pipe suffix such as `voice-assistant-core`.
    pub fn new(pipe_name: String, io_timeout_ms: u64) -> (client: Result<Self, IpcClientError>)
        ensures
            match client {
                Ok(client) => pipe_name_valid(pipe_name@) && client.pipe_name@ == pipe_name@
                    && client.io_timeout_ms == io_timeout_ms && client.sequence == 0,
                Err(error) => !pipe_name_valid(pipe_name@) && error@ == ClientErrorView::Io(
                    "invalid pipe name"@,
                ),
            },
    {
        match validate_pipe_name(&pipe_name) {
            Ok(_) => Ok(CoreIpcClient { pipe_name, io_timeout_ms, sequence: 0 }),
            Err(error) => Err(error),
        }
    }

    /// Numbers one request.
    pub fn next_request_id(&mut self) -> (request_id: String)
        ensures
            request_id@ == client_request_id(old(self).sequence),
            final(self).sequence == (old(self).sequence + 1) % 0x1_0000_0000_0000_0000,
            final(self).pipe_name == old(self).pipe_name,
            final(self).io_timeout_ms == old(self).io_timeout_ms,
    {
        let mut request_id = "client-".to_owned();
        push_hexadecimal(&mut request_id, self.sequence, 16);
        self.sequence = self.sequence.wrapping_add(1);
        request_id
    }
}

/// Checks that an envelope answers a request.
pub fn validate_response<T>(response: &Envelope<T>, request_id: &str) -> (result: Result<
    (),
    IpcClientError,
>)
    ensures
        match result {
            Ok(_) => response.answers(request_id@),
            Err(error) => !response.answers(request_id@) && error@ == ClientErrorView::Protocol,
        },
{
    if response.protocol_version != PROTOCOL_VERSION || !same_text(
        response.request_id.as_str(),
        request_id,
    ) {
        return Err(IpcClientError::Protocol);
    }
    Ok(())
}

/// What a client makes of the answer to a request.
pub open spec fn answer_of(response: Envelope<CoreResponse>, request_id: Seq<char>) -> Result<
    ResponseView,
    ClientErrorView,
> {
    if !response.answers(request_id) {
        Err(ClientErrorView::Protocol)
    } else {
        match response.payload@ {
            ResponseView::Error { code, message } => Err(ClientErrorView::Server { code, message }),
            payload => Ok(payload),
        }
    }
}

/// Takes the answer to a request.
pub fn take_answer(response: Envelope<CoreResponse>, request_id: &str) -> (answer: Result<
    CoreResponse,
    IpcClientError,
>)
    ensures
        match answer {
            Ok(payload) => answer_of(response, request_id@) == Ok::<_, ClientErrorView>(payload@),
            Err(error) => answer_of(response, request_id@) == Err::<ResponseView, _>(error@),
        },
{
    match validate_response(&response, request_id) {
        Err(error) => Err(error),
        Ok(_) => match response.payload {
            CoreResponse::Error { code, message } => Err(IpcClientError::Server { code, message }),
            payload => Ok(payload),
        },
    }
}

/// Takes the answer to a subscription: anything but an acceptance is unexpected.
pub fn take_subscription(response: Envelope<CoreResponse>, request_id: &str) -> (result: Result<
    (),
    IpcClientError,
>)
    ensures
        match result {
            Ok(_) => response.answers(request_id@) && response.payload is Accepted,
            Err(error) => error@ == if !response.answers(request_id@) {
                ClientErrorView::Protocol
            } else {
                ClientErrorView::UnexpectedResponse
            } && !(response.answers(request_id@) && response.payload is Accepted),
        },
{
    match validate_response(&response, request_id) {
        Err(error) => Err(error),
        Ok(_) => match response.payload {
            CoreResponse::Accepted => Ok(()),
            _ => Err(IpcClientError::UnexpectedResponse),
        },
    }
}

/// What a subscriber makes of a frame.
pub open spec fn event_of(response: Envelope<CoreResponse>, request_id: Seq<char>) -> Result<
    EventView,
    ClientErrorView,
> {
    if !response.answers(request_id) {
        Err(ClientErrorView::Protocol)
    } else {
        match response.payload@ {
            ResponseView::Event { event } => Ok(event),
            ResponseView::Error { code, message } => Err(ClientErrorView::Server { code, message }),
            _ => Err(ClientErrorView::UnexpectedResponse),
        }
    }
}

/// Takes one frame of a subscription.
pub fn take_event(response: Envelope<CoreResponse>, request_id: &str) -> (event: Result<
    AssistantEvent,
    IpcClientError,
>)
    ensures
        match event {
            Ok(event) => event_of(response, request_id@) == Ok::<_, ClientErrorView>(event@),
            Err(error) => event_of(response, request_id@) == Err::<EventView, _>(error@),
        },
{
    match validate_response(&response, request_id) {
        Err(error) => Err(error),
        Ok(_) => match response.payload {
            CoreResponse::Event { event } => Ok(event),
            CoreResponse::Error { code, message } => Err(IpcClientError::Server { code, message }),
            _ => Err(IpcClientError::UnexpectedResponse),
        },
    }
}

/// What a server makes of a request.
pub enum Dispatch {
    /// It is refused.
    Refuse(Envelope<CoreResponse>),
    /// The connection turns into a subscription after the acceptance.
    Subscribe {
        /// The acceptance.
        acceptance: Envelope<CoreResponse>,
        /// The identifier that every event carries.
        request_id: String,
    },
    /// It is handled, and the response carries the identifier.
    Handle {
        /// The identifier.
        request_id: String,
        /// What is asked for.
        request: CoreRequest,
    },
}

/// The message for a protocol version that is not spoken.
pub open spec fn version_message(version: u16) -> Seq<char> {
    "unsupported protocol version "@ + decimal(version as nat) + "; expected "@ + decimal(
        PROTOCOL_VERSION as nat,
    )
}

/// Decides what a server does with a request.
pub fn dispatch(request: Envelope<CoreRequest>) -> (decision: Dispatch)
    ensures
        match decision {
            Dispatch::Refuse(response) => {
                &&& request.protocol_version != PROTOCOL_VERSION
                &&& response.answers(request.request_id@)
                &&& response.payload@ == ResponseView::Error {
                    code: IpcErrorCode::ProtocolVersion,
                    message: version_message(request.protocol_version),
                }
            },
            Dispatch::Subscribe { acceptance, request_id } => {
                &&& request.protocol_version == PROTOCOL_VERSION
                &&& request.payload is SubscribeEvents
                &&& acceptance.answers(request.request_id@)
                &&& acceptance.payload is Accepted
                &&& request_id@ == request.request_id@
            },
            Dispatch::Handle { request_id, request: payload } => {
                &&& request.protocol_version == PROTOCOL_VERSION
                &&& request.payload !is SubscribeEvents
                &&& request_id@ == request.request_id@
                &&& payload == request.payload
            },
        },
{
    if request.protocol_version != PROTOCOL_VERSION {
        let mut message = "unsupported protocol version ".to_owned();
        push_decimal(&mut message, request.protocol_version as u64);
        message.append("; expected ");
        push_decimal(&mut message, PROTOCOL_VERSION as u64);
        return Dispatch::Refuse(
            Envelope::new(
                request.request_id,
                CoreResponse::Error { code: IpcErrorCode::ProtocolVersion, message },
            ),
        );
    }
    match request.payload {
        CoreRequest::SubscribeEvents => Dispatch::Subscribe {
            acceptance: Envelope::new(request.request_id.clone(), CoreResponse::Accepted),
            request_id: request.request_id,
        },
        payload => Dispatch::Handle { request_id: request.request_id, request: payload },
    }
}

/// Tells a subscriber that it was too slow for some events.
pub fn lag_response(skipped: u64) -> (response: CoreResponse)
    ensures
        response@ == (ResponseView::Error {
            code: IpcErrorCode::Internal,
            message: "event subscriber missed "@ + decimal(skipped as nat) + " events"@,
        }),
{
    let mut message = "event subscriber missed ".to_owned();
    push_decimal(&mut message, skipped);
    message.append(" events");
    CoreResponse::Error { code: IpcErrorCode::Internal, message }
}

/// What a server sends under the identifier of a request its client takes: the payload of a
/// response, a failure as such, and an event of a subscription as that event.
pub proof fn responses_reach_the_client(response: Envelope<CoreResponse>, request_id: Seq<char>)
    requires
        response.answers(request_id),
    ensures
        response.payload !is Error ==> answer_of(response, request_id) == Ok::<_, ClientErrorView>(
            response.payload@,
        ),
        response.payload matches CoreResponse::Error { code, message } ==> answer_of(
            response,
            request_id,
        ) == Err::<ResponseView, _>(ClientErrorView::Server { code, message: message@ }),
        response.payload matches CoreResponse::Event { event } ==> event_of(response, request_id)
            == Ok::<_, ClientErrorView>(event@),
{
}

/// The size of a message takes four bytes, the least significant first; messages hold from one byte to
/// one mebibyte.
pub proof fn sizes_are_little_endian(size: nat, header: Seq<u8>)
    requires
        header.len() == 4,
    ensures
        size_bytes(size).len() == 4,
        size < 0x1_0000_0000 ==> size_bytes(size)[0] + 256 * size_bytes(size)[1] + 65_536 * size_bytes(
            size,
        )[2] + 16_777_216 * size_bytes(size)[3] == size,
        little_endian(header) == header[0] + 256 * header[1] + 65_536 * header[2] + 16_777_216
            * header[3],
        size_valid(size as int) <==> 1 <= size && size <= 1_048_576,
{
    assert(size == size % 0x100 + 0x100 * (size / 0x100));
    assert(size / 0x1_0000 == size / 0x100 / 0x100);
    assert(size / 0x100_0000 == size / 0x1_0000 / 0x100);
    assert(size / 0x100 == size / 0x100 % 0x100 + 0x100 * (size / 0x1_0000));
    assert(size / 0x1_0000 == size / 0x1_0000 % 0x100 + 0x100 * (size / 0x100_0000));
}

/// A client takes only what speaks its protocol and bears the identifier of its request.
pub proof fn foreign_responses_are_refused(response: Envelope<CoreResponse>, request_id: Seq<char>)
    ensures
        response.answers(request_id) <==> response.protocol_version == 7 && response.request_id@
            == request_id,
        !(response.protocol_version == 7 && response.request_id@ == request_id) ==> answer_of(
            response,
            request_id,
        ) == Err::<ResponseView, _>(ClientErrorView::Protocol) && event_of(response, request_id) == Err::<
            EventView,
            _,
        >(ClientErrorView::Protocol),
        response.payload !is Event && response.payload !is Error ==> event_of(response, request_id)
            is Err,
{
}

/// Requests are named by the client and a number of sixteen hexadecimal digits; a pipe is found below
/// the pipes of this machine, under its name.
pub proof fn names_stand_behind_their_prefixes(sequence: u64, name: Seq<char>)
    ensures
        client_request_id(sequence).len() == 23,
        client_request_id(sequence).take(7) == "client-"@,
        pipe_path_of(name).take(9) == "\\\\.\\pipe\\"@,
        pipe_path_of(name).skip(9) == name,
{
    reveal_strlit("client-");
    reveal_strlit("\\\\.\\pipe\\");
    hexadecimal_width(sequence as nat, 16);
    assert(client_request_id(sequence).take(7) =~= "client-"@);
    assert(pipe_path_of(name).take(9) =~= "\\\\.\\pipe\\"@);
    assert(pipe_path_of(name).skip(9) =~= name);
}

proof fn hexadecimal_width(value: nat, width: nat)
    ensures
        hexadecimal(value, width).len() == width,
    decreases width,
{
    if width > 0 {
        hexadecimal_width(value / 16, (width - 1) as nat);
    }
}

/// Error categories have different names.
pub proof fn error_categories_are_told_apart(a: IpcErrorCode, b: IpcErrorCode)
    ensures
        code_name(a) == code_name(b) ==> a == b,
{
    reveal_strlit("InvalidRequest");
    reveal_strlit("ProtocolVersion");
    reveal_strlit("Configuration");
    reveal_strlit("Audio");
    reveal_strlit("Model");
    reveal_strlit("RuntimeBusy");
    reveal_strlit("Confirmation");
    reveal_strlit("Internal");
    assert("Audio"@[0] == 'A' && "Model"@[0] == 'M');
    assert("InvalidRequest"@.len() == 14 && "ProtocolVersion"@.len() == 15 && "Configuration"@.len() == 13);
    assert("RuntimeBusy"@.len() == 11 && "Confirmation"@.len() == 12 && "Internal"@.len() == 8);
    assert("Audio"@.len() == 5 && "Model"@.len() == 5);
    if code_name(a) == code_name(b) {
        assert(code_name(a).len() == code_name(b).len());
        assert(code_name(a)[0] == code_name(b)[0]);
    }
}

/// What a client reports ends with what the server or the system said.
pub proof fn client_errors_tell_the_cause(code: IpcErrorCode, cause: Seq<char>)
    ensures
        ({
            let failed = ClientErrorView::Io(cause).message();
            let refused = ClientErrorView::Server { code, message: cause }.message();
            &&& failed.len() >= cause.len() && failed.skip(failed.len() - cause.len()) == cause
            &&& refused.len() >= cause.len() && refused.skip(refused.len() - cause.len()) == cause
        }),
{
    let failed = ClientErrorView::Io(cause).message();
    let refused = ClientErrorView::Server { code, message: cause }.message();
    assert(failed.skip(failed.len() - cause.len()) =~= cause);
    assert(refused.skip(refused.len() - cause.len()) =~= cause);
}

} // verus!
