//! Envelopes, framing and both sides of a connection.

use assistant_core::domain::{AssistantEvent, AssistantState, TranscriptUnavailableReason, PROTOCOL_VERSION};
use assistant_core::ipc::{
    dispatch, frame, frame_header, lag_response, message_size, pipe_path, retry_connection, take_answer, take_event,
    take_subscription, validate_pipe_name, CoreIpcClient, CoreRequest, CoreResponse, Dispatch, Envelope, FrameError, IpcClientError,
    IpcErrorCode, MAX_MESSAGE_BYTES,
};

#[test]
fn envelopes_carry_the_current_protocol() {
    let message = Envelope::new("42".to_string(), CoreRequest::GetStatus);
    assert_eq!(message.protocol_version, PROTOCOL_VERSION);
    assert_eq!(message.request_id, "42");
    assert_eq!(PROTOCOL_VERSION, 7);
}

#[test]
fn pipe_names_are_restricted() {
    assert!(validate_pipe_name("voice-assistant-core").is_ok());
    assert!(validate_pipe_name(r"..\other").is_err());
    assert!(validate_pipe_name("").is_err());
    assert_eq!(pipe_path("voice-assistant-core"), r"\\.\pipe\voice-assistant-core");
}

#[test]
fn connections_are_retried_until_the_time_is_over() {
    assert_eq!(retry_connection(0, 1), Some(25));
    assert_eq!(retry_connection(999, 1_000), Some(25));
    assert_eq!(retry_connection(1_000, 1_000), None);
    assert_eq!(retry_connection(u64::MAX, u128::from(u64::MAX) + 1), Some(25));
    assert_eq!(retry_connection(0, 0), None);
}

#[test]
fn frames_announce_their_size() {
    let message = vec![7u8; 300];
    let bytes = frame(&message);
    assert_eq!(bytes[..4], [44, 1, 0, 0]);
    assert_eq!(message_size(&bytes[..4].to_vec()), Ok(300));
    assert_eq!(bytes[4..], message[..]);
    assert_eq!(message_size(&frame_header(MAX_MESSAGE_BYTES)), Ok(MAX_MESSAGE_BYTES));
    assert_eq!(message_size(&frame_header(MAX_MESSAGE_BYTES + 1)), Err(FrameError::Size));
    assert_eq!(message_size(&frame_header(0)), Err(FrameError::Size));
    assert_eq!(FrameError::Size.to_string(), "IPC message size is invalid");
}

#[test]
fn clients_number_their_requests() {
    let mut client = CoreIpcClient::new("voice-assistant-core".into(), 30_000).unwrap();
    assert_eq!(client.next_request_id(), "client-0000000000000000");
    client.sequence = 0x1f;
    assert_eq!(client.next_request_id(), "client-000000000000001f");
    assert_eq!(client.sequence, 0x20);
    let refused = CoreIpcClient::new("a b".into(), 1).err().unwrap();
    assert_eq!(refused.to_string(), "IPC I/O failed: invalid pipe name");
}

#[test]
fn servers_speak_one_protocol_version() {
    let mut request = Envelope::new("a".to_string(), CoreRequest::GetStatus);
    request.protocol_version += 1;
    match dispatch(request) {
        Dispatch::Refuse(response) => {
            assert_eq!(response.request_id, "a");
            match response.payload {
                CoreResponse::Error { code, message } => {
                    assert_eq!(code, IpcErrorCode::ProtocolVersion);
                    assert_eq!(message, "unsupported protocol version 8; expected 7");
                }
                _ => panic!("an error was expected"),
            }
        }
        _ => panic!("a refusal was expected"),
    }
}

#[test]
fn servers_dispatch_requests() {
    match dispatch(Envelope::new("b".to_string(), CoreRequest::SubscribeEvents)) {
        Dispatch::Subscribe { acceptance, request_id } => {
            assert_eq!(request_id, "b");
            assert!(take_subscription(acceptance, "b").is_ok());
        }
        _ => panic!("a subscription was expected"),
    }
    match dispatch(Envelope::new("c".to_string(), CoreRequest::GetMetrics)) {
        Dispatch::Handle { request_id, request } => {
            assert_eq!(request_id, "c");
            assert!(matches!(request, CoreRequest::GetMetrics));
        }
        _ => panic!("a request was expected"),
    }
}

#[test]
fn clients_check_answers() {
    let status = CoreResponse::Status { state: AssistantState::Suspended };
    let answer = take_answer(Envelope::new("1".to_string(), status), "1").unwrap();
    assert!(matches!(answer, CoreResponse::Status { state: AssistantState::Suspended }));
    let foreign = take_answer(Envelope::new("1".to_string(), CoreResponse::Accepted), "2").unwrap_err();
    assert_eq!(foreign, IpcClientError::Protocol);
    let failure = CoreResponse::Error { code: IpcErrorCode::Audio, message: "no device".into() };
    let refused = take_answer(Envelope::new("1".to_string(), failure), "1").unwrap_err();
    assert_eq!(refused.to_string(), "IPC server returned Audio: no device");
    let odd = take_subscription(
        Envelope::new("1".to_string(), CoreResponse::Status { state: AssistantState::Starting }),
        "1",
    )
    .unwrap_err();
    assert_eq!(odd.to_string(), "IPC server returned an unexpected response");
    assert_eq!(
        IpcClientError::Protocol.to_string(),
        "IPC response protocol or request id does not match"
    );
}

#[test]
fn subscribers_read_events() {
    let event = AssistantEvent::TranscriptUnavailable { reason: TranscriptUnavailableReason::Silence };
    let frame = Envelope::new("s".to_string(), CoreResponse::Event { event: event.clone() });
    assert_eq!(take_event(frame, "s").unwrap(), event);
    match take_event(Envelope::new("s".to_string(), lag_response(3)), "s") {
        Err(IpcClientError::Server { code, message }) => {
            assert_eq!(code, IpcErrorCode::Internal);
            assert_eq!(message, "event subscriber missed 3 events");
        }
        _ => panic!("a server failure was expected"),
    }
    assert_eq!(
        take_event(Envelope::new("s".to_string(), CoreResponse::Accepted), "s").unwrap_err(),
        IpcClientError::UnexpectedResponse
    );
}
