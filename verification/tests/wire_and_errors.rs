use sidecar_broker::codec::{decode_line, frame_request, LINE_END};
use sidecar_broker::error::BrokerError;
use sidecar_broker::event::{ExitInfo, WorkerEvent};

#[test]
fn request_line_is_payload_then_newline() {
    assert_eq!(LINE_END, b'\n');
    assert_eq!(frame_request("ping"), b"ping\n".to_vec());
    assert_eq!(frame_request(""), b"\n".to_vec());
    assert_eq!(frame_request("{\"cmd\":\"list\"}"), b"{\"cmd\":\"list\"}\n".to_vec());
}

#[test]
fn request_line_carries_the_payload_as_utf8() {
    assert_eq!(frame_request("\u{e9}"), vec![0xc3, 0xa9, 0x0a]);
    assert_eq!(frame_request("a\nb"), b"a\nb\n".to_vec());
}

#[test]
fn response_line_that_is_text_decodes_to_it() {
    assert_eq!(decode_line(b"pong".to_vec()), Ok("pong".to_string()));
    assert_eq!(decode_line(Vec::new()), Ok(String::new()));
    assert_eq!(decode_line(vec![0xc3, 0xa9]), Ok("\u{e9}".to_string()));
    assert_eq!(decode_line(b"line\n".to_vec()), Ok("line\n".to_string()));
}

#[test]
fn response_line_that_is_no_text_is_a_decode_failure() {
    assert_eq!(
        decode_line(vec![0xff]),
        Err(BrokerError::DecodeFailure(
            "invalid utf-8 sequence of 1 bytes from index 0".to_string()
        ))
    );
    assert_eq!(
        decode_line(vec![b'a', 0xc3]),
        Err(BrokerError::DecodeFailure(
            "incomplete utf-8 byte sequence from index 1".to_string()
        ))
    );
}

#[test]
fn error_messages() {
    assert_eq!(BrokerError::SpawnFailure("no such file".to_string()).message(), "no such file");
    assert_eq!(BrokerError::WriteFailure("broken pipe".to_string()).message(), "broken pipe");
    assert_eq!(BrokerError::DecodeFailure("bad bytes".to_string()).message(), "bad bytes");
    assert_eq!(BrokerError::BackendTerminated.message(), "Backend terminated unexpectedly");
    assert_eq!(BrokerError::NoResponse.message(), "No response from backend");
}

#[test]
fn errors_that_lose_the_worker() {
    assert!(BrokerError::SpawnFailure(String::new()).loses_worker());
    assert!(BrokerError::BackendTerminated.loses_worker());
    assert!(BrokerError::NoResponse.loses_worker());
    assert!(!BrokerError::WriteFailure(String::new()).loses_worker());
    assert!(!BrokerError::DecodeFailure(String::new()).loses_worker());
}

#[test]
fn events_that_end_the_wait() {
    assert!(WorkerEvent::OutputLine(Vec::new()).settles());
    assert!(WorkerEvent::Terminated(ExitInfo { code: Some(0), signal: None }).settles());
    assert!(!WorkerEvent::ErrorLine(b"x".to_vec()).settles());
    assert!(!WorkerEvent::Other.settles());
}
