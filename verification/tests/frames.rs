use node_api_client::error::CallError;
use node_api_client::frame::{decode_frame, decode_reply, Frame, Reply};

fn text(s: &str) -> Option<String> {
    Some(s.to_string())
}

#[test]
fn decode_reply_reads_a_string_result() {
    assert_eq!(
        decode_reply("{\"result\":\"0xDEADBEEF\"}"),
        Ok(Reply { result: text("0xDEADBEEF") })
    );
    assert_eq!(
        decode_reply("{\"jsonrpc\":\"2.0\",\"result\":\"\",\"id\":\"1\"}"),
        Ok(Reply { result: text("") })
    );
}

#[test]
fn decode_reply_reads_what_the_document_says_not_the_text() {
    let reply = decode_reply("{\"result\":\"a\\u0041\\n\\\"\"}").unwrap();
    assert_eq!(reply.result, text("aA\n\""));
    let last_wins = decode_reply("{\"result\":\"one\",\"result\":\"two\"}").unwrap();
    assert_eq!(last_wins.result, text("two"));
}

#[test]
fn decode_reply_finds_no_result_where_none_is_a_string() {
    for reply in [
        "{}",
        "{\"result\":null}",
        "{\"result\":12}",
        "{\"result\":true}",
        "{\"result\":[\"0x01\"]}",
        "{\"result\":{\"finalized\":\"0x01\"}}",
        "{\"error\":{\"code\":-1}}",
        "{\"Result\":\"0x01\"}",
        "[\"result\"]",
        "\"result\"",
        "null",
        "17",
    ] {
        assert_eq!(decode_reply(reply), Ok(Reply { result: None }), "{}", reply);
    }
}

#[test]
fn decode_reply_rejects_what_is_no_json() {
    for garbage in ["", " ", "{", "{\"result\":}", "result", "{\"result\":\"x\"} trailing", "{'result':'x'}"] {
        assert_eq!(decode_reply(garbage), Err(CallError::Protocol), "{:?}", garbage);
        assert_eq!(decode_frame(garbage), Err(CallError::Protocol), "{:?}", garbage);
    }
}

#[test]
fn decode_frame_reads_a_reply() {
    let frame = decode_frame("{\"jsonrpc\":\"2.0\",\"result\":7185,\"id\":\"3\"}").unwrap();
    assert_eq!(
        frame,
        Frame {
            id: text("3"),
            error: false,
            method: None,
            status: None,
            finalized: None,
            update_error: false,
        }
    );
}

#[test]
fn decode_frame_reads_an_error_reply() {
    let frame = decode_frame("{\"jsonrpc\":\"2.0\",\"error\":{\"code\":1010},\"id\":\"3\"}").unwrap();
    assert_eq!(frame.id, text("3"));
    assert!(frame.error);
    assert!(!frame.update_error);
    let null_error = decode_frame("{\"error\":null,\"id\":\"3\"}").unwrap();
    assert!(null_error.error);
}

#[test]
fn decode_frame_reads_a_status_notification() {
    let frame = decode_frame(
        "{\"method\":\"author_extrinsicUpdate\",\"params\":{\"subscription\":1,\"result\":\"broadcast\"}}",
    )
    .unwrap();
    assert_eq!(
        frame,
        Frame {
            id: None,
            error: false,
            method: text("author_extrinsicUpdate"),
            status: text("broadcast"),
            finalized: None,
            update_error: false,
        }
    );
}

#[test]
fn decode_frame_reads_a_finalized_notification() {
    let frame = decode_frame(
        "{\"method\":\"author_extrinsicUpdate\",\"params\":{\"result\":{\"finalized\":\"0xBLOCKHASH\"}}}",
    )
    .unwrap();
    assert_eq!(
        frame,
        Frame {
            id: None,
            error: false,
            method: text("author_extrinsicUpdate"),
            status: None,
            finalized: text("0xBLOCKHASH"),
            update_error: false,
        }
    );
}

#[test]
fn decode_frame_reads_an_error_notification() {
    let frame = decode_frame(
        "{\"method\":\"author_extrinsicUpdate\",\"params\":{\"subscription\":1,\"error\":{\"code\":1}}}",
    )
    .unwrap();
    assert!(frame.update_error);
    assert!(!frame.error);
    assert_eq!(frame.status, None);
    assert_eq!(frame.finalized, None);
}

#[test]
fn decode_frame_keeps_members_apart() {
    let numeric_id = decode_frame("{\"id\":3,\"method\":7,\"params\":[\"result\"]}").unwrap();
    assert_eq!(
        numeric_id,
        Frame {
            id: None,
            error: false,
            method: None,
            status: None,
            finalized: None,
            update_error: false,
        }
    );
    let misplaced = decode_frame(
        "{\"result\":\"broadcast\",\"finalized\":\"0x01\",\"params\":{\"finalized\":\"0x02\",\"result\":{\"error\":1}}}",
    )
    .unwrap();
    assert_eq!(misplaced.status, None);
    assert_eq!(misplaced.finalized, None);
    assert!(!misplaced.error);
    assert!(!misplaced.update_error);
}
