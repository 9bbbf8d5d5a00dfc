use node_api_client::action::{Action, Event};
use node_api_client::error::CallError;
use node_api_client::frame::{Frame, Reply};
use node_api_client::getter::{Getter, Phase, EMPTY_RESULT};
use node_api_client::hash::hexstr_to_hash;
use node_api_client::submitter::{Stage, Submitter, REQUEST_SUBMIT, UPDATE_METHOD};

const BLOCK: &str = "0x5f6f1f8a3b0c4d2e9a7b6c5d4e3f201112131415161718191a1b1c1d1e1f2021";

fn text(s: &str) -> Option<String> {
    Some(s.to_string())
}

fn block() -> node_api_client::hash::Hash {
    hexstr_to_hash(BLOCK).unwrap()
}

fn blank() -> Frame {
    Frame { id: None, error: false, method: None, status: None, finalized: None, update_error: false }
}

fn reply_frame(id: &str, error: bool) -> Frame {
    Frame { id: text(id), error, ..blank() }
}

fn update(status: Option<&str>, finalized: Option<&str>, update_error: bool) -> Frame {
    Frame {
        method: text("author_extrinsicUpdate"),
        status: status.map(|s| s.to_string()),
        finalized: finalized.map(|s| s.to_string()),
        update_error,
        ..blank()
    }
}

fn waiting_getter() -> Getter {
    let mut getter = Getter::new("REQUEST".to_string());
    getter.on_open();
    getter
}

fn waiting_submitter() -> Submitter {
    let mut submitter = Submitter::new("REQUEST".to_string());
    submitter.on_open();
    submitter
}

#[test]
fn constants_have_their_wire_values() {
    assert_eq!(EMPTY_RESULT, "0x00");
    assert_eq!(REQUEST_SUBMIT, 3);
    assert_eq!(UPDATE_METHOD, "author_extrinsicUpdate");
}

#[test]
fn getter_sends_its_request_on_open() {
    let mut getter = Getter::new("{\"id\":\"1\"}".to_string());
    assert_eq!(getter.phase(), Phase::Created);
    assert_eq!(getter.request(), "{\"id\":\"1\"}");
    assert_eq!(getter.on_open(), Action::Send("{\"id\":\"1\"}".to_string()));
    assert_eq!(getter.phase(), Phase::AwaitReply);
}

#[test]
fn getter_sends_only_once() {
    let mut getter = waiting_getter();
    assert_eq!(getter.on_open(), Action::Nothing);
    assert_eq!(getter.phase(), Phase::AwaitReply);
    getter.on_message("{\"result\":\"0x01\"}");
    assert_eq!(getter.on_open(), Action::Nothing);
    assert_eq!(getter.phase(), Phase::Done);
}

#[test]
fn getter_returns_the_result_of_the_reply() {
    let mut getter = waiting_getter();
    assert_eq!(
        getter.on_message("{\"result\":\"0xDEADBEEF\"}"),
        Action::Finish(Ok("0xDEADBEEF".to_string()))
    );
    assert_eq!(getter.phase(), Phase::Done);
}

#[test]
fn getter_returns_the_sentinel_without_a_result() {
    for reply in ["{\"result\":null}", "{}", "{\"result\":5}", "{\"error\":{\"code\":1}}"] {
        let mut getter = waiting_getter();
        assert_eq!(getter.on_message(reply), Action::Finish(Ok("0x00".to_string())), "{}", reply);
        assert_eq!(getter.phase(), Phase::Done);
    }
}

#[test]
fn getter_on_reply_takes_what_was_read() {
    let mut getter = waiting_getter();
    assert_eq!(
        getter.on_reply(&Reply { result: text("0x2a") }),
        Action::Finish(Ok("0x2a".to_string()))
    );
    let mut other = waiting_getter();
    assert_eq!(other.on_reply(&Reply { result: None }), Action::Finish(Ok("0x00".to_string())));
}

#[test]
fn getter_fails_on_a_frame_that_is_no_json() {
    let mut getter = waiting_getter();
    assert_eq!(getter.on_message("<html>"), Action::Finish(Err(CallError::Protocol)));
    assert_eq!(getter.phase(), Phase::Done);
    let mut other = waiting_getter();
    assert_eq!(other.on_event(&Event::Garbled), Action::Finish(Err(CallError::Protocol)));
    assert_eq!(other.phase(), Phase::Done);
}

#[test]
fn getter_passes_over_messages_before_open_and_after_done() {
    let mut getter = Getter::new("REQUEST".to_string());
    assert_eq!(getter.on_message("{\"result\":\"0x01\"}"), Action::Nothing);
    assert_eq!(getter.on_message("garbage"), Action::Nothing);
    assert_eq!(getter.on_garbled(), Action::Nothing);
    assert_eq!(getter.phase(), Phase::Created);
    getter.on_open();
    getter.on_message("{\"result\":\"0x01\"}");
    assert_eq!(getter.on_message("{\"result\":\"0x02\"}"), Action::Nothing);
    assert_eq!(getter.on_message("garbage"), Action::Nothing);
    assert_eq!(getter.on_lost(), Action::Nothing);
    assert_eq!(getter.on_expired(), Action::Nothing);
    assert_eq!(getter.phase(), Phase::Done);
}

#[test]
fn getter_gives_up_a_lost_session() {
    let mut unopened = Getter::new("REQUEST".to_string());
    assert_eq!(unopened.on_lost(), Action::Abandon(CallError::Connection));
    assert_eq!(unopened.phase(), Phase::Done);
    let mut waiting = waiting_getter();
    assert_eq!(waiting.on_event(&Event::Lost), Action::Abandon(CallError::Connection));
    assert_eq!(waiting.phase(), Phase::Done);
}

#[test]
fn getter_times_out() {
    let mut unopened = Getter::new("REQUEST".to_string());
    assert_eq!(unopened.on_expired(), Action::Finish(Err(CallError::Timeout)));
    let mut waiting = waiting_getter();
    assert_eq!(waiting.on_event(&Event::Expired), Action::Finish(Err(CallError::Timeout)));
    assert_eq!(waiting.phase(), Phase::Done);
}

#[test]
fn submitter_sends_its_request_on_open() {
    let mut submitter = Submitter::new("SUBMIT".to_string());
    assert_eq!(submitter.stage(), Stage::Created);
    assert_eq!(submitter.request(), "SUBMIT");
    assert_eq!(submitter.on_open(), Action::Send("SUBMIT".to_string()));
    assert_eq!(submitter.stage(), Stage::AwaitAck);
    assert_eq!(submitter.on_open(), Action::Nothing);
    assert_eq!(submitter.stage(), Stage::AwaitAck);
}

#[test]
fn submitter_moves_on_with_the_acknowledgement() {
    let mut submitter = waiting_submitter();
    assert_eq!(submitter.on_frame(&reply_frame("3", false)), Action::Nothing);
    assert_eq!(submitter.stage(), Stage::AwaitFinal);
    assert_eq!(submitter.on_frame(&reply_frame("3", false)), Action::Nothing);
    assert_eq!(submitter.stage(), Stage::AwaitFinal);
}

#[test]
fn submitter_reads_the_identifier_as_a_number() {
    for id in ["3", "+3", "03", "0003", "+003"] {
        let mut submitter = waiting_submitter();
        assert_eq!(submitter.on_frame(&reply_frame(id, true)), Action::Finish(Err(CallError::Node)), "{}", id);
    }
    for id in ["1", "33", "30", "", "+", "-3", " 3", "3 ", "3.0", "three", "0x3", "4294967299", "99999999999999999999993"] {
        let mut submitter = waiting_submitter();
        assert_eq!(submitter.on_frame(&reply_frame(id, true)), Action::Nothing, "{:?}", id);
        assert_eq!(submitter.stage(), Stage::AwaitAck);
    }
}

#[test]
fn submitter_fails_on_a_rejected_submission() {
    let mut submitter = waiting_submitter();
    assert_eq!(submitter.on_frame(&reply_frame("3", true)), Action::Finish(Err(CallError::Node)));
    assert_eq!(submitter.stage(), Stage::Done);
    let mut by_text = waiting_submitter();
    assert_eq!(
        by_text.on_message("{\"jsonrpc\":\"2.0\",\"error\":{\"code\":1010,\"message\":\"bad\"},\"id\":\"3\"}"),
        Action::Finish(Err(CallError::Node))
    );
}

#[test]
fn submitter_passes_over_replies_to_other_requests() {
    let mut submitter = waiting_submitter();
    assert_eq!(submitter.on_frame(&reply_frame("1", true)), Action::Nothing);
    assert_eq!(submitter.on_frame(&reply_frame("4", false)), Action::Nothing);
    let with_update = Frame { id: text("7"), ..update(None, Some(BLOCK), true) };
    assert_eq!(submitter.on_frame(&with_update), Action::Nothing);
    assert_eq!(submitter.stage(), Stage::AwaitAck);
}

#[test]
fn submitter_passes_over_statuses() {
    let mut submitter = waiting_submitter();
    for status in ["ready", "broadcast", "inBlock", "future", ""] {
        assert_eq!(submitter.on_frame(&update(Some(status), None, false)), Action::Nothing);
    }
    assert_eq!(submitter.stage(), Stage::AwaitAck);
    submitter.on_frame(&reply_frame("3", false));
    assert_eq!(submitter.on_frame(&update(Some("broadcast"), None, false)), Action::Nothing);
    assert_eq!(submitter.stage(), Stage::AwaitFinal);
}

#[test]
fn submitter_puts_a_plain_status_before_everything_else() {
    let mut submitter = waiting_submitter();
    assert_eq!(submitter.on_frame(&update(Some("broadcast"), Some(BLOCK), false)), Action::Nothing);
    assert_eq!(submitter.on_frame(&update(Some("broadcast"), None, true)), Action::Nothing);
    assert_eq!(submitter.on_frame(&update(Some("broadcast"), Some(BLOCK), true)), Action::Nothing);
    assert_eq!(submitter.stage(), Stage::AwaitAck);
}

#[test]
fn submitter_resolves_with_the_finalized_hash() {
    let mut submitter = waiting_submitter();
    submitter.on_frame(&reply_frame("3", false));
    assert_eq!(submitter.on_frame(&update(None, Some(BLOCK), false)), Action::Finish(Ok(block())));
    assert_eq!(submitter.stage(), Stage::Done);
}

#[test]
fn submitter_resolves_before_the_acknowledgement_too() {
    let mut submitter = waiting_submitter();
    assert_eq!(submitter.on_frame(&update(None, Some(BLOCK), false)), Action::Finish(Ok(block())));
    assert_eq!(submitter.stage(), Stage::Done);
}

#[test]
fn submitter_puts_a_finalized_block_before_an_error() {
    let mut submitter = waiting_submitter();
    assert_eq!(submitter.on_frame(&update(None, Some(BLOCK), true)), Action::Finish(Ok(block())));
}

#[test]
fn submitter_fails_on_a_finalized_text_that_is_no_hash() {
    for bad in ["0xBLOCKHASH", "", "0x00", "finalized"] {
        let mut submitter = waiting_submitter();
        assert_eq!(
            submitter.on_frame(&update(None, Some(bad), false)),
            Action::Finish(Err(CallError::Protocol)),
            "{:?}",
            bad
        );
        assert_eq!(submitter.stage(), Stage::Done);
    }
}

#[test]
fn submitter_fails_on_an_error_notification() {
    let mut submitter = waiting_submitter();
    assert_eq!(submitter.on_frame(&update(None, None, true)), Action::Finish(Err(CallError::Node)));
    assert_eq!(submitter.stage(), Stage::Done);
    let mut by_text = waiting_submitter();
    assert_eq!(
        by_text.on_message("{\"method\":\"author_extrinsicUpdate\",\"params\":{\"subscription\":1,\"error\":{\"code\":2}}}"),
        Action::Finish(Err(CallError::Node))
    );
}

#[test]
fn submitter_passes_over_what_has_neither_shape() {
    let mut submitter = waiting_submitter();
    assert_eq!(submitter.on_frame(&blank()), Action::Nothing);
    assert_eq!(submitter.on_frame(&update(None, None, false)), Action::Nothing);
    let other_method = Frame { method: text("state_storage"), ..update(None, Some(BLOCK), true) };
    assert_eq!(submitter.on_frame(&other_method), Action::Nothing);
    let wrong_case = Frame { method: text("author_extrinsicupdate"), ..update(None, Some(BLOCK), false) };
    assert_eq!(submitter.on_frame(&wrong_case), Action::Nothing);
    let top_level_error = Frame { error: true, ..blank() };
    assert_eq!(submitter.on_frame(&top_level_error), Action::Nothing);
    assert_eq!(
        submitter.on_message("{\"method\":\"author_extrinsicUpdate\",\"params\":{\"result\":{\"inBlock\":\"0x01\"}}}"),
        Action::Nothing
    );
    assert_eq!(submitter.stage(), Stage::AwaitAck);
}

#[test]
fn submitter_fails_on_a_frame_that_is_no_json() {
    let mut submitter = waiting_submitter();
    assert_eq!(submitter.on_message("{\"method\":"), Action::Finish(Err(CallError::Protocol)));
    assert_eq!(submitter.stage(), Stage::Done);
    let mut other = waiting_submitter();
    assert_eq!(other.on_event(&Event::Garbled), Action::Finish(Err(CallError::Protocol)));
}

#[test]
fn submitter_passes_over_frames_before_open_and_after_done() {
    let mut submitter = Submitter::new("REQUEST".to_string());
    assert_eq!(submitter.on_frame(&update(None, Some(BLOCK), false)), Action::Nothing);
    assert_eq!(submitter.on_frame(&reply_frame("3", true)), Action::Nothing);
    assert_eq!(submitter.on_message("garbage"), Action::Nothing);
    assert_eq!(submitter.stage(), Stage::Created);
    submitter.on_open();
    submitter.on_frame(&update(None, Some(BLOCK), false));
    assert_eq!(submitter.on_frame(&update(None, Some(BLOCK), false)), Action::Nothing);
    assert_eq!(submitter.on_frame(&reply_frame("3", true)), Action::Nothing);
    assert_eq!(submitter.on_message("garbage"), Action::Nothing);
    assert_eq!(submitter.on_lost(), Action::Nothing);
    assert_eq!(submitter.on_expired(), Action::Nothing);
    assert_eq!(submitter.stage(), Stage::Done);
}

#[test]
fn submitter_gives_up_a_lost_session_and_times_out() {
    let mut lost = waiting_submitter();
    assert_eq!(lost.on_event(&Event::Lost), Action::Abandon(CallError::Connection));
    assert_eq!(lost.stage(), Stage::Done);
    let mut unopened = Submitter::new("REQUEST".to_string());
    assert_eq!(unopened.on_lost(), Action::Abandon(CallError::Connection));
    let mut late = waiting_submitter();
    late.on_frame(&reply_frame("3", false));
    assert_eq!(late.on_event(&Event::Expired), Action::Finish(Err(CallError::Timeout)));
    assert_eq!(late.stage(), Stage::Done);
}

#[test]
fn actions_tell_what_the_caller_receives() {
    assert_eq!(Action::<String>::Nothing.into_outcome(), None);
    assert_eq!(Action::<String>::Send("x".to_string()).into_outcome(), None);
    assert_eq!(Action::Finish(Ok("v".to_string())).into_outcome(), Some(Ok("v".to_string())));
    assert_eq!(Action::<String>::Finish(Err(CallError::Node)).into_outcome(), Some(Err(CallError::Node)));
    assert_eq!(
        Action::<String>::Abandon(CallError::Connection).into_outcome(),
        Some(Err(CallError::Connection))
    );
    assert!(Action::Finish(Ok("v".to_string())).closes());
    assert!(Action::<String>::Finish(Err(CallError::Timeout)).closes());
    assert!(!Action::<String>::Abandon(CallError::Connection).closes());
    assert!(!Action::<String>::Send("x".to_string()).closes());
    assert!(!Action::<String>::Nothing.closes());
}
