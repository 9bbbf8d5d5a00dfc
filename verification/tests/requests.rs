use node_api_client::request::{
    genesis_request, id_text, storage_request, submit_request, Param, Request,
};

fn parsed(text: &str) -> serde_json::Value {
    serde_json::from_str(text).unwrap()
}

#[test]
fn genesis_request_goes_over_the_wire_as_text() {
    assert_eq!(
        genesis_request().render(),
        "{\"method\":\"chain_getBlockHash\",\"params\":[0],\"jsonrpc\":\"2.0\",\"id\":\"1\"}"
    );
}

#[test]
fn storage_request_goes_over_the_wire_as_text() {
    assert_eq!(
        storage_request("0xc2261276cc9d1f8598ea4b6a74b15c2f").render(),
        "{\"method\":\"state_getStorage\",\"params\":[\"0xc2261276cc9d1f8598ea4b6a74b15c2f\"],\"jsonrpc\":\"2.0\",\"id\":\"1\"}"
    );
}

#[test]
fn submit_request_carries_the_reserved_identifier() {
    let request = submit_request("0x2d0284ff");
    assert_eq!(request.id(), "3");
    assert_eq!(request.method(), "author_submitAndWatchExtrinsic");
    assert_eq!(request.param_count(), 1);
    assert_eq!(
        request.render(),
        "{\"method\":\"author_submitAndWatchExtrinsic\",\"params\":[\"0x2d0284ff\"],\"jsonrpc\":\"2.0\",\"id\":\"3\"}"
    );
}

#[test]
fn rendered_request_reads_back_as_json() {
    let doc = parsed(&storage_request("0xKEY").render());
    assert_eq!(doc["method"].as_str(), Some("state_getStorage"));
    assert_eq!(doc["jsonrpc"].as_str(), Some("2.0"));
    assert_eq!(doc["id"].as_str(), Some("1"));
    assert_eq!(doc["params"].as_array().unwrap().len(), 1);
    assert_eq!(doc["params"][0].as_str(), Some("0xKEY"));
}

#[test]
fn rendered_strings_are_escaped_as_json() {
    let awkward = "a\"b\\c\nd\te\rf\u{8}g\u{c}h\u{1}i\u{1f}j\u{7f}k/l\u{e9}m\u{1F600}";
    let request = Request::new(
        awkward.to_string(),
        vec![Param::Text(awkward.to_string())],
        awkward.to_string(),
    );
    let text = request.render();
    let quoted = serde_json::Value::String(awkward.to_string()).to_string();
    assert_eq!(
        text,
        format!(
            "{{\"method\":{q},\"params\":[{q}],\"jsonrpc\":\"2.0\",\"id\":{q}}}",
            q = quoted
        )
    );
    let doc = parsed(&text);
    assert_eq!(doc["method"].as_str(), Some(awkward));
    assert_eq!(doc["params"][0].as_str(), Some(awkward));
    assert_eq!(doc["id"].as_str(), Some(awkward));
}

#[test]
fn control_characters_are_written_as_code_points() {
    let request = Request::new("\u{0}\u{1b}\u{10}".to_string(), vec![], "x".to_string());
    assert_eq!(
        request.render(),
        "{\"method\":\"\\u0000\\u001b\\u0010\",\"params\":[],\"jsonrpc\":\"2.0\",\"id\":\"x\"}"
    );
}

#[test]
fn parameters_are_separated_by_commas_in_order() {
    let request = Request::new(
        "m".to_string(),
        vec![
            Param::Number(0),
            Param::Text("a".to_string()),
            Param::Number(18446744073709551615),
            Param::Number(10),
            Param::Text(String::new()),
        ],
        "9".to_string(),
    );
    assert_eq!(request.param_count(), 5);
    assert_eq!(
        request.render(),
        "{\"method\":\"m\",\"params\":[0,\"a\",18446744073709551615,10,\"\"],\"jsonrpc\":\"2.0\",\"id\":\"9\"}"
    );
    let doc = parsed(&request.render());
    assert_eq!(doc["params"][2].as_u64(), Some(u64::MAX));
}

#[test]
fn id_text_writes_decimal_digits() {
    assert_eq!(id_text(0), "0");
    assert_eq!(id_text(3), "3");
    assert_eq!(id_text(10), "10");
    assert_eq!(id_text(4294967295), "4294967295");
}
