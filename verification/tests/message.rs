//! The message panel: defaults, the rendered body and title, and the
//! pretty-printing behind them.

use kafka2i::message::KafkaMessage;

fn plain_message() -> KafkaMessage {
    KafkaMessage {
        topic: String::from("orders"),
        partition: 1,
        offset: 5,
        key: Some(String::from("k1")),
        headers: vec![(String::from("h"), String::from("v"))],
        payload: Some(String::from("plain text")),
        timestamp: Some(100),
    }
}

#[test]
fn defaults_for_missing_parts() {
    let m = KafkaMessage {
        topic: String::from("orders"),
        partition: 0,
        offset: 0,
        key: None,
        headers: vec![],
        payload: None,
        timestamp: None,
    };
    assert_eq!(m.key_or_default().as_str(), "No key");
    assert_eq!(m.payload_or_default().as_str(), "No Payload");
    assert_eq!(m.timestamp_or_default().as_str(), "0");
}

#[test]
fn present_parts_pass_through() {
    let m = plain_message();
    assert_eq!(m.key_or_default().as_str(), "k1");
    assert_eq!(m.payload_or_default().as_str(), "plain text");
    assert_eq!(m.timestamp_or_default().as_str(), "100");
}

#[test]
fn title_shows_offset_and_timestamp() {
    assert_eq!(plain_message().render_title().as_str(), "Message offset:5 ts:100");
    let mut m = plain_message();
    m.offset = -1;
    m.timestamp = None;
    assert_eq!(m.render_title().as_str(), "Message offset:-1 ts:0");
}

#[test]
fn body_with_plain_payload() {
    // a payload that is not JSON is shown unchanged; the headers render
    // as a JSON object
    let text = plain_message().render_text();
    assert_eq!(
        text.as_str(),
        "Key: k1\n\nHeaders: {\n  \"h\": \"v\"\n}\n\nPayload: plain text"
    );
}

#[test]
fn body_pretty_prints_json_payload() {
    // a JSON payload is re-rendered with indentation: the panel would
    // look different if the text were handed back unchanged
    let mut m = plain_message();
    m.payload = Some(String::from("{\"a\":1,\"b\":[2,3]}"));
    m.headers = vec![];
    let text = m.render_text();
    assert_eq!(
        text.as_str(),
        "Key: k1\n\nHeaders: {}\n\nPayload: {\n  \"a\": 1,\n  \"b\": [\n    2,\n    3\n  ]\n}"
    );
}

#[test]
fn body_with_no_payload_uses_placeholder() {
    let mut m = plain_message();
    m.payload = None;
    m.key = None;
    m.headers = vec![];
    assert_eq!(m.render_text().as_str(), "Key: No key\n\nHeaders: {}\n\nPayload: No Payload");
}
