use motion_alert::client::{ClientService, TransportError, TransportStage};
use motion_alert::payload::{request_body, RequestAlert, RequestIAmAlive};
use motion_alert::text::{json_escape_bytes, render_decimal};

#[test]
fn alert_payload_is_the_exact_json_object() {
    let alert = RequestAlert::new("AA:BB:CC:DD:EE:FF".to_string());
    let bytes = alert.to_json_bytes();
    assert_eq!(bytes, b"{\"macAddress\":\"AA:BB:CC:DD:EE:FF\"}".to_vec());
}

#[test]
fn heartbeat_payload_is_the_exact_json_object() {
    let alive = RequestIAmAlive::new("AA:BB:CC:DD:EE:FF".to_string());
    let bytes = alive.to_json_bytes();
    assert_eq!(bytes, b"{\"macAddress\":\"AA:BB:CC:DD:EE:FF\"}".to_vec());
}

#[test]
fn alert_and_heartbeat_payloads_are_identical_and_stable() {
    let mac = "02:00:5e:10:00:00";
    let alert = RequestAlert::new(mac.to_string());
    let alive = RequestIAmAlive::new(mac.to_string());
    let a1 = alert.to_json_bytes();
    let a2 = alert.to_json_bytes();
    let h1 = alive.to_json_bytes();
    let h2 = alive.to_json_bytes();
    assert_eq!(a1, a2);
    assert_eq!(h1, h2);
    assert_eq!(a1, h1);
}

#[test]
fn request_body_escapes_like_serde_json() {
    // the same serialization the original produced with a serde derive
    let ids = [
        "AA:BB:CC:DD:EE:FF",
        "",
        "quote\"backslash\\slash/",
        "tab\tnewline\ncr\rbackspace\u{8}formfeed\u{c}",
        "low controls \u{1}\u{1f}",
        "unicode \u{e9}\u{4e16}\u{1f600}",
    ];
    for id in ids {
        let mut object = serde_json::Map::new();
        object.insert(
            "macAddress".to_string(),
            serde_json::Value::String(id.to_string()),
        );
        let expected = serde_json::to_string(&serde_json::Value::Object(object)).unwrap();
        assert_eq!(request_body(id), expected.as_bytes().to_vec(), "id {:?}", id);
    }
}

#[test]
fn json_escape_leaves_plain_bytes_alone() {
    assert_eq!(json_escape_bytes(b"plain text 09AZ"), b"plain text 09AZ".to_vec());
}

#[test]
fn json_escape_rewrites_specials() {
    assert_eq!(json_escape_bytes(b"\""), b"\\\"".to_vec());
    assert_eq!(json_escape_bytes(b"\\"), b"\\\\".to_vec());
    assert_eq!(json_escape_bytes(b"\t\n\r"), b"\\t\\n\\r".to_vec());
    assert_eq!(json_escape_bytes(&[0x08, 0x0c]), b"\\b\\f".to_vec());
    assert_eq!(json_escape_bytes(&[0x00, 0x01, 0x1f]), b"\\u0000\\u0001\\u001f".to_vec());
}

#[test]
fn render_decimal_writes_shortest_digit_strings() {
    assert_eq!(render_decimal(0), b"0".to_vec());
    assert_eq!(render_decimal(7), b"7".to_vec());
    assert_eq!(render_decimal(10), b"10".to_vec());
    assert_eq!(render_decimal(30), b"30".to_vec());
    assert_eq!(render_decimal(1024), b"1024".to_vec());
    assert_eq!(
        render_decimal(u64::MAX),
        b"18446744073709551615".to_vec()
    );
}

#[test]
fn post_requests_carry_url_body_and_content_length() {
    let client = ClientService::new("http://example.org/alert", "http://example.org/alive");
    let mac = "AA:BB:CC:DD:EE:FF";
    let alert = client.alert_request(mac);
    assert_eq!(alert.url, "http://example.org/alert");
    assert_eq!(alert.body, b"{\"macAddress\":\"AA:BB:CC:DD:EE:FF\"}".to_vec());
    assert_eq!(
        alert.content_length,
        alert.body.len().to_string().into_bytes()
    );

    let alive = client.i_am_alive_request(mac);
    assert_eq!(alive.url, "http://example.org/alive");
    assert_eq!(alive.body, alert.body);
    assert_eq!(alive.content_length, alert.content_length);
}

#[test]
fn content_length_counts_escaped_bytes() {
    let client = ClientService::new("a", "b");
    let r = client.alert_request("q\"\\\n");
    // {"macAddress":"q\"\\\n"} : 15 prefix + 7 escaped + 2 suffix
    assert_eq!(r.body.len(), 24);
    assert_eq!(r.content_length, b"24".to_vec());
}

#[test]
fn transport_errors_carry_stage_and_detail() {
    let stages = [
        TransportStage::Connect,
        TransportStage::WriteBody,
        TransportStage::Flush,
        TransportStage::Submit,
        TransportStage::ReadResponse,
    ];
    for stage in stages {
        let e = TransportError::new(stage, "cause".to_string());
        assert_eq!(e.stage, stage);
        assert_eq!(e.detail, "cause");
    }
}
