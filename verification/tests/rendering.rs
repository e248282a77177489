use rpc_bootstrap::render::{escape_json, render_i64, render_id, render_response, render_u64};
use rpc_bootstrap::rpc::{RequestId, RpcResponse};
use rpc_bootstrap::server::BindAddr;

#[test]
fn decimal_rendering() {
    assert_eq!(render_u64(0), "0");
    assert_eq!(render_u64(9), "9");
    assert_eq!(render_u64(10), "10");
    assert_eq!(render_u64(33035), "33035");
    assert_eq!(render_u64(u64::MAX), "18446744073709551615");
}

#[test]
fn signed_decimal_rendering() {
    assert_eq!(render_i64(0), "0");
    assert_eq!(render_i64(-1), "-1");
    assert_eq!(render_i64(-32601), "-32601");
    assert_eq!(render_i64(i64::MAX), "9223372036854775807");
    assert_eq!(render_i64(i64::MIN), "-9223372036854775808");
}

#[test]
fn json_string_escaping() {
    assert_eq!(escape_json(&String::from("plain text")), "plain text");
    assert_eq!(escape_json(&String::from("say \"hi\"")), "say \\\"hi\\\"");
    assert_eq!(escape_json(&String::from("back\\slash")), "back\\\\slash");
    assert_eq!(escape_json(&String::from("line\nbreak")), "line\\u000abreak");
    assert_eq!(escape_json(&String::from("tab\there")), "tab\\u0009here");
    assert_eq!(escape_json(&String::from("")), "");
}

#[test]
fn id_rendering() {
    assert_eq!(render_id(&RequestId::Num(7)), "7");
    assert_eq!(render_id(&RequestId::Text(String::from("abc"))), "\"abc\"");
    assert_eq!(render_id(&RequestId::Null), "null");
}

#[test]
fn success_rendering_with_text_id() {
    let resp = RpcResponse::Success {
        result: String::from("Hello there!!"),
        id: RequestId::Text(String::from("req-1")),
    };
    assert_eq!(
        render_response(&resp),
        "{\"jsonrpc\":\"2.0\",\"result\":\"Hello there!!\",\"id\":\"req-1\"}"
    );
}

#[test]
fn failure_rendering_escapes_message() {
    let resp = RpcResponse::Failure {
        code: -32602,
        message: String::from("bad \"params\""),
        id: RequestId::Null,
    };
    assert_eq!(
        render_response(&resp),
        "{\"jsonrpc\":\"2.0\",\"error\":{\"code\":-32602,\"message\":\"bad \\\"params\\\"\"},\"id\":null}"
    );
}

#[test]
fn bind_addr_text() {
    let addr = BindAddr { ip0: 0, ip1: 0, ip2: 0, ip3: 0, port: 33035 };
    assert_eq!(addr.to_text(), "0.0.0.0:33035");
    let other = BindAddr { ip0: 127, ip1: 0, ip2: 0, ip3: 1, port: 8080 };
    assert_eq!(other.to_text(), "127.0.0.1:8080");
}
