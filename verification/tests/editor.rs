use kickforge::editor::{
    editor_url, init_script, json_http_response, parse_ipc_message, polling_init_script,
    push_packet_script, IpcMessage, EDITOR_HEIGHT, EDITOR_WIDTH, KICKFORGE_URL,
};

#[test]
fn url_with_and_without_token() {
    assert_eq!(
        editor_url(Some("abc123"), "0.12.6"),
        "http://kickforge.hardwavestudios.com/vst/kickforge?token=abc123&v=0.12.6"
    );
    assert_eq!(
        editor_url(None, "0.12.6"),
        "http://kickforge.hardwavestudios.com/vst/kickforge?v=0.12.6"
    );
    assert_eq!(KICKFORGE_URL, "http://kickforge.hardwavestudios.com/vst/kickforge");
    assert_eq!((EDITOR_WIDTH, EDITOR_HEIGHT), (1100, 700));
}

fn matches_set(m: IpcMessage, k: &str, v: &str) -> bool {
    match m {
        IpcMessage::SetParam { key, value } => key == k && value == v,
        _ => false,
    }
}

#[test]
fn ipc_set_param() {
    assert!(matches_set(parse_ipc_message("setParam:bodyDrive:0.5"), "bodyDrive", "0.5"));
    assert!(matches_set(parse_ipc_message("setParam:fxSlot2On:1"), "fxSlot2On", "1"));
    // The key ends at the first colon.
    assert!(matches_set(parse_ipc_message("setParam:a:b:c"), "a", "b:c"));
    assert!(matches_set(parse_ipc_message("setParam::"), "", ""));
}

#[test]
fn ipc_save_token() {
    match parse_ipc_message("saveToken:  abc.def \n") {
        IpcMessage::SaveToken { token } => assert_eq!(token, "abc.def"),
        other => panic!("unexpected {:?}", other),
    }
    match parse_ipc_message("saveToken:") {
        IpcMessage::SaveToken { token } => assert_eq!(token, ""),
        other => panic!("unexpected {:?}", other),
    }
}

#[test]
fn ipc_ignored() {
    assert!(matches!(parse_ipc_message("setParam:nocolon"), IpcMessage::Ignored));
    assert!(matches!(parse_ipc_message("hello"), IpcMessage::Ignored));
    assert!(matches!(parse_ipc_message(""), IpcMessage::Ignored));
    assert!(matches!(parse_ipc_message("SetParam:a:1"), IpcMessage::Ignored));
}

#[test]
fn ipc_roundtrip_of_page_messages() {
    // Law: what the page's setParam posts is read back as the same key and value.
    for (k, v) in [("clickVolume", "0.7"), ("masterOctave", "-2"), ("x", "true:1")] {
        let msg = format!("setParam:{}:{}", k, v);
        assert!(matches_set(parse_ipc_message(&msg), k, v));
    }
}

#[test]
fn init_script_layout() {
    let s = init_script("1.2.3", "{\"a\":1}");
    assert!(s.starts_with("\n    window.__HARDWAVE_VST = true;\n    window.__HARDWAVE_VST_VERSION = '1.2.3';\n"));
    assert!(s.contains("window.ipc.postMessage('setParam:' + key + ':' + v);"));
    assert!(s.contains("var _init = {\"a\":1};\n        function pushInit() {"));
    assert!(s.ends_with("    })();\n    "));
}

#[test]
fn polling_script_layout() {
    let s = polling_init_script("BASE", 8080);
    assert!(s.starts_with("BASE\n\n        (function() {\n            const POLL_URL = 'http://127.0.0.1:8080/';"));
    assert!(s.contains("requestAnimationFrame(poll);"));
}

#[test]
fn push_script() {
    assert_eq!(
        push_packet_script("{\"x\":2}"),
        "window.__onKickForgePacket && window.__onKickForgePacket({\"x\":2})"
    );
}

#[test]
fn http_reply_counts_bytes() {
    let body = "{\"a\":\"é\"}";
    let r = json_http_response(body);
    assert_eq!(
        r,
        "HTTP/1.1 200 OK\r\nAccess-Control-Allow-Origin: *\r\nContent-Type: application/json\r\nCache-Control: no-store\r\nContent-Length: 10\r\nConnection: close\r\n\r\n{\"a\":\"é\"}"
    );
    assert!(json_http_response("null").contains("Content-Length: 4\r\n"));
    assert!(json_http_response("").ends_with("Content-Length: 0\r\nConnection: close\r\n\r\n"));
}
