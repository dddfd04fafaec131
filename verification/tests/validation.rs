use base64::Engine;
use tauri_plugin_livekit_mobile::{
    call_id_is_valid, connect_request_is_valid, decoded_key_material_is_valid,
    encryption_key_material_is_valid, text_eq, text_is_blank, ConnectNativeCallRequest,
    EncryptionKey,
};

fn connect_request(call_id: &str) -> ConnectNativeCallRequest {
    ConnectNativeCallRequest {
        call_id: call_id.into(),
        url: "wss://livekit.example".into(),
        token: "jwt".into(),
        microphone_enabled: true,
        encryption_keys: Vec::new(),
        ice_servers: None,
        reconnect_attempts: None,
    }
}

#[test]
fn connect_validation_requires_nonempty_fields() {
    assert!(connect_request_is_valid(&connect_request("call")));

    assert!(!connect_request_is_valid(&connect_request(" ")));
    let mut blank_url = connect_request("call");
    blank_url.url = String::new();
    assert!(!connect_request_is_valid(&blank_url));
    let mut blank_token = connect_request("call");
    blank_token.token = "  ".into();
    assert!(!connect_request_is_valid(&blank_token));
}

#[test]
fn encryption_key_material_validation() {
    // "secret" padded and "other" unpadded-well-formed base64.
    assert!(encryption_key_material_is_valid("@alice:e.org", "c2VjcmV0"));
    assert!(!encryption_key_material_is_valid(" ", "c2VjcmV0"));
    assert!(!encryption_key_material_is_valid("@alice:e.org", ""));
    assert!(!encryption_key_material_is_valid("@alice:e.org", "   "));
    assert!(!encryption_key_material_is_valid(
        "@alice:e.org",
        "not base64!!"
    ));
    // Wrong padding / truncated input is rejected.
    assert!(!encryption_key_material_is_valid(
        "@alice:e.org",
        "c2VjcmV="
    ));
}

#[test]
fn connect_validation_rejects_invalid_encryption_keys() {
    let mut request = connect_request("call");
    request.encryption_keys = vec![
        EncryptionKey {
            identity: "@alice:e.org".into(),
            key_index: 0,
            key: "c2VjcmV0".into(),
        },
        EncryptionKey {
            identity: "@bob:e.org".into(),
            key_index: 1,
            key: "b3RoZXI=".into(),
        },
    ];
    assert!(connect_request_is_valid(&request));

    request.encryption_keys[1].key = "!!!".into();
    assert!(!connect_request_is_valid(&request));
    request.encryption_keys[1].key = "b3RoZXI=".into();
    request.encryption_keys[0].identity = "  ".into();
    assert!(!connect_request_is_valid(&request));
}

#[test]
fn call_id_validation_rejects_empty_and_blank() {
    assert!(call_id_is_valid("call"));
    assert!(!call_id_is_valid(""));
    assert!(!call_id_is_valid("   "));
}

#[test]
fn blank_text_follows_the_unicode_white_space_property() {
    assert!(text_is_blank(""));
    assert!(text_is_blank(" \t\r\n\u{0B}\u{0C}"));
    assert!(text_is_blank("\u{85}\u{A0}\u{1680}\u{2000}\u{200A}\u{2028}\u{2029}\u{202F}\u{205F}\u{3000}"));
    assert!(!text_is_blank("\u{200B}"));
    assert!(!text_is_blank(" a "));
    for candidate in ["", " x", "\u{3000}", "\u{200B}", "\u{2007}", "\u{1}"] {
        assert_eq!(text_is_blank(candidate), candidate.trim().is_empty(), "{candidate:?}");
    }
    assert!(!call_id_is_valid("\u{3000}\u{00A0}"));
}

#[test]
fn text_equality_compares_characters() {
    assert!(text_eq("busy", "busy"));
    assert!(!text_eq("busy", "bus"));
    assert!(!text_eq("busy", "Busy"));
    assert!(text_eq("", ""));
    assert!(text_eq("é€", "é€"));
}

#[test]
fn decoded_key_material_is_judged_on_identity_and_bytes() {
    let engine = base64::engine::general_purpose::STANDARD;
    assert!(decoded_key_material_is_valid("@alice:e.org", &engine.decode("c2VjcmV0")));
    assert!(!decoded_key_material_is_valid("@alice:e.org", &engine.decode("")));
    assert!(!decoded_key_material_is_valid("@alice:e.org", &engine.decode("!!!")));
    assert!(!decoded_key_material_is_valid("\t", &engine.decode("c2VjcmV0")));
    // A single decoded byte is enough: the key length is the native side's call.
    assert!(decoded_key_material_is_valid("@bob:e.org", &engine.decode("AA==")));
    assert!(encryption_key_material_is_valid("@bob:e.org", "AA=="));
}

#[test]
fn connect_validation_accepts_a_call_without_keys_and_rejects_an_empty_key() {
    let mut request = connect_request("call");
    assert!(connect_request_is_valid(&request));
    request.encryption_keys = vec![EncryptionKey {
        identity: "@alice:e.org".into(),
        key_index: 0,
        key: "".into(),
    }];
    assert!(!connect_request_is_valid(&request));
}
