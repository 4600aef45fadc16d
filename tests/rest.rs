use boombot::rest::{authorization, callback_url, command_definition_text, commands_url, interaction_response_text};

#[test]
fn endpoints_and_header() {
    assert_eq!(commands_url("123"), "https://discord.com/api/v10/applications/123/commands");
    assert_eq!(callback_url("9", "tk"), "https://discord.com/api/v10/interactions/9/tk/callback");
    assert_eq!(authorization("abc"), "Bot abc");
}

#[test]
fn command_definition_is_the_clean_command() {
    let v: serde_json::Value = serde_json::from_str(&command_definition_text()).unwrap();
    assert_eq!(v.pointer("/name").and_then(|x| x.as_str()), Some("clean"));
    assert_eq!(v.pointer("/options/0/name").and_then(|x| x.as_str()), Some("url"));
    assert_eq!(v.pointer("/options/0/type").and_then(|x| x.as_u64()), Some(3));
    assert_eq!(v.pointer("/options/0/required").and_then(|x| x.as_bool()), Some(true));
}

#[test]
fn interaction_response_escapes_content() {
    let text = interaction_response_text("line\n\"quoted\"");
    assert_eq!(text, "{\"type\":4,\"data\":{\"content\":\"line\\n\\\"quoted\\\"\"}}");
    let v: serde_json::Value = serde_json::from_str(&text).unwrap();
    assert_eq!(v.pointer("/type").and_then(|x| x.as_u64()), Some(4));
    assert_eq!(v.pointer("/data/content").and_then(|x| x.as_str()), Some("line\n\"quoted\""));
}

#[test]
fn control_characters_use_unicode_escapes() {
    assert_eq!(interaction_response_text("a\u{1}\u{1f}\u{8}\u{c}\\"), "{\"type\":4,\"data\":{\"content\":\"a\\u0001\\u001f\\b\\f\\\\\"}}");
}
