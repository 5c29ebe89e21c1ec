use jvlauncher::chat::{
    build_chat_request_body, chat_completions_url, models_url, prepare_chat_request,
    serialize_messages, trim_trailing_slashes, ChatMessage, ToolDefinition,
};
use jvlauncher::types::AISettings;

fn msg(role: &str, content: &str) -> ChatMessage {
    ChatMessage { role: role.to_string(), content: content.to_string() }
}

#[test]
fn test_serialize_messages_exact() {
    let messages = vec![msg("system", "be brief"), msg("user", "hi")];
    let s = serialize_messages(&messages);
    assert_eq!(
        s,
        "[{\"role\":\"system\",\"content\":\"be brief\"},{\"role\":\"user\",\"content\":\"hi\"}]"
    );
}

#[test]
fn test_serialize_messages_escapes() {
    let messages = vec![msg("user", "a\"b\\c\nd\te\u{1}")];
    let s = serialize_messages(&messages);
    assert_eq!(s, "[{\"role\":\"user\",\"content\":\"a\\\"b\\\\c\\nd\\te\\u0001\"}]");
}

#[test]
fn test_serialized_messages_parse_back() {
    let messages = vec![msg("system", "line1\nline2"), msg("tool", "x = \"y\"")];
    let s = serialize_messages(&messages);
    let v: serde_json::Value = serde_json::from_str(&s).unwrap();
    let arr = v.as_array().unwrap();
    assert_eq!(arr.len(), 2);
    assert_eq!(arr[0]["role"].as_str().unwrap(), "system");
    assert_eq!(arr[0]["content"].as_str().unwrap(), "line1\nline2");
    assert_eq!(arr[1]["role"].as_str().unwrap(), "tool");
    assert_eq!(arr[1]["content"].as_str().unwrap(), "x = \"y\"");
}

#[test]
fn test_request_body_without_tools() {
    let messages = vec![msg("system", "s")];
    let body = build_chat_request_body("gpt-x", &messages, None);
    assert_eq!(
        body,
        "{\"model\":\"gpt-x\",\"messages\":[{\"role\":\"system\",\"content\":\"s\"}]}"
    );
}

#[test]
fn test_request_body_with_tools_parses_back() {
    let messages = vec![msg("system", "s")];
    let tools = vec![ToolDefinition::notification(), ToolDefinition::run_command()];
    let body = build_chat_request_body("m", &messages, Some(&tools));
    let v: serde_json::Value = serde_json::from_str(&body).unwrap();
    assert_eq!(v["model"].as_str().unwrap(), "m");
    let ts = v["tools"].as_array().unwrap();
    assert_eq!(ts.len(), 2);
    assert_eq!(ts[0]["type"].as_str().unwrap(), "function");
    assert_eq!(ts[0]["function"]["name"].as_str().unwrap(), "send_notification");
    assert_eq!(
        ts[0]["function"]["parameters"]["required"][0].as_str().unwrap(),
        "message"
    );
    assert_eq!(ts[1]["function"]["name"].as_str().unwrap(), "run_command");
    assert_eq!(
        ts[1]["function"]["parameters"]["properties"]["command"]["type"].as_str().unwrap(),
        "string"
    );
}

#[test]
fn test_endpoint_urls() {
    assert_eq!(trim_trailing_slashes("http://host:1234///"), "http://host:1234");
    assert_eq!(models_url("http://host:1234/"), "http://host:1234/v1/models");
    assert_eq!(
        chat_completions_url("http://host:1234"),
        "http://host:1234/v1/chat/completions"
    );
}

#[test]
fn test_prepare_chat_request_gates_on_enabled() {
    let mut settings = AISettings::default();
    let messages = vec![msg("system", "s")];
    let r = prepare_chat_request(&settings, "m", &messages, None);
    assert!(r.is_err());

    settings.enabled = true;
    settings.endpoint_url = "http://host:1/".to_string();
    settings.api_key = "local-test-key".to_string();
    let req = prepare_chat_request(&settings, "m", &messages, None).unwrap();
    assert_eq!(req.url, "http://host:1/v1/chat/completions");
    assert_eq!(req.api_key, "local-test-key");
    assert_eq!(
        req.body,
        "{\"model\":\"m\",\"messages\":[{\"role\":\"system\",\"content\":\"s\"}]}"
    );
}
