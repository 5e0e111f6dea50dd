use gpt_shell::adapter::AdapterProfile;
use gpt_shell::json::Json;
use gpt_shell::llm_provider::{
    accept_response, content_of, create_message, function_to_json, is_success, message_to_json,
    single_event, ChatError, FunctionDef, Message, Provider, Role,
};
use gpt_shell::sse::StreamEvent;

fn text(s: &str) -> Json {
    Json::Text(s.to_string())
}

fn member(k: &str, v: Json) -> (String, Json) {
    (k.to_string(), v)
}

fn pair(a: &str, b: &str) -> (String, String) {
    (a.to_string(), b.to_string())
}

#[test]
fn a_new_provider_has_the_default_endpoint_and_model() {
    let provider = Provider::new("SECRET-REDACTED".to_string());
    assert_eq!(provider.get_api_url(), "https://api.openai.com/v1/chat/completions");
    assert_eq!(provider.model(), "gpt-3.5-turbo");
    assert_eq!(provider.api_key(), "SECRET-REDACTED");
    assert!(!provider.json_mode());
    assert!(!provider.is_qwen());
    assert!(!provider.is_v36());
}

#[test]
fn builders_change_one_setting_each() {
    let provider = Provider::new("k".to_string())
        .with_url("https://dashscope.aliyuncs.com/v1".to_string())
        .with_model("qwen-max".to_string())
        .with_json_mode(true);
    assert_eq!(provider.get_api_url(), "https://dashscope.aliyuncs.com/v1");
    assert_eq!(provider.model(), "qwen-max");
    assert_eq!(provider.api_key(), "k");
    assert!(provider.json_mode());
    assert!(provider.is_qwen());
    assert!(!provider.is_v36());
    let relay = Provider::new("k".to_string()).with_url("https://free.v36.cm/v1".to_string());
    assert!(relay.is_v36());
    assert!(!relay.is_qwen());
}

#[test]
fn the_profile_follows_the_url() {
    let qwen = Provider::new("k".to_string()).with_url("https://dashscope.aliyuncs.com/v1".to_string());
    assert_eq!(qwen.profile(), AdapterProfile::dashscope());
    assert_eq!(Provider::new("k".to_string()).profile(), AdapterProfile::openai());
}

#[test]
fn the_diagnostic_text_leaves_the_key_out() {
    let provider = Provider::new("sk-very-secret".to_string()).with_model("m".to_string());
    let shown = provider.debug_text();
    assert_eq!(
        shown,
        "Provider { api_url: https://api.openai.com/v1/chat/completions, model: m, json_mode: false, functions: None, api_key: [REDACTED] }"
    );
    assert!(!shown.contains("sk-very-secret"));
    let other = Provider::new("another".to_string()).with_model("m".to_string());
    assert_eq!(other.debug_text(), shown);
}

#[test]
fn the_diagnostic_text_names_the_functions() {
    let function = |name: &str| FunctionDef {
        name: name.to_string(),
        description: String::new(),
        parameters: Json::Null,
    };
    let none = Provider::new("k".to_string()).with_url("u".to_string()).with_functions(Vec::new());
    assert_eq!(
        none.debug_text(),
        "Provider { api_url: u, model: gpt-3.5-turbo, json_mode: false, functions: Some([]), api_key: [REDACTED] }"
    );
    let two = Provider::new("k".to_string())
        .with_url("u".to_string())
        .with_json_mode(true)
        .with_functions(vec![function("lookup"), function("run")]);
    assert_eq!(
        two.debug_text(),
        "Provider { api_url: u, model: gpt-3.5-turbo, json_mode: true, functions: Some([lookup, run]), api_key: [REDACTED] }"
    );
}

#[test]
fn headers_carry_the_content_type_and_the_bearer_token() {
    let provider = Provider::new("abc".to_string());
    assert_eq!(
        provider.headers(),
        vec![pair("Content-Type", "application/json"), pair("Authorization", "Bearer abc")]
    );
}

#[test]
fn headers_carry_what_the_vendor_adds() {
    let qwen = Provider::new("abc".to_string()).with_url("https://dashscope.aliyuncs.com/v1".to_string());
    assert_eq!(
        qwen.headers(),
        vec![
            pair("Content-Type", "application/json"),
            pair("Authorization", "Bearer abc"),
            pair("X-DashScope-SSE", "enable"),
        ]
    );
    let relay = Provider::new("abc".to_string()).with_url("https://free.v36.cm/v1".to_string());
    assert_eq!(
        relay.headers(),
        vec![
            pair("Content-Type", "application/json"),
            pair("Authorization", "Bearer abc"),
            pair("x-foo", "true"),
        ]
    );
}

#[test]
fn create_message_sets_role_and_content() {
    let message = create_message(Role::User, "hello".to_string());
    assert_eq!(
        message,
        Message { role: Role::User, content: "hello".to_string(), name: None, function_call: None }
    );
}

#[test]
fn roles_have_their_wire_names() {
    assert_eq!(Role::System.as_str(), "system");
    assert_eq!(Role::User.as_str(), "user");
    assert_eq!(Role::Assistant.as_str(), "assistant");
}

#[test]
fn a_message_becomes_an_object_with_role_and_content() {
    let message = create_message(Role::System, "be brief".to_string());
    assert_eq!(
        message_to_json(&message),
        Json::Object(vec![member("role", text("system")), member("content", text("be brief"))])
    );
}

#[test]
fn a_message_carries_name_and_function_call_where_it_has_them() {
    let call = Json::Object(vec![member("name", text("f")), member("arguments", text("{}"))]);
    let message = Message {
        role: Role::Assistant,
        content: String::new(),
        name: Some("helper".to_string()),
        function_call: Some(call.clone()),
    };
    assert_eq!(
        message_to_json(&message),
        Json::Object(vec![
            member("role", text("assistant")),
            member("content", text("")),
            member("name", text("helper")),
            member("function_call", call),
        ])
    );
}

#[test]
fn the_request_body_holds_model_messages_and_stream() {
    let provider = Provider::new("k".to_string()).with_model("m1".to_string());
    let messages = vec![
        create_message(Role::System, "s".to_string()),
        create_message(Role::User, "u".to_string()),
    ];
    let body = provider.request_body(&messages, true);
    assert_eq!(
        body,
        Json::Object(vec![
            member("model", text("m1")),
            member(
                "messages",
                Json::Array(vec![
                    Json::Object(vec![member("role", text("system")), member("content", text("s"))]),
                    Json::Object(vec![member("role", text("user")), member("content", text("u"))]),
                ])
            ),
            member("stream", Json::Bool(true)),
        ])
    );
}

#[test]
fn json_mode_adds_the_response_format() {
    let provider = Provider::new("k".to_string()).with_json_mode(true);
    let body = provider.request_body(&vec![create_message(Role::User, "u".to_string())], false);
    assert_eq!(body.member("stream"), Some(&Json::Bool(false)));
    assert_eq!(
        body.member("response_format"),
        Some(&Json::Object(vec![member("type", text("json_object"))]))
    );
    assert_eq!(body.member("functions"), None);
    let plain = Provider::new("k".to_string())
        .request_body(&vec![create_message(Role::User, "u".to_string())], false);
    assert_eq!(plain.member("response_format"), None);
}

#[test]
fn functions_are_listed_where_there_are_any() {
    let parameters = Json::Object(vec![member("type", text("object"))]);
    let function = FunctionDef {
        name: "lookup".to_string(),
        description: "looks things up".to_string(),
        parameters: parameters.clone(),
    };
    let expected = Json::Object(vec![
        member("name", text("lookup")),
        member("description", text("looks things up")),
        member("parameters", parameters),
    ]);
    assert_eq!(function_to_json(&function), expected);
    let provider = Provider::new("k".to_string()).with_functions(vec![function]);
    let body = provider.request_body(&Vec::new(), true);
    assert_eq!(body.member("functions"), Some(&Json::Array(vec![expected])));
    assert_eq!(body.member("messages"), Some(&Json::Array(Vec::new())));
}

#[test]
fn a_request_is_url_headers_and_body() {
    let provider = Provider::new("k".to_string()).with_url("http://localhost/mock".to_string());
    let messages = vec![create_message(Role::User, "hi".to_string())];
    let request = provider.request(&messages, true);
    assert_eq!(request.method, "POST");
    assert_eq!(request.url, "http://localhost/mock");
    assert_eq!(request.headers, provider.headers());
    assert_eq!(request.body, provider.request_body(&messages, true));
}

#[test]
fn a_clone_keeps_every_setting() {
    let provider = Provider::new("k".to_string())
        .with_url("u".to_string())
        .with_model("m".to_string())
        .with_json_mode(true);
    let copy = provider.clone();
    assert_eq!(copy.api_key(), "k");
    assert_eq!(copy.get_api_url(), "u");
    assert_eq!(copy.model(), "m");
    assert!(copy.json_mode());
}

#[test]
fn statuses_from_200_to_299_are_success() {
    assert!(is_success(200));
    assert!(is_success(204));
    assert!(is_success(299));
    assert!(!is_success(199));
    assert!(!is_success(300));
    assert!(!is_success(404));
    assert!(!is_success(500));
    assert!(!is_success(0));
}

#[test]
fn a_failed_status_is_a_transport_error_with_status_and_body() {
    assert_eq!(accept_response(200, "ok".to_string()), Ok("ok".to_string()));
    assert_eq!(
        accept_response(429, "{\"error\":\"slow down\"}".to_string()),
        Err(ChatError::Transport { status: 429, body: "{\"error\":\"slow down\"}".to_string() })
    );
    assert_eq!(
        accept_response(500, String::new()),
        Err(ChatError::Transport { status: 500, body: String::new() })
    );
}

#[test]
fn a_single_response_yields_exactly_its_content() {
    let profile = AdapterProfile::openai();
    let body = "{\"choices\":[{\"message\":{\"content\":\"whole answer\"}}]}";
    assert_eq!(single_event(&profile, body), Ok(StreamEvent::TextDelta("whole answer".to_string())));
}

#[test]
fn a_single_response_is_not_read_by_the_streaming_path() {
    let profile = AdapterProfile::openai();
    let body = "{\"choices\":[{\"delta\":{\"content\":\"fragment\"}}]}";
    assert_eq!(single_event(&profile, body), Err(ChatError::Decode { raw: body.to_string() }));
}

#[test]
fn a_single_response_that_is_no_json_is_a_decode_error() {
    let profile = AdapterProfile::openai();
    assert_eq!(
        single_event(&profile, "<html>"),
        Err(ChatError::Decode { raw: "<html>".to_string() })
    );
    assert_eq!(single_event(&profile, ""), Err(ChatError::Decode { raw: String::new() }));
}

#[test]
fn a_single_dashscope_response_is_read_by_its_paths() {
    let profile = AdapterProfile::dashscope();
    let message = "{\"output\":{\"choices\":[{\"message\":{\"content\":\"q\"}}]}}";
    assert_eq!(single_event(&profile, message), Ok(StreamEvent::TextDelta("q".to_string())));
    let text = "{\"output\":{\"text\":\"t\"}}";
    assert_eq!(single_event(&profile, text), Ok(StreamEvent::TextDelta("t".to_string())));
}

#[test]
fn content_of_reads_a_parsed_response() {
    let profile = AdapterProfile::openai();
    let value = gpt_shell::json::parse("{\"choices\":[{\"message\":{\"content\":\"a\"}}]}").unwrap();
    assert_eq!(content_of(&profile, &value), Some("a".to_string()));
    assert_eq!(content_of(&profile, &Json::Null), None);
}

#[test]
fn every_error_carries_its_text() {
    assert_eq!(ChatError::Transport { status: 500, body: "b".to_string() }.detail(), "b");
    assert_eq!(ChatError::Decode { raw: "r".to_string() }.detail(), "r");
    assert_eq!(ChatError::Vendor { message: "m".to_string() }.detail(), "m");
    assert_eq!(ChatError::CancelledPartial { accumulated_text: "t".to_string() }.detail(), "t");
    assert_eq!(ChatError::InvalidReplyFormat { raw: "x".to_string() }.detail(), "x");
    assert_eq!(ChatError::ExecutionFailure { reason: "why".to_string() }.detail(), "why");
}
