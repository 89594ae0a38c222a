use orcascore::calendar::{get_calendar_list, get_events_for_date};
use orcascore::chat::{
    api_error_message, build_chat_request, connection_error_message, models_api_error_message,
    ChatMessage, MessageContent,
};
use orcascore::numfmt::{fmt_i32, fmt_i64, fmt_u64};
use orcascore::providers::{ActiveProviderConfig, AnthropicConfig};

#[test]
fn chat_request_carries_endpoint_headers_and_body() {
    let config = ActiveProviderConfig::Anthropic(AnthropicConfig { api_key: "k".to_string() });
    let messages = vec![ChatMessage {
        role: "user".to_string(),
        content: MessageContent::Text("hi".to_string()),
    }];
    let system = Some("be brief".to_string());
    let tools = Some(vec!["{\"name\":\"t\"}".to_string()]);
    let req = build_chat_request(&config, "orca-sonnet-4-20250514", &messages, &system, 4096, &tools);
    assert_eq!(req.endpoint, "https://api.anthropic.com/v1/messages");
    assert_eq!(req.headers[0].0, "content-type");
    assert_eq!(req.headers[0].1, "application/json");
    assert_eq!(req.headers[1].0, "x-api-key");
    assert_eq!(req.body.model, "orca-sonnet-4-20250514");
    assert_eq!(req.body.max_tokens, 4096);
    assert_eq!(req.body.system.unwrap(), "be brief");
    assert_eq!(req.body.tools.unwrap().len(), 1);
    assert_eq!(req.body.messages.len(), 1);
}

#[test]
fn chat_request_omits_empty_tools_and_system() {
    let config = ActiveProviderConfig::Anthropic(AnthropicConfig { api_key: "k".to_string() });
    let messages: Vec<ChatMessage> = Vec::new();
    let req = build_chat_request(&config, "m", &messages, &None, 100, &Some(Vec::new()));
    assert!(req.body.system.is_none());
    assert!(req.body.tools.is_none());
    let req2 = build_chat_request(&config, "m", &messages, &None, 100, &None);
    assert!(req2.body.tools.is_none());
}

#[test]
fn connection_errors_name_their_cause() {
    assert_eq!(
        connection_error_message(401, "401 Unauthorized", ""),
        "Authentication failed. Check your API key."
    );
    assert_eq!(
        connection_error_message(403, "403 Forbidden", ""),
        "Access denied. Your API key may lack the required permissions."
    );
    assert_eq!(
        connection_error_message(404, "404 Not Found", ""),
        "Endpoint not found. Check the base URL for your provider."
    );
    assert_eq!(
        connection_error_message(500, "500 Internal Server Error", "oops"),
        "API returned an error (HTTP 500 Internal Server Error): oops"
    );
}

#[test]
fn api_error_messages_embed_status_and_body() {
    assert_eq!(
        api_error_message("429 Too Many Requests", "slow down"),
        "API error (429 Too Many Requests): slow down"
    );
    assert_eq!(
        models_api_error_message("503 Service Unavailable", "later"),
        "Models API error (503 Service Unavailable): later"
    );
}

#[test]
fn calendar_stubs_report_unavailability() {
    let msg = "Calendar integration is only available on macOS";
    match get_calendar_list() {
        Err(e) => assert_eq!(e, msg),
        Ok(_) => panic!("the calendar stub should report unavailability"),
    }
    match get_events_for_date(vec!["c1".to_string()], "2026-01-01".to_string()) {
        Err(e) => assert_eq!(e, msg),
        Ok(_) => panic!("the calendar stub should report unavailability"),
    }
}

#[test]
fn decimal_rendering() {
    assert_eq!(fmt_u64(0), "0");
    assert_eq!(fmt_u64(1234567890), "1234567890");
    assert_eq!(fmt_i64(-5), "-5");
    assert_eq!(fmt_i64(i64::MIN), "-9223372036854775808");
    assert_eq!(fmt_i32(-2147483648), "-2147483648");
    assert_eq!(fmt_i32(42), "42");
}
