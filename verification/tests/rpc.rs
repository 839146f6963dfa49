use betfair_stream_proxy::json::Json;
use betfair_stream_proxy::request::RequestBody;
use betfair_stream_proxy::rpc::{
    is_method_allowed, prepare_call, read_rpc_document, read_rpc_reply, service_base_url,
    service_method_prefix,
};
use betfair_stream_proxy::state::AppState;
use betfair_stream_proxy::ui_error::UiErrorPayload;

fn logged_in() -> AppState {
    let mut state = AppState::new("app-key".to_string());
    state.session_token = Some("session".to_string());
    state
}

fn header(name: &str, value: &str) -> (String, String) {
    (name.to_string(), value.to_string())
}

#[test]
fn base_url_of_each_service() {
    assert_eq!(service_base_url("betting"), Some("https://api.betfair.com/exchange/betting/json-rpc/v1"));
    assert_eq!(service_base_url("account"), Some("https://api.betfair.com/exchange/account/json-rpc/v1"));
    assert_eq!(
        service_base_url("heartbeat"),
        Some("https://api.betfair.com/exchange/heartbeat/json-rpc/v1")
    );
    assert_eq!(service_base_url("Betting"), None);
    assert_eq!(service_base_url(""), None);
}

#[test]
fn method_prefix_of_each_service() {
    assert_eq!(service_method_prefix("betting"), Some("SportsAPING/v1.0"));
    assert_eq!(service_method_prefix("account"), Some("AccountAPING/v1.0"));
    assert_eq!(service_method_prefix("heartbeat"), Some("HeartbeatAPING/v1.0"));
    assert_eq!(service_method_prefix("stream"), None);
}

#[test]
fn methods_are_allowed_per_service() {
    let state = AppState::new(String::new());
    assert!(is_method_allowed(&state, "betting", "listMarketBook"));
    assert!(is_method_allowed(&state, "account", "getAccountFunds"));
    assert!(is_method_allowed(&state, "heartbeat", "keepAlive"));
    assert!(!is_method_allowed(&state, "betting", "getAccountFunds"));
    assert!(!is_method_allowed(&state, "account", "keepAlive"));
    assert!(!is_method_allowed(&state, "heartbeat", "placeOrders"));
    assert!(!is_method_allowed(&state, "casino", "keepAlive"));
    assert!(!is_method_allowed(&state, "betting", "SportsAPING/v1.0/listMarketBook"));
}

#[test]
fn call_builds_the_request() {
    let params = Json::object().with("wallet", Json::text("UK"));
    let request = prepare_call(&logged_in(), "account", "getAccountFunds", params).unwrap();
    assert_eq!(request.method, "POST");
    assert_eq!(request.url, "https://api.betfair.com/exchange/account/json-rpc/v1");
    assert_eq!(
        request.headers,
        vec![
            header("X-Application", "app-key"),
            header("X-Authentication", "session"),
            header("Content-Type", "application/json"),
            header("Accept", "application/json"),
        ]
    );
    assert_eq!(
        request.body,
        RequestBody::Json(
            Json::object()
                .with("jsonrpc", Json::text("2.0"))
                .with("method", Json::text("AccountAPING/v1.0/getAccountFunds"))
                .with("params", Json::object().with("wallet", Json::text("UK")))
                .with("id", Json::UInt(1))
        )
    );
}

#[test]
fn call_qualifies_the_method_with_the_prefix_of_its_service() {
    for (service, method, full) in [
        ("betting", "listEvents", "SportsAPING/v1.0/listEvents"),
        ("heartbeat", "keepAlive", "HeartbeatAPING/v1.0/keepAlive"),
    ] {
        let request = prepare_call(&logged_in(), service, method, Json::Null).unwrap();
        match request.body {
            RequestBody::Json(document) => {
                assert_eq!(document.get("method"), Some(&Json::text(full)))
            }
            RequestBody::Form(_) => panic!("a call carries JSON"),
        }
    }
}

#[test]
fn call_is_refused_in_order() {
    let key = |state: &AppState, service: &str, method: &str| {
        prepare_call(state, service, method, Json::Null).unwrap_err()
    };
    let mut state = AppState::new("  ".to_string());
    assert_eq!(key(&state, "casino", "listEvents"), UiErrorPayload::key("errors:validation.invalidService"));
    assert_eq!(key(&state, "betting", "keepAlive"), UiErrorPayload::key("errors:validation.methodNotAllowed"));
    assert_eq!(key(&state, "betting", "listEvents"), UiErrorPayload::key("errors:validation.appKeyRequired"));
    state.app_key = "k".to_string();
    assert_eq!(key(&state, "betting", "listEvents"), UiErrorPayload::key("errors:auth.notLoggedIn"));
    state.session_token = Some(String::new());
    assert_eq!(key(&state, "betting", "listEvents"), UiErrorPayload::key("errors:auth.notLoggedIn"));
    state.session_token = Some("s".to_string());
    assert!(prepare_call(&state, "betting", "listEvents", Json::Null).is_ok());
}

#[test]
fn unlisted_method_is_refused_even_when_logged_in() {
    let error = prepare_call(&logged_in(), "account", "placeOrders", Json::Null).unwrap_err();
    assert_eq!(error, UiErrorPayload::key("errors:validation.methodNotAllowed"));
}

#[test]
fn reply_with_a_result_gives_it_back_as_it_is() {
    let result = Json::Array(vec![Json::object().with("id", Json::Int(-3)), Json::Real("1.5".to_string())]);
    let body = Json::object()
        .with("jsonrpc", Json::text("2.0"))
        .with("result", Json::Array(vec![Json::object().with("id", Json::Int(-3)), Json::Real("1.5".to_string())]))
        .with("id", Json::UInt(1));
    assert_eq!(read_rpc_document(200, None, None, &body), Ok(result));
}

#[test]
fn reply_that_is_an_array_is_read_by_its_first_item() {
    let body = Json::Array(vec![
        Json::object().with("result", Json::text("first")),
        Json::object().with("result", Json::text("second")),
    ]);
    assert_eq!(read_rpc_document(200, None, None, &body), Ok(Json::text("first")));
}

#[test]
fn reply_with_an_error_fails_the_call() {
    let error = Json::object()
        .with("code", Json::Int(-32099))
        .with("message", Json::text("ANGX-0003"))
        .with("data", Json::object());
    let body = Json::object().with("jsonrpc", Json::text("2.0")).with("error", error.deep_copy());
    let failure = read_rpc_document(400, Some("req-1"), None, &body).unwrap_err();
    assert_eq!(failure.key, "errors:betfair.rpc.failed");
    assert_eq!(
        failure.values,
        Some(
            Json::object()
                .with("httpStatus", Json::UInt(400))
                .with("code", Json::Int(-32099))
                .with("message", Json::text("ANGX-0003"))
                .with("requestId", Json::text("req-1"))
                .with("bfCorrelationId", Json::Null)
                .with("error", error)
        )
    );
}

#[test]
fn error_without_code_or_text_message_gets_defaults() {
    let body = Json::object().with("error", Json::object().with("message", Json::UInt(5)));
    let failure = read_rpc_document(500, None, Some("corr"), &body).unwrap_err();
    assert_eq!(
        failure.values,
        Some(
            Json::object()
                .with("httpStatus", Json::UInt(500))
                .with("code", Json::Null)
                .with("message", Json::text("UNKNOWN"))
                .with("requestId", Json::Null)
                .with("bfCorrelationId", Json::text("corr"))
                .with("error", Json::object().with("message", Json::UInt(5)))
        )
    );
}

#[test]
fn error_counts_before_a_result() {
    let body = Json::object().with("result", Json::UInt(1)).with("error", Json::text("bad"));
    let failure = read_rpc_document(200, None, None, &body).unwrap_err();
    assert_eq!(failure.key, "errors:betfair.rpc.failed");
}

#[test]
fn reply_with_neither_is_invalid() {
    for body in [
        Json::object(),
        Json::Array(vec![]),
        Json::Array(vec![Json::UInt(1)]),
        Json::Null,
        Json::text("result"),
        Json::object().with("jsonrpc", Json::text("2.0")),
    ] {
        let invalid = UiErrorPayload::with_values(
            "errors:betfair.rpc.invalidResponse",
            Json::object().with("httpStatus", Json::UInt(502)),
        );
        assert_eq!(read_rpc_document(502, None, None, &body), Err(invalid));
    }
}

#[test]
fn reply_is_read_from_the_text_of_the_body() {
    let body = "{\"jsonrpc\":\"2.0\",\"result\":{\"availableToBetBalance\":12.5,\"wallet\":\"UK\"},\"id\":1}";
    assert_eq!(
        read_rpc_reply(200, None, None, body),
        Ok(Json::object()
            .with("availableToBetBalance", Json::Real("12.5".to_string()))
            .with("wallet", Json::text("UK")))
    );
    let body = "[{\"jsonrpc\":\"2.0\",\"error\":{\"code\":-32601,\"message\":\"DSC-0021\"},\"id\":1}]";
    let failure = read_rpc_reply(404, Some("r"), Some("c"), body).unwrap_err();
    assert_eq!(failure.key, "errors:betfair.rpc.failed");
    let values = failure.values.unwrap();
    assert_eq!(values.get("httpStatus"), Some(&Json::UInt(404)));
    assert_eq!(values.get("code"), Some(&Json::Int(-32601)));
    assert_eq!(values.get("message"), Some(&Json::text("DSC-0021")));
    assert_eq!(values.get("requestId"), Some(&Json::text("r")));
    assert_eq!(values.get("bfCorrelationId"), Some(&Json::text("c")));
}

#[test]
fn body_that_is_not_json_is_an_unexpected_failure() {
    for body in ["", "<html></html>", "{\"result\":"] {
        assert_eq!(
            read_rpc_reply(200, None, None, body),
            Err(UiErrorPayload::unexpected("read failed: the response is not JSON"))
        );
    }
}
