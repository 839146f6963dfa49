//! Calls to the vendor's JSON-RPC services: which may be made, what is sent,
//! and what the reply means.

use crate::json::{parse_json, parsed_json, Json, JsonValue};
use crate::request::{push_pair, Body, HttpRequest, Request, RequestBody};
use crate::state::AppState;
use crate::text::{is_blank, is_blank_text, str_eq};
use crate::ui_error::{unexpected_payload, Payload, UiErrorPayload};
use vstd::prelude::*;
use vstd::string::StringExecFns;

verus! {

/// The prefix that qualifies the method names of `service`.
pub open spec fn method_prefix(service: Seq<char>) -> Option<Seq<char>> {
    if service == "betting"@ {
        Some("SportsAPING/v1.0"@)
    } else if service == "account"@ {
        Some("AccountAPING/v1.0"@)
    } else if service == "heartbeat"@ {
        Some("HeartbeatAPING/v1.0"@)
    } else {
        None
    }
}

/// The endpoint of `service`.
pub open spec fn base_url(service: Seq<char>) -> Option<Seq<char>> {
    if service == "betting"@ {
        Some("https://api.betfair.com/exchange/betting/json-rpc/v1"@)
    } else if service == "account"@ {
        Some("https://api.betfair.com/exchange/account/json-rpc/v1"@)
    } else if service == "heartbeat"@ {
        Some("https://api.betfair.com/exchange/heartbeat/json-rpc/v1"@)
    } else {
        None
    }
}

/// `method` is on the allowlist that `state` holds for `service`.
pub open spec fn method_allowed(state: &AppState, service: Seq<char>, method: Seq<char>) -> bool {
    if service == "betting"@ {
        state.allowlist_betting@.contains(method)
    } else if service == "account"@ {
        state.allowlist_account@.contains(method)
    } else if service == "heartbeat"@ {
        state.allowlist_heartbeat@.contains(method)
    } else {
        false
    }
}

/// The prefix that qualifies the method names of `service`, where `service`
/// is one of the three services.
pub fn service_method_prefix(service: &str) -> (prefix: Option<&'static str>)
    ensures
        match prefix {
            Some(p) => method_prefix(service@) == Some(p@),
            None => method_prefix(service@) is None,
        },
{
    if str_eq(service, "betting") {
        Some("SportsAPING/v1.0")
    } else if str_eq(service, "account") {
        Some("AccountAPING/v1.0")
    } else if str_eq(service, "heartbeat") {
        Some("HeartbeatAPING/v1.0")
    } else {
        None
    }
}

/// The endpoint of `service`, where `service` is one of the three services.
pub fn service_base_url(service: &str) -> (url: Option<&'static str>)
    ensures
        match url {
            Some(u) => base_url(service@) == Some(u@),
            None => base_url(service@) is None,
        },
{
    if str_eq(service, "betting") {
        Some("https://api.betfair.com/exchange/betting/json-rpc/v1")
    } else if str_eq(service, "account") {
        Some("https://api.betfair.com/exchange/account/json-rpc/v1")
    } else if str_eq(service, "heartbeat") {
        Some("https://api.betfair.com/exchange/heartbeat/json-rpc/v1")
    } else {
        None
    }
}

/// Whether `method` is on the allowlist of `service`. The method is the bare
/// name; the proxy adds the service's prefix itself.
pub fn is_method_allowed(state: &AppState, service: &str, method: &str) -> (allowed: bool)
    ensures
        allowed == method_allowed(state, service@, method@),
{
    if str_eq(service, "betting") {
        state.allowlist_betting.contains(method)
    } else if str_eq(service, "account") {
        state.allowlist_account.contains(method)
    } else if str_eq(service, "heartbeat") {
        state.allowlist_heartbeat.contains(method)
    } else {
        false
    }
}

/// An error that carries nothing but its key.
pub open spec fn key_only(key: Seq<char>) -> Payload {
    Payload { key, values: None }
}

/// The document that asks for `method` with `params`.
pub open spec fn rpc_document(method: Seq<char>, params: JsonValue) -> JsonValue {
    JsonValue::Object(
        seq![
            ("jsonrpc"@, JsonValue::Text("2.0"@)),
            ("method"@, JsonValue::Text(method)),
            ("params"@, params),
            ("id"@, JsonValue::UInt(1)),
        ],
    )
}

/// The request that calls `method` at `url` with the given credentials.
pub open spec fn rpc_request(
    url: Seq<char>,
    app_key: Seq<char>,
    session_token: Seq<char>,
    method: Seq<char>,
    params: JsonValue,
) -> Request {
    Request {
        method: "POST"@,
        url,
        headers: seq![
            ("X-Application"@, app_key),
            ("X-Authentication"@, session_token),
            ("Content-Type"@, "application/json"@),
            ("Accept"@, "application/json"@),
        ],
        body: Body::Json(rpc_document(method, params)),
    }
}

/// What becomes of a call: the request to send, or the reason why nothing is
/// sent. A service that does not exist is refused first, then a method that is
/// not on the service's allowlist, then a blank application key, then a
/// missing session token.
pub open spec fn call_plan(
    state: &AppState,
    service: Seq<char>,
    method: Seq<char>,
    params: JsonValue,
) -> Result<Request, Payload> {
    if base_url(service) is None {
        Err(key_only("errors:validation.invalidService"@))
    } else if !method_allowed(state, service, method) {
        Err(key_only("errors:validation.methodNotAllowed"@))
    } else if is_blank(state.app_key@) {
        Err(key_only("errors:validation.appKeyRequired"@))
    } else if !state.logged_in() {
        Err(key_only("errors:auth.notLoggedIn"@))
    } else {
        Ok(
            rpc_request(
                base_url(service)->Some_0,
                state.app_key@,
                state.session_token->Some_0@,
                method_prefix(service)->Some_0 + "/"@ + method,
                params,
            ),
        )
    }
}

/// A method that is not on its service's allowlist is refused before any
/// request exists, and so is every method of a service that does not exist.
pub proof fn lemma_unlisted_method_is_refused(
    state: &AppState,
    service: Seq<char>,
    method: Seq<char>,
    params: JsonValue,
)
    requires
        !method_allowed(state, service, method),
    ensures
        base_url(service) is Some ==> call_plan(state, service, method, params) == Err::<
            Request,
            Payload,
        >(key_only("errors:validation.methodNotAllowed"@)),
        base_url(service) is None ==> call_plan(state, service, method, params) == Err::<
            Request,
            Payload,
        >(key_only("errors:validation.invalidService"@)),
{
}

/// The reason why a call is refused names no credential: it is one of four
/// keys without values, whatever the application key and the session token
/// hold.
pub proof fn lemma_refusal_holds_no_credential(
    state: &AppState,
    service: Seq<char>,
    method: Seq<char>,
    params: JsonValue,
)
    ensures
        call_plan(state, service, method, params) matches Err(error) ==> error.values is None && (
        error.key == "errors:validation.invalidService"@ || error.key
            == "errors:validation.methodNotAllowed"@ || error.key
            == "errors:validation.appKeyRequired"@ || error.key == "errors:auth.notLoggedIn"@),
{
}

/// Decides whether `method` of `service` may be called, and with what request.
pub fn prepare_call(state: &AppState, service: &str, method: &str, params: Json) -> (plan: Result<
    HttpRequest,
    UiErrorPayload,
>)
    ensures
        match plan {
            Ok(request) => call_plan(state, service@, method@, params@) == Ok::<Request, Payload>(
                request@,
            ),
            Err(error) => call_plan(state, service@, method@, params@) == Err::<Request, Payload>(
                error@,
            ),
        },
{
    let url = match service_base_url(service) {
        Some(url) => url,
        None => {
            return Err(UiErrorPayload::key("errors:validation.invalidService"));
        },
    };
    let prefix = match service_method_prefix(service) {
        Some(prefix) => prefix,
        None => {
            return Err(UiErrorPayload::key("errors:validation.invalidService"));
        },
    };
    if !is_method_allowed(state, service, method) {
        return Err(UiErrorPayload::key("errors:validation.methodNotAllowed"));
    }
    if is_blank_text(state.app_key.as_str()) {
        return Err(UiErrorPayload::key("errors:validation.appKeyRequired"));
    }
    let token = match &state.session_token {
        Some(token) => token,
        None => {
            return Err(UiErrorPayload::key("errors:auth.notLoggedIn"));
        },
    };
    if token.as_str().is_empty() {
        return Err(UiErrorPayload::key("errors:auth.notLoggedIn"));
    }
    let full_method = prefix.to_owned().concat("/").concat(method);
    let document = Json::object().with("jsonrpc", Json::text("2.0")).with(
        "method",
        Json::Text(full_method),
    ).with("params", params).with("id", Json::UInt(1));
    assert(document@->Object_0 =~= rpc_document(
        method_prefix(service@)->Some_0 + "/"@ + method@,
        params@,
    )->Object_0);
    let mut headers: Vec<(String, String)> = Vec::new();
    push_pair(&mut headers, "X-Application", state.app_key.as_str());
    push_pair(&mut headers, "X-Authentication", token.as_str());
    push_pair(&mut headers, "Content-Type", "application/json");
    push_pair(&mut headers, "Accept", "application/json");
    let request = HttpRequest {
        method: "POST",
        url: url.to_owned(),
        headers,
        body: RequestBody::Json(document),
    };
    assert(request@.headers =~= rpc_request(
        base_url(service@)->Some_0,
        state.app_key@,
        token@,
        method_prefix(service@)->Some_0 + "/"@ + method@,
        params@,
    ).headers);
    Ok(request)
}

/// The element of a reply that answers the call: the reply itself where it is
/// an object, its first item where it is an array that has one.
pub open spec fn reply_element(body: JsonValue) -> Option<JsonValue> {
    match body {
        JsonValue::Object(_) => Some(body),
        JsonValue::Array(items) => if items.len() > 0 {
            Some(items[0])
        } else {
            None
        },
        _ => None,
    }
}

/// `text` as a JSON value, `null` where there is none.
pub open spec fn text_or_null(text: Option<Seq<char>>) -> JsonValue {
    match text {
        Some(t) => JsonValue::Text(t),
        None => JsonValue::Null,
    }
}

/// The error for a reply that holds neither a result nor an error.
pub open spec fn invalid_response(http_status: u16) -> Payload {
    Payload {
        key: "errors:betfair.rpc.invalidResponse"@,
        values: Some(JsonValue::Object(seq![("httpStatus"@, JsonValue::UInt(http_status as u64))])),
    }
}

/// The error for a reply whose element holds the error `error`.
pub open spec fn rpc_failed(
    http_status: u16,
    request_id: Option<Seq<char>>,
    bf_correlation_id: Option<Seq<char>>,
    error: JsonValue,
) -> Payload {
    Payload {
        key: "errors:betfair.rpc.failed"@,
        values: Some(
            JsonValue::Object(
                seq![
                    ("httpStatus"@, JsonValue::UInt(http_status as u64)),
                    (
                        "code"@,
                        match error.member("code"@) {
                            Some(code) => code,
                            None => JsonValue::Null,
                        },
                    ),
                    (
                        "message"@,
                        JsonValue::Text(
                            match error.member("message"@) {
                                Some(JsonValue::Text(message)) => message,
                                _ => "UNKNOWN"@,
                            },
                        ),
                    ),
                    ("requestId"@, text_or_null(request_id)),
                    ("bfCorrelationId"@, text_or_null(bf_correlation_id)),
                    ("error"@, error),
                ],
            ),
        ),
    }
}

/// What a reply means. An element with an `error` member fails the call, with
/// the error's code and message and the ids the response's headers carried. An
/// element without one, with a `result` member, gives that result, as it is.
/// Anything else is an invalid response.
pub open spec fn rpc_outcome(
    http_status: u16,
    request_id: Option<Seq<char>>,
    bf_correlation_id: Option<Seq<char>>,
    body: JsonValue,
) -> Result<JsonValue, Payload> {
    match reply_element(body) {
        None => Err(invalid_response(http_status)),
        Some(element) => match element.member("error"@) {
            Some(error) => Err(rpc_failed(http_status, request_id, bf_correlation_id, error)),
            None => match element.member("result"@) {
                Some(result) => Ok(result),
                None => Err(invalid_response(http_status)),
            },
        },
    }
}

/// A reply gives a result only where its element holds no error, and fails as
/// an RPC error only where it holds one: the two never mix.
pub proof fn lemma_result_excludes_error(
    http_status: u16,
    request_id: Option<Seq<char>>,
    bf_correlation_id: Option<Seq<char>>,
    body: JsonValue,
)
    ensures
        match rpc_outcome(http_status, request_id, bf_correlation_id, body) {
            Ok(result) => reply_element(body) matches Some(element) && element.member("error"@)
                is None && element.member("result"@) == Some(result),
            Err(error) => error == invalid_response(http_status) || (reply_element(body) matches Some(
                element,
            ) && element.member("error"@) matches Some(e) && error == rpc_failed(
                http_status,
                request_id,
                bf_correlation_id,
                e,
            )),
        },
{
}

fn invalid_response_error(http_status: u16) -> (error: UiErrorPayload)
    ensures
        error@ == invalid_response(http_status),
{
    let values = Json::object().with("httpStatus", Json::UInt(http_status as u64));
    assert(values@->Object_0 =~= invalid_response(http_status).values->Some_0->Object_0);
    UiErrorPayload::with_values("errors:betfair.rpc.invalidResponse", values)
}

fn rpc_failed_error(
    http_status: u16,
    request_id: Option<&str>,
    bf_correlation_id: Option<&str>,
    error: &Json,
) -> (payload: UiErrorPayload)
    ensures
        payload@ == rpc_failed(
            http_status,
            match request_id {
                Some(id) => Some(id@),
                None => None,
            },
            match bf_correlation_id {
                Some(id) => Some(id@),
                None => None,
            },
            error@,
        ),
{
    let code = match error.get("code") {
        Some(code) => code.deep_copy(),
        None => Json::Null,
    };
    let message = match error.get("message") {
        Some(Json::Text(message)) => Json::Text(message.clone()),
        _ => Json::text("UNKNOWN"),
    };
    let values = Json::object().with("httpStatus", Json::UInt(http_status as u64)).with(
        "code",
        code,
    ).with("message", message).with("requestId", Json::text_or_null(request_id)).with(
        "bfCorrelationId",
        Json::text_or_null(bf_correlation_id),
    ).with("error", error.deep_copy());
    let payload = UiErrorPayload::with_values("errors:betfair.rpc.failed", values);
    proof {
        let expected = rpc_failed(
            http_status,
            match request_id {
                Some(id) => Some(id@),
                None => None,
            },
            match bf_correlation_id {
                Some(id) => Some(id@),
                None => None,
            },
            error@,
        );
        assert(values@->Object_0 =~= expected.values->Some_0->Object_0);
    }
    payload
}

/// Reads the document of a reply; the ids are those of the response's
/// `x-request-id` and `x-bf-correlation-id` headers, where it has them.
pub fn read_rpc_document(
    http_status: u16,
    request_id: Option<&str>,
    bf_correlation_id: Option<&str>,
    document: &Json,
) -> (outcome: Result<Json, UiErrorPayload>)
    ensures
        ({
            let expected = rpc_outcome(
                http_status,
                match request_id {
                    Some(id) => Some(id@),
                    None => None,
                },
                match bf_correlation_id {
                    Some(id) => Some(id@),
                    None => None,
                },
                document@,
            );
            match outcome {
                Ok(result) => expected == Ok::<JsonValue, Payload>(result@),
                Err(error) => expected == Err::<JsonValue, Payload>(error@),
            }
        }),
{
    let element = match document {
        Json::Object(_) => document,
        _ => match document.first_item() {
            Some(first) => first,
            None => {
                return Err(invalid_response_error(http_status));
            },
        },
    };
    if let Some(error) = element.get("error") {
        return Err(rpc_failed_error(http_status, request_id, bf_correlation_id, error));
    }
    match element.get("result") {
        Some(result) => Ok(result.deep_copy()),
        None => Err(invalid_response_error(http_status)),
    }
}

/// What a reply with this body means: what its document means, where the
/// body is JSON; an unexpected failure where it is not.
pub open spec fn rpc_reply_outcome(
    http_status: u16,
    request_id: Option<Seq<char>>,
    bf_correlation_id: Option<Seq<char>>,
    body: Seq<char>,
) -> Result<JsonValue, Payload> {
    match parsed_json(body) {
        Some(document) => rpc_outcome(http_status, request_id, bf_correlation_id, document),
        None => Err(unexpected_payload("read failed: the response is not JSON"@)),
    }
}

/// Reads the reply to a call from the body of the response.
pub fn read_rpc_reply(
    http_status: u16,
    request_id: Option<&str>,
    bf_correlation_id: Option<&str>,
    body: &str,
) -> (outcome: Result<Json, UiErrorPayload>)
    ensures
        ({
            let expected = rpc_reply_outcome(
                http_status,
                match request_id {
                    Some(id) => Some(id@),
                    None => None,
                },
                match bf_correlation_id {
                    Some(id) => Some(id@),
                    None => None,
                },
                body@,
            );
            match outcome {
                Ok(result) => expected == Ok::<JsonValue, Payload>(result@),
                Err(error) => expected == Err::<JsonValue, Payload>(error@),
            }
        }),
{
    match parse_json(body) {
        Some(document) => read_rpc_document(http_status, request_id, bf_correlation_id, &document),
        None => Err(UiErrorPayload::unexpected("read failed: the response is not JSON")),
    }
}

} // verus!
