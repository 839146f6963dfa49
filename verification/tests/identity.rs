use betfair_stream_proxy::identity::{
    decide_login, decode_form_value, identity_error_payload, login_request, looks_like_json,
    read_form_fields, read_json_fields, read_login_reply, read_reply_fields, IdentityJsonResponse,
};
use betfair_stream_proxy::json::Json;
use betfair_stream_proxy::request::RequestBody;

fn values(code: &str, http_status: u64, content_type: &str) -> Option<Json> {
    Some(
        Json::object()
            .with("code", Json::text(code))
            .with("httpStatus", Json::UInt(http_status))
            .with("contentType", Json::text(content_type)),
    )
}

fn pair(name: &str, value: &str) -> (String, String) {
    (name.to_string(), value.to_string())
}

#[test]
fn identity_success_from_a_form_body() {
    let token = read_login_reply(200, "text/plain", "status=SUCCESS&token=abc%20def");
    assert_eq!(token, Ok("abc def".to_string()));
}

#[test]
fn identity_failure_from_a_json_body() {
    let body = "{\"status\":\"FAIL\",\"error\":\"ACCOUNT_LOCKED\"}";
    let error = read_login_reply(403, "application/json", body).unwrap_err();
    assert_eq!(error.key, "errors:identity.ACCOUNT_LOCKED");
    assert_eq!(error.values, values("ACCOUNT_LOCKED", 403, "application/json"));
    assert_eq!(error.values.unwrap().get("httpStatus"), Some(&Json::UInt(403)));
}

#[test]
fn identity_success_from_a_json_body_prefers_session_token() {
    let body = "{\"status\":\"SUCCESS\",\"token\":\"old\",\"sessionToken\":\"  new \\n\"}";
    let token = read_login_reply(200, "application/JSON; charset=utf-8", body);
    assert_eq!(token, Ok("new".to_string()));
    let body = "{\"status\":\"SUCCESS\",\"token\":\"old\",\"sessionToken\":null}";
    let token = read_login_reply(200, "application/json", body);
    assert_eq!(token, Ok("old".to_string()));
}

#[test]
fn body_that_starts_with_a_brace_reads_as_json_whatever_the_content_type() {
    let body = " \n{\"status\":\"SUCCESS\",\"token\":\"t\",\"extra\":[1,2.5,{\"a\":-1}]}";
    assert_eq!(read_login_reply(200, "", body), Ok("t".to_string()));
    // A reply that reads as JSON and is none is invalid.
    let error = read_login_reply(200, "", "{status=SUCCESS&token=t").unwrap_err();
    assert_eq!(error.key, "errors:betfair.identity.invalidResponse");
    assert_eq!(error.values, values("INVALID_RESPONSE", 200, ""));
}

#[test]
fn json_with_a_field_that_is_not_text_is_invalid() {
    let json = Json::object().with("status", Json::text("SUCCESS")).with("token", Json::UInt(7));
    assert_eq!(read_json_fields(&json), None);
    let error =
        read_login_reply(200, "application/json", "{\"status\":\"SUCCESS\",\"token\":7}").unwrap_err();
    assert_eq!(error.key, "errors:betfair.identity.invalidResponse");
    let error = read_login_reply(200, "application/json", "status=SUCCESS&token=t").unwrap_err();
    assert_eq!(error.key, "errors:betfair.identity.invalidResponse");
    let error = read_login_reply(200, "application/json", "[\"SUCCESS\",\"t\"]").unwrap_err();
    assert_eq!(error.key, "errors:betfair.identity.invalidResponse");
    assert_eq!(read_json_fields(&Json::Array(vec![])), None);
    assert_eq!(read_json_fields(&Json::text("SUCCESS")), None);
}

#[test]
fn json_fields_are_read_by_name() {
    let json = Json::object()
        .with("other", Json::Bool(true))
        .with("error", Json::text("E"))
        .with("status", Json::text("FAIL"));
    assert_eq!(
        read_json_fields(&json),
        Some(IdentityJsonResponse {
            status: Some("FAIL".to_string()),
            token: None,
            session_token: None,
            error: Some("E".to_string()),
        })
    );
}

#[test]
fn missing_or_blank_token_is_an_error() {
    let error = read_login_reply(200, "text/plain", "status=SUCCESS").unwrap_err();
    assert_eq!(error.key, "errors:betfair.identity.missingSessionToken");
    assert_eq!(error.values, values("MISSING_SESSION_TOKEN", 200, "text/plain"));
    let error = read_login_reply(200, "text/plain", "status=SUCCESS&token=%20%20").unwrap_err();
    assert_eq!(error.key, "errors:betfair.identity.missingSessionToken");
    // An empty session token is not made up for by a token.
    let error =
        read_login_reply(200, "text/plain", "status=SUCCESS&sessionToken=&token=t").unwrap_err();
    assert_eq!(error.key, "errors:betfair.identity.missingSessionToken");
}

#[test]
fn form_token_is_trimmed() {
    assert_eq!(
        read_login_reply(200, "text/plain", "token=%20tok%0A&status=SUCCESS"),
        Ok("tok".to_string())
    );
}

#[test]
fn failure_with_an_unknown_code_keeps_the_code() {
    let error = read_login_reply(400, "text/plain", "status=FAIL&error=%20NEW_CODE%20").unwrap_err();
    assert_eq!(error.key, "errors:identity.unknown");
    assert_eq!(error.values, values("NEW_CODE", 400, "text/plain"));
    let error = read_login_reply(400, "text/plain", "status=FAIL").unwrap_err();
    assert_eq!(error.key, "errors:identity.unknown");
    assert_eq!(error.values, values("UNKNOWN", 400, "text/plain"));
}

#[test]
fn every_known_code_has_its_own_key() {
    let known = [
        "INVALID_USERNAME_OR_PASSWORD",
        "ACCOUNT_LOCKED",
        "ACCOUNT_SUSPENDED",
        "INVALID_APP_KEY",
        "INVALID_CONNECTIVITY_TO_REGULATOR_DK",
        "INVALID_CONNECTIVITY_TO_REGULATOR_IT",
        "INVALID_CONNECTIVITY_TO_REGULATOR_NZ",
        "KYC_SUSPEND",
        "PENDING_AUTH",
        "SECURITY_QUESTION_WRONG_3X",
        "SELF_EXCLUDED",
        "TOO_MANY_REQUESTS",
    ];
    for code in known {
        let error = identity_error_payload(code, 200, "text/plain");
        assert_eq!(error.key, format!("errors:identity.{code}"));
        assert_eq!(error.values, values(code, 200, "text/plain"));
    }
    assert_eq!(identity_error_payload("account_locked", 200, "").key, "errors:identity.unknown");
    assert_eq!(
        identity_error_payload("INVALID_RESPONSE", 200, "").key,
        "errors:betfair.identity.invalidResponse"
    );
    assert_eq!(
        identity_error_payload("MISSING_SESSION_TOKEN", 200, "").key,
        "errors:betfair.identity.missingSessionToken"
    );
}

#[test]
fn anything_else_is_an_invalid_response() {
    for body in ["", "<html>redirect</html>", "status=OTHER&token=t", "token=t"] {
        let error = read_login_reply(302, "text/html", body).unwrap_err();
        assert_eq!(error.key, "errors:betfair.identity.invalidResponse");
        assert_eq!(error.values, values("INVALID_RESPONSE", 302, "text/html"));
    }
}

#[test]
fn reply_fields_come_from_json_or_from_the_form() {
    let empty = IdentityJsonResponse { status: None, token: None, session_token: None, error: None };
    assert_eq!(
        read_reply_fields("application/json", "{\"status\":\"FAIL\",\"error\":null,\"n\":1e3}"),
        IdentityJsonResponse { status: Some("FAIL".to_string()), ..empty }
    );
    let empty = IdentityJsonResponse { status: None, token: None, session_token: None, error: None };
    assert_eq!(
        read_reply_fields("text/plain", "status=FAIL"),
        IdentityJsonResponse { status: Some("FAIL".to_string()), ..empty }
    );
    let empty = IdentityJsonResponse { status: None, token: None, session_token: None, error: None };
    assert_eq!(read_reply_fields("application/json", "{\"status\":"), empty);
}

#[test]
fn form_fields_later_parts_override_earlier_ones() {
    assert_eq!(
        read_form_fields("status=FAIL&x=1&status=SUCCESS&token=a%2Bb&error&sessionToken=s=t"),
        IdentityJsonResponse {
            status: Some("SUCCESS".to_string()),
            token: Some("a+b".to_string()),
            session_token: Some("s=t".to_string()),
            error: Some(String::new()),
        }
    );
    assert_eq!(
        read_form_fields(""),
        IdentityJsonResponse { status: None, token: None, session_token: None, error: None }
    );
}

#[test]
fn form_values_are_percent_decoded() {
    assert_eq!(decode_form_value("abc%20def"), "abc def");
    assert_eq!(decode_form_value("plain+text"), "plain+text");
    assert_eq!(decode_form_value("%C3%A9"), "\u{e9}");
    assert_eq!(decode_form_value("100%"), "100%");
    assert_eq!(decode_form_value("%zz"), "%zz");
    // Bytes that are not UTF-8 leave the value as it stands.
    assert_eq!(decode_form_value("%ff"), "%ff");
}

#[test]
fn looks_like_json_by_content_type_or_first_character() {
    assert!(looks_like_json("application/json", "status=SUCCESS"));
    assert!(looks_like_json("text/JSON", ""));
    assert!(looks_like_json("application/vnd.api+Json;v=1", ""));
    assert!(looks_like_json("text/plain", "  {\"a\":1}"));
    assert!(!looks_like_json("text/plain", "status=SUCCESS"));
    assert!(!looks_like_json("jso", "x{"));
    assert!(!looks_like_json("", ""));
}

#[test]
fn decide_login_reads_the_status() {
    let fields = IdentityJsonResponse {
        status: Some("SUCCESS".to_string()),
        token: Some(" t ".to_string()),
        session_token: None,
        error: None,
    };
    assert_eq!(decide_login(&fields, 200, ""), Ok("t".to_string()));
    let fields = IdentityJsonResponse {
        status: Some("success".to_string()),
        token: Some("t".to_string()),
        session_token: None,
        error: None,
    };
    assert_eq!(decide_login(&fields, 200, "").unwrap_err().key, "errors:betfair.identity.invalidResponse");
}

#[test]
fn login_request_carries_the_trimmed_user_name_and_the_password_as_it_is() {
    let request = login_request("app-key", "  alice \n", " p w ");
    assert_eq!(request.method, "POST");
    assert_eq!(request.url, "https://identitysso.betfair.com/api/login");
    assert_eq!(
        request.headers,
        vec![
            pair("X-Application", "app-key"),
            pair("Accept", "application/json"),
            pair("Content-Type", "application/x-www-form-urlencoded"),
        ]
    );
    assert_eq!(
        request.body,
        RequestBody::Form(vec![pair("username", "alice"), pair("password", " p w ")])
    );
}
