//! Logging in at the vendor's identity endpoint: what is sent, and what the
//! reply means.

use crate::json::{parse_json, parsed_json, Json, JsonValue};
use crate::request::{push_pair, Body, HttpRequest, Request, RequestBody};
use crate::text::{
    chars_of, first_after_blank, skip_blank, split, split_once, split_text, split_text_once,
    str_eq, trim, trimmed, views,
};
use crate::ui_error::{Payload, UiErrorPayload};
use vstd::prelude::*;
use vstd::string::StringExecFns;

verus! {

/// What `urlencoding::decode` makes of `data`: the text with each `%xx`
/// replaced by the byte it names, where that is UTF-8.
pub uninterp spec fn percent_decoded(data: Seq<char>) -> Option<Seq<char>>;

/// `s` holds a `%`, the sign that starts an escape.
pub open spec fn has_escape(s: Seq<char>) -> bool {
    s.contains('%')
}

/// `urlencoding::decode`. Text without a `%` comes back as it is.
#[verifier::external_body]
fn percent_decode(data: &str) -> (decoded: Option<String>)
    ensures
        decoded is Some <==> percent_decoded(data@) is Some,
        decoded matches Some(text) ==> percent_decoded(data@) == Some(text@),
        decoded is None ==> has_escape(data@),
        decoded matches Some(text) ==> has_escape(data@) || text@ == data@,
{
    match urlencoding::decode(data) {
        Ok(text) => Some(text.into_owned()),
        Err(_) => None,
    }
}

/// The value of a form field: percent-decoded, or as it stands where the
/// decoded bytes are not UTF-8.
pub open spec fn form_value(raw: Seq<char>) -> Seq<char> {
    match percent_decoded(raw) {
        Some(text) => text,
        None => raw,
    }
}

/// The value of a form field.
pub fn decode_form_value(raw: &str) -> (value: String)
    ensures
        value@ == form_value(raw@),
{
    match percent_decode(raw) {
        Some(text) => text,
        None => raw.to_owned(),
    }
}

/// The fields of a login reply that the proxy reads.
#[derive(Debug, PartialEq, Eq)]
pub struct IdentityJsonResponse {
    pub status: Option<String>,
    pub token: Option<String>,
    pub session_token: Option<String>,
    pub error: Option<String>,
}

/// What an `Option<String>` holds.
pub open spec fn text_view(text: Option<String>) -> Option<Seq<char>> {
    match text {
        Some(t) => Some(t@),
        None => None,
    }
}

/// What an [`IdentityJsonResponse`] holds.
pub struct Fields {
    pub status: Option<Seq<char>>,
    pub token: Option<Seq<char>>,
    pub session_token: Option<Seq<char>>,
    pub error: Option<Seq<char>>,
}

impl View for IdentityJsonResponse {
    type V = Fields;

    open spec fn view(&self) -> Fields {
        Fields {
            status: text_view(self.status),
            token: text_view(self.token),
            session_token: text_view(self.session_token),
            error: text_view(self.error),
        }
    }
}

impl Fields {
    /// No field is present.
    pub open spec fn none() -> Fields {
        Fields { status: None, token: None, session_token: None, error: None }
    }

    /// These fields after a form field called `name` with the value `value`:
    /// a known name sets its field, any other changes nothing.
    pub open spec fn set(self, name: Seq<char>, value: Seq<char>) -> Fields {
        if name == "status"@ {
            Fields { status: Some(value), ..self }
        } else if name == "token"@ {
            Fields { token: Some(value), ..self }
        } else if name == "sessionToken"@ {
            Fields { session_token: Some(value), ..self }
        } else if name == "error"@ {
            Fields { error: Some(value), ..self }
        } else {
            self
        }
    }
}

/// The error codes of the identity endpoint that have a message of their own.
pub open spec fn is_known_code(code: Seq<char>) -> bool {
    ||| code == "INVALID_USERNAME_OR_PASSWORD"@
    ||| code == "ACCOUNT_LOCKED"@
    ||| code == "ACCOUNT_SUSPENDED"@
    ||| code == "INVALID_APP_KEY"@
    ||| code == "INVALID_CONNECTIVITY_TO_REGULATOR_DK"@
    ||| code == "INVALID_CONNECTIVITY_TO_REGULATOR_IT"@
    ||| code == "INVALID_CONNECTIVITY_TO_REGULATOR_NZ"@
    ||| code == "KYC_SUSPEND"@
    ||| code == "PENDING_AUTH"@
    ||| code == "SECURITY_QUESTION_WRONG_3X"@
    ||| code == "SELF_EXCLUDED"@
    ||| code == "TOO_MANY_REQUESTS"@
}

/// The message key for an error code: a known code has a key of its own, the
/// two codes the proxy itself raises have theirs, every other code shares one.
pub open spec fn identity_error_key(code: Seq<char>) -> Seq<char> {
    if is_known_code(code) {
        "errors:identity."@ + code
    } else if code == "INVALID_RESPONSE"@ {
        "errors:betfair.identity.invalidResponse"@
    } else if code == "MISSING_SESSION_TOKEN"@ {
        "errors:betfair.identity.missingSessionToken"@
    } else {
        "errors:identity.unknown"@
    }
}

/// The error for a failed login: the key of the code, and as values the code
/// itself with the HTTP status and content type of the reply.
pub open spec fn identity_error(code: Seq<char>, http_status: u16, content_type: Seq<char>) -> Payload {
    Payload {
        key: identity_error_key(code),
        values: Some(
            JsonValue::Object(
                seq![
                    ("code"@, JsonValue::Text(code)),
                    ("httpStatus"@, JsonValue::UInt(http_status as u64)),
                    ("contentType"@, JsonValue::Text(content_type)),
                ],
            ),
        ),
    }
}

fn is_known(code: &str) -> (known: bool)
    ensures
        known == is_known_code(code@),
{
    str_eq(code, "INVALID_USERNAME_OR_PASSWORD") || str_eq(code, "ACCOUNT_LOCKED") || str_eq(
        code,
        "ACCOUNT_SUSPENDED",
    ) || str_eq(code, "INVALID_APP_KEY") || str_eq(code, "INVALID_CONNECTIVITY_TO_REGULATOR_DK")
        || str_eq(code, "INVALID_CONNECTIVITY_TO_REGULATOR_IT") || str_eq(
        code,
        "INVALID_CONNECTIVITY_TO_REGULATOR_NZ",
    ) || str_eq(code, "KYC_SUSPEND") || str_eq(code, "PENDING_AUTH") || str_eq(
        code,
        "SECURITY_QUESTION_WRONG_3X",
    ) || str_eq(code, "SELF_EXCLUDED") || str_eq(code, "TOO_MANY_REQUESTS")
}

/// The error for a failed login with this code.
pub fn identity_error_payload(code: &str, http_status: u16, content_type: &str) -> (error:
    UiErrorPayload)
    ensures
        error@ == identity_error(code@, http_status, content_type@),
{
    let key = if is_known(code) {
        "errors:identity.".to_owned().concat(code)
    } else if str_eq(code, "INVALID_RESPONSE") {
        "errors:betfair.identity.invalidResponse".to_owned()
    } else if str_eq(code, "MISSING_SESSION_TOKEN") {
        "errors:betfair.identity.missingSessionToken".to_owned()
    } else {
        "errors:identity.unknown".to_owned()
    };
    let values = Json::object().with("code", Json::text(code)).with(
        "httpStatus",
        Json::UInt(http_status as u64),
    ).with("contentType", Json::text(content_type));
    assert(values@->Object_0 =~= identity_error(
        code@,
        http_status,
        content_type@,
    ).values->Some_0->Object_0);
    UiErrorPayload::with_values(key.as_str(), values)
}

/// The request that logs `username` in: the user name trimmed, the password
/// as it is.
pub open spec fn login_request_for(
    app_key: Seq<char>,
    username: Seq<char>,
    password: Seq<char>,
) -> Request {
    Request {
        method: "POST"@,
        url: "https://identitysso.betfair.com/api/login"@,
        headers: seq![
            ("X-Application"@, app_key),
            ("Accept"@, "application/json"@),
            ("Content-Type"@, "application/x-www-form-urlencoded"@),
        ],
        body: Body::Form(seq![("username"@, trimmed(username)), ("password"@, password)]),
    }
}

/// The request that logs `username` in.
pub fn login_request(app_key: &str, username: &str, password: &str) -> (request: HttpRequest)
    ensures
        request@ == login_request_for(app_key@, username@, password@),
{
    let mut headers: Vec<(String, String)> = Vec::new();
    push_pair(&mut headers, "X-Application", app_key);
    push_pair(&mut headers, "Accept", "application/json");
    push_pair(&mut headers, "Content-Type", "application/x-www-form-urlencoded");
    let mut fields: Vec<(String, String)> = Vec::new();
    let name = trim(username);
    push_pair(&mut fields, "username", name.as_str());
    push_pair(&mut fields, "password", password);
    let request = HttpRequest {
        method: "POST",
        url: "https://identitysso.betfair.com/api/login".to_owned(),
        headers,
        body: RequestBody::Form(fields),
    };
    proof {
        let expected = login_request_for(app_key@, username@, password@);
        assert(request@.headers =~= expected.headers);
        assert(request@.body->Form_0 =~= expected.body->Form_0);
    }
    request
}

/// `s` holds `json`, in any mix of upper and lower case.
pub open spec fn mentions_json(s: Seq<char>) -> bool {
    exists|i: int| json_at(s, i)
}

/// `json`, in any mix of upper and lower case, starts at index `i` of `s`.
pub open spec fn json_at(s: Seq<char>, i: int) -> bool {
    &&& 0 <= i
    &&& i + 4 <= s.len()
    &&& (s[i] == 'j' || s[i] == 'J')
    &&& (s[i + 1] == 's' || s[i + 1] == 'S')
    &&& (s[i + 2] == 'o' || s[i + 2] == 'O')
    &&& (s[i + 3] == 'n' || s[i + 3] == 'N')
}

/// A reply is read as JSON where its content type mentions JSON, or where its
/// body, after any leading white space, starts with `{`.
pub open spec fn reads_as_json(content_type: Seq<char>, body: Seq<char>) -> bool {
    mentions_json(content_type) || (skip_blank(body).len() > 0 && skip_blank(body).first() == '{')
}

/// Whether a reply is read as JSON rather than as a URL-encoded form.
pub fn looks_like_json(content_type: &str, body: &str) -> (json: bool)
    ensures
        json == reads_as_json(content_type@, body@),
{
    let chars = chars_of(content_type);
    let n = chars.len();
    let mut i: usize = 0;
    while i < n && n - i >= 4
        invariant
            i <= n,
            n == chars.len(),
            chars@ == content_type@,
            forall|j: int| 0 <= j < i ==> !json_at(chars@, j),
        decreases n - i,
    {
        if (chars[i] == 'j' || chars[i] == 'J') && (chars[i + 1] == 's' || chars[i + 1] == 'S') && (
        chars[i + 2] == 'o' || chars[i + 2] == 'O') && (chars[i + 3] == 'n' || chars[i + 3]
            == 'N') {
            assert(json_at(content_type@, i as int));
            return true;
        }
        i += 1;
    }
    assert(!mentions_json(content_type@));
    match first_after_blank(body) {
        Some(c) => c == '{',
        None => false,
    }
}

/// One field of a JSON reply: absent where the object has no such member or
/// the member is `null`, present where it is text. Any other member makes the
/// whole reply unreadable, which is the outer `None`.
pub open spec fn text_member(object: JsonValue, name: Seq<char>) -> Option<Option<Seq<char>>> {
    match object.member(name) {
        None => Some(None),
        Some(JsonValue::Null) => Some(None),
        Some(JsonValue::Text(text)) => Some(Some(text)),
        Some(_) => None,
    }
}

/// The fields of a JSON reply, where the reply is an object and each of the
/// four fields is text, `null` or absent.
pub open spec fn json_fields(json: JsonValue) -> Option<Fields> {
    if json is Object && text_member(json, "status"@) is Some && text_member(json, "token"@)
        is Some && text_member(json, "sessionToken"@) is Some && text_member(json, "error"@)
        is Some {
        Some(
            Fields {
                status: text_member(json, "status"@)->Some_0,
                token: text_member(json, "token"@)->Some_0,
                session_token: text_member(json, "sessionToken"@)->Some_0,
                error: text_member(json, "error"@)->Some_0,
            },
        )
    } else {
        None
    }
}

fn read_text_member(object: &Json, name: &str) -> (field: Option<Option<String>>)
    ensures
        match field {
            Some(text) => text_member(object@, name@) == Some(text_view(text)),
            None => text_member(object@, name@) is None,
        },
{
    match object.get(name) {
        None => Some(None),
        Some(Json::Null) => Some(None),
        Some(Json::Text(text)) => Some(Some(text.clone())),
        Some(_) => None,
    }
}

/// Reads the fields of a JSON reply.
pub fn read_json_fields(json: &Json) -> (fields: Option<IdentityJsonResponse>)
    ensures
        match fields {
            Some(f) => json_fields(json@) == Some(f@),
            None => json_fields(json@) is None,
        },
{
    match json {
        Json::Object(_) => {},
        _ => {
            return None;
        },
    }
    let status = match read_text_member(json, "status") {
        Some(field) => field,
        None => {
            return None;
        },
    };
    let token = match read_text_member(json, "token") {
        Some(field) => field,
        None => {
            return None;
        },
    };
    let session_token = match read_text_member(json, "sessionToken") {
        Some(field) => field,
        None => {
            return None;
        },
    };
    let error = match read_text_member(json, "error") {
        Some(field) => field,
        None => {
            return None;
        },
    };
    Some(IdentityJsonResponse { status, token, session_token, error })
}

/// The fields that the parts of a form body set, a later part overriding an
/// earlier one of the same name. Each part is a name, `=`, and a value.
pub open spec fn fields_of_parts(parts: Seq<Seq<char>>) -> Fields
    decreases parts.len(),
{
    if parts.len() == 0 {
        Fields::none()
    } else {
        fields_of_parts(parts.drop_last()).set(
            split_once(parts.last(), '=').0,
            form_value(split_once(parts.last(), '=').1),
        )
    }
}

/// The fields of a URL-encoded form body, whose parts are separated by `&`.
pub open spec fn form_fields(body: Seq<char>) -> Fields {
    fields_of_parts(split(body, '&'))
}

/// Reads the fields of a URL-encoded form reply.
pub fn read_form_fields(body: &str) -> (fields: IdentityJsonResponse)
    ensures
        fields@ == form_fields(body@),
{
    let parts = split_text(body, '&');
    let mut fields = IdentityJsonResponse {
        status: None,
        token: None,
        session_token: None,
        error: None,
    };
    let mut i: usize = 0;
    assert(views(parts@).take(0) =~= Seq::<Seq<char>>::empty());
    while i < parts.len()
        invariant
            i <= parts.len(),
            views(parts@) == split(body@, '&'),
            fields@ == fields_of_parts(views(parts@).take(i as int)),
        decreases parts.len() - i,
    {
        let (name, raw) = split_text_once(parts[i].as_str(), '=');
        let value = decode_form_value(raw.as_str());
        proof {
            let done = views(parts@).take(i + 1);
            assert(done.drop_last() =~= views(parts@).take(i as int));
            assert(done.last() == parts@[i as int]@);
        }
        if str_eq(name.as_str(), "status") {
            fields.status = Some(value);
        } else if str_eq(name.as_str(), "token") {
            fields.token = Some(value);
        } else if str_eq(name.as_str(), "sessionToken") {
            fields.session_token = Some(value);
        } else if str_eq(name.as_str(), "error") {
            fields.error = Some(value);
        }
        i += 1;
    }
    assert(views(parts@).take(i as int) =~= views(parts@));
    fields
}

/// The first of the two that is present.
pub open spec fn first_of(a: Option<Seq<char>>, b: Option<Seq<char>>) -> Option<Seq<char>> {
    match a {
        Some(_) => a,
        None => b,
    }
}

/// What the fields of a reply mean. With the status `SUCCESS` the login gives
/// the session token, trimmed: the `sessionToken` field where there is one,
/// else the `token` field; a blank or missing token is an error. With the
/// status `FAIL` the login fails with the reply's error code, trimmed, or
/// with the code `UNKNOWN` where the reply gives none. Every other reply is
/// invalid.
pub open spec fn login_outcome(fields: Fields, http_status: u16, content_type: Seq<char>) -> Result<
    Seq<char>,
    Payload,
> {
    if fields.status == Some("SUCCESS"@) {
        let token = match first_of(fields.session_token, fields.token) {
            Some(t) => trimmed(t),
            None => Seq::empty(),
        };
        if token.len() == 0 {
            Err(identity_error("MISSING_SESSION_TOKEN"@, http_status, content_type))
        } else {
            Ok(token)
        }
    } else if fields.status == Some("FAIL"@) {
        let code = match fields.error {
            Some(e) => trimmed(e),
            None => "UNKNOWN"@,
        };
        Err(identity_error(code, http_status, content_type))
    } else {
        Err(identity_error("INVALID_RESPONSE"@, http_status, content_type))
    }
}

/// Decides what the fields of a reply mean.
pub fn decide_login(fields: &IdentityJsonResponse, http_status: u16, content_type: &str) -> (outcome:
    Result<String, UiErrorPayload>)
    ensures
        match outcome {
            Ok(token) => login_outcome(fields@, http_status, content_type@) == Ok::<
                Seq<char>,
                Payload,
            >(token@),
            Err(error) => login_outcome(fields@, http_status, content_type@) == Err::<
                Seq<char>,
                Payload,
            >(error@),
        },
{
    let status: &str = match &fields.status {
        Some(s) => s.as_str(),
        None => {
            return Err(identity_error_payload("INVALID_RESPONSE", http_status, content_type));
        },
    };
    if str_eq(status, "SUCCESS") {
        let raw: &str = match &fields.session_token {
            Some(t) => t.as_str(),
            None => match &fields.token {
                Some(t) => t.as_str(),
                None => {
                    return Err(
                        identity_error_payload("MISSING_SESSION_TOKEN", http_status, content_type),
                    );
                },
            },
        };
        let token = trim(raw);
        if token.as_str().is_empty() {
            return Err(identity_error_payload("MISSING_SESSION_TOKEN", http_status, content_type));
        }
        Ok(token)
    } else if str_eq(status, "FAIL") {
        let code = match &fields.error {
            Some(e) => trim(e.as_str()),
            None => "UNKNOWN".to_owned(),
        };
        Err(identity_error_payload(code.as_str(), http_status, content_type))
    } else {
        Err(identity_error_payload("INVALID_RESPONSE", http_status, content_type))
    }
}

/// The fields of a reply: where the reply reads as JSON, those of the body
/// parsed as JSON; else those of the body read as a form. A reply that reads
/// as JSON and is none, or whose fields are not text, has no fields.
pub open spec fn reply_fields(content_type: Seq<char>, body: Seq<char>) -> Fields {
    if reads_as_json(content_type, body) {
        match parsed_json(body) {
            Some(document) => match json_fields(document) {
                Some(fields) => fields,
                None => Fields::none(),
            },
            None => Fields::none(),
        }
    } else {
        form_fields(body)
    }
}

/// Reads the fields of a reply.
pub fn read_reply_fields(content_type: &str, body: &str) -> (fields: IdentityJsonResponse)
    ensures
        fields@ == reply_fields(content_type@, body@),
{
    let none = IdentityJsonResponse { status: None, token: None, session_token: None, error: None };
    if looks_like_json(content_type, body) {
        match parse_json(body) {
            Some(document) => match read_json_fields(&document) {
                Some(fields) => fields,
                None => none,
            },
            None => none,
        }
    } else {
        read_form_fields(body)
    }
}

/// Reads the reply to a login: the session token, or the reason why there is
/// none.
pub fn read_login_reply(http_status: u16, content_type: &str, body: &str) -> (outcome: Result<
    String,
    UiErrorPayload,
>)
    ensures
        match outcome {
            Ok(token) => login_outcome(
                reply_fields(content_type@, body@),
                http_status,
                content_type@,
            ) == Ok::<Seq<char>, Payload>(token@),
            Err(error) => login_outcome(
                reply_fields(content_type@, body@),
                http_status,
                content_type@,
            ) == Err::<Seq<char>, Payload>(error@),
        },
{
    let fields = read_reply_fields(content_type, body);
    decide_login(&fields, http_status, content_type)
}

} // verus!
