//! The stream connection that the process itself keeps for its user
//! interface: when it may be opened, how it authenticates, and what may be
//! sent on it.

use crate::json::{parse_json, parsed_json, Json, JsonValue};
use crate::state::AppState;
use crate::text::{is_blank, is_blank_text, str_eq};
use vstd::prelude::*;

verus! {

/// What to do when the user interface asks for the stream.
#[derive(Debug, PartialEq, Eq)]
pub enum StreamConnectStep {
    /// The stream is open already: hand this status line to the user
    /// interface, so that it knows it is authenticated.
    AlreadyConnected { status: Json },
    /// Open the stream and send this frame first.
    Connect { authentication: Json },
    /// Do not connect; the key names the reason.
    Refuse { key: &'static str },
}

/// What a [`StreamConnectStep`] holds.
pub enum StreamConnectPlan {
    AlreadyConnected { status: JsonValue },
    Connect { authentication: JsonValue },
    Refuse { key: Seq<char> },
}

impl View for StreamConnectStep {
    type V = StreamConnectPlan;

    open spec fn view(&self) -> StreamConnectPlan {
        match self {
            StreamConnectStep::AlreadyConnected { status } => StreamConnectPlan::AlreadyConnected {
                status: status@,
            },
            StreamConnectStep::Connect { authentication } => StreamConnectPlan::Connect {
                authentication: authentication@,
            },
            StreamConnectStep::Refuse { key } => StreamConnectPlan::Refuse { key: key@ },
        }
    }
}

/// The status line that reports a successful authentication.
pub open spec fn success_status() -> JsonValue {
    JsonValue::Object(
        seq![
            ("op"@, JsonValue::Text("status"@)),
            ("id"@, JsonValue::UInt(1)),
            ("statusCode"@, JsonValue::Text("SUCCESS"@)),
        ],
    )
}

/// The frame that authenticates a stream with these credentials.
pub open spec fn authentication_frame(app_key: Seq<char>, session: Seq<char>) -> JsonValue {
    JsonValue::Object(
        seq![
            ("op"@, JsonValue::Text("authentication"@)),
            ("id"@, JsonValue::UInt(1)),
            ("appKey"@, JsonValue::Text(app_key)),
            ("session"@, JsonValue::Text(session)),
        ],
    )
}

/// What to do when the user interface asks for the stream. An open stream is
/// kept. Else a blank application key is refused first, then a missing
/// session token; else the stream is opened and authenticated.
pub open spec fn stream_connect_plan(state: &AppState, connected: bool) -> StreamConnectPlan {
    if connected {
        StreamConnectPlan::AlreadyConnected { status: success_status() }
    } else if is_blank(state.app_key@) {
        StreamConnectPlan::Refuse { key: "errors:validation.appKeyRequired"@ }
    } else if !state.logged_in() {
        StreamConnectPlan::Refuse { key: "errors:auth.notLoggedIn"@ }
    } else {
        StreamConnectPlan::Connect {
            authentication: authentication_frame(state.app_key@, state.session_token->Some_0@),
        }
    }
}

/// Decides what to do when the user interface asks for the stream;
/// `connected` says whether the stream is open.
pub fn stream_connect(state: &AppState, connected: bool) -> (step: StreamConnectStep)
    ensures
        step@ == stream_connect_plan(state, connected),
{
    if connected {
        let status = Json::object().with("op", Json::text("status")).with("id", Json::UInt(1)).with(
            "statusCode",
            Json::text("SUCCESS"),
        );
        assert(status@->Object_0 =~= success_status()->Object_0);
        return StreamConnectStep::AlreadyConnected { status };
    }
    if is_blank_text(state.app_key.as_str()) {
        return StreamConnectStep::Refuse { key: "errors:validation.appKeyRequired" };
    }
    let token: &str = match &state.session_token {
        Some(token) => token.as_str(),
        None => {
            return StreamConnectStep::Refuse { key: "errors:auth.notLoggedIn" };
        },
    };
    if token.is_empty() {
        return StreamConnectStep::Refuse { key: "errors:auth.notLoggedIn" };
    }
    let authentication = Json::object().with("op", Json::text("authentication")).with(
        "id",
        Json::UInt(1),
    ).with("appKey", Json::text(state.app_key.as_str())).with("session", Json::text(token));
    assert(authentication@->Object_0 =~= authentication_frame(
        state.app_key@,
        token@,
    )->Object_0);
    StreamConnectStep::Connect { authentication }
}

/// The document asks to authenticate.
pub open spec fn asks_to_authenticate(document: JsonValue) -> bool {
    document.member("op"@) == Some(JsonValue::Text("authentication"@))
}

/// Whether a document asks to authenticate.
pub fn is_authentication(document: &Json) -> (asks: bool)
    ensures
        asks == asks_to_authenticate(document@),
{
    match document.get("op") {
        Some(Json::Text(op)) => str_eq(op.as_str(), "authentication"),
        _ => false,
    }
}

/// Whether the user interface may send a line on the stream. It may never
/// authenticate, since the credentials stay in the process; and it needs an
/// open stream. A line that is not JSON cannot ask to authenticate.
pub open spec fn stream_send_verdict(connected: bool, line: Seq<char>) -> Result<(), Seq<char>> {
    if parsed_json(line) matches Some(document) && asks_to_authenticate(document) {
        Err("errors:validation.methodNotAllowed"@)
    } else if !connected {
        Err("errors:stream.notConnected"@)
    } else {
        Ok(())
    }
}

/// Decides whether the user interface may send `line` on the stream;
/// `connected` says whether the stream is open.
pub fn stream_send(connected: bool, line: &str) -> (verdict: Result<(), &'static str>)
    ensures
        match verdict {
            Ok(_) => stream_send_verdict(connected, line@) is Ok,
            Err(key) => stream_send_verdict(connected, line@) == Err::<(), Seq<char>>(key@),
        },
{
    if let Some(document) = parse_json(line) {
        if is_authentication(&document) {
            return Err("errors:validation.methodNotAllowed");
        }
    }
    if !connected {
        return Err("errors:stream.notConnected");
    }
    Ok(())
}

} // verus!
