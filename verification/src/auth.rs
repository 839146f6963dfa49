//! Logging in and out, as the user interface asks for it.

use crate::identity::{
    login_outcome, login_request, login_request_for, read_login_reply, reply_fields, text_view,
};
use crate::request::{HttpRequest, Request};
use crate::rpc::key_only;
use crate::state::AppState;
use crate::text::{is_blank, is_blank_text};
use crate::ui_error::{Payload, UiErrorPayload};
use vstd::prelude::*;

verus! {

/// Whether somebody is logged in.
#[derive(Clone, Copy, Debug, PartialEq, Eq, Structural)]
pub struct AuthStatus {
    pub is_logged_in: bool,
}

/// What a user logs in with.
#[derive(Debug, PartialEq, Eq)]
pub struct AuthLoginArgs {
    pub username: String,
    pub password: String,
}

/// Reports whether somebody is logged in.
pub fn auth_status(state: &AppState) -> (status: AuthStatus)
    ensures
        status.is_logged_in == state.logged_in(),
{
    AuthStatus { is_logged_in: state.is_logged_in() }
}

/// Logs out: the session token is dropped, all else stays.
pub fn auth_logout(state: &mut AppState)
    ensures
        final(state).session_token is None,
        final(state).app_key == old(state).app_key,
        final(state).allowlist_betting == old(state).allowlist_betting,
        final(state).allowlist_account == old(state).allowlist_account,
        final(state).allowlist_heartbeat == old(state).allowlist_heartbeat,
{
    state.session_token = None;
}

/// What becomes of a login attempt before anything is sent: a blank user
/// name is refused first, then an empty password, then a blank application
/// key; else the login request goes out.
pub open spec fn login_plan(app_key: Seq<char>, username: Seq<char>, password: Seq<char>) -> Result<
    Request,
    Payload,
> {
    if is_blank(username) {
        Err(key_only("errors:validation.usernameRequired"@))
    } else if password.len() == 0 {
        Err(key_only("errors:validation.passwordRequired"@))
    } else if is_blank(app_key) {
        Err(key_only("errors:validation.appKeyRequired"@))
    } else {
        Ok(login_request_for(app_key, username, password))
    }
}

/// Checks a login attempt and, where it may go ahead, gives the request to
/// send.
pub fn auth_login_request(state: &AppState, args: &AuthLoginArgs) -> (plan: Result<
    HttpRequest,
    UiErrorPayload,
>)
    ensures
        match plan {
            Ok(request) => login_plan(state.app_key@, args.username@, args.password@) == Ok::<
                Request,
                Payload,
            >(request@),
            Err(error) => login_plan(state.app_key@, args.username@, args.password@) == Err::<
                Request,
                Payload,
            >(error@),
        },
{
    if is_blank_text(args.username.as_str()) {
        return Err(UiErrorPayload::key("errors:validation.usernameRequired"));
    }
    if args.password.as_str().is_empty() {
        return Err(UiErrorPayload::key("errors:validation.passwordRequired"));
    }
    if is_blank_text(state.app_key.as_str()) {
        return Err(UiErrorPayload::key("errors:validation.appKeyRequired"));
    }
    Ok(login_request(state.app_key.as_str(), args.username.as_str(), args.password.as_str()))
}

/// Reads the reply to a login request. A reply that gives a session token
/// logs the user in with it; any other leaves the state as it was and gives
/// the error.
pub fn auth_login_reply(state: &mut AppState, http_status: u16, content_type: &str, body: &str) -> (outcome:
    Result<(), UiErrorPayload>)
    ensures
        final(state).app_key == old(state).app_key,
        final(state).allowlist_betting == old(state).allowlist_betting,
        final(state).allowlist_account == old(state).allowlist_account,
        final(state).allowlist_heartbeat == old(state).allowlist_heartbeat,
        match login_outcome(reply_fields(content_type@, body@), http_status, content_type@) {
            Ok(token) => outcome is Ok && text_view(final(state).session_token) == Some(token)
                && final(state).logged_in(),
            Err(error) => final(state).session_token == old(state).session_token && (
            outcome matches Err(e) && e@ == error),
        },
{
    match read_login_reply(http_status, content_type, body) {
        Ok(token) => {
            state.session_token = Some(token);
            Ok(())
        },
        Err(error) => Err(error),
    }
}

} // verus!
