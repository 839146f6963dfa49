//! The two reverse-proxy routes: which paths they forward, where to, and
//! which headers travel along.

use crate::text::{has_prefix, starts_with, str_eq};
use vstd::prelude::*;
use vstd::string::StringExecFns;

verus! {

/// The vendor service a route forwards to.
#[derive(Clone, Copy, Debug, PartialEq, Eq, Structural)]
pub enum ForwardTarget {
    /// The identity service.
    Identity,
    /// The exchange API.
    Api,
}

/// Where a request is forwarded to.
#[derive(Debug, PartialEq, Eq)]
pub struct ForwardPlan {
    /// The address, with the request's query where it has one.
    pub url: String,
    /// The longest request body, in bytes, that is forwarded.
    pub max_body_bytes: usize,
}

/// What a [`ForwardPlan`] holds.
pub struct Forward {
    pub url: Seq<char>,
    pub max_body_bytes: usize,
}

impl View for ForwardPlan {
    type V = Forward;

    open spec fn view(&self) -> Forward {
        Forward { url: self.url@, max_body_bytes: self.max_body_bytes }
    }
}

/// The route forwards this path: the identity route only the login, the API
/// route only the betting service's REST and JSON-RPC endpoints.
pub open spec fn is_forwarded(target: ForwardTarget, path: Seq<char>) -> bool {
    match target {
        ForwardTarget::Identity => path == "api/login"@,
        ForwardTarget::Api => has_prefix(path, "exchange/betting/rest/v1.0/"@) || path
            == "exchange/betting/json-rpc/v1"@,
    }
}

/// Where a forwarded path goes, or why it is not forwarded.
pub open spec fn forward_for(target: ForwardTarget, path: Seq<char>, query: Option<Seq<char>>) -> Result<
    Forward,
    Seq<char>,
> {
    if !is_forwarded(target, path) {
        Err(
            match target {
                ForwardTarget::Identity => "unsupported identity endpoint"@,
                ForwardTarget::Api => "unsupported api endpoint"@,
            },
        )
    } else {
        let base = match target {
            ForwardTarget::Identity => "https://identitysso.betfair.com/"@ + path,
            ForwardTarget::Api => "https://api.betfair.com/"@ + path,
        };
        Ok(
            Forward {
                url: match query {
                    Some(q) => base + "?"@ + q,
                    None => base,
                },
                max_body_bytes: match target {
                    ForwardTarget::Identity => 262_144,
                    ForwardTarget::Api => 2_097_152,
                },
            },
        )
    }
}

/// Decides where a request to a reverse-proxy route goes. A path that is not
/// forwarded is answered with 404 and the reason given.
pub fn forward_plan(target: ForwardTarget, path: &str, query: Option<&str>) -> (plan: Result<
    ForwardPlan,
    &'static str,
>)
    ensures
        match plan {
            Ok(forward) => forward_for(
                target,
                path@,
                match query {
                    Some(q) => Some(q@),
                    None => None,
                },
            ) == Ok::<Forward, Seq<char>>(forward@),
            Err(reason) => forward_for(
                target,
                path@,
                match query {
                    Some(q) => Some(q@),
                    None => None,
                },
            ) == Err::<Forward, Seq<char>>(reason@),
        },
{
    let (base, max_body_bytes): (String, usize) = match target {
        ForwardTarget::Identity => {
            if !str_eq(path, "api/login") {
                return Err("unsupported identity endpoint");
            }
            ("https://identitysso.betfair.com/".to_owned().concat(path), 262_144)
        },
        ForwardTarget::Api => {
            if !starts_with(path, "exchange/betting/rest/v1.0/") && !str_eq(
                path,
                "exchange/betting/json-rpc/v1",
            ) {
                return Err("unsupported api endpoint");
            }
            ("https://api.betfair.com/".to_owned().concat(path), 2_097_152)
        },
    };
    let url = match query {
        Some(q) => base.concat("?").concat(q),
        None => base,
    };
    Ok(ForwardPlan { url, max_body_bytes })
}

/// A request header of this name, in lower case, travels to the vendor: all
/// but `host` and the headers that belong to one connection.
pub open spec fn request_header_travels(name: Seq<char>) -> bool {
    &&& name != "host"@
    &&& name != "connection"@
    &&& name != "proxy-authenticate"@
    &&& name != "proxy-authorization"@
    &&& name != "te"@
    &&& name != "trailer"@
    &&& name != "transfer-encoding"@
    &&& name != "upgrade"@
}

/// A response header of this name, in lower case, travels back to the
/// client.
pub open spec fn response_header_travels(name: Seq<char>) -> bool {
    &&& name != "connection"@
    &&& name != "proxy-authenticate"@
    &&& name != "transfer-encoding"@
    &&& name != "upgrade"@
}

/// Whether a request header travels to the vendor. `name` is in lower case.
pub fn forwards_request_header(name: &str) -> (travels: bool)
    ensures
        travels == request_header_travels(name@),
{
    !(str_eq(name, "host") || str_eq(name, "connection") || str_eq(name, "proxy-authenticate")
        || str_eq(name, "proxy-authorization") || str_eq(name, "te") || str_eq(name, "trailer")
        || str_eq(name, "transfer-encoding") || str_eq(name, "upgrade"))
}

/// Whether a response header travels back to the client. `name` is in lower
/// case.
pub fn forwards_response_header(name: &str) -> (travels: bool)
    ensures
        travels == response_header_travels(name@),
{
    !(str_eq(name, "connection") || str_eq(name, "proxy-authenticate") || str_eq(
        name,
        "transfer-encoding",
    ) || str_eq(name, "upgrade"))
}

} // verus!
