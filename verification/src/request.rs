//! An HTTP request as the proxy describes it before anything is sent.

use crate::json::{Json, JsonValue};
use vstd::prelude::*;

verus! {

/// What a request carries.
#[derive(Debug, PartialEq, Eq)]
pub enum RequestBody {
    /// A JSON document.
    Json(Json),
    /// Form fields, to be sent URL-encoded.
    Form(Vec<(String, String)>),
}

/// A request that is ready to be sent.
#[derive(Debug, PartialEq, Eq)]
pub struct HttpRequest {
    /// The HTTP method.
    pub method: &'static str,
    pub url: String,
    /// Header names and values, in order.
    pub headers: Vec<(String, String)>,
    pub body: RequestBody,
}

/// What each pair of `pairs` holds.
pub open spec fn pair_views(pairs: Seq<(String, String)>) -> Seq<(Seq<char>, Seq<char>)> {
    pairs.map_values(|p: (String, String)| (p.0@, p.1@))
}

/// What a [`RequestBody`] holds.
pub enum Body {
    Json(JsonValue),
    Form(Seq<(Seq<char>, Seq<char>)>),
}

/// What an [`HttpRequest`] holds.
pub struct Request {
    pub method: Seq<char>,
    pub url: Seq<char>,
    pub headers: Seq<(Seq<char>, Seq<char>)>,
    pub body: Body,
}

impl View for RequestBody {
    type V = Body;

    open spec fn view(&self) -> Body {
        match self {
            RequestBody::Json(json) => Body::Json(json@),
            RequestBody::Form(fields) => Body::Form(pair_views(fields@)),
        }
    }
}

impl View for HttpRequest {
    type V = Request;

    open spec fn view(&self) -> Request {
        Request {
            method: self.method@,
            url: self.url@,
            headers: pair_views(self.headers@),
            body: self.body@,
        }
    }
}

/// Appends the pair of `name` and `value` to `pairs`.
pub fn push_pair(pairs: &mut Vec<(String, String)>, name: &str, value: &str)
    ensures
        pair_views(final(pairs)@) == pair_views(old(pairs)@).push((name@, value@)),
{
    pairs.push((name.to_owned(), value.to_owned()));
    assert(pair_views(pairs@) =~= pair_views(old(pairs)@).push((name@, value@)));
}

} // verus!
