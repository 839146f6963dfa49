//! What the HTTP endpoints decide: whether an upgrade request's origin may
//! open a WebSocket, and what the health check answers.

use crate::config::{allowed_origins, Config};
use crate::text::string_from_utf8;
use vstd::prelude::*;
use vstd::slice::slice_to_vec;
use vstd::utf8::*;

verus! {

/// A byte that may stand in a header value that is read as text: visible
/// ASCII, a space or a tab.
pub open spec fn is_visible_ascii(b: u8) -> bool {
    (32 <= b < 127) || b == 9
}

/// Every byte of a header value may stand in text.
pub open spec fn is_readable(value: Seq<u8>) -> bool {
    forall|i: int| 0 <= i < value.len() ==> is_visible_ascii(#[trigger] value[i])
}

/// Why an upgrade request is turned away.
#[derive(Clone, Copy, Debug, PartialEq, Eq, Structural)]
pub enum OriginRejection {
    Missing,
    Invalid,
    NotAllowed,
}

impl OriginRejection {
    /// The HTTP status that answers the request: 403.
    pub fn status(&self) -> (status: u16)
        ensures
            status == 403,
    {
        403
    }

    /// A short reason, for the response's body.
    pub fn reason(&self) -> (reason: &'static str)
        ensures
            reason@ == match self {
                OriginRejection::Missing => "missing origin"@,
                OriginRejection::Invalid => "invalid origin"@,
                OriginRejection::NotAllowed => "origin not allowed"@,
            },
    {
        match self {
            OriginRejection::Missing => "missing origin",
            OriginRejection::Invalid => "invalid origin",
            OriginRejection::NotAllowed => "origin not allowed",
        }
    }
}

/// What becomes of an upgrade request, where `allowed` are the configured
/// origins and `origin` is the value of the request's `Origin` header, where
/// it has one. With no origin configured every request is admitted; else the
/// header must be there, readable as text, and one of the configured origins,
/// letter for letter.
pub open spec fn origin_verdict(allowed: Set<Seq<char>>, origin: Option<Seq<u8>>) -> Result<
    (),
    OriginRejection,
> {
    if allowed.is_empty() {
        Ok(())
    } else {
        match origin {
            None => Err(OriginRejection::Missing),
            Some(value) => if !is_readable(value) {
                Err(OriginRejection::Invalid)
            } else if allowed.contains(decode_utf8(value)) {
                Ok(())
            } else {
                Err(OriginRejection::NotAllowed)
            },
        }
    }
}

/// Readable bytes are UTF-8.
pub proof fn lemma_readable_is_utf8(value: Seq<u8>)
    requires
        is_readable(value),
    ensures
        valid_utf8(value),
{
    assert(value.subrange(0, 0) =~= Seq::<u8>::empty());
    assert(partial_valid_utf8(value, 0));
    assert forall|i: int| 0 <= i < value.len() implies #[trigger] is_leading_byte_width_1(
        value[i],
    ) by {
        assert(is_visible_ascii(value[i]));
    }
    partial_valid_utf8_extend_ascii_block(value, 0, value.len() as int);
    assert(value.subrange(0, value.len() as int) =~= value);
}

/// Decides whether a request may open a WebSocket; `origin` is the value of
/// its `Origin` header, where it has one.
pub fn validate_origin(origin: Option<&[u8]>, cfg: &Config) -> (verdict: Result<
    (),
    OriginRejection,
>)
    ensures
        verdict == origin_verdict(
            allowed_origins(cfg.allowed_origins@),
            match origin {
                Some(value) => Some(value@),
                None => None,
            },
        ),
{
    let allowed = cfg.allowed_origins_set();
    if allowed.is_empty() {
        return Ok(());
    }
    let value = match origin {
        Some(value) => value,
        None => {
            return Err(OriginRejection::Missing);
        },
    };
    let mut i: usize = 0;
    while i < value.len()
        invariant
            i <= value.len(),
            origin == Some(value),
            allowed@ == allowed_origins(cfg.allowed_origins@),
            !allowed@.is_empty(),
            forall|j: int| 0 <= j < i ==> is_visible_ascii(#[trigger] value@[j]),
        decreases value.len() - i,
    {
        let b = value[i];
        if !((32 <= b && b < 127) || b == 9) {
            assert(!is_visible_ascii(value@[i as int]));
            return Err(OriginRejection::Invalid);
        }
        i += 1;
    }
    proof {
        lemma_readable_is_utf8(value@);
    }
    match string_from_utf8(slice_to_vec(value)) {
        Some(text) => if allowed.contains(text.as_str()) {
            Ok(())
        } else {
            Err(OriginRejection::NotAllowed)
        },
        None => Err(OriginRejection::Invalid),
    }
}

/// The health check's answer: status 200 and the body `ok`.
pub fn healthz() -> (answer: (u16, &'static str))
    ensures
        answer.0 == 200,
        answer.1@ == "ok"@,
{
    (200, "ok")
}

} // verus!
