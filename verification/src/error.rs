//! The errors that end a session or keep the proxy from serving one.

use crate::codec::{CodecError, CodecErrorKind};
use crate::endpoint::OriginRejection;
use vstd::prelude::*;
use vstd::string::StringExecFns;

verus! {

/// An error of the proxy.
#[derive(Debug, PartialEq, Eq)]
pub enum AppError {
    /// The transport failed; the text describes how.
    Io(String),
    /// TLS could not be set up; the text describes why.
    Tls(String),
    /// A document is not JSON; the text describes why.
    Json(String),
    /// An upstream frame could not be decoded or encoded.
    Codec(CodecError),
    /// The upstream did not answer the connect or the handshake in time.
    UpstreamTimedOut,
    /// The origin of an upgrade request is not admitted.
    InvalidOrigin(OriginRejection),
}

/// What an [`AppError`] holds.
pub enum AppFault {
    Io(Seq<char>),
    Tls(Seq<char>),
    Json(Seq<char>),
    Codec(CodecErrorKind),
    UpstreamTimedOut,
    InvalidOrigin(OriginRejection),
}

impl View for AppError {
    type V = AppFault;

    open spec fn view(&self) -> AppFault {
        match self {
            AppError::Io(text) => AppFault::Io(text@),
            AppError::Tls(text) => AppFault::Tls(text@),
            AppError::Json(text) => AppFault::Json(text@),
            AppError::Codec(error) => AppFault::Codec(error.kind),
            AppError::UpstreamTimedOut => AppFault::UpstreamTimedOut,
            AppError::InvalidOrigin(rejection) => AppFault::InvalidOrigin(*rejection),
        }
    }
}

/// The text that describes a fault.
pub open spec fn fault_text(fault: AppFault) -> Seq<char> {
    match fault {
        AppFault::Io(text) => "io error: "@ + text,
        AppFault::Tls(text) => "tls error: "@ + text,
        AppFault::Json(text) => "json error: "@ + text,
        AppFault::Codec(kind) => "upstream codec error: "@ + match kind {
            CodecErrorKind::FrameTooLong => "frame exceeds max length"@,
            CodecErrorKind::BadUtf8 => "non-utf8 upstream frame"@,
        },
        AppFault::UpstreamTimedOut => "upstream timed out"@,
        AppFault::InvalidOrigin(rejection) => "invalid origin: "@ + match rejection {
            OriginRejection::Missing => "missing origin"@,
            OriginRejection::Invalid => "invalid origin"@,
            OriginRejection::NotAllowed => "origin not allowed"@,
        },
    }
}

impl AppError {
    /// The error that a codec error becomes.
    pub fn from_codec(error: CodecError) -> (app: AppError)
        ensures
            app@ == AppFault::Codec(error.kind),
    {
        AppError::Codec(error)
    }

    /// A description of the error, for logs.
    pub fn message(&self) -> (text: String)
        ensures
            text@ == fault_text(self@),
    {
        match self {
            AppError::Io(text) => "io error: ".to_owned().concat(text.as_str()),
            AppError::Tls(text) => "tls error: ".to_owned().concat(text.as_str()),
            AppError::Json(text) => "json error: ".to_owned().concat(text.as_str()),
            AppError::Codec(error) => "upstream codec error: ".to_owned().concat(error.message()),
            AppError::UpstreamTimedOut => "upstream timed out".to_owned(),
            AppError::InvalidOrigin(rejection) => "invalid origin: ".to_owned().concat(
                rejection.reason(),
            ),
        }
    }
}

} // verus!
