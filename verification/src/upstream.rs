//! Connecting to the upstream: a TCP connect and a TLS handshake, each under
//! the same deadline, then line framing over the TLS stream. This module
//! decides the order of the steps and what each failure becomes; the caller
//! connects, waits and reports.

use crate::config::Config;
use crate::error::{AppError, AppFault};
use rustls_pki_types::ServerName;
use vstd::prelude::*;

verus! {

/// Whether `host` can stand as the server's name in a TLS handshake: whether
/// it is a DNS name or an IP address to `ServerName::try_from`.
pub uninterp spec fn names_server(host: Seq<char>) -> bool;

/// `ServerName::try_from` on a string: whether it accepts `host`.
#[verifier::external_body]
fn is_server_name(host: &str) -> (valid: bool)
    ensures
        valid == names_server(host@),
{
    ServerName::try_from(host).is_ok()
}

/// What the connector waits for.
#[derive(Clone, Copy, Debug, PartialEq, Eq, Structural)]
pub enum ConnectStage {
    /// The TCP connect.
    Tcp,
    /// The TLS handshake.
    Tls,
}

/// How the awaited step ended.
#[derive(Debug, PartialEq, Eq)]
pub enum ConnectEvent {
    /// It succeeded.
    Done,
    /// It failed; the text describes how.
    Failed(String),
    /// The deadline passed first.
    DeadlineElapsed,
}

/// What the connector does next.
#[derive(Debug, PartialEq, Eq)]
pub enum ConnectStep {
    /// Open a TCP connection to this host and port within the deadline.
    OpenTcp { host: String, port: u16, timeout_ms: u64 },
    /// Run the TLS handshake within the deadline, with this name as SNI and
    /// as the name the server's certificate is verified against.
    Handshake { server_name: String, timeout_ms: u64 },
    /// Frame the TLS stream as lines of at most this many bytes. The
    /// connection is ready.
    Frame { max_frame_bytes: usize },
    /// Give up with this error.
    Fail(AppError),
}

/// What a [`ConnectStep`] holds.
pub enum ConnectPlan {
    OpenTcp { host: Seq<char>, port: u16, timeout_ms: u64 },
    Handshake { server_name: Seq<char>, timeout_ms: u64 },
    Frame { max_frame_bytes: usize },
    Fail(AppFault),
}

impl View for ConnectStep {
    type V = ConnectPlan;

    open spec fn view(&self) -> ConnectPlan {
        match self {
            ConnectStep::OpenTcp { host, port, timeout_ms } => ConnectPlan::OpenTcp {
                host: host@,
                port: *port,
                timeout_ms: *timeout_ms,
            },
            ConnectStep::Handshake { server_name, timeout_ms } => ConnectPlan::Handshake {
                server_name: server_name@,
                timeout_ms: *timeout_ms,
            },
            ConnectStep::Frame { max_frame_bytes } => ConnectPlan::Frame {
                max_frame_bytes: *max_frame_bytes,
            },
            ConnectStep::Fail(error) => ConnectPlan::Fail(error@),
        }
    }
}

/// How an awaited step ended, as the contracts speak of it.
pub enum ConnectOutcome {
    Done,
    Failed(Seq<char>),
    DeadlineElapsed,
}

impl View for ConnectEvent {
    type V = ConnectOutcome;

    open spec fn view(&self) -> ConnectOutcome {
        match self {
            ConnectEvent::Done => ConnectOutcome::Done,
            ConnectEvent::Failed(text) => ConnectOutcome::Failed(text@),
            ConnectEvent::DeadlineElapsed => ConnectOutcome::DeadlineElapsed,
        }
    }
}

/// The first step: the TCP connect to the configured host and port.
pub open spec fn first_step(cfg: &Config) -> ConnectPlan {
    ConnectPlan::OpenTcp {
        host: cfg.betfair_host@,
        port: cfg.betfair_port,
        timeout_ms: cfg.upstream_connect_timeout_ms,
    }
}

/// The step that follows `stage` ending in `outcome`. A deadline that passes
/// is a timeout, at either stage; any other failure is a transport error.
/// After the TCP connect comes the handshake, unless the host cannot name a
/// server; after the handshake the stream is framed.
pub open spec fn next_step(cfg: &Config, stage: ConnectStage, outcome: ConnectOutcome) -> ConnectPlan {
    match outcome {
        ConnectOutcome::DeadlineElapsed => ConnectPlan::Fail(AppFault::UpstreamTimedOut),
        ConnectOutcome::Failed(text) => ConnectPlan::Fail(AppFault::Io(text)),
        ConnectOutcome::Done => match stage {
            ConnectStage::Tcp => if names_server(cfg.betfair_host@) {
                ConnectPlan::Handshake {
                    server_name: cfg.betfair_host@,
                    timeout_ms: cfg.upstream_connect_timeout_ms,
                }
            } else {
                ConnectPlan::Fail(AppFault::Tls("invalid betfair host for SNI"@))
            },
            ConnectStage::Tls => ConnectPlan::Frame {
                max_frame_bytes: cfg.upstream_max_frame_bytes,
            },
        },
    }
}

/// The first step of connecting.
pub fn connect(cfg: &Config) -> (step: ConnectStep)
    ensures
        step@ == first_step(cfg),
{
    ConnectStep::OpenTcp {
        host: cfg.betfair_host.clone(),
        port: cfg.betfair_port,
        timeout_ms: cfg.upstream_connect_timeout_ms,
    }
}

/// The step that follows `stage` ending in `event`.
pub fn connect_next(cfg: &Config, stage: ConnectStage, event: ConnectEvent) -> (step: ConnectStep)
    ensures
        step@ == next_step(cfg, stage, event@),
{
    match event {
        ConnectEvent::DeadlineElapsed => ConnectStep::Fail(AppError::UpstreamTimedOut),
        ConnectEvent::Failed(text) => ConnectStep::Fail(AppError::Io(text)),
        ConnectEvent::Done => match stage {
            ConnectStage::Tcp => if is_server_name(cfg.betfair_host.as_str()) {
                ConnectStep::Handshake {
                    server_name: cfg.betfair_host.clone(),
                    timeout_ms: cfg.upstream_connect_timeout_ms,
                }
            } else {
                ConnectStep::Fail(AppError::Tls("invalid betfair host for SNI".to_owned()))
            },
            ConnectStage::Tls => ConnectStep::Frame {
                max_frame_bytes: cfg.upstream_max_frame_bytes,
            },
        },
    }
}

} // verus!
