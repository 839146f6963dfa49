//! The proxy's configuration, fixed once the process has started.

use crate::text::{split, split_text, trim, trimmed, views};
use vstd::hash_set::StringHashSet;
use vstd::prelude::*;

verus! {

/// What the proxy is started with.
#[derive(Debug, PartialEq, Eq)]
pub struct Config {
    /// Run with a system-tray icon.
    pub gui: bool,
    /// Address the HTTP and WebSocket server binds to.
    pub bind: String,
    /// Host of the upstream stream.
    pub betfair_host: String,
    /// Port of the upstream stream.
    pub betfair_port: u16,
    /// Longest upstream frame, in bytes.
    pub upstream_max_frame_bytes: usize,
    /// How many client-bound messages the outbound queue holds.
    pub ws_outbound_buffer: usize,
    /// Comma-separated `Origin` values that may open a WebSocket; empty
    /// admits every origin.
    pub allowed_origins: String,
    /// Deadline for the TCP connect, and again for the TLS handshake, in
    /// milliseconds.
    pub upstream_connect_timeout_ms: u64,
    /// How long the bridge waits for the client's first message, in
    /// milliseconds.
    pub first_message_timeout_ms: u64,
    /// Longest client message, in bytes.
    pub ws_max_message_bytes: usize,
    /// Deadline for sending one message to the client, in milliseconds.
    pub ws_send_timeout_ms: u64,
    /// Serve the built user interface from `/`.
    pub serve_ui: bool,
    /// Directory of the built user interface.
    pub ui_dir: String,
    /// Serve the HTTP reverse-proxy routes.
    pub serve_betfair_http: bool,
}

impl Default for Config {
    fn default() -> (config: Self)
        ensures
            !config.gui,
            config.bind@ == "127.0.0.1:8080"@,
            config.betfair_host@ == "stream-api.betfair.com"@,
            config.betfair_port == 443,
            config.upstream_max_frame_bytes == 1_048_576,
            config.ws_outbound_buffer == 1024,
            config.allowed_origins@ == ""@,
            config.upstream_connect_timeout_ms == 10_000,
            config.first_message_timeout_ms == 10_000,
            config.ws_max_message_bytes == 1_048_576,
            config.ws_send_timeout_ms == 5_000,
            config.serve_ui,
            config.ui_dir@ == "ui/dist"@,
            config.serve_betfair_http,
    {
        Config {
            gui: false,
            bind: "127.0.0.1:8080".to_owned(),
            betfair_host: "stream-api.betfair.com".to_owned(),
            betfair_port: 443,
            upstream_max_frame_bytes: 1_048_576,
            ws_outbound_buffer: 1024,
            allowed_origins: "".to_owned(),
            upstream_connect_timeout_ms: 10_000,
            first_message_timeout_ms: 10_000,
            ws_max_message_bytes: 1_048_576,
            ws_send_timeout_ms: 5_000,
            serve_ui: true,
            ui_dir: "ui/dist".to_owned(),
            serve_betfair_http: true,
        }
    }
}

/// `origin` is one of the first `count` entries of `parts`, trimmed, and is
/// not empty.
pub open spec fn is_listed(parts: Seq<Seq<char>>, count: int, origin: Seq<char>) -> bool {
    origin.len() > 0 && exists|i: int| 0 <= i < count && trimmed(#[trigger] parts[i]) == origin
}

/// The origins that a comma-separated list names: its entries, trimmed,
/// without the empty ones.
pub open spec fn allowed_origins(list: Seq<char>) -> Set<Seq<char>> {
    Set::new(|origin: Seq<char>| is_listed(split(list, ','), split(list, ',').len() as int, origin))
}

impl Config {
    /// The origins that may open a WebSocket. An empty set admits every
    /// origin.
    pub fn allowed_origins_set(&self) -> (set: StringHashSet)
        ensures
            set@ == allowed_origins(self.allowed_origins@),
    {
        let parts = split_text(self.allowed_origins.as_str(), ',');
        let ghost all = split(self.allowed_origins@, ',');
        let mut set = StringHashSet::new();
        let mut i: usize = 0;
        assert(set@ =~= Set::new(|origin: Seq<char>| is_listed(all, 0, origin)));
        while i < parts.len()
            invariant
                i <= parts.len(),
                views(parts@) == all,
                set@ == Set::new(|origin: Seq<char>| is_listed(all, i as int, origin)),
            decreases parts.len() - i,
        {
            let entry = trim(parts[i].as_str());
            assert(all[i as int] == parts@[i as int]@);
            let ghost before = set@;
            if !entry.as_str().is_empty() {
                set.insert(entry);
            }
            proof {
                let after = Set::new(|origin: Seq<char>| is_listed(all, i + 1, origin));
                assert forall|origin: Seq<char>| set@.contains(origin) == after.contains(
                    origin,
                ) by {
                    if is_listed(all, i as int, origin) {
                        let k = choose|k: int| 0 <= k < i && trimmed(#[trigger] all[k]) == origin;
                        assert(0 <= k < i + 1 && trimmed(all[k]) == origin);
                    }
                    if is_listed(all, i + 1, origin) && !is_listed(all, i as int, origin) {
                        let k = choose|k: int|
                            0 <= k < i + 1 && trimmed(#[trigger] all[k]) == origin;
                        assert(k == i);
                    }
                    if origin == entry@ && entry@.len() > 0 {
                        assert(trimmed(all[i as int]) == origin);
                    }
                }
                assert(set@ =~= after);
            }
            i += 1;
        }
        set
    }
}

} // verus!
