//! The per-session bridge between one client WebSocket and one upstream stream.
//!
//! Three tasks cooperate in a session: one reads upstream lines and offers them
//! to a bounded outbound queue, one is the only writer to the client and sends
//! what the queue holds, and one reads client frames and writes them upstream.
//! All three share one cancellation flag. This module holds what they decide:
//! each task reports what happened to it and is told what to do next. The
//! reading, writing and waiting themselves are left to the caller.

use crate::text::{
    chars_of, is_whitespace, lemma_trimmed, string_from_utf8, text_of, trim_bounds, trimmed,
};
use std::collections::VecDeque;
use vstd::prelude::*;
use vstd::utf8::*;

verus! {

/// A carriage return or a line feed.
pub open spec fn is_line_break(c: char) -> bool {
    c == '\r' || c == '\n'
}

/// `s` without carriage returns and line feeds.
pub open spec fn without_line_breaks(s: Seq<char>) -> Seq<char> {
    s.filter(|c: char| !is_line_break(c))
}

/// A client payload as it is written upstream: every carriage return and line
/// feed removed, then leading and trailing white space trimmed.
pub open spec fn normalized(s: Seq<char>) -> Seq<char> {
    trimmed(without_line_breaks(s))
}

/// A normalized payload holds no line break, and neither starts nor ends with
/// white space.
pub proof fn lemma_normalized(s: Seq<char>)
    ensures
        forall|i: int| 0 <= i < normalized(s).len() ==> !is_line_break(#[trigger] normalized(s)[i]),
        normalized(s).len() > 0 ==> !is_whitespace(normalized(s).first()) && !is_whitespace(
            normalized(s).last(),
        ),
{
    let kept = without_line_breaks(s);
    lemma_trimmed(kept);
    let out = normalized(s);
    let from = choose|from: int|
        0 <= from && from + trimmed(kept).len() <= kept.len() && trimmed(kept) == #[trigger] kept.subrange(
            from,
            from + trimmed(kept).len(),
        );
    assert forall|i: int| 0 <= i < out.len() implies !is_line_break(#[trigger] out[i]) by {
        assert(out[i] == kept[from + i]);
        s.lemma_filter_pred(|c: char| !is_line_break(c), from + i);
    }
}

/// Removes every `\r` and `\n` from `s`, then trims it, so that the payload
/// cannot break the upstream's line framing.
pub fn normalize_ws_payload(s: &str) -> (out: String)
    ensures
        out@ == normalized(s@),
        forall|i: int| 0 <= i < out@.len() ==> !is_line_break(#[trigger] out@[i]),
        out@.len() > 0 ==> !is_whitespace(out@.first()) && !is_whitespace(out@.last()),
{
    let chars = chars_of(s);
    let mut kept: Vec<char> = Vec::new();
    let mut i: usize = 0;
    proof {
        reveal(Seq::filter);
    }
    while i < chars.len()
        invariant
            i <= chars.len(),
            kept@ == without_line_breaks(chars@.take(i as int)),
        decreases chars.len() - i,
    {
        let c = chars[i];
        proof {
            reveal(Seq::filter);
            assert(chars@.take(i + 1).drop_last() =~= chars@.take(i as int));
        }
        if c != '\r' && c != '\n' {
            kept.push(c);
        }
        i += 1;
    }
    proof {
        assert(chars@.take(i as int) =~= chars@);
        lemma_normalized(s@);
    }
    let (from, to) = trim_bounds(&kept);
    text_of(&kept, from, to)
}

/// A WebSocket message, as the bridge sees it.
#[derive(Debug, PartialEq, Eq)]
pub enum WsFrame {
    Text(String),
    Binary(Vec<u8>),
    Ping(Vec<u8>),
    Pong(Vec<u8>),
    Close,
}

/// What a [`WsFrame`] holds.
pub enum Frame {
    Text(Seq<char>),
    Binary(Seq<u8>),
    Ping(Seq<u8>),
    Pong(Seq<u8>),
    Close,
}

impl View for WsFrame {
    type V = Frame;

    open spec fn view(&self) -> Frame {
        match self {
            WsFrame::Text(text) => Frame::Text(text@),
            WsFrame::Binary(bytes) => Frame::Binary(bytes@),
            WsFrame::Ping(bytes) => Frame::Ping(bytes@),
            WsFrame::Pong(bytes) => Frame::Pong(bytes@),
            WsFrame::Close => Frame::Close,
        }
    }
}

/// What came of offering a frame to the outbound queue.
#[derive(Clone, Copy, Debug, PartialEq, Eq, Structural)]
pub enum Offer {
    /// The frame is in the queue.
    Accepted,
    /// The queue was at capacity; the frame was dropped.
    Full,
    /// The queue's consumer is gone; the frame was dropped.
    Closed,
}

/// What a producing task does after a step.
#[derive(Clone, Copy, Debug, PartialEq, Eq, Structural)]
pub enum Step {
    Continue,
    Stop,
}

/// What happened on the upstream side.
#[derive(Debug, PartialEq, Eq)]
pub enum UpstreamEvent {
    /// A complete line arrived.
    Line(String),
    /// The reader failed to decode a frame, or the transport failed.
    Failed,
    /// The upstream closed the stream.
    Ended,
}

/// What happened on the client side.
#[derive(Debug, PartialEq, Eq)]
pub enum ClientEvent {
    /// A frame arrived.
    Frame(WsFrame),
    /// The first-message deadline passed without a frame.
    FirstMessageTimeout,
    /// The client's stream failed.
    Failed,
    /// The client's stream ended.
    Ended,
}

/// What the client-reading task does next.
#[derive(Debug, PartialEq, Eq)]
pub enum ClientStep {
    /// Read the next client frame.
    Continue,
    /// Write this line upstream, then report how the write went.
    WriteUpstream(String),
    /// Leave the loop and tear the session down.
    Stop,
}

/// What the client-writing task does next.
#[derive(Debug, PartialEq, Eq)]
pub enum WriterStep {
    /// Nothing to send: wait until the state changes.
    Wait,
    /// Send this frame to the client, then report how the send went.
    Send(WsFrame),
    /// Exit without sending what is still queued.
    Stop,
}

/// The state of a session, as the contracts speak of it.
#[verifier::ext_equal]
pub struct BridgeState {
    /// How many frames the outbound queue holds at most.
    pub capacity: nat,
    /// The longest client message, in bytes, that is forwarded.
    pub max_message_bytes: nat,
    /// The frames waiting in the outbound queue, oldest first.
    pub queue: Seq<Frame>,
    /// The frame that the writer has taken and not yet reported on.
    pub in_flight: Option<Frame>,
    /// The writer has exited, so the queue has no consumer.
    pub writer_gone: bool,
    /// The session is cancelled.
    pub cancelled: bool,
    /// Every frame the queue has accepted, oldest first.
    pub accepted: Seq<Frame>,
    /// Every frame that was sent to the client, oldest first.
    pub delivered: Seq<Frame>,
}

impl BridgeState {
    /// The state a session starts in.
    pub open spec fn initial(capacity: nat, max_message_bytes: nat) -> BridgeState {
        BridgeState {
            capacity,
            max_message_bytes,
            queue: Seq::empty(),
            in_flight: None,
            writer_gone: false,
            cancelled: false,
            accepted: Seq::empty(),
            delivered: Seq::empty(),
        }
    }

    /// The accepted frames that were not delivered, oldest first.
    pub open spec fn undelivered(self) -> Seq<Frame> {
        match self.in_flight {
            Some(frame) => seq![frame] + self.queue,
            None => self.queue,
        }
    }

    /// What holds of every state a session can reach: the queue is within its
    /// capacity, it loses its consumer only when the session is cancelled, and
    /// the accepted frames are the delivered ones followed by the undelivered
    /// ones, in order.
    pub open spec fn consistent(self) -> bool {
        &&& self.queue.len() <= self.capacity
        &&& self.writer_gone ==> self.cancelled
        &&& self.accepted == self.delivered + self.undelivered()
    }

    /// The state after cancellation.
    pub open spec fn cancel(self) -> BridgeState {
        BridgeState { cancelled: true, ..self }
    }

    /// What offering a frame to the queue returns: `Closed` without a
    /// consumer, else `Full` at capacity, else `Accepted`.
    pub open spec fn offer_result(self) -> Offer {
        if self.writer_gone {
            Offer::Closed
        } else if self.queue.len() >= self.capacity {
            Offer::Full
        } else {
            Offer::Accepted
        }
    }

    /// The state after a producer offered `frame` and acted on the answer: an
    /// accepted frame joins the queue; a full or closed queue ends the
    /// producer, which cancels the session.
    pub open spec fn offer(self, frame: Frame) -> BridgeState {
        match self.offer_result() {
            Offer::Accepted => BridgeState {
                queue: self.queue.push(frame),
                accepted: self.accepted.push(frame),
                ..self
            },
            _ => self.cancel(),
        }
    }

    /// What the producer does after offering a frame.
    pub open spec fn offer_step(self) -> Step {
        if self.offer_result() == Offer::Accepted {
            Step::Continue
        } else {
            Step::Stop
        }
    }

    /// The state after the upstream reader reported a line: once cancelled,
    /// the line is dropped; else it is offered to the queue as a text frame.
    pub open spec fn upstream_line(self, line: Seq<char>) -> BridgeState {
        if self.cancelled {
            self
        } else {
            self.offer(Frame::Text(line))
        }
    }

    /// What the upstream reader does after reporting a line.
    pub open spec fn upstream_line_step(self) -> Step {
        if self.cancelled {
            Step::Stop
        } else {
            self.offer_step()
        }
    }

    /// The state after the writer asked for its next frame.
    pub open spec fn next_outbound(self) -> BridgeState {
        if self.cancelled {
            BridgeState { writer_gone: true, ..self }
        } else if self.in_flight is None && self.queue.len() > 0 {
            BridgeState { queue: self.queue.drop_first(), in_flight: Some(self.queue[0]), ..self }
        } else {
            self
        }
    }

    /// The state after the writer reported on the frame it was sending: a
    /// sent frame counts as delivered; a failure or a timeout cancels the
    /// session and ends the writer.
    pub open spec fn send_finished(self, sent: bool) -> BridgeState {
        match self.in_flight {
            Some(frame) => if sent {
                BridgeState { in_flight: None, delivered: self.delivered.push(frame), ..self }
            } else {
                BridgeState { cancelled: true, writer_gone: true, ..self }
            },
            None => self,
        }
    }

    /// The line that a client frame of this content is forwarded as, if it is
    /// forwarded: text as it is, binary data if it is UTF-8, each within the
    /// length limit, and normalized.
    pub open spec fn forwarded(self, frame: Frame) -> Option<Seq<char>> {
        match frame {
            Frame::Text(text) => if encode_utf8(text).len() <= self.max_message_bytes {
                Some(normalized(text))
            } else {
                None
            },
            Frame::Binary(bytes) => if bytes.len() <= self.max_message_bytes && valid_utf8(bytes) {
                Some(normalized(decode_utf8(bytes)))
            } else {
                None
            },
            _ => None,
        }
    }

    /// The state after the client reader reported a frame.
    pub open spec fn client_frame(self, frame: Frame) -> BridgeState {
        if self.cancelled {
            self
        } else {
            match frame {
                Frame::Text(_) | Frame::Binary(_) => if self.forwarded(frame) is Some {
                    self
                } else {
                    self.cancel()
                },
                Frame::Ping(payload) => self.offer(Frame::Pong(payload)),
                Frame::Pong(_) => self,
                Frame::Close => self.cancel(),
            }
        }
    }

    /// Whether the client reader stops after reporting this frame.
    pub open spec fn client_frame_stops(self, frame: Frame) -> bool {
        self.cancelled || match frame {
            Frame::Text(_) | Frame::Binary(_) => self.forwarded(frame) is None,
            Frame::Ping(_) => self.offer_step() == Step::Stop,
            Frame::Pong(_) => false,
            Frame::Close => true,
        }
    }
}

/// Cancelling a cancelled session changes nothing.
pub proof fn lemma_cancel_idempotent(s: BridgeState)
    ensures
        s.cancel().cancel() == s.cancel(),
        s.cancelled ==> s.cancel() == s,
{
}

/// Every step keeps the session's invariant.
pub proof fn lemma_steps_keep_invariant(s: BridgeState, frame: Frame, line: Seq<char>, sent: bool)
    requires
        s.consistent(),
    ensures
        BridgeState::initial(s.capacity, s.max_message_bytes).consistent(),
        s.cancel().consistent(),
        s.offer(frame).consistent(),
        s.upstream_line(line).consistent(),
        s.next_outbound().consistent(),
        s.send_finished(sent).consistent(),
        s.client_frame(frame).consistent(),
{
    let init = BridgeState::initial(s.capacity, s.max_message_bytes);
    assert(init.accepted =~= init.delivered + init.undelivered());
    lemma_offer_keeps_invariant(s, frame);
    lemma_offer_keeps_invariant(s, Frame::Text(line));
    if let Frame::Ping(payload) = frame {
        lemma_offer_keeps_invariant(s, Frame::Pong(payload));
    }
    let next = s.next_outbound();
    assert(next.undelivered() =~= s.undelivered());
    let after = s.send_finished(sent);
    assert(after.delivered + after.undelivered() =~= s.delivered + s.undelivered());
}

proof fn lemma_offer_keeps_invariant(s: BridgeState, frame: Frame)
    requires
        s.consistent(),
    ensures
        s.offer(frame).consistent(),
{
    let after = s.offer(frame);
    if s.offer_result() == Offer::Accepted {
        assert(after.undelivered() =~= s.undelivered().push(frame));
        assert(after.accepted =~= after.delivered + after.undelivered());
    }
}

/// The client receives the accepted frames in the order in which the queue
/// accepted them, each at most once: what was delivered is the front of what
/// was accepted, and what is left over is still waiting, in order. No more
/// frames are left over than the queue's capacity and the one being sent.
pub proof fn lemma_delivery_follows_acceptance(s: BridgeState)
    requires
        s.consistent(),
    ensures
        s.accepted.len() == s.delivered.len() + s.undelivered().len(),
        s.delivered == s.accepted.take(s.delivered.len() as int),
        s.undelivered() == s.accepted.skip(s.delivered.len() as int),
        s.accepted.len() - s.delivered.len() <= s.capacity + 1,
{
    assert(s.accepted.take(s.delivered.len() as int) =~= s.delivered);
    assert(s.accepted.skip(s.delivered.len() as int) =~= s.undelivered());
}

/// Frames reach the client through the writer alone: no step but the
/// writer's report of a sent frame adds to what was delivered, and that
/// report adds the one frame the writer was handed.
pub proof fn lemma_only_the_writer_delivers(s: BridgeState, frame: Frame, line: Seq<char>)
    ensures
        s.cancel().delivered == s.delivered,
        s.offer(frame).delivered == s.delivered,
        s.upstream_line(line).delivered == s.delivered,
        s.client_frame(frame).delivered == s.delivered,
        s.next_outbound().delivered == s.delivered,
        s.send_finished(false).delivered == s.delivered,
        s.send_finished(true).delivered == match s.in_flight {
            Some(sent) => s.delivered.push(sent),
            None => s.delivered,
        },
{
}

/// Until the session is cancelled, the oldest undelivered frame is the one the
/// writer sends next, and once sent it is the next delivered one. So every
/// accepted line reaches the client exactly once, as it was accepted, unless
/// the session is cancelled first.
pub proof fn lemma_writer_delivers_oldest(s: BridgeState)
    requires
        s.consistent(),
        !s.cancelled,
        s.undelivered().len() > 0,
    ensures
        s.next_outbound().in_flight == Some(s.undelivered()[0]),
        s.next_outbound().send_finished(true).delivered == s.delivered.push(s.undelivered()[0]),
        s.next_outbound().send_finished(true).delivered == s.accepted.take(
            s.delivered.len() as int + 1,
        ),
        s.next_outbound().send_finished(true).accepted == s.accepted,
{
    lemma_delivery_follows_acceptance(s);
    assert(s.accepted.take(s.delivered.len() as int + 1) =~= s.delivered.push(s.undelivered()[0]));
}

/// An offer to a full queue cancels the session at once, and a cancelled
/// session stops every task at its next step: producers drop what they are
/// handed, and the writer exits without sending what is queued.
pub proof fn lemma_full_queue_ends_session(s: BridgeState, frame: Frame, line: Seq<char>)
    ensures
        s.offer_result() == Offer::Full ==> s.offer(frame).cancelled && s.offer_step() == Step::Stop,
        !s.cancelled && s.offer_result() == Offer::Full ==> s.upstream_line(line).cancelled
            && s.upstream_line_step() == Step::Stop,
        s.cancelled ==> s.upstream_line(line) == s && s.upstream_line_step() == Step::Stop,
        s.cancelled ==> s.client_frame(frame) == s && s.client_frame_stops(frame),
        s.cancelled ==> s.next_outbound().writer_gone && s.next_outbound().delivered
            == s.delivered,
{
}

/// The deciding state of one session.
pub struct Bridge {
    frames: VecDeque<WsFrame>,
    capacity: usize,
    max_message_bytes: usize,
    sending: bool,
    writer_gone: bool,
    cancelled: bool,
    in_flight: Ghost<Frame>,
    accepted: Ghost<Seq<Frame>>,
    delivered: Ghost<Seq<Frame>>,
}

impl View for Bridge {
    type V = BridgeState;

    closed spec fn view(&self) -> BridgeState {
        BridgeState {
            capacity: self.capacity as nat,
            max_message_bytes: self.max_message_bytes as nat,
            queue: self.frames@.map_values(|f: WsFrame| f@),
            in_flight: if self.sending {
                Some(self.in_flight@)
            } else {
                None
            },
            writer_gone: self.writer_gone,
            cancelled: self.cancelled,
            accepted: self.accepted@,
            delivered: self.delivered@,
        }
    }
}

impl Bridge {
    /// A session with an empty outbound queue of the given capacity, which
    /// forwards client messages of up to `max_message_bytes` bytes.
    pub fn new(capacity: usize, max_message_bytes: usize) -> (bridge: Self)
        ensures
            bridge@ == BridgeState::initial(capacity as nat, max_message_bytes as nat),
            bridge@.consistent(),
    {
        let bridge = Bridge {
            frames: VecDeque::new(),
            capacity,
            max_message_bytes,
            sending: false,
            writer_gone: false,
            cancelled: false,
            in_flight: Ghost(Frame::Close),
            accepted: Ghost(Seq::empty()),
            delivered: Ghost(Seq::empty()),
        };
        proof {
            lemma_steps_keep_invariant(
                BridgeState::initial(capacity as nat, max_message_bytes as nat),
                Frame::Close,
                Seq::empty(),
                true,
            );
            assert(bridge@ =~= BridgeState::initial(capacity as nat, max_message_bytes as nat));
        }
        bridge
    }

    /// Whether the session is cancelled.
    pub fn is_cancelled(&self) -> (cancelled: bool)
        ensures
            cancelled == self@.cancelled,
    {
        self.cancelled
    }

    /// How many frames wait in the outbound queue.
    pub fn queued(&self) -> (n: usize)
        ensures
            n == self@.queue.len(),
    {
        self.frames.len()
    }

    /// Cancels the session. This is what a task does when it exits for a
    /// reason of its own: the client's stream ended or failed, or a write to
    /// the upstream failed.
    pub fn cancel(&mut self)
        ensures
            final(self)@ == old(self)@.cancel(),
            old(self)@.consistent() ==> final(self)@.consistent(),
    {
        self.cancelled = true;
        assert(self@ =~= old(self)@.cancel());
    }

    /// Offers a frame to the outbound queue without waiting. A frame that
    /// finds the queue full, or without a consumer, is dropped and the session
    /// is cancelled.
    pub fn offer(&mut self, frame: WsFrame) -> (outcome: Offer)
        ensures
            outcome == old(self)@.offer_result(),
            final(self)@ == old(self)@.offer(frame@),
            old(self)@.consistent() ==> final(self)@.consistent(),
    {
        proof {
            if self@.consistent() {
                lemma_steps_keep_invariant(self@, frame@, Seq::empty(), true);
            }
        }
        if self.writer_gone {
            self.cancelled = true;
            assert(self@ =~= old(self)@.offer(frame@));
            Offer::Closed
        } else if self.frames.len() >= self.capacity {
            self.cancelled = true;
            assert(self@ =~= old(self)@.offer(frame@));
            Offer::Full
        } else {
            proof {
                self.accepted@ = self.accepted@.push(frame@);
            }
            self.frames.push_back(frame);
            assert(self@.queue =~= old(self)@.queue.push(frame@));
            assert(self@ =~= old(self)@.offer(frame@));
            Offer::Accepted
        }
    }

    /// The upstream reader reports what it got. A line is offered to the
    /// outbound queue as a text frame; the end of the stream or a failure ends
    /// the reader, and with it the session.
    pub fn on_upstream(&mut self, event: UpstreamEvent) -> (step: Step)
        ensures
            final(self)@ == match event {
                UpstreamEvent::Line(line) => old(self)@.upstream_line(line@),
                _ => old(self)@.cancel(),
            },
            step == match event {
                UpstreamEvent::Line(_) => old(self)@.upstream_line_step(),
                _ => Step::Stop,
            },
            step == Step::Stop ==> final(self)@.cancelled,
            old(self)@.consistent() ==> final(self)@.consistent(),
    {
        match event {
            UpstreamEvent::Line(line) => {
                if self.cancelled {
                    return Step::Stop;
                }
                match self.offer(WsFrame::Text(line)) {
                    Offer::Accepted => Step::Continue,
                    _ => Step::Stop,
                }
            },
            _ => {
                self.cancel();
                Step::Stop
            },
        }
    }

    /// The writer asks what to send next. It is told to stop once the session
    /// is cancelled, whatever the queue holds; else it is handed the oldest
    /// queued frame, or told to wait when there is none or when it has not yet
    /// reported on the frame it was handed before.
    pub fn next_outbound(&mut self) -> (step: WriterStep)
        ensures
            final(self)@ == old(self)@.next_outbound(),
            match step {
                WriterStep::Stop => old(self)@.cancelled,
                WriterStep::Send(frame) => !old(self)@.cancelled && old(self)@.in_flight is None
                    && old(self)@.queue.len() > 0 && frame@ == old(self)@.queue[0],
                WriterStep::Wait => !old(self)@.cancelled && (old(self)@.in_flight is Some || old(
                    self,
                )@.queue.len() == 0),
            },
            old(self)@.consistent() ==> final(self)@.consistent(),
    {
        proof {
            if self@.consistent() {
                lemma_steps_keep_invariant(self@, Frame::Close, Seq::empty(), true);
            }
        }
        if self.cancelled {
            self.writer_gone = true;
            assert(self@ =~= old(self)@.next_outbound());
            return WriterStep::Stop;
        }
        if self.sending {
            return WriterStep::Wait;
        }
        match self.frames.pop_front() {
            Some(frame) => {
                self.sending = true;
                proof {
                    self.in_flight@ = frame@;
                }
                assert(self@.queue =~= old(self)@.queue.drop_first());
                assert(self@ =~= old(self)@.next_outbound());
                WriterStep::Send(frame)
            },
            None => {
                assert(self@ =~= old(self)@.next_outbound());
                WriterStep::Wait
            },
        }
    }

    /// The writer reports on the frame it was handed: `sent` is false when the
    /// send failed or did not finish within its deadline. After a failure the
    /// writer exits.
    pub fn send_finished(&mut self, sent: bool) -> (step: Step)
        ensures
            final(self)@ == old(self)@.send_finished(sent),
            step == if final(self)@.cancelled {
                Step::Stop
            } else {
                Step::Continue
            },
            old(self)@.consistent() ==> final(self)@.consistent(),
    {
        proof {
            if self@.consistent() {
                lemma_steps_keep_invariant(self@, Frame::Close, Seq::empty(), sent);
            }
        }
        if self.sending {
            if sent {
                self.sending = false;
                proof {
                    self.delivered@ = self.delivered@.push(self.in_flight@);
                }
            } else {
                self.cancelled = true;
                self.writer_gone = true;
            }
        }
        assert(self@ =~= old(self)@.send_finished(sent));
        if self.cancelled {
            Step::Stop
        } else {
            Step::Continue
        }
    }

    /// The client reader reports what it got. Text, and binary data that is
    /// UTF-8, is normalized and handed back to be written upstream, unless it
    /// is longer than the limit. A ping is answered through the outbound
    /// queue, a pong is ignored. A missed first-message deadline changes
    /// nothing. Everything else ends the reader, and with it the session.
    pub fn on_client(&mut self, event: ClientEvent) -> (step: ClientStep)
        ensures
            final(self)@ == match event {
                ClientEvent::Frame(frame) => old(self)@.client_frame(frame@),
                ClientEvent::FirstMessageTimeout => old(self)@,
                _ => old(self)@.cancel(),
            },
            match event {
                ClientEvent::Frame(frame) => if old(self)@.client_frame_stops(frame@) {
                    step == ClientStep::Stop
                } else {
                    match old(self)@.forwarded(frame@) {
                        Some(line) => step matches ClientStep::WriteUpstream(text) && text@ == line,
                        None => step == ClientStep::Continue,
                    }
                },
                ClientEvent::FirstMessageTimeout => step == if old(self)@.cancelled {
                    ClientStep::Stop
                } else {
                    ClientStep::Continue
                },
                _ => step == ClientStep::Stop,
            },
            step matches ClientStep::WriteUpstream(text) ==> (forall|i: int|
                0 <= i < text@.len() ==> !is_line_break(#[trigger] text@[i])) && (text@.len() > 0
                ==> !is_whitespace(text@.first()) && !is_whitespace(text@.last())),
            step == ClientStep::Stop ==> final(self)@.cancelled,
            old(self)@.consistent() ==> final(self)@.consistent(),
    {
        match event {
            ClientEvent::Frame(frame) => {
                if self.cancelled {
                    return ClientStep::Stop;
                }
                match frame {
                    WsFrame::Text(text) => {
                        if text.as_str().as_bytes().len() > self.max_message_bytes {
                            self.cancel();
                            return ClientStep::Stop;
                        }
                        ClientStep::WriteUpstream(normalize_ws_payload(text.as_str()))
                    },
                    WsFrame::Binary(bytes) => {
                        if bytes.len() > self.max_message_bytes {
                            self.cancel();
                            return ClientStep::Stop;
                        }
                        match string_from_utf8(bytes) {
                            Some(text) => ClientStep::WriteUpstream(
                                normalize_ws_payload(text.as_str()),
                            ),
                            None => {
                                self.cancel();
                                ClientStep::Stop
                            },
                        }
                    },
                    WsFrame::Ping(payload) => match self.offer(WsFrame::Pong(payload)) {
                        Offer::Accepted => ClientStep::Continue,
                        _ => ClientStep::Stop,
                    },
                    WsFrame::Pong(_) => ClientStep::Continue,
                    WsFrame::Close => {
                        self.cancel();
                        ClientStep::Stop
                    },
                }
            },
            ClientEvent::FirstMessageTimeout => if self.cancelled {
                ClientStep::Stop
            } else {
                ClientStep::Continue
            },
            _ => {
                self.cancel();
                ClientStep::Stop
            },
        }
    }

    /// The client reader reports how the write of a forwarded line went. A
    /// failed write ends the reader, and with it the session.
    pub fn upstream_written(&mut self, written: bool) -> (step: Step)
        ensures
            final(self)@ == if written {
                old(self)@
            } else {
                old(self)@.cancel()
            },
            step == if final(self)@.cancelled {
                Step::Stop
            } else {
                Step::Continue
            },
            old(self)@.consistent() ==> final(self)@.consistent(),
    {
        if !written {
            self.cancel();
        }
        if self.cancelled {
            Step::Stop
        } else {
            Step::Continue
        }
    }
}

} // verus!
