use betfair_stream_proxy::bridge::{
    normalize_ws_payload, Bridge, ClientEvent, ClientStep, Offer, Step, UpstreamEvent, WriterStep,
    WsFrame,
};
use betfair_stream_proxy::codec::CrlfTextCodec;
use bytes::BytesMut;

fn line(text: &str) -> UpstreamEvent {
    UpstreamEvent::Line(text.to_string())
}

fn text(payload: &str) -> ClientEvent {
    ClientEvent::Frame(WsFrame::Text(payload.to_string()))
}

#[test]
fn first_message_timeout_writes_nothing_and_keeps_the_session() {
    let mut bridge = Bridge::new(1024, 1_048_576);
    assert_eq!(bridge.on_client(ClientEvent::FirstMessageTimeout), ClientStep::Continue);
    assert!(!bridge.is_cancelled());
    assert_eq!(bridge.queued(), 0);
    assert_eq!(bridge.next_outbound(), WriterStep::Wait);
    // The session lasts until the upstream or the client closes.
    assert_eq!(bridge.on_upstream(UpstreamEvent::Ended), Step::Stop);
    assert!(bridge.is_cancelled());
}

#[test]
fn first_message_timeout_then_client_close_ends_the_session() {
    let mut bridge = Bridge::new(4, 64);
    assert_eq!(bridge.on_client(ClientEvent::FirstMessageTimeout), ClientStep::Continue);
    assert_eq!(bridge.on_client(ClientEvent::Frame(WsFrame::Close)), ClientStep::Stop);
    assert!(bridge.is_cancelled());
    assert_eq!(bridge.on_client(ClientEvent::FirstMessageTimeout), ClientStep::Stop);
}

#[test]
fn upstream_line_reaches_the_client_as_one_text_frame() {
    let mut codec = CrlfTextCodec::new(1_048_576);
    let mut wire =
        BytesMut::from(&b"{\"op\":\"status\",\"id\":1,\"statusCode\":\"SUCCESS\"}\r\n"[..]);
    let received = codec.decode(&mut wire).unwrap().unwrap();

    let mut bridge = Bridge::new(1024, 1_048_576);
    assert_eq!(bridge.on_upstream(UpstreamEvent::Line(received)), Step::Continue);
    assert_eq!(
        bridge.next_outbound(),
        WriterStep::Send(WsFrame::Text(
            "{\"op\":\"status\",\"id\":1,\"statusCode\":\"SUCCESS\"}".to_string()
        ))
    );
    assert_eq!(bridge.send_finished(true), Step::Continue);
    assert_eq!(bridge.next_outbound(), WriterStep::Wait);
    assert!(!bridge.is_cancelled());
}

#[test]
fn client_text_is_normalized_before_it_goes_upstream() {
    let mut bridge = Bridge::new(1024, 1_048_576);
    let step = bridge.on_client(text("{\n  \"op\": \"heartbeat\"\r\n}\n"));
    assert_eq!(step, ClientStep::WriteUpstream("{  \"op\": \"heartbeat\"}".to_string()));
    assert_eq!(bridge.upstream_written(true), Step::Continue);

    let mut codec = CrlfTextCodec::new(1_048_576);
    let mut wire = BytesMut::new();
    if let ClientStep::WriteUpstream(normalized) = step {
        codec.encode(&normalized, &mut wire).unwrap();
    }
    assert_eq!(&wire[..], b"{  \"op\": \"heartbeat\"}\r\n");
}

#[test]
fn slow_consumer_is_disconnected_when_the_queue_fills() {
    let mut bridge = Bridge::new(2, 1_048_576);
    let mut accepted = 0;
    for i in 0..100 {
        if bridge.on_upstream(line(&format!("line {i}"))) == Step::Continue {
            accepted += 1;
        }
    }
    assert_eq!(accepted, 2);
    assert_eq!(bridge.queued(), 2);
    assert!(bridge.is_cancelled());
    assert_eq!(bridge.next_outbound(), WriterStep::Stop);
    assert_eq!(bridge.on_client(text("{}")), ClientStep::Stop);
}

#[test]
fn queue_accepts_again_once_the_writer_has_taken_a_frame() {
    let mut bridge = Bridge::new(2, 64);
    assert_eq!(bridge.on_upstream(line("a")), Step::Continue);
    assert_eq!(bridge.on_upstream(line("b")), Step::Continue);
    assert_eq!(bridge.next_outbound(), WriterStep::Send(WsFrame::Text("a".to_string())));
    assert_eq!(bridge.on_upstream(line("c")), Step::Continue);
    assert_eq!(bridge.on_upstream(line("d")), Step::Stop);
    assert!(bridge.is_cancelled());
}

#[test]
fn frames_are_delivered_in_the_order_they_were_accepted() {
    let mut bridge = Bridge::new(8, 64);
    assert_eq!(bridge.on_upstream(line("one")), Step::Continue);
    assert_eq!(bridge.on_client(ClientEvent::Frame(WsFrame::Ping(vec![7, 8]))), ClientStep::Continue);
    assert_eq!(bridge.on_upstream(line("two")), Step::Continue);
    assert_eq!(bridge.next_outbound(), WriterStep::Send(WsFrame::Text("one".to_string())));
    // Nothing more is handed out until the writer has reported.
    assert_eq!(bridge.next_outbound(), WriterStep::Wait);
    assert_eq!(bridge.send_finished(true), Step::Continue);
    assert_eq!(bridge.next_outbound(), WriterStep::Send(WsFrame::Pong(vec![7, 8])));
    assert_eq!(bridge.send_finished(true), Step::Continue);
    assert_eq!(bridge.next_outbound(), WriterStep::Send(WsFrame::Text("two".to_string())));
    assert_eq!(bridge.send_finished(true), Step::Continue);
    assert_eq!(bridge.next_outbound(), WriterStep::Wait);
    assert_eq!(bridge.queued(), 0);
}

#[test]
fn failed_send_cancels_the_session() {
    let mut bridge = Bridge::new(8, 64);
    assert_eq!(bridge.on_upstream(line("one")), Step::Continue);
    assert_eq!(bridge.on_upstream(line("two")), Step::Continue);
    assert_eq!(bridge.next_outbound(), WriterStep::Send(WsFrame::Text("one".to_string())));
    assert_eq!(bridge.send_finished(false), Step::Stop);
    assert!(bridge.is_cancelled());
    assert_eq!(bridge.queued(), 1);
    assert_eq!(bridge.on_upstream(line("three")), Step::Stop);
    assert_eq!(bridge.offer(WsFrame::Close), Offer::Closed);
}

#[test]
fn report_without_a_frame_in_flight_changes_nothing() {
    let mut bridge = Bridge::new(8, 64);
    assert_eq!(bridge.send_finished(false), Step::Continue);
    assert!(!bridge.is_cancelled());
    assert_eq!(bridge.send_finished(true), Step::Continue);
}

#[test]
fn offer_reports_accepted_full_and_closed() {
    let mut bridge = Bridge::new(1, 64);
    assert_eq!(bridge.offer(WsFrame::Text("a".to_string())), Offer::Accepted);
    assert!(!bridge.is_cancelled());
    assert_eq!(bridge.offer(WsFrame::Text("b".to_string())), Offer::Full);
    assert!(bridge.is_cancelled());
    assert_eq!(bridge.next_outbound(), WriterStep::Stop);
    assert_eq!(bridge.offer(WsFrame::Text("c".to_string())), Offer::Closed);
}

#[test]
fn queue_without_capacity_is_always_full() {
    let mut bridge = Bridge::new(0, 64);
    assert_eq!(bridge.on_upstream(line("a")), Step::Stop);
    assert!(bridge.is_cancelled());
}

#[test]
fn cancel_is_idempotent() {
    let mut bridge = Bridge::new(2, 64);
    assert_eq!(bridge.on_upstream(line("a")), Step::Continue);
    bridge.cancel();
    assert!(bridge.is_cancelled());
    assert_eq!(bridge.queued(), 1);
    bridge.cancel();
    assert!(bridge.is_cancelled());
    assert_eq!(bridge.queued(), 1);
    assert_eq!(bridge.next_outbound(), WriterStep::Stop);
}

#[test]
fn upstream_failure_and_end_stop_the_reader() {
    let mut bridge = Bridge::new(2, 64);
    assert_eq!(bridge.on_upstream(UpstreamEvent::Failed), Step::Stop);
    assert!(bridge.is_cancelled());
    let mut bridge = Bridge::new(2, 64);
    assert_eq!(bridge.on_upstream(UpstreamEvent::Ended), Step::Stop);
    assert!(bridge.is_cancelled());
}

#[test]
fn client_text_longer_than_the_limit_ends_the_session() {
    let mut bridge = Bridge::new(2, 5);
    assert_eq!(bridge.on_client(text("12345")), ClientStep::WriteUpstream("12345".to_string()));
    assert_eq!(bridge.on_client(text("123456")), ClientStep::Stop);
    assert!(bridge.is_cancelled());
}

#[test]
fn client_text_limit_counts_bytes() {
    let mut bridge = Bridge::new(2, 5);
    // Three characters, six bytes.
    assert_eq!(bridge.on_client(text("\u{e9}\u{e9}\u{e9}")), ClientStep::Stop);
}

#[test]
fn binary_frame_that_is_utf8_is_forwarded_like_text() {
    let mut bridge = Bridge::new(2, 64);
    let step = bridge.on_client(ClientEvent::Frame(WsFrame::Binary(b" {\"a\":\n1} ".to_vec())));
    assert_eq!(step, ClientStep::WriteUpstream("{\"a\":1}".to_string()));
    assert!(!bridge.is_cancelled());
}

#[test]
fn binary_frame_that_is_not_utf8_ends_the_session() {
    let mut bridge = Bridge::new(2, 64);
    let step = bridge.on_client(ClientEvent::Frame(WsFrame::Binary(vec![0xff, 0xfe])));
    assert_eq!(step, ClientStep::Stop);
    assert!(bridge.is_cancelled());
}

#[test]
fn binary_frame_longer_than_the_limit_ends_the_session() {
    let mut bridge = Bridge::new(2, 3);
    let step = bridge.on_client(ClientEvent::Frame(WsFrame::Binary(b"abcd".to_vec())));
    assert_eq!(step, ClientStep::Stop);
    assert!(bridge.is_cancelled());
}

#[test]
fn ping_is_answered_with_a_pong_and_pong_is_ignored() {
    let mut bridge = Bridge::new(1, 64);
    assert_eq!(bridge.on_client(ClientEvent::Frame(WsFrame::Pong(vec![1]))), ClientStep::Continue);
    assert_eq!(bridge.queued(), 0);
    assert_eq!(bridge.on_client(ClientEvent::Frame(WsFrame::Ping(vec![1, 2]))), ClientStep::Continue);
    assert_eq!(bridge.queued(), 1);
    // The queue is full now: the next ping cannot be answered.
    assert_eq!(bridge.on_client(ClientEvent::Frame(WsFrame::Ping(vec![3]))), ClientStep::Stop);
    assert!(bridge.is_cancelled());
}

#[test]
fn client_stream_end_and_failure_stop_the_reader() {
    let mut bridge = Bridge::new(2, 64);
    assert_eq!(bridge.on_client(ClientEvent::Ended), ClientStep::Stop);
    assert!(bridge.is_cancelled());
    let mut bridge = Bridge::new(2, 64);
    assert_eq!(bridge.on_client(ClientEvent::Failed), ClientStep::Stop);
    assert!(bridge.is_cancelled());
}

#[test]
fn failed_upstream_write_ends_the_session() {
    let mut bridge = Bridge::new(2, 64);
    assert_eq!(bridge.on_client(text("{}")), ClientStep::WriteUpstream("{}".to_string()));
    assert_eq!(bridge.upstream_written(false), Step::Stop);
    assert!(bridge.is_cancelled());
    assert_eq!(bridge.upstream_written(true), Step::Stop);
}

#[test]
fn normalize_removes_line_breaks_and_trims() {
    assert_eq!(normalize_ws_payload("{\n  \"op\": \"heartbeat\"\r\n}\n"), "{  \"op\": \"heartbeat\"}");
    assert_eq!(normalize_ws_payload("  a\rb\nc \t"), "abc");
    assert_eq!(normalize_ws_payload("\r\n \r\n"), "");
    assert_eq!(normalize_ws_payload(""), "");
    assert_eq!(normalize_ws_payload("\u{a0}x y\u{2003}"), "x y");
    assert_eq!(normalize_ws_payload("a\n \nb"), "a b");
}
