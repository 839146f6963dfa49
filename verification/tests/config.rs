use betfair_stream_proxy::config::Config;
use betfair_stream_proxy::endpoint::{healthz, validate_origin, OriginRejection};

fn config_with_origins(list: &str) -> Config {
    Config { allowed_origins: list.to_string(), ..Config::default() }
}

#[test]
fn defaults() {
    let config = Config::default();
    assert!(!config.gui);
    assert_eq!(config.bind, "127.0.0.1:8080");
    assert_eq!(config.betfair_host, "stream-api.betfair.com");
    assert_eq!(config.betfair_port, 443);
    assert_eq!(config.upstream_max_frame_bytes, 1_048_576);
    assert_eq!(config.ws_outbound_buffer, 1024);
    assert_eq!(config.allowed_origins, "");
    assert_eq!(config.upstream_connect_timeout_ms, 10_000);
    assert_eq!(config.first_message_timeout_ms, 10_000);
    assert_eq!(config.ws_max_message_bytes, 1_048_576);
    assert_eq!(config.ws_send_timeout_ms, 5_000);
    assert!(config.serve_ui);
    assert_eq!(config.ui_dir, "ui/dist");
    assert!(config.serve_betfair_http);
}

#[test]
fn allowed_origins_are_the_trimmed_entries_that_are_not_empty() {
    let set = config_with_origins(" http://a.test , ,http://b.test,,http://a.test").allowed_origins_set();
    assert_eq!(set.len(), 2);
    assert!(set.contains("http://a.test"));
    assert!(set.contains("http://b.test"));
    assert!(!set.contains(""));
    assert!(!set.contains(" http://a.test "));
}

#[test]
fn empty_list_gives_no_origins() {
    assert!(config_with_origins("").allowed_origins_set().is_empty());
    assert!(config_with_origins(" , ,").allowed_origins_set().is_empty());
}

#[test]
fn every_origin_is_admitted_when_none_is_configured() {
    let config = config_with_origins("");
    assert_eq!(validate_origin(None, &config), Ok(()));
    assert_eq!(validate_origin(Some(&[0xff, 0x00][..]), &config), Ok(()));
    assert_eq!(validate_origin(Some(&b"http://x.test"[..]), &config), Ok(()));
}

#[test]
fn origin_must_be_listed_letter_for_letter() {
    let config = config_with_origins("http://a.test, http://b.test");
    assert_eq!(validate_origin(Some(&b"http://a.test"[..]), &config), Ok(()));
    assert_eq!(validate_origin(Some(&b"http://b.test"[..]), &config), Ok(()));
    assert_eq!(validate_origin(Some(&b"http://A.test"[..]), &config), Err(OriginRejection::NotAllowed));
    assert_eq!(validate_origin(Some(&b"http://a.test/"[..]), &config), Err(OriginRejection::NotAllowed));
    assert_eq!(validate_origin(Some(&b""[..]), &config), Err(OriginRejection::NotAllowed));
    assert_eq!(validate_origin(None, &config), Err(OriginRejection::Missing));
}

#[test]
fn origin_that_is_not_visible_ascii_is_invalid() {
    let config = config_with_origins("http://a.test,http://\u{e9}.test,a\tb");
    assert_eq!(
        validate_origin(Some("http://\u{e9}.test".as_bytes()), &config),
        Err(OriginRejection::Invalid)
    );
    assert_eq!(validate_origin(Some(&b"http://a.test\x7f"[..]), &config), Err(OriginRejection::Invalid));
    assert_eq!(validate_origin(Some(&b"http://a.test\n"[..]), &config), Err(OriginRejection::Invalid));
    assert_eq!(validate_origin(Some(&[0xffu8][..]), &config), Err(OriginRejection::Invalid));
    // A tab and a space are readable.
    assert_eq!(validate_origin(Some(&b"a\tb"[..]), &config), Ok(()));
    assert_eq!(validate_origin(Some(&b"a b"[..]), &config), Err(OriginRejection::NotAllowed));
}

#[test]
fn rejections_answer_403_with_a_reason() {
    for (rejection, reason) in [
        (OriginRejection::Missing, "missing origin"),
        (OriginRejection::Invalid, "invalid origin"),
        (OriginRejection::NotAllowed, "origin not allowed"),
    ] {
        assert_eq!(rejection.status(), 403);
        assert_eq!(rejection.reason(), reason);
    }
}

#[test]
fn health_check_answers_ok() {
    assert_eq!(healthz(), (200, "ok"));
}
