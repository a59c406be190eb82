use rust_link::driver::{LinkDriver, LinkPhase, RETRY_MAX_TRIES, RETRY_WAIT_MSEC};
use rust_link::fallback::{put_error_in_response, FALLBACK_HEADER, FALLBACK_HTML};

#[test]
fn retry_policy_constants() {
    assert_eq!(21, RETRY_MAX_TRIES);
    assert_eq!(500, RETRY_WAIT_MSEC);
}

#[test]
fn unreachable_daemon_makes_exactly_max_attempts_then_falls_back() {
    // Every connection attempt fails: the driver asks for a retry after
    // each of the first twenty failures, gives up on the twenty-first,
    // and synthesizes the fixed fallback document.
    let mut driver = LinkDriver::new();
    let mut attempts = 0u32;
    let mut sleeps = 0u32;
    loop {
        assert!(driver.wants_connect());
        // The connection attempt fails...
        attempts += 1;
        let retry = driver.on_connect_failed();
        if !retry {
            break;
        }
        // ...the caller would now sleep RETRY_WAIT_MSEC and try again.
        sleeps += 1;
    }
    assert_eq!(21, attempts);
    assert_eq!(20, sleeps);
    assert_eq!(21, driver.attempts);
    assert!(matches!(driver.phase, LinkPhase::Exhausted));
    assert!(!driver.wants_connect());

    driver.synthesize_fallback();
    assert!(matches!(driver.phase, LinkPhase::Done));
    assert!(driver.response.starts_with(b"Status: 503 Service Unavailable\r\n"));
    let mut expected = FALLBACK_HEADER.as_bytes().to_vec();
    expected.extend_from_slice(FALLBACK_HTML.as_bytes());
    assert_eq!(expected, driver.response);
}

#[test]
fn echoed_reply_is_relayed_verbatim() {
    // A reachable endpoint that echoes a fixed byte sequence: the final
    // response equals that sequence exactly, with no added framing.
    let fixed = b"HTTP/1.0 200 OK\r\n\r\nhello".to_vec();
    let mut driver = LinkDriver::new();
    assert!(driver.wants_connect());
    driver.on_connected();
    assert!(matches!(driver.phase, LinkPhase::Exchanging));
    driver.on_reply(fixed.clone());
    assert!(matches!(driver.phase, LinkPhase::Done));
    assert_eq!(fixed, driver.response);
}

#[test]
fn reply_after_some_failed_attempts_is_still_verbatim() {
    let mut driver = LinkDriver::new();
    for _ in 0..5 {
        assert!(driver.on_connect_failed());
    }
    assert_eq!(5, driver.attempts);
    driver.on_connected();
    driver.on_reply(b"ok".to_vec());
    assert_eq!(b"ok".to_vec(), driver.response);
}

#[test]
fn fallback_document_is_appended_to_response() {
    let mut response = b"prefix".to_vec();
    put_error_in_response(&mut response);
    assert!(response.starts_with(b"prefix"));
    let rest = &response[b"prefix".len()..];
    assert!(rest.starts_with(b"Status: 503 Service Unavailable\r\n"));
    assert!(rest.ends_with(b"</html>\n"));
    let header_then_html = [FALLBACK_HEADER.as_bytes(), FALLBACK_HTML.as_bytes()].concat();
    assert_eq!(header_then_html, rest);
}
