use std::time::Duration;

use litellm_python_bridge::http_stream::{
    response_error, response_headers, stream_item, BodyEvent, CaptureStep, ErrorCapture,
    HttpRequest, HttpStreamCall, OpenEvent, OpenStep, OpenedHttpStream, Opening, ResponseHead,
};
use litellm_python_bridge::http_utils::{truncate_error_body, ERROR_BODY_LIMIT_BYTES};
use litellm_python_bridge::marshal::{Argument, ConversionFailure};
use litellm_python_bridge::{
    BridgeError, Error, JsonObject, ProviderCallError, PyException, SendError, Value,
};

fn text(s: &str) -> String {
    s.to_string()
}

fn call(open_timeout: Option<Duration>, read_timeout: Option<Duration>) -> HttpStreamCall {
    HttpStreamCall {
        method: text("GET"),
        url: text("http://localhost"),
        headers: Vec::new(),
        body: Vec::new(),
        open_timeout,
        read_idle_timeout: read_timeout,
    }
}

fn sent(call: HttpStreamCall) -> (HttpRequest, Opening) {
    call.start(Ok(())).expect("client was built")
}

fn answered(status: u16, headers: &[(&str, &[u8])]) -> OpenEvent {
    OpenEvent::Responded(ResponseHead {
        status,
        headers: headers.iter().map(|(name, value)| (text(name), value.to_vec())).collect(),
    })
}

fn possibly_sent(error: Error) -> BridgeError {
    BridgeError::ProviderCall(ProviderCallError::PossiblySent(error))
}

fn rejected(status: u16) -> ErrorCapture {
    let (_, opening) = sent(call(None, Some(Duration::from_secs(2))));
    match opening.resume(answered(status, &[])) {
        OpenStep::Rejected(capture) => capture,
        other => panic!("not rejected: {other:?}"),
    }
}

fn read_on(step: CaptureStep) -> ErrorCapture {
    match step {
        CaptureStep::More(capture) => capture,
        CaptureStep::Finished(error) => panic!("finished: {error:?}"),
    }
}

#[test]
fn returns_after_headers_and_streams_ordered_chunks() {
    let (request, opening) =
        sent(call(Some(Duration::from_secs(1)), Some(Duration::from_secs(1))));
    assert_eq!(request.open_timeout, Some(Duration::from_secs(1)));
    let opened = match opening.resume(answered(200, &[("x-test", b"ready")])) {
        OpenStep::Opened(opened) => opened,
        other => panic!("stream opens before its body: {other:?}"),
    };
    assert!(opened.headers.contains(&(text("x-test"), text("ready"))));
    assert_eq!(opened.status_code, 200);
    assert_eq!(opened.read_idle_timeout, Some(Duration::from_secs(1)));
    assert_eq!(
        stream_item(BodyEvent::Chunk(b"one".to_vec())),
        Some(Ok(b"one".to_vec()))
    );
    assert_eq!(
        stream_item(BodyEvent::Chunk(b"two".to_vec())),
        Some(Ok(b"two".to_vec()))
    );
    assert_eq!(stream_item(BodyEvent::Ended), None);
}

#[test]
fn enforces_open_and_read_idle_timeouts_separately() {
    let (request, opening) = sent(call(Some(Duration::from_millis(20)), None));
    assert_eq!(request.open_timeout, Some(Duration::from_millis(20)));
    assert_eq!(opening.read_idle_timeout, None);
    assert!(matches!(
        opening.resume(OpenEvent::TimedOut),
        OpenStep::Failed(BridgeError::ProviderCall(ProviderCallError::PossiblySent(
            Error::Network(message)
        )))
            if message == "stream response open timed out"
    ));

    let (request, opening) = sent(call(None, Some(Duration::from_millis(20))));
    assert_eq!(request.open_timeout, None);
    let opened = match opening.resume(answered(200, &[])) {
        OpenStep::Opened(opened) => opened,
        other => panic!("stream opens: {other:?}"),
    };
    assert_eq!(opened.read_idle_timeout, Some(Duration::from_millis(20)));
    assert!(matches!(
        stream_item(BodyEvent::TimedOut),
        Some(Err(BridgeError::ProviderCall(ProviderCallError::PossiblySent(
            Error::Network(message)
        ))))
            if message == "stream response read timed out"
    ));
}

#[test]
fn rejects_non_success_before_returning_a_handle() {
    let body = "x".repeat(ERROR_BODY_LIMIT_BYTES + 512);
    let error = match rejected(429).resume(BodyEvent::Chunk(body.into_bytes())) {
        CaptureStep::More(_) => panic!("read past the limit"),
        CaptureStep::Finished(error) => error,
    };
    assert!(matches!(
        error,
        BridgeError::ProviderCall(ProviderCallError::PossiblySent(Error::Http {
            status: 429,
            body,
        }))
            if body.len() <= ERROR_BODY_LIMIT_BYTES && body == "x".repeat(ERROR_BODY_LIMIT_BYTES)
    ));
}

#[test]
fn success_is_a_status_of_two_hundred_and_something() {
    for status in [200, 204, 299] {
        let (_, opening) = sent(call(None, None));
        assert!(matches!(
            opening.resume(answered(status, &[])),
            OpenStep::Opened(OpenedHttpStream { status_code, .. }) if status_code == status
        ));
    }
    for status in [100, 199, 300, 404, 599] {
        let (_, opening) = sent(call(None, None));
        assert!(matches!(opening.resume(answered(status, &[])), OpenStep::Rejected(_)));
    }
}

#[test]
fn error_body_is_captured_across_chunks() {
    let capture = rejected(404);
    assert_eq!(capture.read_idle_timeout(), Some(Duration::from_secs(2)));
    let capture = read_on(capture.resume(BodyEvent::Chunk(b"not ".to_vec())));
    let capture = read_on(capture.resume(BodyEvent::Chunk(Vec::new())));
    assert_eq!(capture.read_idle_timeout(), Some(Duration::from_secs(2)));
    let capture = read_on(capture.resume(BodyEvent::Chunk(b"found".to_vec())));
    assert_eq!(
        capture.resume(BodyEvent::Ended),
        CaptureStep::Finished(possibly_sent(Error::Http { status: 404, body: text("not found") }))
    );
}

#[test]
fn error_body_that_breaks_off_is_kept() {
    for event in [BodyEvent::TimedOut, BodyEvent::Failed(text("reset")), BodyEvent::Ended] {
        let capture = read_on(rejected(500).resume(BodyEvent::Chunk(b"part".to_vec())));
        assert_eq!(
            capture.resume(event),
            CaptureStep::Finished(possibly_sent(Error::Http { status: 500, body: text("part") }))
        );
    }
    assert_eq!(
        rejected(500).resume(BodyEvent::TimedOut),
        CaptureStep::Finished(possibly_sent(Error::Http { status: 500, body: text("") }))
    );
}

#[test]
fn error_body_is_read_until_the_limit() {
    let almost = vec![b'a'; ERROR_BODY_LIMIT_BYTES - 1];
    let capture = read_on(rejected(500).resume(BodyEvent::Chunk(almost)));
    let expected = format!("{}b", "a".repeat(ERROR_BODY_LIMIT_BYTES - 1));
    assert_eq!(
        capture.resume(BodyEvent::Chunk(b"bc".to_vec())),
        CaptureStep::Finished(possibly_sent(Error::Http { status: 500, body: expected }))
    );
    let full = vec![b'a'; ERROR_BODY_LIMIT_BYTES];
    assert!(matches!(
        rejected(500).resume(BodyEvent::Chunk(full)),
        CaptureStep::Finished(_)
    ));
}

#[test]
fn error_body_that_is_no_text_is_decoded_lossily() {
    assert_eq!(
        response_error(502, &vec![b'a', 0xff, b'b']),
        Error::Http { status: 502, body: text("a\u{fffd}b") }
    );
    assert_eq!(
        response_error(502, &"caf\u{e9}".as_bytes().to_vec()),
        Error::Http { status: 502, body: text("caf\u{e9}") }
    );
}

#[test]
fn lossy_decoding_stays_within_the_limit() {
    let error = response_error(502, &vec![0xff; ERROR_BODY_LIMIT_BYTES]);
    let expected = "\u{fffd}".repeat(ERROR_BODY_LIMIT_BYTES / 3);
    assert_eq!(error, Error::Http { status: 502, body: expected });
}

#[test]
fn truncation_keeps_whole_characters() {
    assert_eq!(truncate_error_body(""), "");
    let fits = "a".repeat(ERROR_BODY_LIMIT_BYTES);
    assert_eq!(truncate_error_body(&fits), fits);
    let crossing = format!("{}\u{1f600}", "a".repeat(ERROR_BODY_LIMIT_BYTES - 2));
    assert_eq!(truncate_error_body(&crossing), "a".repeat(ERROR_BODY_LIMIT_BYTES - 2));
}

#[test]
fn call_takes_its_arguments() {
    let headers = JsonObject::new().insert(text("accept"), Value::String(text("text/event-stream")));
    let given: Option<Argument<u8>> = Some(Ok(Value::Object(headers)));
    let call = HttpStreamCall::from_python(
        text("POST"),
        text("http://localhost/v1"),
        given,
        Some(b"{}".to_vec()),
        Some(Duration::from_secs(3)),
        Some(Duration::from_secs(4)),
    )
    .expect("valid arguments");
    assert_eq!(
        call,
        HttpStreamCall {
            method: text("POST"),
            url: text("http://localhost/v1"),
            headers: vec![(text("accept"), text("text/event-stream"))],
            body: b"{}".to_vec(),
            open_timeout: Some(Duration::from_secs(3)),
            read_idle_timeout: Some(Duration::from_secs(4)),
        }
    );
    let (request, opening) = sent(call);
    assert_eq!(
        request,
        HttpRequest {
            method: text("POST"),
            url: text("http://localhost/v1"),
            headers: vec![(text("accept"), text("text/event-stream"))],
            body: b"{}".to_vec(),
            open_timeout: Some(Duration::from_secs(3)),
        }
    );
    assert_eq!(opening, Opening { read_idle_timeout: Some(Duration::from_secs(4)) });
}

fn with_method(method: &str) -> Result<HttpStreamCall, BridgeError> {
    HttpStreamCall::from_python::<u8>(text(method), text("http://localhost"), None, None, None, None)
}

#[test]
fn methods_are_tokens() {
    for method in ["GET", "PATCH", "get", "M-SEARCH", "!#$%&'*+-.^_`|~09azAZ", "LONGER-THAN-INLINE"] {
        let call = with_method(method).expect("a method");
        assert_eq!(call.method, method);
        assert_eq!(call.body, Vec::<u8>::new());
    }
    for method in ["", "GET ", "G\u{e9}T", "GE(T", "A/B", "\u{7f}"] {
        assert_eq!(
            with_method(method),
            Err(BridgeError::Declined(text("ValueError: invalid HTTP method")))
        );
    }
}

#[test]
fn call_declines_the_method_before_the_headers() {
    let unconvertible: Argument<u8> =
        Err(ConversionFailure { cause: 1, text: text("TypeError: no JSON form") });
    let both = HttpStreamCall::from_python(
        text("G T"),
        text("u"),
        Some(unconvertible),
        None,
        None,
        None,
    );
    assert_eq!(both, Err(BridgeError::Declined(text("ValueError: invalid HTTP method"))));
    let headers: Option<Argument<u8>> = Some(Ok(Value::Null));
    let refused = HttpStreamCall::from_python(text("GET"), text("u"), headers, None, None, None);
    assert_eq!(refused, Err(BridgeError::Declined(text("ValueError: headers must be a dict"))));
}

#[test]
fn failures_before_the_provider_is_reached_decline() {
    let failed = call(None, None).start(Err(text("no TLS backend")));
    assert_eq!(
        failed,
        Err(BridgeError::Declined(text("could not reach the provider: no TLS backend")))
    );
    for (is_connect, is_builder) in [(true, false), (false, true), (true, true)] {
        let (_, opening) = sent(call(None, None));
        let event = OpenEvent::Failed(SendError { is_connect, is_builder, message: text("m") });
        let error = match opening.resume(event) {
            OpenStep::Failed(error) => error,
            other => panic!("did not fail: {other:?}"),
        };
        assert_eq!(error.to_pyerr(), PyException::Declined(text("could not reach the provider: m")));
    }
}

#[test]
fn other_failures_are_reported_without_a_status() {
    let (_, opening) = sent(call(None, None));
    let event =
        OpenEvent::Failed(SendError { is_connect: false, is_builder: false, message: text("m") });
    let error = match opening.resume(event) {
        OpenStep::Failed(error) => error,
        other => panic!("did not fail: {other:?}"),
    };
    assert_eq!(error, possibly_sent(Error::Network(text("m"))));
    assert_eq!(error.to_pyerr(), PyException::Upstream { status: 0, message: text("m") });
    assert_eq!(
        stream_item(BodyEvent::Failed(text("reset"))),
        Some(Err(possibly_sent(Error::Network(text("reset")))))
    );
}

#[test]
fn headers_that_are_no_text_fail_the_call() {
    let headers = vec![(text("a"), b"tab\tand space".to_vec()), (text("a"), Vec::new())];
    assert_eq!(
        response_headers(&headers),
        Ok(vec![(text("a"), text("tab\tand space")), (text("a"), text(""))])
    );
    let (_, opening) = sent(call(None, None));
    let step = opening.resume(answered(200, &[("ok", b"yes"), ("bad", b"caf\xe9")]));
    assert_eq!(
        step,
        OpenStep::Failed(possibly_sent(Error::InvalidResponse(text(
            "failed to convert header to a str"
        ))))
    );
    let broken = vec![(text("bad"), b"a\nb".to_vec())];
    assert_eq!(
        response_headers(&broken),
        Err(Error::InvalidResponse(text("failed to parse header value")))
    );
}

#[test]
fn timeouts_are_reported_apart() {
    let (_, opening) = sent(call(Some(Duration::from_secs(1)), None));
    let opened_late = match opening.resume(OpenEvent::TimedOut) {
        OpenStep::Failed(error) => error.to_pyerr(),
        other => panic!("did not fail: {other:?}"),
    };
    assert_eq!(
        opened_late,
        PyException::Upstream { status: 0, message: text("stream response open timed out") }
    );
    let read_late = match stream_item(BodyEvent::TimedOut) {
        Some(Err(error)) => error.to_pyerr(),
        other => panic!("did not fail: {other:?}"),
    };
    assert_eq!(
        read_late,
        PyException::Upstream { status: 0, message: text("stream response read timed out") }
    );
}

#[test]
fn failed_reads_do_not_end_the_stream() {
    let events = vec![
        BodyEvent::Chunk(b"one".to_vec()),
        BodyEvent::TimedOut,
        BodyEvent::Chunk(b"two".to_vec()),
        BodyEvent::Failed(text("reset")),
        BodyEvent::Chunk(b"three".to_vec()),
        BodyEvent::Ended,
        BodyEvent::Chunk(b"four".to_vec()),
    ];
    let items: Vec<_> = events.into_iter().map_while(stream_item).collect();
    assert_eq!(
        items,
        vec![
            Ok(b"one".to_vec()),
            Err(possibly_sent(Error::Network(text("stream response read timed out")))),
            Ok(b"two".to_vec()),
            Err(possibly_sent(Error::Network(text("reset")))),
            Ok(b"three".to_vec()),
        ]
    );
    let delivered: Vec<u8> = items.into_iter().filter_map(Result::ok).flatten().collect();
    assert_eq!(delivered, b"onetwothree".to_vec());
}
