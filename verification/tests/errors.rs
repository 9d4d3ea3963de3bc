use litellm_python_bridge::exceptions::{core_error_to_pyerr, fallback_error_to_pyerr};
use litellm_python_bridge::{BridgeError, Error, ProviderCallError, PyException, SendError};

fn text(s: &str) -> String {
    s.to_string()
}

fn every_error() -> Vec<(Error, &'static str)> {
    vec![
        (
            Error::InvalidType { expected: "object", actual: "array" },
            "expected object, got array",
        ),
        (Error::MissingField("model"), "missing required field: model"),
        (Error::InvalidResponse(text("no choices")), "invalid response: no choices"),
        (Error::InvalidProvider(text("acme")), "invalid provider: acme"),
        (Error::InvalidRequest(text("empty")), "invalid request: empty"),
        (Error::Auth(text("no key")), "no key"),
        (
            Error::Http { status: 429, body: text("slow down") },
            "upstream request failed with status 429: slow down",
        ),
        (Error::Network(text("reset")), "upstream network error: reset"),
        (Error::Connect(text("refused")), "could not reach the provider: refused"),
        (Error::Routing(text("no route")), "routing error: no route"),
        (Error::Unsupported("streaming"), "unsupported by the rust path: streaming"),
    ]
}

#[test]
fn each_error_has_its_message() {
    for (error, message) in every_error() {
        assert_eq!(error.message(), message);
    }
    assert_eq!(
        Error::not_sent(Error::Connect(text("refused"))).message(),
        "provider request was not sent: could not reach the provider: refused"
    );
    assert_eq!(
        Error::possibly_sent(Error::Network(text("reset"))).message(),
        "provider request may have been sent: upstream network error: reset"
    );
}

#[test]
fn status_is_written_in_decimal() {
    for (status, digits) in [(0, "0"), (9, "9"), (10, "10"), (204, "204"), (65535, "65535")] {
        let error = Error::Http { status, body: text("") };
        assert_eq!(
            error.message(),
            format!("upstream request failed with status {digits}: ")
        );
    }
}

#[test]
fn root_is_under_all_wrappers() {
    let root = Error::Network(text("reset"));
    assert_eq!(root.root(), &Error::Network(text("reset")));
    let wrapped = Error::not_sent(Error::possibly_sent(Error::not_sent(root)));
    assert_eq!(wrapped.root(), &Error::Network(text("reset")));
    assert_eq!(wrapped.root().root(), wrapped.root());
}

#[test]
fn send_errors_are_not_sent_only_without_connection() {
    let refused = SendError { is_connect: true, is_builder: false, message: text("refused") };
    assert_eq!(
        Error::from_send_error(refused),
        Error::NotSent(Box::new(Error::Connect(text("refused"))))
    );
    for is_builder in [false, true] {
        let reset = SendError { is_connect: false, is_builder, message: text("reset") };
        assert_eq!(
            Error::from_send_error(reset),
            Error::PossiblySent(Box::new(Error::Network(text("reset"))))
        );
    }
}

#[test]
fn send_errors_decline_only_without_connection() {
    let refused = SendError { is_connect: true, is_builder: false, message: text("refused") };
    assert_eq!(
        fallback_error_to_pyerr(Error::from_send_error(refused)),
        PyException::Declined(text("could not reach the provider: refused"))
    );
    let timed_out = SendError { is_connect: false, is_builder: false, message: text("late") };
    assert_eq!(
        fallback_error_to_pyerr(Error::from_send_error(timed_out)),
        PyException::Upstream { status: 0, message: text("late") }
    );
}

#[test]
fn core_errors_blame_input_or_runtime() {
    for (error, message) in every_error() {
        let blames_input = matches!(
            error,
            Error::Auth(_)
                | Error::InvalidProvider(_)
                | Error::InvalidRequest(_)
                | Error::InvalidType { .. }
                | Error::MissingField(_)
        );
        let expected = if blames_input {
            PyException::ValueError(text(message))
        } else {
            PyException::RuntimeError(text(message))
        };
        assert_eq!(core_error_to_pyerr(error), expected);
    }
    assert_eq!(
        core_error_to_pyerr(Error::not_sent(Error::Auth(text("no key")))),
        PyException::RuntimeError(text("provider request was not sent: no key"))
    );
}

#[test]
fn fallback_errors_decline_or_report() {
    for (error, message) in every_error() {
        let expected = match &error {
            Error::Http { .. } => PyException::Upstream {
                status: 429,
                message: text("429: slow down"),
            },
            Error::Network(inner) | Error::InvalidResponse(inner) => PyException::Upstream {
                status: 0,
                message: inner.clone(),
            },
            _ => PyException::Declined(text(message)),
        };
        assert_eq!(fallback_error_to_pyerr(error), expected);
    }
    assert_eq!(
        fallback_error_to_pyerr(Error::not_sent(Error::Network(text("reset")))),
        PyException::Declined(text("upstream network error: reset"))
    );
    assert_eq!(
        fallback_error_to_pyerr(Error::possibly_sent(Error::Connect(text("refused")))),
        PyException::Upstream { status: 0, message: text("could not reach the provider: refused") }
    );
}

#[test]
fn bridge_errors_tell_whether_sent() {
    assert_eq!(
        BridgeError::declined(&Error::Connect(text("refused"))).to_pyerr(),
        PyException::Declined(text("could not reach the provider: refused"))
    );
    for (error, message) in every_error() {
        let not_sent = BridgeError::from(ProviderCallError::NotSent(error));
        assert_eq!(not_sent.to_pyerr(), PyException::Declined(text(message)));
    }
    for (error, message) in every_error() {
        let expected = match &error {
            Error::Http { .. } => PyException::Upstream {
                status: 429,
                message: text("429: slow down"),
            },
            Error::Network(inner) | Error::InvalidResponse(inner) => PyException::Upstream {
                status: 0,
                message: inner.clone(),
            },
            _ => PyException::Upstream { status: 0, message: text(message) },
        };
        let sent = BridgeError::from(ProviderCallError::PossiblySent(error));
        assert_eq!(sent.to_pyerr(), expected);
    }
    assert_eq!(
        BridgeError::from(Error::Auth(text("no key"))).to_pyerr(),
        PyException::ValueError(text("no key"))
    );
}

#[test]
fn wrapped_answer_keeps_its_status() {
    let answer = Error::not_sent(Error::Http { status: 503, body: text("down") });
    let sent = BridgeError::from(ProviderCallError::PossiblySent(answer));
    assert_eq!(
        sent.to_pyerr(),
        PyException::Upstream { status: 503, message: text("503: down") }
    );
}
