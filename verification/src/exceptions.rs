//! Python exceptions that failures are raised as.

use vstd::prelude::*;
use vstd::string::*;

use crate::error::{
    send_error_view, Error, ErrorView, ProviderCallError, ProviderCallErrorView, SendError,
};
use crate::text::{decimal, decimal_text, join};

verus! {

/// An exception to be raised in Python.
#[derive(Debug, PartialEq, Eq)]
pub enum PyException {
    ValueError(String),
    RuntimeError(String),
    /// `RustBridgeDeclined`: the route declined before calling the provider, so the host may
    /// retry on its own path.
    Declined(String),
    /// `RustUpstreamError`: the provider call was already issued and failed. The status is 0 when
    /// there was no HTTP response.
    Upstream { status: u16, message: String },
}

/// What a [`PyException`] holds.
pub enum PyExceptionView {
    ValueError(Seq<char>),
    RuntimeError(Seq<char>),
    Declined(Seq<char>),
    Upstream { status: u16, message: Seq<char> },
}

impl View for PyException {
    type V = PyExceptionView;

    open spec fn view(&self) -> PyExceptionView {
        match self {
            PyException::ValueError(text) => PyExceptionView::ValueError(text@),
            PyException::RuntimeError(text) => PyExceptionView::RuntimeError(text@),
            PyException::Declined(text) => PyExceptionView::Declined(text@),
            PyException::Upstream { status, message } => PyExceptionView::Upstream {
                status: *status,
                message: message@,
            },
        }
    }
}

/// The exception for a core error on a route without a path of the host to fall back on.
pub open spec fn core_exception(error: ErrorView) -> PyExceptionView {
    match error {
        ErrorView::Auth(text) => PyExceptionView::ValueError(text),
        ErrorView::InvalidProvider(_)
        | ErrorView::InvalidRequest(_)
        | ErrorView::InvalidType { .. }
        | ErrorView::MissingField(_) => PyExceptionView::ValueError(error.message()),
        _ => PyExceptionView::RuntimeError(error.message()),
    }
}

/// The exception for an error of a call that was already issued: with the status that the error
/// carries, or 0 where it carries none.
pub open spec fn upstream_exception(error: ErrorView) -> PyExceptionView {
    match error {
        ErrorView::Http { status, body } => PyExceptionView::Upstream {
            status,
            message: decimal(status as nat) + ": "@ + body,
        },
        ErrorView::Network(text) => PyExceptionView::Upstream { status: 0, message: text },
        ErrorView::InvalidResponse(text) => PyExceptionView::Upstream { status: 0, message: text },
        _ => PyExceptionView::Upstream { status: 0, message: error.message() },
    }
}

/// The exception for an error on a route that the host can also serve itself.
pub open spec fn fallback_exception(error: ErrorView) -> PyExceptionView {
    match error {
        ErrorView::NotSent(inner) => PyExceptionView::Declined(inner.message()),
        ErrorView::PossiblySent(inner) => upstream_exception(inner.root()),
        ErrorView::Unsupported(_)
        | ErrorView::Auth(_)
        | ErrorView::InvalidProvider(_)
        | ErrorView::InvalidRequest(_)
        | ErrorView::InvalidType { .. }
        | ErrorView::MissingField(_)
        | ErrorView::Routing(_)
        | ErrorView::Connect(_) => PyExceptionView::Declined(error.message()),
        ErrorView::Http { .. } | ErrorView::Network(_) | ErrorView::InvalidResponse(_) =>
            upstream_exception(error),
    }
}

/// Maps a core error to the exception of a route without fallback.
pub fn core_error_to_pyerr(error: Error) -> (r: PyException)
    ensures
        r@ == core_exception(error@),
{
    match error {
        Error::Auth(message) => PyException::ValueError(message),
        Error::InvalidProvider(_)
        | Error::InvalidRequest(_)
        | Error::InvalidType { .. }
        | Error::MissingField(_) => PyException::ValueError(error.message()),
        other => PyException::RuntimeError(other.message()),
    }
}

fn upstream_error_to_pyerr(error: &Error) -> (r: PyException)
    ensures
        r@ == upstream_exception(error@),
{
    match error {
        Error::Http { status, body } => {
            let mut message = join(decimal_text(*status).as_str(), ": ");
            message.append(body.as_str());
            PyException::Upstream { status: *status, message }
        },
        Error::Network(message) => PyException::Upstream { status: 0, message: message.clone() },
        Error::InvalidResponse(message) => PyException::Upstream {
            status: 0,
            message: message.clone(),
        },
        other => PyException::Upstream { status: 0, message: other.message() },
    }
}

/// Maps an error to the exception of a route that the host can also serve itself.
pub fn fallback_error_to_pyerr(error: Error) -> (r: PyException)
    ensures
        r@ == fallback_exception(error@),
{
    match &error {
        Error::NotSent(inner) => PyException::Declined(inner.message()),
        Error::PossiblySent(inner) => upstream_error_to_pyerr(inner.root()),
        Error::Unsupported(_)
        | Error::Auth(_)
        | Error::InvalidProvider(_)
        | Error::InvalidRequest(_)
        | Error::InvalidType { .. }
        | Error::MissingField(_)
        | Error::Routing(_)
        | Error::Connect(_) => PyException::Declined(error.message()),
        Error::Http { .. } | Error::Network(_) | Error::InvalidResponse(_) =>
            upstream_error_to_pyerr(&error),
    }
}

/// Why a bridge route failed.
#[derive(Debug, PartialEq, Eq)]
pub enum BridgeError {
    /// The route declined before calling the provider.
    Declined(String),
    /// The provider call failed.
    ProviderCall(ProviderCallError),
    /// A failure on a route without fallback.
    Core(Error),
}

/// The result of a bridge route.
pub type BridgeResult<T> = Result<T, BridgeError>;

/// What a [`BridgeError`] holds.
pub enum BridgeErrorView {
    Declined(Seq<char>),
    ProviderCall(ProviderCallErrorView),
    Core(ErrorView),
}

impl View for BridgeError {
    type V = BridgeErrorView;

    open spec fn view(&self) -> BridgeErrorView {
        match self {
            BridgeError::Declined(text) => BridgeErrorView::Declined(text@),
            BridgeError::ProviderCall(error) => BridgeErrorView::ProviderCall(error@),
            BridgeError::Core(error) => BridgeErrorView::Core(error@),
        }
    }
}

/// The exception that a bridge error is raised as.
pub open spec fn bridge_exception(error: BridgeErrorView) -> PyExceptionView {
    match error {
        BridgeErrorView::Declined(text) => PyExceptionView::Declined(text),
        BridgeErrorView::ProviderCall(ProviderCallErrorView::NotSent(inner)) =>
            PyExceptionView::Declined(inner.message()),
        BridgeErrorView::ProviderCall(ProviderCallErrorView::PossiblySent(inner)) =>
            upstream_exception(inner.root()),
        BridgeErrorView::Core(inner) => core_exception(inner),
    }
}

impl BridgeError {
    /// Declines a route because of an error that came up before the provider was called.
    pub fn declined(error: &Error) -> (r: Self)
        ensures
            r@ == BridgeErrorView::Declined(error@.message()),
    {
        BridgeError::Declined(error.message())
    }

    /// The exception that the error is raised as.
    pub fn to_pyerr(self) -> (r: PyException)
        ensures
            r@ == bridge_exception(self@),
    {
        match self {
            BridgeError::Declined(message) => PyException::Declined(message),
            BridgeError::ProviderCall(ProviderCallError::NotSent(error)) =>
                PyException::Declined(error.message()),
            BridgeError::ProviderCall(ProviderCallError::PossiblySent(error)) =>
                upstream_error_to_pyerr(error.root()),
            BridgeError::Core(error) => core_error_to_pyerr(error),
        }
    }
}

impl From<ProviderCallError> for BridgeError {
    fn from(error: ProviderCallError) -> (r: Self) {
        BridgeError::ProviderCall(error)
    }
}

impl vstd::std_specs::convert::FromSpecImpl<ProviderCallError> for BridgeError {
    open spec fn obeys_from_spec() -> bool {
        true
    }

    open spec fn from_spec(error: ProviderCallError) -> Self {
        BridgeError::ProviderCall(error)
    }
}

impl From<Error> for BridgeError {
    fn from(error: Error) -> (r: Self) {
        BridgeError::Core(error)
    }
}

impl vstd::std_specs::convert::FromSpecImpl<Error> for BridgeError {
    open spec fn obeys_from_spec() -> bool {
        true
    }

    open spec fn from_spec(error: Error) -> Self {
        BridgeError::Core(error)
    }
}

/// The status that an issued call is reported with: the one that its error carries, or 0.
pub open spec fn reported_status(error: ErrorView) -> u16 {
    match error.root() {
        ErrorView::Http { status, .. } => status,
        _ => 0,
    }
}

/// A call that never went out is always declined, whatever the reason, so the host may serve it.
/// One that may have gone out never is: it is reported with the status that the error carries, or
/// 0 where the error carries no status.
pub proof fn exception_tells_whether_sent(error: ErrorView)
    ensures
        bridge_exception(
            BridgeErrorView::ProviderCall(ProviderCallErrorView::NotSent(error)),
        ) is Declined,
        fallback_exception(ErrorView::NotSent(Box::new(error))) is Declined,
        bridge_exception(
            BridgeErrorView::ProviderCall(ProviderCallErrorView::PossiblySent(error)),
        ) matches PyExceptionView::Upstream { status, .. } && status == reported_status(error),
        fallback_exception(
            ErrorView::PossiblySent(Box::new(error)),
        ) matches PyExceptionView::Upstream { status, .. } && status == reported_status(error),
{
}

/// A failure to send lets the host retry exactly when the connection could not be made: then
/// nothing was billed. Any other failure to send, a timeout among them, is reported without a
/// status.
pub proof fn send_error_declines_only_without_connection(error: SendError)
    ensures
        error.is_connect ==> fallback_exception(send_error_view(error))
            == PyExceptionView::Declined(ErrorView::Connect(error.message@).message()),
        !error.is_connect ==> fallback_exception(send_error_view(error)) == (
        PyExceptionView::Upstream { status: 0, message: error.message@ }),
{
}

/// A route that the host can also serve raises nothing but the two exceptions that tell the host
/// whether to retry.
pub proof fn fallback_declines_or_reports(error: ErrorView)
    ensures
        fallback_exception(error) is Declined || fallback_exception(error) is Upstream,
        fallback_exception(error) is Upstream <==> (error is PossiblySent || error is Http
            || error is Network || error is InvalidResponse),
{
}

/// A call that is marked with how far it got is raised as its bare error would be, whenever the
/// bare error says the same: an unreached provider or an unsupported request is declined, and an
/// answer or a failure of an issued call is reported.
pub proof fn marking_agrees_with_bare_error(error: ErrorView)
    requires
        !error.is_wrapper(),
    ensures
        fallback_exception(error) is Declined ==> bridge_exception(
            BridgeErrorView::ProviderCall(ProviderCallErrorView::NotSent(error)),
        ) == fallback_exception(error),
        fallback_exception(error) is Upstream ==> bridge_exception(
            BridgeErrorView::ProviderCall(ProviderCallErrorView::PossiblySent(error)),
        ) == fallback_exception(error),
{
}

/// A core error is raised as a `ValueError` exactly when the caller's input or credentials are at
/// fault, and as a `RuntimeError` otherwise.
pub proof fn core_blames_input_or_runtime(error: ErrorView)
    ensures
        core_exception(error) is ValueError <==> (error is Auth || error is InvalidProvider
            || error is InvalidRequest || error is InvalidType || error is MissingField),
        !(core_exception(error) is ValueError) ==> core_exception(error)
            == PyExceptionView::RuntimeError(error.message()),
{
}

/// A failure on a route without fallback is raised as a `ValueError` exactly when the caller's
/// input or credentials are at fault, and as a `RuntimeError` otherwise: never as an exception that
/// tells the host to retry on its own path, or that a provider call failed. Its text is the one
/// shown for the error.
pub proof fn core_failure_is_value_or_runtime_error(
    error: Error,
    shown: String,
    mapped: PyException,
    raised: PyException,
)
    requires
        call_ensures(Error::message, (&error,), shown),
        call_ensures(core_error_to_pyerr, (error,), mapped),
        call_ensures(BridgeError::to_pyerr, (BridgeError::Core(error),), raised),
    ensures
        raised is ValueError <==> (error is Auth || error is InvalidProvider
            || error is InvalidRequest || error is InvalidType || error is MissingField),
        raised is RuntimeError <==> !(error is Auth || error is InvalidProvider
            || error is InvalidRequest || error is InvalidType || error is MissingField),
        raised matches PyException::ValueError(text) ==> text@ == shown@ && (
        mapped matches PyException::ValueError(same) && same@ == shown@),
        raised matches PyException::RuntimeError(text) ==> text@ == shown@ && (
        mapped matches PyException::RuntimeError(same) && same@ == shown@),
{
}

/// A route that declined tells the host so, with the reason that it gave. Where an error made it
/// decline, the reason is the text shown for the error.
pub proof fn declined_route_keeps_its_reason(
    reason: String,
    raised: PyException,
    error: Error,
    shown: String,
    declined: BridgeError,
)
    requires
        call_ensures(BridgeError::to_pyerr, (BridgeError::Declined(reason),), raised),
        call_ensures(Error::message, (&error,), shown),
        call_ensures(BridgeError::declined, (&error,), declined),
    ensures
        raised matches PyException::Declined(text) && text@ == reason@,
        declined matches BridgeError::Declined(text) && text@ == shown@,
{
}

/// A provider call that never went out is declined, with the text shown for its error, whatever the
/// error is.
pub proof fn unsent_call_is_declined(
    error: Error,
    shown: String,
    raised: PyException,
    wrapped: PyException,
)
    requires
        call_ensures(Error::message, (&error,), shown),
        call_ensures(
            BridgeError::to_pyerr,
            (BridgeError::ProviderCall(ProviderCallError::NotSent(error)),),
            raised,
        ),
        call_ensures(fallback_error_to_pyerr, (Error::NotSent(Box::new(error)),), wrapped),
    ensures
        raised matches PyException::Declined(text) && text@ == shown@,
        wrapped matches PyException::Declined(text) && text@ == shown@,
{
}

/// A provider call that may have gone out is reported, and never declined: an answer with its
/// status and its body, and any other failure with the status 0 and its text. What counts is the
/// error under all wrappers, `root`; `shown` is its text, and `digits` is its status in decimal.
pub proof fn issued_call_is_reported(
    error: Error,
    root: &Error,
    shown: String,
    digits: String,
    raised: PyException,
    wrapped: PyException,
)
    requires
        call_ensures(Error::root, (&error,), root),
        call_ensures(Error::message, (root,), shown),
        root matches Error::Http { status, .. } ==> call_ensures(decimal_text, (*status,), digits),
        call_ensures(
            BridgeError::to_pyerr,
            (BridgeError::ProviderCall(ProviderCallError::PossiblySent(error)),),
            raised,
        ),
        call_ensures(fallback_error_to_pyerr, (Error::PossiblySent(Box::new(error)),), wrapped),
    ensures
        raised matches PyException::Upstream { status, message } && match *root {
            Error::Http { status: answered, body } => status == answered && message@ == digits@
                + ": "@ + body@,
            Error::Network(text) => status == 0 && message@ == text@,
            Error::InvalidResponse(text) => status == 0 && message@ == text@,
            _ => status == 0 && message@ == shown@,
        },
        wrapped matches PyException::Upstream { status, message } && (
        raised matches PyException::Upstream { status: same, message: text } && status == same
            && message@ == text@),
{
}

/// An error without a mark of how far the call got is reported on a route with fallback exactly
/// when the provider answered or may have been reached: an answer with its status and body, another
/// failure with the status 0 and its text. Every other error is declined with its text.
pub proof fn unmarked_error_is_reported_or_declined(
    error: Error,
    shown: String,
    digits: String,
    raised: PyException,
)
    requires
        !(error is NotSent) && !(error is PossiblySent),
        call_ensures(Error::message, (&error,), shown),
        error matches Error::Http { status, .. } ==> call_ensures(decimal_text, (status,), digits),
        call_ensures(fallback_error_to_pyerr, (error,), raised),
    ensures
        match error {
            Error::Http { status: answered, body } => raised matches PyException::Upstream {
                status,
                message,
            } && status == answered && message@ == digits@ + ": "@ + body@,
            Error::Network(text) => raised matches PyException::Upstream { status, message }
                && status == 0 && message@ == text@,
            Error::InvalidResponse(text) => raised matches PyException::Upstream {
                status,
                message,
            } && status == 0 && message@ == text@,
            _ => raised matches PyException::Declined(text) && text@ == shown@,
        },
{
}

/// Marking an error decides what a host that can serve the route itself is told: to retry, where
/// the request is marked as not sent, and that the call failed, where it may have been sent,
/// whatever the error is. The mark keeps the error.
pub proof fn mark_decides_whether_host_retries(
    error: Error,
    unsent: Error,
    issued: Error,
    retried: PyException,
    reported: PyException,
)
    requires
        call_ensures(Error::not_sent, (error,), unsent),
        call_ensures(Error::possibly_sent, (error,), issued),
        call_ensures(fallback_error_to_pyerr, (unsent,), retried),
        call_ensures(fallback_error_to_pyerr, (issued,), reported),
    ensures
        retried is Declined,
        reported is Upstream,
        unsent matches Error::NotSent(inner) && *inner == error,
        issued matches Error::PossiblySent(inner) && *inner == error,
{
}

} // verus!
