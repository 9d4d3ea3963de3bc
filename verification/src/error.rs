//! Errors of provider calls.

use vstd::prelude::*;
use vstd::string::*;

use crate::text::{decimal, decimal_text, join};

verus! {

/// Why a provider call failed.
#[derive(Debug, PartialEq, Eq)]
pub enum Error {
    /// The request never went out, for the reason inside.
    NotSent(Box<Error>),
    /// The request may have gone out before the failure inside.
    PossiblySent(Box<Error>),
    InvalidType { expected: &'static str, actual: &'static str },
    MissingField(&'static str),
    InvalidResponse(String),
    InvalidProvider(String),
    InvalidRequest(String),
    Auth(String),
    Http { status: u16, body: String },
    Network(String),
    /// The provider was never reached: DNS, TCP, TLS or proxy setup failed before any byte of the
    /// request went out. Nothing was billed, so a host with its own path can serve the request.
    /// A timeout is deliberately not this: the provider may have answered already.
    Connect(String),
    Routing(String),
    /// The request is outside what this path covers. A host with its own path falls back.
    Unsupported(&'static str),
}

/// What an [`Error`] holds, with texts as sequences of characters.
pub enum ErrorView {
    NotSent(Box<ErrorView>),
    PossiblySent(Box<ErrorView>),
    InvalidType { expected: Seq<char>, actual: Seq<char> },
    MissingField(Seq<char>),
    InvalidResponse(Seq<char>),
    InvalidProvider(Seq<char>),
    InvalidRequest(Seq<char>),
    Auth(Seq<char>),
    Http { status: u16, body: Seq<char> },
    Network(Seq<char>),
    Connect(Seq<char>),
    Routing(Seq<char>),
    Unsupported(Seq<char>),
}

impl Error {
    /// What the error holds.
    pub open spec fn contents(self) -> ErrorView
        decreases self,
    {
        match self {
            Error::NotSent(error) => ErrorView::NotSent(Box::new((*error).contents())),
            Error::PossiblySent(error) => ErrorView::PossiblySent(Box::new((*error).contents())),
            Error::InvalidType { expected, actual } => ErrorView::InvalidType {
                expected: expected@,
                actual: actual@,
            },
            Error::MissingField(field) => ErrorView::MissingField(field@),
            Error::InvalidResponse(text) => ErrorView::InvalidResponse(text@),
            Error::InvalidProvider(text) => ErrorView::InvalidProvider(text@),
            Error::InvalidRequest(text) => ErrorView::InvalidRequest(text@),
            Error::Auth(text) => ErrorView::Auth(text@),
            Error::Http { status, body } => ErrorView::Http { status, body: body@ },
            Error::Network(text) => ErrorView::Network(text@),
            Error::Connect(text) => ErrorView::Connect(text@),
            Error::Routing(text) => ErrorView::Routing(text@),
            Error::Unsupported(text) => ErrorView::Unsupported(text@),
        }
    }
}

impl View for Error {
    type V = ErrorView;

    open spec fn view(&self) -> ErrorView {
        self.contents()
    }
}

impl ErrorView {
    /// Whether the error only says if another one happened before or after sending.
    pub open spec fn is_wrapper(self) -> bool {
        self is NotSent || self is PossiblySent
    }

    /// The error under all the wrappers.
    pub open spec fn root(self) -> ErrorView
        decreases self,
    {
        match self {
            ErrorView::NotSent(error) => error.root(),
            ErrorView::PossiblySent(error) => error.root(),
            error => error,
        }
    }

    /// The text shown for the error.
    pub open spec fn message(self) -> Seq<char>
        decreases self,
    {
        match self {
            ErrorView::NotSent(error) => "provider request was not sent: "@ + error.message(),
            ErrorView::PossiblySent(error) => "provider request may have been sent: "@
                + error.message(),
            ErrorView::InvalidType { expected, actual } => "expected "@ + expected + ", got "@
                + actual,
            ErrorView::MissingField(field) => "missing required field: "@ + field,
            ErrorView::InvalidResponse(text) => "invalid response: "@ + text,
            ErrorView::InvalidProvider(text) => "invalid provider: "@ + text,
            ErrorView::InvalidRequest(text) => "invalid request: "@ + text,
            ErrorView::Auth(text) => text,
            ErrorView::Http { status, body } => "upstream request failed with status "@ + decimal(
                status as nat,
            ) + ": "@ + body,
            ErrorView::Network(text) => "upstream network error: "@ + text,
            ErrorView::Connect(text) => "could not reach the provider: "@ + text,
            ErrorView::Routing(text) => "routing error: "@ + text,
            ErrorView::Unsupported(text) => "unsupported by the rust path: "@ + text,
        }
    }
}

/// What is known of a request that failed to be sent.
#[derive(Debug, PartialEq, Eq)]
pub struct SendError {
    /// The connection could not be established.
    pub is_connect: bool,
    /// The request could not even be built.
    pub is_builder: bool,
    /// The text of the failure.
    pub message: String,
}

/// The error of a failure to send.
pub open spec fn send_error_view(error: SendError) -> ErrorView {
    if error.is_connect {
        ErrorView::NotSent(Box::new(ErrorView::Connect(error.message@)))
    } else {
        ErrorView::PossiblySent(Box::new(ErrorView::Network(error.message@)))
    }
}

impl Error {
    /// Marks an error as one that happened before the request went out.
    pub fn not_sent(error: Error) -> (r: Self)
        ensures
            r == Error::NotSent(Box::new(error)),
            r@ == ErrorView::NotSent(Box::new(error@)),
    {
        Self::NotSent(Box::new(error))
    }

    /// Marks an error as one that may have happened after the request went out.
    pub fn possibly_sent(error: Error) -> (r: Self)
        ensures
            r == Error::PossiblySent(Box::new(error)),
            r@ == ErrorView::PossiblySent(Box::new(error@)),
    {
        Self::PossiblySent(Box::new(error))
    }

    /// Classifies a failure to send: only a failed connection shows that nothing went out.
    pub fn from_send_error(error: SendError) -> (r: Self)
        ensures
            r@ == send_error_view(error),
            r == (if error.is_connect {
                Error::NotSent(Box::new(Error::Connect(error.message)))
            } else {
                Error::PossiblySent(Box::new(Error::Network(error.message)))
            }),
    {
        if error.is_connect {
            return Self::not_sent(Self::Connect(error.message));
        }
        Self::possibly_sent(Self::Network(error.message))
    }

    /// The error under all the wrappers.
    pub fn root(&self) -> (r: &Error)
        ensures
            r@ == self@.root(),
            !self@.is_wrapper() ==> r == self,
        decreases self,
    {
        match self {
            Self::NotSent(error) => error.root(),
            Self::PossiblySent(error) => error.root(),
            error => error,
        }
    }

    /// The text shown for the error.
    pub fn message(&self) -> (r: String)
        ensures
            r@ == self@.message(),
        decreases self,
    {
        match self {
            Self::NotSent(error) => join(
                "provider request was not sent: ",
                error.message().as_str(),
            ),
            Self::PossiblySent(error) => join(
                "provider request may have been sent: ",
                error.message().as_str(),
            ),
            Self::InvalidType { expected, actual } => {
                let mut text = join("expected ", expected);
                text.append(", got ");
                text.append(actual);
                text
            },
            Self::MissingField(field) => join("missing required field: ", field),
            Self::InvalidResponse(text) => join("invalid response: ", text.as_str()),
            Self::InvalidProvider(text) => join("invalid provider: ", text.as_str()),
            Self::InvalidRequest(text) => join("invalid request: ", text.as_str()),
            Self::Auth(text) => text.clone(),
            Self::Http { status, body } => {
                let mut text = join(
                    "upstream request failed with status ",
                    decimal_text(*status).as_str(),
                );
                text.append(": ");
                text.append(body.as_str());
                text
            },
            Self::Network(text) => join("upstream network error: ", text.as_str()),
            Self::Connect(text) => join("could not reach the provider: ", text.as_str()),
            Self::Routing(text) => join("routing error: ", text.as_str()),
            Self::Unsupported(text) => join("unsupported by the rust path: ", text),
        }
    }
}

/// How far a provider call got before it failed.
#[derive(Debug, PartialEq, Eq)]
pub enum ProviderCallError {
    /// The request never went out.
    NotSent(Error),
    /// The request may have gone out.
    PossiblySent(Error),
}

/// The result of a provider call.
pub type ProviderCallResult<T> = Result<T, ProviderCallError>;

/// What a [`ProviderCallError`] holds.
pub enum ProviderCallErrorView {
    NotSent(ErrorView),
    PossiblySent(ErrorView),
}

impl View for ProviderCallError {
    type V = ProviderCallErrorView;

    open spec fn view(&self) -> ProviderCallErrorView {
        match self {
            ProviderCallError::NotSent(error) => ProviderCallErrorView::NotSent(error@),
            ProviderCallError::PossiblySent(error) => ProviderCallErrorView::PossiblySent(error@),
        }
    }
}

/// The root of an error is never a wrapper.
pub proof fn root_is_no_wrapper(error: ErrorView)
    ensures
        !error.root().is_wrapper(),
    decreases error,
{
    match error {
        ErrorView::NotSent(inner) => root_is_no_wrapper(*inner),
        ErrorView::PossiblySent(inner) => root_is_no_wrapper(*inner),
        _ => {},
    }
}

/// Marking an error as sent or not sent keeps its root, and the root is its own root.
pub proof fn wrapping_keeps_root(error: ErrorView)
    ensures
        ErrorView::NotSent(Box::new(error)).root() == error.root(),
        ErrorView::PossiblySent(Box::new(error)).root() == error.root(),
        error.root().root() == error.root(),
{
    root_is_no_wrapper(error);
}

/// The root of an error is found by taking all wrappers off, and is the error itself where it has
/// none. `below` is the root of what the wrapper holds.
pub proof fn root_takes_all_wrappers_off(error: Error, found: &Error, below: &Error)
    requires
        call_ensures(Error::root, (&error,), found),
        error matches Error::NotSent(inner) ==> call_ensures(Error::root, (&*inner,), below),
        error matches Error::PossiblySent(inner) ==> call_ensures(Error::root, (&*inner,), below),
    ensures
        !(found is NotSent) && !(found is PossiblySent),
        error is NotSent || error is PossiblySent ==> found@ == below@,
        !(error is NotSent || error is PossiblySent) ==> *found == error,
{
    root_is_no_wrapper(error@);
}

/// The text of an error says what kind of error it is and gives all that the error holds. `digits`
/// is the status of an HTTP error in decimal, and `below` is the text of what a wrapper holds.
pub proof fn message_tells_kind_and_contents(
    error: Error,
    shown: String,
    digits: String,
    below: String,
)
    requires
        call_ensures(Error::message, (&error,), shown),
        error matches Error::Http { status, .. } ==> call_ensures(decimal_text, (status,), digits),
        error matches Error::NotSent(inner) ==> call_ensures(Error::message, (&*inner,), below),
        error matches Error::PossiblySent(inner) ==> call_ensures(
            Error::message,
            (&*inner,),
            below,
        ),
    ensures
        error is NotSent ==> shown@ == "provider request was not sent: "@ + below@,
        error is PossiblySent ==> shown@ == "provider request may have been sent: "@ + below@,
        error matches Error::InvalidType { expected, actual } ==> shown@ == "expected "@
            + expected@ + ", got "@ + actual@,
        error matches Error::MissingField(field) ==> shown@ == "missing required field: "@
            + field@,
        error matches Error::InvalidResponse(text) ==> shown@ == "invalid response: "@ + text@,
        error matches Error::InvalidProvider(text) ==> shown@ == "invalid provider: "@ + text@,
        error matches Error::InvalidRequest(text) ==> shown@ == "invalid request: "@ + text@,
        error matches Error::Auth(text) ==> shown@ == text@,
        error matches Error::Http { body, .. } ==> shown@
            == "upstream request failed with status "@ + digits@ + ": "@ + body@,
        error matches Error::Network(text) ==> shown@ == "upstream network error: "@ + text@,
        error matches Error::Connect(text) ==> shown@ == "could not reach the provider: "@ + text@,
        error matches Error::Routing(text) ==> shown@ == "routing error: "@ + text@,
        error matches Error::Unsupported(text) ==> shown@ == "unsupported by the rust path: "@
            + text@,
{
}

/// A failure to send is one of a request that never went out exactly when the connection could not
/// be made. Either way its text is kept.
pub proof fn send_error_keeps_text_and_tells_whether_sent(error: SendError, classified: Error)
    requires
        call_ensures(Error::from_send_error, (error,), classified),
    ensures
        classified is NotSent <==> error.is_connect,
        classified matches Error::NotSent(inner) ==> (*inner matches Error::Connect(text) && text@
            == error.message@),
        !(classified is NotSent) ==> (classified matches Error::PossiblySent(inner)
            && *inner matches Error::Network(text) && text@ == error.message@),
{
}

} // verus!
