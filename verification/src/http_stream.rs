//! Opening a streamed HTTP response and reading it.
//!
//! A call is run in stages, each of which takes the outcome of one piece of I/O: building the
//! client ([`HttpStreamCall::start`]), waiting for the response ([`Opening::resume`]), reading the
//! body of an answer that is no success ([`ErrorCapture::resume`]), and reading the body of one
//! that is ([`stream_item`]).

use std::time::Duration;

use vstd::prelude::*;
use vstd::string::*;
use vstd::utf8::*;

use crate::error::{Error, ErrorView, ProviderCallError, ProviderCallErrorView, SendError};
use crate::exceptions::{bridge_exception, BridgeError, BridgeErrorView, PyExceptionView};
use crate::http_utils::{
    truncate_error_body, truncated, truncated_is_longest_fitting_prefix, ERROR_BODY_LIMIT_BYTES,
};
use crate::json::{distinct_names, Value};
use crate::marshal::{
    string_entries, string_headers, string_headers_result, text_pairs, Argument, ArgumentError,
    ArgumentErrorView,
};
use crate::outside::{
    decode_lossy, header_reading, is_header_byte, is_method, is_method_char, is_text_byte,
    parse_method, read_header, utf8_lossy,
};

verus! {

/// A request whose response is to be streamed.
#[derive(Debug, PartialEq, Eq)]
pub struct HttpStreamCall {
    pub method: String,
    pub url: String,
    pub headers: Vec<(String, String)>,
    pub body: Vec<u8>,
    pub open_timeout: Option<Duration>,
    pub read_idle_timeout: Option<Duration>,
}

/// The refusal of the arguments of a call, where there is one: of the method first, then of the
/// headers.
pub open spec fn call_refusal<C>(method: Seq<char>, headers: Option<Argument<C>>) -> Option<
    ArgumentErrorView<C>,
> {
    if !is_method(method) {
        Some(ArgumentErrorView::Invalid("invalid HTTP method"@))
    } else {
        match string_headers_result(headers) {
            Ok(_) => None,
            Err(error) => Some(error),
        }
    }
}

impl HttpStreamCall {
    /// Takes a call from Python. A refused argument declines the route.
    pub fn from_python<C>(
        method: String,
        url: String,
        headers: Option<Argument<C>>,
        body: Option<Vec<u8>>,
        open_timeout: Option<Duration>,
        read_idle_timeout: Option<Duration>,
    ) -> (r: Result<Self, BridgeError>)
        ensures
            r is Ok <==> call_refusal(method@, headers) is None,
            r matches Ok(call) ==> {
                &&& call.method@ == method@
                &&& call.url == url
                &&& string_headers_result(headers) == Ok::<_, ArgumentErrorView<C>>(
                    text_pairs(call.headers@),
                )
                &&& distinct_names(text_pairs(call.headers@))
                &&& call.body@ == (match body {
                    Some(bytes) => bytes@,
                    None => Seq::empty(),
                })
                &&& call.open_timeout == open_timeout
                &&& call.read_idle_timeout == read_idle_timeout
            },
            r matches Err(error) ==> (call_refusal(method@, headers) matches Some(refusal)
                && error@ == BridgeErrorView::Declined(refusal.text())),
    {
        let method = match parse_method(method.as_str()) {
            Ok(method) => method,
            Err(text) => {
                return Err(ArgumentError::<C>::Invalid(text).declined());
            },
        };
        let headers = match string_headers(headers) {
            Ok(headers) => headers,
            Err(error) => {
                return Err(error.declined());
            },
        };
        let body = match body {
            Some(bytes) => bytes,
            None => Vec::new(),
        };
        Ok(HttpStreamCall { method, url, headers, body, open_timeout, read_idle_timeout })
    }

    /// Goes on once the client was built, or its building failed with a text: what to send, and
    /// what to wait for.
    pub fn start(self, client: Result<(), String>) -> (r: Result<(HttpRequest, Opening), BridgeError>)
        ensures
            client is Ok ==> r == Ok::<(HttpRequest, Opening), BridgeError>(
                (
                    HttpRequest {
                        method: self.method,
                        url: self.url,
                        headers: self.headers,
                        body: self.body,
                        open_timeout: self.open_timeout,
                    },
                    Opening { read_idle_timeout: self.read_idle_timeout },
                ),
            ),
            client matches Err(text) ==> (r matches Err(error) && error@ == never_reached(text@)),
    {
        match client {
            Ok(()) => Ok(
                (
                    HttpRequest {
                        method: self.method,
                        url: self.url,
                        headers: self.headers,
                        body: self.body,
                        open_timeout: self.open_timeout,
                    },
                    Opening { read_idle_timeout: self.read_idle_timeout },
                ),
            ),
            Err(text) => Err(BridgeError::declined(&Error::Connect(text))),
        }
    }
}

/// A request to send, and how long to wait for its response.
#[derive(Debug, PartialEq, Eq)]
pub struct HttpRequest {
    pub method: String,
    pub url: String,
    pub headers: Vec<(String, String)>,
    pub body: Vec<u8>,
    pub open_timeout: Option<Duration>,
}

/// A call that was sent and whose response is awaited.
#[derive(Debug, PartialEq, Eq)]
pub struct Opening {
    pub read_idle_timeout: Option<Duration>,
}

/// The beginning of a response.
#[derive(Debug, PartialEq, Eq)]
pub struct ResponseHead {
    pub status: u16,
    pub headers: Vec<(String, Vec<u8>)>,
}

/// What became of waiting for a response.
#[derive(Debug, PartialEq, Eq)]
pub enum OpenEvent {
    /// No response came in time.
    TimedOut,
    /// The request could not be sent.
    Failed(SendError),
    /// A response began.
    Responded(ResponseHead),
}

/// A response that is a success, with its body still to be read.
#[derive(Debug, PartialEq, Eq)]
pub struct OpenedHttpStream {
    pub status_code: u16,
    pub headers: Vec<(String, String)>,
    pub read_idle_timeout: Option<Duration>,
}

/// What follows on waiting for a response.
#[derive(Debug, PartialEq, Eq)]
pub enum OpenStep {
    /// The call failed.
    Failed(BridgeError),
    /// The host gets the stream.
    Opened(OpenedHttpStream),
    /// The answer is no success: its body is to be read for the error.
    Rejected(ErrorCapture),
}

/// What an [`OpenStep`] holds.
pub enum OpenStepView {
    Failed(BridgeErrorView),
    Opened {
        status_code: u16,
        headers: Seq<(Seq<char>, Seq<char>)>,
        read_idle_timeout: Option<Duration>,
    },
    Rejected(ErrorCaptureView),
}

impl View for OpenStep {
    type V = OpenStepView;

    open spec fn view(&self) -> OpenStepView {
        match self {
            OpenStep::Failed(error) => OpenStepView::Failed(error@),
            OpenStep::Opened(opened) => OpenStepView::Opened {
                status_code: opened.status_code,
                headers: text_pairs(opened.headers@),
                read_idle_timeout: opened.read_idle_timeout,
            },
            OpenStep::Rejected(capture) => OpenStepView::Rejected(capture@),
        }
    }
}

/// The failure of a call that never reached the provider.
pub open spec fn never_reached(text: Seq<char>) -> BridgeErrorView {
    BridgeErrorView::Declined(ErrorView::Connect(text).message())
}

/// The failure of a call that may have reached the provider.
pub open spec fn possibly_sent(error: ErrorView) -> BridgeErrorView {
    BridgeErrorView::ProviderCall(ProviderCallErrorView::PossiblySent(error))
}

fn fail_possibly_sent(error: Error) -> (r: BridgeError)
    ensures
        r@ == possibly_sent(error@),
{
    BridgeError::from(ProviderCallError::PossiblySent(error))
}

/// Whether a status tells of success.
pub open spec fn is_success(status: u16) -> bool {
    200 <= status < 300
}

/// The headers of a response as texts, or the text of the error of the first one that is none.
pub open spec fn headers_reading(headers: Seq<(String, Vec<u8>)>) -> Result<
    Seq<(Seq<char>, Seq<char>)>,
    Seq<char>,
>
    decreases headers.len(),
{
    if headers.len() == 0 {
        Ok(Seq::empty())
    } else {
        match header_reading(headers[0].1@) {
            Err(text) => Err(text),
            Ok(value) => match headers_reading(headers.drop_first()) {
                Err(text) => Err(text),
                Ok(rest) => Ok(seq![(headers[0].0@, value)] + rest),
            },
        }
    }
}

/// Reads the headers of a response as texts.
pub fn response_headers(headers: &Vec<(String, Vec<u8>)>) -> (r: Result<
    Vec<(String, String)>,
    Error,
>)
    ensures
        r matches Ok(pairs) ==> headers_reading(headers@) == Ok::<_, Seq<char>>(text_pairs(pairs@)),
        r matches Err(error) ==> (headers_reading(headers@) matches Err(text) && error@
            == ErrorView::InvalidResponse(text)),
{
    let mut pairs: Vec<(String, String)> = Vec::new();
    let mut i: usize = 0;
    assert(headers@.skip(0) =~= headers@);
    while i < headers.len()
        invariant
            i <= headers@.len(),
            match headers_reading(headers@.skip(i as int)) {
                Ok(rest) => headers_reading(headers@) == Ok::<_, Seq<char>>(
                    text_pairs(pairs@) + rest,
                ),
                Err(text) => headers_reading(headers@) == Err::<Seq<(Seq<char>, Seq<char>)>, _>(
                    text,
                ),
            },
        decreases headers@.len() - i,
    {
        let ghost here = headers@.skip(i as int);
        let ghost before = text_pairs(pairs@);
        assert(here.drop_first() =~= headers@.skip(i + 1));
        assert(here[0] == headers@[i as int]);
        match read_header(headers[i].1.as_slice()) {
            Ok(value) => {
                pairs.push((headers[i].0.clone(), value));
                assert(text_pairs(pairs@) =~= before.push((headers@[i as int].0@, value@)));
                proof {
                    if let Ok(rest) = headers_reading(here.drop_first()) {
                        assert(before + (seq![(here[0].0@, value@)] + rest) =~= text_pairs(pairs@)
                            + rest);
                    }
                }
            },
            Err(text) => {
                return Err(Error::InvalidResponse(text));
            },
        }
        i = i + 1;
    }
    assert(text_pairs(pairs@) + Seq::empty() =~= text_pairs(pairs@));
    Ok(pairs)
}

/// What follows on waiting for a response.
pub open spec fn open_step(opening: Opening, event: OpenEvent) -> OpenStepView {
    match event {
        OpenEvent::TimedOut => OpenStepView::Failed(
            possibly_sent(ErrorView::Network("stream response open timed out"@)),
        ),
        OpenEvent::Failed(error) => OpenStepView::Failed(
            if error.is_connect || error.is_builder {
                never_reached(error.message@)
            } else {
                possibly_sent(ErrorView::Network(error.message@))
            },
        ),
        OpenEvent::Responded(head) => if is_success(head.status) {
            match headers_reading(head.headers@) {
                Ok(headers) => OpenStepView::Opened {
                    status_code: head.status,
                    headers,
                    read_idle_timeout: opening.read_idle_timeout,
                },
                Err(text) => OpenStepView::Failed(possibly_sent(ErrorView::InvalidResponse(text))),
            }
        } else {
            OpenStepView::Rejected(
                ErrorCaptureView {
                    status: head.status,
                    captured: Seq::empty(),
                    read_idle_timeout: opening.read_idle_timeout,
                },
            )
        },
    }
}

impl Opening {
    /// Goes on once waiting for the response came to an end.
    pub fn resume(self, event: OpenEvent) -> (r: OpenStep)
        ensures
            r@ == open_step(self, event),
    {
        match event {
            OpenEvent::TimedOut => OpenStep::Failed(
                fail_possibly_sent(Error::Network("stream response open timed out".to_owned())),
            ),
            OpenEvent::Failed(error) => {
                if error.is_connect || error.is_builder {
                    OpenStep::Failed(BridgeError::declined(&Error::Connect(error.message)))
                } else {
                    OpenStep::Failed(fail_possibly_sent(Error::Network(error.message)))
                }
            },
            OpenEvent::Responded(head) => {
                if !(200 <= head.status && head.status < 300) {
                    return OpenStep::Rejected(
                        ErrorCapture::new(head.status, self.read_idle_timeout),
                    );
                }
                match response_headers(&head.headers) {
                    Ok(headers) => OpenStep::Opened(
                        OpenedHttpStream {
                            status_code: head.status,
                            headers,
                            read_idle_timeout: self.read_idle_timeout,
                        },
                    ),
                    Err(error) => OpenStep::Failed(fail_possibly_sent(error)),
                }
            },
        }
    }
}

/// What became of waiting for more of a body.
#[derive(Debug, PartialEq, Eq)]
pub enum BodyEvent {
    /// More of the body came.
    Chunk(Vec<u8>),
    /// Reading failed, with a text.
    Failed(String),
    /// Nothing came in time.
    TimedOut,
    /// The body is over.
    Ended,
}

/// An answer that is no success, and what is known of its body so far.
#[derive(Debug, PartialEq, Eq)]
pub struct ErrorCapture {
    status: u16,
    captured: Vec<u8>,
    read_idle_timeout: Option<Duration>,
}

/// What an [`ErrorCapture`] holds.
pub struct ErrorCaptureView {
    pub status: u16,
    pub captured: Seq<u8>,
    pub read_idle_timeout: Option<Duration>,
}

impl View for ErrorCapture {
    type V = ErrorCaptureView;

    closed spec fn view(&self) -> ErrorCaptureView {
        ErrorCaptureView {
            status: self.status,
            captured: self.captured@,
            read_idle_timeout: self.read_idle_timeout,
        }
    }
}

/// What follows on reading more of the body of an answer that is no success.
#[derive(Debug, PartialEq, Eq)]
pub enum CaptureStep {
    /// More is to be read.
    More(ErrorCapture),
    /// Enough was read: the call failed.
    Finished(BridgeError),
}

/// What a [`CaptureStep`] holds.
pub enum CaptureStepView {
    More(ErrorCaptureView),
    Finished(BridgeErrorView),
}

impl View for CaptureStep {
    type V = CaptureStepView;

    open spec fn view(&self) -> CaptureStepView {
        match self {
            CaptureStep::More(capture) => CaptureStepView::More(capture@),
            CaptureStep::Finished(error) => CaptureStepView::Finished(error@),
        }
    }
}

/// The first bytes, up to the limit.
pub open spec fn within_limit(bytes: Seq<u8>) -> Seq<u8> {
    if bytes.len() <= ERROR_BODY_LIMIT_BYTES {
        bytes
    } else {
        bytes.take(ERROR_BODY_LIMIT_BYTES as int)
    }
}

/// The error of an answer that is no success, from its status and the bytes kept of its body.
pub open spec fn answer_error(status: u16, captured: Seq<u8>) -> ErrorView {
    ErrorView::Http { status, body: truncated(utf8_lossy(captured)) }
}

/// The error of an answer that is no success, from its status and the bytes kept of its body.
pub fn response_error(status: u16, captured: &Vec<u8>) -> (r: Error)
    ensures
        r@ == answer_error(status, captured@),
        valid_utf8(captured@) && captured@.len() <= ERROR_BODY_LIMIT_BYTES ==> r@
            == (ErrorView::Http { status, body: decode_utf8(captured@) }),
{
    let text = decode_lossy(captured.as_slice());
    proof {
        if valid_utf8(captured@) {
            decode_utf8_encode_utf8(captured@);
        }
    }
    Error::Http { status, body: truncate_error_body(text.as_str()) }
}

/// What follows on reading more of the body of an answer that is no success.
pub open spec fn capture_step(capture: ErrorCaptureView, event: BodyEvent) -> CaptureStepView {
    match event {
        BodyEvent::Chunk(chunk) => {
            let captured = within_limit(capture.captured + chunk@);
            if captured.len() < ERROR_BODY_LIMIT_BYTES {
                CaptureStepView::More(ErrorCaptureView { captured, ..capture })
            } else {
                CaptureStepView::Finished(possibly_sent(answer_error(capture.status, captured)))
            }
        },
        _ => CaptureStepView::Finished(
            possibly_sent(answer_error(capture.status, capture.captured)),
        ),
    }
}

impl ErrorCapture {
    #[verifier::type_invariant]
    closed spec fn has_room(self) -> bool {
        self.captured@.len() < ERROR_BODY_LIMIT_BYTES
    }

    fn new(status: u16, read_idle_timeout: Option<Duration>) -> (r: Self)
        ensures
            r@ == (ErrorCaptureView { status, captured: Seq::empty(), read_idle_timeout }),
    {
        ErrorCapture { status, captured: Vec::new(), read_idle_timeout }
    }

    /// How long to wait for more of the body.
    pub fn read_idle_timeout(&self) -> (r: Option<Duration>)
        ensures
            r == self@.read_idle_timeout,
    {
        self.read_idle_timeout
    }

    /// Goes on once waiting for more of the body came to an end. There is always room for more
    /// bytes while the body is read. Where the bytes kept are valid UTF-8, their text is reported.
    pub fn resume(self, event: BodyEvent) -> (r: CaptureStep)
        ensures
            self@.captured.len() < ERROR_BODY_LIMIT_BYTES,
            r@ == capture_step(self@, event),
            !(event is Chunk) && valid_utf8(self@.captured) ==> r@ == CaptureStepView::Finished(
                possibly_sent(
                    ErrorView::Http {
                        status: self@.status,
                        body: decode_utf8(self@.captured),
                    },
                ),
            ),
            event matches BodyEvent::Chunk(chunk) ==> {
                let kept = within_limit(self@.captured + chunk@);
                kept.len() == ERROR_BODY_LIMIT_BYTES && valid_utf8(kept) ==> r@
                    == CaptureStepView::Finished(
                    possibly_sent(
                        ErrorView::Http { status: self@.status, body: decode_utf8(kept) },
                    ),
                )
            },
    {
        proof {
            use_type_invariant(&self);
        }
        let mut captured = self.captured;
        match event {
            BodyEvent::Chunk(chunk) => {
                let ghost before = captured@;
                let remaining: usize = ERROR_BODY_LIMIT_BYTES - captured.len();
                let count: usize = if chunk.len() < remaining {
                    chunk.len()
                } else {
                    remaining
                };
                let mut i: usize = 0;
                while i < count
                    invariant
                        i <= count <= chunk@.len(),
                        captured@ == before + chunk@.take(i as int),
                    decreases count - i,
                {
                    captured.push(chunk[i]);
                    i = i + 1;
                    assert(captured@ =~= before + chunk@.take(i as int));
                }
                assert(captured@ =~= within_limit(before + chunk@));
                if captured.len() < ERROR_BODY_LIMIT_BYTES {
                    CaptureStep::More(
                        ErrorCapture {
                            status: self.status,
                            captured,
                            read_idle_timeout: self.read_idle_timeout,
                        },
                    )
                } else {
                    CaptureStep::Finished(
                        fail_possibly_sent(response_error(self.status, &captured)),
                    )
                }
            },
            _ => CaptureStep::Finished(fail_possibly_sent(response_error(self.status, &captured))),
        }
    }
}

/// One item of a stream, or its end.
pub enum StreamItemView {
    Bytes(Seq<u8>),
    Failed(BridgeErrorView),
    Ended,
}

/// The item that the host gets for what became of waiting for more of the body.
pub open spec fn stream_item_of(event: BodyEvent) -> StreamItemView {
    match event {
        BodyEvent::Chunk(chunk) => StreamItemView::Bytes(chunk@),
        BodyEvent::Failed(text) => StreamItemView::Failed(
            possibly_sent(ErrorView::Network(text@)),
        ),
        BodyEvent::TimedOut => StreamItemView::Failed(
            possibly_sent(ErrorView::Network("stream response read timed out"@)),
        ),
        BodyEvent::Ended => StreamItemView::Ended,
    }
}

/// The item of a stream that the host gets for what became of waiting for more of the body.
pub fn stream_item(event: BodyEvent) -> (r: Option<Result<Vec<u8>, BridgeError>>)
    ensures
        r == None::<Result<Vec<u8>, BridgeError>> <==> stream_item_of(event) is Ended,
        r matches Some(Ok(bytes)) ==> stream_item_of(event) == StreamItemView::Bytes(bytes@),
        r matches Some(Err(error)) ==> stream_item_of(event) == StreamItemView::Failed(error@),
{
    match event {
        BodyEvent::Chunk(chunk) => Some(Ok(chunk)),
        BodyEvent::Failed(text) => Some(Err(fail_possibly_sent(Error::Network(text)))),
        BodyEvent::TimedOut => Some(
            Err(fail_possibly_sent(Error::Network("stream response read timed out".to_owned()))),
        ),
        BodyEvent::Ended => None,
    }
}

/// Where reading the body of an answer that is no success stands after some events.
pub open spec fn capture_after(capture: ErrorCaptureView, events: Seq<BodyEvent>) -> CaptureStepView
    decreases events.len(),
{
    if events.len() == 0 {
        CaptureStepView::More(capture)
    } else {
        match capture_step(capture, events[0]) {
            CaptureStepView::More(next) => capture_after(next, events.drop_first()),
            finished => finished,
        }
    }
}

/// The bytes that come before a body ends or fails.
pub open spec fn leading_bytes(events: Seq<BodyEvent>) -> Seq<u8>
    decreases events.len(),
{
    if events.len() == 0 {
        Seq::empty()
    } else {
        match events[0] {
            BodyEvent::Chunk(chunk) => chunk@ + leading_bytes(events.drop_first()),
            _ => Seq::empty(),
        }
    }
}

/// Whether all events bring more of a body.
pub open spec fn all_chunks(events: Seq<BodyEvent>) -> bool {
    forall|i: int| 0 <= i < events.len() ==> (#[trigger] events[i]) is Chunk
}

/// Reading an answer that is no success goes on exactly while only chunks came and they leave
/// room, and keeps them all. It ends in the error of the status and of the first bytes of the
/// body, up to the limit, however the body is cut into chunks and whatever follows.
pub proof fn capture_keeps_first_bytes(capture: ErrorCaptureView, events: Seq<BodyEvent>)
    requires
        capture.captured.len() < ERROR_BODY_LIMIT_BYTES,
    ensures
        capture_after(capture, events) is More <==> (all_chunks(events) && (capture.captured
            + leading_bytes(events)).len() < ERROR_BODY_LIMIT_BYTES),
        capture_after(capture, events) matches CaptureStepView::More(next) ==> next == (
        ErrorCaptureView { captured: capture.captured + leading_bytes(events), ..capture }),
        capture_after(capture, events) matches CaptureStepView::Finished(error) ==> error
            == possibly_sent(
            answer_error(capture.status, within_limit(capture.captured + leading_bytes(events))),
        ),
    decreases events.len(),
{
    if events.len() == 0 {
        assert(capture.captured + leading_bytes(events) =~= capture.captured);
    } else {
        let rest = events.drop_first();
        match events[0] {
            BodyEvent::Chunk(chunk) => {
                let all = capture.captured + leading_bytes(events);
                let now = capture.captured + chunk@;
                assert(all =~= now + leading_bytes(rest));
                match capture_step(capture, events[0]) {
                    CaptureStepView::More(next) => {
                        capture_keeps_first_bytes(next, rest);
                        assert(next.captured == now);
                        assert(forall|i: int|
                            0 <= i < rest.len() ==> #[trigger] rest[i] == events[i + 1]);
                        if all_chunks(rest) {
                            assert forall|i: int| 0 <= i < events.len() implies (
                            #[trigger] events[i]) is Chunk by {
                                if i > 0 {
                                    assert(rest[i - 1] is Chunk);
                                }
                            }
                        }
                        if all_chunks(events) {
                            assert(all_chunks(rest));
                        }
                    },
                    CaptureStepView::Finished(_) => {
                        assert(within_limit(now) =~= within_limit(all));
                    },
                }
            },
            _ => {
                assert(capture.captured + leading_bytes(events) =~= capture.captured);
                assert(!(events[0] is Chunk));
            },
        }
    }
}

/// The error of an answer holds no more of the body than the limit, and holds the body itself
/// where that is text within the limit and reads back as it was sent.
pub proof fn answer_error_is_bounded(status: u16, captured: Seq<u8>)
    ensures
        answer_error(status, captured) matches ErrorView::Http { status: s, body } && s == status
            && encode_utf8(body).len() <= ERROR_BODY_LIMIT_BYTES && body.is_prefix_of(
            utf8_lossy(captured),
        ),
        encode_utf8(utf8_lossy(captured)) == captured && captured.len() <= ERROR_BODY_LIMIT_BYTES
            ==> answer_error(status, captured) == (ErrorView::Http {
            status,
            body: utf8_lossy(captured),
        }),
{
    truncated_is_longest_fitting_prefix(utf8_lossy(captured));
}

/// Whether all headers of a response read as text.
pub open spec fn headers_are_text(headers: Seq<(String, Vec<u8>)>) -> bool {
    forall|i: int, j: int|
        0 <= i < headers.len() && 0 <= j < headers[i].1@.len() ==> is_text_byte(
            #[trigger] headers[i].1@[j],
        )
}

/// The headers of a response can be handed over exactly when every byte of every value is text,
/// and are then handed over one for one, in order.
pub proof fn headers_read_when_text(headers: Seq<(String, Vec<u8>)>)
    ensures
        headers_reading(headers) is Ok <==> headers_are_text(headers),
        headers_reading(headers) matches Ok(pairs) ==> pairs.len() == headers.len() && forall|i: int|
            0 <= i < headers.len() ==> (#[trigger] pairs[i]) == (
                headers[i].0@,
                headers[i].1@.map_values(|b: u8| b as char),
            ),
    decreases headers.len(),
{
    if headers.len() > 0 {
        let rest = headers.drop_first();
        headers_read_when_text(rest);
        assert(forall|i: int| 0 <= i < rest.len() ==> #[trigger] rest[i] == headers[i + 1]);
        let first = headers[0].1@;
        let first_is_text = forall|j: int| 0 <= j < first.len() ==> is_text_byte(#[trigger] first[j]);
        if headers_are_text(headers) {
            assert forall|j: int| 0 <= j < first.len() implies is_text_byte(#[trigger] first[j]) by {
                assert(is_text_byte(headers[0].1@[j]));
            }
            assert forall|i: int, j: int|
                0 <= i < rest.len() && 0 <= j < rest[i].1@.len() implies is_text_byte(
                #[trigger] rest[i].1@[j],
            ) by {
                assert(is_text_byte(headers[i + 1].1@[j]));
            }
        }
        if first_is_text && headers_are_text(rest) {
            assert forall|i: int, j: int|
                0 <= i < headers.len() && 0 <= j < headers[i].1@.len() implies is_text_byte(
                #[trigger] headers[i].1@[j],
            ) by {
                if i == 0 {
                    assert(is_text_byte(first[j]));
                } else {
                    assert(is_text_byte(rest[i - 1].1@[j]));
                }
            }
        }
        if let Ok(pairs) = headers_reading(headers) {
            let tail = headers_reading(rest)->Ok_0;
            assert forall|i: int| 0 <= i < headers.len() implies (#[trigger] pairs[i]) == (
                headers[i].0@,
                headers[i].1@.map_values(|b: u8| b as char),
            ) by {
                if i > 0 {
                    assert(pairs[i] == tail[i - 1]);
                }
            }
        }
    }
}

/// Where a call stands.
pub enum RunView {
    /// More of the body of an answer that is no success is awaited.
    Waiting,
    Failed(BridgeErrorView),
    /// The host has the stream.
    Opened {
        status_code: u16,
        headers: Seq<(Seq<char>, Seq<char>)>,
        read_idle_timeout: Option<Duration>,
    },
}

/// Where a call stands after its client was built or not, waiting for the response came to an
/// end, and some of the body was awaited.
pub open spec fn run_after(
    call: HttpStreamCall,
    client: Result<(), String>,
    event: OpenEvent,
    body: Seq<BodyEvent>,
) -> RunView {
    match client {
        Err(text) => RunView::Failed(never_reached(text@)),
        Ok(_) => match open_step(Opening { read_idle_timeout: call.read_idle_timeout }, event) {
            OpenStepView::Failed(error) => RunView::Failed(error),
            OpenStepView::Opened { status_code, headers, read_idle_timeout } => RunView::Opened {
                status_code,
                headers,
                read_idle_timeout,
            },
            OpenStepView::Rejected(capture) => match capture_after(capture, body) {
                CaptureStepView::More(_) => RunView::Waiting,
                CaptureStepView::Finished(error) => RunView::Failed(error),
            },
        },
    }
}

/// The host gets a stream exactly when the provider answered with success and headers that are
/// text: before anything of the body came, with the status of the answer, and with the time that
/// reading may idle. It never gets one for an answer that is no success.
pub proof fn stream_opens_on_success_alone(
    call: HttpStreamCall,
    client: Result<(), String>,
    event: OpenEvent,
    body: Seq<BodyEvent>,
)
    ensures
        run_after(call, client, event, body) is Opened <==> (client is Ok && (
        event matches OpenEvent::Responded(head) && is_success(head.status) && headers_are_text(
            head.headers@,
        ))),
        run_after(call, client, event, body) is Opened ==> run_after(call, client, event, body)
            == run_after(call, client, event, Seq::empty()),
        run_after(call, client, event, body) matches RunView::Opened {
            status_code,
            read_idle_timeout,
            ..
        } ==> status_code == event->Responded_0.status && read_idle_timeout
            == call.read_idle_timeout,
{
    if let OpenEvent::Responded(head) = event {
        headers_read_when_text(head.headers@);
    }
}

/// An answer that is no success fails the call with its status and the first bytes of its body,
/// within the limit, once the body ended, failed, idled too long or brought enough.
pub proof fn rejected_answer_is_reported(
    call: HttpStreamCall,
    client: Result<(), String>,
    head: ResponseHead,
    body: Seq<BodyEvent>,
)
    requires
        client is Ok,
        !is_success(head.status),
    ensures
        run_after(call, client, OpenEvent::Responded(head), body) is Waiting <==> (all_chunks(body)
            && leading_bytes(body).len() < ERROR_BODY_LIMIT_BYTES),
        !(run_after(call, client, OpenEvent::Responded(head), body) is Waiting) ==> run_after(
            call,
            client,
            OpenEvent::Responded(head),
            body,
        ) == RunView::Failed(
            possibly_sent(answer_error(head.status, within_limit(leading_bytes(body)))),
        ),
{
    let capture = ErrorCaptureView {
        status: head.status,
        captured: Seq::empty(),
        read_idle_timeout: call.read_idle_timeout,
    };
    capture_keeps_first_bytes(capture, body);
    assert(capture.captured + leading_bytes(body) =~= leading_bytes(body));
}

/// A call is declined exactly when the provider cannot have seen it: the client could not be
/// built, the connection could not be made or the request could not be built. Every other failure
/// is reported as one of a call that may have gone out.
pub proof fn declined_exactly_when_unsent(
    call: HttpStreamCall,
    client: Result<(), String>,
    event: OpenEvent,
    body: Seq<BodyEvent>,
)
    ensures
        run_after(call, client, event, body) matches RunView::Failed(error) ==> {
            let unsent = client is Err || (event matches OpenEvent::Failed(failure) && (
            failure.is_connect || failure.is_builder));
            &&& error is Declined <==> unsent
            &&& bridge_exception(error) is Declined <==> unsent
            &&& bridge_exception(error) is Upstream <==> !unsent
        },
{
    if let OpenEvent::Responded(head) = event {
        if client is Ok && !is_success(head.status) {
            rejected_answer_is_reported(call, client, head, body);
        }
    }
}

/// A timeout never lets the host retry, while opening or while reading: it is raised as the
/// failure of an issued call without an HTTP response, and its text tells which of the two it was.
pub proof fn timeouts_are_reported_apart(call: HttpStreamCall, body: Seq<BodyEvent>)
    ensures
        run_after(call, Ok(()), OpenEvent::TimedOut, body) matches RunView::Failed(error)
            && bridge_exception(error) == (PyExceptionView::Upstream {
            status: 0,
            message: "stream response open timed out"@,
        }),
        stream_item_of(BodyEvent::TimedOut) matches StreamItemView::Failed(error)
            && bridge_exception(error) == (PyExceptionView::Upstream {
            status: 0,
            message: "stream response read timed out"@,
        }),
        "stream response open timed out"@ != "stream response read timed out"@,
{
    reveal_strlit("stream response open timed out");
    reveal_strlit("stream response read timed out");
    assert("stream response open timed out"@[16] != "stream response read timed out"@[16]);
}

/// How many waits for more of a body come before it ends.
pub open spec fn waits_before_end(events: Seq<BodyEvent>) -> nat
    decreases events.len(),
{
    if events.len() == 0 || events[0] is Ended {
        0
    } else {
        1 + waits_before_end(events.drop_first())
    }
}

/// The bytes of all chunks that come before a body ends, whatever fails between them.
pub open spec fn bytes_before_end(events: Seq<BodyEvent>) -> Seq<u8>
    decreases events.len(),
{
    if events.len() == 0 {
        Seq::empty()
    } else {
        match events[0] {
            BodyEvent::Ended => Seq::empty(),
            BodyEvent::Chunk(chunk) => chunk@ + bytes_before_end(events.drop_first()),
            _ => bytes_before_end(events.drop_first()),
        }
    }
}

/// The items that the host gets of a stream, up to its end.
pub open spec fn stream_items(events: Seq<BodyEvent>) -> Seq<StreamItemView>
    decreases events.len(),
{
    if events.len() == 0 || stream_item_of(events[0]) is Ended {
        Seq::empty()
    } else {
        seq![stream_item_of(events[0])] + stream_items(events.drop_first())
    }
}

/// The bytes in the items of a stream, one after the other.
pub open spec fn delivered_bytes(items: Seq<StreamItemView>) -> Seq<u8>
    decreases items.len(),
{
    if items.len() == 0 {
        Seq::empty()
    } else {
        match items[0] {
            StreamItemView::Bytes(bytes) => bytes + delivered_bytes(items.drop_first()),
            _ => delivered_bytes(items.drop_first()),
        }
    }
}

/// The host gets one item for each wait before the end of the body, in order: the bytes of a chunk,
/// or the failure of a read that failed or timed out. A failure does not end the stream: the bytes
/// of all chunks before the end are delivered in order, with none lost, added or changed.
pub proof fn stream_delivers_body_in_order(events: Seq<BodyEvent>)
    ensures
        stream_items(events).len() == waits_before_end(events) <= events.len(),
        waits_before_end(events) < events.len() ==> events[waits_before_end(
            events,
        ) as int] is Ended,
        forall|i: int|
            0 <= i < waits_before_end(events) ==> {
                &&& (#[trigger] stream_items(events)[i]) == stream_item_of(events[i])
                &&& events[i] matches BodyEvent::Chunk(chunk) ==> stream_items(events)[i]
                    == StreamItemView::Bytes(chunk@)
                &&& events[i] is Failed || events[i] is TimedOut ==> stream_items(
                    events,
                )[i] is Failed
                &&& !(events[i] is Ended)
            },
        delivered_bytes(stream_items(events)) == bytes_before_end(events),
    decreases events.len(),
{
    if events.len() > 0 && !(events[0] is Ended) {
        let rest = events.drop_first();
        let items = stream_items(events);
        stream_delivers_body_in_order(rest);
        assert(items.drop_first() =~= stream_items(rest));
        assert forall|i: int| 0 <= i < waits_before_end(events) implies (#[trigger] items[i])
            == stream_item_of(events[i]) && !(events[i] is Ended) by {
            if i > 0 {
                assert(items[i] == stream_items(rest)[i - 1]);
                assert(events[i] == rest[i - 1]);
            }
        }
    }
}

/// The printable ASCII characters that cannot stand in an HTTP method.
pub open spec fn is_separator(c: char) -> bool {
    ||| c == '(' || c == ')' || c == '<' || c == '>' || c == '@' || c == ',' || c == ';'
    ||| c == ':' || c == '\\' || c == '"' || c == '/' || c == '[' || c == ']' || c == '?'
    ||| c == '=' || c == '{' || c == '}'
}

/// A call is accepted exactly when its method is a row of visible ASCII characters without
/// separators, and its headers, where given, are a dict of strings. It then carries the method, the
/// url, the body and the timeouts as given, and the headers one for one, in order.
pub proof fn call_carries_what_was_given<C>(
    method: String,
    url: String,
    headers: Option<Argument<C>>,
    body: Option<Vec<u8>>,
    open_timeout: Option<Duration>,
    read_idle_timeout: Option<Duration>,
    taken: Result<HttpStreamCall, BridgeError>,
)
    requires
        call_ensures(
            HttpStreamCall::from_python::<C>,
            (method, url, headers, body, open_timeout, read_idle_timeout),
            taken,
        ),
    ensures
        taken is Ok <==> {
            &&& method@.len() > 0
            &&& forall|i: int|
                0 <= i < method@.len() ==> '!' <= #[trigger] method@[i] <= '~' && !is_separator(
                    method@[i],
                )
            &&& headers matches Some(given) ==> (given matches Ok(Value::Object(object))
                && forall|i: int| 0 <= i < object@.len() ==> (#[trigger] object@[i]).1 is String)
        },
        taken matches Ok(call) ==> {
            &&& call.method@ == method@
            &&& call.url == url
            &&& headers is None ==> call.headers@.len() == 0
            &&& headers matches Some(Ok(Value::Object(object))) ==> call.headers@.len()
                == object@.len() && forall|i: int|
                0 <= i < object@.len() ==> (#[trigger] call.headers@[i]).0@ == object@[i].0 && (
                object@[i].1 matches Value::String(text) && call.headers@[i].1@ == text@)
            &&& body matches Some(bytes) ==> call.body@ == bytes@
            &&& body is None ==> call.body@.len() == 0
            &&& call.open_timeout == open_timeout
            &&& call.read_idle_timeout == read_idle_timeout
        },
{
    assert forall|c: char| is_method_char(c) <==> '!' <= c <= '~' && !(#[trigger] is_separator(
        c,
    )) by {}
    if is_method(method@) {
        assert forall|i: int| 0 <= i < method@.len() implies '!' <= #[trigger] method@[i] <= '~'
            && !is_separator(method@[i]) by {
            assert(is_method_char(method@[i]));
        }
    } else if method@.len() > 0 {
        let i = choose|i: int|
            0 <= i < method@.len() && !is_method_char(#[trigger] method@[i]);
        assert(!('!' <= method@[i] <= '~' && !is_separator(method@[i])));
    }
    if let Ok(call) = taken {
        let texts = text_pairs(call.headers@);
        assert(texts.len() == call.headers@.len());
        if let Some(Ok(Value::Object(object))) = headers {
            assert(texts == string_entries(object@));
            assert forall|i: int| 0 <= i < object@.len() implies (#[trigger] call.headers@[i]).0@
                == object@[i].0 && (object@[i].1 matches Value::String(text)
                && call.headers@[i].1@ == text@) by {
                assert(texts[i] == (call.headers@[i].0@, call.headers@[i].1@));
                assert(texts[i] == (object@[i].0, object@[i].1->String_0@));
                assert(object@[i].1 is String);
            }
        }
    }
}

/// A refused call is declined: for its method first, and then for its headers, with what is wrong
/// with them or the text of their failed conversion.
pub proof fn refused_call_tells_fault<C>(
    method: String,
    url: String,
    headers: Option<Argument<C>>,
    body: Option<Vec<u8>>,
    open_timeout: Option<Duration>,
    read_idle_timeout: Option<Duration>,
    taken: Result<HttpStreamCall, BridgeError>,
)
    requires
        call_ensures(
            HttpStreamCall::from_python::<C>,
            (method, url, headers, body, open_timeout, read_idle_timeout),
            taken,
        ),
    ensures
        taken matches Err(refused) ==> (refused matches BridgeError::Declined(reason) && {
            let proper_method = method@.len() > 0 && forall|i: int|
                0 <= i < method@.len() ==> '!' <= #[trigger] method@[i] <= '~' && !is_separator(
                    method@[i],
                );
            &&& !proper_method ==> reason@ == "ValueError: invalid HTTP method"@
            &&& proper_method ==> match headers {
                Some(Err(failure)) => reason@ == failure.text@,
                Some(Ok(Value::Object(_))) => reason@
                    == "ValueError: header values must be strings"@,
                _ => reason@ == "ValueError: headers must be a dict"@,
            }
        }),
{
    reveal_strlit("ValueError: invalid HTTP method");
    reveal_strlit("ValueError: header values must be strings");
    reveal_strlit("ValueError: headers must be a dict");
    reveal_strlit("ValueError: ");
    reveal_strlit("invalid HTTP method");
    reveal_strlit("header values must be strings");
    reveal_strlit("headers");
    reveal_strlit(" must be a ");
    reveal_strlit("dict");
    assert("ValueError: "@ + "invalid HTTP method"@ =~= "ValueError: invalid HTTP method"@);
    assert("ValueError: "@ + "header values must be strings"@
        =~= "ValueError: header values must be strings"@);
    assert("ValueError: "@ + ("headers"@ + " must be a "@ + "dict"@)
        =~= "ValueError: headers must be a dict"@);
    assert forall|c: char| is_method_char(c) <==> '!' <= c <= '~' && !(#[trigger] is_separator(
        c,
    )) by {}
    if is_method(method@) {
        assert forall|i: int| 0 <= i < method@.len() implies '!' <= #[trigger] method@[i] <= '~'
            && !is_separator(method@[i]) by {
            assert(is_method_char(method@[i]));
        }
    } else if method@.len() > 0 {
        let i = choose|i: int|
            0 <= i < method@.len() && !is_method_char(#[trigger] method@[i]);
        assert(!('!' <= method@[i] <= '~' && !is_separator(method@[i])));
    }
}

/// What is sent is the call as it was taken, and reading its response may idle as long as the call
/// says. Without a client nothing is sent, and the call is declined.
pub proof fn request_is_call_as_taken(
    call: HttpStreamCall,
    client: Result<(), String>,
    started: Result<(HttpRequest, Opening), BridgeError>,
)
    requires
        call_ensures(HttpStreamCall::start, (call, client), started),
    ensures
        client is Ok ==> (started matches Ok((request, opening)) && {
            &&& request.method == call.method
            &&& request.url == call.url
            &&& request.headers == call.headers
            &&& request.body == call.body
            &&& request.open_timeout == call.open_timeout
            &&& opening.read_idle_timeout == call.read_idle_timeout
        }),
        client matches Err(text) ==> (started matches Err(BridgeError::Declined(reason)) && reason@
            == "could not reach the provider: "@ + text@),
{
}

/// When a call opens, the host gets the headers of the answer one for one, in order: as many as the
/// answer has, each with its name and with the bytes of its value as characters. It gets the status
/// of the answer, and reading may idle as long as was asked for. A call opens exactly on a success
/// whose header values are all visible ASCII, spaces and tabs.
pub proof fn opened_stream_has_all_headers_of_answer(
    opening: Opening,
    head: ResponseHead,
    step: OpenStep,
)
    requires
        call_ensures(Opening::resume, (opening, OpenEvent::Responded(head)), step),
    ensures
        step is Opened <==> {
            &&& 200 <= head.status <= 299
            &&& forall|i: int, j: int|
                0 <= i < head.headers@.len() && 0 <= j < head.headers@[i].1@.len() ==> ({
                    let b = #[trigger] head.headers@[i].1@[j];
                    32 <= b <= 126 || b == 9
                })
        },
        step matches OpenStep::Opened(opened) ==> {
            &&& opened.status_code == head.status
            &&& opened.read_idle_timeout == opening.read_idle_timeout
            &&& opened.headers@.len() == head.headers@.len()
            &&& forall|i: int|
                0 <= i < head.headers@.len() ==> {
                    &&& (#[trigger] opened.headers@[i]).0@ == head.headers@[i].0@
                    &&& opened.headers@[i].1@.len() == head.headers@[i].1@.len()
                    &&& forall|j: int|
                        0 <= j < head.headers@[i].1@.len() ==> #[trigger] opened.headers@[i].1@[j]
                            == head.headers@[i].1@[j] as char
                }
        },
{
    headers_read_when_text(head.headers@);
    if headers_are_text(head.headers@) {
        assert forall|i: int, j: int|
            0 <= i < head.headers@.len() && 0 <= j < head.headers@[i].1@.len() implies ({
            let b = #[trigger] head.headers@[i].1@[j];
            32 <= b <= 126 || b == 9
        }) by {
            assert(is_text_byte(head.headers@[i].1@[j]));
        }
    }
    if let OpenStep::Opened(opened) = step {
        let texts = text_pairs(opened.headers@);
        assert(texts.len() == opened.headers@.len());
        assert forall|i: int| 0 <= i < head.headers@.len() implies {
            &&& (#[trigger] opened.headers@[i]).0@ == head.headers@[i].0@
            &&& opened.headers@[i].1@.len() == head.headers@[i].1@.len()
            &&& forall|j: int|
                0 <= j < head.headers@[i].1@.len() ==> #[trigger] opened.headers@[i].1@[j]
                    == head.headers@[i].1@[j] as char
        } by {
            assert(texts[i] == (opened.headers@[i].0@, opened.headers@[i].1@));
        }
    }
}

/// Whether a header is the first of a response whose value is no text.
pub open spec fn is_first_unreadable(headers: Seq<(String, Vec<u8>)>, i: int) -> bool {
    &&& 0 <= i < headers.len()
    &&& exists|j: int|
        0 <= j < headers[i].1@.len() && {
            let b = #[trigger] headers[i].1@[j];
            b != 9 && !(32 <= b <= 126)
        }
    &&& forall|k: int, j: int|
        0 <= k < i && 0 <= j < headers[k].1@.len() ==> ({
            let b = #[trigger] headers[k].1@[j];
            32 <= b <= 126 || b == 9
        })
}

/// The text of the error of a header value that is no text: one that a header may have, or one with
/// a control character.
pub open spec fn unreadable_text(value: Seq<u8>) -> Seq<char> {
    if exists|j: int|
        0 <= j < value.len() && {
            let b = #[trigger] value[j];
            b < 32 && b != 9 || b == 127
        } {
        "failed to parse header value"@
    } else {
        "failed to convert header to a str"@
    }
}

proof fn first_unreadable_header_decides(headers: Seq<(String, Vec<u8>)>, i: int)
    requires
        is_first_unreadable(headers, i),
    ensures
        headers_reading(headers) == Err::<Seq<(Seq<char>, Seq<char>)>, _>(
            unreadable_text(headers[i].1@),
        ),
    decreases i,
{
    let first = headers[0].1@;
    if i == 0 {
        let j = choose|j: int|
            0 <= j < headers[0].1@.len() && {
                let b = #[trigger] headers[0].1@[j];
                b != 9 && !(32 <= b <= 126)
            };
        assert(!is_text_byte(first[j]));
        if exists|j: int|
            0 <= j < first.len() && {
                let b = #[trigger] first[j];
                b < 32 && b != 9 || b == 127
            } {
            let k = choose|j: int|
                0 <= j < first.len() && {
                    let b = #[trigger] first[j];
                    b < 32 && b != 9 || b == 127
                };
            assert(!is_header_byte(first[k]));
        } else {
            assert forall|k: int| 0 <= k < first.len() implies is_header_byte(
                #[trigger] first[k],
            ) by {}
        }
    } else {
        let rest = headers.drop_first();
        assert forall|j: int| 0 <= j < first.len() implies is_text_byte(#[trigger] first[j]) by {
            assert(headers[0].1@[j] == first[j]);
        }
        assert(rest[i - 1] == headers[i]);
        assert forall|k: int, j: int| 0 <= k < i - 1 && 0 <= j < rest[k].1@.len() implies ({
            let b = #[trigger] rest[k].1@[j];
            32 <= b <= 126 || b == 9
        }) by {
            assert(rest[k].1@[j] == headers[k + 1].1@[j]);
        }
        first_unreadable_header_decides(rest, i - 1);
    }
}

/// A success with a header that is no text fails as an invalid response of a call that was issued.
/// The first such header decides on the text of the error.
pub proof fn unreadable_header_is_invalid_response(
    opening: Opening,
    head: ResponseHead,
    i: int,
    step: OpenStep,
)
    requires
        call_ensures(Opening::resume, (opening, OpenEvent::Responded(head)), step),
        200 <= head.status <= 299,
        is_first_unreadable(head.headers@, i),
    ensures
        step matches OpenStep::Failed(
            BridgeError::ProviderCall(ProviderCallError::PossiblySent(Error::InvalidResponse(text))),
        ) && text@ == unreadable_text(head.headers@[i].1@),
{
    first_unreadable_header_decides(head.headers@, i);
}

/// Headers that cannot be read fail with the text of the error of the first that is no text.
pub proof fn unreadable_header_fails_reading(
    headers: Vec<(String, Vec<u8>)>,
    i: int,
    read: Result<Vec<(String, String)>, Error>,
)
    requires
        call_ensures(response_headers, (&headers,), read),
        is_first_unreadable(headers@, i),
    ensures
        read matches Err(Error::InvalidResponse(text)) && text@ == unreadable_text(headers@[i].1@),
{
    first_unreadable_header_decides(headers@, i);
}

/// The headers of a response read one for one, in order, as their bytes; or not at all, as an
/// invalid response.
pub proof fn response_headers_read_one_for_one(
    headers: Vec<(String, Vec<u8>)>,
    read: Result<Vec<(String, String)>, Error>,
)
    requires
        call_ensures(response_headers, (&headers,), read),
    ensures
        read is Ok <==> forall|i: int, j: int|
            0 <= i < headers@.len() && 0 <= j < headers@[i].1@.len() ==> ({
                let b = #[trigger] headers@[i].1@[j];
                32 <= b <= 126 || b == 9
            }),
        read matches Ok(pairs) ==> pairs@.len() == headers@.len() && forall|i: int|
            0 <= i < headers@.len() ==> {
                &&& (#[trigger] pairs@[i]).0@ == headers@[i].0@
                &&& pairs@[i].1@.len() == headers@[i].1@.len()
                &&& forall|j: int|
                    0 <= j < headers@[i].1@.len() ==> #[trigger] pairs@[i].1@[j]
                        == headers@[i].1@[j] as char
            },
        read matches Err(error) ==> error is InvalidResponse,
{
    headers_read_when_text(headers@);
    if headers_are_text(headers@) {
        assert forall|i: int, j: int|
            0 <= i < headers@.len() && 0 <= j < headers@[i].1@.len() implies ({
            let b = #[trigger] headers@[i].1@[j];
            32 <= b <= 126 || b == 9
        }) by {
            assert(is_text_byte(headers@[i].1@[j]));
        }
    }
    if let Ok(pairs) = read {
        let texts = text_pairs(pairs@);
        assert(texts.len() == pairs@.len());
        assert forall|i: int| 0 <= i < headers@.len() implies {
            &&& (#[trigger] pairs@[i]).0@ == headers@[i].0@
            &&& pairs@[i].1@.len() == headers@[i].1@.len()
            &&& forall|j: int|
                0 <= j < headers@[i].1@.len() ==> #[trigger] pairs@[i].1@[j]
                    == headers@[i].1@[j] as char
        } by {
            assert(texts[i] == (pairs@[i].0@, pairs@[i].1@));
        }
    }
}

/// An answer that is no success, and only such an answer, is read for its error: with its status,
/// from nothing, and waiting as long as was asked for.
pub proof fn rejected_answer_is_read_from_start(
    opening: Opening,
    event: OpenEvent,
    step: OpenStep,
)
    requires
        call_ensures(Opening::resume, (opening, event), step),
    ensures
        step is Rejected <==> (event matches OpenEvent::Responded(head) && !(200 <= head.status
            <= 299)),
        step matches OpenStep::Rejected(capture) ==> {
            &&& event matches OpenEvent::Responded(head) && capture@.status == head.status
            &&& capture@.captured.len() == 0
            &&& capture@.read_idle_timeout == opening.read_idle_timeout
        },
{
}

/// A response that does not come in time fails the call as one that may have gone out. So does a
/// failure to send, with its text, unless the connection could not be made or the request could not
/// be built: then the call is declined.
pub proof fn unanswered_call_fails(opening: Opening, event: OpenEvent, step: OpenStep)
    requires
        call_ensures(Opening::resume, (opening, event), step),
    ensures
        event is TimedOut ==> (step matches OpenStep::Failed(
            BridgeError::ProviderCall(ProviderCallError::PossiblySent(Error::Network(text))),
        ) && text@ == "stream response open timed out"@),
        event matches OpenEvent::Failed(failure) && (failure.is_connect || failure.is_builder) ==> (
        step matches OpenStep::Failed(BridgeError::Declined(reason)) && reason@
            == "could not reach the provider: "@ + event->Failed_0.message@),
        event matches OpenEvent::Failed(failure) && !failure.is_connect && !failure.is_builder ==> (
        step matches OpenStep::Failed(
            BridgeError::ProviderCall(ProviderCallError::PossiblySent(Error::Network(text))),
        ) && text@ == event->Failed_0.message@),
{
}

/// The error of an answer that is no success has its status. Its body is the text of the bytes
/// kept: all of it where the bytes are valid UTF-8 and no more than 4096, and never more than 4096
/// bytes of whole characters from its beginning.
pub proof fn answer_is_reported_with_status_and_text(
    status: u16,
    captured: Vec<u8>,
    reported: Error,
)
    requires
        call_ensures(response_error, (status, &captured), reported),
    ensures
        reported matches Error::Http { status: same, body } && {
            &&& same == status
            &&& encode_utf8(body@).len() <= 4096
            &&& body@.is_prefix_of(utf8_lossy(captured@))
            &&& forall|k: int|
                body@.len() < k <= utf8_lossy(captured@).len() ==> encode_utf8(
                    #[trigger] utf8_lossy(captured@).take(k),
                ).len() > 4096
            &&& valid_utf8(captured@) && captured@.len() <= 4096 ==> body@ == decode_utf8(
                captured@,
            )
        },
{
    truncated_is_longest_fitting_prefix(utf8_lossy(captured@));
}

/// Reading goes on exactly while chunks come that leave less than 4096 bytes: every byte is kept,
/// in order, and the status and the time to wait stay. It ends in the failure of an issued call,
/// with the status of the answer and the text of its first 4096 bytes, or of all its bytes where
/// there are fewer.
pub proof fn answer_is_kept_up_to_limit(capture: ErrorCapture, event: BodyEvent, step: CaptureStep)
    requires
        call_ensures(ErrorCapture::resume, (capture, event), step),
    ensures
        ({
            let bytes = capture@.captured + (match event {
                BodyEvent::Chunk(chunk) => chunk@,
                _ => Seq::empty(),
            });
            let kept = if bytes.len() > 4096 {
                bytes.take(4096)
            } else {
                bytes
            };
            &&& step is More <==> event is Chunk && bytes.len() < 4096
            &&& step matches CaptureStep::More(next) ==> {
                &&& next@.captured == bytes
                &&& next@.status == capture@.status
                &&& next@.read_idle_timeout == capture@.read_idle_timeout
            }
            &&& step is Finished ==> (step matches CaptureStep::Finished(
                BridgeError::ProviderCall(
                    ProviderCallError::PossiblySent(Error::Http { status, body }),
                ),
            ) && {
                &&& status == capture@.status
                &&& encode_utf8(body@).len() <= 4096
                &&& body@.is_prefix_of(utf8_lossy(kept))
                &&& forall|k: int|
                    body@.len() < k <= utf8_lossy(kept).len() ==> encode_utf8(
                        #[trigger] utf8_lossy(kept).take(k),
                    ).len() > 4096
                &&& valid_utf8(kept) ==> body@ == decode_utf8(kept)
            })
        }),
{
    let bytes = capture@.captured + (match event {
        BodyEvent::Chunk(chunk) => chunk@,
        _ => Seq::empty(),
    });
    if !(event is Chunk) {
        assert(bytes =~= capture@.captured);
    }
    truncated_is_longest_fitting_prefix(utf8_lossy(within_limit(bytes)));
}

/// It makes no difference how an answer is cut into chunks: two chunks come to the same as one
/// chunk of the bytes of both.
pub proof fn chunks_may_be_cut_anywhere(
    capture: ErrorCapture,
    first: Vec<u8>,
    second: Vec<u8>,
    both: Vec<u8>,
    between: ErrorCapture,
    cut: CaptureStep,
    whole: CaptureStep,
)
    requires
        both@ == first@ + second@,
        call_ensures(
            ErrorCapture::resume,
            (capture, BodyEvent::Chunk(first)),
            CaptureStep::More(between),
        ),
        call_ensures(ErrorCapture::resume, (between, BodyEvent::Chunk(second)), cut),
        call_ensures(ErrorCapture::resume, (capture, BodyEvent::Chunk(both)), whole),
    ensures
        cut@ == whole@,
{
    assert(between@.captured =~= capture@.captured + first@);
    assert(between@.captured + second@ =~= capture@.captured + both@);
}

/// The wait for more of an answer is the one that reading it was started with.
pub proof fn capture_waits_as_asked(
    opening: Opening,
    head: ResponseHead,
    capture: ErrorCapture,
    wait: Option<Duration>,
)
    requires
        call_ensures(
            Opening::resume,
            (opening, OpenEvent::Responded(head)),
            OpenStep::Rejected(capture),
        ),
        call_ensures(ErrorCapture::read_idle_timeout, (&capture,), wait),
    ensures
        wait == opening.read_idle_timeout,
{
    assert(OpenStep::Rejected(capture)@ == open_step(opening, OpenEvent::Responded(head)));
}

/// Whatever comes of a body reaches the host: the bytes of a chunk as they are, a read that failed
/// or idled too long as the failure of an issued call, and the end of the body, and nothing else,
/// as the end of the stream.
pub proof fn body_reaches_host(event: BodyEvent, item: Option<Result<Vec<u8>, BridgeError>>)
    requires
        call_ensures(stream_item, (event,), item),
    ensures
        item is None <==> event is Ended,
        event matches BodyEvent::Chunk(chunk) ==> (item matches Some(Ok(bytes)) && bytes@
            == chunk@),
        event matches BodyEvent::Failed(reason) ==> (item matches Some(
            Err(BridgeError::ProviderCall(ProviderCallError::PossiblySent(Error::Network(text)))),
        ) && text@ == reason@),
        event is TimedOut ==> (item matches Some(
            Err(BridgeError::ProviderCall(ProviderCallError::PossiblySent(Error::Network(text)))),
        ) && text@ == "stream response read timed out"@),
{
}

/// The wait for more of an answer stays the same while it is read.
pub proof fn capture_keeps_waiting_as_asked(
    capture: ErrorCapture,
    event: BodyEvent,
    next: ErrorCapture,
    before: Option<Duration>,
    after: Option<Duration>,
)
    requires
        call_ensures(ErrorCapture::resume, (capture, event), CaptureStep::More(next)),
        call_ensures(ErrorCapture::read_idle_timeout, (&capture,), before),
        call_ensures(ErrorCapture::read_idle_timeout, (&next,), after),
    ensures
        after == before,
{
    assert(CaptureStep::More(next)@ == capture_step(capture@, event));
}

} // verus!
