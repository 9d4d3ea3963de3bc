//! The websocket connection of the responses route.

use std::time::Duration;

use vstd::prelude::*;
use vstd::string::*;

use crate::error::Error;
use crate::exceptions::{BridgeError, BridgeResult, PyException};
use crate::json::{distinct_names, Value};
use crate::marshal::{
    string_entries, string_headers, string_headers_result, text_pairs, Argument, ArgumentError,
    ArgumentErrorView,
};

verus! {

/// A connection to be made.
#[derive(Debug, PartialEq, Eq)]
pub struct ConnectRequest {
    pub url: String,
    pub headers: Vec<(String, String)>,
    pub timeout: Option<Duration>,
}

impl ConnectRequest {
    /// Takes a connection to be made from Python. Only the headers can be refused.
    pub fn from_python<C>(
        url: String,
        headers: Option<Argument<C>>,
        timeout: Option<Duration>,
    ) -> (r: Result<Self, ArgumentError<C>>)
        ensures
            r matches Ok(request) ==> {
                &&& request.url == url
                &&& request.timeout == timeout
                &&& string_headers_result(headers) == Ok::<_, ArgumentErrorView<C>>(
                    text_pairs(request.headers@),
                )
                &&& distinct_names(text_pairs(request.headers@))
            },
            r matches Err(error) ==> string_headers_result(headers) == Err::<
                Seq<(Seq<char>, Seq<char>)>,
                _,
            >(error@),
    {
        match string_headers(headers) {
            Ok(headers) => Ok(ConnectRequest { url, headers, timeout }),
            Err(error) => Err(error),
        }
    }
}

/// What the route makes of the result of connecting, sending or closing.
pub fn connection_outcome<T>(result: Result<T, Error>) -> (r: BridgeResult<T>)
    ensures
        r == (match result {
            Ok(value) => Ok::<T, BridgeError>(value),
            Err(error) => Err::<T, BridgeError>(BridgeError::Core(error)),
        }),
{
    match result {
        Ok(value) => Ok(value),
        Err(error) => Err(BridgeError::from(error)),
    }
}

/// The item of the inbound stream for what receiving brought, or its end.
pub open spec fn inbound_item_of(received: Result<Option<String>, Error>) -> Option<
    BridgeResult<String>,
> {
    match received {
        Ok(Some(text)) => Some(Ok(text)),
        Ok(None) => None,
        Err(error) => Some(Err(BridgeError::Core(error))),
    }
}

/// The item of the inbound stream for what receiving brought: a text, a failure, or the end. A
/// failure does not end the stream.
pub fn inbound_item(received: Result<Option<String>, Error>) -> (r: Option<BridgeResult<String>>)
    ensures
        r == inbound_item_of(received),
{
    match received {
        Ok(Some(text)) => Some(Ok(text)),
        Ok(None) => None,
        Err(error) => Some(Err(BridgeError::from(error))),
    }
}

/// Whether receiving brought the end of the connection.
pub open spec fn is_end(received: Result<Option<String>, Error>) -> bool {
    received matches Ok(text) && text is None
}

/// How many receptions come before the connection ends.
pub open spec fn receptions_before_end(received: Seq<Result<Option<String>, Error>>) -> nat
    decreases received.len(),
{
    if received.len() == 0 || is_end(received[0]) {
        0
    } else {
        1 + receptions_before_end(received.drop_first())
    }
}

/// The texts that come before the connection ends, whatever fails between them.
pub open spec fn texts_before_end(received: Seq<Result<Option<String>, Error>>) -> Seq<String>
    decreases received.len(),
{
    if received.len() == 0 {
        Seq::empty()
    } else {
        match received[0] {
            Ok(None) => Seq::empty(),
            Ok(Some(text)) => seq![text] + texts_before_end(received.drop_first()),
            Err(_) => texts_before_end(received.drop_first()),
        }
    }
}

/// The items of the inbound stream, up to its end.
pub open spec fn inbound_items(received: Seq<Result<Option<String>, Error>>) -> Seq<
    BridgeResult<String>,
>
    decreases received.len(),
{
    if received.len() == 0 {
        Seq::empty()
    } else {
        match inbound_item_of(received[0]) {
            None => Seq::empty(),
            Some(item) => seq![item] + inbound_items(received.drop_first()),
        }
    }
}

/// The texts among the items of the inbound stream.
pub open spec fn delivered_texts(items: Seq<BridgeResult<String>>) -> Seq<String>
    decreases items.len(),
{
    if items.len() == 0 {
        Seq::empty()
    } else {
        match items[0] {
            Ok(text) => seq![text] + delivered_texts(items.drop_first()),
            Err(_) => delivered_texts(items.drop_first()),
        }
    }
}

/// The host gets one item for each reception before the connection ends, in order: the text, or the
/// failure. A failure does not end the stream: all texts before the end come out in order, with
/// none lost or repeated.
pub proof fn inbound_delivers_texts_in_order(received: Seq<Result<Option<String>, Error>>)
    ensures
        inbound_items(received).len() == receptions_before_end(received) <= received.len(),
        receptions_before_end(received) < received.len() ==> is_end(
            received[receptions_before_end(received) as int],
        ),
        forall|i: int|
            0 <= i < receptions_before_end(received) ==> {
                &&& Some(#[trigger] inbound_items(received)[i]) == inbound_item_of(received[i])
                &&& !is_end(received[i])
            },
        delivered_texts(inbound_items(received)) == texts_before_end(received),
    decreases received.len(),
{
    if received.len() > 0 && !is_end(received[0]) {
        let rest = received.drop_first();
        let items = inbound_items(received);
        inbound_delivers_texts_in_order(rest);
        assert(items.drop_first() =~= inbound_items(rest));
        assert forall|i: int| 0 <= i < receptions_before_end(received) implies Some(
            #[trigger] items[i],
        ) == inbound_item_of(received[i]) && !is_end(received[i]) by {
            if i > 0 {
                assert(items[i] == inbound_items(rest)[i - 1]);
                assert(received[i] == rest[i - 1]);
            }
        }
    }
}

/// A connection is taken as given, and its headers one for one: every entry of a dict of strings is
/// sent, with its name and its text, in order. It is refused exactly when headers are given that
/// are no such dict.
pub proof fn connection_is_taken_as_given<C>(
    url: String,
    headers: Option<Argument<C>>,
    timeout: Option<Duration>,
    taken: Result<ConnectRequest, ArgumentError<C>>,
)
    requires
        call_ensures(ConnectRequest::from_python::<C>, (url, headers, timeout), taken),
    ensures
        taken is Ok <==> (headers matches Some(given) ==> (given matches Ok(Value::Object(object))
            && forall|i: int| 0 <= i < object@.len() ==> (#[trigger] object@[i]).1 is String)),
        taken matches Ok(request) ==> {
            &&& request.url == url
            &&& request.timeout == timeout
            &&& headers is None ==> request.headers@.len() == 0
            &&& headers matches Some(Ok(Value::Object(object))) ==> request.headers@.len()
                == object@.len() && forall|i: int|
                0 <= i < object@.len() ==> (#[trigger] request.headers@[i]).0@ == object@[i].0 && (
                object@[i].1 matches Value::String(text) && request.headers@[i].1@ == text@)
        },
        taken matches Err(refusal) ==> match headers {
            Some(Err(failure)) => refusal matches ArgumentError::Conversion(same) && same
                == failure,
            Some(Ok(Value::Object(_))) => refusal matches ArgumentError::Invalid(reason) && reason@
                == "header values must be strings"@,
            _ => refusal matches ArgumentError::Invalid(reason) && reason@
                == "headers must be a dict"@,
        },
{
    reveal_strlit("headers must be a dict");
    reveal_strlit("headers");
    reveal_strlit(" must be a ");
    reveal_strlit("dict");
    assert("headers"@ + " must be a "@ + "dict"@ =~= "headers must be a dict"@);
    if let Ok(request) = taken {
        let texts = text_pairs(request.headers@);
        if let Some(Ok(Value::Object(object))) = headers {
            assert(texts == string_entries(object@));
            assert forall|i: int| 0 <= i < object@.len() implies (
            #[trigger] request.headers@[i]).0@ == object@[i].0 && (
            object@[i].1 matches Value::String(text) && request.headers@[i].1@ == text@) by {
                assert(texts[i] == (request.headers@[i].0@, request.headers@[i].1@));
                assert(texts[i] == (object@[i].0, object@[i].1->String_0@));
                assert(object@[i].1 is String);
            }
        } else {
            assert(texts.len() == request.headers@.len());
        }
    }
}

/// Connecting, sending and closing never tell the host to retry on its own path, nor report a
/// provider call: a failure is raised as a `ValueError` where the caller's input or credentials are
/// at fault, and as a `RuntimeError` otherwise, with the text shown for the error.
pub proof fn connection_failure_is_raised_plainly<T>(
    error: Error,
    outcome: BridgeResult<T>,
    shown: String,
    raised: PyException,
)
    requires
        call_ensures(connection_outcome::<T>, (Err::<T, Error>(error),), outcome),
        outcome matches Err(failed) ==> call_ensures(BridgeError::to_pyerr, (failed,), raised),
        call_ensures(Error::message, (&error,), shown),
    ensures
        outcome is Err,
        match error {
            Error::Auth(_)
            | Error::InvalidProvider(_)
            | Error::InvalidRequest(_)
            | Error::InvalidType { .. }
            | Error::MissingField(_) => raised matches PyException::ValueError(text) && text@
                == shown@,
            _ => raised matches PyException::RuntimeError(text) && text@ == shown@,
        },
{
}

/// Whatever is received reaches the host: a text as it is, a failure as one, and the end of the
/// connection, and nothing else, as the end of the stream.
pub proof fn received_text_reaches_host(
    received: Result<Option<String>, Error>,
    item: Option<BridgeResult<String>>,
)
    requires
        call_ensures(inbound_item, (received,), item),
    ensures
        item is None <==> received == Ok::<Option<String>, Error>(None),
        received matches Ok(Some(text)) ==> (item matches Some(Ok(same)) && same == text),
        received matches Err(error) ==> (item matches Some(Err(BridgeError::Core(same))) && same
            == error),
{
}

/// Connecting, sending and closing succeed where the connection does, with what it gives.
pub proof fn connection_success_is_handed_on<T>(value: T, outcome: BridgeResult<T>)
    requires
        call_ensures(connection_outcome::<T>, (Ok::<T, Error>(value),), outcome),
    ensures
        outcome matches Ok(same) && same == value,
{
}

} // verus!
