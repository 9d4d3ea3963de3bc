//! Validation of the arguments that a route gets from the host.

use std::time::Duration;

use vstd::prelude::*;
use vstd::string::*;

use crate::exceptions::{BridgeError, BridgeErrorView, PyException};
use crate::json::{distinct_names, JsonObject, Value};
use crate::text::join;

verus! {

/// A Python object that has no JSON form: the exception of the conversion, and its text.
#[derive(Debug, PartialEq, Eq)]
pub struct ConversionFailure<C> {
    pub cause: C,
    pub text: String,
}

/// What became of converting one argument from Python.
pub type Argument<C> = Result<Value, ConversionFailure<C>>;

/// Why an argument was refused.
#[derive(Debug, PartialEq, Eq)]
pub enum ArgumentError<C> {
    /// The conversion from Python failed.
    Conversion(ConversionFailure<C>),
    /// The value is not what the argument takes. Raised as a `ValueError`.
    Invalid(String),
}

/// What an [`ArgumentError`] holds.
pub enum ArgumentErrorView<C> {
    Conversion(ConversionFailure<C>),
    Invalid(Seq<char>),
}

impl<C> View for ArgumentError<C> {
    type V = ArgumentErrorView<C>;

    open spec fn view(&self) -> ArgumentErrorView<C> {
        match self {
            ArgumentError::Conversion(failure) => ArgumentErrorView::Conversion(*failure),
            ArgumentError::Invalid(text) => ArgumentErrorView::Invalid(text@),
        }
    }
}

impl<C> ArgumentErrorView<C> {
    /// The text of the exception that the refusal is raised as.
    pub open spec fn text(self) -> Seq<char> {
        match self {
            ArgumentErrorView::Conversion(failure) => failure.text@,
            ArgumentErrorView::Invalid(text) => "ValueError: "@ + text,
        }
    }
}

impl<C> ArgumentError<C> {
    /// Declines the route because of the refused argument.
    pub fn declined(self) -> (r: BridgeError)
        ensures
            r@ == BridgeErrorView::Declined(self@.text()),
    {
        match self {
            ArgumentError::Conversion(failure) => BridgeError::Declined(failure.text),
            ArgumentError::Invalid(text) => BridgeError::Declined(
                join("ValueError: ", text.as_str()),
            ),
        }
    }

    /// The exception that the refusal is raised as, or the cause of the failed conversion, which
    /// is raised as it is.
    pub fn raised(self) -> (r: Result<PyException, C>)
        ensures
            self matches ArgumentError::Conversion(failure) ==> r == Err::<PyException, C>(
                failure.cause,
            ),
            self matches ArgumentError::Invalid(text) ==> r == Ok::<PyException, C>(
                PyException::ValueError(text),
            ),
    {
        match self {
            ArgumentError::Conversion(failure) => Err(failure.cause),
            ArgumentError::Invalid(text) => Ok(PyException::ValueError(text)),
        }
    }
}

/// Names with texts, as sequences of characters.
pub open spec fn text_pairs(pairs: Seq<(String, String)>) -> Seq<(Seq<char>, Seq<char>)> {
    pairs.map_values(|pair: (String, String)| (pair.0@, pair.1@))
}

/// The refusal of an argument that must be of some kind and is not.
pub open spec fn must_be<C>(name: Seq<char>, kind: Seq<char>) -> ArgumentErrorView<C> {
    ArgumentErrorView::Invalid(name + " must be a "@ + kind)
}

fn refuse<C>(name: &str, kind: &str) -> (r: ArgumentError<C>)
    ensures
        r@ == must_be::<C>(name@, kind@),
{
    let mut text = join(name, " must be a ");
    text.append(kind);
    ArgumentError::Invalid(text)
}

/// Takes an argument that must be given and be of an expected kind.
pub fn required_value<C, F: Fn(&Value) -> bool>(
    name: &str,
    value: Argument<C>,
    expected: F,
    expected_name: &str,
) -> (r: Result<Value, ArgumentError<C>>)
    requires
        value matches Ok(given) ==> call_requires(expected, (&given,)),
    ensures
        value matches Err(failure) ==> r == Err::<Value, ArgumentError<C>>(
            ArgumentError::Conversion(failure),
        ),
        value matches Ok(given) ==> {
            ||| call_ensures(expected, (&given,), true) && r == Ok::<Value, ArgumentError<C>>(given)
            ||| call_ensures(expected, (&given,), false) && (r matches Err(error) && error@
                == must_be::<C>(name@, expected_name@))
        },
{
    match value {
        Err(failure) => Err(ArgumentError::Conversion(failure)),
        Ok(value) => {
            if expected(&value) {
                return Ok(value);
            }
            Err(refuse(name, expected_name))
        },
    }
}

/// What a dict argument comes to.
pub open spec fn object_result<C>(name: Seq<char>, value: Argument<C>) -> Result<
    JsonObject,
    ArgumentErrorView<C>,
> {
    match value {
        Ok(Value::Object(object)) => Ok(object),
        Ok(_) => Err(must_be(name, "dict"@)),
        Err(failure) => Err(ArgumentErrorView::Conversion(failure)),
    }
}

/// Takes an argument that must be a dict.
pub fn object<C>(name: &str, value: Argument<C>) -> (r: Result<JsonObject, ArgumentError<C>>)
    ensures
        r matches Ok(object) ==> object_result(name@, value) == Ok::<_, ArgumentErrorView<C>>(
            object,
        ),
        r matches Err(error) ==> object_result(name@, value) == Err::<JsonObject, _>(error@),
{
    match value {
        Ok(Value::Object(object)) => Ok(object),
        Ok(_) => Err(refuse(name, "dict")),
        Err(failure) => Err(ArgumentError::Conversion(failure)),
    }
}

/// Takes an argument that must be a dict where it is given, and is an empty one where it is not.
pub fn object_or_empty<C>(name: &str, value: Option<Argument<C>>) -> (r: Result<
    JsonObject,
    ArgumentError<C>,
>)
    ensures
        value is None ==> (r matches Ok(object) && object@ == Seq::<(Seq<char>, Value)>::empty()),
        value matches Some(given) ==> {
            &&& r matches Ok(object) ==> object_result(name@, given) == Ok::<
                _,
                ArgumentErrorView<C>,
            >(object)
            &&& r matches Err(error) ==> object_result(name@, given) == Err::<JsonObject, _>(
                error@,
            )
        },
{
    match value {
        Some(value) => object(name, value),
        None => Ok(JsonObject::new()),
    }
}

/// What an optional dict argument comes to.
pub open spec fn optional_object_result<C>(name: Seq<char>, value: Option<Argument<C>>) -> Result<
    Option<JsonObject>,
    ArgumentErrorView<C>,
> {
    match value {
        None => Ok(None),
        Some(given) => match object_result(name, given) {
            Ok(object) => Ok(Some(object)),
            Err(error) => Err(error),
        },
    }
}

/// Takes an argument that must be a dict where it is given.
pub fn optional_object<C>(name: &str, value: Option<Argument<C>>) -> (r: Result<
    Option<JsonObject>,
    ArgumentError<C>,
>)
    ensures
        r matches Ok(object) ==> optional_object_result(name@, value) == Ok::<
            _,
            ArgumentErrorView<C>,
        >(object),
        r matches Err(error) ==> optional_object_result(name@, value) == Err::<
            Option<JsonObject>,
            _,
        >(error@),
{
    match value {
        None => Ok(None),
        Some(value) => match object(name, value) {
            Ok(object) => Ok(Some(object)),
            Err(error) => Err(error),
        },
    }
}

/// Whether all values of an object are strings.
pub open spec fn all_strings(entries: Seq<(Seq<char>, Value)>) -> bool {
    forall|i: int| 0 <= i < entries.len() ==> (#[trigger] entries[i]).1 is String
}

/// The names of an object of strings with their texts.
pub open spec fn string_entries(entries: Seq<(Seq<char>, Value)>) -> Seq<(Seq<char>, Seq<char>)> {
    entries.map_values(|entry: (Seq<char>, Value)| (entry.0, entry.1->String_0@))
}

/// What the headers argument comes to.
pub open spec fn string_headers_result<C>(headers: Option<Argument<C>>) -> Result<
    Seq<(Seq<char>, Seq<char>)>,
    ArgumentErrorView<C>,
> {
    match headers {
        None => Ok(Seq::empty()),
        Some(given) => match object_result("headers"@, given) {
            Err(error) => Err(error),
            Ok(object) => if all_strings(object@) {
                Ok(string_entries(object@))
            } else {
                Err(ArgumentErrorView::Invalid("header values must be strings"@))
            },
        },
    }
}

/// Takes the headers argument: a dict of strings, empty where it is not given. No name comes out
/// twice.
pub fn string_headers<C>(headers: Option<Argument<C>>) -> (r: Result<
    Vec<(String, String)>,
    ArgumentError<C>,
>)
    ensures
        r matches Ok(pairs) ==> string_headers_result(headers) == Ok::<_, ArgumentErrorView<C>>(
            text_pairs(pairs@),
        ) && distinct_names(text_pairs(pairs@)),
        r matches Err(error) ==> string_headers_result(headers) == Err::<
            Seq<(Seq<char>, Seq<char>)>,
            _,
        >(error@),
{
    let given = match object_or_empty("headers", headers) {
        Ok(given) => given,
        Err(error) => {
            return Err(error);
        },
    };
    let ghost object = given@;
    let entries = given.into_entries();
    let mut pairs: Vec<(String, String)> = Vec::new();
    let mut i: usize = 0;
    while i < entries.len()
        invariant
            i <= entries@.len(),
            object == entries@.map_values(|entry: (String, Value)| (entry.0@, entry.1)),
            pairs@.len() == i,
            forall|j: int| 0 <= j < i ==> (#[trigger] object[j]).1 is String,
            forall|j: int|
                0 <= j < i ==> (#[trigger] pairs@[j]).0@ == object[j].0 && pairs@[j].1@
                    == object[j].1->String_0@,
            headers is None ==> object.len() == 0,
            headers matches Some(argument) ==> (object_result("headers"@, argument) matches Ok(o)
                && o@ == object),
        decreases entries@.len() - i,
    {
        assert(object[i as int] == (entries@[i as int].0@, entries@[i as int].1));
        match &entries[i].1 {
            Value::String(text) => {
                pairs.push((entries[i].0.clone(), text.clone()));
            },
            _ => {
                assert(!all_strings(object));
                return Err(
                    ArgumentError::Invalid("header values must be strings".to_owned()),
                );
            },
        }
        i = i + 1;
    }
    proof {
        assert(text_pairs(pairs@) =~= string_entries(object));
        if headers is None {
            assert(text_pairs(pairs@) =~= Seq::empty());
        }
        assert forall|a: int, b: int| 0 <= a < b < pairs@.len() implies (
        #[trigger] text_pairs(pairs@)[a]).0 != (#[trigger] text_pairs(pairs@)[b]).0 by {
            assert(object[a].0 != object[b].0);
        }
    }
    Ok(pairs)
}

/// The options that all routes take.
#[derive(Debug, PartialEq, Eq)]
pub struct RouteOptions {
    pub model: String,
    pub api_key: Option<String>,
    pub api_base: Option<String>,
    pub custom_llm_provider: Option<String>,
    pub extra_headers: Option<JsonObject>,
    pub timeout: Option<Duration>,
}

impl RouteOptions {
    /// Takes the options from Python. Only the extra headers can be refused.
    pub fn from_python<C>(
        model: String,
        api_key: Option<String>,
        api_base: Option<String>,
        custom_llm_provider: Option<String>,
        extra_headers: Option<Argument<C>>,
        timeout: Option<Duration>,
    ) -> (r: Result<Self, ArgumentError<C>>)
        ensures
            r matches Ok(options) ==> optional_object_result("extra_headers"@, extra_headers)
                == Ok::<_, ArgumentErrorView<C>>(options.extra_headers) && options == (
            RouteOptions {
                model,
                api_key,
                api_base,
                custom_llm_provider,
                extra_headers: options.extra_headers,
                timeout,
            }),
            r matches Err(error) ==> optional_object_result("extra_headers"@, extra_headers)
                == Err::<Option<JsonObject>, _>(error@),
    {
        match optional_object("extra_headers", extra_headers) {
            Ok(extra_headers) => Ok(
                RouteOptions {
                    model,
                    api_key,
                    api_base,
                    custom_llm_provider,
                    extra_headers,
                    timeout,
                },
            ),
            Err(error) => Err(error),
        }
    }
}

/// A refused argument is raised as it is, or declines the route with its text: a failed conversion
/// with the exception that it failed with, and a value of the wrong kind as a `ValueError`.
pub proof fn refusal_keeps_its_cause<C>(
    refusal: ArgumentError<C>,
    raised: Result<PyException, C>,
    declined: BridgeError,
)
    requires
        call_ensures(ArgumentError::<C>::raised, (refusal,), raised),
        call_ensures(ArgumentError::<C>::declined, (refusal,), declined),
    ensures
        refusal matches ArgumentError::Conversion(failure) ==> raised == Err::<PyException, C>(
            failure.cause,
        ) && (declined matches BridgeError::Declined(text) && text@ == failure.text@),
        refusal matches ArgumentError::Invalid(reason) ==> (raised matches Ok(
            PyException::ValueError(text),
        ) && text@ == reason@) && (declined matches BridgeError::Declined(text) && text@
            == "ValueError: "@ + reason@),
{
}

/// A required argument is taken as it is where the test accepts it, whatever else it holds. Where
/// the test rejects it, the refusal names the argument and what it must be.
pub proof fn required_value_is_taken_or_refused<C, F: Fn(&Value) -> bool>(
    name: &str,
    value: Argument<C>,
    expected: F,
    expected_name: &str,
    taken: Result<Value, ArgumentError<C>>,
)
    requires
        call_ensures(required_value::<C, F>, (name, value, expected, expected_name), taken),
    ensures
        value matches Err(failure) ==> (taken matches Err(ArgumentError::Conversion(same)) && same
            == failure),
        value matches Ok(given) ==> {
            &&& (taken matches Ok(same) ==> same == given && call_ensures(
                expected,
                (&given,),
                true,
            ))
            &&& (taken matches Err(refusal) ==> call_ensures(expected, (&given,), false) && (
            refusal matches ArgumentError::Invalid(reason) && reason@ == name@ + " must be a "@
                + expected_name@))
        },
{
}

/// A dict argument is taken whole, with any entries, exactly when it converted to an object. A
/// failed conversion is handed on, and any other value is refused as no dict. An optional one is
/// left out where it is not given, and one with a default is then empty.
pub proof fn dict_is_taken_whole<C>(
    name: &str,
    value: Argument<C>,
    taken: Result<JsonObject, ArgumentError<C>>,
    optional: Option<Argument<C>>,
    defaulted: Result<JsonObject, ArgumentError<C>>,
    left_out: Result<Option<JsonObject>, ArgumentError<C>>,
)
    requires
        call_ensures(object::<C>, (name, value), taken),
        call_ensures(object_or_empty::<C>, (name, optional), defaulted),
        call_ensures(optional_object::<C>, (name, optional), left_out),
    ensures
        match value {
            Ok(Value::Object(given)) => taken == Ok::<JsonObject, ArgumentError<C>>(given),
            Ok(_) => taken matches Err(ArgumentError::Invalid(reason)) && reason@ == name@
                + " must be a dict"@,
            Err(failure) => taken matches Err(ArgumentError::Conversion(same)) && same == failure,
        },
        match optional {
            None => (defaulted matches Ok(empty) && empty@.len() == 0) && (left_out matches Ok(
                nothing,
            ) && nothing is None),
            Some(Ok(Value::Object(given))) => (defaulted matches Ok(same) && same == given) && (
            left_out matches Ok(Some(same)) && same == given),
            Some(Ok(_)) => (defaulted matches Err(ArgumentError::Invalid(reason)) && reason@
                == name@ + " must be a dict"@) && (left_out matches Err(
                ArgumentError::Invalid(reason),
            ) && reason@ == name@ + " must be a dict"@),
            Some(Err(failure)) => (defaulted matches Err(ArgumentError::Conversion(same)) && same
                == failure) && (left_out matches Err(ArgumentError::Conversion(same)) && same
                == failure),
        },
{
    reveal_strlit(" must be a dict");
    reveal_strlit(" must be a ");
    reveal_strlit("dict");
    assert(name@ + " must be a "@ + "dict"@ =~= name@ + " must be a dict"@);
}

/// Headers are taken one for one: where the argument is an object whose values are all strings, as
/// many headers come out as the object has entries, each with the name and the text of its entry,
/// in order, and no name twice. No headers come out where the argument is not given. Anything else
/// is refused, with the reason.
pub proof fn headers_are_taken_one_for_one<C>(
    headers: Option<Argument<C>>,
    taken: Result<Vec<(String, String)>, ArgumentError<C>>,
)
    requires
        call_ensures(string_headers::<C>, (headers,), taken),
    ensures
        match headers {
            None => taken matches Ok(pairs) && pairs@.len() == 0,
            Some(Err(failure)) => taken matches Err(ArgumentError::Conversion(same)) && same
                == failure,
            Some(Ok(Value::Object(given))) => {
                let all_texts = forall|i: int|
                    0 <= i < given@.len() ==> (#[trigger] given@[i]).1 is String;
                &&& all_texts ==> (taken matches Ok(pairs) && pairs@.len() == given@.len()
                    && forall|i: int|
                    0 <= i < given@.len() ==> (#[trigger] pairs@[i]).0@ == given@[i].0 && (
                    given@[i].1 matches Value::String(text) && pairs@[i].1@ == text@))
                &&& !all_texts ==> (taken matches Err(ArgumentError::Invalid(reason)) && reason@
                    == "header values must be strings"@)
            },
            Some(Ok(_)) => taken matches Err(ArgumentError::Invalid(reason)) && reason@
                == "headers must be a dict"@,
        },
        taken matches Ok(pairs) ==> forall|i: int, j: int|
            0 <= i < j < pairs@.len() ==> (#[trigger] pairs@[i]).0@ != (#[trigger] pairs@[j]).0@,
{
    reveal_strlit("headers must be a dict");
    reveal_strlit("headers");
    reveal_strlit(" must be a ");
    reveal_strlit("dict");
    assert("headers"@ + " must be a "@ + "dict"@ =~= "headers must be a dict"@);
    if let Ok(pairs) = taken {
        let texts = text_pairs(pairs@);
        assert forall|i: int| 0 <= i < pairs@.len() implies (#[trigger] pairs@[i]).0@ == texts[i].0
            && pairs@[i].1@ == texts[i].1 by {}
        if let Some(Ok(Value::Object(given))) = headers {
            assert(texts == string_entries(given@));
            assert forall|i: int| 0 <= i < given@.len() implies (#[trigger] pairs@[i]).0@
                == given@[i].0 && (given@[i].1 matches Value::String(text) && pairs@[i].1@
                == text@) by {
                assert(texts[i] == (given@[i].0, given@[i].1->String_0@));
                assert(given@[i].1 is String);
            }
        }
    }
}

/// The options of a route are taken as given. They are refused exactly when extra headers are given
/// that did not convert to an object.
pub proof fn options_are_taken_as_given<C>(
    model: String,
    api_key: Option<String>,
    api_base: Option<String>,
    custom_llm_provider: Option<String>,
    extra_headers: Option<Argument<C>>,
    timeout: Option<Duration>,
    taken: Result<RouteOptions, ArgumentError<C>>,
)
    requires
        call_ensures(
            RouteOptions::from_python::<C>,
            (model, api_key, api_base, custom_llm_provider, extra_headers, timeout),
            taken,
        ),
    ensures
        taken is Ok <==> (extra_headers is None || (extra_headers matches Some(Ok(given))
            && given is Object)),
        taken matches Ok(options) ==> {
            &&& options.model == model
            &&& options.api_key == api_key
            &&& options.api_base == api_base
            &&& options.custom_llm_provider == custom_llm_provider
            &&& options.timeout == timeout
            &&& match extra_headers {
                Some(Ok(Value::Object(given))) => options.extra_headers == Some(given),
                _ => options.extra_headers is None,
            }
        },
        taken matches Err(refusal) ==> match extra_headers {
            Some(Err(failure)) => refusal matches ArgumentError::Conversion(same) && same
                == failure,
            _ => refusal matches ArgumentError::Invalid(reason) && reason@
                == "extra_headers must be a dict"@,
        },
{
    reveal_strlit("extra_headers must be a dict");
    reveal_strlit("extra_headers");
    reveal_strlit(" must be a ");
    reveal_strlit("dict");
    assert("extra_headers"@ + " must be a "@ + "dict"@ =~= "extra_headers must be a dict"@);
}

} // verus!
