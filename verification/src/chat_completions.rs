//! The chat completions call and its route.

use std::time::Duration;

use vstd::prelude::*;
use vstd::string::*;

use crate::error::{
    Error, ErrorView, ProviderCallError, ProviderCallErrorView, ProviderCallResult,
};
use crate::exceptions::{
    bridge_exception, BridgeError, BridgeErrorView, BridgeResult, PyException, PyExceptionView,
};
use crate::json::{JsonObject, Value};
use crate::marshal::{
    must_be, object_or_empty, object_result, optional_object_result, required_value, Argument,
    ArgumentErrorView, ConversionFailure, RouteOptions,
};

verus! {

/// The calls that can be streamed.
#[derive(Debug, Clone, Copy, PartialEq, Eq, Structural)]
pub enum StreamApi {
    ChatCompletions,
}

/// How a stream reaches this side.
#[derive(Debug, Clone, Copy, PartialEq, Eq, Structural)]
pub enum StreamTransport {
    Http,
}

/// A way of streaming that a provider may support.
#[derive(Debug, PartialEq, Eq)]
pub struct StreamCapability<P> {
    pub api: StreamApi,
    pub provider: P,
    pub transport: StreamTransport,
}

/// The capability that streaming chat completions from a provider takes.
pub fn chat_stream_capability<P>(provider: P) -> (r: StreamCapability<P>)
    ensures
        r == (StreamCapability {
            api: StreamApi::ChatCompletions,
            provider,
            transport: StreamTransport::Http,
        }),
{
    StreamCapability { api: StreamApi::ChatCompletions, provider, transport: StreamTransport::Http }
}

/// What a call comes to that was prepared, or could not be: the prepared call, for execution.
/// Nothing was sent where preparing failed.
pub fn prepared_call<P>(prepared: Result<P, Error>) -> (r: ProviderCallResult<P>)
    ensures
        r == (match prepared {
            Ok(call) => Ok::<P, ProviderCallError>(call),
            Err(error) => Err::<P, ProviderCallError>(ProviderCallError::NotSent(error)),
        }),
{
    match prepared {
        Ok(call) => Ok(call),
        Err(error) => Err(ProviderCallError::NotSent(error)),
    }
}

/// Makes a chat completions call: prepares the request, and executes what was prepared. Where
/// preparing fails nothing is executed, and the call was not sent. What executing gives is handed
/// on as it is.
pub fn chat_completions<R, P, X, F: Fn(R) -> Result<P, Error>, G: Fn(P) -> X>(
    request: R,
    prepare: F,
    execute: G,
) -> (r: ProviderCallResult<X>)
    requires
        call_requires(prepare, (request,)),
        forall|prepared: P|
            call_ensures(prepare, (request,), Ok::<P, Error>(prepared)) ==> call_requires(
                execute,
                (prepared,),
            ),
    ensures
        r matches Ok(executed) ==> exists|prepared: P| #[trigger]
            call_ensures(prepare, (request,), Ok::<P, Error>(prepared)) && call_ensures(
                execute,
                (prepared,),
                executed,
            ),
        r matches Err(failed) ==> (failed matches ProviderCallError::NotSent(error)
            && call_ensures(prepare, (request,), Err::<P, Error>(error))),
{
    match prepared_call(prepare(request)) {
        Ok(call) => Ok(execute(call)),
        Err(error) => Err(error),
    }
}

/// Why chat completions are not streamed, from whether the provider supports the capability.
pub open spec fn chat_stream_refusal(supported: bool) -> ErrorView {
    ErrorView::Unsupported(
        if supported {
            "chat completions streaming provider registration"@
        } else {
            "chat completions streaming"@
        },
    )
}

/// Refuses to stream chat completions, given whether the provider supports
/// [`chat_stream_capability`]. No provider is registered for streaming, so nothing is ever sent.
pub fn refuse_chat_stream<T>(supported: bool) -> (r: ProviderCallResult<T>)
    ensures
        r matches Err(error) && error@ == ProviderCallErrorView::NotSent(
            chat_stream_refusal(supported),
        ),
{
    if !supported {
        return Err(ProviderCallError::NotSent(Error::Unsupported("chat completions streaming")));
    }
    Err(
        ProviderCallError::NotSent(
            Error::Unsupported("chat completions streaming provider registration"),
        ),
    )
}

/// Opens a stream of chat completions from a provider: asks whether streaming them over HTTP is
/// supported, and refuses either way, each with its reason, before anything is sent.
pub fn chat_completions_stream<T, P, F: Fn(StreamCapability<P>) -> bool>(
    provider: P,
    supports_streaming: F,
) -> (r: ProviderCallResult<T>)
    requires
        call_requires(
            supports_streaming,
            (
                (StreamCapability {
                    api: StreamApi::ChatCompletions,
                    provider,
                    transport: StreamTransport::Http,
                }),
            ),
        ),
    ensures
        exists|supported: bool| #[trigger]
            call_ensures(
                supports_streaming,
                (
                    (StreamCapability {
                        api: StreamApi::ChatCompletions,
                        provider,
                        transport: StreamTransport::Http,
                    }),
                ),
                supported,
            ) && (r matches Err(error) && error@ == ProviderCallErrorView::NotSent(
                chat_stream_refusal(supported),
            )),
{
    let capability = chat_stream_capability(provider);
    let supported: bool = supports_streaming(capability);
    refuse_chat_stream(supported)
}

/// The arguments of the chat completions route.
#[derive(Debug, PartialEq, Eq)]
pub struct ChatCompletionsInputs<C> {
    pub model: String,
    pub messages: Argument<C>,
    pub optional_params: Option<Argument<C>>,
    pub api_key: Option<String>,
    pub api_base: Option<String>,
    pub custom_llm_provider: Option<String>,
    pub extra_headers: Option<Argument<C>>,
    pub timeout: Option<Duration>,
}

/// A validated call of the chat completions route.
#[derive(Debug, PartialEq, Eq)]
pub struct ChatCompletionsCall {
    pub options: RouteOptions,
    pub messages: Value,
    pub optional_params: JsonObject,
}

/// The request that the chat completions call takes.
#[derive(Debug, PartialEq, Eq)]
pub struct ChatCompletionsRequest {
    pub model: String,
    pub messages: Value,
    pub optional_params: JsonObject,
    pub api_key: Option<String>,
    pub api_base: Option<String>,
    pub custom_llm_provider: Option<String>,
    pub extra_headers: Option<JsonObject>,
    pub timeout: Option<Duration>,
}

/// The refusal of the arguments of the route, where there is one: of the extra headers first,
/// then of the messages, then of the optional parameters.
pub open spec fn chat_refusal<C>(inputs: ChatCompletionsInputs<C>) -> Option<ArgumentErrorView<C>> {
    match optional_object_result("extra_headers"@, inputs.extra_headers) {
        Err(error) => Some(error),
        Ok(_) => match inputs.messages {
            Err(failure) => Some(ArgumentErrorView::Conversion(failure)),
            Ok(messages) => if !(messages is Array) {
                Some(must_be("messages"@, "list"@))
            } else {
                match inputs.optional_params {
                    None => None,
                    Some(given) => match object_result("optional_params"@, given) {
                        Ok(_) => None,
                        Err(error) => Some(error),
                    },
                }
            },
        },
    }
}

impl ChatCompletionsCall {
    /// Takes a call from Python. A refused argument declines the route.
    pub fn from_python<C>(inputs: ChatCompletionsInputs<C>) -> (r: BridgeResult<Self>)
        ensures
            r is Ok <==> chat_refusal(inputs) is None,
            r matches Ok(call) ==> {
                &&& call.options == (RouteOptions {
                    model: inputs.model,
                    api_key: inputs.api_key,
                    api_base: inputs.api_base,
                    custom_llm_provider: inputs.custom_llm_provider,
                    extra_headers: call.options.extra_headers,
                    timeout: inputs.timeout,
                })
                &&& optional_object_result("extra_headers"@, inputs.extra_headers) == Ok::<
                    _,
                    ArgumentErrorView<C>,
                >(call.options.extra_headers)
                &&& inputs.messages == Ok::<Value, ConversionFailure<C>>(call.messages)
                &&& match inputs.optional_params {
                    None => call.optional_params@ == Seq::<(Seq<char>, Value)>::empty(),
                    Some(given) => given == Ok::<Value, ConversionFailure<C>>(Value::Object(call.optional_params)),
                }
            },
            r matches Err(error) ==> (chat_refusal(inputs) matches Some(refusal) && error@
                == BridgeErrorView::Declined(refusal.text())),
    {
        let options = match RouteOptions::from_python(
            inputs.model,
            inputs.api_key,
            inputs.api_base,
            inputs.custom_llm_provider,
            inputs.extra_headers,
            inputs.timeout,
        ) {
            Ok(options) => options,
            Err(error) => {
                return Err(error.declined());
            },
        };
        let is_list = |value: &Value| -> (r: bool)
            ensures
                r == (value is Array),
            { value.is_array() };
        let messages = match required_value("messages", inputs.messages, is_list, "list") {
            Ok(messages) => messages,
            Err(error) => {
                return Err(error.declined());
            },
        };
        let optional_params = match object_or_empty("optional_params", inputs.optional_params) {
            Ok(optional_params) => optional_params,
            Err(error) => {
                return Err(error.declined());
            },
        };
        Ok(ChatCompletionsCall { options, messages, optional_params })
    }

    /// The request that running the call hands on.
    pub fn request(self) -> (r: ChatCompletionsRequest)
        ensures
            r == (ChatCompletionsRequest {
                model: self.options.model,
                messages: self.messages,
                optional_params: self.optional_params,
                api_key: self.options.api_key,
                api_base: self.options.api_base,
                custom_llm_provider: self.options.custom_llm_provider,
                extra_headers: self.options.extra_headers,
                timeout: self.options.timeout,
            }),
    {
        let RouteOptions {
            model,
            api_key,
            api_base,
            custom_llm_provider,
            extra_headers,
            timeout,
        } = self.options;
        ChatCompletionsRequest {
            model,
            messages: self.messages,
            optional_params: self.optional_params,
            api_key,
            api_base,
            custom_llm_provider,
            extra_headers,
            timeout,
        }
    }
}

/// What the route makes of the result of its provider call.
pub fn route_outcome<T>(result: ProviderCallResult<T>) -> (r: BridgeResult<T>)
    ensures
        r == (match result {
            Ok(value) => Ok::<T, BridgeError>(value),
            Err(error) => Err::<T, BridgeError>(BridgeError::ProviderCall(error)),
        }),
{
    match result {
        Ok(value) => Ok(value),
        Err(error) => Err(BridgeError::from(error)),
    }
}

/// A host that asks for streamed chat completions is always told to fall back on its own path.
pub proof fn chat_streaming_falls_back(supported: bool)
    ensures
        bridge_exception(
            BridgeErrorView::ProviderCall(
                ProviderCallErrorView::NotSent(chat_stream_refusal(supported)),
            ),
        ) == PyExceptionView::Declined(chat_stream_refusal(supported).message()),
{
}

/// A call is accepted exactly when the messages converted to an array, of any length, and the extra
/// headers and the optional parameters, where given, converted to objects. It then carries every
/// argument as given, and no optional parameters where none are given.
pub proof fn call_is_accepted_with_what_was_given<C>(
    inputs: ChatCompletionsInputs<C>,
    taken: BridgeResult<ChatCompletionsCall>,
)
    requires
        call_ensures(ChatCompletionsCall::from_python::<C>, (inputs,), taken),
    ensures
        taken is Ok <==> {
            &&& inputs.messages matches Ok(messages) && messages is Array
            &&& inputs.extra_headers matches Some(given) ==> (given matches Ok(headers)
                && headers is Object)
            &&& inputs.optional_params matches Some(given) ==> (given matches Ok(params)
                && params is Object)
        },
        taken matches Ok(call) ==> {
            &&& inputs.messages matches Ok(messages) && call.messages == messages
            &&& call.options.model == inputs.model
            &&& call.options.api_key == inputs.api_key
            &&& call.options.api_base == inputs.api_base
            &&& call.options.custom_llm_provider == inputs.custom_llm_provider
            &&& call.options.timeout == inputs.timeout
            &&& match inputs.extra_headers {
                Some(Ok(Value::Object(headers))) => call.options.extra_headers == Some(headers),
                _ => call.options.extra_headers is None,
            }
            &&& match inputs.optional_params {
                Some(Ok(Value::Object(params))) => call.optional_params == params,
                _ => call.optional_params@.len() == 0,
            }
        },
{
}

/// A refused call is declined with the reason of the first argument that is at fault: the extra
/// headers, then the messages, then the optional parameters. The reason is the text of the failed
/// conversion, or says what the argument must be.
pub proof fn refused_call_names_first_fault<C>(
    inputs: ChatCompletionsInputs<C>,
    taken: BridgeResult<ChatCompletionsCall>,
)
    requires
        call_ensures(ChatCompletionsCall::from_python::<C>, (inputs,), taken),
    ensures
        taken matches Err(refused) ==> (refused matches BridgeError::Declined(reason)
            && match inputs.extra_headers {
            Some(Err(failure)) => reason@ == failure.text@,
            Some(Ok(headers)) if !(headers is Object) => reason@
                == "ValueError: extra_headers must be a dict"@,
            _ => match inputs.messages {
                Err(failure) => reason@ == failure.text@,
                Ok(messages) if !(messages is Array) => reason@
                    == "ValueError: messages must be a list"@,
                Ok(_) => match inputs.optional_params {
                    Some(Err(failure)) => reason@ == failure.text@,
                    _ => reason@ == "ValueError: optional_params must be a dict"@,
                },
            },
        }),
{
    reveal_strlit("ValueError: extra_headers must be a dict");
    reveal_strlit("ValueError: messages must be a list");
    reveal_strlit("ValueError: optional_params must be a dict");
    reveal_strlit("ValueError: ");
    reveal_strlit("extra_headers");
    reveal_strlit("messages");
    reveal_strlit("optional_params");
    reveal_strlit(" must be a ");
    reveal_strlit("dict");
    reveal_strlit("list");
    assert("ValueError: "@ + ("extra_headers"@ + " must be a "@ + "dict"@)
        =~= "ValueError: extra_headers must be a dict"@);
    assert("ValueError: "@ + ("messages"@ + " must be a "@ + "list"@)
        =~= "ValueError: messages must be a list"@);
    assert("ValueError: "@ + ("optional_params"@ + " must be a "@ + "dict"@)
        =~= "ValueError: optional_params must be a dict"@);
}

/// The request that an accepted call hands on holds the arguments that the host gave: none is lost,
/// changed or put in the place of another.
pub proof fn request_holds_what_was_given<C>(
    inputs: ChatCompletionsInputs<C>,
    call: ChatCompletionsCall,
    request: ChatCompletionsRequest,
)
    requires
        call_ensures(
            ChatCompletionsCall::from_python::<C>,
            (inputs,),
            Ok::<ChatCompletionsCall, BridgeError>(call),
        ),
        call_ensures(ChatCompletionsCall::request, (call,), request),
    ensures
        request.model == inputs.model,
        inputs.messages matches Ok(messages) && request.messages == messages,
        match inputs.optional_params {
            Some(Ok(Value::Object(params))) => request.optional_params == params,
            _ => request.optional_params@.len() == 0,
        },
        request.api_key == inputs.api_key,
        request.api_base == inputs.api_base,
        request.custom_llm_provider == inputs.custom_llm_provider,
        match inputs.extra_headers {
            Some(Ok(Value::Object(headers))) => request.extra_headers == Some(headers),
            _ => request.extra_headers is None,
        },
        request.timeout == inputs.timeout,
{
    call_is_accepted_with_what_was_given(inputs, Ok(call));
}

/// A call executes what preparing its request gave, and nothing where preparing failed: where
/// preparing always gives the same result, the call comes to what executing it gives, or was not
/// sent for the reason that preparing gave.
pub proof fn call_executes_what_was_prepared<
    R,
    P,
    X,
    F: Fn(R) -> Result<P, Error>,
    G: Fn(P) -> X,
>(request: R, prepare: F, execute: G, prepared: Result<P, Error>, r: ProviderCallResult<X>)
    requires
        call_ensures(chat_completions::<R, P, X, F, G>, (request, prepare, execute), r),
        forall|given: Result<P, Error>| #[trigger]
            call_ensures(prepare, (request,), given) ==> given == prepared,
    ensures
        match prepared {
            Ok(call) => r matches Ok(executed) && call_ensures(execute, (call,), executed),
            Err(error) => r matches Err(ProviderCallError::NotSent(same)) && same == error,
        },
{
}

/// A call that could not be prepared lets the host serve the request itself: it is declined with
/// the text of the error.
pub proof fn unprepared_call_lets_host_retry<T>(
    error: Error,
    prepared: ProviderCallResult<T>,
    outcome: BridgeResult<T>,
    shown: String,
    raised: PyException,
)
    requires
        call_ensures(prepared_call::<T>, (Err::<T, Error>(error),), prepared),
        call_ensures(route_outcome::<T>, (prepared,), outcome),
        call_ensures(Error::message, (&error,), shown),
        outcome matches Err(failed) ==> call_ensures(BridgeError::to_pyerr, (failed,), raised),
    ensures
        outcome is Err,
        raised matches PyException::Declined(text) && text@ == shown@,
{
}

/// Streaming is refused before anything is sent, whatever is answered of the provider; the answer
/// decides between the two reasons alone.
pub proof fn chat_stream_is_refused_unsent<T>(supported: bool, refused: ProviderCallResult<T>)
    requires
        call_ensures(refuse_chat_stream::<T>, (supported,), refused),
    ensures
        refused matches Err(ProviderCallError::NotSent(Error::Unsupported(reason))) && reason@ == (
        if supported {
            "chat completions streaming provider registration"@
        } else {
            "chat completions streaming"@
        }),
{
}

/// A provider is asked about streaming chat completions over HTTP, and its own answer decides
/// between the two reasons for the refusal.
pub proof fn chat_stream_refusal_follows_answer<T, P, F: Fn(StreamCapability<P>) -> bool>(
    provider: P,
    supports_streaming: F,
    answer: bool,
    refused: ProviderCallResult<T>,
)
    requires
        call_ensures(chat_completions_stream::<T, P, F>, (provider, supports_streaming), refused),
        forall|capability: StreamCapability<P>, supported: bool|
            capability.provider == provider && capability.api is ChatCompletions
                && capability.transport is Http && #[trigger] call_ensures(
                supports_streaming,
                (capability,),
                supported,
            ) ==> supported == answer,
    ensures
        refused matches Err(ProviderCallError::NotSent(Error::Unsupported(reason))) && reason@ == (
        if answer {
            "chat completions streaming provider registration"@
        } else {
            "chat completions streaming"@
        }),
{
}

/// The route hands on the value of a call that succeeded, and raises one that failed by how far it
/// got: declined where it was not sent, and reported where it may have been.
pub proof fn route_hands_on_result<T>(
    result: ProviderCallResult<T>,
    outcome: BridgeResult<T>,
    raised: PyException,
)
    requires
        call_ensures(route_outcome::<T>, (result,), outcome),
        outcome matches Err(failed) ==> call_ensures(BridgeError::to_pyerr, (failed,), raised),
    ensures
        outcome is Ok <==> result is Ok,
        result matches Ok(value) ==> (outcome matches Ok(same) && same == value),
        result matches Err(ProviderCallError::NotSent(_)) ==> raised is Declined,
        result matches Err(ProviderCallError::PossiblySent(_)) ==> raised is Upstream,
        result matches Err(failed) ==> (outcome matches Err(BridgeError::ProviderCall(same))
            && same == failed),
{
}

/// A request that was prepared is handed on for execution as it is.
pub proof fn prepared_call_is_handed_on<P>(prepared: P, r: ProviderCallResult<P>)
    requires
        call_ensures(prepared_call::<P>, (Ok::<P, Error>(prepared),), r),
    ensures
        r matches Ok(call) && call == prepared,
{
}

} // verus!
