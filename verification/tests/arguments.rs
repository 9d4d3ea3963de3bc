use std::time::Duration;

use litellm_python_bridge::chat_completions::{
    chat_completions, chat_completions_stream, chat_stream_capability, prepared_call,
    refuse_chat_stream, route_outcome, ChatCompletionsCall, ChatCompletionsInputs,
    ChatCompletionsRequest, StreamApi, StreamCapability, StreamTransport,
};
use litellm_python_bridge::marshal::{
    object, object_or_empty, optional_object, required_value, string_headers, Argument,
    ArgumentError, ConversionFailure, RouteOptions,
};
use litellm_python_bridge::responses_websocket::{
    connection_outcome, inbound_item, ConnectRequest,
};
use litellm_python_bridge::runtime::{run_async, run_async_with, run_sync, run_sync_with};
use litellm_python_bridge::{
    json_type_name, BridgeError, Error, JsonObject, Number, ProviderCallError, PyException, Value,
};

fn text(s: &str) -> String {
    s.to_string()
}

fn string(s: &str) -> Value {
    Value::String(text(s))
}

fn dict(entries: &[(&str, &str)]) -> Value {
    let mut object = JsonObject::new();
    for (name, value) in entries {
        object = object.insert(text(name), string(value));
    }
    Value::Object(object)
}

fn unconvertible() -> Argument<u8> {
    Err(ConversionFailure { cause: 7, text: text("TypeError: no JSON form") })
}

fn conversion_error() -> ArgumentError<u8> {
    ArgumentError::Conversion(ConversionFailure { cause: 7, text: text("TypeError: no JSON form") })
}

fn invalid(message: &str) -> ArgumentError<u8> {
    ArgumentError::Invalid(text(message))
}

#[test]
fn each_kind_of_value_has_a_name() {
    assert_eq!(json_type_name(&Value::Null), "null");
    assert_eq!(json_type_name(&Value::Bool(true)), "bool");
    assert_eq!(json_type_name(&Value::Number(Number::PosInt(1))), "number");
    assert_eq!(json_type_name(&Value::Number(Number::NegInt(-1))), "number");
    assert_eq!(json_type_name(&Value::Number(Number::Double(0.5f64.to_bits()))), "number");
    assert_eq!(json_type_name(&string("a")), "string");
    assert_eq!(json_type_name(&Value::Array(Vec::new())), "array");
    assert_eq!(json_type_name(&dict(&[])), "object");
}

#[test]
fn an_object_holds_no_name_twice() {
    let object = JsonObject::new()
        .insert(text("a"), Value::Null)
        .insert(text("b"), Value::Bool(true))
        .insert(text("a"), string("again"));
    assert_eq!(
        object.into_entries(),
        vec![(text("a"), string("again")), (text("b"), Value::Bool(true))]
    );
    assert_eq!(JsonObject::new().into_entries(), Vec::new());
}

#[test]
fn required_values_are_checked() {
    let list: Argument<u8> = Ok(Value::Array(vec![Value::Null]));
    assert_eq!(
        required_value("messages", list, Value::is_array, "list"),
        Ok(Value::Array(vec![Value::Null]))
    );
    let scalar: Argument<u8> = Ok(Value::Bool(false));
    assert_eq!(
        required_value("messages", scalar, Value::is_array, "list"),
        Err(invalid("messages must be a list"))
    );
    assert_eq!(
        required_value("messages", unconvertible(), Value::is_array, "list"),
        Err(conversion_error())
    );
}

#[test]
fn dict_arguments_are_checked() {
    let given: Argument<u8> = Ok(dict(&[("a", "b")]));
    let taken = object("params", given).expect("a dict");
    assert_eq!(Value::Object(taken), dict(&[("a", "b")]));
    let given: Argument<u8> = Ok(Value::Array(Vec::new()));
    assert_eq!(object("params", given), Err(invalid("params must be a dict")));
    assert_eq!(object("params", unconvertible()), Err(conversion_error()));

    let none: Option<Argument<u8>> = None;
    assert_eq!(object_or_empty("params", none), Ok(JsonObject::new()));
    assert_eq!(
        object_or_empty("params", Some(Ok::<_, ConversionFailure<u8>>(Value::Null))),
        Err(invalid("params must be a dict"))
    );

    let none: Option<Argument<u8>> = None;
    assert_eq!(optional_object("params", none), Ok(None));
    let given: Option<Argument<u8>> = Some(Ok(dict(&[])));
    assert_eq!(optional_object("params", given), Ok(Some(JsonObject::new())));
    assert_eq!(optional_object("params", Some(unconvertible())), Err(conversion_error()));
}

#[test]
fn headers_are_strings_under_distinct_names() {
    let none: Option<Argument<u8>> = None;
    assert_eq!(string_headers(none), Ok(Vec::new()));
    let given: Option<Argument<u8>> =
        Some(Ok(dict(&[("accept", "a"), ("x-test", "b"), ("accept", "c")])));
    assert_eq!(
        string_headers(given),
        Ok(vec![(text("accept"), text("c")), (text("x-test"), text("b"))])
    );
    let given: Option<Argument<u8>> = Some(Ok(string("accept")));
    assert_eq!(string_headers(given), Err(invalid("headers must be a dict")));
    let mixed = JsonObject::new()
        .insert(text("accept"), string("a"))
        .insert(text("retries"), Value::Number(Number::PosInt(3)));
    let given: Option<Argument<u8>> = Some(Ok(Value::Object(mixed)));
    assert_eq!(string_headers(given), Err(invalid("header values must be strings")));
    assert_eq!(string_headers(Some(unconvertible())), Err(conversion_error()));
}

#[test]
fn refused_arguments_decline_or_raise() {
    assert_eq!(
        invalid("messages must be a list").declined(),
        BridgeError::Declined(text("ValueError: messages must be a list"))
    );
    assert_eq!(
        conversion_error().declined(),
        BridgeError::Declined(text("TypeError: no JSON form"))
    );
    assert_eq!(
        invalid("headers must be a dict").raised(),
        Ok(PyException::ValueError(text("headers must be a dict")))
    );
    assert_eq!(conversion_error().raised(), Err(7));
}

fn inputs() -> ChatCompletionsInputs<u8> {
    ChatCompletionsInputs {
        model: text("small"),
        messages: Ok(Value::Array(vec![dict(&[("role", "user")])])),
        optional_params: Some(Ok(dict(&[("stop", "end")]))),
        api_key: Some(text("key")),
        api_base: None,
        custom_llm_provider: Some(text("openai")),
        extra_headers: Some(Ok(dict(&[("x-test", "ready")]))),
        timeout: Some(Duration::from_millis(1500)),
    }
}

fn extra_headers() -> Option<JsonObject> {
    Some(JsonObject::new().insert(text("x-test"), string("ready")))
}

#[test]
fn route_options_keep_what_is_given() {
    let options = RouteOptions::from_python::<u8>(
        text("small"),
        None,
        Some(text("http://localhost")),
        None,
        Some(Ok(dict(&[("x-test", "ready")]))),
        None,
    );
    assert_eq!(
        options,
        Ok(RouteOptions {
            model: text("small"),
            api_key: None,
            api_base: Some(text("http://localhost")),
            custom_llm_provider: None,
            extra_headers: extra_headers(),
            timeout: None,
        })
    );
    let refused =
        RouteOptions::from_python::<u8>(text("small"), None, None, None, Some(Ok(Value::Null)), None);
    assert_eq!(refused, Err(invalid("extra_headers must be a dict")));
}

#[test]
fn chat_completions_call_hands_on_its_arguments() {
    let call = ChatCompletionsCall::from_python(inputs()).expect("valid arguments");
    assert_eq!(
        call.request(),
        ChatCompletionsRequest {
            model: text("small"),
            messages: Value::Array(vec![dict(&[("role", "user")])]),
            optional_params: JsonObject::new().insert(text("stop"), string("end")),
            api_key: Some(text("key")),
            api_base: None,
            custom_llm_provider: Some(text("openai")),
            extra_headers: extra_headers(),
            timeout: Some(Duration::from_millis(1500)),
        }
    );
    let bare = ChatCompletionsInputs { optional_params: None, extra_headers: None, ..inputs() };
    let call = ChatCompletionsCall::from_python(bare).expect("valid arguments");
    assert_eq!(call.optional_params, JsonObject::new());
    assert_eq!(call.options.extra_headers, None);
}

#[test]
fn chat_completions_call_declines_the_first_refused_argument() {
    let declined = |inputs: ChatCompletionsInputs<u8>| {
        ChatCompletionsCall::from_python(inputs).expect_err("refused")
    };
    assert_eq!(
        declined(ChatCompletionsInputs {
            extra_headers: Some(Ok(Value::Null)),
            messages: Ok(Value::Null),
            ..inputs()
        }),
        BridgeError::Declined(text("ValueError: extra_headers must be a dict"))
    );
    assert_eq!(
        declined(ChatCompletionsInputs {
            messages: Ok(dict(&[])),
            optional_params: Some(unconvertible()),
            ..inputs()
        }),
        BridgeError::Declined(text("ValueError: messages must be a list"))
    );
    assert_eq!(
        declined(ChatCompletionsInputs { messages: unconvertible(), ..inputs() }),
        BridgeError::Declined(text("TypeError: no JSON form"))
    );
    assert_eq!(
        declined(ChatCompletionsInputs { optional_params: Some(Ok(string("a"))), ..inputs() }),
        BridgeError::Declined(text("ValueError: optional_params must be a dict"))
    );
}

#[test]
fn unprepared_call_was_not_sent() {
    assert_eq!(prepared_call(Ok(3)), Ok(3));
    let failed: Result<u8, Error> = Err(Error::InvalidProvider(text("acme")));
    let result = prepared_call(failed);
    assert_eq!(result, Err(ProviderCallError::NotSent(Error::InvalidProvider(text("acme")))));
    let outcome = route_outcome(result).expect_err("failed");
    assert_eq!(outcome.to_pyerr(), PyException::Declined(text("invalid provider: acme")));
    assert_eq!(route_outcome(Ok(3)), Ok(3));
}

#[test]
fn call_executes_what_was_prepared() {
    let prepare = |request: u8| match request {
        0 => Err(Error::InvalidRequest(text("empty"))),
        request => Ok(request + 1),
    };
    let executed = chat_completions(20, prepare, |prepared: u8| {
        Err::<u8, _>(ProviderCallError::PossiblySent(Error::Network(format!("{prepared}"))))
    });
    assert_eq!(
        executed,
        Ok(Err(ProviderCallError::PossiblySent(Error::Network(text("21")))))
    );
    let refused = chat_completions(0, prepare, |prepared: u8| -> u8 {
        panic!("executed {prepared}")
    });
    assert_eq!(
        refused,
        Err(ProviderCallError::NotSent(Error::InvalidRequest(text("empty"))))
    );
}

#[test]
fn streamed_chat_completions_fall_back() {
    let capability = chat_stream_capability("openai");
    assert_eq!(capability.api, StreamApi::ChatCompletions);
    assert_eq!(capability.provider, "openai");
    assert_eq!(capability.transport, StreamTransport::Http);
    assert_eq!(
        refuse_chat_stream::<u8>(false),
        Err(ProviderCallError::NotSent(Error::Unsupported("chat completions streaming")))
    );
    assert_eq!(
        refuse_chat_stream::<u8>(true),
        Err(ProviderCallError::NotSent(Error::Unsupported(
            "chat completions streaming provider registration"
        )))
    );
    let outcome = route_outcome(refuse_chat_stream::<u8>(true)).expect_err("refused");
    assert_eq!(
        outcome.to_pyerr(),
        PyException::Declined(text(
            "unsupported by the rust path: chat completions streaming provider registration"
        ))
    );
}

#[test]
fn streaming_is_asked_of_the_provider() {
    let supports_openai = |capability: StreamCapability<&str>| {
        capability == chat_stream_capability("openai")
    };
    let stream = |provider| chat_completions_stream::<u8, _, _>(provider, supports_openai);
    assert_eq!(
        stream("openai"),
        Err(ProviderCallError::NotSent(Error::Unsupported(
            "chat completions streaming provider registration"
        )))
    );
    assert_eq!(
        stream("acme"),
        Err(ProviderCallError::NotSent(Error::Unsupported("chat completions streaming")))
    );
}

#[test]
fn websocket_connects_with_string_headers() {
    let request = ConnectRequest::from_python::<u8>(
        text("wss://localhost"),
        Some(Ok(dict(&[("authorization", "token")]))),
        Some(Duration::from_secs(5)),
    );
    assert_eq!(
        request,
        Ok(ConnectRequest {
            url: text("wss://localhost"),
            headers: vec![(text("authorization"), text("token"))],
            timeout: Some(Duration::from_secs(5)),
        })
    );
    let refused =
        ConnectRequest::from_python::<u8>(text("wss://localhost"), Some(Ok(Value::Null)), None);
    assert_eq!(refused, Err(invalid("headers must be a dict")));
}

#[test]
fn websocket_items_are_texts_failures_or_the_end() {
    assert_eq!(inbound_item(Ok(Some(text("hello")))), Some(Ok(text("hello"))));
    assert_eq!(inbound_item(Ok(None)), None);
    assert_eq!(
        inbound_item(Err(Error::Network(text("reset")))),
        Some(Err(BridgeError::Core(Error::Network(text("reset")))))
    );
    assert_eq!(connection_outcome(Ok(())), Ok(()));
    let failed = connection_outcome::<()>(Err(Error::Auth(text("no key")))).expect_err("failed");
    assert_eq!(failed.to_pyerr(), PyException::ValueError(text("no key")));
}

#[test]
fn route_sync_runner_dispatches_without_holding_the_gil() {
    let raise = |error: Error| PyException::RuntimeError(error.message());
    assert_eq!(run_sync(Some(Ok(42_u8)), raise), Ok(42));
}

#[test]
fn runtime_sync_runner_dispatches_without_holding_the_gil() {
    assert_eq!(run_sync_with(Some(Ok(42_u8))), Ok(42));
}

#[test]
fn terminated_task_is_a_runtime_error() {
    let raise = |error: Error| PyException::RuntimeError(error.message());
    let terminated = PyException::RuntimeError(text("native route task terminated"));
    let nothing: Option<Result<u8, Error>> = None;
    assert_eq!(run_sync(nothing, raise), Err(terminated));
    let terminated = PyException::RuntimeError(text("native route task terminated"));
    let nothing: Option<Result<u8, BridgeError>> = None;
    assert_eq!(run_sync_with(nothing), Err(terminated));
}

#[test]
fn failed_task_raises_its_exception() {
    let raise = |error: Error| PyException::RuntimeError(error.message());
    let failed: Result<u8, Error> = Err(Error::Routing(text("no route")));
    assert_eq!(
        run_async(failed, raise),
        Err(PyException::RuntimeError(text("routing error: no route")))
    );
    for awaited in [false, true] {
        let failed: Result<u8, BridgeError> = Err(BridgeError::Declined(text("not here")));
        let seen = if awaited { run_async_with(failed) } else { run_sync_with(Some(failed)) };
        assert_eq!(seen, Err(PyException::Declined(text("not here"))));
    }
    assert_eq!(run_async_with(Ok(42_u8)), Ok(42));
}

#[test]
fn websocket_failures_do_not_end_the_texts() {
    let received = vec![
        Ok(Some(text("one"))),
        Err(Error::Network(text("reset"))),
        Ok(Some(text("two"))),
        Ok(None),
        Ok(Some(text("three"))),
    ];
    let items: Vec<_> = received.into_iter().map_while(inbound_item).collect();
    assert_eq!(
        items,
        vec![
            Ok(text("one")),
            Err(BridgeError::Core(Error::Network(text("reset")))),
            Ok(text("two")),
        ]
    );
}
