# litellm_python_bridge

The bridge lets a Python host make provider calls in Rust. A call that was not sent is *declined*,
so the host can serve it on its own path; a call that may have been sent is *reported*, and is
never retried behind the provider's back.

`src/` is the verified library. It holds what the bridge decides, with no I/O of its own:

- `error`: the errors of provider calls, their texts, and how a failure to send is classified;
- `exceptions`: which Python exception each failure is raised as;
- `json`, `marshal`: JSON values, and the validation of arguments that come from Python;
- `chat_completions`: the chat completions route;
- `http_stream`, `http_utils`: the stages of a streamed HTTP response, and the bounded capture of
  an answer that is no success;
- `responses_websocket`: the websocket route;
- `runtime`: what the host sees of a route that ran;
- `outside`: the calls into `reqwest` and the standard library, with what is relied on of each;
- `text`: joining texts and writing numbers.

`app/` is the extension module around it: it converts Python objects, sends requests, waits, and
hands each outcome to the library. `tests/` runs the library on concrete values.
