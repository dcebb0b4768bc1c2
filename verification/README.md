# codex_api

A client for the Anthropic messages API behind a Responses-style interface, verified with Verus.

- `src/common.rs`, `src/requests.rs`: the request and response vocabulary.
- `src/endpoint/anthropic.rs`: the body of a messages request, built from a Responses API request.
  `src/endpoint/laws.rs`: what holds of every such request.
- `src/sse/anthropic.rs`: the message stream as a state machine from polls to steps.
  `src/sse/laws.rs`: what holds of a whole stream.
- `src/json.rs`, `src/headers.rs`, `src/text.rs`: JSON values, HTTP headers and text, with the
  contracts under which `serde_json`, `http` and the standard library are used.
- `app/`: the asynchronous side, which runs the state machine over a transport.
- `tests/`: examples.
