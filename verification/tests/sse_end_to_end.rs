use codex_api::common::{ApiError, ContentItem, ResponseEvent, ResponseItem};
use codex_api::sse::anthropic::{
    AnthropicContentBlock, AnthropicDelta, AnthropicError, AnthropicMessageStart,
    AnthropicStreamEvent, AnthropicStreamState, AnthropicUsage, StreamPoll, StreamStep,
};
use serde_json::Value;

fn text(value: &Value, key: &str) -> Option<String> {
    value.get(key).and_then(Value::as_str).map(str::to_string)
}

fn count(value: &Value, key: &str) -> i64 {
    value.get(key).and_then(Value::as_i64).unwrap_or(0)
}

fn usage(value: &Value) -> AnthropicUsage {
    AnthropicUsage {
        input_tokens: count(value, "input_tokens"),
        output_tokens: count(value, "output_tokens"),
        cache_read_input_tokens: count(value, "cache_read_input_tokens"),
    }
}

fn content_block(value: &Value) -> AnthropicContentBlock {
    match value["type"].as_str() {
        Some("text") => AnthropicContentBlock::Text { text: text(value, "text").unwrap() },
        Some("tool_use") => AnthropicContentBlock::ToolUse {
            id: text(value, "id").unwrap(),
            name: text(value, "name").unwrap(),
            input: value["input"].clone(),
        },
        _ => AnthropicContentBlock::Other,
    }
}

fn event(data: &str) -> AnthropicStreamEvent {
    let value: Value = serde_json::from_str(data).unwrap();
    AnthropicStreamEvent {
        kind: text(&value, "type").unwrap(),
        message: value.get("message").map(|message| AnthropicMessageStart {
            id: text(message, "id").unwrap(),
            usage: message.get("usage").map(usage),
        }),
        content_block: value.get("content_block").map(content_block),
        delta: value.get("delta").map(|delta| AnthropicDelta {
            kind: text(delta, "type"),
            text: text(delta, "text"),
            partial_json: text(delta, "partial_json"),
            stop_reason: text(delta, "stop_reason"),
        }),
        index: value.get("index").and_then(Value::as_u64).map(|index| index as usize),
        usage: value.get("usage").map(usage),
        error: value.get("error").map(|error| AnthropicError {
            message: text(error, "message").unwrap_or_default(),
        }),
    }
}

/// Feeds the `data` lines of a body to a fresh stream and collects what it sends.
fn stream(body: &str) -> Vec<Result<ResponseEvent, ApiError>> {
    let mut state = AnthropicStreamState::default();
    let mut sent = Vec::new();
    for line in body.lines() {
        let Some(data) = line.strip_prefix("data: ") else {
            continue;
        };
        let step = state.on_poll(StreamPoll::Event(event(data)));
        let goes_on = step.continues(true);
        match step {
            StreamStep::Continue => {}
            StreamStep::Send(event) => sent.push(Ok(event)),
            StreamStep::Finish(outcome) => sent.push(outcome),
        }
        if !goes_on {
            return sent;
        }
    }
    match state.on_poll(StreamPoll::Closed) {
        StreamStep::Finish(outcome) => sent.push(outcome),
        other => panic!("a closed stream must finish: {other:?}"),
    }
    sent
}

#[test]
fn anthropic_stream_parses_text_tool_call_and_completion() {
    let body = [
        r#"event: message_start
data: {"type":"message_start","message":{"id":"msg_1","usage":{"input_tokens":3,"output_tokens":1}}}

"#,
        r#"event: content_block_start
data: {"type":"content_block_start","index":0,"content_block":{"type":"text","text":""}}

"#,
        r#"event: content_block_delta
data: {"type":"content_block_delta","index":0,"delta":{"type":"text_delta","text":"Hello"}}

"#,
        r#"event: content_block_stop
data: {"type":"content_block_stop","index":0}

"#,
        r#"event: content_block_start
data: {"type":"content_block_start","index":1,"content_block":{"type":"tool_use","id":"toolu_1","name":"lookup","input":{}}}

"#,
        r#"event: content_block_delta
data: {"type":"content_block_delta","index":1,"delta":{"type":"input_json_delta","partial_json":"{\"q\":\"x\"}"}}

"#,
        r#"event: content_block_stop
data: {"type":"content_block_stop","index":1}

"#,
        r#"event: message_delta
data: {"type":"message_delta","delta":{"stop_reason":"tool_use"},"usage":{"output_tokens":7}}

"#,
        r#"event: message_stop
data: {"type":"message_stop"}

"#,
    ]
    .join("");

    let events: Vec<ResponseEvent> = stream(&body).into_iter().map(Result::unwrap).collect();

    assert_eq!(events.len(), 5);
    assert!(matches!(events[0], ResponseEvent::Created));
    assert!(matches!(
        &events[1],
        ResponseEvent::OutputTextDelta(delta) if delta == "Hello"
    ));
    assert!(matches!(
        &events[2],
        ResponseEvent::OutputItemDone(ResponseItem::Message { role, .. }) if role == "assistant"
    ));
    assert!(matches!(
        &events[3],
        ResponseEvent::OutputItemDone(ResponseItem::FunctionCall { name, arguments, call_id, .. })
            if name == "lookup" && arguments == "{\"q\":\"x\"}" && call_id == "toolu_1"
    ));
    assert!(matches!(
        &events[4],
        ResponseEvent::Completed { response_id, token_usage: Some(usage), end_turn: Some(true) }
            if response_id == "msg_1" && usage.input_tokens == 3 && usage.output_tokens == 7
    ));
}

#[test]
fn text_of_interleaved_blocks_is_kept_apart() {
    let body = concat(&[
        r#"{"type":"content_block_start","index":0,"content_block":{"type":"text","text":"a"}}"#,
        r#"{"type":"content_block_start","index":1,"content_block":{"type":"text","text":"x"}}"#,
        r#"{"type":"content_block_delta","index":1,"delta":{"type":"text_delta","text":"y"}}"#,
        r#"{"type":"content_block_delta","index":0,"delta":{"type":"text_delta","text":"b"}}"#,
        r#"{"type":"ping"}"#,
        r#"{"type":"content_block_delta","delta":{"type":"text_delta","text":"c"}}"#,
        r#"{"type":"content_block_stop"}"#,
        r#"{"type":"content_block_stop","index":1}"#,
        r#"{"type":"content_block_stop","index":1}"#,
        r#"{"type":"message_stop"}"#,
    ]);
    let sent = stream(&body);
    assert_eq!(sent.len(), 6);
    assert_eq!(sent[0], Ok(ResponseEvent::OutputTextDelta("y".to_string())));
    assert_eq!(sent[1], Ok(ResponseEvent::OutputTextDelta("b".to_string())));
    assert_eq!(sent[2], Ok(ResponseEvent::OutputTextDelta("c".to_string())));
    assert_eq!(sent[3], Ok(ResponseEvent::OutputItemDone(message("abc"))));
    assert_eq!(sent[4], Ok(ResponseEvent::OutputItemDone(message("xy"))));
    assert!(matches!(&sent[5], Ok(ResponseEvent::Completed { .. })));
}

#[test]
fn sent_deltas_add_up_to_the_message() {
    let sent = stream(&concat(&[
        r#"{"type":"content_block_start","content_block":{"type":"text","text":"<"}}"#,
        r#"{"type":"content_block_delta","delta":{"type":"text_delta","text":"a"}}"#,
        r#"{"type":"content_block_delta","delta":{"type":"text_delta"}}"#,
        r#"{"type":"content_block_delta","delta":{"type":"text_delta","text":"bc"}}"#,
        r#"{"type":"content_block_stop"}"#,
    ]));
    let deltas: String = sent
        .iter()
        .filter_map(|outcome| match outcome {
            Ok(ResponseEvent::OutputTextDelta(delta)) => Some(delta.as_str()),
            _ => None,
        })
        .collect();
    assert_eq!(deltas, "abc");
    assert_eq!(sent[3], Ok(ResponseEvent::OutputItemDone(message("<abc"))));
}

#[test]
fn input_of_a_tool_call_follows_what_it_started_with() {
    let sent = stream(&concat(&[
        r#"{"type":"content_block_start","index":2,"content_block":{"type":"tool_use","id":"t","name":"n","input":[1]}}"#,
        r#"{"type":"content_block_delta","index":2,"delta":{"type":"input_json_delta","partial_json":" "}}"#,
        r#"{"type":"content_block_stop","index":2}"#,
        r#"{"type":"content_block_start","index":2,"content_block":{"type":"tool_use","id":"t","name":"n","input":null}}"#,
        r#"{"type":"content_block_stop","index":2}"#,
    ]));
    let arguments: Vec<&str> = sent
        .iter()
        .filter_map(|outcome| match outcome {
            Ok(ResponseEvent::OutputItemDone(ResponseItem::FunctionCall { arguments, .. })) => {
                Some(arguments.as_str())
            }
            _ => None,
        })
        .collect();
    assert_eq!(arguments, vec!["[1] ", "{}"]);
}

#[test]
fn error_event_ends_the_stream() {
    let sent = stream(&concat(&[
        r#"{"type":"error","error":{"message":"overloaded"}}"#,
        r#"{"type":"message_start"}"#,
    ]));
    assert_eq!(sent, vec![Err(ApiError::Stream("overloaded".to_string()))]);
}

#[test]
fn error_event_without_message_gets_a_general_one() {
    let general = vec![Err(ApiError::Stream("Anthropic stream error".to_string()))];
    assert_eq!(stream(&concat(&[r#"{"type":"error"}"#])), general);
    assert_eq!(stream(&concat(&[r#"{"type":"error","error":{}}"#])), general);
}

#[test]
fn early_close_is_an_error() {
    let sent = stream(&concat(&[r#"{"type":"message_start","message":{"id":"m"}}"#]));
    assert_eq!(
        sent,
        vec![
            Ok(ResponseEvent::Created),
            Err(ApiError::Stream("stream closed before message_stop".to_string())),
        ]
    );
}

fn concat(events: &[&str]) -> String {
    events.iter().map(|data| format!("data: {data}\n\n")).collect()
}

fn message(text: &str) -> ResponseItem {
    ResponseItem::Message {
        id: None,
        role: "assistant".to_string(),
        content: vec![ContentItem::OutputText { text: text.to_string() }],
        phase: None,
    }
}
