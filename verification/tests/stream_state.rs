use codex_api::common::{ApiError, ResponseEvent, ResponseItem, TokenUsage};
use codex_api::sse::anthropic::{
    AnthropicBlock, AnthropicContentBlock, AnthropicDelta, AnthropicError, AnthropicMessageStart,
    AnthropicStreamEvent, AnthropicStreamState, AnthropicUsage, StreamEventKind, StreamPoll,
    StreamStep, block_to_response_item, event_kind, open_block, starting_input_json,
    stream_error_message, upstream_request_id,
};
use http::{HeaderMap, HeaderValue};
use serde_json::Value;

fn json(text: &str) -> Value {
    serde_json::from_str(text).unwrap()
}

fn plain(kind: &str) -> AnthropicStreamEvent {
    AnthropicStreamEvent {
        kind: kind.to_string(),
        message: None,
        content_block: None,
        delta: None,
        index: None,
        usage: None,
        error: None,
    }
}

fn usage(input: i64, output: i64, cached: i64) -> AnthropicUsage {
    AnthropicUsage {
        input_tokens: input,
        output_tokens: output,
        cache_read_input_tokens: cached,
    }
}

fn text_delta(text: Option<&str>) -> AnthropicDelta {
    AnthropicDelta {
        kind: Some("text_delta".to_string()),
        text: text.map(str::to_string),
        partial_json: None,
        stop_reason: None,
    }
}

fn input_delta(json: &str) -> AnthropicDelta {
    AnthropicDelta {
        kind: Some("input_json_delta".to_string()),
        text: None,
        partial_json: Some(json.to_string()),
        stop_reason: None,
    }
}

fn tool(input_json: &str) -> AnthropicBlock {
    AnthropicBlock::ToolUse {
        id: "toolu_1".to_string(),
        name: "lookup".to_string(),
        input_json: input_json.to_string(),
    }
}

fn call(arguments: &str) -> ResponseItem {
    ResponseItem::FunctionCall {
        id: None,
        name: "lookup".to_string(),
        namespace: None,
        arguments: arguments.to_string(),
        call_id: "toolu_1".to_string(),
    }
}

#[test]
fn event_names_are_recognised() {
    assert_eq!(event_kind("message_start"), StreamEventKind::MessageStart);
    assert_eq!(event_kind("content_block_start"), StreamEventKind::ContentBlockStart);
    assert_eq!(event_kind("content_block_delta"), StreamEventKind::ContentBlockDelta);
    assert_eq!(event_kind("content_block_stop"), StreamEventKind::ContentBlockStop);
    assert_eq!(event_kind("message_delta"), StreamEventKind::MessageDelta);
    assert_eq!(event_kind("message_stop"), StreamEventKind::MessageStop);
    assert_eq!(event_kind("error"), StreamEventKind::Error);
    assert_eq!(event_kind("ping"), StreamEventKind::Unhandled);
    assert_eq!(event_kind(""), StreamEventKind::Unhandled);
}

#[test]
fn usage_of_the_completion_is_the_latest_reported() {
    let mut state = AnthropicStreamState::default();
    let step = state.on_message_start(Some(AnthropicMessageStart {
        id: "first".to_string(),
        usage: Some(usage(3, 1, 2)),
    }));
    assert_eq!(step, StreamStep::Send(ResponseEvent::Created));
    state.on_message_start(Some(AnthropicMessageStart { id: "second".to_string(), usage: None }));
    assert_eq!(state.on_message_delta(Some(usage(100, 7, 100))), StreamStep::Continue);
    assert_eq!(state.on_message_delta(None), StreamStep::Continue);
    assert_eq!(state.total_tokens(), Some(10));
    assert_eq!(
        state.on_poll(StreamPoll::Event(plain("message_stop"))),
        StreamStep::Finish(Ok(ResponseEvent::Completed {
            response_id: "second".to_string(),
            token_usage: Some(TokenUsage {
                input_tokens: 3,
                cached_input_tokens: 2,
                output_tokens: 7,
                reasoning_output_tokens: 0,
                total_tokens: 10,
            }),
            end_turn: Some(true),
        }))
    );
}

#[test]
fn completion_without_an_id_gets_a_general_one() {
    let mut state = AnthropicStreamState::default();
    match state.on_message_stop() {
        StreamStep::Finish(Ok(ResponseEvent::Completed { response_id, token_usage, .. })) => {
            assert_eq!(response_id, "anthropic-message");
            assert_eq!(token_usage.unwrap().total_tokens, 0);
        }
        other => panic!("unexpected step: {other:?}"),
    }
}

#[test]
fn total_that_does_not_fit_is_seen_beforehand() {
    let mut state = AnthropicStreamState::default();
    state.on_message_start(Some(AnthropicMessageStart {
        id: "m".to_string(),
        usage: Some(usage(i64::MAX, 1, 0)),
    }));
    assert_eq!(state.total_tokens(), None);
}

#[test]
fn polls_without_an_event() {
    let mut state = AnthropicStreamState::default();
    assert_eq!(state.on_poll(StreamPoll::Undecodable), StreamStep::Continue);
    assert_eq!(state.on_poll(StreamPoll::Event(plain("ping"))), StreamStep::Continue);
    let error = |message: &str| StreamStep::Finish(Err(ApiError::Stream(message.to_string())));
    assert_eq!(state.on_poll(StreamPoll::Failed("broken".to_string())), error("broken"));
    assert_eq!(state.on_poll(StreamPoll::Closed), error("stream closed before message_stop"));
    assert_eq!(state.on_poll(StreamPoll::IdleTimeout), error("idle timeout waiting for SSE"));
}

#[test]
fn reader_that_hangs_up_stops_the_stream() {
    assert!(StreamStep::Continue.continues(true));
    assert!(StreamStep::Continue.continues(false));
    assert!(StreamStep::Send(ResponseEvent::Created).continues(true));
    assert!(!StreamStep::Send(ResponseEvent::Created).continues(false));
    let finish = StreamStep::Finish(Err(ApiError::Stream(String::new())));
    assert!(!finish.continues(true));
    assert!(!finish.continues(false));
}

#[test]
fn deltas_only_extend_blocks_of_their_kind() {
    let mut state = AnthropicStreamState::default();
    state.put_block(0, AnthropicBlock::Text("a".to_string()));
    state.put_block(1, tool("{"));
    state.put_block(2, AnthropicBlock::Other);
    assert_eq!(state.on_block_delta(0, Some(input_delta("x"))), StreamStep::Continue);
    assert_eq!(state.on_block_delta(1, Some(text_delta(Some("x")))), StreamStep::Continue);
    assert_eq!(state.on_block_delta(1, Some(input_delta("}"))), StreamStep::Continue);
    assert_eq!(state.on_block_delta(2, Some(text_delta(Some("x")))), StreamStep::Continue);
    assert_eq!(state.on_block_delta(3, Some(text_delta(Some("x")))), StreamStep::Continue);
    assert_eq!(state.on_block_delta(0, None), StreamStep::Continue);
    assert_eq!(
        state.on_block_delta(0, Some(text_delta(None))),
        StreamStep::Send(ResponseEvent::OutputTextDelta(String::new()))
    );
    assert_eq!(
        state.on_block_delta(0, Some(text_delta(Some("b")))),
        StreamStep::Send(ResponseEvent::OutputTextDelta("b".to_string()))
    );
    assert_eq!(state.take_block(0), Some(AnthropicBlock::Text("ab".to_string())));
    assert_eq!(state.take_block(0), None);
    assert_eq!(state.take_block(1), Some(tool("{}")));
    assert_eq!(state.take_block(2), Some(AnthropicBlock::Other));
    assert_eq!(state.take_block(3), None);
}

#[test]
fn closing_a_block_yields_its_entry_once() {
    let mut state = AnthropicStreamState::default();
    state.put_block(4, tool("{\"q\":1}"));
    assert_eq!(
        state.on_block_stop(4),
        StreamStep::Send(ResponseEvent::OutputItemDone(call("{\"q\":1}")))
    );
    assert_eq!(state.on_block_stop(4), StreamStep::Continue);
    state.put_block(4, AnthropicBlock::Other);
    assert_eq!(state.on_block_stop(4), StreamStep::Continue);
}

#[test]
fn reopened_block_starts_over() {
    let mut state = AnthropicStreamState::default();
    state.put_block(0, AnthropicBlock::Text("old".to_string()));
    let mut start = plain("content_block_start");
    start.content_block = Some(AnthropicContentBlock::Text { text: "new".to_string() });
    assert_eq!(state.on_event(start), StreamStep::Continue);
    assert_eq!(state.take_block(0), Some(AnthropicBlock::Text("new".to_string())));
}

#[test]
fn block_start_without_content_opens_an_ignored_block() {
    assert_eq!(open_block(None), AnthropicBlock::Other);
    assert_eq!(open_block(Some(AnthropicContentBlock::Other)), AnthropicBlock::Other);
}

#[test]
fn starting_input_of_tool_calls() {
    assert_eq!(starting_input_json(&json("null")), "");
    assert_eq!(starting_input_json(&json("{}")), "");
    assert_eq!(starting_input_json(&json("{ \"b\" : [1, true], \"a\" : \"x\" }")), "{\"a\":\"x\",\"b\":[1,true]}");
    assert_eq!(starting_input_json(&json("[]")), "[]");
    assert_eq!(starting_input_json(&json("\"\"")), "\"\"");
    assert_eq!(
        open_block(Some(AnthropicContentBlock::ToolUse {
            id: "toolu_1".to_string(),
            name: "lookup".to_string(),
            input: json("{\"q\": 1}"),
        })),
        tool("{\"q\":1}")
    );
}

#[test]
fn blank_arguments_become_an_empty_object() {
    assert_eq!(block_to_response_item(tool("")), Some(call("{}")));
    assert_eq!(block_to_response_item(tool(" \t\r\n\u{a0}\u{2003}\u{3000}")), Some(call("{}")));
    assert_eq!(block_to_response_item(tool(" 1 ")), Some(call(" 1 ")));
    assert_eq!(block_to_response_item(tool("\u{200b}")), Some(call("\u{200b}")));
    assert_eq!(block_to_response_item(AnthropicBlock::Other), None);
}

#[test]
fn error_messages() {
    assert_eq!(stream_error_message(None), "Anthropic stream error");
    let error = |message: &str| Some(AnthropicError { message: message.to_string() });
    assert_eq!(stream_error_message(error("")), "Anthropic stream error");
    assert_eq!(stream_error_message(error("overloaded")), "overloaded");
}

#[test]
fn request_id_is_the_first_textual_value() {
    let mut headers = HeaderMap::new();
    assert_eq!(upstream_request_id(&headers), None);
    headers.insert("Request-Id", HeaderValue::from_static("req_1"));
    headers.append("request-id", HeaderValue::from_static("req_2"));
    headers.insert("x-request-id", HeaderValue::from_static("other"));
    assert_eq!(upstream_request_id(&headers), Some("req_1".to_string()));
    headers.insert("request-id", HeaderValue::from_bytes(b"req\t 3~").unwrap());
    assert_eq!(upstream_request_id(&headers), Some("req\t 3~".to_string()));
    headers.insert("request-id", HeaderValue::from_bytes(b"req\xff").unwrap());
    assert_eq!(upstream_request_id(&headers), None);
}

fn block_start(index: usize, content: AnthropicContentBlock) -> StreamPoll {
    let mut event = plain("content_block_start");
    event.index = Some(index);
    event.content_block = Some(content);
    StreamPoll::Event(event)
}

fn block_delta(index: usize, delta: AnthropicDelta) -> StreamPoll {
    let mut event = plain("content_block_delta");
    event.index = Some(index);
    event.delta = Some(delta);
    StreamPoll::Event(event)
}

fn block_stop(index: usize) -> StreamPoll {
    let mut event = plain("content_block_stop");
    event.index = Some(index);
    StreamPoll::Event(event)
}

fn message_start(id: &str) -> StreamPoll {
    let mut event = plain("message_start");
    event.message = Some(AnthropicMessageStart { id: id.to_string(), usage: None });
    StreamPoll::Event(event)
}

/// What reaches a reader that keeps listening, until the stream finishes.
fn received(polls: Vec<StreamPoll>) -> Vec<Result<ResponseEvent, ApiError>> {
    let mut state = AnthropicStreamState::default();
    let mut sent = Vec::new();
    for poll in polls {
        match state.on_poll(poll) {
            StreamStep::Continue => {}
            StreamStep::Send(event) => sent.push(Ok(event)),
            StreamStep::Finish(last) => {
                sent.push(last);
                break;
            }
        }
    }
    sent
}

fn delta_sent(text: &str) -> Result<ResponseEvent, ApiError> {
    Ok(ResponseEvent::OutputTextDelta(text.to_string()))
}

fn tool_start(index: usize) -> StreamPoll {
    block_start(
        index,
        AnthropicContentBlock::ToolUse {
            id: "toolu_1".to_string(),
            name: "lookup".to_string(),
            input: json("{}"),
        },
    )
}

fn text_start(index: usize) -> StreamPoll {
    block_start(index, AnthropicContentBlock::Text { text: String::new() })
}

#[test]
fn only_the_end_of_the_message_reports_a_total() {
    assert!(StreamPoll::Event(plain("message_stop")).reports_total());
    assert!(!StreamPoll::Event(plain("message_delta")).reports_total());
    assert!(!StreamPoll::Event(plain("message_stop ")).reports_total());
    assert!(!StreamPoll::Undecodable.reports_total());
    assert!(!StreamPoll::Failed("message_stop".to_string()).reports_total());
    assert!(!StreamPoll::Closed.reports_total());
    assert!(!StreamPoll::IdleTimeout.reports_total());
}

#[test]
fn interleaved_blocks_send_the_text_deltas_in_order() {
    let sent = received(vec![
        text_start(0),
        tool_start(1),
        block_delta(0, text_delta(Some("a"))),
        block_delta(1, input_delta("{\"q\":")),
        block_delta(0, text_delta(Some("b"))),
        block_delta(1, input_delta("1}")),
        block_delta(0, text_delta(Some("a"))),
    ]);
    assert_eq!(sent, vec![delta_sent("a"), delta_sent("b"), delta_sent("a")]);
}

#[test]
fn completion_comes_exactly_with_the_end_of_the_message() {
    let stop = || StreamPoll::Event(plain("message_stop"));
    let completes = |polls: Vec<StreamPoll>| {
        matches!(received(polls).last(), Some(Ok(ResponseEvent::Completed { .. })))
    };
    assert!(completes(vec![message_start("m"), stop()]));
    assert!(completes(vec![stop(), StreamPoll::Closed]));
    assert!(!completes(vec![message_start("m")]));
    assert!(!completes(vec![message_start("m"), StreamPoll::Closed, stop()]));
    assert!(!completes(vec![StreamPoll::Event(plain("error")), stop()]));
    assert!(!completes(vec![StreamPoll::IdleTimeout, stop()]));
    assert!(!completes(vec![StreamPoll::Failed("broken".to_string()), stop()]));
}

#[test]
fn every_message_start_is_announced() {
    let sent = received(vec![
        message_start("first"),
        StreamPoll::Undecodable,
        StreamPoll::Event(plain("message_start")),
        StreamPoll::Closed,
        message_start("late"),
    ]);
    let created = sent.iter().filter(|item| **item == Ok(ResponseEvent::Created)).count();
    assert_eq!(created, 2);
}

#[test]
fn ignored_polls_can_be_left_out_of_a_stream() {
    let kept = || {
        vec![message_start("m"), text_start(0), block_delta(0, text_delta(Some("a"))), block_stop(0)]
    };
    let mut with_ignored = vec![block_delta(0, text_delta(Some("early"))), block_stop(0)];
    for poll in kept() {
        with_ignored.push(StreamPoll::Undecodable);
        with_ignored.push(StreamPoll::Event(plain("ping")));
        with_ignored.push(block_delta(7, text_delta(Some("nowhere"))));
        with_ignored.push(block_stop(7));
        with_ignored.push(poll);
    }
    with_ignored.push(block_stop(0));
    let sent = received(kept());
    assert_eq!(sent.len(), 3);
    assert_eq!(received(with_ignored), sent);
}
