use codex_api::common::{
    ApiError, ContentItem, Reasoning, ReasoningEffort, ResponseItem, ResponsesApiRequest,
};
use codex_api::endpoint::anthropic::{
    AnthropicContent, AnthropicEffort, AnthropicMessage, AnthropicMessagesRequest,
    AnthropicOutputConfig, AnthropicTool, AnthropicToolChoice, accept_event_stream,
    anthropic_output_config, anthropic_tools_from_responses_tools, encoding_error,
    flush_tool_results, push_text, push_tool_use, request_compression, tool_input,
    tool_input_from_arguments,
};
use codex_api::endpoint::laws::request_after_call;
use codex_api::requests::{Compression, RequestCompression};
use codex_api::sse::anthropic::{AnthropicBlock, block_to_response_item};
use codex_api::text::{is_blank, join};
use http::{HeaderMap, HeaderValue};
use serde_json::Value;

fn json(text: &str) -> Value {
    serde_json::from_str(text).unwrap()
}

fn request(input: Vec<ResponseItem>) -> ResponsesApiRequest {
    ResponsesApiRequest {
        model: "deepseek-reasoner".to_string(),
        instructions: String::new(),
        input,
        tools: Vec::new(),
        tool_choice: "auto".to_string(),
        parallel_tool_calls: false,
        reasoning: None,
        store: false,
        stream: true,
        include_fields: Vec::new(),
        service_tier: None,
        prompt_cache_key: None,
        text: None,
        client_metadata: None,
    }
}

fn message(role: &str, texts: &[&str]) -> ResponseItem {
    ResponseItem::Message {
        id: None,
        role: role.to_string(),
        content: texts
            .iter()
            .map(|text| ContentItem::InputText { text: text.to_string() })
            .collect(),
        phase: None,
    }
}

fn call(id: &str, arguments: &str) -> ResponseItem {
    ResponseItem::FunctionCall {
        id: Some("ignored".to_string()),
        name: "lookup".to_string(),
        namespace: None,
        arguments: arguments.to_string(),
        call_id: id.to_string(),
    }
}

fn output(id: &str, output: &str) -> ResponseItem {
    ResponseItem::FunctionCallOutput { call_id: id.to_string(), output: output.to_string() }
}

fn said(role: &str, content: Vec<AnthropicContent>) -> AnthropicMessage {
    AnthropicMessage { role: role.to_string(), content }
}

fn text(text: &str) -> AnthropicContent {
    AnthropicContent::Text { text: text.to_string() }
}

fn used(id: &str, input: Value) -> AnthropicContent {
    AnthropicContent::ToolUse { id: id.to_string(), name: "lookup".to_string(), input }
}

fn result(id: &str, content: &str) -> AnthropicContent {
    AnthropicContent::ToolResult { tool_use_id: id.to_string(), content: content.to_string() }
}

fn messages(input: Vec<ResponseItem>) -> Vec<AnthropicMessage> {
    AnthropicMessagesRequest::from_responses_request(request(input)).unwrap().messages
}

#[test]
fn plain_question() {
    let body = AnthropicMessagesRequest::from_responses_request(request(vec![message(
        "user",
        &["hi"],
    )]))
    .unwrap();
    assert_eq!(
        body,
        AnthropicMessagesRequest {
            model: "deepseek-reasoner".to_string(),
            system: String::new(),
            messages: vec![said("user", vec![text("hi")])],
            tools: Vec::new(),
            tool_choice: None,
            stream: true,
            max_tokens: 4096,
            output_config: None,
        }
    );
}

#[test]
fn full_request() {
    let mut full = request(vec![message("user", &["hi"])]);
    full.instructions = "be brief".to_string();
    full.stream = false;
    full.reasoning = Some(Reasoning { effort: Some(ReasoningEffort::XHigh) });
    full.tools = vec![json(r#"{"type":"function","name":"f","description":"d","parameters":{"x":1}}"#)];
    let body = AnthropicMessagesRequest::from_responses_request(full).unwrap();
    assert_eq!(body.system, "be brief");
    assert!(body.stream);
    assert_eq!(body.tool_choice, Some(AnthropicToolChoice::Auto));
    assert_eq!(body.output_config, Some(AnthropicOutputConfig { effort: AnthropicEffort::High }));
    assert_eq!(
        body.tools,
        vec![AnthropicTool {
            name: "f".to_string(),
            description: "d".to_string(),
            input_schema: json(r#"{"x":1}"#),
        }]
    );
}

#[test]
fn request_without_entries_asks_an_empty_question() {
    let empty = vec![said("user", vec![text("")])];
    assert_eq!(messages(vec![]), empty);
    assert_eq!(messages(vec![ResponseItem::Other, message("user", &[""])]), empty);
}

#[test]
fn texts_are_joined_and_images_left_out() {
    let item = ResponseItem::Message {
        id: None,
        role: "developer".to_string(),
        content: vec![
            ContentItem::InputText { text: "one".to_string() },
            ContentItem::InputImage { image_url: "data:".to_string() },
            ContentItem::OutputText { text: "two".to_string() },
            ContentItem::InputText { text: String::new() },
        ],
        phase: Some("commentary".to_string()),
    };
    assert_eq!(messages(vec![item]), vec![said("user", vec![text("one\ntwo\n")])]);
    assert_eq!(
        messages(vec![message("assistant", &["ok"])]),
        vec![said("assistant", vec![text("ok")])]
    );
    // Two empty texts still make a line break.
    assert_eq!(messages(vec![message("user", &["", ""])]), vec![said("user", vec![text("\n")])]);
}

#[test]
fn conversation_keeps_its_order() {
    let sent = messages(vec![
        message("user", &["go"]),
        call("a", r#"{"q": 1}"#),
        call("b", "not json"),
        output("a", "ra"),
        ResponseItem::Other,
        output("b", "rb"),
        message("assistant", &["done"]),
        output("c", "rc"),
    ]);
    assert_eq!(
        sent,
        vec![
            said("user", vec![text("go")]),
            said("assistant", vec![used("a", json(r#"{"q":1}"#))]),
            said("assistant", vec![used("b", Value::String("not json".to_string()))]),
            said("user", vec![result("a", "ra"), result("b", "rb")]),
            said("assistant", vec![text("done")]),
            said("user", vec![result("c", "rc")]),
        ]
    );
}

#[test]
fn message_without_text_parts_tool_results() {
    let sent = messages(vec![output("a", "ra"), message("user", &[]), output("b", "rb")]);
    assert_eq!(
        sent,
        vec![said("user", vec![result("a", "ra")]), said("user", vec![result("b", "rb")])]
    );
}

#[test]
fn tool_inputs() {
    assert_eq!(tool_input(Some(json("[1]")), "[2]".to_string()), json("[1]"));
    assert_eq!(tool_input(None, "x".to_string()), Value::String("x".to_string()));
    assert_eq!(tool_input_from_arguments("{}".to_string()), json("{}"));
    assert_eq!(tool_input_from_arguments(" \"s\" ".to_string()), Value::String("s".to_string()));
    assert_eq!(tool_input_from_arguments("".to_string()), Value::String(String::new()));
    assert_eq!(tool_input_from_arguments("{} x".to_string()), Value::String("{} x".to_string()));
}

#[test]
fn flushing_twice_is_flushing_once() {
    let mut sent = Vec::new();
    let mut pending = vec![result("a", "ra"), result("b", "rb")];
    flush_tool_results(&mut sent, &mut pending);
    flush_tool_results(&mut sent, &mut pending);
    assert_eq!(sent, vec![said("user", vec![result("a", "ra"), result("b", "rb")])]);
    assert!(pending.is_empty());
}

#[test]
fn pushing_sends_results_ahead() {
    let mut sent = Vec::new();
    let mut pending = vec![result("a", "ra")];
    push_tool_use(&mut sent, &mut pending, "b".to_string(), "lookup".to_string(), Value::Null);
    pending.push(result("b", "rb"));
    push_text(&mut sent, &mut pending, "system", String::new());
    push_text(&mut sent, &mut pending, "system", "x".to_string());
    assert!(pending.is_empty());
    assert_eq!(
        sent,
        vec![
            said("user", vec![result("a", "ra")]),
            said("assistant", vec![used("b", Value::Null)]),
            said("user", vec![result("b", "rb")]),
            said("user", vec![text("x")]),
        ]
    );
}

#[test]
fn only_named_functions_become_tools() {
    let tools = anthropic_tools_from_responses_tools(vec![
        json(r#"{"type":"web_search"}"#),
        json(r#"{"type":"function","name":"a"}"#),
        json(r#"{"type":"function"}"#),
        json(r#"{"type":"function","name":7}"#),
        json(r#"{"name":"b"}"#),
        json(r#"["function"]"#),
        json("null"),
        json(r#"{"type":"function","name":"c","description":3,"parameters":null}"#),
    ]);
    assert_eq!(
        tools,
        vec![
            AnthropicTool {
                name: "a".to_string(),
                description: String::new(),
                input_schema: json(r#"{"type":"object"}"#),
            },
            AnthropicTool {
                name: "c".to_string(),
                description: String::new(),
                input_schema: Value::Null,
            },
        ]
    );
}

#[test]
fn tools_of_a_list_are_those_of_its_parts() {
    let first = || vec![json(r#"{"type":"function","name":"a"}"#), json("1")];
    let second = || vec![json("2"), json(r#"{"type":"function","name":"b"}"#)];
    let mut all = first();
    all.extend(second());
    let mut parts = anthropic_tools_from_responses_tools(first());
    parts.extend(anthropic_tools_from_responses_tools(second()));
    assert_eq!(parts.len(), 2);
    assert_eq!(anthropic_tools_from_responses_tools(all), parts);
}

#[test]
fn streamed_blocks_are_replayed() {
    let streamed = vec![
        block_to_response_item(AnthropicBlock::Text("hello\nthere".to_string())).unwrap(),
        block_to_response_item(AnthropicBlock::ToolUse {
            id: "toolu_1".to_string(),
            name: "lookup".to_string(),
            input_json: "{\"q\":[1,2]}".to_string(),
        })
        .unwrap(),
        block_to_response_item(AnthropicBlock::ToolUse {
            id: "toolu_2".to_string(),
            name: "lookup".to_string(),
            input_json: " ".to_string(),
        })
        .unwrap(),
    ];
    assert_eq!(
        messages(streamed),
        vec![
            said("assistant", vec![text("hello\nthere")]),
            said("assistant", vec![used("toolu_1", json("{\"q\":[1,2]}"))]),
            said("assistant", vec![used("toolu_2", json("{}"))]),
        ]
    );
}

#[test]
fn efforts() {
    let config = |effort| anthropic_output_config(Reasoning { effort });
    let some = |effort| Some(AnthropicOutputConfig { effort });
    assert_eq!(config(None), None);
    assert_eq!(config(Some(ReasoningEffort::Off)), None);
    assert_eq!(config(Some(ReasoningEffort::Minimal)), some(AnthropicEffort::Minimal));
    assert_eq!(config(Some(ReasoningEffort::Low)), some(AnthropicEffort::Low));
    assert_eq!(config(Some(ReasoningEffort::Medium)), some(AnthropicEffort::Medium));
    assert_eq!(config(Some(ReasoningEffort::High)), some(AnthropicEffort::High));
    assert_eq!(config(Some(ReasoningEffort::XHigh)), some(AnthropicEffort::High));
}

#[test]
fn accept_header_is_replaced() {
    let mut headers = HeaderMap::new();
    headers.append("accept", HeaderValue::from_static("application/json"));
    headers.append("accept", HeaderValue::from_static("text/plain"));
    headers.insert("x-other", HeaderValue::from_static("kept"));
    assert!(accept_event_stream(&mut headers));
    let values: Vec<&HeaderValue> = headers.get_all("accept").iter().collect();
    assert_eq!(values, vec!["text/event-stream"]);
    assert_eq!(headers.get("x-other").unwrap(), "kept");
    assert_eq!(headers.len(), 2);
}

#[test]
fn compression_and_encoding_error() {
    assert_eq!(request_compression(Compression::Off), RequestCompression::Off);
    assert_eq!(request_compression(Compression::Zstd), RequestCompression::Zstd);
    assert_eq!(
        encoding_error("too deep"),
        ApiError::Stream("failed to encode anthropic messages request: too deep".to_string())
    );
}

#[test]
fn joining_and_blankness() {
    let parts = |list: &[&str]| list.iter().map(|part| part.to_string()).collect::<Vec<_>>();
    assert_eq!(join(&parts(&[]), ", "), "");
    assert_eq!(join(&parts(&["a"]), ", "), "a");
    assert_eq!(join(&parts(&["a", "", "b"]), ", "), "a, , b");
    assert!(is_blank(""));
    assert!(is_blank(" \n"));
    assert!(!is_blank(" x "));
}

#[test]
fn white_space_is_what_the_standard_library_takes_for_it() {
    for c in '\0'..=char::MAX {
        let listed = ('\u{9}'..='\u{d}').contains(&c)
            || ('\u{2000}'..='\u{200a}').contains(&c)
            || " \u{85}\u{a0}\u{1680}\u{2028}\u{2029}\u{202f}\u{205f}\u{3000}".contains(c);
        assert_eq!(is_blank(c.encode_utf8(&mut [0; 4])), listed);
    }
}

fn replayed(input: &Value, in_deltas: bool) -> Vec<AnthropicMessage> {
    let earlier = request(vec![message("user", &["earlier"])]);
    let (id, name) = ("toolu_1".to_string(), "lookup".to_string());
    request_after_call(earlier, id, name, input.clone(), in_deltas).unwrap().messages
}

#[test]
fn streamed_call_is_sent_back_with_its_input() {
    let inputs = [
        "{}",
        r#"{"q":1}"#,
        r#"{"":{},"a":[null,true,-9223372036854775808,18446744073709551615,"\u0000\"\n\ud83d\ude00"]}"#,
        r#" { "b" : [ ] , "a" : "x" } "#,
    ];
    for input in inputs {
        let input = json(input);
        let expected = vec![said("assistant", vec![used("toolu_1", input.clone())])];
        assert_eq!(replayed(&input, false), expected);
        assert_eq!(replayed(&input, true), expected);
    }
}

#[test]
fn deepest_input_that_is_sent_back_unchanged() {
    let object_of = |value: Value| {
        let mut fields = serde_json::Map::new();
        fields.insert("a".to_string(), value);
        Value::Object(fields)
    };
    let mut deepest = json("[]");
    for _ in 0..125 {
        deepest = Value::Array(vec![deepest]);
    }
    deepest = object_of(deepest);
    let too_deep = object_of(deepest.clone());
    let as_text = Value::String(too_deep.to_string());
    for in_deltas in [false, true] {
        assert_eq!(
            replayed(&deepest, in_deltas),
            vec![said("assistant", vec![used("toolu_1", deepest.clone())])]
        );
        assert_eq!(
            replayed(&too_deep, in_deltas),
            vec![said("assistant", vec![used("toolu_1", as_text.clone())])]
        );
    }
}

#[test]
fn input_that_is_no_object_is_sent_back_too() {
    assert_eq!(
        replayed(&json("[1]"), true),
        vec![said("assistant", vec![used("toolu_1", json("[1]"))])]
    );
    assert_eq!(
        replayed(&Value::Null, false),
        vec![said("assistant", vec![used("toolu_1", json("{}"))])]
    );
    assert_eq!(
        replayed(&Value::Null, true),
        vec![said("assistant", vec![used("toolu_1", Value::Null)])]
    );
}

#[test]
fn results_share_a_message_unless_parted() {
    let shared = messages(vec![output("a", "ra"), ResponseItem::Other, output("b", "rb")]);
    assert_eq!(shared, vec![said("user", vec![result("a", "ra"), result("b", "rb")])]);
    let parted = messages(vec![output("a", "ra"), call("c", "{}"), output("b", "rb")]);
    assert_eq!(
        parted,
        vec![
            said("user", vec![result("a", "ra")]),
            said("assistant", vec![used("c", json("{}"))]),
            said("user", vec![result("b", "rb")]),
        ]
    );
}

#[test]
fn no_more_messages_than_entries() {
    assert_eq!(messages(vec![]).len(), 1);
    assert_eq!(messages(vec![ResponseItem::Other]).len(), 1);
    assert_eq!(messages(vec![message("user", &["a"]), call("c", "{}"), output("c", "r")]).len(), 3);
    assert_eq!(messages(vec![output("a", "ra"), output("b", "rb"), output("c", "rc")]).len(), 1);
}
