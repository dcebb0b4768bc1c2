//! The Anthropic message stream as a state machine.
//!
//! Every poll of the underlying stream is one [`StreamPoll`]. [`AnthropicStreamState::on_poll`]
//! takes it, updates the state and answers with the [`StreamStep`] to carry out: go on polling,
//! send an event to the reader, or send a last outcome and stop.
use crate::common::{
    ApiError, ApiErrorView, ContentItem, ContentItemView, ResponseEvent, ResponseEventView,
    ResponseItem, ResponseItemView, TokenUsage, content_views, outcome_view,
};
use crate::headers::{
    ascii_text, first_header, header_contents, is_header_text, is_lower_name,
};
use crate::json::{
    JsonShape, json_object, json_parsed, json_shape, json_text, object_fields, reads_back,
    value_text,
};
use crate::sse::laws::law_event_names;
use crate::text::{blank, is_blank, is_exactly, is_white_space, optional_text};
use http::HeaderMap;
use serde_json::Value;
use std::collections::HashMap;
use vstd::prelude::*;

verus! {

/// The header under which the server names the request.
pub const REQUEST_ID_HEADER: &'static str = "request-id";

/// The first value under a name, if there is one and it is text.
pub open spec fn header_text(contents: Map<Seq<char>, Seq<Seq<u8>>>, name: Seq<char>) -> Option<
    Seq<char>,
> {
    if contents.contains_key(name) && contents[name].len() > 0 && is_header_text(
        contents[name][0],
    ) {
        Some(ascii_text(contents[name][0]))
    } else {
        None
    }
}

/// The id that the server gave the request, if the response headers carry it as text.
pub fn upstream_request_id(headers: &HeaderMap) -> (r: Option<String>)
    ensures
        optional_text(r) == header_text(header_contents(*headers), "request-id"@),
        ({
            let contents = header_contents(*headers);
            match r {
                Some(id) => {
                    &&& contents.contains_key("request-id"@)
                    &&& contents["request-id"@].len() > 0
                    &&& is_header_text(contents["request-id"@].first())
                    &&& id@ == ascii_text(contents["request-id"@].first())
                },
                None => contents.contains_key("request-id"@) ==> contents["request-id"@].len() == 0
                    || !is_header_text(contents["request-id"@].first()),
            }
        }),
{
    proof {
        reveal_strlit("request-id");
        assert(is_lower_name("request-id"@));
    }
    match first_header(headers, REQUEST_ID_HEADER) {
        Some(value) => match value.to_str() {
            Ok(text) => Some(text.to_owned()),
            Err(_) => None,
        },
        None => None,
    }
}

/// One decoded event of the stream.
#[derive(Debug, PartialEq, Eq)]
pub struct AnthropicStreamEvent {
    pub kind: String,
    pub message: Option<AnthropicMessageStart>,
    pub content_block: Option<AnthropicContentBlock>,
    pub delta: Option<AnthropicDelta>,
    pub index: Option<usize>,
    pub usage: Option<AnthropicUsage>,
    pub error: Option<AnthropicError>,
}

#[derive(Debug, PartialEq, Eq)]
pub struct AnthropicMessageStart {
    pub id: String,
    pub usage: Option<AnthropicUsage>,
}

#[derive(Debug, Clone, Copy, PartialEq, Eq)]
pub struct AnthropicUsage {
    pub input_tokens: i64,
    pub output_tokens: i64,
    pub cache_read_input_tokens: i64,
}

#[derive(Debug, PartialEq, Eq)]
pub struct AnthropicError {
    pub message: String,
}

/// The content block that a `content_block_start` event opens.
#[derive(Debug, PartialEq, Eq)]
pub enum AnthropicContentBlock {
    Text { text: String },
    ToolUse { id: String, name: String, input: Value },
    Other,
}

#[derive(Debug, PartialEq, Eq)]
pub struct AnthropicDelta {
    pub kind: Option<String>,
    pub text: Option<String>,
    pub partial_json: Option<String>,
    pub stop_reason: Option<String>,
}

pub struct AnthropicStreamEventView {
    pub kind: Seq<char>,
    pub message: Option<AnthropicMessageStartView>,
    pub content_block: Option<AnthropicContentBlockView>,
    pub delta: Option<AnthropicDeltaView>,
    pub index: Option<usize>,
    pub usage: Option<AnthropicUsage>,
    pub error: Option<Seq<char>>,
}

pub struct AnthropicMessageStartView {
    pub id: Seq<char>,
    pub usage: Option<AnthropicUsage>,
}

pub enum AnthropicContentBlockView {
    Text { text: Seq<char> },
    ToolUse { id: Seq<char>, name: Seq<char>, input: Value },
    Other,
}

pub struct AnthropicDeltaView {
    pub kind: Option<Seq<char>>,
    pub text: Option<Seq<char>>,
    pub partial_json: Option<Seq<char>>,
    pub stop_reason: Option<Seq<char>>,
}

impl View for AnthropicMessageStart {
    type V = AnthropicMessageStartView;

    open spec fn view(&self) -> AnthropicMessageStartView {
        AnthropicMessageStartView { id: self.id@, usage: self.usage }
    }
}

impl View for AnthropicContentBlock {
    type V = AnthropicContentBlockView;

    open spec fn view(&self) -> AnthropicContentBlockView {
        match self {
            AnthropicContentBlock::Text { text } => AnthropicContentBlockView::Text { text: text@ },
            AnthropicContentBlock::ToolUse {
                id,
                name,
                input,
            } => AnthropicContentBlockView::ToolUse { id: id@, name: name@, input: *input },
            AnthropicContentBlock::Other => AnthropicContentBlockView::Other,
        }
    }
}

impl View for AnthropicDelta {
    type V = AnthropicDeltaView;

    open spec fn view(&self) -> AnthropicDeltaView {
        AnthropicDeltaView {
            kind: optional_text(self.kind),
            text: optional_text(self.text),
            partial_json: optional_text(self.partial_json),
            stop_reason: optional_text(self.stop_reason),
        }
    }
}

/// The view of an optional message start.
pub open spec fn message_view(message: Option<AnthropicMessageStart>) -> Option<
    AnthropicMessageStartView,
> {
    match message {
        Some(message) => Some(message@),
        None => None,
    }
}

/// The view of an optional content block.
pub open spec fn content_block_view(block: Option<AnthropicContentBlock>) -> Option<
    AnthropicContentBlockView,
> {
    match block {
        Some(block) => Some(block@),
        None => None,
    }
}

/// The view of an optional delta.
pub open spec fn delta_view(delta: Option<AnthropicDelta>) -> Option<AnthropicDeltaView> {
    match delta {
        Some(delta) => Some(delta@),
        None => None,
    }
}

/// The message of an optional error.
pub open spec fn error_view(error: Option<AnthropicError>) -> Option<Seq<char>> {
    match error {
        Some(error) => Some(error.message@),
        None => None,
    }
}

impl View for AnthropicStreamEvent {
    type V = AnthropicStreamEventView;

    open spec fn view(&self) -> AnthropicStreamEventView {
        AnthropicStreamEventView {
            kind: self.kind@,
            message: message_view(self.message),
            content_block: content_block_view(self.content_block),
            delta: delta_view(self.delta),
            index: self.index,
            usage: self.usage,
            error: error_view(self.error),
        }
    }
}

/// A content block that is still being streamed.
#[derive(Debug, PartialEq, Eq)]
pub enum AnthropicBlock {
    Text(String),
    ToolUse { id: String, name: String, input_json: String },
    Other,
}

pub enum AnthropicBlockView {
    Text(Seq<char>),
    ToolUse { id: Seq<char>, name: Seq<char>, input_json: Seq<char> },
    Other,
}

impl View for AnthropicBlock {
    type V = AnthropicBlockView;

    open spec fn view(&self) -> AnthropicBlockView {
        match self {
            AnthropicBlock::Text(text) => AnthropicBlockView::Text(text@),
            AnthropicBlock::ToolUse { id, name, input_json } => AnthropicBlockView::ToolUse {
                id: id@,
                name: name@,
                input_json: input_json@,
            },
            AnthropicBlock::Other => AnthropicBlockView::Other,
        }
    }
}

/// What the stream has reported so far: the response id, the blocks that are open, by index, and
/// the latest token counts.
#[derive(Debug)]
pub struct AnthropicStreamState {
    response_id: Option<String>,
    blocks: HashMap<usize, AnthropicBlock>,
    input_tokens: i64,
    output_tokens: i64,
    cached_input_tokens: i64,
}

pub struct AnthropicStreamStateView {
    pub response_id: Option<Seq<char>>,
    pub blocks: Map<usize, AnthropicBlockView>,
    pub input_tokens: i64,
    pub output_tokens: i64,
    pub cached_input_tokens: i64,
}

impl View for AnthropicStreamState {
    type V = AnthropicStreamStateView;

    closed spec fn view(&self) -> AnthropicStreamStateView {
        AnthropicStreamStateView {
            response_id: optional_text(self.response_id),
            blocks: self.blocks@.map_values(|block: AnthropicBlock| block@),
            input_tokens: self.input_tokens,
            output_tokens: self.output_tokens,
            cached_input_tokens: self.cached_input_tokens,
        }
    }
}

/// What one poll of the stream came back with.
#[derive(Debug, PartialEq, Eq)]
pub enum StreamPoll {
    /// An event whose data was decoded.
    Event(AnthropicStreamEvent),
    /// An event whose data is not a decodable stream event.
    Undecodable,
    /// The stream failed, with this description.
    Failed(String),
    /// The stream ended.
    Closed,
    /// Nothing arrived within the idle timeout.
    IdleTimeout,
}

pub enum StreamPollView {
    Event(AnthropicStreamEventView),
    Undecodable,
    Failed(Seq<char>),
    Closed,
    IdleTimeout,
}

impl View for StreamPoll {
    type V = StreamPollView;

    open spec fn view(&self) -> StreamPollView {
        match self {
            StreamPoll::Event(event) => StreamPollView::Event(event@),
            StreamPoll::Undecodable => StreamPollView::Undecodable,
            StreamPoll::Failed(description) => StreamPollView::Failed(description@),
            StreamPoll::Closed => StreamPollView::Closed,
            StreamPoll::IdleTimeout => StreamPollView::IdleTimeout,
        }
    }
}

/// What to do after a poll.
#[derive(Debug, PartialEq, Eq)]
pub enum StreamStep {
    /// Send nothing and poll again.
    Continue,
    /// Send the event, and poll again if the reader took it.
    Send(ResponseEvent),
    /// Send the outcome and stop.
    Finish(Result<ResponseEvent, ApiError>),
}

pub enum StreamStepView {
    Continue,
    Send(ResponseEventView),
    Finish(Result<ResponseEventView, ApiErrorView>),
}

impl View for StreamStep {
    type V = StreamStepView;

    open spec fn view(&self) -> StreamStepView {
        match self {
            StreamStep::Continue => StreamStepView::Continue,
            StreamStep::Send(event) => StreamStepView::Send(event@),
            StreamStep::Finish(outcome) => StreamStepView::Finish(outcome_view(*outcome)),
        }
    }
}

/// Whether polling goes on after a step, given whether the reader took what was sent.
pub open spec fn goes_on(step: StreamStepView, delivered: bool) -> bool {
    match step {
        StreamStepView::Continue => true,
        StreamStepView::Send(_) => delivered,
        StreamStepView::Finish(_) => false,
    }
}

impl StreamStep {
    /// Whether polling goes on after this step. `delivered` says whether the reader took what the
    /// step sent; a step that sends nothing does not look at it.
    pub fn continues(&self, delivered: bool) -> (r: bool)
        ensures
            r == goes_on(self@, delivered),
            self is Continue ==> r,
            self is Send ==> r == delivered,
            self is Finish ==> !r,
    {
        match self {
            StreamStep::Continue => true,
            StreamStep::Send(_) => delivered,
            StreamStep::Finish(_) => false,
        }
    }
}

/// The kinds of events that the stream acts on.
#[derive(Debug, Clone, Copy, PartialEq, Eq)]
pub enum StreamEventKind {
    MessageStart,
    ContentBlockStart,
    ContentBlockDelta,
    ContentBlockStop,
    MessageDelta,
    MessageStop,
    Error,
    Unhandled,
}

/// The kind that an event's type name stands for.
pub open spec fn kind_of(name: Seq<char>) -> StreamEventKind {
    if name == "message_start"@ {
        StreamEventKind::MessageStart
    } else if name == "content_block_start"@ {
        StreamEventKind::ContentBlockStart
    } else if name == "content_block_delta"@ {
        StreamEventKind::ContentBlockDelta
    } else if name == "content_block_stop"@ {
        StreamEventKind::ContentBlockStop
    } else if name == "message_delta"@ {
        StreamEventKind::MessageDelta
    } else if name == "message_stop"@ {
        StreamEventKind::MessageStop
    } else if name == "error"@ {
        StreamEventKind::Error
    } else {
        StreamEventKind::Unhandled
    }
}

/// Recognises an event's type name.
pub fn event_kind(name: &str) -> (r: StreamEventKind)
    ensures
        r == kind_of(name@),
{
    if *name == *"message_start" {
        StreamEventKind::MessageStart
    } else if *name == *"content_block_start" {
        StreamEventKind::ContentBlockStart
    } else if *name == *"content_block_delta" {
        StreamEventKind::ContentBlockDelta
    } else if *name == *"content_block_stop" {
        StreamEventKind::ContentBlockStop
    } else if *name == *"message_delta" {
        StreamEventKind::MessageDelta
    } else if *name == *"message_stop" {
        StreamEventKind::MessageStop
    } else if *name == *"error" {
        StreamEventKind::Error
    } else {
        StreamEventKind::Unhandled
    }
}

/// The state before the first poll.
pub open spec fn initial_state() -> AnthropicStreamStateView {
    AnthropicStreamStateView {
        response_id: None,
        blocks: Map::empty(),
        input_tokens: 0,
        output_tokens: 0,
        cached_input_tokens: 0,
    }
}

impl Default for AnthropicStreamState {
    fn default() -> (r: Self)
        ensures
            r@ == initial_state(),
            r@.response_id is None,
            r@.blocks == Map::<usize, AnthropicBlockView>::empty(),
            r@.input_tokens == 0 && r@.output_tokens == 0 && r@.cached_input_tokens == 0,
    {
        let r = AnthropicStreamState {
            response_id: None,
            blocks: HashMap::new(),
            input_tokens: 0,
            output_tokens: 0,
            cached_input_tokens: 0,
        };
        assert(r@.blocks =~= Map::empty());
        r
    }
}

/// The state after a `message_start` event.
pub open spec fn message_started(
    state: AnthropicStreamStateView,
    message: Option<AnthropicMessageStartView>,
) -> AnthropicStreamStateView {
    match message {
        None => state,
        Some(message) => match message.usage {
            None => AnthropicStreamStateView { response_id: Some(message.id), ..state },
            Some(usage) => AnthropicStreamStateView {
                response_id: Some(message.id),
                input_tokens: usage.input_tokens,
                cached_input_tokens: usage.cache_read_input_tokens,
                output_tokens: usage.output_tokens,
                ..state
            },
        },
    }
}

/// The JSON text with which a tool call's input starts: none for `null` and for an object without
/// fields, since both only announce that the input follows in deltas.
pub open spec fn starting_input(input: Value) -> Seq<char> {
    match json_shape(input) {
        JsonShape::Null => Seq::empty(),
        JsonShape::Object(fields) => if fields.is_empty() {
            Seq::empty()
        } else {
            json_text(input)
        },
        _ => json_text(input),
    }
}

/// Nothing is lost of an input that comes complete with the start of its tool call: the finished
/// call's arguments read as the input again, and only `null` and the object without fields start
/// empty.
pub open spec fn start_is_faithful(input: Value) -> bool {
    &&& starting_input(input).len() > 0 ==> call_arguments(starting_input(input))
        == starting_input(input)
    &&& starting_input(input).len() > 0 && reads_back(input) ==> json_parsed(
        call_arguments(starting_input(input)),
    ) == Some(input)
    &&& starting_input(input).len() == 0 ==> json_shape(input) is Null || input == json_object(
        Map::empty(),
    )
}

/// The JSON text with which a tool call's input starts. Where it is not empty and nothing is
/// added to it, it is the arguments of the finished call.
pub fn starting_input_json(input: &Value) -> (r: String)
    ensures
        r@ == starting_input(*input),
        start_is_faithful(*input),
        match json_shape(*input) {
            JsonShape::Null => r@.len() == 0,
            JsonShape::Object(fields) => if fields.dom().is_empty() {
                r@.len() == 0
            } else {
                r@ == json_text(*input)
            },
            _ => r@ == json_text(*input),
        },
{
    if input.is_null() {
        return String::new();
    }
    if let Some(object) = input.as_object() {
        if object.is_empty() {
            assert(object_fields(*object) =~= Map::empty());
            return String::new();
        }
    }
    value_text(input)
}

/// The block that a `content_block_start` event opens.
pub open spec fn opened_block(content: Option<AnthropicContentBlockView>) -> AnthropicBlockView {
    match content {
        Some(AnthropicContentBlockView::Text { text }) => AnthropicBlockView::Text(text),
        Some(AnthropicContentBlockView::ToolUse { id, name, input }) => {
            AnthropicBlockView::ToolUse { id, name, input_json: starting_input(input) }
        },
        Some(AnthropicContentBlockView::Other) => AnthropicBlockView::Other,
        None => AnthropicBlockView::Other,
    }
}

/// Builds the block that a `content_block_start` event opens.
pub fn open_block(content: Option<AnthropicContentBlock>) -> (r: AnthropicBlock)
    ensures
        r@ == opened_block(content_block_view(content)),
        content matches Some(AnthropicContentBlock::ToolUse { input, .. }) ==> start_is_faithful(
            input,
        ),
        match content {
            Some(AnthropicContentBlock::Text { text }) => r matches AnthropicBlock::Text(held)
                && held@ == text@,
            Some(
                AnthropicContentBlock::ToolUse { id, name, input },
            ) => r matches AnthropicBlock::ToolUse { id: held_id, name: held_name, input_json }
                && held_id@ == id@ && held_name@ == name@ && (match json_shape(input) {
                JsonShape::Null => input_json@.len() == 0,
                JsonShape::Object(fields) => if fields.dom().is_empty() {
                    input_json@.len() == 0
                } else {
                    input_json@ == json_text(input)
                },
                _ => input_json@ == json_text(input),
            }),
            _ => r is Other,
        },
{
    match content {
        Some(AnthropicContentBlock::Text { text }) => AnthropicBlock::Text(text),
        Some(AnthropicContentBlock::ToolUse { id, name, input }) => {
            let input_json = starting_input_json(&input);
            AnthropicBlock::ToolUse { id, name, input_json }
        },
        Some(AnthropicContentBlock::Other) => AnthropicBlock::Other,
        None => AnthropicBlock::Other,
    }
}

/// The state with `block` open under `index`, in place of whatever was open there.
pub open spec fn block_opened(
    state: AnthropicStreamStateView,
    index: usize,
    block: AnthropicBlockView,
) -> AnthropicStreamStateView {
    AnthropicStreamStateView { blocks: state.blocks.insert(index, block), ..state }
}

/// What an absent piece of text stands for.
pub open spec fn or_empty(text: Option<Seq<char>>) -> Seq<char> {
    match text {
        Some(text) => text,
        None => Seq::empty(),
    }
}

/// A block after a delta: text grows by a text delta, a tool call's input by an input delta, and
/// any other combination changes nothing.
pub open spec fn extended_block(
    block: AnthropicBlockView,
    delta: AnthropicDeltaView,
) -> AnthropicBlockView {
    match block {
        AnthropicBlockView::Text(text) => if delta.kind == Some("text_delta"@) {
            AnthropicBlockView::Text(text + or_empty(delta.text))
        } else {
            block
        },
        AnthropicBlockView::ToolUse { id, name, input_json } => if delta.kind == Some(
            "input_json_delta"@,
        ) {
            AnthropicBlockView::ToolUse {
                id,
                name,
                input_json: input_json + or_empty(delta.partial_json),
            }
        } else {
            block
        },
        AnthropicBlockView::Other => block,
    }
}

/// The state after a delta for the block under `index`.
pub open spec fn block_extended(
    state: AnthropicStreamStateView,
    index: usize,
    delta: Option<AnthropicDeltaView>,
) -> AnthropicStreamStateView {
    match delta {
        Some(delta) => if state.blocks.contains_key(index) {
            block_opened(state, index, extended_block(state.blocks[index], delta))
        } else {
            state
        },
        None => state,
    }
}

/// What a delta for the block under `index` sends: the text it adds to an open text block.
pub open spec fn extension_step(
    state: AnthropicStreamStateView,
    index: usize,
    delta: Option<AnthropicDeltaView>,
) -> StreamStepView {
    match delta {
        Some(delta) => if state.blocks.contains_key(index) && state.blocks[index] is Text
            && delta.kind == Some("text_delta"@) {
            StreamStepView::Send(ResponseEventView::OutputTextDelta(or_empty(delta.text)))
        } else {
            StreamStepView::Continue
        },
        None => StreamStepView::Continue,
    }
}

/// The state with no block open under `index`.
pub open spec fn block_closed(
    state: AnthropicStreamStateView,
    index: usize,
) -> AnthropicStreamStateView {
    AnthropicStreamStateView { blocks: state.blocks.remove(index), ..state }
}

/// The assistant message that a finished text block becomes.
pub open spec fn assistant_message(text: Seq<char>) -> ResponseItemView {
    ResponseItemView::Message {
        id: None,
        role: "assistant"@,
        content: seq![ContentItemView::OutputText { text }],
        phase: None,
    }
}

/// The arguments of a finished tool call: an empty object where only whitespace was streamed.
pub open spec fn call_arguments(input_json: Seq<char>) -> Seq<char> {
    if blank(input_json) {
        "{}"@
    } else {
        input_json
    }
}

/// The conversation entry that a finished block becomes, if it becomes one.
pub open spec fn block_item(block: AnthropicBlockView) -> Option<ResponseItemView> {
    match block {
        AnthropicBlockView::Text(text) => Some(assistant_message(text)),
        AnthropicBlockView::ToolUse { id, name, input_json } => Some(
            ResponseItemView::FunctionCall {
                id: None,
                name,
                namespace: None,
                arguments: call_arguments(input_json),
                call_id: id,
            },
        ),
        AnthropicBlockView::Other => None,
    }
}

/// The view of an optional conversation entry.
pub open spec fn optional_item(item: Option<ResponseItem>) -> Option<ResponseItemView> {
    match item {
        Some(item) => Some(item@),
        None => None,
    }
}

/// Turns a finished block into the conversation entry it stands for, if it stands for one.
pub fn block_to_response_item(block: AnthropicBlock) -> (r: Option<ResponseItem>)
    ensures
        optional_item(r) == block_item(block@),
        match block {
            AnthropicBlock::Text(text) => r matches Some(
                ResponseItem::Message { id: None, role, content, phase: None },
            ) && role@ == "assistant"@ && content@.len() == 1 && (
            content@[0] matches ContentItem::OutputText { text: said } && said@ == text@),
            AnthropicBlock::ToolUse { id, name, input_json } => r matches Some(
                ResponseItem::FunctionCall {
                    id: None,
                    name: called,
                    namespace: None,
                    arguments,
                    call_id,
                },
            ) && called@ == name@ && call_id@ == id@ && arguments@ == if exists|k: int|
                0 <= k < input_json@.len() && !is_white_space(#[trigger] input_json@[k]) {
                input_json@
            } else {
                "{}"@
            },
            AnthropicBlock::Other => r is None,
        },
{
    match block {
        AnthropicBlock::Text(text) => {
            let ghost streamed = text@;
            let content = vec![ContentItem::OutputText { text }];
            assert(content_views(content@) =~= seq![
                ContentItemView::OutputText { text: streamed },
            ]);
            Some(
                ResponseItem::Message {
                    id: None,
                    role: "assistant".to_owned(),
                    content,
                    phase: None,
                },
            )
        },
        AnthropicBlock::ToolUse { id, name, input_json } => {
            let arguments = if is_blank(input_json.as_str()) {
                "{}".to_owned()
            } else {
                input_json
            };
            Some(
                ResponseItem::FunctionCall {
                    id: None,
                    name,
                    namespace: None,
                    arguments,
                    call_id: id,
                },
            )
        },
        AnthropicBlock::Other => None,
    }
}

/// What closing the block under `index` sends: the entry that the block became.
pub open spec fn closing_step(state: AnthropicStreamStateView, index: usize) -> StreamStepView {
    if state.blocks.contains_key(index) {
        match block_item(state.blocks[index]) {
            Some(item) => StreamStepView::Send(ResponseEventView::OutputItemDone(item)),
            None => StreamStepView::Continue,
        }
    } else {
        StreamStepView::Continue
    }
}

/// The state after a `message_delta` event.
pub open spec fn output_counted(
    state: AnthropicStreamStateView,
    usage: Option<AnthropicUsage>,
) -> AnthropicStreamStateView {
    match usage {
        Some(usage) => AnthropicStreamStateView { output_tokens: usage.output_tokens, ..state },
        None => state,
    }
}

/// The sum of the input and output counts fits in the type of a count.
pub open spec fn total_fits(state: AnthropicStreamStateView) -> bool {
    i64::MIN <= state.input_tokens + state.output_tokens <= i64::MAX
}

/// The event that a `message_stop` event sends.
pub open spec fn completion(state: AnthropicStreamStateView) -> ResponseEventView {
    ResponseEventView::Completed {
        response_id: match state.response_id {
            Some(id) => id,
            None => "anthropic-message"@,
        },
        token_usage: Some(
            TokenUsage {
                input_tokens: state.input_tokens,
                cached_input_tokens: state.cached_input_tokens,
                output_tokens: state.output_tokens,
                reasoning_output_tokens: 0,
                total_tokens: (state.input_tokens + state.output_tokens) as i64,
            },
        ),
        end_turn: Some(true),
    }
}

/// The state after a `message_stop` event.
pub open spec fn message_stopped(state: AnthropicStreamStateView) -> AnthropicStreamStateView {
    AnthropicStreamStateView { response_id: None, ..state }
}

/// The message of an `error` event, or a general one where it has none.
pub open spec fn error_message(error: Option<Seq<char>>) -> Seq<char> {
    match error {
        Some(message) => if message.len() > 0 {
            message
        } else {
            "Anthropic stream error"@
        },
        None => "Anthropic stream error"@,
    }
}

/// The message that an `error` event ends the stream with.
pub fn stream_error_message(error: Option<AnthropicError>) -> (r: String)
    ensures
        r@ == error_message(error_view(error)),
        error matches Some(error) ==> error.message@.len() > 0 ==> r@ == error.message@,
        error matches Some(error) ==> error.message@.len() == 0 ==> r@ == "Anthropic stream error"@,
        error is None ==> r@ == "Anthropic stream error"@,
{
    match error {
        Some(error) => if error.message.as_str().is_empty() {
            "Anthropic stream error".to_owned()
        } else {
            error.message
        },
        None => "Anthropic stream error".to_owned(),
    }
}

/// The block index that an event addresses.
pub open spec fn addressed(index: Option<usize>) -> usize {
    match index {
        Some(index) => index,
        None => 0,
    }
}

/// The state after an event.
pub open spec fn next_state(
    state: AnthropicStreamStateView,
    event: AnthropicStreamEventView,
) -> AnthropicStreamStateView {
    match kind_of(event.kind) {
        StreamEventKind::MessageStart => message_started(state, event.message),
        StreamEventKind::ContentBlockStart => block_opened(
            state,
            addressed(event.index),
            opened_block(event.content_block),
        ),
        StreamEventKind::ContentBlockDelta => block_extended(
            state,
            addressed(event.index),
            event.delta,
        ),
        StreamEventKind::ContentBlockStop => block_closed(state, addressed(event.index)),
        StreamEventKind::MessageDelta => output_counted(state, event.usage),
        StreamEventKind::MessageStop => message_stopped(state),
        StreamEventKind::Error => state,
        StreamEventKind::Unhandled => state,
    }
}

/// What to do after an event.
pub open spec fn event_step(
    state: AnthropicStreamStateView,
    event: AnthropicStreamEventView,
) -> StreamStepView {
    match kind_of(event.kind) {
        StreamEventKind::MessageStart => StreamStepView::Send(ResponseEventView::Created),
        StreamEventKind::ContentBlockStart => StreamStepView::Continue,
        StreamEventKind::ContentBlockDelta => extension_step(
            state,
            addressed(event.index),
            event.delta,
        ),
        StreamEventKind::ContentBlockStop => closing_step(state, addressed(event.index)),
        StreamEventKind::MessageDelta => StreamStepView::Continue,
        StreamEventKind::MessageStop => StreamStepView::Finish(Ok(completion(state))),
        StreamEventKind::Error => StreamStepView::Finish(
            Err(ApiErrorView::Stream(error_message(event.error))),
        ),
        StreamEventKind::Unhandled => StreamStepView::Continue,
    }
}

/// The state after a poll.
pub open spec fn state_after(
    state: AnthropicStreamStateView,
    poll: StreamPollView,
) -> AnthropicStreamStateView {
    match poll {
        StreamPollView::Event(event) => next_state(state, event),
        _ => state,
    }
}

/// What to do after a poll.
pub open spec fn step_after(state: AnthropicStreamStateView, poll: StreamPollView) -> StreamStepView {
    match poll {
        StreamPollView::Event(event) => event_step(state, event),
        StreamPollView::Undecodable => StreamStepView::Continue,
        StreamPollView::Failed(description) => StreamStepView::Finish(
            Err(ApiErrorView::Stream(description)),
        ),
        StreamPollView::Closed => StreamStepView::Finish(
            Err(ApiErrorView::Stream("stream closed before message_stop"@)),
        ),
        StreamPollView::IdleTimeout => StreamStepView::Finish(
            Err(ApiErrorView::Stream("idle timeout waiting for SSE"@)),
        ),
    }
}

/// Whether a poll makes the stream report its total token count.
pub open spec fn reports_total(poll: StreamPollView) -> bool {
    match poll {
        StreamPollView::Event(event) => kind_of(event.kind) is MessageStop,
        _ => false,
    }
}

impl StreamPoll {
    /// Whether this poll makes the stream report its total token count, which then has to fit.
    pub fn reports_total(&self) -> (r: bool)
        ensures
            r == reports_total(self@),
            r <==> (self matches StreamPoll::Event(event) && event.kind@ == "message_stop"@),
    {
        proof {
            law_event_names();
        }
        match self {
            StreamPoll::Event(event) => match event_kind(event.kind.as_str()) {
                StreamEventKind::MessageStop => true,
                _ => false,
            },
            _ => false,
        }
    }
}

impl AnthropicStreamState {
    /// The sum of the input and output counts, if it fits.
    pub fn total_tokens(&self) -> (r: Option<i64>)
        ensures
            r is Some <==> total_fits(self@),
            r matches Some(total) ==> total == self@.input_tokens + self@.output_tokens,
            r is None <==> self@.input_tokens + self@.output_tokens < i64::MIN || i64::MAX
                < self@.input_tokens + self@.output_tokens,
    {
        self.input_tokens.checked_add(self.output_tokens)
    }

    /// Takes note of the response id and of the token counts that a `message_start` event
    /// announces.
    pub fn on_message_start(&mut self, message: Option<AnthropicMessageStart>) -> (r: StreamStep)
        ensures
            final(self)@ == message_started(old(self)@, message_view(message)),
            r@ == StreamStepView::Send(ResponseEventView::Created),
            r matches StreamStep::Send(event) && event is Created,
            final(self)@.blocks == old(self)@.blocks,
            final(self)@.response_id == match message {
                Some(message) => Some(message.id@),
                None => old(self)@.response_id,
            },
            ({
                let (before, after) = (old(self)@, final(self)@);
                match message {
                    Some(AnthropicMessageStart { usage: Some(usage), .. }) => {
                        &&& after.input_tokens == usage.input_tokens
                        &&& after.output_tokens == usage.output_tokens
                        &&& after.cached_input_tokens == usage.cache_read_input_tokens
                    },
                    _ => {
                        &&& after.input_tokens == before.input_tokens
                        &&& after.output_tokens == before.output_tokens
                        &&& after.cached_input_tokens == before.cached_input_tokens
                    },
                }
            }),
    {
        if let Some(message) = message {
            self.response_id = Some(message.id);
            if let Some(usage) = message.usage {
                self.input_tokens = usage.input_tokens;
                self.cached_input_tokens = usage.cache_read_input_tokens;
                self.output_tokens = usage.output_tokens;
            }
        }
        StreamStep::Send(ResponseEvent::Created)
    }

    /// Opens `block` under `index`, in place of whatever was open there.
    pub fn put_block(&mut self, index: usize, block: AnthropicBlock)
        ensures
            final(self)@ == block_opened(old(self)@, index, block@),
            final(self)@ == (AnthropicStreamStateView {
                blocks: old(self)@.blocks.insert(index, block@),
                ..old(self)@
            }),
    {
        let _ = self.blocks.insert(index, block);
        assert(self@.blocks =~= old(self)@.blocks.insert(index, block@));
    }

    /// Takes the block under `index` out of the open ones.
    pub fn take_block(&mut self, index: usize) -> (r: Option<AnthropicBlock>)
        ensures
            final(self)@ == block_closed(old(self)@, index),
            final(self)@ == (AnthropicStreamStateView {
                blocks: old(self)@.blocks.remove(index),
                ..old(self)@
            }),
            match r {
                Some(block) => old(self)@.blocks.contains_key(index) && old(self)@.blocks[index]
                    == block@,
                None => !old(self)@.blocks.contains_key(index),
            },
    {
        let block = self.blocks.remove(&index);
        assert(self@.blocks =~= old(self)@.blocks.remove(index));
        block
    }

    /// Adds a delta to the block under `index`; added text is sent on.
    pub fn on_block_delta(&mut self, index: usize, delta: Option<AnthropicDelta>) -> (r: StreamStep)
        ensures
            final(self)@ == block_extended(old(self)@, index, delta_view(delta)),
            r@ == extension_step(old(self)@, index, delta_view(delta)),
            ({
                let (before, after) = (old(self)@, final(self)@);
                match delta {
                    Some(delta) => if !before.blocks.contains_key(index) {
                        r is Continue && after == before
                    } else {
                        match before.blocks[index] {
                            AnthropicBlockView::Text(held) => if delta.kind matches Some(kind)
                                && kind@ == "text_delta"@ {
                                r matches StreamStep::Send(ResponseEvent::OutputTextDelta(sent))
                                    && sent@ == (match delta.text {
                                    Some(text) => text@,
                                    None => Seq::empty(),
                                }) && after
                                    == (AnthropicStreamStateView {
                                    blocks: before.blocks.insert(
                                        index,
                                        AnthropicBlockView::Text(held + sent@),
                                    ),
                                    ..before
                                })
                            } else {
                                r is Continue && after == before
                            },
                            AnthropicBlockView::ToolUse { id, name, input_json } => r is Continue
                                && if (delta.kind matches Some(kind) && kind@
                                == "input_json_delta"@) && delta.partial_json is Some {
                                after == (AnthropicStreamStateView {
                                    blocks: before.blocks.insert(
                                        index,
                                        AnthropicBlockView::ToolUse {
                                            id,
                                            name,
                                            input_json: input_json + delta.partial_json->0@,
                                        },
                                    ),
                                    ..before
                                })
                            } else {
                                after == before
                            },
                            AnthropicBlockView::Other => r is Continue && after == before,
                        }
                    },
                    None => r is Continue && after == before,
                }
            }),
    {
        let delta = match delta {
            Some(delta) => delta,
            None => {
                return StreamStep::Continue;
            },
        };
        let ghost extended = block_extended(self@, index, Some(delta@));
        let step = match self.take_block(index) {
            Some(AnthropicBlock::Text(mut text)) => {
                if is_exactly(&delta.kind, "text_delta") {
                    let added = match delta.text {
                        Some(added) => added,
                        None => String::new(),
                    };
                    text.append(added.as_str());
                    self.put_block(index, AnthropicBlock::Text(text));
                    StreamStep::Send(ResponseEvent::OutputTextDelta(added))
                } else {
                    self.put_block(index, AnthropicBlock::Text(text));
                    StreamStep::Continue
                }
            },
            Some(AnthropicBlock::ToolUse { id, name, mut input_json }) => {
                if is_exactly(&delta.kind, "input_json_delta") {
                    let added = match delta.partial_json {
                        Some(added) => added,
                        None => String::new(),
                    };
                    input_json.append(added.as_str());
                }
                self.put_block(index, AnthropicBlock::ToolUse { id, name, input_json });
                StreamStep::Continue
            },
            Some(AnthropicBlock::Other) => {
                self.put_block(index, AnthropicBlock::Other);
                StreamStep::Continue
            },
            None => StreamStep::Continue,
        };
        assert(self@.blocks =~= extended.blocks);
        proof {
            let before = old(self)@.blocks;
            if before.contains_key(index) {
                assert(before.insert(index, before[index]) =~= before);
                if let AnthropicBlockView::ToolUse { input_json, .. } = before[index] {
                    assert(input_json + Seq::<char>::empty() =~= input_json);
                }
            }
        }
        step
    }

    /// Closes the block under `index` and sends the entry that it became.
    pub fn on_block_stop(&mut self, index: usize) -> (r: StreamStep)
        ensures
            final(self)@ == block_closed(old(self)@, index),
            r@ == closing_step(old(self)@, index),
            final(self)@ == (AnthropicStreamStateView {
                blocks: old(self)@.blocks.remove(index),
                ..old(self)@
            }),
            old(self)@.blocks.contains_key(index) ==> match old(self)@.blocks[index] {
                AnthropicBlockView::Text(text) => r@ == StreamStepView::Send(
                    ResponseEventView::OutputItemDone(
                        ResponseItemView::Message {
                            id: None,
                            role: "assistant"@,
                            content: seq![ContentItemView::OutputText { text }],
                            phase: None,
                        },
                    ),
                ),
                AnthropicBlockView::ToolUse { id, name, input_json } => r@ == StreamStepView::Send(
                    ResponseEventView::OutputItemDone(
                        ResponseItemView::FunctionCall {
                            id: None,
                            name,
                            namespace: None,
                            arguments: if exists|k: int|
                                0 <= k < input_json.len() && !is_white_space(
                                    #[trigger] input_json[k],
                                ) {
                                input_json
                            } else {
                                "{}"@
                            },
                            call_id: id,
                        },
                    ),
                ),
                AnthropicBlockView::Other => r is Continue,
            },
            !old(self)@.blocks.contains_key(index) ==> r is Continue,
    {
        match self.take_block(index) {
            Some(block) => match block_to_response_item(block) {
                Some(item) => StreamStep::Send(ResponseEvent::OutputItemDone(item)),
                None => StreamStep::Continue,
            },
            None => StreamStep::Continue,
        }
    }

    /// Takes note of the output count that a `message_delta` event reports.
    pub fn on_message_delta(&mut self, usage: Option<AnthropicUsage>) -> (r: StreamStep)
        ensures
            final(self)@ == output_counted(old(self)@, usage),
            r@ == StreamStepView::Continue,
            r is Continue,
            final(self)@ == (AnthropicStreamStateView {
                output_tokens: match usage {
                    Some(usage) => usage.output_tokens,
                    None => old(self)@.output_tokens,
                },
                ..old(self)@
            }),
    {
        if let Some(usage) = usage {
            self.output_tokens = usage.output_tokens;
        }
        StreamStep::Continue
    }

    /// Ends the stream with a report of the response id and the token counts.
    pub fn on_message_stop(&mut self) -> (r: StreamStep)
        requires
            total_fits(old(self)@),
        ensures
            final(self)@ == message_stopped(old(self)@),
            r@ == StreamStepView::Finish(Ok(completion(old(self)@))),
            final(self)@ == (AnthropicStreamStateView { response_id: None, ..old(self)@ }),
            r matches StreamStep::Finish(
                Ok(ResponseEvent::Completed { response_id, token_usage: Some(usage), end_turn }),
            ) && {
                &&& response_id@ == match old(self)@.response_id {
                    Some(id) => id,
                    None => "anthropic-message"@,
                }
                &&& usage.input_tokens == old(self)@.input_tokens
                &&& usage.cached_input_tokens == old(self)@.cached_input_tokens
                &&& usage.output_tokens == old(self)@.output_tokens
                &&& usage.reasoning_output_tokens == 0
                &&& usage.total_tokens == old(self)@.input_tokens + old(self)@.output_tokens
                &&& end_turn == Some(true)
            },
    {
        let response_id = match self.response_id.take() {
            Some(id) => id,
            None => "anthropic-message".to_owned(),
        };
        let token_usage = Some(
            TokenUsage {
                input_tokens: self.input_tokens,
                cached_input_tokens: self.cached_input_tokens,
                output_tokens: self.output_tokens,
                reasoning_output_tokens: 0,
                total_tokens: self.input_tokens + self.output_tokens,
            },
        );
        StreamStep::Finish(
            Ok(ResponseEvent::Completed { response_id, token_usage, end_turn: Some(true) }),
        )
    }

    /// Acts on one event of the stream.
    pub fn on_event(&mut self, event: AnthropicStreamEvent) -> (r: StreamStep)
        requires
            kind_of(event@.kind) is MessageStop ==> total_fits(old(self)@),
        ensures
            final(self)@ == next_state(old(self)@, event@),
            r@ == event_step(old(self)@, event@),
    {
        let index: usize = event.index.unwrap_or(0);
        match event_kind(event.kind.as_str()) {
            StreamEventKind::MessageStart => self.on_message_start(event.message),
            StreamEventKind::ContentBlockStart => {
                let block = open_block(event.content_block);
                self.put_block(index, block);
                StreamStep::Continue
            },
            StreamEventKind::ContentBlockDelta => self.on_block_delta(index, event.delta),
            StreamEventKind::ContentBlockStop => self.on_block_stop(index),
            StreamEventKind::MessageDelta => self.on_message_delta(event.usage),
            StreamEventKind::MessageStop => self.on_message_stop(),
            StreamEventKind::Error => {
                let message = stream_error_message(event.error);
                StreamStep::Finish(Err(ApiError::Stream(message)))
            },
            StreamEventKind::Unhandled => StreamStep::Continue,
        }
    }

    /// Acts on what one poll of the stream came back with.
    pub fn on_poll(&mut self, poll: StreamPoll) -> (r: StreamStep)
        requires
            reports_total(poll@) ==> total_fits(old(self)@),
        ensures
            final(self)@ == state_after(old(self)@, poll@),
            r@ == step_after(old(self)@, poll@),
            match poll {
                StreamPoll::Event(event) => r is Finish <==> event.kind@ == "message_stop"@
                    || event.kind@ == "error"@,
                StreamPoll::Undecodable => r is Continue && final(self)@ == old(self)@,
                StreamPoll::Failed(description) => final(self)@ == old(self)@ && (
                r matches StreamStep::Finish(Err(ApiError::Stream(message))) && message@
                    == description@),
                StreamPoll::Closed => final(self)@ == old(self)@ && (
                r matches StreamStep::Finish(Err(ApiError::Stream(message))) && message@
                    == "stream closed before message_stop"@),
                StreamPoll::IdleTimeout => final(self)@ == old(self)@ && (
                r matches StreamStep::Finish(Err(ApiError::Stream(message))) && message@
                    == "idle timeout waiting for SSE"@),
            },
    {
        proof {
            law_event_names();
        }
        match poll {
            StreamPoll::Event(event) => self.on_event(event),
            StreamPoll::Undecodable => StreamStep::Continue,
            StreamPoll::Failed(description) => StreamStep::Finish(
                Err(ApiError::Stream(description)),
            ),
            StreamPoll::Closed => StreamStep::Finish(
                Err(ApiError::Stream("stream closed before message_stop".to_owned())),
            ),
            StreamPoll::IdleTimeout => StreamStep::Finish(
                Err(ApiError::Stream("idle timeout waiting for SSE".to_owned())),
            ),
        }
    }
}

} // verus!
