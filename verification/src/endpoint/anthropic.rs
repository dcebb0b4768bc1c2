//! The Anthropic messages endpoint: the body of a request.
use crate::common::{
    ApiError, ApiErrorView, ContentItem, ContentItemView, Reasoning, ReasoningEffort, ResponseItem,
    ResponseItemView, ResponsesApiRequest, content_views, item_views,
};
use crate::headers::{ascii_bytes, has_room, header_contents, is_lower_name, set_header};
use crate::json::{
    JsonShape, json_object, json_parsed, json_shape, json_string, json_text, object_fields,
    object_get, object_of_one, object_value, parse_json, reads_back, string_value,
};
use crate::requests::{Compression, RequestCompression};
use crate::text::{join, joined, texts};
use http::HeaderMap;
use http::HeaderValue;
use serde_json::Value;
use vstd::prelude::*;

verus! {

/// The body of a request to the messages endpoint.
#[derive(Debug, PartialEq, Eq)]
pub struct AnthropicMessagesRequest {
    pub model: String,
    pub system: String,
    pub messages: Vec<AnthropicMessage>,
    pub tools: Vec<AnthropicTool>,
    pub tool_choice: Option<AnthropicToolChoice>,
    pub stream: bool,
    pub max_tokens: u32,
    pub output_config: Option<AnthropicOutputConfig>,
}

#[derive(Debug, PartialEq, Eq)]
pub struct AnthropicMessage {
    pub role: String,
    pub content: Vec<AnthropicContent>,
}

#[derive(Debug, PartialEq, Eq)]
pub enum AnthropicContent {
    Text { text: String },
    ToolUse { id: String, name: String, input: Value },
    ToolResult { tool_use_id: String, content: String },
}

#[derive(Debug, PartialEq, Eq)]
pub struct AnthropicTool {
    pub name: String,
    pub description: String,
    pub input_schema: Value,
}

#[derive(Debug, Clone, Copy, PartialEq, Eq)]
pub enum AnthropicToolChoice {
    Auto,
}

#[derive(Debug, Clone, Copy, PartialEq, Eq)]
pub struct AnthropicOutputConfig {
    pub effort: AnthropicEffort,
}

#[derive(Debug, Clone, Copy, PartialEq, Eq)]
pub enum AnthropicEffort {
    Minimal,
    Low,
    Medium,
    High,
}

pub struct AnthropicMessagesRequestView {
    pub model: Seq<char>,
    pub system: Seq<char>,
    pub messages: Seq<AnthropicMessageView>,
    pub tools: Seq<AnthropicToolView>,
    pub tool_choice: Option<AnthropicToolChoice>,
    pub stream: bool,
    pub max_tokens: u32,
    pub output_config: Option<AnthropicOutputConfig>,
}

pub struct AnthropicMessageView {
    pub role: Seq<char>,
    pub content: Seq<AnthropicContentView>,
}

pub enum AnthropicContentView {
    Text { text: Seq<char> },
    ToolUse { id: Seq<char>, name: Seq<char>, input: Value },
    ToolResult { tool_use_id: Seq<char>, content: Seq<char> },
}

pub struct AnthropicToolView {
    pub name: Seq<char>,
    pub description: Seq<char>,
    pub input_schema: Value,
}

impl View for AnthropicContent {
    type V = AnthropicContentView;

    open spec fn view(&self) -> AnthropicContentView {
        match self {
            AnthropicContent::Text { text } => AnthropicContentView::Text { text: text@ },
            AnthropicContent::ToolUse { id, name, input } => AnthropicContentView::ToolUse {
                id: id@,
                name: name@,
                input: *input,
            },
            AnthropicContent::ToolResult {
                tool_use_id,
                content,
            } => AnthropicContentView::ToolResult { tool_use_id: tool_use_id@, content: content@ },
        }
    }
}

/// The views of a list of message contents.
pub open spec fn contents_view(contents: Seq<AnthropicContent>) -> Seq<AnthropicContentView> {
    contents.map_values(|content: AnthropicContent| content@)
}

impl View for AnthropicMessage {
    type V = AnthropicMessageView;

    open spec fn view(&self) -> AnthropicMessageView {
        AnthropicMessageView { role: self.role@, content: contents_view(self.content@) }
    }
}

/// The views of a list of messages.
pub open spec fn messages_view(messages: Seq<AnthropicMessage>) -> Seq<AnthropicMessageView> {
    messages.map_values(|message: AnthropicMessage| message@)
}

impl View for AnthropicTool {
    type V = AnthropicToolView;

    open spec fn view(&self) -> AnthropicToolView {
        AnthropicToolView {
            name: self.name@,
            description: self.description@,
            input_schema: self.input_schema,
        }
    }
}

/// The views of a list of tools.
pub open spec fn tools_view(tools: Seq<AnthropicTool>) -> Seq<AnthropicToolView> {
    tools.map_values(|tool: AnthropicTool| tool@)
}

impl View for AnthropicMessagesRequest {
    type V = AnthropicMessagesRequestView;

    open spec fn view(&self) -> AnthropicMessagesRequestView {
        AnthropicMessagesRequestView {
            model: self.model@,
            system: self.system@,
            messages: messages_view(self.messages@),
            tools: tools_view(self.tools@),
            tool_choice: self.tool_choice,
            stream: self.stream,
            max_tokens: self.max_tokens,
            output_config: self.output_config,
        }
    }
}

/// Where the endpoint is found under a provider's base URL.
pub const MESSAGES_PATH: &'static str = "messages";

/// The largest number of tokens that a response may have.
pub const MAX_TOKENS: u32 = 4096;

/// The role that a message keeps: `assistant` for the assistant's, `user` for any other.
pub open spec fn message_role(role: Seq<char>) -> Seq<char> {
    if role == "assistant"@ {
        "assistant"@
    } else {
        "user"@
    }
}

/// The text of a content item; images have none.
pub open spec fn item_text(item: ContentItemView) -> Option<Seq<char>> {
    match item {
        ContentItemView::InputText { text } => Some(text),
        ContentItemView::OutputText { text } => Some(text),
        ContentItemView::InputImage { .. } => None,
    }
}

/// The text of a message: the texts of its content items, one per line.
pub open spec fn message_text(content: Seq<ContentItemView>) -> Seq<char> {
    joined(content.filter_map(|item: ContentItemView| item_text(item)), "\n"@)
}

/// The input of a tool call: the JSON value that its arguments parsed to, or the arguments
/// themselves as a JSON string where they did not parse.
pub open spec fn call_input(parsed: Option<Value>, arguments: Seq<char>) -> Value {
    match parsed {
        Some(value) => value,
        None => json_string(arguments),
    }
}

/// A conversation under construction: the messages so far, and the tool results that still wait
/// for a message of their own.
pub struct ConversationView {
    pub messages: Seq<AnthropicMessageView>,
    pub pending: Seq<AnthropicContentView>,
}

/// The conversation with the waiting tool results, if any, put into one user message.
pub open spec fn flushed(conversation: ConversationView) -> ConversationView {
    if conversation.pending.len() == 0 {
        conversation
    } else {
        ConversationView {
            messages: conversation.messages.push(
                AnthropicMessageView { role: "user"@, content: conversation.pending },
            ),
            pending: Seq::empty(),
        }
    }
}

/// The conversation with one more message after the waiting tool results.
pub open spec fn with_message(
    conversation: ConversationView,
    role: Seq<char>,
    content: AnthropicContentView,
) -> ConversationView {
    let before = flushed(conversation);
    ConversationView {
        messages: before.messages.push(AnthropicMessageView { role, content: seq![content] }),
        pending: before.pending,
    }
}

/// The conversation after a message with the given role and text; a message without text only
/// sets off what comes before it.
pub open spec fn with_text(
    conversation: ConversationView,
    role: Seq<char>,
    text: Seq<char>,
) -> ConversationView {
    if text.len() == 0 {
        flushed(conversation)
    } else {
        with_message(conversation, message_role(role), AnthropicContentView::Text { text })
    }
}

/// The conversation after one more entry.
pub open spec fn with_item(
    conversation: ConversationView,
    item: ResponseItemView,
) -> ConversationView {
    match item {
        ResponseItemView::Message { role, content, .. } => with_text(
            conversation,
            role,
            message_text(content),
        ),
        ResponseItemView::FunctionCall { name, arguments, call_id, .. } => with_message(
            conversation,
            "assistant"@,
            AnthropicContentView::ToolUse {
                id: call_id,
                name,
                input: call_input(json_parsed(arguments), arguments),
            },
        ),
        ResponseItemView::FunctionCallOutput { call_id, output } => ConversationView {
            messages: conversation.messages,
            pending: conversation.pending.push(
                AnthropicContentView::ToolResult { tool_use_id: call_id, content: output },
            ),
        },
        ResponseItemView::Other => conversation,
    }
}

/// The conversation that the given entries make up.
pub open spec fn conversation(items: Seq<ResponseItemView>) -> ConversationView
    decreases items.len(),
{
    if items.len() == 0 {
        ConversationView { messages: Seq::empty(), pending: Seq::empty() }
    } else {
        with_item(conversation(items.drop_last()), items.last())
    }
}

/// A user message without text.
pub open spec fn empty_message() -> AnthropicMessageView {
    AnthropicMessageView {
        role: "user"@,
        content: seq![AnthropicContentView::Text { text: Seq::empty() }],
    }
}

/// The messages for the given entries; an empty user message where they give none.
pub open spec fn request_messages(items: Seq<ResponseItemView>) -> Seq<AnthropicMessageView> {
    let messages = flushed(conversation(items)).messages;
    if messages.len() == 0 {
        seq![empty_message()]
    } else {
        messages
    }
}

/// The text of a field, if the field is there and holds a string.
pub open spec fn field_text(fields: Map<Seq<char>, Value>, key: Seq<char>) -> Option<Seq<char>> {
    if fields.contains_key(key) {
        match json_shape(fields[key]) {
            JsonShape::Text(text) => Some(text),
            _ => None,
        }
    } else {
        None
    }
}

/// The schema `{"type": "object"}`.
pub open spec fn any_object_schema() -> Value {
    json_object(map!["type"@ => json_string("object"@)])
}

/// The tool that a JSON description stands for: an object of type `function` with a name.
/// Its description defaults to an empty one, its schema to that of any object.
pub open spec fn function_tool(tool: Value) -> Option<AnthropicToolView> {
    match json_shape(tool) {
        JsonShape::Object(fields) => if field_text(fields, "type"@) == Some("function"@) {
            match field_text(fields, "name"@) {
                Some(name) => Some(
                    AnthropicToolView {
                        name,
                        description: match field_text(fields, "description"@) {
                            Some(description) => description,
                            None => Seq::empty(),
                        },
                        input_schema: if fields.contains_key("parameters"@) {
                            fields["parameters"@]
                        } else {
                            any_object_schema()
                        },
                    },
                ),
                None => None,
            }
        } else {
            None
        },
        _ => None,
    }
}

/// The tools among the given JSON descriptions.
pub open spec fn function_tools(tools: Seq<Value>) -> Seq<AnthropicToolView> {
    tools.filter_map(|tool: Value| function_tool(tool))
}

/// The effort that a reasoning effort comes to; none where no reasoning is asked for.
pub open spec fn request_effort(effort: ReasoningEffort) -> Option<AnthropicEffort> {
    match effort {
        ReasoningEffort::Off => None,
        ReasoningEffort::Minimal => Some(AnthropicEffort::Minimal),
        ReasoningEffort::Low => Some(AnthropicEffort::Low),
        ReasoningEffort::Medium => Some(AnthropicEffort::Medium),
        ReasoningEffort::High => Some(AnthropicEffort::High),
        ReasoningEffort::XHigh => Some(AnthropicEffort::High),
    }
}

/// The output configuration for the given reasoning.
pub open spec fn output_config(reasoning: Reasoning) -> Option<AnthropicOutputConfig> {
    match reasoning.effort {
        Some(effort) => match request_effort(effort) {
            Some(effort) => Some(AnthropicOutputConfig { effort }),
            None => None,
        },
        None => None,
    }
}

/// The body for a request with the given model, instructions, entries, tools and reasoning.
pub open spec fn messages_request(
    model: Seq<char>,
    instructions: Seq<char>,
    items: Seq<ResponseItemView>,
    tools: Seq<Value>,
    reasoning: Option<Reasoning>,
) -> AnthropicMessagesRequestView {
    AnthropicMessagesRequestView {
        model,
        system: instructions,
        messages: request_messages(items),
        tools: function_tools(tools),
        tool_choice: if function_tools(tools).len() == 0 {
            None
        } else {
            Some(AnthropicToolChoice::Auto)
        },
        stream: true,
        max_tokens: MAX_TOKENS,
        output_config: match reasoning {
            Some(reasoning) => output_config(reasoning),
            None => None,
        },
    }
}

/// The conversation that the messages and the waiting tool results make up.
pub open spec fn conversation_of(
    messages: Seq<AnthropicMessage>,
    pending: Seq<AnthropicContent>,
) -> ConversationView {
    ConversationView { messages: messages_view(messages), pending: contents_view(pending) }
}

/// The texts of the content items that have one.
fn content_texts(content: Vec<ContentItem>) -> (r: Vec<String>)
    ensures
        texts(r@) == content_views(content@).filter_map(|item: ContentItemView| item_text(item)),
{
    let ghost views = content_views(content@);
    let mut found: Vec<String> = Vec::new();
    for item in it: content
        invariant
            it.seq() == content@,
            views == content_views(content@),
            texts(found@) == views.take(it.index() as int).filter_map(
                |item: ContentItemView| item_text(item),
            ),
    {
        proof {
            let seen = views.take(it.index() as int);
            let more = views.take(it.index() + 1);
            assert(more.drop_last() =~= seen);
            assert(more.last() == item@);
        }
        let ghost before = texts(found@);
        match item {
            ContentItem::InputText { text } => {
                found.push(text);
                assert(texts(found@) =~= before + seq![text@]);
            },
            ContentItem::OutputText { text } => {
                found.push(text);
                assert(texts(found@) =~= before + seq![text@]);
            },
            ContentItem::InputImage { .. } => {},
        }
    }
    assert(views.take(views.len() as int) =~= views);
    found
}

/// `after` are the messages `before`, and behind them the waiting tool results, if any, in one
/// user message.
pub open spec fn sent_ahead(
    before: Seq<AnthropicMessage>,
    waiting: Seq<AnthropicContent>,
    after: Seq<AnthropicMessage>,
) -> bool {
    if waiting.len() == 0 {
        after == before
    } else {
        &&& after.len() == before.len() + 1
        &&& after.drop_last() == before
        &&& after.last().role@ == "user"@
        &&& after.last().content@ == waiting
    }
}

/// Puts the waiting tool results, if any, into one user message.
pub fn flush_tool_results(
    messages: &mut Vec<AnthropicMessage>,
    pending_tool_results: &mut Vec<AnthropicContent>,
)
    ensures
        conversation_of(final(messages)@, final(pending_tool_results)@) == flushed(
            conversation_of(old(messages)@, old(pending_tool_results)@),
        ),
        final(pending_tool_results)@.len() == 0,
        old(pending_tool_results)@.len() == 0 ==> final(messages)@ == old(messages)@,
        old(pending_tool_results)@.len() > 0 ==> {
            &&& final(messages)@.len() == old(messages)@.len() + 1
            &&& final(messages)@.drop_last() == old(messages)@
            &&& final(messages)@.last().role@ == "user"@
            &&& final(messages)@.last().content@ == old(pending_tool_results)@
        },
{
    if pending_tool_results.is_empty() {
        return;
    }
    let mut content: Vec<AnthropicContent> = Vec::new();
    std::mem::swap(&mut content, pending_tool_results);
    messages.push(AnthropicMessage { role: "user".to_owned(), content });
    proof {
        let before = flushed(conversation_of(old(messages)@, old(pending_tool_results)@));
        assert(messages_view(messages@) =~= before.messages);
        assert(contents_view(pending_tool_results@) =~= before.pending);
    }
}

/// Adds a message with a single content after the waiting tool results.
fn push_message(
    messages: &mut Vec<AnthropicMessage>,
    pending_tool_results: &mut Vec<AnthropicContent>,
    role: &str,
    content: AnthropicContent,
)
    ensures
        conversation_of(final(messages)@, final(pending_tool_results)@) == with_message(
            conversation_of(old(messages)@, old(pending_tool_results)@),
            role@,
            content@,
        ),
        final(pending_tool_results)@.len() == 0,
        sent_ahead(old(messages)@, old(pending_tool_results)@, final(messages)@.drop_last()),
        final(messages)@.len() > 0,
        final(messages)@.last().role@ == role@,
        final(messages)@.last().content@ == seq![content],
{
    flush_tool_results(messages, pending_tool_results);
    let ghost ahead = messages@;
    let ghost before = messages_view(messages@);
    let contents = vec![content];
    assert(contents_view(contents@) =~= seq![content@]);
    messages.push(AnthropicMessage { role: role.to_owned(), content: contents });
    assert(messages_view(messages@) =~= before.push(
        AnthropicMessageView { role: role@, content: seq![content@] },
    ));
    assert(messages@.drop_last() =~= ahead);
}

/// Adds a message with the given role and text; one without text only sets off what comes
/// before it.
pub fn push_text(
    messages: &mut Vec<AnthropicMessage>,
    pending_tool_results: &mut Vec<AnthropicContent>,
    role: &str,
    text: String,
)
    ensures
        conversation_of(final(messages)@, final(pending_tool_results)@) == with_text(
            conversation_of(old(messages)@, old(pending_tool_results)@),
            role@,
            text@,
        ),
        final(pending_tool_results)@.len() == 0,
        text@.len() == 0 ==> sent_ahead(
            old(messages)@,
            old(pending_tool_results)@,
            final(messages)@,
        ),
        text@.len() > 0 ==> {
            let last = final(messages)@.last();
            &&& final(messages)@.len() > 0
            &&& sent_ahead(old(messages)@, old(pending_tool_results)@, final(messages)@.drop_last())
            &&& role@ == "assistant"@ ==> last.role@ == "assistant"@
            &&& role@ != "assistant"@ ==> last.role@ == "user"@
            &&& last.content@ == seq![AnthropicContent::Text { text }]
        },
{
    if text.as_str().is_empty() {
        flush_tool_results(messages, pending_tool_results);
        return;
    }
    let role = if *role == *"assistant" {
        "assistant"
    } else {
        "user"
    };
    push_message(messages, pending_tool_results, role, AnthropicContent::Text { text });
}

/// Adds a tool call of the assistant.
pub fn push_tool_use(
    messages: &mut Vec<AnthropicMessage>,
    pending_tool_results: &mut Vec<AnthropicContent>,
    id: String,
    name: String,
    input: Value,
)
    ensures
        conversation_of(final(messages)@, final(pending_tool_results)@) == with_message(
            conversation_of(old(messages)@, old(pending_tool_results)@),
            "assistant"@,
            AnthropicContentView::ToolUse { id: id@, name: name@, input },
        ),
        final(pending_tool_results)@.len() == 0,
        sent_ahead(old(messages)@, old(pending_tool_results)@, final(messages)@.drop_last()),
        final(messages)@.len() > 0,
        final(messages)@.last().role@ == "assistant"@,
        final(messages)@.last().content@ == seq![AnthropicContent::ToolUse { id, name, input }],
{
    push_message(
        messages,
        pending_tool_results,
        "assistant",
        AnthropicContent::ToolUse { id, name, input },
    );
}

/// The input of a tool call, given what its arguments parsed to.
pub fn tool_input(parsed: Option<Value>, arguments: String) -> (r: Value)
    ensures
        r == call_input(parsed, arguments@),
        parsed is None ==> json_shape(r) == JsonShape::Text(arguments@),
        parsed is None ==> r == json_string(arguments@),
        parsed matches Some(value) ==> r == value,
{
    match parsed {
        Some(value) => value,
        None => string_value(arguments),
    }
}

/// Reading the arguments gives back the value they were written from: any value that reads back
/// from its text, and the object without fields from `{}`.
pub open spec fn arguments_read_back(arguments: Seq<char>) -> bool {
    &&& forall|value: Value|
        reads_back(value) && #[trigger] json_text(value) == arguments ==> json_parsed(arguments)
            == Some(value)
    &&& arguments == "{}"@ ==> json_parsed(arguments) == Some(json_object(Map::empty()))
}

/// The arguments of an entry that is a function call can be read back.
pub open spec fn call_reads_back(item: ResponseItemView) -> bool {
    match item {
        ResponseItemView::FunctionCall { arguments, .. } => arguments_read_back(arguments),
        _ => true,
    }
}

/// The input of a tool call with the given arguments: the value that the arguments were written
/// from, where they are the text of one.
pub fn tool_input_from_arguments(arguments: String) -> (r: Value)
    ensures
        r == call_input(json_parsed(arguments@), arguments@),
        json_parsed(arguments@) is None ==> json_shape(r) == JsonShape::Text(arguments@),
        arguments@ == "{}"@ ==> json_shape(r) == JsonShape::Object(Map::empty()),
        arguments_read_back(arguments@),
        json_parsed(arguments@) matches Some(value) ==> r == value,
        json_parsed(arguments@) is None ==> r == json_string(arguments@),
{
    let parsed = parse_json(arguments.as_str());
    tool_input(parsed, arguments)
}

/// Adds one entry to the conversation.
fn push_item(
    messages: &mut Vec<AnthropicMessage>,
    pending_tool_results: &mut Vec<AnthropicContent>,
    item: ResponseItem,
)
    ensures
        conversation_of(final(messages)@, final(pending_tool_results)@) == with_item(
            conversation_of(old(messages)@, old(pending_tool_results)@),
            item@,
        ),
        call_reads_back(item@),
{
    match item {
        ResponseItem::Message { role, content, .. } => {
            let text = join(&content_texts(content), "\n");
            push_text(messages, pending_tool_results, role.as_str(), text);
        },
        ResponseItem::FunctionCall { name, arguments, call_id, .. } => {
            let input = tool_input_from_arguments(arguments);
            push_tool_use(messages, pending_tool_results, call_id, name, input);
        },
        ResponseItem::FunctionCallOutput { call_id, output } => {
            let ghost before = contents_view(pending_tool_results@);
            let result = AnthropicContent::ToolResult { tool_use_id: call_id, content: output };
            pending_tool_results.push(result);
            assert(contents_view(pending_tool_results@) =~= before.push(result@));
        },
        ResponseItem::Other => {},
    }
}

/// The text of a field, if the field is there and holds a string.
fn text_field<'a>(object: &'a serde_json::Map<String, Value>, key: &str) -> (r: Option<&'a str>)
    ensures
        (match r {
            Some(text) => Some(text@),
            None => None,
        }) == field_text(object_fields(*object), key@),
{
    match object_get(object, key) {
        Some(value) => value.as_str(),
        None => None,
    }
}

/// A schema that is an object whose only field, `type`, is the text `object`.
pub open spec fn accepts_any_object(schema: Value) -> bool {
    match json_shape(schema) {
        JsonShape::Object(fields) => {
            &&& fields.dom() == set!["type"@]
            &&& json_shape(fields["type"@]) == JsonShape::Text("object"@)
        },
        _ => false,
    }
}

/// The schema `{"type": "object"}`.
fn default_schema() -> (r: Value)
    ensures
        r == any_object_schema(),
        accepts_any_object(r),
{
    let object = object_of_one("type".to_owned(), string_value("object".to_owned()));
    assert(object_fields(object).dom() =~= set!["type"@]);
    object_value(object)
}

/// The view of an optional tool.
pub open spec fn optional_tool(tool: Option<AnthropicTool>) -> Option<AnthropicToolView> {
    match tool {
        Some(tool) => Some(tool@),
        None => None,
    }
}

/// Reads one tool description; none where it does not describe a function with a name.
pub fn anthropic_tool_from_responses_tool(tool: &Value) -> (r: Option<AnthropicTool>)
    ensures
        optional_tool(r) == function_tool(*tool),
        (json_shape(*tool) matches JsonShape::Object(fields) && !fields.contains_key(
            "parameters"@,
        )) ==> (r matches Some(r) ==> accepts_any_object(r.input_schema)),
        match json_shape(*tool) {
            JsonShape::Object(fields) => {
                &&& r is Some <==> {
                    &&& fields.contains_key("type"@)
                    &&& json_shape(fields["type"@]) == JsonShape::Text("function"@)
                    &&& fields.contains_key("name"@)
                    &&& json_shape(fields["name"@]) is Text
                }
                &&& r matches Some(read) ==> {
                    &&& json_shape(fields["name"@]) == JsonShape::Text(read.name@)
                    &&& if fields.contains_key("description"@) && json_shape(
                        fields["description"@],
                    ) is Text {
                        json_shape(fields["description"@]) == JsonShape::Text(read.description@)
                    } else {
                        read.description@.len() == 0
                    }
                    &&& fields.contains_key("parameters"@) ==> read.input_schema
                        == fields["parameters"@]
                    &&& !fields.contains_key("parameters"@) ==> read.input_schema == json_object(
                        map!["type"@ => json_string("object"@)],
                    )
                }
            },
            _ => r is None,
        },
{
    let object = match tool.as_object() {
        Some(object) => object,
        None => {
            return None;
        },
    };
    let is_function = match text_field(object, "type") {
        Some(kind) => *kind == *"function",
        None => false,
    };
    if !is_function {
        return None;
    }
    let name = match text_field(object, "name") {
        Some(name) => name.to_owned(),
        None => {
            return None;
        },
    };
    let description = match text_field(object, "description") {
        Some(description) => description.to_owned(),
        None => String::new(),
    };
    let input_schema = match object_get(object, "parameters") {
        Some(parameters) => parameters.clone(),
        None => default_schema(),
    };
    Some(AnthropicTool { name, description, input_schema })
}

/// Reads tool descriptions and leaves out those that describe no function with a name.
pub fn anthropic_tools_from_responses_tools(tools: Vec<Value>) -> (r: Vec<AnthropicTool>)
    ensures
        tools_view(r@) == function_tools(tools@),
{
    let ghost all = tools@;
    let mut found: Vec<AnthropicTool> = Vec::new();
    for tool in it: tools
        invariant
            it.seq() == all,
            tools_view(found@) == function_tools(all.take(it.index() as int)),
    {
        proof {
            let more = all.take(it.index() + 1);
            assert(more.drop_last() =~= all.take(it.index() as int));
            assert(more.last() == tool);
        }
        let ghost before = tools_view(found@);
        if let Some(tool) = anthropic_tool_from_responses_tool(&tool) {
            found.push(tool);
            assert(tools_view(found@) =~= before + seq![tool@]);
        }
    }
    assert(all.take(all.len() as int) =~= all);
    found
}

/// The output configuration for the given reasoning; none where no reasoning is asked for.
pub fn anthropic_output_config(reasoning: Reasoning) -> (r: Option<AnthropicOutputConfig>)
    ensures
        r == output_config(reasoning),
        match reasoning.effort {
            None => r is None,
            Some(ReasoningEffort::Off) => r is None,
            Some(ReasoningEffort::Minimal) => r is Some && r->0.effort is Minimal,
            Some(ReasoningEffort::Low) => r is Some && r->0.effort is Low,
            Some(ReasoningEffort::Medium) => r is Some && r->0.effort is Medium,
            Some(ReasoningEffort::High) => r is Some && r->0.effort is High,
            Some(ReasoningEffort::XHigh) => r is Some && r->0.effort is High,
        },
{
    let effort = match reasoning.effort {
        Some(effort) => effort,
        None => {
            return None;
        },
    };
    let effort = match effort {
        ReasoningEffort::Off => {
            return None;
        },
        ReasoningEffort::Minimal => AnthropicEffort::Minimal,
        ReasoningEffort::Low => AnthropicEffort::Low,
        ReasoningEffort::Medium => AnthropicEffort::Medium,
        ReasoningEffort::High => AnthropicEffort::High,
        ReasoningEffort::XHigh => AnthropicEffort::High,
    };
    Some(AnthropicOutputConfig { effort })
}

impl AnthropicMessagesRequest {
    /// The messages request that asks for what a Responses API request asks for. It always
    /// succeeds, and the input of every tool call is the value that its arguments were written
    /// from, where they are the text of one.
    pub fn from_responses_request(request: ResponsesApiRequest) -> (r: Result<Self, ApiError>)
        ensures
            r matches Ok(body) && body@ == messages_request(
                request.model@,
                request.instructions@,
                item_views(request.input@),
                request.tools@,
                request.reasoning,
            ),
            forall|k: int| 0 <= k < request.input@.len() ==> call_reads_back(
                #[trigger] item_views(request.input@)[k],
            ),
            r matches Ok(body) && {
                &&& body.model@ == request.model@
                &&& body.system@ == request.instructions@
                &&& body.stream
                &&& body.max_tokens == 4096
                &&& body.messages@.len() > 0
                &&& body.tool_choice is None <==> body.tools@.len() == 0
                &&& request.reasoning is None ==> body.output_config is None
            },
    {
        let ResponsesApiRequest { model, instructions, input, tools, reasoning, .. } = request;
        let ghost items = item_views(input@);
        let ghost entries = input@;
        let mut messages: Vec<AnthropicMessage> = Vec::new();
        let mut pending_tool_results: Vec<AnthropicContent> = Vec::new();
        assert(messages_view(messages@) =~= Seq::empty());
        assert(contents_view(pending_tool_results@) =~= Seq::empty());
        for item in it: input
            invariant
                it.seq() == entries,
                items == item_views(entries),
                conversation_of(messages@, pending_tool_results@) == conversation(
                    items.take(it.index() as int),
                ),
                forall|k: int| 0 <= k < it.index() ==> call_reads_back(#[trigger] items[k]),
        {
            proof {
                let more = items.take(it.index() + 1);
                assert(more.drop_last() =~= items.take(it.index() as int));
                assert(more.last() == item@);
            }
            push_item(&mut messages, &mut pending_tool_results, item);
        }
        assert(items.take(items.len() as int) =~= items);
        flush_tool_results(&mut messages, &mut pending_tool_results);
        if messages.is_empty() {
            push_message(
                &mut messages,
                &mut pending_tool_results,
                "user",
                AnthropicContent::Text { text: String::new() },
            );
        }
        assert(messages_view(messages@) =~= request_messages(items));
        let tools = anthropic_tools_from_responses_tools(tools);
        let tool_choice = if tools.is_empty() {
            None
        } else {
            Some(AnthropicToolChoice::Auto)
        };
        let output_config = match reasoning {
            Some(reasoning) => anthropic_output_config(reasoning),
            None => None,
        };
        Ok(
            AnthropicMessagesRequest {
                model,
                system: instructions,
                messages,
                tools,
                tool_choice,
                stream: true,
                max_tokens: MAX_TOKENS,
                output_config,
            },
        )
    }
}

/// The error for a body that could not be encoded, for the given reason.
pub fn encoding_error(reason: &str) -> (r: ApiError)
    ensures
        r@ == ApiErrorView::Stream("failed to encode anthropic messages request: "@ + reason@),
{
    let mut message = "failed to encode anthropic messages request: ".to_owned();
    message.append(reason);
    ApiError::Stream(message)
}

/// The compression of the request body that the given choice asks for.
pub fn request_compression(compression: Compression) -> (r: RequestCompression)
    ensures
        r == (match compression {
            Compression::Off => RequestCompression::Off,
            Compression::Zstd => RequestCompression::Zstd,
        }),
{
    match compression {
        Compression::Off => RequestCompression::Off,
        Compression::Zstd => RequestCompression::Zstd,
    }
}

/// Asks for an event stream in answer, in place of whatever the headers asked for. Where the
/// headers have no room for one more name, it answers `false` and changes nothing.
pub fn accept_event_stream(headers: &mut HeaderMap) -> (done: bool)
    ensures
        header_contents(*final(headers)) == if done {
            header_contents(*old(headers)).insert(
                "accept"@,
                seq![ascii_bytes("text/event-stream"@)],
            )
        } else {
            header_contents(*old(headers))
        },
        has_room(header_contents(*old(headers))) ==> done,
{
    proof {
        reveal_strlit("accept");
        reveal_strlit("text/event-stream");
        assert(is_lower_name("accept"@));
    }
    set_header(headers, "accept", HeaderValue::from_static("text/event-stream"))
}

} // verus!
