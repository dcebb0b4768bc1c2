//! The request and response vocabulary shared by the endpoints and the stream decoders.
use crate::text::optional_text;
use serde_json::Value;
use std::collections::HashMap;
use vstd::prelude::*;

verus! {

/// One piece of a message.
#[derive(Debug, PartialEq, Eq)]
pub enum ContentItem {
    InputText { text: String },
    InputImage { image_url: String },
    OutputText { text: String },
}

pub enum ContentItemView {
    InputText { text: Seq<char> },
    InputImage { image_url: Seq<char> },
    OutputText { text: Seq<char> },
}

impl View for ContentItem {
    type V = ContentItemView;

    open spec fn view(&self) -> ContentItemView {
        match self {
            ContentItem::InputText { text } => ContentItemView::InputText { text: text@ },
            ContentItem::InputImage { image_url } => ContentItemView::InputImage {
                image_url: image_url@,
            },
            ContentItem::OutputText { text } => ContentItemView::OutputText { text: text@ },
        }
    }
}

/// The views of a list of content items.
pub open spec fn content_views(content: Seq<ContentItem>) -> Seq<ContentItemView> {
    content.map_values(|item: ContentItem| item@)
}

/// One entry of a conversation. `Other` stands for every kind of entry that the Anthropic
/// endpoint neither reads nor produces; the output of a function call is held as the text it
/// displays as.
#[derive(Debug, PartialEq, Eq)]
pub enum ResponseItem {
    Message {
        id: Option<String>,
        role: String,
        content: Vec<ContentItem>,
        phase: Option<String>,
    },
    FunctionCall {
        id: Option<String>,
        name: String,
        namespace: Option<String>,
        arguments: String,
        call_id: String,
    },
    FunctionCallOutput { call_id: String, output: String },
    Other,
}

pub enum ResponseItemView {
    Message {
        id: Option<Seq<char>>,
        role: Seq<char>,
        content: Seq<ContentItemView>,
        phase: Option<Seq<char>>,
    },
    FunctionCall {
        id: Option<Seq<char>>,
        name: Seq<char>,
        namespace: Option<Seq<char>>,
        arguments: Seq<char>,
        call_id: Seq<char>,
    },
    FunctionCallOutput { call_id: Seq<char>, output: Seq<char> },
    Other,
}

impl View for ResponseItem {
    type V = ResponseItemView;

    open spec fn view(&self) -> ResponseItemView {
        match self {
            ResponseItem::Message { id, role, content, phase } => ResponseItemView::Message {
                id: optional_text(*id),
                role: role@,
                content: content_views(content@),
                phase: optional_text(*phase),
            },
            ResponseItem::FunctionCall {
                id,
                name,
                namespace,
                arguments,
                call_id,
            } => ResponseItemView::FunctionCall {
                id: optional_text(*id),
                name: name@,
                namespace: optional_text(*namespace),
                arguments: arguments@,
                call_id: call_id@,
            },
            ResponseItem::FunctionCallOutput { call_id, output } =>
                ResponseItemView::FunctionCallOutput { call_id: call_id@, output: output@ },
            ResponseItem::Other => ResponseItemView::Other,
        }
    }
}

/// The views of a list of conversation entries.
pub open spec fn item_views(items: Seq<ResponseItem>) -> Seq<ResponseItemView> {
    items.map_values(|item: ResponseItem| item@)
}

/// How much reasoning a request asks for.
#[derive(Debug, Clone, Copy, PartialEq, Eq)]
pub enum ReasoningEffort {
    Off,
    Minimal,
    Low,
    Medium,
    High,
    XHigh,
}

#[derive(Debug, Clone, Copy, PartialEq, Eq)]
pub struct Reasoning {
    pub effort: Option<ReasoningEffort>,
}

/// A request in the shape of the Responses API.
#[derive(Debug, PartialEq, Eq)]
pub struct ResponsesApiRequest {
    pub model: String,
    pub instructions: String,
    pub input: Vec<ResponseItem>,
    pub tools: Vec<Value>,
    pub tool_choice: String,
    pub parallel_tool_calls: bool,
    pub reasoning: Option<Reasoning>,
    pub store: bool,
    pub stream: bool,
    pub include_fields: Vec<String>,
    pub service_tier: Option<String>,
    pub prompt_cache_key: Option<String>,
    pub text: Option<Value>,
    pub client_metadata: Option<HashMap<String, String>>,
}

/// Token counts of one response.
#[derive(Debug, Clone, Copy, PartialEq, Eq)]
pub struct TokenUsage {
    pub input_tokens: i64,
    pub cached_input_tokens: i64,
    pub output_tokens: i64,
    pub reasoning_output_tokens: i64,
    pub total_tokens: i64,
}

/// What a response stream yields to its reader.
#[derive(Debug, PartialEq, Eq)]
pub enum ResponseEvent {
    Created,
    OutputItemDone(ResponseItem),
    OutputTextDelta(String),
    Completed {
        response_id: String,
        token_usage: Option<TokenUsage>,
        end_turn: Option<bool>,
    },
}

pub enum ResponseEventView {
    Created,
    OutputItemDone(ResponseItemView),
    OutputTextDelta(Seq<char>),
    Completed {
        response_id: Seq<char>,
        token_usage: Option<TokenUsage>,
        end_turn: Option<bool>,
    },
}

impl View for ResponseEvent {
    type V = ResponseEventView;

    open spec fn view(&self) -> ResponseEventView {
        match self {
            ResponseEvent::Created => ResponseEventView::Created,
            ResponseEvent::OutputItemDone(item) => ResponseEventView::OutputItemDone(item@),
            ResponseEvent::OutputTextDelta(delta) => ResponseEventView::OutputTextDelta(delta@),
            ResponseEvent::Completed {
                response_id,
                token_usage,
                end_turn,
            } => ResponseEventView::Completed {
                response_id: response_id@,
                token_usage: *token_usage,
                end_turn: *end_turn,
            },
        }
    }
}

/// Why a request or a stream failed.
#[derive(Debug, PartialEq, Eq)]
pub enum ApiError {
    Stream(String),
}

pub enum ApiErrorView {
    Stream(Seq<char>),
}

impl View for ApiError {
    type V = ApiErrorView;

    open spec fn view(&self) -> ApiErrorView {
        match self {
            ApiError::Stream(message) => ApiErrorView::Stream(message@),
        }
    }
}

/// The view of what a stream hands to its reader at once: an event, or the error that ends it.
pub open spec fn outcome_view(outcome: Result<ResponseEvent, ApiError>) -> Result<
    ResponseEventView,
    ApiErrorView,
> {
    match outcome {
        Ok(event) => Ok(event@),
        Err(error) => Err(error@),
    }
}

/// The view of a content item shows what it is and all of its text.
pub proof fn law_content_is_shown_whole(items: Seq<ContentItem>, k: int)
    requires
        0 <= k < items.len(),
    ensures
        content_views(items).len() == items.len(),
        match items[k] {
            ContentItem::InputText { text } => content_views(items)[k] == (
            ContentItemView::InputText { text: text@ }),
            ContentItem::InputImage { image_url } => content_views(items)[k] == (
            ContentItemView::InputImage { image_url: image_url@ }),
            ContentItem::OutputText { text } => content_views(items)[k] == (
            ContentItemView::OutputText { text: text@ }),
        },
{
}

/// The views of a conversation show every entry at its place, with all that it says.
pub proof fn law_entries_are_shown_whole(items: Seq<ResponseItem>, k: int)
    requires
        0 <= k < items.len(),
    ensures
        item_views(items).len() == items.len(),
        match items[k] {
            ResponseItem::Message { id, role, content, phase } => item_views(items)[k]
                matches ResponseItemView::Message {
                id: shown_id,
                role: shown_role,
                content: shown_content,
                phase: shown_phase,
            } && {
                &&& shown_id is Some <==> id is Some
                &&& id matches Some(id) ==> shown_id == Some(id@)
                &&& shown_role == role@
                &&& shown_content == content_views(content@)
                &&& shown_phase is Some <==> phase is Some
                &&& phase matches Some(phase) ==> shown_phase == Some(phase@)
            },
            ResponseItem::FunctionCall {
                id,
                name,
                namespace,
                arguments,
                call_id,
            } => item_views(items)[k] matches ResponseItemView::FunctionCall {
                id: shown_id,
                name: shown_name,
                namespace: shown_namespace,
                arguments: shown_arguments,
                call_id: shown_call_id,
            } && {
                &&& shown_id is Some <==> id is Some
                &&& id matches Some(id) ==> shown_id == Some(id@)
                &&& shown_name == name@
                &&& shown_namespace is Some <==> namespace is Some
                &&& namespace matches Some(namespace) ==> shown_namespace == Some(namespace@)
                &&& shown_arguments == arguments@
                &&& shown_call_id == call_id@
            },
            ResponseItem::FunctionCallOutput { call_id, output } => item_views(items)[k] == (
            ResponseItemView::FunctionCallOutput { call_id: call_id@, output: output@ }),
            ResponseItem::Other => item_views(items)[k] is Other,
        },
{
}

/// The view of an event shows what it is and all that it carries.
pub proof fn law_response_event_is_shown_whole(event: ResponseEvent)
    ensures
        match event {
            ResponseEvent::Created => event@ is Created,
            ResponseEvent::OutputItemDone(item) => event@ == ResponseEventView::OutputItemDone(
                item_views(seq![item])[0],
            ),
            ResponseEvent::OutputTextDelta(delta) => event@ == ResponseEventView::OutputTextDelta(
                delta@,
            ),
            ResponseEvent::Completed { response_id, token_usage, end_turn } => event@ == (
            ResponseEventView::Completed { response_id: response_id@, token_usage, end_turn }),
        },
{
}

/// The view of an error shows its message.
pub proof fn law_error_is_shown_whole(error: ApiError)
    ensures
        error matches ApiError::Stream(message) ==> error@ == ApiErrorView::Stream(message@),
{
}

} // verus!
