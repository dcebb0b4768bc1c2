//! What holds of every request to the Anthropic messages endpoint.
use crate::common::{
    ApiError, ContentItemView, Reasoning, ReasoningEffort, ResponseItem, ResponseItemView,
    ResponsesApiRequest, item_views,
};
use crate::endpoint::anthropic::{
    AnthropicContentView, AnthropicEffort, AnthropicMessageView, AnthropicMessagesRequest,
    ConversationView, arguments_read_back, call_input, call_reads_back, conversation,
    empty_message, flushed, function_tool, function_tools, item_text, message_role, message_text,
    messages_request, output_config, request_messages, with_item, with_message,
};
use crate::json::{json_object, json_parsed, json_shape, json_text, reads_back, value_text};
use crate::sse::anthropic::{
    AnthropicBlock, AnthropicBlockView, AnthropicContentBlock, assistant_message, block_item,
    block_to_response_item, call_arguments, open_block, starting_input,
};
use crate::text::{blank, is_white_space, joined};
use serde_json::Value;
use vstd::prelude::*;

verus! {

/// What an entry contributes to the conversation: a non-empty text, a tool call, a tool result or
/// nothing.
pub open spec fn item_contents(item: ResponseItemView) -> Seq<AnthropicContentView> {
    match item {
        ResponseItemView::Message { content, .. } => if message_text(content).len() == 0 {
            Seq::empty()
        } else {
            seq![AnthropicContentView::Text { text: message_text(content) }]
        },
        ResponseItemView::FunctionCall { name, arguments, call_id, .. } => seq![
            AnthropicContentView::ToolUse {
                id: call_id,
                name,
                input: call_input(json_parsed(arguments), arguments),
            },
        ],
        ResponseItemView::FunctionCallOutput { call_id, output } => seq![
            AnthropicContentView::ToolResult { tool_use_id: call_id, content: output },
        ],
        ResponseItemView::Other => Seq::empty(),
    }
}

/// What the entries contribute to the conversation, in their order.
pub open spec fn all_contents(items: Seq<ResponseItemView>) -> Seq<AnthropicContentView>
    decreases items.len(),
{
    if items.len() == 0 {
        Seq::empty()
    } else {
        all_contents(items.drop_last()) + item_contents(items.last())
    }
}

/// The contents of the messages, in their order.
pub open spec fn message_contents(messages: Seq<AnthropicMessageView>) -> Seq<AnthropicContentView>
    decreases messages.len(),
{
    if messages.len() == 0 {
        Seq::empty()
    } else {
        message_contents(messages.drop_last()) + messages.last().content
    }
}

/// A message as the endpoint takes it: a single text of either side, a single tool call of the
/// assistant, or one or more tool results from the user.
pub open spec fn well_formed_message(message: AnthropicMessageView) -> bool {
    &&& message.content.len() > 0
    &&& match message.content[0] {
        AnthropicContentView::Text { .. } => message.content.len() == 1 && (message.role
            == "user"@ || message.role == "assistant"@),
        AnthropicContentView::ToolUse { .. } => message.content.len() == 1 && message.role
            == "assistant"@,
        AnthropicContentView::ToolResult { .. } => message.role == "user"@ && all_tool_results(
            message.content,
        ),
    }
}

/// Contents that are all tool results.
pub open spec fn all_tool_results(contents: Seq<AnthropicContentView>) -> bool {
    forall|k: int| 0 <= k < contents.len() ==> (#[trigger] contents[k]) is ToolResult
}

proof fn lemma_push_message(messages: Seq<AnthropicMessageView>, message: AnthropicMessageView)
    ensures
        message_contents(messages.push(message)) == message_contents(messages) + message.content,
{
    assert(messages.push(message).drop_last() =~= messages);
}

proof fn lemma_flush(c: ConversationView)
    ensures
        message_contents(flushed(c).messages) == message_contents(c.messages) + c.pending,
        flushed(c).pending.len() == 0,
{
    if c.pending.len() == 0 {
        assert(message_contents(c.messages) + c.pending =~= message_contents(c.messages));
    } else {
        lemma_push_message(
            c.messages,
            AnthropicMessageView { role: "user"@, content: c.pending },
        );
    }
}

proof fn lemma_contents_so_far(items: Seq<ResponseItemView>)
    ensures
        message_contents(conversation(items).messages) + conversation(items).pending
            == all_contents(items),
    decreases items.len(),
{
    let c = conversation(items);
    if items.len() == 0 {
        assert(message_contents(c.messages) + c.pending =~= all_contents(items));
    } else {
        let before = conversation(items.drop_last());
        lemma_contents_so_far(items.drop_last());
        lemma_flush(before);
        match items.last() {
            ResponseItemView::Message { role, content, .. } => {
                let text = message_text(content);
                if text.len() > 0 {
                    lemma_push_message(
                        flushed(before).messages,
                        AnthropicMessageView {
                            role: message_role(role),
                            content: seq![AnthropicContentView::Text { text }],
                        },
                    );
                }
            },
            ResponseItemView::FunctionCall { .. } => {
                lemma_push_message(
                    flushed(before).messages,
                    AnthropicMessageView {
                        role: "assistant"@,
                        content: item_contents(items.last()),
                    },
                );
            },
            ResponseItemView::FunctionCallOutput { .. } => {},
            ResponseItemView::Other => {},
        }
        assert(message_contents(c.messages) + c.pending =~= all_contents(items.drop_last())
            + item_contents(items.last()));
    }
}

/// Nothing that the entries contribute is lost, added or reordered: the contents of the messages
/// are what the entries contribute, in their order. Only where the entries contribute nothing is
/// there something else: a single empty user message.
pub proof fn law_contents_in_order(items: Seq<ResponseItemView>)
    ensures
        all_contents(items).len() > 0 ==> message_contents(request_messages(items))
            == all_contents(items),
        all_contents(items).len() == 0 ==> request_messages(items) == seq![empty_message()],
{
    let c = conversation(items);
    lemma_contents_so_far(items);
    lemma_flush(c);
    law_messages_are_well_formed(items);
    let messages = flushed(c).messages;
    if all_contents(items).len() == 0 && messages.len() > 0 {
        assert(request_messages(items) == messages);
        assert(well_formed_message(messages[messages.len() - 1]));
        assert(message_contents(messages).len() >= messages.last().content.len());
    }
}

proof fn lemma_well_formed_so_far(items: Seq<ResponseItemView>)
    ensures
        forall|k: int|
            0 <= k < conversation(items).messages.len() ==> well_formed_message(
                #[trigger] conversation(items).messages[k],
            ),
        all_tool_results(conversation(items).pending),
    decreases items.len(),
{
    if items.len() > 0 {
        lemma_well_formed_so_far(items.drop_last());
        let before = conversation(items.drop_last());
        assert forall|k: int| 0 <= k < flushed(before).messages.len() implies well_formed_message(
            #[trigger] flushed(before).messages[k],
        ) by {
            if k < before.messages.len() {
                assert(flushed(before).messages[k] == before.messages[k]);
            }
        }
        assert forall|k: int| 0 <= k < conversation(items).messages.len() implies
            well_formed_message(#[trigger] conversation(items).messages[k]) by {
            if k < before.messages.len() {
                assert(conversation(items).messages[k] == before.messages[k]);
            } else if k < flushed(before).messages.len() {
                assert(conversation(items).messages[k] == flushed(before).messages[k]);
            }
        }
    }
}

/// Every request has at least one message, and every message is well formed.
pub proof fn law_messages_are_well_formed(items: Seq<ResponseItemView>)
    ensures
        request_messages(items).len() > 0,
        forall|k: int|
            0 <= k < request_messages(items).len() ==> well_formed_message(
                #[trigger] request_messages(items)[k],
            ),
{
    lemma_well_formed_so_far(items);
    let c = conversation(items);
    assert forall|k: int| 0 <= k < request_messages(items).len() implies well_formed_message(
        #[trigger] request_messages(items)[k],
    ) by {
        if k < c.messages.len() {
            assert(request_messages(items)[k] == c.messages[k]);
        }
    }
}

/// An entry that neither is a message nor a function call.
pub open spec fn is_quiet(item: ResponseItemView) -> bool {
    item is FunctionCallOutput || item is Other
}

/// Tool results wait for each other: entries that are neither messages nor function calls add no
/// message, and their tool results are kept in order behind those that already wait.
pub proof fn law_tool_results_wait(
    before: Seq<ResponseItemView>,
    results: Seq<ResponseItemView>,
)
    requires
        forall|k: int| 0 <= k < results.len() ==> is_quiet(#[trigger] results[k]),
    ensures
        conversation(before + results).messages == conversation(before).messages,
        conversation(before + results).pending == conversation(before).pending + all_contents(
            results,
        ),
    decreases results.len(),
{
    if results.len() == 0 {
        assert(before + results =~= before);
        assert(conversation(before).pending + Seq::<AnthropicContentView>::empty()
            =~= conversation(before).pending);
    } else {
        let rest = results.drop_last();
        assert((before + results).drop_last() =~= before + rest);
        assert((before + results).last() == results.last());
        assert(is_quiet(results[results.len() - 1]));
        assert forall|k: int| 0 <= k < rest.len() implies is_quiet(#[trigger] rest[k]) by {
            assert(rest[k] == results[k]);
        }
        law_tool_results_wait(before, rest);
        assert(conversation(before + results).pending =~= conversation(before).pending + (
        all_contents(rest) + item_contents(results.last())));
    }
}

/// Tool results that no message and no function call parts go into one user message, which is
/// the last one where nothing follows them.
pub proof fn law_tool_results_share_a_message(
    before: Seq<ResponseItemView>,
    results: Seq<ResponseItemView>,
)
    requires
        conversation(before).pending.len() == 0,
        forall|k: int| 0 <= k < results.len() ==> is_quiet(#[trigger] results[k]),
        all_contents(results).len() > 0,
    ensures
        request_messages(before + results) == conversation(before).messages.push(
            AnthropicMessageView { role: "user"@, content: all_contents(results) },
        ),
{
    law_tool_results_wait(before, results);
    assert(conversation(before).pending + all_contents(results) =~= all_contents(results));
}

/// A message or a function call sends the tool results before it ahead: none wait after it.
pub proof fn law_messages_and_calls_let_nothing_wait(
    before: ConversationView,
    item: ResponseItemView,
)
    requires
        !is_quiet(item),
    ensures
        with_item(before, item).pending.len() == 0,
        flushed(before).messages.is_prefix_of(with_item(before, item).messages),
{
}

/// Flushing twice is flushing once.
pub proof fn law_flush_once(c: ConversationView)
    ensures
        flushed(flushed(c)) == flushed(c),
{
}

/// The tools of a list are the tools of its two parts, one after the other.
pub proof fn law_tools_in_parts(first: Seq<Value>, second: Seq<Value>)
    ensures
        function_tools(first + second) == function_tools(first) + function_tools(second),
    decreases second.len(),
{
    if second.len() == 0 {
        assert(first + second =~= first);
        assert(function_tools(first) + function_tools(second) =~= function_tools(first));
    } else {
        law_tools_in_parts(first, second.drop_last());
        assert((first + second).drop_last() =~= first + second.drop_last());
        assert((first + second).last() == second.last());
        assert(function_tools(first + second) =~= function_tools(first) + function_tools(second));
    }
}

/// Every tool of a request stands for one of the descriptions it was made from.
pub proof fn law_every_tool_was_described(tools: Seq<Value>, k: int)
    requires
        0 <= k < function_tools(tools).len(),
    ensures
        exists|j: int|
            0 <= j < tools.len() && #[trigger] function_tool(tools[j]) == Some(
                function_tools(tools)[k],
            ),
{
    let pick = |tool: Value| function_tool(tool);
    assert(tools.filter_map(pick).contains(function_tools(tools)[k]));
    tools.lemma_filter_map_contains(pick, function_tools(tools)[k]);
    let tool = choose|tool: Value| #[trigger]
        tools.contains(tool) && pick(tool) == Some(function_tools(tools)[k]);
    let j = choose|j: int| 0 <= j < tools.len() && tools[j] == tool;
    assert(function_tool(tools[j]) == Some(function_tools(tools)[k]));
}

/// A request lets the model choose a tool exactly when it offers one.
pub proof fn law_choice_only_with_tools(
    model: Seq<char>,
    instructions: Seq<char>,
    items: Seq<ResponseItemView>,
    tools: Seq<Value>,
    reasoning: Option<Reasoning>,
)
    ensures
        messages_request(model, instructions, items, tools, reasoning).tool_choice is Some
            <==> messages_request(model, instructions, items, tools, reasoning).tools.len() > 0,
{
}

/// A request sets an effort exactly when it asks for reasoning, and the two highest efforts are
/// the same.
pub proof fn law_effort_only_with_reasoning(reasoning: Reasoning)
    ensures
        output_config(reasoning) is None <==> reasoning.effort is None || reasoning.effort == Some(
            ReasoningEffort::Off,
        ),
        reasoning.effort == Some(ReasoningEffort::High) || reasoning.effort == Some(
            ReasoningEffort::XHigh,
        ) <==> output_config(reasoning) is Some && output_config(reasoning)->0.effort
            == AnthropicEffort::High,
{
}

/// A streamed tool call that is sent back keeps its id and its name, and its input is read from
/// the arguments it was finished with.
pub proof fn law_streamed_call_is_replayed(
    before: ConversationView,
    id: Seq<char>,
    name: Seq<char>,
    input_json: Seq<char>,
)
    ensures
        ({
            let arguments = call_arguments(input_json);
            block_item(AnthropicBlockView::ToolUse { id, name, input_json }) matches Some(item)
                && with_item(before, item) == with_message(
                before,
                "assistant"@,
                AnthropicContentView::ToolUse {
                    id,
                    name,
                    input: call_input(json_parsed(arguments), arguments),
                },
            )
        }),
{
}

/// A streamed text that is sent back is a message of the assistant with the same text, unless it
/// is empty.
pub proof fn law_streamed_text_is_replayed(before: ConversationView, text: Seq<char>)
    requires
        text.len() > 0,
    ensures
        block_item(AnthropicBlockView::Text(text)) == Some(assistant_message(text)),
        with_item(before, assistant_message(text)) == with_message(
            before,
            "assistant"@,
            AnthropicContentView::Text { text },
        ),
{
    let content = seq![ContentItemView::OutputText { text }];
    let pick = |item: ContentItemView| item_text(item);
    assert(content.drop_last() =~= Seq::empty());
    assert(content.drop_last().filter_map(pick) =~= Seq::empty());
    assert(content.filter_map(pick) =~= seq![text]);
    assert(joined(seq![text], "\n"@) == text);
    assert(message_text(content) == text);
}

/// The message with a single tool call of the assistant.
pub open spec fn assistant_call(
    id: Seq<char>,
    name: Seq<char>,
    input: Value,
) -> AnthropicMessageView {
    AnthropicMessageView {
        role: "assistant"@,
        content: seq![AnthropicContentView::ToolUse { id, name, input }],
    }
}

proof fn lemma_single_entry(item: ResponseItemView)
    ensures
        conversation(seq![item]) == with_item(conversation(Seq::empty()), item),
{
    assert(seq![item].drop_last() =~= Seq::empty());
}

/// A streamed tool call whose arguments read as a value is sent back with the same id, the same
/// name and that value as its input.
pub proof fn law_replayed_call_has_the_read_input(
    id: Seq<char>,
    name: Seq<char>,
    input_json: Seq<char>,
    input: Value,
)
    requires
        json_parsed(call_arguments(input_json)) == Some(input),
    ensures
        block_item(AnthropicBlockView::ToolUse { id, name, input_json }) matches Some(item)
            && request_messages(seq![item]) == seq![assistant_call(id, name, input)],
{
    let item = block_item(AnthropicBlockView::ToolUse { id, name, input_json })->0;
    lemma_single_entry(item);
    assert(request_messages(seq![item]) =~= seq![assistant_call(id, name, input)]);
}

/// A streamed tool call is sent back with the input it was streamed with: the value whose text
/// was streamed, or the object without fields where nothing but whitespace was.
/// `arguments_read_back` is what building a request ensures of every function call in it.
pub proof fn law_replayed_call_keeps_its_input(
    id: Seq<char>,
    name: Seq<char>,
    input_json: Seq<char>,
    input: Value,
)
    requires
        arguments_read_back(call_arguments(input_json)),
        if blank(input_json) {
            input == json_object(Map::empty())
        } else {
            reads_back(input) && input_json == json_text(input)
        },
    ensures
        block_item(AnthropicBlockView::ToolUse { id, name, input_json }) matches Some(item)
            && request_messages(seq![item]) == seq![assistant_call(id, name, input)],
{
    law_replayed_call_has_the_read_input(id, name, input_json, input);
}

/// The request that follows a streamed tool call, with that call as its only entry. The call's
/// input came as a text in deltas, or complete with the start of the block. An input that reads
/// back from its text is sent back unchanged, with the same id and name; only a `null` with the
/// start of the block stands for no input.
pub fn request_after_call(
    request: ResponsesApiRequest,
    id: String,
    name: String,
    input: Value,
    in_deltas: bool,
) -> (r: Result<AnthropicMessagesRequest, ApiError>)
    ensures
        ({
            let input_json = if in_deltas {
                json_text(input)
            } else {
                starting_input(input)
            };
            let block = AnthropicBlockView::ToolUse { id: id@, name: name@, input_json };
            block_item(block) matches Some(item) && r matches Ok(body) && body@ == messages_request(
                request.model@,
                request.instructions@,
                seq![item],
                request.tools@,
                request.reasoning,
            )
        }),
        reads_back(input) && (in_deltas || !(json_shape(input) is Null)) ==> r->Ok_0@.messages
            == seq![assistant_call(id@, name@, input)],
{
    let ghost (call_id, call_name) = (id@, name@);
    let block = if in_deltas {
        let input_json = value_text(&input);
        AnthropicBlock::ToolUse { id, name, input_json }
    } else {
        open_block(Some(AnthropicContentBlock::ToolUse { id, name, input }))
    };
    let ghost input_json = block@->input_json;
    let mut entries: Vec<ResponseItem> = Vec::new();
    if let Some(item) = block_to_response_item(block) {
        entries.push(item);
    }
    let ghost items = item_views(entries@);
    let request = ResponsesApiRequest { input: entries, ..request };
    let r = AnthropicMessagesRequest::from_responses_request(request);
    proof {
        let item = block_item(block@)->0;
        assert(items =~= seq![item]);
        assert(call_reads_back(items[0]));
        if reads_back(input) && (in_deltas || !(json_shape(input) is Null)) {
            reveal_strlit("{}");
            assert(input_json.len() > 0 ==> !blank(input_json)) by {
                assert(!is_white_space("{}"@[0]));
            }
            law_replayed_call_keeps_its_input(call_id, call_name, input_json, input);
        }
    }
    r
}

/// Where the tool result of the entry with the given number goes: the number of its message, and
/// its place among the contents of that message.
pub open spec fn result_place(items: Seq<ResponseItemView>, k: int) -> (nat, nat) {
    let before = conversation(items.take(k));
    (before.messages.len(), before.pending.len())
}

/// A content is at a place of a conversation, in a message or among the waiting tool results.
spec fn is_at(c: ConversationView, place: (nat, nat), content: AnthropicContentView) -> bool {
    if c.messages.len() == place.0 {
        c.pending.len() > place.1 && c.pending[place.1 as int] == content
    } else {
        &&& c.messages.len() > place.0
        &&& c.messages[place.0 as int].content.len() > place.1
        &&& c.messages[place.0 as int].content[place.1 as int] == content
    }
}

proof fn lemma_stays_at(
    items: Seq<ResponseItemView>,
    k: int,
    until: int,
    content: AnthropicContentView,
)
    requires
        0 <= k < until <= items.len(),
        items[k] is FunctionCallOutput,
        item_contents(items[k]) == seq![content],
    ensures
        is_at(conversation(items.take(until)), result_place(items, k), content),
    decreases until,
{
    let before = items.take(until - 1);
    assert(items.take(until).drop_last() =~= before);
    assert(items.take(until).last() == items[until - 1]);
    if until == k + 1 {
        assert(item_contents(items[k])[0] == content);
    } else {
        lemma_stays_at(items, k, until - 1, content);
    }
}

/// Every tool result is found at its place.
pub proof fn law_tool_result_is_at_its_place(items: Seq<ResponseItemView>, k: int)
    requires
        0 <= k < items.len(),
        items[k] is FunctionCallOutput,
    ensures
        ({
            let place = result_place(items, k);
            &&& place.0 < request_messages(items).len()
            &&& place.1 < request_messages(items)[place.0 as int].content.len()
            &&& item_contents(items[k]) == seq![
                request_messages(items)[place.0 as int].content[place.1 as int],
            ]
        }),
{
    lemma_stays_at(items, k, items.len() as int, item_contents(items[k])[0]);
    assert(items.take(items.len() as int) =~= items);
}

/// All entries strictly between two numbers are neither messages nor function calls.
pub open spec fn quiet_between(items: Seq<ResponseItemView>, first: int, second: int) -> bool {
    forall|k: int| first < k < second ==> is_quiet(#[trigger] items[k])
}

proof fn lemma_parted(items: Seq<ResponseItemView>, first: int, until: int)
    requires
        0 <= first < until <= items.len(),
        items[first] is FunctionCallOutput,
    ensures
        ({
            let start = conversation(items.take(first)).messages.len();
            let c = conversation(items.take(until));
            if quiet_between(items, first, until) {
                c.messages.len() == start && c.pending.len() > 0
            } else {
                c.messages.len() > start
            }
        }),
    decreases until,
{
    assert(items.take(until).drop_last() =~= items.take(until - 1));
    assert(items.take(until).last() == items[until - 1]);
    if until > first + 1 {
        lemma_parted(items, first, until - 1);
        if quiet_between(items, first, until - 1) && is_quiet(items[until - 1]) {
            assert forall|k: int| first < k < until implies is_quiet(#[trigger] items[k]) by {}
        }
    }
}

/// Two tool results share a message exactly when no message and no function call lies between
/// them.
pub proof fn law_tool_results_share_exactly(items: Seq<ResponseItemView>, first: int, second: int)
    requires
        0 <= first < second < items.len(),
        items[first] is FunctionCallOutput,
        items[second] is FunctionCallOutput,
    ensures
        result_place(items, first).0 == result_place(items, second).0 <==> quiet_between(
            items,
            first,
            second,
        ),
{
    lemma_parted(items, first, second);
}

proof fn lemma_message_count(items: Seq<ResponseItemView>)
    ensures
        flushed(conversation(items)).messages.len() <= items.len(),
    decreases items.len(),
{
    if items.len() > 0 {
        lemma_message_count(items.drop_last());
    }
}

/// A request has no more messages than there are entries, but for the single empty one that it
/// has where there are none.
pub proof fn law_no_more_messages_than_entries(items: Seq<ResponseItemView>)
    ensures
        request_messages(items).len() <= items.len() || request_messages(items) == seq![
            empty_message(),
        ],
{
    lemma_message_count(items);
}

} // verus!
