//! What the body of a request to the Anthropic messages endpoint holds.
//!
//! The laws on the messages compare two bodies: that for some entries, and that for the same
//! entries and one more. With the body for no entries they say what every body holds.
use crate::common::{ContentItemView, Reasoning, ReasoningEffort, ResponseItemView};
use crate::endpoint::anthropic::{
    AnthropicContent, AnthropicContentView, AnthropicEffort, AnthropicMessage,
    AnthropicMessageView, AnthropicMessagesRequest, AnthropicTool, AnthropicToolChoice,
    MESSAGES_PATH, call_input, conversation, flushed, function_tool, function_tools, item_text,
    message_text, messages_request, output_config, request_messages, with_item,
};
use crate::endpoint::laws::{
    all_contents, law_contents_in_order, law_messages_are_well_formed, message_contents,
    well_formed_message,
};
use crate::json::{JsonShape, json_object, json_parsed, json_shape, json_string};
use crate::text::law_joined_in_parts;
use serde_json::Value;
use vstd::prelude::*;

verus! {

/// Whatever else is asked for, a body carries the model and the instructions unchanged, asks for a
/// stream, limits the response to 4096 tokens, lets the model choose a tool exactly when it offers
/// one, and sets the effort that the reasoning asks for.
pub proof fn law_body_carries_the_request(
    model: Seq<char>,
    instructions: Seq<char>,
    items: Seq<ResponseItemView>,
    tools: Seq<Value>,
    reasoning: Option<Reasoning>,
)
    ensures
        ({
            let body = messages_request(model, instructions, items, tools, reasoning);
            &&& body.model == model
            &&& body.system == instructions
            &&& body.stream
            &&& body.max_tokens == 4096
            &&& body.tools.len() == 0 ==> body.tool_choice is None
            &&& body.tools.len() > 0 ==> body.tool_choice == Some(AnthropicToolChoice::Auto)
            &&& reasoning is None ==> body.output_config is None
            &&& reasoning matches Some(asked) ==> match asked.effort {
                None => body.output_config is None,
                Some(ReasoningEffort::Off) => body.output_config is None,
                Some(ReasoningEffort::Minimal) => body.output_config is Some
                    && body.output_config->0.effort is Minimal,
                Some(ReasoningEffort::Low) => body.output_config is Some
                    && body.output_config->0.effort is Low,
                Some(ReasoningEffort::Medium) => body.output_config is Some
                    && body.output_config->0.effort is Medium,
                Some(ReasoningEffort::High) => body.output_config is Some
                    && body.output_config->0.effort is High,
                Some(ReasoningEffort::XHigh) => body.output_config is Some
                    && body.output_config->0.effort is High,
            }
        }),
{
}

/// The endpoint is found under `messages`.
pub proof fn law_endpoint_path()
    ensures
        MESSAGES_PATH@ == "messages"@,
{
}

/// The messages of a body depend on nothing but the entries.
pub proof fn law_messages_come_from_the_entries(
    items: Seq<ResponseItemView>,
    model: Seq<char>,
    instructions: Seq<char>,
    tools: Seq<Value>,
    reasoning: Option<Reasoning>,
    other_model: Seq<char>,
    other_instructions: Seq<char>,
    other_tools: Seq<Value>,
    other_reasoning: Option<Reasoning>,
)
    ensures
        messages_request(model, instructions, items, tools, reasoning).messages
            == messages_request(
            other_model,
            other_instructions,
            items,
            other_tools,
            other_reasoning,
        ).messages,
{
}

/// Whatever their number, the messages of a body hold exactly what all entries contribute, in
/// order. Only where the entries contribute nothing is there something else: an empty question.
pub proof fn law_body_holds_all_contents(
    model: Seq<char>,
    instructions: Seq<char>,
    items: Seq<ResponseItemView>,
    tools: Seq<Value>,
    reasoning: Option<Reasoning>,
)
    ensures
        ({
            let messages = messages_request(model, instructions, items, tools, reasoning).messages;
            &&& all_contents(items).len() > 0 ==> message_contents(messages) == all_contents(items)
            &&& all_contents(items).len() == 0 ==> message_contents(messages) == seq![
                AnthropicContentView::Text { text: Seq::empty() },
            ]
            &&& messages.len() > 0
            &&& forall|k: int|
                0 <= k < messages.len() ==> well_formed_message(#[trigger] messages[k])
        }),
{
    law_contents_in_order(items);
    law_messages_are_well_formed(items);
    if all_contents(items).len() == 0 {
        let messages = request_messages(items);
        assert(messages.drop_last() =~= Seq::empty());
        assert(message_contents(Seq::empty()).len() == 0);
        assert(message_contents(messages) =~= messages[0].content);
    }
}

/// An entry that says something: a message with text, a call or the result of one.
pub open spec fn says_something(item: ResponseItemView) -> bool {
    match item {
        ResponseItemView::Message { content, .. } => message_text(content).len() > 0,
        ResponseItemView::FunctionCall { .. } => true,
        ResponseItemView::FunctionCallOutput { .. } => true,
        ResponseItemView::Other => false,
    }
}

/// Some of the entries say something.
pub open spec fn some_say_something(items: Seq<ResponseItemView>) -> bool {
    exists|k: int| 0 <= k < items.len() && says_something(#[trigger] items[k])
}

/// The last entry of a kind that is known is the result of a call.
pub open spec fn ends_with_result(items: Seq<ResponseItemView>) -> bool {
    exists|k: int|
        0 <= k < items.len() && (#[trigger] items[k]) is FunctionCallOutput && forall|j: int|
            k < j < items.len() ==> (#[trigger] items[j]) is Other
}

/// The messages of the body for the given entries, without the empty question that stands in for
/// entries that say nothing.
pub open spec fn said_so_far(
    items: Seq<ResponseItemView>,
    messages: Seq<AnthropicMessageView>,
) -> Seq<AnthropicMessageView> {
    if some_say_something(items) {
        messages
    } else {
        Seq::empty()
    }
}

proof fn lemma_ends_with_result(items: Seq<ResponseItemView>)
    ensures
        conversation(items).pending.len() > 0 <==> ends_with_result(items),
    decreases items.len(),
{
    if items.len() > 0 {
        let rest = items.drop_last();
        let last = items.len() - 1;
        lemma_ends_with_result(rest);
        assert(items.last() == items[last]);
        match items.last() {
            ResponseItemView::FunctionCallOutput { .. } => {
                assert(items[last] is FunctionCallOutput);
            },
            ResponseItemView::Other => {
                if ends_with_result(rest) {
                    let k = choose|k: int|
                        0 <= k < rest.len() && (#[trigger] rest[k]) is FunctionCallOutput
                            && forall|j: int|
                            k < j < rest.len() ==> (#[trigger] rest[j]) is Other;
                    assert(items[k] == rest[k]);
                    assert forall|j: int| k < j < items.len() implies (
                    #[trigger] items[j]) is Other by {
                        if j < last {
                            assert(items[j] == rest[j]);
                        }
                    }
                }
                if ends_with_result(items) {
                    let k = choose|k: int|
                        0 <= k < items.len() && (#[trigger] items[k]) is FunctionCallOutput
                            && forall|j: int|
                            k < j < items.len() ==> (#[trigger] items[j]) is Other;
                    assert(items[k] == rest[k]);
                    assert forall|j: int| k < j < rest.len() implies (
                    #[trigger] rest[j]) is Other by {
                        assert(items[j] == rest[j]);
                    }
                }
            },
            _ => {
                assert(!(items[last] is Other));
            },
        }
    }
}

proof fn lemma_some_say_something(items: Seq<ResponseItemView>)
    ensures
        flushed(conversation(items)).messages.len() > 0 <==> some_say_something(items),
    decreases items.len(),
{
    if items.len() > 0 {
        let rest = items.drop_last();
        let last = items.len() - 1;
        lemma_some_say_something(rest);
        assert(items.last() == items[last]);
        if some_say_something(rest) {
            let k = choose|k: int| 0 <= k < rest.len() && says_something(#[trigger] rest[k]);
            assert(items[k] == rest[k]);
        }
        if some_say_something(items) && !says_something(items.last()) {
            let k = choose|k: int| 0 <= k < items.len() && says_something(#[trigger] items[k]);
            assert(items[k] == rest[k]);
        }
    }
}

proof fn lemma_one_more(items: Seq<ResponseItemView>, item: ResponseItemView)
    ensures
        conversation(items.push(item)) == with_item(conversation(items), item),
        flushed(conversation(items)).messages == said_so_far(items, request_messages(items)),
        conversation(items).pending.len() > 0 <==> ends_with_result(items),
{
    assert(items.push(item).drop_last() =~= items);
    lemma_some_say_something(items);
    lemma_ends_with_result(items);
    let messages = flushed(conversation(items)).messages;
    if messages.len() == 0 {
        assert(messages =~= Seq::empty());
    }
}

/// Without entries a body asks an empty question.
pub proof fn law_body_without_entries(
    model: Seq<char>,
    instructions: Seq<char>,
    tools: Seq<Value>,
    reasoning: Option<Reasoning>,
)
    ensures
        messages_request(model, instructions, Seq::empty(), tools, reasoning).messages == seq![
            AnthropicMessageView {
                role: "user"@,
                content: seq![AnthropicContentView::Text { text: Seq::empty() }],
            },
        ],
{
}

/// A message with text adds one message to those of the entries before it: the text alone, from
/// the assistant where the assistant wrote it, else from the user. One without text adds none.
pub proof fn law_body_with_a_message(
    model: Seq<char>,
    instructions: Seq<char>,
    items: Seq<ResponseItemView>,
    tools: Seq<Value>,
    reasoning: Option<Reasoning>,
    id: Option<Seq<char>>,
    role: Seq<char>,
    content: Seq<ContentItemView>,
    phase: Option<Seq<char>>,
)
    ensures
        ({
            let item = ResponseItemView::Message { id, role, content, phase };
            let before = messages_request(model, instructions, items, tools, reasoning).messages;
            let after = messages_request(
                model,
                instructions,
                items.push(item),
                tools,
                reasoning,
            ).messages;
            &&& message_text(content).len() == 0 ==> after == before
            &&& message_text(content).len() > 0 ==> after == said_so_far(items, before).push(
                AnthropicMessageView {
                    role: if role == "assistant"@ {
                        "assistant"@
                    } else {
                        "user"@
                    },
                    content: seq![AnthropicContentView::Text { text: message_text(content) }],
                },
            )
        }),
{
    lemma_one_more(items, ResponseItemView::Message { id, role, content, phase });
}

/// A call adds one message of the assistant to those of the entries before it, with the id and
/// the name of the call. Its input is the value that the arguments read as, or the arguments
/// themselves as a text where they do not read as any.
pub proof fn law_body_with_a_call(
    model: Seq<char>,
    instructions: Seq<char>,
    items: Seq<ResponseItemView>,
    tools: Seq<Value>,
    reasoning: Option<Reasoning>,
    id: Option<Seq<char>>,
    name: Seq<char>,
    namespace: Option<Seq<char>>,
    arguments: Seq<char>,
    call_id: Seq<char>,
)
    ensures
        ({
            let item = ResponseItemView::FunctionCall { id, name, namespace, arguments, call_id };
            let before = messages_request(model, instructions, items, tools, reasoning).messages;
            let after = messages_request(
                model,
                instructions,
                items.push(item),
                tools,
                reasoning,
            ).messages;
            after == said_so_far(items, before).push(
                AnthropicMessageView {
                    role: "assistant"@,
                    content: seq![
                        AnthropicContentView::ToolUse {
                            id: call_id,
                            name,
                            input: match json_parsed(arguments) {
                                Some(value) => value,
                                None => json_string(arguments),
                            },
                        },
                    ],
                },
            )
        }),
{
    lemma_one_more(
        items,
        ResponseItemView::FunctionCall { id, name, namespace, arguments, call_id },
    );
}

/// The result of a call joins the results right before it in their message, and begins a message
/// of the user where there are none. It carries the id of the call and all of its output.
pub proof fn law_body_with_a_result(
    model: Seq<char>,
    instructions: Seq<char>,
    items: Seq<ResponseItemView>,
    tools: Seq<Value>,
    reasoning: Option<Reasoning>,
    call_id: Seq<char>,
    output: Seq<char>,
)
    ensures
        ({
            let item = ResponseItemView::FunctionCallOutput { call_id, output };
            let result = AnthropicContentView::ToolResult { tool_use_id: call_id, content: output };
            let before = messages_request(model, instructions, items, tools, reasoning).messages;
            let after = messages_request(
                model,
                instructions,
                items.push(item),
                tools,
                reasoning,
            ).messages;
            if ends_with_result(items) {
                &&& before.last().role == "user"@
                &&& after == before.drop_last().push(
                    AnthropicMessageView {
                        role: "user"@,
                        content: before.last().content.push(result),
                    },
                )
            } else {
                after == said_so_far(items, before).push(
                    AnthropicMessageView { role: "user"@, content: seq![result] },
                )
            }
        }),
{
    let item = ResponseItemView::FunctionCallOutput { call_id, output };
    let result = AnthropicContentView::ToolResult { tool_use_id: call_id, content: output };
    lemma_one_more(items, item);
    let c = conversation(items);
    if ends_with_result(items) {
        assert(flushed(c).messages.drop_last() =~= c.messages);
    } else {
        assert(c.pending.push(result) =~= seq![result]);
    }
}

/// An entry of any other kind changes nothing.
pub proof fn law_body_with_another_entry(
    model: Seq<char>,
    instructions: Seq<char>,
    items: Seq<ResponseItemView>,
    tools: Seq<Value>,
    reasoning: Option<Reasoning>,
)
    ensures
        messages_request(
            model,
            instructions,
            items.push(ResponseItemView::Other),
            tools,
            reasoning,
        ) == messages_request(model, instructions, items, tools, reasoning),
{
    lemma_one_more(items, ResponseItemView::Other);
}

/// Some item of a message is a text.
pub open spec fn has_text(content: Seq<ContentItemView>) -> bool {
    exists|k: int| 0 <= k < content.len() && !((#[trigger] content[k]) is InputImage)
}

proof fn lemma_texts_in_parts(first: Seq<ContentItemView>, second: Seq<ContentItemView>)
    ensures
        (first + second).filter_map(|item: ContentItemView| item_text(item)) == first.filter_map(
            |item: ContentItemView| item_text(item),
        ) + second.filter_map(|item: ContentItemView| item_text(item)),
    decreases second.len(),
{
    let pick = |item: ContentItemView| item_text(item);
    if second.len() == 0 {
        assert(first + second =~= first);
        assert(first.filter_map(pick) + second.filter_map(pick) =~= first.filter_map(pick));
    } else {
        lemma_texts_in_parts(first, second.drop_last());
        assert((first + second).drop_last() =~= first + second.drop_last());
        assert((first + second).last() == second.last());
        assert((first + second).filter_map(pick) =~= first.filter_map(pick) + second.filter_map(
            pick,
        ));
    }
}

proof fn lemma_has_text(content: Seq<ContentItemView>)
    ensures
        content.filter_map(|item: ContentItemView| item_text(item)).len() > 0 <==> has_text(
            content,
        ),
    decreases content.len(),
{
    if content.len() > 0 {
        let rest = content.drop_last();
        lemma_has_text(rest);
        assert(content.last() == content[content.len() - 1]);
        if has_text(rest) {
            let k = choose|k: int| 0 <= k < rest.len() && !((#[trigger] rest[k]) is InputImage);
            assert(content[k] == rest[k]);
        }
        if has_text(content) && content.last() is InputImage {
            let k = choose|k: int|
                0 <= k < content.len() && !((#[trigger] content[k]) is InputImage);
            assert(content[k] == rest[k]);
        }
    }
}

/// A message without items has no text, and one with a single text has exactly that text.
pub proof fn law_text_of_one(text: Seq<char>)
    ensures
        message_text(Seq::empty()).len() == 0,
        message_text(seq![ContentItemView::InputText { text }]) == text,
        message_text(seq![ContentItemView::OutputText { text }]) == text,
{
    let pick = |item: ContentItemView| item_text(item);
    let input = seq![ContentItemView::InputText { text }];
    let output = seq![ContentItemView::OutputText { text }];
    assert(input.drop_last() =~= Seq::empty());
    assert(output.drop_last() =~= Seq::empty());
    reveal_with_fuel(Seq::filter_map, 2);
    assert(input.filter_map(pick) =~= seq![text]);
    assert(output.filter_map(pick) =~= seq![text]);
}

/// An image adds nothing to the text of a message.
pub proof fn law_images_have_no_text(
    first: Seq<ContentItemView>,
    image_url: Seq<char>,
    second: Seq<ContentItemView>,
)
    ensures
        message_text(first.push(ContentItemView::InputImage { image_url }) + second)
            == message_text(first + second),
{
    let pick = |item: ContentItemView| item_text(item);
    let with_image = first.push(ContentItemView::InputImage { image_url });
    assert(with_image.drop_last() =~= first);
    lemma_texts_in_parts(with_image, second);
    lemma_texts_in_parts(first, second);
    assert((with_image + second).filter_map(pick) =~= (first + second).filter_map(pick));
}

/// The text of a message is that of its two halves, on lines of their own.
pub proof fn law_text_in_parts(first: Seq<ContentItemView>, second: Seq<ContentItemView>)
    requires
        has_text(first),
        has_text(second),
    ensures
        message_text(first + second) == message_text(first) + seq!['\n'] + message_text(second),
{
    let pick = |item: ContentItemView| item_text(item);
    lemma_texts_in_parts(first, second);
    lemma_has_text(first);
    lemma_has_text(second);
    law_joined_in_parts(first.filter_map(pick), second.filter_map(pick), "\n"@);
    reveal_strlit("\n");
    assert("\n"@ =~= seq!['\n']);
}

/// A description is a tool exactly when it is an object of type `function` with a text for a name.
/// The tool has that name, the description that is given as a text, and for its schema the
/// parameters that are given, whatever they are.
pub proof fn law_tool_is_as_described(tool: Value, fields: Map<Seq<char>, Value>)
    requires
        json_shape(tool) == JsonShape::Object(fields),
    ensures
        function_tool(tool) is Some <==> {
            &&& fields.contains_key("type"@)
            &&& json_shape(fields["type"@]) == JsonShape::Text("function"@)
            &&& fields.contains_key("name"@)
            &&& json_shape(fields["name"@]) is Text
        },
        function_tool(tool) matches Some(read) ==> {
            &&& json_shape(fields["name"@]) == JsonShape::Text(read.name)
            &&& if fields.contains_key("description"@) && json_shape(
                fields["description"@],
            ) is Text {
                json_shape(fields["description"@]) == JsonShape::Text(read.description)
            } else {
                read.description.len() == 0
            }
            &&& fields.contains_key("parameters"@) ==> read.input_schema == fields["parameters"@]
            &&& !fields.contains_key("parameters"@) ==> read.input_schema == json_object(
                map!["type"@ => json_string("object"@)],
            )
        },
{
}

/// Nothing but an object describes a tool.
pub proof fn law_only_objects_describe_tools(tool: Value)
    requires
        !(json_shape(tool) is Object),
    ensures
        function_tool(tool) is None,
{
}

/// No descriptions give no tools; one more description adds the tool that it describes behind the
/// others, or nothing where it describes none.
pub proof fn law_tools_one_by_one(tools: Seq<Value>, tool: Value)
    ensures
        tools.len() == 0 ==> function_tools(tools).len() == 0,
        match function_tool(tool) {
            Some(read) => function_tools(tools.push(tool)) == function_tools(tools).push(read),
            None => function_tools(tools.push(tool)) == function_tools(tools),
        },
{
    assert(tools.push(tool).drop_last() =~= tools);
    assert(tools.push(tool).last() == tool);
    if let Some(read) = function_tool(tool) {
        assert(function_tools(tools) + seq![read] =~= function_tools(tools).push(read));
    }
}

/// A body without descriptions offers no tools; one more description adds the tool that it
/// describes behind the others, or nothing where it describes none.
pub proof fn law_body_with_a_tool(
    model: Seq<char>,
    instructions: Seq<char>,
    items: Seq<ResponseItemView>,
    tools: Seq<Value>,
    reasoning: Option<Reasoning>,
    tool: Value,
)
    ensures
        messages_request(model, instructions, items, Seq::empty(), reasoning).tools.len() == 0,
        ({
            let before = messages_request(model, instructions, items, tools, reasoning).tools;
            let after = messages_request(
                model,
                instructions,
                items,
                tools.push(tool),
                reasoning,
            ).tools;
            match function_tool(tool) {
                Some(read) => after == before.push(read),
                None => after == before,
            }
        }),
{
    law_tools_one_by_one(tools, tool);
}

/// The input of a call is what its arguments read as, or the arguments themselves as a text.
pub proof fn law_call_input(value: Value, arguments: Seq<char>)
    ensures
        call_input(Some(value), arguments) == value,
        call_input(None, arguments) == json_string(arguments),
{
}

/// The effort of the output is the one that is asked for; the highest two are the same.
pub proof fn law_effort_as_asked(reasoning: Reasoning)
    ensures
        match reasoning.effort {
            None => output_config(reasoning) is None,
            Some(ReasoningEffort::Off) => output_config(reasoning) is None,
            Some(ReasoningEffort::Minimal) => output_config(reasoning) is Some && output_config(
                reasoning,
            )->0.effort == AnthropicEffort::Minimal,
            Some(ReasoningEffort::Low) => output_config(reasoning) is Some && output_config(
                reasoning,
            )->0.effort == AnthropicEffort::Low,
            Some(ReasoningEffort::Medium) => output_config(reasoning) is Some && output_config(
                reasoning,
            )->0.effort == AnthropicEffort::Medium,
            Some(ReasoningEffort::High) => output_config(reasoning) is Some && output_config(
                reasoning,
            )->0.effort == AnthropicEffort::High,
            Some(ReasoningEffort::XHigh) => output_config(reasoning) is Some && output_config(
                reasoning,
            )->0.effort == AnthropicEffort::High,
        },
{
}

/// The view of a body shows every field of it as it is.
pub proof fn law_body_is_shown_whole(body: AnthropicMessagesRequest)
    ensures
        body@.model == body.model@,
        body@.system == body.system@,
        body@.tool_choice == body.tool_choice,
        body@.stream == body.stream,
        body@.max_tokens == body.max_tokens,
        body@.output_config == body.output_config,
        body@.messages.len() == body.messages@.len(),
        forall|k: int|
            0 <= k < body.messages@.len() ==> #[trigger] body@.messages[k] == body.messages@[k]@,
        body@.tools.len() == body.tools@.len(),
        forall|k: int|
            0 <= k < body.tools@.len() ==> #[trigger] body@.tools[k] == body.tools@[k]@,
{
}

/// The view of a message shows its role and every content of it as it is.
pub proof fn law_message_is_shown_whole(message: AnthropicMessage, k: int)
    requires
        0 <= k < message.content@.len(),
    ensures
        message@.role == message.role@,
        message@.content.len() == message.content@.len(),
        match message.content@[k] {
            AnthropicContent::Text { text } => message@.content[k] == (AnthropicContentView::Text {
                text: text@,
            }),
            AnthropicContent::ToolUse { id, name, input } => message@.content[k] == (
            AnthropicContentView::ToolUse { id: id@, name: name@, input }),
            AnthropicContent::ToolResult { tool_use_id, content } => message@.content[k] == (
            AnthropicContentView::ToolResult { tool_use_id: tool_use_id@, content: content@ }),
        },
{
}

/// The view of a tool shows every field of it as it is.
pub proof fn law_tool_is_shown_whole(tool: AnthropicTool)
    ensures
        tool@.name == tool.name@,
        tool@.description == tool.description@,
        tool@.input_schema == tool.input_schema,
{
}

} // verus!
