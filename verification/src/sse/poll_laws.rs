//! What a single poll of an Anthropic message stream does, whatever the state of the stream.
//!
//! Every law here speaks of the fields of the event as they arrived and of the step and the state
//! that follow. Together they leave nothing open: any poll falls under one of them.
use crate::common::{ApiErrorView, ContentItemView, ResponseEventView, ResponseItemView};
use crate::headers::is_text_byte;
use crate::json::{JsonShape, json_shape, json_text};
use crate::sse::anthropic::{
    AnthropicBlock, AnthropicBlockView, AnthropicContentBlock, AnthropicContentBlockView,
    AnthropicDelta, AnthropicDeltaView, AnthropicStreamEvent, AnthropicStreamEventView,
    AnthropicStreamStateView, StreamPoll, StreamPollView, StreamStep, StreamStepView,
    event_step, goes_on, header_text, initial_state, kind_of, next_state, reports_total,
    state_after, step_after, total_fits,
};
use crate::sse::laws::{StreamRun, law_event_names, round, run};
use crate::text::is_white_space;
use vstd::prelude::*;

verus! {

/// The two states differ in nothing but their open blocks.
pub open spec fn same_but_blocks(
    a: AnthropicStreamStateView,
    b: AnthropicStreamStateView,
) -> bool {
    &&& a.response_id == b.response_id
    &&& a.input_tokens == b.input_tokens
    &&& a.output_tokens == b.output_tokens
    &&& a.cached_input_tokens == b.cached_input_tokens
}

/// An event is about the block with the number it carries, and about the first one where it
/// carries none.
pub open spec fn is_about(event: AnthropicStreamEventView, index: usize) -> bool {
    event.index == Some(index) || event.index is None && index == 0
}

/// A stream begins without an id, without open blocks and with all counts at zero.
pub proof fn law_begins_empty()
    ensures
        initial_state().response_id is None,
        forall|index: usize| !(#[trigger] initial_state().blocks.contains_key(index)),
        initial_state().input_tokens == 0,
        initial_state().output_tokens == 0,
        initial_state().cached_input_tokens == 0,
{
}

/// A `message_start` event is answered with `Created`. The id that it carries becomes the response
/// id, and the counts that it carries become the counts; what it does not carry stays, and so do
/// the open blocks.
pub proof fn law_message_start(state: AnthropicStreamStateView, event: AnthropicStreamEventView)
    requires
        event.kind == "message_start"@,
    ensures
        step_after(state, StreamPollView::Event(event)) == StreamStepView::Send(
            ResponseEventView::Created,
        ),
        state_after(state, StreamPollView::Event(event)).blocks == state.blocks,
        event.message is None ==> state_after(state, StreamPollView::Event(event)) == state,
        event.message matches Some(message) ==> {
            let after = state_after(state, StreamPollView::Event(event));
            &&& after.response_id == Some(message.id)
            &&& message.usage is None ==> {
                &&& after.input_tokens == state.input_tokens
                &&& after.output_tokens == state.output_tokens
                &&& after.cached_input_tokens == state.cached_input_tokens
            }
            &&& message.usage matches Some(usage) ==> {
                &&& after.input_tokens == usage.input_tokens
                &&& after.output_tokens == usage.output_tokens
                &&& after.cached_input_tokens == usage.cache_read_input_tokens
            }
        },
{
    law_event_names();
}

/// A `content_block_start` event sends nothing and opens one block, which holds what the event
/// carries: all of its text, or the id and the name of a tool call. Any other content opens a
/// block that nothing comes of.
pub proof fn law_block_start(
    state: AnthropicStreamStateView,
    event: AnthropicStreamEventView,
    index: usize,
)
    requires
        event.kind == "content_block_start"@,
        is_about(event, index),
    ensures
        step_after(state, StreamPollView::Event(event)) is Continue,
        same_but_blocks(state_after(state, StreamPollView::Event(event)), state),
        ({
            let after = state_after(state, StreamPollView::Event(event)).blocks;
            &&& after.contains_key(index)
            &&& after == state.blocks.insert(index, after[index])
            &&& match event.content_block {
                Some(AnthropicContentBlockView::Text { text }) => after[index]
                    == AnthropicBlockView::Text(text),
                Some(AnthropicContentBlockView::ToolUse { id, name, input }) => {
                    after[index] matches AnthropicBlockView::ToolUse {
                        id: block_id,
                        name: block_name,
                        input_json,
                    } && block_id == id && block_name == name && match json_shape(input) {
                        JsonShape::Null => input_json.len() == 0,
                        JsonShape::Object(fields) => if fields.dom().is_empty() {
                            input_json.len() == 0
                        } else {
                            input_json == json_text(input)
                        },
                        _ => input_json == json_text(input),
                    }
                },
                _ => after[index] is Other,
            }
        }),
{
    law_event_names();
}

/// A text delta for an open text block sends on exactly the text that it carries, and the block
/// grows by exactly that text at its end. A delta without text carries an empty one.
pub proof fn law_text_delta(
    state: AnthropicStreamStateView,
    event: AnthropicStreamEventView,
    delta: AnthropicDeltaView,
    index: usize,
    before: Seq<char>,
)
    requires
        event.kind == "content_block_delta"@,
        is_about(event, index),
        event.delta == Some(delta),
        delta.kind == Some("text_delta"@),
        state.blocks.contains_key(index),
        state.blocks[index] == AnthropicBlockView::Text(before),
    ensures
        same_but_blocks(state_after(state, StreamPollView::Event(event)), state),
        delta.text matches Some(text) ==> {
            &&& step_after(state, StreamPollView::Event(event)) == StreamStepView::Send(
                ResponseEventView::OutputTextDelta(text),
            )
            &&& state_after(state, StreamPollView::Event(event)).blocks == state.blocks.insert(
                index,
                AnthropicBlockView::Text(before + text),
            )
        },
        delta.text is None ==> {
            &&& step_after(state, StreamPollView::Event(event)) == StreamStepView::Send(
                ResponseEventView::OutputTextDelta(Seq::empty()),
            )
            &&& state_after(state, StreamPollView::Event(event)).blocks == state.blocks
        },
{
    law_event_names();
    assert(before + Seq::<char>::empty() =~= before);
    assert(state.blocks.insert(index, AnthropicBlockView::Text(before)) =~= state.blocks);
}

/// An input delta for an open tool call sends nothing, and the call's input grows by exactly the
/// JSON that it carries, at its end. A delta without JSON carries an empty one.
pub proof fn law_input_delta(
    state: AnthropicStreamStateView,
    event: AnthropicStreamEventView,
    delta: AnthropicDeltaView,
    index: usize,
    id: Seq<char>,
    name: Seq<char>,
    before: Seq<char>,
)
    requires
        event.kind == "content_block_delta"@,
        is_about(event, index),
        event.delta == Some(delta),
        delta.kind == Some("input_json_delta"@),
        state.blocks.contains_key(index),
        state.blocks[index] == (AnthropicBlockView::ToolUse { id, name, input_json: before }),
    ensures
        step_after(state, StreamPollView::Event(event)) is Continue,
        same_but_blocks(state_after(state, StreamPollView::Event(event)), state),
        delta.partial_json matches Some(json) ==> state_after(
            state,
            StreamPollView::Event(event),
        ).blocks == state.blocks.insert(
            index,
            AnthropicBlockView::ToolUse { id, name, input_json: before + json },
        ),
        delta.partial_json is None ==> state_after(state, StreamPollView::Event(event)) == state,
{
    law_event_names();
    assert(before + Seq::<char>::empty() =~= before);
    assert(state.blocks.insert(
        index,
        AnthropicBlockView::ToolUse { id, name, input_json: before },
    ) =~= state.blocks);
}

/// Any other delta sends nothing and changes nothing: one for a block that is not open, one whose
/// kind does not suit the block, and an event without a delta.
pub proof fn law_other_delta(
    state: AnthropicStreamStateView,
    event: AnthropicStreamEventView,
    index: usize,
)
    requires
        event.kind == "content_block_delta"@,
        is_about(event, index),
        event.delta matches Some(delta) ==> {
            ||| !state.blocks.contains_key(index)
            ||| state.blocks[index] is Other
            ||| state.blocks[index] is Text && delta.kind != Some("text_delta"@)
            ||| state.blocks[index] is ToolUse && delta.kind != Some("input_json_delta"@)
        },
    ensures
        step_after(state, StreamPollView::Event(event)) is Continue,
        state_after(state, StreamPollView::Event(event)) == state,
{
    law_event_names();
    if state.blocks.contains_key(index) {
        assert(state.blocks.insert(index, state.blocks[index]) =~= state.blocks);
    }
}

/// A `content_block_stop` event closes its block and no other, and hands on what the block has
/// become: an assistant message with exactly the block's text, or a call with the block's id and
/// name whose arguments are exactly its input, unless that is all white space and `{}` stands in
/// for it. Nothing is sent for any other block, nor where none was open.
pub proof fn law_block_stop(
    state: AnthropicStreamStateView,
    event: AnthropicStreamEventView,
    index: usize,
)
    requires
        event.kind == "content_block_stop"@,
        is_about(event, index),
    ensures
        same_but_blocks(state_after(state, StreamPollView::Event(event)), state),
        state_after(state, StreamPollView::Event(event)).blocks == state.blocks.remove(index),
        ({
            let step = step_after(state, StreamPollView::Event(event));
            if state.blocks.contains_key(index) {
                match state.blocks[index] {
                    AnthropicBlockView::Text(text) => step == StreamStepView::Send(
                        ResponseEventView::OutputItemDone(
                            ResponseItemView::Message {
                                id: None,
                                role: "assistant"@,
                                content: seq![ContentItemView::OutputText { text }],
                                phase: None,
                            },
                        ),
                    ),
                    AnthropicBlockView::ToolUse { id, name, input_json } => step
                        == StreamStepView::Send(
                        ResponseEventView::OutputItemDone(
                            ResponseItemView::FunctionCall {
                                id: None,
                                name,
                                namespace: None,
                                arguments: if exists|k: int|
                                    0 <= k < input_json.len() && !is_white_space(
                                        #[trigger] input_json[k],
                                    ) {
                                    input_json
                                } else {
                                    "{}"@
                                },
                                call_id: id,
                            },
                        ),
                    ),
                    AnthropicBlockView::Other => step is Continue,
                }
            } else {
                step is Continue
            }
        }),
{
    law_event_names();
}

/// A `message_delta` event sends nothing, whatever its stop reason. The output count that it
/// carries becomes the output count; nothing else changes.
pub proof fn law_message_delta(state: AnthropicStreamStateView, event: AnthropicStreamEventView)
    requires
        event.kind == "message_delta"@,
    ensures
        step_after(state, StreamPollView::Event(event)) is Continue,
        ({
            let after = state_after(state, StreamPollView::Event(event));
            &&& after.response_id == state.response_id
            &&& after.blocks == state.blocks
            &&& after.input_tokens == state.input_tokens
            &&& after.cached_input_tokens == state.cached_input_tokens
            &&& after.output_tokens == match event.usage {
                Some(usage) => usage.output_tokens,
                None => state.output_tokens,
            }
        }),
{
    law_event_names();
}

/// A `message_stop` event ends the stream with a completion: the response id, or a general one
/// where none is known, and the counts with their sum. Only the response id is used up.
pub proof fn law_message_stop(state: AnthropicStreamStateView, event: AnthropicStreamEventView)
    requires
        event.kind == "message_stop"@,
        i64::MIN <= state.input_tokens + state.output_tokens <= i64::MAX,
    ensures
        step_after(state, StreamPollView::Event(event)) matches StreamStepView::Finish(
            Ok(ResponseEventView::Completed { response_id, token_usage: Some(usage), end_turn }),
        ) && {
            &&& state.response_id matches Some(id) ==> response_id == id
            &&& state.response_id is None ==> response_id == "anthropic-message"@
            &&& usage.input_tokens == state.input_tokens
            &&& usage.cached_input_tokens == state.cached_input_tokens
            &&& usage.output_tokens == state.output_tokens
            &&& usage.reasoning_output_tokens == 0
            &&& usage.total_tokens == state.input_tokens + state.output_tokens
            &&& end_turn == Some(true)
        },
        ({
            let after = state_after(state, StreamPollView::Event(event));
            &&& after.response_id is None
            &&& after.blocks == state.blocks
            &&& after.input_tokens == state.input_tokens
            &&& after.output_tokens == state.output_tokens
            &&& after.cached_input_tokens == state.cached_input_tokens
        }),
{
    law_event_names();
}

/// An `error` event ends the stream with the message that it carries, or with a general one where
/// it carries none or an empty one.
pub proof fn law_error_event(state: AnthropicStreamStateView, event: AnthropicStreamEventView)
    requires
        event.kind == "error"@,
    ensures
        step_after(state, StreamPollView::Event(event)) matches StreamStepView::Finish(
            Err(ApiErrorView::Stream(said)),
        ) && {
            if event.error is Some && event.error->0.len() > 0 {
                said == event.error->0
            } else {
                said == "Anthropic stream error"@
            }
        },
        state_after(state, StreamPollView::Event(event)) == state,
{
    law_event_names();
}

/// An event of any other kind sends nothing and changes nothing.
pub proof fn law_unknown_event(state: AnthropicStreamStateView, event: AnthropicStreamEventView)
    requires
        event.kind != "message_start"@,
        event.kind != "content_block_start"@,
        event.kind != "content_block_delta"@,
        event.kind != "content_block_stop"@,
        event.kind != "message_delta"@,
        event.kind != "message_stop"@,
        event.kind != "error"@,
    ensures
        step_after(state, StreamPollView::Event(event)) is Continue,
        state_after(state, StreamPollView::Event(event)) == state,
{
}

/// A poll without an event never changes the state. One that could not be decoded sends nothing;
/// a failure ends the stream with its description, and a stream that closed or went idle ends
/// with an error that says so.
pub proof fn law_poll_without_event(state: AnthropicStreamStateView, poll: StreamPollView)
    requires
        !(poll is Event),
    ensures
        state_after(state, poll) == state,
        poll is Undecodable ==> step_after(state, poll) is Continue,
        poll matches StreamPollView::Failed(description) ==> step_after(state, poll)
            == StreamStepView::Finish(Err(ApiErrorView::Stream(description))),
        poll is Closed ==> step_after(state, poll) == StreamStepView::Finish(
            Err(ApiErrorView::Stream("stream closed before message_stop"@)),
        ),
        poll is IdleTimeout ==> step_after(state, poll) == StreamStepView::Finish(
            Err(ApiErrorView::Stream("idle timeout waiting for SSE"@)),
        ),
{
}

/// A poll that breaks the stream off: a failure, the end of the stream before its message is
/// complete, too long a silence, or an `error` event.
pub open spec fn breaks_off(poll: StreamPollView) -> bool {
    match poll {
        StreamPollView::Event(event) => event.kind == "error"@,
        StreamPollView::Undecodable => false,
        StreamPollView::Failed(_) => true,
        StreamPollView::Closed => true,
        StreamPollView::IdleTimeout => true,
    }
}

/// A poll with a `message_stop` event.
pub open spec fn ends_message(poll: StreamPollView) -> bool {
    poll matches StreamPollView::Event(event) && event.kind == "message_stop"@
}

/// In every state, a poll that breaks the stream off ends it: exactly one thing more is sent, an
/// error, and the stream no longer polls, whether or not the reader took that error.
pub proof fn law_broken_stream_is_reported(before: StreamRun, poll: StreamPollView, taken: bool)
    requires
        before.open,
        breaks_off(poll),
    ensures
        !round(before, poll, taken).open,
        round(before, poll, taken).sent.len() == before.sent.len() + 1,
        round(before, poll, taken).sent.drop_last() == before.sent,
        round(before, poll, taken).sent.last() is Err,
{
    law_event_names();
}

/// In every state, a `message_stop` event ends the stream with a completion.
pub proof fn law_ended_message_completes(before: StreamRun, poll: StreamPollView, taken: bool)
    requires
        before.open,
        ends_message(poll),
    ensures
        !round(before, poll, taken).open,
        round(before, poll, taken).sent.len() == before.sent.len() + 1,
        round(before, poll, taken).sent.drop_last() == before.sent,
        round(before, poll, taken).sent.last() matches Ok(event) && event is Completed,
{
    law_event_names();
}

/// No other poll ends a stream whose reader takes everything, and none of them sends an error or
/// a completion.
pub proof fn law_any_other_poll_goes_on(before: StreamRun, poll: StreamPollView)
    requires
        before.open,
        !breaks_off(poll),
        !ends_message(poll),
    ensures
        round(before, poll, true).open,
        !(step_after(before.state, poll) is Finish),
        before.sent.len() <= round(before, poll, true).sent.len() <= before.sent.len() + 1,
        before.sent == round(before, poll, true).sent.take(before.sent.len() as int),
        round(before, poll, true).sent.len() > before.sent.len() ==> (round(
            before,
            poll,
            true,
        ).sent.last() matches Ok(event) && !(event is Completed)),
{
    law_event_names();
}

/// A stream whose reader takes everything has stopped exactly when one of its polls was a
/// `message_stop` event or broke it off.
pub proof fn law_open_until_ended(from: StreamRun, rounds: Seq<(StreamPollView, bool)>)
    requires
        from.open,
        forall|k: int| 0 <= k < rounds.len() ==> (#[trigger] rounds[k]).1,
    ensures
        !run(from, rounds).open <==> exists|k: int|
            0 <= k < rounds.len() && (breaks_off((#[trigger] rounds[k]).0) || ends_message(
                rounds[k].0,
            )),
    decreases rounds.len(),
{
    if rounds.len() > 0 {
        let rest = rounds.drop_last();
        let last = rounds.len() - 1;
        let before = run(from, rest);
        assert forall|k: int| 0 <= k < rest.len() implies (#[trigger] rest[k]).1 && rest[k]
            == rounds[k] by {
            assert(rounds[k].1);
        }
        law_open_until_ended(from, rest);
        assert(rounds.last() == rounds[last]);
        if before.open {
            let poll = rounds[last].0;
            if breaks_off(poll) {
                law_broken_stream_is_reported(before, poll, true);
            } else if ends_message(poll) {
                law_ended_message_completes(before, poll, true);
            } else {
                law_any_other_poll_goes_on(before, poll);
                assert forall|k: int| 0 <= k < rounds.len() implies !breaks_off(
                    (#[trigger] rounds[k]).0,
                ) && !ends_message(rounds[k].0) by {
                    if k < last {
                        assert(rest[k] == rounds[k]);
                    }
                }
            }
        } else {
            let k = choose|k: int|
                0 <= k < rest.len() && (breaks_off((#[trigger] rest[k]).0) || ends_message(
                    rest[k].0,
                ));
            assert(rest[k] == rounds[k]);
        }
    }
}

/// Acting on an event is acting on the poll that came back with it.
pub proof fn law_polled_event(state: AnthropicStreamStateView, event: AnthropicStreamEventView)
    ensures
        event_step(state, event) == step_after(state, StreamPollView::Event(event)),
        next_state(state, event) == state_after(state, StreamPollView::Event(event)),
{
}

/// The text under a header name is that of its first value, and there is none where that value is
/// not text or there is no value.
pub proof fn law_header_text(contents: Map<Seq<char>, Seq<Seq<u8>>>, name: Seq<char>)
    ensures
        header_text(contents, name) is Some <==> {
            &&& contents.contains_key(name)
            &&& contents[name].len() > 0
            &&& forall|k: int|
                0 <= k < contents[name][0].len() ==> (32 <= #[trigger] contents[name][0][k] < 127
                    || contents[name][0][k] == 9)
        },
        header_text(contents, name) matches Some(text) ==> {
            &&& text.len() == contents[name][0].len()
            &&& forall|k: int|
                0 <= k < text.len() ==> #[trigger] text[k] == contents[name][0][k] as char
        },
{
    if contents.contains_key(name) && contents[name].len() > 0 {
        let bytes = contents[name][0];
        assert(forall|k: int|
            0 <= k < bytes.len() ==> is_text_byte(#[trigger] bytes[k]) == (32 <= bytes[k] < 127
                || bytes[k] == 9));
    }
}

/// Polling goes on after a step that sends nothing, stops after a last outcome, and goes on after
/// an event exactly when the reader took it.
pub proof fn law_polling_goes_on(step: StreamStepView, taken: bool)
    ensures
        step is Continue ==> goes_on(step, taken),
        step is Send ==> goes_on(step, taken) == taken,
        step is Finish ==> !goes_on(step, taken),
{
}

/// The total has to fit exactly for the `message_stop` event, and it fits exactly when the sum of
/// the two counts is a count.
pub proof fn law_total_has_to_fit_at_the_end(state: AnthropicStreamStateView, poll: StreamPollView)
    ensures
        reports_total(poll) <==> ends_message(poll),
        total_fits(state) <==> -0x8000_0000_0000_0000 <= state.input_tokens + state.output_tokens
            <= 0x7fff_ffff_ffff_ffff,
{
    law_event_names();
}

/// Every kind of event has exactly one name.
pub proof fn law_one_name_for_every_kind(name: Seq<char>)
    ensures
        kind_of(name) is MessageStart <==> name == "message_start"@,
        kind_of(name) is ContentBlockStart <==> name == "content_block_start"@,
        kind_of(name) is ContentBlockDelta <==> name == "content_block_delta"@,
        kind_of(name) is ContentBlockStop <==> name == "content_block_stop"@,
        kind_of(name) is MessageDelta <==> name == "message_delta"@,
        kind_of(name) is MessageStop <==> name == "message_stop"@,
        kind_of(name) is Error <==> name == "error"@,
{
    law_event_names();
}

/// A poll with an event that carries nothing but a kind, a block number and a delta.
pub open spec fn delta_poll(index: usize, delta: AnthropicDeltaView) -> StreamPollView {
    StreamPollView::Event(
        AnthropicStreamEventView {
            kind: "content_block_delta"@,
            message: None,
            content_block: None,
            delta: Some(delta),
            index: Some(index),
            usage: None,
            error: None,
        },
    )
}

/// A poll with a text delta.
pub open spec fn text_poll(index: usize, text: Seq<char>) -> StreamPollView {
    delta_poll(
        index,
        AnthropicDeltaView {
            kind: Some("text_delta"@),
            text: Some(text),
            partial_json: None,
            stop_reason: None,
        },
    )
}

/// A poll with an input delta.
pub open spec fn input_poll(index: usize, json: Seq<char>) -> StreamPollView {
    delta_poll(
        index,
        AnthropicDeltaView {
            kind: Some("input_json_delta"@),
            text: None,
            partial_json: Some(json),
            stop_reason: None,
        },
    )
}

proof fn lemma_pieces(pieces: Seq<Seq<char>>)
    requires
        pieces.len() > 0,
    ensures
        pieces.flatten() == pieces.drop_last().flatten() + pieces.last(),
{
    let rest = pieces.drop_last();
    assert(pieces =~= rest.push(pieces.last()));
    rest.lemma_flatten_push(pieces.last());
}

/// A text that is streamed in pieces arrives whole: every piece is sent on as it came, in order,
/// and the block holds all of them behind what it held before.
pub proof fn law_streamed_text_arrives_whole(
    from: StreamRun,
    index: usize,
    before: Seq<char>,
    pieces: Seq<Seq<char>>,
)
    requires
        from.open,
        from.state.blocks.contains_key(index),
        from.state.blocks[index] == AnthropicBlockView::Text(before),
    ensures
        ({
            let rounds = pieces.map_values(|piece: Seq<char>| (text_poll(index, piece), true));
            let after = run(from, rounds);
            &&& after.open
            &&& after.sent == from.sent + pieces.map_values(
                |piece: Seq<char>|
                    Ok::<ResponseEventView, ApiErrorView>(ResponseEventView::OutputTextDelta(piece)),
            )
            &&& same_but_blocks(after.state, from.state)
            &&& after.state.blocks == from.state.blocks.insert(
                index,
                AnthropicBlockView::Text(before + pieces.flatten()),
            )
        }),
    decreases pieces.len(),
{
    let poll = |piece: Seq<char>| (text_poll(index, piece), true);
    let said = |piece: Seq<char>|
        Ok::<ResponseEventView, ApiErrorView>(ResponseEventView::OutputTextDelta(piece));
    let rounds = pieces.map_values(poll);
    if pieces.len() == 0 {
        assert(pieces =~= Seq::empty());
        assert(before + pieces.flatten() =~= before);
        assert(from.state.blocks.insert(index, AnthropicBlockView::Text(before))
            =~= from.state.blocks);
        assert(from.sent + pieces.map_values(said) =~= from.sent);
    } else {
        let rest = pieces.drop_last();
        let piece = pieces.last();
        law_streamed_text_arrives_whole(from, index, before, rest);
        lemma_pieces(pieces);
        assert(rounds.drop_last() =~= rest.map_values(poll));
        assert(rounds.last() == (text_poll(index, piece), true));
        let middle = run(from, rest.map_values(poll));
        let so_far = before + rest.flatten();
        match text_poll(index, piece) {
            StreamPollView::Event(event) => {
                law_text_delta(middle.state, event, event.delta->0, index, so_far);
            },
            _ => {},
        }
        assert(so_far + piece =~= before + pieces.flatten());
        assert(middle.state.blocks.insert(index, AnthropicBlockView::Text(so_far + piece))
            =~= from.state.blocks.insert(
            index,
            AnthropicBlockView::Text(before + pieces.flatten()),
        ));
        assert(pieces.map_values(said) =~= rest.map_values(said).push(said(piece)));
        assert(from.sent + pieces.map_values(said) =~= (from.sent + rest.map_values(said)).push(
            said(piece),
        ));
    }
}

/// The input of a tool call that is streamed in pieces arrives whole: the call holds all of them
/// behind what it held before, and nothing is sent.
pub proof fn law_streamed_input_arrives_whole(
    from: StreamRun,
    index: usize,
    id: Seq<char>,
    name: Seq<char>,
    before: Seq<char>,
    pieces: Seq<Seq<char>>,
)
    requires
        from.open,
        from.state.blocks.contains_key(index),
        from.state.blocks[index] == (AnthropicBlockView::ToolUse { id, name, input_json: before }),
    ensures
        ({
            let rounds = pieces.map_values(|piece: Seq<char>| (input_poll(index, piece), true));
            let after = run(from, rounds);
            &&& after.open
            &&& after.sent == from.sent
            &&& same_but_blocks(after.state, from.state)
            &&& after.state.blocks == from.state.blocks.insert(
                index,
                AnthropicBlockView::ToolUse { id, name, input_json: before + pieces.flatten() },
            )
        }),
    decreases pieces.len(),
{
    let poll = |piece: Seq<char>| (input_poll(index, piece), true);
    let rounds = pieces.map_values(poll);
    if pieces.len() == 0 {
        assert(pieces =~= Seq::empty());
        assert(before + pieces.flatten() =~= before);
        assert(from.state.blocks.insert(
            index,
            AnthropicBlockView::ToolUse { id, name, input_json: before },
        ) =~= from.state.blocks);
    } else {
        let rest = pieces.drop_last();
        let piece = pieces.last();
        law_streamed_input_arrives_whole(from, index, id, name, before, rest);
        lemma_pieces(pieces);
        assert(rounds.drop_last() =~= rest.map_values(poll));
        assert(rounds.last() == (input_poll(index, piece), true));
        let middle = run(from, rest.map_values(poll));
        let so_far = before + rest.flatten();
        match input_poll(index, piece) {
            StreamPollView::Event(event) => {
                law_input_delta(middle.state, event, event.delta->0, index, id, name, so_far);
            },
            _ => {},
        }
        assert(so_far + piece =~= before + pieces.flatten());
        assert(middle.state.blocks.insert(
            index,
            AnthropicBlockView::ToolUse { id, name, input_json: so_far + piece },
        ) =~= from.state.blocks.insert(
            index,
            AnthropicBlockView::ToolUse { id, name, input_json: before + pieces.flatten() },
        ));
    }
}

/// The view of an event shows every field of it as it is.
pub proof fn law_event_is_shown_whole(event: AnthropicStreamEvent)
    ensures
        event@.kind == event.kind@,
        event@.index == event.index,
        event@.usage == event.usage,
        event@.message is Some <==> event.message is Some,
        event.message matches Some(message) ==> event@.message->0.id == message.id@
            && event@.message->0.usage == message.usage,
        event@.error is Some <==> event.error is Some,
        event.error matches Some(error) ==> event@.error->0 == error.message@,
        event@.content_block is Some <==> event.content_block is Some,
        event.content_block matches Some(block) ==> match block {
            AnthropicContentBlock::Text { text } => event@.content_block->0 == (
            AnthropicContentBlockView::Text { text: text@ }),
            AnthropicContentBlock::ToolUse { id, name, input } => event@.content_block->0 == (
            AnthropicContentBlockView::ToolUse { id: id@, name: name@, input }),
            AnthropicContentBlock::Other => event@.content_block->0 is Other,
        },
        event@.delta is Some <==> event.delta is Some,
{
}

/// The view of a delta shows every field of it as it is.
pub proof fn law_delta_is_shown_whole(event: AnthropicStreamEvent, delta: AnthropicDelta)
    requires
        event.delta == Some(delta),
    ensures
        event@.delta->0.kind is Some <==> delta.kind is Some,
        delta.kind matches Some(kind) ==> event@.delta->0.kind->0 == kind@,
        event@.delta->0.text is Some <==> delta.text is Some,
        delta.text matches Some(text) ==> event@.delta->0.text->0 == text@,
        event@.delta->0.partial_json is Some <==> delta.partial_json is Some,
        delta.partial_json matches Some(json) ==> event@.delta->0.partial_json->0 == json@,
        event@.delta->0.stop_reason is Some <==> delta.stop_reason is Some,
        delta.stop_reason matches Some(reason) ==> event@.delta->0.stop_reason->0 == reason@,
{
}

/// The view of a poll tells every way apart in which a poll can come back.
pub proof fn law_poll_is_shown_whole(poll: StreamPoll)
    ensures
        match poll {
            StreamPoll::Event(event) => poll@ == StreamPollView::Event(event@),
            StreamPoll::Undecodable => poll@ is Undecodable,
            StreamPoll::Failed(description) => poll@ == StreamPollView::Failed(description@),
            StreamPoll::Closed => poll@ is Closed,
            StreamPoll::IdleTimeout => poll@ is IdleTimeout,
        },
{
}

/// The view of a step shows whether it stops the stream, and what it sends.
pub proof fn law_step_is_shown_whole(step: StreamStep)
    ensures
        match step {
            StreamStep::Continue => step@ is Continue,
            StreamStep::Send(event) => step@ == StreamStepView::Send(event@),
            StreamStep::Finish(Ok(event)) => step@ == StreamStepView::Finish(Ok(event@)),
            StreamStep::Finish(Err(error)) => step@ == StreamStepView::Finish(Err(error@)),
        },
{
}

/// The view of a block shows all that it holds.
pub proof fn law_block_is_shown_whole(block: AnthropicBlock)
    ensures
        match block {
            AnthropicBlock::Text(text) => block@ == AnthropicBlockView::Text(text@),
            AnthropicBlock::ToolUse { id, name, input_json } => block@ == (
            AnthropicBlockView::ToolUse { id: id@, name: name@, input_json: input_json@ }),
            AnthropicBlock::Other => block@ is Other,
        },
{
}

} // verus!
