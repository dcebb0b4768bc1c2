//! What holds of a whole Anthropic message stream.
//!
//! A stream is a sequence of rounds. A round is one poll, together with whether the reader took
//! what the poll made the stream send.
use crate::common::{ApiErrorView, ResponseEventView, ResponseItemView, TokenUsage};
use crate::sse::anthropic::{
    AnthropicBlockView, AnthropicContentBlockView, AnthropicMessageStartView,
    AnthropicStreamEventView, AnthropicStreamStateView, StreamEventKind, StreamPollView,
    StreamStepView, addressed, assistant_message, call_arguments, error_message, goes_on,
    initial_state, kind_of, next_state, or_empty, reports_total, starting_input, state_after,
    step_after,
};
use vstd::prelude::*;

verus! {

/// A stream after some rounds: its state, everything it sent, and whether it still polls.
pub struct StreamRun {
    pub state: AnthropicStreamStateView,
    pub sent: Seq<Result<ResponseEventView, ApiErrorView>>,
    pub open: bool,
}

/// A stream that has sent nothing yet.
pub open spec fn fresh(state: AnthropicStreamStateView) -> StreamRun {
    StreamRun { state, sent: Seq::empty(), open: true }
}

/// Everything sent once a step is carried out.
pub open spec fn sent_with(
    sent: Seq<Result<ResponseEventView, ApiErrorView>>,
    step: StreamStepView,
) -> Seq<Result<ResponseEventView, ApiErrorView>> {
    match step {
        StreamStepView::Continue => sent,
        StreamStepView::Send(event) => sent.push(Ok(event)),
        StreamStepView::Finish(outcome) => sent.push(outcome),
    }
}

/// The stream after one more round; a stream that stopped polling does not change.
pub open spec fn round(before: StreamRun, poll: StreamPollView, delivered: bool) -> StreamRun {
    if before.open {
        let step = step_after(before.state, poll);
        StreamRun {
            state: state_after(before.state, poll),
            sent: sent_with(before.sent, step),
            open: goes_on(step, delivered),
        }
    } else {
        before
    }
}

/// The stream after the given rounds.
pub open spec fn run(from: StreamRun, rounds: Seq<(StreamPollView, bool)>) -> StreamRun
    decreases rounds.len(),
{
    if rounds.len() == 0 {
        from
    } else {
        round(run(from, rounds.drop_last()), rounds.last().0, rounds.last().1)
    }
}

/// The events that leave the stream open: anything but a completion or an error.
pub open spec fn is_progress(sent: Result<ResponseEventView, ApiErrorView>) -> bool {
    match sent {
        Ok(event) => !(event is Completed),
        Err(_) => false,
    }
}

/// Running through two stretches of rounds one after the other is running through both at once.
pub proof fn law_run_in_parts(
    from: StreamRun,
    first: Seq<(StreamPollView, bool)>,
    second: Seq<(StreamPollView, bool)>,
)
    ensures
        run(run(from, first), second) == run(from, first + second),
    decreases second.len(),
{
    if second.len() == 0 {
        assert(first + second =~= first);
    } else {
        law_run_in_parts(from, first, second.drop_last());
        assert((first + second).drop_last() =~= first + second.drop_last());
    }
}

/// A stream that stopped polling sends nothing more and keeps its state.
pub proof fn law_stopped_stays_stopped(from: StreamRun, rounds: Seq<(StreamPollView, bool)>)
    requires
        !from.open,
    ensures
        run(from, rounds) == from,
    decreases rounds.len(),
{
    if rounds.len() > 0 {
        law_stopped_stays_stopped(from, rounds.drop_last());
    }
}

/// What was sent is never taken back: it stays the beginning of everything sent.
pub proof fn law_sent_only_grows(from: StreamRun, rounds: Seq<(StreamPollView, bool)>)
    ensures
        from.sent.is_prefix_of(run(from, rounds).sent),
    decreases rounds.len(),
{
    if rounds.len() > 0 {
        law_sent_only_grows(from, rounds.drop_last());
    }
}

/// A completion or an error is the last thing that a stream sends, and it stops the stream.
pub proof fn law_only_the_last_sent_ends_the_stream(
    state: AnthropicStreamStateView,
    rounds: Seq<(StreamPollView, bool)>,
)
    ensures
        ({
            let after = run(fresh(state), rounds);
            &&& forall|k: int| 0 <= k < after.sent.len() - 1 ==> is_progress(#[trigger] after.sent[k])
            &&& after.open ==> forall|k: int|
                0 <= k < after.sent.len() ==> is_progress(#[trigger] after.sent[k])
        }),
    decreases rounds.len(),
{
    if rounds.len() > 0 {
        law_only_the_last_sent_ends_the_stream(state, rounds.drop_last());
    }
}

/// As long as the reader takes everything, a stream stops only by sending a completion or an
/// error.
pub proof fn law_stops_with_an_outcome(
    state: AnthropicStreamStateView,
    rounds: Seq<(StreamPollView, bool)>,
)
    requires
        forall|k: int| 0 <= k < rounds.len() ==> (#[trigger] rounds[k]).1,
        !run(fresh(state), rounds).open,
    ensures
        run(fresh(state), rounds).sent.len() > 0,
        !is_progress(run(fresh(state), rounds).sent.last()),
    decreases rounds.len(),
{
    if rounds.len() > 0 {
        let before = run(fresh(state), rounds.drop_last());
        assert(rounds.last() == rounds[rounds.len() - 1]);
        if !before.open {
            assert forall|k: int| 0 <= k < rounds.drop_last().len() implies (
            #[trigger] rounds.drop_last()[k]).1 by {
                assert(rounds.drop_last()[k] == rounds[k]);
            }
            law_stops_with_an_outcome(state, rounds.drop_last());
        }
    }
}

/// A reader that no longer takes what is sent stops the stream.
pub proof fn law_refused_event_stops(before: StreamRun, poll: StreamPollView)
    requires
        step_after(before.state, poll) is Send,
    ensures
        !round(before, poll, false).open,
{
}

/// The type name of every kind of event that the stream acts on.
pub proof fn law_event_names()
    ensures
        kind_of("message_start"@) is MessageStart,
        kind_of("content_block_start"@) is ContentBlockStart,
        kind_of("content_block_delta"@) is ContentBlockDelta,
        kind_of("content_block_stop"@) is ContentBlockStop,
        kind_of("message_delta"@) is MessageDelta,
        kind_of("message_stop"@) is MessageStop,
        kind_of("error"@) is Error,
{
    reveal_strlit("message_start");
    reveal_strlit("content_block_start");
    reveal_strlit("content_block_delta");
    reveal_strlit("content_block_stop");
    reveal_strlit("message_delta");
    reveal_strlit("message_stop");
    reveal_strlit("error");
    assert("message_start"@.len() == 13);
    assert("content_block_start"@.len() == 19);
    assert("content_block_delta"@.len() == 19);
    assert("content_block_stop"@.len() == 18);
    assert("message_delta"@.len() == 13);
    assert("message_stop"@.len() == 12);
    assert("error"@.len() == 5);
    assert("message_start"@[8] == 's');
    assert("message_delta"@[8] == 'd');
    assert("content_block_start"@[14] == 's');
    assert("content_block_delta"@[14] == 'd');
}

/// An `error` event always ends the stream with a message that says something.
pub proof fn law_error_says_something(error: Option<Seq<char>>)
    ensures
        error_message(error).len() > 0,
{
    reveal_strlit("Anthropic stream error");
}

/// A poll that opens the given content under the given index.
pub open spec fn opens(
    poll: StreamPollView,
    index: usize,
    content: AnthropicContentBlockView,
) -> bool {
    match poll {
        StreamPollView::Event(event) => {
            &&& kind_of(event.kind) is ContentBlockStart
            &&& addressed(event.index) == index
            &&& event.content_block == Some(content)
        },
        _ => false,
    }
}

/// A poll that closes the block under the given index.
pub open spec fn closes(poll: StreamPollView, index: usize) -> bool {
    match poll {
        StreamPollView::Event(event) => {
            &&& kind_of(event.kind) is ContentBlockStop
            &&& addressed(event.index) == index
        },
        _ => false,
    }
}

/// A poll that neither replaces nor closes the block under the given index.
pub open spec fn keeps_block(poll: StreamPollView, index: usize) -> bool {
    match poll {
        StreamPollView::Event(event) => {
            ||| addressed(event.index) != index
            ||| !(kind_of(event.kind) is ContentBlockStart) && !(kind_of(
                event.kind,
            ) is ContentBlockStop)
        },
        _ => true,
    }
}

/// None of the rounds replaces or closes the block under the given index.
pub open spec fn all_keep_block(rounds: Seq<(StreamPollView, bool)>, index: usize) -> bool {
    forall|k: int| 0 <= k < rounds.len() ==> keeps_block((#[trigger] rounds[k]).0, index)
}

/// An event changes no other block than the one it addresses.
pub proof fn law_other_blocks_untouched(
    state: AnthropicStreamStateView,
    event: AnthropicStreamEventView,
    index: usize,
)
    requires
        addressed(event.index) != index,
    ensures
        next_state(state, event).blocks.contains_key(index) == state.blocks.contains_key(index),
        state.blocks.contains_key(index) ==> next_state(state, event).blocks[index]
            == state.blocks[index],
{
}

/// The text that a poll adds to a text block under the given index.
pub open spec fn added_text(poll: StreamPollView, index: usize) -> Seq<char> {
    match poll {
        StreamPollView::Event(event) => match event.delta {
            Some(delta) => if kind_of(event.kind) is ContentBlockDelta && addressed(event.index)
                == index && delta.kind == Some("text_delta"@) {
                or_empty(delta.text)
            } else {
                Seq::empty()
            },
            None => Seq::empty(),
        },
        _ => Seq::empty(),
    }
}

/// The text that the rounds add to a text block under the given index.
pub open spec fn streamed_text(rounds: Seq<(StreamPollView, bool)>, index: usize) -> Seq<char>
    decreases rounds.len(),
{
    if rounds.len() == 0 {
        Seq::empty()
    } else {
        streamed_text(rounds.drop_last(), index) + added_text(rounds.last().0, index)
    }
}

/// The input JSON that a poll adds to a tool call under the given index.
pub open spec fn added_input(poll: StreamPollView, index: usize) -> Seq<char> {
    match poll {
        StreamPollView::Event(event) => match event.delta {
            Some(delta) => if kind_of(event.kind) is ContentBlockDelta && addressed(event.index)
                == index && delta.kind == Some("input_json_delta"@) {
                or_empty(delta.partial_json)
            } else {
                Seq::empty()
            },
            None => Seq::empty(),
        },
        _ => Seq::empty(),
    }
}

/// The input JSON that the rounds add to a tool call under the given index.
pub open spec fn streamed_input(rounds: Seq<(StreamPollView, bool)>, index: usize) -> Seq<char>
    decreases rounds.len(),
{
    if rounds.len() == 0 {
        Seq::empty()
    } else {
        streamed_input(rounds.drop_last(), index) + added_input(rounds.last().0, index)
    }
}

/// The text of all text deltas among what was sent, in order.
pub open spec fn sent_text(sent: Seq<Result<ResponseEventView, ApiErrorView>>) -> Seq<char>
    decreases sent.len(),
{
    if sent.len() == 0 {
        Seq::empty()
    } else {
        sent_text(sent.drop_last()) + match sent.last() {
            Ok(ResponseEventView::OutputTextDelta(delta)) => delta,
            _ => Seq::empty(),
        }
    }
}

/// An open text block holds the text it started with, followed by every text delta for it, no
/// matter what else the stream carries in between.
pub proof fn law_text_accumulates(
    from: StreamRun,
    index: usize,
    start: Seq<char>,
    rounds: Seq<(StreamPollView, bool)>,
)
    requires
        from.state.blocks.contains_key(index),
        from.state.blocks[index] == AnthropicBlockView::Text(start),
        all_keep_block(rounds, index),
        run(from, rounds).open,
    ensures
        run(from, rounds).state.blocks.contains_key(index),
        run(from, rounds).state.blocks[index] == AnthropicBlockView::Text(
            start + streamed_text(rounds, index),
        ),
    decreases rounds.len(),
{
    if rounds.len() == 0 {
        assert(start + Seq::<char>::empty() =~= start);
    } else {
        let rest = rounds.drop_last();
        let poll = rounds.last().0;
        lemma_earlier_keep_block(rounds, index);
        law_text_accumulates(from, index, start, rest);
        assert(start + streamed_text(rest, index) + added_text(poll, index) =~= start + (
        streamed_text(rest, index) + added_text(poll, index)));
        assert(start + streamed_text(rest, index) + Seq::<char>::empty() =~= start + streamed_text(
            rest,
            index,
        ));
    }
}

/// An open tool call holds the input it started with, followed by every input delta for it, no
/// matter what else the stream carries in between.
pub proof fn law_input_accumulates(
    from: StreamRun,
    index: usize,
    id: Seq<char>,
    name: Seq<char>,
    start: Seq<char>,
    rounds: Seq<(StreamPollView, bool)>,
)
    requires
        from.state.blocks.contains_key(index),
        from.state.blocks[index] == (AnthropicBlockView::ToolUse { id, name, input_json: start }),
        all_keep_block(rounds, index),
        run(from, rounds).open,
    ensures
        run(from, rounds).state.blocks.contains_key(index),
        run(from, rounds).state.blocks[index] == (AnthropicBlockView::ToolUse {
            id,
            name,
            input_json: start + streamed_input(rounds, index),
        }),
    decreases rounds.len(),
{
    if rounds.len() == 0 {
        assert(start + Seq::<char>::empty() =~= start);
    } else {
        let rest = rounds.drop_last();
        let poll = rounds.last().0;
        lemma_earlier_keep_block(rounds, index);
        law_input_accumulates(from, index, id, name, start, rest);
        assert(start + streamed_input(rest, index) + added_input(poll, index) =~= start + (
        streamed_input(rest, index) + added_input(poll, index)));
        assert(start + streamed_input(rest, index) + Seq::<char>::empty() =~= start
            + streamed_input(rest, index));
    }
}

/// From its start to its stop, a text block becomes one assistant message with the text it
/// started with followed by every text delta for it, and is no longer open afterwards.
pub proof fn law_text_block_becomes_message(
    from: StreamRun,
    index: usize,
    start: Seq<char>,
    opening: (StreamPollView, bool),
    between: Seq<(StreamPollView, bool)>,
    closing: (StreamPollView, bool),
)
    requires
        opens(opening.0, index, AnthropicContentBlockView::Text { text: start }),
        all_keep_block(between, index),
        run(round(from, opening.0, opening.1), between).open,
        closes(closing.0, index),
    ensures
        ({
            let before = run(round(from, opening.0, opening.1), between);
            let after = run(from, seq![opening] + between + seq![closing]);
            &&& after == round(before, closing.0, closing.1)
            &&& after.sent == before.sent.push(
                Ok(
                    ResponseEventView::OutputItemDone(
                        assistant_message(start + streamed_text(between, index)),
                    ),
                ),
            )
            &&& !after.state.blocks.contains_key(index)
        }),
{
    lemma_block_lifecycle(from, opening, between, closing);
    let opened = round(from, opening.0, opening.1);
    if !opened.open {
        law_stopped_stays_stopped(opened, between);
    }
    law_text_accumulates(opened, index, start, between);
}

/// From its start to its stop, a tool call becomes one function call with its id and name, whose
/// arguments are the input it started with followed by every input delta for it, or an empty
/// object where all of that is blank.
pub proof fn law_tool_block_becomes_call(
    from: StreamRun,
    index: usize,
    id: Seq<char>,
    name: Seq<char>,
    input: serde_json::Value,
    opening: (StreamPollView, bool),
    between: Seq<(StreamPollView, bool)>,
    closing: (StreamPollView, bool),
)
    requires
        opens(opening.0, index, AnthropicContentBlockView::ToolUse { id, name, input }),
        all_keep_block(between, index),
        run(round(from, opening.0, opening.1), between).open,
        closes(closing.0, index),
    ensures
        ({
            let before = run(round(from, opening.0, opening.1), between);
            let after = run(from, seq![opening] + between + seq![closing]);
            &&& after == round(before, closing.0, closing.1)
            &&& after.sent == before.sent.push(
                Ok(
                    ResponseEventView::OutputItemDone(
                        ResponseItemView::FunctionCall {
                            id: None,
                            name,
                            namespace: None,
                            arguments: call_arguments(
                                starting_input(input) + streamed_input(between, index),
                            ),
                            call_id: id,
                        },
                    ),
                ),
            )
            &&& !after.state.blocks.contains_key(index)
        }),
{
    lemma_block_lifecycle(from, opening, between, closing);
    let opened = round(from, opening.0, opening.1);
    if !opened.open {
        law_stopped_stays_stopped(opened, between);
    }
    law_input_accumulates(opened, index, id, name, starting_input(input), between);
}

proof fn lemma_block_lifecycle(
    from: StreamRun,
    opening: (StreamPollView, bool),
    between: Seq<(StreamPollView, bool)>,
    closing: (StreamPollView, bool),
)
    ensures
        run(from, seq![opening] + between + seq![closing]) == round(
            run(round(from, opening.0, opening.1), between),
            closing.0,
            closing.1,
        ),
{
    let rounds = seq![opening] + between + seq![closing];
    assert(rounds.drop_last() =~= seq![opening] + between);
    law_run_in_parts(from, seq![opening], between);
    assert(seq![opening].drop_last() =~= Seq::empty());
    reveal_with_fuel(run, 2);
}

/// The text deltas sent while a text block is open add up to what the block gained, as long as
/// no delta addresses another block.
pub proof fn law_sent_deltas_add_up(
    from: StreamRun,
    index: usize,
    start: Seq<char>,
    rounds: Seq<(StreamPollView, bool)>,
)
    requires
        from.state.blocks.contains_key(index),
        from.state.blocks[index] == AnthropicBlockView::Text(start),
        all_keep_block(rounds, index),
        forall|k: int|
            0 <= k < rounds.len() ==> ((#[trigger] rounds[k]).0 matches StreamPollView::Event(event)
                ==> (kind_of(event.kind) is ContentBlockDelta ==> addressed(event.index) == index)),
        run(from, rounds).open,
    ensures
        sent_text(run(from, rounds).sent) == sent_text(from.sent) + streamed_text(rounds, index),
    decreases rounds.len(),
{
    if rounds.len() == 0 {
        assert(sent_text(from.sent) + Seq::<char>::empty() =~= sent_text(from.sent));
    } else {
        let rest = rounds.drop_last();
        let poll = rounds.last().0;
        assert(rounds.last() == rounds[rounds.len() - 1]);
        assert forall|k: int| 0 <= k < rest.len() implies #[trigger] rest[k] == rounds[k] by {}
        lemma_earlier_keep_block(rounds, index);
        assert(forall|k: int|
            0 <= k < rest.len() ==> ((#[trigger] rest[k]).0 matches StreamPollView::Event(event)
                ==> (kind_of(event.kind) is ContentBlockDelta ==> addressed(event.index)
                == index))) by {
            assert forall|k: int| 0 <= k < rest.len() implies ((
            #[trigger] rest[k]).0 matches StreamPollView::Event(event) ==> (kind_of(
                event.kind,
            ) is ContentBlockDelta ==> addressed(event.index) == index)) by {
                assert(rest[k] == rounds[k]);
            }
        }
        law_sent_deltas_add_up(from, index, start, rest);
        law_text_accumulates(from, index, start, rest);
        let before = run(from, rest);
        let step = step_after(before.state, poll);
        let after = sent_with(before.sent, step);
        assert(after.len() > before.sent.len() ==> after.drop_last() =~= before.sent);
        assert(sent_text(after) =~= sent_text(before.sent) + added_text(poll, index));
        assert(sent_text(from.sent) + streamed_text(rest, index) + added_text(poll, index)
            =~= sent_text(from.sent) + (streamed_text(rest, index) + added_text(poll, index)));
    }
}

/// Closing a block that is not open sends nothing and changes nothing, so a block yields its
/// entry at most once.
pub proof fn law_closing_twice_yields_once(
    state: AnthropicStreamStateView,
    first: StreamPollView,
    second: StreamPollView,
    index: usize,
)
    requires
        closes(first, index),
        closes(second, index),
    ensures
        step_after(state_after(state, first), second) is Continue,
        state_after(state_after(state, first), second) == state_after(state, first),
{
    let once = state_after(state, first);
    assert(once.blocks.remove(index) =~= once.blocks);
}

/// What a poll announces about the message, if it does.
pub open spec fn announced(poll: StreamPollView) -> Option<AnthropicMessageStartView> {
    match poll {
        StreamPollView::Event(event) => if kind_of(event.kind) is MessageStart {
            event.message
        } else {
            None
        },
        _ => None,
    }
}

/// The response id that was announced last.
pub open spec fn latest_id(rounds: Seq<(StreamPollView, bool)>) -> Option<Seq<char>>
    decreases rounds.len(),
{
    if rounds.len() == 0 {
        None
    } else {
        match announced(rounds.last().0) {
            Some(message) => Some(message.id),
            None => latest_id(rounds.drop_last()),
        }
    }
}

/// The input token count and the cached part of it that were announced last.
pub open spec fn latest_input(rounds: Seq<(StreamPollView, bool)>) -> (i64, i64)
    decreases rounds.len(),
{
    if rounds.len() == 0 {
        (0, 0)
    } else {
        match announced(rounds.last().0) {
            Some(AnthropicMessageStartView { usage: Some(usage), .. }) => (
                usage.input_tokens,
                usage.cache_read_input_tokens,
            ),
            _ => latest_input(rounds.drop_last()),
        }
    }
}

/// The output token count that a poll reports, if it does.
pub open spec fn reported_output(poll: StreamPollView) -> Option<i64> {
    match announced(poll) {
        Some(AnthropicMessageStartView { usage: Some(usage), .. }) => Some(usage.output_tokens),
        _ => match poll {
            StreamPollView::Event(event) => match event.usage {
                Some(usage) => if kind_of(event.kind) is MessageDelta {
                    Some(usage.output_tokens)
                } else {
                    None
                },
                None => None,
            },
            _ => None,
        },
    }
}

/// The output token count that was reported last.
pub open spec fn latest_output(rounds: Seq<(StreamPollView, bool)>) -> i64
    decreases rounds.len(),
{
    if rounds.len() == 0 {
        0
    } else {
        match reported_output(rounds.last().0) {
            Some(count) => count,
            None => latest_output(rounds.drop_last()),
        }
    }
}

/// While it polls, a stream holds the response id and the token counts that were reported last.
pub proof fn law_state_holds_the_latest(rounds: Seq<(StreamPollView, bool)>)
    requires
        run(fresh(initial_state()), rounds).open,
    ensures
        ({
            let state = run(fresh(initial_state()), rounds).state;
            &&& state.response_id == latest_id(rounds)
            &&& (state.input_tokens, state.cached_input_tokens) == latest_input(rounds)
            &&& state.output_tokens == latest_output(rounds)
        }),
    decreases rounds.len(),
{
    if rounds.len() > 0 {
        law_state_holds_the_latest(rounds.drop_last());
    }
}

/// A `message_stop` event completes the response with the id and the token counts that were
/// reported last.
pub proof fn law_completion_reports_the_latest(
    rounds: Seq<(StreamPollView, bool)>,
    last: (StreamPollView, bool),
)
    requires
        run(fresh(initial_state()), rounds).open,
        reports_total(last.0),
    ensures
        ({
            let before = run(fresh(initial_state()), rounds);
            let after = run(fresh(initial_state()), rounds.push(last));
            let input = latest_input(rounds);
            let output = latest_output(rounds);
            &&& !after.open
            &&& after.sent == before.sent.push(
                Ok(
                    ResponseEventView::Completed {
                        response_id: match latest_id(rounds) {
                            Some(id) => id,
                            None => "anthropic-message"@,
                        },
                        token_usage: Some(
                            TokenUsage {
                                input_tokens: input.0,
                                cached_input_tokens: input.1,
                                output_tokens: output,
                                reasoning_output_tokens: 0,
                                total_tokens: (input.0 + output) as i64,
                            },
                        ),
                        end_turn: Some(true),
                    },
                ),
            )
        }),
{
    law_state_holds_the_latest(rounds);
    assert(rounds.push(last).drop_last() =~= rounds);
}

/// A poll about the block under the given index: its start, a delta for it, or its stop.
pub open spec fn concerns_block(poll: StreamPollView, index: usize) -> bool {
    match poll {
        StreamPollView::Event(event) => {
            &&& addressed(event.index) == index
            &&& {
                ||| kind_of(event.kind) is ContentBlockStart
                ||| kind_of(event.kind) is ContentBlockDelta
                ||| kind_of(event.kind) is ContentBlockStop
            }
        },
        _ => false,
    }
}

/// What the polls about the block under the given index made the stream send, in order.
pub open spec fn sent_for_block(
    from: StreamRun,
    rounds: Seq<(StreamPollView, bool)>,
    index: usize,
) -> Seq<Result<ResponseEventView, ApiErrorView>>
    decreases rounds.len(),
{
    if rounds.len() == 0 {
        Seq::empty()
    } else {
        let rest = rounds.drop_last();
        let poll = rounds.last().0;
        if run(from, rest).open && concerns_block(poll, index) {
            sent_with(sent_for_block(from, rest, index), step_after(run(from, rest).state, poll))
        } else {
            sent_for_block(from, rest, index)
        }
    }
}

/// A poll with a text delta for the block under the given index.
pub open spec fn is_text_delta(poll: StreamPollView, index: usize) -> bool {
    match poll {
        StreamPollView::Event(event) => match event.delta {
            Some(delta) => {
                &&& kind_of(event.kind) is ContentBlockDelta
                &&& addressed(event.index) == index
                &&& delta.kind == Some("text_delta"@)
            },
            None => false,
        },
        _ => false,
    }
}

/// One event for every text delta for the block under the given index, in order.
pub open spec fn text_delta_events(rounds: Seq<(StreamPollView, bool)>, index: usize) -> Seq<
    Result<ResponseEventView, ApiErrorView>,
>
    decreases rounds.len(),
{
    if rounds.len() == 0 {
        Seq::empty()
    } else {
        let earlier = text_delta_events(rounds.drop_last(), index);
        let poll = rounds.last().0;
        if is_text_delta(poll, index) {
            earlier.push(Ok(ResponseEventView::OutputTextDelta(added_text(poll, index))))
        } else {
            earlier
        }
    }
}

proof fn lemma_earlier_keep_block(rounds: Seq<(StreamPollView, bool)>, index: usize)
    requires
        all_keep_block(rounds, index),
        rounds.len() > 0,
    ensures
        all_keep_block(rounds.drop_last(), index),
        keeps_block(rounds.last().0, index),
{
    let rest = rounds.drop_last();
    assert(rounds.last() == rounds[rounds.len() - 1]);
    assert forall|k: int| 0 <= k < rest.len() implies keeps_block((#[trigger] rest[k]).0, index) by {
        assert(rest[k] == rounds[k]);
    }
}

/// While a text block is open, the polls about it send exactly its text deltas, one event each
/// and in order, no matter which other blocks the stream carries in between.
pub proof fn law_text_block_sends_its_deltas(
    from: StreamRun,
    index: usize,
    start: Seq<char>,
    rounds: Seq<(StreamPollView, bool)>,
)
    requires
        from.state.blocks.contains_key(index),
        from.state.blocks[index] == AnthropicBlockView::Text(start),
        all_keep_block(rounds, index),
        run(from, rounds).open,
    ensures
        sent_for_block(from, rounds, index) == text_delta_events(rounds, index),
    decreases rounds.len(),
{
    if rounds.len() > 0 {
        let rest = rounds.drop_last();
        lemma_earlier_keep_block(rounds, index);
        law_text_block_sends_its_deltas(from, index, start, rest);
        law_text_accumulates(from, index, start, rest);
    }
}

/// While a block is open that is not a text block, the polls about it send nothing, and it does
/// not turn into a text block.
pub proof fn law_other_blocks_send_no_deltas(
    from: StreamRun,
    index: usize,
    rounds: Seq<(StreamPollView, bool)>,
)
    requires
        from.state.blocks.contains_key(index),
        !(from.state.blocks[index] is Text),
        all_keep_block(rounds, index),
        run(from, rounds).open,
    ensures
        sent_for_block(from, rounds, index) == Seq::<Result<ResponseEventView, ApiErrorView>>::empty(),
        run(from, rounds).state.blocks.contains_key(index),
        !(run(from, rounds).state.blocks[index] is Text),
    decreases rounds.len(),
{
    if rounds.len() > 0 {
        lemma_earlier_keep_block(rounds, index);
        law_other_blocks_send_no_deltas(from, index, rounds.drop_last());
    }
}

/// The round with the given number is a `message_stop` event that the stream still polled for.
pub open spec fn completed_by(
    state: AnthropicStreamStateView,
    rounds: Seq<(StreamPollView, bool)>,
    k: int,
) -> bool {
    &&& 0 <= k < rounds.len()
    &&& run(fresh(state), rounds.take(k)).open
    &&& reports_total(rounds[k].0)
}

/// A completion is the last thing sent.
pub open spec fn ends_completed(sent: Seq<Result<ResponseEventView, ApiErrorView>>) -> bool {
    sent.len() > 0 && match sent.last() {
        Ok(event) => event is Completed,
        Err(_) => false,
    }
}

/// The last thing that a stream sent is a completion exactly when a `message_stop` event ended
/// it.
pub proof fn law_completed_exactly_by_message_stop(
    state: AnthropicStreamStateView,
    rounds: Seq<(StreamPollView, bool)>,
)
    ensures
        ends_completed(run(fresh(state), rounds).sent) <==> exists|k: int| #[trigger]
            completed_by(state, rounds, k),
    decreases rounds.len(),
{
    if rounds.len() > 0 {
        let rest = rounds.drop_last();
        let last = rounds.len() - 1;
        let before = run(fresh(state), rest);
        law_completed_exactly_by_message_stop(state, rest);
        law_only_the_last_sent_ends_the_stream(state, rest);
        assert(rounds.take(last) =~= rest);
        assert(rounds.last() == rounds[last]);
        assert forall|k: int| #[trigger] completed_by(state, rounds, k) && k != last implies
            completed_by(state, rest, k) by {
            assert(rest.take(k) =~= rounds.take(k));
            assert(rest[k] == rounds[k]);
        }
        assert forall|k: int| #[trigger] completed_by(state, rest, k) implies completed_by(
            state,
            rounds,
            k,
        ) by {
            assert(rest.take(k) =~= rounds.take(k));
            assert(rest[k] == rounds[k]);
        }
        if before.open {
            assert(before.sent.len() > 0 ==> is_progress(before.sent[before.sent.len() - 1]));
            if reports_total(rounds.last().0) {
                assert(completed_by(state, rounds, last));
            }
        }
    }
}

/// A poll with a `message_start` event.
pub open spec fn starts_message(poll: StreamPollView) -> bool {
    match poll {
        StreamPollView::Event(event) => kind_of(event.kind) is MessageStart,
        _ => false,
    }
}

/// The number of `message_start` events that the stream polled for.
pub open spec fn message_starts(from: StreamRun, rounds: Seq<(StreamPollView, bool)>) -> nat
    decreases rounds.len(),
{
    if rounds.len() == 0 {
        0
    } else if run(from, rounds.drop_last()).open && starts_message(rounds.last().0) {
        message_starts(from, rounds.drop_last()) + 1
    } else {
        message_starts(from, rounds.drop_last())
    }
}

/// The number of `Created` events among what was sent.
pub open spec fn created_events(sent: Seq<Result<ResponseEventView, ApiErrorView>>) -> nat
    decreases sent.len(),
{
    if sent.len() == 0 {
        0
    } else {
        created_events(sent.drop_last()) + match sent.last() {
            Ok(ResponseEventView::Created) => 1nat,
            _ => 0nat,
        }
    }
}

/// A stream sends one `Created` event for every `message_start` event, and no other.
pub proof fn law_created_once_per_message_start(
    from: StreamRun,
    rounds: Seq<(StreamPollView, bool)>,
)
    ensures
        created_events(run(from, rounds).sent) == created_events(from.sent) + message_starts(
            from,
            rounds,
        ),
    decreases rounds.len(),
{
    if rounds.len() > 0 {
        let rest = rounds.drop_last();
        law_created_once_per_message_start(from, rest);
        let before = run(from, rest);
        let after = run(from, rounds);
        if after.sent.len() > before.sent.len() {
            assert(after.sent.drop_last() =~= before.sent);
        }
    }
}

/// A poll that a stream in the given state ignores: one without a decodable event, an event of
/// an unhandled kind, or a delta or a stop for a block that is not open.
pub open spec fn is_ignored(state: AnthropicStreamStateView, poll: StreamPollView) -> bool {
    match poll {
        StreamPollView::Event(event) => match kind_of(event.kind) {
            StreamEventKind::Unhandled => true,
            StreamEventKind::ContentBlockDelta => !state.blocks.contains_key(
                addressed(event.index),
            ),
            StreamEventKind::ContentBlockStop => !state.blocks.contains_key(
                addressed(event.index),
            ),
            _ => false,
        },
        StreamPollView::Undecodable => true,
        _ => false,
    }
}

/// The rounds without those whose poll the stream ignores.
pub open spec fn without_ignored(
    from: StreamRun,
    rounds: Seq<(StreamPollView, bool)>,
) -> Seq<(StreamPollView, bool)>
    decreases rounds.len(),
{
    if rounds.len() == 0 {
        Seq::empty()
    } else if is_ignored(run(from, rounds.drop_last()).state, rounds.last().0) {
        without_ignored(from, rounds.drop_last())
    } else {
        without_ignored(from, rounds.drop_last()).push(rounds.last())
    }
}

/// An ignored poll leaves the stream as it is.
pub proof fn law_ignored_poll_changes_nothing(
    before: StreamRun,
    poll: StreamPollView,
    delivered: bool,
)
    requires
        is_ignored(before.state, poll),
    ensures
        round(before, poll, delivered) == before,
{
    assert(state_after(before.state, poll).blocks =~= before.state.blocks);
}

/// Leaving out every ignored poll leaves the whole run as it is: what is sent, the state and
/// whether the stream still polls.
pub proof fn law_ignored_polls_can_be_left_out(
    from: StreamRun,
    rounds: Seq<(StreamPollView, bool)>,
)
    ensures
        run(from, without_ignored(from, rounds)) == run(from, rounds),
    decreases rounds.len(),
{
    if rounds.len() > 0 {
        let rest = rounds.drop_last();
        law_ignored_polls_can_be_left_out(from, rest);
        if is_ignored(run(from, rest).state, rounds.last().0) {
            law_ignored_poll_changes_nothing(run(from, rest), rounds.last().0, rounds.last().1);
        } else {
            assert(without_ignored(from, rounds).drop_last() =~= without_ignored(from, rest));
        }
    }
}

} // verus!
