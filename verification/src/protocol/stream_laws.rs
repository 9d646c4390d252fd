//! What holds of streamed responses: an accumulator reads back the events that the
//! formatter of its protocol wrote, and puts the pieces of a text and of the arguments
//! of a call together in order.

use vstd::prelude::*;

use crate::json::{int_view, JsonView};
use crate::protocol;
use crate::protocol::laws::counts_are_read_back;
use crate::protocol::stream::{
    anthropic_payload, anthropic_step, arguments_or_text, chat_call_step, chat_payload, chat_step, gemini_payload,
    gemini_step, grown_arguments, item_id, items_are_known, line_payload, padded, padded_reaches,
    payloads_of, responses_payload, responses_step, settled_call, AnthropicStreamView,
    ChatStreamView, GeminiStreamView, ResponsesStreamView,
};
use crate::protocol::words::words_differ;
use crate::protocol::{ResponseView, StreamEventView, ToolCallView, Usage};
use crate::seqs;
use crate::text;
use crate::text_laws::{line_ends_first, lines_are_read_in_order, lines_behind};

verus! {

// ---------------------------------------------------------------------------
// Payloads
// ---------------------------------------------------------------------------

/// A payload is never empty, and never the mark of the end of a stream.
pub proof fn payloads_say_something(chunk: Seq<char>, i: int)
    requires
        0 <= i < payloads_of(chunk).len(),
    ensures
        payloads_of(chunk)[i].len() > 0,
        payloads_of(chunk)[i] != "[DONE]"@,
{
    picked_payload_says_something(text::lines_of(chunk), i);
}

proof fn picked_payload_says_something(lines: Seq<Seq<char>>, i: int)
    requires
        0 <= i < lines.filter_map(line_payload()).len(),
    ensures
        lines.filter_map(line_payload())[i].len() > 0,
        lines.filter_map(line_payload())[i] != "[DONE]"@,
    decreases lines.len(),
{
    let rest = lines.drop_last().filter_map(line_payload());
    if lines.len() > 0 && i < rest.len() {
        picked_payload_says_something(lines.drop_last(), i);
    }
}

/// A stream that is cut at the end of a line has the payloads of its two pieces, in
/// order.
pub proof fn payloads_of_pieces(a: Seq<char>, b: Seq<char>)
    ensures
        payloads_of(a + "\n"@ + b) == payloads_of(a) + payloads_of(b),
{
    picks_of_pieces(a, b, 0);
}

/// A line of a stream that begins with the mark of data has what follows as its payload,
/// without white space around it, unless it marks the end of the stream; a line that
/// begins otherwise has none.
pub proof fn lines_have_their_payloads(s: Seq<char>, line: Seq<char>, rest: Seq<char>)
    requires
        !s.contains('\n'),
        !line.contains('\n'),
        !text::starts_with_of(line, "data: "@),
    ensures
        ({
            let data = text::trim_of(s);
            payloads_of("data: "@ + s + "\n"@ + rest) == (if data.len() == 0 || data
                == "[DONE]"@ {
                payloads_of(rest)
            } else {
                seq![data] + payloads_of(rest)
            })
        }),
        payloads_of(line + "\n"@ + rest) == payloads_of(rest),
        payloads_of(Seq::empty()).len() == 0,
{
    reveal_strlit("data: ");
    let f = line_payload();
    let data = text::trim_of(s);
    let full = "data: "@ + s;
    assert(!full.contains('\n')) by {
        if full.contains('\n') {
            let k = full.index_of('\n');
            if k >= 6 {
                assert(s[k - 6] == '\n');
                assert(s.contains('\n'));
            }
        }
    }
    let others = text::lines_of(rest);
    lines_are_read_in_order(full, rest);
    payload_without_return(full);
    assert(full.subrange(0, 6) =~= "data: "@);
    assert(full.skip(6) =~= s);
    let first = seq![text::without_return(full)];
    seqs::picks_concat(first, others, f);
    if data.len() == 0 || data == "[DONE]"@ {
        seqs::picks_none(first, f);
        assert(Seq::<Seq<char>>::empty() + others.filter_map(f) =~= others.filter_map(f));
    } else {
        seqs::picks_all(first, f, seq![data]);
    }
    lines_are_read_in_order(line, rest);
    payload_without_return(line);
    let other = seq![text::without_return(line)];
    seqs::picks_concat(other, others, f);
    seqs::picks_none(other, f);
    assert(Seq::<Seq<char>>::empty() + others.filter_map(f) =~= others.filter_map(f));
    lines_are_read_in_order(line, Seq::empty());
    assert(text::lines_of(Seq::empty()) =~= Seq::empty());
}

/// White space at the end of a text does not matter to what is left of it.
proof fn trimming_drops_last_space(s: Seq<char>, c: char)
    requires
        text::is_space(c),
    ensures
        text::trim_of(s.push(c)) == text::trim_of(s),
{
    starting_spaces_go(s, c);
    let rest = text::trim_start_of(s);
    assert(rest.push(c).drop_last() =~= rest);
}

proof fn starting_spaces_go(s: Seq<char>, c: char)
    requires
        text::is_space(c),
    ensures
        text::trim_start_of(s.push(c)) == (if text::trim_start_of(s).len() == 0 {
            Seq::empty()
        } else {
            text::trim_start_of(s).push(c)
        }),
    decreases s.len(),
{
    let t = s.push(c);
    if s.len() == 0 {
        assert(t.drop_first() =~= Seq::<char>::empty());
        reveal_with_fuel(text::trim_start_of, 2);
    } else if text::is_space(s[0]) {
        assert(t.drop_first() =~= s.drop_first().push(c));
        starting_spaces_go(s.drop_first(), c);
    }
}

/// The carriage return of a line ending is no part of a payload.
proof fn payload_without_return(line: Seq<char>)
    ensures
        line_payload()(text::without_return(line)) == line_payload()(line),
{
    reveal_strlit("data: ");
    let p = "data: "@;
    let rest = text::without_return(line);
    if rest != line {
        if text::starts_with_of(line, p) {
            assert(line.subrange(0, 6)[5] == ' ');
            assert(rest.subrange(0, 6) =~= line.subrange(0, 6));
            assert(line.skip(6) =~= rest.skip(6).push('\r'));
            trimming_drops_last_space(rest.skip(6), '\r');
        } else if text::starts_with_of(rest, p) {
            assert(line.subrange(0, 6) =~= rest.subrange(0, 6));
        }
    }
}

proof fn picks_of_pieces(a: Seq<char>, b: Seq<char>, from: int)
    requires
        0 <= from <= a.len(),
    ensures
        text::lines_from(a + "\n"@ + b, from).filter_map(line_payload()) == text::lines_from(
            a,
            from,
        ).filter_map(line_payload()) + payloads_of(b),
    decreases a.len() - from,
{
    reveal_strlit("\n");
    let f = line_payload();
    let head = a + "\n"@;
    let s = head + b;
    let n = a.len() as int;
    let end = text::line_end(a, from);
    text::line_end_bounds(a, from);
    assert(s[n] == '\n');
    assert forall|k: int| from <= k < end implies s[k] != '\n' by {
        assert(s[k] == a[k]);
    }
    assert(end < n ==> s[end] == a[end]);
    line_ends_first(s, from, end);
    let line = a.subrange(from, end);
    assert(s.subrange(from, end) =~= line);
    let first = seq![text::without_return(line)];
    let rest = text::lines_from(s, end + 1);
    assert(text::lines_from(s, from) == first + rest);
    seqs::picks_concat(first, rest, f);
    if end < n {
        picks_of_pieces(a, b, end + 1);
        seqs::picks_concat(first, text::lines_from(a, end + 1), f);
        assert(s == a + "\n"@ + b);
    } else {
        lines_behind(head, b, 0);
        assert(rest == text::lines_of(b));
        payload_without_return(line);
        let whole = text::lines_from(a, from);
        if from < n {
            assert(whole =~= seq![line]);
        } else {
            reveal_strlit("data: ");
            assert(whole =~= Seq::empty());
            assert(line =~= Seq::empty());
            seqs::picks_none(seq![line], f);
        }
        same_pick(first[0], line, f);
        assert(first.filter_map(f) == whole.filter_map(f));
    }
    assert(text::lines_from(s, from).filter_map(f) =~= text::lines_from(a, from).filter_map(f)
        + payloads_of(b));
}

proof fn same_pick(x: Seq<char>, y: Seq<char>, f: spec_fn(Seq<char>) -> Option<Seq<char>>)
    requires
        f(x) == f(y),
    ensures
        seq![x].filter_map(f) == seq![y].filter_map(f),
{
    match f(x) {
        Some(p) => {
            seqs::picks_all(seq![x], f, seq![p]);
            seqs::picks_all(seq![y], f, seq![p]);
        },
        None => {
            seqs::picks_none(seq![x], f);
            seqs::picks_none(seq![y], f);
        },
    }
}

// ---------------------------------------------------------------------------
// Anthropic
// ---------------------------------------------------------------------------

/// A piece of text that was sent is read back and added to the text.
pub proof fn anthropic_text_is_read_back(a: AnthropicStreamView, s: Seq<char>)
    requires
        s.len() > 0,
    ensures
        anthropic_step(a, anthropic_payload(StreamEventView::Delta(s))) == (
            AnthropicStreamView { content: a.content + s, ..a },
            Some(StreamEventView::Delta(s)),
        ),
{
    words_differ();
}

/// A piece of thought that was sent is read back and added to the thoughts.
pub proof fn anthropic_thought_is_read_back(a: AnthropicStreamView, s: Seq<char>)
    requires
        s.len() > 0,
    ensures
        anthropic_step(a, anthropic_payload(StreamEventView::ThinkingDelta(s))) == (
            AnthropicStreamView { thinking: a.thinking + s, ..a },
            Some(StreamEventView::ThinkingDelta(s)),
        ),
{
    words_differ();
}

/// The beginning of a call that was sent is read back and begins a call.
pub proof fn anthropic_call_is_read_back(
    a: AnthropicStreamView,
    index: u32,
    id: Seq<char>,
    name: Seq<char>,
)
    ensures
        ({
            let event = StreamEventView::ToolCallDelta { index, id, name, arguments: Seq::empty() };
            anthropic_step(a, anthropic_payload(event)) == (
                AnthropicStreamView {
                    tool_calls: a.tool_calls.push(
                        ToolCallView { id, name, arguments: JsonView::Str(Seq::empty()) },
                    ),
                    tool_call_indices: a.tool_call_indices.push(index),
                    ..a
                },
                Some(event),
            )
        }),
{
    words_differ();
    counts_are_read_back(index);
}

/// A piece of the arguments of the last call that was sent is read back, and added to
/// the arguments of the call.
pub proof fn anthropic_arguments_are_read_back(
    a: AnthropicStreamView,
    index: u32,
    written: Seq<char>,
    piece: Seq<char>,
)
    requires
        a.tool_calls.len() > 0,
        a.tool_calls.last().arguments == JsonView::Str(written),
        piece.len() > 0,
    ensures
        ({
            let last = a.tool_calls.last();
            let event = StreamEventView::ToolCallDelta {
                index,
                id: last.id,
                name: last.name,
                arguments: piece,
            };
            anthropic_step(a, anthropic_payload(event)) == (
                AnthropicStreamView {
                    tool_calls: a.tool_calls.update(
                        a.tool_calls.len() - 1,
                        ToolCallView { arguments: JsonView::Str(written + piece), ..last },
                    ),
                    ..a
                },
                Some(event),
            )
        }),
{
    words_differ();
    counts_are_read_back(index);
}

/// The end of a response that was sent is read back: the reason for the end and the
/// count of the tokens of the answer.
pub proof fn anthropic_end_is_read_back(a: AnthropicStreamView, ir: ResponseView)
    ensures
        anthropic_step(a, anthropic_payload(StreamEventView::Done(ir))) == (
            AnthropicStreamView {
                stop_reason: ir.finish_reason,
                usage: Usage { completion_tokens: ir.usage.completion_tokens, ..a.usage },
                ..a
            },
            None::<StreamEventView>,
        ),
{
    words_differ();
    counts_are_read_back(ir.usage.completion_tokens);
}

// ---------------------------------------------------------------------------
// OpenAI chat completions
// ---------------------------------------------------------------------------

/// A piece of text that was sent is read back and added to the text.
pub proof fn chat_text_is_read_back(a: ChatStreamView, s: Seq<char>, model: Seq<char>)
    requires
        s.len() > 0,
    ensures
        chat_step(a, chat_payload(StreamEventView::Delta(s), model)) == (
            ChatStreamView { content: a.content + s, ..a },
            Some(StreamEventView::Delta(s)),
        ),
{
    words_differ();
}

/// A piece of thought that was sent is read back and added to the thoughts.
pub proof fn chat_thought_is_read_back(a: ChatStreamView, s: Seq<char>, model: Seq<char>)
    requires
        s.len() > 0,
    ensures
        chat_step(a, chat_payload(StreamEventView::ThinkingDelta(s), model)) == (
            ChatStreamView { reasoning: a.reasoning + s, ..a },
            Some(StreamEventView::ThinkingDelta(s)),
        ),
{
    words_differ();
}

/// The beginning of a call that was sent is read back; the call at its position has its
/// identifier and its name.
pub proof fn chat_call_is_read_back(
    a: ChatStreamView,
    index: u32,
    id: Seq<char>,
    name: Seq<char>,
    model: Seq<char>,
)
    ensures
        ({
            let event = StreamEventView::ToolCallDelta { index, id, name, arguments: Seq::empty() };
            let calls = padded(a.tool_calls, index as nat);
            chat_step(a, chat_payload(event, model)) == (
                ChatStreamView {
                    tool_calls: calls.update(
                        index as int,
                        ToolCallView { id, name, ..calls[index as int] },
                    ),
                    ..a
                },
                Some(event),
            )
        }),
{
    words_differ();
    counts_are_read_back(index);
    padded_reaches(a.tool_calls, index as nat);
    let event = StreamEventView::ToolCallDelta { index, id, name, arguments: Seq::empty() };
    let pieces = chat_payload(event, model).at("choices"@).item(0).at("delta"@).at("tool_calls"@);
    assert(pieces is Array);
    assert(pieces->Array_0.len() == 1);
    assert(pieces->Array_0[0].at("index"@) == int_view(index as int));
}

/// The end of a response that was sent is read back: the reason for the end and the
/// counts.
pub proof fn chat_end_is_read_back(a: ChatStreamView, ir: ResponseView, model: Seq<char>)
    ensures
        chat_step(a, chat_payload(StreamEventView::Done(ir), model)) == (
            ChatStreamView {
                finish_reason: ir.finish_reason,
                usage: Usage {
                    prompt_tokens: ir.usage.prompt_tokens,
                    completion_tokens: ir.usage.completion_tokens,
                    total_tokens: ir.usage.total_tokens,
                    ..a.usage
                },
                ..a
            },
            None::<StreamEventView>,
        ),
{
    words_differ();
    counts_are_read_back(ir.usage.prompt_tokens);
    counts_are_read_back(ir.usage.completion_tokens);
    counts_are_read_back(ir.usage.total_tokens);
}

// ---------------------------------------------------------------------------
// OpenAI responses
// ---------------------------------------------------------------------------

/// A piece of text that was sent is read back and added to the text.
pub proof fn responses_text_is_read_back(
    a: ResponsesStreamView,
    s: Seq<char>,
    model: Seq<char>,
    fresh: Seq<char>,
)
    requires
        s.len() > 0,
    ensures
        responses_step(a, responses_payload(StreamEventView::Delta(s), model, fresh)) == (
            ResponsesStreamView { content: a.content + s, ..a },
            Some(StreamEventView::Delta(s)),
        ),
{
    words_differ();
}

/// The beginning of the next call that was sent is read back, and its item is known
/// from then on.
pub proof fn responses_call_is_read_back(
    a: ResponsesStreamView,
    id: Seq<char>,
    name: Seq<char>,
    model: Seq<char>,
    fresh: Seq<char>,
)
    requires
        items_are_known(a),
        a.tool_calls.len() <= u32::MAX,
        name.len() > 0,
    ensures
        ({
            let index = a.tool_calls.len() as u32;
            let event = StreamEventView::ToolCallDelta { index, id, name, arguments: Seq::empty() };
            responses_step(a, responses_payload(event, model, fresh)) == (
                ResponsesStreamView {
                    tool_calls: a.tool_calls.push(
                        ToolCallView { id, name, arguments: JsonView::Str(""@) },
                    ),
                    by_item: a.by_item.insert(item_id(index), index as usize),
                    ..a
                },
                Some(event),
            )
        }),
{
    words_differ();
    reveal_strlit("fc_");
    reveal_strlit("");
    let index = a.tool_calls.len() as u32;
    assert(item_id(index).len() > 0);
}

/// A piece of the arguments of a known call that was sent is read back, and added to the
/// arguments of the call.
pub proof fn responses_arguments_are_read_back(
    a: ResponsesStreamView,
    index: u32,
    piece: Seq<char>,
    model: Seq<char>,
    fresh: Seq<char>,
)
    requires
        items_are_known(a),
        index < a.tool_calls.len(),
        a.by_item.dom().contains(item_id(index)),
        a.by_item[item_id(index)] == index,
        a.tool_calls[index as int].id.len() > 0,
        piece.len() > 0,
    ensures
        ({
            let entry = a.tool_calls[index as int];
            let event = StreamEventView::ToolCallDelta {
                index,
                id: entry.id,
                name: entry.name,
                arguments: piece,
            };
            responses_step(a, responses_payload(event, model, fresh)) == (
                ResponsesStreamView {
                    tool_calls: a.tool_calls.update(
                        index as int,
                        ToolCallView {
                            arguments: grown_arguments(entry.arguments, piece),
                            ..entry
                        },
                    ),
                    ..a
                },
                Some(event),
            )
        }),
{
    words_differ();
}

/// The counts of a response that was sent are read back at its end.
pub proof fn responses_end_is_read_back(
    a: ResponsesStreamView,
    ir: ResponseView,
    model: Seq<char>,
    fresh: Seq<char>,
)
    ensures
        responses_step(a, responses_payload(StreamEventView::Done(ir), model, fresh)) == (
            ResponsesStreamView {
                usage: Usage {
                    prompt_tokens: ir.usage.prompt_tokens,
                    completion_tokens: ir.usage.completion_tokens,
                    total_tokens: ir.usage.total_tokens,
                    ..a.usage
                },
                ..a
            },
            None::<StreamEventView>,
        ),
{
    words_differ();
    counts_are_read_back(ir.usage.prompt_tokens);
    counts_are_read_back(ir.usage.completion_tokens);
    counts_are_read_back(ir.usage.total_tokens);
}

// ---------------------------------------------------------------------------
// Gemini
// ---------------------------------------------------------------------------

/// A piece of text that was sent is read back and added to the text.
pub proof fn gemini_text_is_read_back(a: GeminiStreamView, s: Seq<char>, fresh: Seq<char>)
    requires
        s.len() > 0,
    ensures
        gemini_payload(StreamEventView::Delta(s)) matches Some(payload) && gemini_step(
            a,
            payload,
            fresh,
        ) == (
            GeminiStreamView { content: a.content + s, ..a },
            Some(StreamEventView::Delta(s)),
        ),
{
    words_differ();
}

/// A call that was sent is read back with its identifier, its name and its arguments.
pub proof fn gemini_call_is_read_back(
    a: GeminiStreamView,
    index: u32,
    id: Seq<char>,
    name: Seq<char>,
    arguments: Seq<char>,
    fresh: Seq<char>,
)
    requires
        id.len() > 0,
        name.len() > 0,
    ensures
        gemini_payload(
            StreamEventView::ToolCallDelta { index, id, name, arguments },
        ) matches Some(payload) && gemini_step(a, payload, fresh).0 == (GeminiStreamView {
            tool_calls: a.tool_calls.push(
                ToolCallView { id, name, arguments: arguments_or_text(arguments) },
            ),
            ..a
        }),
{
    words_differ();
}

/// The end of a response without text or calls that was sent is read back: the reason
/// for the end and the counts.
pub proof fn gemini_end_is_read_back(a: GeminiStreamView, ir: ResponseView, fresh: Seq<char>)
    requires
        ir.content.len() == 0,
        ir.tool_calls.len() == 0,
    ensures
        gemini_payload(StreamEventView::Done(ir)) matches Some(payload) && gemini_step(
            a,
            payload,
            fresh,
        ) == (
            GeminiStreamView {
                finish_reason: ir.finish_reason,
                usage: Usage {
                    prompt_tokens: ir.usage.prompt_tokens,
                    completion_tokens: ir.usage.completion_tokens,
                    total_tokens: ir.usage.total_tokens,
                    ..a.usage
                },
                ..a
            },
            None::<StreamEventView>,
        ),
{
    words_differ();
    counts_are_read_back(ir.usage.prompt_tokens);
    counts_are_read_back(ir.usage.completion_tokens);
    counts_are_read_back(ir.usage.total_tokens);
}

// ---------------------------------------------------------------------------
// Whole streams
// ---------------------------------------------------------------------------

/// The state after all of some payloads.
pub open spec fn anthropic_fed(a: AnthropicStreamView, payloads: Seq<JsonView>) -> AnthropicStreamView
    decreases payloads.len(),
{
    if payloads.len() == 0 {
        a
    } else {
        anthropic_step(anthropic_fed(a, payloads.drop_last()), payloads.last()).0
    }
}

/// The state after all of some payloads.
pub open spec fn chat_fed(a: ChatStreamView, payloads: Seq<JsonView>) -> ChatStreamView
    decreases payloads.len(),
{
    if payloads.len() == 0 {
        a
    } else {
        chat_step(chat_fed(a, payloads.drop_last()), payloads.last()).0
    }
}

/// The state after all of some payloads.
pub open spec fn responses_fed(a: ResponsesStreamView, payloads: Seq<JsonView>) -> ResponsesStreamView
    decreases payloads.len(),
{
    if payloads.len() == 0 {
        a
    } else {
        responses_step(responses_fed(a, payloads.drop_last()), payloads.last()).0
    }
}

/// The state after all of some payloads; calls without identifiers get the given one.
pub open spec fn gemini_fed(a: GeminiStreamView, payloads: Seq<JsonView>, fresh: Seq<char>) -> GeminiStreamView
    decreases payloads.len(),
{
    if payloads.len() == 0 {
        a
    } else {
        gemini_step(gemini_fed(a, payloads.drop_last(), fresh), payloads.last(), fresh).0
    }
}

/// The text of one more piece follows the text of the pieces before it.
proof fn pieces_step(pieces: Seq<Seq<char>>)
    requires
        pieces.len() > 0,
    ensures
        pieces.flatten() == pieces.drop_last().flatten() + pieces.last(),
{
    pieces.lemma_flatten_and_flatten_alt_are_equivalent();
    pieces.drop_last().lemma_flatten_and_flatten_alt_are_equivalent();
}

/// The pieces of a text that were sent make the whole text.
pub proof fn anthropic_pieces_make_the_text(a: AnthropicStreamView, pieces: Seq<Seq<char>>)
    ensures
        anthropic_fed(
            a,
            pieces.map_values(|s: Seq<char>| anthropic_payload(StreamEventView::Delta(s))),
        ) == (AnthropicStreamView { content: a.content + pieces.flatten(), ..a }),
    decreases pieces.len(),
{
    let f = |s: Seq<char>| anthropic_payload(StreamEventView::Delta(s));
    let payloads = pieces.map_values(f);
    if pieces.len() > 0 {
        words_differ();
        anthropic_pieces_make_the_text(a, pieces.drop_last());
        assert(payloads.drop_last() =~= pieces.drop_last().map_values(f));
        assert(payloads.last() == f(pieces.last()));
        pieces_step(pieces);
    }
}

/// The pieces of the arguments of a call that were sent make the whole arguments, which
/// are read at the end.
pub proof fn anthropic_pieces_make_the_arguments(
    a: AnthropicStreamView,
    index: u32,
    pieces: Seq<Seq<char>>,
)
    requires
        a.tool_calls.len() > 0,
        a.tool_calls.last().arguments == JsonView::Str(Seq::empty()),
        forall|i: int| 0 <= i < pieces.len() ==> (#[trigger] pieces[i]).len() > 0,
    ensures
        ({
            let last = a.tool_calls.last();
            let after = anthropic_fed(
                a,
                pieces.map_values(
                    |s: Seq<char>|
                        anthropic_payload(
                            StreamEventView::ToolCallDelta {
                                index,
                                id: last.id,
                                name: last.name,
                                arguments: s,
                            },
                        ),
                ),
            );
            &&& after == (AnthropicStreamView {
                tool_calls: a.tool_calls.update(
                    a.tool_calls.len() - 1,
                    ToolCallView { arguments: JsonView::Str(pieces.flatten()), ..last },
                ),
                ..a
            })
            &&& settled_call()(after.tool_calls.last()) == (ToolCallView {
                arguments: protocol::parsed_or_empty(pieces.flatten()),
                ..last
            })
        }),
    decreases pieces.len(),
{
    let last = a.tool_calls.last();
    let f = |s: Seq<char>|
        anthropic_payload(
            StreamEventView::ToolCallDelta { index, id: last.id, name: last.name, arguments: s },
        );
    let payloads = pieces.map_values(f);
    if pieces.len() > 0 {
        let rest = pieces.drop_last();
        assert forall|i: int| 0 <= i < rest.len() implies (#[trigger] rest[i]).len() > 0 by {
            assert(rest[i] == pieces[i]);
        }
        assert(pieces[pieces.len() - 1].len() > 0);
        anthropic_pieces_make_the_arguments(a, index, rest);
        assert(payloads.drop_last() =~= rest.map_values(f));
        assert(payloads.last() == f(pieces.last()));
        pieces_step(pieces);
        anthropic_arguments_are_read_back(
            anthropic_fed(a, payloads.drop_last()),
            index,
            rest.flatten(),
            pieces.last(),
        );
    } else {
        assert(a.tool_calls.update(a.tool_calls.len() - 1, last) =~= a.tool_calls);
        assert(pieces.flatten() =~= Seq::<char>::empty());
    }
}

/// The pieces of a text that were sent make the whole text.
pub proof fn chat_pieces_make_the_text(
    a: ChatStreamView,
    pieces: Seq<Seq<char>>,
    model: Seq<char>,
)
    ensures
        chat_fed(
            a,
            pieces.map_values(|s: Seq<char>| chat_payload(StreamEventView::Delta(s), model)),
        ) == (ChatStreamView { content: a.content + pieces.flatten(), ..a }),
    decreases pieces.len(),
{
    let f = |s: Seq<char>| chat_payload(StreamEventView::Delta(s), model);
    let payloads = pieces.map_values(f);
    if pieces.len() > 0 {
        words_differ();
        chat_pieces_make_the_text(a, pieces.drop_last(), model);
        assert(payloads.drop_last() =~= pieces.drop_last().map_values(f));
        assert(payloads.last() == f(pieces.last()));
        pieces_step(pieces);
    }
}

/// The calls after all of some pieces.
pub open spec fn chat_calls_fed(calls: Seq<ToolCallView>, pieces: Seq<JsonView>) -> Seq<ToolCallView>
    decreases pieces.len(),
{
    if pieces.len() == 0 {
        calls
    } else {
        chat_call_step(chat_calls_fed(calls, pieces.drop_last()), pieces.last()).0
    }
}

/// Whether a piece is a piece of the arguments of the call at a position.
pub open spec fn is_argument_piece(piece: JsonView, index: int, s: Seq<char>) -> bool {
    &&& protocol::count_of(piece.at("index"@)) == index
    &&& piece.at("id"@).as_str() is None
    &&& piece.at("function"@).at("name"@).as_str() is None
    &&& piece.at("function"@).at("arguments"@).as_str() == Some(s)
}

/// The pieces of the arguments of a call make the whole arguments, which are read at the
/// end.
pub proof fn chat_pieces_make_the_arguments(
    calls: Seq<ToolCallView>,
    index: int,
    pieces: Seq<JsonView>,
    texts: Seq<Seq<char>>,
)
    requires
        0 <= index < calls.len(),
        !(calls[index].arguments is Str),
        pieces.len() == texts.len(),
        pieces.len() > 0,
        forall|i: int| 0 <= i < pieces.len() ==> is_argument_piece(#[trigger] pieces[i], index, texts[i]),
    ensures
        chat_calls_fed(calls, pieces) == calls.update(
            index,
            ToolCallView { arguments: JsonView::Str(texts.flatten()), ..calls[index] },
        ),
        settled_call()(chat_calls_fed(calls, pieces)[index]) == (ToolCallView {
            arguments: protocol::parsed_or_empty(texts.flatten()),
            ..calls[index]
        }),
    decreases pieces.len(),
{
    let rest = pieces.drop_last();
    let rest_texts = texts.drop_last();
    pieces_step(texts);
    assert(is_argument_piece(pieces[pieces.len() - 1], index, texts[pieces.len() - 1]));
    if rest.len() > 0 {
        assert forall|i: int| 0 <= i < rest.len() implies is_argument_piece(
            #[trigger] rest[i],
            index,
            rest_texts[i],
        ) by {
            assert(rest[i] == pieces[i]);
        }
        chat_pieces_make_the_arguments(calls, index, rest, rest_texts);
    } else {
        assert(chat_calls_fed(calls, rest) == calls);
        assert(rest_texts.flatten() =~= Seq::<char>::empty());
    }
    let before = chat_calls_fed(calls, rest);
    assert(padded(before, index as nat) == before);
    assert(texts.flatten() == rest_texts.flatten() + texts.last());
    assert(chat_calls_fed(calls, pieces) =~= calls.update(
        index,
        ToolCallView { arguments: JsonView::Str(texts.flatten()), ..calls[index] },
    ));
}

/// The pieces of a text that were sent make the whole text.
pub proof fn responses_pieces_make_the_text(
    a: ResponsesStreamView,
    pieces: Seq<Seq<char>>,
    model: Seq<char>,
    fresh: Seq<char>,
)
    ensures
        responses_fed(
            a,
            pieces.map_values(
                |s: Seq<char>| responses_payload(StreamEventView::Delta(s), model, fresh),
            ),
        ) == (ResponsesStreamView { content: a.content + pieces.flatten(), ..a }),
    decreases pieces.len(),
{
    let f = |s: Seq<char>| responses_payload(StreamEventView::Delta(s), model, fresh);
    let payloads = pieces.map_values(f);
    if pieces.len() > 0 {
        words_differ();
        responses_pieces_make_the_text(a, pieces.drop_last(), model, fresh);
        assert(payloads.drop_last() =~= pieces.drop_last().map_values(f));
        assert(payloads.last() == f(pieces.last()));
        pieces_step(pieces);
    }
}

/// The pieces of the arguments of a known call that were sent make the whole arguments,
/// which are read at the end.
pub proof fn responses_pieces_make_the_arguments(
    a: ResponsesStreamView,
    index: u32,
    pieces: Seq<Seq<char>>,
    model: Seq<char>,
    fresh: Seq<char>,
)
    requires
        items_are_known(a),
        index < a.tool_calls.len(),
        a.by_item.dom().contains(item_id(index)),
        a.by_item[item_id(index)] == index,
        a.tool_calls[index as int].id.len() > 0,
        a.tool_calls[index as int].arguments == JsonView::Str(Seq::empty()),
        forall|i: int| 0 <= i < pieces.len() ==> (#[trigger] pieces[i]).len() > 0,
    ensures
        ({
            let entry = a.tool_calls[index as int];
            let after = responses_fed(
                a,
                pieces.map_values(
                    |s: Seq<char>|
                        responses_payload(
                            StreamEventView::ToolCallDelta {
                                index,
                                id: entry.id,
                                name: entry.name,
                                arguments: s,
                            },
                            model,
                            fresh,
                        ),
                ),
            );
            &&& after == (ResponsesStreamView {
                tool_calls: a.tool_calls.update(
                    index as int,
                    ToolCallView { arguments: JsonView::Str(pieces.flatten()), ..entry },
                ),
                ..a
            })
            &&& settled_call()(after.tool_calls[index as int]) == (ToolCallView {
                arguments: protocol::parsed_or_empty(pieces.flatten()),
                ..entry
            })
        }),
    decreases pieces.len(),
{
    let entry = a.tool_calls[index as int];
    let f = |s: Seq<char>|
        responses_payload(
            StreamEventView::ToolCallDelta { index, id: entry.id, name: entry.name, arguments: s },
            model,
            fresh,
        );
    let payloads = pieces.map_values(f);
    if pieces.len() > 0 {
        let rest = pieces.drop_last();
        assert forall|i: int| 0 <= i < rest.len() implies (#[trigger] rest[i]).len() > 0 by {
            assert(rest[i] == pieces[i]);
        }
        assert(pieces[pieces.len() - 1].len() > 0);
        responses_pieces_make_the_arguments(a, index, rest, model, fresh);
        assert(payloads.drop_last() =~= rest.map_values(f));
        assert(payloads.last() == f(pieces.last()));
        pieces_step(pieces);
        responses_arguments_are_read_back(
            responses_fed(a, payloads.drop_last()),
            index,
            pieces.last(),
            model,
            fresh,
        );
    } else {
        assert(a.tool_calls.update(index as int, entry) =~= a.tool_calls);
        assert(pieces.flatten() =~= Seq::<char>::empty());
    }
}

/// The pieces of a text that were sent make the whole text.
pub proof fn gemini_pieces_make_the_text(
    a: GeminiStreamView,
    pieces: Seq<Seq<char>>,
    fresh: Seq<char>,
)
    ensures
        gemini_fed(
            a,
            pieces.map_values(|s: Seq<char>| gemini_payload(StreamEventView::Delta(s))->0),
            fresh,
        ) == (GeminiStreamView { content: a.content + pieces.flatten(), ..a }),
    decreases pieces.len(),
{
    let f = |s: Seq<char>| gemini_payload(StreamEventView::Delta(s))->0;
    let payloads = pieces.map_values(f);
    if pieces.len() > 0 {
        words_differ();
        gemini_pieces_make_the_text(a, pieces.drop_last(), fresh);
        assert(payloads.drop_last() =~= pieces.drop_last().map_values(f));
        assert(payloads.last() == f(pieces.last()));
        pieces_step(pieces);
    }
}

} // verus!
