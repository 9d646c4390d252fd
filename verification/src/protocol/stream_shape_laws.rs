//! What streams are made of: what each payload adds to a response that is put together,
//! what the response holds in the end, and what a payload that is written says.

use vstd::prelude::*;

use crate::json::{int_view, json_text, JsonView};
use crate::protocol::body_laws::count;
use crate::protocol::google_genai;
use crate::protocol::laws::counts_are_read_back;
use crate::protocol::request_laws::are_read;
use crate::protocol::stream::{
    anthropic_payload, anthropic_response, anthropic_start, anthropic_step, chat_payload,
    chat_response, chat_start, chat_step, gemini_payload, gemini_response, gemini_start,
    gemini_step, items_are_known, padded, padded_reaches, responses_payload, responses_response,
    responses_start, responses_step, AnthropicStreamView, ChatStreamView, GeminiStreamView,
    ResponsesStreamView,
};
use crate::protocol::words::words_differ;
use crate::protocol::{ResponseView, StreamEventView, ToolCallView, Usage};
use crate::text;

verus! {

// ---------------------------------------------------------------------------
// What a response holds in the end
// ---------------------------------------------------------------------------

/// Whether the calls of a response are those of a stream, one for one and in order:
/// arguments that are still text are read, and others stay.
pub open spec fn are_settled(calls: Seq<ToolCallView>, streamed: Seq<ToolCallView>) -> bool {
    &&& calls.len() == streamed.len()
    &&& forall|i: int|
        0 <= i < streamed.len() ==> {
            let c = #[trigger] calls[i];
            &&& c.id == streamed[i].id
            &&& c.name == streamed[i].name
            &&& match streamed[i].arguments {
                JsonView::Str(s) => are_read(c.arguments, s),
                other => c.arguments == other,
            }
        }
}

/// Whether a response holds a text, thoughts, a reason for its end and counts, says which
/// model answered and how long it took, and nothing that a stream does not tell.
pub open spec fn is_made_of(
    r: ResponseView,
    content: Seq<char>,
    thoughts: Seq<char>,
    finish_reason: Seq<char>,
    usage: Usage,
    model: Seq<char>,
    duration_ms: u64,
) -> bool {
    &&& r.content == content
    &&& r.thinking == (if thoughts.len() > 0 {
        Some(thoughts)
    } else {
        None
    })
    &&& r.finish_reason == finish_reason
    &&& r.usage == usage
    &&& r.model == model
    &&& r.duration_ms == duration_ms
    &&& r.id is None
    &&& r.status is None
    &&& r.cost_usd.bits == 0
    &&& r.metadata == Map::<Seq<char>, JsonView>::empty()
    &&& r.native == Map::<Seq<char>, JsonView>::empty()
}

/// The response of each stream holds what was put together: the text, the thoughts, the
/// reason for the end, the counts, and every tool call in its place. A responses stream
/// always ends by itself, and a Gemini stream has no thoughts.
pub proof fn responses_hold_the_streams(
    anthropic: AnthropicStreamView,
    chat: ChatStreamView,
    responses: ResponsesStreamView,
    gemini: GeminiStreamView,
    model: Seq<char>,
    duration_ms: u64,
)
    ensures
        ({
            let r = anthropic_response(anthropic, model, duration_ms);
            &&& are_settled(r.tool_calls, anthropic.tool_calls)
            &&& is_made_of(
                r,
                anthropic.content,
                anthropic.thinking,
                anthropic.stop_reason,
                anthropic.usage,
                model,
                duration_ms,
            )
        }),
        ({
            let r = chat_response(chat, model, duration_ms);
            &&& are_settled(r.tool_calls, chat.tool_calls)
            &&& is_made_of(
                r,
                chat.content,
                chat.reasoning,
                chat.finish_reason,
                chat.usage,
                model,
                duration_ms,
            )
        }),
        ({
            let r = responses_response(responses, model, duration_ms);
            &&& are_settled(r.tool_calls, responses.tool_calls)
            &&& is_made_of(
                r,
                responses.content,
                responses.reasoning,
                "stop"@,
                responses.usage,
                model,
                duration_ms,
            )
        }),
        ({
            let r = gemini_response(gemini, model, duration_ms);
            &&& r.tool_calls.len() == gemini.tool_calls.len()
            &&& forall|i: int|
                0 <= i < gemini.tool_calls.len() ==> #[trigger] r.tool_calls[i]
                    == gemini.tool_calls[i]
            &&& is_made_of(
                r,
                gemini.content,
                Seq::empty(),
                gemini.finish_reason,
                gemini.usage,
                model,
                duration_ms,
            )
        }),
{
}

/// Before any payload a stream has no text, no thoughts, no calls and no counts, and is
/// taken to end by itself.
pub proof fn streams_begin_empty()
    ensures
        ({
            let a = anthropic_start();
            &&& a.content.len() == 0
            &&& a.thinking.len() == 0
            &&& a.tool_calls.len() == 0
            &&& a.tool_call_indices.len() == 0
            &&& a.stop_reason == "end_turn"@
            &&& counts_nothing(a.usage)
        }),
        ({
            let a = chat_start();
            &&& a.content.len() == 0
            &&& a.reasoning.len() == 0
            &&& a.tool_calls.len() == 0
            &&& a.finish_reason == "stop"@
            &&& counts_nothing(a.usage)
        }),
        ({
            let a = responses_start();
            &&& a.content.len() == 0
            &&& a.reasoning.len() == 0
            &&& a.tool_calls.len() == 0
            &&& a.by_item == Map::<Seq<char>, usize>::empty()
            &&& counts_nothing(a.usage)
        }),
        ({
            let a = gemini_start();
            &&& a.content.len() == 0
            &&& a.tool_calls.len() == 0
            &&& a.finish_reason == "STOP"@
            &&& counts_nothing(a.usage)
        }),
{
}

/// Whether nothing was counted.
pub open spec fn counts_nothing(u: Usage) -> bool {
    u.prompt_tokens == 0 && u.completion_tokens == 0 && u.total_tokens == 0 && u.reasoning_tokens
        == 0
}

/// The event for a piece of text: none, if it is empty.
pub open spec fn says(e: Option<StreamEventView>, s: Seq<char>) -> bool {
    e == (if s.len() > 0 {
        Some(StreamEventView::Delta(s))
    } else {
        None
    })
}

/// The event for a piece of thought: none, if it is empty.
pub open spec fn thinks(e: Option<StreamEventView>, s: Seq<char>) -> bool {
    e == (if s.len() > 0 {
        Some(StreamEventView::ThinkingDelta(s))
    } else {
        None
    })
}

// ---------------------------------------------------------------------------
// What payloads of Anthropic add
// ---------------------------------------------------------------------------

/// A payload with a piece of text adds it to the text, and one with a piece of thought to
/// the thoughts; nothing else changes.
pub proof fn anthropic_pieces_are_added(a: AnthropicStreamView, v: JsonView, s: Seq<char>)
    requires
        v.at("type"@) == JsonView::Str("content_block_delta"@),
    ensures
        ({
            let d = v.at("delta"@);
            let (b, e) = anthropic_step(a, v);
            &&& d.at("type"@) == JsonView::Str("text_delta"@) && d.at("text"@) == JsonView::Str(s)
                ==> b == (AnthropicStreamView { content: a.content + s, ..a }) && says(e, s)
            &&& d.at("type"@) == JsonView::Str("thinking_delta"@) && d.at("thinking"@)
                == JsonView::Str(s) ==> b == (AnthropicStreamView {
                thinking: a.thinking + s,
                ..a
            }) && thinks(e, s)
        }),
{
    words_differ();
}

/// A payload that begins a tool call adds it after the others, and a piece of arguments
/// is added to those of the last call; nothing else changes.
pub proof fn anthropic_calls_are_added(
    a: AnthropicStreamView,
    v: JsonView,
    index: u32,
    id: Seq<char>,
    name: Seq<char>,
    s: Seq<char>,
)
    requires
        v.at("index"@) == int_view(index as int),
    ensures
        ({
            let block = v.at("content_block"@);
            let (b, e) = anthropic_step(a, v);
            v.at("type"@) == JsonView::Str("content_block_start"@) && block.at("type"@)
                == JsonView::Str("tool_use"@) && block.at("id"@) == JsonView::Str(id) && block.at(
                "name"@,
            ) == JsonView::Str(name) ==> {
                &&& b.tool_calls.len() == a.tool_calls.len() + 1
                &&& b.tool_calls.drop_last() == a.tool_calls
                &&& b.tool_calls.last().id == id
                &&& b.tool_calls.last().name == name
                &&& b.tool_calls.last().arguments == JsonView::Str(Seq::empty())
                &&& b == (AnthropicStreamView {
                    tool_calls: b.tool_calls,
                    tool_call_indices: a.tool_call_indices.push(index),
                    ..a
                })
                &&& e == Some(
                    StreamEventView::ToolCallDelta { index, id, name, arguments: Seq::empty() },
                )
            }
        }),
        ({
            let d = v.at("delta"@);
            let (b, e) = anthropic_step(a, v);
            v.at("type"@) == JsonView::Str("content_block_delta"@) && d.at("type"@)
                == JsonView::Str("input_json_delta"@) && d.at("partial_json"@) == JsonView::Str(s)
                && a.tool_calls.len() > 0 && a.tool_calls.last().arguments is Str ==> {
                let last = a.tool_calls.last();
                &&& b.tool_calls.len() == a.tool_calls.len()
                &&& b.tool_calls.drop_last() == a.tool_calls.drop_last()
                &&& b.tool_calls.last().id == last.id
                &&& b.tool_calls.last().name == last.name
                &&& b.tool_calls.last().arguments == JsonView::Str(last.arguments->Str_0 + s)
                &&& b == (AnthropicStreamView { tool_calls: b.tool_calls, ..a })
                &&& s.len() > 0 ==> e == Some(
                    StreamEventView::ToolCallDelta {
                        index,
                        id: last.id,
                        name: last.name,
                        arguments: s,
                    },
                )
                &&& s.len() == 0 ==> e is None
            }
        }),
{
    words_differ();
    counts_are_read_back(index);
    let (b, e) = anthropic_step(a, v);
    if b.tool_calls.len() > a.tool_calls.len() {
        assert(b.tool_calls.drop_last() =~= a.tool_calls);
    } else if a.tool_calls.len() > 0 {
        assert(b.tool_calls.drop_last() =~= a.tool_calls.drop_last());
    }
}

/// The payload at the end gives the reason for the end and the count of the tokens of the
/// answer; payloads of other types change nothing.
pub proof fn anthropic_end_is_noted(a: AnthropicStreamView, v: JsonView, s: Seq<char>, n: u32)
    ensures
        ({
            let (b, e) = anthropic_step(a, v);
            &&& v.at("type"@) == JsonView::Str("message_delta"@) ==> {
                &&& e is None
                &&& v.at("delta"@).at("stop_reason"@) == JsonView::Str(s) ==> b.stop_reason == s
                &&& v.at("usage"@).at("output_tokens"@) == int_view(n as int)
                    ==> b.usage.completion_tokens == n
                &&& b == (AnthropicStreamView {
                    stop_reason: b.stop_reason,
                    usage: Usage { completion_tokens: b.usage.completion_tokens, ..a.usage },
                    ..a
                })
            }
            &&& v.at("type"@) != JsonView::Str("message_delta"@) && v.at("type"@) != JsonView::Str(
                "content_block_delta"@,
            ) && v.at("type"@) != JsonView::Str("content_block_start"@) ==> b == a && e is None
        }),
{
    words_differ();
    reveal_strlit("");
    counts_are_read_back(n);
}

// ---------------------------------------------------------------------------
// What chat payloads add
// ---------------------------------------------------------------------------

/// A payload with a piece of text adds it to the text, and one with a piece of thought to
/// the thoughts; nothing else changes.
pub proof fn chat_pieces_are_added(a: ChatStreamView, v: JsonView, s: Seq<char>)
    ensures
        ({
            let d = v.at("choices"@).item(0).at("delta"@);
            let (b, e) = chat_step(a, v);
            &&& !(d.at("tool_calls"@) is Array) && d.at("content"@) == JsonView::Str(s) ==> b == (
            ChatStreamView { content: a.content + s, ..a }) && says(e, s)
            &&& !(d.at("tool_calls"@) is Array) && !(d.at("content"@) is Str) && d.at(
                "reasoning"@,
            ) == JsonView::Str(s) ==> b == (ChatStreamView { reasoning: a.reasoning + s, ..a })
                && thinks(e, s)
        }),
{
}

/// A payload with a piece of a tool call makes it the call at its place: its identifier
/// and its name at its beginning, and then the pieces of its arguments. The other calls
/// stay, and nothing else changes.
pub proof fn chat_calls_are_added(
    a: ChatStreamView,
    v: JsonView,
    index: u32,
    id: Seq<char>,
    name: Seq<char>,
    s: Seq<char>,
)
    requires
        count(v.at("choices"@).item(0).at("delta"@).at("tool_calls"@)) == 1,
        v.at("choices"@).item(0).at("delta"@).at("tool_calls"@).item(0).at("index"@) == int_view(
            index as int,
        ),
    ensures
        ({
            let piece = v.at("choices"@).item(0).at("delta"@).at("tool_calls"@).item(0);
            let function = piece.at("function"@);
            let (b, e) = chat_step(a, v);
            let call = b.tool_calls[index as int];
            let begins = piece.at("id"@) == JsonView::Str(id) && function.at("name"@)
                == JsonView::Str(name);
            let goes_on = !(piece.at("id"@) is Str) && !(function.at("name"@) is Str)
                && function.at("arguments"@) == JsonView::Str(s) && index < a.tool_calls.len();
            &&& begins || goes_on ==> {
                &&& b == (ChatStreamView { tool_calls: b.tool_calls, ..a })
                &&& b.tool_calls.len() > index
                &&& b.tool_calls.len() >= a.tool_calls.len()
                &&& index < a.tool_calls.len() ==> b.tool_calls.len() == a.tool_calls.len()
                &&& forall|i: int|
                    0 <= i < a.tool_calls.len() && i != index ==> #[trigger] b.tool_calls[i]
                        == a.tool_calls[i]
            }
            &&& begins ==> {
                &&& call.id == id
                &&& call.name == name
                &&& index < a.tool_calls.len() ==> call.arguments
                    == a.tool_calls[index as int].arguments
                &&& index >= a.tool_calls.len() ==> call.arguments == JsonView::Object(
                    Map::empty(),
                )
                &&& e == Some(
                    StreamEventView::ToolCallDelta { index, id, name, arguments: Seq::empty() },
                )
            }
            &&& goes_on ==> {
                let old_call = a.tool_calls[index as int];
                &&& call.id == old_call.id
                &&& call.name == old_call.name
                &&& call.arguments == JsonView::Str(
                    match old_call.arguments {
                        JsonView::Str(t) => t + s,
                        _ => s,
                    },
                )
                &&& e == Some(
                    StreamEventView::ToolCallDelta {
                        index,
                        id: old_call.id,
                        name: old_call.name,
                        arguments: s,
                    },
                )
            }
        }),
{
    counts_are_read_back(index);
    padded_reaches(a.tool_calls, index as nat);
    let pieces = v.at("choices"@).item(0).at("delta"@).at("tool_calls"@);
    assert(pieces is Array);
    if index < a.tool_calls.len() {
        assert(padded(a.tool_calls, index as nat) == a.tool_calls);
    }
}

/// A payload without a piece of anything gives the reason for the end and the counts, if
/// it tells them.
pub proof fn chat_end_is_noted(
    a: ChatStreamView,
    v: JsonView,
    s: Seq<char>,
    prompt: u32,
    completion: u32,
    total: u32,
)
    ensures
        ({
            let d = v.at("choices"@).item(0).at("delta"@);
            let usage = v.at("usage"@);
            let reason = v.at("choices"@).item(0).at("finish_reason"@);
            let (b, e) = chat_step(a, v);
            !(d.at("tool_calls"@) is Array) && !(d.at("content"@) is Str) && !(d.at("reasoning"@)
                is Str) ==> {
                &&& e is None
                &&& reason == JsonView::Str(s) ==> b.finish_reason == s
                &&& !(reason is Str) ==> b.finish_reason == a.finish_reason
                &&& usage.at("prompt_tokens"@) == int_view(prompt as int) ==> b.usage.prompt_tokens
                    == prompt
                &&& usage.at("completion_tokens"@) == int_view(completion as int)
                    ==> b.usage.completion_tokens == completion
                &&& usage.at("total_tokens"@) == int_view(total as int) ==> b.usage.total_tokens
                    == total
                &&& usage is Null ==> b.usage == a.usage
                &&& b.content == a.content && b.reasoning == a.reasoning && b.tool_calls
                    == a.tool_calls
            }
        }),
{
    counts_are_read_back(prompt);
    counts_are_read_back(completion);
    counts_are_read_back(total);
}

// ---------------------------------------------------------------------------
// What payloads of the responses protocol add
// ---------------------------------------------------------------------------

/// A payload with a piece of text adds it to the text, and one with a piece of thought to
/// the thoughts; nothing else changes.
pub proof fn responses_pieces_are_added(a: ResponsesStreamView, v: JsonView, s: Seq<char>)
    requires
        v.at("delta"@) == JsonView::Str(s),
    ensures
        ({
            let kind = v.at("type"@);
            let (b, e) = responses_step(a, v);
            &&& kind == JsonView::Str("response.output_text.delta"@) ==> b == (
            ResponsesStreamView { content: a.content + s, ..a }) && says(e, s)
            &&& kind == JsonView::Str("response.reasoning_text.delta"@) || kind == JsonView::Str(
                "response.reasoning.delta"@,
            ) ==> b == (ResponsesStreamView { reasoning: a.reasoning + s, ..a }) && thinks(e, s)
        }),
{
    words_differ();
}

/// A payload with a new item of a call adds the call after the others, and notes whose
/// item it is. A piece of arguments for a known item is added to those of its call; the
/// other calls stay, and nothing else changes.
pub proof fn responses_calls_are_added(
    a: ResponsesStreamView,
    v: JsonView,
    key: Seq<char>,
    id: Seq<char>,
    name: Seq<char>,
    s: Seq<char>,
)
    requires
        items_are_known(a),
        a.tool_calls.len() < usize::MAX,
        key.len() > 0,
    ensures
        ({
            let item = v.at("item"@);
            let (b, e) = responses_step(a, v);
            v.at("type"@) == JsonView::Str("response.output_item.added"@) && item.at("type"@)
                == JsonView::Str("function_call"@) && item.at("id"@) == JsonView::Str(key)
                && item.at("call_id"@) == JsonView::Str(id) && item.at("name"@) == JsonView::Str(
                name,
            ) && item.at("arguments"@) == JsonView::Str(s) ==> {
                &&& b.tool_calls.len() == a.tool_calls.len() + 1
                &&& b.tool_calls.drop_last() == a.tool_calls
                &&& b.tool_calls.last().id == id
                &&& b.tool_calls.last().name == name
                &&& b.tool_calls.last().arguments == JsonView::Str(s)
                &&& b.by_item == a.by_item.insert(key, a.tool_calls.len() as usize)
                &&& b.content == a.content && b.reasoning == a.reasoning && b.usage == a.usage
                &&& e matches Some(StreamEventView::ToolCallDelta { index, id: i, name: n, arguments })
                &&& i == id && n == name && arguments.len() == 0
                &&& a.tool_calls.len() <= u32::MAX ==> index == a.tool_calls.len()
            }
        }),
        ({
            let (b, e) = responses_step(a, v);
            let k = a.by_item[key] as int;
            v.at("type"@) == JsonView::Str("response.function_call_arguments.delta"@) && v.at(
                "item_id"@,
            ) == JsonView::Str(key) && v.at("delta"@) == JsonView::Str(s) && s.len() > 0
                && a.by_item.dom().contains(key) && a.tool_calls[k].arguments is Str
                && a.tool_calls[k].id.len() > 0 ==> {
                &&& b.tool_calls.len() == a.tool_calls.len()
                &&& b.tool_calls[k].id == a.tool_calls[k].id
                &&& b.tool_calls[k].name == a.tool_calls[k].name
                &&& b.tool_calls[k].arguments == JsonView::Str(a.tool_calls[k].arguments->Str_0 + s)
                &&& forall|i: int|
                    0 <= i < a.tool_calls.len() && i != k ==> #[trigger] b.tool_calls[i]
                        == a.tool_calls[i]
                &&& b == (ResponsesStreamView { tool_calls: b.tool_calls, ..a })
                &&& e matches Some(StreamEventView::ToolCallDelta { index, id: i, name: n, arguments })
                &&& i == a.tool_calls[k].id && n == a.tool_calls[k].name && arguments == s
                &&& k <= u32::MAX ==> index == k
            }
        }),
{
    words_differ();
    let (b, e) = responses_step(a, v);
    if b.tool_calls.len() > a.tool_calls.len() {
        assert(b.tool_calls.drop_last() =~= a.tool_calls);
    }
}

/// A piece of arguments for an item that is not known begins a call after the others, with
/// the identifier that the payload tells, and notes whose item it is; payloads of other
/// types change nothing.
pub proof fn responses_calls_begin_unannounced(
    a: ResponsesStreamView,
    v: JsonView,
    key: Seq<char>,
    id: Seq<char>,
    s: Seq<char>,
)
    requires
        items_are_known(a),
        a.tool_calls.len() < usize::MAX,
        key.len() > 0,
        s.len() > 0,
        !a.by_item.dom().contains(key),
    ensures
        ({
            let (b, e) = responses_step(a, v);
            v.at("type"@) == JsonView::Str("response.function_call_arguments.delta"@) && v.at(
                "item_id"@,
            ) == JsonView::Str(key) && v.at("call_id"@) == JsonView::Str(id) && v.at("delta"@)
                == JsonView::Str(s) ==> {
                &&& b.tool_calls.len() == a.tool_calls.len() + 1
                &&& b.tool_calls.drop_last() == a.tool_calls
                &&& b.tool_calls.last().id == id
                &&& b.tool_calls.last().arguments == JsonView::Str(s)
                &&& b.by_item == a.by_item.insert(key, a.tool_calls.len() as usize)
                &&& b.content == a.content && b.reasoning == a.reasoning && b.usage == a.usage
                &&& e is Some
            }
        }),
        ({
            let kind = v.at("type"@);
            let (b, e) = responses_step(a, v);
            kind != JsonView::Str("response.output_item.added"@) && kind != JsonView::Str(
                "response.output_text.delta"@,
            ) && kind != JsonView::Str("response.reasoning_text.delta"@) && kind != JsonView::Str(
                "response.reasoning.delta"@,
            ) && kind != JsonView::Str("response.function_call_arguments.delta"@) && kind
                != JsonView::Str("response.function_call_arguments.done"@) && kind
                != JsonView::Str("response.output_item.done"@) && kind != JsonView::Str(
                "response.completed"@,
            ) ==> b == a && e is None
        }),
{
    words_differ();
    reveal_strlit("");
    let (b, e) = responses_step(a, v);
    if b.tool_calls.len() > a.tool_calls.len() {
        assert(b.tool_calls.drop_last() =~= a.tool_calls);
        assert(Seq::<char>::empty() + s =~= s);
    }
}

/// At the end of its arguments the call of a known item has what the payload tells of
/// them, or else what its pieces made, as a tree. At its end an item that is known gives
/// its call what was missing, and one that is not known is a call of its own.
pub proof fn responses_calls_are_finished(
    a: ResponsesStreamView,
    v: JsonView,
    key: Seq<char>,
    id: Seq<char>,
    name: Seq<char>,
    s: Seq<char>,
)
    requires
        items_are_known(a),
        key.len() > 0,
    ensures
        ({
            let (b, e) = responses_step(a, v);
            let k = a.by_item[key] as int;
            v.at("type"@) == JsonView::Str("response.function_call_arguments.done"@) && v.at(
                "item_id"@,
            ) == JsonView::Str(key) && a.by_item.dom().contains(key) ==> {
                &&& e is None
                &&& b.tool_calls.len() == a.tool_calls.len()
                &&& b.tool_calls[k].id == a.tool_calls[k].id
                &&& b.tool_calls[k].name == a.tool_calls[k].name
                &&& v.at("arguments"@) == JsonView::Str(s) ==> are_read(b.tool_calls[k].arguments, s)
                &&& !(v.at("arguments"@) is Str) && a.tool_calls[k].arguments == JsonView::Str(s)
                    ==> are_read(b.tool_calls[k].arguments, s)
                &&& forall|i: int|
                    0 <= i < a.tool_calls.len() && i != k ==> #[trigger] b.tool_calls[i]
                        == a.tool_calls[i]
                &&& b == (ResponsesStreamView { tool_calls: b.tool_calls, ..a })
            }
        }),
        ({
            let item = v.at("item"@);
            let (b, e) = responses_step(a, v);
            let k = a.by_item[key] as int;
            v.at("type"@) == JsonView::Str("response.output_item.done"@) && item.at("type"@)
                == JsonView::Str("function_call"@) && item.at("id"@) == JsonView::Str(key)
                && item.at("call_id"@) == JsonView::Str(id) && item.at("name"@) == JsonView::Str(
                name,
            ) && item.at("arguments"@) == JsonView::Str(s) ==> {
                &&& a.by_item.dom().contains(key) ==> {
                    &&& e is None
                    &&& b.tool_calls.len() == a.tool_calls.len()
                    &&& b.tool_calls[k].id == (if a.tool_calls[k].id.len() > 0 {
                        a.tool_calls[k].id
                    } else {
                        id
                    })
                    &&& b.tool_calls[k].name == (if a.tool_calls[k].name.len() > 0 {
                        a.tool_calls[k].name
                    } else {
                        name
                    })
                    &&& s.len() > 0 ==> are_read(b.tool_calls[k].arguments, s)
                    &&& s.len() == 0 ==> b.tool_calls[k].arguments == a.tool_calls[k].arguments
                    &&& forall|i: int|
                        0 <= i < a.tool_calls.len() && i != k ==> #[trigger] b.tool_calls[i]
                            == a.tool_calls[i]
                }
                &&& !a.by_item.dom().contains(key) ==> {
                    &&& b.tool_calls.len() == a.tool_calls.len() + 1
                    &&& b.tool_calls.drop_last() == a.tool_calls
                    &&& b.tool_calls.last().id == id
                    &&& b.tool_calls.last().name == name
                    &&& are_read(b.tool_calls.last().arguments, s)
                    &&& e matches Some(
                        StreamEventView::ToolCallDelta { index, id: i, name: n, arguments },
                    )
                    &&& i == id && n == name && arguments == s
                    &&& a.tool_calls.len() <= u32::MAX ==> index == a.tool_calls.len()
                }
                &&& b.content == a.content && b.reasoning == a.reasoning && b.usage == a.usage
            }
        }),
{
    words_differ();
    let (b, e) = responses_step(a, v);
    if b.tool_calls.len() > a.tool_calls.len() {
        assert(b.tool_calls.drop_last() =~= a.tool_calls);
    }
}

/// The payload at the end gives the counts, if it tells them, and changes nothing else.
pub proof fn responses_end_is_noted(
    a: ResponsesStreamView,
    v: JsonView,
    prompt: u32,
    completion: u32,
    total: u32,
)
    requires
        v.at("type"@) == JsonView::Str("response.completed"@),
    ensures
        ({
            let usage = v.at("response"@).at("usage"@);
            let (b, e) = responses_step(a, v);
            &&& e is None
            &&& usage.at("input_tokens"@) == int_view(prompt as int) ==> b.usage.prompt_tokens
                == prompt
            &&& usage.at("output_tokens"@) == int_view(completion as int)
                ==> b.usage.completion_tokens == completion
            &&& usage.at("total_tokens"@) == int_view(total as int) ==> b.usage.total_tokens
                == total
            &&& b == (ResponsesStreamView { usage: b.usage, ..a })
        }),
{
    words_differ();
    counts_are_read_back(prompt);
    counts_are_read_back(completion);
    counts_are_read_back(total);
}

// ---------------------------------------------------------------------------
// What payloads of Gemini add
// ---------------------------------------------------------------------------

/// A payload with a function call adds it after the others, under its own identifier or a
/// fresh one; a payload with a text adds it to the text; any other gives the reason for
/// the end and the counts, if it tells them. Nothing else changes.
pub proof fn gemini_payloads_are_added(
    a: GeminiStreamView,
    v: JsonView,
    fresh: Seq<char>,
    s: Seq<char>,
    prompt: u32,
    completion: u32,
    total: u32,
)
    ensures
        ({
            let candidate = v.at("candidates"@).item(0);
            let part = candidate.at("content"@).at("parts"@).item(0);
            let call = part.at("functionCall"@);
            let usage = v.at("usageMetadata"@);
            let named = call.at("name"@) == JsonView::Str(s) && s.len() > 0;
            let (b, e) = gemini_step(a, v, fresh);
            &&& named ==> {
                let c = b.tool_calls.last();
                &&& b == (GeminiStreamView { tool_calls: b.tool_calls, ..a })
                &&& b.tool_calls.len() == a.tool_calls.len() + 1
                &&& b.tool_calls.drop_last() == a.tool_calls
                &&& c.name == s
                &&& c.arguments == call.at("args"@)
                &&& c.id == (match call.at("id"@) {
                    JsonView::Str(id) => if id.len() > 0 {
                        id
                    } else {
                        fresh
                    },
                    _ => fresh,
                })
                &&& e matches Some(StreamEventView::ToolCallDelta { index, id, name, arguments })
                &&& id == c.id && name == s && arguments == json_text(call.at("args"@))
                &&& a.tool_calls.len() <= u32::MAX ==> index == a.tool_calls.len()
            }
            &&& !(call.at("name"@) is Str) && part.at("text"@) == JsonView::Str(s) ==> b == (
            GeminiStreamView { content: a.content + s, ..a }) && says(e, s)
            &&& !(call.at("name"@) is Str) && !(part.at("text"@) is Str) ==> {
                &&& e is None
                &&& candidate.at("finishReason"@) == JsonView::Str(s) ==> b.finish_reason == s
                &&& !(candidate.at("finishReason"@) is Str) ==> b.finish_reason == a.finish_reason
                &&& usage.at("promptTokenCount"@) == int_view(prompt as int)
                    ==> b.usage.prompt_tokens == prompt
                &&& usage.at("candidatesTokenCount"@) == int_view(completion as int)
                    ==> b.usage.completion_tokens == completion
                &&& usage.at("totalTokenCount"@) == int_view(total as int) ==> b.usage.total_tokens
                    == total
                &&& usage is Null ==> b.usage == a.usage
                &&& b.content == a.content && b.tool_calls == a.tool_calls
            }
        }),
{
    counts_are_read_back(prompt);
    counts_are_read_back(completion);
    counts_are_read_back(total);
    let (b, e) = gemini_step(a, v, fresh);
    if b.tool_calls.len() > a.tool_calls.len() {
        assert(b.tool_calls.drop_last() =~= a.tool_calls);
    }
}

// ---------------------------------------------------------------------------
// What payloads say
// ---------------------------------------------------------------------------

/// A payload of Anthropic says its event: a piece of text, of thought, the beginning of a
/// call, a piece of its arguments, or the end with its reason and its count.
pub proof fn anthropic_payload_says_the_event(event: StreamEventView)
    ensures
        ({
            let v = anthropic_payload(event);
            let d = v.at("delta"@);
            match event {
                StreamEventView::Delta(s) => {
                    &&& v.at("type"@) == JsonView::Str("content_block_delta"@)
                    &&& d.at("type"@) == JsonView::Str("text_delta"@)
                    &&& d.at("text"@) == JsonView::Str(s)
                },
                StreamEventView::ThinkingDelta(s) => {
                    &&& v.at("type"@) == JsonView::Str("content_block_delta"@)
                    &&& d.at("type"@) == JsonView::Str("thinking_delta"@)
                    &&& d.at("thinking"@) == JsonView::Str(s)
                },
                StreamEventView::ToolCallDelta { index, id, name, arguments } => {
                    let block = v.at("content_block"@);
                    &&& v.at("index"@) == int_view(index as int)
                    &&& arguments.len() == 0 ==> {
                        &&& v.at("type"@) == JsonView::Str("content_block_start"@)
                        &&& block.at("type"@) == JsonView::Str("tool_use"@)
                        &&& block.at("id"@) == JsonView::Str(id)
                        &&& block.at("name"@) == JsonView::Str(name)
                    }
                    &&& arguments.len() > 0 ==> {
                        &&& v.at("type"@) == JsonView::Str("content_block_delta"@)
                        &&& d.at("type"@) == JsonView::Str("input_json_delta"@)
                        &&& d.at("partial_json"@) == JsonView::Str(arguments)
                    }
                },
                StreamEventView::Done(ir) => {
                    &&& v.at("type"@) == JsonView::Str("message_delta"@)
                    &&& d.at("stop_reason"@) == JsonView::Str(ir.finish_reason)
                    &&& v.at("usage"@).at("output_tokens"@) == int_view(
                        ir.usage.completion_tokens as int,
                    )
                },
            }
        }),
{
    words_differ();
}

/// A chat payload says its event and the model: a piece of text, of thought or of a call
/// at its place, or the end with its reason and its counts.
pub proof fn chat_payload_says_the_event(event: StreamEventView, model: Seq<char>)
    ensures
        ({
            let v = chat_payload(event, model);
            let choice = v.at("choices"@).item(0);
            let d = choice.at("delta"@);
            &&& v.at("object"@) == JsonView::Str("chat.completion.chunk"@)
            &&& v.at("model"@) == JsonView::Str(model)
            &&& count(v.at("choices"@)) == 1
            &&& event is Done || choice.at("finish_reason"@) is Null
            &&& match event {
                StreamEventView::Delta(s) => d.at("content"@) == JsonView::Str(s),
                StreamEventView::ThinkingDelta(s) => d.at("reasoning"@) == JsonView::Str(s),
                StreamEventView::ToolCallDelta { index, id, name, arguments } => {
                    let piece = d.at("tool_calls"@).item(0);
                    &&& count(d.at("tool_calls"@)) == 1
                    &&& piece.at("index"@) == int_view(index as int)
                    &&& piece.at("id"@) == JsonView::Str(id)
                    &&& piece.at("type"@) == JsonView::Str("function"@)
                    &&& piece.at("function"@).at("name"@) == JsonView::Str(name)
                    &&& piece.at("function"@).at("arguments"@) == JsonView::Str(arguments)
                },
                StreamEventView::Done(ir) => {
                    let usage = v.at("usage"@);
                    &&& choice.at("finish_reason"@) == JsonView::Str(ir.finish_reason)
                    &&& usage.at("prompt_tokens"@) == int_view(ir.usage.prompt_tokens as int)
                    &&& usage.at("completion_tokens"@) == int_view(
                        ir.usage.completion_tokens as int,
                    )
                    &&& usage.at("total_tokens"@) == int_view(ir.usage.total_tokens as int)
                },
            }
        }),
{
    words_differ();
}

/// A payload of the responses protocol says its event: a piece of text, of thought, the
/// beginning of a call, a piece of its arguments, or the whole response with its calls,
/// its text and its counts.
pub proof fn responses_payload_says_the_event(
    event: StreamEventView,
    model: Seq<char>,
    fresh: Seq<char>,
)
    ensures
        ({
            let v = responses_payload(event, model, fresh);
            match event {
                StreamEventView::Delta(s) => {
                    &&& v.at("type"@) == JsonView::Str("response.output_text.delta"@)
                    &&& v.at("delta"@) == JsonView::Str(s)
                },
                StreamEventView::ThinkingDelta(s) => {
                    &&& v.at("type"@) == JsonView::Str("response.reasoning_summary_text.delta"@)
                    &&& v.at("delta"@) == JsonView::Str(s)
                },
                StreamEventView::ToolCallDelta { index, id, name, arguments } => {
                    let item = v.at("item"@);
                    &&& v.at("output_index"@) == int_view(index as int)
                    &&& name.len() > 0 && arguments.len() == 0 ==> {
                        &&& v.at("type"@) == JsonView::Str("response.output_item.added"@)
                        &&& item.at("type"@) == JsonView::Str("function_call"@)
                        &&& item.at("id"@) == JsonView::Str(
                            "fc_"@ + text::decimal_of(index as nat),
                        )
                        &&& item.at("status"@) == JsonView::Str("in_progress"@)
                        &&& item.at("call_id"@) == JsonView::Str(id)
                        &&& item.at("name"@) == JsonView::Str(name)
                        &&& item.at("arguments"@) == JsonView::Str(""@)
                    }
                    &&& name.len() == 0 || arguments.len() > 0 ==> {
                        &&& v.at("type"@) == JsonView::Str(
                            "response.function_call_arguments.delta"@,
                        )
                        &&& v.at("item_id"@) == JsonView::Str(
                            "fc_"@ + text::decimal_of(index as nat),
                        )
                        &&& v.at("delta"@) == JsonView::Str(arguments)
                    }
                },
                StreamEventView::Done(ir) => {
                    let r = v.at("response"@);
                    let output = r.at("output"@);
                    let n = ir.tool_calls.len() as int;
                    &&& v.at("type"@) == JsonView::Str("response.completed"@)
                    &&& r.at("id"@) == JsonView::Str(
                        match ir.id {
                            Some(id) => id,
                            None => fresh,
                        },
                    )
                    &&& r.at("object"@) == JsonView::Str("response"@)
                    &&& r.at("status"@) == JsonView::Str(
                        match ir.status {
                            Some(s) => s,
                            None => "completed"@,
                        },
                    )
                    &&& r.at("model"@) == JsonView::Str(model)
                    &&& r.at("usage"@).at("input_tokens"@) == int_view(
                        ir.usage.prompt_tokens as int,
                    )
                    &&& r.at("usage"@).at("output_tokens"@) == int_view(
                        ir.usage.completion_tokens as int,
                    )
                    &&& r.at("usage"@).at("total_tokens"@) == int_view(
                        ir.usage.total_tokens as int,
                    )
                    &&& count(output) == n + 1
                    &&& output.item(n).at("type"@) == JsonView::Str("message"@)
                    &&& output.item(n).at("role"@) == JsonView::Str("assistant"@)
                    &&& output.item(n).at("status"@) == JsonView::Str("completed"@)
                    &&& count(output.item(n).at("content"@)) == 1
                    &&& output.item(n).at("content"@).item(0).at("text"@) == JsonView::Str(
                        ir.content,
                    )
                    &&& forall|i: int|
                        0 <= i < n ==> {
                            let c = #[trigger] output.item(i);
                            &&& c.at("type"@) == JsonView::Str("function_call"@)
                            &&& c.at("status"@) == JsonView::Str("completed"@)
                            &&& c.at("call_id"@) == JsonView::Str(ir.tool_calls[i].id)
                            &&& c.at("name"@) == JsonView::Str(ir.tool_calls[i].name)
                            &&& c.at("arguments"@) == JsonView::Str(
                                json_text(ir.tool_calls[i].arguments),
                            )
                        }
                },
            }
        }),
{
    words_differ();
    match event {
        StreamEventView::Done(ir) => {
            let output = responses_payload(event, model, fresh).at("response"@).at("output"@);
            assert forall|i: int| 0 <= i < ir.tool_calls.len() implies #[trigger] output.item(i)
                == crate::protocol::stream::finished_call()(ir.tool_calls[i]) by {}
        },
        _ => {},
    }
}

/// A payload of Gemini says its event: a piece of text, a call with its identifier, its
/// name and its arguments, or the end with the text, the calls, the reason and the
/// counts; thoughts have no payload.
pub proof fn gemini_payload_says_the_event(event: StreamEventView)
    ensures
        gemini_payload(event) is None <==> event is ThinkingDelta,
        gemini_payload(event) matches Some(v) ==> {
            let candidate = v.at("candidates"@).item(0);
            let parts = candidate.at("content"@).at("parts"@);
            &&& count(v.at("candidates"@)) == 1
            &&& candidate.at("content"@).at("role"@) == JsonView::Str("model"@)
            &&& match event {
                StreamEventView::Delta(s) => count(parts) == 1 && parts.item(0).at("text"@)
                    == JsonView::Str(s),
                StreamEventView::ThinkingDelta(_) => false,
                StreamEventView::ToolCallDelta { id, name, arguments, .. } => {
                    let f = parts.item(0).at("functionCall"@);
                    &&& count(parts) == 1
                    &&& f.at("id"@) == JsonView::Str(id)
                    &&& f.at("name"@) == JsonView::Str(name)
                    &&& f.at("args"@) == (match crate::json::parsed_json(arguments) {
                        Some(tree) => tree,
                        None => JsonView::Str(arguments),
                    })
                },
                StreamEventView::Done(ir) => {
                    let usage = v.at("usageMetadata"@);
                    let lead: int = if ir.content.len() > 0 {
                        1
                    } else {
                        0
                    };
                    &&& candidate.at("finishReason"@) == JsonView::Str(ir.finish_reason)
                    &&& usage.at("promptTokenCount"@) == int_view(ir.usage.prompt_tokens as int)
                    &&& usage.at("candidatesTokenCount"@) == int_view(
                        ir.usage.completion_tokens as int,
                    )
                    &&& usage.at("totalTokenCount"@) == int_view(ir.usage.total_tokens as int)
                    &&& count(parts) == lead + ir.tool_calls.len()
                    &&& ir.content.len() > 0 ==> parts.item(0).at("text"@) == JsonView::Str(
                        ir.content,
                    )
                    &&& forall|i: int|
                        lead <= i < lead + ir.tool_calls.len() ==> {
                            let f = (#[trigger] parts.item(i)).at("functionCall"@);
                            &&& f.at("name"@) == JsonView::Str(ir.tool_calls[i - lead].name)
                            &&& f.at("args"@) == ir.tool_calls[i - lead].arguments
                        }
                },
            }
        },
{
    words_differ();
    match event {
        StreamEventView::Done(ir) => {
            let v = gemini_payload(event)->0;
            let parts = v.at("candidates"@).item(0).at("content"@).at("parts"@);
            let lead: int = if ir.content.len() > 0 {
                1
            } else {
                0
            };
            assert(parts is Array);
            assert forall|i: int|
                lead <= i < lead + ir.tool_calls.len() implies #[trigger] parts.item(i)
                == google_genai::call_part(ir.tool_calls[i - lead], None) by {}
        },
        _ => {},
    }
}

} // verus!
