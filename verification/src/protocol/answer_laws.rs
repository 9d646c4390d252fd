//! What is read of a worker's answer, and what is written of a response, in each
//! protocol: the text, the thoughts, every tool call in its place, the reason for the end
//! and the counts.

use vstd::prelude::*;

use crate::json::{int_view, json_text, parsed_json, JsonView};
use crate::protocol;
use crate::protocol::anthropic_messages;
use crate::protocol::body_laws::count;
use crate::protocol::google_genai;
use crate::protocol::laws::counts_are_read_back;
use crate::protocol::openai_completions;
use crate::protocol::openai_responses;
use crate::protocol::request_laws::{are_read, picked_texts_grow, picks_grow};
use crate::protocol::words::words_differ;
use crate::protocol::{ResponseView, Usd, WorkerResultView};
use crate::seqs;
use crate::text;

verus! {

// ---------------------------------------------------------------------------
// What is read of an answer
// ---------------------------------------------------------------------------

/// Whether a result is a success of a model in a protocol, with what its caller knows of
/// it and the identifier that its body tells.
pub open spec fn is_answer(
    w: WorkerResultView,
    api: Seq<char>,
    model: Seq<char>,
    id: JsonView,
    duration_ms: u64,
    cost_usd: Option<Usd>,
) -> bool {
    &&& w.model == model
    &&& w.api == api
    &&& w.success
    &&& w.error is None
    &&& w.response matches Some(r)
    &&& r.model == model
    &&& r.duration_ms == duration_ms
    &&& r.cost_usd.bits == (match cost_usd {
        Some(c) => c.bits,
        None => 0,
    })
    &&& r.id == (match id {
        JsonView::Str(s) => Some(s),
        _ => None,
    })
    &&& r.metadata == Map::<Seq<char>, JsonView>::empty()
}

/// Whether a count is the one that a body tells, if it tells one.
pub open spec fn is_count(n: u32, v: JsonView) -> bool {
    forall|k: u32| v == #[trigger] int_view(k as int) ==> n == k
}

proof fn count_is_told(v: JsonView)
    ensures
        is_count(protocol::count_of(v), v),
{
    assert forall|k: u32| v == #[trigger] int_view(k as int) implies protocol::count_of(v) == k by {
        counts_are_read_back(k);
    }
}

/// Whether the arguments of a call are those that a text holds: an object, or one that was
/// written into a string once more; else they are empty.
pub open spec fn are_unwrapped(arguments: JsonView, s: Seq<char>) -> bool {
    match parsed_json(s) {
        Some(JsonView::Object(m)) => arguments == JsonView::Object(m),
        Some(JsonView::Str(inner)) => are_read(arguments, inner),
        _ => arguments == JsonView::Object(Map::empty()),
    }
}

/// What is read of a chat completion: the message of the first choice with its text, its
/// thoughts and its calls in order, the reason for the end and the counts.
pub proof fn chat_answer_is_read(
    body: JsonView,
    model: Seq<char>,
    duration_ms: u64,
    cost_usd: Option<Usd>,
)
    ensures
        count(body.at("choices"@)) == 0 <==> openai_completions::first_choice(body) is None,
        openai_completions::first_choice(body) matches Some(choice) ==> {
            let w = openai_completions::worker_result(body, choice, model, duration_ms, cost_usd);
            let r = w.response->0;
            let message = body.at("choices"@).item(0).at("message"@);
            let calls = message.at("tool_calls"@);
            let usage = body.at("usage"@);
            &&& is_answer(w, "openai-completions"@, model, body.at("id"@), duration_ms, cost_usd)
            &&& r.status is None
            &&& r.content == (match message.at("content"@) {
                JsonView::Str(s) => s,
                _ => Seq::empty(),
            })
            &&& r.thinking == (match message.at("reasoning"@) {
                JsonView::Str(s) => if s.len() > 0 {
                    Some(s)
                } else {
                    None
                },
                _ => None,
            })
            &&& r.finish_reason == (match body.at("choices"@).item(0).at("finish_reason"@) {
                JsonView::Str(s) => s,
                _ => "stop"@,
            })
            &&& is_count(r.usage.prompt_tokens, usage.at("prompt_tokens"@))
            &&& is_count(r.usage.completion_tokens, usage.at("completion_tokens"@))
            &&& is_count(r.usage.total_tokens, usage.at("total_tokens"@))
            &&& is_count(
                r.usage.reasoning_tokens,
                usage.at("output_tokens_details"@).at("reasoning_tokens"@),
            )
            &&& r.tool_calls.len() == count(calls)
            &&& forall|i: int|
                0 <= i < count(calls) ==> {
                    let c = #[trigger] r.tool_calls[i];
                    let f = calls.item(i).at("function"@);
                    &&& calls.item(i).at("id"@) is Str ==> JsonView::Str(c.id) == calls.item(i).at(
                        "id"@,
                    )
                    &&& f.at("name"@) is Str ==> JsonView::Str(c.name) == f.at("name"@)
                    &&& f.at("arguments"@) matches JsonView::Str(s) ==> are_unwrapped(
                        c.arguments,
                        s,
                    )
                }
        },
{
    reveal_strlit("");
    assert(""@ =~= Seq::empty());
    let usage = body.at("usage"@);
    count_is_told(usage.at("prompt_tokens"@));
    count_is_told(usage.at("completion_tokens"@));
    count_is_told(usage.at("total_tokens"@));
    count_is_told(usage.at("output_tokens_details"@).at("reasoning_tokens"@));
}

/// What is read of an Anthropic answer but for its blocks: the reason for the end and the
/// counts.
pub proof fn anthropic_answer_is_read(
    body: JsonView,
    model: Seq<char>,
    duration_ms: u64,
    cost_usd: Option<Usd>,
)
    ensures
        ({
            let w = anthropic_messages::worker_result(body, model, duration_ms, cost_usd);
            let r = w.response->0;
            let usage = body.at("usage"@);
            &&& is_answer(w, "anthropic-messages"@, model, body.at("id"@), duration_ms, cost_usd)
            &&& r.status is None
            &&& r.finish_reason == (match body.at("stop_reason"@) {
                JsonView::Str(s) => s,
                _ => "end_turn"@,
            })
            &&& is_count(r.usage.prompt_tokens, usage.at("input_tokens"@))
            &&& is_count(r.usage.completion_tokens, usage.at("output_tokens"@))
            &&& r.usage.total_tokens == 0
            &&& r.usage.reasoning_tokens == 0
            &&& count(body.at("content"@)) == 0 ==> r.content.len() == 0 && r.thinking is None
                && r.tool_calls.len() == 0
        }),
{
    reveal_strlit("");
    count_is_told(body.at("usage"@).at("input_tokens"@));
    count_is_told(body.at("usage"@).at("output_tokens"@));
    let blocks = anthropic_messages::worker_blocks(body);
    if count(body.at("content"@)) == 0 {
        assert(blocks =~= Seq::empty());
    }
}

/// The blocks of an Anthropic answer make the response one after another: a text is added
/// to the text, a thought to the thoughts, and a call comes after the other calls.
pub proof fn anthropic_blocks_make_the_answer(
    few: JsonView,
    more: JsonView,
    blocks: Seq<JsonView>,
    b: JsonView,
    model: Seq<char>,
    duration_ms: u64,
    cost_usd: Option<Usd>,
)
    requires
        few.at("content"@) == JsonView::Array(blocks),
        more.at("content"@) == JsonView::Array(blocks.push(b)),
    ensures
        ({
            let before = anthropic_messages::worker_result(
                few,
                model,
                duration_ms,
                cost_usd,
            ).response->0;
            let after = anthropic_messages::worker_result(
                more,
                model,
                duration_ms,
                cost_usd,
            ).response->0;
            let kind = b.at("type"@);
            &&& after.content == before.content + (match b.at("text"@) {
                JsonView::Str(s) => s,
                _ => Seq::empty(),
            })
            &&& after.thinking == (match b.at("thinking"@) {
                JsonView::Str(s) => if kind == JsonView::Str("thinking"@) {
                    Some(protocol::or_empty(before.thinking) + s)
                } else {
                    before.thinking
                },
                _ => before.thinking,
            })
            &&& kind != JsonView::Str("tool_use"@) ==> after.tool_calls == before.tool_calls
            &&& kind == JsonView::Str("tool_use"@) ==> {
                let c = after.tool_calls.last();
                &&& after.tool_calls.len() == before.tool_calls.len() + 1
                &&& after.tool_calls.drop_last() == before.tool_calls
                &&& b.at("id"@) is Str ==> JsonView::Str(c.id) == b.at("id"@)
                &&& b.at("name"@) is Str ==> JsonView::Str(c.name) == b.at("name"@)
                &&& c.arguments == b.at("input"@)
            }
        }),
{
    reveal_strlit("");
    let texts = anthropic_messages::worker_text();
    let thoughts = anthropic_messages::worker_thought();
    let calls = anthropic_messages::worker_call();
    glued_texts_grow(blocks, b, texts);
    glued_texts_grow(blocks, b, thoughts);
    picks_grow(blocks, b, thoughts);
    picks_grow(blocks, b, calls);
    if calls(b) is Some {
        let all = blocks.filter_map(calls);
        assert(all.push(calls(b)->0).drop_last() =~= all);
    }
}

/// The texts that are picked of one more element are followed by one more at most.
proof fn glued_texts_grow<A>(s: Seq<A>, x: A, f: spec_fn(A) -> Option<Seq<char>>)
    ensures
        text::join_of(s.push(x).filter_map(f), ""@) == text::join_of(s.filter_map(f), ""@) + (
        match f(x) {
            Some(t) => t,
            None => Seq::empty(),
        }),
        s.filter_map(f).len() == 0 ==> text::join_of(s.filter_map(f), ""@) == Seq::<char>::empty(),
{
    reveal_strlit("");
    assert(""@ =~= Seq::empty());
    picks_grow(s, x, f);
    let before = text::join_of(s.filter_map(f), ""@);
    match f(x) {
        Some(t) => {
            let all = s.filter_map(f).push(t);
            assert(all.drop_last() =~= s.filter_map(f));
            assert(before + ""@ + t =~= before + t);
            if s.filter_map(f).len() == 0 {
                assert(before + t =~= t);
            }
        },
        None => {
            assert(before + Seq::empty() =~= before);
        },
    }
}

/// What is read of an answer in the responses protocol but for its items: its status and
/// the counts; it is taken to end by itself.
pub proof fn responses_answer_is_read(
    body: JsonView,
    items: Seq<JsonView>,
    model: Seq<char>,
    duration_ms: u64,
    cost_usd: Option<Usd>,
)
    ensures
        ({
            let w = openai_responses::worker_result(body, items, model, duration_ms, cost_usd);
            let r = w.response->0;
            let usage = body.at("usage"@);
            &&& is_answer(w, "openai-responses"@, model, body.at("id"@), duration_ms, cost_usd)
            &&& r.status == (match body.at("status"@) {
                JsonView::Str(s) => Some(s),
                _ => None,
            })
            &&& r.finish_reason == "stop"@
            &&& is_count(r.usage.prompt_tokens, usage.at("input_tokens"@))
            &&& is_count(r.usage.completion_tokens, usage.at("output_tokens"@))
            &&& is_count(r.usage.total_tokens, usage.at("total_tokens"@))
            &&& r.usage.reasoning_tokens == 0
            &&& items.len() == 0 ==> r.content.len() == 0 && r.thinking is None
                && r.tool_calls.len() == 0
        }),
{
    let usage = body.at("usage"@);
    count_is_told(usage.at("input_tokens"@));
    count_is_told(usage.at("output_tokens"@));
    count_is_told(usage.at("total_tokens"@));
    if items.len() == 0 {
        assert(items =~= Seq::empty());
    }
}

/// The text of the pieces of an item: their texts, one after another.
pub open spec fn pieces_say(v: JsonView, s: Seq<char>) -> bool {
    count(v) == 1 && v.item(0).at("text"@) == JsonView::Str(s)
}

/// The items of an answer in the responses protocol make the response one after another:
/// the text of an item is one more line, a summary of reasoning is added to the thoughts,
/// and a call comes after the other calls.
pub proof fn responses_items_make_the_answer(
    body: JsonView,
    items: Seq<JsonView>,
    item: JsonView,
    s: Seq<char>,
    model: Seq<char>,
    duration_ms: u64,
    cost_usd: Option<Usd>,
)
    ensures
        ({
            let before = openai_responses::worker_result(
                body,
                items,
                model,
                duration_ms,
                cost_usd,
            ).response->0;
            let after = openai_responses::worker_result(
                body,
                items.push(item),
                model,
                duration_ms,
                cost_usd,
            ).response->0;
            let kind = item.at("type"@);
            &&& !(item.at("content"@) is Array) ==> after.content == before.content
            &&& pieces_say(item.at("content"@), s) ==> after.content == (if exists|j: int|
                0 <= j < items.len() && (#[trigger] items[j]).at("content"@) is Array {
                before.content + "\n"@ + s
            } else {
                s
            })
            &&& kind != JsonView::Str("reasoning"@) ==> after.thinking == before.thinking
            &&& kind == JsonView::Str("reasoning"@) && pieces_say(item.at("summary"@), s)
                ==> after.thinking == Some(protocol::or_empty(before.thinking) + s)
            &&& kind != JsonView::Str("function_call"@) ==> after.tool_calls == before.tool_calls
            &&& kind == JsonView::Str("function_call"@) ==> {
                let c = after.tool_calls.last();
                &&& after.tool_calls.len() == before.tool_calls.len() + 1
                &&& after.tool_calls.drop_last() == before.tool_calls
                &&& item.at("call_id"@) is Str ==> JsonView::Str(c.id) == item.at("call_id"@)
                &&& item.at("name"@) is Str ==> JsonView::Str(c.name) == item.at("name"@)
                &&& match item.at("arguments"@) {
                    JsonView::Str(t) => are_read(c.arguments, t),
                    JsonView::Object(m) => c.arguments == JsonView::Object(m),
                    _ => c.arguments == JsonView::Object(Map::empty()),
                }
            }
        }),
{
    reveal_strlit("");
    assert(""@ =~= Seq::empty());
    let texts = openai_responses::item_text();
    let calls = openai_responses::worker_call();
    let piece = openai_responses::piece_text();
    picked_texts_grow(items, item, texts, "\n"@);
    picks_grow(items, item, calls);
    if calls(item) is Some {
        let all = items.filter_map(calls);
        assert(all.push(calls(item)->0).drop_last() =~= all);
    }
    if exists|j: int| 0 <= j < items.len() && (#[trigger] items[j]).at("content"@) is Array {
        let j = choose|j: int| 0 <= j < items.len() && (#[trigger] items[j]).at("content"@) is Array;
        assert(texts(items[j]) is Some);
    }
    if exists|j: int| 0 <= j < items.len() && texts(#[trigger] items[j]) is Some {
        let j = choose|j: int| 0 <= j < items.len() && texts(#[trigger] items[j]) is Some;
        assert(items[j].at("content"@) is Array);
    }
    if pieces_say(item.at("content"@), s) {
        let pieces = item.at("content"@)->Array_0;
        assert(pieces[0].at("text"@) == JsonView::Str(s));
        seqs::picks_all(pieces, piece, seq![s]);
    }
    assert(items.push(item).drop_last() =~= items);
    let thoughts = openai_responses::thoughts_of(items);
    let more = openai_responses::item_thoughts(item);
    assert(openai_responses::thoughts_of(items.push(item)) == thoughts + more);
    if item.at("type"@) == JsonView::Str("reasoning"@) && pieces_say(item.at("summary"@), s) {
        let pieces = item.at("summary"@)->Array_0;
        assert(pieces[0].at("text"@) == JsonView::Str(s));
        seqs::picks_all(pieces, piece, seq![s]);
        let all = thoughts + more;
        assert(all =~= thoughts.push(s));
        assert(all.drop_last() =~= thoughts);
        let before = text::join_of(thoughts, ""@);
        assert(before + ""@ + s =~= before + s);
        if thoughts.len() == 0 {
            assert(Seq::<char>::empty() + s =~= s);
        }
    }
    if item.at("type"@) != JsonView::Str("reasoning"@) {
        assert(thoughts + more =~= thoughts);
    }
}

/// What is read of a Gemini answer but for its parts: the reason for the end and the
/// counts; the first candidate answers.
pub proof fn gemini_answer_is_read(
    body: JsonView,
    model: Seq<char>,
    duration_ms: u64,
    cost_usd: Option<Usd>,
    fresh: Seq<Seq<char>>,
)
    ensures
        count(body.at("candidates"@)) == 0 <==> google_genai::first_candidate(body) is None,
        google_genai::first_candidate(body) matches Some(candidate) ==> {
            let w = google_genai::worker_result(
                body,
                candidate,
                model,
                duration_ms,
                cost_usd,
                fresh,
            );
            let r = w.response->0;
            let usage = body.at("usageMetadata"@);
            &&& candidate == body.at("candidates"@).item(0)
            &&& is_answer(
                w,
                "google-generative-ai"@,
                model,
                body.at("responseId"@),
                duration_ms,
                cost_usd,
            )
            &&& r.status is None
            &&& r.finish_reason == (match candidate.at("finishReason"@) {
                JsonView::Str(s) => s,
                _ => "STOP"@,
            })
            &&& is_count(r.usage.prompt_tokens, usage.at("promptTokenCount"@))
            &&& is_count(r.usage.completion_tokens, usage.at("candidatesTokenCount"@))
            &&& is_count(r.usage.total_tokens, usage.at("totalTokenCount"@))
            &&& r.usage.reasoning_tokens == 0
            &&& count(candidate.at("content"@).at("parts"@)) == 0 ==> r.content.len() == 0
                && r.thinking is None && r.tool_calls.len() == 0
        },
{
    let usage = body.at("usageMetadata"@);
    count_is_told(usage.at("promptTokenCount"@));
    count_is_told(usage.at("candidatesTokenCount"@));
    count_is_told(usage.at("totalTokenCount"@));
    if let Some(candidate) = google_genai::first_candidate(body) {
        let parts = google_genai::candidate_parts(candidate);
        if count(candidate.at("content"@).at("parts"@)) == 0 {
            assert(parts =~= Seq::empty());
        }
    }
}

/// The parts of a Gemini answer make the response one after another: a text is added to
/// the text, and to the thoughts if it is one, and a function call comes after the other
/// calls, under its own identifier or a fresh one.
pub proof fn gemini_parts_make_the_answer(
    body: JsonView,
    few: JsonView,
    more: JsonView,
    parts: Seq<JsonView>,
    p: JsonView,
    model: Seq<char>,
    duration_ms: u64,
    cost_usd: Option<Usd>,
    fresh: Seq<Seq<char>>,
)
    requires
        few.at("content"@).at("parts"@) == JsonView::Array(parts),
        more.at("content"@).at("parts"@) == JsonView::Array(parts.push(p)),
    ensures
        ({
            let before = google_genai::worker_result(
                body,
                few,
                model,
                duration_ms,
                cost_usd,
                fresh,
            ).response->0;
            let after = google_genai::worker_result(
                body,
                more,
                model,
                duration_ms,
                cost_usd,
                fresh,
            ).response->0;
            let said = match p.at("text"@) {
                JsonView::Str(s) => s,
                _ => Seq::empty(),
            };
            &&& after.content == before.content + said
            &&& after.thinking == (if p.at("thought"@) == JsonView::Bool(true) && p.at("text"@)
                is Str {
                Some(protocol::or_empty(before.thinking) + said)
            } else {
                before.thinking
            })
            &&& p.get("functionCall"@) is None ==> after.tool_calls == before.tool_calls
            &&& p.get("functionCall"@) matches Some(call) ==> {
                let c = after.tool_calls.last();
                &&& after.tool_calls.len() == before.tool_calls.len() + 1
                &&& after.tool_calls.drop_last() == before.tool_calls
                &&& c.arguments == call.at("args"@)
                &&& call.at("name"@) is Str ==> JsonView::Str(c.name) == call.at("name"@)
                &&& c.id == (match call.at("id"@) {
                    JsonView::Str(id) => if id.len() > 0 {
                        id
                    } else {
                        fresh[parts.len() as int]
                    },
                    _ => fresh[parts.len() as int],
                })
            }
        }),
{
    reveal_strlit("");
    let texts = google_genai::worker_text();
    let thoughts = google_genai::worker_thought();
    glued_texts_grow(parts, p, texts);
    glued_texts_grow(parts, p, thoughts);
    picks_grow(parts, p, thoughts);
    assert(parts.push(p).drop_last() =~= parts);
    let calls = google_genai::worker_calls(parts, fresh);
    if let Some(call) = p.get("functionCall"@) {
        assert(google_genai::worker_calls(parts.push(p), fresh).drop_last() =~= calls);
    }
}

/// The field of a body that the common form does not stand for stays with the response,
/// under the name of its protocol.
pub proof fn answers_keep_other_fields(
    body: Map<Seq<char>, JsonView>,
    name: Seq<char>,
    known: Seq<Seq<char>>,
    protocol_name: Seq<char>,
)
    requires
        body.dom().contains(name),
    ensures
        ({
            let native = protocol::native_of_body(protocol_name, JsonView::Object(body), known);
            JsonView::Object(native).at(protocol_name).get(name) == (if known.contains(name) {
                None
            } else {
                Some(body[name])
            })
        }),
{
    let rest = body.remove_keys(known.to_set());
    assert(rest.dom().contains(name) <==> !known.contains(name));
    if rest == Map::<Seq<char>, JsonView>::empty() {
        assert(!rest.dom().contains(name));
    }
}

/// Whether a field of a body stays with a response under a name.
pub open spec fn stays(w: WorkerResultView, under: Seq<char>, name: Seq<char>, v: JsonView) -> bool {
    JsonView::Object(w.response->0.native).at(under).get(name) == Some(v)
}

/// In each protocol the fields of an answer that nothing else is read of stay with the
/// response.
pub proof fn answers_lose_no_field(
    body: Map<Seq<char>, JsonView>,
    part: JsonView,
    items: Seq<JsonView>,
    name: Seq<char>,
    model: Seq<char>,
    duration_ms: u64,
    cost_usd: Option<Usd>,
    fresh: Seq<Seq<char>>,
)
    requires
        body.dom().contains(name),
    ensures
        ({
            let v = JsonView::Object(body);
            let w = openai_completions::worker_result(v, part, model, duration_ms, cost_usd);
            !(name == "id"@ || name == "object"@ || name == "created"@ || name == "model"@ || name
                == "choices"@ || name == "usage"@) ==> stays(
                w,
                "openai-completions"@,
                name,
                body[name],
            )
        }),
        ({
            let v = JsonView::Object(body);
            let w = openai_responses::worker_result(v, items, model, duration_ms, cost_usd);
            !(name == "id"@ || name == "object"@ || name == "created_at"@ || name == "model"@
                || name == "status"@ || name == "output"@ || name == "usage"@) ==> stays(
                w,
                "openai-responses"@,
                name,
                body[name],
            )
        }),
        ({
            let v = JsonView::Object(body);
            let w = anthropic_messages::worker_result(v, model, duration_ms, cost_usd);
            !(name == "id"@ || name == "type"@ || name == "role"@ || name == "model"@ || name
                == "content"@ || name == "stop_reason"@ || name == "stop_sequence"@ || name
                == "usage"@) ==> stays(w, "anthropic-messages"@, name, body[name])
        }),
        ({
            let v = JsonView::Object(body);
            let w = google_genai::worker_result(v, part, model, duration_ms, cost_usd, fresh);
            !(name == "responseId"@ || name == "candidates"@ || name == "usageMetadata"@ || name
                == "modelVersion"@) ==> stays(w, "google-genai"@, name, body[name])
        }),
{
    answers_keep_other_fields(
        body,
        name,
        openai_completions::known_fields(),
        "openai-completions"@,
    );
    answers_keep_other_fields(body, name, openai_responses::known_fields(), "openai-responses"@);
    answers_keep_other_fields(
        body,
        name,
        anthropic_messages::known_fields(),
        "anthropic-messages"@,
    );
    answers_keep_other_fields(body, name, google_genai::known_fields(), "google-genai"@);
}

// ---------------------------------------------------------------------------
// What is written of a response
// ---------------------------------------------------------------------------

/// A chat completion holds the response: one message of the assistant with its text, or
/// null for none, its thoughts and its calls in order, the reason for the end and the
/// counts.
pub proof fn chat_response_is_written(
    ir: ResponseView,
    model: Seq<char>,
    id: Seq<char>,
    created: i64,
)
    ensures
        ({
            let v = openai_completions::response_json(
                openai_completions::response_out(ir, model, id, created),
            );
            let choice = v.at("choices"@).item(0);
            let message = choice.at("message"@);
            let calls = message.at("tool_calls"@);
            let usage = v.at("usage"@);
            &&& v.at("id"@) == JsonView::Str(id)
            &&& v.at("object"@) == JsonView::Str("chat.completion"@)
            &&& v.at("created"@) == int_view(created as int)
            &&& v.at("model"@) == JsonView::Str(model)
            &&& count(v.at("choices"@)) == 1
            &&& choice.at("index"@) == int_view(0)
            &&& message.at("role"@) == JsonView::Str("assistant"@)
            &&& message.get("content"@) == Some(
                if ir.content.len() > 0 {
                    JsonView::Str(ir.content)
                } else {
                    JsonView::Null
                },
            )
            &&& message.get("reasoning"@) == (match ir.thinking {
                Some(s) => Some(JsonView::Str(s)),
                None => None,
            })
            &&& choice.at("finish_reason"@) == JsonView::Str(ir.finish_reason)
            &&& usage.at("prompt_tokens"@) == int_view(ir.usage.prompt_tokens as int)
            &&& usage.at("completion_tokens"@) == int_view(ir.usage.completion_tokens as int)
            &&& usage.at("total_tokens"@) == int_view(ir.usage.total_tokens as int)
            &&& message.get("tool_calls"@) is Some <==> ir.tool_calls.len() > 0
            &&& count(calls) == ir.tool_calls.len()
            &&& forall|i: int|
                0 <= i < ir.tool_calls.len() ==> {
                    let c = #[trigger] calls.item(i);
                    &&& c.at("id"@) == JsonView::Str(ir.tool_calls[i].id)
                    &&& c.at("type"@) == JsonView::Str("function"@)
                    &&& c.at("function"@).at("name"@) == JsonView::Str(ir.tool_calls[i].name)
                    &&& c.at("function"@).at("arguments"@) == JsonView::Str(
                        json_text(ir.tool_calls[i].arguments),
                    )
                }
        }),
{
    words_differ();
    let out = openai_completions::response_out(ir, model, id, created);
    let v = openai_completions::response_json(out);
    let shown = out.choices[0];
    assert(v.at("choices"@).item(0) == openai_completions::choice_json()(shown));
    let calls = v.at("choices"@).item(0).at("message"@).at("tool_calls"@);
    if ir.tool_calls.len() > 0 {
        assert forall|i: int| 0 <= i < ir.tool_calls.len() implies #[trigger] calls.item(i)
            == openai_completions::out_call_json()(
            openai_completions::call_out()(ir.tool_calls[i]),
        ) by {}
    }
}

/// An Anthropic message holds the response: its thoughts and its text as blocks, if there
/// are any, then its calls in order, the reason for the end and the counts.
pub proof fn anthropic_response_is_written(ir: ResponseView, model: Seq<char>, id: Seq<char>)
    ensures
        ({
            let v = anthropic_messages::response_json(
                anthropic_messages::response_out(ir, model, id),
            );
            let blocks = v.at("content"@);
            let thoughts: int = if ir.thinking is Some && ir.thinking->0.len() > 0 {
                1
            } else {
                0
            };
            let lead: int = thoughts + if ir.content.len() > 0 {
                1int
            } else {
                0
            };
            &&& v.at("id"@) == JsonView::Str(id)
            &&& v.at("type"@) == JsonView::Str("message"@)
            &&& v.at("role"@) == JsonView::Str("assistant"@)
            &&& v.at("model"@) == JsonView::Str(model)
            &&& v.at("stop_reason"@) == JsonView::Str(
                if ir.tool_calls.len() > 0 {
                    "tool_use"@
                } else {
                    ir.finish_reason
                },
            )
            &&& v.at("usage"@).at("input_tokens"@) == int_view(ir.usage.prompt_tokens as int)
            &&& v.at("usage"@).at("output_tokens"@) == int_view(ir.usage.completion_tokens as int)
            &&& count(blocks) == lead + ir.tool_calls.len()
            &&& thoughts == 1 ==> blocks.item(0).at("type"@) == JsonView::Str("thinking"@)
                && blocks.item(0).at("thinking"@) == JsonView::Str(ir.thinking->0)
            &&& ir.content.len() > 0 ==> blocks.item(thoughts).at("type"@) == JsonView::Str(
                "text"@,
            ) && blocks.item(thoughts).at("text"@) == JsonView::Str(ir.content)
            &&& forall|i: int|
                lead <= i < lead + ir.tool_calls.len() ==> {
                    let b = #[trigger] blocks.item(i);
                    let c = ir.tool_calls[i - lead];
                    &&& b.at("type"@) == JsonView::Str("tool_use"@)
                    &&& b.at("id"@) == JsonView::Str(c.id)
                    &&& b.at("name"@) == JsonView::Str(c.name)
                    &&& match c.arguments {
                        JsonView::Object(m) => b.at("input"@) == JsonView::Object(m),
                        JsonView::Str(s) => are_read(b.at("input"@), s),
                        _ => b.at("input"@) == JsonView::Object(Map::empty()),
                    }
                }
        }),
{
    words_differ();
    let out = anthropic_messages::response_out(ir, model, id);
    let v = anthropic_messages::response_json(out);
    let json = anthropic_messages::out_block_json();
    let blocks = v.at("content"@);
    let lead = anthropic_messages::leading_blocks(ir).len() as int;
    assert forall|i: int| 0 <= i < out.content.len() implies #[trigger] blocks.item(i) == json(
        out.content[i],
    ) by {}
    assert forall|i: int| lead <= i < lead + ir.tool_calls.len() implies #[trigger] blocks.item(i)
        == json(anthropic_messages::call_out()(ir.tool_calls[i - lead])) by {
        assert(out.content[i] == anthropic_messages::call_out()(ir.tool_calls[i - lead]));
    }
}

/// A response in the responses protocol holds the response: an item for the thoughts, if
/// there are any, one for each call in order, and one for the text, and the counts.
pub proof fn responses_response_is_written(
    ir: ResponseView,
    model: Seq<char>,
    ids: openai_responses::OutputIdsView,
    created_at: i64,
)
    requires
        ids.calls.len() == ir.tool_calls.len(),
    ensures
        ({
            let v = openai_responses::response_json(
                openai_responses::response_out(ir, model, ids, created_at),
            );
            let output = v.at("output"@);
            let thoughts: int = if ir.thinking is Some && ir.thinking->0.len() > 0 {
                1
            } else {
                0
            };
            let n = thoughts + ir.tool_calls.len();
            let usage = v.at("usage"@);
            &&& v.at("id"@) == JsonView::Str(ids.response)
            &&& v.at("object"@) == JsonView::Str("response"@)
            &&& v.at("created_at"@) == int_view(created_at as int)
            &&& v.at("model"@) == JsonView::Str(model)
            &&& v.at("status"@) == JsonView::Str("completed"@)
            &&& usage.at("input_tokens"@) == int_view(ir.usage.prompt_tokens as int)
            &&& usage.at("output_tokens"@) == int_view(ir.usage.completion_tokens as int)
            &&& usage.at("total_tokens"@) == int_view(ir.usage.total_tokens as int)
            &&& count(output) == n + 1
            &&& thoughts == 1 ==> {
                &&& output.item(0).at("id"@) == JsonView::Str(ids.reasoning)
                &&& output.item(0).at("type"@) == JsonView::Str("reasoning"@)
                &&& output.item(0).at("status"@) == JsonView::Str("completed"@)
                &&& pieces_say(output.item(0).at("content"@), ir.thinking->0)
            }
            &&& forall|i: int|
                thoughts <= i < n ==> {
                    let item = #[trigger] output.item(i);
                    let c = ir.tool_calls[i - thoughts];
                    &&& item.at("id"@) == JsonView::Str(ids.calls[i - thoughts])
                    &&& item.at("type"@) == JsonView::Str("function_call"@)
                    &&& item.at("status"@) == JsonView::Str("completed"@)
                    &&& item.at("call_id"@) == JsonView::Str(c.id)
                    &&& item.at("name"@) == JsonView::Str(c.name)
                    &&& item.at("arguments"@) == JsonView::Str(json_text(c.arguments))
                }
            &&& output.item(n).at("id"@) == JsonView::Str(ids.message)
            &&& output.item(n).at("type"@) == JsonView::Str("message"@)
            &&& output.item(n).at("status"@) == JsonView::Str("completed"@)
            &&& output.item(n).at("role"@) == JsonView::Str("assistant"@)
            &&& pieces_say(output.item(n).at("content"@), ir.content)
        }),
{
    words_differ();
    let out = openai_responses::response_out(ir, model, ids, created_at);
    let v = openai_responses::response_json(out);
    let json = openai_responses::out_item_json();
    let piece = openai_responses::out_content_json();
    let output = v.at("output"@);
    let thoughts: int = if ir.thinking is Some && ir.thinking->0.len() > 0 {
        1
    } else {
        0
    };
    let n = thoughts + ir.tool_calls.len();
    assert forall|i: int| 0 <= i < out.output.len() implies #[trigger] output.item(i) == json(
        out.output[i],
    ) by {}
    assert forall|i: int| thoughts <= i < n implies #[trigger] output.item(i) == json(
        openai_responses::call_item(ids.calls[i - thoughts], ir.tool_calls[i - thoughts]),
    ) by {
        assert(out.output[i] == openai_responses::call_item(
            ids.calls[i - thoughts],
            ir.tool_calls[i - thoughts],
        ));
    }
    let last = out.output[n];
    assert(output.item(n).at("content"@).item(0) == piece(last.content[0]));
    if thoughts == 1 {
        let first = out.output[0];
        assert(output.item(0).at("content"@).item(0) == piece(first.content[0]));
    }
}

/// A Gemini answer holds the response: one candidate of the model with its thoughts and
/// its text as parts, if there are any, then its calls in order, the reason for the end
/// and the counts.
pub proof fn gemini_response_is_written(ir: ResponseView)
    ensures
        ({
            let v = google_genai::response_out(ir);
            let candidate = v.at("candidates"@).item(0);
            let parts = candidate.at("content"@).at("parts"@);
            let usage = v.at("usageMetadata"@);
            let thoughts: int = if ir.thinking is Some && ir.thinking->0.len() > 0 {
                1
            } else {
                0
            };
            let lead: int = thoughts + if ir.content.len() > 0 {
                1int
            } else {
                0
            };
            &&& count(v.at("candidates"@)) == 1
            &&& candidate.at("content"@).at("role"@) == JsonView::Str("model"@)
            &&& candidate.at("finishReason"@) == JsonView::Str(ir.finish_reason)
            &&& usage.at("promptTokenCount"@) == int_view(ir.usage.prompt_tokens as int)
            &&& usage.at("candidatesTokenCount"@) == int_view(ir.usage.completion_tokens as int)
            &&& usage.at("totalTokenCount"@) == int_view(ir.usage.total_tokens as int)
            &&& count(parts) == lead + ir.tool_calls.len()
            &&& thoughts == 1 ==> parts.item(0).at("text"@) == JsonView::Str(ir.thinking->0)
                && parts.item(0).at("thought"@) == JsonView::Bool(true)
            &&& ir.content.len() > 0 ==> parts.item(thoughts).at("text"@) == JsonView::Str(
                ir.content,
            ) && parts.item(thoughts).get("thought"@) is None
            &&& forall|i: int|
                lead <= i < lead + ir.tool_calls.len() ==> {
                    let f = (#[trigger] parts.item(i)).at("functionCall"@);
                    let c = ir.tool_calls[i - lead];
                    &&& f.at("name"@) == JsonView::Str(c.name)
                    &&& f.at("args"@) == c.arguments
                    &&& f.at("id"@).as_str() == (if c.id.len() > 0 && !google_genai::is_synthesized(
                        c.id,
                    ) {
                        Some(c.id)
                    } else {
                        None
                    })
                }
        }),
{
    words_differ();
    let v = google_genai::response_out(ir);
    let parts = v.at("candidates"@).item(0).at("content"@).at("parts"@);
    let all = google_genai::leading_parts(ir) + ir.tool_calls.map_values(google_genai::call_out());
    let lead = google_genai::leading_parts(ir).len() as int;
    assert(parts == JsonView::Array(all));
    assert forall|i: int| lead <= i < lead + ir.tool_calls.len() implies #[trigger] parts.item(i)
        == google_genai::call_part(ir.tool_calls[i - lead], None) by {}
}

} // verus!
