//! What holds of Gemini's protocol: tool calls, tool results and thinking settings stay
//! with a conversation, kept turns are shown to Gemini again, and an identifier that was
//! made up here is never sent.

use vstd::prelude::*;

use crate::json::{int_view, JsonView};
use crate::protocol;
use crate::protocol::gemini_shadow::TurnView;
use crate::protocol::google_genai;
use crate::protocol::laws::{counts_are_read_back, makes_call};
use crate::protocol::words::words_differ;
use crate::protocol::{
    MessageView, RequestView, ResponseView, ThinkingConfig, ThinkingEffort, ToolCallView, Usd,
};
use crate::seqs;
use crate::text;

verus! {

// ---------------------------------------------------------------------------
// Bodies
// ---------------------------------------------------------------------------

proof fn gemini_body_members(ir: RequestView, model: Seq<char>, turns: Seq<TurnView>)
    ensures
        google_genai::worker_body(ir, model, turns).at("contents"@) == JsonView::Array(
            google_genai::body_of(ir.messages, turns).contents,
        ),
        google_genai::worker_body(ir, model, turns).at("generationConfig"@)
            == google_genai::body_config(ir, model),
        ir.tools.len() > 0 ==> google_genai::worker_body(ir, model, turns).at("tools"@)
            == google_genai::body_tools(ir.tools)->0,
        ir.stream ==> google_genai::worker_body(ir, model, turns).at("stream"@)
            == JsonView::Bool(true),
{
    words_differ();
    let b = google_genai::body_members(ir, model, turns);
    let k = protocol::NATIVE_GEMINI@;
    protocol::native_fields_do_not_override(b, ir.native, k, "contents"@);
    protocol::native_fields_do_not_override(b, ir.native, k, "generationConfig"@);
    if ir.tools.len() > 0 {
        protocol::native_fields_do_not_override(b, ir.native, k, "tools"@);
    }
    if ir.stream {
        protocol::native_fields_do_not_override(b, ir.native, k, "stream"@);
    }
}

/// The contents after the first messages stay as they are when messages follow.
proof fn gemini_contents_stay(messages: Seq<MessageView>, turns: Seq<TurnView>, n: int, k: int)
    requires
        0 <= n <= messages.len(),
        0 <= k < google_genai::body_of(messages.take(n), turns).contents.len(),
    ensures
        k < google_genai::body_of(messages, turns).contents.len(),
        google_genai::body_of(messages, turns).contents[k] == google_genai::body_of(
            messages.take(n),
            turns,
        ).contents[k],
    decreases messages.len() - n,
{
    if n == messages.len() {
        assert(messages.take(n) =~= messages);
    } else {
        assert(messages.drop_last().take(n) =~= messages.take(n));
        gemini_contents_stay(messages.drop_last(), turns, n, k);
    }
}

/// A Gemini body holds every tool call of an assistant as a part of a content of the
/// model, with its name and its arguments, and with its identifier if it was not made
/// up here; a kept turn that makes the calls is sent in its place.
pub proof fn gemini_body_keeps_tool_calls(
    ir: RequestView,
    model: Seq<char>,
    turns: Seq<TurnView>,
    i: int,
    j: int,
)
    requires
        0 <= i < ir.messages.len(),
        ir.messages[i].role is Assistant,
        0 <= j < ir.messages[i].tool_calls.len(),
        google_genai::kept_parts(ir.messages[i], turns) is None,
    ensures
        exists|k: int, p: int|
            0 <= k && 0 <= p && (#[trigger] google_genai::worker_body(ir, model, turns).at(
                "contents"@,
            ).item(k).at("parts"@).item(p)) == google_genai::call_part(
                ir.messages[i].tool_calls[j],
                google_genai::signature_of(
                    google_genai::signatures_of_turns(turns),
                    ir.messages[i].tool_calls[j].id,
                ),
            ),
{
    words_differ();
    gemini_body_members(ir, model, turns);
    let m = ir.messages[i];
    let signatures = google_genai::signatures_of_turns(turns);
    let before = google_genai::body_of(ir.messages.take(i), turns);
    let after = google_genai::body_of(ir.messages.take(i + 1), turns);
    seqs::take_step(ir.messages, i);
    let k = before.contents.len() as int;
    gemini_contents_stay(ir.messages, turns, i + 1, k);
    let content = google_genai::role_and_parts("model"@, google_genai::own_parts(m, signatures));
    assert(after.contents[k] == content);
    let p = (google_genai::own_parts(m, signatures).len() - m.tool_calls.len() + j) as int;
    assert(google_genai::own_parts(m, signatures)[p] == google_genai::call_part(
        m.tool_calls[j],
        google_genai::signature_of(signatures, m.tool_calls[j].id),
    ));
    assert(google_genai::worker_body(ir, model, turns).at("contents"@).item(k) == content);
    assert(google_genai::worker_body(ir, model, turns).at("contents"@).item(k).at("parts"@).item(p)
        == google_genai::call_part(
        m.tool_calls[j],
        google_genai::signature_of(signatures, m.tool_calls[j].id),
    ));
}

/// A Gemini body holds every tool result as the part of a content of the user.
pub proof fn gemini_body_keeps_tool_results(
    ir: RequestView,
    model: Seq<char>,
    turns: Seq<TurnView>,
    i: int,
)
    requires
        0 <= i < ir.messages.len(),
        ir.messages[i].role is Tool,
    ensures
        exists|k: int|
            0 <= k && (#[trigger] google_genai::worker_body(ir, model, turns).at(
                "contents"@,
            ).item(k)).at("parts"@).item(0).at("functionResponse"@).at("response"@).at("content"@)
                == JsonView::Str(ir.messages[i].content),
{
    words_differ();
    gemini_body_members(ir, model, turns);
    let m = ir.messages[i];
    let before = google_genai::body_of(ir.messages.take(i), turns);
    let after = google_genai::body_of(ir.messages.take(i + 1), turns);
    seqs::take_step(ir.messages, i);
    let k = before.contents.len() as int;
    gemini_contents_stay(ir.messages, turns, i + 1, k);
    gemini_result_has_no_made_up_id(m, before.names);
    let content = google_genai::role_and_parts(
        "user"@,
        seq![google_genai::body_result(m, before.names)],
    );
    assert(after.contents[k] == content);
    assert(google_genai::worker_body(ir, model, turns).at("contents"@).item(k) == content);
    assert(content.at("parts"@).item(0) == google_genai::body_result(m, before.names));
}

/// What a function call part shows: the name, the arguments, and the identifier if it is
/// there and was not made up here.
pub proof fn gemini_call_part_shows_the_call(c: ToolCallView, signature: Option<Seq<char>>)
    ensures
        google_genai::call_part(c, signature).at("functionCall"@).at("name"@) == JsonView::Str(
            c.name,
        ),
        google_genai::call_part(c, signature).at("functionCall"@).at("args"@) == c.arguments,
        google_genai::call_part(c, signature).at("functionCall"@).at("id"@).as_str() == (
        if c.id.len() > 0 && !google_genai::is_synthesized(c.id) {
            Some(c.id)
        } else {
            None
        }),
{
    words_differ();
}

/// A Gemini body declares every tool in its place.
pub proof fn gemini_body_keeps_tools(ir: RequestView, model: Seq<char>, turns: Seq<TurnView>, i: int)
    requires
        0 <= i < ir.tools.len(),
    ensures
        google_genai::worker_body(ir, model, turns).at("tools"@).item(0).at(
            "functionDeclarations"@,
        ).item(i).at("name"@) == JsonView::Str(ir.tools[i].name),
{
    words_differ();
    gemini_body_members(ir, model, turns);
}

/// A Gemini body asks for thinking as the request does: thoughts unless thinking is off,
/// and the level or the budget of the request, as the model wants it.
pub proof fn gemini_body_keeps_thinking(ir: RequestView, model: Seq<char>, turns: Seq<TurnView>)
    requires
        ir.thinking is Some,
    ensures
        ({
            let t = ir.thinking->0;
            let config = google_genai::worker_body(ir, model, turns).at("generationConfig"@).at(
                "thinkingConfig"@,
            );
            &&& config.at("includeThoughts"@) == JsonView::Bool(!(t.effort is Disabled))
            &&& google_genai::uses_level(model) ==> config.at("thinkingLevel"@) == JsonView::Str(
                google_genai::level_of(t.effort),
            ) && config.get("thinkingBudget"@) is None
            &&& !google_genai::uses_level(model) && !(t.effort is Disabled)
                && t.budget_tokens is Some ==> config.at("thinkingBudget"@) == int_view(
                t.budget_tokens->0 as int,
            )
        }),
{
    words_differ();
    gemini_body_members(ir, model, turns);
}

/// The level of thinking that a Gemini body asks for is read back as the effort that is
/// nearest to it: low, medium or high.
pub proof fn gemini_levels_are_read_back(effort: ThinkingEffort, budget: Option<i32>)
    ensures
        google_genai::effort_in(
            google_genai::ThinkingConfigView {
                include_thoughts: Some(!(effort is Disabled)),
                thinking_budget: budget,
                thinking_level: Some(google_genai::level_of(effort)),
            },
        ) == (match effort {
            ThinkingEffort::Disabled => ThinkingEffort::Low,
            ThinkingEffort::Low => ThinkingEffort::Low,
            ThinkingEffort::Medium => ThinkingEffort::Medium,
            ThinkingEffort::Adaptive => ThinkingEffort::Medium,
            ThinkingEffort::High => ThinkingEffort::High,
            ThinkingEffort::Max => ThinkingEffort::High,
        }),
{
    words_differ();
}

/// The budget for thinking that a Gemini body asks for is read back: a budget of nothing
/// turns thinking off, any more is a high effort, and one below zero leaves the effort to
/// the model.
pub proof fn gemini_budgets_are_read_back(t: ThinkingConfig)
    ensures
        google_genai::effort_in(
            google_genai::ThinkingConfigView {
                include_thoughts: Some(!(t.effort is Disabled)),
                thinking_budget: if t.effort is Disabled {
                    Some(0i32)
                } else {
                    Some(
                        match t.budget_tokens {
                            Some(n) => n,
                            None => -1i32,
                        },
                    )
                },
                thinking_level: None,
            },
        ) == (match t.budget_tokens {
            _ if t.effort is Disabled => ThinkingEffort::Disabled,
            Some(n) => if n == 0 {
                ThinkingEffort::Disabled
            } else if n > 0 {
                ThinkingEffort::High
            } else {
                ThinkingEffort::Adaptive
            },
            None => ThinkingEffort::Adaptive,
        }),
{
}

/// Whether the function call of a part, if it has one, has no made-up identifier.
pub open spec fn has_known_id(part: JsonView) -> bool {
    part.at("functionCall"@).at("id"@).as_str() matches Some(id)
        ==> !google_genai::is_synthesized(id)
}

/// Whether the function calls of a content have no made-up identifiers.
pub open spec fn has_known_ids(content: JsonView) -> bool {
    forall|p: int| 0 <= p ==> has_known_id(#[trigger] content.at("parts"@).item(p))
}

proof fn gemini_contents_have_known_ids(messages: Seq<MessageView>, turns: Seq<TurnView>)
    ensures
        forall|k: int|
            0 <= k < google_genai::body_of(messages, turns).contents.len() ==> has_known_ids(
                #[trigger] google_genai::body_of(messages, turns).contents[k],
            ),
    decreases messages.len(),
{
    if messages.len() > 0 {
        words_differ();
        let before = google_genai::body_of(messages.drop_last(), turns);
        let m = messages.last();
        let signatures = google_genai::signatures_of_turns(turns);
        gemini_contents_have_known_ids(messages.drop_last(), turns);
        let after = google_genai::body_of(messages, turns);
        assert forall|k: int| 0 <= k < after.contents.len() implies has_known_ids(
            #[trigger] after.contents[k],
        ) by {
            if k < before.contents.len() {
                assert(after.contents[k] == before.contents[k]);
            } else {
                let content = after.contents[k];
                assert forall|p: int| 0 <= p implies has_known_id(
                    #[trigger] content.at("parts"@).item(p),
                ) by {
                    let part = content.at("parts"@).item(p);
                    if m.role is Assistant && m.tool_calls.len() > 0 {
                        match google_genai::matching_turn(m, turns) {
                            Some(turn) => {
                                gemini_replayed_parts_have_known_ids(turn.assistant_content, p);
                            },
                            None => {},
                        }
                        gemini_own_parts_have_known_ids(m, signatures, p);
                    }
                }
            }
        }
    }
}

proof fn gemini_own_parts_have_known_ids(
    m: MessageView,
    signatures: Map<Seq<char>, Seq<char>>,
    p: int,
)
    ensures
        0 <= p < google_genai::own_parts(m, signatures).len() ==> has_known_id(
            google_genai::own_parts(m, signatures)[p],
        ),
{
    words_differ();
    let parts = google_genai::own_parts(m, signatures);
    if 0 <= p < parts.len() {
        let offset = parts.len() - m.tool_calls.len();
        if p >= offset {
            let c = m.tool_calls[p - offset];
            gemini_call_part_shows_the_call(c, google_genai::signature_of(signatures, c.id));
            assert(parts[p] == google_genai::call_part(
                c,
                google_genai::signature_of(signatures, c.id),
            ));
        } else {
            assert(parts[p] == google_genai::text_part(m.content));
        }
    }
}

proof fn gemini_replayed_parts_have_known_ids(content: JsonView, p: int)
    ensures
        google_genai::replayed_parts(content) is Some && 0 <= p
            < google_genai::replayed_parts(content)->0.len() ==> has_known_id(
            google_genai::replayed_parts(content)->0[p],
        ),
{
    words_differ();
    if let Some(parts) = google_genai::replayed_parts(content) {
        if 0 <= p < parts.len() {
            let kept = match content.at("parts"@).as_array() {
                Some(kept) => kept,
                None => content.as_array()->0,
            };
            assert(parts[p] == google_genai::replayed_part()(kept[p]));
        }
    }
}

/// Gemini is never sent the identifier of a function call that was made up here,
/// whatever was kept of the session.
pub proof fn gemini_body_has_no_made_up_call_ids(
    ir: RequestView,
    model: Seq<char>,
    turns: Seq<TurnView>,
    k: int,
    p: int,
)
    requires
        0 <= k,
        0 <= p,
    ensures
        has_known_id(
            google_genai::worker_body(ir, model, turns).at("contents"@).item(k).at("parts"@).item(
                p,
            ),
        ),
{
    words_differ();
    gemini_body_members(ir, model, turns);
    gemini_contents_have_known_ids(ir.messages, turns);
    let contents = google_genai::body_of(ir.messages, turns).contents;
    let content = google_genai::worker_body(ir, model, turns).at("contents"@).item(k);
    if k < contents.len() {
        assert(content == contents[k]);
        assert(has_known_ids(contents[k]));
    }
}

/// Whether the function response of a part, if it has one, has no made-up identifier.
pub open spec fn has_known_result(part: JsonView) -> bool {
    part.at("functionResponse"@).at("id"@).as_str() matches Some(id)
        ==> !google_genai::is_synthesized(id)
}

/// Whether the kept turns, which are the words of the model, hold no function response
/// with a made-up identifier.
pub open spec fn turns_have_known_results(turns: Seq<TurnView>) -> bool {
    forall|i: int, p: int|
        0 <= i < turns.len() && google_genai::replayed_parts(
            turns[i].assistant_content,
        ) is Some && 0 <= p < google_genai::replayed_parts(turns[i].assistant_content)->0.len()
            ==> has_known_result(
            #[trigger] google_genai::replayed_parts(turns[i].assistant_content)->0[p],
        )
}

proof fn matching_turn_is_kept(m: MessageView, turns: Seq<TurnView>) -> (i: int)
    requires
        google_genai::matching_turn(m, turns) is Some,
    ensures
        0 <= i < turns.len(),
        google_genai::matching_turn(m, turns) == Some(turns[i]),
    decreases turns.len(),
{
    if google_genai::turn_matches(turns.last(), m) {
        turns.len() - 1
    } else {
        matching_turn_is_kept(m, turns.drop_last())
    }
}

proof fn gemini_contents_have_known_results(messages: Seq<MessageView>, turns: Seq<TurnView>)
    requires
        turns_have_known_results(turns),
    ensures
        forall|k: int, p: int|
            0 <= k < google_genai::body_of(messages, turns).contents.len() && 0 <= p
                ==> has_known_result(
                #[trigger] google_genai::body_of(messages, turns).contents[k].at(
                    "parts"@,
                ).item(p),
            ),
    decreases messages.len(),
{
    if messages.len() > 0 {
        words_differ();
        let before = google_genai::body_of(messages.drop_last(), turns);
        let m = messages.last();
        let signatures = google_genai::signatures_of_turns(turns);
        gemini_contents_have_known_results(messages.drop_last(), turns);
        let after = google_genai::body_of(messages, turns);
        assert forall|k: int, p: int|
            0 <= k < after.contents.len() && 0 <= p implies has_known_result(
            #[trigger] after.contents[k].at("parts"@).item(p),
        ) by {
            if k < before.contents.len() {
                assert(after.contents[k] == before.contents[k]);
                assert(has_known_result(before.contents[k].at("parts"@).item(p)));
            } else if m.role is Assistant && m.tool_calls.len() > 0 {
                match google_genai::kept_parts(m, turns) {
                    Some(parts) => {
                        let i = matching_turn_is_kept(m, turns);
                        assert(google_genai::replayed_parts(turns[i].assistant_content)
                            == Some(parts));
                        if p < parts.len() {
                            assert(has_known_result(
                                google_genai::replayed_parts(turns[i].assistant_content)->0[p],
                            ));
                        }
                    },
                    None => {
                        let parts = google_genai::own_parts(m, signatures);
                        if p < parts.len() {
                            let offset = parts.len() - m.tool_calls.len();
                            if p >= offset {
                                let c = m.tool_calls[p - offset];
                                assert(parts[p] == google_genai::call_part(
                                    c,
                                    google_genai::signature_of(signatures, c.id),
                                ));
                            } else {
                                assert(parts[p] == google_genai::text_part(m.content));
                            }
                        }
                    },
                }
            } else if m.role is Tool {
                gemini_result_has_no_made_up_id(m, before.names);
            }
        }
    }
}

/// Gemini is never sent the identifier of a function response that was made up here.
pub proof fn gemini_body_has_no_made_up_result_ids(
    ir: RequestView,
    model: Seq<char>,
    turns: Seq<TurnView>,
    k: int,
    p: int,
)
    requires
        turns_have_known_results(turns),
        0 <= k,
        0 <= p,
    ensures
        has_known_result(
            google_genai::worker_body(ir, model, turns).at("contents"@).item(k).at("parts"@).item(
                p,
            ),
        ),
{
    words_differ();
    gemini_body_members(ir, model, turns);
    gemini_contents_have_known_results(ir.messages, turns);
    let contents = google_genai::body_of(ir.messages, turns).contents;
    let content = google_genai::worker_body(ir, model, turns).at("contents"@).item(k);
    if k < contents.len() {
        assert(content == contents[k]);
        assert(has_known_result(contents[k].at("parts"@).item(p)));
    }
}

/// The result of a function call is sent without a made-up identifier.
pub proof fn gemini_result_has_no_made_up_id(m: MessageView, names: Map<Seq<char>, Seq<char>>)
    ensures
        google_genai::body_result(m, names).at("functionResponse"@).at("id"@).as_str() matches Some(
            id,
        ) ==> !google_genai::is_synthesized(id) && m.tool_call_id == Some(id),
        google_genai::body_result(m, names).at("functionResponse"@).at("response"@).at(
            "content"@,
        ) == JsonView::Str(m.content),
{
    words_differ();
}

/// A tool result is sent under the name of the tool that was called, if a message before
/// it makes the call and no kept turn is sent in its place.
pub proof fn gemini_result_has_the_name_of_its_call(
    messages: Seq<MessageView>,
    turns: Seq<TurnView>,
    m: MessageView,
    c: ToolCallView,
)
    requires
        messages.len() > 0,
        messages.last().role is Assistant,
        messages.last().tool_calls == seq![c],
        google_genai::kept_parts(messages.last(), turns) is None,
        m.role is Tool,
        m.tool_call_id == Some(c.id),
    ensures
        google_genai::result_name(m, google_genai::body_of(messages, turns).names) == c.name,
{
    words_differ();
    let b = google_genai::body_of(messages.drop_last(), turns);
    let signatures = google_genai::signatures_of_turns(turns);
    let last = messages.last();
    let parts = google_genai::own_parts(last, signatures);
    let part = google_genai::call_part(c, google_genai::signature_of(signatures, c.id));
    let names = google_genai::with_message_names(b.names, last.tool_calls);
    assert(last.tool_calls.drop_last() =~= Seq::<ToolCallView>::empty());
    reveal_with_fuel(google_genai::with_message_names, 2);
    assert(names == b.names.insert(c.id, c.name));
    gemini_call_part_shows_the_call(c, google_genai::signature_of(signatures, c.id));
    let texts: Seq<JsonView> = if last.content.len() > 0 {
        seq![google_genai::text_part(last.content)]
    } else {
        Seq::empty()
    };
    assert(parts =~= texts.push(part));
    assert(parts.drop_last() =~= texts);
    reveal_with_fuel(google_genai::with_part_names, 3);
    assert(texts.len() > 0 ==> texts.drop_last() =~= Seq::<JsonView>::empty());
    assert(google_genai::with_part_names(names, texts) == names);
    assert(google_genai::with_part_names(names, parts) == google_genai::with_part_name(
        names,
        part,
    ));
}

/// The parts without function calls before some calls make no difference to the calls.
proof fn gemini_calls_are_read_back(
    lead: Seq<JsonView>,
    calls: Seq<ToolCallView>,
    fresh: Seq<Seq<char>>,
)
    requires
        forall|i: int|
            0 <= i < lead.len() ==> (#[trigger] lead[i]).get("functionCall"@) is None,
        forall|i: int|
            0 <= i < calls.len() ==> (#[trigger] calls[i]).id.len() > 0
                && !google_genai::is_synthesized(calls[i].id),
    ensures
        google_genai::worker_calls(
            lead + calls.map_values(google_genai::call_out()),
            fresh,
        ) == calls,
    decreases calls.len(), lead.len(),
{
    words_differ();
    let parts = lead + calls.map_values(google_genai::call_out());
    if calls.len() > 0 {
        let c = calls.last();
        assert(calls[calls.len() - 1] == c);
        gemini_calls_are_read_back(lead, calls.drop_last(), fresh);
        assert(parts.drop_last() =~= lead + calls.drop_last().map_values(
            google_genai::call_out(),
        ));
        gemini_call_part_shows_the_call(c, None);
        assert(parts.last() == google_genai::call_part(c, None));
        let call = parts.last().at("functionCall"@);
        assert(parts.last().get("functionCall"@) == Some(call));
        assert(calls =~= calls.drop_last().push(c));
    } else if lead.len() > 0 {
        let rest = lead.drop_last();
        assert forall|i: int| 0 <= i < rest.len() implies (#[trigger] rest[i]).get(
            "functionCall"@,
        ) is None by {
            assert(rest[i] == lead[i]);
        }
        gemini_calls_are_read_back(rest, calls, fresh);
        assert(parts =~= lead);
        assert(rest + calls.map_values(google_genai::call_out()) =~= rest);
        assert(lead[lead.len() - 1].get("functionCall"@) is None);
    } else {
        assert(parts =~= Seq::<JsonView>::empty());
        assert(calls =~= Seq::<ToolCallView>::empty());
    }
}

/// What is sent of a response in Gemini's protocol is read back: the reason for its end,
/// its counts, its thoughts, its text, before which its thoughts stand again, and the tool
/// calls whose identifiers Gemini is shown.
pub proof fn gemini_response_is_read_back(
    ir: ResponseView,
    model: Seq<char>,
    duration_ms: u64,
    cost_usd: Option<Usd>,
    fresh: Seq<Seq<char>>,
)
    requires
        forall|i: int|
            0 <= i < ir.tool_calls.len() ==> (#[trigger] ir.tool_calls[i]).id.len() > 0
                && !google_genai::is_synthesized(ir.tool_calls[i].id),
    ensures
        ({
            let body = google_genai::response_out(ir);
            let candidate = google_genai::first_candidate(body);
            let back = google_genai::worker_result(
                body,
                candidate->0,
                model,
                duration_ms,
                cost_usd,
                fresh,
            ).response->0;
            &&& candidate is Some
            &&& back.finish_reason == ir.finish_reason
            &&& back.usage.prompt_tokens == ir.usage.prompt_tokens
            &&& back.usage.completion_tokens == ir.usage.completion_tokens
            &&& back.usage.total_tokens == ir.usage.total_tokens
            &&& back.tool_calls == ir.tool_calls
            &&& back.thinking == (match ir.thinking {
                Some(s) => protocol::unless_empty(s),
                None => None,
            })
            &&& back.content == protocol::or_empty(ir.thinking) + ir.content
        }),
{
    words_differ();
    let body = google_genai::response_out(ir);
    let lead = google_genai::leading_parts(ir);
    let parts = lead + ir.tool_calls.map_values(google_genai::call_out());
    counts_are_read_back(ir.usage.prompt_tokens);
    counts_are_read_back(ir.usage.completion_tokens);
    counts_are_read_back(ir.usage.total_tokens);
    let candidate = body.at("candidates"@).item(0);
    assert(google_genai::first_candidate(body) == Some(candidate));
    assert(candidate.at("content"@) == google_genai::role_and_parts("model"@, parts));
    assert(google_genai::candidate_parts(candidate) == parts);
    assert forall|i: int| 0 <= i < lead.len() implies (#[trigger] lead[i]).get(
        "functionCall"@,
    ) is None by {}
    gemini_calls_are_read_back(lead, ir.tool_calls, fresh);
    reveal_strlit("");
    let calls = ir.tool_calls.map_values(google_genai::call_out());
    let text = google_genai::worker_text();
    let thought = google_genai::worker_thought();
    assert forall|i: int| 0 <= i < calls.len() implies text(#[trigger] calls[i]) is None && thought(
        calls[i],
    ) is None by {
        assert(calls[i] == google_genai::call_part(ir.tool_calls[i], None));
    }
    seqs::picks_none(calls, text);
    seqs::picks_none(calls, thought);
    seqs::picks_concat(lead, calls, text);
    seqs::picks_concat(lead, calls, thought);
    let has_thoughts = ir.thinking is Some && ir.thinking->0.len() > 0;
    let thoughts = if has_thoughts {
        seq![lead[0]]
    } else {
        Seq::empty()
    };
    let texts = if ir.content.len() > 0 {
        seq![google_genai::text_part(ir.content)]
    } else {
        Seq::empty()
    };
    assert(lead =~= thoughts + texts);
    seqs::picks_concat(thoughts, texts, text);
    seqs::picks_concat(thoughts, texts, thought);
    seqs::picks_none(texts, thought);
    if has_thoughts {
        let s = ir.thinking->0;
        assert(thoughts[0].at("text"@) == JsonView::Str(s));
        assert(thoughts[0].at("thought"@) == JsonView::Bool(true));
        seqs::picks_all(thoughts, text, seq![s]);
        seqs::picks_all(thoughts, thought, seq![s]);
    } else {
        seqs::picks_none(thoughts, text);
        seqs::picks_none(thoughts, thought);
        assert(protocol::or_empty(ir.thinking) =~= Seq::<char>::empty());
    }
    if ir.content.len() > 0 {
        assert(texts[0].at("text"@) == JsonView::Str(ir.content));
        seqs::picks_all(texts, text, seq![ir.content]);
    } else {
        seqs::picks_none(texts, text);
        assert(ir.content =~= Seq::<char>::empty());
    }
    let said = thoughts.filter_map(text) + texts.filter_map(text);
    assert(parts.filter_map(text) =~= said);
    assert(parts.filter_map(thought) =~= thoughts.filter_map(thought));
    if said.len() == 2 {
        assert(said.drop_last() =~= seq![ir.thinking->0]);
        assert(text::join_of(said.drop_last(), ""@) == ir.thinking->0);
    }
    assert(text::join_of(said, ""@) =~= protocol::or_empty(ir.thinking) + ir.content);
}

/// A kept turn that makes one of the calls of a message is sent in place of the message.
pub proof fn gemini_body_replays_kept_turns(
    ir: RequestView,
    model: Seq<char>,
    turns: Seq<TurnView>,
    i: int,
)
    requires
        0 <= i < ir.messages.len(),
        ir.messages[i].role is Assistant,
        ir.messages[i].tool_calls.len() > 0,
        google_genai::kept_parts(ir.messages[i], turns) is Some,
    ensures
        exists|k: int|
            0 <= k && (#[trigger] google_genai::worker_body(ir, model, turns).at(
                "contents"@,
            ).item(k)) == google_genai::role_and_parts(
                "model"@,
                google_genai::kept_parts(ir.messages[i], turns)->0,
            ),
{
    gemini_body_members(ir, model, turns);
    let before = google_genai::body_of(ir.messages.take(i), turns);
    let after = google_genai::body_of(ir.messages.take(i + 1), turns);
    seqs::take_step(ir.messages, i);
    let k = before.contents.len() as int;
    gemini_contents_stay(ir.messages, turns, i + 1, k);
    let content = google_genai::role_and_parts(
        "model"@,
        google_genai::kept_parts(ir.messages[i], turns)->0,
    );
    assert(after.contents[k] == content);
    assert(google_genai::worker_body(ir, model, turns).at("contents"@).item(k) == content);
}

/// A part that is sent back keeps its signature, its text, and the name and the
/// arguments of its function call.
pub proof fn replayed_part_keeps_its_signature(part: JsonView)
    ensures
        ({
            let sent = google_genai::replayed_part()(part);
            &&& sent.at("thoughtSignature"@) == part.at("thoughtSignature"@)
            &&& sent.at("text"@) == part.at("text"@)
            &&& sent.at("functionCall"@).at("name"@) == part.at("functionCall"@).at("name"@)
            &&& sent.at("functionCall"@).at("args"@) == part.at("functionCall"@).at("args"@)
        }),
{
    words_differ();
}

/// Once a part is rectified, its function call has an identifier, and nothing else of
/// the part has changed; a part that has one stays as it is.
pub proof fn rectified_part_has_an_id(part: JsonView, fresh: Seq<char>)
    requires
        google_genai::is_fresh_id(fresh),
    ensures
        ({
            let r = google_genai::rectified_part(part, fresh);
            &&& part.at("functionCall"@) is Object ==> protocol::filled_text(
                r.at("functionCall"@).at("id"@),
            ) is Some
            &&& protocol::filled_text(part.at("functionCall"@).at("id"@)) is Some ==> r == part
            &&& r.at("text"@) == part.at("text"@)
            &&& r.at("thoughtSignature"@) == part.at("thoughtSignature"@)
            &&& r.at("functionCall"@).at("name"@) == part.at("functionCall"@).at("name"@)
            &&& r.at("functionCall"@).at("args"@) == part.at("functionCall"@).at("args"@)
        }),
{
    words_differ();
    google_genai::fresh_id_is_synthesized(fresh);
}

/// Rectifying parts twice is the same as rectifying them once.
pub proof fn rectifying_twice_is_once(
    parts: Seq<JsonView>,
    fresh: Seq<Seq<char>>,
    others: Seq<Seq<char>>,
)
    requires
        google_genai::are_fresh(fresh, parts.len()),
    ensures
        google_genai::rectified_parts(google_genai::rectified_parts(parts, fresh), others)
            == google_genai::rectified_parts(parts, fresh),
{
    let once = google_genai::rectified_parts(parts, fresh);
    assert forall|i: int| 0 <= i < parts.len() implies google_genai::rectified_part(
        #[trigger] once[i],
        others[i],
    ) == once[i] by {
        assert(google_genai::is_fresh_id(fresh[i]));
        rectified_part_has_an_id(parts[i], fresh[i]);
    }
    assert(google_genai::rectified_parts(once, others) =~= once);
}

/// The tool calls of a rectified body are read the same whatever identifiers are at
/// hand, so that the result and the kept turn agree on them.
pub proof fn rectified_calls_are_settled(
    parts: Seq<JsonView>,
    fresh: Seq<Seq<char>>,
    some: Seq<Seq<char>>,
    others: Seq<Seq<char>>,
)
    requires
        google_genai::are_fresh(fresh, parts.len()),
        forall|i: int|
            0 <= i < parts.len() ==> ((#[trigger] parts[i]).get("functionCall"@) matches Some(c)
                ==> c is Object),
    ensures
        google_genai::worker_calls(google_genai::rectified_parts(parts, fresh), some)
            == google_genai::worker_calls(google_genai::rectified_parts(parts, fresh), others),
    decreases parts.len(),
{
    if parts.len() > 0 {
        let rest = parts.drop_last();
        let rest_fresh = fresh.drop_last();
        assert forall|i: int| 0 <= i < rest.len() implies ((#[trigger] rest[i]).get(
            "functionCall"@,
        ) matches Some(c) ==> c is Object) by {
            assert(rest[i] == parts[i]);
        }
        assert forall|i: int| 0 <= i < rest.len() implies google_genai::is_fresh_id(
            #[trigger] rest_fresh[i],
        ) by {
            assert(rest_fresh[i] == fresh[i]);
        }
        rectified_calls_are_settled(rest, rest_fresh, some, others);
        let all = google_genai::rectified_parts(parts, fresh);
        assert(all.drop_last() =~= google_genai::rectified_parts(rest, rest_fresh));
        let last = parts.len() - 1;
        assert(google_genai::is_fresh_id(fresh[last]));
        rectified_part_has_an_id(parts[last], fresh[last]);
        assert(all.last() == google_genai::rectified_part(parts[last], fresh[last]));
    }
}

// ---------------------------------------------------------------------------
// Requests
// ---------------------------------------------------------------------------

proof fn gemini_calls_are_there(parts: Seq<google_genai::PartView>, j: int) -> (c: int)
    requires
        0 <= j < parts.len(),
        parts[j].function_call is Some,
    ensures
        0 <= c < google_genai::calls_in(parts).len(),
        google_genai::calls_in(parts)[c].name == parts[j].function_call->0.name,
        google_genai::calls_in(parts)[c].arguments == parts[j].function_call->0.args,
        parts[j].function_call->0.id matches Some(id) ==> google_genai::calls_in(parts)[c].id == id,
    decreases parts.len(),
{
    let rest = parts.drop_last();
    if j < rest.len() {
        gemini_calls_are_there(rest, j)
    } else {
        google_genai::calls_in(rest).len() as int
    }
}

proof fn gemini_messages_are_there(contents: Seq<google_genai::ContentView>, i: int, j: int) -> (k:
    int)
    requires
        0 <= i < contents.len(),
        0 <= j < google_genai::content_in(contents[i]).len(),
    ensures
        0 <= k < google_genai::contents_in(contents).len(),
        google_genai::contents_in(contents)[k] == google_genai::content_in(contents[i])[j],
    decreases contents.len(),
{
    let rest = google_genai::contents_in(contents.drop_last());
    if i == contents.len() - 1 {
        rest.len() + j
    } else {
        gemini_messages_are_there(contents.drop_last(), i, j)
    }
}

/// A Gemini request keeps its function calls: where a content of the model has no
/// function responses, each of its calls is a call of a message of the assistant, with
/// its name, its arguments and, if it has one, its identifier.
pub proof fn gemini_request_keeps_tool_calls(req: google_genai::GenAiRequestView, i: int, j: int)
    requires
        0 <= i < req.contents.len(),
        req.contents[i].role == Some("model"@),
        forall|p: int|
            0 <= p < req.contents[i].parts.len() ==> (
            #[trigger] req.contents[i].parts[p]).function_response is None,
        0 <= j < req.contents[i].parts.len(),
        req.contents[i].parts[j].function_call is Some,
    ensures
        exists|call: ToolCallView| #[trigger]
            makes_call(google_genai::request_in(req).messages, call) && call.name
                == req.contents[i].parts[j].function_call->0.name && call.arguments
                == req.contents[i].parts[j].function_call->0.args && (
            req.contents[i].parts[j].function_call->0.id matches Some(id) ==> call.id == id),
{
    let parts = req.contents[i].parts;
    seqs::picks_none(parts, google_genai::result_in());
    let c = gemini_calls_are_there(parts, j);
    let k = gemini_messages_are_there(req.contents, i, 0);
    let system = google_genai::system_in(req.system_instruction);
    let start = google_genai::system_messages(system).len();
    let all = google_genai::request_in(req).messages;
    let call = google_genai::calls_in(parts)[c];
    assert(all[start + k].tool_calls[c] == call);
    assert(makes_call(all, call));
}

/// A Gemini request keeps its function responses: each is a message of its own, with the
/// identifier of its call, or its name where it has none.
pub proof fn gemini_request_keeps_tool_results(
    req: google_genai::GenAiRequestView,
    i: int,
    j: int,
)
    requires
        0 <= i < req.contents.len(),
        0 <= j < req.contents[i].parts.len(),
        req.contents[i].parts[j].function_response is Some,
    ensures
        google_genai::result_in()(req.contents[i].parts[j]) matches Some(m)
            && google_genai::request_in(req).messages.contains(m) && m.role is Tool
            && m.tool_call_id == Some(
            match req.contents[i].parts[j].function_response->0.id {
                Some(id) => id,
                None => req.contents[i].parts[j].function_response->0.name,
            },
        ),
{
    let f = google_genai::result_in();
    let parts = req.contents[i].parts;
    let r = seqs::pick_is_there(parts, f, j);
    let k = gemini_messages_are_there(req.contents, i, r);
    let system = google_genai::system_in(req.system_instruction);
    let start = google_genai::system_messages(system).len();
    assert(google_genai::request_in(req).messages[start + k] == f(parts[j])->0);
}

} // verus!
