//! What a Gemini worker is told: every message of a conversation in its place with its
//! text, every tool, and every setting, under the names of the protocol.

use vstd::prelude::*;

use crate::json::{int_view, JsonView};
use crate::protocol;
use crate::protocol::body_laws::{count, holds_texts, members_stay, spoken};
use crate::protocol::gemini_shadow::TurnView;
use crate::protocol::google_genai;
use crate::protocol::words::words_differ;
use crate::protocol::{MessageView, RequestView, ThinkingEffort};
use crate::seqs;
use crate::text;

verus! {

/// How many of some messages are from the system.
pub open spec fn framing(messages: Seq<MessageView>) -> nat {
    (messages.len() - spoken(messages)) as nat
}

proof fn spoken_is_bounded(messages: Seq<MessageView>)
    ensures
        spoken(messages) <= messages.len(),
    decreases messages.len(),
{
    if messages.len() > 0 {
        spoken_is_bounded(messages.drop_last());
    }
}

/// How many contents and how many parts of the system instruction a body has.
pub proof fn body_counts(messages: Seq<MessageView>, turns: Seq<TurnView>)
    ensures
        google_genai::body_of(messages, turns).contents.len() == spoken(messages),
        google_genai::body_of(messages, turns).system.len() == framing(messages),
    decreases messages.len(),
{
    if messages.len() > 0 {
        body_counts(messages.drop_last(), turns);
        spoken_is_bounded(messages.drop_last());
    }
}

/// What stands in a body for the first messages stays when messages follow.
pub proof fn body_stays(messages: Seq<MessageView>, turns: Seq<TurnView>, n: int)
    requires
        0 <= n <= messages.len(),
    ensures
        ({
            let first = google_genai::body_of(messages.take(n), turns);
            let all = google_genai::body_of(messages, turns);
            &&& first.contents.len() <= all.contents.len()
            &&& first.system.len() <= all.system.len()
            &&& forall|k: int|
                0 <= k < first.contents.len() ==> #[trigger] all.contents[k] == first.contents[k]
            &&& forall|k: int|
                0 <= k < first.system.len() ==> #[trigger] all.system[k] == first.system[k]
        }),
    decreases messages.len() - n,
{
    if n == messages.len() {
        assert(messages.take(n) =~= messages);
    } else {
        assert(messages.drop_last().take(n) =~= messages.take(n));
        body_stays(messages.drop_last(), turns, n);
    }
}

/// A Gemini body shows every message that is not from the system in its place: what the
/// user and the model say as a part with their text, and each result as the part of a
/// content of the user. Where no turns are kept, the calls of the model are parts after
/// its text, each with its name and its arguments, and with its identifier unless that
/// was made up here.
pub proof fn gemini_body_says_every_message(
    ir: RequestView,
    model: Seq<char>,
    turns: Seq<TurnView>,
    i: int,
)
    requires
        0 <= i < ir.messages.len(),
        !(ir.messages[i].role is System),
    ensures
        ({
            let m = ir.messages[i];
            let all = google_genai::worker_body(ir, model, turns).at("contents"@);
            let shown = all.item(spoken(ir.messages.take(i)) as int);
            let parts = shown.at("parts"@);
            let lead: int = if m.content.len() > 0 {
                1
            } else {
                0
            };
            &&& count(all) == spoken(ir.messages)
            &&& shown.at("role"@) == JsonView::Str(
                if m.role is Assistant {
                    "model"@
                } else {
                    "user"@
                },
            )
            &&& m.role is User || (m.role is Assistant && m.tool_calls.len() == 0) ==> count(parts)
                == 1 && parts.item(0).at("text"@) == JsonView::Str(m.content)
            &&& m.role is Tool ==> {
                let f = parts.item(0).at("functionResponse"@);
                &&& count(parts) == 1
                &&& f.at("response"@).at("content"@) == JsonView::Str(m.content)
                &&& f.at("name"@) is Str
            }
            &&& m.role is Assistant && m.tool_calls.len() > 0 && turns.len() == 0 ==> {
                &&& count(parts) == lead + m.tool_calls.len()
                &&& m.content.len() > 0 ==> parts.item(0).at("text"@) == JsonView::Str(m.content)
                &&& forall|j: int|
                    lead <= j < lead + m.tool_calls.len() ==> {
                        let f = (#[trigger] parts.item(j)).at("functionCall"@);
                        let c = m.tool_calls[j - lead];
                        &&& f.at("name"@) == JsonView::Str(c.name)
                        &&& f.at("args"@) == c.arguments
                        &&& f.at("id"@).as_str() == (if c.id.len() > 0
                            && !google_genai::is_synthesized(c.id) {
                            Some(c.id)
                        } else {
                            None
                        })
                    }
            }
        }),
{
    words_differ();
    reveal_strlit("model");
    gemini_members(ir, model, turns);
    let m = ir.messages[i];
    seqs::take_step(ir.messages, i);
    let before = google_genai::body_of(ir.messages.take(i), turns);
    let after = google_genai::body_of(ir.messages.take(i + 1), turns);
    body_counts(ir.messages, turns);
    body_counts(ir.messages.take(i), turns);
    body_stays(ir.messages, turns, i + 1);
    let k = before.contents.len() as int;
    let shown = google_genai::worker_body(ir, model, turns).at("contents"@).item(k);
    assert(shown == after.contents[k]);
    if m.role is Tool {
        assert(shown.at("parts"@).item(0) == google_genai::body_result(m, before.names));
    }
    if m.role is Assistant && m.tool_calls.len() > 0 && turns.len() == 0 {
        let signatures = google_genai::signatures_of_turns(turns);
        let own = google_genai::own_parts(m, signatures);
        assert(google_genai::kept_parts(m, turns) is None);
        assert(shown.at("parts"@) == JsonView::Array(own));
        let lead: int = if m.content.len() > 0 {
            1
        } else {
            0
        };
        assert forall|j: int| lead <= j < lead + m.tool_calls.len() implies #[trigger] shown.at(
            "parts"@,
        ).item(j) == google_genai::call_part(m.tool_calls[j - lead], None) by {
            assert(own[j] == google_genai::signed_calls(m.tool_calls, signatures)[j - lead]);
        }
    }
}

/// The members of a Gemini body.
pub proof fn gemini_members(ir: RequestView, model: Seq<char>, turns: Seq<TurnView>)
    ensures
        ({
            let body = google_genai::worker_body(ir, model, turns);
            let all = google_genai::body_of(ir.messages, turns);
            &&& body.at("contents"@) == JsonView::Array(all.contents)
            &&& body.at("generationConfig"@) == google_genai::body_config(ir, model)
            &&& all.system.len() > 0 ==> body.at("systemInstruction"@).at("parts"@)
                == JsonView::Array(all.system)
            &&& ir.tools.len() > 0 ==> body.at("tools"@) == google_genai::body_tools(ir.tools)->0
            &&& ir.tool_choice matches Some(c) ==> body.at("toolConfig"@)
                == google_genai::choice_out(c)
            &&& ir.stream ==> body.at("stream"@) == JsonView::Bool(true)
            &&& ir.native == Map::<Seq<char>, JsonView>::empty() ==> {
                &&& body.get("systemInstruction"@) is Some <==> all.system.len() > 0
                &&& body.get("tools"@) is Some <==> ir.tools.len() > 0
                &&& body.get("toolConfig"@) is Some <==> ir.tool_choice is Some
                &&& body.get("stream"@) is Some <==> ir.stream
            }
        }),
{
    words_differ();
    let body = google_genai::worker_body(ir, model, turns);
    let b = google_genai::body_members(ir, model, turns);
    members_stay(b, ir.native, protocol::NATIVE_GEMINI@, body);
    let all = google_genai::body_of(ir.messages, turns);
    assert(b.dom().contains("contents"@) && b.dom().contains("generationConfig"@));
    assert(b.dom().contains("systemInstruction"@) <==> all.system.len() > 0);
    assert(b.dom().contains("tools"@) <==> ir.tools.len() > 0);
    assert(b.dom().contains("toolConfig"@) <==> ir.tool_choice is Some);
    assert(b.dom().contains("stream"@) <==> ir.stream);
}

/// A Gemini body holds every message of the system as a part of the system instruction,
/// in its place among those, and nothing else there.
pub proof fn gemini_body_holds_the_system_prompt(
    ir: RequestView,
    model: Seq<char>,
    turns: Seq<TurnView>,
    i: int,
)
    requires
        0 <= i < ir.messages.len(),
        ir.messages[i].role is System,
    ensures
        ({
            let parts = google_genai::worker_body(ir, model, turns).at("systemInstruction"@).at(
                "parts"@,
            );
            &&& count(parts) == framing(ir.messages)
            &&& parts.item(framing(ir.messages.take(i)) as int).at("text"@) == JsonView::Str(
                ir.messages[i].content,
            )
        }),
{
    words_differ();
    gemini_members(ir, model, turns);
    seqs::take_step(ir.messages, i);
    let before = google_genai::body_of(ir.messages.take(i), turns);
    let after = google_genai::body_of(ir.messages.take(i + 1), turns);
    body_counts(ir.messages, turns);
    body_counts(ir.messages.take(i), turns);
    body_stays(ir.messages, turns, i + 1);
    let k = before.system.len() as int;
    assert(after.system[k] == google_genai::text_part(ir.messages[i].content));
}

/// A Gemini body declares every tool in its place, with its name, its description and its
/// parameters, and no other tool.
pub proof fn gemini_body_declares_every_tool(
    ir: RequestView,
    model: Seq<char>,
    turns: Seq<TurnView>,
    i: int,
)
    requires
        0 <= i < ir.tools.len(),
    ensures
        ({
            let tools = google_genai::worker_body(ir, model, turns).at("tools"@);
            let functions = tools.item(0).at("functionDeclarations"@);
            &&& count(tools) == 1
            &&& count(functions) == ir.tools.len()
            &&& functions.item(i).at("name"@) == JsonView::Str(ir.tools[i].name)
            &&& functions.item(i).at("description"@) == JsonView::Str(ir.tools[i].description)
            &&& functions.item(i).at("parameters"@) == ir.tools[i].parameters
        }),
{
    words_differ();
    gemini_members(ir, model, turns);
    let functions = google_genai::worker_body(ir, model, turns).at("tools"@).item(0).at(
        "functionDeclarations"@,
    );
    assert(functions.item(i) == google_genai::body_tool()(ir.tools[i]));
}

/// A Gemini body holds every setting of the request that this protocol knows under its
/// name, and those that are not set only where a field was kept for them.
pub proof fn gemini_body_holds_every_setting(
    ir: RequestView,
    model: Seq<char>,
    turns: Seq<TurnView>,
)
    ensures
        ({
            let body = google_genai::worker_body(ir, model, turns);
            let config = body.at("generationConfig"@);
            let thinking = config.at("thinkingConfig"@);
            let by_level = text::starts_with_of(model, "gemini-3"@);
            &&& config.at("maxOutputTokens"@) == int_view(ir.max_tokens as int)
            &&& config.get("temperature"@) == (match ir.temperature {
                Some(t) => Some(t.json),
                None => None,
            })
            &&& config.get("topP"@) == (match ir.top_p {
                Some(p) => Some(p.json),
                None => None,
            })
            &&& ir.stop.len() > 0 ==> holds_texts(config.at("stopSequences"@), ir.stop)
            &&& config.get("stopSequences"@) is Some <==> ir.stop.len() > 0
            &&& config.get("thinkingConfig"@) is Some <==> ir.thinking is Some
            &&& ir.thinking matches Some(t) ==> {
                &&& thinking.at("includeThoughts"@) == JsonView::Bool(
                    t.effort != ThinkingEffort::Disabled,
                )
                &&& thinking.get("thinkingLevel"@) == (if by_level {
                    Some(
                        JsonView::Str(
                            match t.effort {
                                ThinkingEffort::Disabled => "LOW"@,
                                ThinkingEffort::Low => "LOW"@,
                                ThinkingEffort::Medium => "MEDIUM"@,
                                ThinkingEffort::High => "HIGH"@,
                                ThinkingEffort::Max => "HIGH"@,
                                ThinkingEffort::Adaptive => "MEDIUM"@,
                            },
                        ),
                    )
                } else {
                    None
                })
                &&& thinking.get("thinkingBudget"@) == (if by_level {
                    None
                } else if t.effort == ThinkingEffort::Disabled {
                    Some(int_view(0))
                } else {
                    match t.budget_tokens {
                        Some(n) => Some(int_view(n as int)),
                        None => Some(int_view(-1)),
                    }
                })
            }
            &&& ir.stream ==> body.at("stream"@) == JsonView::Bool(true)
            &&& ir.native == Map::<Seq<char>, JsonView>::empty() ==> {
                &&& body.get("systemInstruction"@) is Some <==> framing(ir.messages) > 0
                &&& body.get("tools"@) is Some <==> ir.tools.len() > 0
                &&& body.get("toolConfig"@) is Some <==> ir.tool_choice is Some
                &&& body.get("stream"@) is Some <==> ir.stream
            }
        }),
{
    words_differ();
    gemini_members(ir, model, turns);
    body_counts(ir.messages, turns);
}

/// A Gemini body lets the model choose among the functions as the request does: not at
/// all, freely, one of them in any case, or the one that the request names.
pub proof fn gemini_body_holds_the_tool_choice(
    ir: RequestView,
    model: Seq<char>,
    turns: Seq<TurnView>,
    name: Seq<char>,
)
    requires
        ir.tool_choice is Some,
    ensures
        ({
            let c = ir.tool_choice->0;
            let kind = c.at("type"@).as_str();
            let out = google_genai::worker_body(ir, model, turns).at("toolConfig"@);
            let config = out.at("functionCallingConfig"@);
            let mode = config.at("mode"@);
            let foreign = c is Object && c.get("functionCallingConfig"@) is None;
            &&& c.get("functionCallingConfig"@) is Some ==> out == c
            &&& c == JsonView::Str("none"@) || (foreign && kind == Some("none"@)) ==> mode
                == JsonView::Str("NONE"@)
            &&& (c is Str && c != JsonView::Str("none"@) && c != JsonView::Str("required"@) && c
                != JsonView::Str("any"@)) || (foreign && (kind == Some("auto"@) || kind is None))
                ==> mode == JsonView::Str("AUTO"@)
            &&& c == JsonView::Str("required"@) || c == JsonView::Str("any"@) || (foreign && (kind
                == Some("any"@) || kind == Some("required"@))) ==> mode == JsonView::Str("ANY"@)
            &&& foreign && (kind == Some("function"@) || kind == Some("tool"@)) && (c.at("name"@)
                == JsonView::Str(name) || (c.get("name"@) is None && c.at("function"@).at("name"@)
                == JsonView::Str(name))) ==> {
                &&& mode == JsonView::Str("ANY"@)
                &&& holds_texts(config.at("allowedFunctionNames"@), seq![name])
            }
        }),
{
    words_differ();
    reveal_strlit("any");
    reveal_strlit("required");
    reveal_strlit("mode");
    reveal_strlit("allowedFunctionNames");
    reveal_strlit("functionCallingConfig");
    assert("any"@.len() == 3 && "any"@[0] == 'a');
    assert("required"@.len() == 8 && "required"@[0] == 'r');
    assert("mode"@.len() == 4 && "allowedFunctionNames"@.len() == 20);
    gemini_members(ir, model, turns);
}

} // verus!
