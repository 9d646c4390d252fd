//! What is read of a client's request in Gemini's protocol: every content in its place
//! with its text, every function call and response, every function, and every setting.

use vstd::prelude::*;

use crate::json::{json_text, JsonView};
use crate::protocol;
use crate::protocol::google_genai;
use crate::protocol::request_laws::{is_plain, keeps_under, next_line, picked_texts_grow, picks_grow};
use crate::protocol::words::words_differ;
use crate::protocol::{MessageView, Role, ThinkingEffort, ToolDefView};
use crate::seqs;
use crate::text;

verus! {

proof fn gemini_alone(req: google_genai::GenAiRequestView, c: google_genai::ContentView)
    ensures
        google_genai::request_in(
            google_genai::GenAiRequestView { contents: seq![c], system_instruction: None, ..req },
        ).messages == google_genai::content_in(c),
{
    assert(seq![c].drop_last() =~= Seq::empty());
    reveal_with_fuel(google_genai::contents_in, 2);
    let one = google_genai::content_in(c);
    assert(Seq::<MessageView>::empty() + (Seq::<MessageView>::empty() + one) =~= one);
}

/// A Gemini request gives its messages one after another: those of a further content come
/// after those of the others, and are those that it gives alone.
pub proof fn gemini_request_says_every_content(
    req: google_genai::GenAiRequestView,
    c: google_genai::ContentView,
)
    ensures
        ({
            let more = google_genai::GenAiRequestView { contents: req.contents.push(c), ..req };
            let alone = google_genai::GenAiRequestView {
                contents: seq![c],
                system_instruction: None,
                ..req
            };
            let one = google_genai::request_in(alone).messages;
            &&& google_genai::request_in(more).messages == google_genai::request_in(req).messages
                + one
            &&& one.len() > 0
        }),
{
    assert(req.contents.push(c).drop_last() =~= req.contents);
    gemini_alone(req, c);
    let start = google_genai::system_messages(google_genai::system_in(req.system_instruction));
    assert(start + (google_genai::contents_in(req.contents) + google_genai::content_in(c)) =~= (
    start + google_genai::contents_in(req.contents)) + google_genai::content_in(c));
}

/// Whether one of some parts is a function response.
pub open spec fn has_response(parts: Seq<google_genai::PartView>) -> bool {
    exists|j: int| 0 <= j < parts.len() && (#[trigger] parts[j]).function_response is Some
}

/// Whether one of some parts holds text.
pub open spec fn has_part_text(parts: Seq<google_genai::PartView>) -> bool {
    exists|j: int| 0 <= j < parts.len() && (#[trigger] parts[j]).text is Some
}

/// A content, one part after another. Without function responses it is one message, of
/// the assistant if the model said it, or else of the user: a text is one more line of
/// it, and a function call is one more call, with its own identifier or one made from its
/// name and its place. Each function response is a message of its own, and then only
/// those count.
pub proof fn gemini_parts_make_the_message(
    req: google_genai::GenAiRequestView,
    role: Option<Seq<char>>,
    parts: Seq<google_genai::PartView>,
    p: google_genai::PartView,
)
    ensures
        ({
            let few = google_genai::request_in(
                google_genai::GenAiRequestView {
                    contents: seq![google_genai::ContentView { role, parts }],
                    system_instruction: None,
                    ..req
                },
            ).messages;
            let more = google_genai::request_in(
                google_genai::GenAiRequestView {
                    contents: seq![google_genai::ContentView { role, parts: parts.push(p) }],
                    system_instruction: None,
                    ..req
                },
            ).messages;
            &&& parts.len() == 0 ==> few.len() == 1 && is_plain(
                few[0],
                if role == Some("model"@) {
                    Role::Assistant
                } else {
                    Role::User
                },
                Seq::empty(),
            )
            &&& p.function_response matches Some(f) ==> {
                let r = more.last();
                &&& more.len() > 0
                &&& more.drop_last() == (if has_response(parts) {
                    few
                } else {
                    Seq::empty()
                })
                &&& r.role is Tool
                &&& r.tool_is_error is None
                &&& r.tool_calls.len() == 0
                &&& r.tool_call_id == Some(
                    match f.id {
                        Some(id) => id,
                        None => f.name,
                    },
                )
                &&& r.content == (match f.response.at("content"@) {
                    JsonView::Str(s) => s,
                    _ => json_text(f.response),
                })
            }
            &&& p.function_response is None && has_response(parts) ==> more == few
            &&& p.function_response is None && !has_response(parts) ==> {
                &&& few.len() == 1
                &&& more.len() == 1
                &&& more[0].role == few[0].role
                &&& more[0].tool_call_id is None
                &&& more[0].tool_is_error is None
                &&& more[0].content == (match p.text {
                    Some(s) => next_line(
                        if has_part_text(parts) {
                            Some(few[0].content)
                        } else {
                            None
                        },
                        s,
                    ),
                    None => few[0].content,
                })
                &&& p.function_call is None ==> more[0].tool_calls == few[0].tool_calls
                &&& p.function_call matches Some(f) ==> {
                    let c = more[0].tool_calls.last();
                    &&& more[0].tool_calls.len() == few[0].tool_calls.len() + 1
                    &&& more[0].tool_calls.drop_last() == few[0].tool_calls
                    &&& c.name == f.name
                    &&& c.arguments == f.args
                    &&& c.id == (match f.id {
                        Some(id) => id,
                        None => f.name + "_"@ + text::decimal_of(few[0].tool_calls.len()),
                    })
                }
            }
        }),
{
    gemini_alone(req, google_genai::ContentView { role, parts });
    gemini_alone(req, google_genai::ContentView { role, parts: parts.push(p) });
    let results = google_genai::result_in();
    let texts = google_genai::part_text();
    picks_grow(parts, p, results);
    picked_texts_grow(parts, p, texts, "\n"@);
    assert(parts.push(p).drop_last() =~= parts);
    if has_response(parts) {
        let j = choose|j: int|
            0 <= j < parts.len() && (#[trigger] parts[j]).function_response is Some;
        assert(results(parts[j]) is Some);
        let k = seqs::pick_is_there(parts, results, j);
    } else {
        seqs::picks_none(parts, results);
    }
    if has_part_text(parts) {
        let j = choose|j: int| 0 <= j < parts.len() && (#[trigger] parts[j]).text is Some;
        assert(texts(parts[j]) is Some);
    }
    if exists|j: int| 0 <= j < parts.len() && texts(#[trigger] parts[j]) is Some {
        let j = choose|j: int| 0 <= j < parts.len() && texts(#[trigger] parts[j]) is Some;
        assert(parts[j].text is Some);
    }
    if parts.len() == 0 {
        assert(parts =~= Seq::empty());
    }
    if p.function_response is Some {
        let all = parts.filter_map(results);
        assert(all.push(results(p)->0).drop_last() =~= all);
    }
    let calls = google_genai::calls_in(parts);
    if p.function_call is Some {
        assert(google_genai::calls_in(parts.push(p)).drop_last() =~= calls);
    }
}

/// The system instruction of a Gemini request is its first message and its system prompt
/// in the common form, unless it is empty; each text of it is one more line.
pub proof fn gemini_request_has_the_system_prompt(
    req: google_genai::GenAiRequestView,
    parts: Seq<google_genai::PartView>,
    p: google_genai::PartView,
)
    ensures
        ({
            let ir = google_genai::request_in(req);
            let rest = google_genai::request_in(
                google_genai::GenAiRequestView { system_instruction: None, ..req },
            );
            &&& rest.system is None
            &&& ir.system is None ==> ir.messages == rest.messages
            &&& ir.system matches Some(s) ==> {
                &&& s.len() > 0
                &&& ir.messages.len() == rest.messages.len() + 1
                &&& ir.messages.drop_first() == rest.messages
                &&& is_plain(ir.messages[0], Role::System, s)
            }
        }),
        ({
            let few = google_genai::request_in(
                google_genai::GenAiRequestView { system_instruction: Some(parts), ..req },
            ).system;
            let more = google_genai::request_in(
                google_genai::GenAiRequestView { system_instruction: Some(parts.push(p)), ..req },
            ).system;
            &&& parts.len() == 0 ==> few is None
            &&& p.text is None ==> more == few
            &&& p.text matches Some(s) ==> s.len() > 0 ==> more == Some(
                next_line(
                    if has_part_text(parts) {
                        Some(protocol::or_empty(few))
                    } else {
                        None
                    },
                    s,
                ),
            )
        }),
{
    let ir = google_genai::request_in(req);
    let own = google_genai::contents_in(req.contents);
    assert(Seq::<MessageView>::empty() + own =~= own);
    if ir.system is Some {
        assert(ir.messages.drop_first() =~= own);
    }
    let f = google_genai::part_text();
    picked_texts_grow(parts, p, f, "\n"@);
    if parts.len() == 0 {
        assert(parts =~= Seq::empty());
    }
    let joined = text::join_of(parts.filter_map(f), "\n"@);
    if joined.len() == 0 {
        assert(joined =~= Seq::empty());
    }
    if has_part_text(parts) {
        let j = choose|j: int| 0 <= j < parts.len() && (#[trigger] parts[j]).text is Some;
        assert(f(parts[j]) is Some);
    }
    if exists|j: int| 0 <= j < parts.len() && f(#[trigger] parts[j]) is Some {
        let j = choose|j: int| 0 <= j < parts.len() && f(#[trigger] parts[j]) is Some;
        assert(parts[j].text is Some);
    }
}

/// The functions of one more tool of a Gemini request come after those of the others, as
/// they stand.
pub proof fn gemini_request_has_every_tool(
    req: google_genai::GenAiRequestView,
    t: Seq<ToolDefView>,
)
    ensures
        google_genai::request_in(
            google_genai::GenAiRequestView { tools: Seq::empty(), ..req },
        ).tools.len() == 0,
        google_genai::request_in(
            google_genai::GenAiRequestView { tools: req.tools.push(t), ..req },
        ).tools == google_genai::request_in(req).tools + t,
{
    assert(req.tools.push(t).drop_last() =~= req.tools);
}

/// A Gemini request gives every setting as it stands, and the defaults where it has no
/// configuration.
pub proof fn gemini_request_has_every_setting(req: google_genai::GenAiRequestView)
    ensures
        ({
            let ir = google_genai::request_in(req);
            &&& req.generation_config matches Some(c) ==> {
                &&& ir.max_tokens == c.max_output_tokens
                &&& ir.temperature == c.temperature
                &&& ir.top_p == c.top_p
                &&& ir.stop == c.stop_sequences
                &&& ir.thinking is Some <==> c.thinking_config is Some
                &&& c.thinking_config matches Some(t) ==> {
                    let effort = ir.thinking->0.effort;
                    &&& ir.thinking->0.budget_tokens == t.thinking_budget
                    &&& !ir.thinking->0.summary
                    &&& t.thinking_level matches Some(level) ==> {
                        &&& level == "LOW"@ || level == "low"@ <==> effort is Low
                        &&& level == "MEDIUM"@ || level == "medium"@ <==> effort is Medium
                        &&& level == "HIGH"@ || level == "high"@ <==> effort is High
                        &&& !(effort is Disabled) && !(effort is Max)
                    }
                    &&& t.thinking_level is None ==> effort == (match t.thinking_budget {
                        Some(n) => if n == 0 {
                            ThinkingEffort::Disabled
                        } else if n > 0 {
                            ThinkingEffort::High
                        } else if t.include_thoughts == Some(false) {
                            ThinkingEffort::Disabled
                        } else {
                            ThinkingEffort::Adaptive
                        },
                        None => if t.include_thoughts == Some(false) {
                            ThinkingEffort::Disabled
                        } else {
                            ThinkingEffort::Adaptive
                        },
                    })
                }
            }
            &&& req.generation_config is None ==> {
                &&& ir.max_tokens == 2048
                &&& ir.temperature is None
                &&& ir.top_p is None
                &&& ir.stop.len() == 0
                &&& ir.thinking is None
            }
            &&& ir.api_key == req.api_key
            &&& ir.parallel_tool_calls is None
            &&& ir.stream == req.stream
            &&& ir.metadata == Map::<Seq<char>, JsonView>::empty()
            &&& ir.session_id is None
            &&& keeps_under(ir.native, "google-genai"@, req.extra)
            &&& ir.tool_choice is Some <==> req.tool_config is Some
        }),
{
    words_differ();
}

/// A Gemini request lets the model choose among the functions in the words of the other
/// protocols: not at all, freely, one of them in any case, or the first one allowed.
pub proof fn gemini_request_has_the_tool_choice(
    req: google_genai::GenAiRequestView,
    name: Seq<char>,
)
    requires
        req.tool_config is Some,
    ensures
        ({
            let c = req.tool_config->0;
            let config = match c.get("functionCallingConfig"@) {
                Some(v) => v,
                None => c.at("function_calling_config"@),
            };
            let names = match config.get("allowedFunctionNames"@) {
                Some(v) => v,
                None => config.at("allowed_function_names"@),
            };
            let mode = config.at("mode"@);
            let choice = google_genai::request_in(req).tool_choice->0;
            &&& mode == JsonView::Str("NONE"@) ==> choice == JsonView::Str("none"@)
            &&& mode == JsonView::Str("AUTO"@) || !(mode is Str) ==> choice == JsonView::Str(
                "auto"@,
            )
            &&& mode == JsonView::Str("ANY"@) && !(names.item(0) is Str) ==> choice
                == JsonView::Str("required"@)
            &&& mode == JsonView::Str("ANY"@) && names.item(0) == JsonView::Str(name) ==> {
                &&& choice.at("type"@) == JsonView::Str("function"@)
                &&& choice.at("function"@).at("name"@) == JsonView::Str(name)
            }
        }),
{
    words_differ();
    reveal_strlit("NONE");
    reveal_strlit("ANY");
    reveal_strlit("AUTO");
    assert("NONE"@.len() == 4 && "NONE"@[0] == 'N');
    assert("AUTO"@.len() == 4 && "AUTO"@[0] == 'A');
    assert("ANY"@.len() == 3);
}

} // verus!
