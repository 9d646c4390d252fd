//! What is read of a client's request, in each protocol: every message in its place with
//! its text, every tool call and result, every tool, and every setting.

use vstd::prelude::*;

use crate::json::{json_text, parsed_json, JsonView};
use crate::protocol;
use crate::protocol::anthropic_messages;
use crate::protocol::google_genai;
use crate::protocol::openai_completions;
use crate::protocol::openai_responses;
use crate::protocol::words::words_differ;
use crate::protocol::{MessageView, Role, SingleView, ThinkingEffort};
use crate::seqs;
use crate::text;

verus! {

// ---------------------------------------------------------------------------
// Shared
// ---------------------------------------------------------------------------

/// Whether a message says a text in a role, and nothing more.
pub open spec fn is_plain(m: MessageView, role: Role, content: Seq<char>) -> bool {
    &&& m.role == role
    &&& m.content == content
    &&& m.tool_call_id is None
    &&& m.tool_is_error is None
    &&& m.tool_calls.len() == 0
}

/// Whether the arguments of a call are those that a text holds: the tree of the text, or
/// an empty object where the text is not JSON.
pub open spec fn are_read(arguments: JsonView, s: Seq<char>) -> bool {
    match parsed_json(s) {
        Some(v) => arguments == v,
        None => arguments == JsonView::Object(Map::empty()),
    }
}

/// A text, with another one after it on a line of its own, if there is one before it.
pub open spec fn next_line(before: Option<Seq<char>>, s: Seq<char>) -> Seq<char> {
    match before {
        Some(b) => b + "\n"@ + s,
        None => s,
    }
}

/// The texts that are picked of one more element are joined by one more text at most.
pub proof fn picked_texts_grow<A>(
    s: Seq<A>,
    x: A,
    f: spec_fn(A) -> Option<Seq<char>>,
    sep: Seq<char>,
)
    ensures
        text::join_of(s.push(x).filter_map(f), sep) == (match f(x) {
            None => text::join_of(s.filter_map(f), sep),
            Some(t) => if exists|j: int| 0 <= j < s.len() && f(#[trigger] s[j]) is Some {
                text::join_of(s.filter_map(f), sep) + sep + t
            } else {
                t
            },
        }),
        text::join_of(Seq::<A>::empty().filter_map(f), sep) == Seq::<char>::empty(),
{
    let all = s.push(x);
    assert(all.drop_last() =~= s);
    if exists|j: int| 0 <= j < s.len() && f(#[trigger] s[j]) is Some {
        let j = choose|j: int| 0 <= j < s.len() && f(#[trigger] s[j]) is Some;
        let k = seqs::pick_is_there(s, f, j);
    } else {
        seqs::picks_none(s, f);
    }
    if f(x) is Some {
        assert(all.filter_map(f) =~= s.filter_map(f).push(f(x)->0));
        assert(all.filter_map(f).drop_last() =~= s.filter_map(f));
    } else {
        assert(all.filter_map(f) =~= s.filter_map(f));
    }
}

/// What is picked of one more element is one more at most.
pub proof fn picks_grow<A, B>(s: Seq<A>, x: A, f: spec_fn(A) -> Option<B>)
    ensures
        s.push(x).filter_map(f) == (match f(x) {
            None => s.filter_map(f),
            Some(y) => s.filter_map(f).push(y),
        }),
{
    assert(s.push(x).drop_last() =~= s);
}

/// The fields that only its protocol knows are kept with the request under the name of
/// the protocol.
pub open spec fn keeps_under(native: Map<Seq<char>, JsonView>, name: Seq<char>, extra: Map<
    Seq<char>,
    JsonView,
>) -> bool {
    if extra == Map::<Seq<char>, JsonView>::empty() {
        native == Map::<Seq<char>, JsonView>::empty()
    } else {
        native == Map::<Seq<char>, JsonView>::empty().insert(name, JsonView::Object(extra))
    }
}

// ---------------------------------------------------------------------------
// Chat
// ---------------------------------------------------------------------------

/// A chat request gives every message in its place: its role by the word for it, its
/// text, the call that it answers, and its calls in their order with what their arguments
/// hold.
pub proof fn chat_request_says_every_message(req: openai_completions::ChatRequestView, i: int)
    requires
        0 <= i < req.messages.len(),
    ensures
        ({
            let given = req.messages[i];
            let m = openai_completions::request_in(req).messages[i];
            &&& openai_completions::request_in(req).messages.len() == req.messages.len()
            &&& m.role == (if given.role == "system"@ {
                Role::System
            } else if given.role == "assistant"@ {
                Role::Assistant
            } else if given.role == "tool"@ {
                Role::Tool
            } else {
                Role::User
            })
            &&& given.content is None ==> m.content.len() == 0
            &&& given.content matches Some(openai_completions::ChatContentView::Text(s))
                ==> m.content == s
            &&& m.tool_call_id == given.tool_call_id
            &&& m.tool_is_error == given.is_error
            &&& m.tool_calls.len() == given.tool_calls.len()
            &&& forall|j: int|
                0 <= j < given.tool_calls.len() ==> {
                    let c = #[trigger] m.tool_calls[j];
                    &&& c.id == given.tool_calls[j].id
                    &&& c.name == given.tool_calls[j].name
                    &&& are_read(c.arguments, given.tool_calls[j].arguments)
                }
        }),
{
    words_differ();
}

/// A message in parts says the texts of its text parts, each on a line of its own:
/// nothing for no parts, and one more line for one more text.
pub proof fn chat_parts_make_the_text(
    req: openai_completions::ChatRequestView,
    i: int,
    parts: Seq<openai_completions::ContentPartView>,
    p: openai_completions::ContentPartView,
)
    requires
        0 <= i < req.messages.len(),
        req.messages[i].content == Some(openai_completions::ChatContentView::Parts(parts)),
    ensures
        ({
            let given = req.messages[i];
            let more = openai_completions::ChatRequestView {
                messages: req.messages.update(
                    i,
                    openai_completions::ChatMessageView {
                        content: Some(
                            openai_completions::ChatContentView::Parts(parts.push(p)),
                        ),
                        ..given
                    },
                ),
                ..req
            };
            let before = openai_completions::request_in(req).messages[i].content;
            let after = openai_completions::request_in(more).messages[i].content;
            let said = exists|j: int|
                0 <= j < parts.len() && (#[trigger] parts[j]).kind == "text"@ && parts[j].text is Some;
            &&& parts.len() == 0 ==> before.len() == 0
            &&& after == (if p.kind == "text"@ && p.text is Some {
                next_line(
                    if said {
                        Some(before)
                    } else {
                        None
                    },
                    p.text->0,
                )
            } else {
                before
            })
        }),
{
    let f = openai_completions::part_text();
    picked_texts_grow(parts, p, f, "\n"@);
    if parts.len() == 0 {
        assert(parts =~= Seq::empty());
    }
    if exists|j: int| 0 <= j < parts.len() && f(#[trigger] parts[j]) is Some {
        let j = choose|j: int| 0 <= j < parts.len() && f(#[trigger] parts[j]) is Some;
        assert(parts[j].kind == "text"@ && parts[j].text is Some);
    }
    if exists|j: int|
        0 <= j < parts.len() && (#[trigger] parts[j]).kind == "text"@ && parts[j].text is Some {
        let j = choose|j: int|
            0 <= j < parts.len() && (#[trigger] parts[j]).kind == "text"@ && parts[j].text is Some;
        assert(f(parts[j]) is Some);
    }
}

/// One more function of a chat request is one more tool, with its name, its description
/// and its parameters; what is no function is no tool.
pub proof fn chat_request_has_every_tool(
    req: openai_completions::ChatRequestView,
    t: openai_completions::ChatToolView,
)
    ensures
        ({
            let more = openai_completions::ChatRequestView { tools: req.tools.push(t), ..req };
            let before = openai_completions::request_in(req).tools;
            let after = openai_completions::request_in(more).tools;
            &&& req.tools.len() == 0 ==> before.len() == 0
            &&& t.kind != "function"@ ==> after == before
            &&& t.kind == "function"@ ==> {
                &&& after.len() == before.len() + 1
                &&& after.drop_last() == before
                &&& after.last().name == t.name
                &&& after.last().description == t.description
                &&& after.last().parameters == t.parameters
            }
        }),
{
    let f = openai_completions::tool_in();
    picks_grow(req.tools, t, f);
    if t.kind == "function"@ {
        assert(req.tools.filter_map(f).push(f(t)->0).drop_last() =~= req.tools.filter_map(f));
    }
}

/// A chat request gives every setting as it stands.
pub proof fn chat_request_has_every_setting(req: openai_completions::ChatRequestView)
    ensures
        ({
            let ir = openai_completions::request_in(req);
            &&& ir.max_tokens == req.max_tokens
            &&& ir.temperature == req.temperature
            &&& ir.top_p == req.top_p
            &&& ir.stop == req.stop
            &&& ir.api_key == req.api_key
            &&& ir.tool_choice == req.tool_choice
            &&& ir.parallel_tool_calls == req.parallel_tool_calls
            &&& ir.stream == req.stream
            &&& ir.metadata == req.metadata
            &&& ir.session_id is None
            &&& ir.system is None
            &&& keeps_under(ir.native, "openai-completions"@, req.extra)
            &&& ir.thinking is Some <==> req.reasoning is Some
            &&& req.reasoning matches Some(word) ==> {
                let t = ir.thinking->0;
                &&& t.budget_tokens is None
                &&& !t.summary
                &&& is_effort_of_word(t.effort, word)
            }
        }),
{
    words_differ();
}

/// Whether an effort is the one that a word asks for; where no word is known, the model
/// decides.
pub open spec fn is_effort_of_word(effort: ThinkingEffort, word: Option<Seq<char>>) -> bool {
    match word {
        Some(w) => {
            &&& w == "none"@ || w == "disabled"@ <==> effort is Disabled
            &&& w == "minimal"@ || w == "low"@ <==> effort is Low
            &&& w == "medium"@ <==> effort is Medium
            &&& w == "high"@ <==> effort is High
            &&& w == "xhigh"@ || w == "max"@ || w == "ultra"@ <==> effort is Max
        },
        None => effort is Adaptive,
    }
}

// ---------------------------------------------------------------------------
// Anthropic
// ---------------------------------------------------------------------------

/// An Anthropic request gives its messages one after another: those of a further message
/// come after those of the others, and are those that it gives alone. A text is a message
/// of the assistant, if its role says so, or else of the user.
pub proof fn anthropic_request_says_every_message(
    req: anthropic_messages::MessagesRequestView,
    m: anthropic_messages::InMessageView,
)
    ensures
        ({
            let more = anthropic_messages::MessagesRequestView {
                messages: req.messages.push(m),
                ..req
            };
            let alone = anthropic_messages::MessagesRequestView {
                messages: seq![m],
                system: None,
                ..req
            };
            let one = anthropic_messages::request_in(alone).messages;
            &&& anthropic_messages::request_in(more).messages
                == anthropic_messages::request_in(req).messages + one
            &&& one.len() > 0
            &&& m.content matches anthropic_messages::ContentView::Text(s) ==> one.len() == 1
                && is_plain(
                one[0],
                if m.role == "assistant"@ {
                    Role::Assistant
                } else {
                    Role::User
                },
                s,
            )
        }),
{
    let messages = req.messages.push(m);
    assert(messages.drop_last() =~= req.messages);
    let alone = anthropic_messages::MessagesRequestView {
        messages: seq![m],
        system: None,
        ..req
    };
    anthropic_alone(req, m);
    let start = anthropic_messages::system_messages(req.system);
    assert(start + (anthropic_messages::messages_in(req.messages) + anthropic_messages::message_in(
        m,
    )) =~= (start + anthropic_messages::messages_in(req.messages))
        + anthropic_messages::message_in(m));
}

proof fn anthropic_alone(
    req: anthropic_messages::MessagesRequestView,
    m: anthropic_messages::InMessageView,
)
    ensures
        anthropic_messages::request_in(
            anthropic_messages::MessagesRequestView { messages: seq![m], system: None, ..req },
        ).messages == anthropic_messages::message_in(m),
{
    assert(seq![m].drop_last() =~= Seq::empty());
    reveal_with_fuel(anthropic_messages::messages_in, 2);
    let one = anthropic_messages::message_in(m);
    assert(Seq::<MessageView>::empty() + (Seq::<MessageView>::empty() + one) =~= one);
}

/// Whether one of some blocks is of a kind.
pub open spec fn has_kind(blocks: Seq<anthropic_messages::BlockView>, kind: Seq<char>) -> bool {
    exists|j: int| 0 <= j < blocks.len() && (#[trigger] blocks[j]).kind == kind
}

/// Whether one of some blocks holds text.
pub open spec fn has_text_block(blocks: Seq<anthropic_messages::BlockView>) -> bool {
    exists|j: int|
        0 <= j < blocks.len() && (#[trigger] blocks[j]).kind == "text"@ && blocks[j].text is Some
}

/// A message in blocks, one block after another. Without results it is one message: a
/// text is one more line of it, and a call is one more call, which makes it a message of
/// the assistant. Each result is a message of its own, and then only those count.
pub proof fn anthropic_blocks_make_the_message(
    req: anthropic_messages::MessagesRequestView,
    role: Seq<char>,
    blocks: Seq<anthropic_messages::BlockView>,
    b: anthropic_messages::BlockView,
)
    ensures
        ({
            let few = anthropic_messages::request_in(
                anthropic_messages::MessagesRequestView {
                    messages: seq![
                        anthropic_messages::InMessageView {
                            role,
                            content: anthropic_messages::ContentView::Blocks(blocks),
                        },
                    ],
                    system: None,
                    ..req
                },
            ).messages;
            let more = anthropic_messages::request_in(
                anthropic_messages::MessagesRequestView {
                    messages: seq![
                        anthropic_messages::InMessageView {
                            role,
                            content: anthropic_messages::ContentView::Blocks(blocks.push(b)),
                        },
                    ],
                    system: None,
                    ..req
                },
            ).messages;
            &&& blocks.len() == 0 ==> few.len() == 1 && is_plain(
                few[0],
                if role == "assistant"@ {
                    Role::Assistant
                } else {
                    Role::User
                },
                Seq::empty(),
            )
            &&& b.kind == "tool_result"@ ==> {
                let r = more.last();
                &&& more.len() > 0
                &&& more.drop_last() == (if has_kind(blocks, "tool_result"@) {
                    few
                } else {
                    Seq::empty()
                })
                &&& r.role is Tool
                &&& r.tool_is_error == b.is_error
                &&& r.tool_calls.len() == 0
                &&& r.tool_call_id is Some
                &&& b.tool_use_id is Some ==> r.tool_call_id == b.tool_use_id
                &&& b.content matches Some(JsonView::Str(s)) ==> r.content == s
                &&& b.content is None ==> r.content.len() == 0
            }
            &&& b.kind != "tool_result"@ && has_kind(blocks, "tool_result"@) ==> more == few
            &&& b.kind != "tool_result"@ && !has_kind(blocks, "tool_result"@) ==> {
                &&& few.len() == 1
                &&& more.len() == 1
                &&& more[0].tool_call_id is None
                &&& more[0].tool_is_error is None
                &&& more[0].content == (if b.kind == "text"@ && b.text is Some {
                    next_line(
                        if has_text_block(blocks) {
                            Some(few[0].content)
                        } else {
                            None
                        },
                        b.text->0,
                    )
                } else {
                    few[0].content
                })
                &&& b.kind != "tool_use"@ ==> more[0].tool_calls == few[0].tool_calls
                    && more[0].role == few[0].role
                &&& b.kind == "tool_use"@ ==> {
                    let c = more[0].tool_calls.last();
                    &&& more[0].role is Assistant
                    &&& more[0].tool_calls.len() == few[0].tool_calls.len() + 1
                    &&& more[0].tool_calls.drop_last() == few[0].tool_calls
                    &&& b.id matches Some(id) ==> c.id == id
                    &&& b.name matches Some(name) ==> c.name == name
                    &&& b.input matches Some(input) ==> c.arguments == input
                }
            }
        }),
{
    words_differ();
    reveal_strlit("");
    let few_in = anthropic_messages::InMessageView {
        role,
        content: anthropic_messages::ContentView::Blocks(blocks),
    };
    let more_in = anthropic_messages::InMessageView {
        role,
        content: anthropic_messages::ContentView::Blocks(blocks.push(b)),
    };
    anthropic_alone(req, few_in);
    anthropic_alone(req, more_in);
    let results = anthropic_messages::result_in();
    let calls = anthropic_messages::call_in();
    let texts = anthropic_messages::block_text();
    picks_grow(blocks, b, results);
    picks_grow(blocks, b, calls);
    picked_texts_grow(blocks, b, texts, "\n"@);
    if has_kind(blocks, "tool_result"@) {
        let j = choose|j: int| 0 <= j < blocks.len() && (#[trigger] blocks[j]).kind == "tool_result"@;
        assert(results(blocks[j]) is Some);
        let k = seqs::pick_is_there(blocks, results, j);
    } else {
        seqs::picks_none(blocks, results);
    }
    if has_text_block(blocks) {
        let j = choose|j: int|
            0 <= j < blocks.len() && (#[trigger] blocks[j]).kind == "text"@ && blocks[j].text is Some;
        assert(texts(blocks[j]) is Some);
    }
    if exists|j: int| 0 <= j < blocks.len() && texts(#[trigger] blocks[j]) is Some {
        let j = choose|j: int| 0 <= j < blocks.len() && texts(#[trigger] blocks[j]) is Some;
        assert(blocks[j].kind == "text"@ && blocks[j].text is Some);
    }
    if blocks.len() == 0 {
        assert(blocks =~= Seq::empty());
        seqs::picks_none(blocks, calls);
    }
    if b.kind == "tool_result"@ {
        let all = blocks.filter_map(results);
        assert(all.push(results(b)->0).drop_last() =~= all);
    }
    if b.kind == "tool_use"@ {
        let all = blocks.filter_map(calls);
        assert(all.push(calls(b)->0).drop_last() =~= all);
    }
}

/// A tool result in blocks says the text of each block on a line of its own.
pub proof fn anthropic_result_blocks_make_the_text(blocks: Seq<JsonView>, b: JsonView)
    ensures
        anthropic_messages::result_text(Some(JsonView::Array(Seq::empty()))).len() == 0,
        ({
            let before = anthropic_messages::result_text(Some(JsonView::Array(blocks)));
            let after = anthropic_messages::result_text(Some(JsonView::Array(blocks.push(b))));
            let line = match b {
                JsonView::Str(s) => s,
                _ => match b.at("text"@) {
                    JsonView::Str(s) => s,
                    _ => match b.get("content"@) {
                        Some(content) => json_text(content),
                        None => json_text(b),
                    },
                },
            };
            after == next_line(
                if blocks.len() > 0 {
                    Some(before)
                } else {
                    None
                },
                line,
            )
        }),
{
    let f = anthropic_messages::result_block_text();
    let all = blocks.push(b).map_values(f);
    assert(Seq::<JsonView>::empty().map_values(f) =~= Seq::empty());
    assert(all.drop_last() =~= blocks.map_values(f));
    assert(all.last() == f(b));
    if blocks.len() == 0 {
        assert(all =~= seq![f(b)]);
    }
}

/// The system prompt of an Anthropic request is its first message and its system prompt
/// in the common form; in blocks, each text is one more line of it.
pub proof fn anthropic_request_has_the_system_prompt(
    req: anthropic_messages::MessagesRequestView,
    blocks: Seq<anthropic_messages::SystemBlockView>,
    b: anthropic_messages::SystemBlockView,
)
    ensures
        ({
            let ir = anthropic_messages::request_in(req);
            let rest = anthropic_messages::request_in(
                anthropic_messages::MessagesRequestView { system: None, ..req },
            );
            &&& rest.system is None
            &&& req.system is None ==> ir.messages == rest.messages && ir.system is None
            &&& req.system is Some ==> {
                &&& ir.messages.len() == rest.messages.len() + 1
                &&& ir.messages.drop_first() == rest.messages
                &&& is_plain(ir.messages[0], Role::System, ir.messages[0].content)
                &&& ir.system matches Some(s) ==> ir.messages[0].content == s
            }
            &&& req.system matches Some(anthropic_messages::SystemView::Text(s))
                ==> ir.messages[0].content == s && ir.system == Some(s)
        }),
        ({
            let few = anthropic_messages::request_in(
                anthropic_messages::MessagesRequestView {
                    system: Some(anthropic_messages::SystemView::Structured(blocks)),
                    ..req
                },
            );
            let more = anthropic_messages::request_in(
                anthropic_messages::MessagesRequestView {
                    system: Some(anthropic_messages::SystemView::Structured(blocks.push(b))),
                    ..req
                },
            );
            let said = exists|j: int|
                0 <= j < blocks.len() && (#[trigger] blocks[j]).kind == "text"@;
            &&& blocks.len() == 0 ==> few.messages[0].content.len() == 0 && few.system is None
            &&& few.messages[0].content.len() > 0 ==> few.system == Some(few.messages[0].content)
            &&& more.messages[0].content == (if b.kind == "text"@ {
                next_line(
                    if said {
                        Some(few.messages[0].content)
                    } else {
                        None
                    },
                    b.text,
                )
            } else {
                few.messages[0].content
            })
        }),
{
    let ir = anthropic_messages::request_in(req);
    let rest = anthropic_messages::request_in(
        anthropic_messages::MessagesRequestView { system: None, ..req },
    );
    let own = anthropic_messages::messages_in(req.messages);
    assert(Seq::<MessageView>::empty() + own =~= own);
    if req.system is Some {
        assert(ir.messages.drop_first() =~= own);
    }
    let f = anthropic_messages::system_block_text();
    picked_texts_grow(blocks, b, f, "\n"@);
    if blocks.len() == 0 {
        assert(blocks =~= Seq::empty());
    }
    if exists|j: int| 0 <= j < blocks.len() && f(#[trigger] blocks[j]) is Some {
        let j = choose|j: int| 0 <= j < blocks.len() && f(#[trigger] blocks[j]) is Some;
        assert(blocks[j].kind == "text"@);
    }
    if exists|j: int| 0 <= j < blocks.len() && (#[trigger] blocks[j]).kind == "text"@ {
        let j = choose|j: int| 0 <= j < blocks.len() && (#[trigger] blocks[j]).kind == "text"@;
        assert(f(blocks[j]) is Some);
    }
}

/// An Anthropic request gives every tool in its place, and every setting as it stands.
pub proof fn anthropic_request_has_every_setting(req: anthropic_messages::MessagesRequestView)
    ensures
        ({
            let ir = anthropic_messages::request_in(req);
            &&& ir.tools.len() == req.tools.len()
            &&& forall|i: int|
                0 <= i < req.tools.len() ==> {
                    let t = #[trigger] ir.tools[i];
                    &&& t.name == req.tools[i].name
                    &&& t.parameters == req.tools[i].input_schema
                    &&& req.tools[i].description matches Some(d) ==> t.description == d
                    &&& req.tools[i].description is None ==> t.description.len() == 0
                }
            &&& ir.max_tokens == req.max_tokens
            &&& ir.temperature == req.temperature
            &&& ir.top_p == req.top_p
            &&& ir.stop == req.stop_sequences
            &&& ir.api_key == req.api_key
            &&& ir.tool_choice == req.tool_choice
            &&& ir.parallel_tool_calls is None
            &&& ir.stream == req.stream
            &&& ir.metadata == req.metadata
            &&& ir.session_id is None
            &&& keeps_under(ir.native, "anthropic-messages"@, req.extra)
            &&& ir.thinking is Some <==> req.thinking is Some
            &&& req.thinking matches Some(v) ==> {
                let t = ir.thinking->0;
                let budget = v.at("budget_tokens"@).as_i64();
                &&& !t.summary
                &&& budget is None ==> t.budget_tokens is None
                &&& budget matches Some(n) ==> i32::MIN <= n <= i32::MAX ==> t.budget_tokens
                    == Some(n as i32)
                &&& v.at("type"@) == JsonView::Str("disabled"@) ==> t.effort is Disabled
                &&& v.at("type"@) == JsonView::Str("adaptive"@) || v.at("type"@) == JsonView::Str(
                    "auto"@,
                ) ==> t.effort is Adaptive
                &&& v.at("type"@) == JsonView::Str("enabled"@) ==> (if budget == Some(0i64) {
                    t.effort is Disabled
                } else {
                    t.effort is High
                })
            }
        }),
{
    words_differ();
}

// ---------------------------------------------------------------------------
// Responses
// ---------------------------------------------------------------------------

/// A request in the responses protocol with one more input item.
pub open spec fn with_more(
    req: openai_responses::ResponsesRequestView,
    items: Seq<openai_responses::InputItemView>,
    item: openai_responses::InputItemView,
) -> openai_responses::ResponsesRequestView {
    openai_responses::ResponsesRequestView {
        input: openai_responses::InputView::Items(items.push(item)),
        ..req
    }
}

/// A request in the responses protocol asks what its input says: after the instructions,
/// if there are any, a text is a message of the user, and no items are no messages.
pub proof fn responses_request_says_the_text(req: openai_responses::ResponsesRequestView)
    ensures
        ({
            let messages = openai_responses::request_in(req).messages;
            let start: int = if req.instructions is Some {
                1
            } else {
                0
            };
            &&& req.instructions matches Some(s) ==> messages.len() > 0 && messages[0].role
                is System && messages[0].content == s
            &&& req.input matches openai_responses::InputView::Text(s) ==> messages.len() == start
                + 1 && is_plain(messages[start], Role::User, s)
            &&& req.input matches openai_responses::InputView::Items(items) ==> items.len() == 0
                ==> messages.len() == start
        }),
{
    let all = openai_responses::messages_in(req.instructions, req.input);
    let begin = match req.instructions {
        Some(s) => seq![protocol::plain_message(Role::System, s)],
        None => Seq::empty(),
    };
    match req.input {
        openai_responses::InputView::Text(s) => {
            assert(all.drop_last() =~= begin);
            assert(begin.len() > 0 ==> begin.drop_last() =~= Seq::empty());
            reveal_with_fuel(openai_responses::deduped, 3);
        },
        openai_responses::InputView::Items(items) => {
            first_message_stays(begin, items);
            if req.instructions is Some {
                first_of_deduped(all);
            }
            if items.len() == 0 {
                assert(all == begin);
                assert(begin.len() > 0 ==> begin.drop_last() =~= Seq::empty());
                reveal_with_fuel(openai_responses::deduped, 2);
            }
        },
    }
}

proof fn first_message_stays(
    begin: Seq<MessageView>,
    items: Seq<openai_responses::InputItemView>,
)
    ensures
        begin.len() > 0 && begin[0].role is System ==> openai_responses::with_items(
            begin,
            items,
        ).len() > 0 && openai_responses::with_items(begin, items)[0] == begin[0],
    decreases items.len(),
{
    if items.len() > 0 {
        first_message_stays(begin, items.drop_last());
    }
}

proof fn first_of_deduped(all: Seq<MessageView>)
    requires
        all.len() > 0,
    ensures
        openai_responses::deduped(all).len() > 0,
        openai_responses::deduped(all)[0] == all[0],
    decreases all.len(),
{
    if all.len() > 1 {
        first_of_deduped(all.drop_last());
    } else {
        assert(all.drop_last() =~= Seq::empty());
        reveal_with_fuel(openai_responses::deduped, 2);
    }
}

/// What was said before is still there once repetitions are left out.
proof fn said_in_deduped(all: Seq<MessageView>, m: MessageView)
    ensures
        openai_responses::said_before(openai_responses::deduped(all), m)
            == openai_responses::said_before(all, m),
{
    let kept = openai_responses::deduped(all);
    openai_responses::deduped_says_everything_once(all);
    if openai_responses::said_before(all, m) {
        let i = choose|i: int|
            0 <= i < all.len() && (#[trigger] all[i]).role == m.role && all[i].content
                == m.content;
        assert(exists|j: int|
            0 <= j < kept.len() && (#[trigger] kept[j]).role == all[i].role && kept[j].content
                == all[i].content);
    }
    if openai_responses::said_before(kept, m) {
        let j = choose|j: int|
            0 <= j < kept.len() && (#[trigger] kept[j]).role == m.role && kept[j].content
                == m.content;
        assert(kept.contains(kept[j]));
        let i = all.index_of(kept[j]);
        assert(all[i].role == m.role && all[i].content == m.content);
    }
}

/// One more message item is one more message, in the role that its word names and with
/// its text. Only context that was said before is left out: instructions of the system,
/// and descriptions of the environment of the user.
pub proof fn responses_request_says_every_message(
    req: openai_responses::ResponsesRequestView,
    items: Seq<openai_responses::InputItemView>,
    word: Seq<char>,
    s: Seq<char>,
)
    requires
        req.input == openai_responses::InputView::Items(items),
    ensures
        ({
            let item = openai_responses::InputItemView::Message {
                role: word,
                content: openai_responses::ContentView::Text(s),
            };
            let before = openai_responses::request_in(req).messages;
            let after = openai_responses::request_in(with_more(req, items, item)).messages;
            let role = if word == "system"@ || word == "developer"@ {
                Role::System
            } else if word == "assistant"@ {
                Role::Assistant
            } else {
                Role::User
            };
            let context = role is System || (role is User && text::starts_with_of(
                text::trim_start_of(s),
                "<environment_context>"@,
            ));
            let repeated = exists|j: int|
                0 <= j < before.len() && (#[trigger] before[j]).role == role && before[j].content
                    == s;
            if context && repeated {
                after == before
            } else {
                &&& after.len() == before.len() + 1
                &&& after.drop_last() == before
                &&& is_plain(after.last(), role, s)
            }
        }),
{
    words_differ();
    let item = openai_responses::InputItemView::Message {
        role: word,
        content: openai_responses::ContentView::Text(s),
    };
    assert(items.push(item).drop_last() =~= items);
    let all = openai_responses::messages_in(req.instructions, req.input);
    let m = protocol::plain_message(openai_responses::role_of_word(word), s);
    let more = openai_responses::messages_in(
        req.instructions,
        openai_responses::InputView::Items(items.push(item)),
    );
    assert(more == all.push(m));
    assert(more.drop_last() =~= all);
    said_in_deduped(all, m);
    let before = openai_responses::deduped(all);
    assert(before.push(m).drop_last() =~= before);
}

/// A message item in blocks says what one in their texts would, each on a line of its
/// own; only blocks of text count.
pub proof fn responses_blocks_make_the_text(
    messages: Seq<MessageView>,
    word: Seq<char>,
    blocks: Seq<openai_responses::BlockView>,
    b: openai_responses::BlockView,
)
    ensures
        ({
            let few = openai_responses::with_item(
                messages,
                openai_responses::InputItemView::Message {
                    role: word,
                    content: openai_responses::ContentView::Blocks(blocks),
                },
            ).last();
            let more = openai_responses::with_item(
                messages,
                openai_responses::InputItemView::Message {
                    role: word,
                    content: openai_responses::ContentView::Blocks(blocks.push(b)),
                },
            ).last();
            let plain = openai_responses::with_item(
                messages,
                openai_responses::InputItemView::Message {
                    role: word,
                    content: openai_responses::ContentView::Text(few.content),
                },
            );
            &&& blocks.len() == 0 ==> few.content.len() == 0
            &&& plain == messages.push(few)
            &&& more.content == (if is_text_block(b) {
                next_line(
                    if exists|j: int|
                        0 <= j < blocks.len() && is_text_block(#[trigger] blocks[j]) {
                        Some(few.content)
                    } else {
                        None
                    },
                    b.text->0,
                )
            } else {
                few.content
            })
        }),
{
    let f = openai_responses::block_text();
    picked_texts_grow(blocks, b, f, "\n"@);
    if blocks.len() == 0 {
        assert(blocks =~= Seq::empty());
    }
    if exists|j: int| 0 <= j < blocks.len() && f(#[trigger] blocks[j]) is Some {
        let j = choose|j: int| 0 <= j < blocks.len() && f(#[trigger] blocks[j]) is Some;
        assert(is_text_block(blocks[j]));
    }
    if exists|j: int| 0 <= j < blocks.len() && is_text_block(#[trigger] blocks[j]) {
        let j = choose|j: int| 0 <= j < blocks.len() && is_text_block(#[trigger] blocks[j]);
        assert(f(blocks[j]) is Some);
    }
}

/// Whether a block of an input item holds text.
pub open spec fn is_text_block(b: openai_responses::BlockView) -> bool {
    b.text is Some && (b.kind == Some("text"@) || b.kind == Some("input_text"@) || b.kind == Some(
        "output_text"@,
    ))
}

/// One more result is one more message of a tool. One more call joins the message of the
/// assistant that it follows at once, or else is a message of its own.
pub proof fn responses_request_makes_every_call(
    req: openai_responses::ResponsesRequestView,
    items: Seq<openai_responses::InputItemView>,
    call_id: Seq<char>,
    name: Seq<char>,
    arguments: Seq<char>,
    output: Seq<char>,
)
    requires
        req.input == openai_responses::InputView::Items(items),
    ensures
        ({
            let before = openai_responses::request_in(req).messages;
            let answered = openai_responses::request_in(
                with_more(
                    req,
                    items,
                    openai_responses::InputItemView::FunctionCallOutput { call_id, output },
                ),
            ).messages;
            &&& answered.len() == before.len() + 1
            &&& answered.drop_last() == before
            &&& answered.last().role is Tool
            &&& answered.last().content == output
            &&& answered.last().tool_call_id == Some(call_id)
            &&& answered.last().tool_is_error is None
            &&& answered.last().tool_calls.len() == 0
        }),
        ({
            let before = openai_responses::request_in(req).messages;
            let called = openai_responses::request_in(
                with_more(
                    req,
                    items,
                    openai_responses::InputItemView::FunctionCall { call_id, name, arguments },
                ),
            ).messages;
            let call = called.last().tool_calls.last();
            let joins = items.len() > 0 && (match items.last() {
                openai_responses::InputItemView::Message { role, .. } => role == "assistant"@,
                openai_responses::InputItemView::FunctionCall { .. } => true,
                openai_responses::InputItemView::FunctionCallOutput { .. } => false,
            });
            &&& called.len() > 0
            &&& called.last().role is Assistant
            &&& called.last().tool_calls.len() > 0
            &&& call.id == call_id
            &&& call.name == name
            &&& are_read(call.arguments, arguments)
            &&& joins ==> {
                &&& called.len() == before.len()
                &&& called.drop_last() == before.drop_last()
                &&& called.last().content == before.last().content
                &&& called.last().tool_calls.drop_last() == before.last().tool_calls
            }
            &&& !joins ==> {
                &&& called.len() == before.len() + 1
                &&& called.drop_last() == before
                &&& called.last().content.len() == 0
                &&& called.last().tool_calls.len() == 1
            }
        }),
{
    words_differ();
    reveal_strlit("developer");
    assert("developer"@[0] == 'd');
    let begin = match req.instructions {
        Some(s) => seq![protocol::plain_message(Role::System, s)],
        None => Seq::empty(),
    };
    let all = openai_responses::messages_in(req.instructions, req.input);
    let kept = openai_responses::deduped(all);
    let result = openai_responses::InputItemView::FunctionCallOutput { call_id, output };
    let function = openai_responses::InputItemView::FunctionCall { call_id, name, arguments };
    assert(items.push(result).drop_last() =~= items);
    assert(items.push(function).drop_last() =~= items);
    let answered = openai_responses::with_item(all, result);
    assert(answered.drop_last() =~= all);
    assert(openai_responses::deduped(answered) =~= kept.push(answered.last()));
    assert(kept.push(answered.last()).drop_last() =~= kept);
    let called = openai_responses::with_item(all, function);
    if items.len() > 0 {
        let rest = openai_responses::with_items(begin, items.drop_last());
        assert(all == openai_responses::with_item(rest, items.last()));
    }
    if all.len() > 0 && all.last().role is Assistant {
        let rest = openai_responses::deduped(all.drop_last());
        assert(kept =~= rest.push(all.last()));
        assert(called.drop_last() =~= all.drop_last());
        assert(openai_responses::deduped(called) =~= rest.push(called.last()));
        assert(rest.push(called.last()).drop_last() =~= rest);
        assert(kept.drop_last() =~= rest);
        assert(called.last().tool_calls.drop_last() =~= all.last().tool_calls);
    } else {
        assert(called.drop_last() =~= all);
        assert(openai_responses::deduped(called) =~= kept.push(called.last()));
        assert(kept.push(called.last()).drop_last() =~= kept);
    }
}

/// One more function with a name is one more tool, with its description and its
/// parameters, which may stand in an inner object or under another name; what is no
/// function is no tool.
pub proof fn responses_request_has_every_tool(
    req: openai_responses::ResponsesRequestView,
    t: openai_responses::InToolView,
)
    ensures
        ({
            let more = openai_responses::ResponsesRequestView { tools: req.tools.push(t), ..req };
            let before = openai_responses::request_in(req).tools;
            let after = openai_responses::request_in(more).tools;
            let name = match t.function {
                Some(f) => f.name,
                None => t.name,
            };
            &&& req.tools.len() == 0 ==> before.len() == 0
            &&& t.kind != "function"@ || name.len() == 0 ==> after == before
            &&& t.kind == "function"@ && name.len() > 0 ==> {
                &&& after.len() == before.len() + 1
                &&& after.drop_last() == before
                &&& after.last().name == name
                &&& t.function matches Some(f) ==> after.last().description == f.description
                    && after.last().parameters == f.parameters
                &&& t.function is None ==> after.last().description == t.description
                    && after.last().parameters == (if t.parameters is Null {
                    t.input_schema
                } else {
                    t.parameters
                })
            }
        }),
{
    let f = openai_responses::tool_in();
    picks_grow(req.tools, t, f);
    if f(t) is Some {
        assert(req.tools.filter_map(f).push(f(t)->0).drop_last() =~= req.tools.filter_map(f));
    }
}

/// A request in the responses protocol gives every setting as it stands; the response
/// that it follows is its session.
pub proof fn responses_request_has_every_setting(req: openai_responses::ResponsesRequestView)
    ensures
        ({
            let ir = openai_responses::request_in(req);
            &&& ir.max_tokens == req.max_output_tokens
            &&& ir.temperature == req.temperature
            &&& ir.top_p == req.top_p
            &&& ir.stop.len() == 0
            &&& ir.api_key == req.api_key
            &&& ir.tool_choice == req.tool_choice
            &&& ir.parallel_tool_calls == req.parallel_tool_calls
            &&& ir.stream == req.stream
            &&& ir.metadata == req.metadata
            &&& ir.session_id == req.previous_response_id
            &&& ir.system == req.instructions
            &&& keeps_under(ir.native, "openai-responses"@, req.extra)
            &&& ir.thinking is Some <==> req.reasoning is Some
            &&& req.reasoning matches Some(r) ==> {
                let t = ir.thinking->0;
                &&& t.budget_tokens is None
                &&& is_effort_of_word(t.effort, r.effort)
                &&& t.summary == (match r.summary {
                    None => false,
                    Some(JsonView::Null) => false,
                    Some(JsonView::Bool(b)) => b,
                    Some(JsonView::Str(s)) => !(s == "none"@ || s == "off"@ || s == "disabled"@),
                    Some(_) => true,
                })
            }
        }),
{
    words_differ();
}

// ---------------------------------------------------------------------------
// Requests that are refused
// ---------------------------------------------------------------------------

/// Whether a temperature is one that is allowed: unset, or from zero to two.
pub open spec fn is_temperate(temperature: Option<SingleView>) -> bool {
    temperature matches Some(t) ==> t.bits <= 0x4000_0000 || t.bits == 0x8000_0000
}

/// A request without messages, without room for an answer or with a temperature that is
/// not from zero to two is refused, and says so; no other is. A request in the responses
/// protocol needs no messages, and one in Gemini's may leave its settings out.
pub proof fn bad_requests_are_refused(
    n: nat,
    max_tokens: u32,
    temperature: Option<SingleView>,
    req: google_genai::GenAiRequestView,
)
    ensures
        protocol::fault_of(n, max_tokens, temperature) is None <==> n > 0 && max_tokens > 0
            && is_temperate(temperature),
        n == 0 ==> protocol::fault_of(n, max_tokens, temperature) == Some(
            "messages must not be empty"@,
        ),
        n > 0 && max_tokens == 0 ==> protocol::fault_of(n, max_tokens, temperature) == Some(
            "max_tokens must be > 0"@,
        ),
        n > 0 && max_tokens > 0 && !is_temperate(temperature) ==> protocol::fault_of(
            n,
            max_tokens,
            temperature,
        ) == Some("temperature must be 0.0..=2.0, got "@ + temperature->0.text),
        openai_responses::fault_of(max_tokens, temperature) is None <==> max_tokens > 0
            && is_temperate(temperature),
        max_tokens == 0 ==> openai_responses::fault_of(max_tokens, temperature) == Some(
            "max_output_tokens must be > 0"@,
        ),
        google_genai::fault_of(req) is None <==> req.contents.len() > 0 && (
        req.generation_config matches Some(c) ==> c.max_output_tokens > 0 && is_temperate(
            c.temperature,
        )),
        req.contents.len() == 0 ==> google_genai::fault_of(req) == Some(
            "contents must not be empty"@,
        ),
{
}

} // verus!
