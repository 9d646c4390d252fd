//! What a worker is told, in each protocol: every message of a conversation in its place
//! with its text, every tool, and every setting, under the names of the protocol.

use vstd::prelude::*;

use crate::json::{int_view, json_text, JsonView};
use crate::protocol;
use crate::protocol::anthropic_messages;
use crate::protocol::openai_completions;
use crate::protocol::openai_responses;
use crate::protocol::words::words_differ;
use crate::protocol::{MessageView, RequestView, Role, ThinkingEffort};
use crate::seqs;
use crate::text;

verus! {

// ---------------------------------------------------------------------------
// Shared
// ---------------------------------------------------------------------------

/// How many of some messages are not from the system.
pub open spec fn spoken(messages: Seq<MessageView>) -> nat
    decreases messages.len(),
{
    if messages.len() == 0 {
        0
    } else if messages.last().role is System {
        spoken(messages.drop_last())
    } else {
        spoken(messages.drop_last()) + 1
    }
}

/// How many elements an array has; none, if it is no array.
pub open spec fn count(v: JsonView) -> nat {
    match v {
        JsonView::Array(items) => items.len(),
        _ => 0,
    }
}

/// Whether an array holds some texts, in their order, and nothing else.
pub open spec fn holds_texts(v: JsonView, texts: Seq<Seq<char>>) -> bool {
    &&& v is Array
    &&& count(v) == texts.len()
    &&& forall|i: int| 0 <= i < texts.len() ==> #[trigger] v.item(i) == JsonView::Str(texts[i])
}

/// The members of a body stay when kept fields join it; where none are kept, the body is
/// as it is.
pub proof fn members_stay(
    b: Map<Seq<char>, JsonView>,
    native: Map<Seq<char>, JsonView>,
    k: Seq<char>,
    body: JsonView,
)
    requires
        body == JsonView::Object(protocol::with_native(b, native, k)),
    ensures
        forall|name: Seq<char>| #[trigger]
            b.dom().contains(name) ==> body.get(name) == Some(b[name]) && body.at(name) == b[name],
        native == Map::<Seq<char>, JsonView>::empty() ==> body == JsonView::Object(b),
{
    assert forall|name: Seq<char>| #[trigger] b.dom().contains(name) implies body.get(name)
        == Some(b[name]) && body.at(name) == b[name] by {
        protocol::native_fields_do_not_override(b, native, k, name);
    }
}

/// Where the messages that are not from the system stand among those that are picked.
proof fn picks_stand(
    messages: Seq<MessageView>,
    f: spec_fn(MessageView) -> Option<JsonView>,
    i: int,
)
    requires
        forall|m: MessageView| #[trigger] f(m) is None <==> m.role is System,
        0 <= i < messages.len(),
        !(messages[i].role is System),
    ensures
        spoken(messages.take(i)) < messages.filter_map(f).len(),
        messages.filter_map(f)[spoken(messages.take(i)) as int] == f(messages[i])->0,
    decreases messages.len(),
{
    let rest = messages.drop_last();
    picks_count(rest, f);
    assert(messages.take(i) =~= rest.take(i));
    if i < rest.len() {
        picks_stand(rest, f, i);
    } else {
        assert(rest.take(i) =~= rest);
        assert(f(messages.last()) is Some);
    }
}

proof fn picks_count(messages: Seq<MessageView>, f: spec_fn(MessageView) -> Option<JsonView>)
    requires
        forall|m: MessageView| #[trigger] f(m) is None <==> m.role is System,
    ensures
        messages.filter_map(f).len() == spoken(messages),
    decreases messages.len(),
{
    if messages.len() > 0 {
        picks_count(messages.drop_last(), f);
        assert(f(messages.last()) is None <==> messages.last().role is System);
    }
}

// ---------------------------------------------------------------------------
// Chat
// ---------------------------------------------------------------------------

/// A chat body shows every message in its place, under the word for its role, with its
/// text; an assistant that only calls tools says null.
pub proof fn chat_body_says_every_message(ir: RequestView, model: Seq<char>, i: int)
    requires
        0 <= i < ir.messages.len(),
    ensures
        ({
            let m = ir.messages[i];
            let shown = openai_completions::worker_body(ir, model).at("messages"@);
            let calls = shown.item(i).at("tool_calls"@);
            &&& count(shown) == ir.messages.len()
            &&& shown.item(i).at("role"@) == JsonView::Str(
                match m.role {
                    Role::System => "system"@,
                    Role::User => "user"@,
                    Role::Assistant => "assistant"@,
                    Role::Tool => "tool"@,
                },
            )
            &&& shown.item(i).get("content"@) == Some(
                if m.role is Assistant && m.tool_calls.len() > 0 && m.content.len() == 0 {
                    JsonView::Null
                } else {
                    JsonView::Str(m.content)
                },
            )
            &&& m.role is Tool ==> shown.item(i).at("tool_call_id"@).as_str() == m.tool_call_id
                && shown.item(i).at("is_error"@).as_bool() == m.tool_is_error
            &&& count(calls) == (if m.role is Assistant {
                m.tool_calls.len()
            } else {
                0
            })
            &&& m.role is Assistant ==> forall|j: int|
                0 <= j < m.tool_calls.len() ==> {
                    let c = #[trigger] calls.item(j);
                    &&& c.at("type"@) == JsonView::Str("function"@)
                    &&& c.at("id"@) == JsonView::Str(m.tool_calls[j].id)
                    &&& c.at("function"@).at("name"@) == JsonView::Str(m.tool_calls[j].name)
                    &&& c.at("function"@).at("arguments"@) == JsonView::Str(
                        json_text(m.tool_calls[j].arguments),
                    )
                }
        }),
{
    words_differ();
    let body = openai_completions::worker_body(ir, model);
    let b = openai_completions::body_members(ir, model);
    members_stay(b, ir.native, protocol::NATIVE_OPENAI_CHAT@, body);
    assert(b.dom().contains("messages"@));
    let m = ir.messages[i];
    let shown = body.at("messages"@).item(i);
    assert(shown == openai_completions::body_message()(m));
    if m.role is Assistant && m.tool_calls.len() > 0 {
        assert(shown.at("tool_calls"@) == JsonView::Array(
            m.tool_calls.map_values(openai_completions::body_call()),
        ));
        assert forall|j: int| 0 <= j < m.tool_calls.len() implies #[trigger] shown.at(
            "tool_calls"@,
        ).item(j) == openai_completions::body_call()(m.tool_calls[j]) by {}
    }
}

/// A chat body declares every tool in its place, as a function with its name, its
/// description and its parameters, and no other tool.
pub proof fn chat_body_declares_every_tool(ir: RequestView, model: Seq<char>, i: int)
    requires
        0 <= i < ir.tools.len(),
    ensures
        ({
            let tools = openai_completions::worker_body(ir, model).at("tools"@);
            let function = tools.item(i).at("function"@);
            &&& count(tools) == ir.tools.len()
            &&& tools.item(i).at("type"@) == JsonView::Str("function"@)
            &&& function.at("name"@) == JsonView::Str(ir.tools[i].name)
            &&& function.at("description"@) == JsonView::Str(ir.tools[i].description)
            &&& function.at("parameters"@) == ir.tools[i].parameters
        }),
{
    words_differ();
    let body = openai_completions::worker_body(ir, model);
    let b = openai_completions::body_members(ir, model);
    members_stay(b, ir.native, protocol::NATIVE_OPENAI_CHAT@, body);
    assert(b.dom().contains("tools"@));
    assert(body.at("tools"@).item(i) == openai_completions::body_tool()(ir.tools[i]));
}

/// A chat body holds every setting of the request under its name, and those that are not
/// set only where a field was kept for them.
pub proof fn chat_body_holds_every_setting(ir: RequestView, model: Seq<char>)
    ensures
        ({
            let body = openai_completions::worker_body(ir, model);
            &&& body.at("model"@) == JsonView::Str(model)
            &&& body.at("max_tokens"@) == int_view(ir.max_tokens as int)
            &&& ir.temperature matches Some(t) ==> body.at("temperature"@) == t.json
            &&& ir.top_p matches Some(p) ==> body.at("top_p"@) == p.json
            &&& ir.stop.len() > 0 ==> holds_texts(body.at("stop"@), ir.stop)
            &&& ir.tool_choice matches Some(c) ==> body.at("tool_choice"@) == c
            &&& ir.parallel_tool_calls matches Some(p) ==> body.at("parallel_tool_calls"@)
                == JsonView::Bool(p)
            &&& ir.metadata != Map::<Seq<char>, JsonView>::empty() ==> body.at("metadata"@)
                == JsonView::Object(ir.metadata)
            &&& ir.stream ==> body.at("stream"@) == JsonView::Bool(true)
            &&& ir.thinking matches Some(t) ==> body.at("reasoning"@).at("effort"@)
                == JsonView::Str(
                match t.effort {
                    ThinkingEffort::Disabled => "none"@,
                    ThinkingEffort::Low => "low"@,
                    ThinkingEffort::Medium => "medium"@,
                    ThinkingEffort::High => "high"@,
                    ThinkingEffort::Max => "xhigh"@,
                    ThinkingEffort::Adaptive => "medium"@,
                },
            )
            &&& ir.native == Map::<Seq<char>, JsonView>::empty() ==> {
                &&& body.get("temperature"@) is Some <==> ir.temperature is Some
                &&& body.get("top_p"@) is Some <==> ir.top_p is Some
                &&& body.get("stop"@) is Some <==> ir.stop.len() > 0
                &&& body.get("tools"@) is Some <==> ir.tools.len() > 0
                &&& body.get("tool_choice"@) is Some <==> ir.tool_choice is Some
                &&& body.get("parallel_tool_calls"@) is Some <==> ir.parallel_tool_calls is Some
                &&& body.get("metadata"@) is Some <==> ir.metadata != Map::<
                    Seq<char>,
                    JsonView,
                >::empty()
                &&& body.get("stream"@) is Some <==> ir.stream
                &&& body.get("reasoning"@) is Some <==> ir.thinking is Some
            }
        }),
{
    words_differ();
    let body = openai_completions::worker_body(ir, model);
    let b = openai_completions::body_members(ir, model);
    members_stay(b, ir.native, protocol::NATIVE_OPENAI_CHAT@, body);
    assert(b.dom().contains("model"@) && b.dom().contains("max_tokens"@));
    assert(b.dom().contains("temperature"@) <==> ir.temperature is Some);
    assert(b.dom().contains("top_p"@) <==> ir.top_p is Some);
    assert(b.dom().contains("stop"@) <==> ir.stop.len() > 0);
    assert(b.dom().contains("tools"@) <==> ir.tools.len() > 0);
    assert(b.dom().contains("tool_choice"@) <==> ir.tool_choice is Some);
    assert(b.dom().contains("parallel_tool_calls"@) <==> ir.parallel_tool_calls is Some);
    assert(b.dom().contains("metadata"@) <==> ir.metadata != Map::<Seq<char>, JsonView>::empty());
    assert(b.dom().contains("stream"@) <==> ir.stream);
    assert(b.dom().contains("reasoning"@) <==> ir.thinking is Some);
}

// ---------------------------------------------------------------------------
// Anthropic
// ---------------------------------------------------------------------------

/// An Anthropic body shows every message that is not from the system in its place: what
/// the user and the assistant say with their text, calls as blocks after the text, and
/// each result as the block of a message of the user.
pub proof fn anthropic_body_says_every_message(ir: RequestView, model: Seq<char>, i: int)
    requires
        0 <= i < ir.messages.len(),
        !(ir.messages[i].role is System),
    ensures
        ({
            let m = ir.messages[i];
            let all = anthropic_messages::worker_body(ir, model).at("messages"@);
            let shown = all.item(spoken(ir.messages.take(i)) as int);
            let content = shown.at("content"@);
            let lead: int = if m.content.len() > 0 {
                1
            } else {
                0
            };
            &&& count(all) == spoken(ir.messages)
            &&& shown.at("role"@) == JsonView::Str(
                if m.role is Assistant {
                    "assistant"@
                } else {
                    "user"@
                },
            )
            &&& m.role is User || (m.role is Assistant && m.tool_calls.len() == 0) ==> content
                == JsonView::Str(m.content)
            &&& m.role is Tool ==> {
                &&& count(content) == 1
                &&& content.item(0).at("type"@) == JsonView::Str("tool_result"@)
                &&& content.item(0).at("content"@) == JsonView::Str(m.content)
                &&& m.tool_call_id matches Some(id) ==> content.item(0).at("tool_use_id"@)
                    == JsonView::Str(id)
                &&& content.item(0).at("is_error"@).as_bool() == m.tool_is_error
            }
            &&& m.role is Assistant && m.tool_calls.len() > 0 ==> {
                &&& count(content) == lead + m.tool_calls.len()
                &&& m.content.len() > 0 ==> content.item(0).at("type"@) == JsonView::Str("text"@)
                    && content.item(0).at("text"@) == JsonView::Str(m.content)
                &&& forall|j: int|
                    lead <= j < lead + m.tool_calls.len() ==> {
                        let c = #[trigger] content.item(j);
                        &&& c.at("type"@) == JsonView::Str("tool_use"@)
                        &&& c.at("id"@) == JsonView::Str(m.tool_calls[j - lead].id)
                        &&& c.at("name"@) == JsonView::Str(m.tool_calls[j - lead].name)
                        &&& c.at("input"@) == m.tool_calls[j - lead].arguments
                    }
            }
        }),
{
    words_differ();
    let body = anthropic_messages::worker_body(ir, model);
    let b = anthropic_messages::body_members(ir, model);
    members_stay(b, ir.native, protocol::NATIVE_ANTHROPIC@, body);
    assert(b.dom().contains("messages"@));
    let f = anthropic_messages::body_message();
    picks_stand(ir.messages, f, i);
    picks_count(ir.messages, f);
    let m = ir.messages[i];
    let k = spoken(ir.messages.take(i)) as int;
    let shown = body.at("messages"@).item(k);
    assert(shown == f(m)->0);
    if m.role is Tool {
        assert(shown.at("content"@).item(0) == anthropic_messages::body_result(m));
    }
    if m.role is Assistant && m.tool_calls.len() > 0 {
        let lead = anthropic_messages::body_text(m.content);
        let content = shown.at("content"@);
        assert(content == JsonView::Array(
            lead + m.tool_calls.map_values(anthropic_messages::body_call()),
        ));
        assert forall|j: int|
            lead.len() <= j < lead.len() + m.tool_calls.len() implies #[trigger] content.item(j)
            == anthropic_messages::body_call()(m.tool_calls[j - lead.len()]) by {}
        if m.content.len() > 0 {
            assert(content.item(0) == lead[0]);
        }
    }
}

/// An Anthropic body declares every tool in its place, with its name, its description and
/// its parameters, and no other tool.
pub proof fn anthropic_body_declares_every_tool(ir: RequestView, model: Seq<char>, i: int)
    requires
        0 <= i < ir.tools.len(),
    ensures
        ({
            let tools = anthropic_messages::worker_body(ir, model).at("tools"@);
            &&& count(tools) == ir.tools.len()
            &&& tools.item(i).at("name"@) == JsonView::Str(ir.tools[i].name)
            &&& tools.item(i).at("description"@) == JsonView::Str(ir.tools[i].description)
            &&& tools.item(i).at("input_schema"@) == ir.tools[i].parameters
        }),
{
    words_differ();
    let body = anthropic_messages::worker_body(ir, model);
    let b = anthropic_messages::body_members(ir, model);
    members_stay(b, ir.native, protocol::NATIVE_ANTHROPIC@, body);
    assert(b.dom().contains("tools"@));
    assert(body.at("tools"@).item(i) == anthropic_messages::body_tool()(ir.tools[i]));
}

/// An Anthropic body holds every setting of the request under its name, and those that
/// are not set only where a field was kept for them.
pub proof fn anthropic_body_holds_every_setting(ir: RequestView, model: Seq<char>)
    ensures
        ({
            let body = anthropic_messages::worker_body(ir, model);
            &&& body.at("model"@) == JsonView::Str(model)
            &&& body.at("max_tokens"@) == int_view(ir.max_tokens as int)
            &&& ir.temperature matches Some(t) ==> body.at("temperature"@) == t.json
            &&& ir.top_p matches Some(p) ==> body.at("top_p"@) == p.json
            &&& ir.stop.len() > 0 ==> holds_texts(body.at("stop_sequences"@), ir.stop)
            &&& ir.metadata != Map::<Seq<char>, JsonView>::empty() ==> body.at("metadata"@)
                == JsonView::Object(ir.metadata)
            &&& ir.stream ==> body.at("stream"@) == JsonView::Bool(true)
            &&& ir.thinking matches Some(t) ==> {
                &&& body.at("thinking"@).at("type"@) == JsonView::Str(
                    match t.effort {
                        ThinkingEffort::Disabled => "disabled"@,
                        ThinkingEffort::Adaptive => "adaptive"@,
                        _ => "enabled"@,
                    },
                )
                &&& body.at("thinking"@).get("budget_tokens"@) == (match t.effort {
                    ThinkingEffort::Disabled => None,
                    ThinkingEffort::Adaptive => None,
                    _ => Some(
                        match t.budget_tokens {
                            Some(n) => int_view(n as int),
                            None => int_view(-1),
                        },
                    ),
                })
                &&& t.effort is Adaptive ==> body.at("output_config"@).at("effort"@)
                    == JsonView::Str("adaptive"@)
            }
            &&& ir.native == Map::<Seq<char>, JsonView>::empty() ==> {
                &&& body.get("temperature"@) is Some <==> ir.temperature is Some
                &&& body.get("top_p"@) is Some <==> ir.top_p is Some
                &&& body.get("stop_sequences"@) is Some <==> ir.stop.len() > 0
                &&& body.get("tools"@) is Some <==> ir.tools.len() > 0
                &&& body.get("tool_choice"@) is Some <==> ir.tool_choice is Some
                &&& body.get("metadata"@) is Some <==> ir.metadata != Map::<
                    Seq<char>,
                    JsonView,
                >::empty()
                &&& body.get("stream"@) is Some <==> ir.stream
                &&& body.get("thinking"@) is Some <==> ir.thinking is Some
                &&& body.get("output_config"@) is Some <==> ir.thinking is Some
                    && ir.thinking->0.effort is Adaptive
            }
        }),
{
    words_differ();
    let body = anthropic_messages::worker_body(ir, model);
    let b = anthropic_messages::body_members(ir, model);
    members_stay(b, ir.native, protocol::NATIVE_ANTHROPIC@, body);
    assert(b.dom().contains("model"@) && b.dom().contains("max_tokens"@));
    assert(b.dom().contains("temperature"@) <==> ir.temperature is Some);
    assert(b.dom().contains("top_p"@) <==> ir.top_p is Some);
    assert(b.dom().contains("stop_sequences"@) <==> ir.stop.len() > 0);
    assert(b.dom().contains("tools"@) <==> ir.tools.len() > 0);
    assert(b.dom().contains("tool_choice"@) <==> ir.tool_choice is Some);
    assert(b.dom().contains("metadata"@) <==> ir.metadata != Map::<Seq<char>, JsonView>::empty());
    assert(b.dom().contains("stream"@) <==> ir.stream);
    assert(b.dom().contains("thinking"@) <==> ir.thinking is Some);
    assert(b.dom().contains("output_config"@) <==> ir.thinking is Some
        && ir.thinking->0.effort is Adaptive);
}

/// An Anthropic body lets the model choose among the tools as the request does: a choice
/// in this protocol's form stays, and one in another form is told in this one's.
pub proof fn anthropic_body_holds_the_tool_choice(
    ir: RequestView,
    model: Seq<char>,
    name: Seq<char>,
)
    requires
        ir.tool_choice is Some,
    ensures
        ({
            let c = ir.tool_choice->0;
            let kind = c.at("type"@).as_str();
            let out = anthropic_messages::worker_body(ir, model).at("tool_choice"@);
            &&& c == JsonView::Str("none"@) ==> out.at("type"@) == JsonView::Str("none"@)
            &&& c is Str && c != JsonView::Str("none"@) && c != JsonView::Str("required"@) && c
                != JsonView::Str("any"@) ==> out.at("type"@) == JsonView::Str("auto"@)
            &&& c == JsonView::Str("required"@) || c == JsonView::Str("any"@) ==> out.at("type"@)
                == JsonView::Str("any"@)
            &&& kind == Some("auto"@) || kind == Some("any"@) || kind == Some("none"@) || kind
                == Some("tool"@) ==> out == c
            &&& kind == Some("function"@) && name.len() > 0 && (c.at("name"@) == JsonView::Str(
                name,
            ) || (c.get("name"@) is None && c.at("function"@).at("name"@) == JsonView::Str(name)))
                ==> out.at("type"@) == JsonView::Str("tool"@) && out.at("name"@) == JsonView::Str(
                name,
            )
        }),
{
    words_differ();
    reveal_strlit("any");
    reveal_strlit("required");
    assert("any"@.len() == 3 && "any"@[0] == 'a');
    assert("required"@.len() == 8 && "required"@[0] == 'r');
    let body = anthropic_messages::worker_body(ir, model);
    let b = anthropic_messages::body_members(ir, model);
    members_stay(b, ir.native, protocol::NATIVE_ANTHROPIC@, body);
    assert(b.dom().contains("tool_choice"@));
}

/// The system prompt of an Anthropic body, as a text; an empty one, where there is none.
pub open spec fn anthropic_system(ir: RequestView, model: Seq<char>) -> Seq<char> {
    protocol::or_empty(anthropic_messages::worker_body(ir, model).at("system"@).as_str())
}

/// The system prompt of an Anthropic body is that of the request, if it has no messages.
/// A further message of the system is added to it on a line of its own, and any other
/// message leaves it as it is.
pub proof fn anthropic_body_holds_the_system_prompt(
    ir: RequestView,
    model: Seq<char>,
    m: MessageView,
)
    requires
        ir.native == Map::<Seq<char>, JsonView>::empty(),
    ensures
        ({
            let alone = RequestView { messages: Seq::empty(), ..ir };
            let more = RequestView { messages: ir.messages.push(m), ..ir };
            let before = anthropic_system(ir, model);
            &&& anthropic_system(alone, model) == protocol::or_empty(ir.system)
            &&& anthropic_system(more, model) == (if !(m.role is System) {
                before
            } else if before.len() == 0 {
                m.content
            } else {
                before + "\n"@ + m.content
            })
        }),
{
    words_differ();
    reveal_strlit("\n");
    let more = RequestView { messages: ir.messages.push(m), ..ir };
    let alone = RequestView { messages: Seq::empty(), ..ir };
    anthropic_system_is(ir, model);
    anthropic_system_is(more, model);
    anthropic_system_is(alone, model);
    assert(more.messages.drop_last() =~= ir.messages);
    let before = anthropic_system(ir, model);
    if m.role is System {
        assert(before.push('\n') + m.content =~= before + "\n"@ + m.content);
        if before.len() == 0 {
            assert(before + m.content =~= m.content);
        }
    }
}

proof fn anthropic_system_is(ir: RequestView, model: Seq<char>)
    requires
        ir.native == Map::<Seq<char>, JsonView>::empty(),
    ensures
        anthropic_system(ir, model) == anthropic_messages::body_system(
            protocol::or_empty(ir.system),
            ir.messages,
        ),
{
    words_differ();
    let body = anthropic_messages::worker_body(ir, model);
    let b = anthropic_messages::body_members(ir, model);
    members_stay(b, ir.native, protocol::NATIVE_ANTHROPIC@, body);
    let system = anthropic_messages::body_system(protocol::or_empty(ir.system), ir.messages);
    if system.len() == 0 {
        assert(!b.dom().contains("system"@));
        assert(system =~= Seq::empty());
    } else {
        assert(b.dom().contains("system"@));
    }
}

// ---------------------------------------------------------------------------
// Responses
// ---------------------------------------------------------------------------

/// A request with its first messages only.
pub open spec fn first_messages(ir: RequestView, n: int) -> RequestView {
    RequestView { messages: ir.messages.take(n), ..ir }
}

/// In the responses protocol the items of a body follow the messages one after another:
/// after those of the earlier messages, a message of the user is an item with its text, a
/// result is an item with the identifier of its call, and an assistant's text, if it has
/// any, comes before its calls. A message of the system is no item.
pub proof fn responses_body_says_every_message(ir: RequestView, model: Seq<char>, i: int)
    requires
        0 <= i < ir.messages.len(),
    ensures
        ({
            let m = ir.messages[i];
            let all = openai_responses::worker_body(ir, model).at("input"@);
            let start = count(
                openai_responses::worker_body(first_messages(ir, i), model).at("input"@),
            ) as int;
            let next = count(
                openai_responses::worker_body(first_messages(ir, i + 1), model).at("input"@),
            ) as int;
            let lead: int = if m.content.len() > 0 {
                1
            } else {
                0
            };
            &&& count(all) >= next
            &&& i + 1 == ir.messages.len() ==> count(all) == next
            &&& next - start == (match m.role {
                Role::System => 0,
                Role::User => 1,
                Role::Tool => 1,
                Role::Assistant => lead + m.tool_calls.len(),
            })
            &&& m.role is User || (m.role is Assistant && lead == 1) ==> {
                &&& all.item(start).at("type"@) == JsonView::Str("message"@)
                &&& all.item(start).at("role"@) == JsonView::Str(
                    if m.role is User {
                        "user"@
                    } else {
                        "assistant"@
                    },
                )
                &&& all.item(start).at("content"@) == JsonView::Str(m.content)
            }
            &&& m.role is Tool ==> {
                &&& all.item(start).at("type"@) == JsonView::Str("function_call_output"@)
                &&& all.item(start).at("output"@) == JsonView::Str(m.content)
                &&& all.item(start).at("call_id"@).as_str() == m.tool_call_id
            }
            &&& m.role is Assistant ==> forall|k: int|
                start + lead <= k < next ==> {
                    let c = #[trigger] all.item(k);
                    let call = m.tool_calls[k - start - lead];
                    &&& c.at("type"@) == JsonView::Str("function_call"@)
                    &&& c.at("call_id"@) == JsonView::Str(call.id)
                    &&& c.at("name"@) == JsonView::Str(call.name)
                    &&& c.at("arguments"@) == JsonView::Str(json_text(call.arguments))
                }
        }),
{
    words_differ();
    responses_input_is(ir, model);
    responses_input_is(first_messages(ir, i), model);
    responses_input_is(first_messages(ir, i + 1), model);
    let m = ir.messages[i];
    let all = openai_responses::body_input(ir.messages);
    let before = openai_responses::body_input(ir.messages.take(i));
    let after = openai_responses::body_input(ir.messages.take(i + 1));
    let items = openai_responses::body_items(m);
    seqs::take_step(ir.messages, i);
    assert(after == before + items);
    responses_items_stay(ir.messages, i + 1);
    if i + 1 == ir.messages.len() {
        assert(ir.messages.take(i + 1) =~= ir.messages);
    }
    let shown = openai_responses::worker_body(ir, model).at("input"@);
    assert forall|k: int| before.len() <= k < after.len() implies #[trigger] shown.item(k)
        == items[k - before.len()] by {
        assert(all[k] == after[k]);
    }
    if m.role is Assistant {
        let lead: int = if m.content.len() > 0 {
            1
        } else {
            0
        };
        assert forall|k: int| before.len() + lead <= k < after.len() implies #[trigger] shown.item(
            k,
        ) == openai_responses::body_call()(m.tool_calls[k - before.len() - lead]) by {
            assert(shown.item(k) == items[k - before.len()]);
        }
    }
}

proof fn responses_input_is(ir: RequestView, model: Seq<char>)
    ensures
        openai_responses::worker_body(ir, model).at("input"@) == JsonView::Array(
            openai_responses::body_input(ir.messages),
        ),
{
    words_differ();
    let body = openai_responses::worker_body(ir, model);
    let b = openai_responses::body_members(ir, model);
    members_stay(b, ir.native, protocol::NATIVE_OPENAI_RESPONSES@, body);
    assert(b.dom().contains("input"@));
}

proof fn responses_items_stay(messages: Seq<MessageView>, n: int)
    requires
        0 <= n <= messages.len(),
    ensures
        ({
            let first = openai_responses::body_input(messages.take(n));
            let all = openai_responses::body_input(messages);
            &&& first.len() <= all.len()
            &&& forall|k: int| 0 <= k < first.len() ==> #[trigger] all[k] == first[k]
        }),
    decreases messages.len() - n,
{
    if n == messages.len() {
        assert(messages.take(n) =~= messages);
    } else {
        assert(messages.drop_last().take(n) =~= messages.take(n));
        responses_items_stay(messages.drop_last(), n);
    }
}

/// A body in the responses protocol declares every tool in its place, as a function with
/// its name, its description and its parameters, and no other tool.
pub proof fn responses_body_declares_every_tool(ir: RequestView, model: Seq<char>, i: int)
    requires
        0 <= i < ir.tools.len(),
    ensures
        ({
            let tools = openai_responses::worker_body(ir, model).at("tools"@);
            &&& count(tools) == ir.tools.len()
            &&& tools.item(i).at("type"@) == JsonView::Str("function"@)
            &&& tools.item(i).at("name"@) == JsonView::Str(ir.tools[i].name)
            &&& tools.item(i).at("description"@) == JsonView::Str(ir.tools[i].description)
            &&& tools.item(i).at("parameters"@) == ir.tools[i].parameters
        }),
{
    words_differ();
    let body = openai_responses::worker_body(ir, model);
    let b = openai_responses::body_members(ir, model);
    members_stay(b, ir.native, protocol::NATIVE_OPENAI_RESPONSES@, body);
    assert(b.dom().contains("tools"@));
    assert(body.at("tools"@).item(i) == openai_responses::body_tool()(ir.tools[i]));
}

/// A body in the responses protocol holds every setting of the request that this protocol
/// knows under its name, and those that are not set only where a field was kept for them.
pub proof fn responses_body_holds_every_setting(ir: RequestView, model: Seq<char>)
    ensures
        ({
            let body = openai_responses::worker_body(ir, model);
            &&& body.at("model"@) == JsonView::Str(model)
            &&& ir.temperature matches Some(t) ==> body.at("temperature"@) == t.json
            &&& ir.top_p matches Some(p) ==> body.at("top_p"@) == p.json
            &&& ir.tool_choice matches Some(c) ==> body.at("tool_choice"@) == c
            &&& ir.parallel_tool_calls matches Some(p) ==> body.at("parallel_tool_calls"@)
                == JsonView::Bool(p)
            &&& ir.metadata != Map::<Seq<char>, JsonView>::empty() ==> body.at("metadata"@)
                == JsonView::Object(ir.metadata)
            &&& ir.stream ==> body.at("stream"@) == JsonView::Bool(true)
            &&& ir.thinking matches Some(t) ==> {
                &&& body.at("reasoning"@).at("effort"@) == JsonView::Str(
                    match t.effort {
                        ThinkingEffort::Disabled => "none"@,
                        ThinkingEffort::Low => "low"@,
                        ThinkingEffort::Medium => "medium"@,
                        ThinkingEffort::High => "high"@,
                        ThinkingEffort::Max => "xhigh"@,
                        ThinkingEffort::Adaptive => "medium"@,
                    },
                )
                &&& body.at("reasoning"@).get("summary"@) == (if t.summary {
                    Some(JsonView::Str("auto"@))
                } else {
                    None
                })
            }
            &&& ir.native == Map::<Seq<char>, JsonView>::empty() ==> {
                &&& body.get("temperature"@) is Some <==> ir.temperature is Some
                &&& body.get("top_p"@) is Some <==> ir.top_p is Some
                &&& body.get("tools"@) is Some <==> ir.tools.len() > 0
                &&& body.get("tool_choice"@) is Some <==> ir.tool_choice is Some
                &&& body.get("parallel_tool_calls"@) is Some <==> ir.parallel_tool_calls is Some
                &&& body.get("metadata"@) is Some <==> ir.metadata != Map::<
                    Seq<char>,
                    JsonView,
                >::empty()
                &&& body.get("stream"@) is Some <==> ir.stream
                &&& body.get("reasoning"@) is Some <==> ir.thinking is Some
            }
        }),
{
    words_differ();
    let body = openai_responses::worker_body(ir, model);
    let b = openai_responses::body_members(ir, model);
    members_stay(b, ir.native, protocol::NATIVE_OPENAI_RESPONSES@, body);
    assert(b.dom().contains("model"@));
    assert(b.dom().contains("temperature"@) <==> ir.temperature is Some);
    assert(b.dom().contains("top_p"@) <==> ir.top_p is Some);
    assert(b.dom().contains("tools"@) <==> ir.tools.len() > 0);
    assert(b.dom().contains("tool_choice"@) <==> ir.tool_choice is Some);
    assert(b.dom().contains("parallel_tool_calls"@) <==> ir.parallel_tool_calls is Some);
    assert(b.dom().contains("metadata"@) <==> ir.metadata != Map::<Seq<char>, JsonView>::empty());
    assert(b.dom().contains("stream"@) <==> ir.stream);
    assert(b.dom().contains("reasoning"@) <==> ir.thinking is Some);
}

/// Whether the system says a text: as the system prompt, or in a message.
pub open spec fn system_says(ir: RequestView, s: Seq<char>) -> bool {
    ir.system == Some(s) || exists|i: int|
        0 <= i < ir.messages.len() && (#[trigger] ir.messages[i]).role is System
            && ir.messages[i].content == s
}

/// The instructions of a body in the responses protocol are the system prompt of the
/// request, if it has no messages. A further message of the system is added to them after
/// an empty line, unless it has no text or the system has said it before; any other
/// message leaves them as they are.
pub proof fn responses_body_holds_the_instructions(
    ir: RequestView,
    model: Seq<char>,
    m: MessageView,
)
    requires
        ir.native == Map::<Seq<char>, JsonView>::empty(),
    ensures
        ({
            let alone = RequestView { messages: Seq::empty(), ..ir };
            let more = RequestView { messages: ir.messages.push(m), ..ir };
            let first = openai_responses::worker_body(alone, model).get("instructions"@);
            let before = openai_responses::worker_body(ir, model).get("instructions"@);
            let after = openai_responses::worker_body(more, model).get("instructions"@);
            &&& first == (match ir.system {
                Some(s) => if text::trim_of(s).len() > 0 {
                    Some(JsonView::Str(s))
                } else {
                    None
                },
                None => None,
            })
            &&& after == (if !(m.role is System) || text::trim_of(m.content).len() == 0
                || system_says(ir, m.content) {
                before
            } else {
                match before {
                    Some(JsonView::Str(s)) => Some(JsonView::Str(s + "\n\n"@ + m.content)),
                    _ => Some(JsonView::Str(m.content)),
                }
            })
        }),
{
    let alone = RequestView { messages: Seq::empty(), ..ir };
    let more = RequestView { messages: ir.messages.push(m), ..ir };
    responses_instructions_are(ir, model);
    responses_instructions_are(more, model);
    responses_instructions_are(alone, model);
    assert(more.messages.drop_last() =~= ir.messages);
    let parts = openai_responses::instructions_of(ir.system, ir.messages);
    instructions_are_what_the_system_says(ir, m.content);
    assert(parts.push(m.content).drop_last() =~= parts);
}

proof fn responses_instructions_are(ir: RequestView, model: Seq<char>)
    requires
        ir.native == Map::<Seq<char>, JsonView>::empty(),
    ensures
        openai_responses::worker_body(ir, model).get("instructions"@)
            == openai_responses::body_instructions(
            openai_responses::instructions_of(ir.system, ir.messages),
        ),
{
    words_differ();
    let body = openai_responses::worker_body(ir, model);
    let b = openai_responses::body_members(ir, model);
    members_stay(b, ir.native, protocol::NATIVE_OPENAI_RESPONSES@, body);
}

proof fn instructions_are_what_the_system_says(ir: RequestView, s: Seq<char>)
    ensures
        openai_responses::instructions_of(ir.system, ir.messages).contains(s) <==> text::trim_of(
            s,
        ).len() > 0 && system_says(ir, s),
    decreases ir.messages.len(),
{
    let parts = openai_responses::instructions_of(ir.system, ir.messages);
    if ir.messages.len() > 0 {
        let rest = RequestView { messages: ir.messages.drop_last(), ..ir };
        let m = ir.messages.last();
        instructions_are_what_the_system_says(rest, s);
        instructions_are_what_the_system_says(rest, m.content);
        let before = openai_responses::instructions_of(ir.system, rest.messages);
        if parts.contains(s) && !before.contains(s) {
            let k = parts.index_of(s);
            assert(k == before.len());
            assert(ir.messages[ir.messages.len() - 1] == m);
        }
        if before.contains(s) {
            let k = before.index_of(s);
            assert(parts[k] == s);
        }
        if system_says(rest, s) && ir.system != Some(s) {
            let i = choose|i: int|
                0 <= i < rest.messages.len() && (#[trigger] rest.messages[i]).role is System
                    && rest.messages[i].content == s;
            assert(ir.messages[i] == rest.messages[i]);
        }
        if system_says(ir, s) && !system_says(rest, s) {
            let i = choose|i: int|
                0 <= i < ir.messages.len() && (#[trigger] ir.messages[i]).role is System
                    && ir.messages[i].content == s;
            if i < rest.messages.len() {
                assert(rest.messages[i] == ir.messages[i]);
            }
            if text::trim_of(s).len() > 0 {
                assert(parts[parts.len() - 1] == s);
            }
        }
    } else {
        if ir.system == Some(s) && text::trim_of(s).len() > 0 {
            assert(parts[0] == s);
        }
    }
}

} // verus!
