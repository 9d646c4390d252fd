//! What a chat body holds, and that it holds the request that it was made from.

use vstd::prelude::*;

use crate::json::{int_view, json_text, JsonView};
use crate::protocol;
use crate::protocol::laws::{counts_are_read_back, effort_words_are_read_back, reads_back};
use crate::protocol::openai_completions;
use crate::protocol::openai_completions::{
    ChatContentView, ChatMessageView, ChatRequestView, ChatToolCallView, ChatToolView,
    ContentPartView,
};
use crate::protocol::words::words_differ;
use crate::protocol::{
    MessageView, RequestView, SingleView, ThinkingConfig, ThinkingEffort, ToolDefView,
};
use crate::seqs;

verus! {

// ---------------------------------------------------------------------------
// What a body holds
// ---------------------------------------------------------------------------

/// The names of the members that a chat request has fields for.
pub open spec fn request_fields() -> Seq<Seq<char>> {
    seq![
        "model"@,
        "messages"@,
        "max_tokens"@,
        "temperature"@,
        "top_p"@,
        "stop"@,
        "api_key"@,
        "stream"@,
        "tools"@,
        "tool_choice"@,
        "parallel_tool_calls"@,
        "reasoning"@,
        "metadata"@,
    ]
}

/// The elements of an array; none of anything else.
pub open spec fn items_of(v: JsonView) -> Seq<JsonView> {
    match v.as_array() {
        Some(items) => items,
        None => Seq::empty(),
    }
}

/// The text of a string; an empty one of anything else.
pub open spec fn text_of() -> spec_fn(JsonView) -> Seq<char> {
    |v: JsonView| protocol::or_empty(v.as_str())
}

/// A tool call that a body holds.
pub open spec fn call_held() -> spec_fn(JsonView) -> ChatToolCallView {
    |v: JsonView|
        ChatToolCallView {
            id: text_of()(v.at("id"@)),
            name: text_of()(v.at("function"@).at("name"@)),
            arguments: text_of()(v.at("function"@).at("arguments"@)),
        }
}

/// A part of a message that a body holds.
pub open spec fn part_held() -> spec_fn(JsonView) -> ContentPartView {
    |v: JsonView| ContentPartView { kind: text_of()(v.at("type"@)), text: v.at("text"@).as_str() }
}

/// What a message of a body says.
pub open spec fn content_held(v: JsonView) -> Option<ChatContentView> {
    match v {
        JsonView::Str(s) => Some(ChatContentView::Text(s)),
        JsonView::Array(parts) => Some(ChatContentView::Parts(parts.map_values(part_held()))),
        _ => None,
    }
}

/// A message that a body holds.
pub open spec fn message_held() -> spec_fn(JsonView) -> ChatMessageView {
    |v: JsonView|
        ChatMessageView {
            role: text_of()(v.at("role"@)),
            content: content_held(v.at("content"@)),
            tool_call_id: v.at("tool_call_id"@).as_str(),
            is_error: v.at("is_error"@).as_bool(),
            tool_calls: items_of(v.at("tool_calls"@)).map_values(call_held()),
        }
}

/// A tool that a body holds.
pub open spec fn tool_held() -> spec_fn(JsonView) -> ChatToolView {
    |v: JsonView|
        ChatToolView {
            kind: text_of()(v.at("type"@)),
            name: text_of()(v.at("function"@).at("name"@)),
            description: text_of()(v.at("function"@).at("description"@)),
            parameters: v.at("function"@).at("parameters"@),
        }
}

/// The chat request that a body holds: each field is the member of its name, and what has
/// no field is kept with the rest. The two settings are numbers whose JSON forms the body
/// holds.
pub open spec fn request_held(
    body: Map<Seq<char>, JsonView>,
    temperature: Option<SingleView>,
    top_p: Option<SingleView>,
) -> ChatRequestView {
    let v = JsonView::Object(body);
    ChatRequestView {
        model: text_of()(v.at("model"@)),
        messages: items_of(v.at("messages"@)).map_values(message_held()),
        max_tokens: match v.get("max_tokens"@) {
            Some(n) => protocol::count_of(n),
            None => 2048,
        },
        temperature,
        top_p,
        stop: items_of(v.at("stop"@)).map_values(text_of()),
        api_key: v.at("api_key"@).as_str(),
        stream: v.at("stream"@) == JsonView::Bool(true),
        tools: items_of(v.at("tools"@)).map_values(tool_held()),
        tool_choice: match v.at("tool_choice"@) {
            JsonView::Null => None,
            choice => Some(choice),
        },
        parallel_tool_calls: v.at("parallel_tool_calls"@).as_bool(),
        reasoning: match v.at("reasoning"@) {
            JsonView::Null => None,
            reasoning => Some(reasoning.at("effort"@).as_str()),
        },
        metadata: match v.at("metadata"@) {
            JsonView::Object(m) => m,
            _ => Map::empty(),
        },
        extra: body.remove_keys(request_fields().to_set()),
    }
}

// ---------------------------------------------------------------------------
// A body holds its request
// ---------------------------------------------------------------------------

/// A message whose fields are those of its role: only a tool's message answers a call, only
/// an assistant's makes calls, and their arguments are read back from their text.
pub open spec fn suits_its_role(m: MessageView) -> bool {
    &&& m.role is Tool || (m.tool_call_id is None && m.tool_is_error is None)
    &&& m.role is Assistant || m.tool_calls.len() == 0
    &&& forall|j: int|
        0 <= j < m.tool_calls.len() ==> reads_back((#[trigger] m.tool_calls[j]).arguments)
}

proof fn message_is_held(m: MessageView)
    requires
        suits_its_role(m),
    ensures
        openai_completions::message_in()(message_held()(openai_completions::body_message()(m)))
            == m,
{
    words_differ();
    let v = openai_completions::body_message()(m);
    let held = message_held()(v);
    let back = openai_completions::message_in()(held);
    assert(v.at("role"@) == JsonView::Str(openai_completions::role_word(m.role)));
    assert(back.role == m.role);
    if m.content.len() == 0 {
        assert(m.content =~= Seq::empty());
    }
    assert(back.content == m.content);
    assert(back.tool_call_id == m.tool_call_id);
    assert(back.tool_is_error == m.tool_is_error);
    if m.role is Assistant && m.tool_calls.len() > 0 {
        let calls = m.tool_calls.map_values(openai_completions::body_call());
        assert(v.at("tool_calls"@) == JsonView::Array(calls));
        assert forall|j: int| 0 <= j < m.tool_calls.len() implies #[trigger] back.tool_calls[j]
            == m.tool_calls[j] by {
            let c = m.tool_calls[j];
            let shown = openai_completions::body_call()(c);
            assert(calls[j] == shown);
            assert(shown.at("id"@) == JsonView::Str(c.id));
            assert(shown.at("function"@).at("name"@) == JsonView::Str(c.name));
            assert(shown.at("function"@).at("arguments"@) == JsonView::Str(
                json_text(c.arguments),
            ));
            assert(reads_back(c.arguments));
        }
    } else {
        assert(v.at("tool_calls"@) is Null);
    }
    assert(back.tool_calls =~= m.tool_calls);
}

proof fn tools_are_held(tools: Seq<ToolDefView>)
    ensures
        tools.map_values(openai_completions::body_tool()).map_values(tool_held()).filter_map(
            openai_completions::tool_in(),
        ) == tools,
{
    words_differ();
    let held = tools.map_values(openai_completions::body_tool()).map_values(tool_held());
    let f = openai_completions::tool_in();
    assert forall|i: int| 0 <= i < held.len() implies f(#[trigger] held[i]) == Some(tools[i]) by {
        let shown = openai_completions::body_tool()(tools[i]);
        assert(shown.at("type"@) == JsonView::Str("function"@));
        assert(shown.at("function"@).at("name"@) == JsonView::Str(tools[i].name));
        assert(shown.at("function"@).at("description"@) == JsonView::Str(tools[i].description));
        assert(shown.at("function"@).at("parameters"@) == tools[i].parameters);
    }
    seqs::picks_all(held, f, tools);
}

/// The members of a body whose request keeps only fields that have no place of their own.
proof fn body_is_shown(ir: RequestView, model: Seq<char>, extra: Map<Seq<char>, JsonView>)
    requires
        ir.native == protocol::kept_under(protocol::NATIVE_OPENAI_CHAT@, extra),
        forall|k: Seq<char>| #[trigger] extra.dom().contains(k) ==> !request_fields().contains(k),
    ensures
        ({
            let b = openai_completions::body_members(ir, model);
            let body = openai_completions::worker_body(ir, model)->Object_0;
            &&& openai_completions::worker_body(ir, model) is Object
            &&& body == extra.union_prefer_right(b)
            &&& body.remove_keys(request_fields().to_set()) == extra
            &&& forall|k: Seq<char>| #[trigger]
                request_fields().contains(k) ==> JsonView::Object(body).get(k)
                    == JsonView::Object(b).get(k)
        }),
{
    let b = openai_completions::body_members(ir, model);
    let body = openai_completions::worker_body(ir, model)->Object_0;
    let key = protocol::NATIVE_OPENAI_CHAT@;
    if extra == Map::<Seq<char>, JsonView>::empty() {
        assert(JsonView::Object(ir.native).at(key) is Null);
        assert(extra.union_prefer_right(b) =~= b);
    } else {
        assert(JsonView::Object(ir.native).at(key) == JsonView::Object(extra));
    }
    let names = request_fields();
    assert forall|k: Seq<char>| b.dom().contains(k) implies names.contains(k) by {
        assert(names[0] == "model"@ && names[1] == "messages"@ && names[2] == "max_tokens"@);
        assert(names[3] == "temperature"@ && names[4] == "top_p"@ && names[5] == "stop"@);
        assert(names[7] == "stream"@ && names[8] == "tools"@ && names[9] == "tool_choice"@);
        assert(names[10] == "parallel_tool_calls"@ && names[11] == "reasoning"@);
        assert(names[12] == "metadata"@);
    }
    assert(body.remove_keys(names.to_set()) =~= extra);
}

/// A chat body that is read as a chat request gives back the request that it was made
/// from: its messages with their tool calls and results, its tools, its settings, its
/// thinking and the fields that it keeps for the protocol. The key of the request is no
/// part of the body, and thinking is read back by its effort alone, an adaptive one as a
/// medium one. What is read is refused just where the request itself would be.
pub proof fn chat_request_is_read_back(
    ir: RequestView,
    model: Seq<char>,
    extra: Map<Seq<char>, JsonView>,
)
    requires
        forall|i: int| 0 <= i < ir.messages.len() ==> suits_its_role(#[trigger] ir.messages[i]),
        ir.tool_choice != Some(JsonView::Null),
        ir.native == protocol::kept_under(protocol::NATIVE_OPENAI_CHAT@, extra),
        forall|k: Seq<char>| #[trigger] extra.dom().contains(k) ==> !request_fields().contains(k),
    ensures
        ({
            let body = openai_completions::worker_body(ir, model)->Object_0;
            let held = request_held(body, ir.temperature, ir.top_p);
            let back = openai_completions::request_in(held);
            &&& openai_completions::worker_body(ir, model) is Object
            &&& JsonView::Object(body).get("temperature"@) == protocol::single_json(ir.temperature)
            &&& JsonView::Object(body).get("top_p"@) == protocol::single_json(ir.top_p)
            &&& held.model == model
            &&& protocol::fault_of(held.messages.len(), held.max_tokens, held.temperature)
                == protocol::fault_of(ir.messages.len(), ir.max_tokens, ir.temperature)
            &&& back.messages == ir.messages
            &&& back.max_tokens == ir.max_tokens
            &&& back.temperature == ir.temperature
            &&& back.top_p == ir.top_p
            &&& back.stop == ir.stop
            &&& back.tools == ir.tools
            &&& back.tool_choice == ir.tool_choice
            &&& back.parallel_tool_calls == ir.parallel_tool_calls
            &&& back.stream == ir.stream
            &&& back.metadata == ir.metadata
            &&& back.native == ir.native
            &&& back.api_key is None
            &&& back.thinking == (match ir.thinking {
                Some(t) => Some(
                    ThinkingConfig {
                        effort: if t.effort is Adaptive {
                            ThinkingEffort::Medium
                        } else {
                            t.effort
                        },
                        budget_tokens: None,
                        summary: false,
                    },
                ),
                None => None,
            })
        }),
{
    words_differ();
    body_is_shown(ir, model, extra);
    let b = openai_completions::body_members(ir, model);
    let body = openai_completions::worker_body(ir, model)->Object_0;
    let v = JsonView::Object(body);
    let names = request_fields();
    assert(names[0] == "model"@ && names[1] == "messages"@ && names[2] == "max_tokens"@);
    assert(names[3] == "temperature"@ && names[4] == "top_p"@ && names[5] == "stop"@);
    assert(names[6] == "api_key"@ && names[7] == "stream"@ && names[8] == "tools"@);
    assert(names[9] == "tool_choice"@ && names[10] == "parallel_tool_calls"@);
    assert(names[11] == "reasoning"@ && names[12] == "metadata"@);
    let held = request_held(body, ir.temperature, ir.top_p);
    let back = openai_completions::request_in(held);
    assert(v.get("model"@) == Some(JsonView::Str(model)));
    assert(v.get("max_tokens"@) == Some(int_view(ir.max_tokens as int)));
    counts_are_read_back(ir.max_tokens);
    let shown = ir.messages.map_values(openai_completions::body_message());
    assert(v.get("messages"@) == Some(JsonView::Array(shown)));
    assert forall|i: int| 0 <= i < ir.messages.len() implies #[trigger] back.messages[i]
        == ir.messages[i] by {
        assert(shown[i] == openai_completions::body_message()(ir.messages[i]));
        message_is_held(ir.messages[i]);
    }
    assert(back.messages =~= ir.messages);
    assert(v.get("stop"@) == protocol::stop_json(ir.stop));
    assert(back.stop =~= ir.stop);
    assert(v.get("tools"@) == openai_completions::body_tools(ir.tools));
    tools_are_held(ir.tools);
    if ir.tools.len() == 0 {
        seqs::picks_none(held.tools, openai_completions::tool_in());
        assert(back.tools =~= ir.tools);
    }
    assert(v.get("tool_choice"@) == ir.tool_choice);
    assert(v.get("parallel_tool_calls"@) == protocol::bool_json(ir.parallel_tool_calls));
    assert(v.get("metadata"@) == protocol::metadata_json(ir.metadata));
    assert(v.get("reasoning"@) == openai_completions::body_reasoning(ir.thinking));
    assert(v.get("stream"@) == protocol::stream_json(ir.stream));
    assert(v.get("api_key"@) is None);
    if ir.thinking is Some {
        effort_words_are_read_back(ir.thinking->0.effort);
        assert(v.at("reasoning"@).at("effort"@) == JsonView::Str(
            openai_completions::effort_word(ir.thinking->0.effort),
        ));
    }
}

} // verus!
