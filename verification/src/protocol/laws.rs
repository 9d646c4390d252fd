//! What holds of the wire protocols as a whole.
//!
//! Whatever protocol a conversation comes in by and goes out by, its tool calls, tool
//! results and thinking settings stay with it.

use vstd::prelude::*;

use crate::json::{int_view, json_text, parsed_json, JsonView};
use crate::protocol;
use crate::protocol::anthropic_messages;
use crate::protocol::openai_completions;
use crate::protocol::openai_responses;
use crate::protocol::words::words_differ;
use crate::protocol::{
    MessageView, RequestView, ResponseView, Role, ThinkingConfig, ThinkingEffort, ToolCallView,
    Usd,
};
use crate::seqs;
use crate::text;

verus! {

// ---------------------------------------------------------------------------
// Bodies in the chat protocol
// ---------------------------------------------------------------------------

/// The members of a chat body that every request has.
proof fn chat_body_members(ir: RequestView, model: Seq<char>)
    ensures
        openai_completions::worker_body(ir, model).at("messages"@) == JsonView::Array(
            ir.messages.map_values(openai_completions::body_message()),
        ),
        ir.tools.len() > 0 ==> openai_completions::worker_body(ir, model).at("tools"@)
            == JsonView::Array(ir.tools.map_values(openai_completions::body_tool())),
        ir.stream ==> openai_completions::worker_body(ir, model).at("stream"@) == JsonView::Bool(
            true,
        ),
        ir.thinking is Some ==> openai_completions::worker_body(ir, model).at("reasoning"@)
            == openai_completions::body_reasoning(ir.thinking)->0,
{
    words_differ();
    let b = openai_completions::body_members(ir, model);
    let k = protocol::NATIVE_OPENAI_CHAT@;
    assert(b.dom().contains("messages"@));
    protocol::native_fields_do_not_override(b, ir.native, k, "messages"@);
    if ir.tools.len() > 0 {
        assert(b.dom().contains("tools"@));
        protocol::native_fields_do_not_override(b, ir.native, k, "tools"@);
    }
    if ir.stream {
        protocol::native_fields_do_not_override(b, ir.native, k, "stream"@);
    }
    if ir.thinking is Some {
        assert(b.dom().contains("reasoning"@));
        protocol::native_fields_do_not_override(b, ir.native, k, "reasoning"@);
    }
}

/// A chat body shows every tool call of an assistant in its place, with its identifier,
/// its name and its arguments.
pub proof fn chat_body_keeps_tool_calls(ir: RequestView, model: Seq<char>, i: int, j: int)
    requires
        0 <= i < ir.messages.len(),
        ir.messages[i].role is Assistant,
        0 <= j < ir.messages[i].tool_calls.len(),
    ensures
        openai_completions::worker_body(ir, model).at("messages"@).item(i).at(
            "tool_calls"@,
        ).item(j) == openai_completions::body_call()(ir.messages[i].tool_calls[j]),
        openai_completions::worker_body(ir, model).at("messages"@).item(i).at(
            "tool_calls"@,
        ).item(j).at("id"@) == JsonView::Str(ir.messages[i].tool_calls[j].id),
        openai_completions::worker_body(ir, model).at("messages"@).item(i).at(
            "tool_calls"@,
        ).item(j).at("function"@).at("name"@) == JsonView::Str(
            ir.messages[i].tool_calls[j].name,
        ),
{
    chat_body_members(ir, model);
    words_differ();
}

/// A chat body shows every tool result in its place, with the identifier of its call.
pub proof fn chat_body_keeps_tool_results(ir: RequestView, model: Seq<char>, i: int)
    requires
        0 <= i < ir.messages.len(),
        ir.messages[i].role is Tool,
    ensures
        openai_completions::worker_body(ir, model).at("messages"@).item(i).at("content"@)
            == JsonView::Str(ir.messages[i].content),
        openai_completions::worker_body(ir, model).at("messages"@).item(i).at(
            "tool_call_id"@,
        ).as_str() == ir.messages[i].tool_call_id,
{
    chat_body_members(ir, model);
    words_differ();
}

/// A chat body declares every tool in its place.
pub proof fn chat_body_keeps_tools(ir: RequestView, model: Seq<char>, i: int)
    requires
        0 <= i < ir.tools.len(),
    ensures
        openai_completions::worker_body(ir, model).at("tools"@).item(i)
            == openai_completions::body_tool()(ir.tools[i]),
        openai_completions::worker_body(ir, model).at("tools"@).item(i).at("function"@).at(
            "name"@,
        ) == JsonView::Str(ir.tools[i].name),
{
    chat_body_members(ir, model);
    words_differ();
}

/// A chat body asks for the effort of the request.
pub proof fn chat_body_keeps_thinking(ir: RequestView, model: Seq<char>)
    requires
        ir.thinking is Some,
    ensures
        openai_completions::worker_body(ir, model).at("reasoning"@).at("effort"@)
            == JsonView::Str(openai_completions::effort_word(ir.thinking->0.effort)),
{
    chat_body_members(ir, model);
}

/// A chat body asks for a stream if the request does.
pub proof fn chat_body_keeps_stream(ir: RequestView, model: Seq<char>)
    requires
        ir.stream,
    ensures
        openai_completions::worker_body(ir, model).at("stream"@) == JsonView::Bool(true),
{
    chat_body_members(ir, model);
}

/// The word for an effort is read back as the effort; only an adaptive effort is read
/// back as a medium one.
pub proof fn effort_words_are_read_back(effort: ThinkingEffort)
    ensures
        openai_completions::effort_of_word(Some(openai_completions::effort_word(effort))) == (
        if effort is Adaptive {
            ThinkingEffort::Medium
        } else {
            effort
        }),
{
    words_differ();
}

/// A chat request keeps its tool calls in their places; their arguments are read.
pub proof fn chat_request_keeps_tool_calls(req: openai_completions::ChatRequestView, i: int, j: int)
    requires
        0 <= i < req.messages.len(),
        0 <= j < req.messages[i].tool_calls.len(),
    ensures
        openai_completions::request_in(req).messages[i].tool_calls.len()
            == req.messages[i].tool_calls.len(),
        openai_completions::request_in(req).messages[i].tool_calls[j] == (ToolCallView {
            id: req.messages[i].tool_calls[j].id,
            name: req.messages[i].tool_calls[j].name,
            arguments: protocol::parsed_or_empty(req.messages[i].tool_calls[j].arguments),
        }),
        openai_completions::request_in(req).messages[i].tool_call_id
            == req.messages[i].tool_call_id,
{
}

// ---------------------------------------------------------------------------
// Responses in the chat protocol
// ---------------------------------------------------------------------------

/// Whether the text of a tree is read back to the tree. Every tree without
/// double-precision numbers and reserved member names that is not nested too deeply has
/// this property: see `json::to_text`.
pub open spec fn reads_back(v: JsonView) -> bool {
    parsed_json(json_text(v)) == Some(v)
}

/// A count that was sent is read back.
pub proof fn counts_are_read_back(n: u32)
    ensures
        protocol::count_of(int_view(n as int)) == n,
        int_view(n as int).as_u64() is Some,
{
}

/// What is sent of a response in the chat protocol is read back: its text, the reason
/// for its end, its counts, and the tool calls whose arguments are objects.
pub proof fn chat_response_is_read_back(
    ir: ResponseView,
    model: Seq<char>,
    id: Seq<char>,
    created: i64,
    duration_ms: u64,
    cost_usd: Option<Usd>,
)
    requires
        forall|i: int|
            0 <= i < ir.tool_calls.len() ==> (#[trigger] ir.tool_calls[i]).arguments is Object
                && reads_back(ir.tool_calls[i].arguments),
    ensures
        ({
            let body = openai_completions::response_json(
                openai_completions::response_out(ir, model, id, created),
            );
            let choice = openai_completions::first_choice(body);
            let back = openai_completions::worker_result(
                body,
                choice->0,
                model,
                duration_ms,
                cost_usd,
            ).response->0;
            &&& choice is Some
            &&& back.id == Some(id)
            &&& back.content == ir.content
            &&& back.finish_reason == ir.finish_reason
            &&& back.usage.prompt_tokens == ir.usage.prompt_tokens
            &&& back.usage.completion_tokens == ir.usage.completion_tokens
            &&& back.usage.total_tokens == ir.usage.total_tokens
            &&& back.tool_calls == ir.tool_calls
            &&& back.thinking == (match ir.thinking {
                Some(s) => protocol::unless_empty(s),
                None => None,
            })
        }),
{
    words_differ();
    reveal_strlit("");
    let out = openai_completions::response_out(ir, model, id, created);
    let body = openai_completions::response_json(out);
    let choice_view = out.choices[0];
    let choice = openai_completions::choice_json()(choice_view);
    assert(body.at("choices"@) == JsonView::Array(
        out.choices.map_values(openai_completions::choice_json()),
    ));
    assert(openai_completions::first_choice(body) == Some(choice));
    let message = choice.at("message"@);
    counts_are_read_back(ir.usage.prompt_tokens);
    counts_are_read_back(ir.usage.completion_tokens);
    counts_are_read_back(ir.usage.total_tokens);
    let calls = choice_view.message.tool_calls;
    assert(openai_completions::worker_calls(message) =~= ir.tool_calls) by {
        if ir.tool_calls.len() > 0 {
            assert(message.at("tool_calls"@) == JsonView::Array(
                calls.map_values(openai_completions::out_call_json()),
            ));
            let got = openai_completions::worker_calls(message);
            assert forall|i: int| 0 <= i < ir.tool_calls.len() implies got[i]
                == ir.tool_calls[i] by {
                let c = openai_completions::out_call_json()(calls[i]);
                assert(c.at("id"@) == JsonView::Str(ir.tool_calls[i].id));
                assert(c.at("function"@).at("name"@) == JsonView::Str(ir.tool_calls[i].name));
                assert(c.at("function"@).at("arguments"@) == JsonView::Str(
                    json_text(ir.tool_calls[i].arguments),
                ));
            }
        } else {
            assert(message.at("tool_calls"@) == JsonView::Null);
        }
    }
    if ir.content.len() == 0 {
        assert(ir.content =~= ""@);
    }
}

// ---------------------------------------------------------------------------
// Bodies in the responses protocol
// ---------------------------------------------------------------------------

proof fn responses_body_members(ir: RequestView, model: Seq<char>)
    ensures
        openai_responses::worker_body(ir, model).at("input"@) == JsonView::Array(
            openai_responses::body_input(ir.messages),
        ),
        ir.tools.len() > 0 ==> openai_responses::worker_body(ir, model).at("tools"@)
            == JsonView::Array(ir.tools.map_values(openai_responses::body_tool())),
        ir.stream ==> openai_responses::worker_body(ir, model).at("stream"@) == JsonView::Bool(
            true,
        ),
        ir.thinking is Some ==> openai_responses::worker_body(ir, model).at("reasoning"@)
            == openai_responses::body_reasoning(ir.thinking)->0,
{
    words_differ();
    let b = openai_responses::body_members(ir, model);
    let k = protocol::NATIVE_OPENAI_RESPONSES@;
    protocol::native_fields_do_not_override(b, ir.native, k, "input"@);
    if ir.tools.len() > 0 {
        protocol::native_fields_do_not_override(b, ir.native, k, "tools"@);
    }
    if ir.stream {
        protocol::native_fields_do_not_override(b, ir.native, k, "stream"@);
    }
    if ir.thinking is Some {
        protocol::native_fields_do_not_override(b, ir.native, k, "reasoning"@);
    }
}

/// The items of a message are among the items of the conversation.
proof fn responses_items_are_there(messages: Seq<MessageView>, i: int, j: int) -> (k: int)
    requires
        0 <= i < messages.len(),
        0 <= j < openai_responses::body_items(messages[i]).len(),
    ensures
        0 <= k < openai_responses::body_input(messages).len(),
        openai_responses::body_input(messages)[k] == openai_responses::body_items(messages[i])[j],
    decreases messages.len(),
{
    let rest = openai_responses::body_input(messages.drop_last());
    if i == messages.len() - 1 {
        rest.len() + j
    } else {
        responses_items_are_there(messages.drop_last(), i, j)
    }
}

/// A body in the responses protocol holds every tool call of an assistant as an item of
/// its own, with its identifier, its name and its arguments.
pub proof fn responses_body_keeps_tool_calls(ir: RequestView, model: Seq<char>, i: int, j: int)
    requires
        0 <= i < ir.messages.len(),
        ir.messages[i].role is Assistant,
        0 <= j < ir.messages[i].tool_calls.len(),
    ensures
        exists|k: int|
            0 <= k && #[trigger] openai_responses::worker_body(ir, model).at("input"@).item(k)
                == openai_responses::body_call()(ir.messages[i].tool_calls[j]),
        openai_responses::body_call()(ir.messages[i].tool_calls[j]).at("call_id"@)
            == JsonView::Str(ir.messages[i].tool_calls[j].id),
        openai_responses::body_call()(ir.messages[i].tool_calls[j]).at("name"@) == JsonView::Str(
            ir.messages[i].tool_calls[j].name,
        ),
{
    words_differ();
    responses_body_members(ir, model);
    let m = ir.messages[i];
    let offset: int = if m.content.len() > 0 {
        1
    } else {
        0
    };
    assert(openai_responses::body_items(m)[offset + j] == openai_responses::body_call()(
        m.tool_calls[j],
    ));
    let k = responses_items_are_there(ir.messages, i, offset + j);
    assert(openai_responses::worker_body(ir, model).at("input"@).item(k)
        == openai_responses::body_call()(m.tool_calls[j]));
}

/// A body in the responses protocol holds every tool result as an item of its own, with
/// the identifier of its call.
pub proof fn responses_body_keeps_tool_results(ir: RequestView, model: Seq<char>, i: int)
    requires
        0 <= i < ir.messages.len(),
        ir.messages[i].role is Tool,
    ensures
        exists|k: int|
            0 <= k && (#[trigger] openai_responses::worker_body(ir, model).at("input"@).item(
                k,
            )).at("output"@) == JsonView::Str(ir.messages[i].content)
                && openai_responses::worker_body(ir, model).at("input"@).item(k).at(
                "call_id"@,
            ).as_str() == ir.messages[i].tool_call_id,
{
    words_differ();
    responses_body_members(ir, model);
    let k = responses_items_are_there(ir.messages, i, 0);
    let item = openai_responses::worker_body(ir, model).at("input"@).item(k);
    assert(item == openai_responses::body_items(ir.messages[i])[0]);
    assert(item.at("output"@) == JsonView::Str(ir.messages[i].content));
}

/// A body in the responses protocol declares every tool in its place.
pub proof fn responses_body_keeps_tools(ir: RequestView, model: Seq<char>, i: int)
    requires
        0 <= i < ir.tools.len(),
    ensures
        openai_responses::worker_body(ir, model).at("tools"@).item(i)
            == openai_responses::body_tool()(ir.tools[i]),
        openai_responses::worker_body(ir, model).at("tools"@).item(i).at("name"@)
            == JsonView::Str(ir.tools[i].name),
{
    words_differ();
    responses_body_members(ir, model);
}

/// A body in the responses protocol asks for the effort of the request, and for a
/// summary if the request does.
pub proof fn responses_body_keeps_thinking(ir: RequestView, model: Seq<char>)
    requires
        ir.thinking is Some,
    ensures
        openai_responses::worker_body(ir, model).at("reasoning"@).at("effort"@) == JsonView::Str(
            openai_completions::effort_word(ir.thinking->0.effort),
        ),
        openai_responses::worker_body(ir, model).at("reasoning"@).get("summary"@) == (
        if ir.thinking->0.summary {
            Some(JsonView::Str("auto"@))
        } else {
            None
        }),
{
    words_differ();
    responses_body_members(ir, model);
}

/// A body in the responses protocol asks for a stream if the request does.
pub proof fn responses_body_keeps_stream(ir: RequestView, model: Seq<char>)
    requires
        ir.stream,
    ensures
        openai_responses::worker_body(ir, model).at("stream"@) == JsonView::Bool(true),
{
    responses_body_members(ir, model);
}

/// The text of the thoughts of a response, if there is any.
pub open spec fn thought_texts(ir: ResponseView) -> Seq<Seq<char>> {
    match ir.thinking {
        Some(s) => if s.len() > 0 {
            seq![s]
        } else {
            Seq::empty()
        },
        None => Seq::empty(),
    }
}

/// Lines without text before a text are as many line breaks before it.
proof fn blank_lines_join(n: nat, content: Seq<char>)
    ensures
        text::join_of(
            Seq::new(n, |i: int| Seq::<char>::empty()).push(content),
            "\n"@,
        ) == Seq::new(n, |i: int| '\n') + content,
    decreases n,
{
    reveal_strlit("\n");
    let blanks = Seq::new(n, |i: int| Seq::<char>::empty());
    assert(blanks.push(content).drop_last() =~= blanks);
    if n > 0 {
        let m = (n - 1) as nat;
        blank_lines_join(m, Seq::empty());
        assert(blanks =~= Seq::new(m, |i: int| Seq::<char>::empty()).push(Seq::empty()));
        assert(text::join_of(blanks, "\n"@) =~= Seq::new(m, |i: int| '\n'));
        assert(Seq::new(n, |i: int| '\n') + content =~= Seq::new(m, |i: int| '\n') + "\n"@
            + content);
    } else {
        assert(Seq::new(n, |i: int| '\n') + content =~= content);
    }
}

proof fn responses_text_is_read_back(
    ir: ResponseView,
    model: Seq<char>,
    ids: openai_responses::OutputIdsView,
    created_at: i64,
)
    requires
        ids.calls.len() == ir.tool_calls.len(),
    ensures
        ({
            let out = openai_responses::response_out(ir, model, ids, created_at);
            let items = out.output.map_values(openai_responses::out_item_json());
            let texts = items.filter_map(openai_responses::item_text());
            let blanks = Seq::new(ir.tool_calls.len(), |i: int| Seq::<char>::empty());
            &&& texts == (thought_texts(ir) + blanks).push(ir.content)
            &&& thought_texts(ir).len() == 0 ==> text::join_of(texts, "\n"@) == Seq::new(
                ir.tool_calls.len(),
                |i: int| '\n',
            ) + ir.content
        }),
{
    words_differ();
    let out = openai_responses::response_out(ir, model, ids, created_at);
    let json = openai_responses::out_item_json();
    let f = openai_responses::item_text();
    let piece = openai_responses::out_content_json();
    let items = out.output.map_values(json);
    let n = ir.tool_calls.len();
    let first = thought_texts(ir).len() as int;
    let blanks = Seq::new(n, |i: int| Seq::<char>::empty());
    let expected = (thought_texts(ir) + blanks).push(ir.content);
    assert(items.len() == first + n + 1);
    assert forall|i: int| 0 <= i < items.len() implies f(#[trigger] items[i]) == Some(
        expected[i],
    ) by {
        let item = out.output[i];
        assert(items[i] == json(item));
        let pieces = item.content.map_values(piece);
        assert(items[i].at("content"@) == JsonView::Array(pieces));
        let g = openai_responses::piece_text();
        if first <= i < first + n {
            assert(item == openai_responses::call_item(
                ids.calls[i - first],
                ir.tool_calls[i - first],
            ));
            assert(pieces.filter_map(g) =~= Seq::<Seq<char>>::empty());
        } else {
            let s = if i < first {
                ir.thinking->0
            } else {
                ir.content
            };
            assert(item.content.len() == 1 && item.content[0].text == Some(s));
            assert(pieces[0] == piece(item.content[0]));
            assert(pieces[0].at("text"@) == JsonView::Str(s));
            seqs::picks_all(pieces, g, seq![s]);
        }
    }
    seqs::picks_all(items, f, expected);
    if first == 0 {
        assert(expected =~= blanks.push(ir.content));
        blank_lines_join(n, ir.content);
    }
}

/// What is sent of a response in the responses protocol is read back: its counts, its
/// tool calls, and its text, before which stand its thoughts and an empty line for each
/// call.
pub proof fn responses_response_is_read_back(
    ir: ResponseView,
    model: Seq<char>,
    ids: openai_responses::OutputIdsView,
    created_at: i64,
    duration_ms: u64,
    cost_usd: Option<Usd>,
)
    requires
        ids.calls.len() == ir.tool_calls.len(),
        forall|i: int|
            0 <= i < ir.tool_calls.len() ==> reads_back((#[trigger] ir.tool_calls[i]).arguments),
    ensures
        ({
            let body = openai_responses::response_json(
                openai_responses::response_out(ir, model, ids, created_at),
            );
            let items = body.at("output"@).as_array();
            let back = openai_responses::worker_result(
                body,
                items->0,
                model,
                duration_ms,
                cost_usd,
            ).response->0;
            &&& items is Some
            &&& back.id == Some(ids.response)
            &&& back.status == Some("completed"@)
            &&& back.usage.prompt_tokens == ir.usage.prompt_tokens
            &&& back.usage.completion_tokens == ir.usage.completion_tokens
            &&& back.usage.total_tokens == ir.usage.total_tokens
            &&& back.tool_calls == ir.tool_calls
            &&& back.content == text::join_of(
                (thought_texts(ir) + Seq::new(
                    ir.tool_calls.len(),
                    |i: int| Seq::<char>::empty(),
                )).push(ir.content),
                "\n"@,
            )
            &&& thought_texts(ir).len() == 0 ==> back.content == Seq::new(
                ir.tool_calls.len(),
                |i: int| '\n',
            ) + ir.content
            &&& thought_texts(ir).len() == 0 && ir.tool_calls.len() == 0 ==> back.content
                == ir.content
        }),
{
    responses_text_is_read_back(ir, model, ids, created_at);
    words_differ();
    let out = openai_responses::response_out(ir, model, ids, created_at);
    let body = openai_responses::response_json(out);
    let json = openai_responses::out_item_json();
    let f = openai_responses::worker_call();
    counts_are_read_back(ir.usage.prompt_tokens);
    counts_are_read_back(ir.usage.completion_tokens);
    counts_are_read_back(ir.usage.total_tokens);
    let items = out.output.map_values(json);
    assert(body.at("output"@) == JsonView::Array(items));
    let n = ir.tool_calls.len();
    let first = (items.len() - n - 1) as int;
    let thoughts = items.take(first);
    let calls = items.subrange(first, first + n);
    let message = items.skip(first + n);
    assert(items =~= thoughts + calls + message);
    seqs::picks_concat(thoughts + calls, message, f);
    seqs::picks_concat(thoughts, calls, f);
    assert forall|i: int| 0 <= i < thoughts.len() implies f(#[trigger] thoughts[i]) is None by {
        assert(thoughts[i] == json(out.output[i]));
        assert(thoughts[i].at("type"@) == JsonView::Str("reasoning"@));
    }
    seqs::picks_none(thoughts, f);
    assert forall|i: int| 0 <= i < message.len() implies f(#[trigger] message[i]) is None by {
        assert(message[i] == json(out.output[first + n + i]));
        assert(message[i].at("type"@) == JsonView::Str("message"@));
    }
    seqs::picks_none(message, f);
    assert forall|i: int| 0 <= i < calls.len() implies f(#[trigger] calls[i]) == Some(
        ir.tool_calls[i],
    ) by {
        assert(out.output[first + i] == openai_responses::call_item(
            ids.calls[i],
            ir.tool_calls[i],
        ));
        assert(calls[i] == json(out.output[first + i]));
        assert(calls[i].at("type"@) == JsonView::Str("function_call"@));
        assert(calls[i].at("call_id"@) == JsonView::Str(ir.tool_calls[i].id));
        assert(calls[i].at("name"@) == JsonView::Str(ir.tool_calls[i].name));
        assert(calls[i].at("arguments"@) == JsonView::Str(json_text(ir.tool_calls[i].arguments)));
    }
    seqs::picks_all(calls, f, ir.tool_calls);
    assert(items.filter_map(f) =~= ir.tool_calls);
}

// ---------------------------------------------------------------------------
// Anthropic
// ---------------------------------------------------------------------------

proof fn anthropic_body_members(ir: RequestView, model: Seq<char>)
    ensures
        anthropic_messages::worker_body(ir, model).at("messages"@) == JsonView::Array(
            ir.messages.filter_map(anthropic_messages::body_message()),
        ),
        ir.tools.len() > 0 ==> anthropic_messages::worker_body(ir, model).at("tools"@)
            == JsonView::Array(ir.tools.map_values(anthropic_messages::body_tool())),
        ir.stream ==> anthropic_messages::worker_body(ir, model).at("stream"@) == JsonView::Bool(
            true,
        ),
        ir.thinking is Some ==> anthropic_messages::worker_body(ir, model).at("thinking"@)
            == anthropic_messages::body_thinking(ir.thinking->0),
{
    words_differ();
    let b = anthropic_messages::body_members(ir, model);
    let k = protocol::NATIVE_ANTHROPIC@;
    protocol::native_fields_do_not_override(b, ir.native, k, "messages"@);
    if ir.tools.len() > 0 {
        protocol::native_fields_do_not_override(b, ir.native, k, "tools"@);
    }
    if ir.stream {
        protocol::native_fields_do_not_override(b, ir.native, k, "stream"@);
    }
    if ir.thinking is Some {
        protocol::native_fields_do_not_override(b, ir.native, k, "thinking"@);
    }
}

/// An Anthropic body holds every tool call of an assistant as a block of a message of
/// the assistant, with its identifier, its name and its arguments.
pub proof fn anthropic_body_keeps_tool_calls(ir: RequestView, model: Seq<char>, i: int, j: int)
    requires
        0 <= i < ir.messages.len(),
        ir.messages[i].role is Assistant,
        0 <= j < ir.messages[i].tool_calls.len(),
    ensures
        exists|k: int, b: int|
            0 <= k && 0 <= b && (#[trigger] anthropic_messages::worker_body(ir, model).at(
                "messages"@,
            ).item(k).at("content"@).item(b)) == anthropic_messages::body_call()(
                ir.messages[i].tool_calls[j],
            ),
        anthropic_messages::body_call()(ir.messages[i].tool_calls[j]).at("id"@) == JsonView::Str(
            ir.messages[i].tool_calls[j].id,
        ),
        anthropic_messages::body_call()(ir.messages[i].tool_calls[j]).at("name"@)
            == JsonView::Str(ir.messages[i].tool_calls[j].name),
        anthropic_messages::body_call()(ir.messages[i].tool_calls[j]).at("input"@)
            == ir.messages[i].tool_calls[j].arguments,
{
    words_differ();
    anthropic_body_members(ir, model);
    let m = ir.messages[i];
    let f = anthropic_messages::body_message();
    let k = seqs::pick_is_there(ir.messages, f, i);
    let message = anthropic_messages::worker_body(ir, model).at("messages"@).item(k);
    assert(message == f(m)->0);
    let b = anthropic_messages::body_text(m.content).len() + j;
    assert(message.at("content"@).item(b) == anthropic_messages::body_call()(m.tool_calls[j]));
}

/// An Anthropic body holds every tool result as the block of a message of the user, with
/// the identifier of its call and the mark of an error.
pub proof fn anthropic_body_keeps_tool_results(ir: RequestView, model: Seq<char>, i: int)
    requires
        0 <= i < ir.messages.len(),
        ir.messages[i].role is Tool,
    ensures
        exists|k: int|
            0 <= k && (#[trigger] anthropic_messages::worker_body(ir, model).at("messages"@).item(
                k,
            )).at("content"@).item(0) == anthropic_messages::body_result(ir.messages[i]),
        anthropic_messages::body_result(ir.messages[i]).at("content"@) == JsonView::Str(
            ir.messages[i].content,
        ),
        anthropic_messages::body_result(ir.messages[i]).at("tool_use_id"@) == JsonView::Str(
            protocol::or_empty(ir.messages[i].tool_call_id),
        ),
        anthropic_messages::body_result(ir.messages[i]).at("is_error"@).as_bool()
            == ir.messages[i].tool_is_error,
{
    words_differ();
    anthropic_body_members(ir, model);
    let f = anthropic_messages::body_message();
    let k = seqs::pick_is_there(ir.messages, f, i);
    let message = anthropic_messages::worker_body(ir, model).at("messages"@).item(k);
    assert(message == f(ir.messages[i])->0);
    assert(message.at("content"@).item(0) == anthropic_messages::body_result(ir.messages[i]));
}

/// An Anthropic body declares every tool in its place.
pub proof fn anthropic_body_keeps_tools(ir: RequestView, model: Seq<char>, i: int)
    requires
        0 <= i < ir.tools.len(),
    ensures
        anthropic_messages::worker_body(ir, model).at("tools"@).item(i)
            == anthropic_messages::body_tool()(ir.tools[i]),
        anthropic_messages::worker_body(ir, model).at("tools"@).item(i).at("name"@)
            == JsonView::Str(ir.tools[i].name),
{
    words_differ();
    anthropic_body_members(ir, model);
}

/// An Anthropic body asks for thinking as the request does: not at all, adaptively, or
/// within the budget of the request.
pub proof fn anthropic_body_keeps_thinking(ir: RequestView, model: Seq<char>)
    requires
        ir.thinking is Some,
    ensures
        anthropic_messages::worker_body(ir, model).at("thinking"@).at("type"@) == JsonView::Str(
            match ir.thinking->0.effort {
                ThinkingEffort::Disabled => "disabled"@,
                ThinkingEffort::Adaptive => "adaptive"@,
                _ => "enabled"@,
            },
        ),
        !(ir.thinking->0.effort is Disabled) && !(ir.thinking->0.effort is Adaptive)
            && ir.thinking->0.budget_tokens is Some ==> anthropic_messages::worker_body(
            ir,
            model,
        ).at("thinking"@).at("budget_tokens"@) == int_view(
            ir.thinking->0.budget_tokens->0 as int,
        ),
{
    words_differ();
    anthropic_body_members(ir, model);
}

/// The thinking that an Anthropic body asks for is read back: whether it is off, adaptive
/// or on, and its budget; how much of it is wanted is not told in this protocol.
pub proof fn anthropic_thinking_is_read_back(t: ThinkingConfig)
    ensures
        ({
            let back = anthropic_messages::thinking_in(anthropic_messages::body_thinking(t));
            match t.effort {
                ThinkingEffort::Disabled => back.effort is Disabled && back.budget_tokens is None,
                ThinkingEffort::Adaptive => back.effort is Adaptive && back.budget_tokens is None,
                _ => match t.budget_tokens {
                    Some(n) => back.budget_tokens == Some(n) && if n == 0 {
                        back.effort is Disabled
                    } else {
                        back.effort is High
                    },
                    None => back.budget_tokens == Some(-1i32) && back.effort is High,
                },
            }
        }),
{
    words_differ();
}

/// An Anthropic body asks for a stream if the request does.
pub proof fn anthropic_body_keeps_stream(ir: RequestView, model: Seq<char>)
    requires
        ir.stream,
    ensures
        anthropic_messages::worker_body(ir, model).at("stream"@) == JsonView::Bool(true),
{
    anthropic_body_members(ir, model);
}

/// The messages that a message stands for are among those of the conversation.
proof fn anthropic_messages_are_there(
    messages: Seq<anthropic_messages::InMessageView>,
    i: int,
    j: int,
) -> (k: int)
    requires
        0 <= i < messages.len(),
        0 <= j < anthropic_messages::message_in(messages[i]).len(),
    ensures
        0 <= k < anthropic_messages::messages_in(messages).len(),
        anthropic_messages::messages_in(messages)[k] == anthropic_messages::message_in(
            messages[i],
        )[j],
    decreases messages.len(),
{
    let rest = anthropic_messages::messages_in(messages.drop_last());
    if i == messages.len() - 1 {
        rest.len() + j
    } else {
        anthropic_messages_are_there(messages.drop_last(), i, j)
    }
}

/// An Anthropic request keeps its tool results: each is a message of its own, with the
/// identifier of its call and the mark of an error.
pub proof fn anthropic_request_keeps_tool_results(
    req: anthropic_messages::MessagesRequestView,
    i: int,
    blocks: Seq<anthropic_messages::BlockView>,
    j: int,
)
    requires
        0 <= i < req.messages.len(),
        req.messages[i].content == anthropic_messages::ContentView::Blocks(blocks),
        0 <= j < blocks.len(),
        blocks[j].kind == "tool_result"@,
    ensures
        exists|k: int|
            0 <= k < anthropic_messages::request_in(req).messages.len()
                && #[trigger] anthropic_messages::request_in(req).messages[k] == (MessageView {
                role: Role::Tool,
                content: anthropic_messages::result_text(blocks[j].content),
                tool_call_id: Some(protocol::or_empty(blocks[j].tool_use_id)),
                tool_is_error: blocks[j].is_error,
                tool_calls: Seq::empty(),
            }),
{
    let f = anthropic_messages::result_in();
    let r = seqs::pick_is_there(blocks, f, j);
    let k = anthropic_messages_are_there(req.messages, i, r);
    let start = anthropic_messages::system_messages(req.system).len();
    assert(anthropic_messages::request_in(req).messages[start + k] == f(blocks[j])->0);
}

/// An Anthropic request keeps its tool calls: where a message has no tool results, each
/// of its calls is a call of a message of the assistant.
pub proof fn anthropic_request_keeps_tool_calls(
    req: anthropic_messages::MessagesRequestView,
    i: int,
    blocks: Seq<anthropic_messages::BlockView>,
    j: int,
)
    requires
        0 <= i < req.messages.len(),
        req.messages[i].content == anthropic_messages::ContentView::Blocks(blocks),
        forall|b: int| 0 <= b < blocks.len() ==> (#[trigger] blocks[b]).kind != "tool_result"@,
        0 <= j < blocks.len(),
        blocks[j].kind == "tool_use"@,
    ensures
        exists|k: int, c: int|
            0 <= k < anthropic_messages::request_in(req).messages.len() && 0 <= c
                < anthropic_messages::request_in(req).messages[k].tool_calls.len()
                && anthropic_messages::request_in(req).messages[k].role is Assistant && (
            #[trigger] anthropic_messages::request_in(req).messages[k].tool_calls[c]) == (
            ToolCallView {
                id: protocol::or_empty(blocks[j].id),
                name: protocol::or_empty(blocks[j].name),
                arguments: match blocks[j].input {
                    Some(v) => v,
                    None => protocol::empty_object(),
                },
            }),
{
    let f = anthropic_messages::call_in();
    seqs::picks_none(blocks, anthropic_messages::result_in());
    let c = seqs::pick_is_there(blocks, f, j);
    let k = anthropic_messages_are_there(req.messages, i, 0);
    let start = anthropic_messages::system_messages(req.system).len();
    assert(anthropic_messages::request_in(req).messages[start + k].tool_calls[c] == f(
        blocks[j],
    )->0);
}

/// What is sent of a response in Anthropic's protocol is read back: its text, its
/// thoughts, its counts, and the tool calls whose arguments are objects.
pub proof fn anthropic_response_is_read_back(
    ir: ResponseView,
    model: Seq<char>,
    id: Seq<char>,
    duration_ms: u64,
    cost_usd: Option<Usd>,
)
    requires
        forall|i: int|
            0 <= i < ir.tool_calls.len() ==> (#[trigger] ir.tool_calls[i]).arguments is Object,
    ensures
        ({
            let body = anthropic_messages::response_json(
                anthropic_messages::response_out(ir, model, id),
            );
            let back = anthropic_messages::worker_result(
                body,
                model,
                duration_ms,
                cost_usd,
            ).response->0;
            &&& back.id == Some(id)
            &&& back.content == ir.content
            &&& back.thinking == (match ir.thinking {
                Some(s) => protocol::unless_empty(s),
                None => None,
            })
            &&& back.finish_reason == (if ir.tool_calls.len() == 0 {
                ir.finish_reason
            } else {
                "tool_use"@
            })
            &&& back.usage.prompt_tokens == ir.usage.prompt_tokens
            &&& back.usage.completion_tokens == ir.usage.completion_tokens
            &&& back.tool_calls == ir.tool_calls
        }),
{
    words_differ();
    reveal_strlit("");
    let out = anthropic_messages::response_out(ir, model, id);
    let body = anthropic_messages::response_json(out);
    let json = anthropic_messages::out_block_json();
    counts_are_read_back(ir.usage.prompt_tokens);
    counts_are_read_back(ir.usage.completion_tokens);
    let lead_views = anthropic_messages::leading_blocks(ir);
    let lead = lead_views.map_values(json);
    let calls = ir.tool_calls.map_values(anthropic_messages::call_out()).map_values(json);
    let blocks = out.content.map_values(json);
    assert(body.at("content"@) == JsonView::Array(blocks));
    assert(blocks =~= lead + calls);
    assert forall|i: int| 0 <= i < lead.len() implies lead[i].at("type"@) != JsonView::Str(
        "tool_use"@,
    ) by {
        assert(lead[i] == json(lead_views[i]));
    }
    assert forall|i: int| 0 <= i < calls.len() implies calls[i].at("type"@) == JsonView::Str(
        "tool_use"@,
    ) && calls[i].at("text"@) == JsonView::Null && anthropic_messages::worker_call()(
        #[trigger] calls[i],
    ) == Some(ir.tool_calls[i]) by {
        assert(calls[i] == json(anthropic_messages::call_out()(ir.tool_calls[i])));
        assert(calls[i].at("id"@) == JsonView::Str(ir.tool_calls[i].id));
        assert(calls[i].at("name"@) == JsonView::Str(ir.tool_calls[i].name));
    }
    let call = anthropic_messages::worker_call();
    let text = anthropic_messages::worker_text();
    let thought = anthropic_messages::worker_thought();
    seqs::picks_concat(lead, calls, call);
    seqs::picks_none(lead, call);
    seqs::picks_all(calls, call, ir.tool_calls);
    assert(blocks.filter_map(call) =~= ir.tool_calls);
    seqs::picks_concat(lead, calls, text);
    seqs::picks_none(calls, text);
    seqs::picks_concat(lead, calls, thought);
    seqs::picks_none(calls, thought);
    let thoughts: Seq<JsonView> = match ir.thinking {
        Some(s) => if s.len() > 0 {
            seq![json(anthropic_messages::thinking_block(s))]
        } else {
            Seq::empty()
        },
        None => Seq::empty(),
    };
    let texts: Seq<JsonView> = if ir.content.len() > 0 {
        seq![json(anthropic_messages::text_block(ir.content))]
    } else {
        Seq::empty()
    };
    assert(lead =~= thoughts + texts);
    seqs::picks_concat(thoughts, texts, text);
    seqs::picks_concat(thoughts, texts, thought);
    seqs::picks_none(thoughts, text);
    seqs::picks_none(texts, thought);
    if ir.content.len() > 0 {
        assert(texts[0].at("text"@) == JsonView::Str(ir.content));
        seqs::picks_all(texts, text, seq![ir.content]);
    } else {
        seqs::picks_none(texts, text);
        assert(ir.content =~= Seq::<char>::empty());
    }
    let got = blocks.filter_map(text);
    assert(got =~= texts.filter_map(text));
    if thoughts.len() > 0 {
        assert(thoughts[0].at("thinking"@) == JsonView::Str(ir.thinking->0));
        seqs::picks_all(thoughts, thought, seq![ir.thinking->0]);
    } else {
        seqs::picks_none(thoughts, thought);
    }
    assert(blocks.filter_map(thought) =~= thoughts.filter_map(thought));
}

// ---------------------------------------------------------------------------
// Requests in the responses protocol
// ---------------------------------------------------------------------------

/// Whether an assistant makes a call in one of some messages.
pub open spec fn makes_call(messages: Seq<MessageView>, call: ToolCallView) -> bool {
    exists|k: int, c: int|
        0 <= k < messages.len() && 0 <= c < messages[k].tool_calls.len()
            && messages[k].role is Assistant && #[trigger] messages[k].tool_calls[c] == call
}

/// One more item takes no call away, and no message that is not an assistant's.
proof fn item_keeps_calls(
    messages: Seq<MessageView>,
    item: openai_responses::InputItemView,
    call: ToolCallView,
    m: MessageView,
)
    ensures
        makes_call(messages, call) ==> makes_call(
            openai_responses::with_item(messages, item),
            call,
        ),
        messages.contains(m) && !(m.role is Assistant) ==> openai_responses::with_item(
            messages,
            item,
        ).contains(m),
{
    let after = openai_responses::with_item(messages, item);
    if makes_call(messages, call) {
        let (k, c) = choose|k: int, c: int|
            0 <= k < messages.len() && 0 <= c < messages[k].tool_calls.len()
                && messages[k].role is Assistant && #[trigger] messages[k].tool_calls[c] == call;
        assert(after[k].tool_calls[c] == call);
    }
    if messages.contains(m) && !(m.role is Assistant) {
        let k = messages.index_of(m);
        assert(after[k] == m);
    }
}

proof fn items_keep_calls(
    start: Seq<MessageView>,
    items: Seq<openai_responses::InputItemView>,
    i: int,
)
    requires
        0 <= i < items.len(),
    ensures
        items[i] matches openai_responses::InputItemView::FunctionCall { call_id, name, arguments }
            ==> makes_call(
            openai_responses::with_items(start, items),
            ToolCallView { id: call_id, name, arguments: protocol::parsed_or_empty(arguments) },
        ),
        items[i] matches openai_responses::InputItemView::FunctionCallOutput { call_id, output }
            ==> openai_responses::with_items(start, items).contains(
            MessageView {
                role: Role::Tool,
                content: output,
                tool_call_id: Some(call_id),
                tool_is_error: None,
                tool_calls: Seq::empty(),
            },
        ),
    decreases items.len(),
{
    let rest = items.drop_last();
    let before = openai_responses::with_items(start, rest);
    let after = openai_responses::with_items(start, items);
    let m = match items[i] {
        openai_responses::InputItemView::FunctionCallOutput { call_id, output } => MessageView {
            role: Role::Tool,
            content: output,
            tool_call_id: Some(call_id),
            tool_is_error: None,
            tool_calls: Seq::empty(),
        },
        _ => protocol::plain_message(Role::User, Seq::empty()),
    };
    let call = match items[i] {
        openai_responses::InputItemView::FunctionCall { call_id, name, arguments } => ToolCallView {
            id: call_id,
            name,
            arguments: protocol::parsed_or_empty(arguments),
        },
        _ => ToolCallView { id: Seq::empty(), name: Seq::empty(), arguments: JsonView::Null },
    };
    if i < rest.len() {
        items_keep_calls(start, rest, i);
        item_keeps_calls(before, items.last(), call, m);
    } else {
        let last = after[after.len() - 1];
        match items[i] {
            openai_responses::InputItemView::FunctionCall { .. } => {
                assert(after[after.len() - 1].tool_calls[last.tool_calls.len() - 1] == call);
            },
            _ => {},
        }
    }
}

/// A request in the responses protocol keeps its tool calls and its tool results: each
/// call is made by a message of an assistant, and each result is a message of its own.
pub proof fn responses_request_keeps_the_tool_chain(
    req: openai_responses::ResponsesRequestView,
    items: Seq<openai_responses::InputItemView>,
    i: int,
)
    requires
        req.input == openai_responses::InputView::Items(items),
        0 <= i < items.len(),
    ensures
        items[i] matches openai_responses::InputItemView::FunctionCall { call_id, name, arguments }
            ==> makes_call(
            openai_responses::request_in(req).messages,
            ToolCallView { id: call_id, name, arguments: protocol::parsed_or_empty(arguments) },
        ),
        items[i] matches openai_responses::InputItemView::FunctionCallOutput { call_id, output }
            ==> openai_responses::request_in(req).messages.contains(
            MessageView {
                role: Role::Tool,
                content: output,
                tool_call_id: Some(call_id),
                tool_is_error: None,
                tool_calls: Seq::empty(),
            },
        ),
{
    let start: Seq<MessageView> = match req.instructions {
        Some(s) => seq![protocol::plain_message(Role::System, s)],
        None => Seq::empty(),
    };
    let all = openai_responses::messages_in(req.instructions, req.input);
    let kept = openai_responses::request_in(req).messages;
    items_keep_calls(start, items, i);
    openai_responses::deduped_says_everything_once(all);
    match items[i] {
        openai_responses::InputItemView::FunctionCall { call_id, name, arguments } => {
            let call = ToolCallView {
                id: call_id,
                name,
                arguments: protocol::parsed_or_empty(arguments),
            };
            let (k, c) = choose|k: int, c: int|
                0 <= k < all.len() && 0 <= c < all[k].tool_calls.len() && all[k].role is Assistant
                    && #[trigger] all[k].tool_calls[c] == call;
            assert(!openai_responses::is_context(all[k]));
            let j = kept.index_of(all[k]);
            assert(kept[j].tool_calls[c] == call);
        },
        openai_responses::InputItemView::FunctionCallOutput { call_id, output } => {
            let m = MessageView {
                role: Role::Tool,
                content: output,
                tool_call_id: Some(call_id),
                tool_is_error: None,
                tool_calls: Seq::empty(),
            };
            let k = all.index_of(m);
            assert(!openai_responses::is_context(all[k]));
        },
        _ => {},
    }
}

} // verus!
