//! Every protocol against every other: whatever protocol a request comes in by, a
//! worker of any protocol is shown its tool calls and its tool results.

use vstd::prelude::*;

use crate::config::ApiProtocol;
use crate::json::JsonView;
use crate::protocol;
use crate::protocol::anthropic_messages;
use crate::protocol::gemini_laws;
use crate::protocol::google_genai;
use crate::protocol::laws;
use crate::protocol::laws::makes_call;
use crate::protocol::openai_completions;
use crate::protocol::openai_responses;
use crate::protocol::words::words_differ;
use crate::protocol::{MessageView, RequestView, Role, ToolCallView};
use crate::worker::{body_for, WorkerView};

verus! {

/// Whether a body shows a tool call in a protocol.
pub open spec fn shows_call(api: ApiProtocol, body: JsonView, call: ToolCallView) -> bool {
    match api {
        ApiProtocol::OpenaiCompletions => exists|k: int, c: int|
            0 <= k && 0 <= c && (#[trigger] body.at("messages"@).item(k).at("tool_calls"@).item(c))
                == openai_completions::body_call()(call),
        ApiProtocol::OpenaiResponses => exists|k: int|
            0 <= k && (#[trigger] body.at("input"@).item(k)) == openai_responses::body_call()(call),
        ApiProtocol::AnthropicMessages => exists|k: int, b: int|
            0 <= k && 0 <= b && (#[trigger] body.at("messages"@).item(k).at("content"@).item(b))
                == anthropic_messages::body_call()(call),
        ApiProtocol::GoogleGenerativeAi => exists|k: int, p: int|
            0 <= k && 0 <= p && (#[trigger] body.at("contents"@).item(k).at("parts"@).item(p))
                == google_genai::call_part(call, None),
    }
}

/// Whether a body shows a tool result in a protocol.
pub open spec fn shows_result(api: ApiProtocol, body: JsonView, m: MessageView) -> bool {
    match api {
        ApiProtocol::OpenaiCompletions => exists|k: int|
            0 <= k && (#[trigger] body.at("messages"@).item(k)).at("content"@) == JsonView::Str(
                m.content,
            ) && body.at("messages"@).item(k).at("tool_call_id"@).as_str() == m.tool_call_id,
        ApiProtocol::OpenaiResponses => exists|k: int|
            0 <= k && (#[trigger] body.at("input"@).item(k)).at("output"@) == JsonView::Str(
                m.content,
            ) && body.at("input"@).item(k).at("call_id"@).as_str() == m.tool_call_id,
        ApiProtocol::AnthropicMessages => exists|k: int|
            0 <= k && (#[trigger] body.at("messages"@).item(k)).at("content"@).item(0)
                == anthropic_messages::body_result(m),
        ApiProtocol::GoogleGenerativeAi => exists|k: int|
            0 <= k && (#[trigger] body.at("contents"@).item(k)).at("parts"@).item(0).at(
                "functionResponse"@,
            ).at("response"@).at("content"@) == JsonView::Str(m.content),
    }
}

/// A worker of any protocol is shown every tool call of a conversation.
pub proof fn worker_is_shown_every_call(w: WorkerView, ir: RequestView, call: ToolCallView)
    requires
        makes_call(ir.messages, call),
    ensures
        shows_call(w.api, body_for(w, ir, Seq::empty()), call),
{
    let (i, j) = choose|i: int, j: int|
        0 <= i < ir.messages.len() && 0 <= j < ir.messages[i].tool_calls.len()
            && ir.messages[i].role is Assistant && #[trigger] ir.messages[i].tool_calls[j] == call;
    match w.api {
        ApiProtocol::OpenaiCompletions => {
            laws::chat_body_keeps_tool_calls(ir, w.model, i, j);
        },
        ApiProtocol::OpenaiResponses => {
            laws::responses_body_keeps_tool_calls(ir, w.model, i, j);
        },
        ApiProtocol::AnthropicMessages => {
            laws::anthropic_body_keeps_tool_calls(ir, w.model, i, j);
        },
        ApiProtocol::GoogleGenerativeAi => {
            gemini_laws::gemini_body_keeps_tool_calls(ir, w.model, Seq::empty(), i, j);
        },
    }
}

/// A worker of any protocol is shown every tool result of a conversation.
pub proof fn worker_is_shown_every_result(w: WorkerView, ir: RequestView, m: MessageView)
    requires
        ir.messages.contains(m),
        m.role is Tool,
    ensures
        shows_result(w.api, body_for(w, ir, Seq::empty()), m),
{
    let i = ir.messages.index_of(m);
    match w.api {
        ApiProtocol::OpenaiCompletions => {
            laws::chat_body_keeps_tool_results(ir, w.model, i);
        },
        ApiProtocol::OpenaiResponses => {
            laws::responses_body_keeps_tool_results(ir, w.model, i);
        },
        ApiProtocol::AnthropicMessages => {
            laws::anthropic_body_keeps_tool_results(ir, w.model, i);
        },
        ApiProtocol::GoogleGenerativeAi => {
            gemini_laws::gemini_body_keeps_tool_results(ir, w.model, Seq::empty(), i);
        },
    }
}

/// A tool call of a chat request reaches a worker of any protocol.
pub proof fn chat_calls_reach_every_worker(
    w: WorkerView,
    req: openai_completions::ChatRequestView,
    i: int,
    j: int,
)
    requires
        0 <= i < req.messages.len(),
        req.messages[i].role == "assistant"@,
        0 <= j < req.messages[i].tool_calls.len(),
    ensures
        shows_call(
            w.api,
            body_for(w, openai_completions::request_in(req), Seq::empty()),
            ToolCallView {
                id: req.messages[i].tool_calls[j].id,
                name: req.messages[i].tool_calls[j].name,
                arguments: protocol::parsed_or_empty(req.messages[i].tool_calls[j].arguments),
            },
        ),
{
    words_differ();
    let ir = openai_completions::request_in(req);
    laws::chat_request_keeps_tool_calls(req, i, j);
    let call = ir.messages[i].tool_calls[j];
    assert(makes_call(ir.messages, call));
    worker_is_shown_every_call(w, ir, call);
}

/// A tool result of a chat request reaches a worker of any protocol.
pub proof fn chat_results_reach_every_worker(
    w: WorkerView,
    req: openai_completions::ChatRequestView,
    i: int,
)
    requires
        0 <= i < req.messages.len(),
        req.messages[i].role == "tool"@,
    ensures
        shows_result(
            w.api,
            body_for(w, openai_completions::request_in(req), Seq::empty()),
            openai_completions::message_in()(req.messages[i]),
        ),
{
    words_differ();
    let ir = openai_completions::request_in(req);
    assert(ir.messages[i] == openai_completions::message_in()(req.messages[i]));
    worker_is_shown_every_result(w, ir, ir.messages[i]);
}

/// A tool call of an Anthropic request reaches a worker of any protocol.
pub proof fn anthropic_calls_reach_every_worker(
    w: WorkerView,
    req: anthropic_messages::MessagesRequestView,
    i: int,
    blocks: Seq<anthropic_messages::BlockView>,
    j: int,
)
    requires
        0 <= i < req.messages.len(),
        req.messages[i].content == anthropic_messages::ContentView::Blocks(blocks),
        forall|b: int| 0 <= b < blocks.len() ==> (#[trigger] blocks[b]).kind != "tool_result"@,
        0 <= j < blocks.len(),
        blocks[j].kind == "tool_use"@,
    ensures
        shows_call(
            w.api,
            body_for(w, anthropic_messages::request_in(req), Seq::empty()),
            ToolCallView {
                id: protocol::or_empty(blocks[j].id),
                name: protocol::or_empty(blocks[j].name),
                arguments: match blocks[j].input {
                    Some(v) => v,
                    None => protocol::empty_object(),
                },
            },
        ),
{
    laws::anthropic_request_keeps_tool_calls(req, i, blocks, j);
    let call = ToolCallView {
        id: protocol::or_empty(blocks[j].id),
        name: protocol::or_empty(blocks[j].name),
        arguments: match blocks[j].input {
            Some(v) => v,
            None => protocol::empty_object(),
        },
    };
    worker_is_shown_every_call(w, anthropic_messages::request_in(req), call);
}

/// A tool result of an Anthropic request reaches a worker of any protocol.
pub proof fn anthropic_results_reach_every_worker(
    w: WorkerView,
    req: anthropic_messages::MessagesRequestView,
    i: int,
    blocks: Seq<anthropic_messages::BlockView>,
    j: int,
)
    requires
        0 <= i < req.messages.len(),
        req.messages[i].content == anthropic_messages::ContentView::Blocks(blocks),
        0 <= j < blocks.len(),
        blocks[j].kind == "tool_result"@,
    ensures
        shows_result(
            w.api,
            body_for(w, anthropic_messages::request_in(req), Seq::empty()),
            anthropic_messages::result_in()(blocks[j])->0,
        ),
{
    laws::anthropic_request_keeps_tool_results(req, i, blocks, j);
    let m = anthropic_messages::result_in()(blocks[j])->0;
    worker_is_shown_every_result(w, anthropic_messages::request_in(req), m);
}

/// A tool call and a tool result of a request in the responses protocol reach a worker
/// of any protocol.
pub proof fn responses_items_reach_every_worker(
    w: WorkerView,
    req: openai_responses::ResponsesRequestView,
    items: Seq<openai_responses::InputItemView>,
    i: int,
)
    requires
        req.input == openai_responses::InputView::Items(items),
        0 <= i < items.len(),
    ensures
        items[i] matches openai_responses::InputItemView::FunctionCall { call_id, name, arguments }
            ==> shows_call(
            w.api,
            body_for(w, openai_responses::request_in(req), Seq::empty()),
            ToolCallView { id: call_id, name, arguments: protocol::parsed_or_empty(arguments) },
        ),
        items[i] matches openai_responses::InputItemView::FunctionCallOutput { call_id, output }
            ==> shows_result(
            w.api,
            body_for(w, openai_responses::request_in(req), Seq::empty()),
            MessageView {
                role: Role::Tool,
                content: output,
                tool_call_id: Some(call_id),
                tool_is_error: None,
                tool_calls: Seq::empty(),
            },
        ),
{
    let ir = openai_responses::request_in(req);
    laws::responses_request_keeps_the_tool_chain(req, items, i);
    match items[i] {
        openai_responses::InputItemView::FunctionCall { call_id, name, arguments } => {
            worker_is_shown_every_call(
                w,
                ir,
                ToolCallView { id: call_id, name, arguments: protocol::parsed_or_empty(arguments) },
            );
        },
        openai_responses::InputItemView::FunctionCallOutput { call_id, output } => {
            worker_is_shown_every_result(
                w,
                ir,
                MessageView {
                    role: Role::Tool,
                    content: output,
                    tool_call_id: Some(call_id),
                    tool_is_error: None,
                    tool_calls: Seq::empty(),
                },
            );
        },
        _ => {},
    }
}

/// A function call of a Gemini request reaches a worker of any protocol.
pub proof fn gemini_calls_reach_every_worker(
    w: WorkerView,
    req: google_genai::GenAiRequestView,
    i: int,
    j: int,
)
    requires
        0 <= i < req.contents.len(),
        req.contents[i].role == Some("model"@),
        forall|p: int|
            0 <= p < req.contents[i].parts.len() ==> (
            #[trigger] req.contents[i].parts[p]).function_response is None,
        0 <= j < req.contents[i].parts.len(),
        req.contents[i].parts[j].function_call is Some,
    ensures
        exists|call: ToolCallView| #[trigger]
            shows_call(
                w.api,
                body_for(w, google_genai::request_in(req), Seq::empty()),
                call,
            ) && call.name == req.contents[i].parts[j].function_call->0.name && call.arguments
                == req.contents[i].parts[j].function_call->0.args && (
            req.contents[i].parts[j].function_call->0.id matches Some(id) ==> call.id == id),
{
    let ir = google_genai::request_in(req);
    gemini_laws::gemini_request_keeps_tool_calls(req, i, j);
    let call = choose|call: ToolCallView| #[trigger]
        makes_call(ir.messages, call) && call.name
            == req.contents[i].parts[j].function_call->0.name && call.arguments
            == req.contents[i].parts[j].function_call->0.args && (
        req.contents[i].parts[j].function_call->0.id matches Some(id) ==> call.id == id);
    worker_is_shown_every_call(w, ir, call);
}

/// A function response of a Gemini request reaches a worker of any protocol.
pub proof fn gemini_results_reach_every_worker(
    w: WorkerView,
    req: google_genai::GenAiRequestView,
    i: int,
    j: int,
)
    requires
        0 <= i < req.contents.len(),
        0 <= j < req.contents[i].parts.len(),
        req.contents[i].parts[j].function_response is Some,
    ensures
        shows_result(
            w.api,
            body_for(w, google_genai::request_in(req), Seq::empty()),
            google_genai::result_in()(req.contents[i].parts[j])->0,
        ),
{
    let m = google_genai::result_in()(req.contents[i].parts[j])->0;
    gemini_laws::gemini_request_keeps_tool_results(req, i, j);
    worker_is_shown_every_result(w, google_genai::request_in(req), m);
}

} // verus!
