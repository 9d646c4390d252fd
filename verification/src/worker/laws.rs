//! What holds of one worker: what it is sent, and what is made of its answer.

use vstd::prelude::*;

use crate::config::ApiProtocol;
use crate::error::ErrorView;
use crate::json::JsonView;
use crate::protocol;
use crate::protocol::answer_laws;
use crate::protocol::body_laws;
use crate::protocol::body_laws::{count, spoken};
use crate::protocol::gemini_body_laws;
use crate::protocol::gemini_shadow::{SessionView, StoreView, TurnView};
use crate::protocol::google_genai;
use crate::protocol::request_laws::{is_plain, picks_grow};
use crate::protocol::{MessageView, RequestView, Role, Usd, WorkerResultView};
use crate::text;
use crate::text_laws::{
    numbers_are_read_back, occurs_in_itself, occurs_in_more, only_digits_are_numbers,
};
use crate::worker::exchange::{errand_for, is_settlement, is_store_after, kept_turns, ErrandView};
use crate::worker::{
    accepted, advisory_prompt, body_for, body_of_answer, completed_body, is_response_of,
    is_turn_to_keep, pause_of, prepared, response_of, timed_out, unless_system, unread,
    unreadable, upstream_error, url_of, WorkerView,
};

verus! {

// ---------------------------------------------------------------------------
// What a worker is sent
// ---------------------------------------------------------------------------

/// The conversation that a worker gets under an advisory prompt: the prompt first, and
/// then, one after another, every message that is not from the system.
pub proof fn worker_gets_the_conversation(w: WorkerView, ir: RequestView, m: MessageView)
    requires
        w.advisory_prompt is Some,
    ensures
        ({
            let none = prepared(w, RequestView { messages: Seq::empty(), ..ir }).messages;
            let few = prepared(w, ir).messages;
            let more = prepared(w, RequestView { messages: ir.messages.push(m), ..ir }).messages;
            &&& none.len() == 1
            &&& is_plain(none[0], Role::System, w.advisory_prompt->0)
            &&& m.role is System ==> more == few
            &&& !(m.role is System) ==> more == few.push(m)
        }),
{
    let f = unless_system();
    picks_grow(ir.messages, m, f);
    let start = seq![protocol::plain_message(Role::System, w.advisory_prompt->0)];
    let kept = ir.messages.filter_map(f);
    assert(start + Seq::<MessageView>::empty() =~= start);
    if !(m.role is System) {
        assert(start + kept.push(m) =~= (start + kept).push(m));
    }
}

/// A worker gets every setting of the request, but never a stream, and under an advisory
/// prompt no tools.
pub proof fn worker_gets_every_setting(w: WorkerView, ir: RequestView)
    ensures
        ({
            let asked = prepared(w, ir);
            &&& !asked.stream
            &&& asked.max_tokens == ir.max_tokens
            &&& asked.temperature == ir.temperature
            &&& asked.top_p == ir.top_p
            &&& asked.stop == ir.stop
            &&& asked.api_key == ir.api_key
            &&& asked.thinking == ir.thinking
            &&& asked.session_id == ir.session_id
            &&& asked.system == ir.system
            &&& asked.metadata == ir.metadata
            &&& asked.native == ir.native
            &&& w.advisory_prompt is Some ==> asked.tools.len() == 0 && asked.tool_choice is None
                && asked.parallel_tool_calls is None
            &&& w.advisory_prompt is None ==> asked.tools == ir.tools && asked.tool_choice
                == ir.tool_choice && asked.parallel_tool_calls == ir.parallel_tool_calls
                && asked.messages == ir.messages
        }),
{
}

/// The advisory prompt tells a worker every trait of its personality; without one, it
/// speaks of no working style.
pub proof fn advisory_prompt_tells_the_personality(personality: Seq<Seq<char>>, i: int)
    requires
        0 <= i < personality.len(),
    ensures
        text::contains_of(advisory_prompt(personality), personality[i]),
        text::contains_of(advisory_prompt(personality), "Working style: "@),
{
    let joined = text::join_of(personality, ", "@);
    let p = joined_has(personality, ", "@, i);
    let role =
        "<worker-role>\nYou are an advisory worker in a multi-model fusion panel.\nYou do not have access to the user's real filesystem, repository, shell, browser, or tools.\nThe calling AI client is responsible for reading files, abstracting project details, and implementing changes.\n\nYour job:\n- Analyze only the self-contained abstract task you receive.\n- Provide concrete recommendations, tradeoffs, risks, and implementation guidance.\n- Do not ask to inspect files or call tools.\n- Do not invent repository-specific facts that were not provided.\n- Prefer actionable engineering reasoning over generic advice.\n"@;
    let all = advisory_prompt(personality);
    let at = (role.len() + "\nWorking style: "@.len() + p) as int;
    assert(all.subrange(at, at + personality[i].len()) =~= joined.subrange(
        p,
        p + personality[i].len(),
    ));
    assert(text::occurs_at(all, personality[i], at));
    reveal_strlit("\nWorking style: ");
    reveal_strlit("Working style: ");
    let q = (role.len() + 1) as int;
    assert(all.subrange(q, q + 15) =~= "Working style: "@);
    assert(text::occurs_at(all, "Working style: "@, q));
}

/// Whatever its personality, a worker is told its role, between the marks of the role: that
/// it advises, and that it has no tools to call.
pub proof fn advisory_prompt_tells_the_role(personality: Seq<Seq<char>>)
    ensures
        text::starts_with_of(advisory_prompt(personality), "<worker-role>"@),
        text::ends_with_of(advisory_prompt(personality), "</worker-role>"@),
        text::contains_of(advisory_prompt(personality), "advisory worker"@),
        text::contains_of(
            advisory_prompt(personality),
            "Do not ask to inspect files or call tools."@,
        ),
{
    let all = advisory_prompt(personality);
    let role =
        "<worker-role>\nYou are an advisory worker in a multi-model fusion panel.\nYou do not have access to the user's real filesystem, repository, shell, browser, or tools.\nThe calling AI client is responsible for reading files, abstracting project details, and implementing changes.\n\nYour job:\n- Analyze only the self-contained abstract task you receive.\n- Provide concrete recommendations, tradeoffs, risks, and implementation guidance.\n- Do not ask to inspect files or call tools.\n- Do not invent repository-specific facts that were not provided.\n- Prefer actionable engineering reasoning over generic advice.\n"@;
    reveal_strlit("<worker-role>\nYou are an advisory worker in a multi-model fusion panel.\nYou do not have access to the user's real filesystem, repository, shell, browser, or tools.\nThe calling AI client is responsible for reading files, abstracting project details, and implementing changes.\n\nYour job:\n- Analyze only the self-contained abstract task you receive.\n- Provide concrete recommendations, tradeoffs, risks, and implementation guidance.\n- Do not ask to inspect files or call tools.\n- Do not invent repository-specific facts that were not provided.\n- Prefer actionable engineering reasoning over generic advice.\n");
    reveal_strlit("<worker-role>");
    reveal_strlit("Do not ask to inspect files or call tools.");
    reveal_strlit("advisory worker");
    reveal_strlit("</worker-role>");
    assert(all.subrange(0, 13) =~= "<worker-role>"@);
    assert(role.subrange(25, 40) =~= "advisory worker"@);
    assert(all.subrange(25, 40) =~= role.subrange(25, 40));
    assert(text::occurs_at(all, "advisory worker"@, 25));
    assert(role.subrange(432, 474) =~= "Do not ask to inspect files or call tools."@);
    assert(all.subrange(432, 474) =~= role.subrange(432, 474));
    assert(text::occurs_at(all, "Do not ask to inspect files or call tools."@, 432));
    assert(all.subrange(all.len() - 14, all.len() as int) =~= "</worker-role>"@);
}

/// Each of some texts that are joined stands in the whole.
pub proof fn joined_has(parts: Seq<Seq<char>>, sep: Seq<char>, i: int) -> (p: int)
    requires
        0 <= i < parts.len(),
    ensures
        0 <= p,
        p + parts[i].len() <= text::join_of(parts, sep).len(),
        text::join_of(parts, sep).subrange(p, p + parts[i].len()) == parts[i],
        text::occurs_at(text::join_of(parts, sep), parts[i], p),
    decreases parts.len(),
{
    let all = text::join_of(parts, sep);
    if parts.len() == 1 {
        assert(all.subrange(0, parts[0].len() as int) =~= parts[0]);
        0
    } else {
        let rest = text::join_of(parts.drop_last(), sep);
        if i == parts.len() - 1 {
            let p = (rest.len() + sep.len()) as int;
            assert(all.subrange(p, p + parts[i].len()) =~= parts[i]);
            p
        } else {
            let p = joined_has(parts.drop_last(), sep, i);
            assert(all.subrange(p, p + parts[i].len()) =~= rest.subrange(p, p + parts[i].len()));
            p
        }
    }
}

/// A worker is sent the request that is prepared for it: at its address, with its key, in
/// its protocol, and with the turns that are kept of the session of the request.
pub proof fn errand_is_for_the_worker(
    w: WorkerView,
    ir: RequestView,
    sessions: Seq<SessionView>,
)
    ensures
        ({
            let e = errand_for(w, ir, sessions);
            let provider = (match w.api {
                ApiProtocol::OpenaiCompletions => "openai-completions"@,
                ApiProtocol::OpenaiResponses => "openai-responses"@,
                ApiProtocol::GoogleGenerativeAi => "google-generative-ai"@,
                ApiProtocol::AnthropicMessages => "anthropic-messages"@,
            }) + ":"@ + w.model;
            &&& e.url == url_of(w)
            &&& e.authorization == "Bearer "@ + w.api_key
            &&& e.provider_id == provider
            &&& e.session_id == ir.session_id
            &&& e.body == body_for(
                w,
                prepared(w, ir),
                kept_turns(sessions, provider, ir.session_id),
            )
        }),
{
}

/// A worker is told in its own protocol who said what: every message that is not from the
/// system stands in its place where the protocol has messages, and those of users and of
/// assistants that call no tools have their text. Only the chat protocol has messages of
/// the system among them.
pub proof fn worker_is_told_every_message(
    w: WorkerView,
    ir: RequestView,
    turns: Seq<TurnView>,
    i: int,
)
    requires
        0 <= i < ir.messages.len(),
        ir.messages[i].role is User || (ir.messages[i].role is Assistant
            && ir.messages[i].tool_calls.len() == 0 && ir.messages[i].content.len() > 0),
    ensures
        ({
            let m = ir.messages[i];
            let body = body_for(w, ir, turns);
            let k = spoken(ir.messages.take(i)) as int;
            let said = JsonView::Str(m.content);
            match w.api {
                ApiProtocol::OpenaiCompletions => {
                    &&& body.at("model"@) == JsonView::Str(w.model)
                    &&& count(body.at("messages"@)) == ir.messages.len()
                    &&& body.at("messages"@).item(i).at("content"@) == said
                },
                ApiProtocol::OpenaiResponses => {
                    &&& body.at("model"@) == JsonView::Str(w.model)
                    &&& exists|j: int| #[trigger]
                        body.at("input"@).item(j).at("content"@) == said
                },
                ApiProtocol::GoogleGenerativeAi => {
                    &&& count(body.at("contents"@)) == spoken(ir.messages)
                    &&& body.at("contents"@).item(k).at("parts"@).item(0).at("text"@) == said
                },
                ApiProtocol::AnthropicMessages => {
                    &&& body.at("model"@) == JsonView::Str(w.model)
                    &&& count(body.at("messages"@)) == spoken(ir.messages)
                    &&& body.at("messages"@).item(k).at("content"@) == said
                },
            }
        }),
{
    match w.api {
        ApiProtocol::OpenaiCompletions => {
            body_laws::chat_body_says_every_message(ir, w.model, i);
            body_laws::chat_body_holds_every_setting(ir, w.model);
        },
        ApiProtocol::OpenaiResponses => {
            body_laws::responses_body_says_every_message(ir, w.model, i);
            body_laws::responses_body_holds_every_setting(ir, w.model);
            let start = count(
                protocol::openai_responses::worker_body(
                    body_laws::first_messages(ir, i),
                    w.model,
                ).at("input"@),
            ) as int;
            assert(body_for(w, ir, turns).at("input"@).item(start).at("content"@)
                == JsonView::Str(ir.messages[i].content));
        },
        ApiProtocol::GoogleGenerativeAi => {
            gemini_body_laws::gemini_body_says_every_message(ir, w.model, turns, i);
        },
        ApiProtocol::AnthropicMessages => {
            body_laws::anthropic_body_says_every_message(ir, w.model, i);
            body_laws::anthropic_body_holds_every_setting(ir, w.model);
        },
    }
}

// ---------------------------------------------------------------------------
// What is made of an answer
// ---------------------------------------------------------------------------

/// The answer of a worker is read in its own protocol: as a success of its model, unless
/// it has no choices, no output or no candidates, which is an error.
pub proof fn answer_is_read_in_its_protocol(
    w: WorkerView,
    body: JsonView,
    duration_ms: u64,
    cost_usd: Option<Usd>,
    fresh: Seq<Seq<char>>,
)
    ensures
        ({
            let r = response_of(w, body, duration_ms, cost_usd, fresh);
            let id = body.at(
                if w.api is GoogleGenerativeAi {
                    "responseId"@
                } else {
                    "id"@
                },
            );
            let name = match w.api {
                ApiProtocol::OpenaiCompletions => "openai-completions"@,
                ApiProtocol::OpenaiResponses => "openai-responses"@,
                ApiProtocol::GoogleGenerativeAi => "google-generative-ai"@,
                ApiProtocol::AnthropicMessages => "anthropic-messages"@,
            };
            let fault = match w.api {
                ApiProtocol::OpenaiCompletions => if count(body.at("choices"@)) == 0 {
                    Some("missing choices[0]"@)
                } else {
                    None
                },
                ApiProtocol::OpenaiResponses => if body.at("output"@) is Array {
                    None
                } else {
                    Some("missing output array"@)
                },
                ApiProtocol::GoogleGenerativeAi => if count(body.at("candidates"@)) == 0 {
                    Some("missing candidates[0]"@)
                } else {
                    None
                },
                ApiProtocol::AnthropicMessages => None,
            };
            match fault {
                Some(f) => r == Err::<WorkerResultView, ErrorView>(ErrorView::Protocol(f)),
                None => r matches Ok(result) && answer_laws::is_answer(
                    result,
                    name,
                    w.model,
                    id,
                    duration_ms,
                    cost_usd,
                ),
            }
        }),
{
    match w.api {
        ApiProtocol::OpenaiCompletions => {
            answer_laws::chat_answer_is_read(body, w.model, duration_ms, cost_usd);
        },
        ApiProtocol::OpenaiResponses => {
            if let JsonView::Array(items) = body.at("output"@) {
                answer_laws::responses_answer_is_read(
                    body,
                    items,
                    w.model,
                    duration_ms,
                    cost_usd,
                );
            }
        },
        ApiProtocol::GoogleGenerativeAi => {
            answer_laws::gemini_answer_is_read(body, w.model, duration_ms, cost_usd, fresh);
        },
        ApiProtocol::AnthropicMessages => {
            answer_laws::anthropic_answer_is_read(body, w.model, duration_ms, cost_usd);
        },
    }
}

/// What an error body says is the message of its error, or else its error, its message or
/// its detail, whichever is a text; without any of them it is the text of the body, at
/// most a thousand characters of it, or the status where there is none.
pub proof fn errors_say_what_the_body_says(
    status: u16,
    body: Seq<char>,
    tree: Option<JsonView>,
    s: Seq<char>,
)
    ensures
        ({
            let said = upstream_error(status, body, tree);
            let v = tree->0;
            let inner = v.at("error"@).at("message"@);
            let raw = text::trim_of(body);
            &&& tree is Some && inner == JsonView::Str(s) ==> said == s
            &&& tree is Some && !(inner is Str) && v.at("error"@) == JsonView::Str(s) ==> said == s
            &&& tree is Some && !(inner is Str) && !(v.at("error"@) is Str) && v.at("message"@)
                == JsonView::Str(s) ==> said == s
            &&& tree is Some && !(inner is Str) && !(v.at("error"@) is Str) && !(v.at("message"@)
                is Str) && v.at("detail"@) == JsonView::Str(s) ==> said == s
            &&& tree is None || (!(inner is Str) && !(v.at("error"@) is Str) && !(v.at("message"@)
                is Str) && !(v.at("detail"@) is Str)) ==> {
                &&& 0 < raw.len() <= 1000 ==> said == raw
                &&& raw.len() > 1000 ==> said == raw.take(1000)
                &&& raw.len() == 0 ==> said == "HTTP "@ + crate::worker::status_text_of(status)
            }
        }),
{
    let raw = text::trim_of(body);
    if raw.len() <= 1000 {
        assert(raw.take(raw.len() as int) =~= raw);
    }
}

/// The outcome of an answer is that of the worker: a success has its name, its model and
/// its protocol, and says how long it took and what it cost; a failure keeps no turn.
pub proof fn outcomes_are_those_of_the_worker(
    r: Result<WorkerResultView, ErrorView>,
    w: WorkerView,
    e: ErrandView,
    body: JsonView,
    duration_ms: u64,
    cost_usd: Option<Usd>,
    before: StoreView,
    after: StoreView,
)
    requires
        is_settlement(r, w, e, body, duration_ms, cost_usd, before, after),
    ensures
        r matches Ok(result) ==> {
            &&& result.name == w.name
            &&& result.model == w.model
            &&& result.success
            &&& result.error is None
            &&& result.api == (match w.api {
                ApiProtocol::OpenaiCompletions => "openai-completions"@,
                ApiProtocol::OpenaiResponses => "openai-responses"@,
                ApiProtocol::GoogleGenerativeAi => "google-generative-ai"@,
                ApiProtocol::AnthropicMessages => "anthropic-messages"@,
            })
            &&& result.response matches Some(a)
            &&& a.duration_ms == duration_ms
            &&& a.cost_usd.bits == (match cost_usd {
                Some(c) => c.bits,
                None => 0,
            })
        },
        r is Err ==> after == before,
        r is Err ==> r->Err_0 is Protocol,
        w.api is AnthropicMessages ==> r is Ok,
{
    let fresh = choose|fresh: Seq<Seq<char>>|
        {
            let full = completed_body(w.api, body, fresh);
            &&& #[trigger] google_genai::are_fresh(fresh, google_genai::body_parts(body))
            &&& match r {
                Ok(result) => {
                    &&& result.name == w.name
                    &&& is_response_of(
                        Ok(WorkerResultView { name: ""@, ..result }),
                        w,
                        full,
                        duration_ms,
                        cost_usd,
                    )
                    &&& is_store_after(w, e, full, before, after)
                },
                Err(error) => is_response_of(Err(error), w, full, duration_ms, cost_usd) && after
                    == before,
            }
        };
    let full = completed_body(w.api, body, fresh);
    let read = match r {
        Ok(result) => Ok(WorkerResultView { name: ""@, ..result }),
        Err(error) => Err(error),
    };
    let other = choose|other: Seq<Seq<char>>| #[trigger]
        google_genai::are_fresh(other, google_genai::body_parts(full)) && read == response_of(
            w,
            full,
            duration_ms,
            cost_usd,
            other,
        );
    answer_is_read_in_its_protocol(w, full, duration_ms, cost_usd, other);
}

/// The pause that a header asks for is its number of seconds; anything but a number asks
/// for none.
pub proof fn headers_ask_for_pauses(n: u64, s: Seq<char>, i: int)
    ensures
        pause_of(Some(text::decimal_of(n as nat))) == Some(n),
        pause_of(None) is None,
        pause_of(Some(Seq::empty())) is None,
        0 <= i < s.len() && !('0' <= s[i] <= '9') && (i > 0 || s[i] != '+') ==> pause_of(
            Some(s),
        ) is None,
{
    numbers_are_read_back(n as nat);
    if 0 <= i < s.len() && !('0' <= s[i] <= '9') {
        only_digits_are_numbers(s, i);
    }
    only_digits_are_numbers(seq!['x'], 0);
}

/// What is said of an answer that is not JSON holds what is wrong with it, and the answer,
/// or the beginning of a long one.
pub proof fn unreadable_answers_are_quoted(response_text: Seq<char>)
    ensures
        text::contains_of(unreadable(response_text), crate::json::parse_fault(response_text)),
        response_text.len() <= 500 ==> text::contains_of(unreadable(response_text), response_text),
        response_text.len() > 500 ==> text::contains_of(
            unreadable(response_text),
            response_text.take(500),
        ),
{
    let a = "Failed to parse JSON response: "@;
    let fault = crate::json::parse_fault(response_text);
    let b = "\n--- raw body ---\n"@;
    let shown = text::head_of(response_text, 500);
    let none = Seq::<char>::empty();
    occurs_in_itself(fault);
    occurs_in_more(a, fault, b + shown, fault);
    assert(a + fault + (b + shown) =~= unreadable(response_text));
    occurs_in_itself(shown);
    occurs_in_more(a + fault + b, shown, none, shown);
    assert((a + fault + b) + shown + none =~= unreadable(response_text));
}

/// An answer is a success by its status alone, and then its body is handed on as it is;
/// any other is a failure with its status, with what its body says, and with the pause
/// that its header asks for. A success that is not JSON is an error of the worker that
/// quotes it.
pub proof fn answers_are_taken_by_their_status(
    w: WorkerView,
    status: u16,
    retry_after: Option<Seq<char>>,
    response_text: Seq<char>,
)
    ensures
        ({
            let r = accepted(status, retry_after, response_text);
            &&& r is Ok <==> 200 <= status <= 299
            &&& r matches Ok(body) ==> body == response_text
            &&& r matches Err(e) ==> {
                &&& e is ApiError
                &&& e->ApiError_status == status
                &&& e->ApiError_body == upstream_error(
                    status,
                    response_text,
                    crate::json::parsed_json(response_text),
                )
                &&& e->ApiError_retry_after_secs == pause_of(retry_after)
            }
        }),
        ({
            let r = body_of_answer(w, response_text);
            &&& crate::json::parsed_json(response_text) matches Some(v) ==> r == Ok::<
                JsonView,
                ErrorView,
            >(v)
            &&& crate::json::parsed_json(response_text) is None ==> r is Err && r->Err_0
                is WorkerError && r->Err_0->WorkerError_model == w.model
                && r->Err_0->WorkerError_message == unreadable(response_text)
        }),
{
}

/// A worker that does not answer in time, or whose answer cannot be read, is named by its
/// model, with the time that it was given in milliseconds, or with what went wrong.
pub proof fn failing_workers_are_named(w: WorkerView, timeout_secs: u64, fault: Seq<char>)
    requires
        timeout_secs * 1000 <= u64::MAX,
    ensures
        timed_out(w, timeout_secs) is WorkerTimeout,
        timed_out(w, timeout_secs)->WorkerTimeout_model == w.model,
        timed_out(w, timeout_secs)->WorkerTimeout_duration_ms == timeout_secs * 1000,
        unread(w, fault) is WorkerError,
        unread(w, fault)->WorkerError_model == w.model,
        text::contains_of(unread(w, fault)->WorkerError_message, fault),
{
    let a = "Failed to read response body: "@;
    let none = Seq::<char>::empty();
    occurs_in_itself(fault);
    occurs_in_more(a, fault, none, fault);
    assert(a + fault + none =~= a + fault);
}

/// The turns that a request is sent with are those of its session; a request outside any
/// session is sent with none.
pub proof fn turns_are_those_of_the_request(
    sessions: Seq<SessionView>,
    provider: Seq<char>,
    id: Seq<char>,
)
    ensures
        kept_turns(sessions, provider, None).len() == 0,
        kept_turns(sessions, provider, Some(id)) == protocol::gemini_shadow::turns_of(
            sessions,
            provider,
            id,
        ),
{
}

/// Of an answer of Gemini that calls tools its content is kept as it is, with its calls;
/// of any other answer, and of any other worker, nothing is kept.
pub proof fn turns_are_kept_of_answers_with_calls(
    api: ApiProtocol,
    body: JsonView,
    turn: Option<TurnView>,
)
    requires
        is_turn_to_keep(api, body, turn),
    ensures
        ({
            let content = body.at("candidates"@).item(0).at("content"@);
            let parts = content.at("parts"@);
            let calls = exists|i: int|
                0 <= i < count(parts) && (#[trigger] parts.item(i)).get("functionCall"@) is Some;
            &&& turn is Some <==> api is GoogleGenerativeAi && calls
            &&& turn matches Some(t) ==> t.assistant_content == content && t.tool_calls.len() > 0
        }),
{
    protocol::shadow_laws::kept_content_is_that_of_the_answer(body);
    let v = body.at("candidates"@).item(0).at("content"@).at("parts"@);
    if let Some((content, parts)) = google_genai::kept_content(body) {
        assert(v == JsonView::Array(parts));
        if google_genai::calls_tools(parts) {
            let i = choose|i: int|
                0 <= i < parts.len() && (#[trigger] parts[i]).get("functionCall"@) is Some;
            assert(v.item(i).get("functionCall"@) is Some);
        }
        if exists|i: int| 0 <= i < count(v) && (#[trigger] v.item(i)).get("functionCall"@) is Some {
            let i = choose|i: int|
                0 <= i < count(v) && (#[trigger] v.item(i)).get("functionCall"@) is Some;
            assert(parts[i].get("functionCall"@) is Some);
        }
        if let Some(t) = turn {
            google_genai::turn_has_calls(t, content, parts);
        }
    }
}

} // verus!
