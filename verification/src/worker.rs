//! A worker: one model, asked over one protocol.
//!
//! What is sent and what is made of the answer is decided here; the sending itself is
//! done by the caller.

pub mod exchange;
pub mod laws;

use vstd::prelude::*;

use crate::config;
use crate::config::{ApiProtocol, Config};
use crate::error::{ErrorView, OpenFusionError};
use crate::json;
use crate::json::{parse_fault, parsed_json, Json, JsonView};
use crate::protocol;
use crate::protocol::anthropic_messages;
use crate::protocol::gemini_shadow::{GeminiAssistantTurn, TurnView};
use crate::protocol::google_genai;
use crate::protocol::openai_completions;
use crate::protocol::openai_responses;
use crate::protocol::{
    IntermediateRequest, Message, MessageView, RequestView, Role, Usd, WorkerResult,
    WorkerResultView,
};
use crate::seqs;
use crate::text;

verus! {

// ---------------------------------------------------------------------------
// Workers
// ---------------------------------------------------------------------------

/// A model, and where and how it is asked. A worker with an advisory prompt answers
/// under that prompt and without tools.
#[derive(Debug)]
pub struct Worker {
    pub model: String,
    pub name: String,
    pub api: ApiProtocol,
    pub base_url: String,
    pub api_key: String,
    pub advisory_prompt: Option<String>,
}

#[verifier::ext_equal]
pub struct WorkerView {
    pub model: Seq<char>,
    pub name: Seq<char>,
    pub api: ApiProtocol,
    pub base_url: Seq<char>,
    pub api_key: Seq<char>,
    pub advisory_prompt: Option<Seq<char>>,
}

impl DeepView for Worker {
    type V = WorkerView;

    open spec fn deep_view(&self) -> WorkerView {
        WorkerView {
            model: self.model@,
            name: self.name@,
            api: self.api,
            base_url: self.base_url@,
            api_key: self.api_key@,
            advisory_prompt: self.advisory_prompt.deep_view(),
        }
    }
}

impl Clone for Worker {
    fn clone(&self) -> (r: Self)
        ensures
            r.deep_view() == self.deep_view(),
    {
        Worker {
            model: self.model.clone(),
            name: self.name.clone(),
            api: self.api,
            base_url: self.base_url.clone(),
            api_key: self.api_key.clone(),
            advisory_prompt: self.advisory_prompt.clone(),
        }
    }
}

/// The prompt under which a worker with a personality answers.
pub open spec fn advisory_prompt(personality: Seq<Seq<char>>) -> Seq<char> {
    let role =
        "<worker-role>\nYou are an advisory worker in a multi-model fusion panel.\nYou do not have access to the user's real filesystem, repository, shell, browser, or tools.\nThe calling AI client is responsible for reading files, abstracting project details, and implementing changes.\n\nYour job:\n- Analyze only the self-contained abstract task you receive.\n- Provide concrete recommendations, tradeoffs, risks, and implementation guidance.\n- Do not ask to inspect files or call tools.\n- Do not invent repository-specific facts that were not provided.\n- Prefer actionable engineering reasoning over generic advice.\n"@;
    let style = if personality.len() > 0 {
        role + "\nWorking style: "@ + text::join_of(personality, ", "@) + ".\n"@
    } else {
        role
    };
    style + "</worker-role>"@
}

/// The prompt under which a worker with a personality answers.
pub fn build_advisory_prompt(personality: &Vec<String>) -> (r: String)
    ensures
        r@ == advisory_prompt(personality.deep_view()),
{
    let mut prompt =
        "<worker-role>\nYou are an advisory worker in a multi-model fusion panel.\nYou do not have access to the user's real filesystem, repository, shell, browser, or tools.\nThe calling AI client is responsible for reading files, abstracting project details, and implementing changes.\n\nYour job:\n- Analyze only the self-contained abstract task you receive.\n- Provide concrete recommendations, tradeoffs, risks, and implementation guidance.\n- Do not ask to inspect files or call tools.\n- Do not invent repository-specific facts that were not provided.\n- Prefer actionable engineering reasoning over generic advice.\n".to_owned();
    if personality.len() > 0 {
        prompt.append("\nWorking style: ");
        prompt.append(text::join(personality, ", ").as_str());
        prompt.append(".\n");
    }
    prompt.append("</worker-role>");
    prompt
}

/// A message that does not come from the system.
pub open spec fn unless_system() -> spec_fn(MessageView) -> Option<MessageView> {
    |m: MessageView|
        if m.role is System {
            None
        } else {
            Some(m)
        }
}

/// A request as a worker is asked it: never as a stream; under an advisory prompt with
/// that prompt as the only system message, and without tools.
pub open spec fn prepared(w: WorkerView, ir: RequestView) -> RequestView {
    match w.advisory_prompt {
        Some(prompt) => RequestView {
            messages: seq![protocol::plain_message(Role::System, prompt)]
                + ir.messages.filter_map(unless_system()),
            tools: Seq::empty(),
            tool_choice: None,
            parallel_tool_calls: None,
            stream: false,
            ..ir
        },
        None => RequestView { stream: false, ..ir },
    }
}

/// Under an advisory prompt a worker gets that prompt as the only word of the system, no
/// tools, and every other message of the conversation; without one it gets the request
/// as it is; and a stream is never asked for.
pub proof fn prepared_request_is_plain(w: WorkerView, ir: RequestView)
    ensures
        !prepared(w, ir).stream,
        w.advisory_prompt is None ==> prepared(w, ir).messages == ir.messages && prepared(
            w,
            ir,
        ).tools == ir.tools,
        w.advisory_prompt matches Some(prompt) ==> {
            &&& prepared(w, ir).tools.len() == 0
            &&& prepared(w, ir).messages.len() > 0
            &&& prepared(w, ir).messages[0] == protocol::plain_message(Role::System, prompt)
            &&& forall|i: int|
                1 <= i < prepared(w, ir).messages.len() ==> !((#[trigger] prepared(
                    w,
                    ir,
                ).messages[i]).role is System)
            &&& forall|i: int|
                0 <= i < ir.messages.len() && !((#[trigger] ir.messages[i]).role is System)
                    ==> prepared(w, ir).messages.contains(ir.messages[i])
        },
{
    if w.advisory_prompt is Some {
        let f = unless_system();
        let kept = ir.messages.filter_map(f);
        let all = prepared(w, ir).messages;
        kept_messages_are_not_of_the_system(ir.messages);
        assert forall|i: int| 1 <= i < all.len() implies !((#[trigger] all[i]).role is System) by {
            assert(all[i] == kept[i - 1]);
        }
        assert forall|i: int| 0 <= i < ir.messages.len() && !((
        #[trigger] ir.messages[i]).role is System) implies all.contains(ir.messages[i]) by {
            let k = seqs::pick_is_there(ir.messages, f, i);
            assert(all[k + 1] == ir.messages[i]);
        }
    }
}

proof fn kept_messages_are_not_of_the_system(messages: Seq<MessageView>)
    ensures
        forall|i: int|
            0 <= i < messages.filter_map(unless_system()).len() ==> !((#[trigger] messages.filter_map(
                unless_system(),
            )[i]).role is System),
    decreases messages.len(),
{
    if messages.len() > 0 {
        kept_messages_are_not_of_the_system(messages.drop_last());
    }
}

fn keep_unless_system(m: &Message) -> (r: Option<Message>)
    ensures
        r.deep_view() == unless_system()(m.deep_view()),
{
    match m.role {
        Role::System => None,
        _ => Some(m.clone()),
    }
}

/// The name of a protocol.
pub open spec fn api_name(api: ApiProtocol) -> Seq<char> {
    match api {
        ApiProtocol::OpenaiCompletions => "openai-completions"@,
        ApiProtocol::OpenaiResponses => "openai-responses"@,
        ApiProtocol::GoogleGenerativeAi => "google-generative-ai"@,
        ApiProtocol::AnthropicMessages => "anthropic-messages"@,
    }
}

/// The address of a worker, without slashes at its end; a version at its end is left
/// out where the path brings one.
pub open spec fn base_of(base_url: Seq<char>, path: Seq<char>) -> Seq<char> {
    let base = text::trim_end_char_of(base_url, '/');
    if text::starts_with_of(path, "/v1"@) {
        match text::strip_suffix_of(base, "/v1"@) {
            Some(rest) => rest,
            None => base,
        }
    } else {
        base
    }
}

/// The address that a worker is asked at.
pub open spec fn url_of(w: WorkerView) -> Seq<char> {
    let path = config::path_of(w.api, w.model);
    base_of(w.base_url, path) + path
}

/// The body of a request to a worker, in the protocol of the worker.
pub open spec fn body_for(w: WorkerView, ir: RequestView, turns: Seq<TurnView>) -> JsonView {
    match w.api {
        ApiProtocol::OpenaiCompletions => openai_completions::worker_body(ir, w.model),
        ApiProtocol::OpenaiResponses => openai_responses::worker_body(ir, w.model),
        ApiProtocol::GoogleGenerativeAi => google_genai::worker_body(ir, w.model, turns),
        ApiProtocol::AnthropicMessages => anthropic_messages::worker_body(ir, w.model),
    }
}

/// What a response body says in a protocol, in the common form.
pub open spec fn response_of(
    w: WorkerView,
    body: JsonView,
    duration_ms: u64,
    cost_usd: Option<Usd>,
    fresh: Seq<Seq<char>>,
) -> Result<WorkerResultView, ErrorView> {
    match w.api {
        ApiProtocol::OpenaiCompletions => match openai_completions::first_choice(body) {
            Some(choice) => Ok(
                openai_completions::worker_result(body, choice, w.model, duration_ms, cost_usd),
            ),
            None => Err(ErrorView::Protocol("missing choices[0]"@)),
        },
        ApiProtocol::OpenaiResponses => match body.at("output"@).as_array() {
            Some(items) => Ok(
                openai_responses::worker_result(body, items, w.model, duration_ms, cost_usd),
            ),
            None => Err(ErrorView::Protocol("missing output array"@)),
        },
        ApiProtocol::GoogleGenerativeAi => match google_genai::first_candidate(body) {
            Some(candidate) => Ok(
                google_genai::worker_result(
                    body,
                    candidate,
                    w.model,
                    duration_ms,
                    cost_usd,
                    fresh,
                ),
            ),
            None => Err(ErrorView::Protocol("missing candidates[0]"@)),
        },
        ApiProtocol::AnthropicMessages => Ok(
            anthropic_messages::worker_result(body, w.model, duration_ms, cost_usd),
        ),
    }
}

/// Whether an outcome is what a response body says, with fresh identifiers where some
/// are missing.
pub open spec fn is_response_of(
    r: Result<WorkerResultView, ErrorView>,
    w: WorkerView,
    body: JsonView,
    duration_ms: u64,
    cost_usd: Option<Usd>,
) -> bool {
    exists|fresh: Seq<Seq<char>>| #[trigger]
        google_genai::are_fresh(fresh, google_genai::body_parts(body)) && r == response_of(
            w,
            body,
            duration_ms,
            cost_usd,
            fresh,
        )
}

/// An outcome as a mathematical value.
pub open spec fn outcome(r: Result<WorkerResult, OpenFusionError>) -> Result<
    WorkerResultView,
    ErrorView,
> {
    match r {
        Ok(wr) => Ok(wr.deep_view()),
        Err(e) => Err(e.deep_view()),
    }
}

impl Worker {
    /// A worker that is called like its model and has no advisory prompt.
    pub fn new(model: String, api: ApiProtocol, base_url: String, api_key: String) -> (r: Self)
        ensures
            r.deep_view() == (WorkerView {
                model: model@,
                name: model@,
                api,
                base_url: base_url@,
                api_key: api_key@,
                advisory_prompt: None,
            }),
    {
        Worker { name: model.clone(), model, api, base_url, api_key, advisory_prompt: None }
    }

    /// The worker under another name.
    pub fn with_name(self, name: String) -> (r: Self)
        ensures
            r.deep_view() == (WorkerView { name: name@, ..self.deep_view() }),
    {
        Worker {
            model: self.model,
            name,
            api: self.api,
            base_url: self.base_url,
            api_key: self.api_key,
            advisory_prompt: self.advisory_prompt,
        }
    }

    /// The worker with an advisory prompt for a personality.
    pub fn with_advisory_prompt(self, personality: Vec<String>) -> (r: Self)
        ensures
            r.deep_view() == (WorkerView {
                advisory_prompt: Some(advisory_prompt(personality.deep_view())),
                ..self.deep_view()
            }),
    {
        Worker {
            model: self.model,
            name: self.name,
            api: self.api,
            base_url: self.base_url,
            api_key: self.api_key,
            advisory_prompt: Some(build_advisory_prompt(&personality)),
        }
    }

    /// The request as the worker is asked it.
    pub fn prepare_request(&self, ir: &IntermediateRequest) -> (r: IntermediateRequest)
        ensures
            r.deep_view() == prepared(self.deep_view(), ir.deep_view()),
    {
        let mut request = ir.clone();
        if let Some(prompt) = &self.advisory_prompt {
            let mut messages = seqs::one(protocol::message_of(Role::System, prompt.clone()));
            seqs::extend(
                &mut messages,
                seqs::pick_all(&ir.messages, keep_unless_system, Ghost(unless_system())),
            );
            request.messages = messages;
            request.tools = seqs::none();
            request.tool_choice = None;
            request.parallel_tool_calls = None;
        }
        request.stream = false;
        request
    }

    /// The name of the protocol of the worker.
    pub fn api_str(&self) -> (r: &'static str)
        ensures
            r@ == api_name(self.api),
    {
        match self.api {
            ApiProtocol::OpenaiCompletions => "openai-completions",
            ApiProtocol::OpenaiResponses => "openai-responses",
            ApiProtocol::GoogleGenerativeAi => "google-generative-ai",
            ApiProtocol::AnthropicMessages => "anthropic-messages",
        }
    }

    /// The name under which turns of this worker are kept.
    pub fn provider_id(&self) -> (r: String)
        ensures
            r@ == api_name(self.api) + ":"@ + self.model@,
    {
        let mut r = text::concat(self.api_str(), ":");
        r.append(self.model.as_str());
        r
    }

    /// The address that the worker is asked at.
    pub fn request_url(&self) -> (r: String)
        ensures
            r@ == url_of(self.deep_view()),
    {
        let path = Config::protocol_path(&self.api, self.model.as_str());
        let trimmed = text::trim_end_char(self.base_url.as_str(), '/');
        let base = if text::starts_with(path.as_str(), "/v1") {
            match text::strip_suffix(trimmed.as_str(), "/v1") {
                Some(rest) => rest,
                None => trimmed,
            }
        } else {
            trimmed
        };
        text::concat(base.as_str(), path.as_str())
    }

    /// What the worker is shown as the proof of who asks.
    pub fn authorization(&self) -> (r: String)
        ensures
            r@ == "Bearer "@ + self.api_key@,
    {
        text::concat("Bearer ", self.api_key.as_str())
    }

    /// The body of a request to the worker.
    pub fn build_request_body_with_gemini_shadow(
        &self,
        ir: &IntermediateRequest,
        gemini_shadow_turns: &[GeminiAssistantTurn],
    ) -> (r: Json)
        ensures
            r.deep_view() == body_for(
                self.deep_view(),
                ir.deep_view(),
                gemini_shadow_turns.deep_view(),
            ),
    {
        match self.api {
            ApiProtocol::OpenaiCompletions => openai_completions::build_worker_body(
                ir,
                self.model.as_str(),
            ),
            ApiProtocol::OpenaiResponses => openai_responses::build_worker_body(
                ir,
                self.model.as_str(),
            ),
            ApiProtocol::GoogleGenerativeAi => google_genai::build_worker_body_with_shadow(
                ir,
                self.model.as_str(),
                gemini_shadow_turns,
            ),
            ApiProtocol::AnthropicMessages => anthropic_messages::build_worker_body(
                ir,
                self.model.as_str(),
            ),
        }
    }

    /// What a response body says, in the common form.
    pub fn parse_response(&self, body: &Json, duration_ms: u64, cost_usd: Option<Usd>) -> (r: Result<
        WorkerResult,
        OpenFusionError,
    >)
        ensures
            is_response_of(
                outcome(r),
                self.deep_view(),
                body.deep_view(),
                duration_ms,
                cost_usd,
            ),
    {
        let ghost n = google_genai::body_parts(body.deep_view());
        proof {
            google_genai::fresh_ids_exist(n);
        }
        let ghost some = choose|fresh: Seq<Seq<char>>| google_genai::are_fresh(fresh, n);
        assert(google_genai::are_fresh(some, n));
        match self.api {
            ApiProtocol::OpenaiCompletions => openai_completions::parse_worker_response(
                body,
                self.model.as_str(),
                duration_ms,
                cost_usd,
            ),
            ApiProtocol::OpenaiResponses => openai_responses::parse_worker_response(
                body,
                self.model.as_str(),
                duration_ms,
                cost_usd,
            ),
            ApiProtocol::GoogleGenerativeAi => google_genai::parse_worker_response(
                body,
                self.model.as_str(),
                duration_ms,
                cost_usd,
            ),
            ApiProtocol::AnthropicMessages => anthropic_messages::parse_worker_response(
                body,
                self.model.as_str(),
                duration_ms,
                cost_usd,
            ),
        }
    }
}

// ---------------------------------------------------------------------------
// Answers
// ---------------------------------------------------------------------------

/// The text of a status code, as the `Display` impl of `reqwest::StatusCode` gives it.
pub uninterp spec fn status_text_of(status: u16) -> Seq<char>;

/// `reqwest::StatusCode::from_u16` and its `Display` impl: the code and its reason. The
/// text is a function of the code alone; it is named, not described.
#[verifier::external_body]
fn status_text(status: u16) -> (r: String)
    requires
        100 <= status <= 999,
    ensures
        r@ == status_text_of(status),
{
    match reqwest::StatusCode::from_u16(status) {
        Ok(code) => code.to_string(),
        Err(_) => String::new(),
    }
}

/// What an error body says, if it is JSON that says something: the message of its
/// error, its error, its message or its detail.
pub open spec fn stated_error(body: JsonView) -> Option<Seq<char>> {
    match body.at("error"@).at("message"@).as_str() {
        Some(s) => Some(s),
        None => match body.at("error"@).as_str() {
            Some(s) => Some(s),
            None => match body.at("message"@).as_str() {
                Some(s) => Some(s),
                None => body.at("detail"@).as_str(),
            },
        },
    }
}

/// What an error body says that states nothing: its text, in part, or the status.
pub open spec fn unstated_error(status: u16, body: Seq<char>) -> Seq<char> {
    let raw = text::trim_of(body);
    if raw.len() == 0 {
        "HTTP "@ + status_text_of(status)
    } else {
        text::head_of(raw, 1000)
    }
}

/// What an error body says, given what it holds as JSON.
pub open spec fn upstream_error(status: u16, body: Seq<char>, tree: Option<JsonView>) -> Seq<char> {
    match tree {
        Some(v) => match stated_error(v) {
            Some(s) => s,
            None => unstated_error(status, body),
        },
        None => unstated_error(status, body),
    }
}

/// What an error body says, given what it holds as JSON.
pub fn upstream_error_message(status: u16, response_text: &str, tree: &Option<Json>) -> (r: String)
    requires
        100 <= status <= 999,
    ensures
        r@ == upstream_error(status, response_text@, tree.deep_view()),
{
    if let Some(v) = tree {
        if let Some(s) = v.at("error").at("message").as_str() {
            return s.to_owned();
        }
        if let Some(s) = v.at("error").as_str() {
            return s.to_owned();
        }
        if let Some(s) = v.at("message").as_str() {
            return s.to_owned();
        }
        if let Some(s) = v.at("detail").as_str() {
            return s.to_owned();
        }
    }
    let raw = text::trim(response_text);
    if raw.as_str().is_empty() {
        text::concat("HTTP ", status_text(status).as_str())
    } else {
        text::head(raw.as_str(), 1000)
    }
}

/// What an error body says.
pub fn extract_upstream_error_message(status: u16, response_text: &str) -> (r: String)
    requires
        100 <= status <= 999,
    ensures
        r@ == upstream_error(status, response_text@, parsed_json(response_text@)),
{
    upstream_error_message(status, response_text, &json::parse(response_text))
}

/// The pause that a header asks for, if it holds a number of seconds.
pub open spec fn pause_of(header: Option<Seq<char>>) -> Option<u64> {
    match header {
        Some(s) => text::u64_of(s),
        None => None,
    }
}

/// What is made of an answer by its status: the body of a success, or the error that a
/// failure states.
pub open spec fn accepted(status: u16, retry_after: Option<Seq<char>>, response_text: Seq<char>) -> Result<
    Seq<char>,
    ErrorView,
> {
    if 200 <= status < 300 {
        Ok(response_text)
    } else {
        Err(
            ErrorView::ApiError {
                status,
                body: upstream_error(status, response_text, parsed_json(response_text)),
                retry_after_secs: pause_of(retry_after),
            },
        )
    }
}

/// What is said when a worker does not answer in time.
pub open spec fn timed_out(w: WorkerView, timeout_secs: u64) -> ErrorView {
    ErrorView::WorkerTimeout { model: w.model, duration_ms: (timeout_secs * 1000) as u64 }
}

/// What is said when the body of an answer cannot be read.
pub open spec fn unread(w: WorkerView, fault: Seq<char>) -> ErrorView {
    ErrorView::WorkerError { model: w.model, message: "Failed to read response body: "@ + fault }
}

/// The body of an answer as JSON, or what is said where it is none.
pub open spec fn body_of_answer(w: WorkerView, response_text: Seq<char>) -> Result<
    JsonView,
    ErrorView,
> {
    match parsed_json(response_text) {
        Some(v) => Ok(v),
        None => Err(
            ErrorView::WorkerError { model: w.model, message: unreadable(response_text) },
        ),
    }
}

/// What is made of an answer by its status: the body of a success, or the error that a
/// failure states.
pub fn accept_answer(
    status: u16,
    retry_after: &Option<String>,
    response_text: String,
) -> (r: Result<String, OpenFusionError>)
    requires
        100 <= status <= 999,
    ensures
        if 200 <= status < 300 {
            r matches Ok(body) && body@ == response_text@
        } else {
            r matches Err(e) && e.deep_view() == (ErrorView::ApiError {
                status,
                body: upstream_error(status, response_text@, parsed_json(response_text@)),
                retry_after_secs: pause_of(retry_after.deep_view()),
            })
        },
        match accepted(status, retry_after.deep_view(), response_text@) {
            Ok(body) => r matches Ok(s) && s@ == body,
            Err(error) => r matches Err(e) && e.deep_view() == error,
        },
{
    if 200 <= status && status < 300 {
        return Ok(response_text);
    }
    let retry_after_secs = match retry_after {
        Some(s) => text::parse_u64(s.as_str()),
        None => None,
    };
    Err(
        OpenFusionError::ApiError {
            status,
            body: extract_upstream_error_message(status, response_text.as_str()),
            retry_after_secs,
        },
    )
}

/// What is said of an answer that is not JSON.
pub open spec fn unreadable(response_text: Seq<char>) -> Seq<char> {
    "Failed to parse JSON response: "@ + parse_fault(response_text) + "\n--- raw body ---\n"@
        + text::head_of(response_text, 500)
}

/// Whether the body of an answer can be worked on: what Gemini sends is an object, or
/// nothing at all.
pub open spec fn is_workable(api: ApiProtocol, body: JsonView) -> bool {
    api is GoogleGenerativeAi ==> body is Null || body is Object
}

/// What an answer gives: the result, and the turn to be kept, if there is one.
#[derive(Debug)]
pub struct Received {
    pub result: WorkerResult,
    pub turn: Option<GeminiAssistantTurn>,
}

/// The body of an answer with identifiers for its function calls, where the protocol
/// needs them.
pub open spec fn completed_body(api: ApiProtocol, body: JsonView, fresh: Seq<Seq<char>>) -> JsonView {
    if api is GoogleGenerativeAi {
        google_genai::rectified_body(body, fresh)
    } else {
        body
    }
}

/// Whether a turn is the one to be kept of a body: that of Gemini, if it calls tools.
pub open spec fn is_turn_to_keep(api: ApiProtocol, body: JsonView, turn: Option<TurnView>) -> bool {
    match google_genai::kept_content(body) {
        Some((content, parts)) => if api is GoogleGenerativeAi && google_genai::calls_tools(parts) {
            turn matches Some(t) && google_genai::is_turn_of(t, content, parts)
        } else {
            turn is None
        },
        None => turn is None,
    }
}

/// Whether an outcome is what a body gives: first its function calls get identifiers,
/// then it is read, then the result gets the name of the worker.
pub open spec fn is_reception(
    r: Result<Received, OpenFusionError>,
    w: WorkerView,
    body: JsonView,
    duration_ms: u64,
    cost_usd: Option<Usd>,
) -> bool {
    match r {
        Ok(received) => {
            let result = received.result.deep_view();
            &&& result.name == w.name
            &&& is_response_of(
                Ok(WorkerResultView { name: ""@, ..result }),
                w,
                body,
                duration_ms,
                cost_usd,
            )
            &&& is_turn_to_keep(w.api, body, received.turn.deep_view())
        },
        Err(e) => is_response_of(Err(e.deep_view()), w, body, duration_ms, cost_usd),
    }
}

impl Worker {
    /// What is said when the worker does not answer in time.
    pub fn timeout_error(&self, timeout_secs: u64) -> (r: OpenFusionError)
        requires
            timeout_secs * 1000 <= u64::MAX,
        ensures
            r.deep_view() == (ErrorView::WorkerTimeout {
                model: self.model@,
                duration_ms: (timeout_secs * 1000) as u64,
            }),
            r.deep_view() == timed_out(self.deep_view(), timeout_secs),
    {
        OpenFusionError::WorkerTimeout {
            model: self.model.clone(),
            duration_ms: timeout_secs * 1000,
        }
    }

    /// What is said when the body of an answer cannot be read.
    pub fn read_error(&self, fault: &str) -> (r: OpenFusionError)
        ensures
            r.deep_view() == (ErrorView::WorkerError {
                model: self.model@,
                message: "Failed to read response body: "@ + fault@,
            }),
            r.deep_view() == unread(self.deep_view(), fault@),
    {
        OpenFusionError::WorkerError {
            model: self.model.clone(),
            message: text::concat("Failed to read response body: ", fault),
        }
    }

    /// The body of an answer as JSON.
    pub fn parse_body(&self, response_text: &str) -> (r: Result<Json, OpenFusionError>)
        ensures
            match parsed_json(response_text@) {
                Some(v) => r matches Ok(body) && body.deep_view() == v,
                None => r matches Err(e) && e.deep_view() == (ErrorView::WorkerError {
                    model: self.model@,
                    message: unreadable(response_text@),
                }),
            },
            match body_of_answer(self.deep_view(), response_text@) {
                Ok(v) => r matches Ok(body) && body.deep_view() == v,
                Err(error) => r matches Err(e) && e.deep_view() == error,
            },
    {
        match json::parse_or_fault(response_text) {
            Ok(body) => Ok(body),
            Err(fault) => {
                let mut message = text::concat("Failed to parse JSON response: ", fault.as_str());
                message.append("\n--- raw body ---\n");
                message.append(text::head(response_text, 500).as_str());
                Err(OpenFusionError::WorkerError { model: self.model.clone(), message })
            },
        }
    }

    /// Gives the function calls in the body of an answer identifiers, where the protocol
    /// needs them.
    pub fn complete_body(&self, body: &mut Json)
        requires
            is_workable(self.api, old(body).deep_view()),
        ensures
            exists|fresh: Seq<Seq<char>>| #[trigger]
                google_genai::are_fresh(
                    fresh,
                    google_genai::body_parts(old(body).deep_view()),
                ) && final(body).deep_view() == completed_body(
                    self.api,
                    old(body).deep_view(),
                    fresh,
                ),
    {
        let ghost n = google_genai::body_parts(body.deep_view());
        proof {
            google_genai::fresh_ids_exist(n);
        }
        let ghost some = choose|fresh: Seq<Seq<char>>| google_genai::are_fresh(fresh, n);
        assert(google_genai::are_fresh(some, n));
        if matches!(self.api, ApiProtocol::GoogleGenerativeAi) {
            google_genai::rectify_response_missing_function_call_ids(body);
        }
    }

    /// What the body of an answer gives, once its function calls have identifiers.
    pub fn receive(&self, body: &Json, duration_ms: u64, cost_usd: Option<Usd>) -> (r: Result<
        Received,
        OpenFusionError,
    >)
        ensures
            is_reception(r, self.deep_view(), body.deep_view(), duration_ms, cost_usd),
    {
        let mut result = match self.parse_response(body, duration_ms, cost_usd) {
            Ok(result) => result,
            Err(e) => {
                return Err(e);
            },
        };
        let ghost parsed = result.deep_view();
        assert(parsed.name == ""@);
        result.name = self.name.clone();
        assert((WorkerResultView { name: ""@, ..result.deep_view() }) == parsed);
        let mut turn: Option<GeminiAssistantTurn> = None;
        if matches!(self.api, ApiProtocol::GoogleGenerativeAi) {
            if let Some(t) = google_genai::extract_assistant_shadow_turn(body) {
                proof {
                    if let Some((content, parts)) = google_genai::kept_content(body.deep_view()) {
                        google_genai::turn_has_calls(t.deep_view(), content, parts);
                    }
                }
                if t.tool_calls.len() > 0 {
                    turn = Some(t);
                }
            }
        }
        Ok(Received { result, turn })
    }
}

} // verus!
