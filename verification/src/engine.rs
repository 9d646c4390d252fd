//! The panel: who is asked, what the judge is told, and what comes out.
//!
//! The engine decides; asking the models, waiting and keeping sessions is done by the
//! caller.

pub mod judge;
pub mod judge_laws;
pub mod laws;
pub mod run;
pub mod session;
pub mod session_laws;

use vstd::prelude::*;

use crate::config;
use crate::config::{Config, ConfigView, EndpointView};
use crate::error;
use crate::error::{ErrorView, OpenFusionError, DEFAULT_TRANSIENT_RETRIES};
use crate::ids;
use crate::protocol;
use crate::protocol::{
    IntermediateRequest, Message, MessageView, RequestView, Role, ToolCall, ToolCallView, Usd,
    WorkerResult, WorkerResultView,
};
use crate::seqs;
use crate::text;
use crate::worker::{advisory_prompt, Worker, WorkerView};

verus! {

// ---------------------------------------------------------------------------
// Results
// ---------------------------------------------------------------------------

/// What a run of the panel comes to.
#[derive(Debug)]
pub struct FusionResult {
    pub session_id: String,
    pub judge_response: Option<WorkerResult>,
    pub worker_results: Vec<WorkerResult>,
    pub enhanced_prompt_used: bool,
    pub synthesis: Option<String>,
    pub consensus: Vec<String>,
    pub contradictions: Vec<Contradiction>,
    pub blind_spots: Vec<String>,
    pub judge_output_raw: Option<String>,
    pub passthrough_tool_calls: Vec<ToolCall>,
    pub total_cost_usd: Usd,
    pub models_succeeded: usize,
    pub models_failed: usize,
    pub duration_ms: u64,
    pub timestamp: String,
    pub original_prompt: String,
}

/// A topic on which models disagree.
#[derive(Debug)]
pub struct Contradiction {
    pub topic: String,
    pub views: Vec<ContradictionView>,
}

/// What one model holds on a topic.
#[derive(Debug)]
pub struct ContradictionView {
    pub model: String,
    pub position: String,
}

#[verifier::ext_equal]
pub struct FusionResultView {
    pub session_id: Seq<char>,
    pub judge_response: Option<WorkerResultView>,
    pub worker_results: Seq<WorkerResultView>,
    pub enhanced_prompt_used: bool,
    pub synthesis: Option<Seq<char>>,
    pub consensus: Seq<Seq<char>>,
    pub contradictions: Seq<ContradictionModel>,
    pub blind_spots: Seq<Seq<char>>,
    pub judge_output_raw: Option<Seq<char>>,
    pub passthrough_tool_calls: Seq<ToolCallView>,
    pub total_cost_usd: Usd,
    pub models_succeeded: usize,
    pub models_failed: usize,
    pub duration_ms: u64,
    pub timestamp: Seq<char>,
    pub original_prompt: Seq<char>,
}

#[verifier::ext_equal]
pub struct ContradictionModel {
    pub topic: Seq<char>,
    pub views: Seq<PositionModel>,
}

#[verifier::ext_equal]
pub struct PositionModel {
    pub model: Seq<char>,
    pub position: Seq<char>,
}

impl DeepView for ContradictionView {
    type V = PositionModel;

    open spec fn deep_view(&self) -> PositionModel {
        PositionModel { model: self.model@, position: self.position@ }
    }
}

impl DeepView for Contradiction {
    type V = ContradictionModel;

    open spec fn deep_view(&self) -> ContradictionModel {
        ContradictionModel { topic: self.topic@, views: self.views.deep_view() }
    }
}

impl DeepView for FusionResult {
    type V = FusionResultView;

    open spec fn deep_view(&self) -> FusionResultView {
        FusionResultView {
            session_id: self.session_id@,
            judge_response: self.judge_response.deep_view(),
            worker_results: self.worker_results.deep_view(),
            enhanced_prompt_used: self.enhanced_prompt_used,
            synthesis: self.synthesis.deep_view(),
            consensus: self.consensus.deep_view(),
            contradictions: self.contradictions.deep_view(),
            blind_spots: self.blind_spots.deep_view(),
            judge_output_raw: self.judge_output_raw.deep_view(),
            passthrough_tool_calls: self.passthrough_tool_calls.deep_view(),
            total_cost_usd: self.total_cost_usd,
            models_succeeded: self.models_succeeded,
            models_failed: self.models_failed,
            duration_ms: self.duration_ms,
            timestamp: self.timestamp@,
            original_prompt: self.original_prompt@,
        }
    }
}

impl Clone for ContradictionView {
    fn clone(&self) -> (r: Self)
        ensures
            r.deep_view() == self.deep_view(),
    {
        ContradictionView { model: self.model.clone(), position: self.position.clone() }
    }
}

impl Clone for Contradiction {
    fn clone(&self) -> (r: Self)
        ensures
            r.deep_view() == self.deep_view(),
    {
        Contradiction { topic: self.topic.clone(), views: protocol::copy_vec(&self.views) }
    }
}

impl Clone for FusionResult {
    fn clone(&self) -> (r: Self)
        ensures
            r.deep_view() == self.deep_view(),
    {
        FusionResult {
            session_id: self.session_id.clone(),
            judge_response: self.judge_response.clone(),
            worker_results: protocol::copy_vec(&self.worker_results),
            enhanced_prompt_used: self.enhanced_prompt_used,
            synthesis: self.synthesis.clone(),
            consensus: protocol::copy_vec(&self.consensus),
            contradictions: protocol::copy_vec(&self.contradictions),
            blind_spots: protocol::copy_vec(&self.blind_spots),
            judge_output_raw: self.judge_output_raw.clone(),
            passthrough_tool_calls: protocol::copy_vec(&self.passthrough_tool_calls),
            total_cost_usd: self.total_cost_usd,
            models_succeeded: self.models_succeeded,
            models_failed: self.models_failed,
            duration_ms: self.duration_ms,
            timestamp: self.timestamp.clone(),
            original_prompt: self.original_prompt.clone(),
        }
    }
}

// ---------------------------------------------------------------------------
// The engine
// ---------------------------------------------------------------------------

/// The panel, made ready from a configuration.
#[derive(Debug)]
pub struct FusionEngine {
    pub config: Config,
    pub workers: Vec<Worker>,
    pub judge_worker: Worker,
}

/// The worker for an endpoint, with its key.
pub open spec fn worker_for(e: EndpointView, key: Seq<char>) -> WorkerView {
    WorkerView {
        model: e.model,
        name: match e.name {
            Some(name) => name,
            None => e.model,
        },
        api: e.api,
        base_url: e.base_url,
        api_key: key,
        advisory_prompt: Some(advisory_prompt(e.personality)),
    }
}

/// The judge of a configuration, with its key.
pub open spec fn judge_for(e: EndpointView, key: Seq<char>) -> WorkerView {
    WorkerView {
        model: e.model,
        name: e.model,
        api: e.api,
        base_url: e.base_url,
        api_key: key,
        advisory_prompt: None,
    }
}

/// The first endpoint without a key, from position `i` on.
pub open spec fn first_keyless(
    endpoints: Seq<EndpointView>,
    env_key: Option<Seq<char>>,
    i: int,
) -> Option<int>
    decreases endpoints.len() - i,
{
    if i < 0 || i >= endpoints.len() {
        None
    } else if config::key_for(endpoints[i], env_key) is None {
        Some(i)
    } else {
        first_keyless(endpoints, env_key, i + 1)
    }
}

/// Why a panel cannot be made ready, if it cannot: a key is missing.
pub open spec fn engine_fault(c: ConfigView, env_key: Option<Seq<char>>) -> Option<ErrorView> {
    if config::key_for(c.judge, env_key) is None {
        Some(ErrorView::NoApiKey)
    } else {
        match first_keyless(c.workers, env_key, 0) {
            Some(i) => Some(
                ErrorView::Config("No API key for worker '"@ + c.workers[i].model + "'"@),
            ),
            None => None,
        }
    }
}

/// The workers for some endpoints that all have keys.
pub open spec fn workers_for(endpoints: Seq<EndpointView>, env_key: Option<Seq<char>>) -> Seq<
    WorkerView,
> {
    Seq::new(
        endpoints.len(),
        |i: int|
            worker_for(
                endpoints[i],
                match config::key_for(endpoints[i], env_key) {
                    Some(key) => key,
                    None => ""@,
                },
            ),
    )
}

/// Whether a worker is asked for by model or by name.
pub open spec fn is_asked(w: WorkerView, filter: Seq<Seq<char>>) -> bool {
    filter.contains(w.model) || filter.contains(w.name)
}

/// A worker that is asked for.
pub open spec fn if_asked(filter: Seq<Seq<char>>) -> spec_fn(WorkerView) -> Option<WorkerView> {
    |w: WorkerView|
        if is_asked(w, filter) {
            Some(w)
        } else {
            None
        }
}

/// The workers that a filter asks for; an empty one, or one that says so, asks for all.
pub open spec fn panel_of(workers: Seq<WorkerView>, filter: Seq<Seq<char>>) -> Seq<WorkerView> {
    if filter.len() == 0 || filter.contains("all"@) {
        workers
    } else {
        workers.filter_map(if_asked(filter))
    }
}

/// A request as workers are asked it: without tools.
pub open spec fn without_tools(ir: RequestView) -> RequestView {
    RequestView { tools: Seq::empty(), tool_choice: None, parallel_tool_calls: None, ..ir }
}

/// The text of a message of the given role.
pub open spec fn text_if(role: Role) -> spec_fn(MessageView) -> Option<Seq<char>> {
    |m: MessageView|
        if m.role == role {
            Some(m.content)
        } else {
            None
        }
}

/// What one side of a conversation says, in one text.
pub open spec fn said_by(messages: Seq<MessageView>, role: Role) -> Seq<char> {
    text::join_of(messages.filter_map(text_if(role)), "\n"@)
}

/// A result that is a success.
pub open spec fn if_success() -> spec_fn(WorkerResultView) -> Option<WorkerResultView> {
    |w: WorkerResultView|
        if w.success {
            Some(w)
        } else {
            None
        }
}

/// The results that are successes.
pub open spec fn successes(results: Seq<WorkerResultView>) -> Seq<WorkerResultView> {
    results.filter_map(if_success())
}

/// What is reported of a failure.
pub open spec fn failure_line() -> spec_fn(WorkerResultView) -> Option<Seq<char>> {
    |w: WorkerResultView|
        if w.success {
            None
        } else {
            Some(
                "  "@ + w.model + ": "@ + match w.error {
                    Some(e) => e,
                    None => "unknown"@,
                },
            )
        }
}

/// Why a run ends early, if too few workers succeed.
pub open spec fn shortage(results: Seq<WorkerResultView>, min_workers: usize) -> Option<ErrorView> {
    if successes(results).len() < min_workers {
        Some(
            ErrorView::InsufficientWorkers {
                success_count: successes(results).len() as usize,
                total: results.len() as usize,
                min: min_workers,
                details: text::join_of(results.filter_map(failure_line()), "\n"@),
            },
        )
    } else {
        None
    }
}

/// The beginning of what the judge is told of the proposals.
pub open spec fn context_opening() -> Seq<char> {
    "# Worker Proposals\n\n"@
        + "Multiple AI workers analyzed the task in parallel. Below are their proposals.\n"@
        + "Use these as reference: absorb strengths, discard weaknesses.\n\n"@
}

/// What the judge is told of one proposal; nothing, if it has no text.
pub open spec fn proposal(w: WorkerResultView, number: nat) -> Seq<char> {
    match w.response {
        Some(r) => if r.content.len() > 0 {
            "## Worker "@ + text::decimal_of(number) + " ("@ + w.name + ")\n"@ + r.content
                + "\n\n"@
        } else {
            Seq::empty()
        },
        None => Seq::empty(),
    }
}

/// What the judge is told of some successes.
pub open spec fn context_of(succeeded: Seq<WorkerResultView>) -> Seq<char>
    decreases succeeded.len(),
{
    if succeeded.len() == 0 {
        context_opening()
    } else {
        context_of(succeeded.drop_last()) + proposal(succeeded.last(), succeeded.len())
    }
}

/// What the judge is told of the proposals, if there are any.
pub open spec fn enhanced_context(results: Seq<WorkerResultView>) -> Option<Seq<char>> {
    if successes(results).len() == 0 {
        None
    } else {
        Some(context_of(successes(results)))
    }
}

/// The request that the judge gets: the proposals and the task of the judge come first.
pub open spec fn judge_request(ir: RequestView, results: Seq<WorkerResultView>) -> RequestView {
    match enhanced_context(results) {
        Some(ctx) => RequestView {
            messages: seq![
                protocol::plain_message(
                    Role::System,
                    ctx
                        + "\n\n# Judge Task\nSynthesize the worker proposals into the most concise, highest-signal answer. Keep strong points, discard weak points, call out risks, and avoid pretending to know repository details not present in the task."@,
                ),
            ] + ir.messages,
            ..ir
        },
        None => ir,
    }
}

/// What the judge says, if it was asked and answered.
pub open spec fn judge_text(judge: Option<WorkerResultView>) -> Option<Seq<char>> {
    match judge {
        Some(j) => match j.response {
            Some(r) => Some(r.content),
            None => None,
        },
        None => None,
    }
}

/// The tool calls of the judge.
pub open spec fn judge_calls(judge: Option<WorkerResultView>) -> Seq<ToolCallView> {
    match judge {
        Some(j) => match j.response {
            Some(r) => r.tool_calls,
            None => Seq::empty(),
        },
        None => Seq::empty(),
    }
}

/// What a run of the panel comes to.
pub open spec fn fusion_result(
    session_id: Seq<char>,
    ir: RequestView,
    results: Seq<WorkerResultView>,
    judge_mode: bool,
    judge: Option<WorkerResultView>,
    total_cost_usd: Usd,
    duration_ms: u64,
    timestamp: Seq<char>,
) -> FusionResultView {
    FusionResultView {
        session_id,
        judge_response: judge,
        worker_results: results,
        enhanced_prompt_used: judge_mode,
        synthesis: judge_text(judge),
        consensus: Seq::empty(),
        contradictions: Seq::empty(),
        blind_spots: Seq::empty(),
        judge_output_raw: judge_text(judge),
        passthrough_tool_calls: judge_calls(judge),
        total_cost_usd,
        models_succeeded: successes(results).len() as usize,
        models_failed: (results.len() - successes(results).len()) as usize,
        duration_ms,
        timestamp,
        original_prompt: said_by(ir.messages, Role::User),
    }
}

/// A worker that could not be asked.
pub open spec fn failed_result(model: Seq<char>, name: Seq<char>, error: Seq<char>) -> WorkerResultView {
    WorkerResultView {
        model,
        name,
        api: "error"@,
        success: false,
        response: None,
        error: Some(error),
    }
}

/// A worker whose task broke down.
pub open spec fn broken_result(fault: Seq<char>) -> WorkerResultView {
    WorkerResultView {
        model: "worker-panic"@,
        name: "worker-panic"@,
        api: "unknown"@,
        success: false,
        response: None,
        error: Some("Worker panicked: "@ + fault),
    }
}

fn is_listed(list: &Vec<String>, s: &str) -> (r: bool)
    ensures
        r == list.deep_view().contains(s@),
{
    let mut i: usize = 0;
    while i < list.len()
        invariant
            i <= list@.len(),
            forall|k: int| 0 <= k < i ==> list.deep_view()[k] != s@,
        decreases list.len() - i,
    {
        if text::same(list[i].as_str(), s) {
            assert(list.deep_view()[i as int] == s@);
            return true;
        }
        i += 1;
    }
    false
}

fn success_of(w: &WorkerResult) -> (r: Option<WorkerResult>)
    ensures
        r.deep_view() == if_success()(w.deep_view()),
{
    if w.success {
        Some(w.clone())
    } else {
        None
    }
}

fn line_of_failure(w: &WorkerResult) -> (r: Option<String>)
    ensures
        r.deep_view() == failure_line()(w.deep_view()),
{
    if w.success {
        return None;
    }
    let mut line = text::concat("  ", w.model.as_str());
    line.append(": ");
    match &w.error {
        Some(e) => line.append(e.as_str()),
        None => line.append("unknown"),
    }
    Some(line)
}

fn text_of_user(m: &Message) -> (r: Option<String>)
    ensures
        r.deep_view() == text_if(Role::User)(m.deep_view()),
{
    match m.role {
        Role::User => Some(m.content.clone()),
        _ => None,
    }
}

fn text_of_system(m: &Message) -> (r: Option<String>)
    ensures
        r.deep_view() == text_if(Role::System)(m.deep_view()),
{
    match m.role {
        Role::System => Some(m.content.clone()),
        _ => None,
    }
}

/// What the user says in a request, in one text.
pub fn original_prompt(request: &IntermediateRequest) -> (r: String)
    ensures
        r@ == said_by(request.deep_view().messages, Role::User),
{
    text::join(
        &seqs::pick_all(&request.messages, text_of_user, Ghost(text_if(Role::User))),
        "\n",
    )
}

/// What the system says in a request, in one text.
pub fn system_context(request: &IntermediateRequest) -> (r: String)
    ensures
        r@ == said_by(request.deep_view().messages, Role::System),
{
    text::join(
        &seqs::pick_all(&request.messages, text_of_system, Ghost(text_if(Role::System))),
        "\n",
    )
}

/// The request as workers are asked it.
pub fn advisory_request(request: &IntermediateRequest) -> (r: IntermediateRequest)
    ensures
        r.deep_view() == without_tools(request.deep_view()),
{
    let mut r = request.clone();
    r.tools = seqs::none();
    r.tool_choice = None;
    r.parallel_tool_calls = None;
    r
}

/// There are no more successes than results.
pub proof fn successes_are_results(results: Seq<WorkerResultView>)
    ensures
        successes(results).len() <= results.len(),
    decreases results.len(),
{
    if results.len() > 0 {
        successes_are_results(results.drop_last());
    }
}

/// How many results are successes, and how many are not.
pub fn tally(worker_results: &Vec<WorkerResult>) -> (r: (usize, usize))
    ensures
        r.0 == successes(worker_results.deep_view()).len(),
        r.0 + r.1 == worker_results@.len(),
{
    let ghost all = worker_results.deep_view();
    let mut n: usize = 0;
    let mut i: usize = 0;
    proof {
        seqs::take_ends(all);
    }
    while i < worker_results.len()
        invariant
            i <= worker_results@.len(),
            n <= i,
            all == worker_results.deep_view(),
            all.len() == worker_results@.len(),
            n == successes(all.take(i as int)).len(),
        decreases worker_results.len() - i,
    {
        proof {
            seqs::take_step(all, i as int);
        }
        if worker_results[i].success {
            n += 1;
        }
        i += 1;
    }
    proof {
        seqs::take_ends(all);
    }
    (n, worker_results.len() - n)
}

/// A worker that could not be asked.
pub fn failed_worker(model: String, name: String, err: &OpenFusionError) -> (r: WorkerResult)
    ensures
        r.deep_view() == failed_result(model@, name@, error::message_of(err.deep_view())),
{
    WorkerResult {
        model,
        name,
        api: "error".to_owned(),
        success: false,
        response: None,
        error: Some(err.message()),
    }
}

/// A worker whose task broke down.
pub fn broken_worker(fault: &str) -> (r: WorkerResult)
    ensures
        r.deep_view() == broken_result(fault@),
{
    WorkerResult {
        model: "worker-panic".to_owned(),
        name: "worker-panic".to_owned(),
        api: "unknown".to_owned(),
        success: false,
        response: None,
        error: Some(text::concat("Worker panicked: ", fault)),
    }
}

/// What the judge is told of the proposals, if there are any.
pub fn build_enhanced_context(worker_results: &Vec<WorkerResult>) -> (r: Option<String>)
    ensures
        r.deep_view() == enhanced_context(worker_results.deep_view()),
{
    let succeeded = seqs::pick_all(worker_results, success_of, Ghost(if_success()));
    if succeeded.len() == 0 {
        return None;
    }
    let mut ctx = text::concat(
        "# Worker Proposals\n\n",
        "Multiple AI workers analyzed the task in parallel. Below are their proposals.\n",
    );
    ctx.append("Use these as reference: absorb strengths, discard weaknesses.\n\n");
    let ghost all = succeeded.deep_view();
    let mut i: usize = 0;
    proof {
        seqs::take_ends(all);
    }
    while i < succeeded.len()
        invariant
            i <= succeeded@.len(),
            all == succeeded.deep_view(),
            all.len() == succeeded@.len(),
            ctx@ == context_of(all.take(i as int)),
        decreases succeeded.len() - i,
    {
        proof {
            seqs::take_step(all, i as int);
        }
        let ghost before = ctx@;
        if let Some(resp) = &succeeded[i].response {
            if !resp.content.as_str().is_empty() {
                let mut part = text::concat(
                    "## Worker ",
                    text::decimal(i as u64 + 1).as_str(),
                );
                part.append(" (");
                part.append(succeeded[i].name.as_str());
                part.append(")\n");
                part.append(resp.content.as_str());
                part.append("\n\n");
                ctx.append(part.as_str());
            } else {
                assert(before + Seq::<char>::empty() =~= before);
            }
        } else {
            assert(before + Seq::<char>::empty() =~= before);
        }
        i += 1;
    }
    proof {
        seqs::take_ends(all);
    }
    Some(ctx)
}

/// The request that the judge gets.
pub fn request_for_judge(
    request: &IntermediateRequest,
    worker_results: &Vec<WorkerResult>,
) -> (r: IntermediateRequest)
    ensures
        r.deep_view() == judge_request(request.deep_view(), worker_results.deep_view()),
{
    let mut r = request.clone();
    if let Some(ctx) = build_enhanced_context(worker_results) {
        let content = text::concat(
            ctx.as_str(),
            "\n\n# Judge Task\nSynthesize the worker proposals into the most concise, highest-signal answer. Keep strong points, discard weak points, call out risks, and avoid pretending to know repository details not present in the task.",
        );
        let mut messages = seqs::one(protocol::message_of(Role::System, content));
        seqs::extend(&mut messages, protocol::copy_vec(&request.messages));
        r.messages = messages;
    }
    r
}

/// What a run of the panel comes to. The costs are added up by the caller.
pub fn fuse(
    session_id: String,
    request: &IntermediateRequest,
    worker_results: Vec<WorkerResult>,
    judge_mode: bool,
    judge_response: Option<WorkerResult>,
    total_cost_usd: Usd,
    duration_ms: u64,
    timestamp: String,
) -> (r: FusionResult)
    ensures
        r.deep_view() == fusion_result(
            session_id@,
            request.deep_view(),
            worker_results.deep_view(),
            judge_mode,
            judge_response.deep_view(),
            total_cost_usd,
            duration_ms,
            timestamp@,
        ),
{
    let (models_succeeded, models_failed) = tally(&worker_results);
    let mut judge_output_raw: Option<String> = None;
    let mut passthrough_tool_calls: Vec<ToolCall> = seqs::none();
    if let Some(jr) = &judge_response {
        if let Some(resp) = &jr.response {
            judge_output_raw = Some(resp.content.clone());
            passthrough_tool_calls = protocol::copy_vec(&resp.tool_calls);
        }
    }
    FusionResult {
        session_id,
        judge_response,
        worker_results,
        enhanced_prompt_used: judge_mode,
        synthesis: judge_output_raw.clone(),
        consensus: seqs::none(),
        contradictions: seqs::none(),
        blind_spots: seqs::none(),
        judge_output_raw,
        passthrough_tool_calls,
        total_cost_usd,
        models_succeeded,
        models_failed,
        duration_ms,
        timestamp,
        original_prompt: original_prompt(request),
    }
}

/// Whether a result is what a run comes to, at some time.
pub open spec fn is_conclusion(
    r: FusionResultView,
    session_id: Seq<char>,
    request: RequestView,
    worker_results: Seq<WorkerResultView>,
    judge_mode: bool,
    judge_response: Option<WorkerResultView>,
    total_cost_usd: Usd,
    duration_ms: u64,
) -> bool {
    exists|timestamp: Seq<char>| #[trigger]
        ids::is_utc_text(timestamp) && r == fusion_result(
            session_id,
            request,
            worker_results,
            judge_mode,
            judge_response,
            total_cost_usd,
            duration_ms,
            timestamp,
        )
}

/// What a run of the panel comes to at the present time. The costs are added up by the
/// caller.
pub fn conclude(
    session_id: String,
    request: &IntermediateRequest,
    worker_results: Vec<WorkerResult>,
    judge_mode: bool,
    judge_response: Option<WorkerResult>,
    total_cost_usd: Usd,
    duration_ms: u64,
) -> (r: FusionResult)
    ensures
        is_conclusion(
            r.deep_view(),
            session_id@,
            request.deep_view(),
            worker_results.deep_view(),
            judge_mode,
            judge_response.deep_view(),
            total_cost_usd,
            duration_ms,
        ),
{
    let timestamp = ids::now_text();
    assert(ids::is_utc_text(timestamp@));
    fuse(
        session_id,
        request,
        worker_results,
        judge_mode,
        judge_response,
        total_cost_usd,
        duration_ms,
        timestamp,
    )
}

/// A new identifier for a session.
pub fn new_session_id() -> (r: String)
    ensures
        ids::is_uuid_text(r@),
{
    ids::uuid_text()
}

/// Why a run ends early, if too few workers succeed.
pub fn check_quorum(worker_results: &Vec<WorkerResult>, min_workers: usize) -> (r: Result<
    (),
    OpenFusionError,
>)
    ensures
        match shortage(worker_results.deep_view(), min_workers) {
            Some(e) => r matches Err(err) && err.deep_view() == e,
            None => r is Ok,
        },
{
    let (success_count, _) = tally(worker_results);
    if success_count < min_workers {
        let lines = seqs::pick_all(worker_results, line_of_failure, Ghost(failure_line()));
        return Err(
            OpenFusionError::InsufficientWorkers {
                success_count,
                total: worker_results.len(),
                min: min_workers,
                details: text::join(&lines, "\n"),
            },
        );
    }
    Ok(())
}

impl FusionEngine {
    /// The panel of a configuration: a key is needed for the judge and for each worker.
    pub fn new(config: Config, env_key: &Option<String>) -> (r: Result<Self, OpenFusionError>)
        ensures
            match engine_fault(config.deep_view(), env_key.deep_view()) {
                Some(fault) => r matches Err(e) && e.deep_view() == fault,
                None => r matches Ok(engine) && engine.config == config
                    && engine.judge_worker.deep_view() == judge_for(
                    config.deep_view().judge,
                    config::key_for(config.deep_view().judge, env_key.deep_view())->0,
                ) && engine.workers.deep_view() == workers_for(
                    config.deep_view().workers,
                    env_key.deep_view(),
                ),
            },
    {
        let judge_key = match config.resolve_api_key(&config.judge, env_key) {
            Some(key) => key,
            None => {
                return Err(OpenFusionError::NoApiKey);
            },
        };
        let judge_worker = Worker::new(
            config.judge.model.clone(),
            config.judge.api,
            config.judge.base_url.clone(),
            judge_key,
        );
        let ghost all = config.workers.deep_view();
        let ghost env = env_key.deep_view();
        let ghost wanted = workers_for(all, env);
        let mut workers: Vec<Worker> = seqs::none();
        let mut i: usize = 0;
        proof {
            seqs::take_ends(wanted);
        }
        while i < config.workers.len()
            invariant
                i <= config.workers@.len(),
                all == config.workers.deep_view(),
                all.len() == config.workers@.len(),
                env == env_key.deep_view(),
                wanted == workers_for(all, env),
                first_keyless(all, env, 0) == first_keyless(all, env, i as int),
                config::key_for(config.deep_view().judge, env) is Some,
                workers.deep_view() == wanted.take(i as int),
            decreases config.workers.len() - i,
        {
            let e = &config.workers[i];
            let key = match config.resolve_api_key(e, env_key) {
                Some(key) => key,
                None => {
                    let mut m = text::concat("No API key for worker '", e.model.as_str());
                    m.append("'");
                    return Err(OpenFusionError::Config(m));
                },
            };
            let name = match &e.name {
                Some(name) => name.clone(),
                None => e.model.clone(),
            };
            let worker = Worker::new(e.model.clone(), e.api, e.base_url.clone(), key).with_name(
                name,
            ).with_advisory_prompt(protocol::copy_vec(&e.personality));
            proof {
                seqs::take_step(wanted, i as int);
                assert(all[i as int] == e.deep_view());
            }
            seqs::put(&mut workers, worker);
            i += 1;
        }
        proof {
            seqs::take_ends(wanted);
        }
        Ok(FusionEngine { config, workers, judge_worker })
    }

    /// The workers that a filter asks for.
    pub fn panel(&self, model_filter: &Vec<String>) -> (r: Vec<Worker>)
        ensures
            r.deep_view() == panel_of(self.workers.deep_view(), model_filter.deep_view()),
    {
        if model_filter.len() == 0 || is_listed(model_filter, "all") {
            return protocol::copy_vec(&self.workers);
        }
        let ghost all = self.workers.deep_view();
        let ghost f = if_asked(model_filter.deep_view());
        let mut r: Vec<Worker> = seqs::none();
        let mut i: usize = 0;
        proof {
            seqs::take_ends(all);
        }
        while i < self.workers.len()
            invariant
                i <= self.workers@.len(),
                all == self.workers.deep_view(),
                all.len() == self.workers@.len(),
                f == if_asked(model_filter.deep_view()),
                r.deep_view() == all.take(i as int).filter_map(f),
            decreases self.workers.len() - i,
        {
            proof {
                all.lemma_filter_map_take_succ(f, i as int);
            }
            let w = &self.workers[i];
            if is_listed(model_filter, w.model.as_str()) || is_listed(
                model_filter,
                w.name.as_str(),
            ) {
                seqs::put(&mut r, w.clone());
            }
            assert(r.deep_view() =~= all.take(i + 1).filter_map(f));
            i += 1;
        }
        r
    }
}

// ---------------------------------------------------------------------------
// Further attempts
// ---------------------------------------------------------------------------

/// Whether another attempt can help.
pub open spec fn can_retry(e: ErrorView) -> bool {
    match e {
        ErrorView::ApiError { status, body, .. } => error::is_transient(status, body),
        ErrorView::WorkerTimeout { .. } => true,
        ErrorView::Network(_) => true,
        _ => false,
    }
}

/// The pause that doubles with each attempt.
pub open spec fn doubled_pause(attempts: nat) -> nat
    decreases attempts,
{
    if attempts == 0 {
        500
    } else {
        2 * doubled_pause((attempts - 1) as nat)
    }
}

/// The pause before another attempt, in milliseconds: what the upstream asked for,
/// within one to ten seconds, or else one that doubles with each attempt, from half a
/// second to eight seconds.
pub open spec fn pause_after(e: ErrorView, attempt: u32) -> u64 {
    match e {
        ErrorView::ApiError { retry_after_secs: Some(secs), .. } => if secs < 1 {
            1000
        } else if secs > 10 {
            10_000
        } else {
            (secs * 1000) as u64
        },
        _ => if attempt <= 1 {
            doubled_pause(0) as u64
        } else if attempt >= 5 {
            doubled_pause(4) as u64
        } else {
            doubled_pause((attempt - 1) as nat) as u64
        },
    }
}

/// Whether another attempt can help.
pub fn is_retryable(err: &OpenFusionError) -> (r: bool)
    ensures
        r == can_retry(err.deep_view()),
{
    match err {
        OpenFusionError::ApiError { status, body, .. } => error::is_transient_upstream_error(
            *status,
            body.as_str(),
        ),
        OpenFusionError::WorkerTimeout { .. } => true,
        OpenFusionError::Network(_) => true,
        _ => false,
    }
}

/// The pause before another attempt, in milliseconds.
pub fn retry_delay(err: &OpenFusionError, attempt: u32) -> (r: u64)
    ensures
        r == pause_after(err.deep_view(), attempt),
{
    proof {
        reveal_with_fuel(doubled_pause, 5);
    }
    if let Some(secs) = err.retry_after_secs() {
        return if secs < 1 {
            1000
        } else if secs > 10 {
            10_000
        } else {
            secs * 1000
        };
    }
    if attempt <= 1 {
        500
    } else if attempt == 2 {
        1000
    } else if attempt == 3 {
        2000
    } else if attempt == 4 {
        4000
    } else {
        8000
    }
}

/// How often a failed request is sent again at most.
pub open spec fn retries_of(retry: u32) -> u32 {
    if retry > DEFAULT_TRANSIENT_RETRIES {
        retry
    } else {
        DEFAULT_TRANSIENT_RETRIES
    }
}

/// The attempts at one request: which one it is, counted from one, and how many
/// retries there are.
#[derive(Clone, Copy, Debug, PartialEq, Eq, Structural)]
pub struct Attempts {
    pub attempt: u32,
    pub max_retries: u32,
}

/// What follows a failure: another attempt after a pause, or nothing.
pub open spec fn after_failure(a: Attempts, e: ErrorView) -> (Attempts, Option<u64>) {
    if a.attempt <= a.max_retries && can_retry(e) && a.attempt < u32::MAX {
        (Attempts { attempt: (a.attempt + 1) as u32, ..a }, Some(pause_after(e, a.attempt)))
    } else {
        (a, None)
    }
}

impl Attempts {
    /// The first attempt, under a configured number of retries.
    pub fn first(retry: u32) -> (r: Self)
        ensures
            r == (Attempts { attempt: 1, max_retries: retries_of(retry) }),
    {
        let max_retries = if retry > DEFAULT_TRANSIENT_RETRIES {
            retry
        } else {
            DEFAULT_TRANSIENT_RETRIES
        };
        Attempts { attempt: 1, max_retries }
    }

    /// Takes note of a failure: the pause before the next attempt, or `None` where there
    /// is none and the failure stands.
    pub fn failed(&mut self, err: &OpenFusionError) -> (r: Option<u64>)
        ensures
            (*final(self), r) == after_failure(*old(self), err.deep_view()),
    {
        if self.attempt <= self.max_retries && is_retryable(err) && self.attempt < u32::MAX {
            let pause = retry_delay(err, self.attempt);
            self.attempt = self.attempt + 1;
            Some(pause)
        } else {
            None
        }
    }
}

/// The state and the pauses after some failures in a row.
pub open spec fn after_failures(a: Attempts, failures: Seq<ErrorView>) -> (Attempts, Seq<Option<u64>>)
    decreases failures.len(),
{
    if failures.len() == 0 {
        (a, Seq::empty())
    } else {
        let (before, pauses) = after_failures(a, failures.drop_last());
        let (after, pause) = after_failure(before, failures.last());
        (after, pauses.push(pause))
    }
}

/// A pause is never shorter than half a second nor longer than ten seconds.
pub proof fn pauses_are_bounded(e: ErrorView, attempt: u32)
    ensures
        500 <= pause_after(e, attempt) <= 10_000,
{
    reveal_with_fuel(doubled_pause, 5);
}

/// Without a wish of the upstream, a later pause is not shorter than an earlier one.
pub proof fn pauses_grow(e: ErrorView, attempt: u32, later: u32)
    requires
        attempt <= later,
        e matches ErrorView::ApiError { retry_after_secs, .. } ==> retry_after_secs is None,
    ensures
        pause_after(e, attempt) <= pause_after(e, later),
{
    reveal_with_fuel(doubled_pause, 5);
}

/// A request is sent at most once more than there are retries, whatever the failures.
pub proof fn attempts_are_bounded(retry: u32, failures: Seq<ErrorView>)
    ensures
        1 <= after_failures(
            Attempts { attempt: 1, max_retries: retries_of(retry) },
            failures,
        ).0.attempt <= retries_of(retry) + 1,
    decreases failures.len(),
{
    if failures.len() > 0 {
        attempts_are_bounded(retry, failures.drop_last());
        attempts_keep_limit(
            Attempts { attempt: 1, max_retries: retries_of(retry) },
            failures.drop_last(),
        );
    }
}

proof fn attempts_keep_limit(a: Attempts, failures: Seq<ErrorView>)
    ensures
        after_failures(a, failures).0.max_retries == a.max_retries,
    decreases failures.len(),
{
    if failures.len() > 0 {
        attempts_keep_limit(a, failures.drop_last());
    }
}

/// A failure that another attempt cannot help ends the attempts at once.
pub proof fn hopeless_failures_end(a: Attempts, e: ErrorView)
    requires
        !can_retry(e),
    ensures
        after_failure(a, e) == (a, None::<u64>),
{
}

/// Every request that fails in passing is tried again at least twice.
pub proof fn passing_failures_are_retried(retry: u32, attempt: u32, e: ErrorView)
    requires
        1 <= attempt <= 2,
        can_retry(e),
    ensures
        after_failure(Attempts { attempt, max_retries: retries_of(retry) }, e).1 is Some,
{
}

/// A worker that a filter names by model or by name is on the panel, and the panel has
/// no one that is not a worker.
pub proof fn panel_has_whom_is_asked(workers: Seq<WorkerView>, filter: Seq<Seq<char>>, w: WorkerView)
    ensures
        panel_of(workers, filter).contains(w) <==> workers.contains(w) && (filter.len() == 0
            || filter.contains("all"@) || is_asked(w, filter)),
{
    if filter.len() > 0 && !filter.contains("all"@) {
        filtered_has(workers, filter, w);
    }
}

proof fn filtered_has(workers: Seq<WorkerView>, filter: Seq<Seq<char>>, w: WorkerView)
    ensures
        workers.filter_map(if_asked(filter)).contains(w) <==> workers.contains(w) && is_asked(
            w,
            filter,
        ),
    decreases workers.len(),
{
    let f = if_asked(filter);
    let all = workers.filter_map(f);
    if workers.len() > 0 {
        let rest = workers.drop_last();
        let last = workers.last();
        filtered_has(rest, filter, w);
        let kept = rest.filter_map(f);
        assert(workers =~= rest.push(last));
        if workers.contains(w) && w != last {
            let i = workers.index_of(w);
            assert(rest[i] == w);
        }
        if rest.contains(w) {
            let i = rest.index_of(w);
            assert(workers[i] == w);
        }
        if is_asked(last, filter) {
            assert(all =~= kept.push(last));
            if all.contains(w) && w != last {
                let i = all.index_of(w);
                assert(kept[i] == w);
            }
            if kept.contains(w) {
                let i = kept.index_of(w);
                assert(all[i] == w);
            }
            assert(all[all.len() - 1] == last);
            assert(workers[workers.len() - 1] == last);
        } else {
            assert(all == kept);
        }
        if w == last {
            assert(workers[workers.len() - 1] == w);
        }
    }
}

/// A run that has enough successes is not cut short, and one that has too few is.
pub proof fn quorum_decides(results: Seq<WorkerResultView>, min_workers: usize)
    ensures
        shortage(results, min_workers) is None <==> successes(results).len() >= min_workers,
{
}

/// The judge is told what every worker with something to say has said.
pub proof fn judge_is_told_every_proposal(succeeded: Seq<WorkerResultView>, i: int)
    requires
        0 <= i < succeeded.len(),
        succeeded[i].response is Some,
        succeeded[i].response->0.content.len() > 0,
    ensures
        text::contains_of(context_of(succeeded), succeeded[i].response->0.content),
        text::contains_of(context_of(succeeded), succeeded[i].name),
    decreases succeeded.len(),
{
    let rest = succeeded.drop_last();
    let last = succeeded.last();
    let before = context_of(rest);
    let all = context_of(succeeded);
    let content = succeeded[i].response->0.content;
    let name = succeeded[i].name;
    if i < rest.len() {
        judge_is_told_every_proposal(rest, i);
        let p = choose|p: int| text::occurs_at(before, content, p);
        assert(all.subrange(p, p + content.len()) =~= before.subrange(p, p + content.len()));
        assert(text::occurs_at(all, content, p));
        let q = choose|q: int| text::occurs_at(before, name, q);
        assert(all.subrange(q, q + name.len()) =~= before.subrange(q, q + name.len()));
        assert(text::occurs_at(all, name, q));
    } else {
        let heading = "## Worker "@ + text::decimal_of(succeeded.len()) + " ("@;
        let q = (before.len() + heading.len()) as int;
        assert(all.subrange(q, q + name.len()) =~= name);
        assert(text::occurs_at(all, name, q));
        let p = (q + name.len() + ")\n"@.len()) as int;
        assert(all.subrange(p, p + content.len()) =~= content);
        assert(text::occurs_at(all, content, p));
    }
}

/// The judge gets every message of the request in its order, after the proposals.
pub proof fn judge_gets_the_request(ir: RequestView, results: Seq<WorkerResultView>)
    ensures
        ({
            let asked = judge_request(ir, results).messages;
            let told = asked.len() - ir.messages.len();
            &&& told == (if successes(results).len() > 0 {
                1int
            } else {
                0
            })
            &&& asked.skip(told) == ir.messages
        }),
{
    let asked = judge_request(ir, results).messages;
    let told = asked.len() - ir.messages.len();
    assert(asked.skip(told) =~= ir.messages);
}

} // verus!
