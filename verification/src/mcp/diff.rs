//! The tool `fusion_diff`: the answers of the workers side by side.

use vstd::prelude::*;

use crate::engine;
use crate::engine::{FusionResult, FusionResultView};
use crate::error::{ErrorView, OpenFusionError};
use crate::ids;
use crate::mcp;
use crate::mcp::fusion::{or_false, or_none, unwrap_or_false, RunPlan, RunPlanView};
use crate::protocol::{
    IntermediateRequest, RequestView, Role, Single, SingleView, Usd, WorkerResult,
    WorkerResultView,
};
use crate::seqs;

verus! {

/// What the tool is asked.
#[derive(Debug)]
pub struct DiffParams {
    pub prompt: String,
    pub system: Option<String>,
    pub panel_override: Option<Vec<String>>,
    pub save_session: Option<bool>,
}

/// What the tool answers.
#[derive(Debug)]
pub struct DiffResult {
    pub session_id: String,
    pub responses: Vec<WorkerResponseView>,
    pub summary: DiffSummary,
    pub cost_usd: Usd,
    pub duration_ms: u64,
}

/// The answer of one worker.
#[derive(Debug)]
pub struct WorkerResponseView {
    pub name: String,
    pub model: String,
    pub api: String,
    pub content: String,
    pub token_count: u32,
    pub duration_ms: u64,
    pub cost_usd: Usd,
    pub error: Option<String>,
}

/// What the answers come to.
#[derive(Debug)]
pub struct DiffSummary {
    pub mode: String,
    pub note: String,
    pub models_succeeded: usize,
    pub models_failed: usize,
}

#[verifier::ext_equal]
pub struct DiffParamsModel {
    pub prompt: Seq<char>,
    pub system: Option<Seq<char>>,
    pub panel_override: Option<Seq<Seq<char>>>,
    pub save_session: Option<bool>,
}

#[verifier::ext_equal]
pub struct DiffResultModel {
    pub session_id: Seq<char>,
    pub responses: Seq<AnswerModel>,
    pub summary: DiffSummaryModel,
    pub cost_usd: Usd,
    pub duration_ms: u64,
}

#[verifier::ext_equal]
pub struct AnswerModel {
    pub name: Seq<char>,
    pub model: Seq<char>,
    pub api: Seq<char>,
    pub content: Seq<char>,
    pub token_count: u32,
    pub duration_ms: u64,
    pub cost_usd: Usd,
    pub error: Option<Seq<char>>,
}

#[verifier::ext_equal]
pub struct DiffSummaryModel {
    pub mode: Seq<char>,
    pub note: Seq<char>,
    pub models_succeeded: usize,
    pub models_failed: usize,
}

impl DeepView for DiffParams {
    type V = DiffParamsModel;

    open spec fn deep_view(&self) -> DiffParamsModel {
        DiffParamsModel {
            prompt: self.prompt@,
            system: self.system.deep_view(),
            panel_override: self.panel_override.deep_view(),
            save_session: self.save_session,
        }
    }
}

impl DeepView for WorkerResponseView {
    type V = AnswerModel;

    open spec fn deep_view(&self) -> AnswerModel {
        AnswerModel {
            name: self.name@,
            model: self.model@,
            api: self.api@,
            content: self.content@,
            token_count: self.token_count,
            duration_ms: self.duration_ms,
            cost_usd: self.cost_usd,
            error: self.error.deep_view(),
        }
    }
}

impl DeepView for DiffSummary {
    type V = DiffSummaryModel;

    open spec fn deep_view(&self) -> DiffSummaryModel {
        DiffSummaryModel {
            mode: self.mode@,
            note: self.note@,
            models_succeeded: self.models_succeeded,
            models_failed: self.models_failed,
        }
    }
}

impl DeepView for DiffResult {
    type V = DiffResultModel;

    open spec fn deep_view(&self) -> DiffResultModel {
        DiffResultModel {
            session_id: self.session_id@,
            responses: self.responses.deep_view(),
            summary: self.summary.deep_view(),
            cost_usd: self.cost_usd,
            duration_ms: self.duration_ms,
        }
    }
}

impl Default for DiffParams {
    fn default() -> (r: Self)
        ensures
            r.deep_view() == (DiffParamsModel {
                prompt: Seq::empty(),
                system: None,
                panel_override: None,
                save_session: None,
            }),
    {
        DiffParams { prompt: String::new(), system: None, panel_override: None, save_session: None }
    }
}

/// How the panel is run for what the tool is asked: never with the judge.
pub open spec fn plan_of(p: DiffParamsModel, temperature: SingleView) -> RunPlanView {
    RunPlanView {
        request: mcp::panel_request(mcp::framed(p.prompt, p.system), temperature),
        model_filter: or_none(p.panel_override),
        judge_mode: false,
        save_session: or_false(p.save_session),
    }
}

/// How the panel is run for what the tool is asked.
pub fn plan(params: DiffParams, temperature: Single) -> (r: RunPlan)
    ensures
        r.deep_view() == plan_of(params.deep_view(), temperature.deep_view()),
{
    let prompt = mcp::frame_prompt(params.prompt.as_str(), &params.system);
    let model_filter = match params.panel_override {
        Some(list) => list,
        None => seqs::none(),
    };
    RunPlan {
        request: mcp::request_for(prompt, temperature),
        model_filter,
        judge_mode: false,
        save_session: unwrap_or_false(params.save_session),
    }
}

/// The answer of one worker.
pub open spec fn answer_of() -> spec_fn(WorkerResultView) -> AnswerModel {
    |w: WorkerResultView|
        AnswerModel {
            name: w.name,
            model: w.model,
            api: w.api,
            content: match w.response {
                Some(r) => r.content,
                None => Seq::empty(),
            },
            token_count: match w.response {
                Some(r) => r.usage.total_tokens,
                None => 0,
            },
            duration_ms: match w.response {
                Some(r) => r.duration_ms,
                None => 0,
            },
            cost_usd: match w.response {
                Some(r) => r.cost_usd,
                None => Usd { bits: 0 },
            },
            error: w.error,
        }
}

/// How many answers came without an error.
pub open spec fn answered(results: Seq<WorkerResultView>) -> nat
    decreases results.len(),
{
    if results.len() == 0 {
        0
    } else {
        answered(results.drop_last()) + if results.last().error is None {
            1nat
        } else {
            0nat
        }
    }
}

/// What the tool answers.
pub open spec fn comparison(
    session_id: Seq<char>,
    results: Seq<WorkerResultView>,
    cost_usd: Usd,
    duration_ms: u64,
) -> DiffResultModel {
    DiffResultModel {
        session_id,
        responses: results.map_values(answer_of()),
        summary: DiffSummaryModel {
            mode: "raw-worker-comparison"@,
            note:
                "No semantic consensus or disagreement inference is performed. The calling AI client should compare these worker outputs or call fusion with judge_mode=true."@,
            models_succeeded: answered(results) as usize,
            models_failed: (results.len() - answered(results)) as usize,
        },
        cost_usd,
        duration_ms,
    }
}

/// What is kept of the run.
pub open spec fn archive(
    session_id: Seq<char>,
    ir: RequestView,
    results: Seq<WorkerResultView>,
    cost_usd: Usd,
    duration_ms: u64,
    timestamp: Seq<char>,
) -> FusionResultView {
    FusionResultView {
        session_id,
        judge_response: None,
        worker_results: results,
        enhanced_prompt_used: false,
        synthesis: None,
        consensus: Seq::empty(),
        contradictions: Seq::empty(),
        blind_spots: Seq::empty(),
        judge_output_raw: None,
        passthrough_tool_calls: Seq::empty(),
        total_cost_usd: cost_usd,
        models_succeeded: answered(results) as usize,
        models_failed: (results.len() - answered(results)) as usize,
        duration_ms,
        timestamp,
        original_prompt: engine::said_by(ir.messages, Role::User),
    }
}

fn view_of_answer(w: &WorkerResult) -> (r: WorkerResponseView)
    ensures
        r.deep_view() == answer_of()(w.deep_view()),
{
    match &w.response {
        Some(resp) => WorkerResponseView {
            name: w.name.clone(),
            model: w.model.clone(),
            api: w.api.clone(),
            content: resp.content.clone(),
            token_count: resp.usage.total_tokens,
            duration_ms: resp.duration_ms,
            cost_usd: resp.cost_usd,
            error: w.error.clone(),
        },
        None => WorkerResponseView {
            name: w.name.clone(),
            model: w.model.clone(),
            api: w.api.clone(),
            content: String::new(),
            token_count: 0,
            duration_ms: 0,
            cost_usd: Usd { bits: 0 },
            error: w.error.clone(),
        },
    }
}

/// How many answers came without an error, and how many with one.
pub fn count_answered(worker_results: &Vec<WorkerResult>) -> (r: (usize, usize))
    ensures
        r.0 == answered(worker_results.deep_view()),
        r.0 + r.1 == worker_results@.len(),
{
    let ghost all = worker_results.deep_view();
    let mut n: usize = 0;
    let mut i: usize = 0;
    proof {
        seqs::take_ends(all);
    }
    while i < worker_results.len()
        invariant
            i <= worker_results@.len(),
            n <= i,
            all == worker_results.deep_view(),
            all.len() == worker_results@.len(),
            n == answered(all.take(i as int)),
        decreases worker_results.len() - i,
    {
        proof {
            seqs::take_step(all, i as int);
        }
        if worker_results[i].error.is_none() {
            n += 1;
        }
        i += 1;
    }
    proof {
        seqs::take_ends(all);
    }
    (n, worker_results.len() - n)
}

/// Whether anyone was asked at all.
pub fn check_panel(worker_results: &Vec<WorkerResult>) -> (r: Result<(), OpenFusionError>)
    ensures
        if worker_results@.len() == 0 {
            r matches Err(e) && e.deep_view() == ErrorView::Config(
                "No workers matched panel_override"@,
            )
        } else {
            r is Ok
        },
{
    if worker_results.len() == 0 {
        Err(OpenFusionError::Config("No workers matched panel_override".to_owned()))
    } else {
        Ok(())
    }
}

/// What the tool answers. The costs are added up by the caller.
pub fn compare(
    session_id: String,
    worker_results: &Vec<WorkerResult>,
    cost_usd: Usd,
    duration_ms: u64,
) -> (r: DiffResult)
    ensures
        r.deep_view() == comparison(
            session_id@,
            worker_results.deep_view(),
            cost_usd,
            duration_ms,
        ),
{
    let (models_succeeded, models_failed) = count_answered(worker_results);
    DiffResult {
        session_id,
        responses: seqs::map_all(worker_results, view_of_answer, Ghost(answer_of())),
        summary: DiffSummary {
            mode: "raw-worker-comparison".to_owned(),
            note:
                "No semantic consensus or disagreement inference is performed. The calling AI client should compare these worker outputs or call fusion with judge_mode=true.".to_owned(),
            models_succeeded,
            models_failed,
        },
        cost_usd,
        duration_ms,
    }
}

/// What is kept of the run.
pub fn archived(
    session_id: String,
    request: &IntermediateRequest,
    worker_results: Vec<WorkerResult>,
    cost_usd: Usd,
    duration_ms: u64,
    timestamp: String,
) -> (r: FusionResult)
    ensures
        r.deep_view() == archive(
            session_id@,
            request.deep_view(),
            worker_results.deep_view(),
            cost_usd,
            duration_ms,
            timestamp@,
        ),
{
    let (models_succeeded, models_failed) = count_answered(&worker_results);
    FusionResult {
        session_id,
        judge_response: None,
        worker_results,
        enhanced_prompt_used: false,
        synthesis: None,
        consensus: seqs::none(),
        contradictions: seqs::none(),
        blind_spots: seqs::none(),
        judge_output_raw: None,
        passthrough_tool_calls: seqs::none(),
        total_cost_usd: cost_usd,
        models_succeeded,
        models_failed,
        duration_ms,
        timestamp,
        original_prompt: engine::original_prompt(request),
    }
}

/// Whether a result is what is kept of a run, at some time.
pub open spec fn is_archive(
    r: FusionResultView,
    session_id: Seq<char>,
    request: RequestView,
    results: Seq<WorkerResultView>,
    cost_usd: Usd,
    duration_ms: u64,
) -> bool {
    exists|timestamp: Seq<char>| #[trigger]
        ids::is_utc_text(timestamp) && r == archive(
            session_id,
            request,
            results,
            cost_usd,
            duration_ms,
            timestamp,
        )
}

/// What is kept of the run at the present time.
pub fn archived_now(
    session_id: String,
    request: &IntermediateRequest,
    worker_results: Vec<WorkerResult>,
    cost_usd: Usd,
    duration_ms: u64,
) -> (r: FusionResult)
    ensures
        is_archive(
            r.deep_view(),
            session_id@,
            request.deep_view(),
            worker_results.deep_view(),
            cost_usd,
            duration_ms,
        ),
{
    let timestamp = ids::now_text();
    assert(ids::is_utc_text(timestamp@));
    archived(session_id, request, worker_results, cost_usd, duration_ms, timestamp)
}

/// Every worker that was asked has one answer, in the same place.
pub proof fn every_result_is_shown(
    session_id: Seq<char>,
    results: Seq<WorkerResultView>,
    cost_usd: Usd,
    duration_ms: u64,
    i: int,
)
    requires
        0 <= i < results.len(),
    ensures
        comparison(session_id, results, cost_usd, duration_ms).responses.len() == results.len(),
        comparison(session_id, results, cost_usd, duration_ms).responses[i].name
            == results[i].name,
        comparison(session_id, results, cost_usd, duration_ms).responses[i].error
            == results[i].error,
{
}

} // verus!
