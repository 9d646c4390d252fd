//! A run of the panel, step by step: the workers are asked, then the judge where one is
//! wanted, and the answers are put together.
//!
//! The run says what is to be done next; the asking is done by the caller, who hands
//! back the answers.

use vstd::prelude::*;

use crate::engine;
use crate::engine::{
    is_conclusion, judge_request, panel_of, shortage, successes, without_tools, FusionEngine,
    FusionResult,
};
use crate::error::{ErrorView, OpenFusionError};
use crate::ids;
use crate::protocol::{IntermediateRequest, RequestView, Usd, WorkerResult, WorkerResultView};
use crate::seqs;
use crate::worker::{outcome, Worker, WorkerView};

verus! {

/// A run that is under way.
#[derive(Debug)]
pub struct AdvisoryRun {
    pub session_id: String,
    pub request: IntermediateRequest,
    pub judge_mode: bool,
    pub min_workers: usize,
    pub worker_results: Vec<WorkerResult>,
    pub judge_response: Option<WorkerResult>,
}

#[verifier::ext_equal]
pub struct RunView {
    pub session_id: Seq<char>,
    pub request: RequestView,
    pub judge_mode: bool,
    pub min_workers: usize,
    pub worker_results: Seq<WorkerResultView>,
    pub judge_response: Option<WorkerResultView>,
}

/// What is to be done next.
#[derive(Debug)]
pub enum RunStep {
    /// Ask these workers this.
    AskWorkers { workers: Vec<Worker>, request: IntermediateRequest },
    /// Ask the judge this.
    AskJudge { request: IntermediateRequest },
    /// Put the answers together.
    Finish,
    /// Give the run up.
    Stop(OpenFusionError),
}

pub enum RunStepView {
    AskWorkers { workers: Seq<WorkerView>, request: RequestView },
    AskJudge { request: RequestView },
    Finish,
    Stop(ErrorView),
}

impl DeepView for AdvisoryRun {
    type V = RunView;

    open spec fn deep_view(&self) -> RunView {
        RunView {
            session_id: self.session_id@,
            request: self.request.deep_view(),
            judge_mode: self.judge_mode,
            min_workers: self.min_workers,
            worker_results: self.worker_results.deep_view(),
            judge_response: self.judge_response.deep_view(),
        }
    }
}

impl DeepView for RunStep {
    type V = RunStepView;

    open spec fn deep_view(&self) -> RunStepView {
        match *self {
            RunStep::AskWorkers { workers, request } => RunStepView::AskWorkers {
                workers: workers.deep_view(),
                request: request.deep_view(),
            },
            RunStep::AskJudge { request } => RunStepView::AskJudge {
                request: request.deep_view(),
            },
            RunStep::Finish => RunStepView::Finish,
            RunStep::Stop(e) => RunStepView::Stop(e.deep_view()),
        }
    }
}

/// What is done once the workers have answered.
pub open spec fn step_after_workers(run: RunView, results: Seq<WorkerResultView>) -> RunStepView {
    match shortage(results, run.min_workers) {
        Some(e) => RunStepView::Stop(e),
        None => if run.judge_mode {
            RunStepView::AskJudge { request: judge_request(run.request, results) }
        } else {
            RunStepView::Finish
        },
    }
}

/// Whether a step is the first one of a run: the workers that are asked for are asked,
/// without tools.
pub open spec fn is_first_step(
    step: RunStepView,
    workers: Seq<WorkerView>,
    filter: Seq<Seq<char>>,
    request: RequestView,
) -> bool {
    step == (RunStepView::AskWorkers {
        workers: panel_of(workers, filter),
        request: without_tools(request),
    })
}

/// The run after the answer of the judge, and what is done then: a judge that could not
/// be asked ends the run.
pub open spec fn after_judge(run: RunView, answer: Result<WorkerResultView, ErrorView>) -> (
    RunView,
    RunStepView,
) {
    match answer {
        Ok(result) => (
            RunView { judge_response: Some(result), ..run },
            RunStepView::Finish,
        ),
        Err(e) => (run, RunStepView::Stop(e)),
    }
}

impl AdvisoryRun {
    /// Begins a run: the workers that the filter asks for are asked, without tools.
    pub fn begin(
        engine: &FusionEngine,
        request: IntermediateRequest,
        model_filter: &Vec<String>,
        judge_mode: bool,
    ) -> (r: (AdvisoryRun, RunStep))
        ensures
            ids::is_uuid_text(r.0.session_id@),
            r.0.deep_view() == (RunView {
                session_id: r.0.session_id@,
                request: request.deep_view(),
                judge_mode,
                min_workers: engine.config.fusion.min_workers,
                worker_results: Seq::empty(),
                judge_response: None,
            }),
            r.1.deep_view() == (RunStepView::AskWorkers {
                workers: panel_of(engine.workers.deep_view(), model_filter.deep_view()),
                request: without_tools(request.deep_view()),
            }),
            is_first_step(
                r.1.deep_view(),
                engine.workers.deep_view(),
                model_filter.deep_view(),
                request.deep_view(),
            ),
    {
        let step = RunStep::AskWorkers {
            workers: engine.panel(model_filter),
            request: engine::advisory_request(&request),
        };
        let run = AdvisoryRun {
            session_id: engine::new_session_id(),
            request,
            judge_mode,
            min_workers: engine.config.fusion.min_workers,
            worker_results: seqs::none(),
            judge_response: None,
        };
        (run, step)
    }

    /// Takes the answers of the workers: too few successes end the run; else the judge
    /// is asked, where one is wanted.
    pub fn workers_answered(&mut self, results: Vec<WorkerResult>) -> (r: RunStep)
        ensures
            r.deep_view() == step_after_workers(old(self).deep_view(), results.deep_view()),
            final(self).deep_view() == (RunView {
                worker_results: results.deep_view(),
                ..old(self).deep_view()
            }),
    {
        let step = match engine::check_quorum(&results, self.min_workers) {
            Err(e) => RunStep::Stop(e),
            Ok(_) => if self.judge_mode {
                RunStep::AskJudge { request: engine::request_for_judge(&self.request, &results) }
            } else {
                RunStep::Finish
            },
        };
        self.worker_results = results;
        step
    }

    /// Takes the answer of the judge: a judge that could not be asked ends the run.
    pub fn judge_answered(&mut self, answer: Result<WorkerResult, OpenFusionError>) -> (r: RunStep)
        ensures
            match answer {
                Ok(result) => r.deep_view() == RunStepView::Finish && final(self).deep_view() == (
                RunView {
                    judge_response: Some(result.deep_view()),
                    ..old(self).deep_view()
                }),
                Err(e) => r.deep_view() == RunStepView::Stop(e.deep_view())
                    && final(self).deep_view() == old(self).deep_view(),
            },
            (final(self).deep_view(), r.deep_view()) == after_judge(
                old(self).deep_view(),
                outcome(answer),
            ),
    {
        match answer {
            Ok(result) => {
                self.judge_response = Some(result);
                RunStep::Finish
            },
            Err(e) => RunStep::Stop(e),
        }
    }

    /// What the run comes to at the present time. The costs are added up by the caller.
    pub fn finish(self, total_cost_usd: Usd, duration_ms: u64) -> (r: FusionResult)
        ensures
            is_conclusion(
                r.deep_view(),
                self.session_id@,
                self.request.deep_view(),
                self.worker_results.deep_view(),
                self.judge_mode,
                self.judge_response.deep_view(),
                total_cost_usd,
                duration_ms,
            ),
    {
        engine::conclude(
            self.session_id,
            &self.request,
            self.worker_results,
            self.judge_mode,
            self.judge_response,
            total_cost_usd,
            duration_ms,
        )
    }
}

/// The judge is asked only where one is wanted and enough workers have succeeded; a run
/// without enough successes always stops.
pub proof fn judge_is_asked_after_a_quorum(run: RunView, results: Seq<WorkerResultView>)
    ensures
        step_after_workers(run, results) is AskJudge <==> run.judge_mode && successes(
            results,
        ).len() >= run.min_workers,
        step_after_workers(run, results) is Stop <==> successes(results).len() < run.min_workers,
        !(step_after_workers(run, results) is AskWorkers),
{
}

/// A run begins by asking the workers that are asked for, each of them once and in the
/// order of the panel, what the request says, without its tools.
pub proof fn run_begins_with_the_workers(
    step: RunStepView,
    workers: Seq<WorkerView>,
    request: RequestView,
)
    requires
        is_first_step(step, workers, Seq::empty(), request),
    ensures
        step matches RunStepView::AskWorkers { workers: asked, request: r },
        step->AskWorkers_workers == workers,
        step->AskWorkers_request.messages == request.messages,
        step->AskWorkers_request.tools.len() == 0,
{
}

/// Where the workers that are asked for are fewer, they are those that the filter names.
pub proof fn run_asks_whom_the_filter_names(
    step: RunStepView,
    workers: Seq<WorkerView>,
    filter: Seq<Seq<char>>,
    request: RequestView,
    w: WorkerView,
)
    requires
        is_first_step(step, workers, filter, request),
        filter.len() > 0,
        !filter.contains("all"@),
    ensures
        step is AskWorkers,
        step->AskWorkers_workers.contains(w) <==> workers.contains(w) && (filter.contains(w.model)
            || filter.contains(w.name)),
        step->AskWorkers_request.messages == request.messages,
{
    engine::panel_has_whom_is_asked(workers, filter, w);
}

/// The judge is asked the request with the proposals, and its answer is what the run is
/// finished with; where it could not be asked, the run stops with the reason.
pub proof fn judge_finishes_the_run(
    run: RunView,
    results: Seq<WorkerResultView>,
    answer: Result<WorkerResultView, ErrorView>,
)
    ensures
        step_after_workers(run, results) matches RunStepView::AskJudge { request } ==> request
            == judge_request(run.request, results),
        answer matches Ok(result) ==> {
            let (after, step) = after_judge(run, answer);
            &&& step is Finish
            &&& after.judge_response == Some(result)
            &&& after.worker_results == run.worker_results
            &&& after.request == run.request
            &&& after.session_id == run.session_id
        },
        answer matches Err(e) ==> after_judge(run, answer) == (run, RunStepView::Stop(e)),
{
}

} // verus!
