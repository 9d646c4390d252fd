//! The tool `fusion_bench`: profiles of the panel, measured.
//!
//! Counts and durations are added up here; costs, rates and scores are fractions and
//! are worked out by the caller.

use vstd::prelude::*;

use crate::engine::{FusionResult, FusionResultView};
use crate::mcp;
use crate::protocol::{IntermediateRequest, Single, WorkerResult, WorkerResultView};
use crate::seqs;
use crate::text;

verus! {

/// What the tool is asked. Each profile is run `runs` times, once where nothing is said.
#[derive(Debug)]
pub struct BenchParams {
    pub prompt: String,
    pub system: Option<String>,
    pub runs: Option<u32>,
    pub configs: Vec<BenchConfig>,
}

/// A profile: which workers are asked, all of them where none are named, and whether the
/// judge is.
#[derive(Debug)]
pub struct BenchConfig {
    pub label: String,
    pub workers: Vec<String>,
    pub judge_mode: bool,
}

/// How often each profile is run: at least once.
pub open spec fn runs_of(runs: Option<u32>) -> u32 {
    match runs {
        Some(n) => if n > 1 {
            n
        } else {
            1
        },
        None => 1,
    }
}

/// How often each profile is run.
pub fn effective_runs(runs: Option<u32>) -> (r: u32)
    ensures
        r == runs_of(runs),
{
    match runs {
        Some(n) => if n > 1 {
            n
        } else {
            1
        },
        None => 1,
    }
}

/// The request that is measured.
pub fn build_request(prompt: &str, system: &Option<String>, temperature: Single) -> (r:
    IntermediateRequest)
    ensures
        r.deep_view() == mcp::panel_request(
            mcp::framed(prompt@, system.deep_view()),
            temperature.deep_view(),
        ),
{
    mcp::request_for(mcp::frame_prompt(prompt, system), temperature)
}

/// What was counted of the runs of a profile.
#[derive(Debug)]
pub struct BenchTally {
    pub runs: u32,
    pub total_duration_ms: u64,
    pub total_success_count: usize,
    pub worker_count: usize,
    pub sample_synthesis: Option<String>,
    pub sample_worker_outputs: Vec<String>,
}

#[verifier::ext_equal]
pub struct TallyView {
    pub runs: u32,
    pub total_duration_ms: u64,
    pub total_success_count: usize,
    pub worker_count: usize,
    pub sample_synthesis: Option<Seq<char>>,
    pub sample_worker_outputs: Seq<Seq<char>>,
}

impl DeepView for BenchTally {
    type V = TallyView;

    open spec fn deep_view(&self) -> TallyView {
        TallyView {
            runs: self.runs,
            total_duration_ms: self.total_duration_ms,
            total_success_count: self.total_success_count,
            worker_count: self.worker_count,
            sample_synthesis: self.sample_synthesis.deep_view(),
            sample_worker_outputs: self.sample_worker_outputs.deep_view(),
        }
    }
}

/// What was counted before any run.
pub open spec fn empty_tally() -> TallyView {
    TallyView {
        runs: 0,
        total_duration_ms: 0,
        total_success_count: 0,
        worker_count: 0,
        sample_synthesis: None,
        sample_worker_outputs: Seq::empty(),
    }
}

/// The beginning of an answer.
pub open spec fn sample_of() -> spec_fn(WorkerResultView) -> Option<Seq<char>> {
    |w: WorkerResultView|
        match w.response {
            Some(r) => Some(text::head_of(r.content, 500)),
            None => None,
        }
}

/// Whether one more run can be counted.
pub open spec fn has_room(t: TallyView, r: FusionResultView) -> bool {
    &&& t.runs < u32::MAX
    &&& t.total_duration_ms + r.duration_ms <= u64::MAX
    &&& t.total_success_count + r.models_succeeded <= usize::MAX
}

/// What was counted after one more run. The first run gives the samples, the last one
/// the number of workers.
pub open spec fn with_run(t: TallyView, r: FusionResultView) -> TallyView {
    TallyView {
        runs: (t.runs + 1) as u32,
        total_duration_ms: (t.total_duration_ms + r.duration_ms) as u64,
        total_success_count: (t.total_success_count + r.models_succeeded) as usize,
        worker_count: r.worker_results.len() as usize,
        sample_synthesis: if t.runs == 0 {
            r.synthesis
        } else {
            t.sample_synthesis
        },
        sample_worker_outputs: if t.runs == 0 {
            r.worker_results.filter_map(sample_of())
        } else {
            t.sample_worker_outputs
        },
    }
}

/// How many answers were asked for in all: no more than fits in 32 bits, and at least
/// one, so that a rate can be taken of it.
pub open spec fn attempts_of(worker_count: usize, runs: u32) -> u32 {
    let n = (worker_count as nat % 0x1_0000_0000) * runs as nat;
    if n > u32::MAX {
        u32::MAX
    } else if n == 0 {
        1
    } else {
        n as u32
    }
}

fn sample_of_result(w: &WorkerResult) -> (r: Option<String>)
    ensures
        r.deep_view() == sample_of()(w.deep_view()),
{
    match &w.response {
        Some(resp) => Some(text::head(resp.content.as_str(), 500)),
        None => None,
    }
}

/// Whether a duration is the average of some runs, in whole milliseconds.
pub open spec fn is_average(average: u64, total: u64, runs: u32) -> bool {
    average * runs <= total < (average + 1) * runs
}

impl BenchTally {
    /// What was counted before any run.
    pub fn new() -> (r: Self)
        ensures
            r.deep_view() == empty_tally(),
    {
        BenchTally {
            runs: 0,
            total_duration_ms: 0,
            total_success_count: 0,
            worker_count: 0,
            sample_synthesis: None,
            sample_worker_outputs: seqs::none(),
        }
    }

    /// Whether one more run can be counted.
    pub fn can_add(&self, result: &FusionResult) -> (r: bool)
        ensures
            r == has_room(self.deep_view(), result.deep_view()),
    {
        self.runs < u32::MAX && self.total_duration_ms <= u64::MAX - result.duration_ms
            && self.total_success_count <= usize::MAX - result.models_succeeded
    }

    /// Counts one more run.
    pub fn add_run(&mut self, result: &FusionResult)
        requires
            has_room(old(self).deep_view(), result.deep_view()),
        ensures
            final(self).deep_view() == with_run(old(self).deep_view(), result.deep_view()),
    {
        if self.runs == 0 {
            self.sample_synthesis = result.synthesis.clone();
            self.sample_worker_outputs = seqs::pick_all(
                &result.worker_results,
                sample_of_result,
                Ghost(sample_of()),
            );
        }
        self.runs = self.runs + 1;
        self.total_duration_ms = self.total_duration_ms + result.duration_ms;
        self.total_success_count = self.total_success_count + result.models_succeeded;
        self.worker_count = result.worker_results.len();
    }

    /// The average duration of a run.
    pub fn avg_duration_ms(&self) -> (r: u64)
        requires
            self.runs > 0,
        ensures
            r == self.total_duration_ms / (self.runs as u64),
            is_average(r, self.total_duration_ms, self.runs),
    {
        proof {
            let (t, n) = (self.total_duration_ms as int, self.runs as int);
            assert((t / n) * n <= t < (t / n + 1) * n) by (nonlinear_arith)
                requires
                    n > 0,
                    t >= 0,
            ;
        }
        self.total_duration_ms / (self.runs as u64)
    }

    /// How many answers were asked for in all, at least one.
    pub fn attempts(&self) -> (r: u32)
        ensures
            r == attempts_of(self.worker_count, self.runs),
    {
        let w: u64 = self.worker_count as u64 % 0x1_0000_0000;
        let runs: u64 = self.runs as u64;
        assert(w * runs <= u64::MAX) by (nonlinear_arith)
            requires
                w < 0x1_0000_0000,
                runs < 0x1_0000_0000,
        ;
        let n: u64 = w * runs;
        if n > u32::MAX as u64 {
            u32::MAX
        } else if n == 0 {
            1
        } else {
            n as u32
        }
    }
}

/// What was counted after some runs.
pub open spec fn tally_of(runs: Seq<FusionResultView>) -> TallyView
    decreases runs.len(),
{
    if runs.len() == 0 {
        empty_tally()
    } else {
        with_run(tally_of(runs.drop_last()), runs.last())
    }
}

/// The durations of some runs, added up.
pub open spec fn total_duration(runs: Seq<FusionResultView>) -> nat
    decreases runs.len(),
{
    if runs.len() == 0 {
        0
    } else {
        total_duration(runs.drop_last()) + runs.last().duration_ms as nat
    }
}

/// The successes of some runs, added up.
pub open spec fn total_successes(runs: Seq<FusionResultView>) -> nat
    decreases runs.len(),
{
    if runs.len() == 0 {
        0
    } else {
        total_successes(runs.drop_last()) + runs.last().models_succeeded as nat
    }
}

/// As long as nothing overflows, the tally holds the number of runs and the sums of
/// their durations and successes, and the samples are those of the first run.
pub proof fn tally_adds_up(runs: Seq<FusionResultView>)
    requires
        runs.len() <= u32::MAX,
        total_duration(runs) <= u64::MAX,
        total_successes(runs) <= usize::MAX,
    ensures
        tally_of(runs).runs == runs.len(),
        tally_of(runs).total_duration_ms == total_duration(runs),
        tally_of(runs).total_success_count == total_successes(runs),
        runs.len() > 0 ==> tally_of(runs).sample_synthesis == runs[0].synthesis
            && tally_of(runs).sample_worker_outputs == runs[0].worker_results.filter_map(
            sample_of(),
        ),
    decreases runs.len(),
{
    if runs.len() > 0 {
        tally_adds_up(runs.drop_last());
    }
}

/// The average of runs that all take the same time is that time, and an average is never
/// longer than all runs together.
pub proof fn averages_are_between(average: u64, each: u64, total: u64, runs: u32)
    requires
        runs > 0,
        is_average(average, total, runs),
    ensures
        average <= total,
        total == each * runs ==> average == each,
{
    assert(average <= average * runs) by (nonlinear_arith)
        requires
            runs > 0,
            average >= 0,
    ;
    if total == each * runs {
        assert(average == each) by (nonlinear_arith)
            requires
                runs > 0,
                average * runs <= each * runs,
                each * runs < (average + 1) * runs,
        ;
    }
}

} // verus!
