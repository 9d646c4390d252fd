//! The tool `fusion`: the panel's opinions, with a synthesis by the judge if wanted.

use vstd::prelude::*;

use crate::mcp;
use crate::protocol::{IntermediateRequest, RequestView, Single, SingleView};
use crate::seqs;

verus! {

/// What the tool is asked.
#[derive(Debug)]
pub struct FusionParams {
    pub prompt: String,
    pub system: Option<String>,
    pub judge_mode: Option<bool>,
    pub panel_override: Option<Vec<String>>,
    pub save_session: Option<bool>,
}

#[verifier::ext_equal]
pub struct FusionParamsView {
    pub prompt: Seq<char>,
    pub system: Option<Seq<char>>,
    pub judge_mode: Option<bool>,
    pub panel_override: Option<Seq<Seq<char>>>,
    pub save_session: Option<bool>,
}

impl DeepView for FusionParams {
    type V = FusionParamsView;

    open spec fn deep_view(&self) -> FusionParamsView {
        FusionParamsView {
            prompt: self.prompt@,
            system: self.system.deep_view(),
            judge_mode: self.judge_mode,
            panel_override: self.panel_override.deep_view(),
            save_session: self.save_session,
        }
    }
}

impl Default for FusionParams {
    fn default() -> (r: Self)
        ensures
            r.deep_view() == (FusionParamsView {
                prompt: Seq::empty(),
                system: None,
                judge_mode: None,
                panel_override: None,
                save_session: None,
            }),
    {
        FusionParams {
            prompt: String::new(),
            system: None,
            judge_mode: None,
            panel_override: None,
            save_session: None,
        }
    }
}

/// How the panel is run.
#[derive(Debug)]
pub struct RunPlan {
    pub request: IntermediateRequest,
    pub model_filter: Vec<String>,
    pub judge_mode: bool,
    pub save_session: bool,
}

#[verifier::ext_equal]
pub struct RunPlanView {
    pub request: RequestView,
    pub model_filter: Seq<Seq<char>>,
    pub judge_mode: bool,
    pub save_session: bool,
}

impl DeepView for RunPlan {
    type V = RunPlanView;

    open spec fn deep_view(&self) -> RunPlanView {
        RunPlanView {
            request: self.request.deep_view(),
            model_filter: self.model_filter.deep_view(),
            judge_mode: self.judge_mode,
            save_session: self.save_session,
        }
    }
}

/// A truth value that is false where nothing is said.
pub open spec fn or_false(b: Option<bool>) -> bool {
    b == Some(true)
}

/// A truth value that is false where nothing is said.
pub fn unwrap_or_false(b: Option<bool>) -> (r: bool)
    ensures
        r == or_false(b),
{
    match b {
        Some(b) => b,
        None => false,
    }
}

/// A list that is empty where nothing is said.
pub open spec fn or_none(list: Option<Seq<Seq<char>>>) -> Seq<Seq<char>> {
    match list {
        Some(list) => list,
        None => Seq::empty(),
    }
}

/// How the panel is run for what the tool is asked.
pub open spec fn plan_of(p: FusionParamsView, temperature: SingleView) -> RunPlanView {
    RunPlanView {
        request: mcp::panel_request(mcp::framed(p.prompt, p.system), temperature),
        model_filter: or_none(p.panel_override),
        judge_mode: or_false(p.judge_mode),
        save_session: or_false(p.save_session),
    }
}

/// How the panel is run for what the tool is asked.
pub fn plan(params: FusionParams, temperature: Single) -> (r: RunPlan)
    ensures
        r.deep_view() == plan_of(params.deep_view(), temperature.deep_view()),
{
    let prompt = mcp::frame_prompt(params.prompt.as_str(), &params.system);
    let model_filter = match params.panel_override {
        Some(list) => list,
        None => seqs::none(),
    };
    RunPlan {
        request: mcp::request_for(prompt, temperature),
        model_filter,
        judge_mode: unwrap_or_false(params.judge_mode),
        save_session: unwrap_or_false(params.save_session),
    }
}

} // verus!
