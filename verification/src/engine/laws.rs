//! What holds of the panel as a whole: each worker is set up as its configuration says
//! and asked at its address in its protocol, and a run comes to what its workers and its
//! judge said.

use vstd::prelude::*;

use crate::config::{ApiProtocol, ConfigView, EndpointView};
use crate::engine;
use crate::engine::{
    after_failure, broken_result, can_retry, context_of, engine_fault, failed_result,
    fusion_result, if_asked, if_success, judge_for, judge_request, panel_of, pause_after,
    retries_of, said_by, shortage, successes, text_if, without_tools, workers_for, Attempts,
};
use crate::error::ErrorView;
use crate::protocol::request_laws::{next_line, picked_texts_grow, picks_grow};
use crate::protocol::{MessageView, RequestView, Role, Usd, WorkerResultView};
use crate::seqs;
use crate::text;
use crate::worker::{advisory_prompt, url_of, WorkerView};

verus! {

// ---------------------------------------------------------------------------
// The panel
// ---------------------------------------------------------------------------

/// Whether an endpoint has a key of its own: not an empty one, and not the placeholder.
pub open spec fn has_own_key(e: EndpointView) -> bool {
    e.api_key.len() > 0 && !text::starts_with_of(e.api_key, "sk-xxx"@)
}

/// Whether a key is the one for an endpoint: its own, or else that of the environment.
pub open spec fn is_key_for(key: Seq<char>, e: EndpointView, env_key: Option<Seq<char>>) -> bool {
    if has_own_key(e) {
        key == e.api_key
    } else {
        env_key == Some(key)
    }
}

/// Every worker of a configuration that has keys is on the panel in its place: with its
/// model, its protocol, its address and its key, under its name or else that of its
/// model, and under the advisory prompt for its personality. The judge has its own, and no
/// such prompt.
pub proof fn panel_is_set_up(c: ConfigView, env_key: Option<Seq<char>>)
    requires
        engine_fault(c, env_key) is None,
    ensures
        ({
            let workers = workers_for(c.workers, env_key);
            let judge = judge_for(c.judge, crate::config::key_for(c.judge, env_key)->0);
            &&& workers.len() == c.workers.len()
            &&& forall|i: int|
                0 <= i < c.workers.len() ==> {
                    let w = #[trigger] workers[i];
                    let e = c.workers[i];
                    &&& w.model == e.model
                    &&& w.api == e.api
                    &&& w.base_url == e.base_url
                    &&& w.name == (match e.name {
                        Some(name) => name,
                        None => e.model,
                    })
                    &&& is_key_for(w.api_key, e, env_key)
                    &&& w.advisory_prompt == Some(advisory_prompt(e.personality))
                }
            &&& judge.model == c.judge.model
            &&& judge.api == c.judge.api
            &&& judge.base_url == c.judge.base_url
            &&& judge.name == c.judge.model
            &&& is_key_for(judge.api_key, c.judge, env_key)
            &&& judge.advisory_prompt is None
        }),
{
    let workers = workers_for(c.workers, env_key);
    assert forall|i: int| 0 <= i < c.workers.len() implies is_key_for(
        (#[trigger] workers[i]).api_key,
        c.workers[i],
        env_key,
    ) by {
        all_have_keys(c.workers, env_key, 0, i);
    }
}

proof fn all_have_keys(
    endpoints: Seq<EndpointView>,
    env_key: Option<Seq<char>>,
    from: int,
    i: int,
)
    requires
        0 <= from <= i < endpoints.len(),
        engine::first_keyless(endpoints, env_key, from) is None,
    ensures
        has_own_key(endpoints[i]) || env_key is Some,
    decreases endpoints.len() - from,
{
    if from < i {
        all_have_keys(endpoints, env_key, from + 1, i);
    }
}

proof fn first_keyless_is_first(endpoints: Seq<EndpointView>, env_key: Option<Seq<char>>, from: int)
    requires
        0 <= from <= endpoints.len(),
    ensures
        match engine::first_keyless(endpoints, env_key, from) {
            Some(i) => from <= i < endpoints.len() && !has_own_key(endpoints[i]) && env_key is None
                && forall|k: int| from <= k < i ==> has_own_key(#[trigger] endpoints[k]),
            None => env_key is Some || forall|k: int|
                from <= k < endpoints.len() ==> has_own_key(#[trigger] endpoints[k]),
        },
    decreases endpoints.len() - from,
{
    if from < endpoints.len() {
        first_keyless_is_first(endpoints, env_key, from + 1);
    }
}

/// A panel can be made ready if the environment has a key, or if the judge and every
/// worker have one. Else the judge's missing key is reported, or the model of the first
/// worker without one.
pub proof fn missing_keys_are_reported(c: ConfigView, env_key: Option<Seq<char>>)
    ensures
        engine_fault(c, env_key) is None <==> env_key is Some || (has_own_key(c.judge)
            && forall|i: int| 0 <= i < c.workers.len() ==> has_own_key(#[trigger] c.workers[i])),
        env_key is None && !has_own_key(c.judge) ==> engine_fault(c, env_key) == Some(
            ErrorView::NoApiKey,
        ),
        forall|i: int|
            #![trigger c.workers[i]]
            env_key is None && has_own_key(c.judge) && 0 <= i < c.workers.len() && !has_own_key(
                c.workers[i],
            ) && (forall|k: int| 0 <= k < i ==> has_own_key(#[trigger] c.workers[k]))
                ==> engine_fault(c, env_key) == Some(
                ErrorView::Config("No API key for worker '"@ + c.workers[i].model + "'"@),
            ),
{
    first_keyless_is_first(c.workers, env_key, 0);
    assert forall|i: int|
        #![trigger c.workers[i]]
        env_key is None && has_own_key(c.judge) && 0 <= i < c.workers.len() && !has_own_key(
            c.workers[i],
        ) && (forall|k: int| 0 <= k < i ==> has_own_key(#[trigger] c.workers[k]))
        implies engine_fault(c, env_key) == Some(
        ErrorView::Config("No API key for worker '"@ + c.workers[i].model + "'"@),
    ) by {
        let j = engine::first_keyless(c.workers, env_key, 0);
        assert(j is Some);
        if j->0 < i {
            assert(has_own_key(c.workers[j->0]));
        }
        if i < j->0 {
            assert(has_own_key(c.workers[i]));
        }
    }
}

/// Whoever is asked is asked in the order of the panel: one more worker comes last, if
/// all are asked or the filter names it by its model or its name, and is left out
/// otherwise.
pub proof fn panel_keeps_its_order(
    workers: Seq<WorkerView>,
    w: WorkerView,
    filter: Seq<Seq<char>>,
)
    ensures
        panel_of(Seq::empty(), filter).len() == 0,
        panel_of(workers.push(w), filter) == (if filter.len() == 0 || filter.contains("all"@)
            || filter.contains(w.model) || filter.contains(w.name) {
            panel_of(workers, filter).push(w)
        } else {
            panel_of(workers, filter)
        }),
{
    picks_grow(workers, w, if_asked(filter));
}

/// What workers are asked has no tools, and is the request in all else.
pub proof fn workers_are_asked_the_request(ir: RequestView)
    ensures
        ({
            let asked = without_tools(ir);
            &&& asked.tools.len() == 0
            &&& asked.tool_choice is None
            &&& asked.parallel_tool_calls is None
            &&& asked.messages == ir.messages
            &&& asked.max_tokens == ir.max_tokens
            &&& asked.temperature == ir.temperature
            &&& asked.top_p == ir.top_p
            &&& asked.stop == ir.stop
            &&& asked.api_key == ir.api_key
            &&& asked.thinking == ir.thinking
            &&& asked.session_id == ir.session_id
            &&& asked.system == ir.system
            &&& asked.stream == ir.stream
            &&& asked.metadata == ir.metadata
            &&& asked.native == ir.native
        }),
{
}

// ---------------------------------------------------------------------------
// Results
// ---------------------------------------------------------------------------

/// One more result that is a success is one more success, after the others; any other is
/// none.
pub proof fn successes_are_counted(results: Seq<WorkerResultView>, w: WorkerResultView)
    ensures
        successes(Seq::empty()).len() == 0,
        successes(results.push(w)) == (if w.success {
            successes(results).push(w)
        } else {
            successes(results)
        }),
{
    picks_grow(results, w, if_success());
}

/// A worker that could not be asked, or that broke down, is a failure that says why.
pub proof fn failures_say_why(model: Seq<char>, name: Seq<char>, e: ErrorView, fault: Seq<char>)
    ensures
        ({
            let w = failed_result(model, name, crate::error::message_of(e));
            &&& w.model == model
            &&& w.name == name
            &&& !w.success
            &&& w.response is None
            &&& w.error == Some(crate::error::message_of(e))
            &&& w.api == "error"@
        }),
        ({
            let w = broken_result(fault);
            &&& !w.success
            &&& w.response is None
            &&& w.error == Some("Worker panicked: "@ + fault)
            &&& w.model == "worker-panic"@
            &&& w.name == "worker-panic"@
            &&& w.api == "unknown"@
        }),
{
}

/// A run with too few successes ends with their number, the number of results and the
/// number that was needed; each failure is one more line, with its model and its error.
pub proof fn shortage_tells_the_failures(
    results: Seq<WorkerResultView>,
    w: WorkerResultView,
    min_workers: usize,
)
    requires
        results.len() < usize::MAX,
    ensures
        shortage(results, min_workers) is Some <==> successes(results).len() < min_workers,
        shortage(results, min_workers) matches Some(e) ==> {
            &&& e matches ErrorView::InsufficientWorkers { success_count, total, min, details }
            &&& success_count == successes(results).len()
            &&& total == results.len()
            &&& min == min_workers
            &&& results.len() == 0 ==> details.len() == 0
        },
        shortage(results, min_workers) is Some && shortage(results.push(w), min_workers) is Some
            ==> {
            let before = shortage(results, min_workers)->0->InsufficientWorkers_details;
            let after = shortage(results.push(w), min_workers)->0->InsufficientWorkers_details;
            after == (if w.success {
                before
            } else {
                next_line(
                    if exists|j: int| 0 <= j < results.len() && !(#[trigger] results[j]).success {
                        Some(before)
                    } else {
                        None
                    },
                    "  "@ + w.model + ": "@ + match w.error {
                        Some(e) => e,
                        None => "unknown"@,
                    },
                )
            })
        },
{
    let f = engine::failure_line();
    engine::successes_are_results(results);
    engine::successes_are_results(results.push(w));
    picked_texts_grow(results, w, f, "\n"@);
    if results.len() == 0 {
        assert(results =~= Seq::empty());
    }
    if exists|j: int| 0 <= j < results.len() && !(#[trigger] results[j]).success {
        let j = choose|j: int| 0 <= j < results.len() && !(#[trigger] results[j]).success;
        assert(f(results[j]) is Some);
    }
    if exists|j: int| 0 <= j < results.len() && f(#[trigger] results[j]) is Some {
        let j = choose|j: int| 0 <= j < results.len() && f(#[trigger] results[j]) is Some;
        assert(!results[j].success);
    }
}

/// What one side of a conversation says is what its messages say, each on a line of its
/// own.
pub proof fn sides_are_quoted(messages: Seq<MessageView>, m: MessageView, role: Role)
    ensures
        said_by(Seq::empty(), role).len() == 0,
        said_by(messages.push(m), role) == (if m.role == role {
            next_line(
                if exists|j: int| 0 <= j < messages.len() && (#[trigger] messages[j]).role == role {
                    Some(said_by(messages, role))
                } else {
                    None
                },
                m.content,
            )
        } else {
            said_by(messages, role)
        }),
{
    let f = text_if(role);
    picked_texts_grow(messages, m, f, "\n"@);
    if exists|j: int| 0 <= j < messages.len() && (#[trigger] messages[j]).role == role {
        let j = choose|j: int| 0 <= j < messages.len() && (#[trigger] messages[j]).role == role;
        assert(f(messages[j]) is Some);
    }
    if exists|j: int| 0 <= j < messages.len() && f(#[trigger] messages[j]) is Some {
        let j = choose|j: int| 0 <= j < messages.len() && f(#[trigger] messages[j]) is Some;
        assert(messages[j].role == role);
    }
}

/// What a run comes to: every result of its workers, how many of them are successes and
/// how many are not, what the judge said and which tools it calls, if it was asked, what
/// the user asked, and what its caller knows of it.
pub proof fn run_comes_to_what_was_said(
    session_id: Seq<char>,
    ir: RequestView,
    results: Seq<WorkerResultView>,
    judge_mode: bool,
    judge: Option<WorkerResultView>,
    total_cost_usd: Usd,
    duration_ms: u64,
    timestamp: Seq<char>,
)
    requires
        results.len() <= usize::MAX,
    ensures
        ({
            let r = fusion_result(
                session_id,
                ir,
                results,
                judge_mode,
                judge,
                total_cost_usd,
                duration_ms,
                timestamp,
            );
            &&& r.session_id == session_id
            &&& r.worker_results == results
            &&& r.judge_response == judge
            &&& r.enhanced_prompt_used == judge_mode
            &&& r.models_succeeded == successes(results).len()
            &&& r.models_succeeded + r.models_failed == results.len()
            &&& r.total_cost_usd == total_cost_usd
            &&& r.duration_ms == duration_ms
            &&& r.timestamp == timestamp
            &&& r.original_prompt == said_by(ir.messages, Role::User)
            &&& r.consensus.len() == 0
            &&& r.contradictions.len() == 0
            &&& r.blind_spots.len() == 0
            &&& r.judge_output_raw == r.synthesis
            &&& judge is None || judge->0.response is None ==> r.synthesis is None
                && r.passthrough_tool_calls.len() == 0
            &&& judge is Some && judge->0.response is Some ==> {
                &&& r.synthesis == Some(judge->0.response->0.content)
                &&& r.passthrough_tool_calls == judge->0.response->0.tool_calls
            }
        }),
{
    engine::successes_are_results(results);
}

// ---------------------------------------------------------------------------
// The judge
// ---------------------------------------------------------------------------

/// The judge is asked the request, and is told what every worker that succeeded with
/// something to say has said, under the name of the worker, in a message of the system
/// that comes first; nothing else of the request changes.
pub proof fn judge_is_asked_with_the_proposals(
    ir: RequestView,
    results: Seq<WorkerResultView>,
    i: int,
)
    requires
        0 <= i < results.len(),
        results[i].success,
        results[i].response is Some,
        results[i].response->0.content.len() > 0,
    ensures
        ({
            let asked = judge_request(ir, results);
            &&& asked.messages.len() == ir.messages.len() + 1
            &&& asked.messages.drop_first() == ir.messages
            &&& asked.messages[0].role is System
            &&& text::contains_of(asked.messages[0].content, results[i].response->0.content)
            &&& text::contains_of(asked.messages[0].content, results[i].name)
            &&& asked == (RequestView { messages: asked.messages, ..ir })
        }),
{
    let f = if_success();
    let k = seqs::pick_is_there(results, f, i);
    let told = successes(results);
    assert(told[k] == results[i]);
    engine::judge_is_told_every_proposal(told, k);
    let asked = judge_request(ir, results);
    assert(asked.messages.drop_first() =~= ir.messages);
    let ctx = context_of(told);
    let all = asked.messages[0].content;
    let content = results[i].response->0.content;
    let name = results[i].name;
    let p = choose|p: int| text::occurs_at(ctx, content, p);
    assert(all.subrange(p, p + content.len()) =~= ctx.subrange(p, p + content.len()));
    assert(text::occurs_at(all, content, p));
    let q = choose|q: int| text::occurs_at(ctx, name, q);
    assert(all.subrange(q, q + name.len()) =~= ctx.subrange(q, q + name.len()));
    assert(text::occurs_at(all, name, q));
}

/// Where no worker succeeded, the judge is asked the request as it is.
pub proof fn judge_is_asked_without_proposals(ir: RequestView, results: Seq<WorkerResultView>)
    requires
        forall|i: int| 0 <= i < results.len() ==> !(#[trigger] results[i]).success,
    ensures
        judge_request(ir, results) == ir,
{
    seqs::picks_none(results, if_success());
}

// ---------------------------------------------------------------------------
// Attempts
// ---------------------------------------------------------------------------

/// Another attempt can help after a timeout, a failure of the network, or an answer of
/// the upstream that announces a passing failure by its status; after nothing else but an
/// answer that does so in words.
pub proof fn passing_failures_can_be_retried(e: ErrorView)
    ensures
        e is WorkerTimeout || e is Network ==> can_retry(e),
        e matches ErrorView::ApiError { status, .. } ==> status == 408 || status == 425 || status
            == 429 || status == 500 || status == 502 || status == 503 || status == 504 || status
            == 529 ==> can_retry(e),
        can_retry(e) ==> e is WorkerTimeout || e is Network || e is ApiError,
        e matches ErrorView::ApiError { status, body, .. } ==> can_retry(e)
            == crate::error::is_transient(status, body),
{
}

/// The pause is what the upstream asks for, in milliseconds, but at least one second and
/// at most ten. Without a wish it is half a second at first, and then doubles up to eight
/// seconds.
pub proof fn pauses_are_what_is_asked_for(e: ErrorView, attempt: u32)
    requires
        attempt < u32::MAX,
    ensures
        ({
            let wish = match e {
                ErrorView::ApiError { retry_after_secs, .. } => retry_after_secs,
                _ => None,
            };
            let pause = pause_after(e, attempt);
            &&& wish matches Some(secs) ==> {
                &&& 1 <= secs <= 10 ==> pause == secs * 1000
                &&& secs < 1 ==> pause == 1000
                &&& secs > 10 ==> pause == 10_000
            }
            &&& wish is None ==> {
                &&& attempt <= 1 ==> pause == 500
                &&& attempt >= 1 ==> pause_after(e, (attempt + 1) as u32) == (if pause < 8000 {
                    2 * pause
                } else {
                    8000
                })
            }
        }),
{
    reveal_with_fuel(engine::doubled_pause, 6);
}

/// A failed request is sent again as often as is configured, but at least twice if need
/// be; each attempt is counted, and its pause is that for the failure.
pub proof fn attempts_are_counted(retry: u32, a: Attempts, e: ErrorView)
    ensures
        retries_of(retry) == (if retry > 2 {
            retry
        } else {
            2
        }),
        a.attempt <= a.max_retries && a.attempt < u32::MAX && can_retry(e) ==> after_failure(a, e)
            == (
            Attempts { attempt: (a.attempt + 1) as u32, max_retries: a.max_retries },
            Some(pause_after(e, a.attempt)),
        ),
        a.attempt > a.max_retries || !can_retry(e) ==> after_failure(a, e) == (a, None::<u64>),
{
}

// ---------------------------------------------------------------------------
// Addresses
// ---------------------------------------------------------------------------

/// A worker is asked at its address, at the path of its protocol; slashes at the end of
/// the address do not matter, nor does a version there.
pub proof fn workers_are_asked_at_their_address(w: WorkerView)
    ensures
        ({
            let path = match w.api {
                ApiProtocol::OpenaiCompletions => "/v1/chat/completions"@,
                ApiProtocol::OpenaiResponses => "/v1/responses"@,
                ApiProtocol::GoogleGenerativeAi => "/v1beta/models/"@ + w.model
                    + ":generateContent"@,
                ApiProtocol::AnthropicMessages => "/v1/messages"@,
            };
            &&& w.base_url.len() > 0 && w.base_url.last() != '/' && !text::ends_with_of(
                w.base_url,
                "/v1"@,
            ) ==> {
                &&& url_of(w) == w.base_url + path
                &&& url_of(WorkerView { base_url: w.base_url + "/v1"@, ..w }) == w.base_url + path
            }
            &&& url_of(WorkerView { base_url: w.base_url.push('/'), ..w }) == url_of(w)
        }),
{
    reveal_strlit("/v1");
    reveal_strlit("/v1/chat/completions");
    reveal_strlit("/v1/responses");
    reveal_strlit("/v1beta/models/");
    reveal_strlit("/v1/messages");
    let path = crate::config::path_of(w.api, w.model);
    assert(path.subrange(0, 3) =~= "/v1"@);
    let more = w.base_url.push('/');
    assert(more.drop_last() =~= w.base_url);
    let versioned = w.base_url + "/v1"@;
    assert(versioned.last() == '1');
    assert(versioned.subrange(versioned.len() - 3, versioned.len() as int) =~= "/v1"@);
    assert(versioned.take(versioned.len() - 3) =~= w.base_url);
}

} // verus!
