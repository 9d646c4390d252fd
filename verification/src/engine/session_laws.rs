//! What holds of kept sessions: what is kept of a run, what a list finds, and what an
//! export shows.

use vstd::prelude::*;

use crate::engine::session::{
    answers, export_consensus, export_head, export_synthesis, kept_of, listing, markdown_of,
    meta_of, points, SessionMetaView, SessionView,
};
use crate::engine::FusionResultView;
use crate::protocol::request_laws::picks_grow;
use crate::protocol::WorkerResultView;
use crate::text;
use crate::text_laws::{occurs_in_itself, occurs_in_more};
use crate::worker::laws::joined_has;

verus! {

/// What is kept of a run for lists: its identifier, its prompt and the beginning of it,
/// the models of its workers in order, its counts, its duration and its time.
pub proof fn runs_are_kept(r: FusionResultView)
    ensures
        ({
            let m = meta_of(r);
            &&& m.id == r.session_id
            &&& m.original_prompt == r.original_prompt
            &&& m.prompt_preview == (if r.original_prompt.len() <= 200 {
                r.original_prompt
            } else {
                r.original_prompt.take(200)
            })
            &&& m.models.len() == r.worker_results.len()
            &&& forall|i: int|
                0 <= i < r.worker_results.len() ==> #[trigger] m.models[i]
                    == r.worker_results[i].model
            &&& m.models_succeeded == r.models_succeeded
            &&& m.models_failed == r.models_failed
            &&& m.duration_ms == r.duration_ms
            &&& m.timestamp == r.timestamp
        }),
{
}

/// Everything of a run is kept: its results, its synthesis, what the judge said, and what
/// lists show of it.
pub proof fn runs_are_kept_whole(r: FusionResultView)
    ensures
        kept_of(r).full == r,
        kept_of(r).full.worker_results == r.worker_results,
        kept_of(r).full.synthesis == r.synthesis,
        kept_of(r).full.judge_response == r.judge_response,
        kept_of(r).meta.id == r.session_id,
        kept_of(r).meta.original_prompt == r.original_prompt,
{
}

/// Whether a text holds another one, in whatever case.
pub open spec fn has_words(s: Seq<char>, query: Seq<char>) -> bool {
    text::contains_of(text::lowercase_of(s), text::lowercase_of(query))
}

/// A list with a query finds a session by the beginning of its prompt or by one of its
/// models, in whatever case: one more session that is found comes first, and one that is
/// not found changes nothing.
pub proof fn lists_find_what_is_asked_for(
    metas: Seq<SessionMetaView>,
    m: SessionMetaView,
    query: Seq<char>,
)
    ensures
        listing(Seq::empty(), Some(query), None).len() == 0,
        listing(metas.push(m), Some(query), None) == (if has_words(m.prompt_preview, query)
            || exists|i: int| 0 <= i < m.models.len() && has_words(#[trigger] m.models[i], query) {
            seq![m] + listing(metas, Some(query), None)
        } else {
            listing(metas, Some(query), None)
        }),
{
    let q = text::lowercase_of(query);
    let f = crate::engine::session::if_about(q);
    picks_grow(metas, m, f);
    let found = metas.filter_map(f);
    assert(listing(metas, Some(query), None) == found.reverse());
    assert(found.push(m).reverse() =~= seq![m] + found.reverse());
    if exists|i: int| 0 <= i < m.models.len() && has_words(#[trigger] m.models[i], query) {
        let i = choose|i: int| 0 <= i < m.models.len() && has_words(#[trigger] m.models[i], query);
        assert(crate::engine::session::mentions(m.models[i], q));
    }
    if f(m) is Some && !has_words(m.prompt_preview, query) {
        let i = choose|i: int|
            0 <= i < m.models.len() && crate::engine::session::mentions(#[trigger] m.models[i], q);
        assert(has_words(m.models[i], query));
    }
}

/// With a limit a list shows the first of those that it would show without one.
pub proof fn limits_cut_lists(metas: Seq<SessionMetaView>, query: Option<Seq<char>>, n: usize)
    ensures
        ({
            let all = listing(metas, query, None);
            listing(metas, query, Some(n)) == (if all.len() > n {
                all.take(n as int)
            } else {
                all
            })
        }),
{
}

proof fn answers_have(results: Seq<WorkerResultView>, i: int, p: Seq<char>)
    requires
        0 <= i < results.len(),
        text::contains_of(crate::engine::session::answer(results[i]), p),
    ensures
        text::contains_of(answers(results), p),
    decreases results.len(),
{
    let rest = answers(results.drop_last());
    let last = crate::engine::session::answer(results.last());
    if i == results.len() - 1 {
        occurs_in_more(rest, last, Seq::empty(), p);
        assert(rest + last + Seq::<char>::empty() =~= rest + last);
    } else {
        answers_have(results.drop_last(), i, p);
        occurs_in_more(Seq::empty(), rest, last, p);
        assert(Seq::<char>::empty() + rest + last =~= rest + last);
    }
}

proof fn points_have(consensus: Seq<Seq<char>>, i: int)
    requires
        0 <= i < consensus.len(),
    ensures
        text::contains_of(points(consensus), consensus[i]),
    decreases consensus.len(),
{
    let rest = points(consensus.drop_last());
    let p = consensus[i];
    if i == consensus.len() - 1 {
        occurs_in_itself(p);
        occurs_in_more(rest + "- "@, p, "\n"@, p);
    } else {
        points_have(consensus.drop_last(), i);
        occurs_in_more(Seq::empty(), rest, "- "@ + consensus.last() + "\n"@, p);
        assert(Seq::<char>::empty() + rest + ("- "@ + consensus.last() + "\n"@) =~= points(
            consensus,
        ));
    }
}

/// What stands in a part of an export stands in the export.
proof fn export_has(s: SessionView, p: Seq<char>)
    ensures
        text::contains_of(export_head(s.meta), p) ==> text::contains_of(markdown_of(s), p),
        text::contains_of(export_synthesis(s.full.synthesis), p) ==> text::contains_of(
            markdown_of(s),
            p,
        ),
        text::contains_of(export_consensus(s.full.consensus), p) ==> text::contains_of(
            markdown_of(s),
            p,
        ),
        text::contains_of(answers(s.full.worker_results), p) ==> text::contains_of(
            markdown_of(s),
            p,
        ),
{
    let a = export_head(s.meta);
    let b = export_synthesis(s.full.synthesis);
    let c = export_consensus(s.full.consensus);
    let d = "## Individual Responses\n\n"@;
    let e = answers(s.full.worker_results);
    let all = markdown_of(s);
    let none = Seq::<char>::empty();
    if text::contains_of(a, p) {
        occurs_in_more(none, a, b + c + d + e, p);
        assert(none + a + (b + c + d + e) =~= all);
    }
    if text::contains_of(b, p) {
        occurs_in_more(a, b, c + d + e, p);
        assert(a + b + (c + d + e) =~= all);
    }
    if text::contains_of(c, p) {
        occurs_in_more(a + b, c, d + e, p);
        assert((a + b) + c + (d + e) =~= all);
    }
    if text::contains_of(e, p) {
        occurs_in_more(a + b + c + d, e, none, p);
        assert((a + b + c + d) + e + none =~= all);
    }
}

/// An export shows which session it is, when it was run, how long it took, and the
/// synthesis, if there is one.
pub proof fn exports_show_the_session(s: SessionView)
    ensures
        text::contains_of(markdown_of(s), s.meta.id),
        text::contains_of(markdown_of(s), s.meta.timestamp),
        text::contains_of(
            markdown_of(s),
            text::decimal_of(s.meta.duration_ms as nat) + "ms"@,
        ),
        s.full.synthesis matches Some(t) ==> text::contains_of(markdown_of(s), t),
{
    let m = s.meta;
    let head = export_head(m);
    let a = "# Fusion Session: "@;
    let b = "\n\n**Time**: "@;
    let c = "\n**Duration**: "@;
    let time = text::decimal_of(m.duration_ms as nat);
    let models = text::join_of(m.models, ", "@);
    let d = "ms\n**Models**: "@;
    let rest = models + " ("@ + text::decimal_of(m.models_succeeded as nat) + "/"@
        + text::decimal_of((m.models_succeeded + m.models_failed) as nat) + ")\n\n"@;
    occurs_in_itself(m.id);
    occurs_in_more(a, m.id, b + m.timestamp + c + time + d + rest, m.id);
    assert(a + m.id + (b + m.timestamp + c + time + d + rest) =~= head);
    occurs_in_itself(m.timestamp);
    occurs_in_more(a + m.id + b, m.timestamp, c + time + d + rest, m.timestamp);
    assert((a + m.id + b) + m.timestamp + (c + time + d + rest) =~= head);
    reveal_strlit("ms");
    reveal_strlit("ms\n**Models**: ");
    let told = time + "ms"@;
    occurs_in_itself(told);
    occurs_in_more(a + m.id + b + m.timestamp + c, told, d.skip(2) + rest, told);
    assert("ms"@ + d.skip(2) =~= d);
    assert((a + m.id + b + m.timestamp + c) + told + (d.skip(2) + rest) =~= head);
    export_has(s, m.id);
    export_has(s, m.timestamp);
    export_has(s, told);
    if let Some(t) = s.full.synthesis {
        occurs_in_itself(t);
        occurs_in_more("## Synthesis\n\n"@, t, "\n\n"@, t);
        export_has(s, t);
    }
}

/// An export shows every point of agreement and every model.
pub proof fn exports_show_points_and_models(s: SessionView, i: int)
    ensures
        0 <= i < s.full.consensus.len() ==> text::contains_of(
            markdown_of(s),
            s.full.consensus[i],
        ),
        0 <= i < s.meta.models.len() ==> text::contains_of(markdown_of(s), s.meta.models[i]),
{
    if 0 <= i < s.full.consensus.len() {
        let p = s.full.consensus[i];
        points_have(s.full.consensus, i);
        occurs_in_more("## Consensus\n\n"@, points(s.full.consensus), "\n"@, p);
        export_has(s, p);
    }
    if 0 <= i < s.meta.models.len() {
        let m = s.meta;
        let p = m.models[i];
        let models = text::join_of(m.models, ", "@);
        let at = joined_has(m.models, ", "@, i);
        assert(text::contains_of(models, p));
        let before = "# Fusion Session: "@ + m.id + "\n\n**Time**: "@ + m.timestamp
            + "\n**Duration**: "@ + text::decimal_of(m.duration_ms as nat) + "ms\n**Models**: "@;
        let after = " ("@ + text::decimal_of(m.models_succeeded as nat) + "/"@ + text::decimal_of(
            (m.models_succeeded + m.models_failed) as nat,
        ) + ")\n\n"@;
        occurs_in_more(before, models, after, p);
        assert(before + models + after =~= export_head(m));
        export_has(s, p);
    }
}

/// An export shows every worker: its model, and its answer or else its error.
pub proof fn exports_show_every_answer(s: SessionView, i: int)
    requires
        0 <= i < s.full.worker_results.len(),
    ensures
        ({
            let w = s.full.worker_results[i];
            &&& text::contains_of(markdown_of(s), "### "@ + w.model)
            &&& w.response matches Some(r) ==> text::contains_of(markdown_of(s), r.content)
            &&& w.response is None && w.error is Some ==> text::contains_of(
                markdown_of(s),
                w.error->0,
            )
        }),
{
    let w = s.full.worker_results[i];
    let results = s.full.worker_results;
    let one = crate::engine::session::answer(w);
    let none = Seq::<char>::empty();
    let title = "### "@ + w.model;
    let rest = one.skip(title.len() as int);
    occurs_in_itself(title);
    occurs_in_more(none, title, rest, title);
    assert(none + title + rest =~= one);
    answers_have(results, i, title);
    export_has(s, title);
    if let Some(r) = w.response {
        occurs_in_itself(r.content);
        occurs_in_more(title + "\n\n"@, r.content, "\n\n"@, r.content);
        answers_have(results, i, r.content);
        export_has(s, r.content);
    } else if let Some(e) = w.error {
        occurs_in_itself(e);
        occurs_in_more(title + "\n\n"@ + "*Error: "@, e, "*\n\n"@, e);
        assert((title + "\n\n"@ + "*Error: "@) + e + "*\n\n"@ =~= one);
        answers_have(results, i, e);
        export_has(s, e);
    }
}

} // verus!
