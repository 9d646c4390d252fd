//! Sessions: what is kept of a run, and how kept runs are listed and shown.

use vstd::prelude::*;

use crate::engine::{FusionResult, FusionResultView};
use crate::protocol;
use crate::protocol::{WorkerResult, WorkerResultView};
use crate::seqs;
use crate::text;

verus! {

/// What a list shows of a session.
#[derive(Debug)]
pub struct SessionMeta {
    pub id: String,
    pub prompt_preview: String,
    pub original_prompt: String,
    pub models: Vec<String>,
    pub models_succeeded: usize,
    pub models_failed: usize,
    pub duration_ms: u64,
    pub timestamp: String,
}

/// A session: what a list shows of it, and all of it.
#[derive(Debug)]
pub struct FusionSession {
    pub meta: SessionMeta,
    pub full: FusionResult,
}

#[verifier::ext_equal]
pub struct SessionMetaView {
    pub id: Seq<char>,
    pub prompt_preview: Seq<char>,
    pub original_prompt: Seq<char>,
    pub models: Seq<Seq<char>>,
    pub models_succeeded: usize,
    pub models_failed: usize,
    pub duration_ms: u64,
    pub timestamp: Seq<char>,
}

#[verifier::ext_equal]
pub struct SessionView {
    pub meta: SessionMetaView,
    pub full: FusionResultView,
}

impl DeepView for SessionMeta {
    type V = SessionMetaView;

    open spec fn deep_view(&self) -> SessionMetaView {
        SessionMetaView {
            id: self.id@,
            prompt_preview: self.prompt_preview@,
            original_prompt: self.original_prompt@,
            models: self.models.deep_view(),
            models_succeeded: self.models_succeeded,
            models_failed: self.models_failed,
            duration_ms: self.duration_ms,
            timestamp: self.timestamp@,
        }
    }
}

impl DeepView for FusionSession {
    type V = SessionView;

    open spec fn deep_view(&self) -> SessionView {
        SessionView { meta: self.meta.deep_view(), full: self.full.deep_view() }
    }
}

impl Clone for SessionMeta {
    fn clone(&self) -> (r: Self)
        ensures
            r.deep_view() == self.deep_view(),
    {
        SessionMeta {
            id: self.id.clone(),
            prompt_preview: self.prompt_preview.clone(),
            original_prompt: self.original_prompt.clone(),
            models: protocol::copy_vec(&self.models),
            models_succeeded: self.models_succeeded,
            models_failed: self.models_failed,
            duration_ms: self.duration_ms,
            timestamp: self.timestamp.clone(),
        }
    }
}

impl Clone for FusionSession {
    fn clone(&self) -> (r: Self)
        ensures
            r.deep_view() == self.deep_view(),
    {
        FusionSession { meta: self.meta.clone(), full: self.full.clone() }
    }
}

// ---------------------------------------------------------------------------
// Saving
// ---------------------------------------------------------------------------

/// The model of a result.
pub open spec fn model_of() -> spec_fn(WorkerResultView) -> Seq<char> {
    |w: WorkerResultView| w.model
}

/// What a list shows of a run: of its prompt, the first 200 characters.
pub open spec fn meta_of(r: FusionResultView) -> SessionMetaView {
    SessionMetaView {
        id: r.session_id,
        prompt_preview: text::head_of(r.original_prompt, 200),
        original_prompt: r.original_prompt,
        models: r.worker_results.map_values(model_of()),
        models_succeeded: r.models_succeeded,
        models_failed: r.models_failed,
        duration_ms: r.duration_ms,
        timestamp: r.timestamp,
    }
}

fn model_name(w: &WorkerResult) -> (r: String)
    ensures
        r@ == model_of()(w.deep_view()),
{
    w.model.clone()
}

/// The session for a run: what lists show of it, and all of it.
pub open spec fn kept_of(r: FusionResultView) -> SessionView {
    SessionView { meta: meta_of(r), full: r }
}

/// The session for a run.
pub fn session_of(result: &FusionResult) -> (r: FusionSession)
    ensures
        r.deep_view() == (SessionView {
            meta: meta_of(result.deep_view()),
            full: result.deep_view(),
        }),
        r.deep_view() == kept_of(result.deep_view()),
{
    let meta = SessionMeta {
        id: result.session_id.clone(),
        prompt_preview: text::head(result.original_prompt.as_str(), 200),
        original_prompt: result.original_prompt.clone(),
        models: seqs::map_all(&result.worker_results, model_name, Ghost(model_of())),
        models_succeeded: result.models_succeeded,
        models_failed: result.models_failed,
        duration_ms: result.duration_ms,
        timestamp: result.timestamp.clone(),
    };
    FusionSession { meta, full: result.clone() }
}

/// The file of a session.
pub fn session_file(id: &str) -> (r: String)
    ensures
        r@ == id@ + ".json"@,
{
    text::concat(id, ".json")
}

/// The file that a session is exported to as Markdown.
pub fn export_file(id: &str) -> (r: String)
    ensures
        r@ == id@ + ".md"@,
{
    text::concat(id, ".md")
}

/// The file that a session is exported to as JSON.
pub fn json_export_file(id: &str) -> (r: String)
    ensures
        r@ == id@ + ".export.json"@,
{
    text::concat(id, ".export.json")
}

/// The file that lists the sessions.
pub fn index_file() -> (r: &'static str)
    ensures
        r@ == "_index.jsonl"@,
{
    "_index.jsonl"
}

// ---------------------------------------------------------------------------
// Listing
// ---------------------------------------------------------------------------

/// Whether a text contains a query, in whatever case. The query is in small letters.
pub open spec fn mentions(s: Seq<char>, query: Seq<char>) -> bool {
    text::contains_of(text::lowercase_of(s), query)
}

/// Whether a session is about a query: its preview or one of its models mentions it.
pub open spec fn is_about(m: SessionMetaView, query: Seq<char>) -> bool {
    mentions(m.prompt_preview, query) || exists|i: int|
        0 <= i < m.models.len() && mentions(#[trigger] m.models[i], query)
}

/// A session that is about a query.
pub open spec fn if_about(query: Seq<char>) -> spec_fn(SessionMetaView) -> Option<SessionMetaView> {
    |m: SessionMetaView|
        if is_about(m, query) {
            Some(m)
        } else {
            None
        }
}

/// The sessions that are about a query, if there is one.
pub open spec fn matching(metas: Seq<SessionMetaView>, query: Option<Seq<char>>) -> Seq<
    SessionMetaView,
> {
    match query {
        Some(q) => metas.filter_map(if_about(text::lowercase_of(q))),
        None => metas,
    }
}

/// How many of some sessions a list shows at most: all, where there is no limit.
pub open spec fn limit_of(limit: Option<usize>, count: nat) -> nat {
    match limit {
        Some(n) => n as nat,
        None => count,
    }
}

/// The sessions that a list shows: those about the query, the newest first, as many as
/// the limit allows.
pub open spec fn listing(
    metas: Seq<SessionMetaView>,
    query: Option<Seq<char>>,
    limit: Option<usize>,
) -> Seq<SessionMetaView> {
    let all = matching(metas, query).reverse();
    let max = limit_of(limit, all.len());
    if all.len() > max {
        all.take(max as int)
    } else {
        all
    }
}

fn is_mentioned(s: &str, query: &str) -> (r: bool)
    ensures
        r == mentions(s@, query@),
{
    text::contains(text::lowercase(s).as_str(), query)
}

fn about(m: &SessionMeta, query: &str) -> (r: bool)
    ensures
        r == is_about(m.deep_view(), query@),
{
    if is_mentioned(m.prompt_preview.as_str(), query) {
        return true;
    }
    let ghost models = m.deep_view().models;
    let mut i: usize = 0;
    while i < m.models.len()
        invariant
            i <= m.models@.len(),
            models == m.deep_view().models,
            forall|k: int| 0 <= k < i ==> !mentions(#[trigger] models[k], query@),
        decreases m.models.len() - i,
    {
        if is_mentioned(m.models[i].as_str(), query) {
            assert(mentions(models[i as int], query@));
            return true;
        }
        i += 1;
    }
    false
}

fn matching_metas(metas: Vec<SessionMeta>, query: Option<&str>) -> (r: Vec<SessionMeta>)
    ensures
        r.deep_view() == matching(
            metas.deep_view(),
            match query {
                Some(q) => Some(q@),
                None => None,
            },
        ),
{
    let q = match query {
        Some(q) => text::lowercase(q),
        None => {
            return metas;
        },
    };
    let ghost all = metas.deep_view();
    let ghost f = if_about(q@);
    let mut r: Vec<SessionMeta> = seqs::none();
    let mut i: usize = 0;
    proof {
        seqs::take_ends(all);
    }
    while i < metas.len()
        invariant
            i <= metas@.len(),
            all == metas.deep_view(),
            all.len() == metas@.len(),
            f == if_about(q@),
            r.deep_view() == all.take(i as int).filter_map(f),
        decreases metas.len() - i,
    {
        proof {
            all.lemma_filter_map_take_succ(f, i as int);
        }
        if about(&metas[i], q.as_str()) {
            seqs::put(&mut r, metas[i].clone());
        }
        assert(r.deep_view() =~= all.take(i + 1).filter_map(f));
        i += 1;
    }
    r
}

/// The sessions that a list shows, given all of them in the order in which they were
/// saved.
pub fn list_sessions(
    metas: Vec<SessionMeta>,
    query: Option<&str>,
    limit: Option<usize>,
) -> (r: Vec<SessionMeta>)
    ensures
        r.deep_view() == listing(
            metas.deep_view(),
            match query {
                Some(q) => Some(q@),
                None => None,
            },
            limit,
        ),
{
    let kept = matching_metas(metas, query);
    let ghost all = kept.deep_view().reverse();
    let max: usize = match limit {
        Some(n) => n,
        None => kept.len(),
    };
    let count = if kept.len() > max {
        max
    } else {
        kept.len()
    };
    let mut r: Vec<SessionMeta> = seqs::none();
    let mut i: usize = 0;
    proof {
        seqs::take_ends(all);
    }
    while i < count
        invariant
            i <= count <= kept@.len(),
            all == kept.deep_view().reverse(),
            all.len() == kept@.len(),
            r.deep_view() == all.take(i as int),
        decreases count - i,
    {
        proof {
            seqs::take_step(all, i as int);
            assert(all[i as int] == kept@[kept@.len() - 1 - i].deep_view());
        }
        seqs::put(&mut r, kept[kept.len() - 1 - i].clone());
        i += 1;
    }
    proof {
        seqs::take_ends(all);
    }
    r
}

/// The identifiers of the sessions to be removed, the oldest first: all but the newest
/// ones that are kept.
pub open spec fn prunable(metas: Seq<SessionMetaView>, max_sessions: usize) -> Seq<Seq<char>> {
    if metas.len() <= max_sessions {
        Seq::empty()
    } else {
        Seq::new((metas.len() - max_sessions) as nat, |i: int| metas[i].id)
    }
}

/// The sessions that are left after the removal: the newest ones, in their order.
pub open spec fn unpruned(metas: Seq<SessionMetaView>, max_sessions: usize) -> Seq<
    SessionMetaView,
> {
    if metas.len() <= max_sessions {
        metas
    } else {
        metas.skip(metas.len() - max_sessions)
    }
}

/// The identifiers of the sessions to be removed, the oldest first, given all sessions
/// in the order in which they were saved.
pub fn sessions_to_prune(metas: &Vec<SessionMeta>, max_sessions: usize) -> (r: Vec<String>)
    ensures
        r.deep_view() == prunable(metas.deep_view(), max_sessions),
{
    let ghost all = metas.deep_view();
    let count = if metas.len() > max_sessions {
        metas.len() - max_sessions
    } else {
        0
    };
    let mut r: Vec<String> = Vec::new();
    let mut i: usize = 0;
    while i < count
        invariant
            i <= count,
            count <= metas@.len(),
            all == metas.deep_view(),
            all.len() == metas@.len(),
            r@.len() == i,
            forall|k: int| 0 <= k < i ==> (#[trigger] r@[k])@ == all[k].id,
        decreases count - i,
    {
        r.push(metas[i].id.clone());
        i += 1;
    }
    assert(r.deep_view() =~= prunable(all, max_sessions));
    r
}

/// The sessions that are left after the removal, given all sessions in the order in
/// which they were saved.
pub fn sessions_to_keep(metas: Vec<SessionMeta>, max_sessions: usize) -> (r: Vec<SessionMeta>)
    ensures
        r.deep_view() == unpruned(metas.deep_view(), max_sessions),
{
    let ghost all = metas.deep_view();
    let mut r = metas;
    let len = r.len();
    if len <= max_sessions {
        return r;
    }
    let tail = r.split_off(len - max_sessions);
    assert(tail.deep_view() =~= all.skip(len - max_sessions));
    tail
}

/// A session under another identifier.
pub open spec fn unless_id(id: Seq<char>) -> spec_fn(SessionMetaView) -> Option<SessionMetaView> {
    |m: SessionMetaView|
        if m.id == id {
            None
        } else {
            Some(m)
        }
}

/// The sessions that are left once one is deleted.
pub open spec fn undeleted(metas: Seq<SessionMetaView>, id: Seq<char>) -> Seq<SessionMetaView> {
    metas.filter_map(unless_id(id))
}

/// The sessions that are left once one is deleted, in their order.
pub fn without_session(metas: Vec<SessionMeta>, id: &str) -> (r: Vec<SessionMeta>)
    ensures
        r.deep_view() == undeleted(metas.deep_view(), id@),
{
    let ghost all = metas.deep_view();
    let ghost f = unless_id(id@);
    let mut r: Vec<SessionMeta> = seqs::none();
    let mut i: usize = 0;
    proof {
        seqs::take_ends(all);
    }
    while i < metas.len()
        invariant
            i <= metas@.len(),
            all == metas.deep_view(),
            all.len() == metas@.len(),
            f == unless_id(id@),
            r.deep_view() == all.take(i as int).filter_map(f),
        decreases metas.len() - i,
    {
        proof {
            all.lemma_filter_map_take_succ(f, i as int);
        }
        if !text::same(metas[i].id.as_str(), id) {
            seqs::put(&mut r, metas[i].clone());
        }
        assert(r.deep_view() =~= all.take(i + 1).filter_map(f));
        i += 1;
    }
    r
}

// ---------------------------------------------------------------------------
// Export
// ---------------------------------------------------------------------------

/// What an export shows of the points of agreement.
pub open spec fn points(consensus: Seq<Seq<char>>) -> Seq<char>
    decreases consensus.len(),
{
    if consensus.len() == 0 {
        Seq::empty()
    } else {
        points(consensus.drop_last()) + "- "@ + consensus.last() + "\n"@
    }
}

/// What an export shows of one answer.
pub open spec fn answer(w: WorkerResultView) -> Seq<char> {
    let heading = "### "@ + w.model + "\n\n"@;
    match w.response {
        Some(r) => heading + r.content + "\n\n"@,
        None => match w.error {
            Some(e) => heading + "*Error: "@ + e + "*\n\n"@,
            None => heading,
        },
    }
}

/// What an export shows of some answers.
pub open spec fn answers(results: Seq<WorkerResultView>) -> Seq<char>
    decreases results.len(),
{
    if results.len() == 0 {
        Seq::empty()
    } else {
        answers(results.drop_last()) + answer(results.last())
    }
}

/// The head of an export.
pub open spec fn export_head(m: SessionMetaView) -> Seq<char> {
    "# Fusion Session: "@ + m.id + "\n\n**Time**: "@ + m.timestamp + "\n**Duration**: "@
        + text::decimal_of(m.duration_ms as nat) + "ms\n**Models**: "@ + text::join_of(
        m.models,
        ", "@,
    ) + " ("@ + text::decimal_of(m.models_succeeded as nat) + "/"@ + text::decimal_of(
        (m.models_succeeded + m.models_failed) as nat,
    ) + ")\n\n"@
}

/// What an export shows of the synthesis.
pub open spec fn export_synthesis(synthesis: Option<Seq<char>>) -> Seq<char> {
    match synthesis {
        Some(s) => "## Synthesis\n\n"@ + s + "\n\n"@,
        None => Seq::empty(),
    }
}

/// What an export shows of the agreement.
pub open spec fn export_consensus(consensus: Seq<Seq<char>>) -> Seq<char> {
    if consensus.len() > 0 {
        "## Consensus\n\n"@ + points(consensus) + "\n"@
    } else {
        Seq::empty()
    }
}

/// A session as Markdown.
pub open spec fn markdown_of(s: SessionView) -> Seq<char> {
    export_head(s.meta) + export_synthesis(s.full.synthesis) + export_consensus(s.full.consensus)
        + "## Individual Responses\n\n"@ + answers(s.full.worker_results)
}

fn text_of_points(consensus: &Vec<String>) -> (r: String)
    ensures
        r@ == points(consensus.deep_view()),
{
    let ghost all = consensus.deep_view();
    let mut md = String::new();
    let mut i: usize = 0;
    proof {
        seqs::take_ends(all);
    }
    while i < consensus.len()
        invariant
            i <= consensus@.len(),
            all == consensus.deep_view(),
            all.len() == consensus@.len(),
            md@ == points(all.take(i as int)),
        decreases consensus.len() - i,
    {
        proof {
            seqs::take_step(all, i as int);
        }
        md.append("- ");
        md.append(consensus[i].as_str());
        md.append("\n");
        i += 1;
    }
    proof {
        seqs::take_ends(all);
    }
    md
}

fn text_of_answer(w: &WorkerResult) -> (r: String)
    ensures
        r@ == answer(w.deep_view()),
{
    let mut md = text::concat("### ", w.model.as_str());
    md.append("\n\n");
    if let Some(resp) = &w.response {
        md.append(resp.content.as_str());
        md.append("\n\n");
    } else if let Some(err) = &w.error {
        md.append("*Error: ");
        md.append(err.as_str());
        md.append("*\n\n");
    }
    md
}

fn text_of_answers(results: &Vec<WorkerResult>) -> (r: String)
    ensures
        r@ == answers(results.deep_view()),
{
    let ghost all = results.deep_view();
    let mut md = String::new();
    let mut i: usize = 0;
    proof {
        seqs::take_ends(all);
    }
    while i < results.len()
        invariant
            i <= results@.len(),
            all == results.deep_view(),
            all.len() == results@.len(),
            md@ == answers(all.take(i as int)),
        decreases results.len() - i,
    {
        proof {
            seqs::take_step(all, i as int);
        }
        md.append(text_of_answer(&results[i]).as_str());
        i += 1;
    }
    proof {
        seqs::take_ends(all);
    }
    md
}

/// A session as Markdown.
pub fn session_to_markdown(session: &FusionSession) -> (r: String)
    requires
        session.meta.models_succeeded + session.meta.models_failed <= usize::MAX,
    ensures
        r@ == markdown_of(session.deep_view()),
{
    let m = &session.meta;
    let mut md = text::concat("# Fusion Session: ", m.id.as_str());
    md.append("\n\n**Time**: ");
    md.append(m.timestamp.as_str());
    md.append("\n**Duration**: ");
    md.append(text::decimal(m.duration_ms).as_str());
    md.append("ms\n**Models**: ");
    md.append(text::join(&m.models, ", ").as_str());
    md.append(" (");
    md.append(text::decimal(m.models_succeeded as u64).as_str());
    md.append("/");
    md.append(text::decimal((m.models_succeeded + m.models_failed) as u64).as_str());
    md.append(")\n\n");
    assert(md@ == export_head(session.deep_view().meta));
    let mut synthesis = String::new();
    if let Some(s) = &session.full.synthesis {
        synthesis.append("## Synthesis\n\n");
        synthesis.append(s.as_str());
        synthesis.append("\n\n");
        assert(Seq::<char>::empty() + "## Synthesis\n\n"@ =~= "## Synthesis\n\n"@);
    }
    assert(synthesis@ == export_synthesis(session.deep_view().full.synthesis));
    md.append(synthesis.as_str());
    let mut consensus = String::new();
    if session.full.consensus.len() > 0 {
        consensus.append("## Consensus\n\n");
        consensus.append(text_of_points(&session.full.consensus).as_str());
        consensus.append("\n");
        assert(Seq::<char>::empty() + "## Consensus\n\n"@ =~= "## Consensus\n\n"@);
    }
    assert(consensus@ == export_consensus(session.deep_view().full.consensus));
    md.append(consensus.as_str());
    md.append("## Individual Responses\n\n");
    md.append(text_of_answers(&session.full.worker_results).as_str());
    md
}

// ---------------------------------------------------------------------------
// What holds of lists
// ---------------------------------------------------------------------------

/// A list is no longer than its limit, and without a limit it leaves nothing out.
pub proof fn listing_is_limited(
    metas: Seq<SessionMetaView>,
    query: Option<Seq<char>>,
    limit: Option<usize>,
)
    ensures
        limit matches Some(n) ==> listing(metas, query, limit).len() <= n,
        limit is None ==> listing(metas, query, limit) == matching(metas, query).reverse(),
{
}

/// Without a query a list shows the newest sessions, the newest first.
pub proof fn listing_is_newest_first(metas: Seq<SessionMetaView>, limit: Option<usize>, i: int)
    requires
        0 <= i < listing(metas, None, limit).len(),
    ensures
        listing(metas, None, limit)[i] == metas[metas.len() - 1 - i],
{
}

/// A session that was just saved is the first that a list shows.
pub proof fn saved_session_is_listed_first(
    metas: Seq<SessionMetaView>,
    saved: SessionMetaView,
    limit: Option<usize>,
)
    requires
        limit != Some(0usize),
    ensures
        listing(metas.push(saved), None, limit).len() > 0,
        listing(metas.push(saved), None, limit)[0] == saved,
{
}

/// Every session that a query finds is about the query.
pub proof fn listing_is_about_query(
    metas: Seq<SessionMetaView>,
    query: Seq<char>,
    limit: Option<usize>,
    i: int,
)
    requires
        0 <= i < listing(metas, Some(query), limit).len(),
    ensures
        is_about(listing(metas, Some(query), limit)[i], text::lowercase_of(query)),
{
    let found = matching(metas, Some(query));
    found_is_about(metas, text::lowercase_of(query), found.len() - 1 - i);
}

proof fn found_is_about(metas: Seq<SessionMetaView>, q: Seq<char>, i: int)
    requires
        0 <= i < metas.filter_map(if_about(q)).len(),
    ensures
        is_about(metas.filter_map(if_about(q))[i], q),
    decreases metas.len(),
{
    if metas.len() > 0 {
        let rest = metas.drop_last().filter_map(if_about(q));
        if i < rest.len() {
            found_is_about(metas.drop_last(), q, i);
        }
    }
}

/// The removal takes the oldest sessions and leaves the newest ones, no more than are
/// kept, and no fewer where there are enough.
pub proof fn pruning_leaves_the_newest(metas: Seq<SessionMetaView>, max_sessions: usize)
    ensures
        unpruned(metas, max_sessions).len() == if metas.len() <= max_sessions {
            metas.len()
        } else {
            max_sessions as nat
        },
        prunable(metas, max_sessions).len() + unpruned(metas, max_sessions).len() == metas.len(),
        forall|i: int|
            0 <= i < metas.len() ==> if i < prunable(metas, max_sessions).len() {
                (#[trigger] metas[i]).id == prunable(metas, max_sessions)[i]
            } else {
                metas[i] == unpruned(metas, max_sessions)[i - prunable(
                    metas,
                    max_sessions,
                ).len()]
            },
{
}

/// The sessions that are left when some were saved one after another, with a removal
/// after each.
pub open spec fn kept_after(saved: Seq<SessionMetaView>, max_sessions: usize) -> Seq<
    SessionMetaView,
>
    decreases saved.len(),
{
    if saved.len() == 0 {
        Seq::empty()
    } else {
        unpruned(kept_after(saved.drop_last(), max_sessions).push(saved.last()), max_sessions)
    }
}

/// However many sessions were saved, the newest ones are left, as many as are kept, and a
/// list shows exactly those, the newest first.
pub proof fn saving_keeps_the_newest(saved: Seq<SessionMetaView>, max_sessions: usize)
    ensures
        kept_after(saved, max_sessions) == unpruned(saved, max_sessions),
        listing(kept_after(saved, max_sessions), None, None) == unpruned(
            saved,
            max_sessions,
        ).reverse(),
    decreases saved.len(),
{
    if saved.len() > 0 {
        saving_keeps_the_newest(saved.drop_last(), max_sessions);
        assert(kept_after(saved, max_sessions) =~= unpruned(saved, max_sessions));
    } else {
        assert(saved =~= Seq::<SessionMetaView>::empty());
    }
}

/// A deleted session leaves every list, and every other session stays.
pub proof fn deleted_session_leaves_the_list(
    metas: Seq<SessionMetaView>,
    id: Seq<char>,
    m: SessionMetaView,
)
    ensures
        listing(undeleted(metas, id), None, None).contains(m) <==> metas.contains(m) && m.id != id,
{
    let left = undeleted(metas, id);
    let shown = listing(left, None, None);
    left_is_not_deleted(metas, id, m);
    if left.contains(m) {
        let i = left.index_of(m);
        assert(shown[left.len() - 1 - i] == m);
    }
    if shown.contains(m) {
        let i = shown.index_of(m);
        assert(left[left.len() - 1 - i] == m);
    }
}

proof fn left_is_not_deleted(metas: Seq<SessionMetaView>, id: Seq<char>, m: SessionMetaView)
    ensures
        undeleted(metas, id).contains(m) <==> metas.contains(m) && m.id != id,
    decreases metas.len(),
{
    let f = unless_id(id);
    if metas.len() > 0 {
        let rest = metas.drop_last();
        let last = metas.last();
        left_is_not_deleted(rest, id, m);
        let kept = undeleted(rest, id);
        let left = undeleted(metas, id);
        if metas.contains(m) && m.id != id {
            let k = seqs::pick_is_there(metas, f, metas.index_of(m));
            assert(left[k] == m);
        }
        if left.contains(m) {
            let i = left.index_of(m);
            if i < kept.len() {
                assert(kept[i] == m);
                let j = rest.index_of(m);
                assert(metas[j] == m);
            } else {
                assert(metas[metas.len() - 1] == m);
            }
        }
    }
}

/// An export is written beside the session, never over it.
pub proof fn exports_stand_beside_the_session(id: Seq<char>)
    ensures
        id + ".md"@ != id + ".json"@,
        id + ".export.json"@ != id + ".json"@,
        id + ".export.json"@ != id + ".md"@,
{
    reveal_strlit(".md");
    reveal_strlit(".json");
    reveal_strlit(".export.json");
    assert((id + ".md"@).len() == id.len() + 3);
    assert((id + ".json"@).len() == id.len() + 5);
    assert((id + ".export.json"@).len() == id.len() + 12);
}

} // verus!
