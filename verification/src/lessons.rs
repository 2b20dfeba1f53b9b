//! Recalling the lessons of a class.

use vstd::prelude::*;
use vstd::string::*;

use crate::dto::{LessonHit, LessonsRecallResponse};
use crate::error::{GradatumError, Refusal};
use crate::flow::{self, AclOp, Answers, Ask, Denial, Gate, Next, Question, Stop};
use crate::order;
use crate::rows::{self, LessonRow};
use crate::text;
use crate::trust::TrustContext;

verus! {

/// The section of lessons.
pub const LESSONS_SECTION: &'static str = "lessons-learned";

/// The vault of lessons, which all tenants share.
pub const LESSONS_TENANT: &'static str = "main";

/// How lessons are ranked.
#[derive(Debug, Clone, Copy, PartialEq, Eq, Structural)]
pub enum RankMode {
    /// As the search ranks them.
    Relevance,
    /// Recent ones are raised.
    RecencyBoosted,
}

/// A recall of lessons.
#[derive(Debug)]
pub struct LessonsRecallRequest {
    pub class: String,
    /// How many lessons; five when absent, twenty at most.
    pub limit: Option<u32>,
    pub rank: Option<RankMode>,
    /// Whether to search by meaning as well as by words.
    pub semantic: Option<bool>,
    /// What to search for; the class when absent or blank.
    pub query: Option<String>,
    pub compact: bool,
}

/// How the service is set up.
#[derive(Debug)]
pub struct LessonsSettings {
    /// Whether vaults of several tenants are served.
    pub multi_tenant: bool,
    /// The classes that a lesson can have.
    pub classes: Vec<String>,
}

/// How many lessons are wanted.
pub open spec fn recall_limit(limit: Option<u32>) -> nat {
    let n: nat = match limit {
        Some(n) => n as nat,
        None => 5,
    };
    if n < 1 {
        1
    } else if n > 20 {
        20
    } else {
        n
    }
}

fn clamp_limit(limit: Option<u32>) -> (r: usize)
    ensures
        r == recall_limit(limit),
        1 <= r <= 20,
{
    let n: u32 = match limit {
        Some(n) => n,
        None => 5,
    };
    if n < 1 {
        1
    } else if n > 20 {
        20
    } else {
        n as usize
    }
}

/// Whether the class is one that a lesson can have.
pub open spec fn known_class(st: LessonsSettings, class: Seq<char>) -> bool {
    text::views(st.classes@).contains(class)
}

/// Who may recall lessons, and of which classes.
pub open spec fn recall_right_gate(
    trust: TrustContext,
    req: LessonsRecallRequest,
    st: LessonsSettings,
    a: Answers,
) -> Gate {
    let class = text::trimmed(req.class@);
    if !trust.authenticated() {
        Gate::Fail(flow::silent(Refusal::Unauthorized))
    } else if a.acl is None {
        Gate::Ask(Question::Acl { op: AclOp::Read, locus: "main/lessons-learned"@ })
    } else if a.acl == Some(false) {
        Gate::Fail(flow::silent(Refusal::Forbidden("acl deny lessons"@)))
    } else if !known_class(st, class) {
        Gate::Fail(
            flow::silent(
                Refusal::InvalidInput("class outside controlled vocabulary: "@ + class),
            ),
        )
    } else if !st.multi_tenant {
        Gate::Pass
    } else if trust.tenant_view() is None {
        Gate::Fail(flow::silent(Refusal::Forbidden("acl deny lessons"@)))
    } else {
        match a.read_grant {
            None => Gate::Ask(
                Question::ReadGrant {
                    principal: trust.tenant_view()->0,
                    vault: "main"@,
                    section: "lessons-learned"@,
                },
            ),
            Some(Err(e)) => Gate::Fail(flow::silent(e@)),
            Some(Ok(_)) => Gate::Pass,
        }
    }
}

fn enter_recall(
    trust: &TrustContext,
    req: &LessonsRecallRequest,
    st: &LessonsSettings,
    a: &Answers,
) -> (r: Result<String, Stop>)
    ensures
        match r {
            Ok(class) => recall_right_gate(*trust, *req, *st, *a) is Pass && class@
                == text::trimmed(req.class@),
            Err(s) => recall_right_gate(*trust, *req, *st, *a) == s@,
        },
{
    if !trust.is_authenticated() {
        return Err(Stop::Fail(Denial::plain(GradatumError::Unauthorized)));
    }
    match a.acl {
        None => return Err(
            Stop::Ask(Ask::Acl { op: AclOp::Read, locus: "main/lessons-learned".to_owned() }),
        ),
        Some(false) => return Err(Stop::Fail(Denial::forbidden("acl deny lessons"))),
        Some(true) => {},
    }
    let class = text::trim(req.class.as_str());
    if !text::listed(&st.classes, class.as_str()) {
        return Err(
            Stop::Fail(
                Denial::plain(
                    GradatumError::InvalidInput(
                        text::cat("class outside controlled vocabulary: ", class.as_str()),
                    ),
                ),
            ),
        );
    }
    if !st.multi_tenant {
        return Ok(class);
    }
    let principal = match trust.tenant_id() {
        Some(t) => t.clone(),
        None => return Err(Stop::Fail(Denial::forbidden("acl deny lessons"))),
    };
    match &a.read_grant {
        None => Err(
            Stop::Ask(
                Ask::ReadGrant {
                    principal,
                    vault: "main".to_owned(),
                    section: "lessons-learned".to_owned(),
                },
            ),
        ),
        Some(Err(e)) => Err(Stop::failed(e)),
        Some(Ok(_)) => Ok(class),
    }
}

// ── The lessons ─────────────────────────────────────────────────────────────

/// Whether a lesson counts among those of a class: it bears the class and is not codified.
pub open spec fn of_class(row: LessonRow, class: Seq<char>) -> bool {
    !text::views(row.tags@).contains("codified"@) && text::views(row.tags@).contains(class)
}

/// The first `n` lessons of a class.
pub open spec fn first_of_class(rows: Seq<LessonRow>, class: Seq<char>, n: nat) -> Seq<LessonRow> {
    let kept = rows.filter(|row: LessonRow| of_class(row, class));
    if kept.len() > n {
        kept.take(n as int)
    } else {
        kept
    }
}

/// Whether `hit` shows the lesson `row`.
pub open spec fn shows(row: LessonRow, hit: LessonHit) -> bool {
    &&& hit.ulid@ == row.note_id@
    &&& hit.title@ == match row.title {
        Some(t) => t@,
        None => ""@,
    }
    &&& hit.snippet@ == row.snippet@
    &&& hit.tags@ == row.tags@
    &&& hit.anchor_ms == row.anchor_ms
}

/// Whether the hits show the lessons, one by one.
pub open spec fn shows_all(rows: Seq<LessonRow>, hits: Seq<LessonHit>) -> bool {
    &&& hits.len() == rows.len()
    &&& forall|i: int| 0 <= i < rows.len() ==> shows(rows[i], #[trigger] hits[i])
}

fn show(row: &LessonRow) -> (r: LessonHit)
    ensures
        shows(*row, r),
{
    LessonHit {
        ulid: row.note_id.text(),
        title: match &row.title {
            Some(t) => t.clone(),
            None => "".to_owned(),
        },
        snippet: row.snippet.clone(),
        tags: rows::copy_list(&row.tags),
        anchor_ms: row.anchor_ms,
    }
}

fn show_all(rows: &Vec<LessonRow>) -> (r: Vec<LessonHit>)
    ensures
        shows_all(rows@, r@),
{
    let mut out: Vec<LessonHit> = Vec::new();
    let mut i: usize = 0;
    while i < rows.len()
        invariant
            i <= rows@.len(),
            out@.len() == i,
            forall|k: int| 0 <= k < i ==> shows(rows@[k], #[trigger] out@[k]),
        decreases rows@.len() - i,
    {
        out.push(show(&rows[i]));
        i = i + 1;
    }
    out
}

fn show_first_of_class(rows: &Vec<LessonRow>, class: &str, n: usize) -> (r: Vec<LessonHit>)
    ensures
        shows_all(first_of_class(rows@, class@, n as nat), r@),
{
    let ghost keep = |row: LessonRow| of_class(row, class@);
    let mut out: Vec<LessonHit> = Vec::new();
    let mut i: usize = 0;
    proof {
        reveal(Seq::filter);
        assert(rows@.take(0).filter(keep) =~= Seq::empty());
    }
    while i < rows.len()
        invariant
            i <= rows@.len(),
            keep == (|row: LessonRow| of_class(row, class@)),
            shows_all(rows@.take(i as int).filter(keep), out@),
        decreases rows@.len() - i,
    {
        proof {
            reveal(Seq::filter);
            assert(rows@.take(i + 1).drop_last() =~= rows@.take(i as int));
            assert(rows@.take(i + 1).last() == rows@[i as int]);
        }
        let row = &rows[i];
        if !text::listed(&row.tags, "codified") && text::listed(&row.tags, class) {
            out.push(show(row));
        }
        i = i + 1;
    }
    assert(rows@.take(rows@.len() as int) =~= rows@);
    out.truncate(n);
    out
}

/// What the meaning is searched for: the query, unless it is blank.
pub open spec fn recall_query(req: LessonsRecallRequest, class: Seq<char>) -> Seq<char> {
    match rows::nonblank(rows::opt_text(req.query)) {
        Some(q) => q,
        None => class,
    }
}

/// Whether the lessons come from the search by meaning: it was wanted, and it worked.
pub open spec fn by_meaning(req: LessonsRecallRequest, a: Answers) -> bool {
    req.semantic == Some(true) && match a.retrieved {
        Some(Ok(found)) => !found.embed_fallback,
        _ => false,
    }
}

/// What is still to be asked to have the lessons. A search by meaning that fails gives way to
/// the search by words.
pub open spec fn lessons_gate(req: LessonsRecallRequest, class: Seq<char>, a: Answers) -> Gate {
    if req.semantic == Some(true) && a.retrieved is None {
        Gate::Ask(
            Question::Retrieve {
                vault: "main"@,
                query: recall_query(req, class),
                section: "lessons-learned"@,
                limit: 2 * recall_limit(req.limit),
            },
        )
    } else if by_meaning(req, a) {
        match a.hydrated {
            None => Gate::Ask(
                Question::Hydrate {
                    vault: "main"@,
                    ids: text::views(a.retrieved->0->Ok_0.ids@),
                },
            ),
            Some(Err(e)) => Gate::Fail(flow::silent(e@)),
            Some(Ok(_)) => Gate::Pass,
        }
    } else {
        match a.recalled {
            None => Gate::Ask(
                Question::Recall { vault: "main"@, class, limit: recall_limit(req.limit) },
            ),
            Some(Err(e)) => Gate::Fail(flow::silent(e@)),
            Some(Ok(_)) => Gate::Pass,
        }
    }
}

/// The lessons, in the order of relevance.
pub open spec fn found_lessons(
    req: LessonsRecallRequest,
    class: Seq<char>,
    a: Answers,
) -> Seq<LessonRow> {
    if by_meaning(req, a) {
        first_of_class(a.hydrated->0->Ok_0@, class, recall_limit(req.limit))
    } else {
        a.recalled->0->Ok_0@
    }
}

fn find_lessons(req: &LessonsRecallRequest, class: &str, a: &Answers) -> (r: Result<
    Vec<LessonHit>,
    Stop,
>)
    ensures
        match r {
            Ok(hits) => lessons_gate(*req, class@, *a) is Pass && shows_all(
                found_lessons(*req, class@, *a),
                hits@,
            ),
            Err(s) => lessons_gate(*req, class@, *a) == s@,
        },
{
    let limit = clamp_limit(req.limit);
    let semantic = match req.semantic {
        Some(b) => b,
        None => false,
    };
    if semantic {
        match &a.retrieved {
            None => {
                let query = match rows::keep_nonblank(&req.query) {
                    Some(q) => q,
                    None => class.to_owned(),
                };
                return Err(
                    Stop::Ask(
                        Ask::Retrieve {
                            vault: "main".to_owned(),
                            query,
                            section: "lessons-learned".to_owned(),
                            limit: limit * 2,
                        },
                    ),
                );
            },
            Some(Ok(found)) => if !found.embed_fallback {
                return match &a.hydrated {
                    None => Err(
                        Stop::Ask(
                            Ask::Hydrate {
                                vault: "main".to_owned(),
                                ids: rows::copy_list(&found.ids),
                            },
                        ),
                    ),
                    Some(Err(e)) => Err(Stop::failed(e)),
                    Some(Ok(rows)) => Ok(show_first_of_class(rows, class, limit)),
                };
            },
            Some(Err(_)) => {},
        }
    }
    match &a.recalled {
        None => Err(
            Stop::Ask(Ask::Recall { vault: "main".to_owned(), class: class.to_owned(), limit }),
        ),
        Some(Err(e)) => Err(Stop::failed(e)),
        Some(Ok(rows)) => Ok(show_all(rows)),
    }
}

/// The moments of the lessons.
pub open spec fn anchors(rows: Seq<LessonRow>) -> Seq<i64> {
    rows.map_values(|row: LessonRow| row.anchor_ms)
}

/// The lessons in the order in which they are shown: by the ranks when recency counts, lower
/// ranks first and equal ranks in the order of relevance; else by relevance.
pub open spec fn ordered(rows: Seq<LessonRow>, boosted: bool, ranks: Seq<i64>) -> Seq<LessonRow> {
    if boosted && ranks.len() == rows.len() {
        order::arranged(rows, order::rank_positions(ranks))
    } else {
        rows
    }
}

/// The first reason not to recall lessons, or the next question about them.
pub open spec fn recall_gate(
    trust: TrustContext,
    req: LessonsRecallRequest,
    st: LessonsSettings,
    a: Answers,
) -> Gate {
    let class = text::trimmed(req.class@);
    flow::chain(
        recall_right_gate(trust, req, st, a),
        flow::chain(
            lessons_gate(req, class, a),
            if req.rank == Some(RankMode::RecencyBoosted) && a.recency is None {
                Gate::Ask(
                    Question::RecencyRanks { anchors: anchors(found_lessons(req, class, a)) },
                )
            } else {
                Gate::Pass
            },
        ),
    )
}

/// The lessons that a recall shows, in this order.
pub open spec fn recalled_lessons(req: LessonsRecallRequest, a: Answers) -> Seq<LessonRow> {
    ordered(
        found_lessons(req, text::trimmed(req.class@), a),
        req.rank == Some(RankMode::RecencyBoosted),
        a.recency->0@,
    )
}

/// Recalls the lessons of a class.
pub fn lessons_recall_impl(
    trust: &TrustContext,
    req: &LessonsRecallRequest,
    st: &LessonsSettings,
    a: &Answers,
) -> (r: Next<LessonsRecallResponse>)
    ensures
        flow::follows(r, recall_gate(*trust, *req, *st, *a)),
        r matches Next::Reply(x) ==> shows_all(recalled_lessons(*req, *a), x.items@),
{
    let class = match enter_recall(trust, req, st, a) {
        Ok(class) => class,
        Err(s) => return s.next(),
    };
    let hits = match find_lessons(req, class.as_str(), a) {
        Ok(hits) => hits,
        Err(s) => return s.next(),
    };
    let ghost found = found_lessons(*req, class@, *a);
    let boosted = match req.rank {
        Some(RankMode::RecencyBoosted) => true,
        _ => false,
    };
    if !boosted {
        return Next::Reply(LessonsRecallResponse { items: hits });
    }
    match &a.recency {
        None => {
            let mut moments: Vec<i64> = Vec::new();
            let mut i: usize = 0;
            while i < hits.len()
                invariant
                    i <= hits@.len(),
                    moments@.len() == i,
                    forall|k: int| 0 <= k < i ==> #[trigger] moments@[k] == hits@[k].anchor_ms,
                decreases hits@.len() - i,
            {
                moments.push(hits[i].anchor_ms);
                i = i + 1;
            }
            assert(moments@ =~= anchors(found)) by {
                assert forall|k: int| 0 <= k < found.len() implies #[trigger] moments@[k]
                    == found[k].anchor_ms by {
                    assert(shows(found[k], hits@[k]));
                }
            }
            Next::Ask(Ask::RecencyRanks { anchors: moments })
        },
        Some(ranks) => {
            if ranks.len() != hits.len() {
                return Next::Reply(LessonsRecallResponse { items: hits });
            }
            let p = order::rank_order(ranks);
            let items = order::arrange(hits, &p);
            proof {
                assert forall|i: int| 0 <= i < items@.len() implies shows(
                    order::arranged(found, p@)[i],
                    #[trigger] items@[i],
                ) by {
                    assert(0 <= p@[i] < found.len());
                }
            }
            Next::Reply(LessonsRecallResponse { items })
        },
    }
}

// ── Laws ────────────────────────────────────────────────────────────────────

/// Only a class of the vocabulary reaches the search.
pub proof fn recall_searches_known_classes_only(
    trust: TrustContext,
    req: LessonsRecallRequest,
    st: LessonsSettings,
    a: Answers,
)
    requires
        recall_gate(trust, req, st, a) is Ask,
        ({
            let q = recall_gate(trust, req, st, a)->Ask_0;
            q is Recall || q is Retrieve || q is Hydrate
        }),
    ensures
        trust.authenticated(),
        a.acl == Some(true),
        known_class(st, text::trimmed(req.class@)),
        recall_gate(trust, req, st, a)->Ask_0 is Recall ==> known_class(
            st,
            recall_gate(trust, req, st, a)->Ask_0->Recall_class,
        ),
{
}

/// With vaults of several tenants, the shared lessons are searched only under a grant.
pub proof fn recall_across_tenants_needs_a_grant(
    trust: TrustContext,
    req: LessonsRecallRequest,
    st: LessonsSettings,
    a: Answers,
)
    requires
        st.multi_tenant,
        recall_gate(trust, req, st, a) is Pass,
    ensures
        trust.tenant_view() is Some,
        a.read_grant->0 is Ok,
{
}

/// A search by meaning shows at most as many lessons as are wanted, all of the class and none
/// codified.
pub proof fn recall_by_meaning_is_bounded_and_of_the_class(
    req: LessonsRecallRequest,
    a: Answers,
    i: int,
)
    requires
        by_meaning(req, a),
        0 <= i < recalled_lessons(req, a).len(),
    ensures
        recalled_lessons(req, a).len() <= recall_limit(req.limit) <= 20,
        of_class(recalled_lessons(req, a)[i], text::trimmed(req.class@)),
{
    let class = text::trimmed(req.class@);
    let keep = |row: LessonRow| of_class(row, class);
    let base = a.hydrated->0->Ok_0@;
    broadcast use vstd::seq_lib::group_filter_ensures;

    let found = found_lessons(req, class, a);
    assert forall|k: int| 0 <= k < found.len() implies of_class(#[trigger] found[k], class) by {
        assert(keep(base.filter(keep)[k]));
    }
    let ranks = a.recency->0@;
    if req.rank == Some(RankMode::RecencyBoosted) && ranks.len() == found.len() {
        assert(ranks.len() <= 20);
        order::rank_positions_exist(ranks);
    }
}

/// What a recall asks for is the class of the request among the shared lessons, within the bound of
/// the request: five when it says none, twenty at most. By meaning it looks for the words of the
/// request, or for the class when there are none, and twice as far.
pub proof fn a_recall_asks_for_the_class_of_the_request(
    trust: TrustContext,
    req: LessonsRecallRequest,
    st: LessonsSettings,
    a: Answers,
)
    ensures
        recall_gate(trust, req, st, a) matches Gate::Ask(q) ==> match q {
            Question::Acl { op, locus } => op == AclOp::Read && locus == "main/lessons-learned"@,
            Question::ReadGrant { principal, vault, section } => {
                &&& st.multi_tenant
                &&& trust.tenant_view() == Some(principal)
                &&& vault == "main"@
                &&& section == "lessons-learned"@
            },
            Question::Retrieve { vault, query, section, limit } => {
                &&& vault == "main"@
                &&& section == "lessons-learned"@
                &&& req.semantic == Some(true)
                &&& req.query matches Some(w) ==> (text::trimmed(w@).len() > 0 ==> query == w@)
                &&& req.query is None ==> query == text::trimmed(req.class@)
                &&& req.query matches Some(w) ==> (text::trimmed(w@).len() == 0 ==> query
                    == text::trimmed(req.class@))
                &&& 2 <= limit <= 40
                &&& req.limit is None ==> limit == 10
                &&& req.limit matches Some(n) ==> (1 <= n <= 20 ==> limit == 2 * n)
            },
            Question::Hydrate { vault, ids } => {
                &&& vault == "main"@
                &&& req.semantic == Some(true)
                &&& a.retrieved matches Some(Ok(found)) && !found.embed_fallback && ids.len()
                    == found.ids@.len() && forall|i: int|
                    0 <= i < ids.len() ==> (#[trigger] ids[i]) == found.ids@[i]@
            },
            Question::Recall { vault, class, limit } => {
                &&& vault == "main"@
                &&& class == text::trimmed(req.class@)
                &&& 1 <= limit <= 20
                &&& req.limit is None ==> limit == 5
                &&& req.limit matches Some(n) ==> (1 <= n <= 20 ==> limit == n)
                &&& req.semantic == Some(true) ==> (a.retrieved matches Some(r) && (
                r matches Ok(found) ==> found.embed_fallback))
            },
            Question::RecencyRanks { anchors } => {
                let found = found_lessons(req, text::trimmed(req.class@), a);
                &&& req.rank == Some(RankMode::RecencyBoosted)
                &&& anchors.len() == found.len()
                &&& forall|i: int|
                    0 <= i < anchors.len() ==> (#[trigger] anchors[i]) == found[i].anchor_ms
            },
            _ => false,
        },
{
}

/// A recall is refused for cause only, and for the cause that it has; a search by meaning that
/// fails falls back to one by class and never refuses.
pub proof fn a_recall_is_refused_for_cause(
    trust: TrustContext,
    req: LessonsRecallRequest,
    st: LessonsSettings,
    a: Answers,
)
    ensures
        ({
            let g = recall_gate(trust, req, st, a);
            let known = text::views(st.classes@).contains(text::trimmed(req.class@));
            let entered = trust.authenticated() && a.acl == Some(true) && known && (st.multi_tenant
                ==> trust.tenant_view() is Some && (a.read_grant matches Some(Ok(_))));
            let meant = req.semantic == Some(true) && (a.retrieved matches Some(Ok(found))
                && !found.embed_fallback);
            let rows = if meant {
                a.hydrated
            } else {
                a.recalled
            };
            &&& !trust.authenticated() ==> flow::fails(g, Refusal::Unauthorized)
            &&& trust.authenticated() && a.acl is None ==> g is Ask && g->Ask_0 is Acl
            &&& trust.authenticated() && a.acl == Some(false) ==> flow::forbids(g)
            &&& trust.authenticated() && a.acl == Some(true) && !known ==> flow::finds_fault(g)
            &&& trust.authenticated() && a.acl == Some(true) && known && st.multi_tenant
                && trust.tenant_view() is None ==> flow::forbids(g)
            &&& trust.authenticated() && a.acl == Some(true) && known && st.multi_tenant
                && trust.tenant_view() is Some && (a.read_grant matches Some(Err(_)))
                ==> flow::fails(g, a.read_grant->0->Err_0@)
            &&& entered && req.semantic == Some(true) && a.retrieved is None ==> g is Ask
                && g->Ask_0 is Retrieve
            &&& entered && (req.semantic == Some(true) ==> a.retrieved is Some) ==> match rows {
                None => g is Ask && (if meant {
                    g->Ask_0 is Hydrate
                } else {
                    g->Ask_0 is Recall
                }),
                Some(Err(e)) => flow::fails(g, e@),
                Some(Ok(_)) => if req.rank == Some(RankMode::RecencyBoosted) && a.recency is None {
                    g is Ask && g->Ask_0 is RecencyRanks
                } else {
                    g is Pass
                },
            }
        }),
{
}

/// Lessons come as they were found: those of a class as they are, those found by meaning without
/// the codified ones and those of other classes.
pub proof fn lessons_are_those_of_the_class(
    req: LessonsRecallRequest,
    a: Answers,
    class: Seq<char>,
    i: int,
    k: int,
)
    requires
        a.recalled is Some ==> a.recalled->0->Ok_0@.len() <= usize::MAX,
    ensures
        ({
            let found = found_lessons(req, class, a);
            let meant = req.semantic == Some(true) && (a.retrieved matches Some(Ok(r))
                && !r.embed_fallback);
            let rows = a.hydrated->0->Ok_0@;
            &&& !meant ==> found == a.recalled->0->Ok_0@
            &&& meant && 0 <= i < found.len() ==> rows.contains(found[i]) && text::views(
                found[i].tags@,
            ).contains(class) && !text::views(found[i].tags@).contains("codified"@)
            &&& meant && 0 <= k < rows.len() && text::views(rows[k].tags@).contains(class)
                && !text::views(rows[k].tags@).contains("codified"@) ==> found.contains(rows[k])
                || found.len() == recall_limit(req.limit)
        }),
{
    let rows = a.hydrated->0->Ok_0@;
    let keep = |row: LessonRow| of_class(row, class);
    let kept = rows.filter(keep);
    let found = found_lessons(req, class, a);
    if by_meaning(req, a) {
        if 0 <= i < found.len() {
            assert(found[i] == kept[i]);
            rows.lemma_filter_pred(keep, i);
            rows.lemma_filter_contains_rev(keep, kept[i]);
        }
        if 0 <= k < rows.len() && of_class(rows[k], class) {
            assert(keep(rows[k]));
            rows.lemma_filter_contains(keep, k);
        }
    }
}

/// Lessons found by meaning stay in the order in which they were found.
pub proof fn lessons_found_by_meaning_keep_their_order(
    req: LessonsRecallRequest,
    a: Answers,
    class: Seq<char>,
    i: int,
    j: int,
)
    requires
        by_meaning(req, a),
        0 <= i < j < found_lessons(req, class, a).len(),
    ensures
        exists|x: int, y: int|
            0 <= x < y < a.hydrated->0->Ok_0@.len() && found_lessons(req, class, a)[i]
                == #[trigger] a.hydrated->0->Ok_0@[x] && found_lessons(req, class, a)[j]
                == #[trigger] a.hydrated->0->Ok_0@[y],
{
    let rows = a.hydrated->0->Ok_0@;
    let keep = |row: LessonRow| of_class(row, class);
    assert(found_lessons(req, class, a)[i] == rows.filter(keep)[i]);
    assert(found_lessons(req, class, a)[j] == rows.filter(keep)[j]);
    order::filtering_keeps_the_order(rows, keep, i, j);
}

/// When recency counts, lessons come by their ranks, and those of one rank as they were found; else
/// they come as they were found.
pub proof fn lessons_come_by_their_ranks(req: LessonsRecallRequest, a: Answers, i: int, j: int)
    requires
        0 <= i < j < recalled_lessons(req, a).len(),
        found_lessons(req, text::trimmed(req.class@), a).len() <= usize::MAX,
    ensures
        ({
            let found = found_lessons(req, text::trimmed(req.class@), a);
            let out = recalled_lessons(req, a);
            let ranks = a.recency->0@;
            &&& out.len() == found.len()
            &&& req.rank == Some(RankMode::RecencyBoosted) && ranks.len() == found.len()
                ==> exists|x: int, y: int|
                0 <= x < found.len() && 0 <= y < found.len() && x != y && out[i]
                    == #[trigger] found[x] && out[j] == #[trigger] found[y] && (ranks[x] < ranks[y]
                    || (ranks[x] == ranks[y] && x < y))
            &&& req.rank != Some(RankMode::RecencyBoosted) ==> out[i] == found[i] && out[j]
                == found[j]
        }),
{
    let found = found_lessons(req, text::trimmed(req.class@), a);
    let ranks = a.recency->0@;
    if req.rank == Some(RankMode::RecencyBoosted) && ranks.len() == found.len() {
        order::rank_positions_exist(ranks);
        order::ranks_come_in_order(ranks, i, j);
        let p = order::rank_positions(ranks);
        let x = p[i] as int;
        let y = p[j] as int;
        assert(recalled_lessons(req, a)[i] == found[x]);
        assert(recalled_lessons(req, a)[j] == found[y]);
    }
}

/// A lesson that is shown is the lesson that was found.
pub proof fn a_lesson_is_shown_as_it_was_found(rows: Seq<LessonRow>, hits: Seq<LessonHit>, i: int)
    requires
        shows_all(rows, hits),
    ensures
        hits.len() == rows.len(),
        0 <= i < rows.len() ==> {
            &&& hits[i].ulid@ == rows[i].note_id@
            &&& rows[i].title matches Some(t) ==> hits[i].title@ == t@
            &&& rows[i].title is None ==> hits[i].title@.len() == 0
            &&& hits[i].snippet@ == rows[i].snippet@
            &&& hits[i].tags@ == rows[i].tags@
            &&& hits[i].anchor_ms == rows[i].anchor_ms
        },
{
    reveal_strlit("");
    if 0 <= i < rows.len() {
        assert(shows(rows[i], hits[i]));
    }
}

}
