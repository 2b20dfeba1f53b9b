//! The notes that wait for a judgment.

use vstd::prelude::*;
use vstd::string::*;

use crate::door::{self, HttpGate, HttpNext};
use crate::error::StatusCode;
use crate::flow::{AclOp, Answers, Ask, Question};
use crate::ids;
use crate::rows::{self, ReviewRow};
use crate::trust::TrustContext;

verus! {

/// What is asked of the queue.
#[derive(Debug)]
pub struct ReviewQueueQuery {
    /// The most rows on a page: 50 unless it is given, and between 1 and 200.
    pub limit: Option<usize>,
    /// The last note of the page before.
    pub cursor: Option<String>,
}

/// A note that waits for a judgment.
#[derive(Debug)]
pub struct ReviewItem {
    pub ulid: String,
    pub title: Option<String>,
    pub section: String,
    /// Where the note is filed.
    pub locus: Option<String>,
    pub status: String,
    /// Where the note comes from.
    pub provenance: Option<String>,
    /// When the note was created, in milliseconds.
    pub created_ms: i64,
}

/// A page of the queue.
#[derive(Debug)]
pub struct ReviewQueueResponse {
    pub items: Vec<ReviewItem>,
    /// The last note of this page, if there are more pages.
    pub next_cursor: Option<String>,
    /// How many notes wait on all pages.
    pub total: u64,
}

/// The most rows on a page.
pub open spec fn review_limit(limit: Option<usize>) -> nat {
    let wanted = match limit {
        Some(n) => n,
        None => 50,
    };
    if wanted < 1 {
        1
    } else if wanted > 200 {
        200
    } else {
        wanted as nat
    }
}

fn page_rows(limit: Option<usize>) -> (r: usize)
    ensures
        r == review_limit(limit),
        1 <= r <= 200,
{
    let wanted: usize = match limit {
        Some(n) => n,
        None => 50,
    };
    if wanted < 1 {
        1
    } else if wanted > 200 {
        200
    } else {
        wanted
    }
}

/// What the caller is told of the queue.
pub open spec fn review_gate(trust: TrustContext, q: ReviewQueueQuery, a: Answers) -> HttpGate {
    if !trust.authenticated() {
        HttpGate::Refuse(StatusCode::Unauthorized)
    } else if a.acl is None {
        HttpGate::Ask(Question::Acl { op: AclOp::Read, locus: "main/review"@ })
    } else if a.acl == Some(false) {
        HttpGate::Refuse(StatusCode::Forbidden)
    } else if q.cursor is Some && !ids::is_ulid(q.cursor->0@) {
        HttpGate::Refuse(StatusCode::BadRequest)
    } else {
        match a.review {
            None => HttpGate::Ask(
                Question::ReviewQueue {
                    vault: "main"@,
                    cursor: rows::opt_text(q.cursor),
                    limit: review_limit(q.limit) + 1,
                },
            ),
            Some(Err(_)) => HttpGate::Refuse(StatusCode::InternalServerError),
            Some(Ok(_)) => match a.review_count {
                None => HttpGate::Ask(Question::ReviewCount { vault: "main"@ }),
                Some(Err(_)) => HttpGate::Refuse(StatusCode::InternalServerError),
                Some(Ok(_)) => HttpGate::Pass,
            },
        }
    }
}

/// Whether `x` shows the row `r`.
pub open spec fn shows(x: ReviewItem, r: ReviewRow) -> bool {
    &&& x.ulid@ == r.note_id@
    &&& rows::opt_text(x.title) == rows::opt_text(r.title)
    &&& x.section@ == r.section@
    &&& rows::opt_text(x.locus) == rows::opt_text(r.locus)
    &&& x.status@ == r.status@
    &&& rows::opt_text(x.provenance) == rows::opt_text(r.provenance)
    &&& x.created_ms == r.created_ms
}

/// Whether `x` is the page of at most `limit` of these rows. Rows beyond the limit are not shown
/// but tell that there is another page, after the last row that is shown.
pub open spec fn review_page(
    found: Seq<ReviewRow>,
    limit: nat,
    total: u64,
    x: ReviewQueueResponse,
) -> bool {
    let n = if found.len() > limit {
        limit
    } else {
        found.len()
    };
    &&& x.items@.len() == n
    &&& forall|i: int| 0 <= i < n ==> shows(#[trigger] x.items@[i], found[i])
    &&& rows::opt_text(x.next_cursor) == (if found.len() > limit {
        Some(found[limit - 1].note_id@)
    } else {
        None
    })
    &&& x.total == total
}

fn review_item(r: &ReviewRow) -> (x: ReviewItem)
    ensures
        shows(x, *r),
{
    ReviewItem {
        ulid: r.note_id.text(),
        title: rows::copy_opt(&r.title),
        section: r.section.clone(),
        locus: rows::copy_opt(&r.locus),
        status: r.status.clone(),
        provenance: rows::copy_opt(&r.provenance),
        created_ms: r.created_ms,
    }
}

/// Lists the notes that wait for a judgment, a page at a time.
pub fn list_review(trust: &TrustContext, q: &ReviewQueueQuery, a: &Answers) -> (r: HttpNext<
    ReviewQueueResponse,
>)
    ensures
        door::follows(r, review_gate(*trust, *q, *a)),
        r matches HttpNext::Reply(x) ==> review_page(
            a.review->0->Ok_0@,
            review_limit(q.limit),
            a.review_count->0->Ok_0,
            x,
        ),
{
    if !trust.is_authenticated() {
        return HttpNext::Refuse(StatusCode::Unauthorized);
    }
    match a.acl {
        None => return HttpNext::Ask(
            Ask::Acl { op: AclOp::Read, locus: "main/review".to_owned() },
        ),
        Some(false) => return HttpNext::Refuse(StatusCode::Forbidden),
        Some(true) => {},
    }
    let limit = page_rows(q.limit);
    if let Some(c) = &q.cursor {
        if !ids::ulid_valid(c.as_str()) {
            return HttpNext::Refuse(StatusCode::BadRequest);
        }
    }
    let found = match &a.review {
        None => return HttpNext::Ask(
            Ask::ReviewQueue {
                vault: "main".to_owned(),
                cursor: rows::copy_opt(&q.cursor),
                limit: limit + 1,
            },
        ),
        Some(Err(_)) => return HttpNext::Refuse(StatusCode::InternalServerError),
        Some(Ok(found)) => found,
    };
    let total = match &a.review_count {
        None => return HttpNext::Ask(Ask::ReviewCount { vault: "main".to_owned() }),
        Some(Err(_)) => return HttpNext::Refuse(StatusCode::InternalServerError),
        Some(Ok(n)) => *n,
    };
    let has_more = found.len() > limit;
    let n: usize = if has_more {
        limit
    } else {
        found.len()
    };
    let mut items: Vec<ReviewItem> = Vec::new();
    let mut i: usize = 0;
    while i < n
        invariant
            i <= n <= found@.len(),
            items@.len() == i,
            forall|k: int| 0 <= k < i ==> shows(#[trigger] items@[k], found@[k]),
        decreases n - i,
    {
        items.push(review_item(&found[i]));
        i = i + 1;
    }
    let next_cursor = if has_more {
        Some(found[n - 1].note_id.text())
    } else {
        None
    };
    HttpNext::Reply(ReviewQueueResponse { items, next_cursor, total })
}

// ── Laws ────────────────────────────────────────────────────────────────────

/// A page holds between one and two hundred rows, whatever is asked for.
pub proof fn pages_are_bounded(limit: Option<usize>)
    ensures
        1 <= review_limit(limit) <= 200,
        limit is None ==> review_limit(limit) == 50,
        limit matches Some(n) ==> (1 <= n <= 200 ==> review_limit(limit) == n),
{
}

/// The last page names no next one; every other page names the last note that it shows.
pub proof fn the_cursor_is_the_last_note_shown(
    found: Seq<ReviewRow>,
    limit: nat,
    total: u64,
    x: ReviewQueueResponse,
)
    requires
        limit > 0,
        review_page(found, limit, total, x),
    ensures
        x.next_cursor is Some <==> found.len() > limit,
        x.next_cursor is Some ==> x.items@.len() == limit && x.next_cursor->0@
            == x.items@.last().ulid@,
{
    if found.len() > limit {
        assert(shows(x.items@[limit - 1], found[limit - 1]));
    }
}

/// What waits for review is asked for from where and as far as the query says, one more than the
/// page holds; it is refused for cause only.
pub proof fn what_waits_for_review_is_asked_for(
    trust: TrustContext,
    q: ReviewQueueQuery,
    a: Answers,
)
    ensures
        ({
            let g = review_gate(trust, q, a);
            let entered = trust.authenticated() && a.acl == Some(true) && (q.cursor is None
                || ids::is_ulid(q.cursor->0@));
            &&& g matches HttpGate::Ask(x) ==> match x {
                Question::Acl { op, locus } => op == AclOp::Read && locus == "main/review"@,
                Question::ReviewQueue { vault, cursor, limit } => {
                    &&& vault == "main"@
                    &&& cursor == rows::opt_text(q.cursor)
                    &&& q.limit is None ==> limit == 51
                    &&& q.limit matches Some(n) ==> (1 <= n <= 200 ==> limit == n + 1)
                    &&& 2 <= limit <= 201
                },
                Question::ReviewCount { vault } => vault == "main"@,
                _ => false,
            }
            &&& !trust.authenticated() ==> g == HttpGate::Refuse(StatusCode::Unauthorized)
            &&& trust.authenticated() && a.acl == Some(false) ==> g == HttpGate::Refuse(
                StatusCode::Forbidden,
            )
            &&& trust.authenticated() && a.acl == Some(true) && q.cursor is Some && !ids::is_ulid(
                q.cursor->0@,
            ) ==> g == HttpGate::Refuse(StatusCode::BadRequest)
            &&& entered && a.review is None ==> g is Ask && g->Ask_0 is ReviewQueue
            &&& entered && (a.review matches Some(Err(_))) ==> g == HttpGate::Refuse(
                StatusCode::InternalServerError,
            )
            &&& entered && (a.review matches Some(Ok(_))) ==> match a.review_count {
                None => g is Ask && g->Ask_0 is ReviewCount,
                Some(Err(_)) => g == HttpGate::Refuse(StatusCode::InternalServerError),
                Some(Ok(_)) => g is Pass,
            }
        }),
{
}

/// What waits for review is shown as it was found, as many as the page holds.
pub proof fn what_waits_for_review_is_shown(
    found: Seq<ReviewRow>,
    limit: nat,
    total: u64,
    x: ReviewQueueResponse,
    i: int,
)
    requires
        review_page(found, limit, total, x),
    ensures
        x.total == total,
        x.items@.len() <= limit,
        found.len() <= limit ==> x.items@.len() == found.len(),
        0 <= i < x.items@.len() ==> {
            &&& x.items@[i].ulid@ == found[i].note_id@
            &&& rows::opt_text(x.items@[i].title) == rows::opt_text(found[i].title)
            &&& x.items@[i].section@ == found[i].section@
            &&& rows::opt_text(x.items@[i].locus) == rows::opt_text(found[i].locus)
            &&& x.items@[i].status@ == found[i].status@
            &&& rows::opt_text(x.items@[i].provenance) == rows::opt_text(found[i].provenance)
            &&& x.items@[i].created_ms == found[i].created_ms
        },
{
    if 0 <= i < x.items@.len() {
        assert(shows(x.items@[i], found[i]));
    }
}

}
