//! Filters on the hits of the semantic arm of a search.
//!
//! A hit is kept only when what the filter asks about is known and fits. When the index could
//! not tell, no hit is kept: the lexical arm alone answers.

use vstd::prelude::*;

use crate::error::GradatumError;
use crate::ids::NoteId;
use crate::order;
use crate::rows::{self, AnchorRow, StatusRow, TitleSection};
use crate::text;

verus! {

/// A hit of the semantic arm: a note and the bit pattern of its similarity.
#[derive(Debug, Clone, Copy, PartialEq, Eq, Structural)]
pub struct SemanticHit {
    pub note_id: NoteId,
    pub score_bits: u32,
}

/// Whether the section of the hit is known and is `wanted`.
pub open spec fn in_section(rows: Seq<TitleSection>, wanted: Seq<char>, h: SemanticHit) -> bool {
    rows::section_of(rows, h.note_id@) == Some(wanted)
}

/// The hits in the section `wanted`; none when the sections are not known.
pub open spec fn kept_by_section(
    hits: Seq<SemanticHit>,
    wanted: Seq<char>,
    sections: Result<Vec<TitleSection>, GradatumError>,
) -> Seq<SemanticHit> {
    match sections {
        Ok(found) => hits.filter(|h: SemanticHit| in_section(found@, wanted, h)),
        Err(_) => Seq::empty(),
    }
}

/// The hits in the section `wanted_section`; none when the sections are not known.
pub fn filter_semantic_by_section(
    semantic_hits: &Vec<SemanticHit>,
    wanted_section: &str,
    sec_result: &Result<Vec<TitleSection>, GradatumError>,
) -> (r: Vec<SemanticHit>)
    ensures
        r@ == kept_by_section(semantic_hits@, wanted_section@, *sec_result),
{
    let mut out: Vec<SemanticHit> = Vec::new();
    match sec_result {
        Ok(found) => {
            let ghost keep = |h: SemanticHit| in_section(found@, wanted_section@, h);
            let mut i: usize = 0;
            assert(semantic_hits@.take(0).filter(keep) =~= Seq::empty());
            while i < semantic_hits.len()
                invariant
                    i <= semantic_hits@.len(),
                    keep == (|h: SemanticHit| in_section(found@, wanted_section@, h)),
                    out@ == semantic_hits@.take(i as int).filter(keep),
                decreases semantic_hits@.len() - i,
            {
                let h = semantic_hits[i];
                let fits = match rows::find_title(found, h.note_id.text().as_str()) {
                    Some(row) => text::same(row.section.as_str(), wanted_section),
                    None => false,
                };
                proof {
                    assert(semantic_hits@.take(i + 1).drop_last() =~= semantic_hits@.take(i as int));
                    reveal(Seq::filter);
                }
                if fits {
                    out.push(h);
                }
                i = i + 1;
            }
            assert(semantic_hits@.take(semantic_hits@.len() as int) =~= semantic_hits@);
        },
        Err(_) => {},
    }
    out
}

/// Whether the section of the hit is known and is one of `wanted`.
pub open spec fn in_sections(
    rows: Seq<TitleSection>,
    wanted: Seq<Seq<char>>,
    h: SemanticHit,
) -> bool {
    match rows::section_of(rows, h.note_id@) {
        Some(s) => wanted.contains(s),
        None => false,
    }
}

/// The hits in one of the sections `wanted`; none when the sections are not known.
pub open spec fn kept_by_sections(
    hits: Seq<SemanticHit>,
    wanted: Seq<Seq<char>>,
    sections: Result<Vec<TitleSection>, GradatumError>,
) -> Seq<SemanticHit> {
    match sections {
        Ok(found) => hits.filter(|h: SemanticHit| in_sections(found@, wanted, h)),
        Err(_) => Seq::empty(),
    }
}

/// The hits in one of the sections `wanted_sections`; none when the sections are not known.
pub fn filter_semantic_by_sections(
    semantic_hits: &Vec<SemanticHit>,
    wanted_sections: &Vec<String>,
    sec_result: &Result<Vec<TitleSection>, GradatumError>,
) -> (r: Vec<SemanticHit>)
    ensures
        r@ == kept_by_sections(semantic_hits@, text::views(wanted_sections@), *sec_result),
{
    let mut out: Vec<SemanticHit> = Vec::new();
    let ghost wanted = text::views(wanted_sections@);
    match sec_result {
        Ok(found) => {
            let ghost keep = |h: SemanticHit| in_sections(found@, wanted, h);
            let mut i: usize = 0;
            assert(semantic_hits@.take(0).filter(keep) =~= Seq::empty());
            while i < semantic_hits.len()
                invariant
                    i <= semantic_hits@.len(),
                    wanted == text::views(wanted_sections@),
                    keep == (|h: SemanticHit| in_sections(found@, wanted, h)),
                    out@ == semantic_hits@.take(i as int).filter(keep),
                decreases semantic_hits@.len() - i,
            {
                let h = semantic_hits[i];
                let fits = match rows::find_title(found, h.note_id.text().as_str()) {
                    Some(row) => text::listed(wanted_sections, row.section.as_str()),
                    None => false,
                };
                proof {
                    assert(semantic_hits@.take(i + 1).drop_last() =~= semantic_hits@.take(i as int));
                    reveal(Seq::filter);
                }
                if fits {
                    out.push(h);
                }
                i = i + 1;
            }
            assert(semantic_hits@.take(semantic_hits@.len() as int) =~= semantic_hits@);
        },
        Err(_) => {},
    }
    out
}

/// Whether the section of the hit is known and is none of `excluded`.
pub open spec fn outside_sections(
    rows: Seq<TitleSection>,
    excluded: Seq<Seq<char>>,
    h: SemanticHit,
) -> bool {
    match rows::section_of(rows, h.note_id@) {
        Some(s) => !excluded.contains(s),
        None => false,
    }
}

/// The hits known to be outside the sections `excluded`; none when the sections are not known.
pub open spec fn kept_outside_sections(
    hits: Seq<SemanticHit>,
    excluded: Seq<Seq<char>>,
    sections: Result<Vec<TitleSection>, GradatumError>,
) -> Seq<SemanticHit> {
    match sections {
        Ok(found) => hits.filter(|h: SemanticHit| outside_sections(found@, excluded, h)),
        Err(_) => Seq::empty(),
    }
}

/// The hits known to be outside the sections `excluded_sections`; none when the sections are
/// not known.
pub fn filter_semantic_excluding_sections(
    semantic_hits: &Vec<SemanticHit>,
    excluded_sections: &Vec<String>,
    sec_result: &Result<Vec<TitleSection>, GradatumError>,
) -> (r: Vec<SemanticHit>)
    ensures
        r@ == kept_outside_sections(semantic_hits@, text::views(excluded_sections@), *sec_result),
{
    let mut out: Vec<SemanticHit> = Vec::new();
    let ghost excluded = text::views(excluded_sections@);
    match sec_result {
        Ok(found) => {
            let ghost keep = |h: SemanticHit| outside_sections(found@, excluded, h);
            let mut i: usize = 0;
            assert(semantic_hits@.take(0).filter(keep) =~= Seq::empty());
            while i < semantic_hits.len()
                invariant
                    i <= semantic_hits@.len(),
                    excluded == text::views(excluded_sections@),
                    keep == (|h: SemanticHit| outside_sections(found@, excluded, h)),
                    out@ == semantic_hits@.take(i as int).filter(keep),
                decreases semantic_hits@.len() - i,
            {
                let h = semantic_hits[i];
                let fits = match rows::find_title(found, h.note_id.text().as_str()) {
                    Some(row) => !text::listed(excluded_sections, row.section.as_str()),
                    None => false,
                };
                proof {
                    assert(semantic_hits@.take(i + 1).drop_last() =~= semantic_hits@.take(i as int));
                    reveal(Seq::filter);
                }
                if fits {
                    out.push(h);
                }
                i = i + 1;
            }
            assert(semantic_hits@.take(semantic_hits@.len() as int) =~= semantic_hits@);
        },
        Err(_) => {},
    }
    out
}

/// Whether the status of the hit is known and is `wanted`.
pub open spec fn has_status(rows: Seq<StatusRow>, wanted: Seq<char>, h: SemanticHit) -> bool {
    rows::status_of(rows, h.note_id@) == Some(wanted)
}

/// The hits of the status `wanted`; none when the statuses are not known.
pub open spec fn kept_by_status(
    hits: Seq<SemanticHit>,
    wanted: Seq<char>,
    statuses: Result<Vec<StatusRow>, GradatumError>,
) -> Seq<SemanticHit> {
    match statuses {
        Ok(found) => hits.filter(|h: SemanticHit| has_status(found@, wanted, h)),
        Err(_) => Seq::empty(),
    }
}

/// The hits of the status `wanted_status`; none when the statuses are not known.
pub fn filter_semantic_by_status(
    semantic_hits: &Vec<SemanticHit>,
    wanted_status: &str,
    status_result: &Result<Vec<StatusRow>, GradatumError>,
) -> (r: Vec<SemanticHit>)
    ensures
        r@ == kept_by_status(semantic_hits@, wanted_status@, *status_result),
{
    let mut out: Vec<SemanticHit> = Vec::new();
    match status_result {
        Ok(found) => {
            let ghost keep = |h: SemanticHit| has_status(found@, wanted_status@, h);
            let mut i: usize = 0;
            assert(semantic_hits@.take(0).filter(keep) =~= Seq::empty());
            while i < semantic_hits.len()
                invariant
                    i <= semantic_hits@.len(),
                    keep == (|h: SemanticHit| has_status(found@, wanted_status@, h)),
                    out@ == semantic_hits@.take(i as int).filter(keep),
                decreases semantic_hits@.len() - i,
            {
                let h = semantic_hits[i];
                let fits = match rows::find_status(found, h.note_id.text().as_str()) {
                    Some(status) => text::same(status.as_str(), wanted_status),
                    None => false,
                };
                proof {
                    assert(semantic_hits@.take(i + 1).drop_last() =~= semantic_hits@.take(i as int));
                    reveal(Seq::filter);
                }
                if fits {
                    out.push(h);
                }
                i = i + 1;
            }
            assert(semantic_hits@.take(semantic_hits@.len() as int) =~= semantic_hits@);
        },
        Err(_) => {},
    }
    out
}

/// Whether `ms` lies within the bounds that are set.
pub open spec fn in_bounds(ms: i64, from: Option<i64>, to: Option<i64>) -> bool {
    &&& from matches Some(f) ==> ms >= f
    &&& to matches Some(t) ==> ms <= t
}

/// Whether the anchor of the hit is known and lies within the bounds.
pub open spec fn anchored_within(
    rows: Seq<AnchorRow>,
    from: Option<i64>,
    to: Option<i64>,
    h: SemanticHit,
) -> bool {
    match rows::anchor_of(rows, h.note_id@) {
        Some(ms) => in_bounds(ms, from, to),
        None => false,
    }
}

/// The hits within the temporal bounds; all of them when no bound is set.
pub open spec fn kept_by_time(
    hits: Seq<SemanticHit>,
    from: Option<i64>,
    to: Option<i64>,
    anchors: Seq<AnchorRow>,
) -> Seq<SemanticHit> {
    if from is None && to is None {
        hits
    } else {
        hits.filter(|h: SemanticHit| anchored_within(anchors, from, to, h))
    }
}

/// The hits within the temporal bounds; all of them when no bound is set.
pub fn filter_semantic_by_time(
    semantic_hits: &Vec<SemanticHit>,
    from_ms: Option<i64>,
    to_ms: Option<i64>,
    anchors: &Vec<AnchorRow>,
) -> (r: Vec<SemanticHit>)
    ensures
        r@ == kept_by_time(semantic_hits@, from_ms, to_ms, anchors@),
{
    let mut out: Vec<SemanticHit> = Vec::new();
    let bounded = from_ms.is_some() || to_ms.is_some();
    let ghost keep = |h: SemanticHit| anchored_within(anchors@, from_ms, to_ms, h);
    let mut i: usize = 0;
    assert(semantic_hits@.take(0).filter(keep) =~= Seq::empty());
    while i < semantic_hits.len()
        invariant
            i <= semantic_hits@.len(),
            bounded == (from_ms is Some || to_ms is Some),
            keep == (|h: SemanticHit| anchored_within(anchors@, from_ms, to_ms, h)),
            bounded ==> out@ == semantic_hits@.take(i as int).filter(keep),
            !bounded ==> out@ == semantic_hits@.take(i as int),
        decreases semantic_hits@.len() - i,
    {
        let h = semantic_hits[i];
        let fits = if !bounded {
            true
        } else {
            match rows::find_anchor(anchors, h.note_id.text().as_str()) {
                Some(ms) => {
                    let after = match from_ms {
                        Some(f) => ms >= f,
                        None => true,
                    };
                    let before = match to_ms {
                        Some(t) => ms <= t,
                        None => true,
                    };
                    after && before
                },
                None => false,
            }
        };
        proof {
            assert(semantic_hits@.take(i + 1).drop_last() =~= semantic_hits@.take(i as int));
            assert(semantic_hits@.take(i + 1) =~= semantic_hits@.take(i as int).push(h));
            reveal(Seq::filter);
        }
        if fits {
            out.push(h);
        }
        i = i + 1;
    }
    assert(semantic_hits@.take(semantic_hits@.len() as int) =~= semantic_hits@);
    out
}

// ── Laws ────────────────────────────────────────────────────────────────────

/// A section filter lets through only hits that are known to be in the section.
pub proof fn section_filter_never_leaks(
    hits: Seq<SemanticHit>,
    wanted: Seq<char>,
    sections: Result<Vec<TitleSection>, GradatumError>,
    i: int,
)
    requires
        0 <= i < kept_by_section(hits, wanted, sections).len(),
    ensures
        ({
            let h = kept_by_section(hits, wanted, sections)[i];
            &&& hits.contains(h)
            &&& sections matches Ok(found) && in_section(found@, wanted, h)
        }),
{
    match sections {
        Ok(found) => {
            let keep = |h: SemanticHit| in_section(found@, wanted, h);
            hits.lemma_filter_contains_rev(keep, hits.filter(keep)[i]);
            assert(keep(hits.filter(keep)[i])) by {
                lemma_filter_pred(hits, keep, i);
            }
        },
        Err(_) => {},
    }
}

proof fn lemma_filter_pred(hits: Seq<SemanticHit>, keep: spec_fn(SemanticHit) -> bool, i: int)
    requires
        0 <= i < hits.filter(keep).len(),
    ensures
        keep(hits.filter(keep)[i]),
    decreases hits.len(),
{
    reveal(Seq::filter);
    if hits.len() > 0 {
        let sub = hits.drop_last().filter(keep);
        if i < sub.len() {
            lemma_filter_pred(hits.drop_last(), keep, i);
        }
    }
}

/// The exclusion filter lets through only hits that are known to be outside the excluded
/// sections.
pub proof fn exclusion_filter_never_leaks(
    hits: Seq<SemanticHit>,
    excluded: Seq<Seq<char>>,
    sections: Result<Vec<TitleSection>, GradatumError>,
    i: int,
)
    requires
        0 <= i < kept_outside_sections(hits, excluded, sections).len(),
    ensures
        ({
            let h = kept_outside_sections(hits, excluded, sections)[i];
            sections matches Ok(found) && outside_sections(found@, excluded, h)
        }),
{
    match sections {
        Ok(found) => {
            lemma_filter_pred(hits, |h: SemanticHit| outside_sections(found@, excluded, h), i);
        },
        Err(_) => {},
    }
}

/// The filter on one section and the filter on a set of that section alone keep the same hits.
pub proof fn one_section_is_a_set_of_one(
    hits: Seq<SemanticHit>,
    wanted: Seq<char>,
    sections: Result<Vec<TitleSection>, GradatumError>,
)
    ensures
        kept_by_section(hits, wanted, sections) == kept_by_sections(hits, seq![wanted], sections),
{
    match sections {
        Ok(found) => {
            let one = |h: SemanticHit| in_section(found@, wanted, h);
            let set = |h: SemanticHit| in_sections(found@, seq![wanted], h);
            assert forall|h: SemanticHit| #[trigger] one(h) == set(h) by {
                match rows::section_of(found@, h.note_id@) {
                    Some(s) => {
                        assert(seq![wanted][0] == wanted);
                        assert(seq![wanted].contains(s) <==> s == wanted);
                    },
                    None => {},
                }
            }
            assert(one =~= set);
        },
        Err(_) => {},
    }
}

/// A filter drops exactly the hits that it has to: by section, outside
/// sections, by status and by time.
pub proof fn filters_drop_only_what_they_have_to(
    hits: Seq<SemanticHit>,
    h: SemanticHit,
    wanted: Seq<char>,
    excluded: Seq<Seq<char>>,
    sections: Vec<TitleSection>,
    status: Seq<char>,
    statuses: Vec<StatusRow>,
    from: Option<i64>,
    to: Option<i64>,
    anchors: Seq<AnchorRow>,
)
    requires
        hits.contains(h),
    ensures
        kept_by_section(hits, wanted, Ok(sections)).contains(h) <==> rows::section_of(
            sections@,
            h.note_id@,
        ) == Some(wanted),
        kept_outside_sections(hits, excluded, Ok(sections)).contains(h) <==> (rows::section_of(
            sections@,
            h.note_id@,
        ) matches Some(s) && !excluded.contains(s)),
        kept_by_status(hits, status, Ok(statuses)).contains(h) <==> rows::status_of(
            statuses@,
            h.note_id@,
        ) == Some(status),
        from is None && to is None ==> kept_by_time(hits, from, to, anchors) == hits,
        from is Some || to is Some ==> (kept_by_time(hits, from, to, anchors).contains(h) <==> (
        rows::anchor_of(anchors, h.note_id@) matches Some(ms) && (from matches Some(f) ==> f <= ms)
            && (to matches Some(t) ==> ms <= t))),
{
    let a = |x: SemanticHit| in_section(sections@, wanted, x);
    let b = |x: SemanticHit| outside_sections(sections@, excluded, x);
    let c = |x: SemanticHit| has_status(statuses@, status, x);
    let d = |x: SemanticHit| anchored_within(anchors, from, to, x);
    lemma_filter_iff(hits, a, h);
    lemma_filter_iff(hits, b, h);
    lemma_filter_iff(hits, c, h);
    lemma_filter_iff(hits, d, h);
}

proof fn lemma_filter_iff(hits: Seq<SemanticHit>, keep: spec_fn(SemanticHit) -> bool, h: SemanticHit)
    requires
        hits.contains(h),
    ensures
        hits.filter(keep).contains(h) <==> keep(h),
{
    let i = choose|i: int| 0 <= i < hits.len() && hits[i] == h;
    if keep(h) {
        hits.lemma_filter_contains(keep, i);
    }
    if hits.filter(keep).contains(h) {
        let k = choose|k: int| 0 <= k < hits.filter(keep).len() && hits.filter(keep)[k] == h;
        lemma_filter_pred(hits, keep, k);
    }
}

/// When the sections or the statuses cannot be looked up, no hit is kept; and no filter brings in
/// a hit of its own.
pub proof fn filters_stay_closed(
    hits: Seq<SemanticHit>,
    wanted: Seq<char>,
    excluded: Seq<Seq<char>>,
    sections: Result<Vec<TitleSection>, GradatumError>,
    status: Seq<char>,
    statuses: Result<Vec<StatusRow>, GradatumError>,
    from: Option<i64>,
    to: Option<i64>,
    anchors: Seq<AnchorRow>,
    h: SemanticHit,
)
    ensures
        sections is Err ==> kept_by_section(hits, wanted, sections).len() == 0
            && kept_outside_sections(hits, excluded, sections).len() == 0,
        statuses is Err ==> kept_by_status(hits, status, statuses).len() == 0,
        kept_by_section(hits, wanted, sections).contains(h) ==> hits.contains(h),
        kept_outside_sections(hits, excluded, sections).contains(h) ==> hits.contains(h),
        kept_by_status(hits, status, statuses).contains(h) ==> hits.contains(h),
        kept_by_time(hits, from, to, anchors).contains(h) ==> hits.contains(h),
{
    if let Ok(found) = sections {
        let a = |x: SemanticHit| in_section(found@, wanted, x);
        let b = |x: SemanticHit| outside_sections(found@, excluded, x);
        if hits.filter(a).contains(h) {
            hits.lemma_filter_contains_rev(a, h);
        }
        if hits.filter(b).contains(h) {
            hits.lemma_filter_contains_rev(b, h);
        }
    }
    if let Ok(found) = statuses {
        let c = |x: SemanticHit| has_status(found@, status, x);
        if hits.filter(c).contains(h) {
            hits.lemma_filter_contains_rev(c, h);
        }
    }
    let d = |x: SemanticHit| anchored_within(anchors, from, to, x);
    if hits.filter(d).contains(h) {
        hits.lemma_filter_contains_rev(d, h);
    }
}

/// Whether `part` holds items of `whole` in the order in which they stand there.
pub open spec fn in_order(part: Seq<SemanticHit>, whole: Seq<SemanticHit>, i: int, j: int) -> bool {
    exists|x: int, y: int|
        0 <= x < y < whole.len() && part[i] == #[trigger] whole[x] && part[j] == #[trigger] whole[y]
}

/// A filter keeps the hits in their order.
pub proof fn filters_keep_the_order(
    hits: Seq<SemanticHit>,
    wanted: Seq<char>,
    excluded: Seq<Seq<char>>,
    sections: Vec<TitleSection>,
    status: Seq<char>,
    statuses: Vec<StatusRow>,
    from: Option<i64>,
    to: Option<i64>,
    anchors: Seq<AnchorRow>,
    i: int,
    j: int,
)
    requires
        0 <= i < j,
    ensures
        j < kept_by_section(hits, wanted, Ok(sections)).len() ==> in_order(
            kept_by_section(hits, wanted, Ok(sections)),
            hits,
            i,
            j,
        ),
        j < kept_outside_sections(hits, excluded, Ok(sections)).len() ==> in_order(
            kept_outside_sections(hits, excluded, Ok(sections)),
            hits,
            i,
            j,
        ),
        j < kept_by_status(hits, status, Ok(statuses)).len() ==> in_order(
            kept_by_status(hits, status, Ok(statuses)),
            hits,
            i,
            j,
        ),
        j < kept_by_time(hits, from, to, anchors).len() ==> in_order(
            kept_by_time(hits, from, to, anchors),
            hits,
            i,
            j,
        ),
{
    let a = |x: SemanticHit| in_section(sections@, wanted, x);
    let b = |x: SemanticHit| outside_sections(sections@, excluded, x);
    let c = |x: SemanticHit| has_status(statuses@, status, x);
    let d = |x: SemanticHit| anchored_within(anchors, from, to, x);
    if j < hits.filter(a).len() {
        order::filtering_keeps_the_order(hits, a, i, j);
    }
    if j < hits.filter(b).len() {
        order::filtering_keeps_the_order(hits, b, i, j);
    }
    if j < hits.filter(c).len() {
        order::filtering_keeps_the_order(hits, c, i, j);
    }
    if j < hits.filter(d).len() {
        order::filtering_keeps_the_order(hits, d, i, j);
    }
    if from is None && to is None && j < hits.len() {
        let kept = kept_by_time(hits, from, to, anchors);
        assert(kept[i] == hits[i] && kept[j] == hits[j]);
    }
}

}
