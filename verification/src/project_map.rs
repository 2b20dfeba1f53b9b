//! The cards of the project map, listed as a whole.

use vstd::prelude::*;
use vstd::string::*;

use crate::door::{self, HttpGate, HttpNext};
use crate::error::StatusCode;
use crate::flow::{Answers, Ask, Question};
use crate::order;
use crate::rows::{self, MapPage, MapRecord};
use crate::text;
use crate::trust::TrustContext;

verus! {

/// The section of the cards.
pub const SECTION: &'static str = "project-map";

/// The most notes on a page of the index.
pub const PAGE_SIZE: usize = 200;

/// The most pages that are fetched.
pub const MAX_PAGES: usize = 50;

/// The vault of the cards.
pub fn target_vault() -> (r: String)
    ensures
        r@ == "main"@,
{
    "main".to_owned()
}

/// What is asked of the export of features.
#[derive(Debug)]
pub struct ExportFeaturesQuery {
    /// Whether features that were dropped are to be exported too.
    pub include_dropped: bool,
    /// Whether release and version come from the track of a card.
    pub derived: bool,
}

/// Release and version come from the track of a card, unless it is asked otherwise.
pub fn default_derived() -> (r: bool)
    ensures
        r,
{
    true
}

impl Default for ExportFeaturesQuery {
    fn default() -> (r: Self)
        ensures
            !r.include_dropped,
            r.derived,
    {
        ExportFeaturesQuery { include_dropped: false, derived: default_derived() }
    }
}

/// What is asked of the list of cards.
#[derive(Debug)]
pub struct ListCardsQuery {
    /// The version whose cards are asked for.
    pub version: Option<String>,
}

// ── Pages ───────────────────────────────────────────────────────────────────

/// The notes that were fetched so far.
#[derive(Debug)]
pub struct MapScan {
    pub records: Vec<MapRecord>,
    /// The last note that was fetched.
    pub cursor: Option<String>,
    pub pages: usize,
    /// Whether the index has no more.
    pub exhausted: bool,
}

/// A [`MapScan`] by its contents.
#[verifier::ext_equal]
pub struct ScanState {
    pub records: Seq<MapRecord>,
    pub cursor: Option<Seq<char>>,
    pub pages: nat,
    pub exhausted: bool,
}

impl View for MapScan {
    type V = ScanState;

    open spec fn view(&self) -> ScanState {
        ScanState {
            records: self.records@,
            cursor: rows::opt_text(self.cursor),
            pages: self.pages as nat,
            exhausted: self.exhausted,
        }
    }
}

/// Nothing was fetched yet.
pub open spec fn scan_start() -> ScanState {
    ScanState { records: Seq::empty(), cursor: None, pages: 0, exhausted: false }
}

/// Whether no more pages are fetched: the index has no more, or there were too many.
pub open spec fn scan_done(s: ScanState) -> bool {
    s.exhausted || s.pages >= MAX_PAGES
}

/// What was fetched, with one page more. A page that is not full is the last one, and so is the
/// one that completes the total.
pub open spec fn scan_step(s: ScanState, page: Seq<MapRecord>, total: nat) -> ScanState {
    ScanState {
        records: s.records + page,
        cursor: if page.len() > 0 {
            Some(page.last().id@)
        } else {
            s.cursor
        },
        pages: s.pages + 1,
        exhausted: page.len() < PAGE_SIZE || s.records.len() + page.len() >= total,
    }
}

impl MapScan {
    /// Nothing was fetched yet.
    pub fn start() -> (r: MapScan)
        ensures
            r@ == scan_start(),
    {
        MapScan { records: Vec::new(), cursor: None, pages: 0, exhausted: false }
    }

    /// Whether no more pages are fetched.
    pub fn done(&self) -> (r: bool)
        ensures
            r == scan_done(self@),
    {
        self.exhausted || self.pages >= MAX_PAGES
    }

    /// Adds a page.
    pub fn accept(self, page: MapPage) -> (r: MapScan)
        requires
            !scan_done(self@),
        ensures
            r@ == scan_step(self@, page.records@, page.total as nat),
    {
        let n: usize = page.records.len();
        let mut fetched = page.records;
        let cursor = if n > 0 {
            Some(fetched[n - 1].id.clone())
        } else {
            self.cursor
        };
        let mut records = self.records;
        records.append(&mut fetched);
        let exhausted = n < PAGE_SIZE || records.len() as u64 >= page.total;
        MapScan { records, cursor, pages: self.pages + 1, exhausted }
    }
}

/// What is fetched next, once the right to read the section was established.
pub open spec fn map_gate(trust: TrustContext, scan: ScanState, a: Answers) -> HttpGate {
    if !trust.authenticated() {
        HttpGate::Refuse(StatusCode::Unauthorized)
    } else {
        match a.resolved {
            None => HttpGate::Ask(
                Question::ResolveRead { vault: "main"@, section: "project-map"@ },
            ),
            Some(Err(s)) => HttpGate::Refuse(s),
            Some(Ok(v)) => if scan_done(scan) {
                HttpGate::Pass
            } else {
                match a.map_page {
                    None => HttpGate::Ask(
                        Question::MapPage {
                            vault: v@,
                            section: "project-map"@,
                            limit: PAGE_SIZE as nat,
                            cursor: scan.cursor,
                        },
                    ),
                    Some(Err(_)) => HttpGate::Refuse(StatusCode::InternalServerError),
                    Some(Ok(_)) => HttpGate::Pass,
                }
            },
        }
    }
}

/// Fetches the notes of the section, page by page. Says whether all of them are there; if not,
/// the page that was answered is to be added.
pub fn fetch_all_project_map_records(trust: &TrustContext, scan: &MapScan, a: &Answers) -> (r:
    HttpNext<bool>)
    ensures
        door::follows(r, map_gate(*trust, scan@, *a)),
        r matches HttpNext::Reply(all) ==> all == scan_done(scan@),
        r matches HttpNext::Reply(all) ==> !all ==> (a.map_page matches Some(p) && p is Ok),
{
    if !trust.is_authenticated() {
        return HttpNext::Refuse(StatusCode::Unauthorized);
    }
    let vault = match &a.resolved {
        None => return HttpNext::Ask(
            Ask::ResolveRead { vault: target_vault(), section: SECTION.to_owned() },
        ),
        Some(Err(s)) => return HttpNext::Refuse(*s),
        Some(Ok(v)) => v,
    };
    if scan.done() {
        return HttpNext::Reply(true);
    }
    match &a.map_page {
        None => HttpNext::Ask(
            Ask::MapPage {
                vault: vault.clone(),
                section: SECTION.to_owned(),
                limit: PAGE_SIZE,
                cursor: rows::copy_opt(&scan.cursor),
            },
        ),
        Some(Err(_)) => HttpNext::Refuse(StatusCode::InternalServerError),
        Some(Ok(_)) => HttpNext::Reply(false),
    }
}

// ── Cards ───────────────────────────────────────────────────────────────────

/// A note that may be a card.
#[derive(Debug)]
pub struct CardNote {
    pub id: String,
    pub body: String,
    /// The title, empty when the note has none.
    pub title: String,
}

/// The notes that are not about to be collected.
pub open spec fn kept(records: Seq<MapRecord>) -> Seq<MapRecord> {
    records.filter(|r: MapRecord| r.status@ != "garbage"@)
}

/// Whether `n` shows the note `r`.
pub open spec fn shows(n: CardNote, r: MapRecord) -> bool {
    &&& n.id@ == r.id@
    &&& n.body@ == r.body_text@
    &&& n.title@ == (match r.title {
        Some(t) => t@,
        None => Seq::empty(),
    })
}

/// Whether `notes` shows the notes that are not about to be collected, in their order.
pub open spec fn shows_kept(notes: Seq<CardNote>, records: Seq<MapRecord>) -> bool {
    &&& notes.len() == kept(records).len()
    &&& forall|i: int| 0 <= i < notes.len() ==> shows(#[trigger] notes[i], kept(records)[i])
}

/// The notes that are not about to be collected.
pub fn card_notes(records: &Vec<MapRecord>) -> (r: Vec<CardNote>)
    ensures
        shows_kept(r@, records@),
{
    let mut notes: Vec<CardNote> = Vec::new();
    let mut i: usize = 0;
    proof {
        reveal(Seq::filter);
        assert(records@.take(0) =~= Seq::empty());
    }
    while i < records.len()
        invariant
            i <= records@.len(),
            shows_kept(notes@, records@.take(i as int)),
        decreases records@.len() - i,
    {
        let r = &records[i];
        proof {
            reveal(Seq::filter);
            assert(records@.take(i + 1).drop_last() =~= records@.take(i as int));
            assert(records@.take(i + 1).last() == *r);
        }
        if !text::same(r.status.as_str(), "garbage") {
            let ghost before = kept(records@.take(i as int));
            assert(kept(records@.take(i + 1)) =~= before.push(*r));
            notes.push(
                CardNote {
                    id: r.id.clone(),
                    body: r.body_text.clone(),
                    title: match &r.title {
                        Some(t) => t.clone(),
                        None => String::new(),
                    },
                },
            );
        } else {
            assert(kept(records@.take(i + 1)) =~= kept(records@.take(i as int)));
        }
        i = i + 1;
    }
    assert(records@.take(records@.len() as int) =~= records@);
    notes
}

/// Notes to be projected onto features.
#[derive(Debug)]
pub struct FeatureExport {
    pub notes: Vec<CardNote>,
    pub include_dropped: bool,
    pub derived: bool,
}

/// Notes to be listed as cards.
#[derive(Debug)]
pub struct CardListing {
    pub notes: Vec<CardNote>,
    pub version: Option<String>,
    /// The project whose structure cards are listed.
    pub project: String,
}

/// What came of a step of a listing.
#[derive(Debug)]
pub enum Mapped<T> {
    /// The page that was answered is to be added.
    Page,
    /// All notes are there.
    All(T),
}

/// Exports the features: all notes that are not about to be collected, and how they are to be
/// projected.
pub fn export_features(
    trust: &TrustContext,
    q: &ExportFeaturesQuery,
    scan: &MapScan,
    a: &Answers,
) -> (r: HttpNext<Mapped<FeatureExport>>)
    ensures
        door::follows(r, map_gate(*trust, scan@, *a)),
        r matches HttpNext::Reply(m) ==> match m {
            Mapped::Page => !scan_done(scan@),
            Mapped::All(x) => {
                &&& scan_done(scan@)
                &&& shows_kept(x.notes@, scan.records@)
                &&& x.include_dropped == q.include_dropped
                &&& x.derived == q.derived
            },
        },
{
    match fetch_all_project_map_records(trust, scan, a) {
        HttpNext::Ask(q) => HttpNext::Ask(q),
        HttpNext::Refuse(s) => HttpNext::Refuse(s),
        HttpNext::Reply(false) => HttpNext::Reply(Mapped::Page),
        HttpNext::Reply(true) => HttpNext::Reply(
            Mapped::All(
                FeatureExport {
                    notes: card_notes(&scan.records),
                    include_dropped: q.include_dropped,
                    derived: q.derived,
                },
            ),
        ),
    }
}

/// Lists the cards: all notes that are not about to be collected, and the version that is asked
/// for.
pub fn list_cards(trust: &TrustContext, q: &ListCardsQuery, scan: &MapScan, a: &Answers) -> (r:
    HttpNext<Mapped<CardListing>>)
    ensures
        door::follows(r, map_gate(*trust, scan@, *a)),
        r matches HttpNext::Reply(m) ==> match m {
            Mapped::Page => !scan_done(scan@),
            Mapped::All(x) => {
                &&& scan_done(scan@)
                &&& shows_kept(x.notes@, scan.records@)
                &&& rows::opt_text(x.version) == rows::opt_text(q.version)
                &&& x.project@ == "gradatum"@
            },
        },
{
    match fetch_all_project_map_records(trust, scan, a) {
        HttpNext::Ask(q) => HttpNext::Ask(q),
        HttpNext::Refuse(s) => HttpNext::Refuse(s),
        HttpNext::Reply(false) => HttpNext::Reply(Mapped::Page),
        HttpNext::Reply(true) => HttpNext::Reply(
            Mapped::All(
                CardListing {
                    notes: card_notes(&scan.records),
                    version: rows::copy_opt(&q.version),
                    project: "gradatum".to_owned(),
                },
            ),
        ),
    }
}

// ── Laws ────────────────────────────────────────────────────────────────────

/// The lesser of two numbers.
pub open spec fn lesser(x: nat, y: nat) -> nat {
    if x <= y {
        x
    } else {
        y
    }
}

/// Page `k` of a list.
pub open spec fn page_at(all: Seq<MapRecord>, k: nat) -> Seq<MapRecord> {
    all.subrange(
        lesser(PAGE_SIZE as nat * k, all.len()) as int,
        lesser(PAGE_SIZE as nat * (k + 1), all.len()) as int,
    )
}

/// What was fetched of a list after at most `k` pages.
pub open spec fn fetched(all: Seq<MapRecord>, k: nat) -> ScanState
    decreases k,
{
    if k == 0 {
        scan_start()
    } else {
        let s = fetched(all, (k - 1) as nat);
        if scan_done(s) {
            s
        } else {
            scan_step(s, page_at(all, s.pages), all.len())
        }
    }
}

/// What was fetched of a list is its beginning, and the next page is the one after the last note
/// that was fetched.
pub proof fn pages_follow_each_other(all: Seq<MapRecord>, k: nat)
    ensures
        ({
            let s = fetched(all, k);
            &&& s.pages <= k
            &&& s.pages <= MAX_PAGES
            &&& s.records == all.take(lesser(PAGE_SIZE as nat * s.pages, all.len()) as int)
            &&& s.records.len() > 0 ==> s.cursor == Some(s.records.last().id@)
            &&& s.exhausted ==> s.records == all
            &&& !scan_done(s) ==> s.pages == k
        }),
    decreases k,
{
    if k > 0 {
        pages_follow_each_other(all, (k - 1) as nat);
        let s = fetched(all, (k - 1) as nat);
        if !scan_done(s) {
            let t = fetched(all, k);
            let page = page_at(all, s.pages);
            assert(t.records =~= all.take(lesser(PAGE_SIZE as nat * t.pages, all.len()) as int));
            if page.len() > 0 {
                assert(t.records.last() == page.last());
            } else {
                assert(t.records =~= s.records);
            }
            if t.exhausted {
                assert(t.records =~= all);
            }
        }
    } else {
        assert(all.take(0) =~= Seq::empty());
    }
}

/// A list of cards is complete, up to ten thousand notes: the pages that are fetched make up the
/// whole section.
pub proof fn the_list_is_complete(all: Seq<MapRecord>)
    ensures
        scan_done(fetched(all, MAX_PAGES as nat)),
        all.len() <= 10_000 ==> fetched(all, MAX_PAGES as nat).records == all,
        all.len() > 10_000 ==> fetched(all, MAX_PAGES as nat).records == all.take(10_000),
{
    pages_follow_each_other(all, MAX_PAGES as nat);
    let s = fetched(all, MAX_PAGES as nat);
    if !s.exhausted {
        if all.len() <= 10_000 {
            assert(all.take(all.len() as int) =~= all);
        }
    } else if all.len() > 10_000 {
        assert(s.records.len() <= 10_000);
    }
}

/// No note that is about to be collected is listed, and every other note is.
pub proof fn only_garbage_is_left_out(records: Seq<MapRecord>, r: MapRecord)
    ensures
        kept(records).contains(r) <==> records.contains(r) && r.status@ != "garbage"@,
    decreases records.len(),
{
    reveal(Seq::filter);
    if records.len() > 0 {
        let head = records.drop_last();
        let last = records.last();
        only_garbage_is_left_out(head, r);
        if head.contains(r) {
            let i = choose|i: int| 0 <= i < head.len() && head[i] == r;
            assert(records[i] == r);
        }
        assert(records[records.len() - 1] == last);
        if records.contains(r) && r != last {
            let i = choose|i: int| 0 <= i < records.len() && records[i] == r;
            assert(head[i] == r);
        }
        if last.status@ != "garbage"@ {
            let all = kept(records);
            assert(all =~= kept(head).push(last));
            assert(all[all.len() - 1] == last);
            if kept(head).contains(r) {
                let i = choose|i: int| 0 <= i < kept(head).len() && kept(head)[i] == r;
                assert(all[i] == r);
            }
            if all.contains(r) && r != last {
                let i = choose|i: int| 0 <= i < all.len() && all[i] == r;
                assert(kept(head)[i] == r);
            }
        } else {
            assert(kept(records) =~= kept(head));
        }
    }
}

/// A page of cards is asked for after the last note that was fetched, in the vault that the caller
/// may read; it is refused for cause only.
pub proof fn cards_are_asked_for_page_by_page(trust: TrustContext, scan: ScanState, a: Answers)
    ensures
        ({
            let g = map_gate(trust, scan, a);
            &&& g matches HttpGate::Ask(q) ==> match q {
                Question::ResolveRead { vault, section } => vault == "main"@ && section
                    == "project-map"@,
                Question::MapPage { vault, section, limit, cursor } => {
                    &&& a.resolved matches Some(Ok(v)) && vault == v@
                    &&& section == "project-map"@
                    &&& limit == 200
                    &&& cursor == scan.cursor
                },
                _ => false,
            }
            &&& !trust.authenticated() ==> g == HttpGate::Refuse(StatusCode::Unauthorized)
            &&& trust.authenticated() && (a.resolved matches Some(Err(_))) ==> g
                == HttpGate::Refuse(a.resolved->0->Err_0)
            &&& trust.authenticated() && (a.resolved matches Some(Ok(_))) && (scan.exhausted
                || scan.pages >= 50) ==> g is Pass
            &&& trust.authenticated() && (a.resolved matches Some(Ok(_))) && !scan.exhausted
                && scan.pages < 50 ==> match a.map_page {
                None => g is Ask && g->Ask_0 is MapPage,
                Some(Err(_)) => g == HttpGate::Refuse(StatusCode::InternalServerError),
                Some(Ok(_)) => g is Pass,
            }
        }),
{
}

/// A card is shown as it was found, and cards come in the order in which they were found.
pub proof fn cards_are_shown_as_they_were_found(
    notes: Seq<CardNote>,
    records: Seq<MapRecord>,
    i: int,
    j: int,
)
    requires
        shows_kept(notes, records),
        0 <= i < j < notes.len(),
    ensures
        exists|x: int, y: int|
            0 <= x < y < records.len() && card_of(#[trigger] records[x], notes[i]) && card_of(
                #[trigger] records[y],
                notes[j],
            ),
{
    let keep = |r: MapRecord| r.status@ != "garbage"@;
    assert(shows(notes[i], kept(records)[i]));
    assert(shows(notes[j], kept(records)[j]));
    order::filtering_keeps_the_order(records, keep, i, j);
    let (x, y) = choose|x: int, y: int|
        0 <= x < y < records.len() && records.filter(keep)[i] == #[trigger] records[x]
            && records.filter(keep)[j] == #[trigger] records[y];
    assert(card_of(records[x], notes[i]));
    assert(card_of(records[y], notes[j]));
}

/// Whether a card shows a note: the same note, the same text, its title or none.
pub open spec fn card_of(r: MapRecord, n: CardNote) -> bool {
    &&& n.id@ == r.id@
    &&& n.body@ == r.body_text@
    &&& r.title matches Some(t) ==> n.title@ == t@
    &&& r.title is None ==> n.title@.len() == 0
}

/// A page is taken in after those before it; the next one follows its last note, and there is none
/// once a page is short, once all that there is was fetched, or after fifty pages.
pub proof fn a_page_is_taken_in(s: ScanState, page: Seq<MapRecord>, total: nat)
    ensures
        ({
            let n = scan_step(s, page, total);
            &&& n.records == s.records + page
            &&& n.pages == s.pages + 1
            &&& page.len() > 0 ==> n.cursor == Some(page[page.len() - 1].id@)
            &&& page.len() == 0 ==> n.cursor == s.cursor
            &&& n.exhausted <==> page.len() < 200 || s.records.len() + page.len() >= total
            &&& scan_done(n) <==> n.exhausted || n.pages >= 50
        }),
        scan_start().records.len() == 0 && scan_start().cursor is None && scan_start().pages == 0
            && !scan_done(scan_start()),
{
}

}
