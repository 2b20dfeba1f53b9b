//! What the index, the vault and the queue hand over: rows of plain values.

use vstd::prelude::*;

use crate::error::GradatumError;
use crate::ids::NoteId;
use crate::text;

verus! {

/// The title and the section of a note, as the index has them.
#[derive(Debug)]
pub struct TitleSection {
    pub note_id: String,
    pub title: Option<String>,
    pub section: String,
}

/// The status of a note, as the index has it.
#[derive(Debug)]
pub struct StatusRow {
    pub note_id: String,
    pub status: String,
}

/// The temporal anchor of a note, as the index has it.
#[derive(Debug)]
pub struct AnchorRow {
    pub note_id: String,
    pub anchor_ms: i64,
}

/// A note read from the vault.
#[derive(Debug)]
pub struct VaultNote {
    pub id: NoteId,
    pub body: String,
    /// The heading that opens the body, if one does.
    pub h1_title: Option<String>,
    pub content_hash: Vec<u8>,
    pub section: String,
    pub status: String,
    pub author: Option<String>,
    pub tags: Vec<String>,
    pub vault_id: String,
    pub created_ms: i64,
    pub updated_ms: Option<i64>,
    /// The feature roles that the links of the body carry.
    pub feature_roles: Vec<String>,
}

/// The optional text `o` by its characters.
pub open spec fn opt_text(o: Option<String>) -> Option<Seq<char>> {
    match o {
        Some(s) => Some(s@),
        None => None,
    }
}

/// A copy of an optional text.
pub fn copy_opt(o: &Option<String>) -> (r: Option<String>)
    ensures
        opt_text(r) == opt_text(*o),
        r == *o,
{
    match o {
        Some(s) => Some(s.clone()),
        None => None,
    }
}

/// A copy of a list of texts.
pub fn copy_list(v: &Vec<String>) -> (r: Vec<String>)
    ensures
        r@ == v@,
{
    let mut out: Vec<String> = Vec::new();
    let mut i: usize = 0;
    while i < v.len()
        invariant
            i <= v@.len(),
            out@ == v@.take(i as int),
        decreases v@.len() - i,
    {
        out.push(v[i].clone());
        assert(out@ =~= v@.take(i + 1));
        i = i + 1;
    }
    assert(v@.take(v@.len() as int) =~= v@);
    out
}

/// The position of the first row of `rows`, from `k` on, that is about the note `id`.
pub open spec fn title_row_from(rows: Seq<TitleSection>, id: Seq<char>, k: int) -> Option<int>
    decreases rows.len() - k,
{
    if k < 0 || k >= rows.len() {
        None
    } else if rows[k].note_id@ == id {
        Some(k)
    } else {
        title_row_from(rows, id, k + 1)
    }
}

/// The row about the note `id`, if there is one.
pub open spec fn title_row(rows: Seq<TitleSection>, id: Seq<char>) -> Option<TitleSection> {
    match title_row_from(rows, id, 0) {
        Some(k) => Some(rows[k]),
        None => None,
    }
}

/// The section of the note `id`, if a row is about it.
pub open spec fn section_of(rows: Seq<TitleSection>, id: Seq<char>) -> Option<Seq<char>> {
    match title_row(rows, id) {
        Some(row) => Some(row.section@),
        None => None,
    }
}

/// The row about the note `id`, if there is one.
pub fn find_title<'a>(rows: &'a Vec<TitleSection>, id: &str) -> (r: Option<&'a TitleSection>)
    ensures
        match r {
            Some(row) => title_row(rows@, id@) == Some(*row),
            None => title_row(rows@, id@) is None,
        },
{
    let mut i: usize = 0;
    while i < rows.len()
        invariant
            i <= rows@.len(),
            title_row_from(rows@, id@, 0) == title_row_from(rows@, id@, i as int),
        decreases rows@.len() - i,
    {
        if text::same(rows[i].note_id.as_str(), id) {
            return Some(&rows[i]);
        }
        i = i + 1;
    }
    None
}

/// The position of the first row of `rows`, from `k` on, that is about the note `id`.
pub open spec fn status_row_from(rows: Seq<StatusRow>, id: Seq<char>, k: int) -> Option<int>
    decreases rows.len() - k,
{
    if k < 0 || k >= rows.len() {
        None
    } else if rows[k].note_id@ == id {
        Some(k)
    } else {
        status_row_from(rows, id, k + 1)
    }
}

/// The status of the note `id`, if a row is about it.
pub open spec fn status_of(rows: Seq<StatusRow>, id: Seq<char>) -> Option<Seq<char>> {
    match status_row_from(rows, id, 0) {
        Some(k) => Some(rows[k].status@),
        None => None,
    }
}

/// The status of the note `id`, if a row is about it.
pub fn find_status<'a>(rows: &'a Vec<StatusRow>, id: &str) -> (r: Option<&'a String>)
    ensures
        match r {
            Some(s) => status_of(rows@, id@) == Some(s@),
            None => status_of(rows@, id@) is None,
        },
{
    let mut i: usize = 0;
    while i < rows.len()
        invariant
            i <= rows@.len(),
            status_row_from(rows@, id@, 0) == status_row_from(rows@, id@, i as int),
        decreases rows@.len() - i,
    {
        if text::same(rows[i].note_id.as_str(), id) {
            return Some(&rows[i].status);
        }
        i = i + 1;
    }
    None
}

/// The position of the first row of `rows`, from `k` on, that is about the note `id`.
pub open spec fn anchor_row_from(rows: Seq<AnchorRow>, id: Seq<char>, k: int) -> Option<int>
    decreases rows.len() - k,
{
    if k < 0 || k >= rows.len() {
        None
    } else if rows[k].note_id@ == id {
        Some(k)
    } else {
        anchor_row_from(rows, id, k + 1)
    }
}

/// The temporal anchor of the note `id`, if a row is about it.
pub open spec fn anchor_of(rows: Seq<AnchorRow>, id: Seq<char>) -> Option<i64> {
    match anchor_row_from(rows, id, 0) {
        Some(k) => Some(rows[k].anchor_ms),
        None => None,
    }
}

/// The temporal anchor of the note `id`, if a row is about it.
pub fn find_anchor(rows: &Vec<AnchorRow>, id: &str) -> (r: Option<i64>)
    ensures
        r == anchor_of(rows@, id@),
{
    let mut i: usize = 0;
    while i < rows.len()
        invariant
            i <= rows@.len(),
            anchor_row_from(rows@, id@, 0) == anchor_row_from(rows@, id@, i as int),
        decreases rows@.len() - i,
    {
        if text::same(rows[i].note_id.as_str(), id) {
            return Some(rows[i].anchor_ms);
        }
        i = i + 1;
    }
    None
}

/// A title, unless it is blank.
pub open spec fn nonblank(t: Option<Seq<char>>) -> Option<Seq<char>> {
    match t {
        Some(s) => if text::trimmed(s).len() > 0 {
            Some(s)
        } else {
            None
        },
        None => None,
    }
}

/// A title, unless it is blank.
pub fn keep_nonblank(t: &Option<String>) -> (r: Option<String>)
    ensures
        opt_text(r) == nonblank(opt_text(*t)),
{
    match t {
        Some(s) => if text::trim(s.as_str()).as_str().is_empty() {
            None
        } else {
            Some(s.clone())
        },
        None => None,
    }
}

/// A note in a listing, as the index has it.
#[derive(Debug)]
pub struct NoteRecord {
    pub id: String,
    pub section: String,
    pub body_text: String,
    pub created: i64,
    pub updated: Option<i64>,
}

/// A page of notes, and how many there are in all.
#[derive(Debug)]
pub struct NotePage {
    pub records: Vec<NoteRecord>,
    pub total: u64,
}

/// An archived note.
#[derive(Debug)]
pub struct ArchiveEntry {
    pub note_id: String,
    pub vault_id: String,
    pub section: String,
    pub title: Option<String>,
    pub original_locus: Option<String>,
    pub archive_path: String,
    pub archived_at: i64,
    pub archived_by: Option<String>,
    pub gc_due: i64,
    pub gc_at: Option<i64>,
    pub restored_at: Option<i64>,
}

/// A name and how many notes bear it.
#[derive(Debug)]
pub struct NamedCount {
    pub name: String,
    pub note_count: u64,
}

/// The notes before and after a note.
#[derive(Debug)]
pub struct Lineage {
    pub parents: Vec<String>,
    pub children: Vec<String>,
}

/// A note on the timeline, as the index has it.
#[derive(Debug)]
pub struct TimelineRow {
    pub note_id: NoteId,
    pub anchor_ms: i64,
    pub anchor_src: String,
    pub doc_kind: String,
    pub title: Option<String>,
}

/// A title that names another category than the section hint and the tags of the note.
#[derive(Debug)]
pub struct CategoryDrift {
    /// The rule that tells so.
    pub rule: String,
    /// The category that the title names.
    pub category: String,
    pub expected_section: String,
    /// The section that was hinted at, if one was.
    pub actual_section: Option<String>,
}

/// Where the heuristic would file a note.
#[derive(Debug)]
pub enum CurateOutcome {
    /// A strong match.
    Admitted { section: String },
    /// A best guess.
    Pending { section: String },
    /// No reliable suggestion.
    Rejected,
}

/// One version of a note.
#[derive(Debug)]
pub struct SnapshotRow {
    pub body: String,
    /// The heading that opens the body, if one does.
    pub h1_title: Option<String>,
    pub section: String,
}

/// The notes that both arms of a search found.
#[derive(Debug)]
pub struct Retrieval {
    /// Whether the semantic arm failed.
    pub embed_fallback: bool,
    pub ids: Vec<String>,
}

/// A lesson, as the index has it.
#[derive(Debug)]
pub struct LessonRow {
    pub note_id: NoteId,
    pub title: Option<String>,
    pub snippet: String,
    pub tags: Vec<String>,
    pub anchor_ms: i64,
}

/// A note, as the index has it.
#[derive(Debug)]
pub struct IndexedNote {
    pub section: String,
    pub title: Option<String>,
    pub body_text: String,
    pub content_hash: Vec<u8>,
}

/// What became of a note that was moved to the archive.
#[derive(Debug)]
pub struct Archived {
    /// What went wrong in the index, if something did.
    pub index_error: Option<GradatumError>,
    pub archive_path: Option<String>,
}

/// A note that may be forgotten.
#[derive(Debug)]
pub struct Candidate {
    pub ulid: String,
    pub section: String,
}

/// A forgotten note, as the index has it.
#[derive(Debug)]
pub struct ForgottenRow {
    pub ulid: String,
    pub title: Option<String>,
    pub section: String,
    pub forgotten_at_ms: Option<i64>,
    pub forgotten_by: Option<String>,
}

/// A symbol of a code vault, as the index has it.
#[derive(Debug)]
pub struct CodeScopeEntryRaw {
    pub note_id: NoteId,
    pub source_path: String,
    pub kind: String,
    pub qualified_name: String,
    pub signature: Option<String>,
    pub deps: Vec<String>,
    /// How well the symbol matches: the bits of a floating-point number, lower is better.
    pub score_bits: u64,
    /// The first and the last line, counted from one.
    pub span: Option<(u32, u32)>,
}

/// The hash that a file had when it was indexed.
#[derive(Debug)]
pub struct PathHash {
    pub path: String,
    pub hash: String,
}

/// The contents of a file.
#[derive(Debug)]
pub struct SourceFile {
    pub path: String,
    pub bytes: Vec<u8>,
}

/// The symbols that depend on a symbol.
#[derive(Debug)]
pub struct CallersRow {
    pub name: String,
    pub callers: Vec<String>,
}

/// Why a batch of events was not appended.
#[derive(Debug, Clone, Copy, PartialEq, Eq, Structural)]
pub enum EventLogError {
    /// An event has no sound timestamp.
    BadTimestamp,
    /// The store failed.
    Store,
}

/// A note of the project map, from the index.
#[derive(Debug)]
pub struct MapRecord {
    pub id: String,
    pub title: Option<String>,
    pub body_text: String,
    pub status: String,
}

/// A page of the notes of the project map.
#[derive(Debug)]
pub struct MapPage {
    pub records: Vec<MapRecord>,
    /// How many notes there are on all pages.
    pub total: u64,
}

/// A note that waits for a judgment, from the index.
#[derive(Debug)]
pub struct ReviewRow {
    pub note_id: NoteId,
    pub title: Option<String>,
    pub section: String,
    pub locus: Option<String>,
    pub status: String,
    pub provenance: Option<String>,
    pub created_ms: i64,
}

/// An optional text by its contents is that text.
pub proof fn an_optional_text_is_kept(o: Option<String>)
    ensures
        opt_text(o) is Some <==> o is Some,
        o matches Some(s) ==> opt_text(o) == Some(s@),
{
}

/// The row that is taken for a note is the first that is about it.
pub proof fn the_first_row_counts(rows: Seq<TitleSection>, id: Seq<char>, k: int)
    requires
        0 <= k < rows.len(),
        rows[k].note_id@ == id,
        forall|j: int| 0 <= j < k ==> (#[trigger] rows[j]).note_id@ != id,
    ensures
        title_row(rows, id) == Some(rows[k]),
        section_of(rows, id) == Some(rows[k].section@),
{
    lemma_title_row_from(rows, id, 0, k);
}

/// There is a row for a note only if one is about it.
pub proof fn a_row_is_about_its_note(rows: Seq<TitleSection>, id: Seq<char>)
    ensures
        title_row(rows, id) matches Some(row) ==> row.note_id@ == id && rows.contains(row),
        title_row(rows, id) is None <==> forall|j: int|
            0 <= j < rows.len() ==> (#[trigger] rows[j]).note_id@ != id,
        section_of(rows, id) is Some <==> title_row(rows, id) is Some,
{
    lemma_title_row_found(rows, id, 0);
}

proof fn lemma_title_row_from(rows: Seq<TitleSection>, id: Seq<char>, i: int, k: int)
    requires
        0 <= i <= k < rows.len(),
        rows[k].note_id@ == id,
        forall|j: int| 0 <= j < k ==> (#[trigger] rows[j]).note_id@ != id,
    ensures
        title_row_from(rows, id, i) == Some(k),
    decreases k - i,
{
    if i < k {
        lemma_title_row_from(rows, id, i + 1, k);
    }
}

proof fn lemma_title_row_found(rows: Seq<TitleSection>, id: Seq<char>, i: int)
    requires
        0 <= i <= rows.len(),
    ensures
        title_row_from(rows, id, i) matches Some(k) ==> i <= k < rows.len() && rows[k].note_id@
            == id,
        title_row_from(rows, id, i) is None <==> forall|j: int|
            i <= j < rows.len() ==> (#[trigger] rows[j]).note_id@ != id,
    decreases rows.len() - i,
{
    if i < rows.len() {
        lemma_title_row_found(rows, id, i + 1);
    }
}

/// The status of a note is that of the first row about it, and there is none without such a row.
pub proof fn the_first_status_counts(rows: Seq<StatusRow>, id: Seq<char>, k: int)
    ensures
        0 <= k < rows.len() && rows[k].note_id@ == id && (forall|j: int|
            0 <= j < k ==> (#[trigger] rows[j]).note_id@ != id) ==> status_of(rows, id) == Some(
            rows[k].status@,
        ),
        status_of(rows, id) is None <==> forall|j: int|
            0 <= j < rows.len() ==> (#[trigger] rows[j]).note_id@ != id,
{
    lemma_status_row_found(rows, id, 0);
}

proof fn lemma_status_row_found(rows: Seq<StatusRow>, id: Seq<char>, i: int)
    requires
        0 <= i <= rows.len(),
    ensures
        status_row_from(rows, id, i) matches Some(k) ==> i <= k < rows.len() && rows[k].note_id@
            == id && forall|j: int| i <= j < k ==> (#[trigger] rows[j]).note_id@ != id,
        status_row_from(rows, id, i) is None <==> forall|j: int|
            i <= j < rows.len() ==> (#[trigger] rows[j]).note_id@ != id,
    decreases rows.len() - i,
{
    if i < rows.len() {
        lemma_status_row_found(rows, id, i + 1);
    }
}

/// The anchor of a note is that of the first row about it, and there is none without such a row.
pub proof fn the_first_anchor_counts(rows: Seq<AnchorRow>, id: Seq<char>, k: int)
    ensures
        0 <= k < rows.len() && rows[k].note_id@ == id && (forall|j: int|
            0 <= j < k ==> (#[trigger] rows[j]).note_id@ != id) ==> anchor_of(rows, id) == Some(
            rows[k].anchor_ms,
        ),
        anchor_of(rows, id) is None <==> forall|j: int|
            0 <= j < rows.len() ==> (#[trigger] rows[j]).note_id@ != id,
{
    lemma_anchor_row_found(rows, id, 0);
}

proof fn lemma_anchor_row_found(rows: Seq<AnchorRow>, id: Seq<char>, i: int)
    requires
        0 <= i <= rows.len(),
    ensures
        anchor_row_from(rows, id, i) matches Some(k) ==> i <= k < rows.len() && rows[k].note_id@
            == id && forall|j: int| i <= j < k ==> (#[trigger] rows[j]).note_id@ != id,
        anchor_row_from(rows, id, i) is None <==> forall|j: int|
            i <= j < rows.len() ==> (#[trigger] rows[j]).note_id@ != id,
    decreases rows.len() - i,
{
    if i < rows.len() {
        lemma_anchor_row_found(rows, id, i + 1);
    }
}

/// A title counts unless it is blank.
pub proof fn a_blank_title_is_none(t: Option<Seq<char>>)
    ensures
        nonblank(t) is Some ==> nonblank(t) == t,
        t matches Some(s) ==> (nonblank(t) is None <==> text::trimmed(s).len() == 0),
{
}

}
