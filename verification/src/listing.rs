//! Lists of what a vault holds: its notes, its archive, its state, its authors and its tags.

use vstd::prelude::*;
use vstd::string::*;

use crate::access;
use crate::dto::{
    AuthorEntry, TagEntry, VaultAuthorsResponse, VaultEntry, VaultListRequest, VaultListResponse,
    VaultStatusResponse, VaultTagsResponse,
};
use crate::error::{GradatumError, Refusal};
use crate::flow::{self, AclOp, Answers, Ask, Denial, Gate, Next, Question, Stop};
use crate::identity;
use crate::ids;
use crate::order;
use crate::rows::{self, ArchiveEntry, NamedCount, NoteRecord};
use crate::text;
use crate::trust::TrustContext;

verus! {

// ── Notes ───────────────────────────────────────────────────────────────────

/// How many notes a page has: twenty unless the request says otherwise, from one to two
/// hundred.
pub open spec fn page_size(limit: Option<u32>) -> nat {
    let n: nat = match limit {
        Some(n) => n as nat,
        None => 20,
    };
    if n < 1 {
        1
    } else if n > 200 {
        200
    } else {
        n
    }
}

/// How many notes a page has.
pub fn page_limit(limit: Option<u32>) -> (r: usize)
    ensures
        r == page_size(limit),
        1 <= r <= 200,
{
    let n: u32 = match limit {
        Some(n) => n,
        None => 20,
    };
    if n < 1 {
        1
    } else if n > 200 {
        200
    } else {
        n as usize
    }
}

/// Whether a page holds as many notes as it can, so that more may follow.
pub open spec fn full(req: VaultListRequest, records: Seq<NoteRecord>) -> bool {
    records.len() >= page_size(req.limit)
}

/// The first reason not to list notes, or the next question about them. When the page is full,
/// the index is asked whether a note follows its last one.
pub open spec fn list_gate(trust: TrustContext, req: VaultListRequest, a: Answers) -> Gate {
    let section = rows::opt_text(req.section);
    flow::chain(
        access::access_gate(
            trust,
            rows::opt_text(req.tenant_id),
            a,
            AclOp::Read,
            section,
            "acl deny"@,
        ),
        match a.notes {
            None => Gate::Ask(
                Question::ListNotes {
                    tenant: access::tenant_of(a),
                    section,
                    role_kind: rows::opt_text(req.role_kind),
                    role_status: rows::opt_text(req.role_status),
                    limit: page_size(req.limit),
                    cursor: rows::opt_text(req.cursor),
                },
            ),
            Some(Err(e)) => Gate::Fail(flow::silent(e@)),
            Some(Ok(page)) => if !full(req, page.records@) {
                Gate::Pass
            } else {
                match a.following {
                    None => Gate::Ask(
                        Question::FollowingNotes {
                            tenant: access::tenant_of(a),
                            section,
                            role_kind: rows::opt_text(req.role_kind),
                            role_status: rows::opt_text(req.role_status),
                            limit: 1,
                            cursor: page.records@.last().id@,
                        },
                    ),
                    Some(Err(e)) => Gate::Fail(flow::silent(e@)),
                    Some(Ok(_)) => Gate::Pass,
                }
            },
        },
    )
}

/// The notes that the caller sees.
pub open spec fn visible(records: Seq<NoteRecord>, privileged: bool) -> Seq<NoteRecord> {
    records.filter(|r: NoteRecord| !identity::section_hidden(privileged, r.section@))
}

/// When a note was last changed.
pub open spec fn changed_at(r: NoteRecord) -> i64 {
    match r.updated {
        Some(ms) => ms,
        None => r.created,
    }
}

/// Whether `e` shows the note `r`.
pub open spec fn shows(r: NoteRecord, e: VaultEntry) -> bool {
    &&& e.path@ == r.section@ + "/"@ + r.id@
    &&& e.size_bytes == text::byte_length(r.body_text@)
    &&& e.modified_at@ == match ids::utc_seconds(changed_at(r)) {
        Some(t) => t,
        None => ""@,
    }
}

/// Whether the entries show the notes, one by one.
pub open spec fn shows_all(records: Seq<NoteRecord>, entries: Seq<VaultEntry>) -> bool {
    &&& entries.len() == records.len()
    &&& forall|i: int| 0 <= i < records.len() ==> shows(records[i], #[trigger] entries[i])
}

fn show(r: &NoteRecord) -> (e: VaultEntry)
    ensures
        shows(*r, e),
{
    let ms: i64 = match r.updated {
        Some(ms) => ms,
        None => r.created,
    };
    let mut path = text::cat(r.section.as_str(), "/");
    path.append(r.id.as_str());
    VaultEntry {
        path,
        size_bytes: text::byte_len(r.body_text.as_str()) as u64,
        modified_at: match ids::utc_seconds_text(ms) {
            Some(t) => t,
            None => "".to_owned(),
        },
    }
}

fn show_visible(records: &Vec<NoteRecord>, privileged: bool) -> (r: Vec<VaultEntry>)
    ensures
        shows_all(visible(records@, privileged), r@),
{
    let ghost keep = |r: NoteRecord| !identity::section_hidden(privileged, r.section@);
    let mut out: Vec<VaultEntry> = Vec::new();
    let mut i: usize = 0;
    proof {
        reveal(Seq::filter);
        assert(records@.take(0).filter(keep) =~= Seq::empty());
    }
    while i < records.len()
        invariant
            i <= records@.len(),
            keep == (|r: NoteRecord| !identity::section_hidden(privileged, r.section@)),
            shows_all(records@.take(i as int).filter(keep), out@),
        decreases records@.len() - i,
    {
        proof {
            reveal(Seq::filter);
            assert(records@.take(i + 1).drop_last() =~= records@.take(i as int));
            assert(records@.take(i + 1).last() == records@[i as int]);
        }
        let r = &records[i];
        if !identity::identity_section_hidden(privileged, r.section.as_str()) {
            out.push(show(r));
        }
        i = i + 1;
    }
    assert(records@.take(records@.len() as int) =~= records@);
    out
}

/// Whether notes follow the page.
pub open spec fn more_follow(req: VaultListRequest, a: Answers) -> bool {
    full(req, a.notes->0->Ok_0.records@) && a.following->0->Ok_0.records@.len() > 0
}

/// Whether `r` is the page: the notes that the caller sees, and the last note that was looked at
/// where the next page begins, whether the caller sees it or not, when there is a next page.
pub open spec fn list_reply(
    trust: TrustContext,
    req: VaultListRequest,
    a: Answers,
    r: VaultListResponse,
) -> bool {
    let page = a.notes->0->Ok_0;
    &&& shows_all(visible(page.records@, identity::identity_privileged(trust)), r.entries@)
    &&& rows::opt_text(r.next_cursor) == if more_follow(req, a) {
        Some(page.records@.last().id@)
    } else {
        None
    }
    &&& r.total == page.total
}

/// Lists the notes of a vault, page by page.
pub fn vault_list_impl(trust: &TrustContext, req: &VaultListRequest, a: &Answers) -> (r: Next<
    VaultListResponse,
>)
    ensures
        flow::follows(r, list_gate(*trust, *req, *a)),
        r matches Next::Reply(x) ==> list_reply(*trust, *req, *a, x),
{
    let section = access::as_deref(&req.section);
    let tenant = match access::enter(trust, &req.tenant_id, a, AclOp::Read, section, "acl deny") {
        Ok(t) => t,
        Err(s) => return s.next(),
    };
    let limit = page_limit(req.limit);
    let page = match &a.notes {
        None => return Next::Ask(
            Ask::ListNotes {
                tenant,
                section: rows::copy_opt(&req.section),
                role_kind: rows::copy_opt(&req.role_kind),
                role_status: rows::copy_opt(&req.role_status),
                limit,
                cursor: rows::copy_opt(&req.cursor),
            },
        ),
        Some(Err(e)) => return Next::Fail(Denial::plain(e.copy())),
        Some(Ok(page)) => page,
    };
    let n: usize = page.records.len();
    let next_cursor = if n >= limit {
        let last = &page.records[n - 1].id;
        match &a.following {
            None => return Next::Ask(
                Ask::FollowingNotes {
                    tenant,
                    section: rows::copy_opt(&req.section),
                    role_kind: rows::copy_opt(&req.role_kind),
                    role_status: rows::copy_opt(&req.role_status),
                    limit: 1,
                    cursor: last.clone(),
                },
            ),
            Some(Err(e)) => return Next::Fail(Denial::plain(e.copy())),
            Some(Ok(next)) => if next.records.len() > 0 {
                Some(last.clone())
            } else {
                None
            },
        }
    } else {
        None
    };
    let entries = show_visible(&page.records, identity::is_identity_privileged(trust));
    Next::Reply(VaultListResponse { entries, next_cursor, total: page.total })
}

// ── The archive ─────────────────────────────────────────────────────────────

/// A page of the archive.
#[derive(Debug)]
pub struct VaultArchivesListRequest {
    pub tenant_id: Option<String>,
    /// The vault to look at, when it is not the caller's own.
    pub vault_filter: Option<String>,
    pub section: Option<String>,
    pub since_ms: Option<i64>,
    pub until_ms: Option<i64>,
    pub include_gc: bool,
    pub include_restored: bool,
    pub limit: usize,
    pub offset: usize,
}

/// An archived note.
#[derive(Debug)]
pub struct ArchiveEntryDto {
    pub note_id: String,
    pub vault_id: String,
    pub section: String,
    pub title: Option<String>,
    pub original_locus: Option<String>,
    pub archive_path: String,
    pub archived_at: i64,
    pub archived_by: Option<String>,
    pub gc_due: i64,
    pub gc_at: Option<i64>,
    pub restored_at: Option<i64>,
}

/// A page of the archive.
#[derive(Debug)]
pub struct VaultArchivesListResponse {
    pub entries: Vec<ArchiveEntryDto>,
    pub limit: usize,
    pub offset: usize,
    pub count: usize,
}

/// How the service is set up.
#[derive(Debug)]
pub struct ListingSettings {
    /// Whether vaults of several tenants are served.
    pub multi_tenant: bool,
    /// How many archived notes a page has, at most.
    pub archive_list_max: usize,
}

/// Whether `d` shows the archived note `e`.
pub open spec fn archive_shown(e: ArchiveEntry, d: ArchiveEntryDto) -> bool {
    &&& d.note_id@ == e.note_id@
    &&& d.vault_id@ == e.vault_id@
    &&& d.section@ == e.section@
    &&& d.title == e.title
    &&& d.original_locus == e.original_locus
    &&& d.archive_path@ == e.archive_path@
    &&& d.archived_at == e.archived_at
    &&& d.archived_by == e.archived_by
    &&& d.gc_due == e.gc_due
    &&& d.gc_at == e.gc_at
    &&& d.restored_at == e.restored_at
}

/// Shows an archived note.
pub fn archive_entry_to_dto(e: &ArchiveEntry) -> (d: ArchiveEntryDto)
    ensures
        archive_shown(*e, d),
{
    ArchiveEntryDto {
        note_id: e.note_id.clone(),
        vault_id: e.vault_id.clone(),
        section: e.section.clone(),
        title: rows::copy_opt(&e.title),
        original_locus: rows::copy_opt(&e.original_locus),
        archive_path: e.archive_path.clone(),
        archived_at: e.archived_at,
        archived_by: rows::copy_opt(&e.archived_by),
        gc_due: e.gc_due,
        gc_at: e.gc_at,
        restored_at: e.restored_at,
    }
}

/// How many archived notes a page has.
pub open spec fn archive_limit(req: VaultArchivesListRequest, st: ListingSettings) -> usize {
    if req.limit > st.archive_list_max {
        st.archive_list_max
    } else {
        req.limit
    }
}

/// The question for a page of the archive of `vault`, or of all vaults.
pub open spec fn archive_question(
    req: VaultArchivesListRequest,
    st: ListingSettings,
    vault: Option<Seq<char>>,
) -> Question {
    Question::Archives {
        vault,
        section: rows::opt_text(req.section),
        since_ms: req.since_ms,
        until_ms: req.until_ms,
        include_gc: req.include_gc,
        include_restored: req.include_restored,
        limit: archive_limit(req, st) as nat,
        offset: req.offset as nat,
    }
}

/// The page of the archive of `vault`, or the question for it.
pub open spec fn archive_gate(
    req: VaultArchivesListRequest,
    st: ListingSettings,
    vault: Option<Seq<char>>,
    a: Answers,
) -> Gate {
    match a.archives {
        None => Gate::Ask(archive_question(req, st, vault)),
        Some(Err(e)) => Gate::Fail(flow::silent(e@)),
        Some(Ok(_)) => Gate::Pass,
    }
}

/// Whether `r` is the page of the archive.
pub open spec fn archive_reply(
    req: VaultArchivesListRequest,
    st: ListingSettings,
    a: Answers,
    r: VaultArchivesListResponse,
) -> bool {
    let found = a.archives->0->Ok_0@;
    &&& r.entries@.len() == found.len()
    &&& forall|i: int| 0 <= i < found.len() ==> archive_shown(found[i], #[trigger] r.entries@[i])
    &&& r.limit == archive_limit(req, st)
    &&& r.offset == req.offset
    &&& r.count == found.len()
}

/// Lists the archive of `vault`, or of all vaults, for a caller whose right is established.
pub fn list_archives_core(
    req: &VaultArchivesListRequest,
    st: &ListingSettings,
    vault: Option<String>,
    a: &Answers,
) -> (r: Next<VaultArchivesListResponse>)
    ensures
        flow::follows(r, archive_gate(*req, *st, rows::opt_text(vault), *a)),
        r matches Next::Reply(x) ==> archive_reply(*req, *st, *a, x),
{
    let limit: usize = if req.limit > st.archive_list_max {
        st.archive_list_max
    } else {
        req.limit
    };
    let found = match &a.archives {
        None => return Next::Ask(
            Ask::Archives {
                vault,
                section: rows::copy_opt(&req.section),
                since_ms: req.since_ms,
                until_ms: req.until_ms,
                include_gc: req.include_gc,
                include_restored: req.include_restored,
                limit,
                offset: req.offset,
            },
        ),
        Some(Err(e)) => return Next::Fail(Denial::plain(e.copy())),
        Some(Ok(found)) => found,
    };
    let mut entries: Vec<ArchiveEntryDto> = Vec::new();
    let mut i: usize = 0;
    while i < found.len()
        invariant
            i <= found@.len(),
            entries@.len() == i,
            forall|k: int| 0 <= k < i ==> archive_shown(found@[k], #[trigger] entries@[k]),
        decreases found@.len() - i,
    {
        entries.push(archive_entry_to_dto(&found[i]));
        i = i + 1;
    }
    Next::Reply(
        VaultArchivesListResponse { entries, limit, offset: req.offset, count: found.len() },
    )
}

/// The vault whose archive the caller may list. Where vaults of several tenants are served, the
/// named vault is checked; elsewhere only `main` can be named.
pub open spec fn archive_right_gate(
    trust: TrustContext,
    req: VaultArchivesListRequest,
    st: ListingSettings,
    a: Answers,
) -> Gate {
    let named = rows::opt_text(req.vault_filter);
    if !trust.authenticated() {
        Gate::Fail(flow::silent(Refusal::Unauthorized))
    } else if a.tenant is None {
        Gate::Ask(Question::Tenant { requested: rows::opt_text(req.tenant_id) })
    } else if a.tenant->0 is None {
        Gate::Fail(flow::silent(Refusal::Forbidden("tenant cross mismatch"@)))
    } else if st.multi_tenant {
        match a.read_vault {
            None => Gate::Ask(
                Question::ReadVault {
                    tenant: access::tenant_of(a),
                    vault: named,
                    section: None,
                    deny: "acl deny"@,
                },
            ),
            Some(Err(e)) => Gate::Fail(flow::silent(e@)),
            Some(Ok(_)) => Gate::Pass,
        }
    } else {
        match a.acl {
            None => Gate::Ask(
                Question::Acl {
                    op: AclOp::Read,
                    locus: access::locus_text(access::tenant_of(a), None),
                },
            ),
            Some(false) => Gate::Fail(flow::silent(Refusal::Forbidden("acl deny"@))),
            Some(true) => match named {
                None => Gate::Pass,
                Some(v) => if v.len() == 0 || text::byte_length(v) > 128 {
                    Gate::Fail(flow::silent(Refusal::InvalidInput("invalid vault_filter"@)))
                } else if v != "main"@ {
                    Gate::Fail(
                        flow::silent(
                            Refusal::Forbidden(
                                "cross-read vault_filter ≠ main not supported (mono-vault)"@,
                            ),
                        ),
                    )
                } else {
                    Gate::Pass
                },
            },
        }
    }
}

/// The vault whose archive is listed.
pub open spec fn archive_vault(st: ListingSettings, a: Answers) -> Seq<char> {
    if st.multi_tenant {
        a.read_vault->0->Ok_0@
    } else {
        access::tenant_of(a)
    }
}

fn enter_archive(
    trust: &TrustContext,
    req: &VaultArchivesListRequest,
    st: &ListingSettings,
    a: &Answers,
) -> (r: Result<String, Stop>)
    ensures
        match r {
            Ok(v) => archive_right_gate(*trust, *req, *st, *a) is Pass && v@ == archive_vault(
                *st,
                *a,
            ),
            Err(s) => archive_right_gate(*trust, *req, *st, *a) == s@,
        },
{
    if !trust.is_authenticated() {
        return Err(Stop::Fail(Denial::plain(GradatumError::Unauthorized)));
    }
    let tenant = match &a.tenant {
        None => return Err(
            Stop::Ask(Ask::Tenant { requested: rows::copy_opt(&req.tenant_id) }),
        ),
        Some(None) => return Err(Stop::Fail(Denial::forbidden("tenant cross mismatch"))),
        Some(Some(t)) => t.clone(),
    };
    if st.multi_tenant {
        return match &a.read_vault {
            None => Err(
                Stop::Ask(
                    Ask::ReadVault {
                        tenant,
                        vault: rows::copy_opt(&req.vault_filter),
                        section: None,
                        deny: "acl deny".to_owned(),
                    },
                ),
            ),
            Some(Err(e)) => Err(Stop::failed(e)),
            Some(Ok(v)) => Ok(v.clone()),
        };
    }
    match a.acl {
        None => return Err(
            Stop::Ask(
                Ask::Acl { op: AclOp::Read, locus: access::locus_for_tenant(tenant.as_str()) },
            ),
        ),
        Some(false) => return Err(Stop::Fail(Denial::forbidden("acl deny"))),
        Some(true) => {},
    }
    if let Some(v) = &req.vault_filter {
        if v.as_str().is_empty() || text::byte_len(v.as_str()) > 128 {
            return Err(Stop::Fail(Denial::invalid("invalid vault_filter")));
        }
        if !text::same(v.as_str(), "main") {
            return Err(
                Stop::Fail(
                    Denial::forbidden("cross-read vault_filter ≠ main not supported (mono-vault)"),
                ),
            );
        }
    }
    Ok(tenant)
}

/// The right to the archive of a vault, and the page of it. The vault that was checked is the one
/// that is listed.
pub open spec fn archives_gate(
    trust: TrustContext,
    req: VaultArchivesListRequest,
    st: ListingSettings,
    a: Answers,
) -> Gate {
    flow::chain(
        archive_right_gate(trust, req, st, a),
        archive_gate(req, st, Some(archive_vault(st, a)), a),
    )
}

/// Lists the archive of a vault. The vault that was checked is the one that is listed.
pub fn vault_archives_list_impl(
    trust: &TrustContext,
    req: &VaultArchivesListRequest,
    st: &ListingSettings,
    a: &Answers,
) -> (r: Next<VaultArchivesListResponse>)
    ensures
        flow::follows(r, archives_gate(*trust, *req, *st, *a)),
        r matches Next::Reply(x) ==> archive_reply(*req, *st, *a, x),
{
    match enter_archive(trust, req, st, a) {
        Ok(vault) => list_archives_core(req, st, Some(vault), a),
        Err(s) => s.next(),
    }
}

// ── The caller's own vault ──────────────────────────────────────────────────

/// The right to look at the caller's own vault: `main`, or the vault of its tenant where vaults
/// of several tenants are served. A caller without a tenant is told `absent`, one whose tenant
/// is refused `mismatch`.
pub open spec fn own_gate(
    trust: TrustContext,
    multi_tenant: bool,
    absent: Seq<char>,
    mismatch: Seq<char>,
    a: Answers,
) -> Gate {
    if !trust.authenticated() {
        Gate::Fail(flow::silent(Refusal::Unauthorized))
    } else if multi_tenant && trust.tenant_view() is None {
        Gate::Fail(flow::silent(Refusal::Forbidden(absent)))
    } else if multi_tenant && a.tenant is None {
        Gate::Ask(Question::Tenant { requested: trust.tenant_view() })
    } else if multi_tenant && a.tenant->0 is None {
        Gate::Fail(flow::silent(Refusal::Forbidden(mismatch)))
    } else {
        match a.acl {
            None => Gate::Ask(
                Question::Acl {
                    op: AclOp::Read,
                    locus: access::locus_text(own_vault(multi_tenant, a), None),
                },
            ),
            Some(false) => Gate::Fail(flow::silent(Refusal::Forbidden("acl deny"@))),
            Some(true) => Gate::Pass,
        }
    }
}

/// The caller's own vault.
pub open spec fn own_vault(multi_tenant: bool, a: Answers) -> Seq<char> {
    if multi_tenant {
        access::tenant_of(a)
    } else {
        "main"@
    }
}

fn enter_own(
    trust: &TrustContext,
    multi_tenant: bool,
    absent: &str,
    mismatch: &str,
    a: &Answers,
) -> (r: Result<String, Stop>)
    ensures
        match r {
            Ok(v) => own_gate(*trust, multi_tenant, absent@, mismatch@, *a) is Pass && v@
                == own_vault(multi_tenant, *a),
            Err(s) => own_gate(*trust, multi_tenant, absent@, mismatch@, *a) == s@,
        },
{
    if !trust.is_authenticated() {
        return Err(Stop::Fail(Denial::plain(GradatumError::Unauthorized)));
    }
    let vault = if multi_tenant {
        let principal = match trust.tenant_id() {
            Some(t) => t.clone(),
            None => return Err(Stop::Fail(Denial::forbidden(absent))),
        };
        match &a.tenant {
            None => return Err(Stop::Ask(Ask::Tenant { requested: Some(principal) })),
            Some(None) => return Err(Stop::Fail(Denial::forbidden(mismatch))),
            Some(Some(t)) => t.clone(),
        }
    } else {
        "main".to_owned()
    };
    match a.acl {
        None => Err(
            Stop::Ask(
                Ask::Acl { op: AclOp::Read, locus: access::locus_for_tenant(vault.as_str()) },
            ),
        ),
        Some(false) => Err(Stop::Fail(Denial::forbidden("acl deny"))),
        Some(true) => Ok(vault),
    }
}

/// The first reason not to tell the state of a vault, or the next question about it. A number
/// that cannot be had is no failure; the moment of the last indexing is.
pub open spec fn status_gate(trust: TrustContext, st: ListingSettings, a: Answers) -> Gate {
    let v = own_vault(st.multi_tenant, a);
    flow::chain(
        own_gate(trust, st.multi_tenant, "acl deny"@, "acl deny"@, a),
        if a.live_count is None {
            Gate::Ask(Question::LiveCount { tenant: v })
        } else if a.body_size is None {
            Gate::Ask(Question::BodySize { tenant: v })
        } else {
            match a.last_indexed {
                None => Gate::Ask(Question::LastIndexed { tenant: v }),
                Some(Err(e)) => Gate::Fail(flow::silent(e@)),
                Some(Ok(_)) => Gate::Pass,
            }
        },
    )
}

/// A number, or zero when it could not be had.
pub open spec fn or_zero(n: Result<u64, GradatumError>) -> u64 {
    match n {
        Ok(n) => n,
        Err(_) => 0,
    }
}

fn number(n: &Result<u64, GradatumError>) -> (r: u64)
    ensures
        r == or_zero(*n),
{
    match n {
        Ok(n) => *n,
        Err(_) => 0,
    }
}

/// What is told of the state of a vault.
pub open spec fn status_reply(st: ListingSettings, a: Answers, x: VaultStatusResponse) -> bool {
    &&& x.tenant_id@ == own_vault(st.multi_tenant, a)
    &&& x.note_count == or_zero(a.live_count->0)
    &&& x.total_size_bytes == or_zero(a.body_size->0)
    &&& x.index_version@ == "v1"@
    &&& rows::opt_text(x.last_indexed_at) == match a.last_indexed->0->Ok_0 {
        Some(ms) => ids::utc_seconds(ms),
        None => None,
    }
    &&& x.health@ == "healthy"@
}

/// Tells the state of the caller's vault.
pub fn vault_status_impl(trust: &TrustContext, st: &ListingSettings, a: &Answers) -> (r: Next<
    VaultStatusResponse,
>)
    ensures
        flow::follows(r, status_gate(*trust, *st, *a)),
        r matches Next::Reply(x) ==> status_reply(*st, *a, x),
{
    let vault = match enter_own(trust, st.multi_tenant, "acl deny", "acl deny", a) {
        Ok(v) => v,
        Err(s) => return s.next(),
    };
    let note_count: u64 = match &a.live_count {
        None => return Next::Ask(Ask::LiveCount { tenant: vault }),
        Some(n) => number(n),
    };
    let total_size_bytes: u64 = match &a.body_size {
        None => return Next::Ask(Ask::BodySize { tenant: vault }),
        Some(n) => number(n),
    };
    let last_indexed_at = match &a.last_indexed {
        None => return Next::Ask(Ask::LastIndexed { tenant: vault }),
        Some(Err(e)) => return Next::Fail(Denial::plain(e.copy())),
        Some(Ok(Some(ms))) => ids::utc_seconds_text(*ms),
        Some(Ok(None)) => None,
    };
    Next::Reply(
        VaultStatusResponse {
            tenant_id: vault,
            note_count,
            total_size_bytes,
            index_version: "v1".to_owned(),
            last_indexed_at,
            health: "healthy".to_owned(),
        },
    )
}

/// The first reason not to list authors, or the next question about them.
pub open spec fn authors_gate(trust: TrustContext, st: ListingSettings, a: Answers) -> Gate {
    flow::chain(
        own_gate(
            trust,
            st.multi_tenant,
            "no tenant in context"@,
            "tenant cross mismatch"@,
            a,
        ),
        match a.authors {
            None => Gate::Ask(Question::Authors { vault: own_vault(st.multi_tenant, a) }),
            Some(Err(e)) => Gate::Fail(flow::silent(e@)),
            Some(Ok(_)) => Gate::Pass,
        },
    )
}

/// What is told of the authors of a vault.
pub open spec fn authors_reply(found: Seq<NamedCount>, x: VaultAuthorsResponse) -> bool {
    &&& x.authors@.len() == found.len()
    &&& forall|i: int|
        0 <= i < found.len() ==> (#[trigger] x.authors@[i]).name@ == found[i].name@
            && x.authors@[i].note_count == found[i].note_count
}

/// Lists the authors of the caller's vault.
pub fn vault_authors_impl(trust: &TrustContext, st: &ListingSettings, a: &Answers) -> (r: Next<
    VaultAuthorsResponse,
>)
    ensures
        flow::follows(r, authors_gate(*trust, *st, *a)),
        r matches Next::Reply(x) ==> authors_reply(a.authors->0->Ok_0@, x),
{
    let vault = match enter_own(
        trust,
        st.multi_tenant,
        "no tenant in context",
        "tenant cross mismatch",
        a,
    ) {
        Ok(v) => v,
        Err(s) => return s.next(),
    };
    let found = match &a.authors {
        None => return Next::Ask(Ask::Authors { vault }),
        Some(Err(e)) => return Next::Fail(Denial::plain(e.copy())),
        Some(Ok(found)) => found,
    };
    let mut authors: Vec<AuthorEntry> = Vec::new();
    let mut i: usize = 0;
    while i < found.len()
        invariant
            i <= found@.len(),
            authors@.len() == i,
            forall|k: int|
                0 <= k < i ==> (#[trigger] authors@[k]).name@ == found@[k].name@
                    && authors@[k].note_count == found@[k].note_count,
        decreases found@.len() - i,
    {
        authors.push(
            AuthorEntry { name: found[i].name.clone(), note_count: found[i].note_count },
        );
        i = i + 1;
    }
    Next::Reply(VaultAuthorsResponse { authors })
}

/// How many tags are listed when the request does not say.
pub const DEFAULT_TAGS_LIMIT: usize = 50;

/// A list of tags.
#[derive(Debug)]
pub struct VaultTagsRequest {
    pub limit: Option<usize>,
}

/// The first reason not to list tags, or the next question about them.
pub open spec fn tags_gate(trust: TrustContext, st: ListingSettings, a: Answers) -> Gate {
    flow::chain(
        own_gate(
            trust,
            st.multi_tenant,
            "no tenant in context"@,
            "tenant cross mismatch"@,
            a,
        ),
        match a.tags {
            None => Gate::Ask(Question::Tags { vault: own_vault(st.multi_tenant, a) }),
            Some(Err(e)) => Gate::Fail(flow::silent(e@)),
            Some(Ok(_)) => Gate::Pass,
        },
    )
}

/// How many tags of `n` are listed.
pub open spec fn tags_shown(req: VaultTagsRequest, n: nat) -> nat {
    let limit: nat = match req.limit {
        Some(l) => l as nat,
        None => 50,
    };
    if n > limit {
        limit
    } else {
        n
    }
}

/// Whether `r` lists the first tags, and tells how many there are.
pub open spec fn tags_reply(
    req: VaultTagsRequest,
    found: Seq<NamedCount>,
    r: VaultTagsResponse,
) -> bool {
    &&& r.total == found.len()
    &&& r.tags@.len() == tags_shown(req, found.len())
    &&& forall|i: int|
        0 <= i < r.tags@.len() ==> (#[trigger] r.tags@[i]).tag@ == found[i].name@
            && r.tags@[i].note_count == found[i].note_count
}

/// Lists the most frequent tags of the caller's vault.
pub fn vault_tags_impl(
    trust: &TrustContext,
    req: &VaultTagsRequest,
    st: &ListingSettings,
    a: &Answers,
) -> (r: Next<VaultTagsResponse>)
    ensures
        flow::follows(r, tags_gate(*trust, *st, *a)),
        r matches Next::Reply(x) ==> tags_reply(*req, a.tags->0->Ok_0@, x),
{
    let vault = match enter_own(
        trust,
        st.multi_tenant,
        "no tenant in context",
        "tenant cross mismatch",
        a,
    ) {
        Ok(v) => v,
        Err(s) => return s.next(),
    };
    let found = match &a.tags {
        None => return Next::Ask(Ask::Tags { vault }),
        Some(Err(e)) => return Next::Fail(Denial::plain(e.copy())),
        Some(Ok(found)) => found,
    };
    let limit: usize = match req.limit {
        Some(l) => l,
        None => DEFAULT_TAGS_LIMIT,
    };
    let n: usize = if found.len() > limit {
        limit
    } else {
        found.len()
    };
    let mut tags: Vec<TagEntry> = Vec::new();
    let mut i: usize = 0;
    while i < n
        invariant
            i <= n <= found@.len(),
            tags@.len() == i,
            forall|k: int|
                0 <= k < i ==> (#[trigger] tags@[k]).tag@ == found@[k].name@
                    && tags@[k].note_count == found@[k].note_count,
        decreases n - i,
    {
        tags.push(TagEntry { tag: found[i].name.clone(), note_count: found[i].note_count });
        i = i + 1;
    }
    Next::Reply(VaultTagsResponse { tags, total: found.len() as u64 })
}

// ── Laws ────────────────────────────────────────────────────────────────────

/// A list shows an unprivileged caller no soul.
pub proof fn a_list_shows_no_soul(records: Seq<NoteRecord>, i: int)
    requires
        0 <= i < visible(records, false).len(),
    ensures
        visible(records, false)[i].section@ != "identity"@,
{
    broadcast use vstd::seq_lib::group_filter_ensures;

    let keep = |r: NoteRecord| !identity::section_hidden(false, r.section@);
    assert(keep(records.filter(keep)[i]));
}

/// A page names a next one only if a note follows its last one, and then by that last note,
/// whether the caller sees it or not: a hidden soul moves the list on.
pub proof fn the_last_page_names_no_next(
    trust: TrustContext,
    req: VaultListRequest,
    a: Answers,
    r: VaultListResponse,
)
    requires
        list_gate(trust, req, a) is Pass,
        list_reply(trust, req, a, r),
    ensures
        ({
            let records = a.notes->0->Ok_0.records@;
            &&& r.next_cursor is Some <==> records.len() >= page_size(req.limit)
                && a.following->0->Ok_0.records@.len() > 0
            &&& r.next_cursor is Some ==> r.next_cursor->0@ == records.last().id@
        }),
{
}

/// The archive that is listed is that of the vault that was checked, and never that of all
/// vaults.
pub proof fn the_archive_is_pinned_to_the_checked_vault(
    trust: TrustContext,
    req: VaultArchivesListRequest,
    st: ListingSettings,
    a: Answers,
)
    requires
        archive_right_gate(trust, req, st, a) is Pass,
        a.archives is None,
    ensures
        ({
            let g = archive_gate(req, st, Some(archive_vault(st, a)), a);
            &&& g is Ask
            &&& g->Ask_0->Archives_vault == Some(archive_vault(st, a))
            &&& g->Ask_0->Archives_limit <= st.archive_list_max
        }),
{
}

/// The number of tags that is told shows whether some were left out.
pub proof fn the_total_shows_what_was_left_out(
    req: VaultTagsRequest,
    found: Seq<NamedCount>,
    r: VaultTagsResponse,
)
    requires
        tags_reply(req, found, r),
    ensures
        r.tags@.len() <= r.total,
        r.tags@.len() < r.total <==> found.len() > tags_shown(req, found.len()),
{
}

/// A page is as long as it is asked to be, within bounds.
pub proof fn pages_are_as_long_as_asked(limit: Option<u32>)
    ensures
        1 <= page_size(limit) <= 200,
        limit is None ==> page_size(limit) == 20,
        limit matches Some(n) ==> (1 <= n <= 200 ==> page_size(limit) == n) && (n == 0 ==> page_size(
            limit,
        ) == 1) && (n > 200 ==> page_size(limit) == 200),
{
}

/// A list asks for the page of the request: its section, its roles, its length, and what follows
/// the note that it goes on from. Whether a next page is named rests on the note that comes after
/// the last one of a full page.
pub proof fn a_list_asks_for_the_page_that_is_wanted(
    trust: TrustContext,
    req: VaultListRequest,
    a: Answers,
)
    ensures
        list_gate(trust, req, a) matches Gate::Ask(q) ==> match q {
            Question::Tenant { requested } => requested == rows::opt_text(req.tenant_id),
            Question::Acl { op, locus } => op == AclOp::Read && (a.tenant matches Some(Some(t))
                && locus == t@ + (match req.section {
                Some(s) => "/"@ + s@,
                None => "/main"@,
            })),
            Question::ListNotes { tenant, section, role_kind, role_status, limit, cursor } => {
                &&& access::own(trust, a, tenant)
                &&& section == rows::opt_text(req.section)
                &&& role_kind == rows::opt_text(req.role_kind)
                &&& role_status == rows::opt_text(req.role_status)
                &&& cursor == rows::opt_text(req.cursor)
                &&& 1 <= limit <= 200
                &&& req.limit is None ==> limit == 20
                &&& req.limit matches Some(n) ==> (1 <= n <= 200 ==> limit == n)
            },
            Question::FollowingNotes {
                tenant,
                section,
                role_kind,
                role_status,
                limit,
                cursor,
            } => {
                &&& access::own(trust, a, tenant)
                &&& section == rows::opt_text(req.section)
                &&& role_kind == rows::opt_text(req.role_kind)
                &&& role_status == rows::opt_text(req.role_status)
                &&& limit == 1
                &&& a.notes matches Some(Ok(page)) && page.records@.len() > 0 && cursor
                    == page.records@[page.records@.len() - 1].id@
            },
            _ => false,
        },
{
    if let Some(s) = req.section {
        let t = access::tenant_of(a);
        assert(t + "/"@ + s@ =~= t + ("/"@ + s@));
    }
}

/// A list is refused for cause only, and for the cause that it has.
pub proof fn a_list_is_refused_for_cause(trust: TrustContext, req: VaultListRequest, a: Answers)
    ensures
        ({
            let g = list_gate(trust, req, a);
            let entered = trust.authenticated() && (a.tenant matches Some(Some(_))) && a.acl == Some(
                true,
            );
            &&& access::guards_reading(g, trust, a)
            &&& entered ==> match a.notes {
                None => g is Ask && g->Ask_0 is ListNotes,
                Some(Err(e)) => flow::fails(g, e@),
                Some(Ok(page)) => if page.records@.len() < page_size(req.limit) {
                    g is Pass
                } else {
                    match a.following {
                        None => g is Ask && g->Ask_0 is FollowingNotes,
                        Some(Err(e)) => flow::fails(g, e@),
                        Some(Ok(_)) => g is Pass,
                    }
                },
            }
        }),
{
}

/// Every note of the page that the caller may see is in the list.
pub proof fn a_list_leaves_nothing_visible_out(
    trust: TrustContext,
    req: VaultListRequest,
    a: Answers,
    r: VaultListResponse,
    k: int,
)
    requires
        list_reply(trust, req, a, r),
        0 <= k < a.notes->0->Ok_0.records@.len(),
        trust is Studio || (a.notes->0->Ok_0.records@[k].section@ != "identity"@
            && a.notes->0->Ok_0.records@[k].section@.len() > 0),
    ensures
        exists|i: int|
            0 <= i < r.entries@.len() && (#[trigger] r.entries@[i]).path@
                == a.notes->0->Ok_0.records@[k].section@ + "/"@
                + a.notes->0->Ok_0.records@[k].id@,
        r.total == a.notes->0->Ok_0.total,
{
    let records = a.notes->0->Ok_0.records@;
    let privileged = identity::identity_privileged(trust);
    let keep = |r: NoteRecord| !identity::section_hidden(privileged, r.section@);
    let shown = visible(records, privileged);
    assert(keep(records[k]));
    records.lemma_filter_contains(keep, k);
    let i = choose|i: int| 0 <= i < shown.len() && shown[i] == records[k];
    assert(shows(shown[i], r.entries@[i]));
}

/// An entry of a list shows a note of the page: its path, its size and when it was last changed,
/// which is when it was made if it never was. Entries come in the order of the page.
pub proof fn an_entry_shows_a_note_of_the_page(
    trust: TrustContext,
    req: VaultListRequest,
    a: Answers,
    r: VaultListResponse,
    i: int,
    j: int,
)
    requires
        list_reply(trust, req, a, r),
        0 <= i < j < r.entries@.len(),
    ensures
        exists|x: int, y: int|
            0 <= x < y < a.notes->0->Ok_0.records@.len() && entry_of(
                #[trigger] a.notes->0->Ok_0.records@[x],
                r.entries@[i],
            ) && entry_of(#[trigger] a.notes->0->Ok_0.records@[y], r.entries@[j]),
{
    let records = a.notes->0->Ok_0.records@;
    let privileged = identity::identity_privileged(trust);
    let keep = |r: NoteRecord| !identity::section_hidden(privileged, r.section@);
    let shown = visible(records, privileged);
    assert(shows(shown[i], r.entries@[i]));
    assert(shows(shown[j], r.entries@[j]));
    order::filtering_keeps_the_order(records, keep, i, j);
    let (x, y) = choose|x: int, y: int|
        0 <= x < y < records.len() && records.filter(keep)[i] == #[trigger] records[x]
            && records.filter(keep)[j] == #[trigger] records[y];
    lemma_entry_of(records[x], r.entries@[i]);
    lemma_entry_of(records[y], r.entries@[j]);
}

/// Whether an entry shows a note: its path, its size and its last change.
pub open spec fn entry_of(r: NoteRecord, e: VaultEntry) -> bool {
    &&& e.path@ == r.section@ + "/"@ + r.id@
    &&& vstd::utf8::is_ascii_chars(r.body_text@) ==> e.size_bytes == r.body_text@.len()
    &&& r.updated matches Some(ms) ==> (ids::utc_seconds(ms) matches Some(t) ==> e.modified_at@
        == t)
    &&& r.updated is None ==> (ids::utc_seconds(r.created) matches Some(t) ==> e.modified_at@ == t)
}

proof fn lemma_entry_of(r: NoteRecord, e: VaultEntry)
    requires
        shows(r, e),
    ensures
        entry_of(r, e),
{
    if vstd::utf8::is_ascii_chars(r.body_text@) {
        text::ascii_bytes(r.body_text@);
    }
}

/// The archive is asked for as the request has it: its section, its span of time, what it leaves
/// out, from where and how far, within the bound of the settings.
pub proof fn the_archive_is_asked_for_as_wanted(
    trust: TrustContext,
    req: VaultArchivesListRequest,
    st: ListingSettings,
    a: Answers,
)
    ensures
        archives_gate(trust, req, st, a) matches Gate::Ask(q) ==> match q {
            Question::Tenant { requested } => requested == rows::opt_text(req.tenant_id),
            Question::Acl { op, locus } => !st.multi_tenant && op == AclOp::Read && (
            a.tenant matches Some(Some(t)) && locus == t@ + "/main"@),
            Question::ReadVault { tenant, vault, section, .. } => st.multi_tenant && (
            a.tenant matches Some(Some(t)) && tenant == t@) && vault == rows::opt_text(
                req.vault_filter,
            ) && section is None,
            Question::Archives {
                vault,
                section,
                since_ms,
                until_ms,
                include_gc,
                include_restored,
                limit,
                offset,
            } => {
                &&& st.multi_tenant ==> (a.read_vault matches Some(Ok(v)) && vault == Some(v@))
                &&& !st.multi_tenant ==> a.acl == Some(true) && (a.tenant matches Some(Some(t))
                    && vault == Some(t@))
                &&& section == rows::opt_text(req.section)
                &&& since_ms == req.since_ms
                &&& until_ms == req.until_ms
                &&& include_gc == req.include_gc
                &&& include_restored == req.include_restored
                &&& offset == req.offset
                &&& limit <= st.archive_list_max
                &&& req.limit <= st.archive_list_max ==> limit == req.limit
                &&& req.limit > st.archive_list_max ==> limit == st.archive_list_max
            },
            _ => false,
        },
{
}

/// A list of the archive is refused for cause only, and for the cause that it has. With one vault
/// only that one can be named.
pub proof fn the_archive_is_refused_for_cause(
    trust: TrustContext,
    req: VaultArchivesListRequest,
    st: ListingSettings,
    a: Answers,
)
    ensures
        ({
            let g = archives_gate(trust, req, st, a);
            let known = trust.authenticated() && (a.tenant matches Some(Some(_)));
            let alone = known && !st.multi_tenant && a.acl == Some(true);
            let shared = known && st.multi_tenant && (a.read_vault matches Some(Ok(_)));
            let named = req.vault_filter matches Some(v) && v@ != "main"@;
            &&& !trust.authenticated() ==> flow::fails(g, Refusal::Unauthorized)
            &&& trust.authenticated() && a.tenant == Some(None::<String>) ==> flow::forbids(g)
            &&& known && st.multi_tenant && (a.read_vault matches Some(Err(_))) ==> flow::fails(
                g,
                a.read_vault->0->Err_0@,
            )
            &&& known && !st.multi_tenant && a.acl == Some(false) ==> flow::forbids(g)
            &&& alone && named ==> flow::forbids(g) || flow::finds_fault(g)
            &&& shared || (alone && (req.vault_filter is None || req.vault_filter->0@ == "main"@))
                ==> match a.archives {
                None => g is Ask && g->Ask_0 is Archives,
                Some(Err(e)) => flow::fails(g, e@),
                Some(Ok(_)) => g is Pass,
            }
        }),
{
    reveal_strlit("main");
    text::ascii_bytes("main"@);
}

/// The archive is shown as it was found, entry by entry.
pub proof fn the_archive_is_shown_as_it_was_found(
    req: VaultArchivesListRequest,
    st: ListingSettings,
    a: Answers,
    r: VaultArchivesListResponse,
    i: int,
)
    requires
        archive_reply(req, st, a, r),
    ensures
        ({
            let found = a.archives->0->Ok_0@;
            let e = found[i];
            let d = r.entries@[i];
            &&& r.count == r.entries@.len() == found.len()
            &&& r.offset == req.offset
            &&& r.limit <= st.archive_list_max
            &&& req.limit <= st.archive_list_max ==> r.limit == req.limit
            &&& 0 <= i < found.len() ==> {
                &&& d.note_id@ == e.note_id@
                &&& d.vault_id@ == e.vault_id@
                &&& d.section@ == e.section@
                &&& d.title == e.title
                &&& d.original_locus == e.original_locus
                &&& d.archive_path@ == e.archive_path@
                &&& d.archived_at == e.archived_at
                &&& d.archived_by == e.archived_by
                &&& d.gc_due == e.gc_due
                &&& d.gc_at == e.gc_at
                &&& d.restored_at == e.restored_at
            }
        }),
{
    if 0 <= i < a.archives->0->Ok_0@.len() {
        assert(archive_shown(a.archives->0->Ok_0@[i], r.entries@[i]));
    }
}

/// The vault that is counted is the caller's own: the one of its credential where there are several,
/// and the only one otherwise.
pub proof fn what_is_counted_is_the_own_vault(
    trust: TrustContext,
    st: ListingSettings,
    a: Answers,
)
    ensures
        forall|g: Gate|
            g == status_gate(trust, st, a) || g == authors_gate(trust, st, a) || g == tags_gate(
                trust,
                st,
                a,
            ) ==> #[trigger] counts_the_own(g, trust, st.multi_tenant, a),
        status_gate(trust, st, a) matches Gate::Ask(q) ==> !(q is Authors) && !(q is Tags),
        authors_gate(trust, st, a) matches Gate::Ask(q) ==> q is Tenant || q is Acl || q is Authors,
        tags_gate(trust, st, a) matches Gate::Ask(q) ==> q is Tenant || q is Acl || q is Tags,
        status_gate(trust, st, a) is Pass ==> a.live_count is Some && a.body_size is Some && (
        a.last_indexed matches Some(Ok(_))),
        authors_gate(trust, st, a) is Pass ==> a.authors matches Some(Ok(_)),
        tags_gate(trust, st, a) is Pass ==> a.tags matches Some(Ok(_)),
{
}

/// Whether a count is refused for cause only, and asks about the caller's own vault only.
pub open spec fn counts_the_own(g: Gate, trust: TrustContext, several: bool, a: Answers) -> bool {
    let known = trust.authenticated() && (several ==> trust.tenant_view() is Some && (
    a.tenant matches Some(Some(_))));
    let own = if several {
        a.tenant->0->0@
    } else {
        "main"@
    };
    &&& !trust.authenticated() ==> flow::fails(g, Refusal::Unauthorized)
    &&& trust.authenticated() && several && trust.tenant_view() is None ==> flow::forbids(g)
    &&& trust.authenticated() && several && trust.tenant_view() is Some && a.tenant == Some(
        None::<String>,
    ) ==> flow::forbids(g)
    &&& known && a.acl == Some(false) ==> flow::forbids(g)
    &&& g is Pass ==> known && a.acl == Some(true)
    &&& g matches Gate::Ask(q) ==> match q {
        Question::Tenant { requested } => several && requested is Some && requested
            == trust.tenant_view(),
        Question::Acl { op, locus } => known && op == AclOp::Read && locus == own + "/main"@,
        Question::LiveCount { tenant } => known && a.acl == Some(true) && tenant == own,
        Question::BodySize { tenant } => known && a.acl == Some(true) && tenant == own,
        Question::LastIndexed { tenant } => known && a.acl == Some(true) && tenant == own,
        Question::Authors { vault } => known && a.acl == Some(true) && vault == own,
        Question::Tags { vault } => known && a.acl == Some(true) && vault == own,
        _ => false,
    }
    &&& known && a.acl == Some(true) && g is Fail ==> {
        ||| a.last_indexed matches Some(Err(_)) && flow::fails(g, a.last_indexed->0->Err_0@)
        ||| a.authors matches Some(Err(_)) && flow::fails(g, a.authors->0->Err_0@)
        ||| a.tags matches Some(Err(_)) && flow::fails(g, a.tags->0->Err_0@)
    }
}

/// The state of a vault tells what was counted; a count that failed is told as none.
pub proof fn the_state_tells_what_was_counted(
    st: ListingSettings,
    a: Answers,
    x: VaultStatusResponse,
)
    requires
        status_reply(st, a, x),
    ensures
        x.tenant_id@ == if st.multi_tenant {
            a.tenant->0->0@
        } else {
            "main"@
        },
        a.live_count matches Some(Ok(n)) ==> x.note_count == n,
        a.live_count matches Some(Err(_)) ==> x.note_count == 0,
        a.body_size matches Some(Ok(n)) ==> x.total_size_bytes == n,
        a.body_size matches Some(Err(_)) ==> x.total_size_bytes == 0,
        a.last_indexed == Some(Ok::<Option<i64>, GradatumError>(None)) ==> x.last_indexed_at is None,
        a.last_indexed matches Some(Ok(Some(ms))) ==> rows::opt_text(x.last_indexed_at)
            == ids::utc_seconds(ms),
{
}

/// Authors are shown as they were counted, all of them; of the tags the first ones, as many as are
/// wanted, fifty when the request does not say.
pub proof fn names_are_shown_as_they_were_counted(
    req: VaultTagsRequest,
    authors: Seq<NamedCount>,
    tags: Seq<NamedCount>,
    x: VaultAuthorsResponse,
    y: VaultTagsResponse,
    i: int,
)
    requires
        authors_reply(authors, x),
        tags_reply(req, tags, y),
    ensures
        x.authors@.len() == authors.len(),
        0 <= i < authors.len() ==> x.authors@[i].name@ == authors[i].name@
            && x.authors@[i].note_count == authors[i].note_count,
        y.total == tags.len(),
        req.limit is None ==> y.tags@.len() == if tags.len() > 50 {
            50
        } else {
            tags.len()
        },
        req.limit matches Some(n) ==> y.tags@.len() == if tags.len() > n {
            n as nat
        } else {
            tags.len()
        },
        0 <= i < y.tags@.len() ==> y.tags@[i].tag@ == tags[i].name@ && y.tags@[i].note_count
            == tags[i].note_count,
{
}

}
