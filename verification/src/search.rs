//! The hybrid search: a lexical arm and a semantic arm, filtered alike, fused, ranked, and
//! shown without the souls that the caller may not see.

use vstd::prelude::*;
use vstd::string::*;

use crate::access;
use crate::dto::{SearchHit, VaultSearchRequest, VaultSearchResponse};
use crate::error::{GradatumError, Refusal};
use crate::fts;
use crate::identity;
use crate::order;
use crate::rows::{self, AnchorRow, StatusRow, TitleSection};
use crate::semantic::{self, SemanticHit};
use crate::text;
use crate::trust::TrustContext;
use crate::usage::NoteUse;

verus! {

/// What a deployment fixes about searching.
#[derive(Debug)]
pub struct SearchSettings {
    /// Whether vaults of several tenants are served.
    pub multi_tenant: bool,
    /// Whether an embedder is configured, that is, whether there is a semantic arm.
    pub embedder_active: bool,
    /// Whether a reranker that reads bodies is configured.
    pub reranker_active: bool,
    /// How many candidates the reranker takes at once.
    pub rerank_batch: usize,
    /// The sections that a search without a section leaves out.
    pub default_excluded: Vec<String>,
}

/// A hit of the lexical arm.
#[derive(Debug)]
pub struct LexicalHit {
    pub note_id: String,
    /// The bit pattern of the lexical score.
    pub score_bits: u64,
    pub section: String,
    pub snippet: String,
    pub title: Option<String>,
    pub status: String,
    pub anchor_ms: Option<i64>,
}

/// A note that the lexical arm found, with the bit pattern of its score.
#[derive(Debug)]
pub struct WordScore {
    pub note_id: String,
    pub score_bits: u64,
}

/// The contents of a list of lexical scores.
pub open spec fn score_views(v: Seq<WordScore>) -> Seq<(Seq<char>, u64)> {
    v.map_values(|w: WordScore| (w.note_id@, w.score_bits))
}

/// What the rank of a fused hit depends on, besides its fused score.
#[derive(Debug)]
pub struct RankInput {
    pub note_id: String,
    pub section: String,
    pub anchor_ms: Option<i64>,
}

/// The contents of a list of hits to rank.
pub open spec fn input_views(v: Seq<RankInput>) -> Seq<(Seq<char>, Seq<char>, Option<i64>)> {
    v.map_values(|h: RankInput| (h.note_id@, h.section@, h.anchor_ms))
}

/// A hit of the fused arms.
#[derive(Debug)]
pub struct FusedHit {
    pub note_id: String,
    pub section: String,
    pub snippet: Option<String>,
    pub title: Option<String>,
    pub status: String,
    pub anchor_ms: Option<i64>,
    /// Whether only the semantic arm found the note.
    pub semantic_only: bool,
}

/// A [`FusedHit`] by its contents.
pub struct Hit {
    pub note_id: Seq<char>,
    pub section: Seq<char>,
    pub snippet: Option<Seq<char>>,
    pub title: Option<Seq<char>>,
    pub status: Seq<char>,
    pub anchor_ms: Option<i64>,
    pub semantic_only: bool,
}

impl View for FusedHit {
    type V = Hit;

    open spec fn view(&self) -> Hit {
        Hit {
            note_id: self.note_id@,
            section: self.section@,
            snippet: rows::opt_text(self.snippet),
            title: rows::opt_text(self.title),
            status: self.status@,
            anchor_ms: self.anchor_ms,
            semantic_only: self.semantic_only,
        }
    }
}

/// The contents of a list of fused hits.
pub open spec fn hit_views(v: Seq<FusedHit>) -> Seq<Hit> {
    v.map_values(|h: FusedHit| h@)
}

/// The rank of a hit, lower first, and its score with four decimals.
#[derive(Debug)]
pub struct Scored {
    pub rank: i64,
    pub score: String,
}

/// What came of reranking.
#[derive(Debug)]
pub enum Reranked {
    /// The ranks of the candidates, in the order in which they were handed over.
    Ranked(Vec<Scored>),
    /// The reranker failed; the scores that stand in for its own, best first.
    Failed(Vec<String>),
}

/// The lexical part of a search.
#[derive(Debug)]
pub struct LexicalQuery {
    pub vault: String,
    pub query: String,
    pub limit: usize,
    pub include_downgraded: bool,
    pub section: Option<String>,
    pub locus: Option<String>,
    pub status: Option<String>,
    pub from_ms: Option<i64>,
    pub to_ms: Option<i64>,
}

/// A [`LexicalQuery`] by its contents.
pub struct WordQuery {
    pub vault: Seq<char>,
    pub query: Seq<char>,
    pub limit: nat,
    pub include_downgraded: bool,
    pub section: Option<Seq<char>>,
    pub locus: Option<Seq<char>>,
    pub status: Option<Seq<char>>,
    pub from_ms: Option<i64>,
    pub to_ms: Option<i64>,
}

impl View for LexicalQuery {
    type V = WordQuery;

    open spec fn view(&self) -> WordQuery {
        WordQuery {
            vault: self.vault@,
            query: self.query@,
            limit: self.limit as nat,
            include_downgraded: self.include_downgraded,
            section: rows::opt_text(self.section),
            locus: rows::opt_text(self.locus),
            status: rows::opt_text(self.status),
            from_ms: self.from_ms,
            to_ms: self.to_ms,
        }
    }
}

/// A question of the search.
#[allow(inconsistent_fields)]
#[derive(Debug)]
pub enum SearchAsk {
    /// The tenant that the credential acts for.
    Tenant { requested: Option<String> },
    /// Whether the access rules allow reading `locus`.
    AclRead { locus: String },
    /// The vault that the tenant may read, checked against the grants.
    ReadVault { tenant: String, vault: Option<String>, section: Option<String> },
    /// The hits of the lexical arm.
    Lexical { query: LexicalQuery },
    /// The hits of the semantic arm.
    Semantic { vault: String, query: String, limit: usize, locus: Option<String> },
    /// The sections of the semantic hits.
    SemanticSections { vault: String, ids: Vec<String> },
    /// The statuses of the semantic hits.
    SemanticStatuses { vault: String, ids: Vec<String> },
    /// The temporal anchors of the semantic hits.
    Anchors { vault: String, ids: Vec<String> },
    /// The fusion of the two arms into at most `buffer` hits.
    Fuse {
        lexical: Vec<WordScore>,
        semantic: Vec<SemanticHit>,
        short_circuit: bool,
        buffer: usize,
    },
    /// The sections of the fused hits that have none yet.
    FusedSections { vault: String, ids: Vec<String> },
    /// The ranks of the fused hits.
    Rank { vault: String, tenant: String, hits: Vec<RankInput> },
    /// The ranks that the reranker gives to the best hits.
    Rerank { tenant: String, query: String, ids: Vec<String> },
    /// The titles and sections of the hits that only the semantic arm found.
    HitTitles { vault: String, ids: Vec<String> },
    /// The statuses of the hits that only the semantic arm found.
    HitStatuses { vault: String, ids: Vec<String> },
    /// How many notes match the words of the query.
    Corpus { query: LexicalQuery },
}

/// A [`SearchAsk`] by its contents.
#[allow(inconsistent_fields)]
#[verifier::ext_equal]
pub enum SearchQuestion {
    Tenant { requested: Option<Seq<char>> },
    AclRead { locus: Seq<char> },
    ReadVault { tenant: Seq<char>, vault: Option<Seq<char>>, section: Option<Seq<char>> },
    Lexical { query: WordQuery },
    Semantic { vault: Seq<char>, query: Seq<char>, limit: nat, locus: Option<Seq<char>> },
    SemanticSections { vault: Seq<char>, ids: Seq<Seq<char>> },
    SemanticStatuses { vault: Seq<char>, ids: Seq<Seq<char>> },
    Anchors { vault: Seq<char>, ids: Seq<Seq<char>> },
    Fuse {
        lexical: Seq<(Seq<char>, u64)>,
        semantic: Seq<SemanticHit>,
        short_circuit: bool,
        buffer: nat,
    },
    FusedSections { vault: Seq<char>, ids: Seq<Seq<char>> },
    Rank {
        vault: Seq<char>,
        tenant: Seq<char>,
        hits: Seq<(Seq<char>, Seq<char>, Option<i64>)>,
    },
    Rerank { tenant: Seq<char>, query: Seq<char>, ids: Seq<Seq<char>> },
    HitTitles { vault: Seq<char>, ids: Seq<Seq<char>> },
    HitStatuses { vault: Seq<char>, ids: Seq<Seq<char>> },
    Corpus { query: WordQuery },
}

impl View for SearchAsk {
    type V = SearchQuestion;

    open spec fn view(&self) -> SearchQuestion {
        match *self {
            SearchAsk::Tenant { requested } => SearchQuestion::Tenant {
                requested: rows::opt_text(requested),
            },
            SearchAsk::AclRead { locus } => SearchQuestion::AclRead { locus: locus@ },
            SearchAsk::ReadVault { tenant, vault, section } => SearchQuestion::ReadVault {
                tenant: tenant@,
                vault: rows::opt_text(vault),
                section: rows::opt_text(section),
            },
            SearchAsk::Lexical { query } => SearchQuestion::Lexical { query: query@ },
            SearchAsk::Semantic { vault, query, limit, locus } => SearchQuestion::Semantic {
                vault: vault@,
                query: query@,
                limit: limit as nat,
                locus: rows::opt_text(locus),
            },
            SearchAsk::SemanticSections { vault, ids } => SearchQuestion::SemanticSections {
                vault: vault@,
                ids: text::views(ids@),
            },
            SearchAsk::SemanticStatuses { vault, ids } => SearchQuestion::SemanticStatuses {
                vault: vault@,
                ids: text::views(ids@),
            },
            SearchAsk::Anchors { vault, ids } => SearchQuestion::Anchors {
                vault: vault@,
                ids: text::views(ids@),
            },
            SearchAsk::Fuse { lexical, semantic, short_circuit, buffer } => SearchQuestion::Fuse {
                lexical: score_views(lexical@),
                semantic: semantic@,
                short_circuit,
                buffer: buffer as nat,
            },
            SearchAsk::FusedSections { vault, ids } => SearchQuestion::FusedSections {
                vault: vault@,
                ids: text::views(ids@),
            },
            SearchAsk::Rank { vault, tenant, hits } => SearchQuestion::Rank {
                vault: vault@,
                tenant: tenant@,
                hits: input_views(hits@),
            },
            SearchAsk::Rerank { tenant, query, ids } => SearchQuestion::Rerank {
                tenant: tenant@,
                query: query@,
                ids: text::views(ids@),
            },
            SearchAsk::HitTitles { vault, ids } => SearchQuestion::HitTitles {
                vault: vault@,
                ids: text::views(ids@),
            },
            SearchAsk::HitStatuses { vault, ids } => SearchQuestion::HitStatuses {
                vault: vault@,
                ids: text::views(ids@),
            },
            SearchAsk::Corpus { query } => SearchQuestion::Corpus { query: query@ },
        }
    }
}

/// What has been answered to a search so far.
#[derive(Debug)]
pub struct SearchAnswers {
    pub tenant: Option<Option<String>>,
    pub acl: Option<bool>,
    pub read_vault: Option<Result<String, GradatumError>>,
    pub lexical: Option<Result<Vec<LexicalHit>, GradatumError>>,
    pub semantic: Option<Result<Vec<SemanticHit>, GradatumError>>,
    pub semantic_sections: Option<Result<Vec<TitleSection>, GradatumError>>,
    pub semantic_statuses: Option<Result<Vec<StatusRow>, GradatumError>>,
    pub anchors: Option<Result<Vec<AnchorRow>, GradatumError>>,
    pub fused: Option<Vec<FusedHit>>,
    pub fused_sections: Option<Result<Vec<TitleSection>, GradatumError>>,
    pub ranks: Option<Result<Vec<Scored>, GradatumError>>,
    pub reranked: Option<Reranked>,
    pub hit_titles: Option<Result<Vec<TitleSection>, GradatumError>>,
    pub hit_statuses: Option<Result<Vec<StatusRow>, GradatumError>>,
    pub corpus: Option<Result<(u64, bool), GradatumError>>,
}

impl SearchAnswers {
    /// Whether nothing has been answered.
    pub open spec fn unanswered(&self) -> bool {
        &&& self.tenant is None
        &&& self.acl is None
        &&& self.read_vault is None
        &&& self.lexical is None
        &&& self.semantic is None
        &&& self.semantic_sections is None
        &&& self.semantic_statuses is None
        &&& self.anchors is None
        &&& self.fused is None
        &&& self.fused_sections is None
        &&& self.ranks is None
        &&& self.reranked is None
        &&& self.hit_titles is None
        &&& self.hit_statuses is None
        &&& self.corpus is None
    }

    /// No answer yet.
    pub fn none() -> (r: SearchAnswers)
        ensures
            r.unanswered(),
    {
        SearchAnswers {
            tenant: None,
            acl: None,
            read_vault: None,
            lexical: None,
            semantic: None,
            semantic_sections: None,
            semantic_statuses: None,
            anchors: None,
            fused: None,
            fused_sections: None,
            ranks: None,
            reranked: None,
            hit_titles: None,
            hit_statuses: None,
            corpus: None,
        }
    }
}

/// The next step of a search.
#[derive(Debug)]
pub enum SearchNext {
    Ask(SearchAsk),
    Fail(GradatumError),
    Reply(VaultSearchResponse),
}

/// The next step of a search by its contents, leaving the reply itself aside.
#[verifier::ext_equal]
pub enum SearchGate {
    Ask(SearchQuestion),
    Fail(Refusal),
    Pass,
}

// ── Entry: who may search what, and for what ────────────────────────────────

/// The status filter that the request asks for.
pub open spec fn status_wanted(req: VaultSearchRequest) -> Option<Seq<char>> {
    match req.status {
        Some(s) => Some(text::trimmed(s@)),
        None => None,
    }
}

/// How many results the search gives: ten when not said, between one and fifty.
pub open spec fn result_limit(req: VaultSearchRequest) -> nat {
    match req.limit {
        None => 10,
        Some(n) => if n < 1 {
            1
        } else if n > 50 {
            50
        } else {
            n as nat
        },
    }
}

/// The vault that the search reads.
pub open spec fn vault_read(req: VaultSearchRequest, st: SearchSettings, a: SearchAnswers) -> Seq<
    char,
> {
    if st.multi_tenant {
        a.read_vault->0->Ok_0@
    } else {
        match req.vault_id {
            Some(v) => v@,
            None => a.tenant->0->0@,
        }
    }
}

/// Whether the request reaches the vault, and is refused as a single-vault deployment refuses.
pub open spec fn target_gate(
    req: VaultSearchRequest,
    st: SearchSettings,
    a: SearchAnswers,
) -> SearchGate {
    let tenant = a.tenant->0->0@;
    if st.multi_tenant {
        match a.read_vault {
            None => SearchGate::Ask(
                SearchQuestion::ReadVault {
                    tenant,
                    vault: rows::opt_text(req.vault_id),
                    section: rows::opt_text(req.section),
                },
            ),
            Some(Err(e)) => SearchGate::Fail(e@),
            Some(Ok(_)) => SearchGate::Pass,
        }
    } else {
        match a.acl {
            None => SearchGate::Ask(
                SearchQuestion::AclRead {
                    locus: access::locus_text(tenant, rows::opt_text(req.section)),
                },
            ),
            Some(false) => SearchGate::Fail(Refusal::Forbidden("acl deny"@)),
            Some(true) => match req.vault_id {
                None => SearchGate::Pass,
                Some(v) => if v@.len() == 0 || v@.len() > 128 {
                    SearchGate::Fail(Refusal::InvalidInput("invalid vault_id"@))
                } else if v@ != "main"@ {
                    SearchGate::Fail(
                        Refusal::Forbidden(
                            "cross-read vault_id ≠ main not supported (mono-vault)"@,
                        ),
                    )
                } else {
                    SearchGate::Pass
                },
            },
        }
    }
}

/// The entry of a search: authenticated, for its own tenant, allowed to read the vault, with a
/// known status, bounds in order, and something to search for.
pub open spec fn entry_gate(
    trust: TrustContext,
    req: VaultSearchRequest,
    st: SearchSettings,
    a: SearchAnswers,
) -> SearchGate {
    if !trust.authenticated() {
        SearchGate::Fail(Refusal::Unauthorized)
    } else {
        match a.tenant {
            None => SearchGate::Ask(
                SearchQuestion::Tenant { requested: rows::opt_text(req.tenant_id) },
            ),
            Some(None) => SearchGate::Fail(Refusal::Forbidden("tenant cross mismatch"@)),
            Some(Some(_)) => {
                let g = target_gate(req, st, a);
                if !(g is Pass) {
                    g
                } else if status_wanted(req) matches Some(s) && !fts::search_status_allowed(s) {
                    SearchGate::Fail(Refusal::InvalidInput("invalid status"@))
                } else if req.from_ms matches Some(f) && req.to_ms matches Some(t) && f > t {
                    SearchGate::Fail(Refusal::InvalidInput("from_ms > to_ms"@))
                } else if text::trimmed(req.query@).len() == 0 {
                    SearchGate::Fail(Refusal::InvalidInput("empty query"@))
                } else {
                    SearchGate::Pass
                }
            },
        }
    }
}

/// A step of the search that is not its reply.
enum Halt {
    Ask(SearchAsk),
    Fail(GradatumError),
}

impl View for Halt {
    type V = SearchGate;

    closed spec fn view(&self) -> SearchGate {
        match self {
            Halt::Ask(q) => SearchGate::Ask(q@),
            Halt::Fail(e) => SearchGate::Fail(e@),
        }
    }
}

fn enter_target(req: &VaultSearchRequest, st: &SearchSettings, a: &SearchAnswers) -> (r: Result<
    String,
    Halt,
>)
    requires
        a.tenant matches Some(Some(_)),
    ensures
        match r {
            Ok(v) => target_gate(*req, *st, *a) is Pass && v@ == vault_read(*req, *st, *a),
            Err(h) => target_gate(*req, *st, *a) == h@,
        },
{
    let tenant = match &a.tenant {
        Some(Some(t)) => t.clone(),
        _ => String::new(),
    };
    if st.multi_tenant {
        return match &a.read_vault {
            None => Err(
                Halt::Ask(
                    SearchAsk::ReadVault {
                        tenant,
                        vault: rows::copy_opt(&req.vault_id),
                        section: rows::copy_opt(&req.section),
                    },
                ),
            ),
            Some(Err(e)) => Err(Halt::Fail(e.copy())),
            Some(Ok(v)) => Ok(v.clone()),
        };
    }
    match a.acl {
        None => Err(
            Halt::Ask(
                SearchAsk::AclRead {
                    locus: access::locus_for_section(
                        tenant.as_str(),
                        access::as_deref(&req.section),
                    ),
                },
            ),
        ),
        Some(false) => Err(Halt::Fail(GradatumError::forbidden("acl deny"))),
        Some(true) => match &req.vault_id {
            None => Ok(tenant),
            Some(v) => if v.as_str().is_empty() || text::chars_of(v.as_str()).len() > 128 {
                Err(Halt::Fail(GradatumError::invalid("invalid vault_id")))
            } else if !text::same(v.as_str(), "main") {
                Err(
                    Halt::Fail(
                        GradatumError::forbidden(
                            "cross-read vault_id ≠ main not supported (mono-vault)",
                        ),
                    ),
                )
            } else {
                Ok(v.clone())
            },
        },
    }
}

fn enter(
    trust: &TrustContext,
    req: &VaultSearchRequest,
    st: &SearchSettings,
    a: &SearchAnswers,
) -> (r: Result<String, Halt>)
    ensures
        match r {
            Ok(v) => entry_gate(*trust, *req, *st, *a) is Pass && v@ == vault_read(*req, *st, *a),
            Err(h) => entry_gate(*trust, *req, *st, *a) == h@,
        },
{
    if !trust.is_authenticated() {
        return Err(Halt::Fail(GradatumError::Unauthorized));
    }
    match &a.tenant {
        None => return Err(
            Halt::Ask(SearchAsk::Tenant { requested: rows::copy_opt(&req.tenant_id) }),
        ),
        Some(None) => return Err(
            Halt::Fail(GradatumError::forbidden("tenant cross mismatch")),
        ),
        Some(Some(_)) => {},
    }
    let vault = match enter_target(req, st, a) {
        Ok(v) => v,
        Err(h) => return Err(h),
    };
    if fts::validate_search_status(access::as_deref(&req.status)).is_err() {
        return Err(Halt::Fail(GradatumError::invalid("invalid status")));
    }
    match (req.from_ms, req.to_ms) {
        (Some(f), Some(t)) => {
            if f > t {
                return Err(Halt::Fail(GradatumError::invalid("from_ms > to_ms")));
            }
        },
        _ => {},
    }
    if text::trim(req.query.as_str()).as_str().is_empty() {
        return Err(Halt::Fail(GradatumError::invalid("empty query")));
    }
    Ok(vault)
}

fn limit_of(req: &VaultSearchRequest) -> (r: usize)
    ensures
        r as nat == result_limit(*req),
        1 <= r <= 50,
{
    match req.limit {
        None => 10,
        Some(n) => if n < 1 {
            1
        } else if n > 50 {
            50
        } else {
            n as usize
        },
    }
}

fn status_of_request(req: &VaultSearchRequest) -> (r: Option<String>)
    ensures
        rows::opt_text(r) == status_wanted(*req),
{
    match &req.status {
        Some(s) => Some(text::trim(s.as_str())),
        None => None,
    }
}

// ── The two arms ────────────────────────────────────────────────────────────

/// The sections that this search leaves out: the default ones, when it names no section.
pub open spec fn sections_excluded(req: VaultSearchRequest, st: SearchSettings) -> Seq<Seq<char>> {
    match req.section {
        None => text::views(st.default_excluded@),
        Some(_) => Seq::empty(),
    }
}

fn excluded_of(req: &VaultSearchRequest, st: &SearchSettings) -> (r: Vec<String>)
    ensures
        text::views(r@) == sections_excluded(*req, *st),
{
    match &req.section {
        None => rows::copy_list(&st.default_excluded),
        Some(_) => {
            let none: Vec<String> = Vec::new();
            assert(text::views(none@) =~= Seq::empty());
            none
        },
    }
}

/// The words of the search, as the lexical arm takes them.
pub open spec fn word_query(
    req: VaultSearchRequest,
    vault: Seq<char>,
    limit: nat,
    from_ms: Option<i64>,
    to_ms: Option<i64>,
) -> WordQuery {
    WordQuery {
        vault,
        query: fts::fts_query(text::trimmed(req.query@)),
        limit,
        include_downgraded: req.include_downgraded,
        section: rows::opt_text(req.section),
        locus: rows::opt_text(req.locus),
        status: status_wanted(req),
        from_ms,
        to_ms,
    }
}

fn lexical_query(
    req: &VaultSearchRequest,
    vault: &str,
    limit: usize,
    from_ms: Option<i64>,
    to_ms: Option<i64>,
) -> (r: LexicalQuery)
    ensures
        r@ == word_query(*req, vault@, limit as nat, from_ms, to_ms),
{
    let query = text::trim(req.query.as_str());
    LexicalQuery {
        vault: vault.to_owned(),
        query: fts::build_fts_query(query.as_str()),
        limit,
        include_downgraded: req.include_downgraded,
        section: rows::copy_opt(&req.section),
        locus: rows::copy_opt(&req.locus),
        status: status_of_request(req),
        from_ms,
        to_ms,
    }
}

/// The notes that the lexical arm found outside the sections left out, with their scores, in
/// order.
pub open spec fn word_scores(hits: Seq<LexicalHit>, excluded: Seq<Seq<char>>) -> Seq<
    (Seq<char>, u64),
>
    decreases hits.len(),
{
    if hits.len() == 0 {
        Seq::empty()
    } else if excluded.contains(hits.last().section@) {
        word_scores(hits.drop_last(), excluded)
    } else {
        word_scores(hits.drop_last(), excluded).push(
            (hits.last().note_id@, hits.last().score_bits),
        )
    }
}

/// The last lexical hit on the note `id` outside the sections left out.
pub open spec fn word_hit(
    hits: Seq<LexicalHit>,
    excluded: Seq<Seq<char>>,
    id: Seq<char>,
) -> Option<LexicalHit>
    decreases hits.len(),
{
    if hits.len() == 0 {
        None
    } else if hits.last().note_id@ == id && !excluded.contains(hits.last().section@) {
        Some(hits.last())
    } else {
        word_hit(hits.drop_last(), excluded, id)
    }
}

fn lexical_scores(hits: &Vec<LexicalHit>, excluded: &Vec<String>) -> (r: Vec<WordScore>)
    ensures
        score_views(r@) == word_scores(hits@, text::views(excluded@)),
{
    let mut out: Vec<WordScore> = Vec::new();
    let mut i: usize = 0;
    assert(hits@.take(0) =~= Seq::empty());
    assert(score_views(out@) =~= word_scores(hits@.take(0), text::views(excluded@)));
    while i < hits.len()
        invariant
            i <= hits@.len(),
            score_views(out@) == word_scores(hits@.take(i as int), text::views(excluded@)),
        decreases hits@.len() - i,
    {
        let ghost prev = out@;
        assert(hits@.take(i + 1).drop_last() =~= hits@.take(i as int));
        if !text::listed(excluded, hits[i].section.as_str()) {
            out.push(
                WordScore { note_id: hits[i].note_id.clone(), score_bits: hits[i].score_bits },
            );
            assert(score_views(out@) =~= score_views(prev).push(
                (hits@[i as int].note_id@, hits@[i as int].score_bits),
            ));
        }
        i = i + 1;
    }
    assert(hits@.take(hits@.len() as int) =~= hits@);
    out
}

fn lexical_hit<'a>(hits: &'a Vec<LexicalHit>, excluded: &Vec<String>, id: &str) -> (r: Option<
    &'a LexicalHit,
>)
    ensures
        match r {
            Some(h) => word_hit(hits@, text::views(excluded@), id@) == Some(*h),
            None => word_hit(hits@, text::views(excluded@), id@) is None,
        },
{
    let mut i: usize = hits.len();
    assert(hits@.take(i as int) =~= hits@);
    while i > 0
        invariant
            i <= hits@.len(),
            word_hit(hits@, text::views(excluded@), id@) == word_hit(
                hits@.take(i as int),
                text::views(excluded@),
                id@,
            ),
        decreases i,
    {
        assert(hits@.take(i as int).drop_last() =~= hits@.take(i - 1));
        assert(hits@.take(i as int).last() == hits@[i - 1]);
        if text::same(hits[i - 1].note_id.as_str(), id) && !text::listed(
            excluded,
            hits[i - 1].section.as_str(),
        ) {
            return Some(&hits[i - 1]);
        }
        i = i - 1;
    }
    None
}

/// The notes of a list of semantic hits.
pub open spec fn semantic_ids(hits: Seq<SemanticHit>) -> Seq<Seq<char>> {
    hits.map_values(|h: SemanticHit| h.note_id@)
}

fn ids_of_semantic(hits: &Vec<SemanticHit>) -> (r: Vec<String>)
    ensures
        text::views(r@) == semantic_ids(hits@),
{
    let mut out: Vec<String> = Vec::new();
    let mut i: usize = 0;
    while i < hits.len()
        invariant
            i <= hits@.len(),
            out@.len() == i,
            forall|j: int| 0 <= j < i ==> (#[trigger] out@[j])@ == hits@[j].note_id@,
        decreases hits@.len() - i,
    {
        out.push(hits[i].note_id.text());
        i = i + 1;
    }
    assert(text::views(out@) =~= semantic_ids(hits@));
    out
}

/// The hits of the semantic arm before any filter: none without an embedder or when it failed.
pub open spec fn semantic_raw(st: SearchSettings, a: SearchAnswers) -> Seq<SemanticHit> {
    if !st.embedder_active {
        Seq::empty()
    } else {
        match a.semantic->0 {
            Ok(v) => v@,
            Err(_) => Seq::empty(),
        }
    }
}

/// Whether the semantic hits have to be filtered by section.
pub open spec fn section_filter_due(
    req: VaultSearchRequest,
    st: SearchSettings,
    a: SearchAnswers,
) -> bool {
    semantic_raw(st, a).len() > 0 && (req.section is Some || sections_excluded(req, st).len() > 0)
}

/// The semantic hits in the section asked for, or outside the sections left out.
pub open spec fn semantic_in_section(
    req: VaultSearchRequest,
    st: SearchSettings,
    a: SearchAnswers,
) -> Seq<SemanticHit> {
    let raw = semantic_raw(st, a);
    if !section_filter_due(req, st, a) {
        raw
    } else {
        match req.section {
            Some(w) => semantic::kept_by_section(raw, w@, a.semantic_sections->0),
            None => semantic::kept_outside_sections(
                raw,
                sections_excluded(req, st),
                a.semantic_sections->0,
            ),
        }
    }
}

/// Whether the semantic hits have to be filtered by status.
pub open spec fn status_filter_due(
    req: VaultSearchRequest,
    st: SearchSettings,
    a: SearchAnswers,
) -> bool {
    status_wanted(req) is Some && semantic_in_section(req, st, a).len() > 0
}

/// The semantic hits in their section and of the status asked for.
pub open spec fn semantic_of_status(
    req: VaultSearchRequest,
    st: SearchSettings,
    a: SearchAnswers,
) -> Seq<SemanticHit> {
    if status_filter_due(req, st, a) {
        semantic::kept_by_status(
            semantic_in_section(req, st, a),
            status_wanted(req)->0,
            a.semantic_statuses->0,
        )
    } else {
        semantic_in_section(req, st, a)
    }
}

/// The anchors of the semantic hits: none when there are no hits or the index failed.
pub open spec fn semantic_anchors(
    req: VaultSearchRequest,
    st: SearchSettings,
    a: SearchAnswers,
) -> Seq<AnchorRow> {
    if semantic_of_status(req, st, a).len() == 0 {
        Seq::empty()
    } else {
        match a.anchors->0 {
            Ok(v) => v@,
            Err(_) => Seq::empty(),
        }
    }
}

/// The semantic hits that pass every filter.
pub open spec fn semantic_kept(
    req: VaultSearchRequest,
    st: SearchSettings,
    a: SearchAnswers,
) -> Seq<SemanticHit> {
    semantic::kept_by_time(
        semantic_of_status(req, st, a),
        req.from_ms,
        req.to_ms,
        semantic_anchors(req, st, a),
    )
}

/// The questions that the two arms ask, in order.
pub open spec fn arms_gate(
    req: VaultSearchRequest,
    st: SearchSettings,
    a: SearchAnswers,
    vault: Seq<char>,
) -> SearchGate {
    match a.lexical {
        None => SearchGate::Ask(
            SearchQuestion::Lexical {
                query: word_query(req, vault, result_limit(req) * 2, req.from_ms, req.to_ms),
            },
        ),
        Some(Err(e)) => SearchGate::Fail(e@),
        Some(Ok(_)) => if st.embedder_active && a.semantic is None {
            SearchGate::Ask(
                SearchQuestion::Semantic {
                    vault,
                    query: text::trimmed(req.query@),
                    limit: result_limit(req) * 2,
                    locus: rows::opt_text(req.locus),
                },
            )
        } else if section_filter_due(req, st, a) && a.semantic_sections is None {
            SearchGate::Ask(
                SearchQuestion::SemanticSections { vault, ids: semantic_ids(semantic_raw(st, a)) },
            )
        } else if status_filter_due(req, st, a) && a.semantic_statuses is None {
            SearchGate::Ask(
                SearchQuestion::SemanticStatuses {
                    vault,
                    ids: semantic_ids(semantic_in_section(req, st, a)),
                },
            )
        } else if semantic_of_status(req, st, a).len() > 0 && a.anchors is None {
            SearchGate::Ask(
                SearchQuestion::Anchors {
                    vault,
                    ids: semantic_ids(semantic_of_status(req, st, a)),
                },
            )
        } else {
            SearchGate::Pass
        },
    }
}

/// The semantic hits after the filters, with their anchors.
struct Arms {
    semantic: Vec<SemanticHit>,
    anchors: Vec<AnchorRow>,
}

fn copy_anchors(v: &Vec<AnchorRow>) -> (r: Vec<AnchorRow>)
    ensures
        r@ == v@,
{
    let mut out: Vec<AnchorRow> = Vec::new();
    let mut i: usize = 0;
    while i < v.len()
        invariant
            i <= v@.len(),
            out@ == v@.take(i as int),
        decreases v@.len() - i,
    {
        out.push(AnchorRow { note_id: v[i].note_id.clone(), anchor_ms: v[i].anchor_ms });
        assert(out@ =~= v@.take(i + 1));
        i = i + 1;
    }
    assert(v@.take(v@.len() as int) =~= v@);
    out
}

fn copy_semantic(v: &Vec<SemanticHit>) -> (r: Vec<SemanticHit>)
    ensures
        r@ == v@,
{
    let mut out: Vec<SemanticHit> = Vec::new();
    let mut i: usize = 0;
    while i < v.len()
        invariant
            i <= v@.len(),
            out@ == v@.take(i as int),
        decreases v@.len() - i,
    {
        out.push(v[i]);
        assert(out@ =~= v@.take(i + 1));
        i = i + 1;
    }
    assert(v@.take(v@.len() as int) =~= v@);
    out
}

fn run_arms(req: &VaultSearchRequest, st: &SearchSettings, a: &SearchAnswers, vault: &str) -> (r:
    Result<Arms, Halt>)
    ensures
        match r {
            Ok(arms) => {
                &&& arms_gate(*req, *st, *a, vault@) is Pass
                &&& a.lexical matches Some(Ok(_))
                &&& arms.semantic@ == semantic_kept(*req, *st, *a)
                &&& arms.anchors@ == semantic_anchors(*req, *st, *a)
            },
            Err(h) => arms_gate(*req, *st, *a, vault@) == h@,
        },
{
    let limit = limit_of(req);
    match &a.lexical {
        None => return Err(
            Halt::Ask(
                SearchAsk::Lexical {
                    query: lexical_query(req, vault, limit * 2, req.from_ms, req.to_ms),
                },
            ),
        ),
        Some(Err(e)) => return Err(Halt::Fail(e.copy())),
        Some(Ok(_)) => {},
    }
    let mut hits: Vec<SemanticHit> = Vec::new();
    if st.embedder_active {
        match &a.semantic {
            None => return Err(
                Halt::Ask(
                    SearchAsk::Semantic {
                        vault: vault.to_owned(),
                        query: text::trim(req.query.as_str()),
                        limit: limit * 2,
                        locus: rows::copy_opt(&req.locus),
                    },
                ),
            ),
            Some(Ok(v)) => {
                hits = copy_semantic(v);
            },
            Some(Err(_)) => {},
        }
    }
    assert(hits@ =~= semantic_raw(*st, *a));
    let excluded = excluded_of(req, st);
    assert(excluded@.len() == sections_excluded(*req, *st).len());
    if hits.len() > 0 && (req.section.is_some() || excluded.len() > 0) {
        match &a.semantic_sections {
            None => return Err(
                Halt::Ask(
                    SearchAsk::SemanticSections {
                        vault: vault.to_owned(),
                        ids: ids_of_semantic(&hits),
                    },
                ),
            ),
            Some(sections) => {
                hits = match &req.section {
                    Some(w) => semantic::filter_semantic_by_section(&hits, w.as_str(), sections),
                    None => semantic::filter_semantic_excluding_sections(
                        &hits,
                        &excluded,
                        sections,
                    ),
                };
            },
        }
    }
    assert(hits@ == semantic_in_section(*req, *st, *a));
    match status_of_request(req) {
        Some(wanted) => {
            if hits.len() > 0 {
                match &a.semantic_statuses {
                    None => return Err(
                        Halt::Ask(
                            SearchAsk::SemanticStatuses {
                                vault: vault.to_owned(),
                                ids: ids_of_semantic(&hits),
                            },
                        ),
                    ),
                    Some(statuses) => {
                        hits = semantic::filter_semantic_by_status(
                            &hits,
                            wanted.as_str(),
                            statuses,
                        );
                    },
                }
            }
        },
        None => {},
    }
    assert(hits@ == semantic_of_status(*req, *st, *a));
    let mut anchors: Vec<AnchorRow> = Vec::new();
    if hits.len() > 0 {
        match &a.anchors {
            None => return Err(
                Halt::Ask(
                    SearchAsk::Anchors { vault: vault.to_owned(), ids: ids_of_semantic(&hits) },
                ),
            ),
            Some(Ok(v)) => {
                anchors = copy_anchors(v);
            },
            Some(Err(_)) => {},
        }
    }
    assert(anchors@ =~= semantic_anchors(*req, *st, *a));
    let kept = semantic::filter_semantic_by_time(&hits, req.from_ms, req.to_ms, &anchors);
    Ok(Arms { semantic: kept, anchors })
}

// ── Fusing, enriching, ranking ──────────────────────────────────────────────

/// How many fused hits are kept for ranking: four times the limit, between twenty and two
/// hundred.
pub open spec fn fusion_buffer(req: VaultSearchRequest) -> nat {
    let n = result_limit(req) * 4;
    if n < 20 {
        20
    } else if n > 200 {
        200
    } else {
        n
    }
}

/// A fused hit with what the lexical arm knows of it; a hit that only the semantic arm found
/// gets its anchor.
pub open spec fn enriched(
    h: Hit,
    words: Seq<LexicalHit>,
    excluded: Seq<Seq<char>>,
    anchors: Seq<AnchorRow>,
) -> Hit {
    match word_hit(words, excluded, h.note_id) {
        Some(w) => Hit {
            section: w.section@,
            snippet: Some(w.snippet@),
            title: rows::nonblank(rows::opt_text(w.title)),
            status: w.status@,
            anchor_ms: w.anchor_ms,
            ..h
        },
        None => Hit {
            anchor_ms: match h.anchor_ms {
                Some(ms) => Some(ms),
                None => rows::anchor_of(anchors, h.note_id),
            },
            ..h
        },
    }
}

/// The fused hits with what the lexical arm knows of them.
pub open spec fn all_enriched(
    hits: Seq<Hit>,
    words: Seq<LexicalHit>,
    excluded: Seq<Seq<char>>,
    anchors: Seq<AnchorRow>,
) -> Seq<Hit> {
    hits.map_values(|h: Hit| enriched(h, words, excluded, anchors))
}

fn enrich(
    h: &FusedHit,
    words: &Vec<LexicalHit>,
    excluded: &Vec<String>,
    anchors: &Vec<AnchorRow>,
) -> (r: FusedHit)
    ensures
        r@ == enriched(h@, words@, text::views(excluded@), anchors@),
{
    match lexical_hit(words, excluded, h.note_id.as_str()) {
        Some(w) => FusedHit {
            note_id: h.note_id.clone(),
            section: w.section.clone(),
            snippet: Some(w.snippet.clone()),
            title: rows::keep_nonblank(&w.title),
            status: w.status.clone(),
            anchor_ms: w.anchor_ms,
            semantic_only: h.semantic_only,
        },
        None => FusedHit {
            note_id: h.note_id.clone(),
            section: h.section.clone(),
            snippet: rows::copy_opt(&h.snippet),
            title: rows::copy_opt(&h.title),
            status: h.status.clone(),
            anchor_ms: match h.anchor_ms {
                Some(ms) => Some(ms),
                None => rows::find_anchor(anchors, h.note_id.as_str()),
            },
            semantic_only: h.semantic_only,
        },
    }
}

fn enrich_all(
    hits: &Vec<FusedHit>,
    words: &Vec<LexicalHit>,
    excluded: &Vec<String>,
    anchors: &Vec<AnchorRow>,
) -> (r: Vec<FusedHit>)
    ensures
        hit_views(r@) == all_enriched(
            hit_views(hits@),
            words@,
            text::views(excluded@),
            anchors@,
        ),
{
    let mut out: Vec<FusedHit> = Vec::new();
    let mut i: usize = 0;
    while i < hits.len()
        invariant
            i <= hits@.len(),
            out@.len() == i,
            forall|j: int|
                0 <= j < i ==> (#[trigger] out@[j])@ == enriched(
                    hits@[j]@,
                    words@,
                    text::views(excluded@),
                    anchors@,
                ),
        decreases hits@.len() - i,
    {
        out.push(enrich(&hits[i], words, excluded, anchors));
        i = i + 1;
    }
    assert(hit_views(out@) =~= all_enriched(
        hit_views(hits@),
        words@,
        text::views(excluded@),
        anchors@,
    ));
    out
}

/// The notes of the hits that have no section, in order.
pub open spec fn ids_without_section(hits: Seq<Hit>) -> Seq<Seq<char>>
    decreases hits.len(),
{
    if hits.len() == 0 {
        Seq::empty()
    } else if hits.last().section.len() == 0 {
        ids_without_section(hits.drop_last()).push(hits.last().note_id)
    } else {
        ids_without_section(hits.drop_last())
    }
}

fn missing_sections(hits: &Vec<FusedHit>) -> (r: Vec<String>)
    ensures
        text::views(r@) == ids_without_section(hit_views(hits@)),
{
    let mut out: Vec<String> = Vec::new();
    let mut i: usize = 0;
    let ghost all = hit_views(hits@);
    assert(all.take(0) =~= Seq::empty());
    assert(text::views(out@) =~= ids_without_section(all.take(0)));
    while i < hits.len()
        invariant
            i <= hits@.len(),
            all == hit_views(hits@),
            text::views(out@) == ids_without_section(all.take(i as int)),
        decreases hits@.len() - i,
    {
        let ghost prev = out@;
        assert(all.take(i + 1).drop_last() =~= all.take(i as int));
        assert(all.take(i + 1).last() == hits@[i as int]@);
        if hits[i].section.as_str().is_empty() {
            out.push(hits[i].note_id.clone());
            assert(text::views(out@) =~= text::views(prev).push(hits@[i as int].note_id@));
        }
        i = i + 1;
    }
    assert(all.take(all.len() as int) =~= all);
    out
}

/// A hit with the section that the index has for it, if it had none.
pub open spec fn sectioned(h: Hit, found: Seq<TitleSection>) -> Hit {
    if h.section.len() == 0 {
        match rows::section_of(found, h.note_id) {
            Some(s) => Hit { section: s, ..h },
            None => h,
        }
    } else {
        h
    }
}

/// The hits with the sections that the index has for them.
pub open spec fn all_sectioned(hits: Seq<Hit>, found: Seq<TitleSection>) -> Seq<Hit> {
    hits.map_values(|h: Hit| sectioned(h, found))
}

fn fill_sections(hits: Vec<FusedHit>, found: &Vec<TitleSection>) -> (r: Vec<FusedHit>)
    ensures
        hit_views(r@) == all_sectioned(hit_views(hits@), found@),
{
    let ghost orig = hits@;
    let mut out: Vec<FusedHit> = Vec::new();
    for h in it: hits
        invariant
            it.seq() == orig,
            out@.len() == it.index(),
            forall|j: int| 0 <= j < it.index() ==> (#[trigger] out@[j])@ == sectioned(orig[j]@, found@),
    {
        let mut h = h;
        if h.section.as_str().is_empty() {
            match rows::find_title(found, h.note_id.as_str()) {
                Some(row) => {
                    h.section = row.section.clone();
                },
                None => {},
            }
        }
        out.push(h);
    }
    assert(hit_views(out@) =~= all_sectioned(hit_views(orig), found@));
    out
}

/// A hit with its score.
struct ScoredHit {
    hit: FusedHit,
    score: String,
}

/// The contents of a list of scored hits.
spec fn scored_views(v: Seq<ScoredHit>) -> Seq<(Hit, Seq<char>)> {
    v.map_values(|s: ScoredHit| (s.hit@, s.score@))
}

/// The ranks of a list of scores.
pub open spec fn ranks_of(v: Seq<Scored>) -> Seq<i64> {
    v.map_values(|s: Scored| s.rank)
}

/// As many of `a` and `b` as there are of both.
pub open spec fn common(a: nat, b: nat) -> nat {
    if a <= b {
        a
    } else {
        b
    }
}

/// Each hit with its score, as far as both lists go.
pub open spec fn paired(hits: Seq<Hit>, scores: Seq<Seq<char>>) -> Seq<(Hit, Seq<char>)> {
    Seq::new(common(hits.len(), scores.len()), |i: int| (hits[i], scores[i]))
}

/// The texts of a list of scores.
pub open spec fn score_texts(v: Seq<Scored>) -> Seq<Seq<char>> {
    v.map_values(|s: Scored| s.score@)
}

/// Each hit with its score, from the lowest rank to the highest; equal ranks keep their order.
pub open spec fn ranked(hits: Seq<Hit>, scores: Seq<Scored>) -> Seq<(Hit, Seq<char>)> {
    let n = common(hits.len(), scores.len()) as int;
    order::arranged(
        paired(hits, score_texts(scores)),
        order::rank_positions(ranks_of(scores.take(n))),
    )
}

fn pair_up(hits: Vec<FusedHit>, scores: &Vec<Scored>) -> (r: Vec<ScoredHit>)
    ensures
        scored_views(r@) == paired(hit_views(hits@), score_texts(scores@)),
        r@.len() == common(hits@.len(), scores@.len()),
{
    let ghost orig = hits@;
    let mut out: Vec<ScoredHit> = Vec::new();
    let mut i: usize = 0;
    for h in it: hits
        invariant
            it.seq() == orig,
            i == common(it.index() as nat, scores@.len()),
            out@.len() == i,
            forall|j: int|
                0 <= j < i ==> (#[trigger] out@[j]).hit@ == orig[j]@ && out@[j].score@
                    == scores@[j].score@,
    {
        if i < scores.len() {
            out.push(ScoredHit { hit: h, score: scores[i].score.clone() });
            i = i + 1;
        }
    }
    assert(scored_views(out@) =~= paired(hit_views(orig), score_texts(scores@)));
    out
}

fn rank_hits(hits: Vec<FusedHit>, scores: &Vec<Scored>) -> (r: Vec<ScoredHit>)
    ensures
        scored_views(r@) == ranked(hit_views(hits@), scores@),
{
    let ghost orig = hit_views(hits@);
    let pairs = pair_up(hits, scores);
    let n: usize = pairs.len();
    let mut ranks: Vec<i64> = Vec::new();
    let mut i: usize = 0;
    while i < n
        invariant
            i <= n,
            n == common(orig.len(), scores@.len()),
            ranks@.len() == i,
            forall|j: int| 0 <= j < i ==> #[trigger] ranks@[j] == scores@[j].rank,
        decreases n - i,
    {
        ranks.push(scores[i].rank);
        i = i + 1;
    }
    assert(ranks@ =~= ranks_of(scores@.take(n as int)));
    let p = order::rank_order(&ranks);
    let ghost before = pairs@;
    let out = order::arrange(pairs, &p);
    proof {
        let q = order::rank_positions(ranks_of(scores@.take(n as int)));
        assert forall|k: int| 0 <= k < q.len() implies scored_views(out@)[k] == ranked(
            orig,
            scores@,
        )[k] by {
            assert(0 <= q[k] < n);
            assert(scored_views(before)[q[k] as int] == paired(orig, score_texts(scores@))[q[k] as int]);
        }
        assert(scored_views(out@) =~= ranked(orig, scores@));
    }
    out
}

/// The first `n` of `s`, or all of them when there are no more.
pub open spec fn first_of<T>(s: Seq<T>, n: nat) -> Seq<T> {
    s.take(common(n, s.len()) as int)
}

/// How many hits the reranker gets: its batch, at most twenty.
pub open spec fn rerank_size(st: SearchSettings) -> nat {
    common(st.rerank_batch as nat, 20)
}

/// Whether the ranked hits are handed to the reranker.
pub open spec fn rerank_due(st: SearchSettings, hits: Seq<(Hit, Seq<char>)>) -> bool {
    st.reranker_active && hits.len() > 0 && rerank_size(st) > 0
}

/// The hits of a scored list.
pub open spec fn bare_hits(v: Seq<(Hit, Seq<char>)>) -> Seq<Hit> {
    v.map_values(|p: (Hit, Seq<char>)| p.0)
}

/// The notes of a list of hits.
pub open spec fn hit_ids(v: Seq<Hit>) -> Seq<Seq<char>> {
    v.map_values(|h: Hit| h.note_id)
}

/// The hits as the reranker leaves them: in its order, or in the order they had when it failed.
pub open spec fn after_rerank(top: Seq<Hit>, outcome: Reranked) -> Seq<(Hit, Seq<char>)> {
    match outcome {
        Reranked::Ranked(v) => ranked(top, v@),
        Reranked::Failed(scores) => paired(top, text::views(scores@)),
    }
}

/// The notes that only the semantic arm found, in order.
pub open spec fn semantic_only_ids(v: Seq<(Hit, Seq<char>)>) -> Seq<Seq<char>>
    decreases v.len(),
{
    if v.len() == 0 {
        Seq::empty()
    } else if v.last().0.semantic_only {
        semantic_only_ids(v.drop_last()).push(v.last().0.note_id)
    } else {
        semantic_only_ids(v.drop_last())
    }
}

/// A hit with what the index knows of its title, section and status, where it had none.
pub open spec fn completed(
    h: Hit,
    found: Seq<TitleSection>,
    statuses: Seq<StatusRow>,
    anchors: Seq<AnchorRow>,
) -> Hit {
    Hit {
        title: match h.title {
            Some(t) => Some(t),
            None => match rows::title_row(found, h.note_id) {
                Some(row) => rows::nonblank(rows::opt_text(row.title)),
                None => None,
            },
        },
        section: sectioned(h, found).section,
        status: if h.status.len() == 0 {
            match rows::status_of(statuses, h.note_id) {
                Some(s) => s,
                None => h.status,
            }
        } else {
            h.status
        },
        anchor_ms: if h.anchor_ms is None && h.semantic_only {
            rows::anchor_of(anchors, h.note_id)
        } else {
            h.anchor_ms
        },
        ..h
    }
}

/// A [`SearchHit`] by its contents.
pub struct Item {
    pub vault_id: Seq<char>,
    pub path: Seq<char>,
    pub score: Seq<char>,
    pub title: Option<Seq<char>>,
    pub snippet: Option<Seq<char>>,
    pub status: Seq<char>,
    pub anchor_ms: Option<i64>,
}

impl View for SearchHit {
    type V = Item;

    open spec fn view(&self) -> Item {
        Item {
            vault_id: self.vault_id@,
            path: self.path@,
            score: self.score@,
            title: rows::opt_text(self.title),
            snippet: rows::opt_text(self.snippet),
            status: self.status@,
            anchor_ms: self.anchor_ms,
        }
    }
}

/// The contents of a list of results.
pub open spec fn item_views(v: Seq<SearchHit>) -> Seq<Item> {
    v.map_values(|h: SearchHit| h@)
}

/// A hit as a result of a search of `vault`.
pub open spec fn shown(vault: Seq<char>, h: Hit, score: Seq<char>) -> Item {
    Item {
        vault_id: vault,
        path: (if h.section.len() == 0 {
            "main"@
        } else {
            h.section
        }) + "/"@ + h.note_id,
        score,
        title: h.title,
        snippet: h.snippet,
        status: h.status,
        anchor_ms: h.anchor_ms,
    }
}

/// The results of a search: the hits completed, without those whose section is kept from the
/// caller.
pub open spec fn results(
    vault: Seq<char>,
    privileged: bool,
    v: Seq<(Hit, Seq<char>)>,
    found: Seq<TitleSection>,
    statuses: Seq<StatusRow>,
    anchors: Seq<AnchorRow>,
) -> Seq<Item>
    decreases v.len(),
{
    if v.len() == 0 {
        Seq::empty()
    } else {
        let rest = results(vault, privileged, v.drop_last(), found, statuses, anchors);
        let h = completed(v.last().0, found, statuses, anchors);
        if identity::section_hidden(privileged, h.section) {
            rest
        } else {
            rest.push(shown(vault, h, v.last().1))
        }
    }
}

fn take_scored(v: Vec<ScoredHit>, n: usize) -> (r: Vec<ScoredHit>)
    ensures
        scored_views(r@) == first_of(scored_views(v@), n as nat),
{
    let ghost orig = v@;
    let mut v = v;
    if v.len() > n {
        v.truncate(n);
    }
    assert(scored_views(v@) =~= first_of(scored_views(orig), n as nat));
    v
}

fn strip_scores(v: Vec<ScoredHit>) -> (r: Vec<FusedHit>)
    ensures
        hit_views(r@) == bare_hits(scored_views(v@)),
{
    let ghost orig = v@;
    let mut out: Vec<FusedHit> = Vec::new();
    for s in it: v
        invariant
            it.seq() == orig,
            out@.len() == it.index(),
            forall|j: int| 0 <= j < it.index() ==> (#[trigger] out@[j])@ == orig[j].hit@,
    {
        out.push(s.hit);
    }
    assert(hit_views(out@) =~= bare_hits(scored_views(orig)));
    out
}

fn ids_of_hits(v: &Vec<FusedHit>) -> (r: Vec<String>)
    ensures
        text::views(r@) == hit_ids(hit_views(v@)),
{
    let mut out: Vec<String> = Vec::new();
    let mut i: usize = 0;
    while i < v.len()
        invariant
            i <= v@.len(),
            out@.len() == i,
            forall|j: int| 0 <= j < i ==> (#[trigger] out@[j])@ == v@[j].note_id@,
        decreases v@.len() - i,
    {
        out.push(v[i].note_id.clone());
        i = i + 1;
    }
    assert(text::views(out@) =~= hit_ids(hit_views(v@)));
    out
}

/// What the ranks of a list of hits depend on, besides their fused scores.
pub open spec fn rank_inputs(v: Seq<Hit>) -> Seq<(Seq<char>, Seq<char>, Option<i64>)> {
    v.map_values(|h: Hit| (h.note_id, h.section, h.anchor_ms))
}

fn inputs_of_hits(v: &Vec<FusedHit>) -> (r: Vec<RankInput>)
    ensures
        input_views(r@) == rank_inputs(hit_views(v@)),
{
    let mut out: Vec<RankInput> = Vec::new();
    let mut i: usize = 0;
    while i < v.len()
        invariant
            i <= v@.len(),
            out@.len() == i,
            forall|j: int|
                0 <= j < i ==> (#[trigger] out@[j]).note_id@ == v@[j].note_id@ && out@[j].section@
                    == v@[j].section@ && out@[j].anchor_ms == v@[j].anchor_ms,
        decreases v@.len() - i,
    {
        out.push(
            RankInput {
                note_id: v[i].note_id.clone(),
                section: v[i].section.clone(),
                anchor_ms: v[i].anchor_ms,
            },
        );
        i = i + 1;
    }
    assert(input_views(out@) =~= rank_inputs(hit_views(v@)));
    out
}

fn pair_texts(hits: Vec<FusedHit>, scores: &Vec<String>) -> (r: Vec<ScoredHit>)
    ensures
        scored_views(r@) == paired(hit_views(hits@), text::views(scores@)),
{
    let ghost orig = hits@;
    let mut out: Vec<ScoredHit> = Vec::new();
    let mut i: usize = 0;
    for h in it: hits
        invariant
            it.seq() == orig,
            i == common(it.index() as nat, scores@.len()),
            out@.len() == i,
            forall|j: int|
                0 <= j < i ==> (#[trigger] out@[j]).hit@ == orig[j]@ && out@[j].score@
                    == scores@[j]@,
    {
        if i < scores.len() {
            out.push(ScoredHit { hit: h, score: scores[i].clone() });
            i = i + 1;
        }
    }
    assert(scored_views(out@) =~= paired(hit_views(orig), text::views(scores@)));
    out
}

fn only_semantic(v: &Vec<ScoredHit>) -> (r: Vec<String>)
    ensures
        text::views(r@) == semantic_only_ids(scored_views(v@)),
{
    let mut out: Vec<String> = Vec::new();
    let mut i: usize = 0;
    let ghost all = scored_views(v@);
    assert(all.take(0) =~= Seq::empty());
    assert(text::views(out@) =~= semantic_only_ids(all.take(0)));
    while i < v.len()
        invariant
            i <= v@.len(),
            all == scored_views(v@),
            text::views(out@) == semantic_only_ids(all.take(i as int)),
        decreases v@.len() - i,
    {
        let ghost prev = out@;
        assert(all.take(i + 1).drop_last() =~= all.take(i as int));
        assert(all.take(i + 1).last() == (v@[i as int].hit@, v@[i as int].score@));
        if v[i].hit.semantic_only {
            out.push(v[i].hit.note_id.clone());
            assert(text::views(out@) =~= text::views(prev).push(v@[i as int].hit.note_id@));
        }
        i = i + 1;
    }
    assert(all.take(all.len() as int) =~= all);
    out
}

fn complete(
    h: FusedHit,
    found: &Vec<TitleSection>,
    statuses: &Vec<StatusRow>,
    anchors: &Vec<AnchorRow>,
) -> (r: FusedHit)
    ensures
        r@ == completed(h@, found@, statuses@, anchors@),
{
    let mut h = h;
    let ghost orig = h@;
    match rows::find_title(found, h.note_id.as_str()) {
        Some(row) => {
            if h.title.is_none() {
                h.title = rows::keep_nonblank(&row.title);
            }
            if h.section.as_str().is_empty() {
                h.section = row.section.clone();
            }
        },
        None => {},
    }
    if h.status.as_str().is_empty() {
        match rows::find_status(statuses, h.note_id.as_str()) {
            Some(s) => {
                h.status = s.clone();
            },
            None => {},
        }
    }
    if h.anchor_ms.is_none() && h.semantic_only {
        h.anchor_ms = rows::find_anchor(anchors, h.note_id.as_str());
    }
    h
}

fn show_all(
    vault: &str,
    privileged: bool,
    v: Vec<ScoredHit>,
    found: &Vec<TitleSection>,
    statuses: &Vec<StatusRow>,
    anchors: &Vec<AnchorRow>,
) -> (r: Vec<SearchHit>)
    ensures
        item_views(r@) == results(
            vault@,
            privileged,
            scored_views(v@),
            found@,
            statuses@,
            anchors@,
        ),
{
    let ghost all = scored_views(v@);
    let ghost orig = v@;
    let mut out: Vec<SearchHit> = Vec::new();
    assert(all.take(0) =~= Seq::empty());
    assert(item_views(out@) =~= results(
        vault@,
        privileged,
        all.take(0),
        found@,
        statuses@,
        anchors@,
    ));
    for s in it: v
        invariant
            it.seq() == orig,
            all == scored_views(orig),
            item_views(out@) == results(
                vault@,
                privileged,
                all.take(it.index() as int),
                found@,
                statuses@,
                anchors@,
            ),
    {
        let ghost k = it.index() as int;
        let ghost prev = out@;
        assert(all.take(k + 1).drop_last() =~= all.take(k));
        assert(all.take(k + 1).last() == (s.hit@, s.score@));
        let h = complete(s.hit, found, statuses, anchors);
        if !identity::identity_section_hidden(privileged, h.section.as_str()) {
            let mut path = if h.section.as_str().is_empty() {
                "main".to_owned()
            } else {
                h.section.clone()
            };
            path.append("/");
            path.append(h.note_id.as_str());
            let item = SearchHit {
                vault_id: vault.to_owned(),
                path,
                score: s.score,
                title: h.title,
                snippet: h.snippet,
                status: h.status,
                anchor_ms: h.anchor_ms,
            };
            out.push(item);
            assert(item_views(out@) =~= item_views(prev).push(item@));
        }
    }
    assert(all.take(all.len() as int) =~= all);
    out
}

// ── The whole search ────────────────────────────────────────────────────────

/// What the lexical arm found.
pub open spec fn words_found(a: SearchAnswers) -> Seq<LexicalHit> {
    a.lexical->0->Ok_0@
}

/// The rows of an optional lookup: none when it was not due or failed.
pub open spec fn rows_or_none(
    due: bool,
    answer: Option<Result<Vec<TitleSection>, GradatumError>>,
) -> Seq<TitleSection> {
    if !due {
        Seq::empty()
    } else {
        match answer->0 {
            Ok(v) => v@,
            Err(_) => Seq::empty(),
        }
    }
}

/// The rows of an optional lookup: none when it was not due or failed.
pub open spec fn statuses_or_none(
    due: bool,
    answer: Option<Result<Vec<StatusRow>, GradatumError>>,
) -> Seq<StatusRow> {
    if !due {
        Seq::empty()
    } else {
        match answer->0 {
            Ok(v) => v@,
            Err(_) => Seq::empty(),
        }
    }
}

/// The fused hits with what the lexical arm knows of them.
pub open spec fn hits_enriched(
    req: VaultSearchRequest,
    st: SearchSettings,
    a: SearchAnswers,
) -> Seq<Hit> {
    all_enriched(
        hit_views(a.fused->0@),
        words_found(a),
        sections_excluded(req, st),
        semantic_anchors(req, st, a),
    )
}

/// The fused hits, each with its section as far as it is known.
pub open spec fn hits_sectioned(
    req: VaultSearchRequest,
    st: SearchSettings,
    a: SearchAnswers,
) -> Seq<Hit> {
    let hits = hits_enriched(req, st, a);
    all_sectioned(hits, rows_or_none(ids_without_section(hits).len() > 0, a.fused_sections))
}

/// The hits in the order of their ranks.
pub open spec fn hits_ranked(
    req: VaultSearchRequest,
    st: SearchSettings,
    a: SearchAnswers,
) -> Seq<(Hit, Seq<char>)> {
    ranked(hits_sectioned(req, st, a), a.ranks->0->Ok_0@)
}

/// The hits that the reranker gets.
pub open spec fn hits_for_rerank(
    req: VaultSearchRequest,
    st: SearchSettings,
    a: SearchAnswers,
) -> Seq<Hit> {
    bare_hits(first_of(hits_ranked(req, st, a), rerank_size(st)))
}

/// The hits in their final order, no more than the limit.
pub open spec fn hits_final(
    req: VaultSearchRequest,
    st: SearchSettings,
    a: SearchAnswers,
) -> Seq<(Hit, Seq<char>)> {
    let by_rank = hits_ranked(req, st, a);
    let last = if rerank_due(st, by_rank) {
        after_rerank(hits_for_rerank(req, st, a), a.reranked->0)
    } else {
        by_rank
    };
    first_of(last, result_limit(req))
}

/// The questions that ranking and showing ask, in order.
pub open spec fn ranking_gate(
    req: VaultSearchRequest,
    st: SearchSettings,
    a: SearchAnswers,
    vault: Seq<char>,
) -> SearchGate {
    let missing = ids_without_section(hits_enriched(req, st, a));
    let only = semantic_only_ids(hits_final(req, st, a));
    if a.fused is None {
        SearchGate::Ask(
            SearchQuestion::Fuse {
                lexical: word_scores(words_found(a), sections_excluded(req, st)),
                semantic: semantic_kept(req, st, a),
                short_circuit: st.embedder_active,
                buffer: fusion_buffer(req),
            },
        )
    } else if missing.len() > 0 && a.fused_sections is None {
        SearchGate::Ask(SearchQuestion::FusedSections { vault, ids: missing })
    } else if a.ranks is None {
        SearchGate::Ask(
            SearchQuestion::Rank {
                vault,
                tenant: a.tenant->0->0@,
                hits: rank_inputs(hits_sectioned(req, st, a)),
            },
        )
    } else if a.ranks->0 is Err {
        SearchGate::Fail(a.ranks->0->Err_0@)
    } else if rerank_due(st, hits_ranked(req, st, a)) && a.reranked is None {
        SearchGate::Ask(
            SearchQuestion::Rerank {
                tenant: a.tenant->0->0@,
                query: text::trimmed(req.query@),
                ids: hit_ids(hits_for_rerank(req, st, a)),
            },
        )
    } else if only.len() > 0 && a.hit_titles is None {
        SearchGate::Ask(SearchQuestion::HitTitles { vault, ids: only })
    } else if only.len() > 0 && a.hit_statuses is None {
        SearchGate::Ask(SearchQuestion::HitStatuses { vault, ids: only })
    } else if req.include_corpus_count && a.corpus is None {
        SearchGate::Ask(SearchQuestion::Corpus { query: word_query(req, vault, 0, None, None) })
    } else {
        SearchGate::Pass
    }
}

/// The next step of a search, leaving the reply itself aside.
pub open spec fn search_gate(
    trust: TrustContext,
    req: VaultSearchRequest,
    st: SearchSettings,
    a: SearchAnswers,
) -> SearchGate {
    let entry = entry_gate(trust, req, st, a);
    if !(entry is Pass) {
        entry
    } else {
        let vault = vault_read(req, st, a);
        let arms = arms_gate(req, st, a, vault);
        if !(arms is Pass) {
            arms
        } else {
            ranking_gate(req, st, a, vault)
        }
    }
}

/// The results that the reply holds.
pub open spec fn reply_items(
    trust: TrustContext,
    req: VaultSearchRequest,
    st: SearchSettings,
    a: SearchAnswers,
) -> Seq<Item> {
    let hits = hits_final(req, st, a);
    let due = semantic_only_ids(hits).len() > 0;
    results(
        vault_read(req, st, a),
        identity::identity_privileged(trust),
        hits,
        rows_or_none(due, a.hit_titles),
        statuses_or_none(due, a.hit_statuses),
        semantic_anchors(req, st, a),
    )
}

/// How many notes match the words, and whether the count stopped at its bound, as the reply
/// says it.
pub open spec fn reply_corpus(req: VaultSearchRequest, a: SearchAnswers) -> (Option<u64>, bool) {
    if !req.include_corpus_count {
        (None, false)
    } else {
        match a.corpus->0 {
            Ok((n, capped)) => (Some(n), capped),
            Err(_) => (None, false),
        }
    }
}

/// Whether `n` is the step that the search takes.
pub open spec fn search_follows(
    n: SearchNext,
    trust: TrustContext,
    req: VaultSearchRequest,
    st: SearchSettings,
    a: SearchAnswers,
) -> bool {
    match n {
        SearchNext::Ask(q) => search_gate(trust, req, st, a) == SearchGate::Ask(q@),
        SearchNext::Fail(e) => search_gate(trust, req, st, a) == SearchGate::Fail(e@),
        SearchNext::Reply(resp) => {
            &&& search_gate(trust, req, st, a) is Pass
            &&& item_views(resp.items@) == reply_items(trust, req, st, a)
            &&& (resp.corpus_match_count, resp.corpus_count_capped) == reply_corpus(req, a)
        },
    }
}

fn halt(h: Halt) -> (r: SearchNext)
    ensures
        match r {
            SearchNext::Ask(q) => h@ == SearchGate::Ask(q@),
            SearchNext::Fail(e) => h@ == SearchGate::Fail(e@),
            SearchNext::Reply(_) => false,
        },
{
    match h {
        Halt::Ask(q) => SearchNext::Ask(q),
        Halt::Fail(e) => SearchNext::Fail(e),
    }
}

fn title_rows<'a>(
    due: bool,
    answer: &'a Option<Result<Vec<TitleSection>, GradatumError>>,
    none: &'a Vec<TitleSection>,
) -> (r: Option<&'a Vec<TitleSection>>)
    requires
        none@.len() == 0,
    ensures
        match r {
            Some(v) => (due ==> *answer is Some) && v@ == rows_or_none(due, *answer),
            None => due && *answer is None,
        },
{
    if !due {
        assert(none@ =~= Seq::empty());
        return Some(none);
    }
    match answer {
        None => None,
        Some(Ok(v)) => Some(v),
        Some(Err(_)) => {
            assert(none@ =~= Seq::empty());
            Some(none)
        },
    }
}

fn status_rows<'a>(
    due: bool,
    answer: &'a Option<Result<Vec<StatusRow>, GradatumError>>,
    none: &'a Vec<StatusRow>,
) -> (r: Option<&'a Vec<StatusRow>>)
    requires
        none@.len() == 0,
    ensures
        match r {
            Some(v) => (due ==> *answer is Some) && v@ == statuses_or_none(due, *answer),
            None => due && *answer is None,
        },
{
    if !due {
        assert(none@ =~= Seq::empty());
        return Some(none);
    }
    match answer {
        None => None,
        Some(Ok(v)) => Some(v),
        Some(Err(_)) => {
            assert(none@ =~= Seq::empty());
            Some(none)
        },
    }
}

/// The next step of a search: what to ask, why to refuse, or the results.
pub fn vault_search_impl(
    trust: &TrustContext,
    req: &VaultSearchRequest,
    st: &SearchSettings,
    a: &SearchAnswers,
) -> (r: SearchNext)
    ensures
        search_follows(r, *trust, *req, *st, *a),
{
    let vault = match enter(trust, req, st, a) {
        Ok(v) => v,
        Err(h) => return halt(h),
    };
    let arms = match run_arms(req, st, a, vault.as_str()) {
        Ok(x) => x,
        Err(h) => return halt(h),
    };
    let tenant = match &a.tenant {
        Some(Some(t)) => t.clone(),
        _ => String::new(),
    };
    let excluded = excluded_of(req, st);
    let limit = limit_of(req);
    let no_words: Vec<LexicalHit> = Vec::new();
    let words: &Vec<LexicalHit> = match &a.lexical {
        Some(Ok(v)) => v,
        _ => &no_words,
    };
    let fused = match &a.fused {
        None => {
            let n: usize = limit * 4;
            let buffer: usize = if n < 20 {
                20
            } else if n > 200 {
                200
            } else {
                n
            };
            return SearchNext::Ask(
                SearchAsk::Fuse {
                    lexical: lexical_scores(words, &excluded),
                    semantic: arms.semantic,
                    short_circuit: st.embedder_active,
                    buffer,
                },
            );
        },
        Some(v) => v,
    };
    let hits = enrich_all(fused, words, &excluded, &arms.anchors);
    let missing = missing_sections(&hits);
    let no_titles: Vec<TitleSection> = Vec::new();
    let no_statuses: Vec<StatusRow> = Vec::new();
    assert(missing@.len() == ids_without_section(hits_enriched(*req, *st, *a)).len());
    let hits = match title_rows(missing.len() > 0, &a.fused_sections, &no_titles) {
        None => return SearchNext::Ask(SearchAsk::FusedSections { vault, ids: missing }),
        Some(found) => fill_sections(hits, found),
    };
    let by_rank = match &a.ranks {
        None => return SearchNext::Ask(
            SearchAsk::Rank { vault, tenant, hits: inputs_of_hits(&hits) },
        ),
        Some(Err(e)) => return SearchNext::Fail(e.copy()),
        Some(Ok(scores)) => rank_hits(hits, scores),
    };
    let size: usize = if st.rerank_batch <= 20 {
        st.rerank_batch
    } else {
        20
    };
    assert(by_rank@.len() == hits_ranked(*req, *st, *a).len());
    let last = if st.reranker_active && by_rank.len() > 0 && size > 0 {
        let top = strip_scores(take_scored(by_rank, size));
        match &a.reranked {
            None => return SearchNext::Ask(
                SearchAsk::Rerank {
                    tenant,
                    query: text::trim(req.query.as_str()),
                    ids: ids_of_hits(&top),
                },
            ),
            Some(Reranked::Ranked(scores)) => rank_hits(top, scores),
            Some(Reranked::Failed(scores)) => pair_texts(top, scores),
        }
    } else {
        by_rank
    };
    let last = take_scored(last, limit);
    assert(scored_views(last@) == hits_final(*req, *st, *a));
    let only = only_semantic(&last);
    assert(only@.len() == semantic_only_ids(hits_final(*req, *st, *a)).len());
    let due = only.len() > 0;
    let found = match title_rows(due, &a.hit_titles, &no_titles) {
        None => return SearchNext::Ask(SearchAsk::HitTitles { vault, ids: only }),
        Some(v) => v,
    };
    let statuses = match status_rows(due, &a.hit_statuses, &no_statuses) {
        None => return SearchNext::Ask(SearchAsk::HitStatuses { vault, ids: only }),
        Some(v) => v,
    };
    let corpus: (Option<u64>, bool) = if req.include_corpus_count {
        match &a.corpus {
            None => return SearchNext::Ask(
                SearchAsk::Corpus { query: lexical_query(req, vault.as_str(), 0, None, None) },
            ),
            Some(Ok((n, capped))) => (Some(*n), *capped),
            Some(Err(_)) => (None, false),
        }
    } else {
        (None, false)
    };
    let privileged = identity::is_identity_privileged(trust);
    let items = show_all(vault.as_str(), privileged, last, found, statuses, &arms.anchors);
    SearchNext::Reply(
        VaultSearchResponse {
            items,
            corpus_match_count: corpus.0,
            corpus_count_capped: corpus.1,
        },
    )
}

// ── What a search leaves behind ─────────────────────────────────────────────

/// The uses that the first `n` results count: each result is a hit, and the first three are
/// top hits besides.
pub open spec fn uses_of(items: Seq<Item>, n: int) -> Seq<(Seq<char>, Seq<char>)>
    decreases n,
{
    if n <= 0 {
        Seq::empty()
    } else {
        let id = text::tail_segment(items[n - 1].path);
        let rest = uses_of(items, n - 1).push((id, "search-hit"@));
        if n <= 3 {
            rest.push((id, "search-hit-top3"@))
        } else {
            rest
        }
    }
}

/// The contents of a list of uses.
pub open spec fn use_views(v: Seq<NoteUse>) -> Seq<(Seq<char>, Seq<char>)> {
    v.map_values(|u: NoteUse| (u.note_id@, u.kind@))
}

/// The uses that the results of a search count.
pub fn note_uses(items: &Vec<SearchHit>) -> (r: Vec<NoteUse>)
    ensures
        use_views(r@) == uses_of(item_views(items@), items@.len() as int),
{
    let mut out: Vec<NoteUse> = Vec::new();
    let mut i: usize = 0;
    let ghost all = item_views(items@);
    assert(use_views(out@) =~= uses_of(all, 0));
    while i < items.len()
        invariant
            i <= items@.len(),
            all == item_views(items@),
            use_views(out@) == uses_of(all, i as int),
        decreases items@.len() - i,
    {
        let ghost before = out@;
        let id = text::last_segment(items[i].path.as_str());
        out.push(NoteUse { note_id: id.clone(), kind: "search-hit".to_owned() });
        assert(use_views(out@) =~= use_views(before).push((id@, "search-hit"@)));
        if i < 3 {
            let ghost before = out@;
            out.push(NoteUse { note_id: id, kind: "search-hit-top3".to_owned() });
            assert(use_views(out@) =~= use_views(before).push((id@, "search-hit-top3"@)));
        }
        i = i + 1;
    }
    out
}

// ── Laws ────────────────────────────────────────────────────────────────────

/// Without a credential a search is refused, whatever has been answered.
pub proof fn search_needs_a_credential(
    req: VaultSearchRequest,
    st: SearchSettings,
    a: SearchAnswers,
)
    ensures
        search_gate(TrustContext::Unauthenticated, req, st, a) == SearchGate::Fail(
            Refusal::Unauthorized,
        ),
{
}

/// Whether the caller's right to read the vault has been established.
pub open spec fn right_established(st: SearchSettings, a: SearchAnswers) -> bool {
    if st.multi_tenant {
        a.read_vault matches Some(Ok(_))
    } else {
        a.acl == Some(true)
    }
}

/// Nothing but the questions about the caller's rights is asked, and nothing is shown, before
/// the right to read the vault is established.
pub proof fn search_asks_nothing_before_the_right_is_established(
    trust: TrustContext,
    req: VaultSearchRequest,
    st: SearchSettings,
    a: SearchAnswers,
)
    requires
        !right_established(st, a),
    ensures
        match search_gate(trust, req, st, a) {
            SearchGate::Ask(q) => q is Tenant || q is AclRead || q is ReadVault,
            SearchGate::Fail(_) => true,
            SearchGate::Pass => false,
        },
{
}

/// The words of a search reach the index as a well-formed query.
pub proof fn lexical_question_well_quoted(
    trust: TrustContext,
    req: VaultSearchRequest,
    st: SearchSettings,
    a: SearchAnswers,
)
    ensures
        search_gate(trust, req, st, a) matches SearchGate::Ask(SearchQuestion::Lexical { query })
            ==> fts::well_quoted(query.query) && query.query.len() > 0,
{
    fts::fts_query_well_quoted(text::trimmed(req.query@));
    fts::fts_query_empty_iff_blank(text::trimmed(req.query@));
    lemma_trimmed_idempotent(req.query@);
}

proof fn lemma_trimmed_idempotent(s: Seq<char>)
    ensures
        text::trimmed(text::trimmed(s)) == text::trimmed(s),
    decreases s.len(),
{
    if s.len() > 0 && text::whitespace(s[0]) {
        lemma_trimmed_idempotent(s.drop_first());
    } else if s.len() > 0 && text::whitespace(s.last()) {
        lemma_trimmed_idempotent(s.drop_last());
    }
}

proof fn lemma_results_from_hits(
    vault: Seq<char>,
    privileged: bool,
    v: Seq<(Hit, Seq<char>)>,
    found: Seq<TitleSection>,
    statuses: Seq<StatusRow>,
    anchors: Seq<AnchorRow>,
    i: int,
)
    requires
        0 <= i < results(vault, privileged, v, found, statuses, anchors).len(),
    ensures
        exists|h: Hit, score: Seq<char>|
            results(vault, privileged, v, found, statuses, anchors)[i] == #[trigger] shown(
                vault,
                h,
                score,
            ) && !identity::section_hidden(privileged, h.section),
    decreases v.len(),
{
    let rest = results(vault, privileged, v.drop_last(), found, statuses, anchors);
    if i < rest.len() {
        lemma_results_from_hits(vault, privileged, v.drop_last(), found, statuses, anchors, i);
    } else {
        let h = completed(v.last().0, found, statuses, anchors);
        assert(results(vault, privileged, v, found, statuses, anchors)[i] == shown(
            vault,
            h,
            v.last().1,
        ));
    }
}

proof fn lemma_results_no_more(
    vault: Seq<char>,
    privileged: bool,
    v: Seq<(Hit, Seq<char>)>,
    found: Seq<TitleSection>,
    statuses: Seq<StatusRow>,
    anchors: Seq<AnchorRow>,
)
    ensures
        results(vault, privileged, v, found, statuses, anchors).len() <= v.len(),
    decreases v.len(),
{
    if v.len() > 0 {
        lemma_results_no_more(vault, privileged, v.drop_last(), found, statuses, anchors);
    }
}

/// A search shows no soul to a caller without the privilege: the section of each result is
/// known, and it is not the section of souls.
pub proof fn search_shows_no_soul(
    trust: TrustContext,
    req: VaultSearchRequest,
    st: SearchSettings,
    a: SearchAnswers,
    i: int,
)
    requires
        !identity::identity_privileged(trust),
        0 <= i < reply_items(trust, req, st, a).len(),
    ensures
        exists|section: Seq<char>, id: Seq<char>|
            reply_items(trust, req, st, a)[i].path == #[trigger] (section + "/"@ + id) && section
                != "identity"@ && section.len() > 0,
{
    let hits = hits_final(req, st, a);
    let due = semantic_only_ids(hits).len() > 0;
    let vault = vault_read(req, st, a);
    let found = rows_or_none(due, a.hit_titles);
    let statuses = statuses_or_none(due, a.hit_statuses);
    let anchors = semantic_anchors(req, st, a);
    lemma_results_from_hits(vault, false, hits, found, statuses, anchors, i);
    let (h, score) = choose|h: Hit, score: Seq<char>|
        results(vault, false, hits, found, statuses, anchors)[i] == #[trigger] shown(
            vault,
            h,
            score,
        ) && !identity::section_hidden(false, h.section);
    assert(reply_items(trust, req, st, a)[i].path == h.section + "/"@ + h.note_id);
}

/// A search gives no more results than its limit, and never more than fifty; each says the
/// vault that it was read from.
pub proof fn search_bounded_and_attributed(
    trust: TrustContext,
    req: VaultSearchRequest,
    st: SearchSettings,
    a: SearchAnswers,
)
    ensures
        1 <= result_limit(req) <= 50,
        reply_items(trust, req, st, a).len() <= result_limit(req),
        forall|i: int|
            0 <= i < reply_items(trust, req, st, a).len() ==> (#[trigger] reply_items(
                trust,
                req,
                st,
                a,
            )[i]).vault_id == vault_read(req, st, a),
{
    let hits = hits_final(req, st, a);
    let due = semantic_only_ids(hits).len() > 0;
    let vault = vault_read(req, st, a);
    let privileged = identity::identity_privileged(trust);
    let found = rows_or_none(due, a.hit_titles);
    let statuses = statuses_or_none(due, a.hit_statuses);
    let anchors = semantic_anchors(req, st, a);
    lemma_results_no_more(vault, privileged, hits, found, statuses, anchors);
    assert forall|i: int| 0 <= i < reply_items(trust, req, st, a).len() implies (
    #[trigger] reply_items(trust, req, st, a)[i]).vault_id == vault_read(req, st, a) by {
        lemma_results_from_hits(vault, privileged, hits, found, statuses, anchors, i);
    }
}

/// Whether the hit that has the score at `x` comes before the one that has the score at `y`: by a
/// lower rank, and among equals as they came.
pub open spec fn outscores(v: Seq<Scored>, x: int, y: int) -> bool {
    v[x].rank < v[y].rank || (v[x].rank == v[y].rank && x < y)
}

proof fn lemma_ranked(hits: Seq<Hit>, scores: Vec<Scored>)
    ensures
        ({
            let n = common(hits.len(), scores@.len()) as int;
            let p = order::rank_positions(ranks_of(scores@.take(n)));
            let out = ranked(hits, scores@);
            &&& p.len() == n
            &&& out.len() == n
            &&& forall|i: int|
                0 <= i < n ==> 0 <= #[trigger] p[i] < n && out[i] == (
                    hits[p[i] as int],
                    scores@[p[i] as int].score@,
                )
            &&& forall|i: int, j: int|
                0 <= i < j < n ==> outscores(
                    scores@,
                    #[trigger] p[i] as int,
                    #[trigger] p[j] as int,
                )
            &&& scores@.len() <= usize::MAX
        }),
{
    assert(scores.len() == scores@.len());
    let n = common(hits.len(), scores@.len()) as int;
    let r = ranks_of(scores@.take(n));
    assert(r.len() == n);
    order::rank_positions_exist(r);
    let p = order::rank_positions(r);
    assert forall|i: int, j: int| 0 <= i < j < n implies outscores(
        scores@,
        #[trigger] p[i] as int,
        #[trigger] p[j] as int,
    ) by {
        assert(0 <= p[i] < n && 0 <= p[j] < n);
        assert(r[p[i] as int] == scores@[p[i] as int].rank);
        assert(r[p[j] as int] == scores@[p[j] as int].rank);
    }
}

proof fn lemma_sectioned_ids(req: VaultSearchRequest, st: SearchSettings, a: SearchAnswers)
    ensures
        hits_sectioned(req, st, a).len() == a.fused->0@.len(),
        forall|x: int|
            0 <= x < a.fused->0@.len() ==> (#[trigger] hits_sectioned(req, st, a)[x]).note_id
                == a.fused->0@[x].note_id@,
{
}

/// Hits come best first: of two that are shown, the first has the lower rank, or the same rank and
/// came first out of the fusion; each is shown with its own score.
pub proof fn hits_come_best_first(
    req: VaultSearchRequest,
    st: SearchSettings,
    a: SearchAnswers,
    i: int,
    j: int,
)
    requires
        !st.reranker_active,
        0 <= i < j < hits_final(req, st, a).len(),
    ensures
        exists|x: int, y: int|
            {
                &&& 0 <= x < a.ranks->0->Ok_0@.len() && x < a.fused->0@.len()
                &&& 0 <= y < a.ranks->0->Ok_0@.len() && y < a.fused->0@.len()
                &&& hits_final(req, st, a)[i].0.note_id == a.fused->0@[x].note_id@
                &&& hits_final(req, st, a)[i].1 == (#[trigger] a.ranks->0->Ok_0@[x]).score@
                &&& hits_final(req, st, a)[j].0.note_id == a.fused->0@[y].note_id@
                &&& hits_final(req, st, a)[j].1 == (#[trigger] a.ranks->0->Ok_0@[y]).score@
                &&& outscores(a.ranks->0->Ok_0@, x, y)
            },
{
    let scores = a.ranks->0->Ok_0;
    let hits = hits_sectioned(req, st, a);
    lemma_ranked(hits, scores);
    lemma_sectioned_ids(req, st, a);
    let n = common(hits.len(), scores@.len()) as int;
    let p = order::rank_positions(ranks_of(scores@.take(n)));
    let x = p[i] as int;
    let y = p[j] as int;
    assert(outscores(scores@, p[i] as int, p[j] as int));
    assert(hits_final(req, st, a)[i] == ranked(hits, scores@)[i]);
    assert(hits_final(req, st, a)[j] == ranked(hits, scores@)[j]);
    assert(scores@[x].score@ == hits_final(req, st, a)[i].1);
    assert(scores@[y].score@ == hits_final(req, st, a)[j].1);
}

/// A hit is left out only for the limit, and then every hit that is shown comes before it.
pub proof fn the_best_hits_are_kept(
    req: VaultSearchRequest,
    st: SearchSettings,
    a: SearchAnswers,
    y: int,
)
    requires
        !st.reranker_active,
        0 <= y < a.ranks->0->Ok_0@.len(),
        y < a.fused->0@.len(),
    ensures
        ({
            ||| exists|i: int|
                0 <= i < hits_final(req, st, a).len() && (#[trigger] hits_final(
                    req,
                    st,
                    a,
                )[i]).0.note_id == a.fused->0@[y].note_id@ && hits_final(req, st, a)[i].1
                    == a.ranks->0->Ok_0@[y].score@
            ||| hits_final(req, st, a).len() == result_limit(req) && forall|i: int|
                0 <= i < hits_final(req, st, a).len() ==> exists|x: int|
                    {
                        &&& 0 <= x < a.ranks->0->Ok_0@.len() && x < a.fused->0@.len()
                        &&& (#[trigger] hits_final(req, st, a)[i]).0.note_id
                            == a.fused->0@[x].note_id@
                        &&& hits_final(req, st, a)[i].1 == (#[trigger] a.ranks->0->Ok_0@[x]).score@
                        &&& outscores(a.ranks->0->Ok_0@, x, y)
                    }
        }),
{
    let scores = a.ranks->0->Ok_0;
    let hits = hits_sectioned(req, st, a);
    lemma_ranked(hits, scores);
    lemma_sectioned_ids(req, st, a);
    let n = common(hits.len(), scores@.len()) as int;
    let p = order::rank_positions(ranks_of(scores@.take(n)));
    let out = hits_final(req, st, a);
    order::every_rank_has_its_place(ranks_of(scores@.take(n)), y);
    let s = choose|s: int| 0 <= s < n && #[trigger] p[s] == y;
    if s < out.len() {
        assert(out[s] == ranked(hits, scores@)[s]);
        assert(out[s].0.note_id == a.fused->0@[y].note_id@);
    } else {
        assert forall|i: int| 0 <= i < out.len() implies exists|x: int|
            {
                &&& 0 <= x < a.ranks->0->Ok_0@.len() && x < a.fused->0@.len()
                &&& (#[trigger] hits_final(req, st, a)[i]).0.note_id == a.fused->0@[x].note_id@
                &&& hits_final(req, st, a)[i].1 == (#[trigger] a.ranks->0->Ok_0@[x]).score@
                &&& outscores(a.ranks->0->Ok_0@, x, y)
            } by {
            let x = p[i] as int;
            assert(outscores(scores@, p[i] as int, p[s] as int));
            assert(out[i] == ranked(hits, scores@)[i]);
            assert(scores@[x].score@ == out[i].1);
        }
    }
}

/// A search shows as many hits as its limit asks for, as far as there are that many.
pub proof fn the_limit_is_used_up(req: VaultSearchRequest, st: SearchSettings, a: SearchAnswers)
    ensures
        req.limit is None ==> result_limit(req) == 10,
        req.limit matches Some(n) ==> (1 <= n <= 50 ==> result_limit(req) == n) && (n < 1
            ==> result_limit(req) == 1) && (n > 50 ==> result_limit(req) == 50),
        !st.reranker_active ==> hits_final(req, st, a).len() == common(
            common(a.fused->0@.len(), a.ranks->0->Ok_0@.len()),
            result_limit(req),
        ),
{
    lemma_ranked(hits_sectioned(req, st, a), a.ranks->0->Ok_0);
}

/// The reranker gets the best hits in their order, as many as it takes at once and twenty at most,
/// and the query as it was given but for the space around it.
pub proof fn the_reranker_gets_the_best(
    trust: TrustContext,
    req: VaultSearchRequest,
    st: SearchSettings,
    a: SearchAnswers,
    i: int,
    j: int,
)
    requires
        search_gate(trust, req, st, a) is Ask,
        search_gate(trust, req, st, a)->Ask_0 is Rerank,
    ensures
        ({
            let q = search_gate(trust, req, st, a)->Ask_0;
            let ids = q->Rerank_ids;
            let n = common(a.fused->0@.len(), a.ranks->0->Ok_0@.len());
            &&& st.reranker_active
            &&& q->Rerank_query == text::trimmed(req.query@)
            &&& a.tenant matches Some(Some(t)) && q->Rerank_tenant == t@
            &&& ids.len() == common(n, common(st.rerank_batch as nat, 20))
            &&& 0 <= i < j < ids.len() ==> exists|x: int, y: int|
                {
                    &&& 0 <= x < n && 0 <= y < n
                    &&& ids[i] == a.fused->0@[x].note_id@
                    &&& ids[j] == a.fused->0@[y].note_id@
                    &&& #[trigger] outscores(a.ranks->0->Ok_0@, x, y)
                }
        }),
{
    let scores = a.ranks->0->Ok_0;
    let hits = hits_sectioned(req, st, a);
    lemma_ranked(hits, scores);
    lemma_sectioned_ids(req, st, a);
    let n = common(hits.len(), scores@.len()) as int;
    let p = order::rank_positions(ranks_of(scores@.take(n)));
    let ids = search_gate(trust, req, st, a)->Ask_0->Rerank_ids;
    if 0 <= i < j < ids.len() {
        assert(outscores(scores@, p[i] as int, p[j] as int));
        assert(ids[i] == hits[p[i] as int].note_id);
        assert(ids[j] == hits[p[j] as int].note_id);
    }
}

/// When the reranker ranked the hits that it got, they are shown in the order that it gave, with
/// the scores that it gave; when it failed they stay in the order that they had.
pub proof fn the_rerankers_order_counts(
    req: VaultSearchRequest,
    st: SearchSettings,
    a: SearchAnswers,
    i: int,
    j: int,
)
    requires
        st.reranker_active,
        st.rerank_batch > 0,
        hits_ranked(req, st, a).len() > 0,
        0 <= i < j < hits_final(req, st, a).len(),
    ensures
        a.reranked->0 matches Reranked::Ranked(v) ==> exists|x: int, y: int|
            {
                &&& 0 <= x < v@.len() && x < hits_for_rerank(req, st, a).len()
                &&& 0 <= y < v@.len() && y < hits_for_rerank(req, st, a).len()
                &&& hits_final(req, st, a)[i].0 == hits_for_rerank(req, st, a)[x]
                &&& hits_final(req, st, a)[i].1 == v@[x].score@
                &&& hits_final(req, st, a)[j].0 == hits_for_rerank(req, st, a)[y]
                &&& hits_final(req, st, a)[j].1 == v@[y].score@
                &&& #[trigger] outscores(v@, x, y)
            },
        a.reranked->0 matches Reranked::Failed(v) ==> {
            &&& hits_final(req, st, a)[i].0 == hits_for_rerank(req, st, a)[i]
            &&& hits_final(req, st, a)[i].1 == v@[i]@
            &&& hits_final(req, st, a)[j].0 == hits_for_rerank(req, st, a)[j]
            &&& hits_final(req, st, a)[j].1 == v@[j]@
        },
{
    let top = hits_for_rerank(req, st, a);
    let out = hits_final(req, st, a);
    match a.reranked->0 {
        Reranked::Ranked(v) => {
            lemma_ranked(top, v);
            let n = common(top.len(), v@.len()) as int;
            let p = order::rank_positions(ranks_of(v@.take(n)));
            assert(outscores(v@, p[i] as int, p[j] as int));
            assert(out[i] == ranked(top, v@)[i]);
            assert(out[j] == ranked(top, v@)[j]);
        },
        Reranked::Failed(v) => {
            assert(out[i] == paired(top, text::views(v@))[i]);
            assert(out[j] == paired(top, text::views(v@))[j]);
        },
    }
}

/// Whether a hit is one of those that were ranked, and comes before the one that has the score at
/// `y`.
pub open spec fn stands_before(h: Hit, top: Seq<Hit>, v: Seq<Scored>, y: int) -> bool {
    exists|x: int| 0 <= x < top.len() && h == top[x] && #[trigger] outscores(v, x, y)
}

/// What the reranker left in place is left in place: of the hits that it got, one is left out only
/// for the limit, and then every hit that is shown comes before it.
pub proof fn the_rerankers_best_are_kept(
    req: VaultSearchRequest,
    st: SearchSettings,
    a: SearchAnswers,
    y: int,
)
    requires
        st.reranker_active,
        st.rerank_batch > 0,
        hits_ranked(req, st, a).len() > 0,
        a.reranked->0 is Ranked,
        0 <= y < a.reranked->0->Ranked_0@.len(),
        y < hits_for_rerank(req, st, a).len(),
    ensures
        ({
            let out = hits_final(req, st, a);
            let top = hits_for_rerank(req, st, a);
            let v = a.reranked->0->Ranked_0@;
            ||| exists|i: int| 0 <= i < out.len() && (#[trigger] out[i]).0 == top[y]
            ||| out.len() == result_limit(req) && forall|i: int|
                0 <= i < out.len() ==> stands_before((#[trigger] out[i]).0, top, v, y)
        }),
{
    let v = a.reranked->0->Ranked_0;
    let top = hits_for_rerank(req, st, a);
    let out = hits_final(req, st, a);
    lemma_ranked(top, v);
    let n = common(top.len(), v@.len()) as int;
    let p = order::rank_positions(ranks_of(v@.take(n)));
    order::every_rank_has_its_place(ranks_of(v@.take(n)), y);
    let s = choose|s: int| 0 <= s < n && #[trigger] p[s] == y;
    if s < out.len() {
        assert(out[s] == ranked(top, v@)[s]);
        assert(out[s].0 == top[y]);
    } else {
        assert(ranked(top, v@).len() == n);
        assert(out.len() == result_limit(req));
        assert forall|i: int| 0 <= i < out.len() implies stands_before(
            (#[trigger] out[i]).0,
            top,
            v@,
            y,
        ) by {
            let x = p[i] as int;
            assert(outscores(v@, p[i] as int, p[s] as int));
            assert(out[i] == ranked(top, v@)[i]);
            assert(out[i].0 == top[x] && outscores(v@, x, y));
        }
    }
}

/// A hit of the words is the last one of its note that lies in no section that is left out.
proof fn lemma_word_hit(hits: Seq<LexicalHit>, excluded: Seq<Seq<char>>, id: Seq<char>, k: int)
    ensures
        0 <= k < hits.len() && hits[k].note_id@ == id && !excluded.contains(hits[k].section@) && (
        forall|j: int|
            k < j < hits.len() ==> (#[trigger] hits[j]).note_id@ != id || excluded.contains(
                hits[j].section@,
            )) ==> word_hit(hits, excluded, id) == Some(hits[k]),
        (forall|j: int|
            0 <= j < hits.len() ==> (#[trigger] hits[j]).note_id@ != id || excluded.contains(
                hits[j].section@,
            )) ==> word_hit(hits, excluded, id) is None,
    decreases hits.len(),
{
    if hits.len() > 0 {
        let rest = hits.drop_last();
        lemma_word_hit(rest, excluded, id, k);
        if forall|j: int|
            0 <= j < hits.len() ==> (#[trigger] hits[j]).note_id@ != id || excluded.contains(
                hits[j].section@,
            ) {
            assert forall|j: int| 0 <= j < rest.len() implies (#[trigger] rest[j]).note_id@ != id
                || excluded.contains(rest[j].section@) by {
                assert(rest[j] == hits[j]);
            }
            assert(hits[hits.len() - 1] == hits.last());
        }
        if 0 <= k < hits.len() - 1 {
            assert(rest[k] == hits[k]);
            if forall|j: int|
                k < j < hits.len() ==> (#[trigger] hits[j]).note_id@ != id || excluded.contains(
                    hits[j].section@,
                ) {
                assert(hits[hits.len() - 1] == hits.last());
                assert forall|j: int| k < j < rest.len() implies (#[trigger] rest[j]).note_id@ != id
                    || excluded.contains(rest[j].section@) by {
                    assert(rest[j] == hits[j]);
                }
            }
        }
    }
}

/// A hit that the words found has the section, the snippet, the title, the status and the moment
/// that they found it with; a hit that only its meaning found keeps what it has, and takes its
/// moment from its anchor.
pub proof fn a_hit_is_what_the_words_found(
    req: VaultSearchRequest,
    st: SearchSettings,
    a: SearchAnswers,
    x: int,
    k: int,
)
    requires
        0 <= x < a.fused->0@.len(),
    ensures
        ({
            let h = hits_enriched(req, st, a)[x];
            let f = a.fused->0@[x];
            let words = a.lexical->0->Ok_0@;
            let out = if req.section is None {
                text::views(st.default_excluded@)
            } else {
                Seq::empty()
            };
            let w = words[k];
            &&& hits_enriched(req, st, a).len() == a.fused->0@.len()
            &&& h.note_id == f.note_id@
            &&& h.semantic_only == f.semantic_only
            &&& 0 <= k < words.len() && w.note_id@ == f.note_id@ && !out.contains(w.section@) && (
            forall|j: int|
                k < j < words.len() ==> (#[trigger] words[j]).note_id@ != f.note_id@ || out.contains(
                    words[j].section@,
                )) ==> {
                &&& h.section == w.section@
                &&& h.snippet == Some(w.snippet@)
                &&& h.title == rows::nonblank(rows::opt_text(w.title))
                &&& h.status == w.status@
                &&& h.anchor_ms == w.anchor_ms
            }
            &&& (forall|j: int|
                0 <= j < words.len() ==> (#[trigger] words[j]).note_id@ != f.note_id@ || out.contains(
                    words[j].section@,
                )) ==> {
                &&& h.section == f.section@
                &&& h.snippet == rows::opt_text(f.snippet)
                &&& h.title == rows::opt_text(f.title)
                &&& h.status == f.status@
                &&& f.anchor_ms is Some ==> h.anchor_ms == f.anchor_ms
                &&& f.anchor_ms is None ==> h.anchor_ms == rows::anchor_of(
                    semantic_anchors(req, st, a),
                    f.note_id@,
                )
            }
        }),
{
    lemma_word_hit(words_found(a), sections_excluded(req, st), a.fused->0@[x].note_id@, k);
}

/// A hit without a section takes that of the row about it, if there is one; nothing else of it is
/// changed.
pub proof fn a_missing_section_is_looked_up(
    req: VaultSearchRequest,
    st: SearchSettings,
    a: SearchAnswers,
    x: int,
)
    requires
        0 <= x < a.fused->0@.len(),
    ensures
        ({
            let before = hits_enriched(req, st, a)[x];
            let after = hits_sectioned(req, st, a)[x];
            &&& hits_sectioned(req, st, a).len() == hits_enriched(req, st, a).len()
            &&& before.section.len() > 0 ==> after == before
            &&& after == Hit { section: after.section, ..before }
            &&& before.section.len() == 0 ==> match a.fused_sections->0 {
                Ok(found) => match rows::section_of(found@, before.note_id) {
                    Some(s) => after.section == s,
                    None => after == before,
                },
                Err(_) => after == before,
            }
        }),
{
    let hits = hits_enriched(req, st, a);
    if hits[x].section.len() == 0 {
        lemma_missing_section(hits, x);
    }
}

proof fn lemma_missing_section(hits: Seq<Hit>, x: int)
    requires
        0 <= x < hits.len(),
        hits[x].section.len() == 0,
    ensures
        ids_without_section(hits).contains(hits[x].note_id),
        ids_without_section(hits).len() > 0,
    decreases hits.len(),
{
    let rest = hits.drop_last();
    let ids = ids_without_section(hits);
    if x == hits.len() - 1 {
        assert(ids[ids.len() - 1] == hits[x].note_id);
    } else {
        assert(rest[x] == hits[x]);
        lemma_missing_section(rest, x);
        let old = ids_without_section(rest);
        let k = choose|k: int| 0 <= k < old.len() && old[k] == hits[x].note_id;
        assert(ids[k] == hits[x].note_id);
    }
}

/// What is missing of a hit is filled in from the rows about its note, and what it has is kept.
pub proof fn a_hit_is_completed_from_its_rows(
    h: Hit,
    found: Seq<TitleSection>,
    statuses: Seq<StatusRow>,
    anchors: Seq<AnchorRow>,
)
    ensures
        ({
            let c = completed(h, found, statuses, anchors);
            &&& c.note_id == h.note_id
            &&& c.snippet == h.snippet
            &&& h.title is Some ==> c.title == h.title
            &&& h.title is None ==> match rows::title_row(found, h.note_id) {
                Some(row) => c.title == rows::nonblank(rows::opt_text(row.title)),
                None => c.title is None,
            }
            &&& h.section.len() > 0 ==> c.section == h.section
            &&& h.section.len() == 0 ==> match rows::section_of(found, h.note_id) {
                Some(s) => c.section == s,
                None => c.section == h.section,
            }
            &&& h.status.len() > 0 ==> c.status == h.status
            &&& h.status.len() == 0 ==> match rows::status_of(statuses, h.note_id) {
                Some(s) => c.status == s,
                None => c.status == h.status,
            }
            &&& h.anchor_ms is Some ==> c.anchor_ms == h.anchor_ms
            &&& h.anchor_ms is None && h.semantic_only ==> c.anchor_ms == rows::anchor_of(
                anchors,
                h.note_id,
            )
            &&& h.anchor_ms is None && !h.semantic_only ==> c.anchor_ms is None
        }),
{
}

/// The positions of the hits that are shown among the first `n`.
spec fn shown_positions(
    privileged: bool,
    v: Seq<(Hit, Seq<char>)>,
    found: Seq<TitleSection>,
    statuses: Seq<StatusRow>,
    anchors: Seq<AnchorRow>,
) -> Seq<int>
    decreases v.len(),
{
    if v.len() == 0 {
        Seq::empty()
    } else {
        let rest = shown_positions(privileged, v.drop_last(), found, statuses, anchors);
        if identity::section_hidden(
            privileged,
            completed(v.last().0, found, statuses, anchors).section,
        ) {
            rest
        } else {
            rest.push(v.len() - 1)
        }
    }
}

proof fn lemma_shown_positions(
    vault: Seq<char>,
    privileged: bool,
    v: Seq<(Hit, Seq<char>)>,
    found: Seq<TitleSection>,
    statuses: Seq<StatusRow>,
    anchors: Seq<AnchorRow>,
)
    ensures
        ({
            let p = shown_positions(privileged, v, found, statuses, anchors);
            let out = results(vault, privileged, v, found, statuses, anchors);
            &&& p.len() == out.len()
            &&& forall|i: int|
                0 <= i < p.len() ==> 0 <= #[trigger] p[i] < v.len() && out[i] == shown(
                    vault,
                    completed(v[p[i]].0, found, statuses, anchors),
                    v[p[i]].1,
                )
            &&& forall|i: int, j: int| 0 <= i < j < p.len() ==> #[trigger] p[i] < #[trigger] p[j]
            &&& forall|k: int|
                0 <= k < v.len() && !identity::section_hidden(
                    privileged,
                    completed((#[trigger] v[k]).0, found, statuses, anchors).section,
                ) ==> p.contains(k)
        }),
    decreases v.len(),
{
    if v.len() > 0 {
        let rest = v.drop_last();
        lemma_shown_positions(vault, privileged, rest, found, statuses, anchors);
        let old = shown_positions(privileged, rest, found, statuses, anchors);
        let p = shown_positions(privileged, v, found, statuses, anchors);
        assert forall|k: int|
            0 <= k < v.len() && !identity::section_hidden(
                privileged,
                completed((#[trigger] v[k]).0, found, statuses, anchors).section,
            ) implies p.contains(k) by {
            if k < v.len() - 1 {
                assert(rest[k] == v[k]);
                let i = choose|i: int| 0 <= i < old.len() && old[i] == k;
                assert(p[i] == k);
            } else {
                assert(p[p.len() - 1] == k);
            }
        }
    }
}

/// What is shown are the final hits in their order, each under the path, with the score and with
/// all that is known of it, from the vault that was read.
pub proof fn items_are_the_final_hits_in_order(
    trust: TrustContext,
    req: VaultSearchRequest,
    st: SearchSettings,
    a: SearchAnswers,
    i: int,
    j: int,
)
    requires
        0 <= i < j < reply_items(trust, req, st, a).len(),
    ensures
        exists|k: int, l: int|
            {
                &&& 0 <= k < l < hits_final(req, st, a).len()
                &&& item_shows(
                    trust,
                    req,
                    st,
                    a,
                    reply_items(trust, req, st, a)[i],
                    #[trigger] hits_final(req, st, a)[k],
                )
                &&& item_shows(
                    trust,
                    req,
                    st,
                    a,
                    reply_items(trust, req, st, a)[j],
                    #[trigger] hits_final(req, st, a)[l],
                )
            },
{
    let hits = hits_final(req, st, a);
    let due = semantic_only_ids(hits).len() > 0;
    let vault = vault_read(req, st, a);
    let privileged = identity::identity_privileged(trust);
    let found = rows_or_none(due, a.hit_titles);
    let statuses = statuses_or_none(due, a.hit_statuses);
    let anchors = semantic_anchors(req, st, a);
    lemma_shown_positions(vault, privileged, hits, found, statuses, anchors);
    let p = shown_positions(privileged, hits, found, statuses, anchors);
    assert(item_shows(trust, req, st, a, reply_items(trust, req, st, a)[i], hits[p[i]]));
    assert(item_shows(trust, req, st, a, reply_items(trust, req, st, a)[j], hits[p[j]]));
}

/// Whether an item shows a hit: its score as it is, its path by section and note, and the rest as
/// it is known.
pub open spec fn item_shows(
    trust: TrustContext,
    req: VaultSearchRequest,
    st: SearchSettings,
    a: SearchAnswers,
    x: Item,
    h: (Hit, Seq<char>),
) -> bool {
    let due = semantic_only_ids(hits_final(req, st, a)).len() > 0;
    let c = completed(
        h.0,
        rows_or_none(due, a.hit_titles),
        statuses_or_none(due, a.hit_statuses),
        semantic_anchors(req, st, a),
    );
    &&& x.score == h.1
    &&& x.vault_id == vault_read(req, st, a)
    &&& c.section.len() > 0 ==> x.path == c.section + "/"@ + h.0.note_id
    &&& c.section.len() == 0 ==> x.path == "main"@ + "/"@ + h.0.note_id
    &&& x.title == c.title
    &&& x.snippet == c.snippet
    &&& x.status == c.status
    &&& x.anchor_ms == c.anchor_ms
}

/// Every final hit is shown, but for souls and for hits of no known section, which only the
/// privileged see.
pub proof fn every_final_hit_is_shown(
    trust: TrustContext,
    req: VaultSearchRequest,
    st: SearchSettings,
    a: SearchAnswers,
    k: int,
)
    requires
        0 <= k < hits_final(req, st, a).len(),
    ensures
        ({
            let due = semantic_only_ids(hits_final(req, st, a)).len() > 0;
            let c = completed(
                hits_final(req, st, a)[k].0,
                rows_or_none(due, a.hit_titles),
                statuses_or_none(due, a.hit_statuses),
                semantic_anchors(req, st, a),
            );
            identity::identity_privileged(trust) || (c.section != "identity"@ && c.section.len() > 0)
                ==> exists|i: int|
                0 <= i < reply_items(trust, req, st, a).len() && item_shows(
                    trust,
                    req,
                    st,
                    a,
                    #[trigger] reply_items(trust, req, st, a)[i],
                    hits_final(req, st, a)[k],
                )
        }),
{
    let hits = hits_final(req, st, a);
    let due = semantic_only_ids(hits).len() > 0;
    let vault = vault_read(req, st, a);
    let privileged = identity::identity_privileged(trust);
    let found = rows_or_none(due, a.hit_titles);
    let statuses = statuses_or_none(due, a.hit_statuses);
    let anchors = semantic_anchors(req, st, a);
    lemma_shown_positions(vault, privileged, hits, found, statuses, anchors);
    let p = shown_positions(privileged, hits, found, statuses, anchors);
    let c = completed(hits[k].0, found, statuses, anchors);
    if identity::identity_privileged(trust) || (c.section != "identity"@ && c.section.len() > 0) {
        assert(!identity::section_hidden(privileged, completed(hits[k].0, found, statuses, anchors).section));
        let i = choose|i: int| 0 <= i < p.len() && p[i] == k;
        assert(item_shows(trust, req, st, a, reply_items(trust, req, st, a)[i], hits[k]));
    }
}

/// A reply holds the items that are due, each field for field, and the number of matches exactly
/// when it was asked for and could be counted.
pub proof fn a_search_replies_what_is_due(
    n: SearchNext,
    trust: TrustContext,
    req: VaultSearchRequest,
    st: SearchSettings,
    a: SearchAnswers,
    i: int,
)
    requires
        search_follows(n, trust, req, st, a),
        n is Reply,
    ensures
        ({
            let x = n->Reply_0;
            &&& x.items@.len() == reply_items(trust, req, st, a).len()
            &&& 0 <= i < x.items@.len() ==> ({
                let item = x.items@[i];
                let due = reply_items(trust, req, st, a)[i];
                &&& item.vault_id@ == due.vault_id
                &&& item.path@ == due.path
                &&& item.score@ == due.score
                &&& rows::opt_text(item.title) == due.title
                &&& rows::opt_text(item.snippet) == due.snippet
                &&& item.status@ == due.status
                &&& item.anchor_ms == due.anchor_ms
            })
            &&& !req.include_corpus_count ==> x.corpus_match_count is None && !x.corpus_count_capped
            &&& req.include_corpus_count ==> match a.corpus->0 {
                Ok((count, capped)) => x.corpus_match_count == Some(count) && x.corpus_count_capped
                    == capped,
                Err(_) => x.corpus_match_count is None && !x.corpus_count_capped,
            }
        }),
{
    if 0 <= i < n->Reply_0.items@.len() {
        assert(item_views(n->Reply_0.items@)[i] == n->Reply_0.items@[i]@);
    }
}

/// The words that are looked for are those of the request, in the vault that was checked and with
/// all that the request asks for: twice as many as are shown, so that some can be dropped.
pub proof fn both_arms_look_for_the_query(
    trust: TrustContext,
    req: VaultSearchRequest,
    st: SearchSettings,
    a: SearchAnswers,
)
    ensures
        search_gate(trust, req, st, a) matches SearchGate::Ask(q) ==> match q {
            SearchQuestion::Lexical { query } => {
                &&& reads_the_checked_vault(req, st, a, query.vault)
                &&& query.query == fts::fts_query(text::trimmed(req.query@))
                &&& query.limit == result_limit(req) * 2
                &&& query.from_ms == req.from_ms
                &&& query.to_ms == req.to_ms
                &&& restricted_as_asked(req, query)
            },
            SearchQuestion::Semantic { vault, query, limit, locus } => {
                &&& st.embedder_active
                &&& a.lexical matches Some(Ok(_))
                &&& reads_the_checked_vault(req, st, a, vault)
                &&& query == text::trimmed(req.query@)
                &&& limit == result_limit(req) * 2
                &&& locus == rows::opt_text(req.locus)
            },
            SearchQuestion::Corpus { query } => {
                &&& req.include_corpus_count
                &&& reads_the_checked_vault(req, st, a, query.vault)
                &&& query.query == fts::fts_query(text::trimmed(req.query@))
                &&& query.from_ms is None
                &&& query.to_ms is None
                &&& restricted_as_asked(req, query)
            },
            _ => true,
        },
{
}

/// Whether `vault` is the one that the caller may read: the one that was checked, and where one
/// vault only is served, the caller's own.
pub open spec fn reads_the_checked_vault(
    req: VaultSearchRequest,
    st: SearchSettings,
    a: SearchAnswers,
    vault: Seq<char>,
) -> bool {
    &&& st.multi_tenant ==> (a.read_vault matches Some(Ok(v)) && vault == v@)
    &&& !st.multi_tenant ==> a.acl == Some(true)
    &&& !st.multi_tenant && req.vault_id is None ==> (a.tenant matches Some(Some(t)) && vault == t@)
    &&& !st.multi_tenant && req.vault_id is Some ==> vault == req.vault_id->0@ && vault == "main"@
}

/// Whether a query of words has the section, the locus, the status and the reach that the request
/// asks for.
pub open spec fn restricted_as_asked(req: VaultSearchRequest, query: WordQuery) -> bool {
    &&& query.include_downgraded == req.include_downgraded
    &&& query.section == rows::opt_text(req.section)
    &&& query.locus == rows::opt_text(req.locus)
    &&& query.status is Some <==> req.status is Some
    &&& req.status matches Some(s) ==> query.status == Some(text::trimmed(s@))
}

/// Whether `ids` are the notes of these hits, in their order.
pub open spec fn ids_of(hits: Seq<SemanticHit>, ids: Seq<Seq<char>>) -> bool {
    &&& ids.len() == hits.len()
    &&& forall|i: int| 0 <= i < hits.len() ==> #[trigger] ids[i] == hits[i].note_id@
}

/// What a search looks up between its two arms and its ranks is about the hits at hand: the
/// sections, the statuses and the anchors of what its meaning found, the fusion of what is left of
/// both, and the ranks of all that came out of it.
pub proof fn a_search_looks_up_its_hits(
    trust: TrustContext,
    req: VaultSearchRequest,
    st: SearchSettings,
    a: SearchAnswers,
)
    ensures
        search_gate(trust, req, st, a) matches SearchGate::Ask(q) ==> match q {
            SearchQuestion::SemanticSections { vault, ids } => {
                &&& reads_the_checked_vault(req, st, a, vault)
                &&& a.semantic matches Some(Ok(hits)) && ids_of(hits@, ids)
                &&& req.section is Some || st.default_excluded@.len() > 0
            },
            SearchQuestion::SemanticStatuses { vault, ids } => {
                &&& reads_the_checked_vault(req, st, a, vault)
                &&& req.status is Some
                &&& ids_of(semantic_in_section(req, st, a), ids)
            },
            SearchQuestion::Anchors { vault, ids } => {
                &&& reads_the_checked_vault(req, st, a, vault)
                &&& ids_of(semantic_of_status(req, st, a), ids)
            },
            SearchQuestion::Fuse { semantic, short_circuit, buffer, .. } => {
                &&& semantic == semantic_kept(req, st, a)
                &&& short_circuit == st.embedder_active
                &&& 20 <= buffer <= 200
                &&& 20 <= 4 * result_limit(req) <= 200 ==> buffer == 4 * result_limit(req)
            },
            SearchQuestion::Rank { vault, tenant, hits } => {
                &&& reads_the_checked_vault(req, st, a, vault)
                &&& a.tenant matches Some(Some(t)) && tenant == t@
                &&& hits.len() == a.fused->0@.len()
                &&& forall|x: int|
                    0 <= x < hits.len() ==> #[trigger] hits[x] == (
                        hits_sectioned(req, st, a)[x].note_id,
                        hits_sectioned(req, st, a)[x].section,
                        hits_sectioned(req, st, a)[x].anchor_ms,
                    )
            },
            SearchQuestion::FusedSections { vault, ids } => {
                &&& reads_the_checked_vault(req, st, a, vault)
                &&& forall|x: int|
                    0 <= x < hits_enriched(req, st, a).len() ==> ((#[trigger] hits_enriched(
                        req,
                        st,
                        a,
                    )[x]).section.len() == 0 ==> ids.contains(hits_enriched(req, st, a)[x].note_id))
            },
            SearchQuestion::HitTitles { vault, ids } => {
                &&& reads_the_checked_vault(req, st, a, vault)
                &&& forall|k: int|
                    0 <= k < hits_final(req, st, a).len() ==> ((#[trigger] hits_final(
                        req,
                        st,
                        a,
                    )[k]).0.semantic_only ==> ids.contains(hits_final(req, st, a)[k].0.note_id))
            },
            SearchQuestion::HitStatuses { vault, ids } => {
                &&& reads_the_checked_vault(req, st, a, vault)
                &&& forall|k: int|
                    0 <= k < hits_final(req, st, a).len() ==> ((#[trigger] hits_final(
                        req,
                        st,
                        a,
                    )[k]).0.semantic_only ==> ids.contains(hits_final(req, st, a)[k].0.note_id))
            },
            _ => true,
        },
{
    let hits = hits_enriched(req, st, a);
    assert forall|x: int| 0 <= x < hits.len() && (#[trigger] hits[x]).section.len()
        == 0 implies ids_without_section(hits).contains(hits[x].note_id) by {
        lemma_missing_section(hits, x);
    }
    let out = hits_final(req, st, a);
    assert forall|k: int| 0 <= k < out.len() && (
    #[trigger] out[k]).0.semantic_only implies semantic_only_ids(out).contains(out[k].0.note_id) by {
        lemma_semantic_only(out, k);
    }
    assert(hits_sectioned(req, st, a).len() == a.fused->0@.len());
}

proof fn lemma_semantic_only(v: Seq<(Hit, Seq<char>)>, k: int)
    requires
        0 <= k < v.len(),
        v[k].0.semantic_only,
    ensures
        semantic_only_ids(v).contains(v[k].0.note_id),
    decreases v.len(),
{
    let rest = v.drop_last();
    let ids = semantic_only_ids(v);
    if k == v.len() - 1 {
        assert(ids[ids.len() - 1] == v[k].0.note_id);
    } else {
        assert(rest[k] == v[k]);
        lemma_semantic_only(rest, k);
        let old = semantic_only_ids(rest);
        let i = choose|i: int| 0 <= i < old.len() && old[i] == v[k].0.note_id;
        assert(ids[i] == v[k].0.note_id);
    }
}

/// What its meaning found and goes into the fusion was found by the semantic arm, lies in the
/// section of the request or outside those that are left out, has the status of the request, and
/// is anchored in its range. Nothing else is dropped.
pub proof fn what_its_meaning_found_is_filtered_as_asked(
    req: VaultSearchRequest,
    st: SearchSettings,
    a: SearchAnswers,
    h: SemanticHit,
)
    requires
        st.embedder_active,
        a.semantic matches Some(Ok(hits)) && hits@.contains(h),
        a.semantic_sections matches Some(Ok(_)),
        a.semantic_statuses matches Some(Ok(_)),
        a.anchors matches Some(Ok(_)),
    ensures
        semantic_kept(req, st, a).contains(h) <==> {
            let section = rows::section_of(a.semantic_sections->0->Ok_0@, h.note_id@);
            let status = rows::status_of(a.semantic_statuses->0->Ok_0@, h.note_id@);
            let anchor = rows::anchor_of(a.anchors->0->Ok_0@, h.note_id@);
            &&& req.section matches Some(w) ==> section == Some(w@)
            &&& req.section is None && st.default_excluded@.len() > 0 ==> section is Some
                && !text::views(st.default_excluded@).contains(section->0)
            &&& req.status matches Some(s) ==> status == Some(text::trimmed(s@))
            &&& req.from_ms matches Some(f) ==> anchor is Some && f <= anchor->0
            &&& req.to_ms matches Some(t) ==> anchor is Some && anchor->0 <= t
        },
{
    let raw = a.semantic->0->Ok_0@;
    let w = match req.section {
        Some(w) => w@,
        None => Seq::empty(),
    };
    let s = match req.status {
        Some(s) => text::trimmed(s@),
        None => Seq::empty(),
    };
    let out = text::views(st.default_excluded@);
    let sections = a.semantic_sections->0->Ok_0;
    let statuses = a.semantic_statuses->0->Ok_0;
    let anchors = a.anchors->0->Ok_0@;
    let first = semantic_in_section(req, st, a);
    let second = semantic_of_status(req, st, a);
    assert(raw.len() > 0);
    semantic::filters_drop_only_what_they_have_to(
        raw,
        h,
        w,
        out,
        sections,
        s,
        statuses,
        req.from_ms,
        req.to_ms,
        anchors,
    );
    if first.contains(h) {
        semantic::filters_drop_only_what_they_have_to(
            first,
            h,
            w,
            out,
            sections,
            s,
            statuses,
            req.from_ms,
            req.to_ms,
            anchors,
        );
    }
    if second.contains(h) {
        semantic::filters_drop_only_what_they_have_to(
            second,
            h,
            w,
            out,
            sections,
            s,
            statuses,
            req.from_ms,
            req.to_ms,
            anchors,
        );
    }
    semantic::filters_stay_closed(
        first,
        w,
        out,
        a.semantic_sections->0,
        s,
        a.semantic_statuses->0,
        req.from_ms,
        req.to_ms,
        anchors,
        h,
    );
    semantic::filters_stay_closed(
        second,
        w,
        out,
        a.semantic_sections->0,
        s,
        a.semantic_statuses->0,
        req.from_ms,
        req.to_ms,
        semantic_anchors(req, st, a),
        h,
    );
}

/// What the words found goes into the fusion with its score, but for what lies in a section that
/// is left out.
pub proof fn what_the_words_found_is_fused(
    req: VaultSearchRequest,
    st: SearchSettings,
    a: SearchAnswers,
    k: int,
    i: int,
)
    ensures
        ({
            let words = a.lexical->0->Ok_0@;
            let out = if req.section is None {
                text::views(st.default_excluded@)
            } else {
                Seq::empty()
            };
            let fused = word_scores(words_found(a), sections_excluded(req, st));
            &&& 0 <= k < words.len() && !out.contains(words[k].section@) ==> fused.contains(
                (words[k].note_id@, words[k].score_bits),
            )
            &&& 0 <= i < fused.len() ==> exists|j: int|
                0 <= j < words.len() && !out.contains((#[trigger] words[j]).section@) && fused[i]
                    == (words[j].note_id@, words[j].score_bits)
            &&& out.len() == 0 ==> fused.len() == words.len()
        }),
{
    lemma_word_scores(words_found(a), sections_excluded(req, st), k, i);
}

proof fn lemma_word_scores(hits: Seq<LexicalHit>, excluded: Seq<Seq<char>>, k: int, i: int)
    ensures
        ({
            let out = word_scores(hits, excluded);
            &&& 0 <= k < hits.len() && !excluded.contains(hits[k].section@) ==> out.contains(
                (hits[k].note_id@, hits[k].score_bits),
            )
            &&& 0 <= i < out.len() ==> exists|j: int|
                0 <= j < hits.len() && !excluded.contains((#[trigger] hits[j]).section@) && out[i]
                    == (hits[j].note_id@, hits[j].score_bits)
            &&& excluded.len() == 0 ==> out.len() == hits.len()
        }),
    decreases hits.len(),
{
    if hits.len() > 0 {
        let rest = hits.drop_last();
        lemma_word_scores(rest, excluded, k, i);
        let old = word_scores(rest, excluded);
        let out = word_scores(hits, excluded);
        let n = hits.len() - 1;
        if 0 <= k < hits.len() && !excluded.contains(hits[k].section@) {
            if k < n {
                assert(rest[k] == hits[k]);
                let j = choose|j: int|
                    0 <= j < old.len() && old[j] == (hits[k].note_id@, hits[k].score_bits);
                assert(out[j] == old[j]);
            } else {
                assert(out[out.len() - 1] == (hits[k].note_id@, hits[k].score_bits));
            }
        }
        if 0 <= i < out.len() {
            if i < old.len() {
                let j = choose|j: int|
                    0 <= j < rest.len() && !excluded.contains((#[trigger] rest[j]).section@)
                        && old[i] == (rest[j].note_id@, rest[j].score_bits);
                assert(hits[j] == rest[j]);
            } else {
                assert(hits[n] == hits.last());
            }
        }
    }
}

/// The fusion is asked for with what the words found.
pub proof fn the_fusion_gets_the_words(
    trust: TrustContext,
    req: VaultSearchRequest,
    st: SearchSettings,
    a: SearchAnswers,
)
    ensures
        search_gate(trust, req, st, a) matches SearchGate::Ask(SearchQuestion::Fuse { lexical, .. })
            ==> lexical == word_scores(a.lexical->0->Ok_0@, sections_excluded(req, st)),
{
}

/// A search is refused for cause only, and for the cause that it has.
pub proof fn a_search_is_refused_for_cause(
    trust: TrustContext,
    req: VaultSearchRequest,
    st: SearchSettings,
    a: SearchAnswers,
)
    ensures
        ({
            let g = search_gate(trust, req, st, a);
            let own = trust.authenticated() && (a.tenant matches Some(Some(_)));
            let right = right_established(st, a);
            let s = text::trimmed(req.status->0@);
            let sound = {
                &&& req.status is Some ==> s == "draft"@ || s == "staging"@ || s
                    == "pending-review"@ || s == "live"@ || s == "deprecated"@ || s == "garbage"@
                    || s == "downgraded"@
                &&& req.from_ms is Some && req.to_ms is Some ==> req.from_ms->0 <= req.to_ms->0
                &&& text::trimmed(req.query@).len() > 0
                &&& !st.multi_tenant ==> req.vault_id is None || req.vault_id->0@ == "main"@
            };
            &&& !trust.authenticated() ==> g == SearchGate::Fail(Refusal::Unauthorized)
            &&& trust.authenticated() && a.tenant is None ==> g == SearchGate::Ask(
                SearchQuestion::Tenant { requested: rows::opt_text(req.tenant_id) },
            )
            &&& trust.authenticated() && a.tenant == Some(None::<String>) ==> g is Fail
                && g->Fail_0 is Forbidden
            &&& own && st.multi_tenant && a.read_vault is None ==> g == SearchGate::Ask(
                SearchQuestion::ReadVault {
                    tenant: a.tenant->0->0@,
                    vault: rows::opt_text(req.vault_id),
                    section: rows::opt_text(req.section),
                },
            )
            &&& own && !st.multi_tenant && a.acl is None ==> g == SearchGate::Ask(
                SearchQuestion::AclRead {
                    locus: access::locus_text(a.tenant->0->0@, rows::opt_text(req.section)),
                },
            )
            &&& own && !st.multi_tenant && a.acl == Some(false) ==> g is Fail
                && g->Fail_0 is Forbidden
            &&& own && st.multi_tenant && (a.read_vault matches Some(Err(_))) ==> g
                == SearchGate::Fail(a.read_vault->0->Err_0@)
            &&& own && right && !sound ==> g is Fail
            &&& own && right && sound ==> match a.lexical {
                None => g is Ask && g->Ask_0 is Lexical,
                Some(Err(e)) => g == SearchGate::Fail(e@),
                Some(Ok(_)) => g is Fail ==> (a.ranks matches Some(Err(e)) && g == SearchGate::Fail(
                    e@,
                )),
            }
            &&& g is Pass ==> own && right && sound && (a.lexical matches Some(Ok(_)))
                && a.fused is Some && (a.ranks matches Some(Ok(_)))
            &&& g is Pass && st.embedder_active ==> a.semantic is Some
            &&& g is Pass && req.include_corpus_count ==> a.corpus is Some
        }),
{
    reveal_strlit("main");
}

/// A use is noted for every note that is shown, under its identifier, and once more for each of
/// the first three.
pub proof fn every_hit_counts_as_a_use(items: Seq<Item>, n: int)
    requires
        0 <= n < items.len(),
    ensures
        ({
            let id = text::tail_segment(items[n].path);
            let before = uses_of(items, n);
            let after = uses_of(items, n + 1);
            &&& uses_of(items, 0).len() == 0
            &&& n < 3 ==> after == before.push((id, "search-hit"@)).push((id, "search-hit-top3"@))
            &&& n >= 3 ==> after == before.push((id, "search-hit"@))
        }),
{
}

/// What is said of a question of a search in a contract is what it holds, each thing in its own
/// place.
pub proof fn a_question_of_a_search_says_what_it_asks(q: SearchAsk)
    ensures
        match q {
            SearchAsk::ReadVault { tenant, vault, section } => {
                &&& q@ is ReadVault
                &&& q@->ReadVault_tenant == tenant@
                &&& q@->ReadVault_vault == rows::opt_text(vault)
                &&& q@->ReadVault_section == rows::opt_text(section)
            },
            SearchAsk::Semantic { vault, query, limit, locus } => {
                &&& q@ is Semantic
                &&& q@->Semantic_vault == vault@
                &&& q@->Semantic_query == query@
                &&& q@->Semantic_limit == limit as nat
                &&& q@->Semantic_locus == rows::opt_text(locus)
            },
            SearchAsk::SemanticSections { vault, ids } => {
                &&& q@ is SemanticSections
                &&& q@->SemanticSections_vault == vault@
                &&& q@->SemanticSections_ids == text::views(ids@)
            },
            SearchAsk::SemanticStatuses { vault, ids } => {
                &&& q@ is SemanticStatuses
                &&& q@->SemanticStatuses_vault == vault@
                &&& q@->SemanticStatuses_ids == text::views(ids@)
            },
            SearchAsk::Anchors { vault, ids } => {
                &&& q@ is Anchors
                &&& q@->Anchors_vault == vault@
                &&& q@->Anchors_ids == text::views(ids@)
            },
            SearchAsk::Fuse { lexical, semantic, short_circuit, buffer } => {
                &&& q@ is Fuse
                &&& q@->Fuse_lexical == score_views(lexical@)
                &&& q@->Fuse_semantic == semantic@
                &&& q@->Fuse_short_circuit == short_circuit
                &&& q@->Fuse_buffer == buffer as nat
            },
            SearchAsk::FusedSections { vault, ids } => {
                &&& q@ is FusedSections
                &&& q@->FusedSections_vault == vault@
                &&& q@->FusedSections_ids == text::views(ids@)
            },
            SearchAsk::Rank { vault, tenant, hits } => {
                &&& q@ is Rank
                &&& q@->Rank_vault == vault@
                &&& q@->Rank_tenant == tenant@
                &&& q@->Rank_hits == input_views(hits@)
            },
            SearchAsk::Rerank { tenant, query, ids } => {
                &&& q@ is Rerank
                &&& q@->Rerank_tenant == tenant@
                &&& q@->Rerank_query == query@
                &&& q@->Rerank_ids == text::views(ids@)
            },
            SearchAsk::HitTitles { vault, ids } => {
                &&& q@ is HitTitles
                &&& q@->HitTitles_vault == vault@
                &&& q@->HitTitles_ids == text::views(ids@)
            },
            SearchAsk::HitStatuses { vault, ids } => {
                &&& q@ is HitStatuses
                &&& q@->HitStatuses_vault == vault@
                &&& q@->HitStatuses_ids == text::views(ids@)
            },
            _ => true,
        },
{
}

}
