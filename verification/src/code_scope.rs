//! Reading source code: the symbols that a selector finds, within a budget.

use vstd::prelude::*;
use vstd::string::*;
use vstd::utf8::*;

use crate::door::{self, HttpGate, HttpNext};
use crate::error::{GradatumError, Refusal, StatusCode};
use crate::flow::{self, Answers, Ask, Denial, Gate, Next, Question};
use crate::ids;
use crate::order::{self, SortKey};
use crate::rows::{self, CallersRow, CodeScopeEntryRaw, PathHash, SourceFile};
use crate::text;
use crate::trust::TrustContext;

verus! {

/// The largest budget, in tokens.
pub const MAX_BUDGET_TOKENS: u32 = 8_000;

/// The largest budget for bodies, in tokens.
pub const MAX_BODY_BUDGET_TOKENS: usize = 32_000;

/// The budget when the request gives none, in tokens.
pub const DEFAULT_BUDGET_TOKENS: u32 = 800;

/// How many symbols are looked at, at most.
pub const MAX_CANDIDATES: usize = 500;

/// How many bytes count as a token.
pub const CHARS_PER_TOKEN: usize = 4;

/// What is looked for.
#[derive(Debug)]
pub struct CodeSelectorDto {
    /// `query`, `path` or `symbol`.
    pub kind: String,
    pub value: String,
}

/// A look at source code.
#[derive(Debug)]
pub struct CodeScopeRequest {
    pub vault: String,
    pub selector: CodeSelectorDto,
    pub budget_tokens: Option<u32>,
    pub include_body: bool,
    pub body_budget_tokens: Option<usize>,
    pub include_callers: bool,
}

/// A symbol.
#[derive(Debug)]
pub struct CodeScopeEntry {
    pub note_id: String,
    pub source_path: String,
    pub kind: String,
    pub qualified_name: String,
    pub signature: String,
    pub deps: Vec<String>,
    /// Whether the file is no longer the one that was indexed.
    pub stale: bool,
    pub body: Option<String>,
    pub callers: Vec<String>,
    /// Whether there may be more callers.
    pub callers_truncated: bool,
}

/// The symbols that were found.
#[derive(Debug)]
pub struct CodeScopeResponse {
    pub entries: Vec<CodeScopeEntry>,
    /// Whether symbols were left out for the budget.
    pub truncated: bool,
    pub total_matched: u32,
    /// Whether bodies were left out for their budget.
    pub body_truncated: bool,
}

/// How the service is set up.
#[derive(Debug)]
pub struct CodeSettings {
    /// The budget for bodies when the request gives none, in tokens.
    pub default_body_budget: usize,
    /// How many callers of a symbol are shown, at most.
    pub max_callers: usize,
}

// ── The vault ───────────────────────────────────────────────────────────────

/// Whether a character may stand in the name of a code vault.
pub open spec fn vault_char(c: char) -> bool {
    text::ascii_lower_letter(c) || text::ascii_digit(c) || c == '-'
}

/// Whether `vault` names a code vault: `code-`, something behind it, and nothing but lower-case
/// letters, digits and hyphens.
pub open spec fn code_vault(vault: Seq<char>) -> bool {
    &&& "code-"@.is_prefix_of(vault)
    &&& 5 < vault.len() <= 128
    &&& forall|i: int| 0 <= i < vault.len() ==> vault_char(#[trigger] vault[i])
}

fn is_vault_char(c: char) -> (r: bool)
    ensures
        r == vault_char(c),
{
    ('a' <= c && c <= 'z') || ('0' <= c && c <= '9') || c == '-'
}

/// Whether `vault` names a code vault. Every other vault is out of reach here.
pub fn validate_code_vault_id(vault: &str) -> (r: bool)
    ensures
        r == code_vault(vault@),
{
    if !text::starts_with(vault, "code-") {
        return false;
    }
    let v = text::chars_of(vault);
    if v.len() <= 5 || v.len() > 128 {
        return false;
    }
    let mut i: usize = 0;
    while i < v.len()
        invariant
            v@ == vault@,
            i <= v@.len(),
            forall|k: int| 0 <= k < i ==> vault_char(#[trigger] v@[k]),
        decreases v@.len() - i,
    {
        if !is_vault_char(v[i]) {
            return false;
        }
        i = i + 1;
    }
    true
}

/// Who may read source code: the administration interface, services, and the main agent.
pub open spec fn privileged(trust: TrustContext) -> bool {
    trust is Studio || trust is Mtls || trust.subject_view() == Some("main-agent"@)
}

/// Whether the caller may read source code.
pub fn is_code_scope_privileged(trust: &TrustContext) -> (r: bool)
    ensures
        r == privileged(*trust),
{
    match trust {
        TrustContext::Studio { .. } => true,
        TrustContext::Mtls { .. } => true,
        _ => match trust.subject() {
            Some(s) => text::same(s.as_str(), "main-agent"),
            None => false,
        },
    }
}

// ── Ranking ─────────────────────────────────────────────────────────────────

/// Whether a symbol of this name was found.
pub open spec fn present(raw: Seq<CodeScopeEntryRaw>, name: Seq<char>) -> bool {
    exists|i: int| 0 <= i < raw.len() && (#[trigger] raw[i]).qualified_name@ == name
}

/// How many of the first `k` dependencies of a symbol were found too.
pub open spec fn deps_present(raw: Seq<CodeScopeEntryRaw>, deps: Seq<String>, k: int) -> nat
    decreases k,
{
    if k <= 0 {
        0
    } else if present(raw, deps[k - 1]@) {
        deps_present(raw, deps, k - 1) + 1
    } else {
        deps_present(raw, deps, k - 1)
    }
}

/// How many dependencies of each symbol were found too.
pub open spec fn cohesion(raw: Seq<CodeScopeEntryRaw>) -> Seq<usize> {
    Seq::new(
        raw.len(),
        |i: int| deps_present(raw, raw[i].deps@, raw[i].deps@.len() as int) as usize,
    )
}

/// How well each symbol matches.
pub open spec fn scores(raw: Seq<CodeScopeEntryRaw>) -> Seq<u64> {
    raw.map_values(|e: CodeScopeEntryRaw| e.score_bits)
}

fn collect_scores(raw: &Vec<CodeScopeEntryRaw>) -> (r: Vec<u64>)
    ensures
        r@ == scores(raw@),
{
    let mut out: Vec<u64> = Vec::new();
    let mut i: usize = 0;
    while i < raw.len()
        invariant
            i <= raw@.len(),
            out@.len() == i,
            forall|k: int| 0 <= k < i ==> #[trigger] out@[k] == scores(raw@)[k],
        decreases raw@.len() - i,
    {
        out.push(raw[i].score_bits);
        i = i + 1;
    }
    assert(out@ =~= scores(raw@));
    out
}

fn is_present(raw: &Vec<CodeScopeEntryRaw>, name: &str) -> (r: bool)
    ensures
        r == present(raw@, name@),
{
    let mut i: usize = 0;
    while i < raw.len()
        invariant
            i <= raw@.len(),
            forall|k: int| 0 <= k < i ==> (#[trigger] raw@[k]).qualified_name@ != name@,
        decreases raw@.len() - i,
    {
        if text::same(raw[i].qualified_name.as_str(), name) {
            return true;
        }
        i = i + 1;
    }
    false
}

/// How many dependencies of each symbol were found too.
pub fn count_cohesion(raw: &Vec<CodeScopeEntryRaw>) -> (r: Vec<usize>)
    ensures
        r@ == cohesion(raw@),
{
    let mut out: Vec<usize> = Vec::new();
    let mut i: usize = 0;
    while i < raw.len()
        invariant
            i <= raw@.len(),
            out@.len() == i,
            forall|k: int| 0 <= k < i ==> #[trigger] out@[k] == cohesion(raw@)[k],
        decreases raw@.len() - i,
    {
        let deps = &raw[i].deps;
        let mut n: usize = 0;
        let mut j: usize = 0;
        while j < deps.len()
            invariant
                j <= deps@.len(),
                n <= j,
                n == deps_present(raw@, deps@, j as int),
            decreases deps@.len() - j,
        {
            if is_present(raw, deps[j].as_str()) {
                n = n + 1;
            }
            j = j + 1;
        }
        out.push(n);
        i = i + 1;
    }
    assert(out@ =~= cohesion(raw@));
    out
}

/// What symbols are sorted by: their rank, and their name among equals.
pub open spec fn rank_keys(raw: Seq<CodeScopeEntryRaw>, ranks: Seq<i64>) -> Seq<SortKey> {
    Seq::new(raw.len(), |i: int| SortKey { rank: ranks[i], name: raw[i].qualified_name })
}

/// The positions of the symbols in the order in which they are shown: by rank, lower ranks
/// first, and by name among equals.
pub open spec fn ranked(raw: Seq<CodeScopeEntryRaw>, ranks: Seq<i64>) -> Seq<usize> {
    if ranks.len() == raw.len() {
        order::sorted_positions(rank_keys(raw, ranks))
    } else {
        Seq::new(raw.len(), |i: int| i as usize)
    }
}

/// The positions of the symbols in the order in which they are shown. The ranks are those that
/// the scores and the cohesion of the symbols give.
pub fn rank_structure_aware(raw: &Vec<CodeScopeEntryRaw>, ranks: &Vec<i64>) -> (r: Vec<usize>)
    ensures
        r@ == ranked(raw@, ranks@),
        order::is_permutation(r@, raw@.len() as int),
{
    let n: usize = raw.len();
    let mut i: usize = 0;
    if ranks.len() != n {
        let mut out: Vec<usize> = Vec::new();
        while i < n
            invariant
                i <= n == raw@.len(),
                out@.len() == i,
                forall|k: int| 0 <= k < i ==> #[trigger] out@[k] == k,
            decreases n - i,
        {
            out.push(i);
            i = i + 1;
        }
        assert(out@ =~= ranked(raw@, ranks@));
        return out;
    }
    let mut keys: Vec<SortKey> = Vec::new();
    while i < n
        invariant
            i <= n == raw@.len(),
            ranks@.len() == n,
            keys@.len() == i,
            forall|k: int| 0 <= k < i ==> #[trigger] keys@[k] == rank_keys(raw@, ranks@)[k],
        decreases n - i,
    {
        keys.push(SortKey { rank: ranks[i], name: raw[i].qualified_name.clone() });
        i = i + 1;
    }
    assert(keys@ =~= rank_keys(raw@, ranks@));
    order::stable_order(&keys)
}

// ── Tokens ──────────────────────────────────────────────────────────────────

/// How many tokens so many bytes are: a quarter, rounded up, and one at least.
pub open spec fn tokens(bytes: nat) -> nat {
    if bytes == 0 {
        1
    } else {
        (bytes + 3) / 4
    }
}

/// The bytes of the first `k` dependencies.
pub open spec fn deps_bytes(deps: Seq<String>, k: int) -> nat
    decreases k,
{
    if k <= 0 {
        0
    } else {
        deps_bytes(deps, k - 1) + text::byte_length(deps[k - 1]@)
    }
}

/// The bytes that a symbol takes when it is shown, with what is around its parts.
pub open spec fn entry_bytes(e: CodeScopeEntryRaw) -> nat {
    text::byte_length(e.source_path@) + text::byte_length(e.kind@) + text::byte_length(
        e.qualified_name@,
    ) + (match e.signature {
        Some(s) => text::byte_length(s@),
        None => 0,
    }) + deps_bytes(e.deps@, e.deps@.len() as int) + 40
}

/// The tokens that a symbol takes when it is shown.
pub open spec fn entry_tokens(e: CodeScopeEntryRaw) -> nat {
    tokens(entry_bytes(e))
}

fn more(acc: usize, s: &str, cap: usize) -> (r: Option<usize>)
    requires
        acc <= cap,
    ensures
        match r {
            Some(n) => n == acc + text::byte_length(s@) && n <= cap,
            None => acc + text::byte_length(s@) > cap,
        },
{
    let n: usize = text::byte_len(s);
    if n > cap - acc {
        None
    } else {
        Some(acc + n)
    }
}

proof fn lemma_deps_bytes_grow(deps: Seq<String>, j: int, k: int)
    requires
        0 <= j <= k,
    ensures
        deps_bytes(deps, j) <= deps_bytes(deps, k),
    decreases k,
{
    if j < k {
        lemma_deps_bytes_grow(deps, j, k - 1);
    }
}

fn bytes_up_to(e: &CodeScopeEntryRaw, cap: usize) -> (r: Option<usize>)
    ensures
        match r {
            Some(n) => n == entry_bytes(*e) && n <= cap,
            None => entry_bytes(*e) > cap,
        },
{
    if cap < 40 {
        return None;
    }
    let n = match more(40, e.source_path.as_str(), cap) {
        Some(n) => n,
        None => return None,
    };
    let n = match more(n, e.kind.as_str(), cap) {
        Some(n) => n,
        None => return None,
    };
    let n = match more(n, e.qualified_name.as_str(), cap) {
        Some(n) => n,
        None => return None,
    };
    let base = match &e.signature {
        Some(s) => match more(n, s.as_str(), cap) {
            Some(n) => n,
            None => return None,
        },
        None => n,
    };
    let mut acc: usize = base;
    let mut i: usize = 0;
    while i < e.deps.len()
        invariant
            i <= e.deps@.len(),
            acc <= cap,
            acc == base + deps_bytes(e.deps@, i as int),
            entry_bytes(*e) == base + deps_bytes(e.deps@, e.deps@.len() as int),
        decreases e.deps@.len() - i,
    {
        match more(acc, e.deps[i].as_str(), cap) {
            Some(n) => {
                acc = n;
            },
            None => {
                proof {
                    lemma_deps_bytes_grow(e.deps@, i + 1, e.deps@.len() as int);
                }
                return None;
            },
        }
        i = i + 1;
    }
    Some(acc)
}

fn tokens_of(bytes: usize) -> (r: usize)
    ensures
        r == tokens(bytes as nat),
        1 <= r,
{
    if bytes == 0 {
        1
    } else if bytes % 4 == 0 {
        bytes / 4
    } else {
        bytes / 4 + 1
    }
}

/// The tokens that a symbol takes when it is shown.
pub fn estimate_entry_tokens(e: &CodeScopeEntryRaw) -> (r: usize)
    requires
        entry_bytes(*e) <= usize::MAX,
    ensures
        r == entry_tokens(*e),
{
    match bytes_up_to(e, usize::MAX) {
        Some(n) => tokens_of(n),
        None => 1,
    }
}

/// The tokens of the symbols that are kept among the first `k`: a symbol that does not fit into
/// what is left is passed over, the next ones may still fit.
pub open spec fn used_tokens(
    raw: Seq<CodeScopeEntryRaw>,
    p: Seq<usize>,
    budget: nat,
    k: int,
) -> nat
    decreases k,
{
    if k <= 0 {
        0
    } else {
        let used = used_tokens(raw, p, budget, k - 1);
        let cost = entry_tokens(raw[p[k - 1] as int]);
        if used + cost > budget {
            used
        } else {
            used + cost
        }
    }
}

/// The symbols that are kept among the first `k`.
pub open spec fn kept_entries(
    raw: Seq<CodeScopeEntryRaw>,
    p: Seq<usize>,
    budget: nat,
    k: int,
) -> Seq<CodeScopeEntryRaw>
    decreases k,
{
    if k <= 0 {
        Seq::empty()
    } else {
        let before = kept_entries(raw, p, budget, k - 1);
        let e = raw[p[k - 1] as int];
        if used_tokens(raw, p, budget, k - 1) + entry_tokens(e) > budget {
            before
        } else {
            before.push(e)
        }
    }
}

/// The symbols behind references.
pub open spec fn entries_of(list: Seq<&CodeScopeEntryRaw>) -> Seq<CodeScopeEntryRaw> {
    Seq::new(list.len(), |i: int| *list[i])
}

fn keep_within<'a>(raw: &'a Vec<CodeScopeEntryRaw>, p: &Vec<usize>, budget: usize) -> (r: (
    Vec<&'a CodeScopeEntryRaw>,
    bool,
))
    requires
        order::is_permutation(p@, raw@.len() as int),
        budget <= 8_000,
    ensures
        entries_of(r.0@) == kept_entries(raw@, p@, budget as nat, p@.len() as int),
        r.1 == (r.0@.len() < raw@.len()),
{
    let mut kept: Vec<&CodeScopeEntryRaw> = Vec::new();
    let mut used: usize = 0;
    let mut truncated = false;
    let mut i: usize = 0;
    assert(entries_of(kept@) =~= Seq::empty());
    while i < p.len()
        invariant
            order::is_permutation(p@, raw@.len() as int),
            i <= p@.len(),
            budget <= 8_000,
            used == used_tokens(raw@, p@, budget as nat, i as int),
            used <= budget,
            entries_of(kept@) == kept_entries(raw@, p@, budget as nat, i as int),
            kept@.len() <= i,
            truncated == (kept@.len() < i),
        decreases p@.len() - i,
    {
        let k: usize = p[i];
        assert(p@[i as int] == k && k < raw@.len());
        let e = &raw[k];
        let left: usize = budget - used;
        let ghost before = kept@;
        match bytes_up_to(e, left * 4) {
            Some(n) => {
                let cost = tokens_of(n);
                used = used + cost;
                kept.push(e);
                assert(entries_of(kept@) =~= entries_of(before).push(*e));
            },
            None => {
                truncated = true;
            },
        }
        i = i + 1;
    }
    (kept, truncated)
}

/// The tokens that symbols take together.
pub open spec fn total_tokens(entries: Seq<CodeScopeEntryRaw>) -> nat
    decreases entries.len(),
{
    if entries.len() == 0 {
        0
    } else {
        total_tokens(entries.drop_last()) + entry_tokens(entries.last())
    }
}

// ── Files ───────────────────────────────────────────────────────────────────

/// What is known of a file.
#[derive(Debug)]
pub struct FileState {
    pub path: String,
    /// Whether the file is no longer the one that was indexed, or may not be read.
    pub stale: bool,
    pub bytes: Vec<u8>,
}

/// Whether a path stays below the directory that it starts from.
pub open spec fn safe_path(path: Seq<char>) -> bool {
    !text::has_infix(path, ".."@) && !"/"@.is_prefix_of(path)
}

/// Whether a path stays below the directory that it starts from.
pub fn path_is_safe(path: &str) -> (r: bool)
    ensures
        r == safe_path(path@),
{
    !text::contains(path, "..") && !text::starts_with(path, "/")
}

/// The paths of the symbols, each once, in the order in which they come.
pub open spec fn distinct_paths(list: Seq<CodeScopeEntryRaw>, k: int) -> Seq<Seq<char>>
    decreases k,
{
    if k <= 0 {
        Seq::empty()
    } else {
        let before = distinct_paths(list, k - 1);
        let path = list[k - 1].source_path@;
        if before.contains(path) {
            before
        } else {
            before.push(path)
        }
    }
}

fn collect_paths(list: &Vec<&CodeScopeEntryRaw>) -> (r: Vec<String>)
    ensures
        text::views(r@) == distinct_paths(entries_of(list@), list@.len() as int),
{
    let ghost all = entries_of(list@);
    let mut out: Vec<String> = Vec::new();
    let mut i: usize = 0;
    assert(text::views(out@) =~= Seq::empty());
    while i < list.len()
        invariant
            i <= list@.len(),
            all == entries_of(list@),
            text::views(out@) == distinct_paths(all, i as int),
        decreases list@.len() - i,
    {
        let path = &list[i].source_path;
        assert(all[i as int].source_path@ == path@);
        let ghost before = text::views(out@);
        if !text::listed(&out, path.as_str()) {
            out.push(path.clone());
            assert(text::views(out@) =~= before.push(path@));
        }
        i = i + 1;
    }
    out
}

/// The hash that a file had, from position `k` on.
pub open spec fn hash_from(rows: Seq<PathHash>, path: Seq<char>, k: int) -> Option<Seq<char>>
    decreases rows.len() - k,
{
    if k < 0 || k >= rows.len() {
        None
    } else if rows[k].path@ == path {
        Some(rows[k].hash@)
    } else {
        hash_from(rows, path, k + 1)
    }
}

fn find_hash<'a>(rows: &'a Vec<PathHash>, path: &str) -> (r: Option<&'a String>)
    ensures
        match r {
            Some(h) => hash_from(rows@, path@, 0) == Some(h@),
            None => hash_from(rows@, path@, 0) is None,
        },
{
    let mut i: usize = 0;
    while i < rows.len()
        invariant
            i <= rows@.len(),
            hash_from(rows@, path@, 0) == hash_from(rows@, path@, i as int),
        decreases rows@.len() - i,
    {
        if text::same(rows[i].path.as_str(), path) {
            return Some(&rows[i].hash);
        }
        i = i + 1;
    }
    None
}

/// The contents of a file, from position `k` on.
pub open spec fn source_from(rows: Seq<SourceFile>, path: Seq<char>, k: int) -> Option<Seq<u8>>
    decreases rows.len() - k,
{
    if k < 0 || k >= rows.len() {
        None
    } else if rows[k].path@ == path {
        Some(rows[k].bytes@)
    } else {
        source_from(rows, path, k + 1)
    }
}

fn find_source<'a>(rows: &'a Vec<SourceFile>, path: &str) -> (r: Option<&'a Vec<u8>>)
    ensures
        match r {
            Some(b) => source_from(rows@, path@, 0) == Some(b@),
            None => source_from(rows@, path@, 0) is None,
        },
{
    let mut i: usize = 0;
    while i < rows.len()
        invariant
            i <= rows@.len(),
            source_from(rows@, path@, 0) == source_from(rows@, path@, i as int),
        decreases rows@.len() - i,
    {
        if text::same(rows[i].path.as_str(), path) {
            return Some(&rows[i].bytes);
        }
        i = i + 1;
    }
    None
}

/// Whether a file may be read at all: its path stays among the sources, and the index knows the
/// hash that it had.
pub open spec fn readable(path: Seq<char>, hashes: Seq<PathHash>) -> bool {
    safe_path(path) && hash_from(hashes, path, 0) is Some
}

/// The paths of files that may be read.
pub open spec fn readable_paths(paths: Seq<Seq<char>>, hashes: Seq<PathHash>) -> Seq<Seq<char>> {
    paths.filter(|p: Seq<char>| readable(p, hashes))
}

fn keep_readable(paths: &Vec<String>, hashes: &Vec<PathHash>) -> (r: Vec<String>)
    ensures
        text::views(r@) == readable_paths(text::views(paths@), hashes@),
{
    let ghost all = text::views(paths@);
    let ghost keep = |p: Seq<char>| readable(p, hashes@);
    let mut out: Vec<String> = Vec::new();
    let mut i: usize = 0;
    proof {
        reveal(Seq::filter);
        assert(all.take(0).filter(keep) =~= Seq::empty());
        assert(text::views(out@) =~= Seq::empty());
    }
    while i < paths.len()
        invariant
            i <= paths@.len(),
            all == text::views(paths@),
            keep == (|p: Seq<char>| readable(p, hashes@)),
            text::views(out@) == all.take(i as int).filter(keep),
        decreases paths@.len() - i,
    {
        let ghost before = text::views(out@);
        proof {
            reveal(Seq::filter);
            assert(all.take(i + 1).drop_last() =~= all.take(i as int));
            assert(all.take(i + 1).last() == paths@[i as int]@);
        }
        let path = paths[i].as_str();
        if path_is_safe(path) && find_hash(hashes, path).is_some() {
            out.push(paths[i].clone());
            assert(text::views(out@) =~= before.push(paths@[i as int]@));
        }
        i = i + 1;
    }
    assert(all.take(paths@.len() as int) =~= all);
    out
}

/// Whether a file is stale: it may not be read, it could not be read, or it is no longer what
/// was indexed.
pub open spec fn is_stale(
    path: Seq<char>,
    hashes: Seq<PathHash>,
    sources: Seq<SourceFile>,
) -> bool {
    ||| !readable(path, hashes)
    ||| source_from(sources, path, 0) is None
    ||| ids::hex(ids::sha256(source_from(sources, path, 0)->0)) != hash_from(hashes, path, 0)->0
}

/// Whether `f` is what is known of the file at `path`. The contents of a file that may not be
/// read are not kept.
pub open spec fn file_known(
    f: FileState,
    path: Seq<char>,
    hashes: Seq<PathHash>,
    sources: Seq<SourceFile>,
) -> bool {
    &&& f.path@ == path
    &&& f.stale == is_stale(path, hashes, sources)
    &&& f.bytes@ == if readable(path, hashes) && source_from(sources, path, 0) is Some {
        source_from(sources, path, 0)->0
    } else {
        Seq::empty()
    }
}

fn copy_bytes(v: &Vec<u8>) -> (r: Vec<u8>)
    ensures
        r@ == v@,
{
    let mut out: Vec<u8> = Vec::new();
    let mut i: usize = 0;
    while i < v.len()
        invariant
            i <= v@.len(),
            out@ == v@.take(i as int),
        decreases v@.len() - i,
    {
        out.push(v[i]);
        assert(out@ =~= v@.take(i + 1));
        i = i + 1;
    }
    assert(v@.take(v@.len() as int) =~= v@);
    out
}

/// Compares the files with what was indexed. A file whose hash differs, that is gone, or that
/// lies elsewhere is stale.
pub fn read_files_single_pass(
    paths: &Vec<String>,
    hashes: &Vec<PathHash>,
    sources: &Vec<SourceFile>,
) -> (r: Vec<FileState>)
    ensures
        r@.len() == paths@.len(),
        forall|i: int|
            0 <= i < r@.len() ==> file_known(#[trigger] r@[i], paths@[i]@, hashes@, sources@),
{
    let mut out: Vec<FileState> = Vec::new();
    let mut i: usize = 0;
    while i < paths.len()
        invariant
            i <= paths@.len(),
            out@.len() == i,
            forall|k: int|
                0 <= k < i ==> file_known(#[trigger] out@[k], paths@[k]@, hashes@, sources@),
        decreases paths@.len() - i,
    {
        let path = paths[i].as_str();
        let mut stale = true;
        let mut bytes: Vec<u8> = Vec::new();
        assert(bytes@ =~= Seq::empty());
        if path_is_safe(path) {
            if let Some(stored) = find_hash(hashes, path) {
                if let Some(b) = find_source(sources, path) {
                    let current = ids::sha256_hex(b);
                    stale = !text::same(current.as_str(), stored.as_str());
                    bytes = copy_bytes(b);
                }
            }
        }
        out.push(FileState { path: paths[i].clone(), stale, bytes });
        i = i + 1;
    }
    out
}

// ── Bodies ──────────────────────────────────────────────────────────────────

/// What is known of a file, from position `k` on.
pub open spec fn file_from(files: Seq<FileState>, path: Seq<char>, k: int) -> Option<FileState>
    decreases files.len() - k,
{
    if k < 0 || k >= files.len() {
        None
    } else if files[k].path@ == path {
        Some(files[k])
    } else {
        file_from(files, path, k + 1)
    }
}

fn find_file<'a>(files: &'a Vec<FileState>, path: &str) -> (r: Option<&'a FileState>)
    ensures
        match r {
            Some(f) => file_from(files@, path@, 0) == Some(*f),
            None => file_from(files@, path@, 0) is None,
        },
{
    let mut i: usize = 0;
    while i < files.len()
        invariant
            i <= files@.len(),
            file_from(files@, path@, 0) == file_from(files@, path@, i as int),
        decreases files@.len() - i,
    {
        if text::same(files[i].path.as_str(), path) {
            return Some(&files[i]);
        }
        i = i + 1;
    }
    None
}

/// Whether the file of a symbol is stale; a file of which nothing is known is not.
pub open spec fn entry_stale(files: Seq<FileState>, e: CodeScopeEntryRaw) -> bool {
    match file_from(files, e.source_path@, 0) {
        Some(f) => f.stale,
        None => false,
    }
}

/// The lines `first..=last` of a text, counted from one; none for a span that is empty or
/// begins behind the text.
pub open spec fn span_text(content: Seq<char>, first: u32, last: u32) -> Option<Seq<char>> {
    let all = text::lines(content);
    if first == 0 || first > last || first > all.len() {
        None
    } else {
        let end = if last < all.len() {
            last as int
        } else {
            all.len() as int
        };
        Some(text::joined(all.subrange(first - 1, end), "\n"@))
    }
}

/// The body of a symbol: its lines of the file, if the file is the one that was indexed.
pub open spec fn body_of(files: Seq<FileState>, e: CodeScopeEntryRaw) -> Option<Seq<char>> {
    match file_from(files, e.source_path@, 0) {
        None => None,
        Some(f) => if f.stale || f.bytes@.len() == 0 || !valid_utf8(f.bytes@) {
            None
        } else {
            match e.span {
                Some((first, last)) => span_text(decode_utf8(f.bytes@), first, last),
                None => None,
            }
        },
    }
}

fn span_of(content: &str, first: u32, last: u32) -> (r: Option<String>)
    ensures
        match r {
            Some(b) => span_text(content@, first, last) == Some(b@),
            None => span_text(content@, first, last) is None,
        },
{
    if first == 0 || first > last {
        return None;
    }
    let all = text::lines_of(content);
    let n: usize = all.len();
    assert(text::lines(content@).len() == n);
    if first as u64 > n as u64 {
        return None;
    }
    let end: usize = if (last as u64) < n as u64 {
        last as usize
    } else {
        n
    };
    let mut part: Vec<String> = Vec::new();
    let start: usize = first as usize - 1;
    let mut i: usize = start;
    assert(text::views(part@) =~= text::views(all@).subrange(start as int, start as int));
    while i < end
        invariant
            start <= i <= end <= n == all@.len(),
            text::views(part@) == text::views(all@).subrange(start as int, i as int),
        decreases end - i,
    {
        let ghost before = text::views(part@);
        part.push(all[i].clone());
        assert(text::views(part@) =~= before.push(all@[i as int]@));
        assert(text::views(all@).subrange(start as int, i + 1) =~= before.push(all@[i as int]@));
        i = i + 1;
    }
    Some(text::join(&part, "\n"))
}

/// The body of a symbol and the tokens that it takes.
pub fn extract_body_from_file_data(files: &Vec<FileState>, entry: &CodeScopeEntryRaw) -> (r:
    Option<(String, usize)>)
    ensures
        match r {
            Some((b, cost)) => body_of(files@, *entry) == Some(b@) && cost == tokens(
                text::byte_length(b@),
            ),
            None => body_of(files@, *entry) is None,
        },
{
    let f = match find_file(files, entry.source_path.as_str()) {
        Some(f) => f,
        None => return None,
    };
    if f.stale || f.bytes.len() == 0 {
        return None;
    }
    let (first, last) = match entry.span {
        Some(span) => span,
        None => return None,
    };
    let content = match text::utf8_text(f.bytes.as_slice()) {
        Some(s) => s,
        None => return None,
    };
    match span_of(content.as_str(), first, last) {
        Some(b) => {
            let cost = tokens_of(text::byte_len(b.as_str()));
            Some((b, cost))
        },
        None => None,
    }
}

/// The body that a symbol would be shown with, if there is room for it.
pub open spec fn candidate_body(
    files: Seq<FileState>,
    e: CodeScopeEntryRaw,
    include_body: bool,
) -> Option<Seq<char>> {
    if include_body && !entry_stale(files, e) {
        body_of(files, e)
    } else {
        None
    }
}

/// The tokens of the bodies that are shown of the first `k` symbols.
pub open spec fn body_tokens(
    list: Seq<CodeScopeEntryRaw>,
    files: Seq<FileState>,
    include_body: bool,
    budget: nat,
    k: int,
) -> nat
    decreases k,
{
    if k <= 0 {
        0
    } else {
        let used = body_tokens(list, files, include_body, budget, k - 1);
        match candidate_body(files, list[k - 1], include_body) {
            Some(b) => if used + tokens(text::byte_length(b)) <= budget {
                used + tokens(text::byte_length(b))
            } else {
                used
            },
            None => used,
        }
    }
}

/// The body that the `k`-th symbol is shown with.
pub open spec fn shown_body(
    list: Seq<CodeScopeEntryRaw>,
    files: Seq<FileState>,
    include_body: bool,
    budget: nat,
    k: int,
) -> Option<Seq<char>> {
    match candidate_body(files, list[k], include_body) {
        Some(b) => if body_tokens(list, files, include_body, budget, k) + tokens(
            text::byte_length(b),
        ) <= budget {
            Some(b)
        } else {
            None
        },
        None => None,
    }
}

/// Whether one of the first `k` symbols is shown without its body for want of room.
pub open spec fn bodies_cut(
    list: Seq<CodeScopeEntryRaw>,
    files: Seq<FileState>,
    include_body: bool,
    budget: nat,
    k: int,
) -> bool {
    exists|i: int|
        0 <= i < k && candidate_body(files, list[i], include_body) is Some && #[trigger] shown_body(
            list,
            files,
            include_body,
            budget,
            i,
        ) is None
}

// ── Callers ─────────────────────────────────────────────────────────────────

/// The callers of a symbol, from position `k` on.
pub open spec fn callers_from(rows: Seq<CallersRow>, name: Seq<char>, k: int) -> Seq<String>
    decreases rows.len() - k,
{
    if k < 0 || k >= rows.len() {
        Seq::empty()
    } else if rows[k].name@ == name {
        rows[k].callers@
    } else {
        callers_from(rows, name, k + 1)
    }
}

/// Whether a symbol of this name comes before position `k`.
pub open spec fn named_before(list: Seq<CodeScopeEntryRaw>, k: int) -> bool {
    exists|i: int|
        0 <= i < k && (#[trigger] list[i]).qualified_name@ == list[k].qualified_name@
}

/// The callers of the `k`-th symbol. They are shown with the first symbol of the name only.
pub open spec fn entry_callers(
    list: Seq<CodeScopeEntryRaw>,
    rows: Seq<CallersRow>,
    k: int,
) -> Seq<String> {
    if named_before(list, k) {
        Seq::empty()
    } else {
        callers_from(rows, list[k].qualified_name@, 0)
    }
}

fn find_callers(list: &Vec<&CodeScopeEntryRaw>, rows: &Vec<CallersRow>, k: usize) -> (r: Vec<
    String,
>)
    requires
        k < list@.len(),
    ensures
        r@ == entry_callers(entries_of(list@), rows@, k as int),
{
    let ghost all = entries_of(list@);
    let name = list[k].qualified_name.as_str();
    let mut i: usize = 0;
    while i < k
        invariant
            i <= k < list@.len(),
            all == entries_of(list@),
            name@ == all[k as int].qualified_name@,
            forall|j: int| 0 <= j < i ==> (#[trigger] all[j]).qualified_name@ != name@,
        decreases k - i,
    {
        assert(all[i as int] == *list@[i as int]);
        if text::same(list[i].qualified_name.as_str(), name) {
            return Vec::new();
        }
        i = i + 1;
    }
    assert(!named_before(all, k as int));
    let mut j: usize = 0;
    while j < rows.len()
        invariant
            j <= rows@.len(),
            callers_from(rows@, name@, 0) == callers_from(rows@, name@, j as int),
            name@ == all[k as int].qualified_name@,
            all == entries_of(list@),
            !named_before(all, k as int),
        decreases rows@.len() - j,
    {
        if text::same(rows[j].name.as_str(), name) {
            return rows::copy_list(&rows[j].callers);
        }
        j = j + 1;
    }
    Vec::new()
}

// ── Entries ─────────────────────────────────────────────────────────────────

/// Whether `x` shows the `k`-th symbol.
pub open spec fn shows(
    list: Seq<CodeScopeEntryRaw>,
    files: Seq<FileState>,
    callers: Seq<CallersRow>,
    include_body: bool,
    body_budget: nat,
    max_callers: nat,
    k: int,
    x: CodeScopeEntry,
) -> bool {
    let e = list[k];
    let all = entry_callers(list, callers, k);
    &&& x.note_id@ == e.note_id@
    &&& x.source_path@ == e.source_path@
    &&& x.kind@ == e.kind@
    &&& x.qualified_name@ == e.qualified_name@
    &&& x.signature@ == match e.signature {
        Some(s) => s@,
        None => ""@,
    }
    &&& x.deps@ == e.deps@
    &&& x.stale == entry_stale(files, e)
    &&& rows::opt_text(x.body) == shown_body(list, files, include_body, body_budget, k)
    &&& x.callers@ == if all.len() > max_callers {
        all.take(max_callers as int)
    } else {
        all
    }
    &&& x.callers_truncated == (all.len() >= max_callers)
}

/// Shows the symbols, with their bodies as far as the budget goes and with their callers.
pub fn build_entries(
    kept: &Vec<&CodeScopeEntryRaw>,
    files: &Vec<FileState>,
    callers: &Vec<CallersRow>,
    include_body: bool,
    body_budget: usize,
    max_callers: usize,
) -> (r: (Vec<CodeScopeEntry>, bool))
    ensures
        r.0@.len() == kept@.len(),
        forall|k: int|
            0 <= k < kept@.len() ==> shows(
                entries_of(kept@),
                files@,
                callers@,
                include_body,
                body_budget as nat,
                max_callers as nat,
                k,
                #[trigger] r.0@[k],
            ),
        r.1 == bodies_cut(
            entries_of(kept@),
            files@,
            include_body,
            body_budget as nat,
            kept@.len() as int,
        ),
{
    let ghost list = entries_of(kept@);
    let mut used: usize = 0;
    let mut cut = false;
    let mut out: Vec<CodeScopeEntry> = Vec::new();
    let mut i: usize = 0;
    while i < kept.len()
        invariant
            i <= kept@.len(),
            list == entries_of(kept@),
            out@.len() == i,
            used == body_tokens(list, files@, include_body, body_budget as nat, i as int),
            used <= body_budget,
            cut == bodies_cut(list, files@, include_body, body_budget as nat, i as int),
            forall|k: int|
                0 <= k < i ==> shows(
                    list,
                    files@,
                    callers@,
                    include_body,
                    body_budget as nat,
                    max_callers as nat,
                    k,
                    #[trigger] out@[k],
                ),
        decreases kept@.len() - i,
    {
        let e = kept[i];
        assert(list[i as int] == *e);
        let ghost cut_before = cut;
        let stale = match find_file(files, e.source_path.as_str()) {
            Some(f) => f.stale,
            None => false,
        };
        let mut body: Option<String> = None;
        if include_body && !stale {
            if let Some((b, cost)) = extract_body_from_file_data(files, e) {
                if cost <= body_budget - used {
                    used = used + cost;
                    body = Some(b);
                } else {
                    cut = true;
                }
            }
        }
        proof {
            let budget = body_budget as nat;
            assert(rows::opt_text(body) == shown_body(list, files@, include_body, budget, i as int));
            assert(bodies_cut(list, files@, include_body, budget, i + 1) == (cut_before || (
            candidate_body(files@, list[i as int], include_body) is Some && shown_body(
                list,
                files@,
                include_body,
                budget,
                i as int,
            ) is None)));
        }
        let mut shown = find_callers(kept, callers, i);
        let callers_truncated = shown.len() >= max_callers;
        let ghost all = shown@;
        shown.truncate(max_callers);
        assert(shown@ =~= if all.len() > max_callers {
            all.take(max_callers as int)
        } else {
            all
        });
        out.push(
            CodeScopeEntry {
                note_id: e.note_id.text(),
                source_path: e.source_path.clone(),
                kind: e.kind.clone(),
                qualified_name: e.qualified_name.clone(),
                signature: match &e.signature {
                    Some(s) => s.clone(),
                    None => "".to_owned(),
                },
                deps: rows::copy_list(&e.deps),
                stale,
                body,
                callers: shown,
                callers_truncated,
            },
        );
        i = i + 1;
    }
    (out, cut)
}

// ── Stale files ─────────────────────────────────────────────────────────────

/// The files of the first `k` entries that are stale, each once, in the order in which they
/// come.
pub open spec fn stale_files(entries: Seq<CodeScopeEntry>, k: int) -> Seq<Seq<char>>
    decreases k,
{
    if k <= 0 {
        Seq::empty()
    } else {
        let before = stale_files(entries, k - 1);
        let e = entries[k - 1];
        if !e.stale || before.contains(e.source_path@) {
            before
        } else {
            before.push(e.source_path@)
        }
    }
}

/// The files of what is shown that have to be indexed anew, each once.
pub fn stale_paths(x: &CodeScopeResponse) -> (r: Vec<String>)
    ensures
        text::views(r@) == stale_files(x.entries@, x.entries@.len() as int),
{
    let entries = &x.entries;
    let mut out: Vec<String> = Vec::new();
    let mut i: usize = 0;
    assert(text::views(out@) =~= Seq::empty());
    while i < entries.len()
        invariant
            i <= entries@.len(),
            text::views(out@) == stale_files(entries@, i as int),
        decreases entries@.len() - i,
    {
        let e = &entries[i];
        let ghost before = text::views(out@);
        if e.stale && !text::listed(&out, e.source_path.as_str()) {
            out.push(e.source_path.clone());
            assert(text::views(out@) =~= before.push(e.source_path@));
        }
        i = i + 1;
    }
    out
}

// ── The look ────────────────────────────────────────────────────────────────

/// What is wrong with a request.
pub enum ScopeFault {
    /// The selector is none.
    Kind,
    /// The selector has no value, or a very long one.
    Value,
}

/// What is wrong with a request, if anything is.
pub open spec fn scope_fault(req: CodeScopeRequest) -> Option<ScopeFault> {
    let kind = req.selector.kind@;
    let value = text::trimmed(req.selector.value@);
    if kind != "query"@ && kind != "path"@ && kind != "symbol"@ {
        Some(ScopeFault::Kind)
    } else if value.len() == 0 || text::byte_length(value) > 512 {
        Some(ScopeFault::Value)
    } else {
        None
    }
}

fn check_scope(req: &CodeScopeRequest) -> (r: Result<String, ScopeFault>)
    ensures
        match r {
            Ok(value) => scope_fault(*req) is None && value@ == text::trimmed(
                req.selector.value@,
            ),
            Err(f) => scope_fault(*req) == Some(f),
        },
{
    let kind = req.selector.kind.as_str();
    if !text::same(kind, "query") && !text::same(kind, "path") && !text::same(kind, "symbol") {
        return Err(ScopeFault::Kind);
    }
    let value = text::trim(req.selector.value.as_str());
    if value.as_str().is_empty() || text::byte_len(value.as_str()) > 512 {
        return Err(ScopeFault::Value);
    }
    Ok(value)
}

/// The budget of a request, in tokens.
pub open spec fn budget_of(req: CodeScopeRequest) -> nat {
    let n: nat = match req.budget_tokens {
        Some(n) => n as nat,
        None => 800,
    };
    if n < 1 {
        1
    } else if n > 8_000 {
        8_000
    } else {
        n
    }
}

/// The budget of a request for bodies, in tokens.
pub open spec fn body_budget_of(req: CodeScopeRequest, st: CodeSettings) -> nat {
    let n: nat = match req.body_budget_tokens {
        Some(n) => n as nat,
        None => st.default_body_budget as nat,
    };
    if n < 1 {
        1
    } else if n > 32_000 {
        32_000
    } else {
        n
    }
}

fn budgets(req: &CodeScopeRequest, st: &CodeSettings) -> (r: (usize, usize))
    ensures
        r.0 == budget_of(*req),
        r.0 <= 8_000,
        r.1 == body_budget_of(*req, *st),
{
    let n: u32 = match req.budget_tokens {
        Some(n) => n,
        None => DEFAULT_BUDGET_TOKENS,
    };
    let budget: usize = if n < 1 {
        1
    } else if n > MAX_BUDGET_TOKENS {
        MAX_BUDGET_TOKENS as usize
    } else {
        n as usize
    };
    let m: usize = match req.body_budget_tokens {
        Some(m) => m,
        None => st.default_body_budget,
    };
    let bodies: usize = if m < 1 {
        1
    } else if m > MAX_BODY_BUDGET_TOKENS {
        MAX_BODY_BUDGET_TOKENS
    } else {
        m
    };
    (budget, bodies)
}

/// A step of a look that is not its end.
#[derive(Debug)]
pub enum ScopeStop {
    Ask(Ask),
    /// The vault was never indexed.
    UnknownVault,
    /// The vault could not be looked up.
    VaultFailed,
    /// The symbols could not be looked up.
    QueryFailed,
}

/// A step of a look by its contents.
#[verifier::ext_equal]
pub enum ScopeGate {
    Ask(Question),
    UnknownVault,
    VaultFailed,
    QueryFailed,
    Pass,
}

impl View for ScopeStop {
    type V = ScopeGate;

    open spec fn view(&self) -> ScopeGate {
        match self {
            ScopeStop::Ask(q) => ScopeGate::Ask(q@),
            ScopeStop::UnknownVault => ScopeGate::UnknownVault,
            ScopeStop::VaultFailed => ScopeGate::VaultFailed,
            ScopeStop::QueryFailed => ScopeGate::QueryFailed,
        }
    }
}

/// The symbols that were found.
pub open spec fn found(a: Answers) -> Seq<CodeScopeEntryRaw> {
    a.code->0->Ok_0@
}

/// The symbols that are shown.
pub open spec fn shown_entries(req: CodeScopeRequest, a: Answers) -> Seq<CodeScopeEntryRaw> {
    kept_entries(
        found(a),
        ranked(found(a), a.code_ranks->0@),
        budget_of(req),
        found(a).len() as int,
    )
}

/// Whether the files are compared with what was indexed: there are some, their directory is
/// there, and the hashes are known.
pub open spec fn files_compared(list: Seq<CodeScopeEntryRaw>, a: Answers) -> bool {
    list.len() > 0 && a.code_root == Some(true) && a.code_hashes->0 is Ok
}

/// The names of symbols.
pub open spec fn names(list: Seq<CodeScopeEntryRaw>) -> Seq<Seq<char>> {
    list.map_values(|e: CodeScopeEntryRaw| e.qualified_name@)
}

/// What is still to be asked about the files of the symbols. What cannot be compared is taken
/// as it is.
pub open spec fn files_gate(
    vault: Seq<char>,
    list: Seq<CodeScopeEntryRaw>,
    a: Answers,
) -> ScopeGate {
    let repo = a.code_repo->0->Ok_0->0@;
    let paths = distinct_paths(list, list.len() as int);
    if list.len() == 0 || a.code_root == Some(false) {
        ScopeGate::Pass
    } else if a.code_root is None {
        ScopeGate::Ask(Question::CodeRoot { repo })
    } else {
        match a.code_hashes {
            None => ScopeGate::Ask(Question::CodeHashes { vault, paths }),
            Some(Err(_)) => ScopeGate::Pass,
            Some(Ok(hashes)) => match a.code_sources {
                None => ScopeGate::Ask(
                    Question::CodeSources { repo, paths: readable_paths(paths, hashes@) },
                ),
                Some(_) => ScopeGate::Pass,
            },
        }
    }
}

/// What is still to be asked about who depends on the symbols.
pub open spec fn callers_gate(
    req: CodeScopeRequest,
    st: CodeSettings,
    list: Seq<CodeScopeEntryRaw>,
    a: Answers,
) -> ScopeGate {
    if req.include_callers && a.code_callers is None {
        ScopeGate::Ask(
            Question::CodeCallers {
                vault: req.vault@,
                names: names(list),
                limit: st.max_callers as nat,
            },
        )
    } else {
        ScopeGate::Pass
    }
}

/// The steps of a look at a code vault, in this order: the vault, the symbols, their ranks,
/// their files, and who depends on them.
pub open spec fn scope_gate(req: CodeScopeRequest, st: CodeSettings, a: Answers) -> ScopeGate {
    let list = shown_entries(req, a);
    match a.code_repo {
        None => ScopeGate::Ask(Question::CodeRepo { vault: req.vault@ }),
        Some(Err(_)) => ScopeGate::VaultFailed,
        Some(Ok(None)) => ScopeGate::UnknownVault,
        Some(Ok(Some(_))) => match a.code {
            None => ScopeGate::Ask(
                Question::CodeQuery {
                    vault: req.vault@,
                    kind: req.selector.kind@,
                    value: text::trimmed(req.selector.value@),
                    limit: 500,
                },
            ),
            Some(Err(_)) => ScopeGate::QueryFailed,
            Some(Ok(_)) => if a.code_ranks is None {
                ScopeGate::Ask(
                    Question::CodeRanks { scores: scores(found(a)), cohesion: cohesion(found(a)) },
                )
            } else if !(files_gate(req.vault@, list, a) is Pass) {
                files_gate(req.vault@, list, a)
            } else {
                callers_gate(req, st, list, a)
            },
        },
    }
}

/// Whether `files` is what is known of the files of the symbols.
pub open spec fn files_known(
    list: Seq<CodeScopeEntryRaw>,
    a: Answers,
    files: Seq<FileState>,
) -> bool {
    let paths = distinct_paths(list, list.len() as int);
    if files_compared(list, a) {
        &&& files.len() == paths.len()
        &&& forall|i: int|
            0 <= i < files.len() ==> file_known(
                #[trigger] files[i],
                paths[i],
                a.code_hashes->0->Ok_0@,
                a.code_sources->0@,
            )
    } else {
        files.len() == 0
    }
}

/// Who depends on the symbols, as far as that was asked and answered.
pub open spec fn callers_known(req: CodeScopeRequest, a: Answers) -> Seq<CallersRow> {
    if req.include_callers && a.code_callers->0 is Ok {
        a.code_callers->0->Ok_0@
    } else {
        Seq::empty()
    }
}

/// Whether `r` shows the symbols.
pub open spec fn scope_reply(
    req: CodeScopeRequest,
    st: CodeSettings,
    a: Answers,
    r: CodeScopeResponse,
) -> bool {
    let list = shown_entries(req, a);
    let callers = callers_known(req, a);
    let bodies = body_budget_of(req, st);
    &&& r.total_matched == found(a).len() as u32
    &&& r.truncated == (list.len() < found(a).len())
    &&& r.entries@.len() == list.len()
    &&& exists|files: Seq<FileState>|
        {
            &&& #[trigger] files_known(list, a, files)
            &&& forall|k: int|
                0 <= k < list.len() ==> shows(
                    list,
                    files,
                    callers,
                    req.include_body,
                    bodies,
                    st.max_callers as nat,
                    k,
                    #[trigger] r.entries@[k],
                )
            &&& r.body_truncated == bodies_cut(
                list,
                files,
                req.include_body,
                bodies,
                list.len() as int,
            )
        }
}

fn compare_files(vault: &str, kept: &Vec<&CodeScopeEntryRaw>, a: &Answers) -> (r: Result<
    Vec<FileState>,
    ScopeStop,
>)
    requires
        a.code_repo matches Some(x) && x is Ok && x->Ok_0 is Some,
    ensures
        match r {
            Ok(files) => files_gate(vault@, entries_of(kept@), *a) is Pass && files_known(
                entries_of(kept@),
                *a,
                files@,
            ),
            Err(s) => files_gate(vault@, entries_of(kept@), *a) == s@,
        },
{
    if kept.len() == 0 {
        return Ok(Vec::new());
    }
    let repo = match &a.code_repo {
        Some(Ok(Some(p))) => p,
        _ => return Ok(Vec::new()),
    };
    match a.code_root {
        None => return Err(ScopeStop::Ask(Ask::CodeRoot { repo: repo.clone() })),
        Some(false) => return Ok(Vec::new()),
        Some(true) => {},
    }
    let paths = collect_paths(kept);
    let hashes = match &a.code_hashes {
        None => return Err(ScopeStop::Ask(Ask::CodeHashes { vault: vault.to_owned(), paths })),
        Some(Err(_)) => return Ok(Vec::new()),
        Some(Ok(h)) => h,
    };
    match &a.code_sources {
        None => Err(
            ScopeStop::Ask(
                Ask::CodeSources { repo: repo.clone(), paths: keep_readable(&paths, hashes) },
            ),
        ),
        Some(sources) => {
            let files = read_files_single_pass(&paths, hashes, sources);
            proof {
                let list = entries_of(kept@);
                let all = distinct_paths(list, list.len() as int);
                assert(text::views(paths@) == all);
                assert forall|i: int| 0 <= i < files@.len() implies file_known(
                    #[trigger] files@[i],
                    all[i],
                    hashes@,
                    sources@,
                ) by {
                    assert(all[i] == paths@[i]@);
                }
            }
            Ok(files)
        },
    }
}

fn collect_names(kept: &Vec<&CodeScopeEntryRaw>) -> (r: Vec<String>)
    ensures
        text::views(r@) == names(entries_of(kept@)),
{
    let mut out: Vec<String> = Vec::new();
    let mut i: usize = 0;
    while i < kept.len()
        invariant
            i <= kept@.len(),
            out@.len() == i,
            forall|k: int| 0 <= k < i ==> (#[trigger] out@[k])@ == kept@[k].qualified_name@,
        decreases kept@.len() - i,
    {
        out.push(kept[i].qualified_name.clone());
        i = i + 1;
    }
    assert(text::views(out@) =~= names(entries_of(kept@)));
    out
}

fn look(req: &CodeScopeRequest, value: String, st: &CodeSettings, a: &Answers) -> (r: Result<
    CodeScopeResponse,
    ScopeStop,
>)
    requires
        value@ == text::trimmed(req.selector.value@),
    ensures
        match r {
            Ok(x) => scope_gate(*req, *st, *a) is Pass && scope_reply(*req, *st, *a, x),
            Err(s) => scope_gate(*req, *st, *a) == s@,
        },
{
    match &a.code_repo {
        None => return Err(ScopeStop::Ask(Ask::CodeRepo { vault: req.vault.clone() })),
        Some(Err(_)) => return Err(ScopeStop::VaultFailed),
        Some(Ok(None)) => return Err(ScopeStop::UnknownVault),
        Some(Ok(Some(_))) => {},
    }
    let raw = match &a.code {
        None => return Err(
            ScopeStop::Ask(
                Ask::CodeQuery {
                    vault: req.vault.clone(),
                    kind: req.selector.kind.clone(),
                    value,
                    limit: MAX_CANDIDATES,
                },
            ),
        ),
        Some(Err(_)) => return Err(ScopeStop::QueryFailed),
        Some(Ok(raw)) => raw,
    };
    let ranks = match &a.code_ranks {
        None => return Err(
            ScopeStop::Ask(
                Ask::CodeRanks { scores: collect_scores(raw), cohesion: count_cohesion(raw) },
            ),
        ),
        Some(ranks) => ranks,
    };
    let p = rank_structure_aware(raw, ranks);
    let (budget, bodies) = budgets(req, st);
    let (kept, truncated) = keep_within(raw, &p, budget);
    let ghost list = shown_entries(*req, *a);
    assert(entries_of(kept@) == list);
    let files = match compare_files(req.vault.as_str(), &kept, a) {
        Ok(files) => files,
        Err(s) => return Err(s),
    };
    let none: Vec<CallersRow> = Vec::new();
    let callers = if req.include_callers {
        match &a.code_callers {
            None => return Err(
                ScopeStop::Ask(
                    Ask::CodeCallers {
                        vault: req.vault.clone(),
                        names: collect_names(&kept),
                        limit: st.max_callers,
                    },
                ),
            ),
            Some(Ok(rows)) => rows,
            Some(Err(_)) => &none,
        }
    } else {
        &none
    };
    assert(callers@ =~= callers_known(*req, *a));
    let (entries, body_truncated) = build_entries(
        &kept,
        &files,
        callers,
        req.include_body,
        bodies,
        st.max_callers,
    );
    assert(files_known(list, *a, files@));
    let total_matched: u32 = raw.len() as u32;
    Ok(CodeScopeResponse { entries, truncated, total_matched, body_truncated })
}

/// The refusal of a request that is wrong.
pub open spec fn fault_refusal(f: ScopeFault, kind: Seq<char>) -> Refusal {
    match f {
        ScopeFault::Kind => Refusal::InvalidInput(
            "invalid selector.kind: "@ + text::debug_quoted(kind),
        ),
        ScopeFault::Value => Refusal::InvalidInput(
            "selector.value empty or too long (max 512)"@,
        ),
    }
}

/// The first reason not to show source code, or the next question about it.
pub open spec fn scope_tool_gate(
    trust: TrustContext,
    req: CodeScopeRequest,
    st: CodeSettings,
    a: Answers,
) -> Gate {
    if !trust.authenticated() {
        Gate::Fail(flow::silent(Refusal::Unauthorized))
    } else if !privileged(trust) {
        Gate::Fail(flow::silent(Refusal::Forbidden("code scope needs a privileged context"@)))
    } else {
        match scope_fault(req) {
            Some(f) => Gate::Fail(flow::silent(fault_refusal(f, req.selector.kind@))),
            None => match scope_gate(req, st, a) {
                ScopeGate::Ask(q) => Gate::Ask(q),
                ScopeGate::UnknownVault => Gate::Fail(
                    flow::silent(
                        Refusal::InvalidInput(
                            "vault '"@ + req.vault@ + "' unknown (never ingested)"@,
                        ),
                    ),
                ),
                ScopeGate::VaultFailed => Gate::Fail(
                    flow::silent(Refusal::Storage("vault read failed"@)),
                ),
                ScopeGate::QueryFailed => Gate::Fail(
                    flow::silent(Refusal::Storage("code scope query failed"@)),
                ),
                ScopeGate::Pass => Gate::Pass,
            },
        }
    }
}

/// Looks at source code, for a tool.
pub fn code_scope_impl(
    trust: &TrustContext,
    req: &CodeScopeRequest,
    st: &CodeSettings,
    a: &Answers,
) -> (r: Next<CodeScopeResponse>)
    ensures
        flow::follows(r, scope_tool_gate(*trust, *req, *st, *a)),
        r matches Next::Reply(x) ==> scope_reply(*req, *st, *a, x),
{
    if !trust.is_authenticated() {
        return Next::Fail(Denial::plain(GradatumError::Unauthorized));
    }
    if !is_code_scope_privileged(trust) {
        return Next::Fail(Denial::forbidden("code scope needs a privileged context"));
    }
    let value = match check_scope(req) {
        Ok(v) => v,
        Err(ScopeFault::Kind) => return Next::Fail(
            Denial::plain(
                GradatumError::InvalidInput(
                    text::cat(
                        "invalid selector.kind: ",
                        text::debug_text(req.selector.kind.as_str()).as_str(),
                    ),
                ),
            ),
        ),
        Err(ScopeFault::Value) => return Next::Fail(
            Denial::invalid("selector.value empty or too long (max 512)"),
        ),
    };
    match look(req, value, st, a) {
        Ok(x) => Next::Reply(x),
        Err(ScopeStop::Ask(q)) => Next::Ask(q),
        Err(ScopeStop::UnknownVault) => {
            let mut m = text::cat("vault '", req.vault.as_str());
            m.append("' unknown (never ingested)");
            Next::Fail(Denial::plain(GradatumError::InvalidInput(m)))
        },
        Err(ScopeStop::VaultFailed) => Next::Fail(
            Denial::plain(GradatumError::Storage("vault read failed".to_owned())),
        ),
        Err(ScopeStop::QueryFailed) => Next::Fail(
            Denial::plain(GradatumError::Storage("code scope query failed".to_owned())),
        ),
    }
}

/// The first reason not to show source code over HTTP, or the next question about it.
pub open spec fn scope_http_gate(
    trust: TrustContext,
    req: CodeScopeRequest,
    st: CodeSettings,
    a: Answers,
) -> HttpGate {
    if !trust.authenticated() {
        HttpGate::Refuse(StatusCode::Unauthorized)
    } else if !privileged(trust) {
        HttpGate::Refuse(StatusCode::Forbidden)
    } else if !code_vault(req.vault@) || scope_fault(req) is Some {
        HttpGate::Refuse(StatusCode::BadRequest)
    } else {
        match scope_gate(req, st, a) {
            ScopeGate::Ask(q) => HttpGate::Ask(q),
            ScopeGate::UnknownVault => HttpGate::Refuse(StatusCode::NotFound),
            ScopeGate::VaultFailed => HttpGate::Refuse(StatusCode::InternalServerError),
            ScopeGate::QueryFailed => HttpGate::Refuse(StatusCode::InternalServerError),
            ScopeGate::Pass => HttpGate::Pass,
        }
    }
}

/// Looks at source code, over HTTP.
pub fn code_scope(
    trust: &TrustContext,
    req: &CodeScopeRequest,
    st: &CodeSettings,
    a: &Answers,
) -> (r: HttpNext<CodeScopeResponse>)
    ensures
        door::follows(r, scope_http_gate(*trust, *req, *st, *a)),
        r matches HttpNext::Reply(x) ==> scope_reply(*req, *st, *a, x),
{
    if !trust.is_authenticated() {
        return HttpNext::Refuse(StatusCode::Unauthorized);
    }
    if !is_code_scope_privileged(trust) {
        return HttpNext::Refuse(StatusCode::Forbidden);
    }
    if !validate_code_vault_id(req.vault.as_str()) {
        return HttpNext::Refuse(StatusCode::BadRequest);
    }
    let value = match check_scope(req) {
        Ok(v) => v,
        Err(_) => return HttpNext::Refuse(StatusCode::BadRequest),
    };
    match look(req, value, st, a) {
        Ok(x) => HttpNext::Reply(x),
        Err(ScopeStop::Ask(q)) => HttpNext::Ask(q),
        Err(ScopeStop::UnknownVault) => HttpNext::Refuse(StatusCode::NotFound),
        Err(ScopeStop::VaultFailed) => HttpNext::Refuse(StatusCode::InternalServerError),
        Err(ScopeStop::QueryFailed) => HttpNext::Refuse(StatusCode::InternalServerError),
    }
}

// ── Laws ────────────────────────────────────────────────────────────────────

/// The vault of notes is out of reach, and so is every path.
pub proof fn only_code_vaults_are_in_reach(vault: Seq<char>)
    ensures
        code_vault(vault) ==> vault != "main"@ && !vault.contains('/') && !vault.contains('.'),
{
    reveal_strlit("main");
    reveal_strlit("code-");
    if code_vault(vault) {
        if vault == "main"@ {
            assert(vault[0] == "code-"@[0]);
        }
        if vault.contains('/') {
            let i = choose|i: int| 0 <= i < vault.len() && vault[i] == '/';
            assert(vault_char(vault[i]));
        }
        if vault.contains('.') {
            let i = choose|i: int| 0 <= i < vault.len() && vault[i] == '.';
            assert(vault_char(vault[i]));
        }
    }
}

/// Nothing is asked of an index over HTTP before the caller is known to be privileged and the
/// vault to be a code vault.
pub proof fn http_asks_for_code_vaults_only(
    trust: TrustContext,
    req: CodeScopeRequest,
    st: CodeSettings,
    a: Answers,
)
    requires
        !(scope_http_gate(trust, req, st, a) is Refuse),
    ensures
        trust.authenticated(),
        privileged(trust),
        code_vault(req.vault@),
{
}

/// Nothing is asked of an index for a tool, and nothing shown, before the caller is known to be
/// privileged: a regular tenant's token is refused, whatever has been answered.
pub proof fn tools_show_code_to_the_privileged_only(
    trust: TrustContext,
    req: CodeScopeRequest,
    st: CodeSettings,
    a: Answers,
)
    ensures
        trust.authenticated() && !privileged(trust) ==> (scope_tool_gate(
            trust,
            req,
            st,
            a,
        ) matches Gate::Fail(d) && d.error is Forbidden),
        !(scope_tool_gate(trust, req, st, a) is Fail) ==> trust.authenticated() && privileged(
            trust,
        ),
{
}

/// No file is read whose path leads elsewhere, or that was not indexed.
pub proof fn only_indexed_files_are_read(
    req: CodeScopeRequest,
    st: CodeSettings,
    a: Answers,
    i: int,
)
    requires
        scope_gate(req, st, a) is Ask,
        scope_gate(req, st, a)->Ask_0 is CodeSources,
        0 <= i < scope_gate(req, st, a)->Ask_0->CodeSources_paths.len(),
    ensures
        ({
            let path = scope_gate(req, st, a)->Ask_0->CodeSources_paths[i];
            readable(path, a.code_hashes->0->Ok_0@)
        }),
{
    broadcast use vstd::seq_lib::group_filter_ensures;

    let list = shown_entries(req, a);
    let hashes = a.code_hashes->0->Ok_0@;
    let paths = distinct_paths(list, list.len() as int);
    let keep = |p: Seq<char>| readable(p, hashes);
    assert(keep(paths.filter(keep)[i]));
}

/// A symbol is shown with its body only when its file is, byte for byte, the one that was
/// indexed.
pub proof fn bodies_come_from_unchanged_files(
    list: Seq<CodeScopeEntryRaw>,
    a: Answers,
    files: Seq<FileState>,
    include_body: bool,
    budget: nat,
    k: int,
)
    requires
        files_known(list, a, files),
        0 <= k < list.len(),
        shown_body(list, files, include_body, budget, k) is Some,
    ensures
        include_body,
        files_compared(list, a),
        !is_stale(list[k].source_path@, a.code_hashes->0->Ok_0@, a.code_sources->0@),
{
    let path = list[k].source_path@;
    lemma_file_from(files, path, 0);
}

proof fn lemma_file_from(files: Seq<FileState>, path: Seq<char>, k: int)
    requires
        0 <= k,
    ensures
        file_from(files, path, k) matches Some(f) ==> exists|i: int|
            k <= i < files.len() && #[trigger] files[i] == f && f.path@ == path,
    decreases files.len() - k,
{
    if k < files.len() && files[k].path@ != path {
        lemma_file_from(files, path, k + 1);
    }
}

/// Exactly the files of stale entries are to be indexed anew, and none of them twice.
pub proof fn every_stale_file_is_indexed_anew(
    entries: Seq<CodeScopeEntry>,
    k: int,
    path: Seq<char>,
)
    requires
        0 <= k <= entries.len(),
    ensures
        stale_files(entries, k).no_duplicates(),
        stale_files(entries, k).contains(path) <==> exists|i: int|
            0 <= i < k && (#[trigger] entries[i]).stale && entries[i].source_path@ == path,
    decreases k,
{
    if k > 0 {
        every_stale_file_is_indexed_anew(entries, k - 1, path);
        let before = stale_files(entries, k - 1);
        let e = entries[k - 1];
        let now = stale_files(entries, k);
        if now != before {
            assert(now == before.push(e.source_path@));
            assert(now[before.len() as int] == e.source_path@);
            if before.contains(path) {
                let j = choose|j: int| 0 <= j < before.len() && before[j] == path;
                assert(now[j] == path);
            }
            if now.contains(path) && path != e.source_path@ {
                let j = choose|j: int| 0 <= j < now.len() && now[j] == path;
                assert(before[j] == path);
            }
        }
    }
}

/// The bodies that are shown take no more tokens than their budget has.
pub proof fn bodies_fit_their_budget(
    list: Seq<CodeScopeEntryRaw>,
    files: Seq<FileState>,
    include_body: bool,
    budget: nat,
    k: int,
)
    ensures
        body_tokens(list, files, include_body, budget, k) <= budget,
    decreases k,
{
    if k > 0 {
        bodies_fit_their_budget(list, files, include_body, budget, k - 1);
    }
}

/// What is shown fits the budget.
pub proof fn shown_entries_fit_the_budget(req: CodeScopeRequest, a: Answers)
    ensures
        total_tokens(shown_entries(req, a)) <= budget_of(req) <= 8_000,
{
    let p = ranked(found(a), a.code_ranks->0@);
    lemma_used_is_total(found(a), p, budget_of(req), found(a).len() as int);
}

proof fn lemma_used_is_total(raw: Seq<CodeScopeEntryRaw>, p: Seq<usize>, budget: nat, k: int)
    ensures
        used_tokens(raw, p, budget, k) <= budget,
        used_tokens(raw, p, budget, k) == total_tokens(kept_entries(raw, p, budget, k)),
    decreases k,
{
    if k > 0 {
        lemma_used_is_total(raw, p, budget, k - 1);
        let before = kept_entries(raw, p, budget, k - 1);
        let e = raw[p[k - 1] as int];
        assert(before.push(e).drop_last() =~= before);
    }
}

proof fn lemma_callers_from(rows: Seq<CallersRow>, name: Seq<char>, k: int, j: int)
    requires
        0 <= k <= j,
    ensures
        j < rows.len() && rows[j].name@ == name && (forall|i: int|
            k <= i < j ==> (#[trigger] rows[i]).name@ != name) ==> callers_from(rows, name, k)
            == rows[j].callers@,
        (forall|i: int| k <= i < rows.len() ==> (#[trigger] rows[i]).name@ != name)
            ==> callers_from(rows, name, k) == Seq::<String>::empty(),
    decreases rows.len() - k,
{
    if k < rows.len() && rows[k].name@ != name {
        if k < j {
            lemma_callers_from(rows, name, k + 1, j);
        } else {
            lemma_callers_from(rows, name, k + 1, k + 1);
        }
    }
}

/// When callers are asked for and were looked up, the first symbol that is shown under a name has
/// the callers of the first row about that name, as many as are shown at most, and says whether
/// there may be more. A symbol without a row, and any symbol when callers were not asked for or
/// could not be looked up, has none.
pub proof fn a_symbol_is_shown_with_its_callers(
    req: CodeScopeRequest,
    st: CodeSettings,
    a: Answers,
    r: CodeScopeResponse,
    k: int,
    j: int,
)
    requires
        scope_reply(req, st, a, r),
        0 <= k < r.entries@.len(),
        forall|i: int|
            0 <= i < k ==> (#[trigger] r.entries@[i]).qualified_name@
                != r.entries@[k].qualified_name@,
    ensures
        ({
            let x = r.entries@[k];
            let rows = a.code_callers->0->Ok_0@;
            let all = rows[j].callers@;
            let asked = req.include_callers && a.code_callers->0 is Ok;
            &&& asked && 0 <= j < rows.len() && rows[j].name@ == x.qualified_name@ && (forall|i: int|
                0 <= i < j ==> (#[trigger] rows[i]).name@ != x.qualified_name@) ==> {
                &&& x.callers@.len() == if all.len() < st.max_callers {
                    all.len()
                } else {
                    st.max_callers as nat
                }
                &&& forall|i: int| 0 <= i < x.callers@.len() ==> #[trigger] x.callers@[i] == all[i]
                &&& x.callers_truncated <==> all.len() >= st.max_callers
            }
            &&& !asked || (forall|i: int|
                0 <= i < rows.len() ==> (#[trigger] rows[i]).name@ != x.qualified_name@)
                ==> x.callers@.len() == 0
        }),
{
    let list = shown_entries(req, a);
    let known = callers_known(req, a);
    let files = choose|files: Seq<FileState>|
        {
            &&& #[trigger] files_known(list, a, files)
            &&& forall|k: int|
                0 <= k < list.len() ==> shows(
                    list,
                    files,
                    known,
                    req.include_body,
                    body_budget_of(req, st),
                    st.max_callers as nat,
                    k,
                    #[trigger] r.entries@[k],
                )
            &&& r.body_truncated == bodies_cut(
                list,
                files,
                req.include_body,
                body_budget_of(req, st),
                list.len() as int,
            )
        };
    let x = r.entries@[k];
    assert(x.qualified_name@ == list[k].qualified_name@);
    assert(!named_before(list, k)) by {
        if named_before(list, k) {
            let i = choose|i: int|
                0 <= i < k && (#[trigger] list[i]).qualified_name@ == list[k].qualified_name@;
            assert(r.entries@[i].qualified_name@ == list[i].qualified_name@);
        }
    }
    lemma_callers_from(known, x.qualified_name@, 0, if j < 0 {
        0
    } else {
        j
    });
    lemma_callers_from(known, x.qualified_name@, 0, 0);
}

/// The positions of the symbols that are kept among the first `k`.
spec fn kept_positions(raw: Seq<CodeScopeEntryRaw>, p: Seq<usize>, budget: nat, k: int) -> Seq<
    int,
>
    decreases k,
{
    if k <= 0 {
        Seq::empty()
    } else {
        let before = kept_positions(raw, p, budget, k - 1);
        if used_tokens(raw, p, budget, k - 1) + entry_tokens(raw[p[k - 1] as int]) > budget {
            before
        } else {
            before.push(k - 1)
        }
    }
}

proof fn lemma_kept_positions(raw: Seq<CodeScopeEntryRaw>, p: Seq<usize>, budget: nat, k: int)
    requires
        0 <= k <= p.len(),
    ensures
        ({
            let q = kept_positions(raw, p, budget, k);
            let kept = kept_entries(raw, p, budget, k);
            &&& q.len() == kept.len()
            &&& forall|i: int|
                0 <= i < q.len() ==> 0 <= #[trigger] q[i] < k && kept[i] == raw[p[q[i]] as int]
            &&& forall|i: int, j: int| 0 <= i < j < q.len() ==> #[trigger] q[i] < #[trigger] q[j]
        }),
    decreases k,
{
    if k > 0 {
        lemma_kept_positions(raw, p, budget, k - 1);
    }
}

/// Whether the symbol at position `x` of those that were found comes before the one at `y`: by a
/// lower rank, and by its name among equals. Without ranks for all of them they stay as they were
/// found.
pub open spec fn outranks(a: Answers, x: int, y: int) -> bool {
    let raw = found(a);
    let ranks = a.code_ranks->0@;
    if ranks.len() == raw.len() {
        ranks[x] < ranks[y] || (ranks[x] == ranks[y] && (order::text_lt(
            raw[x].qualified_name@,
            raw[y].qualified_name@,
        ) || (raw[x].qualified_name@ == raw[y].qualified_name@ && x < y)))
    } else {
        x < y
    }
}

/// Symbols are shown best first: each is one of those that were found, none comes twice, a lower
/// rank comes before a higher one, and the name decides among equals.
pub proof fn symbols_are_shown_best_first(req: CodeScopeRequest, a: Answers, i: int, j: int)
    requires
        0 <= i < j < shown_entries(req, a).len(),
    ensures
        exists|x: int, y: int|
            {
                &&& 0 <= x < found(a).len() && 0 <= y < found(a).len() && x != y
                &&& shown_entries(req, a)[i] == #[trigger] found(a)[x]
                &&& shown_entries(req, a)[j] == #[trigger] found(a)[y]
                &&& outranks(a, x, y)
            },
{
    let v = a.code->0->Ok_0;
    assert(v.len() == v@.len());
    let raw = found(a);
    let ranks = a.code_ranks->0@;
    let p = ranked(raw, ranks);
    let keys = rank_keys(raw, ranks);
    let b = budget_of(req);
    let n = raw.len() as int;
    order::sorted_positions_exist(keys);
    assert(p.len() == n);
    lemma_kept_positions(raw, p, b, n);
    let q = kept_positions(raw, p, b, n);
    let s = q[i];
    let t = q[j];
    assert(s < t);
    if ranks.len() == raw.len() {
        order::keys_come_in_order(keys, s, t);
    }
    let x = p[s] as int;
    let y = p[t] as int;
    assert(shown_entries(req, a)[i] == raw[x]);
    assert(shown_entries(req, a)[j] == raw[y]);
}

proof fn lemma_left_out(raw: Seq<CodeScopeEntryRaw>, p: Seq<usize>, budget: nat, k: int, s: int)
    requires
        0 <= s < k <= p.len(),
    ensures
        ({
            let q = kept_positions(raw, p, budget, k);
            let before = kept_entries(raw, p, budget, s);
            &&& q.contains(s) || total_tokens(before) + entry_tokens(raw[p[s] as int]) > budget
            &&& before.len() <= kept_entries(raw, p, budget, k).len()
            &&& before == kept_entries(raw, p, budget, k).take(before.len() as int)
        }),
    decreases k,
{
    lemma_used_is_total(raw, p, budget, s);
    let before = kept_entries(raw, p, budget, s);
    if s < k - 1 {
        lemma_left_out(raw, p, budget, k - 1, s);
        let q = kept_positions(raw, p, budget, k - 1);
        let r = kept_positions(raw, p, budget, k);
        if q.contains(s) {
            let i = choose|i: int| 0 <= i < q.len() && q[i] == s;
            assert(r[i] == s);
        }
        let kept = kept_entries(raw, p, budget, k - 1);
        assert(kept_entries(raw, p, budget, k).take(before.len() as int) =~= kept.take(
            before.len() as int,
        ));
    } else {
        let kept = kept_entries(raw, p, budget, k);
        assert(kept.take(before.len() as int) =~= before);
        let r = kept_positions(raw, p, budget, k);
        if r != kept_positions(raw, p, budget, s) {
            assert(r.last() == s);
            assert(r[r.len() - 1] == s);
        }
    }
}

/// A symbol is left out only for want of room: with the symbols that come before it and are
/// shown, it would not fit the budget.
pub proof fn symbols_are_left_out_for_want_of_room(req: CodeScopeRequest, a: Answers, y: int)
    requires
        0 <= y < found(a).len(),
    ensures
        ({
            let raw = found(a);
            let shown = shown_entries(req, a);
            ||| exists|i: int| 0 <= i < shown.len() && #[trigger] shown[i] == raw[y]
            ||| exists|m: int|
                {
                    &&& 0 <= m <= shown.len()
                    &&& #[trigger] total_tokens(shown.take(m)) + entry_tokens(raw[y]) > budget_of(
                        req,
                    )
                    &&& forall|i: int|
                        0 <= i < m ==> exists|x: int|
                            0 <= x < raw.len() && #[trigger] shown[i] == #[trigger] raw[x]
                                && outranks(a, x, y)
                }
        }),
{
    let v = a.code->0->Ok_0;
    assert(v.len() == v@.len());
    let raw = found(a);
    let ranks = a.code_ranks->0@;
    let p = ranked(raw, ranks);
    let keys = rank_keys(raw, ranks);
    let b = budget_of(req);
    let n = raw.len() as int;
    order::sorted_positions_exist(keys);
    let s = if ranks.len() == raw.len() {
        order::every_key_has_its_place(keys, y);
        choose|s: int| 0 <= s < n && #[trigger] order::sorted_positions(keys)[s] == y
    } else {
        y
    };
    assert(p[s] == y);
    lemma_left_out(raw, p, b, n, s);
    lemma_kept_positions(raw, p, b, n);
    let q = kept_positions(raw, p, b, n);
    let shown = shown_entries(req, a);
    if q.contains(s) {
        let i = choose|i: int| 0 <= i < q.len() && q[i] == s;
        assert(shown[i] == raw[y]);
    } else {
        let before = kept_entries(raw, p, b, s);
        let m = before.len() as int;
        assert(total_tokens(shown.take(m)) + entry_tokens(raw[y]) > b);
        lemma_kept_positions(raw, p, b, s);
        let u = kept_positions(raw, p, b, s);
        assert forall|i: int| 0 <= i < m implies exists|x: int|
            0 <= x < raw.len() && #[trigger] shown[i] == #[trigger] raw[x] && outranks(
                a,
                x,
                y,
            ) by {
            let x = p[u[i]] as int;
            assert(shown.take(m)[i] == shown[i]);
            assert(shown[i] == raw[x]);
            if ranks.len() == raw.len() {
                order::keys_come_in_order(keys, u[i], s);
            }
            assert(outranks(a, x, y));
        }
    }
}

/// What is shown of a symbol is what was found of it.
pub proof fn a_symbol_is_shown_as_it_was_found(
    req: CodeScopeRequest,
    st: CodeSettings,
    a: Answers,
    r: CodeScopeResponse,
    k: int,
)
    requires
        scope_reply(req, st, a, r),
    ensures
        found(a) == a.code->0->Ok_0@,
        r.entries@.len() == shown_entries(req, a).len(),
        r.total_matched == found(a).len() as u32,
        r.truncated <==> r.entries@.len() < found(a).len(),
        !req.include_body ==> !r.body_truncated,
        0 <= k < r.entries@.len() ==> ({
            let x = r.entries@[k];
            let e = shown_entries(req, a)[k];
            &&& x.note_id@ == e.note_id@
            &&& x.source_path@ == e.source_path@
            &&& x.kind@ == e.kind@
            &&& x.qualified_name@ == e.qualified_name@
            &&& e.signature matches Some(s) ==> x.signature@ == s@
            &&& e.signature is None ==> x.signature@ == ""@
            &&& x.deps@ == e.deps@
            &&& !req.include_body ==> x.body is None
        }),
{
}

proof fn lemma_hash_from(rows: Seq<PathHash>, path: Seq<char>, k: int, j: int)
    requires
        0 <= k <= j,
    ensures
        j < rows.len() && rows[j].path@ == path && (forall|i: int|
            k <= i < j ==> (#[trigger] rows[i]).path@ != path) ==> hash_from(rows, path, k) == Some(
            rows[j].hash@,
        ),
        hash_from(rows, path, k) matches Some(h) ==> exists|i: int|
            k <= i < rows.len() && (#[trigger] rows[i]).path@ == path && rows[i].hash@ == h,
    decreases rows.len() - k,
{
    if k < rows.len() && rows[k].path@ != path {
        lemma_hash_from(rows, path, k + 1, if j > k {
            j
        } else {
            k + 1
        });
    }
}

proof fn lemma_source_from(rows: Seq<SourceFile>, path: Seq<char>, k: int, j: int)
    requires
        0 <= k <= j,
    ensures
        j < rows.len() && rows[j].path@ == path && (forall|i: int|
            k <= i < j ==> (#[trigger] rows[i]).path@ != path) ==> source_from(rows, path, k)
            == Some(rows[j].bytes@),
        source_from(rows, path, k) matches Some(b) ==> exists|i: int|
            k <= i < rows.len() && (#[trigger] rows[i]).path@ == path && rows[i].bytes@ == b,
    decreases rows.len() - k,
{
    if k < rows.len() && rows[k].path@ != path {
        lemma_source_from(rows, path, k + 1, if j > k {
            j
        } else {
            k + 1
        });
    }
}

proof fn lemma_path_listed(list: Seq<CodeScopeEntryRaw>, n: int)
    requires
        0 <= n <= list.len(),
    ensures
        forall|k: int| 0 <= k < n ==> distinct_paths(list, n).contains(
            (#[trigger] list[k]).source_path@,
        ),
        forall|i: int|
            0 <= i < distinct_paths(list, n).len() ==> exists|k: int|
                0 <= k < n && (#[trigger] list[k]).source_path@ == #[trigger] distinct_paths(list, n)[i],
        distinct_paths(list, n).no_duplicates(),
    decreases n,
{
    if n > 0 {
        lemma_path_listed(list, n - 1);
        let before = distinct_paths(list, n - 1);
        let now = distinct_paths(list, n);
        let path = list[n - 1].source_path@;
        assert forall|k: int| 0 <= k < n implies now.contains(
            (#[trigger] list[k]).source_path@,
        ) by {
            if k < n - 1 {
                let i = choose|i: int| 0 <= i < before.len() && before[i] == list[k].source_path@;
                assert(now[i] == list[k].source_path@);
            } else if now != before {
                assert(now[before.len() as int] == path);
            }
        }
        assert forall|i: int| 0 <= i < now.len() implies exists|k: int|
            0 <= k < n && (#[trigger] list[k]).source_path@ == #[trigger] now[i] by {
            if i < before.len() {
                assert(now[i] == before[i]);
                let k = choose|k: int|
                    0 <= k < n - 1 && (#[trigger] list[k]).source_path@ == before[i];
                assert(list[k].source_path@ == now[i]);
            } else {
                assert(list[n - 1].source_path@ == now[i]);
            }
        }
    }
}

proof fn lemma_file_of(files: Seq<FileState>, path: Seq<char>, i: int, k: int)
    requires
        0 <= k <= i < files.len(),
        files[i].path@ == path,
    ensures
        file_from(files, path, k) is Some,
    decreases files.len() - k,
{
    if files[k].path@ != path {
        lemma_file_of(files, path, i, k + 1);
    }
}

/// A symbol is marked as stale exactly when its file was compared and is not what was indexed: its
/// path leads elsewhere, the index does not know it, it could not be read, or its hash is another.
pub proof fn stale_is_what_has_changed(
    req: CodeScopeRequest,
    st: CodeSettings,
    a: Answers,
    r: CodeScopeResponse,
    k: int,
    i: int,
    j: int,
)
    requires
        scope_reply(req, st, a, r),
        0 <= k < r.entries@.len(),
    ensures
        ({
            let x = r.entries@[k];
            let path = x.source_path@;
            let hashes = a.code_hashes->0->Ok_0@;
            let sources = a.code_sources->0@;
            let compared = a.code_root == Some(true) && a.code_hashes->0 is Ok;
            &&& !compared ==> !x.stale && x.body is None
            &&& compared && !x.stale ==> {
                &&& !text::has_infix(path, ".."@)
                &&& !"/"@.is_prefix_of(path)
                &&& exists|m: int, n: int|
                    {
                        &&& 0 <= m < hashes.len() && (#[trigger] hashes[m]).path@ == path
                        &&& 0 <= n < sources.len() && (#[trigger] sources[n]).path@ == path
                        &&& ids::hex(ids::sha256(sources[n].bytes@)) == hashes[m].hash@
                    }
            }
            &&& compared && !text::has_infix(path, ".."@) && !"/"@.is_prefix_of(path) && 0 <= i
                < hashes.len() && hashes[i].path@ == path && (forall|m: int|
                0 <= m < i ==> (#[trigger] hashes[m]).path@ != path) && 0 <= j < sources.len()
                && sources[j].path@ == path && (forall|m: int|
                0 <= m < j ==> (#[trigger] sources[m]).path@ != path) ==> (x.stale <==> ids::hex(
                ids::sha256(sources[j].bytes@),
            ) != hashes[i].hash@)
        }),
{
    let list = shown_entries(req, a);
    let files = lemma_files_of(req, st, a, r);
    let x = r.entries@[k];
    let path = x.source_path@;
    let hashes = a.code_hashes->0->Ok_0@;
    let sources = a.code_sources->0@;
    let paths = distinct_paths(list, list.len() as int);
    assert(list[k].source_path@ == path);
    lemma_path_listed(list, list.len() as int);
    lemma_file_from(files, path, 0);
    if files_compared(list, a) {
        let m = choose|m: int| 0 <= m < paths.len() && paths[m] == path;
        assert(file_known(files[m], paths[m], hashes, sources));
        lemma_file_of(files, path, m, 0);
        let f = file_from(files, path, 0)->0;
        let n = choose|n: int| 0 <= n < files.len() && #[trigger] files[n] == f && f.path@ == path;
        assert(file_known(files[n], paths[n], hashes, sources));
        lemma_hash_from(hashes, path, 0, if i < 0 {
            0
        } else {
            i
        });
        lemma_source_from(sources, path, 0, if j < 0 {
            0
        } else {
            j
        });
    }
}

proof fn lemma_files_of(
    req: CodeScopeRequest,
    st: CodeSettings,
    a: Answers,
    r: CodeScopeResponse,
) -> (files: Seq<FileState>)
    requires
        scope_reply(req, st, a, r),
    ensures
        ({
            let list = shown_entries(req, a);
            &&& files_known(list, a, files)
            &&& forall|k: int|
                0 <= k < list.len() ==> shows(
                    list,
                    files,
                    callers_known(req, a),
                    req.include_body,
                    body_budget_of(req, st),
                    st.max_callers as nat,
                    k,
                    #[trigger] r.entries@[k],
                )
            &&& r.body_truncated == bodies_cut(
                list,
                files,
                req.include_body,
                body_budget_of(req, st),
                list.len() as int,
            )
        }),
{
    let list = shown_entries(req, a);
    choose|files: Seq<FileState>|
        {
            &&& #[trigger] files_known(list, a, files)
            &&& forall|k: int|
                0 <= k < list.len() ==> shows(
                    list,
                    files,
                    callers_known(req, a),
                    req.include_body,
                    body_budget_of(req, st),
                    st.max_callers as nat,
                    k,
                    #[trigger] r.entries@[k],
                )
            &&& r.body_truncated == bodies_cut(
                list,
                files,
                req.include_body,
                body_budget_of(req, st),
                list.len() as int,
            )
        }
}

/// The tokens of the bodies that the first `k` entries are shown with.
pub open spec fn tokens_of_bodies(entries: Seq<CodeScopeEntry>, k: int) -> nat
    decreases k,
{
    if k <= 0 {
        0
    } else {
        tokens_of_bodies(entries, k - 1) + match entries[k - 1].body {
            Some(b) => tokens(text::byte_length(b@)),
            None => 0,
        }
    }
}

proof fn lemma_tokens_of_bodies(
    list: Seq<CodeScopeEntryRaw>,
    files: Seq<FileState>,
    include_body: bool,
    budget: nat,
    entries: Seq<CodeScopeEntry>,
    k: int,
)
    requires
        0 <= k <= entries.len(),
        entries.len() == list.len(),
        forall|i: int|
            0 <= i < list.len() ==> rows::opt_text((#[trigger] entries[i]).body) == shown_body(
                list,
                files,
                include_body,
                budget,
                i,
            ),
    ensures
        tokens_of_bodies(entries, k) == body_tokens(list, files, include_body, budget, k),
    decreases k,
{
    if k > 0 {
        lemma_tokens_of_bodies(list, files, include_body, budget, entries, k - 1);
        assert(rows::opt_text(entries[k - 1].body) == shown_body(
            list,
            files,
            include_body,
            budget,
            k - 1,
        ));
    }
}

/// A body is made of the lines of the symbol, from its first to its last, out of the file that was
/// indexed. It is shown whenever bodies are asked for, its file is unchanged and there is room left
/// by the bodies before it; it is left out for no other cause, and then the reply says so.
pub proof fn a_body_is_the_lines_of_its_symbol(
    req: CodeScopeRequest,
    st: CodeSettings,
    a: Answers,
    r: CodeScopeResponse,
    k: int,
    j: int,
)
    requires
        scope_reply(req, st, a, r),
        0 <= k < r.entries@.len(),
        req.include_body,
        a.code_root == Some(true),
        a.code_hashes->0 is Ok,
        !r.entries@[k].stale,
        0 <= j < a.code_sources->0@.len(),
        a.code_sources->0@[j].path@ == r.entries@[k].source_path@,
        forall|m: int|
            0 <= m < j ==> (#[trigger] a.code_sources->0@[m]).path@ != r.entries@[k].source_path@,
    ensures
        ({
            let x = r.entries@[k];
            let e = shown_entries(req, a)[k];
            let bytes = a.code_sources->0@[j].bytes@;
            let all = text::lines(decode_utf8(bytes));
            let (from, to) = e.span->0;
            let first = from as int;
            let last = to as int;
            let sound = e.span is Some && bytes.len() > 0 && valid_utf8(bytes) && 1 <= first <= last
                && first <= all.len();
            let end = if last < all.len() {
                last
            } else {
                all.len() as int
            };
            let body = text::joined(all.subrange(first - 1, end), "\n"@);
            let left = body_budget_of(req, st) - tokens_of_bodies(r.entries@, k);
            &&& !sound ==> x.body is None
            &&& x.body matches Some(b) ==> b@ == body
            &&& sound ==> (x.body is Some <==> tokens(text::byte_length(body)) <= left)
            &&& sound && x.body is None ==> r.body_truncated
        }),
{
    let list = shown_entries(req, a);
    let budget = body_budget_of(req, st);
    let files = lemma_files_of(req, st, a, r);
    let x = r.entries@[k];
    let path = x.source_path@;
    let hashes = a.code_hashes->0->Ok_0@;
    let sources = a.code_sources->0@;
    let paths = distinct_paths(list, list.len() as int);
    assert(list[k].source_path@ == path);
    lemma_path_listed(list, list.len() as int);
    let m = choose|m: int| 0 <= m < paths.len() && paths[m] == path;
    assert(file_known(files[m], paths[m], hashes, sources));
    lemma_file_of(files, path, m, 0);
    lemma_file_from(files, path, 0);
    let f = file_from(files, path, 0)->0;
    let n = choose|n: int| 0 <= n < files.len() && #[trigger] files[n] == f && f.path@ == path;
    assert(file_known(files[n], paths[n], hashes, sources));
    lemma_source_from(sources, path, 0, j);
    assert(f.bytes@ == sources[j].bytes@);
    assert forall|i: int| 0 <= i < list.len() implies rows::opt_text(
        (#[trigger] r.entries@[i]).body,
    ) == shown_body(list, files, req.include_body, budget, i) by {
        assert(shows(
            list,
            files,
            callers_known(req, a),
            req.include_body,
            budget,
            st.max_callers as nat,
            i,
            r.entries@[i],
        ));
    }
    lemma_tokens_of_bodies(list, files, req.include_body, budget, r.entries@, k);
    assert(rows::opt_text(x.body) == shown_body(list, files, req.include_body, budget, k));
    if candidate_body(files, list[k], req.include_body) is Some && x.body is None {
        assert(shown_body(list, files, req.include_body, budget, k) is None);
        assert(bodies_cut(list, files, req.include_body, budget, list.len() as int));
    }
}

/// A token is four bytes, the last one begun counts, and nothing costs less than one.
pub proof fn a_token_is_four_bytes(bytes: nat)
    ensures
        tokens(bytes) >= 1,
        4 * tokens(bytes) >= bytes,
        bytes > 0 ==> 4 * (tokens(bytes) - 1) < bytes,
{
}

/// A symbol costs its path, kind, name, signature and dependencies, and forty bytes for what is
/// around them.
pub proof fn a_symbol_costs_what_it_shows(e: CodeScopeEntryRaw, k: int)
    ensures
        ({
            let n = text::byte_length(e.source_path@) + text::byte_length(e.kind@)
                + text::byte_length(e.qualified_name@) + deps_bytes(e.deps@, e.deps@.len() as int)
                + 40;
            &&& e.signature is None ==> n <= 4 * entry_tokens(e) < n + 4
            &&& e.signature matches Some(s) ==> n + text::byte_length(s@) <= 4 * entry_tokens(e) < n
                + text::byte_length(s@) + 4
            &&& deps_bytes(e.deps@, 0) == 0
            &&& 0 <= k < e.deps@.len() ==> deps_bytes(e.deps@, k + 1) == deps_bytes(e.deps@, k)
                + text::byte_length(e.deps@[k]@)
        }),
{
}

/// The budgets are those of the request within bounds, and settled ones without.
pub proof fn budgets_are_those_of_the_request(req: CodeScopeRequest, st: CodeSettings)
    ensures
        1 <= budget_of(req) <= 8_000,
        req.budget_tokens is None ==> budget_of(req) == 800,
        req.budget_tokens matches Some(n) ==> (1 <= n <= 8_000 ==> budget_of(req) == n) && (n
            > 8_000 ==> budget_of(req) == 8_000),
        1 <= body_budget_of(req, st) <= 32_000,
        req.body_budget_tokens is None && 1 <= st.default_body_budget <= 32_000 ==> body_budget_of(
            req,
            st,
        ) == st.default_body_budget,
        req.body_budget_tokens matches Some(n) ==> (1 <= n <= 32_000 ==> body_budget_of(req, st)
            == n) && (n > 32_000 ==> body_budget_of(req, st) == 32_000),
{
}

/// What a look asks for is what the request looks for: the vault and the selector of the request,
/// the scores of all that was found and how much of it hangs together, the files of what is shown,
/// and who depends on what is shown.
pub proof fn a_look_asks_for_what_is_looked_for(req: CodeScopeRequest, st: CodeSettings, a: Answers)
    ensures
        scope_gate(req, st, a) matches ScopeGate::Ask(q) ==> match q {
            Question::CodeRepo { vault } => a.code_repo is None && vault == req.vault@,
            Question::CodeQuery { vault, kind, value, limit } => {
                &&& a.code is None
                &&& a.code_repo matches Some(Ok(Some(_)))
                &&& vault == req.vault@
                &&& kind == req.selector.kind@
                &&& value == text::trimmed(req.selector.value@)
                &&& limit == 500
            },
            Question::CodeRanks { scores, cohesion } => {
                let raw = a.code->0->Ok_0@;
                &&& a.code matches Some(Ok(_))
                &&& scores.len() == raw.len()
                &&& cohesion.len() == raw.len()
                &&& forall|i: int| 0 <= i < raw.len() ==> #[trigger] scores[i] == raw[i].score_bits
                &&& forall|i: int|
                    0 <= i < raw.len() ==> #[trigger] cohesion[i] == deps_present(
                        raw,
                        raw[i].deps@,
                        raw[i].deps@.len() as int,
                    )
            },
            Question::CodeRoot { repo } => {
                &&& a.code_repo matches Some(Ok(Some(p))) && repo == p@
                &&& shown_entries(req, a).len() > 0
            },
            Question::CodeHashes { vault, paths } => {
                let list = shown_entries(req, a);
                &&& vault == req.vault@
                &&& a.code_root == Some(true)
                &&& paths.no_duplicates()
                &&& forall|k: int|
                    0 <= k < list.len() ==> paths.contains((#[trigger] list[k]).source_path@)
                &&& forall|i: int|
                    0 <= i < paths.len() ==> exists|k: int|
                        0 <= k < list.len() && (#[trigger] list[k]).source_path@
                            == #[trigger] paths[i]
            },
            Question::CodeSources { repo, paths } => {
                &&& a.code_repo matches Some(Ok(Some(p))) && repo == p@
                &&& a.code_root == Some(true)
                &&& a.code_hashes matches Some(Ok(_))
            },
            Question::CodeCallers { vault, names, limit } => {
                let list = shown_entries(req, a);
                &&& req.include_callers
                &&& vault == req.vault@
                &&& limit == st.max_callers
                &&& names.len() == list.len()
                &&& forall|k: int|
                    0 <= k < list.len() ==> #[trigger] names[k] == list[k].qualified_name@
            },
            _ => false,
        },
{
    let list = shown_entries(req, a);
    lemma_path_listed(list, list.len() as int);
    if a.code matches Some(Ok(_)) {
        let raw = a.code->0->Ok_0@;
        assert forall|i: int| 0 <= i < raw.len() implies #[trigger] cohesion(raw)[i]
            == deps_present(raw, raw[i].deps@, raw[i].deps@.len() as int) by {
            let v = raw[i].deps;
            assert(v.len() == v@.len());
            lemma_deps_present_bounded(raw, v@, v@.len() as int);
        }
    }
}

proof fn lemma_deps_present_bounded(raw: Seq<CodeScopeEntryRaw>, deps: Seq<String>, k: int)
    requires
        0 <= k,
    ensures
        deps_present(raw, deps, k) <= k,
    decreases k,
{
    if k > 0 {
        lemma_deps_present_bounded(raw, deps, k - 1);
    }
}

/// A dependency counts for the cohesion of a symbol exactly when a symbol of its name was found.
pub proof fn cohesion_counts_what_was_found(
    raw: Seq<CodeScopeEntryRaw>,
    deps: Seq<String>,
    k: int,
    i: int,
)
    requires
        0 <= k < deps.len(),
    ensures
        deps_present(raw, deps, 0) == 0,
        deps_present(raw, deps, k) <= deps_present(raw, deps, k + 1) <= deps_present(raw, deps, k)
            + 1,
        0 <= i < raw.len() && raw[i].qualified_name@ == deps[k]@ ==> deps_present(raw, deps, k + 1)
            == deps_present(raw, deps, k) + 1,
        (forall|m: int| 0 <= m < raw.len() ==> (#[trigger] raw[m]).qualified_name@ != deps[k]@)
            ==> deps_present(raw, deps, k + 1) == deps_present(raw, deps, k),
{
}

/// A file of what is shown is read exactly when its path stays among the sources and the index
/// knows its hash.
pub proof fn every_indexed_file_is_read(
    req: CodeScopeRequest,
    st: CodeSettings,
    a: Answers,
    k: int,
    j: int,
)
    requires
        scope_gate(req, st, a) is Ask,
        scope_gate(req, st, a)->Ask_0 is CodeSources,
        0 <= k < shown_entries(req, a).len(),
        0 <= j < a.code_hashes->0->Ok_0@.len(),
        a.code_hashes->0->Ok_0@[j].path@ == shown_entries(req, a)[k].source_path@,
        !text::has_infix(shown_entries(req, a)[k].source_path@, ".."@),
        !"/"@.is_prefix_of(shown_entries(req, a)[k].source_path@),
    ensures
        scope_gate(req, st, a)->Ask_0->CodeSources_paths.contains(
            shown_entries(req, a)[k].source_path@,
        ),
{
    broadcast use vstd::seq_lib::group_filter_ensures;

    let list = shown_entries(req, a);
    let hashes = a.code_hashes->0->Ok_0@;
    let paths = distinct_paths(list, list.len() as int);
    let path = list[k].source_path@;
    lemma_path_listed(list, list.len() as int);
    lemma_hash_there(hashes, path, 0, j);
    let keep = |p: Seq<char>| readable(p, hashes);
    let m = choose|m: int| 0 <= m < paths.len() && paths[m] == path;
    assert(keep(paths[m]));
    paths.lemma_filter_contains(keep, m);
}

proof fn lemma_hash_there(rows: Seq<PathHash>, path: Seq<char>, k: int, j: int)
    requires
        0 <= k <= j < rows.len(),
        rows[j].path@ == path,
    ensures
        hash_from(rows, path, k) is Some,
    decreases rows.len() - k,
{
    if rows[k].path@ != path {
        lemma_hash_there(rows, path, k + 1, j);
    }
}

/// A look is refused for cause only, and for the cause that it has; the two doors refuse alike.
pub proof fn a_look_is_refused_for_cause(
    trust: TrustContext,
    req: CodeScopeRequest,
    st: CodeSettings,
    a: Answers,
)
    ensures
        ({
            let g = scope_tool_gate(trust, req, st, a);
            let h = scope_http_gate(trust, req, st, a);
            let kind = req.selector.kind@;
            let value = text::trimmed(req.selector.value@);
            let may = trust.authenticated() && (trust is Studio || trust is Mtls
                || trust.subject_view() == Some("main-agent"@));
            let sound = (kind == "query"@ || kind == "path"@ || kind == "symbol"@) && 0 < value.len()
                && text::byte_length(value) <= 512;
            let http = may && sound && code_vault(req.vault@);
            &&& !trust.authenticated() ==> flow::fails(g, Refusal::Unauthorized) && h
                == HttpGate::Refuse(StatusCode::Unauthorized)
            &&& trust.authenticated() && !may ==> flow::forbids(g) && h == HttpGate::Refuse(
                StatusCode::Forbidden,
            )
            &&& may && !sound ==> flow::finds_fault(g) && h == HttpGate::Refuse(
                StatusCode::BadRequest,
            )
            &&& may && !code_vault(req.vault@) ==> h == HttpGate::Refuse(StatusCode::BadRequest)
            &&& may && sound ==> match a.code_repo {
                None => g is Ask && g->Ask_0 is CodeRepo,
                Some(Err(_)) => g is Fail && g->Fail_0.error is Storage,
                Some(Ok(None)) => flow::finds_fault(g),
                Some(Ok(Some(_))) => match a.code {
                    None => g is Ask && g->Ask_0 is CodeQuery,
                    Some(Err(_)) => g is Fail && g->Fail_0.error is Storage,
                    Some(Ok(_)) => !(g is Fail),
                },
            }
            &&& http ==> match a.code_repo {
                None => h is Ask && h->Ask_0 is CodeRepo,
                Some(Err(_)) => h == HttpGate::Refuse(StatusCode::InternalServerError),
                Some(Ok(None)) => h == HttpGate::Refuse(StatusCode::NotFound),
                Some(Ok(Some(_))) => match a.code {
                    None => h is Ask && h->Ask_0 is CodeQuery,
                    Some(Err(_)) => h == HttpGate::Refuse(StatusCode::InternalServerError),
                    Some(Ok(_)) => !(h is Refuse),
                },
            }
            &&& http && g is Ask ==> h == HttpGate::Ask(g->Ask_0)
            &&& http ==> (g is Pass <==> h is Pass)
            &&& g is Pass ==> (a.code_repo matches Some(Ok(Some(_))))
            &&& g is Pass ==> (a.code matches Some(Ok(_)))
            &&& g is Pass ==> a.code_ranks is Some && (req.include_callers ==> a.code_callers
                is Some)
        }),
{
}

/// A code vault is named `code-` and something behind it, of small letters, digits and hyphens, and
/// is not longer than a hundred and twenty-eight characters; and every such name is one.
pub proof fn code_vaults_are_named_so(vault: Seq<char>)
    ensures
        code_vault(vault) <==> {
            &&& "code-"@.is_prefix_of(vault)
            &&& 6 <= vault.len() <= 128
            &&& forall|i: int|
                0 <= i < vault.len() ==> ('a' <= #[trigger] vault[i] <= 'z') || ('0' <= vault[i]
                    <= '9') || vault[i] == '-'
        },
{
    if code_vault(vault) {
        assert forall|i: int| 0 <= i < vault.len() implies ('a' <= #[trigger] vault[i] <= 'z') || (
        '0' <= vault[i] <= '9') || vault[i] == '-' by {
            assert(vault_char(vault[i]));
        }
    }
}

/// The callers of a name are shown where it comes first, and not again.
pub proof fn callers_are_shown_once(
    req: CodeScopeRequest,
    st: CodeSettings,
    a: Answers,
    r: CodeScopeResponse,
    i: int,
    k: int,
)
    requires
        scope_reply(req, st, a, r),
        0 <= i < k < r.entries@.len(),
        r.entries@[i].qualified_name@ == r.entries@[k].qualified_name@,
    ensures
        r.entries@[k].callers@.len() == 0,
        r.entries@[k].callers_truncated <==> st.max_callers == 0,
{
    let list = shown_entries(req, a);
    let known = callers_known(req, a);
    let files = choose|files: Seq<FileState>|
        {
            &&& #[trigger] files_known(list, a, files)
            &&& forall|k: int|
                0 <= k < list.len() ==> shows(
                    list,
                    files,
                    known,
                    req.include_body,
                    body_budget_of(req, st),
                    st.max_callers as nat,
                    k,
                    #[trigger] r.entries@[k],
                )
            &&& r.body_truncated == bodies_cut(
                list,
                files,
                req.include_body,
                body_budget_of(req, st),
                list.len() as int,
            )
        };
    assert(r.entries@[i].qualified_name@ == list[i].qualified_name@);
    assert(r.entries@[k].qualified_name@ == list[k].qualified_name@);
    assert(named_before(list, k));
}

}
