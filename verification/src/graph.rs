//! The notes around a note: links, lineages, and the right to a context.

use vstd::prelude::*;
use vstd::string::*;

use crate::access;
use crate::dto::{
    GraphEdge, TraceEntry, VaultGraphResponse, VaultLinksResponse, VaultTraceResponse,
};
use crate::error::{GradatumError, Refusal};
use crate::flow::{self, AclOp, Answers, Ask, Denial, Gate, Next, Question, Stop};
use crate::fts;
use crate::identity;
use crate::ids;
use crate::listing;
use crate::order;
use crate::read;
use crate::reference;
use crate::rows::{self, Lineage, TitleSection};
use crate::text;
use crate::trust::TrustContext;

verus! {

/// The notes around a note.
#[derive(Debug)]
pub struct VaultGraphRequest {
    pub tenant_id: Option<String>,
    /// An identifier, `<section>/<identifier>`, a title, or a slug.
    pub root: String,
    /// How far to go; two when absent, three at most, more than five refused.
    pub depth: Option<u32>,
    /// Whether to show the links to the note too; not when absent.
    pub include_backlinks: Option<bool>,
}

/// The direct links of a note.
#[derive(Debug)]
pub struct VaultLinksRequest {
    pub tenant_id: Option<String>,
    pub path: String,
    /// Whether to show the links to the note too; also when absent.
    pub include_backlinks: Option<bool>,
}

/// The lineage of a note.
#[derive(Debug)]
pub struct VaultTraceRequest {
    pub tenant_id: Option<String>,
    /// An identifier, a title, or words to search for.
    pub query: String,
    pub limit: Option<u32>,
}

/// A link by its contents.
#[verifier::ext_equal]
pub struct Link {
    pub from: Seq<char>,
    pub to: Seq<char>,
    pub kind: Seq<char>,
}

/// A link by its contents.
pub open spec fn link_view(e: GraphEdge) -> Link {
    Link { from: e.from@, to: e.to@, kind: e.kind@ }
}

/// Links by their contents.
pub open spec fn link_views(edges: Seq<GraphEdge>) -> Seq<Link> {
    edges.map_values(|e: GraphEdge| link_view(e))
}

/// The link that the text of a note makes to another.
pub open spec fn wikilink(from: Seq<char>, to: Seq<char>) -> Link {
    Link { from, to, kind: "wikilink"@ }
}

/// The links from `root` and to it.
pub open spec fn links_around(
    root: Seq<char>,
    out: Seq<Seq<char>>,
    back: Seq<Seq<char>>,
) -> Seq<Link> {
    out.map_values(|n: Seq<char>| wikilink(root, n)) + back.map_values(
        |n: Seq<char>| wikilink(n, root),
    )
}

/// The notes that these links connect, and `root`.
pub open spec fn notes_around(
    root: Seq<char>,
    out: Seq<Seq<char>>,
    back: Seq<Seq<char>>,
) -> Seq<Seq<char>> {
    out.push(root) + back
}

fn collect_edges(root: &str, out: &Vec<String>, back: &Vec<String>) -> (r: Vec<GraphEdge>)
    ensures
        link_views(r@) == links_around(root@, text::views(out@), text::views(back@)),
{
    let mut edges: Vec<GraphEdge> = Vec::new();
    let mut i: usize = 0;
    while i < out.len()
        invariant
            i <= out@.len(),
            edges@.len() == i,
            forall|k: int|
                0 <= k < i ==> link_view(#[trigger] edges@[k]) == wikilink(root@, out@[k]@),
        decreases out@.len() - i,
    {
        edges.push(
            GraphEdge {
                from: root.to_owned(),
                to: out[i].clone(),
                kind: "wikilink".to_owned(),
            },
        );
        i = i + 1;
    }
    let n: usize = out.len();
    let mut j: usize = 0;
    while j < back.len()
        invariant
            j <= back@.len(),
            n == out@.len(),
            edges@.len() == n + j,
            forall|k: int|
                0 <= k < n ==> link_view(#[trigger] edges@[k]) == wikilink(root@, out@[k]@),
            forall|k: int|
                n <= k < n + j ==> link_view(#[trigger] edges@[k]) == wikilink(
                    back@[k - n]@,
                    root@,
                ),
        decreases back@.len() - j,
    {
        edges.push(
            GraphEdge {
                from: back[j].clone(),
                to: root.to_owned(),
                kind: "wikilink".to_owned(),
            },
        );
        j = j + 1;
    }
    assert(link_views(edges@) =~= links_around(root@, text::views(out@), text::views(back@)));
    edges
}

fn collect_nodes(root: &str, out: &Vec<String>, back: &Vec<String>) -> (r: Vec<String>)
    ensures
        text::views(r@) == order::sorted_set(
            notes_around(root@, text::views(out@), text::views(back@)),
        ),
{
    let mut all = rows::copy_list(out);
    all.push(root.to_owned());
    let n: usize = all.len();
    assert(text::views(all@) =~= text::views(out@).push(root@));
    let mut j: usize = 0;
    assert(text::views(back@).take(0) =~= Seq::empty());
    assert(text::views(all@) =~= text::views(out@).push(root@) + text::views(back@).take(0));
    while j < back.len()
        invariant
            j <= back@.len(),
            text::views(all@) == text::views(out@).push(root@) + text::views(back@).take(j as int),
        decreases back@.len() - j,
    {
        let ghost before = text::views(all@);
        all.push(back[j].clone());
        assert(text::views(all@) =~= before.push(back@[j as int]@));
        assert(text::views(back@).take(j + 1) =~= text::views(back@).take(j as int).push(
            back@[j as int]@,
        ));
        assert(text::views(all@) =~= text::views(out@).push(root@) + text::views(back@).take(j + 1));
        j = j + 1;
    }
    assert(text::views(back@).take(back@.len() as int) =~= text::views(back@));
    order::sort_unique(&all)
}

// ── Souls in a graph ────────────────────────────────────────────────────────

/// Whether a note is kept from an unprivileged caller: the index knows it, as a soul or without
/// a section. A note that the index does not know stays.
pub open spec fn hidden(sections: Seq<TitleSection>, id: Seq<char>) -> bool {
    match rows::title_row(sections, id) {
        Some(row) => identity::section_hidden(false, row.section@),
        None => false,
    }
}

fn is_hidden(sections: &Vec<TitleSection>, id: &str) -> (r: bool)
    ensures
        r == hidden(sections@, id@),
{
    match rows::find_title(sections, id) {
        Some(row) => identity::identity_section_hidden(false, row.section.as_str()),
        None => false,
    }
}

/// The notes that an unprivileged caller sees.
pub open spec fn seen_nodes(nodes: Seq<Seq<char>>, sections: Seq<TitleSection>) -> Seq<Seq<char>> {
    nodes.filter(|id: Seq<char>| !hidden(sections, id))
}

/// The links that an unprivileged caller sees: those both of whose ends it sees.
pub open spec fn seen_links(links: Seq<Link>, sections: Seq<TitleSection>) -> Seq<Link> {
    links.filter(|l: Link| !hidden(sections, l.from) && !hidden(sections, l.to))
}

fn keep_nodes(nodes: &Vec<String>, sections: &Vec<TitleSection>) -> (r: Vec<String>)
    ensures
        text::views(r@) == seen_nodes(text::views(nodes@), sections@),
{
    let ghost all = text::views(nodes@);
    let ghost keep = |id: Seq<char>| !hidden(sections@, id);
    let mut out: Vec<String> = Vec::new();
    let mut i: usize = 0;
    proof {
        reveal(Seq::filter);
        assert(all.take(0).filter(keep) =~= Seq::empty());
        assert(text::views(out@) =~= Seq::empty());
    }
    while i < nodes.len()
        invariant
            i <= nodes@.len(),
            all == text::views(nodes@),
            keep == (|id: Seq<char>| !hidden(sections@, id)),
            text::views(out@) == all.take(i as int).filter(keep),
        decreases nodes@.len() - i,
    {
        let ghost before = text::views(out@);
        proof {
            reveal(Seq::filter);
            assert(all.take(i + 1).drop_last() =~= all.take(i as int));
            assert(all.take(i + 1).last() == nodes@[i as int]@);
        }
        if !is_hidden(sections, nodes[i].as_str()) {
            out.push(nodes[i].clone());
            assert(text::views(out@) =~= before.push(nodes@[i as int]@));
        }
        i = i + 1;
    }
    assert(all.take(nodes@.len() as int) =~= all);
    out
}

fn keep_edges(edges: Vec<GraphEdge>, sections: &Vec<TitleSection>) -> (r: Vec<GraphEdge>)
    ensures
        link_views(r@) == seen_links(link_views(edges@), sections@),
{
    let ghost orig = edges@;
    let ghost all = link_views(edges@);
    let ghost keep = |l: Link| !hidden(sections@, l.from) && !hidden(sections@, l.to);
    let mut out: Vec<GraphEdge> = Vec::new();
    proof {
        reveal(Seq::filter);
        assert(all.take(0).filter(keep) =~= Seq::empty());
        assert(link_views(out@) =~= Seq::empty());
    }
    for e in it: edges
        invariant
            it.seq() == orig,
            all == link_views(orig),
            keep == (|l: Link| !hidden(sections@, l.from) && !hidden(sections@, l.to)),
            link_views(out@) == all.take(it.index() as int).filter(keep),
    {
        let ghost i = it.index() as int;
        let ghost before = link_views(out@);
        let ghost link = link_view(e);
        proof {
            reveal(Seq::filter);
            assert(orig[i] == e);
            assert(all.take(i + 1).drop_last() =~= all.take(i));
            assert(all.take(i + 1).last() == link);
        }
        if !is_hidden(sections, e.from.as_str()) && !is_hidden(sections, e.to.as_str()) {
            out.push(e);
            assert(link_views(out@) =~= before.push(link));
        }
    }
    assert(all.take(orig.len() as int) =~= all);
    out
}

/// Souls are kept from an unprivileged caller: the index tells which of the notes are souls.
/// Where there are no notes, nothing is asked.
pub open spec fn filter_gate(
    trust: TrustContext,
    tenant: Seq<char>,
    nodes: Seq<Seq<char>>,
    a: Answers,
) -> Gate {
    if identity::identity_privileged(trust) || nodes.len() == 0 {
        Gate::Pass
    } else {
        match a.titles {
            None => Gate::Ask(Question::TitlesSections { vault: tenant, ids: nodes }),
            Some(Err(e)) => Gate::Fail(flow::silent(e@)),
            Some(Ok(_)) => Gate::Pass,
        }
    }
}

/// Whether `r` shows these notes and links, without the souls that are kept from the caller.
pub open spec fn filtered(
    trust: TrustContext,
    nodes: Seq<Seq<char>>,
    links: Seq<Link>,
    a: Answers,
    r: VaultGraphResponse,
) -> bool {
    if identity::identity_privileged(trust) || nodes.len() == 0 {
        &&& text::views(r.nodes@) == nodes
        &&& link_views(r.edges@) == links
    } else {
        let sections = a.titles->0->Ok_0@;
        &&& text::views(r.nodes@) == seen_nodes(nodes, sections)
        &&& link_views(r.edges@) == seen_links(links, sections)
    }
}

/// Takes the souls out that are kept from the caller.
pub fn filter_identity_nodes(
    trust: &TrustContext,
    tenant: &str,
    nodes: Vec<String>,
    edges: Vec<GraphEdge>,
    a: &Answers,
) -> (r: Next<VaultGraphResponse>)
    ensures
        flow::follows(r, filter_gate(*trust, tenant@, text::views(nodes@), *a)),
        r matches Next::Reply(x) ==> filtered(
            *trust,
            text::views(nodes@),
            link_views(edges@),
            *a,
            x,
        ),
{
    assert(text::views(nodes@).len() == nodes@.len());
    if identity::is_identity_privileged(trust) || nodes.len() == 0 {
        return Next::Reply(VaultGraphResponse { nodes, edges });
    }
    match &a.titles {
        None => Next::Ask(Ask::TitlesSections { vault: tenant.to_owned(), ids: nodes }),
        Some(Err(e)) => Next::Fail(Denial::plain(e.copy())),
        Some(Ok(sections)) => Next::Reply(
            VaultGraphResponse {
                nodes: keep_nodes(&nodes, sections),
                edges: keep_edges(edges, sections),
            },
        ),
    }
}

// ── The notes around a note ─────────────────────────────────────────────────

/// The notes that the links were found to lead to.
pub open spec fn outgoing(a: Answers) -> Seq<Seq<char>> {
    text::views(a.neighbors->0->Ok_0@)
}

/// The notes that were found to link back, if they were asked for.
pub open spec fn incoming(back: bool, a: Answers) -> Seq<Seq<char>> {
    if back {
        text::views(a.backlinks->0->Ok_0@)
    } else {
        Seq::empty()
    }
}

/// The notes around `root`, each once, in ascending order.
pub open spec fn nodes_around(root: Seq<char>, back: bool, a: Answers) -> Seq<Seq<char>> {
    order::sorted_set(notes_around(root, outgoing(a), incoming(back, a)))
}

/// The steps that collect the notes around `root`: the links from it, the links to it if they
/// are wanted, and, for an unprivileged caller, the sections of all these notes.
pub open spec fn around_gate(
    trust: TrustContext,
    tenant: Seq<char>,
    root: Seq<char>,
    depth: u8,
    back: bool,
    a: Answers,
) -> Gate {
    if a.neighbors is None {
        Gate::Ask(Question::Neighbors { tenant, id: root, depth })
    } else if a.neighbors->0 is Err {
        Gate::Fail(flow::silent(a.neighbors->0->Err_0@))
    } else if back && a.backlinks is None {
        Gate::Ask(Question::Backlinks { tenant, id: root })
    } else if back && a.backlinks->0 is Err {
        Gate::Fail(flow::silent(a.backlinks->0->Err_0@))
    } else {
        filter_gate(trust, tenant, nodes_around(root, back, a), a)
    }
}

/// Whether `r` shows the notes around `root` and the links between them, without the souls that
/// are kept from the caller.
pub open spec fn around_reply(
    trust: TrustContext,
    root: Seq<char>,
    back: bool,
    a: Answers,
    r: VaultGraphResponse,
) -> bool {
    let nodes = nodes_around(root, back, a);
    let links = links_around(root, outgoing(a), incoming(back, a));
    filtered(trust, nodes, links, a, r)
}

fn around(
    trust: &TrustContext,
    tenant: &str,
    root: &str,
    depth: u8,
    back: bool,
    a: &Answers,
) -> (r: Next<VaultGraphResponse>)
    ensures
        flow::follows(r, around_gate(*trust, tenant@, root@, depth, back, *a)),
        r matches Next::Reply(x) ==> around_reply(*trust, root@, back, *a, x),
{
    let none: Vec<String> = Vec::new();
    let out = match &a.neighbors {
        None => return Next::Ask(
            Ask::Neighbors { tenant: tenant.to_owned(), id: root.to_owned(), depth },
        ),
        Some(Err(e)) => return Next::Fail(Denial::plain(e.copy())),
        Some(Ok(out)) => out,
    };
    let links = if back {
        match &a.backlinks {
            None => return Next::Ask(
                Ask::Backlinks { tenant: tenant.to_owned(), id: root.to_owned() },
            ),
            Some(Err(e)) => return Next::Fail(Denial::plain(e.copy())),
            Some(Ok(links)) => links,
        }
    } else {
        &none
    };
    assert(text::views(links@) =~= incoming(back, *a));
    let nodes = collect_nodes(root, out, links);
    let edges = collect_edges(root, out, links);
    filter_identity_nodes(trust, tenant, nodes, edges, a)
}

/// The right to look at the notes of a vault, and the note that a reference names.
pub open spec fn root_gate(
    trust: TrustContext,
    requested: Option<Seq<char>>,
    reference: Seq<char>,
    a: Answers,
) -> Gate {
    flow::chain(
        access::access_gate(trust, requested, a, AclOp::Read, None, "acl deny"@),
        reference::reference_gate(access::tenant_of(a), reference, a),
    )
}

fn enter_root(
    trust: &TrustContext,
    requested: &Option<String>,
    reference: &str,
    a: &Answers,
) -> (r: Result<(String, String), Stop>)
    ensures
        ({
            let g = root_gate(*trust, rows::opt_text(*requested), reference@, *a);
            match r {
                Ok((t, root)) => g is Pass && t@ == access::tenant_of(*a) && root@
                    == reference::tolerant_target(reference@, *a),
                Err(s) => g == s@,
            }
        }),
{
    let tenant = match access::enter(trust, requested, a, AclOp::Read, None, "acl deny") {
        Ok(t) => t,
        Err(s) => return Err(s),
    };
    match reference::resolve_note_ref(tenant.as_str(), reference, a) {
        Ok(root) => Ok((tenant, root)),
        Err(s) => Err(s),
    }
}

/// How far a graph goes: three links at most.
pub open spec fn graph_depth(depth: Option<u32>) -> u8 {
    match depth {
        None => 2,
        Some(d) => if d < 3 {
            d as u8
        } else {
            3
        },
    }
}

/// The first reason not to show the notes around a note, or the next question about them.
pub open spec fn graph_gate(trust: TrustContext, req: VaultGraphRequest, a: Answers) -> Gate {
    flow::chain(
        root_gate(trust, rows::opt_text(req.tenant_id), req.root@, a),
        if req.depth is Some && req.depth->0 > 5 {
            Gate::Fail(
                flow::silent(
                    Refusal::InvalidInput("depth > 5 rejected (effective max = 3)"@),
                ),
            )
        } else {
            around_gate(
                trust,
                access::tenant_of(a),
                reference::tolerant_target(req.root@, a),
                graph_depth(req.depth),
                req.include_backlinks == Some(true),
                a,
            )
        },
    )
}

/// Shows the notes around a note. A note that is not there has nothing around it.
pub fn vault_graph_impl(trust: &TrustContext, req: &VaultGraphRequest, a: &Answers) -> (r: Next<
    VaultGraphResponse,
>)
    ensures
        flow::follows(r, graph_gate(*trust, *req, *a)),
        r matches Next::Reply(x) ==> graph_reply(*trust, *req, *a, x),
{
    let (tenant, root) = match enter_root(trust, &req.tenant_id, req.root.as_str(), a) {
        Ok(x) => x,
        Err(s) => return s.next(),
    };
    let raw: u32 = match req.depth {
        Some(d) => d,
        None => 2,
    };
    if raw > 5 {
        return Next::Fail(Denial::invalid("depth > 5 rejected (effective max = 3)"));
    }
    let depth: u8 = if raw < 3 {
        raw as u8
    } else {
        3
    };
    let back = match req.include_backlinks {
        Some(b) => b,
        None => false,
    };
    around(trust, tenant.as_str(), root.as_str(), depth, back, a)
}

/// Whether `r` shows the notes around a note; what links to it only when that is asked for.
pub open spec fn graph_reply(
    trust: TrustContext,
    req: VaultGraphRequest,
    a: Answers,
    r: VaultGraphResponse,
) -> bool {
    around_reply(
        trust,
        reference::tolerant_target(req.root@, a),
        req.include_backlinks == Some(true),
        a,
        r,
    )
}

/// Whether `r` shows the links of a note; what links to it unless that is not wanted.
pub open spec fn links_reply(
    trust: TrustContext,
    req: VaultLinksRequest,
    a: Answers,
    r: VaultGraphResponse,
) -> bool {
    around_reply(
        trust,
        reference::tolerant_target(req.path@, a),
        req.include_backlinks != Some(false),
        a,
        r,
    )
}

/// The first reason not to show the direct links of a note, or the next question about them.
pub open spec fn links_gate(trust: TrustContext, req: VaultLinksRequest, a: Answers) -> Gate {
    flow::chain(
        root_gate(trust, rows::opt_text(req.tenant_id), req.path@, a),
        around_gate(
            trust,
            access::tenant_of(a),
            reference::tolerant_target(req.path@, a),
            1,
            req.include_backlinks != Some(false),
            a,
        ),
    )
}

/// Shows the direct links of a note.
pub fn vault_links_impl(trust: &TrustContext, req: &VaultLinksRequest, a: &Answers) -> (r: Next<
    VaultLinksResponse,
>)
    ensures
        flow::follows(r, links_gate(*trust, *req, *a)),
        r matches Next::Reply(x) ==> links_reply(*trust, *req, *a, x),
{
    let (tenant, root) = match enter_root(trust, &req.tenant_id, req.path.as_str(), a) {
        Ok(x) => x,
        Err(s) => return s.next(),
    };
    let back = match req.include_backlinks {
        Some(b) => b,
        None => true,
    };
    around(trust, tenant.as_str(), root.as_str(), 1, back, a)
}

// ── Lineages ────────────────────────────────────────────────────────────────

/// Whether a search expression has no word in it: nothing but quotes and spaces.
pub open spec fn wordless(q: Seq<char>) -> bool {
    forall|i: int| 0 <= i < q.len() ==> (#[trigger] q[i]) == '"' || q[i] == ' '
}

fn is_wordless(q: &str) -> (r: bool)
    ensures
        r == wordless(q@),
{
    let v = text::chars_of(q);
    let mut i: usize = 0;
    while i < v.len()
        invariant
            v@ == q@,
            i <= v@.len(),
            forall|k: int| 0 <= k < i ==> (#[trigger] v@[k]) == '"' || v@[k] == ' ',
        decreases v@.len() - i,
    {
        if v[i] != '"' && v[i] != ' ' {
            return false;
        }
        i = i + 1;
    }
    true
}

/// How many notes a search for lineages starts from.
pub open spec fn seed_limit(limit: Option<u32>) -> nat {
    if listing::page_size(limit) < 5 {
        listing::page_size(limit)
    } else {
        5
    }
}

/// What is still to be asked to find the notes that a lineage starts from: nothing for an
/// identifier, else the title, and failing that the words.
pub open spec fn seeds_gate(tenant: Seq<char>, req: VaultTraceRequest, a: Answers) -> Gate {
    if ids::is_ulid(req.query@) {
        Gate::Pass
    } else {
        match a.title {
            None => Gate::Ask(Question::TitleLookup { tenant, title: req.query@ }),
            Some(Err(e)) => Gate::Fail(flow::silent(e@)),
            Some(Ok(Some(_))) => Gate::Pass,
            Some(Ok(None)) => if wordless(fts::fts_query(req.query@)) {
                Gate::Pass
            } else {
                match a.seeds {
                    None => Gate::Ask(
                        Question::Seeds {
                            vault: tenant,
                            query: fts::fts_query(req.query@),
                            limit: seed_limit(req.limit),
                        },
                    ),
                    Some(Err(e)) => Gate::Fail(flow::silent(e@)),
                    Some(Ok(_)) => Gate::Pass,
                }
            },
        }
    }
}

/// The notes that a lineage starts from.
pub open spec fn seeds(req: VaultTraceRequest, a: Answers) -> Seq<Seq<char>> {
    if ids::is_ulid(req.query@) {
        seq![req.query@]
    } else {
        match a.title->0->Ok_0 {
            Some(id) => seq![id@],
            None => if wordless(fts::fts_query(req.query@)) {
                Seq::empty()
            } else {
                text::views(a.seeds->0->Ok_0@)
            },
        }
    }
}

fn find_seeds(tenant: &str, req: &VaultTraceRequest, a: &Answers) -> (r: Result<
    Vec<String>,
    Stop,
>)
    ensures
        match r {
            Ok(v) => seeds_gate(tenant@, *req, *a) is Pass && text::views(v@) == seeds(*req, *a),
            Err(s) => seeds_gate(tenant@, *req, *a) == s@,
        },
{
    if ids::ulid_valid(req.query.as_str()) {
        return Ok(read::only(req.query.as_str()));
    }
    match &a.title {
        None => Err(
            Stop::Ask(
                Ask::TitleLookup { tenant: tenant.to_owned(), title: req.query.clone() },
            ),
        ),
        Some(Err(e)) => Err(Stop::failed(e)),
        Some(Ok(Some(id))) => Ok(read::only(id.as_str())),
        Some(Ok(None)) => {
            let query = fts::build_fts_query(req.query.as_str());
            if is_wordless(query.as_str()) {
                let v: Vec<String> = Vec::new();
                assert(text::views(v@) =~= Seq::empty());
                return Ok(v);
            }
            match &a.seeds {
                None => {
                    let limit = listing::page_limit(req.limit);
                    Err(
                        Stop::Ask(
                            Ask::Seeds {
                                vault: tenant.to_owned(),
                                query,
                                limit: if limit < 5 {
                                    limit
                                } else {
                                    5
                                },
                            },
                        ),
                    )
                },
                Some(Err(e)) => Err(Stop::failed(e)),
                Some(Ok(v)) => Ok(rows::copy_list(v)),
            }
        },
    }
}

/// The refusal for the first of the notes, from position `k` on, that the caller may not read.
pub open spec fn seeds_guard(
    trust: TrustContext,
    tenant: Seq<char>,
    list: Seq<Seq<char>>,
    titles: Result<Vec<TitleSection>, GradatumError>,
    k: int,
) -> Gate
    decreases list.len() - k,
{
    if k < 0 || k >= list.len() {
        Gate::Pass
    } else {
        let (title, section) = identity::resolved_section(titles, list[k]);
        if !identity::may_touch(trust, section, title) {
            Gate::Fail(
                identity::read_denied(tenant, access::locus_text(tenant, None), list[k]),
            )
        } else {
            seeds_guard(trust, tenant, list, titles, k + 1)
        }
    }
}

fn guard_seeds(
    trust: &TrustContext,
    tenant: &str,
    list: &Vec<String>,
    titles: &Result<Vec<TitleSection>, GradatumError>,
) -> (r: Result<(), Stop>)
    ensures
        ({
            let g = seeds_guard(*trust, tenant@, text::views(list@), *titles, 0);
            match r {
                Ok(_) => g is Pass,
                Err(s) => g == s@,
            }
        }),
{
    let ghost all = text::views(list@);
    let mut i: usize = 0;
    while i < list.len()
        invariant
            i <= list@.len(),
            all == text::views(list@),
            seeds_guard(*trust, tenant@, all, *titles, 0) == seeds_guard(
                *trust,
                tenant@,
                all,
                *titles,
                i as int,
            ),
        decreases list@.len() - i,
    {
        let id = list[i].as_str();
        assert(all[i as int] == id@);
        let (title, section) = identity::resolve_title_section_failclosed(titles, id);
        if let Err(d) = identity::enforce_identity_read_guard(
            trust,
            tenant,
            section.as_str(),
            access::as_deref(&title),
            id,
        ) {
            return Err(Stop::Fail(d));
        }
        i = i + 1;
    }
    Ok(())
}

/// The first reason not to show a lineage, or the next question about it.
pub open spec fn trace_gate(trust: TrustContext, req: VaultTraceRequest, a: Answers) -> Gate {
    let t = access::tenant_of(a);
    let list = seeds(req, a);
    flow::chain(
        access::access_gate(
            trust,
            rows::opt_text(req.tenant_id),
            a,
            AclOp::Read,
            None,
            "acl deny"@,
        ),
        flow::chain(
            seeds_gate(t, req, a),
            if list.len() == 0 {
                Gate::Pass
            } else if a.titles is None {
                Gate::Ask(Question::TitlesSections { vault: t, ids: list })
            } else {
                flow::chain(
                    seeds_guard(trust, t, list, a.titles->0, 0),
                    match a.lineages {
                        None => Gate::Ask(Question::Lineages { tenant: t, ids: list }),
                        Some(Err(e)) => Gate::Fail(flow::silent(e@)),
                        Some(Ok(_)) => Gate::Pass,
                    },
                )
            },
        ),
    )
}

/// The notes of the first `k` lineages: of each, the notes before it and then those after it.
pub open spec fn lineage_notes(found: Seq<Lineage>, k: int) -> Seq<Seq<char>>
    decreases k,
{
    if k <= 0 {
        Seq::empty()
    } else {
        lineage_notes(found, k - 1) + text::views(found[k - 1].parents@) + text::views(
            found[k - 1].children@,
        )
    }
}

/// The first occurrences in `s`.
pub open spec fn first_occurrences(s: Seq<Seq<char>>) -> Seq<Seq<char>>
    decreases s.len(),
{
    if s.len() == 0 {
        Seq::empty()
    } else {
        let before = first_occurrences(s.drop_last());
        if before.contains(s.last()) {
            before
        } else {
            before.push(s.last())
        }
    }
}

/// The first `n` of the notes, each once.
pub open spec fn traced(s: Seq<Seq<char>>, n: nat) -> Seq<Seq<char>> {
    let all = first_occurrences(s);
    if all.len() > n {
        all.take(n as int)
    } else {
        all
    }
}

fn add_all(out: &mut Vec<String>, Ghost(seen): Ghost<Seq<Seq<char>>>, more: &Vec<String>)
    requires
        text::views(old(out)@) == first_occurrences(seen),
    ensures
        text::views(final(out)@) == first_occurrences(seen + text::views(more@)),
{
    let ghost all = text::views(more@);
    let mut i: usize = 0;
    assert(seen + all.take(0) =~= seen);
    while i < more.len()
        invariant
            i <= more@.len(),
            all == text::views(more@),
            text::views(out@) == first_occurrences(seen + all.take(i as int)),
        decreases more@.len() - i,
    {
        let ghost now = seen + all.take(i + 1);
        proof {
            assert(now.drop_last() =~= seen + all.take(i as int));
            assert(now.last() == more@[i as int]@);
        }
        let ghost before = text::views(out@);
        if !text::listed(out, more[i].as_str()) {
            out.push(more[i].clone());
            assert(text::views(out@) =~= before.push(more@[i as int]@));
        }
        i = i + 1;
    }
    assert(all.take(more@.len() as int) =~= all);
}

fn collect_lineages(found: &Vec<Lineage>) -> (r: Vec<String>)
    ensures
        text::views(r@) == first_occurrences(lineage_notes(found@, found@.len() as int)),
{
    let mut out: Vec<String> = Vec::new();
    let mut i: usize = 0;
    assert(text::views(out@) =~= Seq::empty());
    while i < found.len()
        invariant
            i <= found@.len(),
            text::views(out@) == first_occurrences(lineage_notes(found@, i as int)),
        decreases found@.len() - i,
    {
        let ghost seen = lineage_notes(found@, i as int);
        add_all(&mut out, Ghost(seen), &found[i].parents);
        add_all(
            &mut out,
            Ghost(seen + text::views(found@[i as int].parents@)),
            &found[i].children,
        );
        i = i + 1;
    }
    out
}

/// The notes that a lineage shows.
pub open spec fn trace_notes(req: VaultTraceRequest, a: Answers) -> Seq<Seq<char>> {
    if seeds(req, a).len() == 0 {
        Seq::empty()
    } else {
        let found = a.lineages->0->Ok_0@;
        traced(lineage_notes(found, found.len() as int), listing::page_size(req.limit))
    }
}

/// Whether the entries show these notes, one by one, without excerpts and tags.
pub open spec fn lineage_shown(notes: Seq<Seq<char>>, entries: Seq<TraceEntry>) -> bool {
    &&& entries.len() == notes.len()
    &&& forall|i: int|
        0 <= i < notes.len() ==> (#[trigger] entries[i]).path@ == notes[i] && entries[i].snippet
            is None && entries[i].tags@.len() == 0
}

/// Shows the notes before and after a note.
pub fn vault_trace_impl(trust: &TrustContext, req: &VaultTraceRequest, a: &Answers) -> (r: Next<
    VaultTraceResponse,
>)
    ensures
        flow::follows(r, trace_gate(*trust, *req, *a)),
        r matches Next::Reply(x) ==> lineage_shown(trace_notes(*req, *a), x.entries@),
{
    let tenant = match access::enter(trust, &req.tenant_id, a, AclOp::Read, None, "acl deny") {
        Ok(t) => t,
        Err(s) => return s.next(),
    };
    let limit = listing::page_limit(req.limit);
    let list = match find_seeds(tenant.as_str(), req, a) {
        Ok(v) => v,
        Err(s) => return s.next(),
    };
    assert(text::views(list@).len() == list@.len());
    if list.len() == 0 {
        let entries: Vec<TraceEntry> = Vec::new();
        return Next::Reply(VaultTraceResponse { entries });
    }
    let titles = match &a.titles {
        None => return Next::Ask(Ask::TitlesSections { vault: tenant, ids: list }),
        Some(t) => t,
    };
    if let Err(s) = guard_seeds(trust, tenant.as_str(), &list, titles) {
        return s.next();
    }
    let found = match &a.lineages {
        None => return Next::Ask(Ask::Lineages { tenant, ids: list }),
        Some(Err(e)) => return Next::Fail(Denial::plain(e.copy())),
        Some(Ok(found)) => found,
    };
    let mut notes = collect_lineages(found);
    let ghost all = text::views(notes@);
    notes.truncate(limit);
    let ghost shown = text::views(notes@);
    assert(shown =~= traced(lineage_notes(found@, found@.len() as int), limit as nat));
    let mut entries: Vec<TraceEntry> = Vec::new();
    let mut i: usize = 0;
    while i < notes.len()
        invariant
            i <= notes@.len(),
            entries@.len() == i,
            forall|k: int|
                0 <= k < i ==> (#[trigger] entries@[k]).path@ == notes@[k]@ && entries@[k].snippet
                    is None && entries@[k].tags@.len() == 0,
        decreases notes@.len() - i,
    {
        entries.push(TraceEntry { path: notes[i].clone(), snippet: None, tags: Vec::new() });
        i = i + 1;
    }
    assert(lineage_shown(shown, entries@));
    Next::Reply(VaultTraceResponse { entries })
}

// ── Contexts ────────────────────────────────────────────────────────────────

/// The right to have a context assembled.
#[derive(Debug)]
pub struct ContextGrant {
    pub tenant: String,
    /// Whether souls may be part of it.
    pub identity_privileged: bool,
}

/// What a context may be assembled from.
pub open spec fn context_reply(trust: TrustContext, a: Answers, x: ContextGrant) -> bool {
    x.tenant@ == access::tenant_of(a) && x.identity_privileged == identity::identity_privileged(
        trust,
    )
}

/// Lets the caller have a context assembled from a section of a vault.
pub fn vault_context_impl(
    trust: &TrustContext,
    tenant_id: &Option<String>,
    section: &Option<String>,
    a: &Answers,
) -> (r: Next<ContextGrant>)
    ensures
        flow::follows(
            r,
            access::access_gate(
                *trust,
                rows::opt_text(*tenant_id),
                *a,
                AclOp::Read,
                rows::opt_text(*section),
                "acl deny"@,
            ),
        ),
        r matches Next::Reply(x) ==> context_reply(*trust, *a, x),
{
    match access::enter(
        trust,
        tenant_id,
        a,
        AclOp::Read,
        access::as_deref(section),
        "acl deny",
    ) {
        Ok(tenant) => Next::Reply(
            ContextGrant { tenant, identity_privileged: identity::is_identity_privileged(trust) },
        ),
        Err(s) => s.next(),
    }
}

// ── Laws ────────────────────────────────────────────────────────────────────

/// A graph shows an unprivileged caller no soul that the index knows, neither as a note nor at
/// the end of a link.
pub proof fn a_graph_shows_no_soul(
    nodes: Seq<Seq<char>>,
    links: Seq<Link>,
    sections: Seq<TitleSection>,
    i: int,
    j: int,
)
    ensures
        0 <= i < seen_nodes(nodes, sections).len() ==> rows::section_of(
            sections,
            seen_nodes(nodes, sections)[i],
        ) != Some("identity"@),
        0 <= j < seen_links(links, sections).len() ==> rows::section_of(
            sections,
            seen_links(links, sections)[j].from,
        ) != Some("identity"@) && rows::section_of(
            sections,
            seen_links(links, sections)[j].to,
        ) != Some("identity"@),
{
    broadcast use vstd::seq_lib::group_filter_ensures;

    let keep = |id: Seq<char>| !hidden(sections, id);
    let keep_link = |l: Link| !hidden(sections, l.from) && !hidden(sections, l.to);
    if 0 <= i < seen_nodes(nodes, sections).len() {
        assert(keep(nodes.filter(keep)[i]));
    }
    if 0 <= j < seen_links(links, sections).len() {
        assert(keep_link(links.filter(keep_link)[j]));
    }
}

/// Every end of a link is among the notes.
pub proof fn links_end_at_the_notes(
    root: Seq<char>,
    out: Seq<Seq<char>>,
    back: Seq<Seq<char>>,
    i: int,
)
    requires
        0 <= i < links_around(root, out, back).len(),
    ensures
        notes_around(root, out, back).contains(links_around(root, out, back)[i].from),
        notes_around(root, out, back).contains(links_around(root, out, back)[i].to),
{
    let all = notes_around(root, out, back);
    assert(all[out.len() as int] == root);
    if i < out.len() {
        assert(all[i] == out[i]);
    } else {
        assert(all[i + 1] == back[i - out.len()]);
    }
}

/// A lineage shows no note twice, and no more notes than are wanted.
pub proof fn a_lineage_is_bounded_and_distinct(req: VaultTraceRequest, a: Answers)
    ensures
        trace_notes(req, a).len() <= listing::page_size(req.limit) <= 200,
        trace_notes(req, a).no_duplicates(),
{
    let found = a.lineages->0->Ok_0@;
    lemma_first_occurrences_distinct(lineage_notes(found, found.len() as int));
}

proof fn lemma_first_occurrences_distinct(s: Seq<Seq<char>>)
    ensures
        first_occurrences(s).no_duplicates(),
    decreases s.len(),
{
    if s.len() > 0 {
        lemma_first_occurrences_distinct(s.drop_last());
        let before = first_occurrences(s.drop_last());
        if !before.contains(s.last()) {
            assert forall|i: int, j: int|
                0 <= i < before.len() + 1 && 0 <= j < before.len() + 1 && i != j implies before.push(
                s.last(),
            )[i] != before.push(s.last())[j] by {
                if i < before.len() && j == before.len() {
                    assert(before.contains(before[i]));
                }
                if j < before.len() && i == before.len() {
                    assert(before.contains(before[j]));
                }
            }
        }
    }
}

proof fn lemma_guard_passes_readable(
    trust: TrustContext,
    tenant: Seq<char>,
    list: Seq<Seq<char>>,
    titles: Result<Vec<TitleSection>, GradatumError>,
    k: int,
)
    requires
        0 <= k,
    ensures
        ({
            let g = seeds_guard(trust, tenant, list, titles, k);
            &&& !(g is Ask)
            &&& g is Pass ==> forall|i: int|
                k <= i < list.len() ==> readable(trust, titles, #[trigger] list[i])
        }),
    decreases list.len() - k,
{
    if k < list.len() {
        lemma_guard_passes_readable(trust, tenant, list, titles, k + 1);
    }
}

/// Whether the caller may read a note, by what the index says of it.
pub open spec fn readable(
    trust: TrustContext,
    titles: Result<Vec<TitleSection>, GradatumError>,
    id: Seq<char>,
) -> bool {
    let (title, section) = identity::resolved_section(titles, id);
    identity::may_touch(trust, section, title)
}

/// A lineage is looked up only when the caller may read every note that it starts from.
pub proof fn the_lineage_of_a_soul_is_guarded(
    trust: TrustContext,
    req: VaultTraceRequest,
    a: Answers,
    i: int,
)
    requires
        trace_gate(trust, req, a) is Ask,
        trace_gate(trust, req, a)->Ask_0 is Lineages,
        0 <= i < seeds(req, a).len(),
    ensures
        readable(trust, a.titles->0, seeds(req, a)[i]),
{
    lemma_guard_passes_readable(trust, access::tenant_of(a), seeds(req, a), a.titles->0, 0);
    assert(readable(trust, a.titles->0, seeds(req, a)[i]));
}

/// Whether `edges` are the links of `root`: out of it to each of `out`, and then into it from each
/// of `back`, and no others.
pub open spec fn directed(
    root: Seq<char>,
    out: Seq<Seq<char>>,
    back: Seq<Seq<char>>,
    edges: Seq<GraphEdge>,
) -> bool {
    &&& edges.len() == out.len() + back.len()
    &&& forall|i: int|
        0 <= i < out.len() ==> (#[trigger] edges[i]).from@ == root && edges[i].to@ == out[i]
    &&& forall|j: int|
        out.len() <= j < edges.len() ==> (#[trigger] edges[j]).from@ == back[j - out.len()]
            && edges[j].to@ == root
    &&& forall|k: int| 0 <= k < edges.len() ==> (#[trigger] edges[k]).kind@ == "wikilink"@
}

/// Links keep their direction: a note that the root leads to is where a link from the root ends,
/// and a note that leads to the root is where a link to the root begins. A caller who sees souls
/// sees exactly these links.
pub proof fn links_keep_their_direction(
    trust: TrustContext,
    root: Seq<char>,
    back: bool,
    a: Answers,
    r: VaultGraphResponse,
)
    requires
        around_reply(trust, root, back, a, r),
        identity::identity_privileged(trust),
    ensures
        directed(
            root,
            text::views(a.neighbors->0->Ok_0@),
            if back {
                text::views(a.backlinks->0->Ok_0@)
            } else {
                Seq::empty()
            },
            r.edges@,
        ),
{
    lemma_directed(root, outgoing(a), incoming(back, a), r.edges@);
}

proof fn lemma_directed(
    root: Seq<char>,
    out: Seq<Seq<char>>,
    back: Seq<Seq<char>>,
    edges: Seq<GraphEdge>,
)
    requires
        link_views(edges) == links_around(root, out, back),
    ensures
        directed(root, out, back, edges),
{
    let links = links_around(root, out, back);
    assert(edges.len() == links.len());
    assert forall|k: int| 0 <= k < edges.len() implies link_view(#[trigger] edges[k])
        == links[k] by {
        assert(link_views(edges)[k] == link_view(edges[k]));
    }
}

/// Whoever does not see souls sees the same links in the same direction, but for those that begin
/// or end at a soul; every link that is seen leads out of the root to one of its neighbors or into
/// it from one of its backlinks.
pub proof fn a_link_that_is_seen_keeps_its_direction(
    trust: TrustContext,
    root: Seq<char>,
    back: bool,
    a: Answers,
    r: VaultGraphResponse,
    k: int,
)
    requires
        around_reply(trust, root, back, a, r),
        0 <= k < r.edges@.len(),
    ensures
        ({
            let e = r.edges@[k];
            let out = a.neighbors->0->Ok_0@;
            let into = a.backlinks->0->Ok_0@;
            &&& e.kind@ == "wikilink"@
            &&& (e.from@ == root && exists|i: int|
                0 <= i < out.len() && e.to@ == (#[trigger] out[i])@) || (back && e.to@ == root
                && exists|j: int| 0 <= j < into.len() && e.from@ == (#[trigger] into[j])@)
        }),
{
    let links = links_around(root, outgoing(a), incoming(back, a));
    let e = r.edges@[k];
    assert(link_views(r.edges@)[k] == link_view(e));
    if identity::identity_privileged(trust) || nodes_around(root, back, a).len() == 0 {
        assert(links.contains(link_view(e)));
    } else {
        let sections = a.titles->0->Ok_0@;
        let keep = |l: Link| !hidden(sections, l.from) && !hidden(sections, l.to);
        assert(seen_links(links, sections).contains(link_view(e)));
        links.lemma_filter_contains_rev(keep, link_view(e));
    }
    let m = choose|m: int| 0 <= m < links.len() && links[m] == link_view(e);
    let n = outgoing(a).len();
    if m < n {
        assert(e.to@ == a.neighbors->0->Ok_0@[m]@);
    } else {
        assert(e.from@ == a.backlinks->0->Ok_0@[m - n]@);
    }
}

/// A link is hidden only for a soul at one of its ends; every other link is shown.
pub proof fn every_other_link_is_seen(
    trust: TrustContext,
    root: Seq<char>,
    back: bool,
    a: Answers,
    r: VaultGraphResponse,
    i: int,
    j: int,
)
    requires
        around_reply(trust, root, back, a, r),
        !identity::identity_privileged(trust),
        a.titles matches Some(Ok(_)),
    ensures
        ({
            let out = a.neighbors->0->Ok_0@;
            let into = a.backlinks->0->Ok_0@;
            let sections = a.titles->0->Ok_0@;
            let open = |id: Seq<char>|
                rows::section_of(sections, id) is None || (rows::section_of(sections, id)
                    != Some("identity"@) && rows::section_of(sections, id)->0.len() > 0);
            &&& 0 <= i < out.len() && open(root) && open(out[i]@) ==> link_views(
                r.edges@,
            ).contains(wikilink(root, out[i]@))
            &&& back && 0 <= j < into.len() && open(root) && open(into[j]@) ==> link_views(
                r.edges@,
            ).contains(wikilink(into[j]@, root))
            &&& open(root) ==> text::views(r.nodes@).contains(root)
            &&& 0 <= i < out.len() && open(out[i]@) ==> text::views(r.nodes@).contains(out[i]@)
            &&& back && 0 <= j < into.len() && open(into[j]@) ==> text::views(r.nodes@).contains(
                into[j]@,
            )
        }),
{
    let sections = a.titles->0->Ok_0@;
    let out = outgoing(a);
    let into = incoming(back, a);
    let links = links_around(root, out, into);
    let keep = |l: Link| !hidden(sections, l.from) && !hidden(sections, l.to);
    let all = notes_around(root, out, into);
    let nodes = nodes_around(root, back, a);
    order::sorted_set_exists(all);
    assert(all[out.len() as int] == root);
    assert(nodes.contains(root));
    assert(nodes.len() > 0);
    let seen = |id: Seq<char>| !hidden(sections, id);
    if seen(root) {
        lemma_seen(nodes, seen, root);
    }
    if 0 <= i < out.len() {
        assert(links[i] == wikilink(root, out[i]));
        if keep(links[i]) {
            links.lemma_filter_contains(keep, i);
        }
        assert(all[i] == out[i]);
        if seen(out[i]) {
            lemma_seen(nodes, seen, out[i]);
        }
    }
    if back && 0 <= j < into.len() {
        let k = out.len() + j;
        assert(links[k] == wikilink(into[j], root));
        if keep(links[k]) {
            links.lemma_filter_contains(keep, k);
        }
        assert(all[out.len() + 1 + j] == into[j]);
        if seen(into[j]) {
            lemma_seen(nodes, seen, into[j]);
        }
    }
}

proof fn lemma_seen(nodes: Seq<Seq<char>>, keep: spec_fn(Seq<char>) -> bool, id: Seq<char>)
    requires
        nodes.contains(id),
        keep(id),
    ensures
        nodes.filter(keep).contains(id),
{
    let k = choose|k: int| 0 <= k < nodes.len() && nodes[k] == id;
    nodes.lemma_filter_contains(keep, k);
}

/// What a graph asks for is about the note that the request means: its neighbors to the depth of
/// the request, two when it says none and three at most, and what links to it only when that is
/// wanted; then the sections of all the notes around it, unless the caller sees souls.
pub proof fn a_graph_asks_about_its_root(trust: TrustContext, req: VaultGraphRequest, a: Answers)
    ensures
        graph_gate(trust, req, a) matches Gate::Ask(q) ==> match q {
            Question::Tenant { requested } => requested == rows::opt_text(req.tenant_id),
            Question::Acl { op, locus } => op == AclOp::Read && (a.tenant matches Some(Some(t))
                && locus == t@ + "/main"@),
            Question::TitleLookup { tenant, title } => access::own(trust, a, tenant) && title == req.root@,
            Question::Redirect { tenant, title } => access::own(trust, a, tenant) && title == req.root@,
            Question::Neighbors { tenant, id, depth } => {
                &&& access::own(trust, a, tenant)
                &&& id == reference::tolerant_target(req.root@, a)
                &&& req.depth is None ==> depth == 2
                &&& req.depth matches Some(d) ==> d <= 5 && (d <= 3 ==> depth == d) && (d > 3
                    ==> depth == 3)
            },
            Question::Backlinks { tenant, id } => {
                &&& access::own(trust, a, tenant)
                &&& req.include_backlinks == Some(true)
                &&& id == reference::tolerant_target(req.root@, a)
            },
            Question::TitlesSections { vault, ids } => {
                &&& access::own(trust, a, vault)
                &&& !identity::identity_privileged(trust)
                &&& ids == nodes_around(
                    reference::tolerant_target(req.root@, a),
                    req.include_backlinks == Some(true),
                    a,
                )
            },
            _ => false,
        },
{
}

/// What the links of a note are asked for is about that note: its neighbors one step away, and
/// what links to it unless that is not wanted.
pub proof fn links_ask_about_their_note(trust: TrustContext, req: VaultLinksRequest, a: Answers)
    ensures
        links_gate(trust, req, a) matches Gate::Ask(q) ==> match q {
            Question::Tenant { requested } => requested == rows::opt_text(req.tenant_id),
            Question::Acl { op, locus } => op == AclOp::Read && (a.tenant matches Some(Some(t))
                && locus == t@ + "/main"@),
            Question::TitleLookup { tenant, title } => access::own(trust, a, tenant) && title == req.path@,
            Question::Redirect { tenant, title } => access::own(trust, a, tenant) && title == req.path@,
            Question::Neighbors { tenant, id, depth } => {
                &&& access::own(trust, a, tenant)
                &&& id == reference::tolerant_target(req.path@, a)
                &&& depth == 1
            },
            Question::Backlinks { tenant, id } => {
                &&& access::own(trust, a, tenant)
                &&& req.include_backlinks != Some(false)
                &&& id == reference::tolerant_target(req.path@, a)
            },
            Question::TitlesSections { vault, ids } => {
                &&& access::own(trust, a, vault)
                &&& !identity::identity_privileged(trust)
                &&& ids == nodes_around(
                    reference::tolerant_target(req.path@, a),
                    req.include_backlinks != Some(false),
                    a,
                )
            },
            _ => false,
        },
{
}

/// The notes around a note are the note itself, its neighbors and, when they are wanted, those that
/// link to it: each once, in the order of a dictionary.
pub proof fn the_notes_around_a_note(root: Seq<char>, back: bool, a: Answers, id: Seq<char>, i: int)
    ensures
        ({
            let nodes = nodes_around(root, back, a);
            let out = a.neighbors->0->Ok_0@;
            let into = a.backlinks->0->Ok_0@;
            &&& nodes.contains(id) <==> id == root || (exists|k: int|
                0 <= k < out.len() && (#[trigger] out[k])@ == id) || (back && exists|k: int|
                0 <= k < into.len() && (#[trigger] into[k])@ == id)
            &&& 0 <= i && i + 1 < nodes.len() ==> order::text_lt(nodes[i], nodes[i + 1])
        }),
{
    let all = notes_around(root, outgoing(a), incoming(back, a));
    order::sorted_set_exists(all);
    let out = a.neighbors->0->Ok_0@;
    let into = a.backlinks->0->Ok_0@;
    assert(all[out.len() as int] == root);
    if exists|k: int| 0 <= k < out.len() && (#[trigger] out[k])@ == id {
        let k = choose|k: int| 0 <= k < out.len() && (#[trigger] out[k])@ == id;
        assert(all[k] == id);
    }
    if back && exists|k: int| 0 <= k < into.len() && (#[trigger] into[k])@ == id {
        let k = choose|k: int| 0 <= k < into.len() && (#[trigger] into[k])@ == id;
        assert(all[out.len() + 1 + k] == id);
    }
    if all.contains(id) {
        let k = choose|k: int| 0 <= k < all.len() && all[k] == id;
        if k < out.len() {
            assert(out[k]@ == id);
        } else if k > out.len() {
            assert(into[k - out.len() - 1]@ == id);
        }
    }
}

/// A graph and the links of a note are refused for cause only, and for the cause that they have.
pub proof fn following_links_is_refused_for_cause(
    trust: TrustContext,
    req: VaultGraphRequest,
    links: VaultLinksRequest,
    a: Answers,
)
    ensures
        ({
            let g = graph_gate(trust, req, a);
            let h = links_gate(trust, links, a);
            let entered = trust.authenticated() && (a.tenant matches Some(Some(_))) && a.acl == Some(
                true,
            );
            let t = a.tenant->0->0@;
            let meant = reference::reference_gate(t, req.root@, a) is Pass;
            let linked = reference::reference_gate(t, links.path@, a) is Pass;
            let shallow = req.depth is None || req.depth->0 <= 5;
            &&& !trust.authenticated() ==> flow::fails(g, Refusal::Unauthorized) && flow::fails(
                h,
                Refusal::Unauthorized,
            )
            &&& trust.authenticated() && (a.tenant matches Some(Some(_))) && a.acl == Some(false)
                ==> flow::forbids(g) && flow::forbids(h)
            &&& entered && meant && !shallow ==> flow::finds_fault(g)
            &&& entered && meant && shallow && a.neighbors is None ==> g is Ask && g->Ask_0
                is Neighbors
            &&& entered && linked && a.neighbors is None ==> h is Ask && h->Ask_0 is Neighbors
            &&& entered && meant && shallow && (a.neighbors matches Some(Ok(_))) && (
            req.include_backlinks == Some(true) ==> a.backlinks matches Some(Ok(_))) ==> match a.titles {
                None => !(g is Fail),
                Some(Err(e)) => g is Pass || flow::fails(g, e@),
                Some(Ok(_)) => g is Pass,
            }
            &&& entered && linked && (a.neighbors matches Some(Ok(_))) && (a.backlinks matches Some(
                Ok(_),
            )) ==> match a.titles {
                None => !(h is Fail),
                Some(Err(e)) => h is Pass || flow::fails(h, e@),
                Some(Ok(_)) => h is Pass,
            }
            &&& g is Pass && !identity::identity_privileged(trust) ==> a.titles matches Some(Ok(_))
        }),
{
    let t = a.tenant->0->0@;
    let all = notes_around(
        reference::tolerant_target(req.root@, a),
        outgoing(a),
        incoming(req.include_backlinks == Some(true), a),
    );
    order::sorted_set_exists(all);
    assert(all[outgoing(a).len() as int] == reference::tolerant_target(req.root@, a));
    assert(order::sorted_set(all).contains(reference::tolerant_target(req.root@, a)));
}

/// A lineage is traced from the note that the query names: by its identifier, by its title, or else
/// from the first notes that its words find, five at most. What is traced is their lineage, after
/// their sections were looked up.
pub proof fn a_lineage_starts_at_what_the_query_names(
    trust: TrustContext,
    req: VaultTraceRequest,
    a: Answers,
)
    ensures
        ({
            let list = seeds(req, a);
            let none = wordless(fts::fts_query(req.query@));
            &&& ids::is_ulid(req.query@) ==> list == seq![req.query@]
            &&& !ids::is_ulid(req.query@) ==> match a.title->0->Ok_0 {
                Some(id) => list == seq![id@],
                None => list == if none {
                    Seq::empty()
                } else {
                    text::views(a.seeds->0->Ok_0@)
                },
            }
            &&& trace_gate(trust, req, a) matches Gate::Ask(q) ==> match q {
                Question::Tenant { requested } => requested == rows::opt_text(req.tenant_id),
                Question::Acl { op, locus } => op == AclOp::Read && (a.tenant matches Some(Some(t))
                    && locus == t@ + "/main"@),
                Question::TitleLookup { tenant, title } => access::own(trust, a, tenant) && title
                    == req.query@ && !ids::is_ulid(title),
                Question::Seeds { vault, query, limit } => {
                    &&& access::own(trust, a, vault)
                    &&& a.title->0 matches Ok(None)
                    &&& query == fts::fts_query(req.query@)
                    &&& !wordless(query)
                    &&& 1 <= limit <= 5
                    &&& req.limit is None ==> limit == 5
                    &&& req.limit matches Some(n) ==> (1 <= n <= 5 ==> limit == n) && (n > 5 ==> limit
                        == 5)
                },
                Question::TitlesSections { vault, ids } => access::own(trust, a, vault) && ids == list,
                Question::Lineages { tenant, ids } => access::own(trust, a, tenant) && ids == list
                    && a.titles is Some,
                _ => false,
            }
        }),
{
    listing::pages_are_as_long_as_asked(req.limit);
    lemma_guard_passes_readable(trust, access::tenant_of(a), seeds(req, a), a.titles->0, 0);
}

/// A lineage shows the parents and the children of the notes that it starts from, each once and in
/// the order in which they come first, as many as are asked for.
pub proof fn a_lineage_shows_parents_and_children(
    req: VaultTraceRequest,
    a: Answers,
    entries: Seq<TraceEntry>,
    k: int,
    i: int,
)
    requires
        lineage_shown(trace_notes(req, a), entries),
        seeds(req, a).len() > 0,
    ensures
        ({
            let found = a.lineages->0->Ok_0@;
            let all = lineage_notes(found, found.len() as int);
            let limit = listing::page_size(req.limit);
            let distinct = first_occurrences(all);
            &&& entries.len() == if distinct.len() > limit {
                limit
            } else {
                distinct.len()
            }
            &&& 0 <= i < entries.len() ==> entries[i].path@ == distinct[i] && entries[i].snippet
                is None && entries[i].tags@.len() == 0
            &&& 0 <= i < entries.len() ==> all.contains(entries[i].path@)
            &&& distinct.len() <= limit && 0 <= k < all.len() ==> exists|j: int|
                0 <= j < entries.len() && (#[trigger] entries[j]).path@ == all[k]
        }),
{
    let found = a.lineages->0->Ok_0@;
    let all = lineage_notes(found, found.len() as int);
    let distinct = first_occurrences(all);
    lemma_first_occurrences(all);
    if 0 <= i < entries.len() {
        assert(distinct.contains(distinct[i]));
    }
    if distinct.len() <= listing::page_size(req.limit) && 0 <= k < all.len() {
        assert(all.contains(all[k]));
        assert(distinct.contains(all[k]));
        let j = choose|j: int| 0 <= j < distinct.len() && distinct[j] == all[k];
        assert(entries[j].path@ == all[k]);
    }
}

proof fn lemma_first_occurrences(s: Seq<Seq<char>>)
    ensures
        forall|x: Seq<char>| #[trigger] first_occurrences(s).contains(x) <==> s.contains(x),
    decreases s.len(),
{
    if s.len() > 0 {
        let rest = s.drop_last();
        lemma_first_occurrences(rest);
        let before = first_occurrences(rest);
        let now = first_occurrences(s);
        assert forall|x: Seq<char>| #[trigger] now.contains(x) <==> s.contains(x) by {
            assert(s[s.len() - 1] == s.last());
            if before.contains(x) {
                let k = choose|k: int| 0 <= k < before.len() && before[k] == x;
                assert(now[k] == x);
                let m = choose|m: int| 0 <= m < rest.len() && rest[m] == x;
                assert(s[m] == x);
            }
            if now != before {
                assert(now[before.len() as int] == s.last());
            }
            if s.contains(x) && x != s.last() {
                let k = choose|k: int| 0 <= k < s.len() && s[k] == x;
                assert(rest[k] == x);
            }
            if now.contains(x) && !before.contains(x) {
                let k = choose|k: int| 0 <= k < now.len() && now[k] == x;
                if k < before.len() {
                    assert(before[k] == x);
                }
            }
        }
    }
}

/// The lineage of notes is made of the parents and then the children of each, in their order.
pub proof fn a_lineage_is_made_of_parents_and_children(found: Seq<Lineage>, k: int)
    requires
        0 <= k < found.len(),
    ensures
        lineage_notes(found, 0).len() == 0,
        lineage_notes(found, k + 1) == lineage_notes(found, k) + text::views(found[k].parents@)
            + text::views(found[k].children@),
{
}

/// A context may be assembled from the caller's own vault alone, and souls only for who sees them.
pub proof fn a_context_is_the_callers_own(trust: TrustContext, a: Answers, x: ContextGrant)
    requires
        context_reply(trust, a, x),
    ensures
        x.tenant@ == a.tenant->0->0@,
        x.identity_privileged <==> trust is Studio || trust.scoped("identity_write"@),
{
}

/// A note that is traced keeps its place when more are found: what comes later is added at the end,
/// and what came before is not added again.
pub proof fn a_traced_note_keeps_its_place(notes: Seq<Seq<char>>, more: Seq<char>)
    ensures
        notes.contains(more) ==> first_occurrences(notes.push(more)) == first_occurrences(notes),
        !notes.contains(more) ==> first_occurrences(notes.push(more)) == first_occurrences(
            notes,
        ).push(more),
        first_occurrences(Seq::empty()).len() == 0,
{
    assert(notes.push(more).drop_last() =~= notes);
    assert(notes.push(more).last() == more);
    lemma_first_occurrences(notes);
    assert(first_occurrences(notes).contains(more) <==> notes.contains(more));
}

}
