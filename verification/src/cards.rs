//! Cards of the project map: the server gives each its number.

use vstd::prelude::*;
use vstd::string::*;

use crate::error::{GradatumError, Refusal};
use crate::flow::{self, Answers, Ask, Denial, Denied, Gate, Next, Question, Stop};
use crate::ids::NoteId;
use crate::rows;
use crate::text;
use crate::trust::TrustContext;
use crate::writing::{self, FeatureWriteAuthority, VaultWriteRequest};

verus! {

/// A card to be created; its body carries every link but the feature role.
#[derive(Debug)]
pub struct CreateFeatureCardRequest {
    pub title: String,
    pub body: String,
    pub author: Option<String>,
    pub tags: Vec<String>,
    pub tenant_id: Option<String>,
    pub occurred_at: Option<String>,
}

/// A card that was numbered and waits in the queue.
#[derive(Debug)]
pub struct CreateFeatureCardResponse {
    /// `F-` and the number, of two digits at least.
    pub feature: String,
    pub number: u64,
    pub job_id: String,
    pub note_id: String,
    pub poll_url: String,
}

/// The next step of the creation of a card.
#[derive(Debug)]
pub enum CardNext {
    /// A question about the card.
    Ask(Ask),
    /// A question about the write of the numbered card.
    Write(Ask),
    Fail(Denial),
    Reply(CreateFeatureCardResponse),
}

/// The next step of the creation of a card by its contents.
#[verifier::ext_equal]
pub enum CardGate {
    Ask(Question),
    Write(Question),
    Fail(Denied),
    Pass,
}

/// Whether a link gives a feature role.
pub open spec fn is_feature_link(target: Seq<char>) -> bool {
    "feature:"@.is_prefix_of(text::trimmed_start(target))
}

/// Whether one of the links gives a feature role.
pub open spec fn carries_feature(targets: Seq<Seq<char>>) -> bool {
    exists|i: int| 0 <= i < targets.len() && is_feature_link(#[trigger] targets[i])
}

fn any_feature(targets: &Vec<String>) -> (r: bool)
    ensures
        r == carries_feature(text::views(targets@)),
{
    let ghost all = text::views(targets@);
    let mut i: usize = 0;
    while i < targets.len()
        invariant
            i <= targets@.len(),
            all == text::views(targets@),
            forall|k: int| 0 <= k < i ==> !is_feature_link(#[trigger] all[k]),
        decreases targets@.len() - i,
    {
        assert(all[i as int] == targets@[i as int]@);
        let t = text::trim_start(targets[i].as_str());
        if text::starts_with(t.as_str(), "feature:") {
            return true;
        }
        i = i + 1;
    }
    false
}

/// The name of a feature: `F-` and the number, of two digits at least.
pub open spec fn feature_name(number: nat) -> Seq<char> {
    if number < 10 {
        "F-0"@ + text::decimal(number)
    } else {
        "F-"@ + text::decimal(number)
    }
}

/// The name of a feature.
pub fn name_feature(number: u64) -> (r: String)
    ensures
        r@ == feature_name(number as nat),
{
    let digits = text::decimal_text(number);
    if number < 10 {
        text::cat("F-0", digits.as_str())
    } else {
        text::cat("F-", digits.as_str())
    }
}

/// The body of a card with its number.
pub open spec fn numbered_body(body: Seq<char>, feature: Seq<char>) -> Seq<char> {
    body + "\n\n[[feature:"@ + feature + "]]"@
}

/// Whether `w` is the write of the card under the number that was allocated.
pub open spec fn card_write(
    req: CreateFeatureCardRequest,
    vault: Seq<char>,
    number: nat,
    w: VaultWriteRequest,
) -> bool {
    &&& w.title@ == req.title@
    &&& w.body@ == numbered_body(req.body@, feature_name(number))
    &&& w.author == req.author
    &&& w.tags@ == req.tags@
    &&& rows::opt_text(w.section_hint) == Some("project-map"@)
    &&& rows::opt_text(w.tenant_id) == Some(vault)
    &&& w.occurred_at == req.occurred_at
    &&& w.note_id is None
    &&& w.expected_sha256 is None
}

fn write_of_card(req: &CreateFeatureCardRequest, vault: &str, feature: &str) -> (w:
    VaultWriteRequest)
    ensures
        forall|number: nat|
            feature@ == #[trigger] feature_name(number) ==> card_write(*req, vault@, number, w),
{
    let mut body = text::cat(req.body.as_str(), "\n\n[[feature:");
    body.append(feature);
    body.append("]]");
    VaultWriteRequest {
        title: req.title.clone(),
        body,
        author: rows::copy_opt(&req.author),
        tags: rows::copy_list(&req.tags),
        section_hint: Some("project-map".to_owned()),
        tenant_id: Some(vault.to_owned()),
        occurred_at: rows::copy_opt(&req.occurred_at),
        note_id: None,
        expected_sha256: None,
    }
}

/// What a card passes before it gets a number, in this order: the right to write, no feature
/// role of the client's own, and the links that a card has, once it has its number.
pub open spec fn card_checks(
    trust: TrustContext,
    req: CreateFeatureCardRequest,
    a: Answers,
) -> Gate {
    flow::chain(
        writing::change_gate(
            trust,
            rows::opt_text(req.tenant_id),
            a,
            writing::TENANT_MISMATCH@,
            "acl deny write"@,
        ),
        match a.links {
            None => Gate::Ask(Question::Wikilinks { body: req.body@ }),
            Some(links) => if carries_feature(text::views(links@)) {
                Gate::Fail(
                    flow::silent(
                        Refusal::InvalidInput(
                            "create_feature_card: the body must not carry a [[feature:…]] link — the server assigns the number"@,
                        ),
                    ),
                )
            } else {
                match a.links_valid {
                    None => Gate::Ask(
                        Question::CheckLinks {
                            targets: text::views(links@).push("feature:F-00"@),
                        },
                    ),
                    Some(Err(m)) => Gate::Fail(
                        flow::silent(Refusal::InvalidInput("project-map schema: "@ + m@)),
                    ),
                    Some(Ok(_)) => Gate::Pass,
                }
            },
        },
    )
}

/// What is to be asked and refused before a card has its number.
pub open spec fn number_gate(
    trust: TrustContext,
    req: CreateFeatureCardRequest,
    a: Answers,
) -> Gate {
    flow::chain(
        card_checks(trust, req, a),
        match a.feature {
            None => Gate::Ask(Question::AllocateFeature { vault: writing::vault_of(a) }),
            Some(Err(e)) => Gate::Fail(flow::silent(e@)),
            Some(Ok(_)) => Gate::Pass,
        },
    )
}

fn allocate(trust: &TrustContext, req: &CreateFeatureCardRequest, a: &Answers) -> (r: Result<
    (String, u64),
    Stop,
>)
    ensures
        match r {
            Ok((t, n)) => number_gate(*trust, *req, *a) is Pass && t@ == writing::vault_of(*a)
                && a.feature == Some(Ok::<u64, GradatumError>(n)),
            Err(s) => number_gate(*trust, *req, *a) == s@,
        },
{
    let t = match writing::enter_change(
        trust,
        &req.tenant_id,
        a,
        writing::TENANT_MISMATCH,
        "acl deny write",
    ) {
        Ok(t) => t,
        Err(s) => return Err(s),
    };
    let links = match &a.links {
        None => return Err(Stop::Ask(Ask::Wikilinks { body: req.body.clone() })),
        Some(links) => links,
    };
    if any_feature(links) {
        return Err(
            Stop::Fail(
                Denial::invalid(
                    "create_feature_card: the body must not carry a [[feature:…]] link — the server assigns the number",
                ),
            ),
        );
    }
    match &a.links_valid {
        None => {
            let mut targets = rows::copy_list(links);
            targets.push("feature:F-00".to_owned());
            assert(text::views(targets@) =~= text::views(links@).push("feature:F-00"@));
            return Err(Stop::Ask(Ask::CheckLinks { targets }));
        },
        Some(Err(m)) => return Err(
            Stop::Fail(
                Denial::plain(
                    GradatumError::InvalidInput(text::cat("project-map schema: ", m.as_str())),
                ),
            ),
        ),
        Some(Ok(_)) => {},
    }
    match &a.feature {
        None => Err(Stop::Ask(Ask::AllocateFeature { vault: t })),
        Some(Err(e)) => Err(Stop::failed(e)),
        Some(Ok(n)) => Ok((t, *n)),
    }
}

/// The step of the creation of a card that the numbering, and then the write `w`, prescribe.
pub open spec fn card_gate(number: Gate, w: Gate) -> CardGate {
    match number {
        Gate::Ask(q) => CardGate::Ask(q),
        Gate::Fail(d) => CardGate::Fail(d),
        Gate::Pass => match w {
            Gate::Ask(q) => CardGate::Write(q),
            Gate::Fail(d) => CardGate::Fail(d),
            Gate::Pass => CardGate::Pass,
        },
    }
}

/// Whether `r` follows the numbering and then the write of the numbered card, on the answers `w`
/// of its own.
pub open spec fn card_follows(
    r: CardNext,
    trust: TrustContext,
    req: CreateFeatureCardRequest,
    fresh: NoteId,
    a: Answers,
    w: Answers,
) -> bool {
    exists|wr: VaultWriteRequest|
        {
            let number = a.feature->0->Ok_0 as nat;
            let step = card_gate(
                number_gate(trust, req, a),
                #[trigger] writing::write_gate(
                    trust,
                    wr,
                    FeatureWriteAuthority::ServerAllocated,
                    fresh,
                    w,
                ),
            );
            &&& number_gate(trust, req, a) is Pass ==> card_write(
                req,
                writing::vault_of(a),
                number,
                wr,
            )
            &&& match r {
                CardNext::Ask(q) => step == CardGate::Ask(q@),
                CardNext::Write(q) => step == CardGate::Write(q@),
                CardNext::Fail(d) => step == CardGate::Fail(d@),
                CardNext::Reply(x) => {
                    let job = w.enqueued->0->Ok_0;
                    &&& step is Pass
                    &&& x.feature@ == feature_name(number)
                    &&& x.number == number
                    &&& x.job_id@ == job@
                    &&& x.note_id@ == fresh@
                    &&& x.poll_url@ == "/api/v1/jobs/"@ + job@ + "/v2"@
                },
            }
        }
}

/// Creates a card: checks it, gives it the next number of the vault, and queues its write.
/// `a` holds the answers about the card, `w` those about the write.
pub fn create_feature_card_impl(
    trust: &TrustContext,
    req: &CreateFeatureCardRequest,
    fresh: &NoteId,
    a: &Answers,
    w: &Answers,
) -> (r: CardNext)
    ensures
        card_follows(r, *trust, *req, *fresh, *a, *w),
{
    let (vault, number) = match allocate(trust, req, a) {
        Ok(x) => x,
        Err(s) => {
            let ghost wr = arbitrary::<VaultWriteRequest>();
            assert(writing::write_gate(
                *trust,
                wr,
                FeatureWriteAuthority::ServerAllocated,
                *fresh,
                *w,
            ) == writing::write_gate(
                *trust,
                wr,
                FeatureWriteAuthority::ServerAllocated,
                *fresh,
                *w,
            ));
            return match s {
                Stop::Ask(q) => CardNext::Ask(q),
                Stop::Fail(d) => CardNext::Fail(d),
            };
        },
    };
    let feature = name_feature(number);
    let wr = write_of_card(req, vault.as_str(), feature.as_str());
    let step = writing::vault_write_impl(
        trust,
        &wr,
        FeatureWriteAuthority::ServerAllocated,
        fresh,
        w,
    );
    match step {
        Next::Ask(q) => CardNext::Write(q),
        Next::Fail(d) => CardNext::Fail(d),
        Next::Reply(x) => CardNext::Reply(
            CreateFeatureCardResponse {
                feature,
                number,
                job_id: x.job_id,
                note_id: x.note_id,
                poll_url: x.poll_url,
            },
        ),
    }
}

// ── Laws ────────────────────────────────────────────────────────────────────

/// No number is spent on a caller who may not write, on a card that brings a feature role of
/// its own, or on a card whose links are incomplete.
pub proof fn no_number_is_spent_on_a_bad_card(
    trust: TrustContext,
    req: CreateFeatureCardRequest,
    a: Answers,
)
    requires
        number_gate(trust, req, a) is Ask,
        number_gate(trust, req, a)->Ask_0 is AllocateFeature,
    ensures
        trust.authenticated(),
        a.acl == Some(true),
        !carries_feature(text::views(a.links->0@)),
        a.links_valid->0 is Ok,
        number_gate(trust, req, a)->Ask_0->AllocateFeature_vault == writing::vault_of(a),
{
}

/// A card that was created was queued, and the write that queued it left its trace under the
/// vault and the identifier of the card.
pub proof fn a_created_card_leaves_the_trace_of_its_write(
    r: CardNext,
    trust: TrustContext,
    req: CreateFeatureCardRequest,
    fresh: NoteId,
    a: Answers,
    w: Answers,
)
    requires
        card_follows(r, trust, req, fresh, a, w),
        number_gate(trust, req, a) is Pass,
    ensures
        r is Reply ==> w.enqueued->0 is Ok && w.write_noted is Some,
        r matches CardNext::Write(Ask::NoteWrite { job_id, trace }) ==> trace@ == writing::queued(
            writing::vault_of(w),
            fresh@,
        ) && job_id@ == w.enqueued->0->Ok_0@,
{
}

/// Different numbers give features of different names.
pub proof fn feature_names_are_distinct(m: nat, n: nat)
    requires
        m != n,
    ensures
        feature_name(m) != feature_name(n),
{
    reveal_strlit("F-0");
    reveal_strlit("F-");
    lemma_decimal_is_one_to_one(m, n);
    lemma_decimal_digits(m);
    lemma_decimal_digits(n);
    let x = feature_name(m);
    let y = feature_name(n);
    if x == y {
        if m < 10 && n < 10 {
            assert(text::decimal(m) =~= x.skip(3));
            assert(text::decimal(n) =~= y.skip(3));
        } else if m >= 10 && n >= 10 {
            assert(text::decimal(m) =~= x.skip(2));
            assert(text::decimal(n) =~= y.skip(2));
        } else if m < 10 {
            assert(x[2] == '0');
            assert(y[2] == text::decimal(n)[0]);
        } else {
            assert(y[2] == '0');
            assert(x[2] == text::decimal(m)[0]);
        }
    }
}

proof fn lemma_decimal_digits(n: nat)
    ensures
        text::decimal(n).len() > 0,
        n > 0 ==> text::decimal(n)[0] != '0',
    decreases n,
{
    if n >= 10 {
        lemma_decimal_digits(n / 10);
    }
}

proof fn lemma_decimal_is_one_to_one(m: nat, n: nat)
    requires
        m != n,
    ensures
        text::decimal(m) != text::decimal(n),
    decreases m + n,
{
    lemma_decimal_digits(m / 10);
    lemma_decimal_digits(n / 10);
    if m >= 10 && n >= 10 {
        if text::decimal(m) == text::decimal(n) {
            assert(text::decimal(m).last() == text::decimal(n).last());
            assert(text::decimal(m).drop_last() =~= text::decimal(m / 10));
            assert(text::decimal(n).drop_last() =~= text::decimal(n / 10));
            assert(m % 10 == n % 10);
            lemma_decimal_is_one_to_one(m / 10, n / 10);
        }
    } else if m < 10 && n < 10 {
        assert(text::decimal(m)[0] != text::decimal(n)[0]);
    } else {
        assert(text::decimal(m).len() != text::decimal(n).len());
    }
}

/// A card is checked and numbered in the vault that the caller may write: its links are those of
/// its body, and they are checked with a feature among them.
pub proof fn a_card_is_checked_before_it_is_numbered(
    trust: TrustContext,
    req: CreateFeatureCardRequest,
    a: Answers,
)
    ensures
        number_gate(trust, req, a) matches Gate::Ask(q) ==> match q {
            Question::Wikilinks { body } => (a.write_vault matches Some(Ok(_))) && body == req.body@,
            Question::CheckLinks { targets } => a.links matches Some(links) && targets.len()
                == links@.len() + 1 && targets[targets.len() - 1] == "feature:F-00"@ && forall|i: int|
                0 <= i < links@.len() ==> (#[trigger] targets[i]) == links@[i]@,
            Question::AllocateFeature { vault } => writing::own(trust, a, vault),
            _ => writing::asks_to_write(q, rows::opt_text(req.tenant_id), a),
        },
{
}

/// A card is refused for cause only, and for the cause that it has: a body that brings a feature of
/// its own, or links that are not in order.
pub proof fn a_card_is_refused_for_cause(
    trust: TrustContext,
    req: CreateFeatureCardRequest,
    a: Answers,
)
    ensures
        ({
            let g = number_gate(trust, req, a);
            let entered = trust.authenticated() && (a.write_vault matches Some(Ok(_))) && a.acl
                == Some(true);
            let links = a.links->0@;
            let own = exists|i: int|
                0 <= i < links.len() && "feature:"@.is_prefix_of(
                    text::trimmed_start((#[trigger] links[i])@),
                );
            &&& writing::guards_writing(g, trust, a)
            &&& entered && a.links is None ==> g is Ask && g->Ask_0 is Wikilinks
            &&& entered && a.links is Some && own ==> flow::finds_fault(g)
            &&& entered && a.links is Some && !own ==> match a.links_valid {
                None => g is Ask && g->Ask_0 is CheckLinks,
                Some(Err(_)) => flow::finds_fault(g),
                Some(Ok(_)) => match a.feature {
                    None => g is Ask && g->Ask_0 is AllocateFeature,
                    Some(Err(e)) => flow::fails(g, e@),
                    Some(Ok(_)) => g is Pass,
                },
            }
        }),
{
    let links = a.links->0@;
    let targets = text::views(links);
    if exists|i: int|
        0 <= i < links.len() && "feature:"@.is_prefix_of(
            text::trimmed_start((#[trigger] links[i])@),
        ) {
        let i = choose|i: int|
            0 <= i < links.len() && "feature:"@.is_prefix_of(
                text::trimmed_start((#[trigger] links[i])@),
            );
        assert(is_feature_link(targets[i]));
    }
    if carries_feature(targets) {
        let i = choose|i: int| 0 <= i < targets.len() && is_feature_link(#[trigger] targets[i]);
        assert(links[i]@ == targets[i]);
    }
}

/// A numbered card is written as the request has it, with its feature at the end of its body, among
/// the cards of the map; the reply names the feature, the note and where to ask for the job.
pub proof fn a_numbered_card_is_written_as_asked(
    r: CardNext,
    trust: TrustContext,
    req: CreateFeatureCardRequest,
    fresh: NoteId,
    a: Answers,
    w: Answers,
)
    requires
        card_follows(r, trust, req, fresh, a, w),
        number_gate(trust, req, a) is Pass,
    ensures
        ({
            let number = a.feature->0->Ok_0 as nat;
            let feature = (if number < 10 {
                "F-0"@
            } else {
                "F-"@
            }) + text::decimal(number);
            let body = req.body@ + "\n\n[[feature:"@ + feature + "]]"@;
            &&& r matches CardNext::Write(q) ==> match q@ {
                Question::EnqueueWrite {
                    tenant,
                    note_id,
                    author,
                    title,
                    body: b,
                    tags,
                    section_hint,
                    occurred_at,
                    expected_sha256,
                } => {
                    &&& writing::own(trust, w, tenant)
                    &&& note_id == fresh@
                    &&& trust.subject_view() == Some(author)
                    &&& title == req.title@
                    &&& b == body
                    &&& tags == text::views(req.tags@)
                    &&& section_hint == Some("project-map"@)
                    &&& occurred_at == rows::opt_text(req.occurred_at)
                    &&& expected_sha256 is None
                },
                Question::WriteVault { requested, .. } => a.write_vault matches Some(Ok(v))
                    && requested == Some(v@),
                Question::CheckCard { body: b } => b == body,
                _ => true,
            }
            &&& r matches CardNext::Reply(x) ==> {
                &&& x.feature@ == feature
                &&& x.number == number
                &&& x.note_id@ == fresh@
                &&& w.enqueued matches Some(Ok(job)) && x.job_id@ == job@ && x.poll_url@
                    == "/api/v1/jobs/"@ + job@ + "/v2"@
            }
        }),
{
}

}
