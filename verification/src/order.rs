//! Stable ordering of small collections, and rearranging by position.

use vstd::prelude::*;

use crate::text;

verus! {

/// Whether `a` comes before `b` in the order of their characters.
pub open spec fn text_lt(a: Seq<char>, b: Seq<char>) -> bool
    decreases a.len(),
{
    if b.len() == 0 {
        false
    } else if a.len() == 0 {
        true
    } else if a[0] != b[0] {
        a[0] < b[0]
    } else {
        text_lt(a.drop_first(), b.drop_first())
    }
}

pub proof fn text_lt_irreflexive(a: Seq<char>)
    ensures
        !text_lt(a, a),
    decreases a.len(),
{
    if a.len() > 0 {
        text_lt_irreflexive(a.drop_first());
    }
}

pub proof fn text_lt_transitive(a: Seq<char>, b: Seq<char>, c: Seq<char>)
    requires
        text_lt(a, b),
        text_lt(b, c),
    ensures
        text_lt(a, c),
    decreases a.len(),
{
    if a.len() > 0 && a[0] == b[0] && b[0] == c[0] {
        text_lt_transitive(a.drop_first(), b.drop_first(), c.drop_first());
    }
}

pub proof fn text_lt_total(a: Seq<char>, b: Seq<char>)
    ensures
        a == b || text_lt(a, b) || text_lt(b, a),
    decreases a.len(),
{
    if a.len() == 0 || b.len() == 0 {
        assert(a.len() == 0 && b.len() == 0 ==> a =~= b);
    } else if a[0] == b[0] {
        text_lt_total(a.drop_first(), b.drop_first());
        if a.drop_first() == b.drop_first() {
            assert(a =~= seq![a[0]] + a.drop_first());
            assert(b =~= seq![b[0]] + b.drop_first());
        }
    }
}

/// Whether `a` comes before `b` in the order of their characters.
pub fn precedes(a: &str, b: &str) -> (r: bool)
    ensures
        r == text_lt(a@, b@),
{
    let x = text::chars_of(a);
    let y = text::chars_of(b);
    let mut i: usize = 0;
    assert(x@.skip(0) =~= a@);
    assert(y@.skip(0) =~= b@);
    while i < x.len() && i < y.len()
        invariant
            i <= x@.len(),
            i <= y@.len(),
            text_lt(a@, b@) == text_lt(x@.skip(i as int), y@.skip(i as int)),
        decreases x@.len() - i,
    {
        let ghost p = x@.skip(i as int);
        let ghost q = y@.skip(i as int);
        assert(p[0] == x@[i as int]);
        assert(q[0] == y@[i as int]);
        assert(p.drop_first() =~= x@.skip(i + 1));
        assert(q.drop_first() =~= y@.skip(i + 1));
        if x[i] != y[i] {
            return x[i] < y[i];
        }
        i = i + 1;
    }
    i < y.len()
}

/// A sort key: a rank, lower first, and a name that decides between equal ranks.
#[derive(Debug)]
pub struct SortKey {
    pub rank: i64,
    pub name: String,
}

/// Whether key `a` comes strictly before key `b`.
pub open spec fn key_lt(a: SortKey, b: SortKey) -> bool {
    a.rank < b.rank || (a.rank == b.rank && text_lt(a.name@, b.name@))
}

/// Whether keys `a` and `b` rank the same.
pub open spec fn key_eq(a: SortKey, b: SortKey) -> bool {
    a.rank == b.rank && a.name@ == b.name@
}

fn key_precedes(a: &SortKey, b: &SortKey) -> (r: bool)
    ensures
        r == key_lt(*a, *b),
{
    a.rank < b.rank || (a.rank == b.rank && precedes(a.name.as_str(), b.name.as_str()))
}

/// Whether position `i` comes before position `j` in the stable order of `keys`.
pub open spec fn before(keys: Seq<SortKey>, i: int, j: int) -> bool {
    key_lt(keys[i], keys[j]) || (key_eq(keys[i], keys[j]) && i < j)
}

/// Whether `p` lists each position `0..n` once.
pub open spec fn is_permutation(p: Seq<usize>, n: int) -> bool {
    &&& p.len() == n
    &&& p.no_duplicates()
    &&& forall|i: int| 0 <= i < n ==> 0 <= #[trigger] p[i] < n
}

/// Whether `p` lists the positions of `keys` in ascending order of their keys, equal keys in
/// the order in which they came.
pub open spec fn is_stable_order(keys: Seq<SortKey>, p: Seq<usize>) -> bool {
    &&& is_permutation(p, keys.len() as int)
    &&& forall|i: int, j: int|
        0 <= i < j < p.len() ==> #[trigger] before(keys, p[i] as int, p[j] as int)
}

proof fn lemma_before_total(keys: Seq<SortKey>, i: int, j: int)
    requires
        i != j,
    ensures
        before(keys, i, j) || before(keys, j, i),
{
    text_lt_total(keys[i].name@, keys[j].name@);
}

proof fn lemma_before_transitive(keys: Seq<SortKey>, i: int, j: int, k: int)
    requires
        before(keys, i, j),
        before(keys, j, k),
    ensures
        before(keys, i, k),
{
    let a = keys[i];
    let b = keys[j];
    let c = keys[k];
    if key_lt(a, b) && key_lt(b, c) && a.rank == b.rank && b.rank == c.rank {
        text_lt_transitive(a.name@, b.name@, c.name@);
    }
}

/// The positions of `keys` in ascending order of their keys, equal keys in the order in which
/// they came.
pub fn stable_order(keys: &Vec<SortKey>) -> (r: Vec<usize>)
    ensures
        is_stable_order(keys@, r@),
        r@ == sorted_positions(keys@),
{
    let n: usize = keys.len();
    let mut out: Vec<usize> = Vec::new();
    let mut next: usize = 0;
    while next < n
        invariant
            n == keys@.len(),
            next <= n,
            out@.len() == next,
            out@.no_duplicates(),
            forall|i: int| 0 <= i < next ==> 0 <= #[trigger] out@[i] < next,
            forall|i: int, j: int|
                0 <= i < j < next ==> #[trigger] before(keys@, out@[i] as int, out@[j] as int),
        decreases n - next,
    {
        // `at` is where the new position goes: after every key that is not greater.
        let mut at: usize = next;
        while at > 0 && key_precedes(&keys[next], &keys[out[at - 1]])
            invariant_except_break
                forall|j: int|
                    at <= j < next ==> #[trigger] before(keys@, next as int, out@[j] as int),
            invariant
                n == keys@.len(),
                next < n,
                at <= next,
                out@.len() == next,
                forall|i: int| 0 <= i < next ==> 0 <= #[trigger] out@[i] < next,
            ensures
                forall|j: int|
                    at <= j < next ==> #[trigger] before(keys@, next as int, out@[j] as int),
                at > 0 ==> !key_lt(keys@[next as int], keys@[out@[at - 1] as int]),
            decreases at,
        {
            at = at - 1;
        }
        proof {
            if at > 0 {
                lemma_before_total(keys@, out@[at - 1] as int, next as int);
            }
        }
        let ghost prev = out@;
        out.insert(at, next);
        proof {
            assert forall|i: int| 0 <= i < at implies #[trigger] before(
                keys@,
                prev[i] as int,
                next as int,
            ) by {
                if i < at - 1 {
                    assert(before(keys@, prev[i] as int, prev[at - 1] as int));
                    lemma_before_transitive(
                        keys@,
                        prev[i] as int,
                        prev[at - 1] as int,
                        next as int,
                    );
                }
            }
            assert forall|i: int, j: int| 0 <= i < j < next + 1 implies #[trigger] before(
                keys@,
                out@[i] as int,
                out@[j] as int,
            ) by {
                let pi = if i < at {
                    i
                } else {
                    i - 1
                };
                let pj = if j < at {
                    j
                } else {
                    j - 1
                };
                if i == at {
                    assert(out@[j] == prev[pj]);
                    assert(before(keys@, next as int, prev[pj] as int));
                } else if j == at {
                    assert(out@[i] == prev[i]);
                } else {
                    assert(before(keys@, prev[pi] as int, prev[pj] as int));
                }
            }
            assert forall|i: int, j: int|
                0 <= i < out@.len() && 0 <= j < out@.len() && i != j implies out@[i] != out@[j] by {
                let pi = if i < at {
                    i
                } else {
                    i - 1
                };
                let pj = if j < at {
                    j
                } else {
                    j - 1
                };
                if i == at {
                    assert(out@[j] == prev[pj]);
                } else if j == at {
                    assert(out@[i] == prev[pi]);
                } else {
                    assert(out@[i] == prev[pi]);
                    assert(out@[j] == prev[pj]);
                }
            }
            assert forall|i: int| 0 <= i < next + 1 implies 0 <= #[trigger] out@[i] < next + 1 by {
                if i < at {
                    assert(out@[i] == prev[i]);
                } else if i > at {
                    assert(out@[i] == prev[i - 1]);
                }
            }
        }
        next = next + 1;
    }
    proof {
        assert(is_stable_order(keys@, out@));
        stable_order_unique(keys@, out@, sorted_positions(keys@));
    }
    out
}

proof fn lemma_permutation_reaches(p: Seq<usize>, n: int, x: int)
    requires
        is_permutation(p, n),
        0 <= x < n,
    ensures
        exists|i: int| 0 <= i < n && #[trigger] p[i] == x,
{
    let q = p.map_values(|v: usize| v as int);
    assert(q.no_duplicates()) by {
        assert forall|i: int, j: int|
            0 <= i < q.len() && 0 <= j < q.len() && i != j implies q[i] != q[j] by {
            assert(p[i] != p[j]);
        }
    }
    q.unique_seq_to_set();
    vstd::seq_lib::seq_to_set_is_finite(q);
    vstd::set_lib::lemma_int_range(0, n);
    let range = vstd::set_lib::set_int_range(0, n);
    assert(q.to_set().subset_of(range)) by {
        assert forall|v: int| q.to_set().contains(v) implies range.contains(v) by {
            let i = choose|i: int| 0 <= i < q.len() && q[i] == v;
            assert(0 <= p[i] < n);
        }
    }
    vstd::set_lib::lemma_subset_equality(q.to_set(), range);
    assert(q.to_set().contains(x));
    let i = choose|i: int| 0 <= i < q.len() && q[i] == x;
    assert(p[i] == x);
}

proof fn lemma_before_asymmetric(keys: Seq<SortKey>, i: int, j: int)
    requires
        before(keys, i, j),
    ensures
        !before(keys, j, i),
{
    text_lt_irreflexive(keys[i].name@);
    if key_lt(keys[i], keys[j]) && key_lt(keys[j], keys[i]) {
        text_lt_transitive(keys[i].name@, keys[j].name@, keys[i].name@);
    }
}

proof fn lemma_stable_order_prefix(keys: Seq<SortKey>, p: Seq<usize>, q: Seq<usize>, k: int)
    requires
        is_stable_order(keys, p),
        is_stable_order(keys, q),
        0 <= k <= keys.len(),
    ensures
        forall|i: int| 0 <= i < k ==> p[i] == q[i],
    decreases k,
{
    if k > 0 {
        lemma_stable_order_prefix(keys, p, q, k - 1);
        let m = k - 1;
        let n = keys.len() as int;
        if p[m] != q[m] {
            assert(0 <= p[m] < n && 0 <= q[m] < n);
            lemma_permutation_reaches(q, n, p[m] as int);
            let j = choose|j: int| 0 <= j < n && #[trigger] q[j] == p[m];
            lemma_permutation_reaches(p, n, q[m] as int);
            let i = choose|i: int| 0 <= i < n && #[trigger] p[i] == q[m];
            if j < m {
                assert(p[j] == q[j]);
                assert(p[j] == p[m]);
            } else if i < m {
                assert(p[i] == q[i]);
                assert(q[i] == q[m]);
            } else {
                assert(before(keys, q[m] as int, q[j] as int));
                assert(before(keys, p[m] as int, p[i] as int));
                lemma_before_asymmetric(keys, q[m] as int, p[m] as int);
            }
        }
    }
}

/// The stable order of a list of keys is unique.
pub proof fn stable_order_unique(keys: Seq<SortKey>, p: Seq<usize>, q: Seq<usize>)
    requires
        is_stable_order(keys, p),
        is_stable_order(keys, q),
    ensures
        p == q,
{
    lemma_stable_order_prefix(keys, p, q, keys.len() as int);
    assert(p =~= q);
}

/// The positions of `keys` in ascending order of their keys, equal keys in the order in which
/// they came.
pub open spec fn sorted_positions(keys: Seq<SortKey>) -> Seq<usize> {
    choose|p: Seq<usize>| is_stable_order(keys, p)
}

/// `items` rearranged: the item at `p[i]` comes to position `i`.
pub open spec fn arranged<T>(items: Seq<T>, p: Seq<usize>) -> Seq<T> {
    Seq::new(p.len(), |i: int| items[p[i] as int])
}

/// `items` rearranged: the item at `p[i]` comes to position `i`.
pub fn arrange<T>(items: Vec<T>, p: &Vec<usize>) -> (r: Vec<T>)
    requires
        is_permutation(p@, items@.len() as int),
    ensures
        r@ == arranged(items@, p@),
{
    let ghost orig = items@;
    let mut slots: Vec<Option<T>> = Vec::new();
    for item in it: items
        invariant
            it.seq() == orig,
            slots@.len() == it.index(),
            forall|i: int| 0 <= i < it.index() ==> #[trigger] slots@[i] == Some(orig[i]),
    {
        slots.push(Some(item));
    }
    let mut out: Vec<T> = Vec::new();
    let mut i: usize = 0;
    while i < p.len()
        invariant
            is_permutation(p@, orig.len() as int),
            slots@.len() == orig.len(),
            i <= p@.len(),
            out@ == arranged(orig, p@.take(i as int)),
            forall|j: int| i <= j < p@.len() ==> slots@[#[trigger] p@[j] as int] == Some(
                orig[p@[j] as int],
            ),
        decreases p@.len() - i,
    {
        let k: usize = p[i];
        let taken = slots[k].take();
        match taken {
            Some(item) => {
                out.push(item);
            },
            None => {},
        }
        assert(out@ =~= arranged(orig, p@.take(i + 1)));
        i = i + 1;
    }
    assert(p@.take(p@.len() as int) =~= p@);
    out
}

/// The keys that ranks alone give.
pub open spec fn rank_keys(ranks: Seq<i64>, keys: Seq<SortKey>) -> bool {
    &&& keys.len() == ranks.len()
    &&& forall|i: int| 0 <= i < ranks.len() ==> (#[trigger] keys[i]).rank == ranks[i] && keys[i].name@
        == Seq::<char>::empty()
}

/// Whether `p` lists the positions of `ranks` from the lowest to the highest, equal ranks in the
/// order in which they came.
pub open spec fn is_rank_order(ranks: Seq<i64>, p: Seq<usize>) -> bool {
    &&& is_permutation(p, ranks.len() as int)
    &&& forall|i: int, j: int|
        0 <= i < j < p.len() ==> {
            ||| ranks[#[trigger] p[i] as int] < ranks[#[trigger] p[j] as int]
            ||| ranks[p[i] as int] == ranks[p[j] as int] && p[i] < p[j]
        }
}

/// The positions of `ranks` from the lowest to the highest, equal ranks in the order in which
/// they came.
pub open spec fn rank_positions(ranks: Seq<i64>) -> Seq<usize> {
    choose|p: Seq<usize>| is_rank_order(ranks, p)
}

proof fn lemma_rank_order_is_stable(ranks: Seq<i64>, keys: Seq<SortKey>, p: Seq<usize>)
    requires
        rank_keys(ranks, keys),
    ensures
        is_rank_order(ranks, p) <==> is_stable_order(keys, p),
{
    text_lt_irreflexive(Seq::<char>::empty());
    if is_rank_order(ranks, p) {
        assert forall|i: int, j: int| 0 <= i < j < p.len() implies #[trigger] before(
            keys,
            p[i] as int,
            p[j] as int,
        ) by {
            assert(0 <= p[i] < ranks.len() && 0 <= p[j] < ranks.len());
        }
    }
    if is_stable_order(keys, p) {
        assert forall|i: int, j: int| 0 <= i < j < p.len() implies ranks[#[trigger] p[i] as int]
            < ranks[#[trigger] p[j] as int] || (ranks[p[i] as int] == ranks[p[j] as int] && p[i]
            < p[j]) by {
            assert(before(keys, p[i] as int, p[j] as int));
            assert(0 <= p[i] < ranks.len() && 0 <= p[j] < ranks.len());
        }
    }
}

/// Ranks have their order: there is exactly one.
pub proof fn rank_positions_exist(ranks: Seq<i64>)
    requires
        ranks.len() <= usize::MAX,
    ensures
        is_rank_order(ranks, rank_positions(ranks)),
{
    let n = ranks.len();
    let all = Seq::new(n, |i: int| i as usize);
    let leq = |a: usize, b: usize|
        ranks[a as int] < ranks[b as int] || (ranks[a as int] == ranks[b as int] && a <= b);
    let p = all.sort_by(leq);
    all.lemma_sort_by_ensures(leq);
    assert(all.no_duplicates());
    all.lemma_multiset_has_no_duplicates();
    p.lemma_multiset_has_no_duplicates_conv();
    assert(p.len() == n) by {
        broadcast use vstd::seq_lib::group_to_multiset_ensures;

        assert(p.to_multiset().len() == p.len());
        assert(all.to_multiset().len() == all.len());
    }
    assert forall|i: int| 0 <= i < n implies 0 <= #[trigger] p[i] < n by {
        assert(p.contains(p[i]));
        assert(all.contains(p[i]));
    }
    assert forall|i: int, j: int| 0 <= i < j < p.len() implies ranks[#[trigger] p[i] as int]
        < ranks[#[trigger] p[j] as int] || (ranks[p[i] as int] == ranks[p[j] as int] && p[i]
        < p[j]) by {
        assert(leq(p[i], p[j]));
        assert(p[i] != p[j]);
    }
    assert(is_rank_order(ranks, p));
}

/// The positions of `ranks` from the lowest to the highest, equal ranks in the order in which
/// they came.
pub fn rank_order(ranks: &Vec<i64>) -> (r: Vec<usize>)
    ensures
        is_rank_order(ranks@, r@),
        r@ == rank_positions(ranks@),
{
    let mut keys: Vec<SortKey> = Vec::new();
    let mut i: usize = 0;
    while i < ranks.len()
        invariant
            i <= ranks@.len(),
            rank_keys(ranks@.take(i as int), keys@),
        decreases ranks@.len() - i,
    {
        keys.push(SortKey { rank: ranks[i], name: String::new() });
        i = i + 1;
    }
    assert(ranks@.take(ranks@.len() as int) =~= ranks@);
    let r = stable_order(&keys);
    proof {
        lemma_rank_order_is_stable(ranks@, keys@, r@);
        let p = rank_positions(ranks@);
        lemma_rank_order_is_stable(ranks@, keys@, p);
        stable_order_unique(keys@, r@, p);
    }
    r
}

/// Whether `r` lists the texts of `s`, each once, in ascending order.
pub open spec fn is_sorted_set(r: Seq<Seq<char>>, s: Seq<Seq<char>>) -> bool {
    &&& forall|i: int, j: int|
        0 <= i < j < r.len() ==> text_lt(#[trigger] r[i], #[trigger] r[j])
    &&& forall|x: Seq<char>| #[trigger] r.contains(x) <==> s.contains(x)
}

/// The texts of `s`, each once, in ascending order.
pub open spec fn sorted_set(s: Seq<Seq<char>>) -> Seq<Seq<char>> {
    choose|r: Seq<Seq<char>>| is_sorted_set(r, s)
}

proof fn lemma_not_smaller(p: Seq<Seq<char>>, q: Seq<Seq<char>>, s: Seq<Seq<char>>, k: int)
    requires
        is_sorted_set(p, s),
        is_sorted_set(q, s),
        0 <= k < p.len(),
        k <= q.len(),
        forall|i: int| 0 <= i < k ==> #[trigger] p[i] == q[i],
    ensures
        k < q.len(),
        !text_lt(p[k], q[k]),
{
    assert(p.contains(p[k]));
    assert(q.contains(p[k]));
    let j = choose|j: int| 0 <= j < q.len() && q[j] == p[k];
    if j < k {
        assert(p[j] == q[j]);
        assert(text_lt(p[j], p[k]));
        text_lt_irreflexive(p[k]);
    }
    if text_lt(p[k], q[k]) {
        if j > k {
            assert(text_lt(q[k], q[j]));
            text_lt_transitive(p[k], q[k], q[j]);
        }
        text_lt_irreflexive(p[k]);
    }
}

proof fn lemma_sorted_set_prefix(
    p: Seq<Seq<char>>,
    q: Seq<Seq<char>>,
    s: Seq<Seq<char>>,
    k: int,
)
    requires
        is_sorted_set(p, s),
        is_sorted_set(q, s),
        0 <= k <= p.len(),
    ensures
        k <= q.len(),
        forall|i: int| 0 <= i < k ==> #[trigger] p[i] == q[i],
    decreases k,
{
    if k > 0 {
        lemma_sorted_set_prefix(p, q, s, k - 1);
        lemma_not_smaller(p, q, s, k - 1);
        lemma_not_smaller(q, p, s, k - 1);
        text_lt_total(p[k - 1], q[k - 1]);
    }
}

/// The sorted list of a set of texts is unique.
pub proof fn sorted_set_unique(p: Seq<Seq<char>>, q: Seq<Seq<char>>, s: Seq<Seq<char>>)
    requires
        is_sorted_set(p, s),
        is_sorted_set(q, s),
    ensures
        p == q,
{
    lemma_sorted_set_prefix(p, q, s, p.len() as int);
    lemma_sorted_set_prefix(q, p, s, q.len() as int);
    assert(p =~= q);
}

/// The texts of a list, each once, in ascending order.
pub fn sort_unique(list: &Vec<String>) -> (r: Vec<String>)
    ensures
        is_sorted_set(text::views(r@), text::views(list@)),
        text::views(r@) == sorted_set(text::views(list@)),
{
    let ghost all = text::views(list@);
    let mut out: Vec<String> = Vec::new();
    let mut i: usize = 0;
    assert(text::views(out@) =~= Seq::empty());
    assert(all.take(0) =~= Seq::empty());
    while i < list.len()
        invariant
            i <= list@.len(),
            all == text::views(list@),
            is_sorted_set(text::views(out@), all.take(i as int)),
        decreases list@.len() - i,
    {
        let x = list[i].as_str();
        let ghost prev = text::views(out@);
        let ghost seen = all.take(i as int);
        let mut at: usize = 0;
        while at < out.len() && precedes(out[at].as_str(), x)
            invariant
                at <= out@.len(),
                forall|k: int| 0 <= k < at ==> text_lt((#[trigger] out@[k])@, x@),
            ensures
                at <= out@.len(),
                forall|k: int| 0 <= k < at ==> text_lt((#[trigger] out@[k])@, x@),
                at < out@.len() ==> !text_lt(out@[at as int]@, x@),
            decreases out@.len() - at,
        {
            at = at + 1;
        }
        proof {
            assert(all[i as int] == x@);
            assert(all.take(i + 1) =~= seen.push(x@));
            assert forall|y: Seq<char>| #[trigger] seen.push(x@).contains(y) <==> seen.contains(y)
                || y == x@ by {
                if seen.push(x@).contains(y) {
                    let k = choose|k: int| 0 <= k < seen.len() + 1 && seen.push(x@)[k] == y;
                    if k < seen.len() {
                        assert(seen[k] == y);
                    }
                }
                if seen.contains(y) {
                    let k = choose|k: int| 0 <= k < seen.len() && seen[k] == y;
                    assert(seen.push(x@)[k] == y);
                }
                assert(seen.push(x@)[seen.len() as int] == x@);
            }
        }
        if at < out.len() && text::same(out[at].as_str(), x) {
            proof {
                assert(prev[at as int] == x@);
                assert(prev.contains(x@));
            }
        } else {
            out.insert(at, list[i].clone());
            proof {
                let now = text::views(out@);
                assert(now =~= prev.insert(at as int, x@));
                if at < prev.len() {
                    text_lt_total(prev[at as int], x@);
                }
                assert forall|a: int, b: int| 0 <= a < b < now.len() implies text_lt(
                    #[trigger] now[a],
                    #[trigger] now[b],
                ) by {
                    if b < at {
                        assert(now[a] == prev[a] && now[b] == prev[b]);
                    } else if b == at {
                        assert(now[a] == prev[a]);
                        assert(text_lt(prev[a], x@));
                    } else if a < at {
                        assert(now[a] == prev[a] && now[b] == prev[b - 1]);
                    } else if a == at {
                        assert(now[b] == prev[b - 1]);
                        assert(text_lt(x@, prev[at as int]));
                        if b - 1 > at {
                            text_lt_transitive(x@, prev[at as int], prev[b - 1]);
                        }
                    } else {
                        assert(now[a] == prev[a - 1] && now[b] == prev[b - 1]);
                    }
                }
                assert forall|y: Seq<char>| #[trigger] now.contains(y) <==> seen.push(
                    x@,
                ).contains(y) by {
                    if now.contains(y) {
                        let k = choose|k: int| 0 <= k < now.len() && now[k] == y;
                        if k < at {
                            assert(prev[k] == y);
                            assert(prev.contains(y));
                        } else if k > at {
                            assert(prev[k - 1] == y);
                            assert(prev.contains(y));
                        }
                    }
                    if prev.contains(y) {
                        let k = choose|k: int| 0 <= k < prev.len() && prev[k] == y;
                        if k < at {
                            assert(now[k] == y);
                        } else {
                            assert(now[k + 1] == y);
                        }
                    }
                    assert(now[at as int] == x@);
                }
            }
        }
        i = i + 1;
    }
    assert(all.take(list@.len() as int) =~= all);
    proof {
        sorted_set_unique(text::views(out@), sorted_set(all), all);
    }
    out
}

// ── Laws ────────────────────────────────────────────────────────────────────

/// Texts come in the order of their first different characters, and a text comes before what it
/// begins.
pub proof fn texts_come_as_in_a_dictionary(a: Seq<char>, b: Seq<char>, k: int)
    requires
        0 <= k <= a.len(),
        k <= b.len(),
        forall|i: int| 0 <= i < k ==> a[i] == b[i],
    ensures
        k < a.len() && k < b.len() && a[k] < b[k] ==> text_lt(a, b) && !text_lt(b, a),
        k == a.len() && k < b.len() ==> text_lt(a, b) && !text_lt(b, a),
    decreases k,
{
    if k > 0 {
        let x = a.skip(1);
        let y = b.skip(1);
        assert(a.drop_first() =~= x && b.drop_first() =~= y);
        assert forall|i: int| 0 <= i < k - 1 implies x[i] == y[i] by {
            assert(a[i + 1] == b[i + 1]);
        }
        texts_come_as_in_a_dictionary(x, y, k - 1);
    }
}

/// Keys have their order.
pub proof fn sorted_positions_exist(keys: Seq<SortKey>)
    requires
        keys.len() <= usize::MAX,
    ensures
        is_stable_order(keys, sorted_positions(keys)),
{
    let n = keys.len();
    let all = Seq::new(n, |i: int| i as usize);
    let leq = |a: usize, b: usize| a == b || before(keys, a as int, b as int);
    assert forall|x: usize, y: usize| #[trigger] leq(x, y) || leq(y, x) by {
        if x != y {
            lemma_before_total(keys, x as int, y as int);
        }
    }
    assert forall|x: usize, y: usize| #[trigger] leq(x, y) && #[trigger] leq(y, x) implies x
        == y by {
        if x != y {
            lemma_before_asymmetric(keys, x as int, y as int);
        }
    }
    assert forall|x: usize, y: usize, z: usize| #[trigger] leq(x, y) && #[trigger] leq(
        y,
        z,
    ) implies leq(x, z) by {
        if x != y && y != z {
            lemma_before_transitive(keys, x as int, y as int, z as int);
        }
    }
    let p = all.sort_by(leq);
    all.lemma_sort_by_ensures(leq);
    assert(all.no_duplicates());
    all.lemma_multiset_has_no_duplicates();
    p.lemma_multiset_has_no_duplicates_conv();
    assert(p.len() == n) by {
        broadcast use vstd::seq_lib::group_to_multiset_ensures;

        assert(p.to_multiset().len() == p.len());
        assert(all.to_multiset().len() == all.len());
    }
    assert forall|i: int| 0 <= i < n implies 0 <= #[trigger] p[i] < n by {
        assert(p.contains(p[i]));
        assert(all.contains(p[i]));
    }
    assert forall|i: int, j: int| 0 <= i < j < p.len() implies #[trigger] before(
        keys,
        p[i] as int,
        p[j] as int,
    ) by {
        assert(leq(p[i], p[j]));
        assert(p[i] != p[j]);
    }
    assert(is_stable_order(keys, p));
}

/// Sorted by their keys, lower ranks come first, names decide among equal ranks, and what is
/// equal in both stays as it came. Nothing is lost and nothing comes twice.
pub proof fn keys_come_in_order(keys: Seq<SortKey>, i: int, j: int)
    requires
        keys.len() <= usize::MAX,
        0 <= i < j < keys.len(),
    ensures
        ({
            let p = sorted_positions(keys);
            let x = p[i] as int;
            let y = p[j] as int;
            &&& p.len() == keys.len()
            &&& 0 <= x < keys.len() && 0 <= y < keys.len() && x != y
            &&& keys[x].rank <= keys[y].rank
            &&& keys[x].rank == keys[y].rank ==> text_lt(keys[x].name@, keys[y].name@) || (
            keys[x].name@ == keys[y].name@ && x < y)
        }),
{
    sorted_positions_exist(keys);
    let p = sorted_positions(keys);
    assert(before(keys, p[i] as int, p[j] as int));
    assert(p[i] != p[j]);
}

/// Sorted by their ranks, lower ranks come first and equal ranks stay as they came. Nothing is
/// lost and nothing comes twice.
pub proof fn ranks_come_in_order(ranks: Seq<i64>, i: int, j: int)
    requires
        ranks.len() <= usize::MAX,
        0 <= i < j < ranks.len(),
    ensures
        ({
            let p = rank_positions(ranks);
            let x = p[i] as int;
            let y = p[j] as int;
            &&& p.len() == ranks.len()
            &&& 0 <= x < ranks.len() && 0 <= y < ranks.len() && x != y
            &&& ranks[x] < ranks[y] || (ranks[x] == ranks[y] && x < y)
        }),
{
    rank_positions_exist(ranks);
    let p = rank_positions(ranks);
    assert(p[i] != p[j]);
}

/// Every position has its place in the order of the ranks.
pub proof fn every_rank_has_its_place(ranks: Seq<i64>, x: int)
    requires
        ranks.len() <= usize::MAX,
        0 <= x < ranks.len(),
    ensures
        exists|i: int| 0 <= i < ranks.len() && #[trigger] rank_positions(ranks)[i] == x,
{
    rank_positions_exist(ranks);
    lemma_permutation_reaches(rank_positions(ranks), ranks.len() as int, x);
}

/// Every position has its place in the order of the keys.
pub proof fn every_key_has_its_place(keys: Seq<SortKey>, x: int)
    requires
        keys.len() <= usize::MAX,
        0 <= x < keys.len(),
    ensures
        exists|i: int| 0 <= i < keys.len() && #[trigger] sorted_positions(keys)[i] == x,
{
    sorted_positions_exist(keys);
    lemma_permutation_reaches(sorted_positions(keys), keys.len() as int, x);
}

/// What is left of a list when some of it is dropped stands in the order in which it stood.
pub proof fn filtering_keeps_the_order<T>(s: Seq<T>, keep: spec_fn(T) -> bool, i: int, j: int)
    requires
        0 <= i < j < s.filter(keep).len(),
    ensures
        exists|x: int, y: int|
            0 <= x < y < s.len() && s.filter(keep)[i] == #[trigger] s[x] && s.filter(keep)[j]
                == #[trigger] s[y],
    decreases s.len(),
{
    reveal(Seq::filter);
    let rest = s.drop_last();
    let old = rest.filter(keep);
    let now = s.filter(keep);
    if j < old.len() {
        filtering_keeps_the_order(rest, keep, i, j);
        let (x, y) = choose|x: int, y: int|
            0 <= x < y < rest.len() && old[i] == #[trigger] rest[x] && old[j] == #[trigger] rest[y];
        assert(now[i] == s[x] && now[j] == s[y]);
    } else {
        assert(now == old.push(s.last()));
        rest.lemma_filter_contains_rev(keep, old[i]);
        let x = choose|x: int| 0 <= x < rest.len() && rest[x] == old[i];
        assert(now[i] == s[x] && now[j] == s[s.len() - 1]);
    }
}

spec fn inserted(r: Seq<Seq<char>>, x: Seq<char>) -> Seq<Seq<char>>
    decreases r.len(),
{
    if r.len() == 0 {
        seq![x]
    } else if text_lt(x, r[0]) {
        seq![x] + r
    } else if x == r[0] {
        r
    } else {
        seq![r[0]] + inserted(r.drop_first(), x)
    }
}

proof fn lemma_inserted(r: Seq<Seq<char>>, x: Seq<char>)
    requires
        forall|i: int, j: int|
            0 <= i < j < r.len() ==> text_lt(#[trigger] r[i], #[trigger] r[j]),
    ensures
        forall|i: int, j: int|
            0 <= i < j < inserted(r, x).len() ==> text_lt(
                #[trigger] inserted(r, x)[i],
                #[trigger] inserted(r, x)[j],
            ),
        forall|y: Seq<char>| #[trigger] inserted(r, x).contains(y) <==> r.contains(y) || y == x,
    decreases r.len(),
{
    let out = inserted(r, x);
    if r.len() == 0 {
        assert(out[0] == x);
    } else if text_lt(x, r[0]) {
        assert forall|i: int, j: int| 0 <= i < j < out.len() implies text_lt(
            #[trigger] out[i],
            #[trigger] out[j],
        ) by {
            if i == 0 {
                if j > 1 {
                    assert(text_lt(r[0], r[j - 1]));
                    text_lt_transitive(x, r[0], r[j - 1]);
                }
            } else {
                assert(text_lt(r[i - 1], r[j - 1]));
            }
        }
        assert forall|y: Seq<char>| #[trigger] out.contains(y) <==> r.contains(y) || y == x by {
            assert(out[0] == x);
            if r.contains(y) {
                let k = choose|k: int| 0 <= k < r.len() && r[k] == y;
                assert(out[k + 1] == y);
            }
            if out.contains(y) && y != x {
                let k = choose|k: int| 0 <= k < out.len() && out[k] == y;
                assert(r[k - 1] == y);
            }
        }
    } else if x == r[0] {
        assert(r.contains(x));
    } else {
        text_lt_total(x, r[0]);
        let rest = r.drop_first();
        assert forall|i: int, j: int| 0 <= i < j < rest.len() implies text_lt(
            #[trigger] rest[i],
            #[trigger] rest[j],
        ) by {
            assert(text_lt(r[i + 1], r[j + 1]));
        }
        lemma_inserted(rest, x);
        let more = inserted(rest, x);
        assert forall|i: int, j: int| 0 <= i < j < out.len() implies text_lt(
            #[trigger] out[i],
            #[trigger] out[j],
        ) by {
            if i == 0 {
                let y = more[j - 1];
                assert(more.contains(y));
                if y != x {
                    let k = choose|k: int| 0 <= k < rest.len() && rest[k] == y;
                    assert(text_lt(r[0], r[k + 1]));
                }
            } else {
                assert(text_lt(more[i - 1], more[j - 1]));
            }
        }
        assert forall|y: Seq<char>| #[trigger] out.contains(y) <==> r.contains(y) || y == x by {
            assert(out[0] == r[0]);
            if r.contains(y) {
                let k = choose|k: int| 0 <= k < r.len() && r[k] == y;
                if k > 0 {
                    assert(rest[k - 1] == y);
                    assert(more.contains(y));
                }
            }
            if y == x {
                assert(more.contains(y));
            }
            if more.contains(y) {
                let k = choose|k: int| 0 <= k < more.len() && more[k] == y;
                assert(out[k + 1] == y);
            }
            if out.contains(y) {
                let k = choose|k: int| 0 <= k < out.len() && out[k] == y;
                if k > 0 {
                    assert(more[k - 1] == y);
                    assert(more.contains(y));
                    if y != x {
                        let m = choose|m: int| 0 <= m < rest.len() && rest[m] == y;
                        assert(r[m + 1] == y);
                    }
                } else {
                    assert(r[0] == y);
                }
            }
        }
    }
}

/// Texts have their order: each of them once, in the order of a dictionary, and nothing else.
pub proof fn sorted_set_exists(s: Seq<Seq<char>>)
    ensures
        is_sorted_set(sorted_set(s), s),
        forall|i: int, j: int|
            0 <= i < j < sorted_set(s).len() ==> text_lt(
                #[trigger] sorted_set(s)[i],
                #[trigger] sorted_set(s)[j],
            ),
        forall|x: Seq<char>| #[trigger] sorted_set(s).contains(x) <==> s.contains(x),
    decreases s.len(),
{
    if s.len() == 0 {
        assert(is_sorted_set(Seq::<Seq<char>>::empty(), s));
    } else {
        let rest = s.drop_last();
        sorted_set_exists(rest);
        let r = sorted_set(rest);
        let x = s.last();
        lemma_inserted(r, x);
        let out = inserted(r, x);
        assert forall|y: Seq<char>| #[trigger] out.contains(y) <==> s.contains(y) by {
            assert(s[s.len() - 1] == x);
            if rest.contains(y) {
                let k = choose|k: int| 0 <= k < rest.len() && rest[k] == y;
                assert(s[k] == y);
            }
            if s.contains(y) && y != x {
                let k = choose|k: int| 0 <= k < s.len() && s[k] == y;
                assert(rest[k] == y);
            }
        }
        assert(is_sorted_set(out, s));
    }
}

}
