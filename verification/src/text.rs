//! Text primitives: everything the API does with strings, stated over `Seq<char>`.

use vstd::prelude::*;
use vstd::string::*;
use vstd::utf8::*;

verus! {

// ── What the standard library decides ───────────────────────────────────────

/// What `char::is_alphanumeric` answers outside ASCII.
pub uninterp spec fn wide_alphanumeric(c: char) -> bool;

/// What `str::to_uppercase` returns for text that is not ASCII.
pub uninterp spec fn wide_uppercase(s: Seq<char>) -> Seq<char>;

/// What `str::to_lowercase` returns for text that is not ASCII.
pub uninterp spec fn wide_lowercase(s: Seq<char>) -> Seq<char>;

/// The debug form (`{:?}`) of a string that needs an escape or is not ASCII.
pub uninterp spec fn debug_escaped(s: Seq<char>) -> Seq<char>;

/// An ASCII character.
pub open spec fn ascii(c: char) -> bool {
    c <= '\u{7f}'
}

/// An upper-case ASCII letter.
pub open spec fn ascii_upper_letter(c: char) -> bool {
    'A' <= c && c <= 'Z'
}

/// A lower-case ASCII letter.
pub open spec fn ascii_lower_letter(c: char) -> bool {
    'a' <= c && c <= 'z'
}

/// An ASCII decimal digit.
pub open spec fn ascii_digit(c: char) -> bool {
    '0' <= c && c <= '9'
}

/// `c` with a lower-case ASCII letter raised to upper case.
pub open spec fn ascii_raise(c: char) -> char {
    if ascii_lower_letter(c) {
        ((c as u32) - 32) as char
    } else {
        c
    }
}

/// `c` with an upper-case ASCII letter brought to lower case.
pub open spec fn ascii_lower(c: char) -> char {
    if ascii_upper_letter(c) {
        ((c as u32) + 32) as char
    } else {
        c
    }
}

/// A letter or a digit.
pub open spec fn alphanumeric(c: char) -> bool {
    if ascii(c) {
        ascii_upper_letter(c) || ascii_lower_letter(c) || ascii_digit(c)
    } else {
        wide_alphanumeric(c)
    }
}

/// A whitespace character: one that has the Unicode property White_Space. In ASCII these are the
/// space and the controls from tab to carriage return.
pub open spec fn whitespace(c: char) -> bool {
    ||| '\u{9}' <= c <= '\u{d}'
    ||| c == ' '
    ||| c == '\u{85}'
    ||| c == '\u{a0}'
    ||| c == '\u{1680}'
    ||| '\u{2000}' <= c <= '\u{200a}'
    ||| c == '\u{2028}'
    ||| c == '\u{2029}'
    ||| c == '\u{202f}'
    ||| c == '\u{205f}'
    ||| c == '\u{3000}'
}

/// `s` in upper case.
pub open spec fn uppercase(s: Seq<char>) -> Seq<char> {
    if is_ascii_chars(s) {
        s.map_values(|c: char| ascii_raise(c))
    } else {
        wide_uppercase(s)
    }
}

/// `s` in lower case.
pub open spec fn lowercase(s: Seq<char>) -> Seq<char> {
    if is_ascii_chars(s) {
        s.map_values(|c: char| ascii_lower(c))
    } else {
        wide_lowercase(s)
    }
}

/// Whether `s` is printable ASCII without quotes and backslashes.
pub open spec fn debug_plain(s: Seq<char>) -> bool {
    forall|i: int|
        0 <= i < s.len() ==> ' ' <= #[trigger] s[i] && s[i] <= '~' && s[i] != '"' && s[i] != '\\'
}

/// `s` between quotes, with what does not print escaped.
pub open spec fn debug_quoted(s: Seq<char>) -> Seq<char> {
    if debug_plain(s) {
        seq!['"'] + s + seq!['"']
    } else {
        debug_escaped(s)
    }
}

/// Calls `char::is_alphanumeric`.
///
/// Claimed: the answer depends on the character alone; on an ASCII character it is whether
/// the character is a letter or a digit.
#[verifier::external_body]
pub(crate) fn is_alphanumeric(c: char) -> (r: bool)
    ensures
        r == if ascii(c) {
            alphanumeric(c)
        } else {
            wide_alphanumeric(c)
        },
{
    c.is_alphanumeric()
}

/// Calls `char::is_whitespace`.
///
/// Claimed: it accepts exactly the characters that have the Unicode property White_Space.
#[verifier::external_body]
pub(crate) fn is_whitespace(c: char) -> (r: bool)
    ensures
        r == whitespace(c),
{
    c.is_whitespace()
}

/// Calls `str::to_uppercase`.
///
/// Claimed: the result depends on the text alone; on ASCII text each letter is raised and
/// every other character stays.
#[verifier::external_body]
pub(crate) fn to_uppercase(s: &str) -> (r: String)
    ensures
        r@ == if is_ascii_chars(s@) {
            uppercase(s@)
        } else {
            wide_uppercase(s@)
        },
{
    s.to_uppercase()
}

/// Calls `str::to_lowercase`.
///
/// Claimed: the result depends on the text alone; on ASCII text each letter is lowered and
/// every other character stays.
#[verifier::external_body]
pub(crate) fn to_lowercase(s: &str) -> (r: String)
    ensures
        r@ == if is_ascii_chars(s@) {
            lowercase(s@)
        } else {
            wide_lowercase(s@)
        },
{
    s.to_lowercase()
}

/// Calls the `Debug` formatting of `str`.
///
/// Claimed: the result depends on the text alone; printable ASCII without quotes and
/// backslashes is returned between two quotes.
#[verifier::external_body]
pub(crate) fn debug_text(s: &str) -> (r: String)
    ensures
        r@ == if debug_plain(s@) {
            debug_quoted(s@)
        } else {
            debug_escaped(s@)
        },
{
    format!("{s:?}")
}

/// Calls `core::str::from_utf8`.
///
/// Claimed: the bytes are accepted exactly when they are valid UTF-8, and the text is then
/// what they decode to.
#[verifier::external_body]
pub(crate) fn utf8_text(bytes: &[u8]) -> (r: Option<String>)
    ensures
        r is Some <==> valid_utf8(bytes@),
        r matches Some(s) ==> s@ == decode_utf8(bytes@),
{
    match core::str::from_utf8(bytes) {
        Ok(s) => Some(s.to_owned()),
        Err(_) => None,
    }
}

/// `String::push` appends one character.
pub assume_specification[ String::push ](s: &mut String, c: char)
    ensures
        final(s)@ == old(s)@.push(c),
;

// ── Plain operations, proved here ───────────────────────────────────────────

/// The characters of `s`.
pub fn chars_of(s: &str) -> (r: Vec<char>)
    ensures
        r@ == s@,
{
    let mut v: Vec<char> = Vec::new();
    for c in it: s.chars()
        invariant
            it.seq() == s@,
            v@ == s@.take(it.index() as int),
    {
        v.push(c);
    }
    v
}

/// The text made of the characters `v[from..to]`.
pub fn text_of(v: &Vec<char>, from: usize, to: usize) -> (r: String)
    requires
        from <= to <= v@.len(),
    ensures
        r@ == v@.subrange(from as int, to as int),
{
    let mut s = String::new();
    let mut i: usize = from;
    while i < to
        invariant
            from <= i <= to <= v@.len(),
            s@ == v@.subrange(from as int, i as int),
        decreases to - i,
    {
        s.push(v[i]);
        i = i + 1;
    }
    s
}

/// Whether two texts are the same.
pub fn same(a: &str, b: &str) -> (r: bool)
    ensures
        r == (a@ == b@),
{
    let x = chars_of(a);
    let y = chars_of(b);
    if x.len() != y.len() {
        return false;
    }
    let mut i: usize = 0;
    while i < x.len()
        invariant
            x@ == a@,
            y@ == b@,
            x@.len() == y@.len(),
            i <= x@.len(),
            forall|j: int| 0 <= j < i ==> x@[j] == y@[j],
        decreases x@.len() - i,
    {
        if x[i] != y[i] {
            return false;
        }
        i = i + 1;
    }
    assert(a@ =~= b@);
    true
}

/// `s` without the whitespace at its two ends.
pub open spec fn trimmed(s: Seq<char>) -> Seq<char>
    decreases s.len(),
{
    if s.len() > 0 && whitespace(s[0]) {
        trimmed(s.drop_first())
    } else if s.len() > 0 && whitespace(s.last()) {
        trimmed(s.drop_last())
    } else {
        s
    }
}

/// `s` without the whitespace at its two ends.
pub fn trim(s: &str) -> (r: String)
    ensures
        r@ == trimmed(s@),
{
    let v = chars_of(s);
    let n: usize = v.len();
    let mut i: usize = 0;
    assert(v@.subrange(0, n as int) =~= v@);
    while i < n && is_whitespace(v[i])
        invariant_except_break
            trimmed(v@) == trimmed(v@.subrange(i as int, n as int)),
        invariant
            n == v@.len(),
            i <= n,
        ensures
            trimmed(v@) == trimmed(v@.subrange(i as int, n as int)),
            i < n ==> !whitespace(v@[i as int]),
        decreases n - i,
    {
        assert(v@.subrange(i as int, n as int).drop_first() =~= v@.subrange(i + 1, n as int));
        i = i + 1;
    }
    let mut j: usize = n;
    while j > i && is_whitespace(v[j - 1])
        invariant_except_break
            trimmed(v@) == trimmed(v@.subrange(i as int, j as int)),
            i < j ==> !whitespace(v@[i as int]),
        invariant
            n == v@.len(),
            i <= j <= n,
        ensures
            trimmed(v@) == v@.subrange(i as int, j as int),
        decreases j - i,
    {
        let ghost cur = v@.subrange(i as int, j as int);
        assert(cur[0] == v@[i as int]);
        assert(cur.drop_last() =~= v@.subrange(i as int, j - 1));
        j = j - 1;
    }
    text_of(&v, i, j)
}

/// `s` without the whitespace that it begins with.
pub open spec fn trimmed_start(s: Seq<char>) -> Seq<char>
    decreases s.len(),
{
    if s.len() > 0 && whitespace(s[0]) {
        trimmed_start(s.drop_first())
    } else {
        s
    }
}

/// `s` without the whitespace that it begins with.
pub fn trim_start(s: &str) -> (r: String)
    ensures
        r@ == trimmed_start(s@),
{
    let v = chars_of(s);
    let n: usize = v.len();
    let mut i: usize = 0;
    assert(v@.subrange(0, n as int) =~= v@);
    while i < n && is_whitespace(v[i])
        invariant_except_break
            trimmed_start(v@) == trimmed_start(v@.subrange(i as int, n as int)),
        invariant
            n == v@.len(),
            i <= n,
        ensures
            trimmed_start(v@) == v@.subrange(i as int, n as int),
        decreases n - i,
    {
        assert(v@.subrange(i as int, n as int).drop_first() =~= v@.subrange(i + 1, n as int));
        i = i + 1;
    }
    text_of(&v, i, n)
}

/// The number of characters of `s` before its first whitespace character.
pub open spec fn word_len(s: Seq<char>) -> nat
    decreases s.len(),
{
    if s.len() == 0 || whitespace(s[0]) {
        0
    } else {
        1 + word_len(s.drop_first())
    }
}

/// The maximal runs of non-whitespace characters of `s`, in order.
pub open spec fn words(s: Seq<char>) -> Seq<Seq<char>>
    decreases s.len(),
{
    if s.len() == 0 {
        Seq::empty()
    } else if whitespace(s[0]) {
        words(s.drop_first())
    } else if word_len(s) <= s.len() {
        seq![s.take(word_len(s) as int)] + words(s.skip(word_len(s) as int))
    } else {
        Seq::empty()
    }
}

pub proof fn lemma_word_len(s: Seq<char>)
    ensures
        word_len(s) <= s.len(),
        forall|i: int| 0 <= i < word_len(s) ==> !whitespace(#[trigger] s[i]),
        word_len(s) < s.len() ==> whitespace(s[word_len(s) as int]),
        s.len() > 0 && !whitespace(s[0]) ==> word_len(s) > 0,
    decreases s.len(),
{
    if s.len() > 0 && !whitespace(s[0]) {
        let t = s.drop_first();
        lemma_word_len(t);
        assert forall|i: int| 0 <= i < word_len(s) implies !whitespace(#[trigger] s[i]) by {
            if i > 0 {
                assert(s[i] == t[i - 1]);
            }
        }
        if word_len(s) < s.len() {
            assert(s[word_len(s) as int] == t[word_len(t) as int]);
        }
    }
}

/// The views of a list of texts.
pub open spec fn views(v: Seq<String>) -> Seq<Seq<char>> {
    v.map_values(|s: String| s@)
}

proof fn lemma_word_len_at(s: Seq<char>, i: int, j: int)
    requires
        0 <= i < j <= s.len(),
        forall|k: int| i <= k < j ==> !whitespace(#[trigger] s[k]),
        j < s.len() ==> whitespace(s[j]),
    ensures
        word_len(s.skip(i)) == j - i,
    decreases j - i,
{
    let t = s.skip(i);
    assert(t[0] == s[i]);
    assert(t.drop_first() =~= s.skip(i + 1));
    if i + 1 < j {
        lemma_word_len_at(s, i + 1, j);
    } else {
        if j < s.len() {
            assert(s.skip(j)[0] == s[j]);
        }
        assert(word_len(s.skip(j)) == 0);
    }
}

/// The maximal runs of non-whitespace characters of `s`, in order.
pub fn split_whitespace(s: &str) -> (r: Vec<String>)
    ensures
        views(r@) == words(s@),
{
    let v = chars_of(s);
    let n: usize = v.len();
    let mut out: Vec<String> = Vec::new();
    let mut i: usize = 0;
    assert(v@.skip(0) =~= v@);
    assert(views(out@) + words(v@) =~= words(v@));
    while i < n
        invariant
            n == v@.len(),
            i <= n,
            views(out@) + words(v@.skip(i as int)) == words(v@),
        decreases n - i,
    {
        let ghost rest = v@.skip(i as int);
        assert(rest[0] == v@[i as int]);
        if is_whitespace(v[i]) {
            assert(rest.drop_first() =~= v@.skip(i + 1));
            i = i + 1;
        } else {
            let mut j: usize = i + 1;
            while j < n && !is_whitespace(v[j])
                invariant_except_break
                    forall|k: int| i <= k < j ==> !whitespace(#[trigger] v@[k]),
                invariant
                    n == v@.len(),
                    i < j <= n,
                ensures
                    forall|k: int| i <= k < j ==> !whitespace(#[trigger] v@[k]),
                    j < n ==> whitespace(v@[j as int]),
                decreases n - j,
            {
                j = j + 1;
            }
            let w = text_of(&v, i, j);
            proof {
                lemma_word_len_at(v@, i as int, j as int);
                assert(rest.take(j - i) =~= v@.subrange(i as int, j as int));
                assert(rest.skip(j - i) =~= v@.skip(j as int));
                assert(views(out@.push(w)) =~= views(out@).push(w@));
                assert(views(out@) + words(rest) =~= views(out@.push(w)) + words(
                    v@.skip(j as int),
                ));
            }
            out.push(w);
            i = j;
        }
    }
    assert(v@.skip(n as int) =~= Seq::<char>::empty());
    assert(views(out@) + words(v@.skip(n as int)) =~= views(out@));
    out
}

/// Whether `p` occurs in `s` at position `i`.
pub open spec fn occurs_at(s: Seq<char>, p: Seq<char>, i: int) -> bool {
    0 <= i && i + p.len() <= s.len() && s.subrange(i, i + p.len()) == p
}

/// Whether `p` occurs somewhere in `s`.
pub open spec fn has_infix(s: Seq<char>, p: Seq<char>) -> bool {
    exists|i: int| occurs_at(s, p, i)
}

fn matches_at(v: &Vec<char>, p: &Vec<char>, i: usize) -> (r: bool)
    requires
        i <= v@.len(),
    ensures
        r == occurs_at(v@, p@, i as int),
{
    let n: usize = v.len();
    if p.len() > n - i {
        return false;
    }
    let mut k: usize = 0;
    while k < p.len()
        invariant
            n == v@.len(),
            i + p@.len() <= n,
            k <= p@.len(),
            forall|j: int| 0 <= j < k ==> v@[i + j] == p@[j],
        decreases p@.len() - k,
    {
        if v[i + k] != p[k] {
            proof {
                if occurs_at(v@, p@, i as int) {
                    assert(v@.subrange(i as int, i + p@.len())[k as int] == p@[k as int]);
                }
            }
            return false;
        }
        k = k + 1;
    }
    assert(v@.subrange(i as int, i + p@.len()) =~= p@);
    true
}

/// Whether `p` occurs somewhere in `s`.
pub fn contains(s: &str, p: &str) -> (r: bool)
    ensures
        r == has_infix(s@, p@),
{
    let v = chars_of(s);
    let q = chars_of(p);
    let mut i: usize = 0;
    while i < v.len()
        invariant
            v@ == s@,
            q@ == p@,
            i <= v@.len(),
            forall|j: int| 0 <= j < i ==> !#[trigger] occurs_at(s@, p@, j),
        decreases v@.len() - i,
    {
        if matches_at(&v, &q, i) {
            return true;
        }
        i = i + 1;
    }
    matches_at(&v, &q, i)
}

/// Whether `s` begins with `p`.
pub fn starts_with(s: &str, p: &str) -> (r: bool)
    ensures
        r == p@.is_prefix_of(s@),
{
    let v = chars_of(s);
    let q = chars_of(p);
    matches_at(&v, &q, 0)
}

/// What follows the prefix `p` in `s`, if `s` begins with it.
pub open spec fn after_prefix(s: Seq<char>, p: Seq<char>) -> Option<Seq<char>> {
    if p.is_prefix_of(s) {
        Some(s.skip(p.len() as int))
    } else {
        None
    }
}

/// What follows the prefix `p` in `s`, if `s` begins with it.
pub fn strip_prefix(s: &str, p: &str) -> (r: Option<String>)
    ensures
        match r {
            Some(t) => after_prefix(s@, p@) == Some(t@),
            None => after_prefix(s@, p@) is None,
        },
{
    let v = chars_of(s);
    let q = chars_of(p);
    if matches_at(&v, &q, 0) {
        let t = text_of(&v, q.len(), v.len());
        assert(t@ =~= s@.skip(p@.len() as int));
        Some(t)
    } else {
        None
    }
}

/// The part of `s` after its last `/`; all of `s` when it has none.
pub open spec fn tail_segment(s: Seq<char>) -> Seq<char>
    decreases s.len(),
{
    if s.len() == 0 || s.last() == '/' {
        Seq::empty()
    } else {
        tail_segment(s.drop_last()).push(s.last())
    }
}

/// The part of `s` after its last `/`; all of `s` when it has none.
pub fn last_segment(s: &str) -> (r: String)
    ensures
        r@ == tail_segment(s@),
{
    let v = chars_of(s);
    let n: usize = v.len();
    let mut i: usize = n;
    assert(v@.take(n as int) =~= v@);
    assert(tail_segment(v@) =~= tail_segment(v@.take(n as int)) + v@.subrange(n as int, n as int));
    while i > 0 && v[i - 1] != '/'
        invariant_except_break
            tail_segment(v@) == tail_segment(v@.take(i as int)) + v@.subrange(i as int, n as int),
        invariant
            n == v@.len(),
            i <= n,
        ensures
            tail_segment(v@) == v@.subrange(i as int, n as int),
        decreases i,
    {
        let ghost cur = v@.take(i as int);
        assert(cur.last() == v@[i - 1]);
        assert(cur.drop_last() =~= v@.take(i - 1));
        assert(tail_segment(v@) =~= tail_segment(v@.take(i - 1)) + v@.subrange(i - 1, n as int));
        i = i - 1;
    }
    text_of(&v, i, n)
}

/// The decimal digit `d`.
pub open spec fn digit_char(d: nat) -> char {
    ((d % 10) + 48) as char
}

/// The decimal text of `n`, without leading zeros.
pub open spec fn decimal(n: nat) -> Seq<char>
    decreases n,
{
    if n < 10 {
        seq![digit_char(n)]
    } else {
        decimal(n / 10).push(digit_char(n % 10))
    }
}

/// The decimal text of `n`, with a leading `-` when it is negative.
pub open spec fn signed_decimal(n: int) -> Seq<char> {
    if n < 0 {
        seq!['-'] + decimal((-n) as nat)
    } else {
        decimal(n as nat)
    }
}

fn digit(d: u64) -> (c: char)
    requires
        d < 10,
    ensures
        c == digit_char(d as nat),
{
    match d {
        0 => '0',
        1 => '1',
        2 => '2',
        3 => '3',
        4 => '4',
        5 => '5',
        6 => '6',
        7 => '7',
        8 => '8',
        _ => '9',
    }
}

/// The decimal text of `n`.
pub fn decimal_text(n: u64) -> (r: String)
    ensures
        r@ == decimal(n as nat),
    decreases n,
{
    if n < 10 {
        let mut s = String::new();
        s.push(digit(n));
        assert(s@ =~= decimal(n as nat));
        s
    } else {
        let mut s = decimal_text(n / 10);
        s.push(digit(n % 10));
        s
    }
}

/// The decimal text of `n`, with a leading `-` when it is negative.
pub fn signed_text(n: i64) -> (r: String)
    ensures
        r@ == signed_decimal(n as int),
{
    if n >= 0 {
        decimal_text(n as u64)
    } else {
        let m: u64 = (-(n + 1)) as u64 + 1;
        let mut s = String::new();
        s.push('-');
        s.append(decimal_text(m).as_str());
        assert(s@ =~= signed_decimal(n as int));
        s
    }
}

/// The value of a run of decimal digits, most significant first.
pub open spec fn digits_value(s: Seq<char>) -> int
    decreases s.len(),
{
    if s.len() == 0 {
        0
    } else {
        digits_value(s.drop_last()) * 10 + (s.last() as u32 - 48)
    }
}

/// Whether `s` is one or more decimal digits.
pub open spec fn all_digits(s: Seq<char>) -> bool {
    s.len() > 0 && forall|i: int| 0 <= i < s.len() ==> ascii_digit(#[trigger] s[i])
}

/// The 64-bit signed integer that `s` writes in decimal, with an optional sign.
pub open spec fn integer_of(s: Seq<char>) -> Option<int> {
    let negative = s.len() > 0 && s[0] == '-';
    let signed = negative || (s.len() > 0 && s[0] == '+');
    let body = if signed {
        s.skip(1)
    } else {
        s
    };
    let value = if negative {
        -digits_value(body)
    } else {
        digits_value(body)
    };
    if all_digits(body) && i64::MIN <= value <= i64::MAX {
        Some(value)
    } else {
        None
    }
}

proof fn lemma_digits_grow(s: Seq<char>, i: int, j: int)
    requires
        0 <= i <= j <= s.len(),
        forall|k: int| 0 <= k < s.len() ==> ascii_digit(#[trigger] s[k]),
    ensures
        0 <= digits_value(s.take(i)) <= digits_value(s.take(j)),
    decreases j,
{
    if j == 0 {
    } else if i == j {
        lemma_digits_grow(s, i - 1, j - 1);
        assert(s.take(j).drop_last() =~= s.take(j - 1));
        assert(ascii_digit(s[j - 1]));
    } else {
        lemma_digits_grow(s, i, j - 1);
        assert(s.take(j).drop_last() =~= s.take(j - 1));
        assert(ascii_digit(s[j - 1]));
    }
}

/// The 64-bit signed integer that `s` writes in decimal, with an optional sign.
pub fn parse_integer(s: &str) -> (r: Option<i64>)
    ensures
        match r {
            Some(n) => integer_of(s@) == Some(n as int),
            None => integer_of(s@) is None,
        },
{
    let v = chars_of(s);
    let n: usize = v.len();
    let negative = n > 0 && v[0] == '-';
    let signed = negative || (n > 0 && v[0] == '+');
    let start: usize = if signed {
        1
    } else {
        0
    };
    let ghost body = v@.skip(start as int);
    assert(signed ==> body =~= s@.skip(1));
    assert(!signed ==> body =~= s@);
    if start == n {
        return None;
    }
    let mut i: usize = start;
    while i < n
        invariant
            n == v@.len(),
            start <= i <= n,
            body == v@.skip(start as int),
            integer_of(s@) is Some ==> all_digits(body),
            forall|k: int| 0 <= k < i - start ==> ascii_digit(#[trigger] body[k]),
        decreases n - i,
    {
        if !('0' <= v[i] && v[i] <= '9') {
            assert(!ascii_digit(body[i - start]));
            return None;
        }
        i = i + 1;
    }
    assert(all_digits(body));
    let limit: u64 = if negative {
        0x8000_0000_0000_0000
    } else {
        0x7fff_ffff_ffff_ffff
    };
    let mut value: u64 = 0;
    i = start;
    assert(body.take(0) =~= Seq::<char>::empty());
    while i < n
        invariant
            n == v@.len(),
            start <= i <= n,
            body == v@.skip(start as int),
            all_digits(body),
            value as int == digits_value(body.take(i - start)),
            value <= limit,
            0x7fff_ffff_ffff_ffff <= limit <= 0x8000_0000_0000_0000,
            integer_of(s@) is Some ==> digits_value(body) <= limit,
        decreases n - i,
    {
        assert(ascii_digit(body[i - start]));
        assert(body[i - start] == v@[i as int]);
        let d: u64 = v[i] as u64 - 48;
        proof {
            assert(body.take(i - start + 1).drop_last() =~= body.take(i - start));
            lemma_digits_grow(body, i - start + 1, body.len() as int);
            assert(body.take(body.len() as int) =~= body);
        }
        if value > (limit - d) / 10 {
            proof {
                assert(value * 10 + d > limit);
            }
            return None;
        }
        value = value * 10 + d;
        i = i + 1;
    }
    assert(body.take(body.len() as int) =~= body);
    if negative {
        if value == 0x8000_0000_0000_0000 {
            Some(i64::MIN)
        } else {
            Some(-(value as i64))
        }
    } else {
        Some(value as i64)
    }
}

/// The pieces of `parts` with `sep` between neighbours.
pub open spec fn joined(parts: Seq<Seq<char>>, sep: Seq<char>) -> Seq<char>
    decreases parts.len(),
{
    if parts.len() == 0 {
        Seq::empty()
    } else if parts.len() == 1 {
        parts[0]
    } else {
        joined(parts.drop_last(), sep) + sep + parts.last()
    }
}

/// The pieces of `parts` with `sep` between neighbours.
pub fn join(parts: &Vec<String>, sep: &str) -> (r: String)
    ensures
        r@ == joined(views(parts@), sep@),
{
    let mut s = String::new();
    let mut i: usize = 0;
    assert(views(parts@).take(0) =~= Seq::<Seq<char>>::empty());
    while i < parts.len()
        invariant
            i <= parts@.len(),
            s@ == joined(views(parts@).take(i as int), sep@),
        decreases parts@.len() - i,
    {
        proof {
            let next = views(parts@).take(i + 1);
            assert(next.drop_last() =~= views(parts@).take(i as int));
            assert(next.last() == parts@[i as int]@);
        }
        if i > 0 {
            s.append(sep);
        }
        s.append(parts[i].as_str());
        assert(i == 0 ==> s@ =~= parts@[0]@);
        i = i + 1;
    }
    assert(views(parts@).take(parts@.len() as int) =~= views(parts@));
    s
}

/// Whether `s` is one of `list`.
pub fn listed(list: &Vec<String>, s: &str) -> (r: bool)
    ensures
        r == views(list@).contains(s@),
{
    let mut i: usize = 0;
    while i < list.len()
        invariant
            i <= list@.len(),
            forall|j: int| 0 <= j < i ==> list@[j]@ != s@,
        decreases list@.len() - i,
    {
        if same(list[i].as_str(), s) {
            assert(views(list@)[i as int] == s@);
            return true;
        }
        i = i + 1;
    }
    proof {
        if views(list@).contains(s@) {
            let j = choose|j: int| 0 <= j < views(list@).len() && views(list@)[j] == s@;
            assert(list@[j]@ == s@);
        }
    }
    false
}

/// `a` followed by `b`.
pub fn cat(a: &str, b: &str) -> (r: String)
    ensures
        r@ == a@ + b@,
{
    let mut s = a.to_owned();
    s.append(b);
    s
}

/// The first `n` characters of `s`, or all of them when there are no more.
pub open spec fn prefix_chars(s: Seq<char>, n: nat) -> Seq<char> {
    if s.len() > n {
        s.take(n as int)
    } else {
        s
    }
}

/// The first `n` characters of `s`, or all of them when there are no more.
pub fn head(s: &str, n: usize) -> (r: String)
    ensures
        r@ == prefix_chars(s@, n as nat),
{
    let v = chars_of(s);
    if v.len() > n {
        let r = text_of(&v, 0, n);
        assert(r@ =~= s@.take(n as int));
        r
    } else {
        let r = text_of(&v, 0, v.len());
        assert(r@ =~= s@);
        r
    }
}

/// The number of bytes of `s` in UTF-8.
pub open spec fn byte_length(s: Seq<char>) -> nat {
    encode_utf8(s).len()
}

/// The number of bytes of `s` in UTF-8.
pub fn byte_len(s: &str) -> (r: usize)
    ensures
        r as nat == byte_length(s@),
{
    s.as_bytes().len()
}

/// The texts, each between quotes with its escapes.
pub open spec fn quoted_each(list: Seq<Seq<char>>) -> Seq<Seq<char>> {
    list.map_values(|s: Seq<char>| debug_quoted(s))
}

/// A list of texts as a diagnostic shows it: quoted, separated by commas, in brackets.
pub open spec fn debug_list(list: Seq<Seq<char>>) -> Seq<char> {
    "["@ + joined(quoted_each(list), ", "@) + "]"@
}

/// A list of texts as a diagnostic shows it.
pub fn debug_list_text(list: &Vec<String>) -> (r: String)
    ensures
        r@ == debug_list(views(list@)),
{
    let mut parts: Vec<String> = Vec::new();
    let mut i: usize = 0;
    while i < list.len()
        invariant
            i <= list@.len(),
            parts@.len() == i,
            forall|k: int| 0 <= k < i ==> (#[trigger] parts@[k])@ == debug_quoted(list@[k]@),
        decreases list@.len() - i,
    {
        parts.push(debug_text(list[i].as_str()));
        i = i + 1;
    }
    assert(views(parts@) =~= quoted_each(views(list@)));
    let mut out = cat("[", join(&parts, ", ").as_str());
    out.append("]");
    out
}

/// Whether two lists hold the same texts in the same order.
pub fn same_list(a: &Vec<String>, b: &Vec<String>) -> (r: bool)
    ensures
        r == (views(a@) == views(b@)),
{
    if a.len() != b.len() {
        assert(views(a@).len() != views(b@).len());
        return false;
    }
    let mut i: usize = 0;
    while i < a.len()
        invariant
            i <= a@.len(),
            a@.len() == b@.len(),
            forall|k: int| 0 <= k < i ==> (#[trigger] a@[k])@ == b@[k]@,
        decreases a@.len() - i,
    {
        if !same(a[i].as_str(), b[i].as_str()) {
            assert(views(a@)[i as int] != views(b@)[i as int]);
            return false;
        }
        i = i + 1;
    }
    assert(views(a@) =~= views(b@));
    true
}

/// Whether two lists hold the same texts, each as often, in whatever order.
pub fn same_texts(a: &Vec<String>, b: &Vec<String>) -> (r: bool)
    ensures
        r == (views(a@).to_multiset() == views(b@).to_multiset()),
{
    broadcast use vstd::seq_lib::group_to_multiset_ensures;

    let ghost all_a = views(a@);
    let ghost all_b = views(b@);
    if a.len() != b.len() {
        assert(all_a.to_multiset().len() != all_b.to_multiset().len());
        return false;
    }
    let mut rest: Vec<&String> = Vec::new();
    let mut k: usize = 0;
    while k < b.len()
        invariant
            k <= b@.len(),
            rest@.len() == k,
            forall|i: int| 0 <= i < k ==> (#[trigger] rest@[i])@ == b@[i]@,
        decreases b@.len() - k,
    {
        rest.push(&b[k]);
        k = k + 1;
    }
    let ghost mut left = all_b;
    assert(all_a.take(0) =~= Seq::empty());
    assert(all_a.take(0).to_multiset().add(left.to_multiset()) =~= all_b.to_multiset());
    let mut i: usize = 0;
    while i < a.len()
        invariant
            i <= a@.len(),
            all_a == views(a@),
            all_b == views(b@),
            rest@.len() == left.len(),
            left.len() == a@.len() - i,
            forall|j: int| 0 <= j < left.len() ==> (#[trigger] rest@[j])@ == left[j],
            all_a.take(i as int).to_multiset().add(left.to_multiset()) == all_b.to_multiset(),
        decreases a@.len() - i,
    {
        let ghost x = a@[i as int]@;
        assert(all_a[i as int] == x);
        let mut j: usize = 0;
        while j < rest.len() && !same(rest[j].as_str(), a[i].as_str())
            invariant
                i < a@.len(),
                x == a@[i as int]@,
                j <= rest@.len(),
                rest@.len() == left.len(),
                forall|m: int| 0 <= m < left.len() ==> (#[trigger] rest@[m])@ == left[m],
                forall|m: int| 0 <= m < j ==> #[trigger] left[m] != x,
            ensures
                j <= rest@.len(),
                j < rest@.len() ==> left[j as int] == x,
                j == rest@.len() ==> !left.contains(x),
            decreases rest@.len() - j,
        {
            assert(rest@[j as int]@ == left[j as int]);
            j = j + 1;
        }
        proof {
            left.to_multiset_ensures();
            all_a.take(i as int).to_multiset_ensures();
        }
        assert(all_a.take(i + 1) =~= all_a.take(i as int).push(x));
        if j == rest.len() {
            proof {
                assert(left.to_multiset().count(x) == 0);
                assert(all_b.to_multiset().count(x) == all_a.take(i as int).to_multiset().count(x));
                assert(all_a =~= all_a.take(i + 1) + all_a.skip(i + 1));
                vstd::seq_lib::lemma_multiset_commutative(all_a.take(i + 1), all_a.skip(i + 1));
                assert(all_a.to_multiset().count(x) > all_b.to_multiset().count(x));
            }
            return false;
        }
        proof {
            assert(left.contains(x));
            assert(left.remove(j as int).to_multiset() =~= left.to_multiset().remove(x));
            assert(all_a.take(i + 1).to_multiset().add(left.remove(j as int).to_multiset())
                =~= all_a.take(i as int).to_multiset().add(left.to_multiset()));
            left = left.remove(j as int);
        }
        let _taken = rest.remove(j);
        i = i + 1;
    }
    proof {
        assert(all_a.take(a@.len() as int) =~= all_a);
        assert(left =~= Seq::empty());
        assert(all_a.to_multiset().add(left.to_multiset()) =~= all_a.to_multiset());
    }
    true
}

/// The number of characters of `s` before its first line feed.
pub open spec fn line_len(s: Seq<char>) -> nat
    decreases s.len(),
{
    if s.len() == 0 || s[0] == '\n' {
        0
    } else {
        1 + line_len(s.drop_first())
    }
}

/// `s` without the carriage return at its end, if there is one.
pub open spec fn without_return(s: Seq<char>) -> Seq<char> {
    if s.len() > 0 && s.last() == '\r' {
        s.drop_last()
    } else {
        s
    }
}

/// The lines of `s`: each ends at a line feed, with the carriage return before it if there is
/// one; the last one may end with the text.
pub open spec fn lines(s: Seq<char>) -> Seq<Seq<char>>
    decreases s.len(),
{
    if s.len() == 0 {
        Seq::empty()
    } else if line_len(s) >= s.len() {
        seq![s]
    } else {
        seq![without_return(s.take(line_len(s) as int))] + lines(s.skip(line_len(s) as int + 1))
    }
}

proof fn lemma_line_len_is(s: Seq<char>, n: nat)
    requires
        n <= s.len(),
        forall|i: int| 0 <= i < n ==> s[i] != '\n',
        n == s.len() || s[n as int] == '\n',
    ensures
        line_len(s) == n,
    decreases n,
{
    if n > 0 {
        let t = s.drop_first();
        assert forall|i: int| 0 <= i < n - 1 implies t[i] != '\n' by {
            assert(t[i] == s[i + 1]);
        }
        if n < s.len() {
            assert(t[n - 1] == s[n as int]);
        }
        lemma_line_len_is(t, (n - 1) as nat);
    }
}

/// The lines of `s`.
pub fn lines_of(s: &str) -> (r: Vec<String>)
    ensures
        views(r@) == lines(s@),
{
    let v = chars_of(s);
    let n: usize = v.len();
    let ghost all = v@;
    let mut out: Vec<String> = Vec::new();
    let mut i: usize = 0;
    assert(all.skip(0) =~= all);
    assert(views(out@) + lines(all.skip(0)) =~= lines(all));
    while i < n
        invariant
            all == v@,
            n == v@.len(),
            i <= n,
            views(out@) + lines(all.skip(i as int)) == lines(all),
        decreases n - i,
    {
        let ghost rest = all.skip(i as int);
        let mut j: usize = i;
        while j < n && v[j] != '\n'
            invariant
                n == v@.len(),
                i <= j <= n,
                forall|k: int| i <= k < j ==> v@[k] != '\n',
            ensures
                i <= j <= n,
                forall|k: int| i <= k < j ==> v@[k] != '\n',
                j == n || v@[j as int] == '\n',
            decreases n - j,
        {
            j = j + 1;
        }
        proof {
            assert forall|k: int| 0 <= k < j - i implies rest[k] != '\n' by {
                assert(rest[k] == v@[i + k]);
            }
            lemma_line_len_is(rest, (j - i) as nat);
        }
        let ghost before = views(out@);
        if j == n {
            out.push(text_of(&v, i, n));
            proof {
                assert(v@.subrange(i as int, n as int) =~= rest);
                assert(views(out@) =~= before.push(rest));
                assert(lines(rest) =~= seq![rest]);
                assert(all.skip(n as int) =~= Seq::empty());
                assert(lines(all.skip(n as int)) =~= Seq::empty());
                assert(views(out@) + lines(all.skip(n as int)) =~= before + lines(rest));
            }
            i = n;
        } else {
            let end: usize = if j > i && v[j - 1] == '\r' {
                j - 1
            } else {
                j
            };
            out.push(text_of(&v, i, end));
            proof {
                let line = rest.take(j - i);
                assert(line =~= v@.subrange(i as int, j as int));
                if j > i {
                    assert(line.last() == v@[j - 1]);
                }
                assert(without_return(line) =~= v@.subrange(i as int, end as int));
                assert(views(out@) =~= before.push(without_return(line)));
                assert(rest.skip(j - i + 1) =~= all.skip(j + 1));
                assert(lines(rest) =~= seq![without_return(line)] + lines(all.skip(j + 1)));
                assert(views(out@) + lines(all.skip(j + 1)) =~= before + lines(rest));
            }
            i = j + 1;
        }
    }
    assert(all.skip(n as int) =~= Seq::empty());
    assert(views(out@) + lines(all.skip(n as int)) =~= views(out@));
    out
}

// ── Laws ────────────────────────────────────────────────────────────────────

/// A list of texts by its contents holds the same texts in the same order.
pub proof fn views_keep_the_texts(v: Seq<String>, i: int)
    ensures
        views(v).len() == v.len(),
        0 <= i < v.len() ==> views(v)[i] == v[i]@,
{
}

/// A text of ASCII characters has as many bytes as characters.
pub proof fn ascii_bytes(s: Seq<char>)
    requires
        vstd::utf8::is_ascii_chars(s),
    ensures
        byte_length(s) == s.len(),
{
    vstd::utf8::is_ascii_chars_encode_utf8(s);
}

/// Whether `t` is `s` from position `i` on, with nothing but whitespace around it.
pub open spec fn trims_to(s: Seq<char>, t: Seq<char>, i: int) -> bool {
    &&& 0 <= i
    &&& i + t.len() <= s.len()
    &&& s.subrange(i, i + t.len()) == t
    &&& forall|k: int|
        0 <= k < s.len() && !(i <= k < i + t.len()) ==> whitespace(#[trigger] s[k])
}

/// Trimming takes the whitespace off both ends and nothing else.
pub proof fn trimming_takes_whitespace_off_the_ends(s: Seq<char>)
    ensures
        exists|i: int| trims_to(s, trimmed(s), i),
        trimmed(s).len() > 0 ==> !whitespace(trimmed(s)[0]) && !whitespace(trimmed(s).last()),
    decreases s.len(),
{
    if s.len() > 0 && whitespace(s[0]) {
        let rest = s.drop_first();
        trimming_takes_whitespace_off_the_ends(rest);
        let t = trimmed(rest);
        let j = choose|j: int| trims_to(rest, t, j);
        assert(s.subrange(j + 1, j + 1 + t.len()) =~= rest.subrange(j, j + t.len()));
        assert forall|k: int|
            0 <= k < s.len() && !(j + 1 <= k < j + 1 + t.len()) implies whitespace(
            #[trigger] s[k],
        ) by {
            if k > 0 {
                assert(rest[k - 1] == s[k]);
            }
        }
        assert(trimmed(s) == t);
        assert(trims_to(s, trimmed(s), j + 1));
    } else if s.len() > 0 && whitespace(s.last()) {
        let rest = s.drop_last();
        trimming_takes_whitespace_off_the_ends(rest);
        let t = trimmed(rest);
        let j = choose|j: int| trims_to(rest, t, j);
        assert(s.subrange(j, j + t.len()) =~= rest.subrange(j, j + t.len()));
        assert forall|k: int|
            0 <= k < s.len() && !(j <= k < j + t.len()) implies whitespace(#[trigger] s[k]) by {
            if k < rest.len() {
                assert(rest[k] == s[k]);
            }
        }
        assert(trimmed(s) == t);
        assert(trims_to(s, trimmed(s), j));
    } else {
        assert(s.subrange(0, s.len() as int) =~= s);
        assert(trimmed(s) == s);
        assert(trims_to(s, trimmed(s), 0));
    }
}

/// The tail of a path is what follows its last slash, or all of it when there is none.
pub proof fn the_tail_follows_the_last_slash(s: Seq<char>)
    ensures
        ({
            let t = tail_segment(s);
            &&& t.len() <= s.len()
            &&& t == s.skip(s.len() - t.len())
            &&& !t.contains('/')
            &&& t.len() < s.len() ==> s[s.len() - t.len() - 1] == '/'
        }),
    decreases s.len(),
{
    let t = tail_segment(s);
    if s.len() == 0 || s.last() == '/' {
        assert(t =~= s.skip(s.len() as int));
    } else {
        let rest = s.drop_last();
        the_tail_follows_the_last_slash(rest);
        let u = tail_segment(rest);
        assert(t =~= s.skip(s.len() - t.len()));
        if t.contains('/') {
            let k = choose|k: int| 0 <= k < t.len() && t[k] == '/';
            if k < u.len() {
                assert(u[k] == '/');
                assert(u.contains('/'));
            }
        }
    }
}

proof fn lemma_decimal_value(n: nat)
    ensures
        all_digits(decimal(n)),
        digits_value(decimal(n)) == n,
    decreases n,
{
    if n < 10 {
        assert(decimal(n).drop_last() =~= Seq::<char>::empty());
        assert(digits_value(decimal(n).drop_last()) == 0);
        assert(decimal(n).last() == digit_char(n));
    } else {
        lemma_decimal_value(n / 10);
        let d = decimal(n);
        assert(d.drop_last() =~= decimal(n / 10));
        assert(d.last() == digit_char(n % 10));
        assert forall|i: int| 0 <= i < d.len() implies ascii_digit(#[trigger] d[i]) by {
            if i < d.len() - 1 {
                assert(d[i] == decimal(n / 10)[i]);
            }
        }
    }
}

/// A number that is written down reads back as the same number.
pub proof fn a_number_reads_back(n: i64)
    ensures
        integer_of(signed_decimal(n as int)) == Some(n as int),
{
    if n < 0 {
        let m = (-(n as int)) as nat;
        lemma_decimal_value(m);
        let s = seq!['-'] + decimal(m);
        assert(s.skip(1) =~= decimal(m));
    } else {
        lemma_decimal_value(n as nat);
        let s = decimal(n as nat);
        assert(ascii_digit(s[0]));
    }
}

/// The words of a text are what stands between its whitespace: a word, whitespace and the rest are
/// that word and the words of the rest.
pub proof fn words_stand_between_whitespace(w: Seq<char>, c: char, rest: Seq<char>)
    requires
        w.len() > 0,
        forall|i: int| 0 <= i < w.len() ==> !whitespace(#[trigger] w[i]),
        whitespace(c),
    ensures
        words(w.push(c) + rest) == seq![w] + words(rest),
        words(w) == seq![w],
        words(seq![c] + rest) == words(rest),
{
    let s = w.push(c) + rest;
    assert forall|i: int| 0 <= i < w.len() implies !whitespace(#[trigger] s[i]) by {
        assert(s[i] == w[i]);
    }
    assert(s[w.len() as int] == c);
    lemma_word_len_at(s, 0, w.len() as int);
    assert(s.skip(0) =~= s);
    assert(s.take(w.len() as int) =~= w);
    let more = s.skip(w.len() as int);
    assert(more[0] == c);
    assert(more.drop_first() =~= rest);
    assert(words(more) == words(rest));
    assert(s[0] == w[0]);
    assert(words(s) == seq![w] + words(more));
    lemma_word_len_at(w, 0, w.len() as int);
    assert(w.skip(0) =~= w);
    assert(w.take(w.len() as int) =~= w);
    assert(words(w.skip(w.len() as int)).len() == 0);
    assert(words(w) =~= seq![w]);
    assert((seq![c] + rest).drop_first() =~= rest);
}

/// The lines of a text end at its line breaks, a carriage return before one belonging to it.
pub proof fn lines_end_at_line_breaks(l: Seq<char>, rest: Seq<char>)
    requires
        forall|i: int| 0 <= i < l.len() ==> (#[trigger] l[i]) != '\n',
    ensures
        lines(l.push('\n') + rest) == seq![without_return(l)] + lines(rest),
        l.len() > 0 ==> lines(l) == seq![l],
        l.len() > 0 && l.last() == '\r' ==> without_return(l) == l.drop_last(),
        l.len() == 0 || l.last() != '\r' ==> without_return(l) == l,
{
    let s = l.push('\n') + rest;
    assert forall|i: int| 0 <= i < l.len() implies s[i] != '\n' by {
        assert(s[i] == l[i]);
    }
    lemma_line_len_is(s, l.len());
    assert(s.take(l.len() as int) =~= l);
    assert(s.skip(l.len() as int + 1) =~= rest);
    lemma_line_len_is(l, l.len());
}

/// Parts are joined in their order, with the separator between each two of them.
pub proof fn parts_are_joined_in_order(parts: Seq<Seq<char>>, x: Seq<char>, sep: Seq<char>)
    ensures
        joined(Seq::<Seq<char>>::empty(), sep).len() == 0,
        joined(seq![x], sep) == x,
        parts.len() > 0 ==> joined(parts.push(x), sep) == joined(parts, sep) + sep + x,
{
    assert(parts.push(x).drop_last() =~= parts);
    assert(parts.push(x).last() == x);
}

/// A text that is cut is its beginning, and one that fits is not cut.
pub proof fn a_cut_text_is_its_beginning(s: Seq<char>, n: nat)
    ensures
        s.len() <= n ==> prefix_chars(s, n) == s,
        s.len() > n ==> prefix_chars(s, n).len() == n && prefix_chars(s, n) == s.take(n as int),
{
}

}
