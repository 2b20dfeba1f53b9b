//! Note identifiers, content digests and timestamps.

use vstd::prelude::*;
use vstd::string::*;

use sha2::Digest;

use crate::text;

verus! {

// ── ULIDs ───────────────────────────────────────────────────────────────────

/// The value of a Crockford base-32 character, upper or lower case.
///
/// The letters `I`, `L`, `O` and `U` have none.
pub open spec fn crockford(c: char) -> Option<nat> {
    let u = text::ascii_raise(c);
    if text::ascii_digit(u) {
        Some((u as u32 - 48) as nat)
    } else if 'A' <= u && u <= 'H' {
        Some((u as u32 - 65 + 10) as nat)
    } else if 'J' <= u && u <= 'K' {
        Some((u as u32 - 74 + 18) as nat)
    } else if 'M' <= u && u <= 'N' {
        Some((u as u32 - 77 + 20) as nat)
    } else if 'P' <= u && u <= 'T' {
        Some((u as u32 - 80 + 22) as nat)
    } else if 'V' <= u && u <= 'Z' {
        Some((u as u32 - 86 + 27) as nat)
    } else {
        None
    }
}

/// The upper-case Crockford base-32 character of value `d`.
pub open spec fn crockford_char(d: nat) -> char {
    if d < 10 {
        (d + 48) as char
    } else if d < 18 {
        (d - 10 + 65) as char
    } else if d < 20 {
        (d - 18 + 74) as char
    } else if d < 22 {
        (d - 20 + 77) as char
    } else if d < 27 {
        (d - 22 + 80) as char
    } else {
        (d - 27 + 86) as char
    }
}

/// Whether `s` is the text of a ULID: twenty-six Crockford base-32 characters.
pub open spec fn is_ulid(s: Seq<char>) -> bool {
    s.len() == 26 && forall|i: int| 0 <= i < s.len() ==> (#[trigger] crockford(s[i])) is Some
}

/// The number of different 128-bit values.
pub open spec fn two_128() -> nat {
    (u128::MAX + 1) as nat
}

/// The 128-bit value that base-32 text stands for; bits above the 128th are lost.
pub open spec fn base32_value(s: Seq<char>) -> nat
    decreases s.len(),
{
    if s.len() == 0 {
        0
    } else {
        (base32_value(s.drop_last()) * 32 + crockford(s.last())->0) % two_128()
    }
}

/// The last `n` base-32 digits of `v`, as text.
pub open spec fn base32_text(v: nat, n: nat) -> Seq<char>
    decreases n,
{
    if n == 0 {
        Seq::empty()
    } else {
        base32_text(v / 32, (n - 1) as nat).push(crockford_char(v % 32))
    }
}

/// The text of the ULID of value `v`.
pub open spec fn ulid_text(v: nat) -> Seq<char> {
    base32_text(v, 26)
}

/// What is wrong with a text that is no ULID.
#[derive(Debug, Clone, Copy, PartialEq, Eq, Structural)]
pub enum UlidFault {
    /// It does not have twenty-six bytes.
    Length,
    /// One of its bytes is no base-32 character.
    Character,
}

/// Calls `ulid::Ulid::from_string`.
///
/// Claimed: the text is accepted exactly when it is twenty-six Crockford base-32
/// characters, and the value is then the one that they write; a text of another length in
/// bytes is refused for its length, any other for its characters.
#[verifier::external_body]
pub(crate) fn decode_ulid(s: &str) -> (r: Result<u128, UlidFault>)
    ensures
        match r {
            Ok(v) => is_ulid(s@) && v as nat == base32_value(s@),
            Err(UlidFault::Length) => !is_ulid(s@) && text::byte_length(s@) != 26,
            Err(UlidFault::Character) => !is_ulid(s@) && text::byte_length(s@) == 26,
        },
{
    match ulid::Ulid::from_string(s) {
        Ok(u) => Ok(u.0),
        Err(ulid::DecodeError::InvalidLength) => Err(UlidFault::Length),
        Err(ulid::DecodeError::InvalidChar) => Err(UlidFault::Character),
    }
}

/// Calls `ulid::Ulid::to_string`.
///
/// Claimed: the text is the twenty-six upper-case base-32 digits of the value.
#[verifier::external_body]
pub(crate) fn encode_ulid(v: u128) -> (r: String)
    ensures
        r@ == ulid_text(v as nat),
{
    ulid::Ulid(v).to_string()
}

/// Calls `ulid::Ulid::generate`, which draws on the clock and on chance: any value may come.
#[verifier::external_body]
pub(crate) fn generate_ulid() -> u128 {
    ulid::Ulid::generate().0
}

/// What is wrong with a text that is no ULID: its length, else its characters.
pub open spec fn ulid_problem(s: Seq<char>) -> Seq<char> {
    if text::byte_length(s) != 26 {
        "invalid length"@
    } else {
        "invalid character"@
    }
}

/// The identifier of a note: the value of a ULID.
#[derive(Debug, Clone, Copy, PartialEq, Eq, Structural)]
pub struct NoteId {
    pub value: u128,
}

impl View for NoteId {
    type V = Seq<char>;

    open spec fn view(&self) -> Seq<char> {
        ulid_text(self.value as nat)
    }
}

impl NoteId {
    /// The identifier that `s` writes, if `s` is a ULID.
    pub fn parse(s: &str) -> (r: Option<NoteId>)
        ensures
            r is Some <==> is_ulid(s@),
            r matches Some(id) ==> id.value as nat == base32_value(s@),
    {
        match decode_ulid(s) {
            Ok(value) => Some(NoteId { value }),
            Err(_) => None,
        }
    }

    /// The identifier that `s` writes, or what is wrong with it.
    pub fn read(s: &str) -> (r: Result<NoteId, String>)
        ensures
            match r {
                Ok(id) => is_ulid(s@) && id.value as nat == base32_value(s@),
                Err(m) => !is_ulid(s@) && m@ == ulid_problem(s@),
            },
    {
        match decode_ulid(s) {
            Ok(value) => Ok(NoteId { value }),
            Err(UlidFault::Length) => Err("invalid length".to_owned()),
            Err(UlidFault::Character) => Err("invalid character".to_owned()),
        }
    }

    /// The text of the identifier.
    pub fn text(&self) -> (r: String)
        ensures
            r@ == self@,
    {
        encode_ulid(self.value)
    }

    /// A new identifier.
    pub fn fresh() -> NoteId {
        NoteId { value: generate_ulid() }
    }
}

/// Whether `s` is the text of a ULID.
pub fn ulid_valid(s: &str) -> (r: bool)
    ensures
        r == is_ulid(s@),
{
    decode_ulid(s).is_ok()
}

proof fn lemma_crockford_inverse(d: nat)
    requires
        d < 32,
    ensures
        crockford(crockford_char(d)) == Some(d),
{
}

proof fn lemma_base32_text(v: nat, n: nat)
    ensures
        base32_text(v, n).len() == n,
        forall|i: int| 0 <= i < n ==> (#[trigger] crockford(base32_text(v, n)[i])) is Some,
    decreases n,
{
    if n > 0 {
        lemma_base32_text(v / 32, (n - 1) as nat);
        lemma_crockford_inverse(v % 32);
        let t = base32_text(v / 32, (n - 1) as nat);
        assert forall|i: int| 0 <= i < n implies (#[trigger] crockford(
            base32_text(v, n)[i],
        )) is Some by {
            if i < n - 1 {
                assert(base32_text(v, n)[i] == t[i]);
            }
        }
    }
}

/// Powers of thirty-two.
pub open spec fn pow32(n: nat) -> nat
    decreases n,
{
    if n == 0 {
        1
    } else {
        32 * pow32((n - 1) as nat)
    }
}

proof fn lemma_base32_value_of_text(v: nat, n: nat)
    requires
        v < pow32(n),
        v < two_128(),
    ensures
        base32_value(base32_text(v, n)) == v,
    decreases n,
{
    if n > 0 {
        let t = base32_text(v / 32, (n - 1) as nat);
        assert(v / 32 < pow32((n - 1) as nat));
        lemma_base32_value_of_text(v / 32, (n - 1) as nat);
        lemma_crockford_inverse(v % 32);
        assert(base32_text(v, n).drop_last() =~= t);
        assert(base32_text(v, n).last() == crockford_char(v % 32));
        assert((v / 32) * 32 + v % 32 == v);
    }
}

/// Writing an identifier and reading it back gives the same identifier.
pub proof fn note_id_round_trip(id: NoteId)
    ensures
        is_ulid(id@),
        base32_value(id@) == id.value as nat,
{
    lemma_base32_text(id.value as nat, 26);
    assert(pow32(26) >= two_128()) by {
        reveal_with_fuel(pow32, 27);
    }
    lemma_base32_value_of_text(id.value as nat, 26);
}

// ── Content digests ─────────────────────────────────────────────────────────

/// What `sha2::Sha256::digest` returns.
pub uninterp spec fn sha256(bytes: Seq<u8>) -> Seq<u8>;

/// Calls `sha2::Sha256::digest`.
///
/// Claimed: thirty-two bytes that depend on the input alone.
#[verifier::external_body]
pub(crate) fn sha256_digest(bytes: &[u8]) -> (r: Vec<u8>)
    ensures
        r@ == sha256(bytes@),
        r@.len() == 32,
{
    sha2::Sha256::digest(bytes).to_vec()
}

/// The lower-case hexadecimal digit `d`.
pub open spec fn hex_digit(d: nat) -> char {
    if d < 10 {
        (d + 48) as char
    } else {
        (d - 10 + 97) as char
    }
}

/// Two lower-case hexadecimal digits for each byte, in order.
pub open spec fn hex(bytes: Seq<u8>) -> Seq<char>
    decreases bytes.len(),
{
    if bytes.len() == 0 {
        Seq::empty()
    } else {
        hex(bytes.drop_last()) + seq![
            hex_digit(bytes.last() as nat / 16),
            hex_digit(bytes.last() as nat % 16),
        ]
    }
}

fn hex_char(d: u8) -> (c: char)
    requires
        d < 16,
    ensures
        c == hex_digit(d as nat),
{
    match d {
        0 => '0',
        1 => '1',
        2 => '2',
        3 => '3',
        4 => '4',
        5 => '5',
        6 => '6',
        7 => '7',
        8 => '8',
        9 => '9',
        10 => 'a',
        11 => 'b',
        12 => 'c',
        13 => 'd',
        14 => 'e',
        _ => 'f',
    }
}

/// Two lower-case hexadecimal digits for each byte, in order.
pub fn hex_text(bytes: &Vec<u8>) -> (r: String)
    ensures
        r@ == hex(bytes@),
{
    let mut s = String::new();
    let mut i: usize = 0;
    assert(bytes@.take(0) =~= Seq::<u8>::empty());
    while i < bytes.len()
        invariant
            i <= bytes@.len(),
            s@ == hex(bytes@.take(i as int)),
        decreases bytes@.len() - i,
    {
        let b: u8 = bytes[i];
        proof {
            let next = bytes@.take(i + 1);
            assert(next.drop_last() =~= bytes@.take(i as int));
            assert(next.last() == b);
        }
        s.push(hex_char(b / 16));
        s.push(hex_char(b % 16));
        assert(s@ =~= hex(bytes@.take(i + 1)));
        i = i + 1;
    }
    assert(bytes@.take(bytes@.len() as int) =~= bytes@);
    s
}

/// The hexadecimal SHA-256 of `bytes`.
pub fn sha256_hex(bytes: &Vec<u8>) -> (r: String)
    ensures
        r@ == hex(sha256(bytes@)),
{
    hex_text(&sha256_digest(bytes.as_slice()))
}

// ── Timestamps ──────────────────────────────────────────────────────────────

/// The UTC time of a millisecond timestamp in the form `2000-01-12T01:02:03Z`, as
/// `chrono::DateTime::from_timestamp_millis` and its `format` give it.
pub uninterp spec fn utc_seconds(ms: i64) -> Option<Seq<char>>;

/// Calls `chrono::DateTime::from_timestamp_millis` and formats what it returns with
/// `%Y-%m-%dT%H:%M:%SZ`.
///
/// Claimed: the text depends on the timestamp alone; there is none for a timestamp outside
/// the range of the calendar.
#[verifier::external_body]
pub(crate) fn utc_seconds_text(ms: i64) -> (r: Option<String>)
    ensures
        match r {
            Some(t) => utc_seconds(ms) == Some(t@),
            None => utc_seconds(ms) is None,
        },
{
    match chrono::DateTime::from_timestamp_millis(ms) {
        Some(dt) => Some(dt.format("%Y-%m-%dT%H:%M:%SZ").to_string()),
        None => None,
    }
}

/// The UTC time of a millisecond timestamp in the form `2018-01-26T18:30:09.453Z`, as
/// `chrono::DateTime::from_timestamp_millis` and its `to_rfc3339_opts` give it.
pub uninterp spec fn utc_millis(ms: i64) -> Option<Seq<char>>;

/// Calls `chrono::DateTime::from_timestamp_millis` and writes what it returns with
/// `to_rfc3339_opts`, in milliseconds and with `Z` for UTC.
///
/// Claimed: the text depends on the timestamp alone; there is none for a timestamp outside
/// the range of the calendar.
#[verifier::external_body]
pub(crate) fn utc_millis_text(ms: i64) -> (r: Option<String>)
    ensures
        match r {
            Some(t) => utc_millis(ms) == Some(t@),
            None => utc_millis(ms) is None,
        },
{
    match chrono::DateTime::from_timestamp_millis(ms) {
        Some(dt) => Some(dt.to_rfc3339_opts(chrono::SecondsFormat::Millis, true)),
        None => None,
    }
}

/// A moment in time, in UTC.
#[derive(Debug, Clone, Copy, PartialEq, Eq, Structural)]
pub struct Moment {
    /// The seconds since 1970 began.
    pub seconds: i64,
    /// The nanoseconds of the second.
    pub nanos: u32,
}

/// The UTC time of a moment in the form `1996-12-19T16:39:57+00:00`, with the fraction of the
/// second if there is one, as `chrono::DateTime::from_timestamp` and its `to_rfc3339` give it.
pub uninterp spec fn utc_precise(seconds: i64, nanos: u32) -> Option<Seq<char>>;

/// Calls `chrono::DateTime::from_timestamp` and writes what it returns with `to_rfc3339`.
///
/// Claimed: the text depends on the two numbers alone; there is none for numbers outside the
/// range of the calendar.
#[verifier::external_body]
pub(crate) fn utc_precise_text(seconds: i64, nanos: u32) -> (r: Option<String>)
    ensures
        match r {
            Some(t) => utc_precise(seconds, nanos) == Some(t@),
            None => utc_precise(seconds, nanos) is None,
        },
{
    match chrono::DateTime::from_timestamp(seconds, nanos) {
        Some(dt) => Some(dt.to_rfc3339()),
        None => None,
    }
}

/// The seconds and the nanoseconds of the moment that a text in the manner of RFC 3339 writes,
/// if it writes one.
pub uninterp spec fn utc_moment(s: Seq<char>) -> Option<(i64, u32)>;

/// Calls `chrono::DateTime::<chrono::Utc>::from_str`, and takes the moment apart into the
/// seconds since 1970 began and the nanoseconds of the second.
///
/// Claimed: whether the text is accepted, and which moment it writes, depends on the text alone.
/// Which texts are accepted is left unsaid: the grammar of the parser fills pages.
#[verifier::external_body]
pub(crate) fn utc_moment_parts(s: &str) -> (r: Option<(i64, u32)>)
    ensures
        r == utc_moment(s@),
{
    match s.parse::<chrono::DateTime<chrono::Utc>>() {
        Ok(d) => Some((d.timestamp(), d.timestamp_subsec_nanos())),
        Err(_) => None,
    }
}

/// The moment of these parts.
pub open spec fn moment(parts: Option<(i64, u32)>) -> Option<Moment> {
    match parts {
        Some((seconds, nanos)) => Some(Moment { seconds, nanos }),
        None => None,
    }
}

/// The moment of these parts.
pub fn moment_of(parts: Option<(i64, u32)>) -> (r: Option<Moment>)
    ensures
        r == moment(parts),
{
    match parts {
        Some((seconds, nanos)) => Some(Moment { seconds, nanos }),
        None => None,
    }
}

/// What a lower-case hexadecimal digit stands for.
pub open spec fn digit_of(c: char) -> int {
    if '0' <= c && c <= '9' {
        c as int - '0' as int
    } else {
        c as int - 'a' as int + 10
    }
}

/// A hash is written with two digits for each byte, the higher one first, in the order of the
/// bytes.
pub proof fn each_byte_is_two_digits(bytes: Seq<u8>, i: int)
    ensures
        hex(bytes).len() == 2 * bytes.len(),
        0 <= i < bytes.len() ==> digit_of(hex(bytes)[2 * i]) * 16 + digit_of(hex(bytes)[2 * i + 1])
            == bytes[i],
    decreases bytes.len(),
{
    if bytes.len() > 0 {
        each_byte_is_two_digits(bytes.drop_last(), i);
        let b = bytes.last() as nat;
        assert(b / 16 < 16 && b % 16 < 16 && (b / 16) * 16 + b % 16 == b);
    }
}

/// The text of an identifier is one, and means the same number whatever letters it was written in.
pub proof fn an_identifier_has_one_text(s: Seq<char>)
    requires
        is_ulid(s),
    ensures
        is_ulid(ulid_text(base32_value(s))),
        base32_value(ulid_text(base32_value(s))) == base32_value(s),
{
    let v = base32_value(s);
    assert(v < two_128());
    lemma_base32_text(v, 26);
    assert(pow32(26) >= two_128()) by {
        reveal_with_fuel(pow32, 27);
    }
    lemma_base32_value_of_text(v, 26);
}

/// A digit of an identifier is a digit or a letter that cannot be mistaken for one, in either case.
pub proof fn digits_of_identifiers_cannot_be_mistaken(c: char)
    ensures
        crockford(c) is Some <==> {
            ||| '0' <= c && c <= '9'
            ||| ('a' <= c && c <= 'z' && c != 'i' && c != 'l' && c != 'o' && c != 'u')
            ||| ('A' <= c && c <= 'Z' && c != 'I' && c != 'L' && c != 'O' && c != 'U')
        },
        crockford(c) is Some ==> crockford(c)->0 < 32,
        '0' <= c && c <= '9' ==> crockford(c) == Some((c as int - '0' as int) as nat),
        c == 'a' || c == 'A' ==> crockford(c) == Some(10nat),
        c == 'z' || c == 'Z' ==> crockford(c) == Some(31nat),
{
}

/// An identifier has twenty-six digits, and each that is added counts thirty-two times less than
/// the one before.
pub proof fn an_identifier_is_a_number(s: Seq<char>, c: char)
    ensures
        is_ulid(s) ==> s.len() == 26,
        base32_value(s.push(c)) == (base32_value(s) * 32 + crockford(c)->0) % two_128(),
        base32_value(Seq::empty()) == 0,
{
    assert(s.push(c).drop_last() =~= s);
}

}
