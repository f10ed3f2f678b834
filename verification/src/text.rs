//! Ordering and truncation of timestamp text.
//!
//! Timestamps are UTC strings of the form `YYYY-MM-DDTHH:MM:SSZ`. Two of them
//! are compared byte by byte, and the calendar day of one is its first ten
//! characters.

use vstd::prelude::*;
use vstd::string::StrSliceExecFns;
use vstd::utf8::encode_utf8;

verus! {

/// The number of characters of a timestamp that name its calendar day.
pub const DAY_CHARS: usize = 10;

/// Whether `a` sorts at or before `b`, looking only at positions from `i` on;
/// the positions before `i` are taken to agree.
pub open spec fn bytes_le_from(a: Seq<u8>, b: Seq<u8>, i: int) -> bool
    decreases a.len() - i,
{
    if i < 0 || i >= a.len() {
        true
    } else if i >= b.len() {
        false
    } else if a[i] != b[i] {
        a[i] < b[i]
    } else {
        bytes_le_from(a, b, i + 1)
    }
}

/// Byte-wise lexicographic order: `a` sorts at or before `b`. A proper prefix
/// sorts before every string that extends it.
pub open spec fn bytes_le(a: Seq<u8>, b: Seq<u8>) -> bool {
    bytes_le_from(a, b, 0)
}

/// The order of two texts: that of their UTF-8 encodings.
pub open spec fn text_le(a: Seq<char>, b: Seq<char>) -> bool {
    bytes_le(encode_utf8(a), encode_utf8(b))
}

/// `stamp` lies in the half-open interval that starts at `from` and ends
/// before `to`; without a `to` the interval has no end.
pub open spec fn in_window(stamp: Seq<char>, from: Seq<char>, to: Option<Seq<char>>) -> bool {
    &&& text_le(from, stamp)
    &&& to matches Some(end) ==> !text_le(end, stamp)
}

/// The calendar day of a timestamp: its first ten characters, or all of it
/// where it is shorter.
pub open spec fn day_of(stamp: Seq<char>) -> Seq<char> {
    if stamp.len() >= DAY_CHARS {
        stamp.take(DAY_CHARS as int)
    } else {
        stamp
    }
}

/// Two byte strings that agree up to `i` and are ordered both ways from `i`
/// on are equal.
proof fn lemma_bytes_le_from_antisymmetric(a: Seq<u8>, b: Seq<u8>, i: int)
    requires
        0 <= i,
        i <= a.len(),
        i <= b.len(),
        forall|k: int| 0 <= k < i ==> a[k] == b[k],
        bytes_le_from(a, b, i),
        bytes_le_from(b, a, i),
    ensures
        a == b,
    decreases a.len() - i,
{
    if i >= a.len() {
        assert(a =~= b);
    } else {
        lemma_bytes_le_from_antisymmetric(a, b, i + 1);
    }
}

proof fn lemma_bytes_le_from_total(a: Seq<u8>, b: Seq<u8>, i: int)
    requires
        0 <= i,
    ensures
        bytes_le_from(a, b, i) || bytes_le_from(b, a, i),
    decreases a.len() - i,
{
    if i < a.len() && i < b.len() && a[i] == b[i] {
        lemma_bytes_le_from_total(a, b, i + 1);
    }
}

proof fn lemma_bytes_le_from_transitive(a: Seq<u8>, b: Seq<u8>, c: Seq<u8>, i: int)
    requires
        0 <= i,
        bytes_le_from(a, b, i),
        bytes_le_from(b, c, i),
    ensures
        bytes_le_from(a, c, i),
    decreases a.len() - i,
{
    if i < a.len() && i < b.len() && i < c.len() && a[i] == b[i] && b[i] == c[i] {
        lemma_bytes_le_from_transitive(a, b, c, i + 1);
    }
}

proof fn lemma_bytes_le_from_reflexive(a: Seq<u8>, i: int)
    requires
        0 <= i,
    ensures
        bytes_le_from(a, a, i),
    decreases a.len() - i,
{
    if i < a.len() {
        lemma_bytes_le_from_reflexive(a, i + 1);
    }
}

/// Every byte string sorts at or before itself.
pub proof fn lemma_bytes_le_reflexive(a: Seq<u8>)
    ensures
        bytes_le(a, a),
{
    lemma_bytes_le_from_reflexive(a, 0);
}

/// Of two byte strings, one sorts at or before the other.
pub proof fn lemma_bytes_le_total(a: Seq<u8>, b: Seq<u8>)
    ensures
        bytes_le(a, b) || bytes_le(b, a),
{
    lemma_bytes_le_from_total(a, b, 0);
}

/// The byte order is transitive.
pub proof fn lemma_bytes_le_transitive(a: Seq<u8>, b: Seq<u8>, c: Seq<u8>)
    requires
        bytes_le(a, b),
        bytes_le(b, c),
    ensures
        bytes_le(a, c),
{
    lemma_bytes_le_from_transitive(a, b, c, 0);
}

/// Two byte strings that sort at or before each other are the same string.
pub proof fn lemma_bytes_le_antisymmetric(a: Seq<u8>, b: Seq<u8>)
    requires
        bytes_le(a, b),
        bytes_le(b, a),
    ensures
        a == b,
{
    lemma_bytes_le_from_antisymmetric(a, b, 0);
}

/// Compares two byte strings in lexicographic order.
pub fn bytes_at_or_before(a: &[u8], b: &[u8]) -> (le: bool)
    ensures
        le == bytes_le(a@, b@),
{
    let mut i: usize = 0;
    while i < a.len() && i < b.len() && a[i] == b[i]
        invariant
            i <= a.len(),
            i <= b.len(),
            bytes_le(a@, b@) == bytes_le_from(a@, b@, i as int),
        decreases a.len() - i,
    {
        i = i + 1;
    }
    if i >= a.len() {
        true
    } else if i >= b.len() {
        false
    } else {
        a[i] < b[i]
    }
}

/// Whether the text `a` sorts at or before the text `b`.
pub fn at_or_before(a: &str, b: &str) -> (le: bool)
    ensures
        le == text_le(a@, b@),
{
    bytes_at_or_before(a.as_bytes(), b.as_bytes())
}

/// Whether a timestamp lies in the half-open interval from `from` to `to`.
pub fn within(stamp: &str, from: &str, to: Option<&str>) -> (inside: bool)
    ensures
        inside == in_window(
            stamp@,
            from@,
            match to {
                Some(end) => Some(end@),
                None => None,
            },
        ),
{
    if !at_or_before(from, stamp) {
        return false;
    }
    match to {
        Some(end) => !at_or_before(end, stamp),
        None => true,
    }
}

/// The calendar day of a timestamp, as a string of its own.
pub fn day(stamp: &str) -> (d: String)
    ensures
        d@ == day_of(stamp@),
{
    let n: usize = stamp.unicode_len();
    if n >= DAY_CHARS {
        stamp.substring_char(0, DAY_CHARS).to_owned()
    } else {
        stamp.to_owned()
    }
}

} // verus!
