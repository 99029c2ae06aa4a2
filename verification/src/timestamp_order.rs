//! Ordering of timestamps.

use std::cmp::Ordering;
use vstd::prelude::*;
use crate::text::{chars_of, diff_from, find_char, first_difference, utf8_len};
use crate::timestamp::Timestamp;

verus! {

/// Lexicographic order of byte sequences, as `str` and slices compare.
pub open spec fn lex_order(a: Seq<u8>, b: Seq<u8>) -> Ordering
    decreases a.len(),
{
    if a.len() == 0 && b.len() == 0 {
        Ordering::Equal
    } else if a.len() == 0 {
        Ordering::Less
    } else if b.len() == 0 {
        Ordering::Greater
    } else if a[0] < b[0] {
        Ordering::Less
    } else if a[0] > b[0] {
        Ordering::Greater
    } else {
        lex_order(a.drop_first(), b.drop_first())
    }
}

/// The order of two timestamps given in `Z` form: none when only one has
/// a fractional part or their UTF-8 lengths differ, else the lexicographic
/// order of their bytes.
pub open spec fn timestamp_order(a: Seq<char>, b: Seq<char>) -> Option<Ordering> {
    if a.contains('.') != b.contains('.') {
        None
    } else if utf8_len(a) != utf8_len(b) {
        None
    } else {
        Some(lex_order(vstd::utf8::encode_utf8(a), vstd::utf8::encode_utf8(b)))
    }
}

/// The opposite of an ordering.
pub open spec fn flipped(o: Ordering) -> Ordering {
    match o {
        Ordering::Less => Ordering::Greater,
        Ordering::Equal => Ordering::Equal,
        Ordering::Greater => Ordering::Less,
    }
}

proof fn lemma_lex_reflexive(a: Seq<u8>)
    ensures
        lex_order(a, a) == Ordering::Equal,
    decreases a.len(),
{
    if a.len() > 0 {
        lemma_lex_reflexive(a.drop_first());
    }
}

proof fn lemma_lex_flip(a: Seq<u8>, b: Seq<u8>)
    ensures
        lex_order(a, b) == flipped(lex_order(b, a)),
    decreases a.len(),
{
    if a.len() > 0 && b.len() > 0 && a[0] == b[0] {
        lemma_lex_flip(a.drop_first(), b.drop_first());
    }
}

proof fn lemma_lex_transitive(a: Seq<u8>, b: Seq<u8>, c: Seq<u8>)
    requires
        lex_order(a, b) == Ordering::Less,
        lex_order(b, c) == Ordering::Less,
    ensures
        lex_order(a, c) == Ordering::Less,
    decreases a.len(),
{
    if a.len() > 0 && b.len() > 0 && c.len() > 0 && a[0] == b[0] && b[0] == c[0] {
        lemma_lex_transitive(a.drop_first(), b.drop_first(), c.drop_first());
    }
}

proof fn lemma_lex_equal(a: Seq<u8>, b: Seq<u8>)
    requires
        lex_order(a, b) == Ordering::Equal,
    ensures
        a == b,
    decreases a.len(),
{
    if a.len() > 0 {
        lemma_lex_equal(a.drop_first(), b.drop_first());
        assert(a =~= seq![a[0]] + a.drop_first());
        assert(b =~= seq![b[0]] + b.drop_first());
    }
}

/// Every timestamp orders equal to itself, so none is before itself.
pub proof fn law_order_reflexive(a: Seq<char>)
    ensures
        timestamp_order(a, a) == Some(Ordering::Equal),
{
    lemma_lex_reflexive(vstd::utf8::encode_utf8(a));
}

/// Swapping the two timestamps flips their order, and leaves them
/// unordered when they were.
pub proof fn law_order_flips(a: Seq<char>, b: Seq<char>)
    ensures
        timestamp_order(a, b) == match timestamp_order(b, a) {
            Some(o) => Some(flipped(o)),
            None => None::<Ordering>,
        },
{
    lemma_lex_flip(vstd::utf8::encode_utf8(a), vstd::utf8::encode_utf8(b));
}

/// Being before is transitive.
pub proof fn law_before_transitive(a: Seq<char>, b: Seq<char>, c: Seq<char>)
    requires
        timestamp_order(a, b) == Some(Ordering::Less),
        timestamp_order(b, c) == Some(Ordering::Less),
    ensures
        timestamp_order(a, c) == Some(Ordering::Less),
{
    lemma_lex_transitive(
        vstd::utf8::encode_utf8(a),
        vstd::utf8::encode_utf8(b),
        vstd::utf8::encode_utf8(c),
    );
}

/// Two timestamps order equal exactly when they are the same string.
pub proof fn law_order_equal_iff_same(a: Seq<char>, b: Seq<char>)
    ensures
        timestamp_order(a, b) == Some(Ordering::Equal) <==> a == b,
{
    if timestamp_order(a, b) == Some(Ordering::Equal) {
        lemma_lex_equal(vstd::utf8::encode_utf8(a), vstd::utf8::encode_utf8(b));
        vstd::utf8::encode_utf8_decode_utf8(a);
        vstd::utf8::encode_utf8_decode_utf8(b);
    }
    if a == b {
        law_order_reflexive(a);
    }
}

/// Whether a timestamp ends in `Z`, the only form these timestamps order in.
pub open spec fn ends_in_z(s: Seq<char>) -> bool {
    s.len() > 0 && s.last() == 'Z'
}

/// The lexicographic order of equal-length sequences is decided at their
/// first difference.
pub proof fn lemma_lex_order_at_difference(a: Seq<u8>, b: Seq<u8>, k: int)
    requires
        a.len() == b.len(),
        0 <= k <= a.len(),
    ensures
        lex_order(a.skip(k), b.skip(k)) == (if diff_from(a, b, k) >= a.len() {
            Ordering::Equal
        } else if a[diff_from(a, b, k)] < b[diff_from(a, b, k)] {
            Ordering::Less
        } else {
            Ordering::Greater
        }),
    decreases a.len() - k,
{
    if k < a.len() {
        assert(a.skip(k).drop_first() =~= a.skip(k + 1));
        assert(b.skip(k).drop_first() =~= b.skip(k + 1));
        if a[k] == b[k] {
            lemma_lex_order_at_difference(a, b, k + 1);
        }
    }
}

/// Two timestamps of the same shape are ordered front to back: at the first
/// byte where their texts differ, the smaller byte comes first.
pub proof fn law_order_decided_at_first_difference(a: Seq<char>, b: Seq<char>, i: int)
    requires
        a.contains('.') == b.contains('.'),
        utf8_len(a) == utf8_len(b),
        0 <= i < utf8_len(a),
        vstd::utf8::encode_utf8(a).take(i) == vstd::utf8::encode_utf8(b).take(i),
        vstd::utf8::encode_utf8(a)[i] < vstd::utf8::encode_utf8(b)[i],
    ensures
        timestamp_order(a, b) == Some(Ordering::Less),
        timestamp_order(b, a) == Some(Ordering::Greater),
{
    let ea = vstd::utf8::encode_utf8(a);
    let eb = vstd::utf8::encode_utf8(b);
    assert forall|k: int| 0 <= k < i implies ea[k] == eb[k] by {
        assert(ea.take(i)[k] == eb.take(i)[k]);
    }
    crate::text::lemma_diff_from_at(ea, eb, 0, i);
    lemma_lex_order_at_difference(ea, eb, 0);
    assert(ea.skip(0) =~= ea);
    assert(eb.skip(0) =~= eb);
    lemma_lex_flip(ea, eb);
}

/// For ASCII timestamps of the same shape, the one whose text is smaller at
/// the first differing character comes first: a timestamp of an earlier year
/// is before one of a later year.
pub proof fn law_order_ascii_first_difference(a: Seq<char>, b: Seq<char>, i: int)
    requires
        vstd::utf8::is_ascii_chars(a),
        vstd::utf8::is_ascii_chars(b),
        a.len() == b.len(),
        a.contains('.') == b.contains('.'),
        0 <= i < a.len(),
        a.take(i) == b.take(i),
        a[i] < b[i],
    ensures
        timestamp_order(a, b) == Some(Ordering::Less),
        timestamp_order(b, a) == Some(Ordering::Greater),
{
    crate::text::lemma_ascii_first_difference_bytes(a, b, i);
    law_order_decided_at_first_difference(a, b, i);
}

/// Every accepted timestamp ends in `Z`, so accepted timestamps can always
/// be normalized and compared.
pub proof fn law_valid_timestamps_end_in_z(s: Seq<char>)
    requires
        crate::timestamp::is_valid_timestamp(s),
    ensures
        ends_in_z(s),
{
    let t = crate::text::find_from(s, 'T', 0);
    crate::text::lemma_find_from(s, 'T', 0);
    assert(s.skip(t)[s.len() - t - 1] == s[s.len() - 1]);
}

/// Lexicographic comparison of two byte slices of equal length.
fn compare_bytes(a: &[u8], b: &[u8]) -> (r: Ordering)
    requires
        a@.len() == b@.len(),
    ensures
        r == lex_order(a@, b@),
{
    let i = first_difference(a, b);
    proof {
        lemma_lex_order_at_difference(a@, b@, 0);
        assert(a@.skip(0) =~= a@);
        assert(b@.skip(0) =~= b@);
    }
    if i == a.len() {
        Ordering::Equal
    } else if a[i] < b[i] {
        Ordering::Less
    } else {
        Ordering::Greater
    }
}

/// Whether the string holds a `.`.
fn has_dot(s: &str) -> (r: bool)
    ensures
        r == s@.contains('.'),
{
    let v = chars_of(s);
    let d = find_char(&v, '.', 0);
    proof {
        crate::text::lemma_find_from(v@, '.', 0);
    }
    if d < v.len() {
        true
    } else {
        assert(!v@.contains('.'));
        false
    }
}

impl Timestamp {
    /// Normalize the timestamp into UTC time. Timestamps here are always in
    /// `Z` form (see [`law_valid_timestamps_end_in_z`]), so this hands back the
    /// timestamp itself.
    pub fn normalize(&self) -> (r: Result<&Timestamp, crate::timestamp::TimestampParseError>)
        ensures
            r matches Ok(t) && t == self,
    {
        Ok(self)
    }

    /// Compares two timestamps: by their bytes when both or neither have a
    /// fractional part and their lengths agree, otherwise not at all.
    pub fn partial_cmp(&self, other: &Timestamp) -> (r: Option<Ordering>)
        ensures
            r == timestamp_order(self@, other@),
    {
        let this = self.normalize();
        let other = other.normalize();
        match (this, other) {
            (Ok(this), Ok(other)) => {
                let a = this.as_str();
                let b = other.as_str();
                if has_dot(a) != has_dot(b) {
                    return None;
                }
                let ab = a.as_bytes();
                let bb = b.as_bytes();
                if ab.len() != bb.len() {
                    return None;
                }
                Some(compare_bytes(ab, bb))
            },
            _ => None,
        }
    }

    /// Compare another time and return `self < other`.
    pub fn is_before(&self, other: &Timestamp) -> (r: bool)
        ensures
            r == (timestamp_order(self@, other@) == Some(Ordering::Less)),
    {
        match self.partial_cmp(other) {
            Some(Ordering::Less) => true,
            _ => false,
        }
    }
}

} // verus!
