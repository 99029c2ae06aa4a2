//! Character and byte sequence helpers shared by the string types.

use vstd::prelude::*;
use vstd::string::StringExecFns;

verus! {

/// Position of the first `x` in `s` at or after `from`, or `s.len()` when
/// there is none.
pub open spec fn find_from<T>(s: Seq<T>, x: T, from: int) -> int
    decreases s.len() - from,
{
    if from < 0 || from >= s.len() {
        s.len() as int
    } else if s[from] == x {
        from
    } else {
        find_from(s, x, from + 1)
    }
}

/// Position of the first difference between `a` and `b` at or after
/// `from`, or the shorter length when there is none.
pub open spec fn diff_from(a: Seq<u8>, b: Seq<u8>, from: int) -> int
    decreases a.len() - from,
{
    if from < 0 || from >= a.len() || from >= b.len() {
        from
    } else if a[from] != b[from] {
        from
    } else {
        diff_from(a, b, from + 1)
    }
}

/// Sequences equal before `at` and different at `at` first differ there.
pub proof fn lemma_diff_from_at(a: Seq<u8>, b: Seq<u8>, from: int, at: int)
    requires
        0 <= from <= at < a.len(),
        at < b.len(),
        forall|k: int| from <= k < at ==> a[k] == b[k],
        a[at] != b[at],
    ensures
        diff_from(a, b, from) == at,
    decreases at - from,
{
    if from < at {
        lemma_diff_from_at(a, b, from + 1, at);
    }
}

/// Number of occurrences of `x` in a concatenation.
pub proof fn lemma_count_of_concat<T>(a: Seq<T>, b: Seq<T>, x: T)
    ensures
        count_of(a + b, x) == count_of(a, x) + count_of(b, x),
    decreases b.len(),
{
    if b.len() > 0 {
        lemma_count_of_concat(a, b.drop_last(), x);
        assert((a + b).drop_last() =~= a + b.drop_last());
    } else {
        assert(a + b =~= a);
    }
}

/// ASCII texts of one length that first differ at character `i` first
/// differ at byte `i` of their UTF-8 encodings, in the same direction.
pub proof fn lemma_ascii_first_difference_bytes(a: Seq<char>, b: Seq<char>, i: int)
    requires
        vstd::utf8::is_ascii_chars(a),
        vstd::utf8::is_ascii_chars(b),
        a.len() == b.len(),
        0 <= i < a.len(),
        a.take(i) == b.take(i),
        a[i] < b[i],
    ensures
        utf8_len(a) == utf8_len(b),
        i < utf8_len(a),
        vstd::utf8::encode_utf8(a).take(i) == vstd::utf8::encode_utf8(b).take(i),
        vstd::utf8::encode_utf8(a)[i] < vstd::utf8::encode_utf8(b)[i],
{
    let ea = vstd::utf8::encode_utf8(a);
    let eb = vstd::utf8::encode_utf8(b);
    vstd::utf8::is_ascii_chars_encode_utf8(a);
    vstd::utf8::is_ascii_chars_encode_utf8(b);
    assert forall|k: int| 0 <= k < i implies a[k] == b[k] by {
        assert(a.take(i)[k] == a[k]);
        assert(b.take(i)[k] == b[k]);
        assert(a.take(i)[k] == b.take(i)[k]);
    }
    assert forall|k: int| 0 <= k < i implies ea[k] == eb[k] by {
        assert(ea[k] == a[k] as u8);
        assert(eb[k] == b[k] as u8);
    }
    assert(ea.take(i) =~= eb.take(i));
    assert(ea[i] == a[i] as u8);
    assert(eb[i] == b[i] as u8);
}

/// A sequence without `x` holds it zero times.
pub proof fn lemma_count_of_absent<T>(s: Seq<T>, x: T)
    requires
        forall|k: int| 0 <= k < s.len() ==> s[k] != x,
    ensures
        count_of(s, x) == 0,
    decreases s.len(),
{
    if s.len() > 0 {
        lemma_count_of_absent(s.drop_last(), x);
    }
}

/// The ASCII upper-case letters of `s` turned to lower case, the rest kept.
pub open spec fn ascii_lowercase(s: Seq<char>) -> Seq<char> {
    s.map_values(
        |c: char|
            if 'A' <= c && c <= 'Z' {
                ((c as u32) + 32) as char
            } else {
                c
            },
    )
}

/// First position at or after `from` where `pat` occurs in `s`, or
/// `s.len()` when it does not occur there.
pub open spec fn find_seq_from(s: Seq<char>, pat: Seq<char>, from: int) -> int
    decreases s.len() + 1 - from,
{
    if from < 0 || from + pat.len() > s.len() {
        s.len() as int
    } else if s.subrange(from, from + pat.len()) == pat {
        from
    } else {
        find_seq_from(s, pat, from + 1)
    }
}

/// Whether `pat` occurs in `s`.
pub open spec fn contains_seq(s: Seq<char>, pat: Seq<char>) -> bool {
    find_seq_from(s, pat, 0) < s.len()
}

/// `s` with the first occurrence of `pat` replaced by `with`; none when
/// `pat` does not occur.
pub open spec fn replace_first(s: Seq<char>, pat: Seq<char>, with: Seq<char>) -> Option<Seq<char>> {
    let i = find_seq_from(s, pat, 0);
    if i < s.len() {
        Some(s.take(i) + with + s.skip(i + pat.len()))
    } else {
        None
    }
}

/// Number of occurrences of `x` in `s`.
pub open spec fn count_of<T>(s: Seq<T>, x: T) -> nat
    decreases s.len(),
{
    if s.len() == 0 {
        0
    } else {
        count_of(s.drop_last(), x) + (if s.last() == x { 1nat } else { 0nat })
    }
}

/// The UTF-8 length in bytes of a character sequence.
pub open spec fn utf8_len(s: Seq<char>) -> nat {
    vstd::utf8::encode_utf8(s).len()
}

/// `find_from` lands on the first occurrence at or after `from`, if any.
pub proof fn lemma_find_from<T>(s: Seq<T>, x: T, from: int)
    requires
        0 <= from <= s.len(),
    ensures
        from <= find_from(s, x, from) <= s.len(),
        forall|k: int| from <= k < find_from(s, x, from) ==> s[k] != x,
        find_from(s, x, from) < s.len() ==> s[find_from(s, x, from)] == x,
    decreases s.len() - from,
{
    if from < s.len() && s[from] != x {
        lemma_find_from(s, x, from + 1);
    }
}

/// A position before which `x` does not occur, with `x` at it, is what
/// `find_from` gives.
pub proof fn lemma_find_from_at<T>(s: Seq<T>, x: T, from: int, at: int)
    requires
        0 <= from <= at <= s.len(),
        forall|k: int| from <= k < at ==> s[k] != x,
        at < s.len() ==> s[at] == x,
    ensures
        find_from(s, x, from) == at,
    decreases at - from,
{
    if from < at {
        lemma_find_from_at(s, x, from + 1, at);
    }
}

/// The UTF-8 length of ASCII characters is their number.
pub proof fn lemma_ascii_utf8_len(s: Seq<char>)
    requires
        vstd::utf8::is_ascii_chars(s),
    ensures
        utf8_len(s) == s.len(),
{
    vstd::utf8::is_ascii_chars_encode_utf8(s);
}

/// Position of the first `c` in `v` at or after `from`, or `v.len()`.
pub fn find_char(v: &Vec<char>, c: char, from: usize) -> (r: usize)
    requires
        from <= v.len(),
    ensures
        r == find_from(v@, c, from as int),
        from <= r <= v.len(),
{
    let mut i = from;
    while i < v.len()
        invariant
            from <= i <= v.len(),
            find_from(v@, c, from as int) == find_from(v@, c, i as int),
        decreases v.len() - i,
    {
        if v[i] == c {
            return i;
        }
        i = i + 1;
    }
    i
}

/// Position of the first byte where `a` and `b` differ, or their length.
pub fn first_difference(a: &[u8], b: &[u8]) -> (r: usize)
    requires
        a@.len() == b@.len(),
    ensures
        r == diff_from(a@, b@, 0),
        r <= a@.len(),
{
    let n = a.len();
    let mut i: usize = 0;
    while i < n
        invariant
            n == a@.len() == b@.len(),
            i <= n,
            diff_from(a@, b@, 0) == diff_from(a@, b@, i as int),
        decreases n - i,
    {
        if a[i] != b[i] {
            return i;
        }
        i = i + 1;
    }
    i
}

/// Whether `pat` occurs in `v` at position `at`.
pub fn matches_at(v: &Vec<char>, pat: &Vec<char>, at: usize) -> (r: bool)
    requires
        at + pat.len() <= v.len(),
    ensures
        r == (v@.subrange(at as int, at + pat.len()) == pat@),
{
    let mut j: usize = 0;
    while j < pat.len()
        invariant
            at + pat.len() <= v.len(),
            j <= pat.len(),
            forall|k: int| 0 <= k < j ==> v@[at + k] == pat@[k],
        decreases pat.len() - j,
    {
        if v[at + j] != pat[j] {
            assert(v@.subrange(at as int, at + pat.len())[j as int] != pat@[j as int]);
            return false;
        }
        j = j + 1;
    }
    assert(v@.subrange(at as int, at + pat.len()) =~= pat@);
    true
}

/// First position where `pat` occurs in `v`, or `v.len()`.
pub fn find_seq(v: &Vec<char>, pat: &Vec<char>) -> (r: usize)
    ensures
        r == find_seq_from(v@, pat@, 0),
{
    let mut i: usize = 0;
    while i < v.len() && pat.len() <= v.len() - i
        invariant
            find_seq_from(v@, pat@, 0) == find_seq_from(v@, pat@, i as int),
        decreases v.len() - i,
    {
        if matches_at(v, pat, i) {
            return i;
        }
        i = i + 1;
    }
    proof {
        if i + pat.len() <= v.len() {
            assert(v@.subrange(i as int, i + pat.len()) =~= pat@);
        }
    }
    v.len()
}

/// `v` with the first occurrence of `pat` replaced by `with`; none when
/// `pat` does not occur.
pub fn replace_first_exec(v: &Vec<char>, pat: &Vec<char>, with: &Vec<char>) -> (r: Option<Vec<char>>)
    ensures
        r matches Some(w) ==> replace_first(v@, pat@, with@) == Some(w@),
        r is None ==> replace_first(v@, pat@, with@) is None,
{
    let i = find_seq(v, pat);
    if i >= v.len() {
        return None;
    }
    proof {
        lemma_find_seq_from(v@, pat@, 0);
    }
    let mut w: Vec<char> = Vec::new();
    let mut k: usize = 0;
    while k < i
        invariant
            i < v.len(),
            k <= i,
            w@ == v@.take(k as int),
        decreases i - k,
    {
        w.push(v[k]);
        assert(v@.take(k + 1) =~= v@.take(k as int).push(v@[k as int]));
        k = k + 1;
    }
    let mut k: usize = 0;
    while k < with.len()
        invariant
            i < v.len(),
            k <= with.len(),
            w@ == v@.take(i as int) + with@.take(k as int),
        decreases with.len() - k,
    {
        w.push(with[k]);
        assert(with@.take(k + 1) =~= with@.take(k as int).push(with@[k as int]));
        k = k + 1;
    }
    assert(with@.take(with.len() as int) =~= with@);
    let start = i + pat.len();
    let mut k: usize = start;
    while k < v.len()
        invariant
            start <= k <= v.len(),
            w@ == v@.take(i as int) + with@ + v@.subrange(start as int, k as int),
        decreases v.len() - k,
    {
        w.push(v[k]);
        assert(v@.subrange(start as int, k + 1) =~= v@.subrange(start as int, k as int).push(
            v@[k as int],
        ));
        k = k + 1;
    }
    assert(v@.subrange(start as int, v.len() as int) =~= v@.skip(start as int));
    Some(w)
}

/// `find_seq_from` lands on the first occurrence at or after `from`, if any.
pub proof fn lemma_find_seq_from(s: Seq<char>, pat: Seq<char>, from: int)
    requires
        0 <= from,
    ensures
        find_seq_from(s, pat, from) == s.len() || (from <= find_seq_from(s, pat, from)
            && find_seq_from(s, pat, from) + pat.len() <= s.len() && s.subrange(
            find_seq_from(s, pat, from),
            find_seq_from(s, pat, from) + pat.len(),
        ) == pat),
    decreases s.len() + 1 - from,
{
    if from + pat.len() <= s.len() && s.subrange(from, from + pat.len()) != pat {
        lemma_find_seq_from(s, pat, from + 1);
    }
}

/// Number of occurrences of `c` in `v`.
pub fn count_char(v: &Vec<char>, c: char) -> (r: usize)
    ensures
        r == count_of(v@, c),
{
    let mut n: usize = 0;
    let mut i: usize = 0;
    while i < v.len()
        invariant
            i <= v.len(),
            n <= i,
            n == count_of(v@.take(i as int), c),
        decreases v.len() - i,
    {
        assert(v@.take(i + 1).drop_last() =~= v@.take(i as int));
        if v[i] == c {
            n = n + 1;
        }
        i = i + 1;
    }
    assert(v@.take(v.len() as int) =~= v@);
    n
}

/// Whether two string slices hold the same characters.
pub fn str_eq(a: &str, b: &str) -> (r: bool)
    ensures
        r == (a@ == b@),
{
    let va = chars_of(a);
    let vb = chars_of(b);
    if va.len() != vb.len() {
        return false;
    }
    let mut i: usize = 0;
    while i < va.len()
        invariant
            va@ == a@,
            vb@ == b@,
            va.len() == vb.len(),
            i <= va.len(),
            forall|k: int| 0 <= k < i ==> va@[k] == vb@[k],
        decreases va.len() - i,
    {
        if va[i] != vb[i] {
            return false;
        }
        i = i + 1;
    }
    assert(va@ =~= vb@);
    true
}

/// The ASCII digit for `d < 10`.
pub open spec fn digit_char(d: nat) -> char {
    (48 + d) as char
}

/// The decimal representation of `n`, without leading zeros.
pub open spec fn decimal(n: nat) -> Seq<char>
    decreases n,
{
    if n < 10 {
        seq![digit_char(n)]
    } else {
        decimal(n / 10).push(digit_char(n % 10))
    }
}

/// The decimal representation of `n`, with a leading `-` when negative.
pub open spec fn signed_decimal(n: int) -> Seq<char> {
    if n < 0 {
        seq!['-'] + decimal((-n) as nat)
    } else {
        decimal(n as nat)
    }
}

/// Formats `n` in decimal, as `Display` for integers does.
pub fn u64_to_decimal(n: u64) -> (r: String)
    ensures
        r@ == decimal(n as nat),
{
    let mut rest = n;
    let mut suffix: Vec<char> = Vec::new();
    while rest >= 10
        invariant
            decimal(n as nat) == decimal(rest as nat) + suffix@,
        decreases rest,
    {
        let d = (rest % 10) as u8;
        let c = (48u8 + d) as char;
        assert(c == digit_char((rest % 10) as nat));
        let ghost before = suffix@;
        suffix.insert(0, c);
        assert(decimal(rest as nat) == decimal((rest / 10) as nat).push(c));
        assert(decimal((rest / 10) as nat).push(c) + before =~= decimal((rest / 10) as nat)
            + suffix@);
        rest = rest / 10;
    }
    let d = rest as u8;
    let c = (48u8 + d) as char;
    suffix.insert(0, c);
    assert(decimal(rest as nat) =~= seq![c]);
    string_of(&suffix)
}

/// Formats `n` in decimal, as `Display` for integers does.
pub fn i64_to_decimal(n: i64) -> (r: String)
    ensures
        r@ == signed_decimal(n as int),
{
    if n < 0 {
        let magnitude = (-(n as i128)) as u64;
        let digits = u64_to_decimal(magnitude);
        let mut r = "-".to_owned();
        r.append(digits.as_str());
        proof {
            reveal_strlit("-");
        }
        assert(r@ =~= seq!['-'] + decimal((-n) as nat));
        r
    } else {
        u64_to_decimal(n as u64)
    }
}

/// The characters of a string slice, in order.
pub fn chars_of(s: &str) -> (v: Vec<char>)
    ensures
        v@ == s@,
{
    let n = s.unicode_len();
    let mut v: Vec<char> = Vec::new();
    for c in it: s.chars()
        invariant
            it.seq() == s@,
            n == s@.len(),
            v@ == it.seq().take(it.index() as int),
    {
        v.push(c);
    }
    v
}

/// The UTF-8 length in bytes of a string slice.
pub fn byte_len(s: &str) -> (n: usize)
    ensures
        n == utf8_len(s@),
{
    s.as_bytes().len()
}

/// The name for what `char::is_numeric` answers on a character outside
/// ASCII: whether it belongs to one of Unicode's general categories for
/// numbers.
pub uninterp spec fn unicode_numeric(c: char) -> bool;

/// Whether `char::is_numeric` holds of `c`: among ASCII characters exactly
/// the digits `0` to `9` are numeric; beyond ASCII the Unicode tables decide.
pub open spec fn is_numeric(c: char) -> bool {
    if (c as u32) < 128 {
        '0' <= c && c <= '9'
    } else {
        unicode_numeric(c)
    }
}

/// Calls `char::is_numeric`. Trusted: for ASCII characters the answer is
/// true exactly for the digits `0` to `9` (the only ASCII characters in
/// Unicode's number categories); for other characters it is the name
/// `unicode_numeric(c)`, as the Unicode tables are not written out here.
#[verifier::external_body]
pub fn char_is_numeric(c: char) -> (r: bool)
    ensures
        (c as u32) < 128 ==> (r <==> ('0' <= c && c <= '9')),
        (c as u32) >= 128 ==> (r <==> unicode_numeric(c)),
{
    c.is_numeric()
}

/// Calls `String::push`. Trusted: the character is appended at the end.
#[verifier::external_body]
pub fn string_push(s: &mut String, c: char)
    ensures
        final(s)@ == old(s)@.push(c),
{
    s.push(c);
}

/// A string holding the given characters.
pub fn string_of(v: &Vec<char>) -> (s: String)
    ensures
        s@ == v@,
{
    let mut s = String::new();
    let mut i: usize = 0;
    while i < v.len()
        invariant
            i <= v.len(),
            s@ == v@.take(i as int),
        decreases v.len() - i,
    {
        string_push(&mut s, v[i]);
        assert(v@.take(i + 1) =~= v@.take(i as int).push(v@[i as int]));
        i = i + 1;
    }
    assert(v@.take(v.len() as int) =~= v@);
    s
}

} // verus!
