//! Byte-level text utilities: finding a byte, ASCII trimming, and
//! splitting a buffer into lines the way `str::lines` does (split on a
//! line feed, then drop one carriage return left at the end of a piece).
use vstd::prelude::*;

verus! {

/// Line feed.
pub const NL: u8 = 10;

/// Carriage return.
pub const CR: u8 = 13;

/// The key/value separator of a configuration line.
pub const EQ: u8 = 61;

/// ASCII whitespace, as `char::is_whitespace` has it within ASCII.
pub open spec fn is_space(b: u8) -> bool {
    b == 32 || b == 9 || b == 10 || b == 11 || b == 12 || b == 13
}

/// No occurrence of `b` anywhere in `s`.
pub open spec fn no_byte(s: Seq<u8>, b: u8) -> bool {
    forall|i: int| 0 <= i < s.len() ==> s[i] != b
}

/// Index of the first occurrence of `b` in `s`, or `s.len()` if absent.
pub open spec fn find_first(s: Seq<u8>, b: u8) -> int
    decreases s.len(),
{
    if s.len() == 0 {
        0
    } else if s[0] == b {
        0
    } else {
        1 + find_first(s.drop_first(), b)
    }
}

pub proof fn lemma_find_first_bounds(s: Seq<u8>, b: u8)
    ensures
        0 <= find_first(s, b) <= s.len(),
        find_first(s, b) < s.len() ==> s[find_first(s, b)] == b,
        forall|j: int| 0 <= j < find_first(s, b) ==> s[j] != b,
    decreases s.len(),
{
    if s.len() > 0 && s[0] != b {
        lemma_find_first_bounds(s.drop_first(), b);
        assert forall|j: int| 0 <= j < find_first(s, b) implies s[j] != b by {
            if j > 0 {
                assert(s.drop_first()[j - 1] != b);
            }
        }
    }
}

/// `find_first` is pinned by a witness: `b` at `i` and nowhere before.
pub proof fn lemma_find_first_at(s: Seq<u8>, b: u8, i: int)
    requires
        0 <= i <= s.len(),
        i < s.len() ==> s[i] == b,
        forall|j: int| 0 <= j < i ==> s[j] != b,
        i == s.len() ==> no_byte(s, b),
    ensures
        find_first(s, b) == i,
{
    lemma_find_first_bounds(s, b);
    let f = find_first(s, b);
    if f < i {
        assert(s[f] == b);
        assert(s[f] != b);
    }
    if i < f {
        assert(s[i] != b);
    }
}

/// `s` without its leading ASCII whitespace.
pub open spec fn trim_front(s: Seq<u8>) -> Seq<u8>
    decreases s.len(),
{
    if s.len() > 0 && is_space(s[0]) {
        trim_front(s.drop_first())
    } else {
        s
    }
}

/// `s` without its trailing ASCII whitespace.
pub open spec fn trim_back(s: Seq<u8>) -> Seq<u8>
    decreases s.len(),
{
    if s.len() > 0 && is_space(s.last()) {
        trim_back(s.drop_last())
    } else {
        s
    }
}

/// `s` without leading and trailing ASCII whitespace.
pub open spec fn trim(s: Seq<u8>) -> Seq<u8> {
    trim_back(trim_front(s))
}

pub proof fn lemma_trim_front_no_lead(s: Seq<u8>)
    ensures
        trim_front(s).len() > 0 ==> !is_space(trim_front(s)[0]),
    decreases s.len(),
{
    if s.len() > 0 && is_space(s[0]) {
        lemma_trim_front_no_lead(s.drop_first());
    }
}

pub proof fn lemma_trim_back_no_trail(s: Seq<u8>)
    ensures
        trim_back(s).len() > 0 ==> !is_space(trim_back(s).last()),
    decreases s.len(),
{
    if s.len() > 0 && is_space(s.last()) {
        lemma_trim_back_no_trail(s.drop_last());
    }
}

pub proof fn lemma_trim_back_keeps_head(s: Seq<u8>)
    ensures
        trim_back(s).len() > 0 ==> s.len() > 0 && trim_back(s)[0] == s[0],
    decreases s.len(),
{
    if s.len() > 0 && is_space(s.last()) {
        lemma_trim_back_keeps_head(s.drop_last());
    }
}

/// Trimming an already trimmed sequence changes nothing.
pub proof fn lemma_trim_idempotent(s: Seq<u8>)
    ensures
        trim(trim(s)) == trim(s),
{
    let u = trim_front(s);
    let t = trim_back(u);
    lemma_trim_front_no_lead(s);
    lemma_trim_back_keeps_head(u);
    if t.len() > 0 {
        assert(!is_space(t[0]));
    }
    assert(trim_front(t) == t);
    lemma_trim_back_no_trail(u);
    assert(trim_back(t) == t);
}

pub proof fn lemma_trim_front_preserves_no_byte(s: Seq<u8>, b: u8)
    requires
        no_byte(s, b),
    ensures
        no_byte(trim_front(s), b),
    decreases s.len(),
{
    if s.len() > 0 && is_space(s[0]) {
        assert(forall|i: int| 0 <= i < s.drop_first().len() ==> s.drop_first()[i] == s[i + 1]);
        lemma_trim_front_preserves_no_byte(s.drop_first(), b);
    }
}

pub proof fn lemma_trim_back_preserves_no_byte(s: Seq<u8>, b: u8)
    requires
        no_byte(s, b),
    ensures
        no_byte(trim_back(s), b),
    decreases s.len(),
{
    if s.len() > 0 && is_space(s.last()) {
        lemma_trim_back_preserves_no_byte(s.drop_last(), b);
    }
}

/// `trim_front` drops exactly the longest whitespace prefix.
pub proof fn lemma_trim_front_skip(s: Seq<u8>, k: int)
    requires
        0 <= k <= s.len(),
        forall|j: int| 0 <= j < k ==> is_space(s[j]),
        k < s.len() ==> !is_space(s[k]),
    ensures
        trim_front(s) == s.skip(k),
    decreases k,
{
    if k == 0 {
        assert(s.skip(0) == s);
    } else {
        assert(is_space(s[0]));
        lemma_trim_front_skip(s.drop_first(), k - 1);
        assert(s.drop_first().skip(k - 1) =~= s.skip(k));
    }
}

/// `trim_back` keeps exactly the prefix before the longest whitespace suffix.
pub proof fn lemma_trim_back_take(s: Seq<u8>, k: int)
    requires
        0 <= k <= s.len(),
        forall|j: int| k <= j < s.len() ==> is_space(s[j]),
        k > 0 ==> !is_space(s[k - 1]),
    ensures
        trim_back(s) == s.take(k),
    decreases s.len(),
{
    if k == s.len() {
        if s.len() == 0 {
            assert(s.take(0) =~= s);
        } else {
            assert(!is_space(s.last()));
            assert(s.take(k) =~= s);
        }
    } else {
        assert(is_space(s.last()));
        lemma_trim_back_take(s.drop_last(), k);
        assert(s.drop_last().take(k) =~= s.take(k));
    }
}

/// One trailing carriage return removed, as `str::lines` does after a
/// line feed.
pub open spec fn strip_cr(l: Seq<u8>) -> Seq<u8> {
    if l.len() > 0 && l.last() == CR {
        l.drop_last()
    } else {
        l
    }
}

/// The lines of `c`, split as `str::lines` splits: at each line feed,
/// with one carriage return dropped from the end of a piece that a line
/// feed closed; a final piece with no line feed is kept as it stands,
/// and a trailing line feed opens no empty final line.
pub open spec fn split_lines(c: Seq<u8>) -> Seq<Seq<u8>>
    decreases c.len() via split_lines_decreases
{
    if c.len() == 0 {
        seq![]
    } else {
        let i = find_first(c, NL);
        if i == c.len() {
            seq![c]
        } else {
            seq![strip_cr(c.take(i))] + split_lines(c.skip(i + 1))
        }
    }
}

#[via_fn]
proof fn split_lines_decreases(c: Seq<u8>) {
    lemma_find_first_bounds(c, NL);
}

/// Splitting after a complete CRLF-terminated line yields that line and
/// then the lines of the rest.
pub proof fn lemma_split_lines_step(a: Seq<u8>, rest: Seq<u8>)
    requires
        no_byte(a, NL),
    ensures
        split_lines(a + seq![CR, NL] + rest) == seq![a] + split_lines(rest),
{
    let c = a + seq![CR, NL] + rest;
    let i = a.len() as int;
    assert(c[i] == CR);
    assert(c[i + 1] == NL);
    assert(forall|j: int| 0 <= j < i ==> c[j] == a[j]);
    lemma_find_first_at(c, NL, i + 1);
    assert(c.take(i + 1) =~= a + seq![CR]);
    assert((a + seq![CR]).last() == CR);
    assert(strip_cr(c.take(i + 1)) =~= a);
    assert(c.skip(i + 2) =~= rest);
    assert(split_lines(c) == seq![strip_cr(c.take(i + 1))] + split_lines(rest));
    assert(seq![strip_cr(c.take(i + 1))] =~= seq![a]);
}

/// Every line that splitting yields is free of line feeds.
pub proof fn lemma_split_lines_no_nl(c: Seq<u8>)
    ensures
        forall|k: int|
            0 <= k < split_lines(c).len() ==> no_byte(#[trigger] split_lines(c)[k], NL),
    decreases c.len(),
{
    if c.len() > 0 {
        lemma_find_first_bounds(c, NL);
        let i = find_first(c, NL);
        if i == c.len() {
            assert(no_byte(c, NL));
        } else {
            assert(forall|j: int| 0 <= j < i ==> c.take(i)[j] == c[j]);
            assert(no_byte(c.take(i), NL));
            assert(no_byte(strip_cr(c.take(i)), NL));
            lemma_split_lines_no_nl(c.skip(i + 1));
            assert forall|k: int|
                1 <= k < split_lines(c).len() implies no_byte(#[trigger] split_lines(c)[k], NL) by {
                assert(split_lines(c)[k] == split_lines(c.skip(i + 1))[k - 1]);
            }
        }
    }
}

} // verus!
