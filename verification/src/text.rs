//! Verified text helpers: equality, substring search, trimming, splitting
//! and joining, used by the detector and the extractors.

use vstd::prelude::*;

verus! {

// ---------------------------------------------------------------------------
// Equality
// ---------------------------------------------------------------------------

/// Character-wise equality of two string slices.
pub fn str_eq(a: &str, b: &str) -> (r: bool)
    ensures
        r == (a@ == b@),
{
    let alen = a.unicode_len();
    let blen = b.unicode_len();
    if alen != blen {
        return false;
    }
    let mut i: usize = 0;
    while i < alen
        invariant
            alen == a@.len(),
            alen == b@.len(),
            i <= alen,
            forall|j: int| 0 <= j < i ==> a@[j] == b@[j],
        decreases alen - i,
    {
        if a.get_char(i) != b.get_char(i) {
            return false;
        }
        i += 1;
    }
    proof {
        assert(a@ =~= b@);
    }
    true
}

// ---------------------------------------------------------------------------
// Substring search
// ---------------------------------------------------------------------------

/// The needle `n` occurs in `h` starting at index `i`.
pub open spec fn occurs_at(h: Seq<char>, n: Seq<char>, i: int) -> bool {
    0 <= i && i + n.len() <= h.len() && h.subrange(i, i + n.len() as int) == n
}

/// The needle `n` occurs somewhere in `h`.
pub open spec fn spec_contains(h: Seq<char>, n: Seq<char>) -> bool {
    exists|i: int| occurs_at(h, n, i)
}

/// Does `n` occur in `h` at position `i`?
pub fn matches_at(h: &str, n: &str, i: usize) -> (r: bool)
    requires
        i + n@.len() <= h@.len(),
    ensures
        r == occurs_at(h@, n@, i as int),
{
    let hlen = h.unicode_len();
    let nlen = n.unicode_len();
    let mut j: usize = 0;
    while j < nlen
        invariant
            hlen == h@.len(),
            i + nlen <= hlen,
            nlen == n@.len(),
            j <= nlen,
            forall|m: int| 0 <= m < j ==> h@[i + m] == n@[m],
        decreases nlen - j,
    {
        if h.get_char(i + j) != n.get_char(j) {
            proof {
                assert(h@.subrange(i as int, i + nlen as int)[j as int] == h@[i + j]);
            }
            return false;
        }
        j += 1;
    }
    proof {
        assert(h@.subrange(i as int, i + nlen as int) =~= n@);
    }
    true
}

/// Does `h` start with the prefix `n`?
pub fn starts_with_str(h: &str, n: &str) -> (r: bool)
    ensures
        r == (n@.len() <= h@.len() && h@.subrange(0, n@.len() as int) == n@),
{
    let hlen = h.unicode_len();
    let nlen = n.unicode_len();
    if nlen > hlen {
        return false;
    }
    matches_at(h, n, 0)
}

/// Substring search: does `n` occur anywhere in `h`?
pub fn contains_str(h: &str, n: &str) -> (r: bool)
    ensures
        r == spec_contains(h@, n@),
{
    let hlen = h.unicode_len();
    let nlen = n.unicode_len();
    if nlen > hlen {
        return false;
    }
    if nlen == 0 {
        proof {
            assert(h@.subrange(0, 0) =~= n@);
            assert(occurs_at(h@, n@, 0));
        }
        return true;
    }
    let mut i: usize = 0;
    while i <= hlen - nlen
        invariant
            1 <= nlen <= hlen,
            hlen == h@.len(),
            nlen == n@.len(),
            i <= hlen - nlen + 1,
            forall|k: int| 0 <= k < i ==> !occurs_at(h@, n@, k),
        decreases hlen - nlen - i + 1,
    {
        if matches_at(h, n, i) {
            return true;
        }
        i += 1;
    }
    false
}

// ---------------------------------------------------------------------------
// Trimming
// ---------------------------------------------------------------------------

/// Whitespace characters recognised by [`trim_str`].
pub open spec fn spec_is_space(c: char) -> bool {
    c == ' ' || c == '\t' || c == '\r' || c == '\n'
}

/// Is `c` a whitespace character?
pub fn is_space(c: char) -> (r: bool)
    ensures
        r == spec_is_space(c),
{
    c == ' ' || c == '\t' || c == '\r' || c == '\n'
}

/// `s` with leading whitespace removed.
pub open spec fn spec_trim_left(s: Seq<char>) -> Seq<char>
    decreases s.len(),
{
    if s.len() > 0 && spec_is_space(s[0]) {
        spec_trim_left(s.skip(1))
    } else {
        s
    }
}

/// `s` with trailing whitespace removed.
pub open spec fn spec_trim_right(s: Seq<char>) -> Seq<char>
    decreases s.len(),
{
    if s.len() > 0 && spec_is_space(s[s.len() - 1]) {
        spec_trim_right(s.take(s.len() - 1))
    } else {
        s
    }
}

/// `s` with leading and trailing whitespace removed.
pub open spec fn spec_trim(s: Seq<char>) -> Seq<char> {
    spec_trim_right(spec_trim_left(s))
}

proof fn lemma_trim_left_skip(s: Seq<char>, k: int)
    requires
        0 <= k <= s.len(),
        forall|i: int| 0 <= i < k ==> spec_is_space(s[i]),
        k == s.len() || !spec_is_space(s[k]),
    ensures
        spec_trim_left(s) == s.skip(k),
    decreases k,
{
    if k == 0 {
        assert(s.skip(0) =~= s);
    } else {
        lemma_trim_left_skip(s.skip(1), k - 1);
        assert(s.skip(1).skip(k - 1) =~= s.skip(k));
    }
}

proof fn lemma_trim_right_take(s: Seq<char>, k: int)
    requires
        0 <= k <= s.len(),
        forall|i: int| k <= i < s.len() ==> spec_is_space(s[i]),
        k == 0 || !spec_is_space(s[k - 1]),
    ensures
        spec_trim_right(s) == s.take(k),
    decreases s.len() - k,
{
    if k == s.len() {
        assert(s.take(k) =~= s);
    } else {
        lemma_trim_right_take(s.take(s.len() - 1), k);
        assert(s.take(s.len() - 1).take(k) =~= s.take(k));
    }
}

/// Remove leading and trailing whitespace.
pub fn trim_str(s: &str) -> (r: &str)
    ensures
        r@ == spec_trim(s@),
{
    let len = s.unicode_len();
    let mut start: usize = 0;
    while start < len && is_space(s.get_char(start))
        invariant
            len == s@.len(),
            start <= len,
            forall|i: int| 0 <= i < start ==> spec_is_space(s@[i]),
        decreases len - start,
    {
        start += 1;
    }
    let mut end: usize = len;
    while end > start && is_space(s.get_char(end - 1))
        invariant
            len == s@.len(),
            start <= end <= len,
            forall|i: int| end <= i < len ==> spec_is_space(s@[i]),
            start == len || !spec_is_space(s@[start as int]),
        decreases end,
    {
        end -= 1;
    }
    proof {
        lemma_trim_left_skip(s@, start as int);
        let t = s@.skip(start as int);
        lemma_trim_right_take(t, end - start);
        assert(t.take(end - start) =~= s@.subrange(start as int, end as int));
    }
    s.substring_char(start, end)
}

// ---------------------------------------------------------------------------
// Splitting
// ---------------------------------------------------------------------------

/// Index of the first occurrence of `sep` in `s`, or `s.len()` if none.
pub open spec fn first_sep(s: Seq<char>, sep: char) -> int
    decreases s.len(),
{
    if s.len() == 0 {
        0
    } else if s[0] == sep {
        0
    } else {
        1 + first_sep(s.skip(1), sep)
    }
}

proof fn lemma_first_sep(s: Seq<char>, sep: char)
    ensures
        0 <= first_sep(s, sep) <= s.len(),
        forall|i: int| 0 <= i < first_sep(s, sep) ==> s[i] != sep,
        first_sep(s, sep) < s.len() ==> s[first_sep(s, sep)] == sep,
    decreases s.len(),
{
    if s.len() > 0 && s[0] != sep {
        lemma_first_sep(s.skip(1), sep);
        assert forall|i: int| 0 <= i < first_sep(s, sep) implies s[i] != sep by {
            if i > 0 {
                assert(s.skip(1)[i - 1] == s[i]);
            }
        }
    }
}

proof fn lemma_first_sep_is(s: Seq<char>, sep: char, k: int)
    requires
        0 <= k <= s.len(),
        forall|i: int| 0 <= i < k ==> s[i] != sep,
        k < s.len() ==> s[k] == sep,
    ensures
        first_sep(s, sep) == k,
{
    lemma_first_sep(s, sep);
}

/// The parts of `s` between occurrences of `sep`, in order. An input without
/// any separator yields a single part; every separator adds one part.
pub open spec fn spec_split(s: Seq<char>, sep: char) -> Seq<Seq<char>>
    decreases s.len() via spec_split_decreases
{
    let i = first_sep(s, sep);
    if i == s.len() {
        seq![s]
    } else {
        seq![s.take(i)] + spec_split(s.skip(i + 1), sep)
    }
}

#[via_fn]
proof fn spec_split_decreases(s: Seq<char>, sep: char) {
    lemma_first_sep(s, sep);
}

/// Split `s` at every occurrence of `sep`.
pub fn split_str(s: &str, sep: char) -> (r: Vec<String>)
    ensures
        r.deep_view() == spec_split(s@, sep),
{
    let len = s.unicode_len();
    let mut r: Vec<String> = Vec::new();
    let mut start: usize = 0;
    let mut i: usize = 0;
    proof {
        assert(r.deep_view() =~= Seq::<Seq<char>>::empty());
        assert(s@.skip(0) =~= s@);
        assert(r.deep_view() + spec_split(s@, sep) =~= spec_split(s@, sep));
    }
    while i < len
        invariant
            len == s@.len(),
            start <= i <= len,
            forall|k: int| start <= k < i ==> s@[k] != sep,
            spec_split(s@, sep) == r.deep_view() + spec_split(s@.skip(start as int), sep),
        decreases len - i,
    {
        if s.get_char(i) == sep {
            let part = s.substring_char(start, i).to_owned();
            let ghost prev = r.deep_view();
            proof {
                let t = s@.skip(start as int);
                assert forall|m: int| 0 <= m < i - start implies t[m] != sep by {
                    assert(t[m] == s@[start + m]);
                }
                assert(t[i - start] == s@[i as int]);
                lemma_first_sep_is(t, sep, i - start);
                assert(t.take(i - start) =~= s@.subrange(start as int, i as int));
                assert(t.skip(i - start + 1) =~= s@.skip(i + 1));
                assert(spec_split(t, sep) == seq![part@] + spec_split(s@.skip(i + 1), sep));
            }
            r.push(part);
            proof {
                assert(r.deep_view() =~= prev.push(part@));
                assert(prev + (seq![part@] + spec_split(s@.skip(i + 1), sep)) =~= prev.push(
                    part@,
                ) + spec_split(s@.skip(i + 1), sep));
            }
            start = i + 1;
        }
        i += 1;
    }
    let last = s.substring_char(start, len).to_owned();
    let ghost prev = r.deep_view();
    proof {
        let t = s@.skip(start as int);
        assert forall|m: int| 0 <= m < t.len() implies t[m] != sep by {
            assert(t[m] == s@[start + m]);
        }
        lemma_first_sep_is(t, sep, t.len() as int);
        assert(t =~= s@.subrange(start as int, len as int));
        assert(spec_split(t, sep) == seq![t]);
    }
    r.push(last);
    proof {
        assert(r.deep_view() =~= prev.push(last@));
        assert(prev + seq![last@] =~= prev.push(last@));
        assert(r.deep_view() == spec_split(s@, sep));
    }
    r
}

// ---------------------------------------------------------------------------
// Joining
// ---------------------------------------------------------------------------

/// The parts joined with `sep` between consecutive parts.
pub open spec fn spec_join(parts: Seq<Seq<char>>, sep: Seq<char>) -> Seq<char>
    decreases parts.len(),
{
    if parts.len() == 0 {
        Seq::empty()
    } else if parts.len() == 1 {
        parts[0]
    } else {
        parts[0] + sep + spec_join(parts.skip(1), sep)
    }
}

proof fn lemma_join_snoc(parts: Seq<Seq<char>>, x: Seq<char>, sep: Seq<char>)
    requires
        parts.len() >= 1,
    ensures
        spec_join(parts.push(x), sep) == spec_join(parts, sep) + sep + x,
    decreases parts.len(),
{
    if parts.len() == 1 {
        assert(parts.push(x)[0] == parts[0]);
        assert(parts.push(x).skip(1) =~= seq![x]);
        assert(spec_join(seq![x], sep) == x);
    } else {
        lemma_join_snoc(parts.skip(1), x, sep);
        assert(parts.push(x).skip(1) =~= parts.skip(1).push(x));
        assert(parts.push(x)[0] == parts[0]);
    }
}

/// Join the parts with `sep` between them.
pub fn join_with(parts: &Vec<String>, sep: &str) -> (r: String)
    ensures
        r@ == spec_join(parts.deep_view(), sep@),
{
    let mut r = String::new();
    let mut i: usize = 0;
    while i < parts.len()
        invariant
            i <= parts.len(),
            r@ == spec_join(parts.deep_view().take(i as int), sep@),
        decreases parts.len() - i,
    {
        proof {
            let pv = parts.deep_view();
            if i > 0 {
                lemma_join_snoc(pv.take(i as int), pv[i as int], sep@);
            }
            assert(pv.take(i as int).push(pv[i as int]) =~= pv.take(i + 1));
            assert(spec_join(seq![pv[i as int]], sep@) == pv[i as int]);
        }
        if i > 0 {
            r.append(sep);
        }
        r.append(parts[i].as_str());
        i += 1;
    }
    proof {
        assert(parts.deep_view().take(parts.len() as int) =~= parts.deep_view());
    }
    r
}

/// Append a copy of every string of `src` to `dst`, in order.
#[verifier::loop_isolation(false)]
pub fn append_all(dst: &mut Vec<String>, src: &Vec<String>)
    ensures
        final(dst).deep_view() == old(dst).deep_view() + src.deep_view(),
{
    let ghost base = old(dst)@;
    let mut i: usize = 0;
    proof {
        assert(dst@ =~= base + src@.take(0));
    }
    while i < src.len()
        invariant
            i <= src@.len(),
            dst@ == base + src@.take(i as int),
        decreases src@.len() - i,
    {
        let s = src[i].clone();
        dst.push(s);
        proof {
            assert(dst@ =~= base + src@.take(i + 1));
        }
        i += 1;
    }
    proof {
        assert(src@.take(src@.len() as int) =~= src@);
        assert(forall|k: int|
            0 <= k < dst@.len() ==> #[trigger] dst.deep_view()[k] == dst@[k].deep_view());
        assert(forall|k: int|
            0 <= k < base.len() ==> #[trigger] old(dst).deep_view()[k] == base[k].deep_view());
        assert(forall|k: int|
            0 <= k < src@.len() ==> #[trigger] src.deep_view()[k] == src@[k].deep_view());
        assert(dst.deep_view() =~= old(dst).deep_view() + src.deep_view());
    }
}

// ---------------------------------------------------------------------------
// Decimal numbers
// ---------------------------------------------------------------------------

/// Is `c` a decimal digit?
pub open spec fn spec_is_digit(c: char) -> bool {
    48 <= c as u32 && c as u32 <= 57
}

/// The numeric value of the digit `c`.
pub open spec fn digit_val(c: char) -> nat {
    ((c as u32) - 48) as nat
}

/// Every character of `s` is a decimal digit.
pub open spec fn spec_all_digits(s: Seq<char>) -> bool {
    forall|i: int| 0 <= i < s.len() ==> spec_is_digit(s[i])
}

/// The value of `s` read as a decimal numeral.
pub open spec fn spec_digits_value(s: Seq<char>) -> nat
    decreases s.len(),
{
    if s.len() == 0 {
        0
    } else {
        spec_digits_value(s.take(s.len() - 1)) * 10 + digit_val(s[s.len() - 1])
    }
}

/// The value of `s` once trimmed, when it is a non-empty all-digit numeral
/// that fits in `usize`; every other input reads as zero.
pub open spec fn spec_parse_usize(s: Seq<char>) -> nat {
    let t = spec_trim(s);
    if t.len() > 0 && spec_all_digits(t) && spec_digits_value(t) <= usize::MAX as nat {
        spec_digits_value(t)
    } else {
        0
    }
}

proof fn lemma_digits_value_prefix(s: Seq<char>, j: int)
    requires
        0 <= j <= s.len(),
    ensures
        spec_digits_value(s.take(j)) <= spec_digits_value(s),
    decreases s.len() - j,
{
    if j < s.len() {
        lemma_digits_value_prefix(s.take(s.len() - 1), j);
        assert(s.take(s.len() - 1).take(j) =~= s.take(j));
    } else {
        assert(s.take(j) =~= s);
    }
}

/// Read a whole trimmed line as a decimal `usize`; any other input,
/// and any numeral too large for `usize`, reads as zero.
pub fn parse_usize(s: &str) -> (r: usize)
    ensures
        r as nat == spec_parse_usize(s@),
{
    let t = trim_str(s);
    let len = t.unicode_len();
    if len == 0 {
        return 0;
    }
    let mut acc: usize = 0;
    let mut i: usize = 0;
    while i < len
        invariant
            len == t@.len(),
            t@ == spec_trim(s@),
            0 < len,
            i <= len,
            spec_all_digits(t@.take(i as int)),
            acc as nat == spec_digits_value(t@.take(i as int)),
        decreases len - i,
    {
        let c = t.get_char(i);
        let cv = c as u32;
        if cv < 48 || cv > 57 {
            return 0;
        }
        let d: usize = (cv - 48) as usize;
        let limit: usize = usize::MAX / 10;
        let last: usize = usize::MAX % 10;
        if acc > limit || (acc == limit && d > last) {
            proof {
                vstd::arithmetic::div_mod::lemma_fundamental_div_mod(usize::MAX as int, 10);
                assert(t@.take(i + 1).take(i as int) =~= t@.take(i as int));
                assert(spec_digits_value(t@.take(i + 1)) > usize::MAX as nat);
                lemma_digits_value_prefix(t@, i + 1);
            }
            return 0;
        }
        proof {
            vstd::arithmetic::div_mod::lemma_fundamental_div_mod(usize::MAX as int, 10);
            assert(t@.take(i + 1).take(i as int) =~= t@.take(i as int));
        }
        acc = acc * 10 + d;
        i += 1;
    }
    proof {
        assert(t@.take(len as int) =~= t@);
    }
    acc
}

} // verus!
