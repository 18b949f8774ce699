//! Byte-sequence helpers shared by the parsing modules: equality,
//! prefix tests, byte search, splitting on NUL separators, whitespace
//! trimming, and unsigned decimal numerals.

use vstd::prelude::*;

verus! {

/// Exact index of the first occurrence of `b` in `s` at or after `from`;
/// `s.len()` when there is none.
pub open spec fn spec_find(s: Seq<u8>, b: u8, from: int) -> int
    decreases s.len() - from when 0 <= from <= s.len()
{
    if from >= s.len() {
        s.len() as int
    } else if s[from] == b {
        from
    } else {
        spec_find(s, b, from + 1)
    }
}

pub proof fn lemma_find_props(s: Seq<u8>, b: u8, from: int)
    requires
        0 <= from <= s.len(),
    ensures
        from <= spec_find(s, b, from) <= s.len(),
        spec_find(s, b, from) < s.len() ==> s[spec_find(s, b, from)] == b,
        forall|j: int| from <= j < spec_find(s, b, from) ==> s[j] != b,
    decreases s.len() - from,
{
    if from < s.len() && s[from] != b {
        lemma_find_props(s, b, from + 1);
    }
}

pub fn bytes_eq(a: &[u8], b: &[u8]) -> (r: bool)
    ensures
        r == (a@ == b@),
{
    if a.len() != b.len() {
        assert(a@ != b@) by {
            assert(a@.len() != b@.len());
        }
        return false;
    }
    let n = a.len();
    let mut i: usize = 0;
    while i < n
        invariant
            n == a@.len() == b@.len(),
            i <= n,
            forall|j: int| 0 <= j < i ==> a@[j] == b@[j],
        decreases n - i,
    {
        if a[i] != b[i] {
            return false;
        }
        i += 1;
    }
    proof {
        assert(a@ =~= b@);
    }
    true
}

/// Finding a byte in a suffix is finding it in the whole, shifted.
pub proof fn lemma_find_shift(s: Seq<u8>, b: u8, from: int)
    requires
        0 <= from <= s.len(),
    ensures
        spec_find(s, b, from) == from + spec_find(s.skip(from), b, 0),
    decreases s.len() - from,
{
    lemma_find_shift_aux(s.skip(from), b, s, from, 0);
}

proof fn lemma_find_shift_aux(t: Seq<u8>, b: u8, s: Seq<u8>, from: int, k: int)
    requires
        0 <= from <= s.len(),
        t == s.skip(from),
        0 <= k <= t.len(),
    ensures
        spec_find(s, b, from + k) == from + spec_find(t, b, k),
    decreases t.len() - k,
{
    if k < t.len() && t[k] != b {
        lemma_find_shift_aux(t, b, s, from, k + 1);
    }
}

pub fn find_byte(s: &[u8], b: u8, from: usize) -> (i: usize)
    requires
        from <= s@.len(),
    ensures
        i == spec_find(s@, b, from as int),
{
    let mut i: usize = from;
    while i < s.len()
        invariant
            from <= i <= s@.len(),
            spec_find(s@, b, from as int) == spec_find(s@, b, i as int),
        decreases s@.len() - i,
    {
        if s[i] == b {
            return i;
        }
        i += 1;
    }
    i
}

/// The NUL-separated segments of `s`, in order.  A byte sequence with no
/// NUL is one segment; each NUL ends the segment before it, so a trailing
/// NUL yields a final empty segment.
pub open spec fn spec_split_nul(s: Seq<u8>) -> Seq<Seq<u8>>
    decreases s.len(),
{
    let i = spec_find(s, 0, 0);
    if 0 <= i < s.len() {
        seq![s.take(i)] + spec_split_nul(s.skip(i + 1))
    } else {
        seq![s]
    }
}

pub fn split_nul(data: &[u8]) -> (segs: Vec<Vec<u8>>)
    ensures
        segs@.map_values(|v: Vec<u8>| v@) == spec_split_nul(data@),
{
    let n = data.len();
    let mut segs: Vec<Vec<u8>> = Vec::new();
    let mut start: usize = 0;
    proof {
        assert(data@.skip(0) =~= data@);
        assert(segs@.map_values(|v: Vec<u8>| v@) =~= Seq::<Seq<u8>>::empty());
        assert(Seq::<Seq<u8>>::empty() + spec_split_nul(data@) =~= spec_split_nul(data@));
    }
    loop
        invariant
            n == data@.len(),
            start <= n,
            spec_split_nul(data@) == segs@.map_values(|v: Vec<u8>| v@) + spec_split_nul(
                data@.skip(start as int),
            ),
        decreases n - start,
    {
        let i = find_byte(data, 0, start);
        proof {
            lemma_find_props(data@, 0, start as int);
            lemma_find_shift(data@, 0, start as int);
        }
        let ghost suffix = data@.skip(start as int);
        let ghost pre = segs@.map_values(|v: Vec<u8>| v@);
        let seg = vstd::slice::slice_to_vec(vstd::slice::slice_subrange(data, start, i));
        if i < n {
            proof {
                assert(spec_find(suffix, 0, 0) == i - start);
                assert(suffix.take(i - start) =~= data@.subrange(start as int, i as int));
                assert(suffix.skip(i - start + 1) =~= data@.skip(i + 1));
                assert(spec_split_nul(suffix) == seq![seg@] + spec_split_nul(data@.skip(i + 1)));
                assert((pre + seq![seg@]).map_values(|v: Seq<u8>| v) + spec_split_nul(
                    data@.skip(i + 1),
                ) =~= pre + spec_split_nul(suffix));
            }
            segs.push(seg);
            proof {
                assert(segs@.map_values(|v: Vec<u8>| v@) =~= pre + seq![seg@]);
                assert(pre + seq![seg@] + spec_split_nul(data@.skip(i + 1)) =~= pre
                    + spec_split_nul(suffix));
            }
            start = i + 1;
        } else {
            proof {
                assert(spec_find(suffix, 0, 0) == suffix.len());
                assert(suffix =~= data@.subrange(start as int, i as int));
                assert(spec_split_nul(suffix) == seq![seg@]);
            }
            segs.push(seg);
            proof {
                assert(segs@.map_values(|v: Vec<u8>| v@) =~= pre + seq![seg@]);
            }
            return segs;
        }
    }
}

pub fn starts_with(s: &[u8], p: &[u8]) -> (r: bool)
    ensures
        r == (p@.len() <= s@.len() && s@.take(p@.len() as int) == p@),
{
    if p.len() > s.len() {
        return false;
    }
    bytes_eq(vstd::slice::slice_subrange(s, 0, p.len()), p)
}

pub open spec fn is_ascii_space(b: u8) -> bool {
    b == 32 || 9 <= b <= 13
}

/// `s` with ASCII whitespace removed from both ends.
pub open spec fn spec_trim(s: Seq<u8>) -> Seq<u8>
    decreases s.len(),
{
    if s.len() > 0 && is_ascii_space(s[0]) {
        spec_trim(s.drop_first())
    } else if s.len() > 0 && is_ascii_space(s.last()) {
        spec_trim(s.drop_last())
    } else {
        s
    }
}

pub fn trim_ascii(data: &[u8]) -> (r: Vec<u8>)
    ensures
        r@ == spec_trim(data@),
{
    let n = data.len();
    let mut lo: usize = 0;
    proof {
        assert(data@.skip(0) =~= data@);
    }
    loop
        invariant
            n == data@.len(),
            lo <= n,
            spec_trim(data@) == spec_trim(data@.skip(lo as int)),
        ensures
            lo <= n,
            spec_trim(data@) == spec_trim(data@.skip(lo as int)),
            lo < n ==> !is_ascii_space(data@[lo as int]),
        decreases n - lo,
    {
        if lo >= n {
            break ;
        }
        let b = data[lo];
        if !(b == 32 || (9 <= b && b <= 13)) {
            break ;
        }
        proof {
            assert(data@.skip(lo as int).drop_first() =~= data@.skip(lo as int + 1));
        }
        lo += 1;
    }
    let mut hi: usize = n;
    proof {
        assert(data@.subrange(lo as int, hi as int) =~= data@.skip(lo as int));
    }
    loop
        invariant
            n == data@.len(),
            lo <= hi <= n,
            lo < n ==> !is_ascii_space(data@[lo as int]),
            spec_trim(data@) == spec_trim(data@.subrange(lo as int, hi as int)),
        ensures
            lo <= hi <= n,
            spec_trim(data@) == spec_trim(data@.subrange(lo as int, hi as int)),
            hi > lo ==> !is_ascii_space(data@[hi as int - 1]),
        decreases hi,
    {
        if hi <= lo {
            break ;
        }
        let b = data[hi - 1];
        if !(b == 32 || (9 <= b && b <= 13)) {
            break ;
        }
        proof {
            let s = data@.subrange(lo as int, hi as int);
            assert(s[0] == data@[lo as int]);
            assert(s.drop_last() =~= data@.subrange(lo as int, hi as int - 1));
        }
        hi -= 1;
    }
    let out = vstd::slice::slice_to_vec(vstd::slice::slice_subrange(data, lo, hi));
    proof {
        let s = data@.subrange(lo as int, hi as int);
        if s.len() > 0 {
            assert(s[0] == data@[lo as int]);
            assert(s.last() == data@[hi as int - 1]);
        }
    }
    out
}

pub open spec fn is_ascii_digit(b: u8) -> bool {
    48 <= b <= 57
}

pub open spec fn all_digits(s: Seq<u8>) -> bool {
    forall|i: int| 0 <= i < s.len() ==> is_ascii_digit(#[trigger] s[i])
}

/// Value of a string of decimal digits, most significant first.
pub open spec fn digits_val(s: Seq<u8>) -> int
    decreases s.len(),
{
    if s.len() == 0 {
        0
    } else {
        digits_val(s.drop_last()) * 10 + (s.last() - 48)
    }
}

/// Unsigned decimal interpretation of `s`: defined exactly when `s` is a
/// non-empty run of digits whose value fits in a `u32`.
pub open spec fn spec_parse_u32(s: Seq<u8>) -> Option<u32> {
    if s.len() > 0 && all_digits(s) && digits_val(s) <= u32::MAX {
        Some(digits_val(s) as u32)
    } else {
        None
    }
}

pub proof fn lemma_digits_val_nonneg(s: Seq<u8>)
    requires
        all_digits(s),
    ensures
        digits_val(s) >= 0,
    decreases s.len(),
{
    if s.len() > 0 {
        assert(is_ascii_digit(s[s.len() - 1]));
        lemma_digits_val_nonneg(s.drop_last());
    }
}

/// A digit string is worth at least any of its prefixes.
pub proof fn lemma_digits_val_prefix(s: Seq<u8>, i: int)
    requires
        all_digits(s),
        0 <= i <= s.len(),
    ensures
        digits_val(s.take(i)) <= digits_val(s),
    decreases s.len() - i,
{
    if i < s.len() {
        lemma_digits_val_prefix(s, i + 1);
        assert(s.take(i + 1).drop_last() =~= s.take(i));
        assert(is_ascii_digit(s[i]));
        assert(forall|j: int| 0 <= j < i ==> is_ascii_digit(#[trigger] s.take(i)[j]));
        lemma_digits_val_nonneg(s.take(i));
        assert(s.take(i + 1).last() == s[i]);
        assert(digits_val(s.take(i + 1)) == digits_val(s.take(i)) * 10 + (s[i] - 48));
    } else {
        assert(s.take(i) =~= s);
    }
}

pub fn parse_u32_digits(s: &[u8]) -> (r: Option<u32>)
    ensures
        r == spec_parse_u32(s@),
{
    if s.len() == 0 {
        return None;
    }
    let n = s.len();
    let mut acc: u64 = 0;
    let mut i: usize = 0;
    while i < n
        invariant
            n == s@.len(),
            0 < n,
            i <= n,
            all_digits(s@.take(i as int)),
            acc == digits_val(s@.take(i as int)),
            acc <= u32::MAX,
        decreases n - i,
    {
        let b = s[i];
        if b < 48 || b > 57 {
            assert(!is_ascii_digit(s@[i as int]));
            return None;
        }
        acc = acc * 10 + (b - 48) as u64;
        proof {
            assert(s@.take(i as int + 1).drop_last() =~= s@.take(i as int));
            assert(s@.take(i as int + 1).last() == s@[i as int]);
            assert(forall|j: int|
                0 <= j < i + 1 ==> is_ascii_digit(#[trigger] s@.take(i as int + 1)[j]));
        }
        i += 1;
        if acc > 0xffff_ffff {
            proof {
                if all_digits(s@) {
                    lemma_digits_val_prefix(s@, i as int);
                }
            }
            return None;
        }
    }
    proof {
        assert(s@.take(n as int) =~= s@);
    }
    Some(acc as u32)
}

/// The decimal digits of `v`, most significant first, no sign and no
/// leading zero (except for the single digit of zero itself).
pub open spec fn spec_u32_digits(v: int) -> Seq<u8>
    decreases v when v >= 0
{
    if v <= 9 {
        seq![(48 + v) as u8]
    } else {
        spec_u32_digits(v / 10).push((48 + v % 10) as u8)
    }
}

fn push_u32_digits(v: u32, out: &mut Vec<u8>)
    ensures
        final(out)@ == old(out)@ + spec_u32_digits(v as int),
    decreases v,
{
    if v <= 9 {
        out.push(48 + v as u8);
        proof {
            assert(old(out)@ + spec_u32_digits(v as int) =~= old(out)@.push((48 + v) as u8));
        }
    } else {
        push_u32_digits(v / 10, out);
        out.push(48 + (v % 10) as u8);
        proof {
            assert(old(out)@ + spec_u32_digits(v as int) =~= (old(out)@ + spec_u32_digits(
                v as int / 10,
            )).push((48 + v as int % 10) as u8));
        }
    }
}

pub fn u32_digits(v: u32) -> (r: Vec<u8>)
    ensures
        r@ == spec_u32_digits(v as int),
{
    let mut out: Vec<u8> = Vec::new();
    push_u32_digits(v, &mut out);
    proof {
        assert(Seq::<u8>::empty() + spec_u32_digits(v as int) =~= spec_u32_digits(v as int));
    }
    out
}

pub proof fn lemma_rendered_digits_are_digits(v: int)
    requires
        v >= 0,
    ensures
        spec_u32_digits(v).len() > 0,
        all_digits(spec_u32_digits(v)),
    decreases v,
{
    if v > 9 {
        lemma_rendered_digits_are_digits(v / 10);
        let d = spec_u32_digits(v / 10);
        assert(forall|j: int|
            0 <= j < d.len() ==> is_ascii_digit(#[trigger] d.push((48 + v % 10) as u8)[j]));
        assert(is_ascii_digit(d.push((48 + v % 10) as u8).last()));
    }
}

/// Rendering a value and parsing it back returns the value: the decimal
/// codec round-trips.
pub proof fn lemma_parse_of_rendered(v: u32)
    ensures
        spec_parse_u32(spec_u32_digits(v as int)) == Some(v),
{
    lemma_rendered_digits_are_digits(v as int);
    lemma_digits_val_of_rendered(v as int);
}

proof fn lemma_digits_val_of_rendered(v: int)
    requires
        v >= 0,
    ensures
        digits_val(spec_u32_digits(v)) == v,
    decreases v,
{
    if v <= 9 {
        let d = spec_u32_digits(v);
        assert(d == seq![(48 + v) as u8]);
        assert(d.drop_last() =~= Seq::<u8>::empty());
        assert(digits_val(Seq::<u8>::empty()) == 0);
        assert(((48 + v) as u8) as int == 48 + v);
        assert(digits_val(d) == digits_val(d.drop_last()) * 10 + (d.last() - 48));
    } else {
        lemma_digits_val_of_rendered(v / 10);
        let d = spec_u32_digits(v / 10);
        let e = d.push((48 + v % 10) as u8);
        assert(spec_u32_digits(v) == e);
        assert(e.drop_last() =~= d);
        assert(0 <= v % 10 <= 9);
        assert(((48 + v % 10) as u8) as int == 48 + v % 10);
        assert(e.last() == (48 + v % 10) as u8);
        assert(digits_val(e) == digits_val(e.drop_last()) * 10 + (e.last() - 48));
        assert(digits_val(e) == digits_val(d) * 10 + (v % 10));
        assert(v / 10 * 10 + v % 10 == v);
    }
}

} // verus!
