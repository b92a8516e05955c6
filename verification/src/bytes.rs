//! Byte-sequence helpers shared by the parser, router and response
//! writer: whitespace scanning, trimming, searching, prefix tests and
//! decimal digits, each exec function proved equal to its spec mirror.

use vstd::prelude::*;

verus! {

/// The ASCII whitespace bytes that separate and surround tokens:
/// tab, LF, vertical tab, form feed, CR and space.
pub open spec fn is_ws(b: u8) -> bool {
    b == 9 || b == 10 || b == 11 || b == 12 || b == 13 || b == 32
}

pub fn byte_is_ws(b: u8) -> (r: bool)
    ensures
        r == is_ws(b),
{
    b == 9 || b == 10 || b == 11 || b == 12 || b == 13 || b == 32
}

/// Index of the first occurrence of `target` at or after `pos`, or
/// `s.len()` when there is none.
pub open spec fn find_from(s: Seq<u8>, pos: int, target: u8) -> int
    decreases s.len() - pos when 0 <= pos <= s.len()
{
    if pos >= s.len() {
        s.len() as int
    } else if s[pos] == target {
        pos
    } else {
        find_from(s, pos + 1, target)
    }
}

pub proof fn lemma_find_from(s: Seq<u8>, pos: int, target: u8)
    requires
        0 <= pos <= s.len(),
    ensures
        pos <= find_from(s, pos, target) <= s.len(),
        forall|k: int| pos <= k < find_from(s, pos, target) ==> s[k] != target,
        find_from(s, pos, target) < s.len() ==> s[find_from(s, pos, target)] == target,
    decreases s.len() - pos,
{
    if pos < s.len() && s[pos] != target {
        lemma_find_from(s, pos + 1, target);
    }
}

pub fn find_byte(s: &Vec<u8>, pos: usize, target: u8) -> (r: usize)
    requires
        pos <= s@.len(),
    ensures
        r == find_from(s@, pos as int, target),
{
    let mut i: usize = pos;
    while i < s.len()
        invariant
            pos <= i <= s@.len(),
            find_from(s@, pos as int, target) == find_from(s@, i as int, target),
        decreases s@.len() - i,
    {
        if s[i] == target {
            return i;
        }
        i = i + 1;
    }
    i
}

/// Index of the first non-whitespace byte at or after `pos`, or `s.len()`.
pub open spec fn skip_ws(s: Seq<u8>, pos: int) -> int
    decreases s.len() - pos when 0 <= pos <= s.len()
{
    if pos >= s.len() {
        s.len() as int
    } else if is_ws(s[pos]) {
        skip_ws(s, pos + 1)
    } else {
        pos
    }
}

pub proof fn lemma_skip_ws(s: Seq<u8>, pos: int)
    requires
        0 <= pos <= s.len(),
    ensures
        pos <= skip_ws(s, pos) <= s.len(),
        forall|k: int| pos <= k < skip_ws(s, pos) ==> is_ws(s[k]),
        skip_ws(s, pos) < s.len() ==> !is_ws(s[skip_ws(s, pos)]),
    decreases s.len() - pos,
{
    if pos < s.len() && is_ws(s[pos]) {
        lemma_skip_ws(s, pos + 1);
    }
}

pub fn skip_ws_from(s: &Vec<u8>, pos: usize) -> (r: usize)
    requires
        pos <= s@.len(),
    ensures
        r == skip_ws(s@, pos as int),
{
    let mut i: usize = pos;
    while i < s.len()
        invariant
            pos <= i <= s@.len(),
            skip_ws(s@, pos as int) == skip_ws(s@, i as int),
        decreases s@.len() - i,
    {
        if !byte_is_ws(s[i]) {
            return i;
        }
        i = i + 1;
    }
    i
}

/// Index of the first whitespace byte at or after `pos`, or `s.len()`:
/// the end of the token that starts at `pos`.
pub open spec fn token_end(s: Seq<u8>, pos: int) -> int
    decreases s.len() - pos when 0 <= pos <= s.len()
{
    if pos >= s.len() {
        s.len() as int
    } else if is_ws(s[pos]) {
        pos
    } else {
        token_end(s, pos + 1)
    }
}

pub proof fn lemma_token_end(s: Seq<u8>, pos: int)
    requires
        0 <= pos <= s.len(),
    ensures
        pos <= token_end(s, pos) <= s.len(),
        forall|k: int| pos <= k < token_end(s, pos) ==> !is_ws(s[k]),
        token_end(s, pos) < s.len() ==> is_ws(s[token_end(s, pos)]),
    decreases s.len() - pos,
{
    if pos < s.len() && !is_ws(s[pos]) {
        lemma_token_end(s, pos + 1);
    }
}

pub fn token_end_from(s: &Vec<u8>, pos: usize) -> (r: usize)
    requires
        pos <= s@.len(),
    ensures
        r == token_end(s@, pos as int),
{
    let mut i: usize = pos;
    while i < s.len()
        invariant
            pos <= i <= s@.len(),
            token_end(s@, pos as int) == token_end(s@, i as int),
        decreases s@.len() - i,
    {
        if byte_is_ws(s[i]) {
            return i;
        }
        i = i + 1;
    }
    i
}

/// The least end position: scanning backward from `pos`, the position
/// just after the last non-whitespace byte, or 0 when all of
/// `s[..pos]` is whitespace.
pub open spec fn rskip_ws(s: Seq<u8>, pos: int) -> int
    decreases pos when 0 <= pos <= s.len()
{
    if pos <= 0 {
        0
    } else if is_ws(s[pos - 1]) {
        rskip_ws(s, pos - 1)
    } else {
        pos
    }
}

pub proof fn lemma_rskip_ws(s: Seq<u8>, pos: int)
    requires
        0 <= pos <= s.len(),
    ensures
        0 <= rskip_ws(s, pos) <= pos,
        forall|k: int| rskip_ws(s, pos) <= k < pos ==> is_ws(s[k]),
        rskip_ws(s, pos) > 0 ==> !is_ws(s[rskip_ws(s, pos) - 1]),
    decreases pos,
{
    if pos > 0 && is_ws(s[pos - 1]) {
        lemma_rskip_ws(s, pos - 1);
    }
}

/// `s` with leading and trailing whitespace removed.
pub open spec fn trim_of(s: Seq<u8>) -> Seq<u8> {
    let a = skip_ws(s, 0);
    let b = rskip_ws(s, s.len() as int);
    if a <= b {
        s.subrange(a, b)
    } else {
        Seq::empty()
    }
}

pub fn trim(s: &Vec<u8>) -> (v: Vec<u8>)
    ensures
        v@ == trim_of(s@),
{
    proof {
        lemma_skip_ws(s@, 0);
        lemma_rskip_ws(s@, s@.len() as int);
    }
    let a = skip_ws_from(s, 0);
    let mut b: usize = s.len();
    while b > a && byte_is_ws(s[b - 1])
        invariant
            a <= b <= s@.len(),
            a == skip_ws(s@, 0),
            rskip_ws(s@, s@.len() as int) == rskip_ws(s@, b as int),
        decreases b,
    {
        b = b - 1;
    }
    if a == s.len() {
        // all whitespace: the backward scan stopped at `a`, while the
        // spec scan runs on to 0; either way the result is empty
        proof {
            lemma_rskip_ws(s@, b as int);
            if rskip_ws(s@, b as int) > 0 {
                assert(!is_ws(s@[rskip_ws(s@, b as int) - 1]));
                assert(is_ws(s@[rskip_ws(s@, b as int) - 1]));
            }
            assert(trim_of(s@) =~= Seq::<u8>::empty());
        }
        Vec::new()
    } else {
        proof {
            lemma_rskip_ws(s@, s@.len() as int);
            lemma_rskip_ws(s@, b as int);
            assert(!is_ws(s@[a as int]));
            // a non-whitespace byte sits at `a`, so the backward scan
            // from the end stops strictly after it
            assert(rskip_ws(s@, s@.len() as int) > a) by {
                if rskip_ws(s@, s@.len() as int) <= a {
                    assert(is_ws(s@[a as int]));
                }
            };
            assert(b > a);
            assert(rskip_ws(s@, b as int) == b);
            assert(trim_of(s@) == s@.subrange(a as int, b as int));
        }
        copy_range(s, a, b)
    }
}

/// A fresh copy of `s[start..end]`.
pub fn copy_range(s: &Vec<u8>, start: usize, end: usize) -> (v: Vec<u8>)
    requires
        start <= end <= s@.len(),
    ensures
        v@ == s@.subrange(start as int, end as int),
{
    let mut v: Vec<u8> = Vec::new();
    let mut i: usize = start;
    while i < end
        invariant
            start <= i <= end <= s@.len(),
            v@ == s@.subrange(start as int, i as int),
        decreases end - i,
    {
        v.push(s[i]);
        proof {
            assert(v@ =~= s@.subrange(start as int, i as int + 1));
        }
        i = i + 1;
    }
    v
}

/// A fresh copy of all of `s`.
pub fn copy_bytes(s: &Vec<u8>) -> (v: Vec<u8>)
    ensures
        v@ == s@,
{
    let v = copy_range(s, 0, s.len());
    proof {
        assert(v@ =~= s@);
    }
    v
}

pub fn bytes_eq(a: &Vec<u8>, b: &Vec<u8>) -> (r: bool)
    ensures
        r == (a@ == b@),
{
    if a.len() != b.len() {
        return false;
    }
    let mut i: usize = 0;
    while i < a.len()
        invariant
            i <= a@.len() == b@.len(),
            forall|k: int| 0 <= k < i ==> a@[k] == b@[k],
        decreases a@.len() - i,
    {
        if a[i] != b[i] {
            return false;
        }
        i = i + 1;
    }
    proof {
        assert(a@ =~= b@);
    }
    true
}

/// `p` is a prefix of `s`.
pub open spec fn has_prefix(s: Seq<u8>, p: Seq<u8>) -> bool {
    p.len() <= s.len() && s.subrange(0, p.len() as int) == p
}

pub fn starts_with(s: &Vec<u8>, p: &Vec<u8>) -> (r: bool)
    ensures
        r == has_prefix(s@, p@),
{
    if p.len() > s.len() {
        return false;
    }
    let mut i: usize = 0;
    while i < p.len()
        invariant
            i <= p@.len() <= s@.len(),
            forall|k: int| 0 <= k < i ==> s@[k] == p@[k],
        decreases p@.len() - i,
    {
        if s[i] != p[i] {
            proof {
                assert(s@.subrange(0, p@.len() as int)[i as int] == s@[i as int]);
            }
            return false;
        }
        i = i + 1;
    }
    proof {
        assert(s@.subrange(0, p@.len() as int) =~= p@);
    }
    true
}

pub fn append_bytes(dst: &mut Vec<u8>, src: &Vec<u8>)
    ensures
        final(dst)@ == old(dst)@ + src@,
{
    let mut i: usize = 0;
    while i < src.len()
        invariant
            i <= src@.len(),
            dst@ == old(dst)@ + src@.subrange(0, i as int),
        decreases src@.len() - i,
    {
        dst.push(src[i]);
        proof {
            assert(old(dst)@ + src@.subrange(0, i as int + 1) =~= (old(dst)@ + src@.subrange(
                0,
                i as int,
            )).push(src@[i as int]));
        }
        i = i + 1;
    }
    proof {
        assert(src@.subrange(0, src@.len() as int) =~= src@);
    }
}

pub open spec fn is_digit(b: u8) -> bool {
    48 <= b <= 57
}

pub open spec fn all_digits(s: Seq<u8>) -> bool {
    forall|k: int| 0 <= k < s.len() ==> is_digit(s[k])
}

/// The number that a big-endian string of decimal digits denotes.
pub open spec fn dec_value(s: Seq<u8>) -> int
    decreases s.len(),
{
    if s.len() == 0 {
        0
    } else {
        dec_value(s.drop_last()) * 10 + (s.last() - 48)
    }
}

pub proof fn lemma_dec_value_nonneg(s: Seq<u8>)
    requires
        all_digits(s),
    ensures
        dec_value(s) >= 0,
    decreases s.len(),
{
    if s.len() > 0 {
        assert(all_digits(s.drop_last()));
        lemma_dec_value_nonneg(s.drop_last());
    }
}

/// Reading more digits never makes the value smaller.
pub proof fn lemma_dec_value_prefix_le(s: Seq<u8>, i: int, j: int)
    requires
        all_digits(s),
        0 <= i <= j <= s.len(),
    ensures
        dec_value(s.subrange(0, i)) <= dec_value(s.subrange(0, j)),
    decreases j - i,
{
    if i < j {
        lemma_dec_value_prefix_le(s, i, j - 1);
        let p = s.subrange(0, j);
        assert(p.drop_last() =~= s.subrange(0, j - 1));
        assert(all_digits(s.subrange(0, j - 1)));
        lemma_dec_value_nonneg(s.subrange(0, j - 1));
        assert(dec_value(p) == dec_value(s.subrange(0, j - 1)) * 10 + (s[j - 1] - 48));
    }
}

/// The decimal digits of `n`, most significant first.
pub open spec fn dec_digits(n: int) -> Seq<u8>
    decreases n when n >= 0
{
    if n < 10 {
        seq![(48 + n) as u8]
    } else {
        dec_digits(n / 10) + seq![(48 + n % 10) as u8]
    }
}

pub fn format_dec(n: usize) -> (v: Vec<u8>)
    ensures
        v@ == dec_digits(n as int),
    decreases n,
{
    if n < 10 {
        let mut v: Vec<u8> = Vec::new();
        v.push(48 + (n as u8));
        proof {
            assert(v@ =~= dec_digits(n as int));
        }
        v
    } else {
        let mut v = format_dec(n / 10);
        v.push(48 + ((n % 10) as u8));
        proof {
            assert(v@ =~= dec_digits(n as int));
        }
        v
    }
}

} // verus!
