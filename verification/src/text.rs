use vstd::prelude::*;

verus! {

/// The space byte that separates a command name from its arguments.
pub open spec fn space() -> u8 {
    32u8
}

/// Whether `p` is a prefix of `s`.
pub open spec fn is_prefix_of(p: Seq<u8>, s: Seq<u8>) -> bool {
    p.len() <= s.len() && s.take(p.len() as int) == p
}

/// The decimal digits of `n`, most significant first, as ASCII bytes.
pub open spec fn spec_digits(n: nat) -> Seq<u8>
    decreases n,
{
    if n < 10 {
        seq![(48 + n) as u8]
    } else {
        spec_digits(n / 10).push((48 + n % 10) as u8)
    }
}

/// `s` with its leading run of spaces removed.
pub open spec fn skip_spaces(s: Seq<u8>) -> Seq<u8>
    decreases s.len(),
{
    if s.len() > 0 && s[0] == space() {
        skip_spaces(s.skip(1))
    } else {
        s
    }
}

/// The leading run of non-space bytes of `s`.
pub open spec fn token_of(s: Seq<u8>) -> Seq<u8>
    decreases s.len(),
{
    if s.len() == 0 || s[0] == space() {
        Seq::empty()
    } else {
        seq![s[0]] + token_of(s.skip(1))
    }
}

/// What remains of `s` after its leading run of non-space bytes.
pub open spec fn after_token(s: Seq<u8>) -> Seq<u8>
    decreases s.len(),
{
    if s.len() == 0 || s[0] == space() {
        s
    } else {
        after_token(s.skip(1))
    }
}

/// The leading spaces of `s` end exactly at `k`: then `skip_spaces` drops
/// precisely the first `k` bytes.
proof fn lemma_skip_spaces_at(s: Seq<u8>, k: int)
    requires
        0 <= k <= s.len(),
        forall|j: int| 0 <= j < k ==> s[j] == space(),
        k < s.len() ==> s[k] != space(),
    ensures
        skip_spaces(s) == s.skip(k),
    decreases k,
{
    if k == 0 {
        assert(s.skip(0) =~= s);
    } else {
        lemma_skip_spaces_at(s.skip(1), k - 1);
        assert(s.skip(1).skip(k - 1) =~= s.skip(k));
    }
}

/// The leading non-space run of `s` ends exactly at `j`: then the token is
/// the first `j` bytes and the rest starts at `j`.
proof fn lemma_token_at(s: Seq<u8>, j: int)
    requires
        0 <= j <= s.len(),
        forall|i: int| 0 <= i < j ==> s[i] != space(),
        j < s.len() ==> s[j] == space(),
    ensures
        token_of(s) == s.take(j),
        after_token(s) == s.skip(j),
    decreases j,
{
    if j == 0 {
        assert(s.take(0) =~= Seq::<u8>::empty());
        assert(s.skip(0) =~= s);
    } else {
        lemma_token_at(s.skip(1), j - 1);
        assert(seq![s[0]] + s.skip(1).take(j - 1) =~= s.take(j));
        assert(s.skip(1).skip(j - 1) =~= s.skip(j));
    }
}

/// Appends all of `src` to `dst`.
pub fn push_all(dst: &mut Vec<u8>, src: &Vec<u8>)
    ensures
        final(dst)@ == old(dst)@ + src@,
{
    let mut i: usize = 0;
    while i < src.len()
        invariant
            i <= src@.len(),
            dst@ == old(dst)@ + src@.take(i as int),
        decreases src@.len() - i,
    {
        let b = src[i];
        dst.push(b);
        proof {
            assert(old(dst)@ + src@.take(i + 1) =~= (old(dst)@ + src@.take(i as int)).push(
                src@[i as int]));
        }
        i = i + 1;
    }
    proof {
        assert(src@.take(src@.len() as int) =~= src@);
    }
}

/// A copy of the bytes of `src` between `from` and `to`.
pub fn copy_range(src: &Vec<u8>, from: usize, to: usize) -> (r: Vec<u8>)
    requires
        from <= to <= src@.len(),
    ensures
        r@ == src@.subrange(from as int, to as int),
{
    let mut r: Vec<u8> = Vec::new();
    let mut i: usize = from;
    while i < to
        invariant
            from <= i <= to <= src@.len(),
            r@ == src@.subrange(from as int, i as int),
        decreases to - i,
    {
        let b = src[i];
        r.push(b);
        proof {
            assert(src@.subrange(from as int, i + 1) =~= src@.subrange(from as int, i as int).push(
                src@[i as int]));
        }
        i = i + 1;
    }
    r
}

/// A copy of all of `src`.
pub fn copy_bytes(src: &Vec<u8>) -> (r: Vec<u8>)
    ensures
        r@ == src@,
{
    let r = copy_range(src, 0, src.len());
    proof {
        assert(src@.subrange(0, src@.len() as int) =~= src@);
    }
    r
}

/// Whether the two byte strings hold the same bytes.
pub fn bytes_eq(a: &Vec<u8>, b: &Vec<u8>) -> (r: bool)
    ensures
        r == (a@ == b@),
{
    if a.len() != b.len() {
        return false;
    }
    let mut i: usize = 0;
    while i < a.len()
        invariant
            a@.len() == b@.len(),
            i <= a@.len(),
            forall|j: int| 0 <= j < i ==> a@[j] == b@[j],
        decreases a@.len() - i,
    {
        if a[i] != b[i] {
            return false;
        }
        i = i + 1;
    }
    proof {
        assert(a@ =~= b@);
    }
    true
}

/// Whether `s` starts with the bytes of `p`.
pub fn has_prefix(s: &Vec<u8>, p: &Vec<u8>) -> (r: bool)
    ensures
        r == is_prefix_of(p@, s@),
{
    if p.len() > s.len() {
        return false;
    }
    let mut i: usize = 0;
    while i < p.len()
        invariant
            p@.len() <= s@.len(),
            i <= p@.len(),
            forall|j: int| 0 <= j < i ==> s@[j] == p@[j],
        decreases p@.len() - i,
    {
        if s[i] != p[i] {
            proof {
                assert(s@.take(p@.len() as int)[i as int] != p@[i as int]);
            }
            return false;
        }
        i = i + 1;
    }
    proof {
        assert(s@.take(p@.len() as int) =~= p@);
    }
    true
}

/// Renders `n` in decimal, most significant digit first.
pub fn u64_to_digits(n: u64) -> (r: Vec<u8>)
    ensures
        r@ == spec_digits(n as nat),
{
    let mut out: Vec<u8> = Vec::new();
    let d: u8 = (n % 10) as u8 + 48;
    out.push(d);
    let mut m: u64 = n / 10;
    proof {
        assert(out@ =~= seq![d]);
        if m > 0 {
            assert(spec_digits(n as nat) =~= spec_digits(m as nat) + out@);
        }
    }
    while m > 0
        invariant
            if m > 0 {
                spec_digits(n as nat) == spec_digits(m as nat) + out@
            } else {
                spec_digits(n as nat) == out@
            },
        decreases m,
    {
        let ghost prev = out@;
        let d: u8 = (m % 10) as u8 + 48;
        out.insert(0, d);
        proof {
            assert(out@ =~= seq![d] + prev);
            if m < 10 {
                assert(spec_digits(m as nat) =~= seq![d]);
            } else {
                assert(spec_digits(m as nat) =~= spec_digits((m / 10) as nat) + seq![d]);
            }
        }
        m = m / 10;
    }
    out
}

/// The index at or after `from` where the run of spaces ends.
pub fn scan_spaces(s: &Vec<u8>, from: usize) -> (k: usize)
    requires
        from <= s@.len(),
    ensures
        from <= k <= s@.len(),
        skip_spaces(s@.skip(from as int)) == s@.skip(k as int),
        k < s@.len() ==> s@[k as int] != space(),
{
    let mut k: usize = from;
    while k < s.len() && s[k] == 32u8
        invariant
            from <= k <= s@.len(),
            forall|j: int| from <= j < k ==> s@[j] == space(),
        decreases s@.len() - k,
    {
        k = k + 1;
    }
    proof {
        let rest = s@.skip(from as int);
        lemma_skip_spaces_at(rest, k - from);
        assert(rest.skip(k - from) =~= s@.skip(k as int));
    }
    k
}

/// The index at or after `from` where the run of non-space bytes ends.
pub fn scan_token(s: &Vec<u8>, from: usize) -> (j: usize)
    requires
        from <= s@.len(),
    ensures
        from <= j <= s@.len(),
        token_of(s@.skip(from as int)) == s@.subrange(from as int, j as int),
        after_token(s@.skip(from as int)) == s@.skip(j as int),
{
    let mut j: usize = from;
    while j < s.len() && s[j] != 32u8
        invariant
            from <= j <= s@.len(),
            forall|i: int| from <= i < j ==> s@[i] != space(),
        decreases s@.len() - j,
    {
        j = j + 1;
    }
    proof {
        let rest = s@.skip(from as int);
        lemma_token_at(rest, j - from);
        assert(rest.take(j - from) =~= s@.subrange(from as int, j as int));
        assert(rest.skip(j - from) =~= s@.skip(j as int));
    }
    j
}

} // verus!
