//! Little-endian byte layout of fixed-width unsigned bit patterns: the spec
//! of the layout, executable conversions between a bit pattern and its bytes,
//! and the lemmas that make the layout a bijection on values that fit.

use vstd::prelude::*;

verus! {

/// 256 raised to `n`: the number of values a run of `n` bytes can carry.
pub open spec fn pow256(n: nat) -> nat
    decreases n,
{
    if n == 0 {
        1
    } else {
        256 * pow256((n - 1) as nat)
    }
}

/// The `n` little-endian bytes of the bit pattern `v`: least significant
/// byte first; bits beyond the `n`-th byte are dropped.
pub open spec fn le_bytes_of(v: nat, n: nat) -> Seq<u8>
    decreases n,
{
    if n == 0 {
        Seq::empty()
    } else {
        seq![(v % 256) as u8] + le_bytes_of(v / 256, (n - 1) as nat)
    }
}

/// The bit pattern a run of little-endian bytes denotes.
pub open spec fn le_value(s: Seq<u8>) -> nat
    decreases s.len(),
{
    if s.len() == 0 {
        0
    } else {
        (s[0] + 256 * le_value(s.drop_first())) as nat
    }
}

pub proof fn lemma_pow256_positive(n: nat)
    ensures
        pow256(n) >= 1,
    decreases n,
{
    if n > 0 {
        lemma_pow256_positive((n - 1) as nat);
    }
}

pub proof fn lemma_pow256_increases(m: nat, n: nat)
    requires
        m <= n,
    ensures
        pow256(m) <= pow256(n),
    decreases n,
{
    if m < n {
        lemma_pow256_increases(m, (n - 1) as nat);
        lemma_pow256_positive((n - 1) as nat);
    }
}

pub proof fn lemma_le_bytes_len(v: nat, n: nat)
    ensures
        le_bytes_of(v, n).len() == n,
    decreases n,
{
    if n > 0 {
        lemma_le_bytes_len(v / 256, (n - 1) as nat);
    }
}

/// A run of `n` bytes denotes a value below `pow256(n)`.
pub proof fn lemma_le_value_bound(s: Seq<u8>)
    ensures
        le_value(s) < pow256(s.len()),
    decreases s.len(),
{
    if s.len() == 0 {
    } else {
        lemma_le_value_bound(s.drop_first());
    }
}

/// Reading back the little-endian bytes of a value that fits in `n` bytes
/// yields the value again.
pub proof fn lemma_le_round_trip(v: nat, n: nat)
    requires
        v < pow256(n),
    ensures
        le_value(le_bytes_of(v, n)) == v,
    decreases n,
{
    if n == 0 {
    } else {
        let rest = le_bytes_of(v / 256, (n - 1) as nat);
        lemma_le_bytes_len(v / 256, (n - 1) as nat);
        assert(le_bytes_of(v, n).drop_first() =~= rest);
        lemma_le_round_trip(v / 256, (n - 1) as nat);
    }
}

/// The little-endian bytes of the low `n` bytes of `bits`, as a vector.
pub fn le_bytes(bits: u64, n: usize) -> (r: Vec<u8>)
    ensures
        r@ == le_bytes_of(bits as nat, n as nat),
{
    let mut out: Vec<u8> = Vec::new();
    let mut cur: u64 = bits;
    let mut i: usize = 0;
    while i < n
        invariant
            i <= n,
            le_bytes_of(cur as nat, (n - i) as nat) == le_bytes_of(bits as nat, n as nat).skip(
                i as int,
            ),
            out@ == le_bytes_of(bits as nat, n as nat).take(i as int),
        decreases n - i,
    {
        proof {
            lemma_le_bytes_len(bits as nat, n as nat);
            assert(le_bytes_of(bits as nat, n as nat).skip(i as int)[0] == le_bytes_of(
                bits as nat,
                n as nat,
            )[i as int]);
            assert(le_bytes_of(bits as nat, n as nat).take(i + 1) =~= le_bytes_of(
                bits as nat,
                n as nat,
            ).take(i as int).push(le_bytes_of(bits as nat, n as nat)[i as int]));
            assert(le_bytes_of(cur as nat, (n - i) as nat).drop_first() =~= le_bytes_of(
                bits as nat,
                n as nat,
            ).skip(i + 1));
        }
        out.push((cur % 256) as u8);
        cur = cur / 256;
        i = i + 1;
    }
    proof {
        lemma_le_bytes_len(bits as nat, n as nat);
        assert(le_bytes_of(bits as nat, n as nat).take(n as int) =~= le_bytes_of(
            bits as nat,
            n as nat,
        ));
    }
    out
}

/// The bit pattern that a run of at most eight little-endian bytes denotes.
pub fn le_value_of(bytes: &Vec<u8>) -> (r: u64)
    requires
        bytes@.len() <= 8,
    ensures
        r as nat == le_value(bytes@),
{
    let n = bytes.len();
    let mut acc: u64 = 0;
    let mut i: usize = n;
    while i > 0
        invariant
            i <= n,
            n == bytes@.len() <= 8,
            acc as nat == le_value(bytes@.skip(i as int)),
        decreases i,
    {
        proof {
            lemma_le_value_bound(bytes@.skip(i as int));
            lemma_pow256_increases(bytes@.skip(i as int).len(), 7);
            reveal_with_fuel(pow256, 9);
            assert(pow256(7) == 0x100000000000000);
            assert(bytes@.skip(i - 1).drop_first() =~= bytes@.skip(i as int));
            assert(bytes@.skip(i - 1)[0] == bytes@[i - 1]);
        }
        i = i - 1;
        acc = acc * 256 + (bytes[i] as u64);
    }
    proof {
        assert(bytes@.skip(0) =~= bytes@);
    }
    acc
}

} // verus!
