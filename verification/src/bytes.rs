//! Little-endian byte images of fixed-width integers, and helpers that
//! append them to a byte buffer.

use vstd::arithmetic::div_mod::{lemma_basic_div, lemma_div_denominator};
use vstd::prelude::*;

verus! {

/// 256 to the power `n`.
pub open spec fn pow256(n: nat) -> nat
    decreases n,
{
    if n == 0 {
        1
    } else {
        256 * pow256((n - 1) as nat)
    }
}

pub proof fn lemma_pow256_pos(n: nat)
    ensures
        pow256(n) >= 1,
    decreases n,
{
    if n > 0 {
        lemma_pow256_pos((n - 1) as nat);
    }
}

pub proof fn lemma_pow256_mono(m: nat, n: nat)
    requires
        m <= n,
    ensures
        pow256(m) <= pow256(n),
    decreases n,
{
    if m < n {
        lemma_pow256_mono(m, (n - 1) as nat);
        lemma_pow256_pos((n - 1) as nat);
    }
}

pub proof fn lemma_pow256_values()
    ensures
        pow256(1) == 0x100,
        pow256(2) == 0x10000,
        pow256(4) == 0x1_0000_0000,
        pow256(8) == 0x1_0000_0000_0000_0000,
{
    reveal_with_fuel(pow256, 9);
}

/// The `n`-byte little-endian image of `v`: byte `i` holds the `i`-th
/// base-256 digit.
pub open spec fn le_bytes(v: nat, n: nat) -> Seq<u8> {
    Seq::new(n, |i: int| ((v / pow256(i as nat)) % 256) as u8)
}

/// `n` zero bytes, as padding looks in a deterministic byte image.
pub open spec fn zeros(n: nat) -> Seq<u8> {
    Seq::new(n, |i: int| 0u8)
}

/// The unsigned number that the two's-complement image of `x` carries.
pub open spec fn rep64(x: i64) -> nat {
    if x >= 0 {
        x as nat
    } else {
        (x + 0x1_0000_0000_0000_0000) as nat
    }
}

/// The unsigned number that the two's-complement image of `x` carries.
pub open spec fn rep32(x: i32) -> nat {
    if x >= 0 {
        x as nat
    } else {
        (x + 0x1_0000_0000) as nat
    }
}

/// A value below 256^m has the same image at any width at least `m`, padded
/// with zero bytes.
pub proof fn lemma_le_widen(v: nat, m: nat, n: nat)
    requires
        v < pow256(m),
        m <= n,
    ensures
        le_bytes(v, n) == le_bytes(v, m) + zeros((n - m) as nat),
{
    let wide = le_bytes(v, n);
    let narrow = le_bytes(v, m) + zeros((n - m) as nat);
    assert forall|i: int| 0 <= i < n implies wide[i] == narrow[i] by {
        if i >= m {
            lemma_pow256_mono(m, i as nat);
            lemma_basic_div(v as int, pow256(i as nat) as int);
        }
    }
    assert(wide =~= narrow);
}

/// Zero has an all-zero image.
pub proof fn lemma_le_zero(n: nat)
    ensures
        le_bytes(0, n) == zeros(n),
{
    assert forall|i: int| 0 <= i < n implies le_bytes(0, n)[i] == zeros(n)[i] by {
        lemma_pow256_pos(i as nat);
        lemma_basic_div(0, pow256(i as nat) as int);
    }
    assert(le_bytes(0, n) =~= zeros(n));
}

/// Append the `n`-byte little-endian image of `v`.
pub fn push_le(out: &mut Vec<u8>, v: u64, n: usize)
    ensures
        final(out)@ == old(out)@ + le_bytes(v as nat, n as nat),
{
    let mut x = v;
    let mut k: usize = 0;
    proof {
        assert(pow256(0) == 1);
        assert(out@ =~= old(out)@ + le_bytes(v as nat, 0));
    }
    while k < n
        invariant
            k <= n,
            x as nat == (v as nat) / pow256(k as nat),
            out@ == old(out)@ + le_bytes(v as nat, k as nat),
        decreases n - k,
    {
        let b = (x % 256) as u8;
        out.push(b);
        proof {
            lemma_pow256_pos(k as nat);
            lemma_div_denominator(v as int, pow256(k as nat) as int, 256);
            assert(pow256((k + 1) as nat) == pow256(k as nat) * 256) by (nonlinear_arith)
                requires pow256((k + 1) as nat) == 256 * pow256(k as nat);
            assert(out@ =~= old(out)@ + le_bytes(v as nat, (k + 1) as nat));
        }
        x = x / 256;
        k = k + 1;
    }
}

/// Append `n` zero bytes.
pub fn push_zeros(out: &mut Vec<u8>, n: usize)
    ensures
        final(out)@ == old(out)@ + zeros(n as nat),
{
    let mut k: usize = 0;
    while k < n
        invariant
            k <= n,
            out@ == old(out)@ + zeros(k as nat),
        decreases n - k,
    {
        out.push(0u8);
        proof {
            assert(out@ =~= old(out)@ + zeros((k + 1) as nat));
        }
        k = k + 1;
    }
}

/// Append a copy of `src`.
pub fn push_bytes(out: &mut Vec<u8>, src: &Vec<u8>)
    ensures
        final(out)@ == old(out)@ + src@,
{
    let n = src.len();
    let mut k: usize = 0;
    while k < n
        invariant
            k <= n,
            n == src@.len(),
            out@ == old(out)@ + src@.take(k as int),
        decreases n - k,
    {
        out.push(src[k]);
        proof {
            assert(out@ =~= old(out)@ + src@.take(k + 1));
        }
        k = k + 1;
    }
    proof {
        assert(src@.take(n as int) =~= src@);
    }
}

/// Append the 8-byte two's-complement little-endian image of `x`.
pub fn push_le_i64(out: &mut Vec<u8>, x: i64)
    ensures
        final(out)@ == old(out)@ + le_bytes(rep64(x), 8),
{
    let u: u64 = if x >= 0 {
        x as u64
    } else {
        ((x as i128) + 0x1_0000_0000_0000_0000_i128) as u64
    };
    push_le(out, u, 8);
}

/// Append the 4-byte two's-complement little-endian image of `x`.
pub fn push_le_i32(out: &mut Vec<u8>, x: i32)
    ensures
        final(out)@ == old(out)@ + le_bytes(rep32(x), 4),
{
    let u: u64 = if x >= 0 {
        x as u64
    } else {
        ((x as i64) + 0x1_0000_0000_i64) as u64
    };
    push_le(out, u, 4);
}

/// First position at which the two equally long byte strings differ.
pub fn bytes_first_diff(a: &Vec<u8>, b: &Vec<u8>) -> (r: Option<usize>)
    requires
        a@.len() == b@.len(),
    ensures
        match r {
            None => a@ == b@,
            Some(i) => i < a@.len() && a@[i as int] != b@[i as int] && forall|j: int|
                0 <= j < i ==> a@[j] == b@[j],
        },
{
    let n = a.len();
    let mut k: usize = 0;
    while k < n
        invariant
            k <= n,
            n == a@.len(),
            a@.len() == b@.len(),
            forall|j: int| 0 <= j < k ==> a@[j] == b@[j],
        decreases n - k,
    {
        if a[k] != b[k] {
            return Some(k);
        }
        k = k + 1;
    }
    proof {
        assert(a@ =~= b@);
    }
    None
}

/// Whether two byte strings are equal.
pub fn bytes_eq(a: &Vec<u8>, b: &Vec<u8>) -> (r: bool)
    ensures
        r == (a@ == b@),
{
    if a.len() != b.len() {
        return false;
    }
    match bytes_first_diff(a, b) {
        None => true,
        Some(_) => false,
    }
}

} // verus!
