//! Integers as little-endian bytes: the byte string of a number, the number
//! of a byte string, and the conversions of an `i128`.
use vstd::prelude::*;

verus! {

/// The first `n` bytes of `v`, least significant first.
pub open spec fn le_bytes(v: nat, n: nat) -> Seq<u8>
    decreases n,
{
    if n == 0 {
        seq![]
    } else {
        seq![(v % 256) as u8] + le_bytes(v / 256, (n - 1) as nat)
    }
}

/// The number whose bytes, least significant first, are `s`.
pub open spec fn from_le(s: Seq<u8>) -> nat
    decreases s.len(),
{
    if s.len() == 0 {
        0
    } else {
        (s[0] as nat) + 256 * from_le(s.drop_first())
    }
}

/// The numbers below `byte_bound(n)` are those that `n` bytes hold.
pub open spec fn byte_bound(n: nat) -> nat
    decreases n,
{
    if n == 0 {
        1
    } else {
        256 * byte_bound((n - 1) as nat)
    }
}

/// Sixteen bytes hold the numbers below 2^128, those of a `u128`.
pub proof fn lemma_byte_bound_16()
    ensures
        byte_bound(16) == 0x1_0000_0000_0000_0000_0000_0000_0000_0000,
{
    reveal_with_fuel(byte_bound, 17);
}

/// `byte_bound` grows with the number of bytes.
pub proof fn lemma_byte_bound_monotone(m: nat, n: nat)
    requires
        m <= n,
    ensures
        byte_bound(m) <= byte_bound(n),
    decreases n,
{
    if m < n {
        lemma_byte_bound_monotone(m, (n - 1) as nat);
    }
}

/// `le_bytes(v, n)` has `n` bytes.
pub proof fn lemma_le_bytes_len(v: nat, n: nat)
    ensures
        le_bytes(v, n).len() == n,
    decreases n,
{
    if n > 0 {
        lemma_le_bytes_len(v / 256, (n - 1) as nat);
    }
}

/// A byte string stands for a number that its length of bytes holds.
pub proof fn lemma_from_le_bound(s: Seq<u8>)
    ensures
        from_le(s) < byte_bound(s.len()),
    decreases s.len(),
{
    if s.len() > 0 {
        lemma_from_le_bound(s.drop_first());
        let r = from_le(s.drop_first());
        let b = byte_bound((s.len() - 1) as nat);
        assert((s[0] as nat) + 256 * r < 256 * b) by (nonlinear_arith)
            requires
                r < b,
                s[0] < 256,
        ;
    }
}

/// The bytes of a number that `n` bytes hold give the number back.
pub proof fn lemma_from_le_of_le_bytes(v: nat, n: nat)
    requires
        v < byte_bound(n),
    ensures
        from_le(le_bytes(v, n)) == v,
    decreases n,
{
    if n > 0 {
        let b = byte_bound((n - 1) as nat);
        assert(v / 256 < b) by (nonlinear_arith)
            requires
                v < 256 * b,
        ;
        lemma_from_le_of_le_bytes(v / 256, (n - 1) as nat);
        let s = le_bytes(v, n);
        assert(s.drop_first() =~= le_bytes(v / 256, (n - 1) as nat));
    }
}

/// The number of a byte string gives the byte string back.
pub proof fn lemma_le_bytes_of_from_le(s: Seq<u8>)
    ensures
        le_bytes(from_le(s), s.len()) == s,
    decreases s.len(),
{
    if s.len() > 0 {
        let rest = s.drop_first();
        lemma_le_bytes_of_from_le(rest);
        let v = from_le(s);
        assert(v % 256 == s[0] as nat && v / 256 == from_le(rest)) by (nonlinear_arith)
            requires
                v == (s[0] as nat) + 256 * from_le(rest),
                s[0] < 256,
        ;
        assert(le_bytes(v, s.len()) =~= s);
    }
}

/// The two's-complement bytes of an `i128`, least significant first, as
/// `i128::to_le_bytes` gives them.
pub fn i128_to_le_bytes(x: i128) -> (b: [u8; 16])
    ensures
        b@ == le_bytes((x as u128) as nat, 16),
{
    let mut v: u128 = x as u128;
    let mut b = [0u8; 16];
    let mut i: usize = 0;
    while i < 16
        invariant
            i <= 16,
            b@.len() == 16,
            b@.take(i as int) + le_bytes(v as nat, (16 - i) as nat) == le_bytes(
                (x as u128) as nat,
                16,
            ),
        decreases 16 - i,
    {
        let ghost before = b@.take(i as int);
        let ghost vv = v as nat;
        b[i] = (v % 256) as u8;
        v = v / 256;
        proof {
            assert(b@.take(i + 1) =~= before.push((vv % 256) as u8));
            assert(le_bytes(vv, (16 - i) as nat) =~= seq![(vv % 256) as u8] + le_bytes(
                v as nat,
                (16 - (i + 1)) as nat,
            ));
            assert(before + le_bytes(vv, (16 - i) as nat) =~= before.push((vv % 256) as u8)
                + le_bytes(v as nat, (16 - (i + 1)) as nat));
        }
        i = i + 1;
    }
    proof {
        assert(b@.take(16) =~= b@);
        assert(b@ + le_bytes(v as nat, 0) =~= b@);
    }
    b
}

/// The `i128` whose two's-complement bytes, least significant first, are
/// `b`, as `i128::from_le_bytes` gives it.
pub fn i128_from_le_bytes(b: [u8; 16]) -> (x: i128)
    ensures
        x as u128 == from_le(b@),
{
    let mut v: u128 = 0;
    let mut i: usize = 16;
    proof {
        assert(b@.skip(16) =~= Seq::<u8>::empty());
    }
    while i > 0
        invariant
            i <= 16,
            b@.len() == 16,
            v as nat == from_le(b@.skip(i as int)),
        decreases i,
    {
        i = i - 1;
        proof {
            let s = b@.skip(i as int);
            assert(s.drop_first() =~= b@.skip(i + 1));
            lemma_from_le_bound(s);
            lemma_byte_bound_monotone(s.len(), 16);
            lemma_byte_bound_16();
        }
        v = v * 256 + (b[i] as u128);
    }
    proof {
        assert(b@.skip(0) =~= b@);
        let u = v;
        assert((u as i128) as u128 == u) by (bit_vector);
    }
    v as i128
}

} // verus!
