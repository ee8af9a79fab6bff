//! Byte-level helpers: little-endian integer encodings and byte-string assembly.

use vstd::prelude::*;

verus! {

/// `256^n`.
pub open spec fn pow256(n: nat) -> nat
    decreases n,
{
    if n == 0 {
        1
    } else {
        256 * pow256((n - 1) as nat)
    }
}

/// The value of a little-endian byte string.
pub open spec fn le_value(b: Seq<u8>) -> nat
    decreases b.len(),
{
    if b.len() == 0 {
        0
    } else {
        b[0] as nat + 256 * le_value(b.drop_first())
    }
}

/// The `n`-byte little-endian encoding of `x` (the low `n` bytes).
pub open spec fn le_bytes(x: nat, n: nat) -> Seq<u8>
    decreases n,
{
    if n == 0 {
        Seq::empty()
    } else {
        seq![(x % 256) as u8] + le_bytes(x / 256, (n - 1) as nat)
    }
}

/// A byte string is the encoding, at its own length, of its value.
pub proof fn lemma_le_bytes_of_value(b: Seq<u8>)
    ensures
        le_bytes(le_value(b), b.len()) == b,
    decreases b.len(),
{
    if b.len() > 0 {
        let rest = b.drop_first();
        lemma_le_bytes_of_value(rest);
        let v = le_value(b);
        assert(v % 256 == b[0] as nat);
        assert(v / 256 == le_value(rest));
        assert(le_bytes(v, b.len()) =~= seq![b[0]] + rest);
        assert(seq![b[0]] + rest =~= b);
    }
}

/// `256^32` bounds every 32-byte value.
pub proof fn lemma_pow256_32()
    ensures
        pow256(32) == 0x1_0000_0000_0000_0000_0000_0000_0000_0000_0000_0000_0000_0000_0000_0000_0000_0000nat,
{
    reveal_with_fuel(pow256, 33);
}

/// `x.to_le_bytes()` for a `u64`.
pub open spec fn u64_le(x: u64) -> Seq<u8> {
    le_bytes(x as nat, 8)
}

/// `x.to_le_bytes()` for a `u32`.
pub open spec fn u32_le(x: u32) -> Seq<u8> {
    le_bytes(x as nat, 4)
}

/// `x.to_le_bytes()` for a `u16`.
pub open spec fn u16_le(x: u16) -> Seq<u8> {
    le_bytes(x as nat, 2)
}

/// `u64::from_le_bytes` of the eight bytes of `b` starting at `start`.
pub open spec fn u64_at(b: Seq<u8>, start: int) -> u64 {
    le_value(b.subrange(start, start + 8)) as u64
}

pub proof fn lemma_pow256_positive(n: nat)
    ensures
        pow256(n) >= 1,
    decreases n,
{
    if n > 0 {
        lemma_pow256_positive((n - 1) as nat);
    }
}

pub proof fn lemma_le_bytes_len(x: nat, n: nat)
    ensures
        le_bytes(x, n).len() == n,
    decreases n,
{
    if n > 0 {
        lemma_le_bytes_len(x / 256, (n - 1) as nat);
    }
}

/// A little-endian string of `n` bytes has a value below `256^n`.
pub proof fn lemma_le_value_bound(b: Seq<u8>)
    ensures
        le_value(b) < pow256(b.len()),
    decreases b.len(),
{
    if b.len() > 0 {
        let rest = b.drop_first();
        lemma_le_value_bound(rest);
        let v = le_value(rest);
        let p = pow256(rest.len());
        assert(b[0] as nat + 256 * v < 256 * p) by (nonlinear_arith)
            requires
                v < p,
                b[0] < 256,
        ;
    }
}

/// Decoding an encoding gives the value back, when it fits in `n` bytes.
pub proof fn lemma_le_roundtrip(x: nat, n: nat)
    requires
        x < pow256(n),
    ensures
        le_value(le_bytes(x, n)) == x,
    decreases n,
{
    if n > 0 {
        let q = x / 256;
        let p = pow256((n - 1) as nat);
        assert(q < p) by (nonlinear_arith)
            requires
                x < 256 * p,
                q == x / 256,
        ;
        lemma_le_roundtrip(q, (n - 1) as nat);
        let s = le_bytes(x, n);
        assert(s.drop_first() =~= le_bytes(q, (n - 1) as nat));
        assert(x == x % 256 + 256 * q) by (nonlinear_arith)
            requires
                q == x / 256,
        ;
    }
}

pub proof fn lemma_pow256_8()
    ensures
        pow256(8) == 0x1_0000_0000_0000_0000,
        pow256(4) == 0x1_0000_0000,
        pow256(2) == 0x1_0000,
{
    reveal_with_fuel(pow256, 9);
}

/// Reading back a `u64` that was written in little-endian order gives the same number.
pub proof fn lemma_u64_le_roundtrip(x: u64)
    ensures
        u64_le(x).len() == 8,
        le_value(u64_le(x)) == x,
{
    lemma_pow256_8();
    lemma_le_bytes_len(x as nat, 8);
    lemma_le_roundtrip(x as nat, 8);
}

/// `x.to_le_bytes()` for a `u64`.
pub fn u64_to_le(x: u64) -> (out: [u8; 8])
    ensures
        out@ == u64_le(x),
{
    let mut out = [0u8; 8];
    let mut rest: u64 = x;
    let mut i: usize = 0;
    while i < 8
        invariant
            0 <= i <= 8,
            out@.len() == 8,
            le_bytes(x as nat, 8) == out@.subrange(0, i as int) + le_bytes(rest as nat, (8 - i) as nat),
        decreases 8 - i,
    {
        let byte: u8 = (rest % 256) as u8;
        proof {
            let tail = le_bytes(rest as nat, (8 - i) as nat);
            assert(tail == seq![byte] + le_bytes((rest / 256) as nat, (8 - i - 1) as nat));
        }
        let ghost before = out@;
        out[i] = byte;
        proof {
            assert(out@.subrange(0, i + 1) =~= before.subrange(0, i as int) + seq![byte]);
        }
        rest = rest / 256;
        i = i + 1;
    }
    proof {
        assert(out@.subrange(0, 8) =~= out@);
        assert(le_bytes(rest as nat, 0) =~= Seq::<u8>::empty());
    }
    out
}

/// `x.to_le_bytes()` for a `u32`.
pub fn u32_to_le(x: u32) -> (out: [u8; 4])
    ensures
        out@ == u32_le(x),
{
    let mut out = [0u8; 4];
    let mut rest: u32 = x;
    let mut i: usize = 0;
    while i < 4
        invariant
            0 <= i <= 4,
            out@.len() == 4,
            le_bytes(x as nat, 4) == out@.subrange(0, i as int) + le_bytes(rest as nat, (4 - i) as nat),
        decreases 4 - i,
    {
        let byte: u8 = (rest % 256) as u8;
        proof {
            let tail = le_bytes(rest as nat, (4 - i) as nat);
            assert(tail == seq![byte] + le_bytes((rest / 256) as nat, (4 - i - 1) as nat));
        }
        let ghost before = out@;
        out[i] = byte;
        proof {
            assert(out@.subrange(0, i + 1) =~= before.subrange(0, i as int) + seq![byte]);
        }
        rest = rest / 256;
        i = i + 1;
    }
    proof {
        assert(out@.subrange(0, 4) =~= out@);
        assert(le_bytes(rest as nat, 0) =~= Seq::<u8>::empty());
    }
    out
}

/// `x.to_le_bytes()` for a `u16`.
pub fn u16_to_le(x: u16) -> (out: [u8; 2])
    ensures
        out@ == u16_le(x),
{
    let lo: u8 = (x % 256) as u8;
    let hi: u8 = (x / 256) as u8;
    proof {
        reveal_with_fuel(le_bytes, 3);
        assert((x / 256) / 256 == 0);
        assert(u16_le(x) =~= seq![lo, hi]);
    }
    [lo, hi]
}

/// `u64::from_le_bytes` applied to `b[start..start + 8]`.
pub fn u64_from_le_at(b: &[u8], start: usize) -> (x: u64)
    requires
        start + 8 <= b@.len(),
    ensures
        x == u64_at(b@, start as int),
        x as nat == le_value(b@.subrange(start as int, start + 8)),
{
    let ghost s = b@.subrange(start as int, start + 8);
    proof {
        lemma_le_value_bound(s);
        lemma_pow256_8();
    }
    let len = b.len();
    let mut acc: u64 = 0;
    let mut k: usize = 8;
    while k > 0
        invariant
            0 <= k <= 8,
            start + 8 <= b@.len(),
            len == b@.len(),
            s == b@.subrange(start as int, start + 8),
            acc as nat == le_value(s.subrange(k as int, 8)),
            le_value(s.subrange(k as int, 8)) < pow256((8 - k) as nat),
            pow256(8) == 0x1_0000_0000_0000_0000,
        decreases k,
    {
        let byte = b[start + (k - 1)];
        let ghost tail = s.subrange(k as int, 8);
        let ghost longer = s.subrange(k - 1, 8);
        proof {
            assert(longer.drop_first() =~= tail);
            assert(longer[0] == byte);
            lemma_le_value_bound(longer);
            assert(longer.len() == (8 - (k - 1)) as nat);
            // the new value is below 256^(9-k) <= 2^64
            lemma_pow256_monotone((8 - (k - 1)) as nat, 8);
        }
        acc = byte as u64 + 256 * acc;
        k = k - 1;
    }
    proof {
        assert(s.subrange(0, 8) =~= s);
    }
    acc
}

pub proof fn lemma_pow256_monotone(a: nat, b: nat)
    requires
        a <= b,
    ensures
        pow256(a) <= pow256(b),
    decreases b,
{
    if a < b {
        lemma_pow256_monotone(a, (b - 1) as nat);
        lemma_pow256_positive((b - 1) as nat);
    }
}

/// Appends `src` to `dst`.
pub fn append_bytes(dst: &mut Vec<u8>, src: &[u8])
    ensures
        final(dst)@ == old(dst)@ + src@,
{
    let ghost start = dst@;
    let mut i: usize = 0;
    while i < src.len()
        invariant
            0 <= i <= src@.len(),
            dst@ == start + src@.subrange(0, i as int),
        decreases src@.len() - i,
    {
        dst.push(src[i]);
        i = i + 1;
        proof {
            assert(dst@ =~= start + src@.subrange(0, i as int));
        }
    }
    proof {
        assert(src@.subrange(0, src@.len() as int) =~= src@);
    }
}

/// Copies exactly 32 bytes into an array.
pub fn to_array32(src: &[u8]) -> (out: [u8; 32])
    requires
        src@.len() == 32,
    ensures
        out@ == src@,
{
    let mut out = [0u8; 32];
    let mut i: usize = 0;
    while i < 32
        invariant
            0 <= i <= 32,
            src@.len() == 32,
            out@.len() == 32,
            forall|j: int| 0 <= j < i ==> out@[j] == src@[j],
        decreases 32 - i,
    {
        out[i] = src[i];
        i = i + 1;
    }
    proof {
        assert(out@ =~= src@);
    }
    out
}

/// Copies exactly 64 bytes into an array.
pub fn to_array64(src: &[u8]) -> (out: [u8; 64])
    requires
        src@.len() == 64,
    ensures
        out@ == src@,
{
    let mut out = [0u8; 64];
    let mut i: usize = 0;
    while i < 64
        invariant
            0 <= i <= 64,
            src@.len() == 64,
            out@.len() == 64,
            forall|j: int| 0 <= j < i ==> out@[j] == src@[j],
        decreases 64 - i,
    {
        out[i] = src[i];
        i = i + 1;
    }
    proof {
        assert(out@ =~= src@);
    }
    out
}

/// The first `min(len, 32)` bytes of `src`, followed by zeros up to 32 bytes.
pub open spec fn padded32(src: Seq<u8>) -> Seq<u8> {
    Seq::new(32, |j: int| if j < src.len() { src[j] } else { 0u8 })
}

/// Copies the first (at most) 32 bytes of `src` into a zeroed 32-byte array.
pub fn copy_prefix32(src: &[u8]) -> (out: [u8; 32])
    ensures
        out@ == padded32(src@),
{
    let mut out = [0u8; 32];
    let n: usize = if src.len() < 32 { src.len() } else { 32 };
    let mut i: usize = 0;
    while i < n
        invariant
            0 <= i <= n,
            n <= 32,
            n == (if src@.len() < 32 { src@.len() } else { 32 }),
            out@.len() == 32,
            forall|j: int| 0 <= j < i ==> out@[j] == src@[j],
            forall|j: int| i <= j < 32 ==> out@[j] == 0u8,
        decreases n - i,
    {
        out[i] = src[i];
        i = i + 1;
    }
    proof {
        assert(out@ =~= padded32(src@));
    }
    out
}

} // verus!
