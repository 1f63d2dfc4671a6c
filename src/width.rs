//! The width descriptor: which native word stores a width, and the all-ones
//! mask of that width, with the bit-level facts that masking rests on.

use crate::convert::UnsignedInteger;
use vstd::arithmetic::div_mod::{lemma_mod_mod, lemma_small_mod};
use vstd::arithmetic::power2::{
    lemma2_to64, lemma_pow2_adds, lemma_pow2_pos, lemma_pow2_strictly_increases, pow2,
};
use vstd::prelude::*;

verus! {

/// A width from 1 to 128 bits can be described.
pub open spec fn valid_width(n: nat) -> bool {
    1 <= n <= 128
}

/// The smallest native word of 8, 16, 32, 64 or 128 bits that holds `n` bits.
pub open spec fn storage_width(n: nat) -> nat {
    if n <= 8 {
        8
    } else if n <= 16 {
        16
    } else if n <= 32 {
        32
    } else if n <= 64 {
        64
    } else {
        128
    }
}

/// Whether `w` is the bit count of a native unsigned word.
pub open spec fn is_native_width(w: nat) -> bool {
    w == 8 || w == 16 || w == 32 || w == 64 || w == 128
}

/// The all-ones pattern of `n` bits.
pub open spec fn max_mask_of(n: nat) -> nat {
    (pow2(n) - 1) as nat
}

/// 2^128, one more than the largest `u128`.
pub proof fn lemma_pow2_128()
    ensures
        pow2(128) == u128::MAX + 1,
{
    lemma2_to64();
    lemma_pow2_adds(64, 64);
}

/// A left shift of one by `k` places is 2^k.
pub proof fn lemma_one_shl(k: u128)
    requires
        k < 128,
    ensures
        (1u128 << k) as nat == pow2(k as nat),
    decreases k,
{
    if k == 0 {
        assert(1u128 << 0u128 == 1u128) by (bit_vector);
        lemma2_to64();
    } else {
        let j: u128 = (k - 1) as u128;
        assert((1u128 << k) == (1u128 << j) * 2) by (bit_vector)
            requires
                j < 127,
                k == j + 1,
        ;
        lemma_one_shl(j);
        vstd::arithmetic::power2::lemma_pow2_unfold(k as nat);
    }
}

/// One step of a bitwise and: the low bit, and the rest shifted down.
proof fn lemma_and_split_low_bit(x: u128, m: u128)
    by (bit_vector)
    ensures
        x & m == vstd::prelude::add(vstd::prelude::mul((x / 2) & (m / 2), 2), (x % 2) & (m % 2)),
{
}

/// Facts on the `k`-bit mask used to peel its lowest bit.
proof fn lemma_mask_step(k: u128)
    by (bit_vector)
    requires
        1 <= k < 128,
    ensures
        ((1u128 << k) - 1) as u128 / 2 == ((1u128 << vstd::prelude::sub(k, 1)) - 1) as u128,
        ((1u128 << k) - 1) as u128 % 2 == 1,
        (1u128 << k) >= 1,
{
}

/// Masking with the low `k` bits is the remainder modulo 2^k.
proof fn lemma_and_low_bits(x: u128, k: u128)
    requires
        k < 128,
    ensures
        (x & ((1u128 << k) - 1) as u128) as nat == x as nat % pow2(k as nat),
    decreases k,
{
    lemma_one_shl(k);
    if k == 0 {
        assert(x & ((1u128 << 0u128) - 1) as u128 == 0) by (bit_vector);
        lemma2_to64();
    } else {
        let j: u128 = (k - 1) as u128;
        let m: u128 = ((1u128 << k) - 1) as u128;
        lemma_mask_step(k);
        lemma_and_split_low_bit(x, m);
        lemma_and_low_bits(x / 2, j);
        assert((x % 2) & 1 == x % 2) by (bit_vector);
        lemma_pow2_pos(j as nat);
        vstd::arithmetic::power2::lemma_pow2_unfold(k as nat);
        vstd::arithmetic::div_mod::lemma_mod_breakdown(x as int, 2, pow2(j as nat) as int);
    }
}

/// Narrowing a remainder modulo 2^128 to a remainder modulo 2^n, n <= 128.
pub proof fn lemma_mod_pow2_128(x: int, n: nat)
    requires
        n <= 128,
    ensures
        (x % (pow2(128) as int)) % (pow2(n) as int) == x % (pow2(n) as int),
{
    lemma_pow2_pos(n);
    lemma_pow2_pos((128 - n) as nat);
    lemma_pow2_adds(n, (128 - n) as nat);
    lemma_mod_mod(x, pow2(n) as int, pow2((128 - n) as nat) as int);
}

/// The largest value of the native word of `w` bits, shifted down by `w - n`
/// places, is the all-ones pattern of `n` bits.
proof fn lemma_shifted_native_max(m: u128, w: u128, n: u128)
    by (bit_vector)
    requires
        1 <= n < 128,
        n <= w <= 128,
        w < 128 ==> m == ((1u128 << w) - 1) as u128,
        w == 128 ==> m == 0xffff_ffff_ffff_ffff_ffff_ffff_ffff_ffffu128,
    ensures
        m >> ((w - n) as u128) == ((1u128 << n) - 1) as u128,
{
}

/// The native word that stores `n` bits: the smallest of 8, 16, 32, 64 and
/// 128 bits that is at least `n`. There is none for a width outside 1..=128.
pub fn storage_for(n: u8) -> (r: Option<u32>)
    ensures
        r is Some <==> valid_width(n as nat),
        r matches Some(w) ==> {
            &&& w as nat == storage_width(n as nat)
            &&& is_native_width(w as nat)
            &&& n <= w
            &&& forall|v: nat| is_native_width(v) && n <= v ==> w <= v
        },
{
    if n == 0 || n > 128 {
        None
    } else if n <= 8 {
        Some(8)
    } else if n <= 16 {
        Some(16)
    } else if n <= 32 {
        Some(32)
    } else if n <= 64 {
        Some(64)
    } else {
        Some(128)
    }
}

/// The largest value of the native word of `w` bits.
fn native_max(w: u32) -> (r: u128)
    requires
        is_native_width(w as nat),
    ensures
        w < 128 ==> r == ((1u128 << w) - 1) as u128,
        w == 128 ==> r == u128::MAX,
{
    if w == 8 {
        assert(u8::MAX as u128 == ((1u128 << 8u128) - 1) as u128) by (bit_vector);
        u8::MAX as u128
    } else if w == 16 {
        assert(u16::MAX as u128 == ((1u128 << 16u128) - 1) as u128) by (bit_vector);
        u16::MAX as u128
    } else if w == 32 {
        assert(u32::MAX as u128 == ((1u128 << 32u128) - 1) as u128) by (bit_vector);
        u32::MAX as u128
    } else if w == 64 {
        assert(u64::MAX as u128 == ((1u128 << 64u128) - 1) as u128) by (bit_vector);
        u64::MAX as u128
    } else {
        u128::MAX
    }
}

/// The all-ones pattern of `n` bits: the largest value of the storage word,
/// shifted right by as many places as that word has beyond `n` bits.
pub fn max_mask(n: u8) -> (r: u128)
    requires
        valid_width(n as nat),
    ensures
        r as nat == max_mask_of(n as nat),
{
    let w = match storage_for(n) {
        Some(w) => w,
        None => 128,
    };
    let m = native_max(w);
    let r = m >> ((w - n as u32) as u128);
    proof {
        if n < 128 {
            lemma_shifted_native_max(m, w as u128, n as u128);
            assert(r == ((1u128 << (n as u128)) - 1) as u128);
            assert(pow2(n as nat) >= 1) by { lemma_pow2_pos(n as nat); }
            lemma_one_shl(n as u128);
        } else {
            lemma_pow2_128();
            assert(m >> 0u128 == m) by (bit_vector);
        }
    }
    r
}

/// Reduces `x` to its low `n` bits by masking with the all-ones pattern of
/// `n` bits: the remainder of `x` modulo 2^n.
pub fn mask_to(x: u128, n: u8) -> (r: u128)
    requires
        valid_width(n as nat),
    ensures
        r as nat == x as nat % pow2(n as nat),
{
    let m = max_mask(n);
    let r = x & m;
    proof {
        if n < 128 {
            lemma_one_shl(n as u128);
            lemma_and_low_bits(x, n as u128);
            lemma_pow2_pos(n as nat);
            assert(m == ((1u128 << (n as u128)) - 1) as u128);
        } else {
            lemma_pow2_128();
            assert(x & 0xffff_ffff_ffff_ffff_ffff_ffff_ffff_ffffu128 == x) by (bit_vector);
            lemma_small_mod(x as nat, pow2(128));
        }
    }
    r
}

/// A right shift by `s` places is a division by 2^s.
pub proof fn lemma_shr_is_div(x: u128, s: u128)
    requires
        s < 128,
    ensures
        (x >> s) as nat == x as nat / pow2(s as nat),
    decreases s,
{
    if s == 0 {
        assert(x >> 0u128 == x) by (bit_vector);
        lemma2_to64();
        assert(x as nat / 1 == x as nat);
    } else {
        let j: u128 = (s - 1) as u128;
        assert(x >> s == (x >> j) / 2) by (bit_vector)
            requires
                j < 127,
                s == j + 1,
        ;
        lemma_shr_is_div(x, j);
        lemma_pow2_pos(j as nat);
        vstd::arithmetic::power2::lemma_pow2_unfold(s as nat);
        vstd::arithmetic::div_mod::lemma_div_denominator(x as int, pow2(j as nat) as int, 2);
        assert(pow2(s as nat) == pow2(j as nat) * 2);
        assert((x >> j) as nat == x as nat / pow2(j as nat));
        assert((x >> s) as nat == (x >> j) as nat / 2);
        assert(x as nat / pow2(s as nat) == (x as nat / pow2(j as nat)) / 2);
    }
}

/// The result of a bitwise or or xor of two values below 2^n stays below
/// 2^n, and so does a bitwise and with any value.
pub proof fn lemma_bitwise_bounded(x: u128, y: u128, n: u128)
    requires
        n < 128,
        x < (1u128 << n),
        y < (1u128 << n),
    ensures
        (x | y) < (1u128 << n),
        (x ^ y) < (1u128 << n),
        (x & y) <= x,
{
    assert((x | y) < (1u128 << n) && (x ^ y) < (1u128 << n) && (x & y) <= x) by (bit_vector)
        requires
            n < 128,
            x < (1u128 << n),
            y < (1u128 << n),
    ;
}

/// The descriptor of the width of `N` bits. `Intern` is implemented for it
/// exactly when 1 <= N <= 128, so that no other width can be named.
pub struct InternHelper<const N: u8> {}

/// What the table tells of one width: its bit count, the native word that
/// stores it, and its named values.
pub trait Intern {
    /// The native word that stores the width.
    type UInt: UnsignedInteger;

    /// The bit count of the width.
    spec fn spec_bits() -> nat;

    /// The bit count of the width.
    fn bits() -> (r: u32)
        ensures
            r as nat == Self::spec_bits(),
    ;

    /// The width is supported and is stored in the smallest native word
    /// that holds it.
    proof fn lemma_table()
        ensures
            valid_width(Self::spec_bits()),
            <Self::UInt as UnsignedInteger>::spec_bits() == storage_width(Self::spec_bits()),
    ;

    /// The bit count of the native word that stores the width.
    fn storage_bits() -> (r: u32)
        ensures
            r as nat == storage_width(Self::spec_bits()),
    {
        proof {
            Self::lemma_table();
        }
        <Self::UInt as UnsignedInteger>::bits()
    }

    /// The smallest value: zero.
    fn min() -> (r: Self::UInt)
        ensures
            r.as_nat() == 0,
    {
        Self::zero()
    }

    /// The largest value: all bits of the width set.
    fn max() -> (r: Self::UInt)
        ensures
            r.as_nat() == max_mask_of(Self::spec_bits()),
    {
        proof {
            Self::lemma_table();
            lemma_pow2_pos(Self::spec_bits());
            lemma_pow2_le(Self::spec_bits(), storage_width(Self::spec_bits()));
        }
        <Self::UInt as UnsignedInteger>::from_u128(max_mask(Self::bits() as u8)).unwrap()
    }

    /// Zero.
    fn zero() -> (r: Self::UInt)
        ensures
            r.as_nat() == 0,
    {
        proof {
            Self::lemma_table();
            lemma_pow2_pos(<Self::UInt as UnsignedInteger>::spec_bits());
        }
        <Self::UInt as UnsignedInteger>::from_u128(0).unwrap()
    }

    /// One.
    fn one() -> (r: Self::UInt)
        ensures
            r.as_nat() == 1,
    {
        proof {
            Self::lemma_table();
            lemma_pow2_strictly_increases(0, <Self::UInt as UnsignedInteger>::spec_bits());
            lemma2_to64();
        }
        <Self::UInt as UnsignedInteger>::from_u128(1).unwrap()
    }
}

/// 2^a <= 2^b where a <= b.
pub proof fn lemma_pow2_le(a: nat, b: nat)
    requires
        a <= b,
    ensures
        pow2(a) <= pow2(b),
{
    if a < b {
        lemma_pow2_strictly_increases(a, b);
    }
}

} // verus!
