//! The value type: an unsigned integer of `N` bits, with wraparound
//! arithmetic, bitwise operators and shifts that keep it within `N` bits.

use crate::convert::UnsignedInteger;
use crate::width::{
    lemma_bitwise_bounded, lemma_mod_pow2_128, lemma_one_shl, lemma_pow2_128, lemma_pow2_le,
    lemma_shr_is_div, mask_to, max_mask_of, storage_width, valid_width, Intern, InternHelper,
};
use vstd::arithmetic::div_mod::{lemma_mod_multiples_vanish, lemma_small_mod};
use vstd::arithmetic::power2::{lemma_pow2_adds, lemma_pow2_pos, pow2};
use vstd::prelude::*;

verus! {

/// The error of a conversion whose source value does not fit the target.
#[derive(Debug, Clone, Copy, PartialEq, Eq, Structural)]
pub enum Error {
    ValueTooBig,
}

/// An unsigned integer of `N` bits, 1 <= N <= 128, with wraparound
/// arithmetic modulo 2^N. It is stored in the smallest native word that
/// holds `N` bits, with the bits at and above position N clear.
#[derive(Debug, Clone, Copy)]
pub struct VarUInt<const N: u8> where InternHelper<N>: Intern {
    value: <InternHelper<N> as Intern>::UInt,
}

/// An unsigned integer of 48 bits.
pub type U48 = VarUInt<48>;

impl<const N: u8> View for VarUInt<N> where InternHelper<N>: Intern {
    type V = nat;

    closed spec fn view(&self) -> nat {
        self.value.as_nat()
    }
}

/// A subtraction in the 128-bit word that wraps below zero leaves the
/// difference modulo 2^128.
proof fn lemma_wrapping_sub(a: u128, b: u128)
    ensures
        a.wrapping_sub(b) as int == (a as int - b as int) % (pow2(128) as int),
{
    lemma_pow2_128();
    if a >= b {
        lemma_small_mod((a - b) as nat, pow2(128));
    } else {
        lemma_mod_multiples_vanish(1, a as int - b as int, pow2(128) as int);
        lemma_small_mod((a as int - b as int + pow2(128)) as nat, pow2(128));
    }
}

/// A multiple of 2^n leaves no remainder modulo 2^n.
pub proof fn lemma_mul_pow2_vanishes(x: nat, s: nat, n: nat)
    requires
        n <= s,
    ensures
        (x * pow2(s)) % pow2(n) == 0,
{
    lemma_pow2_pos(n);
    lemma_pow2_adds(n, (s - n) as nat);
    let k = x * pow2((s - n) as nat);
    assert(x * pow2(s) == pow2(n) * k) by (nonlinear_arith)
        requires
            pow2(s) == pow2(n) * pow2((s - n) as nat),
            k == x * pow2((s - n) as nat),
    ;
    lemma_mod_multiples_vanish(k as int, 0, pow2(n) as int);
}

impl<const N: u8> VarUInt<N> where InternHelper<N>: Intern {
    /// The bit count `N`, as the width table gives it.
    pub open spec fn width() -> nat {
        <InternHelper<N> as Intern>::spec_bits()
    }

    /// The value has no bit set at or above position N.
    pub open spec fn wf(self) -> bool {
        self@ < pow2(Self::width())
    }

    /// The width is supported, and 2^N values fit in the storage word.
    pub proof fn lemma_width()
        ensures
            valid_width(Self::width()),
            0 < pow2(Self::width()),
            pow2(Self::width()) <= pow2(
                <<InternHelper<N> as Intern>::UInt as UnsignedInteger>::spec_bits(),
            ),
    {
        <InternHelper<N> as Intern>::lemma_table();
        lemma_pow2_pos(Self::width());
        lemma_pow2_le(Self::width(), storage_width(Self::width()));
    }

    /// The value of `N` bits whose number is `v`, where `v < 2^N`.
    pub(crate) closed spec fn from_nat(v: nat) -> Self {
        VarUInt { value: <<InternHelper<N> as Intern>::UInt as UnsignedInteger>::spec_from_nat(v) }
    }

    /// The bit count `N` as a machine integer.
    fn n() -> (r: u8)
        ensures
            r as nat == Self::width(),
    {
        proof {
            Self::lemma_width();
        }
        <InternHelper<N> as Intern>::bits() as u8
    }

    /// Builds a value from a word that already fits in `N` bits.
    pub(crate) fn from_word(value: u128) -> (r: Self)
        requires
            (value as nat) < pow2(Self::width()),
        ensures
            r@ == value as nat,
            r == Self::from_nat(value as nat),
            r.wf(),
    {
        proof {
            Self::lemma_width();
        }
        let v = <<InternHelper<N> as Intern>::UInt as UnsignedInteger>::from_u128(value).unwrap();
        proof {
            v.lemma_from_nat();
        }
        VarUInt { value: v }
    }

    /// The number held, as a 128-bit word.
    pub(crate) fn word(self) -> (r: u128)
        ensures
            r as nat == self@,
    {
        self.value.to_u128()
    }

    /// The number of bits, `N`.
    pub fn bits() -> (r: u32)
        ensures
            r as nat == Self::width(),
    {
        proof {
            <InternHelper<N> as Intern>::lemma_table();
        }
        <InternHelper<N> as Intern>::bits()
    }

    /// The smallest value: zero.
    pub fn min_value() -> (r: Self)
        ensures
            r@ == 0,
            r.wf(),
    {
        proof {
            Self::lemma_width();
        }
        VarUInt { value: <InternHelper<N> as Intern>::min() }
    }

    /// The largest value: all `N` bits set.
    pub fn max_value() -> (r: Self)
        ensures
            r@ == max_mask_of(Self::width()),
            r.wf(),
    {
        proof {
            Self::lemma_width();
        }
        VarUInt { value: <InternHelper<N> as Intern>::max() }
    }

    /// Zero.
    pub fn zero() -> (r: Self)
        ensures
            r@ == 0,
            r.wf(),
    {
        proof {
            Self::lemma_width();
        }
        VarUInt { value: <InternHelper<N> as Intern>::zero() }
    }

    /// One.
    pub fn one() -> (r: Self)
        ensures
            r@ == 1,
            r.wf(),
    {
        proof {
            Self::lemma_width();
            vstd::arithmetic::power2::lemma_pow2_strictly_increases(0, Self::width());
            vstd::arithmetic::power2::lemma2_to64();
        }
        VarUInt { value: <InternHelper<N> as Intern>::one() }
    }

    /// Bitwise and, or and xor of two values of `N` bits stay within `N`
    /// bits.
    proof fn lemma_bitwise(x: u128, y: u128)
        requires
            (x as nat) < pow2(Self::width()),
            (y as nat) < pow2(Self::width()),
        ensures
            ((x & y) as nat) < pow2(Self::width()),
            ((x | y) as nat) < pow2(Self::width()),
            ((x ^ y) as nat) < pow2(Self::width()),
    {
        Self::lemma_width();
        if Self::width() < 128 {
            lemma_one_shl(Self::width() as u128);
            lemma_bitwise_bounded(x, y, Self::width() as u128);
        } else {
            lemma_pow2_128();
            assert((x & y) <= x) by (bit_vector);
        }
    }

    /// The complement of `x` in the 128-bit word, reduced modulo 2^N, is the
    /// complement of `x` within `N` bits.
    proof fn lemma_complement(x: u128)
        requires
            (x as nat) < pow2(Self::width()),
        ensures
            (!x) as nat % pow2(Self::width()) == max_mask_of(Self::width()) - x as nat,
    {
        Self::lemma_width();
        let n = Self::width();
        assert(!x == 0xffff_ffff_ffff_ffff_ffff_ffff_ffff_ffffu128 - x) by (bit_vector);
        lemma_pow2_128();
        lemma_pow2_pos(n);
        lemma_pow2_pos((128 - n) as nat);
        lemma_pow2_adds(n, (128 - n) as nat);
        let a = pow2((128 - n) as nat) as int - 1;
        let b = pow2(n) as int - 1 - x as int;
        assert((!x) as int == pow2(n) as int * a + b) by (nonlinear_arith)
            requires
                (!x) as int == pow2(128) - 1 - x as int,
                pow2(128) == pow2(n) * pow2((128 - n) as nat),
                a == pow2((128 - n) as nat) as int - 1,
                b == pow2(n) as int - 1 - x as int,
        ;
        lemma_mod_multiples_vanish(a, b, pow2(n) as int);
        lemma_small_mod(b as nat, pow2(n));
    }

    /// `x` shifted left by `s` places, bits beyond position N - 1 dropped;
    /// zero once `s` reaches `N`.
    fn shl_word(x: u128, s: u128) -> (r: u128)
        requires
            (x as nat) < pow2(Self::width()),
        ensures
            r as nat == (x as nat * pow2(s as nat)) % pow2(Self::width()),
            (r as nat) < pow2(Self::width()),
    {
        proof {
            Self::lemma_width();
        }
        let n = Self::n();
        if s >= n as u128 {
            proof {
                lemma_mul_pow2_vanishes(x as nat, s as nat, n as nat);
            }
            0
        } else {
            // In the 128-bit word a shift left by `s` places is a wrapping
            // multiplication by 2^s.
            let p = 1u128 << s;
            proof {
                lemma_one_shl(s);
                lemma_pow2_128();
                lemma_mod_pow2_128(x as int * p as int, n as nat);
            }
            mask_to(x.wrapping_mul(p), n)
        }
    }

    /// `x` shifted right by `s` places; zero once `s` reaches `N`.
    fn shr_word(x: u128, s: u128) -> (r: u128)
        requires
            (x as nat) < pow2(Self::width()),
        ensures
            r as nat == x as nat / pow2(s as nat),
            (r as nat) < pow2(Self::width()),
    {
        proof {
            Self::lemma_width();
            lemma_pow2_pos(s as nat);
            vstd::arithmetic::div_mod::lemma_div_is_ordered_by_denominator(x as int, 1, pow2(s as nat) as int);
        }
        let n = Self::n();
        if s >= n as u128 {
            proof {
                if s > n as u128 {
                    vstd::arithmetic::power2::lemma_pow2_strictly_increases(n as nat, s as nat);
                }
                lemma_small_mod(x as nat, pow2(s as nat));
                vstd::arithmetic::div_mod::lemma_basic_div(x as int, pow2(s as nat) as int);
            }
            0
        } else {
            proof {
                lemma_shr_is_div(x, s);
            }
            x >> s
        }
    }
}

impl<const N: u8> core::ops::Add for VarUInt<N> where InternHelper<N>: Intern {
    type Output = Self;

    /// Wraparound addition: the sum modulo 2^N.
    fn add(self, rhs: Self) -> (r: Self)
        ensures
            r@ == (self@ + rhs@) % pow2(Self::width()),
            r.wf(),
    {
        let a = self.word();
        let b = rhs.word();
        proof {
            Self::lemma_width();
            lemma_pow2_128();
            lemma_mod_pow2_128(a as int + b as int, Self::width());
        }
        Self::from_word(mask_to(a.wrapping_add(b), Self::n()))
    }
}

impl<const N: u8> vstd::std_specs::ops::AddSpecImpl for VarUInt<N> where InternHelper<N>: Intern {
    open spec fn obeys_add_spec() -> bool {
        true
    }

    open spec fn add_req(self, rhs: Self) -> bool {
        self.wf() && rhs.wf()
    }

    closed spec fn add_spec(self, rhs: Self) -> Self {
        Self::from_nat((self@ + rhs@) % pow2(Self::width()))
    }
}

impl<const N: u8> core::ops::AddAssign for VarUInt<N> where InternHelper<N>: Intern {
    /// In place: the same result as `add`.
    fn add_assign(&mut self, rhs: Self)
        requires
            old(self).wf(),
            rhs.wf(),
        ensures
            final(self)@ == (old(self)@ + rhs@) % pow2(Self::width()),
            final(self).wf(),
    {
        *self = core::ops::Add::add(*self, rhs);
    }
}

impl<const N: u8> core::ops::Sub for VarUInt<N> where InternHelper<N>: Intern {
    type Output = Self;

    /// Wraparound subtraction: the difference modulo 2^N; below zero it borrows
    /// from bit N as a register of `N` bits does.
    fn sub(self, rhs: Self) -> (r: Self)
        ensures
            r@ == ((self@ - rhs@) % (pow2(Self::width()) as int)) as nat,
            r.wf(),
    {
        let a = self.word();
        let b = rhs.word();
        proof {
            Self::lemma_width();
            lemma_wrapping_sub(a, b);
            lemma_mod_pow2_128(a as int - b as int, Self::width());
        }
        Self::from_word(mask_to(a.wrapping_sub(b), Self::n()))
    }
}

impl<const N: u8> vstd::std_specs::ops::SubSpecImpl for VarUInt<N> where InternHelper<N>: Intern {
    open spec fn obeys_sub_spec() -> bool {
        true
    }

    open spec fn sub_req(self, rhs: Self) -> bool {
        self.wf() && rhs.wf()
    }

    closed spec fn sub_spec(self, rhs: Self) -> Self {
        Self::from_nat(((self@ - rhs@) % (pow2(Self::width()) as int)) as nat)
    }
}

impl<const N: u8> core::ops::SubAssign for VarUInt<N> where InternHelper<N>: Intern {
    /// In place: the same result as `sub`.
    fn sub_assign(&mut self, rhs: Self)
        requires
            old(self).wf(),
            rhs.wf(),
        ensures
            final(self)@ == ((old(self)@ - rhs@) % (pow2(Self::width()) as int)) as nat,
            final(self).wf(),
    {
        *self = core::ops::Sub::sub(*self, rhs);
    }
}

impl<const N: u8> core::ops::Mul for VarUInt<N> where InternHelper<N>: Intern {
    type Output = Self;

    /// Wraparound multiplication: the product modulo 2^N.
    fn mul(self, rhs: Self) -> (r: Self)
        ensures
            r@ == (self@ * rhs@) % pow2(Self::width()),
            r.wf(),
    {
        let a = self.word();
        let b = rhs.word();
        proof {
            Self::lemma_width();
            lemma_pow2_128();
            lemma_mod_pow2_128(a as int * b as int, Self::width());
        }
        Self::from_word(mask_to(a.wrapping_mul(b), Self::n()))
    }
}

impl<const N: u8> vstd::std_specs::ops::MulSpecImpl for VarUInt<N> where InternHelper<N>: Intern {
    open spec fn obeys_mul_spec() -> bool {
        true
    }

    open spec fn mul_req(self, rhs: Self) -> bool {
        self.wf() && rhs.wf()
    }

    closed spec fn mul_spec(self, rhs: Self) -> Self {
        Self::from_nat((self@ * rhs@) % pow2(Self::width()))
    }
}

impl<const N: u8> core::ops::MulAssign for VarUInt<N> where InternHelper<N>: Intern {
    /// In place: the same result as `mul`.
    fn mul_assign(&mut self, rhs: Self)
        requires
            old(self).wf(),
            rhs.wf(),
        ensures
            final(self)@ == (old(self)@ * rhs@) % pow2(Self::width()),
            final(self).wf(),
    {
        *self = core::ops::Mul::mul(*self, rhs);
    }
}

impl<const N: u8> core::ops::Div for VarUInt<N> where InternHelper<N>: Intern {
    type Output = Self;

    /// Division rounding down; the divisor must not be zero.
    fn div(self, rhs: Self) -> (r: Self)
        ensures
            r@ == self@ / rhs@,
            r.wf(),
    {
        let a = self.word();
        let b = rhs.word();
        proof {
            Self::lemma_width();
            vstd::arithmetic::div_mod::lemma_div_is_ordered_by_denominator(a as int, 1, b as int);
        }
        Self::from_word(a / b)
    }
}

impl<const N: u8> vstd::std_specs::ops::DivSpecImpl for VarUInt<N> where InternHelper<N>: Intern {
    open spec fn obeys_div_spec() -> bool {
        true
    }

    open spec fn div_req(self, rhs: Self) -> bool {
        self.wf() && rhs.wf() && rhs@ != 0
    }

    closed spec fn div_spec(self, rhs: Self) -> Self {
        Self::from_nat(self@ / rhs@)
    }
}

impl<const N: u8> core::ops::DivAssign for VarUInt<N> where InternHelper<N>: Intern {
    /// In place: the same result as `div`.
    fn div_assign(&mut self, rhs: Self)
        requires
            old(self).wf(),
            rhs.wf(),
            rhs@ != 0,
        ensures
            final(self)@ == old(self)@ / rhs@,
            final(self).wf(),
    {
        *self = core::ops::Div::div(*self, rhs);
    }
}

impl<const N: u8> core::ops::Rem for VarUInt<N> where InternHelper<N>: Intern {
    type Output = Self;

    /// The remainder of division; the divisor must not be zero.
    fn rem(self, rhs: Self) -> (r: Self)
        ensures
            r@ == self@ % rhs@,
            r.wf(),
    {
        let a = self.word();
        let b = rhs.word();
        proof {
            Self::lemma_width();
            vstd::arithmetic::div_mod::lemma_mod_is_mod_recursive(a as int, b as int);
        }
        Self::from_word(a % b)
    }
}

impl<const N: u8> vstd::std_specs::ops::RemSpecImpl for VarUInt<N> where InternHelper<N>: Intern {
    open spec fn obeys_rem_spec() -> bool {
        true
    }

    open spec fn rem_req(self, rhs: Self) -> bool {
        self.wf() && rhs.wf() && rhs@ != 0
    }

    closed spec fn rem_spec(self, rhs: Self) -> Self {
        Self::from_nat(self@ % rhs@)
    }
}

impl<const N: u8> core::ops::RemAssign for VarUInt<N> where InternHelper<N>: Intern {
    /// In place: the same result as `rem`.
    fn rem_assign(&mut self, rhs: Self)
        requires
            old(self).wf(),
            rhs.wf(),
            rhs@ != 0,
        ensures
            final(self)@ == old(self)@ % rhs@,
            final(self).wf(),
    {
        *self = core::ops::Rem::rem(*self, rhs);
    }
}

impl<const N: u8> core::ops::BitAnd for VarUInt<N> where InternHelper<N>: Intern {
    type Output = Self;

    /// Bitwise and.
    fn bitand(self, rhs: Self) -> (r: Self)
        ensures
            r@ == ((self@ as u128) & (rhs@ as u128)) as nat,
            r.wf(),
    {
        let a = self.word();
        let b = rhs.word();
        proof {
            Self::lemma_width();
            Self::lemma_bitwise(a, b);
        }
        Self::from_word(a & b)
    }
}

impl<const N: u8> vstd::std_specs::ops::BitAndSpecImpl for VarUInt<N> where InternHelper<N>: Intern {
    open spec fn obeys_bitand_spec() -> bool {
        true
    }

    open spec fn bitand_req(self, rhs: Self) -> bool {
        self.wf() && rhs.wf()
    }

    closed spec fn bitand_spec(self, rhs: Self) -> Self {
        Self::from_nat(((self@ as u128) & (rhs@ as u128)) as nat)
    }
}

impl<const N: u8> core::ops::BitAndAssign for VarUInt<N> where InternHelper<N>: Intern {
    /// In place: the same result as `bitand`.
    fn bitand_assign(&mut self, rhs: Self)
        requires
            old(self).wf(),
            rhs.wf(),
        ensures
            final(self)@ == ((old(self)@ as u128) & (rhs@ as u128)) as nat,
            final(self).wf(),
    {
        *self = core::ops::BitAnd::bitand(*self, rhs);
    }
}

impl<const N: u8> core::ops::BitOr for VarUInt<N> where InternHelper<N>: Intern {
    type Output = Self;

    /// Bitwise or.
    fn bitor(self, rhs: Self) -> (r: Self)
        ensures
            r@ == ((self@ as u128) | (rhs@ as u128)) as nat,
            r.wf(),
    {
        let a = self.word();
        let b = rhs.word();
        proof {
            Self::lemma_width();
            Self::lemma_bitwise(a, b);
        }
        Self::from_word(a | b)
    }
}

impl<const N: u8> vstd::std_specs::ops::BitOrSpecImpl for VarUInt<N> where InternHelper<N>: Intern {
    open spec fn obeys_bitor_spec() -> bool {
        true
    }

    open spec fn bitor_req(self, rhs: Self) -> bool {
        self.wf() && rhs.wf()
    }

    closed spec fn bitor_spec(self, rhs: Self) -> Self {
        Self::from_nat(((self@ as u128) | (rhs@ as u128)) as nat)
    }
}

impl<const N: u8> core::ops::BitOrAssign for VarUInt<N> where InternHelper<N>: Intern {
    /// In place: the same result as `bitor`.
    fn bitor_assign(&mut self, rhs: Self)
        requires
            old(self).wf(),
            rhs.wf(),
        ensures
            final(self)@ == ((old(self)@ as u128) | (rhs@ as u128)) as nat,
            final(self).wf(),
    {
        *self = core::ops::BitOr::bitor(*self, rhs);
    }
}

impl<const N: u8> core::ops::BitXor for VarUInt<N> where InternHelper<N>: Intern {
    type Output = Self;

    /// Bitwise exclusive or.
    fn bitxor(self, rhs: Self) -> (r: Self)
        ensures
            r@ == ((self@ as u128) ^ (rhs@ as u128)) as nat,
            r.wf(),
    {
        let a = self.word();
        let b = rhs.word();
        proof {
            Self::lemma_width();
            Self::lemma_bitwise(a, b);
        }
        Self::from_word(a ^ b)
    }
}

impl<const N: u8> vstd::std_specs::ops::BitXorSpecImpl for VarUInt<N> where InternHelper<N>: Intern {
    open spec fn obeys_bitxor_spec() -> bool {
        true
    }

    open spec fn bitxor_req(self, rhs: Self) -> bool {
        self.wf() && rhs.wf()
    }

    closed spec fn bitxor_spec(self, rhs: Self) -> Self {
        Self::from_nat(((self@ as u128) ^ (rhs@ as u128)) as nat)
    }
}

impl<const N: u8> core::ops::BitXorAssign for VarUInt<N> where InternHelper<N>: Intern {
    /// In place: the same result as `bitxor`.
    fn bitxor_assign(&mut self, rhs: Self)
        requires
            old(self).wf(),
            rhs.wf(),
        ensures
            final(self)@ == ((old(self)@ as u128) ^ (rhs@ as u128)) as nat,
            final(self).wf(),
    {
        *self = core::ops::BitXor::bitxor(*self, rhs);
    }
}

impl<const N: u8> core::ops::Shl for VarUInt<N> where InternHelper<N>: Intern {
    type Output = Self;

    /// Shift left by `rhs` places, dropping the bits that pass position N - 1;
    /// a shift by `N` or more places gives zero.
    fn shl(self, rhs: Self) -> (r: Self)
        ensures
            r@ == (self@ * pow2(rhs@)) % pow2(Self::width()),
            r.wf(),
    {
        let a = self.word();
        let b = rhs.word();
        proof {
            Self::lemma_width();
        }
        Self::from_word(Self::shl_word(a, b))
    }
}

impl<const N: u8> vstd::std_specs::ops::ShlSpecImpl for VarUInt<N> where InternHelper<N>: Intern {
    open spec fn obeys_shl_spec() -> bool {
        true
    }

    open spec fn shl_req(self, rhs: Self) -> bool {
        self.wf() && rhs.wf()
    }

    closed spec fn shl_spec(self, rhs: Self) -> Self {
        Self::from_nat((self@ * pow2(rhs@)) % pow2(Self::width()))
    }
}

impl<const N: u8> core::ops::ShlAssign for VarUInt<N> where InternHelper<N>: Intern {
    /// In place: the same result as `shl`.
    fn shl_assign(&mut self, rhs: Self)
        requires
            old(self).wf(),
            rhs.wf(),
        ensures
            final(self)@ == (old(self)@ * pow2(rhs@)) % pow2(Self::width()),
            final(self).wf(),
    {
        *self = core::ops::Shl::shl(*self, rhs);
    }
}

impl<const N: u8> core::ops::Shr for VarUInt<N> where InternHelper<N>: Intern {
    type Output = Self;

    /// Shift right by `rhs` places; a shift by `N` or more places gives zero.
    fn shr(self, rhs: Self) -> (r: Self)
        ensures
            r@ == self@ / pow2(rhs@),
            r.wf(),
    {
        let a = self.word();
        let b = rhs.word();
        proof {
            Self::lemma_width();
        }
        Self::from_word(Self::shr_word(a, b))
    }
}

impl<const N: u8> vstd::std_specs::ops::ShrSpecImpl for VarUInt<N> where InternHelper<N>: Intern {
    open spec fn obeys_shr_spec() -> bool {
        true
    }

    open spec fn shr_req(self, rhs: Self) -> bool {
        self.wf() && rhs.wf()
    }

    closed spec fn shr_spec(self, rhs: Self) -> Self {
        Self::from_nat(self@ / pow2(rhs@))
    }
}

impl<const N: u8> core::ops::ShrAssign for VarUInt<N> where InternHelper<N>: Intern {
    /// In place: the same result as `shr`.
    fn shr_assign(&mut self, rhs: Self)
        requires
            old(self).wf(),
            rhs.wf(),
        ensures
            final(self)@ == old(self)@ / pow2(rhs@),
            final(self).wf(),
    {
        *self = core::ops::Shr::shr(*self, rhs);
    }
}

impl<const N: u8> core::ops::Shl<usize> for VarUInt<N> where InternHelper<N>: Intern {
    type Output = Self;

    /// Shift left by `rhs` places, dropping the bits that pass position N - 1;
    /// a shift by `N` or more places gives zero.
    fn shl(self, rhs: usize) -> (r: Self)
        ensures
            r@ == (self@ * pow2(rhs as nat)) % pow2(Self::width()),
            r.wf(),
    {
        let a = self.word();
        proof {
            Self::lemma_width();
        }
        Self::from_word(Self::shl_word(a, rhs as u128))
    }
}

impl<const N: u8> vstd::std_specs::ops::ShlSpecImpl<usize> for VarUInt<N> where InternHelper<N>: Intern {
    open spec fn obeys_shl_spec() -> bool {
        true
    }

    open spec fn shl_req(self, rhs: usize) -> bool {
        self.wf()
    }

    closed spec fn shl_spec(self, rhs: usize) -> Self {
        Self::from_nat((self@ * pow2(rhs as nat)) % pow2(Self::width()))
    }
}

impl<const N: u8> core::ops::ShlAssign<usize> for VarUInt<N> where InternHelper<N>: Intern {
    /// In place: the same result as `shl`.
    fn shl_assign(&mut self, rhs: usize)
        requires
            old(self).wf(),
        ensures
            final(self)@ == (old(self)@ * pow2(rhs as nat)) % pow2(Self::width()),
            final(self).wf(),
    {
        *self = core::ops::Shl::shl(*self, rhs);
    }
}

impl<const N: u8> core::ops::Shr<usize> for VarUInt<N> where InternHelper<N>: Intern {
    type Output = Self;

    /// Shift right by `rhs` places; a shift by `N` or more places gives zero.
    fn shr(self, rhs: usize) -> (r: Self)
        ensures
            r@ == self@ / pow2(rhs as nat),
            r.wf(),
    {
        let a = self.word();
        proof {
            Self::lemma_width();
        }
        Self::from_word(Self::shr_word(a, rhs as u128))
    }
}

impl<const N: u8> vstd::std_specs::ops::ShrSpecImpl<usize> for VarUInt<N> where InternHelper<N>: Intern {
    open spec fn obeys_shr_spec() -> bool {
        true
    }

    open spec fn shr_req(self, rhs: usize) -> bool {
        self.wf()
    }

    closed spec fn shr_spec(self, rhs: usize) -> Self {
        Self::from_nat(self@ / pow2(rhs as nat))
    }
}

impl<const N: u8> core::ops::ShrAssign<usize> for VarUInt<N> where InternHelper<N>: Intern {
    /// In place: the same result as `shr`.
    fn shr_assign(&mut self, rhs: usize)
        requires
            old(self).wf(),
        ensures
            final(self)@ == old(self)@ / pow2(rhs as nat),
            final(self).wf(),
    {
        *self = core::ops::Shr::shr(*self, rhs);
    }
}

impl<const N: u8> core::ops::Not for VarUInt<N> where InternHelper<N>: Intern {
    type Output = Self;

    /// Bitwise complement within `N` bits: the bits of the word complemented,
    /// then masked to `N` bits.
    fn not(self) -> (r: Self)
        ensures
            r@ == max_mask_of(Self::width()) - self@,
            r.wf(),
    {
        let a = self.word();
        proof {
            Self::lemma_width();
            Self::lemma_complement(a);
        }
        Self::from_word(mask_to(!a, Self::n()))
    }
}

impl<const N: u8> vstd::std_specs::ops::NotSpecImpl for VarUInt<N> where InternHelper<N>: Intern {
    open spec fn obeys_not_spec() -> bool {
        true
    }

    open spec fn not_req(self) -> bool {
        self.wf()
    }

    closed spec fn not_spec(self) -> Self {
        Self::from_nat((max_mask_of(Self::width()) - self@) as nat)
    }
}

impl<const N: u8> Default for VarUInt<N> where InternHelper<N>: Intern {
    /// Zero.
    fn default() -> (r: Self)
        ensures
            r@ == 0,
            r.wf(),
    {
        Self::zero()
    }
}

impl<const N: u8> PartialEq for VarUInt<N> where InternHelper<N>: Intern {
    fn eq(&self, other: &Self) -> (r: bool) {
        self.word() == other.word()
    }
}

impl<const N: u8> vstd::std_specs::cmp::PartialEqSpecImpl for VarUInt<N> where InternHelper<N>: Intern {
    open spec fn obeys_eq_spec() -> bool {
        true
    }

    open spec fn eq_spec(&self, other: &Self) -> bool {
        self@ == other@
    }
}

impl<const N: u8> Eq for VarUInt<N> where InternHelper<N>: Intern {

}

impl<const N: u8> PartialOrd for VarUInt<N> where InternHelper<N>: Intern {
    fn partial_cmp(&self, other: &Self) -> (r: Option<core::cmp::Ordering>) {
        let a = self.word();
        let b = other.word();
        if a < b {
            Some(core::cmp::Ordering::Less)
        } else if a == b {
            Some(core::cmp::Ordering::Equal)
        } else {
            Some(core::cmp::Ordering::Greater)
        }
    }
}

impl<const N: u8> vstd::std_specs::cmp::PartialOrdSpecImpl for VarUInt<N> where InternHelper<N>: Intern {
    open spec fn obeys_partial_cmp_spec() -> bool {
        true
    }

    open spec fn partial_cmp_spec(&self, other: &Self) -> Option<core::cmp::Ordering> {
        if self@ < other@ {
            Some(core::cmp::Ordering::Less)
        } else if self@ == other@ {
            Some(core::cmp::Ordering::Equal)
        } else {
            Some(core::cmp::Ordering::Greater)
        }
    }
}

/// The decimal digit `d`, 0 <= d <= 9, as a character.
pub open spec fn digit_char(d: nat) -> char {
    if d == 0 {
        '0'
    } else if d == 1 {
        '1'
    } else if d == 2 {
        '2'
    } else if d == 3 {
        '3'
    } else if d == 4 {
        '4'
    } else if d == 5 {
        '5'
    } else if d == 6 {
        '6'
    } else if d == 7 {
        '7'
    } else if d == 8 {
        '8'
    } else {
        '9'
    }
}

/// The decimal numeral of `v`, without leading zeros.
pub open spec fn decimal(v: nat) -> Seq<char>
    decreases v,
{
    if v < 10 {
        seq![digit_char(v)]
    } else {
        decimal(v / 10).push(digit_char(v % 10))
    }
}

/// Relies on std's `Display` for `u128` (through `ToString::to_string`):
/// the decimal numeral of the number, without leading zeros or sign.
#[verifier::external_body]
fn u128_to_decimal(v: u128) -> (r: String)
    ensures
        r@ == decimal(v as nat),
{
    v.to_string()
}

impl<const N: u8> VarUInt<N> where InternHelper<N>: Intern {
    /// The decimal numeral of the value.
    pub fn to_string(&self) -> (r: String)
        ensures
            r@ == decimal(self@),
    {
        u128_to_decimal(self.word())
    }
}

} // verus!
