//! The conversion matrix: between values of `N` bits and native unsigned
//! integers, and between values of two widths. A conversion that cannot
//! lose bits is total; any other checks the value and fails with
//! `ValueTooBig` rather than truncate it.

use crate::varuint::{Error, VarUInt};
use crate::width::{
    is_native_width, lemma_pow2_128, lemma_pow2_le, max_mask, max_mask_of, Intern, InternHelper,
};
use vstd::arithmetic::power2::{lemma2_to64, pow2};
use vstd::prelude::*;

verus! {

/// A native unsigned integer type: `u8`, `u16`, `u32`, `u64` or `u128`.
pub trait UnsignedInteger: Sized + Copy + core::fmt::Debug {
    /// The number of bits of the type.
    spec fn spec_bits() -> nat;

    /// The number that a value stands for.
    spec fn as_nat(self) -> nat;

    /// The number of bits of the type.
    fn bits() -> (r: u32)
        ensures
            r as nat == Self::spec_bits(),
            is_native_width(r as nat),
    ;

    /// The value as a 128-bit word.
    fn to_u128(self) -> (r: u128)
        ensures
            r as nat == self.as_nat(),
    ;

    /// The value of the type that equals `v`, if the type can hold it.
    fn from_u128(v: u128) -> (r: Option<Self>)
        ensures
            r is Some <==> (v as nat) < pow2(Self::spec_bits()),
            r matches Some(x) ==> x.as_nat() == v as nat,
    ;

    /// The value of the type that stands for `v`, where `v < 2^bits`.
    spec fn spec_from_nat(v: nat) -> Self;

    /// A value is the one that stands for its number.
    proof fn lemma_from_nat(self)
        ensures
            Self::spec_from_nat(self.as_nat()) == self,
    ;

    /// Every value of the type lies below 2^bits.
    proof fn lemma_range(self)
        ensures
            is_native_width(Self::spec_bits()),
            self.as_nat() < pow2(Self::spec_bits()),
    ;
}

impl UnsignedInteger for u8 {
    open spec fn spec_from_nat(v: nat) -> Self {
        v as u8
    }

    proof fn lemma_from_nat(self) {
        assert(self.as_nat() == self as nat);
        assert(Self::spec_from_nat(self.as_nat()) == self);
    }

    open spec fn spec_bits() -> nat {
        8
    }

    open spec fn as_nat(self) -> nat {
        self as nat
    }

    fn bits() -> (r: u32) {
        8
    }

    fn to_u128(self) -> (r: u128) {
        self as u128
    }

    fn from_u128(v: u128) -> (r: Option<Self>) {
        proof {
            lemma2_to64();
        }
        if v <= u8::MAX as u128 {
            Some(v as u8)
        } else {
            None
        }
    }

    proof fn lemma_range(self) {
        lemma2_to64();
    }
}

impl UnsignedInteger for u16 {
    open spec fn spec_from_nat(v: nat) -> Self {
        v as u16
    }

    proof fn lemma_from_nat(self) {
        assert(self.as_nat() == self as nat);
        assert(Self::spec_from_nat(self.as_nat()) == self);
    }

    open spec fn spec_bits() -> nat {
        16
    }

    open spec fn as_nat(self) -> nat {
        self as nat
    }

    fn bits() -> (r: u32) {
        16
    }

    fn to_u128(self) -> (r: u128) {
        self as u128
    }

    fn from_u128(v: u128) -> (r: Option<Self>) {
        proof {
            lemma2_to64();
        }
        if v <= u16::MAX as u128 {
            Some(v as u16)
        } else {
            None
        }
    }

    proof fn lemma_range(self) {
        lemma2_to64();
    }
}

impl UnsignedInteger for u32 {
    open spec fn spec_from_nat(v: nat) -> Self {
        v as u32
    }

    proof fn lemma_from_nat(self) {
        assert(self.as_nat() == self as nat);
        assert(Self::spec_from_nat(self.as_nat()) == self);
    }

    open spec fn spec_bits() -> nat {
        32
    }

    open spec fn as_nat(self) -> nat {
        self as nat
    }

    fn bits() -> (r: u32) {
        32
    }

    fn to_u128(self) -> (r: u128) {
        self as u128
    }

    fn from_u128(v: u128) -> (r: Option<Self>) {
        proof {
            lemma2_to64();
        }
        if v <= u32::MAX as u128 {
            Some(v as u32)
        } else {
            None
        }
    }

    proof fn lemma_range(self) {
        lemma2_to64();
    }
}

impl UnsignedInteger for u64 {
    open spec fn spec_from_nat(v: nat) -> Self {
        v as u64
    }

    proof fn lemma_from_nat(self) {
        assert(self.as_nat() == self as nat);
        assert(Self::spec_from_nat(self.as_nat()) == self);
    }

    open spec fn spec_bits() -> nat {
        64
    }

    open spec fn as_nat(self) -> nat {
        self as nat
    }

    fn bits() -> (r: u32) {
        64
    }

    fn to_u128(self) -> (r: u128) {
        self as u128
    }

    fn from_u128(v: u128) -> (r: Option<Self>) {
        proof {
            lemma2_to64();
        }
        if v <= u64::MAX as u128 {
            Some(v as u64)
        } else {
            None
        }
    }

    proof fn lemma_range(self) {
        lemma2_to64();
    }
}

impl UnsignedInteger for u128 {
    open spec fn spec_from_nat(v: nat) -> Self {
        v as u128
    }

    proof fn lemma_from_nat(self) {
        assert(self.as_nat() == self as nat);
        assert(Self::spec_from_nat(self.as_nat()) == self);
    }

    open spec fn spec_bits() -> nat {
        128
    }

    open spec fn as_nat(self) -> nat {
        self as nat
    }

    fn bits() -> (r: u32) {
        128
    }

    fn to_u128(self) -> (r: u128) {
        self
    }

    fn from_u128(v: u128) -> (r: Option<Self>) {
        proof {
            lemma_pow2_128();
        }
        Some(v)
    }

    proof fn lemma_range(self) {
        lemma_pow2_128();
    }
}

impl<const N: u8> VarUInt<N> where InternHelper<N>: Intern {
    /// Widening from a native type of at most `N` bits: always exact.
    pub fn from_native<T: UnsignedInteger>(v: T) -> (r: Self)
        requires
            T::spec_bits() <= Self::width(),
        ensures
            r@ == v.as_nat(),
            r.wf(),
    {
        proof {
            v.lemma_range();
            lemma_pow2_le(T::spec_bits(), Self::width());
        }
        Self::from_word(v.to_u128())
    }

    /// Conversion from any native type: the exact value, or `ValueTooBig`
    /// where `v` needs more than `N` bits.
    pub fn try_from_native<T: UnsignedInteger>(v: T) -> (r: Result<Self, Error>)
        ensures
            r is Ok <==> v.as_nat() <= max_mask_of(Self::width()),
            r matches Ok(x) ==> x@ == v.as_nat() && x.wf(),
            r matches Err(e) ==> e == Error::ValueTooBig,
    {
        proof {
            Self::lemma_width();
        }
        let w = v.to_u128();
        if w > max_mask(Self::bits() as u8) {
            Err(Error::ValueTooBig)
        } else {
            Ok(Self::from_word(w))
        }
    }

    /// Conversion to a native type of at least `N` bits: always exact.
    pub fn to_native<T: UnsignedInteger>(self) -> (r: T)
        requires
            self.wf(),
            Self::width() <= T::spec_bits(),
        ensures
            r.as_nat() == self@,
    {
        proof {
            lemma_pow2_le(Self::width(), T::spec_bits());
        }
        T::from_u128(self.word()).unwrap()
    }

    /// Conversion to any native type: the exact value, or `ValueTooBig`
    /// where the type cannot hold it.
    pub fn try_to_native<T: UnsignedInteger>(self) -> (r: Result<T, Error>)
        ensures
            r is Ok <==> self@ < pow2(T::spec_bits()),
            r matches Ok(x) ==> x.as_nat() == self@,
            r matches Err(e) ==> e == Error::ValueTooBig,
    {
        match T::from_u128(self.word()) {
            Some(x) => Ok(x),
            None => Err(Error::ValueTooBig),
        }
    }

    /// Widening to `M >= N` bits: always exact.
    pub fn widen<const M: u8>(self) -> (r: VarUInt<M>)
        where
            InternHelper<M>: Intern,
        requires
            self.wf(),
            Self::width() <= VarUInt::<M>::width(),
        ensures
            r@ == self@,
            r.wf(),
    {
        proof {
            lemma_pow2_le(Self::width(), VarUInt::<M>::width());
        }
        VarUInt::<M>::from_word(self.word())
    }

    /// Conversion to `M` bits, in either direction: the exact value, or
    /// `ValueTooBig` where it needs more than `M` bits.
    pub fn try_resize<const M: u8>(self) -> (r: Result<VarUInt<M>, Error>)
        where
            InternHelper<M>: Intern,
        ensures
            r is Ok <==> self@ <= max_mask_of(VarUInt::<M>::width()),
            r matches Ok(x) ==> x@ == self@ && x.wf(),
            r matches Err(e) ==> e == Error::ValueTooBig,
    {
        VarUInt::<M>::try_from_native(self.word())
    }

    /// Whether this value equals the native number `v`; both are compared
    /// as 128-bit words.
    pub fn eq_native<T: UnsignedInteger>(&self, v: T) -> (r: bool)
        ensures
            r == (self@ == v.as_nat()),
    {
        self.word() == v.to_u128()
    }

    /// How this value orders against the native number `v`; both are
    /// compared as 128-bit words.
    pub fn cmp_native<T: UnsignedInteger>(&self, v: T) -> (r: core::cmp::Ordering)
        ensures
            r == core::cmp::Ordering::Less <==> self@ < v.as_nat(),
            r == core::cmp::Ordering::Equal <==> self@ == v.as_nat(),
            r == core::cmp::Ordering::Greater <==> self@ > v.as_nat(),
    {
        let a = self.word();
        let b = v.to_u128();
        if a < b {
            core::cmp::Ordering::Less
        } else if a == b {
            core::cmp::Ordering::Equal
        } else {
            core::cmp::Ordering::Greater
        }
    }
}

} // verus!
