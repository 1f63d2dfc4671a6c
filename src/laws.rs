//! Laws that relate the operations of the library to one another. Each is
//! stated over what the operations' own contracts allow them to return.

use crate::convert::UnsignedInteger;
use crate::varuint::{lemma_mul_pow2_vanishes, Error, VarUInt};
use crate::width::{max_mask_of, Intern, InternHelper};
use vstd::arithmetic::power2::pow2;
use vstd::prelude::*;

verus! {

/// Addition commutes, and the largest value plus one wraps to zero.
pub proof fn law_add_commutes_and_wraps<const N: u8>(
    a: VarUInt<N>,
    b: VarUInt<N>,
    max: VarUInt<N>,
    one: VarUInt<N>,
)
    where
        InternHelper<N>: Intern,
    requires
        a.wf(),
        b.wf(),
        max@ == max_mask_of(VarUInt::<N>::width()),
        one@ == 1,
    ensures
        forall|x: VarUInt<N>, y: VarUInt<N>|
            call_ensures(<VarUInt<N> as core::ops::Add>::add, (a, b), x) && call_ensures(
                <VarUInt<N> as core::ops::Add>::add,
                (b, a),
                y,
            ) ==> x@ == y@,
        forall|z: VarUInt<N>|
            call_ensures(<VarUInt<N> as core::ops::Add>::add, (max, one), z) ==> z@ == 0,
{
    VarUInt::<N>::lemma_width();
    vstd::arithmetic::div_mod::lemma_mod_self_0(pow2(VarUInt::<N>::width()) as int);
}

/// Zero minus one wraps to the largest value.
pub proof fn law_sub_wraps<const N: u8>(zero: VarUInt<N>, one: VarUInt<N>)
    where
        InternHelper<N>: Intern,
    requires
        zero@ == 0,
        one@ == 1,
    ensures
        forall|z: VarUInt<N>|
            call_ensures(<VarUInt<N> as core::ops::Sub>::sub, (zero, one), z) ==> z@
                == max_mask_of(VarUInt::<N>::width()),
{
    let m = pow2(VarUInt::<N>::width());
    VarUInt::<N>::lemma_width();
    vstd::arithmetic::div_mod::lemma_mod_multiples_vanish(-1, m as int - 1, m as int);
    vstd::arithmetic::div_mod::lemma_small_mod((m - 1) as nat, m);
}

/// Complementing twice within `N` bits gives the value back.
pub proof fn law_not_involution<const N: u8>(v: VarUInt<N>)
    where
        InternHelper<N>: Intern,
    requires
        v.wf(),
    ensures
        forall|x: VarUInt<N>, y: VarUInt<N>|
            call_ensures(<VarUInt<N> as core::ops::Not>::not, (v,), x) && call_ensures(
                <VarUInt<N> as core::ops::Not>::not,
                (x,),
                y,
            ) ==> y@ == v@,
{
}

/// A left shift by `N` or more places leaves zero, and a left shift by any
/// count leaves no bit set at or above position N.
pub proof fn law_shl_stays_within_width<const N: u8>(v: VarUInt<N>, s: usize)
    where
        InternHelper<N>: Intern,
    requires
        v.wf(),
    ensures
        forall|x: VarUInt<N>|
            call_ensures(<VarUInt<N> as core::ops::Shl<usize>>::shl, (v, s), x) ==> x@ < pow2(
                VarUInt::<N>::width(),
            ) && (s >= VarUInt::<N>::width() ==> x@ == 0),
{
    assert forall|x: VarUInt<N>|
        call_ensures(<VarUInt<N> as core::ops::Shl<usize>>::shl, (v, s), x) && s
            >= VarUInt::<N>::width() implies x@ == 0 by {
        lemma_mul_pow2_vanishes(v@, s as nat, VarUInt::<N>::width());
    }
}

/// Widening to `M >= N` bits and converting back to `N` bits succeeds and
/// gives the value back.
pub proof fn law_widen_round_trip<const N: u8, const M: u8>(v: VarUInt<N>)
    where
        InternHelper<N>: Intern,
        InternHelper<M>: Intern,
    requires
        v.wf(),
        VarUInt::<N>::width() <= VarUInt::<M>::width(),
    ensures
        forall|w: VarUInt<M>, r: Result<VarUInt<N>, Error>|
            call_ensures(VarUInt::<N>::widen::<M>, (v,), w) && call_ensures(
                VarUInt::<M>::try_resize::<N>,
                (w,),
                r,
            ) ==> (r matches Ok(x) && x@ == v@),
{
}

/// A native value that needs more than `N` bits is refused with
/// `ValueTooBig`.
pub proof fn law_narrowing_refuses<const N: u8, T: UnsignedInteger>(v: T)
    where
        InternHelper<N>: Intern,
    requires
        v.as_nat() > max_mask_of(VarUInt::<N>::width()),
    ensures
        forall|r: Result<VarUInt<N>, Error>|
            call_ensures(VarUInt::<N>::try_from_native::<T>, (v,), r) ==> r == Err::<
                VarUInt<N>,
                Error,
            >(Error::ValueTooBig),
{
}

/// Between widths `M < N`: a value of `M` bits survives the trip to `N` bits
/// and back, and a value of `N` bits converts to `M` bits exactly when it
/// is at most the largest value of `M` bits.
pub proof fn law_conversion_symmetry<const M: u8, const N: u8>(v: VarUInt<M>, u: VarUInt<N>)
    where
        InternHelper<M>: Intern,
        InternHelper<N>: Intern,
    requires
        v.wf(),
        u.wf(),
        VarUInt::<M>::width() < VarUInt::<N>::width(),
    ensures
        forall|w: VarUInt<N>, r: Result<VarUInt<M>, Error>|
            call_ensures(VarUInt::<M>::widen::<N>, (v,), w) && call_ensures(
                VarUInt::<N>::try_resize::<M>,
                (w,),
                r,
            ) ==> (r matches Ok(x) && x@ == v@),
        forall|r: Result<VarUInt<M>, Error>|
            call_ensures(VarUInt::<N>::try_resize::<M>, (u,), r) ==> (r is Err <==> u@
                > max_mask_of(VarUInt::<M>::width())),
{
}

} // verus!
