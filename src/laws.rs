//! Laws that relate the operations of `Correct<T>` to those of `T`.
use vstd::prelude::*;
use vstd::std_specs::cmp::PartialEqSpec;
use vstd::std_specs::ops::{
    AddSpec, BitAndSpec, BitOrSpec, BitXorSpec, DivSpec, MulSpec, NegSpec, RemSpec, ShlSpec,
    ShrSpec, SubSpec,
};
use crate::correct::Correct;
use crate::num::{Num, ShiftAmount, SignedNum};

verus! {

/// Wrapping commutes with every forwarded operator: `Correct(x) op Correct(y)`
/// and `Correct(x) op y` are defined exactly when `x op y` is, and both equal
/// `Correct(x op y)`.
pub proof fn lemma_forwarding_homomorphism<T: Num>(x: T, y: T)
    ensures
        Correct(x).add_req(Correct(y)) == x.add_req(y),
        Correct(x).add_spec(Correct(y)) == Correct(x.add_spec(y)),
        Correct(x).add_req(y) == x.add_req(y),
        Correct(x).add_spec(y) == Correct(x.add_spec(y)),
        Correct(x).sub_req(Correct(y)) == x.sub_req(y),
        Correct(x).sub_spec(Correct(y)) == Correct(x.sub_spec(y)),
        Correct(x).sub_req(y) == x.sub_req(y),
        Correct(x).sub_spec(y) == Correct(x.sub_spec(y)),
        Correct(x).mul_req(Correct(y)) == x.mul_req(y),
        Correct(x).mul_spec(Correct(y)) == Correct(x.mul_spec(y)),
        Correct(x).mul_req(y) == x.mul_req(y),
        Correct(x).mul_spec(y) == Correct(x.mul_spec(y)),
        Correct(x).div_req(Correct(y)) == x.div_req(y),
        Correct(x).div_spec(Correct(y)) == Correct(x.div_spec(y)),
        Correct(x).div_req(y) == x.div_req(y),
        Correct(x).div_spec(y) == Correct(x.div_spec(y)),
        Correct(x).rem_req(Correct(y)) == x.rem_req(y),
        Correct(x).rem_spec(Correct(y)) == Correct(x.rem_spec(y)),
        Correct(x).rem_req(y) == x.rem_req(y),
        Correct(x).rem_spec(y) == Correct(x.rem_spec(y)),
        Correct(x).bitor_req(Correct(y)) == x.bitor_req(y),
        Correct(x).bitor_spec(Correct(y)) == Correct(x.bitor_spec(y)),
        Correct(x).bitor_req(y) == x.bitor_req(y),
        Correct(x).bitor_spec(y) == Correct(x.bitor_spec(y)),
        Correct(x).bitand_req(Correct(y)) == x.bitand_req(y),
        Correct(x).bitand_spec(Correct(y)) == Correct(x.bitand_spec(y)),
        Correct(x).bitand_req(y) == x.bitand_req(y),
        Correct(x).bitand_spec(y) == Correct(x.bitand_spec(y)),
        Correct(x).bitxor_req(Correct(y)) == x.bitxor_req(y),
        Correct(x).bitxor_spec(Correct(y)) == Correct(x.bitxor_spec(y)),
        Correct(x).bitxor_req(y) == x.bitxor_req(y),
        Correct(x).bitxor_spec(y) == Correct(x.bitxor_spec(y)),
{
}

/// A shift by an amount of at least 8, of any shift-amount type, gives zero.
pub proof fn lemma_shift_past_limit_is_zero<T: Num, R: ShiftAmount>(x: Correct<T>, r: R)
    requires
        r.amount() >= 8,
    ensures
        x.shl_spec(r) == <Correct<T> as Num>::spec_zero(),
        x.shr_spec(r) == <Correct<T> as Num>::spec_zero(),
{
}

/// A shift by an amount in `[0, 8)` is the overflowing shift of the wrapped
/// value by that amount.
pub proof fn lemma_shift_below_limit<T: Num, R: ShiftAmount>(x: Correct<T>, r: R)
    requires
        0 <= r.amount() < 8,
    ensures
        (r.amount() as u32) as int == r.amount(),
        x.shl_spec(r) == Correct(x.0.spec_overflowing_shl(r.amount() as u32)),
        x.shr_spec(r) == Correct(x.0.spec_overflowing_shr(r.amount() as u32)),
{
}

/// `==` on wrapped values is equality of the wrapped numbers, hence reflexive,
/// symmetric and transitive; a wrapped value equals a raw value exactly when
/// the wrapped number does.
pub proof fn lemma_eq_laws<T: Num>(a: Correct<T>, b: Correct<T>, c: Correct<T>, v: T)
    ensures
        <Correct<T> as PartialEqSpec<Correct<T>>>::obeys_eq_spec(),
        <Correct<T> as PartialEqSpec<T>>::obeys_eq_spec(),
        a.eq_spec(&b) <==> a == b,
        a.eq_spec(&a),
        a.eq_spec(&b) ==> b.eq_spec(&a),
        a.eq_spec(&b) && b.eq_spec(&c) ==> a.eq_spec(&c),
        a.eq_spec(&v) <==> a.0 == v,
        Correct(v).eq_spec(&v),
{
    T::lemma_num_laws();
}

/// A signed wrapped value is exactly one of negative, positive or zero.
pub proof fn lemma_sign_trichotomy<T: SignedNum>(x: Correct<T>)
    ensures
        (x.0.spec_is_negative() && !x.0.spec_is_positive() && x != Correct(T::spec_zero())) || (
        !x.0.spec_is_negative() && x.0.spec_is_positive() && x != Correct(T::spec_zero())) || (
        !x.0.spec_is_negative() && !x.0.spec_is_positive() && x == Correct(T::spec_zero())),
{
    T::lemma_signed_laws();
}

/// Where `-x` is defined, `x` and `-x` have the same absolute value.
pub proof fn lemma_abs_of_negation<T: SignedNum>(x: Correct<T>)
    requires
        x.neg_req(),
    ensures
        Correct(x.neg_spec().0.spec_abs()) == Correct(x.0.spec_abs()),
{
    T::lemma_signed_laws();
}

} // verus!
