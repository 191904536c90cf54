//! `Correct<T>` wraps a number and gives shifts one portable meaning: a
//! shift by 8 or more yields zero, whatever the width of `T`; a smaller
//! amount shifts as `Num::overflowing_shl` / `Num::overflowing_shr` do. The
//! threshold is 8 for every `T`, also for types wider than a byte. Every other
//! operator is forwarded unchanged to the wrapped value.
use vstd::prelude::*;
use std::ops::{
    Add, AddAssign, BitAnd, BitAndAssign, BitOr, BitOrAssign, BitXor, BitXorAssign, Div,
    DivAssign, Mul, MulAssign, Neg, Rem, RemAssign, Shl, ShlAssign, Shr, ShrAssign, Sub,
    SubAssign,
};
use vstd::std_specs::cmp::PartialEqSpec;
use vstd::std_specs::ops::{
    AddSpec, BitAndSpec, BitOrSpec, BitXorSpec, DivSpec, MulSpec, NegSpec, RemSpec, SubSpec,
};
use crate::num::{Num, ShiftAmount, SignedNum};

verus! {

/// Shift amounts at or above this value give zero.
pub const SHIFT_LIMIT: u8 = 8;

/// A number whose shifts are defined for every amount.
#[derive(Debug, Clone, Copy, Eq)]
pub struct Correct<T: Num>(pub T);

/// The corrected left shift of `x` by `amount`.
pub open spec fn shl_corrected<T: Num>(x: T, amount: int) -> T {
    if amount >= SHIFT_LIMIT {
        T::spec_zero()
    } else {
        x.spec_overflowing_shl(amount as u32)
    }
}

/// The corrected right shift of `x` by `amount`.
pub open spec fn shr_corrected<T: Num>(x: T, amount: int) -> T {
    if amount >= SHIFT_LIMIT {
        T::spec_zero()
    } else {
        x.spec_overflowing_shr(amount as u32)
    }
}

impl<T: Num> Correct<T> {
    /// The wrapped zero of `T`.
    pub fn zero() -> (r: Self)
        ensures
            r == Correct(T::spec_zero()),
    {
        Correct(T::zero())
    }
}

impl<T: SignedNum> Correct<T> {
    /// The absolute value of the wrapped number.
    pub fn abs(self) -> (r: Self)
        ensures
            r == Correct(self.0.spec_abs()),
    {
        Correct(self.0.abs())
    }

    /// Whether the wrapped number is below zero.
    pub fn is_negative(self) -> (r: bool)
        ensures
            r == self.0.spec_is_negative(),
    {
        self.0.is_negative()
    }

    /// Whether the wrapped number is above zero.
    pub fn is_positive(self) -> (r: bool)
        ensures
            r == self.0.spec_is_positive(),
    {
        self.0.is_positive()
    }
}

impl<T: Num> Num for Correct<T> {
    open spec fn spec_zero() -> Self {
        Correct(T::spec_zero())
    }

    open spec fn spec_overflowing_shl(self, rhs: u32) -> Self {
        Correct(shl_corrected(self.0, rhs as int))
    }

    open spec fn spec_overflowing_shr(self, rhs: u32) -> Self {
        Correct(shr_corrected(self.0, rhs as int))
    }

    proof fn lemma_num_laws() {
        T::lemma_num_laws();
    }

    fn zero() -> Self {
        Correct(T::zero())
    }

    fn overflowing_shl(self, rhs: u32) -> Self {
        self << rhs
    }

    fn overflowing_shr(self, rhs: u32) -> Self {
        self >> rhs
    }
}

impl<T: SignedNum> SignedNum for Correct<T> {
    open spec fn spec_abs(self) -> Self {
        Correct(self.0.spec_abs())
    }

    open spec fn spec_is_negative(self) -> bool {
        self.0.spec_is_negative()
    }

    open spec fn spec_is_positive(self) -> bool {
        self.0.spec_is_positive()
    }

    proof fn lemma_signed_laws() {
        T::lemma_signed_laws();
    }

    fn abs(self) -> Self {
        Correct(self.0.abs())
    }

    fn is_negative(self) -> bool {
        self.0.is_negative()
    }

    fn is_positive(self) -> bool {
        self.0.is_positive()
    }
}

impl<T: Num> From<T> for Correct<T> {
    fn from(v: T) -> (r: Self) {
        Correct(v)
    }
}

impl<T: Num> vstd::std_specs::convert::FromSpecImpl<T> for Correct<T> {
    open spec fn obeys_from_spec() -> bool {
        true
    }

    open spec fn from_spec(v: T) -> Self {
        Correct(v)
    }
}

impl<T: Num, R: PartialEq<T>> PartialEq<R> for Correct<T> {
    /// Compares the wrapped number with `other` by `other`'s own `==`.
    fn eq(&self, other: &R) -> (r: bool) {
        other.eq(&self.0)
    }
}

impl<T: Num, R: PartialEq<T>> vstd::std_specs::cmp::PartialEqSpecImpl<R> for Correct<T> {
    open spec fn obeys_eq_spec() -> bool {
        R::obeys_eq_spec()
    }

    open spec fn eq_spec(&self, other: &R) -> bool {
        other.eq_spec(&self.0)
    }
}

impl<T: SignedNum> Neg for Correct<T> {
    type Output = Self;

    fn neg(self) -> (r: Self)
        ensures
            r == Correct(self.0.neg_spec()),
    {
        proof {
            T::lemma_signed_laws();
        }
        Correct(self.0.neg())
    }
}

impl<T: SignedNum> vstd::std_specs::ops::NegSpecImpl for Correct<T> {
    open spec fn obeys_neg_spec() -> bool {
        true
    }

    open spec fn neg_req(self) -> bool {
        self.0.neg_req()
    }

    open spec fn neg_spec(self) -> Self {
        Correct(self.0.neg_spec())
    }
}

impl<T: Num> Add for Correct<T> {
    type Output = Self;

    fn add(self, rhs: Self) -> (r: Self)
        ensures
            r == Correct(self.0.add_spec(rhs.0)),
    {
        proof {
            T::lemma_num_laws();
        }
        Correct(self.0 + rhs.0)
    }
}

impl<T: Num> vstd::std_specs::ops::AddSpecImpl for Correct<T> {
    open spec fn obeys_add_spec() -> bool {
        true
    }

    open spec fn add_req(self, rhs: Self) -> bool {
        self.0.add_req(rhs.0)
    }

    open spec fn add_spec(self, rhs: Self) -> Self {
        Correct(self.0.add_spec(rhs.0))
    }
}

impl<T: Num> AddAssign for Correct<T> {
    fn add_assign(&mut self, rhs: Self)
        requires
            old(self).0.add_req(rhs.0),
        ensures
            *final(self) == Correct(old(self).0.add_spec(rhs.0)),
    {
        proof {
            T::lemma_num_laws();
        }
        self.0 = self.0 + rhs.0;
    }
}

impl<T: Num> Add<T> for Correct<T> {
    type Output = Self;

    fn add(self, rhs: T) -> (r: Self)
        ensures
            r == Correct(self.0.add_spec(rhs)),
    {
        proof {
            T::lemma_num_laws();
        }
        Correct(self.0 + rhs)
    }
}

impl<T: Num> vstd::std_specs::ops::AddSpecImpl<T> for Correct<T> {
    open spec fn obeys_add_spec() -> bool {
        true
    }

    open spec fn add_req(self, rhs: T) -> bool {
        self.0.add_req(rhs)
    }

    open spec fn add_spec(self, rhs: T) -> Self {
        Correct(self.0.add_spec(rhs))
    }
}

impl<T: Num> AddAssign<T> for Correct<T> {
    fn add_assign(&mut self, rhs: T)
        requires
            old(self).0.add_req(rhs),
        ensures
            *final(self) == Correct(old(self).0.add_spec(rhs)),
    {
        proof {
            T::lemma_num_laws();
        }
        self.0 = self.0 + rhs;
    }
}

impl<T: Num> Sub for Correct<T> {
    type Output = Self;

    fn sub(self, rhs: Self) -> (r: Self)
        ensures
            r == Correct(self.0.sub_spec(rhs.0)),
    {
        proof {
            T::lemma_num_laws();
        }
        Correct(self.0 - rhs.0)
    }
}

impl<T: Num> vstd::std_specs::ops::SubSpecImpl for Correct<T> {
    open spec fn obeys_sub_spec() -> bool {
        true
    }

    open spec fn sub_req(self, rhs: Self) -> bool {
        self.0.sub_req(rhs.0)
    }

    open spec fn sub_spec(self, rhs: Self) -> Self {
        Correct(self.0.sub_spec(rhs.0))
    }
}

impl<T: Num> SubAssign for Correct<T> {
    fn sub_assign(&mut self, rhs: Self)
        requires
            old(self).0.sub_req(rhs.0),
        ensures
            *final(self) == Correct(old(self).0.sub_spec(rhs.0)),
    {
        proof {
            T::lemma_num_laws();
        }
        self.0 = self.0 - rhs.0;
    }
}

impl<T: Num> Sub<T> for Correct<T> {
    type Output = Self;

    fn sub(self, rhs: T) -> (r: Self)
        ensures
            r == Correct(self.0.sub_spec(rhs)),
    {
        proof {
            T::lemma_num_laws();
        }
        Correct(self.0 - rhs)
    }
}

impl<T: Num> vstd::std_specs::ops::SubSpecImpl<T> for Correct<T> {
    open spec fn obeys_sub_spec() -> bool {
        true
    }

    open spec fn sub_req(self, rhs: T) -> bool {
        self.0.sub_req(rhs)
    }

    open spec fn sub_spec(self, rhs: T) -> Self {
        Correct(self.0.sub_spec(rhs))
    }
}

impl<T: Num> SubAssign<T> for Correct<T> {
    fn sub_assign(&mut self, rhs: T)
        requires
            old(self).0.sub_req(rhs),
        ensures
            *final(self) == Correct(old(self).0.sub_spec(rhs)),
    {
        proof {
            T::lemma_num_laws();
        }
        self.0 = self.0 - rhs;
    }
}

impl<T: Num> Mul for Correct<T> {
    type Output = Self;

    fn mul(self, rhs: Self) -> (r: Self)
        ensures
            r == Correct(self.0.mul_spec(rhs.0)),
    {
        proof {
            T::lemma_num_laws();
        }
        Correct(self.0 * rhs.0)
    }
}

impl<T: Num> vstd::std_specs::ops::MulSpecImpl for Correct<T> {
    open spec fn obeys_mul_spec() -> bool {
        true
    }

    open spec fn mul_req(self, rhs: Self) -> bool {
        self.0.mul_req(rhs.0)
    }

    open spec fn mul_spec(self, rhs: Self) -> Self {
        Correct(self.0.mul_spec(rhs.0))
    }
}

impl<T: Num> MulAssign for Correct<T> {
    fn mul_assign(&mut self, rhs: Self)
        requires
            old(self).0.mul_req(rhs.0),
        ensures
            *final(self) == Correct(old(self).0.mul_spec(rhs.0)),
    {
        proof {
            T::lemma_num_laws();
        }
        self.0 = self.0 * rhs.0;
    }
}

impl<T: Num> Mul<T> for Correct<T> {
    type Output = Self;

    fn mul(self, rhs: T) -> (r: Self)
        ensures
            r == Correct(self.0.mul_spec(rhs)),
    {
        proof {
            T::lemma_num_laws();
        }
        Correct(self.0 * rhs)
    }
}

impl<T: Num> vstd::std_specs::ops::MulSpecImpl<T> for Correct<T> {
    open spec fn obeys_mul_spec() -> bool {
        true
    }

    open spec fn mul_req(self, rhs: T) -> bool {
        self.0.mul_req(rhs)
    }

    open spec fn mul_spec(self, rhs: T) -> Self {
        Correct(self.0.mul_spec(rhs))
    }
}

impl<T: Num> MulAssign<T> for Correct<T> {
    fn mul_assign(&mut self, rhs: T)
        requires
            old(self).0.mul_req(rhs),
        ensures
            *final(self) == Correct(old(self).0.mul_spec(rhs)),
    {
        proof {
            T::lemma_num_laws();
        }
        self.0 = self.0 * rhs;
    }
}

impl<T: Num> Div for Correct<T> {
    type Output = Self;

    fn div(self, rhs: Self) -> (r: Self)
        ensures
            r == Correct(self.0.div_spec(rhs.0)),
    {
        proof {
            T::lemma_num_laws();
        }
        Correct(self.0 / rhs.0)
    }
}

impl<T: Num> vstd::std_specs::ops::DivSpecImpl for Correct<T> {
    open spec fn obeys_div_spec() -> bool {
        true
    }

    open spec fn div_req(self, rhs: Self) -> bool {
        self.0.div_req(rhs.0)
    }

    open spec fn div_spec(self, rhs: Self) -> Self {
        Correct(self.0.div_spec(rhs.0))
    }
}

impl<T: Num> DivAssign for Correct<T> {
    fn div_assign(&mut self, rhs: Self)
        requires
            old(self).0.div_req(rhs.0),
        ensures
            *final(self) == Correct(old(self).0.div_spec(rhs.0)),
    {
        proof {
            T::lemma_num_laws();
        }
        self.0 = self.0 / rhs.0;
    }
}

impl<T: Num> Div<T> for Correct<T> {
    type Output = Self;

    fn div(self, rhs: T) -> (r: Self)
        ensures
            r == Correct(self.0.div_spec(rhs)),
    {
        proof {
            T::lemma_num_laws();
        }
        Correct(self.0 / rhs)
    }
}

impl<T: Num> vstd::std_specs::ops::DivSpecImpl<T> for Correct<T> {
    open spec fn obeys_div_spec() -> bool {
        true
    }

    open spec fn div_req(self, rhs: T) -> bool {
        self.0.div_req(rhs)
    }

    open spec fn div_spec(self, rhs: T) -> Self {
        Correct(self.0.div_spec(rhs))
    }
}

impl<T: Num> DivAssign<T> for Correct<T> {
    fn div_assign(&mut self, rhs: T)
        requires
            old(self).0.div_req(rhs),
        ensures
            *final(self) == Correct(old(self).0.div_spec(rhs)),
    {
        proof {
            T::lemma_num_laws();
        }
        self.0 = self.0 / rhs;
    }
}

impl<T: Num> Rem for Correct<T> {
    type Output = Self;

    fn rem(self, rhs: Self) -> (r: Self)
        ensures
            r == Correct(self.0.rem_spec(rhs.0)),
    {
        proof {
            T::lemma_num_laws();
        }
        Correct(self.0 % rhs.0)
    }
}

impl<T: Num> vstd::std_specs::ops::RemSpecImpl for Correct<T> {
    open spec fn obeys_rem_spec() -> bool {
        true
    }

    open spec fn rem_req(self, rhs: Self) -> bool {
        self.0.rem_req(rhs.0)
    }

    open spec fn rem_spec(self, rhs: Self) -> Self {
        Correct(self.0.rem_spec(rhs.0))
    }
}

impl<T: Num> RemAssign for Correct<T> {
    fn rem_assign(&mut self, rhs: Self)
        requires
            old(self).0.rem_req(rhs.0),
        ensures
            *final(self) == Correct(old(self).0.rem_spec(rhs.0)),
    {
        proof {
            T::lemma_num_laws();
        }
        self.0 = self.0 % rhs.0;
    }
}

impl<T: Num> Rem<T> for Correct<T> {
    type Output = Self;

    fn rem(self, rhs: T) -> (r: Self)
        ensures
            r == Correct(self.0.rem_spec(rhs)),
    {
        proof {
            T::lemma_num_laws();
        }
        Correct(self.0 % rhs)
    }
}

impl<T: Num> vstd::std_specs::ops::RemSpecImpl<T> for Correct<T> {
    open spec fn obeys_rem_spec() -> bool {
        true
    }

    open spec fn rem_req(self, rhs: T) -> bool {
        self.0.rem_req(rhs)
    }

    open spec fn rem_spec(self, rhs: T) -> Self {
        Correct(self.0.rem_spec(rhs))
    }
}

impl<T: Num> RemAssign<T> for Correct<T> {
    fn rem_assign(&mut self, rhs: T)
        requires
            old(self).0.rem_req(rhs),
        ensures
            *final(self) == Correct(old(self).0.rem_spec(rhs)),
    {
        proof {
            T::lemma_num_laws();
        }
        self.0 = self.0 % rhs;
    }
}

impl<T: Num> BitOr for Correct<T> {
    type Output = Self;

    fn bitor(self, rhs: Self) -> (r: Self)
        ensures
            r == Correct(self.0.bitor_spec(rhs.0)),
    {
        proof {
            T::lemma_num_laws();
        }
        Correct(self.0 | rhs.0)
    }
}

impl<T: Num> vstd::std_specs::ops::BitOrSpecImpl for Correct<T> {
    open spec fn obeys_bitor_spec() -> bool {
        true
    }

    open spec fn bitor_req(self, rhs: Self) -> bool {
        self.0.bitor_req(rhs.0)
    }

    open spec fn bitor_spec(self, rhs: Self) -> Self {
        Correct(self.0.bitor_spec(rhs.0))
    }
}

impl<T: Num> BitOrAssign for Correct<T> {
    fn bitor_assign(&mut self, rhs: Self)
        requires
            old(self).0.bitor_req(rhs.0),
        ensures
            *final(self) == Correct(old(self).0.bitor_spec(rhs.0)),
    {
        proof {
            T::lemma_num_laws();
        }
        self.0 = self.0 | rhs.0;
    }
}

impl<T: Num> BitOr<T> for Correct<T> {
    type Output = Self;

    fn bitor(self, rhs: T) -> (r: Self)
        ensures
            r == Correct(self.0.bitor_spec(rhs)),
    {
        proof {
            T::lemma_num_laws();
        }
        Correct(self.0 | rhs)
    }
}

impl<T: Num> vstd::std_specs::ops::BitOrSpecImpl<T> for Correct<T> {
    open spec fn obeys_bitor_spec() -> bool {
        true
    }

    open spec fn bitor_req(self, rhs: T) -> bool {
        self.0.bitor_req(rhs)
    }

    open spec fn bitor_spec(self, rhs: T) -> Self {
        Correct(self.0.bitor_spec(rhs))
    }
}

impl<T: Num> BitOrAssign<T> for Correct<T> {
    fn bitor_assign(&mut self, rhs: T)
        requires
            old(self).0.bitor_req(rhs),
        ensures
            *final(self) == Correct(old(self).0.bitor_spec(rhs)),
    {
        proof {
            T::lemma_num_laws();
        }
        self.0 = self.0 | rhs;
    }
}

impl<T: Num> BitAnd for Correct<T> {
    type Output = Self;

    fn bitand(self, rhs: Self) -> (r: Self)
        ensures
            r == Correct(self.0.bitand_spec(rhs.0)),
    {
        proof {
            T::lemma_num_laws();
        }
        Correct(self.0 & rhs.0)
    }
}

impl<T: Num> vstd::std_specs::ops::BitAndSpecImpl for Correct<T> {
    open spec fn obeys_bitand_spec() -> bool {
        true
    }

    open spec fn bitand_req(self, rhs: Self) -> bool {
        self.0.bitand_req(rhs.0)
    }

    open spec fn bitand_spec(self, rhs: Self) -> Self {
        Correct(self.0.bitand_spec(rhs.0))
    }
}

impl<T: Num> BitAndAssign for Correct<T> {
    fn bitand_assign(&mut self, rhs: Self)
        requires
            old(self).0.bitand_req(rhs.0),
        ensures
            *final(self) == Correct(old(self).0.bitand_spec(rhs.0)),
    {
        proof {
            T::lemma_num_laws();
        }
        self.0 = self.0 & rhs.0;
    }
}

impl<T: Num> BitAnd<T> for Correct<T> {
    type Output = Self;

    fn bitand(self, rhs: T) -> (r: Self)
        ensures
            r == Correct(self.0.bitand_spec(rhs)),
    {
        proof {
            T::lemma_num_laws();
        }
        Correct(self.0 & rhs)
    }
}

impl<T: Num> vstd::std_specs::ops::BitAndSpecImpl<T> for Correct<T> {
    open spec fn obeys_bitand_spec() -> bool {
        true
    }

    open spec fn bitand_req(self, rhs: T) -> bool {
        self.0.bitand_req(rhs)
    }

    open spec fn bitand_spec(self, rhs: T) -> Self {
        Correct(self.0.bitand_spec(rhs))
    }
}

impl<T: Num> BitAndAssign<T> for Correct<T> {
    fn bitand_assign(&mut self, rhs: T)
        requires
            old(self).0.bitand_req(rhs),
        ensures
            *final(self) == Correct(old(self).0.bitand_spec(rhs)),
    {
        proof {
            T::lemma_num_laws();
        }
        self.0 = self.0 & rhs;
    }
}

impl<T: Num> BitXor for Correct<T> {
    type Output = Self;

    fn bitxor(self, rhs: Self) -> (r: Self)
        ensures
            r == Correct(self.0.bitxor_spec(rhs.0)),
    {
        proof {
            T::lemma_num_laws();
        }
        Correct(self.0 ^ rhs.0)
    }
}

impl<T: Num> vstd::std_specs::ops::BitXorSpecImpl for Correct<T> {
    open spec fn obeys_bitxor_spec() -> bool {
        true
    }

    open spec fn bitxor_req(self, rhs: Self) -> bool {
        self.0.bitxor_req(rhs.0)
    }

    open spec fn bitxor_spec(self, rhs: Self) -> Self {
        Correct(self.0.bitxor_spec(rhs.0))
    }
}

impl<T: Num> BitXorAssign for Correct<T> {
    fn bitxor_assign(&mut self, rhs: Self)
        requires
            old(self).0.bitxor_req(rhs.0),
        ensures
            *final(self) == Correct(old(self).0.bitxor_spec(rhs.0)),
    {
        proof {
            T::lemma_num_laws();
        }
        self.0 = self.0 ^ rhs.0;
    }
}

impl<T: Num> BitXor<T> for Correct<T> {
    type Output = Self;

    fn bitxor(self, rhs: T) -> (r: Self)
        ensures
            r == Correct(self.0.bitxor_spec(rhs)),
    {
        proof {
            T::lemma_num_laws();
        }
        Correct(self.0 ^ rhs)
    }
}

impl<T: Num> vstd::std_specs::ops::BitXorSpecImpl<T> for Correct<T> {
    open spec fn obeys_bitxor_spec() -> bool {
        true
    }

    open spec fn bitxor_req(self, rhs: T) -> bool {
        self.0.bitxor_req(rhs)
    }

    open spec fn bitxor_spec(self, rhs: T) -> Self {
        Correct(self.0.bitxor_spec(rhs))
    }
}

impl<T: Num> BitXorAssign<T> for Correct<T> {
    fn bitxor_assign(&mut self, rhs: T)
        requires
            old(self).0.bitxor_req(rhs),
        ensures
            *final(self) == Correct(old(self).0.bitxor_spec(rhs)),
    {
        proof {
            T::lemma_num_laws();
        }
        self.0 = self.0 ^ rhs;
    }
}

impl<T: Num, R: ShiftAmount> Shl<R> for Correct<T> {
    type Output = Self;

    fn shl(self, rhs: R) -> (r: Self)
        ensures
            r == Correct(shl_corrected(self.0, rhs.amount())),
    {
        if rhs.at_least(SHIFT_LIMIT) {
            Correct(T::zero())
        } else {
            Correct(self.0.overflowing_shl(rhs.to_u32()))
        }
    }
}

impl<T: Num, R: ShiftAmount> vstd::std_specs::ops::ShlSpecImpl<R> for Correct<T> {
    open spec fn obeys_shl_spec() -> bool {
        true
    }

    open spec fn shl_req(self, rhs: R) -> bool {
        true
    }

    open spec fn shl_spec(self, rhs: R) -> Self {
        Correct(shl_corrected(self.0, rhs.amount()))
    }
}

impl<T: Num, R: ShiftAmount> ShlAssign<R> for Correct<T> {
    fn shl_assign(&mut self, rhs: R)
        ensures
            *final(self) == Correct(shl_corrected(old(self).0, rhs.amount())),
    {
        *self = *self << rhs;
    }
}

impl<T: Num, R: ShiftAmount> Shr<R> for Correct<T> {
    type Output = Self;

    fn shr(self, rhs: R) -> (r: Self)
        ensures
            r == Correct(shr_corrected(self.0, rhs.amount())),
    {
        if rhs.at_least(SHIFT_LIMIT) {
            Correct(T::zero())
        } else {
            Correct(self.0.overflowing_shr(rhs.to_u32()))
        }
    }
}

impl<T: Num, R: ShiftAmount> vstd::std_specs::ops::ShrSpecImpl<R> for Correct<T> {
    open spec fn obeys_shr_spec() -> bool {
        true
    }

    open spec fn shr_req(self, rhs: R) -> bool {
        true
    }

    open spec fn shr_spec(self, rhs: R) -> Self {
        Correct(shr_corrected(self.0, rhs.amount()))
    }
}

impl<T: Num, R: ShiftAmount> ShrAssign<R> for Correct<T> {
    fn shr_assign(&mut self, rhs: R)
        ensures
            *final(self) == Correct(shr_corrected(old(self).0, rhs.amount())),
    {
        *self = *self >> rhs;
    }
}

} // verus!
