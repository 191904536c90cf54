//! The capability set shared by every fixed-width integer type.
//!
//! `Num` exposes the native arithmetic, bitwise and shift operators of a type
//! through std's operator traits (whose meaning on the primitive integers is
//! given by vstd), plus a zero and a shift primitive that takes the amount
//! modulo the bit width. `SignedNum` adds negation and the sign operations.
use vstd::prelude::*;
use std::ops::{Add, BitAnd, BitOr, BitXor, Div, Mul, Neg, Rem, Shl, Shr, Sub};
use vstd::std_specs::cmp::PartialEqSpec;
use vstd::std_specs::ops::{
    AddSpec, BitAndSpec, BitOrSpec, BitXorSpec, DivSpec, MulSpec, NegSpec, RemSpec, SubSpec,
};

verus! {

/// A fixed-width integer type: arithmetic, bitwise operators and shifts by any
/// of the eight standard shift-amount types, with the type's native behaviour.
pub trait Num:
    Copy
    + Send
    + Sync
    + Eq
    + Add<Output = Self>
    + Sub<Output = Self>
    + Mul<Output = Self>
    + Div<Output = Self>
    + Rem<Output = Self>
    + BitOr<Output = Self>
    + BitAnd<Output = Self>
    + BitXor<Output = Self>
    + Shl<usize, Output = Self>
    + Shr<usize, Output = Self>
    + Shl<u32, Output = Self>
    + Shr<u32, Output = Self>
    + Shl<u64, Output = Self>
    + Shr<u64, Output = Self>
    + Shl<u128, Output = Self>
    + Shr<u128, Output = Self>
    + Shl<isize, Output = Self>
    + Shr<isize, Output = Self>
    + Shl<i32, Output = Self>
    + Shr<i32, Output = Self>
    + Shl<i64, Output = Self>
    + Shr<i64, Output = Self>
    + Shl<i128, Output = Self>
    + Shr<i128, Output = Self>
    + Sized
{
    /// The additive identity.
    spec fn spec_zero() -> Self;

    /// Left shift by `rhs` taken modulo the bit width.
    spec fn spec_overflowing_shl(self, rhs: u32) -> Self;

    /// Right shift by `rhs` taken modulo the bit width.
    spec fn spec_overflowing_shr(self, rhs: u32) -> Self;

    /// The operators of the type follow their specifications, `==` is
    /// equality of values, and zero is an identity of `+`.
    proof fn lemma_num_laws()
        ensures
            Self::obeys_add_spec(),
            Self::obeys_sub_spec(),
            Self::obeys_mul_spec(),
            Self::obeys_div_spec(),
            Self::obeys_rem_spec(),
            Self::obeys_bitor_spec(),
            Self::obeys_bitand_spec(),
            Self::obeys_bitxor_spec(),
            Self::obeys_eq_spec(),
            forall|x: Self, y: Self| #[trigger] x.eq_spec(&y) <==> x == y,
            forall|x: Self|
                #[trigger] x.add_req(Self::spec_zero()) && x.add_spec(Self::spec_zero()) == x,
    ;

    fn zero() -> (r: Self)
        ensures
            r == Self::spec_zero(),
    ;

    fn overflowing_shl(self, rhs: u32) -> (r: Self)
        ensures
            r == self.spec_overflowing_shl(rhs),
    ;

    fn overflowing_shr(self, rhs: u32) -> (r: Self)
        ensures
            r == self.spec_overflowing_shr(rhs),
    ;
}

/// The sign operations of a signed fixed-width integer type.
pub trait SignedNum: Num + Neg<Output = Self> {
    /// The magnitude; the minimum value, whose magnitude does not fit, is its
    /// own absolute value (two's-complement wraparound).
    spec fn spec_abs(self) -> Self;

    spec fn spec_is_negative(self) -> bool;

    spec fn spec_is_positive(self) -> bool;

    /// Negation follows its specification, each value is exactly one of
    /// negative, positive or zero, and a value and its negation share their
    /// absolute value.
    proof fn lemma_signed_laws()
        ensures
            Self::obeys_neg_spec(),
            forall|x: Self|
                #![trigger x.spec_is_negative()]
                #![trigger x.spec_is_positive()]
                (x.spec_is_negative() && !x.spec_is_positive() && x != Self::spec_zero()) || (
                !x.spec_is_negative() && x.spec_is_positive() && x != Self::spec_zero()) || (
                !x.spec_is_negative() && !x.spec_is_positive() && x == Self::spec_zero()),
            forall|x: Self| #[trigger] x.neg_req() ==> x.neg_spec().spec_abs() == x.spec_abs(),
    ;

    fn abs(self) -> (r: Self)
        ensures
            r == self.spec_abs(),
    ;

    fn is_negative(self) -> (r: bool)
        ensures
            r == self.spec_is_negative(),
    ;

    fn is_positive(self) -> (r: bool)
        ensures
            r == self.spec_is_positive(),
    ;
}

/// An integer used as a shift amount.
pub trait ShiftAmount: Copy {
    /// The amount as a mathematical integer.
    spec fn amount(self) -> int;

    fn at_least(self, bound: u8) -> (r: bool)
        ensures
            r == (self.amount() >= bound),
    ;

    /// The amount as a `u32`, truncated as by `as u32`.
    fn to_u32(self) -> (r: u32)
        ensures
            r == self.amount() as u32,
    ;
}

impl Num for u8 {
    open spec fn spec_zero() -> u8 {
        0
    }

    open spec fn spec_overflowing_shl(self, rhs: u32) -> u8 {
        self << (rhs % 8)
    }

    open spec fn spec_overflowing_shr(self, rhs: u32) -> u8 {
        self >> (rhs % 8)
    }

    proof fn lemma_num_laws() {
    }

    fn zero() -> u8 {
        0
    }

    fn overflowing_shl(self, rhs: u32) -> u8 {
        self.wrapping_shl(rhs)
    }

    fn overflowing_shr(self, rhs: u32) -> u8 {
        self.wrapping_shr(rhs)
    }
}

impl Num for u16 {
    open spec fn spec_zero() -> u16 {
        0
    }

    open spec fn spec_overflowing_shl(self, rhs: u32) -> u16 {
        self << (rhs % 16)
    }

    open spec fn spec_overflowing_shr(self, rhs: u32) -> u16 {
        self >> (rhs % 16)
    }

    proof fn lemma_num_laws() {
    }

    fn zero() -> u16 {
        0
    }

    fn overflowing_shl(self, rhs: u32) -> u16 {
        self.wrapping_shl(rhs)
    }

    fn overflowing_shr(self, rhs: u32) -> u16 {
        self.wrapping_shr(rhs)
    }
}

impl Num for u32 {
    open spec fn spec_zero() -> u32 {
        0
    }

    open spec fn spec_overflowing_shl(self, rhs: u32) -> u32 {
        self << (rhs % 32)
    }

    open spec fn spec_overflowing_shr(self, rhs: u32) -> u32 {
        self >> (rhs % 32)
    }

    proof fn lemma_num_laws() {
    }

    fn zero() -> u32 {
        0
    }

    fn overflowing_shl(self, rhs: u32) -> u32 {
        self.wrapping_shl(rhs)
    }

    fn overflowing_shr(self, rhs: u32) -> u32 {
        self.wrapping_shr(rhs)
    }
}

impl Num for u64 {
    open spec fn spec_zero() -> u64 {
        0
    }

    open spec fn spec_overflowing_shl(self, rhs: u32) -> u64 {
        self << (rhs % 64)
    }

    open spec fn spec_overflowing_shr(self, rhs: u32) -> u64 {
        self >> (rhs % 64)
    }

    proof fn lemma_num_laws() {
    }

    fn zero() -> u64 {
        0
    }

    fn overflowing_shl(self, rhs: u32) -> u64 {
        self.wrapping_shl(rhs)
    }

    fn overflowing_shr(self, rhs: u32) -> u64 {
        self.wrapping_shr(rhs)
    }
}

impl Num for u128 {
    open spec fn spec_zero() -> u128 {
        0
    }

    open spec fn spec_overflowing_shl(self, rhs: u32) -> u128 {
        self << (rhs % 128)
    }

    open spec fn spec_overflowing_shr(self, rhs: u32) -> u128 {
        self >> (rhs % 128)
    }

    proof fn lemma_num_laws() {
    }

    fn zero() -> u128 {
        0
    }

    fn overflowing_shl(self, rhs: u32) -> u128 {
        self.wrapping_shl(rhs)
    }

    fn overflowing_shr(self, rhs: u32) -> u128 {
        self.wrapping_shr(rhs)
    }
}

impl Num for usize {
    open spec fn spec_zero() -> usize {
        0
    }

    open spec fn spec_overflowing_shl(self, rhs: u32) -> usize {
        self << (rhs % usize::BITS)
    }

    open spec fn spec_overflowing_shr(self, rhs: u32) -> usize {
        self >> (rhs % usize::BITS)
    }

    proof fn lemma_num_laws() {
    }

    fn zero() -> usize {
        0
    }

    fn overflowing_shl(self, rhs: u32) -> usize {
        self.wrapping_shl(rhs)
    }

    fn overflowing_shr(self, rhs: u32) -> usize {
        self.wrapping_shr(rhs)
    }
}

impl Num for i8 {
    open spec fn spec_zero() -> i8 {
        0
    }

    open spec fn spec_overflowing_shl(self, rhs: u32) -> i8 {
        self << (rhs % 8)
    }

    open spec fn spec_overflowing_shr(self, rhs: u32) -> i8 {
        self >> (rhs % 8)
    }

    proof fn lemma_num_laws() {
    }

    fn zero() -> i8 {
        0
    }

    fn overflowing_shl(self, rhs: u32) -> i8 {
        self.wrapping_shl(rhs)
    }

    fn overflowing_shr(self, rhs: u32) -> i8 {
        self.wrapping_shr(rhs)
    }
}

impl Num for i16 {
    open spec fn spec_zero() -> i16 {
        0
    }

    open spec fn spec_overflowing_shl(self, rhs: u32) -> i16 {
        self << (rhs % 16)
    }

    open spec fn spec_overflowing_shr(self, rhs: u32) -> i16 {
        self >> (rhs % 16)
    }

    proof fn lemma_num_laws() {
    }

    fn zero() -> i16 {
        0
    }

    fn overflowing_shl(self, rhs: u32) -> i16 {
        self.wrapping_shl(rhs)
    }

    fn overflowing_shr(self, rhs: u32) -> i16 {
        self.wrapping_shr(rhs)
    }
}

impl Num for i32 {
    open spec fn spec_zero() -> i32 {
        0
    }

    open spec fn spec_overflowing_shl(self, rhs: u32) -> i32 {
        self << (rhs % 32)
    }

    open spec fn spec_overflowing_shr(self, rhs: u32) -> i32 {
        self >> (rhs % 32)
    }

    proof fn lemma_num_laws() {
    }

    fn zero() -> i32 {
        0
    }

    fn overflowing_shl(self, rhs: u32) -> i32 {
        self.wrapping_shl(rhs)
    }

    fn overflowing_shr(self, rhs: u32) -> i32 {
        self.wrapping_shr(rhs)
    }
}

impl Num for i64 {
    open spec fn spec_zero() -> i64 {
        0
    }

    open spec fn spec_overflowing_shl(self, rhs: u32) -> i64 {
        self << (rhs % 64)
    }

    open spec fn spec_overflowing_shr(self, rhs: u32) -> i64 {
        self >> (rhs % 64)
    }

    proof fn lemma_num_laws() {
    }

    fn zero() -> i64 {
        0
    }

    fn overflowing_shl(self, rhs: u32) -> i64 {
        self.wrapping_shl(rhs)
    }

    fn overflowing_shr(self, rhs: u32) -> i64 {
        self.wrapping_shr(rhs)
    }
}

impl Num for i128 {
    open spec fn spec_zero() -> i128 {
        0
    }

    open spec fn spec_overflowing_shl(self, rhs: u32) -> i128 {
        self << (rhs % 128)
    }

    open spec fn spec_overflowing_shr(self, rhs: u32) -> i128 {
        self >> (rhs % 128)
    }

    proof fn lemma_num_laws() {
    }

    fn zero() -> i128 {
        0
    }

    fn overflowing_shl(self, rhs: u32) -> i128 {
        self.wrapping_shl(rhs)
    }

    fn overflowing_shr(self, rhs: u32) -> i128 {
        self.wrapping_shr(rhs)
    }
}

impl Num for isize {
    open spec fn spec_zero() -> isize {
        0
    }

    open spec fn spec_overflowing_shl(self, rhs: u32) -> isize {
        self << (rhs % isize::BITS)
    }

    open spec fn spec_overflowing_shr(self, rhs: u32) -> isize {
        self >> (rhs % isize::BITS)
    }

    proof fn lemma_num_laws() {
    }

    fn zero() -> isize {
        0
    }

    fn overflowing_shl(self, rhs: u32) -> isize {
        self.wrapping_shl(rhs)
    }

    fn overflowing_shr(self, rhs: u32) -> isize {
        self.wrapping_shr(rhs)
    }
}

impl SignedNum for i8 {
    open spec fn spec_abs(self) -> i8 {
        if self == i8::MIN {
            self
        } else if self < 0 {
            (-self) as i8
        } else {
            self
        }
    }

    open spec fn spec_is_negative(self) -> bool {
        self < 0
    }

    open spec fn spec_is_positive(self) -> bool {
        self > 0
    }

    proof fn lemma_signed_laws() {
    }

    fn abs(self) -> i8 {
        if self == i8::MIN {
            self
        } else if self < 0 {
            -self
        } else {
            self
        }
    }

    fn is_negative(self) -> bool {
        self < 0
    }

    fn is_positive(self) -> bool {
        self > 0
    }
}

impl SignedNum for i16 {
    open spec fn spec_abs(self) -> i16 {
        if self == i16::MIN {
            self
        } else if self < 0 {
            (-self) as i16
        } else {
            self
        }
    }

    open spec fn spec_is_negative(self) -> bool {
        self < 0
    }

    open spec fn spec_is_positive(self) -> bool {
        self > 0
    }

    proof fn lemma_signed_laws() {
    }

    fn abs(self) -> i16 {
        if self == i16::MIN {
            self
        } else if self < 0 {
            -self
        } else {
            self
        }
    }

    fn is_negative(self) -> bool {
        self < 0
    }

    fn is_positive(self) -> bool {
        self > 0
    }
}

impl SignedNum for i32 {
    open spec fn spec_abs(self) -> i32 {
        if self == i32::MIN {
            self
        } else if self < 0 {
            (-self) as i32
        } else {
            self
        }
    }

    open spec fn spec_is_negative(self) -> bool {
        self < 0
    }

    open spec fn spec_is_positive(self) -> bool {
        self > 0
    }

    proof fn lemma_signed_laws() {
    }

    fn abs(self) -> i32 {
        if self == i32::MIN {
            self
        } else if self < 0 {
            -self
        } else {
            self
        }
    }

    fn is_negative(self) -> bool {
        self < 0
    }

    fn is_positive(self) -> bool {
        self > 0
    }
}

impl SignedNum for i64 {
    open spec fn spec_abs(self) -> i64 {
        if self == i64::MIN {
            self
        } else if self < 0 {
            (-self) as i64
        } else {
            self
        }
    }

    open spec fn spec_is_negative(self) -> bool {
        self < 0
    }

    open spec fn spec_is_positive(self) -> bool {
        self > 0
    }

    proof fn lemma_signed_laws() {
    }

    fn abs(self) -> i64 {
        if self == i64::MIN {
            self
        } else if self < 0 {
            -self
        } else {
            self
        }
    }

    fn is_negative(self) -> bool {
        self < 0
    }

    fn is_positive(self) -> bool {
        self > 0
    }
}

impl SignedNum for i128 {
    open spec fn spec_abs(self) -> i128 {
        if self == i128::MIN {
            self
        } else if self < 0 {
            (-self) as i128
        } else {
            self
        }
    }

    open spec fn spec_is_negative(self) -> bool {
        self < 0
    }

    open spec fn spec_is_positive(self) -> bool {
        self > 0
    }

    proof fn lemma_signed_laws() {
    }

    fn abs(self) -> i128 {
        if self == i128::MIN {
            self
        } else if self < 0 {
            -self
        } else {
            self
        }
    }

    fn is_negative(self) -> bool {
        self < 0
    }

    fn is_positive(self) -> bool {
        self > 0
    }
}

impl SignedNum for isize {
    open spec fn spec_abs(self) -> isize {
        if self == isize::MIN {
            self
        } else if self < 0 {
            (-self) as isize
        } else {
            self
        }
    }

    open spec fn spec_is_negative(self) -> bool {
        self < 0
    }

    open spec fn spec_is_positive(self) -> bool {
        self > 0
    }

    proof fn lemma_signed_laws() {
    }

    fn abs(self) -> isize {
        if self == isize::MIN {
            self
        } else if self < 0 {
            -self
        } else {
            self
        }
    }

    fn is_negative(self) -> bool {
        self < 0
    }

    fn is_positive(self) -> bool {
        self > 0
    }
}

impl ShiftAmount for usize {
    open spec fn amount(self) -> int {
        self as int
    }

    fn at_least(self, bound: u8) -> bool {
        self >= bound as usize
    }

    fn to_u32(self) -> u32 {
        self as u32
    }
}

impl ShiftAmount for u32 {
    open spec fn amount(self) -> int {
        self as int
    }

    fn at_least(self, bound: u8) -> bool {
        self >= bound as u32
    }

    fn to_u32(self) -> u32 {
        self as u32
    }
}

impl ShiftAmount for u64 {
    open spec fn amount(self) -> int {
        self as int
    }

    fn at_least(self, bound: u8) -> bool {
        self >= bound as u64
    }

    fn to_u32(self) -> u32 {
        self as u32
    }
}

impl ShiftAmount for u128 {
    open spec fn amount(self) -> int {
        self as int
    }

    fn at_least(self, bound: u8) -> bool {
        self >= bound as u128
    }

    fn to_u32(self) -> u32 {
        self as u32
    }
}

impl ShiftAmount for isize {
    open spec fn amount(self) -> int {
        self as int
    }

    fn at_least(self, bound: u8) -> bool {
        self >= bound as isize
    }

    fn to_u32(self) -> u32 {
        self as u32
    }
}

impl ShiftAmount for i32 {
    open spec fn amount(self) -> int {
        self as int
    }

    fn at_least(self, bound: u8) -> bool {
        self >= bound as i32
    }

    fn to_u32(self) -> u32 {
        self as u32
    }
}

impl ShiftAmount for i64 {
    open spec fn amount(self) -> int {
        self as int
    }

    fn at_least(self, bound: u8) -> bool {
        self >= bound as i64
    }

    fn to_u32(self) -> u32 {
        self as u32
    }
}

impl ShiftAmount for i128 {
    open spec fn amount(self) -> int {
        self as int
    }

    fn at_least(self, bound: u8) -> bool {
        self >= bound as i128
    }

    fn to_u32(self) -> u32 {
        self as u32
    }
}

} // verus!
