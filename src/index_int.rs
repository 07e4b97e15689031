//! Checked integer arithmetic shared by every integer range of the crate.
//!
//! Ranges are generic over the primitive integer types; all bound checks and
//! conversions between a range's integer type and `usize` go through
//! [`IndexInt`].
use vstd::prelude::*;

verus! {

/// A primitive integer type usable as the element type of an integer range.
pub trait IndexInt: Copy + Sized {
    /// The mathematical value of the integer.
    spec fn value(&self) -> int;

    /// The least value of the type.
    spec fn min_value() -> int;

    /// The greatest value of the type.
    spec fn max_value() -> int;

    /// The integer of this type whose value is `v`, where `v` is in range.
    spec fn of_value(v: int) -> Self;

    proof fn lemma_of_value(v: int)
        requires
            Self::min_value() <= v <= Self::max_value(),
        ensures
            Self::of_value(v).value() == v,
    ;

    proof fn lemma_bounds(x: Self)
        ensures
            Self::min_value() <= x.value() <= Self::max_value(),
            Self::min_value() <= 0 < Self::max_value(),
    ;

    proof fn lemma_injective(x: Self, y: Self)
        ensures
            x.value() == y.value() ==> x == y,
    ;

    /// Zero.
    fn zero() -> (r: Self)
        ensures
            r.value() == 0,
    ;

    /// `self < other`.
    fn is_less(&self, other: &Self) -> (r: bool)
        ensures
            r == (self.value() < other.value()),
    ;

    /// The value as a `usize`, or `None` if it does not fit.
    fn to_usize(&self) -> (r: Option<usize>)
        ensures
            r is Some <==> 0 <= self.value() <= usize::MAX,
            r matches Some(n) ==> n == self.value(),
    ;

    /// `n` in this type, or `None` if it does not fit.
    fn from_usize(n: usize) -> (r: Option<Self>)
        ensures
            r is Some <==> n <= Self::max_value(),
            r matches Some(x) ==> x.value() == n,
    ;

    /// `self + n`, or `None` on overflow.
    fn checked_add_usize(&self, n: usize) -> (r: Option<Self>)
        ensures
            r is Some <==> self.value() + n <= Self::max_value(),
            r matches Some(x) ==> x.value() == self.value() + n,
    ;

    /// `self - n`, or `None` on overflow.
    fn checked_sub_usize(&self, n: usize) -> (r: Option<Self>)
        ensures
            r is Some <==> Self::min_value() <= self.value() - n,
            r matches Some(x) ==> x.value() == self.value() - n,
    ;

    /// `end - self` as a `usize`, or `None` if it is negative or does not fit.
    fn distance_to(&self, end: &Self) -> (r: Option<usize>)
        ensures
            r is Some <==> 0 <= end.value() - self.value() <= usize::MAX,
            r matches Some(d) ==> d == end.value() - self.value(),
    ;
}

impl IndexInt for u8 {
    open spec fn value(&self) -> int {
        *self as int
    }

    open spec fn min_value() -> int {
        u8::MIN as int
    }

    open spec fn max_value() -> int {
        u8::MAX as int
    }

    open spec fn of_value(v: int) -> Self {
        v as u8
    }

    proof fn lemma_of_value(v: int) {
    }

    proof fn lemma_bounds(x: Self) {
    }

    proof fn lemma_injective(x: Self, y: Self) {
    }

    fn zero() -> (r: Self) {
        0
    }

    fn is_less(&self, other: &Self) -> (r: bool) {
        *self < *other
    }

    fn to_usize(&self) -> (r: Option<usize>) {
        let v = *self as i128;
        if 0 <= v && v <= usize::MAX as i128 {
            Some(v as usize)
        } else {
            None
        }
    }

    fn from_usize(n: usize) -> (r: Option<Self>) {
        if n as i128 <= u8::MAX as i128 {
            Some(n as u8)
        } else {
            None
        }
    }

    fn checked_add_usize(&self, n: usize) -> (r: Option<Self>) {
        let s = *self as i128 + n as i128;
        if s <= u8::MAX as i128 {
            Some(s as u8)
        } else {
            None
        }
    }

    fn checked_sub_usize(&self, n: usize) -> (r: Option<Self>) {
        let s = *self as i128 - n as i128;
        if u8::MIN as i128 <= s {
            Some(s as u8)
        } else {
            None
        }
    }

    fn distance_to(&self, end: &Self) -> (r: Option<usize>) {
        let d = *end as i128 - *self as i128;
        if 0 <= d && d <= usize::MAX as i128 {
            Some(d as usize)
        } else {
            None
        }
    }
}

impl IndexInt for i8 {
    open spec fn value(&self) -> int {
        *self as int
    }

    open spec fn min_value() -> int {
        i8::MIN as int
    }

    open spec fn max_value() -> int {
        i8::MAX as int
    }

    open spec fn of_value(v: int) -> Self {
        v as i8
    }

    proof fn lemma_of_value(v: int) {
    }

    proof fn lemma_bounds(x: Self) {
    }

    proof fn lemma_injective(x: Self, y: Self) {
    }

    fn zero() -> (r: Self) {
        0
    }

    fn is_less(&self, other: &Self) -> (r: bool) {
        *self < *other
    }

    fn to_usize(&self) -> (r: Option<usize>) {
        let v = *self as i128;
        if 0 <= v && v <= usize::MAX as i128 {
            Some(v as usize)
        } else {
            None
        }
    }

    fn from_usize(n: usize) -> (r: Option<Self>) {
        if n as i128 <= i8::MAX as i128 {
            Some(n as i8)
        } else {
            None
        }
    }

    fn checked_add_usize(&self, n: usize) -> (r: Option<Self>) {
        let s = *self as i128 + n as i128;
        if s <= i8::MAX as i128 {
            Some(s as i8)
        } else {
            None
        }
    }

    fn checked_sub_usize(&self, n: usize) -> (r: Option<Self>) {
        let s = *self as i128 - n as i128;
        if i8::MIN as i128 <= s {
            Some(s as i8)
        } else {
            None
        }
    }

    fn distance_to(&self, end: &Self) -> (r: Option<usize>) {
        let d = *end as i128 - *self as i128;
        if 0 <= d && d <= usize::MAX as i128 {
            Some(d as usize)
        } else {
            None
        }
    }
}

impl IndexInt for u16 {
    open spec fn value(&self) -> int {
        *self as int
    }

    open spec fn min_value() -> int {
        u16::MIN as int
    }

    open spec fn max_value() -> int {
        u16::MAX as int
    }

    open spec fn of_value(v: int) -> Self {
        v as u16
    }

    proof fn lemma_of_value(v: int) {
    }

    proof fn lemma_bounds(x: Self) {
    }

    proof fn lemma_injective(x: Self, y: Self) {
    }

    fn zero() -> (r: Self) {
        0
    }

    fn is_less(&self, other: &Self) -> (r: bool) {
        *self < *other
    }

    fn to_usize(&self) -> (r: Option<usize>) {
        let v = *self as i128;
        if 0 <= v && v <= usize::MAX as i128 {
            Some(v as usize)
        } else {
            None
        }
    }

    fn from_usize(n: usize) -> (r: Option<Self>) {
        if n as i128 <= u16::MAX as i128 {
            Some(n as u16)
        } else {
            None
        }
    }

    fn checked_add_usize(&self, n: usize) -> (r: Option<Self>) {
        let s = *self as i128 + n as i128;
        if s <= u16::MAX as i128 {
            Some(s as u16)
        } else {
            None
        }
    }

    fn checked_sub_usize(&self, n: usize) -> (r: Option<Self>) {
        let s = *self as i128 - n as i128;
        if u16::MIN as i128 <= s {
            Some(s as u16)
        } else {
            None
        }
    }

    fn distance_to(&self, end: &Self) -> (r: Option<usize>) {
        let d = *end as i128 - *self as i128;
        if 0 <= d && d <= usize::MAX as i128 {
            Some(d as usize)
        } else {
            None
        }
    }
}

impl IndexInt for i16 {
    open spec fn value(&self) -> int {
        *self as int
    }

    open spec fn min_value() -> int {
        i16::MIN as int
    }

    open spec fn max_value() -> int {
        i16::MAX as int
    }

    open spec fn of_value(v: int) -> Self {
        v as i16
    }

    proof fn lemma_of_value(v: int) {
    }

    proof fn lemma_bounds(x: Self) {
    }

    proof fn lemma_injective(x: Self, y: Self) {
    }

    fn zero() -> (r: Self) {
        0
    }

    fn is_less(&self, other: &Self) -> (r: bool) {
        *self < *other
    }

    fn to_usize(&self) -> (r: Option<usize>) {
        let v = *self as i128;
        if 0 <= v && v <= usize::MAX as i128 {
            Some(v as usize)
        } else {
            None
        }
    }

    fn from_usize(n: usize) -> (r: Option<Self>) {
        if n as i128 <= i16::MAX as i128 {
            Some(n as i16)
        } else {
            None
        }
    }

    fn checked_add_usize(&self, n: usize) -> (r: Option<Self>) {
        let s = *self as i128 + n as i128;
        if s <= i16::MAX as i128 {
            Some(s as i16)
        } else {
            None
        }
    }

    fn checked_sub_usize(&self, n: usize) -> (r: Option<Self>) {
        let s = *self as i128 - n as i128;
        if i16::MIN as i128 <= s {
            Some(s as i16)
        } else {
            None
        }
    }

    fn distance_to(&self, end: &Self) -> (r: Option<usize>) {
        let d = *end as i128 - *self as i128;
        if 0 <= d && d <= usize::MAX as i128 {
            Some(d as usize)
        } else {
            None
        }
    }
}

impl IndexInt for u32 {
    open spec fn value(&self) -> int {
        *self as int
    }

    open spec fn min_value() -> int {
        u32::MIN as int
    }

    open spec fn max_value() -> int {
        u32::MAX as int
    }

    open spec fn of_value(v: int) -> Self {
        v as u32
    }

    proof fn lemma_of_value(v: int) {
    }

    proof fn lemma_bounds(x: Self) {
    }

    proof fn lemma_injective(x: Self, y: Self) {
    }

    fn zero() -> (r: Self) {
        0
    }

    fn is_less(&self, other: &Self) -> (r: bool) {
        *self < *other
    }

    fn to_usize(&self) -> (r: Option<usize>) {
        let v = *self as i128;
        if 0 <= v && v <= usize::MAX as i128 {
            Some(v as usize)
        } else {
            None
        }
    }

    fn from_usize(n: usize) -> (r: Option<Self>) {
        if n as i128 <= u32::MAX as i128 {
            Some(n as u32)
        } else {
            None
        }
    }

    fn checked_add_usize(&self, n: usize) -> (r: Option<Self>) {
        let s = *self as i128 + n as i128;
        if s <= u32::MAX as i128 {
            Some(s as u32)
        } else {
            None
        }
    }

    fn checked_sub_usize(&self, n: usize) -> (r: Option<Self>) {
        let s = *self as i128 - n as i128;
        if u32::MIN as i128 <= s {
            Some(s as u32)
        } else {
            None
        }
    }

    fn distance_to(&self, end: &Self) -> (r: Option<usize>) {
        let d = *end as i128 - *self as i128;
        if 0 <= d && d <= usize::MAX as i128 {
            Some(d as usize)
        } else {
            None
        }
    }
}

impl IndexInt for i32 {
    open spec fn value(&self) -> int {
        *self as int
    }

    open spec fn min_value() -> int {
        i32::MIN as int
    }

    open spec fn max_value() -> int {
        i32::MAX as int
    }

    open spec fn of_value(v: int) -> Self {
        v as i32
    }

    proof fn lemma_of_value(v: int) {
    }

    proof fn lemma_bounds(x: Self) {
    }

    proof fn lemma_injective(x: Self, y: Self) {
    }

    fn zero() -> (r: Self) {
        0
    }

    fn is_less(&self, other: &Self) -> (r: bool) {
        *self < *other
    }

    fn to_usize(&self) -> (r: Option<usize>) {
        let v = *self as i128;
        if 0 <= v && v <= usize::MAX as i128 {
            Some(v as usize)
        } else {
            None
        }
    }

    fn from_usize(n: usize) -> (r: Option<Self>) {
        if n as i128 <= i32::MAX as i128 {
            Some(n as i32)
        } else {
            None
        }
    }

    fn checked_add_usize(&self, n: usize) -> (r: Option<Self>) {
        let s = *self as i128 + n as i128;
        if s <= i32::MAX as i128 {
            Some(s as i32)
        } else {
            None
        }
    }

    fn checked_sub_usize(&self, n: usize) -> (r: Option<Self>) {
        let s = *self as i128 - n as i128;
        if i32::MIN as i128 <= s {
            Some(s as i32)
        } else {
            None
        }
    }

    fn distance_to(&self, end: &Self) -> (r: Option<usize>) {
        let d = *end as i128 - *self as i128;
        if 0 <= d && d <= usize::MAX as i128 {
            Some(d as usize)
        } else {
            None
        }
    }
}

impl IndexInt for u64 {
    open spec fn value(&self) -> int {
        *self as int
    }

    open spec fn min_value() -> int {
        u64::MIN as int
    }

    open spec fn max_value() -> int {
        u64::MAX as int
    }

    open spec fn of_value(v: int) -> Self {
        v as u64
    }

    proof fn lemma_of_value(v: int) {
    }

    proof fn lemma_bounds(x: Self) {
    }

    proof fn lemma_injective(x: Self, y: Self) {
    }

    fn zero() -> (r: Self) {
        0
    }

    fn is_less(&self, other: &Self) -> (r: bool) {
        *self < *other
    }

    fn to_usize(&self) -> (r: Option<usize>) {
        let v = *self as i128;
        if 0 <= v && v <= usize::MAX as i128 {
            Some(v as usize)
        } else {
            None
        }
    }

    fn from_usize(n: usize) -> (r: Option<Self>) {
        if n as i128 <= u64::MAX as i128 {
            Some(n as u64)
        } else {
            None
        }
    }

    fn checked_add_usize(&self, n: usize) -> (r: Option<Self>) {
        let s = *self as i128 + n as i128;
        if s <= u64::MAX as i128 {
            Some(s as u64)
        } else {
            None
        }
    }

    fn checked_sub_usize(&self, n: usize) -> (r: Option<Self>) {
        let s = *self as i128 - n as i128;
        if u64::MIN as i128 <= s {
            Some(s as u64)
        } else {
            None
        }
    }

    fn distance_to(&self, end: &Self) -> (r: Option<usize>) {
        let d = *end as i128 - *self as i128;
        if 0 <= d && d <= usize::MAX as i128 {
            Some(d as usize)
        } else {
            None
        }
    }
}

impl IndexInt for i64 {
    open spec fn value(&self) -> int {
        *self as int
    }

    open spec fn min_value() -> int {
        i64::MIN as int
    }

    open spec fn max_value() -> int {
        i64::MAX as int
    }

    open spec fn of_value(v: int) -> Self {
        v as i64
    }

    proof fn lemma_of_value(v: int) {
    }

    proof fn lemma_bounds(x: Self) {
    }

    proof fn lemma_injective(x: Self, y: Self) {
    }

    fn zero() -> (r: Self) {
        0
    }

    fn is_less(&self, other: &Self) -> (r: bool) {
        *self < *other
    }

    fn to_usize(&self) -> (r: Option<usize>) {
        let v = *self as i128;
        if 0 <= v && v <= usize::MAX as i128 {
            Some(v as usize)
        } else {
            None
        }
    }

    fn from_usize(n: usize) -> (r: Option<Self>) {
        if n as i128 <= i64::MAX as i128 {
            Some(n as i64)
        } else {
            None
        }
    }

    fn checked_add_usize(&self, n: usize) -> (r: Option<Self>) {
        let s = *self as i128 + n as i128;
        if s <= i64::MAX as i128 {
            Some(s as i64)
        } else {
            None
        }
    }

    fn checked_sub_usize(&self, n: usize) -> (r: Option<Self>) {
        let s = *self as i128 - n as i128;
        if i64::MIN as i128 <= s {
            Some(s as i64)
        } else {
            None
        }
    }

    fn distance_to(&self, end: &Self) -> (r: Option<usize>) {
        let d = *end as i128 - *self as i128;
        if 0 <= d && d <= usize::MAX as i128 {
            Some(d as usize)
        } else {
            None
        }
    }
}

impl IndexInt for usize {
    open spec fn value(&self) -> int {
        *self as int
    }

    open spec fn min_value() -> int {
        usize::MIN as int
    }

    open spec fn max_value() -> int {
        usize::MAX as int
    }

    open spec fn of_value(v: int) -> Self {
        v as usize
    }

    proof fn lemma_of_value(v: int) {
    }

    proof fn lemma_bounds(x: Self) {
    }

    proof fn lemma_injective(x: Self, y: Self) {
    }

    fn zero() -> (r: Self) {
        0
    }

    fn is_less(&self, other: &Self) -> (r: bool) {
        *self < *other
    }

    fn to_usize(&self) -> (r: Option<usize>) {
        let v = *self as i128;
        if 0 <= v && v <= usize::MAX as i128 {
            Some(v as usize)
        } else {
            None
        }
    }

    fn from_usize(n: usize) -> (r: Option<Self>) {
        if n as i128 <= usize::MAX as i128 {
            Some(n as usize)
        } else {
            None
        }
    }

    fn checked_add_usize(&self, n: usize) -> (r: Option<Self>) {
        let s = *self as i128 + n as i128;
        if s <= usize::MAX as i128 {
            Some(s as usize)
        } else {
            None
        }
    }

    fn checked_sub_usize(&self, n: usize) -> (r: Option<Self>) {
        let s = *self as i128 - n as i128;
        if usize::MIN as i128 <= s {
            Some(s as usize)
        } else {
            None
        }
    }

    fn distance_to(&self, end: &Self) -> (r: Option<usize>) {
        let d = *end as i128 - *self as i128;
        if 0 <= d && d <= usize::MAX as i128 {
            Some(d as usize)
        } else {
            None
        }
    }
}

impl IndexInt for isize {
    open spec fn value(&self) -> int {
        *self as int
    }

    open spec fn min_value() -> int {
        isize::MIN as int
    }

    open spec fn max_value() -> int {
        isize::MAX as int
    }

    open spec fn of_value(v: int) -> Self {
        v as isize
    }

    proof fn lemma_of_value(v: int) {
    }

    proof fn lemma_bounds(x: Self) {
    }

    proof fn lemma_injective(x: Self, y: Self) {
    }

    fn zero() -> (r: Self) {
        0
    }

    fn is_less(&self, other: &Self) -> (r: bool) {
        *self < *other
    }

    fn to_usize(&self) -> (r: Option<usize>) {
        let v = *self as i128;
        if 0 <= v && v <= usize::MAX as i128 {
            Some(v as usize)
        } else {
            None
        }
    }

    fn from_usize(n: usize) -> (r: Option<Self>) {
        if n as i128 <= isize::MAX as i128 {
            Some(n as isize)
        } else {
            None
        }
    }

    fn checked_add_usize(&self, n: usize) -> (r: Option<Self>) {
        let s = *self as i128 + n as i128;
        if s <= isize::MAX as i128 {
            Some(s as isize)
        } else {
            None
        }
    }

    fn checked_sub_usize(&self, n: usize) -> (r: Option<Self>) {
        let s = *self as i128 - n as i128;
        if isize::MIN as i128 <= s {
            Some(s as isize)
        } else {
            None
        }
    }

    fn distance_to(&self, end: &Self) -> (r: Option<usize>) {
        let d = *end as i128 - *self as i128;
        if 0 <= d && d <= usize::MAX as i128 {
            Some(d as usize)
        } else {
            None
        }
    }
}

impl IndexInt for u128 {
    open spec fn value(&self) -> int {
        *self as int
    }

    open spec fn min_value() -> int {
        u128::MIN as int
    }

    open spec fn max_value() -> int {
        u128::MAX as int
    }

    open spec fn of_value(v: int) -> Self {
        v as u128
    }

    proof fn lemma_of_value(v: int) {
    }

    proof fn lemma_bounds(x: Self) {
    }

    proof fn lemma_injective(x: Self, y: Self) {
    }

    fn zero() -> (r: Self) {
        0
    }

    fn is_less(&self, other: &Self) -> (r: bool) {
        *self < *other
    }

    fn to_usize(&self) -> (r: Option<usize>) {
        if *self <= usize::MAX as u128 {
            Some(*self as usize)
        } else {
            None
        }
    }

    fn from_usize(n: usize) -> (r: Option<Self>) {
        Some(n as u128)
    }

    fn checked_add_usize(&self, n: usize) -> (r: Option<Self>) {
        if *self <= u128::MAX - n as u128 {
            Some(*self + n as u128)
        } else {
            None
        }
    }

    fn checked_sub_usize(&self, n: usize) -> (r: Option<Self>) {
        if *self >= n as u128 {
            Some(*self - n as u128)
        } else {
            None
        }
    }

    fn distance_to(&self, end: &Self) -> (r: Option<usize>) {
        if *self <= *end && *end - *self <= usize::MAX as u128 {
            Some((*end - *self) as usize)
        } else {
            None
        }
    }
}

impl IndexInt for i128 {
    open spec fn value(&self) -> int {
        *self as int
    }

    open spec fn min_value() -> int {
        i128::MIN as int
    }

    open spec fn max_value() -> int {
        i128::MAX as int
    }

    open spec fn of_value(v: int) -> Self {
        v as i128
    }

    proof fn lemma_of_value(v: int) {
    }

    proof fn lemma_bounds(x: Self) {
    }

    proof fn lemma_injective(x: Self, y: Self) {
    }

    fn zero() -> (r: Self) {
        0
    }

    fn is_less(&self, other: &Self) -> (r: bool) {
        *self < *other
    }

    fn to_usize(&self) -> (r: Option<usize>) {
        if 0 <= *self && *self <= usize::MAX as i128 {
            Some(*self as usize)
        } else {
            None
        }
    }

    fn from_usize(n: usize) -> (r: Option<Self>) {
        Some(n as i128)
    }

    fn checked_add_usize(&self, n: usize) -> (r: Option<Self>) {
        if *self <= i128::MAX - n as i128 {
            Some(*self + n as i128)
        } else {
            None
        }
    }

    fn checked_sub_usize(&self, n: usize) -> (r: Option<Self>) {
        if *self >= i128::MIN + n as i128 {
            Some(*self - n as i128)
        } else {
            None
        }
    }

    fn distance_to(&self, end: &Self) -> (r: Option<usize>) {
        if *end < *self {
            None
        } else if *self >= 0 {
            let d = *end - *self;
            if d <= usize::MAX as i128 {
                Some(d as usize)
            } else {
                None
            }
        } else if *end <= *self + usize::MAX as i128 {
            Some((*end - *self) as usize)
        } else {
            None
        }
    }
}

} // verus!
