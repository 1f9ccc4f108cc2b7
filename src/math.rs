//! Overflow- and zero-checked arithmetic. A fault is returned as a value so
//! that the caller reports it through the abort hostcall and stops.
use vstd::prelude::*;
use vstd::math::abs;

verus! {

/// An arithmetic operation that has no result in its type.
#[derive(Clone, Copy, Debug, PartialEq, Eq, Structural)]
pub enum ArithmeticFault {
    AddOverflow,
    SubOverflow,
    MulOverflow,
    DivideByZero,
    DivideOverflow,
}

pub open spec fn fault_message(f: ArithmeticFault) -> &'static str {
    match f {
        ArithmeticFault::AddOverflow => "add overflow",
        ArithmeticFault::SubOverflow => "subtract overflow",
        ArithmeticFault::MulOverflow => "multiply overflow",
        ArithmeticFault::DivideByZero => "divide by zero",
        ArithmeticFault::DivideOverflow => "divide overflow",
    }
}

impl ArithmeticFault {
    /// The fixed message reported through the abort hostcall.
    pub fn message(&self) -> (r: &'static str)
        ensures
            r == fault_message(*self),
    {
        match self {
            ArithmeticFault::AddOverflow => "add overflow",
            ArithmeticFault::SubOverflow => "subtract overflow",
            ArithmeticFault::MulOverflow => "multiply overflow",
            ArithmeticFault::DivideByZero => "divide by zero",
            ArithmeticFault::DivideOverflow => "divide overflow",
        }
    }
}

/// Division that rounds toward zero.
pub open spec fn trunc_div(x: int, d: int) -> int {
    let q: int = abs(x) as int / abs(d) as int;
    if (x < 0) != (d < 0) {
        -q
    } else {
        q
    }
}

pub open spec fn in_range(v: int, lo: int, hi: int) -> bool {
    lo <= v <= hi
}

pub trait SafeAdd<T>: Sized {
    spec fn spec_safe_add(&self, n: T) -> Result<T, ArithmeticFault>;

    /// `self + n`, or `AddOverflow` when it does not fit the type.
    fn safe_add(&self, n: T) -> (r: Result<T, ArithmeticFault>)
        ensures
            r == self.spec_safe_add(n),
    ;
}

pub trait SafeSub<T>: Sized {
    spec fn spec_safe_sub(&self, n: T) -> Result<T, ArithmeticFault>;

    /// `self - n`, or `SubOverflow` when it does not fit the type.
    fn safe_sub(&self, n: T) -> (r: Result<T, ArithmeticFault>)
        ensures
            r == self.spec_safe_sub(n),
    ;
}

pub trait SafeMul<T>: Sized {
    spec fn spec_safe_mul(&self, n: T) -> Result<T, ArithmeticFault>;

    /// `self * n`, or `MulOverflow` when it does not fit the type.
    fn safe_mul(&self, n: T) -> (r: Result<T, ArithmeticFault>)
        ensures
            r == self.spec_safe_mul(n),
    ;
}

pub trait SafeDiv<T>: Sized {
    spec fn spec_safe_div(&self, n: T) -> Result<T, ArithmeticFault>;

    /// `self / n` rounded toward zero, `DivideByZero` when `n` is zero, or
    /// `DivideOverflow` when the quotient does not fit the type.
    fn safe_div(&self, n: T) -> (r: Result<T, ArithmeticFault>)
        ensures
            r == self.spec_safe_div(n),
    ;
}

impl SafeAdd<u8> for u8 {
    open spec fn spec_safe_add(&self, n: u8) -> Result<u8, ArithmeticFault> {
        if in_range(*self + n, u8::MIN as int, u8::MAX as int) {
            Ok((*self + n) as u8)
        } else {
            Err(ArithmeticFault::AddOverflow)
        }
    }

    fn safe_add(&self, n: u8) -> (r: Result<u8, ArithmeticFault>) {
        match self.checked_add(n) {
            Some(v) => Ok(v),
            None => Err(ArithmeticFault::AddOverflow),
        }
    }
}

impl SafeSub<u8> for u8 {
    open spec fn spec_safe_sub(&self, n: u8) -> Result<u8, ArithmeticFault> {
        if in_range(*self - n, u8::MIN as int, u8::MAX as int) {
            Ok((*self - n) as u8)
        } else {
            Err(ArithmeticFault::SubOverflow)
        }
    }

    fn safe_sub(&self, n: u8) -> (r: Result<u8, ArithmeticFault>) {
        match self.checked_sub(n) {
            Some(v) => Ok(v),
            None => Err(ArithmeticFault::SubOverflow),
        }
    }
}

impl SafeMul<u8> for u8 {
    open spec fn spec_safe_mul(&self, n: u8) -> Result<u8, ArithmeticFault> {
        if in_range(*self * n, u8::MIN as int, u8::MAX as int) {
            Ok((*self * n) as u8)
        } else {
            Err(ArithmeticFault::MulOverflow)
        }
    }

    fn safe_mul(&self, n: u8) -> (r: Result<u8, ArithmeticFault>) {
        match self.checked_mul(n) {
            Some(v) => Ok(v),
            None => Err(ArithmeticFault::MulOverflow),
        }
    }
}

impl SafeDiv<u8> for u8 {
    open spec fn spec_safe_div(&self, n: u8) -> Result<u8, ArithmeticFault> {
        if n == 0 {
            Err(ArithmeticFault::DivideByZero)
        } else if in_range(trunc_div(*self as int, n as int), u8::MIN as int, u8::MAX as int) {
            Ok(trunc_div(*self as int, n as int) as u8)
        } else {
            Err(ArithmeticFault::DivideOverflow)
        }
    }

    fn safe_div(&self, n: u8) -> (r: Result<u8, ArithmeticFault>) {
        if n == 0 {
            return Err(ArithmeticFault::DivideByZero);
        }
        match self.checked_div(n) {
            Some(v) => Ok(v),
            None => Err(ArithmeticFault::DivideOverflow),
        }
    }
}

impl SafeAdd<i8> for i8 {
    open spec fn spec_safe_add(&self, n: i8) -> Result<i8, ArithmeticFault> {
        if in_range(*self + n, i8::MIN as int, i8::MAX as int) {
            Ok((*self + n) as i8)
        } else {
            Err(ArithmeticFault::AddOverflow)
        }
    }

    fn safe_add(&self, n: i8) -> (r: Result<i8, ArithmeticFault>) {
        match self.checked_add(n) {
            Some(v) => Ok(v),
            None => Err(ArithmeticFault::AddOverflow),
        }
    }
}

impl SafeSub<i8> for i8 {
    open spec fn spec_safe_sub(&self, n: i8) -> Result<i8, ArithmeticFault> {
        if in_range(*self - n, i8::MIN as int, i8::MAX as int) {
            Ok((*self - n) as i8)
        } else {
            Err(ArithmeticFault::SubOverflow)
        }
    }

    fn safe_sub(&self, n: i8) -> (r: Result<i8, ArithmeticFault>) {
        match self.checked_sub(n) {
            Some(v) => Ok(v),
            None => Err(ArithmeticFault::SubOverflow),
        }
    }
}

impl SafeMul<i8> for i8 {
    open spec fn spec_safe_mul(&self, n: i8) -> Result<i8, ArithmeticFault> {
        if in_range(*self * n, i8::MIN as int, i8::MAX as int) {
            Ok((*self * n) as i8)
        } else {
            Err(ArithmeticFault::MulOverflow)
        }
    }

    fn safe_mul(&self, n: i8) -> (r: Result<i8, ArithmeticFault>) {
        match self.checked_mul(n) {
            Some(v) => Ok(v),
            None => Err(ArithmeticFault::MulOverflow),
        }
    }
}

impl SafeDiv<i8> for i8 {
    open spec fn spec_safe_div(&self, n: i8) -> Result<i8, ArithmeticFault> {
        if n == 0 {
            Err(ArithmeticFault::DivideByZero)
        } else if in_range(trunc_div(*self as int, n as int), i8::MIN as int, i8::MAX as int) {
            Ok(trunc_div(*self as int, n as int) as i8)
        } else {
            Err(ArithmeticFault::DivideOverflow)
        }
    }

    fn safe_div(&self, n: i8) -> (r: Result<i8, ArithmeticFault>) {
        if n == 0 {
            return Err(ArithmeticFault::DivideByZero);
        }
        match self.checked_div(n) {
            Some(v) => Ok(v),
            None => Err(ArithmeticFault::DivideOverflow),
        }
    }
}

impl SafeAdd<u16> for u16 {
    open spec fn spec_safe_add(&self, n: u16) -> Result<u16, ArithmeticFault> {
        if in_range(*self + n, u16::MIN as int, u16::MAX as int) {
            Ok((*self + n) as u16)
        } else {
            Err(ArithmeticFault::AddOverflow)
        }
    }

    fn safe_add(&self, n: u16) -> (r: Result<u16, ArithmeticFault>) {
        match self.checked_add(n) {
            Some(v) => Ok(v),
            None => Err(ArithmeticFault::AddOverflow),
        }
    }
}

impl SafeSub<u16> for u16 {
    open spec fn spec_safe_sub(&self, n: u16) -> Result<u16, ArithmeticFault> {
        if in_range(*self - n, u16::MIN as int, u16::MAX as int) {
            Ok((*self - n) as u16)
        } else {
            Err(ArithmeticFault::SubOverflow)
        }
    }

    fn safe_sub(&self, n: u16) -> (r: Result<u16, ArithmeticFault>) {
        match self.checked_sub(n) {
            Some(v) => Ok(v),
            None => Err(ArithmeticFault::SubOverflow),
        }
    }
}

impl SafeMul<u16> for u16 {
    open spec fn spec_safe_mul(&self, n: u16) -> Result<u16, ArithmeticFault> {
        if in_range(*self * n, u16::MIN as int, u16::MAX as int) {
            Ok((*self * n) as u16)
        } else {
            Err(ArithmeticFault::MulOverflow)
        }
    }

    fn safe_mul(&self, n: u16) -> (r: Result<u16, ArithmeticFault>) {
        match self.checked_mul(n) {
            Some(v) => Ok(v),
            None => Err(ArithmeticFault::MulOverflow),
        }
    }
}

impl SafeDiv<u16> for u16 {
    open spec fn spec_safe_div(&self, n: u16) -> Result<u16, ArithmeticFault> {
        if n == 0 {
            Err(ArithmeticFault::DivideByZero)
        } else if in_range(trunc_div(*self as int, n as int), u16::MIN as int, u16::MAX as int) {
            Ok(trunc_div(*self as int, n as int) as u16)
        } else {
            Err(ArithmeticFault::DivideOverflow)
        }
    }

    fn safe_div(&self, n: u16) -> (r: Result<u16, ArithmeticFault>) {
        if n == 0 {
            return Err(ArithmeticFault::DivideByZero);
        }
        match self.checked_div(n) {
            Some(v) => Ok(v),
            None => Err(ArithmeticFault::DivideOverflow),
        }
    }
}

impl SafeAdd<i16> for i16 {
    open spec fn spec_safe_add(&self, n: i16) -> Result<i16, ArithmeticFault> {
        if in_range(*self + n, i16::MIN as int, i16::MAX as int) {
            Ok((*self + n) as i16)
        } else {
            Err(ArithmeticFault::AddOverflow)
        }
    }

    fn safe_add(&self, n: i16) -> (r: Result<i16, ArithmeticFault>) {
        match self.checked_add(n) {
            Some(v) => Ok(v),
            None => Err(ArithmeticFault::AddOverflow),
        }
    }
}

impl SafeSub<i16> for i16 {
    open spec fn spec_safe_sub(&self, n: i16) -> Result<i16, ArithmeticFault> {
        if in_range(*self - n, i16::MIN as int, i16::MAX as int) {
            Ok((*self - n) as i16)
        } else {
            Err(ArithmeticFault::SubOverflow)
        }
    }

    fn safe_sub(&self, n: i16) -> (r: Result<i16, ArithmeticFault>) {
        match self.checked_sub(n) {
            Some(v) => Ok(v),
            None => Err(ArithmeticFault::SubOverflow),
        }
    }
}

impl SafeMul<i16> for i16 {
    open spec fn spec_safe_mul(&self, n: i16) -> Result<i16, ArithmeticFault> {
        if in_range(*self * n, i16::MIN as int, i16::MAX as int) {
            Ok((*self * n) as i16)
        } else {
            Err(ArithmeticFault::MulOverflow)
        }
    }

    fn safe_mul(&self, n: i16) -> (r: Result<i16, ArithmeticFault>) {
        match self.checked_mul(n) {
            Some(v) => Ok(v),
            None => Err(ArithmeticFault::MulOverflow),
        }
    }
}

impl SafeDiv<i16> for i16 {
    open spec fn spec_safe_div(&self, n: i16) -> Result<i16, ArithmeticFault> {
        if n == 0 {
            Err(ArithmeticFault::DivideByZero)
        } else if in_range(trunc_div(*self as int, n as int), i16::MIN as int, i16::MAX as int) {
            Ok(trunc_div(*self as int, n as int) as i16)
        } else {
            Err(ArithmeticFault::DivideOverflow)
        }
    }

    fn safe_div(&self, n: i16) -> (r: Result<i16, ArithmeticFault>) {
        if n == 0 {
            return Err(ArithmeticFault::DivideByZero);
        }
        match self.checked_div(n) {
            Some(v) => Ok(v),
            None => Err(ArithmeticFault::DivideOverflow),
        }
    }
}

impl SafeAdd<u32> for u32 {
    open spec fn spec_safe_add(&self, n: u32) -> Result<u32, ArithmeticFault> {
        if in_range(*self + n, u32::MIN as int, u32::MAX as int) {
            Ok((*self + n) as u32)
        } else {
            Err(ArithmeticFault::AddOverflow)
        }
    }

    fn safe_add(&self, n: u32) -> (r: Result<u32, ArithmeticFault>) {
        match self.checked_add(n) {
            Some(v) => Ok(v),
            None => Err(ArithmeticFault::AddOverflow),
        }
    }
}

impl SafeSub<u32> for u32 {
    open spec fn spec_safe_sub(&self, n: u32) -> Result<u32, ArithmeticFault> {
        if in_range(*self - n, u32::MIN as int, u32::MAX as int) {
            Ok((*self - n) as u32)
        } else {
            Err(ArithmeticFault::SubOverflow)
        }
    }

    fn safe_sub(&self, n: u32) -> (r: Result<u32, ArithmeticFault>) {
        match self.checked_sub(n) {
            Some(v) => Ok(v),
            None => Err(ArithmeticFault::SubOverflow),
        }
    }
}

impl SafeMul<u32> for u32 {
    open spec fn spec_safe_mul(&self, n: u32) -> Result<u32, ArithmeticFault> {
        if in_range(*self * n, u32::MIN as int, u32::MAX as int) {
            Ok((*self * n) as u32)
        } else {
            Err(ArithmeticFault::MulOverflow)
        }
    }

    fn safe_mul(&self, n: u32) -> (r: Result<u32, ArithmeticFault>) {
        match self.checked_mul(n) {
            Some(v) => Ok(v),
            None => Err(ArithmeticFault::MulOverflow),
        }
    }
}

impl SafeDiv<u32> for u32 {
    open spec fn spec_safe_div(&self, n: u32) -> Result<u32, ArithmeticFault> {
        if n == 0 {
            Err(ArithmeticFault::DivideByZero)
        } else if in_range(trunc_div(*self as int, n as int), u32::MIN as int, u32::MAX as int) {
            Ok(trunc_div(*self as int, n as int) as u32)
        } else {
            Err(ArithmeticFault::DivideOverflow)
        }
    }

    fn safe_div(&self, n: u32) -> (r: Result<u32, ArithmeticFault>) {
        if n == 0 {
            return Err(ArithmeticFault::DivideByZero);
        }
        match self.checked_div(n) {
            Some(v) => Ok(v),
            None => Err(ArithmeticFault::DivideOverflow),
        }
    }
}

impl SafeAdd<i32> for i32 {
    open spec fn spec_safe_add(&self, n: i32) -> Result<i32, ArithmeticFault> {
        if in_range(*self + n, i32::MIN as int, i32::MAX as int) {
            Ok((*self + n) as i32)
        } else {
            Err(ArithmeticFault::AddOverflow)
        }
    }

    fn safe_add(&self, n: i32) -> (r: Result<i32, ArithmeticFault>) {
        match self.checked_add(n) {
            Some(v) => Ok(v),
            None => Err(ArithmeticFault::AddOverflow),
        }
    }
}

impl SafeSub<i32> for i32 {
    open spec fn spec_safe_sub(&self, n: i32) -> Result<i32, ArithmeticFault> {
        if in_range(*self - n, i32::MIN as int, i32::MAX as int) {
            Ok((*self - n) as i32)
        } else {
            Err(ArithmeticFault::SubOverflow)
        }
    }

    fn safe_sub(&self, n: i32) -> (r: Result<i32, ArithmeticFault>) {
        match self.checked_sub(n) {
            Some(v) => Ok(v),
            None => Err(ArithmeticFault::SubOverflow),
        }
    }
}

impl SafeMul<i32> for i32 {
    open spec fn spec_safe_mul(&self, n: i32) -> Result<i32, ArithmeticFault> {
        if in_range(*self * n, i32::MIN as int, i32::MAX as int) {
            Ok((*self * n) as i32)
        } else {
            Err(ArithmeticFault::MulOverflow)
        }
    }

    fn safe_mul(&self, n: i32) -> (r: Result<i32, ArithmeticFault>) {
        match self.checked_mul(n) {
            Some(v) => Ok(v),
            None => Err(ArithmeticFault::MulOverflow),
        }
    }
}

impl SafeDiv<i32> for i32 {
    open spec fn spec_safe_div(&self, n: i32) -> Result<i32, ArithmeticFault> {
        if n == 0 {
            Err(ArithmeticFault::DivideByZero)
        } else if in_range(trunc_div(*self as int, n as int), i32::MIN as int, i32::MAX as int) {
            Ok(trunc_div(*self as int, n as int) as i32)
        } else {
            Err(ArithmeticFault::DivideOverflow)
        }
    }

    fn safe_div(&self, n: i32) -> (r: Result<i32, ArithmeticFault>) {
        if n == 0 {
            return Err(ArithmeticFault::DivideByZero);
        }
        match self.checked_div(n) {
            Some(v) => Ok(v),
            None => Err(ArithmeticFault::DivideOverflow),
        }
    }
}

impl SafeAdd<u64> for u64 {
    open spec fn spec_safe_add(&self, n: u64) -> Result<u64, ArithmeticFault> {
        if in_range(*self + n, u64::MIN as int, u64::MAX as int) {
            Ok((*self + n) as u64)
        } else {
            Err(ArithmeticFault::AddOverflow)
        }
    }

    fn safe_add(&self, n: u64) -> (r: Result<u64, ArithmeticFault>) {
        match self.checked_add(n) {
            Some(v) => Ok(v),
            None => Err(ArithmeticFault::AddOverflow),
        }
    }
}

impl SafeSub<u64> for u64 {
    open spec fn spec_safe_sub(&self, n: u64) -> Result<u64, ArithmeticFault> {
        if in_range(*self - n, u64::MIN as int, u64::MAX as int) {
            Ok((*self - n) as u64)
        } else {
            Err(ArithmeticFault::SubOverflow)
        }
    }

    fn safe_sub(&self, n: u64) -> (r: Result<u64, ArithmeticFault>) {
        match self.checked_sub(n) {
            Some(v) => Ok(v),
            None => Err(ArithmeticFault::SubOverflow),
        }
    }
}

impl SafeMul<u64> for u64 {
    open spec fn spec_safe_mul(&self, n: u64) -> Result<u64, ArithmeticFault> {
        if in_range(*self * n, u64::MIN as int, u64::MAX as int) {
            Ok((*self * n) as u64)
        } else {
            Err(ArithmeticFault::MulOverflow)
        }
    }

    fn safe_mul(&self, n: u64) -> (r: Result<u64, ArithmeticFault>) {
        match self.checked_mul(n) {
            Some(v) => Ok(v),
            None => Err(ArithmeticFault::MulOverflow),
        }
    }
}

impl SafeDiv<u64> for u64 {
    open spec fn spec_safe_div(&self, n: u64) -> Result<u64, ArithmeticFault> {
        if n == 0 {
            Err(ArithmeticFault::DivideByZero)
        } else if in_range(trunc_div(*self as int, n as int), u64::MIN as int, u64::MAX as int) {
            Ok(trunc_div(*self as int, n as int) as u64)
        } else {
            Err(ArithmeticFault::DivideOverflow)
        }
    }

    fn safe_div(&self, n: u64) -> (r: Result<u64, ArithmeticFault>) {
        if n == 0 {
            return Err(ArithmeticFault::DivideByZero);
        }
        match self.checked_div(n) {
            Some(v) => Ok(v),
            None => Err(ArithmeticFault::DivideOverflow),
        }
    }
}

impl SafeAdd<i64> for i64 {
    open spec fn spec_safe_add(&self, n: i64) -> Result<i64, ArithmeticFault> {
        if in_range(*self + n, i64::MIN as int, i64::MAX as int) {
            Ok((*self + n) as i64)
        } else {
            Err(ArithmeticFault::AddOverflow)
        }
    }

    fn safe_add(&self, n: i64) -> (r: Result<i64, ArithmeticFault>) {
        match self.checked_add(n) {
            Some(v) => Ok(v),
            None => Err(ArithmeticFault::AddOverflow),
        }
    }
}

impl SafeSub<i64> for i64 {
    open spec fn spec_safe_sub(&self, n: i64) -> Result<i64, ArithmeticFault> {
        if in_range(*self - n, i64::MIN as int, i64::MAX as int) {
            Ok((*self - n) as i64)
        } else {
            Err(ArithmeticFault::SubOverflow)
        }
    }

    fn safe_sub(&self, n: i64) -> (r: Result<i64, ArithmeticFault>) {
        match self.checked_sub(n) {
            Some(v) => Ok(v),
            None => Err(ArithmeticFault::SubOverflow),
        }
    }
}

impl SafeMul<i64> for i64 {
    open spec fn spec_safe_mul(&self, n: i64) -> Result<i64, ArithmeticFault> {
        if in_range(*self * n, i64::MIN as int, i64::MAX as int) {
            Ok((*self * n) as i64)
        } else {
            Err(ArithmeticFault::MulOverflow)
        }
    }

    fn safe_mul(&self, n: i64) -> (r: Result<i64, ArithmeticFault>) {
        match self.checked_mul(n) {
            Some(v) => Ok(v),
            None => Err(ArithmeticFault::MulOverflow),
        }
    }
}

impl SafeDiv<i64> for i64 {
    open spec fn spec_safe_div(&self, n: i64) -> Result<i64, ArithmeticFault> {
        if n == 0 {
            Err(ArithmeticFault::DivideByZero)
        } else if in_range(trunc_div(*self as int, n as int), i64::MIN as int, i64::MAX as int) {
            Ok(trunc_div(*self as int, n as int) as i64)
        } else {
            Err(ArithmeticFault::DivideOverflow)
        }
    }

    fn safe_div(&self, n: i64) -> (r: Result<i64, ArithmeticFault>) {
        if n == 0 {
            return Err(ArithmeticFault::DivideByZero);
        }
        match self.checked_div(n) {
            Some(v) => Ok(v),
            None => Err(ArithmeticFault::DivideOverflow),
        }
    }
}

impl SafeAdd<u128> for u128 {
    open spec fn spec_safe_add(&self, n: u128) -> Result<u128, ArithmeticFault> {
        if in_range(*self + n, u128::MIN as int, u128::MAX as int) {
            Ok((*self + n) as u128)
        } else {
            Err(ArithmeticFault::AddOverflow)
        }
    }

    fn safe_add(&self, n: u128) -> (r: Result<u128, ArithmeticFault>) {
        match self.checked_add(n) {
            Some(v) => Ok(v),
            None => Err(ArithmeticFault::AddOverflow),
        }
    }
}

impl SafeSub<u128> for u128 {
    open spec fn spec_safe_sub(&self, n: u128) -> Result<u128, ArithmeticFault> {
        if in_range(*self - n, u128::MIN as int, u128::MAX as int) {
            Ok((*self - n) as u128)
        } else {
            Err(ArithmeticFault::SubOverflow)
        }
    }

    fn safe_sub(&self, n: u128) -> (r: Result<u128, ArithmeticFault>) {
        match self.checked_sub(n) {
            Some(v) => Ok(v),
            None => Err(ArithmeticFault::SubOverflow),
        }
    }
}

impl SafeMul<u128> for u128 {
    open spec fn spec_safe_mul(&self, n: u128) -> Result<u128, ArithmeticFault> {
        if in_range(*self * n, u128::MIN as int, u128::MAX as int) {
            Ok((*self * n) as u128)
        } else {
            Err(ArithmeticFault::MulOverflow)
        }
    }

    fn safe_mul(&self, n: u128) -> (r: Result<u128, ArithmeticFault>) {
        match self.checked_mul(n) {
            Some(v) => Ok(v),
            None => Err(ArithmeticFault::MulOverflow),
        }
    }
}

impl SafeDiv<u128> for u128 {
    open spec fn spec_safe_div(&self, n: u128) -> Result<u128, ArithmeticFault> {
        if n == 0 {
            Err(ArithmeticFault::DivideByZero)
        } else if in_range(trunc_div(*self as int, n as int), u128::MIN as int, u128::MAX as int) {
            Ok(trunc_div(*self as int, n as int) as u128)
        } else {
            Err(ArithmeticFault::DivideOverflow)
        }
    }

    fn safe_div(&self, n: u128) -> (r: Result<u128, ArithmeticFault>) {
        if n == 0 {
            return Err(ArithmeticFault::DivideByZero);
        }
        match self.checked_div(n) {
            Some(v) => Ok(v),
            None => Err(ArithmeticFault::DivideOverflow),
        }
    }
}

impl SafeAdd<i128> for i128 {
    open spec fn spec_safe_add(&self, n: i128) -> Result<i128, ArithmeticFault> {
        if in_range(*self + n, i128::MIN as int, i128::MAX as int) {
            Ok((*self + n) as i128)
        } else {
            Err(ArithmeticFault::AddOverflow)
        }
    }

    fn safe_add(&self, n: i128) -> (r: Result<i128, ArithmeticFault>) {
        match self.checked_add(n) {
            Some(v) => Ok(v),
            None => Err(ArithmeticFault::AddOverflow),
        }
    }
}

impl SafeSub<i128> for i128 {
    open spec fn spec_safe_sub(&self, n: i128) -> Result<i128, ArithmeticFault> {
        if in_range(*self - n, i128::MIN as int, i128::MAX as int) {
            Ok((*self - n) as i128)
        } else {
            Err(ArithmeticFault::SubOverflow)
        }
    }

    fn safe_sub(&self, n: i128) -> (r: Result<i128, ArithmeticFault>) {
        match self.checked_sub(n) {
            Some(v) => Ok(v),
            None => Err(ArithmeticFault::SubOverflow),
        }
    }
}

impl SafeMul<i128> for i128 {
    open spec fn spec_safe_mul(&self, n: i128) -> Result<i128, ArithmeticFault> {
        if in_range(*self * n, i128::MIN as int, i128::MAX as int) {
            Ok((*self * n) as i128)
        } else {
            Err(ArithmeticFault::MulOverflow)
        }
    }

    fn safe_mul(&self, n: i128) -> (r: Result<i128, ArithmeticFault>) {
        match self.checked_mul(n) {
            Some(v) => Ok(v),
            None => Err(ArithmeticFault::MulOverflow),
        }
    }
}

impl SafeDiv<i128> for i128 {
    open spec fn spec_safe_div(&self, n: i128) -> Result<i128, ArithmeticFault> {
        if n == 0 {
            Err(ArithmeticFault::DivideByZero)
        } else if in_range(trunc_div(*self as int, n as int), i128::MIN as int, i128::MAX as int) {
            Ok(trunc_div(*self as int, n as int) as i128)
        } else {
            Err(ArithmeticFault::DivideOverflow)
        }
    }

    fn safe_div(&self, n: i128) -> (r: Result<i128, ArithmeticFault>) {
        if n == 0 {
            return Err(ArithmeticFault::DivideByZero);
        }
        match self.checked_div(n) {
            Some(v) => Ok(v),
            None => Err(ArithmeticFault::DivideOverflow),
        }
    }
}

pub fn safe_add<T: Copy + SafeAdd<T>>(x: T, y: T) -> (r: Result<T, ArithmeticFault>)
    ensures
        r == x.spec_safe_add(y),
{
    x.safe_add(y)
}

pub fn safe_sub<T: Copy + SafeSub<T>>(x: T, y: T) -> (r: Result<T, ArithmeticFault>)
    ensures
        r == x.spec_safe_sub(y),
{
    x.safe_sub(y)
}

pub fn safe_mul<T: Copy + SafeMul<T>>(x: T, y: T) -> (r: Result<T, ArithmeticFault>)
    ensures
        r == x.spec_safe_mul(y),
{
    x.safe_mul(y)
}

pub fn safe_div<T: Copy + SafeDiv<T>>(x: T, y: T) -> (r: Result<T, ArithmeticFault>)
    ensures
        r == x.spec_safe_div(y),
{
    x.safe_div(y)
}

} // verus!
