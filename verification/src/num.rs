use vstd::prelude::*;

verus! {

/// Conversion of one numeric type into another, with the rounding and
/// clamping rules of this engine (see each impl).
pub trait NumberCast<T> {
    /// The value that `number_cast` produces.
    spec fn cast_spec(self) -> T;

    /// Converts `self` into `T`.
    fn number_cast(self) -> (r: T)
        ensures
            r == self.cast_spec(),
    ;
}

/// The primitive numbers that vectors are built from: closed under the four
/// arithmetic operations and freely copyable.
pub trait Number:
    core::ops::Add<Output = Self>
    + core::ops::Sub<Output = Self>
    + core::ops::Mul<Output = Self>
    + core::ops::Div<Output = Self>
    + Sized
    + Copy
    + Clone {
    /// Converts `self` into `T` by the `NumberCast` rule between the two types.
    fn cast<T>(self) -> (r: T)
        where Self: NumberCast<T>,
        ensures
            r == self.cast_spec(),
    {
        self.number_cast()
    }
}

/// Unsigned primitive integers.
pub trait Unsigned: Number {}

/// Signed primitive integers.
pub trait Integer: Number {}

impl Number for u8 {}
impl Number for u16 {}
impl Number for u32 {}
impl Number for u64 {}
impl Number for u128 {}
impl Number for i8 {}
impl Number for i16 {}
impl Number for i32 {}
impl Number for i64 {}
impl Number for i128 {}

impl Unsigned for u8 {}
impl Unsigned for u16 {}
impl Unsigned for u32 {}
impl Unsigned for u64 {}
impl Unsigned for u128 {}

impl Integer for i8 {}
impl Integer for i16 {}
impl Integer for i32 {}
impl Integer for i64 {}
impl Integer for i128 {}

/// Converts to `u8` by `as`.
impl NumberCast<u8> for usize {
    open spec fn cast_spec(self) -> u8 {
        self as u8
    }

    fn number_cast(self) -> (r: u8) {
        self as u8
    }
}

/// Converts to `u16` by `as`.
impl NumberCast<u16> for usize {
    open spec fn cast_spec(self) -> u16 {
        self as u16
    }

    fn number_cast(self) -> (r: u16) {
        self as u16
    }
}

/// Converts to `u32` by `as`.
impl NumberCast<u32> for usize {
    open spec fn cast_spec(self) -> u32 {
        self as u32
    }

    fn number_cast(self) -> (r: u32) {
        self as u32
    }
}

/// Converts to `u64` by `as`.
impl NumberCast<u64> for usize {
    open spec fn cast_spec(self) -> u64 {
        self as u64
    }

    fn number_cast(self) -> (r: u64) {
        self as u64
    }
}

/// Reads the bits of the `usize` as a `isize`, then converts that to `isize` by `as`.
impl NumberCast<isize> for usize {
    open spec fn cast_spec(self) -> isize {
        (self as isize) as isize
    }

    fn number_cast(self) -> (r: isize) {
        let reinterpreted: isize = self as isize;
        reinterpreted as isize
    }
}

/// Reads the bits of the `usize` as a `isize`, then converts that to `i8` by `as`.
impl NumberCast<i8> for usize {
    open spec fn cast_spec(self) -> i8 {
        (self as isize) as i8
    }

    fn number_cast(self) -> (r: i8) {
        let reinterpreted: isize = self as isize;
        reinterpreted as i8
    }
}

/// Reads the bits of the `usize` as a `isize`, then converts that to `i16` by `as`.
impl NumberCast<i16> for usize {
    open spec fn cast_spec(self) -> i16 {
        (self as isize) as i16
    }

    fn number_cast(self) -> (r: i16) {
        let reinterpreted: isize = self as isize;
        reinterpreted as i16
    }
}

/// Reads the bits of the `usize` as a `isize`, then converts that to `i32` by `as`.
impl NumberCast<i32> for usize {
    open spec fn cast_spec(self) -> i32 {
        (self as isize) as i32
    }

    fn number_cast(self) -> (r: i32) {
        let reinterpreted: isize = self as isize;
        reinterpreted as i32
    }
}

/// Reads the bits of the `usize` as a `isize`, then converts that to `i64` by `as`.
impl NumberCast<i64> for usize {
    open spec fn cast_spec(self) -> i64 {
        (self as isize) as i64
    }

    fn number_cast(self) -> (r: i64) {
        let reinterpreted: isize = self as isize;
        reinterpreted as i64
    }
}

/// Converts to `usize` by `as`.
impl NumberCast<usize> for u8 {
    open spec fn cast_spec(self) -> usize {
        self as usize
    }

    fn number_cast(self) -> (r: usize) {
        self as usize
    }
}

/// Converts to `u16` by `as`.
impl NumberCast<u16> for u8 {
    open spec fn cast_spec(self) -> u16 {
        self as u16
    }

    fn number_cast(self) -> (r: u16) {
        self as u16
    }
}

/// Converts to `u32` by `as`.
impl NumberCast<u32> for u8 {
    open spec fn cast_spec(self) -> u32 {
        self as u32
    }

    fn number_cast(self) -> (r: u32) {
        self as u32
    }
}

/// Converts to `u64` by `as`.
impl NumberCast<u64> for u8 {
    open spec fn cast_spec(self) -> u64 {
        self as u64
    }

    fn number_cast(self) -> (r: u64) {
        self as u64
    }
}

/// Reads the bits of the `u8` as a `i8`, then converts that to `isize` by `as`.
impl NumberCast<isize> for u8 {
    open spec fn cast_spec(self) -> isize {
        (self as i8) as isize
    }

    fn number_cast(self) -> (r: isize) {
        let reinterpreted: i8 = self as i8;
        reinterpreted as isize
    }
}

/// Reads the bits of the `u8` as a `i8`, then converts that to `i8` by `as`.
impl NumberCast<i8> for u8 {
    open spec fn cast_spec(self) -> i8 {
        (self as i8) as i8
    }

    fn number_cast(self) -> (r: i8) {
        let reinterpreted: i8 = self as i8;
        reinterpreted as i8
    }
}

/// Reads the bits of the `u8` as a `i8`, then converts that to `i16` by `as`.
impl NumberCast<i16> for u8 {
    open spec fn cast_spec(self) -> i16 {
        (self as i8) as i16
    }

    fn number_cast(self) -> (r: i16) {
        let reinterpreted: i8 = self as i8;
        reinterpreted as i16
    }
}

/// Reads the bits of the `u8` as a `i8`, then converts that to `i32` by `as`.
impl NumberCast<i32> for u8 {
    open spec fn cast_spec(self) -> i32 {
        (self as i8) as i32
    }

    fn number_cast(self) -> (r: i32) {
        let reinterpreted: i8 = self as i8;
        reinterpreted as i32
    }
}

/// Reads the bits of the `u8` as a `i8`, then converts that to `i64` by `as`.
impl NumberCast<i64> for u8 {
    open spec fn cast_spec(self) -> i64 {
        (self as i8) as i64
    }

    fn number_cast(self) -> (r: i64) {
        let reinterpreted: i8 = self as i8;
        reinterpreted as i64
    }
}

/// Converts to `usize` by `as`.
impl NumberCast<usize> for u16 {
    open spec fn cast_spec(self) -> usize {
        self as usize
    }

    fn number_cast(self) -> (r: usize) {
        self as usize
    }
}

/// Converts to `u8` by `as`.
impl NumberCast<u8> for u16 {
    open spec fn cast_spec(self) -> u8 {
        self as u8
    }

    fn number_cast(self) -> (r: u8) {
        self as u8
    }
}

/// Converts to `u32` by `as`.
impl NumberCast<u32> for u16 {
    open spec fn cast_spec(self) -> u32 {
        self as u32
    }

    fn number_cast(self) -> (r: u32) {
        self as u32
    }
}

/// Converts to `u64` by `as`.
impl NumberCast<u64> for u16 {
    open spec fn cast_spec(self) -> u64 {
        self as u64
    }

    fn number_cast(self) -> (r: u64) {
        self as u64
    }
}

/// Reads the bits of the `u16` as a `i16`, then converts that to `isize` by `as`.
impl NumberCast<isize> for u16 {
    open spec fn cast_spec(self) -> isize {
        (self as i16) as isize
    }

    fn number_cast(self) -> (r: isize) {
        let reinterpreted: i16 = self as i16;
        reinterpreted as isize
    }
}

/// Reads the bits of the `u16` as a `i16`, then converts that to `i8` by `as`.
impl NumberCast<i8> for u16 {
    open spec fn cast_spec(self) -> i8 {
        (self as i16) as i8
    }

    fn number_cast(self) -> (r: i8) {
        let reinterpreted: i16 = self as i16;
        reinterpreted as i8
    }
}

/// Reads the bits of the `u16` as a `i16`, then converts that to `i16` by `as`.
impl NumberCast<i16> for u16 {
    open spec fn cast_spec(self) -> i16 {
        (self as i16) as i16
    }

    fn number_cast(self) -> (r: i16) {
        let reinterpreted: i16 = self as i16;
        reinterpreted as i16
    }
}

/// Reads the bits of the `u16` as a `i16`, then converts that to `i32` by `as`.
impl NumberCast<i32> for u16 {
    open spec fn cast_spec(self) -> i32 {
        (self as i16) as i32
    }

    fn number_cast(self) -> (r: i32) {
        let reinterpreted: i16 = self as i16;
        reinterpreted as i32
    }
}

/// Reads the bits of the `u16` as a `i16`, then converts that to `i64` by `as`.
impl NumberCast<i64> for u16 {
    open spec fn cast_spec(self) -> i64 {
        (self as i16) as i64
    }

    fn number_cast(self) -> (r: i64) {
        let reinterpreted: i16 = self as i16;
        reinterpreted as i64
    }
}

/// Converts to `usize` by `as`.
impl NumberCast<usize> for u32 {
    open spec fn cast_spec(self) -> usize {
        self as usize
    }

    fn number_cast(self) -> (r: usize) {
        self as usize
    }
}

/// Converts to `u8` by `as`.
impl NumberCast<u8> for u32 {
    open spec fn cast_spec(self) -> u8 {
        self as u8
    }

    fn number_cast(self) -> (r: u8) {
        self as u8
    }
}

/// Converts to `u16` by `as`.
impl NumberCast<u16> for u32 {
    open spec fn cast_spec(self) -> u16 {
        self as u16
    }

    fn number_cast(self) -> (r: u16) {
        self as u16
    }
}

/// Converts to `u64` by `as`.
impl NumberCast<u64> for u32 {
    open spec fn cast_spec(self) -> u64 {
        self as u64
    }

    fn number_cast(self) -> (r: u64) {
        self as u64
    }
}

/// Reads the bits of the `u32` as a `i32`, then converts that to `isize` by `as`.
impl NumberCast<isize> for u32 {
    open spec fn cast_spec(self) -> isize {
        (self as i32) as isize
    }

    fn number_cast(self) -> (r: isize) {
        let reinterpreted: i32 = self as i32;
        reinterpreted as isize
    }
}

/// Reads the bits of the `u32` as a `i32`, then converts that to `i8` by `as`.
impl NumberCast<i8> for u32 {
    open spec fn cast_spec(self) -> i8 {
        (self as i32) as i8
    }

    fn number_cast(self) -> (r: i8) {
        let reinterpreted: i32 = self as i32;
        reinterpreted as i8
    }
}

/// Reads the bits of the `u32` as a `i32`, then converts that to `i16` by `as`.
impl NumberCast<i16> for u32 {
    open spec fn cast_spec(self) -> i16 {
        (self as i32) as i16
    }

    fn number_cast(self) -> (r: i16) {
        let reinterpreted: i32 = self as i32;
        reinterpreted as i16
    }
}

/// Reads the bits of the `u32` as a `i32`, then converts that to `i32` by `as`.
impl NumberCast<i32> for u32 {
    open spec fn cast_spec(self) -> i32 {
        (self as i32) as i32
    }

    fn number_cast(self) -> (r: i32) {
        let reinterpreted: i32 = self as i32;
        reinterpreted as i32
    }
}

/// Reads the bits of the `u32` as a `i32`, then converts that to `i64` by `as`.
impl NumberCast<i64> for u32 {
    open spec fn cast_spec(self) -> i64 {
        (self as i32) as i64
    }

    fn number_cast(self) -> (r: i64) {
        let reinterpreted: i32 = self as i32;
        reinterpreted as i64
    }
}

/// Converts to `usize` by `as`.
impl NumberCast<usize> for u64 {
    open spec fn cast_spec(self) -> usize {
        self as usize
    }

    fn number_cast(self) -> (r: usize) {
        self as usize
    }
}

/// Converts to `u8` by `as`.
impl NumberCast<u8> for u64 {
    open spec fn cast_spec(self) -> u8 {
        self as u8
    }

    fn number_cast(self) -> (r: u8) {
        self as u8
    }
}

/// Converts to `u16` by `as`.
impl NumberCast<u16> for u64 {
    open spec fn cast_spec(self) -> u16 {
        self as u16
    }

    fn number_cast(self) -> (r: u16) {
        self as u16
    }
}

/// Converts to `u32` by `as`.
impl NumberCast<u32> for u64 {
    open spec fn cast_spec(self) -> u32 {
        self as u32
    }

    fn number_cast(self) -> (r: u32) {
        self as u32
    }
}

/// Reads the bits of the `u64` as a `i64`, then converts that to `isize` by `as`.
impl NumberCast<isize> for u64 {
    open spec fn cast_spec(self) -> isize {
        (self as i64) as isize
    }

    fn number_cast(self) -> (r: isize) {
        let reinterpreted: i64 = self as i64;
        reinterpreted as isize
    }
}

/// Reads the bits of the `u64` as a `i64`, then converts that to `i8` by `as`.
impl NumberCast<i8> for u64 {
    open spec fn cast_spec(self) -> i8 {
        (self as i64) as i8
    }

    fn number_cast(self) -> (r: i8) {
        let reinterpreted: i64 = self as i64;
        reinterpreted as i8
    }
}

/// Reads the bits of the `u64` as a `i64`, then converts that to `i16` by `as`.
impl NumberCast<i16> for u64 {
    open spec fn cast_spec(self) -> i16 {
        (self as i64) as i16
    }

    fn number_cast(self) -> (r: i16) {
        let reinterpreted: i64 = self as i64;
        reinterpreted as i16
    }
}

/// Reads the bits of the `u64` as a `i64`, then converts that to `i32` by `as`.
impl NumberCast<i32> for u64 {
    open spec fn cast_spec(self) -> i32 {
        (self as i64) as i32
    }

    fn number_cast(self) -> (r: i32) {
        let reinterpreted: i64 = self as i64;
        reinterpreted as i32
    }
}

/// Reads the bits of the `u64` as a `i64`, then converts that to `i64` by `as`.
impl NumberCast<i64> for u64 {
    open spec fn cast_spec(self) -> i64 {
        (self as i64) as i64
    }

    fn number_cast(self) -> (r: i64) {
        let reinterpreted: i64 = self as i64;
        reinterpreted as i64
    }
}

/// Clamps negative values to zero, then converts to `usize` by `as`.
impl NumberCast<usize> for isize {
    open spec fn cast_spec(self) -> usize {
        if self < 0 { 0usize } else { self as usize }
    }

    fn number_cast(self) -> (r: usize) {
        let clamped: isize = if self < 0 { 0 } else { self };
        clamped as usize
    }
}

/// Clamps negative values to zero, then converts to `u8` by `as`.
impl NumberCast<u8> for isize {
    open spec fn cast_spec(self) -> u8 {
        if self < 0 { 0u8 } else { self as u8 }
    }

    fn number_cast(self) -> (r: u8) {
        let clamped: isize = if self < 0 { 0 } else { self };
        clamped as u8
    }
}

/// Clamps negative values to zero, then converts to `u16` by `as`.
impl NumberCast<u16> for isize {
    open spec fn cast_spec(self) -> u16 {
        if self < 0 { 0u16 } else { self as u16 }
    }

    fn number_cast(self) -> (r: u16) {
        let clamped: isize = if self < 0 { 0 } else { self };
        clamped as u16
    }
}

/// Clamps negative values to zero, then converts to `u32` by `as`.
impl NumberCast<u32> for isize {
    open spec fn cast_spec(self) -> u32 {
        if self < 0 { 0u32 } else { self as u32 }
    }

    fn number_cast(self) -> (r: u32) {
        let clamped: isize = if self < 0 { 0 } else { self };
        clamped as u32
    }
}

/// Clamps negative values to zero, then converts to `u64` by `as`.
impl NumberCast<u64> for isize {
    open spec fn cast_spec(self) -> u64 {
        if self < 0 { 0u64 } else { self as u64 }
    }

    fn number_cast(self) -> (r: u64) {
        let clamped: isize = if self < 0 { 0 } else { self };
        clamped as u64
    }
}

/// Converts to `i8` by `as`.
impl NumberCast<i8> for isize {
    open spec fn cast_spec(self) -> i8 {
        self as i8
    }

    fn number_cast(self) -> (r: i8) {
        self as i8
    }
}

/// Converts to `i16` by `as`.
impl NumberCast<i16> for isize {
    open spec fn cast_spec(self) -> i16 {
        self as i16
    }

    fn number_cast(self) -> (r: i16) {
        self as i16
    }
}

/// Converts to `i32` by `as`.
impl NumberCast<i32> for isize {
    open spec fn cast_spec(self) -> i32 {
        self as i32
    }

    fn number_cast(self) -> (r: i32) {
        self as i32
    }
}

/// Converts to `i64` by `as`.
impl NumberCast<i64> for isize {
    open spec fn cast_spec(self) -> i64 {
        self as i64
    }

    fn number_cast(self) -> (r: i64) {
        self as i64
    }
}

/// Clamps negative values to zero, then converts to `usize` by `as`.
impl NumberCast<usize> for i8 {
    open spec fn cast_spec(self) -> usize {
        if self < 0 { 0usize } else { self as usize }
    }

    fn number_cast(self) -> (r: usize) {
        let clamped: i8 = if self < 0 { 0 } else { self };
        clamped as usize
    }
}

/// Clamps negative values to zero, then converts to `u8` by `as`.
impl NumberCast<u8> for i8 {
    open spec fn cast_spec(self) -> u8 {
        if self < 0 { 0u8 } else { self as u8 }
    }

    fn number_cast(self) -> (r: u8) {
        let clamped: i8 = if self < 0 { 0 } else { self };
        clamped as u8
    }
}

/// Clamps negative values to zero, then converts to `u16` by `as`.
impl NumberCast<u16> for i8 {
    open spec fn cast_spec(self) -> u16 {
        if self < 0 { 0u16 } else { self as u16 }
    }

    fn number_cast(self) -> (r: u16) {
        let clamped: i8 = if self < 0 { 0 } else { self };
        clamped as u16
    }
}

/// Clamps negative values to zero, then converts to `u32` by `as`.
impl NumberCast<u32> for i8 {
    open spec fn cast_spec(self) -> u32 {
        if self < 0 { 0u32 } else { self as u32 }
    }

    fn number_cast(self) -> (r: u32) {
        let clamped: i8 = if self < 0 { 0 } else { self };
        clamped as u32
    }
}

/// Clamps negative values to zero, then converts to `u64` by `as`.
impl NumberCast<u64> for i8 {
    open spec fn cast_spec(self) -> u64 {
        if self < 0 { 0u64 } else { self as u64 }
    }

    fn number_cast(self) -> (r: u64) {
        let clamped: i8 = if self < 0 { 0 } else { self };
        clamped as u64
    }
}

/// Converts to `isize` by `as`.
impl NumberCast<isize> for i8 {
    open spec fn cast_spec(self) -> isize {
        self as isize
    }

    fn number_cast(self) -> (r: isize) {
        self as isize
    }
}

/// Converts to `i16` by `as`.
impl NumberCast<i16> for i8 {
    open spec fn cast_spec(self) -> i16 {
        self as i16
    }

    fn number_cast(self) -> (r: i16) {
        self as i16
    }
}

/// Converts to `i32` by `as`.
impl NumberCast<i32> for i8 {
    open spec fn cast_spec(self) -> i32 {
        self as i32
    }

    fn number_cast(self) -> (r: i32) {
        self as i32
    }
}

/// Converts to `i64` by `as`.
impl NumberCast<i64> for i8 {
    open spec fn cast_spec(self) -> i64 {
        self as i64
    }

    fn number_cast(self) -> (r: i64) {
        self as i64
    }
}

/// Clamps negative values to zero, then converts to `usize` by `as`.
impl NumberCast<usize> for i16 {
    open spec fn cast_spec(self) -> usize {
        if self < 0 { 0usize } else { self as usize }
    }

    fn number_cast(self) -> (r: usize) {
        let clamped: i16 = if self < 0 { 0 } else { self };
        clamped as usize
    }
}

/// Clamps negative values to zero, then converts to `u8` by `as`.
impl NumberCast<u8> for i16 {
    open spec fn cast_spec(self) -> u8 {
        if self < 0 { 0u8 } else { self as u8 }
    }

    fn number_cast(self) -> (r: u8) {
        let clamped: i16 = if self < 0 { 0 } else { self };
        clamped as u8
    }
}

/// Clamps negative values to zero, then converts to `u16` by `as`.
impl NumberCast<u16> for i16 {
    open spec fn cast_spec(self) -> u16 {
        if self < 0 { 0u16 } else { self as u16 }
    }

    fn number_cast(self) -> (r: u16) {
        let clamped: i16 = if self < 0 { 0 } else { self };
        clamped as u16
    }
}

/// Clamps negative values to zero, then converts to `u32` by `as`.
impl NumberCast<u32> for i16 {
    open spec fn cast_spec(self) -> u32 {
        if self < 0 { 0u32 } else { self as u32 }
    }

    fn number_cast(self) -> (r: u32) {
        let clamped: i16 = if self < 0 { 0 } else { self };
        clamped as u32
    }
}

/// Clamps negative values to zero, then converts to `u64` by `as`.
impl NumberCast<u64> for i16 {
    open spec fn cast_spec(self) -> u64 {
        if self < 0 { 0u64 } else { self as u64 }
    }

    fn number_cast(self) -> (r: u64) {
        let clamped: i16 = if self < 0 { 0 } else { self };
        clamped as u64
    }
}

/// Converts to `isize` by `as`.
impl NumberCast<isize> for i16 {
    open spec fn cast_spec(self) -> isize {
        self as isize
    }

    fn number_cast(self) -> (r: isize) {
        self as isize
    }
}

/// Converts to `i8` by `as`.
impl NumberCast<i8> for i16 {
    open spec fn cast_spec(self) -> i8 {
        self as i8
    }

    fn number_cast(self) -> (r: i8) {
        self as i8
    }
}

/// Converts to `i32` by `as`.
impl NumberCast<i32> for i16 {
    open spec fn cast_spec(self) -> i32 {
        self as i32
    }

    fn number_cast(self) -> (r: i32) {
        self as i32
    }
}

/// Converts to `i64` by `as`.
impl NumberCast<i64> for i16 {
    open spec fn cast_spec(self) -> i64 {
        self as i64
    }

    fn number_cast(self) -> (r: i64) {
        self as i64
    }
}

/// Clamps negative values to zero, then converts to `usize` by `as`.
impl NumberCast<usize> for i32 {
    open spec fn cast_spec(self) -> usize {
        if self < 0 { 0usize } else { self as usize }
    }

    fn number_cast(self) -> (r: usize) {
        let clamped: i32 = if self < 0 { 0 } else { self };
        clamped as usize
    }
}

/// Clamps negative values to zero, then converts to `u8` by `as`.
impl NumberCast<u8> for i32 {
    open spec fn cast_spec(self) -> u8 {
        if self < 0 { 0u8 } else { self as u8 }
    }

    fn number_cast(self) -> (r: u8) {
        let clamped: i32 = if self < 0 { 0 } else { self };
        clamped as u8
    }
}

/// Clamps negative values to zero, then converts to `u16` by `as`.
impl NumberCast<u16> for i32 {
    open spec fn cast_spec(self) -> u16 {
        if self < 0 { 0u16 } else { self as u16 }
    }

    fn number_cast(self) -> (r: u16) {
        let clamped: i32 = if self < 0 { 0 } else { self };
        clamped as u16
    }
}

/// Clamps negative values to zero, then converts to `u32` by `as`.
impl NumberCast<u32> for i32 {
    open spec fn cast_spec(self) -> u32 {
        if self < 0 { 0u32 } else { self as u32 }
    }

    fn number_cast(self) -> (r: u32) {
        let clamped: i32 = if self < 0 { 0 } else { self };
        clamped as u32
    }
}

/// Clamps negative values to zero, then converts to `u64` by `as`.
impl NumberCast<u64> for i32 {
    open spec fn cast_spec(self) -> u64 {
        if self < 0 { 0u64 } else { self as u64 }
    }

    fn number_cast(self) -> (r: u64) {
        let clamped: i32 = if self < 0 { 0 } else { self };
        clamped as u64
    }
}

/// Converts to `isize` by `as`.
impl NumberCast<isize> for i32 {
    open spec fn cast_spec(self) -> isize {
        self as isize
    }

    fn number_cast(self) -> (r: isize) {
        self as isize
    }
}

/// Converts to `i8` by `as`.
impl NumberCast<i8> for i32 {
    open spec fn cast_spec(self) -> i8 {
        self as i8
    }

    fn number_cast(self) -> (r: i8) {
        self as i8
    }
}

/// Converts to `i16` by `as`.
impl NumberCast<i16> for i32 {
    open spec fn cast_spec(self) -> i16 {
        self as i16
    }

    fn number_cast(self) -> (r: i16) {
        self as i16
    }
}

/// Converts to `i64` by `as`.
impl NumberCast<i64> for i32 {
    open spec fn cast_spec(self) -> i64 {
        self as i64
    }

    fn number_cast(self) -> (r: i64) {
        self as i64
    }
}

/// Clamps negative values to zero, then converts to `usize` by `as`.
impl NumberCast<usize> for i64 {
    open spec fn cast_spec(self) -> usize {
        if self < 0 { 0usize } else { self as usize }
    }

    fn number_cast(self) -> (r: usize) {
        let clamped: i64 = if self < 0 { 0 } else { self };
        clamped as usize
    }
}

/// Clamps negative values to zero, then converts to `u8` by `as`.
impl NumberCast<u8> for i64 {
    open spec fn cast_spec(self) -> u8 {
        if self < 0 { 0u8 } else { self as u8 }
    }

    fn number_cast(self) -> (r: u8) {
        let clamped: i64 = if self < 0 { 0 } else { self };
        clamped as u8
    }
}

/// Clamps negative values to zero, then converts to `u16` by `as`.
impl NumberCast<u16> for i64 {
    open spec fn cast_spec(self) -> u16 {
        if self < 0 { 0u16 } else { self as u16 }
    }

    fn number_cast(self) -> (r: u16) {
        let clamped: i64 = if self < 0 { 0 } else { self };
        clamped as u16
    }
}

/// Clamps negative values to zero, then converts to `u32` by `as`.
impl NumberCast<u32> for i64 {
    open spec fn cast_spec(self) -> u32 {
        if self < 0 { 0u32 } else { self as u32 }
    }

    fn number_cast(self) -> (r: u32) {
        let clamped: i64 = if self < 0 { 0 } else { self };
        clamped as u32
    }
}

/// Clamps negative values to zero, then converts to `u64` by `as`.
impl NumberCast<u64> for i64 {
    open spec fn cast_spec(self) -> u64 {
        if self < 0 { 0u64 } else { self as u64 }
    }

    fn number_cast(self) -> (r: u64) {
        let clamped: i64 = if self < 0 { 0 } else { self };
        clamped as u64
    }
}

/// Converts to `isize` by `as`.
impl NumberCast<isize> for i64 {
    open spec fn cast_spec(self) -> isize {
        self as isize
    }

    fn number_cast(self) -> (r: isize) {
        self as isize
    }
}

/// Converts to `i8` by `as`.
impl NumberCast<i8> for i64 {
    open spec fn cast_spec(self) -> i8 {
        self as i8
    }

    fn number_cast(self) -> (r: i8) {
        self as i8
    }
}

/// Converts to `i16` by `as`.
impl NumberCast<i16> for i64 {
    open spec fn cast_spec(self) -> i16 {
        self as i16
    }

    fn number_cast(self) -> (r: i16) {
        self as i16
    }
}

/// Converts to `i32` by `as`.
impl NumberCast<i32> for i64 {
    open spec fn cast_spec(self) -> i32 {
        self as i32
    }

    fn number_cast(self) -> (r: i32) {
        self as i32
    }
}

} // verus!

verus! {

/// A `u8` read as an `i8` keeps its value up to `i8::MAX` and loses
/// 2^8 above it.
proof fn lemma_reinterpret_u8(x: u8)
    by (bit_vector)
    ensures
        x <= i8::MAX ==> (x as i8) == x,
        x > i8::MAX ==> (x as i8) == x - 256,
{
}

/// A `u16` read as an `i16` keeps its value up to `i16::MAX` and loses
/// 2^16 above it.
proof fn lemma_reinterpret_u16(x: u16)
    by (bit_vector)
    ensures
        x <= i16::MAX ==> (x as i16) == x,
        x > i16::MAX ==> (x as i16) == x - 65536,
{
}

/// A `u32` read as an `i32` keeps its value up to `i32::MAX` and loses
/// 2^32 above it.
proof fn lemma_reinterpret_u32(x: u32)
    by (bit_vector)
    ensures
        x <= i32::MAX ==> (x as i32) == x,
        x > i32::MAX ==> (x as i32) == x - 4294967296,
{
}

/// A `u64` read as an `i64` keeps its value up to `i64::MAX` and loses
/// 2^64 above it.
proof fn lemma_reinterpret_u64(x: u64)
    by (bit_vector)
    ensures
        x <= i64::MAX ==> (x as i64) == x,
        x > i64::MAX ==> (x as i64) == x - 18446744073709551616,
{
}

/// Casting a `usize` keeps its value wherever the target type can hold it;
/// to a signed type, values above `isize::MAX` are read as negative first.
pub proof fn law_cast_from_usize(n: usize)
    ensures
        n <= u8::MAX ==> <usize as NumberCast<u8>>::cast_spec(n) == n,
        n <= u16::MAX ==> <usize as NumberCast<u16>>::cast_spec(n) == n,
        n <= u32::MAX ==> <usize as NumberCast<u32>>::cast_spec(n) == n,
        n <= u64::MAX ==> <usize as NumberCast<u64>>::cast_spec(n) == n,
        n <= isize::MAX && n <= isize::MAX ==> <usize as NumberCast<isize>>::cast_spec(n) == n,
        n <= isize::MAX && n <= i8::MAX ==> <usize as NumberCast<i8>>::cast_spec(n) == n,
        n <= isize::MAX && n <= i16::MAX ==> <usize as NumberCast<i16>>::cast_spec(n) == n,
        n <= isize::MAX && n <= i32::MAX ==> <usize as NumberCast<i32>>::cast_spec(n) == n,
        n <= isize::MAX && n <= i64::MAX ==> <usize as NumberCast<i64>>::cast_spec(n) == n,
{
}

/// Casting a `u8` keeps its value wherever the target type can hold it;
/// to a signed type it is first read as an `i8`, so values above
/// `i8::MAX` become the value minus 2^8.
pub proof fn law_cast_from_u8(n: u8)
    ensures
        n <= usize::MAX ==> <u8 as NumberCast<usize>>::cast_spec(n) == n,
        n <= u16::MAX ==> <u8 as NumberCast<u16>>::cast_spec(n) == n,
        n <= u32::MAX ==> <u8 as NumberCast<u32>>::cast_spec(n) == n,
        n <= u64::MAX ==> <u8 as NumberCast<u64>>::cast_spec(n) == n,
        n <= i8::MAX && n <= isize::MAX ==> <u8 as NumberCast<isize>>::cast_spec(n) == n,
        n > i8::MAX && isize::MIN <= n - 256 ==> <u8 as NumberCast<isize>>::cast_spec(n) == n - 256,
        n <= i8::MAX && n <= i8::MAX ==> <u8 as NumberCast<i8>>::cast_spec(n) == n,
        n > i8::MAX && i8::MIN <= n - 256 ==> <u8 as NumberCast<i8>>::cast_spec(n) == n - 256,
        n <= i8::MAX && n <= i16::MAX ==> <u8 as NumberCast<i16>>::cast_spec(n) == n,
        n > i8::MAX && i16::MIN <= n - 256 ==> <u8 as NumberCast<i16>>::cast_spec(n) == n - 256,
        n <= i8::MAX && n <= i32::MAX ==> <u8 as NumberCast<i32>>::cast_spec(n) == n,
        n > i8::MAX && i32::MIN <= n - 256 ==> <u8 as NumberCast<i32>>::cast_spec(n) == n - 256,
        n <= i8::MAX && n <= i64::MAX ==> <u8 as NumberCast<i64>>::cast_spec(n) == n,
        n > i8::MAX && i64::MIN <= n - 256 ==> <u8 as NumberCast<i64>>::cast_spec(n) == n - 256,
{
    lemma_reinterpret_u8(n);
}

/// Casting a `u16` keeps its value wherever the target type can hold it;
/// to a signed type it is first read as an `i16`, so values above
/// `i16::MAX` become the value minus 2^16.
pub proof fn law_cast_from_u16(n: u16)
    ensures
        n <= usize::MAX ==> <u16 as NumberCast<usize>>::cast_spec(n) == n,
        n <= u8::MAX ==> <u16 as NumberCast<u8>>::cast_spec(n) == n,
        n <= u32::MAX ==> <u16 as NumberCast<u32>>::cast_spec(n) == n,
        n <= u64::MAX ==> <u16 as NumberCast<u64>>::cast_spec(n) == n,
        n <= i16::MAX && n <= isize::MAX ==> <u16 as NumberCast<isize>>::cast_spec(n) == n,
        n > i16::MAX && isize::MIN <= n - 65536 ==> <u16 as NumberCast<isize>>::cast_spec(n) == n - 65536,
        n <= i16::MAX && n <= i8::MAX ==> <u16 as NumberCast<i8>>::cast_spec(n) == n,
        n > i16::MAX && i8::MIN <= n - 65536 ==> <u16 as NumberCast<i8>>::cast_spec(n) == n - 65536,
        n <= i16::MAX && n <= i16::MAX ==> <u16 as NumberCast<i16>>::cast_spec(n) == n,
        n > i16::MAX && i16::MIN <= n - 65536 ==> <u16 as NumberCast<i16>>::cast_spec(n) == n - 65536,
        n <= i16::MAX && n <= i32::MAX ==> <u16 as NumberCast<i32>>::cast_spec(n) == n,
        n > i16::MAX && i32::MIN <= n - 65536 ==> <u16 as NumberCast<i32>>::cast_spec(n) == n - 65536,
        n <= i16::MAX && n <= i64::MAX ==> <u16 as NumberCast<i64>>::cast_spec(n) == n,
        n > i16::MAX && i64::MIN <= n - 65536 ==> <u16 as NumberCast<i64>>::cast_spec(n) == n - 65536,
{
    lemma_reinterpret_u16(n);
}

/// Casting a `u32` keeps its value wherever the target type can hold it;
/// to a signed type it is first read as an `i32`, so values above
/// `i32::MAX` become the value minus 2^32.
pub proof fn law_cast_from_u32(n: u32)
    ensures
        n <= usize::MAX ==> <u32 as NumberCast<usize>>::cast_spec(n) == n,
        n <= u8::MAX ==> <u32 as NumberCast<u8>>::cast_spec(n) == n,
        n <= u16::MAX ==> <u32 as NumberCast<u16>>::cast_spec(n) == n,
        n <= u64::MAX ==> <u32 as NumberCast<u64>>::cast_spec(n) == n,
        n <= i32::MAX && n <= isize::MAX ==> <u32 as NumberCast<isize>>::cast_spec(n) == n,
        n > i32::MAX && isize::MIN <= n - 4294967296 ==> <u32 as NumberCast<isize>>::cast_spec(n) == n - 4294967296,
        n <= i32::MAX && n <= i8::MAX ==> <u32 as NumberCast<i8>>::cast_spec(n) == n,
        n > i32::MAX && i8::MIN <= n - 4294967296 ==> <u32 as NumberCast<i8>>::cast_spec(n) == n - 4294967296,
        n <= i32::MAX && n <= i16::MAX ==> <u32 as NumberCast<i16>>::cast_spec(n) == n,
        n > i32::MAX && i16::MIN <= n - 4294967296 ==> <u32 as NumberCast<i16>>::cast_spec(n) == n - 4294967296,
        n <= i32::MAX && n <= i32::MAX ==> <u32 as NumberCast<i32>>::cast_spec(n) == n,
        n > i32::MAX && i32::MIN <= n - 4294967296 ==> <u32 as NumberCast<i32>>::cast_spec(n) == n - 4294967296,
        n <= i32::MAX && n <= i64::MAX ==> <u32 as NumberCast<i64>>::cast_spec(n) == n,
        n > i32::MAX && i64::MIN <= n - 4294967296 ==> <u32 as NumberCast<i64>>::cast_spec(n) == n - 4294967296,
{
    lemma_reinterpret_u32(n);
}

/// Casting a `u64` keeps its value wherever the target type can hold it;
/// to a signed type it is first read as an `i64`, so values above
/// `i64::MAX` become the value minus 2^64.
pub proof fn law_cast_from_u64(n: u64)
    ensures
        n <= usize::MAX ==> <u64 as NumberCast<usize>>::cast_spec(n) == n,
        n <= u8::MAX ==> <u64 as NumberCast<u8>>::cast_spec(n) == n,
        n <= u16::MAX ==> <u64 as NumberCast<u16>>::cast_spec(n) == n,
        n <= u32::MAX ==> <u64 as NumberCast<u32>>::cast_spec(n) == n,
        n <= i64::MAX && n <= isize::MAX ==> <u64 as NumberCast<isize>>::cast_spec(n) == n,
        n > i64::MAX && isize::MIN <= n - 18446744073709551616 ==> <u64 as NumberCast<isize>>::cast_spec(n) == n - 18446744073709551616,
        n <= i64::MAX && n <= i8::MAX ==> <u64 as NumberCast<i8>>::cast_spec(n) == n,
        n > i64::MAX && i8::MIN <= n - 18446744073709551616 ==> <u64 as NumberCast<i8>>::cast_spec(n) == n - 18446744073709551616,
        n <= i64::MAX && n <= i16::MAX ==> <u64 as NumberCast<i16>>::cast_spec(n) == n,
        n > i64::MAX && i16::MIN <= n - 18446744073709551616 ==> <u64 as NumberCast<i16>>::cast_spec(n) == n - 18446744073709551616,
        n <= i64::MAX && n <= i32::MAX ==> <u64 as NumberCast<i32>>::cast_spec(n) == n,
        n > i64::MAX && i32::MIN <= n - 18446744073709551616 ==> <u64 as NumberCast<i32>>::cast_spec(n) == n - 18446744073709551616,
        n <= i64::MAX && n <= i64::MAX ==> <u64 as NumberCast<i64>>::cast_spec(n) == n,
        n > i64::MAX && i64::MIN <= n - 18446744073709551616 ==> <u64 as NumberCast<i64>>::cast_spec(n) == n - 18446744073709551616,
{
    lemma_reinterpret_u64(n);
}

/// Casting an `isize` keeps its value wherever the target type can hold it,
/// and a negative value cast to an unsigned type becomes 0.
pub proof fn law_cast_from_isize(n: isize)
    ensures
        n < 0 ==> <isize as NumberCast<usize>>::cast_spec(n) == 0,
        0 <= n <= usize::MAX ==> <isize as NumberCast<usize>>::cast_spec(n) == n,
        n < 0 ==> <isize as NumberCast<u8>>::cast_spec(n) == 0,
        0 <= n <= u8::MAX ==> <isize as NumberCast<u8>>::cast_spec(n) == n,
        n < 0 ==> <isize as NumberCast<u16>>::cast_spec(n) == 0,
        0 <= n <= u16::MAX ==> <isize as NumberCast<u16>>::cast_spec(n) == n,
        n < 0 ==> <isize as NumberCast<u32>>::cast_spec(n) == 0,
        0 <= n <= u32::MAX ==> <isize as NumberCast<u32>>::cast_spec(n) == n,
        n < 0 ==> <isize as NumberCast<u64>>::cast_spec(n) == 0,
        0 <= n <= u64::MAX ==> <isize as NumberCast<u64>>::cast_spec(n) == n,
        i8::MIN <= n <= i8::MAX ==> <isize as NumberCast<i8>>::cast_spec(n) == n,
        i16::MIN <= n <= i16::MAX ==> <isize as NumberCast<i16>>::cast_spec(n) == n,
        i32::MIN <= n <= i32::MAX ==> <isize as NumberCast<i32>>::cast_spec(n) == n,
        i64::MIN <= n <= i64::MAX ==> <isize as NumberCast<i64>>::cast_spec(n) == n,
{
}

/// Casting an `i8` keeps its value wherever the target type can hold it,
/// and a negative value cast to an unsigned type becomes 0.
pub proof fn law_cast_from_i8(n: i8)
    ensures
        n < 0 ==> <i8 as NumberCast<usize>>::cast_spec(n) == 0,
        0 <= n <= usize::MAX ==> <i8 as NumberCast<usize>>::cast_spec(n) == n,
        n < 0 ==> <i8 as NumberCast<u8>>::cast_spec(n) == 0,
        0 <= n <= u8::MAX ==> <i8 as NumberCast<u8>>::cast_spec(n) == n,
        n < 0 ==> <i8 as NumberCast<u16>>::cast_spec(n) == 0,
        0 <= n <= u16::MAX ==> <i8 as NumberCast<u16>>::cast_spec(n) == n,
        n < 0 ==> <i8 as NumberCast<u32>>::cast_spec(n) == 0,
        0 <= n <= u32::MAX ==> <i8 as NumberCast<u32>>::cast_spec(n) == n,
        n < 0 ==> <i8 as NumberCast<u64>>::cast_spec(n) == 0,
        0 <= n <= u64::MAX ==> <i8 as NumberCast<u64>>::cast_spec(n) == n,
        isize::MIN <= n <= isize::MAX ==> <i8 as NumberCast<isize>>::cast_spec(n) == n,
        i16::MIN <= n <= i16::MAX ==> <i8 as NumberCast<i16>>::cast_spec(n) == n,
        i32::MIN <= n <= i32::MAX ==> <i8 as NumberCast<i32>>::cast_spec(n) == n,
        i64::MIN <= n <= i64::MAX ==> <i8 as NumberCast<i64>>::cast_spec(n) == n,
{
}

/// Casting an `i16` keeps its value wherever the target type can hold it,
/// and a negative value cast to an unsigned type becomes 0.
pub proof fn law_cast_from_i16(n: i16)
    ensures
        n < 0 ==> <i16 as NumberCast<usize>>::cast_spec(n) == 0,
        0 <= n <= usize::MAX ==> <i16 as NumberCast<usize>>::cast_spec(n) == n,
        n < 0 ==> <i16 as NumberCast<u8>>::cast_spec(n) == 0,
        0 <= n <= u8::MAX ==> <i16 as NumberCast<u8>>::cast_spec(n) == n,
        n < 0 ==> <i16 as NumberCast<u16>>::cast_spec(n) == 0,
        0 <= n <= u16::MAX ==> <i16 as NumberCast<u16>>::cast_spec(n) == n,
        n < 0 ==> <i16 as NumberCast<u32>>::cast_spec(n) == 0,
        0 <= n <= u32::MAX ==> <i16 as NumberCast<u32>>::cast_spec(n) == n,
        n < 0 ==> <i16 as NumberCast<u64>>::cast_spec(n) == 0,
        0 <= n <= u64::MAX ==> <i16 as NumberCast<u64>>::cast_spec(n) == n,
        isize::MIN <= n <= isize::MAX ==> <i16 as NumberCast<isize>>::cast_spec(n) == n,
        i8::MIN <= n <= i8::MAX ==> <i16 as NumberCast<i8>>::cast_spec(n) == n,
        i32::MIN <= n <= i32::MAX ==> <i16 as NumberCast<i32>>::cast_spec(n) == n,
        i64::MIN <= n <= i64::MAX ==> <i16 as NumberCast<i64>>::cast_spec(n) == n,
{
}

/// Casting an `i32` keeps its value wherever the target type can hold it,
/// and a negative value cast to an unsigned type becomes 0.
pub proof fn law_cast_from_i32(n: i32)
    ensures
        n < 0 ==> <i32 as NumberCast<usize>>::cast_spec(n) == 0,
        0 <= n <= usize::MAX ==> <i32 as NumberCast<usize>>::cast_spec(n) == n,
        n < 0 ==> <i32 as NumberCast<u8>>::cast_spec(n) == 0,
        0 <= n <= u8::MAX ==> <i32 as NumberCast<u8>>::cast_spec(n) == n,
        n < 0 ==> <i32 as NumberCast<u16>>::cast_spec(n) == 0,
        0 <= n <= u16::MAX ==> <i32 as NumberCast<u16>>::cast_spec(n) == n,
        n < 0 ==> <i32 as NumberCast<u32>>::cast_spec(n) == 0,
        0 <= n <= u32::MAX ==> <i32 as NumberCast<u32>>::cast_spec(n) == n,
        n < 0 ==> <i32 as NumberCast<u64>>::cast_spec(n) == 0,
        0 <= n <= u64::MAX ==> <i32 as NumberCast<u64>>::cast_spec(n) == n,
        isize::MIN <= n <= isize::MAX ==> <i32 as NumberCast<isize>>::cast_spec(n) == n,
        i8::MIN <= n <= i8::MAX ==> <i32 as NumberCast<i8>>::cast_spec(n) == n,
        i16::MIN <= n <= i16::MAX ==> <i32 as NumberCast<i16>>::cast_spec(n) == n,
        i64::MIN <= n <= i64::MAX ==> <i32 as NumberCast<i64>>::cast_spec(n) == n,
{
}

/// Casting an `i64` keeps its value wherever the target type can hold it,
/// and a negative value cast to an unsigned type becomes 0.
pub proof fn law_cast_from_i64(n: i64)
    ensures
        n < 0 ==> <i64 as NumberCast<usize>>::cast_spec(n) == 0,
        0 <= n <= usize::MAX ==> <i64 as NumberCast<usize>>::cast_spec(n) == n,
        n < 0 ==> <i64 as NumberCast<u8>>::cast_spec(n) == 0,
        0 <= n <= u8::MAX ==> <i64 as NumberCast<u8>>::cast_spec(n) == n,
        n < 0 ==> <i64 as NumberCast<u16>>::cast_spec(n) == 0,
        0 <= n <= u16::MAX ==> <i64 as NumberCast<u16>>::cast_spec(n) == n,
        n < 0 ==> <i64 as NumberCast<u32>>::cast_spec(n) == 0,
        0 <= n <= u32::MAX ==> <i64 as NumberCast<u32>>::cast_spec(n) == n,
        n < 0 ==> <i64 as NumberCast<u64>>::cast_spec(n) == 0,
        0 <= n <= u64::MAX ==> <i64 as NumberCast<u64>>::cast_spec(n) == n,
        isize::MIN <= n <= isize::MAX ==> <i64 as NumberCast<isize>>::cast_spec(n) == n,
        i8::MIN <= n <= i8::MAX ==> <i64 as NumberCast<i8>>::cast_spec(n) == n,
        i16::MIN <= n <= i16::MAX ==> <i64 as NumberCast<i16>>::cast_spec(n) == n,
        i32::MIN <= n <= i32::MAX ==> <i64 as NumberCast<i32>>::cast_spec(n) == n,
{
}

} // verus!
