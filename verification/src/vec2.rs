use vstd::prelude::*;
use vstd::std_specs::ops::{AddSpec, AddSpecImpl, DivSpec, DivSpecImpl, MulSpec, MulSpecImpl, NegSpec, NegSpecImpl, SubSpec, SubSpecImpl};
use vstd::std_specs::convert::FromSpecImpl;

use crate::num::{Number, NumberCast};

verus! {

/// A two-dimensional vector over any unit type.
#[derive(Clone, Copy, Debug, Default)]
pub struct Vec2<Unit> {
    pub x: Unit,
    pub y: Unit,
}

impl<Unit> Vec2<Unit> {
    /// Builds a vector from its two components.
    pub fn new(x: Unit, y: Unit) -> (r: Self)
        ensures
            r.x == x,
            r.y == y,
    {
        Self { x, y }
    }

    /// Builds a vector whose two components are both `n`.
    pub fn splat(n: Unit) -> (r: Self)
        where Unit: Copy,
        ensures
            r.x == n,
            r.y == n,
    {
        Self { x: n, y: n }
    }

    /// Replaces the `x` component and keeps `y`.
    pub fn set_x(self, x: Unit) -> (r: Self)
        ensures
            r.x == x,
            r.y == self.y,
    {
        Self { x, y: self.y }
    }

    /// Replaces the `y` component and keeps `x`.
    pub fn set_y(self, y: Unit) -> (r: Self)
        ensures
            r.x == self.x,
            r.y == y,
    {
        Self { x: self.x, y }
    }
}

impl<Unit: Copy> Vec2<Unit> {
    /// The vector `(x, x)`.
    pub fn xx(self) -> (r: Self)
        ensures
            r.x == self.x,
            r.y == self.x,
    {
        Self { x: self.x, y: self.x }
    }

    /// The vector whose two components are both taken from `x`: like `xx`,
    /// it does not read `y`.
    pub fn yy(self) -> (r: Self)
        ensures
            r.x == self.x,
            r.y == self.x,
    {
        Self { x: self.x, y: self.x }
    }
}

impl<Unit> From<(Unit, Unit)> for Vec2<Unit> {
    fn from(pair: (Unit, Unit)) -> (r: Self) {
        let (x, y) = pair;
        Self::new(x, y)
    }
}

impl<Unit> FromSpecImpl<(Unit, Unit)> for Vec2<Unit> {
    open spec fn obeys_from_spec() -> bool {
        true
    }

    open spec fn from_spec(pair: (Unit, Unit)) -> Self {
        Vec2 { x: pair.0, y: pair.1 }
    }
}

impl<Unit: Copy> From<[Unit; 2]> for Vec2<Unit> {
    fn from(pair: [Unit; 2]) -> (r: Self) {
        Self::new(pair[0], pair[1])
    }
}

impl<Unit: Copy> FromSpecImpl<[Unit; 2]> for Vec2<Unit> {
    open spec fn obeys_from_spec() -> bool {
        true
    }

    open spec fn from_spec(pair: [Unit; 2]) -> Self {
        Vec2 { x: pair@[0], y: pair@[1] }
    }
}
impl<Unit> Vec2<Unit> {
    /// Converts both components to `u8` by the `NumberCast` rule of `Unit`.
    pub fn as_u8(self) -> (r: Vec2<u8>)
        where Unit: Number + NumberCast<u8>,
        ensures
            r.x == self.x.cast_spec(),
            r.y == self.y.cast_spec(),
    {
        Vec2 { x: self.x.cast(), y: self.y.cast() }
    }

    /// Converts both components to `u16` by the `NumberCast` rule of `Unit`.
    pub fn as_u16(self) -> (r: Vec2<u16>)
        where Unit: Number + NumberCast<u16>,
        ensures
            r.x == self.x.cast_spec(),
            r.y == self.y.cast_spec(),
    {
        Vec2 { x: self.x.cast(), y: self.y.cast() }
    }

    /// Converts both components to `u32` by the `NumberCast` rule of `Unit`.
    pub fn as_u32(self) -> (r: Vec2<u32>)
        where Unit: Number + NumberCast<u32>,
        ensures
            r.x == self.x.cast_spec(),
            r.y == self.y.cast_spec(),
    {
        Vec2 { x: self.x.cast(), y: self.y.cast() }
    }

    /// Converts both components to `u64` by the `NumberCast` rule of `Unit`.
    pub fn as_u64(self) -> (r: Vec2<u64>)
        where Unit: Number + NumberCast<u64>,
        ensures
            r.x == self.x.cast_spec(),
            r.y == self.y.cast_spec(),
    {
        Vec2 { x: self.x.cast(), y: self.y.cast() }
    }

    /// Converts both components to `i8` by the `NumberCast` rule of `Unit`.
    pub fn as_i8(self) -> (r: Vec2<i8>)
        where Unit: Number + NumberCast<i8>,
        ensures
            r.x == self.x.cast_spec(),
            r.y == self.y.cast_spec(),
    {
        Vec2 { x: self.x.cast(), y: self.y.cast() }
    }

    /// Converts both components to `i16` by the `NumberCast` rule of `Unit`.
    pub fn as_i16(self) -> (r: Vec2<i16>)
        where Unit: Number + NumberCast<i16>,
        ensures
            r.x == self.x.cast_spec(),
            r.y == self.y.cast_spec(),
    {
        Vec2 { x: self.x.cast(), y: self.y.cast() }
    }

    /// Converts both components to `i32` by the `NumberCast` rule of `Unit`.
    pub fn as_i32(self) -> (r: Vec2<i32>)
        where Unit: Number + NumberCast<i32>,
        ensures
            r.x == self.x.cast_spec(),
            r.y == self.y.cast_spec(),
    {
        Vec2 { x: self.x.cast(), y: self.y.cast() }
    }

    /// Converts both components to `i64` by the `NumberCast` rule of `Unit`.
    pub fn as_i64(self) -> (r: Vec2<i64>)
        where Unit: Number + NumberCast<i64>,
        ensures
            r.x == self.x.cast_spec(),
            r.y == self.y.cast_spec(),
    {
        Vec2 { x: self.x.cast(), y: self.y.cast() }
    }

}

impl<Unit: core::ops::Neg> core::ops::Neg for Vec2<Unit> {
    type Output = Vec2<Unit::Output>;

    fn neg(self) -> (r: Self::Output) {
        Vec2 { x: self.x.neg(), y: self.y.neg() }
    }
}

impl<Unit: core::ops::Neg> NegSpecImpl for Vec2<Unit> {
    open spec fn obeys_neg_spec() -> bool {
        Unit::obeys_neg_spec()
    }

    open spec fn neg_req(self) -> bool {
        self.x.neg_req() && self.y.neg_req()
    }

    open spec fn neg_spec(self) -> Self::Output {
        Vec2 { x: self.x.neg_spec(), y: self.y.neg_spec() }
    }
}

impl<Unit: core::ops::Add> core::ops::Add for Vec2<Unit> {
    type Output = Vec2<Unit::Output>;

    fn add(self, rhs: Self) -> (r: Self::Output) {
        Vec2 { x: self.x + rhs.x, y: self.y + rhs.y }
    }
}

impl<Unit: core::ops::Add> AddSpecImpl for Vec2<Unit> {
    open spec fn obeys_add_spec() -> bool {
        Unit::obeys_add_spec()
    }

    open spec fn add_req(self, rhs: Self) -> bool {
        self.x.add_req(rhs.x) && self.y.add_req(rhs.y)
    }

    open spec fn add_spec(self, rhs: Self) -> Self::Output {
        Vec2 { x: self.x.add_spec(rhs.x), y: self.y.add_spec(rhs.y) }
    }
}

impl<Unit: core::ops::Add> core::ops::Add<(Unit, Unit)> for Vec2<Unit> {
    type Output = Vec2<Unit::Output>;

    fn add(self, rhs: (Unit, Unit)) -> (r: Self::Output) {
        Vec2 { x: self.x + rhs.0, y: self.y + rhs.1 }
    }
}

impl<Unit: core::ops::Add> AddSpecImpl<(Unit, Unit)> for Vec2<Unit> {
    open spec fn obeys_add_spec() -> bool {
        Unit::obeys_add_spec()
    }

    open spec fn add_req(self, rhs: (Unit, Unit)) -> bool {
        self.x.add_req(rhs.0) && self.y.add_req(rhs.1)
    }

    open spec fn add_spec(self, rhs: (Unit, Unit)) -> Self::Output {
        Vec2 { x: self.x.add_spec(rhs.0), y: self.y.add_spec(rhs.1) }
    }
}

impl<Unit: core::ops::Add + Copy> core::ops::Add<Unit> for Vec2<Unit> {
    type Output = Vec2<Unit::Output>;

    fn add(self, rhs: Unit) -> (r: Self::Output) {
        Vec2 { x: self.x + rhs, y: self.y + rhs }
    }
}

impl<Unit: core::ops::Add + Copy> AddSpecImpl<Unit> for Vec2<Unit> {
    open spec fn obeys_add_spec() -> bool {
        Unit::obeys_add_spec()
    }

    open spec fn add_req(self, rhs: Unit) -> bool {
        self.x.add_req(rhs) && self.y.add_req(rhs)
    }

    open spec fn add_spec(self, rhs: Unit) -> Self::Output {
        Vec2 { x: self.x.add_spec(rhs), y: self.y.add_spec(rhs) }
    }
}

impl<Unit: core::ops::Sub> core::ops::Sub for Vec2<Unit> {
    type Output = Vec2<Unit::Output>;

    fn sub(self, rhs: Self) -> (r: Self::Output) {
        Vec2 { x: self.x - rhs.x, y: self.y - rhs.y }
    }
}

impl<Unit: core::ops::Sub> SubSpecImpl for Vec2<Unit> {
    open spec fn obeys_sub_spec() -> bool {
        Unit::obeys_sub_spec()
    }

    open spec fn sub_req(self, rhs: Self) -> bool {
        self.x.sub_req(rhs.x) && self.y.sub_req(rhs.y)
    }

    open spec fn sub_spec(self, rhs: Self) -> Self::Output {
        Vec2 { x: self.x.sub_spec(rhs.x), y: self.y.sub_spec(rhs.y) }
    }
}

impl<Unit: core::ops::Sub> core::ops::Sub<(Unit, Unit)> for Vec2<Unit> {
    type Output = Vec2<Unit::Output>;

    fn sub(self, rhs: (Unit, Unit)) -> (r: Self::Output) {
        Vec2 { x: self.x - rhs.0, y: self.y - rhs.1 }
    }
}

impl<Unit: core::ops::Sub> SubSpecImpl<(Unit, Unit)> for Vec2<Unit> {
    open spec fn obeys_sub_spec() -> bool {
        Unit::obeys_sub_spec()
    }

    open spec fn sub_req(self, rhs: (Unit, Unit)) -> bool {
        self.x.sub_req(rhs.0) && self.y.sub_req(rhs.1)
    }

    open spec fn sub_spec(self, rhs: (Unit, Unit)) -> Self::Output {
        Vec2 { x: self.x.sub_spec(rhs.0), y: self.y.sub_spec(rhs.1) }
    }
}

impl<Unit: core::ops::Sub + Copy> core::ops::Sub<Unit> for Vec2<Unit> {
    type Output = Vec2<Unit::Output>;

    fn sub(self, rhs: Unit) -> (r: Self::Output) {
        Vec2 { x: self.x - rhs, y: self.y - rhs }
    }
}

impl<Unit: core::ops::Sub + Copy> SubSpecImpl<Unit> for Vec2<Unit> {
    open spec fn obeys_sub_spec() -> bool {
        Unit::obeys_sub_spec()
    }

    open spec fn sub_req(self, rhs: Unit) -> bool {
        self.x.sub_req(rhs) && self.y.sub_req(rhs)
    }

    open spec fn sub_spec(self, rhs: Unit) -> Self::Output {
        Vec2 { x: self.x.sub_spec(rhs), y: self.y.sub_spec(rhs) }
    }
}

impl<Unit: core::ops::Mul> core::ops::Mul for Vec2<Unit> {
    type Output = Vec2<Unit::Output>;

    fn mul(self, rhs: Self) -> (r: Self::Output) {
        Vec2 { x: self.x * rhs.x, y: self.y * rhs.y }
    }
}

impl<Unit: core::ops::Mul> MulSpecImpl for Vec2<Unit> {
    open spec fn obeys_mul_spec() -> bool {
        Unit::obeys_mul_spec()
    }

    open spec fn mul_req(self, rhs: Self) -> bool {
        self.x.mul_req(rhs.x) && self.y.mul_req(rhs.y)
    }

    open spec fn mul_spec(self, rhs: Self) -> Self::Output {
        Vec2 { x: self.x.mul_spec(rhs.x), y: self.y.mul_spec(rhs.y) }
    }
}

impl<Unit: core::ops::Mul> core::ops::Mul<(Unit, Unit)> for Vec2<Unit> {
    type Output = Vec2<Unit::Output>;

    fn mul(self, rhs: (Unit, Unit)) -> (r: Self::Output) {
        Vec2 { x: self.x * rhs.0, y: self.y * rhs.1 }
    }
}

impl<Unit: core::ops::Mul> MulSpecImpl<(Unit, Unit)> for Vec2<Unit> {
    open spec fn obeys_mul_spec() -> bool {
        Unit::obeys_mul_spec()
    }

    open spec fn mul_req(self, rhs: (Unit, Unit)) -> bool {
        self.x.mul_req(rhs.0) && self.y.mul_req(rhs.1)
    }

    open spec fn mul_spec(self, rhs: (Unit, Unit)) -> Self::Output {
        Vec2 { x: self.x.mul_spec(rhs.0), y: self.y.mul_spec(rhs.1) }
    }
}

impl<Unit: core::ops::Mul + Copy> core::ops::Mul<Unit> for Vec2<Unit> {
    type Output = Vec2<Unit::Output>;

    fn mul(self, rhs: Unit) -> (r: Self::Output) {
        Vec2 { x: self.x * rhs, y: self.y * rhs }
    }
}

impl<Unit: core::ops::Mul + Copy> MulSpecImpl<Unit> for Vec2<Unit> {
    open spec fn obeys_mul_spec() -> bool {
        Unit::obeys_mul_spec()
    }

    open spec fn mul_req(self, rhs: Unit) -> bool {
        self.x.mul_req(rhs) && self.y.mul_req(rhs)
    }

    open spec fn mul_spec(self, rhs: Unit) -> Self::Output {
        Vec2 { x: self.x.mul_spec(rhs), y: self.y.mul_spec(rhs) }
    }
}

impl<Unit: core::ops::Div> core::ops::Div for Vec2<Unit> {
    type Output = Vec2<Unit::Output>;

    fn div(self, rhs: Self) -> (r: Self::Output) {
        Vec2 { x: self.x / rhs.x, y: self.y / rhs.y }
    }
}

impl<Unit: core::ops::Div> DivSpecImpl for Vec2<Unit> {
    open spec fn obeys_div_spec() -> bool {
        Unit::obeys_div_spec()
    }

    open spec fn div_req(self, rhs: Self) -> bool {
        self.x.div_req(rhs.x) && self.y.div_req(rhs.y)
    }

    open spec fn div_spec(self, rhs: Self) -> Self::Output {
        Vec2 { x: self.x.div_spec(rhs.x), y: self.y.div_spec(rhs.y) }
    }
}

impl<Unit: core::ops::Div> core::ops::Div<(Unit, Unit)> for Vec2<Unit> {
    type Output = Vec2<Unit::Output>;

    fn div(self, rhs: (Unit, Unit)) -> (r: Self::Output) {
        Vec2 { x: self.x / rhs.0, y: self.y / rhs.1 }
    }
}

impl<Unit: core::ops::Div> DivSpecImpl<(Unit, Unit)> for Vec2<Unit> {
    open spec fn obeys_div_spec() -> bool {
        Unit::obeys_div_spec()
    }

    open spec fn div_req(self, rhs: (Unit, Unit)) -> bool {
        self.x.div_req(rhs.0) && self.y.div_req(rhs.1)
    }

    open spec fn div_spec(self, rhs: (Unit, Unit)) -> Self::Output {
        Vec2 { x: self.x.div_spec(rhs.0), y: self.y.div_spec(rhs.1) }
    }
}

impl<Unit: core::ops::Div + Copy> core::ops::Div<Unit> for Vec2<Unit> {
    type Output = Vec2<Unit::Output>;

    fn div(self, rhs: Unit) -> (r: Self::Output) {
        Vec2 { x: self.x / rhs, y: self.y / rhs }
    }
}

impl<Unit: core::ops::Div + Copy> DivSpecImpl<Unit> for Vec2<Unit> {
    open spec fn obeys_div_spec() -> bool {
        Unit::obeys_div_spec()
    }

    open spec fn div_req(self, rhs: Unit) -> bool {
        self.x.div_req(rhs) && self.y.div_req(rhs)
    }

    open spec fn div_spec(self, rhs: Unit) -> Self::Output {
        Vec2 { x: self.x.div_spec(rhs), y: self.y.div_spec(rhs) }
    }
}

impl<Unit: Copy> Vec2<Unit> {
    /// `self = self + rhs`, component by component.
    pub fn add_assign(&mut self, rhs: Self)
        where Unit: core::ops::Add<Output = Unit>,
        requires
            old(self).x.add_req(rhs.x),
            old(self).y.add_req(rhs.y),
        ensures
            Unit::obeys_add_spec() ==> final(self).x == old(self).x.add_spec(rhs.x),
            Unit::obeys_add_spec() ==> final(self).y == old(self).y.add_spec(rhs.y),
    {
        self.x = self.x + rhs.x;
        self.y = self.y + rhs.y;
    }

    /// `self = self + (rhs, rhs)`, component by component.
    pub fn add_assign_scalar(&mut self, rhs: Unit)
        where Unit: core::ops::Add<Output = Unit>,
        requires
            old(self).x.add_req(rhs),
            old(self).y.add_req(rhs),
        ensures
            Unit::obeys_add_spec() ==> final(self).x == old(self).x.add_spec(rhs),
            Unit::obeys_add_spec() ==> final(self).y == old(self).y.add_spec(rhs),
    {
        self.x = self.x + rhs;
        self.y = self.y + rhs;
    }

    /// `self = self - rhs`, component by component.
    pub fn sub_assign(&mut self, rhs: Self)
        where Unit: core::ops::Sub<Output = Unit>,
        requires
            old(self).x.sub_req(rhs.x),
            old(self).y.sub_req(rhs.y),
        ensures
            Unit::obeys_sub_spec() ==> final(self).x == old(self).x.sub_spec(rhs.x),
            Unit::obeys_sub_spec() ==> final(self).y == old(self).y.sub_spec(rhs.y),
    {
        self.x = self.x - rhs.x;
        self.y = self.y - rhs.y;
    }

    /// `self = self - (rhs, rhs)`, component by component.
    pub fn sub_assign_scalar(&mut self, rhs: Unit)
        where Unit: core::ops::Sub<Output = Unit>,
        requires
            old(self).x.sub_req(rhs),
            old(self).y.sub_req(rhs),
        ensures
            Unit::obeys_sub_spec() ==> final(self).x == old(self).x.sub_spec(rhs),
            Unit::obeys_sub_spec() ==> final(self).y == old(self).y.sub_spec(rhs),
    {
        self.x = self.x - rhs;
        self.y = self.y - rhs;
    }

    /// `self = self * rhs`, component by component.
    pub fn mul_assign(&mut self, rhs: Self)
        where Unit: core::ops::Mul<Output = Unit>,
        requires
            old(self).x.mul_req(rhs.x),
            old(self).y.mul_req(rhs.y),
        ensures
            Unit::obeys_mul_spec() ==> final(self).x == old(self).x.mul_spec(rhs.x),
            Unit::obeys_mul_spec() ==> final(self).y == old(self).y.mul_spec(rhs.y),
    {
        self.x = self.x * rhs.x;
        self.y = self.y * rhs.y;
    }

    /// `self = self * (rhs, rhs)`, component by component.
    pub fn mul_assign_scalar(&mut self, rhs: Unit)
        where Unit: core::ops::Mul<Output = Unit>,
        requires
            old(self).x.mul_req(rhs),
            old(self).y.mul_req(rhs),
        ensures
            Unit::obeys_mul_spec() ==> final(self).x == old(self).x.mul_spec(rhs),
            Unit::obeys_mul_spec() ==> final(self).y == old(self).y.mul_spec(rhs),
    {
        self.x = self.x * rhs;
        self.y = self.y * rhs;
    }

    /// `self = self / rhs`, component by component.
    pub fn div_assign(&mut self, rhs: Self)
        where Unit: core::ops::Div<Output = Unit>,
        requires
            old(self).x.div_req(rhs.x),
            old(self).y.div_req(rhs.y),
        ensures
            Unit::obeys_div_spec() ==> final(self).x == old(self).x.div_spec(rhs.x),
            Unit::obeys_div_spec() ==> final(self).y == old(self).y.div_spec(rhs.y),
    {
        self.x = self.x / rhs.x;
        self.y = self.y / rhs.y;
    }

    /// `self = self / (rhs, rhs)`, component by component.
    pub fn div_assign_scalar(&mut self, rhs: Unit)
        where Unit: core::ops::Div<Output = Unit>,
        requires
            old(self).x.div_req(rhs),
            old(self).y.div_req(rhs),
        ensures
            Unit::obeys_div_spec() ==> final(self).x == old(self).x.div_spec(rhs),
            Unit::obeys_div_spec() ==> final(self).y == old(self).y.div_spec(rhs),
    {
        self.x = self.x / rhs;
        self.y = self.y / rhs;
    }

}

/// `std::num::Saturating`, whose one public field is the wrapped value.
#[verifier::external_type_specification]
#[verifier::reject_recursive_types(T)]
pub struct ExSaturating<T>(core::num::Saturating<T>);

/// The vector with both components wrapped for saturating arithmetic.
pub open spec fn saturated<Unit>(v: Vec2<Unit>) -> Vec2<core::num::Saturating<Unit>> {
    Vec2 { x: core::num::Saturating(v.x), y: core::num::Saturating(v.y) }
}

/// The vector with both saturating components unwrapped.
pub open spec fn unsaturated<Unit>(v: Vec2<core::num::Saturating<Unit>>) -> Vec2<Unit> {
    Vec2 { x: v.x.0, y: v.y.0 }
}

impl<Unit> Vec2<core::num::Saturating<Unit>> {
    /// Unwraps both components of a saturating vector.
    pub fn unsaturate(self) -> (r: Vec2<Unit>)
        ensures
            r == unsaturated(self),
            r.x == self.x.0,
            r.y == self.y.0,
    {
        Vec2 { x: self.x.0, y: self.y.0 }
    }
}

impl<Unit> Vec2<Unit> {
    /// Wraps both components so that arithmetic on the result saturates.
    pub fn saturate(self) -> (r: Vec2<core::num::Saturating<Unit>>)
        ensures
            r == saturated(self),
            r.x.0 == self.x,
            r.y.0 == self.y,
    {
        Vec2 { x: core::num::Saturating(self.x), y: core::num::Saturating(self.y) }
    }
}

/// Unwrapping a saturated vector gives back the vector that was wrapped, and
/// wrapping an unwrapped one gives back the saturating vector.
pub proof fn lemma_saturate_roundtrip<Unit>(v: Vec2<Unit>, s: Vec2<core::num::Saturating<Unit>>)
    ensures
        unsaturated(saturated(v)) == v,
        saturated(unsaturated(s)) == s,
{
}

/// The sum of two vectors, of a vector and a pair, and of a vector and a
/// scalar acts on each component separately: `x` with `x` (or the pair's
/// first part, or the scalar) and `y` with `y` (or the second part, or the
/// scalar). It may be taken exactly where both component operations may, and
/// it follows its spec exactly when `Unit`'s operation does.
pub proof fn law_vec2_add_componentwise<Unit: core::ops::Add + Copy>(
    v: Vec2<Unit>,
    w: Vec2<Unit>,
    p: (Unit, Unit),
    s: Unit,
)
    ensures
        <Vec2<Unit> as AddSpec>::obeys_add_spec() == <Unit as AddSpec>::obeys_add_spec(),
        <Vec2<Unit> as AddSpec>::add_req(v, w) == (v.x.add_req(w.x) && v.y.add_req(w.y)),
        <Vec2<Unit> as AddSpec>::add_spec(v, w).x == v.x.add_spec(w.x),
        <Vec2<Unit> as AddSpec>::add_spec(v, w).y == v.y.add_spec(w.y),
        <Vec2<Unit> as AddSpec<(Unit, Unit)>>::obeys_add_spec() == <Unit as AddSpec>::obeys_add_spec(),
        <Vec2<Unit> as AddSpec<(Unit, Unit)>>::add_req(v, p) == (v.x.add_req(p.0) && v.y.add_req(p.1)),
        <Vec2<Unit> as AddSpec<(Unit, Unit)>>::add_spec(v, p).x == v.x.add_spec(p.0),
        <Vec2<Unit> as AddSpec<(Unit, Unit)>>::add_spec(v, p).y == v.y.add_spec(p.1),
        <Vec2<Unit> as AddSpec<Unit>>::obeys_add_spec() == <Unit as AddSpec>::obeys_add_spec(),
        <Vec2<Unit> as AddSpec<Unit>>::add_req(v, s) == (v.x.add_req(s) && v.y.add_req(s)),
        <Vec2<Unit> as AddSpec<Unit>>::add_spec(v, s).x == v.x.add_spec(s),
        <Vec2<Unit> as AddSpec<Unit>>::add_spec(v, s).y == v.y.add_spec(s),
{
}


/// The difference of two vectors, of a vector and a pair, and of a vector and a
/// scalar acts on each component separately: `x` with `x` (or the pair's
/// first part, or the scalar) and `y` with `y` (or the second part, or the
/// scalar). It may be taken exactly where both component operations may, and
/// it follows its spec exactly when `Unit`'s operation does.
pub proof fn law_vec2_sub_componentwise<Unit: core::ops::Sub + Copy>(
    v: Vec2<Unit>,
    w: Vec2<Unit>,
    p: (Unit, Unit),
    s: Unit,
)
    ensures
        <Vec2<Unit> as SubSpec>::obeys_sub_spec() == <Unit as SubSpec>::obeys_sub_spec(),
        <Vec2<Unit> as SubSpec>::sub_req(v, w) == (v.x.sub_req(w.x) && v.y.sub_req(w.y)),
        <Vec2<Unit> as SubSpec>::sub_spec(v, w).x == v.x.sub_spec(w.x),
        <Vec2<Unit> as SubSpec>::sub_spec(v, w).y == v.y.sub_spec(w.y),
        <Vec2<Unit> as SubSpec<(Unit, Unit)>>::obeys_sub_spec() == <Unit as SubSpec>::obeys_sub_spec(),
        <Vec2<Unit> as SubSpec<(Unit, Unit)>>::sub_req(v, p) == (v.x.sub_req(p.0) && v.y.sub_req(p.1)),
        <Vec2<Unit> as SubSpec<(Unit, Unit)>>::sub_spec(v, p).x == v.x.sub_spec(p.0),
        <Vec2<Unit> as SubSpec<(Unit, Unit)>>::sub_spec(v, p).y == v.y.sub_spec(p.1),
        <Vec2<Unit> as SubSpec<Unit>>::obeys_sub_spec() == <Unit as SubSpec>::obeys_sub_spec(),
        <Vec2<Unit> as SubSpec<Unit>>::sub_req(v, s) == (v.x.sub_req(s) && v.y.sub_req(s)),
        <Vec2<Unit> as SubSpec<Unit>>::sub_spec(v, s).x == v.x.sub_spec(s),
        <Vec2<Unit> as SubSpec<Unit>>::sub_spec(v, s).y == v.y.sub_spec(s),
{
}


/// The product of two vectors, of a vector and a pair, and of a vector and a
/// scalar acts on each component separately: `x` with `x` (or the pair's
/// first part, or the scalar) and `y` with `y` (or the second part, or the
/// scalar). It may be taken exactly where both component operations may, and
/// it follows its spec exactly when `Unit`'s operation does.
pub proof fn law_vec2_mul_componentwise<Unit: core::ops::Mul + Copy>(
    v: Vec2<Unit>,
    w: Vec2<Unit>,
    p: (Unit, Unit),
    s: Unit,
)
    ensures
        <Vec2<Unit> as MulSpec>::obeys_mul_spec() == <Unit as MulSpec>::obeys_mul_spec(),
        <Vec2<Unit> as MulSpec>::mul_req(v, w) == (v.x.mul_req(w.x) && v.y.mul_req(w.y)),
        <Vec2<Unit> as MulSpec>::mul_spec(v, w).x == v.x.mul_spec(w.x),
        <Vec2<Unit> as MulSpec>::mul_spec(v, w).y == v.y.mul_spec(w.y),
        <Vec2<Unit> as MulSpec<(Unit, Unit)>>::obeys_mul_spec() == <Unit as MulSpec>::obeys_mul_spec(),
        <Vec2<Unit> as MulSpec<(Unit, Unit)>>::mul_req(v, p) == (v.x.mul_req(p.0) && v.y.mul_req(p.1)),
        <Vec2<Unit> as MulSpec<(Unit, Unit)>>::mul_spec(v, p).x == v.x.mul_spec(p.0),
        <Vec2<Unit> as MulSpec<(Unit, Unit)>>::mul_spec(v, p).y == v.y.mul_spec(p.1),
        <Vec2<Unit> as MulSpec<Unit>>::obeys_mul_spec() == <Unit as MulSpec>::obeys_mul_spec(),
        <Vec2<Unit> as MulSpec<Unit>>::mul_req(v, s) == (v.x.mul_req(s) && v.y.mul_req(s)),
        <Vec2<Unit> as MulSpec<Unit>>::mul_spec(v, s).x == v.x.mul_spec(s),
        <Vec2<Unit> as MulSpec<Unit>>::mul_spec(v, s).y == v.y.mul_spec(s),
{
}


/// The quotient of two vectors, of a vector and a pair, and of a vector and a
/// scalar acts on each component separately: `x` with `x` (or the pair's
/// first part, or the scalar) and `y` with `y` (or the second part, or the
/// scalar). It may be taken exactly where both component operations may, and
/// it follows its spec exactly when `Unit`'s operation does.
pub proof fn law_vec2_div_componentwise<Unit: core::ops::Div + Copy>(
    v: Vec2<Unit>,
    w: Vec2<Unit>,
    p: (Unit, Unit),
    s: Unit,
)
    ensures
        <Vec2<Unit> as DivSpec>::obeys_div_spec() == <Unit as DivSpec>::obeys_div_spec(),
        <Vec2<Unit> as DivSpec>::div_req(v, w) == (v.x.div_req(w.x) && v.y.div_req(w.y)),
        <Vec2<Unit> as DivSpec>::div_spec(v, w).x == v.x.div_spec(w.x),
        <Vec2<Unit> as DivSpec>::div_spec(v, w).y == v.y.div_spec(w.y),
        <Vec2<Unit> as DivSpec<(Unit, Unit)>>::obeys_div_spec() == <Unit as DivSpec>::obeys_div_spec(),
        <Vec2<Unit> as DivSpec<(Unit, Unit)>>::div_req(v, p) == (v.x.div_req(p.0) && v.y.div_req(p.1)),
        <Vec2<Unit> as DivSpec<(Unit, Unit)>>::div_spec(v, p).x == v.x.div_spec(p.0),
        <Vec2<Unit> as DivSpec<(Unit, Unit)>>::div_spec(v, p).y == v.y.div_spec(p.1),
        <Vec2<Unit> as DivSpec<Unit>>::obeys_div_spec() == <Unit as DivSpec>::obeys_div_spec(),
        <Vec2<Unit> as DivSpec<Unit>>::div_req(v, s) == (v.x.div_req(s) && v.y.div_req(s)),
        <Vec2<Unit> as DivSpec<Unit>>::div_spec(v, s).x == v.x.div_spec(s),
        <Vec2<Unit> as DivSpec<Unit>>::div_spec(v, s).y == v.y.div_spec(s),
{
}


/// Negating a vector negates each component in place; it may be taken
/// exactly where both component negations may, and it follows its spec
/// exactly when `Unit`'s negation does.
pub proof fn law_vec2_neg_componentwise<Unit: core::ops::Neg>(v: Vec2<Unit>)
    ensures
        <Vec2<Unit> as NegSpec>::obeys_neg_spec() == <Unit as NegSpec>::obeys_neg_spec(),
        <Vec2<Unit> as NegSpec>::neg_req(v) == (v.x.neg_req() && v.y.neg_req()),
        <Vec2<Unit> as NegSpec>::neg_spec(v).x == v.x.neg_spec(),
        <Vec2<Unit> as NegSpec>::neg_spec(v).y == v.y.neg_spec(),
{
}

/// Wrapping keeps each component in place, and unwrapping gives back the
/// wrapped value of each component in place.
pub proof fn law_saturate_in_place<Unit>(v: Vec2<Unit>, s: Vec2<core::num::Saturating<Unit>>)
    ensures
        saturated(v).x.0 == v.x,
        saturated(v).y.0 == v.y,
        unsaturated(s).x == s.x.0,
        unsaturated(s).y == s.y.0,
{
}

/// Building a vector from a pair or a two-element array keeps the order of
/// the parts: the first becomes `x`, the second `y`.
pub proof fn law_vec2_from_parts_in_order<Unit: Copy>(p: (Unit, Unit), a: [Unit; 2])
    ensures
        <Vec2<Unit> as vstd::std_specs::convert::FromSpec<(Unit, Unit)>>::from_spec(p).x == p.0,
        <Vec2<Unit> as vstd::std_specs::convert::FromSpec<(Unit, Unit)>>::from_spec(p).y == p.1,
        <Vec2<Unit> as vstd::std_specs::convert::FromSpec<[Unit; 2]>>::from_spec(a).x == a@[0],
        <Vec2<Unit> as vstd::std_specs::convert::FromSpec<[Unit; 2]>>::from_spec(a).y == a@[1],
{
}

} // verus!
