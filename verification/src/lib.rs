//! A small arcade-game core: a staged, randomised explosion effect made of
//! timed particles, the ranges that drive it, and the play/pause state of
//! the game around it.
//!
//! All scalar quantities are fixed-point numbers, see [`fixed`].

pub mod alive;
pub mod buildable;
pub mod color;
pub mod drawable;
pub mod editor;
pub mod fixed;
pub mod game_data;
pub mod minmax;
pub mod particle;
pub mod preview;
mod random;
pub mod retro_camera;
pub mod state;
pub mod timers;
pub mod updateable;

use crate::fixed::{plus, times, ONE};
use vstd::prelude::*;
use vstd::std_specs::convert::FromSpecImpl;
use vstd::std_specs::ops::{AddSpecImpl, MulSpecImpl};

verus! {

/// The centre of a shape, in game coordinates.
#[derive(Debug, Clone, Copy, PartialEq, Eq, Structural)]
pub struct CenterPt(pub i32, pub i32);

/// The top left corner of a shape.
#[derive(Debug, Clone, Copy, PartialEq, Eq, Structural)]
pub struct TopLeftPt(pub i32, pub i32);

/// The bottom right corner of a shape.
#[derive(Debug, Clone, Copy, PartialEq, Eq, Structural)]
pub struct BottomRightPt(pub i32, pub i32);

/// A width and a height, or an offset.
#[derive(Debug, Clone, Copy, PartialEq, Eq, Structural)]
pub struct Size(pub i32, pub i32);

/// Distance covered per second, along each axis.
#[derive(Debug, Clone, Copy, PartialEq, Eq, Structural)]
pub struct Velocity(pub i32, pub i32);

/// A factor applied to a velocity, along each axis.
#[derive(Debug, Clone, Copy, PartialEq, Eq, Structural)]
pub struct Accel(pub i32, pub i32);

impl CenterPt {
    pub fn new(x: i32, y: i32) -> (r: Self)
        ensures
            r == CenterPt(x, y),
    {
        Self(x, y)
    }

    pub fn get(&self) -> (r: (i32, i32))
        ensures
            r == (self.0, self.1),
    {
        (self.0, self.1)
    }
}

impl Default for CenterPt {
    /// Both components are zero.
    fn default() -> (r: Self)
        ensures
            r == CenterPt(0, 0),
    {
        Self(0, 0)
    }
}

impl From<(i32, i32)> for CenterPt {
    fn from(value: (i32, i32)) -> (r: Self)
        ensures
            r.0 == value.0,
            r.1 == value.1,
    {
        Self(value.0, value.1)
    }
}

impl FromSpecImpl<(i32, i32)> for CenterPt {
    open spec fn obeys_from_spec() -> bool {
        true
    }

    open spec fn from_spec(value: (i32, i32)) -> Self {
        CenterPt(value.0, value.1)
    }
}

impl From<CenterPt> for (i32, i32) {
    fn from(value: CenterPt) -> (r: Self)
        ensures
            r == (value.0, value.1),
    {
        (value.0, value.1)
    }
}

impl FromSpecImpl<CenterPt> for (i32, i32) {
    open spec fn obeys_from_spec() -> bool {
        true
    }

    open spec fn from_spec(value: CenterPt) -> Self {
        (value.0, value.1)
    }
}

impl TopLeftPt {
    pub fn new(x: i32, y: i32) -> (r: Self)
        ensures
            r == TopLeftPt(x, y),
    {
        Self(x, y)
    }

    pub fn get(&self) -> (r: (i32, i32))
        ensures
            r == (self.0, self.1),
    {
        (self.0, self.1)
    }
}

impl Default for TopLeftPt {
    /// Both components are zero.
    fn default() -> (r: Self)
        ensures
            r == TopLeftPt(0, 0),
    {
        Self(0, 0)
    }
}

impl From<(i32, i32)> for TopLeftPt {
    fn from(value: (i32, i32)) -> (r: Self)
        ensures
            r.0 == value.0,
            r.1 == value.1,
    {
        Self(value.0, value.1)
    }
}

impl FromSpecImpl<(i32, i32)> for TopLeftPt {
    open spec fn obeys_from_spec() -> bool {
        true
    }

    open spec fn from_spec(value: (i32, i32)) -> Self {
        TopLeftPt(value.0, value.1)
    }
}

impl From<TopLeftPt> for (i32, i32) {
    fn from(value: TopLeftPt) -> (r: Self)
        ensures
            r == (value.0, value.1),
    {
        (value.0, value.1)
    }
}

impl FromSpecImpl<TopLeftPt> for (i32, i32) {
    open spec fn obeys_from_spec() -> bool {
        true
    }

    open spec fn from_spec(value: TopLeftPt) -> Self {
        (value.0, value.1)
    }
}

impl BottomRightPt {
    pub fn new(x: i32, y: i32) -> (r: Self)
        ensures
            r == BottomRightPt(x, y),
    {
        Self(x, y)
    }

    pub fn get(&self) -> (r: (i32, i32))
        ensures
            r == (self.0, self.1),
    {
        (self.0, self.1)
    }
}

impl Default for BottomRightPt {
    /// Both components are zero.
    fn default() -> (r: Self)
        ensures
            r == BottomRightPt(0, 0),
    {
        Self(0, 0)
    }
}

impl From<(i32, i32)> for BottomRightPt {
    fn from(value: (i32, i32)) -> (r: Self)
        ensures
            r.0 == value.0,
            r.1 == value.1,
    {
        Self(value.0, value.1)
    }
}

impl FromSpecImpl<(i32, i32)> for BottomRightPt {
    open spec fn obeys_from_spec() -> bool {
        true
    }

    open spec fn from_spec(value: (i32, i32)) -> Self {
        BottomRightPt(value.0, value.1)
    }
}

impl From<BottomRightPt> for (i32, i32) {
    fn from(value: BottomRightPt) -> (r: Self)
        ensures
            r == (value.0, value.1),
    {
        (value.0, value.1)
    }
}

impl FromSpecImpl<BottomRightPt> for (i32, i32) {
    open spec fn obeys_from_spec() -> bool {
        true
    }

    open spec fn from_spec(value: BottomRightPt) -> Self {
        (value.0, value.1)
    }
}

impl Size {
    pub fn new(x: i32, y: i32) -> (r: Self)
        ensures
            r == Size(x, y),
    {
        Self(x, y)
    }

    pub fn get(&self) -> (r: (i32, i32))
        ensures
            r == (self.0, self.1),
    {
        (self.0, self.1)
    }
}

impl Default for Size {
    /// Both components are zero.
    fn default() -> (r: Self)
        ensures
            r == Size(0, 0),
    {
        Self(0, 0)
    }
}

impl From<(i32, i32)> for Size {
    fn from(value: (i32, i32)) -> (r: Self)
        ensures
            r.0 == value.0,
            r.1 == value.1,
    {
        Self(value.0, value.1)
    }
}

impl FromSpecImpl<(i32, i32)> for Size {
    open spec fn obeys_from_spec() -> bool {
        true
    }

    open spec fn from_spec(value: (i32, i32)) -> Self {
        Size(value.0, value.1)
    }
}

impl From<Size> for (i32, i32) {
    fn from(value: Size) -> (r: Self)
        ensures
            r == (value.0, value.1),
    {
        (value.0, value.1)
    }
}

impl FromSpecImpl<Size> for (i32, i32) {
    open spec fn obeys_from_spec() -> bool {
        true
    }

    open spec fn from_spec(value: Size) -> Self {
        (value.0, value.1)
    }
}

impl Velocity {
    pub fn new(x: i32, y: i32) -> (r: Self)
        ensures
            r == Velocity(x, y),
    {
        Self(x, y)
    }

    pub fn get(&self) -> (r: (i32, i32))
        ensures
            r == (self.0, self.1),
    {
        (self.0, self.1)
    }
}

impl Default for Velocity {
    /// Both components are zero.
    fn default() -> (r: Self)
        ensures
            r == Velocity(0, 0),
    {
        Self(0, 0)
    }
}

impl From<(i32, i32)> for Velocity {
    fn from(value: (i32, i32)) -> (r: Self)
        ensures
            r.0 == value.0,
            r.1 == value.1,
    {
        Self(value.0, value.1)
    }
}

impl FromSpecImpl<(i32, i32)> for Velocity {
    open spec fn obeys_from_spec() -> bool {
        true
    }

    open spec fn from_spec(value: (i32, i32)) -> Self {
        Velocity(value.0, value.1)
    }
}

impl From<Velocity> for (i32, i32) {
    fn from(value: Velocity) -> (r: Self)
        ensures
            r == (value.0, value.1),
    {
        (value.0, value.1)
    }
}

impl FromSpecImpl<Velocity> for (i32, i32) {
    open spec fn obeys_from_spec() -> bool {
        true
    }

    open spec fn from_spec(value: Velocity) -> Self {
        (value.0, value.1)
    }
}

impl Accel {
    pub fn new(x: i32, y: i32) -> (r: Self)
        ensures
            r == Accel(x, y),
    {
        Self(x, y)
    }

    pub fn get(&self) -> (r: (i32, i32))
        ensures
            r == (self.0, self.1),
    {
        (self.0, self.1)
    }
}

impl Default for Accel {
    /// Both components are the identity factor.
    fn default() -> (r: Self)
        ensures
            r == Accel(ONE, ONE),
    {
        Self(ONE, ONE)
    }
}

impl From<(i32, i32)> for Accel {
    fn from(value: (i32, i32)) -> (r: Self)
        ensures
            r.0 == value.0,
            r.1 == value.1,
    {
        Self(value.0, value.1)
    }
}

impl FromSpecImpl<(i32, i32)> for Accel {
    open spec fn obeys_from_spec() -> bool {
        true
    }

    open spec fn from_spec(value: (i32, i32)) -> Self {
        Accel(value.0, value.1)
    }
}

impl From<Accel> for (i32, i32) {
    fn from(value: Accel) -> (r: Self)
        ensures
            r == (value.0, value.1),
    {
        (value.0, value.1)
    }
}

impl FromSpecImpl<Accel> for (i32, i32) {
    open spec fn obeys_from_spec() -> bool {
        true
    }

    open spec fn from_spec(value: Accel) -> Self {
        (value.0, value.1)
    }
}

impl Velocity {
    /// The velocity with both components multiplied by a scalar.
    pub open spec fn scaled(self, rhs: i32) -> Velocity {
        Velocity(times(self.0, rhs), times(self.1, rhs))
    }

    /// The velocity with each component multiplied by that of a factor.
    pub open spec fn under(self, rhs: Accel) -> Velocity {
        Velocity(times(self.0, rhs.0), times(self.1, rhs.1))
    }
}

impl CenterPt {
    /// The point displaced by `rhs`.
    pub open spec fn moved(self, rhs: Velocity) -> CenterPt {
        CenterPt(plus(self.0, rhs.0), plus(self.1, rhs.1))
    }

    /// The point displaced by `rhs`.
    pub open spec fn offset(self, rhs: Size) -> CenterPt {
        CenterPt(plus(self.0, rhs.0), plus(self.1, rhs.1))
    }
}

/// A velocity scaled by a scalar, component by component.
impl core::ops::Mul<i32> for Velocity {
    type Output = Velocity;

    fn mul(self, rhs: i32) -> (r: Velocity)
        ensures
            r == self.scaled(rhs),
    {
        Velocity(times(self.0, rhs), times(self.1, rhs))
    }
}

impl MulSpecImpl<i32> for Velocity {
    open spec fn obeys_mul_spec() -> bool {
        true
    }

    open spec fn mul_req(self, rhs: i32) -> bool {
        true
    }

    open spec fn mul_spec(self, rhs: i32) -> Velocity {
        self.scaled(rhs)
    }
}

/// A velocity under an acceleration factor, component by component.
impl core::ops::Mul<Accel> for Velocity {
    type Output = Velocity;

    fn mul(self, rhs: Accel) -> (r: Velocity)
        ensures
            r == self.under(rhs),
    {
        Velocity(times(self.0, rhs.0), times(self.1, rhs.1))
    }
}

impl MulSpecImpl<Accel> for Velocity {
    open spec fn obeys_mul_spec() -> bool {
        true
    }

    open spec fn mul_req(self, rhs: Accel) -> bool {
        true
    }

    open spec fn mul_spec(self, rhs: Accel) -> Velocity {
        self.under(rhs)
    }
}

/// A point moved by a displacement.
impl core::ops::Add<Velocity> for CenterPt {
    type Output = CenterPt;

    fn add(self, rhs: Velocity) -> (r: CenterPt)
        ensures
            r == self.moved(rhs),
    {
        CenterPt(plus(self.0, rhs.0), plus(self.1, rhs.1))
    }
}

impl AddSpecImpl<Velocity> for CenterPt {
    open spec fn obeys_add_spec() -> bool {
        true
    }

    open spec fn add_req(self, rhs: Velocity) -> bool {
        true
    }

    open spec fn add_spec(self, rhs: Velocity) -> CenterPt {
        self.moved(rhs)
    }
}

/// A point moved by an offset.
impl core::ops::Add<Size> for CenterPt {
    type Output = CenterPt;

    fn add(self, rhs: Size) -> (r: CenterPt)
        ensures
            r == self.offset(rhs),
    {
        CenterPt(plus(self.0, rhs.0), plus(self.1, rhs.1))
    }
}

impl AddSpecImpl<Size> for CenterPt {
    open spec fn obeys_add_spec() -> bool {
        true
    }

    open spec fn add_req(self, rhs: Size) -> bool {
        true
    }

    open spec fn add_spec(self, rhs: Size) -> CenterPt {
        self.offset(rhs)
    }
}

} // verus!
