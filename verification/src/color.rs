//! Colours.

pub mod text;

pub use text::ColorFormatError;

use vstd::prelude::*;

verus! {

/// A colour as red, green, blue and alpha, each a scalar that runs from 0
/// to [`crate::fixed::ONE`].
#[derive(Debug, Clone, Copy, PartialEq, Eq, Structural)]
pub struct GameColor {
    pub r: i32,
    pub g: i32,
    pub b: i32,
    pub a: i32,
}

impl GameColor {
    pub fn new(r: i32, g: i32, b: i32, a: i32) -> (c: Self)
        ensures
            c == (GameColor { r, g, b, a }),
    {
        Self { r, g, b, a }
    }
}

/// The colours that the library itself draws with.
impl GameColor {
    /// The colour of a particle of the standard stage.
    pub open spec fn spec_yellow() -> GameColor {
        GameColor { r: 990, g: 980, b: 0, a: 1000 }
    }

    /// The colour of the distance rings.
    pub open spec fn spec_orange() -> GameColor {
        GameColor { r: 1000, g: 630, b: 0, a: 1000 }
    }

    /// The colour of the radius band.
    pub open spec fn spec_blue() -> GameColor {
        GameColor { r: 0, g: 470, b: 950, a: 1000 }
    }

    /// The colour of the angle wedge.
    pub open spec fn spec_green() -> GameColor {
        GameColor { r: 0, g: 890, b: 190, a: 1000 }
    }

    #[verifier::when_used_as_spec(spec_yellow)]
    pub fn yellow() -> (c: Self)
        ensures
            c == Self::spec_yellow(),
    {
        Self { r: 990, g: 980, b: 0, a: 1000 }
    }

    #[verifier::when_used_as_spec(spec_orange)]
    pub fn orange() -> (c: Self)
        ensures
            c == Self::spec_orange(),
    {
        Self { r: 1000, g: 630, b: 0, a: 1000 }
    }

    #[verifier::when_used_as_spec(spec_blue)]
    pub fn blue() -> (c: Self)
        ensures
            c == Self::spec_blue(),
    {
        Self { r: 0, g: 470, b: 950, a: 1000 }
    }

    #[verifier::when_used_as_spec(spec_green)]
    pub fn green() -> (c: Self)
        ensures
            c == Self::spec_green(),
    {
        Self { r: 0, g: 890, b: 190, a: 1000 }
    }
}

impl Default for GameColor {
    /// Transparent black.
    fn default() -> (c: Self)
        ensures
            c == (GameColor { r: 0, g: 0, b: 0, a: 0 }),
    {
        Self { r: 0, g: 0, b: 0, a: 0 }
    }
}

} // verus!
