//! What there is to draw. Nothing here touches a screen: to draw is to list
//! the shapes, and whoever owns the screen renders the list in order.

use crate::color::GameColor;
use crate::{CenterPt, Size, TopLeftPt, Velocity};
use vstd::prelude::*;

verus! {

/// A line one unit wide.
#[derive(Debug, Clone, Copy, PartialEq, Eq, Structural)]
pub struct Line {
    pub x1: i32,
    pub y1: i32,
    pub x2: i32,
    pub y2: i32,
    pub color: GameColor,
}

/// A filled disc.
#[derive(Debug, Clone, Copy, PartialEq, Eq, Structural)]
pub struct Circle {
    pub center: CenterPt,
    pub radius: i32,
    pub color: GameColor,
}

/// The outline of a circle, `thickness` wide.
#[derive(Debug, Clone, Copy, PartialEq, Eq, Structural)]
pub struct Ring {
    pub center: CenterPt,
    pub radius: i32,
    pub thickness: i32,
    pub color: GameColor,
}

/// A shape to draw.
#[derive(Debug, Clone, Copy, PartialEq, Eq, Structural)]
pub enum Graphic {
    Line(Line),
    Circle(Circle),
    Ring(Ring),
}

/// What can be shown.
pub trait Drawable {
    /// The shapes that show the value, in drawing order.
    spec fn shapes(&self) -> Seq<Graphic>;

    fn draw(&self) -> (r: Vec<Graphic>)
        ensures
            r@ == self.shapes(),
    ;
}

/// What has a centre.
pub trait HasCenter {
    spec fn center_of(&self) -> CenterPt;

    fn center(&self) -> (c: CenterPt)
        ensures
            c == self.center_of(),
    ;
}

/// What has a velocity.
pub trait HasVelocity {
    spec fn velocity_of(&self) -> Velocity;

    fn velocity(&self) -> (v: Velocity)
        ensures
            v == self.velocity_of(),
    ;
}

/// What has a top left corner.
pub trait HasTopLeft {
    spec fn top_left_of(&self) -> TopLeftPt;

    fn top_left(&self) -> (p: TopLeftPt)
        ensures
            p == self.top_left_of(),
    ;
}

/// What has a width and a height.
pub trait HasSize {
    spec fn size_of(&self) -> Size;

    fn size(&self) -> (s: Size)
        ensures
            s == self.size_of(),
    ;
}

impl HasCenter for Circle {
    open spec fn center_of(&self) -> CenterPt {
        self.center
    }

    fn center(&self) -> (c: CenterPt)
        ensures
            c == self.center,
    {
        self.center
    }
}

impl Line {
    pub fn new(x1: i32, y1: i32, x2: i32, y2: i32, color: GameColor) -> (l: Self)
        ensures
            l == (Line { x1, y1, x2, y2, color }),
    {
        Self { x1, y1, x2, y2, color }
    }
}

impl Circle {
    pub fn new(center: CenterPt, r: i32, color: GameColor) -> (c: Self)
        ensures
            c == (Circle { center, radius: r, color }),
    {
        Self { center, radius: r, color }
    }
}

impl Ring {
    pub fn new(center: CenterPt, r: i32, thickness: i32, color: GameColor) -> (c: Self)
        ensures
            c == (Ring { center, radius: r, thickness, color }),
    {
        Self { center, radius: r, thickness, color }
    }
}

impl Graphic {
    pub fn line(x1: i32, y1: i32, x2: i32, y2: i32, color: GameColor) -> (g: Self)
        ensures
            g == Graphic::Line(Line { x1, y1, x2, y2, color }),
    {
        Graphic::Line(Line::new(x1, y1, x2, y2, color))
    }

    pub fn circle(center: CenterPt, radius: i32, color: GameColor) -> (g: Self)
        ensures
            g == Graphic::Circle(Circle { center, radius, color }),
    {
        Graphic::Circle(Circle::new(center, radius, color))
    }

    pub fn ring(center: CenterPt, radius: i32, thickness: i32, color: GameColor) -> (g: Self)
        ensures
            g == Graphic::Ring(Ring { center, radius, thickness, color }),
    {
        Graphic::Ring(Ring::new(center, radius, thickness, color))
    }
}

impl Drawable for Line {
    open spec fn shapes(&self) -> Seq<Graphic> {
        seq![Graphic::Line(*self)]
    }

    fn draw(&self) -> (r: Vec<Graphic>)
        ensures
            r@ == seq![Graphic::Line(*self)],
    {
        let mut shapes: Vec<Graphic> = Vec::new();
        shapes.push(Graphic::Line(*self));
        assert(shapes@ =~= self.shapes());
        shapes
    }
}

impl Drawable for Circle {
    open spec fn shapes(&self) -> Seq<Graphic> {
        seq![Graphic::Circle(*self)]
    }

    fn draw(&self) -> (r: Vec<Graphic>)
        ensures
            r@ == seq![Graphic::Circle(*self)],
    {
        let mut shapes: Vec<Graphic> = Vec::new();
        shapes.push(Graphic::Circle(*self));
        assert(shapes@ =~= self.shapes());
        shapes
    }
}

impl Drawable for Graphic {
    open spec fn shapes(&self) -> Seq<Graphic> {
        seq![*self]
    }

    fn draw(&self) -> (r: Vec<Graphic>)
        ensures
            r@ == seq![*self],
    {
        let mut shapes: Vec<Graphic> = Vec::new();
        shapes.push(*self);
        assert(shapes@ =~= self.shapes());
        shapes
    }
}

} // verus!
