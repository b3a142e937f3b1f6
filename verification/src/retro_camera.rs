//! Fitting the game's fixed resolution into the space that the window
//! leaves for it.

use crate::fixed::{floor, half, minus, over, plus, spec_half, times, ONE};
use crate::drawable::{HasSize, HasTopLeft};
use crate::{CenterPt, Size, TopLeftPt};
use vstd::prelude::*;

verus! {

/// A rectangle on the screen: its top left corner, its width and height.
#[derive(Debug, Clone, Copy, PartialEq, Eq, Structural)]
pub struct Canvas {
    pub x: i32,
    pub y: i32,
    pub w: i32,
    pub h: i32,
}

/// The placement of a game of a fixed size on the screen.
#[derive(Debug, Clone, Copy, PartialEq, Eq, Structural)]
pub struct RetroCamera {
    /// The space that is free for the game, and after
    /// [`RetroCamera::calculate_canvas_position_for_int_scale`] the corner
    /// at which the game is drawn.
    pub game_canvas: Canvas,
    /// The factor by which the game is enlarged.
    pub zoom: i32,
    /// The resolution of the game.
    pub size: Size,
    pub allow_non_int_scaling: bool,
}

impl RetroCamera {
    /// The largest zoom at which a game of `size` fits into a canvas of
    /// `w` by `h`: the smaller of the two ratios, each rounded down to a
    /// whole number unless any scale is allowed.
    pub open spec fn fitting_zoom(w: i32, h: i32, size: Size, free: bool) -> i32
        recommends
            size.0 > 0,
            size.1 > 0,
    {
        let across = if free {
            over(w, size.0)
        } else {
            floor(over(w, size.0))
        };
        let down = over(h, size.1);
        let least = if down < across {
            down
        } else {
            across
        };
        if free {
            least
        } else {
            floor(least)
        }
    }

    /// The camera with the game centred in its canvas at the fitting zoom.
    pub open spec fn fitted(self) -> RetroCamera
        recommends
            self.size.0 > 0,
            self.size.1 > 0,
    {
        let zoom = Self::fitting_zoom(
            self.game_canvas.w,
            self.game_canvas.h,
            self.size,
            self.allow_non_int_scaling,
        );
        RetroCamera {
            game_canvas: Canvas {
                x: plus(
                    self.game_canvas.x,
                    spec_half(minus(self.game_canvas.w, times(self.size.0, zoom)) as int) as i32,
                ),
                y: plus(
                    self.game_canvas.y,
                    spec_half(minus(self.game_canvas.h, times(self.size.1, zoom)) as int) as i32,
                ),
                ..self.game_canvas
            },
            zoom,
            ..self
        }
    }

    /// A camera for a game of `width` by `height` on a screen of `screen_w`
    /// by `screen_h`, at zoom 1 and with whole-number scaling.
    pub fn new(width: i32, height: i32, screen_w: i32, screen_h: i32) -> (c: Self)
        ensures
            c == (RetroCamera {
                game_canvas: Canvas { x: 0, y: 0, w: screen_w, h: screen_h },
                zoom: ONE,
                size: Size(width, height),
                allow_non_int_scaling: false,
            }),
    {
        Self {
            game_canvas: Canvas { x: 0, y: 0, w: screen_w, h: screen_h },
            zoom: ONE,
            size: Size::new(width, height),
            allow_non_int_scaling: false,
        }
    }

    /// Allows any scale, not only whole numbers.
    pub fn free_scale(&mut self)
        ensures
            *final(self) == (RetroCamera { allow_non_int_scaling: true, ..*old(self) }),
    {
        self.allow_non_int_scaling = true;
    }

    /// Works out the zoom and the corner at which the game is drawn from
    /// the space in `game_canvas`.
    pub fn calculate_canvas_position_for_int_scale(&mut self)
        requires
            old(self).size.0 > 0,
            old(self).size.1 > 0,
        ensures
            *final(self) == old(self).fitted(),
    {
        let mut zoom: i32 = over(self.game_canvas.w, self.size.0);
        if !self.allow_non_int_scaling {
            zoom = floor(zoom);
        }
        let down: i32 = over(self.game_canvas.h, self.size.1);
        if down < zoom {
            zoom = down;
        }
        if !self.allow_non_int_scaling {
            zoom = floor(zoom);
        }
        let spare_w: i32 = minus(self.game_canvas.w, times(self.size.0, zoom));
        let spare_h: i32 = minus(self.game_canvas.h, times(self.size.1, zoom));
        self.game_canvas.x = plus(self.game_canvas.x, half(spare_w));
        self.game_canvas.y = plus(self.game_canvas.y, half(spare_h));
        self.zoom = zoom;
    }

    /// Takes `avail` as the space that is free for the game.
    pub fn reset_canvas(&mut self, avail: Canvas)
        ensures
            *final(self) == (RetroCamera { game_canvas: avail, ..*old(self) }),
    {
        self.game_canvas.y = avail.y;
        self.game_canvas.h = avail.h;
        self.game_canvas.w = avail.w;
        self.game_canvas.x = avail.x;
    }

    /// The middle of the game's own coordinates.
    pub fn center(&self) -> (c: CenterPt)
        ensures
            c == CenterPt(spec_half(self.size.0 as int) as i32, spec_half(self.size.1 as int) as i32),
    {
        CenterPt::new(half(self.size.0), half(self.size.1))
    }

    /// The size at which the game is drawn on the screen.
    pub fn dest_size(&self) -> (s: Size)
        ensures
            s == Size(times(self.size.0, self.zoom), times(self.size.1, self.zoom)),
    {
        Size::new(times(self.size.0, self.zoom), times(self.size.1, self.zoom))
    }
}

/// A zoom that is at most the ratio of `space` to `side` leaves the scaled
/// side within the space.
proof fn lemma_scaled_side_fits(space: i32, side: i32, zoom: i32)
    requires
        space >= 0,
        side > 0,
        0 <= zoom <= over(space, side),
    ensures
        0 <= times(side, zoom) <= space,
{
    let ratio = (space * ONE) / (side as int);
    assert(space * ONE >= 0) by (nonlinear_arith)
        requires
            space >= 0,
    ;
    assert(0 <= ratio && side * ratio <= space * ONE) by (nonlinear_arith)
        requires
            side > 0,
            space * ONE >= 0,
            ratio == (space * ONE) / (side as int),
    ;
    assert(zoom <= ratio);
    assert(0 <= side * zoom <= side * ratio) by (nonlinear_arith)
        requires
            side > 0,
            0 <= zoom <= ratio,
    ;
    assert(space * ONE == space * 1000);
}

/// Fitting keeps the game inside the canvas: the zoom is not negative,
/// the enlarged game is no wider and no higher than the canvas, and it is
/// placed at or inside the canvas's corner. With whole-number scaling the
/// zoom is a whole number.
pub proof fn lemma_fitted_inside(c: RetroCamera)
    requires
        c.size.0 > 0,
        c.size.1 > 0,
        c.game_canvas.w >= 0,
        c.game_canvas.h >= 0,
    ensures
        c.fitted().zoom >= 0,
        0 <= times(c.size.0, c.fitted().zoom) <= c.game_canvas.w,
        0 <= times(c.size.1, c.fitted().zoom) <= c.game_canvas.h,
        c.fitted().game_canvas.x >= c.game_canvas.x,
        c.fitted().game_canvas.y >= c.game_canvas.y,
        !c.allow_non_int_scaling ==> c.fitted().zoom % ONE == 0,
{
    let w = c.game_canvas.w;
    let h = c.game_canvas.h;
    let zoom = c.fitted().zoom;
    assert(w * ONE >= 0 && h * ONE >= 0) by (nonlinear_arith)
        requires
            w >= 0,
            h >= 0,
    ;
    assert((w * ONE) / (c.size.0 as int) >= 0 && (h * ONE) / (c.size.1 as int) >= 0)
        by (nonlinear_arith)
        requires
            w * ONE >= 0,
            h * ONE >= 0,
            c.size.0 > 0,
            c.size.1 > 0,
    ;
    assert(over(w, c.size.0) >= 0);
    assert(over(h, c.size.1) >= 0);
    assert(0 <= zoom <= over(w, c.size.0));
    assert(0 <= zoom <= over(h, c.size.1));
    lemma_scaled_side_fits(w, c.size.0, zoom);
    lemma_scaled_side_fits(h, c.size.1, zoom);
}

impl HasSize for RetroCamera {
    /// The resolution of the game.
    open spec fn size_of(&self) -> Size {
        self.size
    }

    fn size(&self) -> (s: Size)
        ensures
            s == self.size,
    {
        self.size
    }
}

impl HasSize for Canvas {
    open spec fn size_of(&self) -> Size {
        Size(self.w, self.h)
    }

    fn size(&self) -> (s: Size)
        ensures
            s == Size(self.w, self.h),
    {
        Size::new(self.w, self.h)
    }
}

impl HasTopLeft for Canvas {
    open spec fn top_left_of(&self) -> TopLeftPt {
        TopLeftPt(self.x, self.y)
    }

    fn top_left(&self) -> (p: TopLeftPt)
        ensures
            p == TopLeftPt(self.x, self.y),
    {
        TopLeftPt::new(self.x, self.y)
    }
}

} // verus!
