//! The analog integrator: turns a stream of raw stick samples into
//! absolute cursor positions, applying a deadzone and a speed scalar.
//!
//! All quantities are exact integers. A full stick deflection of one is
//! `AXIS_UNIT` deflection units, and one screen pixel is
//! `SUBPIXELS_PER_PIXEL` position units. The deadzone of one twentieth of
//! full deflection is `DEADZONE` deflection units. The speed scalar of
//! one half works out to exactly one position unit per deflection unit
//! per tick: a sample of `a` deflection units past the deadzone moves the
//! cursor `a / 2_000_000` of a pixel each tick, which is `a / 1_000_000`
//! (the sample as a fraction of full deflection) times the one-half speed
//! scalar, with no rounding anywhere.

use vstd::prelude::*;

verus! {

/// Position units per screen pixel.
pub const SUBPIXELS_PER_PIXEL: i64 = 2_000_000;

/// Deflection units per full stick deflection.
pub const AXIS_UNIT: i64 = 1_000_000;

/// Deadzone, in deflection units: samples at or below this magnitude are
/// neutral. Equals one twentieth (0.05) of full deflection.
pub const DEADZONE: i64 = 50_000;

/// Least representable position: the least cursor pixel, in position
/// units.
pub const POS_MIN: i64 = -4_294_967_296_000_000;

/// Greatest representable position: the greatest cursor pixel, in
/// position units.
pub const POS_MAX: i64 = 4_294_967_294_000_000;

/// The per-tick velocity a horizontal sample produces: zero within the
/// deadzone, else the sample itself (in position units per tick, which is
/// the sample times the one-half speed scalar in pixels per tick).
pub open spec fn spec_velocity(a: int) -> int {
    if -DEADZONE <= a <= DEADZONE {
        0
    } else {
        a
    }
}

/// The per-tick velocity a vertical sample produces: as horizontal, but
/// sign-inverted, because increasing stick deflection corresponds to
/// decreasing screen coordinate.
pub open spec fn spec_velocity_vertical(a: int) -> int {
    if -DEADZONE <= a <= DEADZONE {
        0
    } else {
        -a
    }
}

/// A position moved by one velocity step, held inside the representable
/// range.
pub open spec fn spec_advance(pos: int, vel: int) -> int {
    if pos + vel < POS_MIN {
        POS_MIN as int
    } else if pos + vel > POS_MAX {
        POS_MAX as int
    } else {
        pos + vel
    }
}

/// The screen pixel a position lies on: division by
/// `SUBPIXELS_PER_PIXEL`, truncated toward zero.
pub open spec fn spec_pixel_of(pos: int) -> int {
    if pos >= 0 {
        pos / (SUBPIXELS_PER_PIXEL as int)
    } else {
        -((-pos) / (SUBPIXELS_PER_PIXEL as int))
    }
}

/// The deadzone boundary: a sample produces zero velocity exactly when
/// its magnitude is at or below the deadzone; past the deadzone the
/// velocity equals the sample itself (sign-inverted vertically), i.e. the
/// sample times the one-half speed scalar in pixels per tick.
pub proof fn lemma_deadzone_boundary(a: int)
    ensures
        (spec_velocity(a) == 0) <==> (-DEADZONE <= a <= DEADZONE),
        !(-DEADZONE <= a <= DEADZONE) ==> spec_velocity(a) == a && spec_velocity_vertical(a)
            == -a,
{
}

/// The ghost state of the integrator: positions in position units,
/// velocities in position units per tick.
pub struct IntegratorView {
    pub pos_x: int,
    pub pos_y: int,
    pub vel_x: int,
    pub vel_y: int,
}

impl IntegratorView {
    /// Positions lie in the representable range; velocities are bounded
    /// by one full deflection.
    pub open spec fn wf(&self) -> bool {
        &&& POS_MIN <= self.pos_x <= POS_MAX
        &&& POS_MIN <= self.pos_y <= POS_MAX
        &&& -AXIS_UNIT <= self.vel_x <= AXIS_UNIT
        &&& -AXIS_UNIT <= self.vel_y <= AXIS_UNIT
    }
}

/// Runtime-only state for one activation: the last known absolute cursor
/// position and the current per-tick velocity for each axis of the
/// cursor. Created when the loop starts, seeded from the current cursor
/// position; discarded when the loop stops.
pub struct AnalogIntegrator {
    pos_x: i64,
    pos_y: i64,
    vel_x: i64,
    vel_y: i64,
}

impl View for AnalogIntegrator {
    type V = IntegratorView;

    closed spec fn view(&self) -> IntegratorView {
        IntegratorView {
            pos_x: self.pos_x as int,
            pos_y: self.pos_y as int,
            vel_x: self.vel_x as int,
            vel_y: self.vel_y as int,
        }
    }
}

impl AnalogIntegrator {
    /// The view is well formed.
    pub open spec fn wf(&self) -> bool {
        self@.wf()
    }

    /// Fresh state for a new activation, seeded from the current cursor
    /// pixel; both velocities are zero.
    pub fn seed(px: i32, py: i32) -> (r: AnalogIntegrator)
        ensures
            r.wf(),
            r@.pos_x == px * SUBPIXELS_PER_PIXEL,
            r@.pos_y == py * SUBPIXELS_PER_PIXEL,
            r@.vel_x == 0,
            r@.vel_y == 0,
    {
        AnalogIntegrator {
            pos_x: (px as i64) * SUBPIXELS_PER_PIXEL,
            pos_y: (py as i64) * SUBPIXELS_PER_PIXEL,
            vel_x: 0,
            vel_y: 0,
        }
    }

    /// Takes a horizontal sample, in deflection units: the horizontal
    /// velocity becomes zero within the deadzone, else the sample itself.
    pub fn set_horizontal(&mut self, a: i64)
        requires
            old(self).wf(),
            -AXIS_UNIT <= a <= AXIS_UNIT,
        ensures
            final(self).wf(),
            final(self)@.vel_x == spec_velocity(a as int),
            final(self)@.vel_y == old(self)@.vel_y,
            final(self)@.pos_x == old(self)@.pos_x,
            final(self)@.pos_y == old(self)@.pos_y,
    {
        self.vel_x = if a > DEADZONE || a < -DEADZONE {
            a
        } else {
            0
        };
    }

    /// Takes a vertical sample, in deflection units: the vertical
    /// velocity becomes zero within the deadzone, else the sample
    /// sign-inverted.
    pub fn set_vertical(&mut self, a: i64)
        requires
            old(self).wf(),
            -AXIS_UNIT <= a <= AXIS_UNIT,
        ensures
            final(self).wf(),
            final(self)@.vel_y == spec_velocity_vertical(a as int),
            final(self)@.vel_x == old(self)@.vel_x,
            final(self)@.pos_x == old(self)@.pos_x,
            final(self)@.pos_y == old(self)@.pos_y,
    {
        self.vel_y = if a > DEADZONE || a < -DEADZONE {
            -a
        } else {
            0
        };
    }

    /// Whether some axis currently carries a nonzero velocity, so the
    /// cursor is controller-driven this tick.
    pub fn cursor_active(&self) -> (r: bool)
        ensures
            r == (self@.vel_x != 0 || self@.vel_y != 0),
    {
        self.vel_x != 0 || self.vel_y != 0
    }

    /// The horizontal velocity, in position units per tick.
    pub fn velocity_x(&self) -> (r: i64)
        ensures
            r == self@.vel_x,
    {
        self.vel_x
    }

    /// The vertical velocity, in position units per tick.
    pub fn velocity_y(&self) -> (r: i64)
        ensures
            r == self@.vel_y,
    {
        self.vel_y
    }

    fn pixel_of(pos: i64) -> (r: i64)
        requires
            POS_MIN <= pos <= POS_MAX,
        ensures
            r == spec_pixel_of(pos as int),
            -2_147_483_648 <= r <= 2_147_483_647,
    {
        if pos >= 0 {
            let q = (pos as u64) / (SUBPIXELS_PER_PIXEL as u64);
            q as i64
        } else {
            let q = ((-pos) as u64) / (SUBPIXELS_PER_PIXEL as u64);
            -(q as i64)
        }
    }

    /// The screen pixel the stored position lies on.
    pub fn position_pixels(&self) -> (r: (i32, i32))
        requires
            self.wf(),
        ensures
            r.0 == spec_pixel_of(self@.pos_x),
            r.1 == spec_pixel_of(self@.pos_y),
    {
        let x = Self::pixel_of(self.pos_x);
        let y = Self::pixel_of(self.pos_y);
        (x as i32, y as i32)
    }

    /// Advances the position by the current velocity, one tick: the
    /// update is purely additive, so cursor speed is constant and
    /// proportional to how far the stick is pushed, a linear response.
    /// Returns the pixel to move the cursor to.
    pub fn advance(&mut self) -> (r: (i32, i32))
        requires
            old(self).wf(),
        ensures
            final(self).wf(),
            final(self)@.pos_x == spec_advance(old(self)@.pos_x, old(self)@.vel_x),
            final(self)@.pos_y == spec_advance(old(self)@.pos_y, old(self)@.vel_y),
            final(self)@.vel_x == old(self)@.vel_x,
            final(self)@.vel_y == old(self)@.vel_y,
            r.0 == spec_pixel_of(final(self)@.pos_x),
            r.1 == spec_pixel_of(final(self)@.pos_y),
    {
        let nx = self.pos_x + self.vel_x;
        self.pos_x = if nx < POS_MIN {
            POS_MIN
        } else if nx > POS_MAX {
            POS_MAX
        } else {
            nx
        };
        let ny = self.pos_y + self.vel_y;
        self.pos_y = if ny < POS_MIN {
            POS_MIN
        } else if ny > POS_MAX {
            POS_MAX
        } else {
            ny
        };
        self.position_pixels()
    }

    /// Resynchronizes the stored position while the controller is
    /// neutral, so motion of the mouse by other means is not fought on
    /// the next controller input: with the reported cursor pixel the
    /// position becomes exactly that pixel; if the report failed, the
    /// position falls back to the whole pixel it already lies on.
    pub fn resync(&mut self, os_cursor: Option<(i32, i32)>)
        requires
            old(self).wf(),
        ensures
            final(self).wf(),
            final(self)@.vel_x == old(self)@.vel_x,
            final(self)@.vel_y == old(self)@.vel_y,
            match os_cursor {
                Some(p) => final(self)@.pos_x == p.0 * SUBPIXELS_PER_PIXEL && final(self)@.pos_y
                    == p.1 * SUBPIXELS_PER_PIXEL,
                None => final(self)@.pos_x == spec_pixel_of(old(self)@.pos_x)
                    * SUBPIXELS_PER_PIXEL && final(self)@.pos_y == spec_pixel_of(
                    old(self)@.pos_y,
                ) * SUBPIXELS_PER_PIXEL,
            },
    {
        match os_cursor {
            Some(p) => {
                self.pos_x = (p.0 as i64) * SUBPIXELS_PER_PIXEL;
                self.pos_y = (p.1 as i64) * SUBPIXELS_PER_PIXEL;
            },
            None => {
                let px = Self::pixel_of(self.pos_x);
                let py = Self::pixel_of(self.pos_y);
                self.pos_x = px * SUBPIXELS_PER_PIXEL;
                self.pos_y = py * SUBPIXELS_PER_PIXEL;
            },
        }
    }
}

} // verus!
