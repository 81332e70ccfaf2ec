//! The player sprite: position, vertical velocity, and animation frame, with
//! the per-tick physics rule (gravity, fall-speed cap, top-of-screen clamp)
//! and the flap impulse.

use vstd::prelude::*;

use crate::ANIMATION_FRAMES;
use crate::FLAP_VELOCITY;
use crate::GRAVITY;
use crate::MAX_FALL_VELOCITY;
use crate::SCALE;

verus! {

/// Mathematical model of the player: horizontal position in cells, vertical
/// position and velocity in tenths of a cell, and the animation frame index.
pub ghost struct PlayerView {
    pub x: int,
    pub y: int,
    pub velocity: int,
    pub frame: int,
}

impl PlayerView {
    /// Validity: the sprite never leaves through the top of the screen, the
    /// velocity stays between the flap impulse and the fall-speed cap, and
    /// the frame index stays within the animation cycle.
    pub open spec fn wf(self) -> bool {
        &&& self.y >= 0
        &&& FLAP_VELOCITY as int <= self.velocity <= MAX_FALL_VELOCITY as int
        &&& 0 <= self.frame < ANIMATION_FRAMES as int
    }

    /// One physics tick: gravity accelerates the fall while below the cap,
    /// the velocity is integrated into the vertical position (clamped at the
    /// top of the screen), the sprite advances one column, and the animation
    /// cycles one frame.
    pub open spec fn advanced(self) -> PlayerView {
        let v = if self.velocity < MAX_FALL_VELOCITY as int {
            self.velocity + GRAVITY as int
        } else {
            self.velocity
        };
        let y = if self.y + v < 0 {
            0
        } else {
            self.y + v
        };
        PlayerView {
            x: self.x + 1,
            y,
            velocity: v,
            frame: (self.frame + 1) % (ANIMATION_FRAMES as int),
        }
    }

    /// A flap overrides the current velocity with the fixed upward impulse;
    /// nothing else changes.
    pub open spec fn flapped(self) -> PlayerView {
        PlayerView { velocity: FLAP_VELOCITY as int, ..self }
    }

    /// The whole cell row the sprite occupies, as collision sees it.
    pub open spec fn cell_y(self) -> int {
        self.y / (SCALE as int)
    }
}

/// The player sprite. `y` and `velocity` are in tenths of a cell; `x` is the
/// column in world space and only ever advances, one cell per physics tick.
pub struct Player {
    pub x: i32,
    pub y: i32,
    pub velocity: i32,
    pub frame: usize,
}

impl View for Player {
    type V = PlayerView;

    open spec fn view(&self) -> PlayerView {
        PlayerView {
            x: self.x as int,
            y: self.y as int,
            velocity: self.velocity as int,
            frame: self.frame as int,
        }
    }
}

impl Player {
    /// A fresh player at column `x`, row `y` (in cells), at rest at the start
    /// of the animation cycle.
    pub fn new(x: i32, y: i32) -> (p: Player)
        requires
            0 <= y <= i32::MAX / SCALE,
        ensures
            p@ == (PlayerView { x: x as int, y: y * SCALE as int, velocity: 0, frame: 0 }),
            p@.wf(),
    {
        Player { x, y: y * SCALE, velocity: 0, frame: 0 }
    }

    /// One physics tick, exactly as `PlayerView::advanced` states it.
    pub fn gravity_and_mode(&mut self)
        requires
            old(self)@.wf(),
            old(self).x < i32::MAX,
            old(self).y <= i32::MAX - MAX_FALL_VELOCITY,
        ensures
            final(self)@ == old(self)@.advanced(),
            final(self)@.wf(),
    {
        if self.velocity < MAX_FALL_VELOCITY {
            self.velocity = self.velocity + GRAVITY;
        }
        self.y = self.y + self.velocity;
        if self.y < 0 {
            self.y = 0;
        }
        self.x = self.x + 1;
        self.frame = (self.frame + 1) % ANIMATION_FRAMES;
    }

    /// Set the velocity to the fixed upward impulse, whatever it was before
    /// and whatever screen the session is on.
    pub fn flap(&mut self)
        ensures
            final(self)@ == old(self)@.flapped(),
    {
        self.velocity = FLAP_VELOCITY;
    }
}

/// The player after `n` physics ticks with no flap in between.
pub open spec fn advanced_n(p: PlayerView, n: nat) -> PlayerView
    decreases n,
{
    if n == 0 {
        p
    } else {
        advanced_n(p, (n - 1) as nat).advanced()
    }
}

/// Law: one tick of free fall never lifts the sprite and never drives it
/// above the top of the screen, and gravity never reverses the fall.
pub proof fn lemma_fall_step(p: PlayerView)
    requires
        p.y >= 0,
        p.velocity >= 0,
    ensures
        p.advanced().y >= p.y,
        p.advanced().y >= 0,
        p.advanced().velocity >= p.velocity,
{
}

/// Law: with no flap input, the vertical position is non-decreasing tick
/// after tick and never negative, from any rest-or-falling start.
pub proof fn lemma_no_flap_fall(p: PlayerView, n: nat)
    requires
        p.y >= 0,
        p.velocity >= 0,
    ensures
        advanced_n(p, n).y >= 0,
        advanced_n(p, n).velocity >= 0,
        advanced_n(p, n).y >= p.y,
        forall|k: nat| k < n ==> #[trigger] advanced_n(p, k).y <= advanced_n(p, (k + 1) as nat).y,
    decreases n,
{
    if n > 0 {
        lemma_no_flap_fall(p, (n - 1) as nat);
        lemma_fall_step(advanced_n(p, (n - 1) as nat));
        assert(advanced_n(p, n) == advanced_n(p, (n - 1) as nat).advanced());
    }
}

} // verus!
