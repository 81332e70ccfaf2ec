//! Obstacles: vertical gates at a fixed column with a randomly placed gap,
//! and the collision rule between a gate and the player.

use vstd::prelude::*;

use bracket_lib::random::RandomNumberGenerator;

use crate::player::Player;
use crate::player::PlayerView;
use crate::rng::range_i32;
use crate::GAP_Y_MAX;
use crate::GAP_Y_MIN;
use crate::GATE_SIZE;
use crate::SCALE;
use crate::SCREEN_HEIGHT;

verus! {

/// Mathematical model of a gate: its column in world space, the row at the
/// center of its gap, and the full vertical size of the gap.
pub ghost struct ObstacleView {
    pub x: int,
    pub gap_y: int,
    pub size: int,
}

impl ObstacleView {
    /// Validity: the gap center stays inside the valid band, the gap size is
    /// the configured gate size, and the gap lies fully within the playable
    /// vertical range: its top edge at or below the top of the screen, its
    /// bottom edge strictly above the ground row.
    pub open spec fn wf(self) -> bool {
        &&& GAP_Y_MIN as int <= self.gap_y < GAP_Y_MAX as int
        &&& self.size == GATE_SIZE as int
        &&& self.gap_y - self.half_size() >= 0
        &&& self.gap_y + self.half_size() < SCREEN_HEIGHT as int - 1
    }

    /// Half the gap, the distance from its center to either wall.
    pub open spec fn half_size(self) -> int {
        self.size / 2
    }

    /// Collision: the player is at this gate's column and its cell row lies
    /// strictly outside the gap.
    pub open spec fn hit(self, p: PlayerView) -> bool {
        &&& p.x == self.x
        &&& {
            ||| p.cell_y() < self.gap_y - self.half_size()
            ||| p.cell_y() > self.gap_y + self.half_size()
        }
    }
}

/// A gate the player must pass through. `x` is its column in world space,
/// fixed at creation; `gap_y` is the row at the center of its gap; `size` is
/// the full vertical size of the gap, in cells.
pub struct Obstacle {
    pub x: i32,
    pub gap_y: i32,
    pub size: i32,
}

impl View for Obstacle {
    type V = ObstacleView;

    open spec fn view(&self) -> ObstacleView {
        ObstacleView { x: self.x as int, gap_y: self.gap_y as int, size: self.size as int }
    }
}

impl Obstacle {
    /// A gate at column `x` with its gap centered on the given row.
    pub fn with_gap(x: i32, gap_y: i32) -> (ob: Obstacle)
        requires
            GAP_Y_MIN <= gap_y < GAP_Y_MAX,
        ensures
            ob@ == (ObstacleView { x: x as int, gap_y: gap_y as int, size: GATE_SIZE as int }),
            ob@.wf(),
    {
        Obstacle { x, gap_y, size: GATE_SIZE }
    }

    /// A gate at column `x` whose gap center is drawn at random from the
    /// valid band.
    pub fn new(rng: &mut RandomNumberGenerator, x: i32) -> (ob: Obstacle)
        ensures
            ob@.x == x as int,
            ob@.wf(),
    {
        let gap_y = range_i32(rng, GAP_Y_MIN, GAP_Y_MAX);
        Obstacle::with_gap(x, gap_y)
    }

    /// The collision test, exactly as `ObstacleView::hit` states it.
    pub fn hit_obstacle(&self, player: &Player) -> (r: bool)
        requires
            self@.wf(),
            player@.y >= 0,
        ensures
            r == self@.hit(player@),
    {
        let half_size = self.size / 2;
        let does_x_match = player.x == self.x;
        let player_above_gap = player.y / SCALE < self.gap_y - half_size;
        let player_below_gap = player.y / SCALE > self.gap_y + half_size;
        does_x_match && (player_above_gap || player_below_gap)
    }
}

/// Law: a gate whose column differs from the player's never registers a
/// collision, whatever the vertical positions are.
pub proof fn lemma_no_hit_off_column(ob: ObstacleView, p: PlayerView)
    requires
        p.x != ob.x,
    ensures
        !ob.hit(p),
{
}

/// Law: at equal columns, a collision registers exactly when the player's
/// cell row is strictly outside the closed band from `gap_y - half_size` to
/// `gap_y + half_size`.
pub proof fn lemma_hit_iff_outside_gap(ob: ObstacleView, p: PlayerView)
    requires
        p.x == ob.x,
    ensures
        ob.hit(p) <==> (p.cell_y() < ob.gap_y - ob.half_size() || p.cell_y() > ob.gap_y
            + ob.half_size()),
{
}

} // verus!
