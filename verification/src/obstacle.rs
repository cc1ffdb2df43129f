//! The obstacle: one vertical wall pair with a passable gap, at a world
//! column. The gap center is drawn at random from a fixed band; the gap
//! height shrinks linearly with the score, floored at 2.

use vstd::prelude::*;

use crate::draw::Color;
use crate::draw::DrawCommand;
use crate::player::Player;
use crate::GAP_Y_MAX;
use crate::GAP_Y_MIN;
use crate::SCREEN_HEIGHT;
use crate::WALL_GLYPH;
use crate::Y_SCALE;

verus! {

/// One wall with a gap. `x` is the world column of the wall, `gap_y` the row
/// at which the gap is centered, `size` the gap height in rows.
pub struct Obstacle {
    pub x: i32,
    pub gap_y: i32,
    pub size: i32,
}

/// The gap height for a score: `20 - score`, floored at 2.
pub open spec fn gap_size(score: i32) -> int {
    vstd::math::max(2, 20 - score)
}

/// The gap center lies in the fixed band from which it is drawn.
pub open spec fn gap_in_band(gap_y: i32) -> bool {
    GAP_Y_MIN <= gap_y <= GAP_Y_MAX
}

/// Relies on `bracket_lib`'s `RandomNumberGenerator`: `new` seeds a fresh
/// generator and `range(min, max)` returns a uniform value in `min..max`
/// (half-open), here the gap band.
#[verifier::external_body]
fn random_gap_y() -> (r: i32)
    ensures
        GAP_Y_MIN <= r < GAP_Y_MAX,
{
    let mut random = bracket_lib::random::RandomNumberGenerator::new();
    random.range(GAP_Y_MIN, GAP_Y_MAX)
}

/// The wall cells one frame of an obstacle draws, projected to screen space
/// against the player's world column: every row from the top of the screen up
/// to the gap, and from the gap's lower edge to the bottom, gets one wall
/// cell at the projected column; the gap band itself is left untouched.
pub open spec fn obstacle_frame(o: Obstacle, player_x: i32) -> Seq<DrawCommand> {
    let screen_x = o.x - player_x;
    let half_size = (o.size as int) / 2;
    let top_rows = vstd::math::max(0, o.gap_y - half_size);
    let bottom_from = o.gap_y + half_size;
    let bottom_rows = vstd::math::max(0, SCREEN_HEIGHT - bottom_from);
    Seq::new(top_rows as nat, |i: int| wall_cell(screen_x as i32, i as i32)) + Seq::new(
        bottom_rows as nat,
        |i: int| wall_cell(screen_x as i32, (bottom_from + i) as i32),
    )
}

/// One wall cell at screen position `(x, y)`.
pub open spec fn wall_cell(x: i32, y: i32) -> DrawCommand {
    DrawCommand::Cell { x, y, fg: Color::Gray, bg: Color::Navy, glyph: WALL_GLYPH }
}

impl Obstacle {
    /// The gap height is at least 2 and at most the score-0 height, and the
    /// gap center lies in its band.
    pub open spec fn wf(self) -> bool {
        &&& 2 <= self.size <= 20
        &&& gap_in_band(self.gap_y)
    }

    /// A new obstacle at world column `x`, sized for `score`, with its gap
    /// center drawn at random from the band.
    pub fn new(x: i32, score: i32) -> (r: Obstacle)
        requires
            0 <= score,
        ensures
            r.x == x,
            GAP_Y_MIN <= r.gap_y < GAP_Y_MAX,
            r.size == gap_size(score),
            r.wf(),
    {
        let gap_y = random_gap_y();
        Obstacle::with_gap(x, score, gap_y)
    }

    /// A new obstacle with the gap center given by the caller: the
    /// deterministic constructor behind [`Obstacle::new`], for use wherever a
    /// chosen gap placement is wanted in place of the random draw.
    pub fn with_gap(x: i32, score: i32, gap_y: i32) -> (r: Obstacle)
        requires
            0 <= score,
            gap_in_band(gap_y),
        ensures
            r.x == x,
            r.gap_y == gap_y,
            r.size == gap_size(score),
            r.wf(),
    {
        let size: i32 = if 20 - score >= 2 {
            20 - score
        } else {
            2
        };
        Obstacle { x, gap_y, size }
    }

    /// The obstacle's frame of wall cells against the player's world column.
    /// Drawing never changes the obstacle.
    pub fn render(&mut self, player_x: i32) -> (r: Vec<DrawCommand>)
        requires
            old(self).wf(),
            i32::MIN <= old(self).x - player_x <= i32::MAX,
        ensures
            *final(self) == *old(self),
            r@ == obstacle_frame(*old(self), player_x),
    {
        let screen_x = self.x - player_x;
        let half_size = self.size / 2;
        let mut cmds: Vec<DrawCommand> = Vec::new();

        let top_end: i32 = self.gap_y - half_size;
        let mut y: i32 = 0;
        while y < top_end
            invariant
                0 <= y,
                top_end > 0 ==> y <= top_end,
                top_end <= 0 ==> y == 0,
                top_end == self.gap_y - half_size,
                half_size == (self.size as int) / 2,
                screen_x == self.x - player_x,
                self.wf(),
                cmds@ =~= Seq::new(y as nat, |i: int| wall_cell(screen_x, i as i32)),
            decreases top_end - y,
        {
            cmds.push(DrawCommand::Cell {
                x: screen_x,
                y,
                fg: Color::Gray,
                bg: Color::Navy,
                glyph: WALL_GLYPH,
            });
            y = y + 1;
        }

        let bottom_from: i32 = self.gap_y + half_size;
        let top_count: usize = cmds.len();
        let mut y2: i32 = bottom_from;
        while y2 < SCREEN_HEIGHT
            invariant
                bottom_from <= y2,
                bottom_from < SCREEN_HEIGHT ==> y2 <= SCREEN_HEIGHT,
                bottom_from >= SCREEN_HEIGHT ==> y2 == bottom_from,
                bottom_from == self.gap_y + half_size,
                half_size == (self.size as int) / 2,
                screen_x == self.x - player_x,
                self.wf(),
                top_count == vstd::math::max(0, self.gap_y - half_size),
                cmds@ =~= Seq::new(top_count as nat, |i: int| wall_cell(screen_x, i as i32))
                    + Seq::new(
                    (y2 - bottom_from) as nat,
                    |i: int| wall_cell(screen_x, (bottom_from + i) as i32),
                ),
            decreases SCREEN_HEIGHT - y2,
        {
            cmds.push(DrawCommand::Cell {
                x: screen_x,
                y: y2,
                fg: Color::Gray,
                bg: Color::Navy,
                glyph: WALL_GLYPH,
            });
            y2 = y2 + 1;
        }

        assert(cmds@ =~= obstacle_frame(*self, player_x));
        cmds
    }

    /// Whether the player has hit this obstacle: true exactly when the player
    /// stands in the obstacle's world column and its vertical position lies
    /// strictly above the gap's upper edge or strictly below its lower edge,
    /// the edges at `gap_y` minus and plus half the gap height (halving
    /// truncated), in tenths of a row.
    pub open spec fn hits(self, player: Player) -> bool {
        let half_size = (self.size as int) / 2;
        &&& player.x == self.x
        &&& {
            ||| player.y < (self.gap_y - half_size) * Y_SCALE
            ||| player.y > (self.gap_y + half_size) * Y_SCALE
        }
    }

    /// The collision check, decided exactly by [`Obstacle::hits`].
    pub fn hit_obstacle(&self, player: &Player) -> (r: bool)
        requires
            self.wf(),
        ensures
            r == self.hits(*player),
    {
        let half_size = self.size / 2;
        let does_x_match = player.x == self.x;
        let player_above_gap = player.y < (self.gap_y - half_size) * Y_SCALE;
        let player_below_gap = player.y > (self.gap_y + half_size) * Y_SCALE;
        does_x_match && (player_above_gap || player_below_gap)
    }
}

} // verus!
