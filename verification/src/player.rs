//! The player: a falling, flapping body with a world column, a vertical
//! position and a vertical velocity, both vertical quantities in tenths of a
//! row.

use vstd::prelude::*;

use crate::draw::DrawCommand;
use crate::DELTA_V;
use crate::FLAP_DELTA_V;
use crate::TERMINAL_VELOCITY;
use crate::Y_SCALE;

verus! {

/// The player body. `y` and `velocity` are in tenths of a row; `x` is the
/// world column, advancing by one per physics step.
pub struct Player {
    pub x: i32,
    pub y: i32,
    pub velocity: i32,
}

/// The draw calls one frame of the player makes: a single sprite at screen
/// column 0, at the player's vertical position.
pub open spec fn player_frame(y_tenths: i32) -> Seq<DrawCommand> {
    seq![DrawCommand::Sprite { y_tenths }]
}

/// One physics step of the player, as a value: the velocity grows by
/// [`DELTA_V`] but never beyond [`TERMINAL_VELOCITY`], the new velocity moves
/// `y` (clamped to the top edge at 0), and the world column advances by one.
pub open spec fn advanced(p: Player) -> Player {
    let v = vstd::math::min(p.velocity + DELTA_V, TERMINAL_VELOCITY as int);
    Player {
        x: (p.x + 1) as i32,
        y: vstd::math::max(0, p.y + v) as i32,
        velocity: v as i32,
    }
}

/// A flap of the player, as a value: the velocity becomes exactly
/// [`FLAP_DELTA_V`], whatever it was before; position is untouched.
pub open spec fn flapped(p: Player) -> Player {
    Player { velocity: FLAP_DELTA_V, ..p }
}

impl Player {
    /// The world column is never negative, the vertical position never rises
    /// past the top edge (row 0) after clamping, and the velocity stays
    /// between one flap impulse and terminal velocity.
    pub open spec fn wf(self) -> bool {
        &&& 0 <= self.x
        &&& self.y >= 0
        &&& FLAP_DELTA_V <= self.velocity <= TERMINAL_VELOCITY
    }

    /// A new player at world column `x` and screen row `y`, at rest.
    pub fn new(x: i32, y: i32) -> (r: Player)
        requires
            0 <= x,
            0 <= y,
            y * Y_SCALE <= i32::MAX,
        ensures
            r.x == x,
            r.y == y * Y_SCALE,
            r.velocity == 0,
            r.wf(),
    {
        Player { x, y: y * Y_SCALE, velocity: 0 }
    }

    /// One physics step: gravity raises the velocity by [`DELTA_V`] up to
    /// [`TERMINAL_VELOCITY`], the new velocity moves `y` (clamped to the top
    /// edge at 0), and the world column advances by one.
    pub fn gravity_and_move(&mut self)
        requires
            old(self).wf(),
            old(self).x < i32::MAX,
            old(self).y <= i32::MAX - TERMINAL_VELOCITY,
        ensures
            *final(self) == advanced(*old(self)),
            final(self).velocity == vstd::math::min(
                old(self).velocity + DELTA_V,
                TERMINAL_VELOCITY as int,
            ),
            final(self).y == vstd::math::max(0, old(self).y + final(self).velocity),
            final(self).x == old(self).x + 1,
            final(self).wf(),
    {
        if self.velocity < TERMINAL_VELOCITY {
            self.velocity = self.velocity + DELTA_V;
        }

        self.y = self.y + self.velocity;
        self.x = self.x + 1;

        if self.y < 0 {
            self.y = 0;
        }
    }

    /// A flap replaces the velocity with the fixed upward impulse
    /// [`FLAP_DELTA_V`], whatever the velocity was before.
    pub fn flap(&mut self)
        ensures
            *final(self) == flapped(*old(self)),
            final(self).velocity == FLAP_DELTA_V,
            final(self).x == old(self).x,
            final(self).y == old(self).y,
    {
        self.velocity = FLAP_DELTA_V;
    }

    /// The player's frame of draw calls. Drawing never changes the player.
    pub fn render(&mut self) -> (r: Vec<DrawCommand>)
        ensures
            *final(self) == *old(self),
            r@ == player_frame(old(self).y),
    {
        let mut cmds: Vec<DrawCommand> = Vec::new();
        cmds.push(DrawCommand::Sprite { y_tenths: self.y });
        assert(cmds@ =~= player_frame(self.y));
        cmds
    }
}

} // verus!
