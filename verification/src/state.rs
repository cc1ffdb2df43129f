//! The game state machine: a mode (menu, playing, dead), the player, the
//! live obstacle, the score, and the frame-time accumulator that throttles
//! physics steps to one per elapsed frame duration.
//!
//! Every mode's per-tick behavior is captured by a step predicate
//! ([`menu_step`], [`play_step`], [`dead_step`]) relating the state before
//! the tick, the tick's inputs, the state after, and the frame of draw
//! commands the tick hands back.

use vstd::prelude::*;

use crate::draw::Color;
use crate::draw::DrawCommand;
use crate::draw::Text;
use crate::obstacle::gap_size;
use crate::obstacle::obstacle_frame;
use crate::obstacle::Obstacle;
use crate::player::advanced;
use crate::player::flapped;
use crate::player::player_frame;
use crate::player::Player;
use crate::FLAP_DELTA_V;
use crate::FRAME_DURATION;
use crate::GAP_Y_MAX;
use crate::GAP_Y_MIN;
use crate::GROUND_GLYPH;
use crate::PLAYER_START_X;
use crate::SCREEN_HEIGHT;
use crate::SCREEN_WIDTH;
use crate::TERMINAL_VELOCITY;
use crate::Y_SCALE;

verus! {

/// The three modes of the game; exactly one is active.
#[derive(Clone, Copy, Debug, PartialEq, Eq, Structural)]
pub enum GameMode {
    Menu,
    Playing,
    End,
}

/// The keys the game reacts to; every other key is `Other`.
#[derive(Clone, Copy, Debug, PartialEq, Eq, Structural)]
pub enum Key {
    Space,
    P,
    Q,
    Other,
}

/// What one tick hands back to the surrounding loop: the draw commands of
/// this frame, in order, and whether the player asked to quit.
pub struct Frame {
    pub commands: Vec<DrawCommand>,
    pub quitting: bool,
}

/// The whole game: mode, score, frame-time accumulator in milliseconds, and
/// the two live entities.
pub struct State {
    pub player: Player,
    pub frame_time: u32,
    pub mode: GameMode,
    pub score: i32,
    pub obstacle: Obstacle,
}

/// The player as every game starts it: at the fixed start column, vertically
/// centered, at rest.
pub open spec fn start_player() -> Player {
    Player {
        x: PLAYER_START_X,
        y: (((SCREEN_HEIGHT as int) / 2) * (Y_SCALE as int)) as i32,
        velocity: 0,
    }
}

/// A state just (re)started: score and frame time zeroed, mode set to
/// playing, the player at its start state, and a fresh obstacle at the
/// initial spawn column, sized for score 0, its gap center drawn from the
/// random band.
pub open spec fn restarted(post: State) -> bool {
    &&& post.player == start_player()
    &&& post.frame_time == 0
    &&& post.mode == GameMode::Playing
    &&& post.score == 0
    &&& post.obstacle.x == SCREEN_WIDTH
    &&& post.obstacle.size == gap_size(0)
    &&& GAP_Y_MIN <= post.obstacle.gap_y < GAP_Y_MAX
}

/// The draw calls of one menu frame.
pub open spec fn menu_commands() -> Seq<DrawCommand> {
    seq![
        DrawCommand::ClearScreen,
        DrawCommand::PrintCentered { y: 5, fg: Color::Yellow, bg: Color::Black, text: Text::Title },
        DrawCommand::PrintCentered {
            y: 8,
            fg: Color::Cyan,
            bg: Color::Black,
            text: Text::PlayOption,
        },
        DrawCommand::PrintCentered {
            y: 9,
            fg: Color::Cyan,
            bg: Color::Black,
            text: Text::QuitOption,
        },
    ]
}

/// The draw calls of one death-screen frame, reporting `score`.
pub open spec fn dead_commands(score: i32) -> Seq<DrawCommand> {
    seq![
        DrawCommand::ClearScreen,
        DrawCommand::PrintCentered {
            y: 5,
            fg: Color::Red,
            bg: Color::Black,
            text: Text::DeadMessage,
        },
        DrawCommand::PrintCenteredPlain { y: 6, text: Text::Earned(score) },
        DrawCommand::PrintCentered {
            y: 8,
            fg: Color::Cyan,
            bg: Color::Black,
            text: Text::PlayAgainOption,
        },
        DrawCommand::PrintCentered {
            y: 9,
            fg: Color::Cyan,
            bg: Color::Black,
            text: Text::QuitOption,
        },
    ]
}

/// One ground cell on the bottommost screen row.
pub open spec fn ground_cell(x: i32) -> DrawCommand {
    DrawCommand::Cell {
        x,
        y: (SCREEN_HEIGHT - 1) as i32,
        fg: Color::White,
        bg: Color::Navy,
        glyph: GROUND_GLYPH,
    }
}

/// The draw calls of the ground strip: one cell per column of the bottom row.
pub open spec fn land_frame() -> Seq<DrawCommand> {
    Seq::new(SCREEN_WIDTH as nat, |i: int| ground_cell(i as i32))
}

/// The draw calls of one playing frame: clear the background, the player
/// sprite after this tick's movement, the wall of the obstacle that was live
/// when drawing happened (before any replacement), the two HUD lines with
/// the score after this tick, and the ground strip.
pub open spec fn play_commands(
    player_after: Player,
    obstacle_before: Obstacle,
    score_after: i32,
) -> Seq<DrawCommand> {
    seq![DrawCommand::ClearBackground(Color::Navy)] + player_frame(player_after.y)
        + obstacle_frame(obstacle_before, player_after.x) + seq![
        DrawCommand::Print { x: 0, y: 0, fg: Color::Cyan, bg: Color::Navy, text: Text::FlapHint },
        DrawCommand::Print {
            x: 0,
            y: 1,
            fg: Color::Magenta,
            bg: Color::Navy,
            text: Text::Score(score_after),
        },
    ] + land_frame()
}

/// Death this tick: the player's whole-row position has passed the ground
/// row, or the live obstacle reports a collision.
pub open spec fn crashed(p: Player, o: Obstacle) -> bool {
    ||| (p.y as int) / (Y_SCALE as int) > SCREEN_HEIGHT - 1
    ||| o.hits(p)
}

/// How one menu tick relates the state before it, the polled key, the state
/// after it, and the frame handed back: the menu is drawn; `P` restarts the
/// game, `Q` asks to quit, anything else changes nothing.
pub open spec fn menu_step(pre: State, key: Option<Key>, post: State, out: Frame) -> bool {
    &&& out.commands@ == menu_commands()
    &&& match key {
        Some(Key::P) => restarted(post) && !out.quitting,
        Some(Key::Q) => post == pre && out.quitting,
        _ => post == pre && !out.quitting,
    }
}

/// How one death-screen tick relates the state before it, the polled key,
/// the state after it, and the frame handed back: the death screen reports
/// the score of the run that ended; `P` restarts, `Q` asks to quit, anything
/// else changes nothing.
pub open spec fn dead_step(pre: State, key: Option<Key>, post: State, out: Frame) -> bool {
    &&& out.commands@ == dead_commands(pre.score)
    &&& match key {
        Some(Key::P) => restarted(post) && !out.quitting,
        Some(Key::Q) => post == pre && out.quitting,
        _ => post == pre && !out.quitting,
    }
}

/// How one playing tick relates the state before it, the tick's inputs, the
/// state after it, and the frame handed back.
///
/// The elapsed milliseconds accumulate; exactly when the accumulator exceeds
/// the frame duration it resets to zero and one physics step runs. A polled
/// space key flaps, whether or not a step ran. If the player's column has
/// passed the obstacle's, the score counts one up and a fresh obstacle is
/// spawned one screen width ahead of the player, sized for the new score;
/// collision or passing the ground row ends the game. The frame holds the
/// playing draw calls against the obstacle that was live while drawing, and
/// never asks to quit.
pub open spec fn play_step(
    pre: State,
    elapsed_ms: u32,
    key: Option<Key>,
    post: State,
    out: Frame,
) -> bool {
    let step = pre.frame_time + elapsed_ms > FRAME_DURATION;
    let moved = if step {
        advanced(pre.player)
    } else {
        pre.player
    };
    let p2 = if key == Some(Key::Space) {
        flapped(moved)
    } else {
        moved
    };
    let passed = p2.x > pre.obstacle.x;
    &&& post.frame_time == if step {
        0
    } else {
        pre.frame_time + elapsed_ms
    }
    &&& post.player == p2
    &&& if passed {
        &&& post.score == pre.score + 1
        &&& post.obstacle.x == p2.x + SCREEN_WIDTH
        &&& post.obstacle.size == gap_size(post.score)
        &&& GAP_Y_MIN <= post.obstacle.gap_y < GAP_Y_MAX
    } else {
        &&& post.score == pre.score
        &&& post.obstacle == pre.obstacle
    }
    &&& post.mode == if crashed(p2, post.obstacle) {
        GameMode::End
    } else {
        pre.mode
    }
    &&& out.commands@ == play_commands(p2, pre.obstacle, post.score)
    &&& !out.quitting
}

/// The ground strip: one cell per column of the bottommost screen row.
pub fn render_land() -> (r: Vec<DrawCommand>)
    ensures
        r@ == land_frame(),
{
    let mut cmds: Vec<DrawCommand> = Vec::new();
    let mut x: i32 = 0;
    while x < SCREEN_WIDTH
        invariant
            0 <= x <= SCREEN_WIDTH,
            cmds@ =~= Seq::new(x as nat, |i: int| ground_cell(i as i32)),
        decreases SCREEN_WIDTH - x,
    {
        cmds.push(DrawCommand::Cell {
            x,
            y: SCREEN_HEIGHT - 1,
            fg: Color::White,
            bg: Color::Navy,
            glyph: GROUND_GLYPH,
        });
        x = x + 1;
    }
    assert(cmds@ =~= land_frame());
    cmds
}

impl State {
    /// The whole game is well formed: both entities are, the score is never
    /// negative, the accumulator never holds more than one frame duration,
    /// and the player has not passed the live obstacle by more than the one
    /// tick in which it is replaced.
    pub open spec fn wf(self) -> bool {
        &&& self.player.wf()
        &&& self.obstacle.wf()
        &&& 0 <= self.score
        &&& self.frame_time <= FRAME_DURATION
        &&& self.player.x <= self.obstacle.x
    }

    /// Decide [`State::wf`] at run time, for callers outside the verified
    /// world that must test it before handing a state back in.
    pub fn check_well_formed(&self) -> (r: bool)
        ensures
            r == self.wf(),
    {
        self.player.x >= 0 && self.player.y >= 0 && self.player.velocity >= FLAP_DELTA_V
            && self.player.velocity <= TERMINAL_VELOCITY && self.obstacle.size >= 2
            && self.obstacle.size <= 20 && self.obstacle.gap_y >= GAP_Y_MIN && self.obstacle.gap_y
            <= GAP_Y_MAX && self.score >= 0 && self.frame_time <= FRAME_DURATION && self.player.x
            <= self.obstacle.x
    }

    /// A fresh game: at the menu, score 0, the player at its start state, an
    /// obstacle spawned at the initial column for score 0.
    pub fn new() -> (r: State)
        ensures
            r.mode == GameMode::Menu,
            r.score == 0,
            r.frame_time == 0,
            r.player == start_player(),
            r.obstacle.x == SCREEN_WIDTH,
            r.obstacle.size == gap_size(0),
            GAP_Y_MIN <= r.obstacle.gap_y < GAP_Y_MAX,
            r.wf(),
    {
        State {
            player: Player::new(PLAYER_START_X, SCREEN_HEIGHT / 2),
            frame_time: 0,
            mode: GameMode::Menu,
            score: 0,
            obstacle: Obstacle::new(SCREEN_WIDTH, 0),
        }
    }

    /// Start a run over, from any mode: score and frame time to zero, mode
    /// to playing, the player to its start state, and a fresh obstacle at
    /// the initial spawn column, sized for score 0.
    pub fn restart(&mut self)
        ensures
            restarted(*final(self)),
            final(self).wf(),
    {
        self.player = Player::new(PLAYER_START_X, SCREEN_HEIGHT / 2);
        self.frame_time = 0;
        self.mode = GameMode::Playing;
        self.score = 0;
        self.obstacle = Obstacle::new(SCREEN_WIDTH, 0);
    }

    /// One tick at the menu: draw the menu and react to the polled key.
    pub fn main_menu(&mut self, key: Option<Key>) -> (r: Frame)
        requires
            old(self).wf(),
        ensures
            menu_step(*old(self), key, *final(self), r),
            final(self).wf(),
    {
        let mut cmds: Vec<DrawCommand> = Vec::new();
        cmds.push(DrawCommand::ClearScreen);
        cmds.push(DrawCommand::PrintCentered {
            y: 5,
            fg: Color::Yellow,
            bg: Color::Black,
            text: Text::Title,
        });
        cmds.push(DrawCommand::PrintCentered {
            y: 8,
            fg: Color::Cyan,
            bg: Color::Black,
            text: Text::PlayOption,
        });
        cmds.push(DrawCommand::PrintCentered {
            y: 9,
            fg: Color::Cyan,
            bg: Color::Black,
            text: Text::QuitOption,
        });
        assert(cmds@ =~= menu_commands());

        let mut quitting = false;
        match key {
            Some(Key::P) => self.restart(),
            Some(Key::Q) => quitting = true,
            _ => (),
        }
        Frame { commands: cmds, quitting }
    }

    /// One tick at the death screen: draw the report of the run that ended
    /// and react to the polled key.
    pub fn dead(&mut self, key: Option<Key>) -> (r: Frame)
        requires
            old(self).wf(),
        ensures
            dead_step(*old(self), key, *final(self), r),
            final(self).wf(),
    {
        let mut cmds: Vec<DrawCommand> = Vec::new();
        cmds.push(DrawCommand::ClearScreen);
        cmds.push(DrawCommand::PrintCentered {
            y: 5,
            fg: Color::Red,
            bg: Color::Black,
            text: Text::DeadMessage,
        });
        cmds.push(DrawCommand::PrintCenteredPlain { y: 6, text: Text::Earned(self.score) });
        cmds.push(DrawCommand::PrintCentered {
            y: 8,
            fg: Color::Cyan,
            bg: Color::Black,
            text: Text::PlayAgainOption,
        });
        cmds.push(DrawCommand::PrintCentered {
            y: 9,
            fg: Color::Cyan,
            bg: Color::Black,
            text: Text::QuitOption,
        });
        assert(cmds@ =~= dead_commands(self.score));

        let mut quitting = false;
        match key {
            Some(Key::P) => self.restart(),
            Some(Key::Q) => quitting = true,
            _ => (),
        }
        Frame { commands: cmds, quitting }
    }

    /// One playing tick; see [`play_step`] for everything it does.
    pub fn play(&mut self, elapsed_ms: u32, key: Option<Key>) -> (r: Frame)
        requires
            old(self).wf(),
            elapsed_ms <= u32::MAX - FRAME_DURATION,
            old(self).player.x <= i32::MAX - SCREEN_WIDTH - 1,
            old(self).player.y <= i32::MAX - TERMINAL_VELOCITY,
            old(self).score < i32::MAX,
        ensures
            play_step(*old(self), elapsed_ms, key, *final(self), r),
            final(self).wf(),
    {
        let mut cmds: Vec<DrawCommand> = Vec::new();
        cmds.push(DrawCommand::ClearBackground(Color::Navy));

        self.frame_time = self.frame_time + elapsed_ms;
        if self.frame_time > FRAME_DURATION {
            self.frame_time = 0;
            self.player.gravity_and_move();
        }

        if let Some(Key::Space) = key {
            self.player.flap();
        }

        let mut player_cmds = self.player.render();
        cmds.append(&mut player_cmds);

        let mut obstacle_cmds = self.obstacle.render(self.player.x);
        cmds.append(&mut obstacle_cmds);

        if self.player.x > self.obstacle.x {
            self.score = self.score + 1;
            self.obstacle = Obstacle::new(self.player.x + SCREEN_WIDTH, self.score);
        }

        cmds.push(DrawCommand::Print {
            x: 0,
            y: 0,
            fg: Color::Cyan,
            bg: Color::Navy,
            text: Text::FlapHint,
        });
        cmds.push(DrawCommand::Print {
            x: 0,
            y: 1,
            fg: Color::Magenta,
            bg: Color::Navy,
            text: Text::Score(self.score),
        });

        let mut land_cmds = render_land();
        cmds.append(&mut land_cmds);

        if self.player.y / Y_SCALE > SCREEN_HEIGHT - 1 || self.obstacle.hit_obstacle(
            &self.player,
        ) {
            self.mode = GameMode::End;
        }

        assert(cmds@ =~= play_commands(self.player, old(self).obstacle, self.score));
        Frame { commands: cmds, quitting: false }
    }

    /// One tick of the whole game: dispatch on the current mode. Which step
    /// relation the tick satisfies is decided by the mode before the tick.
    pub fn tick(&mut self, elapsed_ms: u32, key: Option<Key>) -> (r: Frame)
        requires
            old(self).wf(),
            old(self).mode == GameMode::Playing ==> {
                &&& elapsed_ms <= u32::MAX - FRAME_DURATION
                &&& old(self).player.x <= i32::MAX - SCREEN_WIDTH - 1
                &&& old(self).player.y <= i32::MAX - TERMINAL_VELOCITY
                &&& old(self).score < i32::MAX
            },
        ensures
            final(self).wf(),
            match old(self).mode {
                GameMode::Menu => menu_step(*old(self), key, *final(self), r),
                GameMode::Playing => play_step(*old(self), elapsed_ms, key, *final(self), r),
                GameMode::End => dead_step(*old(self), key, *final(self), r),
            },
    {
        match self.mode {
            GameMode::Menu => self.main_menu(key),
            GameMode::End => self.dead(key),
            GameMode::Playing => self.play(elapsed_ms, key),
        }
    }
}

/// One physics step runs exactly on the tick where the frame-time
/// accumulator first exceeds the frame duration: that tick advances the
/// player's world column by one and resets the accumulator, and the
/// following tick, if its elapsed time alone does not exceed the frame
/// duration, performs no step — the player's column stands still and the
/// accumulator holds just that elapsed time.
pub proof fn lemma_one_step_per_threshold(
    pre: State,
    e1: u32,
    k1: Option<Key>,
    mid: State,
    f1: Frame,
    e2: u32,
    k2: Option<Key>,
    post: State,
    f2: Frame,
)
    requires
        pre.player.x < i32::MAX,
        play_step(pre, e1, k1, mid, f1),
        pre.frame_time + e1 > FRAME_DURATION,
        play_step(mid, e2, k2, post, f2),
        e2 <= FRAME_DURATION,
    ensures
        mid.frame_time == 0,
        mid.player.x == pre.player.x + 1,
        post.player.x == mid.player.x,
        post.frame_time == e2,
{
}

} // verus!
