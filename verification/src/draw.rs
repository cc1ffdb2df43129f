//! Plain values describing one frame's drawing work.
//!
//! The game logic never touches a screen: each tick it returns a sequence of
//! [`DrawCommand`] values, in the order they are to be performed, and the
//! renderer around the library interprets them. Text is carried structurally
//! in [`Text`], so the library states exactly which line, with which score,
//! is printed where, and the renderer owns the wording.

use vstd::prelude::*;

verus! {

/// The palette the game draws with; the renderer maps each name to its color.
#[derive(Clone, Copy, Debug, PartialEq, Eq, Structural)]
pub enum Color {
    Yellow,
    Navy,
    Gray,
    White,
    Cyan,
    Magenta,
    Red,
    Black,
}

/// A line of text the game prints; score-bearing lines carry the score.
#[derive(Clone, Copy, Debug, PartialEq, Eq, Structural)]
pub enum Text {
    /// The menu title line.
    Title,
    /// The "play" menu option.
    PlayOption,
    /// The "play again" option on the death screen.
    PlayAgainOption,
    /// The "quit" menu option.
    QuitOption,
    /// The in-game line naming the flap key.
    FlapHint,
    /// The in-game score line, carrying the current score.
    Score(i32),
    /// The death message line.
    DeadMessage,
    /// The death-screen line reporting the points earned.
    Earned(i32),
}

/// One drawing operation, in renderer-independent terms.
#[derive(Clone, Copy, Debug, PartialEq, Eq, Structural)]
pub enum DrawCommand {
    /// Clear the whole screen.
    ClearScreen,
    /// Clear the background to a color.
    ClearBackground(Color),
    /// Draw the player sprite at screen column 0, at a vertical position
    /// given in tenths of a row.
    Sprite { y_tenths: i32 },
    /// Set one character cell.
    Cell { x: i32, y: i32, fg: Color, bg: Color, glyph: i32 },
    /// Print a text line at a position, in color.
    Print { x: i32, y: i32, fg: Color, bg: Color, text: Text },
    /// Print a text line centered on a row, in color.
    PrintCentered { y: i32, fg: Color, bg: Color, text: Text },
    /// Print a text line centered on a row, in the default colors.
    PrintCenteredPlain { y: i32, text: Text },
}

} // verus!
