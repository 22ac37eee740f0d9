//! What the game asks its display to do.
//!
//! The game never touches a terminal. Each tick it hands back the list of
//! drawing requests that make up the frame, in the order in which they are to
//! be carried out, and the host carries them out on whatever surface it owns.

use vstd::prelude::*;

verus! {

/// Width of the screen, in columns.
pub const SCREEN_WIDTH: i32 = 80;

/// Height of the screen, in rows.
pub const SCREEN_HEIGHT: i32 = 50;

/// The colours the game paints with.
#[derive(Clone, Copy, Debug, PartialEq, Eq)]
pub enum Color {
    Black,
    Navy,
    Red,
    Yellow,
}

/// A line of text the game shows. The host chooses the wording; the game
/// chooses which line appears, where, and with which number in it.
#[derive(Clone, Copy, Debug, PartialEq, Eq)]
pub enum Label {
    /// The greeting at the top of the menu.
    Title,
    /// The menu line that offers a new game.
    PlayOption,
    /// The menu line that offers to leave.
    QuitOption,
    /// The announcement that the dragon has died.
    GameOver,
    /// The number of obstacles passed in the game that just ended.
    Earned(i32),
    /// The reminder of which key flaps.
    FlapHint,
    /// The number of obstacles passed so far.
    Score(i32),
}

/// One request to the display.
#[derive(Clone, Copy, Debug, PartialEq, Eq)]
pub enum Draw {
    /// Blank the whole screen.
    Clear,
    /// Blank the whole screen to the given background colour.
    ClearBackground { color: Color },
    /// Put one glyph, given by its code in code page 437, into the cell at
    /// column `x`, row `y`.
    Glyph { x: i32, y: i32, fg: Color, bg: Color, glyph: u16 },
    /// Write a line of text starting at column `x` of row `y`.
    Print { x: i32, y: i32, label: Label },
    /// Write a line of text centred on row `y`.
    PrintCentered { y: i32, label: Label },
}

} // verus!
