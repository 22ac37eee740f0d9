//! A side-scrolling reflex game, without the screen: a dragon falls under
//! gravity and must flap through the gaps of a never-ending row of walls.
//!
//! The crate holds the rules of the game as a state machine. Once per frame
//! the host hands [`game::State::tick`] the key that was pressed and the
//! milliseconds that have gone by, and gets back the frame to draw and
//! whether to quit.
//!
//! - [`player`]: the dragon and its physics, with velocity in tenths of a row.
//! - [`obstacle`]: the wall, its gap, and when the dragon hits it.
//! - [`game`]: the modes of the game and what a tick does in each.
//! - [`draw`]: the drawing requests that frames are made of.
//! - [`laws`]: what holds of every game, proved over the models.
//! - [`bracket`]: what is taken on trust from bracket-lib.

pub mod bracket;
pub mod draw;
pub mod game;
pub mod laws;
pub mod obstacle;
pub mod player;
