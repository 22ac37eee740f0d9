//! The dragon: where it is, how fast it falls, and how it flaps.

use vstd::prelude::*;
use crate::bracket::{cp437, glyph_code};
use crate::draw::{Color, Draw};

verus! {

/// How many units of velocity make one row per step. Velocity is kept in
/// tenths of a row so that every step of gravity is exact.
pub const VELOCITY_SCALE: i32 = 10;

/// What one physics step adds to a velocity below the terminal velocity: 0.2 rows per step.
pub const GRAVITY: i32 = 2;

/// The velocity at which gravity stops accelerating the fall: 2.0 rows per step.
pub const TERMINAL_VELOCITY: i32 = 20;

/// The velocity right after a flap: 2.0 rows per step, upwards.
pub const FLAP_VELOCITY: i32 = -20;

/// The screen column in which the dragon is always drawn.
pub const PLAYER_COLUMN: i32 = 0;

/// The character that stands for the dragon.
pub const PLAYER_GLYPH: char = '@';

/// The dragon as the contracts see it: unbounded integers.
pub struct PlayerModel {
    /// Distance travelled, in columns of the world.
    pub x: int,
    /// Row on the screen; row 0 is the top.
    pub y: int,
    /// Vertical velocity in tenths of a row per step; positive is downwards.
    pub velocity: int,
}

/// The dragon.
#[derive(Clone, Copy, Debug, PartialEq, Eq)]
pub struct Player {
    /// Distance travelled, in columns of the world.
    pub x: i32,
    /// Row on the screen; row 0 is the top.
    pub y: i32,
    /// Vertical velocity in tenths of a row per step; positive is downwards.
    pub velocity: i32,
}

impl View for Player {
    type V = PlayerModel;

    open spec fn view(&self) -> PlayerModel {
        PlayerModel { x: self.x as int, y: self.y as int, velocity: self.velocity as int }
    }
}

/// The whole rows that a velocity moves the dragon in one step: the velocity
/// in rows, with its fraction cut off towards zero.
pub open spec fn whole_rows(velocity: int) -> int {
    if velocity >= 0 {
        velocity / (VELOCITY_SCALE as int)
    } else {
        -((-velocity) / (VELOCITY_SCALE as int))
    }
}

/// The request that draws the dragon at the given row: the glyph of its
/// character, yellow on black, in the dragon's column.
pub open spec fn player_glyph(row: int) -> Draw {
    Draw::Glyph {
        x: PLAYER_COLUMN,
        y: row as i32,
        fg: Color::Yellow,
        bg: Color::Black,
        glyph: cp437(PLAYER_GLYPH),
    }
}

impl PlayerModel {
    /// The dragon is on or below the top row, and its velocity is one that
    /// flaps and gravity can produce: a whole number of gravity steps between
    /// the flap velocity and the terminal velocity.
    pub open spec fn wf(self) -> bool {
        &&& self.y >= 0
        &&& FLAP_VELOCITY <= self.velocity <= TERMINAL_VELOCITY
        &&& self.velocity % (GRAVITY as int) == 0
    }

    /// The velocity after gravity has acted for one step.
    pub open spec fn pulled(self) -> int {
        if self.velocity < TERMINAL_VELOCITY {
            self.velocity + GRAVITY
        } else {
            self.velocity
        }
    }

    /// One physics step: gravity acts, the dragon moves by the whole rows of
    /// its new velocity but not above the top row, and advances one column.
    pub open spec fn gravity_and_move(self) -> PlayerModel {
        let velocity = self.pulled();
        let y = self.y + whole_rows(velocity);
        PlayerModel { x: self.x + 1, y: if y < 0 { 0 } else { y }, velocity }
    }

    /// A flap: the velocity becomes the flap velocity, whatever it was.
    pub open spec fn flap(self) -> PlayerModel {
        PlayerModel { velocity: FLAP_VELOCITY as int, ..self }
    }
}

impl Player {
    /// See [`PlayerModel::wf`].
    pub open spec fn wf(&self) -> bool {
        self@.wf()
    }

    /// A dragon at rest at the given place.
    pub fn new(x: i32, y: i32) -> (player: Player)
        ensures
            player@ == (PlayerModel { x: x as int, y: y as int, velocity: 0 }),
    {
        Player { x, y, velocity: 0 }
    }

    /// Appends the request that draws the dragon at its row.
    pub fn render(&self, draws: &mut Vec<Draw>)
        ensures
            final(draws)@ == old(draws)@.push(player_glyph(self.y as int)),
    {
        draws.push(
            Draw::Glyph {
                x: PLAYER_COLUMN,
                y: self.y,
                fg: Color::Yellow,
                bg: Color::Black,
                glyph: glyph_code(PLAYER_GLYPH),
            },
        );
    }

    /// One physics step. The dragon must have a column to advance into, and
    /// the row it falls to must be representable.
    pub fn gravity_and_move(&mut self)
        requires
            old(self).x < i32::MAX,
            i32::MIN <= old(self).y + whole_rows(old(self)@.pulled()) <= i32::MAX,
        ensures
            final(self)@ == old(self)@.gravity_and_move(),
            final(self).x == old(self).x + 1,
            final(self).y >= 0,
            old(self).velocity < TERMINAL_VELOCITY ==> final(self).velocity == old(self).velocity
                + GRAVITY,
            old(self).velocity >= TERMINAL_VELOCITY ==> final(self).velocity == old(self).velocity,
            old(self).wf() ==> final(self).wf(),
    {
        if self.velocity < TERMINAL_VELOCITY {
            self.velocity += GRAVITY;
        }
        self.y += self.velocity / VELOCITY_SCALE;
        self.x += 1;
        if self.y < 0 {
            self.y = 0;
        }
    }

    /// A flap.
    pub fn flap(&mut self)
        ensures
            final(self)@ == old(self)@.flap(),
            final(self).velocity == FLAP_VELOCITY,
            old(self).wf() ==> final(self).wf(),
    {
        self.velocity = FLAP_VELOCITY;
    }
}

} // verus!
