//! The wall ahead of the dragon, and the gap in it.

use vstd::prelude::*;
use crate::bracket::{cp437, draw_in_range, fresh_generator, glyph_code};
use crate::draw::{Color, Draw, SCREEN_HEIGHT};
use crate::player::{Player, PlayerModel};

verus! {

/// The smallest row at which the middle of a gap may lie.
pub const GAP_Y_MIN: i32 = 10;

/// The first row, below [`GAP_Y_MIN`], at which the middle of a gap may not lie.
pub const GAP_Y_END: i32 = 40;

/// The size of the gap in the first wall.
pub const WIDEST_GAP: i32 = 20;

/// The size below which no gap shrinks.
pub const NARROWEST_GAP: i32 = 2;

/// The character that walls are built of.
pub const WALL_GLYPH: char = '|';

/// The size of the gap in the wall that follows `score` passed walls: one
/// less for each wall passed, down to the narrowest gap.
pub open spec fn gap_size(score: int) -> int {
    if WIDEST_GAP - score > NARROWEST_GAP {
        WIDEST_GAP - score
    } else {
        NARROWEST_GAP as int
    }
}

/// The request that draws one cell of wall: the glyph of the wall's
/// character, red on black.
pub open spec fn wall_cell(column: int, row: int) -> Draw {
    Draw::Glyph {
        x: column as i32,
        y: row as i32,
        fg: Color::Red,
        bg: Color::Black,
        glyph: cp437(WALL_GLYPH),
    }
}

/// The requests that draw a run of wall in one column, from row `first` down
/// to the row above `end`; none if `end` is not below `first`.
pub open spec fn wall_run(column: int, first: int, end: int) -> Seq<Draw> {
    Seq::new(
        (if end > first {
            end - first
        } else {
            0
        }) as nat,
        |i: int| wall_cell(column, first + i),
    )
}

/// A wall as the contracts see it: unbounded integers.
pub struct ObstacleModel {
    /// The column of the world in which the wall stands.
    pub x: int,
    /// The row at the middle of the gap.
    pub gap_y: int,
    /// The size of the gap; half of it opens to either side of the middle.
    pub size: int,
}

/// A wall with a gap in it.
#[derive(Clone, Copy, Debug, PartialEq, Eq)]
pub struct Obstacle {
    /// The column of the world in which the wall stands.
    pub x: i32,
    /// The row at the middle of the gap.
    pub gap_y: i32,
    /// The size of the gap; half of it opens to either side of the middle.
    pub size: i32,
}

impl View for Obstacle {
    type V = ObstacleModel;

    open spec fn view(&self) -> ObstacleModel {
        ObstacleModel { x: self.x as int, gap_y: self.gap_y as int, size: self.size as int }
    }
}

impl ObstacleModel {
    /// The middle of the gap lies in the rows that gaps are drawn from, and
    /// the gap is neither narrower than the narrowest nor wider than the widest.
    pub open spec fn wf(self) -> bool {
        &&& GAP_Y_MIN <= self.gap_y < GAP_Y_END
        &&& NARROWEST_GAP <= self.size <= WIDEST_GAP
    }

    /// The wall in column `x` that follows `score` passed walls, with its gap
    /// around row `gap_y`.
    pub open spec fn with_gap(x: int, score: int, gap_y: int) -> ObstacleModel {
        ObstacleModel { x, gap_y, size: gap_size(score) }
    }

    /// How far the gap opens to either side of its middle.
    pub open spec fn half_size(self) -> int {
        self.size / 2
    }

    /// The dragon is in the wall's column and strictly above or strictly
    /// below the rows that the gap reaches.
    pub open spec fn hits(self, player: PlayerModel) -> bool {
        &&& self.x == player.x
        &&& (player.y < self.gap_y - self.half_size() || player.y > self.gap_y
            + self.half_size())
    }

    /// The requests that draw the wall for a dragon that has travelled
    /// `player_x` columns: the run above the gap, then the run below it, in
    /// the screen column that lies as far from the dragon's as the wall does.
    pub open spec fn wall(self, player_x: int) -> Seq<Draw> {
        wall_run(self.x - player_x, 0, self.gap_y - self.half_size()) + wall_run(
            self.x - player_x,
            self.gap_y + self.half_size(),
            SCREEN_HEIGHT as int,
        )
    }
}

/// Appends the requests that draw one run of wall.
fn draw_wall_run(draws: &mut Vec<Draw>, column: i32, first: i32, end: i32)
    ensures
        final(draws)@ == old(draws)@ + wall_run(column as int, first as int, end as int),
{
    let ghost before = draws@;
    let mut row: i32 = first;
    while row < end
        invariant
            first <= row,
            row <= end || row == first,
            draws@ == before + wall_run(column as int, first as int, row as int),
        decreases end - row,
    {
        draws.push(
            Draw::Glyph {
                x: column,
                y: row,
                fg: Color::Red,
                bg: Color::Black,
                glyph: glyph_code(WALL_GLYPH),
            },
        );
        row += 1;
    }
}

impl Obstacle {
    /// See [`ObstacleModel::wf`].
    pub open spec fn wf(&self) -> bool {
        self@.wf()
    }

    /// The wall in column `x` that follows `score` passed walls, with its gap
    /// around row `gap_y`. The score must not be so far below zero that the
    /// size of the gap cannot be represented.
    pub fn with_gap(x: i32, score: i32, gap_y: i32) -> (obstacle: Obstacle)
        requires
            WIDEST_GAP - score <= i32::MAX,
        ensures
            obstacle@ == ObstacleModel::with_gap(x as int, score as int, gap_y as int),
            obstacle.size >= NARROWEST_GAP,
            score >= 0 ==> obstacle.size <= WIDEST_GAP,
    {
        let shrunk: i32 = WIDEST_GAP - score;
        Obstacle { x, gap_y, size: if shrunk > NARROWEST_GAP { shrunk } else { NARROWEST_GAP } }
    }

    /// The wall in column `x` that follows `score` passed walls, with its gap
    /// around a row drawn at random from [`GAP_Y_MIN`] up to but not
    /// including [`GAP_Y_END`].
    pub fn new(x: i32, score: i32) -> (obstacle: Obstacle)
        requires
            WIDEST_GAP - score <= i32::MAX,
        ensures
            obstacle@ == ObstacleModel::with_gap(x as int, score as int, obstacle.gap_y as int),
            GAP_Y_MIN <= obstacle.gap_y < GAP_Y_END,
            obstacle.size >= NARROWEST_GAP,
            score >= 0 ==> obstacle.wf(),
    {
        let mut random = fresh_generator();
        let gap_y = draw_in_range(&mut random, GAP_Y_MIN, GAP_Y_END);
        Obstacle::with_gap(x, score, gap_y)
    }

    /// Appends the requests that draw the wall for a dragon that has
    /// travelled `player_x` columns. The distance between wall and dragon must
    /// be representable.
    pub fn render(&self, draws: &mut Vec<Draw>, player_x: i32)
        requires
            self.wf(),
            i32::MIN <= self.x - player_x <= i32::MAX,
        ensures
            final(draws)@ == old(draws)@ + self@.wall(player_x as int),
    {
        let half_size = self.size / 2;
        let screen_x = self.x - player_x;
        draw_wall_run(draws, screen_x, 0, self.gap_y - half_size);
        draw_wall_run(draws, screen_x, self.gap_y + half_size, SCREEN_HEIGHT);
    }

    /// Whether the dragon has flown into the wall: it is in the wall's column
    /// and strictly above or strictly below the rows that the gap reaches.
    pub fn hit_obstacle(&self, player: &Player) -> (hit: bool)
        requires
            self.wf(),
        ensures
            hit == self@.hits(player@),
            hit <==> self.x == player.x && (player.y < self.gap_y - self.size / 2 || player.y
                > self.gap_y + self.size / 2),
    {
        let half_size = self.size / 2;
        let does_x_match = self.x == player.x;
        let is_player_above_gap = player.y < self.gap_y - half_size;
        let is_player_below_gap = player.y > self.gap_y + half_size;
        does_x_match && (is_player_below_gap || is_player_above_gap)
    }
}

} // verus!
