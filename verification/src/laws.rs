//! What holds of the game whatever is played: statements over the models,
//! each proved once and for all.

use vstd::prelude::*;
use crate::draw::{SCREEN_HEIGHT, SCREEN_WIDTH};
use crate::game::{Key, StateModel, START_X, START_Y};
use crate::obstacle::{gap_size, GAP_Y_END, GAP_Y_MIN, NARROWEST_GAP, WIDEST_GAP};
use crate::player::{PlayerModel, FLAP_VELOCITY, GRAVITY, TERMINAL_VELOCITY};

verus! {

/// The dragon after a number of physics steps in a row, with no flap between them.
pub open spec fn fall(player: PlayerModel, steps: nat) -> PlayerModel
    decreases steps,
{
    if steps == 0 {
        player
    } else {
        fall(player, (steps - 1) as nat).gravity_and_move()
    }
}

/// The gap of a wall is the widest gap less the score at which the wall was
/// built, or the narrowest gap where that would be narrower still. So no gap
/// is narrower than the narrowest, every passed wall narrows the next gap by
/// one row until it is the narrowest, and no gap built at a score of zero or
/// more is wider than the widest.
pub proof fn gap_shrinks_but_never_closes(score: int)
    ensures
        gap_size(score) == vstd::math::max(NARROWEST_GAP as int, WIDEST_GAP - score),
        gap_size(score) >= NARROWEST_GAP,
        score >= 0 ==> gap_size(score) <= WIDEST_GAP,
        score < WIDEST_GAP - NARROWEST_GAP ==> gap_size(score + 1) == gap_size(score) - 1,
        score >= WIDEST_GAP - NARROWEST_GAP ==> gap_size(score) == NARROWEST_GAP,
{
}

/// One physics step adds gravity to a velocity below the terminal velocity
/// and leaves any other velocity alone; it advances the dragon by exactly one
/// column; and it never leaves the dragon above the top row.
pub proof fn physics_step(player: PlayerModel)
    ensures
        player.velocity < TERMINAL_VELOCITY ==> player.gravity_and_move().velocity
            == player.velocity + GRAVITY,
        player.velocity >= TERMINAL_VELOCITY ==> player.gravity_and_move().velocity
            == player.velocity,
        player.gravity_and_move().x == player.x + 1,
        player.gravity_and_move().y >= 0,
        player.wf() ==> player.gravity_and_move().wf(),
{
}

/// Over any number of physics steps with no flap between them, a well-formed
/// dragon gains gravity at each step until it falls at the terminal velocity,
/// and never falls faster; it advances one column per step; and it stays
/// well-formed, so it is never above the top row.
pub proof fn falling_is_capped(player: PlayerModel, steps: nat)
    requires
        player.wf(),
    ensures
        fall(player, steps).wf(),
        fall(player, steps).velocity == vstd::math::min(
            TERMINAL_VELOCITY as int,
            player.velocity + GRAVITY * steps,
        ),
        fall(player, steps).velocity <= TERMINAL_VELOCITY,
        fall(player, steps).x == player.x + steps,
        fall(player, steps).y >= 0,
    decreases steps,
{
    if steps > 0 {
        falling_is_capped(player, (steps - 1) as nat);
    }
}

/// A flap sets the velocity to the flap velocity whatever it was before, and
/// moves nothing.
pub proof fn flap_overrides(player: PlayerModel)
    ensures
        player.flap().velocity == FLAP_VELOCITY,
        player.flap().x == player.x,
        player.flap().y == player.y,
        player.y >= 0 ==> player.flap().wf(),
{
}

/// In play the dragon advances by exactly one column on a tick on which a
/// physics step is due and stays in its column on every other tick. Outside
/// play it moves only when a new game puts it back at the start.
pub proof fn column_advances_with_steps(
    state: StateModel,
    key: Option<Key>,
    elapsed_ms: int,
    gap_y: int,
)
    ensures
        state.mode is Playing && state.step_due(elapsed_ms) ==> state.tick(
            key,
            elapsed_ms,
            gap_y,
        ).player.x == state.player.x + 1,
        state.mode is Playing && !state.step_due(elapsed_ms) ==> state.tick(
            key,
            elapsed_ms,
            gap_y,
        ).player.x == state.player.x,
        !(state.mode is Playing) && key != Some(Key::P) ==> state.tick(
            key,
            elapsed_ms,
            gap_y,
        ).player.x == state.player.x,
        !(state.mode is Playing) && key == Some(Key::P) ==> state.tick(
            key,
            elapsed_ms,
            gap_y,
        ).player.x == START_X,
{
}

/// A tick in play on which the dragon leaves the wall behind adds exactly one
/// to the score and builds the next wall a screen's width ahead of the
/// dragon, with the gap that goes with the new score. On every other tick in
/// play score and wall stay as they are.
pub proof fn passing_scores_one(state: StateModel, key: Option<Key>, elapsed_ms: int, gap_y: int)
    ensures
        ({
            let flown = state.fly(key, elapsed_ms);
            let after = state.play(key, elapsed_ms, gap_y);
            &&& flown.passed() ==> {
                &&& after.score == state.score + 1
                &&& after.obstacle.x == after.player.x + SCREEN_WIDTH
                &&& after.obstacle.size == gap_size(after.score)
                &&& after.obstacle.gap_y == gap_y
            }
            &&& !flown.passed() ==> {
                &&& after.score == state.score
                &&& after.obstacle == state.obstacle
            }
            &&& after.player == flown.player
        }),
{
}

/// No wall is skipped. In a well-formed game the dragon leaves the wall
/// behind only on a tick on which a physics step is due, and only from the
/// wall's own column: the tick before, the wall had its one chance to be hit.
pub proof fn no_wall_is_skipped(state: StateModel, key: Option<Key>, elapsed_ms: int)
    requires
        state.wf(),
    ensures
        state.fly(key, elapsed_ms).passed() ==> {
            &&& state.step_due(elapsed_ms)
            &&& state.player.x == state.obstacle.x
            &&& state.fly(key, elapsed_ms).player.x == state.obstacle.x + 1
        },
        !state.fly(key, elapsed_ms).passed() ==> state.fly(key, elapsed_ms).player.x
            <= state.obstacle.x,
{
}

/// A new game has a score of zero, the dragon at rest at the starting place,
/// the first wall a screen's width from the world's edge with the widest gap,
/// and is in play, whatever went before.
pub proof fn restart_forgets(state: StateModel, gap_y: int)
    ensures
        ({
            let after = state.restart(gap_y);
            &&& after.mode is Playing
            &&& after.frame_time == 0
            &&& after.score == 0
            &&& after.player == (PlayerModel { x: START_X as int, y: START_Y as int, velocity: 0 })
            &&& after.obstacle.x == SCREEN_WIDTH
            &&& after.obstacle.size == WIDEST_GAP
            &&& after.obstacle.gap_y == gap_y
            &&& (GAP_Y_MIN <= gap_y < GAP_Y_END ==> after.wf())
        }),
{
}

/// The game changes mode in three ways only: `P` takes it from the menu and
/// from the end into play, and a crash takes it from play to the end. A tick
/// in play ends the game exactly when the dragon, after flying, is below the
/// bottom row or in the wall.
pub proof fn modes_change_as_drawn(
    state: StateModel,
    key: Option<Key>,
    elapsed_ms: int,
    gap_y: int,
)
    ensures
        ({
            let after = state.tick(key, elapsed_ms, gap_y);
            let flown = state.fly(key, elapsed_ms).score_pass(gap_y);
            &&& !(state.mode is Playing) && key == Some(Key::P) ==> after.mode is Playing
            &&& !(state.mode is Playing) && key != Some(Key::P) ==> after == state
            &&& state.mode is Playing && flown.crashed() ==> after.mode is End
            &&& state.mode is Playing && !flown.crashed() ==> after.mode is Playing
            &&& state.mode is Playing ==> (flown.crashed() <==> flown.player.y > SCREEN_HEIGHT
                || flown.obstacle.hits(flown.player))
        }),
{
}

/// A tick takes a well-formed game to a well-formed game, whatever key is
/// pressed, however much time has gone by and wherever in its range the gap
/// of a new wall lies. So at every moment of every game the dragon is on or
/// below the top row and falls no faster than the terminal velocity, the gap
/// is no narrower than the narrowest, and the wall is level with the dragon
/// or ahead of it.
pub proof fn ticks_keep_the_game_well_formed(
    state: StateModel,
    key: Option<Key>,
    elapsed_ms: int,
    gap_y: int,
)
    requires
        state.wf(),
        0 <= elapsed_ms,
        GAP_Y_MIN <= gap_y < GAP_Y_END,
    ensures
        state.tick(key, elapsed_ms, gap_y).wf(),
{
}

} // verus!
