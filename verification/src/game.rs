//! The game as a state machine: menu, play, game over.

use vstd::prelude::*;
use crate::draw::{Color, Draw, Label, SCREEN_HEIGHT, SCREEN_WIDTH};
use crate::obstacle::{
    gap_size, Obstacle, ObstacleModel, GAP_Y_END, GAP_Y_MIN, NARROWEST_GAP, WIDEST_GAP,
};
use crate::player::{
    player_glyph, Player, PlayerModel, FLAP_VELOCITY, GRAVITY, TERMINAL_VELOCITY,
};

verus! {

/// The time, in milliseconds, that must have gone by since the last physics
/// step for the next one to be taken.
pub const FRAME_DURATION: u32 = 75;

/// The column in which every game starts.
pub const START_X: i32 = 5;

/// The row in which every game starts.
pub const START_Y: i32 = 25;

/// The row of the title and of the news of the dragon's death.
pub const TITLE_ROW: i32 = 5;

/// The row of the offer to play.
pub const PLAY_ROW: i32 = 9;

/// The row of the offer to quit.
pub const QUIT_ROW: i32 = 13;

/// The phase the game is in.
#[derive(Clone, Copy, Debug, PartialEq, Eq)]
pub enum GameMode {
    Menu,
    Playing,
    End,
}

/// A key as the game tells keys apart.
#[derive(Clone, Copy, Debug, PartialEq, Eq)]
pub enum Key {
    /// Flap.
    Space,
    /// Play.
    P,
    /// Quit.
    Q,
    /// Any key that means nothing to the game.
    Other,
}

/// What one tick asks of the host.
#[derive(Debug, PartialEq, Eq)]
pub struct Effects {
    /// The frame to show, as drawing requests in the order in which they are
    /// to be carried out.
    pub draws: Vec<Draw>,
    /// Whether the player has asked to leave.
    pub quit: bool,
}

/// The game as the contracts see it: unbounded integers.
pub struct StateModel {
    pub mode: GameMode,
    /// Milliseconds gone by since the last physics step.
    pub frame_time: int,
    pub player: PlayerModel,
    /// Walls passed in this game.
    pub score: int,
    /// The wall ahead.
    pub obstacle: ObstacleModel,
}

/// The game.
#[derive(Clone, Copy, Debug, PartialEq, Eq)]
pub struct State {
    pub mode: GameMode,
    /// Milliseconds gone by since the last physics step.
    pub frame_time: u32,
    pub player: Player,
    /// Walls passed in this game.
    pub score: i32,
    /// The wall ahead.
    pub obstacle: Obstacle,
}

impl View for State {
    type V = StateModel;

    open spec fn view(&self) -> StateModel {
        StateModel {
            mode: self.mode,
            frame_time: self.frame_time as int,
            player: self.player@,
            score: self.score as int,
            obstacle: self.obstacle@,
        }
    }
}

/// The frame of the menu: a blank screen, the title and the two offers.
pub open spec fn menu_scene() -> Seq<Draw> {
    seq![
        Draw::Clear,
        Draw::PrintCentered { y: TITLE_ROW, label: Label::Title },
        Draw::PrintCentered { y: PLAY_ROW, label: Label::PlayOption },
        Draw::PrintCentered { y: QUIT_ROW, label: Label::QuitOption },
    ]
}

impl StateModel {
    /// Dragon and wall are well-formed; the time since the last physics step
    /// is not beyond the wait for the next; the gap has the size that goes
    /// with the score; the wall is level with the dragon or ahead of it, by a
    /// screen's width at most; and a dragon in play has not dropped off the
    /// bottom of the screen.
    pub open spec fn wf(self) -> bool {
        &&& self.player.wf()
        &&& self.obstacle.wf()
        &&& 0 <= self.frame_time <= FRAME_DURATION
        &&& 0 <= self.score
        &&& self.obstacle.size == gap_size(self.score)
        &&& self.player.x <= self.obstacle.x <= self.player.x + SCREEN_WIDTH
        &&& (self.mode is Playing ==> self.player.y <= SCREEN_HEIGHT)
    }

    /// There is a column for the dragon to advance into, a number for the
    /// next score, and a column a screen's width further on for the next wall.
    pub open spec fn has_room(self) -> bool {
        &&& self.player.x + 1 + SCREEN_WIDTH <= i32::MAX
        &&& self.score + 1 <= i32::MAX
    }

    /// The start of a game: the dragon at rest at the starting place, no wall
    /// passed, and the first wall a screen's width from the world's edge with
    /// its gap around row `gap_y`.
    pub open spec fn fresh(mode: GameMode, gap_y: int) -> StateModel {
        StateModel {
            mode,
            frame_time: 0,
            player: PlayerModel { x: START_X as int, y: START_Y as int, velocity: 0 },
            score: 0,
            obstacle: ObstacleModel::with_gap(SCREEN_WIDTH as int, 0, gap_y),
        }
    }

    /// A new game, in play at once, whatever went before.
    pub open spec fn restart(self, gap_y: int) -> StateModel {
        StateModel::fresh(GameMode::Playing, gap_y)
    }

    /// What a key does in the menu and after the dragon's death: `P` starts a
    /// new game, every other key and no key leave everything as it is.
    pub open spec fn menu_choice(self, key: Option<Key>, gap_y: int) -> StateModel {
        if key == Some(Key::P) {
            self.restart(gap_y)
        } else {
            self
        }
    }

    /// Whether, with `elapsed_ms` more milliseconds gone by, a physics step is due.
    pub open spec fn step_due(self, elapsed_ms: int) -> bool {
        self.frame_time + elapsed_ms > FRAME_DURATION
    }

    /// The first part of a tick in play. Time goes by; if a physics step is
    /// due, it is taken and the wait starts anew; then the space key flaps.
    pub open spec fn fly(self, key: Option<Key>, elapsed_ms: int) -> StateModel {
        let moved = if self.step_due(elapsed_ms) {
            self.player.gravity_and_move()
        } else {
            self.player
        };
        StateModel {
            frame_time: if self.step_due(elapsed_ms) {
                0
            } else {
                self.frame_time + elapsed_ms
            },
            player: if key == Some(Key::Space) {
                moved.flap()
            } else {
                moved
            },
            ..self
        }
    }

    /// The dragon has left the wall behind.
    pub open spec fn passed(self) -> bool {
        self.player.x > self.obstacle.x
    }

    /// The second part of a tick in play. A dragon that has left the wall
    /// behind scores, and the next wall rises a screen's width ahead of it
    /// with its gap around row `gap_y`.
    pub open spec fn score_pass(self, gap_y: int) -> StateModel {
        if self.passed() {
            StateModel {
                score: self.score + 1,
                obstacle: ObstacleModel::with_gap(
                    self.player.x + SCREEN_WIDTH,
                    self.score + 1,
                    gap_y,
                ),
                ..self
            }
        } else {
            self
        }
    }

    /// The dragon has dropped off the bottom of the screen or flown into the wall.
    pub open spec fn crashed(self) -> bool {
        self.player.y > SCREEN_HEIGHT || self.obstacle.hits(self.player)
    }

    /// The last part of a tick in play. A crash ends the game.
    pub open spec fn settle(self) -> StateModel {
        if self.crashed() {
            StateModel { mode: GameMode::End, ..self }
        } else {
            self
        }
    }

    /// A tick in play: fly, score, settle. If a wall is built, its gap lies
    /// around row `gap_y`.
    pub open spec fn play(self, key: Option<Key>, elapsed_ms: int, gap_y: int) -> StateModel {
        self.fly(key, elapsed_ms).score_pass(gap_y).settle()
    }

    /// A tick in whichever mode the game is in.
    pub open spec fn tick(self, key: Option<Key>, elapsed_ms: int, gap_y: int) -> StateModel {
        match self.mode {
            GameMode::Menu => self.menu_choice(key, gap_y),
            GameMode::Playing => self.play(key, elapsed_ms, gap_y),
            GameMode::End => self.menu_choice(key, gap_y),
        }
    }

    /// Whether a tick with this key asks the host to quit: `Q`, outside play.
    pub open spec fn quits(self, key: Option<Key>) -> bool {
        !(self.mode is Playing) && key == Some(Key::Q)
    }

    /// The frame of a tick in play: the navy background; the dragon where the
    /// first part of the tick has brought it; the hint; the score as it was
    /// when the tick began; and the wall that stood when the tick began, seen
    /// from where the dragon now is.
    pub open spec fn play_scene(self, key: Option<Key>, elapsed_ms: int) -> Seq<Draw> {
        let flown = self.fly(key, elapsed_ms);
        seq![
            Draw::ClearBackground { color: Color::Navy },
            player_glyph(flown.player.y),
            Draw::Print { x: 0, y: 0, label: Label::FlapHint },
            Draw::Print { x: 0, y: 1, label: Label::Score(self.score as i32) },
        ] + self.obstacle.wall(flown.player.x)
    }

    /// The frame after the dragon's death: a blank screen, the news, the
    /// score on the same row as the news, and the two offers.
    pub open spec fn dead_scene(self) -> Seq<Draw> {
        seq![
            Draw::Clear,
            Draw::PrintCentered { y: TITLE_ROW, label: Label::GameOver },
            Draw::PrintCentered { y: TITLE_ROW, label: Label::Earned(self.score as i32) },
            Draw::PrintCentered { y: PLAY_ROW, label: Label::PlayOption },
            Draw::PrintCentered { y: QUIT_ROW, label: Label::QuitOption },
        ]
    }

    /// The frame of a tick in whichever mode the game is in.
    pub open spec fn scene(self, key: Option<Key>, elapsed_ms: int) -> Seq<Draw> {
        match self.mode {
            GameMode::Menu => menu_scene(),
            GameMode::Playing => self.play_scene(key, elapsed_ms),
            GameMode::End => self.dead_scene(),
        }
    }
}

impl State {
    /// See [`StateModel::wf`].
    pub open spec fn wf(&self) -> bool {
        self@.wf()
    }

    /// A game waiting in the menu. The gap of its first wall is drawn at random.
    pub fn new() -> (state: State)
        ensures
            state@ == StateModel::fresh(GameMode::Menu, state.obstacle.gap_y as int),
            state.wf(),
    {
        State {
            mode: GameMode::Menu,
            frame_time: 0,
            player: Player::new(START_X, START_Y),
            score: 0,
            obstacle: Obstacle::new(SCREEN_WIDTH, 0),
        }
    }

    /// Starts a new game, whatever went before. The gap of its first wall is
    /// drawn at random.
    pub fn restart(&mut self)
        ensures
            final(self)@ == old(self)@.restart(final(self).obstacle.gap_y as int),
            final(self).wf(),
    {
        self.player = Player::new(START_X, START_Y);
        self.frame_time = 0;
        self.mode = GameMode::Playing;
        self.obstacle = Obstacle::new(SCREEN_WIDTH, 0);
        self.score = 0;
    }

    /// A tick in play. If the dragon leaves the wall behind, the gap of the
    /// next wall is drawn at random.
    pub fn play(&mut self, key: Option<Key>, elapsed_ms: u32) -> (effects: Effects)
        requires
            old(self).mode is Playing,
            old(self).wf(),
            old(self)@.has_room(),
        ensures
            final(self)@ == old(self)@.play(
                key,
                elapsed_ms as int,
                final(self).obstacle.gap_y as int,
            ),
            final(self).wf(),
            effects.draws@ == old(self)@.play_scene(key, elapsed_ms as int),
            !effects.quit,
    {
        let mut draws: Vec<Draw> = Vec::new();
        draws.push(Draw::ClearBackground { color: Color::Navy });
        let waited: u64 = self.frame_time as u64 + elapsed_ms as u64;
        if waited > FRAME_DURATION as u64 {
            self.frame_time = 0;
            self.player.gravity_and_move();
        } else {
            self.frame_time = waited as u32;
        }
        if let Some(Key::Space) = key {
            self.player.flap();
        }
        self.player.render(&mut draws);
        draws.push(Draw::Print { x: 0, y: 0, label: Label::FlapHint });
        draws.push(Draw::Print { x: 0, y: 1, label: Label::Score(self.score) });
        self.obstacle.render(&mut draws, self.player.x);
        if self.player.x > self.obstacle.x {
            self.score += 1;
            self.obstacle = Obstacle::new(self.player.x + SCREEN_WIDTH, self.score);
        }
        if self.player.y > SCREEN_HEIGHT || self.obstacle.hit_obstacle(&self.player) {
            self.mode = GameMode::End;
        }
        Effects { draws, quit: false }
    }

    /// A tick in the menu. `P` starts a game, with the gap of its first wall
    /// drawn at random; `Q` asks the host to quit; no other key does anything.
    pub fn main_menu(&mut self, key: Option<Key>) -> (effects: Effects)
        ensures
            final(self)@ == old(self)@.menu_choice(key, final(self).obstacle.gap_y as int),
            old(self).wf() ==> final(self).wf(),
            effects.draws@ == menu_scene(),
            effects.quit == (key == Some(Key::Q)),
    {
        let mut draws: Vec<Draw> = Vec::new();
        draws.push(Draw::Clear);
        draws.push(Draw::PrintCentered { y: TITLE_ROW, label: Label::Title });
        draws.push(Draw::PrintCentered { y: PLAY_ROW, label: Label::PlayOption });
        draws.push(Draw::PrintCentered { y: QUIT_ROW, label: Label::QuitOption });
        let mut quit = false;
        match key {
            Some(Key::P) => self.restart(),
            Some(Key::Q) => quit = true,
            _ => {},
        }
        Effects { draws, quit }
    }

    /// A tick after the dragon's death. The keys do what they do in the menu.
    pub fn dead(&mut self, key: Option<Key>) -> (effects: Effects)
        ensures
            final(self)@ == old(self)@.menu_choice(key, final(self).obstacle.gap_y as int),
            old(self).wf() ==> final(self).wf(),
            effects.draws@ == old(self)@.dead_scene(),
            effects.quit == (key == Some(Key::Q)),
    {
        let mut draws: Vec<Draw> = Vec::new();
        draws.push(Draw::Clear);
        draws.push(Draw::PrintCentered { y: TITLE_ROW, label: Label::GameOver });
        draws.push(Draw::PrintCentered { y: TITLE_ROW, label: Label::Earned(self.score) });
        draws.push(Draw::PrintCentered { y: PLAY_ROW, label: Label::PlayOption });
        draws.push(Draw::PrintCentered { y: QUIT_ROW, label: Label::QuitOption });
        let mut quit = false;
        match key {
            Some(Key::P) => self.restart(),
            Some(Key::Q) => quit = true,
            _ => {},
        }
        Effects { draws, quit }
    }

    /// Whether the game may be ticked: outside play always; in play, if the
    /// state is well-formed and has room.
    pub fn can_tick(&self) -> (ready: bool)
        ensures
            ready == (self.mode is Playing ==> self.wf() && self@.has_room()),
    {
        match self.mode {
            GameMode::Playing => {
                let player = &self.player;
                let obstacle = &self.obstacle;
                let player_fits = 0 <= player.y && player.y <= SCREEN_HEIGHT && FLAP_VELOCITY
                    <= player.velocity && player.velocity <= TERMINAL_VELOCITY && player.velocity
                    % GRAVITY == 0;
                let obstacle_fits = GAP_Y_MIN <= obstacle.gap_y && obstacle.gap_y < GAP_Y_END
                    && 0 <= self.score && obstacle.size == (if self.score < WIDEST_GAP
                    - NARROWEST_GAP {
                    WIDEST_GAP - self.score
                } else {
                    NARROWEST_GAP
                });
                let room = player.x < i32::MAX - SCREEN_WIDTH && self.score < i32::MAX;
                player_fits && obstacle_fits && room && self.frame_time <= FRAME_DURATION
                    && player.x <= obstacle.x && obstacle.x <= player.x + SCREEN_WIDTH
            },
            _ => true,
        }
    }

    /// One tick of the game, in whichever mode it is in: what the key and the
    /// time gone by do to the game, the frame to show, and whether to quit.
    /// Where a wall is built, its gap is drawn at random.
    pub fn tick(&mut self, key: Option<Key>, elapsed_ms: u32) -> (effects: Effects)
        requires
            old(self).mode is Playing ==> old(self).wf() && old(self)@.has_room(),
        ensures
            final(self)@ == old(self)@.tick(
                key,
                elapsed_ms as int,
                final(self).obstacle.gap_y as int,
            ),
            old(self).wf() ==> final(self).wf(),
            effects.draws@ == old(self)@.scene(key, elapsed_ms as int),
            effects.quit == old(self)@.quits(key),
    {
        match self.mode {
            GameMode::Menu => self.main_menu(key),
            GameMode::Playing => self.play(key, elapsed_ms),
            GameMode::End => self.dead(key),
        }
    }
}

} // verus!
