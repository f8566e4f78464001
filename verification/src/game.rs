//! The game as a state machine: from the menu into play, through the levels
//! (load, aim, fly, unload) and out again. One call of [`Session::tick`]
//! takes the input of one tick and gives what the collaborators must hear.

use vstd::prelude::*;
use crate::aiming::{candidate, set_ball_velocity, swung};
use crate::collision::struck;
use crate::components::{
    all_wf, rects, walls_valid, Ball, BallView, Collider, CollisionEvent, GolfHole, HoleView,
    Rect,
};
use crate::levels::{catalog, load_level, Level, LEVEL_COUNT};
use crate::physics::{
    apply_velocity, captured, check_ball_inside_hole, moved, stopped, updated_velocity,
    uptade_ball_velocity,
};
use crate::swings_count::{insert_score, remove_score, GameOver, Scoreboard};
use crate::tuning::{Tuning, TuningView};
use crate::units::{in_range, LIMIT};
use crate::vector::{Vec2, Vector};

verus! {

/// Where the program is: in the menu, in play, or on the final screen.
#[derive(Clone, Copy, Debug, PartialEq, Eq)]
pub enum AppState {
    MainMenu,
    Game,
    GameOver,
}

/// Where a play session is.
#[derive(Clone, Copy, Debug, PartialEq, Eq)]
pub enum GameState {
    /// No session is played.
    OutOfGame,
    /// The course of the current level is about to be set up.
    LoadingMap,
    /// The ball is at rest and the player aims.
    DeadBall,
    /// The ball is in flight.
    BallMoving,
    /// The ball has reached the hole; the course is about to be cleared.
    UnloadingMap,
}

/// Model of an [`Input`].
pub struct InputView {
    pub dt: int,
    pub pointer: Vec2,
    pub primary_pressed: bool,
    pub start: bool,
    pub menu: bool,
    pub game_over: bool,
}

impl InputView {
    /// Duration and pointer are representable.
    pub open spec fn wf(self) -> bool {
        in_range(self.dt) && self.pointer.wf()
    }
}

/// What the player and the clock did during one tick.
#[derive(Clone, Copy, Debug, PartialEq, Eq)]
pub struct Input {
    /// Duration of the tick, in fixed-point seconds.
    pub dt: i64,
    /// The pointer, seen from the centre of the field with the vertical axis
    /// pointing down.
    pub pointer: Vector,
    /// The primary action is held: a swing is confirmed.
    pub primary_pressed: bool,
    /// Play was asked for.
    pub start: bool,
    /// The menu was asked for.
    pub menu: bool,
    /// The final screen was asked for.
    pub game_over: bool,
}

impl View for Input {
    type V = InputView;

    open spec fn view(&self) -> InputView {
        InputView {
            dt: self.dt as int,
            pointer: self.pointer@,
            primary_pressed: self.primary_pressed,
            start: self.start,
            menu: self.menu,
            game_over: self.game_over,
        }
    }
}

impl Input {
    /// Duration and pointer are representable.
    pub open spec fn wf(self) -> bool {
        self@.wf()
    }

    /// Tells whether the input is representable.
    pub fn is_valid(&self) -> (ok: bool)
        ensures
            ok == self.wf(),
    {
        -LIMIT <= self.dt && self.dt <= LIMIT && self.pointer.is_valid()
    }
}

/// Model of an [`Outcome`].
pub struct OutcomeView {
    pub collision: bool,
    pub final_score: Option<nat>,
    pub aim: Option<Vec2>,
    pub spawned: bool,
    pub despawned: bool,
}

impl OutcomeView {
    /// A tick of which nobody needs to hear.
    pub open spec fn quiet() -> OutcomeView {
        OutcomeView {
            collision: false,
            final_score: None,
            aim: None,
            spawned: false,
            despawned: false,
        }
    }
}

/// What the collaborators must hear of one tick.
#[derive(Clone, Copy, Debug, PartialEq, Eq)]
pub struct Outcome {
    /// The ball struck at least one wall.
    pub collision: Option<CollisionEvent>,
    /// The session ended with this score.
    pub game_over: Option<GameOver>,
    /// The aim vector, while the player aims.
    pub aim: Option<Vector>,
    /// Ball, hole and walls of a level were set up.
    pub spawned: bool,
    /// Ball, hole and walls were cleared away.
    pub despawned: bool,
}

impl View for Outcome {
    type V = OutcomeView;

    open spec fn view(&self) -> OutcomeView {
        OutcomeView {
            collision: self.collision is Some,
            final_score: match self.game_over {
                Some(notice) => Some(notice@),
                None => None,
            },
            aim: match self.aim {
                Some(aim) => Some(aim@),
                None => None,
            },
            spawned: self.spawned,
            despawned: self.despawned,
        }
    }
}

impl Outcome {
    /// A tick of which nobody needs to hear.
    pub fn quiet() -> (out: Outcome)
        ensures
            out@ == OutcomeView::quiet(),
    {
        Outcome { collision: None, game_over: None, aim: None, spawned: false, despawned: false }
    }
}

/// Model of a [`Session`].
pub struct SessionView {
    pub app_state: AppState,
    pub game_state: GameState,
    pub level: int,
    pub score: Option<nat>,
    pub ball: Option<BallView>,
    pub hole: Option<HoleView>,
    pub walls: Seq<Rect>,
    pub tuning: TuningView,
}

impl SessionView {
    /// A level is set up: ball, hole and walls are there.
    pub open spec fn level_active(self) -> bool {
        self.game_state == GameState::DeadBall || self.game_state == GameState::BallMoving
            || self.game_state == GameState::UnloadingMap
    }

    /// The invariants of the game. A session is played exactly in
    /// [`AppState::Game`], and exactly then there is a score. Out of play the
    /// level counter is back at 1. While a level is set up there is one ball
    /// and one hole; while none is, there is nothing on the field. A ball
    /// that awaits a swing does not move.
    pub open spec fn wf(self) -> bool {
        &&& self.tuning.wf()
        &&& (self.app_state == AppState::Game) == (self.game_state != GameState::OutOfGame)
        &&& (self.app_state == AppState::Game) == (self.score is Some)
        &&& self.app_state != AppState::Game ==> self.level == 1
        &&& 1 <= self.level <= LEVEL_COUNT + 1
        &&& self.level_active() ==> {
            &&& self.ball is Some
            &&& self.ball.unwrap().wf()
            &&& self.hole is Some
            &&& self.hole.unwrap().wf()
            &&& all_wf(self.walls)
            &&& self.level <= LEVEL_COUNT
        }
        &&& !self.level_active() ==> self.ball is None && self.hole is None && self.walls.len()
            == 0
        &&& self.game_state == GameState::DeadBall ==> self.ball.unwrap().velocity
            == Vec2::zero()
    }

    /// The swings counted so far; none out of play.
    pub open spec fn swings(self) -> nat {
        match self.score {
            Some(n) => n,
            None => 0,
        }
    }
}

/// The program at its start: in the menu, with nothing on the field.
pub open spec fn initial(tuning: TuningView) -> SessionView {
    SessionView {
        app_state: AppState::MainMenu,
        game_state: GameState::OutOfGame,
        level: 1,
        score: None,
        ball: None,
        hole: None,
        walls: Seq::empty(),
        tuning,
    }
}

/// Leaving for the menu or the final screen: the field is cleared, the level
/// counter goes back to 1, and the score, if there was one, is told.
pub open spec fn left(s: SessionView, target: AppState) -> (SessionView, OutcomeView) {
    (
        SessionView {
            app_state: target,
            game_state: GameState::OutOfGame,
            level: 1,
            score: None,
            ball: None,
            hole: None,
            walls: Seq::empty(),
            tuning: s.tuning,
        },
        OutcomeView {
            final_score: s.score,
            despawned: s.ball is Some || s.hole is Some || s.walls.len() > 0,
            ..OutcomeView::quiet()
        },
    )
}

/// Entering play: level 1 is about to load and no swing is counted yet.
pub open spec fn entered(s: SessionView) -> SessionView {
    SessionView {
        app_state: AppState::Game,
        game_state: GameState::LoadingMap,
        level: 1,
        score: Some(0nat),
        ..s
    }
}

/// Loading: the level's course is set up with the ball at rest at its start
/// and the player aims. Past the last level the session ends on the final
/// screen.
pub open spec fn loaded(s: SessionView) -> (SessionView, OutcomeView) {
    match catalog(s.level) {
        Some(course) => (
            SessionView {
                game_state: GameState::DeadBall,
                ball: Some(
                    BallView {
                        position: course.ball_start,
                        velocity: Vec2::zero(),
                        size: course.ball_size,
                    },
                ),
                hole: Some(course.hole),
                walls: course.walls,
                ..s
            },
            OutcomeView { spawned: true, ..OutcomeView::quiet() },
        ),
        None => left(s, AppState::GameOver),
    }
}

/// The aim vector of a tick of aiming.
pub open spec fn aim_of(s: SessionView, input: InputView) -> Vec2 {
    candidate(s.ball.unwrap().position.flipped(), input.pointer, s.tuning.max_swing)
}

/// Aiming: the aim vector follows the pointer. A confirmed swing launches
/// the ball, counts one swing and starts the flight; without it nothing
/// changes.
pub open spec fn aimed(s: SessionView, input: InputView) -> (SessionView, OutcomeView) {
    let aim = aim_of(s, input);
    (
        SessionView {
            game_state: if input.primary_pressed {
                GameState::BallMoving
            } else {
                GameState::DeadBall
            },
            score: if input.primary_pressed {
                Some(s.swings() + 1)
            } else {
                s.score
            },
            ball: Some(swung(s.ball.unwrap(), aim, s.tuning.power, input.primary_pressed)),
            ..s
        },
        OutcomeView { aim: Some(aim), ..OutcomeView::quiet() },
    )
}

/// The ball of a flying session after the tick: moved, then its velocity
/// bounced, slowed down and brought to rest if slow enough.
pub open spec fn flown_ball(s: SessionView, input: InputView) -> BallView {
    let ball = moved(s.ball.unwrap(), input.dt);
    BallView { velocity: updated_velocity(ball, s.walls, s.tuning), ..ball }
}

/// The ball reached the hole during this tick of flight.
pub open spec fn holed(s: SessionView, input: InputView) -> bool {
    captured(moved(s.ball.unwrap(), input.dt).position, s.hole.unwrap())
}

/// Flight: the ball moves, bounces, slows down. A ball in the hole ends the
/// level; else a ball at rest awaits the next swing; else the flight goes on.
pub open spec fn flown(s: SessionView, input: InputView) -> (SessionView, OutcomeView) {
    let ball = moved(s.ball.unwrap(), input.dt);
    (
        SessionView {
            game_state: if holed(s, input) {
                GameState::UnloadingMap
            } else if stopped(ball, s.walls, s.tuning) {
                GameState::DeadBall
            } else {
                GameState::BallMoving
            },
            ball: Some(flown_ball(s, input)),
            ..s
        },
        OutcomeView { collision: struck(ball.bounds(), s.walls), ..OutcomeView::quiet() },
    )
}

/// Unloading: the field is cleared and the next level is about to load.
pub open spec fn unloaded(s: SessionView) -> (SessionView, OutcomeView) {
    (
        SessionView {
            game_state: GameState::LoadingMap,
            level: s.level + 1,
            ball: None,
            hole: None,
            walls: Seq::empty(),
            ..s
        },
        OutcomeView { despawned: true, ..OutcomeView::quiet() },
    )
}

/// One tick of the game. A request for the menu or for the final screen is
/// obeyed at once, the menu first, and nothing else happens in that tick.
/// Out of play, a request to play starts a session. In play, the tick does
/// the work of the session's state.
pub open spec fn step(s: SessionView, input: InputView) -> (SessionView, OutcomeView) {
    if input.menu && s.app_state != AppState::MainMenu {
        left(s, AppState::MainMenu)
    } else if input.game_over && s.app_state != AppState::GameOver {
        left(s, AppState::GameOver)
    } else if s.app_state != AppState::Game {
        if input.start {
            (entered(s), OutcomeView::quiet())
        } else {
            (s, OutcomeView::quiet())
        }
    } else {
        match s.game_state {
            GameState::OutOfGame => (s, OutcomeView::quiet()),
            GameState::LoadingMap => loaded(s),
            GameState::DeadBall => aimed(s, input),
            GameState::BallMoving => flown(s, input),
            GameState::UnloadingMap => unloaded(s),
        }
    }
}

/// Models of a list of inputs, in the same order.
pub open spec fn input_views(inputs: Seq<Input>) -> Seq<InputView> {
    inputs.map_values(|i: Input| i@)
}

/// The session after a run of ticks.
pub open spec fn run_of(s: SessionView, inputs: Seq<InputView>) -> SessionView
    decreases inputs.len(),
{
    if inputs.len() == 0 {
        s
    } else {
        step(run_of(s, inputs.drop_last()), inputs.last()).0
    }
}

/// The indices of the ticks of a run in which a level was completed: those
/// after which the session is in [`GameState::UnloadingMap`].
pub open spec fn completions(s: SessionView, inputs: Seq<InputView>) -> Seq<nat>
    decreases inputs.len(),
{
    if inputs.len() == 0 {
        Seq::empty()
    } else {
        let before = completions(s, inputs.drop_last());
        if run_of(s, inputs).game_state == GameState::UnloadingMap {
            before.push((inputs.len() - 1) as nat)
        } else {
            before
        }
    }
}

/// The program: its state, the session that is played and what is on the
/// field.
#[derive(Clone, Debug, PartialEq, Eq)]
pub struct Session {
    pub app_state: AppState,
    pub game_state: GameState,
    pub level: Level,
    pub scoreboard: Option<Scoreboard>,
    pub ball: Option<Ball>,
    pub hole: Option<GolfHole>,
    pub walls: Vec<Collider>,
    pub tuning: Tuning,
}

impl View for Session {
    type V = SessionView;

    open spec fn view(&self) -> SessionView {
        SessionView {
            app_state: self.app_state,
            game_state: self.game_state,
            level: self.level@,
            score: match self.scoreboard {
                Some(board) => Some(board@),
                None => None,
            },
            ball: match self.ball {
                Some(ball) => Some(ball@),
                None => None,
            },
            hole: match self.hole {
                Some(hole) => Some(hole@),
                None => None,
            },
            walls: rects(self.walls@),
            tuning: self.tuning@,
        }
    }
}

impl Session {
    /// See [`SessionView::wf`].
    pub open spec fn wf(self) -> bool {
        self@.wf()
    }

    /// One more swing can be counted.
    pub open spec fn has_room(self) -> bool {
        self@.swings() < usize::MAX
    }

    /// The program at its start.
    pub fn new(tuning: Tuning) -> (session: Session)
        requires
            tuning.wf(),
        ensures
            session@ == initial(tuning@),
            session.wf(),
    {
        let session = Session {
            app_state: AppState::MainMenu,
            game_state: GameState::OutOfGame,
            level: Level(1),
            scoreboard: None,
            ball: None,
            hole: None,
            walls: Vec::new(),
            tuning,
        };
        assert(rects(session.walls@) =~= Seq::<Rect>::empty());
        session
    }

    /// Tells whether a level is set up.
    fn level_active(&self) -> (active: bool)
        ensures
            active == self@.level_active(),
    {
        match self.game_state {
            GameState::DeadBall | GameState::BallMoving | GameState::UnloadingMap => true,
            GameState::OutOfGame | GameState::LoadingMap => false,
        }
    }

    /// Tells whether a session is played.
    fn in_game(&self) -> (playing: bool)
        ensures
            playing == (self.app_state == AppState::Game),
    {
        match self.app_state {
            AppState::Game => true,
            AppState::MainMenu | AppState::GameOver => false,
        }
    }

    /// Tells whether the invariants of the game hold.
    pub fn is_valid(&self) -> (ok: bool)
        ensures
            ok == self.wf(),
    {
        let playing = self.in_game();
        let out_of_game = match self.game_state {
            GameState::OutOfGame => true,
            _ => false,
        };
        if !self.tuning.is_valid() || playing == out_of_game || playing
            != self.scoreboard.is_some() {
            return false;
        }
        if self.level.0 < 1 || self.level.0 > LEVEL_COUNT + 1 || (!playing && self.level.0 != 1) {
            return false;
        }
        if self.level_active() {
            let on_field = match (self.ball, self.hole) {
                (Some(ball), Some(hole)) => {
                    let still = match self.game_state {
                        GameState::DeadBall => ball.velocity.0.x == 0 && ball.velocity.0.y == 0,
                        _ => true,
                    };
                    ball.is_valid() && hole.is_valid() && still
                },
                _ => false,
            };
            on_field && walls_valid(&self.walls) && self.level.0 <= LEVEL_COUNT
        } else {
            assert(rects(self.walls@).len() == self.walls@.len());
            self.ball.is_none() && self.hole.is_none() && self.walls.len() == 0
        }
    }

    /// Clears the field: ball, hole and walls go. Tells whether anything
    /// was there.
    pub fn unload_map(&mut self) -> (cleared: bool)
        ensures
            final(self)@ == (SessionView {
                ball: None,
                hole: None,
                walls: Seq::empty(),
                ..old(self)@
            }),
            cleared == (old(self)@.ball is Some || old(self)@.hole is Some || old(self)@.walls.len()
                > 0),
    {
        assert(rects(self.walls@).len() == self.walls@.len());
        let cleared = self.ball.is_some() || self.hole.is_some() || self.walls.len() > 0;
        self.ball = None;
        self.hole = None;
        self.walls = Vec::new();
        assert(rects(self.walls@) =~= Seq::<Rect>::empty());
        cleared
    }

    /// Leaves for the menu or the final screen, whatever the session was
    /// doing: clears the field, resets the level counter and gives the
    /// score up for the notice of the final score.
    pub fn exit_game_state(&mut self, target: AppState) -> (out: Outcome)
        ensures
            (final(self)@, out@) == left(old(self)@, target),
            old(self).wf() && target != AppState::Game ==> final(self).wf(),
    {
        let despawned = self.unload_map();
        let game_over = match self.scoreboard {
            Some(board) => Some(remove_score(board)),
            None => None,
        };
        self.scoreboard = None;
        self.app_state = target;
        self.game_state = GameState::OutOfGame;
        self.level = Level(1);
        Outcome { collision: None, game_over, aim: None, spawned: false, despawned }
    }

    /// Obeys a request for the menu: leaves for it unless the program is
    /// there already. Tells whether it left, and with what outcome.
    pub fn transition_to_main_menu_state(&mut self, pressed: bool) -> (out: Option<Outcome>)
        ensures
            out is Some <==> pressed && old(self)@.app_state != AppState::MainMenu,
            match out {
                Some(o) => (final(self)@, o@) == left(old(self)@, AppState::MainMenu),
                None => *final(self) == *old(self),
            },
            old(self).wf() ==> final(self).wf(),
    {
        let there = match self.app_state {
            AppState::MainMenu => true,
            _ => false,
        };
        if pressed && !there {
            Some(self.exit_game_state(AppState::MainMenu))
        } else {
            None
        }
    }

    /// Obeys a request for the final screen: leaves for it unless the program
    /// is there already. Tells whether it left, and with what outcome.
    pub fn transition_to_game_over_menu_state(&mut self, pressed: bool) -> (out: Option<Outcome>)
        ensures
            out is Some <==> pressed && old(self)@.app_state != AppState::GameOver,
            match out {
                Some(o) => (final(self)@, o@) == left(old(self)@, AppState::GameOver),
                None => *final(self) == *old(self),
            },
            old(self).wf() ==> final(self).wf(),
    {
        let there = match self.app_state {
            AppState::GameOver => true,
            _ => false,
        };
        if pressed && !there {
            Some(self.exit_game_state(AppState::GameOver))
        } else {
            None
        }
    }

    /// Starts a session: level 1 is about to load, no swing is counted.
    pub fn enter_game_state(&mut self)
        requires
            old(self).wf(),
            old(self)@.app_state != AppState::Game,
        ensures
            final(self)@ == entered(old(self)@),
            final(self).wf(),
    {
        self.app_state = AppState::Game;
        self.game_state = GameState::LoadingMap;
        self.level = Level(1);
        self.scoreboard = Some(insert_score());
    }

    /// Sets up the course of the current level and lets the player aim; past
    /// the last level, ends the session on the final screen.
    pub fn load_map(&mut self) -> (out: Outcome)
        requires
            old(self).wf(),
            old(self)@.game_state == GameState::LoadingMap,
        ensures
            (final(self)@, out@) == loaded(old(self)@),
            final(self).wf(),
    {
        match load_level(&self.level) {
            Some(course) => {
                self.ball = Some(Ball::new(course.ball_start, course.ball_size));
                self.hole = Some(course.hole);
                self.walls = course.walls;
                self.game_state = GameState::DeadBall;
                Outcome { collision: None, game_over: None, aim: None, spawned: true, despawned: false }
            },
            None => self.exit_game_state(AppState::GameOver),
        }
    }

    /// One tick of aiming.
    pub fn aim(&mut self, input: &Input) -> (out: Outcome)
        requires
            old(self).wf(),
            old(self).has_room(),
            input.wf(),
            old(self)@.game_state == GameState::DeadBall,
        ensures
            (final(self)@, out@) == aimed(old(self)@, input@),
            final(self).wf(),
    {
        let mut ball: Ball = self.ball.unwrap();
        let mut board: Scoreboard = self.scoreboard.unwrap();
        let aim = set_ball_velocity(
            &mut ball,
            &mut board,
            input.pointer,
            input.primary_pressed,
            &self.tuning,
        );
        self.ball = Some(ball);
        self.scoreboard = Some(board);
        if input.primary_pressed {
            self.game_state = GameState::BallMoving;
        }
        Outcome { collision: None, game_over: None, aim: Some(aim), spawned: false, despawned: false }
    }

    /// One tick of flight.
    pub fn fly(&mut self, input: &Input) -> (out: Outcome)
        requires
            old(self).wf(),
            input.wf(),
            old(self)@.game_state == GameState::BallMoving,
        ensures
            (final(self)@, out@) == flown(old(self)@, input@),
            final(self).wf(),
    {
        let mut ball: Ball = self.ball.unwrap();
        let hole: GolfHole = self.hole.unwrap();
        apply_velocity(&mut ball, input.dt);
        let update = uptade_ball_velocity(&mut ball, &self.walls, &self.tuning);
        let won = check_ball_inside_hole(&ball, &hole);
        self.ball = Some(ball);
        if won {
            self.game_state = GameState::UnloadingMap;
        } else if update.stopped {
            self.game_state = GameState::DeadBall;
        }
        Outcome {
            collision: update.collision,
            game_over: None,
            aim: None,
            spawned: false,
            despawned: false,
        }
    }

    /// Moves on to the next level: counts the level up and lets it load.
    pub fn set_load_map_state(&mut self)
        requires
            old(self)@.level < i32::MAX,
        ensures
            final(self)@ == (SessionView {
                game_state: GameState::LoadingMap,
                level: old(self)@.level + 1,
                ..old(self)@
            }),
    {
        self.level = Level(self.level.0 + 1);
        self.game_state = GameState::LoadingMap;
    }

    /// Ends a level: clears the field and moves on to the next level.
    pub fn unload(&mut self) -> (out: Outcome)
        requires
            old(self).wf(),
            old(self)@.game_state == GameState::UnloadingMap,
        ensures
            (final(self)@, out@) == unloaded(old(self)@),
            final(self).wf(),
    {
        self.unload_map();
        self.set_load_map_state();
        Outcome { collision: None, game_over: None, aim: None, spawned: false, despawned: true }
    }

    /// One tick of the game: see [`step`].
    pub fn tick(&mut self, input: &Input) -> (out: Outcome)
        requires
            old(self).wf(),
            old(self).has_room(),
            input.wf(),
        ensures
            (final(self)@, out@) == step(old(self)@, input@),
            final(self).wf(),
    {
        match self.transition_to_main_menu_state(input.menu) {
            Some(out) => {
                return out;
            },
            None => {},
        }
        match self.transition_to_game_over_menu_state(input.game_over) {
            Some(out) => {
                return out;
            },
            None => {},
        }
        if !self.in_game() {
            if input.start {
                self.enter_game_state();
            }
            return Outcome::quiet();
        }
        match self.game_state {
            GameState::OutOfGame => Outcome::quiet(),
            GameState::LoadingMap => self.load_map(),
            GameState::DeadBall => self.aim(input),
            GameState::BallMoving => self.fly(input),
            GameState::UnloadingMap => self.unload(),
        }
    }

    /// Plays a run of ticks, one input each, and lists the ticks in which a
    /// level was completed.
    pub fn run(&mut self, inputs: &Vec<Input>) -> (completed: Vec<usize>)
        requires
            old(self).wf(),
            forall|i: int| 0 <= i < inputs.len() ==> (#[trigger] inputs[i]).wf(),
            old(self)@.swings() + inputs.len() <= usize::MAX,
        ensures
            final(self)@ == run_of(old(self)@, input_views(inputs@)),
            tick_indices(completed@) == completions(old(self)@, input_views(inputs@)),
            final(self).wf(),
    {
        let ghost start: SessionView = self@;
        let ghost all: Seq<InputView> = input_views(inputs@);
        let mut completed: Vec<usize> = Vec::new();
        let mut i: usize = 0;
        assert(all.take(0) =~= Seq::<InputView>::empty());
        assert(tick_indices(completed@) =~= Seq::<nat>::empty());
        while i < inputs.len()
            invariant
                i <= inputs.len(),
                all == input_views(inputs@),
                forall|j: int| 0 <= j < inputs.len() ==> (#[trigger] inputs[j]).wf(),
                self.wf(),
                self@.swings() + (inputs.len() - i) <= usize::MAX,
                self@ == run_of(start, all.take(i as int)),
                tick_indices(completed@) == completions(start, all.take(i as int)),
            decreases inputs.len() - i,
        {
            let input: Input = inputs[i];
            proof {
                let next: Seq<InputView> = all.take(i + 1);
                assert(next.drop_last() =~= all.take(i as int));
                assert(next.last() == input@);
            }
            self.tick(&input);
            let done = match self.game_state {
                GameState::UnloadingMap => true,
                _ => false,
            };
            if done {
                let ghost before: Seq<usize> = completed@;
                completed.push(i);
                assert(tick_indices(completed@) =~= tick_indices(before).push(i as nat));
            }
            i += 1;
        }
        assert(all.take(i as int) =~= all);
        completed
    }
}

/// The tick indices of a list, as numbers.
pub open spec fn tick_indices(ticks: Seq<usize>) -> Seq<nat> {
    ticks.map_values(|t: usize| t as nat)
}

/// Every tick keeps the invariants of the game.
pub proof fn lemma_step_keeps_invariants(s: SessionView, input: InputView)
    requires
        s.wf(),
    ensures
        step(s, input).0.wf(),
{
    crate::levels::lemma_catalog_wf(s.level);
    if s.level_active() {
        let ball = s.ball.unwrap();
        crate::aiming::lemma_swing_keeps_range(
            ball,
            input.pointer,
            s.tuning,
            input.primary_pressed,
        );
        crate::physics::lemma_flight_keeps_range(ball, input.dt, s.walls, s.tuning);
    }
}

/// The invariants of the game hold after every run of ticks.
pub proof fn lemma_run_keeps_invariants(s: SessionView, inputs: Seq<InputView>)
    requires
        s.wf(),
    ensures
        run_of(s, inputs).wf(),
    decreases inputs.len(),
{
    if inputs.len() > 0 {
        lemma_run_keeps_invariants(s, inputs.drop_last());
        lemma_step_keeps_invariants(run_of(s, inputs.drop_last()), inputs.last());
    }
}

/// The game is deterministic: two runs from the same state over the same
/// inputs end in the same state, with the same number of swings, and
/// complete their levels in the same ticks.
pub proof fn lemma_run_deterministic(
    a: SessionView,
    b: SessionView,
    inputs_a: Seq<InputView>,
    inputs_b: Seq<InputView>,
)
    requires
        a == b,
        inputs_a =~= inputs_b,
    ensures
        run_of(a, inputs_a) == run_of(b, inputs_b),
        run_of(a, inputs_a).swings() == run_of(b, inputs_b).swings(),
        completions(a, inputs_a) == completions(b, inputs_b),
{
}

/// While a session is played the level counter never goes down, and it goes
/// up, by one, exactly in the tick that clears a completed level.
pub proof fn lemma_level_never_decreases(s: SessionView, input: InputView)
    requires
        s.wf(),
        s.app_state == AppState::Game,
        step(s, input).0.app_state == AppState::Game,
    ensures
        step(s, input).0.level >= s.level,
        step(s, input).0.level == s.level + 1 <==> s.game_state == GameState::UnloadingMap,
        step(s, input).0.level != s.level ==> step(s, input).0.level == s.level + 1,
{
    crate::levels::lemma_catalog_wf(s.level);
}

/// A swing is counted, once, exactly when the player confirms it while
/// aiming and no request to leave comes in the same tick; that tick starts
/// the flight.
pub proof fn lemma_swing_counted(s: SessionView, input: InputView)
    requires
        s.wf(),
        s.app_state == AppState::Game,
        step(s, input).0.app_state == AppState::Game,
    ensures
        step(s, input).0.swings() == s.swings() + 1 <==> s.game_state == GameState::DeadBall
            && input.primary_pressed,
        step(s, input).0.swings() != s.swings() ==> step(s, input).0.swings() == s.swings() + 1
            && step(s, input).0.game_state == GameState::BallMoving,
{
}

/// Aiming without a confirmed swing changes nothing, however often it is
/// repeated: only the aim vector is told.
pub proof fn lemma_aiming_is_idempotent(s: SessionView, input: InputView)
    requires
        s.wf(),
        s.game_state == GameState::DeadBall,
        !input.primary_pressed,
        !input.menu,
        !input.game_over,
    ensures
        step(s, input).0 == s,
        step(s, input).1 == (OutcomeView { aim: Some(aim_of(s, input)), ..OutcomeView::quiet() }),
        step(step(s, input).0, input) == step(s, input),
{
}

/// The course does not change while its level is played: from tick to tick
/// the walls and the hole stay as they were set up.
pub proof fn lemma_course_is_static(s: SessionView, input: InputView)
    requires
        s.wf(),
        s.level_active(),
        step(s, input).0.level_active(),
    ensures
        step(s, input).0.walls == s.walls,
        step(s, input).0.hole == s.hole,
        step(s, input).0.level == s.level,
{
}

/// The final score is told exactly in the tick in which the session ends,
/// and it is the number of swings counted.
pub proof fn lemma_final_score_told_on_leaving(s: SessionView, input: InputView)
    requires
        s.wf(),
    ensures
        step(s, input).1.final_score is Some <==> s.app_state == AppState::Game && step(
            s,
            input,
        ).0.app_state != AppState::Game,
        step(s, input).1.final_score is Some ==> step(s, input).1.final_score == Some(
            s.swings(),
        ),
{
}

/// A session starts at level 1 with no swing counted.
pub proof fn lemma_session_starts_fresh(s: SessionView, input: InputView)
    requires
        s.wf(),
        s.app_state != AppState::Game,
        step(s, input).0.app_state == AppState::Game,
    ensures
        step(s, input).0.level == 1,
        step(s, input).0.score == Some(0nat),
        step(s, input).0.game_state == GameState::LoadingMap,
{
}

/// A ball that reaches the hole ends the level in that very tick, whether or
/// not it also came to rest; a ball at rest elsewhere awaits the next swing.
pub proof fn lemma_flight_ends(s: SessionView, input: InputView)
    requires
        s.wf(),
        s.game_state == GameState::BallMoving,
    ensures
        holed(s, input) <==> flown(s, input).0.game_state == GameState::UnloadingMap,
        flown(s, input).0.game_state == GameState::DeadBall ==> flown(
            s,
            input,
        ).0.ball.unwrap().velocity == Vec2::zero(),
        flown(s, input).0.walls == s.walls,
        flown(s, input).0.hole == s.hole,
        flown(s, input).0.score == s.score,
        flown(s, input).0.level == s.level,
{
}

} // verus!
