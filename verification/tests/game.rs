use mini_golf::components::{Ball, Collider, CollisionEvent, GolfHole, Velocity};
use mini_golf::game::{AppState, GameState, Input, Outcome, Session};
use mini_golf::levels::{load_level_1, load_level_2, Level};
use mini_golf::swings_count::{GameOver, Scoreboard};
use mini_golf::tuning::Tuning;
use mini_golf::units::SCALE;
use mini_golf::vector::Vector;

const DT: i64 = SCALE / 64;

fn v(x: i64, y: i64) -> Vector {
    Vector { x, y }
}

fn idle() -> Input {
    Input {
        dt: DT,
        pointer: v(0, 0),
        primary_pressed: false,
        start: false,
        menu: false,
        game_over: false,
    }
}

fn start() -> Input {
    Input { start: true, ..idle() }
}

fn menu() -> Input {
    Input { menu: true, ..idle() }
}

fn game_over() -> Input {
    Input { game_over: true, ..idle() }
}

fn swing(pointer: Vector) -> Input {
    Input { pointer, primary_pressed: true, ..idle() }
}

fn quiet() -> Outcome {
    Outcome { collision: None, game_over: None, aim: None, spawned: false, despawned: false }
}

/// A session in play on a course without walls: the hole in the centre with
/// a capture radius of 9 units, the ball at rest 250 units below it.
fn open_course(game_state: GameState, velocity: Vector, swings: usize) -> Session {
    Session {
        app_state: AppState::Game,
        game_state,
        level: Level(1),
        scoreboard: Some(Scoreboard { score: swings }),
        ball: Some(Ball {
            position: v(0, -250 * SCALE),
            velocity: Velocity(velocity),
            size: v(15 * SCALE, 15 * SCALE),
        }),
        hole: Some(GolfHole { position: v(0, 0), radius: 9 * SCALE }),
        walls: Vec::new(),
        tuning: Tuning::standard(),
    }
}

#[test]
fn new_session_waits_in_the_menu() {
    let s = Session::new(Tuning::standard());
    assert_eq!(s.app_state, AppState::MainMenu);
    assert_eq!(s.game_state, GameState::OutOfGame);
    assert_eq!(s.level, Level(1));
    assert_eq!(s.scoreboard, None);
    assert_eq!(s.ball, None);
    assert_eq!(s.hole, None);
    assert!(s.walls.is_empty());
    assert!(s.is_valid());
}

#[test]
fn idle_ticks_in_the_menu_change_nothing() {
    let mut s = Session::new(Tuning::standard());
    let before = s.clone();
    assert_eq!(s.tick(&idle()), quiet());
    assert_eq!(s.tick(&menu()), quiet());
    assert_eq!(s.tick(&swing(v(5, 5))), quiet());
    assert_eq!(s, before);
}

#[test]
fn start_enters_play_at_level_one_with_no_swing() {
    let mut s = Session::new(Tuning::standard());
    assert_eq!(s.tick(&start()), quiet());
    assert_eq!(s.app_state, AppState::Game);
    assert_eq!(s.game_state, GameState::LoadingMap);
    assert_eq!(s.level, Level(1));
    assert_eq!(s.scoreboard, Some(Scoreboard { score: 0 }));
    assert_eq!(s.ball, None);
    assert!(s.is_valid());
}

#[test]
fn loading_sets_up_the_course_and_lets_the_player_aim() {
    let mut s = Session::new(Tuning::standard());
    s.tick(&start());
    let out = s.tick(&idle());
    assert_eq!(out, Outcome { spawned: true, ..quiet() });
    assert_eq!(s.game_state, GameState::DeadBall);
    let course = load_level_1();
    assert_eq!(
        s.ball,
        Some(Ball {
            position: course.ball_start,
            velocity: Velocity(v(0, 0)),
            size: course.ball_size
        })
    );
    assert_eq!(s.hole, Some(course.hole));
    assert_eq!(s.walls, course.walls);
    assert!(s.is_valid());
}

#[test]
fn aiming_reports_the_aim_and_changes_nothing() {
    let mut s = open_course(GameState::DeadBall, v(0, 0), 0);
    let before = s.clone();
    let input = Input { pointer: v(100, 250 * SCALE - 300), ..idle() };
    let out = s.tick(&input);
    assert_eq!(out, Outcome { aim: Some(v(100, 300)), ..quiet() });
    assert_eq!(s, before);
    assert_eq!(s.tick(&input), out);
    assert_eq!(s, before);
}

#[test]
fn confirmed_swing_starts_the_flight_and_counts_one_swing() {
    let mut s = open_course(GameState::DeadBall, v(0, 0), 7);
    let out = s.tick(&swing(v(100, 250 * SCALE - 300)));
    assert_eq!(out, Outcome { aim: Some(v(100, 300)), ..quiet() });
    assert_eq!(s.game_state, GameState::BallMoving);
    assert_eq!(s.scoreboard, Some(Scoreboard { score: 8 }));
    let ball = s.ball.unwrap();
    assert_eq!(ball.velocity, Velocity(v(350, 1050)));
    assert_eq!(ball.position, v(0, -250 * SCALE));
    assert!(s.is_valid());
}

#[test]
fn degenerate_swing_is_counted_and_ends_in_the_next_tick() {
    let mut s = open_course(GameState::DeadBall, v(0, 0), 0);
    s.tick(&swing(v(0, 250 * SCALE)));
    assert_eq!(s.game_state, GameState::BallMoving);
    assert_eq!(s.scoreboard, Some(Scoreboard { score: 1 }));
    assert_eq!(s.ball.unwrap().velocity, Velocity(v(0, 0)));
    assert_eq!(s.tick(&idle()), quiet());
    assert_eq!(s.game_state, GameState::DeadBall);
    assert_eq!(s.scoreboard, Some(Scoreboard { score: 1 }));
}

#[test]
fn flight_moves_bounces_and_slows_the_ball() {
    let mut s = open_course(GameState::BallMoving, v(-640000, 0), 1);
    s.ball = Some(Ball {
        position: v(0, 0),
        velocity: Velocity(v(-640000, 0)),
        size: v(30 * SCALE, 30 * SCALE),
    });
    s.hole = Some(GolfHole { position: v(500 * SCALE, 0), radius: 9 * SCALE });
    s.walls = vec![Collider { position: v(-50 * SCALE, 0), size: v(60 * SCALE, 200 * SCALE) }];
    let out = s.tick(&idle());
    assert_eq!(out, Outcome { collision: Some(CollisionEvent), ..quiet() });
    assert_eq!(s.game_state, GameState::BallMoving);
    let ball = s.ball.unwrap();
    assert_eq!(ball.position, v(-10000, 0));
    assert_eq!(ball.velocity, Velocity(v(640000 - 2816, 0)));
    assert!(s.is_valid());
}

#[test]
fn slow_ball_comes_to_rest_and_awaits_the_next_swing() {
    let mut s = open_course(GameState::BallMoving, v(5 * SCALE + 2816, 0), 1);
    let out = s.tick(&idle());
    assert_eq!(out, quiet());
    assert_eq!(s.game_state, GameState::DeadBall);
    assert_eq!(s.ball.unwrap().velocity, Velocity(v(0, 0)));
    assert_eq!(s.scoreboard, Some(Scoreboard { score: 1 }));
    assert!(s.is_valid());
}

#[test]
fn ball_in_the_hole_ends_the_level_even_at_rest() {
    let mut s = open_course(GameState::BallMoving, v(1, 0), 3);
    s.ball = Some(Ball {
        position: v(9 * SCALE, 0),
        velocity: Velocity(v(1, 0)),
        size: v(15 * SCALE, 15 * SCALE),
    });
    s.tick(&idle());
    assert_eq!(s.game_state, GameState::UnloadingMap);
    assert_eq!(s.level, Level(1));
    assert!(s.is_valid());
}

#[test]
fn ball_one_step_beyond_the_hole_edge_flies_on() {
    let mut s = open_course(GameState::BallMoving, v(0, 0), 3);
    s.ball = Some(Ball {
        position: v(9 * SCALE + 1, 0),
        velocity: Velocity(v(0, 6 * SCALE + 2816)),
        size: v(15 * SCALE, 15 * SCALE),
    });
    s.tick(&Input { dt: 0, ..idle() });
    assert_eq!(s.game_state, GameState::BallMoving);
}

#[test]
fn unloading_clears_the_field_and_counts_the_level_up() {
    let mut s = open_course(GameState::UnloadingMap, v(0, 416257), 1);
    let out = s.tick(&idle());
    assert_eq!(out, Outcome { despawned: true, ..quiet() });
    assert_eq!(s.game_state, GameState::LoadingMap);
    assert_eq!(s.level, Level(2));
    assert_eq!(s.ball, None);
    assert_eq!(s.hole, None);
    assert!(s.walls.is_empty());
    assert_eq!(s.scoreboard, Some(Scoreboard { score: 1 }));
    assert!(s.is_valid());
    s.tick(&idle());
    assert_eq!(s.game_state, GameState::DeadBall);
    assert_eq!(s.walls, load_level_2().walls);
}

#[test]
fn finishing_the_last_level_ends_the_session() {
    let mut s = open_course(GameState::UnloadingMap, v(0, 0), 12);
    s.level = Level(3);
    s.tick(&idle());
    assert_eq!(s.level, Level(4));
    assert_eq!(s.game_state, GameState::LoadingMap);
    assert_eq!(s.app_state, AppState::Game);
    assert!(s.is_valid());
    let out = s.tick(&idle());
    assert_eq!(out, Outcome { game_over: Some(GameOver { final_score: 12 }), ..quiet() });
    assert_eq!(s.app_state, AppState::GameOver);
    assert_eq!(s.game_state, GameState::OutOfGame);
    assert_eq!(s.level, Level(1));
    assert_eq!(s.scoreboard, None);
    assert!(s.is_valid());
}

#[test]
fn menu_request_leaves_play_at_once_and_tells_the_score() {
    let states = [GameState::DeadBall, GameState::BallMoving, GameState::UnloadingMap];
    for state in states {
        let velocity = if state == GameState::DeadBall { v(0, 0) } else { v(0, 512001) };
        let mut s = open_course(state, velocity, 5);
        let out = s.tick(&Input { primary_pressed: true, ..menu() });
        assert_eq!(
            out,
            Outcome { game_over: Some(GameOver { final_score: 5 }), despawned: true, ..quiet() }
        );
        assert_eq!(s, Session::new(Tuning::standard()));
    }
}

#[test]
fn menu_request_while_loading_has_nothing_to_clear() {
    let mut s = Session::new(Tuning::standard());
    s.tick(&start());
    let out = s.tick(&menu());
    assert_eq!(out, Outcome { game_over: Some(GameOver { final_score: 0 }), ..quiet() });
    assert_eq!(s, Session::new(Tuning::standard()));
}

#[test]
fn final_screen_request_leaves_play_at_once_and_tells_the_score() {
    let mut s = open_course(GameState::BallMoving, v(0, 512001), 9);
    let out = s.tick(&game_over());
    assert_eq!(
        out,
        Outcome { game_over: Some(GameOver { final_score: 9 }), despawned: true, ..quiet() }
    );
    assert_eq!(s.app_state, AppState::GameOver);
    assert_eq!(s.game_state, GameState::OutOfGame);
    assert_eq!(s.level, Level(1));
    assert!(s.is_valid());
}

#[test]
fn menu_request_comes_before_the_final_screen_request() {
    let mut s = open_course(GameState::BallMoving, v(0, 512001), 9);
    s.tick(&Input { game_over: true, ..menu() });
    assert_eq!(s.app_state, AppState::MainMenu);
}

#[test]
fn requests_move_between_menu_and_final_screen_without_a_score() {
    let mut s = Session::new(Tuning::standard());
    assert_eq!(s.tick(&game_over()), quiet());
    assert_eq!(s.app_state, AppState::GameOver);
    assert_eq!(s.tick(&game_over()), quiet());
    assert_eq!(s.app_state, AppState::GameOver);
    assert_eq!(s.tick(&menu()), quiet());
    assert_eq!(s.app_state, AppState::MainMenu);
    assert!(s.is_valid());
}

#[test]
fn restart_from_the_final_screen_starts_a_fresh_session() {
    let mut s = open_course(GameState::BallMoving, v(0, 512001), 9);
    s.level = Level(3);
    s.tick(&game_over());
    s.tick(&start());
    assert_eq!(s.app_state, AppState::Game);
    assert_eq!(s.game_state, GameState::LoadingMap);
    assert_eq!(s.level, Level(1));
    assert_eq!(s.scoreboard, Some(Scoreboard { score: 0 }));
}

#[test]
fn start_request_during_play_is_ignored() {
    let mut s = open_course(GameState::BallMoving, v(0, 512001), 9);
    let mut t = s.clone();
    s.tick(&start());
    t.tick(&idle());
    assert_eq!(s, t);
}

#[test]
fn single_steps_of_the_session_match_tick() {
    let mut s = Session::new(Tuning::standard());
    assert_eq!(s.transition_to_main_menu_state(true), None);
    assert_eq!(s.transition_to_game_over_menu_state(false), None);
    s.enter_game_state();
    assert_eq!(s.game_state, GameState::LoadingMap);
    assert_eq!(s.load_map(), Outcome { spawned: true, ..quiet() });
    let aim = s.aim(&swing(v(0, 0)));
    assert!(aim.aim.is_some());
    assert_eq!(s.game_state, GameState::BallMoving);
    s.fly(&idle());
    assert!(s.unload_map());
    assert!(!s.unload_map());
    s.set_load_map_state();
    assert_eq!(s.level, Level(2));
    assert_eq!(s.game_state, GameState::LoadingMap);
    let left = s.transition_to_game_over_menu_state(true);
    assert_eq!(left, Some(Outcome { game_over: Some(GameOver { final_score: 1 }), ..quiet() }));
    assert_eq!(s.app_state, AppState::GameOver);
    assert_eq!(s.exit_game_state(AppState::MainMenu), quiet());
    assert_eq!(s, Session::new(Tuning::standard()));
}

#[test]
fn is_valid_rejects_broken_sessions() {
    assert!(open_course(GameState::DeadBall, v(0, 0), 0).is_valid());
    assert!(open_course(GameState::BallMoving, v(5, 5), 0).is_valid());
    // A ball that moves while the player aims.
    assert!(!open_course(GameState::DeadBall, v(1, 0), 0).is_valid());
    // Play without a ball.
    let mut s = open_course(GameState::BallMoving, v(0, 0), 0);
    s.ball = None;
    assert!(!s.is_valid());
    // Play without a score.
    let mut s = open_course(GameState::BallMoving, v(0, 0), 0);
    s.scoreboard = None;
    assert!(!s.is_valid());
    // A course left over in the menu.
    let mut s = open_course(GameState::OutOfGame, v(0, 0), 0);
    s.app_state = AppState::MainMenu;
    s.scoreboard = None;
    assert!(!s.is_valid());
    // A level beyond the catalog while a course is set up.
    let mut s = open_course(GameState::BallMoving, v(0, 0), 0);
    s.level = Level(4);
    assert!(!s.is_valid());
    // A level counter that was not reset.
    let mut s = Session::new(Tuning::standard());
    s.level = Level(2);
    assert!(!s.is_valid());
}

/// The ball is launched straight at the hole at 500 units a second.
fn run_toward_the_hole(ticks: usize) -> (Session, Vec<usize>) {
    let mut s = open_course(GameState::DeadBall, v(0, 0), 0);
    let mut inputs = vec![swing(v(0, 250 * SCALE - 146286))];
    while inputs.len() < ticks {
        inputs.push(idle());
    }
    let completed = s.run(&inputs);
    (s, completed)
}

#[test]
fn end_to_end_ball_reaches_the_hole() {
    // Before the ball is close enough: still in flight, nothing completed.
    let (s, completed) = run_toward_the_hole(34);
    assert_eq!(s.game_state, GameState::BallMoving);
    assert_eq!(completed, Vec::<usize>::new());
    assert_eq!(s.ball.unwrap().position, v(0, -15232));
    // The tick in which the ball comes within 9 units of the hole.
    let (s, completed) = run_toward_the_hole(35);
    assert_eq!(s.game_state, GameState::UnloadingMap);
    assert_eq!(completed, vec![34]);
    assert_eq!(s.ball.unwrap().position, v(0, -8684));
    assert_eq!(s.level, Level(1));
    assert_eq!(s.scoreboard, Some(Scoreboard { score: 1 }));
    // The next tick clears the field and counts the level up.
    let (s, completed) = run_toward_the_hole(36);
    assert_eq!(s.game_state, GameState::LoadingMap);
    assert_eq!(completed, vec![34]);
    assert_eq!(s.level, Level(2));
    assert_eq!(s.scoreboard, Some(Scoreboard { score: 1 }));
    // Long after, the level was still completed exactly once.
    let (s, completed) = run_toward_the_hole(400);
    assert_eq!(completed, vec![34]);
    assert_eq!(s.level, Level(2));
    assert_eq!(s.game_state, GameState::DeadBall);
    assert_eq!(s.scoreboard, Some(Scoreboard { score: 1 }));
}

#[test]
fn end_to_end_launch_speed_is_500_units() {
    let (s, _) = run_toward_the_hole(1);
    assert_eq!(s.game_state, GameState::BallMoving);
    assert_eq!(s.ball.unwrap().velocity, Velocity(v(0, 512001)));
}

#[test]
fn end_to_end_ball_launched_away_from_the_hole_comes_to_rest() {
    // Down and to the right at 500 units a second: away from the hole.
    let mut s = open_course(GameState::DeadBall, v(0, 0), 0);
    let mut inputs = vec![swing(v(103440, 250 * SCALE + 103440))];
    while inputs.len() < 254 {
        inputs.push(idle());
    }
    let completed = s.run(&inputs);
    assert_eq!(completed, Vec::<usize>::new());
    assert_eq!(s.game_state, GameState::BallMoving);
    let completed = s.run(&vec![idle()]);
    assert_eq!(completed, Vec::<usize>::new());
    assert_eq!(s.game_state, GameState::DeadBall);
    let ball = s.ball.unwrap();
    assert_eq!(ball.position, v(729742, -250 * SCALE - 729742));
    assert_eq!(ball.velocity, Velocity(v(0, 0)));
    assert_eq!(s.level, Level(1));
    assert_eq!(s.scoreboard, Some(Scoreboard { score: 1 }));
}

/// A fixed sequence of inputs that swings now and then at changing targets.
fn scripted_inputs(count: usize) -> Vec<Input> {
    let mut inputs = vec![start()];
    let mut seed: u64 = 0x2545_F491_4F6C_DD1D;
    while inputs.len() < count {
        seed = seed.wrapping_mul(6364136223846793005).wrapping_add(1442695040888963407);
        let x = ((seed >> 33) % 1400) as i64 - 700;
        let y = ((seed >> 13) % 700) as i64 - 350;
        inputs.push(Input {
            pointer: v(x * SCALE, y * SCALE),
            primary_pressed: (seed >> 60) == 0,
            ..idle()
        });
    }
    inputs
}

#[test]
fn two_runs_over_the_same_inputs_agree() {
    let inputs = scripted_inputs(3000);
    let mut first = Session::new(Tuning::standard());
    let mut second = first.clone();
    let completed_first = first.run(&inputs);
    let completed_second = second.run(&inputs);
    assert_eq!(first, second);
    assert_eq!(first.scoreboard, second.scoreboard);
    assert_eq!(completed_first, completed_second);
    assert!(first.scoreboard.unwrap().score > 0);
}

#[test]
fn run_agrees_with_tick_by_tick() {
    let inputs = scripted_inputs(1500);
    let mut whole = Session::new(Tuning::standard());
    let completed = whole.run(&inputs);
    let mut stepped = Session::new(Tuning::standard());
    let mut seen = Vec::new();
    for (i, input) in inputs.iter().enumerate() {
        stepped.tick(input);
        if stepped.game_state == GameState::UnloadingMap {
            seen.push(i);
        }
    }
    assert_eq!(whole, stepped);
    assert_eq!(completed, seen);
}

#[test]
fn invariants_hold_and_the_level_never_goes_down_during_play() {
    let inputs = scripted_inputs(3000);
    let mut s = Session::new(Tuning::standard());
    let mut level = 1;
    let mut swings = 0;
    let mut collisions = 0;
    for input in &inputs {
        let was_aiming = s.game_state == GameState::DeadBall;
        let out = s.tick(input);
        assert!(s.is_valid());
        assert!(s.level.0 >= level);
        level = s.level.0;
        if was_aiming && input.primary_pressed {
            swings += 1;
        }
        assert_eq!(s.scoreboard, Some(Scoreboard { score: swings }));
        if out.collision.is_some() {
            collisions += 1;
        }
        if let Some(ball) = s.ball {
            assert!(ball.is_valid());
        }
    }
    assert!(swings > 0);
    assert!(collisions > 0);
}
