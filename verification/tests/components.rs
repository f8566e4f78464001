use mini_golf::components::{walls_valid, Ball, Collider, GolfHole, Velocity};
use mini_golf::swings_count::{insert_score, remove_score, GameOver, Scoreboard};
use mini_golf::units::{LIMIT, SCALE};
use mini_golf::vector::Vector;

fn v(x: i64, y: i64) -> Vector {
    Vector { x, y }
}

#[test]
fn vector_constructors_give_the_components() {
    assert_eq!(Vector::new(3, -4), v(3, -4));
    assert_eq!(Vector::zero(), v(0, 0));
    assert_eq!(Vector::from_units(15, -250), v(15 * SCALE, -250 * SCALE));
    assert_eq!(Vector::from_units(i32::MIN, i32::MAX), v(-(1 << 41), ((1 << 31) - 1) << 10));
}

#[test]
fn vector_flip_turns_the_vertical_axis() {
    assert_eq!(v(3, -4).flipped(), v(3, 4));
    assert_eq!(v(0, 0).flipped(), v(0, 0));
    assert_eq!(v(-LIMIT, LIMIT).flipped(), v(-LIMIT, -LIMIT));
}

#[test]
fn vector_is_valid_within_the_limit() {
    assert!(v(LIMIT, -LIMIT).is_valid());
    assert!(v(0, 0).is_valid());
    assert!(!v(LIMIT + 1, 0).is_valid());
    assert!(!v(0, -LIMIT - 1).is_valid());
    assert!(!v(i64::MIN, 0).is_valid());
}

#[test]
fn new_ball_is_at_rest() {
    let ball = Ball::new(v(5, 6), v(15, 15));
    assert_eq!(ball, Ball { position: v(5, 6), velocity: Velocity(v(0, 0)), size: v(15, 15) });
    assert_eq!(Velocity::zero(), Velocity(v(0, 0)));
    assert!(ball.is_valid());
}

#[test]
fn ball_is_valid_when_every_part_is() {
    let good = Ball { position: v(LIMIT, 0), velocity: Velocity(v(0, -LIMIT)), size: v(-1, 0) };
    assert!(good.is_valid());
    assert!(!Ball { position: v(LIMIT + 1, 0), ..good }.is_valid());
    assert!(!Ball { velocity: Velocity(v(0, LIMIT + 1)), ..good }.is_valid());
    assert!(!Ball { size: v(0, LIMIT + 1), ..good }.is_valid());
}

#[test]
fn hole_is_valid_when_every_part_is() {
    assert!(GolfHole { position: v(0, 0), radius: LIMIT }.is_valid());
    assert!(GolfHole { position: v(0, 0), radius: -LIMIT }.is_valid());
    assert!(!GolfHole { position: v(0, 0), radius: LIMIT + 1 }.is_valid());
    assert!(!GolfHole { position: v(0, LIMIT + 1), radius: 0 }.is_valid());
}

#[test]
fn walls_are_valid_when_each_one_is() {
    let good = Collider::new(v(1, 2), v(3, 4));
    assert_eq!(good, Collider { position: v(1, 2), size: v(3, 4) });
    let bad = Collider { position: v(1, 2), size: v(LIMIT + 1, 4) };
    assert!(good.is_valid());
    assert!(!bad.is_valid());
    assert!(walls_valid(&Vec::new()));
    assert!(walls_valid(&vec![good, good]));
    assert!(!walls_valid(&vec![good, bad, good]));
    assert!(!walls_valid(&vec![bad]));
}

#[test]
fn scoreboard_counts_swings_one_by_one() {
    let mut board = insert_score();
    assert_eq!(board, Scoreboard { score: 0 });
    assert_eq!(Scoreboard::default(), Scoreboard { score: 0 });
    board.record_swing();
    board.record_swing();
    assert_eq!(board, Scoreboard { score: 2 });
    assert_eq!(remove_score(board), GameOver { final_score: 2 });
}
