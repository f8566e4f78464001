use mini_golf::components::{walls_valid, Collider, GolfHole};
use mini_golf::levels::{
    load_level, load_level_1, load_level_2, load_level_3, Level, LevelDescriptor, LEVEL_COUNT,
};
use mini_golf::maps::{create_levels_queue, LevelState, LevelsQueue, WallLocation};
use mini_golf::units::SCALE;
use mini_golf::vector::Vector;

fn units(x: i64, y: i64) -> Vector {
    Vector { x: x * SCALE, y: y * SCALE }
}

fn wall(x: i64, y: i64, w: i64, h: i64) -> Collider {
    Collider { position: units(x, y), size: units(w, h) }
}

fn check_common_parts(d: &LevelDescriptor) {
    assert_eq!(d.ball_size, units(15, 15));
    assert_eq!(d.ball_direction, Vector { x: 724, y: -724 });
    assert_eq!(d.hole.radius, 7240);
    assert!(d.hole.is_valid());
    assert!(d.ball_start.is_valid());
    assert!(walls_valid(&d.walls));
}

#[test]
fn level_1_is_a_closed_field_with_a_bar() {
    let d = load_level_1();
    check_common_parts(&d);
    assert_eq!(d.hole, GolfHole { position: units(650, 300), radius: 7240 });
    assert_eq!(d.ball_start, units(-670, -330));
    assert_eq!(
        d.walls,
        vec![
            wall(-700, 0, 10, 710),
            wall(700, 0, 10, 710),
            wall(0, 0, 1110, 10),
            wall(0, -350, 1410, 10),
            wall(0, 350, 1410, 10),
        ]
    );
}

#[test]
fn level_2_is_a_winding_corridor() {
    let d = load_level_2();
    check_common_parts(&d);
    assert_eq!(d.hole, GolfHole { position: units(-350, 250), radius: 7240 });
    assert_eq!(d.ball_start, units(-350, -250));
    assert_eq!(
        d.walls,
        vec![
            wall(-400, -200, 30, 200),
            wall(-400, 200, 30, 200),
            wall(400, 0, 30, 630),
            wall(250, 0, 30, 200),
            wall(0, -300, 830, 30),
            wall(-75, -100, 680, 30),
            wall(0, 300, 830, 30),
            wall(-75, 100, 680, 30),
        ]
    );
}

#[test]
fn level_3_has_nested_bars() {
    let d = load_level_3();
    check_common_parts(&d);
    assert_eq!(d.hole, GolfHole { position: units(0, 0), radius: 7240 });
    assert_eq!(d.ball_start, units(0, -250));
    let mut expected = vec![
        wall(0, -300, 900, 30),
        wall(0, 300, 900, 30),
        wall(0, -200, 700, 30),
        wall(0, 200, 700, 30),
        wall(0, -100, 500, 30),
        wall(0, 100, 500, 30),
    ];
    expected.push(wall(0, -35, 300, 15));
    expected.push(wall(0, 35, 300, 15));
    expected.push(wall(-450, 0, 30, 630));
    expected.push(wall(450, 0, 30, 630));
    assert_eq!(d.walls, expected);
}

#[test]
fn catalog_holds_levels_one_to_three() {
    assert_eq!(LEVEL_COUNT, 3);
    assert_eq!(load_level(&Level(1)), Some(load_level_1()));
    assert_eq!(load_level(&Level(2)), Some(load_level_2()));
    assert_eq!(load_level(&Level(3)), Some(load_level_3()));
}

#[test]
fn catalog_has_no_level_beyond_its_range() {
    assert_eq!(load_level(&Level(0)), None);
    assert_eq!(load_level(&Level(4)), None);
    assert_eq!(load_level(&Level(-1)), None);
    assert_eq!(load_level(&Level(i32::MAX)), None);
    assert_eq!(load_level(&Level(i32::MIN)), None);
}

#[test]
fn catalog_lookup_is_pure() {
    assert_eq!(load_level(&Level(2)), load_level(&Level(2)));
}

#[test]
fn arena_walls_stand_on_their_sides() {
    assert_eq!(WallLocation::Left.position(), units(-450, 0));
    assert_eq!(WallLocation::Right.position(), units(450, 0));
    assert_eq!(WallLocation::Bottom.position(), units(0, -300));
    assert_eq!(WallLocation::Top.position(), units(0, 300));
}

#[test]
fn arena_walls_close_the_corners() {
    assert_eq!(WallLocation::Left.size(), units(10, 610));
    assert_eq!(WallLocation::Right.size(), units(10, 610));
    assert_eq!(WallLocation::Bottom.size(), units(910, 10));
    assert_eq!(WallLocation::Top.size(), units(910, 10));
    assert_eq!(WallLocation::Top.collider(), wall(0, 300, 910, 10));
}

#[test]
fn practice_course_is_open_at_the_top() {
    let d = mini_golf::maps::load_level_2();
    check_common_parts(&d);
    assert_eq!(d.hole, GolfHole { position: units(0, 0), radius: 7240 });
    assert_eq!(d.ball_start, units(0, -100));
    assert_eq!(
        d.walls,
        vec![wall(-450, 0, 10, 610), wall(450, 0, 10, 610), wall(0, -300, 910, 10)]
    );
}

#[test]
fn levels_queue_starts_with_the_practice_course() {
    assert_eq!(create_levels_queue(), LevelsQueue(vec![LevelState::Level2]));
}
