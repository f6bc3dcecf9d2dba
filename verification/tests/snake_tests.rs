use std::collections::VecDeque;

use snake_game::Direction;
use snake_game::Food;
use snake_game::Snake;

fn snake_of(cells: Vec<(i32, i32)>, dir: Direction) -> Snake {
    Snake { body: VecDeque::from(cells), dir }
}

#[test]
fn two_updates_translate_the_body() {
    let mut s = snake_of(vec![(0, 0), (0, 1)], Direction::Right);
    s.update();
    assert_eq!(s.body, VecDeque::from(vec![(1, 0), (0, 0)]));
    s.update();
    assert_eq!(s.body, VecDeque::from(vec![(2, 0), (1, 0)]));
}

#[test]
fn translation_keeps_the_length() {
    let mut s = snake_of(vec![(3, 3), (3, 4), (4, 4)], Direction::Up);
    let before = s.body.len();
    s.update();
    assert_eq!(s.body.len(), before);
    assert_eq!(s.body, VecDeque::from(vec![(3, 2), (3, 3), (3, 4)]));
}

#[test]
fn self_collision_freezes_the_body() {
    // The head (0,0) heading down runs into (0,1), which the body holds.
    let mut s = snake_of(vec![(0, 0), (1, 0), (1, 1), (0, 1)], Direction::Down);
    let before = s.body.clone();
    s.update();
    assert_eq!(s.body, before);
}

#[test]
fn opposite_direction_is_rejected() {
    let mut s = snake_of(vec![(0, 0), (0, 1)], Direction::Right);
    s.set_direction(Direction::Left);
    assert_eq!(s.dir, Direction::Right);
    let mut s = snake_of(vec![(0, 0)], Direction::Up);
    s.set_direction(Direction::Down);
    assert_eq!(s.dir, Direction::Up);
    let mut s = snake_of(vec![(0, 0)], Direction::Left);
    s.set_direction(Direction::Right);
    assert_eq!(s.dir, Direction::Left);
    let mut s = snake_of(vec![(0, 0)], Direction::Down);
    s.set_direction(Direction::Up);
    assert_eq!(s.dir, Direction::Down);
}

#[test]
fn other_directions_are_adopted() {
    let mut s = snake_of(vec![(0, 0)], Direction::Right);
    s.set_direction(Direction::Up);
    assert_eq!(s.dir, Direction::Up);
    s.set_direction(Direction::Up);
    assert_eq!(s.dir, Direction::Up);
    s.set_direction(Direction::Left);
    assert_eq!(s.dir, Direction::Left);
    s.set_direction(Direction::Down);
    assert_eq!(s.dir, Direction::Down);
}

#[test]
fn is_collide_matches_the_body() {
    let s = snake_of(vec![(0, 0), (0, 1), (1, 1)], Direction::Right);
    assert!(s.is_collide(0, 0));
    assert!(s.is_collide(0, 1));
    assert!(s.is_collide(1, 1));
    assert!(!s.is_collide(1, 0));
    assert!(!s.is_collide(-1, 0));
    assert!(!s.is_collide(2, 2));
}

#[test]
fn render_squares_scale_by_cell_size() {
    let s = snake_of(vec![(0, 0), (2, 3), (-1, 5)], Direction::Right);
    let squares = s.render_squares();
    assert_eq!(squares, vec![(0, 0), (40, 60), (-20, 100)]);
}

#[test]
fn food_render_square_scales_by_cell_size() {
    let f = Food { pos_x: 4, pos_y: -2 };
    assert_eq!(f.render_square(), (80, -40));
}

#[test]
fn teleport_stays_on_the_board() {
    // A 200-pixel board of 20-pixel cells has coordinates 0..10.
    let f = Food { pos_x: 0, pos_y: 0 };
    for _ in 0..1000 {
        let r = f.teleport(200);
        assert!(0 <= r && r < 10);
    }
}

#[test]
fn teleport_on_one_cell_board_is_zero() {
    // Boards under two cells wide leave a single possible coordinate.
    let f = Food { pos_x: 3, pos_y: 3 };
    for _ in 0..50 {
        assert_eq!(f.teleport(20), 0);
        assert_eq!(f.teleport(39), 0);
    }
}
