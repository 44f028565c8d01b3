use std::collections::VecDeque;

use snake::field::{Field, TickOutcome};
use snake::geometry::{Point, SnakeDirection, SnakeTexture};
use snake::snake::{wrap_dec, wrap_inc, Snake};

fn snake_with(
    body: Vec<(u32, u32)>,
    direction: SnakeDirection,
    prev_direction: SnakeDirection,
) -> Snake {
    let points: VecDeque<(Point, SnakeTexture)> = body
        .into_iter()
        .map(|(x, y)| (Point(x, y), SnakeTexture::Vertical))
        .collect();
    Snake { points, direction, prev_direction, wrapped: false }
}

fn coords(s: &Snake) -> Vec<(u32, u32)> {
    s.points.iter().map(|(p, _)| (p.0, p.1)).collect()
}

#[test]
fn is_valid_move_rejects_exactly_the_reverse() {
    let all = [
        SnakeDirection::Up,
        SnakeDirection::Down,
        SnakeDirection::Left,
        SnakeDirection::Right,
    ];
    let opposite = |d: SnakeDirection| match d {
        SnakeDirection::Up => SnakeDirection::Down,
        SnakeDirection::Down => SnakeDirection::Up,
        SnakeDirection::Left => SnakeDirection::Right,
        SnakeDirection::Right => SnakeDirection::Left,
    };
    for h in all {
        for r in all {
            assert_eq!(h.is_valid_move(&r), r != opposite(h));
        }
    }
}

#[test]
fn request_direction_accepts_iff_not_reverse_of_heading() {
    let all = [
        SnakeDirection::Up,
        SnakeDirection::Down,
        SnakeDirection::Left,
        SnakeDirection::Right,
    ];
    let opposite = |d: SnakeDirection| match d {
        SnakeDirection::Up => SnakeDirection::Down,
        SnakeDirection::Down => SnakeDirection::Up,
        SnakeDirection::Left => SnakeDirection::Right,
        SnakeDirection::Right => SnakeDirection::Left,
    };
    for h in all {
        for r in all {
            let mut s = snake_with(vec![(2, 2)], h, h);
            let accepted = s.request_direction(r);
            assert_eq!(accepted, r != opposite(h));
            if accepted {
                assert_eq!(s.direction, r);
            } else {
                assert_eq!(s.direction, h);
            }
        }
    }
}

#[test]
fn new_snake_has_fixed_vertical_body_heading_down() {
    let s = Snake::new();
    assert_eq!(coords(&s), vec![(0, 3), (0, 2), (0, 1), (0, 0)]);
    assert!(s.points.iter().all(|(_, t)| *t == SnakeTexture::Vertical));
    assert_eq!(s.direction, SnakeDirection::Down);
    assert_eq!(s.prev_direction, SnakeDirection::Down);
    assert!(!s.detect_wrapping());
    assert_eq!(s.length(), 4);
}

#[test]
fn plain_move_keeps_length_and_advances_head_one_cell() {
    let mut s = Snake::new();
    let mut food: Vec<Point> = Vec::new();
    s.make_move((25, 10), &mut food);
    assert_eq!(s.length(), 4);
    assert_eq!(coords(&s), vec![(0, 4), (0, 3), (0, 2), (0, 1)]);
    assert!(!s.detect_wrapping());
    assert!(food.is_empty());
}

#[test]
fn move_onto_food_grows_by_one_and_removes_that_entry_only() {
    let mut s = Snake::new();
    let mut food = vec![Point(3, 3), Point(0, 4), Point(7, 7)];
    s.make_move((25, 10), &mut food);
    assert_eq!(s.length(), 5);
    assert_eq!(coords(&s), vec![(0, 4), (0, 3), (0, 2), (0, 1), (0, 0)]);
    assert_eq!(food, vec![Point(3, 3), Point(7, 7)]);
}

#[test]
fn change_direction_silently_ignores_reverse_request() {
    let mut s = Snake::new();
    s.change_direction(SnakeDirection::Up);
    assert_eq!(s.direction, SnakeDirection::Down);
    let mut food: Vec<Point> = Vec::new();
    s.make_move((25, 10), &mut food);
    assert_eq!(coords(&s)[0], (0, 4));
}

#[test]
fn turn_updates_textures_of_new_and_previous_head() {
    let mut s = Snake::new();
    s.change_direction(SnakeDirection::Right);
    let mut food: Vec<Point> = Vec::new();
    s.make_move((25, 10), &mut food);
    assert_eq!(coords(&s), vec![(1, 3), (0, 3), (0, 2), (0, 1)]);
    assert_eq!(s.points[0].1, SnakeTexture::Horizontal);
    assert_eq!(s.points[1].1, SnakeTexture::DownAndRight);
    assert_eq!(s.prev_direction, SnakeDirection::Right);
}

#[test]
fn get_texture_maps_every_valid_turn() {
    let up = SnakeDirection::Up;
    let down = SnakeDirection::Down;
    let left = SnakeDirection::Left;
    let right = SnakeDirection::Right;
    assert_eq!(up.get_texture(&left), SnakeTexture::UpAndLeft);
    assert_eq!(right.get_texture(&down), SnakeTexture::UpAndLeft);
    assert_eq!(down.get_texture(&left), SnakeTexture::UpAndRight);
    assert_eq!(right.get_texture(&up), SnakeTexture::UpAndRight);
    assert_eq!(up.get_texture(&right), SnakeTexture::DownAndLeft);
    assert_eq!(left.get_texture(&down), SnakeTexture::DownAndLeft);
    assert_eq!(down.get_texture(&right), SnakeTexture::DownAndRight);
    assert_eq!(left.get_texture(&up), SnakeTexture::DownAndRight);
    assert_eq!(up.get_texture(&up), SnakeTexture::Vertical);
    assert_eq!(down.get_texture(&down), SnakeTexture::Vertical);
    assert_eq!(left.get_texture(&left), SnakeTexture::Horizontal);
    assert_eq!(right.get_texture(&right), SnakeTexture::Horizontal);
}

#[test]
fn texture_glyphs_match_box_drawing_characters() {
    assert_eq!(SnakeTexture::Horizontal.to_char(), '\u{2501}');
    assert_eq!(SnakeTexture::Vertical.to_char(), '\u{2503}');
    assert_eq!(SnakeTexture::DownAndLeft.to_char(), '\u{250F}');
    assert_eq!(SnakeTexture::UpAndLeft.to_char(), '\u{2513}');
    assert_eq!(SnakeTexture::DownAndRight.to_char(), '\u{2517}');
    assert_eq!(SnakeTexture::UpAndRight.to_char(), '\u{251B}');
}

#[test]
fn wrap_inc_wraps_at_far_edge_and_sets_flag() {
    let mut wrapped = false;
    assert_eq!(wrap_inc(4, 5, &mut wrapped), 0);
    assert!(wrapped);
    let mut wrapped = false;
    assert_eq!(wrap_inc(2, 5, &mut wrapped), 3);
    assert!(!wrapped);
}

#[test]
fn wrap_dec_wraps_at_zero_and_sets_flag() {
    let mut wrapped = false;
    assert_eq!(wrap_dec(0, 5, &mut wrapped), 4);
    assert!(wrapped);
    let mut wrapped = false;
    assert_eq!(wrap_dec(3, 5, &mut wrapped), 2);
    assert!(!wrapped);
}

#[test]
fn moving_up_from_top_row_wraps_to_bottom_row() {
    let mut s = snake_with(vec![(3, 0)], SnakeDirection::Up, SnakeDirection::Up);
    let mut food: Vec<Point> = Vec::new();
    s.make_move((5, 5), &mut food);
    assert_eq!(coords(&s), vec![(3, 4)]);
    assert!(s.detect_wrapping());
}

#[test]
fn forbidden_wrap_loses_on_the_terminal_check() {
    let mut f = Field {
        size_x: 5,
        size_y: 5,
        snake: snake_with(vec![(3, 0)], SnakeDirection::Up, SnakeDirection::Up),
        food: vec![Point(1, 1)],
        wraps: false,
        ticks_since_extra_food: 0,
        food_interval: 100,
    };
    assert_eq!(f.tick(None), TickOutcome::Loss);
}

#[test]
fn allowed_wrap_continues_the_game() {
    let mut f = Field {
        size_x: 5,
        size_y: 5,
        snake: snake_with(vec![(3, 0)], SnakeDirection::Up, SnakeDirection::Up),
        food: vec![Point(1, 1)],
        wraps: true,
        ticks_since_extra_food: 0,
        food_interval: 100,
    };
    assert_eq!(f.tick(None), TickOutcome::Continue);
    assert_eq!(coords(&f.snake), vec![(3, 4)]);
}

#[test]
fn self_collision_head_reentering_occupied_cell_is_detected() {
    let s = snake_with(
        vec![(2, 2), (2, 3), (2, 4), (2, 2)],
        SnakeDirection::Up,
        SnakeDirection::Up,
    );
    assert!(s.detect_self_collision());
}

#[test]
fn body_without_repeated_head_is_no_collision() {
    let s = snake_with(
        vec![(2, 2), (2, 3), (2, 4)],
        SnakeDirection::Up,
        SnakeDirection::Up,
    );
    assert!(!s.detect_self_collision());
}

#[test]
fn running_into_the_own_body_loses() {
    // The head at (2,2) moves Down into (2,3), which another segment still
    // occupies after the tail is shed.
    let mut f = Field {
        size_x: 5,
        size_y: 5,
        snake: snake_with(
            vec![(2, 2), (3, 2), (3, 3), (2, 3), (1, 3)],
            SnakeDirection::Down,
            SnakeDirection::Down,
        ),
        food: vec![Point(0, 0)],
        wraps: true,
        ticks_since_extra_food: 0,
        food_interval: 100,
    };
    assert_eq!(f.tick(None), TickOutcome::Loss);
    assert!(f.snake.detect_self_collision());
    assert!(!f.snake.detect_wrapping());
}

#[test]
fn snake_filling_the_board_wins_regardless_of_remaining_food() {
    // A 2x2 board: the snake covers three cells, eats the fourth, and wins
    // even though another food entry is still on the board's cells list.
    let mut f = Field {
        size_x: 2,
        size_y: 2,
        snake: snake_with(
            vec![(1, 1), (1, 0), (0, 0)],
            SnakeDirection::Down,
            SnakeDirection::Down,
        ),
        food: vec![Point(0, 1), Point(0, 0)],
        wraps: false,
        ticks_since_extra_food: 0,
        food_interval: 100,
    };
    assert_eq!(f.tick(Some(SnakeDirection::Left)), TickOutcome::Win);
    assert_eq!(f.snake.length(), 4);
}

#[test]
fn five_downs_on_a_5x5_board_without_wrap_lose_at_the_edge() {
    let mut f = Field {
        size_x: 5,
        size_y: 5,
        snake: Snake::new(),
        food: vec![Point(3, 3)],
        wraps: false,
        ticks_since_extra_food: 0,
        food_interval: 100,
    };
    let mut outcomes = Vec::new();
    for _ in 0..5 {
        let outcome = f.tick(Some(SnakeDirection::Down));
        outcomes.push(outcome);
        if outcome != TickOutcome::Continue {
            break;
        }
    }
    assert_eq!(outcomes, vec![TickOutcome::Continue, TickOutcome::Loss]);
}

#[test]
fn tick_refills_an_empty_food_list_off_the_snake() {
    let mut f = Field::new(5, 5, false, 100);
    assert!(f.food.is_empty());
    let outcome = f.tick(None);
    assert_eq!(outcome, TickOutcome::Continue);
    assert_eq!(f.food.len(), 1);
    let p = f.food[0];
    assert!(p.0 < 5 && p.1 < 5);
    assert!(f.snake.points.iter().all(|(q, _)| *q != p));
}

#[test]
fn extra_food_is_placed_every_interval_tick() {
    let mut f = Field {
        size_x: 6,
        size_y: 6,
        snake: Snake::new(),
        food: vec![Point(5, 5)],
        wraps: false,
        ticks_since_extra_food: 0,
        food_interval: 2,
    };
    assert_eq!(f.tick(None), TickOutcome::Continue);
    assert_eq!(f.food.len(), 1);
    assert_eq!(f.tick(None), TickOutcome::Continue);
    assert_eq!(f.food.len(), 2);
    for p in &f.food[1..] {
        assert!(p.0 < 6 && p.1 < 6);
        assert!(f.snake.points.iter().all(|(q, _)| q != p));
    }
}

#[test]
fn food_placement_avoids_every_snake_cell() {
    // Only one free cell: whatever the random sample was, the placement must
    // fall back to it.
    let f = Field {
        size_x: 2,
        size_y: 1,
        snake: snake_with(vec![(0, 0)], SnakeDirection::Right, SnakeDirection::Right),
        food: Vec::new(),
        wraps: true,
        ticks_since_extra_food: 0,
        food_interval: 100,
    };
    assert_eq!(f.find_place_for_food(), Some(Point(1, 0)));
}

#[test]
fn full_board_has_no_place_for_food() {
    let f = Field {
        size_x: 1,
        size_y: 1,
        snake: snake_with(vec![(0, 0)], SnakeDirection::Right, SnakeDirection::Right),
        food: Vec::new(),
        wraps: true,
        ticks_since_extra_food: 0,
        food_interval: 100,
    };
    assert_eq!(f.find_place_for_food(), None);
}

#[test]
fn occupies_reports_exactly_the_body_cells() {
    let s = snake_with(vec![(1, 2), (1, 3)], SnakeDirection::Up, SnakeDirection::Up);
    assert!(s.occupies(Point(1, 2)));
    assert!(s.occupies(Point(1, 3)));
    assert!(!s.occupies(Point(2, 2)));
}

#[test]
fn field_new_builds_a_well_formed_board() {
    let f = Field::new(25, 10, false, 100);
    assert_eq!(f.size_x, 25);
    assert_eq!(f.size_y, 10);
    assert!(!f.wraps);
    assert_eq!(f.food_interval, 100);
    assert_eq!(f.ticks_since_extra_food, 0);
    assert_eq!(coords(&f.snake), vec![(0, 3), (0, 2), (0, 1), (0, 0)]);
    assert!(f.food.is_empty());
}

#[test]
fn add_food_rejects_cells_off_the_board() {
    let mut f = Field::new(5, 5, false, 100);
    assert!(f.add_food(Point(3, 3)));
    assert!(!f.add_food(Point(5, 3)));
    assert!(!f.add_food(Point(3, 5)));
    assert_eq!(f.food, vec![Point(3, 3)]);
}
