use snake_game::direction::Direction;
use snake_game::geometry::{Cell, Color, Point, UNIT};
use snake_game::snake::{
    Snake, GROWTH, HEAD_COLOR, SEG_ORIGIN, SEG_SIZE, SPEED, SPEED_FACTOR, STARTING_POS, TAIL_COLOR,
};

const TENTH: i64 = 100_000;

fn units(x: i64, y: i64) -> Point {
    Point { x: x * UNIT, y: y * UNIT }
}

fn body_positions(snake: &Snake) -> Vec<Point> {
    snake.tail().iter().map(|cell| cell.position).collect()
}

#[test]
fn constants_of_the_chain() {
    assert_eq!(SPEED, 400);
    assert_eq!(SPEED_FACTOR, 2);
    assert_eq!(SEG_SIZE, 40_000_000);
    assert_eq!(SEG_ORIGIN, 20_000_000);
    assert_eq!(STARTING_POS, (683_000_000, 384_000_000));
    assert_eq!(GROWTH, 8);
    assert_eq!(HEAD_COLOR, Color::Blue);
    assert_eq!(TAIL_COLOR, Color::Green);
}

#[test]
fn new_chain_starts_in_the_middle_heading_left() {
    let snake = Snake::new();
    assert_eq!(snake.position(), units(683, 384));
    assert_eq!(snake.direction(), Direction::Left);
    assert_eq!(snake.current_speed(), 400);
    assert_eq!(snake.len(), 1);
    assert_eq!(body_positions(&snake), vec![units(683, 384)]);
}

#[test]
fn new_chain_has_a_blue_head_and_a_green_cell() {
    let snake = Snake::new();
    let half = Point { x: 20 * UNIT, y: 20 * UNIT };
    assert_eq!(
        snake.head(),
        Cell { position: units(683, 384), origin: half, side: 40 * UNIT, color: Color::Blue }
    );
    assert_eq!(
        snake.tail()[0],
        Cell { position: units(683, 384), origin: half, side: 40 * UNIT, color: Color::Green }
    );
}

#[test]
fn build_seg_makes_a_centred_green_cell() {
    let seg = Snake::build_seg(Point { x: 5, y: -7 });
    assert_eq!(seg.position, Point { x: 5, y: -7 });
    assert_eq!(seg.origin, Point { x: 20_000_000, y: 20_000_000 });
    assert_eq!(seg.side, 40_000_000);
    assert_eq!(seg.color, Color::Green);
}

#[test]
fn a_tenth_of_a_second_moves_the_head_forty_units() {
    let mut snake = Snake::new();
    snake.move_(TENTH);
    assert_eq!(snake.position(), units(643, 384));
    assert_eq!(snake.position().x, 643_000_000);
    assert_eq!(snake.tail()[0].position.x, 683_000_000);
    assert_eq!(body_positions(&snake), vec![units(683, 384)]);
}

#[test]
fn the_head_goes_negative_on_the_eighteenth_step() {
    let mut snake = Snake::new();
    let mut first_negative = 0;
    for step in 1..=20 {
        snake.move_(TENTH);
        if snake.position().x < 0 && first_negative == 0 {
            first_negative = step;
        }
    }
    assert_eq!(first_negative, 18);
    assert_eq!(snake.position(), units(-117, 384));
    assert_eq!(snake.tail()[0].position, units(-77, 384));
}

#[test]
fn move_is_exact_for_odd_spans_of_time() {
    let mut snake = Snake::new();
    snake.move_(16_667);
    assert_eq!(snake.position(), Point { x: 683_000_000 - 400 * 16_667, y: 384_000_000 });
    snake.move_(1);
    assert_eq!(snake.position().x, 683_000_000 - 400 * 16_667 - 400);
}

#[test]
fn move_follows_each_heading() {
    let mut snake = Snake::new();
    snake.set_direction(Direction::Up);
    snake.move_(TENTH);
    assert_eq!(snake.position(), units(683, 344));
    snake.set_direction(Direction::Right);
    snake.move_(TENTH);
    assert_eq!(snake.position(), units(723, 344));
    snake.set_direction(Direction::Down);
    snake.move_(TENTH);
    assert_eq!(snake.position(), units(723, 384));
    snake.set_direction(Direction::Left);
    snake.move_(TENTH);
    assert_eq!(snake.position(), units(683, 384));
}

#[test]
fn zero_time_keeps_the_head_and_still_shifts_the_body() {
    let mut snake = Snake::new();
    snake.move_(TENTH);
    snake.grow();
    snake.move_(TENTH);
    let head = snake.position();
    let before = body_positions(&snake);
    snake.move_(0);
    assert_eq!(snake.position(), head);
    let after = body_positions(&snake);
    assert_eq!(after.len(), before.len());
    assert_eq!(after[0], head);
    for i in 1..after.len() {
        assert_eq!(after[i], before[i - 1]);
    }
}

#[test]
fn negative_time_counts_as_zero() {
    let mut snake = Snake::new();
    snake.move_(TENTH);
    let head = snake.position();
    assert!(snake.can_move(-5));
    snake.move_(-5);
    assert_eq!(snake.position(), head);
    assert_eq!(body_positions(&snake), vec![head]);
    assert!(snake.can_move(i64::MIN));
    snake.move_(i64::MIN);
    assert_eq!(snake.position(), head);
}

#[test]
fn every_step_leaves_no_gap() {
    let mut snake = Snake::new();
    snake.grow();
    snake.grow();
    let turns = [
        Direction::Left,
        Direction::Up,
        Direction::Up,
        Direction::Right,
        Direction::Down,
        Direction::Down,
        Direction::Left,
    ];
    for (step, turn) in turns.iter().cycle().take(40).enumerate() {
        snake.set_direction(*turn);
        let head = snake.position();
        let before = body_positions(&snake);
        snake.move_(1_000 * (step as i64 % 7));
        let after = body_positions(&snake);
        assert_eq!(after.len(), before.len());
        assert_eq!(after[0], head);
        for i in 1..after.len() {
            assert_eq!(after[i], before[i - 1]);
        }
    }
}

#[test]
fn the_body_follows_the_path_of_the_head() {
    let mut snake = Snake::new();
    snake.grow();
    let start = body_positions(&snake);
    let mut path = vec![snake.position()];
    let headings = [Direction::Left, Direction::Up, Direction::Right, Direction::Up];
    for step in 0..6 {
        snake.set_direction(headings[step % 4]);
        snake.move_(TENTH);
        path.push(snake.position());
    }
    let body = body_positions(&snake);
    assert_eq!(body.len(), 9);
    // Six steps were taken: the first six cells stand on the path of the head.
    for i in 0..6 {
        assert_eq!(body[i], path[path.len() - 2 - i]);
    }
    // The others stand where the cells six places before them stood.
    for i in 6..9 {
        assert_eq!(body[i], start[i - 6]);
    }
}

#[test]
fn turning_straight_back_is_ignored() {
    let all = [Direction::Up, Direction::Left, Direction::Right, Direction::Down];
    for current in all {
        for requested in all {
            let mut snake = Snake::new();
            // From the first heading, left, anything but right is accepted.
            if current == Direction::Right {
                snake.set_direction(Direction::Up);
            }
            snake.set_direction(current);
            assert_eq!(snake.direction(), current);
            snake.set_direction(requested);
            if requested == current.opposite() {
                assert_eq!(snake.direction(), current);
            } else {
                assert_eq!(snake.direction(), requested);
            }
        }
    }
}

#[test]
fn set_direction_changes_nothing_but_the_heading() {
    let mut snake = Snake::new();
    snake.grow();
    snake.move_(TENTH);
    let head = snake.position();
    let body = body_positions(&snake);
    snake.set_direction(Direction::Down);
    assert_eq!(snake.direction(), Direction::Down);
    assert_eq!(snake.position(), head);
    assert_eq!(body_positions(&snake), body);
    assert_eq!(snake.current_speed(), 400);
}

#[test]
fn grow_adds_eight_cells_where_the_last_one_is() {
    let mut snake = Snake::new();
    snake.move_(TENTH);
    snake.move_(TENTH);
    let before = body_positions(&snake);
    assert_eq!(before, vec![units(643, 384)]);
    snake.grow();
    let after = body_positions(&snake);
    assert_eq!(after.len(), 9);
    assert_eq!(snake.len(), 9);
    for cell in &after {
        assert_eq!(*cell, units(643, 384));
    }
    assert_eq!(snake.position(), units(603, 384));
}

#[test]
fn grow_keeps_the_cells_that_were_there() {
    let mut snake = Snake::new();
    snake.grow();
    for _ in 0..4 {
        snake.move_(TENTH);
    }
    let before = body_positions(&snake);
    let last = *before.last().unwrap();
    snake.grow();
    let after = body_positions(&snake);
    assert_eq!(after.len(), before.len() + 8);
    assert_eq!(&after[..before.len()], &before[..]);
    for cell in &after[before.len()..] {
        assert_eq!(*cell, last);
    }
    for cell in snake.tail() {
        assert_eq!(cell.color, Color::Green);
        assert_eq!(cell.side, 40 * UNIT);
        assert_eq!(cell.origin, Point { x: 20 * UNIT, y: 20 * UNIT });
    }
}

#[test]
fn new_cells_part_as_the_chain_moves_on() {
    let mut snake = Snake::new();
    snake.grow();
    for _ in 0..9 {
        snake.move_(TENTH);
    }
    let body = body_positions(&snake);
    for i in 0..9 {
        assert_eq!(body[i], units(683 - 40 * (8 - i as i64), 384));
    }
}

#[test]
fn intersect_tests_the_box_of_the_head() {
    let snake = Snake::new();
    // The head spans 663..703 by 364..404 arena units.
    let food = |x: i64, y: i64| Cell {
        position: units(x, y),
        origin: Point { x: 0, y: 0 },
        side: 20 * UNIT,
        color: Color::Red,
    };
    assert!(snake.intersect(&food(683, 384)));
    assert!(snake.intersect(&food(644, 345)));
    assert!(!snake.intersect(&food(643, 384)));
    assert!(!snake.intersect(&food(703, 384)));
    assert!(!snake.intersect(&food(683, 404)));
    assert!(!snake.intersect(&food(683, 344)));
    assert!(snake.intersect(&Snake::build_seg(units(683, 384))));
    assert!(snake.intersect(&Snake::build_seg(units(722, 423))));
    assert!(!snake.intersect(&Snake::build_seg(units(723, 384))));
}

#[test]
fn intersect_follows_the_head() {
    let mut snake = Snake::new();
    let seg = Snake::build_seg(units(683, 384));
    assert!(snake.intersect(&seg));
    snake.move_(TENTH - 1);
    assert!(snake.intersect(&seg));
    snake.move_(1);
    assert!(!snake.intersect(&seg));
}

#[test]
fn draw_lists_the_head_and_then_the_body() {
    let mut snake = Snake::new();
    snake.grow();
    for _ in 0..3 {
        snake.move_(TENTH);
    }
    let cells = snake.draw();
    assert_eq!(cells.len(), 10);
    assert_eq!(cells[0], snake.head());
    assert_eq!(cells[0].color, Color::Blue);
    assert_eq!(cells[0].position, units(563, 384));
    assert_eq!(&cells[1..], &snake.tail()[..]);
    assert_eq!(cells[1].position, units(603, 384));
}

#[test]
fn set_speed_sets_the_distance_of_a_step() {
    let mut snake = Snake::new();
    snake.set_speed(SPEED * SPEED_FACTOR);
    assert_eq!(snake.current_speed(), 800);
    snake.move_(TENTH);
    assert_eq!(snake.position(), units(603, 384));
    snake.set_speed(0);
    snake.move_(TENTH);
    assert_eq!(snake.position(), units(603, 384));
    assert_eq!(body_positions(&snake), vec![units(603, 384)]);
}

#[test]
fn can_move_tells_when_the_head_would_leave_the_coordinates() {
    let mut snake = Snake::new();
    assert!(snake.can_move(TENTH));
    assert!(snake.can_move(0));
    assert!(!snake.can_move(i64::MAX));
    // Heading left from 683000000 at 400 a microsecond-step: the lowest
    // coordinate is reached after (2^63 + 683000000) / 400 microseconds.
    let most = ((1i128 << 63) + 683_000_000) / 400;
    assert!(snake.can_move(most as i64));
    assert!(!snake.can_move(most as i64 + 1));
    snake.move_(most as i64);
    assert_eq!(snake.position().x as i128, 683_000_000 - 400 * most);
    snake.set_speed(0);
    assert!(snake.can_move(i64::MAX));
}
