use rslogo::error::LogoError;
use rslogo::logo_runner::{LogoRunner, Segment};

#[test]
fn a_new_turtle_is_centred_with_the_pen_up() {
    let runner = LogoRunner::new(300, 200);
    assert_eq!((runner.get_pos_x(), runner.get_pos_y()), (150, 100));
    assert_eq!(runner.get_direction(), 0);
    assert_eq!(runner.get_color_index(), 7);
    assert!(!runner.is_pen_down());
    assert!(runner.get_lines().is_empty());
    assert_eq!((runner.get_width(), runner.get_height()), (300, 200));
}

#[test]
fn forward_then_backward_returns() {
    for heading in [0, 1, 37, 45, 89, 90, 91, 135, 180, 222, 270, 359] {
        for distance in [0, 1, 7, 10, 1000, -13] {
            let mut runner = LogoRunner::new(400, 400);
            runner.turn_degree(heading);
            assert_eq!(runner.draw_forward(distance), Ok(()));
            assert_eq!(runner.draw_backward(distance), Ok(()));
            assert_eq!((runner.get_pos_x(), runner.get_pos_y()), (200, 200));
            assert_eq!(runner.get_direction(), heading);
            runner.pen_down();
            assert_eq!(runner.draw_forward(distance), Ok(()));
            assert_eq!(runner.draw_backward(distance), Ok(()));
            assert_eq!((runner.get_pos_x(), runner.get_pos_y()), (200, 200));
            assert_eq!(runner.get_direction(), heading);
        }
    }
}

#[test]
fn moves_follow_the_heading() {
    let mut runner = LogoRunner::new(200, 200);
    assert_eq!(runner.draw_forward(10), Ok(()));
    assert_eq!((runner.get_pos_x(), runner.get_pos_y()), (100, 90));
    assert_eq!(runner.draw_left(10), Ok(()));
    assert_eq!((runner.get_pos_x(), runner.get_pos_y()), (90, 90));
    assert_eq!(runner.draw_backward(10), Ok(()));
    assert_eq!((runner.get_pos_x(), runner.get_pos_y()), (90, 100));
    assert_eq!(runner.draw_right(10), Ok(()));
    assert_eq!((runner.get_pos_x(), runner.get_pos_y()), (100, 100));
    runner.turn_degree(30);
    assert_eq!(runner.draw_forward(100), Ok(()));
    assert_eq!((runner.get_pos_x(), runner.get_pos_y()), (50, 13));
    runner.set_pos(0, 0);
    runner.turn_degree(15);
    assert_eq!(runner.draw_forward(3), Ok(()));
    assert_eq!((runner.get_pos_x(), runner.get_pos_y()), (-2, -2));
}

#[test]
fn halves_round_away_from_zero() {
    let mut runner = LogoRunner::new(0, 0);
    runner.turn_degree(30);
    assert_eq!(runner.draw_forward(1), Ok(()));
    assert_eq!((runner.get_pos_x(), runner.get_pos_y()), (-1, -1));
    runner.set_pos(0, 0);
    assert_eq!(runner.draw_backward(1), Ok(()));
    assert_eq!((runner.get_pos_x(), runner.get_pos_y()), (1, 1));
}

#[test]
fn the_pen_decides_whether_a_move_draws() {
    let mut runner = LogoRunner::new(200, 200);
    assert_eq!(runner.draw_forward(10), Ok(()));
    assert!(runner.get_lines().is_empty());
    runner.pen_down();
    assert_eq!(runner.set_color(2), Ok(()));
    assert_eq!(runner.draw_left(5), Ok(()));
    runner.pen_up();
    assert_eq!(runner.draw_left(5), Ok(()));
    assert_eq!(runner.get_lines(), &vec![Segment { x1: 100, y1: 90, x2: 95, y2: 90, color: 2 }]);
}

#[test]
fn set_pos_never_draws() {
    let mut runner = LogoRunner::new(200, 200);
    runner.pen_down();
    runner.set_pos(-5, 17);
    assert_eq!((runner.get_pos_x(), runner.get_pos_y()), (-5, 17));
    assert!(runner.get_lines().is_empty());
}

#[test]
fn the_heading_stays_below_a_full_turn() {
    let mut runner = LogoRunner::new(200, 200);
    runner.turn_degree(-90);
    assert_eq!(runner.get_direction(), 270);
    runner.turn_degree(450);
    assert_eq!(runner.get_direction(), 0);
    runner.turn_degree(i32::MIN);
    assert_eq!(runner.get_direction(), 232);
    runner.turn_degree(i32::MAX);
    assert_eq!(runner.get_direction(), 359);
}

#[test]
fn colors_are_the_sixteen_of_the_palette() {
    let mut runner = LogoRunner::new(200, 200);
    for index in 0..16 {
        assert_eq!(runner.set_color(index), Ok(()));
        assert_eq!(runner.get_color_index(), index);
    }
    for index in [-1, 16, 17, i32::MIN, i32::MAX] {
        assert_eq!(runner.set_color(index), Err(LogoError::InvalidColor));
        assert_eq!(runner.get_color_index(), 15);
    }
}

#[test]
fn a_move_out_of_range_fails_and_changes_nothing() {
    let mut runner = LogoRunner::new(200, 200);
    runner.pen_down();
    runner.set_pos(i32::MAX, 0);
    runner.turn_degree(270);
    assert_eq!(runner.draw_forward(1), Err(LogoError::Overflow));
    assert_eq!((runner.get_pos_x(), runner.get_pos_y()), (i32::MAX, 0));
    assert!(runner.get_lines().is_empty());
    assert_eq!(runner.draw_backward(1), Ok(()));
    assert_eq!(runner.get_pos_x(), i32::MAX - 1);
}
