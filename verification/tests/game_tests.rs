use plotter_bird::game::{
    advance, board_fits_check, check_collision, evaluate, flap, standard_settings, tick,
    PipePair, PlayerState, Status, CEILING, FLAP_VELOCITY, GRAVITY_DECREMENT, HORIZONTAL_STEP,
};

fn one_pipe_board(x: u32, y1: u32, y2: u32) -> Vec<PipePair> {
    vec![PipePair { x, y1, y2 }]
}

#[test]
fn collision_on_floor_and_ceiling() {
    let s = standard_settings();
    let empty: Vec<PipePair> = vec![];
    let board = one_pipe_board(1900, 1000, 3200);
    assert!(board_fits_check(&board, &s));
    for x in [-100, 0, 1900, 9600] {
        assert!(check_collision(x, 0, &empty, &s));
        assert!(check_collision(x, CEILING, &empty, &s));
        assert!(check_collision(x, 0, &board, &s));
        assert!(check_collision(x, CEILING, &board, &s));
        assert!(check_collision(x, -50, &board, &s));
        assert!(check_collision(x, CEILING + 50, &board, &s));
    }
}

#[test]
fn collision_in_clear_gap() {
    let s = standard_settings();
    let board = one_pipe_board(1900, 1000, 3000);
    assert!(board_fits_check(&board, &s));
    assert!(!check_collision(1900, 2000, &board, &s));
    assert!(check_collision(1900, 500, &board, &s));
}

#[test]
fn collision_at_gap_edges_is_clear() {
    let s = standard_settings();
    let board = one_pipe_board(1900, 1000, 3000);
    assert!(!check_collision(1900, 1000, &board, &s));
    assert!(!check_collision(1900, 3000, &board, &s));
    assert!(check_collision(1900, 999, &board, &s));
    assert!(check_collision(1900, 3001, &board, &s));
}

#[test]
fn collision_outside_shaft_span_is_clear() {
    let s = standard_settings();
    let board = one_pipe_board(1900, 1000, 3000);
    assert!(!check_collision(1500, 500, &board, &s));
    assert!(!check_collision(2300, 500, &board, &s));
    assert!(check_collision(1501, 500, &board, &s));
    assert!(check_collision(2299, 500, &board, &s));
}

#[test]
fn tick_evaluation_below_gap_is_a_crash() {
    let s = standard_settings();
    let board = one_pipe_board(1900, 1000, 3200);
    assert!(check_collision(1900, 500, &board, &s));
    let p = PlayerState { x: 1900, y: 500, vertical_velocity: 0 };
    assert_eq!(evaluate(&p, &board, &s), Status::Crashed);
}

#[test]
fn exit_flight_triggers_past_right_bound() {
    let s = standard_settings();
    let board = one_pipe_board(9500, 1000, 3200);
    assert!(board_fits_check(&board, &s));
    let p = PlayerState { x: 9700, y: 2000, vertical_velocity: 0 };
    assert_eq!(evaluate(&p, &board, &s), Status::ExitedField);
}

#[test]
fn crash_takes_precedence_over_exit() {
    let s = standard_settings();
    let board = one_pipe_board(9500, 1000, 3200);
    let p = PlayerState { x: 9700, y: 500, vertical_velocity: 0 };
    assert_eq!(evaluate(&p, &board, &s), Status::Crashed);
}

#[test]
fn flap_then_tick_moves_up_and_velocity_decays() {
    let mut p = PlayerState { x: 0, y: 3825, vertical_velocity: 0 };
    flap(&mut p);
    assert_eq!(p.vertical_velocity, FLAP_VELOCITY);
    assert_eq!(p.y, 3825);
    advance(&mut p);
    assert_eq!(p.y, 3825 + 300);
    assert_eq!(p.vertical_velocity, 270);
    advance(&mut p);
    assert_eq!(p.y, 3825 + 300 + 270);
    assert_eq!(p.vertical_velocity, 240);
    assert_eq!(p.x, 2 * HORIZONTAL_STEP);
}

#[test]
fn velocity_decays_past_zero() {
    let mut p = PlayerState { x: 0, y: 3825, vertical_velocity: 30 };
    advance(&mut p);
    assert_eq!(p.vertical_velocity, 0);
    advance(&mut p);
    assert_eq!(p.vertical_velocity, -GRAVITY_DECREMENT);
    advance(&mut p);
    assert_eq!(p.vertical_velocity, -2 * GRAVITY_DECREMENT);
}

#[test]
fn tick_advances_then_evaluates() {
    let s = standard_settings();
    let board = one_pipe_board(1900, 1000, 3200);
    let mut p = PlayerState { x: 0, y: 3825, vertical_velocity: 0 };
    let st = tick(&mut p, &board, &s);
    assert_eq!(st, Status::Playing);
    assert_eq!(p.x, HORIZONTAL_STEP);
    assert_eq!(p.y, 3825);
    assert_eq!(p.vertical_velocity, -GRAVITY_DECREMENT);
}

#[test]
fn tick_crashes_into_the_floor() {
    let s = standard_settings();
    let board: Vec<PipePair> = vec![];
    let mut p = PlayerState { x: 0, y: 20, vertical_velocity: -30 };
    let st = tick(&mut p, &board, &s);
    assert_eq!(st, Status::Crashed);
    assert_eq!(p.y, -10);
}
