use plotter_bird::animation::{crash_commands, exit_commands};
use plotter_bird::game::{standard_settings, PipePair};
use plotter_bird::render::{
    draw_board, move_abs, move_rel, pen_down, pen_up, select_pen, start_commands,
};

#[test]
fn tokens_have_the_wire_format() {
    assert_eq!(pen_up(), b"PU;".to_vec());
    assert_eq!(pen_down(), b"PD;".to_vec());
    assert_eq!(select_pen(0), b"SP0;".to_vec());
    assert_eq!(select_pen(1), b"SP1;".to_vec());
    assert_eq!(move_abs(1900, 0), b"PA1900,0;".to_vec());
    assert_eq!(move_abs(0, 3825), b"PA0,3825;".to_vec());
    assert_eq!(move_abs(-5000, 0), b"PA-5000,0;".to_vec());
    assert_eq!(move_abs(0, 0), b"PA0,0;".to_vec());
    assert_eq!(move_rel(-270, -300), b"PR-270,-300;".to_vec());
    assert_eq!(move_rel(246, 577), b"PR246,577;".to_vec());
}

#[test]
fn start_commands_put_the_pen_into_play() {
    let cmds = start_commands();
    let want: Vec<&[u8]> = vec![b"SP2;", b"PA0,3825;", b"PD;"];
    assert_eq!(cmds.len(), want.len());
    for (got, want) in cmds.iter().zip(want.iter()) {
        assert_eq!(got.as_slice(), *want);
    }
}

#[test]
fn draw_board_renders_one_pipe_pair_exactly() {
    let s = standard_settings();
    let board = vec![PipePair { x: 1900, y1: 1000, y2: 3200 }];
    let cmds = draw_board(&board, &s);
    let want: Vec<&[u8]> = vec![
        b"SP1;", b"PU;", b"PA1500,0;", b"PD;", b"PA1500,800;", b"PA2300,800;", b"PA2300,0;",
        b"PU;", b"PA1500,800;", b"PD;", b"PA1400,800;", b"PA1400,1000;", b"PA2400,1000;",
        b"PA2400,800;", b"PA2300,800;", b"PU;", b"PA1500,7650;", b"PD;", b"PA1500,3400;",
        b"PA2300,3400;", b"PA2300,7650;", b"PU;", b"PA1500,3400;", b"PD;", b"PA1400,3400;",
        b"PA1400,3200;", b"PA2400,3200;", b"PA2400,3400;", b"PA2300,3400;", b"PU;",
    ];
    assert_eq!(cmds.len(), want.len());
    for (got, want) in cmds.iter().zip(want.iter()) {
        assert_eq!(got.as_slice(), *want);
    }
}

#[test]
fn rendering_twice_is_byte_identical() {
    let s = standard_settings();
    let board = vec![
        PipePair { x: 1900, y1: 1000, y2: 3200 },
        PipePair { x: 4300, y1: 2000, y2: 4400 },
    ];
    let first = draw_board(&board, &s);
    let second = draw_board(&board, &s);
    assert_eq!(first, second);
}

#[test]
fn crash_animation_is_framed_and_parks() {
    let cmds = crash_commands();
    assert_eq!(cmds.len(), 26);
    assert_eq!(cmds[0].as_slice(), b"PU;");
    assert_eq!(cmds[1].as_slice(), b"PR-270,-300;");
    assert_eq!(cmds[2].as_slice(), b"PD;");
    assert_eq!(cmds[23].as_slice(), b"PU;");
    assert_eq!(cmds[24].as_slice(), b"SP0;");
    assert_eq!(cmds[25].as_slice(), b"PA-5000,0;");
}

#[test]
fn exit_animation_is_framed_and_parks() {
    let cmds = exit_commands();
    assert_eq!(cmds.len(), 150);
    assert_eq!(cmds[0].as_slice(), b"PU;");
    assert_eq!(cmds[3].as_slice(), b"PD;");
    assert_eq!(cmds[147].as_slice(), b"PU;");
    assert_eq!(cmds[148].as_slice(), b"SP0;");
    assert_eq!(cmds[149].as_slice(), b"PA-5000,0;");
}

#[test]
fn animations_render_deterministically() {
    assert_eq!(crash_commands(), crash_commands());
    assert_eq!(exit_commands(), exit_commands());
}
