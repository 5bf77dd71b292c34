use vstd::prelude::*;
use crate::render::{
    cmd_move_abs, cmd_move_rel, cmd_pen_down, cmd_pen_up, cmd_select_pen, move_abs, move_rel,
    pen_down, pen_up, select_pen, views,
};

verus! {

/// One step of a pre-authored animation: a pen-state change, a relative
/// movement, an absolute move, or a pen selection.
#[derive(Clone, Copy, PartialEq, Eq, Structural, Debug)]
pub enum Step {
    PenUp,
    PenDown,
    Rel(i32, i32),
    Abs(i32, i32),
    Pen(u8),
}

/// The command token one animation step renders to.
pub open spec fn step_command(st: Step) -> Seq<u8> {
    match st {
        Step::PenUp => cmd_pen_up(),
        Step::PenDown => cmd_pen_down(),
        Step::Rel(dx, dy) => cmd_move_rel(dx as int, dy as int),
        Step::Abs(x, y) => cmd_move_abs(x as int, y as int),
        Step::Pen(n) => cmd_select_pen(n as nat),
    }
}

/// The token sequence a whole step table renders to, step by step in order.
pub open spec fn steps_commands(steps: Seq<Step>) -> Seq<Seq<u8>> {
    steps.map_values(|st: Step| step_command(st))
}

/// Renders a step table into command tokens, one token per step. The output
/// is a pure function of the table, so rendering is deterministic.
pub fn render_steps(steps: &Vec<Step>) -> (out: Vec<Vec<u8>>)
    ensures
        views(out@) == steps_commands(steps@),
{
    let mut out: Vec<Vec<u8>> = Vec::new();
    let mut i: usize = 0;
    while i < steps.len()
        invariant
            0 <= i <= steps@.len(),
            views(out@) == steps_commands(steps@.take(i as int)),
        decreases steps@.len() - i,
    {
        let cmd = match steps[i] {
            Step::PenUp => pen_up(),
            Step::PenDown => pen_down(),
            Step::Rel(dx, dy) => move_rel(dx, dy),
            Step::Abs(x, y) => move_abs(x, y),
            Step::Pen(n) => select_pen(n),
        };
        assert(cmd@ == step_command(steps@[i as int]));
        let ghost prev = out@;
        out.push(cmd);
        proof {
            assert(steps@.take(i as int + 1) =~= steps@.take(i as int).push(steps@[i as int]));
            assert(steps_commands(steps@.take(i as int).push(steps@[i as int]))
                =~= steps_commands(steps@.take(i as int)).push(step_command(steps@[i as int])));
            assert(views(out@) =~= views(prev).push(cmd@));
        }
        i = i + 1;
    }
    proof {
        assert(steps@.take(steps@.len() as int) =~= steps@);
    }
    out
}

/// The crash animation: an explosion burst drawn pen-down at the crash site,
/// framed by pen-up travel, a reset to the idle pen and a move to the
/// off-canvas parking position.
#[verifier::opaque]
pub open spec fn crash_steps() -> Seq<Step> {
    seq![
        Step::PenUp,
        Step::Rel(-270i32, -300i32),
        Step::PenDown,
        Step::Rel(-40i32, 200i32),
        Step::Rel(-120i32, 80i32),
        Step::Rel(160i32, 110i32),
        Step::Rel(-40i32, 200i32),
        Step::Rel(160i32, -110i32),
        Step::Rel(20i32, 200i32),
        Step::Rel(120i32, -180i32),
        Step::Rel(140i32, 120i32),
        Step::Rel(20i32, -140i32),
        Step::Rel(170i32, 30i32),
        Step::Rel(-140i32, -100i32),
        Step::Rel(160i32, -70i32),
        Step::Rel(-160i32, -70i32),
        Step::Rel(140i32, -120i32),
        Step::Rel(-160i32, -20i32),
        Step::Rel(20i32, -150i32),
        Step::Rel(-140i32, 120i32),
        Step::Rel(-100i32, -120i32),
        Step::Rel(-90i32, 100i32),
        Step::Rel(-120i32, -80i32),
        Step::PenUp,
        Step::Pen(0u8),
        Step::Abs(-5000i32, 0i32),
    ]
}

/// Builds the crash animation's step table.
pub fn crash_animation() -> (v: Vec<Step>)
    ensures
        v@ == crash_steps(),
{
    proof {
        reveal(crash_steps);
    }
    let v: Vec<Step> = vec![
        Step::PenUp,
        Step::Rel(-270i32, -300i32),
        Step::PenDown,
        Step::Rel(-40i32, 200i32),
        Step::Rel(-120i32, 80i32),
        Step::Rel(160i32, 110i32),
        Step::Rel(-40i32, 200i32),
        Step::Rel(160i32, -110i32),
        Step::Rel(20i32, 200i32),
        Step::Rel(120i32, -180i32),
        Step::Rel(140i32, 120i32),
        Step::Rel(20i32, -140i32),
        Step::Rel(170i32, 30i32),
        Step::Rel(-140i32, -100i32),
        Step::Rel(160i32, -70i32),
        Step::Rel(-160i32, -70i32),
        Step::Rel(140i32, -120i32),
        Step::Rel(-160i32, -20i32),
        Step::Rel(20i32, -150i32),
        Step::Rel(-140i32, 120i32),
        Step::Rel(-100i32, -120i32),
        Step::Rel(-90i32, 100i32),
        Step::Rel(-120i32, -80i32),
        Step::PenUp,
        Step::Pen(0u8),
        Step::Abs(-5000i32, 0i32),
    ];
    assert(v@ =~= crash_steps());
    v
}

/// The exit-flight animation: a bird silhouette in flight drawn pen-down in
/// four outlines, ending with a reset to the idle pen and a move to the
/// off-canvas parking position.
#[verifier::opaque]
pub open spec fn exit_steps() -> Seq<Step> {
    seq![
        Step::PenUp,
        Step::Rel(-500i32, -200i32),
        Step::Rel(246i32, 577i32),
        Step::PenDown,
        Step::Rel(-4i32, -19i32),
        Step::Rel(-22i32, -43i32),
        Step::Rel(4i32, -1i32),
        Step::Rel(2i32, -58i32),
        Step::Rel(2i32, 0i32),
        Step::Rel(16i32, -53i32),
        Step::Rel(4i32, 2i32),
        Step::Rel(22i32, -28i32),
        Step::Rel(-14i32, 1i32),
        Step::Rel(-54i32, -41i32),
        Step::Rel(4i32, -2i32),
        Step::Rel(-26i32, -49i32),
        Step::Rel(5i32, -1i32),
        Step::Rel(-1i32, -31i32),
        Step::Rel(3i32, 0i32),
        Step::Rel(12i32, -34i32),
        Step::Rel(4i32, 1i32),
        Step::Rel(29i32, -33i32),
        Step::Rel(2i32, 3i32),
        Step::Rel(45i32, -24i32),
        Step::Rel(1i32, 3i32),
        Step::Rel(58i32, -13i32),
        Step::Rel(0i32, 2i32),
        Step::Rel(68i32, 0i32),
        Step::Rel(-1i32, 3i32),
        Step::Rel(73i32, 16i32),
        Step::Rel(-1i32, 2i32),
        Step::Rel(74i32, 35i32),
        Step::Rel(-1i32, 1i32),
        Step::Rel(72i32, 55i32),
        Step::Rel(-2i32, 2i32),
        Step::Rel(66i32, 77i32),
        Step::Rel(-13i32, 0i32),
        Step::Rel(-113i32, 129i32),
        Step::Rel(-2i32, -2i32),
        Step::Rel(-111i32, 89i32),
        Step::Rel(-1i32, -2i32),
        Step::Rel(-61i32, 29i32),
        Step::Rel(-1i32, -2i32),
        Step::Rel(-60i32, 11i32),
        Step::Rel(0i32, -4i32),
        Step::Rel(-45i32, -8i32),
        Step::Rel(1i32, -3i32),
        Step::Rel(-43i32, -25i32),
        Step::Rel(5i32, -4i32),
        Step::Rel(-18i32, -35i32),
        Step::PenUp,
        Step::Rel(555i32, -82i32),
        Step::PenDown,
        Step::Rel(11i32, 1i32),
        Step::Rel(18i32, -21i32),
        Step::Rel(4i32, 7i32),
        Step::Rel(29i32, -2i32),
        Step::Rel(-3i32, 7i32),
        Step::Rel(22i32, 19i32),
        Step::Rel(-7i32, 3i32),
        Step::Rel(2i32, 29i32),
        Step::Rel(-8i32, -3i32),
        Step::Rel(-18i32, 22i32),
        Step::Rel(-4i32, -7i32),
        Step::Rel(-29i32, 2i32),
        Step::Rel(3i32, -7i32),
        Step::Rel(-22i32, -19i32),
        Step::Rel(7i32, -4i32),
        Step::Rel(-2i32, -28i32),
        Step::Rel(8i32, 2i32),
        Step::Rel(18i32, -21i32),
        Step::Rel(4i32, 7i32),
        Step::Rel(11i32, -1i32),
        Step::PenUp,
        Step::Rel(137i32, 80i32),
        Step::PenDown,
        Step::Rel(-15i32, -7i32),
        Step::Rel(-11i32, -17i32),
        Step::Rel(7i32, -1i32),
        Step::Rel(7i32, -35i32),
        Step::Rel(3i32, 1i32),
        Step::Rel(17i32, -31i32),
        Step::Rel(5i32, 5i32),
        Step::Rel(21i32, -7i32),
        Step::Rel(-2i32, 10i32),
        Step::Rel(43i32, 42i32),
        Step::Rel(-1i32, 1i32),
        Step::Rel(22i32, 30i32),
        Step::Rel(-16i32, -6i32),
        Step::Rel(-98i32, 18i32),
        Step::Rel(0i32, -2i32),
        Step::Rel(-2i32, 0i32),
        Step::Rel(5i32, -8i32),
        Step::Rel(-11i32, -17i32),
        Step::Rel(7i32, -1i32),
        Step::Rel(4i32, -20i32),
        Step::PenUp,
        Step::Rel(-277i32, 21i32),
        Step::PenDown,
        Step::Rel(-10i32, 4i32),
        Step::Rel(-208i32, -154i32),
        Step::Rel(-1i32, 0i32),
        Step::Rel(-176i32, -121i32),
        Step::Rel(-2i32, 7i32),
        Step::Rel(-271i32, 42i32),
        Step::Rel(10i32, -11i32),
        Step::Rel(2i32, -110i32),
        Step::Rel(10i32, 10i32),
        Step::Rel(269i32, -3i32),
        Step::Rel(-3i32, -7i32),
        Step::Rel(71i32, -58i32),
        Step::Rel(1i32, 2i32),
        Step::Rel(97i32, -53i32),
        Step::Rel(1i32, 3i32),
        Step::Rel(117i32, -27i32),
        Step::Rel(0i32, 3i32),
        Step::Rel(65i32, 3i32),
        Step::Rel(0i32, 2i32),
        Step::Rel(68i32, 18i32),
        Step::Rel(-1i32, 2i32),
        Step::Rel(89i32, 42i32),
        Step::Rel(-1i32, 1i32),
        Step::Rel(68i32, 51i32),
        Step::Rel(-1i32, 1i32),
        Step::Rel(52i32, 55i32),
        Step::Rel(-2i32, 1i32),
        Step::Rel(37i32, 55i32),
        Step::Rel(-2i32, 1i32),
        Step::Rel(38i32, 91i32),
        Step::Rel(-1i32, 1i32),
        Step::Rel(8i32, 38i32),
        Step::Rel(-2i32, 0i32),
        Step::Rel(-3i32, 128i32),
        Step::Rel(-9i32, -5i32),
        Step::Rel(-47i32, 26i32),
        Step::Rel(-1i32, -1i32),
        Step::Rel(-53i32, 18i32),
        Step::Rel(-1i32, -2i32),
        Step::Rel(-67i32, 8i32),
        Step::Rel(1i32, -3i32),
        Step::Rel(-75i32, -11i32),
        Step::Rel(1i32, -3i32),
        Step::Rel(-79i32, -38i32),
        Step::Rel(1i32, -2i32),
        Step::Rel(-32i32, -24i32),
        Step::Pen(0u8),
        Step::Rel(-626i32, -463i32),
        Step::PenUp,
        Step::Pen(0u8),
        Step::Abs(-5000i32, 0i32),
    ]
}

/// Builds the exit-flight animation's step table.
#[verifier::rlimit(100)]
pub fn exit_animation() -> (v: Vec<Step>)
    ensures
        v@ == exit_steps(),
{
    proof {
        reveal(exit_steps);
    }
    let v: Vec<Step> = vec![
        Step::PenUp,
        Step::Rel(-500i32, -200i32),
        Step::Rel(246i32, 577i32),
        Step::PenDown,
        Step::Rel(-4i32, -19i32),
        Step::Rel(-22i32, -43i32),
        Step::Rel(4i32, -1i32),
        Step::Rel(2i32, -58i32),
        Step::Rel(2i32, 0i32),
        Step::Rel(16i32, -53i32),
        Step::Rel(4i32, 2i32),
        Step::Rel(22i32, -28i32),
        Step::Rel(-14i32, 1i32),
        Step::Rel(-54i32, -41i32),
        Step::Rel(4i32, -2i32),
        Step::Rel(-26i32, -49i32),
        Step::Rel(5i32, -1i32),
        Step::Rel(-1i32, -31i32),
        Step::Rel(3i32, 0i32),
        Step::Rel(12i32, -34i32),
        Step::Rel(4i32, 1i32),
        Step::Rel(29i32, -33i32),
        Step::Rel(2i32, 3i32),
        Step::Rel(45i32, -24i32),
        Step::Rel(1i32, 3i32),
        Step::Rel(58i32, -13i32),
        Step::Rel(0i32, 2i32),
        Step::Rel(68i32, 0i32),
        Step::Rel(-1i32, 3i32),
        Step::Rel(73i32, 16i32),
        Step::Rel(-1i32, 2i32),
        Step::Rel(74i32, 35i32),
        Step::Rel(-1i32, 1i32),
        Step::Rel(72i32, 55i32),
        Step::Rel(-2i32, 2i32),
        Step::Rel(66i32, 77i32),
        Step::Rel(-13i32, 0i32),
        Step::Rel(-113i32, 129i32),
        Step::Rel(-2i32, -2i32),
        Step::Rel(-111i32, 89i32),
        Step::Rel(-1i32, -2i32),
        Step::Rel(-61i32, 29i32),
        Step::Rel(-1i32, -2i32),
        Step::Rel(-60i32, 11i32),
        Step::Rel(0i32, -4i32),
        Step::Rel(-45i32, -8i32),
        Step::Rel(1i32, -3i32),
        Step::Rel(-43i32, -25i32),
        Step::Rel(5i32, -4i32),
        Step::Rel(-18i32, -35i32),
        Step::PenUp,
        Step::Rel(555i32, -82i32),
        Step::PenDown,
        Step::Rel(11i32, 1i32),
        Step::Rel(18i32, -21i32),
        Step::Rel(4i32, 7i32),
        Step::Rel(29i32, -2i32),
        Step::Rel(-3i32, 7i32),
        Step::Rel(22i32, 19i32),
        Step::Rel(-7i32, 3i32),
        Step::Rel(2i32, 29i32),
        Step::Rel(-8i32, -3i32),
        Step::Rel(-18i32, 22i32),
        Step::Rel(-4i32, -7i32),
        Step::Rel(-29i32, 2i32),
        Step::Rel(3i32, -7i32),
        Step::Rel(-22i32, -19i32),
        Step::Rel(7i32, -4i32),
        Step::Rel(-2i32, -28i32),
        Step::Rel(8i32, 2i32),
        Step::Rel(18i32, -21i32),
        Step::Rel(4i32, 7i32),
        Step::Rel(11i32, -1i32),
        Step::PenUp,
        Step::Rel(137i32, 80i32),
        Step::PenDown,
        Step::Rel(-15i32, -7i32),
        Step::Rel(-11i32, -17i32),
        Step::Rel(7i32, -1i32),
        Step::Rel(7i32, -35i32),
        Step::Rel(3i32, 1i32),
        Step::Rel(17i32, -31i32),
        Step::Rel(5i32, 5i32),
        Step::Rel(21i32, -7i32),
        Step::Rel(-2i32, 10i32),
        Step::Rel(43i32, 42i32),
        Step::Rel(-1i32, 1i32),
        Step::Rel(22i32, 30i32),
        Step::Rel(-16i32, -6i32),
        Step::Rel(-98i32, 18i32),
        Step::Rel(0i32, -2i32),
        Step::Rel(-2i32, 0i32),
        Step::Rel(5i32, -8i32),
        Step::Rel(-11i32, -17i32),
        Step::Rel(7i32, -1i32),
        Step::Rel(4i32, -20i32),
        Step::PenUp,
        Step::Rel(-277i32, 21i32),
        Step::PenDown,
        Step::Rel(-10i32, 4i32),
        Step::Rel(-208i32, -154i32),
        Step::Rel(-1i32, 0i32),
        Step::Rel(-176i32, -121i32),
        Step::Rel(-2i32, 7i32),
        Step::Rel(-271i32, 42i32),
        Step::Rel(10i32, -11i32),
        Step::Rel(2i32, -110i32),
        Step::Rel(10i32, 10i32),
        Step::Rel(269i32, -3i32),
        Step::Rel(-3i32, -7i32),
        Step::Rel(71i32, -58i32),
        Step::Rel(1i32, 2i32),
        Step::Rel(97i32, -53i32),
        Step::Rel(1i32, 3i32),
        Step::Rel(117i32, -27i32),
        Step::Rel(0i32, 3i32),
        Step::Rel(65i32, 3i32),
        Step::Rel(0i32, 2i32),
        Step::Rel(68i32, 18i32),
        Step::Rel(-1i32, 2i32),
        Step::Rel(89i32, 42i32),
        Step::Rel(-1i32, 1i32),
        Step::Rel(68i32, 51i32),
        Step::Rel(-1i32, 1i32),
        Step::Rel(52i32, 55i32),
        Step::Rel(-2i32, 1i32),
        Step::Rel(37i32, 55i32),
        Step::Rel(-2i32, 1i32),
        Step::Rel(38i32, 91i32),
        Step::Rel(-1i32, 1i32),
        Step::Rel(8i32, 38i32),
        Step::Rel(-2i32, 0i32),
        Step::Rel(-3i32, 128i32),
        Step::Rel(-9i32, -5i32),
        Step::Rel(-47i32, 26i32),
        Step::Rel(-1i32, -1i32),
        Step::Rel(-53i32, 18i32),
        Step::Rel(-1i32, -2i32),
        Step::Rel(-67i32, 8i32),
        Step::Rel(1i32, -3i32),
        Step::Rel(-75i32, -11i32),
        Step::Rel(1i32, -3i32),
        Step::Rel(-79i32, -38i32),
        Step::Rel(1i32, -2i32),
        Step::Rel(-32i32, -24i32),
        Step::Pen(0u8),
        Step::Rel(-626i32, -463i32),
        Step::PenUp,
        Step::Pen(0u8),
        Step::Abs(-5000i32, 0i32),
    ];
    assert(v@ =~= exit_steps());
    v
}

/// Renders the crash animation into its command tokens.
pub fn crash_commands() -> (out: Vec<Vec<u8>>)
    ensures
        views(out@) == steps_commands(crash_steps()),
{
    let steps = crash_animation();
    render_steps(&steps)
}

/// Renders the exit-flight animation into its command tokens.
pub fn exit_commands() -> (out: Vec<Vec<u8>>)
    ensures
        views(out@) == steps_commands(exit_steps()),
{
    let steps = exit_animation();
    render_steps(&steps)
}

} // verus!
