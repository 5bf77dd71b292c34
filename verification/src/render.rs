use vstd::prelude::*;
use crate::game::{board_fits, pipe_fits, PipePair, PipeSettings, CEILING, START_X, START_Y};

verus! {

/// ASCII bytes of the plotter command vocabulary.
pub const LETTER_P: u8 = 80;

pub const LETTER_U: u8 = 85;

pub const LETTER_D: u8 = 68;

pub const LETTER_A: u8 = 65;

pub const LETTER_R: u8 = 82;

pub const LETTER_S: u8 = 83;

pub const SEMICOLON: u8 = 59;

pub const COMMA: u8 = 44;

pub const MINUS_SIGN: u8 = 45;

/// The views of a sequence of byte vectors: each command token as the byte
/// sequence it holds.
pub open spec fn views(s: Seq<Vec<u8>>) -> Seq<Seq<u8>> {
    s.map_values(|v: Vec<u8>| v@)
}

/// The ASCII decimal digits of `n`, most significant first, no sign and no
/// leading zeros (a single `0` for zero).
pub open spec fn dec_digits(n: nat) -> Seq<u8>
    decreases n,
{
    if n < 10 {
        seq![(48 + n) as u8]
    } else {
        dec_digits(n / 10) + seq![(48 + n % 10) as u8]
    }
}

/// The ASCII decimal form of `x`: a leading `-` for a negative value,
/// then the digits of its magnitude.
pub open spec fn dec_int(x: int) -> Seq<u8> {
    if x < 0 {
        seq![MINUS_SIGN] + dec_digits((-x) as nat)
    } else {
        dec_digits(x as nat)
    }
}

/// Appends the decimal digits of `n` to `out`.
pub fn push_decimal(out: &mut Vec<u8>, n: u32)
    ensures
        final(out)@ == old(out)@ + dec_digits(n as nat),
    decreases n,
{
    if n < 10 {
        out.push((48 + n) as u8);
        assert(out@ =~= old(out)@ + dec_digits(n as nat));
    } else {
        push_decimal(out, n / 10);
        out.push((48 + n % 10) as u8);
        assert(out@ =~= old(out)@ + dec_digits(n as nat));
    }
}

/// Appends the signed decimal form of `x` to `out`.
pub fn push_signed(out: &mut Vec<u8>, x: i32)
    ensures
        final(out)@ == old(out)@ + dec_int(x as int),
{
    if x < 0 {
        out.push(MINUS_SIGN);
        let m: u32 = (-(x as i64)) as u32;
        assert(m as nat == (-(x as int)) as nat);
        push_decimal(out, m);
        assert(out@ =~= old(out)@ + dec_int(x as int));
    } else {
        push_decimal(out, x as u32);
    }
}

/// The pen-up token: travel without drawing.
pub open spec fn cmd_pen_up() -> Seq<u8> {
    seq![LETTER_P, LETTER_U, SEMICOLON]
}

/// The pen-down token: draw while moving.
pub open spec fn cmd_pen_down() -> Seq<u8> {
    seq![LETTER_P, LETTER_D, SEMICOLON]
}

/// The absolute-move token `PA{x},{y};`.
pub open spec fn cmd_move_abs(x: int, y: int) -> Seq<u8> {
    seq![LETTER_P, LETTER_A] + dec_int(x) + seq![COMMA] + dec_int(y) + seq![SEMICOLON]
}

/// The relative-move token `PR{dx},{dy};`.
pub open spec fn cmd_move_rel(dx: int, dy: int) -> Seq<u8> {
    seq![LETTER_P, LETTER_R] + dec_int(dx) + seq![COMMA] + dec_int(dy) + seq![SEMICOLON]
}

/// The select-pen token `SP{n};` (pen 0 is the idle pen).
pub open spec fn cmd_select_pen(n: nat) -> Seq<u8> {
    seq![LETTER_S, LETTER_P] + dec_digits(n) + seq![SEMICOLON]
}

/// Builds the pen-up token.
pub fn pen_up() -> (v: Vec<u8>)
    ensures
        v@ == cmd_pen_up(),
{
    let mut v: Vec<u8> = Vec::new();
    v.push(LETTER_P);
    v.push(LETTER_U);
    v.push(SEMICOLON);
    assert(v@ =~= cmd_pen_up());
    v
}

/// Builds the pen-down token.
pub fn pen_down() -> (v: Vec<u8>)
    ensures
        v@ == cmd_pen_down(),
{
    let mut v: Vec<u8> = Vec::new();
    v.push(LETTER_P);
    v.push(LETTER_D);
    v.push(SEMICOLON);
    assert(v@ =~= cmd_pen_down());
    v
}

/// Builds the absolute-move token for `(x, y)`.
pub fn move_abs(x: i32, y: i32) -> (v: Vec<u8>)
    ensures
        v@ == cmd_move_abs(x as int, y as int),
{
    let mut v: Vec<u8> = Vec::new();
    v.push(LETTER_P);
    v.push(LETTER_A);
    push_signed(&mut v, x);
    v.push(COMMA);
    push_signed(&mut v, y);
    v.push(SEMICOLON);
    assert(v@ =~= cmd_move_abs(x as int, y as int));
    v
}

/// Builds the relative-move token for `(dx, dy)`.
pub fn move_rel(dx: i32, dy: i32) -> (v: Vec<u8>)
    ensures
        v@ == cmd_move_rel(dx as int, dy as int),
{
    let mut v: Vec<u8> = Vec::new();
    v.push(LETTER_P);
    v.push(LETTER_R);
    push_signed(&mut v, dx);
    v.push(COMMA);
    push_signed(&mut v, dy);
    v.push(SEMICOLON);
    assert(v@ =~= cmd_move_rel(dx as int, dy as int));
    v
}

/// Builds the select-pen token for pen `n`.
pub fn select_pen(n: u8) -> (v: Vec<u8>)
    ensures
        v@ == cmd_select_pen(n as nat),
{
    let mut v: Vec<u8> = Vec::new();
    v.push(LETTER_S);
    v.push(LETTER_P);
    push_decimal(&mut v, n as u32);
    v.push(SEMICOLON);
    assert(v@ =~= cmd_select_pen(n as nat));
    v
}

/// The tokens that draw one pipe pair: the lower shaft from the floor up to
/// the cap base, its wider cap, then mirrored the upper shaft from the
/// ceiling down and its cap, each outline framed by pen-up travel.
#[verifier::opaque]
pub open spec fn pipe_commands(p: PipePair, s: PipeSettings) -> Seq<Seq<u8>> {
    let xl = p.x as int - s.body_width as int / 2;
    let xr = p.x as int + s.body_width as int / 2;
    let cl = p.x as int - s.top_width as int / 2;
    let cr = p.x as int + s.top_width as int / 2;
    let y1c = p.y1 as int - s.top_height as int;
    let y2c = p.y2 as int + s.top_height as int;
    seq![
        cmd_pen_up(),
        cmd_move_abs(xl, 0),
        cmd_pen_down(),
        cmd_move_abs(xl, y1c),
        cmd_move_abs(xr, y1c),
        cmd_move_abs(xr, 0),
        cmd_pen_up(),
        cmd_move_abs(xl, y1c),
        cmd_pen_down(),
        cmd_move_abs(cl, y1c),
        cmd_move_abs(cl, p.y1 as int),
        cmd_move_abs(cr, p.y1 as int),
        cmd_move_abs(cr, y1c),
        cmd_move_abs(xr, y1c),
        cmd_pen_up(),
        cmd_move_abs(xl, CEILING as int),
        cmd_pen_down(),
        cmd_move_abs(xl, y2c),
        cmd_move_abs(xr, y2c),
        cmd_move_abs(xr, CEILING as int),
        cmd_pen_up(),
        cmd_move_abs(xl, y2c),
        cmd_pen_down(),
        cmd_move_abs(cl, y2c),
        cmd_move_abs(cl, p.y2 as int),
        cmd_move_abs(cr, p.y2 as int),
        cmd_move_abs(cr, y2c),
        cmd_move_abs(xr, y2c),
        cmd_pen_up(),
    ]
}

/// The tokens that draw a whole board, pipe by pipe in order.
pub open spec fn pipes_commands(board: Seq<PipePair>, s: PipeSettings) -> Seq<Seq<u8>>
    decreases board.len(),
{
    if board.len() == 0 {
        Seq::empty()
    } else {
        pipe_commands(board[0], s) + pipes_commands(board.drop_first(), s)
    }
}

/// The full board-drawing sequence: select the drawing pen, then every pipe.
pub open spec fn board_commands(board: Seq<PipePair>, s: PipeSettings) -> Seq<Seq<u8>> {
    seq![cmd_select_pen(1)] + pipes_commands(board, s)
}

/// Drawing one more pipe appends that pipe's tokens after the others'.
pub proof fn lemma_pipes_commands_push(board: Seq<PipePair>, p: PipePair, s: PipeSettings)
    ensures
        pipes_commands(board.push(p), s) == pipes_commands(board, s) + pipe_commands(p, s),
    decreases board.len(),
{
    if board.len() == 0 {
        let single = board.push(p);
        assert(single.drop_first() =~= Seq::<PipePair>::empty());
        assert(single[0] == p);
        assert(pipes_commands(single.drop_first(), s) == Seq::<Seq<u8>>::empty());
        assert(pipes_commands(single, s) == pipe_commands(p, s) + Seq::<Seq<u8>>::empty());
        assert(pipe_commands(p, s) + Seq::<Seq<u8>>::empty() =~= pipe_commands(p, s));
        assert(pipes_commands(board, s) == Seq::<Seq<u8>>::empty());
        assert(Seq::<Seq<u8>>::empty() + pipe_commands(p, s) =~= pipe_commands(p, s));
    } else {
        assert(board.push(p).drop_first() =~= board.drop_first().push(p));
        lemma_pipes_commands_push(board.drop_first(), p, s);
        assert(pipes_commands(board.push(p), s) =~= pipes_commands(board, s) + pipe_commands(
            p,
            s,
        ));
    }
}

/// Builds the tokens that draw one pipe pair.
pub fn pipe_tokens(p: &PipePair, s: &PipeSettings) -> (out: Vec<Vec<u8>>)
    requires
        pipe_fits(*p, *s),
    ensures
        views(out@) == pipe_commands(*p, *s),
{
    let xl = (p.x - s.body_width / 2) as i32;
    let xr = (p.x + s.body_width / 2) as i32;
    let cl = (p.x - s.top_width / 2) as i32;
    let cr = (p.x + s.top_width / 2) as i32;
    let y1 = p.y1 as i32;
    let y2 = p.y2 as i32;
    let y1c = (p.y1 - s.top_height) as i32;
    let y2c = (p.y2 + s.top_height) as i32;
    proof {
        reveal(pipe_commands);
    }
    let mut out: Vec<Vec<u8>> = Vec::new();
    out.push(pen_up());
    out.push(move_abs(xl, 0));
    out.push(pen_down());
    out.push(move_abs(xl, y1c));
    out.push(move_abs(xr, y1c));
    out.push(move_abs(xr, 0));
    out.push(pen_up());
    out.push(move_abs(xl, y1c));
    out.push(pen_down());
    out.push(move_abs(cl, y1c));
    out.push(move_abs(cl, y1));
    out.push(move_abs(cr, y1));
    out.push(move_abs(cr, y1c));
    out.push(move_abs(xr, y1c));
    out.push(pen_up());
    out.push(move_abs(xl, CEILING));
    out.push(pen_down());
    out.push(move_abs(xl, y2c));
    out.push(move_abs(xr, y2c));
    out.push(move_abs(xr, CEILING));
    out.push(pen_up());
    out.push(move_abs(xl, y2c));
    out.push(pen_down());
    out.push(move_abs(cl, y2c));
    out.push(move_abs(cl, y2));
    out.push(move_abs(cr, y2));
    out.push(move_abs(cr, y2c));
    out.push(move_abs(xr, y2c));
    out.push(pen_up());
    assert(views(out@) =~= pipe_commands(*p, *s));
    out
}

/// Renders a whole board into its drawing tokens. The output is a pure
/// function of the board and the settings, so rendering the same board twice
/// yields byte-identical sequences.
pub fn draw_board(board: &Vec<PipePair>, s: &PipeSettings) -> (out: Vec<Vec<u8>>)
    requires
        board_fits(board@, *s),
    ensures
        views(out@) == board_commands(board@, *s),
{
    let mut out: Vec<Vec<u8>> = Vec::new();
    out.push(select_pen(1));
    assert(views(out@) =~= seq![cmd_select_pen(1)] + pipes_commands(board@.take(0), *s));
    let mut i: usize = 0;
    while i < board.len()
        invariant
            0 <= i <= board@.len(),
            board_fits(board@, *s),
            views(out@) == seq![cmd_select_pen(1)] + pipes_commands(board@.take(i as int), *s),
        decreases board@.len() - i,
    {
        let p = board[i];
        let mut toks = pipe_tokens(&p, s);
        let ghost prev = views(out@);
        let ghost toks_view = views(toks@);
        out.append(&mut toks);
        proof {
            assert(views(out@) =~= prev + toks_view);
            lemma_pipes_commands_push(board@.take(i as int), board@[i as int], *s);
            assert(board@.take(i as int + 1) =~= board@.take(i as int).push(board@[i as int]));
            assert(views(out@) =~= seq![cmd_select_pen(1)] + pipes_commands(
                board@.take(i as int + 1),
                *s,
            ));
        }
        i = i + 1;
    }
    proof {
        assert(board@.take(board@.len() as int) =~= board@);
    }
    out
}

/// The tokens that put the plotter into play position: select the player's
/// pen, move to the starting position, and lower the pen.
pub open spec fn start_commands_spec() -> Seq<Seq<u8>> {
    seq![
        cmd_select_pen(2),
        cmd_move_abs(START_X as int, START_Y as int),
        cmd_pen_down(),
    ]
}

/// Builds the tokens that put the plotter into play position.
pub fn start_commands() -> (out: Vec<Vec<u8>>)
    ensures
        views(out@) == start_commands_spec(),
{
    let mut out: Vec<Vec<u8>> = Vec::new();
    out.push(select_pen(2));
    out.push(move_abs(START_X, START_Y));
    out.push(pen_down());
    assert(views(out@) =~= start_commands_spec());
    out
}

/// Rendering is deterministic: two renderings of the same board under the
/// same settings are byte-identical.
pub proof fn lemma_draw_board_deterministic(
    a: Seq<Seq<u8>>,
    b: Seq<Seq<u8>>,
    board: Seq<PipePair>,
    s: PipeSettings,
)
    requires
        a == board_commands(board, s),
        b == board_commands(board, s),
    ensures
        a == b,
{
}

} // verus!
