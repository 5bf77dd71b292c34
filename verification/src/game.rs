use vstd::prelude::*;

verus! {

/// Height of the vertical playfield in plotter units; flying at or above it,
/// or at or below the floor (0), is a crash.
pub const CEILING: i32 = 7650;

/// Horizontal distance the player advances on every tick.
pub const HORIZONTAL_STEP: i32 = 100;

/// Unconditional per-tick decrement applied to the vertical velocity.
pub const GRAVITY_DECREMENT: i32 = 30;

/// Vertical velocity set by a flap.
pub const FLAP_VELOCITY: i32 = 300;

/// Right boundary of the playfield; flying past it ends the game in
/// exit-flight.
pub const RIGHT_BOUND: i32 = 9600;

/// Horizontal starting position of the player.
pub const START_X: i32 = 0;

/// Vertical starting position of the player (mid-field).
pub const START_Y: i32 = 3825;

/// Milliseconds between two simulation ticks.
pub const TICK_MILLIS: u64 = 50;

/// A pair of pipes: a lower pipe rising from the floor to `y1` and an upper
/// pipe hanging from the ceiling down to `y2`, with the passable gap
/// `[y1, y2]` between them, both centred on the column `x`.
#[derive(Clone, Copy, PartialEq, Eq, Structural, Debug)]
pub struct PipePair {
    pub x: u32,
    pub y1: u32,
    pub y2: u32,
}

/// Fixed geometry of every pipe: width of the shaft, width of the cap that
/// tops it, and the cap's height.
#[derive(Clone, Copy, PartialEq, Eq, Structural, Debug)]
pub struct PipeSettings {
    pub body_width: u32,
    pub top_width: u32,
    pub top_height: u32,
}

/// The player's whole state; the three fields are always read and written
/// together.
#[derive(Clone, Copy, PartialEq, Eq, Structural, Debug)]
pub struct PlayerState {
    pub x: i32,
    pub y: i32,
    pub vertical_velocity: i32,
}

/// Outcome of evaluating one tick.
#[derive(Clone, Copy, PartialEq, Eq, Structural, Debug)]
pub enum Status {
    Playing,
    Crashed,
    ExitedField,
}

/// The point `(x, y)` lies inside the solid part of pipe pair `p`: within the
/// horizontal span of the shaft but outside the gap `[y1, y2]`.
pub open spec fn hits_pipe(x: int, y: int, p: PipePair, s: PipeSettings) -> bool {
    &&& x > p.x as int - s.body_width as int / 2
    &&& x < p.x as int + s.body_width as int / 2
    &&& (y < p.y1 as int || y > p.y2 as int)
}

/// The point `(x, y)` collides: it is on or outside the vertical playfield
/// bounds, or inside some pipe of the board.
pub open spec fn collides(x: int, y: int, board: Seq<PipePair>, s: PipeSettings) -> bool {
    ||| y <= 0
    ||| y >= CEILING as int
    ||| exists|i: int| 0 <= i < board.len() && hits_pipe(x, y, board[i], s)
}

/// The pipe pair `p`, under the settings `s`, stays clear of the machine
/// limits: every coordinate of its outline is nonnegative and fits in `i32`.
pub open spec fn pipe_fits(p: PipePair, s: PipeSettings) -> bool {
    &&& p.x >= s.body_width / 2
    &&& p.x >= s.top_width / 2
    &&& p.x as int + s.body_width as int / 2 <= i32::MAX as int
    &&& p.x as int + s.top_width as int / 2 <= i32::MAX as int
    &&& p.y1 >= s.top_height
    &&& p.y1 <= i32::MAX as u32
    &&& p.y2 <= i32::MAX as u32
    &&& p.y2 as int + s.top_height as int <= i32::MAX as int
}

/// Every pipe of the board stays clear of the machine limits.
pub open spec fn board_fits(board: Seq<PipePair>, s: PipeSettings) -> bool {
    forall|i: int| 0 <= i < board.len() ==> pipe_fits(#[trigger] board[i], s)
}

/// The pipe geometry the game is played with.
pub open spec fn standard_settings_spec() -> PipeSettings {
    PipeSettings { body_width: 800, top_width: 1000, top_height: 200 }
}

/// Returns the fixed pipe geometry used by the game.
pub fn standard_settings() -> (s: PipeSettings)
    ensures
        s == standard_settings_spec(),
{
    PipeSettings { body_width: 800, top_width: 1000, top_height: 200 }
}

/// Decides whether `pipe_fits` holds of one pipe.
pub fn pipe_fits_check(p: &PipePair, s: &PipeSettings) -> (r: bool)
    ensures
        r == pipe_fits(*p, *s),
{
    p.x >= s.body_width / 2 && p.x >= s.top_width / 2 && p.x as u64 + (s.body_width / 2) as u64
        <= i32::MAX as u64 && p.x as u64 + (s.top_width / 2) as u64 <= i32::MAX as u64 && p.y1
        >= s.top_height && p.y1 <= i32::MAX as u32 && p.y2 <= i32::MAX as u32 && p.y2 as u64
        + s.top_height as u64 <= i32::MAX as u64
}

/// Decides whether `board_fits` holds, so that unverified callers can test it
/// before relying on it.
pub fn board_fits_check(board: &Vec<PipePair>, s: &PipeSettings) -> (r: bool)
    ensures
        r == board_fits(board@, *s),
{
    let mut i: usize = 0;
    while i < board.len()
        invariant
            0 <= i <= board@.len(),
            forall|j: int| 0 <= j < i ==> pipe_fits(#[trigger] board@[j], *s),
        decreases board@.len() - i,
    {
        if !pipe_fits_check(&board[i], s) {
            return false;
        }
        i = i + 1;
    }
    true
}

/// Tests whether the player at `(x, y)` collides with the playfield bounds or
/// with any pipe of the board.
pub fn check_collision(x: i32, y: i32, board: &Vec<PipePair>, s: &PipeSettings) -> (r: bool)
    requires
        board_fits(board@, *s),
    ensures
        r == collides(x as int, y as int, board@, *s),
{
    if y <= 0 || y >= CEILING {
        return true;
    }
    let mut i: usize = 0;
    while i < board.len()
        invariant
            0 <= i <= board@.len(),
            board_fits(board@, *s),
            0 < y < CEILING,
            forall|j: int| 0 <= j < i ==> !hits_pipe(x as int, y as int, board@[j], *s),
        decreases board@.len() - i,
    {
        let p = board[i];
        if x > (p.x - s.body_width / 2) as i32 && x < (p.x + s.body_width / 2) as i32 && (y < p.y1
            as i32 || y > p.y2 as i32) {
            assert(hits_pipe(x as int, y as int, board@[i as int], *s));
            return true;
        }
        i = i + 1;
    }
    false
}

/// Collision is reflexive on the vertical bounds: whatever the board and the
/// horizontal position, the floor and the ceiling always collide.
pub proof fn lemma_collision_at_bounds(x: int, board: Seq<PipePair>, s: PipeSettings)
    ensures
        collides(x, 0, board, s),
        collides(x, CEILING as int, board, s),
{
}

/// The player state after one tick of physics: constant forward motion,
/// vertical motion by the current velocity, then gravity applied to the
/// velocity unconditionally.
pub open spec fn stepped(p: PlayerState) -> PlayerState {
    PlayerState {
        x: (p.x + HORIZONTAL_STEP) as i32,
        y: (p.y + p.vertical_velocity) as i32,
        vertical_velocity: (p.vertical_velocity - GRAVITY_DECREMENT) as i32,
    }
}

/// The status the board assigns to a player state: a collision crashes,
/// otherwise passing the right boundary exits the field, otherwise play goes
/// on. A crash takes precedence over an exit.
pub open spec fn status_of(p: PlayerState, board: Seq<PipePair>, s: PipeSettings) -> Status {
    if collides(p.x as int, p.y as int, board, s) {
        Status::Crashed
    } else if p.x > RIGHT_BOUND {
        Status::ExitedField
    } else {
        Status::Playing
    }
}

/// Advances the player by one tick of physics.
pub fn advance(p: &mut PlayerState)
    requires
        old(p).x + HORIZONTAL_STEP <= i32::MAX,
        i32::MIN <= old(p).y + old(p).vertical_velocity <= i32::MAX,
        old(p).vertical_velocity - GRAVITY_DECREMENT >= i32::MIN,
    ensures
        *final(p) == stepped(*old(p)),
{
    p.x = p.x + HORIZONTAL_STEP;
    p.y = p.y + p.vertical_velocity;
    p.vertical_velocity = p.vertical_velocity - GRAVITY_DECREMENT;
}

/// Sets the vertical velocity to the flap impulse, leaving the position
/// untouched.
pub fn flap(p: &mut PlayerState)
    ensures
        final(p).x == old(p).x,
        final(p).y == old(p).y,
        final(p).vertical_velocity == FLAP_VELOCITY,
{
    p.vertical_velocity = FLAP_VELOCITY;
}

/// Evaluates the terminal conditions for the current player state.
pub fn evaluate(p: &PlayerState, board: &Vec<PipePair>, s: &PipeSettings) -> (st: Status)
    requires
        board_fits(board@, *s),
    ensures
        st == status_of(*p, board@, *s),
{
    if check_collision(p.x, p.y, board, s) {
        Status::Crashed
    } else if p.x > RIGHT_BOUND {
        Status::ExitedField
    } else {
        Status::Playing
    }
}

/// One whole tick: advance the physics, then evaluate the terminal
/// conditions on the new state.
pub fn tick(p: &mut PlayerState, board: &Vec<PipePair>, s: &PipeSettings) -> (st: Status)
    requires
        board_fits(board@, *s),
        old(p).x + HORIZONTAL_STEP <= i32::MAX,
        i32::MIN <= old(p).y + old(p).vertical_velocity <= i32::MAX,
        old(p).vertical_velocity - GRAVITY_DECREMENT >= i32::MIN,
    ensures
        *final(p) == stepped(*old(p)),
        st == status_of(stepped(*old(p)), board@, *s),
{
    advance(p);
    evaluate(p, board, s)
}

} // verus!
