use vstd::prelude::*;
use crate::game::{board_fits, pipe_fits, standard_settings_spec, PipePair};

verus! {

/// Number of pipe pairs on a board.
pub const BOARD_SIZE: u32 = 4;

/// Horizontal distance between two consecutive pipe columns.
pub const HORIZONTAL_SPACING: u32 = 2400;

/// The first column stands this far left of the first spacing multiple.
pub const X_OFFSET: u32 = 500;

/// Lowest admissible top edge of a lower pipe (the gap's bottom).
pub const MIN_GAP_Y: u32 = 1000;

/// Exclusive upper bound on the top edge of a lower pipe.
pub const MAX_GAP_Y: u32 = 4600;

/// Least admissible vertical width of a gap.
pub const MIN_GAP_WIDTH: u32 = 2100;

/// Exclusive upper bound on the vertical width of a gap.
pub const MAX_GAP_WIDTH: u32 = 2600;

/// A board is well formed when it holds `BOARD_SIZE` pipe pairs, each on its
/// evenly spaced column, every gap edge drawn from the admissible ranges and
/// every gap at least `MIN_GAP_WIDTH` wide.
pub open spec fn board_well_formed(board: Seq<PipePair>) -> bool {
    &&& board.len() == BOARD_SIZE
    &&& forall|i: int|
        0 <= i < board.len() ==> {
            let p = #[trigger] board[i];
            &&& p.x == (i + 1) * HORIZONTAL_SPACING - X_OFFSET
            &&& MIN_GAP_Y <= p.y1 < MAX_GAP_Y
            &&& MIN_GAP_WIDTH <= p.y2 - p.y1 < MAX_GAP_WIDTH
        }
}

/// Relies on rand::random_range on a `Range<u32>`: the thread-local generator
/// samples a value uniformly from `[lo, hi)`; the call panics only on an
/// empty range, which the precondition rules out.
#[verifier::external_body]
fn sample_range(lo: u32, hi: u32) -> (r: u32)
    requires
        lo < hi,
    ensures
        lo <= r < hi,
{
    rand::random_range(lo..hi)
}

/// Generates the randomized board: evenly spaced columns, each with a gap
/// whose bottom edge and width are drawn uniformly from their fixed ranges.
/// Every gap is passable (at least `MIN_GAP_WIDTH` wide) and the columns
/// ascend strictly from left to right.
pub fn gen_board() -> (board: Vec<PipePair>)
    ensures
        board_well_formed(board@),
        board_fits(board@, standard_settings_spec()),
        forall|i: int, j: int| 0 <= i < j < board@.len() ==> board@[i].x < board@[j].x,
{
    let mut board: Vec<PipePair> = Vec::new();
    let mut i: u32 = 1;
    while i < BOARD_SIZE + 1
        invariant
            1 <= i <= BOARD_SIZE + 1,
            board@.len() == i - 1,
            forall|j: int|
                0 <= j < board@.len() ==> {
                    let p = #[trigger] board@[j];
                    &&& p.x == (j + 1) * HORIZONTAL_SPACING - X_OFFSET
                    &&& MIN_GAP_Y <= p.y1 < MAX_GAP_Y
                    &&& MIN_GAP_WIDTH <= p.y2 - p.y1 < MAX_GAP_WIDTH
                },
        decreases BOARD_SIZE + 1 - i,
    {
        let height = sample_range(MIN_GAP_Y, MAX_GAP_Y);
        let spacing = sample_range(MIN_GAP_WIDTH, MAX_GAP_WIDTH);
        let p = PipePair { x: i * HORIZONTAL_SPACING - X_OFFSET, y1: height, y2: height + spacing };
        board.push(p);
        i = i + 1;
    }
    proof {
        assert forall|i_: int| 0 <= i_ < board@.len() implies pipe_fits(
            #[trigger] board@[i_],
            standard_settings_spec(),
        ) by {
            assert(board@[i_].x == (i_ + 1) * HORIZONTAL_SPACING - X_OFFSET);
            assert(board@[i_].x >= 1900) by (nonlinear_arith)
                requires
                    board@[i_].x == (i_ + 1) * HORIZONTAL_SPACING - X_OFFSET,
                    i_ >= 0,
                    HORIZONTAL_SPACING == 2400,
                    X_OFFSET == 500,
            ;
            assert(board@[i_].x <= 4 * HORIZONTAL_SPACING - X_OFFSET) by (nonlinear_arith)
                requires
                    board@[i_].x == (i_ + 1) * HORIZONTAL_SPACING - X_OFFSET,
                    i_ < 4,
                    HORIZONTAL_SPACING == 2400,
                    X_OFFSET == 500,
            ;
        }
        assert forall|i_: int, j_: int| 0 <= i_ < j_ < board@.len() implies board@[i_].x
            < board@[j_].x by {
            assert((i_ + 1) * HORIZONTAL_SPACING < (j_ + 1) * HORIZONTAL_SPACING)
                by (nonlinear_arith)
                requires
                    0 <= i_ < j_,
                    HORIZONTAL_SPACING == 2400,
            ;
        }
    }
    board
}

} // verus!
