//! Placing patterns on a grid, and the two that a fresh session starts with.

use vstd::prelude::*;
use crate::board::Board;
use crate::grid::GameOfLife;

verus! {

/// A lightweight spaceship, near the top left corner.
pub const LIGHTWEIGHT_SPACESHIP: [(usize, usize); 9] = [
    (1, 2), (2, 2), (3, 2), (4, 2),
    (4, 3),
    (4, 4),
    (0, 3), (0, 5), (3, 5),
];

/// A glider, below the spaceship.
pub const GLIDER: [(usize, usize); 5] = [
    (0, 9), (1, 9), (2, 9),
    (2, 8),
    (1, 7),
];

/// Whether `(x, y)` is one of the positions in `cells`.
pub open spec fn listed(cells: Seq<(usize, usize)>, x: int, y: int) -> bool {
    exists|k: int| 0 <= k < cells.len() && (#[trigger] cells[k]).0 == x && cells[k].1 == y
}

/// One more position in the list adds itself to what is listed and takes
/// nothing away.
proof fn lemma_listed_grows(cells: Seq<(usize, usize)>, i: int)
    requires
        0 <= i < cells.len(),
    ensures
        forall|x: int, y: int| #[trigger]
            listed(cells.take(i + 1), x, y) <==> listed(cells.take(i), x, y) || (cells[i].0 == x
                && cells[i].1 == y),
{
    let shorter = cells.take(i);
    let longer = cells.take(i + 1);
    assert forall|x: int, y: int| #[trigger]
        listed(longer, x, y) <==> listed(shorter, x, y) || (cells[i].0 == x && cells[i].1
            == y) by {
        if listed(longer, x, y) {
            let k = choose|k: int|
                0 <= k < longer.len() && (#[trigger] longer[k]).0 == x && longer[k].1 == y;
            if k < i {
                assert(shorter[k] == longer[k]);
            }
        }
        if listed(shorter, x, y) {
            let k = choose|k: int|
                0 <= k < shorter.len() && (#[trigger] shorter[k]).0 == x && shorter[k].1 == y;
            assert(longer[k] == shorter[k]);
        }
        if cells[i].0 == x && cells[i].1 == y {
            assert(longer[i] == cells[i]);
        }
    }
}

/// The board after every position of `cells` that lies inside the grid has
/// been brought to life. Positions outside the grid are dropped.
pub open spec fn with_pattern(board: Board, cells: Seq<(usize, usize)>) -> Board {
    Board {
        live: board.live.union(
            Set::new(|p: (int, int)| board.in_bounds(p.0, p.1) && listed(cells, p.0, p.1)),
        ),
        ..board
    }
}

/// A cell of the board with the pattern on it is alive exactly if it was
/// alive before or is listed in the pattern; the dimensions are unchanged.
pub proof fn lemma_with_pattern_cell(board: Board, cells: Seq<(usize, usize)>, x: int, y: int)
    ensures
        with_pattern(board, cells).alive(x, y) <==> board.alive(x, y) || (board.in_bounds(x, y)
            && listed(cells, x, y)),
        with_pattern(board, cells).width == board.width,
        with_pattern(board, cells).height == board.height,
        board.wf() ==> with_pattern(board, cells).wf(),
{
}

/// Brings every listed cell to life. A position outside the grid is
/// silently dropped; no other cell changes.
pub fn place(game: &mut GameOfLife, cells: &[(usize, usize)])
    ensures
        final(game)@ == with_pattern(old(game)@, cells@),
{
    let mut i: usize = 0;
    while i < cells.len()
        invariant
            i <= cells.len(),
            game@.width == old(game)@.width,
            game@.height == old(game)@.height,
            game@.live == old(game)@.live.union(
                Set::new(
                    |p: (int, int)|
                        old(game)@.in_bounds(p.0, p.1) && listed(
                            cells@.take(i as int),
                            p.0,
                            p.1,
                        ),
                ),
            ),
        decreases cells.len() - i,
    {
        let (x, y) = cells[i];
        game.set_on(x, y);
        proof {
            lemma_listed_grows(cells@, i as int);
        }
        i += 1;
    }
    assert(cells@.take(i as int) == cells@);
}

/// Places the two starting patterns: the spaceship, then the glider.
pub fn seed(game: &mut GameOfLife)
    ensures
        final(game)@ == with_pattern(
            with_pattern(old(game)@, LIGHTWEIGHT_SPACESHIP@),
            GLIDER@,
        ),
{
    place(game, &LIGHTWEIGHT_SPACESHIP);
    place(game, &GLIDER);
}

} // verus!
