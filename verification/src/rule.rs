//! The birth/survival rule and the fixed Moore neighbourhood.

use vstd::prelude::*;

verus! {

/// The eight displacements from a cell to its Moore neighbours.
pub const OFFSETS: [(isize, isize); 8] = [
    (-1, -1), (0, -1), (1, -1),
    (-1, 0), (1, 0),
    (-1, 1), (0, 1), (1, 1),
];

/// Whether a cell is alive in the next generation, given whether it is alive
/// now and how many of its neighbours are: a dead cell is born with exactly
/// three live neighbours, a live cell survives with two or three.
pub open spec fn lives_on(alive: bool, neighbours: nat) -> bool {
    if alive {
        neighbours == 2 || neighbours == 3
    } else {
        neighbours == 3
    }
}

/// Decides the next state of one cell.
pub fn next_state(alive: bool, neighbours: usize) -> (next: bool)
    ensures
        next == lives_on(alive, neighbours as nat),
{
    match (alive, neighbours) {
        (false, 3) => true,
        (true, 2) | (true, 3) => true,
        _ => false,
    }
}

} // verus!
