//! The mathematical model of a grid: its dimensions and its live positions.

use vstd::prelude::*;
use crate::rule::lives_on;

verus! {

/// A generation of the automaton, as contracts speak of it.
///
/// Positions are pairs `(x, y)` of mathematical integers. Those with
/// `0 <= x < width` and `0 <= y < height` are the cells of the grid; every
/// other position is outside it and never alive.
pub struct Board {
    /// The number of columns.
    pub width: nat,
    /// The number of rows.
    pub height: nat,
    /// The positions that are alive.
    pub live: Set<(int, int)>,
}

impl Board {
    /// Whether `(x, y)` is a cell of the grid.
    pub open spec fn in_bounds(self, x: int, y: int) -> bool {
        0 <= x < self.width && 0 <= y < self.height
    }

    /// Every live position is a cell of the grid.
    pub open spec fn wf(self) -> bool {
        forall|p: (int, int)| #[trigger] self.live.contains(p) ==> self.in_bounds(p.0, p.1)
    }

    /// The grid of the given dimensions on which every cell is dead.
    pub open spec fn empty(width: nat, height: nat) -> Board {
        Board { width, height, live: Set::empty() }
    }

    /// Whether `(x, y)` is a live cell.
    pub open spec fn alive(self, x: int, y: int) -> bool {
        self.in_bounds(x, y) && self.live.contains((x, y))
    }

    /// What a read at `(x, y)` yields: the cell's state, or nothing outside
    /// the grid.
    pub open spec fn get(self, x: int, y: int) -> Option<bool> {
        if self.in_bounds(x, y) {
            Some(self.live.contains((x, y)))
        } else {
            None
        }
    }

    /// The board after a write of `value` at `(x, y)`; a write outside the
    /// grid changes nothing.
    pub open spec fn set(self, x: int, y: int, value: bool) -> Board {
        if !self.in_bounds(x, y) {
            self
        } else if value {
            Board { live: self.live.insert((x, y)), ..self }
        } else {
            Board { live: self.live.remove((x, y)), ..self }
        }
    }

    /// The board after the cell at `(x, y)` is flipped; outside the grid
    /// nothing changes.
    pub open spec fn toggle(self, x: int, y: int) -> Board {
        self.set(x, y, !self.alive(x, y))
    }

    /// One if `(x, y)` is a live cell, zero if it is dead or outside the grid.
    pub open spec fn count(self, x: int, y: int) -> nat {
        if self.alive(x, y) {
            1
        } else {
            0
        }
    }

    /// The number of live cells among the eight Moore neighbours of `(x, y)`.
    /// Neighbouring positions outside the grid count for nothing: the grid
    /// has edges and does not wrap.
    pub open spec fn neighbours(self, x: int, y: int) -> nat {
        self.count(x - 1, y - 1) + self.count(x, y - 1) + self.count(x + 1, y - 1)
            + self.count(x - 1, y) + self.count(x + 1, y)
            + self.count(x - 1, y + 1) + self.count(x, y + 1) + self.count(x + 1, y + 1)
    }

    /// The state that the rule gives `(x, y)` in the following generation,
    /// from its state and its neighbour count in this one.
    pub open spec fn rule_at(self, x: int, y: int) -> bool {
        lives_on(self.alive(x, y), self.neighbours(x, y))
    }

    /// The following generation: every cell takes the state that the rule
    /// gives it from this generation.
    pub open spec fn step(self) -> Board {
        Board {
            live: Set::new(|p: (int, int)| self.in_bounds(p.0, p.1) && self.rule_at(p.0, p.1)),
            ..self
        }
    }

    /// The board `n` generations on.
    pub open spec fn steps(self, n: nat) -> Board
        decreases n,
    {
        if n == 0 {
            self
        } else {
            self.steps((n - 1) as nat).step()
        }
    }

    /// Whether two boards have the same dimensions and the same state in
    /// every cell.
    pub open spec fn same_cells(self, other: Board) -> bool {
        &&& self.width == other.width
        &&& self.height == other.height
        &&& forall|x: int, y: int| #[trigger] self.get(x, y) == other.get(x, y)
    }

    /// The empty grid is well formed and has no live cell.
    pub proof fn lemma_empty_is_dead(width: nat, height: nat)
        ensures
            Board::empty(width, height).wf(),
            forall|x: int, y: int| !(#[trigger] Board::empty(width, height).alive(x, y)),
            forall|x: int, y: int|
                Board::empty(width, height).in_bounds(x, y) ==> #[trigger] Board::empty(
                    width,
                    height,
                ).get(x, y) == Some(false),
    {
    }

    /// Writes, flips and generations keep a board well formed and leave its
    /// dimensions alone.
    pub proof fn lemma_shape_is_kept(self, x: int, y: int, value: bool)
        requires
            self.wf(),
        ensures
            self.set(x, y, value).wf(),
            self.toggle(x, y).wf(),
            self.step().wf(),
            self.set(x, y, value).width == self.width && self.set(x, y, value).height
                == self.height,
            self.toggle(x, y).width == self.width && self.toggle(x, y).height == self.height,
            self.step().width == self.width && self.step().height == self.height,
    {
    }

    /// Outside the grid a read finds nothing, and a write or a flip leaves
    /// the board as it was.
    pub proof fn lemma_outside_is_inert(self, x: int, y: int, value: bool)
        requires
            x < 0 || x >= self.width || y < 0 || y >= self.height,
        ensures
            self.get(x, y) is None,
            self.set(x, y, value) == self,
            self.toggle(x, y) == self,
    {
    }

    /// A write inside the grid is read back at its own position and changes
    /// no other cell.
    pub proof fn lemma_set_touches_one_cell(self, x: int, y: int, value: bool, i: int, j: int)
        requires
            self.in_bounds(x, y),
        ensures
            self.set(x, y, value).get(x, y) == Some(value),
            (i, j) != (x, y) ==> self.set(x, y, value).get(i, j) == self.get(i, j),
    {
    }

    /// A flip inside the grid inverts its own cell and changes no other.
    pub proof fn lemma_toggle_touches_one_cell(self, x: int, y: int, i: int, j: int)
        requires
            self.in_bounds(x, y),
        ensures
            self.toggle(x, y).get(x, y) == Some(!self.alive(x, y)),
            (i, j) != (x, y) ==> self.toggle(x, y).get(i, j) == self.get(i, j),
    {
    }

    /// Flipping the same position twice in a row restores the board.
    pub proof fn lemma_toggle_twice(self, x: int, y: int)
        ensures
            self.toggle(x, y).toggle(x, y) == self,
    {
        assert(self.toggle(x, y).toggle(x, y).live =~= self.live);
    }

    /// No position has more than eight live neighbours.
    pub proof fn lemma_neighbours_bound(self, x: int, y: int)
        ensures
            self.neighbours(x, y) <= 8,
    {
    }

    /// At a corner of the grid only the three neighbours that lie inside it
    /// are counted: the one along the row, the one along the column and the
    /// one on the diagonal. `(sx, sy)` is the direction from the corner into
    /// the grid.
    pub proof fn lemma_corner_neighbours(self, x: int, y: int, sx: int, sy: int)
        requires
            self.in_bounds(x, y),
            (x == 0 && sx == 1) || (x == self.width - 1 && sx == -1),
            (y == 0 && sy == 1) || (y == self.height - 1 && sy == -1),
        ensures
            self.neighbours(x, y) == self.count(x + sx, y) + self.count(x, y + sy) + self.count(
                x + sx,
                y + sy,
            ),
            self.neighbours(x, y) <= 3,
    {
    }

    /// In the following generation a cell of the grid is alive exactly if the
    /// rule says so: a live cell with fewer than two or more than three live
    /// neighbours dies, one with two or three survives, a dead cell with
    /// exactly three is born, and every other dead cell stays dead.
    pub proof fn lemma_step_follows_rule(self, x: int, y: int)
        requires
            self.in_bounds(x, y),
        ensures
            self.step().get(x, y) == Some(self.rule_at(x, y)),
            self.alive(x, y) && (self.neighbours(x, y) < 2 || self.neighbours(x, y) > 3)
                ==> !self.step().alive(x, y),
            self.alive(x, y) && (self.neighbours(x, y) == 2 || self.neighbours(x, y) == 3)
                ==> self.step().alive(x, y),
            !self.alive(x, y) && self.neighbours(x, y) == 3 ==> self.step().alive(x, y),
            !self.alive(x, y) && self.neighbours(x, y) != 3 ==> !self.step().alive(x, y),
    {
    }

    /// The following generation depends on nothing but the dimensions and
    /// the state of each cell: boards that agree on these have the same
    /// successor.
    pub proof fn lemma_step_is_deterministic(self, other: Board)
        requires
            self.same_cells(other),
        ensures
            self.step() == other.step(),
    {
        assert forall|x: int, y: int| self.alive(x, y) == other.alive(x, y) by {
            assert(self.get(x, y) == other.get(x, y));
        }
        assert(self.step().live =~= other.step().live);
    }

    /// A grid without a live cell stays so.
    pub proof fn lemma_empty_stays_dead(width: nat, height: nat)
        ensures
            Board::empty(width, height).step() == Board::empty(width, height),
    {
        assert(Board::empty(width, height).step().live =~= Set::<(int, int)>::empty());
    }

    /// A board whose only live cell is `(x, y)` has no live cell one
    /// generation later: the lone cell has no live neighbour and dies, and no
    /// dead cell has the three live neighbours that a birth takes.
    pub proof fn lemma_lone_cell_dies(self, x: int, y: int)
        requires
            self.live == set![(x, y)],
        ensures
            self.step() == Board::empty(self.width, self.height),
    {
        assert(self.step().live =~= Set::<(int, int)>::empty());
    }

    /// Three live cells in a line, with room on both sides and nothing else
    /// alive, turn by a quarter in one generation: the middle cell stays, the
    /// two ends die, and the two cells beside the middle are born. `(dx, dy)`
    /// is the direction of the line, `(1, 0)` or `(0, 1)`.
    pub proof fn lemma_blinker_turns(self, x: int, y: int, dx: int, dy: int)
        requires
            (dx == 1 && dy == 0) || (dx == 0 && dy == 1),
            self.in_bounds(x - 1, y - 1),
            self.in_bounds(x + 1, y + 1),
            self.live == set![(x - dx, y - dy), (x, y), (x + dx, y + dy)],
        ensures
            self.step().live == set![(x - dy, y - dx), (x, y), (x + dy, y + dx)],
            self.step().width == self.width,
            self.step().height == self.height,
    {
        let turned = set![(x - dy, y - dx), (x, y), (x + dy, y + dx)];
        assert(self.step().live =~= turned);
    }

    /// Such a line of three is back where it was after two generations.
    pub proof fn lemma_blinker_has_period_two(self, x: int, y: int, dx: int, dy: int)
        requires
            (dx == 1 && dy == 0) || (dx == 0 && dy == 1),
            self.in_bounds(x - 1, y - 1),
            self.in_bounds(x + 1, y + 1),
            self.live == set![(x - dx, y - dy), (x, y), (x + dx, y + dy)],
        ensures
            self.step().step() == self,
            self.step() != self,
    {
        self.lemma_blinker_turns(x, y, dx, dy);
        self.step().lemma_blinker_turns(x, y, dy, dx);
        assert(self.step().step().live =~= self.live);
        assert(self.step().live.contains((x - dy, y - dx)));
        assert(!self.live.contains((x - dy, y - dx)));
    }

    /// A board that is back where it was after two generations alternates
    /// between its two states for ever.
    pub proof fn lemma_period_two(self, n: nat)
        requires
            self.step().step() == self,
        ensures
            self.steps(n) == (if n % 2 == 0 {
                self
            } else {
                self.step()
            }),
        decreases n,
    {
        if n > 0 {
            self.lemma_period_two((n - 1) as nat);
        }
    }

    /// The line of three goes on turning for ever: after an even number of
    /// generations it lies as it did at first, after an odd number as it did
    /// one generation on.
    pub proof fn lemma_blinker_never_stops(self, x: int, y: int, dx: int, dy: int, n: nat)
        requires
            (dx == 1 && dy == 0) || (dx == 0 && dy == 1),
            self.in_bounds(x - 1, y - 1),
            self.in_bounds(x + 1, y + 1),
            self.live == set![(x - dx, y - dy), (x, y), (x + dx, y + dy)],
        ensures
            self.steps(n) == (if n % 2 == 0 {
                self
            } else {
                self.step()
            }),
    {
        self.lemma_blinker_has_period_two(x, y, dx, dy);
        self.lemma_period_two(n);
    }
}

} // verus!
