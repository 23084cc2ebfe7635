//! The grid itself: a bounded matrix of cells with a scratch buffer of the
//! same shape, advanced one generation at a time.

use vstd::prelude::*;
use crate::board::Board;
use crate::rule::{next_state, OFFSETS};

verus! {

/// Whether `m` is a matrix of `width` columns, each of `height` cells.
spec fn shaped(m: Seq<Vec<bool>>, width: int, height: int) -> bool {
    &&& m.len() == width
    &&& forall|x: int| 0 <= x < width ==> (#[trigger] m[x])@.len() == height
}

/// The number of live cells among the first `k` displacements of the
/// neighbourhood table, taken from `(x, y)`.
spec fn tally(board: Board, x: int, y: int, k: nat) -> nat
    decreases k,
{
    if k == 0 {
        0
    } else {
        let d = OFFSETS[k - 1];
        tally(board, x, y, (k - 1) as nat) + board.count(x + d.0, y + d.1)
    }
}

/// The neighbourhood table holds exactly the eight neighbours: a tally over
/// all of it is the neighbour count.
proof fn lemma_tally_is_neighbours(board: Board, x: int, y: int)
    ensures
        tally(board, x, y, 8) == board.neighbours(x, y),
{
    reveal_with_fuel(tally, 9);
}

/// A mutable reference to the cell at `(x, y)` of `m`. Whatever is written
/// through it, the matrix keeps its shape and its other cells.
fn cell_mut(m: &mut Vec<Vec<bool>>, x: usize, y: usize) -> (cell: &mut bool)
    requires
        x < old(m)@.len(),
        y < old(m)@[x as int]@.len(),
    ensures
        *cell == old(m)@[x as int]@[y as int],
        final(m)@.len() == old(m)@.len(),
        forall|i: int|
            0 <= i < old(m)@.len() ==> (#[trigger] final(m)@[i])@.len() == old(m)@[i]@.len(),
        forall|i: int, j: int|
            0 <= i < old(m)@.len() && 0 <= j < old(m)@[i]@.len() ==> #[trigger] final(m)@[i]@[j]
                == (if i == x && j == y {
                *final(cell)
            } else {
                old(m)@[i]@[j]
            }),
    no_unwind
{
    &mut m[x][y]
}

/// A bounded Game of Life grid that does not wrap around.
///
/// `field` holds the current generation, column by column. `next` is the
/// scratch buffer that [`GameOfLife::step`] fills before the two change
/// places. Its contents are no part of the grid's state: the view speaks of
/// `field` alone.
pub struct GameOfLife {
    width: usize,
    height: usize,
    field: Vec<Vec<bool>>,
    next: Vec<Vec<bool>>,
}

impl View for GameOfLife {
    type V = Board;

    closed spec fn view(&self) -> Board {
        Board {
            width: self.width as nat,
            height: self.height as nat,
            live: Set::new(
                |p: (int, int)|
                    0 <= p.0 < self.width && 0 <= p.1 < self.height && self.field@[p.0]@[p.1],
            ),
        }
    }
}

impl GameOfLife {
    /// Both buffers have the shape that the dimensions give, at all times.
    #[verifier::type_invariant]
    spec fn inv(self) -> bool {
        &&& shaped(self.field@, self.width as int, self.height as int)
        &&& shaped(self.next@, self.width as int, self.height as int)
    }

    /// A grid of the given dimensions with every cell dead.
    pub fn new(width: usize, height: usize) -> (game: GameOfLife)
        ensures
            game@ == Board::empty(width as nat, height as nat),
    {
        let game = GameOfLife {
            width,
            height,
            field: vec![vec![false; height]; width],
            next: vec![vec![false; height]; width],
        };
        assert(game@.live =~= Set::<(int, int)>::empty());
        game
    }

    /// Every live position of a grid's state lies inside the grid.
    pub proof fn lemma_view_is_well_formed(self)
        ensures
            self@.wf(),
    {
    }

    /// The number of columns.
    pub fn width(&self) -> (width: usize)
        ensures
            width == self@.width,
    {
        self.width
    }

    /// The number of rows.
    pub fn height(&self) -> (height: usize)
        ensures
            height == self@.height,
    {
        self.height
    }

    /// The state of the cell at `(x, y)`, or `None` outside the grid.
    pub fn get(&self, x: usize, y: usize) -> (cell: Option<bool>)
        ensures
            cell == self@.get(x as int, y as int),
            cell is None <==> x >= self@.width || y >= self@.height,
    {
        proof {
            use_type_invariant(self);
        }
        if x < self.width && y < self.height {
            Some(self.field[x][y])
        } else {
            None
        }
    }

    /// A mutable reference to the cell at `(x, y)`, or `None` outside the
    /// grid. What is written through the reference is what the cell holds
    /// afterwards; nothing else changes.
    fn get_mut(&mut self, x: usize, y: usize) -> (cell: Option<&mut bool>)
        ensures
            cell is Some <==> old(self)@.in_bounds(x as int, y as int),
            cell matches Some(c) ==> *c == old(self)@.alive(x as int, y as int),
            final(self)@.width == old(self)@.width,
            final(self)@.height == old(self)@.height,
            final(self)@.live == (match cell {
                Some(c) => old(self)@.set(x as int, y as int, *final(c)).live,
                None => old(self)@.live,
            }),
    {
        proof {
            use_type_invariant(&*self);
        }
        if x < self.width && y < self.height {
            Some(cell_mut(&mut self.field, x, y))
        } else {
            None
        }
    }

    /// Writes `value` to the cell at `(x, y)`; outside the grid nothing happens.
    pub fn set(&mut self, x: usize, y: usize, value: bool)
        ensures
            final(self)@ == old(self)@.set(x as int, y as int, value),
            !old(self)@.in_bounds(x as int, y as int) ==> final(self)@ == old(self)@,
    {
        match self.get_mut(x, y) {
            Some(c) => {
                *c = value;
            },
            None => {},
        }
    }

    /// Flips the cell at `(x, y)`; outside the grid nothing happens.
    pub fn toggle(&mut self, x: usize, y: usize)
        ensures
            final(self)@ == old(self)@.toggle(x as int, y as int),
            !old(self)@.in_bounds(x as int, y as int) ==> final(self)@ == old(self)@,
    {
        match self.get_mut(x, y) {
            Some(c) => {
                *c = !*c;
            },
            None => {},
        }
    }

    /// Brings the cell at `(x, y)` to life; outside the grid nothing happens.
    pub fn set_on(&mut self, x: usize, y: usize)
        ensures
            final(self)@ == old(self)@.set(x as int, y as int, true),
    {
        self.set(x, y, true);
    }

    /// Kills the cell at `(x, y)`; outside the grid nothing happens.
    pub fn set_off(&mut self, x: usize, y: usize)
        ensures
            final(self)@ == old(self)@.set(x as int, y as int, false),
    {
        self.set(x, y, false);
    }

    /// Kills every cell. The dimensions stay as they are.
    pub fn clear(&mut self)
        ensures
            final(self)@ == Board::empty(old(self)@.width, old(self)@.height),
            final(self)@.width == old(self)@.width,
            final(self)@.height == old(self)@.height,
            forall|x: int, y: int| !(#[trigger] final(self)@.alive(x, y)),
    {
        proof {
            use_type_invariant(&*self);
        }
        self.field = vec![vec![false; self.height]; self.width];
        assert(self@.live =~= Set::<(int, int)>::empty());
    }

    /// The state of the position displaced by `(dx, dy)` from `(x, y)`, or
    /// `None` if that position is outside the grid. The displaced position is
    /// computed in signed arithmetic and tested against both edges, so a step
    /// off the low edge never comes back in at the high one.
    pub fn get_offset(&self, x: usize, y: usize, dx: isize, dy: isize) -> (cell: Option<bool>)
        ensures
            cell == self@.get(x as int + dx as int, y as int + dy as int),
    {
        let nx: i128 = x as i128 + dx as i128;
        let ny: i128 = y as i128 + dy as i128;
        if nx < 0 || nx >= self.width as i128 || ny < 0 || ny >= self.height as i128 {
            None
        } else {
            self.get(nx as usize, ny as usize)
        }
    }

    /// The number of live cells among the eight neighbours of `(x, y)`.
    pub fn neighbours(&self, x: usize, y: usize) -> (count: usize)
        ensures
            count == self@.neighbours(x as int, y as int),
            count <= 8,
    {
        let mut count: usize = 0;
        let mut k: usize = 0;
        while k < 8
            invariant
                k <= 8,
                count <= k,
                count == tally(self@, x as int, y as int, k as nat),
            decreases 8 - k,
        {
            let (dx, dy) = OFFSETS[k];
            if let Some(true) = self.get_offset(x, y, dx, dy) {
                count += 1;
            }
            k += 1;
        }
        proof {
            lemma_tally_is_neighbours(self@, x as int, y as int);
        }
        count
    }

    /// The state that the rule gives the position `(x, y)` in the following
    /// generation, from its state and its neighbours in this one.
    pub fn apply_rule(&self, x: usize, y: usize) -> (next: bool)
        ensures
            next == self@.rule_at(x as int, y as int),
    {
        let cell = self.get(x, y).unwrap_or(false);
        next_state(cell, self.neighbours(x, y))
    }

    /// Advances the grid by one generation. Every cell's next state is
    /// computed from the generation before the call and written to the
    /// scratch buffer; only then do the two buffers change places.
    pub fn step(&mut self)
        ensures
            final(self)@ == old(self)@.step(),
    {
        let (width, height) = (self.width(), self.height());
        for x in 0..width
            invariant
                self.width == width,
                self.height == height,
                self.field == old(self).field,
                self@ == old(self)@,
                forall|i: int, j: int|
                    0 <= i < x && 0 <= j < height ==> #[trigger] self.next@[i]@[j] == old(
                        self,
                    )@.rule_at(i, j),
        {
            for y in 0..height
                invariant
                    x < width,
                    self.width == width,
                    self.height == height,
                    self.field == old(self).field,
                    self@ == old(self)@,
                    forall|i: int, j: int|
                        0 <= i < x && 0 <= j < height ==> #[trigger] self.next@[i]@[j] == old(
                            self,
                        )@.rule_at(i, j),
                    forall|j: int|
                        0 <= j < y ==> #[trigger] self.next@[x as int]@[j] == old(
                            self,
                        )@.rule_at(x as int, j),
            {
                proof {
                    use_type_invariant(&*self);
                }
                let state = self.apply_rule(x, y);
                *cell_mut(&mut self.next, x, y) = state;
            }
        }
        proof {
            use_type_invariant(&*self);
        }
        std::mem::swap(&mut self.field, &mut self.next);
        assert(self@.live =~= old(self)@.step().live);
    }
}

} // verus!
