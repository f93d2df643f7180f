//! The playing field: a square of cells, fixed in size, with the one query
//! that both actors and projectiles use before they step.

use vstd::prelude::*;
use crate::direction::Direction;
use crate::pos::Pos;
use crate::traits::IntoBytes;

verus! {

/// What a cell of the field holds.
#[derive(Debug, Clone, Copy, PartialEq, Eq, Structural)]
pub enum Cell {
    Bushes,
    Empty,
    Wall,
    Player,
    Bot,
    Bullet,
}

impl Cell {
    /// Whether something may step onto a cell of this kind.
    pub open spec fn passable(self) -> bool {
        match self {
            Cell::Bushes | Cell::Empty | Cell::Bullet => true,
            Cell::Wall | Cell::Player | Cell::Bot => false,
        }
    }

    /// The number by which a cell kind is known on the wire.
    pub open spec fn code(self) -> u8 {
        match self {
            Cell::Bot => 0,
            Cell::Bullet => 1,
            Cell::Bushes => 2,
            Cell::Empty => 3,
            Cell::Player => 4,
            Cell::Wall => 5,
        }
    }

    pub fn can_move(&self) -> (yes: bool)
        ensures
            yes == self.passable(),
    {
        match self {
            Cell::Bot => false,
            Cell::Bullet => true,
            Cell::Bushes => true,
            Cell::Empty => true,
            Cell::Player => false,
            Cell::Wall => false,
        }
    }

    pub fn as_u8(&self) -> (code: u8)
        ensures
            code == self.code(),
    {
        match self {
            Cell::Bot => 0,
            Cell::Bullet => 1,
            Cell::Bushes => 2,
            Cell::Empty => 3,
            Cell::Player => 4,
            Cell::Wall => 5,
        }
    }
}

impl IntoBytes<1> for Cell {
    open spec fn bytes(&self) -> Seq<u8> {
        seq![self.code()]
    }

    fn into_bytes(&self) -> (bytes: [u8; 1])
        ensures
            bytes@ == seq![self.code()],
    {
        [self.as_u8()]
    }
}

/// Why a step is refused.
#[derive(Debug, Clone, Copy, PartialEq, Eq, Structural)]
pub enum WhyDontCanMove {
    /// The destination holds something that cannot be entered.
    ImpassableObject { obj: Cell },
    /// The destination lies outside the field.
    OutOfRange,
    /// The destination cannot be written as a position at all.
    PosOverflow,
}

/// The answer to "may I step from here in this direction?".
#[derive(Debug, Clone, Copy, PartialEq, Eq, Structural)]
pub enum CanMove {
    Yes,
    No(WhyDontCanMove),
}

/// A field as a mathematical value: its side and its cells in row-major
/// order, the cell of `(x, y)` at index `x * size + y`.
pub struct GridView {
    pub size: nat,
    pub cells: Seq<Cell>,
}

impl GridView {
    /// The field has exactly `size * size` cells.
    pub open spec fn wf(self) -> bool {
        self.cells.len() == self.size * self.size
    }

    /// Whether `p` lies inside the field.
    pub open spec fn contains(self, p: Pos) -> bool {
        p.x < self.size && p.y < self.size
    }

    /// The index of the cell of `p` in `cells`.
    pub open spec fn index_of(self, p: Pos) -> int {
        p.x * self.size + p.y
    }

    /// The cell at `p`, meaningful where the field contains `p`.
    pub open spec fn cell_at(self, p: Pos) -> Cell {
        self.cells[self.index_of(p)]
    }

    /// The answer to a step from `from` in `direction`. The three refusals
    /// are tried in this order: the shift itself, the bounds of the field,
    /// the kind of the destination cell.
    pub open spec fn verdict(self, from: Pos, direction: Direction) -> CanMove {
        match from.shifted(direction) {
            None => CanMove::No(WhyDontCanMove::PosOverflow),
            Some(to) => if !self.contains(to) {
                CanMove::No(WhyDontCanMove::OutOfRange)
            } else if !self.cell_at(to).passable() {
                CanMove::No(WhyDontCanMove::ImpassableObject { obj: self.cell_at(to) })
            } else {
                CanMove::Yes
            },
        }
    }

    /// The field of side `size` with nothing on it.
    pub open spec fn empty(size: nat) -> GridView {
        GridView { size, cells: Seq::new(size * size, |i: int| Cell::Empty) }
    }

    /// Whether the occupant of `p` is hidden from view: `p` lies in the field
    /// on a cell of bushes.
    pub open spec fn conceals(self, p: Pos) -> bool {
        self.contains(p) && self.cell_at(p) == Cell::Bushes
    }
}

/// Inside a well-formed field every position has its own cell.
pub proof fn lemma_index_in_range(g: GridView, p: Pos)
    requires
        g.wf(),
        g.contains(p),
    ensures
        0 <= g.index_of(p) < g.cells.len(),
{
    let s = g.size as int;
    let x = p.x as int;
    let y = p.y as int;
    assert(x * s + y < s * s) by (nonlinear_arith)
        requires
            0 <= x < s,
            0 <= y < s,
    ;
    assert(0 <= x * s) by (nonlinear_arith)
        requires
            0 <= x,
            0 <= s,
    ;
}

/// An allowed step ends inside the field, on a passable cell, one unit from
/// where it began.
pub proof fn lemma_allowed_step(g: GridView, from: Pos, direction: Direction)
    requires
        g.verdict(from, direction) == CanMove::Yes,
    ensures
        from.shifted(direction) is Some,
        g.contains(from.shifted(direction).unwrap()),
        g.cell_at(from.shifted(direction).unwrap()).passable(),
        direction != Direction::Nowhere,
{
}

/// The field. Its size is fixed when it is made.
pub struct Grid {
    field: Vec<Cell>,
    size: u8,
}

impl View for Grid {
    type V = GridView;

    closed spec fn view(&self) -> GridView {
        GridView { size: self.size as nat, cells: self.field@ }
    }
}

impl Clone for Grid {
    fn clone(&self) -> (copy: Grid)
        ensures
            copy@ == self@,
    {
        Grid { field: copy_cells(&self.field), size: self.size }
    }
}

/// A fresh vector with the same cells.
fn copy_cells(cells: &Vec<Cell>) -> (copy: Vec<Cell>)
    ensures
        copy@ == cells@,
{
    let mut copy: Vec<Cell> = Vec::with_capacity(cells.len());
    let mut i: usize = 0;
    while i < cells.len()
        invariant
            i <= cells.len(),
            copy@ == cells@.take(i as int),
        decreases cells.len() - i,
    {
        copy.push(cells[i]);
        i += 1;
    }
    copy
}

impl Grid {
    /// The side of the field fits a byte, and the field has all its cells.
    pub open spec fn wf(&self) -> bool {
        self@.wf() && self@.size <= u8::MAX
    }

    /// A field of side `size` with nothing on it.
    pub fn new_empty(size: u8) -> (grid: Grid)
        ensures
            grid.wf(),
            grid@ == GridView::empty(size as nat),
    {
        let side: usize = size as usize;
        assert(side * side <= 255 * 255) by (nonlinear_arith)
            requires
                side <= 255,
        ;
        let count: usize = side * side;
        let mut field: Vec<Cell> = Vec::with_capacity(count);
        let mut i: usize = 0;
        while i < count
            invariant
                i <= count,
                field@.len() == i,
                forall|j: int| 0 <= j < i ==> field@[j] == Cell::Empty,
            decreases count - i,
        {
            field.push(Cell::Empty);
            i += 1;
        }
        assert(field@ =~= GridView::empty(size as nat).cells);
        Grid { field, size }
    }

    /// A copy of the field whose cells can be edited.
    pub fn clone_mut_map(&self) -> (copy: MutMap)
        ensures
            copy@ == self@,
    {
        MutMap { field: copy_cells(&self.field), size: self.get_size() }
    }

    pub fn get_size(&self) -> (size: u8)
        ensures
            size == self@.size,
    {
        self.size
    }

    /// The cell at `pos`, which must lie inside the field.
    pub fn get_cell(&self, pos: Pos) -> (cell: Cell)
        requires
            self.wf(),
            self@.contains(pos),
        ensures
            cell == self@.cell_at(pos),
    {
        proof {
            lemma_index_in_range(self@, pos);
        }
        let side: usize = self.size as usize;
        assert((pos.x as usize) * side <= 255 * 255) by (nonlinear_arith)
            requires
                pos.x <= 255,
                side <= 255,
        ;
        self.field[pos.x as usize * side + pos.y as usize]
    }

    fn pos_in_map(&self, pos: Pos) -> (inside: bool)
        ensures
            inside == self@.contains(pos),
    {
        pos.x < self.size && pos.y < self.size
    }

    /// Whether the occupant of `pos` is hidden by bushes. A position outside
    /// the field hides nobody.
    pub fn conceals(&self, pos: Pos) -> (hidden: bool)
        requires
            self.wf(),
        ensures
            hidden == self@.conceals(pos),
    {
        self.pos_in_map(pos) && self.get_cell(pos) == Cell::Bushes
    }

    /// May something at `from` take one step in `direction`? The same query
    /// serves actors and projectiles.
    pub fn can_move(&self, from: Pos, direction: Direction) -> (answer: CanMove)
        requires
            self.wf(),
        ensures
            answer == self@.verdict(from, direction),
    {
        if let Some(pos) = from.shift(direction) {
            if self.pos_in_map(pos) {
                let cell = self.get_cell(pos);
                if cell.can_move() {
                    CanMove::Yes
                } else {
                    CanMove::No(WhyDontCanMove::ImpassableObject { obj: cell })
                }
            } else {
                CanMove::No(WhyDontCanMove::OutOfRange)
            }
        } else {
            CanMove::No(WhyDontCanMove::PosOverflow)
        }
    }
}

/// A field laid open for editing: `field` holds the cells in row-major order
/// and may be written freely. Only one with `size * size` cells can become a
/// `Grid` again.
pub struct MutMap {
    pub field: Vec<Cell>,
    size: u8,
}

impl View for MutMap {
    type V = GridView;

    closed spec fn view(&self) -> GridView {
        GridView { size: self.size as nat, cells: self.field@ }
    }
}

impl MutMap {
    pub fn get_size(&self) -> (size: u8)
        ensures
            size == self@.size,
    {
        self.size
    }

    /// The cell at `pos`, which must lie inside a field that has all its
    /// cells.
    pub fn get_cell(&self, pos: Pos) -> (cell: Cell)
        requires
            self@.wf(),
            self@.contains(pos),
        ensures
            cell == self@.cell_at(pos),
    {
        proof {
            lemma_index_in_range(self@, pos);
        }
        let side: usize = self.size as usize;
        assert((pos.x as usize) * side <= 255 * 255) by (nonlinear_arith)
            requires
                pos.x <= 255,
                side <= 255,
        ;
        self.field[pos.x as usize * side + pos.y as usize]
    }

    /// Puts `cell` at `pos`, which must lie inside a field that has all its
    /// cells. No other cell changes.
    pub fn set_cell(&mut self, pos: Pos, cell: Cell)
        requires
            old(self)@.wf(),
            old(self)@.contains(pos),
        ensures
            final(self)@.size == old(self)@.size,
            final(self)@.cells == old(self)@.cells.update(old(self)@.index_of(pos), cell),
            final(self)@.wf(),
    {
        proof {
            lemma_index_in_range(self@, pos);
        }
        let side: usize = self.size as usize;
        assert((pos.x as usize) * side <= 255 * 255) by (nonlinear_arith)
            requires
                pos.x <= 255,
                side <= 255,
        ;
        self.field[pos.x as usize * side + pos.y as usize] = cell;
    }

    /// Whether the field has exactly `size * size` cells, as a `Grid` must.
    pub fn is_complete(&self) -> (complete: bool)
        ensures
            complete == self@.wf(),
    {
        let side: usize = self.size as usize;
        assert(side * side <= 255 * 255) by (nonlinear_arith)
            requires
                side <= 255,
        ;
        self.field.len() == side * side
    }

    /// Closes the field again.
    pub fn immut_map(self) -> (grid: Grid)
        requires
            self@.wf(),
        ensures
            grid.wf(),
            grid@ == self@,
    {
        Grid { field: self.field, size: self.size }
    }
}

} // verus!
