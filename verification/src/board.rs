//! The board grid of renderable cells, the snapshot of the rules engine's
//! board, and the render sync that reconciles the one with the other.

use crate::states::{Scope, ScreenState};
use crate::stone::Stone;
use vstd::arithmetic::div_mod::{
    lemma_fundamental_div_mod, lemma_fundamental_div_mod_converse, lemma_mod_bound,
};
use vstd::prelude::*;

verus! {

/// A coordinate of the board.
#[derive(Clone, Copy, Debug, PartialEq, Eq, Hash, Structural)]
pub struct StonePos {
    pub x: u8,
    pub y: u8,
}

/// One renderable grid position. Its material is the colour it was last
/// drawn in; a hidden cell keeps its material.
#[derive(Clone, Copy, Debug, PartialEq, Eq, Hash, Structural)]
pub struct BoardCell {
    pub pos: StonePos,
    pub material: Stone,
    pub visible: bool,
}

/// The mathematical board snapshot: for each coordinate of a square board,
/// the owner of the stone on it.
pub struct BoardModel {
    pub size: u8,
    pub stones: Seq<Option<Stone>>,
}

/// The mathematical grid: the cells of a board of the given size.
pub struct GridModel {
    pub size: u8,
    pub cells: Seq<BoardCell>,
}

/// What the board plan of a game screen holds besides the background.
#[derive(Debug)]
pub struct BoardLayout {
    /// The scope that the board's root, and with it every line, star marker
    /// and cell, is tied to: the game screen.
    pub scope: Scope,
    /// The number of horizontal lines, which is also that of vertical lines.
    pub line_count: u8,
    /// The coordinates that carry a star marker, in grid order.
    pub star_points: Vec<StonePos>,
    /// The grid of stones, all hidden.
    pub grid: BoardGrid,
}

/// The place of a coordinate in a grid or snapshot of the given size.
pub open spec fn point_index(size: u8, x: u8, y: u8) -> int {
    x * size + y
}

/// The coordinate at a place of a grid of the given size.
pub open spec fn position(size: u8, index: int) -> StonePos {
    StonePos { x: (index / (size as int)) as u8, y: (index % (size as int)) as u8 }
}

/// The cell that a fresh grid holds at a place: hidden, with the black
/// material.
pub open spec fn fresh_cell(size: u8, index: int) -> BoardCell {
    BoardCell { pos: position(size, index), material: Stone::Black, visible: false }
}

/// Whether a coordinate carries a star marker on a board with `line_count`
/// lines: both of its parts are odd multiples of three inside the board.
pub open spec fn spec_is_star(x: u8, y: u8, line_count: u8) -> bool {
    x > 0 && y > 0 && x < line_count && y < line_count && x % 3 == 0 && x % 2 != 0 && y % 3 == 0
        && y % 2 != 0
}

/// Whether a position carries a star marker on a board with `line_count`
/// lines.
pub open spec fn star_at(line_count: u8) -> spec_fn(StonePos) -> bool {
    |pos: StonePos| spec_is_star(pos.x, pos.y, line_count)
}

/// All coordinates of a board of the given size, in grid order.
pub open spec fn all_positions(size: u8) -> Seq<StonePos> {
    Seq::new((size * size) as nat, |index: int| position(size, index))
}

/// The cell as the render sync leaves it, given the stone on its coordinate:
/// an occupied cell is visible in the owner's colour, an unoccupied one is
/// hidden and keeps its material.
pub open spec fn synced_cell(cell: BoardCell, stone: Option<Stone>) -> BoardCell {
    match stone {
        Some(owner) => BoardCell { pos: cell.pos, material: owner, visible: true },
        None => BoardCell { pos: cell.pos, material: cell.material, visible: false },
    }
}

impl BoardModel {
    /// The snapshot holds one entry for each coordinate.
    pub open spec fn wf(self) -> bool {
        self.stones.len() == self.size * self.size
    }

    /// The board without stones.
    pub open spec fn empty(size: u8) -> BoardModel {
        BoardModel { size, stones: Seq::new((size * size) as nat, |index: int| None) }
    }

    /// The owner of the stone at a coordinate; none outside the board.
    pub open spec fn stone_at(self, x: u8, y: u8) -> Option<Stone> {
        if x < self.size && y < self.size {
            self.stones[point_index(self.size, x, y)]
        } else {
            None
        }
    }

    /// The snapshot with the entry of a coordinate replaced; unchanged for a
    /// coordinate outside the board.
    pub open spec fn with_stone(self, x: u8, y: u8, stone: Option<Stone>) -> BoardModel {
        if x < self.size && y < self.size {
            BoardModel { stones: self.stones.update(point_index(self.size, x, y), stone), ..self }
        } else {
            self
        }
    }
}

impl GridModel {
    /// The grid holds one cell for each coordinate, in grid order.
    pub open spec fn wf(self) -> bool {
        &&& self.cells.len() == self.size * self.size
        &&& forall|index: int|
            0 <= index < self.cells.len() ==> (#[trigger] self.cells[index]).pos == position(
                self.size,
                index,
            )
    }

    /// The cell of a coordinate; none outside the board.
    pub open spec fn cell_at(self, x: u8, y: u8) -> Option<BoardCell> {
        if x < self.size && y < self.size {
            Some(self.cells[point_index(self.size, x, y)])
        } else {
            None
        }
    }

    /// The grid as it is spawned: every cell hidden.
    pub open spec fn fresh(size: u8) -> GridModel {
        GridModel {
            size,
            cells: Seq::new((size * size) as nat, |index: int| fresh_cell(size, index)),
        }
    }

    /// The grid after a render sync against `board`.
    pub open spec fn synced(self, board: BoardModel) -> GridModel {
        GridModel {
            size: self.size,
            cells: Seq::new(
                self.cells.len(),
                |index: int|
                    synced_cell(
                        self.cells[index],
                        board.stone_at(self.cells[index].pos.x, self.cells[index].pos.y),
                    ),
            ),
        }
    }

    /// Every cell shows what `board` holds at its coordinate: it is visible
    /// exactly when the coordinate is occupied, and then in the owner's
    /// colour.
    pub open spec fn shows(self, board: BoardModel) -> bool {
        forall|index: int|
            0 <= index < self.cells.len() ==> {
                let cell = #[trigger] self.cells[index];
                match board.stone_at(cell.pos.x, cell.pos.y) {
                    Some(owner) => cell.visible && cell.material == owner,
                    None => !cell.visible,
                }
            }
    }
}

/// A snapshot of the rules engine's board, as plain values.
#[derive(Debug)]
pub struct Board {
    size: u8,
    stones: Vec<Option<Stone>>,
}

impl View for Board {
    type V = BoardModel;

    closed spec fn view(&self) -> BoardModel {
        BoardModel { size: self.size, stones: self.stones@ }
    }
}

impl Board {
    /// The invariant of the snapshot, which every operation keeps.
    pub open spec fn wf(&self) -> bool {
        self@.wf()
    }

    /// The board of the given size without stones.
    pub fn new(size: u8) -> (board: Board)
        ensures
            board.wf(),
            board@ == BoardModel::empty(size),
    {
        proof {
            lemma_square_bound(size);
        }
        let count: usize = (size as usize) * (size as usize);
        let mut stones: Vec<Option<Stone>> = Vec::new();
        let mut index: usize = 0;
        while index < count
            invariant
                index <= count,
                count == size * size,
                stones@ == BoardModel::empty(size).stones.take(index as int),
            decreases count - index,
        {
            stones.push(None);
            assert(stones@ =~= BoardModel::empty(size).stones.take(index + 1));
            index += 1;
        }
        assert(stones@ =~= BoardModel::empty(size).stones);
        Board { size, stones }
    }

    /// The dimension of the board.
    pub fn size(&self) -> (size: u8)
        ensures
            size == self@.size,
    {
        self.size
    }

    /// The owner of the stone at a coordinate; none outside the board.
    pub fn get_stone(&self, x: u8, y: u8) -> (stone: Option<Stone>)
        requires
            self.wf(),
        ensures
            stone == self@.stone_at(x, y),
    {
        if x < self.size && y < self.size {
            proof {
                lemma_point_in_square(self.size, x, y);
            }
            self.stones[(x as usize) * (self.size as usize) + (y as usize)]
        } else {
            None
        }
    }

    /// Records what the rules engine holds at a coordinate. Returns whether
    /// the coordinate lies on the board; outside it nothing is recorded.
    pub fn set_stone(&mut self, x: u8, y: u8, stone: Option<Stone>) -> (on_board: bool)
        requires
            old(self).wf(),
        ensures
            final(self).wf(),
            on_board == (x < old(self)@.size && y < old(self)@.size),
            final(self)@ == old(self)@.with_stone(x, y, stone),
    {
        if x < self.size && y < self.size {
            proof {
                lemma_point_in_square(self.size, x, y);
            }
            let index = (x as usize) * (self.size as usize) + (y as usize);
            self.stones.set(index, stone);
            true
        } else {
            false
        }
    }
}

/// The grid of renderable cells of one game screen.
#[derive(Debug)]
pub struct BoardGrid {
    size: u8,
    cells: Vec<BoardCell>,
}

impl View for BoardGrid {
    type V = GridModel;

    closed spec fn view(&self) -> GridModel {
        GridModel { size: self.size, cells: self.cells@ }
    }
}

impl BoardGrid {
    /// The invariant of the grid, which every operation keeps.
    pub open spec fn wf(&self) -> bool {
        self@.wf()
    }

    /// The grid for a board of the given size: one hidden cell for each
    /// coordinate.
    pub fn new(size: u8) -> (grid: BoardGrid)
        ensures
            grid.wf(),
            grid@ == GridModel::fresh(size),
    {
        proof {
            lemma_square_bound(size);
        }
        let count: usize = (size as usize) * (size as usize);
        let mut cells: Vec<BoardCell> = Vec::new();
        let mut index: usize = 0;
        while index < count
            invariant
                index <= count,
                count == size * size,
                cells@ == GridModel::fresh(size).cells.take(index as int),
            decreases count - index,
        {
            let pos = position_at(size, index);
            cells.push(BoardCell { pos, material: Stone::Black, visible: false });
            assert(cells@ =~= GridModel::fresh(size).cells.take(index + 1));
            index += 1;
        }
        assert(cells@ =~= GridModel::fresh(size).cells);
        BoardGrid { size, cells }
    }

    /// The dimension of the board that the grid was made for.
    pub fn size(&self) -> (size: u8)
        ensures
            size == self@.size,
    {
        self.size
    }

    /// The cells, in grid order.
    pub fn cells(&self) -> (cells: &Vec<BoardCell>)
        ensures
            cells@ == self@.cells,
    {
        &self.cells
    }

    /// The cell of a coordinate; none outside the board.
    pub fn cell_at(&self, x: u8, y: u8) -> (cell: Option<BoardCell>)
        requires
            self.wf(),
        ensures
            cell == self@.cell_at(x, y),
            cell matches Some(found) ==> found.pos == (StonePos { x, y }),
    {
        if x < self.size && y < self.size {
            proof {
                lemma_point_in_square(self.size, x, y);
            }
            Some(self.cells[(x as usize) * (self.size as usize) + (y as usize)])
        } else {
            None
        }
    }
}

/// The coordinate at a place of a grid of the given size.
fn position_at(size: u8, index: usize) -> (pos: StonePos)
    requires
        index < size * size,
    ensures
        pos == position(size, index as int),
{
    proof {
        lemma_index_in_square(size, index as int);
    }
    let x = index / (size as usize);
    let y = index % (size as usize);
    StonePos { x: x as u8, y: y as u8 }
}

/// Whether a coordinate carries a star marker on a board with `line_count`
/// lines.
pub fn is_star(x: u8, y: u8, line_count: u8) -> (star: bool)
    ensures
        star == spec_is_star(x, y, line_count),
{
    x > 0 && y > 0 && x < line_count && y < line_count && x % 3 == 0 && x % 2 != 0 && y % 3 == 0
        && y % 2 != 0
}

/// The coordinates that carry a star marker on a board of the given size, in
/// grid order.
pub fn star_points(size: u8) -> (stars: Vec<StonePos>)
    ensures
        stars@ == all_positions(size).filter(star_at(size)),
{
    proof {
        lemma_square_bound(size);
    }
    let count: usize = (size as usize) * (size as usize);
    let mut stars: Vec<StonePos> = Vec::new();
    let mut index: usize = 0;
    while index < count
        invariant
            index <= count,
            count == size * size,
            stars@ == all_positions(size).take(index as int).filter(star_at(size)),
        decreases count - index,
    {
        let pos = position_at(size, index);
        proof {
            all_positions(size).lemma_take_succ_push(index as int);
            all_positions(size).take(index as int).lemma_filter_push(pos, star_at(size));
        }
        if is_star(pos.x, pos.y, size) {
            stars.push(pos);
        }
        index += 1;
    }
    proof {
        all_positions(size).lemma_take_len();
    }
    stars
}

/// Plans the board of a game screen for a session of the given board
/// dimension: one line each way for each index below the dimension, a star
/// marker on each star point, and the grid of stones, one hidden cell for
/// each coordinate, all under one root that is tied to the game screen.
pub fn setup_in_game_ui(size: u8) -> (layout: BoardLayout)
    ensures
        layout.scope == Scope::Screen(ScreenState::InGame),
        layout.line_count == size,
        layout.star_points@ == all_positions(size).filter(star_at(size)),
        layout.grid.wf(),
        layout.grid@ == GridModel::fresh(size),
{
    BoardLayout {
        scope: Scope::Screen(ScreenState::InGame),
        line_count: size,
        star_points: star_points(size),
        grid: BoardGrid::new(size),
    }
}

/// The board render sync: every cell of the grid is set from what the
/// snapshot holds at its coordinate. An occupied cell becomes visible in the
/// owner's colour; an unoccupied one becomes hidden and keeps its material.
/// The snapshot is only read, and the cells keep their number, order and
/// coordinates.
pub fn update_in_game(grid: &mut BoardGrid, board: &Board)
    requires
        old(grid).wf(),
        board.wf(),
    ensures
        final(grid).wf(),
        final(grid)@ == old(grid)@.synced(board@),
        final(grid)@.shows(board@),
{
    let count = grid.cells.len();
    let ghost before = grid.cells@;
    let mut index: usize = 0;
    while index < count
        invariant
            index <= count,
            board.wf(),
            grid.size == old(grid).size,
            grid.cells@.len() == count,
            before.len() == count,
            forall|done: int|
                0 <= done < index ==> #[trigger] grid.cells@[done] == synced_cell(
                    before[done],
                    board@.stone_at(before[done].pos.x, before[done].pos.y),
                ),
            forall|left: int| index <= left < count ==> #[trigger] grid.cells@[left] == before[left],
        decreases count - index,
    {
        let cell = grid.cells[index];
        let updated = match board.get_stone(cell.pos.x, cell.pos.y) {
            Some(owner) => BoardCell { pos: cell.pos, material: owner, visible: true },
            None => BoardCell { pos: cell.pos, material: cell.material, visible: false },
        };
        grid.cells.set(index, updated);
        index += 1;
    }
    assert(grid@.cells =~= old(grid)@.synced(board@).cells);
    proof {
        law_sync_shows_board(old(grid)@, board@);
    }
}

/// After a render sync every cell shows what the board holds at its
/// coordinate, and the cells have kept their number, order and coordinates.
pub proof fn law_sync_shows_board(grid: GridModel, board: BoardModel)
    ensures
        grid.synced(board).shows(board),
        grid.synced(board).size == grid.size,
        grid.synced(board).cells.len() == grid.cells.len(),
        forall|index: int|
            0 <= index < grid.cells.len() ==> (#[trigger] grid.synced(board).cells[index]).pos
                == grid.cells[index].pos,
        grid.wf() ==> grid.synced(board).wf(),
{
}

/// The render sync is idempotent: a second pass against the same snapshot
/// changes nothing.
pub proof fn law_sync_idempotent(grid: GridModel, board: BoardModel)
    ensures
        grid.synced(board).synced(board) == grid.synced(board),
{
    assert(grid.synced(board).synced(board).cells =~= grid.synced(board).cells);
}

/// The order in which cells are synced does not matter: each cell of the
/// result depends on that cell and the board alone.
pub proof fn law_sync_is_cellwise(grid: GridModel, board: BoardModel, index: int)
    requires
        0 <= index < grid.cells.len(),
    ensures
        grid.synced(board).cells[index] == synced_cell(
            grid.cells[index],
            board.stone_at(grid.cells[index].pos.x, grid.cells[index].pos.y),
        ),
{
}

/// A fresh grid has one cell for each coordinate of the board, at the place
/// of that coordinate, and every cell is hidden.
pub proof fn law_fresh_grid(size: u8)
    ensures
        GridModel::fresh(size).wf(),
        GridModel::fresh(size).cells.len() == size * size,
        GridModel::fresh(size).shows(BoardModel::empty(size)),
        forall|index: int|
            0 <= index < size * size ==> !(#[trigger] GridModel::fresh(size).cells[index]).visible,
        forall|x: u8, y: u8|
            x < size && y < size ==> 0 <= #[trigger] point_index(size, x, y) < size * size
                && GridModel::fresh(size).cells[point_index(size, x, y)].pos == (StonePos { x, y }),
{
    assert forall|x: u8, y: u8| x < size && y < size implies 0 <= #[trigger] point_index(
        size,
        x,
        y,
    ) < size * size && GridModel::fresh(size).cells[point_index(size, x, y)].pos == (StonePos {
        x,
        y,
    }) by {
        lemma_point_in_square(size, x, y);
    }
}

/// The square of a board dimension fits in every machine word used here.
proof fn lemma_square_bound(size: u8)
    ensures
        0 <= size * size <= 65025,
{
    assert(0 <= size * size <= 65025) by (nonlinear_arith)
        requires
            0 <= size <= 255,
    ;
}

/// A coordinate on the board has a place in the square, and that place leads
/// back to the coordinate.
proof fn lemma_point_in_square(size: u8, x: u8, y: u8)
    requires
        x < size,
        y < size,
    ensures
        0 <= point_index(size, x, y) < size * size,
        0 <= x * size <= 65025,
        position(size, point_index(size, x, y)) == (StonePos { x, y }),
{
    assert(0 <= x * size && x * size + size <= size * size && size * size <= 65025)
        by (nonlinear_arith)
        requires
            0 <= x < size <= 255,
    ;
    assert(x * size == (x as int) * (size as int));
    lemma_fundamental_div_mod_converse(point_index(size, x, y), size as int, x as int, y as int);
}

/// A place in the square leads to a coordinate on the board.
proof fn lemma_index_in_square(size: u8, index: int)
    requires
        0 <= index < size * size,
    ensures
        size > 0,
        0 <= index / (size as int) < size,
        0 <= index % (size as int) < size,
{
    if size == 0 {
        assert(size * size == 0);
    }
    let d = size as int;
    lemma_fundamental_div_mod(index, d);
    lemma_mod_bound(index, d);
    let q = index / d;
    assert(0 <= q < d) by (nonlinear_arith)
        requires
            0 <= index < d * d,
            index == d * q + index % d,
            0 <= index % d < d,
            d > 0,
    ;
}

} // verus!
