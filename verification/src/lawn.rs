//! The lawn: the single zombie lane (row 0), six elevated planting cells
//! (rows 2 and 3, at the lane's two ends), the shooters' row below the lane
//! (row -2), and which cell holds which plant.

use std::collections::HashMap;

use vstd::prelude::*;

verus! {

broadcast use vstd::std_specs::hash::group_hash_axioms;

/// Number of lawn columns of the default layout.
pub const LAWN_COLUMNS: u8 = 12;

/// The first of the two rows of elevated cells.
pub const FIRST_AIR_ROW: i8 = 2;

/// The second of the two rows of elevated cells.
pub const SECOND_AIR_ROW: i8 = 3;

/// The shooters' row, below the lane. Its peas fly left and come back in
/// from the lane's left end.
pub const SHOOTER_ROW: i8 = -2;

/// Whether `row` is one of the two rows of elevated cells.
pub open spec fn is_air_row(row: i8) -> bool {
    row == FIRST_AIR_ROW || row == SECOND_AIR_ROW
}

/// A planting cell: its column, and its row (0 is the lane, 2 and 3 hold the
/// elevated cells, -2 is the shooters' row; rows 1 and -1 are left empty on
/// purpose).
#[derive(Clone, Copy, Debug, PartialEq, Eq, Hash, Structural)]
pub struct GridCell {
    pub column: u8,
    pub row: i8,
}

impl GridCell {
    /// Whether the cell lies on the zombies' lane.
    pub fn is_ground(self) -> (r: bool)
        ensures
            r == (self.row == 0),
    {
        self.row == 0
    }

    /// Whether the cell lies in a row of elevated cells.
    pub fn is_elevated(self) -> (r: bool)
        ensures
            r == is_air_row(self.row),
    {
        self.row == FIRST_AIR_ROW || self.row == SECOND_AIR_ROW
    }

    /// Whether the cell lies in the shooters' row.
    pub fn is_shooter_row(self) -> (r: bool)
        ensures
            r == (self.row == SHOOTER_ROW),
    {
        self.row == SHOOTER_ROW
    }
}

/// The grid part of the lawn layout: how many columns the lane has. (The
/// cell size and the lawn's position in the world are floating point and live
/// with the renderer.)
#[derive(Clone, Copy, Debug, PartialEq, Eq, Structural)]
pub struct LawnLayout {
    pub columns: u8,
}

/// Whether the layout has the cell: any lane or shooters' row cell of an
/// existing column, and in the elevated rows only the first column and the
/// last two columns.
pub open spec fn layout_contains(columns: u8, cell: GridCell) -> bool {
    if cell.column >= columns {
        false
    } else if cell.row == 0 || cell.row == SHOOTER_ROW {
        true
    } else {
        is_air_row(cell.row) && (cell.column == 0 || cell.column + 2 >= columns)
    }
}

impl Default for LawnLayout {
    /// The default layout, with `LAWN_COLUMNS` columns.
    fn default() -> (r: LawnLayout)
        ensures
            r.columns == LAWN_COLUMNS,
    {
        LawnLayout { columns: LAWN_COLUMNS }
    }
}

impl LawnLayout {
    /// Whether the cell belongs to the lane, the shooters' row or the six
    /// elevated cells.
    pub fn contains(&self, cell: GridCell) -> (r: bool)
        ensures
            r == layout_contains(self.columns, cell),
    {
        if cell.column >= self.columns {
            return false;
        }
        if cell.row == 0 || cell.row == SHOOTER_ROW {
            return true;
        }
        (cell.row == FIRST_AIR_ROW || cell.row == SECOND_AIR_ROW) && (cell.column == 0
            || cell.column.saturating_add(2) >= self.columns)
    }

    /// The cell at the given column and row, if the layout has it. (The
    /// column and row are those of a world position, floored.)
    pub fn cell_at(&self, column: u8, row: i8) -> (r: Option<GridCell>)
        ensures
            r == (if layout_contains(self.columns, GridCell { column, row }) {
                Some(GridCell { column, row })
            } else {
                None
            }),
    {
        let cell = GridCell { column, row };
        if self.contains(cell) {
            Some(cell)
        } else {
            None
        }
    }

    /// The elevated cells that are drawn, in drawing order: columns `0`,
    /// `columns - 2` and `columns - 1` (saturating at 0), each for both
    /// elevated rows, where the layout has the cell.
    pub fn air_cells(&self) -> (r: Vec<GridCell>)
        ensures
            r@ == air_cells_of(self.columns),
    {
        let columns = [0u8, self.columns.saturating_sub(2), self.columns.saturating_sub(1)];
        let rows = [FIRST_AIR_ROW, SECOND_AIR_ROW];
        let mut r: Vec<GridCell> = Vec::new();
        let mut i: usize = 0;
        while i < 3
            invariant
                i <= 3,
                columns@ == air_columns(self.columns),
                rows@ == seq![FIRST_AIR_ROW, SECOND_AIR_ROW],
                r@ == air_cells_upto(self.columns, i as int, 0),
            decreases 3 - i,
        {
            let mut j: usize = 0;
            while j < 2
                invariant
                    i < 3,
                    j <= 2,
                    columns@ == air_columns(self.columns),
                    rows@ == seq![FIRST_AIR_ROW, SECOND_AIR_ROW],
                    r@ == air_cells_upto(self.columns, i as int, j as int),
                decreases 2 - j,
            {
                let cell = GridCell { column: columns[i], row: rows[j] };
                if self.contains(cell) {
                    r.push(cell);
                }
                j = j + 1;
            }
            assert(air_cells_upto(self.columns, i as int + 1, 0) == air_cells_upto(self.columns, i as int, 2));
            i = i + 1;
        }
        r
    }
}

/// The three columns whose elevated cells are drawn.
pub open spec fn air_columns(columns: u8) -> Seq<u8> {
    seq![
        0u8,
        if columns >= 2 { (columns - 2) as u8 } else { 0u8 },
        if columns >= 1 { (columns - 1) as u8 } else { 0u8 },
    ]
}

/// The drawn elevated cells of the first `i` columns and, of column `i`, the
/// first `j` rows.
pub open spec fn air_cells_upto(columns: u8, i: int, j: int) -> Seq<GridCell>
    decreases i, j,
{
    if j > 0 {
        let row = if j == 1 { FIRST_AIR_ROW } else { SECOND_AIR_ROW };
        let cell = GridCell { column: air_columns(columns)[i], row };
        let before = air_cells_upto(columns, i, j - 1);
        if layout_contains(columns, cell) {
            before.push(cell)
        } else {
            before
        }
    } else if i > 0 {
        air_cells_upto(columns, i - 1, 2)
    } else {
        Seq::empty()
    }
}

/// All the drawn elevated cells.
pub open spec fn air_cells_of(columns: u8) -> Seq<GridCell> {
    air_cells_upto(columns, 3, 0)
}

/// The key of a cell in the occupancy table.
pub open spec fn cell_key(cell: GridCell) -> u16 {
    (cell.column * 256 + (cell.row + 128)) as u16
}

fn cell_key_exec(cell: GridCell) -> (r: u16)
    ensures
        r == cell_key(cell),
{
    let row: u16 = (cell.row as i16 + 128) as u16;
    cell.column as u16 * 256 + row
}

proof fn lemma_cell_key_injective(a: GridCell, b: GridCell)
    ensures
        cell_key(a) == cell_key(b) ==> a == b,
{
}

/// Which entity occupies which cell. Entities are given by their bits.
#[derive(Debug)]
pub struct CellOccupancy {
    cells: HashMap<u16, u64>,
}

impl View for CellOccupancy {
    type V = Map<GridCell, u64>;

    /// The occupant of each occupied cell.
    closed spec fn view(&self) -> Map<GridCell, u64> {
        Map::new(
            |cell: GridCell| self.cells@.contains_key(cell_key(cell)),
            |cell: GridCell| self.cells@[cell_key(cell)],
        )
    }
}

impl CellOccupancy {
    /// No cell is occupied.
    pub fn new() -> (r: CellOccupancy)
        ensures
            r@ == Map::<GridCell, u64>::empty(),
    {
        let r = CellOccupancy { cells: HashMap::new() };
        assert(r@ =~= Map::<GridCell, u64>::empty());
        r
    }

    /// Whether the cell is on the lawn and free.
    pub fn is_available(&self, cell: GridCell, layout: &LawnLayout) -> (r: bool)
        ensures
            r == (layout_contains(layout.columns, cell) && !self@.contains_key(cell)),
    {
        layout.contains(cell) && !self.cells.contains_key(&cell_key_exec(cell))
    }

    /// The entity on the cell, if any.
    pub fn occupant(&self, cell: GridCell) -> (r: Option<u64>)
        ensures
            r == (if self@.contains_key(cell) {
                Some(self@[cell])
            } else {
                None
            }),
    {
        match self.cells.get(&cell_key_exec(cell)) {
            Some(entity) => Some(*entity),
            None => None,
        }
    }

    /// Records that `entity` occupies the cell (replacing any earlier occupant).
    pub fn insert(&mut self, cell: GridCell, entity: u64)
        ensures
            final(self)@ == old(self)@.insert(cell, entity),
    {
        let key = cell_key_exec(cell);
        self.cells.insert(key, entity);
        proof {
            assert forall|c: GridCell| #[trigger] final(self)@.contains_key(c) == old(self)@.insert(cell, entity).contains_key(c) by {
                lemma_cell_key_injective(c, cell);
            }
            assert forall|c: GridCell| final(self)@.contains_key(c) implies #[trigger] final(self)@[c] == old(self)@.insert(cell, entity)[c] by {
                lemma_cell_key_injective(c, cell);
            }
            assert(final(self)@ =~= old(self)@.insert(cell, entity));
        }
    }

    /// Frees the cell.
    pub fn remove(&mut self, cell: GridCell)
        ensures
            final(self)@ == old(self)@.remove(cell),
    {
        let key = cell_key_exec(cell);
        self.cells.remove(&key);
        proof {
            assert forall|c: GridCell| #[trigger] final(self)@.contains_key(c) == old(self)@.remove(cell).contains_key(c) by {
                lemma_cell_key_injective(c, cell);
            }
            assert(final(self)@ =~= old(self)@.remove(cell));
        }
    }

    /// Frees every cell.
    pub fn clear(&mut self)
        ensures
            final(self)@ == Map::<GridCell, u64>::empty(),
    {
        self.cells.clear();
        assert(self@ =~= Map::<GridCell, u64>::empty());
    }
}

/// A free cell on the lawn becomes unavailable once a plant occupies it, and
/// becomes available again once it is freed; no other cell changes.
pub proof fn law_occupy_then_free(occupancy: Map<GridCell, u64>, layout: LawnLayout, cell: GridCell, other: GridCell, entity: u64)
    requires
        other != cell,
    ensures
        !(layout_contains(layout.columns, cell) && !occupancy.insert(cell, entity).contains_key(cell)),
        layout_contains(layout.columns, cell) ==> !occupancy.insert(cell, entity).remove(cell).contains_key(cell),
        occupancy.insert(cell, entity).contains_key(other) == occupancy.contains_key(other),
        occupancy.insert(cell, entity).remove(cell).contains_key(other) == occupancy.contains_key(other),
{
}

} // verus!
