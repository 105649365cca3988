//! Bounded two-dimensional cell storage with toroidal neighbour-coordinate
//! arithmetic.
//!
//! Cell positions start at the top left corner. Coordinates handed to the
//! neighbour functions are always interpreted modulo their axis size: the
//! cell immediately west of column 0 is the last column, and symmetrically
//! for all four cardinal directions. Wrapping is reserved exclusively for
//! the defined neighbour semantics; an out-of-range coordinate given to any
//! accessor is rejected with an error, never wrapped.

use crate::cell::CellState;
use vstd::pervasive::VecAdditionalExecFns;
use vstd::prelude::*;

verus! {

/// The ways a grid operation can fail. Both are caller-input errors:
/// they signal a contract violation by the caller, not a runtime fault.
#[derive(Copy, Clone, Debug, PartialEq, Eq, Structural)]
pub enum GridError {
    /// construction requested a zero size or a size exceeding the
    /// reserved capacity
    InvalidDimension,
    /// an accessor or neighbour-coordinate function received a coordinate
    /// not within the grid's configured bounds
    CoordinateOutOfRange,
}

/// The wrapped coordinate one step towards zero on an axis of the given
/// size: the step before coordinate 0 is the last coordinate of the axis.
pub open spec fn wrap_dec(coord: int, size: int) -> int {
    if coord == 0 {
        size - 1
    } else {
        coord - 1
    }
}

/// The wrapped coordinate one step away from zero on an axis of the given
/// size: the step past the last coordinate of the axis is 0.
pub open spec fn wrap_inc(coord: int, size: int) -> int {
    if coord == size - 1 {
        0
    } else {
        coord + 1
    }
}

/// A rectangular toroidal surface of cells.
///
/// Constructed once with fixed dimensions and never resized; mutated only
/// through explicit set operations. The retrieval methods for the
/// different neighbours allow for the implementation of different
/// neighbourhoods (e.g. von Neumann, Moore, ...) or even arbitrary
/// functions that determine the new value of a cell from the state of the
/// whole grid.
#[derive(Clone, Debug)]
pub struct Grid {
    /// number of columns, between 1 and the reserved capacity
    horizontal_size: u8,
    /// number of rows, between 1 and the reserved capacity
    vertical_size: u8,
    /// cell states as one flat allocation of exactly
    /// `horizontal_size * vertical_size` cells, addressed by
    /// `h + v * horizontal_size`
    cells: Vec<CellState>,
}

impl Grid {
    /// The configured number of columns.
    pub closed spec fn hsize(self) -> int {
        self.horizontal_size as int
    }

    /// The configured number of rows.
    pub closed spec fn vsize(self) -> int {
        self.vertical_size as int
    }

    /// Well-formedness: both dimensions are at least 1 and the storage
    /// holds exactly one state per cell. Constructors establish this and
    /// every method preserves it.
    pub closed spec fn wf(self) -> bool {
        &&& 1 <= self.horizontal_size
        &&& 1 <= self.vertical_size
        &&& self.cells.len() == self.hsize() * self.vsize()
    }

    /// Whether (h, v) lies within the configured bounds.
    pub open spec fn in_bounds(self, h: int, v: int) -> bool {
        &&& 0 <= h < self.hsize()
        &&& 0 <= v < self.vsize()
    }

    /// The state of the cell at (h, v).
    pub closed spec fn cell(self, h: int, v: int) -> CellState
        recommends
            self.wf(),
            self.in_bounds(h, v),
    {
        self.cells@[h + v * self.hsize()]
    }

    /// The coordinate one step north of (h, v), wrapping at the edge.
    pub open spec fn spec_north(self, h: int, v: int) -> (int, int) {
        (h, wrap_dec(v, self.vsize()))
    }

    /// The coordinate one step south of (h, v), wrapping at the edge.
    pub open spec fn spec_south(self, h: int, v: int) -> (int, int) {
        (h, wrap_inc(v, self.vsize()))
    }

    /// The coordinate one step east of (h, v), wrapping at the edge.
    pub open spec fn spec_east(self, h: int, v: int) -> (int, int) {
        (wrap_inc(h, self.hsize()), v)
    }

    /// The coordinate one step west of (h, v), wrapping at the edge.
    pub open spec fn spec_west(self, h: int, v: int) -> (int, int) {
        (wrap_dec(h, self.hsize()), v)
    }

    /// North-east, defined compositionally as north of east, so that
    /// diagonal wrap is always consistent with the cardinal wrap rules.
    pub open spec fn spec_northeast(self, h: int, v: int) -> (int, int) {
        self.spec_north(self.spec_east(h, v).0, self.spec_east(h, v).1)
    }

    /// South-east, defined compositionally as south of east.
    pub open spec fn spec_southeast(self, h: int, v: int) -> (int, int) {
        self.spec_south(self.spec_east(h, v).0, self.spec_east(h, v).1)
    }

    /// South-west, defined compositionally as south of west.
    pub open spec fn spec_southwest(self, h: int, v: int) -> (int, int) {
        self.spec_south(self.spec_west(h, v).0, self.spec_west(h, v).1)
    }

    /// North-west, defined compositionally as north of west.
    pub open spec fn spec_northwest(self, h: int, v: int) -> (int, int) {
        self.spec_north(self.spec_west(h, v).0, self.spec_west(h, v).1)
    }

    /// Create a new grid with the given dimensions, every cell dead.
    ///
    /// Fails with `InvalidDimension` if either size is 0. Sizes are `u8`,
    /// so a requested size can never exceed the reserved capacity of 255
    /// cells per axis.
    pub fn new(h_size: u8, v_size: u8) -> (result: Result<Grid, GridError>)
        ensures
            result is Ok <==> (h_size != 0 && v_size != 0),
            result matches Err(e) ==> e == GridError::InvalidDimension,
            result matches Ok(g) ==> {
                &&& g.wf()
                &&& g.hsize() == h_size as int
                &&& g.vsize() == v_size as int
                &&& forall|h: int, v: int|
                    g.in_bounds(h, v) ==> #[trigger] g.cell(h, v) == CellState::Dead
            },
    {
        if h_size == 0 {
            return Err(GridError::InvalidDimension);
        }
        if v_size == 0 {
            return Err(GridError::InvalidDimension);
        }
        proof {
            assert((h_size as int) * (v_size as int) <= 255 * 255) by (nonlinear_arith)
                requires
                    h_size as int <= 255,
                    v_size as int <= 255,
            ;
        }
        let total: usize = (h_size as usize) * (v_size as usize);
        let mut cells: Vec<CellState> = Vec::new();
        while cells.len() < total
            invariant
                cells.len() <= total,
                forall|i: int| 0 <= i < cells.len() ==> cells@[i] == CellState::Dead,
            decreases total - cells.len(),
        {
            cells.push(CellState::Dead);
        }
        let grid = Grid { horizontal_size: h_size, vertical_size: v_size, cells };
        proof {
            assert forall|h: int, v: int| grid.in_bounds(h, v) implies #[trigger] grid.cell(h, v)
                == CellState::Dead by {
                lemma_flat_index_in_bounds(h, v, grid.hsize(), grid.vsize());
            }
        }
        Ok(grid)
    }

    /// Get the number of columns (i.e. horizontal size).
    pub fn get_horizontal_size(&self) -> (size: u8)
        ensures
            size as int == self.hsize(),
    {
        self.horizontal_size
    }

    /// Get the number of rows (i.e. vertical size).
    pub fn get_vertical_size(&self) -> (size: u8)
        ensures
            size as int == self.vsize(),
    {
        self.vertical_size
    }

    /// The state at (h, v), for callers that have already established
    /// that the coordinate is in bounds.
    pub(crate) fn cell_value(&self, h: u8, v: u8) -> (state: CellState)
        requires
            self.wf(),
            self.in_bounds(h as int, v as int),
        ensures
            state == self.cell(h as int, v as int),
    {
        proof {
            lemma_flat_index_in_bounds(h as int, v as int, self.hsize(), self.vsize());
        }
        let idx: usize = (h as usize) + (v as usize) * (self.horizontal_size as usize);
        self.cells[idx]
    }

    /// Replace the state at (h, v), for callers that have already
    /// established that the coordinate is in bounds.
    pub(crate) fn write_cell(&mut self, h: u8, v: u8, state: CellState)
        requires
            old(self).wf(),
            old(self).in_bounds(h as int, v as int),
        ensures
            final(self).wf(),
            final(self).hsize() == old(self).hsize(),
            final(self).vsize() == old(self).vsize(),
            final(self).cell(h as int, v as int) == state,
            forall|h2: int, v2: int|
                old(self).in_bounds(h2, v2) && !(h2 == h as int && v2 == v as int)
                    ==> #[trigger] final(self).cell(h2, v2) == old(self).cell(h2, v2),
    {
        proof {
            lemma_flat_index_in_bounds(h as int, v as int, self.hsize(), self.vsize());
        }
        let idx: usize = (h as usize) + (v as usize) * (self.horizontal_size as usize);
        self.cells.set(idx, state);
        proof {
            assert forall|h2: int, v2: int|
                old(self).in_bounds(h2, v2) && !(h2 == h as int && v2 == v as int)
                    implies #[trigger] self.cell(h2, v2) == old(self).cell(h2, v2) by {
                lemma_flat_index_in_bounds(h2, v2, self.hsize(), self.vsize());
                if h2 + v2 * self.hsize() == h as int + (v as int) * self.hsize() {
                    lemma_flat_index_injective(h as int, v as int, h2, v2, self.hsize());
                }
            }
        }
    }

    /// Retrieve the cell state at (h, v).
    ///
    /// Fails with `CoordinateOutOfRange` if `h` or `v` lies outside the
    /// configured bounds. No side effects.
    pub fn get_cellstate(&self, h: u8, v: u8) -> (result: Result<CellState, GridError>)
        requires
            self.wf(),
        ensures
            result is Ok <==> self.in_bounds(h as int, v as int),
            result matches Ok(state) ==> state == self.cell(h as int, v as int),
            result matches Err(e) ==> e == GridError::CoordinateOutOfRange,
    {
        if h >= self.horizontal_size {
            return Err(GridError::CoordinateOutOfRange);
        }
        if v >= self.vertical_size {
            return Err(GridError::CoordinateOutOfRange);
        }
        Ok(self.cell_value(h, v))
    }

    /// Retrieve the cell state using a coordinate tuple; behaviourally
    /// identical to [`Grid::get_cellstate`].
    pub fn get_cellstate_hv(&self, hv: (u8, u8)) -> (result: Result<CellState, GridError>)
        requires
            self.wf(),
        ensures
            result is Ok <==> self.in_bounds(hv.0 as int, hv.1 as int),
            result matches Ok(state) ==> state == self.cell(hv.0 as int, hv.1 as int),
            result matches Err(e) ==> e == GridError::CoordinateOutOfRange,
    {
        self.get_cellstate(hv.0, hv.1)
    }

    /// Set the cell state at (h, v).
    ///
    /// Fails with `CoordinateOutOfRange` if `h` or `v` lies outside the
    /// configured bounds, leaving the grid unchanged. On success exactly
    /// the one addressed cell is replaced.
    pub fn set_cellstate(&mut self, h: u8, v: u8, state: CellState) -> (result: Result<
        (),
        GridError,
    >)
        requires
            old(self).wf(),
        ensures
            final(self).wf(),
            final(self).hsize() == old(self).hsize(),
            final(self).vsize() == old(self).vsize(),
            result is Ok <==> old(self).in_bounds(h as int, v as int),
            result matches Err(e) ==> e == GridError::CoordinateOutOfRange && *final(self) == *old(self),
            result is Ok ==> final(self).cell(h as int, v as int) == state,
            forall|h2: int, v2: int|
                old(self).in_bounds(h2, v2) && !(h2 == h as int && v2 == v as int)
                    ==> #[trigger] final(self).cell(h2, v2) == old(self).cell(h2, v2),
    {
        if h >= self.horizontal_size {
            return Err(GridError::CoordinateOutOfRange);
        }
        if v >= self.vertical_size {
            return Err(GridError::CoordinateOutOfRange);
        }
        self.write_cell(h, v, state);
        Ok(())
    }

    /// Set the cell state using a coordinate tuple; behaviourally
    /// identical to [`Grid::set_cellstate`].
    pub fn set_cellstate_hv(&mut self, hv: (u8, u8), state: CellState) -> (result: Result<
        (),
        GridError,
    >)
        requires
            old(self).wf(),
        ensures
            final(self).wf(),
            final(self).hsize() == old(self).hsize(),
            final(self).vsize() == old(self).vsize(),
            result is Ok <==> old(self).in_bounds(hv.0 as int, hv.1 as int),
            result matches Err(e) ==> e == GridError::CoordinateOutOfRange && *final(self) == *old(self),
            result is Ok ==> final(self).cell(hv.0 as int, hv.1 as int) == state,
            forall|h2: int, v2: int|
                old(self).in_bounds(h2, v2) && !(h2 == hv.0 as int && v2 == hv.1 as int)
                    ==> #[trigger] final(self).cell(h2, v2) == old(self).cell(h2, v2),
    {
        self.set_cellstate(hv.0, hv.1, state)
    }

    /// Get the coordinates of the "northern" cell relative to the given
    /// grid coordinates, wrapping from row 0 to the last row.
    ///
    /// Fails with `CoordinateOutOfRange` if the input coordinate lies
    /// outside the configured bounds.
    pub fn get_north_coordinate(&self, h: u8, v: u8) -> (result: Result<(u8, u8), GridError>)
        ensures
            result is Ok <==> self.in_bounds(h as int, v as int),
            result matches Ok(c) ==> (c.0 as int, c.1 as int) == self.spec_north(h as int, v as int),
            result matches Err(e) ==> e == GridError::CoordinateOutOfRange,
    {
        if h >= self.horizontal_size {
            return Err(GridError::CoordinateOutOfRange);
        }
        if v >= self.vertical_size {
            return Err(GridError::CoordinateOutOfRange);
        }
        if v == 0 {
            return Ok((h, self.vertical_size - 1));
        }
        Ok((h, v - 1))
    }

    /// Get the coordinates of the "northern" cell using a coordinate
    /// tuple; behaviourally identical to [`Grid::get_north_coordinate`].
    pub fn get_north_coordinate_hv(&self, hv: (u8, u8)) -> (result: Result<(u8, u8), GridError>)
        ensures
            result is Ok <==> self.in_bounds(hv.0 as int, hv.1 as int),
            result matches Ok(c) ==> (c.0 as int, c.1 as int) == self.spec_north(
                hv.0 as int,
                hv.1 as int,
            ),
            result matches Err(e) ==> e == GridError::CoordinateOutOfRange,
    {
        self.get_north_coordinate(hv.0, hv.1)
    }

    /// Get the coordinates of the "southern" cell relative to the given
    /// grid coordinates, wrapping from the last row to row 0.
    ///
    /// Fails with `CoordinateOutOfRange` if the input coordinate lies
    /// outside the configured bounds.
    pub fn get_south_coordinate(&self, h: u8, v: u8) -> (result: Result<(u8, u8), GridError>)
        ensures
            result is Ok <==> self.in_bounds(h as int, v as int),
            result matches Ok(c) ==> (c.0 as int, c.1 as int) == self.spec_south(h as int, v as int),
            result matches Err(e) ==> e == GridError::CoordinateOutOfRange,
    {
        if h >= self.horizontal_size {
            return Err(GridError::CoordinateOutOfRange);
        }
        if v >= self.vertical_size {
            return Err(GridError::CoordinateOutOfRange);
        }
        if v == self.vertical_size - 1 {
            return Ok((h, 0));
        }
        Ok((h, v + 1))
    }

    /// Get the coordinates of the "southern" cell using a coordinate
    /// tuple; behaviourally identical to [`Grid::get_south_coordinate`].
    pub fn get_south_coordinate_hv(&self, hv: (u8, u8)) -> (result: Result<(u8, u8), GridError>)
        ensures
            result is Ok <==> self.in_bounds(hv.0 as int, hv.1 as int),
            result matches Ok(c) ==> (c.0 as int, c.1 as int) == self.spec_south(
                hv.0 as int,
                hv.1 as int,
            ),
            result matches Err(e) ==> e == GridError::CoordinateOutOfRange,
    {
        self.get_south_coordinate(hv.0, hv.1)
    }

    /// Get the coordinates of the "eastern" cell relative to the given
    /// grid coordinates, wrapping from the last column to column 0.
    ///
    /// Fails with `CoordinateOutOfRange` if the input coordinate lies
    /// outside the configured bounds.
    pub fn get_east_coordinate(&self, h: u8, v: u8) -> (result: Result<(u8, u8), GridError>)
        ensures
            result is Ok <==> self.in_bounds(h as int, v as int),
            result matches Ok(c) ==> (c.0 as int, c.1 as int) == self.spec_east(h as int, v as int),
            result matches Err(e) ==> e == GridError::CoordinateOutOfRange,
    {
        if h >= self.horizontal_size {
            return Err(GridError::CoordinateOutOfRange);
        }
        if v >= self.vertical_size {
            return Err(GridError::CoordinateOutOfRange);
        }
        if h == self.horizontal_size - 1 {
            return Ok((0, v));
        }
        Ok((h + 1, v))
    }

    /// Get the coordinates of the "eastern" cell using a coordinate
    /// tuple; behaviourally identical to [`Grid::get_east_coordinate`].
    pub fn get_east_coordinate_hv(&self, hv: (u8, u8)) -> (result: Result<(u8, u8), GridError>)
        ensures
            result is Ok <==> self.in_bounds(hv.0 as int, hv.1 as int),
            result matches Ok(c) ==> (c.0 as int, c.1 as int) == self.spec_east(
                hv.0 as int,
                hv.1 as int,
            ),
            result matches Err(e) ==> e == GridError::CoordinateOutOfRange,
    {
        self.get_east_coordinate(hv.0, hv.1)
    }

    /// Get the coordinates of the "western" cell relative to the given
    /// grid coordinates, wrapping from column 0 to the last column.
    ///
    /// Fails with `CoordinateOutOfRange` if the input coordinate lies
    /// outside the configured bounds.
    pub fn get_west_coordinate(&self, h: u8, v: u8) -> (result: Result<(u8, u8), GridError>)
        ensures
            result is Ok <==> self.in_bounds(h as int, v as int),
            result matches Ok(c) ==> (c.0 as int, c.1 as int) == self.spec_west(h as int, v as int),
            result matches Err(e) ==> e == GridError::CoordinateOutOfRange,
    {
        if h >= self.horizontal_size {
            return Err(GridError::CoordinateOutOfRange);
        }
        if v >= self.vertical_size {
            return Err(GridError::CoordinateOutOfRange);
        }
        if h == 0 {
            return Ok((self.horizontal_size - 1, v));
        }
        Ok((h - 1, v))
    }

    /// Get the coordinates of the "western" cell using a coordinate
    /// tuple; behaviourally identical to [`Grid::get_west_coordinate`].
    pub fn get_west_coordinate_hv(&self, hv: (u8, u8)) -> (result: Result<(u8, u8), GridError>)
        ensures
            result is Ok <==> self.in_bounds(hv.0 as int, hv.1 as int),
            result matches Ok(c) ==> (c.0 as int, c.1 as int) == self.spec_west(
                hv.0 as int,
                hv.1 as int,
            ),
            result matches Err(e) ==> e == GridError::CoordinateOutOfRange,
    {
        self.get_west_coordinate(hv.0, hv.1)
    }

    /// Get the coordinates of the "north eastern" cell, defined as north
    /// of east so that diagonal wrap is always consistent with the
    /// cardinal wrap rules, including at grid corners.
    pub fn get_northeast_coordinate(&self, h: u8, v: u8) -> (result: Result<(u8, u8), GridError>)
        ensures
            result is Ok <==> self.in_bounds(h as int, v as int),
            result matches Ok(c) ==> (c.0 as int, c.1 as int) == self.spec_northeast(
                h as int,
                v as int,
            ),
            result matches Err(e) ==> e == GridError::CoordinateOutOfRange,
    {
        match self.get_east_coordinate(h, v) {
            Ok(east) => self.get_north_coordinate_hv(east),
            Err(e) => Err(e),
        }
    }

    /// Get the coordinates of the "north eastern" cell using a coordinate
    /// tuple; behaviourally identical to
    /// [`Grid::get_northeast_coordinate`].
    pub fn get_northeast_coordinate_hv(&self, hv: (u8, u8)) -> (result: Result<
        (u8, u8),
        GridError,
    >)
        ensures
            result is Ok <==> self.in_bounds(hv.0 as int, hv.1 as int),
            result matches Ok(c) ==> (c.0 as int, c.1 as int) == self.spec_northeast(
                hv.0 as int,
                hv.1 as int,
            ),
            result matches Err(e) ==> e == GridError::CoordinateOutOfRange,
    {
        self.get_northeast_coordinate(hv.0, hv.1)
    }

    /// Get the coordinates of the "south eastern" cell, defined as south
    /// of east so that diagonal wrap is always consistent with the
    /// cardinal wrap rules, including at grid corners.
    pub fn get_southeast_coordinate(&self, h: u8, v: u8) -> (result: Result<(u8, u8), GridError>)
        ensures
            result is Ok <==> self.in_bounds(h as int, v as int),
            result matches Ok(c) ==> (c.0 as int, c.1 as int) == self.spec_southeast(
                h as int,
                v as int,
            ),
            result matches Err(e) ==> e == GridError::CoordinateOutOfRange,
    {
        match self.get_east_coordinate(h, v) {
            Ok(east) => self.get_south_coordinate_hv(east),
            Err(e) => Err(e),
        }
    }

    /// Get the coordinates of the "south eastern" cell using a coordinate
    /// tuple; behaviourally identical to
    /// [`Grid::get_southeast_coordinate`].
    pub fn get_southeast_coordinate_hv(&self, hv: (u8, u8)) -> (result: Result<
        (u8, u8),
        GridError,
    >)
        ensures
            result is Ok <==> self.in_bounds(hv.0 as int, hv.1 as int),
            result matches Ok(c) ==> (c.0 as int, c.1 as int) == self.spec_southeast(
                hv.0 as int,
                hv.1 as int,
            ),
            result matches Err(e) ==> e == GridError::CoordinateOutOfRange,
    {
        self.get_southeast_coordinate(hv.0, hv.1)
    }

    /// Get the coordinates of the "south western" cell, defined as south
    /// of west so that diagonal wrap is always consistent with the
    /// cardinal wrap rules, including at grid corners.
    pub fn get_southwest_coordinate(&self, h: u8, v: u8) -> (result: Result<(u8, u8), GridError>)
        ensures
            result is Ok <==> self.in_bounds(h as int, v as int),
            result matches Ok(c) ==> (c.0 as int, c.1 as int) == self.spec_southwest(
                h as int,
                v as int,
            ),
            result matches Err(e) ==> e == GridError::CoordinateOutOfRange,
    {
        match self.get_west_coordinate(h, v) {
            Ok(west) => self.get_south_coordinate_hv(west),
            Err(e) => Err(e),
        }
    }

    /// Get the coordinates of the "south western" cell using a coordinate
    /// tuple; behaviourally identical to
    /// [`Grid::get_southwest_coordinate`].
    pub fn get_southwest_coordinate_hv(&self, hv: (u8, u8)) -> (result: Result<
        (u8, u8),
        GridError,
    >)
        ensures
            result is Ok <==> self.in_bounds(hv.0 as int, hv.1 as int),
            result matches Ok(c) ==> (c.0 as int, c.1 as int) == self.spec_southwest(
                hv.0 as int,
                hv.1 as int,
            ),
            result matches Err(e) ==> e == GridError::CoordinateOutOfRange,
    {
        self.get_southwest_coordinate(hv.0, hv.1)
    }

    /// Get the coordinates of the "north western" cell, defined as north
    /// of west so that diagonal wrap is always consistent with the
    /// cardinal wrap rules, including at grid corners.
    pub fn get_northwest_coordinate(&self, h: u8, v: u8) -> (result: Result<(u8, u8), GridError>)
        ensures
            result is Ok <==> self.in_bounds(h as int, v as int),
            result matches Ok(c) ==> (c.0 as int, c.1 as int) == self.spec_northwest(
                h as int,
                v as int,
            ),
            result matches Err(e) ==> e == GridError::CoordinateOutOfRange,
    {
        match self.get_west_coordinate(h, v) {
            Ok(west) => self.get_north_coordinate_hv(west),
            Err(e) => Err(e),
        }
    }

    /// Get the coordinates of the "north western" cell using a coordinate
    /// tuple; behaviourally identical to
    /// [`Grid::get_northwest_coordinate`].
    pub fn get_northwest_coordinate_hv(&self, hv: (u8, u8)) -> (result: Result<
        (u8, u8),
        GridError,
    >)
        ensures
            result is Ok <==> self.in_bounds(hv.0 as int, hv.1 as int),
            result matches Ok(c) ==> (c.0 as int, c.1 as int) == self.spec_northwest(
                hv.0 as int,
                hv.1 as int,
            ),
            result matches Err(e) ==> e == GridError::CoordinateOutOfRange,
    {
        self.get_northwest_coordinate(hv.0, hv.1)
    }
}

/// The flat storage index of an in-bounds coordinate lies within a
/// storage of exactly `hsize * vsize` cells.
proof fn lemma_flat_index_in_bounds(h: int, v: int, hsize: int, vsize: int)
    by (nonlinear_arith)
    requires
        0 <= h < hsize,
        0 <= v < vsize,
    ensures
        0 <= h + v * hsize < hsize * vsize,
{
}

/// Distinct in-bounds coordinates have distinct flat storage indices.
proof fn lemma_flat_index_injective(h1: int, v1: int, h2: int, v2: int, hsize: int)
    by (nonlinear_arith)
    requires
        0 <= h1 < hsize,
        0 <= h2 < hsize,
        0 <= v1,
        0 <= v2,
        h1 + v1 * hsize == h2 + v2 * hsize,
    ensures
        h1 == h2,
        v1 == v2,
{
}

/// A well-formed grid has at least one column and one row, and at most
/// the reserved capacity of 255 of each.
pub broadcast proof fn lemma_wf_dimension_bounds(g: Grid)
    requires
        #[trigger] g.wf(),
    ensures
        1 <= g.hsize() <= 255,
        1 <= g.vsize() <= 255,
{
}

/// Each cardinal wrap-around step is undone by the opposite step: for
/// every valid coordinate, stepping east then west, west then east, south
/// then north, or north then south returns to the starting coordinate.
pub proof fn lemma_step_round_trip(g: Grid, h: int, v: int)
    requires
        g.wf(),
        g.in_bounds(h, v),
    ensures
        g.spec_west(g.spec_east(h, v).0, g.spec_east(h, v).1) == (h, v),
        g.spec_east(g.spec_west(h, v).0, g.spec_west(h, v).1) == (h, v),
        g.spec_north(g.spec_south(h, v).0, g.spec_south(h, v).1) == (h, v),
        g.spec_south(g.spec_north(h, v).0, g.spec_north(h, v).1) == (h, v),
{
}

/// On each axis one step either moves the coordinate by one or wraps,
/// and exactly one of the two happens: the step east of a valid coordinate
/// is h + 1 exactly when h is not the last column and 0 exactly when it
/// is; one step west of column 0 is the last column. The vertical axis
/// behaves symmetrically under south and north.
pub proof fn lemma_step_edge_wrap(g: Grid, h: int, v: int)
    requires
        g.wf(),
        g.in_bounds(h, v),
    ensures
        (g.spec_east(h, v).0 == h + 1) <==> h != g.hsize() - 1,
        (g.spec_east(h, v).0 == 0) <==> h == g.hsize() - 1,
        g.spec_west(0, v) == (g.hsize() - 1, v),
        (g.spec_south(h, v).1 == v + 1) <==> v != g.vsize() - 1,
        (g.spec_south(h, v).1 == 0) <==> v == g.vsize() - 1,
        g.spec_north(h, 0) == (h, g.vsize() - 1),
{
}

/// Each diagonal neighbour coordinate is the composition of its two
/// cardinal steps: north-east is north of east, and similarly for the
/// other three diagonals, so diagonal wrap always agrees with the cardinal
/// wrap rules, including at grid corners where both axes wrap at once.
pub proof fn lemma_diagonal_composition(g: Grid, h: int, v: int)
    requires
        g.wf(),
        g.in_bounds(h, v),
    ensures
        g.spec_northeast(h, v) == g.spec_north(g.spec_east(h, v).0, g.spec_east(h, v).1),
        g.spec_southeast(h, v) == g.spec_south(g.spec_east(h, v).0, g.spec_east(h, v).1),
        g.spec_southwest(h, v) == g.spec_south(g.spec_west(h, v).0, g.spec_west(h, v).1),
        g.spec_northwest(h, v) == g.spec_north(g.spec_west(h, v).0, g.spec_west(h, v).1),
{
}

/// Whether two grids have the same dimensions and the same state in every
/// cell: everything that can be observed of a grid.
pub open spec fn same_contents(a: Grid, b: Grid) -> bool {
    &&& a.hsize() == b.hsize()
    &&& a.vsize() == b.vsize()
    &&& forall|h: int, v: int| a.in_bounds(h, v) ==> #[trigger] a.cell(h, v) == b.cell(h, v)
}

} // verus!
