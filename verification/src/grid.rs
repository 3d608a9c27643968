//! A cubic occupancy grid for scene authoring.
//!
//! Each cell holds what stands there: nothing, a cube or a sphere.  An
//! out-of-range position is a no-op to write and empty to read.

use vstd::prelude::*;
use vstd::arithmetic::mul::{lemma_mul_nonnegative, lemma_mul_upper_bound};

verus! {

/// What one grid cell holds.
#[derive(Clone, Copy, Debug, PartialEq, Eq, Structural)]
pub enum GridObject {
    Empty,
    Cube,
    Sphere,
}

/// A `size` by `size` by `size` grid of cells, stored row-major.
pub struct Grid3D {
    size: usize,
    cells: Vec<GridObject>,
}

/// The flat index of a cell position.
pub open spec fn grid_index_spec(size: int, x: int, y: int, z: int) -> int {
    (x * size + y) * size + z
}

/// The flat index of an in-range cell position is in range for the cell
/// buffer.
proof fn lemma_grid_index(size: int, x: int, y: int, z: int)
    requires
        0 <= x < size,
        0 <= y < size,
        0 <= z < size,
        size <= 1_000,
    ensures
        0 <= x * size + y < size * size,
        size * size <= 1_000_000,
        0 <= grid_index_spec(size, x, y, z) < size * (size * size),
        size * (size * size) <= 1_000_000_000,
{
    assert(0 <= x * size + y < size * size <= 1_000_000 && 0 <= (x * size + y) * size + z < size
        * (size * size) <= 1_000_000_000) by (nonlinear_arith)
        requires
            0 <= x < size,
            0 <= y < size,
            0 <= z < size,
            size <= 1_000,
    ;
}

impl Grid3D {
    /// A grid is well-formed when it is at most a thousand cells per side and
    /// its buffer holds exactly one cell per position.
    pub closed spec fn wf(&self) -> bool {
        &&& self.size <= 1_000
        &&& self.cells@.len() == self.size * (self.size * self.size)
    }

    /// The grid's side length.
    pub closed spec fn size_spec(&self) -> int {
        self.size as int
    }

    /// Whether a position lies inside the grid.
    pub open spec fn in_bounds_spec(&self, x: int, y: int, z: int) -> bool {
        0 <= x < self.size_spec() && 0 <= y < self.size_spec() && 0 <= z < self.size_spec()
    }

    /// The cell at an in-range position.
    pub closed spec fn cell_spec(&self, x: int, y: int, z: int) -> GridObject {
        self.cells@[grid_index_spec(self.size as int, x, y, z)]
    }

    /// Build a grid with every cell empty.  The side length is capped at a
    /// thousand so that the cell count fits a 32-bit address space.
    pub fn new(size: usize) -> (g: Grid3D)
        requires
            size <= 1_000,
        ensures
            g.wf(),
            g.size_spec() == size,
            forall|x: int, y: int, z: int|
                g.in_bounds_spec(x, y, z) ==> g.cell_spec(x, y, z) == GridObject::Empty,
    {
        proof {
            lemma_mul_nonnegative(size as int, size as int);
            lemma_mul_upper_bound(size as int, 1_000, size as int, 1_000);
            lemma_mul_nonnegative(size as int, (size * size) as int);
            lemma_mul_upper_bound(size as int, 1_000, (size * size) as int, 1_000_000);
        }
        let total: usize = size * (size * size);
        let mut cells: Vec<GridObject> = Vec::new();
        let mut i: usize = 0;
        while i < total
            invariant
                i <= total,
                cells@.len() == i,
                forall|j: int| 0 <= j < i ==> cells@[j] == GridObject::Empty,
            decreases total - i,
        {
            cells.push(GridObject::Empty);
            i = i + 1;
        }
        let g = Grid3D { size, cells };
        proof {
            assert forall|x: int, y: int, z: int| g.in_bounds_spec(x, y, z) implies g.cell_spec(
                x,
                y,
                z,
            ) == GridObject::Empty by {
                lemma_grid_index(size as int, x, y, z);
            }
        }
        g
    }

    /// Put an object into a cell; a position outside the grid leaves the
    /// grid exactly as it was.
    pub fn place_object(&mut self, x: usize, y: usize, z: usize, object: GridObject)
        requires
            old(self).wf(),
        ensures
            final(self).wf(),
            final(self).size_spec() == old(self).size_spec(),
            old(self).in_bounds_spec(x as int, y as int, z as int) ==> {
                &&& final(self).cell_spec(x as int, y as int, z as int) == object
                &&& forall|a: int, b: int, c: int|
                    old(self).in_bounds_spec(a, b, c) && (a != x || b != y || c != z)
                        ==> final(self).cell_spec(a, b, c) == old(self).cell_spec(a, b, c)
            },
            !old(self).in_bounds_spec(x as int, y as int, z as int) ==> *final(self) == *old(self),
    {
        if x < self.size && y < self.size && z < self.size {
            proof {
                lemma_grid_index(self.size as int, x as int, y as int, z as int);
            }
            let i: usize = (x * self.size + y) * self.size + z;
            self.cells[i] = object;
            proof {
                assert forall|a: int, b: int, c: int|
                    old(self).in_bounds_spec(a, b, c) && (a != x || b != y || c != z) implies self
                    .cell_spec(a, b, c) == old(self).cell_spec(a, b, c) by {
                    lemma_grid_index(self.size as int, a, b, c);
                    lemma_grid_index_injective(self.size as int, a, b, c, x as int, y as int, z as int);
                }
            }
        }
    }

    /// The object at a cell; a position outside the grid reads as empty.
    pub fn get_object(&self, x: usize, y: usize, z: usize) -> (r: GridObject)
        requires
            self.wf(),
        ensures
            self.in_bounds_spec(x as int, y as int, z as int) ==> r == self.cell_spec(
                x as int,
                y as int,
                z as int,
            ),
            !self.in_bounds_spec(x as int, y as int, z as int) ==> r == GridObject::Empty,
    {
        if x < self.size && y < self.size && z < self.size {
            proof {
                lemma_grid_index(self.size as int, x as int, y as int, z as int);
            }
            let i: usize = (x * self.size + y) * self.size + z;
            self.cells[i]
        } else {
            GridObject::Empty
        }
    }

    /// The grid's side length.
    pub fn len(&self) -> (n: usize)
        ensures
            n as int == self.size_spec(),
    {
        self.size
    }
}

/// Distinct in-range positions have distinct flat indices.
proof fn lemma_grid_index_injective(size: int, a: int, b: int, c: int, x: int, y: int, z: int)
    requires
        0 <= a < size,
        0 <= b < size,
        0 <= c < size,
        0 <= x < size,
        0 <= y < size,
        0 <= z < size,
        a != x || b != y || c != z,
    ensures
        grid_index_spec(size, a, b, c) != grid_index_spec(size, x, y, z),
{
    assert((a * size + b) * size + c != (x * size + y) * size + z) by (nonlinear_arith)
        requires
            0 <= a < size,
            0 <= b < size,
            0 <= c < size,
            0 <= x < size,
            0 <= y < size,
            0 <= z < size,
            a != x || b != y || c != z,
    ;
}

} // verus!
