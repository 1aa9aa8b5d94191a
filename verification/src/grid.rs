//! The dense two-dimensional grid that a build fills and returns.
//!
//! A `NoiseMap` owns a flat buffer of `width * height` scalar bit
//! patterns, addressed by `(x, y)` with `x` running along a row. A
//! fresh map holds the bit pattern of 0.0 in every cell; a build then
//! overwrites every cell exactly once.

use vstd::prelude::*;

verus! {

/// A dense `width x height` grid of binary64 bit patterns.
pub struct NoiseMap {
    width: usize,
    height: usize,
    cells: Vec<u64>,
}

impl View for NoiseMap {
    type V = Seq<u64>;

    closed spec fn view(&self) -> Seq<u64> {
        self.cells@
    }
}

impl NoiseMap {
    /// The buffer holds exactly one slot per cell.
    pub closed spec fn wf(&self) -> bool {
        self.cells@.len() == self.width * self.height
    }

    pub closed spec fn width_spec(&self) -> usize {
        self.width
    }

    pub closed spec fn height_spec(&self) -> usize {
        self.height
    }

    /// The value stored at `(x, y)`: rows are laid out one after the
    /// other, `x` varying within a row.
    pub closed spec fn cell(&self, x: int, y: int) -> u64 {
        self@[y * self.width + x]
    }

    /// Allocates a grid with every cell holding the bit pattern of 0.0.
    pub fn new(width: usize, height: usize) -> (r: NoiseMap)
        requires
            width * height <= usize::MAX,
        ensures
            r.wf(),
            r.width_spec() == width,
            r.height_spec() == height,
            forall|x: int, y: int|
                0 <= x < width && 0 <= y < height ==> r.cell(x, y) == 0u64,
    {
        let total = width * height;
        let mut cells: Vec<u64> = Vec::new();
        let mut i: usize = 0;
        while i < total
            invariant
                i <= total,
                cells@.len() == i,
                forall|k: int| 0 <= k < i ==> cells@[k] == 0u64,
            decreases total - i,
        {
            cells.push(0u64);
            i += 1;
        }
        let r = NoiseMap { width, height, cells };
        proof {
            assert forall|x: int, y: int|
                0 <= x < width && 0 <= y < height implies r.cell(x, y) == 0u64 by {
                lemma_cell_index_in_range(width as int, height as int, x, y);
            }
        }
        r
    }

    pub fn width(&self) -> (r: usize)
        ensures
            r == self.width_spec(),
    {
        self.width
    }

    pub fn height(&self) -> (r: usize)
        ensures
            r == self.height_spec(),
    {
        self.height
    }

    /// Reads the cell at `(x, y)`.
    pub fn get(&self, x: usize, y: usize) -> (r: u64)
        requires
            self.wf(),
            x < self.width_spec(),
            y < self.height_spec(),
        ensures
            r == self.cell(x as int, y as int),
    {
        let n: usize = self.cells.len();
        proof {
            lemma_cell_index_in_range(
                self.width as int,
                self.height as int,
                x as int,
                y as int,
            );
        }
        self.cells[y * self.width + x]
    }

    /// Writes `value` into the cell at `(x, y)`, leaving every other
    /// cell as it was.
    pub fn set(&mut self, x: usize, y: usize, value: u64)
        requires
            old(self).wf(),
            x < old(self).width_spec(),
            y < old(self).height_spec(),
        ensures
            final(self).wf(),
            final(self).width_spec() == old(self).width_spec(),
            final(self).height_spec() == old(self).height_spec(),
            final(self).cell(x as int, y as int) == value,
            forall|i: int, j: int|
                0 <= i < old(self).width_spec() && 0 <= j < old(self).height_spec()
                    && !(i == x && j == y) ==> final(self).cell(i, j) == old(self).cell(i, j),
    {
        let n: usize = self.cells.len();
        proof {
            lemma_cell_index_in_range(
                self.width as int,
                self.height as int,
                x as int,
                y as int,
            );
        }
        let idx = y * self.width + x;
        self.cells.set(idx, value);
        proof {
            assert forall|i: int, j: int|
                0 <= i < old(self).width_spec() && 0 <= j < old(self).height_spec()
                    && !(i == x && j == y) implies final(self).cell(i, j) == old(self).cell(
                i,
                j,
            ) by {
                lemma_cell_index_in_range(
                    self.width as int,
                    self.height as int,
                    i,
                    j,
                );
                lemma_cell_index_injective(self.width as int, i, j, x as int, y as int);
            }
        }
    }
}

/// The linear index of a cell lies inside the buffer.
proof fn lemma_cell_index_in_range(width: int, height: int, x: int, y: int)
    requires
        0 <= x < width,
        0 <= y < height,
    ensures
        0 <= y * width + x < width * height,
{
    assert(y * width + x < width * height) by (nonlinear_arith)
        requires
            0 <= x < width,
            0 <= y < height,
    ;
    assert(0 <= y * width + x) by (nonlinear_arith)
        requires
            0 <= x,
            0 <= y,
            0 < width,
    ;
}

/// Distinct cells have distinct linear indices.
proof fn lemma_cell_index_injective(width: int, x1: int, y1: int, x2: int, y2: int)
    requires
        0 <= x1 < width,
        0 <= x2 < width,
        0 <= y1,
        0 <= y2,
        !(x1 == x2 && y1 == y2),
    ensures
        y1 * width + x1 != y2 * width + x2,
{
    assert(y1 * width + x1 != y2 * width + x2) by (nonlinear_arith)
        requires
            0 <= x1 < width,
            0 <= x2 < width,
            0 <= y1,
            0 <= y2,
            !(x1 == x2 && y1 == y2),
    ;
}

/// Two well-formed grids of the same dimensions whose cells all agree
/// with one fixed sampling function hold identical contents. This is
/// determinism of a build in grid form: a pure source pins every cell,
/// so two builds from the same configuration — or the callback-driven
/// and the callback-free path over the same state — cannot differ.
pub proof fn lemma_fixed_sampler_builds_equal(
    m1: NoiseMap,
    m2: NoiseMap,
    g: spec_fn(int, int) -> u64,
)
    requires
        m1.wf(),
        m2.wf(),
        m1.width_spec() == m2.width_spec(),
        m1.height_spec() == m2.height_spec(),
        forall|x: int, y: int|
            0 <= x < m1.width_spec() && 0 <= y < m1.height_spec() ==> m1.cell(x, y) == g(x, y),
        forall|x: int, y: int|
            0 <= x < m2.width_spec() && 0 <= y < m2.height_spec() ==> m2.cell(x, y) == g(x, y),
    ensures
        m1@ == m2@,
{
    let w = m1.width_spec() as int;
    let h = m1.height_spec() as int;
    assert forall|i: int| 0 <= i < m1@.len() implies m1@[i] == m2@[i] by {
        assert(0 < w) by (nonlinear_arith)
            requires
                0 <= i,
                i < w * h,
                0 <= w,
        ;
        vstd::arithmetic::div_mod::lemma_fundamental_div_mod(i, w);
        let y = i / w;
        let x = i % w;
        vstd::arithmetic::div_mod::lemma_mod_bound(i, w);
        assert(y < h) by (nonlinear_arith)
            requires
                i < w * h,
                i == w * y + x,
                0 <= x < w,
                0 <= y,
        ;
        assert(i == y * w + x);
        assert(m1.cell(x, y) == m1@[i]);
        assert(m2.cell(x, y) == m2@[i]);
    }
    assert(m1@ =~= m2@);
}

} // verus!
