//! The plane projection: grid cells map linearly onto a rectangular
//! region of the source's first two axes.
//!
//! The builder keeps the region bounds verbatim as given — plane
//! bounds are not reordered — and fills the grid in row-major order,
//! `y` outer and `x` inner. Each cell's sampling request carries the
//! full state the numeric kernel needs: the bounds, the grid size,
//! the seamless flag and the cell coordinates. The kernel itself (the
//! coordinate arithmetic, the sampling and the seamless edge blend)
//! lives in the source module closure, outside this crate's view; the
//! builder pins every cell of the returned grid to that closure's
//! contract.

use vstd::prelude::*;

use crate::builder::NoiseMapBuilder;
use crate::grid::NoiseMap;
use crate::progress::ProgressCallbackConfig;
use crate::scalar::F64_NEG_ONE_BITS;
use crate::scalar::F64_ONE_BITS;

verus! {

/// One cell's sampling request: the plane builder state it was made
/// under, and the cell coordinates.
#[derive(Clone, Copy)]
pub struct PlaneCell {
    pub x_lower_bits: u64,
    pub x_upper_bits: u64,
    pub y_lower_bits: u64,
    pub y_upper_bits: u64,
    pub width: usize,
    pub height: usize,
    pub is_seamless: bool,
    pub x: usize,
    pub y: usize,
}

/// Builds a noise map by sampling a rectangular region of the plane.
pub struct PlaneMapBuilder<SourceModule> where SourceModule: Fn(PlaneCell) -> u64 {
    pub is_seamless: bool,
    pub x_bounds: (u64, u64),
    pub y_bounds: (u64, u64),
    pub size: (usize, usize),
    pub source_module: SourceModule,
}

impl<SourceModule> PlaneMapBuilder<SourceModule> where SourceModule: Fn(PlaneCell) -> u64 {
    /// The sampling request a build hands to the source module for the
    /// cell `(x, y)`.
    pub open spec fn cell_at(&self, x: usize, y: usize) -> PlaneCell {
        PlaneCell {
            x_lower_bits: self.x_bounds.0,
            x_upper_bits: self.x_bounds.1,
            y_lower_bits: self.y_bounds.0,
            y_upper_bits: self.y_bounds.1,
            width: self.size.0,
            height: self.size.1,
            is_seamless: self.is_seamless,
            x,
            y,
        }
    }

    /// A new plane builder: bounds `[-1, 1]` on both axes, size
    /// `100 x 100`, not seamless.
    pub fn new(source_module: SourceModule) -> (r: PlaneMapBuilder<SourceModule>)
        ensures
            !r.is_seamless,
            r.x_bounds == (F64_NEG_ONE_BITS, F64_ONE_BITS),
            r.y_bounds == (F64_NEG_ONE_BITS, F64_ONE_BITS),
            r.size == (100usize, 100usize),
            r.source_module == source_module,
    {
        PlaneMapBuilder {
            is_seamless: false,
            x_bounds: (F64_NEG_ONE_BITS, F64_ONE_BITS),
            y_bounds: (F64_NEG_ONE_BITS, F64_ONE_BITS),
            size: (100, 100),
            source_module,
        }
    }

    pub fn set_is_seamless(self, is_seamless: bool) -> (r: Self)
        ensures
            r.is_seamless == is_seamless,
            r.x_bounds == self.x_bounds,
            r.y_bounds == self.y_bounds,
            r.size == self.size,
            r.source_module == self.source_module,
    {
        let PlaneMapBuilder { is_seamless: _, x_bounds, y_bounds, size, source_module } = self;
        PlaneMapBuilder { is_seamless, x_bounds, y_bounds, size, source_module }
    }

    /// Stores the x bounds exactly as given; plane bounds are never
    /// reordered.
    pub fn set_x_bounds(self, lower_x_bound: u64, upper_x_bound: u64) -> (r: Self)
        ensures
            r.x_bounds == (lower_x_bound, upper_x_bound),
            r.is_seamless == self.is_seamless,
            r.y_bounds == self.y_bounds,
            r.size == self.size,
            r.source_module == self.source_module,
    {
        let PlaneMapBuilder { is_seamless, x_bounds: _, y_bounds, size, source_module } = self;
        PlaneMapBuilder {
            is_seamless,
            x_bounds: (lower_x_bound, upper_x_bound),
            y_bounds,
            size,
            source_module,
        }
    }

    /// Stores the y bounds exactly as given; plane bounds are never
    /// reordered.
    pub fn set_y_bounds(self, lower_y_bound: u64, upper_y_bound: u64) -> (r: Self)
        ensures
            r.y_bounds == (lower_y_bound, upper_y_bound),
            r.is_seamless == self.is_seamless,
            r.x_bounds == self.x_bounds,
            r.size == self.size,
            r.source_module == self.source_module,
    {
        let PlaneMapBuilder { is_seamless, x_bounds, y_bounds: _, size, source_module } = self;
        PlaneMapBuilder {
            is_seamless,
            x_bounds,
            y_bounds: (lower_y_bound, upper_y_bound),
            size,
            source_module,
        }
    }

    pub fn x_bounds(&self) -> (r: (u64, u64))
        ensures
            r == self.x_bounds,
    {
        self.x_bounds
    }

    pub fn y_bounds(&self) -> (r: (u64, u64))
        ensures
            r == self.y_bounds,
    {
        self.y_bounds
    }

    /// The callback-enabled build path: fills the grid exactly as
    /// `build` does, and additionally reports progress for each cell
    /// `(x, y)` whose progress point `y * x` the configured
    /// granularity divides, handing the callback the total cell count
    /// and that progress point.
    pub fn build_with_progress<Callback: Fn(usize, usize)>(
        &self,
        config: &ProgressCallbackConfig<Callback>,
    ) -> (r: NoiseMap)
        requires
            self.buildable(),
            config.granularity_spec() >= 1,
            forall|total: usize, done: usize|
                call_requires(config.callback_spec(), (total, done)),
        ensures
            r.wf(),
            r.width_spec() == self.size.0,
            r.height_spec() == self.size.1,
            forall|x: usize, y: usize|
                x < self.size.0 && y < self.size.1 ==> self.cell_post(
                    x,
                    y,
                    r.cell(x as int, y as int),
                ),
    {
        let (width, height) = self.size;
        let total = width * height;
        let mut result_map = NoiseMap::new(width, height);
        let mut y: usize = 0;
        while y < height
            invariant
                self.buildable(),
                config.granularity_spec() >= 1,
                forall|t: usize, d: usize| call_requires(config.callback_spec(), (t, d)),
                width == self.size.0,
                height == self.size.1,
                y <= height,
                result_map.wf(),
                result_map.width_spec() == width,
                result_map.height_spec() == height,
                forall|xx: usize, yy: usize|
                    xx < width && yy < y ==> self.cell_post(
                        xx,
                        yy,
                        result_map.cell(xx as int, yy as int),
                    ),
            decreases height - y,
        {
            let mut x: usize = 0;
            while x < width
                invariant
                    self.buildable(),
                    config.granularity_spec() >= 1,
                    forall|t: usize, d: usize| call_requires(config.callback_spec(), (t, d)),
                    width == self.size.0,
                    height == self.size.1,
                    y < height,
                    x <= width,
                    result_map.wf(),
                    result_map.width_spec() == width,
                    result_map.height_spec() == height,
                    forall|xx: usize, yy: usize|
                        xx < width && yy < y ==> self.cell_post(
                            xx,
                            yy,
                            result_map.cell(xx as int, yy as int),
                        ),
                    forall|xx: usize|
                        xx < x ==> self.cell_post(xx, y, result_map.cell(xx as int, y as int)),
                decreases width - x,
            {
                let request = PlaneCell {
                    x_lower_bits: self.x_bounds.0,
                    x_upper_bits: self.x_bounds.1,
                    y_lower_bits: self.y_bounds.0,
                    y_upper_bits: self.y_bounds.1,
                    width,
                    height,
                    is_seamless: self.is_seamless,
                    x,
                    y,
                };
                proof {
                    assert(request == self.cell_at(x, y));
                }
                let value = (self.source_module)(request);
                result_map.set(x, y, value);
                proof {
                    assert(y * x <= usize::MAX) by (nonlinear_arith)
                        requires
                            x < width,
                            y < height,
                            width * height <= usize::MAX,
                    ;
                }
                let progress_pt = y * x;
                if crate::progress::due_at(x, y, config.granularity()) {
                    config.invoke(total, progress_pt);
                }
                x += 1;
            }
            y += 1;
        }
        result_map
    }
}

impl<SourceModule> NoiseMapBuilder<SourceModule> for PlaneMapBuilder<
    SourceModule,
> where SourceModule: Fn(PlaneCell) -> u64 {
    open spec fn size_spec(&self) -> (usize, usize) {
        self.size
    }

    open spec fn with_size(&self, width: usize, height: usize) -> Self {
        PlaneMapBuilder {
            is_seamless: self.is_seamless,
            x_bounds: self.x_bounds,
            y_bounds: self.y_bounds,
            size: (width, height),
            source_module: self.source_module,
        }
    }

    open spec fn with_source(&self, source_module: SourceModule) -> Self {
        PlaneMapBuilder {
            is_seamless: self.is_seamless,
            x_bounds: self.x_bounds,
            y_bounds: self.y_bounds,
            size: self.size,
            source_module,
        }
    }

    open spec fn buildable(&self) -> bool {
        self.size.0 * self.size.1 <= usize::MAX && forall|x: usize, y: usize|
            x < self.size.0 && y < self.size.1 ==> call_requires(
                self.source_module,
                (#[trigger] self.cell_at(x, y),),
            )
    }

    open spec fn cell_post(&self, x: usize, y: usize, value: u64) -> bool {
        call_ensures(self.source_module, (self.cell_at(x, y),), value)
    }

    fn set_size(self, width: usize, height: usize) -> (r: Self)
        ensures
            r.size == (width, height),
            r.is_seamless == self.is_seamless,
            r.x_bounds == self.x_bounds,
            r.y_bounds == self.y_bounds,
            r.source_module == self.source_module,
    {
        let PlaneMapBuilder { is_seamless, x_bounds, y_bounds, size: _, source_module } = self;
        PlaneMapBuilder { is_seamless, x_bounds, y_bounds, size: (width, height), source_module }
    }

    fn set_source_module(self, source_module: SourceModule) -> (r: Self)
        ensures
            r.source_module == source_module,
            r.is_seamless == self.is_seamless,
            r.x_bounds == self.x_bounds,
            r.y_bounds == self.y_bounds,
            r.size == self.size,
    {
        let PlaneMapBuilder { is_seamless, x_bounds, y_bounds, size, source_module: _ } = self;
        PlaneMapBuilder { is_seamless, x_bounds, y_bounds, size, source_module }
    }

    fn size(&self) -> (r: (usize, usize))
        ensures
            r == self.size,
    {
        self.size
    }

    /// The callback-free build path.
    fn build(&self) -> (r: NoiseMap)
        ensures
            r.wf(),
            r.width_spec() == self.size.0,
            r.height_spec() == self.size.1,
            forall|x: usize, y: usize|
                x < self.size.0 && y < self.size.1 ==> call_ensures(
                    self.source_module,
                    (#[trigger] self.cell_at(x, y),),
                    r.cell(x as int, y as int),
                ),
    {
        let (width, height) = self.size;
        let mut result_map = NoiseMap::new(width, height);
        let mut y: usize = 0;
        while y < height
            invariant
                self.buildable(),
                width == self.size.0,
                height == self.size.1,
                y <= height,
                result_map.wf(),
                result_map.width_spec() == width,
                result_map.height_spec() == height,
                forall|xx: usize, yy: usize|
                    xx < width && yy < y ==> self.cell_post(
                        xx,
                        yy,
                        result_map.cell(xx as int, yy as int),
                    ),
            decreases height - y,
        {
            let mut x: usize = 0;
            while x < width
                invariant
                    self.buildable(),
                    width == self.size.0,
                    height == self.size.1,
                    y < height,
                    x <= width,
                    result_map.wf(),
                    result_map.width_spec() == width,
                    result_map.height_spec() == height,
                    forall|xx: usize, yy: usize|
                        xx < width && yy < y ==> self.cell_post(
                            xx,
                            yy,
                            result_map.cell(xx as int, yy as int),
                        ),
                    forall|xx: usize|
                        xx < x ==> self.cell_post(xx, y, result_map.cell(xx as int, y as int)),
                decreases width - x,
            {
                let request = PlaneCell {
                    x_lower_bits: self.x_bounds.0,
                    x_upper_bits: self.x_bounds.1,
                    y_lower_bits: self.y_bounds.0,
                    y_upper_bits: self.y_bounds.1,
                    width,
                    height,
                    is_seamless: self.is_seamless,
                    x,
                    y,
                };
                proof {
                    assert(request == self.cell_at(x, y));
                }
                let value = (self.source_module)(request);
                result_map.set(x, y, value);
                x += 1;
            }
            y += 1;
        }
        result_map
    }
}

/// A plane build is deterministic, and its two code paths agree: when
/// the source module is pure — it admits exactly one value `g(q)` for
/// each request `q` — any two grids that a build's contract pins to
/// this builder's state hold identical contents, whether they came
/// from `build`, from `build_with_progress`, or from repeated calls
/// of either.
pub proof fn lemma_build_deterministic<SourceModule: Fn(PlaneCell) -> u64>(
    b: &PlaneMapBuilder<SourceModule>,
    m1: NoiseMap,
    m2: NoiseMap,
    g: spec_fn(PlaneCell) -> u64,
)
    requires
        forall|q: PlaneCell, v: u64| call_ensures(b.source_module, (q,), v) ==> v == g(q),
        m1.wf(),
        m2.wf(),
        m1.width_spec() == b.size.0,
        m1.height_spec() == b.size.1,
        m2.width_spec() == b.size.0,
        m2.height_spec() == b.size.1,
        forall|x: usize, y: usize|
            x < b.size.0 && y < b.size.1 ==> call_ensures(
                b.source_module,
                (#[trigger] b.cell_at(x, y),),
                m1.cell(x as int, y as int),
            ),
        forall|x: usize, y: usize|
            x < b.size.0 && y < b.size.1 ==> call_ensures(
                b.source_module,
                (#[trigger] b.cell_at(x, y),),
                m2.cell(x as int, y as int),
            ),
    ensures
        m1@ == m2@,
{
    let g2: spec_fn(int, int) -> u64 = |x: int, y: int| g(b.cell_at(x as usize, y as usize));
    assert forall|x: int, y: int|
        0 <= x < m1.width_spec() && 0 <= y < m1.height_spec() implies m1.cell(x, y) == g2(
        x,
        y,
    ) by {
        let xu = x as usize;
        let yu = y as usize;
        assert(call_ensures(b.source_module, (b.cell_at(xu, yu),), m1.cell(x, y)));
    }
    assert forall|x: int, y: int|
        0 <= x < m2.width_spec() && 0 <= y < m2.height_spec() implies m2.cell(x, y) == g2(
        x,
        y,
    ) by {
        let xu = x as usize;
        let yu = y as usize;
        assert(call_ensures(b.source_module, (b.cell_at(xu, yu),), m2.cell(x, y)));
    }
    crate::grid::lemma_fixed_sampler_builds_equal(m1, m2, g2);
}

/// What `buildable` asks of a plane builder, spelled out: the grid
/// fits in memory, and the source module accepts every cell's
/// sampling request.
pub proof fn lemma_buildable<SourceModule: Fn(PlaneCell) -> u64>(
    b: &PlaneMapBuilder<SourceModule>,
)
    ensures
        b.buildable() == (b.size.0 * b.size.1 <= usize::MAX && (forall|x: usize, y: usize|
            x < b.size.0 && y < b.size.1 ==> call_requires(
                b.source_module,
                (#[trigger] b.cell_at(x, y),),
            ))),
{
}

} // verus!
