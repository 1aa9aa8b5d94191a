//! The cylinder projection: grid columns sweep an angular range
//! around a unit cylinder, grid rows a height range along its axis.
//!
//! Both bound pairs are normalized on the way in: a setter that
//! receives its arguments swapped stores them reordered, so the lower
//! bound never compares above the upper one. The trigonometric step
//! from an angle and a height to a point on the cylinder surface is
//! the source module closure's part; the builder hands it each cell's
//! request and pins the returned grid to the closure's contract.

use vstd::prelude::*;

use crate::builder::NoiseMapBuilder;
use crate::grid::NoiseMap;
use crate::scalar::F64_NEG_NINETY_BITS;
use crate::scalar::F64_NEG_ONE_BITS;
use crate::scalar::F64_NINETY_BITS;
use crate::scalar::F64_ONE_BITS;
use crate::scalar::ge_bits;
use crate::scalar::normalized_pair;

verus! {

/// One cell's sampling request: the cylinder builder state it was
/// made under, and the cell coordinates.
#[derive(Clone, Copy)]
pub struct CylinderCell {
    pub angle_lower_bits: u64,
    pub angle_upper_bits: u64,
    pub height_lower_bits: u64,
    pub height_upper_bits: u64,
    pub width: usize,
    pub height: usize,
    pub x: usize,
    pub y: usize,
}

/// Builds a noise map by sampling the surface of a unit cylinder.
pub struct CylinderMapBuilder<SourceModule> where SourceModule: Fn(CylinderCell) -> u64 {
    pub angle_bounds: (u64, u64),
    pub height_bounds: (u64, u64),
    pub size: (usize, usize),
    pub source_module: SourceModule,
}

impl<SourceModule> CylinderMapBuilder<SourceModule> where SourceModule: Fn(CylinderCell) -> u64 {
    /// The sampling request a build hands to the source module for the
    /// cell `(x, y)`.
    pub open spec fn cell_at(&self, x: usize, y: usize) -> CylinderCell {
        CylinderCell {
            angle_lower_bits: self.angle_bounds.0,
            angle_upper_bits: self.angle_bounds.1,
            height_lower_bits: self.height_bounds.0,
            height_upper_bits: self.height_bounds.1,
            width: self.size.0,
            height: self.size.1,
            x,
            y,
        }
    }

    /// A new cylinder builder: angles `[-90, 90]` degrees, heights
    /// `[-1, 1]`, size `100 x 100`.
    pub fn new(source_module: SourceModule) -> (r: CylinderMapBuilder<SourceModule>)
        ensures
            r.angle_bounds == (F64_NEG_NINETY_BITS, F64_NINETY_BITS),
            r.height_bounds == (F64_NEG_ONE_BITS, F64_ONE_BITS),
            r.size == (100usize, 100usize),
            r.source_module == source_module,
    {
        CylinderMapBuilder {
            angle_bounds: (F64_NEG_NINETY_BITS, F64_NINETY_BITS),
            height_bounds: (F64_NEG_ONE_BITS, F64_ONE_BITS),
            size: (100, 100),
            source_module,
        }
    }

    /// Stores the angle bounds reordered so that the lower one never
    /// compares `>=` the upper one.
    pub fn set_angle_bounds(self, lower_bound: u64, upper_bound: u64) -> (r: Self)
        ensures
            r.angle_bounds == normalized_pair(lower_bound, upper_bound),
            r.height_bounds == self.height_bounds,
            r.size == self.size,
            r.source_module == self.source_module,
    {
        let CylinderMapBuilder { angle_bounds: _, height_bounds, size, source_module } = self;
        let angle_bounds = if ge_bits(lower_bound, upper_bound) {
            (upper_bound, lower_bound)
        } else {
            (lower_bound, upper_bound)
        };
        CylinderMapBuilder { angle_bounds, height_bounds, size, source_module }
    }

    /// Stores the height bounds reordered so that the lower one never
    /// compares `>=` the upper one.
    pub fn set_height_bounds(self, lower_bound: u64, upper_bound: u64) -> (r: Self)
        ensures
            r.height_bounds == normalized_pair(lower_bound, upper_bound),
            r.angle_bounds == self.angle_bounds,
            r.size == self.size,
            r.source_module == self.source_module,
    {
        let CylinderMapBuilder { angle_bounds, height_bounds: _, size, source_module } = self;
        let height_bounds = if ge_bits(lower_bound, upper_bound) {
            (upper_bound, lower_bound)
        } else {
            (lower_bound, upper_bound)
        };
        CylinderMapBuilder { angle_bounds, height_bounds, size, source_module }
    }

    pub fn angle_bounds(&self) -> (r: (u64, u64))
        ensures
            r == self.angle_bounds,
    {
        self.angle_bounds
    }

    pub fn height_bounds(&self) -> (r: (u64, u64))
        ensures
            r == self.height_bounds,
    {
        self.height_bounds
    }
}

impl<SourceModule> NoiseMapBuilder<SourceModule> for CylinderMapBuilder<
    SourceModule,
> where SourceModule: Fn(CylinderCell) -> u64 {
    open spec fn size_spec(&self) -> (usize, usize) {
        self.size
    }

    open spec fn with_size(&self, width: usize, height: usize) -> Self {
        CylinderMapBuilder {
            angle_bounds: self.angle_bounds,
            height_bounds: self.height_bounds,
            size: (width, height),
            source_module: self.source_module,
        }
    }

    open spec fn with_source(&self, source_module: SourceModule) -> Self {
        CylinderMapBuilder {
            angle_bounds: self.angle_bounds,
            height_bounds: self.height_bounds,
            size: self.size,
            source_module,
        }
    }

    open spec fn buildable(&self) -> bool {
        self.size.0 * self.size.1 <= usize::MAX && forall|x: usize, y: usize|
            x < self.size.0 && y < self.size.1 ==> call_requires(
                self.source_module,
                (#[trigger] self.cell_at(x, y),),
            )
    }

    open spec fn cell_post(&self, x: usize, y: usize, value: u64) -> bool {
        call_ensures(self.source_module, (self.cell_at(x, y),), value)
    }

    fn set_size(self, width: usize, height: usize) -> (r: Self)
        ensures
            r.size == (width, height),
            r.angle_bounds == self.angle_bounds,
            r.height_bounds == self.height_bounds,
            r.source_module == self.source_module,
    {
        let CylinderMapBuilder { angle_bounds, height_bounds, size: _, source_module } = self;
        CylinderMapBuilder { angle_bounds, height_bounds, size: (width, height), source_module }
    }

    fn set_source_module(self, source_module: SourceModule) -> (r: Self)
        ensures
            r.source_module == source_module,
            r.angle_bounds == self.angle_bounds,
            r.height_bounds == self.height_bounds,
            r.size == self.size,
    {
        let CylinderMapBuilder { angle_bounds, height_bounds, size, source_module: _ } = self;
        CylinderMapBuilder { angle_bounds, height_bounds, size, source_module }
    }

    fn size(&self) -> (r: (usize, usize))
        ensures
            r == self.size,
    {
        self.size
    }

    fn build(&self) -> (r: NoiseMap)
        ensures
            r.wf(),
            r.width_spec() == self.size.0,
            r.height_spec() == self.size.1,
            forall|x: usize, y: usize|
                x < self.size.0 && y < self.size.1 ==> call_ensures(
                    self.source_module,
                    (#[trigger] self.cell_at(x, y),),
                    r.cell(x as int, y as int),
                ),
    {
        let (width, height) = self.size;
        let mut result_map = NoiseMap::new(width, height);
        let mut y: usize = 0;
        while y < height
            invariant
                self.buildable(),
                width == self.size.0,
                height == self.size.1,
                y <= height,
                result_map.wf(),
                result_map.width_spec() == width,
                result_map.height_spec() == height,
                forall|xx: usize, yy: usize|
                    xx < width && yy < y ==> self.cell_post(
                        xx,
                        yy,
                        result_map.cell(xx as int, yy as int),
                    ),
            decreases height - y,
        {
            let mut x: usize = 0;
            while x < width
                invariant
                    self.buildable(),
                    width == self.size.0,
                    height == self.size.1,
                    y < height,
                    x <= width,
                    result_map.wf(),
                    result_map.width_spec() == width,
                    result_map.height_spec() == height,
                    forall|xx: usize, yy: usize|
                        xx < width && yy < y ==> self.cell_post(
                            xx,
                            yy,
                            result_map.cell(xx as int, yy as int),
                        ),
                    forall|xx: usize|
                        xx < x ==> self.cell_post(xx, y, result_map.cell(xx as int, y as int)),
                decreases width - x,
            {
                let request = CylinderCell {
                    angle_lower_bits: self.angle_bounds.0,
                    angle_upper_bits: self.angle_bounds.1,
                    height_lower_bits: self.height_bounds.0,
                    height_upper_bits: self.height_bounds.1,
                    width,
                    height,
                    x,
                    y,
                };
                proof {
                    assert(request == self.cell_at(x, y));
                }
                let value = (self.source_module)(request);
                result_map.set(x, y, value);
                x += 1;
            }
            y += 1;
        }
        result_map
    }
}

/// What `buildable` asks of a cylinder builder, spelled out: the grid
/// fits in memory, and the source module accepts every cell's
/// sampling request.
pub proof fn lemma_buildable<SourceModule: Fn(CylinderCell) -> u64>(
    b: &CylinderMapBuilder<SourceModule>,
)
    ensures
        b.buildable() == (b.size.0 * b.size.1 <= usize::MAX && (forall|x: usize, y: usize|
            x < b.size.0 && y < b.size.1 ==> call_requires(
                b.source_module,
                (#[trigger] b.cell_at(x, y),),
            ))),
{
}

} // verus!
