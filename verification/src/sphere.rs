//! The sphere projection: grid columns map onto a longitude range,
//! grid rows onto a latitude range, and samples lie on the unit
//! sphere surface.
//!
//! Unlike the cylinder, the sphere keeps both bound pairs exactly as
//! the caller gave them: latitude and longitude setters never reorder
//! their arguments, so a swapped pair is stored swapped. The mapping
//! from a latitude and a longitude to a point on the sphere is the
//! source module closure's part; the builder hands it each cell's
//! request and pins the returned grid to the closure's contract.

use vstd::prelude::*;

use crate::builder::NoiseMapBuilder;
use crate::grid::NoiseMap;
use crate::scalar::F64_NEG_ONE_BITS;
use crate::scalar::F64_ONE_BITS;

verus! {

/// One cell's sampling request: the sphere builder state it was made
/// under, and the cell coordinates.
#[derive(Clone, Copy)]
pub struct SphereCell {
    pub lat_lower_bits: u64,
    pub lat_upper_bits: u64,
    pub lon_lower_bits: u64,
    pub lon_upper_bits: u64,
    pub width: usize,
    pub height: usize,
    pub x: usize,
    pub y: usize,
}

/// Builds a noise map by sampling the surface of the unit sphere.
pub struct SphereMapBuilder<SourceModule> where SourceModule: Fn(SphereCell) -> u64 {
    pub latitude_bounds: (u64, u64),
    pub longitude_bounds: (u64, u64),
    pub size: (usize, usize),
    pub source_module: SourceModule,
}

impl<SourceModule> SphereMapBuilder<SourceModule> where SourceModule: Fn(SphereCell) -> u64 {
    /// The sampling request a build hands to the source module for the
    /// cell `(x, y)`.
    pub open spec fn cell_at(&self, x: usize, y: usize) -> SphereCell {
        SphereCell {
            lat_lower_bits: self.latitude_bounds.0,
            lat_upper_bits: self.latitude_bounds.1,
            lon_lower_bits: self.longitude_bounds.0,
            lon_upper_bits: self.longitude_bounds.1,
            width: self.size.0,
            height: self.size.1,
            x,
            y,
        }
    }

    /// A new sphere builder: latitudes and longitudes `[-1, 1]`, size
    /// `100 x 100`.
    pub fn new(source_module: SourceModule) -> (r: SphereMapBuilder<SourceModule>)
        ensures
            r.latitude_bounds == (F64_NEG_ONE_BITS, F64_ONE_BITS),
            r.longitude_bounds == (F64_NEG_ONE_BITS, F64_ONE_BITS),
            r.size == (100usize, 100usize),
            r.source_module == source_module,
    {
        SphereMapBuilder {
            latitude_bounds: (F64_NEG_ONE_BITS, F64_ONE_BITS),
            longitude_bounds: (F64_NEG_ONE_BITS, F64_ONE_BITS),
            size: (100, 100),
            source_module,
        }
    }

    /// Stores the latitude bounds exactly as given, order and all.
    pub fn set_latitude_bounds(self, min_lat_bound: u64, max_lat_bound: u64) -> (r: Self)
        ensures
            r.latitude_bounds == (min_lat_bound, max_lat_bound),
            r.longitude_bounds == self.longitude_bounds,
            r.size == self.size,
            r.source_module == self.source_module,
    {
        let SphereMapBuilder { latitude_bounds: _, longitude_bounds, size, source_module } = self;
        SphereMapBuilder {
            latitude_bounds: (min_lat_bound, max_lat_bound),
            longitude_bounds,
            size,
            source_module,
        }
    }

    /// Stores the longitude bounds exactly as given, order and all.
    pub fn set_longitude_bounds(self, min_lon_bound: u64, max_lon_bound: u64) -> (r: Self)
        ensures
            r.longitude_bounds == (min_lon_bound, max_lon_bound),
            r.latitude_bounds == self.latitude_bounds,
            r.size == self.size,
            r.source_module == self.source_module,
    {
        let SphereMapBuilder { latitude_bounds, longitude_bounds: _, size, source_module } = self;
        SphereMapBuilder {
            latitude_bounds,
            longitude_bounds: (min_lon_bound, max_lon_bound),
            size,
            source_module,
        }
    }

    /// Stores both bound pairs at once, exactly as given.
    pub fn set_bounds(
        self,
        min_lat_bound: u64,
        max_lat_bound: u64,
        min_lon_bound: u64,
        max_lon_bound: u64,
    ) -> (r: Self)
        ensures
            r.latitude_bounds == (min_lat_bound, max_lat_bound),
            r.longitude_bounds == (min_lon_bound, max_lon_bound),
            r.size == self.size,
            r.source_module == self.source_module,
    {
        let SphereMapBuilder { latitude_bounds: _, longitude_bounds: _, size, source_module } =
            self;
        SphereMapBuilder {
            latitude_bounds: (min_lat_bound, max_lat_bound),
            longitude_bounds: (min_lon_bound, max_lon_bound),
            size,
            source_module,
        }
    }

    pub fn latitude_bounds(&self) -> (r: (u64, u64))
        ensures
            r == self.latitude_bounds,
    {
        self.latitude_bounds
    }

    pub fn longitude_bounds(&self) -> (r: (u64, u64))
        ensures
            r == self.longitude_bounds,
    {
        self.longitude_bounds
    }
}

impl<SourceModule> NoiseMapBuilder<SourceModule> for SphereMapBuilder<
    SourceModule,
> where SourceModule: Fn(SphereCell) -> u64 {
    open spec fn size_spec(&self) -> (usize, usize) {
        self.size
    }

    open spec fn with_size(&self, width: usize, height: usize) -> Self {
        SphereMapBuilder {
            latitude_bounds: self.latitude_bounds,
            longitude_bounds: self.longitude_bounds,
            size: (width, height),
            source_module: self.source_module,
        }
    }

    open spec fn with_source(&self, source_module: SourceModule) -> Self {
        SphereMapBuilder {
            latitude_bounds: self.latitude_bounds,
            longitude_bounds: self.longitude_bounds,
            size: self.size,
            source_module,
        }
    }

    open spec fn buildable(&self) -> bool {
        self.size.0 * self.size.1 <= usize::MAX && forall|x: usize, y: usize|
            x < self.size.0 && y < self.size.1 ==> call_requires(
                self.source_module,
                (#[trigger] self.cell_at(x, y),),
            )
    }

    open spec fn cell_post(&self, x: usize, y: usize, value: u64) -> bool {
        call_ensures(self.source_module, (self.cell_at(x, y),), value)
    }

    fn set_size(self, width: usize, height: usize) -> (r: Self)
        ensures
            r.size == (width, height),
            r.latitude_bounds == self.latitude_bounds,
            r.longitude_bounds == self.longitude_bounds,
            r.source_module == self.source_module,
    {
        let SphereMapBuilder { latitude_bounds, longitude_bounds, size: _, source_module } = self;
        SphereMapBuilder {
            latitude_bounds,
            longitude_bounds,
            size: (width, height),
            source_module,
        }
    }

    fn set_source_module(self, source_module: SourceModule) -> (r: Self)
        ensures
            r.source_module == source_module,
            r.latitude_bounds == self.latitude_bounds,
            r.longitude_bounds == self.longitude_bounds,
            r.size == self.size,
    {
        let SphereMapBuilder { latitude_bounds, longitude_bounds, size, source_module: _ } = self;
        SphereMapBuilder { latitude_bounds, longitude_bounds, size, source_module }
    }

    fn size(&self) -> (r: (usize, usize))
        ensures
            r == self.size,
    {
        self.size
    }

    fn build(&self) -> (r: NoiseMap)
        ensures
            r.wf(),
            r.width_spec() == self.size.0,
            r.height_spec() == self.size.1,
            forall|x: usize, y: usize|
                x < self.size.0 && y < self.size.1 ==> call_ensures(
                    self.source_module,
                    (#[trigger] self.cell_at(x, y),),
                    r.cell(x as int, y as int),
                ),
    {
        let (width, height) = self.size;
        let mut result_map = NoiseMap::new(width, height);
        let mut y: usize = 0;
        while y < height
            invariant
                self.buildable(),
                width == self.size.0,
                height == self.size.1,
                y <= height,
                result_map.wf(),
                result_map.width_spec() == width,
                result_map.height_spec() == height,
                forall|xx: usize, yy: usize|
                    xx < width && yy < y ==> self.cell_post(
                        xx,
                        yy,
                        result_map.cell(xx as int, yy as int),
                    ),
            decreases height - y,
        {
            let mut x: usize = 0;
            while x < width
                invariant
                    self.buildable(),
                    width == self.size.0,
                    height == self.size.1,
                    y < height,
                    x <= width,
                    result_map.wf(),
                    result_map.width_spec() == width,
                    result_map.height_spec() == height,
                    forall|xx: usize, yy: usize|
                        xx < width && yy < y ==> self.cell_post(
                            xx,
                            yy,
                            result_map.cell(xx as int, yy as int),
                        ),
                    forall|xx: usize|
                        xx < x ==> self.cell_post(xx, y, result_map.cell(xx as int, y as int)),
                decreases width - x,
            {
                let request = SphereCell {
                    lat_lower_bits: self.latitude_bounds.0,
                    lat_upper_bits: self.latitude_bounds.1,
                    lon_lower_bits: self.longitude_bounds.0,
                    lon_upper_bits: self.longitude_bounds.1,
                    width,
                    height,
                    x,
                    y,
                };
                proof {
                    assert(request == self.cell_at(x, y));
                }
                let value = (self.source_module)(request);
                result_map.set(x, y, value);
                x += 1;
            }
            y += 1;
        }
        result_map
    }
}

/// What `buildable` asks of a sphere builder, spelled out: the grid
/// fits in memory, and the source module accepts every cell's
/// sampling request.
pub proof fn lemma_buildable<SourceModule: Fn(SphereCell) -> u64>(
    b: &SphereMapBuilder<SourceModule>,
)
    ensures
        b.buildable() == (b.size.0 * b.size.1 <= usize::MAX && (forall|x: usize, y: usize|
            x < b.size.0 && y < b.size.1 ==> call_requires(
                b.source_module,
                (#[trigger] b.cell_at(x, y),),
            ))),
{
}

} // verus!
