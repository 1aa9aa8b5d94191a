//! The configuration and build protocol shared by the three
//! projection builders.
//!
//! A builder is value-semantic: every setter consumes the builder and
//! returns the updated value, so configurations chain without hidden
//! sharing. `build` reads the current state, allocates a fresh grid of
//! the configured size, fills every cell from the builder's source
//! module, and hands the grid to the caller.

use vstd::prelude::*;

use crate::grid::NoiseMap;

verus! {

/// The shared builder contract. `SourceModule` is the type of the
/// sampling closure a builder carries; each projection hands it a
/// per-cell sampling request built from the full builder state, so the
/// grid a build returns is pinned, cell by cell, to what the source
/// module may answer for that request.
pub trait NoiseMapBuilder<SourceModule>: Sized {
    /// The configured output dimensions.
    spec fn size_spec(&self) -> (usize, usize);

    /// The builder value that `set_size` returns.
    spec fn with_size(&self, width: usize, height: usize) -> Self;

    /// The builder value that `set_source_module` returns.
    spec fn with_source(&self, source_module: SourceModule) -> Self;

    /// What a build needs of the state: the grid fits in memory and
    /// the source module accepts every cell's sampling request.
    spec fn buildable(&self) -> bool;

    /// What the source module may answer for the cell `(x, y)` under
    /// the current state.
    spec fn cell_post(&self, x: usize, y: usize, value: u64) -> bool;

    /// Records the desired output dimensions; zero is legal.
    fn set_size(self, width: usize, height: usize) -> (r: Self)
        ensures
            r == self.with_size(width, height),
    ;

    /// Replaces the source module, keeping the rest of the state.
    fn set_source_module(self, source_module: SourceModule) -> (r: Self)
        ensures
            r == self.with_source(source_module),
    ;

    /// Reads the configured output dimensions.
    fn size(&self) -> (r: (usize, usize))
        ensures
            r == self.size_spec(),
    ;

    /// Allocates a fresh grid of the configured size and fills every
    /// cell, exactly once, with the source module's answer for it.
    fn build(&self) -> (r: NoiseMap)
        requires
            self.buildable(),
        ensures
            r.wf(),
            r.width_spec() == self.size_spec().0,
            r.height_spec() == self.size_spec().1,
            forall|x: usize, y: usize|
                x < self.size_spec().0 && y < self.size_spec().1 ==> self.cell_post(
                    x,
                    y,
                    r.cell(x as int, y as int),
                ),
    ;
}

} // verus!
