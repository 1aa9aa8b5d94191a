//! Noise-map construction: projects a scalar field sampled from a
//! multi-dimensional noise source onto a dense two-dimensional grid,
//! through one of three surface projections (plane, cylinder, sphere).
//!
//! Scalar values travel through this crate as raw IEEE-754 double
//! bit patterns (`u64`); the numeric kernels that produce them are
//! supplied by the caller as sampling closures.

pub mod builder;
pub mod cylinder;
pub mod grid;
pub mod plane;
pub mod progress;
pub mod scalar;
pub mod sphere;

pub use builder::NoiseMapBuilder;
pub use cylinder::CylinderCell;
pub use cylinder::CylinderMapBuilder;
pub use grid::NoiseMap;
pub use plane::PlaneCell;
pub use plane::PlaneMapBuilder;
pub use progress::ProgressCallbackConfig;
pub use sphere::SphereCell;
pub use sphere::SphereMapBuilder;
