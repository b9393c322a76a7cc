//! Interpolation over rectilinear grids.

pub mod order;
pub mod error;
pub mod data;
pub mod data_nd;
pub mod strategy;
pub mod extrapolate;
pub mod interp;
pub mod interpolator;
pub mod interp_nd;
pub mod points;
pub mod dyn_interp;
pub mod message;
pub mod uom;
pub mod laws;
