//! The integer side of a path tracer: how a traced path ends, the order in which the
//! pixels of an image are produced, and the plain-text pixel format they are written in.
use vstd::prelude::*;

pub mod path;
pub mod ppm;
pub mod raster;

verus! {

} // verus!
