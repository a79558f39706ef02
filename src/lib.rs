//! An image buffer with PPM encoding, the sample plan of a render, and the
//! depth-bounded bounce decision of a path tracer.
pub mod path;
pub mod plan;
pub mod ppm;
