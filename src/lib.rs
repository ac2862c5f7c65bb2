//! Fixed-size bit vectors with verified population counts and distances,
//! plus the small pure pieces of the camera pipeline around them.

pub mod bitarray;
pub mod camera_error;
pub mod control;
pub mod log;
pub mod metric;
pub mod output;
pub mod popcount;
