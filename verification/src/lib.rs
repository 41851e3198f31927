//! Conversion of bitmap (BMP) images to PNG.
//!
//! The crate holds the decisions of a batch converter: which directory
//! entries are converted, how a bitmap's pixels become a raster image, what
//! the output file is called, in which order the steps of one conversion
//! follow each other, and how the first failure halts a run. Reading and
//! writing files and walking directories are left to the caller.

pub mod decode;
pub mod driver;
pub mod encode;
pub mod filter;
pub mod naming;
pub mod outcome;
pub mod raster;
pub mod scheduler;
pub mod task;
