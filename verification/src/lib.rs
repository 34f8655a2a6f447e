//! Line-of-sight distances over a spherical Earth: the input rules and the
//! report text of a horizon calculator.
//!
//! Heights travel through this library as IEEE 754 binary64 encodings
//! (`u64`), so every decision on them is an integer computation with a
//! proved meaning.

pub mod binary64;
pub mod input;
pub mod report;
