//! Guessing the character encoding of byte streams.
//!
//! The statistics are done by `chardetng`; this library decides what is fed
//! to it, when, and how each verdict is reported.
pub mod detector;
pub mod verdict;
pub mod accumulator;
pub mod paths;
pub mod run;
