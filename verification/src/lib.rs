//! A hardware abstraction layer for digital I/O pins.
//!
//! The traits say what a driver offers of a single pin; the contracts on their
//! methods say what every implementation owes its callers. On top of them stand
//! a `toggle()` made of a read and a write, and a wrapper that remembers the last
//! level written to a pin that cannot be read back.

pub mod digital;
