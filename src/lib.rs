//! A small demonstration library: a versioned configuration record, a
//! three-way status, the largest element of a list, and a table of scores
//! from which the lines of the high scores are drawn.
pub mod config;
pub mod decimal;
pub mod demo;
pub mod max_finder;
pub mod scores;
pub mod status;
