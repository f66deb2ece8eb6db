//! Decision logic of a momentum-scrolling input pipeline.
//!
//! Every operating-system effect is left to the caller: the functions here
//! take plain values that describe what was observed and answer with plain
//! values that describe what has to be done next.

pub mod capture;
pub mod config;
pub mod filter;
pub mod geometry;
pub mod gesture;
pub mod injection;
pub mod kinetics;
pub mod lifecycle;
pub mod raw_input;
pub mod text;
pub mod ui;
