//! Decision logic of a daemon that mirrors the desktop's light/dark preference
//! into the terminal multiplexer's active theme link.

pub mod converge;
pub mod cycle;
pub mod diagnostic;
pub mod laws;
pub mod model;
pub mod paths;
pub mod query;
pub mod schedule;
pub mod text;
pub mod theme;
pub mod warning;
