//! A side-scrolling obstacle-course simulation for a population of agents
//! ("birds") whose jump decisions come either from a human operator or from
//! externally owned controllers, with fitness bookkeeping for an external
//! evolutionary engine.
//!
//! All world quantities (positions, speeds, sizes, durations) are fixed-point
//! numbers: signed 64-bit counts of thousandths of a world unit, see
//! [`units::SCALE`].

pub mod units;
pub mod obstacle;
pub mod rules;
pub mod bird;
pub mod model;
mod rng;
