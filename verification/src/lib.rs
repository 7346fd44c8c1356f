//! A persistent, time-driven job scheduler together with the small text and
//! number helpers its host process uses when presenting data.
//!
//! Every function in this crate carries a contract that Verus proves. Calls
//! into other crates are confined to a few wrappers whose contracts are taken
//! on trust; each of them says so in its documentation.

pub mod job;
pub mod math;
pub mod models;
pub mod registry;
pub mod schedule;
pub mod scheduler;
pub mod text;
pub mod time;
