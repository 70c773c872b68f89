//! A demand-driven animation graph evaluation engine.
//!
//! A directed graph of nodes produces skeletal poses, parameters and
//! durations.  Evaluation is pull-based: passes recursively demand upstream
//! values through `PassContext` handles while a per-instance `GraphContext`
//! caches time data for phase continuity.
//!
//! Times are measured in integer ticks; scalar parameters are fixed-point
//! values with `data::PARAM_ONE` as the unit.

pub mod context;
pub mod data;
pub mod errors;
pub mod graph;
pub mod ids;
pub mod nodes;
pub mod table;
pub mod times;
