//! Typed, verified binding core for a native routing engine.
//!
//! The native engine (graph loading, shortest-path search) is an external,
//! pre-built library reached through a narrow procedural interface.  This
//! crate holds everything on this side of that boundary that can be stated
//! and proved: request validation, the flat longitude-first coordinate
//! calling convention, the index partition that splits one coordinate list
//! into sources and destinations, the reclaim-exactly-once protocol for
//! native response buffers, the unified error taxonomy, and the projection
//! of full route responses into simple summaries.
//!
//! Quantities that the native side exchanges as double-precision floats are
//! carried here as fixed-point integers: coordinates in micro-degrees,
//! durations, distances and weights in thousandths of their native unit
//! (see [`point`]).  The unverified shell that makes the foreign calls
//! converts at the boundary.

pub mod algorithm;
pub mod boundary;
pub mod errors;
pub mod marshal;
pub mod osrm_engine;
pub mod point;
pub mod route;
pub mod tables;
pub mod trip;
pub mod waypoints;
