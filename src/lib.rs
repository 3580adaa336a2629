//! Per-unit task logic for a tick-based colony simulation: which resource
//! node to work, how to step around other units, how a unit's goal moves
//! from tick to tick, which goal a role picks, and how a unit's persisted
//! record is written and read back.
//!
//! Everything here works on plain values handed over by the host each tick;
//! the host performs the actions and reports their result codes.

pub mod geometry;
pub mod room;
pub mod movement;
pub mod target;
pub mod role;
pub mod text;
pub mod memory;
pub mod spawn;
pub mod snapshot;
