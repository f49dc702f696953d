//! Columnar aggregation of detector events.
//!
//! Every event is a group of hits. A channel map resolves the hardware
//! identifier of a hit to a channel type, and the hit's three values are
//! written to the three fields of that channel type. Every event adds exactly
//! one row to every column; a cell that no hit wrote holds `INVALID_VALUE`.
//!
//! Measured values are carried as the bit patterns of IEEE 754 binary64
//! numbers, one `u64` each. The library moves them and never computes on them.

pub mod channel_data;
pub mod channel_map;
pub mod field;
pub mod compass_data;
