//! Core of a replicated block-device engine: a nexus fans each logical I/O
//! out across replica children, tracks per-I/O completion accounting, retires
//! failing children, and rebuilds new children segment by segment, driven by a
//! dirty-segment bitmap.

pub mod bio;
pub mod block_store;
pub mod channel;
pub mod device;
pub mod io_types;
pub mod logfmt;
pub mod nexus;
pub mod rebuild;
pub mod segment_map;
pub mod services;
pub mod snapshot;
pub mod wipe;
