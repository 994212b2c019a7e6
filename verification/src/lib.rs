//! Decision logic of an over-the-air update agent for one managed application
//! on an edge device: manifest resolution, version gating against a ledger of
//! failed versions, release archive location and validation, and the
//! swap-and-supervise state machine with rollback.
//!
//! The library computes on plain values only. Whoever drives it performs the
//! network, file system and process work and reports the outcomes back.

pub mod err;
pub mod io;
pub mod logging;
pub mod text;
pub mod update;
