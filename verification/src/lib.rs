//! Rules, watched items and the per-item debounce and transfer machine of a
//! tool that mirrors local source trees to one or more destinations.
//!
//! The library decides; it performs no I/O. A caller subscribes to change
//! notifications, sleeps, runs the transfer tool and reads the clock, and
//! hands what happened to the machine in [`sync::Sync`], which answers with
//! what to do next. All times are nanoseconds on a clock of the caller's
//! choosing that never runs backwards.

pub mod text;
pub mod paths;
pub mod config;
pub mod sync_item;
pub mod sync;
pub mod sync_manager;
pub mod trace;
