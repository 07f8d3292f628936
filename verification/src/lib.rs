//! Scheduling core of a desktop status line.
//!
//! A foreground loop renders the line once per minute; a background watcher
//! polls the volatile part of the machine state (battery charging, network
//! connectivity) at an adaptive cadence and wakes the loop early when that
//! state changes. This crate holds the decisions of both, stated over plain
//! values; sleeping, sampling and displaying are left to the caller.
//!
//! - [`volatile`]: the volatile state and its parts.
//! - [`watcher`]: the change watcher and its polling interval.
//! - [`wake`]: the single-slot wake signal.
//! - [`schedule`]: the status loop and the wait to the minute boundary.
//! - [`network`]: the connection type, from the listed interfaces.
//! - [`wireless`]: the signal level in the table of wireless interfaces.
//! - [`weather`]: the weather part of the line.
//! - [`render`]: numbers in decimal, and the memory figure.
//! - [`line`]: the other parts of the line, and the line itself.

pub mod line;
pub mod network;
pub mod render;
pub mod schedule;
pub mod volatile;
pub mod wake;
pub mod watcher;
pub mod weather;
pub mod wireless;
