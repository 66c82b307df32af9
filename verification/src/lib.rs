//! A deterministic test harness for a retained-mode UI application model.
//!
//! The harness drives all deferred work synchronously: a cooperative task
//! queue is drained to quiescence instead of running on wall-clock time, so
//! tests are reproducible. Around that scheduler sit an event injector that
//! synthesizes keyboard and mouse input, a condition waiter that suspends a
//! test until a predicate over entity state holds, and a notification bridge
//! that turns change notifications into pollable streams.
//!
//! All application state is reached through exclusive borrows of one owned
//! context, so re-entrant access to shared state is ruled out at compile
//! time, and timeouts are measured on the context's own logical clock, which
//! keeps every wait deterministic.

pub mod app;
pub mod input;
pub mod keystroke;
pub mod list_item;
pub mod modal;
pub mod preview;
pub mod registry;
pub mod scheduler;
pub mod stream;
pub mod visual;

use vstd::prelude::*;

verus! {

} // verus!
