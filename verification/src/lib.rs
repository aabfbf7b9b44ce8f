//! Volume-change tracking for a native audio server.
//!
//! The library is the verified core of a desktop volume notifier: it
//! classifies remote audio objects, keeps per-object subscription records,
//! reconciles incoming volume events against application state, and decides
//! which desktop notifications should be shown, updated or closed.  All I/O
//! (the native event loop, the notification service, channels and threads)
//! lives outside the library and talks to it through plain values.

pub mod classify;
pub mod config;
pub mod keymap;
pub mod laws;
pub mod reconcile;
pub mod registry;
pub mod text;
pub mod volume;
