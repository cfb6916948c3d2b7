//! Pull-style adapters for callback-driven widgets.
//!
//! A widget toolkit pushes state at an application through registered hooks:
//! an activation callback that fires when the widget is triggered, and an
//! event handler that receives an event code. The listeners in this crate
//! turn that push style into a pull style: each one owns a single slot that
//! a hook fills and that the application later drains on demand. Slots are
//! last-write-wins and read-and-reset; values that arrive between two reads
//! are overwritten by design.
//!
//! [`blocking`] holds the single-threaded variant; [`asynch`] holds the
//! variant whose hooks hand the store to a task runtime, for use from
//! concurrent tasks.

pub mod asynch;
pub mod base;
pub mod blocking;

pub use asynch::AsyncListener;
pub use blocking::Listener;
