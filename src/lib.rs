//! A precise sleep built on a high-resolution waitable timer.
//!
//! The library holds the decisions of a precise sleeper: how a requested
//! duration becomes a relative timer deadline in 100-nanosecond ticks, and
//! the lifecycle of the one timer handle that a sleeper owns. The calls into
//! the operating system are made by the program around it, which hands each
//! outcome back as an event.
pub mod laws;
pub mod ticks;
pub mod timer;
