//! A session publishing and registry broker.
//!
//! Media-playing clients announce ("publish") controllable playback sessions
//! to a broker.  Each publish allocates a fresh 64-bit identifier, wraps the
//! client's capability handle in a session adapter, and hands the adapter to
//! a single registry authority through a bounded, first-in-first-out event
//! channel.  The registry drains the channel in arrival order and maintains
//! the authoritative map from identifier to live session.

pub mod channel;
pub mod laws;
pub mod publisher;
pub mod registry;
pub mod session;
