//! Now-playing metadata for a streaming radio: the gateway protocol's
//! decisions, the bounded track history, and the rule that picks which track
//! a listener with delayed audio should see.
//!
//! The library decides and computes; it opens no connection, starts no
//! thread and sleeps on no timer. Whoever drives it feeds it what happened
//! and carries out the actions it answers with.

pub mod clock;
pub mod controller;
pub mod generation;
pub mod history;
pub mod payload;
pub mod pending;
pub mod protocol;
pub mod schedule;
pub mod session;
pub mod station;
pub mod time_parse;
pub mod timestamp;
pub mod track;
pub mod worker;

pub use controller::Meta;
pub use track::TrackInfo;
