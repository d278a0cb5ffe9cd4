//! Concurrent fan-out/fan-in dispatch core.
//!
//! The library models an event-triggered handler that issues two independent
//! read operations against a shared backend client, joins both outcomes, and
//! decides how a single failing operation affects the overall result. The
//! dispatcher is exposed through an abstract capability trait so that test
//! doubles can stand in for the real client.

pub mod backend;
pub mod dispatch;
pub mod error;
pub mod handler;
pub mod outcome;
pub mod queries;
