//! Block detection for three axle sensors.
//!
//! Each sensor reports edges on one input line. A rising edge means that the
//! axle position is blocked; it is due on arrival. A falling edge means that
//! the block was released; it is due only after it has lasted for the settle
//! delay. The edges of one sensor are reported in the order in which they
//! arrived, one message for each, and none is dropped: a rising edge that
//! arrives while a release of the same sensor still waits is reported right
//! after it, "clear" and then "blocked". The sensors do not wait for one
//! another.
//!
//! The crate holds the decisions only. The caller owns the lines, the clock
//! and the bus: it hands in each edge together with the current time, in
//! milliseconds, and publishes the messages that come back.
//!
//! - [`axle`], [`edge`], [`message`]: the data that goes in and out.
//! - [`classifier`]: what an edge means and when it is due.
//! - [`unit`]: the state of one sensor; [`detector`]: the three of them.
//! - [`pipeline`]: one turn of the event loop.
//! - [`history`], [`laws`]: what holds over any run of turns.

pub mod axle;
pub mod classifier;
pub mod detector;
pub mod edge;
pub mod history;
pub mod laws;
pub mod message;
pub mod pipeline;
pub mod unit;
