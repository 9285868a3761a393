//! Client-side protocol engine for a long-lived helper process that fetches
//! the manifest of a remote image.
//!
//! The client talks to the helper over a private, message-preserving channel.
//! Every call is one JSON request followed by one JSON reply; a reply may be
//! accompanied by a file descriptor through which bulk data is streamed.
//!
//! The crate holds the decisions of that protocol and none of its I/O:
//!
//! * [`codec`] frames requests and decodes replies,
//! * [`reply`] applies the rules that every reply has to meet,
//! * [`session`] sequences the calls, the descriptor handoff, the concurrent
//!   drain and the shutdown as a state machine that a driver feeds with events,
//! * [`transfer`] and [`supervisor`] judge the outcome of the bulk transfer and
//!   of the helper's exit,
//! * [`laws`] states what holds of every reply and of every step.
//!
//! JSON texts are read and written by `serde_json`, behind the functions of
//! [`json`]; those are the only parts of the crate that are taken on trust.

pub mod codec;
pub mod decimal;
pub mod descriptor;
pub mod error;
pub mod json;
pub mod laws;
pub mod reply;
pub mod session;
pub mod supervisor;
pub mod transfer;
