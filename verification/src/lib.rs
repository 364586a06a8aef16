//! Relays text messages submitted over a network endpoint into a messaging
//! protocol session, one request at a time, and turns what the session
//! receives meanwhile into attributed, human-readable events.
//!
//! The crate holds the decisions: the order in which requests are served,
//! the steps of serving one, how an incoming item is classified and how an
//! attachment is named. The caller owns the session, the clock and the disk,
//! performs what the crate asks for and reports back what happened.

pub mod account;
pub mod arguments;
pub mod attachment;
pub mod classify;
pub mod content;
pub mod processor;
pub mod receive;
pub mod relayer;
pub mod signal_service;
pub mod text;
