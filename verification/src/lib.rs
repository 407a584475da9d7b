//! Device control core for a dual-protocol audio setup: a multi-room player
//! speaking a JSON-line control protocol and a receiver speaking a
//! line-oriented ASCII control protocol.
//!
//! The crate holds the two protocol codecs, the parsers for the nested
//! `key=value` message encoding, the typed state model, and the reconciler
//! that folds decoded events into a unified application state. Socket I/O,
//! terminal handling and configuration files live outside this crate.

use vstd::prelude::*;

pub mod strutil;
pub mod types;
pub mod protocol;
pub mod json;
pub mod avr;
pub mod client;
pub mod config;
pub mod event;
pub mod reconcile;
pub mod discovery;
pub mod menus;

verus! {

/// Well-known TCP port of the player's JSON-line control protocol.
pub const HEOS_PORT: u16 = 1255;

/// Well-known TCP port of the receiver's ASCII control protocol.
pub const AVR_PORT: u16 = 23;

} // verus!
