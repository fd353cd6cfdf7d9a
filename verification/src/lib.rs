//! Codec and framing for a request/reply protocol that drives a remote
//! hardware debug probe over a byte stream.
//!
//! The library performs no I/O. [`commands`] turns typed commands into payload
//! bytes and payload bytes into typed replies. [`probe`] keeps the bytes that
//! are on their way to and from the stream and frames the messages.
//! [`access`] offers the register and sequence operations of the probe,
//! [`factory`] finds the probe, and [`error`] and [`text`] name what can fail.

pub mod error;
pub mod text;
pub mod commands;
pub mod probe;
pub mod dispatch;
pub mod access;
pub mod factory;
