//! PFCP (Packet Forwarding Control Protocol, 3GPP TS 29.244) message codec.
//!
//! The crate encodes and decodes PFCP messages: the common message header,
//! the type-length-value Information Elements (IEs) that make up a message
//! body, and the message types built from them.
pub mod bytes;
pub mod error;
pub mod ie;
pub mod message;
