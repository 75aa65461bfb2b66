//! Incoming-message core of an end-to-end-encrypted chat protocol.
//!
//! Once the transport layer has decrypted a message envelope, this crate
//! decodes the opaque payload into a strongly-typed body according to the
//! protocol message-type tag, and resolves the fixed per-type record of
//! protocol-behavior properties (push, server lifetime, blocking exemption,
//! multi-device reflection, delivery receipts, ...) that downstream
//! components depend on for correctness.

pub mod bytes;
pub mod common;
pub mod message;
pub mod message_type;
pub mod utf8;
