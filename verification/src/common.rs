//! Common identity and message-id value types.
//!
//! Both are opaque, immutable, comparable values that arrive at this layer
//! already validated; their internal encoding is not this crate's concern.

use vstd::prelude::*;

verus! {

/// Identity of a user: a fixed-width, already-validated identity value.
#[derive(Clone, Copy, PartialEq, Eq, Debug)]
pub struct ThreemaId(pub [u8; 8]);

/// The ID of a message, unique per sender.
#[derive(Clone, Copy, PartialEq, Eq, Debug)]
pub struct MessageId(pub u64);

} // verus!
