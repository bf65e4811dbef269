//! The identifier a conversation is keyed by.

use vstd::prelude::*;

verus! {

/// A conversation identifier.
#[derive(Debug, Clone, Copy, PartialEq, Eq, Structural, Hash)]
pub struct ChatId(pub u64);

impl From<i64> for ChatId {
    /// The identifier a platform chat number maps to, bit for bit.
    fn from(value: i64) -> Self {
        ChatId(value as u64)
    }
}

impl vstd::std_specs::convert::FromSpecImpl<i64> for ChatId {
    open spec fn obeys_from_spec() -> bool {
        true
    }

    open spec fn from_spec(v: i64) -> Self {
        ChatId(v as u64)
    }
}

} // verus!
