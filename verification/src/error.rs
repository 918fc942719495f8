//! The two failure kinds a lookup can surface.

use vstd::prelude::*;
use vstd::string::StringExecFns;

verus! {

/// Why a lookup failed: the network exchange could not be completed, or the
/// response body did not have the expected document shape. Nothing is
/// retried and no failure is translated into an absent outcome.
#[derive(Debug)]
pub enum LyricError {
    Transport { detail: String },
    Decode { detail: String },
}

impl LyricError {
    /// Whether this is a network-layer failure.
    pub fn is_transport(&self) -> (r: bool)
        ensures
            r == (self is Transport),
    {
        match self {
            LyricError::Transport { .. } => true,
            LyricError::Decode { .. } => false,
        }
    }

    /// Whether this is a malformed-response failure.
    pub fn is_decode(&self) -> (r: bool)
        ensures
            r == (self is Decode),
    {
        match self {
            LyricError::Transport { .. } => false,
            LyricError::Decode { .. } => true,
        }
    }

    /// The failure as one line of text: its kind, then its detail.
    pub fn message(&self) -> (r: String)
        ensures
            self matches LyricError::Transport { detail } ==> r@ == "transport error: "@
                + detail@,
            self matches LyricError::Decode { detail } ==> r@ == "decode error: "@ + detail@,
    {
        match self {
            LyricError::Transport { detail } => String::from_str("transport error: ").concat(
                detail.as_str(),
            ),
            LyricError::Decode { detail } => String::from_str("decode error: ").concat(
                detail.as_str(),
            ),
        }
    }
}

} // verus!
