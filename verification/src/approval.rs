//! The payload that is offered to overlays until one of them claims it.

use vstd::prelude::*;

verus! {

/// A decision that waits for the user: "allow this action?".
///
/// To the view contract the request is a payload. It is moved, never copied:
/// whoever holds the value owns the request, which is why the type has no
/// `Clone`. Two requests are the same request when both fields agree.
#[derive(Debug, PartialEq, Eq)]
pub struct ApprovalRequest {
    /// Names the request towards whoever raised it.
    pub id: String,
    /// What the user is asked to allow.
    pub prompt: String,
}

} // verus!
