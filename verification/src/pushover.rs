//! Credentials for the push-messaging transport.
//!
//! The transport itself lives outside the library; it is selected when both
//! keys are present on the command line.

use vstd::prelude::*;

verus! {

/// The two keys the push-messaging service expects with every request.
pub struct PushoverClient {
    pub token: String,
    pub user: String,
}

} // verus!
