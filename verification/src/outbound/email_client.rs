//! The adapter that notifies by email.

use vstd::prelude::*;

verus! {

/// An adapter to the notifier port that sends nothing yet.
#[derive(Debug, Clone, Copy, PartialEq, Eq, Structural)]
pub struct EmailClient;

impl EmailClient {
    pub fn new() -> (client: Self)
        ensures
            client == EmailClient,
    {
        Self
    }
}

} // verus!
