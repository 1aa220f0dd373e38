//! The status of a subscriber.

use vstd::prelude::*;

verus! {

/// How far a subscriber has come: registered and waiting for the
/// confirmation, or confirmed. There is no way back.
#[derive(Clone, Copy, Debug, PartialEq, Eq, Structural)]
pub enum SubscriberStatus {
    PendingConfirmation,
    Confirmed,
}

impl SubscriberStatus {
    /// The name of the status in the subscriber store.
    pub open spec fn name(self) -> Seq<char> {
        match self {
            SubscriberStatus::PendingConfirmation => "pending_confirmation"@,
            SubscriberStatus::Confirmed => "confirmed"@,
        }
    }

    /// The status of a subscriber after a confirmation: confirmed, whatever
    /// it was before.
    pub open spec fn after_confirmation(self) -> SubscriberStatus {
        SubscriberStatus::Confirmed
    }

    /// The name of the status in the subscriber store.
    pub fn as_str(&self) -> (name: &'static str)
        ensures
            name@ == self.name(),
    {
        match self {
            SubscriberStatus::PendingConfirmation => "pending_confirmation",
            SubscriberStatus::Confirmed => "confirmed",
        }
    }
}

} // verus!
