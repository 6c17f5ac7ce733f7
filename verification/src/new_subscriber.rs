//! A validated subscription request: an address and a name that both
//! passed their checks.

use vstd::prelude::*;

use crate::subscriber_email::SubscriberEmail;
use crate::subscriber_name::SubscriberName;

verus! {

/// A new subscriber, ready to be inserted pending confirmation.
#[derive(Debug, Clone)]
pub struct NewSubscriber {
    pub email: SubscriberEmail,
    pub name: SubscriberName,
}

} // verus!
