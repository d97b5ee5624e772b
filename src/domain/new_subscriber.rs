use vstd::prelude::*;
use crate::domain::subscriber_email::SubscriberEmail;
use crate::domain::subscriber_name::SubscriberName;

verus! {

/// A subscriber whose name and email have both been validated.
pub struct NewSubscriber {
    pub email: SubscriberEmail,
    pub name: SubscriberName,
}

} // verus!
