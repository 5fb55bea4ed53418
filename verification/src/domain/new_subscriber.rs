//! A registration that passed validation.

use crate::domain::subscriber_password::SubscriberPassword;
use vstd::prelude::*;

verus! {

/// The subscriber that a registration form describes. The e-mail address
/// and the name are kept as the form gave them; the password is validated.
pub struct NewSubscriber {
    pub email: String,
    pub name: String,
    pub password: SubscriberPassword,
}

impl NewSubscriber {
    /// Accepts the fields of a registration form, or gives back the message
    /// that rejects the password.
    pub fn try_from(email: String, name: String, password: String) -> (r: Result<
        NewSubscriber,
        String,
    >)
        ensures
            match r {
                Ok(subscriber) => {
                    &&& SubscriberPassword::valid(password@)
                    &&& subscriber.email@ == email@
                    &&& subscriber.name@ == name@
                    &&& subscriber.password@ == password@
                },
                Err(message) => {
                    &&& !SubscriberPassword::valid(password@)
                    &&& message@ == SubscriberPassword::rejection()
                },
            },
    {
        match SubscriberPassword::parse(password) {
            Ok(password) => Ok(NewSubscriber { email, name, password }),
            Err(message) => Err(message),
        }
    }
}

} // verus!
