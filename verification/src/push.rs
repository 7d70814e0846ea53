//! Web push subscriptions.
//!
//! A client that wants push notifications hands in a subscription. It is
//! recorded with the session that the request came in on. This module decides
//! which record of which account that is; writing it is done elsewhere.
use vstd::prelude::*;

verus! {

/// What a browser hands out when it grants push notifications.
#[derive(Clone, Debug, PartialEq, Eq)]
pub struct Subscription {
    endpoint: String,
    p256dh: String,
    auth: String,
}

/// Model of [`Subscription`].
pub struct SubscriptionView {
    pub endpoint: Seq<char>,
    pub p256dh: Seq<char>,
    pub auth: Seq<char>,
}

impl View for Subscription {
    type V = SubscriptionView;

    closed spec fn view(&self) -> SubscriptionView {
        SubscriptionView { endpoint: self.endpoint@, p256dh: self.p256dh@, auth: self.auth@ }
    }
}

impl Subscription {
    /// A subscription of these three parts.
    pub fn new(endpoint: String, p256dh: String, auth: String) -> (subscription: Subscription)
        ensures
            subscription@ == (SubscriptionView {
                endpoint: endpoint@,
                p256dh: p256dh@,
                auth: auth@,
            }),
    {
        Subscription { endpoint, p256dh, auth }
    }

    /// The address that notifications are sent to.
    pub fn endpoint(&self) -> (endpoint: &String)
        ensures
            endpoint@ == self@.endpoint,
    {
        &self.endpoint
    }

    /// The client's public key.
    pub fn p256dh(&self) -> (key: &String)
        ensures
            key@ == self@.p256dh,
    {
        &self.p256dh
    }

    /// The client's authentication secret.
    pub fn auth(&self) -> (secret: &String)
        ensures
            secret@ == self@.auth,
    {
        &self.auth
    }
}

/// The session a request came in on, as far as subscribing reads it.
#[derive(Clone, Debug, PartialEq, Eq)]
pub struct Session {
    /// The id of the session, once it has one.
    pub id: Option<String>,
    /// The id of the account that the session belongs to.
    pub user_id: String,
}

/// One write to the accounts: the subscription of one session of one account.
#[derive(Clone, Debug, PartialEq, Eq)]
pub struct SubscriptionUpdate {
    /// The id of the account.
    pub user_id: String,
    /// The id of the session among the account's sessions.
    pub session_id: String,
    /// What to record as the session's subscription.
    pub subscription: Subscription,
}

/// Decides what subscribing `session` to `data` writes: the subscription, as it
/// came, to that session of the session's own account. The session must have
/// an id.
pub fn req(session: Session, data: Subscription) -> (update: SubscriptionUpdate)
    requires
        session.id is Some,
    ensures
        update.user_id@ == session.user_id@,
        update.session_id@ == session.id->0@,
        update.subscription@ == data@,
{
    let Session { id, user_id } = session;
    SubscriptionUpdate { user_id, session_id: id.unwrap(), subscription: data }
}

} // verus!
