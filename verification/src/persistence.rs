//! What of a notification is stored, and how the storing loop goes on.

use vstd::prelude::*;
use vstd::std_specs::convert::FromSpecImpl;
use crate::notification::Received;

verus! {

/// What is stored of a notification.
#[derive(Clone, Debug, PartialEq, Eq)]
pub struct Notification {
    /// The name of the application that sent it.
    pub app_name: String,
    /// The headline.
    pub summary: String,
    /// The text.
    pub body: String,
    /// When it was received, in milliseconds of UTC since the start of 1970.
    pub created_at: i64,
}

impl FromSpecImpl<crate::notification::Notification> for Notification {
    open spec fn obeys_from_spec() -> bool {
        true
    }

    open spec fn from_spec(notification: crate::notification::Notification) -> Self {
        Self::of(notification)
    }
}

impl Notification {
    /// What is stored of `notification`: the name of the application, the headline, the
    /// text and the time of receipt, each as it is.
    pub open spec fn of(notification: crate::notification::Notification) -> Notification {
        Notification {
            app_name: notification.app_name,
            summary: notification.summary,
            body: notification.body,
            created_at: notification.created_at,
        }
    }
}

impl From<crate::notification::Notification> for Notification {
    /// Keeps of a notification what is stored: the name of the application, the
    /// headline, the text and the time of receipt.
    fn from(notification: crate::notification::Notification) -> (stored: Self) {
        let crate::notification::Notification { app_name, summary, body, created_at, .. } =
            notification;
        Notification { app_name, summary, body, created_at }
    }
}

/// A failure of the store to take a notification in.
#[derive(Debug, PartialEq, Eq)]
pub struct StoreError {
    /// What the store reported.
    pub reason: String,
}

/// What wakes the loop that stores notifications.
#[derive(Debug, PartialEq, Eq)]
pub enum Event {
    /// The shutdown signal fired.
    Shutdown,
    /// The channel handed this out.
    Received(Received),
    /// The store answered the last insert.
    Stored(Result<(), StoreError>),
}

/// What the storing loop does after an event.
#[derive(Debug, PartialEq, Eq)]
pub enum Action {
    /// Insert this into the store, then come back with the store's answer.
    Insert(Notification),
    /// Wait for the next event.
    Resume,
    /// Return, with success.
    Stop,
}

/// How the storing loop goes on after `event`.
pub open spec fn persist_spec(event: Event) -> Action {
    match event {
        Event::Shutdown => Action::Stop,
        Event::Received(Received::Record(notification)) => Action::Insert(
            Notification::of(notification),
        ),
        Event::Received(Received::Lagged(_)) => Action::Resume,
        Event::Received(Received::Closed) => Action::Stop,
        Event::Stored(_) => Action::Resume,
    }
}

/// One turn of the loop that stores notifications: takes the event that woke the loop and
/// says how the loop goes on.
///
/// Every notification received is inserted, once. Neither a gap in what was received nor
/// a failed insert ends the loop: it goes on with the next notification. The shutdown
/// signal ends it, and so does a channel that is closed.
pub fn persist(event: Event) -> (action: Action)
    ensures
        action == persist_spec(event),
{
    match event {
        Event::Shutdown => Action::Stop,
        Event::Received(Received::Record(notification)) => Action::Insert(
            Notification::from(notification),
        ),
        Event::Received(Received::Lagged(_)) => Action::Resume,
        Event::Received(Received::Closed) => Action::Stop,
        Event::Stored(_) => Action::Resume,
    }
}

} // verus!
