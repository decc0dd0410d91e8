//! The decision core of one broker session's receive loop. The loop
//! itself — polling the connection, sleeping through backoff, performing
//! subscribes and sends — is outside work; every decision it takes is
//! made here, as a step function from the session state and one protocol
//! event to the action the loop must perform. A session deliberately runs
//! forever: no event ever yields a "stop" action, transient errors yield
//! a bounded backoff and the connection machinery reconnects.

use vstd::prelude::*;
use crate::dispatch::{kinds_of, spec_fired_kinds, spec_step, Dispatcher};
use crate::notify::NotificationIntent;
use crate::topic::str_views;

verus! {

/// One protocol event, as seen by a session's receive loop.
pub enum SessionEvent {
    /// The broker acknowledged a (re-)connection.
    Connected,
    /// An incoming publish; the payload has already been decoded as
    /// UTF-8, lossily, so malformed bytes can never fail the session.
    Publish { topic: String, payload: String },
    /// A transient transport or protocol error.
    TransportError,
    /// Any other protocol-internal event.
    Other,
}

/// The action the receive loop must perform in response to one event.
pub enum SessionAction {
    /// (Re-)subscribe to every listed topic pattern, in order, at the
    /// lowest delivery-guarantee quality of service.
    Subscribe { topics: Vec<String> },
    /// Hand these fired intents to the notification sink.
    Deliver { intents: Vec<NotificationIntent> },
    /// Wait the fixed backoff interval, then resume polling.
    Backoff,
    /// Log at low verbosity and carry on.
    Ignore,
}

/// One broker session's state: the topic patterns it must hold a
/// subscription to for its whole lifetime, and the dispatcher owning all
/// per-topic decision state for this session.
pub struct BrokerSession {
    pub subscribe_topics: Vec<String>,
    pub dispatcher: Dispatcher,
}

/// A copy of a topic pattern list, character for character.
fn clone_topics(v: &Vec<String>) -> (r: Vec<String>)
    ensures
        str_views(r@) == str_views(v@),
{
    let mut r: Vec<String> = Vec::new();
    let mut i: usize = 0;
    while i < v.len()
        invariant
            i <= v.len(),
            r@.len() == i,
            forall|j: int| 0 <= j < i ==> r@[j]@ == v@[j]@,
        decreases v.len() - i,
    {
        r.push(v[i].clone());
        i = i + 1;
    }
    proof {
        assert(str_views(r@) =~= str_views(v@));
    }
    r
}

impl BrokerSession {
    /// A session that will hold subscriptions to `subscribe_topics` and
    /// route every received message through `dispatcher`.
    pub fn new(subscribe_topics: Vec<String>, dispatcher: Dispatcher) -> (s: BrokerSession)
        ensures
            s.subscribe_topics == subscribe_topics,
            s.dispatcher == dispatcher,
    {
        BrokerSession { subscribe_topics, dispatcher }
    }

    /// Decide the loop's next action for one polled event.
    ///
    /// The subscription set never changes, so after any sequence of
    /// transient errors and reconnections, the acknowledgement of the
    /// reconnect re-subscribes to exactly the configured topic set — no
    /// duplicate, missing or reordered patterns. A transient error only
    /// backs off: the session never exits. Only a publish changes any
    /// state at all, and only through the dispatcher's step.
    pub fn handle_event(&mut self, event: &SessionEvent) -> (action: SessionAction)
        ensures
            final(self).subscribe_topics == old(self).subscribe_topics,
            *event matches SessionEvent::Connected ==> ({
                &&& *final(self) == *old(self)
                &&& (action matches SessionAction::Subscribe { topics }
                    && str_views(topics@) == str_views(old(self).subscribe_topics@))
            }),
            *event matches SessionEvent::Publish { topic, payload } ==> ({
                &&& final(self).dispatcher == spec_step(old(self).dispatcher, topic@, payload@)
                &&& (action matches SessionAction::Deliver { intents } && {
                    &&& kinds_of(intents@) == spec_fired_kinds(
                        old(self).dispatcher,
                        topic@,
                        payload@,
                    )
                    &&& forall|j: int| 0 <= j < intents@.len() ==> intents@[j].topic@ == topic@
                })
            }),
            *event matches SessionEvent::TransportError ==> ({
                &&& *final(self) == *old(self)
                &&& action == SessionAction::Backoff
            }),
            *event matches SessionEvent::Other ==> ({
                &&& *final(self) == *old(self)
                &&& action == SessionAction::Ignore
            }),
    {
        match event {
            SessionEvent::Connected => {
                let topics = clone_topics(&self.subscribe_topics);
                SessionAction::Subscribe { topics }
            },
            SessionEvent::Publish { topic, payload } => {
                let intents = self.dispatcher.on_message(topic.as_str(), payload.as_str());
                SessionAction::Deliver { intents }
            },
            SessionEvent::TransportError => SessionAction::Backoff,
            SessionEvent::Other => SessionAction::Ignore,
        }
    }
}

} // verus!
