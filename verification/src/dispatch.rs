//! The per-session dispatcher: binds the session's configured topic
//! pattern sets to the decision policies, owns the appliance edge state,
//! and turns each inbound `(topic, payload)` message into the list of
//! notification intents that fired for it. Every content error is
//! absorbed here as "no decision" — nothing propagates upward.

use vstd::prelude::*;
use crate::notify::{NotificationIntent, NotificationKind};
use crate::policy::{
    flood_fires, mailbox_fires, spec_appliance_fires, spec_appliance_next, spec_flood_fires,
    spec_mailbox_fires, EdgeState,
};
use crate::topic::{matches_any, spec_matches_any, str_views};

verus! {

/// One session's dispatcher: a topic pattern set per policy, loaded once
/// and never mutated, and the persisted appliance edge state.
#[verifier::ext_equal]
pub struct Dispatcher {
    pub flood_topics: Vec<String>,
    pub mailbox_topics: Vec<String>,
    pub appliance_topics: Vec<String>,
    pub appliance: EdgeState,
}

/// Whether the flood policy fires for this message: the topic matches the
/// flood pattern set and the payload is the truthy token.
pub open spec fn spec_flood_fired(d: Dispatcher, topic: Seq<char>, payload: Seq<char>) -> bool {
    spec_matches_any(str_views(d.flood_topics@), topic) && spec_flood_fires(payload)
}

/// Whether the mailbox policy fires for this message: the topic matches
/// the mailbox pattern set and the payload's nested door-status field
/// equals 1.
pub open spec fn spec_mailbox_fired(d: Dispatcher, topic: Seq<char>, payload: Seq<char>) -> bool {
    spec_matches_any(str_views(d.mailbox_topics@), topic) && spec_mailbox_fires(payload)
}

/// Whether the appliance policy fires for this message: the topic matches
/// the appliance pattern set and the payload is the completion token
/// while the detector is still armed.
pub open spec fn spec_appliance_fired(d: Dispatcher, topic: Seq<char>, payload: Seq<char>) -> bool {
    spec_matches_any(str_views(d.appliance_topics@), topic)
        && spec_appliance_fires(d.appliance.finished, payload)
}

/// The appliance flag after this message: updated by the edge machine
/// when the topic matches the appliance pattern set, untouched otherwise.
pub open spec fn spec_next_finished(d: Dispatcher, topic: Seq<char>, payload: Seq<char>) -> bool {
    if spec_matches_any(str_views(d.appliance_topics@), topic) {
        spec_appliance_next(payload)
    } else {
        d.appliance.finished
    }
}

/// The dispatcher after this message: the pattern sets are immutable, and
/// only the appliance edge state advances.
pub open spec fn spec_step(d: Dispatcher, topic: Seq<char>, payload: Seq<char>) -> Dispatcher {
    Dispatcher { appliance: EdgeState { finished: spec_next_finished(d, topic, payload) }, ..d }
}

/// The kinds fired for this message, in policy order: flood, mailbox,
/// appliance completion. More than one may fire for the same message.
pub open spec fn spec_fired_kinds(
    d: Dispatcher,
    topic: Seq<char>,
    payload: Seq<char>,
) -> Seq<NotificationKind> {
    (if spec_flood_fired(d, topic, payload) {
        seq![NotificationKind::Flood]
    } else {
        Seq::<NotificationKind>::empty()
    }) + (if spec_mailbox_fired(d, topic, payload) {
        seq![NotificationKind::Mailbox]
    } else {
        Seq::<NotificationKind>::empty()
    }) + (if spec_appliance_fired(d, topic, payload) {
        seq![NotificationKind::ApplianceDone]
    } else {
        Seq::<NotificationKind>::empty()
    })
}

/// The kinds of a list of intents, in order.
pub open spec fn kinds_of(intents: Seq<NotificationIntent>) -> Seq<NotificationKind> {
    intents.map_values(|it: NotificationIntent| it.kind)
}

impl Dispatcher {
    /// A dispatcher for one session, with the appliance detector armed.
    pub fn new(
        flood_topics: Vec<String>,
        mailbox_topics: Vec<String>,
        appliance_topics: Vec<String>,
    ) -> (d: Dispatcher)
        ensures
            d.flood_topics == flood_topics,
            d.mailbox_topics == mailbox_topics,
            d.appliance_topics == appliance_topics,
            !d.appliance.finished,
    {
        Dispatcher { flood_topics, mailbox_topics, appliance_topics, appliance: EdgeState::new() }
    }

    /// The single entry point per received message: run every policy
    /// whose pattern set the topic matches, advance the appliance edge
    /// state, and return the intents that fired, each carrying this
    /// topic. Never raises: a message that fires nothing yields an empty
    /// list.
    pub fn on_message(&mut self, topic: &str, payload: &str) -> (intents: Vec<NotificationIntent>)
        ensures
            *final(self) == spec_step(*old(self), topic@, payload@),
            kinds_of(intents@) == spec_fired_kinds(*old(self), topic@, payload@),
            forall|j: int| 0 <= j < intents@.len() ==> intents@[j].topic@ == topic@,
    {
        let ghost d0: Dispatcher = *self;
        let mut intents: Vec<NotificationIntent> = Vec::new();
        if matches_any(&self.flood_topics, topic) && flood_fires(payload) {
            intents.push(
                NotificationIntent { kind: NotificationKind::Flood, topic: topic.to_owned() },
            );
        }
        if matches_any(&self.mailbox_topics, topic) && mailbox_fires(payload) {
            intents.push(
                NotificationIntent { kind: NotificationKind::Mailbox, topic: topic.to_owned() },
            );
        }
        if matches_any(&self.appliance_topics, topic) {
            let fires = self.appliance.on_payload(payload);
            if fires {
                intents.push(
                    NotificationIntent {
                        kind: NotificationKind::ApplianceDone,
                        topic: topic.to_owned(),
                    },
                );
            }
        }
        proof {
            assert(kinds_of(intents@) =~= spec_fired_kinds(d0, topic@, payload@));
            assert(*self =~= spec_step(d0, topic@, payload@));
        }
        intents
    }
}

/// Law (isolation): a message that leaves the dispatcher state unchanged
/// — in particular one absorbed as "no decision", such as a mailbox
/// message whose payload fails to parse on a topic outside the appliance
/// pattern set — has no effect on what any later message dispatches.
pub proof fn lemma_isolation(
    d: Dispatcher,
    t1: Seq<char>,
    p1: Seq<char>,
    t2: Seq<char>,
    p2: Seq<char>,
)
    requires
        spec_next_finished(d, t1, p1) == d.appliance.finished,
    ensures
        spec_fired_kinds(spec_step(d, t1, p1), t2, p2) == spec_fired_kinds(d, t2, p2),
        spec_step(spec_step(d, t1, p1), t2, p2) == spec_step(d, t2, p2),
{
    assert(spec_step(d, t1, p1) =~= d);
}

/// Law (idempotent replay): replaying an already-dispatched message has
/// no side effects beyond the policies' defined semantics — the stateless
/// flood and mailbox policies decide exactly as before (flood fires again
/// by design), while the appliance policy never fires on the replay.
pub proof fn lemma_replay(d: Dispatcher, t: Seq<char>, p: Seq<char>)
    ensures
        spec_flood_fired(spec_step(d, t, p), t, p) == spec_flood_fired(d, t, p),
        spec_mailbox_fired(spec_step(d, t, p), t, p) == spec_mailbox_fired(d, t, p),
        !spec_appliance_fired(spec_step(d, t, p), t, p),
        spec_step(spec_step(d, t, p), t, p) == spec_step(d, t, p),
{
    assert(spec_step(spec_step(d, t, p), t, p) =~= spec_step(d, t, p));
}

} // verus!
