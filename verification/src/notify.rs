//! Notification intents and their presentation: which kind of event
//! fired, on which topic, with what message body, urgency and sound. The
//! outbound delivery itself is an external, fire-and-forget sink.

use vstd::prelude::*;
use vstd::string::StringExecFns;

verus! {

/// The kind of condition that fired.
#[derive(Clone, Copy, Debug, PartialEq, Eq, Structural)]
pub enum NotificationKind {
    Flood,
    Mailbox,
    ApplianceDone,
}

/// One decision handed to the notification sink: a kind and the topic the
/// triggering message arrived on. Carries no retry state.
#[derive(Debug)]
pub struct NotificationIntent {
    pub kind: NotificationKind,
    pub topic: String,
}

/// How urgently a notification is delivered.
#[derive(Clone, Copy, Debug, PartialEq, Eq, Structural)]
pub enum Urgency {
    Normal,
    High,
}

/// The notification sound.
#[derive(Clone, Copy, Debug, PartialEq, Eq, Structural)]
pub enum Sound {
    Standard,
    Siren,
}

/// The urgency for each kind: flood warnings go out with high urgency,
/// everything else with normal urgency.
pub open spec fn spec_urgency(kind: NotificationKind) -> Urgency {
    match kind {
        NotificationKind::Flood => Urgency::High,
        _ => Urgency::Normal,
    }
}

/// The sound for each kind: flood warnings use the siren, everything else
/// the standard sound.
pub open spec fn spec_sound(kind: NotificationKind) -> Sound {
    match kind {
        NotificationKind::Flood => Sound::Siren,
        _ => Sound::Standard,
    }
}

/// The fixed prefix of the message body for each kind; the topic of the
/// triggering message follows it.
pub open spec fn spec_body_prefix(kind: NotificationKind) -> Seq<char> {
    match kind {
        NotificationKind::Flood => "Flood event on "@,
        NotificationKind::Mailbox => "Mailbox event on "@,
        NotificationKind::ApplianceDone => "Appliance finished on "@,
    }
}

impl NotificationKind {
    /// The delivery urgency for this kind.
    pub fn urgency(&self) -> (u: Urgency)
        ensures
            u == spec_urgency(*self),
    {
        match self {
            NotificationKind::Flood => Urgency::High,
            _ => Urgency::Normal,
        }
    }

    /// The notification sound for this kind.
    pub fn sound(&self) -> (s: Sound)
        ensures
            s == spec_sound(*self),
    {
        match self {
            NotificationKind::Flood => Sound::Siren,
            _ => Sound::Standard,
        }
    }
}

impl NotificationIntent {
    /// The human-readable message body: the kind's fixed prefix followed
    /// by the topic the triggering message arrived on.
    pub fn body(&self) -> (r: String)
        ensures
            r@ == spec_body_prefix(self.kind) + self.topic@,
    {
        let prefix: &str = match &self.kind {
            NotificationKind::Flood => "Flood event on ",
            NotificationKind::Mailbox => "Mailbox event on ",
            NotificationKind::ApplianceDone => "Appliance finished on ",
        };
        let body = String::from_str(prefix);
        body.concat(self.topic.as_str())
    }
}

} // verus!
