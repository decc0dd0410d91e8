//! Per-sensor decision policies, each driven by a message payload.
//!
//! - The flood policy is stateless: it fires exactly when the payload is
//!   the literal truthy token `true`.
//! - The mailbox policy parses the payload as a JSON document and fires
//!   exactly when the numeric field at
//!   `uplink_message.decoded_payload.DOOR_OPEN_STATUS` equals `1`;
//!   malformed JSON and a missing or non-numeric field are "no event",
//!   never an error.
//! - The appliance-completion policy is an edge-triggered two-state
//!   machine with debounce: it fires on the transition into the completed
//!   state, and a payload other than the completion token re-arms it.

use vstd::prelude::*;
use crate::text::str_eq;

verus! {

/// The payload token that signals a flood reading.
pub open spec fn flood_token() -> Seq<char> {
    "true"@
}

/// Whether a flood message with payload `payload` fires a notification:
/// exactly when the payload is the literal token `true` (case-sensitive).
pub open spec fn spec_flood_fires(payload: Seq<char>) -> bool {
    payload == flood_token()
}

/// The stateless flood policy: every occurrence of the truthy token fires
/// independently; anything else never fires.
pub fn flood_fires(payload: &str) -> (fires: bool)
    ensures
        fires == spec_flood_fires(payload@),
{
    str_eq(payload, "true")
}

/// The signed integer found in the JSON document `payload` under the
/// object path `k1`.`k2`.`k3`, if the document parses, the path exists and
/// the value there is an integer representable as `i64`; `None` otherwise.
pub uninterp spec fn json_i64_at(
    payload: Seq<char>,
    k1: Seq<char>,
    k2: Seq<char>,
    k3: Seq<char>,
) -> Option<i64>;

/// Relies on serde_json::from_str, serde_json::Value::get and
/// serde_json::Value::as_i64: parsing and the lookup under the object path
/// `k1`.`k2`.`k3` depend on the arguments alone; a parse failure, a
/// missing member, a non-object on the path and a non-integer value all
/// yield `None`.
#[verifier::external_body]
fn json_i64_at_path(payload: &str, k1: &str, k2: &str, k3: &str) -> (r: Option<i64>)
    ensures
        r == json_i64_at(payload@, k1@, k2@, k3@),
{
    let doc: serde_json::Value = serde_json::from_str(payload).ok()?;
    doc.get(k1)?.get(k2)?.get(k3)?.as_i64()
}

/// Whether a mailbox message with payload `payload` fires a notification:
/// exactly when the payload is a JSON document whose numeric field at
/// `uplink_message.decoded_payload.DOOR_OPEN_STATUS` equals `1`.
pub open spec fn spec_mailbox_fires(payload: Seq<char>) -> bool {
    json_i64_at(payload, "uplink_message"@, "decoded_payload"@, "DOOR_OPEN_STATUS"@)
        == Some(1i64)
}

/// The mailbox policy: a safe path lookup into the payload's JSON
/// document. Malformed JSON, a missing field and a non-numeric field are
/// uniformly "no event" — they never fire and never raise.
pub fn mailbox_fires(payload: &str) -> (fires: bool)
    ensures
        fires == spec_mailbox_fires(payload@),
{
    let r = json_i64_at_path(payload, "uplink_message", "decoded_payload", "DOOR_OPEN_STATUS");
    match r {
        Some(v) => v == 1i64,
        None => false,
    }
}

/// The payload token that signals a completed appliance program.
pub open spec fn done_token() -> Seq<char> {
    "ProgramFinished"@
}

/// Whether the appliance policy fires when it sees `payload` while its
/// persisted flag is `finished`: exactly on the completion token while not
/// yet in the completed state.
pub open spec fn spec_appliance_fires(finished: bool, payload: Seq<char>) -> bool {
    !finished && payload == done_token()
}

/// The appliance policy's next persisted flag after seeing `payload`: the
/// completion token moves it to (or keeps it in) the completed state, and
/// any other payload re-arms it.
pub open spec fn spec_appliance_next(payload: Seq<char>) -> bool {
    payload == done_token()
}

/// The persisted per-sensor state of the appliance-completion policy:
/// `finished` records whether the last observed completion state was
/// "completed", so that a still-finished appliance is not re-announced.
pub struct EdgeState {
    pub finished: bool,
}

impl EdgeState {
    /// A fresh detector, armed for the next completion.
    pub fn new() -> (s: Self)
        ensures
            !s.finished,
    {
        EdgeState { finished: false }
    }

    /// Feed one payload through the two-state machine; true means "the
    /// appliance just completed", reported once per completion.
    pub fn on_payload(&mut self, payload: &str) -> (fires: bool)
        ensures
            fires == spec_appliance_fires(old(self).finished, payload@),
            final(self).finished == spec_appliance_next(payload@),
    {
        let done = str_eq(payload, "ProgramFinished");
        let fires = done && !self.finished;
        self.finished = done;
        fires
    }
}

/// Law: replaying a payload through the appliance policy never fires —
/// after any payload is consumed, feeding the very same payload again
/// finds the detector either already in the completed state (for the
/// completion token) or seeing a non-completion token, so a repeated
/// message can never double-fire, whatever state the detector began in.
pub proof fn lemma_appliance_no_repeat(payload: Seq<char>)
    ensures
        !spec_appliance_fires(spec_appliance_next(payload), payload),
{
}

} // verus!
