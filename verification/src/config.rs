//! The configuration surface the core consumes, read-only, after the
//! excluded loading layer has produced it: connection parameters per
//! broker, a topic pattern set per monitored sensor, and the opaque
//! notification credentials.

use vstd::prelude::*;
use crate::topic::{matches_any, spec_matches_any, str_views};

verus! {

/// Connection parameters for one broker.
#[derive(Debug)]
pub struct MQTTConfig {
    pub hostname: String,
    pub port: u16,
    pub username: String,
    pub password: String,
    pub client_id: String,
}

/// The monitored topic pattern set for the flood sensor.
#[derive(Debug)]
pub struct MonitorsConfig {
    pub flood_topics: Vec<String>,
}

/// The opaque credentials of the notification sink: a recipient token and
/// an application token.
#[derive(Clone, Debug)]
pub struct PushoverConfig {
    pub user: String,
    pub token: String,
}

/// The finished configuration: one broker, the monitored topics, and the
/// notification credentials.
#[derive(Debug)]
pub struct AppConfig {
    pub mqtt: MQTTConfig,
    pub monitors: MonitorsConfig,
    pub pushover: PushoverConfig,
}

impl MonitorsConfig {
    /// Whether `topic` matches any configured flood topic pattern.
    pub fn is_flood_topic(&self, topic: &str) -> (r: bool)
        ensures
            r == spec_matches_any(str_views(self.flood_topics@), topic@),
    {
        matches_any(&self.flood_topics, topic)
    }
}

} // verus!
