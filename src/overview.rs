//! The daemon's own status, as the dashboard shows it.
use vstd::prelude::*;

use crate::json::{
    get_text, get_text_of_first, get_u64, get_u64_of_first, owned_text, text_field, text_of_first,
    u64_field, u64_of_first, JsonValue,
};
use crate::text::opt_string_chars;

verus! {

/// The daemon's status. Errors are non-empty only when the status could not
/// be had at all.
pub struct SyncthingOverview {
    pub available: bool,
    pub my_id: Option<String>,
    pub version: Option<String>,
    pub state: Option<String>,
    pub health: Option<String>,
    pub started_at: Option<String>,
    pub uptime_seconds: Option<u64>,
    pub sequence: Option<u64>,
    pub goroutine_count: Option<u64>,
    pub errors: Vec<String>,
}

/// `o` is the overview read from the status value `v`: each field from its
/// key, state and health falling back to `status`, the start time to
/// `startedAt`, the sequence to `dbSequence`.
pub open spec fn overview_spec(o: SyncthingOverview, v: JsonValue) -> bool {
    &&& o.available
    &&& opt_string_chars(o.my_id) == text_field(v, "myID"@)
    &&& opt_string_chars(o.version) == text_field(v, "version"@)
    &&& opt_string_chars(o.state) == text_of_first(v, "state"@, "status"@)
    &&& opt_string_chars(o.health) == text_of_first(v, "health"@, "status"@)
    &&& opt_string_chars(o.started_at) == text_of_first(v, "startTime"@, "startedAt"@)
    &&& o.uptime_seconds == u64_field(v, "uptime"@)
    &&& o.sequence == u64_of_first(v, "sequence"@, "dbSequence"@)
    &&& o.goroutine_count == u64_field(v, "goroutineCount"@)
    &&& o.errors@.len() == 0
}

impl SyncthingOverview {
    /// The overview read from the daemon's status value.
    pub fn from_value(value: &JsonValue) -> (r: SyncthingOverview)
        ensures
            overview_spec(r, *value),
    {
        SyncthingOverview {
            available: true,
            my_id: owned_text(get_text(value, "myID")),
            version: owned_text(get_text(value, "version")),
            state: owned_text(get_text_of_first(value, "state", "status")),
            health: owned_text(get_text_of_first(value, "health", "status")),
            started_at: owned_text(get_text_of_first(value, "startTime", "startedAt")),
            uptime_seconds: get_u64(value, "uptime"),
            sequence: get_u64_of_first(value, "sequence", "dbSequence"),
            goroutine_count: get_u64(value, "goroutineCount"),
            errors: Vec::new(),
        }
    }

    /// An unavailable daemon, with the reason.
    pub fn error(message: String) -> (r: SyncthingOverview)
        ensures
            !r.available,
            r.errors@.len() == 1,
            r.errors@[0]@ == message@,
            r.my_id is None && r.version is None && r.state is None && r.health is None,
            r.started_at is None && r.uptime_seconds is None && r.sequence is None,
            r.goroutine_count is None,
    {
        let mut errors: Vec<String> = Vec::new();
        errors.push(message);
        SyncthingOverview {
            available: false,
            my_id: None,
            version: None,
            state: None,
            health: None,
            started_at: None,
            uptime_seconds: None,
            sequence: None,
            goroutine_count: None,
            errors,
        }
    }
}

} // verus!
