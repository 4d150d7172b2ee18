//! Assembly of one aggregation cycle: the overview, the folder entries and
//! the peer list, from what the daemon answered during the cycle.
use vstd::prelude::*;

use crate::client::MonitorError;
use crate::daemon::{ConnectionState, ConnectionsResponse, SyncthingConfig};
use crate::events::{describes, is_latest_for, latest_folder_change, SyncthingEvent};
use crate::folder::{folder_payload_spec, FolderPayload};
use crate::json::{get_text, text_field, JsonValue};
use crate::metrics::{need_of, need_summary_for, summary_spec, CompletionSample};
use crate::overview::{overview_spec, SyncthingOverview};
use crate::text::opt_string_chars;
use crate::roster::{compose_peers, composed_peers, PeerPayload};

verus! {

/// How many recent events are read to find each folder's latest change.
pub const RECENT_EVENTS_LIMIT: u32 = 200;

/// Everything the dashboard shows after one cycle.
pub struct SyncthingData {
    pub overview: SyncthingOverview,
    pub folders: Vec<FolderPayload>,
    pub peers: Vec<PeerPayload>,
}

/// `changes` holds the latest change of folder `f`, or nothing when no event
/// records one.
pub open spec fn latest_changes_spec(changes: Seq<crate::events::FolderChange>, events: Seq<SyncthingEvent>, f: Seq<char>, now_millis: i64) -> bool {
    if exists|j: int| 0 <= j < events.len() && #[trigger] events[j].touches(f) {
        changes.len() == 1 && exists|i: int| is_latest_for(events, f, i) && describes(changes[0], events[i], now_millis)
    } else {
        changes.len() == 0
    }
}

/// The overview and the folder entries of `r` are those of a cycle with
/// these answers: the overview read from the status; per configured
/// folder, in order, its entry, the need of its peers and its latest change.
/// The connections play no part in them.
pub open spec fn composed_overview_and_folders(r: SyncthingData, now_millis: i64, status: JsonValue, config: SyncthingConfig, events: Seq<SyncthingEvent>, folder_statuses: Seq<JsonValue>, samples: Seq<CompletionSample>) -> bool {
    &&& overview_spec(r.overview, status)
    &&& r.folders@.len() == config.folders@.len()
    &&& forall|k: int| 0 <= k < r.folders@.len() ==> {
        &&& folder_payload_spec(#[trigger] r.folders@[k], config.folders@[k], folder_statuses[k])
        &&& r.folders@[k].peers_need_summary == summary_spec(need_of(config.folders@, samples, config.folders@[k].id@, text_field(status, "myID"@)))
        &&& latest_changes_spec(r.folders@[k].last_changes@, events, config.folders@[k].id@, now_millis)
    }
}

/// `r` is the dashboard's data of a cycle with these answers: its overview
/// and folders as above, and its peer list.
pub open spec fn composed_payload(r: SyncthingData, now_millis: i64, status: JsonValue, config: SyncthingConfig, events: Seq<SyncthingEvent>, folder_statuses: Seq<JsonValue>, samples: Seq<CompletionSample>, conns: Seq<(String, ConnectionState)>) -> bool {
    &&& composed_overview_and_folders(r, now_millis, status, config, events, folder_statuses, samples)
    &&& composed_peers(config.devices@, text_field(status, "myID"@), config.folders@, samples, conns, r.peers@.map_values(|p: PeerPayload| p@))
}

proof fn lemma_latest_unique(events: Seq<SyncthingEvent>, f: Seq<char>, i: int, j: int)
    requires
        is_latest_for(events, f, i),
        is_latest_for(events, f, j),
    ensures
        i == j,
{
    assert(events[j].touches(f));
    assert(events[i].touches(f));
}

/// Two payloads of cycles with the same answers but different connections
/// (say, one whose connections call failed) have the same overview and the
/// same folder entries; only their peer lists may differ.
pub proof fn lemma_same_overview_and_folders(r1: SyncthingData, r2: SyncthingData, now_millis: i64, status: JsonValue, config: SyncthingConfig, events: Seq<SyncthingEvent>, folder_statuses: Seq<JsonValue>, samples: Seq<CompletionSample>, conns1: Seq<(String, ConnectionState)>, conns2: Seq<(String, ConnectionState)>)
    requires
        composed_payload(r1, now_millis, status, config, events, folder_statuses, samples, conns1),
        composed_payload(r2, now_millis, status, config, events, folder_statuses, samples, conns2),
    ensures
        r1.overview.available == r2.overview.available,
        opt_string_chars(r1.overview.my_id) == opt_string_chars(r2.overview.my_id),
        opt_string_chars(r1.overview.version) == opt_string_chars(r2.overview.version),
        opt_string_chars(r1.overview.state) == opt_string_chars(r2.overview.state),
        opt_string_chars(r1.overview.health) == opt_string_chars(r2.overview.health),
        opt_string_chars(r1.overview.started_at) == opt_string_chars(r2.overview.started_at),
        r1.overview.uptime_seconds == r2.overview.uptime_seconds,
        r1.overview.sequence == r2.overview.sequence,
        r1.overview.goroutine_count == r2.overview.goroutine_count,
        r1.overview.errors@.len() == 0 && r2.overview.errors@.len() == 0,
        r1.folders@.len() == r2.folders@.len(),
        forall|k: int| 0 <= k < r1.folders@.len() ==> {
            let a = #[trigger] r1.folders@[k];
            let b = r2.folders@[k];
            &&& a.id@ == b.id@
            &&& a.label@ == b.label@
            &&& opt_string_chars(a.path) == opt_string_chars(b.path)
            &&& a.state@ == b.state@
            &&& a.state_code == b.state_code
            &&& opt_string_chars(a.state_raw) == opt_string_chars(b.state_raw)
            &&& a.paused == b.paused
            &&& a.global_bytes == b.global_bytes
            &&& a.in_sync_bytes == b.in_sync_bytes
            &&& a.need_bytes == b.need_bytes
            &&& a.completion == b.completion
            &&& a.peers_need_summary == b.peers_need_summary
            &&& a.last_changes@.len() == b.last_changes@.len()
            &&& a.last_changes@.len() == 1 ==> {
                &&& a.last_changes@[0].name@ == b.last_changes@[0].name@
                &&& a.last_changes@[0].action@ == b.last_changes@[0].action@
                &&& a.last_changes@[0].when@ == b.last_changes@[0].when@
                &&& opt_string_chars(a.last_changes@[0].origin) == opt_string_chars(b.last_changes@[0].origin)
            }
        },
{
    assert forall|k: int| 0 <= k < r1.folders@.len() implies {
        let a = #[trigger] r1.folders@[k];
        let b = r2.folders@[k];
        &&& a.id@ == b.id@
        &&& a.label@ == b.label@
        &&& opt_string_chars(a.path) == opt_string_chars(b.path)
        &&& a.state@ == b.state@
        &&& a.state_code == b.state_code
        &&& opt_string_chars(a.state_raw) == opt_string_chars(b.state_raw)
        &&& a.paused == b.paused
        &&& a.global_bytes == b.global_bytes
        &&& a.in_sync_bytes == b.in_sync_bytes
        &&& a.need_bytes == b.need_bytes
        &&& a.completion == b.completion
        &&& a.peers_need_summary == b.peers_need_summary
        &&& a.last_changes@.len() == b.last_changes@.len()
        &&& a.last_changes@.len() == 1 ==> {
            &&& a.last_changes@[0].name@ == b.last_changes@[0].name@
            &&& a.last_changes@[0].action@ == b.last_changes@[0].action@
            &&& a.last_changes@[0].when@ == b.last_changes@[0].when@
            &&& opt_string_chars(a.last_changes@[0].origin) == opt_string_chars(b.last_changes@[0].origin)
        }
    } by {
        let f = config.folders@[k].id@;
        assert(folder_payload_spec(r2.folders@[k], config.folders@[k], folder_statuses[k]));
        assert(latest_changes_spec(r1.folders@[k].last_changes@, events, f, now_millis));
        assert(latest_changes_spec(r2.folders@[k].last_changes@, events, f, now_millis));
        if r1.folders@[k].last_changes@.len() == 1 {
            let i = choose|i: int| is_latest_for(events, f, i) && describes(r1.folders@[k].last_changes@[0], events[i], now_millis);
            let j = choose|j: int| is_latest_for(events, f, j) && describes(r2.folders@[k].last_changes@[0], events[j], now_millis);
            lemma_latest_unique(events, f, i, j);
        }
    }
}

/// Assembles the dashboard's data from the answers of one cycle. Times of
/// changes are given relative to `now_millis`.
pub struct DataAggregator {
    pub now_millis: i64,
}

impl DataAggregator {
    /// An aggregator that dates changes relative to `now_millis`.
    pub fn new(now_millis: i64) -> (r: DataAggregator)
        ensures
            r.now_millis == now_millis,
    {
        DataAggregator { now_millis }
    }

    /// The dashboard's data from the daemon's status, its configuration, its
    /// recent events, the status of each configured folder (in the order of
    /// the configuration; anything else is refused), the completion samples of remote devices and the
    /// connections (empty when they could not be had).
    pub fn compose_payload(&self, status: &JsonValue, config: &SyncthingConfig, events: &Vec<SyncthingEvent>, folder_statuses: &Vec<JsonValue>, samples: &Vec<CompletionSample>, connections: &ConnectionsResponse) -> (r: Result<SyncthingData, MonitorError>)
        ensures
            r is Err <==> folder_statuses@.len() != config.folders@.len(),
            r matches Ok(data) ==> composed_payload(data, self.now_millis, *status, *config, events@, folder_statuses@, samples@, connections.connections@),
    {
        if folder_statuses.len() != config.folders.len() {
            return Err(MonitorError::Syncthing(String::from_str("folder statuses do not match the configured folders")));
        }
        let overview = SyncthingOverview::from_value(status);
        let my_id = get_text(status, "myID");
        let mut folders: Vec<FolderPayload> = Vec::new();
        let mut k: usize = 0;
        while k < config.folders.len()
            invariant
                k <= config.folders@.len(),
                folder_statuses@.len() == config.folders@.len(),
                crate::json::opt_text(my_id) == text_field(*status, "myID"@),
                folders@.len() == k,
                forall|m: int| 0 <= m < k ==> {
                    &&& folder_payload_spec(#[trigger] folders@[m], config.folders@[m], folder_statuses@[m])
                    &&& folders@[m].peers_need_summary == summary_spec(need_of(config.folders@, samples@, config.folders@[m].id@, text_field(*status, "myID"@)))
                    &&& latest_changes_spec(folders@[m].last_changes@, events@, config.folders@[m].id@, self.now_millis)
                },
            decreases config.folders.len() - k,
        {
            let folder = &config.folders[k];
            let mut last_changes: Vec<crate::events::FolderChange> = Vec::new();
            match latest_folder_change(events, folder.id.as_str(), self.now_millis) {
                Some(c) => {
                    last_changes.push(c);
                },
                None => {},
            }
            let summary = need_summary_for(&config.folders, samples, &folder.id, my_id);
            let payload = FolderPayload::from_parts(folder, &folder_statuses[k], last_changes, summary);
            folders.push(payload);
            k = k + 1;
        }
        let peers = compose_peers(&config.devices, my_id, &config.folders, samples, connections);
        Ok(SyncthingData { overview, folders, peers })
    }
}

} // verus!
