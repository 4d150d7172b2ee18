//! One aggregation cycle as a sequence of requests to the daemon: which
//! request comes next, what each answer adds, and how a failure ends the
//! cycle or is passed over.
use vstd::prelude::*;

use crate::aggregator::{composed_payload, DataAggregator, SyncthingData};
use crate::client::MonitorError;
use crate::daemon::{ConnectionsResponse, FolderConfig, RemoteCompletion, SyncthingConfig};
use crate::events::SyncthingEvent;
use crate::json::{get_text, opt_text, text_field, JsonValue};
use crate::metrics::{wants_completion, wants_spec, CompletionSample};

verus! {

/// A request of the cycle.
#[derive(Debug, Clone, Copy, PartialEq, Eq, Structural)]
pub enum CycleRequest {
    /// The daemon's system status.
    Status,
    /// The daemon's configuration.
    Config,
    /// The recent events.
    Events,
    /// The status of the folder at this position of the configuration.
    FolderStatus(usize),
    /// The completion of a folder (by position) on one of its devices (by position).
    Completion(usize, usize),
    /// The daemon's connections.
    Connections,
}

/// The daemon's answer to the pending request, or why there is none.
pub enum CycleReply {
    Status(JsonValue),
    Config(SyncthingConfig),
    Events(Vec<SyncthingEvent>),
    FolderStatus(JsonValue),
    Completion(RemoteCompletion),
    Connections(ConnectionsResponse),
    Failed(MonitorError),
}

/// What comes after a reply.
pub enum CycleStep {
    /// Send this request next.
    Next(CycleRequest),
    /// The cycle is complete.
    Done(SyncthingData),
    /// The cycle ends without a payload.
    Failed(MonitorError),
}

/// `reply` is of the kind that `pending` asks for; a failure answers any request.
pub open spec fn answers(reply: CycleReply, pending: CycleRequest) -> bool {
    match reply {
        CycleReply::Failed(_) => true,
        CycleReply::Status(_) => pending is Status,
        CycleReply::Config(_) => pending is Config,
        CycleReply::Events(_) => pending is Events,
        CycleReply::FolderStatus(_) => pending is FolderStatus,
        CycleReply::Completion(_) => pending is Completion,
        CycleReply::Connections(_) => pending is Connections,
    }
}

/// A request whose failure ends the cycle: the status, the configuration
/// and each folder's status. The others are best-effort.
pub open spec fn mandatory(pending: CycleRequest) -> bool {
    pending is Status || pending is Config || pending is FolderStatus
}

/// The connections that a reply gives: none unless it is the connections.
pub open spec fn reply_connections(reply: CycleReply) -> Seq<(String, crate::daemon::ConnectionState)> {
    match reply {
        CycleReply::Connections(c) => c.connections@,
        _ => Seq::empty(),
    }
}

/// Device `d` of folder `f` exists and its completion is asked for.
pub open spec fn wanted_pair(folders: Seq<FolderConfig>, my_id: Option<Seq<char>>, f: int, d: int) -> bool {
    0 <= f < folders.len() && 0 <= d < folders[f].devices@.len() && wants_spec(
        folders[f].devices@[d].device_id@,
        my_id,
    )
}

/// Pair `(f1, d1)` comes before or is `(f2, d2)`: folder first, then device.
pub open spec fn pair_le(f1: int, d1: int, f2: int, d2: int) -> bool {
    f1 < f2 || (f1 == f2 && d1 <= d2)
}

/// `p` is the first wanted pair at or after `(f, d)`; nothing when there is none.
pub open spec fn first_pair_from(folders: Seq<FolderConfig>, my_id: Option<Seq<char>>, f: int, d: int, p: Option<(usize, usize)>) -> bool {
    match p {
        Some((f2, d2)) => wanted_pair(folders, my_id, f2 as int, d2 as int) && pair_le(f, d, f2 as int, d2 as int) && forall|f3: int, d3: int|
            #[trigger] wanted_pair(folders, my_id, f3, d3) && pair_le(f, d, f3, d3) ==> pair_le(f2 as int, d2 as int, f3, d3),
        None => forall|f3: int, d3: int| #[trigger] wanted_pair(folders, my_id, f3, d3) ==> !pair_le(f, d, f3, d3),
    }
}

/// The request that follows the completions from `(f, d)` on: the first
/// wanted pair, or the connections when none is left.
pub open spec fn pair_request(folders: Seq<FolderConfig>, my_id: Option<Seq<char>>, f: int, d: int, next: CycleRequest) -> bool {
    match next {
        CycleRequest::Completion(f2, d2) => first_pair_from(folders, my_id, f, d, Some((f2, d2))),
        CycleRequest::Connections => first_pair_from(folders, my_id, f, d, None),
        _ => false,
    }
}

/// `next` is the request that follows `prev`: status, configuration, the
/// events and each folder's status when there are folders, the completion
/// of each wanted (folder, device) pair, then the connections.
pub open spec fn request_after(prev: CycleRequest, folders: Seq<FolderConfig>, my_id: Option<Seq<char>>, next: CycleRequest) -> bool {
    match prev {
        CycleRequest::Status => next == CycleRequest::Config,
        CycleRequest::Config => next == if folders.len() > 0 {
            CycleRequest::Events
        } else {
            CycleRequest::Connections
        },
        CycleRequest::Events => next == CycleRequest::FolderStatus(0),
        CycleRequest::FolderStatus(f) => if f + 1 < folders.len() {
            next == CycleRequest::FolderStatus((f + 1) as usize)
        } else {
            pair_request(folders, my_id, 0, 0, next)
        },
        CycleRequest::Completion(f, d) => pair_request(folders, my_id, f as int, d + 1, next),
        CycleRequest::Connections => false,
    }
}

/// The first wanted pair at or after `(f0, d0)`.
pub fn next_pair(folders: &Vec<FolderConfig>, my_id: Option<&str>, f0: usize, d0: usize) -> (r: Option<(usize, usize)>)
    ensures
        first_pair_from(folders@, opt_text(my_id), f0 as int, d0 as int, r),
{
    let ghost my = opt_text(my_id);
    let mut f = f0;
    let mut d = d0;
    while f < folders.len()
        invariant
            pair_le(f0 as int, d0 as int, f as int, d as int),
            my == opt_text(my_id),
            forall|f3: int, d3: int| #[trigger] wanted_pair(folders@, my, f3, d3) && pair_le(f0 as int, d0 as int, f3, d3) ==> pair_le(f as int, d as int, f3, d3),
        decreases folders@.len() - f, if f < folders@.len() && d < folders@[f as int].devices@.len() {
            folders@[f as int].devices@.len() - d
        } else {
            0
        },
    {
        let devices = &folders[f].devices;
        if d < devices.len() {
            if wants_completion(devices[d].device_id.as_str(), my_id) {
                return Some((f, d));
            }
            d = d + 1;
        } else {
            f = f + 1;
            d = 0;
        }
    }
    None
}

/// The state of a cycle: the request awaiting its reply and what the
/// replies so far gave.
pub struct AggregationCycle {
    pub now_millis: i64,
    pub pending: CycleRequest,
    pub status: JsonValue,
    pub config: SyncthingConfig,
    pub events: Vec<SyncthingEvent>,
    pub folder_statuses: Vec<JsonValue>,
    pub samples: Vec<CompletionSample>,
}

impl AggregationCycle {
    /// The identity of the local daemon, from its status.
    pub open spec fn my_id(&self) -> Option<Seq<char>> {
        text_field(self.status, "myID"@)
    }

    /// Each folder's status has been read before any completion, and each
    /// request awaits in its place.
    pub open spec fn wf(&self) -> bool {
        let n = self.config.folders@.len();
        match self.pending {
            CycleRequest::Events => n > 0 && self.folder_statuses@.len() == 0,
            CycleRequest::FolderStatus(f) => f < n && self.folder_statuses@.len() == f,
            CycleRequest::Completion(f, d) => self.folder_statuses@.len() == n && wanted_pair(
                self.config.folders@,
                self.my_id(),
                f as int,
                d as int,
            ),
            CycleRequest::Connections => self.folder_statuses@.len() == n,
            _ => self.folder_statuses@.len() == 0,
        }
    }

    /// A cycle that starts by asking for the status.
    pub fn new(now_millis: i64) -> (r: AggregationCycle)
        ensures
            r.wf(),
            r.now_millis == now_millis,
            r.pending == CycleRequest::Status,
            r.events@.len() == 0,
            r.samples@.len() == 0,
    {
        AggregationCycle {
            now_millis,
            pending: CycleRequest::Status,
            status: JsonValue::Null,
            config: SyncthingConfig { folders: Vec::new(), devices: Vec::new() },
            events: Vec::new(),
            folder_statuses: Vec::new(),
            samples: Vec::new(),
        }
    }

    /// The request that follows the completions from `(f, d)` on.
    fn pair_from(&self, f: usize, d: usize) -> (r: CycleRequest)
        ensures
            pair_request(self.config.folders@, self.my_id(), f as int, d as int, r),
            r matches CycleRequest::Completion(f2, d2) ==> wanted_pair(self.config.folders@, self.my_id(), f2 as int, d2 as int),
    {
        match next_pair(&self.config.folders, get_text(&self.status, "myID"), f, d) {
            Some((f2, d2)) => CycleRequest::Completion(f2, d2),
            None => CycleRequest::Connections,
        }
    }

    /// Takes the reply to the pending request. A failed status,
    /// configuration or folder-status request, or a reply of the wrong kind,
    /// ends the cycle; any other failure is passed over (no events, no
    /// sample for that pair, no connections). After the connections the cycle is
    /// done and yields the dashboard's data.
    pub fn step(&mut self, reply: CycleReply) -> (r: CycleStep)
        requires
            old(self).wf(),
        ensures
            final(self).wf(),
            final(self).now_millis == old(self).now_millis,
            r is Failed <==> !answers(reply, old(self).pending) || (reply is Failed && mandatory(old(self).pending)),
            match r {
                CycleStep::Next(next) => next == final(self).pending && request_after(old(self).pending, final(self).config.folders@, final(self).my_id(), next),
                CycleStep::Done(data) => old(self).pending == CycleRequest::Connections && composed_payload(data, old(self).now_millis, old(self).status, old(self).config, old(self).events@, old(self).folder_statuses@, old(self).samples@, reply_connections(reply)),
                CycleStep::Failed(_) => true,
            },
            old(self).pending is Status ==> (reply matches CycleReply::Status(v) ==> final(self).status == v),
            old(self).pending is Config ==> (reply matches CycleReply::Config(c) ==> final(self).config == c),
            old(self).pending is Events ==> (reply matches CycleReply::Events(e) ==> final(self).events == e),
            old(self).pending is FolderStatus ==> (reply matches CycleReply::FolderStatus(v) ==> final(self).folder_statuses@ == old(self).folder_statuses@.push(v)),
            old(self).pending matches CycleRequest::Completion(f, d) ==> (reply matches CycleReply::Completion(c) ==> {
                &&& final(self).samples@.len() == old(self).samples@.len() + 1
                &&& final(self).samples@.drop_last() == old(self).samples@
                &&& final(self).samples@.last().folder_index == f
                &&& final(self).samples@.last().device_id@ == old(self).config.folders@[f as int].devices@[d as int].device_id@
                &&& final(self).samples@.last().remote == c
            }),
            reply is Failed ==> final(self).samples@ == old(self).samples@,
            old(self).pending is Events && reply is Failed ==> final(self).events@.len() == 0,
            !mandatory(old(self).pending) ==> final(self).status == old(self).status && final(self).config == old(self).config,
    {
        let pending = self.pending;
        match reply {
            CycleReply::Failed(e) => match pending {
                CycleRequest::Completion(f, d) => {
                    let n_devices = self.config.folders[f].devices.len();
                    assert(d < n_devices);
                    let next = self.pair_from(f, d + 1);
                    assert(pair_request(self.config.folders@, self.my_id(), f as int, d + 1, next));
                    self.pending = next;
                    assert(request_after(pending, self.config.folders@, self.my_id(), next));
                    CycleStep::Next(next)
                },
                CycleRequest::Connections => {
                    let none = ConnectionsResponse::empty();
                    assert(none.connections@ =~= Seq::<(String, crate::daemon::ConnectionState)>::empty());
                    match self.finish(none) {
                        Ok(data) => CycleStep::Done(data),
                        Err(e) => CycleStep::Failed(e),
                    }
                },
                CycleRequest::Events => {
                    self.events = Vec::new();
                    self.pending = CycleRequest::FolderStatus(0);
                    CycleStep::Next(CycleRequest::FolderStatus(0))
                },
                _ => CycleStep::Failed(e),
            },
            CycleReply::Status(v) => match pending {
                CycleRequest::Status => {
                    self.status = v;
                    self.pending = CycleRequest::Config;
                    CycleStep::Next(CycleRequest::Config)
                },
                _ => CycleStep::Failed(unexpected()),
            },
            CycleReply::Config(c) => match pending {
                CycleRequest::Config => {
                    self.config = c;
                    let next = if self.config.folders.len() > 0 {
                        CycleRequest::Events
                    } else {
                        CycleRequest::Connections
                    };
                    self.pending = next;
                    CycleStep::Next(next)
                },
                _ => CycleStep::Failed(unexpected()),
            },
            CycleReply::Events(events) => match pending {
                CycleRequest::Events => {
                    self.events = events;
                    self.pending = CycleRequest::FolderStatus(0);
                    CycleStep::Next(CycleRequest::FolderStatus(0))
                },
                _ => CycleStep::Failed(unexpected()),
            },
            CycleReply::FolderStatus(v) => match pending {
                CycleRequest::FolderStatus(f) => {
                    let n = self.config.folders.len();
                    assert(f < n);
                    self.folder_statuses.push(v);
                    let next = if f + 1 < n {
                        CycleRequest::FolderStatus(f + 1)
                    } else {
                        self.pair_from(0, 0)
                    };
                    self.pending = next;
                    CycleStep::Next(next)
                },
                _ => CycleStep::Failed(unexpected()),
            },
            CycleReply::Completion(remote) => match pending {
                CycleRequest::Completion(f, d) => {
                    let n_devices = self.config.folders[f].devices.len();
                    assert(d < n_devices);
                    let device_id = self.config.folders[f].devices[d].device_id.clone();
                    self.samples.push(CompletionSample { folder_index: f, device_id, remote });
                    let next = self.pair_from(f, d + 1);
                    self.pending = next;
                    CycleStep::Next(next)
                },
                _ => CycleStep::Failed(unexpected()),
            },
            CycleReply::Connections(conns) => match pending {
                CycleRequest::Connections => match self.finish(conns) {
                    Ok(data) => CycleStep::Done(data),
                    Err(e) => CycleStep::Failed(e),
                },
                _ => CycleStep::Failed(unexpected()),
            },
        }
    }

    /// The dashboard's data from what the cycle gathered; with every
    /// folder's status in hand it cannot be refused.
    fn finish(&self, connections: ConnectionsResponse) -> (r: Result<SyncthingData, MonitorError>)
        requires
            self.wf(),
            self.pending == CycleRequest::Connections,
        ensures
            r is Ok,
            r matches Ok(data) ==> composed_payload(data, self.now_millis, self.status, self.config, self.events@, self.folder_statuses@, self.samples@, connections.connections@),
    {
        DataAggregator::new(self.now_millis).compose_payload(
            &self.status,
            &self.config,
            &self.events,
            &self.folder_statuses,
            &self.samples,
            &connections,
        )
    }
}

fn unexpected() -> (r: MonitorError)
    ensures
        r is Syncthing,
{
    MonitorError::Syncthing(String::from_str("reply does not answer the pending request"))
}

} // verus!
