//! Snapshots of what the daemon reports: its configuration, its
//! connections and the completion of a folder on a remote device.
use vstd::prelude::*;

use crate::text::opt_string_chars;

verus! {

/// A device that shares a folder.
pub struct FolderDevice {
    pub device_id: String,
}

/// A folder of the daemon's configuration.
pub struct FolderConfig {
    pub id: String,
    pub label: Option<String>,
    pub path: Option<String>,
    pub paused: Option<bool>,
    pub devices: Vec<FolderDevice>,
}

/// A device of the daemon's configuration.
pub struct DeviceConfig {
    pub device_id: String,
    pub name: Option<String>,
    pub paused: Option<bool>,
}

/// The folders and devices of the daemon's configuration.
pub struct SyncthingConfig {
    pub folders: Vec<FolderConfig>,
    pub devices: Vec<DeviceConfig>,
}

/// What the daemon knows of its connection to one device.
pub struct ConnectionState {
    pub connected: bool,
    pub paused: bool,
    pub client_version: Option<String>,
    pub address: Option<String>,
    pub last_seen: Option<String>,
}

/// The daemon's connections, keyed by device id. The daemon reports each
/// device once; should an id appear twice, its first entry counts.
pub struct ConnectionsResponse {
    pub connections: Vec<(String, ConnectionState)>,
}

/// How far a remote device is with one folder. The completion is in
/// hundredths of a percent.
#[derive(Debug, Clone, Copy, PartialEq, Eq, Structural)]
pub struct RemoteCompletion {
    pub completion: Option<u64>,
    pub need_bytes: Option<u64>,
}

/// The label of a folder, or its id when it has none.
pub open spec fn label_or_id(f: FolderConfig) -> Seq<char> {
    match f.label {
        Some(l) => l@,
        None => f.id@,
    }
}

/// The connection recorded for device `id`: the first entry with that key.
pub open spec fn connection_in(conns: Seq<(String, ConnectionState)>, id: Seq<char>) -> Option<
    ConnectionState,
>
    decreases conns.len(),
{
    if conns.len() == 0 {
        None
    } else if conns[0].0@ == id {
        Some(conns[0].1)
    } else {
        connection_in(conns.drop_first(), id)
    }
}

impl ConnectionsResponse {
    /// No connection at all: what a failed connections call leaves.
    pub fn empty() -> (r: ConnectionsResponse)
        ensures
            r.connections@.len() == 0,
    {
        ConnectionsResponse { connections: Vec::new() }
    }

    /// The connection recorded for device `id`.
    pub fn get(&self, id: &String) -> (r: Option<&ConnectionState>)
        ensures
            match r {
                Some(c) => connection_in(self.connections@, id@) == Some(*c),
                None => connection_in(self.connections@, id@) is None,
            },
    {
        let mut i: usize = 0;
        assert(self.connections@.subrange(0, self.connections@.len() as int) =~= self.connections@);
        while i < self.connections.len()
            invariant
                i <= self.connections@.len(),
                connection_in(self.connections@, id@) == connection_in(
                    self.connections@.subrange(i as int, self.connections@.len() as int),
                    id@,
                ),
            decreases self.connections.len() - i,
        {
            let ghost rest = self.connections@.subrange(i as int, self.connections@.len() as int);
            assert(rest.drop_first() =~= self.connections@.subrange(i + 1, self.connections@.len() as int));
            assert(rest[0] == self.connections@[i as int]);
            let entry = &self.connections[i];
            if entry.0 == *id {
                return Some(&entry.1);
            }
            i = i + 1;
        }
        None
    }
}

/// A copy of an optional string.
pub fn clone_opt(s: &Option<String>) -> (r: Option<String>)
    ensures
        opt_string_chars(r) == opt_string_chars(*s),
{
    match s {
        Some(v) => Some(v.clone()),
        None => None,
    }
}

/// The label of a folder, or its id when it has none.
pub fn folder_label(f: &FolderConfig) -> (r: String)
    ensures
        r@ == label_or_id(*f),
{
    match &f.label {
        Some(l) => l.clone(),
        None => f.id.clone(),
    }
}

} // verus!
