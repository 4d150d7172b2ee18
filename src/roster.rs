//! The list of remote peers: one entry per configured device other than the
//! local daemon, sorted case-insensitively by name.
use vstd::prelude::*;
use vstd::seq_lib::{group_to_multiset_ensures, to_multiset_build, to_multiset_insert};

use crate::daemon::{clone_opt, connection_in, ConnectionState, ConnectionsResponse, DeviceConfig, FolderConfig};
use crate::metrics::{progress_for, progress_of, wants_completion, wants_spec, CompletionSample};
use crate::peer::{average_spec, PeerFolderState, PeerFolderView, PeerProgressView};
use crate::text::{chars_of, lower_of, opt_chars, opt_string_chars, to_lowercase};

verus! {

/// A remote peer as the dashboard shows it. Completion is in hundredths of
/// a percent.
pub struct PeerPayload {
    pub id: String,
    pub name: String,
    pub connected: bool,
    pub paused: bool,
    pub address: Option<String>,
    pub client_version: Option<String>,
    pub last_seen: Option<String>,
    pub completion: Option<u64>,
    pub need_bytes: Option<u64>,
    pub folders: Vec<PeerFolderState>,
}

/// The mathematical view of a `PeerPayload`.
pub struct PeerPayloadView {
    pub id: Seq<char>,
    pub name: Seq<char>,
    pub connected: bool,
    pub paused: bool,
    pub address: Option<Seq<char>>,
    pub client_version: Option<Seq<char>>,
    pub last_seen: Option<Seq<char>>,
    pub completion: Option<u64>,
    pub need_bytes: Option<u64>,
    pub folders: Seq<PeerFolderView>,
}

impl View for PeerPayload {
    type V = PeerPayloadView;

    open spec fn view(&self) -> PeerPayloadView {
        PeerPayloadView {
            id: self.id@,
            name: self.name@,
            connected: self.connected,
            paused: self.paused,
            address: opt_string_chars(self.address),
            client_version: opt_string_chars(self.client_version),
            last_seen: opt_string_chars(self.last_seen),
            completion: self.completion,
            need_bytes: self.need_bytes,
            folders: self.folders@.map_values(|f: PeerFolderState| f@),
        }
    }
}

/// The entry of device `d`, given its connection, if any, and its progress.
pub open spec fn peer_view(d: DeviceConfig, c: Option<ConnectionState>, p: PeerProgressView) -> PeerPayloadView {
    PeerPayloadView {
        id: d.device_id@,
        name: match d.name {
            Some(n) => n@,
            None => d.device_id@,
        },
        connected: match c {
            Some(c) => c.connected,
            None => false,
        },
        paused: d.paused.unwrap_or(false) || match c {
            Some(c) => c.paused,
            None => false,
        },
        address: match c {
            Some(c) => opt_string_chars(c.address),
            None => None,
        },
        client_version: match c {
            Some(c) => opt_string_chars(c.client_version),
            None => None,
        },
        last_seen: match c {
            Some(c) => opt_string_chars(c.last_seen),
            None => None,
        },
        completion: average_spec(p),
        need_bytes: if p.total_need_bytes > 0 {
            Some(p.total_need_bytes)
        } else {
            None
        },
        folders: p.folders,
    }
}

/// The entry of device `d` in a cycle with these folders, samples and connections.
pub open spec fn peer_of(d: DeviceConfig, folders: Seq<FolderConfig>, samples: Seq<CompletionSample>, conns: Seq<(String, ConnectionState)>) -> PeerPayloadView {
    peer_view(d, connection_in(conns, d.device_id@), progress_of(folders, samples, d.device_id@))
}

/// The entries of the devices other than the local one, in configuration order.
pub open spec fn expected_peers(devices: Seq<DeviceConfig>, my_id: Option<Seq<char>>, folders: Seq<FolderConfig>, samples: Seq<CompletionSample>, conns: Seq<(String, ConnectionState)>) -> Seq<PeerPayloadView>
    decreases devices.len(),
{
    if devices.len() == 0 {
        Seq::empty()
    } else {
        let rest = expected_peers(devices.drop_last(), my_id, folders, samples, conns);
        if wants_spec(devices.last().device_id@, my_id) {
            rest.push(peer_of(devices.last(), folders, samples, conns))
        } else {
            rest
        }
    }
}

/// Lexicographic order of character sequences, by code point.
pub open spec fn lex_le(a: Seq<char>, b: Seq<char>) -> bool
    decreases a.len(),
{
    if a.len() == 0 {
        true
    } else if b.len() == 0 {
        false
    } else if (a[0] as u32) < (b[0] as u32) {
        true
    } else if (a[0] as u32) == (b[0] as u32) {
        lex_le(a.drop_first(), b.drop_first())
    } else {
        false
    }
}

/// The entries are in order of their lower-cased names.
pub open spec fn sorted_by_name(r: Seq<PeerPayloadView>) -> bool {
    forall|i: int, j: int| 0 <= i < j < r.len() ==> lex_le(lower_of(#[trigger] r[i].name), lower_of(#[trigger] r[j].name))
}

/// Two keys are equal in code point order.
pub open spec fn same_key(a: Seq<char>, b: Seq<char>) -> bool {
    lex_le(a, b) && lex_le(b, a)
}

/// Entry `m` of `r` is the entry of the configured device at `idx[m]`, a
/// device other than the local one, and entries with the same lower-cased
/// name come in the order of their devices.
pub open spec fn indexed_by(r: Seq<PeerPayloadView>, idx: Seq<int>, devices: Seq<DeviceConfig>, my_id: Option<Seq<char>>, folders: Seq<FolderConfig>, samples: Seq<CompletionSample>, conns: Seq<(String, ConnectionState)>) -> bool {
    &&& idx.len() == r.len()
    &&& forall|m: int| 0 <= m < r.len() ==> 0 <= #[trigger] idx[m] < devices.len() && wants_spec(devices[idx[m]].device_id@, my_id) && r[m] == peer_of(devices[idx[m]], folders, samples, conns)
    &&& forall|a: int, b: int| 0 <= a < b < r.len() && same_key(lower_of(#[trigger] r[a].name), lower_of(#[trigger] r[b].name)) ==> idx[a] < idx[b]
}

/// `r` is the peer list of a cycle: the entries of the devices other than the
/// local one, each once, in order of their lower-cased names, and in the
/// order of the configuration where those names are equal.
pub open spec fn composed_peers(devices: Seq<DeviceConfig>, my_id: Option<Seq<char>>, folders: Seq<FolderConfig>, samples: Seq<CompletionSample>, conns: Seq<(String, ConnectionState)>, r: Seq<PeerPayloadView>) -> bool {
    &&& r.to_multiset() == expected_peers(devices, my_id, folders, samples, conns).to_multiset()
    &&& sorted_by_name(r)
    &&& exists|idx: Seq<int>| indexed_by(r, idx, devices, my_id, folders, samples, conns)
}

proof fn lemma_lex_total(a: Seq<char>, b: Seq<char>)
    ensures
        lex_le(a, b) || lex_le(b, a),
    decreases a.len(),
{
    if a.len() > 0 && b.len() > 0 && (a[0] as u32) == (b[0] as u32) {
        lemma_lex_total(a.drop_first(), b.drop_first());
    }
}

proof fn lemma_lex_trans(a: Seq<char>, b: Seq<char>, c: Seq<char>)
    requires
        lex_le(a, b),
        lex_le(b, c),
    ensures
        lex_le(a, c),
    decreases a.len(),
{
    if a.len() > 0 && b.len() > 0 && c.len() > 0 && (a[0] as u32) == (b[0] as u32) && (b[0] as u32)
        == (c[0] as u32) {
        lemma_lex_trans(a.drop_first(), b.drop_first(), c.drop_first());
    }
}

/// Whether `a` comes before or equals `b` in code point order.
pub fn lex_le_exec(a: &Vec<char>, b: &Vec<char>) -> (r: bool)
    ensures
        r == lex_le(a@, b@),
{
    let mut i: usize = 0;
    assert(a@.subrange(0, a@.len() as int) =~= a@);
    assert(b@.subrange(0, b@.len() as int) =~= b@);
    while i < a.len() && i < b.len() && (a[i] as u32) == (b[i] as u32)
        invariant
            i <= a@.len(),
            i <= b@.len(),
            lex_le(a@, b@) == lex_le(a@.subrange(i as int, a@.len() as int), b@.subrange(i as int, b@.len() as int)),
        decreases a.len() - i,
    {
        assert(a@.subrange(i as int, a@.len() as int).drop_first() =~= a@.subrange(i + 1, a@.len() as int));
        assert(b@.subrange(i as int, b@.len() as int).drop_first() =~= b@.subrange(i + 1, b@.len() as int));
        i = i + 1;
    }
    let ghost sa = a@.subrange(i as int, a@.len() as int);
    let ghost sb = b@.subrange(i as int, b@.len() as int);
    if i == a.len() {
        assert(sa.len() == 0);
        true
    } else if i == b.len() {
        assert(sb.len() == 0);
        false
    } else {
        assert(sa[0] == a@[i as int] && sb[0] == b@[i as int]);
        (a[i] as u32) < (b[i] as u32)
    }
}

/// Where `key` goes among `keys`: after every key that is not greater,
/// scanning from the front, so that equal keys keep their order.
pub fn insertion_point(keys: &Vec<Vec<char>>, key: &Vec<char>) -> (r: usize)
    ensures
        r <= keys@.len(),
        forall|m: int| 0 <= m < r ==> lex_le((#[trigger] keys@[m])@, key@),
        r < keys@.len() ==> !lex_le(keys@[r as int]@, key@),
{
    let mut pos: usize = 0;
    while pos < keys.len() && lex_le_exec(&keys[pos], key)
        invariant
            pos <= keys@.len(),
            forall|m: int| 0 <= m < pos ==> lex_le((#[trigger] keys@[m])@, key@),
        decreases keys.len() - pos,
    {
        pos = pos + 1;
    }
    pos
}

/// The entry of one device.
fn build_peer(device: &DeviceConfig, folders: &Vec<FolderConfig>, samples: &Vec<CompletionSample>, connections: &ConnectionsResponse) -> (r: PeerPayload)
    ensures
        r@ == peer_of(*device, folders@, samples@, connections.connections@),
{
    let connection = connections.get(&device.device_id);
    let progress = progress_for(folders, samples, &device.device_id);
    let completion = progress.avg_completion();
    let need_bytes = progress.outstanding_need();
    let device_paused = device.paused.unwrap_or(false);
    let name = match &device.name {
        Some(n) => n.clone(),
        None => device.device_id.clone(),
    };
    match connection {
        Some(c) => PeerPayload {
            id: device.device_id.clone(),
            name,
            connected: c.connected,
            paused: device_paused || c.paused,
            address: clone_opt(&c.address),
            client_version: clone_opt(&c.client_version),
            last_seen: clone_opt(&c.last_seen),
            completion,
            need_bytes,
            folders: progress.folders,
        },
        None => PeerPayload {
            id: device.device_id.clone(),
            name,
            connected: false,
            paused: device_paused,
            address: None,
            client_version: None,
            last_seen: None,
            completion,
            need_bytes,
            folders: progress.folders,
        },
    }
}

/// The peer list of a cycle: every configured device with an id other than
/// the local daemon's, with its connection and its progress over the
/// samples, sorted case-insensitively by name.
pub fn compose_peers(devices: &Vec<DeviceConfig>, my_id: Option<&str>, folders: &Vec<FolderConfig>, samples: &Vec<CompletionSample>, connections: &ConnectionsResponse) -> (r: Vec<PeerPayload>)
    ensures
        composed_peers(devices@, opt_chars(my_id), folders@, samples@, connections.connections@, r@.map_values(|p: PeerPayload| p@)),
{
    broadcast use group_to_multiset_ensures;

    let ghost my = opt_chars(my_id);
    let ghost conns = connections.connections@;
    let ghost mut idx: Seq<int> = Seq::empty();
    let mut out: Vec<PeerPayload> = Vec::new();
    let mut keys: Vec<Vec<char>> = Vec::new();
    let mut i: usize = 0;
    assert(out@.map_values(|p: PeerPayload| p@) =~= Seq::<PeerPayloadView>::empty());
    assert(devices@.subrange(0, 0) =~= Seq::<DeviceConfig>::empty());
    while i < devices.len()
        invariant
            i <= devices@.len(),
            conns == connections.connections@,
            my == opt_chars(my_id),
            keys@.len() == out@.len(),
            forall|m: int| 0 <= m < out@.len() ==> (#[trigger] keys@[m])@ == lower_of(out@[m].name@),
            forall|a: int, b: int| 0 <= a < b < out@.len() ==> lex_le((#[trigger] keys@[a])@, (#[trigger] keys@[b])@),
            out@.map_values(|p: PeerPayload| p@).to_multiset() == expected_peers(devices@.subrange(0, i as int), my, folders@, samples@, conns).to_multiset(),
            indexed_by(out@.map_values(|p: PeerPayload| p@), idx, devices@, my, folders@, samples@, conns),
            forall|m: int| 0 <= m < idx.len() ==> #[trigger] idx[m] < i,
        decreases devices.len() - i,
    {
        let device = &devices[i];
        assert(devices@.subrange(0, i + 1).drop_last() =~= devices@.subrange(0, i as int));
        assert(devices@.subrange(0, i + 1).last() == devices@[i as int]);
        if wants_completion(device.device_id.as_str(), my_id) {
            let peer = build_peer(device, folders, samples, connections);
            let lowered = to_lowercase(peer.name.as_str());
            let key = chars_of(lowered.as_str());
            let pos = insertion_point(&keys, &key);
            proof {
                if pos < keys@.len() {
                    lemma_lex_total(keys@[pos as int]@, key@);
                }
            }
            let ghost old_out = out@;
            let ghost old_keys = keys@;
            let ghost old_r = out@.map_values(|p: PeerPayload| p@);
            let ghost old_idx = idx;
            let ghost pv = peer@;
            assert(pv == peer_of(devices@[i as int], folders@, samples@, conns));
            out.insert(pos, peer);
            keys.insert(pos, key);
            proof {
                idx = old_idx.insert(pos as int, i as int);
            }
            let ghost r = out@.map_values(|p: PeerPayload| p@);
            assert(r =~= old_r.insert(pos as int, pv));
            proof {
                to_multiset_insert(old_r, pos as int, pv);
                to_multiset_build(expected_peers(devices@.subrange(0, i as int), my, folders@, samples@, conns), pv);
            }
            assert forall|m: int| 0 <= m < out@.len() implies (#[trigger] keys@[m])@ == lower_of(out@[m].name@) by {
                if m < pos {
                    assert(keys@[m] == old_keys[m] && out@[m] == old_out[m]);
                } else if m > pos {
                    assert(keys@[m] == old_keys[m - 1] && out@[m] == old_out[m - 1]);
                }
            }
            assert forall|a: int, b: int| 0 <= a < b < out@.len() implies lex_le((#[trigger] keys@[a])@, (#[trigger] keys@[b])@) by {
                if b < pos {
                    assert(keys@[a] == old_keys[a] && keys@[b] == old_keys[b]);
                } else if b == pos {
                    assert(keys@[a] == old_keys[a]);
                } else if a < pos {
                    assert(keys@[a] == old_keys[a] && keys@[b] == old_keys[b - 1]);
                    assert(lex_le(old_keys[a]@, key@));
                    assert(lex_le(old_keys[pos as int]@, old_keys[b - 1]@) || pos == b - 1);
                    lemma_lex_trans(old_keys[a]@, key@, old_keys[pos as int]@);
                    if pos < b - 1 {
                        lemma_lex_trans(old_keys[a]@, old_keys[pos as int]@, old_keys[b - 1]@);
                    }
                } else if a == pos {
                    assert(keys@[b] == old_keys[b - 1]);
                    if pos < b - 1 {
                        lemma_lex_trans(key@, old_keys[pos as int]@, old_keys[b - 1]@);
                    }
                } else {
                    assert(keys@[a] == old_keys[a - 1] && keys@[b] == old_keys[b - 1]);
                }
            }
            assert forall|m: int| 0 <= m < r.len() implies 0 <= #[trigger] idx[m] < devices@.len() && wants_spec(devices@[idx[m]].device_id@, my) && r[m] == peer_of(devices@[idx[m]], folders@, samples@, conns) by {
                if m < pos {
                    assert(idx[m] == old_idx[m] && r[m] == old_r[m]);
                } else if m > pos {
                    assert(idx[m] == old_idx[m - 1] && r[m] == old_r[m - 1]);
                }
            }
            assert forall|a: int, b: int| 0 <= a < b < r.len() && same_key(lower_of(#[trigger] r[a].name), lower_of(#[trigger] r[b].name)) implies idx[a] < idx[b] by {
                assert(r[a].name == out@[a].name@ && r[b].name == out@[b].name@);
                assert(keys@[a]@ == lower_of(out@[a].name@));
                assert(keys@[b]@ == lower_of(out@[b].name@));
                if b < pos {
                    assert(idx[a] == old_idx[a] && idx[b] == old_idx[b] && r[a] == old_r[a] && r[b] == old_r[b]);
                } else if b == pos {
                    assert(idx[a] == old_idx[a]);
                    assert(old_idx[a] < i);
                } else if a < pos {
                    assert(idx[a] == old_idx[a] && idx[b] == old_idx[b - 1] && r[a] == old_r[a] && r[b] == old_r[b - 1]);
                } else if a == pos {
                    assert(keys@[b] == old_keys[b - 1]);
                    if pos < b - 1 {
                        assert(lex_le(old_keys[pos as int]@, old_keys[b - 1]@));
                        if lex_le(old_keys[b - 1]@, key@) {
                            lemma_lex_trans(old_keys[pos as int]@, old_keys[b - 1]@, key@);
                        }
                    }
                    assert(!lex_le(keys@[b]@, keys@[a]@));
                } else {
                    assert(idx[a] == old_idx[a - 1] && idx[b] == old_idx[b - 1] && r[a] == old_r[a - 1] && r[b] == old_r[b - 1]);
                }
            }
            assert forall|m: int| 0 <= m < idx.len() implies #[trigger] idx[m] < i + 1 by {
                if m < pos {
                    assert(idx[m] == old_idx[m]);
                } else if m > pos {
                    assert(idx[m] == old_idx[m - 1]);
                }
            }
        }
        i = i + 1;
    }
    assert(devices@.subrange(0, devices@.len() as int) =~= devices@);
    let ghost r = out@.map_values(|p: PeerPayload| p@);
    assert forall|a: int, b: int| 0 <= a < b < r.len() implies lex_le(lower_of(#[trigger] r[a].name), lower_of(#[trigger] r[b].name)) by {
        assert(keys@[a]@ == lower_of(out@[a].name@));
        assert(keys@[b]@ == lower_of(out@[b].name@));
    }
    assert(indexed_by(r, idx, devices@, my, folders@, samples@, conns));
    out
}

/// The peer list is in order of lower-cased names and holds neither the
/// local daemon nor a device without an id.
pub proof fn lemma_peers_sorted_without_local(devices: Seq<DeviceConfig>, my_id: Option<Seq<char>>, folders: Seq<FolderConfig>, samples: Seq<CompletionSample>, conns: Seq<(String, ConnectionState)>, r: Seq<PeerPayloadView>)
    requires
        composed_peers(devices, my_id, folders, samples, conns, r),
    ensures
        sorted_by_name(r),
        forall|i: int| 0 <= i < r.len() ==> my_id != Some(#[trigger] r[i].id) && r[i].id.len() > 0,
{
    let idx = choose|idx: Seq<int>| indexed_by(r, idx, devices, my_id, folders, samples, conns);
    assert forall|i: int| 0 <= i < r.len() implies my_id != Some(#[trigger] r[i].id) && r[i].id.len() > 0 by {
        assert(0 <= idx[i] < devices.len());
    }
}

/// Without any connection, every peer shows as disconnected and as paused
/// exactly when its device is paused in the configuration.
pub proof fn lemma_peers_without_connections(devices: Seq<DeviceConfig>, my_id: Option<Seq<char>>, folders: Seq<FolderConfig>, samples: Seq<CompletionSample>, conns: Seq<(String, ConnectionState)>, r: Seq<PeerPayloadView>)
    requires
        composed_peers(devices, my_id, folders, samples, conns, r),
        conns.len() == 0,
    ensures
        forall|i: int| 0 <= i < r.len() ==> !(#[trigger] r[i]).connected && exists|k: int| 0 <= k < devices.len() && devices[k].device_id@ == r[i].id && r[i].paused == devices[k].paused.unwrap_or(false),
{
    let idx = choose|idx: Seq<int>| indexed_by(r, idx, devices, my_id, folders, samples, conns);
    assert forall|i: int| 0 <= i < r.len() implies !(#[trigger] r[i]).connected && exists|k: int| 0 <= k < devices.len() && devices[k].device_id@ == r[i].id && r[i].paused == devices[k].paused.unwrap_or(false) by {
        let k = idx[i];
        assert(0 <= k < devices.len());
        assert(connection_in(conns, devices[k].device_id@) is None);
    }
}

} // verus!
