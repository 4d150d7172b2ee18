//! Accumulation of completion samples, one per (folder, remote device) pair,
//! into per-device progress and per-folder need summaries.
use vstd::prelude::*;

use crate::daemon::{FolderConfig, RemoteCompletion};
use crate::peer::{average_spec, empty_progress, record_spec, PeerProgress, PeerProgressView, OWED_CAP};
use crate::text::opt_chars;

verus! {

/// The completion of the folder at `folder_index` on device `device_id`.
pub struct CompletionSample {
    pub folder_index: usize,
    pub device_id: String,
    pub remote: RemoteCompletion,
}

/// How many peers still need data of a folder, and how much in all.
#[derive(Debug, Clone, Copy, PartialEq, Eq, Structural)]
pub struct FolderPeerNeedSummary {
    pub peer_count: u32,
    pub need_bytes: u64,
}

/// Whether the completion of a device is asked for: it has an id, and that
/// id is not the local daemon's.
pub open spec fn wants_spec(device: Seq<char>, my_id: Option<Seq<char>>) -> bool {
    device.len() > 0 && my_id != Some(device)
}

/// Whether the completion of device `device_id` is asked for.
pub fn wants_completion(device_id: &str, my_id: Option<&str>) -> (r: bool)
    ensures
        r == wants_spec(device_id@, opt_chars(my_id)),
{
    let d = String::from_str(device_id);
    if d.as_str().unicode_len() == 0 {
        return false;
    }
    match my_id {
        Some(local) => !(String::from_str(local) == d),
        None => true,
    }
}

/// The progress of `device` over the samples, taken in order; samples of
/// other devices or of no known folder are passed over.
pub open spec fn progress_of(folders: Seq<FolderConfig>, samples: Seq<CompletionSample>, device: Seq<char>) -> PeerProgressView
    decreases samples.len(),
{
    if samples.len() == 0 {
        empty_progress()
    } else {
        let p = progress_of(folders, samples.drop_last(), device);
        let s = samples.last();
        if s.device_id@ == device && s.folder_index < folders.len() {
            record_spec(p, folders[s.folder_index as int], s.remote)
        } else {
            p
        }
    }
}

/// The peers that still need data of folder `folder` and how much, summed
/// with saturation over the samples of devices other than the local one.
pub open spec fn need_of(folders: Seq<FolderConfig>, samples: Seq<CompletionSample>, folder: Seq<char>, my_id: Option<Seq<char>>) -> (u32, u64)
    decreases samples.len(),
{
    if samples.len() == 0 {
        (0, 0)
    } else {
        let (count, need) = need_of(folders, samples.drop_last(), folder, my_id);
        let s = samples.last();
        let n = s.remote.need_bytes.unwrap_or(0);
        if s.folder_index < folders.len() && folders[s.folder_index as int].id@ == folder
            && wants_spec(s.device_id@, my_id) && n > 0 {
            (count.saturating_add(1), need.saturating_add(n))
        } else {
            (count, need)
        }
    }
}

/// The need summary of a folder: present when some peer still needs data.
pub open spec fn summary_spec(counts: (u32, u64)) -> Option<FolderPeerNeedSummary> {
    if counts.0 > 0 {
        Some(FolderPeerNeedSummary { peer_count: counts.0, need_bytes: counts.1 })
    } else {
        None
    }
}

/// The progress of device `device_id` over all samples.
pub fn progress_for(folders: &Vec<FolderConfig>, samples: &Vec<CompletionSample>, device_id: &String) -> (r: PeerProgress)
    ensures
        r@ == progress_of(folders@, samples@, device_id@),
{
    let mut p = PeerProgress::new();
    let mut i: usize = 0;
    while i < samples.len()
        invariant
            i <= samples@.len(),
            p@ == progress_of(folders@, samples@.subrange(0, i as int), device_id@),
        decreases samples.len() - i,
    {
        let s = &samples[i];
        assert(samples@.subrange(0, i + 1).drop_last() =~= samples@.subrange(0, i as int));
        if s.device_id == *device_id && s.folder_index < folders.len() {
            p.record(&folders[s.folder_index], &s.remote);
        }
        i = i + 1;
    }
    assert(samples@.subrange(0, samples@.len() as int) =~= samples@);
    p
}

/// The need summary of folder `folder_id` over all samples.
pub fn need_summary_for(folders: &Vec<FolderConfig>, samples: &Vec<CompletionSample>, folder_id: &String, my_id: Option<&str>) -> (r: Option<FolderPeerNeedSummary>)
    ensures
        r == summary_spec(need_of(folders@, samples@, folder_id@, opt_chars(my_id))),
{
    let mut count: u32 = 0;
    let mut need: u64 = 0;
    let mut i: usize = 0;
    while i < samples.len()
        invariant
            i <= samples@.len(),
            (count, need) == need_of(folders@, samples@.subrange(0, i as int), folder_id@, opt_chars(my_id)),
        decreases samples.len() - i,
    {
        let s = &samples[i];
        assert(samples@.subrange(0, i + 1).drop_last() =~= samples@.subrange(0, i as int));
        let n = s.remote.need_bytes.unwrap_or(0);
        if s.folder_index < folders.len() && folders[s.folder_index].id == *folder_id
            && wants_completion(s.device_id.as_str(), my_id) && n > 0 {
            count = count.saturating_add(1);
            need = need.saturating_add(n);
        }
        i = i + 1;
    }
    assert(samples@.subrange(0, samples@.len() as int) =~= samples@);
    if count > 0 {
        Some(FolderPeerNeedSummary { peer_count: count, need_bytes: need })
    } else {
        None
    }
}

/// While bytes are owed, the average completion stays at or below 99.99
/// percent, whatever the samples were.
pub proof fn lemma_owed_average_below_full(p: PeerProgressView)
    requires
        p.total_need_bytes > 0,
    ensures
        average_spec(p) matches Some(v) ==> v <= OWED_CAP,
{
}

} // verus!
