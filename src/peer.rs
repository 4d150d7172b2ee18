//! Per-device progress, accumulated from completion samples of the folders
//! that a device shares.
use vstd::prelude::*;

use crate::daemon::{folder_label, label_or_id, FolderConfig, RemoteCompletion};

verus! {

/// Completion that is reported while bytes are still owed is held below
/// full: 99.99 percent, in hundredths of a percent.
pub const OWED_CAP: u64 = 9999;

/// How far one remote device is with one folder.
pub struct PeerFolderState {
    pub folder_id: String,
    pub folder_label: String,
    pub completion: Option<u64>,
    pub need_bytes: Option<u64>,
}

/// The mathematical view of a `PeerFolderState`.
pub struct PeerFolderView {
    pub folder_id: Seq<char>,
    pub folder_label: Seq<char>,
    pub completion: Option<u64>,
    pub need_bytes: Option<u64>,
}

impl View for PeerFolderState {
    type V = PeerFolderView;

    open spec fn view(&self) -> PeerFolderView {
        PeerFolderView {
            folder_id: self.folder_id@,
            folder_label: self.folder_label@,
            completion: self.completion,
            need_bytes: self.need_bytes,
        }
    }
}

/// The progress of one device over the folders it shares. Completion is in
/// hundredths of a percent; the sums saturate.
pub struct PeerProgress {
    pub total_completion: u64,
    pub completion_samples: u32,
    pub total_need_bytes: u64,
    pub folders: Vec<PeerFolderState>,
}

/// The mathematical view of a `PeerProgress`.
pub struct PeerProgressView {
    pub total_completion: u64,
    pub completion_samples: u32,
    pub total_need_bytes: u64,
    pub folders: Seq<PeerFolderView>,
}

impl View for PeerProgress {
    type V = PeerProgressView;

    open spec fn view(&self) -> PeerProgressView {
        PeerProgressView {
            total_completion: self.total_completion,
            completion_samples: self.completion_samples,
            total_need_bytes: self.total_need_bytes,
            folders: self.folders@.map_values(|f: PeerFolderState| f@),
        }
    }
}

/// Progress before any sample.
pub open spec fn empty_progress() -> PeerProgressView {
    PeerProgressView {
        total_completion: 0,
        completion_samples: 0,
        total_need_bytes: 0,
        folders: Seq::empty(),
    }
}

/// Progress after one more sample, for folder `f`.
pub open spec fn record_spec(p: PeerProgressView, f: FolderConfig, c: RemoteCompletion) -> PeerProgressView {
    PeerProgressView {
        total_completion: match c.completion {
            Some(v) => p.total_completion.saturating_add(v),
            None => p.total_completion,
        },
        completion_samples: match c.completion {
            Some(v) => p.completion_samples.saturating_add(1),
            None => p.completion_samples,
        },
        total_need_bytes: match c.need_bytes {
            Some(n) => p.total_need_bytes.saturating_add(n),
            None => p.total_need_bytes,
        },
        folders: p.folders.push(
            PeerFolderView {
                folder_id: f.id@,
                folder_label: label_or_id(f),
                completion: c.completion,
                need_bytes: c.need_bytes,
            },
        ),
    }
}

/// The mean of the samples, held at 99.99 percent while bytes are owed and
/// at 100 percent in any case; nothing without samples.
pub open spec fn average_spec(p: PeerProgressView) -> Option<u64> {
    if p.completion_samples == 0 {
        None
    } else {
        let mean = p.total_completion / (p.completion_samples as u64);
        let held = if p.total_need_bytes > 0 && mean > OWED_CAP {
            OWED_CAP
        } else {
            mean
        };
        Some(if held > 10000 { 10000u64 } else { held })
    }
}

impl PeerProgress {
    /// Progress before any sample.
    pub fn new() -> (r: PeerProgress)
        ensures
            r@ == empty_progress(),
    {
        let r = PeerProgress {
            total_completion: 0,
            completion_samples: 0,
            total_need_bytes: 0,
            folders: Vec::new(),
        };
        assert(r@.folders =~= Seq::<PeerFolderView>::empty());
        r
    }

    /// Records the completion of folder `folder` on this device.
    pub fn record(&mut self, folder: &FolderConfig, completion: &RemoteCompletion)
        ensures
            final(self)@ == record_spec(old(self)@, *folder, *completion),
    {
        if let Some(value) = completion.completion {
            self.total_completion = self.total_completion.saturating_add(value);
            self.completion_samples = self.completion_samples.saturating_add(1);
        }
        if let Some(need) = completion.need_bytes {
            self.total_need_bytes = self.total_need_bytes.saturating_add(need);
        }
        let ghost before = self.folders@;
        self.folders.push(
            PeerFolderState {
                folder_id: folder.id.clone(),
                folder_label: folder_label(folder),
                completion: completion.completion,
                need_bytes: completion.need_bytes,
            },
        );
        assert(self.folders@.map_values(|f: PeerFolderState| f@) =~= before.map_values(
            |f: PeerFolderState| f@,
        ).push(self.folders@.last()@));
    }

    /// The average completion over the samples, in hundredths of a percent.
    pub fn avg_completion(&self) -> (r: Option<u64>)
        ensures
            r == average_spec(self@),
            r is Some <==> self.completion_samples > 0,
            r matches Some(v) ==> v <= 10000,
            self.total_need_bytes > 0 ==> (r matches Some(v) ==> v <= OWED_CAP),
    {
        if self.completion_samples == 0 {
            None
        } else {
            let mut average = self.total_completion / (self.completion_samples as u64);
            if self.total_need_bytes > 0 && average > OWED_CAP {
                average = OWED_CAP;
            }
            if average > 10000 {
                average = 10000;
            }
            Some(average)
        }
    }

    /// The bytes still owed, when there are any.
    pub fn outstanding_need(&self) -> (r: Option<u64>)
        ensures
            r is None <==> self.total_need_bytes == 0,
            r matches Some(n) ==> n == self.total_need_bytes,
    {
        if self.total_need_bytes > 0 {
            Some(self.total_need_bytes)
        } else {
            None
        }
    }
}

} // verus!
