//! The folder entries of the dashboard.
use vstd::prelude::*;

use crate::daemon::{clone_opt, folder_label, label_or_id, FolderConfig};
use crate::events::FolderChange;
use crate::json::{get_text, get_u64, owned_text, text_field, u64_field, JsonValue};
use crate::metrics::FolderPeerNeedSummary;
use crate::state::{classify_spec, completion_spec, compute_completion, humanize_folder_state, FolderStateCode};
use crate::text::opt_string_chars;

verus! {

/// A folder as the dashboard shows it. Completion is in hundredths of a percent.
pub struct FolderPayload {
    pub id: String,
    pub label: String,
    pub path: Option<String>,
    pub state: String,
    pub state_code: FolderStateCode,
    pub state_raw: Option<String>,
    pub paused: bool,
    pub global_bytes: Option<u64>,
    pub in_sync_bytes: Option<u64>,
    pub need_bytes: Option<u64>,
    pub completion: u64,
    pub last_changes: Vec<FolderChange>,
    pub peers_need_summary: Option<FolderPeerNeedSummary>,
}

/// `p` is the entry of folder `f` with status `status`: the byte counts and
/// raw state come from the status, completion and state are derived from them.
pub open spec fn folder_payload_spec(p: FolderPayload, f: FolderConfig, status: JsonValue) -> bool {
    let global = u64_field(status, "globalBytes"@);
    let need = u64_field(status, "needBytes"@);
    let raw = text_field(status, "state"@);
    let paused = f.paused.unwrap_or(false);
    &&& p.id@ == f.id@
    &&& p.label@ == label_or_id(f)
    &&& opt_string_chars(p.path) == opt_string_chars(f.path)
    &&& p.global_bytes == global
    &&& p.need_bytes == need
    &&& p.in_sync_bytes == u64_field(status, "inSyncBytes"@)
    &&& p.completion == completion_spec(global, need)
    &&& opt_string_chars(p.state_raw) == raw
    &&& p.paused == paused
    &&& p.state_code == classify_spec(paused, raw, need)
    &&& p.state@ == p.state_code.label_spec()
}

impl FolderPayload {
    /// The entry of folder `folder` with status `status`, its latest changes
    /// and the need of its peers.
    pub fn from_parts(folder: &FolderConfig, status: &JsonValue, last_changes: Vec<FolderChange>, peers_need_summary: Option<FolderPeerNeedSummary>) -> (r: FolderPayload)
        ensures
            folder_payload_spec(r, *folder, *status),
            r.last_changes@ == last_changes@,
            r.peers_need_summary == peers_need_summary,
    {
        let global_bytes = get_u64(status, "globalBytes");
        let need_bytes = get_u64(status, "needBytes");
        let in_sync_bytes = get_u64(status, "inSyncBytes");
        let completion = compute_completion(global_bytes, need_bytes);
        let raw = get_text(status, "state");
        let paused = folder.paused.unwrap_or(false);
        let info = humanize_folder_state(paused, raw, need_bytes);
        FolderPayload {
            id: folder.id.clone(),
            label: folder_label(folder),
            path: clone_opt(&folder.path),
            state: info.label,
            state_code: info.code,
            state_raw: owned_text(raw),
            paused,
            global_bytes,
            in_sync_bytes,
            need_bytes,
            completion,
            last_changes,
            peers_need_summary,
        }
    }
}

} // verus!
