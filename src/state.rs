//! Folder state classification and completion.
use vstd::prelude::*;

use crate::text::{
    ascii_lower, chars_of, opt_chars, contains, eq_ascii_case, eq_ignore_ascii_case, has_infix, lower_ascii,
};

verus! {

/// Canonical state of a folder, derived from the daemon's raw status.
#[derive(Debug, Clone, Copy, PartialEq, Eq, Structural)]
pub enum FolderStateCode {
    Unknown,
    Paused,
    Error,
    WaitingToScan,
    WaitingToSync,
    Scanning,
    PreparingToSync,
    Syncing,
    PendingChanges,
    UpToDate,
}

/// One hundred percent, in hundredths of a percent.
pub const FULL_COMPLETION: u64 = 10000;

/// Completion in hundredths of a percent: the share of `global` bytes not
/// in `need`, rounded down; full when nothing is needed, zero when the size
/// is unknown or empty.
pub open spec fn completion_spec(global: Option<u64>, need: Option<u64>) -> u64 {
    match global {
        Some(g) if g > 0 => match need {
            Some(n) => if n >= g {
                0
            } else {
                (((g - n) * 10000) / (g as int)) as u64
            },
            None => 10000,
        },
        _ => 0,
    }
}

/// Completion of a folder in hundredths of a percent (0 to 10000).
pub fn compute_completion(global_bytes: Option<u64>, need_bytes: Option<u64>) -> (r: u64)
    ensures
        r == completion_spec(global_bytes, need_bytes),
        r <= FULL_COMPLETION,
{
    match global_bytes {
        Some(global) if global > 0 => match need_bytes {
            Some(need) => {
                if need >= global {
                    0
                } else {
                    let complete: u64 = global - need;
                    let scaled: u128 = (complete as u128) * 10000;
                    assert(scaled <= (global as u128) * 10000) by (nonlinear_arith)
                        requires scaled == (complete as u128) * 10000, complete <= global;
                    let r: u128 = scaled / (global as u128);
                    assert(r <= 10000) by (nonlinear_arith)
                        requires r == scaled / (global as u128), scaled <= (global as u128) * 10000, global > 0;
                    r as u64
                }
            },
            None => FULL_COMPLETION,
        },
        _ => 0,
    }
}


impl FolderStateCode {
    /// The human-readable label of each state.
    pub open spec fn label_spec(self) -> Seq<char> {
        match self {
            FolderStateCode::Unknown => "Unknown state"@,
            FolderStateCode::Paused => "Paused"@,
            FolderStateCode::Error => "Error"@,
            FolderStateCode::WaitingToScan => "Waiting to scan"@,
            FolderStateCode::WaitingToSync => "Waiting to sync"@,
            FolderStateCode::Scanning => "Scanning"@,
            FolderStateCode::PreparingToSync => "Preparing to sync"@,
            FolderStateCode::Syncing => "Syncing"@,
            FolderStateCode::PendingChanges => "Idle / pending changes"@,
            FolderStateCode::UpToDate => "Up to date"@,
        }
    }

    /// The human-readable label of this state.
    pub fn label(&self) -> (r: String)
        ensures
            r@ == self.label_spec(),
    {
        match self {
            FolderStateCode::Unknown => String::from_str("Unknown state"),
            FolderStateCode::Paused => String::from_str("Paused"),
            FolderStateCode::Error => String::from_str("Error"),
            FolderStateCode::WaitingToScan => String::from_str("Waiting to scan"),
            FolderStateCode::WaitingToSync => String::from_str("Waiting to sync"),
            FolderStateCode::Scanning => String::from_str("Scanning"),
            FolderStateCode::PreparingToSync => String::from_str("Preparing to sync"),
            FolderStateCode::Syncing => String::from_str("Syncing"),
            FolderStateCode::PendingChanges => String::from_str("Idle / pending changes"),
            FolderStateCode::UpToDate => String::from_str("Up to date"),
        }
    }
}

impl Default for FolderStateCode {
    fn default() -> (r: FolderStateCode)
        ensures
            r == FolderStateCode::Unknown,
    {
        FolderStateCode::Unknown
    }
}

/// A state code together with its label.
pub struct FolderStateInfo {
    pub label: String,
    pub code: FolderStateCode,
}

impl FolderStateInfo {
    /// A state code with the given label.
    pub fn new(label: String, code: FolderStateCode) -> (r: FolderStateInfo)
        ensures
            r.label@ == label@,
            r.code == code,
    {
        FolderStateInfo { label, code }
    }
}

/// The state that a folder is in when its raw state says nothing more specific.
pub open spec fn settled_state(need: Option<u64>) -> FolderStateCode {
    if need.unwrap_or(0) == 0 {
        FolderStateCode::UpToDate
    } else {
        FolderStateCode::Unknown
    }
}

/// Classification of a folder's raw status; the first rule that applies wins.
pub open spec fn classify_spec(paused: bool, state: Option<Seq<char>>, need: Option<u64>) -> FolderStateCode {
    if paused {
        FolderStateCode::Paused
    } else {
        match state {
            None => settled_state(need),
            Some(s) => {
                let n = ascii_lower(s);
                if has_infix(n, "waiting"@) && has_infix(n, "scan"@) {
                    FolderStateCode::WaitingToScan
                } else if has_infix(n, "waiting"@) && has_infix(n, "sync"@) {
                    FolderStateCode::WaitingToSync
                } else if has_infix(n, "preparing"@) && has_infix(n, "sync"@) {
                    FolderStateCode::PreparingToSync
                } else if eq_ascii_case(s, "scanning"@) {
                    FolderStateCode::Scanning
                } else if eq_ascii_case(s, "syncing"@) {
                    FolderStateCode::Syncing
                } else if eq_ascii_case(s, "idle"@) {
                    if need.unwrap_or(0) == 0 {
                        FolderStateCode::UpToDate
                    } else {
                        FolderStateCode::PendingChanges
                    }
                } else if eq_ascii_case(s, "error"@) {
                    FolderStateCode::Error
                } else {
                    settled_state(need)
                }
            },
        }
    }
}

/// Turns a folder's paused flag, raw state and need bytes into a canonical
/// state code and its label.
pub fn humanize_folder_state(paused: bool, state: Option<&str>, need_bytes: Option<u64>) -> (r:
    FolderStateInfo)
    ensures
        r.code == classify_spec(paused, opt_chars(state), need_bytes),
        r.label@ == r.code.label_spec(),
{
    let code = if paused {
        FolderStateCode::Paused
    } else {
        match state {
            None => settled_code(need_bytes),
            Some(state_value) => {
                let raw = chars_of(state_value);
                let normalized = lower_ascii(&raw);
                let waiting = contains(&normalized, &chars_of("waiting"));
                let scan = contains(&normalized, &chars_of("scan"));
                let sync = contains(&normalized, &chars_of("sync"));
                let preparing = contains(&normalized, &chars_of("preparing"));
                if waiting && scan {
                    FolderStateCode::WaitingToScan
                } else if waiting && sync {
                    FolderStateCode::WaitingToSync
                } else if preparing && sync {
                    FolderStateCode::PreparingToSync
                } else if eq_ignore_ascii_case(&raw, &chars_of("scanning")) {
                    FolderStateCode::Scanning
                } else if eq_ignore_ascii_case(&raw, &chars_of("syncing")) {
                    FolderStateCode::Syncing
                } else if eq_ignore_ascii_case(&raw, &chars_of("idle")) {
                    if need_bytes.unwrap_or(0) == 0 {
                        FolderStateCode::UpToDate
                    } else {
                        FolderStateCode::PendingChanges
                    }
                } else if eq_ignore_ascii_case(&raw, &chars_of("error")) {
                    FolderStateCode::Error
                } else {
                    settled_code(need_bytes)
                }
            },
        }
    };
    let label = code.label();
    FolderStateInfo::new(label, code)
}

fn settled_code(need_bytes: Option<u64>) -> (r: FolderStateCode)
    ensures
        r == settled_state(need_bytes),
{
    if need_bytes.unwrap_or(0) == 0 {
        FolderStateCode::UpToDate
    } else {
        FolderStateCode::Unknown
    }
}

/// With a known, non-empty size, completion lies in 0 to 100 percent and is
/// full exactly when no bytes are needed.
pub proof fn lemma_completion_bounds(global: u64, need: Option<u64>)
    requires
        global > 0,
    ensures
        completion_spec(Some(global), need) <= FULL_COMPLETION,
        completion_spec(Some(global), need) == FULL_COMPLETION <==> (need is None || need
            == Some(0u64)),
{
    if let Some(n) = need {
        if n > 0 && n < global {
            let c = global - n;
            assert((c * 10000) / (global as int) < 10000) by (nonlinear_arith)
                requires
                    0 <= c < global,
            ;
        } else if n == 0 {
            assert((global * 10000) / (global as int) == 10000) by (nonlinear_arith)
                requires
                    global > 0,
            ;
        }
    }
}

/// With an unknown or empty size, completion is zero.
pub proof fn lemma_completion_zero_without_size(global: Option<u64>, need: Option<u64>)
    requires
        global is None || global == Some(0u64),
    ensures
        completion_spec(global, need) == 0,
{
}

/// A paused folder is classified as paused whatever its raw state and need.
pub proof fn lemma_paused_wins(state: Option<Seq<char>>, need: Option<u64>)
    ensures
        classify_spec(true, state, need) == FolderStateCode::Paused,
{
}

} // verus!
