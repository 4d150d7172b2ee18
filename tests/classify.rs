use syncthing_monitor::events::{format_relative_time, is_file_event, relative_time_label};
use syncthing_monitor::state::{compute_completion, humanize_folder_state, FolderStateCode};

#[test]
fn completion_is_share_of_global_bytes() {
    assert_eq!(compute_completion(Some(200), Some(50)), 7500);
    assert_eq!(compute_completion(Some(3), Some(1)), 6666);
}

#[test]
fn completion_is_full_without_need() {
    assert_eq!(compute_completion(Some(100), None), 10000);
    assert_eq!(compute_completion(Some(100), Some(0)), 10000);
}

#[test]
fn completion_never_reaches_full_while_bytes_are_needed() {
    assert_eq!(compute_completion(Some(u64::MAX), Some(1)), 9999);
}

#[test]
fn completion_is_zero_without_size() {
    assert_eq!(compute_completion(Some(0), Some(0)), 0);
    assert_eq!(compute_completion(Some(0), None), 0);
    assert_eq!(compute_completion(None, Some(5)), 0);
    assert_eq!(compute_completion(None, None), 0);
}

#[test]
fn completion_clamps_need_above_global() {
    assert_eq!(compute_completion(Some(10), Some(50)), 0);
}

#[test]
fn paused_wins_over_raw_state() {
    for raw in [Some("syncing"), Some("error"), Some("waiting to scan"), None] {
        let info = humanize_folder_state(true, raw, Some(5));
        assert_eq!(info.code, FolderStateCode::Paused);
        assert_eq!(info.label, "Paused");
    }
}

#[test]
fn waiting_and_preparing_states() {
    assert_eq!(humanize_folder_state(false, Some("scan-waiting"), None).code, FolderStateCode::WaitingToScan);
    assert_eq!(humanize_folder_state(false, Some("Sync-Waiting"), None).code, FolderStateCode::WaitingToSync);
    let info = humanize_folder_state(false, Some("sync-preparing"), None);
    assert_eq!(info.code, FolderStateCode::PreparingToSync);
    assert_eq!(info.label, "Preparing to sync");
}

#[test]
fn exact_states_ignore_ascii_case() {
    assert_eq!(humanize_folder_state(false, Some("SCANNING"), Some(9)).code, FolderStateCode::Scanning);
    assert_eq!(humanize_folder_state(false, Some("Syncing"), None).label, "Syncing");
    assert_eq!(humanize_folder_state(false, Some("error"), None).code, FolderStateCode::Error);
}

#[test]
fn idle_depends_on_need() {
    let up = humanize_folder_state(false, Some("idle"), Some(0));
    assert_eq!(up.code, FolderStateCode::UpToDate);
    assert_eq!(up.label, "Up to date");
    let pending = humanize_folder_state(false, Some("Idle"), Some(7));
    assert_eq!(pending.code, FolderStateCode::PendingChanges);
    assert_eq!(pending.label, "Idle / pending changes");
}

#[test]
fn unknown_state_falls_back_on_need() {
    assert_eq!(humanize_folder_state(false, Some("cleaning"), None).code, FolderStateCode::UpToDate);
    let unknown = humanize_folder_state(false, Some("cleaning"), Some(3));
    assert_eq!(unknown.code, FolderStateCode::Unknown);
    assert_eq!(unknown.label, "Unknown state");
    assert_eq!(humanize_folder_state(false, None, None).code, FolderStateCode::UpToDate);
}

#[test]
fn file_event_types_are_a_fixed_set() {
    for t in [
        "ItemFinished",
        "ItemStarted",
        "LocalIndexUpdated",
        "RemoteIndexUpdated",
        "ItemDownloaded",
        "FolderSummary",
        "FolderCompletion",
    ] {
        assert!(is_file_event(t));
    }
    for t in ["StateChanged", "itemfinished", "", "DeviceConnected", "ItemFinished "] {
        assert!(!is_file_event(t));
    }
}

#[test]
fn relative_labels() {
    assert_eq!(relative_time_label(-5000), "just now");
    assert_eq!(relative_time_label(59_999), "just now");
    assert_eq!(relative_time_label(120_000), "2 min ago");
    assert_eq!(relative_time_label(2 * 3_600_000 + 5), "2 h ago");
    assert_eq!(relative_time_label(3 * 86_400_000), "3 d ago");
}

#[test]
fn relative_time_of_a_time_stamp() {
    let t = 1_704_067_200_000i64; // 2024-01-01T00:00:00Z
    assert_eq!(format_relative_time("2024-01-01T00:00:00Z", t + 90_000), "1 min ago");
    assert_eq!(format_relative_time("2024-01-01T01:00:00+01:00", t + 30_000), "just now");
    assert_eq!(format_relative_time("yesterday", t), "yesterday");
}
