//! Data of the installer and update workflows.
use vstd::prelude::*;

verus! {

/// Where the installer stands.
pub struct InstallerStatus {
    pub binary_present: bool,
    pub service_installed: bool,
    pub in_progress: bool,
    pub progress_message: Option<String>,
    pub error: Option<String>,
    pub installer_disabled: bool,
}

/// The versions found when looking for a newer daemon.
pub struct UpdateCheckResult {
    pub current_version: String,
    pub latest_version: String,
    pub update_available: bool,
    pub download_url: Option<String>,
}

/// Where an update stands.
pub struct UpdateStatus {
    pub in_progress: bool,
    pub progress_message: Option<String>,
    pub error: Option<String>,
    pub success: bool,
    pub pending_restart: bool,
    pub restart_seconds_remaining: Option<u32>,
}

/// How far a download is.
#[derive(Debug, Clone, Copy, PartialEq, Eq, Structural)]
pub struct DownloadProgress {
    pub downloaded_bytes: u64,
    pub total_bytes: Option<u64>,
}

/// The percentage of a download: unknown without a total, full for an
/// empty one, and otherwise the downloaded share (the product saturating),
/// at most 100.
pub open spec fn percent_spec(downloaded: u64, total: Option<u64>) -> Option<u8> {
    match total {
        None => None,
        Some(t) => if t == 0 {
            Some(100u8)
        } else {
            let scaled: u64 = if downloaded * 100 > u64::MAX { u64::MAX } else { (downloaded * 100) as u64 };
            let p = scaled / t;
            Some(if p > 100 { 100u8 } else { p as u8 })
        },
    }
}

impl DownloadProgress {
    /// How much of the download is done, in percent.
    pub fn percent(&self) -> (r: Option<u8>)
        ensures
            r == percent_spec(self.downloaded_bytes, self.total_bytes),
            r matches Some(p) ==> p <= 100,
    {
        match self.total_bytes {
            None => None,
            Some(total) => {
                if total == 0 {
                    Some(100)
                } else {
                    let scaled: u64 = if self.downloaded_bytes > u64::MAX / 100 {
                        u64::MAX
                    } else {
                        self.downloaded_bytes * 100
                    };
                    let p = scaled / total;
                    Some(if p > 100 { 100 } else { p as u8 })
                }
            },
        }
    }

    /// The progress after `chunk` more bytes, the count saturating.
    pub fn advanced(&self, chunk: u64) -> (r: DownloadProgress)
        ensures
            r.downloaded_bytes == self.downloaded_bytes.saturating_add(chunk),
            r.total_bytes == self.total_bytes,
    {
        DownloadProgress { downloaded_bytes: self.downloaded_bytes.saturating_add(chunk), total_bytes: self.total_bytes }
    }
}

} // verus!
