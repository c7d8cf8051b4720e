//! Progress events and the arithmetic behind them.
//!
//! Events are ephemeral: they are handed to a push-style reporting
//! channel and never persisted. Delivery is the caller's business; this
//! module only decides when an event is due and what it carries.

use vstd::prelude::*;

verus! {

/// A structured progress notification, tagged by phase.
#[derive(Debug)]
pub enum ProgressEvent {
    /// One file of a manifest scan finished hashing.
    ManifestScan {
        current_file: String,
        percent: u64,
        files_processed: u64,
        total_files: u64,
        total_bytes: u64,
    },
    /// A batch of diff-pass records was evaluated.
    DiffCheck {
        current_file: String,
        percent: u64,
        files_checked: u64,
        total_files: u64,
        files_needing_update: u64,
        elapsed_seconds: u64,
    },
    /// A diff pass finished; the summary of what it found.
    DiffSummary { total_files: u64, files_to_update: u64, total_bytes: u64, elapsed_seconds: u64 },
    /// Bytes arrived for the file currently downloading.
    Download {
        file_name: String,
        percent: u64,
        bytes_per_second: u64,
        bytes_downloaded_total: u64,
        bytes_total: u64,
        file_index: u64,
        total_files: u64,
        elapsed_seconds: u64,
    },
    /// Every file of the plan was downloaded and verified.
    DownloadComplete,
}

/// Whole-number percentage of `done` out of `total`.
pub fn percent(done: u64, total: u64) -> (p: u64)
    requires
        total > 0,
        done <= total,
    ensures
        p == done as int * 100 / total as int,
        p <= 100,
{
    let p128: u128 = (done as u128 * 100) / (total as u128);
    proof {
        vstd::arithmetic::div_mod::lemma_div_is_ordered(
            done as int * 100,
            total as int * 100,
            total as int,
        );
        vstd::arithmetic::div_mod::lemma_div_multiples_vanish(100, total as int);
    }
    p128 as u64
}

/// Instantaneous transfer speed in bytes per second: bytes downloaded so
/// far over whole elapsed seconds, or the byte count itself while less
/// than a second has passed.
pub fn transfer_speed(downloaded: u64, elapsed_seconds: u64) -> (s: u64)
    ensures
        elapsed_seconds > 0 ==> s == downloaded as int / elapsed_seconds as int,
        elapsed_seconds == 0 ==> s == downloaded,
{
    if elapsed_seconds > 0 {
        downloaded / elapsed_seconds
    } else {
        downloaded
    }
}

/// Whether a download progress event is due: at most one every 100
/// milliseconds, plus unconditionally when the file completes.
pub fn download_event_due(now_ms: u64, last_emit_ms: u64, downloaded: u64, file_size: u64) -> (r:
    bool)
    requires
        last_emit_ms <= now_ms,
    ensures
        r == (now_ms - last_emit_ms >= 100 || downloaded == file_size),
{
    now_ms - last_emit_ms >= 100 || downloaded == file_size
}

/// Whether a diff-check progress event is due: at a fixed cadence of
/// every hundredth record, plus unconditionally on the final record.
pub fn diff_event_due(checked: u64, total: u64) -> (r: bool)
    ensures
        r == (checked % 100 == 0 || checked == total),
{
    checked % 100 == 0 || checked == total
}

/// The event reporting one hashed file of a manifest scan.
pub fn manifest_scan_event(
    current_file: &str,
    files_processed: u64,
    total_files: u64,
    total_bytes: u64,
) -> (ev: ProgressEvent)
    requires
        total_files > 0,
        files_processed <= total_files,
    ensures
        ev matches ProgressEvent::ManifestScan {
            current_file: f,
            percent,
            files_processed: fp,
            total_files: tf,
            total_bytes: tb,
        } && f@ == current_file@ && percent == files_processed as int * 100 / total_files as int
            && fp == files_processed && tf == total_files && tb == total_bytes,
{
    ProgressEvent::ManifestScan {
        current_file: current_file.to_owned(),
        percent: percent(files_processed, total_files),
        files_processed,
        total_files,
        total_bytes,
    }
}

/// The event reporting diff-pass progress after a record was evaluated.
pub fn diff_check_event(
    current_file: &str,
    files_checked: u64,
    total_files: u64,
    files_needing_update: u64,
    elapsed_seconds: u64,
) -> (ev: ProgressEvent)
    requires
        total_files > 0,
        files_checked <= total_files,
    ensures
        ev matches ProgressEvent::DiffCheck {
            current_file: f,
            percent,
            files_checked: fc,
            total_files: tf,
            files_needing_update: fu,
            elapsed_seconds: es,
        } && f@ == current_file@ && percent == files_checked as int * 100 / total_files as int
            && fc == files_checked && tf == total_files && fu == files_needing_update && es
            == elapsed_seconds,
{
    ProgressEvent::DiffCheck {
        current_file: current_file.to_owned(),
        percent: percent(files_checked, total_files),
        files_checked,
        total_files,
        files_needing_update,
        elapsed_seconds,
    }
}

/// The event reporting bytes received for the file currently
/// downloading: carries the instantaneous speed and the running total
/// across the whole orchestration call.
pub fn download_progress_event(
    file_name: &str,
    downloaded: u64,
    file_size: u64,
    elapsed_seconds: u64,
    bytes_downloaded_total: u64,
    bytes_total: u64,
    file_index: u64,
    total_files: u64,
) -> (ev: ProgressEvent)
    requires
        file_size > 0,
        downloaded <= file_size,
    ensures
        ev matches ProgressEvent::Download {
            file_name: f,
            percent,
            bytes_per_second: bps,
            bytes_downloaded_total: bdt,
            bytes_total: bt,
            file_index: fi,
            total_files: tf,
            elapsed_seconds: es,
        } && f@ == file_name@ && percent == downloaded as int * 100 / file_size as int && (
        elapsed_seconds > 0 ==> bps == downloaded as int / elapsed_seconds as int) && (
        elapsed_seconds == 0 ==> bps == downloaded) && bdt == bytes_downloaded_total && bt
            == bytes_total && fi == file_index && tf == total_files && es == elapsed_seconds,
{
    ProgressEvent::Download {
        file_name: file_name.to_owned(),
        percent: percent(downloaded, file_size),
        bytes_per_second: transfer_speed(downloaded, elapsed_seconds),
        bytes_downloaded_total,
        bytes_total,
        file_index,
        total_files,
        elapsed_seconds,
    }
}

/// The terminal event for one finished file: one hundred percent, speed
/// zero.
pub fn download_final_event(
    file_name: &str,
    bytes_downloaded_total: u64,
    bytes_total: u64,
    file_index: u64,
    total_files: u64,
    elapsed_seconds: u64,
) -> (ev: ProgressEvent)
    ensures
        ev matches ProgressEvent::Download {
            file_name: f,
            percent,
            bytes_per_second: bps,
            bytes_downloaded_total: bdt,
            bytes_total: bt,
            file_index: fi,
            total_files: tf,
            elapsed_seconds: es,
        } && f@ == file_name@ && percent == 100 && bps == 0 && bdt == bytes_downloaded_total && bt
            == bytes_total && fi == file_index && tf == total_files && es == elapsed_seconds,
{
    ProgressEvent::Download {
        file_name: file_name.to_owned(),
        percent: 100,
        bytes_per_second: 0,
        bytes_downloaded_total,
        bytes_total,
        file_index,
        total_files,
        elapsed_seconds,
    }
}

} // verus!
