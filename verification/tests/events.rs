use teralaunch::events::{
    diff_check_event, diff_event_due, download_event_due, download_final_event,
    download_progress_event, manifest_scan_event, percent, transfer_speed, ProgressEvent,
};

#[test]
fn percent_is_whole_number_division() {
    assert_eq!(percent(0, 4), 0);
    assert_eq!(percent(1, 3), 33);
    assert_eq!(percent(2, 3), 66);
    assert_eq!(percent(3, 3), 100);
}

#[test]
fn speed_guards_zero_elapsed_time() {
    assert_eq!(transfer_speed(1000, 0), 1000);
    assert_eq!(transfer_speed(1000, 4), 250);
}

#[test]
fn download_events_are_rate_limited() {
    assert!(!download_event_due(1050, 1000, 10, 100));
    assert!(download_event_due(1100, 1000, 10, 100));
    // Completion always reports, however recently the last event went.
    assert!(download_event_due(1050, 1000, 100, 100));
}

#[test]
fn diff_events_come_every_hundredth_record_and_at_the_end() {
    assert!(diff_event_due(100, 250));
    assert!(diff_event_due(200, 250));
    assert!(!diff_event_due(101, 250));
    assert!(diff_event_due(250, 250));
}

#[test]
fn manifest_scan_event_fields() {
    let ev = manifest_scan_event("a/b.bin", 5, 10, 12345);
    match ev {
        ProgressEvent::ManifestScan {
            current_file,
            percent,
            files_processed,
            total_files,
            total_bytes,
        } => {
            assert_eq!(current_file, "a/b.bin");
            assert_eq!(percent, 50);
            assert_eq!(files_processed, 5);
            assert_eq!(total_files, 10);
            assert_eq!(total_bytes, 12345);
        }
        _ => panic!("expected a manifest-scan event"),
    }
}

#[test]
fn diff_check_event_fields() {
    let ev = diff_check_event("a/b.bin", 200, 250, 12, 9);
    match ev {
        ProgressEvent::DiffCheck {
            current_file,
            percent,
            files_checked,
            total_files,
            files_needing_update,
            elapsed_seconds,
        } => {
            assert_eq!(current_file, "a/b.bin");
            assert_eq!(percent, 80);
            assert_eq!(files_checked, 200);
            assert_eq!(total_files, 250);
            assert_eq!(files_needing_update, 12);
            assert_eq!(elapsed_seconds, 9);
        }
        _ => panic!("expected a diff-check event"),
    }
}

#[test]
fn download_progress_event_fields() {
    let ev = download_progress_event("a/b.bin", 50, 200, 2, 150, 400, 1, 3);
    match ev {
        ProgressEvent::Download {
            file_name,
            percent,
            bytes_per_second,
            bytes_downloaded_total,
            bytes_total,
            file_index,
            total_files,
            elapsed_seconds,
        } => {
            assert_eq!(file_name, "a/b.bin");
            assert_eq!(percent, 25);
            assert_eq!(bytes_per_second, 25);
            assert_eq!(bytes_downloaded_total, 150);
            assert_eq!(bytes_total, 400);
            assert_eq!(file_index, 1);
            assert_eq!(total_files, 3);
            assert_eq!(elapsed_seconds, 2);
        }
        _ => panic!("expected a download event"),
    }
}

#[test]
fn terminal_download_event_reports_completion() {
    let ev = download_final_event("a/b.bin", 400, 400, 3, 3, 7);
    match ev {
        ProgressEvent::Download { percent, bytes_per_second, .. } => {
            assert_eq!(percent, 100);
            assert_eq!(bytes_per_second, 0);
        }
        _ => panic!("expected a download event"),
    }
}
