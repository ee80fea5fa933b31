use postvault::download::{classify_status, DlPhase, Downloader, DownloadState, StatusClass};
use postvault::posts::PostFile;
use postvault::target::{Service, SubType, Target};

const HASH: &str = "6e6cf84df44c1d091a2e36b6df77b098107c18831833de1e2e9c8207206f150b";

fn file() -> PostFile {
    PostFile { path: Some(format!("/6e/6c/{HASH}.jpg")) }
}

fn target() -> Target {
    Target::Creator {
        service: Service::Patreon,
        user: String::from("alice"),
        subtype: SubType::All,
    }
}

fn url() -> String {
    format!("https://kemono.su/data/6e/6c/{HASH}.jpg")
}

#[test]
fn status_policy_table() {
    assert_eq!(classify_status(200, 200), StatusClass::Proceed);
    assert_eq!(classify_status(206, 206), StatusClass::Proceed);
    assert_eq!(classify_status(206, 200), StatusClass::PermanentFailure);
    assert_eq!(classify_status(404, 200), StatusClass::PermanentFailure);
    assert_eq!(classify_status(403, 206), StatusClass::RateLimitBackoff);
    assert_eq!(classify_status(429, 200), StatusClass::RateLimitBackoff);
    assert_eq!(classify_status(500, 206), StatusClass::ServerErrorBackoff);
    assert_eq!(classify_status(503, 200), StatusClass::ServerErrorBackoff);
    assert_eq!(classify_status(599, 200), StatusClass::ServerErrorBackoff);
    assert_eq!(classify_status(418, 200), StatusClass::PermanentFailure);
    assert_eq!(classify_status(301, 206), StatusClass::PermanentFailure);
}

#[test]
fn existing_destination_skips_without_requests() {
    let mut dl = Downloader::new(&file(), &target());
    dl.on_exists(true);
    assert_eq!(dl.phase, DlPhase::Finished);
    assert!(matches!(dl.outcome, Some(DownloadState::Skip)));
    assert_eq!(dl.head_requests, 0);
    assert_eq!(dl.range_requests, 0);
}

#[test]
fn rate_limited_metadata_sleeps_once_then_succeeds() {
    // A metadata sequence of 429 then 200 backs off exactly once before
    // the size comes through.
    let mut dl = Downloader::new(&file(), &target());
    dl.on_exists(false);
    let c = dl.on_head(429, None);
    assert_eq!(c, StatusClass::RateLimitBackoff);
    assert_eq!(dl.phase, DlPhase::HeadSize);
    assert_eq!(dl.rate_backoffs, 1);
    let c = dl.on_head(200, Some(10));
    assert_eq!(c, StatusClass::Proceed);
    assert_eq!(dl.phase, DlPhase::OpenStaging);
    assert_eq!(dl.rsize, 10);
    assert_eq!(dl.rate_backoffs, 1);
    assert_eq!(dl.head_requests, 2);
}

#[test]
fn missing_file_fails_for_good() {
    let mut dl = Downloader::new(&file(), &target());
    dl.on_exists(false);
    let c = dl.on_head(404, None);
    assert_eq!(c, StatusClass::PermanentFailure);
    assert_eq!(dl.phase, DlPhase::Finished);
    match dl.outcome {
        Some(DownloadState::Failure(bytes, msg)) => {
            assert_eq!(bytes, 0);
            assert_eq!(
                msg,
                format!("[404] failed to determine remote size: file not found ({})", url())
            );
        }
        other => panic!("unexpected outcome: {other:?}"),
    }
}

#[test]
fn missing_length_fails_for_good() {
    let mut dl = Downloader::new(&file(), &target());
    dl.on_exists(false);
    dl.on_head(200, None);
    assert_eq!(dl.phase, DlPhase::Finished);
    match dl.outcome {
        Some(DownloadState::Failure(bytes, msg)) => {
            assert_eq!(bytes, 0);
            assert_eq!(
                msg,
                format!(
                    "[200] failed to determine remote size: Content-Length header is not present ({})",
                    url()
                )
            );
        }
        other => panic!("unexpected outcome: {other:?}"),
    }
}

#[test]
fn resume_starts_at_the_staging_length() {
    // A staging file already holding the first 4 bytes of a 10-byte
    // remote file: the first range request starts at 4, and after the
    // rest streams in, the verified file succeeds with 6 new bytes.
    let mut dl = Downloader::new(&file(), &target());
    dl.on_exists(false);
    dl.on_head(200, Some(10));
    dl.on_staging_len(4);
    assert_eq!(dl.phase, DlPhase::RangePending);
    assert_eq!(dl.range_start(), 4);
    let c = dl.on_range_status(206);
    assert_eq!(c, StatusClass::Proceed);
    assert_eq!(dl.phase, DlPhase::Streaming);
    dl.on_append_complete(10);
    assert_eq!(dl.phase, DlPhase::Verify);
    dl.on_hash(HASH);
    assert_eq!(dl.phase, DlPhase::MoveFile);
    dl.on_moved();
    assert!(matches!(dl.outcome, Some(DownloadState::Success(6))));
    assert_eq!(dl.range_requests, 1);
}

#[test]
fn complete_staging_file_skips_the_transfer_loop() {
    let mut dl = Downloader::new(&file(), &target());
    dl.on_exists(false);
    dl.on_head(200, Some(10));
    dl.on_staging_len(10);
    assert_eq!(dl.phase, DlPhase::Verify);
    assert_eq!(dl.range_requests, 0);
}

#[test]
fn transfer_loops_until_the_remote_size_is_reached() {
    let mut dl = Downloader::new(&file(), &target());
    dl.on_exists(false);
    dl.on_head(200, Some(10));
    dl.on_staging_len(0);
    dl.on_range_status(206);
    dl.on_append_complete(4);
    assert_eq!(dl.phase, DlPhase::RangePending);
    assert_eq!(dl.range_start(), 4);
    dl.on_range_status(206);
    dl.on_append_complete(10);
    assert_eq!(dl.phase, DlPhase::Verify);
    assert_eq!(dl.range_requests, 2);
}

#[test]
fn range_retry_protocol() {
    let mut dl = Downloader::new(&file(), &target());
    dl.on_exists(false);
    dl.on_head(200, Some(10));
    dl.on_staging_len(0);
    let c = dl.on_range_status(429);
    assert_eq!(c, StatusClass::RateLimitBackoff);
    assert_eq!(dl.phase, DlPhase::RangePending);
    assert_eq!(dl.rate_backoffs, 1);
    let c = dl.on_range_status(503);
    assert_eq!(c, StatusClass::ServerErrorBackoff);
    assert_eq!(dl.phase, DlPhase::RangePending);
    assert_eq!(dl.server_backoffs, 1);
    let c = dl.on_range_status(404);
    assert_eq!(c, StatusClass::PermanentFailure);
    match dl.outcome {
        Some(DownloadState::Failure(bytes, msg)) => {
            assert_eq!(bytes, 0);
            assert_eq!(msg, format!("[404] download failed ({})", url()));
        }
        other => panic!("unexpected outcome: {other:?}"),
    }
}

#[test]
fn io_error_becomes_a_failure_with_partial_bytes() {
    let mut dl = Downloader::new(&file(), &target());
    dl.on_exists(false);
    dl.on_head(200, Some(10));
    dl.on_staging_len(2);
    dl.on_range_status(206);
    dl.on_append_complete(7);
    dl.on_range_status(206);
    dl.on_io_error(String::from("disk full"));
    match dl.outcome {
        Some(DownloadState::Failure(bytes, msg)) => {
            assert_eq!(bytes, 5);
            assert_eq!(msg, "disk full");
        }
        other => panic!("unexpected outcome: {other:?}"),
    }
}

#[test]
fn hash_mismatch_deletes_the_staging_file() {
    // The computed hash differs from the first 64 characters of the file
    // name: the staging file is deleted and the outcome is a failure.
    let mut dl = Downloader::new(&file(), &target());
    dl.on_exists(false);
    dl.on_head(200, Some(10));
    dl.on_staging_len(0);
    dl.on_range_status(206);
    dl.on_append_complete(10);
    dl.on_hash("0000000000000000000000000000000000000000000000000000000000000000");
    assert_eq!(dl.phase, DlPhase::DeleteFile);
    dl.on_deleted();
    match dl.outcome {
        Some(DownloadState::Failure(bytes, msg)) => {
            assert_eq!(bytes, 10);
            assert_eq!(msg, format!("hash mismatch (deleted): {HASH}.jpg"));
        }
        other => panic!("unexpected outcome: {other:?}"),
    }
}
