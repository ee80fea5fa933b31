use vstd::prelude::*;
use vstd::string::*;
use crate::posts::PostFile;
use crate::target::Target;
use crate::text::{spec_decimal, str_eq, u64_to_string};

verus! {

/// The outcome of one file's download. `Success` and `Failure` carry the
/// bytes transferred in this session, so a caller can account for partial
/// progress; a failure never aborts the overall run.
#[derive(Debug)]
pub enum DownloadState {
    /// The destination already existed; nothing was asked of the network.
    Skip,
    /// The staging file's hash matched and it was renamed into place.
    Success(u64),
    /// The transfer or its verification failed; the message says why.
    Failure(u64, String),
}

/// What the status-code policy asks for after a response.
#[derive(Clone, Copy, PartialEq, Eq, Structural, Debug)]
pub enum StatusClass {
    /// The expected success status: carry on.
    Proceed,
    /// Forbidden or too many requests: sleep the rate-limit backoff and
    /// retry the identical request.
    RateLimitBackoff,
    /// A server error: sleep the shorter server-error backoff and retry.
    ServerErrorBackoff,
    /// Anything else: fail this file for good.
    PermanentFailure,
}

/// The uniform status-code policy for metadata and range requests, given
/// the success status the request expects (200 or 206).
pub open spec fn spec_classify_status(status: u16, success: u16) -> StatusClass {
    if status == success {
        StatusClass::Proceed
    } else if status == 403 || status == 429 {
        StatusClass::RateLimitBackoff
    } else if 500 <= status <= 599 {
        StatusClass::ServerErrorBackoff
    } else {
        StatusClass::PermanentFailure
    }
}

/// Applies the uniform status-code policy.
pub fn classify_status(status: u16, success: u16) -> (r: StatusClass)
    ensures
        r == spec_classify_status(status, success),
{
    if status == success {
        StatusClass::Proceed
    } else if status == 403 || status == 429 {
        StatusClass::RateLimitBackoff
    } else if 500 <= status && status <= 599 {
        StatusClass::ServerErrorBackoff
    } else {
        StatusClass::PermanentFailure
    }
}

/// The bracketed status prefix of a failure message.
pub open spec fn spec_status_prefix(status: u16) -> Seq<char> {
    "["@ + spec_decimal(status as nat) + "] "@
}

/// The reason a metadata response fails for good.
pub open spec fn spec_head_reason(status: u16, has_length: bool) -> Seq<char> {
    if status == 200 && !has_length {
        "Content-Length header is not present"@
    } else if status == 404 {
        "file not found"@
    } else {
        "unexpected status code"@
    }
}

/// The message of a failed size discovery.
pub open spec fn spec_head_failure_message(status: u16, has_length: bool, url: Seq<char>) -> Seq<
    char,
> {
    spec_status_prefix(status) + "failed to determine remote size: "@ + spec_head_reason(
        status,
        has_length,
    ) + " ("@ + url + ")"@
}

/// The message of a range request that failed for good.
pub open spec fn spec_range_failure_message(status: u16, url: Seq<char>) -> Seq<char> {
    if status == 404 {
        spec_status_prefix(status) + "download failed ("@ + url + ")"@
    } else {
        spec_status_prefix(status) + "download failed: unexpected status code "@ + url
    }
}

/// The message of a verification that found the wrong content hash.
pub open spec fn spec_hash_mismatch_message(name: Seq<char>) -> Seq<char> {
    "hash mismatch (deleted): "@ + name
}

/// Where one file's download stands: the steps of
/// existence check, size discovery, resumable range transfer,
/// hash verification and atomic finalize, in that order.
#[derive(Clone, Copy, PartialEq, Eq, Structural, Debug)]
pub enum DlPhase {
    /// The caller must test whether the destination already exists.
    CheckExists,
    /// A metadata request for the remote size is owed an answer.
    HeadSize,
    /// The staging file must be opened (created if absent) and measured.
    OpenStaging,
    /// A range request starting at the staging length is owed an answer.
    RangePending,
    /// A partial-content body is streaming into the staging file; its new
    /// length is owed once the body is exhausted and flushed.
    Streaming,
    /// The staging file is complete; its content hash is owed.
    Verify,
    /// The hash matched: the staging file must be renamed into place.
    MoveFile,
    /// The hash did not match: the staging file must be deleted.
    DeleteFile,
    /// The outcome is decided.
    Finished,
}

/// The download engine for one file, as a state machine. The caller
/// performs each piece of outside work the current phase asks for —
/// an existence test, a metadata request, opening and measuring the
/// staging file, a range request, streaming a body, hashing, a rename,
/// a delete — and feeds the result back in; every decision of the
/// algorithm is made and checked here.
pub struct Downloader {
    /// The file's canonical CDN URL.
    pub url: String,
    /// The content hash the file name promises: its first 64 characters.
    pub expected_hash: String,
    /// The destination file name, used in failure messages.
    pub file_name: String,
    /// Where the download stands.
    pub phase: DlPhase,
    /// The remote size, once discovered.
    pub rsize: u64,
    /// The staging file's length when the session began: the resume offset.
    pub start_size: u64,
    /// The staging file's current length.
    pub cur: u64,
    /// The decided outcome, exactly when the phase is `Finished`.
    pub outcome: Option<DownloadState>,
    /// Metadata requests answered.
    pub head_requests: u64,
    /// Range requests answered.
    pub range_requests: u64,
    /// Rate-limit backoffs slept.
    pub rate_backoffs: u64,
    /// Server-error backoffs slept.
    pub server_backoffs: u64,
}

impl Downloader {
    /// The engine's invariant: an outcome stands exactly in the final
    /// phase, and the staging file never shrinks below its resume offset.
    pub open spec fn wf(self) -> bool {
        &&& (self.phase == DlPhase::Finished) == (self.outcome is Some)
        &&& self.start_size <= self.cur
    }

    /// The fields that never change after construction.
    pub open spec fn same_identity(self, other: Downloader) -> bool {
        &&& self.url == other.url
        &&& self.expected_hash == other.expected_hash
        &&& self.file_name == other.file_name
    }

    /// The request and backoff counters, unchanged.
    pub open spec fn same_counters(self, other: Downloader) -> bool {
        &&& self.head_requests == other.head_requests
        &&& self.range_requests == other.range_requests
        &&& self.rate_backoffs == other.rate_backoffs
        &&& self.server_backoffs == other.server_backoffs
    }

    /// The bytes this session has transferred so far.
    pub open spec fn spec_session_bytes(self) -> int
        recommends
            self.wf(),
    {
        self.cur - self.start_size
    }

    /// A fresh engine for one file of a target.
    pub fn new(file: &PostFile, target: &Target) -> (r: Downloader)
        requires
            file.path is Some,
            file.spec_name().len() >= 64,
        ensures
            r.wf(),
            r.url@ == file.spec_url(*target),
            r.expected_hash@ == file.spec_hash(),
            r.file_name@ == file.spec_name(),
            r.phase == DlPhase::CheckExists,
            r.outcome is None,
            r.head_requests == 0,
            r.range_requests == 0,
            r.rate_backoffs == 0,
            r.server_backoffs == 0,
            r.cur == 0,
            r.start_size == 0,
    {
        Downloader {
            url: file.to_url(target),
            expected_hash: file.to_hash(),
            file_name: file.to_name(),
            phase: DlPhase::CheckExists,
            rsize: 0,
            start_size: 0,
            cur: 0,
            outcome: None,
            head_requests: 0,
            range_requests: 0,
            rate_backoffs: 0,
            server_backoffs: 0,
        }
    }

    /// Feeds in whether the destination path already exists. An existing
    /// destination short-circuits everything: the outcome is `Skip` and no
    /// request was or will be counted.
    pub fn on_exists(&mut self, exists: bool)
        requires
            old(self).wf(),
            old(self).phase == DlPhase::CheckExists,
        ensures
            final(self).wf(),
            final(self).same_identity(*old(self)),
            final(self).same_counters(*old(self)),
            final(self).cur == old(self).cur,
            final(self).start_size == old(self).start_size,
            final(self).rsize == old(self).rsize,
            exists ==> final(self).phase == DlPhase::Finished && final(self).outcome == Some(
                DownloadState::Skip,
            ),
            !exists ==> final(self).phase == DlPhase::HeadSize && final(self).outcome is None,
    {
        if exists {
            self.phase = DlPhase::Finished;
            self.outcome = Some(DownloadState::Skip);
        } else {
            self.phase = DlPhase::HeadSize;
        }
    }

    /// Feeds in a metadata response: its status, and the length indicator
    /// it carried, if any. A success status with a length fixes the remote
    /// size; retryable statuses count a backoff and leave the request owed
    /// again; everything else decides a permanent failure with no bytes
    /// transferred.
    pub fn on_head(&mut self, status: u16, content_length: Option<u64>) -> (r: StatusClass)
        requires
            old(self).wf(),
            old(self).phase == DlPhase::HeadSize,
            old(self).head_requests < u64::MAX,
            old(self).rate_backoffs < u64::MAX,
            old(self).server_backoffs < u64::MAX,
        ensures
            final(self).wf(),
            final(self).same_identity(*old(self)),
            r == spec_classify_status(status, 200),
            final(self).head_requests == old(self).head_requests + 1,
            final(self).range_requests == old(self).range_requests,
            final(self).cur == old(self).cur,
            final(self).start_size == old(self).start_size,
            !(status == 200 && content_length is Some) ==> final(self).rsize == old(self).rsize,
            (status == 200 && content_length is Some) ==> {
                &&& final(self).phase == DlPhase::OpenStaging
                &&& final(self).rsize == content_length->0
                &&& final(self).outcome is None
            },
            (status == 200 && content_length is None) ==> {
                &&& final(self).phase == DlPhase::Finished
                &&& (final(self).outcome matches Some(DownloadState::Failure(b, m)) && b == 0
                    && m@ == spec_head_failure_message(status, false, old(self).url@))
            },
            r == StatusClass::RateLimitBackoff ==> {
                &&& final(self).phase == DlPhase::HeadSize
                &&& final(self).rate_backoffs == old(self).rate_backoffs + 1
                &&& final(self).server_backoffs == old(self).server_backoffs
                &&& final(self).outcome is None
            },
            r == StatusClass::ServerErrorBackoff ==> {
                &&& final(self).phase == DlPhase::HeadSize
                &&& final(self).server_backoffs == old(self).server_backoffs + 1
                &&& final(self).rate_backoffs == old(self).rate_backoffs
                &&& final(self).outcome is None
            },
            (status != 200 && r == StatusClass::PermanentFailure) ==> {
                &&& final(self).phase == DlPhase::Finished
                &&& (final(self).outcome matches Some(DownloadState::Failure(b, m)) && b == 0
                    && m@ == spec_head_failure_message(status, content_length is Some, old(self).url@))
            },
            r == StatusClass::Proceed || r == StatusClass::PermanentFailure ==> final(self).same_counters_backoffs(*old(self)),
    {
        self.head_requests = self.head_requests + 1;
        let r = classify_status(status, 200);
        match r {
            StatusClass::Proceed => {
                match content_length {
                    Some(n) => {
                        self.rsize = n;
                        self.phase = DlPhase::OpenStaging;
                    },
                    None => {
                        let msg = self.head_failure_message(status, false);
                        self.phase = DlPhase::Finished;
                        self.outcome = Some(DownloadState::Failure(0, msg));
                    },
                }
            },
            StatusClass::RateLimitBackoff => {
                self.rate_backoffs = self.rate_backoffs + 1;
            },
            StatusClass::ServerErrorBackoff => {
                self.server_backoffs = self.server_backoffs + 1;
            },
            StatusClass::PermanentFailure => {
                let msg = self.head_failure_message(status, content_length.is_some());
                self.phase = DlPhase::Finished;
                self.outcome = Some(DownloadState::Failure(0, msg));
            },
        }
        r
    }

    /// Both backoff counters, unchanged.
    pub open spec fn same_counters_backoffs(self, other: Downloader) -> bool {
        &&& self.rate_backoffs == other.rate_backoffs
        &&& self.server_backoffs == other.server_backoffs
    }

    /// Builds the message of a failed size discovery.
    fn head_failure_message(&self, status: u16, has_length: bool) -> (r: String)
        ensures
            r@ == spec_head_failure_message(status, has_length, self.url@),
    {
        let mut r = String::from_str("[");
        let s = u64_to_string(status as u64);
        r.append(s.as_str());
        r.append("] ");
        r.append("failed to determine remote size: ");
        if status == 200 && !has_length {
            r.append("Content-Length header is not present");
        } else if status == 404 {
            r.append("file not found");
        } else {
            r.append("unexpected status code");
        }
        r.append(" (");
        r.append(self.url.as_str());
        r.append(")");
        proof {
            assert(r@ =~= spec_head_failure_message(status, has_length, self.url@));
        }
        r
    }

    /// Feeds in the staging file's length, measured after opening it in
    /// append mode: the resume offset. A staging file already holding the
    /// whole remote size goes straight to verification; otherwise the
    /// first range request is owed, starting exactly at this length.
    pub fn on_staging_len(&mut self, len: u64)
        requires
            old(self).wf(),
            old(self).phase == DlPhase::OpenStaging,
        ensures
            final(self).wf(),
            final(self).same_identity(*old(self)),
            final(self).same_counters(*old(self)),
            final(self).rsize == old(self).rsize,
            final(self).start_size == len,
            final(self).cur == len,
            final(self).outcome is None,
            final(self).phase == (if len < old(self).rsize {
                DlPhase::RangePending
            } else {
                DlPhase::Verify
            }),
    {
        self.start_size = len;
        self.cur = len;
        if len < self.rsize {
            self.phase = DlPhase::RangePending;
        } else {
            self.phase = DlPhase::Verify;
        }
    }

    /// The offset the owed range request must carry: the staging file's
    /// current length, so a rerun resumes where the last session stopped.
    pub fn range_start(&self) -> (r: u64)
        requires
            self.phase == DlPhase::RangePending,
        ensures
            r == self.cur,
    {
        self.cur
    }

    /// Feeds in a range response status. Partial content starts streaming;
    /// retryable statuses count a backoff and leave the same range request
    /// owed; everything else decides a failure carrying the bytes this
    /// session transferred.
    pub fn on_range_status(&mut self, status: u16) -> (r: StatusClass)
        requires
            old(self).wf(),
            old(self).phase == DlPhase::RangePending,
            old(self).range_requests < u64::MAX,
            old(self).rate_backoffs < u64::MAX,
            old(self).server_backoffs < u64::MAX,
        ensures
            final(self).wf(),
            final(self).same_identity(*old(self)),
            r == spec_classify_status(status, 206),
            final(self).range_requests == old(self).range_requests + 1,
            final(self).head_requests == old(self).head_requests,
            final(self).cur == old(self).cur,
            final(self).start_size == old(self).start_size,
            final(self).rsize == old(self).rsize,
            r == StatusClass::Proceed ==> final(self).phase == DlPhase::Streaming && final(self).outcome is None,
            r == StatusClass::RateLimitBackoff ==> {
                &&& final(self).phase == DlPhase::RangePending
                &&& final(self).rate_backoffs == old(self).rate_backoffs + 1
                &&& final(self).server_backoffs == old(self).server_backoffs
                &&& final(self).outcome is None
            },
            r == StatusClass::ServerErrorBackoff ==> {
                &&& final(self).phase == DlPhase::RangePending
                &&& final(self).server_backoffs == old(self).server_backoffs + 1
                &&& final(self).rate_backoffs == old(self).rate_backoffs
                &&& final(self).outcome is None
            },
            r == StatusClass::PermanentFailure ==> {
                &&& final(self).phase == DlPhase::Finished
                &&& (final(self).outcome matches Some(DownloadState::Failure(b, m)) && b == old(self).spec_session_bytes() && m@ == spec_range_failure_message(status, old(self).url@))
                &&& final(self).same_counters_backoffs(*old(self))
            },
    {
        self.range_requests = self.range_requests + 1;
        let r = classify_status(status, 206);
        match r {
            StatusClass::Proceed => {
                self.phase = DlPhase::Streaming;
            },
            StatusClass::RateLimitBackoff => {
                self.rate_backoffs = self.rate_backoffs + 1;
            },
            StatusClass::ServerErrorBackoff => {
                self.server_backoffs = self.server_backoffs + 1;
            },
            StatusClass::PermanentFailure => {
                let msg = self.range_failure_message(status);
                let bytes = self.cur - self.start_size;
                self.phase = DlPhase::Finished;
                self.outcome = Some(DownloadState::Failure(bytes, msg));
            },
        }
        r
    }

    /// Builds the message of a range request that failed for good.
    fn range_failure_message(&self, status: u16) -> (r: String)
        ensures
            r@ == spec_range_failure_message(status, self.url@),
    {
        let mut r = String::from_str("[");
        let s = u64_to_string(status as u64);
        r.append(s.as_str());
        r.append("] ");
        if status == 404 {
            r.append("download failed (");
            r.append(self.url.as_str());
            r.append(")");
        } else {
            r.append("download failed: unexpected status code ");
            r.append(self.url.as_str());
        }
        proof {
            assert(r@ =~= spec_range_failure_message(status, self.url@));
        }
        r
    }

    /// Feeds in the staging file's length after a streamed body was
    /// appended and flushed. A still-short staging file leaves the next
    /// range request owed at the new length; otherwise the transfer is
    /// complete and verification is owed.
    pub fn on_append_complete(&mut self, new_len: u64)
        requires
            old(self).wf(),
            old(self).phase == DlPhase::Streaming,
            new_len >= old(self).start_size,
        ensures
            final(self).wf(),
            final(self).same_identity(*old(self)),
            final(self).same_counters(*old(self)),
            final(self).rsize == old(self).rsize,
            final(self).start_size == old(self).start_size,
            final(self).cur == new_len,
            final(self).outcome is None,
            final(self).phase == (if new_len < old(self).rsize {
                DlPhase::RangePending
            } else {
                DlPhase::Verify
            }),
    {
        self.cur = new_len;
        if new_len < self.rsize {
            self.phase = DlPhase::RangePending;
        } else {
            self.phase = DlPhase::Verify;
        }
    }

    /// Feeds in a local I/O failure met while streaming the body or
    /// re-measuring the staging file. It is captured, never propagated:
    /// the outcome is a failure carrying the bytes this session
    /// transferred and the caller's message.
    pub fn on_io_error(&mut self, message: String)
        requires
            old(self).wf(),
            old(self).phase == DlPhase::RangePending || old(self).phase == DlPhase::Streaming,
        ensures
            final(self).wf(),
            final(self).same_identity(*old(self)),
            final(self).same_counters(*old(self)),
            final(self).cur == old(self).cur,
            final(self).start_size == old(self).start_size,
            final(self).rsize == old(self).rsize,
            final(self).phase == DlPhase::Finished,
            final(self).outcome matches Some(DownloadState::Failure(b, m)) && b == old(self).spec_session_bytes() && m@ == message@,
    {
        let bytes = self.cur - self.start_size;
        self.phase = DlPhase::Finished;
        self.outcome = Some(DownloadState::Failure(bytes, message));
    }

    /// Feeds in the computed content hash of the complete staging file.
    /// A hash equal to the one the file name promises asks for the atomic
    /// rename; any other hash asks for the staging file's deletion.
    pub fn on_hash(&mut self, computed: &str)
        requires
            old(self).wf(),
            old(self).phase == DlPhase::Verify,
        ensures
            final(self).wf(),
            final(self).same_identity(*old(self)),
            final(self).same_counters(*old(self)),
            final(self).cur == old(self).cur,
            final(self).start_size == old(self).start_size,
            final(self).rsize == old(self).rsize,
            final(self).outcome is None,
            final(self).phase == (if computed@ == old(self).expected_hash@ {
                DlPhase::MoveFile
            } else {
                DlPhase::DeleteFile
            }),
    {
        if str_eq(computed, self.expected_hash.as_str()) {
            self.phase = DlPhase::MoveFile;
        } else {
            self.phase = DlPhase::DeleteFile;
        }
    }

    /// Feeds in that the staging file was renamed to the destination:
    /// the download succeeded with this session's byte count.
    pub fn on_moved(&mut self)
        requires
            old(self).wf(),
            old(self).phase == DlPhase::MoveFile,
        ensures
            final(self).wf(),
            final(self).same_identity(*old(self)),
            final(self).same_counters(*old(self)),
            final(self).phase == DlPhase::Finished,
            final(self).outcome matches Some(DownloadState::Success(b)) && b == old(self).spec_session_bytes(),
    {
        let bytes = self.cur - self.start_size;
        self.phase = DlPhase::Finished;
        self.outcome = Some(DownloadState::Success(bytes));
    }

    /// Feeds in that the corrupt staging file was deleted: the outcome is
    /// a failure naming the hash mismatch, and no artifact remains on disk.
    pub fn on_deleted(&mut self)
        requires
            old(self).wf(),
            old(self).phase == DlPhase::DeleteFile,
        ensures
            final(self).wf(),
            final(self).same_identity(*old(self)),
            final(self).same_counters(*old(self)),
            final(self).phase == DlPhase::Finished,
            final(self).outcome matches Some(DownloadState::Failure(b, m)) && b == old(self).spec_session_bytes() && m@ == spec_hash_mismatch_message(old(self).file_name@),
    {
        let bytes = self.cur - self.start_size;
        let mut msg = String::from_str("hash mismatch (deleted): ");
        msg.append(self.file_name.as_str());
        self.phase = DlPhase::Finished;
        self.outcome = Some(DownloadState::Failure(bytes, msg));
    }
}

} // verus!
