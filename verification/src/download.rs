//! The download orchestrator's decision core.
//!
//! Files are downloaded strictly sequentially, in plan order. The
//! session tracks which file is due, the running byte total across the
//! whole call, and the per-file results; after every transfer it
//! verifies the downloaded content hash against the manifest and fails
//! the whole session on the first mismatch (fail-fast). The transfers
//! themselves — opening streams, writing to disk — are the caller's
//! business; the session is handed the outcome of each as plain values.

use vstd::prelude::*;
use crate::errors::SyncError;
use crate::events::ProgressEvent;
use crate::paths::str_eq;
use crate::records::{
    lemma_total_bytes_concat, lemma_total_bytes_nonneg, spec_total_bytes, FileRecord,
    FileRecordView,
};

verus! {

/// An ordered set of files selected for transfer, with the byte total
/// computed once at plan-build time.
#[derive(Debug)]
pub struct DownloadPlan {
    pub files: Vec<FileRecord>,
    pub total_bytes: u64,
}

impl DownloadPlan {
    /// A plan is coherent when its recorded total equals the sum of its
    /// files' sizes.
    pub open spec fn wf(&self) -> bool {
        self.total_bytes == spec_total_bytes(self.files.deep_view())
    }

    /// Builds a plan from the records a diff pass selected, computing
    /// the byte total; refuses a set of files whose sizes do not sum
    /// within range.
    pub fn from_records(files: Vec<FileRecord>) -> (r: Option<DownloadPlan>)
        ensures
            match r {
                Some(plan) => {
                    &&& plan.wf()
                    &&& plan.files@ == files@
                    &&& spec_total_bytes(files.deep_view()) <= u64::MAX
                },
                None => spec_total_bytes(files.deep_view()) > u64::MAX,
            },
    {
        let ghost fv = files.deep_view();
        let mut total: u64 = 0;
        let n = files.len();
        proof {
            assert(fv.take(0) =~= Seq::<FileRecordView>::empty());
        }
        for i in 0..n
            invariant
                n == files.len(),
                fv == files.deep_view(),
                fv.len() == n,
                total == spec_total_bytes(fv.take(i as int)),
        {
            proof {
                assert(fv.take(i + 1).drop_last() =~= fv.take(i as int));
                assert(fv.take(i + 1).last() == fv[i as int]);
                assert(fv[i as int] == files@[i as int]@);
            }
            let size = files[i].size;
            if total > u64::MAX - size {
                proof {
                    lemma_take_le_total(fv, i + 1);
                }
                return None;
            }
            total = total + size;
        }
        proof {
            assert(fv.take(n as int) =~= fv);
        }
        Some(DownloadPlan { files, total_bytes: total })
    }
}

/// A prefix of a plan never sums to more than the whole plan.
proof fn lemma_take_le_total(s: Seq<FileRecordView>, i: int)
    requires
        0 <= i <= s.len(),
    ensures
        spec_total_bytes(s.take(i)) <= spec_total_bytes(s),
{
    assert(s =~= s.take(i) + s.skip(i));
    lemma_total_bytes_concat(s.take(i), s.skip(i));
    lemma_total_bytes_nonneg(s.skip(i));
}

/// The per-file byte budget progress is measured against: the length
/// the server reported where it reported one, else the size the
/// manifest records.
pub fn effective_file_size(content_length: Option<u64>, manifest_size: u64) -> (r: u64)
    ensures
        r == (match content_length {
            Some(l) => l,
            None => manifest_size,
        }),
{
    match content_length {
        Some(l) => l,
        None => manifest_size,
    }
}

/// One sequential download pass over a plan. The session hands out
/// files strictly in plan order, takes back each transfer's outcome,
/// and stops cold at the first integrity failure.
pub struct DownloadSession {
    plan: DownloadPlan,
    results: Vec<u64>,
    downloaded_total: u64,
    failed: bool,
}

impl DownloadSession {
    /// The plan the session executes.
    pub closed spec fn spec_plan(&self) -> DownloadPlan {
        self.plan
    }

    /// The bytes-per-file results recorded so far, in plan order.
    pub closed spec fn spec_results(&self) -> Seq<u64> {
        self.results@
    }

    /// How many files have completed and been verified: one per
    /// recorded result, so a caller can tie the file handed out next to
    /// the results gathered so far.
    pub open spec fn spec_done(&self) -> int {
        self.spec_results().len() as int
    }

    /// True once an integrity failure has ended the session.
    pub closed spec fn spec_failed(&self) -> bool {
        self.failed
    }

    /// The running sum of the recorded per-file byte counts.
    pub closed spec fn spec_downloaded_total(&self) -> u64 {
        self.downloaded_total
    }

    /// A session is coherent while its plan is coherent, it has not
    /// overrun the plan, and its running total sums its results.
    pub closed spec fn wf(&self) -> bool {
        &&& self.plan.wf()
        &&& self.results@.len() <= self.plan.files@.len()
        &&& self.downloaded_total == spec_sum(self.results@)
    }

    /// Starts a session over a plan: nothing downloaded, nothing
    /// failed.
    pub fn new(plan: DownloadPlan) -> (s: DownloadSession)
        requires
            plan.wf(),
        ensures
            s.wf(),
            s.spec_plan() == plan,
            s.spec_results() == Seq::<u64>::empty(),
            !s.spec_failed(),
            s.spec_downloaded_total() == 0,
    {
        DownloadSession { plan, results: Vec::new(), downloaded_total: 0, failed: false }
    }

    /// The number of files the plan holds.
    pub fn total_files(&self) -> (n: usize)
        ensures
            n == self.spec_plan().files@.len(),
    {
        self.plan.files.len()
    }

    /// The plan's byte total, as computed at plan-build time.
    pub fn plan_total_bytes(&self) -> (n: u64)
        ensures
            n == self.spec_plan().total_bytes,
    {
        self.plan.total_bytes
    }

    /// The running byte total across the files completed so far.
    pub fn downloaded_so_far(&self) -> (n: u64)
        ensures
            n == self.spec_downloaded_total(),
    {
        self.downloaded_total
    }

    /// The file due next, in plan order: `None` once every file is done
    /// or the session has failed. While a file is pending, no network
    /// work beyond it is ever asked for.
    pub fn next_file(&self) -> (r: Option<&FileRecord>)
        requires
            self.wf(),
        ensures
            match r {
                Some(rec) => !self.spec_failed() && self.spec_done()
                    < self.spec_plan().files@.len() && rec == self.spec_plan().files@[self.spec_done()],
                None => self.spec_failed() || self.spec_done() == self.spec_plan().files@.len(),
            },
    {
        if self.failed || self.results.len() >= self.plan.files.len() {
            None
        } else {
            Some(&self.plan.files[self.results.len()])
        }
    }

    /// Takes the outcome of the pending file's transfer: the hex digest
    /// of the bytes that reached disk, and how many bytes were
    /// downloaded. When the digest equals the manifest's, the file is
    /// recorded as done and the totals advance; when it differs, the
    /// file is not recorded, the error carries the two digests, and the
    /// whole session fails — no later file will be handed out.
    pub fn complete_file(&mut self, actual_hash: &str, bytes_downloaded: u64) -> (r: Result<
        (),
        SyncError,
    >)
        requires
            old(self).wf(),
            !old(self).spec_failed(),
            old(self).spec_done() < old(self).spec_plan().files@.len(),
            old(self).spec_downloaded_total() + bytes_downloaded <= u64::MAX,
        ensures
            final(self).wf(),
            final(self).spec_plan() == old(self).spec_plan(),
            ({
                let expected = old(self).spec_plan().files@[old(self).spec_done()]@.hash;
                match r {
                    Ok(()) => {
                        &&& actual_hash@ == expected
                        &&& !final(self).spec_failed()
                        &&& final(self).spec_results() == old(self).spec_results().push(
                            bytes_downloaded,
                        )
                        &&& final(self).spec_downloaded_total() == old(
                            self,
                        ).spec_downloaded_total() + bytes_downloaded
                    },
                    Err(e) => {
                        &&& actual_hash@ != expected
                        &&& e matches SyncError::Integrity { path, expected: exp, actual } && path@
                            == old(self).spec_plan().files@[old(self).spec_done()]@.path && exp@
                            == expected && actual@ == actual_hash@
                        &&& final(self).spec_failed()
                        &&& final(self).spec_results() == old(self).spec_results()
                        &&& final(self).spec_downloaded_total() == old(
                            self,
                        ).spec_downloaded_total()
                    },
                }
            }),
    {
        let idx = self.results.len();
        let expected = &self.plan.files[idx].hash;
        if str_eq(actual_hash, expected.as_str()) {
            let ghost prev = self.results@;
            self.results.push(bytes_downloaded);
            self.downloaded_total = self.downloaded_total + bytes_downloaded;
            proof {
                assert(self.results@.drop_last() =~= prev);
            }
            Ok(())
        } else {
            self.failed = true;
            Err(
                SyncError::Integrity {
                    path: self.plan.files[idx].path.clone(),
                    expected: expected.clone(),
                    actual: actual_hash.to_owned(),
                },
            )
        }
    }

    /// True once every file of the plan completed and verified.
    pub fn is_complete(&self) -> (r: bool)
        requires
            self.wf(),
        ensures
            r == (!self.spec_failed() && self.spec_done() == self.spec_plan().files@.len()),
    {
        !self.failed && self.results.len() == self.plan.files.len()
    }

    /// Ends a completed session: yields the per-file byte counts in
    /// plan order and the single completion signal. An empty plan
    /// completes immediately, with an empty result and that one signal,
    /// no file having been asked for.
    pub fn finish(self) -> (r: (Vec<u64>, ProgressEvent))
        requires
            self.wf(),
            !self.spec_failed(),
            self.spec_done() == self.spec_plan().files@.len(),
        ensures
            r.0@ == self.spec_results(),
            r.0@.len() == self.spec_plan().files@.len(),
            r.1 == ProgressEvent::DownloadComplete,
    {
        (self.results, ProgressEvent::DownloadComplete)
    }
}

/// The sum of a sequence of byte counts.
pub open spec fn spec_sum(s: Seq<u64>) -> int
    decreases s.len(),
{
    if s.len() == 0 {
        0
    } else {
        spec_sum(s.drop_last()) + s.last()
    }
}

} // verus!
