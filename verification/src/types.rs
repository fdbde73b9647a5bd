//! The plain data types of a transfer session: an indexed DICOM file, the
//! per-file outcome, and the aggregated statistics.

use vstd::prelude::*;

verus! {

/// One indexed DICOM file, as the indexing collaborator hands it over:
/// identifying UIDs stripped of padding, plus optional descriptive fields.
#[derive(Debug)]
pub struct DicomFile {
    pub path: String,
    pub study_instance_uid: String,
    pub series_instance_uid: String,
    pub sop_instance_uid: String,
    pub sop_class_uid: String,
    pub file_size: u64,
    pub modality: Option<String>,
    pub patient_id: Option<String>,
    pub study_date: Option<String>,
}

impl DicomFile {
    /// A copy of this record.
    pub fn clone_file(&self) -> (r: DicomFile)
        ensures
            r.path == self.path,
            r.study_instance_uid == self.study_instance_uid,
            r.series_instance_uid == self.series_instance_uid,
            r.sop_instance_uid == self.sop_instance_uid,
            r.sop_class_uid == self.sop_class_uid,
            r.file_size == self.file_size,
    {
        DicomFile {
            path: self.path.clone(),
            study_instance_uid: self.study_instance_uid.clone(),
            series_instance_uid: self.series_instance_uid.clone(),
            sop_instance_uid: self.sop_instance_uid.clone(),
            sop_class_uid: self.sop_class_uid.clone(),
            file_size: self.file_size,
            modality: match &self.modality {
                Some(m) => Some(m.clone()),
                None => None,
            },
            patient_id: match &self.patient_id {
                Some(p) => Some(p.clone()),
                None => None,
            },
            study_date: match &self.study_date {
                Some(d) => Some(d.clone()),
                None => None,
            },
        }
    }
}

/// The outcome of one file's transfer.
#[derive(Debug)]
pub struct FileTransferResult {
    pub file_path: String,
    pub success: bool,
    pub error_message: Option<String>,
    pub transfer_time_ms: u64,
    pub file_size: u64,
}

/// The sum of a run of durations, in milliseconds.
pub open spec fn spec_sum(times: Seq<u64>) -> int
    decreases times.len(),
{
    if times.len() == 0 {
        0
    } else {
        spec_sum(times.drop_last()) + times.last()
    }
}

/// The number of successful outcomes in a run.
pub open spec fn spec_count_success(results: Seq<FileTransferResult>) -> int
    decreases results.len(),
{
    if results.len() == 0 {
        0
    } else {
        spec_count_success(results.drop_last()) + if results.last().success {
            1int
        } else {
            0int
        }
    }
}

/// The bytes of the successful outcomes in a run.
pub open spec fn spec_success_bytes(results: Seq<FileTransferResult>) -> int
    decreases results.len(),
{
    if results.len() == 0 {
        0
    } else {
        spec_success_bytes(results.drop_last()) + if results.last().success {
            results.last().file_size as int
        } else {
            0int
        }
    }
}

/// The transfer times of the successful outcomes in a run, in order.
pub open spec fn spec_success_times(results: Seq<FileTransferResult>) -> Seq<u64>
    decreases results.len(),
{
    if results.len() == 0 {
        Seq::empty()
    } else if results.last().success {
        spec_success_times(results.drop_last()).push(results.last().transfer_time_ms)
    } else {
        spec_success_times(results.drop_last())
    }
}

/// Aggregated statistics over one session's transfers.
#[derive(Debug)]
pub struct TransferStats {
    pub total_files: usize,
    pub successful_transfers: usize,
    pub failed_transfers: usize,
    pub total_bytes: u64,
    pub total_time_ms: u64,
    pub transfer_times_ms: Vec<u64>,
}

impl TransferStats {
    /// The accounting invariant of a finished session: every file counted
    /// exactly once, one recorded time per successful transfer, and the
    /// session's wall time covering the sum of the per-file times.
    pub open spec fn consistent(&self) -> bool {
        &&& self.successful_transfers + self.failed_transfers == self.total_files
        &&& self.transfer_times_ms@.len() == self.successful_transfers
        &&& spec_sum(self.transfer_times_ms@) <= self.total_time_ms
    }

    /// Empty statistics.
    pub fn new() -> (r: Self)
        ensures
            r.total_files == 0,
            r.successful_transfers == 0,
            r.failed_transfers == 0,
            r.total_bytes == 0,
            r.total_time_ms == 0,
            r.transfer_times_ms@ == Seq::<u64>::empty(),
            r.consistent(),
    {
        let r = TransferStats {
            total_files: 0,
            successful_transfers: 0,
            failed_transfers: 0,
            total_bytes: 0,
            total_time_ms: 0,
            transfer_times_ms: Vec::new(),
        };
        assert(r.transfer_times_ms@ =~= Seq::<u64>::empty());
        r
    }

    /// Counts one more transferred file and its bytes.
    pub fn increment_success(&mut self, bytes: u64)
        requires
            old(self).successful_transfers + 1 <= usize::MAX,
            old(self).total_bytes + bytes <= u64::MAX,
        ensures
            final(self).successful_transfers == old(self).successful_transfers + 1,
            final(self).total_bytes == old(self).total_bytes + bytes,
            final(self).failed_transfers == old(self).failed_transfers,
            final(self).total_files == old(self).total_files,
            final(self).total_time_ms == old(self).total_time_ms,
            final(self).transfer_times_ms == old(self).transfer_times_ms,
    {
        self.successful_transfers = self.successful_transfers + 1;
        self.total_bytes = self.total_bytes + bytes;
    }

    /// Counts one more failed file.
    pub fn increment_failure(&mut self)
        requires
            old(self).failed_transfers + 1 <= usize::MAX,
        ensures
            final(self).failed_transfers == old(self).failed_transfers + 1,
            final(self).successful_transfers == old(self).successful_transfers,
            final(self).total_bytes == old(self).total_bytes,
            final(self).total_files == old(self).total_files,
            final(self).total_time_ms == old(self).total_time_ms,
            final(self).transfer_times_ms == old(self).transfer_times_ms,
    {
        self.failed_transfers = self.failed_transfers + 1;
    }
}

/// Builds the session statistics from the per-file outcomes and the measured
/// wall time, which can be no less than the time spent inside the individual
/// transfers it spans.
pub fn summarize_results(results: &Vec<FileTransferResult>, total_time_ms: u64) -> (r:
    TransferStats)
    requires
        spec_sum(spec_success_times(results@)) <= total_time_ms,
        spec_success_bytes(results@) <= u64::MAX,
    ensures
        r.total_files == results@.len(),
        r.successful_transfers == spec_count_success(results@),
        r.failed_transfers == results@.len() - spec_count_success(results@),
        r.total_bytes == spec_success_bytes(results@),
        r.transfer_times_ms@ == spec_success_times(results@),
        r.total_time_ms == total_time_ms,
        r.consistent(),
{
    let n = results.len();
    let mut successful: usize = 0;
    let mut failed: usize = 0;
    let mut total_bytes: u64 = 0;
    let mut times: Vec<u64> = Vec::new();
    let mut i: usize = 0;
    assert(results@.subrange(0, 0) =~= Seq::<FileTransferResult>::empty());
    while i < n
        invariant
            n == results@.len(),
            i <= n,
            successful == spec_count_success(results@.subrange(0, i as int)),
            successful + failed == i,
            total_bytes == spec_success_bytes(results@.subrange(0, i as int)),
            times@ == spec_success_times(results@.subrange(0, i as int)),
            spec_success_bytes(results@) <= u64::MAX,
        decreases n - i,
    {
        proof {
            assert(results@.subrange(0, i + 1).drop_last() =~= results@.subrange(0, i as int));
            assert(results@.subrange(0, i + 1).last() == results@[i as int]);
            lemma_success_bytes_prefix(results@, i + 1);
        }
        if results[i].success {
            successful = successful + 1;
            total_bytes = total_bytes + results[i].file_size;
            times.push(results[i].transfer_time_ms);
        } else {
            failed = failed + 1;
        }
        i = i + 1;
    }
    assert(results@.subrange(0, n as int) =~= results@);
    proof {
        lemma_count_success_bounds(results@);
        lemma_sum_prefix(spec_success_times(results@));
        lemma_success_times_len(results@);
    }
    TransferStats {
        total_files: n,
        successful_transfers: successful,
        failed_transfers: failed,
        total_bytes,
        total_time_ms,
        transfer_times_ms: times,
    }
}

/// One recorded time per successful outcome.
pub proof fn lemma_success_times_len(results: Seq<FileTransferResult>)
    ensures
        spec_success_times(results).len() == spec_count_success(results),
    decreases results.len(),
{
    if results.len() > 0 {
        lemma_success_times_len(results.drop_last());
    }
}

/// The success count never exceeds the number of outcomes.
pub proof fn lemma_count_success_bounds(results: Seq<FileTransferResult>)
    ensures
        0 <= spec_count_success(results) <= results.len(),
    decreases results.len(),
{
    if results.len() > 0 {
        lemma_count_success_bounds(results.drop_last());
    }
}

/// A sum of durations is non-negative.
pub proof fn lemma_sum_prefix(times: Seq<u64>)
    ensures
        spec_sum(times) >= 0,
    decreases times.len(),
{
    if times.len() > 0 {
        lemma_sum_prefix(times.drop_last());
    }
}

/// The successful bytes of a prefix never exceed those of the whole run.
pub proof fn lemma_success_bytes_prefix(results: Seq<FileTransferResult>, k: int)
    requires
        0 <= k <= results.len(),
    ensures
        spec_success_bytes(results.subrange(0, k)) <= spec_success_bytes(results),
    decreases results.len() - k,
{
    if k == results.len() {
        assert(results.subrange(0, k) =~= results);
    } else {
        lemma_success_bytes_prefix(results, k + 1);
        assert(results.subrange(0, k + 1).drop_last() =~= results.subrange(0, k));
        assert(results.subrange(0, k + 1).last() == results[k]);
        lemma_success_bytes_nonneg(results.subrange(0, k));
    }
}

/// Successful bytes are non-negative.
pub proof fn lemma_success_bytes_nonneg(results: Seq<FileTransferResult>)
    ensures
        spec_success_bytes(results) >= 0,
    decreases results.len(),
{
    if results.len() > 0 {
        lemma_success_bytes_nonneg(results.drop_last());
    }
}

/// The accounting law of a finished session: the successes and failures
/// partition the files, and the time spent inside successful transfers never
/// exceeds the session's wall time.
pub proof fn lemma_stats_accounting(s: TransferStats)
    requires
        s.consistent(),
    ensures
        s.successful_transfers + s.failed_transfers == s.total_files,
        spec_sum(s.transfer_times_ms@) <= s.total_time_ms,
        s.transfer_times_ms@.len() == s.successful_transfers,
{
}

} // verus!
