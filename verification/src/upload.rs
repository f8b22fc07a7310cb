//! The upload stage: which files of a listing are uploaded, and the tally.

use vstd::prelude::*;
use crate::stage::{StageError, StageResult};

verus! {

/// One direct child of the export directory.
#[derive(Clone, Debug)]
pub struct DirEntry {
    /// The entry's file name, absent where it is not valid text.
    pub name: Option<String>,
    /// Whether the entry is a regular file.
    pub is_file: bool,
}

/// What the attempt to upload one file came to.
#[derive(Clone, Copy, PartialEq, Eq, Structural, Debug)]
pub enum FileReport {
    /// The file could not be read.
    Unreadable,
    /// The request did not get a response.
    TransportFailed,
    /// The object store answered with this HTTP status.
    Responded { status: u16 },
}

/// A file is transferred exactly when the store answered in the 2xx range.
pub open spec fn transferred(report: FileReport) -> bool {
    match report {
        FileReport::Responded { status } => 200 <= status < 300,
        _ => false,
    }
}

impl FileReport {
    /// Tells whether the file was transferred.
    pub fn is_success(&self) -> (r: bool)
        ensures
            r == transferred(*self),
    {
        match self {
            FileReport::Responded { status } => 200 <= *status && *status < 300,
            _ => false,
        }
    }
}

/// The result of uploading one file: success where the store answered in the
/// 2xx range, a failure that names the file otherwise.
pub fn upload_result(filename: String, report: FileReport) -> (r: StageResult)
    ensures
        r == if transferred(report) {
            StageResult::Success { message: None }
        } else {
            StageResult::Failure { error: StageError::TransferFailure { filename, report } }
        },
{
    if report.is_success() {
        StageResult::Success { message: None }
    } else {
        StageResult::Failure { error: StageError::TransferFailure { filename, report } }
    }
}

/// The tally of an upload stage.
#[derive(Clone, Debug)]
pub struct UploadSummary {
    /// Files that were transferred.
    pub uploaded: u64,
    /// Files that were not.
    pub failed: u64,
    /// The prefix under which the files are stored.
    pub prefix: String,
}

/// Whether an entry can be uploaded: a regular file whose name is valid text.
pub open spec fn usable(entry: DirEntry) -> bool {
    entry.is_file && entry.name.is_some()
}

/// The index of the first entry at or after `from` that can be uploaded, the
/// number of entries where there is none.
pub open spec fn next_upload(entries: Seq<DirEntry>, from: int) -> int
    decreases entries.len() - from,
{
    if from >= entries.len() {
        entries.len() as int
    } else if from >= 0 && usable(entries[from]) {
        from
    } else {
        next_upload(entries, from + 1)
    }
}

/// The number of regular files among the first `k` entries.
pub open spec fn files_before(entries: Seq<DirEntry>, k: int) -> nat
    decreases k,
{
    if k <= 0 {
        0
    } else {
        files_before(entries, k - 1) + if entries[k - 1].is_file {
            1nat
        } else {
            0nat
        }
    }
}

/// The number of regular files that the search from `from` passes over: those
/// whose name is not valid text. Each counts as a failed file.
pub open spec fn skipped_files(entries: Seq<DirEntry>, from: int) -> int {
    files_before(entries, next_upload(entries, from)) - files_before(entries, from)
}

/// There are at most `k` regular files among the first `k` entries.
pub proof fn lemma_files_before_bound(entries: Seq<DirEntry>, k: int)
    requires
        0 <= k,
    ensures
        files_before(entries, k) <= k,
    decreases k,
{
    if k > 0 {
        lemma_files_before_bound(entries, k - 1);
    }
}

/// The search ends at or after its start and within the listing, on an entry
/// that can be uploaded where it ends before the listing does, and it passes
/// over no entry that can be uploaded.
pub proof fn lemma_next_upload(entries: Seq<DirEntry>, from: int)
    requires
        0 <= from <= entries.len(),
    ensures
        from <= next_upload(entries, from) <= entries.len(),
        next_upload(entries, from) < entries.len() ==> usable(
            entries[next_upload(entries, from)],
        ),
        forall|i: int| from <= i < next_upload(entries, from) ==> !usable(entries[i]),
        0 <= skipped_files(entries, from) <= next_upload(entries, from) - from,
    decreases entries.len() - from,
{
    if from < entries.len() && !usable(entries[from]) {
        lemma_next_upload(entries, from + 1);
        assert(files_before(entries, from + 1) == files_before(entries, from) + if entries[from].is_file {
            1nat
        } else {
            0nat
        });
    }
}

/// The number of entries at or after `from` that can be uploaded.
pub open spec fn usable_from(entries: Seq<DirEntry>, from: int) -> nat
    decreases entries.len() - from,
{
    if from >= entries.len() {
        0
    } else {
        usable_from(entries, from + 1) + if from >= 0 && usable(entries[from]) {
            1nat
        } else {
            0nat
        }
    }
}

/// The search passes over nothing that can be uploaded: as many such entries
/// stand at or after where it ends as at or after where it starts.
pub proof fn lemma_usable_from_next(entries: Seq<DirEntry>, from: int)
    requires
        0 <= from <= entries.len(),
    ensures
        usable_from(entries, next_upload(entries, from)) == usable_from(entries, from),
    decreases entries.len() - from,
{
    if from < entries.len() && !usable(entries[from]) {
        lemma_usable_from_next(entries, from + 1);
    }
}

/// How many of the reports tell of a transferred file.
pub open spec fn transferred_count(reports: Seq<FileReport>) -> nat
    decreases reports.len(),
{
    if reports.len() == 0 {
        0
    } else {
        transferred_count(reports.drop_first()) + if transferred(reports[0]) {
            1nat
        } else {
            0nat
        }
    }
}

/// Counts the regular files among the first `k` entries.
pub fn count_files(entries: &Vec<DirEntry>, k: usize) -> (r: usize)
    requires
        k <= entries@.len(),
    ensures
        r == files_before(entries@, k as int),
{
    let mut i: usize = 0;
    let mut count: usize = 0;
    while i < k
        invariant
            i <= k <= entries@.len(),
            count == files_before(entries@, i as int),
            count <= i,
        decreases k - i,
    {
        if entries[i].is_file {
            count += 1;
        }
        i += 1;
    }
    count
}

/// Where the search for the next file to upload ended.
#[derive(Clone, Copy, PartialEq, Eq, Structural, Debug)]
pub struct Scan {
    /// The index of the next file to upload, if one is left.
    pub next: Option<usize>,
    /// The number of regular files passed over because their name is not valid text.
    pub skipped: u64,
}

/// Finds the next file to upload at or after `from`, and counts the regular
/// files without a valid name on the way.
pub fn scan(entries: &Vec<DirEntry>, from: usize) -> (r: Scan)
    requires
        from <= entries@.len(),
    ensures
        r.next == if next_upload(entries@, from as int) < entries@.len() {
            Some(next_upload(entries@, from as int) as usize)
        } else {
            None
        },
        r.skipped == skipped_files(entries@, from as int),
{
    let count: usize = entries.len();
    let mut i: usize = from;
    let mut skipped: u64 = 0;
    while i < count
        invariant
            count == entries@.len(),
            from <= i <= count,
            next_upload(entries@, i as int) == next_upload(entries@, from as int),
            skipped + files_before(entries@, from as int) == files_before(entries@, i as int),
        decreases count - i,
    {
        proof {
            lemma_files_before_bound(entries@, i as int);
        }
        if entries[i].is_file {
            if entries[i].name.is_some() {
                return Scan { next: Some(i), skipped };
            }
            skipped += 1;
        }
        i += 1;
    }
    Scan { next: None, skipped }
}

} // verus!
