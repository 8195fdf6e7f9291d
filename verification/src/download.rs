use vstd::prelude::*;

verus! {

/// How far a download of known size has come: the position shown on the
/// progress bar, which never passes the announced total.
pub struct DownloadProgress {
    pub position: u64,
    pub total: u64,
}

/// The position after chunks of the lengths `lens` arrived, starting at 0:
/// each chunk moves it by its length, capped at `total`.
pub open spec fn position_after(total: nat, lens: Seq<nat>) -> nat
    decreases lens.len(),
{
    if lens.len() == 0 {
        0
    } else {
        let before = position_after(total, lens.drop_last());
        if before + lens.last() < total {
            (before + lens.last()) as nat
        } else {
            total
        }
    }
}

/// The sum of the lengths in `lens`.
pub open spec fn total_length(lens: Seq<nat>) -> nat
    decreases lens.len(),
{
    if lens.len() == 0 {
        0
    } else {
        total_length(lens.drop_last()) + lens.last()
    }
}

/// The smaller of two numbers.
pub open spec fn min_nat(a: nat, b: nat) -> nat {
    if a < b {
        a
    } else {
        b
    }
}

/// Whatever chunks arrive, the progress bar shows the number of bytes
/// received, capped at the announced size.
pub proof fn lemma_position_is_capped_sum(total: nat, lens: Seq<nat>)
    ensures
        position_after(total, lens) == min_nat(total_length(lens), total),
    decreases lens.len(),
{
    if lens.len() > 0 {
        lemma_position_is_capped_sum(total, lens.drop_last());
    }
}

/// The position never goes back and never passes the total.
pub proof fn lemma_position_monotone(total: nat, lens: Seq<nat>, k: int)
    requires
        0 <= k <= lens.len(),
    ensures
        position_after(total, lens.subrange(0, k)) <= position_after(total, lens),
        position_after(total, lens) <= total,
{
    lemma_position_is_capped_sum(total, lens);
    lemma_position_is_capped_sum(total, lens.subrange(0, k));
    lemma_total_length_prefix(lens, k);
}

proof fn lemma_total_length_prefix(lens: Seq<nat>, k: int)
    requires
        0 <= k <= lens.len(),
    ensures
        total_length(lens.subrange(0, k)) <= total_length(lens),
    decreases lens.len(),
{
    if k < lens.len() {
        assert(lens.drop_last().subrange(0, k) =~= lens.subrange(0, k));
        lemma_total_length_prefix(lens.drop_last(), k);
    } else {
        assert(lens.subrange(0, k) =~= lens);
    }
}

impl DownloadProgress {
    /// The progress of a download of `total` bytes that has not started.
    pub fn new(total: u64) -> (p: DownloadProgress)
        ensures
            p.position == 0,
            p.total == total,
    {
        DownloadProgress { position: 0, total }
    }

    /// Records a chunk of `chunk_len` bytes and returns the new position:
    /// the old one moved by the chunk's length, but not past the total.
    pub fn advance(&mut self, chunk_len: usize) -> (new_position: u64)
        requires
            old(self).position + chunk_len <= u64::MAX,
        ensures
            new_position == min_nat((old(self).position + chunk_len) as nat, old(self).total as nat),
            final(self).position == new_position,
            final(self).total == old(self).total,
    {
        let moved = self.position + chunk_len as u64;
        let new_position = if moved < self.total {
            moved
        } else {
            self.total
        };
        self.position = new_position;
        new_position
    }
}

/// Why a download failed.
pub enum DownloadError {
    /// The request to the URL failed.
    Request(String),
    /// The file at the path, given as text, could not be created.
    CreateFile(String),
    /// A part of the body could not be received.
    Receive,
    /// A part of the body could not be written to the file.
    Write,
}

/// The message that reports `err`.
pub open spec fn download_error_message(err: DownloadError) -> Seq<char> {
    match err {
        DownloadError::Request(url) => "Failed to GET from '"@ + url@ + "'"@,
        DownloadError::CreateFile(path) => "Failed to create file '"@ + path@ + "'"@,
        DownloadError::Receive => "Error while downloading file"@,
        DownloadError::Write => "Error while writing to file"@,
    }
}

impl DownloadError {
    /// The message that reports this failure.
    pub fn message(&self) -> (m: String)
        ensures
            m@ == download_error_message(*self),
    {
        match self {
            DownloadError::Request(url) => {
                let mut m = String::from_str("Failed to GET from '");
                m.append(url.as_str());
                m.append("'");
                m
            },
            DownloadError::CreateFile(path) => {
                let mut m = String::from_str("Failed to create file '");
                m.append(path.as_str());
                m.append("'");
                m
            },
            DownloadError::Receive => String::from_str("Error while downloading file"),
            DownloadError::Write => String::from_str("Error while writing to file"),
        }
    }
}

} // verus!
