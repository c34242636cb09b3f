//! Transfers as the download manager reports them, and the label that marks
//! those this system created.

use vstd::prelude::*;

use crate::text::same_text;

verus! {

/// The label put on every transfer that this system creates. Only transfers
/// that carry it are ever stopped or removed.
pub const BOT_LABEL: &'static str = "managed:transmission-rss";

/// Lifecycle status of a transfer in the download manager.
#[derive(Debug, Clone, Copy, PartialEq, Eq, Structural)]
pub enum TransferStatus {
    Stopped,
    QueuedToVerify,
    Verifying,
    QueuedToDownload,
    Downloading,
    QueuedToSeed,
    Seeding,
}

/// A transfer as the download manager reports it.
#[derive(Debug, Clone)]
pub struct TransferRecord {
    pub id: i64,
    pub hash: String,
    pub name: String,
    pub status: TransferStatus,
    pub labels: Vec<String>,
    pub file_count: u64,
}

/// Some label of `labels` reads `x`.
pub open spec fn label_in(labels: Seq<String>, x: Seq<char>) -> bool {
    exists|i: int| 0 <= i < labels.len() && #[trigger] labels[i]@ == x
}

/// The status of a transfer that has finished downloading and seeds, or waits to.
pub open spec fn is_seeding(s: TransferStatus) -> bool {
    s == TransferStatus::QueuedToSeed || s == TransferStatus::Seeding
}

/// A duplicate of this transfer is to be stopped: it seeds and carries `label`.
pub open spec fn stop_wanted(t: TransferRecord, label: Seq<char>) -> bool {
    is_seeding(t.status) && label_in(t.labels@, label)
}

/// Whether `labels` is present and holds a label that reads `x`.
pub fn has_label(labels: Option<&[String]>, x: &str) -> (r: bool)
    ensures
        r == match labels {
            Some(ls) => label_in(ls@, x@),
            None => false,
        },
{
    if labels.is_none() {
        return false;
    }
    let ls = labels.unwrap();
    let mut i: usize = 0;
    while i < ls.len()
        invariant
            labels == Some(ls),
            i <= ls@.len(),
            forall|k: int| 0 <= k < i ==> ls@[k]@ != x@,
        decreases ls@.len() - i,
    {
        if same_text(ls[i].as_str(), x) {
            assert(ls@[i as int]@ == x@);
            return true;
        }
        i = i + 1;
    }
    false
}

/// Whether a transfer that turned out to be a duplicate is to be stopped.
pub fn should_stop(t: &TransferRecord, label: &str) -> (r: bool)
    ensures
        r == stop_wanted(*t, label@),
{
    (t.status == TransferStatus::QueuedToSeed || t.status == TransferStatus::Seeding) && has_label(
        Some(t.labels.as_slice()),
        label,
    )
}

} // verus!
