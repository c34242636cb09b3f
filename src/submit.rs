//! Submitting a link to the download manager, as a machine that decides each
//! request from the answer to the one before.
//!
//! The caller performs each `SubmitAction` and hands the answer back as a
//! `SubmitEvent`. One submission makes one creation request, at most one
//! record fetch after it, and at most one stop request.

use vstd::prelude::*;

use crate::transfer::{should_stop, stop_wanted, TransferRecord};

verus! {

/// The manager's answer to a creation request.
#[derive(Debug)]
pub enum AddReply {
    /// A new transfer was made for the link.
    Added { hash: String },
    /// A transfer with the same content already existed.
    Duplicate { hash: String },
    /// The manager refused, with this message.
    Rejected { message: String },
    /// The request did not get through.
    Unreachable { message: String },
}

/// Why a submission failed.
#[derive(Debug)]
pub enum FailReason {
    /// The manager refused the transfer, with this message.
    Rejected(String),
    /// A request did not get through, with the transport's message.
    Unreachable(String),
    /// The manager had no record of the transfer it had just reported.
    Missing,
}

/// The result of one submission.
#[derive(Debug)]
pub enum SubmissionOutcome {
    /// A new transfer, as the manager now reports it.
    Added(TransferRecord),
    /// A transfer for this content already existed; it is as the manager reports it.
    DuplicateHandled(TransferRecord),
    Failed(FailReason),
}

/// Where a submission stands.
#[derive(Debug)]
pub enum SubmitPhase {
    AwaitingAdd,
    AwaitingRecord { duplicate: bool },
    AwaitingStop { record: TransferRecord },
    Done,
}

/// An answer from the download manager, handed to the submission.
#[derive(Debug)]
pub enum SubmitEvent {
    AddReplied(AddReply),
    /// The record fetched by hash; `None` when the manager has none.
    RecordFetched(Option<TransferRecord>),
    /// The fetch did not get through, with the transport's message.
    RecordUnreachable(String),
    /// The stop request was answered. Stopping is best-effort: whether it
    /// worked does not change the outcome.
    StopReplied,
}

/// What the caller is to do next.
#[derive(Debug)]
pub enum SubmitAction {
    /// Ask the manager to create a transfer for `link` in `directory`,
    /// labelled `label`, not paused.
    Add { link: String, directory: String, label: String },
    /// Fetch the full record of the transfer with this hash.
    FetchRecord { hash: String },
    /// Ask the manager to stop the transfer with this hash.
    Stop { hash: String },
    /// The submission is over, with this outcome.
    Finish(SubmissionOutcome),
    /// The event does not answer a pending request; nothing to do.
    Ignore,
}

/// One link being submitted.
#[derive(Debug)]
pub struct Submission {
    pub link: String,
    pub directory: String,
    pub label: String,
    pub phase: SubmitPhase,
}

/// The phase that follows `p` on event `e`, and the action it asks for.
pub open spec fn submit_next(p: SubmitPhase, e: SubmitEvent, label: Seq<char>) -> (
    SubmitPhase,
    SubmitAction,
) {
    match p {
        SubmitPhase::AwaitingAdd => match e {
            SubmitEvent::AddReplied(AddReply::Added { hash }) => (
                SubmitPhase::AwaitingRecord { duplicate: false },
                SubmitAction::FetchRecord { hash },
            ),
            SubmitEvent::AddReplied(AddReply::Duplicate { hash }) => (
                SubmitPhase::AwaitingRecord { duplicate: true },
                SubmitAction::FetchRecord { hash },
            ),
            SubmitEvent::AddReplied(AddReply::Rejected { message }) => (
                SubmitPhase::Done,
                SubmitAction::Finish(SubmissionOutcome::Failed(FailReason::Rejected(message))),
            ),
            SubmitEvent::AddReplied(AddReply::Unreachable { message }) => (
                SubmitPhase::Done,
                SubmitAction::Finish(SubmissionOutcome::Failed(FailReason::Unreachable(message))),
            ),
            _ => (p, SubmitAction::Ignore),
        },
        SubmitPhase::AwaitingRecord { duplicate } => match e {
            SubmitEvent::RecordFetched(Some(t)) => if !duplicate {
                (SubmitPhase::Done, SubmitAction::Finish(SubmissionOutcome::Added(t)))
            } else if stop_wanted(t, label) {
                (SubmitPhase::AwaitingStop { record: t }, SubmitAction::Stop { hash: t.hash })
            } else {
                (SubmitPhase::Done, SubmitAction::Finish(SubmissionOutcome::DuplicateHandled(t)))
            },
            SubmitEvent::RecordFetched(None) => (
                SubmitPhase::Done,
                SubmitAction::Finish(SubmissionOutcome::Failed(FailReason::Missing)),
            ),
            SubmitEvent::RecordUnreachable(message) => (
                SubmitPhase::Done,
                SubmitAction::Finish(SubmissionOutcome::Failed(FailReason::Unreachable(message))),
            ),
            _ => (p, SubmitAction::Ignore),
        },
        SubmitPhase::AwaitingStop { record } => match e {
            SubmitEvent::StopReplied => (
                SubmitPhase::Done,
                SubmitAction::Finish(SubmissionOutcome::DuplicateHandled(record)),
            ),
            _ => (p, SubmitAction::Ignore),
        },
        SubmitPhase::Done => (p, SubmitAction::Ignore),
    }
}

impl Submission {
    /// Starts the submission of `link` into `directory` under `label`: the
    /// first action is the creation request.
    pub fn start(link: String, directory: String, label: String) -> (r: (Submission, SubmitAction))
        ensures
            r.0.link == link,
            r.0.directory == directory,
            r.0.label == label,
            r.0.phase == SubmitPhase::AwaitingAdd,
            r.1 == (SubmitAction::Add { link, directory, label }),
    {
        let action = SubmitAction::Add {
            link: link.clone(),
            directory: directory.clone(),
            label: label.clone(),
        };
        (Submission { link, directory, label, phase: SubmitPhase::AwaitingAdd }, action)
    }

    /// Takes the manager's answer and says what to do next.
    pub fn step(&mut self, event: SubmitEvent) -> (a: SubmitAction)
        ensures
            final(self).link == old(self).link,
            final(self).directory == old(self).directory,
            final(self).label == old(self).label,
            (final(self).phase, a) == submit_next(old(self).phase, event, old(self).label@),
    {
        let mut phase = SubmitPhase::Done;
        std::mem::swap(&mut phase, &mut self.phase);
        let (next, action) = match phase {
            SubmitPhase::AwaitingAdd => match event {
                SubmitEvent::AddReplied(AddReply::Added { hash }) => (
                    SubmitPhase::AwaitingRecord { duplicate: false },
                    SubmitAction::FetchRecord { hash },
                ),
                SubmitEvent::AddReplied(AddReply::Duplicate { hash }) => (
                    SubmitPhase::AwaitingRecord { duplicate: true },
                    SubmitAction::FetchRecord { hash },
                ),
                SubmitEvent::AddReplied(AddReply::Rejected { message }) => (
                    SubmitPhase::Done,
                    SubmitAction::Finish(SubmissionOutcome::Failed(FailReason::Rejected(message))),
                ),
                SubmitEvent::AddReplied(AddReply::Unreachable { message }) => (
                    SubmitPhase::Done,
                    SubmitAction::Finish(
                        SubmissionOutcome::Failed(FailReason::Unreachable(message)),
                    ),
                ),
                _ => (SubmitPhase::AwaitingAdd, SubmitAction::Ignore),
            },
            SubmitPhase::AwaitingRecord { duplicate } => match event {
                SubmitEvent::RecordFetched(Some(t)) => {
                    if !duplicate {
                        (SubmitPhase::Done, SubmitAction::Finish(SubmissionOutcome::Added(t)))
                    } else if should_stop(&t, self.label.as_str()) {
                        let hash = t.hash.clone();
                        (SubmitPhase::AwaitingStop { record: t }, SubmitAction::Stop { hash })
                    } else {
                        (
                            SubmitPhase::Done,
                            SubmitAction::Finish(SubmissionOutcome::DuplicateHandled(t)),
                        )
                    }
                },
                SubmitEvent::RecordFetched(None) => (
                    SubmitPhase::Done,
                    SubmitAction::Finish(SubmissionOutcome::Failed(FailReason::Missing)),
                ),
                SubmitEvent::RecordUnreachable(message) => (
                    SubmitPhase::Done,
                    SubmitAction::Finish(
                        SubmissionOutcome::Failed(FailReason::Unreachable(message)),
                    ),
                ),
                _ => (SubmitPhase::AwaitingRecord { duplicate }, SubmitAction::Ignore),
            },
            SubmitPhase::AwaitingStop { record } => match event {
                SubmitEvent::StopReplied => (
                    SubmitPhase::Done,
                    SubmitAction::Finish(SubmissionOutcome::DuplicateHandled(record)),
                ),
                _ => (SubmitPhase::AwaitingStop { record }, SubmitAction::Ignore),
            },
            SubmitPhase::Done => (SubmitPhase::Done, SubmitAction::Ignore),
        };
        self.phase = next;
        action
    }
}

impl SubmissionOutcome {
    /// The hash of the transfer that the submission resolved to, if it did.
    pub open spec fn resolved(&self) -> Option<Seq<char>> {
        match self {
            SubmissionOutcome::Added(t) => Some(t.hash@),
            SubmissionOutcome::DuplicateHandled(t) => Some(t.hash@),
            SubmissionOutcome::Failed(_) => None,
        }
    }

    /// The hash of the transfer that the submission resolved to: the entry
    /// is live, and its transfer is to be renamed. `None` after a failure.
    pub fn resolved_hash(&self) -> (r: Option<String>)
        ensures
            match r {
                Some(h) => self.resolved() == Some(h@),
                None => self.resolved() is None,
            },
    {
        match self {
            SubmissionOutcome::Added(t) => Some(t.hash.clone()),
            SubmissionOutcome::DuplicateHandled(t) => Some(t.hash.clone()),
            SubmissionOutcome::Failed(_) => None,
        }
    }
}

/// The actions that a submission in phase `p` asks for, one for each of the
/// events `es` in turn.
pub open spec fn submit_run(p: SubmitPhase, es: Seq<SubmitEvent>, label: Seq<char>) -> Seq<
    SubmitAction,
>
    decreases es.len(),
{
    if es.len() == 0 {
        Seq::empty()
    } else {
        let (q, a) = submit_next(p, es[0], label);
        seq![a] + submit_run(q, es.drop_first(), label)
    }
}

/// How many stop requests there are among `acts`.
pub open spec fn stop_count(acts: Seq<SubmitAction>) -> nat
    decreases acts.len(),
{
    if acts.len() == 0 {
        0
    } else {
        (if acts[0] is Stop {
            1nat
        } else {
            0nat
        }) + stop_count(acts.drop_first())
    }
}

proof fn lemma_done_stops_nothing(es: Seq<SubmitEvent>, label: Seq<char>)
    ensures
        stop_count(submit_run(SubmitPhase::Done, es, label)) == 0,
    decreases es.len(),
{
    if es.len() > 0 {
        let acts = submit_run(SubmitPhase::Done, es, label);
        lemma_done_stops_nothing(es.drop_first(), label);
        assert(acts.drop_first() =~= submit_run(SubmitPhase::Done, es.drop_first(), label));
    }
}

proof fn lemma_stopping_stops_nothing(t: TransferRecord, es: Seq<SubmitEvent>, label: Seq<char>)
    ensures
        stop_count(submit_run(SubmitPhase::AwaitingStop { record: t }, es, label)) == 0,
    decreases es.len(),
{
    if es.len() > 0 {
        let p = SubmitPhase::AwaitingStop { record: t };
        let acts = submit_run(p, es, label);
        let (q, a) = submit_next(p, es[0], label);
        if q is Done {
            lemma_done_stops_nothing(es.drop_first(), label);
        } else {
            lemma_stopping_stops_nothing(t, es.drop_first(), label);
        }
        assert(acts.drop_first() =~= submit_run(q, es.drop_first(), label));
    }
}

/// When the record of a duplicate arrives, the transfer is stopped exactly
/// once if it seeds and carries the label, and never otherwise, whatever
/// answers follow; the one stop names the transfer's hash.
pub proof fn lemma_duplicate_stopped_once(
    t: TransferRecord,
    later: Seq<SubmitEvent>,
    label: Seq<char>,
)
    ensures
        ({
            let acts = submit_run(
                SubmitPhase::AwaitingRecord { duplicate: true },
                seq![SubmitEvent::RecordFetched(Some(t))] + later,
                label,
            );
            &&& stop_count(acts) == if stop_wanted(t, label) {
                1nat
            } else {
                0nat
            }
            &&& stop_wanted(t, label) ==> acts[0] == (SubmitAction::Stop { hash: t.hash })
        }),
{
    let es = seq![SubmitEvent::RecordFetched(Some(t))] + later;
    let p = SubmitPhase::AwaitingRecord { duplicate: true };
    let acts = submit_run(p, es, label);
    assert(es[0] == SubmitEvent::RecordFetched(Some(t)));
    assert(es.drop_first() =~= later);
    let (q, a) = submit_next(p, es[0], label);
    assert(acts.drop_first() =~= submit_run(q, later, label));
    if stop_wanted(t, label) {
        lemma_stopping_stops_nothing(t, later, label);
    } else {
        lemma_done_stops_nothing(later, label);
    }
}

} // verus!
