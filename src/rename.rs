//! Renaming a new transfer's single file to its canonical name, retried a
//! bounded number of times because the manager fills in a transfer's files
//! some time after creating it.
//!
//! Each attempt waits, polls the transfer, and when it holds exactly one
//! file asks for the canonical name of that file and then for the rename.
//! The caller performs each `RenameAction` and hands the answer back as a
//! `RenameEvent`.

use vstd::prelude::*;

use crate::transfer::TransferRecord;

verus! {

/// How many attempts are made before the rename is given up.
pub const MAX_RENAME_ATTEMPTS: u32 = 16;

/// How long to wait before each attempt, in seconds.
pub const RENAME_RETRY_SECS: u64 = 1;

/// Where a rename stands.
#[derive(Debug)]
pub enum RenamePhase {
    Polling,
    Deriving { old_name: String },
    Renaming { old_name: String, new_name: String },
    Finished,
}

/// An answer handed to the retrier.
#[derive(Debug)]
pub enum RenameEvent {
    /// The transfer as polled; `None` when the manager has no record of it
    /// or the poll did not get through.
    Polled(Option<TransferRecord>),
    /// The canonical name for the file, or `None` when there is none.
    Derived(Option<String>),
    /// Whether the manager reported the rename as done.
    Renamed(bool),
}

/// What the caller is to do next.
#[derive(Debug)]
pub enum RenameAction {
    /// Wait `RENAME_RETRY_SECS` seconds, then poll the transfer.
    WaitAndPoll,
    /// Derive the canonical name of the file `name` in `directory`, counting
    /// episodes from `starts_episode_at`.
    Derive { name: String, directory: String, starts_episode_at: isize },
    /// Ask the manager to rename `old_name` to `new_name` in the transfer `hash`.
    Rename { hash: String, old_name: String, new_name: String },
    /// The retrier is over: the new name, or `None` when it gave up.
    Done(Option<String>),
    /// The event does not answer a pending request; nothing to do.
    Ignore,
}

/// The rename of one transfer.
#[derive(Debug)]
pub struct Renamer {
    pub hash: String,
    pub directory: String,
    pub starts_episode_at: isize,
    /// Attempts begun so far.
    pub attempts: u32,
    pub phase: RenamePhase,
}

impl Renamer {
    /// The attempt count lies within its bound.
    pub open spec fn wf(&self) -> bool {
        1 <= self.attempts <= MAX_RENAME_ATTEMPTS
    }
}

/// After a failed attempt: another one, or the end when none is left.
pub open spec fn retry(r: Renamer) -> (Renamer, RenameAction) {
    if r.attempts >= MAX_RENAME_ATTEMPTS {
        (Renamer { phase: RenamePhase::Finished, ..r }, RenameAction::Done(None))
    } else {
        (
            Renamer { phase: RenamePhase::Polling, attempts: (r.attempts + 1) as u32, ..r },
            RenameAction::WaitAndPoll,
        )
    }
}

/// The retrier that follows `r` on event `e`, and the action it asks for.
pub open spec fn rename_next(r: Renamer, e: RenameEvent) -> (Renamer, RenameAction) {
    match r.phase {
        RenamePhase::Polling => match e {
            RenameEvent::Polled(Some(t)) => if t.file_count == 1 {
                (
                    Renamer { phase: RenamePhase::Deriving { old_name: t.name }, ..r },
                    RenameAction::Derive {
                        name: t.name,
                        directory: r.directory,
                        starts_episode_at: r.starts_episode_at,
                    },
                )
            } else {
                retry(r)
            },
            RenameEvent::Polled(None) => retry(r),
            _ => (r, RenameAction::Ignore),
        },
        RenamePhase::Deriving { old_name } => match e {
            RenameEvent::Derived(Some(new_name)) => (
                Renamer { phase: RenamePhase::Renaming { old_name, new_name }, ..r },
                RenameAction::Rename { hash: r.hash, old_name, new_name },
            ),
            RenameEvent::Derived(None) => retry(r),
            _ => (r, RenameAction::Ignore),
        },
        RenamePhase::Renaming { old_name, new_name } => match e {
            RenameEvent::Renamed(true) => (
                Renamer { phase: RenamePhase::Finished, ..r },
                RenameAction::Done(Some(new_name)),
            ),
            RenameEvent::Renamed(false) => retry(r),
            _ => (r, RenameAction::Ignore),
        },
        RenamePhase::Finished => (r, RenameAction::Ignore),
    }
}

impl Renamer {
    /// Starts renaming the transfer `hash`, whose file goes to `directory`:
    /// the first action waits and polls, and is the first attempt.
    pub fn start(hash: String, directory: String, starts_episode_at: isize) -> (r: (
        Renamer,
        RenameAction,
    ))
        ensures
            r.0.wf(),
            r.0 == (Renamer {
                hash,
                directory,
                starts_episode_at,
                attempts: 1,
                phase: RenamePhase::Polling,
            }),
            r.1 == RenameAction::WaitAndPoll,
    {
        (
            Renamer { hash, directory, starts_episode_at, attempts: 1, phase: RenamePhase::Polling },
            RenameAction::WaitAndPoll,
        )
    }

    fn retry_now(&mut self) -> (a: RenameAction)
        requires
            old(self).wf(),
        ensures
            (*final(self), a) == retry(*old(self)),
    {
        if self.attempts >= MAX_RENAME_ATTEMPTS {
            self.phase = RenamePhase::Finished;
            RenameAction::Done(None)
        } else {
            self.phase = RenamePhase::Polling;
            self.attempts = self.attempts + 1;
            RenameAction::WaitAndPoll
        }
    }

    /// Takes an answer and says what to do next.
    pub fn step(&mut self, event: RenameEvent) -> (a: RenameAction)
        requires
            old(self).wf(),
        ensures
            final(self).wf(),
            (*final(self), a) == rename_next(*old(self), event),
    {
        let mut phase = RenamePhase::Finished;
        std::mem::swap(&mut phase, &mut self.phase);
        match phase {
            RenamePhase::Polling => match event {
                RenameEvent::Polled(Some(t)) => {
                    if t.file_count == 1 {
                        let name = t.name.clone();
                        self.phase = RenamePhase::Deriving { old_name: t.name };
                        RenameAction::Derive {
                            name,
                            directory: self.directory.clone(),
                            starts_episode_at: self.starts_episode_at,
                        }
                    } else {
                        self.retry_now()
                    }
                },
                RenameEvent::Polled(None) => self.retry_now(),
                _ => {
                    self.phase = RenamePhase::Polling;
                    RenameAction::Ignore
                },
            },
            RenamePhase::Deriving { old_name } => match event {
                RenameEvent::Derived(Some(new_name)) => {
                    let action = RenameAction::Rename {
                        hash: self.hash.clone(),
                        old_name: old_name.clone(),
                        new_name: new_name.clone(),
                    };
                    self.phase = RenamePhase::Renaming { old_name, new_name };
                    action
                },
                RenameEvent::Derived(None) => self.retry_now(),
                _ => {
                    self.phase = RenamePhase::Deriving { old_name };
                    RenameAction::Ignore
                },
            },
            RenamePhase::Renaming { old_name, new_name } => match event {
                RenameEvent::Renamed(true) => {
                    self.phase = RenamePhase::Finished;
                    RenameAction::Done(Some(new_name))
                },
                RenameEvent::Renamed(false) => self.retry_now(),
                _ => {
                    self.phase = RenamePhase::Renaming { old_name, new_name };
                    RenameAction::Ignore
                },
            },
            RenamePhase::Finished => RenameAction::Ignore,
        }
    }
}

/// The actions that the retrier `r` asks for, one for each of the events
/// `es` in turn.
pub open spec fn rename_run(r: Renamer, es: Seq<RenameEvent>) -> Seq<RenameAction>
    decreases es.len(),
{
    if es.len() == 0 {
        Seq::empty()
    } else {
        let (q, a) = rename_next(r, es[0]);
        seq![a] + rename_run(q, es.drop_first())
    }
}

/// No poll among `es` finds the transfer holding exactly one file.
pub open spec fn never_single_file(es: Seq<RenameEvent>) -> bool {
    forall|i: int|
        0 <= i < es.len() ==> match #[trigger] es[i] {
            RenameEvent::Polled(Some(t)) => t.file_count != 1,
            _ => true,
        }
}

/// Every event of `es` answers a poll.
pub open spec fn only_polls(es: Seq<RenameEvent>) -> bool {
    forall|i: int| 0 <= i < es.len() ==> #[trigger] es[i] is Polled
}

/// The action that answers the poll of attempt `n` when no poll finds a
/// single file: another attempt while the ceiling allows, then the end.
pub open spec fn answer_to_poll(n: int) -> RenameAction {
    if n < MAX_RENAME_ATTEMPTS {
        RenameAction::WaitAndPoll
    } else if n == MAX_RENAME_ATTEMPTS {
        RenameAction::Done(None)
    } else {
        RenameAction::Ignore
    }
}

proof fn lemma_run_step(r: Renamer, es: Seq<RenameEvent>)
    requires
        es.len() > 0,
    ensures
        rename_run(r, es)[0] == rename_next(r, es[0]).1,
        forall|k: int|
            1 <= k < es.len() ==> #[trigger] rename_run(r, es)[k] == rename_run(
                rename_next(r, es[0]).0,
                es.drop_first(),
            )[k - 1],
        rename_run(r, es).len() == es.len(),
    decreases es.len(),
{
    lemma_run_len(rename_next(r, es[0]).0, es.drop_first());
}

proof fn lemma_run_len(r: Renamer, es: Seq<RenameEvent>)
    ensures
        rename_run(r, es).len() == es.len(),
    decreases es.len(),
{
    if es.len() > 0 {
        lemma_run_len(rename_next(r, es[0]).0, es.drop_first());
    }
}

proof fn lemma_finished_ignores(r: Renamer, es: Seq<RenameEvent>)
    requires
        r.phase is Finished,
    ensures
        forall|k: int| 0 <= k < es.len() ==> #[trigger] rename_run(r, es)[k] is Ignore,
    decreases es.len(),
{
    if es.len() > 0 {
        lemma_run_step(r, es);
        lemma_finished_ignores(rename_next(r, es[0]).0, es.drop_first());
    }
}

/// While no poll finds the transfer holding exactly one file, no rename is
/// ever asked for, whatever else the answers say and whatever the episode
/// offset.
pub proof fn lemma_no_rename_without_single_file(r: Renamer, es: Seq<RenameEvent>)
    requires
        r.wf(),
        r.phase is Polling || r.phase is Finished,
        never_single_file(es),
    ensures
        forall|k: int| 0 <= k < es.len() ==> !(#[trigger] rename_run(r, es)[k] is Rename),
    decreases es.len(),
{
    if es.len() > 0 {
        let q = rename_next(r, es[0]).0;
        lemma_run_step(r, es);
        assert(never_single_file(es.drop_first())) by {
            assert forall|i: int| 0 <= i < es.drop_first().len() implies match #[trigger] es.drop_first()[i] {
                RenameEvent::Polled(Some(t)) => t.file_count != 1,
                _ => true,
            } by {
                assert(es.drop_first()[i] == es[i + 1]);
            }
        }
        assert(match es[0] {
            RenameEvent::Polled(Some(t)) => t.file_count != 1,
            _ => true,
        });
        lemma_no_rename_without_single_file(q, es.drop_first());
    }
}

/// A retrier on attempt `r.attempts` whose polls never find a single file
/// answers each poll with another attempt until `MAX_RENAME_ATTEMPTS`
/// attempts have been made, then gives up without a name, and asks for
/// nothing after that. Started afresh (one attempt begun), it waits and
/// polls `MAX_RENAME_ATTEMPTS` times in all, never asking for a rename.
pub proof fn lemma_gives_up_at_ceiling(r: Renamer, es: Seq<RenameEvent>)
    requires
        r.wf(),
        r.phase is Polling,
        only_polls(es),
        never_single_file(es),
    ensures
        forall|k: int|
            0 <= k < es.len() ==> #[trigger] rename_run(r, es)[k] == answer_to_poll(
                r.attempts + k,
            ),
    decreases es.len(),
{
    if es.len() > 0 {
        let q = rename_next(r, es[0]).0;
        lemma_run_step(r, es);
        assert(es[0] is Polled);
        assert(match es[0] {
            RenameEvent::Polled(Some(t)) => t.file_count != 1,
            _ => true,
        });
        assert(only_polls(es.drop_first()) && never_single_file(es.drop_first())) by {
            assert forall|i: int| 0 <= i < es.drop_first().len() implies #[trigger] es.drop_first()[i]
                == es[i + 1] by {}
        }
        if r.attempts >= MAX_RENAME_ATTEMPTS {
            lemma_finished_ignores(q, es.drop_first());
        } else {
            lemma_gives_up_at_ceiling(q, es.drop_first());
        }
    }
}

} // verus!
