use transmission_rss::matcher::{collect_matches, FeedEntry, ParsedChannel};
use transmission_rss::config::ChannelConfig;
use transmission_rss::reap::{hashes_at, live_hashes, reap};
use transmission_rss::rename::{RenameAction, RenameEvent, Renamer, MAX_RENAME_ATTEMPTS};
use transmission_rss::rule::Rule;
use transmission_rss::submit::{
    AddReply, FailReason, Submission, SubmissionOutcome, SubmitAction, SubmitEvent,
};
use transmission_rss::transfer::{has_label, should_stop, TransferRecord, TransferStatus, BOT_LABEL};

fn record(id: i64, hash: &str, status: TransferStatus, labels: &[&str], file_count: u64) -> TransferRecord {
    TransferRecord {
        id,
        hash: hash.to_string(),
        name: format!("file-{hash}.mkv"),
        status,
        labels: labels.iter().map(|l| l.to_string()).collect(),
        file_count,
    }
}

/// A download manager held in memory: it detects duplicates by hash, and
/// counts what it was asked to do.
struct Manager {
    transfers: Vec<TransferRecord>,
    creations: usize,
    stops: Vec<String>,
    renames: usize,
}

impl Manager {
    fn new(transfers: Vec<TransferRecord>) -> Manager {
        Manager { transfers, creations: 0, stops: Vec::new(), renames: 0 }
    }

    fn hash_of(link: &str) -> String {
        link.rsplit(':').next().unwrap_or_default().trim_start_matches('.').to_string()
    }

    fn add(&mut self, link: &str, label: &str) -> AddReply {
        let hash = Manager::hash_of(link);
        if self.transfers.iter().any(|t| t.hash == hash) {
            return AddReply::Duplicate { hash };
        }
        self.creations += 1;
        let id = self.transfers.len() as i64 + 1;
        self.transfers.push(record(id, &hash, TransferStatus::Downloading, &[label], 1));
        AddReply::Added { hash }
    }

    fn get(&self, hash: &str) -> Option<TransferRecord> {
        self.transfers.iter().find(|t| t.hash == hash).cloned()
    }

    fn submit(&mut self, link: &str, directory: &str, label: &str) -> SubmissionOutcome {
        let (mut s, mut action) =
            Submission::start(link.to_string(), directory.to_string(), label.to_string());
        loop {
            let event = match action {
                SubmitAction::Add { link, label, .. } => SubmitEvent::AddReplied(self.add(&link, &label)),
                SubmitAction::FetchRecord { hash } => SubmitEvent::RecordFetched(self.get(&hash)),
                SubmitAction::Stop { hash } => {
                    self.stops.push(hash);
                    SubmitEvent::StopReplied
                }
                SubmitAction::Finish(outcome) => return outcome,
                SubmitAction::Ignore => panic!("submission ignored an answer"),
            };
            action = s.step(event);
        }
    }
}

fn drive_submission(events: Vec<SubmitEvent>, label: &str) -> Vec<SubmitAction> {
    let (mut s, first) = Submission::start("magnet:?h".to_string(), "/d".to_string(), label.to_string());
    let mut out = vec![first];
    for e in events {
        out.push(s.step(e));
    }
    out
}

#[test]
fn submission_starts_with_labelled_add() {
    let (_, action) = Submission::start("magnet:?X".to_string(), "/tv/Show".to_string(), BOT_LABEL.to_string());
    match action {
        SubmitAction::Add { link, directory, label } => {
            assert_eq!(link, "magnet:?X");
            assert_eq!(directory, "/tv/Show");
            assert_eq!(label, "managed:transmission-rss");
        }
        _ => panic!("expected a creation request"),
    }
}

#[test]
fn idempotent_submission() {
    let mut manager = Manager::new(Vec::new());
    let first = manager.submit("magnet:?xt=urn:btih:ABC", "/tv", BOT_LABEL);
    let second = manager.submit("magnet:?xt=urn:btih:ABC", "/tv", BOT_LABEL);
    match (&first, &second) {
        (SubmissionOutcome::Added(a), SubmissionOutcome::DuplicateHandled(b)) => {
            assert_eq!(a.hash, "ABC");
            assert_eq!(b.hash, "ABC");
        }
        _ => panic!("expected Added then DuplicateHandled"),
    }
    assert_eq!(manager.creations, 1);
    assert_eq!(manager.transfers.len(), 1);
    assert!(manager.stops.is_empty());
}

#[test]
fn seeding_labelled_duplicate_is_stopped_once() {
    let seeding = record(7, "S", TransferStatus::Seeding, &["other", BOT_LABEL], 1);
    let mut manager = Manager::new(vec![seeding]);
    let outcome = manager.submit("magnet:?xt=urn:btih:S", "/tv", BOT_LABEL);
    assert!(matches!(outcome, SubmissionOutcome::DuplicateHandled(ref t) if t.hash == "S"));
    assert_eq!(manager.stops, vec!["S".to_string()]);
}

#[test]
fn queued_to_seed_labelled_duplicate_is_stopped() {
    let queued = record(7, "Q", TransferStatus::QueuedToSeed, &[BOT_LABEL], 1);
    let mut manager = Manager::new(vec![queued]);
    manager.submit("magnet:?xt=urn:btih:Q", "/tv", BOT_LABEL);
    assert_eq!(manager.stops, vec!["Q".to_string()]);
}

#[test]
fn unlabelled_duplicate_is_left_alone() {
    let foreign = record(3, "F", TransferStatus::Seeding, &["mine"], 1);
    let mut manager = Manager::new(vec![foreign]);
    let outcome = manager.submit("magnet:?xt=urn:btih:F", "/tv", BOT_LABEL);
    assert!(matches!(outcome, SubmissionOutcome::DuplicateHandled(ref t) if t.hash == "F"));
    assert!(manager.stops.is_empty());
}

#[test]
fn downloading_duplicate_is_left_alone() {
    let busy = record(3, "D", TransferStatus::Downloading, &[BOT_LABEL], 1);
    let mut manager = Manager::new(vec![busy]);
    manager.submit("magnet:?xt=urn:btih:D", "/tv", BOT_LABEL);
    assert!(manager.stops.is_empty());
}

#[test]
fn stop_decision() {
    let t = record(1, "H", TransferStatus::Seeding, &[BOT_LABEL], 1);
    assert!(should_stop(&t, BOT_LABEL));
    assert!(!should_stop(&t, "another-label"));
    let stopped = record(1, "H", TransferStatus::Stopped, &[BOT_LABEL], 1);
    assert!(!should_stop(&stopped, BOT_LABEL));
}

#[test]
fn label_lookup() {
    let labels = vec!["a".to_string(), BOT_LABEL.to_string()];
    assert!(has_label(Some(&labels[..]), BOT_LABEL));
    assert!(!has_label(Some(&labels[..1]), BOT_LABEL));
    assert!(!has_label(None, BOT_LABEL));
    assert!(!has_label(Some(&[]), ""));
}

#[test]
fn rejected_submission_fails_with_message() {
    let actions = drive_submission(
        vec![SubmitEvent::AddReplied(AddReply::Rejected { message: "invalid or corrupt torrent file".to_string() })],
        BOT_LABEL,
    );
    match &actions[1] {
        SubmitAction::Finish(SubmissionOutcome::Failed(FailReason::Rejected(m))) => {
            assert_eq!(m, "invalid or corrupt torrent file")
        }
        _ => panic!("expected a rejection"),
    }
}

#[test]
fn unreachable_manager_fails_submission() {
    let actions = drive_submission(
        vec![SubmitEvent::AddReplied(AddReply::Unreachable { message: "refused".to_string() })],
        BOT_LABEL,
    );
    assert!(matches!(&actions[1], SubmitAction::Finish(SubmissionOutcome::Failed(FailReason::Unreachable(m))) if m == "refused"));
}

#[test]
fn missing_record_fails_submission() {
    let actions = drive_submission(
        vec![
            SubmitEvent::AddReplied(AddReply::Added { hash: "H".to_string() }),
            SubmitEvent::RecordFetched(None),
        ],
        BOT_LABEL,
    );
    assert!(matches!(&actions[1], SubmitAction::FetchRecord { hash } if hash == "H"));
    assert!(matches!(&actions[2], SubmitAction::Finish(SubmissionOutcome::Failed(FailReason::Missing))));
}

#[test]
fn failed_fetch_fails_submission() {
    let actions = drive_submission(
        vec![
            SubmitEvent::AddReplied(AddReply::Duplicate { hash: "H".to_string() }),
            SubmitEvent::RecordUnreachable("timeout".to_string()),
        ],
        BOT_LABEL,
    );
    assert!(matches!(&actions[2], SubmitAction::Finish(SubmissionOutcome::Failed(FailReason::Unreachable(m))) if m == "timeout"));
}

#[test]
fn out_of_turn_answers_are_ignored() {
    let actions = drive_submission(
        vec![
            SubmitEvent::StopReplied,
            SubmitEvent::RecordFetched(None),
            SubmitEvent::AddReplied(AddReply::Added { hash: "H".to_string() }),
            SubmitEvent::AddReplied(AddReply::Added { hash: "H".to_string() }),
        ],
        BOT_LABEL,
    );
    assert!(matches!(actions[1], SubmitAction::Ignore));
    assert!(matches!(actions[2], SubmitAction::Ignore));
    assert!(matches!(&actions[3], SubmitAction::FetchRecord { hash } if hash == "H"));
    assert!(matches!(actions[4], SubmitAction::Ignore));
}

#[test]
fn resolved_hash_of_outcomes() {
    let added = SubmissionOutcome::Added(record(1, "A", TransferStatus::Downloading, &[], 1));
    let dup = SubmissionOutcome::DuplicateHandled(record(2, "B", TransferStatus::Seeding, &[], 1));
    let failed = SubmissionOutcome::Failed(FailReason::Missing);
    assert_eq!(added.resolved_hash().as_deref(), Some("A"));
    assert_eq!(dup.resolved_hash().as_deref(), Some("B"));
    assert_eq!(failed.resolved_hash(), None);
}

fn polled(file_count: u64) -> RenameEvent {
    RenameEvent::Polled(Some(record(1, "H", TransferStatus::Downloading, &[BOT_LABEL], file_count)))
}

#[test]
fn multi_file_transfer_is_never_renamed() {
    for offset in [-3isize, 0, 1, 12] {
        let (mut r, first) = Renamer::start("H".to_string(), "/tv".to_string(), offset);
        assert!(matches!(first, RenameAction::WaitAndPoll));
        for _ in 0..40 {
            let a = r.step(polled(2));
            assert!(!matches!(a, RenameAction::Rename { .. } | RenameAction::Derive { .. }));
            let b = r.step(RenameEvent::Derived(Some("new.mkv".to_string())));
            assert!(!matches!(b, RenameAction::Rename { .. }));
        }
    }
}

#[test]
fn rename_gives_up_after_sixteen_attempts() {
    assert_eq!(MAX_RENAME_ATTEMPTS, 16);
    let (mut r, first) = Renamer::start("H".to_string(), "/tv".to_string(), 1);
    let mut polls = 0;
    let mut action = first;
    let mut result = None;
    loop {
        match action {
            RenameAction::WaitAndPoll => {
                polls += 1;
                action = r.step(polled(0));
            }
            RenameAction::Done(name) => {
                result = Some(name);
                break;
            }
            _ => panic!("unexpected action"),
        }
    }
    assert_eq!(polls, 16);
    assert_eq!(result, Some(None));
    assert!(matches!(r.step(polled(1)), RenameAction::Ignore));
}

#[test]
fn rename_retries_until_single_file_then_renames() {
    let (mut r, _) = Renamer::start("H".to_string(), "/tv/Show".to_string(), 3);
    assert!(matches!(r.step(RenameEvent::Polled(None)), RenameAction::WaitAndPoll));
    assert!(matches!(r.step(polled(0)), RenameAction::WaitAndPoll));
    match r.step(polled(1)) {
        RenameAction::Derive { name, directory, starts_episode_at } => {
            assert_eq!(name, "file-H.mkv");
            assert_eq!(directory, "/tv/Show");
            assert_eq!(starts_episode_at, 3);
        }
        _ => panic!("expected a name derivation"),
    }
    assert!(matches!(r.step(RenameEvent::Derived(None)), RenameAction::WaitAndPoll));
    assert!(matches!(r.step(polled(1)), RenameAction::Derive { .. }));
    match r.step(RenameEvent::Derived(Some("Show S01E03.mkv".to_string()))) {
        RenameAction::Rename { hash, old_name, new_name } => {
            assert_eq!(hash, "H");
            assert_eq!(old_name, "file-H.mkv");
            assert_eq!(new_name, "Show S01E03.mkv");
        }
        _ => panic!("expected a rename"),
    }
    assert!(matches!(r.step(RenameEvent::Renamed(false)), RenameAction::WaitAndPoll));
    assert!(matches!(r.step(polled(1)), RenameAction::Derive { .. }));
    assert!(matches!(r.step(RenameEvent::Derived(Some("Show S01E03.mkv".to_string()))), RenameAction::Rename { .. }));
    match r.step(RenameEvent::Renamed(true)) {
        RenameAction::Done(Some(name)) => assert_eq!(name, "Show S01E03.mkv"),
        _ => panic!("expected success"),
    }
    assert_eq!(r.attempts, 5);
}

#[test]
fn reap_removes_only_stale_labelled() {
    let transfers = vec![
        record(1, "A", TransferStatus::Seeding, &[BOT_LABEL], 1),
        record(2, "B", TransferStatus::Seeding, &[BOT_LABEL], 1),
        record(3, "C", TransferStatus::Stopped, &[BOT_LABEL], 1),
    ];
    let live = vec!["A".to_string(), "C".to_string()];
    let picked = reap(&transfers, &live, BOT_LABEL);
    assert_eq!(picked, vec![1]);
    assert_eq!(hashes_at(&transfers, &picked), vec!["B".to_string()]);
}

#[test]
fn reap_never_touches_unlabelled() {
    let transfers = vec![
        record(1, "A", TransferStatus::Seeding, &["someone-else"], 1),
        record(2, "B", TransferStatus::Seeding, &[], 1),
        record(3, "C", TransferStatus::Seeding, &[BOT_LABEL], 1),
    ];
    assert_eq!(reap(&transfers, &Vec::new(), BOT_LABEL), vec![2]);
    assert!(reap(&Vec::new(), &Vec::new(), BOT_LABEL).is_empty());
}

#[test]
fn live_hashes_skip_failures() {
    let resolved = vec![Some("A".to_string()), None, Some("C".to_string())];
    assert_eq!(live_hashes(&resolved), vec!["A".to_string(), "C".to_string()]);
    assert!(live_hashes(&Vec::new()).is_empty());
}

#[test]
fn end_to_end_scenario() {
    let channel = ParsedChannel {
        config: ChannelConfig {
            url: "http://feed".to_string(),
            directory: "/base".to_string(),
            rules: vec![Rule {
                regex: false,
                case_insensitive: false,
                pattern: "Show".to_string(),
                starts_episode_at: 1,
                directory: "Show/Season2".to_string(),
            }],
        },
        entries: vec![FeedEntry { title: "Show S2E5".to_string(), link: "magnet:...X".to_string() }],
    };
    let channels = vec![channel];
    let matches = collect_matches(&channels);
    assert_eq!(matches.len(), 1);
    assert_eq!(matches[0].directory, "/base/Show/Season2");

    let mut manager = Manager::new(Vec::new());
    let link = &channels[0].entries[matches[0].entry].link;
    let outcome = manager.submit(link, &matches[0].directory, BOT_LABEL);
    let hash = match &outcome {
        SubmissionOutcome::Added(t) => t.hash.clone(),
        _ => panic!("expected Added"),
    };
    assert_eq!(hash, "X");
    manager.transfers[0].file_count = 0;

    let (mut r, mut action) = Renamer::start(hash.clone(), matches[0].directory.clone(), 1);
    let mut polls = 0;
    let renamed = loop {
        action = match action {
            RenameAction::WaitAndPoll => {
                polls += 1;
                if polls == 3 {
                    manager.transfers[0].file_count = 1;
                }
                r.step(RenameEvent::Polled(manager.get(&hash)))
            }
            RenameAction::Derive { .. } => r.step(RenameEvent::Derived(Some("Show S02E05.mkv".to_string()))),
            RenameAction::Rename { new_name, .. } => {
                manager.renames += 1;
                manager.transfers[0].name = new_name;
                r.step(RenameEvent::Renamed(true))
            }
            RenameAction::Done(name) => break name,
            RenameAction::Ignore => panic!("ignored"),
        };
    };
    assert_eq!(polls, 3);
    assert_eq!(renamed.as_deref(), Some("Show S02E05.mkv"));
    assert_eq!(manager.renames, 1);

    let live = live_hashes(&vec![outcome.resolved_hash()]);
    assert_eq!(live, vec!["X".to_string()]);
    assert!(reap(&manager.transfers, &live, BOT_LABEL).is_empty());
}
