use shizuku::kv::election::{
    CampaignPhase, Election, ElectionAction, ElectionEntry, ElectionError, ElectionEvent, ElectionNodeState,
    ElectionOperation, ElectionReply, ElectionTask, ElectionValue,
};
use shizuku::kv::{CreateErrorKind, EntryErrorKind, KeyValue, KvReadError, KvWriteError, UpdateErrorKind};

fn ev(leader: Option<&str>, term: u64, hb: u64, voters: &[&str]) -> ElectionValue {
    ElectionValue {
        leader_id: leader.map(|s| s.to_string()),
        term,
        last_heartbeat: hb,
        voters: voters.iter().map(|s| s.to_string()).collect(),
    }
}

fn same(a: &ElectionValue, b: &ElectionValue) -> bool {
    a.leader_id == b.leader_id && a.term == b.term && a.last_heartbeat == b.last_heartbeat && a.voters == b.voters
}

fn read(v: ElectionValue, revision: u64) -> ElectionEvent {
    ElectionEvent::Read(Ok(Some(ElectionEntry { value: v, revision })))
}

fn expect_update(a: ElectionAction, expected: &ElectionValue, revision: u64) {
    match a {
        ElectionAction::Update { value, revision: r } => {
            assert!(same(&value, expected), "{:?} != {:?}", value, expected);
            assert_eq!(r, revision);
        }
        other => panic!("expected an update, got {:?}", other),
    }
}

fn expect_finish(a: ElectionAction, expected: Result<ElectionReply, ElectionError>) {
    match a {
        ElectionAction::Finish(r) => assert_eq!(r, expected),
        other => panic!("expected a result, got {:?}", other),
    }
}

#[test]
fn node_state_default() {
    assert_eq!(ElectionNodeState::default(), ElectionNodeState::Follower);
}

#[test]
fn new_election_value() {
    let v = ElectionValue::new_at(42);
    assert!(same(&v, &ev(None, 0, 42, &[])));
    let w = ElectionValue::new();
    assert!(w.leader_id.is_none() && w.term == 0 && w.voters.is_empty());
    assert!(w.last_heartbeat > 1_600_000_000);
    assert!(ElectionValue::current_timestamp() >= w.last_heartbeat);
}

#[test]
fn leader_timeout_after_ten_seconds() {
    let v = ev(Some("a"), 1, 100, &["a"]);
    assert!(!v.is_leader_timeout_at(110));
    assert!(v.is_leader_timeout_at(111));
    assert!(!v.is_leader_timeout_at(90));
    assert!(!ev(None, 1, 0, &[]).is_leader_timeout_at(1000));
    assert!(!ev(None, 1, 0, &[]).is_leader_timeout());
    assert!(ev(Some("a"), 1, 0, &[]).is_leader_timeout());
}

#[test]
fn new_term_has_candidate_only() {
    let v = ev(Some("a"), 4, 1, &["a", "b"]).start_new_term_at("c", 77);
    assert!(same(&v, &ev(None, 5, 77, &["c"])));
    let w = ev(None, 0, 1, &[]).start_new_term("z");
    assert_eq!(w.term, 1);
    assert_eq!(w.voters, vec!["z".to_string()]);
}

#[test]
fn votes_are_counted_once() {
    let v = ev(None, 2, 5, &["a"]).add_vote("b");
    assert!(same(&v, &ev(None, 2, 5, &["a", "b"])));
    let again = v.add_vote("b");
    assert!(same(&again, &v));
    let a_again = v.add_vote("a");
    assert!(same(&a_again, &v));
}

#[test]
fn leader_needs_majority() {
    let v = ev(None, 3, 5, &["a", "b"]);
    assert!(v.elect_leader_at("a", 4, 9).is_none());
    assert!(same(&v.elect_leader_at("a", 3, 9).unwrap(), &ev(Some("a"), 3, 9, &["a", "b"])));
    assert!(v.elect_leader("a", 3).is_some());
    assert!(v.elect_leader_at("a", 5, 9).is_none());
}

#[test]
fn heartbeat_and_step_down() {
    let v = ev(Some("a"), 3, 5, &["a", "b"]);
    assert!(same(&v.update_heartbeat_at(8), &ev(Some("a"), 3, 8, &["a", "b"])));
    assert!(v.update_heartbeat().last_heartbeat > 1_600_000_000);
    assert!(same(&v.step_down_at(9), &ev(None, 3, 9, &[])));
}

#[test]
fn election_pair() {
    let e = Election::new("leader".to_string(), ev(Some("a"), 1, 2, &["a"]));
    assert_eq!(e.key(), "leader");
    assert!(same(&e.value(), &ev(Some("a"), 1, 2, &["a"])));
    assert!(same(&e.into_value(), &ev(Some("a"), 1, 2, &["a"])));
}

#[test]
fn initialize_creates_missing_entry() {
    let (task, a) = ElectionTask::begin(ElectionOperation::Initialize);
    assert!(matches!(a, ElectionAction::Read));
    let (task, a) = task.step(ElectionEvent::Read(Ok(None)), 50);
    match a {
        ElectionAction::Create { value } => assert!(same(&value, &ev(None, 0, 50, &[]))),
        other => panic!("{:?}", other),
    }
    let (task, a) = task.step(ElectionEvent::Created(Ok(1)), 50);
    expect_finish(a, Ok(ElectionReply::Unit));
    assert!(task.is_finished());

    let (task, _) = ElectionTask::begin(ElectionOperation::Initialize);
    let (_, a) = task.step(read(ev(None, 0, 1, &[]), 1), 50);
    expect_finish(a, Ok(ElectionReply::Unit));

    let (task, _) = ElectionTask::begin(ElectionOperation::Initialize);
    let (task, _) = task.step(ElectionEvent::Read(Ok(None)), 50);
    let err = KvWriteError::CreateError(CreateErrorKind::AlreadyExists);
    let (_, a) = task.step(ElectionEvent::Created(Err(err.clone())), 50);
    expect_finish(a, Err(ElectionError::UpdateFailed(err)));
}

#[test]
fn single_node_wins_election() {
    let op = ElectionOperation::StartElection { node_id: "n1".into(), total_nodes: 1, phase: CampaignPhase::Initializing };
    let (task, _) = ElectionTask::begin(op);
    let (task, a) = task.step(read(ev(None, 0, 10, &[]), 1), 100);
    assert!(matches!(a, ElectionAction::Read));
    let (task, a) = task.step(read(ev(None, 0, 10, &[]), 1), 100);
    expect_update(a, &ev(None, 1, 100, &["n1"]), 1);
    let (task, a) = task.step(ElectionEvent::Updated(Ok(Some(2))), 100);
    assert!(matches!(a, ElectionAction::Read));
    let (task, a) = task.step(read(ev(None, 1, 100, &["n1"]), 2), 101);
    expect_update(a, &ev(Some("n1"), 1, 101, &["n1"]), 2);
    let (_, a) = task.step(ElectionEvent::Updated(Ok(Some(3))), 101);
    expect_finish(a, Ok(ElectionReply::Flag(true)));
}

#[test]
fn election_waits_for_votes_and_yields_to_live_leader() {
    let op = ElectionOperation::StartElection { node_id: "n1".into(), total_nodes: 3, phase: CampaignPhase::Canvassing };
    let (task, _) = ElectionTask::begin(op);
    let (task, a) = task.step(read(ev(None, 1, 100, &["n1"]), 2), 101);
    assert!(matches!(a, ElectionAction::Sleep { min_ms: 50, max_ms: 150 }));
    let (task, _) = task.step(ElectionEvent::Slept, 101);
    let (_, a) = task.step(read(ev(Some("n2"), 1, 100, &["n1", "n2"]), 3), 101);
    expect_finish(a, Ok(ElectionReply::Flag(false)));

    let op = ElectionOperation::StartElection { node_id: "n1".into(), total_nodes: 3, phase: CampaignPhase::Opening };
    let (task, _) = ElectionTask::begin(op);
    let (_, a) = task.step(read(ev(Some("n2"), 4, 100, &["n2"]), 3), 105);
    expect_finish(a, Ok(ElectionReply::Flag(false)));

    // a timed-out leader is replaced
    let op = ElectionOperation::StartElection { node_id: "n1".into(), total_nodes: 3, phase: CampaignPhase::Opening };
    let (task, _) = ElectionTask::begin(op);
    let (_, a) = task.step(read(ev(Some("n2"), 4, 100, &["n2"]), 3), 200);
    expect_update(a, &ev(None, 5, 200, &["n1"]), 3);
}

#[test]
fn initialize_failure_is_ignored_by_campaign() {
    let op = ElectionOperation::StartElection { node_id: "n1".into(), total_nodes: 1, phase: CampaignPhase::Initializing };
    let (task, _) = ElectionTask::begin(op);
    let (task, a) = task.step(ElectionEvent::Read(Err(KvReadError::EntryError(EntryErrorKind::TimedOut))), 1);
    assert!(matches!(a, ElectionAction::Read));
    let (_, a) = task.step(ElectionEvent::Read(Ok(None)), 1);
    expect_finish(a, Err(ElectionError::UnexpectedMissingValue));
}

#[test]
fn heartbeat_only_by_leader() {
    let (task, _) = ElectionTask::begin(ElectionOperation::SendHeartbeat { node_id: "a".into() });
    let (task, a) = task.step(read(ev(Some("a"), 2, 10, &["a"]), 5), 15);
    expect_update(a, &ev(Some("a"), 2, 15, &["a"]), 5);
    let (task, a) = task.step(ElectionEvent::Updated(Ok(None)), 15);
    assert!(matches!(a, ElectionAction::Sleep { min_ms: 20, max_ms: 100 }));
    let (task, _) = task.step(ElectionEvent::Slept, 15);
    let (_, a) = task.step(read(ev(Some("b"), 3, 10, &["b"]), 6), 15);
    expect_finish(a, Err(ElectionError::NotLeader));
}

#[test]
fn leader_queries() {
    let (task, _) = ElectionTask::begin(ElectionOperation::IsLeader { node_id: "a".into() });
    let (_, a) = task.step(read(ev(Some("a"), 2, 10, &["a"]), 5), 15);
    expect_finish(a, Ok(ElectionReply::Flag(true)));
    let (task, _) = ElectionTask::begin(ElectionOperation::IsLeader { node_id: "a".into() });
    let (_, a) = task.step(read(ev(Some("a"), 2, 10, &["a"]), 5), 30);
    expect_finish(a, Ok(ElectionReply::Flag(false)));
    let (task, _) = ElectionTask::begin(ElectionOperation::IsLeader { node_id: "a".into() });
    let (_, a) = task.step(ElectionEvent::Read(Ok(None)), 30);
    expect_finish(a, Ok(ElectionReply::Flag(false)));

    let (task, _) = ElectionTask::begin(ElectionOperation::GetLeader);
    let (_, a) = task.step(read(ev(Some("a"), 2, 10, &["a"]), 5), 15);
    expect_finish(a, Ok(ElectionReply::Leader(Some("a".into()))));
    let (task, _) = ElectionTask::begin(ElectionOperation::GetLeader);
    let (_, a) = task.step(read(ev(Some("a"), 2, 10, &["a"]), 5), 21);
    expect_finish(a, Ok(ElectionReply::Leader(None)));
    let (task, _) = ElectionTask::begin(ElectionOperation::GetLeader);
    let (_, a) = task.step(ElectionEvent::Read(Ok(None)), 21);
    expect_finish(a, Ok(ElectionReply::Leader(None)));
}

#[test]
fn vote_counts_and_elects() {
    // first vote: no majority of the estimated electorate
    let op = ElectionOperation::VoteFor { voter_id: "a".into(), candidate_id: "a".into(), electing: false };
    let (task, _) = ElectionTask::begin(op);
    let (_, a) = task.step(read(ev(None, 1, 10, &[]), 3), 12);
    expect_update(a, &ev(None, 1, 10, &["a"]), 3);

    // second vote: a majority, the candidate is installed
    let op = ElectionOperation::VoteFor { voter_id: "b".into(), candidate_id: "a".into(), electing: false };
    let (task, _) = ElectionTask::begin(op);
    let (task, a) = task.step(read(ev(None, 1, 10, &["a"]), 4), 12);
    expect_update(a, &ev(Some("a"), 1, 12, &["a", "b"]), 4);
    let (lost, a) = task.step(ElectionEvent::Updated(Ok(None)), 12);
    assert!(matches!(a, ElectionAction::Sleep { min_ms: 20, max_ms: 100 }));
    let (again, a) = lost.step(ElectionEvent::Slept, 12);
    assert!(matches!(a, ElectionAction::Read));
    let (task, a) = again.step(read(ev(None, 1, 10, &["a"]), 5), 12);
    expect_update(a, &ev(Some("a"), 1, 12, &["a", "b"]), 5);
    let (_, a) = task.step(ElectionEvent::Updated(Ok(Some(6))), 12);
    expect_finish(a, Ok(ElectionReply::Unit));

    // a live leader: nothing to do
    let op = ElectionOperation::VoteFor { voter_id: "b".into(), candidate_id: "c".into(), electing: false };
    let (task, _) = ElectionTask::begin(op);
    let (_, a) = task.step(read(ev(Some("a"), 1, 10, &["a"]), 4), 12);
    expect_finish(a, Ok(ElectionReply::Unit));
}

#[test]
fn step_down_clears_leader() {
    let (task, _) = ElectionTask::begin(ElectionOperation::StepDown { node_id: "a".into() });
    let (task, a) = task.step(read(ev(Some("a"), 7, 10, &["a", "b"]), 9), 20);
    expect_update(a, &ev(None, 7, 20, &[]), 9);
    let err = KvWriteError::UpdateError(UpdateErrorKind::TimedOut);
    let (_, a) = task.step(ElectionEvent::Updated(Err(err.clone())), 20);
    expect_finish(a, Err(ElectionError::UpdateFailed(err)));
    let (task, _) = ElectionTask::begin(ElectionOperation::StepDown { node_id: "a".into() });
    let (_, a) = task.step(read(ev(None, 7, 10, &[]), 9), 20);
    expect_finish(a, Err(ElectionError::NotLeader));
}

#[test]
fn election_overflow_checks() {
    let op = ElectionOperation::StartElection { node_id: "n".into(), total_nodes: 1, phase: CampaignPhase::Opening };
    let (task, _) = ElectionTask::begin(op);
    assert!(task.would_overflow(&read(ev(None, u64::MAX, 0, &[]), 1), 5));
    assert!(!task.would_overflow(&read(ev(None, 3, 0, &[]), 1), 5));
}
