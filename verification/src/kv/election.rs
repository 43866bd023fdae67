//! Leader election kept in one entry of a key-value bucket.
//!
//! The entry holds the current leader, the term, the time of the leader's
//! last heartbeat and the nodes that voted in the current term. A leader
//! whose last heartbeat is more than 10 seconds old counts as gone.
//!
//! Each operation is an [`ElectionTask`]: it tells the caller which bucket
//! operation to perform next ([`ElectionAction`]) and is fed the outcome
//! ([`ElectionEvent`]), until it finishes with a result.

use crate::clock;
use crate::kv::rw_lock::saturating_diff;
use crate::kv::{KeyValue, KvReadError, KvWriteError};
use vstd::prelude::*;

verus! {

/// The state of a node in the election.
#[derive(Debug, Clone, Copy, PartialEq, Eq, Structural)]
pub enum ElectionNodeState {
    /// The node is a follower.
    Follower,
    /// The node is a candidate.
    Candidate,
    /// The node is the leader.
    Leader,
}

impl Default for ElectionNodeState {
    fn default() -> (r: Self)
        ensures
            r == ElectionNodeState::Follower,
    {
        ElectionNodeState::Follower
    }
}

/// The election value stored in the bucket.
#[derive(Debug)]
pub struct ElectionValue {
    /// The current leader, if any.
    pub leader_id: Option<String>,
    /// The term number, incremented on each election.
    pub term: u64,
    /// When the leader was last seen, in seconds since the UNIX epoch.
    pub last_heartbeat: u64,
    /// The nodes that voted in the current term.
    pub voters: Vec<String>,
}

/// The contents of an [`ElectionValue`], with node ids as character
/// sequences.
pub struct ElectionState {
    /// The current leader, if any.
    pub leader_id: Option<Seq<char>>,
    /// The term number.
    pub term: u64,
    /// When the leader was last seen.
    pub last_heartbeat: u64,
    /// The nodes that voted in the current term, in order of voting.
    pub voters: Seq<Seq<char>>,
}

/// The characters of an optional node id.
pub open spec fn opt_view(o: Option<String>) -> Option<Seq<char>> {
    match o {
        Some(s) => Some(s@),
        None => None,
    }
}

/// The characters of each node id.
pub open spec fn ids_view(v: Seq<String>) -> Seq<Seq<char>> {
    v.map_values(|s: String| s@)
}

impl View for ElectionValue {
    type V = ElectionState;

    open spec fn view(&self) -> ElectionState {
        ElectionState {
            leader_id: opt_view(self.leader_id),
            term: self.term,
            last_heartbeat: self.last_heartbeat,
            voters: ids_view(self.voters@),
        }
    }
}

/// How long a leader may go without a heartbeat, in seconds.
pub const LEADER_TIMEOUT_SECS: u64 = 10;

impl ElectionState {
    /// An election with no leader, term 0 and no voters, started at `now`.
    pub open spec fn spec_new_at(now: u64) -> Self {
        ElectionState { leader_id: None, term: 0, last_heartbeat: now, voters: seq![] }
    }

    /// There is a leader and its last heartbeat is more than 10 seconds
    /// before `now`.
    pub open spec fn spec_is_leader_timeout_at(self, now: u64) -> bool {
        self.leader_id is Some && saturating_diff(now, self.last_heartbeat) > 10
    }

    /// The next term, with no leader and `node_id` as the only voter.
    pub open spec fn spec_start_new_term_at(self, node_id: Seq<char>, now: u64) -> Self {
        ElectionState {
            leader_id: None,
            term: (self.term + 1) as u64,
            last_heartbeat: now,
            voters: seq![node_id],
        }
    }

    /// The election with `voter_id` among the voters; unchanged if it voted
    /// already.
    pub open spec fn spec_add_vote(self, voter_id: Seq<char>) -> Self {
        if self.voters.contains(voter_id) {
            self
        } else {
            ElectionState { voters: self.voters.push(voter_id), ..self }
        }
    }

    /// The voters are a majority of `total_nodes` nodes.
    pub open spec fn has_majority(self, total_nodes: usize) -> bool {
        self.voters.len() > total_nodes / 2
    }

    /// With a majority of `total_nodes` nodes, the election won by
    /// `candidate_id` at `now`; without one, nothing.
    pub open spec fn spec_elect_leader_at(self, candidate_id: Seq<char>, total_nodes: usize, now: u64) -> Option<Self> {
        if self.has_majority(total_nodes) {
            Some(ElectionState {
                leader_id: Some(candidate_id),
                term: self.term,
                last_heartbeat: now,
                voters: self.voters,
            })
        } else {
            None
        }
    }

    /// The election with the leader's heartbeat at `now`.
    pub open spec fn spec_update_heartbeat_at(self, now: u64) -> Self {
        ElectionState { last_heartbeat: now, ..self }
    }

    /// The election after the leader stepped down at `now`: no leader, no
    /// voters, same term.
    pub open spec fn spec_step_down_at(self, now: u64) -> Self {
        ElectionState { leader_id: None, term: self.term, last_heartbeat: now, voters: seq![] }
    }
}

/// Clone a list of node ids.
fn clone_ids(v: &Vec<String>) -> (r: Vec<String>)
    ensures
        ids_view(r@) == ids_view(v@),
{
    let mut r: Vec<String> = Vec::new();
    let mut i: usize = 0;
    while i < v.len()
        invariant
            i <= v.len(),
            r@.len() == i,
            ids_view(r@) == ids_view(v@.take(i as int)),
        decreases v.len() - i,
    {
        let ghost old_r = r@;
        let c = v[i].clone();
        assert(c == v@[i as int]);
        r.push(c);
        proof {
            assert(r@ == old_r.push(v@[i as int]));
            assert(old_r.len() == i);
            assert forall|k: int| 0 <= k < i + 1 implies #[trigger] ids_view(r@)[k] == ids_view(v@.take(i + 1))[k] by {
                if k < i {
                    assert(ids_view(old_r)[k] == ids_view(v@.take(i as int))[k]);
                    assert(r@[k] == old_r[k]);
                } else {
                    assert(r@[k] == v@[i as int]);
                }
            }
            assert(ids_view(r@) =~= ids_view(v@.take(i + 1)));
        }
        i = i + 1;
    }
    proof {
        assert(v@.take(v.len() as int) == v@);
    }
    r
}

/// Clone an optional node id.
fn clone_id(o: &Option<String>) -> (r: Option<String>)
    ensures
        opt_view(r) == opt_view(*o),
{
    match o {
        Some(s) => Some(s.clone()),
        None => None,
    }
}

/// Whether `id` is among `v`.
fn contains_id(v: &Vec<String>, id: &String) -> (b: bool)
    ensures
        b == ids_view(v@).contains(id@),
{
    let mut i: usize = 0;
    while i < v.len()
        invariant
            i <= v.len(),
            forall|j: int| 0 <= j < i ==> v@[j]@ != id@,
        decreases v.len() - i,
    {
        if v[i] == *id {
            proof {
                assert(ids_view(v@)[i as int] == id@);
            }
            return true;
        }
        i = i + 1;
    }
    proof {
        if ids_view(v@).contains(id@) {
            let k = choose|k: int| 0 <= k < ids_view(v@).len() && ids_view(v@)[k] == id@;
            assert(v@[k]@ == id@);
        }
    }
    false
}

/// Whether the optional leader is `id`.
fn is_id(o: &Option<String>, id: &String) -> (b: bool)
    ensures
        b == (opt_view(*o) == Some(id@)),
{
    match o {
        Some(s) => *s == *id,
        None => false,
    }
}

impl ElectionValue {
    /// The current time in seconds since the UNIX epoch.
    pub fn current_timestamp() -> u64 {
        clock::current_timestamp()
    }

    /// Create an election value with no leader, started at `now`.
    pub fn new_at(now: u64) -> (r: Self)
        ensures
            r@ == ElectionState::spec_new_at(now),
    {
        let r = ElectionValue { leader_id: None, term: 0, last_heartbeat: now, voters: Vec::new() };
        proof {
            assert(r@.voters =~= Seq::<Seq<char>>::empty());
        }
        r
    }

    /// Create an election value with no leader, started at the current time.
    pub fn new() -> (r: Self)
        ensures
            r@ == ElectionState::spec_new_at(r.last_heartbeat),
    {
        let now = Self::current_timestamp();
        Self::new_at(now)
    }

    /// Whether the leader has timed out at `now`: there is a leader and no
    /// heartbeat for more than 10 seconds.
    pub fn is_leader_timeout_at(&self, now: u64) -> (b: bool)
        ensures
            b == self@.spec_is_leader_timeout_at(now),
    {
        if self.leader_id.is_none() {
            return false;
        }
        now.saturating_sub(self.last_heartbeat) > LEADER_TIMEOUT_SECS
    }

    /// Whether the leader has timed out, by the system clock. Without a
    /// leader there is no timeout.
    pub fn is_leader_timeout(&self) -> (b: bool)
        ensures
            self.leader_id is None ==> !b,
            b ==> exists|now: u64| self@.spec_is_leader_timeout_at(now),
    {
        let now = Self::current_timestamp();
        self.is_leader_timeout_at(now)
    }

    /// Start the next term at `now`, with `node_id` as the only voter.
    pub fn start_new_term_at(&self, node_id: &str, now: u64) -> (r: Self)
        requires
            self.term < u64::MAX,
        ensures
            r@ == self@.spec_start_new_term_at(node_id@, now),
    {
        let mut voters: Vec<String> = Vec::new();
        voters.push(node_id.to_string());
        let r = ElectionValue { leader_id: None, term: self.term + 1, last_heartbeat: now, voters };
        proof {
            assert(r@.voters =~= seq![node_id@]);
        }
        r
    }

    /// Start the next term at the current time, with `node_id` as the only
    /// voter.
    pub fn start_new_term(&self, node_id: &str) -> (r: Self)
        requires
            self.term < u64::MAX,
        ensures
            r@ == self@.spec_start_new_term_at(node_id@, r.last_heartbeat),
    {
        let now = Self::current_timestamp();
        self.start_new_term_at(node_id, now)
    }

    /// Add the vote of `voter_id`, unless it voted already.
    pub fn add_vote(&self, voter_id: &str) -> (r: Self)
        ensures
            r@ == self@.spec_add_vote(voter_id@),
    {
        let mut voters = clone_ids(&self.voters);
        let voter = voter_id.to_string();
        if !contains_id(&voters, &voter) {
            voters.push(voter);
            proof {
                assert(ids_view(voters@) =~= ids_view(self.voters@).push(voter_id@));
            }
        }
        ElectionValue {
            leader_id: clone_id(&self.leader_id),
            term: self.term,
            last_heartbeat: self.last_heartbeat,
            voters,
        }
    }

    /// Elect `candidate_id` at `now` if the voters are a majority of
    /// `total_nodes` nodes.
    pub fn elect_leader_at(&self, candidate_id: &str, total_nodes: usize, now: u64) -> (r: Option<Self>)
        ensures
            r is Some == self@.has_majority(total_nodes),
            r matches Some(v) ==> Some(v@) == self@.spec_elect_leader_at(candidate_id@, total_nodes, now),
    {
        if self.voters.len() <= total_nodes / 2 {
            return None;
        }
        Some(ElectionValue {
            leader_id: Some(candidate_id.to_string()),
            term: self.term,
            last_heartbeat: now,
            voters: clone_ids(&self.voters),
        })
    }

    /// Elect `candidate_id` at the current time if the voters are a majority
    /// of `total_nodes` nodes.
    pub fn elect_leader(&self, candidate_id: &str, total_nodes: usize) -> (r: Option<Self>)
        ensures
            r is Some == self@.has_majority(total_nodes),
            r matches Some(v) ==> Some(v@) == self@.spec_elect_leader_at(candidate_id@, total_nodes, v.last_heartbeat),
    {
        let now = Self::current_timestamp();
        self.elect_leader_at(candidate_id, total_nodes, now)
    }

    /// Record the leader's heartbeat at `now`.
    pub fn update_heartbeat_at(&self, now: u64) -> (r: Self)
        ensures
            r@ == self@.spec_update_heartbeat_at(now),
    {
        ElectionValue {
            leader_id: clone_id(&self.leader_id),
            term: self.term,
            last_heartbeat: now,
            voters: clone_ids(&self.voters),
        }
    }

    /// Record the leader's heartbeat at the current time.
    pub fn update_heartbeat(&self) -> (r: Self)
        ensures
            r@ == self@.spec_update_heartbeat_at(r.last_heartbeat),
    {
        let now = Self::current_timestamp();
        self.update_heartbeat_at(now)
    }

    /// The election after the leader stepped down at `now`.
    pub fn step_down_at(&self, now: u64) -> (r: Self)
        ensures
            r@ == self@.spec_step_down_at(now),
    {
        let r = ElectionValue { leader_id: None, term: self.term, last_heartbeat: now, voters: Vec::new() };
        proof {
            assert(r@.voters =~= Seq::<Seq<char>>::empty());
        }
        r
    }
}

/// Error when performing an election operation.
#[derive(Debug, PartialEq, Eq)]
pub enum ElectionError {
    /// Reading the election failed.
    ReadFailed(KvReadError),
    /// Writing the election failed.
    UpdateFailed(KvWriteError),
    /// The election entry is missing although it must exist.
    UnexpectedMissingValue,
    /// The node is not the leader.
    NotLeader,
    /// The node is the leader already.
    AlreadyLeader,
}

/// Error when decoding the election state.
#[derive(Debug, Clone, Copy, PartialEq, Eq, Structural)]
pub enum ElectionDesErr {
    /// The bytes have the wrong length.
    InvalidByteLength,
    /// The bytes are not an election state.
    InvalidFormat,
}

/// Error when encoding the election state. Encoding the election state
/// cannot fail, so no function of this crate produces this value.
#[derive(Debug, Clone, Copy, PartialEq, Eq, Structural)]
pub struct ElectionSerErr;

impl ElectionDesErr {
    /// How the error is written out.
    pub fn message(&self) -> (r: String)
        ensures
            r@ == match self {
                ElectionDesErr::InvalidByteLength => "Invalid byte length"@,
                ElectionDesErr::InvalidFormat => "Invalid format"@,
            },
    {
        match self {
            ElectionDesErr::InvalidByteLength => "Invalid byte length".to_owned(),
            ElectionDesErr::InvalidFormat => "Invalid format".to_owned(),
        }
    }
}

impl ElectionSerErr {
    /// How the error is written out.
    pub fn message(&self) -> (r: String)
        ensures
            r@ == "Failed to serialize election state"@,
    {
        "Failed to serialize election state".to_owned()
    }
}

/// A distributed election: the key of its entry and its state.
#[derive(Debug)]
pub struct Election {
    key: String,
    value: ElectionValue,
}

impl Election {
    /// The key of the entry.
    pub closed spec fn spec_key(&self) -> Seq<char> {
        self.key@
    }

    /// The state of the election.
    pub closed spec fn spec_value(&self) -> ElectionState {
        self.value@
    }
}

impl KeyValue for Election {
    type Key = String;
    type Value = ElectionValue;

    /// The key of the entry.
    fn key(&self) -> (k: String)
        ensures
            k@ == self.spec_key(),
    {
        self.key.clone()
    }

    /// A copy of the state of the election.
    fn value(&self) -> (v: ElectionValue)
        ensures
            v@ == self.spec_value(),
    {
        ElectionValue {
            leader_id: clone_id(&self.value.leader_id),
            term: self.value.term,
            last_heartbeat: self.value.last_heartbeat,
            voters: clone_ids(&self.value.voters),
        }
    }

    /// The state of the election, consuming the pair.
    fn into_value(self) -> (v: ElectionValue)
        ensures
            v@ == self.spec_value(),
    {
        self.value
    }

    /// Pair a key with an election state.
    fn new(key: String, value: ElectionValue) -> (r: Self)
        ensures
            r.spec_key() == key@,
            r.spec_value() == value@,
    {
        Election { key, value }
    }
}

/// The election entry as read from the bucket, with its revision.
#[derive(Debug)]
pub struct ElectionEntry {
    /// The stored election state.
    pub value: ElectionValue,
    /// The revision of the entry.
    pub revision: u64,
}

/// The stage of an election campaign.
#[derive(Debug, Clone, Copy, PartialEq, Eq, Structural)]
pub enum CampaignPhase {
    /// Creating the election entry if it is missing.
    Initializing,
    /// Opening a new term with the candidate as the first voter.
    Opening,
    /// Waiting for a majority of votes and claiming the leadership.
    Canvassing,
}

/// The operation an [`ElectionTask`] performs.
#[derive(Debug)]
pub enum ElectionOperation {
    /// Create the election entry if it does not exist.
    Initialize,
    /// Run for leader as `node_id` among `total_nodes` nodes.
    StartElection { node_id: String, total_nodes: usize, phase: CampaignPhase },
    /// Renew the leadership of `node_id`.
    SendHeartbeat { node_id: String },
    /// Whether `node_id` is the leader.
    IsLeader { node_id: String },
    /// Who the leader is.
    GetLeader,
    /// Give the vote of `voter_id` to `candidate_id`; `electing` is true
    /// once the vote completed a majority and the candidate is being
    /// installed as leader. A write that lost its race is retried from a
    /// fresh read.
    VoteFor { voter_id: String, candidate_id: String, electing: bool },
    /// Give up the leadership of `node_id`.
    StepDown { node_id: String },
}

/// The result of a finished [`ElectionTask`].
#[derive(Debug, PartialEq, Eq)]
pub enum ElectionReply {
    /// The operation succeeded and has no value.
    Unit,
    /// The operation's answer: whether the node was elected, or whether it
    /// is the leader.
    Flag(bool),
    /// The current leader, if any.
    Leader(Option<String>),
}

/// An [`ElectionReply`] with node ids as character sequences.
pub enum ElectionReplyView {
    /// The operation succeeded and has no value.
    Unit,
    /// The operation's yes-or-no answer.
    Flag(bool),
    /// The current leader, if any.
    Leader(Option<Seq<char>>),
}

impl View for ElectionReply {
    type V = ElectionReplyView;

    open spec fn view(&self) -> ElectionReplyView {
        match self {
            ElectionReply::Unit => ElectionReplyView::Unit,
            ElectionReply::Flag(b) => ElectionReplyView::Flag(*b),
            ElectionReply::Leader(l) => ElectionReplyView::Leader(opt_view(*l)),
        }
    }
}

/// The bucket operation an [`ElectionTask`] asks for, or its result.
#[derive(Debug)]
pub enum ElectionAction {
    /// Read the election entry with its revision.
    Read,
    /// Write `value` if the entry still has `revision`.
    Update { value: ElectionValue, revision: u64 },
    /// Create the entry with `value`.
    Create { value: ElectionValue },
    /// Sleep for a random time of at least `min_ms` and less than `max_ms`
    /// milliseconds.
    Sleep { min_ms: u64, max_ms: u64 },
    /// The operation is over, with this result.
    Finish(Result<ElectionReply, ElectionError>),
}

/// An [`ElectionAction`] with the election state as its contents.
pub enum ElectionActionView {
    /// Read the election entry.
    Read,
    /// Write `value` if the entry still has `revision`.
    Update { value: ElectionState, revision: u64 },
    /// Create the entry with `value`.
    Create { value: ElectionState },
    /// Sleep for a random time in `min_ms..max_ms` milliseconds.
    Sleep { min_ms: u64, max_ms: u64 },
    /// The operation is over, with this result.
    Finish(Result<ElectionReplyView, ElectionError>),
}

impl View for ElectionAction {
    type V = ElectionActionView;

    open spec fn view(&self) -> ElectionActionView {
        match self {
            ElectionAction::Read => ElectionActionView::Read,
            ElectionAction::Update { value, revision } => ElectionActionView::Update { value: value@, revision: *revision },
            ElectionAction::Create { value } => ElectionActionView::Create { value: value@ },
            ElectionAction::Sleep { min_ms, max_ms } => ElectionActionView::Sleep { min_ms: *min_ms, max_ms: *max_ms },
            ElectionAction::Finish(r) => ElectionActionView::Finish(match r {
                Ok(reply) => Ok(reply@),
                Err(e) => Err(*e),
            }),
        }
    }
}

/// The outcome of the bucket operation an [`ElectionTask`] asked for.
#[derive(Debug)]
pub enum ElectionEvent {
    /// The outcome of a read: the entry, if there is one.
    Read(Result<Option<ElectionEntry>, KvReadError>),
    /// The outcome of an update: the new revision, or `None` when the
    /// entry had changed.
    Updated(Result<Option<u64>, KvWriteError>),
    /// The outcome of a creation: the new revision.
    Created(Result<u64, KvWriteError>),
    /// The sleep is over.
    Slept,
}

/// An [`ElectionEvent`] with the election state as its contents.
pub enum ElectionEventView {
    /// The outcome of a read: the state and revision, if there is an entry.
    Read(Result<Option<(ElectionState, u64)>, KvReadError>),
    /// The outcome of an update.
    Updated(Result<Option<u64>, KvWriteError>),
    /// The outcome of a creation.
    Created(Result<u64, KvWriteError>),
    /// The sleep is over.
    Slept,
}

impl View for ElectionEvent {
    type V = ElectionEventView;

    open spec fn view(&self) -> ElectionEventView {
        match self {
            ElectionEvent::Read(r) => ElectionEventView::Read(match r {
                Ok(Some(e)) => Ok(Some((e.value@, e.revision))),
                Ok(None) => Ok(None),
                Err(err) => Err(*err),
            }),
            ElectionEvent::Updated(r) => ElectionEventView::Updated(*r),
            ElectionEvent::Created(r) => ElectionEventView::Created(*r),
            ElectionEvent::Slept => ElectionEventView::Slept,
        }
    }
}

/// What an [`ElectionTask`] waits for.
#[derive(Debug, Clone, Copy, PartialEq, Eq, Structural)]
pub enum ElectionAwaiting {
    /// The outcome of a read.
    Read,
    /// The outcome of an update.
    Update,
    /// The outcome of a creation.
    Create,
    /// The end of a sleep.
    Sleep,
    /// Nothing: the task is finished.
    Nothing,
}

/// An election operation in progress.
#[derive(Debug)]
pub struct ElectionTask {
    /// The operation.
    pub op: ElectionOperation,
    /// What the task waits for.
    pub awaiting: ElectionAwaiting,
}

/// What a task waits for after asking for `action`.
pub open spec fn election_awaiting_after(action: ElectionActionView) -> ElectionAwaiting {
    match action {
        ElectionActionView::Read => ElectionAwaiting::Read,
        ElectionActionView::Update { .. } => ElectionAwaiting::Update,
        ElectionActionView::Create { .. } => ElectionAwaiting::Create,
        ElectionActionView::Sleep { .. } => ElectionAwaiting::Sleep,
        ElectionActionView::Finish(_) => ElectionAwaiting::Nothing,
    }
}

/// The pause after losing a race for the entry.
pub open spec fn spec_election_race_pause() -> ElectionActionView {
    ElectionActionView::Sleep { min_ms: 20, max_ms: 100 }
}

/// The pause while a candidate waits for votes.
pub open spec fn spec_vote_pause() -> ElectionActionView {
    ElectionActionView::Sleep { min_ms: 50, max_ms: 150 }
}

/// The finished action with the error of a failed read.
pub open spec fn read_failed(err: KvReadError) -> ElectionActionView {
    ElectionActionView::Finish(Err(ElectionError::ReadFailed(err)))
}

/// The finished action with the error of a failed write.
pub open spec fn update_failed(err: KvWriteError) -> ElectionActionView {
    ElectionActionView::Finish(Err(ElectionError::UpdateFailed(err)))
}

/// The finished action with a missing entry.
pub open spec fn missing_entry() -> ElectionActionView {
    ElectionActionView::Finish(Err(ElectionError::UnexpectedMissingValue))
}

/// The finished action with a reply.
pub open spec fn reply(r: ElectionReplyView) -> ElectionActionView {
    ElectionActionView::Finish(Ok(r))
}

/// The leader of `v` is there and has not timed out at `now`.
pub open spec fn leader_alive(v: ElectionState, now: u64) -> bool {
    v.leader_id is Some && !v.spec_is_leader_timeout_at(now)
}

/// What an update of the leader's own entry leads to: done, a pause after a
/// lost race, or the error.
pub open spec fn spec_after_own_update(outcome: Result<Option<u64>, KvWriteError>) -> ElectionActionView {
    match outcome {
        Ok(Some(_)) => reply(ElectionReplyView::Unit),
        Ok(None) => spec_election_race_pause(),
        Err(err) => update_failed(err),
    }
}

impl ElectionTask {
    /// The task accepts `event`: it is the outcome of what the task asked for.
    pub open spec fn accepts(self, event: ElectionEventView) -> bool {
        match (self.awaiting, event) {
            (ElectionAwaiting::Read, ElectionEventView::Read(_)) => true,
            (ElectionAwaiting::Update, ElectionEventView::Updated(_)) => true,
            (ElectionAwaiting::Create, ElectionEventView::Created(_)) => true,
            (ElectionAwaiting::Sleep, ElectionEventView::Slept) => true,
            _ => false,
        }
    }

    /// The event would overflow a counter: the term of a new election, or
    /// the size of the electorate a vote is counted against.
    pub open spec fn counter_overflow(self, event: ElectionEventView, now: u64) -> bool {
        match (self.op, event) {
            (ElectionOperation::StartElection { phase: CampaignPhase::Opening, .. }, ElectionEventView::Read(Ok(Some((v, _))))) =>
                !leader_alive(v, now) && v.term == u64::MAX,
            (ElectionOperation::VoteFor { electing: false, .. }, ElectionEventView::Read(Ok(Some((v, _))))) =>
                !leader_alive(v, now) && v.voters.len() + 2 > usize::MAX,
            _ => false,
        }
    }

    /// The next operation and action after `event`, the time being `now`.
    pub open spec fn spec_decide(op: ElectionOperation, event: ElectionEventView, now: u64) -> (ElectionOperation, ElectionActionView) {
        match op {
            ElectionOperation::Initialize => match event {
                ElectionEventView::Read(Err(err)) => (op, read_failed(err)),
                ElectionEventView::Read(Ok(None)) => (op, ElectionActionView::Create { value: ElectionState::spec_new_at(now) }),
                ElectionEventView::Read(Ok(Some(_))) => (op, reply(ElectionReplyView::Unit)),
                ElectionEventView::Created(Ok(_)) => (op, reply(ElectionReplyView::Unit)),
                ElectionEventView::Created(Err(err)) => (op, update_failed(err)),
                _ => (op, ElectionActionView::Read),
            },
            ElectionOperation::StartElection { node_id, total_nodes, phase } => {
                let opening = ElectionOperation::StartElection { node_id, total_nodes, phase: CampaignPhase::Opening };
                let canvassing = ElectionOperation::StartElection { node_id, total_nodes, phase: CampaignPhase::Canvassing };
                match phase {
                    CampaignPhase::Initializing => match event {
                        ElectionEventView::Read(Ok(None)) => (op, ElectionActionView::Create { value: ElectionState::spec_new_at(now) }),
                        _ => (opening, ElectionActionView::Read),
                    },
                    CampaignPhase::Opening => match event {
                        ElectionEventView::Read(Err(err)) => (op, read_failed(err)),
                        ElectionEventView::Read(Ok(None)) => (op, missing_entry()),
                        ElectionEventView::Read(Ok(Some((v, revision)))) => if leader_alive(v, now) {
                            (op, reply(ElectionReplyView::Flag(false)))
                        } else {
                            (op, ElectionActionView::Update { value: v.spec_start_new_term_at(node_id@, now), revision })
                        },
                        ElectionEventView::Updated(Ok(Some(_))) => (canvassing, ElectionActionView::Read),
                        ElectionEventView::Updated(Ok(None)) => (op, spec_election_race_pause()),
                        ElectionEventView::Updated(Err(err)) => (op, update_failed(err)),
                        _ => (op, ElectionActionView::Read),
                    },
                    CampaignPhase::Canvassing => match event {
                        ElectionEventView::Read(Err(err)) => (op, read_failed(err)),
                        ElectionEventView::Read(Ok(None)) => (op, missing_entry()),
                        ElectionEventView::Read(Ok(Some((v, revision)))) => if v.leader_id is Some {
                            (op, reply(ElectionReplyView::Flag(false)))
                        } else {
                            match v.spec_elect_leader_at(node_id@, total_nodes, now) {
                                Some(won) => (op, ElectionActionView::Update { value: won, revision }),
                                None => (op, spec_vote_pause()),
                            }
                        },
                        ElectionEventView::Updated(Ok(Some(_))) => (op, reply(ElectionReplyView::Flag(true))),
                        ElectionEventView::Updated(Ok(None)) => (op, spec_election_race_pause()),
                        ElectionEventView::Updated(Err(err)) => (op, update_failed(err)),
                        _ => (op, ElectionActionView::Read),
                    },
                }
            },
            ElectionOperation::SendHeartbeat { node_id } => match event {
                ElectionEventView::Read(Err(err)) => (op, read_failed(err)),
                ElectionEventView::Read(Ok(None)) => (op, missing_entry()),
                ElectionEventView::Read(Ok(Some((v, revision)))) => if v.leader_id != Some(node_id@) {
                    (op, ElectionActionView::Finish(Err(ElectionError::NotLeader)))
                } else {
                    (op, ElectionActionView::Update { value: v.spec_update_heartbeat_at(now), revision })
                },
                ElectionEventView::Updated(outcome) => (op, spec_after_own_update(outcome)),
                _ => (op, ElectionActionView::Read),
            },
            ElectionOperation::IsLeader { node_id } => match event {
                ElectionEventView::Read(Err(err)) => (op, read_failed(err)),
                ElectionEventView::Read(Ok(None)) => (op, reply(ElectionReplyView::Flag(false))),
                ElectionEventView::Read(Ok(Some((v, _)))) => (op, reply(ElectionReplyView::Flag(
                    v.leader_id == Some(node_id@) && !v.spec_is_leader_timeout_at(now),
                ))),
                _ => (op, ElectionActionView::Read),
            },
            ElectionOperation::GetLeader => match event {
                ElectionEventView::Read(Err(err)) => (op, read_failed(err)),
                ElectionEventView::Read(Ok(None)) => (op, reply(ElectionReplyView::Leader(None))),
                ElectionEventView::Read(Ok(Some((v, _)))) => if v.spec_is_leader_timeout_at(now) {
                    (op, reply(ElectionReplyView::Leader(None)))
                } else {
                    (op, reply(ElectionReplyView::Leader(v.leader_id)))
                },
                _ => (op, ElectionActionView::Read),
            },
            ElectionOperation::VoteFor { voter_id, candidate_id, electing } => if electing {
                match event {
                    ElectionEventView::Updated(outcome) => (
                        ElectionOperation::VoteFor { voter_id, candidate_id, electing: false },
                        spec_after_own_update(outcome),
                    ),
                    _ => (ElectionOperation::VoteFor { voter_id, candidate_id, electing: false }, ElectionActionView::Read),
                }
            } else {
                match event {
                    ElectionEventView::Read(Err(err)) => (op, read_failed(err)),
                    ElectionEventView::Read(Ok(None)) => (op, missing_entry()),
                    ElectionEventView::Read(Ok(Some((v, revision)))) => if leader_alive(v, now) {
                        (op, reply(ElectionReplyView::Unit))
                    } else {
                        let voted = v.spec_add_vote(voter_id@);
                        match voted.spec_elect_leader_at(candidate_id@, (voted.voters.len() + 1) as usize, now) {
                            Some(won) => (
                                ElectionOperation::VoteFor { voter_id, candidate_id, electing: true },
                                ElectionActionView::Update { value: won, revision },
                            ),
                            None => (op, ElectionActionView::Update { value: voted, revision }),
                        }
                    },
                    ElectionEventView::Updated(outcome) => (op, spec_after_own_update(outcome)),
                    _ => (op, ElectionActionView::Read),
                }
            },
            ElectionOperation::StepDown { node_id } => match event {
                ElectionEventView::Read(Err(err)) => (op, read_failed(err)),
                ElectionEventView::Read(Ok(None)) => (op, missing_entry()),
                ElectionEventView::Read(Ok(Some((v, revision)))) => if v.leader_id != Some(node_id@) {
                    (op, ElectionActionView::Finish(Err(ElectionError::NotLeader)))
                } else {
                    (op, ElectionActionView::Update { value: v.spec_step_down_at(now), revision })
                },
                ElectionEventView::Updated(outcome) => (op, spec_after_own_update(outcome)),
                _ => (op, ElectionActionView::Read),
            },
        }
    }
}

impl ElectionTask {
    /// Start `op`: every operation begins by reading the election entry.
    pub fn begin(op: ElectionOperation) -> (r: (ElectionTask, ElectionAction))
        ensures
            r.0.op == op,
            r.0.awaiting == ElectionAwaiting::Read,
            r.1@ == ElectionActionView::Read,
    {
        (ElectionTask { op, awaiting: ElectionAwaiting::Read }, ElectionAction::Read)
    }

    /// The task is finished.
    pub fn is_finished(&self) -> (b: bool)
        ensures
            b == (self.awaiting == ElectionAwaiting::Nothing),
    {
        self.awaiting == ElectionAwaiting::Nothing
    }

    /// Whether `event` would overflow a counter (see `counter_overflow`).
    pub fn would_overflow(&self, event: &ElectionEvent, now: u64) -> (b: bool)
        ensures
            b == self.counter_overflow(event@, now),
    {
        match (&self.op, event) {
            (ElectionOperation::StartElection { phase: CampaignPhase::Opening, .. }, ElectionEvent::Read(Ok(Some(e)))) =>
                !leader_alive_at(&e.value, now) && e.value.term == u64::MAX,
            (ElectionOperation::VoteFor { electing: false, .. }, ElectionEvent::Read(Ok(Some(e)))) =>
                !leader_alive_at(&e.value, now) && e.value.voters.len() >= usize::MAX - 1,
            _ => false,
        }
    }

    fn decide(op: ElectionOperation, event: ElectionEvent, now: u64) -> (r: (ElectionOperation, ElectionAction))
        requires
            !(ElectionTask { op, awaiting: ElectionAwaiting::Nothing }).counter_overflow(event@, now),
        ensures
            (r.0, r.1@) == Self::spec_decide(op, event@, now),
    {
        match op {
            ElectionOperation::Initialize => match event {
                ElectionEvent::Read(Err(err)) => (op, ElectionAction::Finish(Err(ElectionError::ReadFailed(err)))),
                ElectionEvent::Read(Ok(None)) => (op, ElectionAction::Create { value: ElectionValue::new_at(now) }),
                ElectionEvent::Read(Ok(Some(_))) => (op, ElectionAction::Finish(Ok(ElectionReply::Unit))),
                ElectionEvent::Created(Ok(_)) => (op, ElectionAction::Finish(Ok(ElectionReply::Unit))),
                ElectionEvent::Created(Err(err)) => (op, ElectionAction::Finish(Err(ElectionError::UpdateFailed(err)))),
                _ => (op, ElectionAction::Read),
            },
            ElectionOperation::StartElection { node_id, total_nodes, phase } => match phase {
                CampaignPhase::Initializing => match event {
                    ElectionEvent::Read(Ok(None)) => (
                        ElectionOperation::StartElection { node_id, total_nodes, phase },
                        ElectionAction::Create { value: ElectionValue::new_at(now) },
                    ),
                    _ => (
                        ElectionOperation::StartElection { node_id, total_nodes, phase: CampaignPhase::Opening },
                        ElectionAction::Read,
                    ),
                },
                CampaignPhase::Opening => {
                    let action = match event {
                        ElectionEvent::Read(Err(err)) => ElectionAction::Finish(Err(ElectionError::ReadFailed(err))),
                        ElectionEvent::Read(Ok(None)) => ElectionAction::Finish(Err(ElectionError::UnexpectedMissingValue)),
                        ElectionEvent::Read(Ok(Some(e))) => if leader_alive_at(&e.value, now) {
                            ElectionAction::Finish(Ok(ElectionReply::Flag(false)))
                        } else {
                            ElectionAction::Update { value: e.value.start_new_term_at(node_id.as_str(), now), revision: e.revision }
                        },
                        ElectionEvent::Updated(Ok(Some(_))) => {
                            return (
                                ElectionOperation::StartElection { node_id, total_nodes, phase: CampaignPhase::Canvassing },
                                ElectionAction::Read,
                            );
                        },
                        ElectionEvent::Updated(Ok(None)) => ElectionAction::Sleep { min_ms: 20, max_ms: 100 },
                        ElectionEvent::Updated(Err(err)) => ElectionAction::Finish(Err(ElectionError::UpdateFailed(err))),
                        _ => ElectionAction::Read,
                    };
                    (ElectionOperation::StartElection { node_id, total_nodes, phase }, action)
                },
                CampaignPhase::Canvassing => {
                    let action = match event {
                        ElectionEvent::Read(Err(err)) => ElectionAction::Finish(Err(ElectionError::ReadFailed(err))),
                        ElectionEvent::Read(Ok(None)) => ElectionAction::Finish(Err(ElectionError::UnexpectedMissingValue)),
                        ElectionEvent::Read(Ok(Some(e))) => if e.value.leader_id.is_some() {
                            ElectionAction::Finish(Ok(ElectionReply::Flag(false)))
                        } else {
                            match e.value.elect_leader_at(node_id.as_str(), total_nodes, now) {
                                Some(won) => ElectionAction::Update { value: won, revision: e.revision },
                                None => ElectionAction::Sleep { min_ms: 50, max_ms: 150 },
                            }
                        },
                        ElectionEvent::Updated(Ok(Some(_))) => ElectionAction::Finish(Ok(ElectionReply::Flag(true))),
                        ElectionEvent::Updated(Ok(None)) => ElectionAction::Sleep { min_ms: 20, max_ms: 100 },
                        ElectionEvent::Updated(Err(err)) => ElectionAction::Finish(Err(ElectionError::UpdateFailed(err))),
                        _ => ElectionAction::Read,
                    };
                    (ElectionOperation::StartElection { node_id, total_nodes, phase }, action)
                },
            },
            ElectionOperation::SendHeartbeat { node_id } => {
                let action = match event {
                    ElectionEvent::Read(Err(err)) => ElectionAction::Finish(Err(ElectionError::ReadFailed(err))),
                    ElectionEvent::Read(Ok(None)) => ElectionAction::Finish(Err(ElectionError::UnexpectedMissingValue)),
                    ElectionEvent::Read(Ok(Some(e))) => if !is_id(&e.value.leader_id, &node_id) {
                        ElectionAction::Finish(Err(ElectionError::NotLeader))
                    } else {
                        ElectionAction::Update { value: e.value.update_heartbeat_at(now), revision: e.revision }
                    },
                    ElectionEvent::Updated(outcome) => after_own_update(outcome),
                    _ => ElectionAction::Read,
                };
                (ElectionOperation::SendHeartbeat { node_id }, action)
            },
            ElectionOperation::IsLeader { node_id } => {
                let action = match event {
                    ElectionEvent::Read(Err(err)) => ElectionAction::Finish(Err(ElectionError::ReadFailed(err))),
                    ElectionEvent::Read(Ok(None)) => ElectionAction::Finish(Ok(ElectionReply::Flag(false))),
                    ElectionEvent::Read(Ok(Some(e))) => {
                        let is_leader = is_id(&e.value.leader_id, &node_id) && !e.value.is_leader_timeout_at(now);
                        ElectionAction::Finish(Ok(ElectionReply::Flag(is_leader)))
                    },
                    _ => ElectionAction::Read,
                };
                (ElectionOperation::IsLeader { node_id }, action)
            },
            ElectionOperation::GetLeader => match event {
                ElectionEvent::Read(Err(err)) => (op, ElectionAction::Finish(Err(ElectionError::ReadFailed(err)))),
                ElectionEvent::Read(Ok(None)) => (op, ElectionAction::Finish(Ok(ElectionReply::Leader(None)))),
                ElectionEvent::Read(Ok(Some(e))) => if e.value.is_leader_timeout_at(now) {
                    (op, ElectionAction::Finish(Ok(ElectionReply::Leader(None))))
                } else {
                    (op, ElectionAction::Finish(Ok(ElectionReply::Leader(e.value.leader_id))))
                },
                _ => (op, ElectionAction::Read),
            },
            ElectionOperation::VoteFor { voter_id, candidate_id, electing } => if electing {
                let action = match event {
                    ElectionEvent::Updated(outcome) => after_own_update(outcome),
                    _ => ElectionAction::Read,
                };
                (ElectionOperation::VoteFor { voter_id, candidate_id, electing: false }, action)
            } else {
                let action = match event {
                    ElectionEvent::Read(Err(err)) => ElectionAction::Finish(Err(ElectionError::ReadFailed(err))),
                    ElectionEvent::Read(Ok(None)) => ElectionAction::Finish(Err(ElectionError::UnexpectedMissingValue)),
                    ElectionEvent::Read(Ok(Some(e))) => if leader_alive_at(&e.value, now) {
                        ElectionAction::Finish(Ok(ElectionReply::Unit))
                    } else {
                        let voted = e.value.add_vote(voter_id.as_str());
                        assert(voted.voters@.len() == voted@.voters.len());
                        assert(e.value.voters@.len() == e.value@.voters.len());
                        let electorate: usize = voted.voters.len() + 1;
                        match voted.elect_leader_at(candidate_id.as_str(), electorate, now) {
                            Some(won) => {
                                return (
                                    ElectionOperation::VoteFor { voter_id, candidate_id, electing: true },
                                    ElectionAction::Update { value: won, revision: e.revision },
                                );
                            },
                            None => ElectionAction::Update { value: voted, revision: e.revision },
                        }
                    },
                    ElectionEvent::Updated(outcome) => after_own_update(outcome),
                    _ => ElectionAction::Read,
                };
                (ElectionOperation::VoteFor { voter_id, candidate_id, electing }, action)
            },
            ElectionOperation::StepDown { node_id } => {
                let action = match event {
                    ElectionEvent::Read(Err(err)) => ElectionAction::Finish(Err(ElectionError::ReadFailed(err))),
                    ElectionEvent::Read(Ok(None)) => ElectionAction::Finish(Err(ElectionError::UnexpectedMissingValue)),
                    ElectionEvent::Read(Ok(Some(e))) => if !is_id(&e.value.leader_id, &node_id) {
                        ElectionAction::Finish(Err(ElectionError::NotLeader))
                    } else {
                        ElectionAction::Update { value: e.value.step_down_at(now), revision: e.revision }
                    },
                    ElectionEvent::Updated(outcome) => after_own_update(outcome),
                    _ => ElectionAction::Read,
                };
                (ElectionOperation::StepDown { node_id }, action)
            },
        }
    }

    /// Feed the task the outcome of the action it asked for, the time being
    /// `now`; get the task's next state and its next action.
    pub fn step(self, event: ElectionEvent, now: u64) -> (r: (ElectionTask, ElectionAction))
        requires
            self.accepts(event@),
            !self.counter_overflow(event@, now),
        ensures
            (r.0.op, r.1@) == Self::spec_decide(self.op, event@, now),
            r.0.awaiting == election_awaiting_after(r.1@),
    {
        let (op, action) = Self::decide(self.op, event, now);
        let awaiting = match &action {
            ElectionAction::Read => ElectionAwaiting::Read,
            ElectionAction::Update { .. } => ElectionAwaiting::Update,
            ElectionAction::Create { .. } => ElectionAwaiting::Create,
            ElectionAction::Sleep { .. } => ElectionAwaiting::Sleep,
            ElectionAction::Finish(_) => ElectionAwaiting::Nothing,
        };
        (ElectionTask { op, awaiting }, action)
    }
}

/// Whether the leader of `v` is there and has not timed out at `now`.
fn leader_alive_at(v: &ElectionValue, now: u64) -> (b: bool)
    ensures
        b == leader_alive(v@, now),
{
    v.leader_id.is_some() && !v.is_leader_timeout_at(now)
}

/// What an update of the leader's own entry leads to.
fn after_own_update(outcome: Result<Option<u64>, KvWriteError>) -> (a: ElectionAction)
    ensures
        a@ == spec_after_own_update(outcome),
{
    match outcome {
        Ok(Some(_)) => ElectionAction::Finish(Ok(ElectionReply::Unit)),
        Ok(None) => ElectionAction::Sleep { min_ms: 20, max_ms: 100 },
        Err(err) => ElectionAction::Finish(Err(ElectionError::UpdateFailed(err))),
    }
}

/// Voting is idempotent and keeps the voters free of duplicates: after
/// `add_vote(x)` the voter `x` is counted exactly once, the other fields
/// are unchanged, and voting again changes nothing.
pub proof fn lemma_add_vote(v: ElectionState, x: Seq<char>)
    requires
        v.voters.no_duplicates(),
    ensures
        v.spec_add_vote(x).voters.contains(x),
        v.spec_add_vote(x).voters.no_duplicates(),
        v.spec_add_vote(x).spec_add_vote(x) == v.spec_add_vote(x),
        v.spec_add_vote(x).leader_id == v.leader_id,
        v.spec_add_vote(x).term == v.term,
        v.spec_add_vote(x).last_heartbeat == v.last_heartbeat,
        v.spec_add_vote(x).voters.len() <= v.voters.len() + 1,
{
    let r = v.spec_add_vote(x);
    if !v.voters.contains(x) {
        assert(r.voters[v.voters.len() as int] == x);
        assert forall|i: int, j: int| 0 <= i < r.voters.len() && 0 <= j < r.voters.len() && i != j
            implies r.voters[i] != r.voters[j] by {
            if i < v.voters.len() && j < v.voters.len() {
            } else if i == v.voters.len() {
                assert(v.voters[j] == r.voters[j]);
            } else {
                assert(v.voters[i] == r.voters[i]);
            }
        }
    }
}

/// A new term has exactly one voter, the candidate, and no leader; it
/// follows the term it was opened from.
pub proof fn lemma_new_term(v: ElectionState, node_id: Seq<char>, now: u64)
    requires
        v.term < u64::MAX,
    ensures
        v.spec_start_new_term_at(node_id, now).term == v.term + 1,
        v.spec_start_new_term_at(node_id, now).leader_id is None,
        v.spec_start_new_term_at(node_id, now).voters == seq![node_id],
        v.spec_start_new_term_at(node_id, now).voters.no_duplicates(),
{
}

/// A leader is only ever installed by a majority: whenever an election
/// operation writes an election state with a leader that it did not read,
/// the voters of that state are more than half of the electorate the vote
/// was counted against, and the term is the one read.
pub proof fn lemma_leader_needs_majority(op: ElectionOperation, v: ElectionState, revision: u64, now: u64)
    requires
        v.leader_id is None,
    ensures
        ({
            let (_, a) = ElectionTask::spec_decide(op, ElectionEventView::Read(Ok(Some((v, revision)))), now);
            match a {
                ElectionActionView::Update { value, .. } => value.leader_id is Some ==> {
                    &&& value.term == v.term
                    &&& match op {
                        ElectionOperation::StartElection { node_id, total_nodes, phase: CampaignPhase::Canvassing } =>
                            value.voters.len() > total_nodes / 2 && value.leader_id == Some(node_id@),
                        ElectionOperation::VoteFor { candidate_id, electing: false, .. } =>
                            value.voters.len() > (value.voters.len() + 1) / 2 && value.leader_id == Some(candidate_id@),
                        _ => false,
                    }
                },
                _ => true,
            }
        }),
{
}

/// Terms never go back: every election state an operation writes has the
/// term it read, or the next one when a new election is opened.
pub proof fn lemma_terms_never_decrease(op: ElectionOperation, v: ElectionState, revision: u64, now: u64)
    requires
        v.term < u64::MAX,
    ensures
        ({
            let (_, a) = ElectionTask::spec_decide(op, ElectionEventView::Read(Ok(Some((v, revision)))), now);
            match a {
                ElectionActionView::Update { value, .. } =>
                    value.term == v.term || (value.term == v.term + 1 && op is StartElection),
                _ => true,
            }
        }),
{
}

/// Only the leader renews or gives up the leadership: a heartbeat or a
/// step-down writes only when the node is the leader it read, and otherwise
/// fails with `NotLeader`.
pub proof fn lemma_only_leader_acts(node_id: String, v: ElectionState, revision: u64, now: u64)
    ensures
        ({
            let ev = ElectionEventView::Read(Ok(Some((v, revision))));
            let hb = ElectionTask::spec_decide(ElectionOperation::SendHeartbeat { node_id }, ev, now).1;
            let sd = ElectionTask::spec_decide(ElectionOperation::StepDown { node_id }, ev, now).1;
            &&& v.leader_id == Some(node_id@) ==> hb == (ElectionActionView::Update { value: v.spec_update_heartbeat_at(now), revision })
            &&& v.leader_id == Some(node_id@) ==> sd == (ElectionActionView::Update { value: v.spec_step_down_at(now), revision })
            &&& v.leader_id != Some(node_id@) ==> hb == ElectionActionView::Finish(Err(ElectionError::NotLeader))
            &&& v.leader_id != Some(node_id@) ==> sd == ElectionActionView::Finish(Err(ElectionError::NotLeader))
        }),
{
}

/// A live leader is never challenged: while the leader read has not timed
/// out, opening a new election answers `false` and a vote changes nothing,
/// and neither writes.
pub proof fn lemma_live_leader_kept(
    node_id: String,
    total_nodes: usize,
    voter_id: String,
    candidate_id: String,
    v: ElectionState,
    revision: u64,
    now: u64,
)
    requires
        leader_alive(v, now),
    ensures
        ElectionTask::spec_decide(
            ElectionOperation::StartElection { node_id, total_nodes, phase: CampaignPhase::Opening },
            ElectionEventView::Read(Ok(Some((v, revision)))),
            now,
        ).1 == reply(ElectionReplyView::Flag(false)),
        ElectionTask::spec_decide(
            ElectionOperation::VoteFor { voter_id, candidate_id, electing: false },
            ElectionEventView::Read(Ok(Some((v, revision)))),
            now,
        ).1 == reply(ElectionReplyView::Unit),
{
}

/// A node is told it is the leader exactly when the entry names it as the
/// leader and its last heartbeat is at most 10 seconds old; the reported
/// leader is the one named unless it timed out.
pub proof fn lemma_leader_queries(node_id: String, v: ElectionState, revision: u64, now: u64)
    ensures
        ElectionTask::spec_decide(ElectionOperation::IsLeader { node_id }, ElectionEventView::Read(Ok(Some((v, revision)))), now).1
            == reply(ElectionReplyView::Flag(v.leader_id == Some(node_id@) && !v.spec_is_leader_timeout_at(now))),
        ElectionTask::spec_decide(ElectionOperation::GetLeader, ElectionEventView::Read(Ok(Some((v, revision)))), now).1
            == reply(ElectionReplyView::Leader(if v.spec_is_leader_timeout_at(now) { None } else { v.leader_id })),
{
}

/// A vote only succeeds by writing: a write that lost its race, counted
/// vote or installed leader alike, is followed by a pause and a fresh read,
/// never by success.
pub proof fn lemma_vote_retries_lost_race(voter_id: String, candidate_id: String, electing: bool, now: u64)
    ensures
        ({
            let (op, action) = ElectionTask::spec_decide(
                ElectionOperation::VoteFor { voter_id, candidate_id, electing },
                ElectionEventView::Updated(Ok(None)),
                now,
            );
            &&& action == spec_election_race_pause()
            &&& op == ElectionOperation::VoteFor { voter_id, candidate_id, electing: false }
        }),
{
}

/// A campaign first makes sure the election entry exists. In its
/// initializing phase, reading no entry asks to create the fresh election
/// state (no leader, term 0, no voters, heartbeat `now`) and waits for that
/// creation; whatever the creation gives, the campaign then reads the entry
/// to open a new term. The initializing phase never ends the campaign: it
/// only ever creates the entry or moves on to read it.
pub proof fn lemma_campaign_creates_missing_entry(
    node_id: String,
    total_nodes: usize,
    created: Result<u64, KvWriteError>,
    event: ElectionEventView,
    now: u64,
)
    ensures
        ElectionTask::spec_decide(
            ElectionOperation::StartElection { node_id, total_nodes, phase: CampaignPhase::Initializing },
            ElectionEventView::Read(Ok(None)),
            now,
        ) == (
            ElectionOperation::StartElection { node_id, total_nodes, phase: CampaignPhase::Initializing },
            ElectionActionView::Create {
                value: ElectionState { leader_id: None, term: 0, last_heartbeat: now, voters: Seq::empty() },
            },
        ),
        ElectionTask::spec_decide(
            ElectionOperation::StartElection { node_id, total_nodes, phase: CampaignPhase::Initializing },
            ElectionEventView::Created(created),
            now,
        ) == (
            ElectionOperation::StartElection { node_id, total_nodes, phase: CampaignPhase::Opening },
            ElectionActionView::Read,
        ),
        ({
            let a = ElectionTask::spec_decide(
                ElectionOperation::StartElection { node_id, total_nodes, phase: CampaignPhase::Initializing },
                event,
                now,
            ).1;
            a is Create || a is Read
        }),
{
}

/// A candidate is told it won only once its own claim was written: a
/// campaign answers `true` only in its canvassing phase, on the success of
/// the update it asked for, and the only update it asks for there installs
/// it as the leader of the term it read, with a majority of the
/// `total_nodes` nodes as voters.
pub proof fn lemma_win_only_after_claim_written(
    node_id: String,
    total_nodes: usize,
    phase: CampaignPhase,
    event: ElectionEventView,
    now: u64,
)
    ensures
        ({
            let op = ElectionOperation::StartElection { node_id, total_nodes, phase };
            let a = ElectionTask::spec_decide(op, event, now).1;
            &&& a == reply(ElectionReplyView::Flag(true)) ==> phase == CampaignPhase::Canvassing
                && (event matches ElectionEventView::Updated(Ok(Some(_))))
            &&& phase == CampaignPhase::Canvassing ==> (a matches ElectionActionView::Update { value, .. } ==> {
                &&& event matches ElectionEventView::Read(Ok(Some((v, _))))
                &&& value.leader_id == Some(node_id@)
                &&& value.term == v.term
                &&& value.voters == v.voters
                &&& value.voters.len() > total_nodes / 2
                &&& value.last_heartbeat == now
            })
        }),
{
}

/// Why running a processor only on the leader failed.
#[derive(Debug, PartialEq, Eq)]
pub enum LeaderGuardError {
    /// This node is not the leader; the processor did not run.
    NotLeader,
    /// Asking who leads failed.
    ElectionError(ElectionError),
}

impl From<ElectionError> for LeaderGuardError {
    fn from(err: ElectionError) -> (r: Self)
        ensures
            r == LeaderGuardError::ElectionError(err),
    {
        LeaderGuardError::ElectionError(err)
    }
}

impl vstd::std_specs::convert::FromSpecImpl<ElectionError> for LeaderGuardError {
    open spec fn obeys_from_spec() -> bool {
        true
    }

    open spec fn from_spec(err: ElectionError) -> Self {
        LeaderGuardError::ElectionError(err)
    }
}

/// Whether a processor guarded by the election may run, once asking
/// whether this node leads gave `is_leader`: only on the leader.
pub fn leader_guard(is_leader: Result<bool, ElectionError>) -> (r: Result<(), LeaderGuardError>)
    ensures
        match is_leader {
            Ok(true) => r == Ok::<(), LeaderGuardError>(()),
            Ok(false) => r == Err::<(), LeaderGuardError>(LeaderGuardError::NotLeader),
            Err(e) => r == Err::<(), LeaderGuardError>(LeaderGuardError::ElectionError(e)),
        },
{
    match is_leader {
        Ok(true) => Ok(()),
        Ok(false) => Err(LeaderGuardError::NotLeader),
        Err(e) => Err(LeaderGuardError::from(e)),
    }
}

} // verus!
