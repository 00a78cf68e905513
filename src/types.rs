use vstd::prelude::*;

verus! {

/// The role a node plays in the cluster.
#[derive(Clone, Copy, Debug, PartialEq, Eq, Structural)]
pub enum Role {
    Follower,
    Candidate,
    Leader,
}

/// A network endpoint: an IPv4 address (four octets, most significant first)
/// and a port.
#[derive(Clone, Copy, Debug, PartialEq, Eq, Structural)]
pub struct Endpoint {
    pub ip: u32,
    pub port: u16,
}

/// Another member of the cluster.
#[derive(Clone, Debug)]
pub struct Peer {
    pub id: String,
    pub address: Endpoint,
}

/// The most recently acknowledged leader and the term it led.
#[derive(Clone, Debug)]
pub struct Leader {
    pub id: String,
    pub term: u64,
}

/// A candidate's request for a vote in `term`.
#[derive(Clone, Debug)]
pub struct VoteRequest {
    pub term: u64,
    pub candidate_id: String,
}

/// A voter's answer to a `VoteRequest`.
#[derive(Clone, Copy, Debug, PartialEq, Eq, Structural)]
pub struct VoteResponse {
    pub term: u64,
    pub vote_granted: bool,
}

/// A message from a leader. Only the heartbeat is used by leader election.
#[derive(Clone, Debug)]
pub enum LogEntry {
    Heartbeat { term: u64, peer_id: String },
}

/// Per-node configuration: the election timeout in milliseconds.
#[derive(Clone, Copy, Debug, PartialEq, Eq, Structural)]
pub struct ServerConfig {
    pub timeout: u64,
}

/// The state of one node.
///
/// `next_timeout` is an absolute deadline in milliseconds of the caller's
/// monotonic clock; `timeout_duration` is the interval that re-arms it.
#[derive(Clone, Debug)]
pub struct Server {
    pub id: String,
    pub address: Endpoint,
    pub peer_count: u64,
    pub term: u64,
    pub role: Role,
    pub voted_for: Option<String>,
    pub current_leader: Option<Leader>,
    pub next_timeout: Option<u64>,
    pub timeout_duration: u64,
    pub started: bool,
}

/// The deadline `d` milliseconds after `now`, held at the end of the clock
/// where the sum would not fit.
pub open spec fn deadline(now: u64, d: u64) -> u64 {
    if now + d > u64::MAX {
        u64::MAX
    } else {
        (now + d) as u64
    }
}

impl Server {
    /// A leader has voted for itself and sees itself as leader of its term.
    pub open spec fn leader_backs_itself(&self) -> bool {
        self.role == Role::Leader ==> {
            &&& self.voted_for == Some(self.id)
            &&& self.current_leader == Some(Leader { id: self.id, term: self.term })
        }
    }

    /// No election timer runs while leading; one runs in the other roles once
    /// the node has been started, and always while it is a candidate.
    pub open spec fn timer_matches_role(&self) -> bool {
        &&& (self.role == Role::Leader ==> self.next_timeout.is_none())
        &&& (self.role == Role::Candidate ==> self.next_timeout.is_some())
        &&& (self.role == Role::Follower && self.started ==> self.next_timeout.is_some())
    }

    /// The invariant of a node: the two above, and a candidate has voted for
    /// itself.
    pub open spec fn wf(&self) -> bool {
        &&& self.leader_backs_itself()
        &&& self.timer_matches_role()
        &&& (self.role == Role::Candidate ==> self.voted_for == Some(self.id))
    }
}

} // verus!
