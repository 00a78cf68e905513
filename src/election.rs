use vstd::prelude::*;
use crate::types::{deadline, LogEntry, Role, Server, VoteRequest, VoteResponse};
use crate::node::{adopted, promoted, timed_out};

verus! {

/// The node after it starts a candidacy at `now`: a leader never does; any
/// other node becomes a candidate of the next term, votes for itself and
/// re-arms its timer.
pub open spec fn after_candidacy(s: Server, now: u64) -> Server {
    if s.role == Role::Leader {
        s
    } else {
        Server {
            role: Role::Candidate,
            term: (s.term + 1) as u64,
            next_timeout: Some(deadline(now, s.timeout_duration)),
            voted_for: Some(s.id),
            ..s
        }
    }
}

/// The number of granted votes among `rs`.
pub open spec fn granted_count(rs: Seq<VoteResponse>) -> nat
    decreases rs.len(),
{
    if rs.len() == 0 {
        0
    } else {
        granted_count(rs.drop_last()) + if rs.last().vote_granted { 1nat } else { 0nat }
    }
}

/// The highest term among `rs`, 0 where there is none.
pub open spec fn highest_term(rs: Seq<VoteResponse>) -> u64
    decreases rs.len(),
{
    if rs.len() == 0 {
        0
    } else if rs.last().term > highest_term(rs.drop_last()) {
        rs.last().term
    } else {
        highest_term(rs.drop_last())
    }
}

/// `votes` is a strict majority of a cluster of `n` nodes.
pub open spec fn majority(n: int, votes: int) -> bool {
    votes > n / 2
}

/// A candidate wins with `granted` votes of its peers and its own.
pub open spec fn wins(s: Server, granted: int) -> bool {
    s.role == Role::Candidate && majority(s.peer_count + 1, granted + 1)
}

/// The heartbeat that a node sends as leader of its term.
pub open spec fn heartbeat_of(s: Server) -> LogEntry {
    LogEntry::Heartbeat { term: s.term, peer_id: s.id }
}

/// The node after the votes of its peers came back at `now`, `granted` of
/// them granted and the highest of their terms `highest`: a voter with a term
/// above the node's own makes it a follower of that term; otherwise it leads
/// if it won and its timer did not run out meanwhile.
pub open spec fn after_tally(s: Server, granted: int, highest: u64, now: u64) -> Server {
    if highest > s.term {
        adopted(s, highest, now)
    } else if wins(s, granted) && !timed_out(s, now) {
        promoted(s)
    } else {
        s
    }
}

/// Starts a candidacy at `now` and returns the request to send to every
/// peer; a leader starts none and returns `None`.
pub fn prepare_vote_request(server: &mut Server, now: u64) -> (r: Option<VoteRequest>)
    requires
        old(server).role != Role::Leader ==> old(server).term < u64::MAX,
    ensures
        *final(server) == after_candidacy(*old(server), now),
        r.is_some() <==> old(server).role != Role::Leader,
        r.is_some() ==> r.unwrap().term == final(server).term && r.unwrap().candidate_id
            == final(server).id,
        final(server).term >= old(server).term,
        old(server).wf() ==> final(server).wf(),
{
    if server.role == Role::Leader {
        return None;
    }
    server.role = Role::Candidate;
    server.term = server.term + 1;
    server.refresh_timeout(now);
    server.voted_for = Some(server.id.clone());
    Some(VoteRequest { term: server.term, candidate_id: server.id.clone() })
}

/// Starts an election if the timer has run out at `now`: returns the vote
/// request to send, or `None` (and the node unchanged) where no election is
/// due.
pub fn handle_timeout(server: &mut Server, now: u64) -> (r: Option<VoteRequest>)
    requires
        timed_out(*old(server), now) ==> old(server).term < u64::MAX,
    ensures
        timed_out(*old(server), now) ==> *final(server) == after_candidacy(*old(server), now),
        !timed_out(*old(server), now) ==> *final(server) == *old(server),
        r.is_some() <==> timed_out(*old(server), now),
        r.is_some() ==> r.unwrap().term == final(server).term && r.unwrap().candidate_id
            == final(server).id,
        old(server).wf() ==> final(server).wf(),
{
    if server.has_timed_out(now) {
        prepare_vote_request(server, now)
    } else {
        None
    }
}

/// Whether the responses give the node a strict majority of the cluster,
/// counting its own vote, while it is still a candidate.
pub fn has_won_the_election(server: &Server, responses: &Vec<VoteResponse>) -> (r: bool)
    ensures
        r == wins(*server, granted_count(responses@) as int),
{
    let mut votes: u64 = 0;
    let mut i: usize = 0;
    while i < responses.len()
        invariant
            i <= responses.len(),
            votes <= i,
            votes == granted_count(responses@.take(i as int)),
        decreases responses.len() - i,
    {
        assert(responses@.take(i as int + 1).drop_last() =~= responses@.take(i as int));
        if responses[i].vote_granted {
            votes = votes + 1;
        }
        i = i + 1;
    }
    assert(responses@.take(i as int) =~= responses@);
    let half: u64 = server.peer_count / 2 + server.peer_count % 2;
    assert(half == (server.peer_count + 1) / 2);
    votes >= half && server.role == Role::Candidate
}

/// Promotes a candidate to leader and returns the heartbeat to broadcast at
/// once.
pub fn become_leader(server: &mut Server) -> (r: LogEntry)
    requires
        old(server).role == Role::Candidate,
    ensures
        *final(server) == promoted(*old(server)),
        r == heartbeat_of(*final(server)),
        old(server).wf() ==> final(server).wf(),
{
    server.become_leader();
    LogEntry::Heartbeat { term: server.term, peer_id: server.id.clone() }
}

/// The highest term among the responses, 0 where there is none.
pub fn highest_response_term(responses: &Vec<VoteResponse>) -> (r: u64)
    ensures
        r == highest_term(responses@),
{
    let mut highest: u64 = 0;
    let mut i: usize = 0;
    while i < responses.len()
        invariant
            i <= responses.len(),
            highest == highest_term(responses@.take(i as int)),
        decreases responses.len() - i,
    {
        assert(responses@.take(i as int + 1).drop_last() =~= responses@.take(i as int));
        if responses[i].term > highest {
            highest = responses[i].term;
        }
        i = i + 1;
    }
    assert(responses@.take(i as int) =~= responses@);
    highest
}

/// Ends an election once the peers' responses came back at `now`. A response
/// with a term above the node's own makes it a follower of the highest such
/// term, with no vote. Otherwise a node that won and has not timed out
/// meanwhile becomes leader and returns the heartbeat to broadcast, and any
/// other stays as it is. `None` is returned unless the node became leader.
pub fn conclude_election(server: &mut Server, responses: &Vec<VoteResponse>, now: u64) -> (r:
    Option<LogEntry>)
    ensures
        *final(server) == after_tally(
            *old(server),
            granted_count(responses@) as int,
            highest_term(responses@),
            now,
        ),
        highest_term(responses@) > old(server).term ==> final(server).role == Role::Follower
            && final(server).term == highest_term(responses@) && final(server).voted_for.is_none()
            && r.is_none(),
        r.is_some() <==> final(server).role == Role::Leader && old(server).role
            == Role::Candidate,
        r.is_some() ==> r.unwrap() == heartbeat_of(*final(server)),
        final(server).term >= old(server).term,
        old(server).role == Role::Leader ==> (*final(server) == *old(server) || final(server).role
            == Role::Follower),
        old(server).wf() ==> final(server).wf(),
{
    let highest = highest_response_term(responses);
    if highest > server.term {
        server.adopt_term(highest, now);
        return None;
    }
    let won = has_won_the_election(server, responses);
    if won && !server.has_timed_out(now) {
        Some(become_leader(server))
    } else {
        None
    }
}

/// The heartbeat to broadcast while leading; `None` in the other roles.
pub fn broadcast_heartbeat(server: &Server) -> (r: Option<LogEntry>)
    ensures
        r.is_some() <==> server.role == Role::Leader,
        r.is_some() ==> r.unwrap() == heartbeat_of(*server),
{
    if server.role == Role::Leader {
        Some(LogEntry::Heartbeat { term: server.term, peer_id: server.id.clone() })
    } else {
        None
    }
}

} // verus!
