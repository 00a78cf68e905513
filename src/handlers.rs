use vstd::prelude::*;
use crate::types::{deadline, Leader, LogEntry, Role, Server, VoteRequest, VoteResponse};
use crate::node::adopted;

verus! {

/// Whether `s` grants the vote that `req` asks for: only a node that has not
/// voted, and only for a term above its own.
pub open spec fn grants_vote(s: Server, req: VoteRequest) -> bool {
    s.voted_for.is_none() && req.term > s.term
}

/// The answer to `req`: the voter's term after handling it, and whether the
/// vote was granted.
pub open spec fn vote_response(s: Server, req: VoteRequest) -> VoteResponse {
    VoteResponse {
        term: if req.term > s.term { req.term } else { s.term },
        vote_granted: grants_vote(s, req),
    }
}

/// The node after answering `req` at `now`. A term above the node's own is
/// adopted: the node follows in it, with its old vote cleared and its timer
/// re-armed, and records a vote for the candidate only if it had recorded
/// none before. Any other request changes nothing.
pub open spec fn after_vote_request(s: Server, req: VoteRequest, now: u64) -> Server {
    if req.term > s.term {
        if s.voted_for.is_none() {
            Server { voted_for: Some(req.candidate_id), ..adopted(s, req.term, now) }
        } else {
            adopted(s, req.term, now)
        }
    } else {
        s
    }
}

/// The node after a heartbeat of `term` from `peer_id` at `now`.
///
/// The election timer is re-armed whatever the heartbeat's term, except on a
/// leader that keeps leading: a leader runs no timer. A term above the node's
/// own is adopted, and the node follows the sender with its vote cleared. A
/// candidate that hears a heartbeat of its own term stays a candidate.
pub open spec fn after_heartbeat(s: Server, term: u64, peer_id: String, now: u64) -> Server {
    if term > s.term {
        Server { current_leader: Some(Leader { id: peer_id, term }), ..adopted(s, term, now) }
    } else if s.role == Role::Leader {
        s
    } else {
        Server { next_timeout: Some(deadline(now, s.timeout_duration)), ..s }
    }
}

/// The node after receiving `entry` at `now`.
pub open spec fn after_log_entry(s: Server, entry: LogEntry, now: u64) -> Server {
    match entry {
        LogEntry::Heartbeat { term, peer_id } => after_heartbeat(s, term, peer_id, now),
    }
}

/// Answers a vote request at `now`. A request with a term above the node's
/// own makes it a follower of that term, with its old vote cleared and its
/// timer re-armed. The vote is granted iff the request's term is above the
/// node's own and the node had recorded no vote; only a granted vote is
/// recorded. The response carries the voter's term after the request.
pub fn handle_vote_request(server: &mut Server, request: VoteRequest, now: u64) -> (r:
    VoteResponse)
    ensures
        r == vote_response(*old(server), request),
        *final(server) == after_vote_request(*old(server), request, now),
        r.vote_granted <==> old(server).voted_for.is_none() && request.term > old(server).term,
        request.term > old(server).term ==> (final(server).term == request.term
            && final(server).role == Role::Follower),
        r.vote_granted ==> final(server).voted_for == Some(request.candidate_id),
        request.term > old(server).term && !r.vote_granted ==> final(server).voted_for.is_none(),
        request.term <= old(server).term ==> *final(server) == *old(server),
        r.term == final(server).term,
        old(server).wf() ==> final(server).wf(),
{
    if request.term > server.term {
        let term = request.term;
        let had_voted = server.voted_for.is_some();
        server.adopt_term(term, now);
        if had_voted {
            VoteResponse { term, vote_granted: false }
        } else {
            server.voted_for = Some(request.candidate_id);
            VoteResponse { term, vote_granted: true }
        }
    } else {
        VoteResponse { term: server.term, vote_granted: false }
    }
}

/// Handles an entry from a leader at `now` and returns the node's term
/// afterwards. A heartbeat with a term above the node's own makes it a
/// follower of the sender in that term, with no vote.
pub fn handle_log_entry(server: &mut Server, entry: LogEntry, now: u64) -> (r: u64)
    ensures
        *final(server) == after_log_entry(*old(server), entry, now),
        r == final(server).term,
        r >= old(server).term,
        old(server).wf() ==> final(server).wf(),
{
    match entry {
        LogEntry::Heartbeat { term, peer_id } => {
            if term > server.term {
                server.adopt_term(term, now);
                server.current_leader = Some(Leader { id: peer_id, term });
            } else if server.role != Role::Leader {
                server.refresh_timeout(now);
            }
        },
    }
    server.term
}

} // verus!
