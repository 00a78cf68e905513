use vstd::prelude::*;
use crate::types::{deadline, Endpoint, Leader, Role, Server, ServerConfig};

verus! {

/// The node after `start` at `now`: a node that was not started becomes
/// started and, unless it leads, arms its election timer; a started node is
/// left as it is.
pub open spec fn after_start(s: Server, now: u64) -> Server {
    if s.started {
        s
    } else if s.role == Role::Leader {
        Server { started: true, ..s }
    } else {
        Server { started: true, next_timeout: Some(deadline(now, s.timeout_duration)), ..s }
    }
}

/// Whether the election timer of `s` has run out at `now`.
pub open spec fn timed_out(s: Server, now: u64) -> bool {
    &&& s.started
    &&& s.role != Role::Leader
    &&& s.next_timeout.is_some()
    &&& now >= s.next_timeout.unwrap()
}

/// The node promoted to leader of its current term.
pub open spec fn promoted(s: Server) -> Server {
    Server {
        role: Role::Leader,
        next_timeout: None,
        current_leader: Some(Leader { id: s.id, term: s.term }),
        ..s
    }
}

/// The node after it saw a message of `term`, above its own, at `now`: it
/// adopts the term and becomes a follower with no vote and a re-armed timer.
pub open spec fn adopted(s: Server, term: u64, now: u64) -> Server {
    Server {
        term,
        role: Role::Follower,
        voted_for: None,
        next_timeout: Some(deadline(now, s.timeout_duration)),
        ..s
    }
}

/// The deadline that re-arming the timer at `now` sets.
pub fn deadline_after(now: u64, d: u64) -> (r: u64)
    ensures
        r == deadline(now, d),
{
    if now <= u64::MAX - d {
        now + d
    } else {
        u64::MAX
    }
}

impl Server {
    /// An inert follower at term 0, with no vote, no known leader and no
    /// running timer.
    pub fn new(config: ServerConfig, peer_count: u64, address: Endpoint, id: String) -> (r: Server)
        ensures
            r.id == id,
            r.address == address,
            r.peer_count == peer_count,
            r.term == 0,
            r.role == Role::Follower,
            r.voted_for.is_none(),
            r.current_leader.is_none(),
            r.next_timeout.is_none(),
            r.timeout_duration == config.timeout,
            !r.started,
            r.wf(),
    {
        Server {
            id,
            address,
            peer_count,
            term: 0,
            role: Role::Follower,
            voted_for: None,
            current_leader: None,
            next_timeout: None,
            timeout_duration: config.timeout,
            started: false,
        }
    }

    /// Activates the node at `now`. Calling it on a started node changes
    /// nothing.
    pub fn start(&mut self, now: u64)
        ensures
            *final(self) == after_start(*old(self), now),
            old(self).wf() ==> final(self).wf(),
    {
        if !self.started {
            self.started = true;
            if self.role != Role::Leader {
                self.next_timeout = Some(deadline_after(now, self.timeout_duration));
            }
        }
    }

    /// Whether the election timer has run out at `now`. A leader, and a node
    /// that was never started, never times out.
    pub fn has_timed_out(&self, now: u64) -> (r: bool)
        ensures
            r == timed_out(*self, now),
    {
        if !self.started || self.role == Role::Leader {
            return false;
        }
        match self.next_timeout {
            Some(t) => now >= t,
            None => false,
        }
    }

    /// Re-arms the election timer: it runs out `timeout_duration` after `now`.
    pub fn refresh_timeout(&mut self, now: u64)
        ensures
            *final(self) == (Server {
                next_timeout: Some(deadline(now, old(self).timeout_duration)),
                ..*old(self)
            }),
            old(self).wf() && old(self).role != Role::Leader ==> final(self).wf(),
    {
        self.next_timeout = Some(deadline_after(now, self.timeout_duration));
    }

    /// Adopts `term`, above the node's own, seen in a message at `now`: the
    /// node follows in that term, with no vote and a re-armed timer.
    pub fn adopt_term(&mut self, term: u64, now: u64)
        requires
            term > old(self).term,
        ensures
            *final(self) == adopted(*old(self), term, now),
            old(self).wf() ==> final(self).wf(),
    {
        self.term = term;
        self.role = Role::Follower;
        self.voted_for = None;
        self.refresh_timeout(now);
    }

    /// Turns a candidate into the leader of its current term: the timer stops
    /// and the node records itself as leader.
    pub fn become_leader(&mut self)
        requires
            old(self).role == Role::Candidate,
        ensures
            *final(self) == promoted(*old(self)),
            old(self).wf() ==> final(self).wf(),
    {
        self.role = Role::Leader;
        self.next_timeout = None;
        self.current_leader = Some(Leader { id: self.id.clone(), term: self.term });
    }
}

} // verus!
