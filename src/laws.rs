use vstd::prelude::*;
use crate::types::{Leader, LogEntry, Role, Server, VoteRequest};
use crate::node::after_start;
use crate::handlers::{after_log_entry, after_vote_request, vote_response};
use crate::election::{after_candidacy, after_tally, majority, wins};

verus! {

/// One thing that happens to a node, as the library's operations see it.
pub enum Event {
    /// `Server::start` at `now`.
    Start { now: u64 },
    /// `handle_vote_request` with `request` at `now`.
    VoteRequested { request: VoteRequest, now: u64 },
    /// `handle_log_entry` with `entry` at `now`.
    EntryReceived { entry: LogEntry, now: u64 },
    /// `prepare_vote_request` at `now` (also what `handle_timeout` does once
    /// the timer ran out).
    CandidacyStarted { now: u64 },
    /// `conclude_election` at `now` with responses of which `granted` grant
    /// the vote and whose highest term is `highest`.
    VotesCounted { granted: nat, highest: u64, now: u64 },
}

/// Whether the operation behind `e` may run on `s`: starting a candidacy
/// needs room for the next term.
pub open spec fn enabled(s: Server, e: Event) -> bool {
    match e {
        Event::CandidacyStarted { .. } => s.role == Role::Leader || s.term < u64::MAX,
        _ => true,
    }
}

/// The node after `e`.
pub open spec fn next(s: Server, e: Event) -> Server {
    match e {
        Event::Start { now } => after_start(s, now),
        Event::VoteRequested { request, now } => after_vote_request(s, request, now),
        Event::EntryReceived { entry, now } => after_log_entry(s, entry, now),
        Event::CandidacyStarted { now } => after_candidacy(s, now),
        Event::VotesCounted { granted, highest, now } => after_tally(
            s,
            granted as int,
            highest,
            now,
        ),
    }
}

/// The node after the events `es`, in order, starting from `s`.
pub open spec fn run(s: Server, es: Seq<Event>) -> Server
    decreases es.len(),
{
    if es.len() == 0 {
        s
    } else {
        next(run(s, es.drop_last()), es.last())
    }
}

/// Every event of `es` may run on the node it reaches.
pub open spec fn valid_trace(s: Server, es: Seq<Event>) -> bool {
    forall|i: int| 0 <= i < es.len() ==> #[trigger] enabled(run(s, es.take(i)), es[i])
}

/// The terms of the votes that the node granted along `es`, in order.
pub open spec fn granted_terms(s: Server, es: Seq<Event>) -> Seq<u64>
    decreases es.len(),
{
    if es.len() == 0 {
        Seq::empty()
    } else {
        let before = run(s, es.drop_last());
        let earlier = granted_terms(s, es.drop_last());
        match es.last() {
            Event::VoteRequested { request, .. } => if vote_response(before, request).vote_granted {
                earlier.push(request.term)
            } else {
                earlier
            },
            _ => earlier,
        }
    }
}

proof fn lemma_take_step(es: Seq<Event>, i: int)
    requires
        0 <= i < es.len(),
    ensures
        es.take(i + 1).drop_last() == es.take(i),
        es.take(i + 1).last() == es[i],
{
    assert(es.take(i + 1).drop_last() =~= es.take(i));
}

proof fn lemma_step_term(s: Server, e: Event)
    requires
        enabled(s, e),
    ensures
        next(s, e).term >= s.term,
{
}

/// A node's term never decreases: along any trace, each state's term is at
/// least that of every earlier state.
pub proof fn lemma_term_monotone(s: Server, es: Seq<Event>, i: int, j: int)
    requires
        valid_trace(s, es),
        0 <= i <= j <= es.len(),
    ensures
        run(s, es.take(i)).term <= run(s, es.take(j)).term,
    decreases j - i,
{
    if i < j {
        lemma_term_monotone(s, es, i, j - 1);
        lemma_take_step(es, j - 1);
        assert(enabled(run(s, es.take(j - 1)), es[j - 1]));
        lemma_step_term(run(s, es.take(j - 1)), es[j - 1]);
    }
}

proof fn lemma_step_wf(s: Server, e: Event)
    requires
        s.wf(),
        enabled(s, e),
    ensures
        next(s, e).wf(),
{
}

/// From a well-formed node, every state of a trace is well formed: a leader
/// has voted for itself and records itself as leader of its term, and it runs
/// no election timer, while a started follower and every candidate run one.
pub proof fn lemma_invariants_hold(s: Server, es: Seq<Event>, i: int)
    requires
        s.wf(),
        valid_trace(s, es),
        0 <= i <= es.len(),
    ensures
        run(s, es.take(i)).wf(),
        run(s, es.take(i)).role == Role::Leader ==> {
            &&& run(s, es.take(i)).voted_for == Some(run(s, es.take(i)).id)
            &&& run(s, es.take(i)).current_leader.unwrap().id == run(s, es.take(i)).id
            &&& run(s, es.take(i)).current_leader.unwrap().term == run(s, es.take(i)).term
            &&& run(s, es.take(i)).next_timeout.is_none()
        },
        run(s, es.take(i)).role != Role::Leader && (run(s, es.take(i)).started || run(
            s,
            es.take(i),
        ).role == Role::Candidate) ==> run(s, es.take(i)).next_timeout.is_some(),
    decreases i,
{
    if i == 0 {
        assert(es.take(0) =~= Seq::<Event>::empty());
    } else {
        lemma_invariants_hold(s, es, i - 1);
        lemma_take_step(es, i - 1);
        assert(enabled(run(s, es.take(i - 1)), es[i - 1]));
        lemma_step_wf(run(s, es.take(i - 1)), es[i - 1]);
    }
}

/// Seeing a term above its own forces a node to follow in that term with no
/// vote from before: in a heartbeat, in a vote request (whose vote it then
/// grants, in the new term, only if it had recorded no vote), and in a
/// response to its own vote request.
pub proof fn lemma_higher_term_demotes(s: Server, e: Event, term: u64)
    requires
        seen_term(e) == Some(term),
        term > s.term,
    ensures
        next(s, e).role == Role::Follower,
        next(s, e).term == term,
        match e {
            Event::VoteRequested { request, .. } => (s.voted_for.is_none() ==> next(s, e).voted_for
                == Some(request.candidate_id)) && (s.voted_for.is_some() ==> next(
                s,
                e,
            ).voted_for.is_none()),
            _ => next(s, e).voted_for.is_none(),
        },
{
}

/// The term that event `e` shows the node from another node, if any.
pub open spec fn seen_term(e: Event) -> Option<u64> {
    match e {
        Event::VoteRequested { request, .. } => Some(request.term),
        Event::EntryReceived { entry: LogEntry::Heartbeat { term, .. }, .. } => Some(term),
        Event::VotesCounted { highest, .. } => Some(highest),
        _ => None,
    }
}

/// The terms in `t` rise strictly.
pub open spec fn strictly_rising(t: Seq<u64>) -> bool {
    forall|a: int, b: int| 0 <= a < b < t.len() ==> t[a] < t[b]
}

proof fn lemma_votes_rise(s: Server, es: Seq<Event>)
    requires
        valid_trace(s, es),
    ensures
        strictly_rising(granted_terms(s, es)),
        forall|k: int|
            0 <= k < granted_terms(s, es).len() ==> granted_terms(s, es)[k] <= run(s, es).term,
    decreases es.len(),
{
    if es.len() > 0 {
        let n = es.len() - 1;
        let pre = es.drop_last();
        assert forall|i: int| 0 <= i < pre.len() implies #[trigger] enabled(
            run(s, pre.take(i)),
            pre[i],
        ) by {
            assert(pre.take(i) =~= es.take(i));
            assert(enabled(run(s, es.take(i)), es[i]));
        }
        lemma_votes_rise(s, pre);
        assert(es.take(n) =~= pre);
        assert(enabled(run(s, es.take(n)), es[n]));
        lemma_step_term(run(s, pre), es.last());
    }
}

/// A node grants at most one vote per term: along any trace, the terms of
/// the votes it grants rise strictly.
pub proof fn lemma_one_vote_per_term(s: Server, es: Seq<Event>)
    requires
        valid_trace(s, es),
    ensures
        strictly_rising(granted_terms(s, es)),
        forall|a: int, b: int|
            0 <= a < b < granted_terms(s, es).len() ==> granted_terms(s, es)[a]
                != granted_terms(s, es)[b],
{
    lemma_votes_rise(s, es);
}

/// The number of nodes whose vote in `ballot` went to `c`.
pub open spec fn votes_for(ballot: Seq<Option<String>>, c: String) -> nat
    decreases ballot.len(),
{
    if ballot.len() == 0 {
        0
    } else {
        votes_for(ballot.drop_last(), c) + if ballot.last() == Some(c) { 1nat } else { 0nat }
    }
}

proof fn lemma_two_tallies_fit(ballot: Seq<Option<String>>, a: String, b: String)
    requires
        a != b,
    ensures
        votes_for(ballot, a) + votes_for(ballot, b) <= ballot.len(),
    decreases ballot.len(),
{
    if ballot.len() > 0 {
        lemma_two_tallies_fit(ballot.drop_last(), a, b);
    }
}

/// At most one leader per term. `ballot` holds, for one term, the single
/// vote of each node of a cluster of `peer_count + 1` nodes (a candidate's
/// vote being its own). Two candidates `a` and `b` of that term that each win
/// the tally, counting as granted the votes of the ballot other than their
/// own, are the same node.
pub proof fn lemma_one_leader_per_term(ballot: Seq<Option<String>>, a: Server, b: Server)
    requires
        ballot.len() == a.peer_count + 1,
        a.peer_count == b.peer_count,
        a.term == b.term,
        wins(a, votes_for(ballot, a.id) - 1),
        wins(b, votes_for(ballot, b.id) - 1),
    ensures
        a.id == b.id,
{
    lemma_majorities_meet(ballot, a.id, b.id);
}

/// Two strict majorities of one ballot are for the same candidate.
pub proof fn lemma_majorities_meet(ballot: Seq<Option<String>>, a: String, b: String)
    requires
        majority(ballot.len() as int, votes_for(ballot, a) as int),
        majority(ballot.len() as int, votes_for(ballot, b) as int),
    ensures
        a == b,
{
    if a != b {
        lemma_two_tallies_fit(ballot, a, b);
    }
}

/// One election round, a candidacy at `start` and then the tally of the
/// responses at `end`, keeps the term from falling and keeps the node well formed: a leader it produces has voted for
/// itself, records itself as leader of its term and runs no timer, and a
/// node that does not lead runs one. A leader starts no candidacy, so it
/// sends no request and has no tally: it stays as it was.
pub proof fn lemma_election_round(s: Server, start: u64, granted: nat, highest: u64, end: u64)
    requires
        s.wf(),
        s.role != Role::Leader ==> s.term < u64::MAX,
    ensures
        s.role == Role::Leader ==> after_candidacy(s, start) == s,
        ({
            let r = after_tally(after_candidacy(s, start), granted as int, highest, end);
            &&& r.term >= s.term
            &&& r.wf()
            &&& r.role == Role::Leader ==> r.voted_for == Some(r.id) && r.current_leader
                == Some(Leader { id: r.id, term: r.term }) && r.next_timeout.is_none()
            &&& r.role != Role::Leader ==> r.next_timeout.is_some()
        }),
{
}

} // verus!
