use raft_election::election::{
    become_leader, broadcast_heartbeat, conclude_election, handle_timeout, has_won_the_election,
    prepare_vote_request,
};
use raft_election::handlers::{handle_log_entry, handle_vote_request};
use raft_election::jitter::{heartbeat_pause_secs, HEARTBEAT_PAUSE_MAX_SECS, HEARTBEAT_PAUSE_MIN_SECS};
use raft_election::node::deadline_after;
use raft_election::types::{Endpoint, LogEntry, Role, Server, ServerConfig, VoteRequest, VoteResponse};

fn node(id: &str, peer_count: u64) -> Server {
    let address = Endpoint { ip: 0x7f00_0001, port: 7000 };
    Server::new(ServerConfig { timeout: 1000 }, peer_count, address, id.to_string())
}

fn answers(granted: usize, denied: usize) -> Vec<VoteResponse> {
    let mut v = Vec::new();
    for _ in 0..granted {
        v.push(VoteResponse { term: 1, vote_granted: true });
    }
    for _ in 0..denied {
        v.push(VoteResponse { term: 1, vote_granted: false });
    }
    v
}

fn request(term: u64, id: &str) -> VoteRequest {
    VoteRequest { term, candidate_id: id.to_string() }
}

fn heartbeat(term: u64, peer_id: &str) -> LogEntry {
    LogEntry::Heartbeat { term, peer_id: peer_id.to_string() }
}

fn candidate(id: &str, peer_count: u64) -> Server {
    let mut s = node(id, peer_count);
    prepare_vote_request(&mut s, 0).unwrap();
    s
}

#[test]
fn new_node_is_inert_follower() {
    let s = node("a", 2);
    assert_eq!(s.role, Role::Follower);
    assert_eq!(s.term, 0);
    assert!(s.voted_for.is_none());
    assert!(s.current_leader.is_none());
    assert!(s.next_timeout.is_none());
    assert!(!s.started);
    assert!(!s.has_timed_out(u64::MAX));
}

#[test]
fn start_arms_timer_once() {
    let mut s = node("a", 2);
    s.start(100);
    assert!(s.started);
    assert_eq!(s.next_timeout, Some(1100));
    s.start(500);
    assert_eq!(s.next_timeout, Some(1100));
}

#[test]
fn timer_runs_out_at_deadline() {
    let mut s = node("a", 2);
    s.start(0);
    assert!(!s.has_timed_out(999));
    assert!(s.has_timed_out(1000));
    s.refresh_timeout(900);
    assert_eq!(s.next_timeout, Some(1900));
    assert!(!s.has_timed_out(1000));
}

#[test]
fn deadline_saturates() {
    assert_eq!(deadline_after(5, 10), 15);
    assert_eq!(deadline_after(u64::MAX - 3, 10), u64::MAX);
}

#[test]
fn quorum_of_three_needs_one_grant() {
    let s = candidate("a", 2);
    assert!(has_won_the_election(&s, &answers(1, 1)));
    assert!(!has_won_the_election(&s, &answers(0, 2)));
    assert!(!has_won_the_election(&s, &Vec::new()));
}

#[test]
fn quorum_of_five_needs_two_grants() {
    let s = candidate("a", 4);
    assert!(has_won_the_election(&s, &answers(2, 2)));
    assert!(!has_won_the_election(&s, &answers(1, 3)));
}

#[test]
fn tie_is_no_win() {
    // four nodes: two votes of four is no strict majority
    let s = candidate("a", 3);
    assert!(!has_won_the_election(&s, &answers(1, 2)));
    assert!(has_won_the_election(&s, &answers(2, 1)));
}

#[test]
fn only_a_candidate_wins() {
    let s = node("a", 2);
    assert!(!has_won_the_election(&s, &answers(2, 0)));
}

#[test]
fn leader_backs_itself_and_runs_no_timer() {
    let mut s = candidate("a", 2);
    let hb = become_leader(&mut s);
    assert_eq!(s.role, Role::Leader);
    assert_eq!(s.voted_for.as_deref(), Some("a"));
    let leader = s.current_leader.clone().unwrap();
    assert_eq!(leader.id, "a");
    assert_eq!(leader.term, 1);
    assert!(s.next_timeout.is_none());
    match hb {
        LogEntry::Heartbeat { term, peer_id } => {
            assert_eq!(term, 1);
            assert_eq!(peer_id, "a");
        }
    }
    // starting a leader keeps it without a timer
    s.start(10);
    assert!(s.started);
    assert!(s.next_timeout.is_none());
    assert!(!s.has_timed_out(u64::MAX));
}

#[test]
fn candidacy_votes_for_self_and_arms_timer() {
    let mut s = node("a", 2);
    s.term = 4;
    let r = prepare_vote_request(&mut s, 50).unwrap();
    assert_eq!(r.term, 5);
    assert_eq!(r.candidate_id, "a");
    assert_eq!(s.role, Role::Candidate);
    assert_eq!(s.term, 5);
    assert_eq!(s.voted_for.as_deref(), Some("a"));
    assert_eq!(s.next_timeout, Some(1050));
}

#[test]
fn timeout_starts_an_election_only_when_due() {
    let mut s = node("a", 2);
    s.start(0);
    assert!(handle_timeout(&mut s, 500).is_none());
    assert_eq!(s.term, 0);
    assert_eq!(s.role, Role::Follower);
    let r = handle_timeout(&mut s, 1000).unwrap();
    assert_eq!(r.term, 1);
    assert_eq!(s.role, Role::Candidate);
    assert_eq!(s.next_timeout, Some(2000));
}

#[test]
fn timed_out_candidate_is_not_promoted() {
    let mut s = node("a", 2);
    s.start(0);
    prepare_vote_request(&mut s, 0).unwrap();
    assert!(conclude_election(&mut s, &answers(2, 0), 1000).is_none());
    assert_eq!(s.role, Role::Candidate);
    assert!(conclude_election(&mut s, &answers(2, 0), 999).is_some());
    assert_eq!(s.role, Role::Leader);
}

#[test]
fn leader_heartbeat_only_while_leading() {
    let mut s = candidate("a", 2);
    assert!(broadcast_heartbeat(&s).is_none());
    conclude_election(&mut s, &answers(2, 0), 0).unwrap();
    match broadcast_heartbeat(&s) {
        Some(LogEntry::Heartbeat { term, peer_id }) => {
            assert_eq!(term, 1);
            assert_eq!(peer_id, "a");
        }
        None => panic!("a leader sends heartbeats"),
    }
}

#[test]
fn single_vote_per_term() {
    let mut s = node("a", 2);
    s.start(0);
    let r = handle_vote_request(&mut s, request(1, "b"), 0);
    assert!(r.vote_granted);
    assert_eq!(s.voted_for.as_deref(), Some("b"));
    let r = handle_vote_request(&mut s, request(1, "c"), 0);
    assert!(!r.vote_granted);
    assert_eq!(r.term, 1);
    assert_eq!(s.voted_for.as_deref(), Some("b"));
    // granting adopts the candidate's term
    assert_eq!(s.term, 1);
}

#[test]
fn stale_candidate_is_denied() {
    let mut s = node("a", 2);
    s.term = 3;
    let r = handle_vote_request(&mut s, request(2, "b"), 0);
    assert!(!r.vote_granted);
    assert_eq!(r.term, 3);
    assert!(s.voted_for.is_none());
}

#[test]
fn higher_term_heartbeat_demotes_leader() {
    let mut s = candidate("a", 2);
    s.term = 10;
    become_leader(&mut s);
    let t = handle_log_entry(&mut s, heartbeat(19, "c"), 40);
    assert_eq!(t, 19);
    assert_eq!(s.role, Role::Follower);
    assert_eq!(s.term, 19);
    assert!(s.voted_for.is_none());
    let leader = s.current_leader.clone().unwrap();
    assert_eq!(leader.id, "c");
    assert_eq!(leader.term, 19);
    assert_eq!(s.next_timeout, Some(1040));
}

#[test]
fn stale_heartbeat_still_refreshes_follower() {
    let mut s = node("a", 2);
    s.term = 5;
    s.start(0);
    let t = handle_log_entry(&mut s, heartbeat(2, "c"), 300);
    assert_eq!(t, 5);
    assert_eq!(s.term, 5);
    assert_eq!(s.next_timeout, Some(1300));
    assert!(s.current_leader.is_none());
}

#[test]
fn same_term_heartbeat_keeps_candidate() {
    let mut s = candidate("a", 2);
    let t = handle_log_entry(&mut s, heartbeat(1, "b"), 70);
    assert_eq!(t, 1);
    assert_eq!(s.role, Role::Candidate);
    assert_eq!(s.voted_for.as_deref(), Some("a"));
    assert_eq!(s.next_timeout, Some(1070));
}

#[test]
fn same_term_heartbeat_leaves_leader_alone() {
    let mut s = candidate("a", 2);
    become_leader(&mut s);
    let t = handle_log_entry(&mut s, heartbeat(1, "b"), 70);
    assert_eq!(t, 1);
    assert_eq!(s.role, Role::Leader);
    assert!(s.next_timeout.is_none());
}

#[test]
fn term_never_decreases_along_a_trace() {
    let mut s = node("a", 2);
    let mut last = s.term;
    s.start(0);
    assert!(s.term >= last);
    last = s.term;
    handle_log_entry(&mut s, heartbeat(3, "b"), 10);
    assert!(s.term >= last);
    last = s.term;
    handle_log_entry(&mut s, heartbeat(1, "c"), 20);
    assert!(s.term >= last);
    last = s.term;
    handle_vote_request(&mut s, request(9, "c"), 0);
    assert!(s.term >= last);
    last = s.term;
    prepare_vote_request(&mut s, 30);
    assert!(s.term >= last);
    assert_eq!(s.term, 10);
}

#[test]
fn two_candidates_cannot_both_win_a_term() {
    // three nodes, term 1: a and b both stand, c votes once
    let mut a = candidate("a", 2);
    let mut b = candidate("b", 2);
    let mut c = node("c", 2);
    let to_a = handle_vote_request(&mut c, request(1, "a"), 0);
    let to_b = handle_vote_request(&mut c, request(1, "b"), 0);
    let from_b_to_a = handle_vote_request(&mut b, request(1, "a"), 0);
    let from_a_to_b = handle_vote_request(&mut a, request(1, "b"), 0);
    let a_won = conclude_election(&mut a, &vec![to_a, from_b_to_a], 0).is_some();
    let b_won = conclude_election(&mut b, &vec![to_b, from_a_to_b], 0).is_some();
    assert!(a_won);
    assert!(!b_won);
}

#[test]
fn heartbeat_pause_within_bounds() {
    let mut seen = Vec::new();
    for _ in 0..200 {
        let p = heartbeat_pause_secs();
        assert!(p >= HEARTBEAT_PAUSE_MIN_SECS && p <= HEARTBEAT_PAUSE_MAX_SECS);
        if !seen.contains(&p) {
            seen.push(p);
        }
    }
    assert!(seen.len() > 1);
}

#[test]
fn vote_cleared_by_lower_heartbeat_is_not_granted_again() {
    let mut s = node("a", 2);
    s.start(0);
    assert!(handle_vote_request(&mut s, request(5, "b"), 0).vote_granted);
    assert_eq!(s.term, 5);
    handle_log_entry(&mut s, heartbeat(3, "c"), 10);
    assert_eq!(s.term, 5);
    let r = handle_vote_request(&mut s, request(5, "c"), 20);
    assert!(!r.vote_granted);
    assert_eq!(s.voted_for.as_deref(), Some("b"));
}

#[test]
fn higher_term_request_demotes_candidate() {
    // the candidate has voted for itself, so it adopts the term but denies
    let mut s = candidate("a", 2);
    let r = handle_vote_request(&mut s, request(5, "b"), 200);
    assert!(!r.vote_granted);
    assert_eq!(r.term, 5);
    assert_eq!(s.role, Role::Follower);
    assert_eq!(s.term, 5);
    assert!(s.voted_for.is_none());
    assert_eq!(s.next_timeout, Some(1200));
    // with its old vote cleared, the next candidate of a higher term gets it
    let r = handle_vote_request(&mut s, request(6, "c"), 300);
    assert!(r.vote_granted);
    assert_eq!(s.term, 6);
    assert_eq!(s.voted_for.as_deref(), Some("c"));
}

#[test]
fn higher_term_request_demotes_leader() {
    let mut s = candidate("a", 2);
    become_leader(&mut s);
    s.start(0);
    let r = handle_vote_request(&mut s, request(2, "b"), 50);
    assert!(!r.vote_granted);
    assert_eq!(r.term, 2);
    assert_eq!(s.role, Role::Follower);
    assert_eq!(s.term, 2);
    assert!(s.voted_for.is_none());
    assert_eq!(s.next_timeout, Some(1050));
}

#[test]
fn recorded_vote_denies_higher_term() {
    let mut s = node("a", 2);
    assert!(handle_vote_request(&mut s, request(1, "b"), 0).vote_granted);
    let r = handle_vote_request(&mut s, request(4, "c"), 10);
    assert!(!r.vote_granted);
    assert_eq!(s.term, 4);
    assert!(s.voted_for.is_none());
}

#[test]
fn higher_term_response_demotes_candidate() {
    let mut s = candidate("a", 2);
    let v = vec![
        VoteResponse { term: 1, vote_granted: true },
        VoteResponse { term: 7, vote_granted: false },
        VoteResponse { term: 4, vote_granted: false },
    ];
    assert!(conclude_election(&mut s, &v, 300).is_none());
    assert_eq!(s.role, Role::Follower);
    assert_eq!(s.term, 7);
    assert!(s.voted_for.is_none());
    assert_eq!(s.next_timeout, Some(1300));
}
