use proposals::caller::CallerId;
use proposals::engine::Engine;
use proposals::proposal::{Proposal, VoteError, VoteErrorKind};

fn owner() -> CallerId {
    CallerId(vec![1, 2, 3])
}

fn other() -> CallerId {
    CallerId(vec![9, 9])
}

#[test]
fn created_ids_strictly_increase() {
    let mut e = Engine::new();
    let a = e.add_proposal("a".to_string(), "da".to_string(), &owner(), 1);
    let _ = e.cast_vote(a.id, 0, &other());
    let b = e.add_proposal("b".to_string(), "db".to_string(), &owner(), 2);
    let _ = e.end_proposal(a.id, &owner());
    let c = e.add_proposal("c".to_string(), "dc".to_string(), &owner(), 3);
    assert!(a.id < b.id);
    assert!(b.id < c.id);
    assert_eq!(a.id, 0);
    assert_eq!(b.id, 1);
    assert_eq!(c.id, 2);
    assert_eq!(e.id_counter(), 3);
}

#[test]
fn create_initializes_record() {
    let mut e = Engine::new();
    let caller = owner();
    let p = e.add_proposal("Title".to_string(), "Body".to_string(), &caller, 42);
    assert_eq!(p.title, "Title");
    assert_eq!(p.description, "Body");
    assert_eq!(p.approve, 0);
    assert_eq!(p.reject, 0);
    assert_eq!(p.pass, 0);
    assert_eq!(p.created_at, 42);
    assert!(!p.has_ended);
    assert!(p.owner.equals(&caller));
    assert!(p.voted.is_empty());
}

#[test]
fn vote_approve_increments_only_approve() {
    let mut e = Engine::new();
    let p = e.add_proposal("t".to_string(), "d".to_string(), &owner(), 0);
    let q = e.cast_vote(p.id, 0, &other()).unwrap();
    assert_eq!(q.approve, 1);
    assert_eq!(q.reject, 0);
    assert_eq!(q.pass, 0);
    let stored = e.get_proposal(p.id).unwrap();
    assert_eq!(stored.approve, 1);
    assert_eq!(stored.reject, 0);
    assert_eq!(stored.pass, 0);
}

#[test]
fn vote_reject_increments_only_reject() {
    let mut e = Engine::new();
    let p = e.add_proposal("t".to_string(), "d".to_string(), &owner(), 0);
    let q = e.cast_vote(p.id, 1, &other()).unwrap();
    assert_eq!(q.approve, 0);
    assert_eq!(q.reject, 1);
    assert_eq!(q.pass, 0);
}

#[test]
fn vote_options_two_and_three_both_count_as_pass() {
    let mut e = Engine::new();
    let p = e.add_proposal("t".to_string(), "d".to_string(), &owner(), 0);
    let q = e.cast_vote(p.id, 2, &other()).unwrap();
    assert_eq!(q.pass, 1);
    let q = e.cast_vote(p.id, 3, &other()).unwrap();
    assert_eq!(q.pass, 2);
    assert_eq!(q.approve, 0);
    assert_eq!(q.reject, 0);
}

#[test]
fn vote_invalid_option_fails_and_changes_nothing() {
    let mut e = Engine::new();
    let p = e.add_proposal("t".to_string(), "d".to_string(), &owner(), 0);
    let err = e.cast_vote(p.id, 9, &other()).unwrap_err();
    assert_eq!(err.kind(), VoteErrorKind::InvalidOption);
    let stored = e.get_proposal(p.id).unwrap();
    assert_eq!(stored.approve, 0);
    assert_eq!(stored.reject, 0);
    assert_eq!(stored.pass, 0);
    assert!(!stored.has_ended);
}

#[test]
fn vote_on_missing_proposal_fails_not_found() {
    let mut e = Engine::new();
    let err = e.cast_vote(77, 0, &other()).unwrap_err();
    assert_eq!(err.kind(), VoteErrorKind::NotFound);
}

#[test]
fn vote_allowed_after_end_and_repeat_votes_allowed() {
    let mut e = Engine::new();
    let caller = owner();
    let p = e.add_proposal("t".to_string(), "d".to_string(), &caller, 0);
    let _ = e.cast_vote(p.id, 0, &other()).unwrap();
    let q = e.cast_vote(p.id, 0, &other()).unwrap();
    assert_eq!(q.approve, 2);
    e.end_proposal(p.id, &caller).unwrap();
    let q = e.cast_vote(p.id, 0, &other()).unwrap();
    assert_eq!(q.approve, 3);
}

#[test]
fn edit_changes_title_keeps_description_resets_counters() {
    let mut e = Engine::new();
    let caller = owner();
    let p = e.add_proposal("old title".to_string(), "keep me".to_string(), &caller, 0);
    e.cast_vote(p.id, 0, &other()).unwrap();
    e.cast_vote(p.id, 1, &other()).unwrap();
    let q = e
        .edit_proposal(p.id, Some("new title".to_string()), None, &caller)
        .unwrap();
    assert_eq!(q.title, "new title");
    assert_eq!(q.description, "keep me");
    assert_eq!(q.approve, 0);
    assert_eq!(q.reject, 0);
    assert_eq!(q.pass, 0);
    let stored = e.get_proposal(p.id).unwrap();
    assert_eq!(stored.title, "new title");
    assert_eq!(stored.description, "keep me");
}

#[test]
fn edit_by_non_owner_fails_and_changes_nothing() {
    let mut e = Engine::new();
    let p = e.add_proposal("t".to_string(), "d".to_string(), &owner(), 0);
    let err = e
        .edit_proposal(p.id, Some("x".to_string()), None, &other())
        .unwrap_err();
    assert_eq!(err.kind(), VoteErrorKind::Unauthorized);
    assert_eq!(err.message().as_str(), "Only the owner can edit the proposal");
    let stored = e.get_proposal(p.id).unwrap();
    assert_eq!(stored.title, "t");
    assert_eq!(stored.description, "d");
}

#[test]
fn edit_missing_proposal_fails_not_found() {
    let mut e = Engine::new();
    let err = e
        .edit_proposal(5, Some("x".to_string()), None, &owner())
        .unwrap_err();
    assert_eq!(err.kind(), VoteErrorKind::NotFound);
}

#[test]
fn end_sets_flag_and_second_end_fails() {
    let mut e = Engine::new();
    let caller = owner();
    let p = e.add_proposal("t".to_string(), "d".to_string(), &caller, 0);
    let q = e.end_proposal(p.id, &caller).unwrap();
    assert!(q.has_ended);
    let err = e.end_proposal(p.id, &caller).unwrap_err();
    assert_eq!(err.kind(), VoteErrorKind::Unauthorized);
    assert_eq!(err.message().as_str(), "Proposal is already ended");
}

#[test]
fn end_by_non_owner_fails() {
    let mut e = Engine::new();
    let p = e.add_proposal("t".to_string(), "d".to_string(), &owner(), 0);
    let err = e.end_proposal(p.id, &other()).unwrap_err();
    assert_eq!(err.kind(), VoteErrorKind::Unauthorized);
    assert_eq!(err.message().as_str(), "Only the owner can end the proposal");
    let stored = e.get_proposal(p.id).unwrap();
    assert!(!stored.has_ended);
}

#[test]
fn edit_after_end_fails_unauthorized() {
    let mut e = Engine::new();
    let caller = owner();
    let p = e.add_proposal("t".to_string(), "d".to_string(), &caller, 0);
    e.end_proposal(p.id, &caller).unwrap();
    let err = e
        .edit_proposal(p.id, Some("x".to_string()), None, &caller)
        .unwrap_err();
    assert_eq!(err.kind(), VoteErrorKind::Unauthorized);
    assert_eq!(err.message().as_str(), "Cannot edit an ended proposal");
}

#[test]
fn get_missing_proposal_fails_not_found() {
    let e = Engine::new();
    let err = e.get_proposal(0).unwrap_err();
    assert_eq!(err.kind(), VoteErrorKind::NotFound);
    assert_eq!(err.message().as_str(), "proposal not found");
}

#[test]
fn list_returns_every_record_once() {
    let mut e = Engine::new();
    assert!(e.get_all_proposals().is_empty());
    let a = e.add_proposal("a".to_string(), "da".to_string(), &owner(), 1);
    let b = e.add_proposal("b".to_string(), "db".to_string(), &owner(), 2);
    let all: Vec<Proposal> = e.get_all_proposals();
    assert_eq!(all.len(), 2);
    let mut ids: Vec<u64> = all.iter().map(|p| p.id).collect();
    ids.sort();
    assert_eq!(ids, vec![a.id, b.id]);
}

#[test]
fn end_to_end_scenario() {
    let mut e = Engine::new();
    let o = owner();
    let a = CallerId(vec![10]);
    let b = CallerId(vec![11]);
    let p1 = e.add_proposal("Upgrade".to_string(), "desc".to_string(), &o, 100);
    e.cast_vote(p1.id, 0, &a).unwrap();
    e.cast_vote(p1.id, 1, &b).unwrap();
    let got = e.get_proposal(p1.id).unwrap();
    assert_eq!(got.approve, 1);
    assert_eq!(got.reject, 1);
    assert_eq!(got.pass, 0);
    let ended = e.end_proposal(p1.id, &o).unwrap();
    assert!(ended.has_ended);
    let err: VoteError = e
        .edit_proposal(p1.id, Some("x".to_string()), None, &o)
        .unwrap_err();
    assert_eq!(err.kind(), VoteErrorKind::Unauthorized);
}

#[test]
fn caller_identity_equality_is_by_bytes() {
    let a = CallerId(vec![1, 2]);
    let b = CallerId(vec![1, 2]);
    let c = CallerId(vec![1, 2, 3]);
    assert!(a.equals(&b));
    assert!(!a.equals(&c));
    assert!(!c.equals(&a));
    let d = a.clone();
    assert!(d.equals(&a));
}
