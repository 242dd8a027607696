use plymouth_bot::error::{DecodeError, Error};
use plymouth_bot::response::Match;
use plymouth_bot::similarity::Similarity;
use plymouth_bot::workflow::{Destination, Step, Workflow, WorkflowState};

fn a_match(hundredths: u16, external_id: u64) -> Match {
    Match { similarity: Similarity::from_hundredths(hundredths).unwrap(), external_id }
}

fn awaiting() -> Workflow {
    let mut w = Workflow::new(Similarity::default_threshold());
    assert_eq!(w.read(true), Step::Enqueue);
    w
}

#[test]
fn new_workflow_is_submitted() {
    let w = Workflow::new(Similarity::default_threshold());
    assert_eq!(w.state, WorkflowState::Submitted);
    assert_eq!(w.outcome(), None);
}

#[test]
fn unreadable_file_fails_the_workflow() {
    let mut w = Workflow::new(Similarity::default_threshold());
    assert_eq!(w.read(false), Step::Stop(Error::Read));
    assert_eq!(w.state, WorkflowState::Failed);
    assert_eq!(w.outcome(), Some(false));
}

#[test]
fn match_exactly_at_threshold_is_matched() {
    let mut w = awaiting();
    assert_eq!(w.state, WorkflowState::AwaitingReply);
    assert_eq!(w.replied(Ok(a_match(7000, 11))), Step::Favorite(11));
    assert_eq!(w.outcome(), None);
    assert_eq!(w.favorited(Some(200)), Step::Relocate(Destination::Matched));
    assert_eq!(w.state, WorkflowState::Resolved);
    assert_eq!(w.outcome(), Some(true));
}

#[test]
fn match_just_below_threshold_is_unmatched() {
    let mut w = awaiting();
    assert_eq!(w.replied(Ok(a_match(6999, 11))), Step::Relocate(Destination::Unmatched));
    assert_eq!(w.state, WorkflowState::Resolved);
    assert_eq!(w.favorite, None);
}

#[test]
fn match_above_threshold_is_matched() {
    let mut w = awaiting();
    assert_eq!(w.replied(Ok(a_match(9250, 12345))), Step::Favorite(12345));
    assert!(w.accepts(&a_match(9250, 1)));
    assert!(w.accepts(&a_match(7000, 1)));
    assert!(!w.accepts(&a_match(0, 1)));
}

#[test]
fn threshold_is_configurable() {
    let mut w = Workflow::new(Similarity::from_hundredths(9000).unwrap());
    assert_eq!(w.read(true), Step::Enqueue);
    assert_eq!(w.replied(Ok(a_match(8999, 5))), Step::Relocate(Destination::Unmatched));
    let mut w = Workflow::new(Similarity::from_hundredths(0).unwrap());
    assert_eq!(w.read(true), Step::Enqueue);
    assert_eq!(w.replied(Ok(a_match(0, 5))), Step::Favorite(5));
}

#[test]
fn failed_reply_fails_the_workflow() {
    let mut w = awaiting();
    let e = Error::Decode(DecodeError::NoResults);
    assert_eq!(w.replied(Err(e)), Step::Stop(e));
    assert_eq!(w.state, WorkflowState::Failed);
}

#[test]
fn refused_favorite_fails_the_workflow() {
    let mut w = awaiting();
    assert_eq!(w.replied(Ok(a_match(8000, 3))), Step::Favorite(3));
    assert_eq!(w.favorited(Some(403)), Step::Stop(Error::Favorite(403)));
    assert_eq!(w.state, WorkflowState::Failed);
    assert_eq!(w.outcome(), Some(false));
}

#[test]
fn unanswered_favorite_fails_the_workflow() {
    let mut w = awaiting();
    assert_eq!(w.replied(Ok(a_match(8000, 3))), Step::Favorite(3));
    assert_eq!(w.favorited(None), Step::Stop(Error::FavoriteUnsent));
    assert_eq!(w.state, WorkflowState::Failed);
}

#[test]
fn events_out_of_place_are_ignored() {
    let mut w = Workflow::new(Similarity::default_threshold());
    assert_eq!(w.replied(Ok(a_match(8000, 3))), Step::Ignore);
    assert_eq!(w.favorited(Some(200)), Step::Ignore);
    assert_eq!(w.state, WorkflowState::Submitted);
    assert_eq!(w.read(true), Step::Enqueue);
    assert_eq!(w.read(true), Step::Ignore);
    assert_eq!(w.favorited(Some(200)), Step::Ignore);
    assert_eq!(w.replied(Ok(a_match(8000, 3))), Step::Favorite(3));
    assert_eq!(w.replied(Ok(a_match(1000, 4))), Step::Ignore);
    assert_eq!(w.favorited(Some(204)), Step::Relocate(Destination::Matched));
    assert_eq!(w.favorited(Some(204)), Step::Ignore);
    assert_eq!(w.replied(Err(Error::Cancelled)), Step::Ignore);
    assert_eq!(w.state, WorkflowState::Resolved);
}
