//! One file's way through the pipeline, from being read to being moved.
//!
//! A workflow submits its file, awaits the reply on its own slot, and acts on
//! it: a match at or above the threshold is marked as a favorite and the file
//! goes to the matched folder; a match below it sends the file to the unmatched
//! folder. A failure ends this workflow and no other.

use vstd::prelude::*;
use crate::danbooru::{is_success, DanbooruClient};
use crate::error::Error;
use crate::response::Match;
use crate::similarity::Similarity;

verus! {

/// Where a workflow stands.
#[derive(Clone, Copy, Debug, PartialEq, Eq, Structural)]
pub enum WorkflowState {
    /// The file has been picked up; its request is not in the queue yet.
    Submitted,
    /// The request is in the queue, or a favorite made on its reply is under way.
    AwaitingReply,
    /// The workflow has ended well.
    Resolved,
    /// The workflow has ended with a failure.
    Failed,
}

/// The folder a file ends up in.
#[derive(Clone, Copy, Debug, PartialEq, Eq, Structural)]
pub enum Destination {
    /// For files whose match reached the threshold and was marked as a favorite.
    Matched,
    /// For files whose match stayed below the threshold.
    Unmatched,
}

/// What a workflow has to do next.
#[derive(Clone, Copy, Debug, PartialEq, Eq, Structural)]
pub enum Step {
    /// Put the request into the queue and await the reply.
    Enqueue,
    /// Mark this post as a favorite and report the service's status.
    Favorite(u64),
    /// Move the file to this folder; the workflow has ended well.
    Relocate(Destination),
    /// Nothing more: the workflow has ended with this failure.
    Stop(Error),
    /// Nothing: the event does not belong to where the workflow stands.
    Ignore,
}

/// The state of one file's workflow.
#[derive(Clone, Copy, Debug, PartialEq, Eq, Structural)]
pub struct Workflow {
    /// Where the workflow stands.
    pub state: WorkflowState,
    /// The similarity a match has to reach to count.
    pub threshold: Similarity,
    /// The post whose favorite is under way, if one is.
    pub favorite: Option<u64>,
}

/// The match counts: its similarity is at or above the threshold.
pub open spec fn counts(m: Match, threshold: Similarity) -> bool {
    m.similarity.reaches(threshold)
}

/// The file has been read, or reading it has failed.
pub open spec fn read_step(w: Workflow, ok: bool) -> (Workflow, Step) {
    if w.state != WorkflowState::Submitted {
        (w, Step::Ignore)
    } else if ok {
        (Workflow { state: WorkflowState::AwaitingReply, ..w }, Step::Enqueue)
    } else {
        (Workflow { state: WorkflowState::Failed, ..w }, Step::Stop(Error::Read))
    }
}

/// The reply to the workflow's request has arrived.
pub open spec fn reply_step(w: Workflow, reply: Result<Match, Error>) -> (Workflow, Step) {
    if w.state != WorkflowState::AwaitingReply || w.favorite is Some {
        (w, Step::Ignore)
    } else {
        match reply {
            Err(e) => (Workflow { state: WorkflowState::Failed, ..w }, Step::Stop(e)),
            Ok(m) => if counts(m, w.threshold) {
                (Workflow { favorite: Some(m.external_id), ..w }, Step::Favorite(m.external_id))
            } else {
                (
                    Workflow { state: WorkflowState::Resolved, ..w },
                    Step::Relocate(Destination::Unmatched),
                )
            },
        }
    }
}

/// What an attempt at a favorite means: success on a status of the success
/// class, a failure on any other status and where no status came back.
pub open spec fn favorite_result(status: Option<u16>) -> Result<(), Error> {
    match status {
        Some(code) => if is_success(code) {
            Ok(())
        } else {
            Err(Error::Favorite(code))
        },
        None => Err(Error::FavoriteUnsent),
    }
}

/// The favorite has been attempted; `status` is what the bookmarking service
/// answered, if it answered.
pub open spec fn favorite_step(w: Workflow, status: Option<u16>) -> (Workflow, Step) {
    if w.state != WorkflowState::AwaitingReply || w.favorite is None {
        (w, Step::Ignore)
    } else {
        match favorite_result(status) {
            Ok(_) => (
                Workflow { state: WorkflowState::Resolved, favorite: None, ..w },
                Step::Relocate(Destination::Matched),
            ),
            Err(e) => (Workflow { state: WorkflowState::Failed, favorite: None, ..w }, Step::Stop(e)),
        }
    }
}

/// A match exactly at the threshold counts: its file is marked as a favorite.
/// A match below the threshold does not: its file goes to the unmatched folder
/// and no favorite is made.
pub proof fn lemma_threshold_is_inclusive(w: Workflow, m: Match)
    requires
        w.state == WorkflowState::AwaitingReply,
        w.favorite is None,
    ensures
        m.similarity.hundredths >= w.threshold.hundredths ==> reply_step(w, Ok(m)).1
            == Step::Favorite(m.external_id),
        m.similarity.hundredths < w.threshold.hundredths ==> reply_step(w, Ok(m)).1
            == Step::Relocate(Destination::Unmatched),
{
}

/// A file reaches the matched folder only through a favorite that succeeded.
pub proof fn lemma_matched_only_after_favorite(w: Workflow, status: Option<u16>)
    ensures
        favorite_step(w, status).1 == Step::Relocate(Destination::Matched) ==> w.favorite is Some
            && status is Some && is_success(status->0),
        forall|reply: Result<Match, Error>| #[trigger]
            reply_step(w, reply).1 != Step::Relocate(Destination::Matched),
        forall|ok: bool| #[trigger] read_step(w, ok).1 != Step::Relocate(Destination::Matched),
{
}

impl Workflow {
    /// The workflow has ended, well or not.
    pub open spec fn terminal(self) -> bool {
        self.state == WorkflowState::Resolved || self.state == WorkflowState::Failed
    }

    /// The workflow of a file just picked up.
    pub fn new(threshold: Similarity) -> (w: Workflow)
        ensures
            w == (Workflow { state: WorkflowState::Submitted, threshold, favorite: None }),
    {
        Workflow { state: WorkflowState::Submitted, threshold, favorite: None }
    }

    /// How the workflow ended: `Some(true)` well, `Some(false)` with a failure,
    /// `None` while it is under way.
    pub fn outcome(&self) -> (r: Option<bool>)
        ensures
            self.state == WorkflowState::Resolved ==> r == Some(true),
            self.state == WorkflowState::Failed ==> r == Some(false),
            !self.terminal() ==> r is None,
    {
        match self.state {
            WorkflowState::Resolved => Some(true),
            WorkflowState::Failed => Some(false),
            _ => None,
        }
    }

    /// Whether `m` counts for this workflow: at the threshold or above.
    pub fn accepts(&self, m: &Match) -> (yes: bool)
        ensures
            yes == counts(*m, self.threshold),
            yes == (m.similarity.hundredths >= self.threshold.hundredths),
    {
        m.similarity.at_least(&self.threshold)
    }

    /// Takes the outcome of reading the file.
    pub fn read(&mut self, ok: bool) -> (step: Step)
        ensures
            (*final(self), step) == read_step(*old(self), ok),
    {
        match self.state {
            WorkflowState::Submitted => {
                if ok {
                    self.state = WorkflowState::AwaitingReply;
                    Step::Enqueue
                } else {
                    self.state = WorkflowState::Failed;
                    Step::Stop(Error::Read)
                }
            },
            _ => Step::Ignore,
        }
    }

    /// Takes the reply to the workflow's request.
    pub fn replied(&mut self, reply: Result<Match, Error>) -> (step: Step)
        ensures
            (*final(self), step) == reply_step(*old(self), reply),
    {
        if self.favorite.is_some() {
            return Step::Ignore;
        }
        match self.state {
            WorkflowState::AwaitingReply => match reply {
                Err(e) => {
                    self.state = WorkflowState::Failed;
                    Step::Stop(e)
                },
                Ok(m) => {
                    if self.accepts(&m) {
                        self.favorite = Some(m.external_id);
                        Step::Favorite(m.external_id)
                    } else {
                        self.state = WorkflowState::Resolved;
                        Step::Relocate(Destination::Unmatched)
                    }
                },
            },
            _ => Step::Ignore,
        }
    }

    /// Takes the outcome of the favorite: the status with which the bookmarking
    /// service answered, or `None` where it did not answer.
    pub fn favorited(&mut self, status: Option<u16>) -> (step: Step)
        ensures
            (*final(self), step) == favorite_step(*old(self), status),
    {
        if self.favorite.is_none() {
            return Step::Ignore;
        }
        match self.state {
            WorkflowState::AwaitingReply => {
                self.favorite = None;
                let result = match status {
                    Some(code) => DanbooruClient::confirm(code),
                    None => Err(Error::FavoriteUnsent),
                };
                match result {
                    Ok(_) => {
                        self.state = WorkflowState::Resolved;
                        Step::Relocate(Destination::Matched)
                    },
                    Err(e) => {
                        self.state = WorkflowState::Failed;
                        Step::Stop(e)
                    },
                }
            },
            _ => Step::Ignore,
        }
    }
}

} // verus!
