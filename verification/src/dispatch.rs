//! The dispatch loop: the one place that owns the search client.
//!
//! Workflows hand in requests, each with the slot its reply belongs to. The
//! dispatcher serves them one at a time, first come first served, and says after
//! every event what the loop around it has to do next: wait for an event, sit out
//! a cool-down, perform a call, abort the run, or leave.

use std::collections::VecDeque;
use vstd::prelude::*;
use crate::address::search_address;
use crate::error::{DecodeError, Error};
use crate::quota::{standard_cooldown, CooldownPlan, Quota};
use crate::response::{Match, SauceNaoResponse};
use crate::saucenao::{absorb, outcome_of, SauceNaoClient};

verus! {

/// A request of one workflow: the bytes to look up, and the slot that the
/// workflow awaits its reply on.
#[derive(Debug)]
pub struct Request {
    pub slot: u64,
    pub payload: Vec<u8>,
}

/// The reply to one request, for the slot that the request named.
#[derive(Clone, Copy, Debug, PartialEq, Eq)]
pub struct Reply {
    pub slot: u64,
    pub result: Result<Match, Error>,
}

/// How a call to the service ended.
#[derive(Debug)]
pub enum Answer {
    /// The service answered with this response.
    Received(SauceNaoResponse),
    /// The service answered, but not with a response of the expected shape.
    Unreadable,
    /// The service could not be reached or sent nothing readable.
    Failed,
}

/// What the dispatcher is in the middle of.
#[derive(Clone, Copy, Debug, PartialEq, Eq, Structural)]
pub enum Phase {
    /// Between requests.
    Idle,
    /// A cool-down is running; the request at the head of the queue waits for it.
    Cooling,
    /// The cool-down has run; the request at the head of the queue goes next.
    Cooled,
    /// A call is under way for the request of this slot.
    Calling(u64),
    /// The run has failed with this error; nothing is served any more.
    Aborted(Error),
}

/// What the loop around the dispatcher has to do next.
#[derive(Debug)]
pub enum Action {
    /// Nothing, until the next event has been handed in.
    Wait,
    /// Leave: every workflow has completed and nothing is pending.
    Exit,
    /// Sit out this cool-down, then report that it has run.
    CoolDown(CooldownPlan),
    /// Send `payload` to `address`, then hand in the answer.
    Call { address: String, payload: Vec<u8> },
    /// Deliver the cancellations, then end the run with `error`.
    Abort { error: Error, cancelled: Vec<Reply> },
}

/// An action with its texts and lists as mathematical sequences.
pub enum ActionView {
    Wait,
    Exit,
    CoolDown(CooldownPlan),
    Call { address: Seq<char>, payload: Seq<u8> },
    Abort { error: Error, cancelled: Seq<Reply> },
}

impl View for Action {
    type V = ActionView;

    open spec fn view(&self) -> ActionView {
        match *self {
            Action::Wait => ActionView::Wait,
            Action::Exit => ActionView::Exit,
            Action::CoolDown(plan) => ActionView::CoolDown(plan),
            Action::Call { address, payload } => ActionView::Call {
                address: address@,
                payload: payload@,
            },
            Action::Abort { error, cancelled } => ActionView::Abort {
                error,
                cancelled: cancelled@,
            },
        }
    }
}

/// The dispatcher as a mathematical value.
pub struct DispatchState {
    /// The client's key.
    pub key: Seq<char>,
    /// The client's mode.
    pub slow: bool,
    /// The client's quota.
    pub quota: Quota,
    /// The requests not yet taken up, oldest first.
    pub queue: Seq<Request>,
    /// What the dispatcher is in the middle of.
    pub phase: Phase,
    /// Workflows that have not completed yet.
    pub outstanding: nat,
    /// Workflows that completed well.
    pub resolved: nat,
    /// Workflows that completed with a failure.
    pub failed: nat,
}

/// The cancellation of every request in `queue`, in the queue's order.
pub open spec fn cancelled(queue: Seq<Request>) -> Seq<Reply> {
    Seq::new(queue.len(), |i: int| Reply { slot: queue[i].slot, result: Err(Error::Cancelled) })
}

/// What an answer means for the workflow whose call it ends.
pub open spec fn answer_result(answer: Answer) -> Result<Match, Error> {
    match answer {
        Answer::Received(response) => outcome_of(response),
        Answer::Unreadable => Err(Error::Decode(DecodeError::Malformed)),
        Answer::Failed => Err(Error::Transport),
    }
}

/// The dispatcher of a client with the given key, mode and quota, before any
/// event, with `workflows` workflows under way.
pub open spec fn fresh(key: Seq<char>, slow: bool, quota: Quota, workflows: nat) -> DispatchState {
    DispatchState {
        key,
        slow,
        quota,
        queue: Seq::empty(),
        phase: Phase::Idle,
        outstanding: workflows,
        resolved: 0,
        failed: 0,
    }
}

/// A request arrives: it joins the end of the queue.
pub open spec fn submit_step(s: DispatchState, request: Request) -> DispatchState {
    DispatchState { queue: s.queue.push(request), ..s }
}

/// A workflow completes: it is no longer outstanding, and its outcome is counted.
/// Without an outstanding workflow nothing changes.
pub open spec fn done_step(s: DispatchState, ok: bool) -> DispatchState {
    if s.outstanding == 0 {
        s
    } else if ok {
        DispatchState { outstanding: (s.outstanding - 1) as nat, resolved: s.resolved + 1, ..s }
    } else {
        DispatchState { outstanding: (s.outstanding - 1) as nat, failed: s.failed + 1, ..s }
    }
}

/// A cool-down has run. Outside a cool-down nothing changes.
pub open spec fn cooled_step(s: DispatchState) -> DispatchState {
    if s.phase == Phase::Cooling {
        DispatchState { phase: Phase::Cooled, ..s }
    } else {
        s
    }
}

/// The call under way ends with `answer`: its slot gets the reply. A response
/// brings the quota up to date; an unreadable answer fails its own workflow and
/// leaves the quota alone; a failed call aborts the run. With no call under way
/// nothing changes and nothing is replied.
pub open spec fn answer_step(s: DispatchState, answer: Answer) -> (DispatchState, Option<Reply>) {
    match s.phase {
        Phase::Calling(slot) => {
            let reply = Reply { slot, result: answer_result(answer) };
            match answer {
                Answer::Received(response) => (
                    DispatchState { quota: absorb(s.quota, response), phase: Phase::Idle, ..s },
                    Some(reply),
                ),
                Answer::Unreadable => (DispatchState { phase: Phase::Idle, ..s }, Some(reply)),
                Answer::Failed => (
                    DispatchState { phase: Phase::Aborted(Error::Transport), ..s },
                    Some(reply),
                ),
            }
        },
        _ => (s, None),
    }
}

/// The run ends with `error`: every queued request is cancelled.
pub open spec fn abort_step(s: DispatchState, error: Error) -> (DispatchState, ActionView) {
    (
        DispatchState { queue: Seq::empty(), phase: Phase::Aborted(error), ..s },
        ActionView::Abort { error, cancelled: cancelled(s.queue) },
    )
}

/// The request at the head of the queue is taken up, any cool-down behind it:
/// with the long counter at zero the run aborts, otherwise the call goes out.
pub open spec fn serve_step(s: DispatchState) -> (DispatchState, ActionView) {
    if s.quota.exhausted() {
        abort_step(s, Error::LongLimit)
    } else {
        match search_address(s.key) {
            None => abort_step(s, Error::Config),
            Some(address) => (
                DispatchState { queue: s.queue.skip(1), phase: Phase::Calling(s.queue[0].slot), ..s },
                ActionView::Call { address, payload: s.queue[0].payload@ },
            ),
        }
    }
}

/// What the loop does next, and the state it leaves the dispatcher in.
pub open spec fn poll_step(s: DispatchState) -> (DispatchState, ActionView) {
    match s.phase {
        Phase::Aborted(error) => abort_step(s, error),
        Phase::Cooling => (s, ActionView::Wait),
        Phase::Calling(_) => (s, ActionView::Wait),
        Phase::Idle => if s.queue.len() == 0 {
            (
                s,
                if s.outstanding == 0 {
                    ActionView::Exit
                } else {
                    ActionView::Wait
                },
            )
        } else if s.quota.throttled(s.slow) {
            (DispatchState { phase: Phase::Cooling, ..s }, ActionView::CoolDown(standard_cooldown()))
        } else {
            serve_step(s)
        },
        Phase::Cooled => if s.queue.len() == 0 {
            (
                DispatchState { phase: Phase::Idle, ..s },
                if s.outstanding == 0 {
                    ActionView::Exit
                } else {
                    ActionView::Wait
                },
            )
        } else {
            serve_step(s)
        },
    }
}

/// How many workflows are under way and how those that are not have ended.
pub struct Tally {
    workflows: u64,
    resolved: u64,
    failed: u64,
}

impl Tally {
    #[verifier::type_invariant]
    spec fn sound(self) -> bool {
        self.resolved + self.failed <= self.workflows
    }

    /// Workflows that have not completed yet.
    pub closed spec fn outstanding(self) -> nat {
        (self.workflows - self.resolved - self.failed) as nat
    }

    /// Workflows that completed well.
    pub closed spec fn resolved(self) -> nat {
        self.resolved as nat
    }

    /// Workflows that completed with a failure.
    pub closed spec fn failed(self) -> nat {
        self.failed as nat
    }

    /// The tally of `workflows` workflows, none of them completed.
    pub fn new(workflows: u64) -> (tally: Tally)
        ensures
            tally.outstanding() == workflows,
            tally.resolved() == 0,
            tally.failed() == 0,
    {
        Tally { workflows, resolved: 0, failed: 0 }
    }

    /// Whether no workflow is under way any more.
    pub fn all_done(&self) -> (done: bool)
        ensures
            done == (self.outstanding() == 0),
    {
        proof {
            use_type_invariant(self);
        }
        self.resolved + self.failed == self.workflows
    }

    /// Counts one completed workflow, unless none was under way.
    pub fn record(&mut self, ok: bool)
        ensures
            old(self).outstanding() == 0 ==> *final(self) == *old(self),
            old(self).outstanding() > 0 ==> final(self).outstanding() == old(self).outstanding() - 1,
            old(self).outstanding() > 0 && ok ==> final(self).resolved() == old(self).resolved() + 1
                && final(self).failed() == old(self).failed(),
            old(self).outstanding() > 0 && !ok ==> final(self).failed() == old(self).failed() + 1
                && final(self).resolved() == old(self).resolved(),
    {
        proof {
            use_type_invariant(&*self);
        }
        if self.resolved + self.failed < self.workflows {
            if ok {
                self.resolved = self.resolved + 1;
            } else {
                self.failed = self.failed + 1;
            }
        }
    }
}

/// The dispatch loop's state: the client it owns, the requests waiting for it,
/// and the workflows it supervises.
pub struct Dispatcher {
    client: SauceNaoClient,
    queue: VecDeque<Request>,
    phase: Phase,
    tally: Tally,
}

/// Cancels every request in `queue`, oldest first, and empties it.
fn cancel_all(queue: &mut VecDeque<Request>) -> (replies: Vec<Reply>)
    ensures
        final(queue)@.len() == 0,
        replies@ == cancelled(old(queue)@),
{
    let mut replies: Vec<Reply> = Vec::new();
    loop
        invariant
            replies@.len() + queue@.len() == old(queue)@.len(),
            queue@ =~= old(queue)@.skip(replies@.len() as int),
            replies@ =~= cancelled(old(queue)@.take(replies@.len() as int)),
        decreases queue@.len(),
    {
        match queue.pop_front() {
            None => {
                assert(old(queue)@.take(replies@.len() as int) =~= old(queue)@);
                return replies;
            },
            Some(request) => {
                replies.push(Reply { slot: request.slot, result: Err(Error::Cancelled) });
            },
        }
    }
}

impl Dispatcher {
    /// The dispatcher as a mathematical value.
    pub closed spec fn view(&self) -> DispatchState {
        DispatchState {
            key: self.client.key(),
            slow: self.client.is_slow(),
            quota: self.client.quota(),
            queue: self.queue@,
            phase: self.phase,
            outstanding: self.tally.outstanding(),
            resolved: self.tally.resolved(),
            failed: self.tally.failed(),
        }
    }

    /// A dispatcher that owns `client` and supervises `workflows` workflows.
    pub fn new(client: SauceNaoClient, workflows: u64) -> (dispatcher: Dispatcher)
        ensures
            dispatcher@ == fresh(client.key(), client.is_slow(), client.quota(), workflows as nat),
    {
        Dispatcher { client, queue: VecDeque::new(), phase: Phase::Idle, tally: Tally::new(workflows) }
    }

    /// What the dispatcher is in the middle of.
    pub fn phase(&self) -> (phase: Phase)
        ensures
            phase == self@.phase,
    {
        self.phase
    }

    /// The quota that the client believes is left.
    pub fn quota(&self) -> (quota: Quota)
        ensures
            quota == self@.quota,
    {
        self.client.remaining()
    }

    /// The number of requests not yet taken up.
    pub fn pending(&self) -> (n: usize)
        ensures
            n == self@.queue.len(),
    {
        self.queue.len()
    }

    /// Takes a workflow's request into the queue, behind all earlier ones.
    pub fn submit(&mut self, request: Request)
        ensures
            final(self)@ == submit_step(old(self)@, request),
    {
        self.queue.push_back(request);
    }

    /// Records that a workflow has completed, well or with a failure.
    pub fn workflow_done(&mut self, ok: bool)
        ensures
            final(self)@ == done_step(old(self)@, ok),
    {
        self.tally.record(ok);
    }

    /// Records that the cool-down asked for has run.
    pub fn cooled_down(&mut self)
        ensures
            final(self)@ == cooled_step(old(self)@),
    {
        if self.phase == Phase::Cooling {
            self.phase = Phase::Cooled;
        }
    }

    /// Takes the answer to the call under way and returns the reply for the slot
    /// of the request that the call was made for.
    pub fn answered(&mut self, answer: Answer) -> (reply: Option<Reply>)
        ensures
            (final(self)@, reply) == answer_step(old(self)@, answer),
            reply matches Some(r) ==> old(self)@.phase == Phase::Calling(r.slot),
    {
        match self.phase {
            Phase::Calling(slot) => match answer {
                Answer::Received(response) => {
                    let result = self.client.tag(&response);
                    self.phase = Phase::Idle;
                    Some(Reply { slot, result })
                },
                Answer::Unreadable => {
                    self.phase = Phase::Idle;
                    Some(Reply { slot, result: Err(Error::Decode(DecodeError::Malformed)) })
                },
                Answer::Failed => {
                    self.phase = Phase::Aborted(Error::Transport);
                    Some(Reply { slot, result: Err(Error::Transport) })
                },
            },
            _ => None,
        }
    }

    /// Ends the run with `error`, cancelling whatever is queued.
    fn abort(&mut self, error: Error) -> (action: Action)
        ensures
            (final(self)@, action@) == abort_step(old(self)@, error),
    {
        self.phase = Phase::Aborted(error);
        let cancelled = cancel_all(&mut self.queue);
        assert(self.queue@ =~= Seq::<Request>::empty());
        Action::Abort { error, cancelled }
    }

    /// Takes up the request at the head of the queue.
    fn serve(&mut self) -> (action: Action)
        requires
            old(self)@.queue.len() > 0,
        ensures
            (final(self)@, action@) == serve_step(old(self)@),
    {
        match self.client.request() {
            Err(error) => self.abort(error),
            Ok(address) => match self.queue.pop_front() {
                Some(request) => {
                    self.phase = Phase::Calling(request.slot);
                    assert(self.queue@ =~= old(self).queue@.skip(1));
                    Action::Call { address, payload: request.payload }
                },
                None => Action::Wait,
            },
        }
    }

    /// Decides what the loop does next.
    ///
    /// A cool-down is asked for exactly when a request is waiting between calls
    /// and the short counter is at or below the floor. A call goes out for the
    /// oldest request only, and never with the long counter at zero: then the run
    /// aborts. The loop may leave only when no workflow is outstanding and no
    /// request is pending, or when the run has aborted.
    pub fn poll(&mut self) -> (action: Action)
        ensures
            (final(self)@, action@) == poll_step(old(self)@),
            action@ is CoolDown <==> old(self)@.phase == Phase::Idle && old(self)@.queue.len() > 0
                && old(self)@.quota.throttled(old(self)@.slow),
            action@ is Call ==> !old(self)@.quota.exhausted() && old(self)@.queue.len() > 0,
            action@ is Call ==> old(self)@.phase == Phase::Cooled || (old(self)@.phase
                == Phase::Idle && !old(self)@.quota.throttled(old(self)@.slow)),
            action@ is Exit ==> old(self)@.outstanding == 0 && old(self)@.queue.len() == 0,
            action@ is Exit || action@ is Abort ==> final(self)@.queue.len() == 0 && !(
            final(self)@.phase is Calling),
    {
        match self.phase {
            Phase::Aborted(error) => self.abort(error),
            Phase::Cooling => Action::Wait,
            Phase::Calling(_) => Action::Wait,
            Phase::Idle => {
                if self.queue.len() == 0 {
                    if self.tally.all_done() {
                        Action::Exit
                    } else {
                        Action::Wait
                    }
                } else {
                    match self.client.cooldown() {
                        Some(plan) => {
                            self.phase = Phase::Cooling;
                            Action::CoolDown(plan)
                        },
                        None => self.serve(),
                    }
                }
            },
            Phase::Cooled => {
                if self.queue.len() == 0 {
                    self.phase = Phase::Idle;
                    if self.tally.all_done() {
                        Action::Exit
                    } else {
                        Action::Wait
                    }
                } else {
                    self.serve()
                }
            },
        }
    }
}

} // verus!
