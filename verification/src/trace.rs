//! Whole runs of the dispatch loop, and what holds of every one of them.
//!
//! A run is any sequence of events handed to a dispatcher, in any order and at
//! any time, sensible or not. The laws below are stated for all of them.

use vstd::prelude::*;
use crate::dispatch::{
    answer_result, answer_step, cooled_step, done_step, poll_step, submit_step, ActionView, Answer,
    DispatchState, Phase, Reply, Request,
};
use crate::error::Error;
use crate::response::SauceNaoResponse;
use crate::saucenao::quota_after;

verus! {

/// One event of a run.
pub enum Op {
    /// A workflow hands in a request.
    Submit(Request),
    /// A workflow completes, well or with a failure.
    WorkflowDone(bool),
    /// A cool-down has run.
    CooledDown,
    /// A call has ended with this answer.
    Answered(Answer),
    /// The loop asks what to do next, and does it.
    Poll,
}

/// A run so far: the dispatcher's state and everything it has caused.
pub struct Trace {
    /// The dispatcher's state.
    pub state: DispatchState,
    /// The replies delivered, in the order of delivery.
    pub replies: Seq<Reply>,
    /// The payloads of the calls made, in the order of the calls.
    pub calls: Seq<Seq<u8>>,
    /// The answers taken for those calls, in the order they came.
    pub answers: Seq<Answer>,
    /// The number of cool-downs asked for.
    pub waits: nat,
}

/// The run that has not begun.
pub open spec fn begin(state: DispatchState) -> Trace {
    Trace { state, replies: Seq::empty(), calls: Seq::empty(), answers: Seq::empty(), waits: 0 }
}

/// The run `t`, one event later.
pub open spec fn advance(t: Trace, op: Op) -> Trace {
    match op {
        Op::Submit(request) => Trace { state: submit_step(t.state, request), ..t },
        Op::WorkflowDone(ok) => Trace { state: done_step(t.state, ok), ..t },
        Op::CooledDown => Trace { state: cooled_step(t.state), ..t },
        Op::Answered(answer) => {
            let (state, reply) = answer_step(t.state, answer);
            match reply {
                Some(r) => Trace {
                    state,
                    replies: t.replies.push(r),
                    answers: t.answers.push(answer),
                    ..t
                },
                None => Trace { state, ..t },
            }
        },
        Op::Poll => {
            let (state, action) = poll_step(t.state);
            match action {
                ActionView::Call { address, payload } => Trace {
                    state,
                    calls: t.calls.push(payload),
                    ..t
                },
                ActionView::Abort { error, cancelled } => Trace {
                    state,
                    replies: t.replies + cancelled,
                    ..t
                },
                ActionView::CoolDown(_) => Trace { state, waits: t.waits + 1, ..t },
                _ => Trace { state, ..t },
            }
        },
    }
}

/// The run that starts in `state` and sees `ops` in turn.
pub open spec fn run(state: DispatchState, ops: Seq<Op>) -> Trace
    decreases ops.len(),
{
    if ops.len() == 0 {
        begin(state)
    } else {
        advance(run(state, ops.drop_last()), ops.last())
    }
}

/// The requests handed in during `ops`, in the order of arrival.
pub open spec fn submitted(ops: Seq<Op>) -> Seq<Request>
    decreases ops.len(),
{
    if ops.len() == 0 {
        Seq::empty()
    } else {
        match ops.last() {
            Op::Submit(request) => submitted(ops.drop_last()).push(request),
            _ => submitted(ops.drop_last()),
        }
    }
}

/// The number of requests taken from the queue and not yet replied to: one
/// while a call is under way, else none.
pub open spec fn in_flight(state: DispatchState) -> nat {
    if state.phase is Calling {
        1
    } else {
        0
    }
}

/// The run `t` has treated the requests `requests` first come first served, and
/// each of them at most once.
///
/// Counting from the oldest request: the replies delivered belong to the first
/// requests, one each and in their order, each for the slot its request named;
/// the call under way, if any, is for the next request; the queue holds all the
/// others, in their order. The calls made carried the payloads of the first
/// requests, in their order, and the answers taken are the answers to those
/// calls. A reply carries what the answer to its own request's call means, and
/// where the run was aborted before that call it carries the cancellation.
pub open spec fn first_come_first_served(t: Trace, requests: Seq<Request>) -> bool {
    let taken = t.replies.len() + in_flight(t.state);
    &&& taken <= requests.len()
    &&& t.state.queue =~= requests.skip(taken as int)
    &&& forall|i: int| 0 <= i < t.replies.len() ==> (#[trigger] t.replies[i]).slot == requests[i].slot
    &&& t.state.phase matches Phase::Calling(slot) ==> slot == requests[t.replies.len() as int].slot
    &&& t.calls.len() <= taken
    &&& forall|i: int| 0 <= i < t.calls.len() ==> #[trigger] t.calls[i] == requests[i].payload@
    &&& t.answers.len() + in_flight(t.state) == t.calls.len()
    &&& !(t.state.phase is Aborted) ==> t.calls.len() == taken
    &&& forall|i: int|
        0 <= i < t.answers.len() ==> (#[trigger] t.replies[i]).result == answer_result(t.answers[i])
    &&& forall|i: int|
        t.answers.len() <= i < t.replies.len() ==> (#[trigger] t.replies[i]).result == Err::<
            crate::response::Match,
            Error,
        >(Error::Cancelled)
}

/// Nothing is pending in `state`: no request is queued and no call is under way.
pub open spec fn settled(state: DispatchState) -> bool {
    state.queue.len() == 0 && !(state.phase is Calling)
}

/// One event keeps a run first come, first served.
proof fn lemma_advance_keeps_order(t: Trace, requests: Seq<Request>, op: Op)
    requires
        first_come_first_served(t, requests),
    ensures
        first_come_first_served(
            advance(t, op),
            match op {
                Op::Submit(request) => requests.push(request),
                _ => requests,
            },
        ),
{
    let next = advance(t, op);
    let taken = t.replies.len() + in_flight(t.state);
    match op {
        Op::Submit(request) => {
            let more = requests.push(request);
            assert(next.state.queue =~= more.skip(taken as int));
        },
        Op::WorkflowDone(ok) => {},
        Op::CooledDown => {},
        Op::Answered(answer) => {
            match t.state.phase {
                Phase::Calling(slot) => {
                    assert(next.replies.len() == t.replies.len() + 1);
                    assert(next.answers.len() == t.answers.len() + 1);
                    assert(forall|i: int|
                        0 <= i < t.replies.len() ==> next.replies[i] == t.replies[i]);
                    assert(forall|i: int|
                        0 <= i < t.answers.len() ==> next.answers[i] == t.answers[i]);
                    assert(t.answers.len() == t.replies.len());
                },
                _ => {},
            }
        },
        Op::Poll => {
            let (state, action) = poll_step(t.state);
            match action {
                ActionView::Call { address, payload } => {
                    assert(t.state.queue.len() > 0);
                    assert(t.state.queue[0] == requests[taken as int]);
                    assert(state.queue =~= requests.skip(taken as int + 1));
                    assert(forall|i: int| 0 <= i < t.calls.len() ==> next.calls[i] == t.calls[i]);
                },
                ActionView::Abort { error, cancelled } => {
                    assert(state.queue.len() == 0);
                    assert(cancelled.len() == t.state.queue.len());
                    assert(next.replies.len() == requests.len());
                    assert(state.queue =~= requests.skip(requests.len() as int));
                    assert forall|i: int| 0 <= i < next.replies.len() implies (
                    #[trigger] next.replies[i]).slot == requests[i].slot by {
                        if i >= t.replies.len() {
                            assert(next.replies[i] == cancelled[i - t.replies.len()]);
                            assert(t.state.queue[i - t.replies.len()] == requests[i]);
                        } else {
                            assert(next.replies[i] == t.replies[i]);
                        }
                    }
                    assert forall|i: int| 0 <= i < next.answers.len() implies (
                    #[trigger] next.replies[i]).result == answer_result(next.answers[i]) by {
                        assert(next.replies[i] == t.replies[i]);
                    }
                    assert forall|i: int| next.answers.len() <= i < next.replies.len() implies (
                    #[trigger] next.replies[i]).result == Err::<crate::response::Match, Error>(
                        Error::Cancelled,
                    ) by {
                        if i >= t.replies.len() {
                            assert(next.replies[i] == cancelled[i - t.replies.len()]);
                        } else {
                            assert(next.replies[i] == t.replies[i]);
                        }
                    }
                },
                _ => {},
            }
        },
    }
}

/// Every run serves its requests first come, first served, each at most once
/// and each with the answer to its own call.
///
/// However requests, answers, completions and cool-downs interleave: the i-th
/// call carries the payload of the i-th request, the i-th reply goes to the slot
/// that the i-th request named and carries what the answer to the i-th call
/// means (or the cancellation, where the run was aborted first), and a request
/// without a reply is still under way or queued.
pub proof fn lemma_first_come_first_served(state: DispatchState, ops: Seq<Op>)
    requires
        settled(state),
    ensures
        first_come_first_served(run(state, ops), submitted(ops)),
    decreases ops.len(),
{
    if ops.len() == 0 {
        assert(state.queue =~= submitted(ops).skip(0));
    } else {
        lemma_first_come_first_served(state, ops.drop_last());
        lemma_advance_keeps_order(
            run(state, ops.drop_last()),
            submitted(ops.drop_last()),
            ops.last(),
        );
    }
}

/// When the loop is told to leave or to abort, every request handed in so far
/// has had exactly one reply, in the order of arrival and on its own slot.
pub proof fn lemma_every_request_replied(state: DispatchState, ops: Seq<Op>)
    requires
        settled(state),
        poll_step(run(state, ops).state).1 is Exit || poll_step(run(state, ops).state).1 is Abort,
    ensures
        run(state, ops.push(Op::Poll)).replies.len() == submitted(ops).len(),
        forall|i: int|
            0 <= i < submitted(ops).len() ==> (#[trigger] run(
                state,
                ops.push(Op::Poll),
            ).replies[i]).slot == submitted(ops)[i].slot,
{
    let all = ops.push(Op::Poll);
    assert(all.drop_last() =~= ops);
    lemma_first_come_first_served(state, all);
    assert(submitted(all) == submitted(ops));
}

/// The responses among `answers`, in their order.
pub open spec fn responses_of(answers: Seq<Answer>) -> Seq<SauceNaoResponse>
    decreases answers.len(),
{
    if answers.len() == 0 {
        Seq::empty()
    } else {
        match answers.last() {
            Answer::Received(response) => responses_of(answers.drop_last()).push(response),
            _ => responses_of(answers.drop_last()),
        }
    }
}

/// At every point of a run the quota is what the responses taken so far have
/// made of the quota at the start: after the K-th response, the counters that
/// its header carries.
pub proof fn lemma_quota_tracks_responses(state: DispatchState, ops: Seq<Op>)
    ensures
        run(state, ops).state.quota == quota_after(
            state.quota,
            responses_of(run(state, ops).answers),
        ),
    decreases ops.len(),
{
    if ops.len() > 0 {
        let before = run(state, ops.drop_last());
        let after = run(state, ops);
        lemma_quota_tracks_responses(state, ops.drop_last());
        match ops.last() {
            Op::Answered(answer) => {
                if before.state.phase is Calling {
                    assert(after.answers.drop_last() =~= before.answers);
                    match answer {
                        Answer::Received(response) => {
                            let seen = responses_of(after.answers);
                            assert(seen.drop_last() =~= responses_of(before.answers));
                        },
                        _ => {},
                    }
                }
            },
            _ => {},
        }
    }
}

/// With the long counter at zero and no call under way, no call is ever made
/// again, and the quota stays as it is: whatever events follow.
pub proof fn lemma_exhausted_makes_no_call(state: DispatchState, ops: Seq<Op>)
    requires
        state.quota.exhausted(),
        !(state.phase is Calling),
    ensures
        run(state, ops).calls.len() == 0,
        run(state, ops).answers.len() == 0,
        run(state, ops).state.quota == state.quota,
        !(run(state, ops).state.phase is Calling),
    decreases ops.len(),
{
    if ops.len() > 0 {
        lemma_exhausted_makes_no_call(state, ops.drop_last());
    }
}

/// With the long counter at zero, taking up a request aborts the run with the
/// long-limit error, which is fatal to the run.
pub proof fn lemma_exhausted_aborts(state: DispatchState)
    requires
        state.quota.exhausted(),
        state.queue.len() > 0,
        state.phase == Phase::Cooled || (state.phase == Phase::Idle && !state.quota.throttled(
            state.slow,
        )),
    ensures
        poll_step(state).1 matches ActionView::Abort { error, cancelled } && error
            == Error::LongLimit && error.run_fatal() && cancelled.len() == state.queue.len(),
        poll_step(state).0.phase == Phase::Aborted(Error::LongLimit),
{
}

/// Once a run has aborted it stays aborted and makes no call.
pub proof fn lemma_aborted_makes_no_call(state: DispatchState, ops: Seq<Op>)
    requires
        state.phase is Aborted,
    ensures
        run(state, ops).calls.len() == 0,
        run(state, ops).state.phase == state.phase,
    decreases ops.len(),
{
    if ops.len() > 0 {
        lemma_aborted_makes_no_call(state, ops.drop_last());
    }
}

} // verus!
