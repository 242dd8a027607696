use plymouth_bot::dispatch::{Action, Answer, Dispatcher, Phase, Reply, Request, Tally};
use plymouth_bot::error::{DecodeError, Error};
use plymouth_bot::quota::{CooldownPlan, Quota};
use plymouth_bot::response::{Field, Member, SauceNaoResponse, SauceNaoResult};
use plymouth_bot::saucenao::SauceNaoClient;

const ADDRESS: &str =
    "https://saucenao.com/search.php?output_type=2&numres=1&minsim=85&db=9&api_key=key";

fn member(key: &str, value: Field) -> Member {
    Member { key: key.to_string(), value }
}

fn response(short: u64, long: u64, id: u64) -> SauceNaoResponse {
    SauceNaoResponse::new(
        vec![
            member("short_remaining", Field::Unsigned(short)),
            member("long_remaining", Field::Unsigned(long)),
        ],
        vec![SauceNaoResult::new(
            vec![member("external_id", Field::Unsigned(id))],
            vec![member("similarity", Field::Text("92.50".to_string()))],
        )],
    )
}

fn request(slot: u64) -> Request {
    Request { slot, payload: vec![slot as u8, 0xAB] }
}

fn dispatcher(workflows: u64) -> Dispatcher {
    Dispatcher::new(SauceNaoClient::new("key"), workflows)
}

/// A service that grants `window` calls between cool-downs and answers each
/// call with the identifier found in the payload's first byte.
struct Service {
    window: u64,
    short: u64,
    long: u64,
    calls: Vec<Vec<u8>>,
}

impl Service {
    fn answer(&mut self, payload: Vec<u8>) -> Answer {
        assert!(self.short > 0, "called with the short window used up");
        assert!(self.long > 0, "called with the long window used up");
        self.short -= 1;
        self.long -= 1;
        let id = u64::from(payload[0]);
        self.calls.push(payload);
        Answer::Received(response(self.short, self.long, id))
    }
}

/// Runs the loop until it leaves or aborts; returns the replies in order of
/// delivery, the number of cool-downs, and the error of an abort.
fn drive(d: &mut Dispatcher, service: &mut Service) -> (Vec<Reply>, usize, Option<Error>) {
    let mut replies = Vec::new();
    let mut waits = 0;
    loop {
        match d.poll() {
            Action::Exit => return (replies, waits, None),
            Action::Abort { error, cancelled } => {
                replies.extend(cancelled);
                return (replies, waits, Some(error));
            }
            Action::Wait => panic!("the loop waits though no event is due"),
            Action::CoolDown(plan) => {
                assert_eq!(plan, CooldownPlan::standard());
                waits += 1;
                service.short = service.window;
                d.cooled_down();
            }
            Action::Call { address, payload } => {
                assert_eq!(address, ADDRESS);
                let reply = d.answered(service.answer(payload)).unwrap();
                if reply.result.is_ok() {
                    d.workflow_done(true);
                } else {
                    d.workflow_done(false);
                }
                replies.push(reply);
            }
        }
    }
}

#[test]
fn fresh_dispatcher_waits_for_its_workflows() {
    let mut d = dispatcher(2);
    assert_eq!(d.phase(), Phase::Idle);
    assert_eq!(d.pending(), 0);
    assert_eq!(d.quota(), Quota { short_remaining: 4, long_remaining: 100 });
    assert!(matches!(d.poll(), Action::Wait));
    d.workflow_done(true);
    assert!(matches!(d.poll(), Action::Wait));
    d.workflow_done(false);
    assert!(matches!(d.poll(), Action::Exit));
}

#[test]
fn dispatcher_without_workflows_leaves_at_once() {
    let mut d = dispatcher(0);
    assert!(matches!(d.poll(), Action::Exit));
    d.workflow_done(true);
    assert!(matches!(d.poll(), Action::Exit));
}

#[test]
fn pending_request_keeps_the_loop_running() {
    let mut d = dispatcher(1);
    d.submit(request(1));
    d.workflow_done(true);
    assert_eq!(d.pending(), 1);
    assert!(matches!(d.poll(), Action::Call { .. }));
    assert!(matches!(d.poll(), Action::Wait));
    assert_eq!(d.phase(), Phase::Calling(1));
}

#[test]
fn replies_go_to_their_own_slots_in_arrival_order() {
    let mut d = dispatcher(3);
    d.submit(request(30));
    d.submit(request(10));
    d.submit(request(20));
    let mut service = Service { window: 100, short: 100, long: 100, calls: vec![] };
    let (replies, waits, error) = drive(&mut d, &mut service);
    assert_eq!(error, None);
    assert_eq!(waits, 0);
    assert_eq!(replies.iter().map(|r| r.slot).collect::<Vec<_>>(), vec![30, 10, 20]);
    assert_eq!(
        replies.iter().map(|r| r.result.unwrap().external_id).collect::<Vec<_>>(),
        vec![30, 10, 20]
    );
    assert_eq!(service.calls, vec![vec![30, 0xAB], vec![10, 0xAB], vec![20, 0xAB]]);
}

#[test]
fn requests_arriving_during_a_call_are_served_after_it() {
    let mut d = dispatcher(2);
    d.submit(request(1));
    let payload = match d.poll() {
        Action::Call { payload, .. } => payload,
        other => panic!("unexpected {:?}", other),
    };
    assert_eq!(payload, vec![1, 0xAB]);
    d.submit(request(2));
    assert!(matches!(d.poll(), Action::Wait));
    let reply = d.answered(Answer::Received(response(3, 99, 77))).unwrap();
    assert_eq!(reply.slot, 1);
    assert_eq!(reply.result.unwrap().external_id, 77);
    assert_eq!(d.quota(), Quota { short_remaining: 3, long_remaining: 99 });
    match d.poll() {
        Action::Call { payload, .. } => assert_eq!(payload, vec![2, 0xAB]),
        other => panic!("unexpected {:?}", other),
    }
    assert_eq!(d.phase(), Phase::Calling(2));
}

#[test]
fn fifty_workflows_on_a_short_window_of_four_wait_at_least_once() {
    let mut d = dispatcher(50);
    for slot in 0..50 {
        d.submit(request(slot));
    }
    let mut service = Service { window: 4, short: 4, long: 100, calls: vec![] };
    let (replies, waits, error) = drive(&mut d, &mut service);
    assert_eq!(error, None);
    assert!(waits >= 1);
    assert_eq!(waits, 12);
    assert_eq!(replies.len(), 50);
    for (i, reply) in replies.iter().enumerate() {
        assert_eq!(reply.slot, i as u64);
        assert_eq!(reply.result.unwrap().external_id, i as u64);
    }
    assert_eq!(service.calls.len(), 50);
    assert_eq!(d.quota(), Quota { short_remaining: 2, long_remaining: 50 });
}

#[test]
fn slow_mode_waits_before_the_first_request_only_when_at_the_floor() {
    let mut client = SauceNaoClient::new("key");
    client.set_slow(true);
    let mut d = Dispatcher::new(client, 1);
    d.submit(request(1));
    assert!(matches!(d.poll(), Action::Call { .. }));
    let _ = d.answered(Answer::Received(response(3, 99, 1)));
    d.submit(request(2));
    assert!(matches!(d.poll(), Action::CoolDown(_)));
    assert_eq!(d.phase(), Phase::Cooling);
    assert!(matches!(d.poll(), Action::Wait));
    d.cooled_down();
    assert_eq!(d.phase(), Phase::Cooled);
    assert!(matches!(d.poll(), Action::Call { .. }));
}

#[test]
fn exhausted_long_quota_aborts_and_cancels_what_is_queued() {
    let mut d = dispatcher(3);
    d.submit(request(1));
    d.submit(request(2));
    d.submit(request(3));
    assert!(matches!(d.poll(), Action::Call { .. }));
    let reply = d.answered(Answer::Received(response(4, 0, 9))).unwrap();
    assert_eq!(reply.slot, 1);
    assert!(reply.result.is_ok());
    match d.poll() {
        Action::Abort { error, cancelled } => {
            assert_eq!(error, Error::LongLimit);
            assert!(error.is_run_fatal());
            assert_eq!(
                cancelled,
                vec![
                    Reply { slot: 2, result: Err(Error::Cancelled) },
                    Reply { slot: 3, result: Err(Error::Cancelled) },
                ]
            );
        }
        other => panic!("unexpected {:?}", other),
    }
    assert_eq!(d.phase(), Phase::Aborted(Error::LongLimit));
    assert_eq!(d.pending(), 0);
    d.submit(request(4));
    d.cooled_down();
    assert_eq!(d.answered(Answer::Failed), None);
    match d.poll() {
        Action::Abort { error, cancelled } => {
            assert_eq!(error, Error::LongLimit);
            assert_eq!(cancelled, vec![Reply { slot: 4, result: Err(Error::Cancelled) }]);
        }
        other => panic!("unexpected {:?}", other),
    }
    assert!(matches!(d.poll(), Action::Abort { .. }));
}

#[test]
fn cool_down_comes_before_the_long_limit() {
    let mut d = dispatcher(1);
    d.submit(request(1));
    assert!(matches!(d.poll(), Action::Call { .. }));
    let _ = d.answered(Answer::Received(response(0, 0, 9)));
    d.submit(request(2));
    assert!(matches!(d.poll(), Action::CoolDown(_)));
    d.cooled_down();
    assert!(matches!(d.poll(), Action::Abort { error: Error::LongLimit, .. }));
}

#[test]
fn failed_call_aborts_the_run() {
    let mut d = dispatcher(2);
    d.submit(request(1));
    d.submit(request(2));
    assert!(matches!(d.poll(), Action::Call { .. }));
    assert_eq!(
        d.answered(Answer::Failed),
        Some(Reply { slot: 1, result: Err(Error::Transport) })
    );
    match d.poll() {
        Action::Abort { error, cancelled } => {
            assert_eq!(error, Error::Transport);
            assert_eq!(cancelled, vec![Reply { slot: 2, result: Err(Error::Cancelled) }]);
        }
        other => panic!("unexpected {:?}", other),
    }
}

#[test]
fn decode_failure_reaches_its_workflow_and_the_run_goes_on() {
    let mut d = dispatcher(2);
    d.submit(request(1));
    d.submit(request(2));
    assert!(matches!(d.poll(), Action::Call { .. }));
    let empty = SauceNaoResponse::new(
        vec![
            member("short_remaining", Field::Unsigned(2)),
            member("long_remaining", Field::Unsigned(98)),
        ],
        vec![],
    );
    assert_eq!(
        d.answered(Answer::Received(empty)),
        Some(Reply { slot: 1, result: Err(Error::Decode(DecodeError::NoResults)) })
    );
    assert_eq!(d.quota(), Quota { short_remaining: 2, long_remaining: 98 });
    assert_eq!(d.phase(), Phase::Idle);
    assert!(matches!(d.poll(), Action::Call { .. }));
}

#[test]
fn unreadable_answer_fails_its_workflow_only() {
    let mut d = dispatcher(2);
    d.submit(request(1));
    d.submit(request(2));
    assert!(matches!(d.poll(), Action::Call { .. }));
    assert_eq!(
        d.answered(Answer::Unreadable),
        Some(Reply { slot: 1, result: Err(Error::Decode(DecodeError::Malformed)) })
    );
    assert_eq!(d.quota(), Quota::initial());
    assert!(matches!(d.poll(), Action::Call { .. }));
}

#[test]
fn events_out_of_place_change_nothing() {
    let mut d = dispatcher(1);
    assert_eq!(d.answered(Answer::Received(response(0, 0, 1))), None);
    assert_eq!(d.quota(), Quota::initial());
    d.cooled_down();
    assert_eq!(d.phase(), Phase::Idle);
    d.submit(request(1));
    assert!(matches!(d.poll(), Action::Call { .. }));
    d.cooled_down();
    assert_eq!(d.phase(), Phase::Calling(1));
}

#[test]
fn tally_counts_each_workflow_once() {
    let mut tally = Tally::new(2);
    assert!(!tally.all_done());
    tally.record(true);
    assert!(!tally.all_done());
    tally.record(false);
    assert!(tally.all_done());
    tally.record(true);
    assert!(tally.all_done());
    assert!(Tally::new(0).all_done());
}
