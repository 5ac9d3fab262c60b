use std::cell::{Cell, RefCell};
use std::rc::Rc;

use waybar_timer::broadcast::Round;
use waybar_timer::clock::Moment;
use waybar_timer::protocol::Request;
use waybar_timer::server::{Answer, Publication, ServerState};
use waybar_timer::timer::{Effect, Timer};

const SECOND: i128 = 1_000_000_000;
const MINUTE: i128 = 60 * SECOND;
const T0: i128 = 1_700_000_000 * SECOND;

fn at(unix_nanos: i128) -> Moment {
    Moment::new(unix_nanos, 0).unwrap()
}

/// A subscriber connection that records what is written to it, and refuses
/// writes once it is closed.
struct Pipe {
    open: Cell<bool>,
    received: RefCell<Vec<String>>,
}

impl Pipe {
    fn new() -> Rc<Pipe> {
        Rc::new(Pipe { open: Cell::new(true), received: RefCell::new(Vec::new()) })
    }

    fn write(&self, record: &str) -> bool {
        if self.open.get() {
            self.received.borrow_mut().push(record.to_string());
        }
        self.open.get()
    }

    fn records(&self) -> Vec<String> {
        self.received.borrow().clone()
    }
}

fn deliver(state: &mut ServerState<Rc<Pipe>>, publication: &Publication) {
    let mut round = publication.round;
    while let Some(pipe) = state.subs.current(&round) {
        let delivered = pipe.write(&publication.record);
        state.subs.settle(&mut round, delivered);
    }
}

fn record(text: &str, alt: &str, tooltip: &str) -> String {
    format!(
        "{{\"text\": \"{text}\", \"alt\": \"{alt}\", \"tooltip\": \"{tooltip}\", \"class\": \"timer\"}}\n"
    )
}

fn published(record: String, effect: Effect) -> Publication {
    Publication { record, effect, round: Round { next: 0 } }
}

/// Sends `request` at `now`, delivers the publication, and returns the
/// response and the effect of the command.
fn send(state: &mut ServerState<Rc<Pipe>>, now: Moment, request: Request) -> (Vec<u8>, Effect) {
    match state.answer(now, &request.encode()) {
        Answer::Handled { response, effect, publication } => {
            deliver(state, &publication);
            (response, effect)
        }
        other => panic!("not handled: {other:?}"),
    }
}

#[test]
fn new_server_state_is_idle_without_subscribers() {
    let state: ServerState<Rc<Pipe>> = ServerState::new();
    assert_eq!(state.timer, Timer::Idle);
    assert_eq!(state.subs.len(), 0);
}

#[test]
fn update_publishes_the_status_record() {
    let mut state: ServerState<Rc<Pipe>> = ServerState::new();
    let publication = state.update(at(T0));
    assert_eq!(
        publication,
        published(record("0", "standby", "No timer set"), Effect::Nothing)
    );
    assert_eq!(
        publication.record,
        "{\"text\": \"0\", \"alt\": \"standby\", \"tooltip\": \"No timer set\", \"class\": \"timer\"}\n"
    );
}

#[test]
fn record_is_one_line_with_its_terminator() {
    let mut state: ServerState<Rc<Pipe>> = ServerState::new();
    state.timer.start(at(T0), 90, None).unwrap();
    let publication = state.update(at(T0));
    assert!(publication.record.ends_with('\n'));
    assert_eq!(publication.record.matches('\n').count(), 1);
    assert_eq!(publication.record, record("90", "running", "Timer expires at 23:43"));
}

#[test]
fn subscriber_gets_the_current_status_on_attach() {
    let mut state: ServerState<Rc<Pipe>> = ServerState::new();
    state.timer.start(at(T0), 3, None).unwrap();
    let pipe = Pipe::new();
    let publication = state.subscribe(at(T0 + SECOND), pipe.clone());
    assert_eq!(state.subs.len(), 1);
    deliver(&mut state, &publication);
    assert_eq!(pipe.records(), [record("3", "running", "Timer expires at 22:16")]);
}

#[test]
fn subscribing_republishes_to_earlier_subscribers_too() {
    let mut state: ServerState<Rc<Pipe>> = ServerState::new();
    let first = Pipe::new();
    let publication = state.subscribe(at(T0), first.clone());
    deliver(&mut state, &publication);
    let second = Pipe::new();
    let publication = state.subscribe(at(T0), second.clone());
    deliver(&mut state, &publication);
    let idle = record("0", "standby", "No timer set");
    assert_eq!(first.records(), [idle.clone(), idle.clone()]);
    assert_eq!(second.records(), [idle]);
}

#[test]
fn subscribing_after_expiry_reports_the_expiry() {
    let mut state: ServerState<Rc<Pipe>> = ServerState::new();
    state.timer.start(at(T0), 1, Some("beep".to_string())).unwrap();
    let pipe = Pipe::new();
    let publication = state.subscribe(at(T0 + MINUTE), pipe.clone());
    assert_eq!(
        publication,
        published(
            record("0", "standby", "No timer set"),
            Effect::Expired { command: Some("beep".to_string()) }
        )
    );
    assert_eq!(state.timer, Timer::Idle);
}

#[test]
fn scenario_two_subscribers_see_an_increase() {
    let mut state: ServerState<Rc<Pipe>> = ServerState::new();
    let first = Pipe::new();
    let second = Pipe::new();
    state.subs.attach(first.clone());
    state.subs.attach(second.clone());

    // A running timer with two minutes left on display.
    let now = at(T0);
    state.timer = Timer::Running { expiry: at(T0 + 2 * MINUTE - SECOND), command: None };
    assert_eq!(state.timer.status(now).text, 2);

    let (response, effect) = send(&mut state, now, Request::Increase { seconds: 60 });
    assert_eq!(response, [0]);
    assert_eq!(effect, Effect::Notify { summary: "Timer expires at 22:16".to_string() });

    let expected = [record("3", "running", "Timer expires at 22:16")];
    assert_eq!(first.records(), expected);
    assert_eq!(second.records(), expected);
    assert_eq!(state.subs.len(), 2);
}

#[test]
fn scenario_closed_subscriber_is_dropped_and_the_others_are_served() {
    let mut state: ServerState<Rc<Pipe>> = ServerState::new();
    let pipes = [Pipe::new(), Pipe::new(), Pipe::new()];
    for pipe in &pipes {
        state.subs.attach(pipe.clone());
    }
    let publication = state.update(at(T0));
    deliver(&mut state, &publication);
    assert_eq!(state.subs.len(), 3);

    pipes[0].open.set(false);
    state.timer.start(at(T0), 1, None).unwrap();
    let publication = state.update(at(T0));
    deliver(&mut state, &publication);

    assert_eq!(state.subs.len(), 2);
    let idle = record("0", "standby", "No timer set");
    let running = record("1", "running", "Timer expires at 22:14");
    assert_eq!(pipes[0].records(), [idle.clone()]);
    assert_eq!(pipes[1].records(), [idle.clone(), running.clone()]);
    assert_eq!(pipes[2].records(), [idle.clone(), running.clone()]);

    let publication = state.update(at(T0 + MINUTE));
    deliver(&mut state, &publication);
    assert_eq!(state.subs.len(), 2);
    assert_eq!(pipes[0].records(), [idle.clone()]);
    assert_eq!(pipes[1].records(), [idle.clone(), running.clone(), idle.clone()]);
    assert_eq!(pipes[2].records(), [idle.clone(), running, idle]);
}

#[test]
fn subscribers_see_updates_in_the_order_of_the_transitions() {
    let mut state: ServerState<Rc<Pipe>> = ServerState::new();
    let first = Pipe::new();
    let second = Pipe::new();
    state.subs.attach(first.clone());
    state.subs.attach(second.clone());
    let requests = [
        Request::Start { minutes: 2, command: None },
        Request::Increase { seconds: 60 },
        Request::Togglepause,
        Request::Increase { seconds: -120 },
        Request::Cancel,
    ];
    for (step, request) in requests.into_iter().enumerate() {
        let (response, _) = send(&mut state, at(T0 + step as i128 * SECOND), request);
        assert_eq!(response, [0]);
    }
    let expected = [
        record("2", "running", "Timer expires at 22:15"),
        record("3", "running", "Timer expires at 22:16"),
        record("3", "paused", "Timer paused"),
        record("1", "paused", "Timer paused"),
        record("0", "standby", "No timer set"),
    ];
    assert_eq!(first.records(), expected);
    assert_eq!(second.records(), expected);
}

#[test]
fn answer_to_bytes_that_are_no_request_is_malformed() {
    let mut state: ServerState<Rc<Pipe>> = ServerState::new();
    assert_eq!(state.answer(at(T0), &[]), Answer::Malformed);
    assert_eq!(state.answer(at(T0), &[9]), Answer::Malformed);
    assert_eq!(
        state.answer(at(T0), &[1, 5, 0, 0, 0, 1, 1, 0, 0, 0, 0, 0, 0, 0, 0xff]),
        Answer::Malformed
    );
    assert_eq!(state.timer, Timer::Idle);
}

#[test]
fn answer_to_a_malformed_request_does_not_update_the_timer() {
    let mut state: ServerState<Rc<Pipe>> = ServerState::new();
    let expired = Timer::Running { expiry: at(T0 - SECOND), command: None };
    state.timer = Timer::Running { expiry: at(T0 - SECOND), command: None };
    assert_eq!(state.answer(at(T0), &[7]), Answer::Malformed);
    assert_eq!(state.timer, expired);
}

#[test]
fn answer_carries_the_domain_error_in_the_response() {
    let mut state: ServerState<Rc<Pipe>> = ServerState::new();
    let now = at(T0);
    let idle = record("0", "standby", "No timer set");
    let running = record("1", "running", "Timer expires at 22:14");
    assert_eq!(
        state.answer(now, &Request::Togglepause.encode()),
        Answer::Handled {
            response: vec![1],
            effect: Effect::Nothing,
            publication: published(idle.clone(), Effect::Nothing),
        }
    );
    assert_eq!(
        state.answer(now, &Request::Increase { seconds: 5 }.encode()),
        Answer::Handled {
            response: vec![1],
            effect: Effect::Nothing,
            publication: published(idle.clone(), Effect::Nothing),
        }
    );
    assert_eq!(
        state.answer(now, &Request::Cancel.encode()),
        Answer::Handled {
            response: vec![0],
            effect: Effect::Nothing,
            publication: published(idle, Effect::Nothing),
        }
    );
    assert_eq!(
        state.answer(now, &Request::Start { minutes: 1, command: Some("c".to_string()) }.encode()),
        Answer::Handled {
            response: vec![0],
            effect: Effect::Notify { summary: "Timer expires at 22:14".to_string() },
            publication: published(running.clone(), Effect::Nothing),
        }
    );
    assert_eq!(
        state.answer(now, &Request::Start { minutes: 1, command: None }.encode()),
        Answer::Handled {
            response: vec![2],
            effect: Effect::Nothing,
            publication: published(running, Effect::Nothing),
        }
    );
    assert_eq!(
        state.timer,
        Timer::Running { expiry: at(T0 + MINUTE - 1_000_000), command: Some("c".to_string()) }
    );
}

#[test]
fn answer_updates_the_timer_after_the_command() {
    let mut state: ServerState<Rc<Pipe>> = ServerState::new();
    state.timer = Timer::Running { expiry: at(T0 + 30 * SECOND), command: Some("c".to_string()) };
    let answer = state.answer(at(T0), &Request::Increase { seconds: -30 }.encode());
    assert_eq!(
        answer,
        Answer::Handled {
            response: vec![0],
            effect: Effect::Notify { summary: "Timer expires at 22:13".to_string() },
            publication: published(
                record("0", "standby", "No timer set"),
                Effect::Expired { command: Some("c".to_string()) }
            ),
        }
    );
    assert_eq!(state.timer, Timer::Idle);
}

#[test]
fn answer_to_a_request_out_of_range_leaves_the_timer() {
    let mut state: ServerState<Rc<Pipe>> = ServerState::new();
    let now = at(T0);
    assert_eq!(
        state.answer(now, &Request::Start { minutes: u32::MAX, command: None }.encode()),
        Answer::OutOfRange
    );
    assert_eq!(state.timer, Timer::Idle);
    state.timer.start(now, 1, None).unwrap();
    assert_eq!(
        state.answer(now, &Request::Increase { seconds: i64::MAX }.encode()),
        Answer::OutOfRange
    );
    assert_eq!(state.timer, Timer::Running { expiry: at(T0 + MINUTE - 1_000_000), command: None });
}

#[test]
fn expiry_is_reported_once_by_the_update_that_finds_it() {
    let mut state: ServerState<Rc<Pipe>> = ServerState::new();
    let pipe = Pipe::new();
    state.subs.attach(pipe.clone());
    state.timer.start(at(T0), 1, Some("beep".to_string())).unwrap();
    let mut effects = Vec::new();
    for step in [0i128, 30, 59, 60, 61, 120] {
        let publication = state.update(at(T0 + step * SECOND));
        deliver(&mut state, &publication);
        effects.push(publication.effect);
    }
    assert_eq!(
        effects,
        [
            Effect::Nothing,
            Effect::Nothing,
            Effect::Nothing,
            Effect::Expired { command: Some("beep".to_string()) },
            Effect::Nothing,
            Effect::Nothing,
        ]
    );
    let running = record("1", "running", "Timer expires at 22:14");
    let idle = record("0", "standby", "No timer set");
    assert_eq!(
        pipe.records(),
        [running.clone(), running.clone(), running, idle.clone(), idle.clone(), idle]
    );
}
