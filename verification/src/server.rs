//! The state that a server keeps: the one timer and its subscribers.
//!
//! The server itself (its sockets, its lock, its ticker) lives outside this
//! library. It hands each event to the state together with the moment at
//! which it happened, and carries out what the state answers: the bytes to
//! send back, the side effects to perform, the record to deliver. Every
//! event ends in an update of the timer and a publication of its status, so
//! that subscribers see each change at once and a new subscriber is never
//! left without a status.

use vstd::prelude::*;
use crate::broadcast::{Broadcaster, Round};
use crate::clock::Moment;
use crate::protocol::{
    decode_request, encode_response, encode_response_bytes, response_to, response_view, Request,
};
use crate::status::status_line;
use crate::timer::{Effect, EffectView, Timer, TimerView, WorldError};

verus! {

/// The timer and the connections that are told of its status.
pub struct ServerState<C> {
    pub timer: Timer,
    pub subs: Broadcaster<C>,
}

/// What is to be published after an update.
#[derive(Debug, PartialEq, Eq)]
pub struct Publication {
    /// The status record: one line, ending in a newline.
    pub record: String,
    /// `Expired` if the update found the countdown run out, else `Nothing`.
    pub effect: Effect,
    /// The start of the round that delivers the record to every subscriber.
    pub round: Round,
}

/// What became of the bytes received on a command connection.
#[derive(Debug, PartialEq, Eq)]
pub enum Answer {
    /// The bytes are not the encoding of a request. Nothing has changed.
    Malformed,
    /// The request would move the timer's expiry or time left out of the
    /// representable range. Nothing has changed.
    OutOfRange,
    /// The timer carried out the request, or refused it, and was then
    /// updated: `effect` is to be performed and `response` sent back, then
    /// `publication` published.
    Handled { response: Vec<u8>, effect: Effect, publication: Publication },
}

/// The mathematical content of a [`Publication`].
pub struct PublicationView {
    pub record: Seq<char>,
    pub effect: EffectView,
    pub round: Round,
}

/// The mathematical content of an [`Answer`].
pub enum AnswerView {
    Malformed,
    OutOfRange,
    Handled { response: Seq<u8>, effect: EffectView, publication: PublicationView },
}

impl View for Publication {
    type V = PublicationView;

    open spec fn view(&self) -> PublicationView {
        PublicationView { record: self.record@, effect: self.effect@, round: self.round }
    }
}

impl View for Answer {
    type V = AnswerView;

    open spec fn view(&self) -> AnswerView {
        match *self {
            Answer::Malformed => AnswerView::Malformed,
            Answer::OutOfRange => AnswerView::OutOfRange,
            Answer::Handled { response, effect, publication } => AnswerView::Handled {
                response: response@,
                effect: effect@,
                publication: publication@,
            },
        }
    }
}

/// The publication that an update of `timer` at `now` calls for: the status
/// of the updated timer as one line with its newline, the expiry effect, and
/// a round that starts at the first subscriber.
pub open spec fn publication_of(timer: TimerView, now: Moment) -> PublicationView {
    PublicationView {
        record: status_line(timer.update(now).status) + seq!['\n'],
        effect: timer.update(now).effect,
        round: Round { next: 0 },
    }
}

/// The effect that a command's result asks for: none when it was refused.
pub open spec fn effect_of(outcome: Result<EffectView, WorldError>) -> EffectView {
    match outcome {
        Ok(effect) => effect,
        Err(_) => EffectView::Nothing,
    }
}

/// The answer to `bytes` received at `now` by a server whose timer is
/// `timer`.
pub open spec fn answer_to(timer: TimerView, now: Moment, bytes: Seq<u8>) -> AnswerView {
    match decode_request(bytes) {
        None => AnswerView::Malformed,
        Some(request) => if request.admitted_by(timer, now) {
            AnswerView::Handled {
                response: encode_response(response_view(request.outcome_on(timer, now))),
                effect: effect_of(request.outcome_on(timer, now)),
                publication: publication_of(request.applied_to(timer, now), now),
            }
        } else {
            AnswerView::OutOfRange
        },
    }
}

/// The timer after `bytes` were received at `now`: if they are a request
/// that the timer can carry out, it has done so and has been updated; else
/// it is as before.
pub open spec fn timer_after(timer: TimerView, now: Moment, bytes: Seq<u8>) -> TimerView {
    match decode_request(bytes) {
        Some(request) if request.admitted_by(timer, now) => request.applied_to(
            timer,
            now,
        ).settled(now),
        _ => timer,
    }
}

impl<C> ServerState<C> {
    /// Whether the timer's expiry or time left is representable.
    pub open spec fn wf(&self) -> bool {
        self.timer.wf()
    }

    /// The state of a server that has just started: an idle timer and no
    /// subscribers.
    pub fn new() -> (state: ServerState<C>)
        ensures
            state.timer@ is Idle,
            state.subs@ == Seq::<C>::empty(),
            state.wf(),
    {
        ServerState { timer: Timer::new(), subs: Broadcaster::new() }
    }

    /// Updates the timer at `now` and starts a round of delivery of its new
    /// status. The subscribers are as before.
    pub fn update(&mut self, now: Moment) -> (publication: Publication)
        requires
            old(self).wf(),
            now.wf(),
        ensures
            final(self).timer@ == old(self).timer@.settled(now),
            final(self).subs@ == old(self).subs@,
            publication@ == publication_of(old(self).timer@, now),
            final(self).wf(),
    {
        let update = self.timer.update(now);
        let mut record = update.status.line();
        record.append("\n");
        proof {
            reveal_strlit("\n");
            assert("\n"@ =~= seq!['\n']);
        }
        let round = self.subs.begin();
        Publication { record, effect: update.effect, round }
    }

    /// Adds a subscriber at the end of the list, then updates the timer at
    /// `now`: the round of the publication reaches the new subscriber too.
    pub fn subscribe(&mut self, now: Moment, connection: C) -> (publication: Publication)
        requires
            old(self).wf(),
            now.wf(),
        ensures
            final(self).timer@ == old(self).timer@.settled(now),
            final(self).subs@ == old(self).subs@.push(connection),
            publication@ == publication_of(old(self).timer@, now),
            final(self).wf(),
    {
        self.subs.attach(connection);
        self.update(now)
    }

    /// Answers the bytes received on one command connection at `now`: they
    /// are decoded, the timer carries the request out if it can, its result
    /// is encoded, and the timer is updated. The subscribers are as before.
    pub fn answer(&mut self, now: Moment, bytes: &[u8]) -> (answer: Answer)
        requires
            old(self).wf(),
            now.wf(),
        ensures
            answer@ == answer_to(old(self).timer@, now, bytes@),
            final(self).timer@ == timer_after(old(self).timer@, now, bytes@),
            final(self).subs@ == old(self).subs@,
            final(self).wf(),
    {
        match Request::decode(bytes) {
            None => Answer::Malformed,
            Some(request) => {
                if request.admitted_by(&self.timer, now) {
                    let outcome = request.apply(&mut self.timer, now);
                    let response = encode_response_bytes(&response_to(&outcome));
                    let effect = match outcome {
                        Ok(effect) => effect,
                        Err(_) => Effect::Nothing,
                    };
                    let publication = self.update(now);
                    Answer::Handled { response, effect, publication }
                } else {
                    Answer::OutOfRange
                }
            },
        }
    }
}

} // verus!
