//! The countdown timer: one of idle, running toward an expiry, or paused
//! with a fixed time left.
//!
//! Every transition is evaluated against a moment `now` that the caller
//! supplies, and hands back, instead of performing it, the side effect that
//! the transition calls for.

use vstd::prelude::*;
use crate::clock::{
    span_in_range, Moment, Span, NANOS_PER_MILLISECOND, NANOS_PER_MINUTE, NANOS_PER_SECOND,
};
use crate::status::{Phase, Status, StatusView};

verus! {

/// Why a command was refused.
#[derive(Clone, Copy, Debug, PartialEq, Eq, Structural)]
pub enum WorldError {
    /// The command needs a timer, and none is running or paused.
    NoTimerExisting,
    /// A timer is already running or paused.
    TimerAlreadyExisting,
}

/// The timer.
#[derive(Debug, PartialEq, Eq)]
pub enum Timer {
    /// No countdown.
    Idle,
    /// Counting down to `expiry`, then running `command` if there is one.
    Running { expiry: Moment, command: Option<String> },
    /// Stopped with `time_left` still to go.
    Paused { time_left: Span, command: Option<String> },
}

/// A side effect that a transition asks its caller to carry out.
#[derive(Debug, PartialEq, Eq)]
pub enum Effect {
    /// Nothing to do.
    Nothing,
    /// Show a desktop notification with this summary.
    Notify { summary: String },
    /// The countdown has run out: run the command, if there is one.
    Expired { command: Option<String> },
}

/// What one update of the timer yields.
#[derive(Debug, PartialEq, Eq)]
pub struct Update {
    /// The timer's status after the update.
    pub status: Status,
    /// `Expired` if this update found the countdown run out, else `Nothing`.
    pub effect: Effect,
}

/// The mathematical content of a [`Timer`].
pub enum TimerView {
    Idle,
    Running { expiry: Moment, command: Option<Seq<char>> },
    Paused { time_left: Span, command: Option<Seq<char>> },
}

/// The mathematical content of an [`Effect`].
pub enum EffectView {
    Nothing,
    Notify { summary: Seq<char> },
    Expired { command: Option<Seq<char>> },
}

/// The mathematical content of an [`Update`].
pub struct UpdateView {
    pub status: StatusView,
    pub effect: EffectView,
}

/// The characters of an optional text.
pub open spec fn text_view(text: Option<String>) -> Option<Seq<char>> {
    match text {
        Some(s) => Some(s@),
        None => None,
    }
}

/// The content of a command's result.
pub open spec fn outcome_view(outcome: Result<Effect, WorldError>) -> Result<
    EffectView,
    WorldError,
> {
    match outcome {
        Ok(effect) => Ok(effect@),
        Err(error) => Err(error),
    }
}

impl View for Timer {
    type V = TimerView;

    open spec fn view(&self) -> TimerView {
        match *self {
            Timer::Idle => TimerView::Idle,
            Timer::Running { expiry, command } => TimerView::Running {
                expiry,
                command: text_view(command),
            },
            Timer::Paused { time_left, command } => TimerView::Paused {
                time_left,
                command: text_view(command),
            },
        }
    }
}

impl View for Effect {
    type V = EffectView;

    open spec fn view(&self) -> EffectView {
        match *self {
            Effect::Nothing => EffectView::Nothing,
            Effect::Notify { summary } => EffectView::Notify { summary: summary@ },
            Effect::Expired { command } => EffectView::Expired { command: text_view(command) },
        }
    }
}

impl View for Update {
    type V = UpdateView;

    open spec fn view(&self) -> UpdateView {
        UpdateView { status: self.status@, effect: self.effect@ }
    }
}

/// The summary shown while a timer runs: when it will expire.
pub open spec fn tooltip_text(expiry: Moment) -> Seq<char> {
    "Timer expires at "@ + expiry.clock_reading()
}

/// The minutes shown for a time left: one more than its whole minutes, so
/// that any started minute counts as a full one.
pub open spec fn minutes_left(time_left: int) -> int {
    time_left / NANOS_PER_MINUTE as int + 1
}

/// The length of a timer of `minutes` minutes: one millisecond short of the
/// full time, so that the minutes shown right after the start are the
/// minutes asked for.
pub open spec fn countdown(minutes: u32) -> int {
    minutes * NANOS_PER_MINUTE - NANOS_PER_MILLISECOND
}

impl TimerView {
    /// Whether the timer's expiry or time left is representable.
    pub open spec fn wf(self) -> bool {
        match self {
            TimerView::Idle => true,
            TimerView::Running { expiry, .. } => expiry.wf(),
            TimerView::Paused { time_left, .. } => time_left.wf(),
        }
    }

    /// Whether a running timer's expiry has been reached at `now`.
    pub open spec fn has_expired(self, now: Moment) -> bool {
        self matches TimerView::Running { expiry, .. } && expiry.unix_nanos <= now.unix_nanos
    }

    /// The timer after an update at `now`: idle if it has expired, else as
    /// it was.
    pub open spec fn settled(self, now: Moment) -> TimerView {
        if self.has_expired(now) {
            TimerView::Idle
        } else {
            self
        }
    }

    /// The effect of an update at `now`.
    pub open spec fn expiry_effect(self, now: Moment) -> EffectView {
        match self {
            TimerView::Running { expiry, command } if expiry.unix_nanos <= now.unix_nanos =>
                EffectView::Expired { command },
            _ => EffectView::Nothing,
        }
    }

    /// The status of the timer as seen at `now`.
    pub open spec fn status(self, now: Moment) -> StatusView {
        match self {
            TimerView::Idle => StatusView {
                text: 0,
                alt: Phase::Standby,
                tooltip: "No timer set"@,
            },
            TimerView::Running { expiry, .. } => StatusView {
                text: minutes_left(expiry.unix_nanos - now.unix_nanos),
                alt: Phase::Running,
                tooltip: tooltip_text(expiry),
            },
            TimerView::Paused { time_left, .. } => StatusView {
                text: minutes_left(time_left.nanos as int),
                alt: Phase::Paused,
                tooltip: "Timer paused"@,
            },
        }
    }

    /// What an update at `now` yields: the status of the settled timer, and
    /// the expiry effect.
    pub open spec fn update(self, now: Moment) -> UpdateView {
        UpdateView { status: self.settled(now).status(now), effect: self.expiry_effect(now) }
    }

    /// The timer after a cancellation: always idle.
    pub open spec fn cancelled(self) -> TimerView {
        TimerView::Idle
    }

    /// The effect of a cancellation: a notification if there was a timer.
    pub open spec fn cancel_effect(self) -> EffectView {
        match self {
            TimerView::Idle => EffectView::Nothing,
            _ => EffectView::Notify { summary: "Timer canceled"@ },
        }
    }

    /// Whether a start at `now` can be carried out: if the timer is idle, the
    /// new expiry must be representable.
    pub open spec fn admits_start(self, now: Moment, minutes: u32) -> bool {
        self is Idle ==> now.plus(countdown(minutes)).wf()
    }

    /// The timer after a start at `now`.
    pub open spec fn started(self, now: Moment, minutes: u32, command: Option<Seq<char>>)
        -> TimerView {
        match self {
            TimerView::Idle => TimerView::Running {
                expiry: now.plus(countdown(minutes)),
                command,
            },
            _ => self,
        }
    }

    /// The result of a start at `now`.
    pub open spec fn start_outcome(self, now: Moment, minutes: u32) -> Result<
        EffectView,
        WorldError,
    > {
        match self {
            TimerView::Idle => Ok(
                EffectView::Notify { summary: tooltip_text(now.plus(countdown(minutes))) },
            ),
            _ => Err(WorldError::TimerAlreadyExisting),
        }
    }

    /// Whether the timer can be shifted by `seconds`: the new expiry or time
    /// left must be representable.
    pub open spec fn admits_increase(self, seconds: i64) -> bool {
        match self {
            TimerView::Idle => true,
            TimerView::Running { expiry, .. } => expiry.plus(seconds * NANOS_PER_SECOND).wf(),
            TimerView::Paused { time_left, .. } => span_in_range(
                time_left.nanos + seconds * NANOS_PER_SECOND,
            ),
        }
    }

    /// The timer after a shift by `seconds`.
    pub open spec fn increased(self, seconds: i64) -> TimerView {
        match self {
            TimerView::Idle => self,
            TimerView::Running { expiry, command } => TimerView::Running {
                expiry: expiry.plus(seconds * NANOS_PER_SECOND),
                command,
            },
            TimerView::Paused { time_left, command } => TimerView::Paused {
                time_left: Span { nanos: (time_left.nanos + seconds * NANOS_PER_SECOND) as i128 },
                command,
            },
        }
    }

    /// The result of a shift by `seconds`.
    pub open spec fn increase_outcome(self, seconds: i64) -> Result<EffectView, WorldError> {
        match self.increased(seconds) {
            TimerView::Idle => Err(WorldError::NoTimerExisting),
            TimerView::Running { expiry, .. } => Ok(
                EffectView::Notify { summary: tooltip_text(expiry) },
            ),
            TimerView::Paused { .. } => Ok(EffectView::Nothing),
        }
    }

    /// Whether a pause or resume at `now` can be carried out: on resuming,
    /// the new expiry must be representable.
    pub open spec fn admits_togglepause(self, now: Moment) -> bool {
        self matches TimerView::Paused { time_left, .. } ==> now.plus(time_left.nanos as int).wf()
    }

    /// The timer after a pause or resume at `now`.
    pub open spec fn toggled(self, now: Moment) -> TimerView {
        match self {
            TimerView::Idle => self,
            TimerView::Running { expiry, command } => TimerView::Paused {
                time_left: Span { nanos: (expiry.unix_nanos - now.unix_nanos) as i128 },
                command,
            },
            TimerView::Paused { time_left, command } => TimerView::Running {
                expiry: now.plus(time_left.nanos as int),
                command,
            },
        }
    }

    /// The result of a pause or resume at `now`.
    pub open spec fn togglepause_outcome(self, now: Moment) -> Result<EffectView, WorldError> {
        match self.toggled(now) {
            TimerView::Idle => Err(WorldError::NoTimerExisting),
            TimerView::Running { expiry, .. } => Ok(
                EffectView::Notify { summary: tooltip_text(expiry) },
            ),
            TimerView::Paused { .. } => Ok(EffectView::Notify { summary: "Timer paused"@ }),
        }
    }
}

impl WorldError {
    /// The message shown to the user.
    pub open spec fn text(self) -> Seq<char> {
        match self {
            WorldError::NoTimerExisting => "no timer exists right now"@,
            WorldError::TimerAlreadyExisting => "there already exists a timer"@,
        }
    }

    /// The message shown to the user.
    pub fn message(&self) -> (message: String)
        ensures
            message@ == self.text(),
    {
        match self {
            WorldError::NoTimerExisting => String::from_str("no timer exists right now"),
            WorldError::TimerAlreadyExisting => String::from_str("there already exists a timer"),
        }
    }
}

impl Timer {
    /// Whether the timer's expiry or time left is representable.
    pub open spec fn wf(&self) -> bool {
        self@.wf()
    }

    /// An idle timer.
    pub fn new() -> (timer: Timer)
        ensures
            timer@ is Idle,
            timer.wf(),
    {
        Timer::Idle
    }

    /// Whether the timer's expiry or time left is representable, as every
    /// other method of the timer expects.
    pub fn is_valid(&self) -> (valid: bool)
        ensures
            valid == self.wf(),
    {
        match self {
            Timer::Idle => true,
            Timer::Running { expiry, .. } => Moment::new(
                expiry.unix_nanos,
                expiry.offset_seconds,
            ).is_some(),
            Timer::Paused { time_left, .. } => Span::new(time_left.nanos).is_some(),
        }
    }

    /// The summary shown while a timer runs: `Timer expires at HH:MM`, on the
    /// expiry's own local clock.
    pub fn tooltip(expiry: &Moment) -> (tooltip: String)
        requires
            expiry.wf(),
        ensures
            tooltip@ == tooltip_text(*expiry),
    {
        let mut tooltip = String::from_str("Timer expires at ");
        let reading = expiry.clock_label();
        tooltip.append(reading.as_str());
        tooltip
    }

    /// The status of the timer as seen at `now`.
    pub fn status(&self, now: Moment) -> (status: Status)
        requires
            self.wf(),
            now.wf(),
        ensures
            status@ == self@.status(now),
    {
        match self {
            Timer::Idle => Status {
                text: 0,
                alt: Phase::Standby,
                tooltip: String::from_str("No timer set"),
            },
            Timer::Running { expiry, .. } => Status {
                text: expiry.since(now).floor_minutes() + 1,
                alt: Phase::Running,
                tooltip: Timer::tooltip(expiry),
            },
            Timer::Paused { time_left, .. } => Status {
                text: time_left.floor_minutes() + 1,
                alt: Phase::Paused,
                tooltip: String::from_str("Timer paused"),
            },
        }
    }

    /// Updates the timer at `now`: a running timer whose expiry has been
    /// reached becomes idle, and the update reports `Expired` with its
    /// command; any other timer is left as it is. The status is that of the
    /// timer after the update.
    pub fn update(&mut self, now: Moment) -> (update: Update)
        requires
            old(self).wf(),
            now.wf(),
        ensures
            final(self)@ == old(self)@.settled(now),
            update@ == old(self)@.update(now),
            final(self).wf(),
    {
        let expired = match self {
            Timer::Running { expiry, .. } => expiry.unix_nanos <= now.unix_nanos,
            _ => false,
        };
        let effect = if expired {
            let mut spent = Timer::Idle;
            core::mem::swap(self, &mut spent);
            match spent {
                Timer::Running { command, .. } => Effect::Expired { command },
                _ => Effect::Nothing,
            }
        } else {
            Effect::Nothing
        };
        let status = self.status(now);
        Update { status, effect }
    }

    /// Cancels the timer. This always succeeds and leaves the timer idle; it
    /// asks for a notification only if a timer was running or paused.
    pub fn cancel(&mut self) -> (outcome: Result<Effect, WorldError>)
        ensures
            final(self)@ == old(self)@.cancelled(),
            outcome_view(outcome) == Ok::<EffectView, WorldError>(old(self)@.cancel_effect()),
            old(self)@ is Idle ==> outcome_view(outcome) == Ok::<EffectView, WorldError>(
                EffectView::Nothing,
            ),
            final(self).wf(),
    {
        let effect = match self {
            Timer::Idle => Effect::Nothing,
            _ => Effect::Notify { summary: String::from_str("Timer canceled") },
        };
        *self = Timer::Idle;
        Ok(effect)
    }

    /// Whether `start` may be called with these arguments.
    pub fn admits_start(&self, now: Moment, minutes: u32) -> (admitted: bool)
        requires
            now.wf(),
        ensures
            admitted == self@.admits_start(now, minutes),
    {
        match self {
            Timer::Idle => now.checked_add(
                Span { nanos: Span::minutes(minutes).nanos - NANOS_PER_MILLISECOND },
            ).is_some(),
            _ => true,
        }
    }

    /// Starts a timer of `minutes` minutes at `now`. An idle timer starts
    /// running toward an expiry one millisecond short of the full time, and
    /// asks for a notification of when it expires. A running or paused timer
    /// refuses with `TimerAlreadyExisting` and stays as it is.
    pub fn start(&mut self, now: Moment, minutes: u32, command: Option<String>) -> (outcome: Result<
        Effect,
        WorldError,
    >)
        requires
            old(self).wf(),
            now.wf(),
            old(self)@.admits_start(now, minutes),
        ensures
            final(self)@ == old(self)@.started(now, minutes, text_view(command)),
            outcome_view(outcome) == old(self)@.start_outcome(now, minutes),
            old(self)@ is Idle <==> outcome is Ok,
            old(self)@ !is Idle ==> outcome == Err::<Effect, WorldError>(
                WorldError::TimerAlreadyExisting,
            ) && final(self)@ == old(self)@,
            final(self).wf(),
    {
        match self {
            Timer::Idle => {
                let expiry = Moment {
                    unix_nanos: now.unix_nanos + Span::minutes(minutes).nanos
                        - NANOS_PER_MILLISECOND,
                    offset_seconds: now.offset_seconds,
                };
                let summary = Timer::tooltip(&expiry);
                *self = Timer::Running { expiry, command };
                Ok(Effect::Notify { summary })
            },
            _ => Err(WorldError::TimerAlreadyExisting),
        }
    }

    /// Whether `increase` may be called with this argument.
    pub fn admits_increase(&self, seconds: i64) -> (admitted: bool)
        requires
            self.wf(),
        ensures
            admitted == self@.admits_increase(seconds),
    {
        match self {
            Timer::Idle => true,
            Timer::Running { expiry, .. } => expiry.checked_add(Span::seconds(seconds)).is_some(),
            Timer::Paused { time_left, .. } => time_left.checked_add(
                Span::seconds(seconds),
            ).is_some(),
        }
    }

    /// Shifts the timer by `seconds`, which may be negative. A running timer
    /// moves its expiry and asks for a notification of the new one; a paused
    /// timer changes its time left; neither is clamped. An idle timer refuses
    /// with `NoTimerExisting`.
    pub fn increase(&mut self, seconds: i64) -> (outcome: Result<Effect, WorldError>)
        requires
            old(self).wf(),
            old(self)@.admits_increase(seconds),
        ensures
            final(self)@ == old(self)@.increased(seconds),
            outcome_view(outcome) == old(self)@.increase_outcome(seconds),
            old(self)@ is Idle <==> outcome is Err,
            old(self)@ is Idle ==> outcome == Err::<Effect, WorldError>(
                WorldError::NoTimerExisting,
            ) && final(self)@ == old(self)@,
            final(self).wf(),
    {
        let mut current = Timer::Idle;
        core::mem::swap(self, &mut current);
        match current {
            Timer::Running { expiry, command } => {
                let expiry = Moment {
                    unix_nanos: expiry.unix_nanos + Span::seconds(seconds).nanos,
                    offset_seconds: expiry.offset_seconds,
                };
                let summary = Timer::tooltip(&expiry);
                *self = Timer::Running { expiry, command };
                Ok(Effect::Notify { summary })
            },
            Timer::Paused { time_left, command } => {
                let time_left = Span { nanos: time_left.nanos + Span::seconds(seconds).nanos };
                *self = Timer::Paused { time_left, command };
                Ok(Effect::Nothing)
            },
            Timer::Idle => Err(WorldError::NoTimerExisting),
        }
    }

    /// Whether `togglepause` may be called with this argument.
    pub fn admits_togglepause(&self, now: Moment) -> (admitted: bool)
        requires
            self.wf(),
            now.wf(),
        ensures
            admitted == self@.admits_togglepause(now),
    {
        match self {
            Timer::Paused { time_left, .. } => now.checked_add(*time_left).is_some(),
            _ => true,
        }
    }

    /// Pauses a running timer, keeping the time from `now` to its expiry, or
    /// resumes a paused one, which then expires its time left after `now`.
    /// The command moves along. Either way a notification is asked for. An
    /// idle timer refuses with `NoTimerExisting`.
    pub fn togglepause(&mut self, now: Moment) -> (outcome: Result<Effect, WorldError>)
        requires
            old(self).wf(),
            now.wf(),
            old(self)@.admits_togglepause(now),
        ensures
            final(self)@ == old(self)@.toggled(now),
            outcome_view(outcome) == old(self)@.togglepause_outcome(now),
            old(self)@ is Idle <==> outcome is Err,
            old(self)@ is Idle ==> outcome == Err::<Effect, WorldError>(
                WorldError::NoTimerExisting,
            ) && final(self)@ == old(self)@,
            final(self).wf(),
    {
        let mut current = Timer::Idle;
        core::mem::swap(self, &mut current);
        match current {
            Timer::Running { expiry, command } => {
                let time_left = expiry.since(now);
                *self = Timer::Paused { time_left, command };
                Ok(Effect::Notify { summary: String::from_str("Timer paused") })
            },
            Timer::Paused { time_left, command } => {
                let expiry = Moment {
                    unix_nanos: now.unix_nanos + time_left.nanos,
                    offset_seconds: now.offset_seconds,
                };
                let summary = Timer::tooltip(&expiry);
                *self = Timer::Running { expiry, command };
                Ok(Effect::Notify { summary })
            },
            Timer::Idle => Err(WorldError::NoTimerExisting),
        }
    }
}

} // verus!
