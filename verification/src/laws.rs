//! Laws of the timer that span several transitions.

use vstd::prelude::*;
use crate::clock::{Moment, Span, NANOS_PER_MILLISECOND, NANOS_PER_MINUTE};
use crate::status::Phase;
use crate::timer::{countdown, EffectView, TimerView};

verus! {

/// How often the updates at `times`, made in order, report an expiry.
pub open spec fn expiries(timer: TimerView, times: Seq<Moment>) -> nat
    decreases times.len(),
{
    if times.len() == 0 {
        0
    } else {
        let fired: nat = if timer.has_expired(times[0]) {
            1
        } else {
            0
        };
        fired + expiries(timer.settled(times[0]), times.drop_first())
    }
}

/// The timer after the updates at `times`, made in order.
pub open spec fn settled_through(timer: TimerView, times: Seq<Moment>) -> TimerView
    decreases times.len(),
{
    if times.len() == 0 {
        timer
    } else {
        settled_through(timer.settled(times[0]), times.drop_first())
    }
}

/// A timer started for a positive number of minutes and updated at the same
/// moment shows exactly that number, is running, and has not expired: the
/// millisecond taken off the expiry does not cost a minute on display.
pub proof fn law_start_shows_requested_minutes(
    now: Moment,
    minutes: u32,
    command: Option<Seq<char>>,
)
    requires
        now.wf(),
        minutes > 0,
    ensures
        TimerView::Idle.started(now, minutes, command).update(now).status.text == minutes,
        TimerView::Idle.started(now, minutes, command).update(now).status.alt == Phase::Running,
        TimerView::Idle.started(now, minutes, command).update(now).effect == EffectView::Nothing,
{
}

/// The same display holds at any update made less than a minute minus a
/// millisecond after the start; any update made later than that shows fewer
/// minutes.
pub proof fn law_start_display_window(
    now: Moment,
    later: Moment,
    minutes: u32,
    command: Option<Seq<char>>,
)
    requires
        now.wf(),
        later.wf(),
        minutes > 0,
        now.unix_nanos <= later.unix_nanos,
    ensures
        later.unix_nanos - now.unix_nanos < NANOS_PER_MINUTE - NANOS_PER_MILLISECOND
            ==> TimerView::Idle.started(now, minutes, command).update(later).status.text
            == minutes,
        NANOS_PER_MINUTE - NANOS_PER_MILLISECOND < later.unix_nanos - now.unix_nanos
            ==> TimerView::Idle.started(now, minutes, command).update(later).status.text
            < minutes,
{
    let elapsed = later.unix_nanos - now.unix_nanos;
    let left = countdown(minutes) - elapsed;
    assert(now.plus(countdown(minutes)).unix_nanos - later.unix_nanos == left);
    if elapsed < NANOS_PER_MINUTE - NANOS_PER_MILLISECOND {
        assert((minutes - 1) * 60_000_000_000 <= left < minutes * 60_000_000_000);
        assert(left / 60_000_000_000 == minutes - 1);
    } else if elapsed > NANOS_PER_MINUTE - NANOS_PER_MILLISECOND && left > 0 {
        assert(left < (minutes - 1) * 60_000_000_000);
        assert(left / 60_000_000_000 < minutes - 1);
    }
}

/// A timer running toward `expiry`.
pub open spec fn running(expiry: Moment, command: Option<Seq<char>>) -> TimerView {
    TimerView::Running { expiry, command }
}

/// A timer paused with `nanos` nanoseconds left.
pub open spec fn paused(nanos: int, command: Option<Seq<char>>) -> TimerView {
    TimerView::Paused { time_left: Span { nanos: nanos as i128 }, command }
}

/// Pausing at `paused_at` and resuming at `resumed_at` moves the expiry by
/// exactly the time spent paused, keeps the command, and shows the expiry on
/// the clock of the moment of resuming.
pub proof fn law_pause_resume_shifts_expiry(
    expiry: Moment,
    command: Option<Seq<char>>,
    paused_at: Moment,
    resumed_at: Moment,
)
    requires
        expiry.wf(),
        paused_at.wf(),
        resumed_at.wf(),
    ensures
        running(expiry, command).toggled(paused_at) == paused(
            expiry.unix_nanos - paused_at.unix_nanos,
            command,
        ),
        running(expiry, command).toggled(paused_at).toggled(resumed_at) == running(
            resumed_at.plus(expiry.unix_nanos - paused_at.unix_nanos),
            command,
        ),
        resumed_at.plus(expiry.unix_nanos - paused_at.unix_nanos).unix_nanos - expiry.unix_nanos
            == resumed_at.unix_nanos - paused_at.unix_nanos,
{
}

/// Resuming at `resumed_at` and pausing again at `paused_at` shortens the
/// time left by exactly the time spent running, and keeps the command.
pub proof fn law_resume_pause_shortens_time_left(
    time_left: Span,
    command: Option<Seq<char>>,
    resumed_at: Moment,
    paused_at: Moment,
)
    requires
        time_left.wf(),
        resumed_at.wf(),
        paused_at.wf(),
    ensures
        paused(time_left.nanos as int, command).toggled(resumed_at).toggled(paused_at) == paused(
            time_left.nanos - (paused_at.unix_nanos - resumed_at.unix_nanos),
            command,
        ),
{
}

/// A second cancellation changes nothing and asks for no notification,
/// whatever the timer was before the first.
pub proof fn law_cancel_is_idempotent(timer: TimerView)
    ensures
        timer.cancelled().cancelled() == timer.cancelled(),
        timer.cancelled().cancel_effect() == EffectView::Nothing,
{
}

/// Once an update has found the timer expired, the timer is idle, and no
/// later update reports an expiry again.
pub proof fn law_no_expiry_after_expiry(timer: TimerView, now: Moment, later: Moment)
    requires
        timer.has_expired(now),
    ensures
        timer.update(now).effect is Expired,
        timer.settled(now) is Idle,
        timer.settled(now).update(later).effect == EffectView::Nothing,
        timer.settled(now).update(later).status.text == 0,
        timer.settled(now).update(later).status.alt == Phase::Standby,
{
}

/// However many updates are made, and whenever, at most one of them reports
/// an expiry; and exactly one does if the timer is running and one of the
/// updates comes at or after its expiry. After that update the timer is idle.
pub proof fn law_expiry_fires_once(timer: TimerView, times: Seq<Moment>)
    ensures
        expiries(timer, times) <= 1,
        expiries(timer, times) == 1 <==> exists|i: int|
            0 <= i < times.len() && timer.has_expired(#[trigger] times[i]),
        expiries(timer, times) == 1 ==> settled_through(timer, times) is Idle,
    decreases times.len(),
{
    if times.len() > 0 {
        let rest = times.drop_first();
        law_expiry_fires_once(timer.settled(times[0]), rest);
        if timer.has_expired(times[0]) {
            lemma_idle_never_expires(rest);
        } else {
            assert(timer.settled(times[0]) == timer);
            if expiries(timer, rest) == 1 {
                let i = choose|i: int| 0 <= i < rest.len() && timer.has_expired(#[trigger] rest[i]);
                assert(times[i + 1] == rest[i]);
            }
            assert forall|i: int|
                0 <= i < times.len() && timer.has_expired(#[trigger] times[i]) implies exists|
                j: int,
            |
                0 <= j < rest.len() && timer.has_expired(#[trigger] rest[j]) by {
                assert(rest[i - 1] == times[i]);
            }
        }
    }
}

/// An idle timer reports no expiry and stays idle, whatever updates follow.
proof fn lemma_idle_never_expires(times: Seq<Moment>)
    ensures
        expiries(TimerView::Idle, times) == 0,
        settled_through(TimerView::Idle, times) is Idle,
    decreases times.len(),
{
    if times.len() > 0 {
        lemma_idle_never_expires(times.drop_first());
    }
}

/// The status that an update publishes never shows a running timer with no
/// time left: a running timer is shown with at least one minute, and a timer
/// that has run out is shown idle, with no minutes.
pub proof fn law_published_status_is_settled(timer: TimerView, now: Moment)
    ensures
        timer.update(now).status.alt == Phase::Running ==> timer.update(now).status.text >= 1,
        timer.has_expired(now) ==> timer.update(now).status.alt == Phase::Standby
            && timer.update(now).status.text == 0,
        timer.update(now).status.alt == Phase::Standby <==> timer.settled(now) is Idle,
{
}

} // verus!
