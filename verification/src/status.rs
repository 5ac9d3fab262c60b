//! The status record that a status bar reads: one line of text per update.

use vstd::prelude::*;
use crate::clock::{digit_char, digit_str};

verus! {

/// What the timer is doing, as the status bar's `alt` field names it.
#[derive(Clone, Copy, Debug, PartialEq, Eq, Structural)]
pub enum Phase {
    Standby,
    Running,
    Paused,
}

/// A snapshot of the timer for display.
#[derive(Debug, PartialEq, Eq)]
pub struct Status {
    /// Minutes left, shown as the record's `text`.
    pub text: i64,
    /// The record's `alt`.
    pub alt: Phase,
    /// The record's `tooltip`.
    pub tooltip: String,
}

/// The mathematical content of a [`Status`].
pub struct StatusView {
    pub text: int,
    pub alt: Phase,
    pub tooltip: Seq<char>,
}

impl View for Status {
    type V = StatusView;

    open spec fn view(&self) -> StatusView {
        StatusView { text: self.text as int, alt: self.alt, tooltip: self.tooltip@ }
    }
}

/// The decimal digits of a natural number, most significant first, without
/// leading zeros.
pub open spec fn decimal_digits(n: nat) -> Seq<char>
    decreases n,
{
    if n < 10 {
        seq![digit_char(n as int)]
    } else {
        decimal_digits(n / 10).push(digit_char((n % 10) as int))
    }
}

/// The decimal text of an integer: a minus sign for a negative one, then the
/// digits of its magnitude.
pub open spec fn decimal_text(n: int) -> Seq<char> {
    if n < 0 {
        seq!['-'] + decimal_digits((-n) as nat)
    } else {
        decimal_digits(n as nat)
    }
}

/// The record as one line, without its terminator: an object with the string
/// fields `text`, `alt`, `tooltip` and `class`, in that order. `class` is
/// always `timer`.
pub open spec fn status_line(status: StatusView) -> Seq<char> {
    "{\"text\": \""@ + decimal_text(status.text) + "\", \"alt\": \""@ + status.alt.tag()
        + "\", \"tooltip\": \""@ + status.tooltip + "\", \"class\": \"timer\"}"@
}

impl Phase {
    /// The name of the phase in the record.
    pub open spec fn tag(self) -> Seq<char> {
        match self {
            Phase::Standby => "standby"@,
            Phase::Running => "running"@,
            Phase::Paused => "paused"@,
        }
    }

    /// The name of the phase in the record: `standby`, `running` or `paused`.
    pub fn as_str(self) -> (name: &'static str)
        ensures
            name@ == self.tag(),
    {
        match self {
            Phase::Standby => "standby",
            Phase::Running => "running",
            Phase::Paused => "paused",
        }
    }
}

impl Status {
    /// The record as one line of text, ready to be followed by a newline.
    pub fn line(&self) -> (line: String)
        ensures
            line@ == status_line(self@),
    {
        let mut line = String::from_str("{\"text\": \"");
        let text = decimal(self.text);
        line.append(text.as_str());
        line.append("\", \"alt\": \"");
        line.append(self.alt.as_str());
        line.append("\", \"tooltip\": \"");
        line.append(self.tooltip.as_str());
        line.append("\", \"class\": \"timer\"}");
        line
    }
}

/// Appends the decimal digits of `n`.
fn push_decimal_digits(out: &mut String, n: u64)
    ensures
        final(out)@ == old(out)@ + decimal_digits(n as nat),
    decreases n,
{
    if n >= 10 {
        push_decimal_digits(out, n / 10);
    }
    out.append(digit_str((n % 10) as u8));
    assert(out@ =~= old(out)@ + decimal_digits(n as nat));
}

/// The decimal text of `n`.
pub fn decimal(n: i64) -> (text: String)
    ensures
        text@ == decimal_text(n as int),
{
    let mut text = String::new();
    if n < 0 {
        text.append("-");
        let magnitude: u64 = (-(n + 1)) as u64 + 1;
        push_decimal_digits(&mut text, magnitude);
        proof {
            reveal_strlit("-");
            assert("-"@ =~= seq!['-']);
            assert(text@ =~= decimal_text(n as int));
        }
    } else {
        push_decimal_digits(&mut text, n as u64);
        assert(text@ =~= decimal_text(n as int));
    }
    text
}

} // verus!
