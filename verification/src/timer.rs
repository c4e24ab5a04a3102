use vstd::prelude::*;

verus! {

/// What a timer operation did to the timer.
#[derive(Clone, Copy, Debug, PartialEq, Eq, Structural)]
pub enum TimerStatus {
    /// The timer went from zero to a nonzero value.
    Started,
    /// The timer was nonzero and still is.
    Running,
    /// The timer went from a nonzero value to zero.
    End,
    /// The timer was zero and still is.
    Stopped,
}

/// `num_traits::identities::zero` at `u8`: the additive identity, 0.
#[verifier::external_body]
fn zero() -> (z: u8)
    ensures
        z == 0,
{
    num_traits::identities::zero::<u8>()
}

/// `num_traits::identities::one` at `u8`: the multiplicative identity, 1.
#[verifier::external_body]
fn one() -> (o: u8)
    ensures
        o == 1,
{
    num_traits::identities::one::<u8>()
}

/// `num_traits::Zero::is_zero` at `u8`: whether the value equals 0.
#[verifier::external_body]
fn is_zero(value: u8) -> (z: bool)
    ensures
        z == (value == 0),
{
    num_traits::identities::Zero::is_zero(&value)
}

/// A counter that ticks down to zero and stays there.
pub struct GeneralTimer {
    ticks: u8,
}

/// The timer of this machine: an 8-bit counter.
pub type Timer = GeneralTimer;

impl View for GeneralTimer {
    type V = u8;

    closed spec fn view(&self) -> u8 {
        self.ticks
    }
}

/// The status that a change of a timer's value from `previous` to `next`
/// amounts to.
pub open spec fn transition(previous: u8, next: u8) -> TimerStatus {
    if previous == 0 && next == 0 {
        TimerStatus::Stopped
    } else if previous != 0 && next == 0 {
        TimerStatus::End
    } else if previous == 0 && next != 0 {
        TimerStatus::Started
    } else {
        TimerStatus::Running
    }
}

/// The value of a timer one tick after it was `value`.
pub open spec fn ticked(value: u8) -> u8 {
    if value == 0 {
        0
    } else {
        (value - 1) as u8
    }
}

impl GeneralTimer {
    /// A timer at zero.
    pub fn new() -> (timer: GeneralTimer)
        ensures
            timer@ == 0,
    {
        GeneralTimer { ticks: zero() }
    }

    /// Counts down by one unless the timer is at zero, and reports
    /// `Stopped` for a timer that was at zero, `End` for one that reached
    /// zero with this tick and `Running` otherwise.
    pub fn tick(&mut self) -> (status: TimerStatus)
        ensures
            final(self)@ == ticked(old(self)@),
            status == transition(old(self)@, final(self)@),
            status != TimerStatus::Started,
    {
        if is_zero(self.ticks) {
            return TimerStatus::Stopped;
        }
        self.ticks = self.ticks - one();
        if is_zero(self.ticks) {
            return TimerStatus::End;
        }
        TimerStatus::Running
    }

    /// Sets the timer and reports what the change amounts to.
    pub fn set_value(&mut self, new_value: u8) -> (status: TimerStatus)
        ensures
            final(self)@ == new_value,
            status == transition(old(self)@, new_value),
    {
        let previous_value = self.ticks;
        self.ticks = new_value;
        match (is_zero(previous_value), is_zero(self.ticks)) {
            (true, true) => TimerStatus::Stopped,
            (false, true) => TimerStatus::End,
            (true, false) => TimerStatus::Started,
            (false, false) => TimerStatus::Running,
        }
    }

    pub fn get_value(&self) -> (value: u8)
        ensures
            value == self@,
    {
        self.ticks
    }
}

/// The value of a timer `n` ticks after it was `value`.
pub open spec fn ticked_times(value: u8, n: nat) -> u8
    decreases n,
{
    if n == 0 {
        value
    } else {
        ticked(ticked_times(value, (n - 1) as nat))
    }
}

/// A timer set to `value` counts down one by one: after `n` ticks it holds
/// `value - n`, or zero once `n` has reached `value`. Every tick before the
/// last reports `Running`, the tick that reaches zero reports `End`, and
/// every tick after that reports `Stopped`.
pub proof fn lemma_countdown(value: u8, n: nat)
    ensures
        ticked_times(value, n) == (if n <= value {
            value - n
        } else {
            0
        }),
        transition(ticked_times(value, n), ticked(ticked_times(value, n))) == (if n + 1 < value {
            TimerStatus::Running
        } else if n + 1 == value {
            TimerStatus::End
        } else {
            TimerStatus::Stopped
        }),
    decreases n,
{
    if n > 0 {
        lemma_countdown(value, (n - 1) as nat);
    }
}

/// The four statuses partition the changes of value by whether the value
/// before and the value after are zero.
pub proof fn lemma_transition_table(previous: u8, next: u8)
    ensures
        transition(previous, next) == TimerStatus::Stopped <==> previous == 0 && next == 0,
        transition(previous, next) == TimerStatus::End <==> previous != 0 && next == 0,
        transition(previous, next) == TimerStatus::Started <==> previous == 0 && next != 0,
        transition(previous, next) == TimerStatus::Running <==> previous != 0 && next != 0,
{
}

} // verus!
