//! The lock controller: which outcome a completed code selects, and the
//! fixed sequence of actuator, indicator and display actions each outcome
//! performs. The sequences are returned as data; the caller owns the
//! hardware lines and the clock and performs them in order, blocking until
//! each is done.

use vstd::prelude::*;

verus! {

/// High time of the actuator pulse that moves the door forward (2 ms plus
/// 300 us of trim).
pub const FORWARD_PULSE_MICROS: u64 = 2_300;

/// High time of the actuator pulse that moves the door in reverse.
pub const REVERSE_PULSE_MICROS: u64 = 1_000;

/// Settle time after an actuator pulse, before anything else is done.
pub const PULSE_SETTLE_MICROS: u64 = 1_000_000;

/// How long the green indicator stays on after an unlock.
pub const UNLOCK_HOLD_MICROS: u64 = 5_000_000;

/// How long the green indicator stays on after a lock.
pub const LOCK_HOLD_MICROS: u64 = 2_000_000;

/// How long the red indicator and the buzzer stay on after a rejection.
pub const REJECT_HOLD_MICROS: u64 = 2_000_000;

/// What a completed code selects.
#[derive(Clone, Copy, Debug, PartialEq, Eq, Structural)]
pub enum LockOutcome {
    /// The code matched the unlock code: move the door forward.
    Unlock,
    /// The code matched the lock code: move the door in reverse.
    Lock,
    /// Any other code: signal a wrong key; the door is also driven in
    /// reverse, the same motion as a lock.
    Reject,
}

/// An output line the controller drives.
#[derive(Clone, Copy, Debug, PartialEq, Eq, Structural)]
pub enum Line {
    /// The actuator control line (pulse-based, no position feedback).
    Actuator,
    GreenLed,
    RedLed,
    Buzzer,
}

/// A text the display can show.
#[derive(Clone, Copy, Debug, PartialEq, Eq, Structural)]
pub enum Message {
    /// Shown while a code is being entered, followed by the partial code.
    Prompt,
    Unlocked,
    Locked,
    WrongKey,
}

/// One step of an outcome's action sequence. The caller performs them
/// strictly in order, each blocking until complete.
#[derive(Clone, Copy, Debug, PartialEq, Eq, Structural)]
pub enum Action {
    SetHigh(Line),
    SetLow(Line),
    /// Suspend for the given number of microseconds.
    WaitMicros(u64),
    /// Clear the display, then write the message.
    Show(Message),
}

/// The code that unlocks the door.
pub open spec fn unlock_code() -> Seq<char> {
    "123A"@
}

/// The code that locks the door.
pub open spec fn lock_code() -> Seq<char> {
    "456B"@
}

/// The outcome a completed code selects: an exact match against the two
/// known codes, everything else rejected.
pub open spec fn spec_outcome(code: Seq<char>) -> LockOutcome {
    if code == unlock_code() {
        LockOutcome::Unlock
    } else if code == lock_code() {
        LockOutcome::Lock
    } else {
        LockOutcome::Reject
    }
}

/// Law: exactly "123A" unlocks, exactly "456B" locks, and every other
/// code — of any length — is rejected.
pub proof fn lemma_outcome_rules(code: Seq<char>)
    ensures
        spec_outcome(code) == LockOutcome::Unlock <==> code == unlock_code(),
        spec_outcome(code) == LockOutcome::Lock <==> code == lock_code(),
        spec_outcome(code) == LockOutcome::Reject <==> (code != unlock_code() && code
            != lock_code()),
{
    reveal_strlit("123A");
    reveal_strlit("456B");
    assert(unlock_code()[0] != lock_code()[0]);
}

/// The characters of each display message.
pub open spec fn spec_message(m: Message) -> Seq<char> {
    match m {
        Message::Prompt => "Insert Key:"@,
        Message::Unlocked => "Door Unlocked"@,
        Message::Locked => "Door Locked"@,
        Message::WrongKey => "Wrong Key"@,
    }
}

/// The text of a display message.
pub fn message_text(m: Message) -> (r: &'static str)
    ensures
        r@ == spec_message(m),
{
    match m {
        Message::Prompt => "Insert Key:",
        Message::Unlocked => "Door Unlocked",
        Message::Locked => "Door Locked",
        Message::WrongKey => "Wrong Key",
    }
}

/// What the display shows during entry: the prompt, a space, then the
/// partial code.
pub open spec fn display_text(code: Seq<char>) -> Seq<char> {
    spec_message(Message::Prompt) + seq![' '] + code
}

/// The action sequence of each outcome: actuator pulse, indicator on,
/// message, hold, indicator off — exactly in that order.
pub open spec fn spec_actions(o: LockOutcome) -> Seq<Action> {
    match o {
        LockOutcome::Unlock => seq![
            Action::SetHigh(Line::Actuator),
            Action::WaitMicros(FORWARD_PULSE_MICROS),
            Action::SetLow(Line::Actuator),
            Action::WaitMicros(PULSE_SETTLE_MICROS),
            Action::SetHigh(Line::GreenLed),
            Action::Show(Message::Unlocked),
            Action::WaitMicros(UNLOCK_HOLD_MICROS),
            Action::SetLow(Line::GreenLed),
        ],
        LockOutcome::Lock => seq![
            Action::SetHigh(Line::Actuator),
            Action::WaitMicros(REVERSE_PULSE_MICROS),
            Action::SetLow(Line::Actuator),
            Action::WaitMicros(PULSE_SETTLE_MICROS),
            Action::SetHigh(Line::GreenLed),
            Action::Show(Message::Locked),
            Action::WaitMicros(LOCK_HOLD_MICROS),
            Action::SetLow(Line::GreenLed),
        ],
        LockOutcome::Reject => seq![
            Action::SetHigh(Line::Actuator),
            Action::WaitMicros(REVERSE_PULSE_MICROS),
            Action::SetLow(Line::Actuator),
            Action::WaitMicros(PULSE_SETTLE_MICROS),
            Action::SetHigh(Line::Buzzer),
            Action::SetHigh(Line::RedLed),
            Action::Show(Message::WrongKey),
            Action::WaitMicros(REJECT_HOLD_MICROS),
            Action::SetLow(Line::RedLed),
            Action::SetLow(Line::Buzzer),
        ],
    }
}

/// The actions an outcome performs, in order.
pub fn actions_for(o: LockOutcome) -> (v: Vec<Action>)
    ensures
        v@ == spec_actions(o),
{
    let mut v: Vec<Action> = Vec::new();
    v.push(Action::SetHigh(Line::Actuator));
    match o {
        LockOutcome::Unlock => v.push(Action::WaitMicros(FORWARD_PULSE_MICROS)),
        LockOutcome::Lock => v.push(Action::WaitMicros(REVERSE_PULSE_MICROS)),
        LockOutcome::Reject => v.push(Action::WaitMicros(REVERSE_PULSE_MICROS)),
    }
    v.push(Action::SetLow(Line::Actuator));
    v.push(Action::WaitMicros(PULSE_SETTLE_MICROS));
    match o {
        LockOutcome::Unlock => {
            v.push(Action::SetHigh(Line::GreenLed));
            v.push(Action::Show(Message::Unlocked));
            v.push(Action::WaitMicros(UNLOCK_HOLD_MICROS));
            v.push(Action::SetLow(Line::GreenLed));
        },
        LockOutcome::Lock => {
            v.push(Action::SetHigh(Line::GreenLed));
            v.push(Action::Show(Message::Locked));
            v.push(Action::WaitMicros(LOCK_HOLD_MICROS));
            v.push(Action::SetLow(Line::GreenLed));
        },
        LockOutcome::Reject => {
            v.push(Action::SetHigh(Line::Buzzer));
            v.push(Action::SetHigh(Line::RedLed));
            v.push(Action::Show(Message::WrongKey));
            v.push(Action::WaitMicros(REJECT_HOLD_MICROS));
            v.push(Action::SetLow(Line::RedLed));
            v.push(Action::SetLow(Line::Buzzer));
        },
    }
    proof {
        assert(v@ =~= spec_actions(o));
    }
    v
}

} // verus!
