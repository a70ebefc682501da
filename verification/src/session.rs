//! One code-entry cycle: symbols accumulate in the code buffer as the
//! caller sweeps the four columns and hands in what the four row lines
//! read during each column's active window. The session decides — which
//! row wins, which symbol that is, whether it is accepted — and tells the
//! caller what the display must show.
//!
//! The caller owns the scan lines and the clock: it drives a column low,
//! waits the settle delay, samples the rows, restores the column, waits
//! the debounce delay, and hands the samples here.

use vstd::prelude::*;
use vstd::string::StringExecFns;
use vstd::utf8::is_ascii_chars;

use crate::codebuf::{buf_as_str, buf_eq_str, buf_len, buf_new, buf_push_str, code_chars};
use crate::controller::{display_text, message_text, spec_outcome, LockOutcome, Message};
use crate::layout::{layout_char, map_button, GRID};

verus! {

/// How many symbols complete a code.
pub const CODE_LEN: usize = 4;

/// Settle delay after driving a column low, before the rows are sampled.
pub const SETTLE_DELAY_MICROS: u64 = 10_000;

/// Debounce delay after restoring a column to high. Together with the
/// settle delay it sets the minimum time between two detected key events.
pub const DEBOUNCE_DELAY_MICROS: u64 = 50_000;

/// The row that wins a column's active window: the first row (in fixed
/// order) read low, or none when no row is low.
pub open spec fn pressed_row(rows_low: Seq<bool>) -> Option<int> {
    if rows_low[0] {
        Some(0int)
    } else if rows_low[1] {
        Some(1int)
    } else if rows_low[2] {
        Some(2int)
    } else if rows_low[3] {
        Some(3int)
    } else {
        None
    }
}

/// What one column's window does to the accumulated code: when the code is
/// still incomplete and a row is low, the symbol of the winning row is
/// appended; otherwise the code is unchanged.
pub open spec fn step_code(code: Seq<char>, column: int, rows_low: Seq<bool>) -> Seq<char> {
    if code.len() < CODE_LEN {
        match pressed_row(rows_low) {
            Some(row) => code.push(layout_char(row, column)),
            None => code,
        }
    } else {
        code
    }
}

/// What one full scan pass — the four columns in order, with the rows each
/// one read — does to the accumulated code.
pub open spec fn pass_code(code: Seq<char>, samples: Seq<Seq<bool>>) -> Seq<char> {
    step_code(
        step_code(step_code(step_code(code, 0, samples[0]), 1, samples[1]), 2, samples[2]),
        3,
        samples[3],
    )
}

/// What the first `n` column windows of a pass do to the accumulated code.
pub open spec fn pass_code_upto(code: Seq<char>, samples: Seq<Seq<bool>>, n: int) -> Seq<char>
    decreases n,
{
    if n <= 0 {
        code
    } else {
        step_code(pass_code_upto(code, samples, n - 1), n - 1, samples[n - 1])
    }
}

/// All four column windows of a pass are exactly the first four.
proof fn lemma_pass_code_upto_full(code: Seq<char>, samples: Seq<Seq<bool>>)
    ensures
        pass_code_upto(code, samples, 4) == pass_code(code, samples),
{
    reveal_with_fuel(pass_code_upto, 5);
}

/// What the four row lines read during each of the four column windows of
/// one scan pass, as a sequence of samples.
pub open spec fn grid_view(samples: [[bool; 4]; 4]) -> Seq<Seq<bool>> {
    Seq::new(4, |c: int| samples@[c]@)
}

/// A sample grid in which exactly one key — at (row, column) — is read as
/// pressed, in every column window of the pass.
pub open spec fn single_press(samples: Seq<Seq<bool>>, row: int, column: int) -> bool {
    &&& samples.len() == 4
    &&& forall|c: int| 0 <= c < 4 ==> (#[trigger] samples[c]).len() == 4
    &&& forall|c: int, r: int|
        0 <= c < 4 && 0 <= r < 4 ==> (#[trigger] samples[c][r] <==> (c == column && r == row))
}

/// Law: a key held down through one full scan pass is appended exactly
/// once — during its own column's window — not once per column window.
pub proof fn lemma_one_press_one_append(
    code: Seq<char>,
    samples: Seq<Seq<bool>>,
    row: int,
    column: int,
)
    requires
        code.len() < CODE_LEN,
        0 <= row < 4,
        0 <= column < 4,
        single_press(samples, row, column),
    ensures
        pass_code(code, samples) =~= code.push(layout_char(row, column)),
{
    assert forall|c: int| 0 <= c < 4 && c != column implies pressed_row(samples[c]) is None by {
        assert(!samples[c][0]);
        assert(!samples[c][1]);
        assert(!samples[c][2]);
        assert(!samples[c][3]);
    }
    assert(samples[column][row]);
    assert(forall|r: int| 0 <= r < 4 && r != row ==> !samples[column][r]);
    assert(pressed_row(samples[column]) == Some(row));
}

/// One code-entry cycle over the keypad.
pub struct EntrySession {
    code: heapless::String<8>,
}

impl View for EntrySession {
    type V = Seq<char>;

    closed spec fn view(&self) -> Seq<char> {
        code_chars(self.code)
    }
}

impl EntrySession {
    /// The buffer holds ASCII symbols only and never more than a complete
    /// code's worth.
    pub open spec fn wf(&self) -> bool {
        is_ascii_chars(self@) && self@.len() <= CODE_LEN
    }

    /// A fresh entry cycle: the buffer starts empty.
    pub fn new() -> (s: Self)
        ensures
            s@ == Seq::<char>::empty(),
            s.wf(),
    {
        EntrySession { code: buf_new() }
    }

    /// How many symbols have been accepted so far.
    pub fn code_len(&self) -> (n: usize)
        requires
            self.wf(),
        ensures
            n == self@.len(),
    {
        buf_len(&self.code)
    }

    /// Whether the code is complete and ready to evaluate.
    pub fn is_complete(&self) -> (b: bool)
        requires
            self.wf(),
        ensures
            b == (self@.len() >= CODE_LEN),
    {
        buf_len(&self.code) >= CODE_LEN
    }

    /// The symbols accepted so far, as text.
    pub fn code_text(&self) -> (r: String)
        ensures
            r@ == self@,
    {
        String::from_str(buf_as_str(&self.code))
    }

    /// What the display must show now: the prompt followed by the partial
    /// code.
    pub fn entry_display(&self) -> (d: String)
        ensures
            d@ == display_text(self@),
    {
        let mut d = String::from_str(message_text(Message::Prompt));
        d.append(" ");
        d.append(buf_as_str(&self.code));
        proof {
            reveal_strlit(" ");
            assert(" "@ =~= seq![' ']);
            assert(d@ =~= display_text(self@));
        }
        d
    }

    /// Takes what the four row lines read while the given column was
    /// driven low, accepts at most one symbol — the first low row wins —
    /// and returns the text the display must show, updated whether or not
    /// a symbol was accepted. A sample that arrives when the code is
    /// already complete is ignored rather than allowed to overrun the
    /// buffer.
    pub fn on_column_sampled(&mut self, column_index: usize, rows_low: [bool; 4]) -> (d: String)
        requires
            old(self).wf(),
            column_index < GRID,
        ensures
            final(self)@ == step_code(old(self)@, column_index as int, rows_low@),
            final(self).wf(),
            d@ == display_text(final(self)@),
    {
        let pressed: Option<usize> = if rows_low[0] {
            Some(0)
        } else if rows_low[1] {
            Some(1)
        } else if rows_low[2] {
            Some(2)
        } else if rows_low[3] {
            Some(3)
        } else {
            None
        };
        if buf_len(&self.code) < CODE_LEN {
            match pressed {
                Some(row_index) => {
                    let symbol = map_button(column_index, row_index);
                    proof {
                        assert(is_ascii_chars(symbol@)) by {
                            assert(symbol@[0] == layout_char(
                                row_index as int,
                                column_index as int,
                            ));
                        }
                    }
                    let _ = buf_push_str(&mut self.code, symbol);
                    proof {
                        assert(self@ =~= step_code(
                            old(self)@,
                            column_index as int,
                            rows_low@,
                        ));
                    }
                },
                None => {},
            }
        }
        self.entry_display()
    }

    /// Runs one full scan pass: the four column windows in order, each
    /// handed what the four row lines read while that column was driven
    /// low. Returns the text the display shows after the pass.
    pub fn on_pass_sampled(&mut self, samples: [[bool; 4]; 4]) -> (d: String)
        requires
            old(self).wf(),
        ensures
            final(self)@ == pass_code(old(self)@, grid_view(samples)),
            final(self).wf(),
            d@ == display_text(final(self)@),
    {
        let ghost code0 = self@;
        let mut d = self.entry_display();
        let mut c: usize = 0;
        while c < 4
            invariant
                c <= 4,
                self.wf(),
                self@ == pass_code_upto(code0, grid_view(samples), c as int),
                d@ == display_text(self@),
            decreases 4 - c,
        {
            d = self.on_column_sampled(c, samples[c]);
            c += 1;
        }
        proof {
            lemma_pass_code_upto_full(code0, grid_view(samples));
        }
        d
    }

    /// The outcome the accumulated code selects.
    pub fn evaluate(&self) -> (o: LockOutcome)
        ensures
            o == spec_outcome(self@),
    {
        if buf_eq_str(&self.code, "123A") {
            LockOutcome::Unlock
        } else if buf_eq_str(&self.code, "456B") {
            LockOutcome::Lock
        } else {
            LockOutcome::Reject
        }
    }

    /// Hands the completed code to the controller and ends the cycle:
    /// returns the outcome the code selects and leaves the buffer empty,
    /// so the next entry cycle starts from nothing.
    pub fn finish(&mut self) -> (o: LockOutcome)
        requires
            old(self).wf(),
            old(self)@.len() == CODE_LEN,
        ensures
            o == spec_outcome(old(self)@),
            final(self)@ == Seq::<char>::empty(),
            final(self).wf(),
    {
        let o = self.evaluate();
        self.reset();
        o
    }

    /// Ends the cycle: the buffer is emptied, ready for the next code.
    pub fn reset(&mut self)
        ensures
            final(self)@ == Seq::<char>::empty(),
            final(self).wf(),
    {
        self.code = buf_new();
    }
}

} // verus!
