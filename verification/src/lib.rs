//! Logic of a keypad-driven door lock: a 4x4 matrix keypad layout, the
//! decision rules of one scan pass, a bounded code buffer, and the state
//! machine that turns a completed code into an outcome and a fixed sequence
//! of actuator, indicator and display actions.
//!
//! Hardware access (driving the column lines, sampling the row lines,
//! pulsing the actuator, waiting) is left to the caller: every function
//! here is a pure decision on sampled values.

pub mod codebuf;
pub mod controller;
pub mod layout;
pub mod session;

use vstd::prelude::*;

verus! {

} // verus!
