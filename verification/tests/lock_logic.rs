//! Behavioral tests of the keypad-lock logic: the layout table, the scan
//! decisions of an entry cycle, the outcome of a completed code, and the
//! action sequence of each outcome.

use keypad_lock::controller::{actions_for, message_text, Action, Line, LockOutcome, Message};
use keypad_lock::layout::map_button;
use keypad_lock::session::EntrySession;

/// Runs one full scan pass during which the key at (row, column) is held:
/// every column window samples its four rows, and only the key's own
/// column reads its row low. Returns the display text after the last
/// column window.
fn pass_with_press(s: &mut EntrySession, row: usize, column: usize) -> String {
    let mut display = String::new();
    for c in 0..4 {
        let mut rows_low = [false; 4];
        if c == column {
            rows_low[row] = true;
        }
        display = s.on_column_sampled(c, rows_low);
    }
    display
}

/// Runs one full scan pass with no key pressed.
fn pass_without_press(s: &mut EntrySession) -> String {
    let mut display = String::new();
    for c in 0..4 {
        display = s.on_column_sampled(c, [false; 4]);
    }
    display
}

/// (row, column) of each symbol on the keypad.
fn key_position(symbol: char) -> (usize, usize) {
    match symbol {
        '1' => (0, 0),
        '2' => (0, 1),
        '3' => (0, 2),
        'A' => (0, 3),
        '4' => (1, 0),
        '5' => (1, 1),
        '6' => (1, 2),
        'B' => (1, 3),
        '7' => (2, 0),
        '8' => (2, 1),
        '9' => (2, 2),
        'C' => (2, 3),
        '*' => (3, 0),
        '0' => (3, 1),
        '#' => (3, 2),
        'D' => (3, 3),
        _ => panic!("not a keypad symbol"),
    }
}

/// Enters a code, one held key per scan pass.
fn enter_code(s: &mut EntrySession, code: &str) {
    for symbol in code.chars() {
        let (row, column) = key_position(symbol);
        pass_with_press(s, row, column);
    }
}

#[test]
fn layout_all_sixteen_positions() {
    let expected = [
        ["1", "2", "3", "A"],
        ["4", "5", "6", "B"],
        ["7", "8", "9", "C"],
        ["*", "0", "#", "D"],
    ];
    for row in 0..4 {
        for column in 0..4 {
            assert_eq!(map_button(column, row), expected[row][column]);
        }
    }
}

#[test]
fn layout_distinct_positions_distinct_symbols() {
    for r1 in 0..4 {
        for c1 in 0..4 {
            for r2 in 0..4 {
                for c2 in 0..4 {
                    if (r1, c1) != (r2, c2) {
                        assert_ne!(map_button(c1, r1), map_button(c2, r2));
                    }
                }
            }
        }
    }
}

#[test]
fn fresh_session_is_empty() {
    let s = EntrySession::new();
    assert_eq!(s.code_len(), 0);
    assert_eq!(s.code_text(), "");
    assert!(!s.is_complete());
}

#[test]
fn display_reflects_prompt_and_partial_code() {
    let mut s = EntrySession::new();
    let d = pass_with_press(&mut s, 0, 0);
    assert_eq!(d, "Insert Key: 1");
    let d = pass_with_press(&mut s, 0, 1);
    assert_eq!(d, "Insert Key: 12");
    assert_eq!(s.code_text(), "12");
}

#[test]
fn display_updated_even_without_a_press() {
    let mut s = EntrySession::new();
    pass_with_press(&mut s, 2, 2);
    let d = pass_without_press(&mut s);
    assert_eq!(d, "Insert Key: 9");
    assert_eq!(s.code_len(), 1);
}

#[test]
fn first_row_wins_within_a_column() {
    let mut s = EntrySession::new();
    // Rows 0 and 2 both read low while column 0 is driven: row 0 wins.
    s.on_column_sampled(0, [true, false, true, false]);
    assert_eq!(s.code_text(), "1");
}

#[test]
fn one_held_key_registers_once_per_pass() {
    let mut s = EntrySession::new();
    pass_with_press(&mut s, 1, 1);
    assert_eq!(s.code_text(), "5");
}

#[test]
fn held_key_registers_again_on_the_next_pass() {
    // No release detection: a key still held when the next pass reaches
    // its column is accepted again.
    let mut s = EntrySession::new();
    pass_with_press(&mut s, 1, 1);
    pass_with_press(&mut s, 1, 1);
    assert_eq!(s.code_text(), "55");
}

#[test]
fn buffer_never_exceeds_four_symbols() {
    let mut s = EntrySession::new();
    enter_code(&mut s, "99999");
    assert_eq!(s.code_len(), 4);
    assert_eq!(s.code_text(), "9999");
    // A further sample while complete is ignored.
    s.on_column_sampled(0, [true, false, false, false]);
    assert_eq!(s.code_text(), "9999");
}

#[test]
fn unlock_code_selects_unlock() {
    let mut s = EntrySession::new();
    enter_code(&mut s, "123A");
    assert!(s.is_complete());
    assert_eq!(s.evaluate(), LockOutcome::Unlock);
}

#[test]
fn lock_code_selects_lock() {
    let mut s = EntrySession::new();
    enter_code(&mut s, "456B");
    assert_eq!(s.evaluate(), LockOutcome::Lock);
}

#[test]
fn any_other_code_is_rejected() {
    let mut s = EntrySession::new();
    enter_code(&mut s, "123B");
    assert_eq!(s.evaluate(), LockOutcome::Reject);

    let mut s = EntrySession::new();
    enter_code(&mut s, "456A");
    assert_eq!(s.evaluate(), LockOutcome::Reject);

    // An incomplete code matches neither known code.
    let mut s = EntrySession::new();
    enter_code(&mut s, "123");
    assert_eq!(s.evaluate(), LockOutcome::Reject);
}

#[test]
fn whole_pass_registers_a_held_key_once() {
    let mut s = EntrySession::new();
    let mut samples = [[false; 4]; 4];
    samples[2][2] = true; // key '9': column 2 window reads row 2 low
    let d = s.on_pass_sampled(samples);
    assert_eq!(s.code_text(), "9");
    assert_eq!(d, "Insert Key: 9");
}

#[test]
fn whole_pass_without_press_changes_nothing() {
    let mut s = EntrySession::new();
    let d = s.on_pass_sampled([[false; 4]; 4]);
    assert_eq!(s.code_len(), 0);
    assert_eq!(d, "Insert Key: ");
}

#[test]
fn keys_in_two_columns_both_register_in_one_pass() {
    // Each column window accepts independently: keys held in different
    // columns of the same pass are both appended, in column order.
    let mut s = EntrySession::new();
    let mut samples = [[false; 4]; 4];
    samples[0][0] = true; // '1'
    samples[1][0] = true; // '2'
    s.on_pass_sampled(samples);
    assert_eq!(s.code_text(), "12");
}

#[test]
fn finish_returns_outcome_and_empties_the_buffer() {
    let mut s = EntrySession::new();
    enter_code(&mut s, "456B");
    assert_eq!(s.finish(), LockOutcome::Lock);
    assert_eq!(s.code_len(), 0);
    assert_eq!(s.code_text(), "");

    enter_code(&mut s, "4568");
    assert_eq!(s.finish(), LockOutcome::Reject);
    assert_eq!(s.code_text(), "");
}

#[test]
fn message_texts() {
    assert_eq!(message_text(Message::Prompt), "Insert Key:");
    assert_eq!(message_text(Message::Unlocked), "Door Unlocked");
    assert_eq!(message_text(Message::Locked), "Door Locked");
    assert_eq!(message_text(Message::WrongKey), "Wrong Key");
}

#[test]
fn unlock_actions_exact_sequence() {
    let expected = vec![
        Action::SetHigh(Line::Actuator),
        Action::WaitMicros(2_300),
        Action::SetLow(Line::Actuator),
        Action::WaitMicros(1_000_000),
        Action::SetHigh(Line::GreenLed),
        Action::Show(Message::Unlocked),
        Action::WaitMicros(5_000_000),
        Action::SetLow(Line::GreenLed),
    ];
    assert_eq!(actions_for(LockOutcome::Unlock), expected);
}

#[test]
fn lock_actions_exact_sequence() {
    let expected = vec![
        Action::SetHigh(Line::Actuator),
        Action::WaitMicros(1_000),
        Action::SetLow(Line::Actuator),
        Action::WaitMicros(1_000_000),
        Action::SetHigh(Line::GreenLed),
        Action::Show(Message::Locked),
        Action::WaitMicros(2_000_000),
        Action::SetLow(Line::GreenLed),
    ];
    assert_eq!(actions_for(LockOutcome::Lock), expected);
}

#[test]
fn reject_actions_exact_sequence() {
    let expected = vec![
        Action::SetHigh(Line::Actuator),
        Action::WaitMicros(1_000),
        Action::SetLow(Line::Actuator),
        Action::WaitMicros(1_000_000),
        Action::SetHigh(Line::Buzzer),
        Action::SetHigh(Line::RedLed),
        Action::Show(Message::WrongKey),
        Action::WaitMicros(2_000_000),
        Action::SetLow(Line::RedLed),
        Action::SetLow(Line::Buzzer),
    ];
    assert_eq!(actions_for(LockOutcome::Reject), expected);
}

#[test]
fn scenario_correct_code_unlocks() {
    let mut s = EntrySession::new();
    let mut display = String::new();
    for symbol in ['1', '2', '3', 'A'] {
        let (row, column) = key_position(symbol);
        display = pass_with_press(&mut s, row, column);
    }
    assert_eq!(display, "Insert Key: 123A");
    assert!(s.is_complete());

    let outcome = s.evaluate();
    assert_eq!(outcome, LockOutcome::Unlock);

    let actions = actions_for(outcome);
    assert!(actions.contains(&Action::Show(Message::Unlocked)));
    assert!(actions.contains(&Action::SetHigh(Line::GreenLed)));
    assert!(actions.contains(&Action::WaitMicros(5_000_000)));
    assert!(!actions.contains(&Action::SetHigh(Line::RedLed)));
    assert!(!actions.contains(&Action::SetHigh(Line::Buzzer)));
    // The green indicator goes off only after the five-second hold.
    let on = actions.iter().position(|a| *a == Action::SetHigh(Line::GreenLed)).unwrap();
    let hold = actions.iter().position(|a| *a == Action::WaitMicros(5_000_000)).unwrap();
    let off = actions.iter().position(|a| *a == Action::SetLow(Line::GreenLed)).unwrap();
    assert!(on < hold && hold < off);

    s.reset();
    assert_eq!(s.code_len(), 0);
    assert_eq!(s.code_text(), "");
}

#[test]
fn scenario_wrong_code_is_rejected() {
    let mut s = EntrySession::new();
    enter_code(&mut s, "9999");
    assert!(s.is_complete());

    let outcome = s.evaluate();
    assert_eq!(outcome, LockOutcome::Reject);

    let actions = actions_for(outcome);
    assert_eq!(actions[0], Action::SetHigh(Line::Actuator));
    assert_eq!(actions[1], Action::WaitMicros(1_000));
    assert_eq!(actions[2], Action::SetLow(Line::Actuator));
    assert!(actions.contains(&Action::Show(Message::WrongKey)));
    assert!(actions.contains(&Action::SetHigh(Line::RedLed)));
    assert!(actions.contains(&Action::SetHigh(Line::Buzzer)));
    assert!(actions.contains(&Action::WaitMicros(2_000_000)));
    assert!(!actions.contains(&Action::SetHigh(Line::GreenLed)));

    s.reset();
    assert_eq!(s.code_len(), 0);
}
