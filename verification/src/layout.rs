//! The fixed 4x4 keypad layout: which symbol sits at each (row, column)
//! position, and the fact that no symbol appears twice.

use vstd::prelude::*;

verus! {

/// Number of rows and of columns of the keypad.
pub const GRID: usize = 4;

/// The symbol printed on the key at (row, column), rows and columns
/// indexed from 0. Outside the grid the value is unconstrained by callers:
/// every user guards with `0 <= row < 4 && 0 <= column < 4`.
pub open spec fn layout_char(row: int, column: int) -> char {
    if row == 0 {
        if column == 0 {
            '1'
        } else if column == 1 {
            '2'
        } else if column == 2 {
            '3'
        } else {
            'A'
        }
    } else if row == 1 {
        if column == 0 {
            '4'
        } else if column == 1 {
            '5'
        } else if column == 2 {
            '6'
        } else {
            'B'
        }
    } else if row == 2 {
        if column == 0 {
            '7'
        } else if column == 1 {
            '8'
        } else if column == 2 {
            '9'
        } else {
            'C'
        }
    } else {
        if column == 0 {
            '*'
        } else if column == 1 {
            '0'
        } else if column == 2 {
            '#'
        } else {
            'D'
        }
    }
}

/// Resolves an activated (column, row) pair to the symbol of the key that
/// joins those two lines, as a one-character string.
pub fn map_button(column_index: usize, row_index: usize) -> (r: &'static str)
    requires
        column_index < GRID,
        row_index < GRID,
    ensures
        r@.len() == 1,
        r@[0] == layout_char(row_index as int, column_index as int),
{
    proof {
        reveal_strlit("1");
        reveal_strlit("2");
        reveal_strlit("3");
        reveal_strlit("A");
        reveal_strlit("4");
        reveal_strlit("5");
        reveal_strlit("6");
        reveal_strlit("B");
        reveal_strlit("7");
        reveal_strlit("8");
        reveal_strlit("9");
        reveal_strlit("C");
        reveal_strlit("*");
        reveal_strlit("0");
        reveal_strlit("#");
        reveal_strlit("D");
    }
    if row_index == 0 {
        if column_index == 0 {
            "1"
        } else if column_index == 1 {
            "2"
        } else if column_index == 2 {
            "3"
        } else {
            "A"
        }
    } else if row_index == 1 {
        if column_index == 0 {
            "4"
        } else if column_index == 1 {
            "5"
        } else if column_index == 2 {
            "6"
        } else {
            "B"
        }
    } else if row_index == 2 {
        if column_index == 0 {
            "7"
        } else if column_index == 1 {
            "8"
        } else if column_index == 2 {
            "9"
        } else {
            "C"
        }
    } else {
        if column_index == 0 {
            "*"
        } else if column_index == 1 {
            "0"
        } else if column_index == 2 {
            "#"
        } else {
            "D"
        }
    }
}

/// Law: the layout is injective. Two distinct (row, column) positions of
/// the grid never carry the same symbol, so a reported symbol identifies
/// the key that was pressed.
pub proof fn lemma_layout_injective(r1: int, c1: int, r2: int, c2: int)
    requires
        0 <= r1 < 4,
        0 <= c1 < 4,
        0 <= r2 < 4,
        0 <= c2 < 4,
        !(r1 == r2 && c1 == c2),
    ensures
        layout_char(r1, c1) != layout_char(r2, c2),
{
}

} // verus!
