//! The size of the terminal.
use vstd::prelude::*;
use vstd::string::*;

use crate::number::{number_in, parse_u64};

verus! {

/// The width of a terminal that tells none.
pub const DEFAULT_WIDTH: usize = 80;

/// The width that a setting gives: a number above zero.
pub open spec fn width_in(setting: Seq<char>) -> Option<usize> {
    match number_in(setting) {
        Some(n) => if 0 < n <= usize::MAX {
            Some(n as usize)
        } else {
            None
        },
        None => None,
    }
}

/// The width of a terminal: what it tells, what the setting gives, or the usual
/// one.
pub open spec fn terminal_width(told: Option<usize>, setting: Option<Seq<char>>) -> usize {
    if told matches Some(n) && n > 0 {
        told.unwrap()
    } else if setting matches Some(s) && width_in(s) is Some {
        width_in(setting.unwrap()).unwrap()
    } else {
        DEFAULT_WIDTH
    }
}

/// The width of the terminal, given what it tells and the value of the setting
/// for columns. It is never zero.
pub fn current_terminal_width(told: Option<usize>, columns: Option<&str>) -> (r: usize)
    ensures
        r == terminal_width(
            told,
            match columns {
                Some(s) => Some(s@),
                None => None,
            },
        ),
        r > 0,
{
    if let Some(n) = told {
        if n > 0 {
            return n;
        }
    }
    if let Some(s) = columns {
        if let Some(n) = parse_u64(s) {
            if n > 0 && n <= usize::MAX as u64 {
                return n as usize;
            }
        }
    }
    DEFAULT_WIDTH
}

} // verus!
