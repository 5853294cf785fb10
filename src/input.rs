use vstd::prelude::*;

use crate::errors::{selection_message, ApplicationError, SelectionError};

verus! {

/// A line without the one line ending that reading it may have left:
/// a final `'\n'`, then a final `'\r'`.
pub open spec fn without_line_ending(line: Seq<char>) -> Seq<char> {
    let a = if line.len() > 0 && line.last() == '\n' {
        line.drop_last()
    } else {
        line
    };
    if a.len() > 0 && a.last() == '\r' {
        a.drop_last()
    } else {
        a
    }
}

/// Removes the line ending from a line that was read from the user.
pub fn strip_line_ending(line: &str) -> (r: String)
    ensures
        r@ == without_line_ending(line@),
{
    let mut end: usize = line.unicode_len();
    if end > 0 && line.get_char(end - 1) == '\n' {
        end = end - 1;
    }
    if end > 0 && line.get_char(end - 1) == '\r' {
        end = end - 1;
    }
    String::from_str(line.substring_char(0, end))
}

/// The only character of a text of length one.
pub open spec fn sole_char(s: Seq<char>) -> Option<char> {
    if s.len() == 1 {
        Some(s[0])
    } else {
        None
    }
}

/// Returns the character of a one-character text, and `None` for any other.
pub fn single_char(s: &str) -> (r: Option<char>)
    ensures
        r == sole_char(s@),
{
    if s.unicode_len() == 1 {
        Some(s.get_char(0))
    } else {
        None
    }
}

pub open spec fn is_digit(c: char) -> bool {
    '0' <= c <= '9'
}

/// The number that a sequence of decimal digits writes.
pub open spec fn digits_value(s: Seq<char>) -> nat
    decreases s.len(),
{
    if s.len() == 0 {
        0
    } else {
        digits_value(s.drop_last()) * 10 + (s.last() as int - '0' as int) as nat
    }
}

/// The `usize` that a text writes in decimal: an optional `+`, then at
/// least one digit and nothing else, of a value that fits in `usize`.
pub open spec fn usize_literal_value(s: Seq<char>) -> Option<usize> {
    let digits = if s.len() > 0 && s[0] == '+' {
        s.drop_first()
    } else {
        s
    };
    if digits.len() > 0 && (forall|i: int| 0 <= i < digits.len() ==> is_digit(#[trigger] digits[i]))
        && digits_value(digits) <= usize::MAX {
        Some(digits_value(digits) as usize)
    } else {
        None
    }
}

/// The message of the error that reading `s` as a `usize` gives.
pub uninterp spec fn parse_failure_reason(s: Seq<char>) -> Seq<char>;

/// Relies on `<usize as FromStr>::from_str`, documented to accept an optional
/// `+` followed by decimal digits only, and to fail on an empty text, on any
/// other character and on a value too large for the type; on failure the
/// message is that of the returned `ParseIntError`.
#[verifier::external_body]
fn parse_usize(s: &str) -> (r: Result<usize, String>)
    ensures
        match usize_literal_value(s@) {
            Some(n) => r == Ok::<usize, String>(n),
            None => r matches Err(m) && m@ == parse_failure_reason(s@),
        },
{
    match s.parse::<usize>() {
        Ok(n) => Ok(n),
        Err(e) => Err(e.to_string()),
    }
}

/// The position, counted from 0, that a typed 1-based number picks in a list
/// of `len` items; `None` where the text is no number or is out of `1..=len`.
pub open spec fn selected_position(input: Seq<char>, len: nat) -> Option<int> {
    match usize_literal_value(input) {
        Some(n) => if 1 <= n <= len {
            Some(n - 1)
        } else {
            None
        },
        None => None,
    }
}

/// Why a typed number picks nothing: the text is no number, or it is one out
/// of range.
pub open spec fn selection_failure(input: Seq<char>) -> Seq<char> {
    match usize_literal_value(input) {
        Some(_) => selection_message(input),
        None => parse_failure_reason(input),
    }
}

/// A typed number picks nothing exactly when the text is no number, or the
/// number is 0, or it is larger than the length of the list.
pub proof fn lemma_selection_fails_exactly(input: Seq<char>, len: nat)
    ensures
        selected_position(input, len) is None <==> (usize_literal_value(input) is None
            || usize_literal_value(input)->Some_0 == 0 || usize_literal_value(input)->Some_0
            > len),
{
}

/// Reads the 1-based number the user typed to pick one of `len` items, and
/// returns its position counted from 0.
pub fn select_index(input: &str, len: usize) -> (r: Result<usize, ApplicationError>)
    ensures
        match selected_position(input@, len as nat) {
            Some(i) => r == Ok::<usize, ApplicationError>(i as usize),
            None => r matches Err(e) && e@ == selection_failure(input@),
        },
{
    match parse_usize(input) {
        Ok(number) => {
            if number == 0 || number > len {
                Err(ApplicationError::from(SelectionError(String::from_str(input))))
            } else {
                Ok(number - 1)
            }
        },
        Err(reason) => Err(ApplicationError(reason)),
    }
}

} // verus!
