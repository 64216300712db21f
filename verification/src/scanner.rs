//! Finding tokens and the ends of statement bodies in a text.

use crate::keywords::END;
use crate::semantics::{
    after_bracket, after_char, after_end, blank, body_end, token_end, word_start, Terminator,
};
use crate::text::{is_separator, is_whitespace};
use vstd::prelude::*;

verus! {

/// The end of the token that starts at `from`.
pub fn find_token_end(text: &Vec<char>, from: usize) -> (end: usize)
    ensures
        end == token_end(text@, from as int),
        from <= end,
        from <= text.len() ==> end <= text.len(),
{
    let mut i: usize = from;
    while i < text.len() && !is_separator(text[i])
        invariant
            from <= i,
            from <= text.len() ==> i <= text.len(),
            token_end(text@, from as int) == token_end(text@, i as int),
        decreases text.len() - i,
    {
        i += 1;
    }
    i
}

/// The first index at or after `from` that holds no whitespace.
pub fn find_word_start(text: &Vec<char>, from: usize) -> (start: usize)
    ensures
        start == word_start(text@, from as int),
        from <= start,
        from <= text.len() ==> start <= text.len(),
{
    let mut i: usize = from;
    while i < text.len() && is_whitespace(text[i])
        invariant
            from <= i,
            from <= text.len() ==> i <= text.len(),
            word_start(text@, from as int) == word_start(text@, i as int),
        decreases text.len() - i,
    {
        i += 1;
    }
    i
}

/// Whether a text holds nothing but whitespace.
pub fn is_blank(text: &Vec<char>) -> (b: bool)
    ensures
        b == blank(text@),
{
    let mut i: usize = 0;
    while i < text.len()
        invariant
            i <= text.len(),
            forall|k: int| 0 <= k < i ==> crate::text::whitespace(#[trigger] text@[k]),
        decreases text.len() - i,
    {
        if !is_whitespace(text[i]) {
            return false;
        }
        i += 1;
    }
    true
}

/// The index after the first `c` at or after `from`.
pub fn find_after_char(text: &Vec<char>, c: char, from: usize) -> (end: Option<usize>)
    ensures
        match after_char(text@, c, from as int) {
            Some(e) => end == Some(e as usize) && from < e <= text.len(),
            None => end is None,
        },
{
    let mut i: usize = from;
    while i < text.len()
        invariant
            from <= i,
            after_char(text@, c, from as int) == after_char(text@, c, i as int),
        decreases text.len() - i,
    {
        if text[i] == c {
            return Some(i + 1);
        }
        i += 1;
    }
    None
}

/// The index after the first `END` that starts at or after `from`.
pub fn find_after_end(text: &Vec<char>, from: usize) -> (end: Option<usize>)
    ensures
        match after_end(text@, from as int) {
            Some(e) => end == Some(e as usize) && from + 3 <= e <= text.len(),
            None => end is None,
        },
{
    let n: usize = text.len();
    if n < 3 {
        return None;
    }
    let mut i: usize = from;
    while i <= n - 3
        invariant
            n == text.len(),
            n >= 3,
            from <= i,
            after_end(text@, from as int) == after_end(text@, i as int),
        decreases n - i,
    {
        proof {
            reveal_strlit("END");
            let window = text@.subrange(i as int, i + 3);
            if text@[i as int] == 'E' && text@[i + 1] == 'N' && text@[i + 2] == 'D' {
                assert(window =~= END@);
            } else {
                assert(window[0] == text@[i as int]);
                assert(window[1] == text@[i + 1]);
                assert(window[2] == text@[i + 2]);
            }
        }
        if text[i] == 'E' && text[i + 1] == 'N' && text[i + 2] == 'D' {
            return Some(i + 3);
        }
        i += 1;
    }
    None
}

/// The index after the closing bracket that matches the first opening one
/// at or after `from`.
pub fn find_after_bracket(text: &Vec<char>, from: usize) -> (end: Option<usize>)
    ensures
        match after_bracket(text@, from as int, 0) {
            Some(e) => end == Some(e as usize) && from < e <= text.len(),
            None => end is None,
        },
{
    let mut open: usize = 0;
    let mut i: usize = from;
    while i < text.len()
        invariant
            from <= i,
            open <= i - from,
            after_bracket(text@, from as int, 0) == after_bracket(text@, i as int, open as nat),
        decreases text.len() - i,
    {
        let c: char = text[i];
        if c == '[' {
            open += 1;
        } else if c == ']' {
            if open <= 1 {
                return Some(i + 1);
            }
            open -= 1;
        }
        i += 1;
    }
    None
}

/// The index at which the body that starts at `from` ends.
pub fn find_body_end(text: &Vec<char>, from: usize, terminator: Terminator) -> (end: Option<usize>)
    ensures
        match body_end(text@, from as int, terminator) {
            Some(e) => end == Some(e as usize) && from < e <= text.len(),
            None => end is None,
        },
{
    match terminator {
        Terminator::Newline => find_after_char(text, '\n', from),
        Terminator::End => find_after_end(text, from),
        Terminator::Bracket => find_after_bracket(text, from),
    }
}

} // verus!
