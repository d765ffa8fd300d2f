//! Classifying what the shell has read so far: a complete statement, complete
//! top-level definitions, input that is not finished yet, or a syntax error.

use crate::text::{chars_of, is_blank, is_blank_text};
use vstd::prelude::*;

verus! {

/// A syntax error reported by the parser: where it was found, the character
/// found there (`None` at the end of input), and its texts for reporting.
#[derive(Debug, Clone)]
pub struct SyntaxError {
    pub start: usize,
    pub end: usize,
    pub found: Option<char>,
    /// The long description (the error's `Debug` text).
    pub message: String,
    /// The short description (the error's `Display` text).
    pub label: String,
}

/// What the shell read, when it is complete.
#[derive(Debug)]
pub enum ReplInput<D, S> {
    /// A single statement.
    Stmt(S),
    /// One or more top-level definitions.
    TopLevels(Vec<D>),
}

/// The state of the text read so far.
#[derive(Debug)]
pub enum ParseState<D, S> {
    Complete(ReplInput<D, S>),
    /// The input ended where more was expected: read another line.
    Incomplete,
    /// A syntax error that more input cannot mend.
    Error(Vec<SyntaxError>),
}

/// `n - 1`, or 0 when `n` is 0.
pub open spec fn saturating_pred(n: int) -> int {
    if n > 0 {
        n - 1
    } else {
        0
    }
}

/// Whether the error `e` says that the input of `len` characters ended too
/// early: nothing was found, at the last character or beyond.
pub open spec fn error_at_end(e: SyntaxError, len: int) -> bool {
    e.found is None && e.end >= saturating_pred(len)
}

/// Whether `input` is unfinished text rather than wrong text: it is not
/// blank, and one of `errors` is at its end.
pub open spec fn is_incomplete(input: Seq<char>, errors: Seq<SyntaxError>) -> bool {
    &&& !is_blank_text(input)
    &&& exists|i: int| 0 <= i < errors.len() && error_at_end(#[trigger] errors[i], input.len() as int)
}

/// Whether `input`, which failed to parse with `errors`, is unfinished
/// rather than wrong. Blank input is never unfinished.
pub fn is_incomplete_input(input: &str, errors: &[SyntaxError]) -> (b: bool)
    ensures
        b == is_incomplete(input@, errors@),
{
    if is_blank(input) {
        return false;
    }
    let len = chars_of(input).len();
    let last = if len > 0 {
        len - 1
    } else {
        0
    };
    let mut i: usize = 0;
    while i < errors.len()
        invariant
            i <= errors@.len(),
            len == input@.len(),
            !is_blank_text(input@),
            last == saturating_pred(len as int),
            forall|j: int| 0 <= j < i ==> !error_at_end(#[trigger] errors@[j], len as int),
        decreases errors.len() - i,
    {
        if errors[i].found.is_none() && errors[i].end >= last {
            assert(error_at_end(errors@[i as int], input@.len() as int));
            assert(is_incomplete(input@, errors@));
            return true;
        }
        i = i + 1;
    }
    false
}

/// Blank input is never unfinished. Input that is not blank is unfinished
/// when one of its errors found nothing (the input ran out) at its last
/// character or beyond, and is not unfinished when every error found a
/// character or lies before the last character.
pub proof fn lemma_unfinished_when_input_runs_out(
    input: Seq<char>,
    errors: Seq<SyntaxError>,
    e: SyntaxError,
)
    ensures
        is_blank_text(input) ==> !is_incomplete(input, errors),
        !is_blank_text(input) && errors.contains(e) && e.found is None && e.end + 1 >= input.len()
            ==> is_incomplete(input, errors),
        (forall|i: int|
            0 <= i < errors.len() ==> (#[trigger] errors[i]).found is Some || errors[i].end + 1
                < input.len()) ==> !is_incomplete(input, errors),
{
    if !is_blank_text(input) {
        assert(input.len() > 0);
        if errors.contains(e) && e.found is None && e.end + 1 >= input.len() {
            let i = choose|i: int| 0 <= i < errors.len() && errors[i] == e;
            assert(error_at_end(errors[i], input.len() as int));
        }
    }
}

/// Whether a top-level parse succeeded with at least one definition.
pub open spec fn has_definitions<D>(top_level: Result<Vec<D>, Vec<SyntaxError>>) -> bool {
    top_level matches Ok(defs) && defs@.len() > 0
}

/// Classifies the text read so far from the two ways of parsing it: as
/// top-level definitions (`top_level`) and as a single statement (`stmt`).
/// Definitions win when there is at least one; then a statement; then the
/// input is unfinished when either failure is at its end; otherwise it is
/// wrong, and the statement parser's errors are reported.
pub fn parse_input_for_repl<D, S>(
    input: &str,
    top_level: Result<Vec<D>, Vec<SyntaxError>>,
    stmt: Result<S, Vec<SyntaxError>>,
) -> (r: ParseState<D, S>)
    ensures
        top_level matches Ok(defs) ==> (defs@.len() > 0 ==> r == ParseState::<D, S>::Complete(
            ReplInput::TopLevels(defs),
        )),
        !has_definitions(top_level) ==> {
            &&& stmt matches Ok(s) ==> r == ParseState::<D, S>::Complete(ReplInput::Stmt(s))
            &&& stmt matches Err(stmt_errors) ==> {
                let unfinished = is_incomplete(input@, stmt_errors@) || (
                top_level matches Err(top_errors) && is_incomplete(input@, top_errors@));
                &&& unfinished ==> r == ParseState::<D, S>::Incomplete
                &&& !unfinished ==> r == ParseState::<D, S>::Error(stmt_errors)
            }
        },
{
    let top_errors = match top_level {
        Ok(defs) => {
            if defs.len() > 0 {
                return ParseState::Complete(ReplInput::TopLevels(defs));
            }
            None
        },
        Err(errors) => Some(errors),
    };
    match stmt {
        Ok(s) => ParseState::Complete(ReplInput::Stmt(s)),
        Err(stmt_errors) => {
            let mut unfinished = false;
            match &top_errors {
                Some(errors) => {
                    if is_incomplete_input(input, errors.as_slice()) {
                        unfinished = true;
                    }
                },
                None => {},
            }
            if is_incomplete_input(input, stmt_errors.as_slice()) {
                unfinished = true;
            }
            if unfinished {
                ParseState::Incomplete
            } else {
                ParseState::Error(stmt_errors)
            }
        },
    }
}

} // verus!
