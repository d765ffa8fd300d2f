//! The decisions of the `stdio` host library.

use crate::text::{chars_of, string_from_chars};
use vstd::prelude::*;

verus! {

/// `line` without one trailing line feed, and without the carriage return
/// just before it, if there is one.
pub open spec fn without_line_ending(line: Seq<char>) -> Seq<char> {
    if line.len() > 0 && line.last() == '\n' {
        let rest = line.drop_last();
        if rest.len() > 0 && rest.last() == '\r' {
            rest.drop_last()
        } else {
            rest
        }
    } else {
        line
    }
}

/// Stripping takes off nothing but a line ending: the stripped line followed
/// by nothing, `\n` or `\r\n` gives back the line.
pub proof fn lemma_stripped_line_restores(line: Seq<char>)
    ensures
        without_line_ending(line) == line
            || without_line_ending(line) + seq!['\n'] == line
            || without_line_ending(line) + seq!['\r', '\n'] == line,
{
    if line.len() > 0 && line.last() == '\n' {
        let rest = line.drop_last();
        if rest.len() > 0 && rest.last() == '\r' {
            assert(rest.drop_last() + seq!['\r', '\n'] =~= line);
        } else {
            assert(rest + seq!['\n'] =~= line);
        }
    }
}

/// The line feed that ends a line is never kept: when the line ends with
/// `\n`, it is the stripped line followed by `\n` or by `\r\n`; a line
/// that does not end with `\n` is kept whole; and a line ending with
/// `\r\n` loses exactly those two characters.
pub proof fn lemma_line_feed_never_kept(line: Seq<char>, body: Seq<char>)
    ensures
        line.len() > 0 && line.last() == '\n' ==> without_line_ending(line) + seq!['\n'] == line
            || without_line_ending(line) + seq!['\r', '\n'] == line,
        !(line.len() > 0 && line.last() == '\n') ==> without_line_ending(line) == line,
        without_line_ending(body + seq!['\r', '\n']) == body,
        !(body.len() > 0 && body.last() == '\r') ==> without_line_ending(body + seq!['\n'])
            == body,
{
    lemma_stripped_line_restores(line);
    if line.len() > 0 && line.last() == '\n' {
        let r = without_line_ending(line);
        assert(r.len() < line.len());
        if r == line {
            assert(false);
        }
    }
    let a = body + seq!['\r', '\n'];
    assert(a.drop_last() =~= body + seq!['\r']);
    assert((body + seq!['\r']).drop_last() =~= body);
    let b = body + seq!['\n'];
    assert(b.drop_last() =~= body);
}

/// The line that `__nx_read_line` hands over for a line read from standard
/// input: its `\n` or `\r\n` ending taken off.
pub fn strip_line_ending(line: &str) -> (r: String)
    ensures
        r@ == without_line_ending(line@),
{
    let v = chars_of(line);
    let mut end = v.len();
    if end > 0 && v[end - 1] == '\n' {
        end = end - 1;
        if end > 0 && v[end - 1] == '\r' {
            end = end - 1;
        }
    }
    let r = string_from_chars(&v, 0, end);
    assert(r@ =~= without_line_ending(line@));
    r
}

} // verus!
