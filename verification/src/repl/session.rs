//! The shell's pending input: lines are collected until they parse as a
//! whole, and a line typed with nothing pending may be a `:` command.

use crate::repl::input::{ParseState, ReplInput, SyntaxError};
use crate::text::{lemma_trim_end_takes_off_trailing_whitespace, is_white_space, is_blank, is_blank_text, push_char, starts_with, same_text, trim_end, trim_end_of};
use vstd::prelude::*;

verus! {

/// A shell command, typed as a line starting with `:` while nothing is pending.
#[derive(Debug, Clone, PartialEq)]
pub enum ReplCommand {
    /// `:exit` or `:quit`
    Quit,
    /// `:help`
    Help,
    /// `:vars`
    Vars,
    /// Any other line starting with `:`; holds the line without trailing whitespace.
    Unknown(String),
}

/// The mathematical value of a [`ReplCommand`].
pub enum CommandModel {
    Quit,
    Help,
    Vars,
    Unknown(Seq<char>),
}

impl ReplCommand {
    pub open spec fn model(&self) -> CommandModel {
        match self {
            ReplCommand::Quit => CommandModel::Quit,
            ReplCommand::Help => CommandModel::Help,
            ReplCommand::Vars => CommandModel::Vars,
            ReplCommand::Unknown(t) => CommandModel::Unknown(t@),
        }
    }
}

/// The command that the line `text` (without trailing whitespace) names.
pub open spec fn command_of(text: Seq<char>) -> CommandModel {
    if text == ":exit"@ || text == ":quit"@ {
        CommandModel::Quit
    } else if text == ":help"@ {
        CommandModel::Help
    } else if text == ":vars"@ {
        CommandModel::Vars
    } else {
        CommandModel::Unknown(text)
    }
}

/// What to do with a line just read.
#[derive(Debug, Clone, PartialEq)]
pub enum LineOutcome {
    /// Run this command; the pending input is unchanged.
    Command(ReplCommand),
    /// A blank line with nothing pending: read the next line.
    Skip,
    /// The line was added to the pending input: parse the pending input.
    Parse,
}

/// The mathematical value of a [`LineOutcome`].
pub enum LineModel {
    Command(CommandModel),
    Skip,
    Parse,
}

impl LineOutcome {
    pub open spec fn model(&self) -> LineModel {
        match self {
            LineOutcome::Command(c) => LineModel::Command(c.model()),
            LineOutcome::Skip => LineModel::Skip,
            LineOutcome::Parse => LineModel::Parse,
        }
    }
}

/// Reading `line` with `pending` input collected so far: what to do, and the
/// pending input afterwards.
pub open spec fn line_step(pending: Seq<char>, line: Seq<char>) -> (LineModel, Seq<char>) {
    let text = trim_end_of(line);
    if pending.len() == 0 && text.len() > 0 && text[0] == ':' {
        (LineModel::Command(command_of(text)), pending)
    } else if pending.len() == 0 && is_blank_text(text) {
        (LineModel::Skip, pending)
    } else {
        (LineModel::Parse, pending + line + seq!['\n'])
    }
}

/// Pending input is made of whole lines: it is empty or ends with a line feed.
pub open spec fn whole_lines(pending: Seq<char>) -> bool {
    pending.len() == 0 || pending.last() == '\n'
}

/// What to do once the pending input has been parsed.
#[derive(Debug)]
pub enum ParseAction<D, S> {
    /// The input is complete: keep `entry` in the history and run `input`.
    Run { entry: String, input: ReplInput<D, S> },
    /// The input is unfinished: read another line.
    Wait,
    /// The input has these syntax errors: report them.
    Report(Vec<SyntaxError>),
}

/// The shell's pending input.
pub struct ReplSession {
    pending: String,
}

impl View for ReplSession {
    type V = Seq<char>;

    closed spec fn view(&self) -> Seq<char> {
        self.pending@
    }
}

impl ReplSession {
    #[verifier::type_invariant]
    spec fn pending_is_whole_lines(self) -> bool {
        whole_lines(self.pending@)
    }

    /// A session with nothing pending.
    pub fn new() -> (s: Self)
        ensures
            s@.len() == 0,
    {
        ReplSession { pending: String::new() }
    }

    /// The input collected so far.
    pub fn pending_input(&self) -> (p: &str)
        ensures
            p@ == self@,
    {
        self.pending.as_str()
    }

    /// The prompt to show: `>> ` when nothing is pending, `.. ` otherwise.
    pub fn prompt(&self) -> (p: &'static str)
        ensures
            p@ == (if self@.len() == 0 {
                ">> "@
            } else {
                ".. "@
            }),
    {
        if self.pending.as_str().is_empty() {
            ">> "
        } else {
            ".. "
        }
    }

    /// Takes in a line just read (without its line ending).
    pub fn accept_line(&mut self, line: &str) -> (o: LineOutcome)
        ensures
            (o.model(), final(self)@) == line_step(old(self)@, line@),
            whole_lines(final(self)@),
    {
        proof {
            use_type_invariant(&*self);
        }
        let text = trim_end(line);
        let nothing_pending = self.pending.as_str().is_empty();
        if nothing_pending && starts_with(text.as_str(), ":") {
            proof {
                reveal_strlit(":");
                assert(":"@.len() == 1);
                assert(":"@[0] == ':');
                assert(text@[0] == ":"@[0]);
            }
            let command = if same_text(text.as_str(), ":exit") || same_text(text.as_str(), ":quit") {
                ReplCommand::Quit
            } else if same_text(text.as_str(), ":help") {
                ReplCommand::Help
            } else if same_text(text.as_str(), ":vars") {
                ReplCommand::Vars
            } else {
                ReplCommand::Unknown(text)
            };
            return LineOutcome::Command(command);
        }
        proof {
            reveal_strlit(":");
            assert(":"@.len() == 1);
            if nothing_pending && text@.len() > 0 && text@[0] == ':' {
                assert(":"@.is_prefix_of(text@));
            }
        }
        if nothing_pending && is_blank(text.as_str()) {
            return LineOutcome::Skip;
        }
        let mut p = String::new();
        std::mem::swap(&mut p, &mut self.pending);
        p.append(line);
        push_char(&mut p, '\n');
        self.pending = p;
        LineOutcome::Parse
    }

    /// The pending input parsed completely: forgets it, and returns the
    /// entry to keep in the history (the input without trailing whitespace).
    pub fn complete(&mut self) -> (entry: String)
        ensures
            entry@ == trim_end_of(old(self)@),
            final(self)@.len() == 0,
    {
        let entry = trim_end(self.pending.as_str());
        self.pending = String::new();
        entry
    }

    /// Acts on the parse of the pending input: complete input is forgotten
    /// and handed back to run, with its history entry (the input without
    /// trailing whitespace); unfinished input is kept for the next line;
    /// input with syntax errors is forgotten and its errors handed back.
    pub fn after_parse<D, S>(&mut self, state: ParseState<D, S>) -> (action: ParseAction<D, S>)
        ensures
            match state {
                ParseState::Complete(input) => {
                    &&& action matches ParseAction::Run { entry, input: run }
                    &&& entry@ == trim_end_of(old(self)@)
                    &&& run == input
                    &&& final(self)@.len() == 0
                },
                ParseState::Incomplete => {
                    &&& action is Wait
                    &&& final(self)@ == old(self)@
                },
                ParseState::Error(errors) => {
                    &&& action == ParseAction::<D, S>::Report(errors)
                    &&& final(self)@.len() == 0
                },
            },
    {
        match state {
            ParseState::Complete(input) => {
                let entry = self.complete();
                ParseAction::Run { entry, input }
            },
            ParseState::Incomplete => ParseAction::Wait,
            ParseState::Error(errors) => {
                self.discard();
                ParseAction::Report(errors)
            },
        }
    }

    /// The pending input has a syntax error: forgets it.
    pub fn discard(&mut self)
        ensures
            final(self)@.len() == 0,
    {
        self.pending = String::new();
    }

    /// An interrupt (Ctrl-C): quits when nothing is pending (returns `true`),
    /// otherwise cancels the pending input.
    pub fn interrupt(&mut self) -> (quit: bool)
        ensures
            quit == (old(self)@.len() == 0),
            final(self)@.len() == 0,
    {
        let quit = self.pending.as_str().is_empty();
        self.pending = String::new();
        quit
    }
}

/// Reading a line keeps the pending input made of whole lines.
pub proof fn lemma_line_step_keeps_whole_lines(pending: Seq<char>, line: Seq<char>)
    requires
        whole_lines(pending),
    ensures
        whole_lines(line_step(pending, line).1),
{
}

/// An unfinished entry keeps its lines: once a line has been taken for
/// parsing, the next line, whatever it holds (even a blank line or one
/// starting with `:`), is added after all the lines pending before.
pub proof fn lemma_unfinished_entry_keeps_lines(
    pending: Seq<char>,
    line: Seq<char>,
    next: Seq<char>,
)
    requires
        line_step(pending, line).0 is Parse,
    ensures
        line_step(line_step(pending, line).1, next) == (
        LineModel::Parse,
        pending + line + seq!['\n'] + next + seq!['\n'],
        ),
{
    let p = line_step(pending, line).1;
    assert(p.len() > 0);
}

/// A line is a command only when nothing is pending and the line, without
/// trailing whitespace, starts with `:`; then nothing is added to the
/// pending input. `:exit` and `:quit` quit, `:help` shows help, `:vars`
/// lists the names, and any other such line is an unknown command that
/// carries that text. A blank line with nothing pending is skipped; every
/// other line is added, with a line feed, to the pending input.
pub proof fn lemma_line_kinds(pending: Seq<char>, line: Seq<char>)
    ensures
        ({
            let (o, p) = line_step(pending, line);
            let text = trim_end_of(line);
            &&& o is Command ==> pending.len() == 0 && text.len() > 0 && text[0] == ':' && p == pending
            &&& pending.len() == 0 && text.len() > 0 && text[0] == ':' ==> o is Command
            &&& pending.len() == 0 && (text == ":exit"@ || text == ":quit"@) ==> o == LineModel::Command(
                CommandModel::Quit,
            )
            &&& pending.len() == 0 && text == ":help"@ ==> o == LineModel::Command(CommandModel::Help)
            &&& pending.len() == 0 && text == ":vars"@ ==> o == LineModel::Command(CommandModel::Vars)
            &&& o matches LineModel::Command(CommandModel::Unknown(t)) ==> t == text && t != ":exit"@
                && t != ":quit"@ && t != ":help"@ && t != ":vars"@
            &&& o is Skip <==> pending.len() == 0 && is_blank_text(line)
            &&& o is Skip ==> p == pending
            &&& o is Parse ==> p == pending + line + seq!['\n']
        }),
{
    reveal_strlit(":exit");
    reveal_strlit(":quit");
    reveal_strlit(":help");
    reveal_strlit(":vars");
    lemma_trim_end_takes_off_trailing_whitespace(line);
    let text = trim_end_of(line);
    if is_blank_text(text) && text.len() > 0 {
        assert(is_white_space(text[0]));
    }
    if is_blank_text(line) {
        assert(text.len() == 0);
    }
    if text.len() == 0 {
        assert forall|i: int| 0 <= i < text.len() implies is_white_space(#[trigger] text[i]) by {}
    }
}

} // verus!
