//! The interactive session: what follows from each line that is read.
//!
//! The session holds the decisions of a read-eval-print loop and none of
//! its input or output. Its driver shows the prompt, reads a line, hands the
//! pending input to a parser and the parser's verdict back to the session,
//! and does what the session replies.

use crate::ast::AST;
use crate::interpreter::{evaluate, Env, Interpreter};
use crate::text::{signed_decimal, signed_decimal_text};
use lalrpop_util::ParseError;
use std::fmt::Display;
use vstd::prelude::*;

verus! {

/// The error type of parsers that `lalrpop` generates.
#[verifier::external_type_specification]
#[verifier::external_body]
#[verifier::reject_recursive_types(L)]
#[verifier::reject_recursive_types(T)]
#[verifier::reject_recursive_types(E)]
pub struct ExParseError<L, T, E>(lalrpop_util::ParseError<L, T, E>);

/// Tells whether `error` is the variant `UnrecognizedEof` of `ParseError`:
/// the parser met the end of the input where the grammar asks for more.
/// Nothing is claimed of the answer.
#[verifier::external_body]
fn is_unrecognized_eof<L, T, E>(error: &ParseError<L, T, E>) -> (at_end: bool) {
    matches!(error, ParseError::UnrecognizedEof { .. })
}

/// The text that the `Display` impl of `ParseError` writes for `error`.
/// Nothing is claimed of the text.
#[verifier::external_body]
fn error_message<L: Display, T: Display, E: Display>(
    error: &ParseError<L, T, E>,
) -> (text: String) {
    error.to_string()
}

/// What the parser made of the pending input.
#[derive(Debug, PartialEq, Eq)]
pub enum Parsed {
    /// A statement.
    Tree(AST),
    /// The input ends where a statement goes on.
    Incomplete,
    /// No statement; the text says why.
    Rejected(String),
}

/// What the driver is to do after a verdict.
#[derive(Debug, PartialEq, Eq)]
pub enum Reply {
    /// Print the line.
    Print(String),
    /// Read on: the statement is not complete.
    Continue,
    /// Give up: the evaluation broke off.
    Fault,
}

/// The line for the value `value`.
pub open spec fn value_line(value: i32) -> Seq<char> {
    signed_decimal(value as int)
}

/// The line for a statement that the parser rejected with `reason`.
pub open spec fn error_line(reason: Seq<char>) -> Seq<char> {
    "Error: "@ + reason
}

/// A session: an evaluator and the input that no verdict has settled yet.
pub struct Session {
    interpreter: Interpreter,
    pending: String,
}

/// Whether `verdict` takes a session from `before` to `after` with `reply`.
/// A statement is evaluated: its value is printed, or the evaluation breaks
/// off. A rejected statement has its reason printed. Either way the pending
/// input is dropped. Incomplete input changes nothing.
pub open spec fn settles(before: Session, verdict: Parsed, after: Session, reply: Reply) -> bool {
    match verdict {
        Parsed::Tree(ast) => {
            let outcome = evaluate(ast, before.env());
            &&& after.env() == outcome.env
            &&& after.pending().len() == 0
            &&& match outcome.value {
                Some(value) => reply matches Reply::Print(line) && line@ == value_line(value),
                None => reply is Fault,
            }
        },
        Parsed::Incomplete => {
            &&& after.env() == before.env()
            &&& after.pending() == before.pending()
            &&& reply is Continue
        },
        Parsed::Rejected(reason) => {
            &&& after.env() == before.env()
            &&& after.pending().len() == 0
            &&& reply matches Reply::Print(line) && line@ == error_line(reason@)
        },
    }
}

impl Session {
    /// The variables and their values.
    pub closed spec fn env(&self) -> Env {
        self.interpreter@
    }

    /// The input read since the last statement was settled.
    pub closed spec fn pending(&self) -> Seq<char> {
        self.pending@
    }

    /// A session with no variable and no input.
    pub fn new() -> (session: Session)
        ensures
            session.env() == Map::<Seq<char>, i32>::empty(),
            session.pending().len() == 0,
    {
        Session { interpreter: Interpreter::new(), pending: String::new() }
    }

    /// The prompt for the next line: `> ` where a statement begins, two
    /// blanks where one goes on.
    pub fn prompt(&self) -> (prompt: &'static str)
        ensures
            prompt@ == if self.pending().len() == 0 {
                "> "@
            } else {
                "  "@
            },
    {
        if self.pending.as_str().is_empty() {
            "> "
        } else {
            "  "
        }
    }

    /// Takes a line that was read: it goes behind the pending input.
    pub fn read_line(&mut self, line: &str)
        ensures
            final(self).pending() == old(self).pending() + line@,
            final(self).env() == old(self).env(),
    {
        self.pending.append(line);
    }

    /// The pending input: what the parser is to read.
    pub fn input(&self) -> (input: &str)
        ensures
            input@ == self.pending(),
    {
        self.pending.as_str()
    }

    /// Settles the pending input by what a generated parser returned for
    /// it: a tree is a statement; an error is incomplete input where the
    /// parser met the end of the input too early, and a rejection with the
    /// error's text as its reason otherwise. Which of the two an error is,
    /// and the text, are the parser library's to say.
    pub fn settle_parse<L: Display, T: Display, E: Display>(
        &mut self,
        parsed: Result<AST, ParseError<L, T, E>>,
    ) -> (reply: Reply)
        ensures
            match parsed {
                Ok(ast) => settles(*old(self), Parsed::Tree(ast), *final(self), reply),
                Err(_) => {
                    ||| settles(*old(self), Parsed::Incomplete, *final(self), reply)
                    ||| exists|reason: String| #[trigger]
                        settles(*old(self), Parsed::Rejected(reason), *final(self), reply)
                },
            },
    {
        let verdict = match parsed {
            Ok(ast) => Parsed::Tree(ast),
            Err(error) => if is_unrecognized_eof(&error) {
                Parsed::Incomplete
            } else {
                Parsed::Rejected(error_message(&error))
            },
        };
        self.settle(verdict)
    }

    /// Settles the pending input by the parser's verdict. A statement is
    /// evaluated and its value printed; a rejected one has its reason
    /// printed; either way the pending input is dropped. Incomplete input
    /// stays pending and nothing is printed.
    pub fn settle(&mut self, verdict: Parsed) -> (reply: Reply)
        ensures
            settles(*old(self), verdict, *final(self), reply),
    {
        match verdict {
            Parsed::Tree(ast) => {
                let value = self.interpreter.checked_eval(&ast);
                self.pending = String::new();
                match value {
                    Some(value) => Reply::Print(signed_decimal_text(value)),
                    None => Reply::Fault,
                }
            },
            Parsed::Incomplete => Reply::Continue,
            Parsed::Rejected(reason) => {
                self.pending = String::new();
                let mut line = "Error: ".to_owned();
                line.append(reason.as_str());
                Reply::Print(line)
            },
        }
    }
}

} // verus!
