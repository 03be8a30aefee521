//! The token vocabulary and the scanner that produces it.

use crate::cursor::ScanCursor;
use crate::grammar::{
    describes, end_of_text_message, is_failure, lemma_scan_bounds, lemma_skip_blanks,
    resting_offset, scan, scans_from, skip_blanks, unexpected_character_message, Scan,
};
use crate::laws::lemma_pull_takes_first;
use crate::machine::{is_blank, prefix_state, single_symbol, ParsingState, TokenState};
use vstd::prelude::*;

verus! {

/// A parenthesis.
#[derive(Clone, Copy, Debug, PartialEq, Eq, Structural)]
pub enum Paren {
    Left,
    Right,
}

/// An operator.
#[derive(Clone, Copy, Debug, PartialEq, Eq, Structural)]
pub enum Op {
    Plus,
    Minus,
    Times,
    DivBy,
    Less,
    LessEq,
    GreaterEq,
    Greater,
    Equals,
    NotEquals,
    Not,
    And,
    Or,
    Assign,
}

/// A reserved word.
#[derive(Clone, Copy, Debug, PartialEq, Eq, Structural)]
pub enum Keyword {
    If,
    Then,
    Else,
}

/// A literal value. A floating-point literal is held as its text: the
/// library does no floating-point arithmetic, and the text converts to a
/// number where the token is consumed.
#[derive(Debug, PartialEq, Eq)]
pub enum Literal {
    Int(i32),
    Float(String),
    Bool(bool),
}

/// What a token is.
#[derive(Debug, PartialEq, Eq)]
pub enum TokenKind {
    Paren(Paren),
    Op(Op),
    Keyword(Keyword),
    Name(String),
    Literal(Literal),
}

/// A classified piece of the input. `position` is the offset, counted in
/// characters from zero, of the token's first character.
#[derive(Debug, PartialEq, Eq)]
pub struct Token {
    pub position: usize,
    pub details: TokenKind,
}

/// Why scanning stopped. `position` is the offset of the offending
/// character, or `None` when the input ended inside a token.
#[derive(Debug, PartialEq, Eq)]
pub struct LexError {
    pub position: Option<usize>,
    pub message: String,
}

/// A scanner over a buffer of characters. Each pull assembles one token;
/// nothing is scanned ahead of demand. After the first error the scanner
/// yields nothing more.
pub struct TokenIter {
    input: ScanCursor,
    halted: bool,
}

/// What holds between two characters of one pull that began at `from`:
/// how the machine's state, the token's recorded start and the cursor's
/// offset fit the text read so far.
spec fn assembling(s: Seq<char>, from: int, state: TokenState, position: int, offset: int) -> bool {
    match state {
        TokenState::Building(ParsingState::Entry) => {
            &&& offset == from
            &&& position == from
            &&& from < s.len()
        },
        TokenState::Building(ParsingState::Whitespace) => {
            &&& position == offset
            &&& skip_blanks(s, from) == skip_blanks(s, offset)
        },
        TokenState::Building(state) => {
            &&& position == skip_blanks(s, from)
            &&& position + 1 == offset
            &&& single_symbol(s[position]) is None
            &&& prefix_state(s[position]) == Some(state)
        },
        TokenState::Finished(kind) => scan(s, from) == (Scan::Token { position, kind, rest: offset }),
    }
}

/// What holds once the machine has refused a character or the input has run
/// out: the state tells what the scan found.
spec fn settled(s: Seq<char>, from: int, state: TokenState, position: int, offset: int) -> bool {
    match state {
        TokenState::Building(ParsingState::Whitespace) => {
            &&& scan(s, from) is End
            &&& offset == s.len()
        },
        TokenState::Building(_) => if offset < s.len() {
            scan(s, from) == (Scan::Unexpected { at: offset })
        } else {
            scan(s, from) is Truncated
        },
        TokenState::Finished(kind) => scan(s, from) == (Scan::Token { position, kind, rest: offset }),
    }
}

/// The state of a scanner as the contracts see it.
pub struct ScannerView {
    /// The whole input, scanned part included.
    pub source: Seq<char>,
    /// The offset of the first character not yet consumed.
    pub offset: int,
    /// Whether an error has ended the sequence.
    pub halted: bool,
}

impl ScannerView {
    /// The state of a scanner that has not been pulled from.
    pub open spec fn fresh(source: Seq<char>) -> ScannerView {
        ScannerView { source, offset: 0, halted: false }
    }

    /// The offset lies inside the input or at its end.
    pub open spec fn wf(self) -> bool {
        0 <= self.offset <= self.source.len()
    }

    /// What the next pull finds.
    pub open spec fn upcoming(self) -> Scan {
        if self.halted {
            Scan::End
        } else {
            scan(self.source, self.offset)
        }
    }

    /// The state after the next pull: the cursor rests where the scan left
    /// it, and a failure halts the scanner.
    pub open spec fn after_pull(self) -> ScannerView {
        if self.halted {
            self
        } else {
            ScannerView {
                source: self.source,
                offset: resting_offset(self.source, self.upcoming()),
                halted: is_failure(self.upcoming()),
            }
        }
    }

    /// What all further pulls find, in order, up to the end of the sequence.
    pub open spec fn remaining(self) -> Seq<Scan> {
        if self.halted {
            Seq::empty()
        } else {
            scans_from(self.source, self.offset)
        }
    }
}

impl View for TokenIter {
    type V = ScannerView;

    closed spec fn view(&self) -> ScannerView {
        ScannerView {
            source: self.input.source(),
            offset: self.input.offset(),
            halted: self.halted,
        }
    }
}

impl TokenIter {
    /// The offset of every scanner lies inside its input or at its end.
    pub proof fn lemma_view_wf(&self)
        ensures
            self@.wf(),
    {
        self.input.lemma_offset_within_source();
    }

    /// A scanner at the start of `chars`.
    pub fn new(chars: Vec<char>) -> (tokens: TokenIter)
        ensures
            tokens@ == ScannerView::fresh(chars@),
    {
        TokenIter { input: ScanCursor::new(chars), halted: false }
    }

    /// Pulls the next item: the next token, the error that ends the
    /// sequence, or `None` when only blanks are left or an error has been
    /// handed out before. A token's characters and the blanks in front of it
    /// are consumed; an unexpected character is not. A token begins at or
    /// behind the offset where the pull began, on a character that is no
    /// blank, and the cursor comes to rest behind it.
    pub fn next(&mut self) -> (item: Option<Result<Token, LexError>>)
        ensures
            describes(old(self)@.upcoming(), old(self)@.source, item),
            final(self)@ == old(self)@.after_pull(),
            item matches Some(Ok(token)) ==> {
                &&& old(self)@.offset <= token.position < final(self)@.offset
                &&& !is_blank(old(self)@.source[token.position as int])
            },
    {
        let ghost s = self.input.source();
        let ghost from = self.input.offset();
        proof {
            self.input.lemma_offset_within_source();
            lemma_scan_bounds(s, from);
        }
        if self.halted {
            return None;
        }
        let mut position: usize = match self.input.peek() {
            None => {
                return None;
            },
            Some((at, _)) => at,
        };
        let mut state = TokenState::Building(ParsingState::Entry);
        loop
            invariant_except_break
                assembling(s, from, state, position as int, self.input.offset()),
            invariant
                self.input.source() == s,
                !self.halted,
                0 <= from <= self.input.offset(),
            ensures
                settled(s, from, state, position as int, self.input.offset()),
            decreases s.len() - self.input.offset(),
        {
            proof {
                self.input.lemma_offset_within_source();
                lemma_skip_blanks(s, from);
                lemma_skip_blanks(s, self.input.offset());
            }
            match self.input.advance_if(&mut state) {
                None => {
                    break ;
                },
                Some((at, _)) => {
                    if let TokenState::Building(ParsingState::Whitespace) = state {
                        position = at + 1;
                    }
                },
            }
        }
        match state {
            TokenState::Building(ParsingState::Whitespace) => None,
            TokenState::Building(_) => {
                self.halted = true;
                let error = match self.input.peek() {
                    None => LexError { position: None, message: end_of_text() },
                    Some((at, c)) => LexError {
                        position: Some(at),
                        message: unexpected_character(c),
                    },
                };
                Some(Err(error))
            },
            TokenState::Finished(details) => Some(Ok(Token { position, details })),
        }
    }

    /// Every item that is left, in order, up to the end of the sequence. The
    /// scan runs on a copy: the scanner itself stays where it is.
    pub fn to_vec(&self) -> (items: Vec<Result<Token, LexError>>)
        ensures
            items@.len() == self@.remaining().len(),
            forall|i: int|
                0 <= i < items@.len() ==> describes(
                    self@.remaining()[i],
                    self@.source,
                    Some(#[trigger] items@[i]),
                ),
    {
        let mut copy = self.clone();
        let mut items: Vec<Result<Token, LexError>> = Vec::new();
        let ghost mut seen: Seq<Scan> = Seq::empty();
        loop
            invariant
                copy@.source == self@.source,
                seen + copy@.remaining() == self@.remaining(),
                items@.len() == seen.len(),
                forall|i: int|
                    0 <= i < items@.len() ==> describes(
                        seen[i],
                        self@.source,
                        Some(#[trigger] items@[i]),
                    ),
            ensures
                seen == self@.remaining(),
                items@.len() == seen.len(),
                forall|i: int|
                    0 <= i < items@.len() ==> describes(
                        seen[i],
                        self@.source,
                        Some(#[trigger] items@[i]),
                    ),
            decreases
                    2 * (copy@.source.len() - copy@.offset) + (if copy@.halted {
                        0int
                    } else {
                        1int
                    }),
        {
            let ghost before = copy@;
            proof {
                copy.lemma_view_wf();
                lemma_pull_takes_first(before);
                lemma_scan_bounds(before.source, before.offset);
            }
            match copy.next() {
                None => {
                    proof {
                        assert(seen + copy@.remaining() =~= seen);
                    }
                    break ;
                },
                Some(item) => {
                    proof {
                        assert(seen.push(before.upcoming()) + copy@.remaining() =~= seen + (
                        seq![before.upcoming()] + copy@.remaining()));
                        seen = seen.push(before.upcoming());
                    }
                    items.push(item);
                },
            }
        }
        items
    }
}

impl Clone for TokenIter {
    /// An independent scanner over the same input in the same state. Pulling
    /// from the copy leaves this scanner where it is.
    fn clone(&self) -> (copy: TokenIter)
        ensures
            copy@ == self@,
    {
        TokenIter { input: self.input.clone(), halted: self.halted }
    }
}

/// The message for input that ends inside a token.
fn end_of_text() -> (message: String)
    ensures
        message@ == end_of_text_message(),
{
    "Unexpected end of text while tokenizing.".to_owned()
}

/// The message for the unexpected character `c`.
fn unexpected_character(c: char) -> (message: String)
    ensures
        message@ == unexpected_character_message(c),
{
    let mut message = "Unexpected character '".to_owned();
    message.push(c);
    message.append("'");
    message
}

} // verus!
