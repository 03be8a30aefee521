//! Diagnostic text for tokens, errors and whole token sequences.

use crate::grammar::{describes, end_of_text_message, unexpected_character_message, Scan};
use crate::text::{decimal, decimal_text, signed_decimal, signed_decimal_text};
use crate::token::{Keyword, LexError, Literal, Op, Paren, Token, TokenIter, TokenKind};
use vstd::prelude::*;

verus! {

impl Paren {
    /// The name of the parenthesis.
    pub open spec fn text(self) -> Seq<char> {
        match self {
            Paren::Left => "LeftParen"@,
            Paren::Right => "RightParen"@,
        }
    }

    /// Writes the name of the parenthesis.
    pub fn render(&self) -> (text: String)
        ensures
            text@ == self.text(),
    {
        match self {
            Paren::Left => "LeftParen".to_owned(),
            Paren::Right => "RightParen".to_owned(),
        }
    }
}

impl Op {
    /// The name of the operator.
    pub open spec fn text(self) -> Seq<char> {
        match self {
            Op::Plus => "Plus"@,
            Op::Minus => "Minus"@,
            Op::Times => "Times"@,
            Op::DivBy => "DivBy"@,
            Op::Less => "Less"@,
            Op::LessEq => "LessEq"@,
            Op::GreaterEq => "GreaterEq"@,
            Op::Greater => "Greater"@,
            Op::Equals => "Equals"@,
            Op::NotEquals => "NotEquals"@,
            Op::Not => "Not"@,
            Op::And => "And"@,
            Op::Or => "Or"@,
            Op::Assign => "Assign"@,
        }
    }

    /// Writes the name of the operator.
    pub fn render(&self) -> (text: String)
        ensures
            text@ == self.text(),
    {
        match self {
            Op::Plus => "Plus".to_owned(),
            Op::Minus => "Minus".to_owned(),
            Op::Times => "Times".to_owned(),
            Op::DivBy => "DivBy".to_owned(),
            Op::Less => "Less".to_owned(),
            Op::LessEq => "LessEq".to_owned(),
            Op::GreaterEq => "GreaterEq".to_owned(),
            Op::Greater => "Greater".to_owned(),
            Op::Equals => "Equals".to_owned(),
            Op::NotEquals => "NotEquals".to_owned(),
            Op::Not => "Not".to_owned(),
            Op::And => "And".to_owned(),
            Op::Or => "Or".to_owned(),
            Op::Assign => "Assign".to_owned(),
        }
    }
}

impl Keyword {
    /// The name of the reserved word.
    pub open spec fn text(self) -> Seq<char> {
        match self {
            Keyword::If => "If"@,
            Keyword::Then => "Then"@,
            Keyword::Else => "Else"@,
        }
    }

    /// Writes the name of the reserved word.
    pub fn render(&self) -> (text: String)
        ensures
            text@ == self.text(),
    {
        match self {
            Keyword::If => "If".to_owned(),
            Keyword::Then => "Then".to_owned(),
            Keyword::Else => "Else".to_owned(),
        }
    }
}

impl Literal {
    /// The kind of the literal with its value in brackets.
    pub open spec fn text(self) -> Seq<char> {
        match self {
            Literal::Int(x) => "Int("@ + signed_decimal(x as int) + ")"@,
            Literal::Float(x) => "Float("@ + x@ + ")"@,
            Literal::Bool(x) => if x {
                "Bool(true)"@
            } else {
                "Bool(false)"@
            },
        }
    }

    /// Writes the kind of the literal with its value in brackets.
    pub fn render(&self) -> (text: String)
        ensures
            text@ == self.text(),
    {
        match self {
            Literal::Int(x) => {
                let mut text = "Int(".to_owned();
                text.append(signed_decimal_text(*x).as_str());
                text.append(")");
                text
            },
            Literal::Float(x) => {
                let mut text = "Float(".to_owned();
                text.append(x.as_str());
                text.append(")");
                text
            },
            Literal::Bool(x) => if *x {
                "Bool(true)".to_owned()
            } else {
                "Bool(false)".to_owned()
            },
        }
    }
}

impl TokenKind {
    /// The text of what the kind holds; a name stands in brackets behind
    /// the word `Name`.
    pub open spec fn text(self) -> Seq<char> {
        match self {
            TokenKind::Paren(paren) => paren.text(),
            TokenKind::Op(op) => op.text(),
            TokenKind::Keyword(keyword) => keyword.text(),
            TokenKind::Name(name) => "Name("@ + name@ + ")"@,
            TokenKind::Literal(literal) => literal.text(),
        }
    }

    /// Writes the text of the kind.
    pub fn render(&self) -> (text: String)
        ensures
            text@ == self.text(),
    {
        match self {
            TokenKind::Paren(paren) => paren.render(),
            TokenKind::Op(op) => op.render(),
            TokenKind::Keyword(keyword) => keyword.render(),
            TokenKind::Name(name) => {
                let mut text = "Name(".to_owned();
                text.append(name.as_str());
                text.append(")");
                text
            },
            TokenKind::Literal(literal) => literal.render(),
        }
    }
}

/// The text of a token of kind `kind` at `position`: the position, a colon,
/// the kind.
pub open spec fn token_text(position: nat, kind: TokenKind) -> Seq<char> {
    decimal(position) + ":"@ + kind.text()
}

/// The text of an error: a line with the position, where there is one, then
/// the message; each behind the mark `/!\`.
pub open spec fn failure_text(position: Option<usize>, message: Seq<char>) -> Seq<char> {
    let place = match position {
        Some(at) => "/!\\ At position "@ + decimal(at as nat) + ":\n"@,
        None => Seq::empty(),
    };
    place + "/!\\ "@ + message
}

impl Token {
    /// The text of the token.
    pub open spec fn text(self) -> Seq<char> {
        token_text(self.position as nat, self.details)
    }

    /// Writes the text of the token.
    pub fn render(&self) -> (text: String)
        ensures
            text@ == self.text(),
    {
        let mut text = decimal_text(self.position as u64);
        text.append(":");
        text.append(self.details.render().as_str());
        text
    }
}

impl LexError {
    /// The text of the error.
    pub open spec fn text(self) -> Seq<char> {
        failure_text(self.position, self.message@)
    }

    /// Writes the text of the error.
    pub fn render(&self) -> (text: String)
        ensures
            text@ == self.text(),
    {
        let mut text = String::new();
        if let Some(at) = self.position {
            text.append("/!\\ At position ");
            text.append(decimal_text(at as u64).as_str());
            text.append(":\n");
        }
        text.append("/!\\ ");
        text.append(self.message.as_str());
        text
    }
}

/// The text of what one scan of `s` found.
pub open spec fn scan_text(found: Scan, s: Seq<char>) -> Seq<char> {
    match found {
        Scan::End => Seq::empty(),
        Scan::Token { position, kind, .. } => token_text(position as nat, kind),
        Scan::Unexpected { at } => failure_text(
            Some(at as usize),
            unexpected_character_message(s[at]),
        ),
        Scan::Truncated => failure_text(None, end_of_text_message()),
    }
}

/// What stands between an entry and the one before it: a blank in front of
/// a token, a line break in front of a failure.
pub open spec fn separator(found: Scan) -> Seq<char> {
    if found is Token {
        " "@
    } else {
        "\n"@
    }
}

/// The text of a whole sequence of scans of `s`: the entries in order, each
/// but the first behind its separator.
pub open spec fn dump(scans: Seq<Scan>, s: Seq<char>) -> Seq<char>
    decreases scans.len(),
{
    if scans.len() == 0 {
        Seq::empty()
    } else if scans.len() == 1 {
        scan_text(scans[0], s)
    } else {
        dump(scans.drop_last(), s) + separator(scans.last()) + scan_text(scans.last(), s)
    }
}

impl TokenIter {
    /// Writes every item that is left: the tokens on one line, the error
    /// that ends the sequence on lines of its own. The scan runs on a copy:
    /// the scanner itself stays where it is, and rendering it twice scans
    /// the input twice.
    pub fn render(&self) -> (text: String)
        ensures
            text@ == dump(self@.remaining(), self@.source),
    {
        let items = self.to_vec();
        let ghost scans = self@.remaining();
        let ghost s = self@.source;
        let mut text = String::new();
        let mut i: usize = 0;
        while i < items.len()
            invariant
                0 <= i <= items.len(),
                items@.len() == scans.len(),
                forall|k: int|
                    0 <= k < items@.len() ==> describes(scans[k], s, Some(#[trigger] items@[k])),
                text@ == dump(scans.take(i as int), s),
            decreases items.len() - i,
        {
            proof {
                assert(scans.take(i + 1).drop_last() =~= scans.take(i as int));
                assert(describes(scans[i as int], s, Some(items@[i as int])));
            }
            match &items[i] {
                Ok(token) => {
                    if i > 0 {
                        text.append(" ");
                    }
                    text.append(token.render().as_str());
                },
                Err(error) => {
                    if i > 0 {
                        text.append("\n");
                    }
                    text.append(error.render().as_str());
                },
            }
            i += 1;
        }
        proof {
            assert(scans.take(i as int) =~= scans);
        }
        text
    }
}

} // verus!
