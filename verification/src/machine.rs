//! The token state machine: one character in, one decision out.

use crate::token::{Op, Paren, TokenKind};
use vstd::prelude::*;

verus! {

/// Where the machine stands inside the token it is assembling.
#[derive(Clone, Copy, Debug, PartialEq, Eq, Structural)]
pub enum ParsingState {
    /// Nothing has been read for this token.
    Entry,
    /// Only blanks have been read.
    Whitespace,
    /// `<` has been read.
    Less,
    /// `>` has been read.
    Greater,
    /// `=` has been read.
    Equal,
    /// `!` has been read.
    Not,
    /// `&` has been read.
    Ampersand,
    /// `|` has been read.
    Bar,
    /// `:` has been read.
    Colon,
}

/// The machine's whole state: still assembling, or done with a token.
#[derive(Debug, PartialEq, Eq)]
pub enum TokenState {
    Building(ParsingState),
    Finished(TokenKind),
}

/// A blank separates tokens and belongs to none.
pub open spec fn is_blank(c: char) -> bool {
    c == ' ' || c == '\n'
}

/// The token that `c` is by itself, whatever follows it.
pub open spec fn single_symbol(c: char) -> Option<TokenKind> {
    if c == '(' {
        Some(TokenKind::Paren(Paren::Left))
    } else if c == ')' {
        Some(TokenKind::Paren(Paren::Right))
    } else if c == '+' {
        Some(TokenKind::Op(Op::Plus))
    } else if c == '-' {
        Some(TokenKind::Op(Op::Minus))
    } else if c == '*' {
        Some(TokenKind::Op(Op::Times))
    } else if c == '/' {
        Some(TokenKind::Op(Op::DivBy))
    } else {
        None
    }
}

/// The lookahead state that `c` opens, if the next character decides what
/// token `c` begins.
pub open spec fn prefix_state(c: char) -> Option<ParsingState> {
    if c == '<' {
        Some(ParsingState::Less)
    } else if c == '>' {
        Some(ParsingState::Greater)
    } else if c == '=' {
        Some(ParsingState::Equal)
    } else if c == '!' {
        Some(ParsingState::Not)
    } else if c == '&' {
        Some(ParsingState::Ampersand)
    } else if c == '|' {
        Some(ParsingState::Bar)
    } else if c == ':' {
        Some(ParsingState::Colon)
    } else {
        None
    }
}

/// Whether `state` waits for a second character.
pub open spec fn is_lookahead(state: ParsingState) -> bool {
    state != ParsingState::Entry && state != ParsingState::Whitespace
}

/// The one character that completes a two-character operator from `state`.
pub open spec fn completing_char(state: ParsingState) -> char
    recommends
        is_lookahead(state),
{
    match state {
        ParsingState::Ampersand => '&',
        ParsingState::Bar => '|',
        _ => '=',
    }
}

/// The two-character operator that `state` and its completing character make.
pub open spec fn completed_op(state: ParsingState) -> Op
    recommends
        is_lookahead(state),
{
    match state {
        ParsingState::Less => Op::LessEq,
        ParsingState::Greater => Op::GreaterEq,
        ParsingState::Equal => Op::Equals,
        ParsingState::Not => Op::NotEquals,
        ParsingState::Ampersand => Op::And,
        ParsingState::Bar => Op::Or,
        _ => Op::Assign,
    }
}

/// The operator that the prefix behind `state` is when anything but the
/// completing character follows; `None` where the prefix alone is no token.
pub open spec fn standalone_op(state: ParsingState) -> Option<Op> {
    match state {
        ParsingState::Less => Some(Op::Less),
        ParsingState::Greater => Some(Op::Greater),
        ParsingState::Not => Some(Op::Not),
        _ => None,
    }
}

/// The transition table: the state after `c` is offered in `token`, and
/// whether `c` is consumed.
pub open spec fn step(token: TokenState, c: char) -> (TokenState, bool) {
    match token {
        TokenState::Finished(_) => (token, false),
        TokenState::Building(state) => if !is_lookahead(state) {
            if is_blank(c) {
                (TokenState::Building(ParsingState::Whitespace), true)
            } else if single_symbol(c) is Some {
                (TokenState::Finished(single_symbol(c)->0), true)
            } else if prefix_state(c) is Some {
                (TokenState::Building(prefix_state(c)->0), true)
            } else {
                (TokenState::Building(ParsingState::Entry), false)
            }
        } else if c == completing_char(state) {
            (TokenState::Finished(TokenKind::Op(completed_op(state))), true)
        } else if standalone_op(state) is Some {
            (TokenState::Finished(TokenKind::Op(standalone_op(state)->0)), false)
        } else {
            (token, false)
        },
    }
}

/// Offers `c` to the machine. Returns whether the machine takes `c` into the
/// token it is assembling; the caller consumes `c` exactly then.
pub fn read_char(token: &mut TokenState, c: char) -> (consumed: bool)
    ensures
        *final(token) == step(*old(token), c).0,
        consumed == step(*old(token), c).1,
{
    let state = match token {
        TokenState::Finished(_) => return false,
        TokenState::Building(state) => *state,
    };
    match state {
        ParsingState::Entry | ParsingState::Whitespace => match c {
            ' ' | '\n' => {
                *token = TokenState::Building(ParsingState::Whitespace);
                true
            },
            '(' => {
                *token = TokenState::Finished(TokenKind::Paren(Paren::Left));
                true
            },
            ')' => {
                *token = TokenState::Finished(TokenKind::Paren(Paren::Right));
                true
            },
            '+' => {
                *token = TokenState::Finished(TokenKind::Op(Op::Plus));
                true
            },
            '-' => {
                *token = TokenState::Finished(TokenKind::Op(Op::Minus));
                true
            },
            '*' => {
                *token = TokenState::Finished(TokenKind::Op(Op::Times));
                true
            },
            '/' => {
                *token = TokenState::Finished(TokenKind::Op(Op::DivBy));
                true
            },
            '<' => {
                *token = TokenState::Building(ParsingState::Less);
                true
            },
            '>' => {
                *token = TokenState::Building(ParsingState::Greater);
                true
            },
            '=' => {
                *token = TokenState::Building(ParsingState::Equal);
                true
            },
            '!' => {
                *token = TokenState::Building(ParsingState::Not);
                true
            },
            '&' => {
                *token = TokenState::Building(ParsingState::Ampersand);
                true
            },
            '|' => {
                *token = TokenState::Building(ParsingState::Bar);
                true
            },
            ':' => {
                *token = TokenState::Building(ParsingState::Colon);
                true
            },
            _ => {
                *token = TokenState::Building(ParsingState::Entry);
                false
            },
        },
        ParsingState::Less => match c {
            '=' => {
                *token = TokenState::Finished(TokenKind::Op(Op::LessEq));
                true
            },
            _ => {
                *token = TokenState::Finished(TokenKind::Op(Op::Less));
                false
            },
        },
        ParsingState::Greater => match c {
            '=' => {
                *token = TokenState::Finished(TokenKind::Op(Op::GreaterEq));
                true
            },
            _ => {
                *token = TokenState::Finished(TokenKind::Op(Op::Greater));
                false
            },
        },
        ParsingState::Equal => match c {
            '=' => {
                *token = TokenState::Finished(TokenKind::Op(Op::Equals));
                true
            },
            _ => false,
        },
        ParsingState::Not => match c {
            '=' => {
                *token = TokenState::Finished(TokenKind::Op(Op::NotEquals));
                true
            },
            _ => {
                *token = TokenState::Finished(TokenKind::Op(Op::Not));
                false
            },
        },
        ParsingState::Ampersand => match c {
            '&' => {
                *token = TokenState::Finished(TokenKind::Op(Op::And));
                true
            },
            _ => false,
        },
        ParsingState::Bar => match c {
            '|' => {
                *token = TokenState::Finished(TokenKind::Op(Op::Or));
                true
            },
            _ => false,
        },
        ParsingState::Colon => match c {
            '=' => {
                *token = TokenState::Finished(TokenKind::Op(Op::Assign));
                true
            },
            _ => false,
        },
    }
}

} // verus!
