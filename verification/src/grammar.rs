//! The lexical grammar, stated over the input text: what the scanner finds
//! at any offset, independent of how it looks for it.

use crate::machine::{
    completed_op, completing_char, is_blank, prefix_state, single_symbol, standalone_op,
};
use crate::token::{LexError, Token, TokenKind};
use vstd::prelude::*;

verus! {

/// What lies at the front of the input that is left.
pub enum Scan {
    /// Nothing but blanks is left.
    End,
    /// A token whose first character is at `position`; the first character
    /// behind the token is at `rest`.
    Token { position: int, kind: TokenKind, rest: int },
    /// The character at `at` neither begins a token nor completes the
    /// operator prefix in front of it.
    Unexpected { at: int },
    /// The input ended behind an operator prefix, before the character that
    /// decides what the prefix begins.
    Truncated,
}

/// The first offset from `from` on that holds no blank; the length of `s`
/// where only blanks are left.
pub open spec fn skip_blanks(s: Seq<char>, from: int) -> int
    decreases s.len() - from,
{
    if 0 <= from < s.len() && is_blank(s[from]) {
        skip_blanks(s, from + 1)
    } else {
        from
    }
}

/// What begins at `p`, the offset of a character that is no blank. Two
/// characters that make an operator are taken together (maximal munch); a
/// prefix that is no operator by itself needs its second character. A
/// prefix at the very end of the input is undecided and no token, `<`, `>`
/// and `!` included: they are operators only in front of another character.
pub open spec fn lexeme_at(s: Seq<char>, p: int) -> Scan
    recommends
        0 <= p < s.len(),
        !is_blank(s[p]),
{
    let c = s[p];
    if single_symbol(c) is Some {
        Scan::Token { position: p, kind: single_symbol(c)->0, rest: p + 1 }
    } else if prefix_state(c) is Some {
        let state = prefix_state(c)->0;
        if p + 1 >= s.len() {
            Scan::Truncated
        } else if s[p + 1] == completing_char(state) {
            Scan::Token { position: p, kind: TokenKind::Op(completed_op(state)), rest: p + 2 }
        } else if standalone_op(state) is Some {
            Scan::Token { position: p, kind: TokenKind::Op(standalone_op(state)->0), rest: p + 1 }
        } else {
            Scan::Unexpected { at: p + 1 }
        }
    } else {
        Scan::Unexpected { at: p }
    }
}

/// What a scan of `s` finds from offset `from` on: blanks are skipped, then
/// one lexeme is read.
pub open spec fn scan(s: Seq<char>, from: int) -> Scan {
    let p = skip_blanks(s, from);
    if p >= s.len() {
        Scan::End
    } else {
        lexeme_at(s, p)
    }
}

/// Where the cursor rests after a scan that found `found`: behind a token,
/// on an unexpected character, at the end of the input otherwise.
pub open spec fn resting_offset(s: Seq<char>, found: Scan) -> int {
    match found {
        Scan::Token { rest, .. } => rest,
        Scan::Unexpected { at } => at,
        Scan::End | Scan::Truncated => s.len() as int,
    }
}

/// Whether a scan that found `found` failed.
pub open spec fn is_failure(found: Scan) -> bool {
    found is Unexpected || found is Truncated
}

/// The message of the error for an unexpected character `c`.
pub open spec fn unexpected_character_message(c: char) -> Seq<char> {
    "Unexpected character '"@.push(c) + "'"@
}

/// The message of the error for input that ends inside a token.
pub open spec fn end_of_text_message() -> Seq<char> {
    "Unexpected end of text while tokenizing."@
}

/// Whether `item` is what the scanner hands out for `found` in `s`: nothing
/// at the end, the token, or the error with its position and message.
pub open spec fn describes(found: Scan, s: Seq<char>, item: Option<Result<Token, LexError>>) -> bool {
    match found {
        Scan::End => item is None,
        Scan::Token { position, kind, .. } => {
            &&& item matches Some(Ok(token))
            &&& token.position == position
            &&& token.details == kind
        },
        Scan::Unexpected { at } => {
            &&& item matches Some(Err(error))
            &&& error.position == Some(at as usize)
            &&& error.message@ == unexpected_character_message(s[at])
        },
        Scan::Truncated => {
            &&& item matches Some(Err(error))
            &&& error.position is None
            &&& error.message@ == end_of_text_message()
        },
    }
}

/// What successive scans find from `from` on: each token in turn, each scan
/// resuming behind the token before it, and last the failure, if the text
/// has one. The end of the input is not listed.
pub open spec fn scans_from(s: Seq<char>, from: int) -> Seq<Scan>
    decreases s.len() - from,
    when 0 <= from <= s.len()
{
    match scan(s, from) {
        Scan::End => Seq::empty(),
        Scan::Token { rest, .. } => {
            proof {
                lemma_scan_bounds(s, from);
            }
            seq![scan(s, from)] + scans_from(s, rest)
        },
        failure => seq![failure],
    }
}

/// `skip_blanks` stays inside the input, passes only blanks and stops on a
/// character that is none.
pub proof fn lemma_skip_blanks(s: Seq<char>, from: int)
    requires
        0 <= from <= s.len(),
    ensures
        from <= skip_blanks(s, from) <= s.len(),
        forall|i: int| from <= i < skip_blanks(s, from) ==> is_blank(#[trigger] s[i]),
        skip_blanks(s, from) < s.len() ==> !is_blank(s[skip_blanks(s, from)]),
    decreases s.len() - from,
{
    if from < s.len() && is_blank(s[from]) {
        lemma_skip_blanks(s, from + 1);
    }
}

/// What a scan finds lies inside the input: a token begins behind the
/// blanks that the scan skipped, holds one or two characters, none of them
/// a blank, and ends inside the input; an unexpected character is one of
/// the input, and the cursor rests on it.
pub proof fn lemma_scan_bounds(s: Seq<char>, from: int)
    requires
        0 <= from <= s.len(),
    ensures
        from <= resting_offset(s, scan(s, from)) <= s.len(),
        match scan(s, from) {
            Scan::Token { position, rest, .. } => {
                &&& from <= position < rest <= s.len()
                &&& position == skip_blanks(s, from)
                &&& rest <= position + 2
                &&& forall|i: int| position <= i < rest ==> !is_blank(#[trigger] s[i])
            },
            Scan::Unexpected { at } => {
                &&& skip_blanks(s, from) <= at < s.len()
                &&& resting_offset(s, scan(s, from)) == at
            },
            _ => true,
        },
{
    lemma_skip_blanks(s, from);
}

} // verus!
