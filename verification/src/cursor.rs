//! The scan cursor: a buffer of characters and the offset of the next one.

use crate::machine::{read_char, step, TokenState};
use vstd::prelude::*;

verus! {

/// A forward-only cursor over a buffer of characters, with one character of
/// lookahead. Offsets count characters from zero.
pub struct ScanCursor {
    chars: Vec<char>,
    offset: usize,
}

impl ScanCursor {
    #[verifier::type_invariant]
    spec fn within_source(self) -> bool {
        self.offset <= self.chars.len()
    }

    /// The whole input, consumed part included.
    pub closed spec fn source(&self) -> Seq<char> {
        self.chars@
    }

    /// The offset of the next character; the length of the input once it is
    /// exhausted. It never passes the end of the input, for a cursor that
    /// exists only in a proof either.
    pub closed spec fn offset(&self) -> int {
        if self.offset <= self.chars.len() {
            self.offset as int
        } else {
            self.chars.len() as int
        }
    }

    /// The offset lies inside the input or at its end, and the input is no
    /// longer than memory allows.
    pub proof fn lemma_offset_within_source(&self)
        ensures
            0 <= self.offset() <= self.source().len() <= usize::MAX,
    {
    }

    /// A cursor at the start of `chars`.
    pub fn new(chars: Vec<char>) -> (cursor: ScanCursor)
        ensures
            cursor.source() == chars@,
            cursor.offset() == 0,
    {
        ScanCursor { chars, offset: 0 }
    }

    /// The next character and its offset, or `None` once the input is
    /// exhausted. Consumes nothing.
    pub fn peek(&self) -> (next: Option<(usize, char)>)
        ensures
            match next {
                Some((at, c)) => {
                    &&& at == self.offset()
                    &&& at < self.source().len()
                    &&& c == self.source()[at as int]
                },
                None => self.offset() == self.source().len(),
            },
    {
        proof {
            use_type_invariant(self);
        }
        if self.offset < self.chars.len() {
            Some((self.offset, self.chars[self.offset]))
        } else {
            None
        }
    }

    /// Offers the next character to the token state machine and consumes it
    /// if, and only if, the machine takes it. Returns the character consumed
    /// with its offset. With the input exhausted, the machine is not asked
    /// and nothing changes.
    pub fn advance_if(&mut self, token: &mut TokenState) -> (taken: Option<(usize, char)>)
        ensures
            final(self).source() == old(self).source(),
            old(self).offset() == old(self).source().len() ==> {
                &&& taken is None
                &&& *final(token) == *old(token)
                &&& final(self).offset() == old(self).offset()
            },
            old(self).offset() < old(self).source().len() ==> {
                let c = old(self).source()[old(self).offset()];
                &&& *final(token) == step(*old(token), c).0
                &&& step(*old(token), c).1 ==> {
                    &&& taken matches Some((at, taken_char))
                    &&& at == old(self).offset()
                    &&& taken_char == c
                    &&& final(self).offset() == old(self).offset() + 1
                }
                &&& !step(*old(token), c).1 ==> {
                    &&& taken is None
                    &&& final(self).offset() == old(self).offset()
                }
            },
    {
        proof {
            use_type_invariant(&*self);
        }
        if self.offset < self.chars.len() {
            let at: usize = self.offset;
            let c: char = self.chars[at];
            if read_char(token, c) {
                self.offset = at + 1;
                Some((at, c))
            } else {
                None
            }
        } else {
            None
        }
    }
}

impl Clone for ScanCursor {
    /// An independent cursor over the same input at the same offset.
    fn clone(&self) -> (copy: ScanCursor)
        ensures
            copy.source() == self.source(),
            copy.offset() == self.offset(),
    {
        proof {
            use_type_invariant(self);
        }
        ScanCursor { chars: self.chars.clone(), offset: self.offset }
    }
}

} // verus!
