//! What holds of every scan, whatever the input.

use crate::grammar::{describes, lemma_scan_bounds, scan, scans_from, Scan};
use crate::machine::{is_blank, step, TokenState};
use crate::token::{LexError, ScannerView, Token, TokenKind};
use vstd::prelude::*;

verus! {

/// A finished token is final: the machine takes no further character and
/// keeps the kind it has settled on.
pub proof fn lemma_finished_is_final(kind: TokenKind, c: char)
    ensures
        step(TokenState::Finished(kind), c) == (TokenState::Finished(kind), false),
{
}

/// Whether `scans[i]` is a token.
pub open spec fn token_at(scans: Seq<Scan>, i: int) -> bool {
    0 <= i < scans.len() && scans[i] is Token
}

/// Token positions are monotonic: in what is scanned from `from` on, every
/// token begins at or behind `from`, on a character of the input that is no
/// blank, and every token begins behind the one before it.
pub proof fn lemma_positions_increase(s: Seq<char>, from: int)
    requires
        0 <= from <= s.len(),
    ensures
        forall|i: int| #[trigger]
            token_at(scans_from(s, from), i) ==> {
                let position = scans_from(s, from)[i]->position;
                from <= position < s.len() && !is_blank(s[position])
            },
        forall|i: int, j: int|
            #![trigger token_at(scans_from(s, from), i), token_at(scans_from(s, from), j)]
            token_at(scans_from(s, from), i) && token_at(scans_from(s, from), j) && i < j
                ==> scans_from(s, from)[i]->position < scans_from(s, from)[j]->position,
    decreases s.len() - from,
{
    lemma_scan_bounds(s, from);
    let all = scans_from(s, from);
    match scan(s, from) {
        Scan::Token { position, rest, .. } => {
            let tail = scans_from(s, rest);
            lemma_positions_increase(s, rest);
            assert(all == seq![scan(s, from)] + tail);
            assert forall|i: int| #[trigger] token_at(all, i) implies {
                let position = all[i]->position;
                from <= position < s.len() && !is_blank(s[position])
            } by {
                if i > 0 {
                    assert(all[i] == tail[i - 1]);
                    assert(token_at(tail, i - 1));
                }
            }
            assert forall|i: int, j: int|
                #![trigger token_at(all, i), token_at(all, j)]
                token_at(all, i) && token_at(all, j) && i < j implies all[i]->position
                < all[j]->position by {
                assert(all[j] == tail[j - 1]);
                assert(token_at(tail, j - 1));
                if i > 0 {
                    assert(all[i] == tail[i - 1]);
                    assert(token_at(tail, i - 1));
                }
            }
        },
        _ => {},
    }
}

/// A failure ends the sequence: whatever is scanned before the last entry is
/// a token.
pub proof fn lemma_failure_is_last(s: Seq<char>, from: int)
    requires
        0 <= from <= s.len(),
    ensures
        forall|i: int| 0 <= i < scans_from(s, from).len() ==> !(#[trigger] scans_from(s, from)[i] is End),
        forall|i: int|
            0 <= i < scans_from(s, from).len() - 1 ==> #[trigger] scans_from(s, from)[i] is Token,
    decreases s.len() - from,
{
    lemma_scan_bounds(s, from);
    let all = scans_from(s, from);
    match scan(s, from) {
        Scan::Token { rest, .. } => {
            let tail = scans_from(s, rest);
            lemma_failure_is_last(s, rest);
            assert(all == seq![scan(s, from)] + tail);
            assert forall|i: int| 0 <= i < all.len() implies !(#[trigger] all[i] is End) by {
                if i > 0 {
                    assert(all[i] == tail[i - 1]);
                }
            }
            assert forall|i: int| 0 <= i < all.len() - 1 implies #[trigger] all[i] is Token by {
                if i > 0 {
                    assert(all[i] == tail[i - 1]);
                }
            }
        },
        _ => {},
    }
}

/// One pull takes the first entry off what remains: with nothing upcoming
/// nothing remains, before the pull or after it; otherwise what remains is
/// what the pull finds, followed by what remains after it.
pub proof fn lemma_pull_takes_first(view: ScannerView)
    requires
        view.wf(),
    ensures
        view.after_pull().wf(),
        view.after_pull().source == view.source,
        view.upcoming() is End ==> view.remaining().len() == 0 && view.after_pull().remaining().len()
            == 0,
        !(view.upcoming() is End) ==> view.remaining() == seq![view.upcoming()]
            + view.after_pull().remaining(),
{
    lemma_scan_bounds(view.source, view.offset);
    if !view.halted {
        match scan(view.source, view.offset) {
            Scan::End => {
                lemma_scan_bounds(view.source, view.source.len() as int);
                assert(scan(view.source, view.source.len() as int) is End);
            },
            Scan::Token { .. } => {},
            _ => {
                assert(view.after_pull().remaining() =~= Seq::<Scan>::empty());
            },
        }
    }
}

/// Once a failure has been handed out, every further pull finds the end.
pub proof fn lemma_halted_stays_at_end(view: ScannerView)
    requires
        view.halted,
    ensures
        view.upcoming() is End,
        view.after_pull() == view,
{
}

/// Whether two items are the same: both nothing, the same token, or errors
/// with the same position and message.
pub open spec fn same_item(
    first: Option<Result<Token, LexError>>,
    second: Option<Result<Token, LexError>>,
) -> bool {
    match (first, second) {
        (None, None) => true,
        (Some(Ok(a)), Some(Ok(b))) => a.position == b.position && a.details == b.details,
        (Some(Err(a)), Some(Err(b))) => a.position == b.position && a.message@ == b.message@,
        _ => false,
    }
}

/// Scanning is deterministic: two scanners in the same state find the same,
/// hand out the same item for it and are in the same state afterwards. Two
/// fresh scanners over the same input are in the same state, so they yield
/// the same sequence, pull by pull.
pub proof fn lemma_scanning_is_deterministic(
    first: ScannerView,
    second: ScannerView,
    first_item: Option<Result<Token, LexError>>,
    second_item: Option<Result<Token, LexError>>,
)
    requires
        first == second,
        describes(first.upcoming(), first.source, first_item),
        describes(second.upcoming(), second.source, second_item),
    ensures
        same_item(first_item, second_item),
        first.after_pull() == second.after_pull(),
        first.remaining() == second.remaining(),
{
}

} // verus!
