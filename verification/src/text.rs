//! Building text: characters appended to strings, and numbers in decimal.

use vstd::prelude::*;
use vstd::utf8::encode_utf8;

verus! {

/// `String::push` appends the one character `c` to the end of `s` and
/// leaves what was there in place.
pub assume_specification[ String::push ](s: &mut String, c: char)
    ensures
        final(s)@ == old(s)@.push(c),
;

/// The character for the decimal digit `d`.
pub open spec fn digit_char(d: int) -> char
    recommends
        0 <= d < 10,
{
    if d == 0 {
        '0'
    } else if d == 1 {
        '1'
    } else if d == 2 {
        '2'
    } else if d == 3 {
        '3'
    } else if d == 4 {
        '4'
    } else if d == 5 {
        '5'
    } else if d == 6 {
        '6'
    } else if d == 7 {
        '7'
    } else if d == 8 {
        '8'
    } else {
        '9'
    }
}

/// `n` in decimal, without leading zeros.
pub open spec fn decimal(n: nat) -> Seq<char>
    decreases n,
{
    if n < 10 {
        seq![digit_char(n as int)]
    } else {
        decimal(n / 10).push(digit_char((n % 10) as int))
    }
}

/// `n` in decimal, with a minus sign in front where it is negative.
pub open spec fn signed_decimal(n: int) -> Seq<char> {
    if n < 0 {
        seq!['-'] + decimal((-n) as nat)
    } else {
        decimal(n as nat)
    }
}

/// The character for the decimal digit `d`.
fn digit(d: u64) -> (c: char)
    requires
        d < 10,
    ensures
        c == digit_char(d as int),
{
    match d {
        0 => '0',
        1 => '1',
        2 => '2',
        3 => '3',
        4 => '4',
        5 => '5',
        6 => '6',
        7 => '7',
        8 => '8',
        _ => '9',
    }
}

/// Writes `n` in decimal.
pub fn decimal_text(n: u64) -> (text: String)
    ensures
        text@ == decimal(n as nat),
    decreases n,
{
    if n < 10 {
        let mut text = String::new();
        text.push(digit(n));
        text
    } else {
        let mut text = decimal_text(n / 10);
        text.push(digit(n % 10));
        text
    }
}

/// Writes `n` in decimal, with its sign where it is negative.
pub fn signed_decimal_text(n: i32) -> (text: String)
    ensures
        text@ == signed_decimal(n as int),
{
    if n < 0 {
        let magnitude: u64 = (-(n as i64)) as u64;
        let mut text = String::new();
        text.push('-');
        let digits = decimal_text(magnitude);
        text.append(digits.as_str());
        text
    } else {
        decimal_text(n as u64)
    }
}

/// A bar of `width` horizontal double lines.
pub open spec fn bar(width: nat) -> Seq<char> {
    Seq::new(width, |i: int| '\u{2550}')
}

/// `title` in a frame: an empty line, the title between two bars that are
/// two characters longer than the title has bytes, and an empty line.
pub open spec fn framed(title: Seq<char>) -> Seq<char> {
    let bytes = encode_utf8(title).len();
    "\n\u{2552}"@ + bar(bytes + 2) + "\u{2555}\n\u{2502} "@ + title + " \u{2502}\n\u{2558}"@
        + bar(bytes + 2) + "\u{255b}\n\n"@
}

/// Writes a bar as long as `title` has bytes, and two more.
fn title_bar(title: &str) -> (text: String)
    ensures
        text@ == bar(encode_utf8(title@).len() + 2),
{
    let mut text = String::new();
    text.push('\u{2550}');
    text.push('\u{2550}');
    let bytes: usize = title.as_bytes().len();
    let mut i: usize = 0;
    while i < bytes
        invariant
            0 <= i <= bytes,
            text@ == bar((i + 2) as nat),
        decreases bytes - i,
    {
        let ghost before = text@;
        text.push('\u{2550}');
        proof {
            assert(before.push('\u{2550}') =~= bar((i + 3) as nat));
        }
        i += 1;
    }
    text
}

/// Writes `title` in its frame.
pub fn title_banner(title: &str) -> (banner: String)
    ensures
        banner@ == framed(title@),
{
    let bar = title_bar(title);
    let mut banner = "\n\u{2552}".to_owned();
    banner.append(bar.as_str());
    banner.append("\u{2555}\n\u{2502} ");
    banner.append(title);
    banner.append(" \u{2502}\n\u{2558}");
    banner.append(bar.as_str());
    banner.append("\u{255b}\n\n");
    banner
}

} // verus!
