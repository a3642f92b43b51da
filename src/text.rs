//! Text that the renderer produces: decimal numbers, joined columns and
//! colored spans.

use colored::Colorize;
use vstd::prelude::*;

use crate::config::Rgb;

verus! {

/// The digit character for `d`, which is below ten.
pub open spec fn digit_char(d: nat) -> char {
    if d == 0 {
        '0'
    } else if d == 1 {
        '1'
    } else if d == 2 {
        '2'
    } else if d == 3 {
        '3'
    } else if d == 4 {
        '4'
    } else if d == 5 {
        '5'
    } else if d == 6 {
        '6'
    } else if d == 7 {
        '7'
    } else if d == 8 {
        '8'
    } else {
        '9'
    }
}

/// `n` written in decimal, without sign or leading zeros.
pub open spec fn decimal(n: nat) -> Seq<char>
    decreases n,
{
    if n < 10 {
        seq![digit_char(n)]
    } else {
        decimal(n / 10).push(digit_char(n % 10))
    }
}

/// The pieces one after the other, with `sep` between each two.
pub open spec fn joined(pieces: Seq<Seq<char>>, sep: Seq<char>) -> Seq<char>
    decreases pieces.len(),
{
    if pieces.len() == 0 {
        Seq::empty()
    } else if pieces.len() == 1 {
        pieces[0]
    } else {
        joined(pieces.drop_last(), sep) + sep + pieces.last()
    }
}

/// The control sequence introducer of an ANSI escape.
pub open spec fn csi() -> Seq<char> {
    seq!['\x1b', '[']
}

/// The escape that resets all attributes.
pub open spec fn sgr_reset() -> Seq<char> {
    csi() + seq!['0', 'm']
}

/// The parameters that select `c` as a 24-bit foreground color.
pub open spec fn truecolor_code(c: Rgb) -> Seq<char> {
    seq!['3', '8', ';', '2', ';'] + decimal(c[0] as nat) + seq![';'] + decimal(c[1] as nat)
        + seq![';'] + decimal(c[2] as nat)
}

/// The parameter of one of the sixteen basic foreground colors (30 to 37 and
/// 90 to 97).
pub open spec fn basic_fg_code(code: Seq<char>) -> bool {
    &&& code.len() == 2
    &&& code[0] == '3' || code[0] == '9'
    &&& seq!['0', '1', '2', '3', '4', '5', '6', '7'].contains(code[1])
}

/// `out` shows `text` in the color `c`: either as it is, where the output
/// is not colored, or between a foreground escape for `c` (24-bit, or the
/// nearest basic color where the terminal has no 24-bit colors) and a reset.
pub open spec fn painted(out: Seq<char>, text: Seq<char>, c: Rgb) -> bool {
    ||| out == text
    ||| exists|code: Seq<char>|
        (code == truecolor_code(c) || basic_fg_code(code)) && out == csi() + code + seq!['m']
            + text + sgr_reset()
}

/// What painting `text` in `c` gives, where `text` holds no escape character
/// (inside an escape a painter may repeat its own sequence).
pub open spec fn paints(out: Seq<char>, text: Seq<char>, c: Rgb) -> bool {
    !text.contains('\x1b') ==> painted(out, text, c)
}

/// Relies on `colored::Colorize::truecolor` for `&str` and the `Display` of
/// `colored::ColoredString`: where coloring is off (the environment and the
/// terminal decide) the text is written as it is; otherwise it is written
/// between "ESC[" + the foreground parameter + "m" and "ESC[0m", the
/// parameter being "38;2;r;g;b" where COLORTERM announces 24-bit colors and
/// the nearest basic color otherwise. The text itself changes only where it
/// holds a reset sequence.
#[verifier::external_body]
pub(crate) fn paint(text: &str, c: Rgb) -> (r: String)
    ensures
        paints(r@, text@, c),
{
    text.truecolor(c[0], c[1], c[2]).to_string()
}

/// Relies on the `Display` of `u64`: decimal digits, no sign, no padding.
#[verifier::external_body]
pub(crate) fn decimal_text(n: u64) -> (r: String)
    ensures
        r@ == decimal(n as nat),
{
    n.to_string()
}

} // verus!
