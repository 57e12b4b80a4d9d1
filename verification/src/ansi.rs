//! ANSI truecolor escape sequences around a piece of text.
//!
//! The spec functions here say, character by character, what a painted
//! string is; the two trusted wrappers state that `ansi_term` produces
//! exactly that.

use vstd::prelude::*;
use crate::grid::Rgb;

verus! {

/// The character of the decimal digit `d`.
pub open spec fn digit(d: u8) -> char {
    if d == 0 {
        '0'
    } else if d == 1 {
        '1'
    } else if d == 2 {
        '2'
    } else if d == 3 {
        '3'
    } else if d == 4 {
        '4'
    } else if d == 5 {
        '5'
    } else if d == 6 {
        '6'
    } else if d == 7 {
        '7'
    } else if d == 8 {
        '8'
    } else {
        '9'
    }
}

/// A byte in decimal, without leading zeros.
pub open spec fn decimal(n: u8) -> Seq<char> {
    if n < 10 {
        seq![digit(n)]
    } else if n < 100 {
        seq![digit(n / 10), digit(n % 10)]
    } else {
        seq![digit(n / 100), digit(n / 10 % 10), digit(n % 10)]
    }
}

/// The parameters that select a 24-bit colour, after the digit that says
/// whether it is the foreground or the background: `8;2;R;G;B`.
pub open spec fn colour_params(colour: Rgb) -> Seq<char> {
    seq!['8', ';', '2', ';'] + decimal(colour.0) + seq![';'] + decimal(colour.1) + seq![';']
        + decimal(colour.2)
}

/// The code that sets the foreground colour: `38;2;R;G;B`.
pub open spec fn foreground_code(colour: Rgb) -> Seq<char> {
    seq!['3'] + colour_params(colour)
}

/// The code that sets the background colour: `48;2;R;G;B`.
pub open spec fn background_code(colour: Rgb) -> Seq<char> {
    seq!['4'] + colour_params(colour)
}

/// The control sequence introducer, `ESC [`.
pub open spec fn introducer() -> Seq<char> {
    seq!['\x1b', '[']
}

/// The sequence that resets all attributes, `ESC [ 0 m`.
pub open spec fn reset() -> Seq<char> {
    seq!['\x1b', '[', '0', 'm']
}

/// What precedes text drawn in a foreground colour.
pub open spec fn foreground_prefix(foreground: Rgb) -> Seq<char> {
    introducer() + foreground_code(foreground) + seq!['m']
}

/// What precedes text drawn in a foreground colour on a background colour:
/// the background code comes first.
pub open spec fn on_prefix(foreground: Rgb, background: Rgb) -> Seq<char> {
    introducer() + background_code(background) + seq![';'] + foreground_code(foreground)
        + seq!['m']
}

/// `text` in the foreground colour, followed by a reset.
pub open spec fn painted(foreground: Rgb, text: Seq<char>) -> Seq<char> {
    foreground_prefix(foreground) + text + reset()
}

/// `text` in the foreground colour on the background colour, followed by a
/// reset.
pub open spec fn painted_on(foreground: Rgb, background: Rgb, text: Seq<char>) -> Seq<char> {
    on_prefix(foreground, background) + text + reset()
}

/// The characters that escape sequences are made of.
pub open spec fn is_escape_char(c: char) -> bool {
    c == '\x1b' || c == '[' || c == ';' || c == 'm' || ('0' <= c && c <= '9')
}

/// How often `c` occurs in `s`.
pub open spec fn occurrences(s: Seq<char>, c: char) -> nat
    decreases s.len(),
{
    if s.len() == 0 {
        0
    } else {
        occurrences(s.drop_last(), c) + if s.last() == c {
            1nat
        } else {
            0nat
        }
    }
}

/// Occurrences add up over concatenation.
pub proof fn lemma_occurrences_concat(a: Seq<char>, b: Seq<char>, c: char)
    ensures
        occurrences(a + b, c) == occurrences(a, c) + occurrences(b, c),
    decreases b.len(),
{
    if b.len() == 0 {
        assert(a + b =~= a);
    } else {
        assert((a + b).drop_last() =~= a + b.drop_last());
        assert((a + b).last() == b.last());
        lemma_occurrences_concat(a, b.drop_last(), c);
    }
}

/// A character that is nowhere in `s` occurs zero times.
pub proof fn lemma_occurrences_absent(s: Seq<char>, c: char)
    requires
        forall|i: int| 0 <= i < s.len() ==> s[i] != c,
    ensures
        occurrences(s, c) == 0,
    decreases s.len(),
{
    if s.len() > 0 {
        lemma_occurrences_absent(s.drop_last(), c);
    }
}

/// Every character of a colour code is an escape character.
proof fn lemma_colour_params_escape(colour: Rgb)
    ensures
        forall|i: int|
            0 <= i < colour_params(colour).len() ==> is_escape_char(
                #[trigger] colour_params(colour)[i],
            ),
{
    let d0 = decimal(colour.0);
    let d1 = decimal(colour.1);
    let d2 = decimal(colour.2);
    assert(forall|i: int| 0 <= i < d0.len() ==> is_escape_char(#[trigger] d0[i]));
    assert(forall|i: int| 0 <= i < d1.len() ==> is_escape_char(#[trigger] d1[i]));
    assert(forall|i: int| 0 <= i < d2.len() ==> is_escape_char(#[trigger] d2[i]));
}

/// Every character of a prefix and of the reset is an escape character.
proof fn lemma_framing_escape(foreground: Rgb, background: Rgb)
    ensures
        forall|i: int|
            0 <= i < foreground_prefix(foreground).len() ==> is_escape_char(
                #[trigger] foreground_prefix(foreground)[i],
            ),
        forall|i: int|
            0 <= i < on_prefix(foreground, background).len() ==> is_escape_char(
                #[trigger] on_prefix(foreground, background)[i],
            ),
        forall|i: int| 0 <= i < reset().len() ==> is_escape_char(#[trigger] reset()[i]),
{
    lemma_colour_params_escape(foreground);
    lemma_colour_params_escape(background);
}

/// Painting adds only escape characters: any other character occurs in the
/// painted text exactly as often as in the text itself.
pub proof fn lemma_painted_occurrences(foreground: Rgb, background: Rgb, text: Seq<char>, c: char)
    requires
        !is_escape_char(c),
    ensures
        occurrences(painted(foreground, text), c) == occurrences(text, c),
        occurrences(painted_on(foreground, background, text), c) == occurrences(text, c),
{
    lemma_framing_escape(foreground, background);
    lemma_occurrences_absent(foreground_prefix(foreground), c);
    lemma_occurrences_absent(on_prefix(foreground, background), c);
    lemma_occurrences_absent(reset(), c);
    lemma_occurrences_concat(foreground_prefix(foreground), text, c);
    lemma_occurrences_concat(foreground_prefix(foreground) + text, reset(), c);
    lemma_occurrences_concat(on_prefix(foreground, background), text, c);
    lemma_occurrences_concat(on_prefix(foreground, background) + text, reset(), c);
}

/// Trusted: `ansi_term::Colour::paint`, written out with `to_string`. For an
/// RGB colour the result is `ESC[38;2;R;G;Bm`, the text, and `ESC[0m`.
#[verifier::external_body]
pub(crate) fn paint(foreground: Rgb, text: &str) -> (out: String)
    ensures
        out@ == painted(foreground, text@),
{
    ansi_term::Colour::RGB(foreground.0, foreground.1, foreground.2).paint(text).to_string()
}

/// Trusted: `ansi_term::Style::paint` for the style that `Colour::on` makes
/// of a foreground and a background colour, written out with `to_string`.
/// The result is `ESC[48;2;R;G;B;38;2;R;G;Bm`, background first, then the
/// text, and `ESC[0m`.
#[verifier::external_body]
pub(crate) fn paint_on(foreground: Rgb, background: Rgb, text: &str) -> (out: String)
    ensures
        out@ == painted_on(foreground, background, text@),
{
    ansi_term::Colour::RGB(foreground.0, foreground.1, foreground.2).on(
        ansi_term::Colour::RGB(background.0, background.1, background.2),
    ).paint(text).to_string()
}

} // verus!
