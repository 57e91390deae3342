//! Terminal color escapes. Every rendered line is wrapped unconditionally:
//! foreground set to the level's fixed color, then the line, then a
//! foreground reset.

use vstd::prelude::*;

use crate::levels::LogLevel;
use crate::levels::Rgb;
use crate::text::spec_dec;

verus! {

/// The CSI sequence that sets the truecolor foreground `c`:
/// `ESC [ 38;2;red;green;blue m`, each component in decimal.
pub open spec fn spec_fg_escape(c: Rgb) -> Seq<char> {
    "\u{1b}[38;2;"@ + spec_dec(c.red as nat) + ";"@ + spec_dec(c.green as nat) + ";"@ + spec_dec(
        c.blue as nat,
    ) + "m"@
}

/// The CSI sequence that resets the foreground: `ESC [ 39 m`.
pub open spec fn spec_fg_reset() -> Seq<char> {
    "\u{1b}[39m"@
}

/// Relies on termion's `color::Rgb::fg_string`: it returns the CSI
/// truecolor foreground sequence `ESC [ 38;2;r;g;b m`, each component
/// written in decimal without padding.
#[verifier::external_body]
fn fg_escape(c: Rgb) -> (r: String)
    ensures
        r@ == spec_fg_escape(c),
{
    termion::color::Rgb(c.red, c.green, c.blue).fg_string()
}

/// Relies on termion's `color::Reset::fg_str`: it returns the CSI
/// foreground reset sequence `ESC [ 39 m`.
#[verifier::external_body]
fn fg_reset() -> (r: String)
    ensures
        r@ == spec_fg_reset(),
{
    termion::color::Reset.fg_str().to_string()
}

/// One line wrapped in a level's color: set foreground, the text, reset.
pub open spec fn spec_colorize(level: LogLevel, body: Seq<char>) -> Seq<char> {
    spec_fg_escape(level.spec_color()) + body + spec_fg_reset()
}

/// Wraps `body` in the color escapes of `level`.
pub fn colorize(level: LogLevel, body: &str) -> (r: String)
    ensures
        r@ == spec_colorize(level, body@),
{
    let mut s = fg_escape(level.color());
    s.append(body);
    let reset = fg_reset();
    s.append(reset.as_str());
    s
}

} // verus!
