//! Terminal styling, behind trusted wrappers around the `console` crate.
//!
//! Whether colors or emoji actually appear depends on the terminal and the
//! process environment, so every wrapper states only what holds of each
//! possible outcome: the text comes back either unchanged or wrapped in one
//! fixed ANSI escape pair, and a glyph resolves either to itself or to its
//! fallback.

use vstd::prelude::*;
use crate::text::dec_str;

verus! {

/// The display width of a string in terminal cells, as `console` measures it:
/// ANSI escapes stripped, Unicode cell widths summed. A pure function of the
/// characters alone.
pub uninterp spec fn display_width(s: Seq<char>) -> nat;

/// Relies on console::measure_text_width: the width of a string in terminal
/// cells is computed from its characters alone.
#[verifier::external_body]
pub fn measured_width(s: &str) -> (r: usize)
    ensures
        r as nat == display_width(s@),
{
    console::measure_text_width(s)
}

/// Relies on console::Emoji: its Display impl yields the first string where
/// the terminal wants emoji and the second string elsewhere.
#[verifier::external_body]
pub fn emoji_or_fallback(emoji: &str, fallback: &str) -> (r: String)
    ensures
        r@ == emoji@ || r@ == fallback@,
{
    console::Emoji(emoji, fallback).to_string()
}

/// `s` wrapped in an ANSI escape prefix and the reset escape.
pub open spec fn ansi_wrapped(prefix: Seq<char>, s: Seq<char>) -> Seq<char> {
    prefix + s + "\u{1b}[0m"@
}

/// `out` is `s` either unchanged or wrapped in the given ANSI escape pair,
/// depending on whether the terminal takes colors.
pub open spec fn styled_as(out: Seq<char>, prefix: Seq<char>, s: Seq<char>) -> bool {
    out == s || out == ansi_wrapped(prefix, s)
}

/// Relies on console::style(..).blue(): with colors enabled the text is
/// wrapped in the ANSI blue escape and the reset escape, else unchanged.
#[verifier::external_body]
pub fn style_blue(s: &str) -> (r: String)
    ensures
        styled_as(r@, "\u{1b}[34m"@, s@),
{
    console::style(s).blue().to_string()
}

/// Relies on console::style(..).green(): with colors enabled the text is
/// wrapped in the ANSI green escape and the reset escape, else unchanged.
#[verifier::external_body]
pub fn style_green(s: &str) -> (r: String)
    ensures
        styled_as(r@, "\u{1b}[32m"@, s@),
{
    console::style(s).green().to_string()
}

/// Relies on console::style(..).yellow(): with colors enabled the text is
/// wrapped in the ANSI yellow escape and the reset escape, else unchanged.
#[verifier::external_body]
pub fn style_yellow(s: &str) -> (r: String)
    ensures
        styled_as(r@, "\u{1b}[33m"@, s@),
{
    console::style(s).yellow().to_string()
}

/// Relies on console::style(..).red(): with colors enabled the text is
/// wrapped in the ANSI red escape and the reset escape, else unchanged.
#[verifier::external_body]
pub fn style_red(s: &str) -> (r: String)
    ensures
        styled_as(r@, "\u{1b}[31m"@, s@),
{
    console::style(s).red().to_string()
}

/// Relies on console::style(..).bright().yellow(): with colors enabled the
/// text is wrapped in the ANSI bright-yellow escape (8-bit color 11) and the
/// reset escape, else unchanged.
#[verifier::external_body]
pub fn style_bright_yellow(s: &str) -> (r: String)
    ensures
        styled_as(r@, "\u{1b}[38;5;11m"@, s@),
{
    console::style(s).bright().yellow().to_string()
}

/// The ANSI escape prefix conventionally chosen for a status code: blue for
/// informational, green for success, yellow for redirection, red for errors;
/// codes outside those families stay plain.
pub open spec fn status_color_prefix(code: u16) -> Option<Seq<char>> {
    if 100 <= code && code < 200 {
        Some("\u{1b}[34m"@)
    } else if 200 <= code && code < 300 {
        Some("\u{1b}[32m"@)
    } else if 300 <= code && code < 400 {
        Some("\u{1b}[33m"@)
    } else if 400 <= code && code < 600 {
        Some("\u{1b}[31m"@)
    } else {
        None
    }
}

/// `out` renders `code` in decimal, colorized by convention when the terminal
/// takes colors.
pub open spec fn colorized_as(out: Seq<char>, code: u16) -> bool {
    match status_color_prefix(code) {
        Some(prefix) => styled_as(out, prefix, dec_str(code as nat)),
        None => out == dec_str(code as nat),
    }
}

/// Render a status code in decimal, colorized by its response family.
pub fn colorize_status(code: u16) -> (s: String)
    ensures
        colorized_as(s@, code),
{
    let text = crate::text::dec_string(code as u64);
    if 100 <= code && code < 200 {
        style_blue(text.as_str())
    } else if 200 <= code && code < 300 {
        style_green(text.as_str())
    } else if 300 <= code && code < 400 {
        style_yellow(text.as_str())
    } else if 400 <= code && code < 600 {
        style_red(text.as_str())
    } else {
        text
    }
}

} // verus!
