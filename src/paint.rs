//! ANSI coloring of text, through owo-colors.
use owo_colors::OwoColorize;
use vstd::prelude::*;
use vstd::string::*;

verus! {

/// `s` between an SGR start sequence with parameter `code` and the reset `end`.
pub open spec fn sgr(code: Seq<char>, s: Seq<char>, end: Seq<char>) -> Seq<char> {
    seq!['\x1b', '['] + code + seq!['m'] + s + seq!['\x1b', '['] + end + seq!['m']
}

/// `s` in foreground color `code`, followed by the default-foreground reset.
pub open spec fn fg(code: Seq<char>, s: Seq<char>) -> Seq<char> {
    sgr(code, s, seq!['3', '9'])
}

/// `s` in bold, followed by the full reset.
pub open spec fn bolded(s: Seq<char>) -> Seq<char> {
    sgr(seq!['1'], s, seq!['0'])
}

/// The colors that the renderings use.
#[derive(Clone, Copy, Debug, PartialEq, Eq, Structural)]
pub enum Hue {
    Red,
    Yellow,
    Cyan,
    BrightCyan,
    /// Bright green and bold.
    BrightGreenBold,
}

/// `s` in hue `h`.
pub open spec fn colored(h: Hue, s: Seq<char>) -> Seq<char> {
    match h {
        Hue::Red => fg(seq!['3', '1'], s),
        Hue::Yellow => fg(seq!['3', '3'], s),
        Hue::Cyan => fg(seq!['3', '6'], s),
        Hue::BrightCyan => fg(seq!['9', '6'], s),
        Hue::BrightGreenBold => bolded(fg(seq!['9', '2'], s)),
    }
}

/// `s` in hue `h` when `colorize` is set, `s` itself otherwise.
pub open spec fn painted(colorize: bool, h: Hue, s: Seq<char>) -> Seq<char> {
    if colorize {
        colored(h, s)
    } else {
        s
    }
}

/// Relies on owo_colors' `red`: writes `ESC[31m`, the text, then `ESC[39m`.
#[verifier::external_body]
fn owo_red(s: &str) -> (r: String)
    ensures
        r@ == fg(seq!['3', '1'], s@),
{
    s.red().to_string()
}

/// Relies on owo_colors' `yellow`: writes `ESC[33m`, the text, then `ESC[39m`.
#[verifier::external_body]
fn owo_yellow(s: &str) -> (r: String)
    ensures
        r@ == fg(seq!['3', '3'], s@),
{
    s.yellow().to_string()
}

/// Relies on owo_colors' `cyan`: writes `ESC[36m`, the text, then `ESC[39m`.
#[verifier::external_body]
fn owo_cyan(s: &str) -> (r: String)
    ensures
        r@ == fg(seq!['3', '6'], s@),
{
    s.cyan().to_string()
}

/// Relies on owo_colors' `bright_cyan`: writes `ESC[96m`, the text, then `ESC[39m`.
#[verifier::external_body]
fn owo_bright_cyan(s: &str) -> (r: String)
    ensures
        r@ == fg(seq!['9', '6'], s@),
{
    s.bright_cyan().to_string()
}

/// Relies on owo_colors' `bright_green`: writes `ESC[92m`, the text, then `ESC[39m`.
#[verifier::external_body]
fn owo_bright_green(s: &str) -> (r: String)
    ensures
        r@ == fg(seq!['9', '2'], s@),
{
    s.bright_green().to_string()
}

/// Relies on owo_colors' `bold`: writes `ESC[1m`, the text, then `ESC[0m`.
#[verifier::external_body]
fn owo_bold(s: &str) -> (r: String)
    ensures
        r@ == bolded(s@),
{
    s.bold().to_string()
}

/// `s` in hue `h`.
pub fn color(h: Hue, s: &str) -> (r: String)
    ensures
        r@ == colored(h, s@),
{
    match h {
        Hue::Red => owo_red(s),
        Hue::Yellow => owo_yellow(s),
        Hue::Cyan => owo_cyan(s),
        Hue::BrightCyan => owo_bright_cyan(s),
        Hue::BrightGreenBold => {
            let g = owo_bright_green(s);
            owo_bold(g.as_str())
        },
    }
}

/// `s` in hue `h` when `colorize` is set, unchanged otherwise.
pub fn paint(colorize: bool, h: Hue, s: &str) -> (r: String)
    ensures
        r@ == painted(colorize, h, s@),
{
    if colorize {
        color(h, s)
    } else {
        String::from_str(s)
    }
}

} // verus!
