//! Status lines for the terminal: colour, emphasis and icons.
//!
//! Whether colour is used is decided once, by [`use_color`], from what the
//! caller knows of the terminal; every other function takes the answer.

use vstd::prelude::*;
use vstd::string::*;
use crate::text::str_eq;

verus! {

pub const RESET: &'static str = "\x1b[0m";

pub const BOLD: &'static str = "\x1b[1m";

pub const CYAN: &'static str = "\x1b[36m";

pub const GREEN: &'static str = "\x1b[32m";

pub const YELLOW: &'static str = "\x1b[33m";

pub const RED: &'static str = "\x1b[31m";

pub const RULE: &'static str = "─────────────────────────";

pub const INFO_ICON: &'static str = "ℹ";

pub const OK_ICON: &'static str = "✓";

pub const WARN_ICON: &'static str = "⚠";

pub const ERR_ICON: &'static str = "✗";

/// Colour is used unless `NO_COLOR` is set, the error stream is no
/// terminal, or the terminal is `dumb`.
pub open spec fn color_wanted(no_color: bool, is_terminal: bool, term: Option<Seq<char>>) -> bool {
    !no_color && is_terminal && term != Some("dumb"@)
}

/// Whether status lines are coloured. `no_color` says whether the variable
/// `NO_COLOR` is set, `term` is the value of `TERM`.
pub fn use_color(no_color: bool, is_terminal: bool, term: Option<&str>) -> (r: bool)
    ensures
        r == color_wanted(
            no_color,
            is_terminal,
            match term {
                Some(t) => Some(t@),
                None => None,
            },
        ),
{
    if no_color {
        return false;
    }
    if !is_terminal {
        return false;
    }
    match term {
        Some(t) => !str_eq(t, "dumb"),
        None => true,
    }
}

/// `text` between the code of a style and the code that ends it, or `text`
/// alone where no colour is used.
pub open spec fn painted(text: Seq<char>, code: Seq<char>, color: bool) -> Seq<char> {
    if color {
        code + text + RESET@
    } else {
        text
    }
}

pub fn paint(text: &str, code: &str, color: bool) -> (r: String)
    ensures
        r@ == painted(text@, code@, color),
{
    if color {
        let mut s = code.to_owned();
        s.append(text);
        s.append(RESET);
        s
    } else {
        text.to_owned()
    }
}

pub fn bold(text: &str, color: bool) -> (r: String)
    ensures
        r@ == painted(text@, BOLD@, color),
{
    paint(text, BOLD, color)
}

/// A status line: an icon in its colour, two spaces, the message.
pub open spec fn status_line(icon: Seq<char>, code: Seq<char>, message: Seq<char>, color: bool) -> Seq<
    char,
> {
    painted(icon, code, color) + "  "@ + message
}

fn status(icon: &str, code: &str, message: &str, color: bool) -> (r: String)
    ensures
        r@ == status_line(icon@, code@, message@, color),
{
    let mut s = paint(icon, code, color);
    s.append("  ");
    s.append(message);
    s
}

/// A title: the emphasized text, and a rule below it.
pub fn title(text: &str, color: bool) -> (r: String)
    ensures
        r@ == "  "@ + painted(text@, BOLD@, color) + "\n  "@ + RULE@,
{
    let mut s = "  ".to_owned();
    s.append(bold(text, color).as_str());
    s.append("\n  ");
    s.append(RULE);
    s
}

pub fn info(message: &str, color: bool) -> (r: String)
    ensures
        r@ == status_line(INFO_ICON@, CYAN@, message@, color),
{
    status(INFO_ICON, CYAN, message, color)
}

pub fn ok(message: &str, color: bool) -> (r: String)
    ensures
        r@ == status_line(OK_ICON@, GREEN@, message@, color),
{
    status(OK_ICON, GREEN, message, color)
}

pub fn warn(message: &str, color: bool) -> (r: String)
    ensures
        r@ == status_line(WARN_ICON@, YELLOW@, message@, color),
{
    status(WARN_ICON, YELLOW, message, color)
}

pub fn err(message: &str, color: bool) -> (r: String)
    ensures
        r@ == status_line(ERR_ICON@, RED@, message@, color),
{
    status(ERR_ICON, RED, message, color)
}

} // verus!
