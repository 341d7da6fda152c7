//! Terminal commands as the bytes that crossterm writes for them.
use vstd::prelude::*;

use crate::text::decimal;

use crossterm::Command;

verus! {

/// A color to draw text with.
#[derive(Clone, Copy, Debug, PartialEq, Eq, Structural)]
pub enum Color {
    /// The terminal's default color.
    Reset,
    /// Red.
    Red,
    /// A color of the terminal's 256-color palette.
    AnsiValue(u8),
    /// A color given by its red, green and blue parts.
    Rgb(u8, u8, u8),
}

/// The control sequence introducer, followed by `tail`.
pub open spec fn csi(tail: Seq<u8>) -> Seq<u8> {
    seq![27u8, 91u8] + tail
}

/// How a color is named after the foreground (38) or background (48) code.
pub open spec fn color_code(base: nat, color: Color) -> Seq<u8> {
    match color {
        Color::Reset => decimal(base + 1),
        Color::Red => decimal(base) + seq![59u8, 53u8, 59u8, 57u8],
        Color::AnsiValue(n) => decimal(base) + seq![59u8, 53u8, 59u8] + decimal(n as nat),
        Color::Rgb(r, g, b) => decimal(base) + seq![59u8, 50u8, 59u8] + decimal(r as nat) + seq![59u8]
            + decimal(g as nat) + seq![59u8] + decimal(b as nat),
    }
}

/// `ESC [ 0 m`: reset the colors.
pub open spec fn reset_color_seq() -> Seq<u8> {
    csi(seq![48u8, 109u8])
}

/// `ESC [ ? 2 5 h`: show the cursor.
pub open spec fn show_seq() -> Seq<u8> {
    csi(seq![63u8, 50u8, 53u8, 104u8])
}

/// `ESC [ ? 2 5 l`: hide the cursor.
pub open spec fn hide_seq() -> Seq<u8> {
    csi(seq![63u8, 50u8, 53u8, 108u8])
}

/// `ESC [ ? 1 0 4 9 h`: switch to the alternate screen.
pub open spec fn enter_alternate_seq() -> Seq<u8> {
    csi(seq![63u8, 49u8, 48u8, 52u8, 57u8, 104u8])
}

/// `ESC [ ? 1 0 4 9 l`: switch back from the alternate screen.
pub open spec fn leave_alternate_seq() -> Seq<u8> {
    csi(seq![63u8, 49u8, 48u8, 52u8, 57u8, 108u8])
}

/// `ESC [ 2 J`: clear the whole screen.
pub open spec fn clear_all_seq() -> Seq<u8> {
    csi(seq![50u8, 74u8])
}

/// `ESC [ row ; column H`, counted from one: move the cursor to column `x`
/// and row `y`, counted from zero.
pub open spec fn move_to_seq(x: u16, y: u16) -> Seq<u8> {
    csi(decimal(y as nat + 1) + seq![59u8] + decimal(x as nat + 1) + seq![72u8])
}

/// `ESC [ code m`: set the foreground color.
pub open spec fn foreground_seq(color: Color) -> Seq<u8> {
    csi(color_code(38, color) + seq![109u8])
}

/// `ESC [ code m`: set the background color.
pub open spec fn background_seq(color: Color) -> Seq<u8> {
    csi(color_code(48, color) + seq![109u8])
}

/// Relies on crossterm's `style::ResetColor` command: writes `ESC [ 0 m`.
#[verifier::external_body]
pub(crate) fn reset_color() -> (r: Vec<u8>)
    ensures
        r@ == reset_color_seq(),
{
    let mut s = String::new();
    let _ = crossterm::style::ResetColor.write_ansi(&mut s);
    s.into_bytes()
}

/// Relies on crossterm's `cursor::Show` command: writes `ESC [ ? 2 5 h`.
#[verifier::external_body]
pub(crate) fn show_cursor() -> (r: Vec<u8>)
    ensures
        r@ == show_seq(),
{
    let mut s = String::new();
    let _ = crossterm::cursor::Show.write_ansi(&mut s);
    s.into_bytes()
}

/// Relies on crossterm's `cursor::Hide` command: writes `ESC [ ? 2 5 l`.
#[verifier::external_body]
pub(crate) fn hide_cursor() -> (r: Vec<u8>)
    ensures
        r@ == hide_seq(),
{
    let mut s = String::new();
    let _ = crossterm::cursor::Hide.write_ansi(&mut s);
    s.into_bytes()
}

/// Relies on crossterm's `terminal::EnterAlternateScreen` command: writes
/// `ESC [ ? 1 0 4 9 h`.
#[verifier::external_body]
pub(crate) fn enter_alternate_screen() -> (r: Vec<u8>)
    ensures
        r@ == enter_alternate_seq(),
{
    let mut s = String::new();
    let _ = crossterm::terminal::EnterAlternateScreen.write_ansi(&mut s);
    s.into_bytes()
}

/// Relies on crossterm's `terminal::LeaveAlternateScreen` command: writes
/// `ESC [ ? 1 0 4 9 l`.
#[verifier::external_body]
pub(crate) fn leave_alternate_screen() -> (r: Vec<u8>)
    ensures
        r@ == leave_alternate_seq(),
{
    let mut s = String::new();
    let _ = crossterm::terminal::LeaveAlternateScreen.write_ansi(&mut s);
    s.into_bytes()
}

/// Relies on crossterm's `terminal::Clear(ClearType::All)` command: writes
/// `ESC [ 2 J`.
#[verifier::external_body]
pub(crate) fn clear_all() -> (r: Vec<u8>)
    ensures
        r@ == clear_all_seq(),
{
    let mut s = String::new();
    let _ = crossterm::terminal::Clear(crossterm::terminal::ClearType::All).write_ansi(&mut s);
    s.into_bytes()
}

/// Relies on crossterm's `cursor::MoveTo` command: writes the row and then
/// the column, each plus one, in decimal. It adds one to each `u16`, hence
/// the bound.
#[verifier::external_body]
pub(crate) fn move_to(x: u16, y: u16) -> (r: Vec<u8>)
    requires
        x < u16::MAX,
        y < u16::MAX,
    ensures
        r@ == move_to_seq(x, y),
{
    let mut s = String::new();
    let _ = crossterm::cursor::MoveTo(x, y).write_ansi(&mut s);
    s.into_bytes()
}

/// Relies on crossterm's `style::SetForegroundColor` command and its
/// `Colored` display: `39` for the default color, `38;5;n` for palette
/// colors (red is 9), `38;2;r;g;b` for the others.
#[verifier::external_body]
pub(crate) fn set_foreground(color: Color) -> (r: Vec<u8>)
    ensures
        r@ == foreground_seq(color),
{
    let mut s = String::new();
    let _ = crossterm::style::SetForegroundColor(match color {
        Color::Reset => crossterm::style::Color::Reset,
        Color::Red => crossterm::style::Color::Red,
        Color::AnsiValue(n) => crossterm::style::Color::AnsiValue(n),
        Color::Rgb(r, g, b) => crossterm::style::Color::Rgb { r, g, b },
    }).write_ansi(&mut s);
    s.into_bytes()
}

/// Relies on crossterm's `style::SetBackgroundColor` command and its
/// `Colored` display: `49` for the default color, `48;5;n` for palette
/// colors (red is 9), `48;2;r;g;b` for the others.
#[verifier::external_body]
pub(crate) fn set_background(color: Color) -> (r: Vec<u8>)
    ensures
        r@ == background_seq(color),
{
    let mut s = String::new();
    let _ = crossterm::style::SetBackgroundColor(match color {
        Color::Reset => crossterm::style::Color::Reset,
        Color::Red => crossterm::style::Color::Red,
        Color::AnsiValue(n) => crossterm::style::Color::AnsiValue(n),
        Color::Rgb(r, g, b) => crossterm::style::Color::Rgb { r, g, b },
    }).write_ansi(&mut s);
    s.into_bytes()
}

} // verus!
