use crate::numbers::natural_text;
use vstd::prelude::*;

verus! {

/// What every control sequence starts with.
pub open spec fn introducer() -> Seq<char> {
    seq!['\u{1b}', '[']
}

/// The sequence that moves the cursor to column `x` of row `y`, both counted from 1.
pub open spec fn goto_code(x: int, y: int) -> Seq<char> {
    introducer() + natural_text(y as nat) + seq![';'] + natural_text(x as nat) + seq!['H']
}

/// The sequence that moves the cursor `n` columns to the left.
pub open spec fn left_code(n: int) -> Seq<char> {
    introducer() + natural_text(n as nat) + seq!['D']
}

/// The sequence that clears the screen.
pub open spec fn clear_all_code() -> Seq<char> {
    introducer() + seq!['2', 'J']
}

/// The sequence that clears the line of the cursor.
pub open spec fn clear_line_code() -> Seq<char> {
    introducer() + seq!['2', 'K']
}

/// The sequence that clears the screen behind the cursor.
pub open spec fn clear_after_code() -> Seq<char> {
    introducer() + seq!['J']
}

/// The sequence that makes the cursor a blinking bar.
pub open spec fn blinking_bar_code() -> Seq<char> {
    introducer() + seq!['5', ' ', 'q']
}

/// The sequence for a foreground of red, green and blue parts.
pub open spec fn foreground_rgb_code(r: int, g: int, b: int) -> Seq<char> {
    introducer() + seq!['3', '8', ';', '2', ';'] + natural_text(r as nat) + seq![';']
        + natural_text(g as nat) + seq![';'] + natural_text(b as nat) + seq!['m']
}

/// The sequence for a background of red, green and blue parts.
pub open spec fn background_rgb_code(r: int, g: int, b: int) -> Seq<char> {
    introducer() + seq!['4', '8', ';', '2', ';'] + natural_text(r as nat) + seq![';']
        + natural_text(g as nat) + seq![';'] + natural_text(b as nat) + seq!['m']
}

/// The sequence for the foreground colour with this number among the first 256.
pub open spec fn foreground_code(number: int) -> Seq<char> {
    introducer() + seq!['3', '8', ';', '5', ';'] + natural_text(number as nat) + seq!['m']
}

/// The sequence for the background colour with this number among the first 256.
pub open spec fn background_code(number: int) -> Seq<char> {
    introducer() + seq!['4', '8', ';', '5', ';'] + natural_text(number as nat) + seq!['m']
}

/// The sequence that gives the foreground back to the terminal.
pub open spec fn reset_foreground_code() -> Seq<char> {
    introducer() + seq!['3', '9', 'm']
}

/// The sequence that gives the background back to the terminal.
pub open spec fn reset_background_code() -> Seq<char> {
    introducer() + seq!['4', '9', 'm']
}

/// A colour as the terminal library writes it: its sequence, or nothing where the
/// environment has colours switched off.
pub open spec fn colour_or_nothing(written: Seq<char>, code: Seq<char>) -> bool {
    written.len() == 0 || written == code
}

/// `termion::cursor::Goto(x, y)`, written by its `Display`: `ESC [ y ; x H`, the numbers
/// in decimal. In a debug build it refuses the position (0, 0).
#[verifier::external_body]
pub(crate) fn goto(x: u16, y: u16) -> (code: String)
    requires
        x != 0 || y != 0,
    ensures
        code@ == goto_code(x as int, y as int),
{
    format!("{}", termion::cursor::Goto(x, y))
}

/// `termion::cursor::Left(n)`, written by its `Display`: `ESC [ n D`.
#[verifier::external_body]
pub(crate) fn left(n: u16) -> (code: String)
    ensures
        code@ == left_code(n as int),
{
    format!("{}", termion::cursor::Left(n))
}

/// `termion::clear::All`, written by its `Display`: `ESC [ 2 J`.
#[verifier::external_body]
pub(crate) fn clear_all() -> (code: String)
    ensures
        code@ == clear_all_code(),
{
    format!("{}", termion::clear::All)
}

/// `termion::clear::CurrentLine`, written by its `Display`: `ESC [ 2 K`.
#[verifier::external_body]
pub(crate) fn clear_line() -> (code: String)
    ensures
        code@ == clear_line_code(),
{
    format!("{}", termion::clear::CurrentLine)
}

/// `termion::clear::AfterCursor`, written by its `Display`: `ESC [ J`.
#[verifier::external_body]
pub(crate) fn clear_after() -> (code: String)
    ensures
        code@ == clear_after_code(),
{
    format!("{}", termion::clear::AfterCursor)
}

/// `termion::cursor::BlinkingBar`, written by its `Display`: `ESC [ 5 space q`.
#[verifier::external_body]
pub(crate) fn blinking_bar() -> (code: String)
    ensures
        code@ == blinking_bar_code(),
{
    format!("{}", termion::cursor::BlinkingBar)
}

/// `termion::color::Fg(Rgb(r, g, b))`, written by its `Display`: `ESC [ 38;2;r;g;b m`,
/// or nothing where the environment variable `NO_COLOR` is set.
#[verifier::external_body]
pub(crate) fn foreground_rgb(r: u8, g: u8, b: u8) -> (code: String)
    ensures
        colour_or_nothing(code@, foreground_rgb_code(r as int, g as int, b as int)),
{
    format!("{}", termion::color::Fg(termion::color::Rgb(r, g, b)))
}

/// `termion::color::Bg(Rgb(r, g, b))`, written by its `Display`: `ESC [ 48;2;r;g;b m`,
/// or nothing where the environment variable `NO_COLOR` is set.
#[verifier::external_body]
pub(crate) fn background_rgb(r: u8, g: u8, b: u8) -> (code: String)
    ensures
        colour_or_nothing(code@, background_rgb_code(r as int, g as int, b as int)),
{
    format!("{}", termion::color::Bg(termion::color::Rgb(r, g, b)))
}

/// `termion::color::Fg(Black)`, written by its `Display`: `ESC [ 38;5;0 m`, or nothing
/// where the environment variable `NO_COLOR` is set.
#[verifier::external_body]
pub(crate) fn foreground_black() -> (code: String)
    ensures
        colour_or_nothing(code@, foreground_code(0)),
{
    format!("{}", termion::color::Fg(termion::color::Black))
}

/// `termion::color::Fg(Red)`, written by its `Display`: `ESC [ 38;5;1 m`, or nothing
/// where the environment variable `NO_COLOR` is set.
#[verifier::external_body]
pub(crate) fn foreground_red() -> (code: String)
    ensures
        colour_or_nothing(code@, foreground_code(1)),
{
    format!("{}", termion::color::Fg(termion::color::Red))
}

/// `termion::color::Bg(White)`, written by its `Display`: `ESC [ 48;5;7 m`, or nothing
/// where the environment variable `NO_COLOR` is set.
#[verifier::external_body]
pub(crate) fn background_white() -> (code: String)
    ensures
        colour_or_nothing(code@, background_code(7)),
{
    format!("{}", termion::color::Bg(termion::color::White))
}

/// `termion::color::Fg(Reset)`, written by its `Display`: `ESC [ 39 m`, whatever the
/// environment says.
#[verifier::external_body]
pub(crate) fn reset_foreground() -> (code: String)
    ensures
        code@ == reset_foreground_code(),
{
    format!("{}", termion::color::Fg(termion::color::Reset))
}

/// `termion::color::Bg(Reset)`, written by its `Display`: `ESC [ 49 m`, whatever the
/// environment says.
#[verifier::external_body]
pub(crate) fn reset_background() -> (code: String)
    ensures
        code@ == reset_background_code(),
{
    format!("{}", termion::color::Bg(termion::color::Reset))
}

} // verus!
