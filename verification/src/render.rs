//! From a round state to what the screen shows.
//!
//! The projection is a pure mapping: two text segments and a background
//! colour for each state. How the payload is painted is not decided here.

use crate::state::RoundState;
use vstd::prelude::*;
use vstd::string::StringExecFns;

verus! {

/// The colours that the display uses.
#[derive(Clone, Copy, Debug, PartialEq, Eq, Structural)]
pub enum Color {
    Black,
    Red,
    Green,
    Blue,
    White,
}

/// A piece of text, drawn in `foreground` or, without one, in the colour of
/// the surrounding block.
#[derive(Debug, PartialEq, Eq)]
pub struct Segment {
    pub text: String,
    pub foreground: Option<Color>,
}

/// What the screen shows for one round state.
#[derive(Debug, PartialEq, Eq)]
pub struct DisplayPayload {
    pub lines: Vec<Segment>,
    pub background: Color,
}

/// A segment as a value: its characters and its colour.
pub struct SegmentView {
    pub text: Seq<char>,
    pub foreground: Option<Color>,
}

/// A payload as a value: its segments in order, and the background.
pub struct PayloadView {
    pub lines: Seq<SegmentView>,
    pub background: Color,
}

impl View for Segment {
    type V = SegmentView;

    open spec fn view(&self) -> SegmentView {
        SegmentView { text: self.text@, foreground: self.foreground }
    }
}

impl View for DisplayPayload {
    type V = PayloadView;

    open spec fn view(&self) -> PayloadView {
        PayloadView {
            lines: Seq::new(self.lines@.len(), |i: int| self.lines@[i]@),
            background: self.background,
        }
    }
}

/// The character of a decimal digit.
pub open spec fn digit_char(digit: nat) -> char {
    if digit == 0 {
        '0'
    } else if digit == 1 {
        '1'
    } else if digit == 2 {
        '2'
    } else if digit == 3 {
        '3'
    } else if digit == 4 {
        '4'
    } else if digit == 5 {
        '5'
    } else if digit == 6 {
        '6'
    } else if digit == 7 {
        '7'
    } else if digit == 8 {
        '8'
    } else {
        '9'
    }
}

/// The decimal numeral of `n`, without leading zeros.
pub open spec fn decimal(n: nat) -> Seq<char>
    decreases n,
{
    if n < 10 {
        seq![digit_char(n)]
    } else {
        decimal(n / 10).push(digit_char(n % 10))
    }
}

/// A segment without a colour of its own.
pub open spec fn plain(text: Seq<char>) -> SegmentView {
    SegmentView { text, foreground: None }
}

/// A segment drawn in `color`.
pub open spec fn colored(text: Seq<char>, color: Color) -> SegmentView {
    SegmentView { text, foreground: Some(color) }
}

/// The payload of each round state.
pub open spec fn payload_of(state: RoundState) -> PayloadView {
    match state {
        RoundState::Idle => PayloadView {
            lines: seq![
                plain("Press a key to get started\n"@),
                colored(
                    "The terminal with clear, wait for it to flash and press space or click\n"@,
                    Color::Red,
                ),
            ],
            background: Color::Black,
        },
        RoundState::Armed => PayloadView {
            lines: seq![
                plain("Press a key when the background turns green!\n"@),
                colored("!\n"@, Color::Red),
            ],
            background: Color::Blue,
        },
        RoundState::Signaled { .. } => PayloadView {
            lines: seq![plain("TIME TO CLICK!\n"@), colored("NOW!"@, Color::Red)],
            background: Color::Green,
        },
        RoundState::Result(ms) => PayloadView {
            lines: seq![
                plain("Your reaction time was:\n"@),
                colored(decimal(ms as nat) + "\n"@, Color::Blue),
            ],
            background: Color::Black,
        },
        RoundState::FalseStart => PayloadView {
            lines: seq![
                plain("Not too fast!\n"@),
                colored("That was a false start!\n"@, Color::White),
            ],
            background: Color::Red,
        },
    }
}

/// The numeral of one decimal digit.
fn digit_str(digit: u16) -> (numeral: &'static str)
    requires
        digit < 10,
    ensures
        numeral@ == seq![digit_char(digit as nat)],
{
    proof {
        reveal_strlit("0");
        reveal_strlit("1");
        reveal_strlit("2");
        reveal_strlit("3");
        reveal_strlit("4");
        reveal_strlit("5");
        reveal_strlit("6");
        reveal_strlit("7");
        reveal_strlit("8");
        reveal_strlit("9");
    }
    let numeral = match digit {
        0 => "0",
        1 => "1",
        2 => "2",
        3 => "3",
        4 => "4",
        5 => "5",
        6 => "6",
        7 => "7",
        8 => "8",
        _ => "9",
    };
    assert(numeral@ =~= seq![digit_char(digit as nat)]);
    numeral
}

/// Appends the decimal numeral of `n` to `text`.
fn append_decimal(text: &mut String, n: u16)
    ensures
        final(text)@ == old(text)@ + decimal(n as nat),
    decreases n,
{
    if n >= 10 {
        append_decimal(text, n / 10);
    }
    text.append(digit_str(n % 10));
}

/// The decimal numeral of `n`, without leading zeros.
pub fn decimal_text(n: u16) -> (text: String)
    ensures
        text@ == decimal(n as nat),
{
    let mut text = String::new();
    append_decimal(&mut text, n);
    text
}

/// A segment without a colour of its own.
fn plain_segment(text: &str) -> (segment: Segment)
    ensures
        segment@ == plain(text@),
{
    Segment { text: text.to_owned(), foreground: None }
}

/// A segment drawn in `color`.
fn colored_segment(text: String, color: Color) -> (segment: Segment)
    ensures
        segment@ == colored(text@, color),
{
    Segment { text, foreground: Some(color) }
}

/// Two segments and a background as a payload.
fn two_lines(first: Segment, second: Segment, background: Color) -> (payload: DisplayPayload)
    ensures
        payload@ == (PayloadView { lines: seq![first@, second@], background }),
{
    let mut lines: Vec<Segment> = Vec::new();
    lines.push(first);
    lines.push(second);
    let payload = DisplayPayload { lines, background };
    assert(payload@.lines =~= seq![first@, second@]);
    payload
}

/// Projects a round state onto its display payload.
pub fn project(state: RoundState) -> (payload: DisplayPayload)
    ensures
        payload@ == payload_of(state),
{
    match state {
        RoundState::Idle => two_lines(
            plain_segment("Press a key to get started\n"),
            colored_segment(
                "The terminal with clear, wait for it to flash and press space or click\n".to_owned(),
                Color::Red,
            ),
            Color::Black,
        ),
        RoundState::Armed => two_lines(
            plain_segment("Press a key when the background turns green!\n"),
            colored_segment("!\n".to_owned(), Color::Red),
            Color::Blue,
        ),
        RoundState::Signaled { .. } => two_lines(
            plain_segment("TIME TO CLICK!\n"),
            colored_segment("NOW!".to_owned(), Color::Red),
            Color::Green,
        ),
        RoundState::Result(ms) => {
            let mut numeral = decimal_text(ms);
            numeral.append("\n");
            two_lines(
                plain_segment("Your reaction time was:\n"),
                colored_segment(numeral, Color::Blue),
                Color::Black,
            )
        },
        RoundState::FalseStart => two_lines(
            plain_segment("Not too fast!\n"),
            colored_segment("That was a false start!\n".to_owned(), Color::White),
            Color::Red,
        ),
    }
}

} // verus!
