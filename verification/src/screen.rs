//! What a frame shows of a session: the hint banner, the place of the
//! cursor and the numbered log. Nothing here changes the session.

use vstd::prelude::*;
use vstd::string::*;
use crate::phrases::texts;
use crate::session::{Mode, Session};

verus! {

/// The number of terminal columns that a text takes when it is displayed,
/// as `unicode_width` measures it.
pub uninterp spec fn display_width(text: Seq<char>) -> nat;

/// Calls `unicode_width::UnicodeWidthStr::width` on the text. Taken on
/// trust: the result is the text's displayed width in columns, a value that
/// depends on the text alone.
#[verifier::external_body]
fn measure(text: &str) -> (width: usize)
    ensures
        width == display_width(text@),
{
    unicode_width::UnicodeWidthStr::width(text)
}

/// One stretch of the hint banner.
pub struct Segment {
    pub text: String,
    pub bold: bool,
}

/// The texts and weights of a list of segments, in order.
pub open spec fn stretches(segments: Seq<Segment>) -> Seq<(Seq<char>, bool)> {
    Seq::new(segments.len(), |i: int| (segments[i].text@, segments[i].bold))
}

/// The banner of a mode: which keys do what, the keys' names in bold.
pub open spec fn hint_of(mode: Mode) -> Seq<(Seq<char>, bool)> {
    match mode {
        Mode::Browsing => seq![
            ("Press: "@, false),
            ("q"@, true),
            (" to exit, "@, false),
            ("e"@, true),
            (" to start editing. "@, false),
        ],
        Mode::Composing => seq![
            ("Press "@, false),
            ("Esc"@, true),
            (" to stop editing. "@, false),
            ("Enter"@, true),
            (" to record the message"@, false),
        ],
    }
}

/// The column of the cursor in a box whose left border stands in column
/// `left`, for a buffer of the given displayed width: one past the border
/// and the text. There is a cursor only while composing, and only where the
/// column is one that a terminal can have.
pub open spec fn cursor_at(mode: Mode, left: u16, width: nat) -> Option<u16> {
    if mode == Mode::Composing && left + width + 1 <= u16::MAX {
        Some((left + width + 1) as u16)
    } else {
        None
    }
}

/// The decimal digit of a number below ten.
pub open spec fn digit_of(d: nat) -> char {
    if d == 0 {
        '0'
    } else if d == 1 {
        '1'
    } else if d == 2 {
        '2'
    } else if d == 3 {
        '3'
    } else if d == 4 {
        '4'
    } else if d == 5 {
        '5'
    } else if d == 6 {
        '6'
    } else if d == 7 {
        '7'
    } else if d == 8 {
        '8'
    } else {
        '9'
    }
}

/// A number in decimal, without leading zeros.
pub open spec fn decimal_text(n: nat) -> Seq<char>
    decreases n,
{
    if n < 10 {
        seq![digit_of(n)]
    } else {
        decimal_text(n / 10).push(digit_of(n % 10))
    }
}

/// A log entry as it is listed: its index, a colon, a space, the entry.
pub open spec fn numbered_text(index: nat, entry: Seq<char>) -> Seq<char> {
    decimal_text(index) + ": "@ + entry
}

/// A log as it is listed, oldest entry first.
pub open spec fn numbered(log: Seq<Seq<char>>) -> Seq<Seq<char>> {
    Seq::new(log.len(), |i: int| numbered_text(i as nat, log[i]))
}

/// Builds the banner of a mode.
pub fn hint(mode: Mode) -> (h: Vec<Segment>)
    ensures
        stretches(h@) == hint_of(mode),
{
    let mut h: Vec<Segment> = Vec::new();
    match mode {
        Mode::Browsing => {
            h.push(Segment { text: String::from_str("Press: "), bold: false });
            h.push(Segment { text: String::from_str("q"), bold: true });
            h.push(Segment { text: String::from_str(" to exit, "), bold: false });
            h.push(Segment { text: String::from_str("e"), bold: true });
            h.push(Segment { text: String::from_str(" to start editing. "), bold: false });
        },
        Mode::Composing => {
            h.push(Segment { text: String::from_str("Press "), bold: false });
            h.push(Segment { text: String::from_str("Esc"), bold: true });
            h.push(Segment { text: String::from_str(" to stop editing. "), bold: false });
            h.push(Segment { text: String::from_str("Enter"), bold: true });
            h.push(Segment { text: String::from_str(" to record the message"), bold: false });
        },
    }
    h
}

/// Places the cursor for a buffer whose displayed width is known.
pub fn place_cursor(mode: Mode, left: u16, width: usize) -> (column: Option<u16>)
    ensures
        column == cursor_at(mode, left, width as nat),
{
    match mode {
        Mode::Browsing => None,
        Mode::Composing => {
            let room: u16 = u16::MAX - left;
            if room >= 1 && width <= (room - 1) as usize {
                Some(left + width as u16 + 1)
            } else {
                None
            }
        },
    }
}

/// The column of the cursor for the session's buffer, in a box whose left
/// border stands in column `left`.
pub fn cursor_column(session: &Session, left: u16) -> (column: Option<u16>)
    ensures
        column == cursor_at(session@.mode, left, display_width(session@.buffer)),
{
    let width = measure(session.buffer().as_str());
    place_cursor(session.mode(), left, width)
}

/// The character of a decimal digit.
pub fn digit(d: usize) -> (c: char)
    requires
        d < 10,
    ensures
        c == digit_of(d as nat),
{
    if d == 0 {
        '0'
    } else if d == 1 {
        '1'
    } else if d == 2 {
        '2'
    } else if d == 3 {
        '3'
    } else if d == 4 {
        '4'
    } else if d == 5 {
        '5'
    } else if d == 6 {
        '6'
    } else if d == 7 {
        '7'
    } else if d == 8 {
        '8'
    } else {
        '9'
    }
}

/// Writes a number in decimal.
pub fn decimal(n: usize) -> (text: String)
    ensures
        text@ == decimal_text(n as nat),
    decreases n,
{
    if n < 10 {
        let mut text = String::new();
        text.push(digit(n));
        text
    } else {
        let mut text = decimal(n / 10);
        text.push(digit(n % 10));
        text
    }
}

/// Writes a log entry as it is listed.
pub fn numbered_entry(index: usize, entry: &str) -> (text: String)
    ensures
        text@ == numbered_text(index as nat, entry@),
{
    decimal(index).concat(": ").concat(entry)
}

/// Lists the session's log: every entry behind its index, oldest first.
pub fn numbered_log(session: &Session) -> (list: Vec<String>)
    ensures
        texts(list@) == numbered(session@.log),
{
    let log = session.log();
    let mut list: Vec<String> = Vec::new();
    let mut i: usize = 0;
    while i < log.len()
        invariant
            i <= log.len(),
            texts(log@) == session@.log,
            list@.len() == i,
            forall|j: int| 0 <= j < i ==> list@[j]@ == numbered_text(j as nat, log@[j]@),
        decreases log.len() - i,
    {
        list.push(numbered_entry(i, log[i].as_str()));
        i += 1;
    }
    list
}

} // verus!
