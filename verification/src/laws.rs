//! Laws of the console, proved over the model that the session's contracts
//! speak of.

use vstd::prelude::*;
use crate::phrases::{
    activation_phrase, activation_suffix, amount_prompt, clear_phrase, command_of, diagnostic,
    dose_prompt, reply_text, result_sentence, splash_phrase, splash_rows, Command,
};
use crate::session::{dispatched, division_of, pressed, Division, Key, Mode, SessionView};

verus! {

/// The state after a run of key presses, first key first.
pub open spec fn pressed_all(s: SessionView, keys: Seq<Key>) -> SessionView
    decreases keys.len(),
{
    if keys.len() == 0 {
        s
    } else {
        pressed(pressed_all(s, keys.drop_last()), keys.last())
    }
}

/// Whether every key of a run is a character key or the delete key.
pub open spec fn only_edits(keys: Seq<Key>) -> bool {
    forall|i: int| 0 <= i < keys.len() ==> keys[i] is Char || keys[i] is Backspace
}

/// A text after a run of edits, taken as a stack of characters: a character
/// key pushes, the delete key pops, and a pop on the empty stack does
/// nothing.
pub open spec fn stacked(text: Seq<char>, keys: Seq<Key>) -> Seq<char>
    decreases keys.len(),
{
    if keys.len() == 0 {
        text
    } else {
        let before = stacked(text, keys.drop_last());
        match keys.last() {
            Key::Char(c) => before.push(c),
            Key::Backspace => if before.len() > 0 {
                before.drop_last()
            } else {
                before
            },
            _ => before,
        }
    }
}

/// Whether every key of a run is a character key.
pub open spec fn all_characters(keys: Seq<Key>) -> bool {
    forall|i: int| 0 <= i < keys.len() ==> keys[i] is Char
}

/// The characters of the character keys of a run, in order.
pub open spec fn typed_text(keys: Seq<Key>) -> Seq<char>
    decreases keys.len(),
{
    if keys.len() == 0 {
        Seq::empty()
    } else {
        match keys.last() {
            Key::Char(c) => typed_text(keys.drop_last()).push(c),
            _ => typed_text(keys.drop_last()),
        }
    }
}

/// A run of `n` presses of the delete key.
pub open spec fn deleting(n: nat) -> Seq<Key> {
    Seq::new(n, |i: int| Key::Backspace)
}

/// A text without its last `n` characters, or empty where it has no more
/// than `n`.
pub open spec fn shortened(text: Seq<char>, n: nat) -> Seq<char> {
    if n >= text.len() {
        Seq::empty()
    } else {
        text.take(text.len() - n)
    }
}

/// The three command phrases are three different lines.
pub proof fn phrases_differ()
    ensures
        command_of(activation_phrase()) == Command::Activate,
        command_of(clear_phrase()) == Command::Clear,
        command_of(splash_phrase()) == Command::Splash,
{
    reveal_strlit("ADI-calc");
    reveal_strlit("clear");
    reveal_strlit("neofetch");
    assert(activation_phrase()[0] == 'A');
    assert(splash_phrase()[0] == 'n');
}

/// While composing, a run of character and delete keys, in any order, works
/// on the buffer as on a stack and changes nothing else.
pub proof fn editing_is_stack_like(s: SessionView, keys: Seq<Key>)
    requires
        s.mode == Mode::Composing,
        only_edits(keys),
    ensures
        pressed_all(s, keys) == (SessionView { buffer: stacked(s.buffer, keys), ..s }),
    decreases keys.len(),
{
    if keys.len() > 0 {
        editing_is_stack_like(s, keys.drop_last());
    }
}

/// While composing, a run of character keys appends its characters to
/// the buffer and changes nothing else.
pub proof fn typing_appends(s: SessionView, typed: Seq<Key>)
    requires
        s.mode == Mode::Composing,
        all_characters(typed),
    ensures
        pressed_all(s, typed) == (SessionView { buffer: s.buffer + typed_text(typed), ..s }),
    decreases typed.len(),
{
    if typed.len() > 0 {
        typing_appends(s, typed.drop_last());
    }
}

/// While composing, character keys followed by delete keys work on the
/// buffer as pushes and pops on a stack: the typed characters are appended,
/// then one character leaves the end for each delete key until the buffer
/// is empty, and further delete keys do nothing.
pub proof fn typing_then_deleting(s: SessionView, typed: Seq<Key>, n: nat)
    requires
        s.mode == Mode::Composing,
        all_characters(typed),
    ensures
        pressed_all(s, typed + deleting(n)) == (SessionView {
            buffer: shortened(s.buffer + typed_text(typed), n),
            ..s
        }),
    decreases n,
{
    let keys = typed + deleting(n);
    let full = s.buffer + typed_text(typed);
    if n == 0 {
        typing_appends(s, typed);
        assert(shortened(full, 0) =~= full);
    } else {
        typing_then_deleting(s, typed, (n - 1) as nat);
        assert(keys.drop_last() =~= typed + deleting((n - 1) as nat));
        let before = shortened(full, (n - 1) as nat);
        if before.len() > 0 {
            assert(before.drop_last() =~= shortened(full, n));
        }
    }
}

/// Committing the activation phrase switches the wizard on and leaves its
/// step and the parameters as they are, in every state, also where the
/// wizard is on already. The log gains one entry: the phrase with the first
/// prompt behind it.
pub proof fn activation_arms_wizard(s: SessionView, reading: Option<u32>, quotient: Seq<char>)
    ensures
        ({
            let t = dispatched(s, activation_phrase(), reading, quotient);
            &&& t.wizard_active
            &&& t.wizard_step == s.wizard_step
            &&& t.parameters == s.parameters
            &&& t.log == s.log.push(activation_phrase() + activation_suffix())
            &&& t.mode == s.mode
            &&& t.buffer == s.buffer
        }),
{
}

/// Three lines that are read as numbers, committed while the wizard is on,
/// leave the wizard off and its step at 0, and exactly one of the three
/// commits reports a division. Where the wizard waited for its first answer,
/// the three numbers fill the first three parameters, the division is that
/// of the three numbers, and the log gains the two prompts and the result
/// sentence, each before the line that it answers.
pub proof fn three_answers_finish(
    s: SessionView,
    lines: (Seq<char>, Seq<char>, Seq<char>),
    numbers: (u32, u32, u32),
    quotients: (Seq<char>, Seq<char>, Seq<char>),
)
    requires
        s.valid(),
        s.wizard_active,
        command_of(lines.0) == Command::Text,
        command_of(lines.1) == Command::Text,
        command_of(lines.2) == Command::Text,
    ensures
        ({
            let s1 = dispatched(s, lines.0, Some(numbers.0), quotients.0);
            let s2 = dispatched(s1, lines.1, Some(numbers.1), quotients.1);
            let s3 = dispatched(s2, lines.2, Some(numbers.2), quotients.2);
            let d1 = division_of(s, lines.0, Some(numbers.0));
            let d2 = division_of(s1, lines.1, Some(numbers.1));
            let d3 = division_of(s2, lines.2, Some(numbers.2));
            &&& !s3.wizard_active
            &&& s3.wizard_step == 0
            &&& s3.valid()
            &&& (if d1 is Some { 1int } else { 0 }) + (if d2 is Some { 1int } else { 0 }) + (if d3 is Some {
                1int
            } else {
                0
            }) == 1
            &&& s.wizard_step == 0 ==> {
                &&& s1.wizard_active && s1.wizard_step == 1
                &&& s2.wizard_active && s2.wizard_step == 2
                &&& s3.parameters == seq![numbers.0, numbers.1, numbers.2, s.parameters[3]]
                &&& d3 == Some(
                    Division { weight: numbers.0, max_dose: numbers.1, per_item: numbers.2 },
                )
                &&& s3.log == s.log + seq![
                    dose_prompt(),
                    lines.0,
                    amount_prompt(),
                    lines.1,
                    result_sentence(quotients.2),
                    lines.2,
                ]
            }
        }),
{
}

/// Committing the clear phrase drops every earlier entry of the log, in
/// every state: what is left is the wizard's reply, where the wizard was on,
/// and the phrase itself.
pub proof fn clear_drops_earlier_entries(s: SessionView, reading: Option<u32>, quotient: Seq<char>)
    ensures
        dispatched(s, clear_phrase(), reading, quotient).log == if s.wizard_active {
            seq![reply_text(s.wizard_step, quotient), clear_phrase()]
        } else {
            seq![clear_phrase()]
        },
{
    phrases_differ();
}

/// Committing the clear phrase while the wizard is off leaves the wizard,
/// its step and the parameters as they are.
pub proof fn clear_keeps_idle_wizard(s: SessionView, reading: Option<u32>, quotient: Seq<char>)
    requires
        !s.wizard_active,
    ensures
        ({
            let t = dispatched(s, clear_phrase(), reading, quotient);
            &&& t.wizard_active == s.wizard_active
            &&& t.wizard_step == s.wizard_step
            &&& t.parameters == s.parameters
            &&& t.mode == s.mode
            &&& t.buffer == s.buffer
        }),
{
    phrases_differ();
}

/// The clear phrase does to the wizard what any other line does that is no
/// number and no activation: nothing of the wizard's state depends on the
/// line being the clear phrase.
pub proof fn clear_is_no_wizard_command(
    s: SessionView,
    other: Seq<char>,
    reading: Option<u32>,
    quotient: Seq<char>,
)
    requires
        command_of(other) != Command::Activate,
    ensures
        ({
            let t = dispatched(s, clear_phrase(), reading, quotient);
            let u = dispatched(s, other, reading, quotient);
            &&& t.wizard_active == u.wizard_active
            &&& t.wizard_step == u.wizard_step
            &&& t.parameters == u.parameters
        }),
{
    phrases_differ();
}

/// An answer that is no number leaves every parameter as it is and still
/// moves the wizard to the next step of its cycle. Unless the line is the
/// clear phrase, the log keeps its entries and gains the diagnostic right
/// behind them; for a line that is no command it gains the diagnostic, the
/// wizard's reply and the line, in this order.
pub proof fn unread_answer_advances(s: SessionView, line: Seq<char>, quotient: Seq<char>)
    requires
        s.valid(),
        s.wizard_active,
        command_of(line) != Command::Activate,
    ensures
        ({
            let t = dispatched(s, line, None, quotient);
            &&& t.parameters == s.parameters
            &&& t.wizard_step == (s.wizard_step + 1) % 3
            &&& t.wizard_active == (s.wizard_step < 2)
            &&& command_of(line) != Command::Clear ==> t.log.len() > s.log.len() + 1 && t.log.take(
                s.log.len() + 1int,
            ) == s.log.push(diagnostic())
            &&& command_of(line) == Command::Text ==> t.log == s.log + seq![
                diagnostic(),
                reply_text(s.wizard_step, quotient),
                line,
            ]
        }),
{
}

/// Committing the splash phrase appends the decorative block, its rows in
/// their order, in every state. Before the block stands the diagnostic, where
/// the wizard was on and the line was not read as a number; behind it the
/// wizard's reply, where the wizard was on, and then the phrase itself.
pub proof fn splash_appends_block(s: SessionView, reading: Option<u32>, quotient: Seq<char>)
    ensures
        splash_rows().len() == 19,
        ({
            let t = dispatched(s, splash_phrase(), reading, quotient);
            let noted = if s.wizard_active && reading is None {
                s.log.push(diagnostic())
            } else {
                s.log
            };
            let tail = if s.wizard_active {
                seq![reply_text(s.wizard_step, quotient), splash_phrase()]
            } else {
                seq![splash_phrase()]
            };
            t.log == noted + splash_rows() + tail
        }),
{
    phrases_differ();
}

/// A line that is no command, committed while the wizard is off, is
/// logged and changes nothing else.
pub proof fn inert_text_is_only_logged(
    s: SessionView,
    line: Seq<char>,
    reading: Option<u32>,
    quotient: Seq<char>,
)
    requires
        !s.wizard_active,
        command_of(line) == Command::Text,
    ensures
        dispatched(s, line, reading, quotient) == (SessionView { log: s.log.push(line), ..s }),
{
}

/// Every committed line ends up as the last entry of the log, the
/// activation phrase with the first prompt behind it; the wizard's reply to
/// an answer stands right before the line.
pub proof fn line_is_logged_last(
    s: SessionView,
    line: Seq<char>,
    reading: Option<u32>,
    quotient: Seq<char>,
)
    ensures
        ({
            let log = dispatched(s, line, reading, quotient).log;
            &&& log.len() >= 1
            &&& log.last() == if command_of(line) == Command::Activate {
                line + activation_suffix()
            } else {
                line
            }
            &&& s.answers(line) ==> log.len() >= 2 && log[log.len() - 2] == reply_text(
                s.wizard_step,
                quotient,
            )
        }),
{
}

/// Unless the line is the clear phrase, a dispatch only appends to the log:
/// the entries that were there stay, in their places.
pub proof fn log_only_grows(
    s: SessionView,
    line: Seq<char>,
    reading: Option<u32>,
    quotient: Seq<char>,
)
    requires
        command_of(line) != Command::Clear,
    ensures
        ({
            let log = dispatched(s, line, reading, quotient).log;
            &&& log.len() > s.log.len()
            &&& log.take(s.log.len() as int) == s.log
        }),
{
}

/// A dispatch keeps a valid state valid.
pub proof fn dispatch_keeps_valid(
    s: SessionView,
    line: Seq<char>,
    reading: Option<u32>,
    quotient: Seq<char>,
)
    requires
        s.valid(),
    ensures
        dispatched(s, line, reading, quotient).valid(),
{
}

} // verus!
