//! The session: its state, the key handling and the dispatch of committed
//! lines.

use vstd::prelude::*;
use vstd::string::*;
use crate::phrases::{
    activation_suffix, classify, command_of, diagnostic, push_entry, push_splash, reply,
    reply_text, splash_rows, texts, Command,
};

verus! {

/// Which keys edit text and which steer the console.
#[derive(Clone, Copy, Debug, PartialEq, Eq, Structural)]
pub enum Mode {
    /// Keys steer the console.
    Browsing,
    /// Keys edit the line.
    Composing,
}

/// One key press.
#[derive(Clone, Copy, Debug, PartialEq, Eq, Structural)]
pub enum Key {
    /// A character key.
    Char(char),
    /// The key that commits the line.
    Enter,
    /// The key that deletes the last character.
    Backspace,
    /// The key that leaves composing.
    Esc,
    /// Any other key.
    Other,
}

/// What the caller has to do after a key press.
#[derive(Clone, Copy, Debug, PartialEq, Eq, Structural)]
pub enum Signal {
    /// Nothing: go on with the next key.
    Idle,
    /// End the session.
    Quit,
    /// Commit the line that stands in the buffer.
    Commit,
}

/// The three numbers of a finished wizard, as bit patterns of
/// single-precision values: their product over the third is what the result
/// sentence reports.
#[derive(Clone, Copy, Debug, PartialEq, Eq, Structural)]
pub struct Division {
    pub weight: u32,
    pub max_dose: u32,
    pub per_item: u32,
}

/// The console's state.
pub struct Session {
    mode: Mode,
    buffer: String,
    log: Vec<String>,
    wizard_active: bool,
    wizard_step: usize,
    parameters: [u32; 4],
}

/// The mathematical value of a session.
pub struct SessionView {
    pub mode: Mode,
    pub buffer: Seq<char>,
    pub log: Seq<Seq<char>>,
    pub wizard_active: bool,
    pub wizard_step: nat,
    pub parameters: Seq<u32>,
}

impl SessionView {
    /// The state at startup.
    pub open spec fn initial() -> SessionView {
        SessionView {
            mode: Mode::Browsing,
            buffer: Seq::empty(),
            log: Seq::empty(),
            wizard_active: false,
            wizard_step: 0,
            parameters: seq![0u32, 0u32, 0u32, 0u32],
        }
    }

    /// The step stays in its cycle, rests at 0 while the wizard is off, and
    /// there are four parameter slots.
    pub open spec fn valid(self) -> bool {
        &&& self.wizard_step < 3
        &&& !self.wizard_active ==> self.wizard_step == 0
        &&& self.parameters.len() == 4
    }

    /// Whether a committed line is an answer to the wizard.
    pub open spec fn answers(self, line: Seq<char>) -> bool {
        self.wizard_active && command_of(line) != Command::Activate
    }

    /// The step that follows `self.wizard_step` in the cycle 0, 1, 2.
    pub open spec fn next_step(self) -> nat {
        if self.wizard_step + 1 >= 3 {
            0
        } else {
            self.wizard_step + 1
        }
    }
}

/// The state after one key press.
pub open spec fn pressed(s: SessionView, key: Key) -> SessionView {
    match s.mode {
        Mode::Browsing => if key == Key::Char('e') {
            SessionView { mode: Mode::Composing, ..s }
        } else {
            s
        },
        Mode::Composing => match key {
            Key::Char(c) => SessionView { buffer: s.buffer.push(c), ..s },
            Key::Backspace => if s.buffer.len() > 0 {
                SessionView { buffer: s.buffer.drop_last(), ..s }
            } else {
                s
            },
            Key::Esc => SessionView { mode: Mode::Browsing, ..s },
            Key::Enter => s,
            Key::Other => s,
        },
    }
}

/// What a key press asks of the caller.
pub open spec fn signal_of(s: SessionView, key: Key) -> Signal {
    if s.mode == Mode::Browsing && key == Key::Char('q') {
        Signal::Quit
    } else if s.mode == Mode::Composing && key == Key::Enter {
        Signal::Commit
    } else {
        Signal::Idle
    }
}

/// The parameters after a committed line: an answer that was read as a
/// number goes to the slot of the current step.
pub open spec fn stored(s: SessionView, line: Seq<char>, reading: Option<u32>) -> Seq<u32> {
    match reading {
        Some(bits) if s.answers(line) => s.parameters.update(s.wizard_step as int, bits),
        _ => s.parameters,
    }
}

/// The log after a committed line. In order: the diagnostic for an answer
/// that is no number; the clearing; the decorative block; the wizard's
/// reply; the line itself, which for the activation phrase carries the
/// first prompt.
pub open spec fn logged(
    s: SessionView,
    line: Seq<char>,
    reading: Option<u32>,
    quotient: Seq<char>,
) -> Seq<Seq<char>> {
    let command = command_of(line);
    let noted = if s.answers(line) && reading is None {
        s.log.push(diagnostic())
    } else {
        s.log
    };
    let cleared = if command == Command::Clear {
        Seq::empty()
    } else {
        noted
    };
    let decorated = if command == Command::Splash {
        cleared + splash_rows()
    } else {
        cleared
    };
    let replied = if s.answers(line) {
        decorated.push(reply_text(s.wizard_step, quotient))
    } else {
        decorated
    };
    if command == Command::Activate {
        replied.push(line + activation_suffix())
    } else {
        replied.push(line)
    }
}

/// The state after the dispatch of one committed line. `reading` is the
/// number that the trimmed line was read as, if it is one; `quotient` is the
/// rendered quotient, which counts only where `division_of` is `Some`.
pub open spec fn dispatched(
    s: SessionView,
    line: Seq<char>,
    reading: Option<u32>,
    quotient: Seq<char>,
) -> SessionView {
    SessionView {
        mode: s.mode,
        buffer: s.buffer,
        log: logged(s, line, reading, quotient),
        wizard_active: if command_of(line) == Command::Activate {
            true
        } else if s.answers(line) && s.wizard_step >= 2 {
            false
        } else {
            s.wizard_active
        },
        wizard_step: if s.answers(line) {
            s.next_step()
        } else {
            s.wizard_step
        },
        parameters: stored(s, line, reading),
    }
}

/// The division that the dispatch of a line reports, if it reports one: the
/// line is the answer to the last step.
pub open spec fn division_of(s: SessionView, line: Seq<char>, reading: Option<u32>) -> Option<
    Division,
> {
    if s.answers(line) && s.wizard_step >= 2 {
        let p = stored(s, line, reading);
        Some(Division { weight: p[0], max_dose: p[1], per_item: p[2] })
    } else {
        None
    }
}

/// The state after the line in the buffer is committed.
pub open spec fn committed(s: SessionView, reading: Option<u32>, quotient: Seq<char>) -> SessionView {
    dispatched(SessionView { buffer: Seq::empty(), ..s }, s.buffer, reading, quotient)
}

impl View for Session {
    type V = SessionView;

    closed spec fn view(&self) -> SessionView {
        SessionView {
            mode: self.mode,
            buffer: self.buffer@,
            log: texts(self.log@),
            wizard_active: self.wizard_active,
            wizard_step: self.wizard_step as nat,
            parameters: self.parameters@,
        }
    }
}

impl Default for Session {
    /// The session at startup.
    fn default() -> (s: Session)
        ensures
            s.wf(),
            s@ == SessionView::initial(),
    {
        Session::new()
    }
}

impl Session {
    /// Whether the session is in a state that the console can reach.
    pub open spec fn wf(&self) -> bool {
        self@.valid()
    }

    /// The session at startup: browsing, nothing typed, nothing logged, the
    /// wizard off, every parameter zero.
    pub fn new() -> (s: Session)
        ensures
            s.wf(),
            s@ == SessionView::initial(),
    {
        let s = Session {
            mode: Mode::Browsing,
            buffer: String::new(),
            log: Vec::new(),
            wizard_active: false,
            wizard_step: 0,
            parameters: [0u32, 0u32, 0u32, 0u32],
        };
        assert(texts(s.log@) =~= Seq::empty());
        s
    }

    /// The current mode.
    pub fn mode(&self) -> (m: Mode)
        ensures
            m == self@.mode,
    {
        self.mode
    }

    /// The line being composed.
    pub fn buffer(&self) -> (b: &String)
        ensures
            b@ == self@.buffer,
    {
        &self.buffer
    }

    /// The log, oldest entry first.
    pub fn log(&self) -> (l: &Vec<String>)
        ensures
            texts(l@) == self@.log,
    {
        &self.log
    }

    /// Whether the wizard is waiting for an answer.
    pub fn wizard_active(&self) -> (a: bool)
        ensures
            a == self@.wizard_active,
    {
        self.wizard_active
    }

    /// The step whose answer the wizard takes next.
    pub fn wizard_step(&self) -> (k: usize)
        ensures
            k == self@.wizard_step,
    {
        self.wizard_step
    }

    /// The four parameter slots.
    pub fn parameters(&self) -> (p: [u32; 4])
        ensures
            p@ == self@.parameters,
    {
        self.parameters
    }

    /// Handles one key press. While browsing, `e` starts composing and `q`
    /// asks the caller to end the session. While composing, a character is
    /// appended to the buffer, the delete key removes its last character if
    /// there is one, the cancel key goes back to browsing and keeps the
    /// buffer, and the commit key asks the caller to commit. Every other key
    /// is ignored.
    pub fn press(&mut self, key: Key) -> (signal: Signal)
        ensures
            final(self)@ == pressed(old(self)@, key),
            signal == signal_of(old(self)@, key),
            old(self).wf() ==> final(self).wf(),
    {
        match self.mode {
            Mode::Browsing => match key {
                Key::Char(c) => {
                    if c == 'e' {
                        self.mode = Mode::Composing;
                        Signal::Idle
                    } else if c == 'q' {
                        Signal::Quit
                    } else {
                        Signal::Idle
                    }
                },
                _ => Signal::Idle,
            },
            Mode::Composing => match key {
                Key::Char(c) => {
                    self.buffer.push(c);
                    Signal::Idle
                },
                Key::Backspace => {
                    let _ = self.buffer.pop();
                    Signal::Idle
                },
                Key::Esc => {
                    self.mode = Mode::Browsing;
                    Signal::Idle
                },
                Key::Enter => Signal::Commit,
                Key::Other => Signal::Idle,
            },
        }
    }

    /// The division whose quotient the next commit reports, if it reports
    /// one: the caller renders it and hands the text to `commit`.
    pub fn division_due(&self, reading: Option<u32>) -> (d: Option<Division>)
        requires
            self.wf(),
        ensures
            d == division_of(self@, self@.buffer, reading),
    {
        if self.wizard_active && self.wizard_step >= 2 && classify(&self.buffer)
            != Command::Activate {
            let per_item = match reading {
                Some(bits) => bits,
                None => self.parameters[2],
            };
            Some(Division { weight: self.parameters[0], max_dose: self.parameters[1], per_item })
        } else {
            None
        }
    }

    /// Dispatches one committed line. The activation phrase switches the
    /// wizard on. Any other line, while the wizard is on, is an answer:
    /// `reading` goes to the parameter of the current step if it is a
    /// number, else a diagnostic is logged; the wizard replies with the next
    /// prompt or, at the last step, with the result sentence around
    /// `quotient`, and switches itself off; the step moves on in its cycle.
    /// The clear phrase then empties the log and the splash phrase appends
    /// the decorative block. Last come the wizard's reply and the line.
    ///
    /// The caller hands in `reading`, the number that the trimmed line reads
    /// as, and `quotient`, the rendered quotient of the division that
    /// `division_due` names for this line.
    pub fn dispatch(&mut self, line: String, reading: Option<u32>, quotient: &str)
        requires
            old(self).wf(),
        ensures
            final(self).wf(),
            final(self)@ == dispatched(old(self)@, line@, reading, quotient@),
    {
        let command = classify(&line);
        let answering = self.wizard_active && command != Command::Activate;
        let mut output: Option<String> = None;
        if answering {
            match reading {
                Some(bits) => {
                    self.parameters[self.wizard_step] = bits;
                },
                None => {
                    push_entry(&mut self.log, String::from_str("Not a number"));
                },
            }
            output = Some(reply(self.wizard_step, quotient));
            if self.wizard_step >= 2 {
                self.wizard_active = false;
            }
            self.wizard_step = if self.wizard_step + 1 >= 3 {
                0
            } else {
                self.wizard_step + 1
            };
        }
        if command == Command::Clear {
            self.log.clear();
        }
        if command == Command::Splash {
            push_splash(&mut self.log);
        }
        match output {
            Some(message) => push_entry(&mut self.log, message),
            None => {},
        }
        if command == Command::Activate {
            self.wizard_active = true;
            push_entry(&mut self.log, line.concat(" function started, input weight:"));
        } else {
            push_entry(&mut self.log, line);
        }
        assert(final(self)@.log =~= logged(old(self)@, line@, reading, quotient@));
    }

    /// Commits the line in the buffer: the line is dispatched and the buffer
    /// is left empty. The mode stays as it is.
    pub fn commit(&mut self, reading: Option<u32>, quotient: &str)
        requires
            old(self).wf(),
        ensures
            final(self).wf(),
            final(self)@ == committed(old(self)@, reading, quotient@),
            final(self)@.buffer.len() == 0,
    {
        let mut line = String::new();
        core::mem::swap(&mut self.buffer, &mut line);
        self.dispatch(line, reading, quotient);
    }
}

} // verus!
