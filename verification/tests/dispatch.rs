use adi_calc::phrases::{classify, push_entry, push_splash, reply, Command};
use adi_calc::session::{Division, Key, Mode, Session, Signal};

const SPLASH: [&str; 19] = [
    "                   -`                    snovaxz@archtop",
    "                  .o+`                   ---------------",
    "                 `ooo/                   OS: Arch Linux x86_64",
    "                `+oooo:                  Host: ThinkPad",
    "               `+oooooo:                 Kernel: 8.9.3-arch1-1",
    "               -+oooooo+:                Uptime: 40 hours, 57 mins",
    "             `/:-:++oooo+:               Packages: 12780 (pacman), 120 (flatpak)",
    "            `/++++/+++++++:              Shell: Totally",
    "           `/++++++++++++++:             Resolution: 25600x14400",
    "          `/+++ooooooooooooo/`           WM: sway",
    "         ./ooosssso++osssssso+`          Theme: Adwaita [GTK2/3]",
    "        .oossssso-````/ossssss+`         Icons: breeze-dark [GTK2/3]",
    "       -osssssso.      :ssssssso.        Terminal: It's complicated",
    "      :osssssss/        osssso+++.       Terminal Font: Inconsolata",
    "     /ossssssss/        +ssssooo/-       CPU: Intel i7-6600U (4) @ 30.400GHz",
    "   `/ossssso+/:-        -:/+osssso+-     GPU: Intel Skylake GT2 [HD Graphics]",
    "  `+sso+:-`                 `.-/+oso:    Memory: 2MiB / 118290GiB",
    " `++:.                           `-/+/",
    " .`                                 `/",
];

fn read_number(line: &str) -> Option<u32> {
    line.trim().parse::<f32>().ok().map(f32::to_bits)
}

fn bits(text: &str) -> u32 {
    read_number(text).unwrap()
}

fn render(d: Division) -> String {
    let total = f32::from_bits(d.weight) * f32::from_bits(d.max_dose);
    format!("{}", total / f32::from_bits(d.per_item))
}

/// Types a line and commits it, as the event loop does.
fn enter(session: &mut Session, line: &str) {
    if session.mode() == Mode::Browsing {
        session.press(Key::Char('e'));
    }
    for c in line.chars() {
        session.press(Key::Char(c));
    }
    assert_eq!(session.press(Key::Enter), Signal::Commit);
    let reading = read_number(session.buffer());
    let quotient = match session.division_due(reading) {
        Some(d) => render(d),
        None => String::new(),
    };
    session.commit(reading, &quotient);
    assert_eq!(session.buffer(), "");
}

fn log_of(session: &Session) -> Vec<&str> {
    session.log().iter().map(|s| s.as_str()).collect()
}

#[test]
fn classify_knows_the_three_phrases() {
    assert_eq!(classify(&"ADI-calc".to_string()), Command::Activate);
    assert_eq!(classify(&"clear".to_string()), Command::Clear);
    assert_eq!(classify(&"neofetch".to_string()), Command::Splash);
}

#[test]
fn classify_matches_whole_line_and_case() {
    for line in ["adi-calc", "ADI-calc ", " clear", "Clear", "neofetch!", "NEOFETCH", "", "70"] {
        assert_eq!(classify(&line.to_string()), Command::Text);
    }
}

#[test]
fn reply_by_step() {
    assert_eq!(reply(0, "9"), "input maximum dose");
    assert_eq!(reply(1, "9"), "input amount inside item");
    assert_eq!(reply(2, "1.4"), "Safe amount of these is 1.4");
}

#[test]
fn inert_text_is_only_logged() {
    let mut session = Session::new();
    enter(&mut session, "hello there");
    enter(&mut session, "42");
    assert_eq!(log_of(&session), vec!["hello there", "42"]);
    assert!(!session.wizard_active());
    assert_eq!(session.wizard_step(), 0);
    assert_eq!(session.parameters(), [0u32; 4]);
}

#[test]
fn empty_line_is_logged() {
    let mut session = Session::new();
    enter(&mut session, "");
    assert_eq!(log_of(&session), vec![""]);
}

#[test]
fn activation_starts_the_wizard() {
    let mut session = Session::new();
    enter(&mut session, "ADI-calc");
    assert!(session.wizard_active());
    assert_eq!(session.wizard_step(), 0);
    assert_eq!(session.parameters(), [0u32; 4]);
    assert_eq!(log_of(&session), vec!["ADI-calc function started, input weight:"]);
    assert_eq!(session.mode(), Mode::Composing);
}

#[test]
fn activation_while_active_keeps_step_and_parameters() {
    let mut session = Session::new();
    enter(&mut session, "ADI-calc");
    enter(&mut session, "70");
    assert_eq!(session.wizard_step(), 1);
    enter(&mut session, "ADI-calc");
    assert!(session.wizard_active());
    assert_eq!(session.wizard_step(), 1);
    assert_eq!(session.parameters(), [bits("70"), 0, 0, 0]);
    assert_eq!(
        log_of(&session),
        vec![
            "ADI-calc function started, input weight:",
            "input maximum dose",
            "70",
            "ADI-calc function started, input weight:",
        ]
    );
}

#[test]
fn three_numbers_finish_the_wizard() {
    let mut session = Session::new();
    enter(&mut session, "ADI-calc");
    enter(&mut session, "2");
    assert!(session.wizard_active());
    assert_eq!(session.wizard_step(), 1);
    enter(&mut session, "3");
    assert!(session.wizard_active());
    assert_eq!(session.wizard_step(), 2);
    enter(&mut session, "4");
    assert!(!session.wizard_active());
    assert_eq!(session.wizard_step(), 0);
    assert_eq!(session.parameters(), [bits("2"), bits("3"), bits("4"), 0]);
    let log = log_of(&session);
    assert_eq!(
        log,
        vec![
            "ADI-calc function started, input weight:",
            "input maximum dose",
            "2",
            "input amount inside item",
            "3",
            "Safe amount of these is 1.5",
            "4",
        ]
    );
    let results = log.iter().filter(|l| l.starts_with("Safe amount of these is ")).count();
    assert_eq!(results, 1);
}

#[test]
fn division_is_due_only_at_the_last_step() {
    let mut session = Session::new();
    assert_eq!(session.division_due(Some(bits("1"))), None);
    enter(&mut session, "ADI-calc");
    assert_eq!(session.division_due(Some(bits("1"))), None);
    enter(&mut session, "70");
    assert_eq!(session.division_due(Some(bits("1"))), None);
    enter(&mut session, "0.1");
    assert_eq!(
        session.division_due(Some(bits("5"))),
        Some(Division { weight: bits("70"), max_dose: bits("0.1"), per_item: bits("5") })
    );
    assert_eq!(
        session.division_due(None),
        Some(Division { weight: bits("70"), max_dose: bits("0.1"), per_item: 0 })
    );
    session.press(Key::Char('A'));
    session.press(Key::Char('D'));
    session.press(Key::Char('I'));
    session.press(Key::Char('-'));
    session.press(Key::Char('c'));
    session.press(Key::Char('a'));
    session.press(Key::Char('l'));
    session.press(Key::Char('c'));
    assert_eq!(session.division_due(None), None);
}

#[test]
fn end_to_end_transcript() {
    let mut session = Session::new();
    enter(&mut session, "ADI-calc");
    assert_eq!(log_of(&session).last().unwrap(), &"ADI-calc function started, input weight:");
    assert!(log_of(&session).last().unwrap().ends_with(" function started, input weight:"));
    enter(&mut session, "70");
    assert_eq!(log_of(&session)[1..], ["input maximum dose", "70"]);
    enter(&mut session, "0.1");
    assert_eq!(log_of(&session)[3..], ["input amount inside item", "0.1"]);
    enter(&mut session, "5");
    assert_eq!(log_of(&session)[5..], ["Safe amount of these is 1.4", "5"]);
    assert!(!session.wizard_active());
    assert_eq!(session.wizard_step(), 0);
}

#[test]
fn answers_are_trimmed_before_reading() {
    let mut session = Session::new();
    enter(&mut session, "ADI-calc");
    enter(&mut session, "  70 ");
    assert_eq!(session.parameters(), [bits("70"), 0, 0, 0]);
    assert_eq!(log_of(&session)[1..], ["input maximum dose", "  70 "]);
}

#[test]
fn division_by_zero_is_reported_as_unbounded() {
    let mut session = Session::new();
    enter(&mut session, "ADI-calc");
    enter(&mut session, "70");
    enter(&mut session, "0.1");
    enter(&mut session, "0");
    assert_eq!(log_of(&session)[5..], ["Safe amount of these is inf", "0"]);
    assert!(!session.wizard_active());
}

#[test]
fn unread_answer_logs_diagnostic_and_advances() {
    let mut session = Session::new();
    enter(&mut session, "ADI-calc");
    enter(&mut session, "seventy");
    assert!(session.wizard_active());
    assert_eq!(session.wizard_step(), 1);
    assert_eq!(session.parameters(), [0u32; 4]);
    assert_eq!(
        log_of(&session),
        vec![
            "ADI-calc function started, input weight:",
            "Not a number",
            "input maximum dose",
            "seventy",
        ]
    );
    enter(&mut session, "0.5");
    assert_eq!(session.wizard_step(), 2);
    assert_eq!(session.parameters(), [0, bits("0.5"), 0, 0]);
    enter(&mut session, "oops");
    assert!(!session.wizard_active());
    assert_eq!(session.wizard_step(), 0);
    assert_eq!(session.parameters(), [0, bits("0.5"), 0, 0]);
    assert_eq!(
        log_of(&session)[6..],
        ["Not a number", "Safe amount of these is NaN", "oops"]
    );
}

#[test]
fn unread_answer_keeps_an_earlier_value() {
    let mut session = Session::new();
    enter(&mut session, "ADI-calc");
    enter(&mut session, "1");
    enter(&mut session, "2");
    enter(&mut session, "4");
    enter(&mut session, "ADI-calc");
    enter(&mut session, "x");
    assert_eq!(session.parameters(), [bits("1"), bits("2"), bits("4"), 0]);
    assert_eq!(session.wizard_step(), 1);
}

#[test]
fn clear_empties_the_log_when_idle() {
    let mut session = Session::new();
    enter(&mut session, "one");
    enter(&mut session, "two");
    enter(&mut session, "clear");
    assert_eq!(log_of(&session), vec!["clear"]);
    assert!(!session.wizard_active());
    assert_eq!(session.wizard_step(), 0);
    assert_eq!(session.parameters(), [0u32; 4]);
}

#[test]
fn clear_in_the_middle_of_the_wizard() {
    let mut session = Session::new();
    enter(&mut session, "ADI-calc");
    enter(&mut session, "70");
    enter(&mut session, "clear");
    assert_eq!(log_of(&session), vec!["input amount inside item", "clear"]);
    assert!(session.wizard_active());
    assert_eq!(session.wizard_step(), 2);
    assert_eq!(session.parameters(), [bits("70"), 0, 0, 0]);
}

#[test]
fn clear_works_while_browsing() {
    let mut session = Session::new();
    enter(&mut session, "kept?");
    session.press(Key::Esc);
    assert_eq!(session.mode(), Mode::Browsing);
    session.dispatch("clear".to_string(), None, "");
    assert_eq!(log_of(&session), vec!["clear"]);
    assert_eq!(session.mode(), Mode::Browsing);
}

#[test]
fn splash_appends_the_block_when_idle() {
    let mut session = Session::new();
    enter(&mut session, "before");
    enter(&mut session, "neofetch");
    let log = log_of(&session);
    assert_eq!(log.len(), 21);
    assert_eq!(log[0], "before");
    assert_eq!(log[1..20], SPLASH);
    assert_eq!(log[20], "neofetch");
    assert!(!session.wizard_active());
}

#[test]
fn splash_appends_the_block_in_the_middle_of_the_wizard() {
    let mut session = Session::new();
    enter(&mut session, "ADI-calc");
    enter(&mut session, "neofetch");
    let log = log_of(&session);
    assert_eq!(log.len(), 23);
    assert_eq!(log[0], "ADI-calc function started, input weight:");
    assert_eq!(log[1], "Not a number");
    assert_eq!(log[2..21], SPLASH);
    assert_eq!(log[21], "input maximum dose");
    assert_eq!(log[22], "neofetch");
    assert!(session.wizard_active());
    assert_eq!(session.wizard_step(), 1);
}

#[test]
fn dispatch_leaves_the_buffer_alone() {
    let mut session = Session::new();
    session.press(Key::Char('e'));
    session.press(Key::Char('x'));
    session.dispatch("ADI-calc".to_string(), None, "");
    session.dispatch("12".to_string(), Some(bits("12")), "");
    assert_eq!(session.buffer(), "x");
    assert_eq!(session.parameters(), [bits("12"), 0, 0, 0]);
    assert_eq!(
        log_of(&session),
        vec!["ADI-calc function started, input weight:", "input maximum dose", "12"]
    );
}

#[test]
fn quotient_text_is_used_as_handed_in() {
    let mut session = Session::new();
    session.dispatch("ADI-calc".to_string(), None, "");
    session.dispatch("1".to_string(), Some(bits("1")), "ignored");
    session.dispatch("2".to_string(), Some(bits("2")), "ignored");
    session.dispatch("3".to_string(), Some(bits("3")), "0.6666667");
    assert_eq!(
        log_of(&session)[1..],
        [
            "input maximum dose",
            "1",
            "input amount inside item",
            "2",
            "Safe amount of these is 0.6666667",
            "3",
        ]
    );
}

#[test]
fn push_entry_appends_at_the_end() {
    let mut log = vec!["a".to_string()];
    push_entry(&mut log, "b".to_string());
    assert_eq!(log, vec!["a".to_string(), "b".to_string()]);
}

#[test]
fn push_splash_appends_nineteen_rows() {
    let mut log = vec!["kept".to_string()];
    push_splash(&mut log);
    assert_eq!(log.len(), 20);
    assert_eq!(log[0], "kept");
    assert_eq!(log[1..], SPLASH);
}
