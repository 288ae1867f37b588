//! The literal vocabulary of the console: the command phrases, the prompts
//! and the decorative block.

use vstd::prelude::*;
use vstd::string::*;

verus! {

/// What a committed line asks for.
#[derive(Clone, Copy, Debug, PartialEq, Eq, Structural)]
pub enum Command {
    /// The line starts the wizard.
    Activate,
    /// The line empties the log.
    Clear,
    /// The line asks for the decorative block.
    Splash,
    /// Any other line.
    Text,
}

pub open spec fn activation_phrase() -> Seq<char> {
    "ADI-calc"@
}

pub open spec fn activation_suffix() -> Seq<char> {
    " function started, input weight:"@
}

pub open spec fn clear_phrase() -> Seq<char> {
    "clear"@
}

pub open spec fn splash_phrase() -> Seq<char> {
    "neofetch"@
}

pub open spec fn diagnostic() -> Seq<char> {
    "Not a number"@
}

pub open spec fn dose_prompt() -> Seq<char> {
    "input maximum dose"@
}

pub open spec fn amount_prompt() -> Seq<char> {
    "input amount inside item"@
}

pub open spec fn result_prefix() -> Seq<char> {
    "Safe amount of these is "@
}

/// The sentence that reports a quotient already rendered as text.
pub open spec fn result_sentence(quotient: Seq<char>) -> Seq<char> {
    result_prefix() + quotient
}

/// The command that a line stands for: the whole line must match, case
/// included.
pub open spec fn command_of(line: Seq<char>) -> Command {
    if line == activation_phrase() {
        Command::Activate
    } else if line == clear_phrase() {
        Command::Clear
    } else if line == splash_phrase() {
        Command::Splash
    } else {
        Command::Text
    }
}

/// What the wizard says after it has taken the answer to `step`.
pub open spec fn reply_text(step: nat, quotient: Seq<char>) -> Seq<char> {
    if step == 0 {
        dose_prompt()
    } else if step == 1 {
        amount_prompt()
    } else {
        result_sentence(quotient)
    }
}

/// The decorative block, one entry per row.
pub open spec fn splash_rows() -> Seq<Seq<char>> {
    seq![
        "                   -`                    snovaxz@archtop"@,
        "                  .o+`                   ---------------"@,
        "                 `ooo/                   OS: Arch Linux x86_64"@,
        "                `+oooo:                  Host: ThinkPad"@,
        "               `+oooooo:                 Kernel: 8.9.3-arch1-1"@,
        "               -+oooooo+:                Uptime: 40 hours, 57 mins"@,
        "             `/:-:++oooo+:               Packages: 12780 (pacman), 120 (flatpak)"@,
        "            `/++++/+++++++:              Shell: Totally"@,
        "           `/++++++++++++++:             Resolution: 25600x14400"@,
        "          `/+++ooooooooooooo/`           WM: sway"@,
        "         ./ooosssso++osssssso+`          Theme: Adwaita [GTK2/3]"@,
        "        .oossssso-````/ossssss+`         Icons: breeze-dark [GTK2/3]"@,
        "       -osssssso.      :ssssssso.        Terminal: It's complicated"@,
        "      :osssssss/        osssso+++.       Terminal Font: Inconsolata"@,
        "     /ossssssss/        +ssssooo/-       CPU: Intel i7-6600U (4) @ 30.400GHz"@,
        "   `/ossssso+/:-        -:/+osssso+-     GPU: Intel Skylake GT2 [HD Graphics]"@,
        "  `+sso+:-`                 `.-/+oso:    Memory: 2MiB / 118290GiB"@,
        " `++:.                           `-/+/"@,
        " .`                                 `/"@,
    ]
}

/// The texts of a list of strings, in order.
pub open spec fn texts(entries: Seq<String>) -> Seq<Seq<char>> {
    entries.map_values(|s: String| s@)
}

/// Tells which command a line is.
pub fn classify(line: &String) -> (c: Command)
    ensures
        c == command_of(line@),
{
    if *line == String::from_str("ADI-calc") {
        Command::Activate
    } else if *line == String::from_str("clear") {
        Command::Clear
    } else if *line == String::from_str("neofetch") {
        Command::Splash
    } else {
        Command::Text
    }
}

/// Appends one entry to a log.
pub fn push_entry(log: &mut Vec<String>, entry: String)
    ensures
        texts(final(log)@) == texts(old(log)@).push(entry@),
{
    log.push(entry);
}

/// Builds what the wizard says after it has taken the answer to `step`.
pub fn reply(step: usize, quotient: &str) -> (r: String)
    ensures
        r@ == reply_text(step as nat, quotient@),
{
    if step == 0 {
        String::from_str("input maximum dose")
    } else if step == 1 {
        String::from_str("input amount inside item")
    } else {
        String::from_str("Safe amount of these is ").concat(quotient)
    }
}

/// Appends the decorative block to a log.
pub fn push_splash(log: &mut Vec<String>)
    ensures
        texts(final(log)@) == texts(old(log)@) + splash_rows(),
{
    push_entry(log, String::from_str("                   -`                    snovaxz@archtop"));
    push_entry(log, String::from_str("                  .o+`                   ---------------"));
    push_entry(log, String::from_str("                 `ooo/                   OS: Arch Linux x86_64"));
    push_entry(log, String::from_str("                `+oooo:                  Host: ThinkPad"));
    push_entry(log, String::from_str("               `+oooooo:                 Kernel: 8.9.3-arch1-1"));
    push_entry(log, String::from_str("               -+oooooo+:                Uptime: 40 hours, 57 mins"));
    push_entry(log, String::from_str("             `/:-:++oooo+:               Packages: 12780 (pacman), 120 (flatpak)"));
    push_entry(log, String::from_str("            `/++++/+++++++:              Shell: Totally"));
    push_entry(log, String::from_str("           `/++++++++++++++:             Resolution: 25600x14400"));
    push_entry(log, String::from_str("          `/+++ooooooooooooo/`           WM: sway"));
    push_entry(log, String::from_str("         ./ooosssso++osssssso+`          Theme: Adwaita [GTK2/3]"));
    push_entry(log, String::from_str("        .oossssso-````/ossssss+`         Icons: breeze-dark [GTK2/3]"));
    push_entry(log, String::from_str("       -osssssso.      :ssssssso.        Terminal: It's complicated"));
    push_entry(log, String::from_str("      :osssssss/        osssso+++.       Terminal Font: Inconsolata"));
    push_entry(log, String::from_str("     /ossssssss/        +ssssooo/-       CPU: Intel i7-6600U (4) @ 30.400GHz"));
    push_entry(log, String::from_str("   `/ossssso+/:-        -:/+osssso+-     GPU: Intel Skylake GT2 [HD Graphics]"));
    push_entry(log, String::from_str("  `+sso+:-`                 `.-/+oso:    Memory: 2MiB / 118290GiB"));
    push_entry(log, String::from_str(" `++:.                           `-/+/"));
    push_entry(log, String::from_str(" .`                                 `/"));
}

} // verus!
