use vstd::prelude::*;

verus! {

/// The Unicode `White_Space` property: the characters that `str::trim`
/// removes from both ends of a string.
pub open spec fn is_white_space(c: char) -> bool {
    ('\u{9}' <= c && c <= '\u{d}') || c == ' ' || c == '\u{85}' || c == '\u{a0}' || c
        == '\u{1680}' || ('\u{2000}' <= c && c <= '\u{200a}') || c == '\u{2028}' || c
        == '\u{2029}' || c == '\u{202f}' || c == '\u{205f}' || c == '\u{3000}'
}

/// `s` without its leading white space.
pub open spec fn trim_start_of(s: Seq<char>) -> Seq<char>
    decreases s.len(),
{
    if s.len() > 0 && is_white_space(s[0]) {
        trim_start_of(s.drop_first())
    } else {
        s
    }
}

/// `s` without its trailing white space.
pub open spec fn trim_end_of(s: Seq<char>) -> Seq<char>
    decreases s.len(),
{
    if s.len() > 0 && is_white_space(s.last()) {
        trim_end_of(s.drop_last())
    } else {
        s
    }
}

/// `s` without white space at either end.
pub open spec fn trimmed(s: Seq<char>) -> Seq<char> {
    trim_end_of(trim_start_of(s))
}

/// Relies on `str::trim`: it removes leading and trailing characters that
/// have the Unicode `White_Space` property, and nothing else.
#[verifier::external_body]
fn trim(s: &str) -> (r: &str)
    ensures
        r@ == trimmed(s@),
{
    s.trim()
}

/// A console command, after trimming.
#[derive(Debug, PartialEq, Eq)]
pub enum Command {
    /// `Q`: end the main loop.
    Quit,
    /// `H`: send the greeting.
    Greet,
    /// `D`: shut the connection down in both directions.
    Disconnect,
    /// `S`: read one more line from the console and send it.
    SendCustom,
    /// Anything else, with the trimmed text.
    Unrecognized(String),
}

/// What a command is in the model: the trimmed text of an unrecognized one.
pub enum CommandView {
    Quit,
    Greet,
    Disconnect,
    SendCustom,
    Unrecognized(Seq<char>),
}

impl View for Command {
    type V = CommandView;

    open spec fn view(&self) -> CommandView {
        match self {
            Command::Quit => CommandView::Quit,
            Command::Greet => CommandView::Greet,
            Command::Disconnect => CommandView::Disconnect,
            Command::SendCustom => CommandView::SendCustom,
            Command::Unrecognized(s) => CommandView::Unrecognized(s@),
        }
    }
}

/// The command that trimmed text `t` names: one of the four single-character,
/// case-sensitive codes, or unrecognized.
pub open spec fn command_of_trimmed(t: Seq<char>) -> CommandView {
    if t == seq!['Q'] {
        CommandView::Quit
    } else if t == seq!['H'] {
        CommandView::Greet
    } else if t == seq!['D'] {
        CommandView::Disconnect
    } else if t == seq!['S'] {
        CommandView::SendCustom
    } else {
        CommandView::Unrecognized(t)
    }
}

/// The command that console input `s` names once trimmed.
pub open spec fn command_of(s: Seq<char>) -> CommandView {
    command_of_trimmed(trimmed(s))
}

/// Classifies text that is already trimmed.
pub fn classify_trimmed(t: &str) -> (c: Command)
    ensures
        c@ == command_of_trimmed(t@),
{
    if t.unicode_len() == 1 {
        let ch = t.get_char(0);
        assert(t@ =~= seq![ch]);
        if ch == 'Q' {
            return Command::Quit;
        } else if ch == 'H' {
            return Command::Greet;
        } else if ch == 'D' {
            return Command::Disconnect;
        } else if ch == 'S' {
            return Command::SendCustom;
        }
    }
    Command::Unrecognized(t.to_string())
}

/// Trims console input and classifies it.
pub fn parse_command(input: &str) -> (c: Command)
    ensures
        c@ == command_of(input@),
{
    classify_trimmed(trim(input))
}

} // verus!
