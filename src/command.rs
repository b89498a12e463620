use vstd::prelude::*;

use crate::text::{folded, same_text, same_text_ignoring_case, trim, trimmed};

verus! {

/// A command typed at the session prompt.
#[derive(Clone, Debug, PartialEq, Eq)]
pub enum Command {
    /// An empty line: nothing to do.
    Blank,
    Help,
    Activate,
    Devices,
    Search,
    Playlists,
    /// Pause when playing, resume otherwise.
    Toggle,
    Play,
    Pause,
    Restart,
    Next,
    Previous,
    Forward,
    Back,
    Status,
    Exit,
    /// Any other token, as typed (without surrounding white space).
    Unknown(String),
}

/// The command that the token `t` names, if it names one. Tokens are
/// matched exactly, case included.
pub open spec fn known_command(t: Seq<char>) -> Option<Command> {
    if t.len() == 0 {
        Some(Command::Blank)
    } else if t == "help"@ {
        Some(Command::Help)
    } else if t == "activate"@ {
        Some(Command::Activate)
    } else if t == "devices"@ {
        Some(Command::Devices)
    } else if t == "search"@ || t == "s"@ {
        Some(Command::Search)
    } else if t == "playlist"@ || t == "playlists"@ {
        Some(Command::Playlists)
    } else if t == "p"@ {
        Some(Command::Toggle)
    } else if t == "play"@ {
        Some(Command::Play)
    } else if t == "pause"@ {
        Some(Command::Pause)
    } else if t == "restart"@ || t == "r"@ {
        Some(Command::Restart)
    } else if t == "next"@ {
        Some(Command::Next)
    } else if t == "prev"@ || t == "previous"@ {
        Some(Command::Previous)
    } else if t == "fwd"@ || t == "forward"@ {
        Some(Command::Forward)
    } else if t == "back"@ {
        Some(Command::Back)
    } else if t == "status"@ {
        Some(Command::Status)
    } else if t == "exit"@ {
        Some(Command::Exit)
    } else {
        None
    }
}

/// The command that an input line holds.
pub open spec fn command_of(line: Seq<char>, c: Command) -> bool {
    match known_command(trimmed(line)) {
        Some(k) => c == k,
        None => c matches Command::Unknown(t) && t@ == trimmed(line),
    }
}

impl Command {
    /// Reads a command from an input line, ignoring white space around it.
    pub fn parse(line: &str) -> (r: Command)
        ensures
            command_of(line@, r),
    {
        let t = trim(line);
        if t.unicode_len() == 0 {
            Command::Blank
        } else if same_text(t, "help") {
            Command::Help
        } else if same_text(t, "activate") {
            Command::Activate
        } else if same_text(t, "devices") {
            Command::Devices
        } else if same_text(t, "search") || same_text(t, "s") {
            Command::Search
        } else if same_text(t, "playlist") || same_text(t, "playlists") {
            Command::Playlists
        } else if same_text(t, "p") {
            Command::Toggle
        } else if same_text(t, "play") {
            Command::Play
        } else if same_text(t, "pause") {
            Command::Pause
        } else if same_text(t, "restart") || same_text(t, "r") {
            Command::Restart
        } else if same_text(t, "next") {
            Command::Next
        } else if same_text(t, "prev") || same_text(t, "previous") {
            Command::Previous
        } else if same_text(t, "fwd") || same_text(t, "forward") {
            Command::Forward
        } else if same_text(t, "back") {
            Command::Back
        } else if same_text(t, "status") {
            Command::Status
        } else if same_text(t, "exit") {
            Command::Exit
        } else {
            Command::Unknown(String::from_str(t))
        }
    }

    /// Commands that act on the active device and are refused without one.
    pub open spec fn needs_device(&self) -> bool {
        match self {
            Command::Toggle | Command::Play | Command::Pause | Command::Restart | Command::Next
            | Command::Previous | Command::Forward | Command::Back => true,
            _ => false,
        }
    }
}

/// The answer to "are you sure you want to exit".
#[derive(Clone, Copy, Debug, PartialEq, Eq, Structural)]
pub enum ExitAnswer {
    /// Leave the session.
    Leave,
    /// Stay in the session.
    Stay,
    /// Not an acceptable answer: the session goes on.
    Refused,
}

/// How an answer to the exit confirmation reads: compared after trimming and
/// without regard to ASCII case, `xdd` leaves, `n` or `no` stays, and anything
/// else is refused. `xdd` is the only answer that leaves; the prompt does not
/// advertise it (it suggests `y`, which is refused), so leaving takes a token
/// that only insiders know. Whether this shortcut should stay is an open
/// product question.
pub open spec fn exit_answer_of(line: Seq<char>) -> ExitAnswer {
    let t = folded(trimmed(line));
    if t == folded("xdd"@) {
        ExitAnswer::Leave
    } else if t == folded("n"@) || t == folded("no"@) {
        ExitAnswer::Stay
    } else {
        ExitAnswer::Refused
    }
}

impl ExitAnswer {
    /// Reads the answer to the exit confirmation.
    pub fn parse(line: &str) -> (r: ExitAnswer)
        ensures
            r == exit_answer_of(line@),
    {
        let t = trim(line);
        if same_text_ignoring_case(t, "xdd") {
            ExitAnswer::Leave
        } else if same_text_ignoring_case(t, "n") || same_text_ignoring_case(t, "no") {
            ExitAnswer::Stay
        } else {
            ExitAnswer::Refused
        }
    }
}

} // verus!
