use vstd::prelude::*;

use crate::seek::SeekDirection;
use crate::text::{decimal, decimal_text};

verus! {

/// Why a command was refused before any remote call.
#[derive(Clone, Debug, PartialEq, Eq)]
pub enum Rejection {
    NoActiveDevice,
    AlreadyPlaying,
    AlreadyPaused,
    NoDevices,
    DeviceNotFound,
    NothingFound,
    OutOfRange,
    /// The token typed, which names no command.
    UnknownCommand(String),
    /// The exit confirmation was not answered acceptably.
    ExitRefused,
}

/// What the user is told of a refusal.
pub open spec fn rejection_text(r: Rejection) -> Seq<char> {
    match r {
        Rejection::NoActiveDevice => "There is no active device"@,
        Rejection::AlreadyPlaying => "Already playing"@,
        Rejection::AlreadyPaused => "Already paused"@,
        Rejection::NoDevices => "No devices available currently"@,
        Rejection::DeviceNotFound => "No device has that name"@,
        Rejection::NothingFound => "Nothing was found"@,
        Rejection::OutOfRange => "That position is out of range"@,
        Rejection::UnknownCommand(t) => "Command not found: "@ + t@,
        Rejection::ExitRefused => "Answer not good enough, you can't leave"@,
    }
}

impl Rejection {
    /// What the user is told of the refusal.
    pub fn message(&self) -> (r: String)
        ensures
            r@ == rejection_text(*self),
    {
        match self {
            Rejection::NoActiveDevice => String::from_str("There is no active device"),
            Rejection::AlreadyPlaying => String::from_str("Already playing"),
            Rejection::AlreadyPaused => String::from_str("Already paused"),
            Rejection::NoDevices => String::from_str("No devices available currently"),
            Rejection::DeviceNotFound => String::from_str("No device has that name"),
            Rejection::NothingFound => String::from_str("Nothing was found"),
            Rejection::OutOfRange => String::from_str("That position is out of range"),
            Rejection::UnknownCommand(t) => {
                let mut r = String::from_str("Command not found: ");
                r.append(t.as_str());
                r
            },
            Rejection::ExitRefused => String::from_str("Answer not good enough, you can't leave"),
        }
    }
}

/// The result of one command: done, refused without a remote call, or a
/// remote call that failed. The session goes on after each of them.
#[derive(Clone, Debug, PartialEq, Eq)]
pub enum Outcome {
    Executed(String),
    Rejected(Rejection),
    RemoteFailure { action: String, cause: String },
}

/// A playback call to the service, on the device named by its id.
#[derive(Clone, Debug, PartialEq, Eq)]
pub enum Request {
    /// Resume playback, with no explicit position.
    Resume(String),
    Pause(String),
    /// Seek to the start of the current item.
    Restart(String),
    Next(String),
    Previous(String),
    /// Seek to `position` seconds, `by` seconds away from where playback was.
    SeekBy { device: String, direction: SeekDirection, by: u64, position: u64 },
    /// Move playback to the device `device`, called `name`.
    Transfer { device: String, name: String },
    StartTrack { device: String, track: String, title: String },
    StartPlaylist { device: String, playlist: String, name: String },
}

/// What the user is told when `req` succeeded.
pub open spec fn success_text(req: Request) -> Seq<char> {
    match req {
        Request::Resume(_) => "Resumed playback"@,
        Request::Pause(_) => "Paused playback"@,
        Request::Restart(_) => "Restarted track"@,
        Request::Next(_) => "Skipped to next track"@,
        Request::Previous(_) => "Skipped to previous track"@,
        Request::SeekBy { direction, by, .. } => match direction {
            SeekDirection::Forward => "Skipped forward "@ + decimal(by as nat) + " seconds"@,
            SeekDirection::Back => "Skipped back "@ + decimal(by as nat) + " seconds"@,
        },
        Request::Transfer { name, .. } => name@ + " was activated"@,
        Request::StartTrack { title, .. } => "Started playing: "@ + title@,
        Request::StartPlaylist { name, .. } => "Started playing playlist: "@ + name@,
    }
}

/// The action named when `req` failed.
pub open spec fn failure_text(req: Request) -> Seq<char> {
    match req {
        Request::Resume(_) => "Could not resume playback"@,
        Request::Pause(_) => "Could not pause playback"@,
        Request::Restart(_) => "Could not restart track"@,
        Request::Next(_) => "Could not skip to next track"@,
        Request::Previous(_) => "Could not skip to previous track"@,
        Request::SeekBy { direction, .. } => match direction {
            SeekDirection::Forward => "Could not skip forward"@,
            SeekDirection::Back => "Could not skip back"@,
        },
        Request::Transfer { .. } => "Could not activate the device"@,
        Request::StartTrack { .. } => "Could not start playing the track"@,
        Request::StartPlaylist { .. } => "Could not start playing playlist"@,
    }
}

/// `r` reports the result `result` of the call `req`: its success, or its
/// failure with the action and the cause.
pub open spec fn reports(r: Outcome, req: Request, result: Result<(), String>) -> bool {
    match result {
        Ok(_) => r matches Outcome::Executed(m) && m@ == success_text(req),
        Err(cause) => r matches Outcome::RemoteFailure { action, cause: c } && action@ == failure_text(req)
            && c == cause,
    }
}

fn success_message(req: &Request) -> (r: String)
    ensures
        r@ == success_text(*req),
{
    match req {
        Request::Resume(_) => String::from_str("Resumed playback"),
        Request::Pause(_) => String::from_str("Paused playback"),
        Request::Restart(_) => String::from_str("Restarted track"),
        Request::Next(_) => String::from_str("Skipped to next track"),
        Request::Previous(_) => String::from_str("Skipped to previous track"),
        Request::SeekBy { direction, by, .. } => {
            let mut r = match direction {
                SeekDirection::Forward => String::from_str("Skipped forward "),
                SeekDirection::Back => String::from_str("Skipped back "),
            };
            let n = decimal_text(*by);
            r.append(n.as_str());
            r.append(" seconds");
            r
        },
        Request::Transfer { name, .. } => {
            let mut r = name.clone();
            r.append(" was activated");
            r
        },
        Request::StartTrack { title, .. } => {
            let mut r = String::from_str("Started playing: ");
            r.append(title.as_str());
            r
        },
        Request::StartPlaylist { name, .. } => {
            let mut r = String::from_str("Started playing playlist: ");
            r.append(name.as_str());
            r
        },
    }
}

fn failure_message(req: &Request) -> (r: String)
    ensures
        r@ == failure_text(*req),
{
    match req {
        Request::Resume(_) => String::from_str("Could not resume playback"),
        Request::Pause(_) => String::from_str("Could not pause playback"),
        Request::Restart(_) => String::from_str("Could not restart track"),
        Request::Next(_) => String::from_str("Could not skip to next track"),
        Request::Previous(_) => String::from_str("Could not skip to previous track"),
        Request::SeekBy { direction, .. } => match direction {
            SeekDirection::Forward => String::from_str("Could not skip forward"),
            SeekDirection::Back => String::from_str("Could not skip back"),
        },
        Request::Transfer { .. } => String::from_str("Could not activate the device"),
        Request::StartTrack { .. } => String::from_str("Could not start playing the track"),
        Request::StartPlaylist { .. } => String::from_str("Could not start playing playlist"),
    }
}

/// The outcome of the call `req`, given what the service answered.
pub fn conclude(req: &Request, result: Result<(), String>) -> (r: Outcome)
    ensures
        reports(r, *req, result),
{
    match result {
        Ok(()) => Outcome::Executed(success_message(req)),
        Err(cause) => Outcome::RemoteFailure { action: failure_message(req), cause },
    }
}

} // verus!
