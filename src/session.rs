use vstd::prelude::*;

use crate::catalog::{PlaylistResult, TrackResult};
use crate::command::{Command, ExitAnswer};
use crate::device::{activated, Device, DeviceRegistry, SelectionError};
use crate::outcome::{reports, Outcome, Rejection, Request};
use crate::seek::{back_position, compute_back, compute_forward, offset_at, seek_offset, SeekDirection};
use crate::snapshot::{spec_progress, status_text, PlaybackSnapshot};

verus! {

/// What the session does next for a command: finish it here, or do the
/// outside work that it needs and come back with the answer.
#[derive(Clone, Debug, PartialEq, Eq)]
pub enum Step {
    /// Nothing to do; prompt again.
    Idle,
    /// The command is finished, with no remote call.
    Done(Outcome),
    /// Make this playback call, then hand its result to `conclude`.
    Call(Request),
    /// List the devices, then hand the list to `apply_device_list`.
    ListDevices,
    /// Offer these device names, then hand the chosen one to `select_device`.
    ChooseDevice(Vec<String>),
    /// Offer the seek offsets, then hand the chosen index to `seek_request`.
    ChooseOffset(SeekDirection),
    /// Ask for a search text, search tracks, offer `track_menu`, then make the
    /// call that `start_track` gives.
    AskQuery,
    /// List playlists, offer `playlist_menu`, then make the call that
    /// `start_playlist` gives.
    ListPlaylists,
    /// Ask whether to leave, then hand the answer to `confirm_exit`.
    ConfirmExit,
}

/// A lookup on the service that returns data rather than changing playback.
#[derive(Clone, Copy, Debug, PartialEq, Eq, Structural)]
pub enum Lookup {
    Devices,
    Playback,
    Search,
    Playlists,
}

/// The action named when the lookup `l` failed.
pub open spec fn lookup_text(l: Lookup) -> Seq<char> {
    match l {
        Lookup::Devices => "Could not list devices"@,
        Lookup::Playback => "Could not fetch the playback status"@,
        Lookup::Search => "Could not search"@,
        Lookup::Playlists => "Could not list playlists"@,
    }
}

/// The command reference.
pub open spec fn help_text() -> Seq<char> {
    "Available commands:\n\nAlways available:\nhelp -> get a list of available commands\nexit -> exit\ndevices -> list devices and pick up the active one\nactivate -> select a device you want to activate\ns/search -> search for and play a song\nplaylist/playlists -> pick one of your playlists and play it\nstatus -> get status of currently selected song\n\nIf a device is active:\np -> resumes or pauses track, depending on which one is possible\nplay -> resume playback\npause -> pause playback\nrestart -> restarts track\nnext/prev -> skips to next or previous track\nforward/back -> select amount of seconds to go back or forward"@
}

/// `true` or `false`.
pub open spec fn bool_text(b: bool) -> Seq<char> {
    if b {
        "true"@
    } else {
        "false"@
    }
}

/// One line per device: its name and whether the service marks it active.
pub open spec fn device_lines(s: Seq<Device>) -> Seq<char>
    decreases s.len(),
{
    if s.len() == 0 {
        Seq::empty()
    } else {
        device_lines(s.drop_last()) + "\nDevice name: "@ + s.last().name@ + ", Active: "@ + bool_text(
            s.last().is_active,
        )
    }
}

/// The report of a device listing.
pub open spec fn devices_text(s: Seq<Device>) -> Seq<char> {
    "Available devices:"@ + device_lines(s)
}

/// What a command that needs a device does, with `device` active and the
/// last snapshot playing or not.
pub open spec fn device_step(cmd: Command, device: String, playing: bool) -> Step {
    match cmd {
        Command::Toggle => if playing {
            Step::Call(Request::Pause(device))
        } else {
            Step::Call(Request::Resume(device))
        },
        Command::Play => if playing {
            Step::Done(Outcome::Rejected(Rejection::AlreadyPlaying))
        } else {
            Step::Call(Request::Resume(device))
        },
        Command::Pause => if playing {
            Step::Call(Request::Pause(device))
        } else {
            Step::Done(Outcome::Rejected(Rejection::AlreadyPaused))
        },
        Command::Restart => Step::Call(Request::Restart(device)),
        Command::Next => Step::Call(Request::Next(device)),
        Command::Previous => Step::Call(Request::Previous(device)),
        Command::Forward => Step::ChooseOffset(SeekDirection::Forward),
        _ => Step::ChooseOffset(SeekDirection::Back),
    }
}

/// The one piece of state a session owns: the devices with the active one,
/// and the playback status last fetched.
#[derive(Clone, Debug)]
pub struct SessionState {
    pub registry: DeviceRegistry,
    pub last_snapshot: PlaybackSnapshot,
}

impl SessionState {
    /// No device known or active, nothing playing.
    pub fn new() -> (r: SessionState)
        ensures
            r.registry.devices@.len() == 0,
            r.registry.active_device.is_none(),
            r.last_snapshot.is_idle(),
    {
        SessionState { registry: DeviceRegistry::new(), last_snapshot: PlaybackSnapshot::idle() }
    }

    /// Whether the playback status is to be fetched before a command: only
    /// with an active device.
    pub fn needs_snapshot(&self) -> (r: bool)
        ensures
            r == self.registry.active_device.is_set(),
    {
        self.registry.active_device.has_id()
    }

    /// Without an active device nothing is fetched: the snapshot is idle.
    pub fn clear_snapshot(&mut self)
        ensures
            final(self).last_snapshot.is_idle(),
            final(self).registry == old(self).registry,
    {
        self.last_snapshot = PlaybackSnapshot::idle();
    }

    /// Takes in the fetched playback status. A failed fetch keeps the last
    /// snapshot and is reported.
    pub fn record_snapshot(&mut self, fetched: Result<PlaybackSnapshot, String>) -> (r: Option<Outcome>)
        requires
            old(self).registry.active_device.is_set(),
        ensures
            final(self).registry == old(self).registry,
            match fetched {
                Ok(s) => final(self).last_snapshot == s && r is None,
                Err(cause) => final(self).last_snapshot == old(self).last_snapshot && (r matches Some(
                    Outcome::RemoteFailure { action, cause: c },
                ) && action@ == lookup_text(Lookup::Playback) && c == cause),
            },
    {
        match fetched {
            Ok(s) => {
                self.last_snapshot = s;
                None
            },
            Err(cause) => Some(lookup_failed(Lookup::Playback, cause)),
        }
    }

    /// What to do for `cmd`. Commands on playback are refused without an
    /// active device; `p` pauses when the last snapshot is playing and
    /// resumes otherwise; `play` and `pause` are refused when there is
    /// nothing to change.
    pub fn route(&self, cmd: &Command) -> (r: Step)
        ensures
            cmd.needs_device() && !self.registry.active_device.is_set() ==> r == Step::Done(
                Outcome::Rejected(Rejection::NoActiveDevice),
            ),
            cmd.needs_device() && self.registry.active_device.is_set() ==> r == device_step(
                *cmd,
                self.registry.active_device.id,
                self.last_snapshot.is_playing,
            ),
            *cmd == Command::Toggle && self.registry.active_device.is_set() ==> {
                &&& self.last_snapshot.is_playing ==> r == Step::Call(
                    Request::Pause(self.registry.active_device.id),
                )
                &&& !self.last_snapshot.is_playing ==> r == Step::Call(
                    Request::Resume(self.registry.active_device.id),
                )
            },
            *cmd == Command::Blank ==> r == Step::Idle,
            *cmd == Command::Devices ==> r == Step::ListDevices,
            *cmd == Command::Search ==> r == Step::AskQuery,
            *cmd == Command::Playlists ==> r == Step::ListPlaylists,
            *cmd == Command::Exit ==> r == Step::ConfirmExit,
            *cmd == Command::Activate && self.registry.devices@.len() == 0 ==> r == Step::Done(
                Outcome::Rejected(Rejection::NoDevices),
            ),
            *cmd == Command::Activate && self.registry.devices@.len() > 0 ==> (r matches Step::ChooseDevice(names)
                && names@.len() == self.registry.devices@.len() && forall|i: int|
                0 <= i < names@.len() ==> #[trigger] names@[i] == self.registry.devices@[i].name),
            *cmd == Command::Help ==> (r matches Step::Done(Outcome::Executed(m)) && m@ == help_text()),
            *cmd == Command::Status ==> (r matches Step::Done(Outcome::Executed(m)) && m@ == status_text(
                self.last_snapshot,
            )),
            cmd matches Command::Unknown(t) ==> r == Step::Done(
                Outcome::Rejected(Rejection::UnknownCommand(*t)),
            ),
    {
        let playing = self.last_snapshot.is_playing;
        match cmd {
            Command::Toggle | Command::Play | Command::Pause | Command::Restart | Command::Next
            | Command::Previous | Command::Forward | Command::Back => {
                if !self.registry.active_device.has_id() {
                    return Step::Done(Outcome::Rejected(Rejection::NoActiveDevice));
                }
                let device = self.registry.active_device.id.clone();
                match cmd {
                    Command::Toggle => if playing {
                        Step::Call(Request::Pause(device))
                    } else {
                        Step::Call(Request::Resume(device))
                    },
                    Command::Play => if playing {
                        Step::Done(Outcome::Rejected(Rejection::AlreadyPlaying))
                    } else {
                        Step::Call(Request::Resume(device))
                    },
                    Command::Pause => if playing {
                        Step::Call(Request::Pause(device))
                    } else {
                        Step::Done(Outcome::Rejected(Rejection::AlreadyPaused))
                    },
                    Command::Restart => Step::Call(Request::Restart(device)),
                    Command::Next => Step::Call(Request::Next(device)),
                    Command::Previous => Step::Call(Request::Previous(device)),
                    Command::Forward => Step::ChooseOffset(SeekDirection::Forward),
                    _ => Step::ChooseOffset(SeekDirection::Back),
                }
            },
            Command::Blank => Step::Idle,
            Command::Devices => Step::ListDevices,
            Command::Search => Step::AskQuery,
            Command::Playlists => Step::ListPlaylists,
            Command::Exit => Step::ConfirmExit,
            Command::Activate => {
                if self.registry.devices.len() == 0 {
                    Step::Done(Outcome::Rejected(Rejection::NoDevices))
                } else {
                    Step::ChooseDevice(self.registry.names())
                }
            },
            Command::Help => Step::Done(Outcome::Executed(help_message())),
            Command::Status => Step::Done(Outcome::Executed(self.last_snapshot.status_message())),
            Command::Unknown(t) => Step::Done(Outcome::Rejected(Rejection::UnknownCommand(t.clone()))),
        }
    }

    /// Takes in a device listing: the registry is refreshed from it and the
    /// devices are reported; an empty listing is reported as a refusal. A
    /// failed listing changes nothing.
    pub fn apply_device_list(&mut self, listed: Result<Vec<Device>, String>) -> (r: Outcome)
        ensures
            final(self).last_snapshot == old(self).last_snapshot,
            match listed {
                Ok(devices) => {
                    &&& final(self).registry.devices@ == devices@
                    &&& match crate::device::first_qualifying(devices@) {
                        Some(d) => final(self).registry.active_device == d,
                        None => final(self).registry.active_device.is_none(),
                    }
                    &&& devices@.len() == 0 ==> r == Outcome::Rejected(Rejection::NoDevices)
                    &&& devices@.len() > 0 ==> (r matches Outcome::Executed(m) && m@ == devices_text(devices@))
                },
                Err(cause) => {
                    &&& final(self).registry == old(self).registry
                    &&& r matches Outcome::RemoteFailure { action, cause: c }
                    &&& action@ == lookup_text(Lookup::Devices)
                    &&& c == cause
                },
            },
    {
        match listed {
            Ok(devices) => {
                let report = devices_message(&devices);
                let empty = devices.len() == 0;
                self.registry.refresh(devices);
                if empty {
                    Outcome::Rejected(Rejection::NoDevices)
                } else {
                    Outcome::Executed(report)
                }
            },
            Err(cause) => lookup_failed(Lookup::Devices, cause),
        }
    }

    /// The known device chosen by name, marked active, or why there is none.
    pub fn select_device(&self, name: &str) -> (r: Result<Device, Rejection>)
        ensures
            self.registry.devices@.len() == 0 ==> r == Err::<Device, Rejection>(Rejection::NoDevices),
            self.registry.devices@.len() > 0 ==> match crate::device::first_named(self.registry.devices@, name@) {
                Some(d) => r == Ok::<Device, Rejection>(activated(d)),
                None => r == Err::<Device, Rejection>(Rejection::DeviceNotFound),
            },
    {
        match self.registry.select(name) {
            Ok(d) => Ok(d),
            Err(SelectionError::Empty) => Err(Rejection::NoDevices),
            Err(SelectionError::NotFound) => Err(Rejection::DeviceNotFound),
        }
    }

    /// Takes in the result of transferring playback to `device`: on success
    /// it becomes the active device, marked active; on failure the active
    /// device stays as it was.
    pub fn finish_activation(&mut self, device: Device, transfer: Result<(), String>) -> (r: Outcome)
        ensures
            reports(r, transfer_of(device), transfer),
            transfer is Ok ==> final(self).registry.active_device == activated(device),
            transfer is Err ==> final(self).registry.active_device == old(self).registry.active_device,
            final(self).registry.devices == old(self).registry.devices,
            final(self).last_snapshot == old(self).last_snapshot,
    {
        let req = transfer_request(&device);
        let result = self.registry.activate(device, transfer);
        crate::outcome::conclude(&req, result)
    }

    /// The seek to make for the offset at `choice` of the seek menu, from the
    /// last known position (zero when unknown). Back stops at the start;
    /// forward is refused where the position would not fit.
    pub fn seek_request(&self, direction: SeekDirection, choice: usize) -> (r: Result<Request, Rejection>)
        ensures
            !self.registry.active_device.is_set() ==> r == Err::<Request, Rejection>(Rejection::NoActiveDevice),
            self.registry.active_device.is_set() && choice >= 7 ==> r == Err::<Request, Rejection>(
                Rejection::OutOfRange,
            ),
            self.registry.active_device.is_set() && choice < 7 ==> ({
                let current = spec_progress(self.last_snapshot);
                let by = seek_offset(choice as int);
                let device = self.registry.active_device.id;
                match direction {
                    SeekDirection::Back => r == Ok::<Request, Rejection>(
                        Request::SeekBy { device, direction, by, position: back_position(current, by) },
                    ),
                    SeekDirection::Forward => if current + by <= u64::MAX {
                        r == Ok::<Request, Rejection>(
                            Request::SeekBy { device, direction, by, position: (current + by) as u64 },
                        )
                    } else {
                        r == Err::<Request, Rejection>(Rejection::OutOfRange)
                    },
                }
            }),
    {
        if !self.registry.active_device.has_id() {
            return Err(Rejection::NoActiveDevice);
        }
        if choice >= 7 {
            return Err(Rejection::OutOfRange);
        }
        let current = self.last_snapshot.progress_seconds();
        let by = offset_at(choice);
        let device = self.registry.active_device.id.clone();
        match direction {
            SeekDirection::Back => {
                let position = compute_back(current, by);
                Ok(Request::SeekBy { device, direction, by, position })
            },
            SeekDirection::Forward => {
                if current > u64::MAX - by {
                    return Err(Rejection::OutOfRange);
                }
                let position = compute_forward(current, by);
                Ok(Request::SeekBy { device, direction, by, position })
            },
        }
    }

    /// The call that plays `track` on the active device.
    pub fn start_track(&self, track: &TrackResult) -> (r: Request)
        ensures
            r == (Request::StartTrack {
                device: self.registry.active_device.id,
                track: track.id,
                title: track.title,
            }),
    {
        Request::StartTrack {
            device: self.registry.active_device.id.clone(),
            track: track.id.clone(),
            title: track.title.clone(),
        }
    }

    /// The call that plays `playlist` on the active device.
    pub fn start_playlist(&self, playlist: &PlaylistResult) -> (r: Request)
        ensures
            r == (Request::StartPlaylist {
                device: self.registry.active_device.id,
                playlist: playlist.id,
                name: playlist.name,
            }),
    {
        Request::StartPlaylist {
            device: self.registry.active_device.id.clone(),
            playlist: playlist.id.clone(),
            name: playlist.name.clone(),
        }
    }
}

/// The transfer of playback to `d`.
pub open spec fn transfer_of(d: Device) -> Request {
    Request::Transfer { device: d.id, name: d.name }
}

/// The call that moves playback to `device`.
pub fn transfer_request(device: &Device) -> (r: Request)
    ensures
        r == transfer_of(*device),
{
    Request::Transfer { device: device.id.clone(), name: device.name.clone() }
}

/// Whether the session ends on `answer`, and what the user is told: leaving
/// says goodbye, staying is acknowledged, any other answer is refused.
pub fn confirm_exit(answer: ExitAnswer) -> (r: (bool, Outcome))
    ensures
        r.0 == (answer == ExitAnswer::Leave),
        answer == ExitAnswer::Leave ==> (r.1 matches Outcome::Executed(m) && m@ == "Exiting.."@),
        answer == ExitAnswer::Stay ==> (r.1 matches Outcome::Executed(m) && m@ == "great <3"@),
        answer == ExitAnswer::Refused ==> r.1 == Outcome::Rejected(Rejection::ExitRefused),
{
    match answer {
        ExitAnswer::Leave => (true, Outcome::Executed(String::from_str("Exiting.."))),
        ExitAnswer::Stay => (false, Outcome::Executed(String::from_str("great <3"))),
        ExitAnswer::Refused => (false, Outcome::Rejected(Rejection::ExitRefused)),
    }
}

fn bool_message(b: bool) -> (r: &'static str)
    ensures
        r@ == bool_text(b),
{
    if b {
        "true"
    } else {
        "false"
    }
}

/// The report of a device listing: each device's name and whether the
/// service marks it active.
pub fn devices_message(devices: &Vec<Device>) -> (r: String)
    ensures
        r@ == devices_text(devices@),
{
    let mut r = String::from_str("Available devices:");
    let mut i: usize = 0;
    while i < devices.len()
        invariant
            i <= devices@.len(),
            r@ == devices_text(devices@.subrange(0, i as int)),
        decreases devices@.len() - i,
    {
        let ghost prefix = devices@.subrange(0, i + 1);
        assert(prefix.drop_last() =~= devices@.subrange(0, i as int));
        r.append("\nDevice name: ");
        r.append(devices[i].name.as_str());
        r.append(", Active: ");
        r.append(bool_message(devices[i].is_active));
        assert(r@ =~= devices_text(prefix));
        i = i + 1;
    }
    assert(devices@.subrange(0, devices@.len() as int) =~= devices@);
    r
}

/// The command reference.
pub fn help_message() -> (r: String)
    ensures
        r@ == help_text(),
{
    String::from_str(
        "Available commands:\n\nAlways available:\nhelp -> get a list of available commands\nexit -> exit\ndevices -> list devices and pick up the active one\nactivate -> select a device you want to activate\ns/search -> search for and play a song\nplaylist/playlists -> pick one of your playlists and play it\nstatus -> get status of currently selected song\n\nIf a device is active:\np -> resumes or pauses track, depending on which one is possible\nplay -> resume playback\npause -> pause playback\nrestart -> restarts track\nnext/prev -> skips to next or previous track\nforward/back -> select amount of seconds to go back or forward",
    )
}

/// The outcome of a failed lookup, with its cause.
pub fn lookup_failed(lookup: Lookup, cause: String) -> (r: Outcome)
    ensures
        r matches Outcome::RemoteFailure { action, cause: c } && action@ == lookup_text(lookup) && c == cause,
{
    let action = match lookup {
        Lookup::Devices => String::from_str("Could not list devices"),
        Lookup::Playback => String::from_str("Could not fetch the playback status"),
        Lookup::Search => String::from_str("Could not search"),
        Lookup::Playlists => String::from_str("Could not list playlists"),
    };
    Outcome::RemoteFailure { action, cause }
}

} // verus!
