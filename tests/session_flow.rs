use terminal_spotify::catalog::{playlist_menu, track_menu, PlaylistResult, TrackResult, PLAYLIST_LIMIT, SEARCH_LIMIT};
use terminal_spotify::command::{Command, ExitAnswer};
use terminal_spotify::device::Device;
use terminal_spotify::outcome::{conclude, Outcome, Rejection, Request};
use terminal_spotify::seek::SeekDirection;
use terminal_spotify::session::{confirm_exit, devices_message, help_message, lookup_failed, transfer_request, Lookup, SessionState, Step};
use terminal_spotify::snapshot::{CurrentPlayback, PlayableItem, PlaybackSnapshot};

fn device(id: &str, name: &str, is_active: bool) -> Device {
    Device { id: id.to_string(), name: name.to_string(), is_active }
}

fn snapshot(is_playing: bool, progress: Option<u64>) -> PlaybackSnapshot {
    PlaybackSnapshot {
        is_playing,
        progress,
        title: "Song".to_string(),
        contributors: vec!["Ann".to_string(), "Bo".to_string()],
    }
}

fn session_with_device(is_playing: bool, progress: Option<u64>) -> SessionState {
    let mut state = SessionState::new();
    state.registry.active_device = device("dev1", "Laptop", true);
    state.last_snapshot = snapshot(is_playing, progress);
    state
}

#[test]
fn playback_commands_refused_without_device() {
    let mut state = SessionState::new();
    assert!(!state.needs_snapshot());
    for playing in [false, true] {
        state.last_snapshot.is_playing = playing;
        for cmd in [
            Command::Play,
            Command::Pause,
            Command::Restart,
            Command::Next,
            Command::Previous,
            Command::Forward,
            Command::Back,
            Command::Toggle,
        ] {
            assert_eq!(state.route(&cmd), Step::Done(Outcome::Rejected(Rejection::NoActiveDevice)));
        }
    }
    assert_eq!(state.seek_request(SeekDirection::Back, 0), Err(Rejection::NoActiveDevice));
}

#[test]
fn toggle_pauses_when_playing_and_resumes_otherwise() {
    let playing = session_with_device(true, Some(10));
    assert_eq!(playing.route(&Command::Toggle), Step::Call(Request::Pause("dev1".to_string())));
    let paused = session_with_device(false, Some(10));
    assert_eq!(paused.route(&Command::Toggle), Step::Call(Request::Resume("dev1".to_string())));
}

#[test]
fn play_and_pause_refuse_when_nothing_changes() {
    let playing = session_with_device(true, None);
    assert_eq!(playing.route(&Command::Play), Step::Done(Outcome::Rejected(Rejection::AlreadyPlaying)));
    assert_eq!(playing.route(&Command::Pause), Step::Call(Request::Pause("dev1".to_string())));
    let paused = session_with_device(false, None);
    assert_eq!(paused.route(&Command::Pause), Step::Done(Outcome::Rejected(Rejection::AlreadyPaused)));
    assert_eq!(paused.route(&Command::Play), Step::Call(Request::Resume("dev1".to_string())));
}

#[test]
fn skip_and_restart_target_active_device() {
    let state = session_with_device(true, None);
    assert_eq!(state.route(&Command::Restart), Step::Call(Request::Restart("dev1".to_string())));
    assert_eq!(state.route(&Command::Next), Step::Call(Request::Next("dev1".to_string())));
    assert_eq!(state.route(&Command::Previous), Step::Call(Request::Previous("dev1".to_string())));
    assert_eq!(state.route(&Command::Forward), Step::ChooseOffset(SeekDirection::Forward));
    assert_eq!(state.route(&Command::Back), Step::ChooseOffset(SeekDirection::Back));
}

#[test]
fn activate_scenario() {
    let mut state = SessionState::new();
    let listed = state.apply_device_list(Ok(vec![device("A", "Speaker", false)]));
    assert_eq!(listed, Outcome::Executed("Available devices:\nDevice name: Speaker, Active: false".to_string()));
    assert_eq!(state.registry.active_device, Device::default());
    assert_eq!(state.route(&Command::Activate), Step::ChooseDevice(vec!["Speaker".to_string()]));
    let chosen = state.select_device("Speaker").unwrap();
    let req = transfer_request(&chosen);
    assert_eq!(req, Request::Transfer { device: "A".to_string(), name: "Speaker".to_string() });
    let outcome = state.finish_activation(chosen, Ok(()));
    assert_eq!(outcome, Outcome::Executed("Speaker was activated".to_string()));
    assert_eq!(state.registry.active_device, device("A", "Speaker", true));
    assert!(state.needs_snapshot());
}

#[test]
fn failed_activation_keeps_previous_device() {
    let mut state = session_with_device(false, None);
    state.registry.devices = vec![device("A", "Speaker", false)];
    let chosen = state.select_device("Speaker").unwrap();
    let outcome = state.finish_activation(chosen, Err("timeout".to_string()));
    assert_eq!(
        outcome,
        Outcome::RemoteFailure { action: "Could not activate the device".to_string(), cause: "timeout".to_string() }
    );
    assert_eq!(state.registry.active_device, device("dev1", "Laptop", true));
}

#[test]
fn activate_without_devices_is_refused() {
    let state = SessionState::new();
    assert_eq!(state.route(&Command::Activate), Step::Done(Outcome::Rejected(Rejection::NoDevices)));
    assert_eq!(state.select_device("Speaker"), Err(Rejection::NoDevices));
    let mut known = SessionState::new();
    known.registry.devices = vec![device("A", "Speaker", false)];
    assert_eq!(known.select_device("Radio"), Err(Rejection::DeviceNotFound));
}

#[test]
fn back_seek_is_clamped_at_start() {
    let state = session_with_device(true, Some(50));
    assert_eq!(state.route(&Command::Back), Step::ChooseOffset(SeekDirection::Back));
    let req = state.seek_request(SeekDirection::Back, 6).unwrap();
    assert_eq!(
        req,
        Request::SeekBy { device: "dev1".to_string(), direction: SeekDirection::Back, by: 60, position: 0 }
    );
    assert_eq!(conclude(&req, Ok(())), Outcome::Executed("Skipped back 60 seconds".to_string()));
}

#[test]
fn forward_seek_adds_offset() {
    let state = session_with_device(true, Some(50));
    assert_eq!(
        state.seek_request(SeekDirection::Forward, 1),
        Ok(Request::SeekBy { device: "dev1".to_string(), direction: SeekDirection::Forward, by: 10, position: 60 })
    );
    let unknown = session_with_device(false, None);
    assert_eq!(
        unknown.seek_request(SeekDirection::Forward, 0),
        Ok(Request::SeekBy { device: "dev1".to_string(), direction: SeekDirection::Forward, by: 5, position: 5 })
    );
    assert_eq!(state.seek_request(SeekDirection::Forward, 7), Err(Rejection::OutOfRange));
    let far = session_with_device(true, Some(u64::MAX - 1));
    assert_eq!(far.seek_request(SeekDirection::Forward, 0), Err(Rejection::OutOfRange));
}

#[test]
fn exit_answer_no_keeps_session() {
    let state = SessionState::new();
    assert_eq!(state.route(&Command::parse("exit\n")), Step::ConfirmExit);
    let answer = ExitAnswer::parse("no\n");
    assert_eq!(answer, ExitAnswer::Stay);
    assert_eq!(confirm_exit(answer), (false, Outcome::Executed("great <3".to_string())));
}

#[test]
fn exit_answers() {
    assert_eq!(ExitAnswer::parse(" N "), ExitAnswer::Stay);
    assert_eq!(ExitAnswer::parse("NO"), ExitAnswer::Stay);
    assert_eq!(ExitAnswer::parse("y"), ExitAnswer::Refused);
    assert_eq!(ExitAnswer::parse(""), ExitAnswer::Refused);
    assert_eq!(ExitAnswer::parse("XdD\n"), ExitAnswer::Leave);
    assert_eq!(confirm_exit(ExitAnswer::Leave), (true, Outcome::Executed("Exiting..".to_string())));
    assert_eq!(confirm_exit(ExitAnswer::Refused), (false, Outcome::Rejected(Rejection::ExitRefused)));
    assert_eq!(Rejection::ExitRefused.message(), "Answer not good enough, you can't leave");
}

#[test]
fn unknown_command_is_echoed() {
    let state = SessionState::new();
    let cmd = Command::parse("frobnicate");
    assert_eq!(cmd, Command::Unknown("frobnicate".to_string()));
    let step = state.route(&cmd);
    assert_eq!(step, Step::Done(Outcome::Rejected(Rejection::UnknownCommand("frobnicate".to_string()))));
    assert_eq!(Rejection::UnknownCommand("frobnicate".to_string()).message(), "Command not found: frobnicate");
}

#[test]
fn command_tokens() {
    assert_eq!(Command::parse("  help \n"), Command::Help);
    assert_eq!(Command::parse("Play"), Command::Unknown("Play".to_string()));
    assert_eq!(Command::parse("p"), Command::Toggle);
    assert_eq!(Command::parse("s"), Command::Search);
    assert_eq!(Command::parse("search"), Command::Search);
    assert_eq!(Command::parse("playlists"), Command::Playlists);
    assert_eq!(Command::parse("playlist"), Command::Playlists);
    assert_eq!(Command::parse("fwd"), Command::Forward);
    assert_eq!(Command::parse("forward"), Command::Forward);
    assert_eq!(Command::parse("prev"), Command::Previous);
    assert_eq!(Command::parse("previous"), Command::Previous);
    assert_eq!(Command::parse("r"), Command::Restart);
    assert_eq!(Command::parse("restart"), Command::Restart);
    assert_eq!(Command::parse("devices"), Command::Devices);
    assert_eq!(Command::parse("activate"), Command::Activate);
    assert_eq!(Command::parse("status"), Command::Status);
    assert_eq!(Command::parse("   \n"), Command::Blank);
    assert_eq!(SessionState::new().route(&Command::Blank), Step::Idle);
}

#[test]
fn always_available_commands() {
    let state = SessionState::new();
    assert_eq!(state.route(&Command::Devices), Step::ListDevices);
    assert_eq!(state.route(&Command::Search), Step::AskQuery);
    assert_eq!(state.route(&Command::Playlists), Step::ListPlaylists);
    assert_eq!(state.route(&Command::Help), Step::Done(Outcome::Executed(help_message())));
    assert!(help_message().starts_with("Available commands:"));
}

#[test]
fn status_reports_last_snapshot() {
    let playing = session_with_device(true, Some(83));
    assert_eq!(
        playing.route(&Command::Status),
        Step::Done(Outcome::Executed("You are listening to Song by Ann, Bo. Progress: 83".to_string()))
    );
    let idle = SessionState::new();
    assert_eq!(
        idle.route(&Command::Status),
        Step::Done(Outcome::Executed("You are not listening to anything at the moment".to_string()))
    );
    let unknown_progress = session_with_device(true, None);
    assert_eq!(
        unknown_progress.last_snapshot.status_message(),
        "You are listening to Song by Ann, Bo. Progress: 0"
    );
}

#[test]
fn snapshot_from_track_and_episode() {
    let track = PlayableItem::Track { title: "Song".to_string(), artists: vec!["Ann".to_string(), "Bo".to_string()] };
    assert_eq!(track.title(), "Song");
    let snap = PlaybackSnapshot::from_playback(Some(CurrentPlayback { is_playing: true, progress: Some(83), item: Some(track) }));
    assert_eq!(snap, snapshot(true, Some(83)));
    let episode = PlayableItem::Episode { title: "Talk".to_string() };
    assert!(episode.contributors().is_empty());
    let snap = PlaybackSnapshot::from_playback(Some(CurrentPlayback { is_playing: false, progress: Some(4), item: Some(episode) }));
    assert_eq!(
        snap,
        PlaybackSnapshot { is_playing: false, progress: Some(4), title: "Talk".to_string(), contributors: vec![] }
    );
    assert_eq!(PlaybackSnapshot::from_playback(None), PlaybackSnapshot::idle());
    let empty = PlaybackSnapshot::from_playback(Some(CurrentPlayback { is_playing: true, progress: Some(9), item: None }));
    assert_eq!(empty, PlaybackSnapshot::idle());
    assert_eq!(empty.progress_seconds(), 0);
}

#[test]
fn snapshot_refresh_and_failure() {
    let mut state = session_with_device(false, None);
    assert!(state.needs_snapshot());
    assert_eq!(state.record_snapshot(Ok(snapshot(true, Some(3)))), None);
    assert_eq!(state.last_snapshot, snapshot(true, Some(3)));
    let failure = state.record_snapshot(Err("502".to_string()));
    assert_eq!(
        failure,
        Some(Outcome::RemoteFailure { action: "Could not fetch the playback status".to_string(), cause: "502".to_string() })
    );
    assert_eq!(state.last_snapshot, snapshot(true, Some(3)));
    state.clear_snapshot();
    assert_eq!(state.last_snapshot, PlaybackSnapshot::idle());
}

#[test]
fn stale_snapshot_after_successful_pause() {
    let state = session_with_device(true, Some(20));
    let step = state.route(&Command::Pause);
    if let Step::Call(req) = step {
        assert_eq!(conclude(&req, Ok(())), Outcome::Executed("Paused playback".to_string()));
    } else {
        panic!("pause should make a call");
    }
    assert!(state.last_snapshot.is_playing);
    assert_eq!(state.route(&Command::Toggle), Step::Call(Request::Pause("dev1".to_string())));
}

#[test]
fn device_listing_outcomes() {
    let mut state = session_with_device(false, None);
    let failed = state.apply_device_list(Err("401".to_string()));
    assert_eq!(failed, Outcome::RemoteFailure { action: "Could not list devices".to_string(), cause: "401".to_string() });
    assert_eq!(state.registry.active_device, device("dev1", "Laptop", true));
    let empty = state.apply_device_list(Ok(vec![]));
    assert_eq!(empty, Outcome::Rejected(Rejection::NoDevices));
    assert_eq!(state.registry.active_device, Device::default());
    let two = vec![device("a", "One", true), device("b", "Two", false)];
    assert_eq!(devices_message(&two), "Available devices:\nDevice name: One, Active: true\nDevice name: Two, Active: false");
    state.apply_device_list(Ok(two));
    assert_eq!(state.registry.active_device, device("a", "One", true));
}

#[test]
fn call_outcomes() {
    let dev = "d".to_string();
    let cases = vec![
        (Request::Resume(dev.clone()), "Resumed playback", "Could not resume playback"),
        (Request::Pause(dev.clone()), "Paused playback", "Could not pause playback"),
        (Request::Restart(dev.clone()), "Restarted track", "Could not restart track"),
        (Request::Next(dev.clone()), "Skipped to next track", "Could not skip to next track"),
        (Request::Previous(dev.clone()), "Skipped to previous track", "Could not skip to previous track"),
        (
            Request::SeekBy { device: dev.clone(), direction: SeekDirection::Forward, by: 15, position: 40 },
            "Skipped forward 15 seconds",
            "Could not skip forward",
        ),
        (
            Request::StartTrack { device: dev.clone(), track: "t1".to_string(), title: "Song".to_string() },
            "Started playing: Song",
            "Could not start playing the track",
        ),
        (
            Request::StartPlaylist { device: dev.clone(), playlist: "pl-1".to_string(), name: "Mix".to_string() },
            "Started playing playlist: Mix",
            "Could not start playing playlist",
        ),
    ];
    for (req, ok, failed) in cases {
        assert_eq!(conclude(&req, Ok(())), Outcome::Executed(ok.to_string()));
        assert_eq!(
            conclude(&req, Err("boom".to_string())),
            Outcome::RemoteFailure { action: failed.to_string(), cause: "boom".to_string() }
        );
    }
}

#[test]
fn search_and_playlist_menus() {
    let state = session_with_device(false, None);
    assert_eq!(SEARCH_LIMIT, 5);
    assert_eq!(PLAYLIST_LIMIT, 10);
    assert_eq!(track_menu(&vec![]), Err(Rejection::NothingFound));
    let tracks = vec![
        TrackResult { id: "t1".to_string(), title: "Song".to_string(), contributors: vec!["Ann".to_string(), "Bo".to_string()] },
        TrackResult { id: "t2".to_string(), title: "Other".to_string(), contributors: vec![] },
    ];
    assert_eq!(track_menu(&tracks), Ok(vec!["Song - Ann, Bo".to_string(), "Other - ".to_string()]));
    assert_eq!(
        state.start_track(&tracks[0]),
        Request::StartTrack { device: "dev1".to_string(), track: "t1".to_string(), title: "Song".to_string() }
    );
    assert_eq!(playlist_menu(&vec![]), Err(Rejection::NothingFound));
    let lists = vec![PlaylistResult { id: "pl-1".to_string(), name: "Mix".to_string() }];
    assert_eq!(playlist_menu(&lists), Ok(vec!["Mix".to_string()]));
    assert_eq!(
        state.start_playlist(&lists[0]),
        Request::StartPlaylist { device: "dev1".to_string(), playlist: "pl-1".to_string(), name: "Mix".to_string() }
    );
    assert_eq!(
        lookup_failed(Lookup::Search, "x".to_string()),
        Outcome::RemoteFailure { action: "Could not search".to_string(), cause: "x".to_string() }
    );
}

#[test]
fn rejection_messages() {
    assert_eq!(Rejection::NoActiveDevice.message(), "There is no active device");
    assert_eq!(Rejection::AlreadyPlaying.message(), "Already playing");
    assert_eq!(Rejection::AlreadyPaused.message(), "Already paused");
    assert_eq!(Rejection::NoDevices.message(), "No devices available currently");
    assert_eq!(Rejection::DeviceNotFound.message(), "No device has that name");
    assert_eq!(Rejection::NothingFound.message(), "Nothing was found");
    assert_eq!(Rejection::OutOfRange.message(), "That position is out of range");
}
