use rmp::model::RepeatMode;
use rmp::player::{
    clamped_volume, now_ms, stamp_of_millis, AddRequest, Command, Effect, PlayOutcome, Player, PlayerEvent,
    SavedState,
};

fn v(xs: &[&str]) -> Vec<String> {
    xs.iter().map(|x| x.to_string()).collect()
}

fn saved() -> SavedState {
    SavedState {
        volume: 200,
        repeat: RepeatMode::All,
        shuffle: true,
        active_tags: v(&["Rock", "jazz"]),
        media_id: Some(7),
        playing: true,
    }
}

fn player() -> Player {
    Player::restore(saved(), true)
}

#[test]
fn restore_clamps_and_lowercases() {
    let p = player();
    assert_eq!(p.volume, 130);
    assert_eq!(p.active_tags, v(&["rock", "jazz"]));
    assert_eq!(p.now_id, Some(7));
    assert_eq!(p.resume, Some((7, true)));
    assert!(!p.paused);
    let mut s = saved();
    s.volume = -4;
    s.playing = false;
    let q = Player::restore(s, false);
    assert_eq!(q.volume, 0);
    assert_eq!(q.now_id, None);
    assert_eq!(q.resume, None);
    assert!(q.paused);
}

#[test]
fn volume_commands_clamp() {
    let mut p = player();
    assert_eq!(p.handle_command(Command::Volume { delta: -30 }), vec![Effect::SetVolume { volume: 100 }, Effect::Persist, Effect::Push]);
    assert_eq!(p.volume, 100);
    p.handle_command(Command::Volume { delta: i32::MAX });
    assert_eq!(p.volume, 130);
    p.handle_command(Command::Volume { delta: i32::MIN });
    assert_eq!(p.volume, 0);
    p.handle_command(Command::SetVolume { volume: 55 });
    assert_eq!(p.volume, 55);
    assert_eq!(clamped_volume(-1), 0);
    assert_eq!(clamped_volume(131), 130);
}

#[test]
fn play_pause_with_nothing_playing_plays_the_first() {
    let mut p = Player::restore(saved(), false);
    assert_eq!(p.handle_command(Command::PlayPause), vec![Effect::PlayFirst]);
    let mut q = player();
    assert_eq!(q.handle_command(Command::PlayPause), vec![Effect::SetPause { paused: true }, Effect::Push]);
    assert!(q.paused);
}

#[test]
fn repeat_and_shuffle() {
    let mut p = player();
    p.handle_command(Command::RepeatCycle);
    assert_eq!(p.repeat, RepeatMode::One);
    p.handle_command(Command::RepeatCycle);
    assert_eq!(p.repeat, RepeatMode::Off);
    p.handle_command(Command::ShuffleToggle);
    assert!(!p.shuffle);
}

#[test]
fn tags_and_search() {
    let mut p = player();
    p.handle_command(Command::ToggleTag { tag: "JAZZ".to_string() });
    assert_eq!(p.active_tags, v(&["rock"]));
    p.handle_command(Command::ClearTags);
    assert!(p.active_tags.is_empty());
    assert_eq!(p.handle_command(Command::SetSearch { pattern: Some(String::new()) }), vec![Effect::Push]);
    assert_eq!(p.search, None);
    p.handle_command(Command::SetSearch { pattern: Some("(".to_string()) });
    assert_eq!(p.search.as_deref(), Some("("));
    p.check_search();
    assert_eq!(p.search, None);
    assert_eq!(p.notify.as_deref(), Some("invalid search pattern"));
    p.handle_command(Command::SetSearch { pattern: Some("ab+c".to_string()) });
    p.notify = None;
    p.check_search();
    assert_eq!(p.search.as_deref(), Some("ab+c"));
    assert_eq!(p.notify, None);
}

#[test]
fn adding_media() {
    let mut p = player();
    assert_eq!(
        p.handle_command(Command::Add { uri: "   ".to_string(), name: None, tags: vec![] }),
        vec![Effect::Push]
    );
    assert_eq!(p.notify.as_deref(), Some("uri cannot be empty"));
    p.notify = None;
    let eff = p.handle_command(Command::Add {
        uri: " /music/Song One.mp3 ".to_string(),
        name: Some("  ".to_string()),
        tags: v(&["Rock", " rock", "", "Live"]),
    });
    assert_eq!(
        eff,
        vec![Effect::CheckMedia {
            request: AddRequest {
                uri: "/music/Song One.mp3".to_string(),
                name: "Song One.mp3".to_string(),
                tags: v(&["rock", "live"]),
            }
        }]
    );
    let eff = p.handle_command(Command::Add { uri: "https://x.org/s".to_string(), name: Some(" My song ".to_string()), tags: vec![] });
    assert_eq!(eff, vec![Effect::CheckMedia { request: AddRequest { uri: "https://x.org/s".to_string(), name: "My song".to_string(), tags: vec![] } }]);
    let eff = p.handle_command(Command::Add { uri: "/music/..".to_string(), name: None, tags: vec![] });
    assert_eq!(eff, vec![Effect::CheckMedia { request: AddRequest { uri: "/music/..".to_string(), name: "/music/..".to_string(), tags: vec![] } }]);
    let mut q = Player::restore(saved(), false);
    assert_eq!(q.add_outcome(Some(12), "Song One.mp3"), vec![Effect::Push]);
    assert_eq!(q.notify.as_deref(), Some("added: Song One.mp3"));
    assert_eq!(q.selected, Some(12));
    q.add_outcome(Some(13), "x");
    assert_eq!(q.selected, Some(12));
    assert_eq!(q.add_outcome(None, "y"), vec![Effect::Push]);
    assert_eq!(q.notify.as_deref(), Some("add failed"));
    assert_eq!(q.selected, Some(12));
}

#[test]
fn deleting_what_plays_stops_it() {
    let mut p = player();
    p.handle_command(Command::Select { id: 7 });
    assert_eq!(p.handle_command(Command::Delete { id: 7 }), vec![Effect::DeleteMedia { id: 7 }, Effect::StopPlayback, Effect::Push]);
    assert_eq!(p.now_id, None);
    assert_eq!(p.selected, None);
    assert_eq!(p.resume, None);
    let mut q = player();
    q.handle_command(Command::Select { id: 3 });
    assert_eq!(q.handle_command(Command::Delete { id: 3 }), vec![Effect::DeleteMedia { id: 3 }, Effect::Push]);
    assert_eq!(q.selected, None);
    assert_eq!(q.now_id, Some(7));
}

#[test]
fn pass_through_commands() {
    let mut p = player();
    let before = p.clone();
    assert_eq!(p.handle_command(Command::Next), vec![Effect::Step { forward: true }]);
    assert_eq!(p.handle_command(Command::Prev), vec![Effect::Step { forward: false }]);
    assert_eq!(p.handle_command(Command::Play { id: 4 }), vec![Effect::Play { id: 4 }]);
    assert_eq!(p.handle_command(Command::ToggleFavorite { id: 4 }), vec![Effect::ToggleFavorite { id: 4 }, Effect::Push]);
    assert_eq!(
        p.handle_command(Command::Update { id: 4, name: "n".to_string(), title: None, artist: Some("a".to_string()), tags: v(&["t"]) }),
        vec![Effect::UpdateMedia { id: 4, name: "n".to_string(), title: None, artist: Some("a".to_string()), tags: v(&["t"]) }, Effect::Push]
    );
    assert_eq!(p, before);
    assert_eq!(p.handle_command(Command::Shutdown), vec![]);
    assert!(p.stopping);
}

#[test]
fn track_end_is_handled_once() {
    let mut p = player();
    assert_eq!(p.on_event(PlayerEvent::EofReached), vec![Effect::Continue]);
    assert!(p.eof_pending);
    assert_eq!(p.on_event(PlayerEvent::IdleActive), vec![]);
    p.on_event(PlayerEvent::FileLoaded);
    assert!(!p.eof_pending);
    p.handle_command(Command::RepeatCycle);
    assert_eq!(p.repeat, RepeatMode::One);
    assert_eq!(p.on_event(PlayerEvent::IdleActive), vec![Effect::Reload { id: 7 }]);
    let mut q = Player::restore(saved(), false);
    assert_eq!(q.on_event(PlayerEvent::EofReached), vec![]);
    assert!(q.eof_pending);
}

#[test]
fn file_loaded_resumes() {
    let mut s = saved();
    s.playing = false;
    let mut p = Player::restore(s, true);
    assert_eq!(
        p.on_event(PlayerEvent::FileLoaded),
        vec![Effect::SeekToResume, Effect::SetPause { paused: true }, Effect::RecordInfo { id: 7 }, Effect::Push]
    );
    assert_eq!(p.resume, None);
    assert_eq!(p.selected, Some(7));
    assert!(p.paused && p.dirty);
    assert_eq!(p.on_event(PlayerEvent::FileLoaded), vec![Effect::RecordInfo { id: 7 }, Effect::Push]);
}

#[test]
fn pause_and_position_events() {
    let mut p = player();
    p.on_event(PlayerEvent::Pause { value: Some(true) });
    assert!(p.paused && p.dirty);
    p.pushed();
    assert!(!p.dirty);
    p.on_event(PlayerEvent::Pause { value: None });
    assert!(!p.dirty);
    p.on_event(PlayerEvent::TimePos);
    assert!(p.wants_push(350));
    assert!(!p.wants_push(349));
    assert_eq!(p.on_event(PlayerEvent::Other), vec![]);
    assert_eq!(p.on_event(PlayerEvent::Exited), vec![Effect::DropPlayer, Effect::RestartPlayer, Effect::Push]);
    p.stopping = true;
    assert_eq!(p.on_event(PlayerEvent::Exited), vec![Effect::DropPlayer]);
}

#[test]
fn play_outcomes() {
    let mut p = Player::restore(saved(), false);
    assert_eq!(p.play_outcome(3, PlayOutcome::Missing), vec![]);
    assert_eq!(p.notify.as_deref(), Some("media not found"));
    p.play_outcome(3, PlayOutcome::NoPlayer);
    assert_eq!(p.notify.as_deref(), Some("mpv unavailable"));
    p.play_outcome(3, PlayOutcome::LoadFailed);
    assert_eq!(p.take_notify().as_deref(), Some("failed to load media"));
    assert_eq!(p.notify, None);
    assert_eq!(p.play_outcome(3, PlayOutcome::Loaded), vec![Effect::ResetPosition, Effect::Push]);
    assert_eq!(p.now_id, Some(3));
    assert_eq!(p.selected, Some(3));
    assert!(!p.paused);
    assert_eq!(p.queue_ended(), vec![Effect::ResetPosition, Effect::Push]);
    assert_eq!(p.now_id, None);
}

#[test]
fn saved_state_reports_playing_only_with_a_medium() {
    let p = player();
    let s = p.saved_state();
    assert_eq!(s.volume, 130);
    assert_eq!(s.media_id, Some(7));
    assert!(s.playing);
    let q = Player::restore(saved(), false);
    assert!(!q.saved_state().playing);
    let mut r = player();
    r.paused = true;
    r.mark_resume();
    assert_eq!(r.resume, Some((7, false)));
}

#[test]
fn time_stamps() {
    assert_eq!(stamp_of_millis(None), 0);
    assert_eq!(stamp_of_millis(Some(1_700_000_000_000)), 1_700_000_000_000);
    assert!(now_ms() > 1_600_000_000_000);
}

#[test]
fn notes_reach_the_interface() {
    let mut p = player();
    p.note("add failed".to_string());
    assert_eq!(p.notify.as_deref(), Some("add failed"));
}

fn request(uri: &str) -> AddRequest {
    AddRequest { uri: uri.to_string(), name: "n".to_string(), tags: vec![] }
}

#[test]
fn checking_a_new_medium() {
    let mut p = player();
    let before = p.clone();
    assert_eq!(p.media_checked(request("/no/such.mp3"), true, false), vec![Effect::Push]);
    assert_eq!(p.notify.as_deref(), Some("file does not exist"));
    assert_eq!(p.selected, before.selected);
    let mut q = player();
    assert_eq!(
        q.media_checked(request("/a.mp3"), true, true),
        vec![Effect::InsertMedia { request: request("/a.mp3"), probe: true }]
    );
    assert_eq!(
        q.media_checked(request("https://x"), false, false),
        vec![Effect::InsertMedia { request: request("https://x"), probe: false }]
    );
    assert_eq!(q, before);
}

#[test]
fn update_and_restart_failures_are_reported() {
    let mut p = player();
    p.update_outcome(true);
    assert_eq!(p.notify, None);
    p.update_outcome(false);
    assert_eq!(p.notify.as_deref(), Some("update failed"));
    p.restart_outcome(false);
    assert_eq!(p.notify.as_deref(), Some("mpv restart failed"));
}

#[test]
fn mini_queue_drains_first_in_order() {
    let mut p = player();
    assert_eq!(p.handle_command(Command::AddMini { id: 3 }), vec![Effect::Push]);
    p.handle_command(Command::AddMini { id: 4 });
    p.handle_command(Command::AddMini { id: 3 });
    p.handle_command(Command::AddMini { id: 5 });
    assert_eq!(p.mini, vec![3, 4, 5]);
    p.handle_command(Command::MoveMini { id: 5, down: false });
    assert_eq!(p.mini, vec![3, 5, 4]);
    p.handle_command(Command::MoveMini { id: 4, down: true });
    assert_eq!(p.mini, vec![3, 5, 4]);
    p.handle_command(Command::MoveMini { id: 3, down: true });
    assert_eq!(p.mini, vec![5, 3, 4]);
    assert_eq!(p.handle_command(Command::Next), vec![Effect::Play { id: 5 }]);
    assert_eq!(p.on_event(PlayerEvent::EofReached), vec![Effect::Play { id: 3 }]);
    p.handle_command(Command::RemoveMini { id: 4 });
    assert!(p.mini.is_empty());
    assert_eq!(p.handle_command(Command::Next), vec![Effect::Step { forward: true }]);
    let mut q = Player::restore(saved(), false);
    q.handle_command(Command::AddMini { id: 8 });
    assert_eq!(q.handle_command(Command::PlayPause), vec![Effect::Play { id: 8 }]);
    assert!(q.mini.is_empty());
}

#[test]
fn deleting_a_medium_unpins_it() {
    let mut p = player();
    p.handle_command(Command::AddMini { id: 9 });
    p.handle_command(Command::AddMini { id: 2 });
    p.handle_command(Command::Delete { id: 9 });
    assert_eq!(p.mini, vec![2]);
}

fn medium(id: i64, title: &str, tags: &[&str]) -> rmp::model::MediaInfo {
    rmp::model::MediaInfo {
        id,
        uri: format!("/music/{id}.mp3"),
        name: format!("m{id}"),
        title: Some(title.to_string()),
        artist: None,
        kind: "offline".to_string(),
        source: None,
        duration: None,
        bitrate: None,
        tags: tags.iter().map(|t| t.to_string()).collect(),
        favorite: false,
    }
}

fn library() -> Vec<rmp::model::MediaInfo> {
    vec![
        medium(5, "Intro", &["rock"]),
        medium(7, "Anthem", &["rock", "jazz"]),
        medium(9, "Outro", &["jazz", "rock"]),
        medium(11, "Ballad", &["jazz"]),
    ]
}

#[test]
fn the_queue_follows_tags_and_search() {
    let mut p = player();
    assert_eq!(p.queue(&library()), vec![7, 9]);
    p.handle_command(Command::SetSearch { pattern: Some("^Out".to_string()) });
    assert_eq!(p.queue(&library()), vec![9]);
    assert_eq!(p.notify, None);
    p.handle_command(Command::SetSearch { pattern: Some("(".to_string()) });
    assert_eq!(p.queue(&library()), vec![7, 9]);
    assert_eq!(p.search, None);
    assert_eq!(p.notify.as_deref(), Some("invalid search pattern"));
}

#[test]
fn shuffle_and_repeat_keep_the_queue() {
    let mut p = player();
    let before = p.queue(&library());
    p.handle_command(Command::ShuffleToggle);
    assert_eq!(p.queue(&library()), before);
    p.handle_command(Command::RepeatCycle);
    assert_eq!(p.queue(&library()), before);
    p.handle_command(Command::ShuffleToggle);
    assert_eq!(p.queue(&library()), before);
}

#[test]
fn snapshots_place_the_selected_and_playing_media() {
    let mut p = player();
    p.handle_command(Command::Select { id: 11 });
    p.note("hello".to_string());
    let parts = p.build_snapshot(&library());
    assert_eq!(parts.queue, vec![7, 9]);
    assert_eq!(parts.selected, Some(3));
    assert_eq!(parts.playing, Some(1));
    assert_eq!(parts.notify.as_deref(), Some("hello"));
    assert_eq!(p.notify, None);
    let again = p.build_snapshot(&library());
    assert_eq!(again.notify, None);
    p.handle_command(Command::Select { id: 42 });
    assert_eq!(p.build_snapshot(&library()).selected, None);
    p.search = Some("(".to_string());
    assert_eq!(p.build_snapshot(&library()).queue, vec![7, 9]);
    assert_eq!(p.search.as_deref(), Some("("));
}

#[test]
fn seeking_moves_the_player_only() {
    let mut p = player();
    let before = p.clone();
    assert_eq!(p.handle_command(Command::Seek { delta_ms: -5000 }), vec![Effect::Seek { delta_ms: -5000 }, Effect::Push]);
    assert_eq!(p, before);
}

#[test]
fn mpv_property_names() {
    assert_eq!(rmp::player::event_of("time-pos", None, true), PlayerEvent::TimePos);
    assert_eq!(rmp::player::event_of("time-pos", None, false), PlayerEvent::Other);
    assert_eq!(rmp::player::event_of("pause", Some(true), false), PlayerEvent::Pause { value: Some(true) });
    assert_eq!(rmp::player::event_of("pause", None, false), PlayerEvent::Pause { value: None });
    assert_eq!(rmp::player::event_of("idle-active", Some(true), false), PlayerEvent::IdleActive);
    assert_eq!(rmp::player::event_of("eof-reached", Some(true), false), PlayerEvent::EofReached);
    assert_eq!(rmp::player::event_of("file-loaded", None, false), PlayerEvent::FileLoaded);
    assert_eq!(rmp::player::event_of("volume", None, true), PlayerEvent::Other);
}

#[test]
fn new_media_are_named_after_the_last_path_component() {
    let name_of = |uri: &str| {
        let mut p = player();
        match p.handle_command(Command::Add { uri: uri.to_string(), name: None, tags: vec![] }).pop() {
            Some(Effect::CheckMedia { request }) => request.name,
            other => panic!("unexpected effect {other:?}"),
        }
    };
    assert_eq!(name_of("/music/song.mp3"), "song.mp3");
    assert_eq!(name_of("/music/album/"), "album");
    assert_eq!(name_of("/music/album/.//"), "album");
    assert_eq!(name_of("song.mp3"), "song.mp3");
    assert_eq!(name_of("/music/.."), "/music/..");
    assert_eq!(name_of("/"), "/");
    assert_eq!(name_of("."), ".");
}
