use rmp::config::{default_bindings, Bindings, Config};
use rmp::keymap::{action_from_str, key_string, Action, KeyCode, KeyEvent, KeyEventKind, KeyModifiers, Keymap};

fn press(code: KeyCode, mods: KeyModifiers) -> KeyEvent {
    KeyEvent::new(code, mods)
}

#[test]
fn shift_letters_become_uppercase_keys() {
    assert_eq!(
        key_string(press(KeyCode::Char('j'), KeyModifiers::none())).as_deref(),
        Some("j")
    );
    assert_eq!(
        key_string(press(KeyCode::Char('J'), KeyModifiers::shift())).as_deref(),
        Some("J")
    );
}

#[test]
fn ctrl_letters_map_to_ctrl_prefix() {
    assert_eq!(
        key_string(press(KeyCode::Char('j'), KeyModifiers::control())).as_deref(),
        Some("ctrl+j")
    );
    assert_eq!(
        key_string(press(KeyCode::Char('k'), KeyModifiers::control())).as_deref(),
        Some("ctrl+k")
    );
}

#[test]
fn uppercase_without_shift_flag_still_uppercase() {
    assert_eq!(
        key_string(press(KeyCode::Char('Q'), KeyModifiers::none())).as_deref(),
        Some("Q")
    );
}

#[test]
fn special_keys() {
    assert_eq!(
        key_string(press(KeyCode::Enter, KeyModifiers::none())).as_deref(),
        Some("enter")
    );
    assert_eq!(
        key_string(press(KeyCode::Tab, KeyModifiers::none())).as_deref(),
        Some("tab")
    );
    assert_eq!(
        key_string(press(KeyCode::BackTab, KeyModifiers::none())).as_deref(),
        Some("backtab")
    );
    assert_eq!(
        key_string(press(KeyCode::Char(' '), KeyModifiers::none())).as_deref(),
        Some("space")
    );
}

#[test]
fn repeat_events_ignored() {
    let mut e = press(KeyCode::Char('j'), KeyModifiers::none());
    e.kind = KeyEventKind::Repeat;
    assert!(key_string(e).is_none());
}

#[test]
fn default_bindings_resolve() {
    let cfg = Config::default();
    let km = Keymap::build(&cfg);
    assert_eq!(
        km.resolve(press(KeyCode::Char('j'), KeyModifiers::none())),
        Some(Action::MoveDown)
    );
    assert_eq!(
        km.resolve(press(KeyCode::Char('K'), KeyModifiers::shift())),
        Some(Action::VolumeUp)
    );
    assert_eq!(
        km.resolve(press(KeyCode::Char('Q'), KeyModifiers::shift())),
        Some(Action::Detach)
    );
    assert_eq!(
        km.resolve(press(KeyCode::Char(' '), KeyModifiers::none())),
        Some(Action::Toggle)
    );
}

#[test]
fn function_and_arrow_keys_have_names() {
    assert_eq!(key_string(press(KeyCode::F(12), KeyModifiers::none())).as_deref(), Some("f12"));
    assert_eq!(key_string(press(KeyCode::F(5), KeyModifiers::none())).as_deref(), Some("f5"));
    assert_eq!(key_string(press(KeyCode::Up, KeyModifiers::none())).as_deref(), Some("up"));
    assert_eq!(key_string(press(KeyCode::Esc, KeyModifiers::none())).as_deref(), Some("esc"));
    assert_eq!(key_string(press(KeyCode::Right, KeyModifiers::none())).as_deref(), Some("right"));
    assert_eq!(key_string(press(KeyCode::Other, KeyModifiers::none())), None);
}

#[test]
fn release_events_ignored() {
    let mut e = press(KeyCode::Enter, KeyModifiers::none());
    e.kind = KeyEventKind::Release;
    assert_eq!(key_string(e), None);
}

#[test]
fn ctrl_space_keeps_the_space() {
    assert_eq!(
        key_string(press(KeyCode::Char(' '), KeyModifiers::control())).as_deref(),
        Some("ctrl+ ")
    );
}

#[test]
fn every_action_name_parses_back() {
    let all = [
        ("move_up", Action::MoveUp),
        ("move_down", Action::MoveDown),
        ("prev_section", Action::PrevSection),
        ("next_section", Action::NextSection),
        ("cycle_focus", Action::CycleFocus),
        ("cycle_focus_back", Action::CycleFocusBack),
        ("activate", Action::Activate),
        ("toggle", Action::Toggle),
        ("next_track", Action::NextTrack),
        ("prev_track", Action::PrevTrack),
        ("volume_up", Action::VolumeUp),
        ("volume_down", Action::VolumeDown),
        ("seek_back", Action::SeekBack),
        ("seek_fwd", Action::SeekFwd),
        ("repeat", Action::Repeat),
        ("shuffle", Action::Shuffle),
        ("add_media", Action::AddMedia),
        ("edit_media", Action::EditMedia),
        ("search", Action::Search),
        ("favorite", Action::Favorite),
        ("add_mini", Action::AddMini),
        ("focus_mini", Action::FocusMini),
        ("delete", Action::Delete),
        ("mini_move_up", Action::MiniMoveUp),
        ("mini_move_down", Action::MiniMoveDown),
        ("confirm_quit", Action::ConfirmQuit),
        ("detach", Action::Detach),
    ];
    for (name, action) in all {
        assert_eq!(action_from_str(name), Some(action));
    }
    assert_eq!(action_from_str("Move_up"), None);
    assert_eq!(action_from_str(""), None);
    assert_eq!(action_from_str("move_up "), None);
}

#[test]
fn unknown_action_names_are_not_bound() {
    let mut b = Bindings::new();
    b.insert("x".to_string(), "no_such_action".to_string());
    b.insert("y".to_string(), "shuffle".to_string());
    let cfg = Config::with_file_bindings("mpv".to_string(), 5, b);
    let km = Keymap::build(&cfg);
    assert_eq!(km.resolve(press(KeyCode::Char('x'), KeyModifiers::none())), None);
    assert_eq!(km.resolve(press(KeyCode::Char('y'), KeyModifiers::none())), Some(Action::Shuffle));
    assert_eq!(km.resolve(press(KeyCode::Char('j'), KeyModifiers::none())), Some(Action::MoveDown));
}

#[test]
fn readme_bindings_resolve() {
    let km = Keymap::build(&Config::default());
    let r = |code, mods| km.resolve(press(code, mods));
    assert_eq!(r(KeyCode::Enter, KeyModifiers::none()), Some(Action::Activate));
    assert_eq!(r(KeyCode::Char('h'), KeyModifiers::none()), Some(Action::PrevSection));
    assert_eq!(r(KeyCode::Char('l'), KeyModifiers::none()), Some(Action::NextSection));
    assert_eq!(r(KeyCode::Left, KeyModifiers::none()), Some(Action::SeekBack));
    assert_eq!(r(KeyCode::Right, KeyModifiers::none()), Some(Action::SeekFwd));
    assert_eq!(r(KeyCode::Char('H'), KeyModifiers::shift()), Some(Action::SeekBack));
    assert_eq!(r(KeyCode::Char('L'), KeyModifiers::shift()), Some(Action::SeekFwd));
    assert_eq!(r(KeyCode::Char('A'), KeyModifiers::shift()), Some(Action::AddMini));
    assert_eq!(r(KeyCode::Char('d'), KeyModifiers::none()), Some(Action::Delete));
    assert_eq!(r(KeyCode::Char('j'), KeyModifiers::control()), Some(Action::MiniMoveDown));
    assert_eq!(r(KeyCode::Char('k'), KeyModifiers::control()), Some(Action::MiniMoveUp));
    assert_eq!(r(KeyCode::Tab, KeyModifiers::none()), Some(Action::CycleFocus));
    assert_eq!(r(KeyCode::BackTab, KeyModifiers::none()), Some(Action::CycleFocusBack));
    assert_eq!(r(KeyCode::Esc, KeyModifiers::none()), Some(Action::ConfirmQuit));
    assert_eq!(r(KeyCode::Char('/'), KeyModifiers::none()), Some(Action::Search));
    assert_eq!(r(KeyCode::F(1), KeyModifiers::none()), None);
    assert_eq!(default_bindings().len(), 32);
}
