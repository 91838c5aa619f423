use rmp::keymap::Action;
use rmp::model::TagInfo;
use rmp::panes::Section;
use rmp::player::Command;
use rmp::ui::{apply_form, search_cancelled, search_done, Area, DialogOutcome, FormCommand, SnapView, Ui, UiEffect};

fn view() -> SnapView {
    SnapView {
        queue: vec![10, 20, 30],
        tags: vec![
            TagInfo { name: "rock".to_string(), count: 2, checked: false },
            TagInfo { name: "jazz".to_string(), count: 1, checked: true },
        ],
        selected: Some(20),
        mini: vec![30, 10],
    }
}

fn send(cmd: Command) -> UiEffect {
    UiEffect::Send { cmd }
}

#[test]
fn moving_in_the_queue_selects() {
    let mut ui = Ui::new();
    assert_eq!(ui.section, Section::Queue);
    assert_eq!(ui.on_action(Action::MoveDown, &view(), 5), vec![send(Command::Select { id: 20 })]);
    assert_eq!(ui.queue_cursor, 1);
    ui.on_action(Action::MoveDown, &view(), 5);
    assert_eq!(ui.on_action(Action::MoveDown, &view(), 5), vec![]);
    assert_eq!(ui.queue_cursor, 2);
    ui.on_action(Action::MoveUp, &view(), 5);
    assert_eq!(ui.queue_cursor, 1);
    let empty = SnapView { queue: vec![], tags: vec![], selected: None, mini: vec![] };
    assert_eq!(ui.on_action(Action::MoveUp, &empty, 5), vec![]);
    assert_eq!(ui.queue_cursor, 1);
}

#[test]
fn moving_in_the_filter() {
    let mut ui = Ui::new();
    ui.on_action(Action::PrevSection, &view(), 5);
    assert_eq!(ui.section, Section::Filter);
    assert_eq!(ui.on_action(Action::MoveDown, &view(), 5), vec![]);
    assert_eq!(ui.tag_cursor, 1);
    assert_eq!(ui.on_action(Action::Activate, &view(), 5), vec![send(Command::ToggleTag { tag: "jazz".to_string() })]);
    assert_eq!(ui.on_action(Action::Toggle, &view(), 5), vec![send(Command::ToggleTag { tag: "jazz".to_string() })]);
    ui.on_action(Action::CycleFocus, &view(), 5);
    assert_eq!(ui.section, Section::Queue);
    ui.on_action(Action::NextSection, &view(), 5);
    assert_eq!(ui.section, Section::Info);
    assert_eq!(ui.on_action(Action::Activate, &view(), 5), vec![]);
    ui.on_action(Action::CycleFocusBack, &view(), 5);
    assert_eq!(ui.section, Section::Queue);
}

#[test]
fn playback_keys_send_commands() {
    let mut ui = Ui::new();
    assert_eq!(ui.on_action(Action::Activate, &view(), 5), vec![send(Command::Play { id: 10 })]);
    assert_eq!(ui.on_action(Action::Toggle, &view(), 5), vec![send(Command::PlayPause)]);
    assert_eq!(ui.on_action(Action::NextTrack, &view(), 5), vec![send(Command::Next)]);
    assert_eq!(ui.on_action(Action::PrevTrack, &view(), 5), vec![send(Command::Prev)]);
    assert_eq!(ui.on_action(Action::VolumeUp, &view(), 5), vec![send(Command::Volume { delta: 5 })]);
    assert_eq!(ui.on_action(Action::VolumeDown, &view(), 5), vec![send(Command::Volume { delta: -5 })]);
    assert_eq!(ui.on_action(Action::SeekFwd, &view(), 5), vec![UiEffect::Seek { forward: true }]);
    assert_eq!(ui.on_action(Action::SeekBack, &view(), 5), vec![UiEffect::Seek { forward: false }]);
    assert_eq!(ui.on_action(Action::Repeat, &view(), 5), vec![send(Command::RepeatCycle)]);
    assert_eq!(ui.on_action(Action::Shuffle, &view(), 5), vec![send(Command::ShuffleToggle)]);
    assert_eq!(ui.on_action(Action::Favorite, &view(), 5), vec![send(Command::ToggleFavorite { id: 20 })]);
    let none = SnapView { queue: vec![], tags: vec![], selected: None, mini: vec![] };
    assert_eq!(ui.on_action(Action::Favorite, &none, 5), vec![]);
    assert_eq!(ui.on_action(Action::EditMedia, &none, 5), vec![]);
    assert_eq!(ui.on_action(Action::EditMedia, &view(), 5), vec![UiEffect::OpenEditForm]);
    assert_eq!(ui.on_action(Action::AddMedia, &view(), 5), vec![UiEffect::OpenAddForm]);
    assert_eq!(ui.on_action(Action::Search, &view(), 5), vec![UiEffect::OpenSearch]);
    assert_eq!(ui.on_action(Action::Delete, &view(), 5), vec![UiEffect::ConfirmDelete { id: 20 }]);
    assert_eq!(ui.on_action(Action::Detach, &view(), i32::MIN), vec![]);
}

#[test]
fn quitting() {
    let mut ui = Ui::new();
    assert_eq!(ui.on_action(Action::ConfirmQuit, &view(), 5), vec![UiEffect::OpenConfirmExit]);
    assert!(!ui.quit);
    let (close, eff) = ui.on_dialog(DialogOutcome::ConfirmExitYes);
    assert!(close && eff.is_empty());
    assert!(ui.quit && ui.shutdown);
    let mut ui = Ui::new();
    ui.on_action(Action::Detach, &view(), 5);
    assert!(ui.quit && !ui.shutdown);
    assert_eq!(ui.on_dialog(DialogOutcome::Stay), (false, vec![]));
    assert_eq!(ui.on_dialog(DialogOutcome::Cancel), (true, vec![]));
}

#[test]
fn forms_and_search() {
    assert_eq!(
        apply_form(FormCommand::Add { uri: "u".to_string(), name: String::new(), tags: vec!["t".to_string()] }),
        Command::Add { uri: "u".to_string(), name: None, tags: vec!["t".to_string()] }
    );
    assert_eq!(
        apply_form(FormCommand::Update { id: 1, name: "n".to_string(), title: "T".to_string(), artist: String::new(), tags: vec![] }),
        Command::Update { id: 1, name: "n".to_string(), title: Some("T".to_string()), artist: None, tags: vec![] }
    );
    let mut ui = Ui::new();
    let (close, eff) = ui.on_dialog(DialogOutcome::Submit { form: FormCommand::Add { uri: "u".to_string(), name: "N".to_string(), tags: vec![] } });
    assert!(close);
    assert_eq!(eff, vec![send(Command::Add { uri: "u".to_string(), name: Some("N".to_string()), tags: vec![] })]);
    assert_eq!(search_done("  ".to_string()), Command::SetSearch { pattern: None });
    assert_eq!(search_done(" ab ".to_string()), Command::SetSearch { pattern: Some(" ab ".to_string()) });
    assert_eq!(search_cancelled(), Command::SetSearch { pattern: None });
}

#[test]
fn snapshots_move_the_cursors() {
    let mut ui = Ui::new();
    ui.tag_cursor = 5;
    ui.on_snapshot(&view());
    assert_eq!(ui.queue_cursor, 1);
    assert_eq!(ui.tag_cursor, 1);
    ui.queue_cursor = 9;
    ui.on_snapshot(&SnapView { queue: vec![1, 2], tags: vec![], selected: Some(77), mini: vec![] });
    assert_eq!(ui.queue_cursor, 1);
    assert_eq!(ui.tag_cursor, 0);
    ui.on_snapshot(&SnapView { queue: vec![], tags: vec![], selected: None, mini: vec![] });
    assert_eq!(ui.queue_cursor, 0);
}

#[test]
fn clicks() {
    let queue = Area { x: 20, y: 0, width: 40, height: 10 };
    let filter = Area { x: 0, y: 0, width: 20, height: 10 };
    let mut ui = Ui::new();
    assert_eq!(ui.on_click(25, 3, queue, filter, &view()), vec![send(Command::Select { id: 30 })]);
    assert_eq!(ui.queue_cursor, 2);
    assert_eq!(ui.on_click(25, 8, queue, filter, &view()), vec![]);
    assert_eq!(ui.queue_cursor, 2);
    assert_eq!(ui.on_click(5, 1, queue, filter, &view()), vec![send(Command::ToggleTag { tag: "rock".to_string() })]);
    assert_eq!(ui.on_click(5, 0, queue, filter, &view()), vec![send(Command::ToggleTag { tag: "rock".to_string() })]);
    assert_eq!(ui.on_click(70, 1, queue, filter, &view()), vec![]);
    assert!(queue.contains(20, 0));
    assert!(!queue.contains(60, 0));
    assert!(!queue.contains(20, 10));
    let edge = Area { x: 65530, y: 0, width: 10, height: 1 };
    assert!(edge.contains(65534, 0));
    assert!(!edge.contains(65535, 0));
    let bottom = Area { x: 0, y: 65535, width: 10, height: 5 };
    assert_eq!(bottom.row_below_top(65535), 0);
    assert_eq!(Area { x: 0, y: 4, width: 1, height: 1 }.row_below_top(9), 4);
    assert_eq!(ui.on_click(1, 65535, bottom, filter, &view()), vec![]);
}

#[test]
fn deleting_asks_first_in_the_queue() {
    let mut ui = Ui::new();
    assert_eq!(ui.on_action(Action::Delete, &view(), 5), vec![UiEffect::ConfirmDelete { id: 20 }]);
    assert_eq!(ui.on_dialog(DialogOutcome::ConfirmDeleteYes { id: 20 }), (true, vec![send(Command::Delete { id: 20 })]));
    ui.on_action(Action::NextSection, &view(), 5);
    assert_eq!(ui.on_action(Action::Delete, &view(), 5), vec![]);
}

#[test]
fn mini_queue_keys() {
    let mut ui = Ui::new();
    assert_eq!(ui.on_action(Action::AddMini, &view(), 5), vec![send(Command::AddMini { id: 20 })]);
    ui.on_action(Action::FocusMini, &view(), 5);
    assert!(ui.mini_focus);
    assert_eq!(ui.on_action(Action::MoveDown, &view(), 5), vec![]);
    assert_eq!(ui.mini_cursor, 1);
    assert_eq!(ui.queue_cursor, 0);
    assert_eq!(ui.on_action(Action::MiniMoveUp, &view(), 5), vec![send(Command::MoveMini { id: 10, down: false })]);
    assert_eq!(ui.mini_cursor, 0);
    assert_eq!(ui.on_action(Action::MiniMoveDown, &view(), 5), vec![send(Command::MoveMini { id: 30, down: true })]);
    assert_eq!(ui.mini_cursor, 1);
    assert_eq!(ui.on_action(Action::Delete, &view(), 5), vec![send(Command::RemoveMini { id: 10 })]);
    ui.on_action(Action::FocusMini, &view(), 5);
    assert!(!ui.mini_focus);
    ui.mini_cursor = 7;
    ui.on_snapshot(&view());
    assert_eq!(ui.mini_cursor, 1);
}
