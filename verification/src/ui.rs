//! The decisions of the interface: what a bound key, a mouse click, a
//! finished form or search and a new snapshot do to the cursors and the
//! focused pane, and which commands go to the daemon.

use vstd::prelude::*;
use crate::keymap::Action;
use crate::model::TagInfo;
use crate::panes::{Section, section_after, section_before};
use crate::player::Command;
use crate::text::{is_blank, str_is_blank};
use crate::pins::{first_index, position_of};

verus! {

/// What the interface knows of the daemon's last snapshot: the queue (ids),
/// the tags of the filter pane, the selected medium and the mini-queue
/// (all empty before the first snapshot).
#[derive(Debug, Clone)]
pub struct SnapView {
    pub queue: Vec<i64>,
    pub tags: Vec<TagInfo>,
    pub selected: Option<i64>,
    pub mini: Vec<i64>,
}

/// What the interface has to do after a step.
#[derive(Debug, PartialEq, Eq)]
pub enum UiEffect {
    /// Send a command to the daemon.
    Send { cmd: Command },
    /// Ask the daemon to seek by the configured step, forward or back.
    Seek { forward: bool },
    /// Ask whether to shut the daemon down.
    OpenConfirmExit,
    /// Open the form that adds a medium.
    OpenAddForm,
    /// Open the form that edits the selected medium.
    OpenEditForm,
    /// Open the search box.
    OpenSearch,
    /// Ask whether to delete medium `id` from the library.
    ConfirmDelete { id: i64 },
}

/// A filled-in form.
#[derive(Debug, Clone, PartialEq, Eq)]
pub enum FormCommand {
    Add { uri: String, name: String, tags: Vec<String> },
    Update {
        id: i64,
        name: String,
        title: String,
        artist: String,
        tags: Vec<String>,
    },
}

/// How a dialog ended a key press.
#[derive(Debug, PartialEq, Eq)]
pub enum DialogOutcome {
    /// The dialog stays open.
    Stay,
    /// A form was submitted.
    Submit { form: FormCommand },
    /// The shutdown of the daemon was confirmed.
    ConfirmExitYes,
    /// Deleting medium `id` was confirmed.
    ConfirmDeleteYes { id: i64 },
    /// The dialog was dismissed.
    Cancel,
}

/// The interface's state.
#[derive(Debug, Clone, Copy, PartialEq, Eq)]
pub struct Ui {
    /// The focused pane.
    pub section: Section,
    /// The cursor in the queue pane.
    pub queue_cursor: usize,
    /// The cursor in the filter pane.
    pub tag_cursor: usize,
    /// The interface is to end.
    pub quit: bool,
    /// The daemon is to shut down when the interface ends.
    pub shutdown: bool,
    /// The mini-queue has the focus.
    pub mini_focus: bool,
    /// The cursor in the mini-queue.
    pub mini_cursor: usize,
}

/// `cursor + delta`, kept within `0..len` (for `len > 0`).
pub open spec fn moved(cursor: int, delta: int, len: int) -> int {
    let c = cursor + delta;
    if c < 0 {
        0
    } else if c > len - 1 {
        len - 1
    } else {
        c
    }
}

/// A rectangle of the terminal.
#[derive(Debug, Clone, Copy, PartialEq, Eq)]
pub struct Area {
    pub x: u16,
    pub y: u16,
    pub width: u16,
    pub height: u16,
}

/// A cell lies in the rectangle, whose right and bottom edges stop at the
/// largest coordinate (as `ratatui::layout::Rect::contains` has it).
pub open spec fn area_contains(a: Area, column: u16, row: u16) -> bool {
    &&& a.x <= column
    &&& column < (if a.x + a.width > u16::MAX {
        u16::MAX as int
    } else {
        a.x + a.width
    })
    &&& a.y <= row
    &&& row < (if a.y + a.height > u16::MAX {
        u16::MAX as int
    } else {
        a.y + a.height
    })
}

/// The row under the rectangle's top border that a click on `row` hits,
/// counting from zero (zero also for clicks on or above the border).
pub open spec fn row_in(a: Area, row: u16) -> int {
    if row >= a.y + 1 {
        row - (a.y + 1)
    } else {
        0
    }
}

impl Area {
    /// Whether the cell lies in the rectangle.
    pub fn contains(&self, column: u16, row: u16) -> (r: bool)
        ensures
            r == area_contains(*self, column, row),
    {
        let right: u16 = if self.x as u32 + self.width as u32 > 65535 {
            65535
        } else {
            self.x + self.width
        };
        let bottom: u16 = if self.y as u32 + self.height as u32 > 65535 {
            65535
        } else {
            self.y + self.height
        };
        self.x <= column && column < right && self.y <= row && row < bottom
    }

    /// The row under the top border that a click on `row` hits.
    pub fn row_below_top(&self, row: u16) -> (r: usize)
        ensures
            r == row_in(*self, row),
    {
        if self.y == u16::MAX {
            return 0;
        }
        let top = self.y + 1;
        if row >= top {
            (row - top) as usize
        } else {
            0
        }
    }
}

/// The command a finished search sends: the pattern, or none when it is blank.
pub fn search_done(pattern: String) -> (r: Command)
    ensures
        (if is_blank(pattern@) {
            r == (Command::SetSearch { pattern: None })
        } else {
            r == (Command::SetSearch { pattern: Some(pattern) })
        }),
{
    if str_is_blank(pattern.as_str()) {
        Command::SetSearch { pattern: None }
    } else {
        Command::SetSearch { pattern: Some(pattern) }
    }
}

/// The command a cancelled search sends: clear the search.
pub fn search_cancelled() -> (r: Command)
    ensures
        r == (Command::SetSearch { pattern: None }),
{
    Command::SetSearch { pattern: None }
}

/// `None` for an empty text.
pub open spec fn optional(s: String) -> Option<String> {
    if s@.len() == 0 {
        None
    } else {
        Some(s)
    }
}

fn optional_text(s: String) -> (r: Option<String>)
    ensures
        r == optional(s),
{
    if s.unicode_len() == 0 {
        None
    } else {
        Some(s)
    }
}

/// The command a submitted form sends; empty optional fields become absent.
pub fn apply_form(form: FormCommand) -> (r: Command)
    ensures
        match form {
            FormCommand::Add { uri, name, tags } => r == (Command::Add {
                uri,
                name: optional(name),
                tags,
            }),
            FormCommand::Update { id, name, title, artist, tags } => r == (Command::Update {
                id,
                name,
                title: optional(title),
                artist: optional(artist),
                tags,
            }),
        },
{
    match form {
        FormCommand::Add { uri, name, tags } => Command::Add {
            uri,
            name: optional_text(name),
            tags,
        },
        FormCommand::Update { id, name, title, artist, tags } => Command::Update {
            id,
            name,
            title: optional_text(title),
            artist: optional_text(artist),
            tags,
        },
    }
}

impl Ui {
    /// The interface at start: the queue focused, both cursors at the top.
    pub fn new() -> (r: Ui)
        ensures
            r.section == Section::Queue,
            r.queue_cursor == 0,
            r.tag_cursor == 0,
            !r.quit,
            !r.shutdown,
            !r.mini_focus,
            r.mini_cursor == 0,
    {
        Ui {
            section: Section::Queue,
            queue_cursor: 0,
            tag_cursor: 0,
            quit: false,
            shutdown: false,
            mini_focus: false,
            mini_cursor: 0,
        }
    }

    /// A new snapshot: the queue cursor follows the selected medium when
    /// it is in the queue, and the cursors stay within their lists.
    pub fn on_snapshot(&mut self, view: &SnapView)
        ensures
            final(self).section == old(self).section,
            final(self).mini_focus == old(self).mini_focus,
            final(self).mini_cursor == ({
                let last = if view.mini@.len() > 0 {
                    view.mini@.len() - 1
                } else {
                    0
                };
                if old(self).mini_cursor < last {
                    old(self).mini_cursor as int
                } else {
                    last
                }
            }),
            final(self).quit == old(self).quit,
            final(self).shutdown == old(self).shutdown,
            final(self).queue_cursor == ({
                let c = match view.selected {
                    Some(sel) => if view.queue@.contains(sel) {
                        first_index(view.queue@, sel)
                    } else {
                        old(self).queue_cursor as int
                    },
                    None => old(self).queue_cursor as int,
                };
                let last = if view.queue@.len() > 0 {
                    view.queue@.len() - 1
                } else {
                    0
                };
                if c < last {
                    c
                } else {
                    last
                }
            }),
            final(self).tag_cursor == ({
                let last = if view.tags@.len() > 0 {
                    view.tags@.len() - 1
                } else {
                    0
                };
                if old(self).tag_cursor < last {
                    old(self).tag_cursor as int
                } else {
                    last
                }
            }),
    {
        match view.selected {
            Some(sel) => match position_of(&view.queue, sel) {
                Some(i) => {
                    self.queue_cursor = i;
                },
                None => {},
            },
            None => {},
        }
        let qlast = if view.queue.len() > 0 {
            view.queue.len() - 1
        } else {
            0
        };
        if self.queue_cursor > qlast {
            self.queue_cursor = qlast;
        }
        let mlast = if view.mini.len() > 0 {
            view.mini.len() - 1
        } else {
            0
        };
        if self.mini_cursor > mlast {
            self.mini_cursor = mlast;
        }
        let tlast = if view.tags.len() > 0 {
            view.tags.len() - 1
        } else {
            0
        };
        if self.tag_cursor > tlast {
            self.tag_cursor = tlast;
        }
    }

    fn move_cursor(&mut self, delta: i64, view: &SnapView, out: &mut Vec<UiEffect>)
        requires
            -1 <= delta <= 1,
        ensures
            final(self).section == old(self).section,
            final(self).mini_focus == old(self).mini_focus,
            final(self).mini_cursor == old(self).mini_cursor,
            final(self).quit == old(self).quit,
            final(self).shutdown == old(self).shutdown,
            match old(self).section {
                Section::Queue => final(self).tag_cursor == old(self).tag_cursor && if view.queue@.len()
                    == 0 || moved(old(self).queue_cursor as int, delta as int, view.queue@.len() as int)
                    == old(self).queue_cursor {
                    final(self).queue_cursor == old(self).queue_cursor && final(out)@ == old(out)@
                } else {
                    let c = moved(old(self).queue_cursor as int, delta as int, view.queue@.len() as int);
                    final(self).queue_cursor == c && final(out)@ == old(out)@.push(
                        UiEffect::Send { cmd: Command::Select { id: view.queue@[c] } },
                    )
                },
                Section::Filter => final(self).queue_cursor == old(self).queue_cursor && final(out)@
                    == old(out)@ && final(self).tag_cursor == (if view.tags@.len() == 0 {
                    old(self).tag_cursor as int
                } else {
                    moved(old(self).tag_cursor as int, delta as int, view.tags@.len() as int)
                }),
                Section::Info => final(self).queue_cursor == old(self).queue_cursor
                    && final(self).tag_cursor == old(self).tag_cursor && final(out)@ == old(out)@,
            },
    {
        match self.section {
            Section::Queue => {
                let len = view.queue.len();
                if len == 0 {
                    return ;
                }
                let new = clamp_move(self.queue_cursor, delta, len);
                if new != self.queue_cursor {
                    self.queue_cursor = new;
                    out.push(UiEffect::Send { cmd: Command::Select { id: view.queue[new] } });
                }
            },
            Section::Filter => {
                let len = view.tags.len();
                if len == 0 {
                    return ;
                }
                self.tag_cursor = clamp_move(self.tag_cursor, delta, len);
            },
            Section::Info => {},
        }
    }

    fn play_cursor(&self, view: &SnapView, out: &mut Vec<UiEffect>)
        ensures
            final(out)@ == (if self.queue_cursor < view.queue@.len() {
                old(out)@.push(
                    UiEffect::Send { cmd: Command::Play { id: view.queue@[self.queue_cursor as int] } },
                )
            } else {
                old(out)@
            }),
    {
        if self.queue_cursor < view.queue.len() {
            out.push(UiEffect::Send { cmd: Command::Play { id: view.queue[self.queue_cursor] } });
        }
    }

    fn toggle_tag_cursor(&self, view: &SnapView, out: &mut Vec<UiEffect>)
        ensures
            final(out)@ == (if self.tag_cursor < view.tags@.len() {
                old(out)@.push(
                    UiEffect::Send {
                        cmd: Command::ToggleTag { tag: view.tags@[self.tag_cursor as int].name },
                    },
                )
            } else {
                old(out)@
            }),
    {
        if self.tag_cursor < view.tags.len() {
            let name = view.tags[self.tag_cursor].name.clone();
            out.push(UiEffect::Send { cmd: Command::ToggleTag { tag: name } });
        }
    }

    /// What a key bound to `action` does, with no dialog or search open;
    /// `volume_step` is the configured volume step.
    pub fn on_action(&mut self, action: Action, view: &SnapView, volume_step: i32) -> (r: Vec<
        UiEffect,
    >)
        requires
            action is VolumeDown ==> volume_step > i32::MIN,
        ensures
            match action {
                Action::ConfirmQuit => *final(self) == *old(self) && r@ == seq![
                    UiEffect::OpenConfirmExit,
                ],
                Action::Detach => *final(self) == (Ui { quit: true, shutdown: false, ..*old(self) })
                    && r@.len() == 0,
                Action::AddMedia => *final(self) == *old(self) && r@ == seq![UiEffect::OpenAddForm],
                Action::EditMedia => *final(self) == *old(self) && r@ == (if view.selected is Some {
                    seq![UiEffect::OpenEditForm]
                } else {
                    Seq::empty()
                }),
                Action::Search => *final(self) == *old(self) && r@ == seq![UiEffect::OpenSearch],
                Action::MoveUp | Action::MoveDown => {
                    let delta: int = if action is MoveUp {
                        -1
                    } else {
                        1
                    };
                    &&& final(self).section == old(self).section
                    &&& final(self).quit == old(self).quit
                    &&& final(self).shutdown == old(self).shutdown
                    &&& final(self).mini_focus == old(self).mini_focus
                    &&& old(self).mini_focus ==> {
                        &&& final(self).queue_cursor == old(self).queue_cursor
                        &&& final(self).tag_cursor == old(self).tag_cursor
                        &&& r@.len() == 0
                        &&& final(self).mini_cursor == (if view.mini@.len() == 0 {
                            old(self).mini_cursor as int
                        } else {
                            moved(old(self).mini_cursor as int, delta, view.mini@.len() as int)
                        })
                    }
                    &&& !old(self).mini_focus ==> final(self).mini_cursor == old(self).mini_cursor
                        && match old(self).section {
                        Section::Queue => final(self).tag_cursor == old(self).tag_cursor && if view.queue@.len()
                            == 0 || moved(old(self).queue_cursor as int, delta, view.queue@.len() as int)
                            == old(self).queue_cursor {
                            final(self).queue_cursor == old(self).queue_cursor && r@.len() == 0
                        } else {
                            let c = moved(old(self).queue_cursor as int, delta, view.queue@.len() as int);
                            final(self).queue_cursor == c && r@ == seq![
                                UiEffect::Send { cmd: Command::Select { id: view.queue@[c] } },
                            ]
                        },
                        Section::Filter => final(self).queue_cursor == old(self).queue_cursor && r@.len()
                            == 0 && final(self).tag_cursor == (if view.tags@.len() == 0 {
                            old(self).tag_cursor as int
                        } else {
                            moved(old(self).tag_cursor as int, delta, view.tags@.len() as int)
                        }),
                        Section::Info => *final(self) == *old(self) && r@.len() == 0,
                    }
                },
                Action::AddMini => *final(self) == *old(self) && r@ == match view.selected {
                    Some(id) => seq![UiEffect::Send { cmd: Command::AddMini { id } }],
                    None => Seq::empty(),
                },
                Action::FocusMini => *final(self) == (Ui {
                    mini_focus: !old(self).mini_focus,
                    ..*old(self)
                }) && r@.len() == 0,
                Action::Delete => *final(self) == *old(self) && r@ == if old(self).mini_focus {
                    if old(self).mini_cursor < view.mini@.len() {
                        seq![
                            UiEffect::Send {
                                cmd: Command::RemoveMini { id: view.mini@[old(self).mini_cursor as int] },
                            },
                        ]
                    } else {
                        Seq::empty()
                    }
                } else {
                    match (old(self).section, view.selected) {
                        (Section::Queue, Some(id)) => seq![UiEffect::ConfirmDelete { id }],
                        _ => Seq::empty(),
                    }
                },
                Action::MiniMoveUp | Action::MiniMoveDown => {
                    let down = action is MiniMoveDown;
                    if old(self).mini_focus && old(self).mini_cursor < view.mini@.len() {
                        &&& *final(self) == (Ui { mini_cursor: final(self).mini_cursor, ..*old(self) })
                        &&& final(self).mini_cursor == moved(
                            old(self).mini_cursor as int,
                            if down {
                                1
                            } else {
                                -1
                            },
                            view.mini@.len() as int,
                        )
                        &&& r@ == seq![
                            UiEffect::Send {
                                cmd: Command::MoveMini {
                                    id: view.mini@[old(self).mini_cursor as int],
                                    down,
                                },
                            },
                        ]
                    } else {
                        *final(self) == *old(self) && r@.len() == 0
                    }
                },
                Action::PrevSection | Action::CycleFocusBack => *final(self) == (Ui {
                    section: section_before(old(self).section),
                    ..*old(self)
                }) && r@.len() == 0,
                Action::NextSection | Action::CycleFocus => *final(self) == (Ui {
                    section: section_after(old(self).section),
                    ..*old(self)
                }) && r@.len() == 0,
                Action::Activate => *final(self) == *old(self) && r@ == match old(self).section {
                    Section::Queue => if old(self).queue_cursor < view.queue@.len() {
                        seq![
                            UiEffect::Send {
                                cmd: Command::Play { id: view.queue@[old(self).queue_cursor as int] },
                            },
                        ]
                    } else {
                        Seq::empty()
                    },
                    Section::Filter => toggle_effects(*old(self), *view),
                    Section::Info => Seq::empty(),
                },
                Action::Toggle => *final(self) == *old(self) && r@ == match old(self).section {
                    Section::Queue => seq![UiEffect::Send { cmd: Command::PlayPause }],
                    Section::Filter => toggle_effects(*old(self), *view),
                    Section::Info => Seq::empty(),
                },
                Action::NextTrack => *final(self) == *old(self) && r@ == seq![
                    UiEffect::Send { cmd: Command::Next },
                ],
                Action::PrevTrack => *final(self) == *old(self) && r@ == seq![
                    UiEffect::Send { cmd: Command::Prev },
                ],
                Action::VolumeUp => *final(self) == *old(self) && r@ == seq![
                    UiEffect::Send { cmd: Command::Volume { delta: volume_step } },
                ],
                Action::VolumeDown => *final(self) == *old(self) && r@ == seq![
                    UiEffect::Send { cmd: Command::Volume { delta: (-volume_step) as i32 } },
                ],
                Action::SeekFwd => *final(self) == *old(self) && r@ == seq![
                    UiEffect::Seek { forward: true },
                ],
                Action::SeekBack => *final(self) == *old(self) && r@ == seq![
                    UiEffect::Seek { forward: false },
                ],
                Action::Repeat => *final(self) == *old(self) && r@ == seq![
                    UiEffect::Send { cmd: Command::RepeatCycle },
                ],
                Action::Shuffle => *final(self) == *old(self) && r@ == seq![
                    UiEffect::Send { cmd: Command::ShuffleToggle },
                ],
                Action::Favorite => *final(self) == *old(self) && r@ == match view.selected {
                    Some(id) => seq![UiEffect::Send { cmd: Command::ToggleFavorite { id } }],
                    None => Seq::empty(),
                },
            },
    {
        let mut out: Vec<UiEffect> = Vec::new();
        match action {
            Action::ConfirmQuit => out.push(UiEffect::OpenConfirmExit),
            Action::Detach => {
                self.quit = true;
                self.shutdown = false;
            },
            Action::AddMedia => out.push(UiEffect::OpenAddForm),
            Action::EditMedia => {
                if view.selected.is_some() {
                    out.push(UiEffect::OpenEditForm);
                }
            },
            Action::Search => out.push(UiEffect::OpenSearch),
            Action::MoveUp | Action::MoveDown => {
                let delta: i64 = match action {
                    Action::MoveUp => -1,
                    _ => 1,
                };
                if self.mini_focus {
                    if view.mini.len() > 0 {
                        self.mini_cursor = clamp_move(self.mini_cursor, delta, view.mini.len());
                    }
                } else {
                    self.move_cursor(delta, view, &mut out);
                }
            },
            Action::PrevSection => self.section = self.section.prev(),
            Action::NextSection | Action::CycleFocus => self.section = self.section.next(),
            Action::CycleFocusBack => self.section = self.section.prev(),
            Action::Activate => match self.section {
                Section::Queue => self.play_cursor(view, &mut out),
                Section::Filter => self.toggle_tag_cursor(view, &mut out),
                Section::Info => {},
            },
            Action::Toggle => match self.section {
                Section::Queue => out.push(UiEffect::Send { cmd: Command::PlayPause }),
                Section::Filter => self.toggle_tag_cursor(view, &mut out),
                Section::Info => {},
            },
            Action::NextTrack => out.push(UiEffect::Send { cmd: Command::Next }),
            Action::PrevTrack => out.push(UiEffect::Send { cmd: Command::Prev }),
            Action::VolumeUp => out.push(UiEffect::Send { cmd: Command::Volume { delta: volume_step } }),
            Action::VolumeDown => out.push(
                UiEffect::Send { cmd: Command::Volume { delta: -volume_step } },
            ),
            Action::SeekFwd => out.push(UiEffect::Seek { forward: true }),
            Action::SeekBack => out.push(UiEffect::Seek { forward: false }),
            Action::Repeat => out.push(UiEffect::Send { cmd: Command::RepeatCycle }),
            Action::Shuffle => out.push(UiEffect::Send { cmd: Command::ShuffleToggle }),
            Action::Favorite => match view.selected {
                Some(id) => out.push(UiEffect::Send { cmd: Command::ToggleFavorite { id } }),
                None => {},
            },
            Action::AddMini => match view.selected {
                Some(id) => out.push(UiEffect::Send { cmd: Command::AddMini { id } }),
                None => {},
            },
            Action::FocusMini => {
                self.mini_focus = !self.mini_focus;
            },
            Action::Delete => {
                if self.mini_focus {
                    if self.mini_cursor < view.mini.len() {
                        out.push(
                            UiEffect::Send {
                                cmd: Command::RemoveMini { id: view.mini[self.mini_cursor] },
                            },
                        );
                    }
                } else {
                    match (self.section, view.selected) {
                        (Section::Queue, Some(id)) => out.push(UiEffect::ConfirmDelete { id }),
                        _ => {},
                    }
                }
            },
            Action::MiniMoveUp | Action::MiniMoveDown => {
                let down = match action {
                    Action::MiniMoveDown => true,
                    _ => false,
                };
                if self.mini_focus && self.mini_cursor < view.mini.len() {
                    let id = view.mini[self.mini_cursor];
                    self.mini_cursor = clamp_move(
                        self.mini_cursor,
                        if down {
                            1
                        } else {
                            -1
                        },
                        view.mini.len(),
                    );
                    out.push(UiEffect::Send { cmd: Command::MoveMini { id, down } });
                }
            },
        }
        out
    }

    /// How a dialog's answer to a key press changes the interface; the
    /// result tells whether the dialog closes.
    pub fn on_dialog(&mut self, outcome: DialogOutcome) -> (r: (bool, Vec<UiEffect>))
        ensures
            match outcome {
                DialogOutcome::Stay => *final(self) == *old(self) && !r.0 && r.1@.len() == 0,
                DialogOutcome::Submit { form } => *final(self) == *old(self) && r.0 && r.1@.len()
                    == 1 && (r.1@[0] matches UiEffect::Send { cmd } && (match form {
                    FormCommand::Add { uri, name, tags } => cmd == (Command::Add {
                        uri,
                        name: optional(name),
                        tags,
                    }),
                    FormCommand::Update { id, name, title, artist, tags } => cmd == (
                    Command::Update { id, name, title: optional(title), artist: optional(artist), tags }),
                })),
                DialogOutcome::ConfirmExitYes => *final(self) == (Ui {
                    quit: true,
                    shutdown: true,
                    ..*old(self)
                }) && r.0 && r.1@.len() == 0,
                DialogOutcome::ConfirmDeleteYes { id } => *final(self) == *old(self) && r.0 && r.1@
                    == seq![UiEffect::Send { cmd: Command::Delete { id } }],
                DialogOutcome::Cancel => *final(self) == *old(self) && r.0 && r.1@.len() == 0,
            },
    {
        let mut out: Vec<UiEffect> = Vec::new();
        match outcome {
            DialogOutcome::Stay => (false, out),
            DialogOutcome::Submit { form } => {
                out.push(UiEffect::Send { cmd: apply_form(form) });
                (true, out)
            },
            DialogOutcome::ConfirmExitYes => {
                self.shutdown = true;
                self.quit = true;
                (true, out)
            },
            DialogOutcome::ConfirmDeleteYes { id } => {
                out.push(UiEffect::Send { cmd: Command::Delete { id } });
                (true, out)
            },
            DialogOutcome::Cancel => (true, out),
        }
    }

    /// A left click at a cell, with no dialog or search open: in the queue
    /// pane it moves the cursor to the clicked row and selects its medium;
    /// in the filter pane it toggles the clicked tag.
    pub fn on_click(
        &mut self,
        column: u16,
        row: u16,
        queue_area: Area,
        filter_area: Area,
        view: &SnapView,
    ) -> (r: Vec<UiEffect>)
        ensures
            final(self).section == old(self).section,
            final(self).mini_focus == old(self).mini_focus,
            final(self).mini_cursor == old(self).mini_cursor,
            final(self).tag_cursor == old(self).tag_cursor,
            final(self).quit == old(self).quit,
            final(self).shutdown == old(self).shutdown,
            if area_contains(queue_area, column, row) {
                let rel = row_in(queue_area, row);
                if rel < view.queue@.len() {
                    final(self).queue_cursor == rel && r@ == seq![
                        UiEffect::Send { cmd: Command::Select { id: view.queue@[rel] } },
                    ]
                } else {
                    final(self).queue_cursor == old(self).queue_cursor && r@.len() == 0
                }
            } else if area_contains(filter_area, column, row) {
                let rel = row_in(filter_area, row);
                final(self).queue_cursor == old(self).queue_cursor && r@ == if rel
                    < view.tags@.len() {
                    seq![UiEffect::Send { cmd: Command::ToggleTag { tag: view.tags@[rel].name } }]
                } else {
                    Seq::empty()
                }
            } else {
                final(self).queue_cursor == old(self).queue_cursor && r@.len() == 0
            },
    {
        let mut out: Vec<UiEffect> = Vec::new();
        if queue_area.contains(column, row) {
            let rel = queue_area.row_below_top(row);
            if rel < view.queue.len() {
                self.queue_cursor = rel;
                out.push(UiEffect::Send { cmd: Command::Select { id: view.queue[rel] } });
            }
        } else if filter_area.contains(column, row) {
            let rel = filter_area.row_below_top(row);
            if rel < view.tags.len() {
                let name = view.tags[rel].name.clone();
                out.push(UiEffect::Send { cmd: Command::ToggleTag { tag: name } });
            }
        }
        out
    }
}

/// What toggling the tag under the filter cursor sends.
pub open spec fn toggle_effects(u: Ui, view: SnapView) -> Seq<UiEffect> {
    if u.tag_cursor < view.tags@.len() {
        seq![UiEffect::Send { cmd: Command::ToggleTag { tag: view.tags@[u.tag_cursor as int].name } }]
    } else {
        Seq::empty()
    }
}

/// In the filter pane, Enter and Space toggle the tag under the cursor,
/// checked or not: with the cursor on a tag they send exactly one
/// `ToggleTag` naming that tag (so the keyboard checks an unchecked tag as
/// well as it unchecks a checked one), and past the list they send nothing.
pub proof fn lemma_toggle_names_the_tag_under_the_cursor(u: Ui, view: SnapView, view2: SnapView)
    requires
        view2.tags@.len() == view.tags@.len(),
        forall|i: int| 0 <= i < view.tags@.len() ==> (#[trigger] view2.tags@[i]).name == view.tags@[i].name,
    ensures
        u.tag_cursor < view.tags@.len() ==> toggle_effects(u, view).len() == 1 && toggle_effects(
            u,
            view,
        )[0] == (UiEffect::Send {
            cmd: Command::ToggleTag { tag: view.tags@[u.tag_cursor as int].name },
        }),
        u.tag_cursor >= view.tags@.len() ==> toggle_effects(u, view).len() == 0,
        toggle_effects(u, view2) == toggle_effects(u, view),
{
    if u.tag_cursor < view.tags@.len() {
        assert(view2.tags@[u.tag_cursor as int].name == view.tags@[u.tag_cursor as int].name);
    }
}

fn clamp_move(cursor: usize, delta: i64, len: usize) -> (r: usize)
    requires
        -1 <= delta <= 1,
        len > 0,
    ensures
        r == moved(cursor as int, delta as int, len as int),
{
    if delta < 0 {
        if cursor == 0 {
            0
        } else if cursor - 1 > len - 1 {
            len - 1
        } else {
            cursor - 1
        }
    } else if delta == 0 {
        if cursor > len - 1 {
            len - 1
        } else {
            cursor
        }
    } else {
        if cursor >= len - 1 {
            len - 1
        } else {
            cursor + 1
        }
    }
}

} // verus!
