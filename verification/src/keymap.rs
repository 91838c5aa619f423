//! Key handling: the actions of the interface, the names a key press goes
//! by in the configuration, and the key map built from the bindings.

use vstd::prelude::*;
use vstd::hash_map::StringHashMap;
use crate::config::{Config, Bindings, default_binding_map};
use crate::text::{decimal, decimal_string, push_char, str_eq};

verus! {

/// What a key can be bound to.
#[derive(Debug, Clone, Copy, PartialEq, Eq, Structural)]
pub enum Action {
    MoveUp,
    MoveDown,
    PrevSection,
    NextSection,
    CycleFocus,
    CycleFocusBack,
    Activate,
    Toggle,
    NextTrack,
    PrevTrack,
    VolumeUp,
    VolumeDown,
    SeekBack,
    SeekFwd,
    Repeat,
    Shuffle,
    AddMedia,
    EditMedia,
    Search,
    Favorite,
    AddMini,
    FocusMini,
    Delete,
    MiniMoveUp,
    MiniMoveDown,
    ConfirmQuit,
    Detach,
}

/// The name an action goes by in the configuration.
pub open spec fn action_name(a: Action) -> Seq<char> {
    match a {
        Action::MoveUp => "move_up"@,
        Action::MoveDown => "move_down"@,
        Action::PrevSection => "prev_section"@,
        Action::NextSection => "next_section"@,
        Action::CycleFocus => "cycle_focus"@,
        Action::CycleFocusBack => "cycle_focus_back"@,
        Action::Activate => "activate"@,
        Action::Toggle => "toggle"@,
        Action::NextTrack => "next_track"@,
        Action::PrevTrack => "prev_track"@,
        Action::VolumeUp => "volume_up"@,
        Action::VolumeDown => "volume_down"@,
        Action::SeekBack => "seek_back"@,
        Action::SeekFwd => "seek_fwd"@,
        Action::Repeat => "repeat"@,
        Action::Shuffle => "shuffle"@,
        Action::AddMedia => "add_media"@,
        Action::EditMedia => "edit_media"@,
        Action::Search => "search"@,
        Action::Favorite => "favorite"@,
        Action::AddMini => "add_mini"@,
        Action::FocusMini => "focus_mini"@,
        Action::Delete => "delete"@,
        Action::MiniMoveUp => "mini_move_up"@,
        Action::MiniMoveDown => "mini_move_down"@,
        Action::ConfirmQuit => "confirm_quit"@,
        Action::Detach => "detach"@,
    }
}

/// The action a name stands for: the one whose name it is, if any.
pub open spec fn action_of_name(name: Seq<char>) -> Option<Action> {
    if name == "move_up"@ {
        Some(Action::MoveUp)
    } else if name == "move_down"@ {
        Some(Action::MoveDown)
    } else if name == "prev_section"@ {
        Some(Action::PrevSection)
    } else if name == "next_section"@ {
        Some(Action::NextSection)
    } else if name == "cycle_focus"@ {
        Some(Action::CycleFocus)
    } else if name == "cycle_focus_back"@ {
        Some(Action::CycleFocusBack)
    } else if name == "activate"@ {
        Some(Action::Activate)
    } else if name == "toggle"@ {
        Some(Action::Toggle)
    } else if name == "next_track"@ {
        Some(Action::NextTrack)
    } else if name == "prev_track"@ {
        Some(Action::PrevTrack)
    } else if name == "volume_up"@ {
        Some(Action::VolumeUp)
    } else if name == "volume_down"@ {
        Some(Action::VolumeDown)
    } else if name == "seek_back"@ {
        Some(Action::SeekBack)
    } else if name == "seek_fwd"@ {
        Some(Action::SeekFwd)
    } else if name == "repeat"@ {
        Some(Action::Repeat)
    } else if name == "shuffle"@ {
        Some(Action::Shuffle)
    } else if name == "add_media"@ {
        Some(Action::AddMedia)
    } else if name == "edit_media"@ {
        Some(Action::EditMedia)
    } else if name == "search"@ {
        Some(Action::Search)
    } else if name == "favorite"@ {
        Some(Action::Favorite)
    } else if name == "add_mini"@ {
        Some(Action::AddMini)
    } else if name == "focus_mini"@ {
        Some(Action::FocusMini)
    } else if name == "delete"@ {
        Some(Action::Delete)
    } else if name == "mini_move_up"@ {
        Some(Action::MiniMoveUp)
    } else if name == "mini_move_down"@ {
        Some(Action::MiniMoveDown)
    } else if name == "confirm_quit"@ {
        Some(Action::ConfirmQuit)
    } else if name == "detach"@ {
        Some(Action::Detach)
    } else {
        None
    }
}

/// The action named `name` in a configuration, or `None` for an unknown name.
pub fn action_from_str(name: &str) -> (r: Option<Action>)
    ensures
        r == action_of_name(name@),
{
    if str_eq(name, "move_up") {
        Some(Action::MoveUp)
    } else if str_eq(name, "move_down") {
        Some(Action::MoveDown)
    } else if str_eq(name, "prev_section") {
        Some(Action::PrevSection)
    } else if str_eq(name, "next_section") {
        Some(Action::NextSection)
    } else if str_eq(name, "cycle_focus") {
        Some(Action::CycleFocus)
    } else if str_eq(name, "cycle_focus_back") {
        Some(Action::CycleFocusBack)
    } else if str_eq(name, "activate") {
        Some(Action::Activate)
    } else if str_eq(name, "toggle") {
        Some(Action::Toggle)
    } else if str_eq(name, "next_track") {
        Some(Action::NextTrack)
    } else if str_eq(name, "prev_track") {
        Some(Action::PrevTrack)
    } else if str_eq(name, "volume_up") {
        Some(Action::VolumeUp)
    } else if str_eq(name, "volume_down") {
        Some(Action::VolumeDown)
    } else if str_eq(name, "seek_back") {
        Some(Action::SeekBack)
    } else if str_eq(name, "seek_fwd") {
        Some(Action::SeekFwd)
    } else if str_eq(name, "repeat") {
        Some(Action::Repeat)
    } else if str_eq(name, "shuffle") {
        Some(Action::Shuffle)
    } else if str_eq(name, "add_media") {
        Some(Action::AddMedia)
    } else if str_eq(name, "edit_media") {
        Some(Action::EditMedia)
    } else if str_eq(name, "search") {
        Some(Action::Search)
    } else if str_eq(name, "favorite") {
        Some(Action::Favorite)
    } else if str_eq(name, "add_mini") {
        Some(Action::AddMini)
    } else if str_eq(name, "focus_mini") {
        Some(Action::FocusMini)
    } else if str_eq(name, "delete") {
        Some(Action::Delete)
    } else if str_eq(name, "mini_move_up") {
        Some(Action::MiniMoveUp)
    } else if str_eq(name, "mini_move_down") {
        Some(Action::MiniMoveDown)
    } else if str_eq(name, "confirm_quit") {
        Some(Action::ConfirmQuit)
    } else if str_eq(name, "detach") {
        Some(Action::Detach)
    } else {
        None
    }
}

/// The lengths of the action names, and enough of their characters to tell
/// apart the names of equal length.
proof fn lemma_action_name_facts()
    ensures
        "move_up"@.len() == 7,
        "move_up"@[0] == 'm',
        "shuffle"@.len() == 7,
        "shuffle"@[0] == 's',
        "move_down"@.len() == 9,
        "move_down"@[0] == 'm',
        "volume_up"@.len() == 9,
        "volume_up"@[0] == 'v',
        "seek_back"@.len() == 9,
        "seek_back"@[0] == 's',
        "add_media"@.len() == 9,
        "add_media"@[0] == 'a',
        "prev_section"@.len() == 12,
        "prev_section"@[0] == 'p',
        "next_section"@.len() == 12,
        "next_section"@[0] == 'n',
        "mini_move_up"@.len() == 12,
        "mini_move_up"@[0] == 'm',
        "confirm_quit"@.len() == 12,
        "confirm_quit"@[0] == 'c',
        "cycle_focus"@.len() == 11,
        "cycle_focus"@[0] == 'c',
        "volume_down"@.len() == 11,
        "volume_down"@[0] == 'v',
        "cycle_focus_back"@.len() == 16,
        "activate"@.len() == 8,
        "activate"@[1] == 'c',
        "seek_fwd"@.len() == 8,
        "seek_fwd"@[1] == 'e',
        "favorite"@.len() == 8,
        "favorite"@[1] == 'a',
        "add_mini"@.len() == 8,
        "add_mini"@[1] == 'd',
        "toggle"@.len() == 6,
        "toggle"@[2] == 'g',
        "repeat"@.len() == 6,
        "repeat"@[2] == 'p',
        "search"@.len() == 6,
        "search"@[2] == 'a',
        "delete"@.len() == 6,
        "delete"@[2] == 'l',
        "detach"@.len() == 6,
        "detach"@[2] == 't',
        "next_track"@.len() == 10,
        "next_track"@[0] == 'n',
        "prev_track"@.len() == 10,
        "prev_track"@[0] == 'p',
        "edit_media"@.len() == 10,
        "edit_media"@[0] == 'e',
        "focus_mini"@.len() == 10,
        "focus_mini"@[0] == 'f',
        "mini_move_down"@.len() == 14,
{
    reveal_strlit("move_up");
    reveal_strlit("move_down");
    reveal_strlit("prev_section");
    reveal_strlit("next_section");
    reveal_strlit("cycle_focus");
    reveal_strlit("cycle_focus_back");
    reveal_strlit("activate");
    reveal_strlit("toggle");
    reveal_strlit("next_track");
    reveal_strlit("prev_track");
    reveal_strlit("volume_up");
    reveal_strlit("volume_down");
    reveal_strlit("seek_back");
    reveal_strlit("seek_fwd");
    reveal_strlit("repeat");
    reveal_strlit("shuffle");
    reveal_strlit("add_media");
    reveal_strlit("edit_media");
    reveal_strlit("search");
    reveal_strlit("favorite");
    reveal_strlit("add_mini");
    reveal_strlit("focus_mini");
    reveal_strlit("delete");
    reveal_strlit("mini_move_up");
    reveal_strlit("mini_move_down");
    reveal_strlit("confirm_quit");
    reveal_strlit("detach");
}

/// Every action can be named in a configuration: its name parses back to it,
/// and a name that parses names that action.
pub proof fn lemma_action_name_round_trip(a: Action, name: Seq<char>)
    ensures
        action_of_name(action_name(a)) == Some(a),
        action_of_name(name) == Some(a) ==> name == action_name(a),
{
    lemma_action_name_facts();
    match a {
        Action::MoveUp => {},
        Action::MoveDown => {},
        Action::PrevSection => {},
        Action::NextSection => {},
        Action::CycleFocus => {},
        Action::CycleFocusBack => {},
        Action::Activate => {},
        Action::Toggle => {},
        Action::NextTrack => {},
        Action::PrevTrack => {},
        Action::VolumeUp => {},
        Action::VolumeDown => {},
        Action::SeekBack => {},
        Action::SeekFwd => {},
        Action::Repeat => {},
        Action::Shuffle => {},
        Action::AddMedia => {},
        Action::EditMedia => {},
        Action::Search => {},
        Action::Favorite => {},
        Action::AddMini => {},
        Action::FocusMini => {},
        Action::Delete => {},
        Action::MiniMoveUp => {},
        Action::MiniMoveDown => {},
        Action::ConfirmQuit => {},
        Action::Detach => {},
    }
}

/// Which key was pressed.
#[derive(Debug, Clone, Copy, PartialEq, Eq)]
pub enum KeyCode {
    Char(char),
    Enter,
    Esc,
    Tab,
    BackTab,
    Up,
    Down,
    Left,
    Right,
    F(u8),
    /// A key that no binding can name (backspace, home, media keys, ...).
    Other,
}

/// Whether the key went down, repeats while held, or came up.
#[derive(Debug, Clone, Copy, PartialEq, Eq)]
pub enum KeyEventKind {
    Press,
    Repeat,
    Release,
}

/// The modifier keys held with a key.
#[derive(Debug, Clone, Copy, PartialEq, Eq)]
pub struct KeyModifiers {
    pub shift: bool,
    pub control: bool,
    pub alt: bool,
}

impl KeyModifiers {
    /// No modifier.
    pub fn none() -> (r: KeyModifiers)
        ensures
            !r.shift && !r.control && !r.alt,
    {
        KeyModifiers { shift: false, control: false, alt: false }
    }

    /// Shift alone.
    pub fn shift() -> (r: KeyModifiers)
        ensures
            r.shift && !r.control && !r.alt,
    {
        KeyModifiers { shift: true, control: false, alt: false }
    }

    /// Control alone.
    pub fn control() -> (r: KeyModifiers)
        ensures
            !r.shift && r.control && !r.alt,
    {
        KeyModifiers { shift: false, control: true, alt: false }
    }
}

/// One key event of the terminal.
#[derive(Debug, Clone, Copy, PartialEq, Eq)]
pub struct KeyEvent {
    pub code: KeyCode,
    pub modifiers: KeyModifiers,
    pub kind: KeyEventKind,
}

impl KeyEvent {
    /// A key press.
    pub fn new(code: KeyCode, modifiers: KeyModifiers) -> (r: KeyEvent)
        ensures
            r.code == code,
            r.modifiers == modifiers,
            r.kind == KeyEventKind::Press,
    {
        KeyEvent { code, modifiers, kind: KeyEventKind::Press }
    }
}

/// The name a key event goes by in the bindings. Only presses have one:
/// a character is itself (an upper-case letter stays upper-case, with or
/// without the shift flag), except that the space is `space` and that with
/// control it is `ctrl+` and the character; the named keys are `enter`,
/// `esc`, `tab`, `backtab`, `up`, `down`, `left`, `right` and `f` with the
/// number of the function key.
pub open spec fn key_name(e: KeyEvent) -> Option<Seq<char>> {
    if !(e.kind is Press) {
        None
    } else {
        match e.code {
            KeyCode::Char(c) => if e.modifiers.control {
                Some("ctrl+"@.push(c))
            } else if c == ' ' {
                Some("space"@)
            } else {
                Some(seq![c])
            },
            KeyCode::Enter => Some("enter"@),
            KeyCode::Esc => Some("esc"@),
            KeyCode::Tab => Some("tab"@),
            KeyCode::BackTab => Some("backtab"@),
            KeyCode::Up => Some("up"@),
            KeyCode::Down => Some("down"@),
            KeyCode::Left => Some("left"@),
            KeyCode::Right => Some("right"@),
            KeyCode::F(n) => Some("f"@ + decimal(n as nat)),
            KeyCode::Other => None,
        }
    }
}

fn char_string(c: char) -> (r: String)
    ensures
        r@ == seq![c],
{
    let mut s = String::new();
    push_char(&mut s, c);
    assert(s@ =~= seq![c]);
    s
}

/// The name of a key event in the bindings, or `None` where it has none.
pub fn key_string(key: KeyEvent) -> (r: Option<String>)
    ensures
        match r {
            Some(s) => key_name(key) == Some(s@),
            None => key_name(key) is None,
        },
{
    match key.kind {
        KeyEventKind::Press => {},
        _ => {
            return None;
        },
    }
    match key.code {
        KeyCode::Char(c) => {
            if key.modifiers.control {
                let mut s = String::from_str("ctrl+");
                push_char(&mut s, c);
                Some(s)
            } else if 'A' <= c && c <= 'Z' {
                Some(char_string(c))
            } else if c == ' ' {
                Some(String::from_str("space"))
            } else {
                Some(char_string(c))
            }
        },
        KeyCode::Enter => Some(String::from_str("enter")),
        KeyCode::Esc => Some(String::from_str("esc")),
        KeyCode::Tab => Some(String::from_str("tab")),
        KeyCode::BackTab => Some(String::from_str("backtab")),
        KeyCode::Up => Some(String::from_str("up")),
        KeyCode::Down => Some(String::from_str("down")),
        KeyCode::Left => Some(String::from_str("left")),
        KeyCode::Right => Some(String::from_str("right")),
        KeyCode::F(n) => {
            let digits = decimal_string(n as u64);
            Some(String::from_str("f").concat(digits.as_str()))
        },
        KeyCode::Other => None,
    }
}

/// The key map that bindings give: each bound key whose action name is
/// known maps to that action; keys bound to unknown names are left out.
pub open spec fn keymap_of(b: Map<Seq<char>, Seq<char>>) -> Map<Seq<char>, Action> {
    Map::new(
        |k: Seq<char>| b.contains_key(k) && action_of_name(b[k]) is Some,
        |k: Seq<char>|
            match action_of_name(b[k]) {
                Some(a) => a,
                None => Action::MoveUp,
            },
    )
}

/// Key name to action.
pub struct Keymap {
    map: StringHashMap<Action>,
}

impl View for Keymap {
    type V = Map<Seq<char>, Action>;

    closed spec fn view(&self) -> Map<Seq<char>, Action> {
        self.map@
    }
}

impl Keymap {
    /// The key map of a configuration's bindings.
    pub fn build(cfg: &Config) -> (r: Keymap)
        ensures
            r@ == keymap_of(cfg.keybindings@),
    {
        let b: &Bindings = &cfg.keybindings;
        proof {
            use_type_invariant(b);
            b.lemma_entries();
        }
        let mut map: StringHashMap<Action> = StringHashMap::new();
        let n = b.len();
        let mut i: usize = 0;
        while i < n
            invariant
                n == b.len_spec(),
                i <= n,
                forall|x: int, y: int|
                    0 <= x < y < b.len_spec() ==> #[trigger] b.key_spec(x) != #[trigger] b.key_spec(
                        y,
                    ),
                forall|k: Seq<char>|
                    #[trigger] map@.contains_key(k) ==> exists|j: int|
                        0 <= j < i && #[trigger] b.key_spec(j) == k && action_of_name(
                            b.value_spec(j),
                        ) is Some,
                forall|j: int|
                    0 <= j < i && (#[trigger] action_of_name(b.value_spec(j))) is Some
                        ==> map@.contains_key(b.key_spec(j)) && Some(map@[b.key_spec(j)])
                        == action_of_name(b.value_spec(j)),
            decreases n - i,
        {
            let key = b.key_at(i);
            let value = b.value_at(i);
            let parsed = action_from_str(value.as_str());
            match parsed {
                Some(a) => {
                    map.insert(key.clone(), a);
                },
                None => {},
            }
            proof {
                assert forall|j: int|
                    0 <= j < i + 1 && (#[trigger] action_of_name(b.value_spec(j))) is Some
                        implies map@.contains_key(b.key_spec(j)) && Some(map@[b.key_spec(j)])
                    == action_of_name(b.value_spec(j)) by {
                    if j < i {
                        assert(b.key_spec(j) != b.key_spec(i as int));
                    }
                }
            }
            i = i + 1;
        }
        proof {
            assert forall|k: Seq<char>| #[trigger] map@.contains_key(k) == keymap_of(
                b@,
            ).contains_key(k) by {
                if map@.contains_key(k) {
                    let j = choose|j: int|
                        0 <= j < n && #[trigger] b.key_spec(j) == k && action_of_name(
                            b.value_spec(j),
                        ) is Some;
                    assert(b@.contains_key(b.key_spec(j)));
                }
                if keymap_of(b@).contains_key(k) {
                    assert(b@.contains_key(k));
                    let j = choose|j: int| 0 <= j < b.len_spec() && #[trigger] b.key_spec(j) == k;
                    assert(b@[b.key_spec(j)] == b.value_spec(j));
                }
            }
            assert forall|k: Seq<char>| #[trigger] map@.contains_key(k) implies map@[k] == keymap_of(
                b@,
            )[k] by {
                let j = choose|j: int|
                    0 <= j < n && #[trigger] b.key_spec(j) == k && action_of_name(b.value_spec(j))
                        is Some;
                assert(b@[b.key_spec(j)] == b.value_spec(j));
            }
            assert(map@ =~= keymap_of(b@));
        }
        Keymap { map }
    }

    /// The action bound to a key event, if the event has a name and the
    /// name is bound.
    pub fn resolve(&self, key: KeyEvent) -> (r: Option<Action>)
        ensures
            r == (match key_name(key) {
                Some(s) => if self@.contains_key(s) {
                    Some(self@[s])
                } else {
                    None
                },
                None => None,
            }),
    {
        match key_string(key) {
            Some(s) => match self.map.get(s.as_str()) {
                Some(a) => Some(*a),
                None => None,
            },
            None => None,
        }
    }
}

/// Every built-in binding names a known action, so each built-in key
/// resolves to the action it is bound to.
pub proof fn lemma_default_bindings_all_known()
    ensures
        keymap_of(default_binding_map()).dom() == default_binding_map().dom(),
        forall|k: Seq<char>|
            #[trigger] default_binding_map().contains_key(k) ==> action_name(
                keymap_of(default_binding_map())[k],
            ) == default_binding_map()[k],
{
    let d = default_binding_map();
    assert forall|k: Seq<char>| #[trigger] d.contains_key(k) implies action_of_name(d[k]) is Some
        && action_name(keymap_of(d)[k]) == d[k] by {
        lemma_action_name_facts();
        let a = action_of_name(d[k]).unwrap();
        lemma_action_name_round_trip(a, d[k]);
    }
    assert(keymap_of(d).dom() =~= d.dom());
}

/// A binding to an action's name makes its key resolve to that action.
pub proof fn lemma_bound_name_resolves(b: Map<Seq<char>, Seq<char>>, key: Seq<char>, a: Action)
    requires
        b.contains_key(key),
        b[key] == action_name(a),
    ensures
        keymap_of(b).contains_key(key),
        keymap_of(b)[key] == a,
{
    lemma_action_name_round_trip(a, b[key]);
}

} // verus!
