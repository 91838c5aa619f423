//! Where the player keeps its files, and its configuration: the mpv binary,
//! the volume step and the key bindings, with the built-in bindings that a
//! configuration file extends or overrides.

use vstd::prelude::*;
use crate::text::str_eq;

verus! {

/// `base.join(child)` on Unix: an absolute `child` replaces `base`;
/// otherwise a separator goes between the two unless `base` is empty or
/// already ends with one.
pub open spec fn path_join(base: Seq<char>, child: Seq<char>) -> Seq<char> {
    if child.len() > 0 && child[0] == '/' {
        child
    } else if base.len() == 0 {
        child
    } else if base.last() == '/' {
        base + child
    } else {
        base + seq!['/'] + child
    }
}

/// The directory that holds everything: `$RMP2_DIR` when set, else
/// `rmp2` under `$XDG_CONFIG_HOME`, else under `$HOME/.config`, else under `.`.
pub open spec fn config_dir_spec(
    rmp2_dir: Option<Seq<char>>,
    xdg_config_home: Option<Seq<char>>,
    home: Option<Seq<char>>,
) -> Seq<char> {
    match rmp2_dir {
        Some(d) => d,
        None => {
            let base = match xdg_config_home {
                Some(p) => p,
                None => match home {
                    Some(h) => path_join(h, ".config"@),
                    None => "."@,
                },
            };
            path_join(base, "rmp2"@)
        },
    }
}

/// Joins a path onto `base` (`Path::join`).
pub fn join_path(base: &str, child: &str) -> (r: String)
    ensures
        r@ == path_join(base@, child@),
{
    let n = base.unicode_len();
    if child.unicode_len() > 0 && child.get_char(0) == '/' {
        String::from_str(child)
    } else if n == 0 {
        String::from_str(child)
    } else if base.get_char(n - 1) == '/' {
        String::from_str(base).concat(child)
    } else {
        let r = String::from_str(base).concat("/").concat(child);
        proof {
            reveal_strlit("/");
            assert(r@ =~= base@ + seq!['/'] + child@);
        }
        r
    }
}

/// The configuration directory, from the values of the environment
/// variables `RMP2_DIR`, `XDG_CONFIG_HOME` and `HOME` (each `None` when unset).
pub fn config_dir_from(
    rmp2_dir: Option<String>,
    xdg_config_home: Option<String>,
    home: Option<String>,
) -> (r: String)
    ensures
        r@ == config_dir_spec(
            match rmp2_dir {
                Some(d) => Some(d@),
                None => None,
            },
            match xdg_config_home {
                Some(d) => Some(d@),
                None => None,
            },
            match home {
                Some(d) => Some(d@),
                None => None,
            },
        ),
{
    proof {
        reveal_strlit("rmp2");
        reveal_strlit(".config");
    }
    match rmp2_dir {
        Some(d) => d,
        None => {
            let base = match xdg_config_home {
                Some(p) => p,
                None => match home {
                    Some(h) => join_path(h.as_str(), ".config"),
                    None => String::from_str("."),
                },
            };
            join_path(base.as_str(), "rmp2")
        },
    }
}

/// The files of the player, all under one root directory.
pub struct Paths {
    pub root: String,
    pub config: String,
    pub db: String,
    pub sock: String,
    pub pid: String,
    pub state: String,
    pub log: String,
}

impl Paths {
    /// The file names under `root`.
    pub fn under(root: String) -> (r: Paths)
        ensures
            r.root@ == root@,
            r.config@ == path_join(root@, "config.toml"@),
            r.db@ == path_join(root@, "library.sqlite3"@),
            r.sock@ == path_join(root@, "rmp.sock"@),
            r.pid@ == path_join(root@, "rmp.pid"@),
            r.state@ == path_join(root@, "last-state.json"@),
            r.log@ == path_join(root@, "rmp.log"@),
    {
        proof {
            reveal_strlit("config.toml");
            reveal_strlit("library.sqlite3");
            reveal_strlit("rmp.sock");
            reveal_strlit("rmp.pid");
            reveal_strlit("last-state.json");
            reveal_strlit("rmp.log");
        }
        let config = join_path(root.as_str(), "config.toml");
        let db = join_path(root.as_str(), "library.sqlite3");
        let sock = join_path(root.as_str(), "rmp.sock");
        let pid = join_path(root.as_str(), "rmp.pid");
        let state = join_path(root.as_str(), "last-state.json");
        let log = join_path(root.as_str(), "rmp.log");
        Paths { root, config, db, sock, pid, state, log }
    }
}

/// The map that a list of (key, action name) entries stands for; a later
/// entry for a key wins over an earlier one.
pub open spec fn entries_map(s: Seq<(String, String)>) -> Map<Seq<char>, Seq<char>>
    decreases s.len(),
{
    if s.len() == 0 {
        Map::empty()
    } else {
        entries_map(s.drop_last()).insert(s.last().0@, s.last().1@)
    }
}

/// No key occurs twice.
pub open spec fn distinct_keys(s: Seq<(String, String)>) -> bool {
    forall|i: int, j: int| 0 <= i < j < s.len() ==> #[trigger] s[i].0@ != #[trigger] s[j].0@
}

proof fn lemma_entries_map_dom(s: Seq<(String, String)>, k: Seq<char>)
    ensures
        entries_map(s).contains_key(k) <==> exists|j: int| 0 <= j < s.len() && (#[trigger] s[j]).0@
            == k,
    decreases s.len(),
{
    if s.len() > 0 {
        let t = s.drop_last();
        lemma_entries_map_dom(t, k);
        if entries_map(t).contains_key(k) {
            let j = choose|j: int| 0 <= j < t.len() && (#[trigger] t[j]).0@ == k;
            assert(s[j] == t[j]);
        }
        if exists|j: int| 0 <= j < s.len() && (#[trigger] s[j]).0@ == k {
            let j = choose|j: int| 0 <= j < s.len() && (#[trigger] s[j]).0@ == k;
            if j < s.len() - 1 {
                assert(t[j] == s[j]);
            }
        }
    }
}

proof fn lemma_entries_map_value(s: Seq<(String, String)>, j: int)
    requires
        distinct_keys(s),
        0 <= j < s.len(),
    ensures
        entries_map(s).contains_key(s[j].0@),
        entries_map(s)[s[j].0@] == s[j].1@,
    decreases s.len(),
{
    if j < s.len() - 1 {
        let t = s.drop_last();
        assert(t[j] == s[j]);
        assert(s[j].0@ != s[s.len() - 1].0@);
        lemma_entries_map_value(t, j);
    }
}

/// Key bindings: a map from key names (`"j"`, `"ctrl+k"`, `"enter"`) to
/// action names (`"move_down"`), kept as a list in which no key occurs twice.
/// (vstd specifies `BTreeMap` and `HashMap` only for keys whose comparison
/// it knows, which `String` is not, so a list it is: every operation below
/// is stated over the map this list stands for.)
pub struct Bindings {
    entries: Vec<(String, String)>,
}

impl View for Bindings {
    type V = Map<Seq<char>, Seq<char>>;

    closed spec fn view(&self) -> Map<Seq<char>, Seq<char>> {
        entries_map(self.entries@)
    }
}

fn find_entry(entries: &Vec<(String, String)>, key: &str) -> (r: Option<usize>)
    ensures
        match r {
            Some(i) => i < entries@.len() && entries@[i as int].0@ == key@,
            None => !entries_map(entries@).contains_key(key@),
        },
{
    let n = entries.len();
    let mut i: usize = 0;
    while i < n
        invariant
            n == entries@.len(),
            i <= n,
            forall|j: int| 0 <= j < i ==> (#[trigger] entries@[j]).0@ != key@,
        decreases n - i,
    {
        if str_eq(entries[i].0.as_str(), key) {
            return Some(i);
        }
        i = i + 1;
    }
    proof {
        lemma_entries_map_dom(entries@, key@);
    }
    None
}

fn insert_entry(entries: &mut Vec<(String, String)>, key: String, value: String)
    requires
        distinct_keys(old(entries)@),
    ensures
        distinct_keys(final(entries)@),
        entries_map(final(entries)@) == entries_map(old(entries)@).insert(key@, value@),
{
    match find_entry(entries, key.as_str()) {
        Some(i) => {
            let ghost s = entries@;
            let ghost k = key@;
            let ghost v = value@;
            entries.set(i, (key, value));
            proof {
                let t = entries@;
                assert(t == s.update(i as int, t[i as int]));
                assert forall|a: int, b: int| 0 <= a < b < t.len() implies #[trigger] t[a].0@
                    != #[trigger] t[b].0@ by {
                    assert(s[a].0@ != s[b].0@);
                }
                assert forall|x: Seq<char>| #[trigger]
                    entries_map(t).contains_key(x) == entries_map(s).insert(k, v).contains_key(
                        x,
                    ) by {
                    lemma_entries_map_dom(t, x);
                    lemma_entries_map_dom(s, x);
                    if exists|j: int| 0 <= j < s.len() && (#[trigger] s[j]).0@ == x {
                        let j = choose|j: int| 0 <= j < s.len() && (#[trigger] s[j]).0@ == x;
                        if j != i as int {
                            assert(t[j] == s[j]);
                        } else {
                            assert(t[j].0@ == x);
                        }
                    }
                    if exists|j: int| 0 <= j < t.len() && (#[trigger] t[j]).0@ == x {
                        let j = choose|j: int| 0 <= j < t.len() && (#[trigger] t[j]).0@ == x;
                        if j != i as int {
                            assert(t[j] == s[j]);
                        }
                    }
                }
                assert forall|x: Seq<char>| #[trigger]
                    entries_map(t).contains_key(x) implies entries_map(t)[x] == entries_map(
                    s,
                ).insert(k, v)[x] by {
                    lemma_entries_map_dom(t, x);
                    let j = choose|j: int| 0 <= j < t.len() && (#[trigger] t[j]).0@ == x;
                    lemma_entries_map_value(t, j);
                    if j != i as int {
                        assert(t[j] == s[j]);
                        lemma_entries_map_value(s, j);
                    }
                }
                assert(entries_map(t) =~= entries_map(s).insert(k, v));
            }
        },
        None => {
            let ghost s = entries@;
            entries.push((key, value));
            proof {
                let t = entries@;
                assert(t.drop_last() =~= s);
                assert forall|a: int, b: int| 0 <= a < b < t.len() implies #[trigger] t[a].0@
                    != #[trigger] t[b].0@ by {
                    if b == t.len() - 1 {
                        lemma_entries_map_dom(s, t[b].0@);
                        assert(s[a] == t[a]);
                    } else {
                        assert(s[a].0@ != s[b].0@);
                    }
                }
            }
        },
    }
}

impl Bindings {
    /// Well-formedness: no key occurs twice.
    #[verifier::type_invariant]
    pub closed spec fn wf(&self) -> bool {
        distinct_keys(self.entries@)
    }

    /// The key of the entry at `i`, in the order the entries were added.
    pub closed spec fn key_spec(&self, i: int) -> Seq<char> {
        self.entries@[i].0@
    }

    /// The action name of the entry at `i`.
    pub closed spec fn value_spec(&self, i: int) -> Seq<char> {
        self.entries@[i].1@
    }

    /// The number of entries.
    pub closed spec fn len_spec(&self) -> nat {
        self.entries@.len()
    }

    /// The entries, in order, describe the whole map: each one is in it,
    /// every key of the map is one of them, and no key occurs twice.
    pub proof fn lemma_entries(&self)
        requires
            self.wf(),
        ensures
            forall|i: int|
                0 <= i < self.len_spec() ==> self@.contains_key(#[trigger] self.key_spec(i))
                    && self@[self.key_spec(i)] == self.value_spec(i),
            forall|k: Seq<char>|
                #[trigger] self@.contains_key(k) ==> exists|i: int|
                    0 <= i < self.len_spec() && #[trigger] self.key_spec(i) == k,
            forall|i: int, j: int|
                0 <= i < j < self.len_spec() ==> #[trigger] self.key_spec(i) != #[trigger] self.key_spec(
                    j,
                ),
            self@.dom().finite(),
            self@.len() == self.len_spec(),
    {
        {
            assert forall|i: int| 0 <= i < self.len_spec() implies self@.contains_key(
                #[trigger] self.key_spec(i),
            ) && self@[self.key_spec(i)] == self.value_spec(i) by {
                lemma_entries_map_value(self.entries@, i);
                assert(self.key_spec(i) == self.entries@[i].0@);
                assert(self.value_spec(i) == self.entries@[i].1@);
            }
            assert forall|k: Seq<char>| #[trigger] self@.contains_key(k) implies exists|i: int|
                0 <= i < self.len_spec() && #[trigger] self.key_spec(i) == k by {
                lemma_entries_map_dom(self.entries@, k);
                let j = choose|j: int|
                    0 <= j < self.entries@.len() && (#[trigger] self.entries@[j]).0@ == k;
                assert(self.key_spec(j) == k);
            }
            assert forall|i: int, j: int| 0 <= i < j < self.len_spec() implies #[trigger] self.key_spec(
                i,
            ) != #[trigger] self.key_spec(j) by {
                assert(self.entries@[i].0@ != self.entries@[j].0@);
            }
            lemma_entries_map_len(self.entries@);
        }
    }

    /// No bindings.
    pub fn new() -> (r: Bindings)
        ensures
            r@ == Map::<Seq<char>, Seq<char>>::empty(),
            r.len_spec() == 0,
    {
        Bindings { entries: Vec::new() }
    }

    /// The number of bindings.
    pub fn len(&self) -> (r: usize)
        ensures
            r == self.len_spec(),
            r == self@.len(),
    {
        proof {
            use_type_invariant(self);
            self.lemma_entries();
        }
        self.entries.len()
    }

    /// The key of the entry at `i`.
    pub fn key_at(&self, i: usize) -> (r: &String)
        requires
            i < self.len_spec(),
        ensures
            r@ == self.key_spec(i as int),
    {
        &self.entries[i].0
    }

    /// The action name of the entry at `i`.
    pub fn value_at(&self, i: usize) -> (r: &String)
        requires
            i < self.len_spec(),
        ensures
            r@ == self.value_spec(i as int),
    {
        &self.entries[i].1
    }

    /// The action name bound to `key`, if any.
    pub fn get(&self, key: &str) -> (r: Option<&String>)
        ensures
            match r {
                Some(v) => self@.contains_key(key@) && self@[key@] == v@,
                None => !self@.contains_key(key@),
            },
    {
        proof {
            use_type_invariant(self);
        }
        match find_entry(&self.entries, key) {
            Some(i) => {
                proof {
                    lemma_entries_map_value(self.entries@, i as int);
                }
                Some(&self.entries[i].1)
            },
            None => None,
        }
    }

    /// Binds `key` to `value`, replacing an earlier binding of `key`.
    pub fn insert(&mut self, key: String, value: String)
        ensures
            final(self)@ == old(self)@.insert(key@, value@),
    {
        proof {
            use_type_invariant(&*self);
        }
        let mut entries: Vec<(String, String)> = Vec::new();
        std::mem::swap(&mut entries, &mut self.entries);
        insert_entry(&mut entries, key, value);
        self.entries = entries;
    }

    /// Binds `key` to `value` unless `key` is bound already
    /// (`entry(key).or_insert(value)`).
    pub fn or_insert(&mut self, key: String, value: String)
        ensures
            final(self)@ == (if old(self)@.contains_key(key@) {
                old(self)@
            } else {
                old(self)@.insert(key@, value@)
            }),
    {
        proof {
            use_type_invariant(&*self);
        }
        match find_entry(&self.entries, key.as_str()) {
            Some(i) => {
                proof {
                    lemma_entries_map_dom(self.entries@, key@);
                }
            },
            None => {
                self.insert(key, value);
            },
        }
    }
}

proof fn lemma_entries_map_len(s: Seq<(String, String)>)
    requires
        distinct_keys(s),
    ensures
        entries_map(s).dom().finite(),
        entries_map(s).len() == s.len(),
    decreases s.len(),
{
    if s.len() > 0 {
        let t = s.drop_last();
        assert(distinct_keys(t)) by {
            assert forall|i: int, j: int| 0 <= i < j < t.len() implies #[trigger] t[i].0@
                != #[trigger] t[j].0@ by {
                assert(s[i].0@ != s[j].0@);
            }
        }
        lemma_entries_map_len(t);
        lemma_entries_map_dom(t, s.last().0@);
        if entries_map(t).contains_key(s.last().0@) {
            let j = choose|j: int| 0 <= j < t.len() && (#[trigger] t[j]).0@ == s.last().0@;
            assert(s[j].0@ != s[s.len() - 1].0@);
        }
    }
}

/// The bindings the player starts from.
pub open spec fn default_binding_map() -> Map<Seq<char>, Seq<char>> {
    map![
        "j"@ => "move_down"@,
        "k"@ => "move_up"@,
        "down"@ => "move_down"@,
        "up"@ => "move_up"@,
        "h"@ => "prev_section"@,
        "l"@ => "next_section"@,
        "left"@ => "seek_back"@,
        "right"@ => "seek_fwd"@,
        "tab"@ => "cycle_focus"@,
        "backtab"@ => "cycle_focus_back"@,
        "enter"@ => "activate"@,
        "space"@ => "toggle"@,
        "n"@ => "next_track"@,
        "p"@ => "prev_track"@,
        "r"@ => "repeat"@,
        "s"@ => "shuffle"@,
        "a"@ => "add_media"@,
        "e"@ => "edit_media"@,
        "/"@ => "search"@,
        "f"@ => "favorite"@,
        "A"@ => "add_mini"@,
        "b"@ => "focus_mini"@,
        "d"@ => "delete"@,
        "ctrl+j"@ => "mini_move_down"@,
        "ctrl+k"@ => "mini_move_up"@,
        "J"@ => "volume_down"@,
        "K"@ => "volume_up"@,
        "H"@ => "seek_back"@,
        "L"@ => "seek_fwd"@,
        "q"@ => "confirm_quit"@,
        "esc"@ => "confirm_quit"@,
        "Q"@ => "detach"@
    ]
}

fn bind(b: &mut Bindings, key: &str, action: &str)
    ensures
        final(b)@ == old(b)@.insert(key@, action@),
{
    b.insert(String::from_str(key), String::from_str(action));
}

/// The built-in key bindings.
pub fn default_bindings() -> (r: Bindings)
    ensures
        r@ == default_binding_map(),
{
    let mut b = Bindings::new();
    bind(&mut b, "j", "move_down");
    bind(&mut b, "k", "move_up");
    bind(&mut b, "down", "move_down");
    bind(&mut b, "up", "move_up");
    bind(&mut b, "h", "prev_section");
    bind(&mut b, "l", "next_section");
    bind(&mut b, "left", "seek_back");
    bind(&mut b, "right", "seek_fwd");
    bind(&mut b, "tab", "cycle_focus");
    bind(&mut b, "backtab", "cycle_focus_back");
    bind(&mut b, "enter", "activate");
    bind(&mut b, "space", "toggle");
    bind(&mut b, "n", "next_track");
    bind(&mut b, "p", "prev_track");
    bind(&mut b, "r", "repeat");
    bind(&mut b, "s", "shuffle");
    bind(&mut b, "a", "add_media");
    bind(&mut b, "e", "edit_media");
    bind(&mut b, "/", "search");
    bind(&mut b, "f", "favorite");
    bind(&mut b, "A", "add_mini");
    bind(&mut b, "b", "focus_mini");
    bind(&mut b, "d", "delete");
    bind(&mut b, "ctrl+j", "mini_move_down");
    bind(&mut b, "ctrl+k", "mini_move_up");
    bind(&mut b, "J", "volume_down");
    bind(&mut b, "K", "volume_up");
    bind(&mut b, "H", "seek_back");
    bind(&mut b, "L", "seek_fwd");
    bind(&mut b, "q", "confirm_quit");
    bind(&mut b, "esc", "confirm_quit");
    bind(&mut b, "Q", "detach");
    b
}

/// The built-in key bindings, key by key: `enter` plays the selection,
/// `space` plays or pauses, `j`/`k` and the arrows move, `h`/`l` change
/// pane, `n`/`p` skip, `r` cycles repeat, `s` toggles shuffle, `a`/`e` add
/// and edit, `f` marks a favorite, `A`/`b`/`d`/`ctrl+j`/`ctrl+k` work the
/// mini-queue and delete, `/` searches, `H`/`L` and `left`/`right` seek,
/// `J`/`K` set the volume, `tab` cycles focus, `q`/`esc` quit after asking
/// and `Q` detaches; and no other key is bound.
#[verifier::spinoff_prover]
#[verifier::rlimit(100)]
pub proof fn lemma_default_binding_table()
    ensures
        default_binding_map().contains_key("enter"@) && default_binding_map()["enter"@] == "activate"@,
        default_binding_map().contains_key("space"@) && default_binding_map()["space"@] == "toggle"@,
        default_binding_map().contains_key("j"@) && default_binding_map()["j"@] == "move_down"@,
        default_binding_map().contains_key("k"@) && default_binding_map()["k"@] == "move_up"@,
        default_binding_map().contains_key("down"@) && default_binding_map()["down"@] == "move_down"@,
        default_binding_map().contains_key("up"@) && default_binding_map()["up"@] == "move_up"@,
        default_binding_map().contains_key("h"@) && default_binding_map()["h"@] == "prev_section"@,
        default_binding_map().contains_key("l"@) && default_binding_map()["l"@] == "next_section"@,
        default_binding_map().contains_key("n"@) && default_binding_map()["n"@] == "next_track"@,
        default_binding_map().contains_key("p"@) && default_binding_map()["p"@] == "prev_track"@,
        default_binding_map().contains_key("r"@) && default_binding_map()["r"@] == "repeat"@,
        default_binding_map().contains_key("s"@) && default_binding_map()["s"@] == "shuffle"@,
        default_binding_map().contains_key("a"@) && default_binding_map()["a"@] == "add_media"@,
        default_binding_map().contains_key("e"@) && default_binding_map()["e"@] == "edit_media"@,
        default_binding_map().contains_key("f"@) && default_binding_map()["f"@] == "favorite"@,
        default_binding_map().contains_key("A"@) && default_binding_map()["A"@] == "add_mini"@,
        default_binding_map().contains_key("b"@) && default_binding_map()["b"@] == "focus_mini"@,
        default_binding_map().contains_key("d"@) && default_binding_map()["d"@] == "delete"@,
        default_binding_map().contains_key("ctrl+j"@) && default_binding_map()["ctrl+j"@] == "mini_move_down"@,
        default_binding_map().contains_key("ctrl+k"@) && default_binding_map()["ctrl+k"@] == "mini_move_up"@,
        default_binding_map().contains_key("/"@) && default_binding_map()["/"@] == "search"@,
        default_binding_map().contains_key("H"@) && default_binding_map()["H"@] == "seek_back"@,
        default_binding_map().contains_key("L"@) && default_binding_map()["L"@] == "seek_fwd"@,
        default_binding_map().contains_key("left"@) && default_binding_map()["left"@] == "seek_back"@,
        default_binding_map().contains_key("right"@) && default_binding_map()["right"@] == "seek_fwd"@,
        default_binding_map().contains_key("J"@) && default_binding_map()["J"@] == "volume_down"@,
        default_binding_map().contains_key("K"@) && default_binding_map()["K"@] == "volume_up"@,
        default_binding_map().contains_key("tab"@) && default_binding_map()["tab"@] == "cycle_focus"@,
        default_binding_map().contains_key("backtab"@) && default_binding_map()["backtab"@] == "cycle_focus_back"@,
        default_binding_map().contains_key("q"@) && default_binding_map()["q"@] == "confirm_quit"@,
        default_binding_map().contains_key("esc"@) && default_binding_map()["esc"@] == "confirm_quit"@,
        default_binding_map().contains_key("Q"@) && default_binding_map()["Q"@] == "detach"@,
        default_binding_map().dom().len() == 32,
{
    reveal_strlit("enter");
    assert("enter"@.len() == 5 && "enter"@[0] == 'e' && "enter"@[1] == 'n' && "enter"@[2] == 't' && "enter"@[3] == 'e' && "enter"@[4] == 'r');
    reveal_strlit("space");
    assert("space"@.len() == 5 && "space"@[0] == 's' && "space"@[1] == 'p' && "space"@[2] == 'a' && "space"@[3] == 'c' && "space"@[4] == 'e');
    reveal_strlit("j");
    assert("j"@.len() == 1 && "j"@[0] == 'j');
    reveal_strlit("k");
    assert("k"@.len() == 1 && "k"@[0] == 'k');
    reveal_strlit("down");
    assert("down"@.len() == 4 && "down"@[0] == 'd' && "down"@[1] == 'o' && "down"@[2] == 'w' && "down"@[3] == 'n');
    reveal_strlit("up");
    assert("up"@.len() == 2 && "up"@[0] == 'u' && "up"@[1] == 'p');
    reveal_strlit("h");
    assert("h"@.len() == 1 && "h"@[0] == 'h');
    reveal_strlit("l");
    assert("l"@.len() == 1 && "l"@[0] == 'l');
    reveal_strlit("n");
    assert("n"@.len() == 1 && "n"@[0] == 'n');
    reveal_strlit("p");
    assert("p"@.len() == 1 && "p"@[0] == 'p');
    reveal_strlit("r");
    assert("r"@.len() == 1 && "r"@[0] == 'r');
    reveal_strlit("s");
    assert("s"@.len() == 1 && "s"@[0] == 's');
    reveal_strlit("a");
    assert("a"@.len() == 1 && "a"@[0] == 'a');
    reveal_strlit("e");
    assert("e"@.len() == 1 && "e"@[0] == 'e');
    reveal_strlit("f");
    assert("f"@.len() == 1 && "f"@[0] == 'f');
    reveal_strlit("A");
    assert("A"@.len() == 1 && "A"@[0] == 'A');
    reveal_strlit("b");
    assert("b"@.len() == 1 && "b"@[0] == 'b');
    reveal_strlit("d");
    assert("d"@.len() == 1 && "d"@[0] == 'd');
    reveal_strlit("ctrl+j");
    assert("ctrl+j"@.len() == 6 && "ctrl+j"@[0] == 'c' && "ctrl+j"@[1] == 't' && "ctrl+j"@[2] == 'r' && "ctrl+j"@[3] == 'l' && "ctrl+j"@[4] == '+' && "ctrl+j"@[5] == 'j');
    reveal_strlit("ctrl+k");
    assert("ctrl+k"@.len() == 6 && "ctrl+k"@[0] == 'c' && "ctrl+k"@[1] == 't' && "ctrl+k"@[2] == 'r' && "ctrl+k"@[3] == 'l' && "ctrl+k"@[4] == '+' && "ctrl+k"@[5] == 'k');
    reveal_strlit("/");
    assert("/"@.len() == 1 && "/"@[0] == '/');
    reveal_strlit("H");
    assert("H"@.len() == 1 && "H"@[0] == 'H');
    reveal_strlit("L");
    assert("L"@.len() == 1 && "L"@[0] == 'L');
    reveal_strlit("left");
    assert("left"@.len() == 4 && "left"@[0] == 'l' && "left"@[1] == 'e' && "left"@[2] == 'f' && "left"@[3] == 't');
    reveal_strlit("right");
    assert("right"@.len() == 5 && "right"@[0] == 'r' && "right"@[1] == 'i' && "right"@[2] == 'g' && "right"@[3] == 'h' && "right"@[4] == 't');
    reveal_strlit("J");
    assert("J"@.len() == 1 && "J"@[0] == 'J');
    reveal_strlit("K");
    assert("K"@.len() == 1 && "K"@[0] == 'K');
    reveal_strlit("tab");
    assert("tab"@.len() == 3 && "tab"@[0] == 't' && "tab"@[1] == 'a' && "tab"@[2] == 'b');
    reveal_strlit("backtab");
    assert("backtab"@.len() == 7 && "backtab"@[0] == 'b' && "backtab"@[1] == 'a' && "backtab"@[2] == 'c' && "backtab"@[3] == 'k' && "backtab"@[4] == 't' && "backtab"@[5] == 'a' && "backtab"@[6] == 'b');
    reveal_strlit("q");
    assert("q"@.len() == 1 && "q"@[0] == 'q');
    reveal_strlit("esc");
    assert("esc"@.len() == 3 && "esc"@[0] == 'e' && "esc"@[1] == 's' && "esc"@[2] == 'c');
    reveal_strlit("Q");
    assert("Q"@.len() == 1 && "Q"@[0] == 'Q');
    assert(default_binding_map().dom() =~= set!["enter"@, "space"@, "j"@, "k"@, "down"@, "up"@, "h"@, "l"@, "n"@, "p"@, "r"@, "s"@, "a"@, "e"@, "f"@, "A"@, "b"@, "d"@, "ctrl+j"@, "ctrl+k"@, "/"@, "H"@, "L"@, "left"@, "right"@, "J"@, "K"@, "tab"@, "backtab"@, "q"@, "esc"@, "Q"@]);
}

/// Adds every built-in binding whose key `bindings` does not bind yet: what
/// a configuration file binds stays, the built-in bindings fill the rest.
pub fn merge_default_bindings(bindings: &mut Bindings)
    ensures
        final(bindings)@ == default_binding_map().union_prefer_right(old(bindings)@),
{
    let defaults = default_bindings();
    proof {
        use_type_invariant(&defaults);
    }
    let ghost user = bindings@;
    let ghost d = defaults.entries@;
    let n = defaults.entries.len();
    let mut i: usize = 0;
    while i < n
        invariant
            n == d.len(),
            d == defaults.entries@,
            distinct_keys(d),
            i <= n,
            bindings@ == entries_map(d.take(i as int)).union_prefer_right(user),
        decreases n - i,
    {
        let k = defaults.entries[i].0.clone();
        let v = defaults.entries[i].1.clone();
        proof {
            let pre = d.take(i as int);
            let post = d.take(i + 1);
            assert(post.drop_last() =~= pre);
            assert(post.last() == d[i as int]);
            lemma_entries_map_dom(pre, k@);
            if entries_map(pre).contains_key(k@) {
                let j = choose|j: int| 0 <= j < pre.len() && (#[trigger] pre[j]).0@ == k@;
                assert(pre[j] == d[j]);
                assert(d[j].0@ != d[i as int].0@);
            }
        }
        bindings.or_insert(k, v);
        proof {
            let pre = d.take(i as int);
            let post = d.take(i + 1);
            assert(entries_map(post) == entries_map(pre).insert(k@, v@));
            assert(bindings@ =~= entries_map(post).union_prefer_right(user));
        }
        i = i + 1;
    }
    assert(d.take(n as int) =~= d);
}

/// The player's configuration.
pub struct Config {
    /// The mpv program to start.
    pub mpv_binary: String,
    /// By how much one volume step changes the volume.
    pub volume_step: i32,
    /// Key name to action name.
    pub keybindings: Bindings,
}

impl Config {
    /// A configuration read from a file: its own values, with the built-in
    /// bindings added for every key it does not bind.
    pub fn with_file_bindings(mpv_binary: String, volume_step: i32, keybindings: Bindings) -> (r:
        Config)
        ensures
            r.mpv_binary@ == mpv_binary@,
            r.volume_step == volume_step,
            r.keybindings@ == default_binding_map().union_prefer_right(keybindings@),
    {
        let mut keybindings = keybindings;
        merge_default_bindings(&mut keybindings);
        Config { mpv_binary, volume_step, keybindings }
    }
}

impl Default for Config {
    /// The configuration used when there is no configuration file.
    fn default() -> (r: Config)
        ensures
            r.mpv_binary@ == "mpv"@,
            r.volume_step == 5,
            r.keybindings@ == default_binding_map(),
    {
        Config { mpv_binary: String::from_str("mpv"), volume_step: 5, keybindings: default_bindings() }
    }
}

} // verus!
