//! The decisions of the player daemon, as a state machine: a command from a
//! client or an event of the media player changes the state and yields the
//! effects that the daemon then carries out (talk to mpv, to the library,
//! save the state, send a snapshot to the clients).

use vstd::prelude::*;
use crate::model::{RepeatMode, repeat_after};
use crate::tags::{
    lowercase, lowercase_all, lowercased, nonempty_pattern, normalize_tags, normalized_tags,
    pattern_compiles, pattern_setting, regex_accepts, toggle_tag, toggled,
};
use crate::text::{trim, trim_str, views};
use crate::pins::{pin, pinned, shift_pin, shifted, take_first, unpin, unpinned};
use crate::model::MediaInfo;
use crate::queue::{effective_pattern, queue_ids, queue_spec, search_filter};
use crate::text::str_eq;

verus! {

/// The volume range: 0 to 130.
pub open spec fn clamp_volume(v: int) -> int {
    if v < 0 {
        0
    } else if v > 130 {
        130
    } else {
        v
    }
}

/// `v` clamped into the volume range.
pub fn clamped_volume(v: i64) -> (r: i32)
    ensures
        r == clamp_volume(v as int),
{
    if v < 0 {
        0
    } else if v > 130 {
        130
    } else {
        v as i32
    }
}

/// Milliseconds since the Unix epoch by the system clock
/// (`SystemTime::now().duration_since(UNIX_EPOCH)`), `None` when the clock
/// stands before the epoch. Nothing is stated of the value: it is the time.
#[verifier::external_body]
fn millis_since_epoch() -> (r: Option<u128>) {
    match std::time::SystemTime::now().duration_since(std::time::UNIX_EPOCH) {
        Ok(d) => Some(d.as_millis()),
        Err(_) => None,
    }
}

/// A clock reading as a log time stamp: the milliseconds cut to 64 bits,
/// or 0 when the clock stands before the epoch.
pub fn stamp_of_millis(ms: Option<u128>) -> (r: i64)
    ensures
        r == (match ms {
            Some(m) => m as i64,
            None => 0,
        }),
{
    match ms {
        Some(m) => #[verifier::truncate] (m as i64),
        None => 0,
    }
}

/// The time stamp of a log line: milliseconds since the Unix epoch.
pub fn now_ms() -> i64 {
    stamp_of_millis(millis_since_epoch())
}

/// Where the last `/` of a path stands, or -1 where it has none.
pub open spec fn last_slash(path: Seq<char>) -> int
    decreases path.len(),
{
    if path.len() == 0 {
        -1
    } else if path.last() == '/' {
        path.len() - 1
    } else {
        last_slash(path.drop_last())
    }
}

/// The last slash lies inside the path, and before its last character where
/// that is no slash.
pub proof fn lemma_last_slash_bounds(path: Seq<char>)
    ensures
        -1 <= last_slash(path) < path.len(),
        path.len() > 0 && path.last() != '/' ==> last_slash(path) < path.len() - 1,
    decreases path.len(),
{
    if path.len() > 0 && path.last() != '/' {
        lemma_last_slash_bounds(path.drop_last());
    }
}

/// The last component of a path on Unix, as `std::path::Path::file_name`
/// gives it: trailing slashes and `.` components are passed over; a path
/// whose last component is `..`, or that has none (empty, `/`, `.`), has
/// no file name.
pub open spec fn path_file_name(path: Seq<char>) -> Option<Seq<char>>
    decreases path.len(),
{
    if path.len() == 0 {
        None
    } else if path.last() == '/' {
        path_file_name(path.drop_last())
    } else {
        let cut = last_slash(path) + 1;
        let part = path.subrange(cut, path.len() as int);
        proof {
            lemma_last_slash_bounds(path);
        }
        if part == seq!['.'] {
            path_file_name(path.take(cut))
        } else if part == seq!['.', '.'] {
            None
        } else {
            Some(part)
        }
    }
}

/// `Path::new(path).file_name()`, turned into a `String` (the path is
/// valid UTF-8, so nothing is replaced): the last component of the path, as
/// `path_file_name` states it.
#[verifier::external_body]
fn file_name_of(path: &str) -> (r: Option<String>)
    ensures
        match r {
            Some(n) => path_file_name(path@) == Some(n@),
            None => path_file_name(path@) is None,
        },
{
    match std::path::Path::new(path).file_name() {
        Some(f) => Some(f.to_string_lossy().into_owned()),
        None => None,
    }
}

/// The name a new medium gets: the given name, trimmed, unless that is
/// empty; else the last component of its uri; else the uri itself.
pub open spec fn new_media_name(uri: Seq<char>, name: Option<Seq<char>>) -> Seq<char> {
    let given = match name {
        Some(n) => if trim(n).len() > 0 {
            Some(trim(n))
        } else {
            None
        },
        None => None,
    };
    match given {
        Some(n) => n,
        None => match path_file_name(uri) {
            Some(f) => f,
            None => uri,
        },
    }
}

/// A medium to add to the library, once the daemon has checked its uri.
#[derive(Debug, Clone, PartialEq, Eq)]
pub struct AddRequest {
    pub uri: String,
    pub name: String,
    pub tags: Vec<String>,
}

/// What a client asks the daemon for.
#[derive(Debug, Clone, PartialEq, Eq)]
pub enum Command {
    PlayPause,
    Next,
    Prev,
    Play { id: i64 },
    Select { id: i64 },
    /// Seek by this many milliseconds (back when negative).
    Seek { delta_ms: i64 },
    Volume { delta: i32 },
    SetVolume { volume: i32 },
    RepeatCycle,
    ShuffleToggle,
    ToggleTag { tag: String },
    ClearTags,
    SetSearch { pattern: Option<String> },
    Add { uri: String, name: Option<String>, tags: Vec<String> },
    Update {
        id: i64,
        name: String,
        title: Option<String>,
        artist: Option<String>,
        tags: Vec<String>,
    },
    Delete { id: i64 },
    ToggleFavorite { id: i64 },
    /// Pin a medium to the mini-queue.
    AddMini { id: i64 },
    /// Take a medium off the mini-queue.
    RemoveMini { id: i64 },
    /// Move a pinned medium one place down or up in the mini-queue.
    MoveMini { id: i64, down: bool },
    Shutdown,
}

/// What an event of the media player means to the daemon.
#[derive(Debug, Clone, Copy, PartialEq, Eq)]
pub enum PlayerEvent {
    /// The playback position moved (the daemon keeps the number itself).
    TimePos,
    /// The pause property changed, to the value if it was a boolean.
    Pause { value: Option<bool> },
    /// The player went idle.
    IdleActive,
    /// The player reached the end of the file.
    EofReached,
    /// A file finished loading.
    FileLoaded,
    /// Any other property.
    Other,
    /// The player process went away.
    Exited,
}

/// How loading a medium went.
#[derive(Debug, Clone, Copy, PartialEq, Eq)]
pub enum PlayOutcome {
    /// The library has no medium with that id.
    Missing,
    /// The library could not be read.
    LookupFailed,
    /// No player is running.
    NoPlayer,
    /// The player refused the file.
    LoadFailed,
    /// The player loads it.
    Loaded,
}

/// What the daemon has to do after a step, in order.
#[derive(Debug, PartialEq, Eq)]
pub enum Effect {
    /// Play the first medium of the current queue, if there is one.
    PlayFirst,
    /// Go to the next (or previous) medium of the queue, if there is one.
    Step { forward: bool },
    /// The track ended: go on to the next medium of the queue, or stop.
    Continue,
    /// Load a medium.
    Play { id: i64 },
    /// Load the current medium again (repeat-one).
    Reload { id: i64 },
    /// Pause or resume the player.
    SetPause { paused: bool },
    /// Seek to the remembered position of a resumed medium.
    SeekToResume,
    /// Seek the player by this many milliseconds, and move the kept
    /// position by as much, not below zero.
    Seek { delta_ms: i64 },
    /// Set the player's volume.
    SetVolume { volume: i32 },
    /// Stop the player.
    StopPlayback,
    /// Store what the player reports of the medium it just loaded.
    RecordInfo { id: i64 },
    /// The playback position starts over at zero.
    ResetPosition,
    /// Find the kind of the new medium's uri and, for a file, whether it
    /// exists; then report it with `media_checked`.
    CheckMedia { request: AddRequest },
    /// Add a medium to the library (reading its metadata first when it is a
    /// file); then report the outcome with `add_outcome`.
    InsertMedia { request: AddRequest, probe: bool },
    /// Change a medium in the library; then report with `update_outcome`.
    UpdateMedia {
        id: i64,
        name: String,
        title: Option<String>,
        artist: Option<String>,
        tags: Vec<String>,
    },
    /// Remove a medium from the library.
    DeleteMedia { id: i64 },
    /// Flip a medium's favorite mark in the library.
    ToggleFavorite { id: i64 },
    /// Forget the player that went away.
    DropPlayer,
    /// Start a new player; then report with `restart_outcome`.
    RestartPlayer,
    /// Save the state for the next start.
    Persist,
    /// Send a snapshot to the clients.
    Push,
}

/// The state saved between runs of the daemon (the position, a fractional
/// number of seconds, is saved beside it).
#[derive(Debug, Clone, PartialEq, Eq)]
pub struct SavedState {
    pub volume: i32,
    pub repeat: RepeatMode,
    pub shuffle: bool,
    pub active_tags: Vec<String>,
    pub media_id: Option<i64>,
    pub playing: bool,
}

/// The daemon's state (the playback position, a fractional number of
/// seconds, the daemon keeps beside it).
#[derive(Debug, Clone, PartialEq, Eq)]
pub struct Player {
    /// The checked tags, lower-case.
    pub active_tags: Vec<String>,
    /// The search pattern (commands set it only to a non-empty one).
    pub search: Option<String>,
    pub volume: i32,
    pub repeat: RepeatMode,
    pub shuffle: bool,
    /// The medium selected in the interface.
    pub selected: Option<i64>,
    /// The medium that plays.
    pub now_id: Option<i64>,
    pub paused: bool,
    /// A message for the interface, sent with the next snapshot.
    pub notify: Option<String>,
    /// The state changed since the last snapshot.
    pub dirty: bool,
    /// An end of track was handled and no file has loaded since.
    pub eof_pending: bool,
    /// A medium to resume once loaded, and whether it was playing.
    pub resume: Option<(i64, bool)>,
    /// A client asked the daemon to shut down.
    pub stopping: bool,
    /// The mini-queue: media pinned to play next, first pinned first.
    pub mini: Vec<i64>,
}

/// The player went idle or reached the end of a file.
pub open spec fn is_track_end(ev: PlayerEvent) -> bool {
    ev is IdleActive || ev is EofReached
}

/// The next medium comes off the mini-queue: `p2` is `p` with the first
/// pinned medium taken off, and the effects play it.
pub open spec fn plays_pinned(p: Player, p2: Player, effects: Seq<Effect>) -> bool {
    &&& p.mini@.len() > 0
    &&& p2.mini@ == p.mini@.drop_first()
    &&& p2 == (Player { mini: p2.mini, ..p })
    &&& effects == seq![Effect::Play { id: p.mini@[0] }]
}

/// The queue the player's checked tags and search give over the library.
pub open spec fn queue_of(p: Player, media: Seq<MediaInfo>) -> Seq<i64> {
    queue_spec(media, views(p.active_tags@), search_filter(p.search))
}

/// The position of the first medium with the given id, if any.
pub open spec fn first_with_id(media: Seq<MediaInfo>, id: i64) -> Option<int>
    decreases media.len(),
{
    if media.len() == 0 {
        None
    } else if media[0].id == id {
        Some(0)
    } else {
        match first_with_id(media.drop_first(), id) {
            Some(i) => Some(i + 1),
            None => None,
        }
    }
}

/// Neither the shuffle setting nor the repeat mode changes the queue: the
/// list keeps its order whatever plays next.
pub proof fn lemma_queue_ignores_order_settings(
    p: Player,
    media: Seq<MediaInfo>,
    shuffle: bool,
    repeat: RepeatMode,
)
    ensures
        queue_of(Player { shuffle, repeat, ..p }, media) == queue_of(p, media),
{
}

fn find_first(media: &Vec<MediaInfo>, id: i64) -> (r: Option<usize>)
    ensures
        match r {
            Some(i) => first_with_id(media@, id) == Some(i as int),
            None => first_with_id(media@, id) is None,
        },
{
    let mut i: usize = 0;
    assert(media@.skip(0) =~= media@);
    while i < media.len()
        invariant
            i <= media@.len(),
            first_with_id(media@, id) == (match first_with_id(media@.skip(i as int), id) {
                Some(k) => Some(k + i),
                None => None,
            }),
        decreases media@.len() - i,
    {
        let ghost rest = media@.skip(i as int);
        assert(rest.drop_first() =~= media@.skip(i + 1));
        assert(rest[0] == media@[i as int]);
        if media[i].id == id {
            return Some(i);
        }
        i = i + 1;
    }
    None
}

/// The player's part of a snapshot for the clients: the queue, where the
/// selected and the playing medium stand in the library, and the message.
#[derive(Debug, Clone, PartialEq, Eq)]
pub struct SnapshotParts {
    pub queue: Vec<i64>,
    pub selected: Option<usize>,
    pub playing: Option<usize>,
    pub notify: Option<String>,
}

/// What an mpv property change means: `time-pos` with a number, `pause`
/// (with its value when it is a boolean), `idle-active`, `eof-reached` and
/// `file-loaded`; anything else means nothing.
pub open spec fn event_spec(name: Seq<char>, value: Option<bool>, is_number: bool) -> PlayerEvent {
    if name == "time-pos"@ {
        if is_number {
            PlayerEvent::TimePos
        } else {
            PlayerEvent::Other
        }
    } else if name == "pause"@ {
        PlayerEvent::Pause { value }
    } else if name == "idle-active"@ {
        PlayerEvent::IdleActive
    } else if name == "eof-reached"@ {
        PlayerEvent::EofReached
    } else if name == "file-loaded"@ {
        PlayerEvent::FileLoaded
    } else {
        PlayerEvent::Other
    }
}

/// The event an mpv property change stands for; `value` is its data when
/// that is a boolean, `is_number` whether the data is a number.
pub fn event_of(name: &str, value: Option<bool>, is_number: bool) -> (r: PlayerEvent)
    ensures
        r == event_spec(name@, value, is_number),
{
    if str_eq(name, "time-pos") {
        if is_number {
            PlayerEvent::TimePos
        } else {
            PlayerEvent::Other
        }
    } else if str_eq(name, "pause") {
        PlayerEvent::Pause { value }
    } else if str_eq(name, "idle-active") {
        PlayerEvent::IdleActive
    } else if str_eq(name, "eof-reached") {
        PlayerEvent::EofReached
    } else if str_eq(name, "file-loaded") {
        PlayerEvent::FileLoaded
    } else {
        PlayerEvent::Other
    }
}

/// `p` carries the message `msg`.
pub open spec fn notifies(p: Player, msg: Seq<char>) -> bool {
    p.notify matches Some(n) && n@ == msg
}

impl Player {
    /// The volume lies in its range.
    pub open spec fn wf(&self) -> bool {
        0 <= self.volume <= 130
    }

    /// The state at start-up, from the saved state; `media_known` tells
    /// whether the library still holds the saved medium.
    pub fn restore(saved: SavedState, media_known: bool) -> (r: Player)
        ensures
            r.wf(),
            views(r.active_tags@) == lowercased(views(saved.active_tags@)),
            r.search is None,
            r.volume == clamp_volume(saved.volume as int),
            r.repeat == saved.repeat,
            r.shuffle == saved.shuffle,
            r.selected is None,
            r.now_id == (if media_known {
                saved.media_id
            } else {
                None
            }),
            r.paused == !saved.playing,
            r.notify is None,
            !r.dirty,
            !r.eof_pending,
            r.resume == (match saved.media_id {
                Some(id) => if media_known {
                    Some((id, saved.playing))
                } else {
                    None
                },
                None => None,
            }),
            !r.stopping,
            r.mini@.len() == 0,
    {
        let active_tags = lowercase_all(&saved.active_tags);
        let (now_id, resume) = match saved.media_id {
            Some(id) => if media_known {
                (Some(id), Some((id, saved.playing)))
            } else {
                (None, None)
            },
            None => (None, None),
        };
        Player {
            active_tags,
            search: None,
            volume: clamped_volume(saved.volume as i64),
            repeat: saved.repeat,
            shuffle: saved.shuffle,
            selected: None,
            now_id,
            paused: !saved.playing,
            notify: None,
            dirty: false,
            eof_pending: false,
            resume,
            stopping: false,
            mini: Vec::new(),
        }
    }

    /// Carries out a command of a client.
    pub fn handle_command(&mut self, cmd: Command) -> (r: Vec<Effect>)
        ensures
            old(self).wf() ==> final(self).wf(),
            cmd is ShuffleToggle || cmd is RepeatCycle ==> forall|media: Seq<MediaInfo>|
                #[trigger] queue_of(*final(self), media) == queue_of(*old(self), media),
            cmd matches Command::Delete { id } ==> final(self).now_id != Some(id)
                && final(self).selected != Some(id) && !final(self).mini@.contains(id),
            match cmd {
                Command::PlayPause => match old(self).now_id {
                    None => if old(self).mini@.len() > 0 {
                        plays_pinned(*old(self), *final(self), r@)
                    } else {
                        *final(self) == *old(self) && r@ == seq![Effect::PlayFirst]
                    },
                    Some(_) => *final(self) == (Player { paused: !old(self).paused, ..*old(self) })
                        && r@ == seq![Effect::SetPause { paused: !old(self).paused }, Effect::Push],
                },
                Command::Next => if old(self).mini@.len() > 0 {
                    plays_pinned(*old(self), *final(self), r@)
                } else {
                    *final(self) == *old(self) && r@ == seq![Effect::Step { forward: true }]
                },
                Command::Prev => *final(self) == *old(self) && r@ == seq![
                    Effect::Step { forward: false },
                ],
                Command::Play { id } => *final(self) == *old(self) && r@ == seq![Effect::Play { id }],
                Command::Seek { delta_ms } => *final(self) == *old(self) && r@ == seq![
                    Effect::Seek { delta_ms },
                    Effect::Push,
                ],
                Command::Select { id } => *final(self) == (Player {
                    selected: Some(id),
                    ..*old(self)
                }) && r@ == seq![Effect::Push],
                Command::Volume { delta } => final(self).volume == clamp_volume(
                    old(self).volume + delta,
                ) && *final(self) == (Player { volume: final(self).volume, ..*old(self) }) && r@
                    == seq![
                    Effect::SetVolume { volume: final(self).volume },
                    Effect::Persist,
                    Effect::Push,
                ],
                Command::SetVolume { volume } => final(self).volume == clamp_volume(volume as int)
                    && *final(self) == (Player { volume: final(self).volume, ..*old(self) }) && r@
                    == seq![
                    Effect::SetVolume { volume: final(self).volume },
                    Effect::Persist,
                    Effect::Push,
                ],
                Command::RepeatCycle => *final(self) == (Player {
                    repeat: repeat_after(old(self).repeat),
                    ..*old(self)
                }) && r@ == seq![Effect::Persist, Effect::Push],
                Command::ShuffleToggle => *final(self) == (Player {
                    shuffle: !old(self).shuffle,
                    ..*old(self)
                }) && r@ == seq![Effect::Persist, Effect::Push],
                Command::ToggleTag { tag } => views(final(self).active_tags@) == toggled(
                    views(old(self).active_tags@),
                    lowercase(tag@),
                ) && *final(self) == (Player { active_tags: final(self).active_tags, ..*old(self) })
                    && r@ == seq![Effect::Persist, Effect::Push],
                Command::ClearTags => final(self).active_tags@.len() == 0 && *final(self) == (
                Player { active_tags: final(self).active_tags, ..*old(self) }) && r@ == seq![
                    Effect::Persist,
                    Effect::Push,
                ],
                Command::SetSearch { pattern } => pattern_setting(pattern) == (match final(self).search {
                    Some(p) => Some(p@),
                    None => None,
                }) && *final(self) == (Player { search: final(self).search, ..*old(self) }) && r@
                    == seq![Effect::Push],
                Command::Add { uri, name, tags } => if trim(uri@).len() == 0 {
                    notifies(*final(self), "uri cannot be empty"@) && *final(self) == (Player {
                        notify: final(self).notify,
                        ..*old(self)
                    }) && r@ == seq![Effect::Push]
                } else {
                    &&& *final(self) == *old(self)
                    &&& r@.len() == 1
                    &&& (r@[0] matches Effect::CheckMedia { request } && request.uri@ == trim(uri@)
                        && request.name@ == new_media_name(
                        trim(uri@),
                        match name {
                            Some(n) => Some(n@),
                            None => None,
                        },
                    ) && views(request.tags@) == normalized_tags(views(tags@)))
                },
                Command::Update { id, name, title, artist, tags } => *final(self) == *old(self)
                    && r@ == seq![
                    Effect::UpdateMedia { id, name, title, artist, tags },
                    Effect::Push,
                ],
                Command::Delete { id } => final(self).mini@ == unpinned(old(self).mini@, id) && if old(
                    self,
                ).now_id == Some(id) {
                    *final(self) == (Player {
                        now_id: None,
                        selected: None,
                        resume: None,
                        mini: final(self).mini,
                        ..*old(self)
                    }) && r@ == seq![
                        Effect::DeleteMedia { id },
                        Effect::StopPlayback,
                        Effect::Push,
                    ]
                } else {
                    *final(self) == (Player {
                        selected: if old(self).selected == Some(id) {
                            None
                        } else {
                            old(self).selected
                        },
                        mini: final(self).mini,
                        ..*old(self)
                    }) && r@ == seq![Effect::DeleteMedia { id }, Effect::Push]
                },
                Command::ToggleFavorite { id } => *final(self) == *old(self) && r@ == seq![
                    Effect::ToggleFavorite { id },
                    Effect::Push,
                ],
                Command::AddMini { id } => final(self).mini@ == pinned(old(self).mini@, id)
                    && *final(self) == (Player { mini: final(self).mini, ..*old(self) }) && r@
                    == seq![Effect::Push],
                Command::RemoveMini { id } => final(self).mini@ == unpinned(old(self).mini@, id)
                    && *final(self) == (Player { mini: final(self).mini, ..*old(self) }) && r@
                    == seq![Effect::Push],
                Command::MoveMini { id, down } => final(self).mini@ == shifted(
                    old(self).mini@,
                    id,
                    down,
                ) && *final(self) == (Player { mini: final(self).mini, ..*old(self) }) && r@
                    == seq![Effect::Push],
                Command::Shutdown => *final(self) == (Player { stopping: true, ..*old(self) })
                    && r@.len() == 0,
            },
    {
        let mut out: Vec<Effect> = Vec::new();
        match cmd {
            Command::PlayPause => {
                if self.now_id.is_none() {
                    if self.mini.len() > 0 {
                        match take_first(&mut self.mini) {
                            Some(id) => out.push(Effect::Play { id }),
                            None => {},
                        }
                    } else {
                        out.push(Effect::PlayFirst);
                    }
                } else {
                    self.paused = !self.paused;
                    out.push(Effect::SetPause { paused: self.paused });
                    out.push(Effect::Push);
                }
            },
            Command::Next => {
                if self.mini.len() > 0 {
                    match take_first(&mut self.mini) {
                        Some(id) => out.push(Effect::Play { id }),
                        None => {},
                    }
                } else {
                    out.push(Effect::Step { forward: true });
                }
            },
            Command::Prev => {
                out.push(Effect::Step { forward: false });
            },
            Command::Play { id } => {
                out.push(Effect::Play { id });
            },
            Command::Seek { delta_ms } => {
                out.push(Effect::Seek { delta_ms });
                out.push(Effect::Push);
            },
            Command::Select { id } => {
                self.selected = Some(id);
                out.push(Effect::Push);
            },
            Command::Volume { delta } => {
                self.volume = clamped_volume(self.volume as i64 + delta as i64);
                out.push(Effect::SetVolume { volume: self.volume });
                out.push(Effect::Persist);
                out.push(Effect::Push);
            },
            Command::SetVolume { volume } => {
                self.volume = clamped_volume(volume as i64);
                out.push(Effect::SetVolume { volume: self.volume });
                out.push(Effect::Persist);
                out.push(Effect::Push);
            },
            Command::RepeatCycle => {
                self.repeat = self.repeat.cycle();
                out.push(Effect::Persist);
                out.push(Effect::Push);
            },
            Command::ShuffleToggle => {
                self.shuffle = !self.shuffle;
                out.push(Effect::Persist);
                out.push(Effect::Push);
            },
            Command::ToggleTag { tag } => {
                toggle_tag(&mut self.active_tags, tag.as_str());
                out.push(Effect::Persist);
                out.push(Effect::Push);
            },
            Command::ClearTags => {
                self.active_tags = Vec::new();
                out.push(Effect::Persist);
                out.push(Effect::Push);
            },
            Command::SetSearch { pattern } => {
                self.search = nonempty_pattern(pattern);
                out.push(Effect::Push);
            },
            Command::Add { uri, name, tags } => {
                let uri = trim_str(uri.as_str());
                if uri.unicode_len() == 0 {
                    self.notify = Some(String::from_str("uri cannot be empty"));
                    out.push(Effect::Push);
                } else {
                    let given = match name {
                        Some(n) => {
                            let t = trim_str(n.as_str());
                            if t.unicode_len() > 0 {
                                Some(t)
                            } else {
                                None
                            }
                        },
                        None => None,
                    };
                    let name = match given {
                        Some(n) => n,
                        None => match file_name_of(uri.as_str()) {
                            Some(f) => f,
                            None => uri.clone(),
                        },
                    };
                    let tags = normalize_tags(tags);
                    out.push(Effect::CheckMedia { request: AddRequest { uri, name, tags } });
                }
            },
            Command::Update { id, name, title, artist, tags } => {
                out.push(Effect::UpdateMedia { id, name, title, artist, tags });
                out.push(Effect::Push);
            },
            Command::Delete { id } => {
                out.push(Effect::DeleteMedia { id });
                unpin(&mut self.mini, id);
                if self.now_id == Some(id) {
                    self.now_id = None;
                    self.selected = None;
                    self.resume = None;
                    out.push(Effect::StopPlayback);
                }
                if self.selected == Some(id) {
                    self.selected = None;
                }
                out.push(Effect::Push);
            },
            Command::ToggleFavorite { id } => {
                out.push(Effect::ToggleFavorite { id });
                out.push(Effect::Push);
            },
            Command::AddMini { id } => {
                pin(&mut self.mini, id);
                out.push(Effect::Push);
            },
            Command::RemoveMini { id } => {
                unpin(&mut self.mini, id);
                out.push(Effect::Push);
            },
            Command::MoveMini { id, down } => {
                shift_pin(&mut self.mini, id, down);
                out.push(Effect::Push);
            },
            Command::Shutdown => {
                self.stopping = true;
            },
        }
        out
    }

    /// Handles an event of the media player.
    pub fn on_event(&mut self, ev: PlayerEvent) -> (r: Vec<Effect>)
        ensures
            old(self).wf() ==> final(self).wf(),
            is_track_end(ev) ==> final(self).eof_pending,
            is_track_end(ev) && old(self).eof_pending ==> *final(self) == *old(self) && r@.len()
                == 0,
            match ev {
                PlayerEvent::TimePos => *final(self) == (Player { dirty: true, ..*old(self) })
                    && r@.len() == 0,
                PlayerEvent::Pause { value } => (match value {
                    Some(v) => *final(self) == (Player { paused: v, dirty: true, ..*old(self) }),
                    None => *final(self) == *old(self),
                }) && r@.len() == 0,
                PlayerEvent::IdleActive | PlayerEvent::EofReached => if old(self).eof_pending {
                    *final(self) == *old(self) && r@.len() == 0
                } else {
                    match old(self).now_id {
                        None => *final(self) == (Player { eof_pending: true, ..*old(self) })
                            && r@.len() == 0,
                        Some(id) => if old(self).repeat == RepeatMode::One {
                            *final(self) == (Player { eof_pending: true, ..*old(self) }) && r@
                                == seq![Effect::Reload { id }]
                        } else if old(self).mini@.len() > 0 {
                            plays_pinned(
                                Player { eof_pending: true, ..*old(self) },
                                *final(self),
                                r@,
                            )
                        } else {
                            *final(self) == (Player { eof_pending: true, ..*old(self) }) && r@
                                == seq![Effect::Continue]
                        },
                    }
                },
                PlayerEvent::FileLoaded => match old(self).resume {
                    Some((id, playing)) => *final(self) == (Player {
                        eof_pending: false,
                        now_id: Some(id),
                        selected: Some(id),
                        paused: !playing,
                        dirty: true,
                        resume: None,
                        ..*old(self)
                    }) && r@ == seq![
                        Effect::SeekToResume,
                        Effect::SetPause { paused: !playing },
                        Effect::RecordInfo { id },
                        Effect::Push,
                    ],
                    None => *final(self) == (Player { eof_pending: false, ..*old(self) }) && r@
                        == match old(self).now_id {
                        Some(id) => seq![Effect::RecordInfo { id }, Effect::Push],
                        None => seq![Effect::Push],
                    },
                },
                PlayerEvent::Other => *final(self) == *old(self) && r@.len() == 0,
                PlayerEvent::Exited => *final(self) == *old(self) && r@ == if old(self).stopping {
                    seq![Effect::DropPlayer]
                } else {
                    seq![Effect::DropPlayer, Effect::RestartPlayer, Effect::Push]
                },
            },
    {
        let mut out: Vec<Effect> = Vec::new();
        match ev {
            PlayerEvent::TimePos => {
                self.dirty = true;
            },
            PlayerEvent::Pause { value } => match value {
                Some(v) => {
                    self.paused = v;
                    self.dirty = true;
                },
                None => {},
            },
            PlayerEvent::IdleActive | PlayerEvent::EofReached => {
                if !self.eof_pending {
                    self.eof_pending = true;
                    match self.now_id {
                        None => {},
                        Some(id) => match self.repeat {
                            RepeatMode::One => out.push(Effect::Reload { id }),
                            _ => if self.mini.len() > 0 {
                                match take_first(&mut self.mini) {
                                    Some(pinned_id) => out.push(Effect::Play { id: pinned_id }),
                                    None => {},
                                }
                            } else {
                                out.push(Effect::Continue);
                            },
                        },
                    }
                }
            },
            PlayerEvent::FileLoaded => {
                self.eof_pending = false;
                match self.resume {
                    Some((id, playing)) => {
                        self.resume = None;
                        self.now_id = Some(id);
                        self.selected = Some(id);
                        out.push(Effect::SeekToResume);
                        out.push(Effect::SetPause { paused: !playing });
                        self.paused = !playing;
                        self.dirty = true;
                    },
                    None => {},
                }
                match self.now_id {
                    Some(id) => out.push(Effect::RecordInfo { id }),
                    None => {},
                }
                out.push(Effect::Push);
            },
            PlayerEvent::Other => {},
            PlayerEvent::Exited => {
                out.push(Effect::DropPlayer);
                if !self.stopping {
                    out.push(Effect::RestartPlayer);
                    out.push(Effect::Push);
                }
            },
        }
        out
    }

    /// Records how loading medium `id` went.
    pub fn play_outcome(&mut self, id: i64, outcome: PlayOutcome) -> (r: Vec<Effect>)
        ensures
            old(self).wf() ==> final(self).wf(),
            match outcome {
                PlayOutcome::Missing => notifies(*final(self), "media not found"@) && *final(self)
                    == (Player { notify: final(self).notify, ..*old(self) }) && r@.len() == 0,
                PlayOutcome::LookupFailed => *final(self) == *old(self) && r@.len() == 0,
                PlayOutcome::NoPlayer => notifies(*final(self), "mpv unavailable"@) && *final(self)
                    == (Player { notify: final(self).notify, ..*old(self) }) && r@.len() == 0,
                PlayOutcome::LoadFailed => notifies(*final(self), "failed to load media"@)
                    && *final(self) == (Player { notify: final(self).notify, ..*old(self) }) && r@.len()
                    == 0,
                PlayOutcome::Loaded => *final(self) == (Player {
                    now_id: Some(id),
                    selected: Some(id),
                    paused: false,
                    eof_pending: false,
                    resume: None,
                    ..*old(self)
                }) && r@ == seq![Effect::ResetPosition, Effect::Push],
            },
    {
        let mut out: Vec<Effect> = Vec::new();
        match outcome {
            PlayOutcome::Missing => {
                self.notify = Some(String::from_str("media not found"));
            },
            PlayOutcome::LookupFailed => {},
            PlayOutcome::NoPlayer => {
                self.notify = Some(String::from_str("mpv unavailable"));
            },
            PlayOutcome::LoadFailed => {
                self.notify = Some(String::from_str("failed to load media"));
            },
            PlayOutcome::Loaded => {
                self.now_id = Some(id);
                self.selected = Some(id);
                self.paused = false;
                self.eof_pending = false;
                self.resume = None;
                out.push(Effect::ResetPosition);
                out.push(Effect::Push);
            },
        }
        out
    }

    /// The queue has nothing after the track that ended: playback stops.
    pub fn queue_ended(&mut self) -> (r: Vec<Effect>)
        ensures
            old(self).wf() ==> final(self).wf(),
            *final(self) == (Player { now_id: None, paused: false, resume: None, ..*old(self) }),
            r@ == seq![Effect::ResetPosition, Effect::Push],
    {
        self.now_id = None;
        self.paused = false;
        self.resume = None;
        let mut out: Vec<Effect> = Vec::new();
        out.push(Effect::ResetPosition);
        out.push(Effect::Push);
        out
    }

    /// The daemon found the kind of a new medium's uri and, for a file,
    /// whether it exists: a file that does not exist is refused and the
    /// interface hears of it; otherwise the medium goes to the library, its
    /// metadata read first when it is a file.
    pub fn media_checked(&mut self, request: AddRequest, offline: bool, exists: bool)
        -> (r: Vec<Effect>)
        ensures
            old(self).wf() ==> final(self).wf(),
            (if offline && !exists {
                notifies(*final(self), "file does not exist"@) && *final(self) == (Player {
                    notify: final(self).notify,
                    ..*old(self)
                }) && r@ == seq![Effect::Push]
            } else {
                *final(self) == *old(self) && r@ == seq![
                    Effect::InsertMedia { request, probe: offline },
                ]
            }),
    {
        let mut out: Vec<Effect> = Vec::new();
        if offline && !exists {
            self.notify = Some(String::from_str("file does not exist"));
            out.push(Effect::Push);
        } else {
            out.push(Effect::InsertMedia { request, probe: offline });
        }
        out
    }

    /// The library's answer to adding a medium named `name`: the id it
    /// got, or `None` when adding failed. On success the interface hears
    /// of it and the medium becomes the selection if there was none; on
    /// failure the interface hears so and the selection stays.
    pub fn add_outcome(&mut self, added: Option<i64>, name: &str) -> (r: Vec<Effect>)
        ensures
            old(self).wf() ==> final(self).wf(),
            r@ == seq![Effect::Push],
            match added {
                Some(id) => notifies(*final(self), "added: "@ + name@) && *final(self) == (Player {
                    notify: final(self).notify,
                    selected: if old(self).selected is None {
                        Some(id)
                    } else {
                        old(self).selected
                    },
                    ..*old(self)
                }),
                None => notifies(*final(self), "add failed"@) && *final(self) == (Player {
                    notify: final(self).notify,
                    ..*old(self)
                }),
            },
    {
        match added {
            Some(id) => {
                self.notify = Some(String::from_str("added: ").concat(name));
                if self.selected.is_none() {
                    self.selected = Some(id);
                }
            },
            None => {
                self.notify = Some(String::from_str("add failed"));
            },
        }
        let mut out: Vec<Effect> = Vec::new();
        out.push(Effect::Push);
        out
    }

    /// Whether the library took a change of a medium; when it did not,
    /// the interface hears so.
    pub fn update_outcome(&mut self, ok: bool)
        ensures
            (if ok {
                *final(self) == *old(self)
            } else {
                notifies(*final(self), "update failed"@) && *final(self) == (Player {
                    notify: final(self).notify,
                    ..*old(self)
                })
            }),
    {
        if !ok {
            self.notify = Some(String::from_str("update failed"));
        }
    }

    /// Whether a new player could be started after the last went away;
    /// when not, the interface hears so.
    pub fn restart_outcome(&mut self, ok: bool)
        ensures
            (if ok {
                *final(self) == *old(self)
            } else {
                notifies(*final(self), "mpv restart failed"@) && *final(self) == (Player {
                    notify: final(self).notify,
                    ..*old(self)
                })
            }),
    {
        if !ok {
            self.notify = Some(String::from_str("mpv restart failed"));
        }
    }

    /// Leaves a message for the interface.
    pub fn note(&mut self, msg: String)
        ensures
            *final(self) == (Player { notify: Some(msg), ..*old(self) }),
    {
        self.notify = Some(msg);
    }

    /// Before the queue is built: a search pattern that does not compile is
    /// dropped, and the interface hears of it.
    pub fn check_search(&mut self)
        ensures
            match old(self).search {
                Some(p) => if p@.len() > 0 && !regex_accepts(p@) {
                    notifies(*final(self), "invalid search pattern"@) && *final(self) == (Player {
                        search: None,
                        notify: final(self).notify,
                        ..*old(self)
                    })
                } else {
                    *final(self) == *old(self)
                },
                None => *final(self) == *old(self),
            },
    {
        let invalid = match &self.search {
            Some(p) => p.unicode_len() > 0 && !pattern_compiles(p.as_str()),
            None => false,
        };
        if invalid {
            self.search = None;
            self.notify = Some(String::from_str("invalid search pattern"));
        }
    }

    /// The queue over the library: a search pattern that does not compile
    /// is dropped first (and the interface hears of it), then the media
    /// that carry every checked tag and match the search are listed.
    pub fn queue(&mut self, media: &Vec<MediaInfo>) -> (r: Vec<i64>)
        ensures
            match old(self).search {
                Some(p) => if p@.len() > 0 && !regex_accepts(p@) {
                    notifies(*final(self), "invalid search pattern"@) && *final(self) == (Player {
                        search: None,
                        notify: final(self).notify,
                        ..*old(self)
                    })
                } else {
                    *final(self) == *old(self)
                },
                None => *final(self) == *old(self),
            },
            r@ == queue_of(*final(self), media@),
    {
        self.check_search();
        let pattern = effective_pattern(&self.search);
        queue_ids(media, &self.active_tags, pattern)
    }

    /// The player's part of a snapshot: the queue (a search that does not
    /// compile filters nothing), where the selected and the playing medium
    /// stand in the library, and the message, which is handed over once.
    pub fn build_snapshot(&mut self, media: &Vec<MediaInfo>) -> (r: SnapshotParts)
        ensures
            r.queue@ == queue_of(*old(self), media@),
            r.selected@ == (match old(self).selected {
                Some(id) => match first_with_id(media@, id) {
                    Some(i) => Some(i as usize),
                    None => None,
                },
                None => None,
            }),
            r.playing@ == (match old(self).now_id {
                Some(id) => match first_with_id(media@, id) {
                    Some(i) => Some(i as usize),
                    None => None,
                },
                None => None,
            }),
            r.notify == old(self).notify,
            *final(self) == (Player { notify: None, ..*old(self) }),
    {
        let pattern = effective_pattern(&self.search);
        let queue = queue_ids(media, &self.active_tags, pattern);
        let selected = match self.selected {
            Some(id) => find_first(media, id),
            None => None,
        };
        let playing = match self.now_id {
            Some(id) => find_first(media, id),
            None => None,
        };
        let notify = self.take_notify();
        SnapshotParts { queue, selected, playing, notify }
    }

    /// The player was started again and loads the medium that was playing:
    /// resume it, playing if it was playing.
    pub fn mark_resume(&mut self)
        ensures
            *final(self) == (Player {
                resume: match old(self).now_id {
                    Some(id) => Some((id, !old(self).paused)),
                    None => old(self).resume,
                },
                ..*old(self)
            }),
    {
        match self.now_id {
            Some(id) => {
                self.resume = Some((id, !self.paused));
            },
            None => {},
        }
    }

    /// The state to save: settings, checked tags, and what plays.
    pub fn saved_state(&self) -> (r: SavedState)
        ensures
            r.volume == self.volume,
            r.repeat == self.repeat,
            r.shuffle == self.shuffle,
            r.active_tags@ == self.active_tags@,
            r.media_id == self.now_id,
            r.playing == (self.now_id is Some && !self.paused),
    {
        let active_tags = self.active_tags.clone();
        assert(active_tags@ =~= self.active_tags@);
        SavedState {
            volume: self.volume,
            repeat: self.repeat,
            shuffle: self.shuffle,
            active_tags,
            media_id: self.now_id,
            playing: self.now_id.is_some() && !self.paused,
        }
    }

    /// Hands over the message for the next snapshot; it is sent once.
    pub fn take_notify(&mut self) -> (r: Option<String>)
        ensures
            r == old(self).notify,
            *final(self) == (Player { notify: None, ..*old(self) }),
    {
        let r = self.notify.take();
        r
    }

    /// A snapshot went out.
    pub fn pushed(&mut self)
        ensures
            *final(self) == (Player { dirty: false, ..*old(self) }),
    {
        self.dirty = false;
    }

    /// Whether a snapshot is due `elapsed_ms` milliseconds after the last:
    /// the state changed while something plays, and at least 350 ms passed.
    pub fn wants_push(&self, elapsed_ms: u64) -> (r: bool)
        ensures
            r == (self.dirty && self.now_id is Some && elapsed_ms >= 350),
    {
        self.dirty && self.now_id.is_some() && elapsed_ms >= 350
    }
}

} // verus!
