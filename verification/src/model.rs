//! The data that the player daemon hands the interface: media, tags and
//! the repeat mode.

use vstd::prelude::*;

verus! {

/// A length of time as the interface shows it: whole seconds, or unknown
/// where the player reported a negative or non-finite number.
#[derive(Debug, Clone, Copy, PartialEq, Eq)]
pub enum Clock {
    Unknown,
    Secs(u64),
}

/// One medium of the library.
#[derive(Debug, Clone, PartialEq, Eq)]
pub struct MediaInfo {
    pub id: i64,
    pub uri: String,
    pub name: String,
    pub title: Option<String>,
    pub artist: Option<String>,
    pub kind: String,
    pub source: Option<String>,
    pub duration: Option<Clock>,
    pub bitrate: Option<i64>,
    pub tags: Vec<String>,
    pub favorite: bool,
}

/// A tag, how many media carry it, and whether it is checked in the filter.
#[derive(Debug, Clone, PartialEq, Eq)]
pub struct TagInfo {
    pub name: String,
    pub count: i64,
    pub checked: bool,
}

/// What happens when a track ends.
#[derive(Debug, Clone, Copy, PartialEq, Eq, Structural)]
pub enum RepeatMode {
    Off,
    All,
    One,
}

/// The repeat mode after `r`: off, then repeat-all, then repeat-one, then off.
pub open spec fn repeat_after(r: RepeatMode) -> RepeatMode {
    match r {
        RepeatMode::Off => RepeatMode::All,
        RepeatMode::All => RepeatMode::One,
        RepeatMode::One => RepeatMode::Off,
    }
}

impl RepeatMode {
    /// The next repeat mode in the cycle off, repeat-all, repeat-one.
    pub fn cycle(self) -> (r: RepeatMode)
        ensures
            r == repeat_after(self),
    {
        match self {
            RepeatMode::Off => RepeatMode::All,
            RepeatMode::All => RepeatMode::One,
            RepeatMode::One => RepeatMode::Off,
        }
    }
}

/// Cycling the repeat mode three times comes back to where it started, and
/// every mode is reached on the way.
pub proof fn lemma_repeat_cycle(r: RepeatMode)
    ensures
        repeat_after(repeat_after(repeat_after(r))) == r,
        repeat_after(r) != r,
        repeat_after(repeat_after(r)) != r,
{
}

} // verus!
