//! What the panes of the interface say: the sections and how focus moves
//! between them, and the text of the filter, queue, info and status lines.

use vstd::prelude::*;
use crate::model::{Clock, MediaInfo, TagInfo, RepeatMode};
use crate::text::{
    decimal, decimal_string, is_blank, pad_left, pad_left_string, push_char, repeat_char,
    repeat_string, signed_decimal, signed_decimal_string, str_is_blank, views,
};

verus! {

/// The three panes, in the order focus moves through them.
#[derive(Debug, Clone, Copy, PartialEq, Eq, Structural)]
pub enum Section {
    Filter,
    Queue,
    Info,
}

/// The section after `s`: filter, queue, info, then filter again.
pub open spec fn section_after(s: Section) -> Section {
    match s {
        Section::Filter => Section::Queue,
        Section::Queue => Section::Info,
        Section::Info => Section::Filter,
    }
}

/// The section before `s`.
pub open spec fn section_before(s: Section) -> Section {
    match s {
        Section::Filter => Section::Info,
        Section::Queue => Section::Filter,
        Section::Info => Section::Queue,
    }
}

impl Section {
    /// The next section in the cycle.
    pub fn next(self) -> (r: Section)
        ensures
            r == section_after(self),
    {
        match self {
            Section::Filter => Section::Queue,
            Section::Queue => Section::Info,
            Section::Info => Section::Filter,
        }
    }

    /// The previous section in the cycle.
    pub fn prev(self) -> (r: Section)
        ensures
            r == section_before(self),
    {
        match self {
            Section::Filter => Section::Info,
            Section::Queue => Section::Filter,
            Section::Info => Section::Queue,
        }
    }
}

/// Moving focus back undoes moving it forward and the other way round, and
/// three moves in one direction come back to the same section.
pub proof fn lemma_section_cycle(s: Section)
    ensures
        section_before(section_after(s)) == s,
        section_after(section_before(s)) == s,
        section_after(section_after(section_after(s))) == s,
        section_before(section_before(section_before(s))) == s,
        section_after(s) != s,
        section_before(s) != s,
{
}

/// The text of a string that is only shown when it is not blank.
pub open spec fn shown(o: Option<String>) -> Option<Seq<char>> {
    match o {
        Some(s) => if is_blank(s@) {
            None
        } else {
            Some(s@)
        },
        None => None,
    }
}

/// The name a medium is shown under: its title when it has one that is not
/// blank, else its name.
pub open spec fn display_name_spec(m: MediaInfo) -> Seq<char> {
    match shown(m.title) {
        Some(t) => t,
        None => m.name@,
    }
}

fn shown_text(o: &Option<String>) -> (r: Option<String>)
    ensures
        match r {
            Some(s) => shown(*o) == Some(s@),
            None => shown(*o) is None,
        },
{
    match o {
        Some(s) => if str_is_blank(s.as_str()) {
            None
        } else {
            Some(s.clone())
        },
        None => None,
    }
}

/// The name a medium is shown under.
pub fn display_name(m: &MediaInfo) -> (r: String)
    ensures
        r@ == display_name_spec(*m),
{
    match shown_text(&m.title) {
        Some(t) => t,
        None => m.name.clone(),
    }
}

/// Two digits, with a leading zero below ten (`{:02}`).
pub open spec fn two_digits(n: nat) -> Seq<char> {
    if n < 10 {
        seq!['0'] + decimal(n)
    } else {
        decimal(n)
    }
}

/// A time as minutes and two-digit seconds (`3:07`), or `--:--` when unknown.
pub open spec fn clock_text(c: Clock) -> Seq<char> {
    match c {
        Clock::Unknown => "--:--"@,
        Clock::Secs(s) => decimal(s as nat / 60) + seq![':'] + two_digits(s as nat % 60),
    }
}

/// A time as the panes show it.
pub fn fmt_clock(c: Clock) -> (r: String)
    ensures
        r@ == clock_text(c),
{
    match c {
        Clock::Unknown => String::from_str("--:--"),
        Clock::Secs(s) => {
            let mut r = decimal_string(s / 60);
            push_char(&mut r, ':');
            let sec = s % 60;
            if sec < 10 {
                push_char(&mut r, '0');
            }
            let digits = decimal_string(sec);
            let out = r.concat(digits.as_str());
            assert(out@ =~= clock_text(c));
            out
        },
    }
}

/// A progress bar of `width` cells of which `filled` are full, in brackets.
pub open spec fn bar_text(filled: nat, width: nat) -> Seq<char> {
    seq!['['] + repeat_char('#', filled) + repeat_char(
        '-',
        if width > filled {
            (width - filled) as nat
        } else {
            0
        },
    ) + seq![']']
}

/// The progress bar text.
pub fn progress_bar_text(filled: usize, width: usize) -> (r: String)
    ensures
        r@ == bar_text(filled as nat, width as nat),
{
    let mut r = String::new();
    push_char(&mut r, '[');
    let full = repeat_string('#', filled);
    let rest = if width > filled {
        width - filled
    } else {
        0
    };
    let empty = repeat_string('-', rest);
    let mut out = r.concat(full.as_str()).concat(empty.as_str());
    push_char(&mut out, ']');
    assert(out@ =~= bar_text(filled as nat, width as nat));
    out
}

/// How many cells the status line's progress bar gets in a bar `width`
/// cells wide: what is left after 46 cells, at most 20.
pub fn bar_width(width: u16) -> (r: usize)
    ensures
        r == (if width >= 46 {
            if width - 46 < 20 {
                width - 46
            } else {
                20
            }
        } else {
            0
        }),
{
    let w: usize = if width >= 46 {
        (width - 46) as usize
    } else {
        0
    };
    if w < 20 {
        w
    } else {
        20
    }
}

/// A tag in the filter pane: a check box, the name and the count, as in
/// `[x] rock (12)`.
pub open spec fn tag_line(t: TagInfo) -> Seq<char> {
    "["@ + (if t.checked {
        "x"@
    } else {
        " "@
    }) + "] "@ + t.name@ + " ("@ + signed_decimal(t.count as int) + ")"@
}

/// The filter pane's line for a tag.
pub fn tag_line_text(t: &TagInfo) -> (r: String)
    ensures
        r@ == tag_line(*t),
{
    let mark = if t.checked {
        "x"
    } else {
        " "
    };
    let count = signed_decimal_string(t.count);
    String::from_str("[").concat(mark).concat("] ").concat(t.name.as_str()).concat(" (").concat(
        count.as_str(),
    ).concat(")")
}

/// The filter pane's lines, one per tag, in order.
pub fn tag_lines(tags: &Vec<TagInfo>) -> (r: Vec<String>)
    ensures
        r@.len() == tags@.len(),
        forall|i: int| 0 <= i < tags@.len() ==> (#[trigger] r@[i])@ == tag_line(tags@[i]),
{
    let mut r: Vec<String> = Vec::new();
    let mut i: usize = 0;
    while i < tags.len()
        invariant
            i <= tags@.len(),
            r@.len() == i,
            forall|j: int| 0 <= j < i ==> (#[trigger] r@[j])@ == tag_line(tags@[j]),
        decreases tags@.len() - i,
    {
        r.push(tag_line_text(&tags[i]));
        i = i + 1;
    }
    r
}

/// A medium in the queue pane: `>` when it plays, `*` when it is a
/// favorite, the name, and ` - ` and the artist when there is one.
pub open spec fn queue_line(m: MediaInfo, playing: bool) -> Seq<char> {
    (if playing {
        ">"@
    } else {
        " "@
    }) + (if m.favorite {
        "*"@
    } else {
        " "@
    }) + " "@ + display_name_spec(m) + match shown(m.artist) {
        Some(a) => " - "@ + a,
        None => Seq::empty(),
    }
}

/// A queue line starts with `>` exactly when the medium plays, then `*`
/// exactly when it is a favorite (whether or not it plays), then a space
/// and the medium's shown name.
pub proof fn lemma_queue_line_marks(m: MediaInfo, playing: bool)
    ensures
        queue_line(m, playing).len() >= 3 + display_name_spec(m).len(),
        queue_line(m, playing)[0] == (if playing { '>' } else { ' ' }),
        queue_line(m, playing)[1] == (if m.favorite { '*' } else { ' ' }),
        queue_line(m, playing)[2] == ' ',
        queue_line(m, playing).subrange(3, 3 + display_name_spec(m).len() as int) == display_name_spec(m),
{
    reveal_strlit(">");
    reveal_strlit(" ");
    reveal_strlit("*");
    let l = queue_line(m, playing);
    assert(l.subrange(3, 3 + display_name_spec(m).len() as int) =~= display_name_spec(m));
}

/// The queue pane's line for a medium.
pub fn queue_line_text(m: &MediaInfo, playing: bool) -> (r: String)
    ensures
        r@ == queue_line(*m, playing),
{
    let play = if playing {
        ">"
    } else {
        " "
    };
    let fav = if m.favorite {
        "*"
    } else {
        " "
    };
    let name = display_name(m);
    let line = String::from_str(play).concat(fav).concat(" ").concat(name.as_str());
    match shown_text(&m.artist) {
        Some(a) => line.concat(" - ").concat(a.as_str()),
        None => {
            assert(line@ =~= line@ + Seq::<char>::empty());
            line
        },
    }
}

/// The last medium in `media` with the given id, where the queue pane looks
/// an id up.
pub open spec fn media_with_id(media: Seq<MediaInfo>, id: i64) -> Option<MediaInfo>
    decreases media.len(),
{
    if media.len() == 0 {
        None
    } else if media.last().id == id {
        Some(media.last())
    } else {
        media_with_id(media.drop_last(), id)
    }
}

fn find_media<'a>(media: &'a Vec<MediaInfo>, id: i64) -> (r: Option<&'a MediaInfo>)
    ensures
        match r {
            Some(m) => media_with_id(media@, id) == Some(*m),
            None => media_with_id(media@, id) is None,
        },
{
    let mut i: usize = media.len();
    assert(media@.take(i as int) =~= media@);
    while i > 0
        invariant
            i <= media@.len(),
            media_with_id(media@, id) == media_with_id(media@.take(i as int), id),
        decreases i,
    {
        let ghost pre = media@.take(i as int);
        assert(pre.drop_last() =~= media@.take(i - 1));
        if media[i - 1].id == id {
            return Some(&media[i - 1]);
        }
        i = i - 1;
    }
    None
}

/// One line of the queue pane: the position in the queue it stands for,
/// its text, and whether it is the medium that plays.
#[derive(Debug, Clone, PartialEq, Eq)]
pub struct QueueLine {
    pub index: usize,
    pub text: String,
    pub playing: bool,
}

/// The queue pane's lines: for each position of the queue whose id names a
/// medium, that medium's line; ids that name none are left out.
pub open spec fn queue_lines_spec(media: Seq<MediaInfo>, queue: Seq<i64>, now: Option<i64>) -> Seq<
    (int, Seq<char>, bool),
>
    decreases queue.len(),
{
    if queue.len() == 0 {
        Seq::empty()
    } else {
        let prev = queue_lines_spec(media, queue.drop_last(), now);
        match media_with_id(media, queue.last()) {
            Some(m) => prev.push(
                (
                    queue.len() - 1,
                    queue_line(m, now == Some(m.id)),
                    now == Some(m.id),
                ),
            ),
            None => prev,
        }
    }
}

/// The queue pane's lines, with `now` the id of the medium that plays.
pub fn queue_lines(media: &Vec<MediaInfo>, queue: &Vec<i64>, now: Option<i64>) -> (r: Vec<
    QueueLine,
>)
    ensures
        r@.len() == queue_lines_spec(media@, queue@, now).len(),
        forall|i: int|
            0 <= i < r@.len() ==> ((#[trigger] r@[i]).index as int, r@[i].text@, r@[i].playing)
                == queue_lines_spec(media@, queue@, now)[i],
{
    let mut r: Vec<QueueLine> = Vec::new();
    let mut i: usize = 0;
    while i < queue.len()
        invariant
            i <= queue@.len(),
            r@.len() == queue_lines_spec(media@, queue@.take(i as int), now).len(),
            forall|j: int|
                0 <= j < r@.len() ==> ((#[trigger] r@[j]).index as int, r@[j].text@, r@[j].playing)
                    == queue_lines_spec(media@, queue@.take(i as int), now)[j],
        decreases queue@.len() - i,
    {
        let ghost pre = queue@.take(i as int);
        let ghost post = queue@.take(i + 1);
        assert(post.drop_last() =~= pre);
        let id = queue[i];
        match find_media(media, id) {
            Some(m) => {
                let playing = match now {
                    Some(n) => n == m.id,
                    None => false,
                };
                let text = queue_line_text(m, playing);
                r.push(QueueLine { index: i, text, playing });
            },
            None => {},
        }
        i = i + 1;
    }
    assert(queue@.take(queue@.len() as int) =~= queue@);
    r
}

/// The texts joined with `sep` between them.
pub open spec fn join(parts: Seq<Seq<char>>, sep: Seq<char>) -> Seq<char>
    decreases parts.len(),
{
    if parts.len() == 0 {
        Seq::empty()
    } else if parts.len() == 1 {
        parts[0]
    } else {
        join(parts.drop_last(), sep) + sep + parts.last()
    }
}

/// The strings joined with `sep` between them (`parts.join(sep)`).
pub fn join_strings(parts: &Vec<String>, sep: &str) -> (r: String)
    ensures
        r@ == join(views(parts@), sep@),
{
    let mut r = String::new();
    let mut i: usize = 0;
    while i < parts.len()
        invariant
            i <= parts@.len(),
            r@ == join(views(parts@.take(i as int)), sep@),
        decreases parts@.len() - i,
    {
        let ghost pre = views(parts@.take(i as int));
        let ghost post = views(parts@.take(i + 1));
        assert(post.drop_last() =~= pre);
        assert(post.last() == parts@[i as int]@);
        if i == 0 {
            assert(post =~= seq![parts@[0]@]);
            r = r.concat(parts[i].as_str());
            assert(r@ =~= parts@[0]@);
        } else {
            r = r.concat(sep).concat(parts[i].as_str());
        }
        i = i + 1;
    }
    assert(parts@.take(parts@.len() as int) =~= parts@);
    r
}

/// The lines of the info pane: for a selected medium, its name, an empty
/// line, then the artist and the title where they are not blank, the type,
/// the source, duration and bitrate where known, and the tags where there
/// are any; with nothing selected, one line that says so.
pub open spec fn info_lines_spec(selected: Option<MediaInfo>) -> Seq<Seq<char>> {
    match selected {
        None => seq!["Nothing selected"@],
        Some(m) => {
            let l0 = seq![display_name_spec(m), Seq::empty()];
            let l1 = match shown(m.artist) {
                Some(a) => l0.push("Artist:    "@ + a),
                None => l0,
            };
            let l2 = match shown(m.title) {
                Some(t) => l1.push("Title:     "@ + t),
                None => l1,
            };
            let l3 = l2.push("Type:      "@ + m.kind@);
            let l4 = match m.source {
                Some(s) => l3.push("Source:    "@ + s@),
                None => l3,
            };
            let l5 = match m.duration {
                Some(d) => l4.push("Duration:  "@ + clock_text(d)),
                None => l4,
            };
            let l6 = match m.bitrate {
                Some(b) => l5.push("Bitrate:   "@ + signed_decimal(b as int) + " bps"@),
                None => l5,
            };
            if m.tags@.len() > 0 {
                l6.push("Tags:      "@ + join(views(m.tags@), ", "@))
            } else {
                l6
            }
        },
    }
}

fn push_line(v: &mut Vec<String>, s: String)
    ensures
        views(final(v)@) == views(old(v)@).push(s@),
{
    v.push(s);
    assert(views(v@) =~= views(old(v)@).push(s@));
}

/// The lines of the info pane.
pub fn info_lines(selected: Option<&MediaInfo>) -> (r: Vec<String>)
    ensures
        views(r@) == info_lines_spec(
            match selected {
                Some(m) => Some(*m),
                None => None,
            },
        ),
{
    let mut lines: Vec<String> = Vec::new();
    match selected {
        None => {
            push_line(&mut lines, String::from_str("Nothing selected"));
            assert(views(lines@) =~= seq!["Nothing selected"@]);
        },
        Some(m) => {
            push_line(&mut lines, display_name(m));
            push_line(&mut lines, String::new());
            assert(views(lines@) =~= seq![display_name_spec(*m), Seq::<char>::empty()]);
            match shown_text(&m.artist) {
                Some(a) => push_line(&mut lines, String::from_str("Artist:    ").concat(a.as_str())),
                None => {},
            }
            match shown_text(&m.title) {
                Some(t) => push_line(&mut lines, String::from_str("Title:     ").concat(t.as_str())),
                None => {},
            }
            push_line(&mut lines, String::from_str("Type:      ").concat(m.kind.as_str()));
            match &m.source {
                Some(s) => push_line(&mut lines, String::from_str("Source:    ").concat(s.as_str())),
                None => {},
            }
            match m.duration {
                Some(d) => {
                    let t = fmt_clock(d);
                    push_line(&mut lines, String::from_str("Duration:  ").concat(t.as_str()));
                },
                None => {},
            }
            match m.bitrate {
                Some(b) => {
                    let t = signed_decimal_string(b);
                    push_line(
                        &mut lines,
                        String::from_str("Bitrate:   ").concat(t.as_str()).concat(" bps"),
                    );
                },
                None => {},
            }
            if m.tags.len() > 0 {
                let t = join_strings(&m.tags, ", ");
                push_line(&mut lines, String::from_str("Tags:      ").concat(t.as_str()));
            }
        },
    }
    lines
}

/// The label of a repeat mode in the status line.
pub open spec fn repeat_label(r: RepeatMode) -> Seq<char> {
    match r {
        RepeatMode::Off => "rep off"@,
        RepeatMode::All => "rep all"@,
        RepeatMode::One => "rep one"@,
    }
}

/// The name of the first checked tag, if any.
pub open spec fn first_checked(tags: Seq<TagInfo>) -> Option<Seq<char>>
    decreases tags.len(),
{
    if tags.len() == 0 {
        None
    } else if tags[0].checked {
        Some(tags[0].name@)
    } else {
        first_checked(tags.drop_first())
    }
}

/// What the status line needs of the medium that plays: its id, position
/// and duration, and how many cells of the progress bar are full.
#[derive(Debug, Clone, Copy, PartialEq, Eq)]
pub struct NowLine {
    pub id: i64,
    pub position: Clock,
    pub duration: Clock,
    pub filled: usize,
}

/// The name shown for the medium that plays: its display name when the
/// library holds it (the first medium with that id), else `unknown`.
pub open spec fn playing_title(media: Seq<MediaInfo>, id: i64) -> Seq<char>
    decreases media.len(),
{
    if media.len() == 0 {
        "unknown"@
    } else if media[0].id == id {
        display_name_spec(media[0])
    } else {
        playing_title(media.drop_first(), id)
    }
}

/// The segments of the status line, in order: a message when there is one,
/// else the title, times and progress bar of what plays, else `stopped`;
/// then the volume right-aligned in three cells, the repeat mode, the
/// shuffle state, and the first checked tag when one is.
pub open spec fn status_spec(
    msg: Option<Seq<char>>,
    now: Option<NowLine>,
    media: Seq<MediaInfo>,
    bar: nat,
    volume: i32,
    repeat: RepeatMode,
    shuffle: bool,
    tags: Seq<TagInfo>,
) -> Seq<Seq<char>> {
    let head = match msg {
        Some(t) => seq![t],
        None => match now {
            Some(n) => seq![
                playing_title(media, n.id),
                "  "@ + clock_text(n.position) + " / "@ + clock_text(n.duration) + " "@,
                bar_text(n.filled as nat, bar),
            ],
            None => seq!["stopped"@],
        },
    };
    let body = head + seq![
        "  vol "@ + pad_left(signed_decimal(volume as int), 3),
        "  "@ + repeat_label(repeat),
        if shuffle {
            "  shf on"@
        } else {
            "  shf off"@
        },
    ];
    match first_checked(tags) {
        Some(name) => body.push("  tags:"@ + name),
        None => body,
    }
}

fn title_of_playing(media: &Vec<MediaInfo>, id: i64) -> (r: String)
    ensures
        r@ == playing_title(media@, id),
{
    let mut i: usize = 0;
    assert(media@.skip(0) =~= media@);
    while i < media.len()
        invariant
            i <= media@.len(),
            playing_title(media@, id) == playing_title(media@.skip(i as int), id),
        decreases media@.len() - i,
    {
        let ghost rest = media@.skip(i as int);
        assert(rest.drop_first() =~= media@.skip(i + 1));
        assert(rest[0] == media@[i as int]);
        if media[i].id == id {
            return display_name(&media[i]);
        }
        i = i + 1;
    }
    String::from_str("unknown")
}

fn checked_tag(tags: &Vec<TagInfo>) -> (r: Option<&String>)
    ensures
        match r {
            Some(s) => first_checked(tags@) == Some(s@),
            None => first_checked(tags@) is None,
        },
{
    let mut i: usize = 0;
    assert(tags@.skip(0) =~= tags@);
    while i < tags.len()
        invariant
            i <= tags@.len(),
            first_checked(tags@) == first_checked(tags@.skip(i as int)),
        decreases tags@.len() - i,
    {
        let ghost rest = tags@.skip(i as int);
        assert(rest.drop_first() =~= tags@.skip(i + 1));
        assert(rest[0] == tags@[i as int]);
        if tags[i].checked {
            return Some(&tags[i].name);
        }
        i = i + 1;
    }
    None
}

/// The segments of the status line, `bar` being the progress bar's width.
pub fn status_segments(
    msg: Option<&str>,
    now: Option<&NowLine>,
    media: &Vec<MediaInfo>,
    bar: usize,
    volume: i32,
    repeat: RepeatMode,
    shuffle: bool,
    tags: &Vec<TagInfo>,
) -> (r: Vec<String>)
    ensures
        views(r@) == status_spec(
            match msg {
                Some(t) => Some(t@),
                None => None,
            },
            match now {
                Some(n) => Some(*n),
                None => None,
            },
            media@,
            bar as nat,
            volume,
            repeat,
            shuffle,
            tags@,
        ),
{
    let mut spans: Vec<String> = Vec::new();
    match msg {
        Some(t) => push_line(&mut spans, String::from_str(t)),
        None => match now {
            Some(n) => {
                push_line(&mut spans, title_of_playing(media, n.id));
                let pos = fmt_clock(n.position);
                let dur = fmt_clock(n.duration);
                push_line(
                    &mut spans,
                    String::from_str("  ").concat(pos.as_str()).concat(" / ").concat(
                        dur.as_str(),
                    ).concat(" "),
                );
                push_line(&mut spans, progress_bar_text(n.filled, bar));
            },
            None => push_line(&mut spans, String::from_str("stopped")),
        },
    }
    let vol = signed_decimal_string(volume as i64);
    let padded = pad_left_string(vol.as_str(), 3);
    push_line(&mut spans, String::from_str("  vol ").concat(padded.as_str()));
    let rep = match repeat {
        RepeatMode::Off => "rep off",
        RepeatMode::All => "rep all",
        RepeatMode::One => "rep one",
    };
    push_line(&mut spans, String::from_str("  ").concat(rep));
    push_line(
        &mut spans,
        String::from_str(
            if shuffle {
                "  shf on"
            } else {
                "  shf off"
            },
        ),
    );
    match checked_tag(tags) {
        Some(name) => push_line(&mut spans, String::from_str("  tags:").concat(name.as_str())),
        None => {},
    }
    spans
}

} // verus!
