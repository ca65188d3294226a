//! What each command does to the library and the player, apart from
//! printing: which songs a name or a search selects, how playback and the
//! queue change, how a song is edited, what the statistics are, and the
//! clock texts that are shown.
use vstd::prelude::*;
use crate::command::opt_text;
use crate::library::{
    title_contains, Album, AlbumView, Credits, Library, Playlist, PlaylistView, Song, SongView,
    first_title_match, first_name_match, no_name_match, no_title_match, opt_credits, song_views,
};
use crate::player::{
    after_play, after_resume, entry_views, AudioAction, AudioActionView, Player, PlayerModel,
    QueueEntry, QueueEntryView, RepeatMode,
};
use crate::text::{
    contains_text, decimal, decimal_string, join_path, joined_path, lowercase, owned, push_char,
    split_on, text_contains, text_eq, to_lowercase, trim, trimmed, views, chars_of, last_index,
    last_index_of, lemma_last_index_of, text_of_range, lemma_last_index_after,
};

verus! {

// ---------------------------------------------------------------------------
// Selecting songs
// ---------------------------------------------------------------------------

/// The positions of the songs that satisfy `pred`, in order.
pub open spec fn positions_where(songs: Seq<Song>, pred: spec_fn(SongView) -> bool) -> Seq<usize>
    decreases songs.len(),
{
    if songs.len() == 0 {
        Seq::empty()
    } else {
        let p = positions_where(songs.drop_last(), pred);
        if pred(songs.last()@) {
            p.push((songs.len() - 1) as usize)
        } else {
            p
        }
    }
}

/// Songs whose title contains `q`.
pub open spec fn titled(q: Seq<char>) -> spec_fn(SongView) -> bool {
    |s: SongView| title_contains(s, q)
}

/// The song's title, folded to lower case, contains `lq`.
pub open spec fn title_hit(s: SongView, lq: Seq<char>) -> bool {
    match s.title {
        Some(t) => contains_text(lowercase(t), lq),
        None => false,
    }
}

/// One of `texts`, folded to lower case, contains `lq`.
pub open spec fn some_lower_contains(texts: Seq<Seq<char>>, lq: Seq<char>) -> bool {
    exists|i: int| 0 <= i < texts.len() && contains_text(lowercase(#[trigger] texts[i]), lq)
}

/// One of the song's hashtags, folded to lower case, contains `lq`.
pub open spec fn tag_hit(s: SongView, lq: Seq<char>) -> bool {
    match s.hashtags {
        Some(tags) => some_lower_contains(tags, lq),
        None => false,
    }
}

/// A creditor's name, folded to lower case, contains `lq`.
pub open spec fn creditor_hit(s: SongView, lq: Seq<char>) -> bool {
    match s.credits {
        Some(c) => exists|i: int| 0 <= i < c.len() && contains_text(lowercase(#[trigger] c[i].1.name), lq),
        None => false,
    }
}

/// A song that a search for `q` finds: its title, one of its hashtags or a
/// creditor's name contains `q`, all folded to lower case.
pub open spec fn search_hit(s: SongView, q: Seq<char>) -> bool {
    title_hit(s, lowercase(q)) || tag_hit(s, lowercase(q)) || creditor_hit(s, lowercase(q))
}

/// Songs that a search for `q` finds.
pub open spec fn found_by(q: Seq<char>) -> spec_fn(SongView) -> bool {
    |s: SongView| search_hit(s, q)
}

proof fn lemma_positions_bounded(songs: Seq<Song>, pred: spec_fn(SongView) -> bool)
    requires
        songs.len() <= usize::MAX,
    ensures
        forall|k: int|
            0 <= k < positions_where(songs, pred).len() ==> (#[trigger] positions_where(
                songs,
                pred,
            )[k]) < songs.len() && pred(songs[positions_where(songs, pred)[k] as int]@),
        positions_where(songs, pred).len() <= songs.len(),
    decreases songs.len(),
{
    if songs.len() > 0 {
        let pre = songs.drop_last();
        lemma_positions_bounded(pre, pred);
        let p = positions_where(pre, pred);
        let all = positions_where(songs, pred);
        assert forall|k: int| 0 <= k < all.len() implies (#[trigger] all[k]) < songs.len() && pred(
            songs[all[k] as int]@,
        ) by {
            if k < p.len() {
                assert(all[k] == p[k]);
                assert(songs[p[k] as int] == pre[p[k] as int]);
            } else {
                assert(all[k] == songs.len() - 1);
            }
        }
    }
}

/// The positions of the songs whose title contains `query`.
pub fn title_matches(library: &Library, query: &str) -> (r: Vec<usize>)
    ensures
        r@ == positions_where(library.songs@, titled(query@)),
{
    let ghost pred = titled(query@);
    let mut r: Vec<usize> = Vec::new();
    let mut i: usize = 0;
    while i < library.songs.len()
        invariant
            i <= library.songs.len(),
            pred == titled(query@),
            r@ == positions_where(library.songs@.subrange(0, i as int), pred),
        decreases library.songs.len() - i,
    {
        let ghost pre = library.songs@.subrange(0, i + 1);
        assert(pre.drop_last() =~= library.songs@.subrange(0, i as int));
        let hit = match &library.songs[i].title {
            Some(t) => text_contains(t.as_str(), query),
            None => false,
        };
        assert(hit == pred(pre.last()@));
        if hit {
            r.push(i);
        }
        i = i + 1;
    }
    assert(library.songs@.subrange(0, library.songs.len() as int) =~= library.songs@);
    r
}

/// Whether some text of `texts`, folded to lower case, contains `lq`.
fn any_lower_contains(texts: &Vec<String>, lq: &str) -> (r: bool)
    ensures
        r == some_lower_contains(views(texts@), lq@),
{
    let mut i: usize = 0;
    while i < texts.len()
        invariant
            i <= texts.len(),
            forall|j: int| 0 <= j < i ==> !contains_text(lowercase(#[trigger] views(texts@)[j]), lq@),
        decreases texts.len() - i,
    {
        let l = to_lowercase(texts[i].as_str());
        if text_contains(l.as_str(), lq) {
            assert(contains_text(lowercase(views(texts@)[i as int]), lq@));
            return true;
        }
        i = i + 1;
    }
    false
}

/// Whether a creditor's name, folded to lower case, contains `lq`.
fn any_creditor_lower_contains(c: &Credits, lq: &str) -> (r: bool)
    ensures
        r == exists|i: int| 0 <= i < c@.len() && contains_text(lowercase(#[trigger] c@[i].1.name), lq@),
{
    let n = c.len();
    let mut i: usize = 0;
    while i < n
        invariant
            n == c@.len(),
            i <= n,
            forall|j: int| 0 <= j < i ==> !contains_text(lowercase(#[trigger] c@[j].1.name), lq@),
        decreases n - i,
    {
        let (_, cr) = c.entry(i);
        let l = to_lowercase(cr.name.as_str());
        if text_contains(l.as_str(), lq) {
            assert(contains_text(lowercase(c@[i as int].1.name), lq@));
            return true;
        }
        i = i + 1;
    }
    false
}

/// Whether a search for the lower-cased query `lq` (of `query`) finds `s`.
fn song_search_hit(s: &Song, query: &str, lq: &str) -> (r: bool)
    requires
        lq@ == lowercase(query@),
    ensures
        r == search_hit(s@, query@),
{
    let by_title = match &s.title {
        Some(t) => {
            let l = to_lowercase(t.as_str());
            let hit = text_contains(l.as_str(), lq);
            assert(s@.title == Some(t@));
            hit
        },
        None => false,
    };
    if by_title {
        return true;
    }
    let by_tag = match &s.hashtags {
        Some(tags) => {
            let hit = any_lower_contains(tags, lq);
            assert(s@.hashtags == Some(views(tags@)));
            hit
        },
        None => false,
    };
    if by_tag {
        return true;
    }
    match &s.credits {
        Some(c) => any_creditor_lower_contains(c, lq),
        None => false,
    }
}

/// The positions of the songs that a search for `query` finds: title,
/// hashtags and creditor names are matched without regard to case.
pub fn search_songs(library: &Library, query: &str) -> (r: Vec<usize>)
    ensures
        r@ == positions_where(library.songs@, found_by(query@)),
{
    let lq = to_lowercase(query);
    let ghost pred = found_by(query@);
    let mut r: Vec<usize> = Vec::new();
    let mut i: usize = 0;
    while i < library.songs.len()
        invariant
            i <= library.songs.len(),
            lq@ == lowercase(query@),
            pred == found_by(query@),
            r@ == positions_where(library.songs@.subrange(0, i as int), pred),
        decreases library.songs.len() - i,
    {
        let ghost pre = library.songs@.subrange(0, i + 1);
        assert(pre.drop_last() =~= library.songs@.subrange(0, i as int));
        let hit = song_search_hit(&library.songs[i], query, lq.as_str());
        assert(hit == pred(pre.last()@));
        if hit {
            r.push(i);
        }
        i = i + 1;
    }
    assert(library.songs@.subrange(0, library.songs.len() as int) =~= library.songs@);
    r
}

/// The first position of a song whose title is `t` (or 0 if there is none),
/// as the queue records a song found by name.
pub open spec fn first_same_title(songs: Seq<Song>, t: Option<Seq<char>>) -> int {
    if exists|j: int| 0 <= j < songs.len() && songs[j]@.title == t && (forall|k: int|
        0 <= k < j ==> (#[trigger] songs[k])@.title != t) {
        choose|j: int|
            0 <= j < songs.len() && songs[j]@.title == t && (forall|k: int|
                0 <= k < j ==> (#[trigger] songs[k])@.title != t)
    } else {
        0
    }
}

fn same_title(a: &Option<String>, b: &Option<String>) -> (r: bool)
    ensures
        r == (opt_text(*a) == opt_text(*b)),
{
    match (a, b) {
        (Some(x), Some(y)) => text_eq(x.as_str(), y.as_str()),
        (None, None) => true,
        _ => false,
    }
}

/// The first position of a song titled like `t`.
fn first_same_title_exec(library: &Library, t: &Option<String>) -> (r: usize)
    ensures
        r == first_same_title(library.songs@, opt_text(*t)),
{
    let ghost tv = opt_text(*t);
    let mut i: usize = 0;
    while i < library.songs.len()
        invariant
            i <= library.songs.len(),
            tv == opt_text(*t),
            forall|k: int| 0 <= k < i ==> (#[trigger] library.songs@[k])@.title != tv,
        decreases library.songs.len() - i,
    {
        if same_title(&library.songs[i].title, t) {
            let ghost songs = library.songs@;
            let ghost j = choose|j: int|
                0 <= j < songs.len() && songs[j]@.title == tv && (forall|k: int|
                    0 <= k < j ==> (#[trigger] songs[k])@.title != tv);
            assert(j == i as int) by {
                if j < i {
                    assert(songs[j]@.title != tv);
                }
                if j > i {
                    assert(songs[i as int]@.title != tv);
                }
            }
            return i;
        }
        i = i + 1;
    }
    0
}

// ---------------------------------------------------------------------------
// Playing and queueing
// ---------------------------------------------------------------------------

/// The text of an optional string, or `d`.
pub open spec fn text_or(o: Option<Seq<char>>, d: Seq<char>) -> Seq<char> {
    match o {
        Some(t) => t,
        None => d,
    }
}

fn string_or(o: &Option<String>, d: &str) -> (r: String)
    ensures
        r@ == text_or(opt_text(*o), d@),
{
    match o {
        Some(t) => t.clone(),
        None => owned(d),
    }
}

/// The queue entry for song `i`: its position as id, its title (or
/// `untitled`), its source (or the empty path).
pub open spec fn entry_for(songs: Seq<Song>, i: int, id: usize, untitled: Seq<char>) -> QueueEntryView {
    QueueEntryView {
        song_id: id,
        song_title: text_or(songs[i]@.title, untitled),
        source_path: text_or(songs[i]@.source, ""@),
    }
}

/// The player after every song `0..n` was played in library order, with
/// the audio actions in order.
pub open spec fn play_each(m: PlayerModel, songs: Seq<Song>, n: nat) -> (PlayerModel, Seq<AudioActionView>)
    decreases n,
{
    if n == 0 {
        (m, Seq::empty())
    } else {
        let prev = play_each(m, songs, (n - 1) as nat);
        let step = after_play(prev.0, entry_for(songs, n - 1, (n - 1) as usize, "Untitled"@));
        (step.0, prev.1.push(step.1))
    }
}

/// The views of a list of audio actions.
pub open spec fn action_views(v: Seq<AudioAction>) -> Seq<AudioActionView> {
    v.map_values(|a: AudioAction| a@)
}

/// What a `play` command did.
#[derive(Debug)]
pub enum PlayOutcome {
    /// Every song was played (queued) in library order.
    QueuedAll { count: usize, actions: Vec<AudioAction> },
    /// No song's title contains the name.
    NotFound,
    /// The one song whose title contains the name was played.
    Played { index: usize, action: AudioAction },
    /// Several songs' titles contain the name; nothing was played.
    Ambiguous { matches: Vec<usize> },
    /// No name and nothing queued.
    EmptyQueue,
    /// No name: the player was resumed.
    Resumed { action: AudioAction },
}

/// Plays every song, in library order.
fn play_all(player: &mut Player, library: &Library) -> (r: Vec<AudioAction>)
    ensures
        (final(player)@, action_views(r@)) == play_each(
            old(player)@,
            library.songs@,
            library.songs@.len(),
        ),
{
    let mut actions: Vec<AudioAction> = Vec::new();
    let mut i: usize = 0;
    while i < library.songs.len()
        invariant
            i <= library.songs.len(),
            (player@, action_views(actions@)) == play_each(old(player)@, library.songs@, i as nat),
        decreases library.songs.len() - i,
    {
        let title = string_or(&library.songs[i].title, "Untitled");
        let src = string_or(&library.songs[i].source, "");
        let ghost before = action_views(actions@);
        let ghost pm = player@;
        let ghost e = entry_for(library.songs@, i as int, i, "Untitled"@);
        assert(e == (QueueEntryView { song_id: i, song_title: title@, source_path: src@ }));
        let a = player.play(i, title.as_str(), src.as_str());
        let ghost av = a@;
        actions.push(a);
        assert(action_views(actions@) =~= before.push(av));
        assert(play_each(old(player)@, library.songs@, (i + 1) as nat) == (player@, before.push(av)));
        i = i + 1;
    }
    actions
}

/// Runs a `play` command: `all` plays every song; a name plays the one song
/// whose title contains it (when exactly one does, recorded under the first
/// position of a song with that title); no name resumes a non-empty queue.
pub fn play_command(player: &mut Player, library: &Library, name: Option<&str>, all: bool) -> (r:
    PlayOutcome)
    ensures
        all ==> match r {
            PlayOutcome::QueuedAll { count, actions } => count == library.songs@.len() && (
            final(player)@, action_views(actions@)) == play_each(
                old(player)@,
                library.songs@,
                library.songs@.len(),
            ),
            _ => false,
        },
        !all ==> match name {
            Some(n) => {
                let hits = positions_where(library.songs@, titled(n@));
                match r {
                    PlayOutcome::NotFound => hits.len() == 0 && final(player)@ == old(player)@,
                    PlayOutcome::Played { index, action } => hits.len() == 1 && index == hits[0]
                        && (final(player)@, action@) == after_play(
                        old(player)@,
                        entry_for(
                            library.songs@,
                            index as int,
                            first_same_title(
                                library.songs@,
                                library.songs@[index as int]@.title,
                            ) as usize,
                            "Untitled"@,
                        ),
                    ),
                    PlayOutcome::Ambiguous { matches } => hits.len() > 1 && matches@ == hits
                        && final(player)@ == old(player)@,
                    _ => false,
                }
            },
            None => match r {
                PlayOutcome::EmptyQueue => old(player)@.queue.len() == 0 && final(player)@ == old(player)@,
                PlayOutcome::Resumed { action } => old(player)@.queue.len() > 0 && (
                final(player)@, action@) == after_resume(old(player)@),
                _ => false,
            },
        },
{
    if all {
        let actions = play_all(player, library);
        return PlayOutcome::QueuedAll { count: library.songs.len(), actions };
    }
    match name {
        Some(n) => {
            let hits = title_matches(library, n);
            let count = library.songs.len();
            proof {
                lemma_positions_bounded(library.songs@, titled(n@));
            }
            if hits.len() == 0 {
                PlayOutcome::NotFound
            } else if hits.len() == 1 {
                let index = hits[0];
                let song = &library.songs[index];
                let id = first_same_title_exec(library, &song.title);
                let title = string_or(&song.title, "Untitled");
                let src = string_or(&song.source, "");
                assert(entry_for(library.songs@, index as int, id, "Untitled"@) == (QueueEntryView {
                    song_id: id,
                    song_title: title@,
                    source_path: src@,
                }));
                let action = player.play(id, title.as_str(), src.as_str());
                PlayOutcome::Played { index, action }
            } else {
                PlayOutcome::Ambiguous { matches: hits }
            }
        },
        None => {
            if player.queue.len() == 0 {
                PlayOutcome::EmptyQueue
            } else {
                let action = player.resume();
                PlayOutcome::Resumed { action }
            }
        },
    }
}

/// The queue entries for the songs at `hits`, in order: each recorded
/// under the first position of a song with its title, with its title (or
/// the empty text) and source.
pub open spec fn entries_for_hits(songs: Seq<Song>, hits: Seq<usize>) -> Seq<QueueEntryView> {
    Seq::new(
        hits.len(),
        |k: int|
            entry_for(
                songs,
                hits[k] as int,
                first_same_title(songs, songs[hits[k] as int]@.title) as usize,
                ""@,
            ),
    )
}

/// The queue entries for every song, in library order, with the empty text
/// for a missing title.
pub open spec fn entries_for_all(songs: Seq<Song>) -> Seq<QueueEntryView> {
    Seq::new(songs.len(), |i: int| entry_for(songs, i, i as usize, ""@))
}

/// What a `queue add` command did.
#[derive(Debug)]
pub enum QueueAddOutcome {
    /// Every song was queued.
    AddedAll { count: usize },
    /// The songs at these positions were queued.
    Added { matches: Vec<usize> },
    /// No song's title contains the name.
    NotFound,
    /// Neither a name nor `all` was given.
    MissingName,
}

/// Runs a `queue add` command: `all` queues every song; a name queues every
/// song whose title contains it; playback is not started.
pub fn queue_add_command(player: &mut Player, library: &Library, name: Option<&str>, all: bool) -> (r:
    QueueAddOutcome)
    ensures
        all ==> r == (QueueAddOutcome::AddedAll { count: library.songs@.len() as usize })
            && final(player)@ == (PlayerModel {
            queue: old(player)@.queue + entries_for_all(library.songs@),
            ..old(player)@
        }),
        !all ==> match name {
            Some(n) => {
                let hits = positions_where(library.songs@, titled(n@));
                match r {
                    QueueAddOutcome::NotFound => hits.len() == 0 && final(player)@ == old(player)@,
                    QueueAddOutcome::Added { matches } => hits.len() > 0 && matches@ == hits
                        && final(player)@ == (PlayerModel {
                        queue: old(player)@.queue + entries_for_hits(library.songs@, hits),
                        ..old(player)@
                    }),
                    _ => false,
                }
            },
            None => r == QueueAddOutcome::MissingName && final(player)@ == old(player)@,
        },
{
    if all {
        let mut entries: Vec<QueueEntry> = Vec::new();
        let mut i: usize = 0;
        while i < library.songs.len()
            invariant
                i <= library.songs.len(),
                entry_views(entries@) == entries_for_all(library.songs@).subrange(0, i as int),
            decreases library.songs.len() - i,
        {
            let title = string_or(&library.songs[i].title, "");
            let src = string_or(&library.songs[i].source, "");
            let ghost before = entry_views(entries@);
            let e = QueueEntry::new(i, title.as_str(), src.as_str());
            let ghost ev = e@;
            assert(ev == entry_for(library.songs@, i as int, i, ""@));
            entries.push(e);
            assert(entry_views(entries@) =~= before.push(ev));
            i = i + 1;
            assert(entries_for_all(library.songs@).subrange(0, i as int) =~= before.push(ev));
        }
        assert(entries_for_all(library.songs@).subrange(0, library.songs.len() as int)
            =~= entries_for_all(library.songs@));
        player.queue_add(entries);
        return QueueAddOutcome::AddedAll { count: library.songs.len() };
    }
    match name {
        Some(n) => {
            let hits = title_matches(library, n);
            let count = library.songs.len();
            proof {
                lemma_positions_bounded(library.songs@, titled(n@));
            }
            if hits.len() == 0 {
                return QueueAddOutcome::NotFound;
            }
            let mut entries: Vec<QueueEntry> = Vec::new();
            let mut k: usize = 0;
            while k < hits.len()
                invariant
                    k <= hits.len(),
                    hits@ == positions_where(library.songs@, titled(n@)),
                    forall|j: int| 0 <= j < hits@.len() ==> #[trigger] hits@[j] < library.songs@.len(),
                    entry_views(entries@) == entries_for_hits(library.songs@, hits@).subrange(
                        0,
                        k as int,
                    ),
                decreases hits.len() - k,
            {
                let index = hits[k];
                let song = &library.songs[index];
                let id = first_same_title_exec(library, &song.title);
                let title = string_or(&song.title, "");
                let src = string_or(&song.source, "");
                let ghost before = entry_views(entries@);
                let e = QueueEntry::new(id, title.as_str(), src.as_str());
                let ghost ev = e@;
                assert(ev == entries_for_hits(library.songs@, hits@)[k as int]);
                entries.push(e);
                assert(entry_views(entries@) =~= before.push(ev));
                k = k + 1;
                assert(entries_for_hits(library.songs@, hits@).subrange(0, k as int) =~= before.push(
                    ev,
                ));
            }
            assert(entries_for_hits(library.songs@, hits@).subrange(0, hits.len() as int)
                =~= entries_for_hits(library.songs@, hits@));
            player.queue_add(entries);
            QueueAddOutcome::Added { matches: hits }
        },
        None => QueueAddOutcome::MissingName,
    }
}

/// The repeat mode that a word names.
pub open spec fn repeat_mode_of(w: Seq<char>) -> Option<RepeatMode> {
    if w == "one"@ || w == "1"@ || w == "single"@ {
        Some(RepeatMode::One)
    } else if w == "all"@ {
        Some(RepeatMode::All)
    } else if w == "off"@ || w == "0"@ || w == "none"@ {
        Some(RepeatMode::Off)
    } else {
        None
    }
}

/// The repeat mode that a word names: `one`/`1`/`single`, `all`,
/// `off`/`0`/`none`.
pub fn parse_repeat_mode(mode: &str) -> (r: Option<RepeatMode>)
    ensures
        r == repeat_mode_of(mode@),
{
    if text_eq(mode, "one") || text_eq(mode, "1") || text_eq(mode, "single") {
        Some(RepeatMode::One)
    } else if text_eq(mode, "all") {
        Some(RepeatMode::All)
    } else if text_eq(mode, "off") || text_eq(mode, "0") || text_eq(mode, "none") {
        Some(RepeatMode::Off)
    } else {
        None
    }
}


// ---------------------------------------------------------------------------
// Editing the library
// ---------------------------------------------------------------------------

/// A field of a song that `edit` can set.
#[derive(Debug, Clone, Copy, PartialEq, Eq, Structural)]
pub enum SongField {
    Title,
    Description,
    Hashtags,
    Credits,
    Album,
}

/// The field that a word names.
pub open spec fn song_field_of(f: Seq<char>) -> Option<SongField> {
    if f == "title"@ {
        Some(SongField::Title)
    } else if f == "description"@ || f == "desc"@ {
        Some(SongField::Description)
    } else if f == "hashtags"@ || f == "tags"@ {
        Some(SongField::Hashtags)
    } else if f == "credits"@ || f == "credit"@ {
        Some(SongField::Credits)
    } else if f == "album"@ {
        Some(SongField::Album)
    } else {
        None
    }
}

/// The field that a word names: `title`, `description`/`desc`,
/// `hashtags`/`tags`, `credits`/`credit`, `album`.
pub fn parse_song_field(f: &str) -> (r: Option<SongField>)
    ensures
        r == song_field_of(f@),
{
    if text_eq(f, "title") {
        Some(SongField::Title)
    } else if text_eq(f, "description") || text_eq(f, "desc") {
        Some(SongField::Description)
    } else if text_eq(f, "hashtags") || text_eq(f, "tags") {
        Some(SongField::Hashtags)
    } else if text_eq(f, "credits") || text_eq(f, "credit") {
        Some(SongField::Credits)
    } else if text_eq(f, "album") {
        Some(SongField::Album)
    } else {
        None
    }
}

/// The song `s` with `field` set from `value`: hashtags are the
/// comma-separated pieces, trimmed; credits are `credits` (what the value
/// read as a credits table, if anything); an album gets the value as title.
pub open spec fn edited(
    s: SongView,
    field: SongField,
    value: Seq<char>,
    credits: Option<Seq<(Seq<char>, crate::library::CreditorView)>>,
) -> SongView {
    match field {
        SongField::Title => SongView { title: Some(value), ..s },
        SongField::Description => SongView { description: Some(value), ..s },
        SongField::Hashtags => SongView {
            hashtags: Some(crate::config::trimmed_pieces(value)),
            ..s
        },
        SongField::Credits => SongView { credits, ..s },
        SongField::Album => SongView { album: Some(AlbumView { title: value, cover: None }), ..s },
    }
}

/// Why an edit was refused.
#[derive(Debug, Clone, Copy, PartialEq, Eq, Structural)]
pub enum EditError {
    /// No song's title contains the given title.
    SongNotFound,
    /// The field name is not one of the editable fields.
    UnknownField,
}

/// The songs are the same but at position `i`.
pub open spec fn same_except(a: Seq<Song>, b: Seq<Song>, i: int) -> bool {
    &&& a.len() == b.len()
    &&& forall|j: int| 0 <= j < a.len() && j != i ==> a[j] == b[j]
}

/// Sets `field` of the first song whose title contains `title` from
/// `value` (for `credits`, to `credits`, the value read as a credits table).
pub fn edit_song(
    library: &mut Library,
    title: &str,
    field: &str,
    value: &str,
    credits: Option<Credits>,
) -> (r: Result<usize, EditError>)
    ensures
        final(library).playlists == old(library).playlists,
        match r {
            Ok(i) => first_title_match(old(library).songs@, title@, i as int) && song_field_of(
                field@,
            ) is Some && same_except(old(library).songs@, final(library).songs@, i as int)
                && final(library).songs@[i as int]@ == edited(
                old(library).songs@[i as int]@,
                song_field_of(field@).unwrap(),
                value@,
                opt_credits(credits),
            ),
            Err(EditError::SongNotFound) => no_title_match(old(library).songs@, title@)
                && final(library).songs == old(library).songs,
            Err(EditError::UnknownField) => (exists|i: int|
                first_title_match(old(library).songs@, title@, i)) && song_field_of(field@) is None
                && final(library).songs == old(library).songs,
        },
{
    let i = match library.find_song_index(title) {
        Some(i) => i,
        None => {
            return Err(EditError::SongNotFound);
        },
    };
    let f = match parse_song_field(field) {
        Some(f) => f,
        None => {
            return Err(EditError::UnknownField);
        },
    };
    match f {
        SongField::Title => {
            library.songs[i].title = Some(owned(value));
        },
        SongField::Description => {
            library.songs[i].description = Some(owned(value));
        },
        SongField::Hashtags => {
            library.songs[i].hashtags = Some(crate::config::trimmed_strings(value));
        },
        SongField::Credits => {
            library.songs[i].credits = credits;
        },
        SongField::Album => {
            library.songs[i].album = Some(Album::new(value));
        },
    }
    Ok(i)
}

/// Sets the lyrics of the first song whose title contains `title`.
pub fn set_lyrics(library: &mut Library, title: &str, text: &str) -> (r: Option<usize>)
    ensures
        final(library).playlists == old(library).playlists,
        match r {
            Some(i) => first_title_match(old(library).songs@, title@, i as int) && same_except(
                old(library).songs@,
                final(library).songs@,
                i as int,
            ) && final(library).songs@[i as int]@ == (SongView {
                lyrics: Some(text@),
                ..old(library).songs@[i as int]@
            }),
            None => no_title_match(old(library).songs@, title@) && final(library).songs == old(library).songs,
        },
{
    match library.find_song_index(title) {
        Some(i) => {
            library.songs[i].lyrics = Some(owned(text));
            Some(i)
        },
        None => None,
    }
}

/// Where a song was added by `add_to_playlist`.
#[derive(Debug, Clone, Copy, PartialEq, Eq, Structural)]
pub enum PlaylistAddition {
    /// To the existing playlist at this position.
    Existing(usize),
    /// To a new playlist, added last.
    Created,
}

/// The songs of a playlist, none if it has no list.
pub open spec fn listed(p: PlaylistView) -> Seq<SongView> {
    match p.playlist {
        Some(v) => v,
        None => Seq::empty(),
    }
}

/// Adds a copy of the first song whose title contains `song_title` to the
/// first playlist whose name contains `playlist_name`, or, if there is none,
/// to a new playlist named `playlist_name`.
pub fn add_to_playlist(library: &mut Library, song_title: &str, playlist_name: &str) -> (r: Option<
    PlaylistAddition,
>)
    ensures
        final(library).songs == old(library).songs,
        match r {
            None => no_title_match(old(library).songs@, song_title@) && final(library).playlists
                == old(library).playlists,
            Some(PlaylistAddition::Existing(j)) => exists|i: int|
                first_title_match(old(library).songs@, song_title@, i) && first_name_match(
                    old(library).playlists@,
                    playlist_name@,
                    j as int,
                ) && final(library).playlists@.len() == old(library).playlists@.len() && (forall|k: int|
                    0 <= k < old(library).playlists@.len() && k != j ==> final(library).playlists@[k]
                        == old(library).playlists@[k]) && final(library).playlists@[j as int]@ == (PlaylistView {
                    playlist: Some(
                        listed(old(library).playlists@[j as int]@).push(
                            old(library).songs@[i]@,
                        ),
                    ),
                    ..old(library).playlists@[j as int]@
                }),
            Some(PlaylistAddition::Created) => exists|i: int|
                first_title_match(old(library).songs@, song_title@, i) && no_name_match(
                    old(library).playlists@,
                    playlist_name@,
                ) && final(library).playlists@.drop_last() == old(library).playlists@ && final(library).playlists@.len() == old(library).playlists@.len() + 1 && final(library).playlists@.last()@ == (PlaylistView {
                    name: Some(playlist_name@),
                    cover: None,
                    playlist: Some(seq![old(library).songs@[i]@]),
                    description: None,
                }),
        },
{
    let i = match library.find_song_index(song_title) {
        Some(i) => i,
        None => {
            return None;
        },
    };
    let copy = library.songs[i].duplicate();
    let ghost sv = copy@;
    let ghost old_lists = library.playlists@;
    match library.find_playlist_index(playlist_name) {
        Some(j) => {
            let mut pl = library.playlists.remove(j);
            let ghost before = pl;
            pl.add_song(copy);
            assert(song_views(pl.playlist.unwrap()@) =~= listed(before@).push(sv));
            library.playlists.insert(j, pl);
            assert(library.playlists@ =~= old_lists.update(j as int, pl));
            Some(PlaylistAddition::Existing(j))
        },
        None => {
            let mut pl = Playlist::new();
            pl.name(playlist_name);
            pl.add_song(copy);
            assert(song_views(pl.playlist.unwrap()@) =~= seq![sv]);
            library.add_playlist(pl);
            assert(library.playlists@.drop_last() =~= old_lists);
            Some(PlaylistAddition::Created)
        },
    }
}

// ---------------------------------------------------------------------------
// Statistics and clock texts
// ---------------------------------------------------------------------------

/// The sum of the known durations, in seconds.
pub open spec fn total_duration(songs: Seq<Song>) -> nat
    decreases songs.len(),
{
    if songs.len() == 0 {
        0
    } else {
        total_duration(songs.drop_last()) + match songs.last().duration {
            Some(d) => d as nat,
            None => 0,
        }
    }
}

/// The sum of the play counts.
pub open spec fn total_plays(songs: Seq<Song>) -> nat
    decreases songs.len(),
{
    if songs.len() == 0 {
        0
    } else {
        total_plays(songs.drop_last()) + songs.last().played_count as nat
    }
}

/// The number of songs with a source file.
pub open spec fn count_with_source(songs: Seq<Song>) -> nat
    decreases songs.len(),
{
    if songs.len() == 0 {
        0
    } else {
        count_with_source(songs.drop_last()) + if songs.last().source is Some {
            1nat
        } else {
            0nat
        }
    }
}

/// The number of songs with lyrics.
pub open spec fn count_with_lyrics(songs: Seq<Song>) -> nat
    decreases songs.len(),
{
    if songs.len() == 0 {
        0
    } else {
        count_with_lyrics(songs.drop_last()) + if songs.last().lyrics is Some {
            1nat
        } else {
            0nat
        }
    }
}

/// The library's statistics.
#[derive(Debug, Clone, Copy, PartialEq, Eq, Structural)]
pub struct LibraryStats {
    pub total_songs: usize,
    pub total_duration_secs: u64,
    pub total_played: u64,
    pub with_source: usize,
    pub with_lyrics: usize,
    pub playlist_count: usize,
}

proof fn lemma_totals_bounded(songs: Seq<Song>)
    ensures
        total_duration(songs) <= songs.len() * 4294967295,
        total_plays(songs) <= songs.len() * 4294967295,
        count_with_source(songs) <= songs.len(),
        count_with_lyrics(songs) <= songs.len(),
    decreases songs.len(),
{
    if songs.len() > 0 {
        lemma_totals_bounded(songs.drop_last());
    }
}

/// Counts and sums over the library; none where a sum does not fit in
/// 64 bits.
pub fn library_stats(library: &Library) -> (r: Option<LibraryStats>)
    ensures
        r is Some <==> (total_duration(library.songs@) <= u64::MAX && total_plays(library.songs@)
            <= u64::MAX),
        r matches Some(st) ==> {
            &&& st.total_songs == library.songs@.len()
            &&& st.total_duration_secs == total_duration(library.songs@)
            &&& st.total_played == total_plays(library.songs@)
            &&& st.with_source == count_with_source(library.songs@)
            &&& st.with_lyrics == count_with_lyrics(library.songs@)
            &&& st.playlist_count == library.playlists@.len()
        },
{
    let mut duration: u128 = 0;
    let mut played: u128 = 0;
    let mut with_source: usize = 0;
    let mut with_lyrics: usize = 0;
    let mut i: usize = 0;
    while i < library.songs.len()
        invariant
            i <= library.songs.len(),
            duration == total_duration(library.songs@.subrange(0, i as int)),
            played == total_plays(library.songs@.subrange(0, i as int)),
            with_source == count_with_source(library.songs@.subrange(0, i as int)),
            with_lyrics == count_with_lyrics(library.songs@.subrange(0, i as int)),
        decreases library.songs.len() - i,
    {
        let ghost pre = library.songs@.subrange(0, i + 1);
        assert(pre.drop_last() =~= library.songs@.subrange(0, i as int));
        proof {
            lemma_totals_bounded(pre);
            assert(pre.len() * 4294967295 <= 18446744073709551615 * 4294967295) by (nonlinear_arith)
                requires
                    pre.len() <= 18446744073709551615,
            ;
        }
        let s = &library.songs[i];
        match s.duration {
            Some(d) => {
                duration = duration + d as u128;
            },
            None => {},
        }
        played = played + s.played_count as u128;
        if s.source.is_some() {
            with_source = with_source + 1;
        }
        if s.lyrics.is_some() {
            with_lyrics = with_lyrics + 1;
        }
        i = i + 1;
    }
    assert(library.songs@.subrange(0, library.songs.len() as int) =~= library.songs@);
    if duration > u64::MAX as u128 || played > u64::MAX as u128 {
        return None;
    }
    Some(
        LibraryStats {
            total_songs: library.songs.len(),
            total_duration_secs: duration as u64,
            total_played: played as u64,
            with_source,
            with_lyrics,
            playlist_count: library.playlists.len(),
        },
    )
}

/// `n` written with at least two digits, as `{:02}` writes it.
pub open spec fn two_digits(n: nat) -> Seq<char> {
    if n < 10 {
        seq!['0'] + decimal(n)
    } else {
        decimal(n)
    }
}

/// `a:b`, each with at least two digits.
pub open spec fn clock(a: nat, b: nat) -> Seq<char> {
    two_digits(a) + seq![':'] + two_digits(b)
}

/// `a:b`, each with at least two digits.
pub fn clock_text(a: u64, b: u64) -> (r: String)
    ensures
        r@ == clock(a as nat, b as nat),
{
    let mut r = String::new();
    if a < 10 {
        push_char(&mut r, '0');
    }
    r.append(decimal_string(a).as_str());
    push_char(&mut r, ':');
    if b < 10 {
        push_char(&mut r, '0');
    }
    r.append(decimal_string(b).as_str());
    assert(r@ =~= clock(a as nat, b as nat));
    r
}

/// A duration in seconds as minutes and seconds, `mm:ss`.
pub fn duration_label(secs: u64) -> (r: String)
    ensures
        r@ == clock((secs / 60) as nat, (secs % 60) as nat),
{
    clock_text(secs / 60, secs % 60)
}

/// A total in seconds as hours and minutes, `hh:mm`.
pub fn hours_minutes_label(secs: u64) -> (r: String)
    ensures
        r@ == clock((secs / 3600) as nat, ((secs % 3600) / 60) as nat),
{
    clock_text(secs / 3600, (secs % 3600) / 60)
}

/// Where `export` writes: the given path, or `library_export.json` in the
/// data directory when none is given.
pub open spec fn export_target(data_dir: Seq<char>, path: Seq<char>) -> Seq<char> {
    if path.len() == 0 {
        joined_path(data_dir, "library_export.json"@)
    } else {
        path
    }
}

/// Where `export` writes.
pub fn export_path(data_dir: &str, path: &str) -> (r: String)
    ensures
        r@ == export_target(data_dir@, path@),
{
    if path.unicode_len() == 0 {
        join_path(data_dir, "library_export.json")
    } else {
        owned(path)
    }
}


// ---------------------------------------------------------------------------
// Importing
// ---------------------------------------------------------------------------

/// A lower-cased file extension that `import` takes as audio: `mp3`,
/// `flac`, `wav`, `ogg`, `m4a` or `aac`.
pub open spec fn is_audio_word(l: Seq<char>) -> bool {
    l == "mp3"@ || l == "flac"@ || l == "wav"@ || l == "ogg"@ || l == "m4a"@ || l == "aac"@
}

/// A file extension that `import` takes as audio: one whose lower case is
/// an audio extension.
pub open spec fn is_audio_extension(ext: Seq<char>) -> bool {
    is_audio_word(lowercase(ext))
}

/// Whether the lower-cased extension `l` is one that `import` takes as audio.
pub fn audio_word(l: &str) -> (r: bool)
    ensures
        r == is_audio_word(l@),
{
    text_eq(l, "mp3") || text_eq(l, "flac") || text_eq(l, "wav") || text_eq(l, "ogg") || text_eq(
        l,
        "m4a",
    ) || text_eq(l, "aac")
}

/// Whether `import` takes a file with this extension as audio.
pub fn audio_extension(ext: &str) -> (r: bool)
    ensures
        r == is_audio_extension(ext@),
{
    let l = to_lowercase(ext);
    audio_word(l.as_str())
}

/// The file name of a path as a directory listing gives it: the text after
/// its last `/`.
pub open spec fn file_name_of(p: Seq<char>) -> Seq<char> {
    p.subrange(last_index_of(p, '/') + 1, p.len() as int)
}

/// The stem and the extension of a file name, split as `Path::file_stem`
/// and `Path::extension` split it: at the last `.`, unless that dot is the
/// first character or there is none (then the whole name is the stem and
/// there is no extension); `..` has no extension.
pub open spec fn stem_and_extension(name: Seq<char>) -> (Seq<char>, Option<Seq<char>>) {
    let d = last_index_of(name, '.');
    if name == ".."@ || d <= 0 {
        (name, None)
    } else {
        (name.subrange(0, d), Some(name.subrange(d + 1, name.len() as int)))
    }
}

/// The title under which `import` takes the file at `path`: its stem, where
/// it has an audio extension; none otherwise.
pub open spec fn import_title(path: Seq<char>) -> Option<Seq<char>> {
    let (stem, ext) = stem_and_extension(file_name_of(path));
    match ext {
        Some(e) => if is_audio_extension(e) {
            Some(stem)
        } else {
            None
        },
        None => None,
    }
}

/// The title under which `import` takes the file at `path`, if it takes it
/// as audio.  (A file with an extension always has a non-empty stem, so no
/// fallback title is needed.)
pub fn imported_title(path: &str) -> (r: Option<String>)
    ensures
        opt_text(r) == import_title(path@),
{
    let v = chars_of(path);
    proof {
        lemma_last_index_of(v@, '/');
    }
    let start: usize = match last_index(&v, '/') {
        Some(i) => i + 1,
        None => 0,
    };
    let name = text_of_range(&v, start, v.len());
    let nv = chars_of(name.as_str());
    proof {
        lemma_last_index_of(nv@, '.');
    }
    if text_eq(name.as_str(), "..") {
        return None;
    }
    match last_index(&nv, '.') {
        Some(d) => {
            if d == 0 {
                return None;
            }
            let ext = text_of_range(&nv, d + 1, nv.len());
            if audio_extension(ext.as_str()) {
                Some(text_of_range(&nv, 0, d))
            } else {
                None
            }
        },
        None => None,
    }
}

/// The song that `import` makes of an audio file: titled by the file's
/// stem, with the probed duration (if any) and the file as source.
pub fn imported_song(title: &str, duration: Option<u32>, source: &str) -> (r: Song)
    ensures
        r@ == (SongView {
            title: Some(title@),
            duration,
            source: Some(source@),
            ..crate::library::empty_song()
        }),
{
    let mut song = Song::new();
    song.title = Some(owned(title));
    song.duration = duration;
    song.source = Some(owned(source));
    song
}


// ---------------------------------------------------------------------------
// Laws
// ---------------------------------------------------------------------------

/// Playing every song on a stopped player starts the first of them: it
/// becomes current and the player plays; later songs only join the queue.
pub proof fn law_play_all_starts_first(m: PlayerModel, songs: Seq<Song>, n: nat)
    requires
        m.state == crate::player::PlayerState::Stopped,
        m.queue.len() < usize::MAX,
        1 <= n <= songs.len(),
    ensures
        play_each(m, songs, n).0.current_index == Some(m.queue.len() as usize),
        play_each(m, songs, n).0.state == crate::player::PlayerState::Playing,
        play_each(m, songs, n).0.queue.len() == m.queue.len() + n,
    decreases n,
{
    let prev = play_each(m, songs, (n - 1) as nat);
    if n > 1 {
        law_play_all_starts_first(m, songs, (n - 1) as nat);
    } else {
        assert(prev == (m, Seq::<AudioActionView>::empty()));
    }
    let e = entry_for(songs, n - 1, (n - 1) as usize, "Untitled"@);
    assert(play_each(m, songs, n).0 == after_play(prev.0, e).0);
}

/// A song whose title contains `q`, added to a library where no title
/// contains `q`, is the first match, and removing it restores the library.
pub proof fn law_added_song_found_then_removed(songs: Seq<Song>, s: Song, q: Seq<char>)
    requires
        no_title_match(songs, q),
        title_contains(s@, q),
    ensures
        first_title_match(songs.push(s), q, songs.len() as int),
        songs.push(s).remove(songs.len() as int) == songs,
{
    assert(songs.push(s).remove(songs.len() as int) =~= songs);
    assert forall|j: int| 0 <= j < songs.len() implies !title_contains(
        #[trigger] songs.push(s)[j]@,
        q,
    ) by {
        assert(songs.push(s)[j] == songs[j]);
    }
}

/// Searching finds every song whose title, lower-cased, contains the
/// lower-cased query; the positions come in library order.
pub proof fn law_search_positions_ordered(songs: Seq<Song>, q: Seq<char>)
    requires
        songs.len() <= usize::MAX,
    ensures
        forall|a: int, b: int|
            0 <= a < b < positions_where(songs, found_by(q)).len() ==> (#[trigger] positions_where(
                songs,
                found_by(q),
            )[a]) < (#[trigger] positions_where(songs, found_by(q))[b]),
    decreases songs.len(),
{
    if songs.len() > 0 {
        let pre = songs.drop_last();
        law_search_positions_ordered(pre, q);
        lemma_positions_bounded(pre, found_by(q));
    }
}

proof fn lemma_positions_complete(songs: Seq<Song>, pred: spec_fn(SongView) -> bool, k: int)
    requires
        songs.len() <= usize::MAX,
        0 <= k < songs.len(),
        pred(songs[k]@),
    ensures
        positions_where(songs, pred).contains(k as usize),
    decreases songs.len(),
{
    let pre = songs.drop_last();
    let p = positions_where(pre, pred);
    if k < songs.len() - 1 {
        assert(pre[k] == songs[k]);
        lemma_positions_complete(pre, pred, k);
        let j = p.index_of(k as usize);
        if pred(songs.last()@) {
            assert(p.push((songs.len() - 1) as usize)[j] == k as usize);
        }
    } else {
        assert(songs.last() == songs[k]);
        assert(p.push((songs.len() - 1) as usize)[p.len() as int] == k as usize);
    }
}

/// A search for `q` finds song `k` exactly when its title, one of its
/// hashtags or the name of one of its creditors contains `q`, all folded to
/// lower case.
pub proof fn law_search_finds_title_tag_or_creditor(songs: Seq<Song>, q: Seq<char>, k: int)
    requires
        songs.len() <= usize::MAX,
        0 <= k < songs.len(),
    ensures
        positions_where(songs, found_by(q)).contains(k as usize) <==> ({
            let s = songs[k]@;
            let lq = lowercase(q);
            ||| (s.title is Some && contains_text(lowercase(s.title.unwrap()), lq))
            ||| (s.hashtags is Some && exists|i: int|
                0 <= i < s.hashtags.unwrap().len() && contains_text(
                    lowercase(#[trigger] s.hashtags.unwrap()[i]),
                    lq,
                ))
            ||| (s.credits is Some && exists|i: int|
                0 <= i < s.credits.unwrap().len() && contains_text(
                    lowercase(#[trigger] s.credits.unwrap()[i].1.name),
                    lq,
                ))
        }),
{
    let pred = found_by(q);
    let ps = positions_where(songs, pred);
    lemma_positions_bounded(songs, pred);
    if ps.contains(k as usize) {
        let j = ps.index_of(k as usize);
        assert(pred(songs[ps[j] as int]@));
    }
    if pred(songs[k]@) {
        lemma_positions_complete(songs, pred, k);
    }
}

/// `import` takes exactly the files whose extension, folded to lower case,
/// is `mp3`, `flac`, `wav`, `ogg`, `m4a` or `aac`: the file `stem.ext` in
/// any directory is imported under its stem if so, and skipped otherwise.
pub proof fn law_import_by_extension(dir: Seq<char>, stem: Seq<char>, ext: Seq<char>)
    requires
        stem.len() > 0,
        ext.len() > 0,
        !stem.contains('/'),
        !ext.contains('/'),
        !ext.contains('.'),
    ensures
        ({
            let l = lowercase(ext);
            import_title(dir + seq!['/'] + (stem + seq!['.'] + ext)) == if l == "mp3"@ || l
                == "flac"@ || l == "wav"@ || l == "ogg"@ || l == "m4a"@ || l == "aac"@ {
                Some(stem)
            } else {
                None
            }
        }),
{
    let name = stem + seq!['.'] + ext;
    assert(!name.contains('/')) by {
        if name.contains('/') {
            let i = name.index_of('/');
            if i < stem.len() {
                assert(stem[i] == '/');
            } else if i > stem.len() {
                assert(ext[i - stem.len() - 1] == '/');
            }
        }
    }
    lemma_last_index_after(dir, '/', name);
    let p = dir + seq!['/'] + name;
    assert(file_name_of(p) =~= name);
    lemma_last_index_after(stem, '.', ext);
    assert(name != ".."@) by {
        reveal_strlit("..");
        if name == ".."@ {
            assert(name.len() == 2);
            assert(name[1] == '.');
            assert(name[1] == ext[0]);
        }
    }
    assert(name.subrange(0, stem.len() as int) =~= stem);
    assert(name.subrange(stem.len() as int + 1, name.len() as int) =~= ext);
}

/// The characters of the field words.
proof fn lemma_field_words_text()
    ensures
        "title"@.len() == 5,
        "title"@[0] == 't',
        "title"@[1] == 'i',
        "title"@[2] == 't',
        "title"@[3] == 'l',
        "title"@[4] == 'e',
        "description"@.len() == 11,
        "description"@[0] == 'd',
        "description"@[1] == 'e',
        "description"@[2] == 's',
        "description"@[3] == 'c',
        "description"@[4] == 'r',
        "description"@[5] == 'i',
        "description"@[6] == 'p',
        "description"@[7] == 't',
        "description"@[8] == 'i',
        "description"@[9] == 'o',
        "description"@[10] == 'n',
        "desc"@.len() == 4,
        "desc"@[0] == 'd',
        "desc"@[1] == 'e',
        "desc"@[2] == 's',
        "desc"@[3] == 'c',
        "hashtags"@.len() == 8,
        "hashtags"@[0] == 'h',
        "hashtags"@[1] == 'a',
        "hashtags"@[2] == 's',
        "hashtags"@[3] == 'h',
        "hashtags"@[4] == 't',
        "hashtags"@[5] == 'a',
        "hashtags"@[6] == 'g',
        "hashtags"@[7] == 's',
        "tags"@.len() == 4,
        "tags"@[0] == 't',
        "tags"@[1] == 'a',
        "tags"@[2] == 'g',
        "tags"@[3] == 's',
        "credits"@.len() == 7,
        "credits"@[0] == 'c',
        "credits"@[1] == 'r',
        "credits"@[2] == 'e',
        "credits"@[3] == 'd',
        "credits"@[4] == 'i',
        "credits"@[5] == 't',
        "credits"@[6] == 's',
        "credit"@.len() == 6,
        "credit"@[0] == 'c',
        "credit"@[1] == 'r',
        "credit"@[2] == 'e',
        "credit"@[3] == 'd',
        "credit"@[4] == 'i',
        "credit"@[5] == 't',
        "album"@.len() == 5,
        "album"@[0] == 'a',
        "album"@[1] == 'l',
        "album"@[2] == 'b',
        "album"@[3] == 'u',
        "album"@[4] == 'm',
{
    reveal_strlit("title");
    assert("title"@ =~= seq!['t', 'i', 't', 'l', 'e']);
    reveal_strlit("description");
    assert("description"@ =~= seq!['d', 'e', 's', 'c', 'r', 'i', 'p', 't', 'i', 'o', 'n']);
    reveal_strlit("desc");
    assert("desc"@ =~= seq!['d', 'e', 's', 'c']);
    reveal_strlit("hashtags");
    assert("hashtags"@ =~= seq!['h', 'a', 's', 'h', 't', 'a', 'g', 's']);
    reveal_strlit("tags");
    assert("tags"@ =~= seq!['t', 'a', 'g', 's']);
    reveal_strlit("credits");
    assert("credits"@ =~= seq!['c', 'r', 'e', 'd', 'i', 't', 's']);
    reveal_strlit("credit");
    assert("credit"@ =~= seq!['c', 'r', 'e', 'd', 'i', 't']);
    reveal_strlit("album");
    assert("album"@ =~= seq!['a', 'l', 'b', 'u', 'm']);
}

/// Each field word of `edit` changes its own field of the song and nothing
/// else: `title` the title, `description`/`desc` the description,
/// `hashtags`/`tags` the hashtags (the comma-separated pieces, trimmed),
/// `credits`/`credit` the credits, `album` the album (titled by the value);
/// any other word names no field.
pub proof fn law_edit_field_words(
    f: Seq<char>,
    s: SongView,
    v: Seq<char>,
    cr: Option<Seq<(Seq<char>, crate::library::CreditorView)>>,
)
    ensures
        f == "title"@ ==> song_field_of(f) is Some && edited(s, song_field_of(f).unwrap(), v, cr)
            == (SongView { title: Some(v), ..s }),
        (f == "description"@ || f == "desc"@) ==> song_field_of(f) is Some && edited(
            s,
            song_field_of(f).unwrap(),
            v,
            cr,
        ) == (SongView { description: Some(v), ..s }),
        (f == "hashtags"@ || f == "tags"@) ==> song_field_of(f) is Some && edited(
            s,
            song_field_of(f).unwrap(),
            v,
            cr,
        ) == (SongView { hashtags: Some(crate::config::trimmed_pieces(v)), ..s }),
        (f == "credits"@ || f == "credit"@) ==> song_field_of(f) is Some && edited(
            s,
            song_field_of(f).unwrap(),
            v,
            cr,
        ) == (SongView { credits: cr, ..s }),
        f == "album"@ ==> song_field_of(f) is Some && edited(s, song_field_of(f).unwrap(), v, cr)
            == (SongView { album: Some(AlbumView { title: v, cover: None }), ..s }),
        !(f == "title"@ || f == "description"@ || f == "desc"@ || f == "hashtags"@ || f == "tags"@
            || f == "credits"@ || f == "credit"@ || f == "album"@) ==> song_field_of(f) is None,
{
    lemma_field_words_text();
}

/// The characters of the repeat words.
proof fn lemma_repeat_words_text()
    ensures
        "one"@.len() == 3,
        "one"@[0] == 'o',
        "one"@[1] == 'n',
        "one"@[2] == 'e',
        "1"@.len() == 1,
        "1"@[0] == '1',
        "single"@.len() == 6,
        "single"@[0] == 's',
        "single"@[1] == 'i',
        "single"@[2] == 'n',
        "single"@[3] == 'g',
        "single"@[4] == 'l',
        "single"@[5] == 'e',
        "all"@.len() == 3,
        "all"@[0] == 'a',
        "all"@[1] == 'l',
        "all"@[2] == 'l',
        "off"@.len() == 3,
        "off"@[0] == 'o',
        "off"@[1] == 'f',
        "off"@[2] == 'f',
        "0"@.len() == 1,
        "0"@[0] == '0',
        "none"@.len() == 4,
        "none"@[0] == 'n',
        "none"@[1] == 'o',
        "none"@[2] == 'n',
        "none"@[3] == 'e',
{
    reveal_strlit("one");
    assert("one"@ =~= seq!['o', 'n', 'e']);
    reveal_strlit("1");
    assert("1"@ =~= seq!['1']);
    reveal_strlit("single");
    assert("single"@ =~= seq!['s', 'i', 'n', 'g', 'l', 'e']);
    reveal_strlit("all");
    assert("all"@ =~= seq!['a', 'l', 'l']);
    reveal_strlit("off");
    assert("off"@ =~= seq!['o', 'f', 'f']);
    reveal_strlit("0");
    assert("0"@ =~= seq!['0']);
    reveal_strlit("none");
    assert("none"@ =~= seq!['n', 'o', 'n', 'e']);
}

/// The repeat words: `one`, `1` and `single` repeat the current song, `all`
/// the whole queue, and `off`, `0` and `none` turn repeating off; any other
/// word names no mode.
pub proof fn law_repeat_words(w: Seq<char>)
    ensures
        (w == "one"@ || w == "1"@ || w == "single"@) ==> repeat_mode_of(w) == Some(RepeatMode::One),
        w == "all"@ ==> repeat_mode_of(w) == Some(RepeatMode::All),
        (w == "off"@ || w == "0"@ || w == "none"@) ==> repeat_mode_of(w) == Some(RepeatMode::Off),
        !(w == "one"@ || w == "1"@ || w == "single"@ || w == "all"@ || w == "off"@ || w == "0"@ || w
            == "none"@) ==> repeat_mode_of(w) is None,
{
    lemma_repeat_words_text();
}

} // verus!
