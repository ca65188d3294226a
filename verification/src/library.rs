//! The music library: songs, albums, creditors and playlists, and the
//! operations that find, add, remove and edit them.
use vstd::prelude::*;
use crate::command::opt_text;
use crate::text::{contains_text, owned, text_contains, text_eq};

pub mod persistence;



verus! {

// ---------------------------------------------------------------------------
// Views
// ---------------------------------------------------------------------------

/// The bytes of an optional byte buffer.
pub open spec fn opt_bytes(o: Option<Vec<u8>>) -> Option<Seq<u8>> {
    match o {
        Some(b) => Some(b@),
        None => None,
    }
}

/// The characters of each string of an optional list.
pub open spec fn opt_texts(o: Option<Vec<String>>) -> Option<Seq<Seq<char>>> {
    match o {
        Some(v) => Some(crate::text::views(v@)),
        None => None,
    }
}

pub struct CreditorView {
    pub name: Seq<char>,
    pub icon: Option<Seq<u8>>,
    pub description: Option<Seq<char>>,
}

pub struct AlbumView {
    pub title: Seq<char>,
    pub cover: Option<Seq<u8>>,
}

pub struct SongView {
    pub title: Option<Seq<char>>,
    pub credits: Option<Seq<(Seq<char>, CreditorView)>>,
    pub duration: Option<u32>,
    pub source: Option<Seq<char>>,
    pub album: Option<AlbumView>,
    pub lyrics: Option<Seq<char>>,
    pub played_count: u32,
    pub last_played: Option<Seq<char>>,
    pub description: Option<Seq<char>>,
    pub hashtags: Option<Seq<Seq<char>>>,
}

// ---------------------------------------------------------------------------
// Creditor
// ---------------------------------------------------------------------------

/// Someone credited on a song.
#[derive(Debug)]
pub struct Creditor {
    pub name: String,
    pub icon: Option<Vec<u8>>,
    pub description: Option<String>,
}

impl View for Creditor {
    type V = CreditorView;

    open spec fn view(&self) -> CreditorView {
        CreditorView {
            name: self.name@,
            icon: opt_bytes(self.icon),
            description: opt_text(self.description),
        }
    }
}

/// A copy of a byte buffer.
fn copy_bytes(b: &Vec<u8>) -> (r: Vec<u8>)
    ensures
        r@ == b@,
{
    let mut r: Vec<u8> = Vec::new();
    let mut i: usize = 0;
    while i < b.len()
        invariant
            i <= b.len(),
            r@ == b@.subrange(0, i as int),
        decreases b.len() - i,
    {
        r.push(b[i]);
        i = i + 1;
        assert(r@ =~= b@.subrange(0, i as int));
    }
    assert(b@.subrange(0, b.len() as int) =~= b@);
    r
}

/// A copy of an optional byte buffer.
fn copy_opt_bytes(b: &Option<Vec<u8>>) -> (r: Option<Vec<u8>>)
    ensures
        opt_bytes(r) == opt_bytes(*b),
{
    match b {
        Some(v) => Some(copy_bytes(v)),
        None => None,
    }
}

/// A copy of an optional string.
fn copy_opt_text(s: &Option<String>) -> (r: Option<String>)
    ensures
        opt_text(r) == opt_text(*s),
{
    match s {
        Some(t) => Some(t.clone()),
        None => None,
    }
}

/// A copy of a list of strings.
fn copy_texts(v: &Vec<String>) -> (r: Vec<String>)
    ensures
        crate::text::views(r@) == crate::text::views(v@),
{
    let mut r: Vec<String> = Vec::new();
    let mut i: usize = 0;
    while i < v.len()
        invariant
            i <= v.len(),
            crate::text::views(r@) == crate::text::views(v@.subrange(0, i as int)),
        decreases v.len() - i,
    {
        let ghost before = crate::text::views(r@);
        let c = v[i].clone();
        assert(c@ == v@[i as int]@);
        r.push(c);
        assert(crate::text::views(r@) =~= before.push(v@[i as int]@));
        i = i + 1;
        assert(crate::text::views(v@.subrange(0, i as int)) =~= before.push(v@[i - 1]@));
    }
    assert(v@.subrange(0, v.len() as int) =~= v@);
    r
}

impl Creditor {
    /// A creditor with only a name.
    pub fn new(name: &str) -> (r: Creditor)
        ensures
            r@ == (CreditorView { name: name@, icon: None, description: None }),
    {
        Creditor { name: owned(name), icon: None, description: None }
    }

    /// Sets the icon bytes.
    pub fn set_icon(&mut self, data: Vec<u8>) -> (r: &mut Self)
        ensures
            r@ == (CreditorView { icon: Some(data@), ..old(self)@ }),
            *final(self) == *final(r),
    {
        self.icon = Some(data);
        self
    }

    /// Sets the description.
    pub fn description(&mut self, desc: &str) -> (r: &mut Self)
        ensures
            r@ == (CreditorView { description: Some(desc@), ..old(self)@ }),
            *final(self) == *final(r),
    {
        self.description = Some(owned(desc));
        self
    }

    /// A copy of this creditor.
    pub fn duplicate(&self) -> (r: Creditor)
        ensures
            r@ == self@,
    {
        Creditor {
            name: self.name.clone(),
            icon: copy_opt_bytes(&self.icon),
            description: copy_opt_text(&self.description),
        }
    }
}

// ---------------------------------------------------------------------------
// Credits
// ---------------------------------------------------------------------------

/// The creditors of a song, each under a role name; a role occurs at most
/// once.
#[derive(Debug)]
pub struct Credits {
    entries: Vec<(String, Creditor)>,
}

/// The roles of a list of entries.
pub open spec fn roles_of(e: Seq<(Seq<char>, CreditorView)>) -> Seq<Seq<char>> {
    e.map_values(|p: (Seq<char>, CreditorView)| p.0)
}

impl View for Credits {
    type V = Seq<(Seq<char>, CreditorView)>;

    closed spec fn view(&self) -> Seq<(Seq<char>, CreditorView)> {
        self.entries@.map_values(|p: (String, Creditor)| (p.0@, p.1@))
    }
}

impl Credits {
    #[verifier::type_invariant]
    closed spec fn roles_distinct(&self) -> bool {
        roles_of(self@).no_duplicates()
    }

    /// No credits.
    pub fn new() -> (r: Credits)
        ensures
            r@ == Seq::<(Seq<char>, CreditorView)>::empty(),
    {
        let r = Credits { entries: Vec::new() };
        assert(r@ =~= Seq::<(Seq<char>, CreditorView)>::empty());
        assert(roles_of(r@) =~= Seq::<Seq<char>>::empty());
        r
    }

    /// The number of roles.
    pub fn len(&self) -> (r: usize)
        ensures
            r == self@.len(),
    {
        self.entries.len()
    }

    /// The role and creditor at position `i`.
    pub fn entry(&self, i: usize) -> (r: (&String, &Creditor))
        requires
            i < self@.len(),
        ensures
            (r.0@, r.1@) == self@[i as int],
    {
        let e = &self.entries[i];
        (&e.0, &e.1)
    }

    /// Puts `creditor` under `role`, replacing the creditor that the role had
    /// (in its place), or adding the role at the end.
    pub fn insert(&mut self, role: String, creditor: Creditor)
        ensures
            ({
                let old_roles = roles_of(old(self)@);
                if old_roles.contains(role@) {
                    final(self)@ == old(self)@.update(old_roles.index_of(role@), (role@, creditor@))
                } else {
                    final(self)@ == old(self)@.push((role@, creditor@))
                }
            }),
    {
        proof {
            use_type_invariant(&*self);
        }
        let ghost old_view = self@;
        let ghost rv = role@;
        let ghost cv = creditor@;
        let mut i: usize = 0;
        while i < self.entries.len()
            invariant
                old_view == self@,
                old_view == old(self)@,
                rv == role@,
                cv == creditor@,
                roles_of(old_view).no_duplicates(),
                i <= self.entries.len(),
                forall|j: int| 0 <= j < i ==> self@[j].0 != role@,
            decreases self.entries.len() - i,
        {
            if text_eq(self.entries[i].0.as_str(), role.as_str()) {
                assert(roles_of(old_view)[i as int] == rv);
                assert(roles_of(old_view).contains(rv));
                assert(roles_of(old_view).index_of(rv) == i as int);
                let mut entries = Vec::new();
                std::mem::swap(&mut entries, &mut self.entries);
                entries.set(i, (role, creditor));
                let ghost new_view = entries@.map_values(|p: (String, Creditor)| (p.0@, p.1@));
                assert(new_view =~= old_view.update(i as int, (rv, cv)));
                assert(roles_of(new_view) =~= roles_of(old_view));
                self.entries = entries;
                return ;
            }
            i = i + 1;
        }
        assert(!roles_of(old_view).contains(rv)) by {
            if roles_of(old_view).contains(rv) {
                let k = roles_of(old_view).index_of(rv);
                assert(self@[k].0 == rv);
            }
        }
        let mut entries = Vec::new();
        std::mem::swap(&mut entries, &mut self.entries);
        entries.push((role, creditor));
        let ghost new_view = entries@.map_values(|p: (String, Creditor)| (p.0@, p.1@));
        assert(new_view =~= old_view.push((rv, cv)));
        assert(roles_of(new_view) =~= roles_of(old_view).push(rv));
        self.entries = entries;
    }

    /// Whether some creditor's name contains `name`.
    pub fn any_name_contains(&self, name: &str) -> (r: bool)
        ensures
            r == exists|i: int| 0 <= i < self@.len() && contains_text(#[trigger] self@[i].1.name, name@),
    {
        let mut i: usize = 0;
        while i < self.entries.len()
            invariant
                i <= self.entries.len(),
                forall|j: int| 0 <= j < i ==> !contains_text(#[trigger] self@[j].1.name, name@),
            decreases self.entries.len() - i,
        {
            if text_contains(self.entries[i].1.name.as_str(), name) {
                assert(contains_text(self@[i as int].1.name, name@));
                return true;
            }
            i = i + 1;
        }
        false
    }

    /// A copy of these credits.
    pub fn duplicate(&self) -> (r: Credits)
        ensures
            r@ == self@,
    {
        proof {
            use_type_invariant(self);
        }
        let mut entries: Vec<(String, Creditor)> = Vec::new();
        let mut i: usize = 0;
        while i < self.entries.len()
            invariant
                i <= self.entries.len(),
                entries@.map_values(|p: (String, Creditor)| (p.0@, p.1@)) == self@.subrange(0, i as int),
            decreases self.entries.len() - i,
        {
            let ghost before = entries@.map_values(|p: (String, Creditor)| (p.0@, p.1@));
            let role = self.entries[i].0.clone();
            assert(role@ == self.entries@[i as int].0@);
            let e = (role, self.entries[i].1.duplicate());
            entries.push(e);
            assert(entries@.map_values(|p: (String, Creditor)| (p.0@, p.1@)) =~= before.push(self@[i as int]));
            i = i + 1;
            assert(entries@.map_values(|p: (String, Creditor)| (p.0@, p.1@)) =~= self@.subrange(0, i as int));
        }
        assert(self@.subrange(0, self@.len() as int) =~= self@);
        Credits { entries }
    }
}

// ---------------------------------------------------------------------------
// Album
// ---------------------------------------------------------------------------

/// The album a song belongs to.
#[derive(Debug)]
pub struct Album {
    pub title: String,
    pub cover: Option<Vec<u8>>,
}

impl View for Album {
    type V = AlbumView;

    open spec fn view(&self) -> AlbumView {
        AlbumView { title: self.title@, cover: opt_bytes(self.cover) }
    }
}

impl Album {
    /// An album with only a title.
    pub fn new(title: &str) -> (r: Album)
        ensures
            r@ == (AlbumView { title: title@, cover: None }),
    {
        Album { title: owned(title), cover: None }
    }

    /// Sets the cover bytes.
    pub fn set_cover(&mut self, data: Vec<u8>) -> (r: &mut Self)
        ensures
            r@ == (AlbumView { cover: Some(data@), ..old(self)@ }),
            *final(self) == *final(r),
    {
        self.cover = Some(data);
        self
    }

    /// A copy of this album.
    pub fn duplicate(&self) -> (r: Album)
        ensures
            r@ == self@,
    {
        Album { title: self.title.clone(), cover: copy_opt_bytes(&self.cover) }
    }
}


// ---------------------------------------------------------------------------
// Song
// ---------------------------------------------------------------------------

/// The view of optional credits.
pub open spec fn opt_credits(o: Option<Credits>) -> Option<Seq<(Seq<char>, CreditorView)>> {
    match o {
        Some(c) => Some(c@),
        None => None,
    }
}

/// The view of an optional album.
pub open spec fn opt_album(o: Option<Album>) -> Option<AlbumView> {
    match o {
        Some(a) => Some(a@),
        None => None,
    }
}

/// A song of the library.
#[derive(Debug)]
pub struct Song {
    pub title: Option<String>,
    pub credits: Option<Credits>,
    pub duration: Option<u32>,
    pub source: Option<String>,
    pub album: Option<Album>,
    pub lyrics: Option<String>,
    pub played_count: u32,
    pub last_played: Option<String>,
    pub description: Option<String>,
    pub hashtags: Option<Vec<String>>,
}

impl View for Song {
    type V = SongView;

    open spec fn view(&self) -> SongView {
        SongView {
            title: opt_text(self.title),
            credits: opt_credits(self.credits),
            duration: self.duration,
            source: opt_text(self.source),
            album: opt_album(self.album),
            lyrics: opt_text(self.lyrics),
            played_count: self.played_count,
            last_played: opt_text(self.last_played),
            description: opt_text(self.description),
            hashtags: opt_texts(self.hashtags),
        }
    }
}

/// A song with nothing set and no plays.
pub open spec fn empty_song() -> SongView {
    SongView {
        title: None,
        credits: None,
        duration: None,
        source: None,
        album: None,
        lyrics: None,
        played_count: 0,
        last_played: None,
        description: None,
        hashtags: None,
    }
}

impl Song {
    /// A song with nothing set and no plays.
    pub fn new() -> (r: Song)
        ensures
            r@ == empty_song(),
    {
        Song {
            title: None,
            credits: None,
            duration: None,
            source: None,
            album: None,
            lyrics: None,
            played_count: 0,
            last_played: None,
            description: None,
            hashtags: None,
        }
    }

    /// Sets the title.
    pub fn title(&mut self, title: &str) -> (r: &mut Self)
        ensures
            r@ == (SongView { title: Some(title@), ..old(self)@ }),
            *final(self) == *final(r),
    {
        self.title = Some(owned(title));
        self
    }

    /// Sets the credits (as read from their JSON text: `None` where that text
    /// was not a valid credits table).
    pub fn credits(&mut self, credits: Option<Credits>) -> (r: &mut Self)
        ensures
            r@ == (SongView { credits: opt_credits(credits), ..old(self)@ }),
            *final(self) == *final(r),
    {
        self.credits = credits;
        self
    }

    /// Records the audio file at `path` as the song's source, where the file
    /// `exists`; `probed` is what probing the file gave (`None` where it
    /// could not be probed, which leaves the duration as it was).  A path
    /// that does not exist leaves the song unchanged.
    pub fn source(&mut self, path: &str, exists: bool, probed: Option<Option<u32>>) -> (r: &mut Self)
        ensures
            exists ==> r@ == (SongView {
                source: Some(path@),
                duration: match probed {
                    Some(d) => d,
                    None => old(self)@.duration,
                },
                ..old(self)@
            }),
            !exists ==> r@ == old(self)@,
            *final(self) == *final(r),
    {
        if exists {
            if let Some(d) = probed {
                self.duration = d;
            }
            self.source = Some(owned(path));
        }
        self
    }

    /// Sets the lyrics.
    pub fn lyrics(&mut self, lyrics: &str) -> (r: &mut Self)
        ensures
            r@ == (SongView { lyrics: Some(lyrics@), ..old(self)@ }),
            *final(self) == *final(r),
    {
        self.lyrics = Some(owned(lyrics));
        self
    }

    /// A copy of this song.
    pub fn duplicate(&self) -> (r: Song)
        ensures
            r@ == self@,
    {
        Song {
            title: copy_opt_text(&self.title),
            credits: match &self.credits {
                Some(c) => Some(c.duplicate()),
                None => None,
            },
            duration: self.duration,
            source: copy_opt_text(&self.source),
            album: match &self.album {
                Some(a) => Some(a.duplicate()),
                None => None,
            },
            lyrics: copy_opt_text(&self.lyrics),
            played_count: self.played_count,
            last_played: copy_opt_text(&self.last_played),
            description: copy_opt_text(&self.description),
            hashtags: match &self.hashtags {
                Some(h) => Some(copy_texts(h)),
                None => None,
            },
        }
    }
}

// ---------------------------------------------------------------------------
// Playlist
// ---------------------------------------------------------------------------

/// The views of a list of songs.
pub open spec fn song_views(v: Seq<Song>) -> Seq<SongView> {
    v.map_values(|s: Song| s@)
}

pub struct PlaylistView {
    pub name: Option<Seq<char>>,
    pub cover: Option<Seq<u8>>,
    pub playlist: Option<Seq<SongView>>,
    pub description: Option<Seq<char>>,
}

/// A named list of songs.
#[derive(Debug)]
pub struct Playlist {
    pub name: Option<String>,
    pub cover: Option<Vec<u8>>,
    pub playlist: Option<Vec<Song>>,
    pub description: Option<String>,
}

impl View for Playlist {
    type V = PlaylistView;

    open spec fn view(&self) -> PlaylistView {
        PlaylistView {
            name: opt_text(self.name),
            cover: opt_bytes(self.cover),
            playlist: match self.playlist {
                Some(v) => Some(song_views(v@)),
                None => None,
            },
            description: opt_text(self.description),
        }
    }
}

impl Playlist {
    /// A playlist with nothing set.
    pub fn new() -> (r: Playlist)
        ensures
            r@ == (PlaylistView { name: None, cover: None, playlist: None, description: None }),
    {
        Playlist { name: None, cover: None, playlist: None, description: None }
    }

    /// Sets the name.
    pub fn name(&mut self, name: &str) -> (r: &mut Self)
        ensures
            r@ == (PlaylistView { name: Some(name@), ..old(self)@ }),
            *final(self) == *final(r),
    {
        self.name = Some(owned(name));
        self
    }

    /// Sets the description.
    pub fn description(&mut self, description: &str) -> (r: &mut Self)
        ensures
            r@ == (PlaylistView { description: Some(description@), ..old(self)@ }),
            *final(self) == *final(r),
    {
        self.description = Some(owned(description));
        self
    }

    /// Sets the cover bytes.
    pub fn set_cover(&mut self, data: Vec<u8>) -> (r: &mut Self)
        ensures
            r@ == (PlaylistView { cover: Some(data@), ..old(self)@ }),
            *final(self) == *final(r),
    {
        self.cover = Some(data);
        self
    }

    /// Appends a song, starting the list if there was none.
    pub fn add_song(&mut self, song: Song) -> (r: &mut Self)
        ensures
            r.name == old(self).name,
            r.cover == old(self).cover,
            r.description == old(self).description,
            r.playlist is Some,
            r.playlist.unwrap()@ == (match old(self).playlist {
                Some(v) => v@,
                None => Seq::<Song>::empty(),
            }).push(song),
            *final(self) == *final(r),
    {
        let mut list = match self.playlist.take() {
            Some(v) => v,
            None => Vec::new(),
        };
        list.push(song);
        self.playlist = Some(list);
        self
    }
}

// ---------------------------------------------------------------------------
// Library
// ---------------------------------------------------------------------------

/// The song's title contains `q`.
pub open spec fn title_contains(s: SongView, q: Seq<char>) -> bool {
    match s.title {
        Some(t) => contains_text(t, q),
        None => false,
    }
}

/// The song carries the hashtag `tag` exactly.
pub open spec fn has_hashtag(s: SongView, tag: Seq<char>) -> bool {
    match s.hashtags {
        Some(tags) => tags.contains(tag),
        None => false,
    }
}

/// Some creditor of the song has a name that contains `name`.
pub open spec fn credited_to(s: SongView, name: Seq<char>) -> bool {
    match s.credits {
        Some(c) => exists|i: int| 0 <= i < c.len() && contains_text(#[trigger] c[i].1.name, name),
        None => false,
    }
}

/// The playlist's name contains `q`.
pub open spec fn name_contains(p: PlaylistView, q: Seq<char>) -> bool {
    match p.name {
        Some(n) => contains_text(n, q),
        None => false,
    }
}

/// `i` is the first position of a song whose title contains `q`.
pub open spec fn first_title_match(songs: Seq<Song>, q: Seq<char>, i: int) -> bool {
    &&& 0 <= i < songs.len()
    &&& title_contains(songs[i]@, q)
    &&& forall|j: int| 0 <= j < i ==> !title_contains(#[trigger] songs[j]@, q)
}

/// No song's title contains `q`.
pub open spec fn no_title_match(songs: Seq<Song>, q: Seq<char>) -> bool {
    forall|j: int| 0 <= j < songs.len() ==> !title_contains(#[trigger] songs[j]@, q)
}

/// `i` is the first position of a playlist whose name contains `q`.
pub open spec fn first_name_match(lists: Seq<Playlist>, q: Seq<char>, i: int) -> bool {
    &&& 0 <= i < lists.len()
    &&& name_contains(lists[i]@, q)
    &&& forall|j: int| 0 <= j < i ==> !name_contains(#[trigger] lists[j]@, q)
}

/// No playlist's name contains `q`.
pub open spec fn no_name_match(lists: Seq<Playlist>, q: Seq<char>) -> bool {
    forall|j: int| 0 <= j < lists.len() ==> !name_contains(#[trigger] lists[j]@, q)
}

/// The songs themselves, from a list of references to them.
pub open spec fn derefs(v: Seq<&Song>) -> Seq<Song> {
    v.map_values(|s: &Song| *s)
}

/// Whether the song's title contains `q`.
fn song_title_contains(s: &Song, q: &str) -> (r: bool)
    ensures
        r == title_contains(s@, q@),
{
    match &s.title {
        Some(t) => text_contains(t.as_str(), q),
        None => false,
    }
}

/// Whether the playlist's name contains `q`.
fn playlist_name_contains(p: &Playlist, q: &str) -> (r: bool)
    ensures
        r == name_contains(p@, q@),
{
    match &p.name {
        Some(n) => text_contains(n.as_str(), q),
        None => false,
    }
}

/// Whether the song carries the hashtag `tag`.
fn song_has_hashtag(s: &Song, tag: &str) -> (r: bool)
    ensures
        r == has_hashtag(s@, tag@),
{
    match &s.hashtags {
        Some(tags) => {
            let mut i: usize = 0;
            while i < tags.len()
                invariant
                    i <= tags.len(),
                    s@.hashtags == Some(crate::text::views(tags@)),
                    forall|j: int| 0 <= j < i ==> tags@[j]@ != tag@,
                decreases tags.len() - i,
            {
                if text_eq(tags[i].as_str(), tag) {
                    assert(crate::text::views(tags@)[i as int] == tag@);
                    assert(crate::text::views(tags@).contains(tag@));
                    return true;
                }
                i = i + 1;
            }
            assert(!crate::text::views(tags@).contains(tag@)) by {
                if crate::text::views(tags@).contains(tag@) {
                    let k = choose|k: int|
                        0 <= k < tags@.len() && crate::text::views(tags@)[k] == tag@;
                    assert(tags@[k]@ == tag@);
                }
            }
            false
        },
        None => false,
    }
}

/// Whether a creditor of the song has a name containing `name`.
fn song_credited_to(s: &Song, name: &str) -> (r: bool)
    ensures
        r == credited_to(s@, name@),
{
    match &s.credits {
        Some(c) => c.any_name_contains(name),
        None => false,
    }
}

/// The whole library: its songs and its playlists.
#[derive(Debug)]
pub struct Library {
    pub songs: Vec<Song>,
    pub playlists: Vec<Playlist>,
}

impl Library {
    /// An empty library.
    pub fn new() -> (r: Library)
        ensures
            r.songs@ == Seq::<Song>::empty(),
            r.playlists@ == Seq::<Playlist>::empty(),
    {
        Library { songs: Vec::new(), playlists: Vec::new() }
    }

    /// Adds a song at the end.
    pub fn add_song(&mut self, song: Song)
        ensures
            final(self).songs@ == old(self).songs@.push(song),
            final(self).playlists == old(self).playlists,
    {
        self.songs.push(song);
    }

    /// The position of the first song whose title contains `query`.
    pub fn find_song_index(&self, query: &str) -> (r: Option<usize>)
        ensures
            match r {
                Some(i) => first_title_match(self.songs@, query@, i as int),
                None => no_title_match(self.songs@, query@),
            },
    {
        let mut i: usize = 0;
        while i < self.songs.len()
            invariant
                i <= self.songs.len(),
                forall|j: int| 0 <= j < i ==> !title_contains(#[trigger] self.songs@[j]@, query@),
            decreases self.songs.len() - i,
        {
            if song_title_contains(&self.songs[i], query) {
                return Some(i);
            }
            i = i + 1;
        }
        None
    }

    /// The position of the first playlist whose name contains `query`.
    pub fn find_playlist_index(&self, query: &str) -> (r: Option<usize>)
        ensures
            match r {
                Some(i) => first_name_match(self.playlists@, query@, i as int),
                None => no_name_match(self.playlists@, query@),
            },
    {
        let mut i: usize = 0;
        while i < self.playlists.len()
            invariant
                i <= self.playlists.len(),
                forall|j: int|
                    0 <= j < i ==> !name_contains(#[trigger] self.playlists@[j]@, query@),
            decreases self.playlists.len() - i,
        {
            if playlist_name_contains(&self.playlists[i], query) {
                return Some(i);
            }
            i = i + 1;
        }
        None
    }

    /// Removes and returns the first song whose title contains `title`.
    pub fn remove_song(&mut self, title: &str) -> (r: Option<Song>)
        ensures
            match r {
                Some(s) => exists|i: int|
                    first_title_match(old(self).songs@, title@, i) && s == old(self).songs@[i]
                        && final(self).songs@ == old(self).songs@.remove(i),
                None => no_title_match(old(self).songs@, title@) && final(self).songs
                    == old(self).songs,
            },
            final(self).playlists == old(self).playlists,
    {
        match self.find_song_index(title) {
            Some(i) => Some(self.songs.remove(i)),
            None => None,
        }
    }

    /// Adds a playlist at the end.
    pub fn add_playlist(&mut self, playlist: Playlist)
        ensures
            final(self).playlists@ == old(self).playlists@.push(playlist),
            final(self).songs == old(self).songs,
    {
        self.playlists.push(playlist);
    }

    /// Removes and returns the first playlist whose name contains `name`.
    pub fn remove_playlist(&mut self, name: &str) -> (r: Option<Playlist>)
        ensures
            match r {
                Some(p) => exists|i: int|
                    first_name_match(old(self).playlists@, name@, i) && p
                        == old(self).playlists@[i] && final(self).playlists@ == old(
                        self,
                    ).playlists@.remove(i),
                None => no_name_match(old(self).playlists@, name@) && final(self).playlists
                    == old(self).playlists,
            },
            final(self).songs == old(self).songs,
    {
        match self.find_playlist_index(name) {
            Some(i) => Some(self.playlists.remove(i)),
            None => None,
        }
    }

    /// The songs whose title contains `query`, in library order.
    pub fn find_song(&self, query: &str) -> (r: Vec<&Song>)
        ensures
            derefs(r@) == self.songs@.filter(|s: Song| title_contains(s@, query@)),
    {
        let ghost pred = |s: Song| title_contains(s@, query@);
        let mut r: Vec<&Song> = Vec::new();
        let mut i: usize = 0;
        while i < self.songs.len()
            invariant
                i <= self.songs.len(),
                pred == (|s: Song| title_contains(s@, query@)),
                derefs(r@) == self.songs@.subrange(0, i as int).filter(pred),
            decreases self.songs.len() - i,
        {
            proof {
                reveal_with_fuel(Seq::<Song>::filter, 1);
                assert(self.songs@.subrange(0, i + 1).drop_last() =~= self.songs@.subrange(
                    0,
                    i as int,
                ));
            }
            let ghost before = derefs(r@);
            if song_title_contains(&self.songs[i], query) {
                r.push(&self.songs[i]);
                assert(derefs(r@) =~= before.push(self.songs@[i as int]));
            } else {
                assert(derefs(r@) =~= before);
            }
            i = i + 1;
        }
        assert(self.songs@.subrange(0, self.songs.len() as int) =~= self.songs@);
        r
    }

    /// The songs that carry the hashtag `tag`, in library order.
    pub fn find_songs_by_hashtag(&self, tag: &str) -> (r: Vec<&Song>)
        ensures
            derefs(r@) == self.songs@.filter(|s: Song| has_hashtag(s@, tag@)),
    {
        let ghost pred = |s: Song| has_hashtag(s@, tag@);
        let mut r: Vec<&Song> = Vec::new();
        let mut i: usize = 0;
        while i < self.songs.len()
            invariant
                i <= self.songs.len(),
                pred == (|s: Song| has_hashtag(s@, tag@)),
                derefs(r@) == self.songs@.subrange(0, i as int).filter(pred),
            decreases self.songs.len() - i,
        {
            proof {
                reveal_with_fuel(Seq::<Song>::filter, 1);
                assert(self.songs@.subrange(0, i + 1).drop_last() =~= self.songs@.subrange(
                    0,
                    i as int,
                ));
            }
            let ghost before = derefs(r@);
            if song_has_hashtag(&self.songs[i], tag) {
                r.push(&self.songs[i]);
                assert(derefs(r@) =~= before.push(self.songs@[i as int]));
            } else {
                assert(derefs(r@) =~= before);
            }
            i = i + 1;
        }
        assert(self.songs@.subrange(0, self.songs.len() as int) =~= self.songs@);
        r
    }

    /// The songs with a creditor whose name contains `name`, in library order.
    pub fn find_songs_by_creditor(&self, name: &str) -> (r: Vec<&Song>)
        ensures
            derefs(r@) == self.songs@.filter(|s: Song| credited_to(s@, name@)),
    {
        let ghost pred = |s: Song| credited_to(s@, name@);
        let mut r: Vec<&Song> = Vec::new();
        let mut i: usize = 0;
        while i < self.songs.len()
            invariant
                i <= self.songs.len(),
                pred == (|s: Song| credited_to(s@, name@)),
                derefs(r@) == self.songs@.subrange(0, i as int).filter(pred),
            decreases self.songs.len() - i,
        {
            proof {
                reveal_with_fuel(Seq::<Song>::filter, 1);
                assert(self.songs@.subrange(0, i + 1).drop_last() =~= self.songs@.subrange(
                    0,
                    i as int,
                ));
            }
            let ghost before = derefs(r@);
            if song_credited_to(&self.songs[i], name) {
                r.push(&self.songs[i]);
                assert(derefs(r@) =~= before.push(self.songs@[i as int]));
            } else {
                assert(derefs(r@) =~= before);
            }
            i = i + 1;
        }
        assert(self.songs@.subrange(0, self.songs.len() as int) =~= self.songs@);
        r
    }

    /// All songs, in library order.
    pub fn get_all_songs(&self) -> (r: &[Song])
        ensures
            r@ == self.songs@,
    {
        self.songs.as_slice()
    }

    /// All playlists, in library order.
    pub fn get_all_playlists(&self) -> (r: &[Playlist])
        ensures
            r@ == self.playlists@,
    {
        self.playlists.as_slice()
    }
}

impl Default for Library {
    fn default() -> (r: Library)
        ensures
            r.songs@ == Seq::<Song>::empty(),
            r.playlists@ == Seq::<Playlist>::empty(),
    {
        Library::new()
    }
}

} // verus!
