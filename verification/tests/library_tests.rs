use open_music::library::persistence::LibraryStore;
use open_music::library::{Album, Creditor, Credits, Library, Playlist, Song};

fn song(title: &str) -> Song {
    let mut s = Song::new();
    s.title(title);
    s
}

fn titles(v: &[&Song]) -> Vec<String> {
    v.iter().map(|s| s.title.clone().unwrap_or_default()).collect()
}

#[test]
fn new_song_is_empty() {
    let s = Song::new();
    assert!(s.title.is_none() && s.credits.is_none() && s.duration.is_none());
    assert!(s.source.is_none() && s.album.is_none() && s.lyrics.is_none());
    assert_eq!(s.played_count, 0);
    assert!(s.hashtags.is_none() && s.description.is_none() && s.last_played.is_none());
}

#[test]
fn builders_chain() {
    let mut s = Song::new();
    s.title("A").lyrics("la").source("/m/a.mp3", true, Some(Some(61)));
    assert_eq!(s.title.as_deref(), Some("A"));
    assert_eq!(s.lyrics.as_deref(), Some("la"));
    assert_eq!(s.source.as_deref(), Some("/m/a.mp3"));
    assert_eq!(s.duration, Some(61));
    s.source("/m/b.mp3", true, None);
    assert_eq!(s.duration, Some(61));
    s.source("/m/c.mp3", true, Some(None));
    assert_eq!(s.duration, None);
    s.source("/missing.mp3", false, Some(Some(5)));
    assert_eq!(s.source.as_deref(), Some("/m/c.mp3"));
    assert_eq!(s.duration, None);

    let mut p = Playlist::new();
    p.name("Mix").description("d").set_cover(vec![1, 2]);
    assert_eq!(p.name.as_deref(), Some("Mix"));
    assert_eq!(p.description.as_deref(), Some("d"));
    assert_eq!(p.cover, Some(vec![1, 2]));
    assert!(p.playlist.is_none());
    p.add_song(song("x")).add_song(song("y"));
    assert_eq!(p.playlist.as_ref().map(|v| v.len()), Some(2));

    let mut c = Creditor::new("Ann");
    c.description("singer").set_icon(vec![9]);
    assert_eq!(c.name, "Ann");
    assert_eq!(c.description.as_deref(), Some("singer"));
    assert_eq!(c.icon, Some(vec![9]));

    let mut a = Album::new("Blue");
    a.set_cover(vec![3]);
    assert_eq!(a.title, "Blue");
    assert_eq!(a.cover, Some(vec![3]));
}

#[test]
fn credits_replace_in_place() {
    let mut c = Credits::new();
    c.insert("vocals".to_string(), Creditor::new("Ann"));
    c.insert("bass".to_string(), Creditor::new("Bob"));
    c.insert("vocals".to_string(), Creditor::new("Cid"));
    assert_eq!(c.len(), 2);
    let (role, who) = c.entry(0);
    assert_eq!(role, "vocals");
    assert_eq!(who.name, "Cid");
    assert!(c.any_name_contains("Bo"));
    assert!(!c.any_name_contains("Ann"));
}

#[test]
fn finding_songs() {
    let mut lib = Library::new();
    let mut a = song("Blue Moon");
    a.hashtags = Some(vec!["jazz".to_string(), "night".to_string()]);
    let mut credits = Credits::new();
    credits.insert("vocals".to_string(), Creditor::new("Ella Fitzgerald"));
    a.credits(Some(credits));
    lib.add_song(a);
    lib.add_song(song("Moonlight"));
    lib.add_song(Song::new());
    assert_eq!(titles(&lib.find_song("Moon")), vec!["Blue Moon", "Moonlight"]);
    assert!(lib.find_song("moon").is_empty());
    assert_eq!(titles(&lib.find_song("light")), vec!["Moonlight"]);
    assert_eq!(lib.find_song("").len(), 2);
    assert_eq!(titles(&lib.find_songs_by_hashtag("jazz")), vec!["Blue Moon"]);
    assert!(lib.find_songs_by_hashtag("jaz").is_empty());
    assert_eq!(titles(&lib.find_songs_by_creditor("Ella")), vec!["Blue Moon"]);
    assert_eq!(lib.find_song_index("light"), Some(1));
    assert_eq!(lib.find_song_index("nothing"), None);
    assert_eq!(lib.get_all_songs().len(), 3);
}

#[test]
fn removing_takes_the_first_match() {
    let mut lib = Library::default();
    lib.add_song(song("One"));
    lib.add_song(song("Two"));
    lib.add_song(song("Two Too"));
    let removed = lib.remove_song("Two").expect("a match");
    assert_eq!(removed.title.as_deref(), Some("Two"));
    assert_eq!(lib.songs.len(), 2);
    assert_eq!(lib.songs[1].title.as_deref(), Some("Two Too"));
    assert!(lib.remove_song("zzz").is_none());
    assert_eq!(lib.songs.len(), 2);
}

#[test]
fn playlists_add_and_remove() {
    let mut lib = Library::new();
    let mut p = Playlist::new();
    p.name("Road Trip");
    lib.add_playlist(p);
    lib.add_playlist(Playlist::new());
    assert_eq!(lib.get_all_playlists().len(), 2);
    assert_eq!(lib.find_playlist_index("Trip"), Some(0));
    let r = lib.remove_playlist("Road").expect("a match");
    assert_eq!(r.name.as_deref(), Some("Road Trip"));
    assert!(lib.remove_playlist("Road").is_none());
    assert_eq!(lib.playlists.len(), 1);
}

#[test]
fn duplicate_copies_everything() {
    let mut s = song("T");
    s.hashtags = Some(vec!["h".to_string()]);
    s.album = Some(Album::new("Al"));
    s.played_count = 7;
    let d = s.duplicate();
    assert_eq!(d.title.as_deref(), Some("T"));
    assert_eq!(d.hashtags, Some(vec!["h".to_string()]));
    assert_eq!(d.album.as_ref().map(|a| a.title.clone()), Some("Al".to_string()));
    assert_eq!(d.played_count, 7);
}

#[test]
fn store_paths() {
    let mut store = LibraryStore::new("/tmp/lib".to_string());
    assert_eq!(store.data_dir_path(), "/tmp/lib");
    assert_eq!(store.library_path(), "/tmp/lib/library.json");
    assert_eq!(store.save_if_needed(), Some("/tmp/lib/library.json".to_string()));
    store.auto_save = false;
    assert_eq!(store.save_if_needed(), None);
    assert!(LibraryStore::default_data_dir().ends_with("/open_music"));
}
