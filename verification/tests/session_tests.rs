use open_music::library::{Creditor, Credits, Library, Song};
use open_music::player::{AudioAction, Player, PlayerState, RepeatMode};
use open_music::session::{
    add_to_playlist, audio_extension, clock_text, duration_label, edit_song, export_path,
    hours_minutes_label, imported_song, imported_title, audio_word, library_stats, parse_repeat_mode, parse_song_field,
    play_command, queue_add_command, search_songs, set_lyrics, title_matches, EditError,
    PlayOutcome, PlaylistAddition, QueueAddOutcome, SongField,
};

fn song(title: &str, src: Option<&str>) -> Song {
    let mut s = Song::new();
    s.title(title);
    if let Some(p) = src {
        s.source = Some(p.to_string());
    }
    s
}

fn sample() -> Library {
    let mut lib = Library::new();
    let mut a = song("Blue Moon", Some("/m/blue.mp3"));
    a.hashtags = Some(vec!["Jazz".to_string()]);
    a.duration = Some(185);
    a.played_count = 3;
    a.lyrics = Some("blue".to_string());
    lib.add_song(a);
    let mut b = song("Rock On", None);
    let mut c = Credits::new();
    c.insert("guitar".to_string(), Creditor::new("Jimmy Page"));
    b.credits = Some(c);
    b.duration = Some(200);
    b.played_count = 2;
    lib.add_song(b);
    lib.add_song(song("Moon River", Some("/m/river.flac")));
    lib
}

#[test]
fn search_ignores_case_across_fields() {
    let lib = sample();
    assert_eq!(search_songs(&lib, "MOON"), vec![0, 2]);
    assert_eq!(search_songs(&lib, "jazz"), vec![0]);
    assert_eq!(search_songs(&lib, "page"), vec![1]);
    assert!(search_songs(&lib, "xyz").is_empty());
    assert_eq!(title_matches(&lib, "Moon"), vec![0, 2]);
    assert_eq!(title_matches(&lib, "moon"), Vec::<usize>::new());
}

#[test]
fn play_command_outcomes() {
    let lib = sample();
    let mut p = Player::new();
    assert!(matches!(play_command(&mut p, &lib, Some("zzz"), false), PlayOutcome::NotFound));
    match play_command(&mut p, &lib, Some("Moon"), false) {
        PlayOutcome::Ambiguous { matches } => assert_eq!(matches, vec![0, 2]),
        other => panic!("unexpected {:?}", other),
    }
    assert!(matches!(play_command(&mut p, &lib, None, false), PlayOutcome::EmptyQueue));
    match play_command(&mut p, &lib, Some("River"), false) {
        PlayOutcome::Played { index, action } => {
            assert_eq!(index, 2);
            assert!(matches!(action, AudioAction::Play { ref path, .. } if path == "/m/river.flac"));
        }
        other => panic!("unexpected {:?}", other),
    }
    assert_eq!(p.queue[0].song_id, 2);
    assert_eq!(p.queue[0].song_title, "Moon River");
    p.pause();
    assert!(matches!(
        play_command(&mut p, &lib, None, false),
        PlayOutcome::Resumed { action: AudioAction::Resume }
    ));
}

#[test]
fn play_all_starts_the_first_song() {
    let lib = sample();
    let mut p = Player::new();
    match play_command(&mut p, &lib, None, true) {
        PlayOutcome::QueuedAll { count, actions } => {
            assert_eq!(count, 3);
            assert_eq!(actions.len(), 3);
            assert!(matches!(actions[0], AudioAction::Play { ref path, .. } if path == "/m/blue.mp3"));
            assert!(matches!(actions[1], AudioAction::Nothing));
        }
        other => panic!("unexpected {:?}", other),
    }
    assert_eq!(p.state, PlayerState::Playing);
    assert_eq!(p.current_index, Some(0));
    assert_eq!(p.queue.len(), 3);
    assert_eq!(p.queue[1].source_path, "");
}

#[test]
fn queue_add_outcomes() {
    let lib = sample();
    let mut p = Player::new();
    assert!(matches!(queue_add_command(&mut p, &lib, None, false), QueueAddOutcome::MissingName));
    assert!(matches!(queue_add_command(&mut p, &lib, Some("zz"), false), QueueAddOutcome::NotFound));
    match queue_add_command(&mut p, &lib, Some("Moon"), false) {
        QueueAddOutcome::Added { matches } => assert_eq!(matches, vec![0, 2]),
        other => panic!("unexpected {:?}", other),
    }
    assert_eq!(p.queue.len(), 2);
    assert_eq!(p.queue[1].song_id, 2);
    assert_eq!(p.state, PlayerState::Stopped);
    assert!(matches!(queue_add_command(&mut p, &lib, None, true), QueueAddOutcome::AddedAll { count: 3 }));
    assert_eq!(p.queue.len(), 5);
}

#[test]
fn queue_add_records_first_song_with_the_same_title() {
    let mut lib = Library::new();
    lib.add_song(song("Twin", Some("/1")));
    lib.add_song(song("Twin", Some("/2")));
    let mut p = Player::new();
    queue_add_command(&mut p, &lib, Some("Twin"), false);
    assert_eq!(p.queue[0].song_id, 0);
    assert_eq!(p.queue[1].song_id, 0);
    assert_eq!(p.queue[1].source_path, "/2");
}

#[test]
fn repeat_words() {
    assert_eq!(parse_repeat_mode("single"), Some(RepeatMode::One));
    assert_eq!(parse_repeat_mode("1"), Some(RepeatMode::One));
    assert_eq!(parse_repeat_mode("all"), Some(RepeatMode::All));
    assert_eq!(parse_repeat_mode("none"), Some(RepeatMode::Off));
    assert_eq!(parse_repeat_mode("ALL"), None);
}

#[test]
fn editing() {
    let mut lib = sample();
    assert_eq!(parse_song_field("tags"), Some(SongField::Hashtags));
    assert_eq!(edit_song(&mut lib, "zzz", "title", "x", None), Err(EditError::SongNotFound));
    assert_eq!(edit_song(&mut lib, "Rock", "colour", "x", None), Err(EditError::UnknownField));
    assert_eq!(edit_song(&mut lib, "Rock", "tags", " a, b ,c ", None), Ok(1));
    assert_eq!(
        lib.songs[1].hashtags,
        Some(vec!["a".to_string(), "b".to_string(), "c".to_string()])
    );
    assert_eq!(edit_song(&mut lib, "Rock", "desc", "loud", None), Ok(1));
    assert_eq!(lib.songs[1].description.as_deref(), Some("loud"));
    assert_eq!(edit_song(&mut lib, "Rock", "album", "IV", None), Ok(1));
    assert_eq!(lib.songs[1].album.as_ref().map(|a| a.title.as_str()), Some("IV"));
    assert_eq!(edit_song(&mut lib, "Rock", "credits", "not json", None), Ok(1));
    assert!(lib.songs[1].credits.is_none());
    assert_eq!(edit_song(&mut lib, "Rock", "title", "Rock Off", None), Ok(1));
    assert_eq!(lib.songs[1].title.as_deref(), Some("Rock Off"));
    assert_eq!(set_lyrics(&mut lib, "Off", "yeah"), Some(1));
    assert_eq!(lib.songs[1].lyrics.as_deref(), Some("yeah"));
    assert_eq!(set_lyrics(&mut lib, "zzz", "x"), None);
}

#[test]
fn adding_to_playlists() {
    let mut lib = sample();
    assert_eq!(add_to_playlist(&mut lib, "zzz", "Mix"), None);
    assert!(lib.playlists.is_empty());
    assert_eq!(add_to_playlist(&mut lib, "Moon", "Night Mix"), Some(PlaylistAddition::Created));
    assert_eq!(lib.playlists[0].name.as_deref(), Some("Night Mix"));
    assert_eq!(add_to_playlist(&mut lib, "Rock", "Mix"), Some(PlaylistAddition::Existing(0)));
    let list = lib.playlists[0].playlist.as_ref().expect("songs");
    assert_eq!(list.len(), 2);
    assert_eq!(list[0].title.as_deref(), Some("Blue Moon"));
    assert_eq!(list[1].title.as_deref(), Some("Rock On"));
}

#[test]
fn statistics() {
    let lib = sample();
    let st = library_stats(&lib).unwrap();
    assert_eq!(st.total_songs, 3);
    assert_eq!(st.total_duration_secs, 385);
    assert_eq!(st.total_played, 5);
    assert_eq!(st.with_source, 2);
    assert_eq!(st.with_lyrics, 1);
    assert_eq!(st.playlist_count, 0);
}

#[test]
fn clock_texts() {
    assert_eq!(duration_label(185), "03:05");
    assert_eq!(duration_label(6000), "100:00");
    assert_eq!(hours_minutes_label(3 * 3600 + 7 * 60 + 59), "03:07");
    assert_eq!(clock_text(0, 9), "00:09");
    assert_eq!(clock_text(12, 45), "12:45");
}

#[test]
fn exports_and_imports() {
    assert_eq!(export_path("/d", ""), "/d/library_export.json");
    assert_eq!(export_path("/d", "x.json"), "x.json");
    assert!(audio_extension("MP3"));
    assert!(audio_extension("flac"));
    assert!(!audio_extension("txt"));
    let s = imported_song("track", Some(42), "/m/track.ogg");
    assert_eq!(s.title.as_deref(), Some("track"));
    assert_eq!(s.duration, Some(42));
    assert_eq!(s.source.as_deref(), Some("/m/track.ogg"));
}

#[test]
fn import_titles_from_paths() {
    assert_eq!(imported_title("/music/Blue Moon.MP3"), Some("Blue Moon".to_string()));
    assert_eq!(imported_title("/music/a.b.flac"), Some("a.b".to_string()));
    assert_eq!(imported_title("track.ogg"), Some("track".to_string()));
    assert_eq!(imported_title("/music/cover.jpg"), None);
    assert_eq!(imported_title("/music/.mp3"), None);
    assert_eq!(imported_title("/music/noext"), None);
    assert_eq!(imported_title("/music.d/noext"), None);
    assert!(audio_word("m4a"));
    assert!(!audio_word("M4A"));
}
