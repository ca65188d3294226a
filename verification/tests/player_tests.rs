use open_music::player::{AudioAction, Player, PlayerState, QueueEntry, RepeatMode};

fn path_of(a: &AudioAction) -> Option<String> {
    match a {
        AudioAction::Play { path, .. } => Some(path.clone()),
        _ => None,
    }
}

fn three() -> Player {
    let mut p = Player::new();
    p.play(0, "a", "/a.mp3");
    p.play(1, "b", "/b.mp3");
    p.play(2, "c", "/c.mp3");
    p
}

#[test]
fn fresh_player() {
    let p = Player::new();
    assert_eq!(p.state, PlayerState::Stopped);
    assert_eq!(p.repeat, RepeatMode::Off);
    assert_eq!(p.volume, 80);
    assert!(!p.shuffle);
    assert!(p.queue_list().is_empty());
    assert!(p.current_song().is_none());
}

#[test]
fn play_starts_only_when_stopped() {
    let mut p = Player::new();
    let a = p.play(4, "x", "/x.mp3");
    assert!(matches!(a, AudioAction::Play { ref path, volume: 80 } if path == "/x.mp3"));
    assert_eq!(p.state, PlayerState::Playing);
    assert_eq!(p.current_index, Some(0));
    let b = p.play(5, "y", "/y.mp3");
    assert!(matches!(b, AudioAction::Nothing));
    assert_eq!(p.queue.len(), 2);
    assert_eq!(p.current_song().map(|e| e.song_id), Some(4));
}

#[test]
fn next_without_repeat_stops_after_last() {
    let mut p = three();
    assert_eq!(path_of(&p.play_next()), Some("/b.mp3".to_string()));
    assert_eq!(path_of(&p.play_next()), Some("/c.mp3".to_string()));
    assert!(matches!(p.play_next(), AudioAction::Stop));
    assert_eq!(p.state, PlayerState::Stopped);
    assert_eq!(p.current_index, None);
    assert_eq!(p.history.len(), 3);
    // from no current entry, next starts at the front
    assert_eq!(path_of(&p.play_next()), Some("/a.mp3".to_string()));
    assert_eq!(p.current_index, Some(0));
}

#[test]
fn next_with_repeat_all_wraps_and_repeat_one_restarts() {
    let mut p = three();
    p.set_repeat(RepeatMode::All);
    p.play_next();
    p.play_next();
    assert_eq!(p.current_index, Some(2));
    assert_eq!(path_of(&p.play_next()), Some("/a.mp3".to_string()));
    assert_eq!(p.current_index, Some(0));
    p.set_repeat(RepeatMode::One);
    assert_eq!(path_of(&p.play_next()), Some("/a.mp3".to_string()));
    assert_eq!(p.current_index, Some(0));
}

#[test]
fn next_on_empty_queue_stops() {
    let mut p = Player::new();
    assert!(matches!(p.play_next(), AudioAction::Nothing));
    assert_eq!(p.state, PlayerState::Stopped);
}

#[test]
fn prev_goes_back() {
    let mut p = three();
    p.play_next();
    assert_eq!(p.current_index, Some(1));
    assert_eq!(path_of(&p.play_prev()), Some("/a.mp3".to_string()));
    assert_eq!(p.current_index, Some(0));
    assert!(p.history.is_empty());
    assert!(matches!(p.play_prev(), AudioAction::Nothing));
}

#[test]
fn prev_requeues_a_song_no_longer_queued() {
    let mut p = three();
    p.play_next();
    p.queue_clear();
    assert_eq!(path_of(&p.play_prev()), Some("/a.mp3".to_string()));
    assert_eq!(p.queue.len(), 1);
    assert_eq!(p.current_index, Some(0));
    assert_eq!(p.state, PlayerState::Playing);
}

#[test]
fn pause_resume_stop_seek_volume_shuffle() {
    let mut p = three();
    assert!(matches!(p.pause(), AudioAction::Pause));
    assert_eq!(p.state, PlayerState::Paused);
    assert!(matches!(p.pause(), AudioAction::Nothing));
    assert!(matches!(p.resume(), AudioAction::Resume));
    assert!(matches!(p.resume(), AudioAction::Nothing));
    p.seek(95);
    assert_eq!(p.elapsed_secs, 95);
    assert!(matches!(p.set_volume(150), AudioAction::SetVolume(100)));
    assert!(matches!(p.set_volume(30), AudioAction::SetVolume(30)));
    p.toggle_shuffle();
    assert!(p.shuffle);
    p.toggle_shuffle();
    assert!(!p.shuffle);
    assert!(matches!(p.stop(), AudioAction::Stop));
    assert_eq!(p.current_index, None);
    assert_eq!(p.elapsed_secs, 0);
    assert_eq!(p.queue.len(), 3);
}

#[test]
fn queue_add_and_clear() {
    let mut p = Player::new();
    p.queue_add(vec![QueueEntry::new(1, "a", "/a"), QueueEntry::new(2, "b", "/b")]);
    assert_eq!(p.queue_list().len(), 2);
    assert_eq!(p.state, PlayerState::Stopped);
    let d = p.queue[1].duplicate();
    assert_eq!(d.song_title, "b");
    assert!(matches!(p.queue_clear(), AudioAction::Stop));
    assert!(p.queue.is_empty());
}

#[test]
fn shuffled_next_is_drawn_from_the_other_entries() {
    let mut p = three();
    p.toggle_shuffle();
    // from entry 0 of three: draw 0 picks entry 1, draw 1 picks entry 2
    assert_eq!(path_of(&p.play_next_drawn(1)), Some("/c.mp3".to_string()));
    assert_eq!(p.current_index, Some(2));
    assert_eq!(path_of(&p.play_next_drawn(0)), Some("/a.mp3".to_string()));
    assert_eq!(p.current_index, Some(0));
    assert_eq!(path_of(&p.play_next_drawn(7)), Some("/c.mp3".to_string()));
    assert_eq!(p.state, PlayerState::Playing);
    assert_eq!(p.history.len(), 3);
    for _ in 0..20 {
        let before = p.current_index;
        assert!(path_of(&p.play_next()).is_some());
        assert_ne!(p.current_index, before);
        assert!(p.current_index.unwrap() < 3);
    }
}

#[test]
fn shuffled_next_with_one_entry() {
    let mut p = Player::new();
    p.play(0, "a", "/a.mp3");
    p.toggle_shuffle();
    assert!(matches!(p.play_next_drawn(5), AudioAction::Stop));
    assert_eq!(p.state, PlayerState::Stopped);
    let mut q = Player::new();
    q.play(0, "a", "/a.mp3");
    q.toggle_shuffle();
    q.set_repeat(RepeatMode::All);
    assert_eq!(path_of(&q.play_next_drawn(5)), Some("/a.mp3".to_string()));
    assert_eq!(q.current_index, Some(0));
}
