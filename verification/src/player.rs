//! The playback engine: the play queue, the playback state, repeat and
//! shuffle, and the history of played entries.  Each operation is a
//! transition of the player's model that also names the one thing the audio
//! output has to do (`AudioAction`); performing it is left to the caller.
use vstd::prelude::*;
use crate::text::owned;
use std::hash::BuildHasher;

verus! {

/// Whether audio is playing.
#[derive(Debug, Clone, Copy, PartialEq, Eq, Structural)]
pub enum PlayerState {
    Stopped,
    Playing,
    Paused,
}

/// What happens at the end of a song.
#[derive(Debug, Clone, Copy, PartialEq, Eq, Structural)]
pub enum RepeatMode {
    Off,
    One,
    All,
}

/// One entry of the play queue.
#[derive(Debug)]
pub struct QueueEntry {
    pub song_id: usize,
    pub song_title: String,
    pub source_path: String,
}

pub struct QueueEntryView {
    pub song_id: usize,
    pub song_title: Seq<char>,
    pub source_path: Seq<char>,
}

impl View for QueueEntry {
    type V = QueueEntryView;

    open spec fn view(&self) -> QueueEntryView {
        QueueEntryView {
            song_id: self.song_id,
            song_title: self.song_title@,
            source_path: self.source_path@,
        }
    }
}

impl QueueEntry {
    /// An entry for the song `song_id` with its title and audio file.
    pub fn new(song_id: usize, song_title: &str, source_path: &str) -> (r: QueueEntry)
        ensures
            r@ == (QueueEntryView {
                song_id,
                song_title: song_title@,
                source_path: source_path@,
            }),
    {
        QueueEntry { song_id, song_title: owned(song_title), source_path: owned(source_path) }
    }

    /// A copy of this entry.
    pub fn duplicate(&self) -> (r: QueueEntry)
        ensures
            r@ == self@,
    {
        QueueEntry {
            song_id: self.song_id,
            song_title: self.song_title.clone(),
            source_path: self.source_path.clone(),
        }
    }
}

/// What the audio output has to do after a player operation.
#[derive(Debug)]
pub enum AudioAction {
    Nothing,
    /// Start the file at `path` from its beginning, at `volume` percent.
    Play { path: String, volume: u8 },
    Pause,
    Resume,
    Stop,
    /// Set the volume, in percent.
    SetVolume(u8),
}

pub enum AudioActionView {
    Nothing,
    Play { path: Seq<char>, volume: u8 },
    Pause,
    Resume,
    Stop,
    SetVolume(u8),
}

impl View for AudioAction {
    type V = AudioActionView;

    open spec fn view(&self) -> AudioActionView {
        match self {
            AudioAction::Nothing => AudioActionView::Nothing,
            AudioAction::Play { path, volume } => AudioActionView::Play {
                path: path@,
                volume: *volume,
            },
            AudioAction::Pause => AudioActionView::Pause,
            AudioAction::Resume => AudioActionView::Resume,
            AudioAction::Stop => AudioActionView::Stop,
            AudioAction::SetVolume(v) => AudioActionView::SetVolume(*v),
        }
    }
}

/// The player's state, with its entries taken by their views.
pub struct PlayerModel {
    pub state: PlayerState,
    pub repeat: RepeatMode,
    pub shuffle: bool,
    pub volume: u8,
    pub queue: Seq<QueueEntryView>,
    pub current_index: Option<usize>,
    pub history: Seq<QueueEntryView>,
    pub elapsed_secs: u64,
}

/// The views of a list of queue entries.
pub open spec fn entry_views(v: Seq<QueueEntry>) -> Seq<QueueEntryView> {
    v.map_values(|e: QueueEntry| e@)
}

/// The playback engine.
#[derive(Debug)]
pub struct Player {
    pub state: PlayerState,
    pub repeat: RepeatMode,
    pub shuffle: bool,
    /// Volume in percent, at most 100.
    pub volume: u8,
    pub queue: Vec<QueueEntry>,
    pub current_index: Option<usize>,
    pub history: Vec<QueueEntry>,
    /// The playback position, in whole seconds.
    pub elapsed_secs: u64,
}

impl View for Player {
    type V = PlayerModel;

    open spec fn view(&self) -> PlayerModel {
        PlayerModel {
            state: self.state,
            repeat: self.repeat,
            shuffle: self.shuffle,
            volume: self.volume,
            queue: entry_views(self.queue@),
            current_index: self.current_index,
            history: entry_views(self.history@),
            elapsed_secs: self.elapsed_secs,
        }
    }
}

// ---------------------------------------------------------------------------
// Transitions of the model
// ---------------------------------------------------------------------------

/// The entry that `current_index` designates, if it designates one.
pub open spec fn current_entry(m: PlayerModel) -> Option<QueueEntryView> {
    match m.current_index {
        Some(i) => if i < m.queue.len() {
            Some(m.queue[i as int])
        } else {
            None
        },
        None => None,
    }
}

/// Start the current entry's file, if there is a current entry.
pub open spec fn start_current(m: PlayerModel) -> AudioActionView {
    match current_entry(m) {
        Some(e) => AudioActionView::Play { path: e.source_path, volume: m.volume },
        None => AudioActionView::Nothing,
    }
}

/// The current index, when there is one, designates an entry of the queue.
pub open spec fn well_formed(m: PlayerModel) -> bool {
    match m.current_index {
        Some(i) => i < m.queue.len(),
        None => true,
    }
}

/// A fresh player: stopped, nothing queued, volume 80%.
pub open spec fn initial_model() -> PlayerModel {
    PlayerModel {
        state: PlayerState::Stopped,
        repeat: RepeatMode::Off,
        shuffle: false,
        volume: 80,
        queue: Seq::empty(),
        current_index: None,
        history: Seq::empty(),
        elapsed_secs: 0,
    }
}

/// `e` joins the end of the queue; a stopped player starts playing it.
pub open spec fn after_play(m: PlayerModel, e: QueueEntryView) -> (PlayerModel, AudioActionView) {
    let q = m.queue.push(e);
    if m.state == PlayerState::Stopped {
        let m2 = PlayerModel {
            queue: q,
            current_index: Some((q.len() - 1) as usize),
            state: PlayerState::Playing,
            elapsed_secs: 0,
            ..m
        };
        (m2, start_current(m2))
    } else {
        (PlayerModel { queue: q, ..m }, AudioActionView::Nothing)
    }
}

/// The history after the current entry (if it designates one) is recorded.
pub open spec fn history_with_current(m: PlayerModel) -> Seq<QueueEntryView> {
    match current_entry(m) {
        Some(e) => m.history.push(e),
        None => m.history,
    }
}

/// The entry that shuffled playback moves to from `cur` in a queue of `len`
/// entries, given the random `draw`: from a current entry, one of the other
/// entries (the draw picks which); with no other entry, the same one again
/// under `All` and none (playback stops) otherwise; with no current entry,
/// any entry.
pub open spec fn shuffle_next(len: nat, cur: Option<usize>, draw: u64, repeat: RepeatMode) -> Option<usize> {
    match cur {
        Some(i) => if i < len && len > 1 {
            Some(((i + 1 + (draw as int) % (len - 1)) % (len as int)) as usize)
        } else if i < len {
            if repeat == RepeatMode::All {
                Some(i)
            } else {
                None
            }
        } else {
            Some(((draw as int) % (len as int)) as usize)
        },
        None => Some(((draw as int) % (len as int)) as usize),
    }
}

/// Advancing to the next entry, `draw` being a random number: an empty
/// queue stops; otherwise the current entry goes to the history, then `One`
/// restarts it; with shuffle on, the entry that `shuffle_next` picks plays
/// (or, if none, playback stops); with shuffle off, `All` moves on
/// cyclically and `Off` moves on or, past the last entry, stops.
pub open spec fn after_next(m: PlayerModel, draw: u64) -> (PlayerModel, AudioActionView) {
    let len = m.queue.len();
    if len == 0 {
        (
            PlayerModel { state: PlayerState::Stopped, current_index: None, ..m },
            AudioActionView::Nothing,
        )
    } else {
        let m1 = PlayerModel { history: history_with_current(m), ..m };
        match m.repeat {
            RepeatMode::One => {
                let m2 = PlayerModel { elapsed_secs: 0, ..m1 };
                (m2, start_current(m2))
            },
            _ if m.shuffle => match shuffle_next(len, m.current_index, draw, m.repeat) {
                Some(c) => {
                    let m2 = PlayerModel {
                        current_index: Some(c),
                        elapsed_secs: 0,
                        state: PlayerState::Playing,
                        ..m1
                    };
                    (m2, start_current(m2))
                },
                None => (
                    PlayerModel {
                        current_index: None,
                        state: PlayerState::Stopped,
                        elapsed_secs: 0,
                        ..m1
                    },
                    AudioActionView::Stop,
                ),
            },
            RepeatMode::All => {
                let c = match m.current_index {
                    Some(i) => ((i + 1) % (len as int)) as usize,
                    None => 0usize,
                };
                let m2 = PlayerModel {
                    current_index: Some(c),
                    elapsed_secs: 0,
                    state: PlayerState::Playing,
                    ..m1
                };
                (m2, start_current(m2))
            },
            RepeatMode::Off => match m.current_index {
                Some(i) => if i + 1 < len {
                    let m2 = PlayerModel {
                        current_index: Some((i + 1) as usize),
                        elapsed_secs: 0,
                        state: PlayerState::Playing,
                        ..m1
                    };
                    (m2, start_current(m2))
                } else {
                    (
                        PlayerModel {
                            current_index: None,
                            state: PlayerState::Stopped,
                            elapsed_secs: 0,
                            ..m1
                        },
                        AudioActionView::Stop,
                    )
                },
                None => {
                    let m2 = PlayerModel {
                        current_index: Some(0usize),
                        elapsed_secs: 0,
                        state: PlayerState::Playing,
                        ..m1
                    };
                    (m2, start_current(m2))
                },
            },
        }
    }
}

/// `k` is the first position of the queue holding song `id`.
pub open spec fn first_id_at(q: Seq<QueueEntryView>, id: usize, k: int) -> bool {
    &&& 0 <= k < q.len()
    &&& q[k].song_id == id
    &&& forall|j: int| 0 <= j < k ==> (#[trigger] q[j]).song_id != id
}

/// The first position of the queue holding song `id`, if any.
pub open spec fn position_of_id(q: Seq<QueueEntryView>, id: usize) -> Option<int> {
    if exists|k: int| first_id_at(q, id, k) {
        Some(choose|k: int| first_id_at(q, id, k))
    } else {
        None
    }
}

/// Going back: the last history entry is taken off the history; if its
/// song is queued, its first position becomes current, otherwise it is put
/// at the front of the queue and becomes current; playback restarts.  With
/// an empty history nothing changes.
pub open spec fn after_prev(m: PlayerModel) -> (PlayerModel, AudioActionView) {
    if m.history.len() == 0 {
        (m, AudioActionView::Nothing)
    } else {
        let prev = m.history.last();
        let h = m.history.drop_last();
        let m2 = match position_of_id(m.queue, prev.song_id) {
            Some(pos) => PlayerModel {
                history: h,
                current_index: Some(pos as usize),
                elapsed_secs: 0,
                state: PlayerState::Playing,
                ..m
            },
            None => PlayerModel {
                history: h,
                queue: seq![prev] + m.queue,
                current_index: Some(0usize),
                elapsed_secs: 0,
                state: PlayerState::Playing,
                ..m
            },
        };
        (m2, start_current(m2))
    }
}

/// Pausing: only a playing player pauses.
pub open spec fn after_pause(m: PlayerModel) -> (PlayerModel, AudioActionView) {
    if m.state == PlayerState::Playing {
        (PlayerModel { state: PlayerState::Paused, ..m }, AudioActionView::Pause)
    } else {
        (m, AudioActionView::Nothing)
    }
}

/// Resuming: only a paused player resumes.
pub open spec fn after_resume(m: PlayerModel) -> (PlayerModel, AudioActionView) {
    if m.state == PlayerState::Paused {
        (PlayerModel { state: PlayerState::Playing, ..m }, AudioActionView::Resume)
    } else {
        (m, AudioActionView::Nothing)
    }
}

/// Stopping: no current entry, position zero.
pub open spec fn after_stop(m: PlayerModel) -> PlayerModel {
    PlayerModel { state: PlayerState::Stopped, current_index: None, elapsed_secs: 0, ..m }
}

/// Emptying the queue also stops.
pub open spec fn after_queue_clear(m: PlayerModel) -> PlayerModel {
    PlayerModel { queue: Seq::empty(), ..after_stop(m) }
}

/// The volume requested in percent, capped at 100.
pub open spec fn capped_volume(percent: u8) -> u8 {
    if percent > 100 {
        100
    } else {
        percent
    }
}

/// Calls `RandomState::new`: hashing keys that the standard library seeds
/// at random (and varies from one call to the next).
#[verifier::external_body]
fn fresh_random_state() -> (r: std::collections::hash_map::RandomState) {
    std::collections::hash_map::RandomState::new()
}

/// Calls `BuildHasher::hash_one` on a fixed value: with randomly seeded keys
/// the hash is a random number.  Nothing is claimed of it.
#[verifier::external_body]
fn random_draw(state: &std::collections::hash_map::RandomState) -> (r: u64) {
    state.hash_one(0u8)
}

impl Player {
    /// A fresh player: stopped, nothing queued, volume 80%.
    pub fn new() -> (r: Player)
        ensures
            r@ == initial_model(),
    {
        let r = Player {
            state: PlayerState::Stopped,
            repeat: RepeatMode::Off,
            shuffle: false,
            volume: 80,
            queue: Vec::new(),
            current_index: None,
            history: Vec::new(),
            elapsed_secs: 0,
        };
        assert(r@.queue =~= Seq::<QueueEntryView>::empty());
        assert(r@.history =~= Seq::<QueueEntryView>::empty());
        r
    }

    /// The entry that the current index designates, if any.
    pub fn current_song(&self) -> (r: Option<&QueueEntry>)
        ensures
            match r {
                Some(e) => current_entry(self@) == Some(e@),
                None => current_entry(self@) is None,
            },
    {
        match self.current_index {
            Some(i) => if i < self.queue.len() {
                Some(&self.queue[i])
            } else {
                None
            },
            None => None,
        }
    }

    /// The action that starts the current entry, if any.
    fn start_action(&self) -> (r: AudioAction)
        ensures
            r@ == start_current(self@),
    {
        match self.current_song() {
            Some(e) => AudioAction::Play { path: e.source_path.clone(), volume: self.volume },
            None => AudioAction::Nothing,
        }
    }

    /// Queues the song and starts playing it if the player was stopped.
    pub fn play(&mut self, song_id: usize, title: &str, path: &str) -> (r: AudioAction)
        ensures
            (final(self)@, r@) == after_play(
                old(self)@,
                QueueEntryView { song_id, song_title: title@, source_path: path@ },
            ),
    {
        let e = QueueEntry::new(song_id, title, path);
        let ghost ev = e@;
        self.queue.push(e);
        assert(self@.queue =~= old(self)@.queue.push(ev));
        if self.state == PlayerState::Stopped {
            self.current_index = Some(self.queue.len() - 1);
            self.state = PlayerState::Playing;
            self.elapsed_secs = 0;
            self.start_action()
        } else {
            AudioAction::Nothing
        }
    }

    /// Advances to the next entry, respecting repeat and shuffle; `draw`
    /// is the random number from which shuffled playback picks the entry.
    pub fn play_next_drawn(&mut self, draw: u64) -> (r: AudioAction)
        ensures
            (final(self)@, r@) == after_next(old(self)@, draw),
    {
        let len = self.queue.len();
        if len == 0 {
            self.state = PlayerState::Stopped;
            self.current_index = None;
            return AudioAction::Nothing;
        }
        if let Some(e) = self.current_song() {
            let copy = e.duplicate();
            let ghost before = self@.history;
            self.history.push(copy);
            assert(self@.history =~= before.push(copy@));
        }
        match self.repeat {
            RepeatMode::One => {
                self.elapsed_secs = 0;
                self.start_action()
            },
            _ if self.shuffle => {
                let next: Option<usize> = match self.current_index {
                    Some(i) => if i < len && len > 1 {
                        let k: u128 = (i as u128 + 1 + (draw as u128) % ((len - 1) as u128)) % (len as u128);
                        Some(k as usize)
                    } else if i < len {
                        if self.repeat == RepeatMode::All {
                            Some(i)
                        } else {
                            None
                        }
                    } else {
                        Some(((draw as u128) % (len as u128)) as usize)
                    },
                    None => Some(((draw as u128) % (len as u128)) as usize),
                };
                match next {
                    Some(c) => {
                        self.current_index = Some(c);
                        self.elapsed_secs = 0;
                        self.state = PlayerState::Playing;
                        self.start_action()
                    },
                    None => {
                        self.current_index = None;
                        self.state = PlayerState::Stopped;
                        self.elapsed_secs = 0;
                        AudioAction::Stop
                    },
                }
            },
            RepeatMode::All => {
                let c: usize = match self.current_index {
                    Some(i) => ((i as u128 + 1) % (len as u128)) as usize,
                    None => 0,
                };
                self.current_index = Some(c);
                self.elapsed_secs = 0;
                self.state = PlayerState::Playing;
                self.start_action()
            },
            RepeatMode::Off => {
                match self.current_index {
                    Some(i) => {
                        if i < len - 1 {
                            self.current_index = Some(i + 1);
                        } else {
                            self.current_index = None;
                            self.state = PlayerState::Stopped;
                            self.elapsed_secs = 0;
                            return AudioAction::Stop;
                        }
                    },
                    None => {
                        self.current_index = Some(0);
                    },
                }
                self.elapsed_secs = 0;
                self.state = PlayerState::Playing;
                self.start_action()
            },
        }
    }

    /// Advances to the next entry, respecting repeat and shuffle.  With
    /// shuffle on, the entry is picked by a random draw: whatever is drawn,
    /// the outcome is `after_next` for some draw (with more than one entry
    /// queued, another entry than the current one plays).  With shuffle off
    /// nothing is drawn.
    pub fn play_next(&mut self) -> (r: AudioAction)
        ensures
            exists|d: u64| (final(self)@, r@) == after_next(old(self)@, d),
            !old(self)@.shuffle ==> (final(self)@, r@) == after_next(old(self)@, 0),
    {
        if self.shuffle {
            let state = fresh_random_state();
            let d = random_draw(&state);
            self.play_next_drawn(d)
        } else {
            self.play_next_drawn(0)
        }
    }

    /// The first position of the queue holding song `id`.
    fn queue_position(&self, id: usize) -> (r: Option<usize>)
        ensures
            match r {
                Some(k) => position_of_id(self@.queue, id) == Some(k as int),
                None => position_of_id(self@.queue, id) is None,
            },
    {
        let ghost q = self@.queue;
        let mut i: usize = 0;
        while i < self.queue.len()
            invariant
                q == self@.queue,
                i <= self.queue.len(),
                forall|j: int| 0 <= j < i ==> (#[trigger] q[j]).song_id != id,
            decreases self.queue.len() - i,
        {
            if self.queue[i].song_id == id {
                assert(first_id_at(q, id, i as int));
                let ghost k = choose|k: int| first_id_at(q, id, k);
                assert(k == i as int) by {
                    if k < i {
                        assert(q[k].song_id != id);
                    }
                    if k > i {
                        assert(q[i as int].song_id != id);
                    }
                }
                return Some(i);
            }
            i = i + 1;
        }
        assert(!exists|k: int| first_id_at(q, id, k)) by {
            if exists|k: int| first_id_at(q, id, k) {
                let k = choose|k: int| first_id_at(q, id, k);
                assert(q[k].song_id != id);
            }
        }
        None
    }

    /// Goes back to the last entry of the history.
    pub fn play_prev(&mut self) -> (r: AudioAction)
        ensures
            (final(self)@, r@) == after_prev(old(self)@),
    {
        match self.history.pop() {
            Some(prev) => {
                let ghost pv = prev@;
                assert(self@.history =~= old(self)@.history.drop_last());
                match self.queue_position(prev.song_id) {
                    Some(pos) => {
                        self.current_index = Some(pos);
                    },
                    None => {
                        let ghost q0 = self@.queue;
                        self.queue.insert(0, prev);
                        assert(self@.queue =~= seq![pv] + q0);
                        self.current_index = Some(0);
                    },
                }
                self.elapsed_secs = 0;
                self.state = PlayerState::Playing;
                self.start_action()
            },
            None => AudioAction::Nothing,
        }
    }

    /// Pauses a playing player.
    pub fn pause(&mut self) -> (r: AudioAction)
        ensures
            (final(self)@, r@) == after_pause(old(self)@),
    {
        if self.state == PlayerState::Playing {
            self.state = PlayerState::Paused;
            AudioAction::Pause
        } else {
            AudioAction::Nothing
        }
    }

    /// Resumes a paused player.
    pub fn resume(&mut self) -> (r: AudioAction)
        ensures
            (final(self)@, r@) == after_resume(old(self)@),
    {
        if self.state == PlayerState::Paused {
            self.state = PlayerState::Playing;
            AudioAction::Resume
        } else {
            AudioAction::Nothing
        }
    }

    /// Stops playback.
    pub fn stop(&mut self) -> (r: AudioAction)
        ensures
            final(self)@ == after_stop(old(self)@),
            r@ == AudioActionView::Stop,
    {
        self.state = PlayerState::Stopped;
        self.current_index = None;
        self.elapsed_secs = 0;
        AudioAction::Stop
    }

    /// Moves the playback position (the audio output cannot seek, so only
    /// the position is recorded).
    pub fn seek(&mut self, seconds: u64)
        ensures
            final(self)@ == (PlayerModel { elapsed_secs: seconds, ..old(self)@ }),
    {
        self.elapsed_secs = seconds;
    }

    /// Sets the volume in percent, capped at 100.
    pub fn set_volume(&mut self, percent: u8) -> (r: AudioAction)
        ensures
            final(self)@ == (PlayerModel { volume: capped_volume(percent), ..old(self)@ }),
            r@ == AudioActionView::SetVolume(capped_volume(percent)),
    {
        self.volume = if percent > 100 {
            100
        } else {
            percent
        };
        AudioAction::SetVolume(self.volume)
    }

    /// Turns shuffle on or off.
    pub fn toggle_shuffle(&mut self)
        ensures
            final(self)@ == (PlayerModel { shuffle: !old(self)@.shuffle, ..old(self)@ }),
    {
        self.shuffle = !self.shuffle;
    }

    /// Sets the repeat mode.
    pub fn set_repeat(&mut self, mode: RepeatMode)
        ensures
            final(self)@ == (PlayerModel { repeat: mode, ..old(self)@ }),
    {
        self.repeat = mode;
    }

    /// Appends entries to the queue.
    pub fn queue_add(&mut self, entries: Vec<QueueEntry>)
        ensures
            final(self)@ == (PlayerModel {
                queue: old(self)@.queue + entry_views(entries@),
                ..old(self)@
            }),
    {
        let mut entries = entries;
        let ghost added = entry_views(entries@);
        let ghost q0 = self@.queue;
        self.queue.append(&mut entries);
        assert(self@.queue =~= q0 + added);
    }

    /// Empties the queue and stops.
    pub fn queue_clear(&mut self) -> (r: AudioAction)
        ensures
            final(self)@ == after_queue_clear(old(self)@),
            r@ == AudioActionView::Stop,
    {
        self.queue.clear();
        self.current_index = None;
        self.state = PlayerState::Stopped;
        self.elapsed_secs = 0;
        assert(self@.queue =~= Seq::<QueueEntryView>::empty());
        AudioAction::Stop
    }

    /// The queue, in order.
    pub fn queue_list(&self) -> (r: &Vec<QueueEntry>)
        ensures
            entry_views(r@) == self@.queue,
    {
        &self.queue
    }
}


// ---------------------------------------------------------------------------
// Laws
// ---------------------------------------------------------------------------

/// Every operation keeps the current index inside the queue.
pub proof fn law_operations_keep_well_formed(
    m: PlayerModel,
    e: QueueEntryView,
    added: Seq<QueueEntryView>,
    draw: u64,
)
    requires
        well_formed(m),
    ensures
        well_formed(initial_model()),
        well_formed(after_play(m, e).0),
        well_formed(after_next(m, draw).0),
        well_formed(after_prev(m).0),
        well_formed(after_pause(m).0),
        well_formed(after_resume(m).0),
        well_formed(after_stop(m)),
        well_formed(after_queue_clear(m)),
        well_formed(PlayerModel { queue: m.queue + added, ..m }),
{
    if m.history.len() > 0 {
        let prev = m.history.last();
        match position_of_id(m.queue, prev.song_id) {
            Some(pos) => {
                let k = choose|k: int| first_id_at(m.queue, prev.song_id, k);
                assert(pos == k);
            },
            None => {},
        }
    }
}

/// Pausing a playing player and resuming it gives back the same player;
/// the audio output is told to pause and then to resume.
pub proof fn law_pause_then_resume(m: PlayerModel)
    requires
        m.state == PlayerState::Playing,
    ensures
        after_pause(m).1 == AudioActionView::Pause,
        after_resume(after_pause(m).0) == (m, AudioActionView::Resume),
{
}

/// Toggling shuffle twice leaves it as it was.
pub proof fn law_shuffle_twice(m: PlayerModel)
    ensures
        (PlayerModel {
            shuffle: !(PlayerModel { shuffle: !m.shuffle, ..m }).shuffle,
            ..(PlayerModel { shuffle: !m.shuffle, ..m })
        }) == m,
{
}

/// Under `One`, advancing restarts the current entry, shuffled or not: the
/// queue and the current index stay as they are.
pub proof fn law_repeat_one_restarts(m: PlayerModel, draw: u64)
    requires
        m.repeat == RepeatMode::One,
        m.queue.len() > 0,
    ensures
        after_next(m, draw).0.queue == m.queue,
        after_next(m, draw).0.current_index == m.current_index,
        after_next(m, draw).1 == start_current(m),
{
}

/// Under `All` without shuffle, advancing from the last entry wraps around
/// to the first.
pub proof fn law_repeat_all_wraps(m: PlayerModel, i: usize, draw: u64)
    requires
        m.repeat == RepeatMode::All,
        !m.shuffle,
        m.current_index == Some(i),
        i + 1 == m.queue.len(),
    ensures
        after_next(m, draw).0.current_index == Some(0usize),
        after_next(m, draw).0.state == PlayerState::Playing,
{
    let len = m.queue.len() as int;
    assert((i + 1) % len == 0) by (nonlinear_arith)
        requires
            i + 1 == len,
            len > 0,
    ;
}

/// Under `Off` without shuffle, advancing from the last entry stops the
/// player.
pub proof fn law_repeat_off_stops_at_end(m: PlayerModel, i: usize, draw: u64)
    requires
        m.repeat == RepeatMode::Off,
        !m.shuffle,
        m.current_index == Some(i),
        i + 1 == m.queue.len(),
    ensures
        after_next(m, draw).0.current_index is None,
        after_next(m, draw).0.state == PlayerState::Stopped,
        after_next(m, draw).1 == AudioActionView::Stop,
{
}

/// Going back undoes advancing, shuffled or not: when no song is queued
/// twice and the current entry is not the last (repeat off), `prev` after
/// `next` returns to the same entry with the same queue and history.
pub proof fn law_prev_undoes_next(m: PlayerModel, i: usize, draw: u64)
    requires
        m.repeat == RepeatMode::Off,
        m.current_index == Some(i),
        i + 1 < m.queue.len(),
        forall|a: int, b: int|
            0 <= a < b < m.queue.len() ==> (#[trigger] m.queue[a]).song_id != (#[trigger] m.queue[b]).song_id,
    ensures
        after_prev(after_next(m, draw).0).0.current_index == Some(i),
        after_prev(after_next(m, draw).0).0.queue == m.queue,
        after_prev(after_next(m, draw).0).0.history == m.history,
        after_prev(after_next(m, draw).0).0.state == PlayerState::Playing,
{
    let n = after_next(m, draw).0;
    assert(n.history == m.history.push(m.queue[i as int]));
    assert(n.history.drop_last() =~= m.history);
    let id = m.queue[i as int].song_id;
    assert(first_id_at(n.queue, id, i as int));
    let k = choose|k: int| first_id_at(n.queue, id, k);
    assert(k == i as int) by {
        if k < i {
            assert(n.queue[k].song_id != id);
        }
        if k > i {
            assert(n.queue[i as int].song_id != id);
        }
    }
}

/// With shuffle on (and repeat not `One`), advancing from an entry of a
/// queue of two or more plays another entry of the queue, whatever is drawn.
pub proof fn law_shuffle_plays_another_entry(m: PlayerModel, i: usize, draw: u64)
    requires
        m.shuffle,
        m.repeat != RepeatMode::One,
        m.current_index == Some(i),
        i < m.queue.len(),
        2 <= m.queue.len() <= usize::MAX,
    ensures
        after_next(m, draw).0.current_index matches Some(j) && j < m.queue.len() && j != i,
        after_next(m, draw).0.state == PlayerState::Playing,
        after_next(m, draw).0.queue == m.queue,
{
    let len = m.queue.len() as int;
    let x = i + 1 + (draw as int) % (len - 1);
    assert(0 <= (draw as int) % (len - 1) < len - 1) by (nonlinear_arith)
        requires
            len >= 2,
    ;
    assert(x % len != i && 0 <= x % len < len) by (nonlinear_arith)
        requires
            0 <= i < len,
            i + 1 <= x < i + len,
    ;
    assert(after_next(m, draw).0.current_index == Some((x % len) as usize));
}

/// Shuffled playback does not just move on in order: in a queue of three or
/// more, some draw moves from an entry to another than the one after it.
pub proof fn law_shuffle_leaves_queue_order(m: PlayerModel, i: usize)
    requires
        m.shuffle,
        m.repeat != RepeatMode::One,
        m.current_index == Some(i),
        i < m.queue.len(),
        3 <= m.queue.len() <= usize::MAX,
    ensures
        exists|d: u64|
            after_next(m, d).0.current_index != Some(((i + 1) % (m.queue.len() as int)) as usize),
{
    let len = m.queue.len() as int;
    assert(1int % (len - 1) == 1) by (nonlinear_arith)
        requires
            len >= 3,
    ;
    assert((i + 2) % len != (i + 1) % len) by (nonlinear_arith)
        requires
            0 <= i < len,
            len >= 3,
    ;
    assert(0 <= (i + 2) % len < len && 0 <= (i + 1) % len < len) by (nonlinear_arith)
        requires
            0 <= i < len,
            len >= 3,
    ;
    assert(after_next(m, 1).0.current_index == Some(((i + 1 + 1int % (len - 1)) % len) as usize));
    assert(after_next(m, 1).0.current_index == Some(((i + 2) % len) as usize));
}

} // verus!
