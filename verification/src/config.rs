//! The configuration: every setting of the application, grouped by
//! section, and its dot-path table (`section.field`) through which settings
//! are read and written as text.
use vstd::prelude::*;
use crate::command::opt_text;
use crate::text::{
    bool_string, bool_text, decimal, decimal_string, eq_ignore_ascii_case, join_path, join_text,
    join_with, joined_path, owned, parse_bool, parse_bool_text, parse_u64, parse_unsigned,
    split_on, split_text, text_eq, text_eq_ignore_ascii_case, trim, trimmed, views,
    is_canonical_decimal, lemma_decimal_of_digits, is_digit, digits_value, lemma_split_two, lemma_split_none,
};

verus! {

/// General settings.
#[derive(Debug)]
pub struct GeneralConfig {
    pub data_dir: String,
    pub auto_save: bool,
    pub auto_save_interval_secs: u64,
    pub language: String,
    pub log_level: String,
}

/// Audio output settings (the default volume, a float, is kept by the caller).
#[derive(Debug)]
pub struct AudioConfig {
    pub output_device: Option<String>,
    pub crossfade_secs: u32,
    pub gapless: bool,
    pub normalize_audio: bool,
    pub replaygain_mode: String,
}

/// Playback settings.
#[derive(Debug)]
pub struct PlaybackConfig {
    pub repeat_mode: String,
    pub shuffle_on_start: bool,
    pub auto_play_next: bool,
    pub stop_at_queue_end: bool,
    pub resume_on_startup: bool,
}

/// Play-queue settings.
#[derive(Debug)]
pub struct QueueConfig {
    pub max_size: usize,
    pub clear_on_play_all: bool,
    pub append_to_front: bool,
}

/// Library scanning settings.
#[derive(Debug)]
pub struct LibraryConfig {
    pub scan_on_startup: bool,
    pub watch_dirs: Vec<String>,
    pub exclude_patterns: Vec<String>,
    pub cover_size_limit_mb: u32,
    pub prefer_embedded_cover: bool,
}

/// Search settings.
#[derive(Debug)]
pub struct SearchConfig {
    pub fuzzy_match: bool,
    pub match_credits: bool,
    pub match_hashtags: bool,
    pub match_lyrics: bool,
    pub max_results: usize,
}

/// Display settings.
#[derive(Debug)]
pub struct DisplayConfig {
    pub time_format: String,
    pub progress_bar_style: String,
    pub show_duration: bool,
    pub show_playlist_count: bool,
    pub now_playing_format: String,
}

/// Play-history settings.
#[derive(Debug)]
pub struct HistoryConfig {
    pub max_entries: usize,
    pub save_on_exit: bool,
}

/// What the application does on events.
#[derive(Debug)]
pub struct BehaviorConfig {
    pub on_startup: String,
    pub on_playlist_end: String,
    pub on_error: String,
}

/// User-interface settings.
#[derive(Debug)]
pub struct UiConfig {
    pub theme: String,
    pub font_size: u16,
    pub show_cover_art: bool,
    pub show_lyrics: bool,
    pub show_queue: bool,
}

// ---------------------------------------------------------------------------
// Keybinds
// ---------------------------------------------------------------------------

/// A table from text to text, as a sequence of pairs.
pub type TextTable = Seq<(Seq<char>, Seq<char>)>;

/// The keys of a table, in order.
pub open spec fn table_keys(t: TextTable) -> Seq<Seq<char>> {
    t.map_values(|p: (Seq<char>, Seq<char>)| p.0)
}

/// The value under `k`, if any.
pub open spec fn table_get(t: TextTable, k: Seq<char>) -> Option<Seq<char>> {
    if table_keys(t).contains(k) {
        Some(t[table_keys(t).index_of(k)].1)
    } else {
        None
    }
}

/// The table with `v` under `k`: replacing the value in place, or adding the
/// pair at the end.
pub open spec fn table_insert(t: TextTable, k: Seq<char>, v: Seq<char>) -> TextTable {
    if table_keys(t).contains(k) {
        t.update(table_keys(t).index_of(k), (k, v))
    } else {
        t.push((k, v))
    }
}

/// The key bindings: action name to key; an action occurs at most once.
#[derive(Debug)]
pub struct Keybinds {
    entries: Vec<(String, String)>,
}

impl View for Keybinds {
    type V = TextTable;

    closed spec fn view(&self) -> TextTable {
        self.entries@.map_values(|p: (String, String)| (p.0@, p.1@))
    }
}

impl Keybinds {
    #[verifier::type_invariant]
    closed spec fn actions_distinct(&self) -> bool {
        table_keys(self@).no_duplicates()
    }

    /// No bindings.
    pub fn new() -> (r: Keybinds)
        ensures
            r@ == Seq::<(Seq<char>, Seq<char>)>::empty(),
    {
        let r = Keybinds { entries: Vec::new() };
        assert(r@ =~= Seq::<(Seq<char>, Seq<char>)>::empty());
        assert(table_keys(r@) =~= Seq::<Seq<char>>::empty());
        r
    }

    /// The number of bindings (no action is bound twice).
    pub fn len(&self) -> (r: usize)
        ensures
            r == self@.len(),
            table_keys(self@).no_duplicates(),
    {
        proof {
            use_type_invariant(self);
        }
        self.entries.len()
    }

    /// The binding at position `i`.
    pub fn entry(&self, i: usize) -> (r: (&String, &String))
        requires
            i < self@.len(),
        ensures
            (r.0@, r.1@) == self@[i as int],
    {
        let e = &self.entries[i];
        (&e.0, &e.1)
    }

    /// The key bound to `action`.
    pub fn get(&self, action: &str) -> (r: Option<&String>)
        ensures
            match r {
                Some(v) => table_get(self@, action@) == Some(v@),
                None => table_get(self@, action@) is None,
            },
    {
        proof {
            use_type_invariant(self);
        }
        let mut i: usize = 0;
        while i < self.entries.len()
            invariant
                i <= self.entries.len(),
                table_keys(self@).no_duplicates(),
                forall|j: int| 0 <= j < i ==> self@[j].0 != action@,
            decreases self.entries.len() - i,
        {
            if text_eq(self.entries[i].0.as_str(), action) {
                assert(table_keys(self@)[i as int] == action@);
                assert(table_keys(self@).contains(action@));
                assert(table_keys(self@).index_of(action@) == i as int);
                return Some(&self.entries[i].1);
            }
            i = i + 1;
        }
        assert(!table_keys(self@).contains(action@)) by {
            if table_keys(self@).contains(action@) {
                let k = table_keys(self@).index_of(action@);
                assert(self@[k].0 == action@);
            }
        }
        None
    }

    /// Binds `action` to `key`, replacing its previous binding in place or
    /// adding it at the end.
    pub fn insert(&mut self, action: String, key: String)
        ensures
            final(self)@ == table_insert(old(self)@, action@, key@),
    {
        proof {
            use_type_invariant(&*self);
        }
        let ghost old_view = self@;
        let ghost av = action@;
        let ghost kv = key@;
        let mut i: usize = 0;
        while i < self.entries.len()
            invariant
                old_view == self@,
                old_view == old(self)@,
                av == action@,
                kv == key@,
                table_keys(old_view).no_duplicates(),
                i <= self.entries.len(),
                forall|j: int| 0 <= j < i ==> self@[j].0 != action@,
            decreases self.entries.len() - i,
        {
            if text_eq(self.entries[i].0.as_str(), action.as_str()) {
                assert(table_keys(old_view)[i as int] == av);
                assert(table_keys(old_view).contains(av));
                assert(table_keys(old_view).index_of(av) == i as int);
                let mut entries = Vec::new();
                std::mem::swap(&mut entries, &mut self.entries);
                entries.set(i, (action, key));
                let ghost new_view = entries@.map_values(|p: (String, String)| (p.0@, p.1@));
                assert(new_view =~= old_view.update(i as int, (av, kv)));
                assert(table_keys(new_view) =~= table_keys(old_view));
                self.entries = entries;
                return ;
            }
            i = i + 1;
        }
        assert(!table_keys(old_view).contains(av)) by {
            if table_keys(old_view).contains(av) {
                let k = table_keys(old_view).index_of(av);
                assert(self@[k].0 == av);
            }
        }
        let mut entries = Vec::new();
        std::mem::swap(&mut entries, &mut self.entries);
        entries.push((action, key));
        let ghost new_view = entries@.map_values(|p: (String, String)| (p.0@, p.1@));
        assert(new_view =~= old_view.push((av, kv)));
        assert(table_keys(new_view) =~= table_keys(old_view).push(av));
        self.entries = entries;
    }
}

/// Every setting of the application.
#[derive(Debug)]
pub struct Config {
    pub general: GeneralConfig,
    pub audio: AudioConfig,
    pub playback: PlaybackConfig,
    pub queue: QueueConfig,
    pub library: LibraryConfig,
    pub search: SearchConfig,
    pub display: DisplayConfig,
    pub history: HistoryConfig,
    pub behavior: BehaviorConfig,
    pub ui: UiConfig,
    pub keybinds: Keybinds,
}

/// Why a setting could not be written.
#[derive(Debug)]
pub enum ConfigError {
    /// No setting has this dot path.
    UnknownKey(String),
    /// The text is not a value of the setting's type.
    InvalidType { key: String, expected: String },
    /// The setting holds a floating-point number, which this table does not
    /// read or write; the caller handles it.
    FloatSetting { key: String },
}

pub enum ConfigErrorView {
    UnknownKey(Seq<char>),
    InvalidType { key: Seq<char>, expected: Seq<char> },
    FloatSetting { key: Seq<char> },
}

impl View for ConfigError {
    type V = ConfigErrorView;

    open spec fn view(&self) -> ConfigErrorView {
        match self {
            ConfigError::UnknownKey(k) => ConfigErrorView::UnknownKey(k@),
            ConfigError::InvalidType { key, expected } => ConfigErrorView::InvalidType {
                key: key@,
                expected: expected@,
            },
            ConfigError::FloatSetting { key } => ConfigErrorView::FloatSetting { key: key@ },
        }
    }
}

/// The view of the result of writing a setting.
pub open spec fn set_result_view(r: Result<(), ConfigError>) -> Result<(), ConfigErrorView> {
    match r {
        Ok(()) => Ok(()),
        Err(e) => Err(e@),
    }
}

/// A change of the configuration, for those who follow it.
#[derive(Debug)]
pub enum ConfigEvent {
    KeyChanged { key: String, old_value: Option<String>, new_value: String },
    Reloaded,
}

/// Something that follows configuration changes.
pub trait ConfigSubscriber: Send + 'static {
    fn on_config_event(&mut self, event: &ConfigEvent);
}

// ---------------------------------------------------------------------------
// The dot-path table
// ---------------------------------------------------------------------------

/// The setting that a dot path names.
#[derive(Debug)]
pub enum ConfigKey {
    GeneralDataDir,
    GeneralAutoSave,
    GeneralAutoSaveIntervalSecs,
    GeneralLanguage,
    GeneralLogLevel,
    AudioDefaultVolume,
    AudioOutputDevice,
    AudioCrossfadeSecs,
    AudioGapless,
    AudioNormalizeAudio,
    AudioReplaygainMode,
    PlaybackRepeatMode,
    PlaybackShuffleOnStart,
    PlaybackAutoPlayNext,
    PlaybackStopAtQueueEnd,
    PlaybackResumeOnStartup,
    QueueMaxSize,
    QueueClearOnPlayAll,
    QueueAppendToFront,
    LibraryScanOnStartup,
    LibraryWatchDirs,
    LibraryExcludePatterns,
    LibraryCoverSizeLimitMb,
    LibraryPreferEmbeddedCover,
    SearchFuzzyMatch,
    SearchMatchCredits,
    SearchMatchHashtags,
    SearchMatchLyrics,
    SearchMaxResults,
    DisplayTimeFormat,
    DisplayProgressBarStyle,
    DisplayShowDuration,
    DisplayShowPlaylistCount,
    DisplayNowPlayingFormat,
    HistoryMaxEntries,
    HistorySaveOnExit,
    BehaviorOnStartup,
    BehaviorOnPlaylistEnd,
    BehaviorOnError,
    UiTheme,
    UiFontSize,
    UiShowCoverArt,
    UiShowLyrics,
    UiShowQueue,
    Keybind(String),
    Unknown,
}

pub enum ConfigKeyView {
    GeneralDataDir,
    GeneralAutoSave,
    GeneralAutoSaveIntervalSecs,
    GeneralLanguage,
    GeneralLogLevel,
    AudioDefaultVolume,
    AudioOutputDevice,
    AudioCrossfadeSecs,
    AudioGapless,
    AudioNormalizeAudio,
    AudioReplaygainMode,
    PlaybackRepeatMode,
    PlaybackShuffleOnStart,
    PlaybackAutoPlayNext,
    PlaybackStopAtQueueEnd,
    PlaybackResumeOnStartup,
    QueueMaxSize,
    QueueClearOnPlayAll,
    QueueAppendToFront,
    LibraryScanOnStartup,
    LibraryWatchDirs,
    LibraryExcludePatterns,
    LibraryCoverSizeLimitMb,
    LibraryPreferEmbeddedCover,
    SearchFuzzyMatch,
    SearchMatchCredits,
    SearchMatchHashtags,
    SearchMatchLyrics,
    SearchMaxResults,
    DisplayTimeFormat,
    DisplayProgressBarStyle,
    DisplayShowDuration,
    DisplayShowPlaylistCount,
    DisplayNowPlayingFormat,
    HistoryMaxEntries,
    HistorySaveOnExit,
    BehaviorOnStartup,
    BehaviorOnPlaylistEnd,
    BehaviorOnError,
    UiTheme,
    UiFontSize,
    UiShowCoverArt,
    UiShowLyrics,
    UiShowQueue,
    Keybind(Seq<char>),
    Unknown,
}

impl View for ConfigKey {
    type V = ConfigKeyView;

    open spec fn view(&self) -> ConfigKeyView {
        match self {
            ConfigKey::GeneralDataDir => ConfigKeyView::GeneralDataDir,
            ConfigKey::GeneralAutoSave => ConfigKeyView::GeneralAutoSave,
            ConfigKey::GeneralAutoSaveIntervalSecs => ConfigKeyView::GeneralAutoSaveIntervalSecs,
            ConfigKey::GeneralLanguage => ConfigKeyView::GeneralLanguage,
            ConfigKey::GeneralLogLevel => ConfigKeyView::GeneralLogLevel,
            ConfigKey::AudioDefaultVolume => ConfigKeyView::AudioDefaultVolume,
            ConfigKey::AudioOutputDevice => ConfigKeyView::AudioOutputDevice,
            ConfigKey::AudioCrossfadeSecs => ConfigKeyView::AudioCrossfadeSecs,
            ConfigKey::AudioGapless => ConfigKeyView::AudioGapless,
            ConfigKey::AudioNormalizeAudio => ConfigKeyView::AudioNormalizeAudio,
            ConfigKey::AudioReplaygainMode => ConfigKeyView::AudioReplaygainMode,
            ConfigKey::PlaybackRepeatMode => ConfigKeyView::PlaybackRepeatMode,
            ConfigKey::PlaybackShuffleOnStart => ConfigKeyView::PlaybackShuffleOnStart,
            ConfigKey::PlaybackAutoPlayNext => ConfigKeyView::PlaybackAutoPlayNext,
            ConfigKey::PlaybackStopAtQueueEnd => ConfigKeyView::PlaybackStopAtQueueEnd,
            ConfigKey::PlaybackResumeOnStartup => ConfigKeyView::PlaybackResumeOnStartup,
            ConfigKey::QueueMaxSize => ConfigKeyView::QueueMaxSize,
            ConfigKey::QueueClearOnPlayAll => ConfigKeyView::QueueClearOnPlayAll,
            ConfigKey::QueueAppendToFront => ConfigKeyView::QueueAppendToFront,
            ConfigKey::LibraryScanOnStartup => ConfigKeyView::LibraryScanOnStartup,
            ConfigKey::LibraryWatchDirs => ConfigKeyView::LibraryWatchDirs,
            ConfigKey::LibraryExcludePatterns => ConfigKeyView::LibraryExcludePatterns,
            ConfigKey::LibraryCoverSizeLimitMb => ConfigKeyView::LibraryCoverSizeLimitMb,
            ConfigKey::LibraryPreferEmbeddedCover => ConfigKeyView::LibraryPreferEmbeddedCover,
            ConfigKey::SearchFuzzyMatch => ConfigKeyView::SearchFuzzyMatch,
            ConfigKey::SearchMatchCredits => ConfigKeyView::SearchMatchCredits,
            ConfigKey::SearchMatchHashtags => ConfigKeyView::SearchMatchHashtags,
            ConfigKey::SearchMatchLyrics => ConfigKeyView::SearchMatchLyrics,
            ConfigKey::SearchMaxResults => ConfigKeyView::SearchMaxResults,
            ConfigKey::DisplayTimeFormat => ConfigKeyView::DisplayTimeFormat,
            ConfigKey::DisplayProgressBarStyle => ConfigKeyView::DisplayProgressBarStyle,
            ConfigKey::DisplayShowDuration => ConfigKeyView::DisplayShowDuration,
            ConfigKey::DisplayShowPlaylistCount => ConfigKeyView::DisplayShowPlaylistCount,
            ConfigKey::DisplayNowPlayingFormat => ConfigKeyView::DisplayNowPlayingFormat,
            ConfigKey::HistoryMaxEntries => ConfigKeyView::HistoryMaxEntries,
            ConfigKey::HistorySaveOnExit => ConfigKeyView::HistorySaveOnExit,
            ConfigKey::BehaviorOnStartup => ConfigKeyView::BehaviorOnStartup,
            ConfigKey::BehaviorOnPlaylistEnd => ConfigKeyView::BehaviorOnPlaylistEnd,
            ConfigKey::BehaviorOnError => ConfigKeyView::BehaviorOnError,
            ConfigKey::UiTheme => ConfigKeyView::UiTheme,
            ConfigKey::UiFontSize => ConfigKeyView::UiFontSize,
            ConfigKey::UiShowCoverArt => ConfigKeyView::UiShowCoverArt,
            ConfigKey::UiShowLyrics => ConfigKeyView::UiShowLyrics,
            ConfigKey::UiShowQueue => ConfigKeyView::UiShowQueue,
            ConfigKey::Keybind(a) => ConfigKeyView::Keybind(a@),
            ConfigKey::Unknown => ConfigKeyView::Unknown,
        }
    }
}

/// The setting that the two dot-path segments `s` and `f` name.
pub open spec fn key_of_segments(s: Seq<char>, f: Seq<char>) -> ConfigKeyView {
    if s == "general"@ && f == "data_dir"@ {
        ConfigKeyView::GeneralDataDir
    } else if s == "general"@ && f == "auto_save"@ {
        ConfigKeyView::GeneralAutoSave
    } else if s == "general"@ && f == "auto_save_interval_secs"@ {
        ConfigKeyView::GeneralAutoSaveIntervalSecs
    } else if s == "general"@ && f == "language"@ {
        ConfigKeyView::GeneralLanguage
    } else if s == "general"@ && f == "log_level"@ {
        ConfigKeyView::GeneralLogLevel
    } else if s == "audio"@ && f == "default_volume"@ {
        ConfigKeyView::AudioDefaultVolume
    } else if s == "audio"@ && f == "output_device"@ {
        ConfigKeyView::AudioOutputDevice
    } else if s == "audio"@ && f == "crossfade_secs"@ {
        ConfigKeyView::AudioCrossfadeSecs
    } else if s == "audio"@ && f == "gapless"@ {
        ConfigKeyView::AudioGapless
    } else if s == "audio"@ && f == "normalize_audio"@ {
        ConfigKeyView::AudioNormalizeAudio
    } else if s == "audio"@ && f == "replaygain_mode"@ {
        ConfigKeyView::AudioReplaygainMode
    } else if s == "playback"@ && f == "repeat_mode"@ {
        ConfigKeyView::PlaybackRepeatMode
    } else if s == "playback"@ && f == "shuffle_on_start"@ {
        ConfigKeyView::PlaybackShuffleOnStart
    } else if s == "playback"@ && f == "auto_play_next"@ {
        ConfigKeyView::PlaybackAutoPlayNext
    } else if s == "playback"@ && f == "stop_at_queue_end"@ {
        ConfigKeyView::PlaybackStopAtQueueEnd
    } else if s == "playback"@ && f == "resume_on_startup"@ {
        ConfigKeyView::PlaybackResumeOnStartup
    } else if s == "queue"@ && f == "max_size"@ {
        ConfigKeyView::QueueMaxSize
    } else if s == "queue"@ && f == "clear_on_play_all"@ {
        ConfigKeyView::QueueClearOnPlayAll
    } else if s == "queue"@ && f == "append_to_front"@ {
        ConfigKeyView::QueueAppendToFront
    } else if s == "library"@ && f == "scan_on_startup"@ {
        ConfigKeyView::LibraryScanOnStartup
    } else if s == "library"@ && f == "watch_dirs"@ {
        ConfigKeyView::LibraryWatchDirs
    } else if s == "library"@ && f == "exclude_patterns"@ {
        ConfigKeyView::LibraryExcludePatterns
    } else if s == "library"@ && f == "cover_size_limit_mb"@ {
        ConfigKeyView::LibraryCoverSizeLimitMb
    } else if s == "library"@ && f == "prefer_embedded_cover"@ {
        ConfigKeyView::LibraryPreferEmbeddedCover
    } else if s == "search"@ && f == "fuzzy_match"@ {
        ConfigKeyView::SearchFuzzyMatch
    } else if s == "search"@ && f == "match_credits"@ {
        ConfigKeyView::SearchMatchCredits
    } else if s == "search"@ && f == "match_hashtags"@ {
        ConfigKeyView::SearchMatchHashtags
    } else if s == "search"@ && f == "match_lyrics"@ {
        ConfigKeyView::SearchMatchLyrics
    } else if s == "search"@ && f == "max_results"@ {
        ConfigKeyView::SearchMaxResults
    } else if s == "display"@ && f == "time_format"@ {
        ConfigKeyView::DisplayTimeFormat
    } else if s == "display"@ && f == "progress_bar_style"@ {
        ConfigKeyView::DisplayProgressBarStyle
    } else if s == "display"@ && f == "show_duration"@ {
        ConfigKeyView::DisplayShowDuration
    } else if s == "display"@ && f == "show_playlist_count"@ {
        ConfigKeyView::DisplayShowPlaylistCount
    } else if s == "display"@ && f == "now_playing_format"@ {
        ConfigKeyView::DisplayNowPlayingFormat
    } else if s == "history"@ && f == "max_entries"@ {
        ConfigKeyView::HistoryMaxEntries
    } else if s == "history"@ && f == "save_on_exit"@ {
        ConfigKeyView::HistorySaveOnExit
    } else if s == "behavior"@ && f == "on_startup"@ {
        ConfigKeyView::BehaviorOnStartup
    } else if s == "behavior"@ && f == "on_playlist_end"@ {
        ConfigKeyView::BehaviorOnPlaylistEnd
    } else if s == "behavior"@ && f == "on_error"@ {
        ConfigKeyView::BehaviorOnError
    } else if s == "ui"@ && f == "theme"@ {
        ConfigKeyView::UiTheme
    } else if s == "ui"@ && f == "font_size"@ {
        ConfigKeyView::UiFontSize
    } else if s == "ui"@ && f == "show_cover_art"@ {
        ConfigKeyView::UiShowCoverArt
    } else if s == "ui"@ && f == "show_lyrics"@ {
        ConfigKeyView::UiShowLyrics
    } else if s == "ui"@ && f == "show_queue"@ {
        ConfigKeyView::UiShowQueue
    } else if s == "keybinds"@ {
        ConfigKeyView::Keybind(f)
    } else {
        ConfigKeyView::Unknown
    }
}

/// The setting that a dot path names: exactly two segments separated by a
/// dot, a known section and field, or `keybinds` and any action.
pub open spec fn config_key(path: Seq<char>) -> ConfigKeyView {
    let segs = split_on(path, '.');
    if segs.len() == 2 {
        key_of_segments(segs[0], segs[1])
    } else {
        ConfigKeyView::Unknown
    }
}

/// The setting that the segments name.
fn classify_segments(s: &str, f: &str) -> (r: ConfigKey)
    ensures
        r@ == key_of_segments(s@, f@),
{
    if text_eq(s, "general") && text_eq(f, "data_dir") {
        ConfigKey::GeneralDataDir
    } else if text_eq(s, "general") && text_eq(f, "auto_save") {
        ConfigKey::GeneralAutoSave
    } else if text_eq(s, "general") && text_eq(f, "auto_save_interval_secs") {
        ConfigKey::GeneralAutoSaveIntervalSecs
    } else if text_eq(s, "general") && text_eq(f, "language") {
        ConfigKey::GeneralLanguage
    } else if text_eq(s, "general") && text_eq(f, "log_level") {
        ConfigKey::GeneralLogLevel
    } else if text_eq(s, "audio") && text_eq(f, "default_volume") {
        ConfigKey::AudioDefaultVolume
    } else if text_eq(s, "audio") && text_eq(f, "output_device") {
        ConfigKey::AudioOutputDevice
    } else if text_eq(s, "audio") && text_eq(f, "crossfade_secs") {
        ConfigKey::AudioCrossfadeSecs
    } else if text_eq(s, "audio") && text_eq(f, "gapless") {
        ConfigKey::AudioGapless
    } else if text_eq(s, "audio") && text_eq(f, "normalize_audio") {
        ConfigKey::AudioNormalizeAudio
    } else if text_eq(s, "audio") && text_eq(f, "replaygain_mode") {
        ConfigKey::AudioReplaygainMode
    } else if text_eq(s, "playback") && text_eq(f, "repeat_mode") {
        ConfigKey::PlaybackRepeatMode
    } else if text_eq(s, "playback") && text_eq(f, "shuffle_on_start") {
        ConfigKey::PlaybackShuffleOnStart
    } else if text_eq(s, "playback") && text_eq(f, "auto_play_next") {
        ConfigKey::PlaybackAutoPlayNext
    } else if text_eq(s, "playback") && text_eq(f, "stop_at_queue_end") {
        ConfigKey::PlaybackStopAtQueueEnd
    } else if text_eq(s, "playback") && text_eq(f, "resume_on_startup") {
        ConfigKey::PlaybackResumeOnStartup
    } else if text_eq(s, "queue") && text_eq(f, "max_size") {
        ConfigKey::QueueMaxSize
    } else if text_eq(s, "queue") && text_eq(f, "clear_on_play_all") {
        ConfigKey::QueueClearOnPlayAll
    } else if text_eq(s, "queue") && text_eq(f, "append_to_front") {
        ConfigKey::QueueAppendToFront
    } else if text_eq(s, "library") && text_eq(f, "scan_on_startup") {
        ConfigKey::LibraryScanOnStartup
    } else if text_eq(s, "library") && text_eq(f, "watch_dirs") {
        ConfigKey::LibraryWatchDirs
    } else if text_eq(s, "library") && text_eq(f, "exclude_patterns") {
        ConfigKey::LibraryExcludePatterns
    } else if text_eq(s, "library") && text_eq(f, "cover_size_limit_mb") {
        ConfigKey::LibraryCoverSizeLimitMb
    } else if text_eq(s, "library") && text_eq(f, "prefer_embedded_cover") {
        ConfigKey::LibraryPreferEmbeddedCover
    } else if text_eq(s, "search") && text_eq(f, "fuzzy_match") {
        ConfigKey::SearchFuzzyMatch
    } else if text_eq(s, "search") && text_eq(f, "match_credits") {
        ConfigKey::SearchMatchCredits
    } else if text_eq(s, "search") && text_eq(f, "match_hashtags") {
        ConfigKey::SearchMatchHashtags
    } else if text_eq(s, "search") && text_eq(f, "match_lyrics") {
        ConfigKey::SearchMatchLyrics
    } else if text_eq(s, "search") && text_eq(f, "max_results") {
        ConfigKey::SearchMaxResults
    } else if text_eq(s, "display") && text_eq(f, "time_format") {
        ConfigKey::DisplayTimeFormat
    } else if text_eq(s, "display") && text_eq(f, "progress_bar_style") {
        ConfigKey::DisplayProgressBarStyle
    } else if text_eq(s, "display") && text_eq(f, "show_duration") {
        ConfigKey::DisplayShowDuration
    } else if text_eq(s, "display") && text_eq(f, "show_playlist_count") {
        ConfigKey::DisplayShowPlaylistCount
    } else if text_eq(s, "display") && text_eq(f, "now_playing_format") {
        ConfigKey::DisplayNowPlayingFormat
    } else if text_eq(s, "history") && text_eq(f, "max_entries") {
        ConfigKey::HistoryMaxEntries
    } else if text_eq(s, "history") && text_eq(f, "save_on_exit") {
        ConfigKey::HistorySaveOnExit
    } else if text_eq(s, "behavior") && text_eq(f, "on_startup") {
        ConfigKey::BehaviorOnStartup
    } else if text_eq(s, "behavior") && text_eq(f, "on_playlist_end") {
        ConfigKey::BehaviorOnPlaylistEnd
    } else if text_eq(s, "behavior") && text_eq(f, "on_error") {
        ConfigKey::BehaviorOnError
    } else if text_eq(s, "ui") && text_eq(f, "theme") {
        ConfigKey::UiTheme
    } else if text_eq(s, "ui") && text_eq(f, "font_size") {
        ConfigKey::UiFontSize
    } else if text_eq(s, "ui") && text_eq(f, "show_cover_art") {
        ConfigKey::UiShowCoverArt
    } else if text_eq(s, "ui") && text_eq(f, "show_lyrics") {
        ConfigKey::UiShowLyrics
    } else if text_eq(s, "ui") && text_eq(f, "show_queue") {
        ConfigKey::UiShowQueue
    } else if text_eq(s, "keybinds") {
        ConfigKey::Keybind(owned(f))
    } else {
        ConfigKey::Unknown
    }
}

/// The value that `output_device` takes from its text: none for `null` (in
/// any ASCII case) or the empty text.
pub open spec fn optional_text(v: Seq<char>) -> Option<Seq<char>> {
    if eq_ignore_ascii_case(v, "null"@) || v.len() == 0 {
        None
    } else {
        Some(v)
    }
}

/// The list that a comma-separated text denotes: its pieces, each trimmed.
pub open spec fn trimmed_pieces(v: Seq<char>) -> Seq<Seq<char>> {
    split_on(v, ',').map_values(|p: Seq<char>| trimmed(p))
}

fn optional_string(v: &str) -> (r: Option<String>)
    ensures
        opt_text(r) == optional_text(v@),
{
    if text_eq_ignore_ascii_case(v, "null") || v.unicode_len() == 0 {
        None
    } else {
        Some(owned(v))
    }
}

pub(crate) fn trimmed_strings(v: &str) -> (r: Vec<String>)
    ensures
        views(r@) == trimmed_pieces(v@),
{
    let pieces = split_text(v, ',');
    let mut r: Vec<String> = Vec::new();
    let mut i: usize = 0;
    while i < pieces.len()
        invariant
            i <= pieces.len(),
            views(pieces@) == split_on(v@, ','),
            views(r@) == trimmed_pieces(v@).subrange(0, i as int),
        decreases pieces.len() - i,
    {
        let ghost before = views(r@);
        let t = owned(trim(pieces[i].as_str()));
        assert(t@ == trimmed(views(pieces@)[i as int]));
        r.push(t);
        assert(views(r@) =~= before.push(t@));
        i = i + 1;
        assert(trimmed_pieces(v@).subrange(0, i as int) =~= before.push(t@));
    }
    assert(trimmed_pieces(v@).subrange(0, pieces.len() as int) =~= trimmed_pieces(v@));
    r
}

/// The result of writing `value` to the setting `k` (named by `key`).
pub open spec fn set_result(k: ConfigKeyView, key: Seq<char>, value: Seq<char>) -> Result<(), ConfigErrorView> {
    match k {
        ConfigKeyView::GeneralAutoSave => if parse_bool_text(value) is None {
            Err(ConfigErrorView::InvalidType { key, expected: "bool"@ })
        } else {
            Ok(())
        },
        ConfigKeyView::GeneralAutoSaveIntervalSecs => if parse_unsigned(value, u64::MAX as nat) is None {
            Err(ConfigErrorView::InvalidType { key, expected: "u64"@ })
        } else {
            Ok(())
        },
        ConfigKeyView::AudioDefaultVolume => Err(ConfigErrorView::FloatSetting { key }),
        ConfigKeyView::AudioCrossfadeSecs => if parse_unsigned(value, u64::MAX as nat) is None {
            Err(ConfigErrorView::InvalidType { key, expected: "u64"@ })
        } else {
            Ok(())
        },
        ConfigKeyView::AudioGapless => if parse_bool_text(value) is None {
            Err(ConfigErrorView::InvalidType { key, expected: "bool"@ })
        } else {
            Ok(())
        },
        ConfigKeyView::AudioNormalizeAudio => if parse_bool_text(value) is None {
            Err(ConfigErrorView::InvalidType { key, expected: "bool"@ })
        } else {
            Ok(())
        },
        ConfigKeyView::PlaybackShuffleOnStart => if parse_bool_text(value) is None {
            Err(ConfigErrorView::InvalidType { key, expected: "bool"@ })
        } else {
            Ok(())
        },
        ConfigKeyView::PlaybackAutoPlayNext => if parse_bool_text(value) is None {
            Err(ConfigErrorView::InvalidType { key, expected: "bool"@ })
        } else {
            Ok(())
        },
        ConfigKeyView::PlaybackStopAtQueueEnd => if parse_bool_text(value) is None {
            Err(ConfigErrorView::InvalidType { key, expected: "bool"@ })
        } else {
            Ok(())
        },
        ConfigKeyView::PlaybackResumeOnStartup => if parse_bool_text(value) is None {
            Err(ConfigErrorView::InvalidType { key, expected: "bool"@ })
        } else {
            Ok(())
        },
        ConfigKeyView::QueueMaxSize => if parse_unsigned(value, u64::MAX as nat) is None {
            Err(ConfigErrorView::InvalidType { key, expected: "u64"@ })
        } else {
            Ok(())
        },
        ConfigKeyView::QueueClearOnPlayAll => if parse_bool_text(value) is None {
            Err(ConfigErrorView::InvalidType { key, expected: "bool"@ })
        } else {
            Ok(())
        },
        ConfigKeyView::QueueAppendToFront => if parse_bool_text(value) is None {
            Err(ConfigErrorView::InvalidType { key, expected: "bool"@ })
        } else {
            Ok(())
        },
        ConfigKeyView::LibraryScanOnStartup => if parse_bool_text(value) is None {
            Err(ConfigErrorView::InvalidType { key, expected: "bool"@ })
        } else {
            Ok(())
        },
        ConfigKeyView::LibraryCoverSizeLimitMb => if parse_unsigned(value, u64::MAX as nat) is None {
            Err(ConfigErrorView::InvalidType { key, expected: "u64"@ })
        } else {
            Ok(())
        },
        ConfigKeyView::LibraryPreferEmbeddedCover => if parse_bool_text(value) is None {
            Err(ConfigErrorView::InvalidType { key, expected: "bool"@ })
        } else {
            Ok(())
        },
        ConfigKeyView::SearchFuzzyMatch => if parse_bool_text(value) is None {
            Err(ConfigErrorView::InvalidType { key, expected: "bool"@ })
        } else {
            Ok(())
        },
        ConfigKeyView::SearchMatchCredits => if parse_bool_text(value) is None {
            Err(ConfigErrorView::InvalidType { key, expected: "bool"@ })
        } else {
            Ok(())
        },
        ConfigKeyView::SearchMatchHashtags => if parse_bool_text(value) is None {
            Err(ConfigErrorView::InvalidType { key, expected: "bool"@ })
        } else {
            Ok(())
        },
        ConfigKeyView::SearchMatchLyrics => if parse_bool_text(value) is None {
            Err(ConfigErrorView::InvalidType { key, expected: "bool"@ })
        } else {
            Ok(())
        },
        ConfigKeyView::SearchMaxResults => if parse_unsigned(value, u64::MAX as nat) is None {
            Err(ConfigErrorView::InvalidType { key, expected: "u64"@ })
        } else {
            Ok(())
        },
        ConfigKeyView::DisplayShowDuration => if parse_bool_text(value) is None {
            Err(ConfigErrorView::InvalidType { key, expected: "bool"@ })
        } else {
            Ok(())
        },
        ConfigKeyView::DisplayShowPlaylistCount => if parse_bool_text(value) is None {
            Err(ConfigErrorView::InvalidType { key, expected: "bool"@ })
        } else {
            Ok(())
        },
        ConfigKeyView::HistoryMaxEntries => if parse_unsigned(value, u64::MAX as nat) is None {
            Err(ConfigErrorView::InvalidType { key, expected: "u64"@ })
        } else {
            Ok(())
        },
        ConfigKeyView::HistorySaveOnExit => if parse_bool_text(value) is None {
            Err(ConfigErrorView::InvalidType { key, expected: "bool"@ })
        } else {
            Ok(())
        },
        ConfigKeyView::UiFontSize => if parse_unsigned(value, u64::MAX as nat) is None {
            Err(ConfigErrorView::InvalidType { key, expected: "u64"@ })
        } else {
            Ok(())
        },
        ConfigKeyView::UiShowCoverArt => if parse_bool_text(value) is None {
            Err(ConfigErrorView::InvalidType { key, expected: "bool"@ })
        } else {
            Ok(())
        },
        ConfigKeyView::UiShowLyrics => if parse_bool_text(value) is None {
            Err(ConfigErrorView::InvalidType { key, expected: "bool"@ })
        } else {
            Ok(())
        },
        ConfigKeyView::UiShowQueue => if parse_bool_text(value) is None {
            Err(ConfigErrorView::InvalidType { key, expected: "bool"@ })
        } else {
            Ok(())
        },
        ConfigKeyView::Unknown => Err(ConfigErrorView::UnknownKey(key)),
        _ => Ok(()),
    }
}

/// The configuration `new` is `old` with the setting `k` written from
/// `value` (when the write succeeds).
pub open spec fn written(old: Config, new: Config, k: ConfigKeyView, value: Seq<char>) -> bool {
    match k {
        ConfigKeyView::GeneralDataDir => new == Config { general: GeneralConfig { data_dir: new.general.data_dir, ..old.general }, ..old } && new.general.data_dir@ == value,
        ConfigKeyView::GeneralAutoSave => new == Config { general: GeneralConfig { auto_save: parse_bool_text(value).unwrap(), ..old.general }, ..old },
        ConfigKeyView::GeneralAutoSaveIntervalSecs => new == Config { general: GeneralConfig { auto_save_interval_secs: parse_unsigned(value, u64::MAX as nat).unwrap() as u64, ..old.general }, ..old },
        ConfigKeyView::GeneralLanguage => new == Config { general: GeneralConfig { language: new.general.language, ..old.general }, ..old } && new.general.language@ == value,
        ConfigKeyView::GeneralLogLevel => new == Config { general: GeneralConfig { log_level: new.general.log_level, ..old.general }, ..old } && new.general.log_level@ == value,
        ConfigKeyView::AudioDefaultVolume => new == old,
        ConfigKeyView::AudioOutputDevice => new == Config { audio: AudioConfig { output_device: new.audio.output_device, ..old.audio }, ..old } && opt_text(new.audio.output_device) == optional_text(value),
        ConfigKeyView::AudioCrossfadeSecs => new == Config { audio: AudioConfig { crossfade_secs: parse_unsigned(value, u64::MAX as nat).unwrap() as u32, ..old.audio }, ..old },
        ConfigKeyView::AudioGapless => new == Config { audio: AudioConfig { gapless: parse_bool_text(value).unwrap(), ..old.audio }, ..old },
        ConfigKeyView::AudioNormalizeAudio => new == Config { audio: AudioConfig { normalize_audio: parse_bool_text(value).unwrap(), ..old.audio }, ..old },
        ConfigKeyView::AudioReplaygainMode => new == Config { audio: AudioConfig { replaygain_mode: new.audio.replaygain_mode, ..old.audio }, ..old } && new.audio.replaygain_mode@ == value,
        ConfigKeyView::PlaybackRepeatMode => new == Config { playback: PlaybackConfig { repeat_mode: new.playback.repeat_mode, ..old.playback }, ..old } && new.playback.repeat_mode@ == value,
        ConfigKeyView::PlaybackShuffleOnStart => new == Config { playback: PlaybackConfig { shuffle_on_start: parse_bool_text(value).unwrap(), ..old.playback }, ..old },
        ConfigKeyView::PlaybackAutoPlayNext => new == Config { playback: PlaybackConfig { auto_play_next: parse_bool_text(value).unwrap(), ..old.playback }, ..old },
        ConfigKeyView::PlaybackStopAtQueueEnd => new == Config { playback: PlaybackConfig { stop_at_queue_end: parse_bool_text(value).unwrap(), ..old.playback }, ..old },
        ConfigKeyView::PlaybackResumeOnStartup => new == Config { playback: PlaybackConfig { resume_on_startup: parse_bool_text(value).unwrap(), ..old.playback }, ..old },
        ConfigKeyView::QueueMaxSize => new == Config { queue: QueueConfig { max_size: parse_unsigned(value, u64::MAX as nat).unwrap() as usize, ..old.queue }, ..old },
        ConfigKeyView::QueueClearOnPlayAll => new == Config { queue: QueueConfig { clear_on_play_all: parse_bool_text(value).unwrap(), ..old.queue }, ..old },
        ConfigKeyView::QueueAppendToFront => new == Config { queue: QueueConfig { append_to_front: parse_bool_text(value).unwrap(), ..old.queue }, ..old },
        ConfigKeyView::LibraryScanOnStartup => new == Config { library: LibraryConfig { scan_on_startup: parse_bool_text(value).unwrap(), ..old.library }, ..old },
        ConfigKeyView::LibraryWatchDirs => new == Config { library: LibraryConfig { watch_dirs: new.library.watch_dirs, ..old.library }, ..old } && views(new.library.watch_dirs@) == trimmed_pieces(value),
        ConfigKeyView::LibraryExcludePatterns => new == Config { library: LibraryConfig { exclude_patterns: new.library.exclude_patterns, ..old.library }, ..old } && views(new.library.exclude_patterns@) == trimmed_pieces(value),
        ConfigKeyView::LibraryCoverSizeLimitMb => new == Config { library: LibraryConfig { cover_size_limit_mb: parse_unsigned(value, u64::MAX as nat).unwrap() as u32, ..old.library }, ..old },
        ConfigKeyView::LibraryPreferEmbeddedCover => new == Config { library: LibraryConfig { prefer_embedded_cover: parse_bool_text(value).unwrap(), ..old.library }, ..old },
        ConfigKeyView::SearchFuzzyMatch => new == Config { search: SearchConfig { fuzzy_match: parse_bool_text(value).unwrap(), ..old.search }, ..old },
        ConfigKeyView::SearchMatchCredits => new == Config { search: SearchConfig { match_credits: parse_bool_text(value).unwrap(), ..old.search }, ..old },
        ConfigKeyView::SearchMatchHashtags => new == Config { search: SearchConfig { match_hashtags: parse_bool_text(value).unwrap(), ..old.search }, ..old },
        ConfigKeyView::SearchMatchLyrics => new == Config { search: SearchConfig { match_lyrics: parse_bool_text(value).unwrap(), ..old.search }, ..old },
        ConfigKeyView::SearchMaxResults => new == Config { search: SearchConfig { max_results: parse_unsigned(value, u64::MAX as nat).unwrap() as usize, ..old.search }, ..old },
        ConfigKeyView::DisplayTimeFormat => new == Config { display: DisplayConfig { time_format: new.display.time_format, ..old.display }, ..old } && new.display.time_format@ == value,
        ConfigKeyView::DisplayProgressBarStyle => new == Config { display: DisplayConfig { progress_bar_style: new.display.progress_bar_style, ..old.display }, ..old } && new.display.progress_bar_style@ == value,
        ConfigKeyView::DisplayShowDuration => new == Config { display: DisplayConfig { show_duration: parse_bool_text(value).unwrap(), ..old.display }, ..old },
        ConfigKeyView::DisplayShowPlaylistCount => new == Config { display: DisplayConfig { show_playlist_count: parse_bool_text(value).unwrap(), ..old.display }, ..old },
        ConfigKeyView::DisplayNowPlayingFormat => new == Config { display: DisplayConfig { now_playing_format: new.display.now_playing_format, ..old.display }, ..old } && new.display.now_playing_format@ == value,
        ConfigKeyView::HistoryMaxEntries => new == Config { history: HistoryConfig { max_entries: parse_unsigned(value, u64::MAX as nat).unwrap() as usize, ..old.history }, ..old },
        ConfigKeyView::HistorySaveOnExit => new == Config { history: HistoryConfig { save_on_exit: parse_bool_text(value).unwrap(), ..old.history }, ..old },
        ConfigKeyView::BehaviorOnStartup => new == Config { behavior: BehaviorConfig { on_startup: new.behavior.on_startup, ..old.behavior }, ..old } && new.behavior.on_startup@ == value,
        ConfigKeyView::BehaviorOnPlaylistEnd => new == Config { behavior: BehaviorConfig { on_playlist_end: new.behavior.on_playlist_end, ..old.behavior }, ..old } && new.behavior.on_playlist_end@ == value,
        ConfigKeyView::BehaviorOnError => new == Config { behavior: BehaviorConfig { on_error: new.behavior.on_error, ..old.behavior }, ..old } && new.behavior.on_error@ == value,
        ConfigKeyView::UiTheme => new == Config { ui: UiConfig { theme: new.ui.theme, ..old.ui }, ..old } && new.ui.theme@ == value,
        ConfigKeyView::UiFontSize => new == Config { ui: UiConfig { font_size: parse_unsigned(value, u64::MAX as nat).unwrap() as u16, ..old.ui }, ..old },
        ConfigKeyView::UiShowCoverArt => new == Config { ui: UiConfig { show_cover_art: parse_bool_text(value).unwrap(), ..old.ui }, ..old },
        ConfigKeyView::UiShowLyrics => new == Config { ui: UiConfig { show_lyrics: parse_bool_text(value).unwrap(), ..old.ui }, ..old },
        ConfigKeyView::UiShowQueue => new == Config { ui: UiConfig { show_queue: parse_bool_text(value).unwrap(), ..old.ui }, ..old },
        ConfigKeyView::Keybind(a) => new == (Config { keybinds: new.keybinds, ..old }) && new.keybinds@
            == table_insert(old.keybinds@, a, value),
        ConfigKeyView::Unknown => new == old,
    }
}

/// The text of the setting `k`, if `k` names a setting that has one.
pub open spec fn get_spec(c: Config, k: ConfigKeyView) -> Option<Seq<char>> {
    match k {
        ConfigKeyView::GeneralDataDir => Some(c.general.data_dir@),
        ConfigKeyView::GeneralAutoSave => Some(bool_text(c.general.auto_save)),
        ConfigKeyView::GeneralAutoSaveIntervalSecs => Some(decimal(c.general.auto_save_interval_secs as nat)),
        ConfigKeyView::GeneralLanguage => Some(c.general.language@),
        ConfigKeyView::GeneralLogLevel => Some(c.general.log_level@),
        ConfigKeyView::AudioDefaultVolume => None,
        ConfigKeyView::AudioOutputDevice => opt_text(c.audio.output_device),
        ConfigKeyView::AudioCrossfadeSecs => Some(decimal(c.audio.crossfade_secs as nat)),
        ConfigKeyView::AudioGapless => Some(bool_text(c.audio.gapless)),
        ConfigKeyView::AudioNormalizeAudio => Some(bool_text(c.audio.normalize_audio)),
        ConfigKeyView::AudioReplaygainMode => Some(c.audio.replaygain_mode@),
        ConfigKeyView::PlaybackRepeatMode => Some(c.playback.repeat_mode@),
        ConfigKeyView::PlaybackShuffleOnStart => Some(bool_text(c.playback.shuffle_on_start)),
        ConfigKeyView::PlaybackAutoPlayNext => Some(bool_text(c.playback.auto_play_next)),
        ConfigKeyView::PlaybackStopAtQueueEnd => Some(bool_text(c.playback.stop_at_queue_end)),
        ConfigKeyView::PlaybackResumeOnStartup => Some(bool_text(c.playback.resume_on_startup)),
        ConfigKeyView::QueueMaxSize => Some(decimal(c.queue.max_size as nat)),
        ConfigKeyView::QueueClearOnPlayAll => Some(bool_text(c.queue.clear_on_play_all)),
        ConfigKeyView::QueueAppendToFront => Some(bool_text(c.queue.append_to_front)),
        ConfigKeyView::LibraryScanOnStartup => Some(bool_text(c.library.scan_on_startup)),
        ConfigKeyView::LibraryWatchDirs => Some(join_with(views(c.library.watch_dirs@), ", "@)),
        ConfigKeyView::LibraryExcludePatterns => Some(join_with(views(c.library.exclude_patterns@), ", "@)),
        ConfigKeyView::LibraryCoverSizeLimitMb => Some(decimal(c.library.cover_size_limit_mb as nat)),
        ConfigKeyView::LibraryPreferEmbeddedCover => Some(bool_text(c.library.prefer_embedded_cover)),
        ConfigKeyView::SearchFuzzyMatch => Some(bool_text(c.search.fuzzy_match)),
        ConfigKeyView::SearchMatchCredits => Some(bool_text(c.search.match_credits)),
        ConfigKeyView::SearchMatchHashtags => Some(bool_text(c.search.match_hashtags)),
        ConfigKeyView::SearchMatchLyrics => Some(bool_text(c.search.match_lyrics)),
        ConfigKeyView::SearchMaxResults => Some(decimal(c.search.max_results as nat)),
        ConfigKeyView::DisplayTimeFormat => Some(c.display.time_format@),
        ConfigKeyView::DisplayProgressBarStyle => Some(c.display.progress_bar_style@),
        ConfigKeyView::DisplayShowDuration => Some(bool_text(c.display.show_duration)),
        ConfigKeyView::DisplayShowPlaylistCount => Some(bool_text(c.display.show_playlist_count)),
        ConfigKeyView::DisplayNowPlayingFormat => Some(c.display.now_playing_format@),
        ConfigKeyView::HistoryMaxEntries => Some(decimal(c.history.max_entries as nat)),
        ConfigKeyView::HistorySaveOnExit => Some(bool_text(c.history.save_on_exit)),
        ConfigKeyView::BehaviorOnStartup => Some(c.behavior.on_startup@),
        ConfigKeyView::BehaviorOnPlaylistEnd => Some(c.behavior.on_playlist_end@),
        ConfigKeyView::BehaviorOnError => Some(c.behavior.on_error@),
        ConfigKeyView::UiTheme => Some(c.ui.theme@),
        ConfigKeyView::UiFontSize => Some(decimal(c.ui.font_size as nat)),
        ConfigKeyView::UiShowCoverArt => Some(bool_text(c.ui.show_cover_art)),
        ConfigKeyView::UiShowLyrics => Some(bool_text(c.ui.show_lyrics)),
        ConfigKeyView::UiShowQueue => Some(bool_text(c.ui.show_queue)),
        ConfigKeyView::Keybind(a) => table_get(c.keybinds@, a),
        ConfigKeyView::Unknown => None,
    }
}

/// The section of a setting: its position among the sections, then one
/// more for key bindings and one more for unknown paths.
pub open spec fn section_of(k: ConfigKeyView) -> int {
    match k {
        ConfigKeyView::GeneralDataDir => 0,
        ConfigKeyView::GeneralAutoSave => 0,
        ConfigKeyView::GeneralAutoSaveIntervalSecs => 0,
        ConfigKeyView::GeneralLanguage => 0,
        ConfigKeyView::GeneralLogLevel => 0,
        ConfigKeyView::AudioDefaultVolume => 1,
        ConfigKeyView::AudioOutputDevice => 1,
        ConfigKeyView::AudioCrossfadeSecs => 1,
        ConfigKeyView::AudioGapless => 1,
        ConfigKeyView::AudioNormalizeAudio => 1,
        ConfigKeyView::AudioReplaygainMode => 1,
        ConfigKeyView::PlaybackRepeatMode => 2,
        ConfigKeyView::PlaybackShuffleOnStart => 2,
        ConfigKeyView::PlaybackAutoPlayNext => 2,
        ConfigKeyView::PlaybackStopAtQueueEnd => 2,
        ConfigKeyView::PlaybackResumeOnStartup => 2,
        ConfigKeyView::QueueMaxSize => 3,
        ConfigKeyView::QueueClearOnPlayAll => 3,
        ConfigKeyView::QueueAppendToFront => 3,
        ConfigKeyView::LibraryScanOnStartup => 4,
        ConfigKeyView::LibraryWatchDirs => 4,
        ConfigKeyView::LibraryExcludePatterns => 4,
        ConfigKeyView::LibraryCoverSizeLimitMb => 4,
        ConfigKeyView::LibraryPreferEmbeddedCover => 4,
        ConfigKeyView::SearchFuzzyMatch => 5,
        ConfigKeyView::SearchMatchCredits => 5,
        ConfigKeyView::SearchMatchHashtags => 5,
        ConfigKeyView::SearchMatchLyrics => 5,
        ConfigKeyView::SearchMaxResults => 5,
        ConfigKeyView::DisplayTimeFormat => 6,
        ConfigKeyView::DisplayProgressBarStyle => 6,
        ConfigKeyView::DisplayShowDuration => 6,
        ConfigKeyView::DisplayShowPlaylistCount => 6,
        ConfigKeyView::DisplayNowPlayingFormat => 6,
        ConfigKeyView::HistoryMaxEntries => 7,
        ConfigKeyView::HistorySaveOnExit => 7,
        ConfigKeyView::BehaviorOnStartup => 8,
        ConfigKeyView::BehaviorOnPlaylistEnd => 8,
        ConfigKeyView::BehaviorOnError => 8,
        ConfigKeyView::UiTheme => 9,
        ConfigKeyView::UiFontSize => 9,
        ConfigKeyView::UiShowCoverArt => 9,
        ConfigKeyView::UiShowLyrics => 9,
        ConfigKeyView::UiShowQueue => 9,
        ConfigKeyView::Keybind(_) => 10,
        ConfigKeyView::Unknown => 11,
    }
}

/// The section of a setting.
fn section_index(k: &ConfigKey) -> (r: u8)
    ensures
        r == section_of(k@),
{
    match k {
        ConfigKey::GeneralDataDir => 0,
        ConfigKey::GeneralAutoSave => 0,
        ConfigKey::GeneralAutoSaveIntervalSecs => 0,
        ConfigKey::GeneralLanguage => 0,
        ConfigKey::GeneralLogLevel => 0,
        ConfigKey::AudioDefaultVolume => 1,
        ConfigKey::AudioOutputDevice => 1,
        ConfigKey::AudioCrossfadeSecs => 1,
        ConfigKey::AudioGapless => 1,
        ConfigKey::AudioNormalizeAudio => 1,
        ConfigKey::AudioReplaygainMode => 1,
        ConfigKey::PlaybackRepeatMode => 2,
        ConfigKey::PlaybackShuffleOnStart => 2,
        ConfigKey::PlaybackAutoPlayNext => 2,
        ConfigKey::PlaybackStopAtQueueEnd => 2,
        ConfigKey::PlaybackResumeOnStartup => 2,
        ConfigKey::QueueMaxSize => 3,
        ConfigKey::QueueClearOnPlayAll => 3,
        ConfigKey::QueueAppendToFront => 3,
        ConfigKey::LibraryScanOnStartup => 4,
        ConfigKey::LibraryWatchDirs => 4,
        ConfigKey::LibraryExcludePatterns => 4,
        ConfigKey::LibraryCoverSizeLimitMb => 4,
        ConfigKey::LibraryPreferEmbeddedCover => 4,
        ConfigKey::SearchFuzzyMatch => 5,
        ConfigKey::SearchMatchCredits => 5,
        ConfigKey::SearchMatchHashtags => 5,
        ConfigKey::SearchMatchLyrics => 5,
        ConfigKey::SearchMaxResults => 5,
        ConfigKey::DisplayTimeFormat => 6,
        ConfigKey::DisplayProgressBarStyle => 6,
        ConfigKey::DisplayShowDuration => 6,
        ConfigKey::DisplayShowPlaylistCount => 6,
        ConfigKey::DisplayNowPlayingFormat => 6,
        ConfigKey::HistoryMaxEntries => 7,
        ConfigKey::HistorySaveOnExit => 7,
        ConfigKey::BehaviorOnStartup => 8,
        ConfigKey::BehaviorOnPlaylistEnd => 8,
        ConfigKey::BehaviorOnError => 8,
        ConfigKey::UiTheme => 9,
        ConfigKey::UiFontSize => 9,
        ConfigKey::UiShowCoverArt => 9,
        ConfigKey::UiShowLyrics => 9,
        ConfigKey::UiShowQueue => 9,
        ConfigKey::Keybind(_) => 10,
        ConfigKey::Unknown => 11,
    }
}

impl Config {
    /// The setting that a dot path names.
    pub fn key_of(key_path: &str) -> (r: ConfigKey)
        ensures
            r@ == config_key(key_path@),
    {
        let segs = split_text(key_path, '.');
        if segs.len() == 2 {
            classify_segments(segs[0].as_str(), segs[1].as_str())
        } else {
            ConfigKey::Unknown
        }
    }

    /// Writes the setting named by the dot path `key_path` from the text
    /// `value`: booleans read `true`/`false`, numbers read a decimal `u64`
    /// (then narrowed to the field's width), `output_device` reads `null` or
    /// the empty text as none, the two list settings read comma-separated
    /// pieces, and `keybinds.<action>` binds the action.  On an error nothing
    /// changes.
    pub fn set(&mut self, key_path: &str, value: &str) -> (r: Result<(), ConfigError>)
        ensures
            set_result_view(r) == set_result(config_key(key_path@), key_path@, value@),
            r is Ok ==> written(*old(self), *final(self), config_key(key_path@), value@),
            r is Err ==> *final(self) == *old(self),
    {
        let k = Config::key_of(key_path);
        match section_index(&k) {
            0 => self.set_general(k, key_path, value),
            1 => self.set_audio(k, key_path, value),
            2 => self.set_playback(k, key_path, value),
            3 => self.set_queue(k, key_path, value),
            4 => self.set_library(k, key_path, value),
            5 => self.set_search(k, key_path, value),
            6 => self.set_display(k, key_path, value),
            7 => self.set_history(k, key_path, value),
            8 => self.set_behavior(k, key_path, value),
            9 => self.set_ui(k, key_path, value),
            _ => match k {
                ConfigKey::Keybind(a) => {
                    self.keybinds.insert(a, owned(value));
                    Ok(())
                },
                _ => Err(ConfigError::UnknownKey(owned(key_path))),
            },
        }
    }

    /// Writes a setting of the `general` section.
    fn set_general(&mut self, k: ConfigKey, key_path: &str, value: &str) -> (r: Result<(), ConfigError>)
        requires
            section_of(k@) == 0,
            k@ == config_key(key_path@),
        ensures
            set_result_view(r) == set_result(config_key(key_path@), key_path@, value@),
            r is Ok ==> written(*old(self), *final(self), config_key(key_path@), value@),
            r is Err ==> *final(self) == *old(self),
    {
        match k {
            ConfigKey::GeneralDataDir => {
                self.general.data_dir = owned(value);
            },
            ConfigKey::GeneralAutoSave => {
                match parse_bool(value) {
                    Some(b) => self.general.auto_save = b,
                    None => return Err(invalid_type(key_path, "bool")),
                }
            },
            ConfigKey::GeneralAutoSaveIntervalSecs => {
                match parse_u64(value) {
                    Some(n) => self.general.auto_save_interval_secs = n,
                    None => return Err(invalid_type(key_path, "u64")),
                }
            },
            ConfigKey::GeneralLanguage => {
                self.general.language = owned(value);
            },
            ConfigKey::GeneralLogLevel => {
                self.general.log_level = owned(value);
            },
            _ => {
                return Err(ConfigError::UnknownKey(owned(key_path)));
            },
        }
        Ok(())
    }

    /// Writes a setting of the `audio` section.
    fn set_audio(&mut self, k: ConfigKey, key_path: &str, value: &str) -> (r: Result<(), ConfigError>)
        requires
            section_of(k@) == 1,
            k@ == config_key(key_path@),
        ensures
            set_result_view(r) == set_result(config_key(key_path@), key_path@, value@),
            r is Ok ==> written(*old(self), *final(self), config_key(key_path@), value@),
            r is Err ==> *final(self) == *old(self),
    {
        match k {
            ConfigKey::AudioDefaultVolume => {
                return Err(ConfigError::FloatSetting { key: owned(key_path) });
            },
            ConfigKey::AudioOutputDevice => {
                self.audio.output_device = optional_string(value);
            },
            ConfigKey::AudioCrossfadeSecs => {
                match parse_u64(value) {
                    Some(n) => self.audio.crossfade_secs = n as u32,
                    None => return Err(invalid_type(key_path, "u64")),
                }
            },
            ConfigKey::AudioGapless => {
                match parse_bool(value) {
                    Some(b) => self.audio.gapless = b,
                    None => return Err(invalid_type(key_path, "bool")),
                }
            },
            ConfigKey::AudioNormalizeAudio => {
                match parse_bool(value) {
                    Some(b) => self.audio.normalize_audio = b,
                    None => return Err(invalid_type(key_path, "bool")),
                }
            },
            ConfigKey::AudioReplaygainMode => {
                self.audio.replaygain_mode = owned(value);
            },
            _ => {
                return Err(ConfigError::UnknownKey(owned(key_path)));
            },
        }
        Ok(())
    }

    /// Writes a setting of the `playback` section.
    fn set_playback(&mut self, k: ConfigKey, key_path: &str, value: &str) -> (r: Result<(), ConfigError>)
        requires
            section_of(k@) == 2,
            k@ == config_key(key_path@),
        ensures
            set_result_view(r) == set_result(config_key(key_path@), key_path@, value@),
            r is Ok ==> written(*old(self), *final(self), config_key(key_path@), value@),
            r is Err ==> *final(self) == *old(self),
    {
        match k {
            ConfigKey::PlaybackRepeatMode => {
                self.playback.repeat_mode = owned(value);
            },
            ConfigKey::PlaybackShuffleOnStart => {
                match parse_bool(value) {
                    Some(b) => self.playback.shuffle_on_start = b,
                    None => return Err(invalid_type(key_path, "bool")),
                }
            },
            ConfigKey::PlaybackAutoPlayNext => {
                match parse_bool(value) {
                    Some(b) => self.playback.auto_play_next = b,
                    None => return Err(invalid_type(key_path, "bool")),
                }
            },
            ConfigKey::PlaybackStopAtQueueEnd => {
                match parse_bool(value) {
                    Some(b) => self.playback.stop_at_queue_end = b,
                    None => return Err(invalid_type(key_path, "bool")),
                }
            },
            ConfigKey::PlaybackResumeOnStartup => {
                match parse_bool(value) {
                    Some(b) => self.playback.resume_on_startup = b,
                    None => return Err(invalid_type(key_path, "bool")),
                }
            },
            _ => {
                return Err(ConfigError::UnknownKey(owned(key_path)));
            },
        }
        Ok(())
    }

    /// Writes a setting of the `queue` section.
    fn set_queue(&mut self, k: ConfigKey, key_path: &str, value: &str) -> (r: Result<(), ConfigError>)
        requires
            section_of(k@) == 3,
            k@ == config_key(key_path@),
        ensures
            set_result_view(r) == set_result(config_key(key_path@), key_path@, value@),
            r is Ok ==> written(*old(self), *final(self), config_key(key_path@), value@),
            r is Err ==> *final(self) == *old(self),
    {
        match k {
            ConfigKey::QueueMaxSize => {
                match parse_u64(value) {
                    Some(n) => self.queue.max_size = n as usize,
                    None => return Err(invalid_type(key_path, "u64")),
                }
            },
            ConfigKey::QueueClearOnPlayAll => {
                match parse_bool(value) {
                    Some(b) => self.queue.clear_on_play_all = b,
                    None => return Err(invalid_type(key_path, "bool")),
                }
            },
            ConfigKey::QueueAppendToFront => {
                match parse_bool(value) {
                    Some(b) => self.queue.append_to_front = b,
                    None => return Err(invalid_type(key_path, "bool")),
                }
            },
            _ => {
                return Err(ConfigError::UnknownKey(owned(key_path)));
            },
        }
        Ok(())
    }

    /// Writes a setting of the `library` section.
    fn set_library(&mut self, k: ConfigKey, key_path: &str, value: &str) -> (r: Result<(), ConfigError>)
        requires
            section_of(k@) == 4,
            k@ == config_key(key_path@),
        ensures
            set_result_view(r) == set_result(config_key(key_path@), key_path@, value@),
            r is Ok ==> written(*old(self), *final(self), config_key(key_path@), value@),
            r is Err ==> *final(self) == *old(self),
    {
        match k {
            ConfigKey::LibraryScanOnStartup => {
                match parse_bool(value) {
                    Some(b) => self.library.scan_on_startup = b,
                    None => return Err(invalid_type(key_path, "bool")),
                }
            },
            ConfigKey::LibraryWatchDirs => {
                self.library.watch_dirs = trimmed_strings(value);
            },
            ConfigKey::LibraryExcludePatterns => {
                self.library.exclude_patterns = trimmed_strings(value);
            },
            ConfigKey::LibraryCoverSizeLimitMb => {
                match parse_u64(value) {
                    Some(n) => self.library.cover_size_limit_mb = n as u32,
                    None => return Err(invalid_type(key_path, "u64")),
                }
            },
            ConfigKey::LibraryPreferEmbeddedCover => {
                match parse_bool(value) {
                    Some(b) => self.library.prefer_embedded_cover = b,
                    None => return Err(invalid_type(key_path, "bool")),
                }
            },
            _ => {
                return Err(ConfigError::UnknownKey(owned(key_path)));
            },
        }
        Ok(())
    }

    /// Writes a setting of the `search` section.
    fn set_search(&mut self, k: ConfigKey, key_path: &str, value: &str) -> (r: Result<(), ConfigError>)
        requires
            section_of(k@) == 5,
            k@ == config_key(key_path@),
        ensures
            set_result_view(r) == set_result(config_key(key_path@), key_path@, value@),
            r is Ok ==> written(*old(self), *final(self), config_key(key_path@), value@),
            r is Err ==> *final(self) == *old(self),
    {
        match k {
            ConfigKey::SearchFuzzyMatch => {
                match parse_bool(value) {
                    Some(b) => self.search.fuzzy_match = b,
                    None => return Err(invalid_type(key_path, "bool")),
                }
            },
            ConfigKey::SearchMatchCredits => {
                match parse_bool(value) {
                    Some(b) => self.search.match_credits = b,
                    None => return Err(invalid_type(key_path, "bool")),
                }
            },
            ConfigKey::SearchMatchHashtags => {
                match parse_bool(value) {
                    Some(b) => self.search.match_hashtags = b,
                    None => return Err(invalid_type(key_path, "bool")),
                }
            },
            ConfigKey::SearchMatchLyrics => {
                match parse_bool(value) {
                    Some(b) => self.search.match_lyrics = b,
                    None => return Err(invalid_type(key_path, "bool")),
                }
            },
            ConfigKey::SearchMaxResults => {
                match parse_u64(value) {
                    Some(n) => self.search.max_results = n as usize,
                    None => return Err(invalid_type(key_path, "u64")),
                }
            },
            _ => {
                return Err(ConfigError::UnknownKey(owned(key_path)));
            },
        }
        Ok(())
    }

    /// Writes a setting of the `display` section.
    fn set_display(&mut self, k: ConfigKey, key_path: &str, value: &str) -> (r: Result<(), ConfigError>)
        requires
            section_of(k@) == 6,
            k@ == config_key(key_path@),
        ensures
            set_result_view(r) == set_result(config_key(key_path@), key_path@, value@),
            r is Ok ==> written(*old(self), *final(self), config_key(key_path@), value@),
            r is Err ==> *final(self) == *old(self),
    {
        match k {
            ConfigKey::DisplayTimeFormat => {
                self.display.time_format = owned(value);
            },
            ConfigKey::DisplayProgressBarStyle => {
                self.display.progress_bar_style = owned(value);
            },
            ConfigKey::DisplayShowDuration => {
                match parse_bool(value) {
                    Some(b) => self.display.show_duration = b,
                    None => return Err(invalid_type(key_path, "bool")),
                }
            },
            ConfigKey::DisplayShowPlaylistCount => {
                match parse_bool(value) {
                    Some(b) => self.display.show_playlist_count = b,
                    None => return Err(invalid_type(key_path, "bool")),
                }
            },
            ConfigKey::DisplayNowPlayingFormat => {
                self.display.now_playing_format = owned(value);
            },
            _ => {
                return Err(ConfigError::UnknownKey(owned(key_path)));
            },
        }
        Ok(())
    }

    /// Writes a setting of the `history` section.
    fn set_history(&mut self, k: ConfigKey, key_path: &str, value: &str) -> (r: Result<(), ConfigError>)
        requires
            section_of(k@) == 7,
            k@ == config_key(key_path@),
        ensures
            set_result_view(r) == set_result(config_key(key_path@), key_path@, value@),
            r is Ok ==> written(*old(self), *final(self), config_key(key_path@), value@),
            r is Err ==> *final(self) == *old(self),
    {
        match k {
            ConfigKey::HistoryMaxEntries => {
                match parse_u64(value) {
                    Some(n) => self.history.max_entries = n as usize,
                    None => return Err(invalid_type(key_path, "u64")),
                }
            },
            ConfigKey::HistorySaveOnExit => {
                match parse_bool(value) {
                    Some(b) => self.history.save_on_exit = b,
                    None => return Err(invalid_type(key_path, "bool")),
                }
            },
            _ => {
                return Err(ConfigError::UnknownKey(owned(key_path)));
            },
        }
        Ok(())
    }

    /// Writes a setting of the `behavior` section.
    fn set_behavior(&mut self, k: ConfigKey, key_path: &str, value: &str) -> (r: Result<(), ConfigError>)
        requires
            section_of(k@) == 8,
            k@ == config_key(key_path@),
        ensures
            set_result_view(r) == set_result(config_key(key_path@), key_path@, value@),
            r is Ok ==> written(*old(self), *final(self), config_key(key_path@), value@),
            r is Err ==> *final(self) == *old(self),
    {
        match k {
            ConfigKey::BehaviorOnStartup => {
                self.behavior.on_startup = owned(value);
            },
            ConfigKey::BehaviorOnPlaylistEnd => {
                self.behavior.on_playlist_end = owned(value);
            },
            ConfigKey::BehaviorOnError => {
                self.behavior.on_error = owned(value);
            },
            _ => {
                return Err(ConfigError::UnknownKey(owned(key_path)));
            },
        }
        Ok(())
    }

    /// Writes a setting of the `ui` section.
    fn set_ui(&mut self, k: ConfigKey, key_path: &str, value: &str) -> (r: Result<(), ConfigError>)
        requires
            section_of(k@) == 9,
            k@ == config_key(key_path@),
        ensures
            set_result_view(r) == set_result(config_key(key_path@), key_path@, value@),
            r is Ok ==> written(*old(self), *final(self), config_key(key_path@), value@),
            r is Err ==> *final(self) == *old(self),
    {
        match k {
            ConfigKey::UiTheme => {
                self.ui.theme = owned(value);
            },
            ConfigKey::UiFontSize => {
                match parse_u64(value) {
                    Some(n) => self.ui.font_size = n as u16,
                    None => return Err(invalid_type(key_path, "u64")),
                }
            },
            ConfigKey::UiShowCoverArt => {
                match parse_bool(value) {
                    Some(b) => self.ui.show_cover_art = b,
                    None => return Err(invalid_type(key_path, "bool")),
                }
            },
            ConfigKey::UiShowLyrics => {
                match parse_bool(value) {
                    Some(b) => self.ui.show_lyrics = b,
                    None => return Err(invalid_type(key_path, "bool")),
                }
            },
            ConfigKey::UiShowQueue => {
                match parse_bool(value) {
                    Some(b) => self.ui.show_queue = b,
                    None => return Err(invalid_type(key_path, "bool")),
                }
            },
            _ => {
                return Err(ConfigError::UnknownKey(owned(key_path)));
            },
        }
        Ok(())
    }


    /// Reads the setting named by the dot path `key_path` as text: `None` for
    /// an unknown path, an unbound action, an unset output device, or the
    /// floating-point default volume.
    #[verifier::rlimit(40)]
    pub fn get(&self, key_path: &str) -> (r: Option<String>)
        ensures
            opt_text(r) == get_spec(*self, config_key(key_path@)),
    {
        let k = Config::key_of(key_path);
        match k {
            ConfigKey::GeneralDataDir => Some(self.general.data_dir.clone()),
            ConfigKey::GeneralAutoSave => Some(bool_string(self.general.auto_save)),
            ConfigKey::GeneralAutoSaveIntervalSecs => Some(decimal_string(self.general.auto_save_interval_secs)),
            ConfigKey::GeneralLanguage => Some(self.general.language.clone()),
            ConfigKey::GeneralLogLevel => Some(self.general.log_level.clone()),
            ConfigKey::AudioDefaultVolume => None,
            ConfigKey::AudioOutputDevice => match &self.audio.output_device {
                Some(d) => Some(d.clone()),
                None => None,
            },
            ConfigKey::AudioCrossfadeSecs => Some(decimal_string(self.audio.crossfade_secs as u64)),
            ConfigKey::AudioGapless => Some(bool_string(self.audio.gapless)),
            ConfigKey::AudioNormalizeAudio => Some(bool_string(self.audio.normalize_audio)),
            ConfigKey::AudioReplaygainMode => Some(self.audio.replaygain_mode.clone()),
            ConfigKey::PlaybackRepeatMode => Some(self.playback.repeat_mode.clone()),
            ConfigKey::PlaybackShuffleOnStart => Some(bool_string(self.playback.shuffle_on_start)),
            ConfigKey::PlaybackAutoPlayNext => Some(bool_string(self.playback.auto_play_next)),
            ConfigKey::PlaybackStopAtQueueEnd => Some(bool_string(self.playback.stop_at_queue_end)),
            ConfigKey::PlaybackResumeOnStartup => Some(bool_string(self.playback.resume_on_startup)),
            ConfigKey::QueueMaxSize => Some(decimal_string(self.queue.max_size as u64)),
            ConfigKey::QueueClearOnPlayAll => Some(bool_string(self.queue.clear_on_play_all)),
            ConfigKey::QueueAppendToFront => Some(bool_string(self.queue.append_to_front)),
            ConfigKey::LibraryScanOnStartup => Some(bool_string(self.library.scan_on_startup)),
            ConfigKey::LibraryWatchDirs => Some(join_text(self.library.watch_dirs.as_slice(), ", ")),
            ConfigKey::LibraryExcludePatterns => Some(join_text(self.library.exclude_patterns.as_slice(), ", ")),
            ConfigKey::LibraryCoverSizeLimitMb => Some(decimal_string(self.library.cover_size_limit_mb as u64)),
            ConfigKey::LibraryPreferEmbeddedCover => Some(bool_string(self.library.prefer_embedded_cover)),
            ConfigKey::SearchFuzzyMatch => Some(bool_string(self.search.fuzzy_match)),
            ConfigKey::SearchMatchCredits => Some(bool_string(self.search.match_credits)),
            ConfigKey::SearchMatchHashtags => Some(bool_string(self.search.match_hashtags)),
            ConfigKey::SearchMatchLyrics => Some(bool_string(self.search.match_lyrics)),
            ConfigKey::SearchMaxResults => Some(decimal_string(self.search.max_results as u64)),
            ConfigKey::DisplayTimeFormat => Some(self.display.time_format.clone()),
            ConfigKey::DisplayProgressBarStyle => Some(self.display.progress_bar_style.clone()),
            ConfigKey::DisplayShowDuration => Some(bool_string(self.display.show_duration)),
            ConfigKey::DisplayShowPlaylistCount => Some(bool_string(self.display.show_playlist_count)),
            ConfigKey::DisplayNowPlayingFormat => Some(self.display.now_playing_format.clone()),
            ConfigKey::HistoryMaxEntries => Some(decimal_string(self.history.max_entries as u64)),
            ConfigKey::HistorySaveOnExit => Some(bool_string(self.history.save_on_exit)),
            ConfigKey::BehaviorOnStartup => Some(self.behavior.on_startup.clone()),
            ConfigKey::BehaviorOnPlaylistEnd => Some(self.behavior.on_playlist_end.clone()),
            ConfigKey::BehaviorOnError => Some(self.behavior.on_error.clone()),
            ConfigKey::UiTheme => Some(self.ui.theme.clone()),
            ConfigKey::UiFontSize => Some(decimal_string(self.ui.font_size as u64)),
            ConfigKey::UiShowCoverArt => Some(bool_string(self.ui.show_cover_art)),
            ConfigKey::UiShowLyrics => Some(bool_string(self.ui.show_lyrics)),
            ConfigKey::UiShowQueue => Some(bool_string(self.ui.show_queue)),
            ConfigKey::Keybind(a) => match self.keybinds.get(a.as_str()) {
                Some(v) => Some(v.clone()),
                None => None,
            },
            ConfigKey::Unknown => None,
        }
    }
}

/// The error for a value that is not of the setting's type.
fn invalid_type(key_path: &str, expected: &str) -> (r: ConfigError)
    ensures
        r@ == (ConfigErrorView::InvalidType { key: key_path@, expected: expected@ }),
{
    ConfigError::InvalidType { key: owned(key_path), expected: owned(expected) }
}

/// The kind of value a setting holds: 0 text, 1 boolean, 2 number, 3
/// optional text, 4 list of texts, 5 floating point, 6 neither (key bindings
/// and unknown paths).
pub open spec fn set_kind(k: ConfigKeyView) -> int {
    match k {
        ConfigKeyView::GeneralDataDir => 0,
        ConfigKeyView::GeneralAutoSave => 1,
        ConfigKeyView::GeneralAutoSaveIntervalSecs => 2,
        ConfigKeyView::GeneralLanguage => 0,
        ConfigKeyView::GeneralLogLevel => 0,
        ConfigKeyView::AudioDefaultVolume => 5,
        ConfigKeyView::AudioOutputDevice => 3,
        ConfigKeyView::AudioCrossfadeSecs => 2,
        ConfigKeyView::AudioGapless => 1,
        ConfigKeyView::AudioNormalizeAudio => 1,
        ConfigKeyView::AudioReplaygainMode => 0,
        ConfigKeyView::PlaybackRepeatMode => 0,
        ConfigKeyView::PlaybackShuffleOnStart => 1,
        ConfigKeyView::PlaybackAutoPlayNext => 1,
        ConfigKeyView::PlaybackStopAtQueueEnd => 1,
        ConfigKeyView::PlaybackResumeOnStartup => 1,
        ConfigKeyView::QueueMaxSize => 2,
        ConfigKeyView::QueueClearOnPlayAll => 1,
        ConfigKeyView::QueueAppendToFront => 1,
        ConfigKeyView::LibraryScanOnStartup => 1,
        ConfigKeyView::LibraryWatchDirs => 4,
        ConfigKeyView::LibraryExcludePatterns => 4,
        ConfigKeyView::LibraryCoverSizeLimitMb => 2,
        ConfigKeyView::LibraryPreferEmbeddedCover => 1,
        ConfigKeyView::SearchFuzzyMatch => 1,
        ConfigKeyView::SearchMatchCredits => 1,
        ConfigKeyView::SearchMatchHashtags => 1,
        ConfigKeyView::SearchMatchLyrics => 1,
        ConfigKeyView::SearchMaxResults => 2,
        ConfigKeyView::DisplayTimeFormat => 0,
        ConfigKeyView::DisplayProgressBarStyle => 0,
        ConfigKeyView::DisplayShowDuration => 1,
        ConfigKeyView::DisplayShowPlaylistCount => 1,
        ConfigKeyView::DisplayNowPlayingFormat => 0,
        ConfigKeyView::HistoryMaxEntries => 2,
        ConfigKeyView::HistorySaveOnExit => 1,
        ConfigKeyView::BehaviorOnStartup => 0,
        ConfigKeyView::BehaviorOnPlaylistEnd => 0,
        ConfigKeyView::BehaviorOnError => 0,
        ConfigKeyView::UiTheme => 0,
        ConfigKeyView::UiFontSize => 2,
        ConfigKeyView::UiShowCoverArt => 1,
        ConfigKeyView::UiShowLyrics => 1,
        ConfigKeyView::UiShowQueue => 1,
        _ => 6,
    }
}

// ---------------------------------------------------------------------------
// Defaults and locations
// ---------------------------------------------------------------------------

/// Calls `dirs::data_dir`: the platform's per-user data directory.  It
/// depends on the environment, so nothing is claimed of it.
#[verifier::external_body]
pub(crate) fn platform_data_dir() -> Option<String> {
    match dirs::data_dir() {
        Some(p) => Some(p.to_string_lossy().into_owned()),
        None => None,
    }
}

/// Calls `dirs::config_dir`: the platform's per-user configuration
/// directory.  It depends on the environment, so nothing is claimed of it.
#[verifier::external_body]
pub(crate) fn platform_config_dir() -> Option<String> {
    match dirs::config_dir() {
        Some(p) => Some(p.to_string_lossy().into_owned()),
        None => None,
    }
}

/// The application's directory under the platform directory `platform`, or
/// under the current directory where the platform has none.
pub open spec fn app_dir_under(platform: Option<Seq<char>>) -> Seq<char> {
    match platform {
        Some(d) => joined_path(d, "open_music"@),
        None => joined_path("."@, "open_music"@),
    }
}

/// The application's directory under `platform` (a directory the platform
/// reported, if any).
pub fn app_dir_under_platform(platform: Option<String>) -> (r: String)
    ensures
        r@ == app_dir_under(opt_text(platform)),
{
    match platform {
        Some(d) => join_path(d.as_str(), "open_music"),
        None => join_path(".", "open_music"),
    }
}

/// The default data directory: `open_music` under the platform's data
/// directory.
pub fn default_data_dir() -> (r: String)
    ensures
        exists|p: Option<Seq<char>>| r@ == app_dir_under(p),
{
    let p = platform_data_dir();
    let r = app_dir_under_platform(p);
    assert(r@ == app_dir_under(opt_text(p)));
    r
}

/// The defaults of every setting, with `data_dir` as the data directory.
pub open spec fn is_default_config(c: Config, data_dir: Seq<char>) -> bool {
    &&& c.general.data_dir@ == data_dir
    &&& c.general.auto_save
    &&& c.general.auto_save_interval_secs == 300
    &&& c.general.language@ == "zh-TW"@
    &&& c.general.log_level@ == "info"@
    &&& c.audio.output_device is None
    &&& c.audio.crossfade_secs == 0
    &&& !c.audio.gapless
    &&& !c.audio.normalize_audio
    &&& c.audio.replaygain_mode@ == "none"@
    &&& c.playback.repeat_mode@ == "off"@
    &&& !c.playback.shuffle_on_start
    &&& c.playback.auto_play_next
    &&& c.playback.stop_at_queue_end
    &&& !c.playback.resume_on_startup
    &&& c.queue.max_size == 0
    &&& !c.queue.clear_on_play_all
    &&& !c.queue.append_to_front
    &&& !c.library.scan_on_startup
    &&& c.library.watch_dirs@.len() == 0
    &&& c.library.exclude_patterns@.len() == 0
    &&& c.library.cover_size_limit_mb == 5
    &&& c.library.prefer_embedded_cover
    &&& c.search.fuzzy_match
    &&& c.search.match_credits
    &&& c.search.match_hashtags
    &&& !c.search.match_lyrics
    &&& c.search.max_results == 50
    &&& c.display.time_format@ == "mm:ss"@
    &&& c.display.progress_bar_style@ == "bar"@
    &&& c.display.show_duration
    &&& c.display.show_playlist_count
    &&& c.display.now_playing_format@ == "{title} — {artist} [{duration}]"@
    &&& c.history.max_entries == 100
    &&& c.history.save_on_exit
    &&& c.behavior.on_startup@ == "nothing"@
    &&& c.behavior.on_playlist_end@ == "stop"@
    &&& c.behavior.on_error@ == "skip"@
    &&& c.ui.theme@ == "default"@
    &&& c.ui.font_size == 14
    &&& c.ui.show_cover_art
    &&& c.ui.show_lyrics
    &&& c.ui.show_queue
    &&& c.keybinds@.len() == 0
}

impl Config {
    /// Every setting at its default, with `data_dir` as the data directory.
    pub fn with_data_dir(data_dir: String) -> (r: Config)
        ensures
            is_default_config(r, data_dir@),
    {
        Config {
            general: GeneralConfig {
                data_dir,
                auto_save: true,
                auto_save_interval_secs: 300,
                language: owned("zh-TW"),
                log_level: owned("info"),
            },
            audio: AudioConfig {
                output_device: None,
                crossfade_secs: 0,
                gapless: false,
                normalize_audio: false,
                replaygain_mode: owned("none"),
            },
            playback: PlaybackConfig {
                repeat_mode: owned("off"),
                shuffle_on_start: false,
                auto_play_next: true,
                stop_at_queue_end: true,
                resume_on_startup: false,
            },
            queue: QueueConfig { max_size: 0, clear_on_play_all: false, append_to_front: false },
            library: LibraryConfig {
                scan_on_startup: false,
                watch_dirs: Vec::new(),
                exclude_patterns: Vec::new(),
                cover_size_limit_mb: 5,
                prefer_embedded_cover: true,
            },
            search: SearchConfig {
                fuzzy_match: true,
                match_credits: true,
                match_hashtags: true,
                match_lyrics: false,
                max_results: 50,
            },
            display: DisplayConfig {
                time_format: owned("mm:ss"),
                progress_bar_style: owned("bar"),
                show_duration: true,
                show_playlist_count: true,
                now_playing_format: owned("{title} — {artist} [{duration}]"),
            },
            history: HistoryConfig { max_entries: 100, save_on_exit: true },
            behavior: BehaviorConfig {
                on_startup: owned("nothing"),
                on_playlist_end: owned("stop"),
                on_error: owned("skip"),
            },
            ui: UiConfig {
                theme: owned("default"),
                font_size: 14,
                show_cover_art: true,
                show_lyrics: true,
                show_queue: true,
            },
            keybinds: Keybinds::new(),
        }
    }

    /// The configuration directory: `open_music` under the platform's
    /// configuration directory.
    pub fn config_dir() -> (r: String)
        ensures
            exists|p: Option<Seq<char>>| r@ == app_dir_under(p),
    {
        let p = platform_config_dir();
        let r = app_dir_under_platform(p);
        assert(r@ == app_dir_under(opt_text(p)));
        r
    }

    /// The configuration file: `config.toml` in the configuration directory.
    pub fn config_path() -> (r: String)
        ensures
            exists|p: Option<Seq<char>>| r@ == joined_path(app_dir_under(p), "config.toml"@),
    {
        let d = Config::config_dir();
        join_path(d.as_str(), "config.toml")
    }
}

impl Default for Config {
    /// Every setting at its default, under the default data directory.
    fn default() -> (r: Config)
        ensures
            is_default_config(r, r.general.data_dir@),
            exists|p: Option<Seq<char>>| r.general.data_dir@ == app_dir_under(p),
    {
        Config::with_data_dir(default_data_dir())
    }
}

// ---------------------------------------------------------------------------
// Laws of the dot-path table
// ---------------------------------------------------------------------------

/// A setting whose text reads back exactly as it was written: text
/// settings, booleans and key bindings.
pub open spec fn reads_back_verbatim(k: ConfigKeyView) -> bool {
    ||| matches!(k, ConfigKeyView::Keybind(_))
    ||| set_kind(k) == 0
    ||| set_kind(k) == 1
}

proof fn lemma_table_insert_get_same(t: TextTable, k: Seq<char>, v: Seq<char>)
    ensures
        table_get(table_insert(t, k, v), k) == Some(v),
{
    let keys = table_keys(t);
    let t2 = table_insert(t, k, v);
    let keys2 = table_keys(t2);
    if keys.contains(k) {
        let i = keys.index_of(k);
        assert(keys2 =~= keys);
    } else {
        assert(keys2 =~= keys.push(k));
        assert(keys2[keys.len() as int] == k);
        let i2 = keys2.index_of(k);
        assert(i2 == keys.len()) by {
            if i2 < keys.len() {
                assert(keys[i2] == k);
            }
        }
    }
}

proof fn lemma_table_insert_get(t: TextTable, k: Seq<char>, v: Seq<char>, other: Seq<char>)
    requires
        table_keys(t).no_duplicates(),
    ensures
        table_get(table_insert(t, k, v), k) == Some(v),
        other != k ==> table_get(table_insert(t, k, v), other) == table_get(t, other),
        table_keys(table_insert(t, k, v)).no_duplicates(),
{
    let keys = table_keys(t);
    let t2 = table_insert(t, k, v);
    let keys2 = table_keys(t2);
    if keys.contains(k) {
        let i = keys.index_of(k);
        assert(keys2 =~= keys);
        assert(keys2.index_of(k) == i);
        if other != k && keys.contains(other) {
            let j = keys.index_of(other);
            assert(keys2.index_of(other) == j);
            assert(j != i);
        }
    } else {
        assert(keys2 =~= keys.push(k));
        assert(keys2[keys.len() as int] == k);
        let i2 = keys2.index_of(k);
        assert(i2 == keys.len()) by {
            if i2 < keys.len() {
                assert(keys[i2] == k);
            }
        }
        if other != k {
            if keys.contains(other) {
                let j = keys.index_of(other);
                assert(keys2[j] == other);
                let j2 = keys2.index_of(other);
                assert(j2 == j) by {
                    assert(j2 < keys.len());
                    assert(keys[j2] == other);
                }
            } else {
                assert(!keys2.contains(other)) by {
                    if keys2.contains(other) {
                        let j2 = keys2.index_of(other);
                        assert(j2 < keys.len());
                        assert(keys[j2] == other);
                    }
                }
            }
        }
    }
}

proof fn lemma_get_after_set_general(c: Config, c2: Config, k: ConfigKeyView, key: Seq<char>, value: Seq<char>)
    requires
        section_of(k) == 0,
        set_result(k, key, value) is Ok,
        written(c, c2, k, value),
    ensures
        reads_back_verbatim(k) ==> get_spec(c2, k) == Some(value),
        set_kind(k) == 2 && is_canonical_decimal(value) && digits_value(value) <= int_field_max(k)
            ==> get_spec(c2, k) == Some(value),
        get_spec(c2, k) is Some || k == ConfigKeyView::AudioOutputDevice,
{
    if set_kind(k) == 2 && is_canonical_decimal(value) {
        lemma_decimal_of_digits(value);
        assert(is_digit(value[0]));
        assert(value[0] != '+');
    }
    if set_kind(k) == 1 {
        assert(parse_bool_text(value) is Some);
    }
}

proof fn lemma_frame_general(c: Config, c2: Config, k: ConfigKeyView, value: Seq<char>)
    requires
        section_of(k) == 0,
        written(c, c2, k, value),
    ensures
        c2.audio == c.audio,
        c2.playback == c.playback,
        c2.queue == c.queue,
        c2.library == c.library,
        c2.search == c.search,
        c2.display == c.display,
        c2.history == c.history,
        c2.behavior == c.behavior,
        c2.ui == c.ui,
        c2.keybinds == c.keybinds,
{
}

proof fn lemma_reads_general(c: Config, c2: Config, k2: ConfigKeyView)
    requires
        section_of(k2) == 0,
        c2.general == c.general,
    ensures
        get_spec(c2, k2) == get_spec(c, k2),
{
}

proof fn lemma_same_section_general(c: Config, c2: Config, k: ConfigKeyView, k2: ConfigKeyView, value: Seq<char>)
    requires
        section_of(k) == 0,
        section_of(k2) == 0,
        k != k2,
        written(c, c2, k, value),
    ensures
        get_spec(c2, k2) == get_spec(c, k2),
{
}

proof fn lemma_get_after_set_audio(c: Config, c2: Config, k: ConfigKeyView, key: Seq<char>, value: Seq<char>)
    requires
        section_of(k) == 1,
        set_result(k, key, value) is Ok,
        written(c, c2, k, value),
    ensures
        reads_back_verbatim(k) ==> get_spec(c2, k) == Some(value),
        set_kind(k) == 2 && is_canonical_decimal(value) && digits_value(value) <= int_field_max(k)
            ==> get_spec(c2, k) == Some(value),
        get_spec(c2, k) is Some || k == ConfigKeyView::AudioOutputDevice,
{
    if set_kind(k) == 2 && is_canonical_decimal(value) {
        lemma_decimal_of_digits(value);
        assert(is_digit(value[0]));
        assert(value[0] != '+');
    }
    if set_kind(k) == 1 {
        assert(parse_bool_text(value) is Some);
    }
}

proof fn lemma_frame_audio(c: Config, c2: Config, k: ConfigKeyView, value: Seq<char>)
    requires
        section_of(k) == 1,
        written(c, c2, k, value),
    ensures
        c2.general == c.general,
        c2.playback == c.playback,
        c2.queue == c.queue,
        c2.library == c.library,
        c2.search == c.search,
        c2.display == c.display,
        c2.history == c.history,
        c2.behavior == c.behavior,
        c2.ui == c.ui,
        c2.keybinds == c.keybinds,
{
}

proof fn lemma_reads_audio(c: Config, c2: Config, k2: ConfigKeyView)
    requires
        section_of(k2) == 1,
        c2.audio == c.audio,
    ensures
        get_spec(c2, k2) == get_spec(c, k2),
{
}

proof fn lemma_same_section_audio(c: Config, c2: Config, k: ConfigKeyView, k2: ConfigKeyView, value: Seq<char>)
    requires
        section_of(k) == 1,
        section_of(k2) == 1,
        k != k2,
        written(c, c2, k, value),
    ensures
        get_spec(c2, k2) == get_spec(c, k2),
{
}

proof fn lemma_get_after_set_playback(c: Config, c2: Config, k: ConfigKeyView, key: Seq<char>, value: Seq<char>)
    requires
        section_of(k) == 2,
        set_result(k, key, value) is Ok,
        written(c, c2, k, value),
    ensures
        reads_back_verbatim(k) ==> get_spec(c2, k) == Some(value),
        set_kind(k) == 2 && is_canonical_decimal(value) && digits_value(value) <= int_field_max(k)
            ==> get_spec(c2, k) == Some(value),
        get_spec(c2, k) is Some || k == ConfigKeyView::AudioOutputDevice,
{
    if set_kind(k) == 2 && is_canonical_decimal(value) {
        lemma_decimal_of_digits(value);
        assert(is_digit(value[0]));
        assert(value[0] != '+');
    }
    if set_kind(k) == 1 {
        assert(parse_bool_text(value) is Some);
    }
}

proof fn lemma_frame_playback(c: Config, c2: Config, k: ConfigKeyView, value: Seq<char>)
    requires
        section_of(k) == 2,
        written(c, c2, k, value),
    ensures
        c2.general == c.general,
        c2.audio == c.audio,
        c2.queue == c.queue,
        c2.library == c.library,
        c2.search == c.search,
        c2.display == c.display,
        c2.history == c.history,
        c2.behavior == c.behavior,
        c2.ui == c.ui,
        c2.keybinds == c.keybinds,
{
}

proof fn lemma_reads_playback(c: Config, c2: Config, k2: ConfigKeyView)
    requires
        section_of(k2) == 2,
        c2.playback == c.playback,
    ensures
        get_spec(c2, k2) == get_spec(c, k2),
{
}

proof fn lemma_same_section_playback(c: Config, c2: Config, k: ConfigKeyView, k2: ConfigKeyView, value: Seq<char>)
    requires
        section_of(k) == 2,
        section_of(k2) == 2,
        k != k2,
        written(c, c2, k, value),
    ensures
        get_spec(c2, k2) == get_spec(c, k2),
{
}

proof fn lemma_get_after_set_queue(c: Config, c2: Config, k: ConfigKeyView, key: Seq<char>, value: Seq<char>)
    requires
        section_of(k) == 3,
        set_result(k, key, value) is Ok,
        written(c, c2, k, value),
    ensures
        reads_back_verbatim(k) ==> get_spec(c2, k) == Some(value),
        set_kind(k) == 2 && is_canonical_decimal(value) && digits_value(value) <= int_field_max(k)
            ==> get_spec(c2, k) == Some(value),
        get_spec(c2, k) is Some || k == ConfigKeyView::AudioOutputDevice,
{
    if set_kind(k) == 2 && is_canonical_decimal(value) {
        lemma_decimal_of_digits(value);
        assert(is_digit(value[0]));
        assert(value[0] != '+');
    }
    if set_kind(k) == 1 {
        assert(parse_bool_text(value) is Some);
    }
}

proof fn lemma_frame_queue(c: Config, c2: Config, k: ConfigKeyView, value: Seq<char>)
    requires
        section_of(k) == 3,
        written(c, c2, k, value),
    ensures
        c2.general == c.general,
        c2.audio == c.audio,
        c2.playback == c.playback,
        c2.library == c.library,
        c2.search == c.search,
        c2.display == c.display,
        c2.history == c.history,
        c2.behavior == c.behavior,
        c2.ui == c.ui,
        c2.keybinds == c.keybinds,
{
}

proof fn lemma_reads_queue(c: Config, c2: Config, k2: ConfigKeyView)
    requires
        section_of(k2) == 3,
        c2.queue == c.queue,
    ensures
        get_spec(c2, k2) == get_spec(c, k2),
{
}

proof fn lemma_same_section_queue(c: Config, c2: Config, k: ConfigKeyView, k2: ConfigKeyView, value: Seq<char>)
    requires
        section_of(k) == 3,
        section_of(k2) == 3,
        k != k2,
        written(c, c2, k, value),
    ensures
        get_spec(c2, k2) == get_spec(c, k2),
{
}

proof fn lemma_get_after_set_library(c: Config, c2: Config, k: ConfigKeyView, key: Seq<char>, value: Seq<char>)
    requires
        section_of(k) == 4,
        set_result(k, key, value) is Ok,
        written(c, c2, k, value),
    ensures
        reads_back_verbatim(k) ==> get_spec(c2, k) == Some(value),
        set_kind(k) == 2 && is_canonical_decimal(value) && digits_value(value) <= int_field_max(k)
            ==> get_spec(c2, k) == Some(value),
        get_spec(c2, k) is Some || k == ConfigKeyView::AudioOutputDevice,
{
    if set_kind(k) == 2 && is_canonical_decimal(value) {
        lemma_decimal_of_digits(value);
        assert(is_digit(value[0]));
        assert(value[0] != '+');
    }
    if set_kind(k) == 1 {
        assert(parse_bool_text(value) is Some);
    }
}

proof fn lemma_frame_library(c: Config, c2: Config, k: ConfigKeyView, value: Seq<char>)
    requires
        section_of(k) == 4,
        written(c, c2, k, value),
    ensures
        c2.general == c.general,
        c2.audio == c.audio,
        c2.playback == c.playback,
        c2.queue == c.queue,
        c2.search == c.search,
        c2.display == c.display,
        c2.history == c.history,
        c2.behavior == c.behavior,
        c2.ui == c.ui,
        c2.keybinds == c.keybinds,
{
}

proof fn lemma_reads_library(c: Config, c2: Config, k2: ConfigKeyView)
    requires
        section_of(k2) == 4,
        c2.library == c.library,
    ensures
        get_spec(c2, k2) == get_spec(c, k2),
{
}

proof fn lemma_same_section_library(c: Config, c2: Config, k: ConfigKeyView, k2: ConfigKeyView, value: Seq<char>)
    requires
        section_of(k) == 4,
        section_of(k2) == 4,
        k != k2,
        written(c, c2, k, value),
    ensures
        get_spec(c2, k2) == get_spec(c, k2),
{
}

proof fn lemma_get_after_set_search(c: Config, c2: Config, k: ConfigKeyView, key: Seq<char>, value: Seq<char>)
    requires
        section_of(k) == 5,
        set_result(k, key, value) is Ok,
        written(c, c2, k, value),
    ensures
        reads_back_verbatim(k) ==> get_spec(c2, k) == Some(value),
        set_kind(k) == 2 && is_canonical_decimal(value) && digits_value(value) <= int_field_max(k)
            ==> get_spec(c2, k) == Some(value),
        get_spec(c2, k) is Some || k == ConfigKeyView::AudioOutputDevice,
{
    if set_kind(k) == 2 && is_canonical_decimal(value) {
        lemma_decimal_of_digits(value);
        assert(is_digit(value[0]));
        assert(value[0] != '+');
    }
    if set_kind(k) == 1 {
        assert(parse_bool_text(value) is Some);
    }
}

proof fn lemma_frame_search(c: Config, c2: Config, k: ConfigKeyView, value: Seq<char>)
    requires
        section_of(k) == 5,
        written(c, c2, k, value),
    ensures
        c2.general == c.general,
        c2.audio == c.audio,
        c2.playback == c.playback,
        c2.queue == c.queue,
        c2.library == c.library,
        c2.display == c.display,
        c2.history == c.history,
        c2.behavior == c.behavior,
        c2.ui == c.ui,
        c2.keybinds == c.keybinds,
{
}

proof fn lemma_reads_search(c: Config, c2: Config, k2: ConfigKeyView)
    requires
        section_of(k2) == 5,
        c2.search == c.search,
    ensures
        get_spec(c2, k2) == get_spec(c, k2),
{
}

proof fn lemma_same_section_search(c: Config, c2: Config, k: ConfigKeyView, k2: ConfigKeyView, value: Seq<char>)
    requires
        section_of(k) == 5,
        section_of(k2) == 5,
        k != k2,
        written(c, c2, k, value),
    ensures
        get_spec(c2, k2) == get_spec(c, k2),
{
}

proof fn lemma_get_after_set_display(c: Config, c2: Config, k: ConfigKeyView, key: Seq<char>, value: Seq<char>)
    requires
        section_of(k) == 6,
        set_result(k, key, value) is Ok,
        written(c, c2, k, value),
    ensures
        reads_back_verbatim(k) ==> get_spec(c2, k) == Some(value),
        set_kind(k) == 2 && is_canonical_decimal(value) && digits_value(value) <= int_field_max(k)
            ==> get_spec(c2, k) == Some(value),
        get_spec(c2, k) is Some || k == ConfigKeyView::AudioOutputDevice,
{
    if set_kind(k) == 2 && is_canonical_decimal(value) {
        lemma_decimal_of_digits(value);
        assert(is_digit(value[0]));
        assert(value[0] != '+');
    }
    if set_kind(k) == 1 {
        assert(parse_bool_text(value) is Some);
    }
}

proof fn lemma_frame_display(c: Config, c2: Config, k: ConfigKeyView, value: Seq<char>)
    requires
        section_of(k) == 6,
        written(c, c2, k, value),
    ensures
        c2.general == c.general,
        c2.audio == c.audio,
        c2.playback == c.playback,
        c2.queue == c.queue,
        c2.library == c.library,
        c2.search == c.search,
        c2.history == c.history,
        c2.behavior == c.behavior,
        c2.ui == c.ui,
        c2.keybinds == c.keybinds,
{
}

proof fn lemma_reads_display(c: Config, c2: Config, k2: ConfigKeyView)
    requires
        section_of(k2) == 6,
        c2.display == c.display,
    ensures
        get_spec(c2, k2) == get_spec(c, k2),
{
}

proof fn lemma_same_section_display(c: Config, c2: Config, k: ConfigKeyView, k2: ConfigKeyView, value: Seq<char>)
    requires
        section_of(k) == 6,
        section_of(k2) == 6,
        k != k2,
        written(c, c2, k, value),
    ensures
        get_spec(c2, k2) == get_spec(c, k2),
{
}

proof fn lemma_get_after_set_history(c: Config, c2: Config, k: ConfigKeyView, key: Seq<char>, value: Seq<char>)
    requires
        section_of(k) == 7,
        set_result(k, key, value) is Ok,
        written(c, c2, k, value),
    ensures
        reads_back_verbatim(k) ==> get_spec(c2, k) == Some(value),
        set_kind(k) == 2 && is_canonical_decimal(value) && digits_value(value) <= int_field_max(k)
            ==> get_spec(c2, k) == Some(value),
        get_spec(c2, k) is Some || k == ConfigKeyView::AudioOutputDevice,
{
    if set_kind(k) == 2 && is_canonical_decimal(value) {
        lemma_decimal_of_digits(value);
        assert(is_digit(value[0]));
        assert(value[0] != '+');
    }
    if set_kind(k) == 1 {
        assert(parse_bool_text(value) is Some);
    }
}

proof fn lemma_frame_history(c: Config, c2: Config, k: ConfigKeyView, value: Seq<char>)
    requires
        section_of(k) == 7,
        written(c, c2, k, value),
    ensures
        c2.general == c.general,
        c2.audio == c.audio,
        c2.playback == c.playback,
        c2.queue == c.queue,
        c2.library == c.library,
        c2.search == c.search,
        c2.display == c.display,
        c2.behavior == c.behavior,
        c2.ui == c.ui,
        c2.keybinds == c.keybinds,
{
}

proof fn lemma_reads_history(c: Config, c2: Config, k2: ConfigKeyView)
    requires
        section_of(k2) == 7,
        c2.history == c.history,
    ensures
        get_spec(c2, k2) == get_spec(c, k2),
{
}

proof fn lemma_same_section_history(c: Config, c2: Config, k: ConfigKeyView, k2: ConfigKeyView, value: Seq<char>)
    requires
        section_of(k) == 7,
        section_of(k2) == 7,
        k != k2,
        written(c, c2, k, value),
    ensures
        get_spec(c2, k2) == get_spec(c, k2),
{
}

proof fn lemma_get_after_set_behavior(c: Config, c2: Config, k: ConfigKeyView, key: Seq<char>, value: Seq<char>)
    requires
        section_of(k) == 8,
        set_result(k, key, value) is Ok,
        written(c, c2, k, value),
    ensures
        reads_back_verbatim(k) ==> get_spec(c2, k) == Some(value),
        set_kind(k) == 2 && is_canonical_decimal(value) && digits_value(value) <= int_field_max(k)
            ==> get_spec(c2, k) == Some(value),
        get_spec(c2, k) is Some || k == ConfigKeyView::AudioOutputDevice,
{
    if set_kind(k) == 2 && is_canonical_decimal(value) {
        lemma_decimal_of_digits(value);
        assert(is_digit(value[0]));
        assert(value[0] != '+');
    }
    if set_kind(k) == 1 {
        assert(parse_bool_text(value) is Some);
    }
}

proof fn lemma_frame_behavior(c: Config, c2: Config, k: ConfigKeyView, value: Seq<char>)
    requires
        section_of(k) == 8,
        written(c, c2, k, value),
    ensures
        c2.general == c.general,
        c2.audio == c.audio,
        c2.playback == c.playback,
        c2.queue == c.queue,
        c2.library == c.library,
        c2.search == c.search,
        c2.display == c.display,
        c2.history == c.history,
        c2.ui == c.ui,
        c2.keybinds == c.keybinds,
{
}

proof fn lemma_reads_behavior(c: Config, c2: Config, k2: ConfigKeyView)
    requires
        section_of(k2) == 8,
        c2.behavior == c.behavior,
    ensures
        get_spec(c2, k2) == get_spec(c, k2),
{
}

proof fn lemma_same_section_behavior(c: Config, c2: Config, k: ConfigKeyView, k2: ConfigKeyView, value: Seq<char>)
    requires
        section_of(k) == 8,
        section_of(k2) == 8,
        k != k2,
        written(c, c2, k, value),
    ensures
        get_spec(c2, k2) == get_spec(c, k2),
{
}

proof fn lemma_get_after_set_ui(c: Config, c2: Config, k: ConfigKeyView, key: Seq<char>, value: Seq<char>)
    requires
        section_of(k) == 9,
        set_result(k, key, value) is Ok,
        written(c, c2, k, value),
    ensures
        reads_back_verbatim(k) ==> get_spec(c2, k) == Some(value),
        set_kind(k) == 2 && is_canonical_decimal(value) && digits_value(value) <= int_field_max(k)
            ==> get_spec(c2, k) == Some(value),
        get_spec(c2, k) is Some || k == ConfigKeyView::AudioOutputDevice,
{
    if set_kind(k) == 2 && is_canonical_decimal(value) {
        lemma_decimal_of_digits(value);
        assert(is_digit(value[0]));
        assert(value[0] != '+');
    }
    if set_kind(k) == 1 {
        assert(parse_bool_text(value) is Some);
    }
}

proof fn lemma_frame_ui(c: Config, c2: Config, k: ConfigKeyView, value: Seq<char>)
    requires
        section_of(k) == 9,
        written(c, c2, k, value),
    ensures
        c2.general == c.general,
        c2.audio == c.audio,
        c2.playback == c.playback,
        c2.queue == c.queue,
        c2.library == c.library,
        c2.search == c.search,
        c2.display == c.display,
        c2.history == c.history,
        c2.behavior == c.behavior,
        c2.keybinds == c.keybinds,
{
}

proof fn lemma_reads_ui(c: Config, c2: Config, k2: ConfigKeyView)
    requires
        section_of(k2) == 9,
        c2.ui == c.ui,
    ensures
        get_spec(c2, k2) == get_spec(c, k2),
{
}

proof fn lemma_same_section_ui(c: Config, c2: Config, k: ConfigKeyView, k2: ConfigKeyView, value: Seq<char>)
    requires
        section_of(k) == 9,
        section_of(k2) == 9,
        k != k2,
        written(c, c2, k, value),
    ensures
        get_spec(c2, k2) == get_spec(c, k2),
{
}

/// The largest value that an integer setting holds.
pub open spec fn int_field_max(k: ConfigKeyView) -> nat {
    match k {
        ConfigKeyView::GeneralAutoSaveIntervalSecs => u64::MAX as nat,
        ConfigKeyView::AudioCrossfadeSecs => u32::MAX as nat,
        ConfigKeyView::QueueMaxSize => usize::MAX as nat,
        ConfigKeyView::LibraryCoverSizeLimitMb => u32::MAX as nat,
        ConfigKeyView::SearchMaxResults => usize::MAX as nat,
        ConfigKeyView::HistoryMaxEntries => usize::MAX as nat,
        ConfigKeyView::UiFontSize => u16::MAX as nat,
        _ => 0,
    }
}

/// Reading back a setting that was written: text settings, booleans and
/// key bindings give back the written text, and so do integer settings
/// written as a canonical decimal that fits the setting; every other setting but the output
/// device (which may be written as none) reads as some text.
pub proof fn law_get_after_set(c: Config, c2: Config, key: Seq<char>, value: Seq<char>)
    requires
        set_result(config_key(key), key, value) is Ok,
        written(c, c2, config_key(key), value),
    ensures
        reads_back_verbatim(config_key(key)) ==> get_spec(c2, config_key(key)) == Some(value),
        set_kind(config_key(key)) == 2 && is_canonical_decimal(value) && digits_value(value)
            <= int_field_max(config_key(key)) ==> get_spec(
            c2,
            config_key(key),
        ) == Some(value),
        get_spec(c2, config_key(key)) is Some || config_key(key) == ConfigKeyView::AudioOutputDevice,
{
    let k = config_key(key);
    if section_of(k) == 0 {
        lemma_get_after_set_general(c, c2, k, key, value);
    }
    if section_of(k) == 1 {
        lemma_get_after_set_audio(c, c2, k, key, value);
    }
    if section_of(k) == 2 {
        lemma_get_after_set_playback(c, c2, k, key, value);
    }
    if section_of(k) == 3 {
        lemma_get_after_set_queue(c, c2, k, key, value);
    }
    if section_of(k) == 4 {
        lemma_get_after_set_library(c, c2, k, key, value);
    }
    if section_of(k) == 5 {
        lemma_get_after_set_search(c, c2, k, key, value);
    }
    if section_of(k) == 6 {
        lemma_get_after_set_display(c, c2, k, key, value);
    }
    if section_of(k) == 7 {
        lemma_get_after_set_history(c, c2, k, key, value);
    }
    if section_of(k) == 8 {
        lemma_get_after_set_behavior(c, c2, k, key, value);
    }
    if section_of(k) == 9 {
        lemma_get_after_set_ui(c, c2, k, key, value);
    }
    if let ConfigKeyView::Keybind(a) = k {
        lemma_table_insert_get_same(c.keybinds@, a, value);
    }
}

/// Writing one setting leaves every other setting reading as it did.
pub proof fn law_set_leaves_others(
    c: Config,
    c2: Config,
    key: Seq<char>,
    value: Seq<char>,
    other: Seq<char>,
)
    requires
        table_keys(c.keybinds@).no_duplicates(),
        set_result(config_key(key), key, value) is Ok,
        written(c, c2, config_key(key), value),
        config_key(other) != config_key(key),
    ensures
        get_spec(c2, config_key(other)) == get_spec(c, config_key(other)),
{
    let k = config_key(key);
    let k2 = config_key(other);
    if let ConfigKeyView::Keybind(a) = k {
        assert(c2 == (Config { keybinds: c2.keybinds, ..c }));
        if let ConfigKeyView::Keybind(b) = k2 {
            lemma_table_insert_get(c.keybinds@, a, value, b);
        } else {
            if section_of(k2) == 0 {
                lemma_reads_general(c, c2, k2);
            }
            if section_of(k2) == 1 {
                lemma_reads_audio(c, c2, k2);
            }
            if section_of(k2) == 2 {
                lemma_reads_playback(c, c2, k2);
            }
            if section_of(k2) == 3 {
                lemma_reads_queue(c, c2, k2);
            }
            if section_of(k2) == 4 {
                lemma_reads_library(c, c2, k2);
            }
            if section_of(k2) == 5 {
                lemma_reads_search(c, c2, k2);
            }
            if section_of(k2) == 6 {
                lemma_reads_display(c, c2, k2);
            }
            if section_of(k2) == 7 {
                lemma_reads_history(c, c2, k2);
            }
            if section_of(k2) == 8 {
                lemma_reads_behavior(c, c2, k2);
            }
            if section_of(k2) == 9 {
                lemma_reads_ui(c, c2, k2);
            }
        }
    } else {
        if section_of(k) == 0 {
            lemma_frame_general(c, c2, k, value);
            if section_of(k2) == 0 {
                lemma_same_section_general(c, c2, k, k2, value);
            }
            if section_of(k2) == 1 {
                lemma_reads_audio(c, c2, k2);
            }
            if section_of(k2) == 2 {
                lemma_reads_playback(c, c2, k2);
            }
            if section_of(k2) == 3 {
                lemma_reads_queue(c, c2, k2);
            }
            if section_of(k2) == 4 {
                lemma_reads_library(c, c2, k2);
            }
            if section_of(k2) == 5 {
                lemma_reads_search(c, c2, k2);
            }
            if section_of(k2) == 6 {
                lemma_reads_display(c, c2, k2);
            }
            if section_of(k2) == 7 {
                lemma_reads_history(c, c2, k2);
            }
            if section_of(k2) == 8 {
                lemma_reads_behavior(c, c2, k2);
            }
            if section_of(k2) == 9 {
                lemma_reads_ui(c, c2, k2);
            }
        }
        if section_of(k) == 1 {
            lemma_frame_audio(c, c2, k, value);
            if section_of(k2) == 0 {
                lemma_reads_general(c, c2, k2);
            }
            if section_of(k2) == 1 {
                lemma_same_section_audio(c, c2, k, k2, value);
            }
            if section_of(k2) == 2 {
                lemma_reads_playback(c, c2, k2);
            }
            if section_of(k2) == 3 {
                lemma_reads_queue(c, c2, k2);
            }
            if section_of(k2) == 4 {
                lemma_reads_library(c, c2, k2);
            }
            if section_of(k2) == 5 {
                lemma_reads_search(c, c2, k2);
            }
            if section_of(k2) == 6 {
                lemma_reads_display(c, c2, k2);
            }
            if section_of(k2) == 7 {
                lemma_reads_history(c, c2, k2);
            }
            if section_of(k2) == 8 {
                lemma_reads_behavior(c, c2, k2);
            }
            if section_of(k2) == 9 {
                lemma_reads_ui(c, c2, k2);
            }
        }
        if section_of(k) == 2 {
            lemma_frame_playback(c, c2, k, value);
            if section_of(k2) == 0 {
                lemma_reads_general(c, c2, k2);
            }
            if section_of(k2) == 1 {
                lemma_reads_audio(c, c2, k2);
            }
            if section_of(k2) == 2 {
                lemma_same_section_playback(c, c2, k, k2, value);
            }
            if section_of(k2) == 3 {
                lemma_reads_queue(c, c2, k2);
            }
            if section_of(k2) == 4 {
                lemma_reads_library(c, c2, k2);
            }
            if section_of(k2) == 5 {
                lemma_reads_search(c, c2, k2);
            }
            if section_of(k2) == 6 {
                lemma_reads_display(c, c2, k2);
            }
            if section_of(k2) == 7 {
                lemma_reads_history(c, c2, k2);
            }
            if section_of(k2) == 8 {
                lemma_reads_behavior(c, c2, k2);
            }
            if section_of(k2) == 9 {
                lemma_reads_ui(c, c2, k2);
            }
        }
        if section_of(k) == 3 {
            lemma_frame_queue(c, c2, k, value);
            if section_of(k2) == 0 {
                lemma_reads_general(c, c2, k2);
            }
            if section_of(k2) == 1 {
                lemma_reads_audio(c, c2, k2);
            }
            if section_of(k2) == 2 {
                lemma_reads_playback(c, c2, k2);
            }
            if section_of(k2) == 3 {
                lemma_same_section_queue(c, c2, k, k2, value);
            }
            if section_of(k2) == 4 {
                lemma_reads_library(c, c2, k2);
            }
            if section_of(k2) == 5 {
                lemma_reads_search(c, c2, k2);
            }
            if section_of(k2) == 6 {
                lemma_reads_display(c, c2, k2);
            }
            if section_of(k2) == 7 {
                lemma_reads_history(c, c2, k2);
            }
            if section_of(k2) == 8 {
                lemma_reads_behavior(c, c2, k2);
            }
            if section_of(k2) == 9 {
                lemma_reads_ui(c, c2, k2);
            }
        }
        if section_of(k) == 4 {
            lemma_frame_library(c, c2, k, value);
            if section_of(k2) == 0 {
                lemma_reads_general(c, c2, k2);
            }
            if section_of(k2) == 1 {
                lemma_reads_audio(c, c2, k2);
            }
            if section_of(k2) == 2 {
                lemma_reads_playback(c, c2, k2);
            }
            if section_of(k2) == 3 {
                lemma_reads_queue(c, c2, k2);
            }
            if section_of(k2) == 4 {
                lemma_same_section_library(c, c2, k, k2, value);
            }
            if section_of(k2) == 5 {
                lemma_reads_search(c, c2, k2);
            }
            if section_of(k2) == 6 {
                lemma_reads_display(c, c2, k2);
            }
            if section_of(k2) == 7 {
                lemma_reads_history(c, c2, k2);
            }
            if section_of(k2) == 8 {
                lemma_reads_behavior(c, c2, k2);
            }
            if section_of(k2) == 9 {
                lemma_reads_ui(c, c2, k2);
            }
        }
        if section_of(k) == 5 {
            lemma_frame_search(c, c2, k, value);
            if section_of(k2) == 0 {
                lemma_reads_general(c, c2, k2);
            }
            if section_of(k2) == 1 {
                lemma_reads_audio(c, c2, k2);
            }
            if section_of(k2) == 2 {
                lemma_reads_playback(c, c2, k2);
            }
            if section_of(k2) == 3 {
                lemma_reads_queue(c, c2, k2);
            }
            if section_of(k2) == 4 {
                lemma_reads_library(c, c2, k2);
            }
            if section_of(k2) == 5 {
                lemma_same_section_search(c, c2, k, k2, value);
            }
            if section_of(k2) == 6 {
                lemma_reads_display(c, c2, k2);
            }
            if section_of(k2) == 7 {
                lemma_reads_history(c, c2, k2);
            }
            if section_of(k2) == 8 {
                lemma_reads_behavior(c, c2, k2);
            }
            if section_of(k2) == 9 {
                lemma_reads_ui(c, c2, k2);
            }
        }
        if section_of(k) == 6 {
            lemma_frame_display(c, c2, k, value);
            if section_of(k2) == 0 {
                lemma_reads_general(c, c2, k2);
            }
            if section_of(k2) == 1 {
                lemma_reads_audio(c, c2, k2);
            }
            if section_of(k2) == 2 {
                lemma_reads_playback(c, c2, k2);
            }
            if section_of(k2) == 3 {
                lemma_reads_queue(c, c2, k2);
            }
            if section_of(k2) == 4 {
                lemma_reads_library(c, c2, k2);
            }
            if section_of(k2) == 5 {
                lemma_reads_search(c, c2, k2);
            }
            if section_of(k2) == 6 {
                lemma_same_section_display(c, c2, k, k2, value);
            }
            if section_of(k2) == 7 {
                lemma_reads_history(c, c2, k2);
            }
            if section_of(k2) == 8 {
                lemma_reads_behavior(c, c2, k2);
            }
            if section_of(k2) == 9 {
                lemma_reads_ui(c, c2, k2);
            }
        }
        if section_of(k) == 7 {
            lemma_frame_history(c, c2, k, value);
            if section_of(k2) == 0 {
                lemma_reads_general(c, c2, k2);
            }
            if section_of(k2) == 1 {
                lemma_reads_audio(c, c2, k2);
            }
            if section_of(k2) == 2 {
                lemma_reads_playback(c, c2, k2);
            }
            if section_of(k2) == 3 {
                lemma_reads_queue(c, c2, k2);
            }
            if section_of(k2) == 4 {
                lemma_reads_library(c, c2, k2);
            }
            if section_of(k2) == 5 {
                lemma_reads_search(c, c2, k2);
            }
            if section_of(k2) == 6 {
                lemma_reads_display(c, c2, k2);
            }
            if section_of(k2) == 7 {
                lemma_same_section_history(c, c2, k, k2, value);
            }
            if section_of(k2) == 8 {
                lemma_reads_behavior(c, c2, k2);
            }
            if section_of(k2) == 9 {
                lemma_reads_ui(c, c2, k2);
            }
        }
        if section_of(k) == 8 {
            lemma_frame_behavior(c, c2, k, value);
            if section_of(k2) == 0 {
                lemma_reads_general(c, c2, k2);
            }
            if section_of(k2) == 1 {
                lemma_reads_audio(c, c2, k2);
            }
            if section_of(k2) == 2 {
                lemma_reads_playback(c, c2, k2);
            }
            if section_of(k2) == 3 {
                lemma_reads_queue(c, c2, k2);
            }
            if section_of(k2) == 4 {
                lemma_reads_library(c, c2, k2);
            }
            if section_of(k2) == 5 {
                lemma_reads_search(c, c2, k2);
            }
            if section_of(k2) == 6 {
                lemma_reads_display(c, c2, k2);
            }
            if section_of(k2) == 7 {
                lemma_reads_history(c, c2, k2);
            }
            if section_of(k2) == 8 {
                lemma_same_section_behavior(c, c2, k, k2, value);
            }
            if section_of(k2) == 9 {
                lemma_reads_ui(c, c2, k2);
            }
        }
        if section_of(k) == 9 {
            lemma_frame_ui(c, c2, k, value);
            if section_of(k2) == 0 {
                lemma_reads_general(c, c2, k2);
            }
            if section_of(k2) == 1 {
                lemma_reads_audio(c, c2, k2);
            }
            if section_of(k2) == 2 {
                lemma_reads_playback(c, c2, k2);
            }
            if section_of(k2) == 3 {
                lemma_reads_queue(c, c2, k2);
            }
            if section_of(k2) == 4 {
                lemma_reads_library(c, c2, k2);
            }
            if section_of(k2) == 5 {
                lemma_reads_search(c, c2, k2);
            }
            if section_of(k2) == 6 {
                lemma_reads_display(c, c2, k2);
            }
            if section_of(k2) == 7 {
                lemma_reads_history(c, c2, k2);
            }
            if section_of(k2) == 8 {
                lemma_reads_behavior(c, c2, k2);
            }
            if section_of(k2) == 9 {
                lemma_same_section_ui(c, c2, k, k2, value);
            }
        }
    }
}

/// A write to a path that names no setting fails with `UnknownKey`.
pub proof fn law_unknown_key_fails(key: Seq<char>, value: Seq<char>)
    requires
        config_key(key) == ConfigKeyView::Unknown,
    ensures
        set_result(config_key(key), key, value) == Err::<(), ConfigErrorView>(
            ConfigErrorView::UnknownKey(key),
        ),
{
}

/// The characters of the section and field names.
proof fn lemma_path_words_text()
    ensures
        "append_to_front"@.len() == 15,
        "append_to_front"@[0] == 'a',
        "append_to_front"@[1] == 'p',
        "append_to_front"@[2] == 'p',
        "append_to_front"@[3] == 'e',
        "append_to_front"@[4] == 'n',
        "append_to_front"@[5] == 'd',
        "append_to_front"@[6] == '_',
        "append_to_front"@[7] == 't',
        "append_to_front"@[8] == 'o',
        "append_to_front"@[9] == '_',
        "append_to_front"@[10] == 'f',
        "append_to_front"@[11] == 'r',
        "append_to_front"@[12] == 'o',
        "append_to_front"@[13] == 'n',
        "append_to_front"@[14] == 't',
        "audio"@.len() == 5,
        "audio"@[0] == 'a',
        "audio"@[1] == 'u',
        "audio"@[2] == 'd',
        "audio"@[3] == 'i',
        "audio"@[4] == 'o',
        "auto_play_next"@.len() == 14,
        "auto_play_next"@[0] == 'a',
        "auto_play_next"@[1] == 'u',
        "auto_play_next"@[2] == 't',
        "auto_play_next"@[3] == 'o',
        "auto_play_next"@[4] == '_',
        "auto_play_next"@[5] == 'p',
        "auto_play_next"@[6] == 'l',
        "auto_play_next"@[7] == 'a',
        "auto_play_next"@[8] == 'y',
        "auto_play_next"@[9] == '_',
        "auto_play_next"@[10] == 'n',
        "auto_play_next"@[11] == 'e',
        "auto_play_next"@[12] == 'x',
        "auto_play_next"@[13] == 't',
        "auto_save"@.len() == 9,
        "auto_save"@[0] == 'a',
        "auto_save"@[1] == 'u',
        "auto_save"@[2] == 't',
        "auto_save"@[3] == 'o',
        "auto_save"@[4] == '_',
        "auto_save"@[5] == 's',
        "auto_save"@[6] == 'a',
        "auto_save"@[7] == 'v',
        "auto_save"@[8] == 'e',
        "auto_save_interval_secs"@.len() == 23,
        "auto_save_interval_secs"@[0] == 'a',
        "auto_save_interval_secs"@[1] == 'u',
        "auto_save_interval_secs"@[2] == 't',
        "auto_save_interval_secs"@[3] == 'o',
        "auto_save_interval_secs"@[4] == '_',
        "auto_save_interval_secs"@[5] == 's',
        "auto_save_interval_secs"@[6] == 'a',
        "auto_save_interval_secs"@[7] == 'v',
        "auto_save_interval_secs"@[8] == 'e',
        "auto_save_interval_secs"@[9] == '_',
        "auto_save_interval_secs"@[10] == 'i',
        "auto_save_interval_secs"@[11] == 'n',
        "auto_save_interval_secs"@[12] == 't',
        "auto_save_interval_secs"@[13] == 'e',
        "auto_save_interval_secs"@[14] == 'r',
        "auto_save_interval_secs"@[15] == 'v',
        "auto_save_interval_secs"@[16] == 'a',
        "auto_save_interval_secs"@[17] == 'l',
        "auto_save_interval_secs"@[18] == '_',
        "auto_save_interval_secs"@[19] == 's',
        "auto_save_interval_secs"@[20] == 'e',
        "auto_save_interval_secs"@[21] == 'c',
        "auto_save_interval_secs"@[22] == 's',
        "behavior"@.len() == 8,
        "behavior"@[0] == 'b',
        "behavior"@[1] == 'e',
        "behavior"@[2] == 'h',
        "behavior"@[3] == 'a',
        "behavior"@[4] == 'v',
        "behavior"@[5] == 'i',
        "behavior"@[6] == 'o',
        "behavior"@[7] == 'r',
        "clear_on_play_all"@.len() == 17,
        "clear_on_play_all"@[0] == 'c',
        "clear_on_play_all"@[1] == 'l',
        "clear_on_play_all"@[2] == 'e',
        "clear_on_play_all"@[3] == 'a',
        "clear_on_play_all"@[4] == 'r',
        "clear_on_play_all"@[5] == '_',
        "clear_on_play_all"@[6] == 'o',
        "clear_on_play_all"@[7] == 'n',
        "clear_on_play_all"@[8] == '_',
        "clear_on_play_all"@[9] == 'p',
        "clear_on_play_all"@[10] == 'l',
        "clear_on_play_all"@[11] == 'a',
        "clear_on_play_all"@[12] == 'y',
        "clear_on_play_all"@[13] == '_',
        "clear_on_play_all"@[14] == 'a',
        "clear_on_play_all"@[15] == 'l',
        "clear_on_play_all"@[16] == 'l',
        "cover_size_limit_mb"@.len() == 19,
        "cover_size_limit_mb"@[0] == 'c',
        "cover_size_limit_mb"@[1] == 'o',
        "cover_size_limit_mb"@[2] == 'v',
        "cover_size_limit_mb"@[3] == 'e',
        "cover_size_limit_mb"@[4] == 'r',
        "cover_size_limit_mb"@[5] == '_',
        "cover_size_limit_mb"@[6] == 's',
        "cover_size_limit_mb"@[7] == 'i',
        "cover_size_limit_mb"@[8] == 'z',
        "cover_size_limit_mb"@[9] == 'e',
        "cover_size_limit_mb"@[10] == '_',
        "cover_size_limit_mb"@[11] == 'l',
        "cover_size_limit_mb"@[12] == 'i',
        "cover_size_limit_mb"@[13] == 'm',
        "cover_size_limit_mb"@[14] == 'i',
        "cover_size_limit_mb"@[15] == 't',
        "cover_size_limit_mb"@[16] == '_',
        "cover_size_limit_mb"@[17] == 'm',
        "cover_size_limit_mb"@[18] == 'b',
        "crossfade_secs"@.len() == 14,
        "crossfade_secs"@[0] == 'c',
        "crossfade_secs"@[1] == 'r',
        "crossfade_secs"@[2] == 'o',
        "crossfade_secs"@[3] == 's',
        "crossfade_secs"@[4] == 's',
        "crossfade_secs"@[5] == 'f',
        "crossfade_secs"@[6] == 'a',
        "crossfade_secs"@[7] == 'd',
        "crossfade_secs"@[8] == 'e',
        "crossfade_secs"@[9] == '_',
        "crossfade_secs"@[10] == 's',
        "crossfade_secs"@[11] == 'e',
        "crossfade_secs"@[12] == 'c',
        "crossfade_secs"@[13] == 's',
        "data_dir"@.len() == 8,
        "data_dir"@[0] == 'd',
        "data_dir"@[1] == 'a',
        "data_dir"@[2] == 't',
        "data_dir"@[3] == 'a',
        "data_dir"@[4] == '_',
        "data_dir"@[5] == 'd',
        "data_dir"@[6] == 'i',
        "data_dir"@[7] == 'r',
        "default_volume"@.len() == 14,
        "default_volume"@[0] == 'd',
        "default_volume"@[1] == 'e',
        "default_volume"@[2] == 'f',
        "default_volume"@[3] == 'a',
        "default_volume"@[4] == 'u',
        "default_volume"@[5] == 'l',
        "default_volume"@[6] == 't',
        "default_volume"@[7] == '_',
        "default_volume"@[8] == 'v',
        "default_volume"@[9] == 'o',
        "default_volume"@[10] == 'l',
        "default_volume"@[11] == 'u',
        "default_volume"@[12] == 'm',
        "default_volume"@[13] == 'e',
        "display"@.len() == 7,
        "display"@[0] == 'd',
        "display"@[1] == 'i',
        "display"@[2] == 's',
        "display"@[3] == 'p',
        "display"@[4] == 'l',
        "display"@[5] == 'a',
        "display"@[6] == 'y',
        "exclude_patterns"@.len() == 16,
        "exclude_patterns"@[0] == 'e',
        "exclude_patterns"@[1] == 'x',
        "exclude_patterns"@[2] == 'c',
        "exclude_patterns"@[3] == 'l',
        "exclude_patterns"@[4] == 'u',
        "exclude_patterns"@[5] == 'd',
        "exclude_patterns"@[6] == 'e',
        "exclude_patterns"@[7] == '_',
        "exclude_patterns"@[8] == 'p',
        "exclude_patterns"@[9] == 'a',
        "exclude_patterns"@[10] == 't',
        "exclude_patterns"@[11] == 't',
        "exclude_patterns"@[12] == 'e',
        "exclude_patterns"@[13] == 'r',
        "exclude_patterns"@[14] == 'n',
        "exclude_patterns"@[15] == 's',
        "font_size"@.len() == 9,
        "font_size"@[0] == 'f',
        "font_size"@[1] == 'o',
        "font_size"@[2] == 'n',
        "font_size"@[3] == 't',
        "font_size"@[4] == '_',
        "font_size"@[5] == 's',
        "font_size"@[6] == 'i',
        "font_size"@[7] == 'z',
        "font_size"@[8] == 'e',
        "fuzzy_match"@.len() == 11,
        "fuzzy_match"@[0] == 'f',
        "fuzzy_match"@[1] == 'u',
        "fuzzy_match"@[2] == 'z',
        "fuzzy_match"@[3] == 'z',
        "fuzzy_match"@[4] == 'y',
        "fuzzy_match"@[5] == '_',
        "fuzzy_match"@[6] == 'm',
        "fuzzy_match"@[7] == 'a',
        "fuzzy_match"@[8] == 't',
        "fuzzy_match"@[9] == 'c',
        "fuzzy_match"@[10] == 'h',
        "gapless"@.len() == 7,
        "gapless"@[0] == 'g',
        "gapless"@[1] == 'a',
        "gapless"@[2] == 'p',
        "gapless"@[3] == 'l',
        "gapless"@[4] == 'e',
        "gapless"@[5] == 's',
        "gapless"@[6] == 's',
        "general"@.len() == 7,
        "general"@[0] == 'g',
        "general"@[1] == 'e',
        "general"@[2] == 'n',
        "general"@[3] == 'e',
        "general"@[4] == 'r',
        "general"@[5] == 'a',
        "general"@[6] == 'l',
        "history"@.len() == 7,
        "history"@[0] == 'h',
        "history"@[1] == 'i',
        "history"@[2] == 's',
        "history"@[3] == 't',
        "history"@[4] == 'o',
        "history"@[5] == 'r',
        "history"@[6] == 'y',
        "keybinds"@.len() == 8,
        "keybinds"@[0] == 'k',
        "keybinds"@[1] == 'e',
        "keybinds"@[2] == 'y',
        "keybinds"@[3] == 'b',
        "keybinds"@[4] == 'i',
        "keybinds"@[5] == 'n',
        "keybinds"@[6] == 'd',
        "keybinds"@[7] == 's',
        "language"@.len() == 8,
        "language"@[0] == 'l',
        "language"@[1] == 'a',
        "language"@[2] == 'n',
        "language"@[3] == 'g',
        "language"@[4] == 'u',
        "language"@[5] == 'a',
        "language"@[6] == 'g',
        "language"@[7] == 'e',
        "library"@.len() == 7,
        "library"@[0] == 'l',
        "library"@[1] == 'i',
        "library"@[2] == 'b',
        "library"@[3] == 'r',
        "library"@[4] == 'a',
        "library"@[5] == 'r',
        "library"@[6] == 'y',
        "log_level"@.len() == 9,
        "log_level"@[0] == 'l',
        "log_level"@[1] == 'o',
        "log_level"@[2] == 'g',
        "log_level"@[3] == '_',
        "log_level"@[4] == 'l',
        "log_level"@[5] == 'e',
        "log_level"@[6] == 'v',
        "log_level"@[7] == 'e',
        "log_level"@[8] == 'l',
        "match_credits"@.len() == 13,
        "match_credits"@[0] == 'm',
        "match_credits"@[1] == 'a',
        "match_credits"@[2] == 't',
        "match_credits"@[3] == 'c',
        "match_credits"@[4] == 'h',
        "match_credits"@[5] == '_',
        "match_credits"@[6] == 'c',
        "match_credits"@[7] == 'r',
        "match_credits"@[8] == 'e',
        "match_credits"@[9] == 'd',
        "match_credits"@[10] == 'i',
        "match_credits"@[11] == 't',
        "match_credits"@[12] == 's',
        "match_hashtags"@.len() == 14,
        "match_hashtags"@[0] == 'm',
        "match_hashtags"@[1] == 'a',
        "match_hashtags"@[2] == 't',
        "match_hashtags"@[3] == 'c',
        "match_hashtags"@[4] == 'h',
        "match_hashtags"@[5] == '_',
        "match_hashtags"@[6] == 'h',
        "match_hashtags"@[7] == 'a',
        "match_hashtags"@[8] == 's',
        "match_hashtags"@[9] == 'h',
        "match_hashtags"@[10] == 't',
        "match_hashtags"@[11] == 'a',
        "match_hashtags"@[12] == 'g',
        "match_hashtags"@[13] == 's',
        "match_lyrics"@.len() == 12,
        "match_lyrics"@[0] == 'm',
        "match_lyrics"@[1] == 'a',
        "match_lyrics"@[2] == 't',
        "match_lyrics"@[3] == 'c',
        "match_lyrics"@[4] == 'h',
        "match_lyrics"@[5] == '_',
        "match_lyrics"@[6] == 'l',
        "match_lyrics"@[7] == 'y',
        "match_lyrics"@[8] == 'r',
        "match_lyrics"@[9] == 'i',
        "match_lyrics"@[10] == 'c',
        "match_lyrics"@[11] == 's',
        "max_entries"@.len() == 11,
        "max_entries"@[0] == 'm',
        "max_entries"@[1] == 'a',
        "max_entries"@[2] == 'x',
        "max_entries"@[3] == '_',
        "max_entries"@[4] == 'e',
        "max_entries"@[5] == 'n',
        "max_entries"@[6] == 't',
        "max_entries"@[7] == 'r',
        "max_entries"@[8] == 'i',
        "max_entries"@[9] == 'e',
        "max_entries"@[10] == 's',
        "max_results"@.len() == 11,
        "max_results"@[0] == 'm',
        "max_results"@[1] == 'a',
        "max_results"@[2] == 'x',
        "max_results"@[3] == '_',
        "max_results"@[4] == 'r',
        "max_results"@[5] == 'e',
        "max_results"@[6] == 's',
        "max_results"@[7] == 'u',
        "max_results"@[8] == 'l',
        "max_results"@[9] == 't',
        "max_results"@[10] == 's',
        "max_size"@.len() == 8,
        "max_size"@[0] == 'm',
        "max_size"@[1] == 'a',
        "max_size"@[2] == 'x',
        "max_size"@[3] == '_',
        "max_size"@[4] == 's',
        "max_size"@[5] == 'i',
        "max_size"@[6] == 'z',
        "max_size"@[7] == 'e',
        "normalize_audio"@.len() == 15,
        "normalize_audio"@[0] == 'n',
        "normalize_audio"@[1] == 'o',
        "normalize_audio"@[2] == 'r',
        "normalize_audio"@[3] == 'm',
        "normalize_audio"@[4] == 'a',
        "normalize_audio"@[5] == 'l',
        "normalize_audio"@[6] == 'i',
        "normalize_audio"@[7] == 'z',
        "normalize_audio"@[8] == 'e',
        "normalize_audio"@[9] == '_',
        "normalize_audio"@[10] == 'a',
        "normalize_audio"@[11] == 'u',
        "normalize_audio"@[12] == 'd',
        "normalize_audio"@[13] == 'i',
        "normalize_audio"@[14] == 'o',
        "now_playing_format"@.len() == 18,
        "now_playing_format"@[0] == 'n',
        "now_playing_format"@[1] == 'o',
        "now_playing_format"@[2] == 'w',
        "now_playing_format"@[3] == '_',
        "now_playing_format"@[4] == 'p',
        "now_playing_format"@[5] == 'l',
        "now_playing_format"@[6] == 'a',
        "now_playing_format"@[7] == 'y',
        "now_playing_format"@[8] == 'i',
        "now_playing_format"@[9] == 'n',
        "now_playing_format"@[10] == 'g',
        "now_playing_format"@[11] == '_',
        "now_playing_format"@[12] == 'f',
        "now_playing_format"@[13] == 'o',
        "now_playing_format"@[14] == 'r',
        "now_playing_format"@[15] == 'm',
        "now_playing_format"@[16] == 'a',
        "now_playing_format"@[17] == 't',
        "on_error"@.len() == 8,
        "on_error"@[0] == 'o',
        "on_error"@[1] == 'n',
        "on_error"@[2] == '_',
        "on_error"@[3] == 'e',
        "on_error"@[4] == 'r',
        "on_error"@[5] == 'r',
        "on_error"@[6] == 'o',
        "on_error"@[7] == 'r',
        "on_playlist_end"@.len() == 15,
        "on_playlist_end"@[0] == 'o',
        "on_playlist_end"@[1] == 'n',
        "on_playlist_end"@[2] == '_',
        "on_playlist_end"@[3] == 'p',
        "on_playlist_end"@[4] == 'l',
        "on_playlist_end"@[5] == 'a',
        "on_playlist_end"@[6] == 'y',
        "on_playlist_end"@[7] == 'l',
        "on_playlist_end"@[8] == 'i',
        "on_playlist_end"@[9] == 's',
        "on_playlist_end"@[10] == 't',
        "on_playlist_end"@[11] == '_',
        "on_playlist_end"@[12] == 'e',
        "on_playlist_end"@[13] == 'n',
        "on_playlist_end"@[14] == 'd',
        "on_startup"@.len() == 10,
        "on_startup"@[0] == 'o',
        "on_startup"@[1] == 'n',
        "on_startup"@[2] == '_',
        "on_startup"@[3] == 's',
        "on_startup"@[4] == 't',
        "on_startup"@[5] == 'a',
        "on_startup"@[6] == 'r',
        "on_startup"@[7] == 't',
        "on_startup"@[8] == 'u',
        "on_startup"@[9] == 'p',
        "output_device"@.len() == 13,
        "output_device"@[0] == 'o',
        "output_device"@[1] == 'u',
        "output_device"@[2] == 't',
        "output_device"@[3] == 'p',
        "output_device"@[4] == 'u',
        "output_device"@[5] == 't',
        "output_device"@[6] == '_',
        "output_device"@[7] == 'd',
        "output_device"@[8] == 'e',
        "output_device"@[9] == 'v',
        "output_device"@[10] == 'i',
        "output_device"@[11] == 'c',
        "output_device"@[12] == 'e',
        "playback"@.len() == 8,
        "playback"@[0] == 'p',
        "playback"@[1] == 'l',
        "playback"@[2] == 'a',
        "playback"@[3] == 'y',
        "playback"@[4] == 'b',
        "playback"@[5] == 'a',
        "playback"@[6] == 'c',
        "playback"@[7] == 'k',
        "prefer_embedded_cover"@.len() == 21,
        "prefer_embedded_cover"@[0] == 'p',
        "prefer_embedded_cover"@[1] == 'r',
        "prefer_embedded_cover"@[2] == 'e',
        "prefer_embedded_cover"@[3] == 'f',
        "prefer_embedded_cover"@[4] == 'e',
        "prefer_embedded_cover"@[5] == 'r',
        "prefer_embedded_cover"@[6] == '_',
        "prefer_embedded_cover"@[7] == 'e',
        "prefer_embedded_cover"@[8] == 'm',
        "prefer_embedded_cover"@[9] == 'b',
        "prefer_embedded_cover"@[10] == 'e',
        "prefer_embedded_cover"@[11] == 'd',
        "prefer_embedded_cover"@[12] == 'd',
        "prefer_embedded_cover"@[13] == 'e',
        "prefer_embedded_cover"@[14] == 'd',
        "prefer_embedded_cover"@[15] == '_',
        "prefer_embedded_cover"@[16] == 'c',
        "prefer_embedded_cover"@[17] == 'o',
        "prefer_embedded_cover"@[18] == 'v',
        "prefer_embedded_cover"@[19] == 'e',
        "prefer_embedded_cover"@[20] == 'r',
        "progress_bar_style"@.len() == 18,
        "progress_bar_style"@[0] == 'p',
        "progress_bar_style"@[1] == 'r',
        "progress_bar_style"@[2] == 'o',
        "progress_bar_style"@[3] == 'g',
        "progress_bar_style"@[4] == 'r',
        "progress_bar_style"@[5] == 'e',
        "progress_bar_style"@[6] == 's',
        "progress_bar_style"@[7] == 's',
        "progress_bar_style"@[8] == '_',
        "progress_bar_style"@[9] == 'b',
        "progress_bar_style"@[10] == 'a',
        "progress_bar_style"@[11] == 'r',
        "progress_bar_style"@[12] == '_',
        "progress_bar_style"@[13] == 's',
        "progress_bar_style"@[14] == 't',
        "progress_bar_style"@[15] == 'y',
        "progress_bar_style"@[16] == 'l',
        "progress_bar_style"@[17] == 'e',
        "queue"@.len() == 5,
        "queue"@[0] == 'q',
        "queue"@[1] == 'u',
        "queue"@[2] == 'e',
        "queue"@[3] == 'u',
        "queue"@[4] == 'e',
        "repeat_mode"@.len() == 11,
        "repeat_mode"@[0] == 'r',
        "repeat_mode"@[1] == 'e',
        "repeat_mode"@[2] == 'p',
        "repeat_mode"@[3] == 'e',
        "repeat_mode"@[4] == 'a',
        "repeat_mode"@[5] == 't',
        "repeat_mode"@[6] == '_',
        "repeat_mode"@[7] == 'm',
        "repeat_mode"@[8] == 'o',
        "repeat_mode"@[9] == 'd',
        "repeat_mode"@[10] == 'e',
        "replaygain_mode"@.len() == 15,
        "replaygain_mode"@[0] == 'r',
        "replaygain_mode"@[1] == 'e',
        "replaygain_mode"@[2] == 'p',
        "replaygain_mode"@[3] == 'l',
        "replaygain_mode"@[4] == 'a',
        "replaygain_mode"@[5] == 'y',
        "replaygain_mode"@[6] == 'g',
        "replaygain_mode"@[7] == 'a',
        "replaygain_mode"@[8] == 'i',
        "replaygain_mode"@[9] == 'n',
        "replaygain_mode"@[10] == '_',
        "replaygain_mode"@[11] == 'm',
        "replaygain_mode"@[12] == 'o',
        "replaygain_mode"@[13] == 'd',
        "replaygain_mode"@[14] == 'e',
        "resume_on_startup"@.len() == 17,
        "resume_on_startup"@[0] == 'r',
        "resume_on_startup"@[1] == 'e',
        "resume_on_startup"@[2] == 's',
        "resume_on_startup"@[3] == 'u',
        "resume_on_startup"@[4] == 'm',
        "resume_on_startup"@[5] == 'e',
        "resume_on_startup"@[6] == '_',
        "resume_on_startup"@[7] == 'o',
        "resume_on_startup"@[8] == 'n',
        "resume_on_startup"@[9] == '_',
        "resume_on_startup"@[10] == 's',
        "resume_on_startup"@[11] == 't',
        "resume_on_startup"@[12] == 'a',
        "resume_on_startup"@[13] == 'r',
        "resume_on_startup"@[14] == 't',
        "resume_on_startup"@[15] == 'u',
        "resume_on_startup"@[16] == 'p',
        "save_on_exit"@.len() == 12,
        "save_on_exit"@[0] == 's',
        "save_on_exit"@[1] == 'a',
        "save_on_exit"@[2] == 'v',
        "save_on_exit"@[3] == 'e',
        "save_on_exit"@[4] == '_',
        "save_on_exit"@[5] == 'o',
        "save_on_exit"@[6] == 'n',
        "save_on_exit"@[7] == '_',
        "save_on_exit"@[8] == 'e',
        "save_on_exit"@[9] == 'x',
        "save_on_exit"@[10] == 'i',
        "save_on_exit"@[11] == 't',
        "scan_on_startup"@.len() == 15,
        "scan_on_startup"@[0] == 's',
        "scan_on_startup"@[1] == 'c',
        "scan_on_startup"@[2] == 'a',
        "scan_on_startup"@[3] == 'n',
        "scan_on_startup"@[4] == '_',
        "scan_on_startup"@[5] == 'o',
        "scan_on_startup"@[6] == 'n',
        "scan_on_startup"@[7] == '_',
        "scan_on_startup"@[8] == 's',
        "scan_on_startup"@[9] == 't',
        "scan_on_startup"@[10] == 'a',
        "scan_on_startup"@[11] == 'r',
        "scan_on_startup"@[12] == 't',
        "scan_on_startup"@[13] == 'u',
        "scan_on_startup"@[14] == 'p',
        "search"@.len() == 6,
        "search"@[0] == 's',
        "search"@[1] == 'e',
        "search"@[2] == 'a',
        "search"@[3] == 'r',
        "search"@[4] == 'c',
        "search"@[5] == 'h',
        "show_cover_art"@.len() == 14,
        "show_cover_art"@[0] == 's',
        "show_cover_art"@[1] == 'h',
        "show_cover_art"@[2] == 'o',
        "show_cover_art"@[3] == 'w',
        "show_cover_art"@[4] == '_',
        "show_cover_art"@[5] == 'c',
        "show_cover_art"@[6] == 'o',
        "show_cover_art"@[7] == 'v',
        "show_cover_art"@[8] == 'e',
        "show_cover_art"@[9] == 'r',
        "show_cover_art"@[10] == '_',
        "show_cover_art"@[11] == 'a',
        "show_cover_art"@[12] == 'r',
        "show_cover_art"@[13] == 't',
        "show_duration"@.len() == 13,
        "show_duration"@[0] == 's',
        "show_duration"@[1] == 'h',
        "show_duration"@[2] == 'o',
        "show_duration"@[3] == 'w',
        "show_duration"@[4] == '_',
        "show_duration"@[5] == 'd',
        "show_duration"@[6] == 'u',
        "show_duration"@[7] == 'r',
        "show_duration"@[8] == 'a',
        "show_duration"@[9] == 't',
        "show_duration"@[10] == 'i',
        "show_duration"@[11] == 'o',
        "show_duration"@[12] == 'n',
        "show_lyrics"@.len() == 11,
        "show_lyrics"@[0] == 's',
        "show_lyrics"@[1] == 'h',
        "show_lyrics"@[2] == 'o',
        "show_lyrics"@[3] == 'w',
        "show_lyrics"@[4] == '_',
        "show_lyrics"@[5] == 'l',
        "show_lyrics"@[6] == 'y',
        "show_lyrics"@[7] == 'r',
        "show_lyrics"@[8] == 'i',
        "show_lyrics"@[9] == 'c',
        "show_lyrics"@[10] == 's',
        "show_playlist_count"@.len() == 19,
        "show_playlist_count"@[0] == 's',
        "show_playlist_count"@[1] == 'h',
        "show_playlist_count"@[2] == 'o',
        "show_playlist_count"@[3] == 'w',
        "show_playlist_count"@[4] == '_',
        "show_playlist_count"@[5] == 'p',
        "show_playlist_count"@[6] == 'l',
        "show_playlist_count"@[7] == 'a',
        "show_playlist_count"@[8] == 'y',
        "show_playlist_count"@[9] == 'l',
        "show_playlist_count"@[10] == 'i',
        "show_playlist_count"@[11] == 's',
        "show_playlist_count"@[12] == 't',
        "show_playlist_count"@[13] == '_',
        "show_playlist_count"@[14] == 'c',
        "show_playlist_count"@[15] == 'o',
        "show_playlist_count"@[16] == 'u',
        "show_playlist_count"@[17] == 'n',
        "show_playlist_count"@[18] == 't',
        "show_queue"@.len() == 10,
        "show_queue"@[0] == 's',
        "show_queue"@[1] == 'h',
        "show_queue"@[2] == 'o',
        "show_queue"@[3] == 'w',
        "show_queue"@[4] == '_',
        "show_queue"@[5] == 'q',
        "show_queue"@[6] == 'u',
        "show_queue"@[7] == 'e',
        "show_queue"@[8] == 'u',
        "show_queue"@[9] == 'e',
        "shuffle_on_start"@.len() == 16,
        "shuffle_on_start"@[0] == 's',
        "shuffle_on_start"@[1] == 'h',
        "shuffle_on_start"@[2] == 'u',
        "shuffle_on_start"@[3] == 'f',
        "shuffle_on_start"@[4] == 'f',
        "shuffle_on_start"@[5] == 'l',
        "shuffle_on_start"@[6] == 'e',
        "shuffle_on_start"@[7] == '_',
        "shuffle_on_start"@[8] == 'o',
        "shuffle_on_start"@[9] == 'n',
        "shuffle_on_start"@[10] == '_',
        "shuffle_on_start"@[11] == 's',
        "shuffle_on_start"@[12] == 't',
        "shuffle_on_start"@[13] == 'a',
        "shuffle_on_start"@[14] == 'r',
        "shuffle_on_start"@[15] == 't',
        "stop_at_queue_end"@.len() == 17,
        "stop_at_queue_end"@[0] == 's',
        "stop_at_queue_end"@[1] == 't',
        "stop_at_queue_end"@[2] == 'o',
        "stop_at_queue_end"@[3] == 'p',
        "stop_at_queue_end"@[4] == '_',
        "stop_at_queue_end"@[5] == 'a',
        "stop_at_queue_end"@[6] == 't',
        "stop_at_queue_end"@[7] == '_',
        "stop_at_queue_end"@[8] == 'q',
        "stop_at_queue_end"@[9] == 'u',
        "stop_at_queue_end"@[10] == 'e',
        "stop_at_queue_end"@[11] == 'u',
        "stop_at_queue_end"@[12] == 'e',
        "stop_at_queue_end"@[13] == '_',
        "stop_at_queue_end"@[14] == 'e',
        "stop_at_queue_end"@[15] == 'n',
        "stop_at_queue_end"@[16] == 'd',
        "theme"@.len() == 5,
        "theme"@[0] == 't',
        "theme"@[1] == 'h',
        "theme"@[2] == 'e',
        "theme"@[3] == 'm',
        "theme"@[4] == 'e',
        "time_format"@.len() == 11,
        "time_format"@[0] == 't',
        "time_format"@[1] == 'i',
        "time_format"@[2] == 'm',
        "time_format"@[3] == 'e',
        "time_format"@[4] == '_',
        "time_format"@[5] == 'f',
        "time_format"@[6] == 'o',
        "time_format"@[7] == 'r',
        "time_format"@[8] == 'm',
        "time_format"@[9] == 'a',
        "time_format"@[10] == 't',
        "ui"@.len() == 2,
        "ui"@[0] == 'u',
        "ui"@[1] == 'i',
        "watch_dirs"@.len() == 10,
        "watch_dirs"@[0] == 'w',
        "watch_dirs"@[1] == 'a',
        "watch_dirs"@[2] == 't',
        "watch_dirs"@[3] == 'c',
        "watch_dirs"@[4] == 'h',
        "watch_dirs"@[5] == '_',
        "watch_dirs"@[6] == 'd',
        "watch_dirs"@[7] == 'i',
        "watch_dirs"@[8] == 'r',
        "watch_dirs"@[9] == 's',
{
    reveal_strlit("append_to_front");
    assert("append_to_front"@ =~= seq!['a', 'p', 'p', 'e', 'n', 'd', '_', 't', 'o', '_', 'f', 'r', 'o', 'n', 't']);
    reveal_strlit("audio");
    assert("audio"@ =~= seq!['a', 'u', 'd', 'i', 'o']);
    reveal_strlit("auto_play_next");
    assert("auto_play_next"@ =~= seq!['a', 'u', 't', 'o', '_', 'p', 'l', 'a', 'y', '_', 'n', 'e', 'x', 't']);
    reveal_strlit("auto_save");
    assert("auto_save"@ =~= seq!['a', 'u', 't', 'o', '_', 's', 'a', 'v', 'e']);
    reveal_strlit("auto_save_interval_secs");
    assert("auto_save_interval_secs"@ =~= seq!['a', 'u', 't', 'o', '_', 's', 'a', 'v', 'e', '_', 'i', 'n', 't', 'e', 'r', 'v', 'a', 'l', '_', 's', 'e', 'c', 's']);
    reveal_strlit("behavior");
    assert("behavior"@ =~= seq!['b', 'e', 'h', 'a', 'v', 'i', 'o', 'r']);
    reveal_strlit("clear_on_play_all");
    assert("clear_on_play_all"@ =~= seq!['c', 'l', 'e', 'a', 'r', '_', 'o', 'n', '_', 'p', 'l', 'a', 'y', '_', 'a', 'l', 'l']);
    reveal_strlit("cover_size_limit_mb");
    assert("cover_size_limit_mb"@ =~= seq!['c', 'o', 'v', 'e', 'r', '_', 's', 'i', 'z', 'e', '_', 'l', 'i', 'm', 'i', 't', '_', 'm', 'b']);
    reveal_strlit("crossfade_secs");
    assert("crossfade_secs"@ =~= seq!['c', 'r', 'o', 's', 's', 'f', 'a', 'd', 'e', '_', 's', 'e', 'c', 's']);
    reveal_strlit("data_dir");
    assert("data_dir"@ =~= seq!['d', 'a', 't', 'a', '_', 'd', 'i', 'r']);
    reveal_strlit("default_volume");
    assert("default_volume"@ =~= seq!['d', 'e', 'f', 'a', 'u', 'l', 't', '_', 'v', 'o', 'l', 'u', 'm', 'e']);
    reveal_strlit("display");
    assert("display"@ =~= seq!['d', 'i', 's', 'p', 'l', 'a', 'y']);
    reveal_strlit("exclude_patterns");
    assert("exclude_patterns"@ =~= seq!['e', 'x', 'c', 'l', 'u', 'd', 'e', '_', 'p', 'a', 't', 't', 'e', 'r', 'n', 's']);
    reveal_strlit("font_size");
    assert("font_size"@ =~= seq!['f', 'o', 'n', 't', '_', 's', 'i', 'z', 'e']);
    reveal_strlit("fuzzy_match");
    assert("fuzzy_match"@ =~= seq!['f', 'u', 'z', 'z', 'y', '_', 'm', 'a', 't', 'c', 'h']);
    reveal_strlit("gapless");
    assert("gapless"@ =~= seq!['g', 'a', 'p', 'l', 'e', 's', 's']);
    reveal_strlit("general");
    assert("general"@ =~= seq!['g', 'e', 'n', 'e', 'r', 'a', 'l']);
    reveal_strlit("history");
    assert("history"@ =~= seq!['h', 'i', 's', 't', 'o', 'r', 'y']);
    reveal_strlit("keybinds");
    assert("keybinds"@ =~= seq!['k', 'e', 'y', 'b', 'i', 'n', 'd', 's']);
    reveal_strlit("language");
    assert("language"@ =~= seq!['l', 'a', 'n', 'g', 'u', 'a', 'g', 'e']);
    reveal_strlit("library");
    assert("library"@ =~= seq!['l', 'i', 'b', 'r', 'a', 'r', 'y']);
    reveal_strlit("log_level");
    assert("log_level"@ =~= seq!['l', 'o', 'g', '_', 'l', 'e', 'v', 'e', 'l']);
    reveal_strlit("match_credits");
    assert("match_credits"@ =~= seq!['m', 'a', 't', 'c', 'h', '_', 'c', 'r', 'e', 'd', 'i', 't', 's']);
    reveal_strlit("match_hashtags");
    assert("match_hashtags"@ =~= seq!['m', 'a', 't', 'c', 'h', '_', 'h', 'a', 's', 'h', 't', 'a', 'g', 's']);
    reveal_strlit("match_lyrics");
    assert("match_lyrics"@ =~= seq!['m', 'a', 't', 'c', 'h', '_', 'l', 'y', 'r', 'i', 'c', 's']);
    reveal_strlit("max_entries");
    assert("max_entries"@ =~= seq!['m', 'a', 'x', '_', 'e', 'n', 't', 'r', 'i', 'e', 's']);
    reveal_strlit("max_results");
    assert("max_results"@ =~= seq!['m', 'a', 'x', '_', 'r', 'e', 's', 'u', 'l', 't', 's']);
    reveal_strlit("max_size");
    assert("max_size"@ =~= seq!['m', 'a', 'x', '_', 's', 'i', 'z', 'e']);
    reveal_strlit("normalize_audio");
    assert("normalize_audio"@ =~= seq!['n', 'o', 'r', 'm', 'a', 'l', 'i', 'z', 'e', '_', 'a', 'u', 'd', 'i', 'o']);
    reveal_strlit("now_playing_format");
    assert("now_playing_format"@ =~= seq!['n', 'o', 'w', '_', 'p', 'l', 'a', 'y', 'i', 'n', 'g', '_', 'f', 'o', 'r', 'm', 'a', 't']);
    reveal_strlit("on_error");
    assert("on_error"@ =~= seq!['o', 'n', '_', 'e', 'r', 'r', 'o', 'r']);
    reveal_strlit("on_playlist_end");
    assert("on_playlist_end"@ =~= seq!['o', 'n', '_', 'p', 'l', 'a', 'y', 'l', 'i', 's', 't', '_', 'e', 'n', 'd']);
    reveal_strlit("on_startup");
    assert("on_startup"@ =~= seq!['o', 'n', '_', 's', 't', 'a', 'r', 't', 'u', 'p']);
    reveal_strlit("output_device");
    assert("output_device"@ =~= seq!['o', 'u', 't', 'p', 'u', 't', '_', 'd', 'e', 'v', 'i', 'c', 'e']);
    reveal_strlit("playback");
    assert("playback"@ =~= seq!['p', 'l', 'a', 'y', 'b', 'a', 'c', 'k']);
    reveal_strlit("prefer_embedded_cover");
    assert("prefer_embedded_cover"@ =~= seq!['p', 'r', 'e', 'f', 'e', 'r', '_', 'e', 'm', 'b', 'e', 'd', 'd', 'e', 'd', '_', 'c', 'o', 'v', 'e', 'r']);
    reveal_strlit("progress_bar_style");
    assert("progress_bar_style"@ =~= seq!['p', 'r', 'o', 'g', 'r', 'e', 's', 's', '_', 'b', 'a', 'r', '_', 's', 't', 'y', 'l', 'e']);
    reveal_strlit("queue");
    assert("queue"@ =~= seq!['q', 'u', 'e', 'u', 'e']);
    reveal_strlit("repeat_mode");
    assert("repeat_mode"@ =~= seq!['r', 'e', 'p', 'e', 'a', 't', '_', 'm', 'o', 'd', 'e']);
    reveal_strlit("replaygain_mode");
    assert("replaygain_mode"@ =~= seq!['r', 'e', 'p', 'l', 'a', 'y', 'g', 'a', 'i', 'n', '_', 'm', 'o', 'd', 'e']);
    reveal_strlit("resume_on_startup");
    assert("resume_on_startup"@ =~= seq!['r', 'e', 's', 'u', 'm', 'e', '_', 'o', 'n', '_', 's', 't', 'a', 'r', 't', 'u', 'p']);
    reveal_strlit("save_on_exit");
    assert("save_on_exit"@ =~= seq!['s', 'a', 'v', 'e', '_', 'o', 'n', '_', 'e', 'x', 'i', 't']);
    reveal_strlit("scan_on_startup");
    assert("scan_on_startup"@ =~= seq!['s', 'c', 'a', 'n', '_', 'o', 'n', '_', 's', 't', 'a', 'r', 't', 'u', 'p']);
    reveal_strlit("search");
    assert("search"@ =~= seq!['s', 'e', 'a', 'r', 'c', 'h']);
    reveal_strlit("show_cover_art");
    assert("show_cover_art"@ =~= seq!['s', 'h', 'o', 'w', '_', 'c', 'o', 'v', 'e', 'r', '_', 'a', 'r', 't']);
    reveal_strlit("show_duration");
    assert("show_duration"@ =~= seq!['s', 'h', 'o', 'w', '_', 'd', 'u', 'r', 'a', 't', 'i', 'o', 'n']);
    reveal_strlit("show_lyrics");
    assert("show_lyrics"@ =~= seq!['s', 'h', 'o', 'w', '_', 'l', 'y', 'r', 'i', 'c', 's']);
    reveal_strlit("show_playlist_count");
    assert("show_playlist_count"@ =~= seq!['s', 'h', 'o', 'w', '_', 'p', 'l', 'a', 'y', 'l', 'i', 's', 't', '_', 'c', 'o', 'u', 'n', 't']);
    reveal_strlit("show_queue");
    assert("show_queue"@ =~= seq!['s', 'h', 'o', 'w', '_', 'q', 'u', 'e', 'u', 'e']);
    reveal_strlit("shuffle_on_start");
    assert("shuffle_on_start"@ =~= seq!['s', 'h', 'u', 'f', 'f', 'l', 'e', '_', 'o', 'n', '_', 's', 't', 'a', 'r', 't']);
    reveal_strlit("stop_at_queue_end");
    assert("stop_at_queue_end"@ =~= seq!['s', 't', 'o', 'p', '_', 'a', 't', '_', 'q', 'u', 'e', 'u', 'e', '_', 'e', 'n', 'd']);
    reveal_strlit("theme");
    assert("theme"@ =~= seq!['t', 'h', 'e', 'm', 'e']);
    reveal_strlit("time_format");
    assert("time_format"@ =~= seq!['t', 'i', 'm', 'e', '_', 'f', 'o', 'r', 'm', 'a', 't']);
    reveal_strlit("ui");
    assert("ui"@ =~= seq!['u', 'i']);
    reveal_strlit("watch_dirs");
    assert("watch_dirs"@ =~= seq!['w', 'a', 't', 'c', 'h', '_', 'd', 'i', 'r', 's']);
}

proof fn lemma_paths_general()
    ensures
        config_key("general"@ + seq!['.'] + "data_dir"@) == ConfigKeyView::GeneralDataDir,
        config_key("general"@ + seq!['.'] + "auto_save"@) == ConfigKeyView::GeneralAutoSave,
        config_key("general"@ + seq!['.'] + "auto_save_interval_secs"@) == ConfigKeyView::GeneralAutoSaveIntervalSecs,
        config_key("general"@ + seq!['.'] + "language"@) == ConfigKeyView::GeneralLanguage,
        config_key("general"@ + seq!['.'] + "log_level"@) == ConfigKeyView::GeneralLogLevel,
{
    lemma_path_words_text();
    lemma_split_two("general"@, "data_dir"@, '.');
    lemma_split_two("general"@, "auto_save"@, '.');
    lemma_split_two("general"@, "auto_save_interval_secs"@, '.');
    lemma_split_two("general"@, "language"@, '.');
    lemma_split_two("general"@, "log_level"@, '.');
}

proof fn lemma_paths_audio()
    ensures
        config_key("audio"@ + seq!['.'] + "default_volume"@) == ConfigKeyView::AudioDefaultVolume,
        config_key("audio"@ + seq!['.'] + "output_device"@) == ConfigKeyView::AudioOutputDevice,
        config_key("audio"@ + seq!['.'] + "crossfade_secs"@) == ConfigKeyView::AudioCrossfadeSecs,
        config_key("audio"@ + seq!['.'] + "gapless"@) == ConfigKeyView::AudioGapless,
        config_key("audio"@ + seq!['.'] + "normalize_audio"@) == ConfigKeyView::AudioNormalizeAudio,
        config_key("audio"@ + seq!['.'] + "replaygain_mode"@) == ConfigKeyView::AudioReplaygainMode,
{
    lemma_path_words_text();
    lemma_split_two("audio"@, "default_volume"@, '.');
    lemma_split_two("audio"@, "output_device"@, '.');
    lemma_split_two("audio"@, "crossfade_secs"@, '.');
    lemma_split_two("audio"@, "gapless"@, '.');
    lemma_split_two("audio"@, "normalize_audio"@, '.');
    lemma_split_two("audio"@, "replaygain_mode"@, '.');
}

proof fn lemma_paths_playback()
    ensures
        config_key("playback"@ + seq!['.'] + "repeat_mode"@) == ConfigKeyView::PlaybackRepeatMode,
        config_key("playback"@ + seq!['.'] + "shuffle_on_start"@) == ConfigKeyView::PlaybackShuffleOnStart,
        config_key("playback"@ + seq!['.'] + "auto_play_next"@) == ConfigKeyView::PlaybackAutoPlayNext,
        config_key("playback"@ + seq!['.'] + "stop_at_queue_end"@) == ConfigKeyView::PlaybackStopAtQueueEnd,
        config_key("playback"@ + seq!['.'] + "resume_on_startup"@) == ConfigKeyView::PlaybackResumeOnStartup,
{
    lemma_path_words_text();
    lemma_split_two("playback"@, "repeat_mode"@, '.');
    lemma_split_two("playback"@, "shuffle_on_start"@, '.');
    lemma_split_two("playback"@, "auto_play_next"@, '.');
    lemma_split_two("playback"@, "stop_at_queue_end"@, '.');
    lemma_split_two("playback"@, "resume_on_startup"@, '.');
}

proof fn lemma_paths_queue()
    ensures
        config_key("queue"@ + seq!['.'] + "max_size"@) == ConfigKeyView::QueueMaxSize,
        config_key("queue"@ + seq!['.'] + "clear_on_play_all"@) == ConfigKeyView::QueueClearOnPlayAll,
        config_key("queue"@ + seq!['.'] + "append_to_front"@) == ConfigKeyView::QueueAppendToFront,
{
    lemma_path_words_text();
    lemma_split_two("queue"@, "max_size"@, '.');
    lemma_split_two("queue"@, "clear_on_play_all"@, '.');
    lemma_split_two("queue"@, "append_to_front"@, '.');
}

proof fn lemma_paths_library()
    ensures
        config_key("library"@ + seq!['.'] + "scan_on_startup"@) == ConfigKeyView::LibraryScanOnStartup,
        config_key("library"@ + seq!['.'] + "watch_dirs"@) == ConfigKeyView::LibraryWatchDirs,
        config_key("library"@ + seq!['.'] + "exclude_patterns"@) == ConfigKeyView::LibraryExcludePatterns,
        config_key("library"@ + seq!['.'] + "cover_size_limit_mb"@) == ConfigKeyView::LibraryCoverSizeLimitMb,
        config_key("library"@ + seq!['.'] + "prefer_embedded_cover"@) == ConfigKeyView::LibraryPreferEmbeddedCover,
{
    lemma_path_words_text();
    lemma_split_two("library"@, "scan_on_startup"@, '.');
    lemma_split_two("library"@, "watch_dirs"@, '.');
    lemma_split_two("library"@, "exclude_patterns"@, '.');
    lemma_split_two("library"@, "cover_size_limit_mb"@, '.');
    lemma_split_two("library"@, "prefer_embedded_cover"@, '.');
}

proof fn lemma_paths_search()
    ensures
        config_key("search"@ + seq!['.'] + "fuzzy_match"@) == ConfigKeyView::SearchFuzzyMatch,
        config_key("search"@ + seq!['.'] + "match_credits"@) == ConfigKeyView::SearchMatchCredits,
        config_key("search"@ + seq!['.'] + "match_hashtags"@) == ConfigKeyView::SearchMatchHashtags,
        config_key("search"@ + seq!['.'] + "match_lyrics"@) == ConfigKeyView::SearchMatchLyrics,
        config_key("search"@ + seq!['.'] + "max_results"@) == ConfigKeyView::SearchMaxResults,
{
    lemma_path_words_text();
    lemma_split_two("search"@, "fuzzy_match"@, '.');
    lemma_split_two("search"@, "match_credits"@, '.');
    lemma_split_two("search"@, "match_hashtags"@, '.');
    lemma_split_two("search"@, "match_lyrics"@, '.');
    lemma_split_two("search"@, "max_results"@, '.');
}

proof fn lemma_paths_display()
    ensures
        config_key("display"@ + seq!['.'] + "time_format"@) == ConfigKeyView::DisplayTimeFormat,
        config_key("display"@ + seq!['.'] + "progress_bar_style"@) == ConfigKeyView::DisplayProgressBarStyle,
        config_key("display"@ + seq!['.'] + "show_duration"@) == ConfigKeyView::DisplayShowDuration,
        config_key("display"@ + seq!['.'] + "show_playlist_count"@) == ConfigKeyView::DisplayShowPlaylistCount,
        config_key("display"@ + seq!['.'] + "now_playing_format"@) == ConfigKeyView::DisplayNowPlayingFormat,
{
    lemma_path_words_text();
    lemma_split_two("display"@, "time_format"@, '.');
    lemma_split_two("display"@, "progress_bar_style"@, '.');
    lemma_split_two("display"@, "show_duration"@, '.');
    lemma_split_two("display"@, "show_playlist_count"@, '.');
    lemma_split_two("display"@, "now_playing_format"@, '.');
}

proof fn lemma_paths_history()
    ensures
        config_key("history"@ + seq!['.'] + "max_entries"@) == ConfigKeyView::HistoryMaxEntries,
        config_key("history"@ + seq!['.'] + "save_on_exit"@) == ConfigKeyView::HistorySaveOnExit,
{
    lemma_path_words_text();
    lemma_split_two("history"@, "max_entries"@, '.');
    lemma_split_two("history"@, "save_on_exit"@, '.');
}

proof fn lemma_paths_behavior()
    ensures
        config_key("behavior"@ + seq!['.'] + "on_startup"@) == ConfigKeyView::BehaviorOnStartup,
        config_key("behavior"@ + seq!['.'] + "on_playlist_end"@) == ConfigKeyView::BehaviorOnPlaylistEnd,
        config_key("behavior"@ + seq!['.'] + "on_error"@) == ConfigKeyView::BehaviorOnError,
{
    lemma_path_words_text();
    lemma_split_two("behavior"@, "on_startup"@, '.');
    lemma_split_two("behavior"@, "on_playlist_end"@, '.');
    lemma_split_two("behavior"@, "on_error"@, '.');
}

proof fn lemma_paths_ui()
    ensures
        config_key("ui"@ + seq!['.'] + "theme"@) == ConfigKeyView::UiTheme,
        config_key("ui"@ + seq!['.'] + "font_size"@) == ConfigKeyView::UiFontSize,
        config_key("ui"@ + seq!['.'] + "show_cover_art"@) == ConfigKeyView::UiShowCoverArt,
        config_key("ui"@ + seq!['.'] + "show_lyrics"@) == ConfigKeyView::UiShowLyrics,
        config_key("ui"@ + seq!['.'] + "show_queue"@) == ConfigKeyView::UiShowQueue,
{
    lemma_path_words_text();
    lemma_split_two("ui"@, "theme"@, '.');
    lemma_split_two("ui"@, "font_size"@, '.');
    lemma_split_two("ui"@, "show_cover_art"@, '.');
    lemma_split_two("ui"@, "show_lyrics"@, '.');
    lemma_split_two("ui"@, "show_queue"@, '.');
}

/// Every documented dot path names its own setting: `section.field` for
/// each field of each section, and `keybinds.<action>` the binding of that
/// action.
pub proof fn law_documented_paths(action: Seq<char>)
    requires
        !action.contains('.'),
    ensures
        config_key("general"@ + seq!['.'] + "data_dir"@) == ConfigKeyView::GeneralDataDir,
        config_key("general"@ + seq!['.'] + "auto_save"@) == ConfigKeyView::GeneralAutoSave,
        config_key("general"@ + seq!['.'] + "auto_save_interval_secs"@) == ConfigKeyView::GeneralAutoSaveIntervalSecs,
        config_key("general"@ + seq!['.'] + "language"@) == ConfigKeyView::GeneralLanguage,
        config_key("general"@ + seq!['.'] + "log_level"@) == ConfigKeyView::GeneralLogLevel,
        config_key("audio"@ + seq!['.'] + "default_volume"@) == ConfigKeyView::AudioDefaultVolume,
        config_key("audio"@ + seq!['.'] + "output_device"@) == ConfigKeyView::AudioOutputDevice,
        config_key("audio"@ + seq!['.'] + "crossfade_secs"@) == ConfigKeyView::AudioCrossfadeSecs,
        config_key("audio"@ + seq!['.'] + "gapless"@) == ConfigKeyView::AudioGapless,
        config_key("audio"@ + seq!['.'] + "normalize_audio"@) == ConfigKeyView::AudioNormalizeAudio,
        config_key("audio"@ + seq!['.'] + "replaygain_mode"@) == ConfigKeyView::AudioReplaygainMode,
        config_key("playback"@ + seq!['.'] + "repeat_mode"@) == ConfigKeyView::PlaybackRepeatMode,
        config_key("playback"@ + seq!['.'] + "shuffle_on_start"@) == ConfigKeyView::PlaybackShuffleOnStart,
        config_key("playback"@ + seq!['.'] + "auto_play_next"@) == ConfigKeyView::PlaybackAutoPlayNext,
        config_key("playback"@ + seq!['.'] + "stop_at_queue_end"@) == ConfigKeyView::PlaybackStopAtQueueEnd,
        config_key("playback"@ + seq!['.'] + "resume_on_startup"@) == ConfigKeyView::PlaybackResumeOnStartup,
        config_key("queue"@ + seq!['.'] + "max_size"@) == ConfigKeyView::QueueMaxSize,
        config_key("queue"@ + seq!['.'] + "clear_on_play_all"@) == ConfigKeyView::QueueClearOnPlayAll,
        config_key("queue"@ + seq!['.'] + "append_to_front"@) == ConfigKeyView::QueueAppendToFront,
        config_key("library"@ + seq!['.'] + "scan_on_startup"@) == ConfigKeyView::LibraryScanOnStartup,
        config_key("library"@ + seq!['.'] + "watch_dirs"@) == ConfigKeyView::LibraryWatchDirs,
        config_key("library"@ + seq!['.'] + "exclude_patterns"@) == ConfigKeyView::LibraryExcludePatterns,
        config_key("library"@ + seq!['.'] + "cover_size_limit_mb"@) == ConfigKeyView::LibraryCoverSizeLimitMb,
        config_key("library"@ + seq!['.'] + "prefer_embedded_cover"@) == ConfigKeyView::LibraryPreferEmbeddedCover,
        config_key("search"@ + seq!['.'] + "fuzzy_match"@) == ConfigKeyView::SearchFuzzyMatch,
        config_key("search"@ + seq!['.'] + "match_credits"@) == ConfigKeyView::SearchMatchCredits,
        config_key("search"@ + seq!['.'] + "match_hashtags"@) == ConfigKeyView::SearchMatchHashtags,
        config_key("search"@ + seq!['.'] + "match_lyrics"@) == ConfigKeyView::SearchMatchLyrics,
        config_key("search"@ + seq!['.'] + "max_results"@) == ConfigKeyView::SearchMaxResults,
        config_key("display"@ + seq!['.'] + "time_format"@) == ConfigKeyView::DisplayTimeFormat,
        config_key("display"@ + seq!['.'] + "progress_bar_style"@) == ConfigKeyView::DisplayProgressBarStyle,
        config_key("display"@ + seq!['.'] + "show_duration"@) == ConfigKeyView::DisplayShowDuration,
        config_key("display"@ + seq!['.'] + "show_playlist_count"@) == ConfigKeyView::DisplayShowPlaylistCount,
        config_key("display"@ + seq!['.'] + "now_playing_format"@) == ConfigKeyView::DisplayNowPlayingFormat,
        config_key("history"@ + seq!['.'] + "max_entries"@) == ConfigKeyView::HistoryMaxEntries,
        config_key("history"@ + seq!['.'] + "save_on_exit"@) == ConfigKeyView::HistorySaveOnExit,
        config_key("behavior"@ + seq!['.'] + "on_startup"@) == ConfigKeyView::BehaviorOnStartup,
        config_key("behavior"@ + seq!['.'] + "on_playlist_end"@) == ConfigKeyView::BehaviorOnPlaylistEnd,
        config_key("behavior"@ + seq!['.'] + "on_error"@) == ConfigKeyView::BehaviorOnError,
        config_key("ui"@ + seq!['.'] + "theme"@) == ConfigKeyView::UiTheme,
        config_key("ui"@ + seq!['.'] + "font_size"@) == ConfigKeyView::UiFontSize,
        config_key("ui"@ + seq!['.'] + "show_cover_art"@) == ConfigKeyView::UiShowCoverArt,
        config_key("ui"@ + seq!['.'] + "show_lyrics"@) == ConfigKeyView::UiShowLyrics,
        config_key("ui"@ + seq!['.'] + "show_queue"@) == ConfigKeyView::UiShowQueue,
        config_key("keybinds"@ + seq!['.'] + action) == ConfigKeyView::Keybind(action),
{
    lemma_paths_general();
    lemma_paths_audio();
    lemma_paths_playback();
    lemma_paths_queue();
    lemma_paths_library();
    lemma_paths_search();
    lemma_paths_display();
    lemma_paths_history();
    lemma_paths_behavior();
    lemma_paths_ui();
    lemma_path_words_text();
    lemma_split_two("keybinds"@, action, '.');
}

/// A list setting (or a song's hashtags) is read from comma-separated
/// text: a text without a comma is one item, and two texts without commas
/// joined by one comma are two items, each trimmed.
pub proof fn law_comma_separated(a: Seq<char>, b: Seq<char>)
    requires
        !a.contains(','),
        !b.contains(','),
    ensures
        trimmed_pieces(a) == seq![trimmed(a)],
        trimmed_pieces(a + seq![','] + b) == seq![trimmed(a), trimmed(b)],
{
    lemma_split_none(a, ',');
    lemma_split_two(a, b, ',');
    assert(trimmed_pieces(a) =~= seq![trimmed(a)]);
    assert(trimmed_pieces(a + seq![','] + b) =~= seq![trimmed(a), trimmed(b)]);
}

} // verus!
