//! The command language: a line of user input split into shell-like words and
//! read as one `Command`.
use vstd::prelude::*;
use crate::text::{
    chars_of, join_text, join_with, lowercase, owned, parse_u64, parse_u8, parse_unsigned, push_char,
    text_eq, to_lowercase, trim, trimmed, views,
};

verus! {

/// All supported commands.
#[derive(Debug, Clone, PartialEq, Eq)]
pub enum Command {
    Play { name: Option<String>, all: bool },
    Pause,
    Resume,
    Next,
    Prev,
    Stop,
    Volume(u8),
    Seek(u64),
    Repeat(String),
    Shuffle,
    QueueAdd { name: Option<String>, all: bool },
    QueueShow,
    QueueClear,
    Search(String),
    Import { path: String },
    Export { path: String },
    RemoveSong(String),
    EditSong { title: String, field: String, value: String },
    Lyrics { title: String, text: Option<String> },
    Stats,
    History,
    ListPlaylists,
    ShowPlaylist(String),
    AddToPlaylist { song: String, playlist: String },
    SetConfig { key: String, value: String },
    GetConfig(String),
    Save,
    Load,
    Plugin(String),
    Help,
    Exit,
}

/// A command with its texts taken by their characters.
pub enum CommandView {
    Play { name: Option<Seq<char>>, all: bool },
    Pause,
    Resume,
    Next,
    Prev,
    Stop,
    Volume(u8),
    Seek(u64),
    Repeat(Seq<char>),
    Shuffle,
    QueueAdd { name: Option<Seq<char>>, all: bool },
    QueueShow,
    QueueClear,
    Search(Seq<char>),
    Import { path: Seq<char> },
    Export { path: Seq<char> },
    RemoveSong(Seq<char>),
    EditSong { title: Seq<char>, field: Seq<char>, value: Seq<char> },
    Lyrics { title: Seq<char>, text: Option<Seq<char>> },
    Stats,
    History,
    ListPlaylists,
    ShowPlaylist(Seq<char>),
    AddToPlaylist { song: Seq<char>, playlist: Seq<char> },
    SetConfig { key: Seq<char>, value: Seq<char> },
    GetConfig(Seq<char>),
    Save,
    Load,
    Plugin(Seq<char>),
    Help,
    Exit,
}

/// The characters of an optional string.
pub open spec fn opt_text(o: Option<String>) -> Option<Seq<char>> {
    match o {
        Some(s) => Some(s@),
        None => None,
    }
}

impl View for Command {
    type V = CommandView;

    open spec fn view(&self) -> CommandView {
        match self {
            Command::Play { name, all } => CommandView::Play { name: opt_text(*name), all: *all },
            Command::Pause => CommandView::Pause,
            Command::Resume => CommandView::Resume,
            Command::Next => CommandView::Next,
            Command::Prev => CommandView::Prev,
            Command::Stop => CommandView::Stop,
            Command::Volume(v) => CommandView::Volume(*v),
            Command::Seek(s) => CommandView::Seek(*s),
            Command::Repeat(m) => CommandView::Repeat(m@),
            Command::Shuffle => CommandView::Shuffle,
            Command::QueueAdd { name, all } => CommandView::QueueAdd {
                name: opt_text(*name),
                all: *all,
            },
            Command::QueueShow => CommandView::QueueShow,
            Command::QueueClear => CommandView::QueueClear,
            Command::Search(q) => CommandView::Search(q@),
            Command::Import { path } => CommandView::Import { path: path@ },
            Command::Export { path } => CommandView::Export { path: path@ },
            Command::RemoveSong(t) => CommandView::RemoveSong(t@),
            Command::EditSong { title, field, value } => CommandView::EditSong {
                title: title@,
                field: field@,
                value: value@,
            },
            Command::Lyrics { title, text } => CommandView::Lyrics {
                title: title@,
                text: opt_text(*text),
            },
            Command::Stats => CommandView::Stats,
            Command::History => CommandView::History,
            Command::ListPlaylists => CommandView::ListPlaylists,
            Command::ShowPlaylist(n) => CommandView::ShowPlaylist(n@),
            Command::AddToPlaylist { song, playlist } => CommandView::AddToPlaylist {
                song: song@,
                playlist: playlist@,
            },
            Command::SetConfig { key, value } => CommandView::SetConfig { key: key@, value: value@ },
            Command::GetConfig(k) => CommandView::GetConfig(k@),
            Command::Save => CommandView::Save,
            Command::Load => CommandView::Load,
            Command::Plugin(a) => CommandView::Plugin(a@),
            Command::Help => CommandView::Help,
            Command::Exit => CommandView::Exit,
        }
    }
}

// ---------------------------------------------------------------------------
// Word splitting
// ---------------------------------------------------------------------------

/// The state of the word splitter after a prefix of the input.
pub struct WordScan {
    pub words: Seq<Seq<char>>,
    pub current: Seq<char>,
    pub in_single: bool,
    pub in_double: bool,
}

/// The splitter's state before any input.
pub open spec fn scan_start() -> WordScan {
    WordScan {
        words: Seq::empty(),
        current: Seq::empty(),
        in_single: false,
        in_double: false,
    }
}

/// One character fed to the splitter: quotes toggle quoting (a single quote
/// inside double quotes and a double quote inside single quotes are kept as
/// characters), an unquoted space or tab ends the current word, any other
/// character is kept.
pub open spec fn scan_step(st: WordScan, ch: char) -> WordScan {
    if ch == '\'' && !st.in_double {
        WordScan { in_single: !st.in_single, ..st }
    } else if ch == '"' && !st.in_single {
        WordScan { in_double: !st.in_double, ..st }
    } else if (ch == ' ' || ch == '\t') && !st.in_single && !st.in_double {
        if st.current.len() > 0 {
            WordScan { words: st.words.push(st.current), current: Seq::empty(), ..st }
        } else {
            st
        }
    } else {
        WordScan { current: st.current.push(ch), ..st }
    }
}

/// The splitter's state after all of `s`.
pub open spec fn scan_text(s: Seq<char>) -> WordScan
    decreases s.len(),
{
    if s.len() == 0 {
        scan_start()
    } else {
        scan_step(scan_text(s.drop_last()), s.last())
    }
}

/// The shell-like words of `s`: separated by unquoted spaces and tabs, with
/// quote characters removed and empty words dropped.
pub open spec fn words_of(s: Seq<char>) -> Seq<Seq<char>> {
    let st = scan_text(s);
    if st.current.len() > 0 {
        st.words.push(st.current)
    } else {
        st.words
    }
}

/// Splits `s` into shell-like words (quotes group, spaces and tabs separate).
pub fn shell_words(s: &str) -> (r: Vec<String>)
    ensures
        views(r@) == words_of(s@),
{
    let cs = chars_of(s);
    let mut words: Vec<String> = Vec::new();
    let mut current = String::new();
    let mut in_single = false;
    let mut in_double = false;
    let mut i: usize = 0;
    assert(s@.subrange(0, 0) =~= Seq::<char>::empty());
    assert(views(words@) =~= Seq::<Seq<char>>::empty());
    while i < cs.len()
        invariant
            cs@ == s@,
            i <= cs.len(),
            scan_text(s@.subrange(0, i as int)) == (WordScan {
                words: views(words@),
                current: current@,
                in_single,
                in_double,
            }),
        decreases cs.len() - i,
    {
        let ch = cs[i];
        let ghost next = s@.subrange(0, i + 1);
        assert(next.drop_last() =~= s@.subrange(0, i as int));
        assert(next.last() == ch);
        if ch == '\'' && !in_double {
            in_single = !in_single;
        } else if ch == '"' && !in_single {
            in_double = !in_double;
        } else if (ch == ' ' || ch == '\t') && !in_single && !in_double {
            if current.unicode_len() > 0 {
                let ghost before = views(words@);
                let ghost cv = current@;
                let w = current;
                words.push(w);
                current = String::new();
                assert(views(words@) =~= before.push(cv));
            }
        } else {
            push_char(&mut current, ch);
        }
        i = i + 1;
    }
    assert(s@.subrange(0, cs.len() as int) =~= s@);
    if current.unicode_len() > 0 {
        let ghost before = views(words@);
        let ghost cv = current@;
        words.push(current);
        assert(views(words@) =~= before.push(cv));
    }
    words
}

// ---------------------------------------------------------------------------
// Reading a command
// ---------------------------------------------------------------------------

/// The command word, folded to lower case, names one of these.
pub enum Verb {
    Play,
    Pause,
    Resume,
    Next,
    Prev,
    Stop,
    Volume,
    Seek,
    Repeat,
    Shuffle,
    Queue,
    Search,
    Import,
    Export,
    Remove,
    Edit,
    Lyrics,
    Stats,
    History,
    List,
    Show,
    AddToPlaylist,
    SetConfig,
    GetConfig,
    Save,
    Load,
    Plugin,
    Help,
    Exit,
    Other,
}

/// The verb that a (lower-cased) command word names.
pub open spec fn verb_of(w: Seq<char>) -> Verb {
    if w == "play"@ || w == "p"@ {
        Verb::Play
    } else if w == "pause"@ {
        Verb::Pause
    } else if w == "resume"@ || w == "unpause"@ {
        Verb::Resume
    } else if w == "next"@ || w == "n"@ {
        Verb::Next
    } else if w == "prev"@ || w == "previous"@ || w == "b"@ {
        Verb::Prev
    } else if w == "stop"@ || w == "s"@ {
        Verb::Stop
    } else if w == "volume"@ || w == "vol"@ {
        Verb::Volume
    } else if w == "seek"@ || w == "goto"@ {
        Verb::Seek
    } else if w == "repeat"@ || w == "loop"@ {
        Verb::Repeat
    } else if w == "shuffle"@ || w == "random"@ {
        Verb::Shuffle
    } else if w == "queue"@ || w == "q"@ {
        Verb::Queue
    } else if w == "search"@ || w == "find"@ {
        Verb::Search
    } else if w == "import"@ {
        Verb::Import
    } else if w == "export"@ {
        Verb::Export
    } else if w == "remove"@ || w == "rm"@ {
        Verb::Remove
    } else if w == "edit"@ {
        Verb::Edit
    } else if w == "lyrics"@ {
        Verb::Lyrics
    } else if w == "stats"@ {
        Verb::Stats
    } else if w == "history"@ || w == "hist"@ {
        Verb::History
    } else if w == "list"@ || w == "ls"@ {
        Verb::List
    } else if w == "show"@ || w == "cat"@ {
        Verb::Show
    } else if w == "addtoplaylist"@ || w == "add-to-playlist"@ {
        Verb::AddToPlaylist
    } else if w == "setconfig"@ || w == "set"@ {
        Verb::SetConfig
    } else if w == "getconfig"@ || w == "get"@ {
        Verb::GetConfig
    } else if w == "save"@ || w == "write"@ {
        Verb::Save
    } else if w == "load"@ || w == "read"@ {
        Verb::Load
    } else if w == "plugin"@ || w == "plugins"@ {
        Verb::Plugin
    } else if w == "help"@ || w == "h"@ || w == "?"@ {
        Verb::Help
    } else if w == "exit"@ || w == "quit"@ || w == "q!"@ {
        Verb::Exit
    } else {
        Verb::Other
    }
}

/// The verb that `w` names.
pub fn classify_verb(w: &str) -> (v: Verb)
    ensures
        v == verb_of(w@),
{
    if text_eq(w, "play") || text_eq(w, "p") {
        Verb::Play
    } else if text_eq(w, "pause") {
        Verb::Pause
    } else if text_eq(w, "resume") || text_eq(w, "unpause") {
        Verb::Resume
    } else if text_eq(w, "next") || text_eq(w, "n") {
        Verb::Next
    } else if text_eq(w, "prev") || text_eq(w, "previous") || text_eq(w, "b") {
        Verb::Prev
    } else if text_eq(w, "stop") || text_eq(w, "s") {
        Verb::Stop
    } else if text_eq(w, "volume") || text_eq(w, "vol") {
        Verb::Volume
    } else if text_eq(w, "seek") || text_eq(w, "goto") {
        Verb::Seek
    } else if text_eq(w, "repeat") || text_eq(w, "loop") {
        Verb::Repeat
    } else if text_eq(w, "shuffle") || text_eq(w, "random") {
        Verb::Shuffle
    } else if text_eq(w, "queue") || text_eq(w, "q") {
        Verb::Queue
    } else if text_eq(w, "search") || text_eq(w, "find") {
        Verb::Search
    } else if text_eq(w, "import") {
        Verb::Import
    } else if text_eq(w, "export") {
        Verb::Export
    } else if text_eq(w, "remove") || text_eq(w, "rm") {
        Verb::Remove
    } else if text_eq(w, "edit") {
        Verb::Edit
    } else if text_eq(w, "lyrics") {
        Verb::Lyrics
    } else if text_eq(w, "stats") {
        Verb::Stats
    } else if text_eq(w, "history") || text_eq(w, "hist") {
        Verb::History
    } else if text_eq(w, "list") || text_eq(w, "ls") {
        Verb::List
    } else if text_eq(w, "show") || text_eq(w, "cat") {
        Verb::Show
    } else if text_eq(w, "addtoplaylist") || text_eq(w, "add-to-playlist") {
        Verb::AddToPlaylist
    } else if text_eq(w, "setconfig") || text_eq(w, "set") {
        Verb::SetConfig
    } else if text_eq(w, "getconfig") || text_eq(w, "get") {
        Verb::GetConfig
    } else if text_eq(w, "save") || text_eq(w, "write") {
        Verb::Save
    } else if text_eq(w, "load") || text_eq(w, "read") {
        Verb::Load
    } else if text_eq(w, "plugin") || text_eq(w, "plugins") {
        Verb::Plugin
    } else if text_eq(w, "help") || text_eq(w, "h") || text_eq(w, "?") {
        Verb::Help
    } else if text_eq(w, "exit") || text_eq(w, "quit") || text_eq(w, "q!") {
        Verb::Exit
    } else {
        Verb::Other
    }
}


/// The name words and the `all` flag read from `args[i..]`, `words` and
/// `all` being what was read before `i`: `-n`/`--name` takes the next word
/// as a name word (with no next word, the name is dropped and reading ends),
/// `-a`/`--all` sets `all`, and any other word is a name word.
pub open spec fn scan_flags(args: Seq<Seq<char>>, i: int, words: Seq<Seq<char>>, all: bool) -> (
    Seq<Seq<char>>,
    bool,
)
    decreases args.len() - i,
{
    if i < 0 || i >= args.len() {
        (words, all)
    } else if args[i] == "-n"@ || args[i] == "--name"@ {
        if i + 1 < args.len() {
            scan_flags(args, i + 2, words.push(args[i + 1]), all)
        } else {
            (Seq::empty(), all)
        }
    } else if args[i] == "-a"@ || args[i] == "--all"@ {
        scan_flags(args, i + 1, words, true)
    } else {
        scan_flags(args, i + 1, words.push(args[i]), all)
    }
}

/// The song name that name words denote: none without words, otherwise the
/// words joined with single spaces (`play song name` names "song name").
pub open spec fn name_of_words(words: Seq<Seq<char>>) -> Option<Seq<char>> {
    if words.len() == 0 {
        None
    } else {
        Some(join_with(words, " "@))
    }
}

/// The `(name, all)` options of `args[i..]`.
pub open spec fn name_flags(args: Seq<Seq<char>>, i: int) -> (Option<Seq<char>>, bool) {
    let f = scan_flags(args, i, Seq::empty(), false);
    (name_of_words(f.0), f.1)
}

/// The word at `i`, or the empty text if there is none.
pub open spec fn word_or_empty(args: Seq<Seq<char>>, i: int) -> Seq<char> {
    if 0 <= i < args.len() {
        args[i]
    } else {
        Seq::empty()
    }
}

/// The words from `i` on, joined with single spaces.
pub open spec fn rest_joined(args: Seq<Seq<char>>, i: int) -> Seq<char> {
    join_with(args.subrange(i, args.len() as int), " "@)
}

/// The command that verb `v` with the words `args` after it denotes; `line`
/// is the whole (trimmed) input, played when the verb is unknown.
pub open spec fn command_of(v: Verb, args: Seq<Seq<char>>, line: Seq<char>) -> Option<CommandView> {
    let n = args.len() as int;
    match v {
        Verb::Play => {
            let f = name_flags(args, 0);
            Some(CommandView::Play { name: f.0, all: f.1 })
        },
        Verb::Pause => Some(CommandView::Pause),
        Verb::Resume => Some(CommandView::Resume),
        Verb::Next => Some(CommandView::Next),
        Verb::Prev => Some(CommandView::Prev),
        Verb::Stop => Some(CommandView::Stop),
        Verb::Volume => if n == 0 {
            None
        } else {
            match parse_unsigned(args[0], u8::MAX as nat) {
                Some(x) => Some(CommandView::Volume(x as u8)),
                None => None,
            }
        },
        Verb::Seek => if n == 0 {
            None
        } else {
            match parse_unsigned(args[0], u64::MAX as nat) {
                Some(x) => Some(CommandView::Seek(x as u64)),
                None => None,
            }
        },
        Verb::Repeat => if n == 0 {
            None
        } else {
            Some(CommandView::Repeat(lowercase(args[0])))
        },
        Verb::Shuffle => Some(CommandView::Shuffle),
        Verb::Queue => {
            let sub = word_or_empty(args, 0);
            if sub == "add"@ || sub == "a"@ || sub == "append"@ {
                let f = name_flags(args, 1);
                Some(CommandView::QueueAdd { name: f.0, all: f.1 })
            } else if sub == "clear"@ || sub == "c"@ {
                Some(CommandView::QueueClear)
            } else {
                Some(CommandView::QueueShow)
            }
        },
        Verb::Search => Some(CommandView::Search(rest_joined(args, 0))),
        Verb::Import => if n == 0 {
            None
        } else {
            Some(CommandView::Import { path: args[0] })
        },
        Verb::Export => Some(CommandView::Export { path: word_or_empty(args, 0) }),
        Verb::Remove => Some(CommandView::RemoveSong(rest_joined(args, 0))),
        Verb::Edit => if n == 0 {
            None
        } else {
            Some(
                CommandView::EditSong {
                    title: args[0],
                    field: word_or_empty(args, 1),
                    value: if n >= 2 {
                        rest_joined(args, 2)
                    } else {
                        Seq::empty()
                    },
                },
            )
        },
        Verb::Lyrics => if n == 0 {
            None
        } else {
            Some(
                CommandView::Lyrics {
                    title: args[0],
                    text: if n > 1 {
                        Some(rest_joined(args, 1))
                    } else {
                        None
                    },
                },
            )
        },
        Verb::Stats => Some(CommandView::Stats),
        Verb::History => Some(CommandView::History),
        Verb::List => Some(CommandView::ListPlaylists),
        Verb::Show => Some(CommandView::ShowPlaylist(rest_joined(args, 0))),
        Verb::AddToPlaylist => if n < 2 {
            None
        } else {
            Some(CommandView::AddToPlaylist { song: args[0], playlist: args[1] })
        },
        Verb::SetConfig => if n < 2 {
            None
        } else {
            Some(CommandView::SetConfig { key: args[0], value: args[1] })
        },
        Verb::GetConfig => Some(CommandView::GetConfig(word_or_empty(args, 0))),
        Verb::Save => Some(CommandView::Save),
        Verb::Load => Some(CommandView::Load),
        Verb::Plugin => Some(CommandView::Plugin(rest_joined(args, 0))),
        Verb::Help => Some(CommandView::Help),
        Verb::Exit => Some(CommandView::Exit),
        Verb::Other => Some(CommandView::Play { name: Some(line), all: false }),
    }
}

/// What a line of input means: `None` for a blank line (or one with no
/// words); otherwise the command that its first word, folded to lower case,
/// and the words after it denote.
pub open spec fn parse_command_spec(line: Seq<char>) -> Option<CommandView> {
    let t = trimmed(line);
    let parts = words_of(t);
    if t.len() == 0 || parts.len() == 0 {
        None
    } else {
        command_of(verb_of(lowercase(parts[0])), parts.drop_first(), t)
    }
}

/// The view of an optional command.
pub open spec fn opt_command(o: Option<Command>) -> Option<CommandView> {
    match o {
        Some(c) => Some(c@),
        None => None,
    }
}

/// Copies of `v[k..]`.
fn tail_from(v: &Vec<String>, k: usize) -> (r: Vec<String>)
    requires
        k <= v.len(),
    ensures
        views(r@) == views(v@).subrange(k as int, v.len() as int),
{
    let mut r: Vec<String> = Vec::new();
    let mut i: usize = k;
    while i < v.len()
        invariant
            k <= i <= v.len(),
            views(r@) == views(v@).subrange(k as int, i as int),
        decreases v.len() - i,
    {
        let ghost before = views(r@);
        let c = v[i].clone();
        assert(c@ == v@[i as int]@);
        r.push(c);
        assert(views(r@) =~= before.push(v@[i as int]@));
        assert(views(v@).subrange(k as int, i + 1) =~= views(v@).subrange(k as int, i as int).push(
            v@[i as int]@,
        ));
        i = i + 1;
    }
    r
}

/// The words of `args` from `k` on, joined with single spaces.
fn join_rest(args: &Vec<String>, k: usize) -> (r: String)
    requires
        k <= args.len(),
    ensures
        r@ == rest_joined(views(args@), k as int),
{
    let t = tail_from(args, k);
    join_text(t.as_slice(), " ")
}

/// A copy of the word at `i`, or the empty string.
fn word_or_empty_string(args: &Vec<String>, i: usize) -> (r: String)
    ensures
        r@ == word_or_empty(views(args@), i as int),
{
    if i < args.len() {
        args[i].clone()
    } else {
        String::new()
    }
}

/// Reads the `-n`/`--name`/`-a`/`--all` options from `args[start..]`.
fn scan_flags_exec(args: &Vec<String>, start: usize) -> (r: (Option<String>, bool))
    ensures
        (opt_text(r.0), r.1) == name_flags(views(args@), start as int),
{
    let ghost a = views(args@);
    let mut words: Vec<String> = Vec::new();
    let mut all = false;
    let mut i: usize = start;
    assert(views(words@) =~= Seq::<Seq<char>>::empty());
    while i < args.len()
        invariant
            a == views(args@),
            start <= i,
            scan_flags(a, start as int, Seq::empty(), false) == scan_flags(a, i as int, views(words@), all),
        decreases args.len() - i,
    {
        let w = args[i].as_str();
        if text_eq(w, "-n") || text_eq(w, "--name") {
            if i + 1 < args.len() {
                let ghost before = views(words@);
                words.push(args[i + 1].clone());
                assert(views(words@) =~= before.push(a[i + 1]));
                i = i + 2;
            } else {
                return (None, all);
            }
        } else if text_eq(w, "-a") || text_eq(w, "--all") {
            all = true;
            i = i + 1;
        } else {
            let ghost before = views(words@);
            words.push(args[i].clone());
            assert(views(words@) =~= before.push(a[i as int]));
            i = i + 1;
        }
    }
    assert(scan_flags(a, i as int, views(words@), all) == (views(words@), all));
    if words.len() == 0 {
        (None, all)
    } else {
        let j = join_text(words.as_slice(), " ");
        (Some(j), all)
    }
}

/// The command that the (lower-cased) first word `word` and the words
/// `args` after it denote; `line` is the whole trimmed input, played when
/// `word` is no command word.
#[verifier::rlimit(40)]
pub fn command_for(word: &str, args: &Vec<String>, line: &str) -> (r: Option<Command>)
    ensures
        opt_command(r) == command_of(verb_of(word@), views(args@), line@),
{
    let v = classify_verb(word);
    let ghost given = views(args@);
    let args = tail_from(args, 0);
    assert(views(args@) =~= given);
    let t = line;
    let n = args.len();
    let r = match v {
        Verb::Play => {
            let (name, all) = scan_flags_exec(&args, 0);
            Some(Command::Play { name, all })
        },
        Verb::Pause => Some(Command::Pause),
        Verb::Resume => Some(Command::Resume),
        Verb::Next => Some(Command::Next),
        Verb::Prev => Some(Command::Prev),
        Verb::Stop => Some(Command::Stop),
        Verb::Volume => if n == 0 {
            None
        } else {
            match parse_u8(args[0].as_str()) {
                Some(x) => Some(Command::Volume(x)),
                None => None,
            }
        },
        Verb::Seek => if n == 0 {
            None
        } else {
            match parse_u64(args[0].as_str()) {
                Some(x) => Some(Command::Seek(x)),
                None => None,
            }
        },
        Verb::Repeat => if n == 0 {
            None
        } else {
            Some(Command::Repeat(to_lowercase(args[0].as_str())))
        },
        Verb::Shuffle => Some(Command::Shuffle),
        Verb::Queue => {
            let sub = word_or_empty_string(&args, 0);
            let s = sub.as_str();
            if text_eq(s, "add") || text_eq(s, "a") || text_eq(s, "append") {
                let (name, all) = scan_flags_exec(&args, 1);
                Some(Command::QueueAdd { name, all })
            } else if text_eq(s, "clear") || text_eq(s, "c") {
                Some(Command::QueueClear)
            } else {
                Some(Command::QueueShow)
            }
        },
        Verb::Search => Some(Command::Search(join_rest(&args, 0))),
        Verb::Import => if n == 0 {
            None
        } else {
            Some(Command::Import { path: args[0].clone() })
        },
        Verb::Export => Some(Command::Export { path: word_or_empty_string(&args, 0) }),
        Verb::Remove => Some(Command::RemoveSong(join_rest(&args, 0))),
        Verb::Edit => if n == 0 {
            None
        } else {
            let value = if n >= 2 {
                join_rest(&args, 2)
            } else {
                String::new()
            };
            Some(
                Command::EditSong {
                    title: args[0].clone(),
                    field: word_or_empty_string(&args, 1),
                    value,
                },
            )
        },
        Verb::Lyrics => if n == 0 {
            None
        } else {
            let text = if n > 1 {
                Some(join_rest(&args, 1))
            } else {
                None
            };
            Some(Command::Lyrics { title: args[0].clone(), text })
        },
        Verb::Stats => Some(Command::Stats),
        Verb::History => Some(Command::History),
        Verb::List => Some(Command::ListPlaylists),
        Verb::Show => Some(Command::ShowPlaylist(join_rest(&args, 0))),
        Verb::AddToPlaylist => if n < 2 {
            None
        } else {
            Some(Command::AddToPlaylist { song: args[0].clone(), playlist: args[1].clone() })
        },
        Verb::SetConfig => if n < 2 {
            None
        } else {
            Some(Command::SetConfig { key: args[0].clone(), value: args[1].clone() })
        },
        Verb::GetConfig => Some(Command::GetConfig(word_or_empty_string(&args, 0))),
        Verb::Save => Some(Command::Save),
        Verb::Load => Some(Command::Load),
        Verb::Plugin => Some(Command::Plugin(join_rest(&args, 0))),
        Verb::Help => Some(Command::Help),
        Verb::Exit => Some(Command::Exit),
        Verb::Other => Some(Command::Play { name: Some(owned(t)), all: false }),
    };
    r
}

/// Reads a line of user input as a command.
pub fn parse_command(line: &str) -> (r: Option<Command>)
    ensures
        opt_command(r) == parse_command_spec(line@),
{
    let t = trim(line);
    if t.unicode_len() == 0 {
        return None;
    }
    let parts = shell_words(t);
    if parts.len() == 0 {
        return None;
    }
    let lowered = to_lowercase(parts[0].as_str());
    let args = tail_from(&parts, 1);
    assert(views(args@) =~= words_of(t@).drop_first());
    command_for(lowered.as_str(), &args, t)
}


// ---------------------------------------------------------------------------
// Laws
// ---------------------------------------------------------------------------

/// A line of nothing but white space is no command.
pub proof fn law_blank_line_is_no_command(line: Seq<char>)
    requires
        trimmed(line).len() == 0,
    ensures
        parse_command_spec(line) is None,
{
}

/// Any other text plays: a line whose first word is no command word is
/// read as playing the whole (trimmed) line.
pub proof fn law_other_text_plays(line: Seq<char>)
    requires
        words_of(trimmed(line)).len() > 0,
        verb_of(lowercase(words_of(trimmed(line))[0])) == Verb::Other,
    ensures
        parse_command_spec(line) == Some(CommandView::Play { name: Some(trimmed(line)), all: false }),
{
    if trimmed(line).len() == 0 {
        assert(scan_text(trimmed(line)) == scan_start());
    }
}

/// The words of a line of input, after trimming.
pub open spec fn line_words(line: Seq<char>) -> Seq<Seq<char>> {
    words_of(trimmed(line))
}

/// The first word of a line, folded to lower case: the command word.
pub open spec fn command_word(line: Seq<char>) -> Seq<char> {
    lowercase(line_words(line)[0])
}

/// The words after the command word.
pub open spec fn command_args(line: Seq<char>) -> Seq<Seq<char>> {
    line_words(line).drop_first()
}

proof fn lemma_words_give_text(line: Seq<char>)
    requires
        line_words(line).len() > 0,
    ensures
        trimmed(line).len() > 0,
        parse_command_spec(line) == command_of(
            verb_of(command_word(line)),
            command_args(line),
            trimmed(line),
        ),
{
    if trimmed(line).len() == 0 {
        assert(scan_text(trimmed(line)) == scan_start());
    }
}

/// The playback command words and their aliases: `play`/`p` play, `pause`
/// pauses, `resume`/`unpause` resume, `next`/`n` and `prev`/`previous`/`b`
/// move in the queue, `stop`/`s` stops, `shuffle`/`random` toggles shuffle;
/// `volume`/`vol`, `seek`/`goto` and `repeat`/`loop` take an argument and
/// give nothing without one.
pub proof fn law_playback_words(line: Seq<char>)
    requires
        line_words(line).len() > 0,
    ensures
        ({
            let w = command_word(line);
            let r = parse_command_spec(line);
            let n = command_args(line).len();
            &&& (w == "play"@ || w == "p"@) ==> (r is Some && r.unwrap() is Play)
            &&& w == "pause"@ ==> r == Some(CommandView::Pause)
            &&& (w == "resume"@ || w == "unpause"@) ==> r == Some(CommandView::Resume)
            &&& (w == "next"@ || w == "n"@) ==> r == Some(CommandView::Next)
            &&& (w == "prev"@ || w == "previous"@ || w == "b"@) ==> r == Some(CommandView::Prev)
            &&& (w == "stop"@ || w == "s"@) ==> r == Some(CommandView::Stop)
            &&& (w == "shuffle"@ || w == "random"@) ==> r == Some(CommandView::Shuffle)
            &&& (w == "volume"@ || w == "vol"@) ==> (r is None || r.unwrap() is Volume)
            &&& (w == "volume"@ || w == "vol"@) && n == 0 ==> r is None
            &&& (w == "seek"@ || w == "goto"@) ==> (r is None || r.unwrap() is Seek)
            &&& (w == "seek"@ || w == "goto"@) && n == 0 ==> r is None
            &&& (w == "repeat"@ || w == "loop"@) && n > 0 ==> (r is Some && r.unwrap() is Repeat)
            &&& (w == "repeat"@ || w == "loop"@) && n == 0 ==> r is None
        }),
{
    lemma_words_text();
    lemma_words_give_text(line);
}

/// The queue and library command words: `queue`/`q` shows the queue, or
/// with `add`/`a`/`append` adds to it and with `clear`/`c` clears it;
/// `search`/`find`, `remove`/`rm` take the rest of the line as their text;
/// `import` needs a path; `export` takes an optional one; `edit` and
/// `lyrics` need a title; `stats` and `history`/`hist` take nothing.
pub proof fn law_library_words(line: Seq<char>)
    requires
        line_words(line).len() > 0,
    ensures
        ({
            let w = command_word(line);
            let r = parse_command_spec(line);
            let a = command_args(line);
            let n = a.len();
            let rest = join_with(a, " "@);
            &&& (w == "queue"@ || w == "q"@) && n == 0 ==> r == Some(CommandView::QueueShow)
            &&& (w == "queue"@ || w == "q"@) && n > 0 && (a[0] == "add"@ || a[0] == "a"@ || a[0]
                == "append"@) ==> (r is Some && r.unwrap() is QueueAdd)
            &&& (w == "queue"@ || w == "q"@) && n > 0 && (a[0] == "clear"@ || a[0] == "c"@) ==> r
                == Some(CommandView::QueueClear)
            &&& (w == "search"@ || w == "find"@) ==> r == Some(CommandView::Search(rest))
            &&& (w == "remove"@ || w == "rm"@) ==> r == Some(CommandView::RemoveSong(rest))
            &&& w == "import"@ && n == 0 ==> r is None
            &&& w == "import"@ && n > 0 ==> r == Some(CommandView::Import { path: a[0] })
            &&& w == "export"@ && n == 0 ==> r == Some(CommandView::Export { path: Seq::empty() })
            &&& w == "export"@ && n > 0 ==> r == Some(CommandView::Export { path: a[0] })
            &&& w == "edit"@ && n == 0 ==> r is None
            &&& w == "edit"@ && n > 0 ==> (r is Some && r.unwrap() is EditSong
                && r.unwrap()->EditSong_title == a[0])
            &&& w == "lyrics"@ && n == 0 ==> r is None
            &&& w == "lyrics"@ && n == 1 ==> r == Some(CommandView::Lyrics { title: a[0], text: None })
            &&& w == "lyrics"@ && n > 1 ==> (r is Some && r.unwrap() is Lyrics
                && r.unwrap()->Lyrics_title == a[0] && r.unwrap()->text is Some)
            &&& w == "stats"@ ==> r == Some(CommandView::Stats)
            &&& (w == "history"@ || w == "hist"@) ==> r == Some(CommandView::History)
        }),
{
    lemma_words_text();
    lemma_words_give_text(line);
    let a = command_args(line);
    assert(a.subrange(0, a.len() as int) =~= a);
}

/// The playlist, configuration and system command words: `list`/`ls`,
/// `show`/`cat` (rest of the line), `addtoplaylist`/`add-to-playlist` (song
/// and playlist), `setconfig`/`set` (key and value), `getconfig`/`get`
/// (optional key), `save`/`write`, `load`/`read`, `plugin`/`plugins` (rest
/// of the line), `help`/`h`/`?` and `exit`/`quit`/`q!`.
pub proof fn law_system_words(line: Seq<char>)
    requires
        line_words(line).len() > 0,
    ensures
        ({
            let w = command_word(line);
            let r = parse_command_spec(line);
            let a = command_args(line);
            let n = a.len();
            let rest = join_with(a, " "@);
            &&& (w == "list"@ || w == "ls"@) ==> r == Some(CommandView::ListPlaylists)
            &&& (w == "show"@ || w == "cat"@) ==> r == Some(CommandView::ShowPlaylist(rest))
            &&& (w == "addtoplaylist"@ || w == "add-to-playlist"@) && n < 2 ==> r is None
            &&& (w == "addtoplaylist"@ || w == "add-to-playlist"@) && n >= 2 ==> r == Some(
                CommandView::AddToPlaylist { song: a[0], playlist: a[1] },
            )
            &&& (w == "setconfig"@ || w == "set"@) && n < 2 ==> r is None
            &&& (w == "setconfig"@ || w == "set"@) && n >= 2 ==> r == Some(
                CommandView::SetConfig { key: a[0], value: a[1] },
            )
            &&& (w == "getconfig"@ || w == "get"@) && n == 0 ==> r == Some(
                CommandView::GetConfig(Seq::empty()),
            )
            &&& (w == "getconfig"@ || w == "get"@) && n > 0 ==> r == Some(CommandView::GetConfig(a[0]))
            &&& (w == "save"@ || w == "write"@) ==> r == Some(CommandView::Save)
            &&& (w == "load"@ || w == "read"@) ==> r == Some(CommandView::Load)
            &&& (w == "plugin"@ || w == "plugins"@) ==> r == Some(CommandView::Plugin(rest))
            &&& (w == "help"@ || w == "h"@ || w == "?"@) ==> r == Some(CommandView::Help)
            &&& (w == "exit"@ || w == "quit"@ || w == "q!"@) ==> r == Some(CommandView::Exit)
        }),
{
    lemma_words_text();
    lemma_words_give_text(line);
    let a = command_args(line);
    assert(a.subrange(0, a.len() as int) =~= a);
}

/// Play names are whole: the words after `play` that are no options,
/// joined with single spaces, name the song (`play song name` names
/// "song name").
pub proof fn law_play_name_is_all_words(line: Seq<char>)
    requires
        line_words(line).len() > 1,
        command_word(line) == "play"@,
        forall|i: int|
            0 <= i < command_args(line).len() ==> (#[trigger] command_args(line)[i]) != "-n"@
                && command_args(line)[i] != "--name"@ && command_args(line)[i] != "-a"@
                && command_args(line)[i] != "--all"@,
    ensures
        parse_command_spec(line) == Some(
            CommandView::Play { name: Some(join_with(command_args(line), " "@)), all: false },
        ),
{
    lemma_words_give_text(line);
    let a = command_args(line);
    lemma_plain_words_scan(a, 0, Seq::empty());
    assert(Seq::<Seq<char>>::empty() + a.subrange(0, a.len() as int) =~= a);
}

proof fn lemma_plain_words_scan(a: Seq<Seq<char>>, i: int, words: Seq<Seq<char>>)
    requires
        0 <= i <= a.len(),
        forall|j: int|
            0 <= j < a.len() ==> (#[trigger] a[j]) != "-n"@ && a[j] != "--name"@ && a[j] != "-a"@
                && a[j] != "--all"@,
    ensures
        scan_flags(a, i, words, false) == (words + a.subrange(i, a.len() as int), false),
    decreases a.len() - i,
{
    if i < a.len() {
        lemma_plain_words_scan(a, i + 1, words.push(a[i]));
        assert(words.push(a[i]) + a.subrange(i + 1, a.len() as int) =~= words + a.subrange(
            i,
            a.len() as int,
        ));
    } else {
        assert(words + a.subrange(i, a.len() as int) =~= words);
    }
}

/// The characters of the command words.
proof fn lemma_words_text()
    ensures
        "?"@.len() == 1,
        "?"@[0] == '?',
        "add-to-playlist"@.len() == 15,
        "add-to-playlist"@[0] == 'a',
        "add-to-playlist"@[1] == 'd',
        "add-to-playlist"@[2] == 'd',
        "add-to-playlist"@[3] == '-',
        "add-to-playlist"@[4] == 't',
        "add-to-playlist"@[5] == 'o',
        "add-to-playlist"@[6] == '-',
        "add-to-playlist"@[7] == 'p',
        "add-to-playlist"@[8] == 'l',
        "add-to-playlist"@[9] == 'a',
        "add-to-playlist"@[10] == 'y',
        "add-to-playlist"@[11] == 'l',
        "add-to-playlist"@[12] == 'i',
        "add-to-playlist"@[13] == 's',
        "add-to-playlist"@[14] == 't',
        "addtoplaylist"@.len() == 13,
        "addtoplaylist"@[0] == 'a',
        "addtoplaylist"@[1] == 'd',
        "addtoplaylist"@[2] == 'd',
        "addtoplaylist"@[3] == 't',
        "addtoplaylist"@[4] == 'o',
        "addtoplaylist"@[5] == 'p',
        "addtoplaylist"@[6] == 'l',
        "addtoplaylist"@[7] == 'a',
        "addtoplaylist"@[8] == 'y',
        "addtoplaylist"@[9] == 'l',
        "addtoplaylist"@[10] == 'i',
        "addtoplaylist"@[11] == 's',
        "addtoplaylist"@[12] == 't',
        "b"@.len() == 1,
        "b"@[0] == 'b',
        "cat"@.len() == 3,
        "cat"@[0] == 'c',
        "cat"@[1] == 'a',
        "cat"@[2] == 't',
        "edit"@.len() == 4,
        "edit"@[0] == 'e',
        "edit"@[1] == 'd',
        "edit"@[2] == 'i',
        "edit"@[3] == 't',
        "exit"@.len() == 4,
        "exit"@[0] == 'e',
        "exit"@[1] == 'x',
        "exit"@[2] == 'i',
        "exit"@[3] == 't',
        "export"@.len() == 6,
        "export"@[0] == 'e',
        "export"@[1] == 'x',
        "export"@[2] == 'p',
        "export"@[3] == 'o',
        "export"@[4] == 'r',
        "export"@[5] == 't',
        "find"@.len() == 4,
        "find"@[0] == 'f',
        "find"@[1] == 'i',
        "find"@[2] == 'n',
        "find"@[3] == 'd',
        "get"@.len() == 3,
        "get"@[0] == 'g',
        "get"@[1] == 'e',
        "get"@[2] == 't',
        "getconfig"@.len() == 9,
        "getconfig"@[0] == 'g',
        "getconfig"@[1] == 'e',
        "getconfig"@[2] == 't',
        "getconfig"@[3] == 'c',
        "getconfig"@[4] == 'o',
        "getconfig"@[5] == 'n',
        "getconfig"@[6] == 'f',
        "getconfig"@[7] == 'i',
        "getconfig"@[8] == 'g',
        "goto"@.len() == 4,
        "goto"@[0] == 'g',
        "goto"@[1] == 'o',
        "goto"@[2] == 't',
        "goto"@[3] == 'o',
        "h"@.len() == 1,
        "h"@[0] == 'h',
        "help"@.len() == 4,
        "help"@[0] == 'h',
        "help"@[1] == 'e',
        "help"@[2] == 'l',
        "help"@[3] == 'p',
        "hist"@.len() == 4,
        "hist"@[0] == 'h',
        "hist"@[1] == 'i',
        "hist"@[2] == 's',
        "hist"@[3] == 't',
        "history"@.len() == 7,
        "history"@[0] == 'h',
        "history"@[1] == 'i',
        "history"@[2] == 's',
        "history"@[3] == 't',
        "history"@[4] == 'o',
        "history"@[5] == 'r',
        "history"@[6] == 'y',
        "import"@.len() == 6,
        "import"@[0] == 'i',
        "import"@[1] == 'm',
        "import"@[2] == 'p',
        "import"@[3] == 'o',
        "import"@[4] == 'r',
        "import"@[5] == 't',
        "list"@.len() == 4,
        "list"@[0] == 'l',
        "list"@[1] == 'i',
        "list"@[2] == 's',
        "list"@[3] == 't',
        "load"@.len() == 4,
        "load"@[0] == 'l',
        "load"@[1] == 'o',
        "load"@[2] == 'a',
        "load"@[3] == 'd',
        "loop"@.len() == 4,
        "loop"@[0] == 'l',
        "loop"@[1] == 'o',
        "loop"@[2] == 'o',
        "loop"@[3] == 'p',
        "ls"@.len() == 2,
        "ls"@[0] == 'l',
        "ls"@[1] == 's',
        "lyrics"@.len() == 6,
        "lyrics"@[0] == 'l',
        "lyrics"@[1] == 'y',
        "lyrics"@[2] == 'r',
        "lyrics"@[3] == 'i',
        "lyrics"@[4] == 'c',
        "lyrics"@[5] == 's',
        "n"@.len() == 1,
        "n"@[0] == 'n',
        "next"@.len() == 4,
        "next"@[0] == 'n',
        "next"@[1] == 'e',
        "next"@[2] == 'x',
        "next"@[3] == 't',
        "p"@.len() == 1,
        "p"@[0] == 'p',
        "pause"@.len() == 5,
        "pause"@[0] == 'p',
        "pause"@[1] == 'a',
        "pause"@[2] == 'u',
        "pause"@[3] == 's',
        "pause"@[4] == 'e',
        "play"@.len() == 4,
        "play"@[0] == 'p',
        "play"@[1] == 'l',
        "play"@[2] == 'a',
        "play"@[3] == 'y',
        "plugin"@.len() == 6,
        "plugin"@[0] == 'p',
        "plugin"@[1] == 'l',
        "plugin"@[2] == 'u',
        "plugin"@[3] == 'g',
        "plugin"@[4] == 'i',
        "plugin"@[5] == 'n',
        "plugins"@.len() == 7,
        "plugins"@[0] == 'p',
        "plugins"@[1] == 'l',
        "plugins"@[2] == 'u',
        "plugins"@[3] == 'g',
        "plugins"@[4] == 'i',
        "plugins"@[5] == 'n',
        "plugins"@[6] == 's',
        "prev"@.len() == 4,
        "prev"@[0] == 'p',
        "prev"@[1] == 'r',
        "prev"@[2] == 'e',
        "prev"@[3] == 'v',
        "previous"@.len() == 8,
        "previous"@[0] == 'p',
        "previous"@[1] == 'r',
        "previous"@[2] == 'e',
        "previous"@[3] == 'v',
        "previous"@[4] == 'i',
        "previous"@[5] == 'o',
        "previous"@[6] == 'u',
        "previous"@[7] == 's',
        "q"@.len() == 1,
        "q"@[0] == 'q',
        "q!"@.len() == 2,
        "q!"@[0] == 'q',
        "q!"@[1] == '!',
        "queue"@.len() == 5,
        "queue"@[0] == 'q',
        "queue"@[1] == 'u',
        "queue"@[2] == 'e',
        "queue"@[3] == 'u',
        "queue"@[4] == 'e',
        "quit"@.len() == 4,
        "quit"@[0] == 'q',
        "quit"@[1] == 'u',
        "quit"@[2] == 'i',
        "quit"@[3] == 't',
        "random"@.len() == 6,
        "random"@[0] == 'r',
        "random"@[1] == 'a',
        "random"@[2] == 'n',
        "random"@[3] == 'd',
        "random"@[4] == 'o',
        "random"@[5] == 'm',
        "read"@.len() == 4,
        "read"@[0] == 'r',
        "read"@[1] == 'e',
        "read"@[2] == 'a',
        "read"@[3] == 'd',
        "remove"@.len() == 6,
        "remove"@[0] == 'r',
        "remove"@[1] == 'e',
        "remove"@[2] == 'm',
        "remove"@[3] == 'o',
        "remove"@[4] == 'v',
        "remove"@[5] == 'e',
        "repeat"@.len() == 6,
        "repeat"@[0] == 'r',
        "repeat"@[1] == 'e',
        "repeat"@[2] == 'p',
        "repeat"@[3] == 'e',
        "repeat"@[4] == 'a',
        "repeat"@[5] == 't',
        "resume"@.len() == 6,
        "resume"@[0] == 'r',
        "resume"@[1] == 'e',
        "resume"@[2] == 's',
        "resume"@[3] == 'u',
        "resume"@[4] == 'm',
        "resume"@[5] == 'e',
        "rm"@.len() == 2,
        "rm"@[0] == 'r',
        "rm"@[1] == 'm',
        "s"@.len() == 1,
        "s"@[0] == 's',
        "save"@.len() == 4,
        "save"@[0] == 's',
        "save"@[1] == 'a',
        "save"@[2] == 'v',
        "save"@[3] == 'e',
        "search"@.len() == 6,
        "search"@[0] == 's',
        "search"@[1] == 'e',
        "search"@[2] == 'a',
        "search"@[3] == 'r',
        "search"@[4] == 'c',
        "search"@[5] == 'h',
        "seek"@.len() == 4,
        "seek"@[0] == 's',
        "seek"@[1] == 'e',
        "seek"@[2] == 'e',
        "seek"@[3] == 'k',
        "set"@.len() == 3,
        "set"@[0] == 's',
        "set"@[1] == 'e',
        "set"@[2] == 't',
        "setconfig"@.len() == 9,
        "setconfig"@[0] == 's',
        "setconfig"@[1] == 'e',
        "setconfig"@[2] == 't',
        "setconfig"@[3] == 'c',
        "setconfig"@[4] == 'o',
        "setconfig"@[5] == 'n',
        "setconfig"@[6] == 'f',
        "setconfig"@[7] == 'i',
        "setconfig"@[8] == 'g',
        "show"@.len() == 4,
        "show"@[0] == 's',
        "show"@[1] == 'h',
        "show"@[2] == 'o',
        "show"@[3] == 'w',
        "shuffle"@.len() == 7,
        "shuffle"@[0] == 's',
        "shuffle"@[1] == 'h',
        "shuffle"@[2] == 'u',
        "shuffle"@[3] == 'f',
        "shuffle"@[4] == 'f',
        "shuffle"@[5] == 'l',
        "shuffle"@[6] == 'e',
        "stats"@.len() == 5,
        "stats"@[0] == 's',
        "stats"@[1] == 't',
        "stats"@[2] == 'a',
        "stats"@[3] == 't',
        "stats"@[4] == 's',
        "stop"@.len() == 4,
        "stop"@[0] == 's',
        "stop"@[1] == 't',
        "stop"@[2] == 'o',
        "stop"@[3] == 'p',
        "unpause"@.len() == 7,
        "unpause"@[0] == 'u',
        "unpause"@[1] == 'n',
        "unpause"@[2] == 'p',
        "unpause"@[3] == 'a',
        "unpause"@[4] == 'u',
        "unpause"@[5] == 's',
        "unpause"@[6] == 'e',
        "vol"@.len() == 3,
        "vol"@[0] == 'v',
        "vol"@[1] == 'o',
        "vol"@[2] == 'l',
        "volume"@.len() == 6,
        "volume"@[0] == 'v',
        "volume"@[1] == 'o',
        "volume"@[2] == 'l',
        "volume"@[3] == 'u',
        "volume"@[4] == 'm',
        "volume"@[5] == 'e',
        "write"@.len() == 5,
        "write"@[0] == 'w',
        "write"@[1] == 'r',
        "write"@[2] == 'i',
        "write"@[3] == 't',
        "write"@[4] == 'e',
        "add"@.len() == 3,
        "add"@[0] == 'a',
        "add"@[1] == 'd',
        "add"@[2] == 'd',
        "a"@.len() == 1,
        "a"@[0] == 'a',
        "append"@.len() == 6,
        "append"@[0] == 'a',
        "append"@[1] == 'p',
        "append"@[2] == 'p',
        "append"@[3] == 'e',
        "append"@[4] == 'n',
        "append"@[5] == 'd',
        "clear"@.len() == 5,
        "clear"@[0] == 'c',
        "clear"@[1] == 'l',
        "clear"@[2] == 'e',
        "clear"@[3] == 'a',
        "clear"@[4] == 'r',
        "c"@.len() == 1,
        "c"@[0] == 'c',
        "-a"@.len() == 2,
        "-a"@[0] == '-',
        "-a"@[1] == 'a',
        "--all"@.len() == 5,
        "--all"@[0] == '-',
        "--all"@[1] == '-',
        "--all"@[2] == 'a',
        "--all"@[3] == 'l',
        "--all"@[4] == 'l',
        "-n"@.len() == 2,
        "-n"@[0] == '-',
        "-n"@[1] == 'n',
        "--name"@.len() == 6,
        "--name"@[0] == '-',
        "--name"@[1] == '-',
        "--name"@[2] == 'n',
        "--name"@[3] == 'a',
        "--name"@[4] == 'm',
        "--name"@[5] == 'e',
{
    reveal_strlit("?");
    assert("?"@ =~= seq!['?']);
    reveal_strlit("add-to-playlist");
    assert("add-to-playlist"@ =~= seq!['a', 'd', 'd', '-', 't', 'o', '-', 'p', 'l', 'a', 'y', 'l', 'i', 's', 't']);
    reveal_strlit("addtoplaylist");
    assert("addtoplaylist"@ =~= seq!['a', 'd', 'd', 't', 'o', 'p', 'l', 'a', 'y', 'l', 'i', 's', 't']);
    reveal_strlit("b");
    assert("b"@ =~= seq!['b']);
    reveal_strlit("cat");
    assert("cat"@ =~= seq!['c', 'a', 't']);
    reveal_strlit("edit");
    assert("edit"@ =~= seq!['e', 'd', 'i', 't']);
    reveal_strlit("exit");
    assert("exit"@ =~= seq!['e', 'x', 'i', 't']);
    reveal_strlit("export");
    assert("export"@ =~= seq!['e', 'x', 'p', 'o', 'r', 't']);
    reveal_strlit("find");
    assert("find"@ =~= seq!['f', 'i', 'n', 'd']);
    reveal_strlit("get");
    assert("get"@ =~= seq!['g', 'e', 't']);
    reveal_strlit("getconfig");
    assert("getconfig"@ =~= seq!['g', 'e', 't', 'c', 'o', 'n', 'f', 'i', 'g']);
    reveal_strlit("goto");
    assert("goto"@ =~= seq!['g', 'o', 't', 'o']);
    reveal_strlit("h");
    assert("h"@ =~= seq!['h']);
    reveal_strlit("help");
    assert("help"@ =~= seq!['h', 'e', 'l', 'p']);
    reveal_strlit("hist");
    assert("hist"@ =~= seq!['h', 'i', 's', 't']);
    reveal_strlit("history");
    assert("history"@ =~= seq!['h', 'i', 's', 't', 'o', 'r', 'y']);
    reveal_strlit("import");
    assert("import"@ =~= seq!['i', 'm', 'p', 'o', 'r', 't']);
    reveal_strlit("list");
    assert("list"@ =~= seq!['l', 'i', 's', 't']);
    reveal_strlit("load");
    assert("load"@ =~= seq!['l', 'o', 'a', 'd']);
    reveal_strlit("loop");
    assert("loop"@ =~= seq!['l', 'o', 'o', 'p']);
    reveal_strlit("ls");
    assert("ls"@ =~= seq!['l', 's']);
    reveal_strlit("lyrics");
    assert("lyrics"@ =~= seq!['l', 'y', 'r', 'i', 'c', 's']);
    reveal_strlit("n");
    assert("n"@ =~= seq!['n']);
    reveal_strlit("next");
    assert("next"@ =~= seq!['n', 'e', 'x', 't']);
    reveal_strlit("p");
    assert("p"@ =~= seq!['p']);
    reveal_strlit("pause");
    assert("pause"@ =~= seq!['p', 'a', 'u', 's', 'e']);
    reveal_strlit("play");
    assert("play"@ =~= seq!['p', 'l', 'a', 'y']);
    reveal_strlit("plugin");
    assert("plugin"@ =~= seq!['p', 'l', 'u', 'g', 'i', 'n']);
    reveal_strlit("plugins");
    assert("plugins"@ =~= seq!['p', 'l', 'u', 'g', 'i', 'n', 's']);
    reveal_strlit("prev");
    assert("prev"@ =~= seq!['p', 'r', 'e', 'v']);
    reveal_strlit("previous");
    assert("previous"@ =~= seq!['p', 'r', 'e', 'v', 'i', 'o', 'u', 's']);
    reveal_strlit("q");
    assert("q"@ =~= seq!['q']);
    reveal_strlit("q!");
    assert("q!"@ =~= seq!['q', '!']);
    reveal_strlit("queue");
    assert("queue"@ =~= seq!['q', 'u', 'e', 'u', 'e']);
    reveal_strlit("quit");
    assert("quit"@ =~= seq!['q', 'u', 'i', 't']);
    reveal_strlit("random");
    assert("random"@ =~= seq!['r', 'a', 'n', 'd', 'o', 'm']);
    reveal_strlit("read");
    assert("read"@ =~= seq!['r', 'e', 'a', 'd']);
    reveal_strlit("remove");
    assert("remove"@ =~= seq!['r', 'e', 'm', 'o', 'v', 'e']);
    reveal_strlit("repeat");
    assert("repeat"@ =~= seq!['r', 'e', 'p', 'e', 'a', 't']);
    reveal_strlit("resume");
    assert("resume"@ =~= seq!['r', 'e', 's', 'u', 'm', 'e']);
    reveal_strlit("rm");
    assert("rm"@ =~= seq!['r', 'm']);
    reveal_strlit("s");
    assert("s"@ =~= seq!['s']);
    reveal_strlit("save");
    assert("save"@ =~= seq!['s', 'a', 'v', 'e']);
    reveal_strlit("search");
    assert("search"@ =~= seq!['s', 'e', 'a', 'r', 'c', 'h']);
    reveal_strlit("seek");
    assert("seek"@ =~= seq!['s', 'e', 'e', 'k']);
    reveal_strlit("set");
    assert("set"@ =~= seq!['s', 'e', 't']);
    reveal_strlit("setconfig");
    assert("setconfig"@ =~= seq!['s', 'e', 't', 'c', 'o', 'n', 'f', 'i', 'g']);
    reveal_strlit("show");
    assert("show"@ =~= seq!['s', 'h', 'o', 'w']);
    reveal_strlit("shuffle");
    assert("shuffle"@ =~= seq!['s', 'h', 'u', 'f', 'f', 'l', 'e']);
    reveal_strlit("stats");
    assert("stats"@ =~= seq!['s', 't', 'a', 't', 's']);
    reveal_strlit("stop");
    assert("stop"@ =~= seq!['s', 't', 'o', 'p']);
    reveal_strlit("unpause");
    assert("unpause"@ =~= seq!['u', 'n', 'p', 'a', 'u', 's', 'e']);
    reveal_strlit("vol");
    assert("vol"@ =~= seq!['v', 'o', 'l']);
    reveal_strlit("volume");
    assert("volume"@ =~= seq!['v', 'o', 'l', 'u', 'm', 'e']);
    reveal_strlit("write");
    assert("write"@ =~= seq!['w', 'r', 'i', 't', 'e']);
    reveal_strlit("add");
    assert("add"@ =~= seq!['a', 'd', 'd']);
    reveal_strlit("a");
    assert("a"@ =~= seq!['a']);
    reveal_strlit("append");
    assert("append"@ =~= seq!['a', 'p', 'p', 'e', 'n', 'd']);
    reveal_strlit("clear");
    assert("clear"@ =~= seq!['c', 'l', 'e', 'a', 'r']);
    reveal_strlit("c");
    assert("c"@ =~= seq!['c']);
    reveal_strlit("-a");
    assert("-a"@ =~= seq!['-', 'a']);
    reveal_strlit("--all");
    assert("--all"@ =~= seq!['-', '-', 'a', 'l', 'l']);
    reveal_strlit("-n");
    assert("-n"@ =~= seq!['-', 'n']);
    reveal_strlit("--name");
    assert("--name"@ =~= seq!['-', '-', 'n', 'a', 'm', 'e']);
}

/// An `all` option word.
pub open spec fn is_all_flag(w: Seq<char>) -> bool {
    w == "-a"@ || w == "--all"@
}

/// The words that are no `all` option, in order.
pub open spec fn plain_words(a: Seq<Seq<char>>) -> Seq<Seq<char>>
    decreases a.len(),
{
    if a.len() == 0 {
        Seq::empty()
    } else if is_all_flag(a[0]) {
        plain_words(a.drop_first())
    } else {
        seq![a[0]] + plain_words(a.drop_first())
    }
}

proof fn lemma_scan_without_name(a: Seq<Seq<char>>, i: int, words: Seq<Seq<char>>, all: bool)
    requires
        0 <= i <= a.len(),
        forall|j: int| 0 <= j < a.len() ==> (#[trigger] a[j]) != "-n"@ && a[j] != "--name"@,
    ensures
        scan_flags(a, i, words, all) == (
            words + plain_words(a.subrange(i, a.len() as int)),
            all || exists|j: int| i <= j < a.len() && is_all_flag(#[trigger] a[j]),
        ),
    decreases a.len() - i,
{
    let rest = a.subrange(i, a.len() as int);
    if i < a.len() {
        assert(rest.drop_first() =~= a.subrange(i + 1, a.len() as int));
        assert(rest[0] == a[i]);
        if is_all_flag(a[i]) {
            lemma_scan_without_name(a, i + 1, words, true);
        } else {
            lemma_scan_without_name(a, i + 1, words.push(a[i]), all);
            assert(words.push(a[i]) + plain_words(a.subrange(i + 1, a.len() as int)) =~= words + (
            seq![a[i]] + plain_words(a.subrange(i + 1, a.len() as int))));
            assert((exists|j: int| i + 1 <= j < a.len() && is_all_flag(#[trigger] a[j])) == (exists|
                j: int,
            | i <= j < a.len() && is_all_flag(#[trigger] a[j])));
        }
    } else {
        assert(rest.len() == 0);
        assert(words + plain_words(rest) =~= words);
    }
}

/// Without a `-n`/`--name` option, `play` plays all songs exactly when one
/// of its words is `-a`/`--all`, and its other words, joined with single
/// spaces, name the song (no name where there are none).
pub proof fn law_play_options(line: Seq<char>)
    requires
        line_words(line).len() > 0,
        command_word(line) == "play"@ || command_word(line) == "p"@,
        forall|j: int|
            0 <= j < command_args(line).len() ==> (#[trigger] command_args(line)[j]) != "-n"@
                && command_args(line)[j] != "--name"@,
    ensures
        ({
            let a = command_args(line);
            let plain = plain_words(a);
            parse_command_spec(line) == Some(
                CommandView::Play {
                    name: if plain.len() == 0 {
                        None
                    } else {
                        Some(join_with(plain, " "@))
                    },
                    all: exists|j: int| 0 <= j < a.len() && is_all_flag(#[trigger] a[j]),
                },
            )
        }),
{
    lemma_words_text();
    lemma_words_give_text(line);
    let a = command_args(line);
    lemma_scan_without_name(a, 0, Seq::empty(), false);
    assert(a.subrange(0, a.len() as int) =~= a);
    assert(Seq::<Seq<char>>::empty() + plain_words(a) =~= plain_words(a));
}

/// The same for `queue add`/`a`/`append`: it adds all songs exactly when one
/// of the words after it is `-a`/`--all`, and the others name the song.
pub proof fn law_queue_add_options(line: Seq<char>)
    requires
        line_words(line).len() > 1,
        command_word(line) == "queue"@ || command_word(line) == "q"@,
        command_args(line)[0] == "add"@ || command_args(line)[0] == "a"@ || command_args(line)[0]
            == "append"@,
        forall|j: int|
            0 <= j < command_args(line).len() ==> (#[trigger] command_args(line)[j]) != "-n"@
                && command_args(line)[j] != "--name"@,
    ensures
        ({
            let a = command_args(line).drop_first();
            let plain = plain_words(a);
            parse_command_spec(line) == Some(
                CommandView::QueueAdd {
                    name: if plain.len() == 0 {
                        None
                    } else {
                        Some(join_with(plain, " "@))
                    },
                    all: exists|j: int| 0 <= j < a.len() && is_all_flag(#[trigger] a[j]),
                },
            )
        }),
{
    lemma_words_text();
    lemma_words_give_text(line);
    let args = command_args(line);
    let a = args.drop_first();
    lemma_scan_without_name(args, 1, Seq::empty(), false);
    assert(args.subrange(1, args.len() as int) =~= a);
    assert(Seq::<Seq<char>>::empty() + plain_words(a) =~= plain_words(a));
    assert((exists|j: int| 1 <= j < args.len() && is_all_flag(#[trigger] args[j])) == (exists|j: int|
        0 <= j < a.len() && is_all_flag(#[trigger] a[j]))) by {
        if exists|j: int| 1 <= j < args.len() && is_all_flag(#[trigger] args[j]) {
            let j = choose|j: int| 1 <= j < args.len() && is_all_flag(#[trigger] args[j]);
            assert(a[j - 1] == args[j]);
        }
        if exists|j: int| 0 <= j < a.len() && is_all_flag(#[trigger] a[j]) {
            let j = choose|j: int| 0 <= j < a.len() && is_all_flag(#[trigger] a[j]);
            assert(a[j] == args[j + 1]);
        }
    }
}

/// Text with no quote, space or tab.
pub open spec fn is_plain_text(p: Seq<char>) -> bool {
    forall|i: int|
        0 <= i < p.len() ==> (#[trigger] p[i]) != '\'' && p[i] != '"' && p[i] != ' ' && p[i] != '\t'
}

proof fn lemma_scan_plain(s: Seq<char>, p: Seq<char>)
    requires
        is_plain_text(p),
        !scan_text(s).in_single,
        !scan_text(s).in_double,
    ensures
        scan_text(s + p) == (WordScan { current: scan_text(s).current + p, ..scan_text(s) }),
    decreases p.len(),
{
    if p.len() == 0 {
        assert(s + p =~= s);
        assert(scan_text(s).current + p =~= scan_text(s).current);
    } else {
        let q = p.drop_last();
        assert(is_plain_text(q)) by {
            assert forall|i: int| 0 <= i < q.len() implies (#[trigger] q[i]) != '\'' && q[i] != '"'
                && q[i] != ' ' && q[i] != '\t' by {
                assert(q[i] == p[i]);
            }
        }
        lemma_scan_plain(s, q);
        assert((s + p).drop_last() =~= s + q);
        assert((s + p).last() == p[p.len() - 1]);
        assert(scan_text(s).current + q.push(p.last()) =~= (scan_text(s).current + q).push(p.last()));
        assert(q.push(p.last()) =~= p);
    }
}

proof fn lemma_scan_in_double(s: Seq<char>, x: Seq<char>)
    requires
        forall|i: int| 0 <= i < x.len() ==> (#[trigger] x[i]) != '"',
        !scan_text(s).in_single,
        scan_text(s).in_double,
    ensures
        scan_text(s + x) == (WordScan { current: scan_text(s).current + x, ..scan_text(s) }),
    decreases x.len(),
{
    if x.len() == 0 {
        assert(s + x =~= s);
        assert(scan_text(s).current + x =~= scan_text(s).current);
    } else {
        let q = x.drop_last();
        assert forall|i: int| 0 <= i < q.len() implies (#[trigger] q[i]) != '"' by {
            assert(q[i] == x[i]);
        }
        lemma_scan_in_double(s, q);
        assert((s + x).drop_last() =~= s + q);
        assert((s + x).last() == x[x.len() - 1]);
        assert(scan_text(s).current + q.push(x.last()) =~= (scan_text(s).current + q).push(x.last()));
        assert(q.push(x.last()) =~= x);
    }
}

/// How a line splits into words: text without quotes, spaces or tabs is one
/// word; two such words separated by a space are two words; and text in
/// double quotes is one word whatever spaces it holds, without the quotes.
pub proof fn law_words(a: Seq<char>, b: Seq<char>, x: Seq<char>)
    requires
        is_plain_text(a),
        is_plain_text(b),
        a.len() > 0,
        b.len() > 0,
        x.len() > 0,
        forall|i: int| 0 <= i < x.len() ==> (#[trigger] x[i]) != '"',
    ensures
        words_of(a) == seq![a],
        words_of(a + seq![' '] + b) == seq![a, b],
        words_of(seq!['"'] + x + seq!['"']) == seq![x],
{
    let e = Seq::<char>::empty();
    assert(scan_text(e) == scan_start());
    lemma_scan_plain(e, a);
    assert(e + a =~= a);
    let sa = a + seq![' '];
    assert(sa.drop_last() =~= a);
    assert(sa.last() == ' ');
    assert(scan_text(sa).words =~= seq![a]);
    lemma_scan_plain(sa, b);
    assert(Seq::<char>::empty() + b =~= b);
    assert(seq![a].push(b) =~= seq![a, b]);
    let q = seq!['"'];
    assert(q.drop_last() =~= e);
    assert(q.last() == '"');
    lemma_scan_in_double(q, x);
    assert(Seq::<char>::empty() + x =~= x);
    let qx = q + x;
    let all = qx + seq!['"'];
    assert(all.drop_last() =~= qx);
    assert(all.last() == '"');
    assert(Seq::<Seq<char>>::empty().push(x) =~= seq![x]);
    assert(Seq::<Seq<char>>::empty().push(a) =~= seq![a]);
}

} // verus!
