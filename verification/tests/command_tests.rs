use open_music::command::{command_for, parse_command, shell_words, Command};

fn s(x: &str) -> String {
    x.to_string()
}

#[test]
fn blank_lines_are_no_command() {
    assert_eq!(parse_command(""), None);
    assert_eq!(parse_command("   \t "), None);
    assert_eq!(parse_command("''"), None);
}

#[test]
fn words_split_on_unquoted_blanks() {
    assert_eq!(shell_words("a  b\tc"), vec![s("a"), s("b"), s("c")]);
    assert_eq!(shell_words("play \"my song\" 'x y'"), vec![s("play"), s("my song"), s("x y")]);
    assert_eq!(shell_words("it's \"a 'b'\""), vec![s("its \"a b\"")]);
    assert_eq!(shell_words("say \"don't\""), vec![s("say"), s("don't")]);
    assert!(shell_words("   ").is_empty());
}

#[test]
fn play_variants() {
    assert_eq!(parse_command("play"), Some(Command::Play { name: None, all: false }));
    assert_eq!(parse_command("p -a"), Some(Command::Play { name: None, all: true }));
    assert_eq!(parse_command("PLAY --all"), Some(Command::Play { name: None, all: true }));
    assert_eq!(parse_command("play jazz"), Some(Command::Play { name: Some(s("jazz")), all: false }));
    assert_eq!(parse_command("play -n \"slow song\""), Some(Command::Play { name: Some(s("slow song")), all: false }));
    assert_eq!(parse_command("play a -n"), Some(Command::Play { name: None, all: false }));
    assert_eq!(parse_command("play a b"), Some(Command::Play { name: Some(s("a b")), all: false }));
    assert_eq!(parse_command("play song name"), Some(Command::Play { name: Some(s("song name")), all: false }));
    assert_eq!(parse_command("play -a song name"), Some(Command::Play { name: Some(s("song name")), all: true }));
}

#[test]
fn unknown_words_play_the_whole_line() {
    assert_eq!(
        parse_command("  Bohemian   Rhapsody  "),
        Some(Command::Play { name: Some(s("Bohemian   Rhapsody")), all: false })
    );
}

#[test]
fn simple_verbs_and_aliases() {
    assert_eq!(parse_command("pause"), Some(Command::Pause));
    assert_eq!(parse_command("unpause"), Some(Command::Resume));
    assert_eq!(parse_command("n"), Some(Command::Next));
    assert_eq!(parse_command("b"), Some(Command::Prev));
    assert_eq!(parse_command("previous"), Some(Command::Prev));
    assert_eq!(parse_command("s"), Some(Command::Stop));
    assert_eq!(parse_command("random"), Some(Command::Shuffle));
    assert_eq!(parse_command("stats"), Some(Command::Stats));
    assert_eq!(parse_command("hist"), Some(Command::History));
    assert_eq!(parse_command("ls"), Some(Command::ListPlaylists));
    assert_eq!(parse_command("write"), Some(Command::Save));
    assert_eq!(parse_command("read"), Some(Command::Load));
    assert_eq!(parse_command("?"), Some(Command::Help));
    assert_eq!(parse_command("q!"), Some(Command::Exit));
    assert_eq!(parse_command("Quit"), Some(Command::Exit));
}

#[test]
fn numbers_must_parse() {
    assert_eq!(parse_command("volume 70"), Some(Command::Volume(70)));
    assert_eq!(parse_command("vol +255"), Some(Command::Volume(255)));
    assert_eq!(parse_command("vol 256"), None);
    assert_eq!(parse_command("vol -1"), None);
    assert_eq!(parse_command("vol"), None);
    assert_eq!(parse_command("seek 125"), Some(Command::Seek(125)));
    assert_eq!(parse_command("goto 18446744073709551615"), Some(Command::Seek(u64::MAX)));
    assert_eq!(parse_command("goto 18446744073709551616"), None);
    assert_eq!(parse_command("seek 1m"), None);
}

#[test]
fn repeat_lowercases_its_mode() {
    assert_eq!(parse_command("loop ALL"), Some(Command::Repeat(s("all"))));
    assert_eq!(parse_command("repeat"), None);
}

#[test]
fn queue_subcommands() {
    assert_eq!(parse_command("queue"), Some(Command::QueueShow));
    assert_eq!(parse_command("q show"), Some(Command::QueueShow));
    assert_eq!(parse_command("q whatever"), Some(Command::QueueShow));
    assert_eq!(parse_command("q clear"), Some(Command::QueueClear));
    assert_eq!(parse_command("q c"), Some(Command::QueueClear));
    assert_eq!(parse_command("queue add -a"), Some(Command::QueueAdd { name: None, all: true }));
    assert_eq!(parse_command("q a song"), Some(Command::QueueAdd { name: Some(s("song")), all: false }));
    assert_eq!(parse_command("q append"), Some(Command::QueueAdd { name: None, all: false }));
    assert_eq!(parse_command("queue add slow song"), Some(Command::QueueAdd { name: Some(s("slow song")), all: false }));
}

#[test]
fn library_commands() {
    assert_eq!(parse_command("search  lo fi "), Some(Command::Search(s("lo fi"))));
    assert_eq!(parse_command("find"), Some(Command::Search(s(""))));
    assert_eq!(parse_command("import ~/Music"), Some(Command::Import { path: s("~/Music") }));
    assert_eq!(parse_command("import"), None);
    assert_eq!(parse_command("export"), Some(Command::Export { path: s("") }));
    assert_eq!(parse_command("export out.json"), Some(Command::Export { path: s("out.json") }));
    assert_eq!(parse_command("rm my song"), Some(Command::RemoveSong(s("my song"))));
    assert_eq!(
        parse_command("edit Song tags a, b ,c"),
        Some(Command::EditSong { title: s("Song"), field: s("tags"), value: s("a, b ,c") })
    );
    assert_eq!(
        parse_command("edit Song"),
        Some(Command::EditSong { title: s("Song"), field: s(""), value: s("") })
    );
    assert_eq!(parse_command("edit"), None);
    assert_eq!(parse_command("lyrics Song"), Some(Command::Lyrics { title: s("Song"), text: None }));
    assert_eq!(
        parse_command("lyrics Song la la"),
        Some(Command::Lyrics { title: s("Song"), text: Some(s("la la")) })
    );
}

#[test]
fn playlist_and_config_commands() {
    assert_eq!(parse_command("show road trip"), Some(Command::ShowPlaylist(s("road trip"))));
    assert_eq!(
        parse_command("add-to-playlist Song Mix"),
        Some(Command::AddToPlaylist { song: s("Song"), playlist: s("Mix") })
    );
    assert_eq!(parse_command("addtoplaylist Song"), None);
    assert_eq!(
        parse_command("set ui.theme dark"),
        Some(Command::SetConfig { key: s("ui.theme"), value: s("dark") })
    );
    assert_eq!(parse_command("set ui.theme"), None);
    assert_eq!(parse_command("get"), Some(Command::GetConfig(s(""))));
    assert_eq!(parse_command("getconfig ui.theme"), Some(Command::GetConfig(s("ui.theme"))));
    assert_eq!(parse_command("plugins list all"), Some(Command::Plugin(s("list all"))));
}

#[test]
fn command_for_takes_the_lowered_word() {
    let args = vec![s("song"), s("name")];
    assert_eq!(command_for("play", &args, "PLAY song name"), Some(Command::Play { name: Some(s("song name")), all: false }));
    assert_eq!(command_for("nonsense", &args, "nonsense song name"), Some(Command::Play { name: Some(s("nonsense song name")), all: false }));
}
