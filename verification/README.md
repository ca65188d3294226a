# open_music

A music library manager: a library of songs, albums, creditors and
playlists; a player with a play queue, repeat and shuffle; a configuration
read and written by dotted keys; a plugin registry; and a command line that
understands commands such as `play song name`, `queue add -a` or
`set ui.theme dark`.

The library under `src/` is written in Verus.  Every function there carries
a contract over a mathematical model of the data (views into `Seq`, `Map`
and plain values) and is proved against it.  The program around it, under
`app/`, does what cannot be verified: terminal input and output, files,
audio output, probing audio files, the configuration file format and its
watcher, and floating-point values.

## Layout

- `src/text.rs`: models of text (trimming, splitting, joining, parsing
  numbers and booleans, case folding) and the verified string helpers.
- `src/command.rs`: splitting a line into shell-style words and reading it
  as a `Command`.
- `src/library.rs`, `src/library/persistence.rs`: songs, credits, albums,
  playlists, the library with its searches, and where it is stored.
- `src/player.rs`: the player as a state machine.  Each operation is a
  transition of `PlayerModel` that also names the one thing the audio
  output has to do; shuffled playback takes a random draw, and the
  transition is stated for every draw.
- `src/config.rs`: the settings, reading and writing them by dotted key,
  and the laws that a read gives back a write and that a write touches no
  other setting.
- `src/plugin.rs`: the plugin registry, its command index, and the merge of
  a plugin's default settings into its table.
- `src/session.rs`: what each command does to the library and the player,
  apart from printing.
- `tests/`: tests of the library on concrete values.
- `app/`: the program (`main`, the REPL, audio, files, configuration file).

## Laws

Besides the contracts of each function, the library states and proves
properties that span several functions, as public proof functions whose
names begin with `law_`: for example `law_get_after_set`,
`law_prev_undoes_next`, `law_shuffle_plays_another_entry`,
`law_registered_commands_found` and `law_defaults_keep_settings`.
