# latuicon

Configuration, command line and key handling of the `latuicon` terminal icon
picker, with their contracts proved:

- `src/theme.rs` — color themes, reading a theme name, the palette of each theme.
- `src/icon_picker.rs` — the icon tabs and search modes, their names and aliases,
  and reading a list of enabled tabs.
- `src/cli.rs` — the description of the command line, parsed with clap, and how
  option values are read.
- `src/config.rs` — what the values of the configuration file mean and what
  loading it gives.
- `src/settings.rs` — how command line, configuration and defaults combine.
- `src/events.rs` — what each key and mouse event does in the picker.
- `src/text.rs` — white space, trimming, ASCII case and splitting.
- `app/` — the program: arguments, the configuration file read and parsed as
  TOML, the config directory, and the terminal session.

`tests/` runs the library against concrete inputs and compares the text helpers
with the standard library.
