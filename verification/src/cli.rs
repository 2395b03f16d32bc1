//! The command line: which options the program takes, and how their values
//! become themes, tabs and search modes.
use vstd::prelude::*;

use crate::icon_picker::{
    nerd_font_alias, search_mode_from_value, search_mode_name, tab_from_value, tab_name, IconPickerTab,
    SearchMode,
};
use crate::theme::{invalid_variant_message, theme_from_value, theme_name, Theme};

verus! {

#[verifier::external_type_specification]
#[verifier::external_body]
pub struct ExArg(clap::Arg);

#[verifier::external_type_specification]
#[verifier::external_body]
pub struct ExArgMatches(clap::ArgMatches);

/// Why the command line was not accepted, or the help or version text that
/// it asked for: the text to print, whether it goes to standard error, and
/// the exit code.
#[derive(Debug)]
pub struct CliError {
    pub message: String,
    pub use_stderr: bool,
    pub exit_code: i32,
}

/// A value that an option accepts, with the other names it answers to.
pub struct ValueSpec {
    pub name: &'static str,
    pub aliases: Vec<&'static str>,
}

/// An option that takes one value: its identifier, short and long flag, the
/// environment variable read when it is absent, the name of its value in
/// the help, its help text, and the values it accepts (any, when `None`).
pub struct OptionSpec {
    pub id: &'static str,
    pub short: char,
    pub long: &'static str,
    pub env: &'static str,
    pub value_name: &'static str,
    pub help: &'static str,
    pub values: Option<Vec<ValueSpec>>,
}

/// A command: its name, version, short and long description, the text
/// after the help, and its options in order.
pub struct CommandSpec {
    pub name: &'static str,
    pub version: &'static str,
    pub about: &'static str,
    pub long_about: &'static str,
    pub after_help: &'static str,
    pub options: Vec<OptionSpec>,
}

/// The view of a `ValueSpec`.
pub struct ValueView {
    pub name: Seq<char>,
    pub aliases: Seq<Seq<char>>,
}

/// The view of an `OptionSpec`.
pub struct OptionView {
    pub id: Seq<char>,
    pub short: char,
    pub long: Seq<char>,
    pub env: Seq<char>,
    pub value_name: Seq<char>,
    pub help: Seq<char>,
    pub values: Option<Seq<ValueView>>,
}

/// The view of a `CommandSpec`.
pub struct CommandView {
    pub name: Seq<char>,
    pub version: Seq<char>,
    pub about: Seq<char>,
    pub long_about: Seq<char>,
    pub after_help: Seq<char>,
    pub options: Seq<OptionView>,
}

impl View for ValueSpec {
    type V = ValueView;

    open spec fn view(&self) -> ValueView {
        ValueView { name: self.name@, aliases: str_views(self.aliases@) }
    }
}

impl View for OptionSpec {
    type V = OptionView;

    open spec fn view(&self) -> OptionView {
        OptionView {
            id: self.id@,
            short: self.short,
            long: self.long@,
            env: self.env@,
            value_name: self.value_name@,
            help: self.help@,
            values: match self.values {
                Some(v) => Some(value_views(v@)),
                None => None,
            },
        }
    }
}

impl View for CommandSpec {
    type V = CommandView;

    open spec fn view(&self) -> CommandView {
        CommandView {
            name: self.name@,
            version: self.version@,
            about: self.about@,
            long_about: self.long_about@,
            after_help: self.after_help@,
            options: option_views(self.options@),
        }
    }
}

/// The views of a list of string slices.
pub open spec fn str_views(v: Seq<&'static str>) -> Seq<Seq<char>> {
    v.map_values(|a: &'static str| a@)
}

/// The views of a list of values.
pub open spec fn value_views(v: Seq<ValueSpec>) -> Seq<ValueView> {
    v.map_values(|x: ValueSpec| x@)
}

/// The views of a list of options.
pub open spec fn option_views(v: Seq<OptionSpec>) -> Seq<OptionView> {
    v.map_values(|o: OptionSpec| o@)
}

/// A value without aliases.
pub open spec fn plain_value(name: Seq<char>) -> ValueView {
    ValueView { name, aliases: seq![] }
}

/// The program's command line: `--theme`/`-t` (read from `ICON_PICKER_THEME`
/// when absent), `--default-tab`/`-d`, `--search-mode`/`-s`, `--config`/`-c`
/// and `--tabs`/`-T`; the first three accept only the names of themes, tabs
/// (or the alias `nerd`) and search modes.
pub open spec fn latuicon_command() -> CommandView {
    CommandView {
        name: "latuicon"@,
        version: "0.1.0"@,
        about: "interactive TUI icon/emoji/kaomoji picker"@,
        long_about: LONG_ABOUT@,
        after_help: AFTER_HELP@,
        options: seq![
            OptionView {
                id: "theme"@,
                short: 't',
                long: "theme"@,
                env: "ICON_PICKER_THEME"@,
                value_name: "THEME"@,
                help: "Color theme"@,
                values: Some(seq![
                    plain_value("contrast"@),
                    plain_value("late"@),
                    plain_value("purple"@),
                    plain_value("mocha"@),
                    plain_value("gruvbox"@),
                    plain_value("dracula"@),
                ]),
            },
            OptionView {
                id: "default_tab"@,
                short: 'd',
                long: "default-tab"@,
                env: "LATUICON_DEFAULT_TAB"@,
                value_name: "TAB"@,
                help: "Icon tab shown on startup"@,
                values: Some(seq![
                    plain_value("all"@),
                    plain_value("emoji"@),
                    plain_value("kaomoji"@),
                    plain_value("unicode"@),
                    ValueView { name: "nerd-font"@, aliases: seq!["nerd"@] },
                ]),
            },
            OptionView {
                id: "search_mode"@,
                short: 's',
                long: "search-mode"@,
                env: "LATUICON_SEARCH"@,
                value_name: "MODE"@,
                help: "simple string match or fuzzy/typo-tolerant comparison"@,
                values: Some(seq![plain_value("simple"@), plain_value("fuzzy"@)]),
            },
            OptionView {
                id: "config"@,
                short: 'c',
                long: "config"@,
                env: "LATUICON_CONFIG"@,
                value_name: "CONFIG"@,
                help: "Path to config file"@,
                values: None,
            },
            OptionView {
                id: "tabs"@,
                short: 'T',
                long: "tabs"@,
                env: "LATUICON_TABS"@,
                value_name: "TABS"@,
                help: "Comma-separated list of enabled tabs, in display order"@,
                values: None,
            },
        ],
    }
}

/// The long description shown by `--help`.
pub const LONG_ABOUT: &'static str = "interactive TUI icon/emoji/kaomoji picker\n\nPrints the selected icon to stdout on Enter, nothing on Esc. Useful in shell scripts: VAR=$(latuicon)";

/// The key summary shown after the help.
pub const AFTER_HELP: &'static str = "KEYS:\n  ↑/↓          navigate list\n  PgUp/PgDn    page up/down\n  Ctrl+U/D     half-page up/down\n  Tab/S+Tab    switch icon tab\n  Enter        select and exit\n  Esc/Ctrl+C   exit without selecting\n  (type)       filter by name";

fn value(name: &'static str) -> (v: ValueSpec)
    ensures
        v@ == plain_value(name@),
{
    let v = ValueSpec { name, aliases: Vec::new() };
    assert(str_views(v.aliases@) =~= Seq::<Seq<char>>::empty());
    v
}

/// The plain-value description of the program's command line.
pub fn command_spec() -> (c: CommandSpec)
    ensures
        c@ == latuicon_command(),
{
    let themes = vec![
        value("contrast"),
        value("late"),
        value("purple"),
        value("mocha"),
        value("gruvbox"),
        value("dracula"),
    ];
    let nerd = ValueSpec { name: "nerd-font", aliases: vec!["nerd"] };
    assert(str_views(nerd.aliases@) =~= seq!["nerd"@]);
    let tabs = vec![value("all"), value("emoji"), value("kaomoji"), value("unicode"), nerd];
    let modes = vec![value("simple"), value("fuzzy")];
    let ghost expected = latuicon_command();
    assert(value_views(themes@) =~= expected.options[0].values.unwrap());
    assert(value_views(tabs@) =~= expected.options[1].values.unwrap());
    assert(value_views(modes@) =~= expected.options[2].values.unwrap());
    let c = CommandSpec {
        name: "latuicon",
        version: "0.1.0",
        about: "interactive TUI icon/emoji/kaomoji picker",
        long_about: LONG_ABOUT,
        after_help: AFTER_HELP,
        options: vec![
            OptionSpec {
                id: "theme",
                short: 't',
                long: "theme",
                env: "ICON_PICKER_THEME",
                value_name: "THEME",
                help: "Color theme",
                values: Some(themes),
            },
            OptionSpec {
                id: "default_tab",
                short: 'd',
                long: "default-tab",
                env: "LATUICON_DEFAULT_TAB",
                value_name: "TAB",
                help: "Icon tab shown on startup",
                values: Some(tabs),
            },
            OptionSpec {
                id: "search_mode",
                short: 's',
                long: "search-mode",
                env: "LATUICON_SEARCH",
                value_name: "MODE",
                help: "simple string match or fuzzy/typo-tolerant comparison",
                values: Some(modes),
            },
            OptionSpec {
                id: "config",
                short: 'c',
                long: "config",
                env: "LATUICON_CONFIG",
                value_name: "CONFIG",
                help: "Path to config file",
                values: None,
            },
            OptionSpec {
                id: "tabs",
                short: 'T',
                long: "tabs",
                env: "LATUICON_TABS",
                value_name: "TABS",
                help: "Comma-separated list of enabled tabs, in display order",
                values: None,
            },
        ],
    };
    assert(option_views(c.options@) =~= expected.options);
    c
}

/// The views of the command-line arguments.
pub open spec fn arg_views<'a>(args: Seq<&'a str>) -> Seq<Seq<char>> {
    args.map_values(|a: &'a str| a@)
}

/// `tok` names the option with long name `long` and short name `short`:
/// `--long`, `--long=..`, or a token that starts with `-` and `short`.
pub open spec fn names_option(tok: Seq<char>, long: Seq<char>, short: char) -> bool {
    ||| tok == "--"@ + long
    ||| (tok.len() >= long.len() + 3 && tok.take(long.len() + 3 as int) == "--"@ + long + "="@)
    ||| (tok.len() >= 2 && tok[0] == '-' && tok[1] == short)
}

/// The option is given exactly once in `args`, at index `i` (after the
/// program name and before any `--`), as `--long` or `-short` with its value
/// as the next argument.
pub open spec fn given_at(args: Seq<Seq<char>>, long: Seq<char>, short: char, i: int) -> bool {
    &&& 1 <= i < args.len() - 1
    &&& (args[i] == "--"@ + long || args[i] == seq!['-', short])
    &&& forall|j: int| 1 <= j < args.len() && j != i ==> !names_option(#[trigger] args[j], long, short)
    &&& forall|j: int| 1 <= j < i ==> #[trigger] args[j] != "--"@
}

/// The value that `args` gives the option on the command line in the form
/// `--long v` or `-short v`, when it is given once and so.
pub open spec fn given_value(args: Seq<Seq<char>>, long: Seq<char>, short: char) -> Option<Seq<char>> {
    if exists|i: int| given_at(args, long, short, i) {
        let i = choose|i: int| given_at(args, long, short, i);
        Some(args[i + 1])
    } else {
        None
    }
}

/// `v` is one of the names or aliases listed in `values`.
pub open spec fn value_listed(values: Seq<ValueView>, v: Seq<char>) -> bool {
    exists|k: int| 0 <= k < values.len() && (values[k].name == v || values[k].aliases.contains(v))
}

/// `s` holds none of the characters that an environment variable's name
/// cannot hold (`=` and NUL), and is not empty.
pub open spec fn env_name_ok(s: Seq<char>) -> bool {
    s.len() > 0 && !s.contains('=') && !s.contains('\0')
}

/// A description that clap builds without panicking: no option takes the
/// identifier, short or long name of the help and version flags that clap
/// adds; no short name is `-`; long names are not empty and do not start
/// with `-`; environment variable names are valid; and identifiers, short
/// names and long names are pairwise distinct.
pub open spec fn spec_well_formed(c: CommandView) -> bool {
    &&& forall|k: int| 0 <= k < c.options.len() ==> {
        let o = #[trigger] c.options[k];
        &&& o.id != "help"@ && o.id != "version"@
        &&& o.short != '-' && o.short != 'h' && o.short != 'V'
        &&& o.long.len() > 0 && o.long[0] != '-' && o.long != "help"@ && o.long != "version"@
        &&& env_name_ok(o.env)
    }
    &&& forall|j: int, k: int| 0 <= j < k < c.options.len() ==> {
        &&& #[trigger] c.options[j].id != #[trigger] c.options[k].id
        &&& c.options[j].short != c.options[k].short
        &&& c.options[j].long != c.options[k].long
    }
}

/// One option of a command, as clap takes it: `clap::Arg::new` with the
/// option's identifier, then `short`, `long`, `env`, `value_name` and `help`
/// and, where the option lists its values, `value_parser` with a
/// `PossibleValuesParser` of `PossibleValue::new(name).aliases(aliases)` for
/// each. Nothing is claimed of the result. `Arg::short` panics (a debug
/// assertion) on `-`, and `Arg::env` reads the variable at once with
/// `std::env::var_os`, which panics on an empty name or one holding `=` or
/// NUL: `requires` rules those out.
#[verifier::external_body]
fn option_arg(o: &OptionSpec) -> (a: clap::Arg)
    requires
        o@.short != '-',
        env_name_ok(o@.env),
{
    let arg = clap::Arg::new(o.id).short(o.short).long(o.long).env(o.env)
        .value_name(o.value_name).help(o.help);
    match &o.values {
        Some(vs) => arg.value_parser(clap::builder::PossibleValuesParser::new(
            vs.iter().map(|v| clap::builder::PossibleValue::new(v.name).aliases(v.aliases.clone())))),
        None => arg,
    }
}

/// Builds the command that `spec` describes (`clap::Command::new`, `version`,
/// `about`, `long_about`, `after_help`, and `arg` with each option as
/// `option_arg` makes it) and parses `args` with
/// `clap::Command::try_get_matches_from`; a `clap::Error` becomes a
/// `CliError` with its text (`Display`), `use_stderr` and `exit_code`.
/// Absent options are read from their environment variables, so nothing is
/// claimed of success or of an error. Claimed of a success: an option given
/// once on the command line as `--long v` or `-short v` matched `v` (clap
/// reads the environment only for an option that is absent, and a value that
/// looks like another flag is an error); a matched value of an option with
/// listed values is one of its names or aliases (clap's
/// `PossibleValuesParser` accepts nothing else and hands back the text as
/// given). `requires` rules out the descriptions on which clap's debug
/// assertions in `Command::build`, or `std::env::var_os`, panic.
#[verifier::external_body]
fn parse_args(spec: &CommandSpec, args: &[&str]) -> (r: Result<clap::ArgMatches, CliError>)
    requires
        spec_well_formed(spec@),
    ensures
        r matches Ok(m) ==> forall|k: int| 0 <= k < spec@.options.len() ==> (given_value(arg_views(args@), #[trigger] spec@.options[k].long, spec@.options[k].short) matches Some(v) ==> (matched_values(m).dom().contains(spec@.options[k].id) && matched_values(m)[spec@.options[k].id] == v)),
        r matches Ok(m) ==> forall|k: int| 0 <= k < spec@.options.len() ==> (#[trigger] spec@.options[k].values matches Some(vs) ==> (matched_values(m).dom().contains(spec@.options[k].id) ==> value_listed(vs, matched_values(m)[spec@.options[k].id]))),
{
    let mut cmd = clap::Command::new(spec.name).version(spec.version).about(spec.about)
        .long_about(spec.long_about).after_help(spec.after_help);
    for o in spec.options.iter() {
        cmd = cmd.arg(option_arg(o));
    }
    cmd.try_get_matches_from(args.iter().copied()).map_err(|e| CliError {
        message: e.to_string(), use_stderr: e.use_stderr(), exit_code: e.exit_code() })
}

/// What a parse matched: for each argument identifier that holds a value of
/// type `String`, its first value.
pub uninterp spec fn matched_values(m: clap::ArgMatches) -> Map<Seq<char>, Seq<char>>;

/// The value matched for `id`, if any.
pub open spec fn matched(m: clap::ArgMatches, id: Seq<char>) -> Option<Seq<char>> {
    if matched_values(m).dom().contains(id) {
        Some(matched_values(m)[id])
    } else {
        None
    }
}

/// `clap::ArgMatches::try_get_one::<String>`: the first value of argument
/// `id`, if it holds one of type `String`. Claimed: that is what
/// `matched_values` holds for `id`; an identifier that the command does not
/// define, or whose values are of another type (clap's `MatchesError`),
/// holds none.
#[verifier::external_body]
fn matches_value(matches: &clap::ArgMatches, id: &str) -> (r: Option<String>)
    ensures
        option_view(r) == (if matched_values(*matches).dom().contains(id@) {
            Some(matched_values(*matches)[id@])
        } else {
            None
        }),
{
    match matches.try_get_one::<String>(id) {
        Ok(v) => v.cloned(),
        Err(_) => None,
    }
}

/// The options of the command line, before any is resolved against the
/// configuration file and the defaults.
#[derive(Debug)]
pub struct Cli {
    /// Color theme
    pub theme: Option<Theme>,
    /// Icon tab shown on startup
    pub default_tab: Option<IconPickerTab>,
    /// Simple string match or fuzzy/typo-tolerant comparison
    pub search_mode: Option<SearchMode>,
    /// Path to config file
    pub config: Option<String>,
    /// Comma-separated list of enabled tabs, in display order
    pub tabs: Option<String>,
}

/// The view of an optional string.
pub open spec fn option_view(o: Option<String>) -> Option<Seq<char>> {
    match o {
        Some(s) => Some(s@),
        None => None,
    }
}

/// Reads the value of `--theme`, which must be a theme's exact name.
pub open spec fn theme_value(v: Option<Seq<char>>) -> Result<Option<Theme>, Seq<char>> {
    match v {
        None => Ok(None),
        Some(s) => match theme_from_value(s, false) {
            Some(t) => Ok(Some(t)),
            None => Err(invalid_variant_message(s)),
        },
    }
}

/// Reads the value of `--default-tab`, which must be a tab's exact name or alias.
pub open spec fn tab_value(v: Option<Seq<char>>) -> Result<Option<IconPickerTab>, Seq<char>> {
    match v {
        None => Ok(None),
        Some(s) => match tab_from_value(s, false) {
            Some(t) => Ok(Some(t)),
            None => Err(invalid_variant_message(s)),
        },
    }
}

/// Reads the value of `--search-mode`, which must be a search mode's exact name.
pub open spec fn search_mode_value(v: Option<Seq<char>>) -> Result<Option<SearchMode>, Seq<char>> {
    match v {
        None => Ok(None),
        Some(s) => match search_mode_from_value(s, false) {
            Some(m) => Ok(Some(m)),
            None => Err(invalid_variant_message(s)),
        },
    }
}

/// `cli` holds what the option values `theme`, `default_tab`, `search_mode`,
/// `config` and `tabs` give.
pub open spec fn cli_holds(
    cli: Cli,
    theme: Option<Seq<char>>,
    default_tab: Option<Seq<char>>,
    search_mode: Option<Seq<char>>,
    config: Option<Seq<char>>,
    tabs: Option<Seq<char>>,
) -> bool {
    &&& theme_value(theme) matches Ok(t) && t == cli.theme
    &&& tab_value(default_tab) matches Ok(d) && d == cli.default_tab
    &&& search_mode_value(search_mode) matches Ok(m) && m == cli.search_mode
    &&& option_view(cli.config) == config
    &&& option_view(cli.tabs) == tabs
}

/// The message for the first of the option values `theme`, `default_tab`,
/// `search_mode` that does not read, if any.
pub open spec fn cli_values_error(
    theme: Option<Seq<char>>,
    default_tab: Option<Seq<char>>,
    search_mode: Option<Seq<char>>,
) -> Option<Seq<char>> {
    if let Err(e) = theme_value(theme) {
        Some(e)
    } else if let Err(e) = tab_value(default_tab) {
        Some(e)
    } else if let Err(e) = search_mode_value(search_mode) {
        Some(e)
    } else {
        None
    }
}

impl Cli {
    /// The options that the values `theme`, `default_tab`, `search_mode`
    /// (each absent, or a value's exact name), `config` and `tabs` give; the
    /// `invalid variant` message of the first value that names nothing.
    pub fn from_values(
        theme: Option<String>,
        default_tab: Option<String>,
        search_mode: Option<String>,
        config: Option<String>,
        tabs: Option<String>,
    ) -> (r: Result<Cli, String>)
        ensures
            r is Ok <==> cli_values_error(option_view(theme), option_view(default_tab), option_view(search_mode)) is None,
            r matches Ok(cli) ==> cli_holds(cli, option_view(theme), option_view(default_tab), option_view(search_mode), option_view(config), option_view(tabs)),
            r matches Err(e) ==> cli_values_error(option_view(theme), option_view(default_tab), option_view(search_mode)) == Some(e@),
    {
        let t = match theme {
            None => None,
            Some(s) => match Theme::from_value_name(s.as_str(), false) {
                Ok(t) => Some(t),
                Err(e) => return Err(e),
            },
        };
        let d = match default_tab {
            None => None,
            Some(s) => match IconPickerTab::from_value_name(s.as_str(), false) {
                Ok(d) => Some(d),
                Err(e) => return Err(e),
            },
        };
        let m = match search_mode {
            None => None,
            Some(s) => match SearchMode::from_value_name(s.as_str(), false) {
                Ok(m) => Some(m),
                Err(e) => return Err(e),
            },
        };
        Ok(Cli { theme: t, default_tab: d, search_mode: m, config, tabs })
    }

    /// The options that the matched values of `theme`, `default_tab`,
    /// `search_mode`, `config` and `tabs` give; the `invalid variant` message of
    /// the first of the first three that names nothing.
    pub fn from_matches(matches: &clap::ArgMatches) -> (r: Result<Cli, String>)
        ensures
            r is Ok <==> cli_values_error(matched(*matches, "theme"@), matched(*matches, "default_tab"@), matched(*matches, "search_mode"@)) is None,
            r matches Ok(cli) ==> cli_holds(cli, matched(*matches, "theme"@), matched(*matches, "default_tab"@), matched(*matches, "search_mode"@), matched(*matches, "config"@), matched(*matches, "tabs"@)),
            r matches Err(e) ==> cli_values_error(matched(*matches, "theme"@), matched(*matches, "default_tab"@), matched(*matches, "search_mode"@)) == Some(e@),
    {
        let theme = matches_value(matches, "theme");
        let default_tab = matches_value(matches, "default_tab");
        let search_mode = matches_value(matches, "search_mode");
        let config = matches_value(matches, "config");
        let tabs = matches_value(matches, "tabs");
        Cli::from_values(theme, default_tab, search_mode, config, tabs)
    }

    /// Parses the command line `args` (the program name first) with the
    /// command that `command_spec` describes, taking an absent option from
    /// its environment variable. A value that names nothing, an unknown
    /// option, `--help` and `--version` give a `CliError`. Of a success: an
    /// option given once as `--long v` or `-short v` holds what `v` gives.
    pub fn try_parse_from(args: &[&str]) -> (r: Result<Cli, CliError>)
        ensures
            r matches Ok(cli) ==> (given_value(arg_views(args@), "theme"@, 't') matches Some(v) ==> (theme_value(Some(v)) matches Ok(t) && t == cli.theme)),
            r matches Ok(cli) ==> (given_value(arg_views(args@), "default-tab"@, 'd') matches Some(v) ==> (tab_value(Some(v)) matches Ok(t) && t == cli.default_tab)),
            r matches Ok(cli) ==> (given_value(arg_views(args@), "search-mode"@, 's') matches Some(v) ==> (search_mode_value(Some(v)) matches Ok(m) && m == cli.search_mode)),
            r matches Ok(cli) ==> (given_value(arg_views(args@), "config"@, 'c') matches Some(v) ==> option_view(cli.config) == Some(v)),
            r matches Ok(cli) ==> (given_value(arg_views(args@), "tabs"@, 'T') matches Some(v) ==> option_view(cli.tabs) == Some(v)),
    {
        let spec = command_spec();
        proof {
            lemma_command_spec_well_formed();
        }
        let matches = match parse_args(&spec, args) {
            Ok(m) => m,
            Err(e) => return Err(e),
        };
        let ghost opts = latuicon_command().options;
        assert(spec@.options[0] == opts[0] && spec@.options[1] == opts[1] && spec@.options[2] == opts[2]
            && spec@.options[3] == opts[3] && spec@.options[4] == opts[4]);
        match Cli::from_matches(&matches) {
            Ok(cli) => Ok(cli),
            Err(message) => Err(CliError { message, use_stderr: true, exit_code: 2 }),
        }
    }
}

/// The program's command line is one that clap builds without panicking.
pub proof fn lemma_command_spec_well_formed()
    ensures
        spec_well_formed(latuicon_command()),
{
    reveal_strlit("theme");
    reveal_strlit("default_tab");
    reveal_strlit("search_mode");
    reveal_strlit("config");
    reveal_strlit("tabs");
    reveal_strlit("default-tab");
    reveal_strlit("search-mode");
    reveal_strlit("help");
    reveal_strlit("version");
    reveal_strlit("ICON_PICKER_THEME");
    reveal_strlit("LATUICON_DEFAULT_TAB");
    reveal_strlit("LATUICON_SEARCH");
    reveal_strlit("LATUICON_CONFIG");
    reveal_strlit("LATUICON_TABS");
    let c = latuicon_command();
    assert forall|k: int| 0 <= k < c.options.len() implies env_name_ok(#[trigger] c.options[k].env) by {
        let e = c.options[k].env;
        assert forall|i: int| 0 <= i < e.len() implies e[i] != '=' && e[i] != '\0' by {}
        assert(!e.contains('='));
        assert(!e.contains('\0'));
    }
    assert forall|k: int| 0 <= k < c.options.len() implies ({
        let o = #[trigger] c.options[k];
        &&& o.id != "help"@ && o.id != "version"@
        &&& o.short != '-' && o.short != 'h' && o.short != 'V'
        &&& o.long.len() > 0 && o.long[0] != '-' && o.long != "help"@ && o.long != "version"@
        &&& env_name_ok(o.env)
    }) by {
        let id = c.options[k].id;
        assert(id.len() != "help"@.len() || id[0] != "help"@[0]);
        assert(id.len() != "version"@.len());
    }
    assert forall|j: int, k: int| 0 <= j < k < c.options.len() implies ({
        &&& #[trigger] c.options[j].id != #[trigger] c.options[k].id
        &&& c.options[j].short != c.options[k].short
        &&& c.options[j].long != c.options[k].long
    }) by {
        assert(c.options[j].id.len() != c.options[k].id.len() || c.options[j].id[0] != c.options[k].id[0]);
        assert(c.options[j].long.len() != c.options[k].long.len() || c.options[j].long[0] != c.options[k].long[0]);
    }
}

/// The values that the command line lists for `--theme`, `--default-tab`
/// and `--search-mode` are exactly the names that the readers of those values
/// accept: every theme, tab (and the tab alias `nerd`) and search mode can be
/// given, and nothing else gets past clap.
pub proof fn lemma_listed_values_are_the_names(v: Seq<char>)
    ensures
        value_listed(latuicon_command().options[0].values.unwrap(), v) <==> theme_from_value(v, false) is Some,
        value_listed(latuicon_command().options[1].values.unwrap(), v) <==> tab_from_value(v, false) is Some,
        value_listed(latuicon_command().options[2].values.unwrap(), v) <==> search_mode_from_value(v, false) is Some,
{
    let c = latuicon_command();
    let themes = c.options[0].values.unwrap();
    let tabs = c.options[1].values.unwrap();
    let modes = c.options[2].values.unwrap();
    if value_listed(themes, v) {
        let k = choose|k: int| 0 <= k < themes.len() && (themes[k].name == v || themes[k].aliases.contains(v));
        assert(themes[k].aliases.len() == 0);
        assert(themes[k].name == v);
    }
    if let Some(t) = theme_from_value(v, false) {
        let k: int = match t {
            Theme::Contrast => 0,
            Theme::Late => 1,
            Theme::Purple => 2,
            Theme::Mocha => 3,
            Theme::Gruvbox => 4,
            Theme::Dracula => 5,
        };
        assert(v == theme_name(t));
        assert(themes[k].name == v);
    }
    if value_listed(tabs, v) {
        let k = choose|k: int| 0 <= k < tabs.len() && (tabs[k].name == v || tabs[k].aliases.contains(v));
        if tabs[k].aliases.contains(v) {
            assert(k == 4);
            assert(tabs[4].aliases[0] == v);
        } else {
            assert(tabs[k].name == v);
        }
    }
    if let Some(t) = tab_from_value(v, false) {
        let k: int = match t {
            IconPickerTab::All => 0,
            IconPickerTab::Emoji => 1,
            IconPickerTab::Kaomoji => 2,
            IconPickerTab::Unicode => 3,
            IconPickerTab::NerdFont => 4,
        };
        if v == tab_name(t) {
            assert(tabs[k].name == v);
        } else {
            assert(k == 4 && v == "nerd"@);
            assert(tabs[4].aliases[0] == v);
            assert(tabs[4].aliases.contains(v));
        }
    }
    if value_listed(modes, v) {
        let k = choose|k: int| 0 <= k < modes.len() && (modes[k].name == v || modes[k].aliases.contains(v));
        assert(modes[k].aliases.len() == 0);
        assert(modes[k].name == v);
    }
    if let Some(m) = search_mode_from_value(v, false) {
        let k: int = match m {
            SearchMode::Simple => 0,
            SearchMode::Fuzzy => 1,
        };
        assert(v == search_mode_name(m));
        assert(modes[k].name == v);
    }
}

/// On the command line a value must be spelled exactly: `--theme`,
/// `--default-tab` and `--search-mode` read a value as the theme, tab or
/// search mode whose name it is (or, for Nerd Font, its alias `nerd`), and
/// refuse exactly the values that are no such name; an absent value sets
/// nothing.
pub proof fn lemma_option_values_are_exact_names(v: Seq<char>)
    ensures
        theme_value(None) == Ok::<Option<Theme>, Seq<char>>(None),
        theme_value(Some(v)) matches Ok(Some(t)) ==> v == theme_name(t),
        theme_value(Some(v)) is Err <==> forall|t: Theme| v != #[trigger] theme_name(t),
        tab_value(None) == Ok::<Option<IconPickerTab>, Seq<char>>(None),
        tab_value(Some(v)) matches Ok(Some(t)) ==> (v == tab_name(t) || (t == IconPickerTab::NerdFont
            && v == nerd_font_alias())),
        tab_value(Some(v)) is Err <==> (v != nerd_font_alias() && forall|t: IconPickerTab| v
            != #[trigger] tab_name(t)),
        search_mode_value(None) == Ok::<Option<SearchMode>, Seq<char>>(None),
        search_mode_value(Some(v)) matches Ok(Some(m)) ==> v == search_mode_name(m),
        search_mode_value(Some(v)) is Err <==> forall|m: SearchMode| v != #[trigger] search_mode_name(m),
{
    if forall|t: Theme| v != #[trigger] theme_name(t) {
        assert(v != theme_name(Theme::Contrast) && v != theme_name(Theme::Late) && v != theme_name(
            Theme::Purple,
        ) && v != theme_name(Theme::Mocha) && v != theme_name(Theme::Gruvbox) && v != theme_name(
            Theme::Dracula,
        ));
    }
    if v != nerd_font_alias() && forall|t: IconPickerTab| v != #[trigger] tab_name(t) {
        assert(v != tab_name(IconPickerTab::All) && v != tab_name(IconPickerTab::Emoji) && v != tab_name(
            IconPickerTab::Kaomoji,
        ) && v != tab_name(IconPickerTab::Unicode) && v != tab_name(IconPickerTab::NerdFont));
    }
    if forall|m: SearchMode| v != #[trigger] search_mode_name(m) {
        assert(v != search_mode_name(SearchMode::Simple) && v != search_mode_name(SearchMode::Fuzzy));
    }
}

} // verus!
