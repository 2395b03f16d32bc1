//! The persistent user configuration: a TOML document whose `theme` and
//! `default_tab` keys override the built-in defaults. Reading and parsing the
//! file happen outside the library; here it is decided what a value of those
//! keys means and what loading gives.
use vstd::prelude::*;

use crate::cli::{option_view, str_views};
use crate::icon_picker::{
    lemma_tab_value_ignores_case, nerd_font_alias, tab_from_value, tab_name, IconPickerTab,
};
use crate::text::{concat3, eq_ignore_ascii_case};
use crate::theme::{
    invalid_variant_message, lemma_eq_ignore_ascii_case_equiv, lemma_theme_value_ignores_case,
    theme_from_value, theme_name, Theme,
};

verus! {

/// What a `theme` value means: absent gives no override; a string must
/// name a theme, ignoring ASCII case.
pub open spec fn read_theme(raw: Option<Seq<char>>) -> Result<Option<Theme>, Seq<char>> {
    match raw {
        None => Ok(None),
        Some(s) => match theme_from_value(s, true) {
            Some(t) => Ok(Some(t)),
            None => Err(invalid_variant_message(s)),
        },
    }
}

/// What a `default_tab` value means: absent gives no override; a string must
/// name a tab or its alias, ignoring ASCII case.
pub open spec fn read_tab(raw: Option<Seq<char>>) -> Result<Option<IconPickerTab>, Seq<char>> {
    match raw {
        None => Ok(None),
        Some(s) => match tab_from_value(s, true) {
            Some(t) => Ok(Some(t)),
            None => Err(invalid_variant_message(s)),
        },
    }
}

/// The view of a configuration result.
pub open spec fn config_result_view(r: Result<Config, String>) -> Result<Config, Seq<char>> {
    match r {
        Ok(c) => Ok(c),
        Err(e) => Err(e@),
    }
}

/// Persistent user configuration; `None` leaves the value to the command line
/// or to the built-in default.
#[derive(Clone, Copy, Debug, PartialEq, Eq, Structural)]
pub struct Config {
    pub theme: Option<Theme>,
    pub default_tab: Option<IconPickerTab>,
}

/// The configuration without overrides.
pub open spec fn empty_config() -> Config {
    Config { theme: None, default_tab: None }
}

impl Default for Config {
    fn default() -> (c: Config)
        ensures
            c == empty_config(),
    {
        Config { theme: None, default_tab: None }
    }
}

/// The `theme` setting that the string value `raw` of the `theme` key (if
/// present) gives; the `invalid variant` message when it names no theme.
pub fn theme_setting(raw: Option<String>) -> (r: Result<Option<Theme>, String>)
    ensures
        r matches Ok(t) ==> (read_theme(option_view(raw)) matches Ok(u) && u == t),
        r matches Err(e) ==> (read_theme(option_view(raw)) matches Err(m) && m == e@),
{
    match raw {
        None => Ok(None),
        Some(s) => match Theme::from_value_name(s.as_str(), true) {
            Ok(t) => Ok(Some(t)),
            Err(e) => Err(e),
        },
    }
}

/// The `default_tab` setting that the string value `raw` of the
/// `default_tab` key (if present) gives; the `invalid variant` message when it
/// names no tab.
pub fn tab_setting(raw: Option<String>) -> (r: Result<Option<IconPickerTab>, String>)
    ensures
        r matches Ok(t) ==> (read_tab(option_view(raw)) matches Ok(u) && u == t),
        r matches Err(e) ==> (read_tab(option_view(raw)) matches Err(m) && m == e@),
{
    match raw {
        None => Ok(None),
        Some(s) => match IconPickerTab::from_value_name(s.as_str(), true) {
            Ok(t) => Ok(Some(t)),
            Err(e) => Err(e),
        },
    }
}

/// What reading the configuration file gave: what parsing the file that was
/// read as a configuration gave (the text of the parse error on failure), or
/// the error (with its message) when the file does not exist or could not be
/// read.
pub enum ReadOutcome {
    Parsed(Result<Config, String>),
    NotFound(String),
    Failed(String),
}

/// The message for a configuration file that could not be read.
pub open spec fn read_error_message(path: Seq<char>, err: Seq<char>) -> Seq<char> {
    "could not read config file "@ + path + ": "@ + err
}

/// The message for a configuration file that could not be parsed.
pub open spec fn parse_error_message(path: Seq<char>, err: Seq<char>) -> Seq<char> {
    "could not parse config file "@ + path + ": "@ + err
}

/// What loading the configuration at `path` gives once reading it gave `read`:
/// a missing file that is not required gives no overrides; any other read
/// error is reported; the error of a file that was read but did not parse is
/// reported as it is.
pub open spec fn load_from_result(path: Seq<char>, required: bool, read: ReadOutcome) -> Result<
    Config,
    Seq<char>,
> {
    match read {
        ReadOutcome::NotFound(e) => if required {
            Err(read_error_message(path, e@))
        } else {
            Ok(empty_config())
        },
        ReadOutcome::Failed(e) => Err(read_error_message(path, e@)),
        ReadOutcome::Parsed(Ok(cfg)) => Ok(cfg),
        ReadOutcome::Parsed(Err(e)) => Err(parse_error_message(path, e@)),
    }
}

/// The file that `Config::load` reads: the explicit path when one is given,
/// else the default location.
pub open spec fn config_path<'a>(explicit_path: Option<&'a str>, default_path: &'a str) -> &'a str {
    match explicit_path {
        Some(p) => p,
        None => default_path,
    }
}

/// Where the configuration file lies when none is named, as path components:
/// under the per-user configuration directory, when there is one,
/// `latuicon/config.toml`; else `latuicon.toml` in the working directory.
pub open spec fn default_location(has_config_dir: bool) -> Seq<Seq<char>> {
    if has_config_dir {
        seq!["latuicon"@, "config.toml"@]
    } else {
        seq!["latuicon.toml"@]
    }
}

/// The path components of the default configuration file, to be joined to
/// the per-user configuration directory when `has_config_dir` holds.
pub fn default_location_parts(has_config_dir: bool) -> (r: Vec<&'static str>)
    ensures
        str_views(r@) == default_location(has_config_dir),
{
    let r = if has_config_dir {
        vec!["latuicon", "config.toml"]
    } else {
        vec!["latuicon.toml"]
    };
    assert(str_views(r@) =~= default_location(has_config_dir));
    r
}

fn error_with(prefix: &str, path: &str, err: &str) -> (r: String)
    ensures
        r@ == prefix@ + path@ + ": "@ + err@,
{
    let mut r = concat3(prefix, path, ": ");
    r.append(err);
    r
}

impl Config {
    /// Loads the configuration at `path`, which reading gave `read`; `required`
    /// tells whether a missing file is an error or leaves every value unset.
    pub fn load_from(path: &str, required: bool, read: ReadOutcome) -> (r: Result<Config, String>)
        ensures
            config_result_view(r) == load_from_result(path@, required, read),
    {
        match read {
            ReadOutcome::NotFound(e) => {
                if required {
                    Err(error_with("could not read config file ", path, e.as_str()))
                } else {
                    Ok(Config::default())
                }
            },
            ReadOutcome::Failed(e) => Err(error_with("could not read config file ", path, e.as_str())),
            ReadOutcome::Parsed(Ok(cfg)) => Ok(cfg),
            ReadOutcome::Parsed(Err(t)) => Err(error_with("could not parse config file ", path, t.as_str())),
        }
    }

    /// Loads the configuration from `explicit_path`, which must exist, or else
    /// from `default_path`, which may be missing; `read` reads a file.
    pub fn load<F: Fn(&str) -> ReadOutcome>(
        explicit_path: Option<&str>,
        default_path: &str,
        read: F,
    ) -> (r: Result<Config, String>)
        requires
            forall|p: &str| read.requires((p,)),
        ensures
            exists|out: ReadOutcome|
                {
                    &&& read.ensures((config_path(explicit_path, default_path),), out)
                    &&& config_result_view(r) == load_from_result(
                        config_path(explicit_path, default_path)@,
                        explicit_path is Some,
                        out,
                    )
                },
    {
        match explicit_path {
            Some(path) => {
                let out = read(path);
                let ghost seen = out;
                let r = Config::load_from(path, true, out);
                assert(read.ensures((config_path(explicit_path, default_path),), seen));
                r
            },
            None => {
                let out = read(default_path);
                let ghost seen = out;
                let r = Config::load_from(default_path, false, out);
                assert(read.ensures((config_path(explicit_path, default_path),), seen));
                r
            },
        }
    }
}

/// A missing file at the default location leaves every value unset; a
/// missing file that was named explicitly is an error; a file that was read
/// but did not parse is an error too, never a fallback to the defaults; and
/// once a file was read, whether it was required makes no difference.
pub proof fn lemma_load_outcomes(path: Seq<char>, required: bool, read: ReadOutcome)
    ensures
        read is NotFound && !required ==> load_from_result(path, required, read) == Ok::<
            Config,
            Seq<char>,
        >(empty_config()),
        read is NotFound && required ==> load_from_result(path, required, read) is Err,
        read is Failed ==> load_from_result(path, required, read) is Err,
        read matches ReadOutcome::Parsed(p) ==> (p is Err <==> load_from_result(
            path,
            required,
            read,
        ) is Err),
        read is Parsed ==> load_from_result(path, true, read) == load_from_result(path, false, read),
{
}

/// Values of `theme` and `default_tab` that spell the name of a theme and a
/// tab in any ASCII case configure exactly those.
pub proof fn lemma_setting_names(theme: Seq<char>, t: Theme, tab: Seq<char>, d: IconPickerTab)
    requires
        eq_ignore_ascii_case(theme, theme_name(t)),
        eq_ignore_ascii_case(tab, tab_name(d)),
    ensures
        read_theme(Some(theme)) == Ok::<Option<Theme>, Seq<char>>(Some(t)),
        read_tab(Some(tab)) == Ok::<Option<IconPickerTab>, Seq<char>>(Some(d)),
{
    lemma_theme_value_ignores_case(theme, t);
    lemma_tab_value_ignores_case(tab, d);
}

/// A file that was read and parsed loads as exactly the configuration it
/// holds, every value kept, whether or not it was named explicitly; and a
/// missing or unreadable file never loads as a configuration with a value
/// set.
pub proof fn lemma_parsed_file_loads_as_parsed(path: Seq<char>, required: bool, cfg: Config, read: ReadOutcome)
    ensures
        load_from_result(path, required, ReadOutcome::Parsed(Ok(cfg))) == Ok::<Config, Seq<char>>(cfg),
        !(read is Parsed) ==> (load_from_result(path, required, read) matches Ok(c) ==> (c.theme is None
            && c.default_tab is None)),
{
}

/// A value of `theme` or `default_tab` that is given never reads as "no
/// override": it reads as a theme or tab whose name (or, for Nerd Font, whose
/// alias) it spells up to ASCII case, and it is refused exactly when it
/// spells no such name.
pub proof fn lemma_setting_values_name_what_they_read(s: Seq<char>)
    ensures
        read_theme(Some(s)) != Ok::<Option<Theme>, Seq<char>>(None),
        read_theme(Some(s)) matches Ok(Some(t)) ==> eq_ignore_ascii_case(s, theme_name(t)),
        read_theme(Some(s)) is Err <==> forall|t: Theme| !eq_ignore_ascii_case(s, #[trigger] theme_name(t)),
        read_tab(Some(s)) != Ok::<Option<IconPickerTab>, Seq<char>>(None),
        read_tab(Some(s)) matches Ok(Some(t)) ==> (eq_ignore_ascii_case(s, tab_name(t)) || (t
            == IconPickerTab::NerdFont && eq_ignore_ascii_case(s, nerd_font_alias()))),
        read_tab(Some(s)) is Err <==> (!eq_ignore_ascii_case(s, nerd_font_alias()) && forall|t: IconPickerTab|
            !eq_ignore_ascii_case(s, #[trigger] tab_name(t))),
{
    assert forall|n: Seq<char>| #[trigger] eq_ignore_ascii_case(n, s) == eq_ignore_ascii_case(s, n) by {
        lemma_eq_ignore_ascii_case_equiv(n, s, n);
        lemma_eq_ignore_ascii_case_equiv(s, n, s);
    }
    if read_theme(Some(s)) is Err {
        assert forall|t: Theme| !eq_ignore_ascii_case(s, #[trigger] theme_name(t)) by {
            assert(eq_ignore_ascii_case(theme_name(t), s) == eq_ignore_ascii_case(s, theme_name(t)));
        }
    }
    if forall|t: Theme| !eq_ignore_ascii_case(s, #[trigger] theme_name(t)) {
        assert(!eq_ignore_ascii_case(s, theme_name(Theme::Contrast)));
        assert(!eq_ignore_ascii_case(s, theme_name(Theme::Late)));
        assert(!eq_ignore_ascii_case(s, theme_name(Theme::Purple)));
        assert(!eq_ignore_ascii_case(s, theme_name(Theme::Mocha)));
        assert(!eq_ignore_ascii_case(s, theme_name(Theme::Gruvbox)));
        assert(!eq_ignore_ascii_case(s, theme_name(Theme::Dracula)));
    }
    if let Ok(Some(t)) = read_theme(Some(s)) {
        assert(eq_ignore_ascii_case(theme_name(t), s));
    }
    if read_tab(Some(s)) is Err {
        assert(eq_ignore_ascii_case(nerd_font_alias(), s) == eq_ignore_ascii_case(s, nerd_font_alias()));
        assert forall|t: IconPickerTab| !eq_ignore_ascii_case(s, #[trigger] tab_name(t)) by {
            assert(eq_ignore_ascii_case(tab_name(t), s) == eq_ignore_ascii_case(s, tab_name(t)));
        }
    }
    if !eq_ignore_ascii_case(s, nerd_font_alias()) && forall|t: IconPickerTab|
        !eq_ignore_ascii_case(s, #[trigger] tab_name(t)) {
        assert(!eq_ignore_ascii_case(nerd_font_alias(), s));
        assert(!eq_ignore_ascii_case(s, tab_name(IconPickerTab::All)));
        assert(!eq_ignore_ascii_case(s, tab_name(IconPickerTab::Emoji)));
        assert(!eq_ignore_ascii_case(s, tab_name(IconPickerTab::Kaomoji)));
        assert(!eq_ignore_ascii_case(s, tab_name(IconPickerTab::Unicode)));
        assert(!eq_ignore_ascii_case(s, tab_name(IconPickerTab::NerdFont)));
    }
    if let Ok(Some(t)) = read_tab(Some(s)) {
        assert(eq_ignore_ascii_case(tab_name(t), s) || (t == IconPickerTab::NerdFont
            && eq_ignore_ascii_case(nerd_font_alias(), s)));
    }
}

} // verus!
