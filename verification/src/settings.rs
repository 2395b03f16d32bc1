//! How the command line, the configuration file and the built-in defaults
//! combine into the settings the picker starts with.
use vstd::prelude::*;

use crate::cli::{option_view, Cli};
use crate::config::Config;
use crate::icon_picker::{
    contains_tab, lemma_every_tab_once, parse_tabs_result, tab_label, tab_order, IconPickerTab,
    SearchMode,
};
use crate::text::{concat3, split, split_on, string_views, trim, trimmed};
use crate::theme::Theme;

verus! {

/// The theme used when neither the command line nor the configuration names one.
pub const DEFAULT_THEME: Theme = Theme::Contrast;

/// The tab shown first when neither the command line nor the configuration names one.
pub const DEFAULT_TAB: IconPickerTab = IconPickerTab::Emoji;

/// The search mode used when the command line names none.
pub const DEFAULT_SEARCH_MODE: SearchMode = SearchMode::Fuzzy;

/// The first value that is given: `first`, else `second`, else `default`.
pub open spec fn first_given<T>(first: Option<T>, second: Option<T>, default: T) -> T {
    match first {
        Some(v) => v,
        None => match second {
            Some(v) => v,
            None => default,
        },
    }
}

/// The names in a comma-separated list, each without surrounding white space.
pub open spec fn list_names(raw: Seq<char>) -> Seq<Seq<char>> {
    split_on(raw, ',').map_values(|p: Seq<char>| trimmed(p))
}

/// The tabs that a comma-separated list of tab names gives.
pub open spec fn tab_list_result(raw: Seq<char>) -> Result<Seq<IconPickerTab>, Seq<char>> {
    parse_tabs_result(list_names(raw))
}

/// The message for a first tab that is not among the enabled tabs.
pub open spec fn disabled_tab_message(t: IconPickerTab) -> Seq<char> {
    "default tab '"@ + tab_label(t) + "' is disabled (not in tabs list)"@
}

/// The enabled tabs: those of the `--tabs` list when it is given, else every tab.
pub open spec fn enabled_tabs(tabs: Option<Seq<char>>) -> Result<Seq<IconPickerTab>, Seq<char>> {
    match tabs {
        None => Ok(tab_order()),
        Some(raw) => tab_list_result(raw),
    }
}

/// The settings the picker starts with.
#[derive(Debug)]
pub struct Settings {
    pub theme: Theme,
    pub default_tab: IconPickerTab,
    pub search_mode: SearchMode,
    pub tabs: Vec<IconPickerTab>,
}

/// Reads a comma-separated list of tab names, each trimmed of white space.
pub fn tab_list(raw: &str) -> (r: Result<Vec<IconPickerTab>, String>)
    ensures
        r matches Ok(tabs) ==> (tab_list_result(raw@) matches Ok(s) && s == tabs@),
        r matches Err(e) ==> (tab_list_result(raw@) matches Err(m) && m == e@),
        r is Ok <==> tab_list_result(raw@) is Ok,
{
    let pieces = split(raw, ',');
    let ghost pieces_view = string_views(pieces@);
    let mut names: Vec<String> = Vec::new();
    let mut i: usize = 0;
    while i < pieces.len()
        invariant
            i <= pieces.len(),
            pieces_view == string_views(pieces@),
            string_views(names@) =~= pieces_view.take(i as int).map_values(|p: Seq<char>| trimmed(p)),
        decreases pieces.len() - i,
    {
        let name = String::from_str(trim(pieces[i].as_str()));
        let ghost before = string_views(names@);
        names.push(name);
        assert(string_views(names@) =~= before.push(name@));
        i = i + 1;
    }
    assert(pieces_view.take(pieces.len() as int) =~= pieces_view);
    assert(string_views(names@) =~= list_names(raw@));
    IconPickerTab::parse_tabs(&names)
}

/// The first tab the picker shows.
pub open spec fn chosen_tab(cli: Cli, config: Config) -> IconPickerTab {
    first_given(cli.default_tab, config.default_tab, DEFAULT_TAB)
}

/// The theme the picker draws with.
pub open spec fn chosen_theme(cli: Cli, config: Config) -> Theme {
    first_given(cli.theme, config.theme, DEFAULT_THEME)
}

/// The search mode the picker starts with; the configuration holds none.
pub open spec fn chosen_search_mode(cli: Cli) -> SearchMode {
    first_given(cli.search_mode, None, DEFAULT_SEARCH_MODE)
}

impl Settings {
    /// Combines the command line and the configuration: each of theme and
    /// first tab is taken from the command line, else from the configuration,
    /// else from the built-in default; the search mode from the command line,
    /// else the default; the enabled tabs from `--tabs`, else every tab. The
    /// first tab must be enabled.
    pub fn resolve(cli: &Cli, config: &Config) -> (r: Result<Settings, String>)
        ensures
            r is Ok <==> (enabled_tabs(option_view(cli.tabs)) matches Ok(ts) && ts.contains(
                chosen_tab(*cli, *config),
            )),
            r matches Ok(s) ==> {
                &&& s.theme == chosen_theme(*cli, *config)
                &&& s.default_tab == chosen_tab(*cli, *config)
                &&& s.search_mode == chosen_search_mode(*cli)
                &&& enabled_tabs(option_view(cli.tabs)) matches Ok(ts) && s.tabs@ == ts
                &&& s.tabs@.contains(s.default_tab)
            },
            enabled_tabs(option_view(cli.tabs)) matches Err(m) ==> (r matches Err(e) && e@ == m),
            enabled_tabs(option_view(cli.tabs)) matches Ok(ts) ==> (!ts.contains(chosen_tab(*cli, *config))
                ==> (r matches Err(e) && e@ == disabled_tab_message(chosen_tab(*cli, *config)))),
    {
        let theme = match cli.theme {
            Some(t) => t,
            None => match config.theme {
                Some(t) => t,
                None => DEFAULT_THEME,
            },
        };
        let default_tab = match cli.default_tab {
            Some(t) => t,
            None => match config.default_tab {
                Some(t) => t,
                None => DEFAULT_TAB,
            },
        };
        let search_mode = match cli.search_mode {
            Some(m) => m,
            None => DEFAULT_SEARCH_MODE,
        };
        let tabs = match &cli.tabs {
            Some(raw) => match tab_list(raw.as_str()) {
                Ok(tabs) => tabs,
                Err(e) => return Err(e),
            },
            None => IconPickerTab::all(),
        };
        if !contains_tab(&tabs, default_tab) {
            return Err(concat3("default tab '", default_tab.label(), "' is disabled (not in tabs list)"));
        }
        Ok(Settings { theme, default_tab, search_mode, tabs })
    }
}

/// Without a `--tabs` list every tab is enabled, each exactly once, so the
/// settings resolve whichever first tab the command line or the
/// configuration chooses.
pub proof fn lemma_no_tab_list_enables_every_tab(cli: Cli, config: Config, t: IconPickerTab)
    requires
        cli.tabs is None,
    ensures
        enabled_tabs(option_view(cli.tabs)) matches Ok(ts) && {
            &&& ts.contains(t)
            &&& ts.contains(chosen_tab(cli, config))
            &&& ts.len() == 5
            &&& forall|i: int, j: int| 0 <= i < j < ts.len() ==> ts[i] != ts[j]
        },
{
    lemma_every_tab_once(t);
    lemma_every_tab_once(chosen_tab(cli, config));
}

/// Each setting comes from the command line when it gives one, else from the
/// configuration file, else from the built-in default: the `contrast` theme,
/// the `emoji` tab and fuzzy search.
pub proof fn lemma_settings_precedence(cli: Cli, config: Config)
    ensures
        cli.theme matches Some(t) ==> chosen_theme(cli, config) == t,
        cli.theme is None ==> (config.theme matches Some(t) ==> chosen_theme(cli, config) == t),
        cli.theme is None && config.theme is None ==> chosen_theme(cli, config) == Theme::Contrast,
        cli.default_tab matches Some(t) ==> chosen_tab(cli, config) == t,
        cli.default_tab is None ==> (config.default_tab matches Some(t) ==> chosen_tab(cli, config) == t),
        cli.default_tab is None && config.default_tab is None ==> chosen_tab(cli, config)
            == IconPickerTab::Emoji,
        cli.search_mode matches Some(m) ==> chosen_search_mode(cli) == m,
        cli.search_mode is None ==> chosen_search_mode(cli) == SearchMode::Fuzzy,
{
}

} // verus!
