use latuicon::cli::Cli;
use latuicon::config::Config;
use latuicon::icon_picker::{IconPickerTab, SearchMode};
use latuicon::settings::{tab_list, Settings, DEFAULT_SEARCH_MODE, DEFAULT_TAB, DEFAULT_THEME};
use latuicon::theme;

#[test]
fn cli_leaves_theme_and_tab_unset_when_omitted() {
    let cli = Cli::try_parse_from(&["latuicon"]).unwrap();
    assert_eq!(cli.theme, None);
    assert_eq!(cli.default_tab, None);
    assert_eq!(cli.search_mode, None);
}

#[test]
fn cli_parses_theme_and_tab_flags() {
    let cli = Cli::try_parse_from(&["latuicon", "--theme", "mocha", "--default-tab", "unicode"]).unwrap();
    assert_eq!(cli.theme, Some(theme::Theme::Mocha));
    assert_eq!(cli.default_tab, Some(IconPickerTab::Unicode));
}

#[test]
fn cli_accepts_short_flags_and_tab_alias() {
    let cli = Cli::try_parse_from(&["latuicon", "-t", "dracula", "-d", "nerd"]).unwrap();
    assert_eq!(cli.theme, Some(theme::Theme::Dracula));
    assert_eq!(cli.default_tab, Some(IconPickerTab::NerdFont));
}

#[test]
fn cli_accepts_short_flag_for_tabs() {
    let cli = Cli::try_parse_from(&["latuicon", "-T", "nerd,all,emoji"]).unwrap();
    assert_eq!(cli.tabs, Some("nerd,all,emoji".to_string()));
}

#[test]
fn cli_parses_search_mode_flag() {
    let cli = Cli::try_parse_from(&["latuicon", "-s", "simple"]).unwrap();
    assert_eq!(cli.search_mode, Some(SearchMode::Simple));
}

#[test]
fn cli_rejects_unknown_search_mode() {
    assert!(Cli::try_parse_from(&["latuicon", "--search-mode", "bogus"]).is_err());
}

#[test]
fn resolved_theme_and_tab_fall_back_through_cli_config_default() {
    // CLI flag wins over config.
    assert_eq!(
        Some(theme::Theme::Dracula).or(Some(theme::Theme::Mocha)),
        Some(theme::Theme::Dracula)
    );
    // Config wins over the built-in default when CLI is unset.
    assert_eq!(
        None.or(Some(theme::Theme::Mocha)).unwrap_or(DEFAULT_THEME),
        theme::Theme::Mocha
    );
    // Built-in default applies when neither CLI nor config set it.
    assert_eq!(
        None::<theme::Theme>.or(None).unwrap_or(DEFAULT_THEME),
        DEFAULT_THEME
    );
    assert_eq!(
        None::<IconPickerTab>.or(None).unwrap_or(DEFAULT_TAB),
        DEFAULT_TAB
    );
    assert_eq!(
        None::<SearchMode>.or(None).unwrap_or(DEFAULT_SEARCH_MODE),
        DEFAULT_SEARCH_MODE
    );
}

#[test]
fn cli_rejects_unknown_tab() {
    assert!(Cli::try_parse_from(&["latuicon", "--default-tab", "bogus"]).is_err());
}

#[test]
fn cli_rejects_unknown_theme() {
    assert!(Cli::try_parse_from(&["latuicon", "--theme", "bogus"]).is_err());
}

#[test]
fn cli_parses_tabs_flag() {
    let cli = Cli::try_parse_from(&["latuicon", "--tabs", "nerd,all,emoji,kaomoji,unicode"]).unwrap();
    assert_eq!(cli.tabs, Some("nerd,all,emoji,kaomoji,unicode".to_string()));
}

#[test]
fn tabs_resolution_accepts_a_subset_to_disable_the_rest() {
    let names: Vec<String> = "all,emoji".split(',').map(str::to_string).collect();
    assert_eq!(
        IconPickerTab::parse_tabs(&names).unwrap(),
        vec![IconPickerTab::All, IconPickerTab::Emoji]
    );
}

#[test]
fn tabs_resolution_accepts_full_permutation() {
    let names: Vec<String> = "nerd,all,emoji,kaomoji,unicode"
        .split(',')
        .map(str::to_string)
        .collect();
    assert_eq!(
        IconPickerTab::parse_tabs(&names).unwrap(),
        vec![
            IconPickerTab::NerdFont,
            IconPickerTab::All,
            IconPickerTab::Emoji,
            IconPickerTab::Kaomoji,
            IconPickerTab::Unicode,
        ]
    );
}

// ---- further cases ----

#[test]
fn cli_takes_config_path_and_long_forms() {
    let cli = Cli::try_parse_from(&[
        "latuicon",
        "--config",
        "/tmp/x.toml",
        "--search-mode",
        "fuzzy",
        "-c",
        "/tmp/y.toml",
    ]);
    // a second `--config` is refused, as clap refuses a repeated single-valued option
    assert!(cli.is_err());
    let cli = Cli::try_parse_from(&["latuicon", "-c", "/tmp/x.toml", "-s", "fuzzy"]).unwrap();
    assert_eq!(cli.config, Some("/tmp/x.toml".to_string()));
    assert_eq!(cli.search_mode, Some(SearchMode::Fuzzy));
    assert_eq!(cli.tabs, None);
}

#[test]
fn cli_values_are_case_sensitive() {
    assert!(Cli::try_parse_from(&["latuicon", "--theme", "Mocha"]).is_err());
    assert!(Cli::try_parse_from(&["latuicon", "-d", "NERD"]).is_err());
}

#[test]
fn cli_rejects_unknown_option_and_reports_help() {
    let err = Cli::try_parse_from(&["latuicon", "--bogus"]).unwrap_err();
    assert!(err.use_stderr);
    assert_eq!(err.exit_code, 2);
    let help = Cli::try_parse_from(&["latuicon", "--help"]).unwrap_err();
    assert!(!help.use_stderr);
    assert_eq!(help.exit_code, 0);
    assert!(help.message.contains("--default-tab <TAB>"));
    assert!(help.message.contains("possible values: contrast, late, purple, mocha, gruvbox, dracula"));
    assert!(help.message.contains("KEYS:"));
}

#[test]
fn from_values_reads_exact_names_only() {
    let cli = Cli::from_values(
        Some("gruvbox".to_string()),
        Some("nerd-font".to_string()),
        None,
        None,
        Some("all".to_string()),
    )
    .unwrap();
    assert_eq!(cli.theme, Some(theme::Theme::Gruvbox));
    assert_eq!(cli.default_tab, Some(IconPickerTab::NerdFont));
    assert_eq!(cli.search_mode, None);
    assert_eq!(cli.tabs, Some("all".to_string()));
    let err = Cli::from_values(None, Some("Emoji".to_string()), Some("x".to_string()), None, None)
        .unwrap_err();
    assert_eq!(err, "invalid variant: Emoji");
    let err = Cli::from_values(None, None, Some("x".to_string()), None, None).unwrap_err();
    assert_eq!(err, "invalid variant: x");
}

fn cli(theme: Option<theme::Theme>, tab: Option<IconPickerTab>, tabs: Option<&str>) -> Cli {
    Cli {
        theme,
        default_tab: tab,
        search_mode: None,
        config: None,
        tabs: tabs.map(str::to_string),
    }
}

#[test]
fn resolve_prefers_cli_then_config_then_default() {
    let config = Config { theme: Some(theme::Theme::Mocha), default_tab: Some(IconPickerTab::Kaomoji) };
    let s = Settings::resolve(&cli(Some(theme::Theme::Dracula), None, None), &config).unwrap();
    assert_eq!(s.theme, theme::Theme::Dracula);
    assert_eq!(s.default_tab, IconPickerTab::Kaomoji);
    assert_eq!(s.search_mode, SearchMode::Fuzzy);
    assert_eq!(s.tabs, IconPickerTab::all());
    let s = Settings::resolve(&cli(None, None, None), &Config::default()).unwrap();
    assert_eq!(s.theme, theme::Theme::Contrast);
    assert_eq!(s.default_tab, IconPickerTab::Emoji);
}

#[test]
fn resolve_rejects_a_disabled_default_tab() {
    let err = Settings::resolve(&cli(None, Some(IconPickerTab::NerdFont), Some("all, emoji")), &Config::default())
        .unwrap_err();
    assert_eq!(err, "default tab 'Nerd Font' is disabled (not in tabs list)");
    let err = Settings::resolve(&cli(None, None, Some("unicode")), &Config::default()).unwrap_err();
    assert_eq!(err, "default tab 'Emoji' is disabled (not in tabs list)");
    let s = Settings::resolve(&cli(None, Some(IconPickerTab::Unicode), Some(" unicode ,nerd")), &Config::default())
        .unwrap();
    assert_eq!(s.tabs, vec![IconPickerTab::Unicode, IconPickerTab::NerdFont]);
}

#[test]
fn resolve_reports_a_bad_tab_list() {
    let err = Settings::resolve(&cli(None, None, Some("emoji,smileys")), &Config::default()).unwrap_err();
    assert_eq!(err, "unknown tab 'smileys'");
}

#[test]
fn tab_list_splits_and_trims() {
    assert_eq!(
        tab_list(" Nerd , all,EMOJI ").unwrap(),
        vec![IconPickerTab::NerdFont, IconPickerTab::All, IconPickerTab::Emoji]
    );
    assert_eq!(tab_list("").unwrap_err(), "unknown tab ''");
    assert_eq!(tab_list("all,").unwrap_err(), "unknown tab ''");
    assert_eq!(tab_list("all,emoji,all").unwrap_err(), "tab 'all' is listed more than once");
    assert_eq!(tab_list("nerd,nerd-font").unwrap_err(), "tab 'nerd-font' is listed more than once");
}

#[test]
fn parse_tabs_rejects_empty_unknown_and_repeated() {
    assert_eq!(IconPickerTab::parse_tabs(&vec![]).unwrap_err(), "no tabs given");
    let names: Vec<String> = vec!["emoji".to_string(), "bogus".to_string()];
    assert_eq!(IconPickerTab::parse_tabs(&names).unwrap_err(), "unknown tab 'bogus'");
    let names: Vec<String> = vec!["Emoji".to_string(), "emoji".to_string()];
    assert_eq!(IconPickerTab::parse_tabs(&names).unwrap_err(), "tab 'emoji' is listed more than once");
}

#[test]
fn command_spec_describes_the_options() {
    let c = latuicon::cli::command_spec();
    assert_eq!(c.name, "latuicon");
    let flags: Vec<(&str, char, &str, &str)> = c.options.iter().map(|o| (o.id, o.short, o.long, o.env)).collect();
    assert_eq!(
        flags,
        vec![
            ("theme", 't', "theme", "ICON_PICKER_THEME"),
            ("default_tab", 'd', "default-tab", "LATUICON_DEFAULT_TAB"),
            ("search_mode", 's', "search-mode", "LATUICON_SEARCH"),
            ("config", 'c', "config", "LATUICON_CONFIG"),
            ("tabs", 'T', "tabs", "LATUICON_TABS"),
        ]
    );
    let tabs = c.options[1].values.as_ref().unwrap();
    assert_eq!(tabs[4].name, "nerd-font");
    assert_eq!(tabs[4].aliases, vec!["nerd"]);
    assert!(c.options[3].values.is_none());
}

#[test]
fn from_matches_reads_what_clap_matched() {
    let cmd = clap::Command::new("x")
        .arg(clap::Arg::new("theme").short('t'))
        .arg(clap::Arg::new("default_tab").short('d'))
        .arg(clap::Arg::new("search_mode").short('s'))
        .arg(clap::Arg::new("config").short('c'))
        .arg(clap::Arg::new("tabs").short('T'));
    let m = cmd
        .clone()
        .try_get_matches_from(["x", "-t", "late", "-d", "emoji", "-T", "all,emoji"])
        .unwrap();
    let cli = Cli::from_matches(&m).unwrap();
    assert_eq!(cli.theme, Some(theme::Theme::Late));
    assert_eq!(cli.default_tab, Some(IconPickerTab::Emoji));
    assert_eq!(cli.search_mode, None);
    assert_eq!(cli.config, None);
    assert_eq!(cli.tabs, Some("all,emoji".to_string()));

    let m = cmd.try_get_matches_from(["x", "-s", "Fuzzy"]).unwrap();
    let err = Cli::from_matches(&m).unwrap_err();
    assert!(err.contains("invalid variant: Fuzzy"), "{err}");
}
