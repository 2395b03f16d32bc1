use latuicon::config::{tab_setting, theme_setting, Config, ReadOutcome};
use latuicon::icon_picker::IconPickerTab;
use latuicon::theme::Theme;

/// Reads a TOML document the way the program's configuration reader does:
/// each of `theme` and `default_tab` is an optional string, which the
/// library then reads.
fn parse_config(toml_str: &str) -> Result<Config, String> {
    let table: toml::Table = toml_str.parse().map_err(|e: toml::de::Error| e.to_string())?;
    let text = |key: &str| -> Result<Option<String>, String> {
        match table.get(key) {
            None => Ok(None),
            Some(toml::Value::String(s)) => Ok(Some(s.clone())),
            Some(other) => Err(format!("invalid type: {}, expected a string", other.type_str())),
        }
    };
    Ok(Config { theme: theme_setting(text("theme")?)?, default_tab: tab_setting(text("default_tab")?)? })
}

fn parse(toml_str: &str) -> Config {
    parse_config(toml_str).unwrap()
}

/// Reads a file of an empty file system: every path is missing.
fn read_file(_path: &str) -> ReadOutcome {
    ReadOutcome::NotFound("No such file or directory (os error 2)".to_string())
}

#[test]
fn empty_config_has_no_overrides() {
    let config = parse("");
    assert_eq!(config.theme, None);
    assert_eq!(config.default_tab, None);
}

#[test]
fn parses_theme_and_default_tab() {
    let config = parse("theme = \"mocha\"\ndefault_tab = \"nerd-font\"\n");
    assert_eq!(config.theme, Some(Theme::Mocha));
    assert_eq!(config.default_tab, Some(IconPickerTab::NerdFont));
}

#[test]
fn accepts_tab_aliases_and_is_case_insensitive() {
    let config = parse("default_tab = \"NERD\"\n");
    assert_eq!(config.default_tab, Some(IconPickerTab::NerdFont));
}

#[test]
fn unknown_fields_are_ignored_for_forward_compatibility() {
    let config = parse(
        "theme = \"dracula\"\ntab_order = [\"all\", \"emoji\"]\n[database]\nenabled = true\n",
    );
    assert_eq!(config.theme, Some(Theme::Dracula));
}

#[test]
fn invalid_theme_value_fails_to_parse() {
    let result: Result<Config, _> = parse_config("theme = \"not-a-theme\"\n");
    assert!(result.is_err());
}

#[test]
fn load_returns_defaults_when_default_location_is_missing() {
    let path = "/nonexistent/path/latuicon-test-config.toml";
    let config = Config::load_from(path, false, read_file(path)).unwrap();
    assert_eq!(config.theme, None);
    assert_eq!(config.default_tab, None);
}

#[test]
fn load_errs_when_explicit_config_path_is_missing() {
    let result = Config::load(
        Some("/nonexistent/path/latuicon-test-config.toml"),
        "/nonexistent/path/latuicon-default-config.toml",
        read_file,
    );
    assert!(result.is_err());
}

#[test]
fn load_errs_on_invalid_toml_instead_of_falling_back() {
    let path = "latuicon-test-invalid-config.toml";
    let result = Config::load(Some(path), "unused.toml", |p: &str| {
        assert_eq!(p, path);
        ReadOutcome::Parsed(parse_config("theme = \"not-a-theme\"\n"))
    });
    assert!(result.is_err());
}

// ---- further cases ----

#[test]
fn settings_read_names_ignoring_case() {
    assert_eq!(theme_setting(Some("GruvBox".to_string())), Ok(Some(Theme::Gruvbox)));
    assert_eq!(theme_setting(None), Ok(None));
    assert_eq!(tab_setting(Some("Kaomoji".to_string())), Ok(Some(IconPickerTab::Kaomoji)));
    assert_eq!(tab_setting(Some("nErD".to_string())), Ok(Some(IconPickerTab::NerdFont)));
    // no trimming: a padded name names nothing
    assert_eq!(theme_setting(Some(" mocha".to_string())), Err("invalid variant:  mocha".to_string()));
    assert_eq!(tab_setting(Some("tabs".to_string())), Err("invalid variant: tabs".to_string()));
}

#[test]
fn load_messages_name_the_file() {
    let err = Config::load_from("/a/b.toml", true, ReadOutcome::NotFound("gone".to_string())).unwrap_err();
    assert_eq!(err, "could not read config file /a/b.toml: gone");
    let err = Config::load_from("/a/b.toml", false, ReadOutcome::Failed("denied".to_string())).unwrap_err();
    assert_eq!(err, "could not read config file /a/b.toml: denied");
    let parse_error = "TOML parse error at line 1, column 9\ninvalid variant: x\n".to_string();
    let err = Config::load_from("/a/b.toml", false, ReadOutcome::Parsed(Err(parse_error.clone())))
        .unwrap_err();
    assert_eq!(err, format!("could not parse config file /a/b.toml: {parse_error}"));
    let late = Config { theme: Some(Theme::Late), default_tab: None };
    assert_eq!(Config::load_from("/a/b.toml", true, ReadOutcome::Parsed(Ok(late))).unwrap(), late);
    assert_eq!(Config::load_from("/a/b.toml", false, ReadOutcome::Parsed(Ok(late))).unwrap(), late);
}

#[test]
fn load_reads_the_default_location_when_no_path_is_given() {
    let config = Config::load(None, "/home/u/.config/latuicon/config.toml", |p: &str| {
        assert_eq!(p, "/home/u/.config/latuicon/config.toml");
        ReadOutcome::NotFound("missing".to_string())
    })
    .unwrap();
    assert_eq!(config, Config::default());
    let config = Config::load(None, "d.toml", |_: &str| ReadOutcome::Parsed(parse_config("default_tab = \"unicode\"")))
        .unwrap();
    assert_eq!(config.default_tab, Some(IconPickerTab::Unicode));
}

#[test]
fn default_location_lies_under_the_config_directory() {
    assert_eq!(latuicon::config::default_location_parts(true), vec!["latuicon", "config.toml"]);
    assert_eq!(latuicon::config::default_location_parts(false), vec!["latuicon.toml"]);
}
