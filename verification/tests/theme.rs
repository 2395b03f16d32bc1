use latuicon::icon_picker::{IconPickerTab, SearchMode};
use latuicon::text::{split, str_eq_ignore_ascii_case, trim, white_space};
use latuicon::theme::{self, Rgb, Theme};

const ALL_THEMES: [Theme; 6] = [
    Theme::Contrast,
    Theme::Late,
    Theme::Purple,
    Theme::Mocha,
    Theme::Gruvbox,
    Theme::Dracula,
];

/// `Theme::from_str` as written with std's `trim` and `to_lowercase`.
fn from_str_by_std(s: &str) -> Theme {
    match s.trim().to_lowercase().as_str() {
        "late" => Theme::Late,
        "purple" => Theme::Purple,
        "mocha" => Theme::Mocha,
        "gruvbox" => Theme::Gruvbox,
        "dracula" => Theme::Dracula,
        _ => Theme::Contrast,
    }
}

#[test]
fn from_str_reads_names_padded_and_in_any_case() {
    assert_eq!(Theme::from_str("mocha"), Theme::Mocha);
    assert_eq!(Theme::from_str("  DrAcUlA\t\n"), Theme::Dracula);
    assert_eq!(Theme::from_str("\u{3000}Late\u{a0}"), Theme::Late);
    assert_eq!(Theme::from_str("gruv box"), Theme::Contrast);
    assert_eq!(Theme::from_str(""), Theme::Contrast);
    assert_eq!(Theme::from_str("contrast"), Theme::Contrast);
}

#[test]
fn from_str_agrees_with_std_lowercasing() {
    let samples = [
        "mocha", "MOCHA", " purple ", "Purple\u{2003}", "dracula\u{85}", "LATE", "lat\u{0130}",
        "m\u{212A}ocha", "\u{212A}", "gruvbox!", "GRUVBOX", "\u{1680}late\u{205f}", "lATe",
        "ßlate", "mochA\u{200b}",
    ];
    for s in samples {
        assert_eq!(Theme::from_str(s), from_str_by_std(s), "{s:?}");
    }
}

#[test]
fn no_other_character_lowercases_to_a_letter_of_a_theme_name() {
    // ASCII case folding reads the names as `to_lowercase` does: the only
    // non-ASCII character that lowercases to ASCII text is the KELVIN SIGN,
    // which gives `k`, a letter no theme name holds.
    for u in 0u32..=0x10FFFF {
        if let Some(c) = char::from_u32(u) {
            if c.is_ascii() {
                continue;
            }
            let lower: String = c.to_lowercase().collect();
            if lower.chars().all(|l| l.is_ascii()) {
                assert_eq!(lower, "k", "{c:?}");
            }
        }
    }
}

#[test]
fn white_space_agrees_with_std() {
    for u in 0u32..=0x10FFFF {
        if let Some(c) = char::from_u32(u) {
            assert_eq!(white_space(c), c.is_whitespace(), "{u:#x}");
        }
    }
}

#[test]
fn trim_and_split_agree_with_std() {
    let samples = ["", " ", "a", " a b ", "\t\u{3000}x\u{2029}", ",", "a,,b", ",a,", "  ,x , y"];
    for s in samples {
        assert_eq!(trim(s), s.trim());
        let expected: Vec<String> = s.split(',').map(str::to_string).collect();
        assert_eq!(split(s, ','), expected);
    }
}

#[test]
fn ascii_case_comparison_agrees_with_std() {
    let pairs = [("Mocha", "mOCHA"), ("ß", "SS"), ("a", "b"), ("nerd-font", "NERD-FONT"), ("é", "É"), ("", "")];
    for (a, b) in pairs {
        assert_eq!(str_eq_ignore_ascii_case(a, b), a.eq_ignore_ascii_case(b));
    }
}

#[test]
fn names_list_every_theme_in_order_and_read_back() {
    let names = Theme::names();
    assert_eq!(names, &["contrast", "late", "purple", "mocha", "gruvbox", "dracula"]);
    for (name, t) in names.iter().zip(ALL_THEMES) {
        assert_eq!(Theme::from_str(name), t);
        assert_eq!(Theme::from_value_name(name, false).unwrap(), t);
        assert_eq!(Theme::from_value_name(&name.to_uppercase(), true).unwrap(), t);
        assert_eq!(t.name(), *name);
    }
}

#[test]
fn value_names_report_unknown_input() {
    assert_eq!(Theme::from_value_name("Mocha", false).unwrap_err(), "invalid variant: Mocha");
    assert_eq!(Theme::from_value_name("Mocha", true).unwrap(), Theme::Mocha);
    assert_eq!(IconPickerTab::from_value_name("nerd", false).unwrap(), IconPickerTab::NerdFont);
    assert_eq!(IconPickerTab::from_value_name("Nerd-Font", true).unwrap(), IconPickerTab::NerdFont);
    assert_eq!(IconPickerTab::from_value_name("nerdfont", true).unwrap_err(), "invalid variant: nerdfont");
    assert_eq!(SearchMode::from_value_name("FUZZY", true).unwrap(), SearchMode::Fuzzy);
    assert_eq!(SearchMode::from_value_name("FUZZY", false).unwrap_err(), "invalid variant: FUZZY");
    assert_eq!(IconPickerTab::NerdFont.label(), "Nerd Font");
    assert_eq!(IconPickerTab::all().len(), 5);
}

#[test]
fn palettes_hold_the_theme_colors() {
    assert_eq!(theme::BG_CANVAS(Theme::Contrast), Rgb { r: 12, g: 14, b: 12 });
    assert_eq!(theme::AMBER_GLOW(Theme::Contrast), Rgb { r: 255, g: 216, b: 127 });
    assert_eq!(theme::TEXT(Theme::Late), Rgb { r: 175, g: 158, b: 138 });
    assert_eq!(theme::BORDER_ACTIVE(Theme::Purple), Rgb { r: 255, g: 171, b: 247 });
    assert_eq!(theme::BG_HIGHLIGHT(Theme::Mocha), Rgb { r: 24, g: 24, b: 37 });
    assert_eq!(theme::TEXT_FAINT(Theme::Gruvbox), Rgb { r: 146, g: 131, b: 116 });
    assert_eq!(theme::TEXT_BRIGHT(Theme::Dracula), Rgb { r: 255, g: 121, b: 198 });
    assert_eq!(theme::TEXT_MUTED(Theme::Dracula), theme::TEXT(Theme::Dracula));
    assert_eq!(theme::BG_SELECTION(Theme::Mocha), Rgb { r: 69, g: 71, b: 90 });
    assert_eq!(theme::BORDER_DIM(Theme::Late), Rgb { r: 50, g: 42, b: 36 });
    assert_eq!(theme::TEXT_DIM(Theme::Purple), Rgb { r: 201, g: 184, b: 222 });
    assert_eq!(theme::AMBER_DIM(Theme::Gruvbox), Rgb { r: 175, g: 124, b: 12 });
}

#[test]
fn set_switches_the_current_palette() {
    let mut current = Theme::Contrast;
    theme::set(&mut current, Theme::Gruvbox);
    assert_eq!(current, Theme::Gruvbox);
    assert_eq!(theme::current(current).bg_canvas, Rgb { r: 40, g: 40, b: 40 });
}
