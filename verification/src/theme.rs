//! Color themes: their names, how a name is read, and the palette of each.
use vstd::prelude::*;

use crate::text::{
    ascii_fold, ascii_lowercase, ascii_uppercase, lemma_case_mapping_eq_ignore_ascii_case,
    lemma_trimmed_case, lemma_trimmed_idempotent, concat, eq_ignore_ascii_case, is_white_space, str_eq, str_eq_ignore_ascii_case, trim,
    trim_end, trim_start, trimmed,
};

verus! {

/// A color theme of the picker.
#[derive(Clone, Copy, Debug, PartialEq, Eq, Structural)]
pub enum Theme {
    Contrast,
    Late,
    Purple,
    Mocha,
    Gruvbox,
    Dracula,
}

/// The name under which `t` is written on the command line, in the
/// configuration file and in `Theme::names`.
pub open spec fn theme_name(t: Theme) -> Seq<char> {
    match t {
        Theme::Contrast => "contrast"@,
        Theme::Late => "late"@,
        Theme::Purple => "purple"@,
        Theme::Mocha => "mocha"@,
        Theme::Gruvbox => "gruvbox"@,
        Theme::Dracula => "dracula"@,
    }
}

/// The themes in their declared order.
pub open spec fn theme_order() -> Seq<Theme> {
    seq![Theme::Contrast, Theme::Late, Theme::Purple, Theme::Mocha, Theme::Gruvbox, Theme::Dracula]
}

/// `input` names a value whose canonical name is `name`: exactly, or up to
/// ASCII case when `ignore_case` holds.
pub open spec fn value_matches(input: Seq<char>, name: Seq<char>, ignore_case: bool) -> bool {
    if ignore_case {
        eq_ignore_ascii_case(name, input)
    } else {
        name == input
    }
}

/// Tests `value_matches(input@, name@, ignore_case)`.
pub fn value_name_matches(input: &str, name: &str, ignore_case: bool) -> (r: bool)
    ensures
        r == value_matches(input@, name@, ignore_case),
{
    if ignore_case {
        str_eq_ignore_ascii_case(name, input)
    } else {
        str_eq(name, input)
    }
}

/// The first theme, in declared order, whose name `input` matches.
pub open spec fn theme_from_value(input: Seq<char>, ignore_case: bool) -> Option<Theme> {
    if value_matches(input, theme_name(Theme::Contrast), ignore_case) {
        Some(Theme::Contrast)
    } else if value_matches(input, theme_name(Theme::Late), ignore_case) {
        Some(Theme::Late)
    } else if value_matches(input, theme_name(Theme::Purple), ignore_case) {
        Some(Theme::Purple)
    } else if value_matches(input, theme_name(Theme::Mocha), ignore_case) {
        Some(Theme::Mocha)
    } else if value_matches(input, theme_name(Theme::Gruvbox), ignore_case) {
        Some(Theme::Gruvbox)
    } else if value_matches(input, theme_name(Theme::Dracula), ignore_case) {
        Some(Theme::Dracula)
    } else {
        None
    }
}

/// The message that reports `input` as naming no value.
pub open spec fn invalid_variant_message(input: Seq<char>) -> Seq<char> {
    "invalid variant: "@ + input
}

/// The message that reports `input` as naming no value.
pub fn invalid_variant(input: &str) -> (r: String)
    ensures
        r@ == invalid_variant_message(input@),
{
    concat("invalid variant: ", input)
}

/// The theme whose key `key` is, up to ASCII case; `Contrast` when it is none.
/// ASCII folding and Unicode lowercasing agree here: no name holds a `k`, the
/// one letter that a non-ASCII character (KELVIN SIGN) lowercases to.
pub open spec fn theme_from_key(key: Seq<char>) -> Theme {
    if eq_ignore_ascii_case(key, theme_name(Theme::Late)) {
        Theme::Late
    } else if eq_ignore_ascii_case(key, theme_name(Theme::Purple)) {
        Theme::Purple
    } else if eq_ignore_ascii_case(key, theme_name(Theme::Mocha)) {
        Theme::Mocha
    } else if eq_ignore_ascii_case(key, theme_name(Theme::Gruvbox)) {
        Theme::Gruvbox
    } else if eq_ignore_ascii_case(key, theme_name(Theme::Dracula)) {
        Theme::Dracula
    } else {
        Theme::Contrast
    }
}

impl Theme {
    /// The theme that `s` names, ignoring surrounding white space and case;
    /// any other text gives `Contrast`.
    pub fn from_str(s: &str) -> (t: Theme)
        ensures
            t == theme_from_key(trimmed(s@)),
    {
        let key = trim(s);
        if str_eq_ignore_ascii_case(key, "late") {
            Theme::Late
        } else if str_eq_ignore_ascii_case(key, "purple") {
            Theme::Purple
        } else if str_eq_ignore_ascii_case(key, "mocha") {
            Theme::Mocha
        } else if str_eq_ignore_ascii_case(key, "gruvbox") {
            Theme::Gruvbox
        } else if str_eq_ignore_ascii_case(key, "dracula") {
            Theme::Dracula
        } else {
            Theme::Contrast
        }
    }

    /// The names of all themes, in declared order.
    pub fn names() -> (r: &'static [&'static str])
        ensures
            r@.len() == 6,
            forall|i: int| 0 <= i < 6 ==> #[trigger] r@[i]@ == theme_name(theme_order()[i]),
    {
        &["contrast", "late", "purple", "mocha", "gruvbox", "dracula"]
    }

    /// The canonical name of this theme.
    pub fn name(&self) -> (r: &'static str)
        ensures
            r@ == theme_name(*self),
    {
        match self {
            Theme::Contrast => "contrast",
            Theme::Late => "late",
            Theme::Purple => "purple",
            Theme::Mocha => "mocha",
            Theme::Gruvbox => "gruvbox",
            Theme::Dracula => "dracula",
        }
    }

    /// The first theme whose name `input` matches (exactly, or up to ASCII case
    /// when `ignore_case` holds); an `invalid variant` message when none does.
    pub fn from_value_name(input: &str, ignore_case: bool) -> (r: Result<Theme, String>)
        ensures
            theme_from_value(input@, ignore_case) matches Some(t) ==> r == Ok::<Theme, String>(t),
            theme_from_value(input@, ignore_case) is None ==> (r matches Err(e) && e@
                == invalid_variant_message(input@)),
    {
        if value_name_matches(input, "contrast", ignore_case) {
            Ok(Theme::Contrast)
        } else if value_name_matches(input, "late", ignore_case) {
            Ok(Theme::Late)
        } else if value_name_matches(input, "purple", ignore_case) {
            Ok(Theme::Purple)
        } else if value_name_matches(input, "mocha", ignore_case) {
            Ok(Theme::Mocha)
        } else if value_name_matches(input, "gruvbox", ignore_case) {
            Ok(Theme::Gruvbox)
        } else if value_name_matches(input, "dracula", ignore_case) {
            Ok(Theme::Dracula)
        } else {
            Err(invalid_variant(input))
        }
    }
}

/// A color given by its red, green and blue components.
#[derive(Clone, Copy, Debug, PartialEq, Eq, Structural)]
pub struct Rgb {
    pub r: u8,
    pub g: u8,
    pub b: u8,
}

/// The colors that a theme gives to each part of the picker.
#[derive(Clone, Copy, Debug, PartialEq, Eq, Structural)]
pub struct Palette {
    pub bg_canvas: Rgb,
    pub bg_selection: Rgb,
    pub bg_highlight: Rgb,
    pub border_dim: Rgb,
    pub border_active: Rgb,
    pub text_faint: Rgb,
    pub text_dim: Rgb,
    pub text_muted: Rgb,
    pub text: Rgb,
    pub text_bright: Rgb,
    pub amber_dim: Rgb,
    pub amber_glow: Rgb,
}


/// The palette of theme `t`.
pub open spec fn theme_palette(t: Theme) -> Palette {
    match t {
        Theme::Contrast => Palette {
            bg_canvas: Rgb { r: 12, g: 14, b: 12 },
            bg_selection: Rgb { r: 26, g: 30, b: 38 },
            bg_highlight: Rgb { r: 34, g: 40, b: 50 },
            border_dim: Rgb { r: 74, g: 84, b: 98 },
            border_active: Rgb { r: 122, g: 201, b: 255 },
            text_faint: Rgb { r: 126, g: 138, b: 155 },
            text_dim: Rgb { r: 164, g: 176, b: 193 },
            text_muted: Rgb { r: 194, g: 205, b: 220 },
            text: Rgb { r: 226, g: 234, b: 245 },
            text_bright: Rgb { r: 248, g: 251, b: 255 },
            amber_dim: Rgb { r: 214, g: 160, b: 75 },
            amber_glow: Rgb { r: 255, g: 216, b: 127 },
        },
        Theme::Late => Palette {
            bg_canvas: Rgb { r: 0, g: 0, b: 0 },
            bg_selection: Rgb { r: 30, g: 25, b: 22 },
            bg_highlight: Rgb { r: 40, g: 33, b: 28 },
            border_dim: Rgb { r: 50, g: 42, b: 36 },
            border_active: Rgb { r: 160, g: 105, b: 42 },
            text_faint: Rgb { r: 78, g: 65, b: 54 },
            text_dim: Rgb { r: 105, g: 88, b: 72 },
            text_muted: Rgb { r: 138, g: 118, b: 96 },
            text: Rgb { r: 175, g: 158, b: 138 },
            text_bright: Rgb { r: 200, g: 182, b: 158 },
            amber_dim: Rgb { r: 130, g: 88, b: 38 },
            amber_glow: Rgb { r: 210, g: 148, b: 54 },
        },
        Theme::Purple => Palette {
            bg_canvas: Rgb { r: 55, g: 57, b: 76 },
            bg_selection: Rgb { r: 44, g: 26, b: 66 },
            bg_highlight: Rgb { r: 58, g: 35, b: 84 },
            border_dim: Rgb { r: 92, g: 72, b: 122 },
            border_active: Rgb { r: 255, g: 171, b: 247 },
            text_faint: Rgb { r: 176, g: 157, b: 199 },
            text_dim: Rgb { r: 201, g: 184, b: 222 },
            text_muted: Rgb { r: 220, g: 207, b: 236 },
            text: Rgb { r: 236, g: 226, b: 248 },
            text_bright: Rgb { r: 248, g: 242, b: 255 },
            amber_dim: Rgb { r: 200, g: 140, b: 220 },
            amber_glow: Rgb { r: 240, g: 180, b: 255 },
        },
        Theme::Mocha => Palette {
            bg_canvas: Rgb { r: 30, g: 30, b: 46 },
            bg_selection: Rgb { r: 69, g: 71, b: 90 },
            bg_highlight: Rgb { r: 24, g: 24, b: 37 },
            border_dim: Rgb { r: 49, g: 50, b: 68 },
            border_active: Rgb { r: 203, g: 166, b: 247 },
            text_faint: Rgb { r: 108, g: 112, b: 134 },
            text_dim: Rgb { r: 147, g: 153, b: 178 },
            text_muted: Rgb { r: 166, g: 173, b: 200 },
            text: Rgb { r: 205, g: 214, b: 244 },
            text_bright: Rgb { r: 245, g: 224, b: 220 },
            amber_dim: Rgb { r: 200, g: 129, b: 35 },
            amber_glow: Rgb { r: 249, g: 226, b: 175 },
        },
        Theme::Gruvbox => Palette {
            bg_canvas: Rgb { r: 40, g: 40, b: 40 },
            bg_selection: Rgb { r: 60, g: 56, b: 54 },
            bg_highlight: Rgb { r: 29, g: 32, b: 33 },
            border_dim: Rgb { r: 80, g: 73, b: 69 },
            border_active: Rgb { r: 214, g: 93, b: 14 },
            text_faint: Rgb { r: 146, g: 131, b: 116 },
            text_dim: Rgb { r: 168, g: 153, b: 132 },
            text_muted: Rgb { r: 189, g: 174, b: 147 },
            text: Rgb { r: 235, g: 219, b: 178 },
            text_bright: Rgb { r: 251, g: 241, b: 199 },
            amber_dim: Rgb { r: 175, g: 124, b: 12 },
            amber_glow: Rgb { r: 250, g: 189, b: 47 },
        },
        Theme::Dracula => Palette {
            bg_canvas: Rgb { r: 40, g: 42, b: 54 },
            bg_selection: Rgb { r: 68, g: 71, b: 90 },
            bg_highlight: Rgb { r: 33, g: 34, b: 44 },
            border_dim: Rgb { r: 68, g: 71, b: 90 },
            border_active: Rgb { r: 189, g: 147, b: 249 },
            text_faint: Rgb { r: 98, g: 114, b: 164 },
            text_dim: Rgb { r: 139, g: 151, b: 189 },
            text_muted: Rgb { r: 248, g: 248, b: 242 },
            text: Rgb { r: 248, g: 248, b: 242 },
            text_bright: Rgb { r: 255, g: 121, b: 198 },
            amber_dim: Rgb { r: 191, g: 200, b: 90 },
            amber_glow: Rgb { r: 241, g: 250, b: 140 },
        },
    }
}

/// The palette of the current theme.
pub fn current(theme: Theme) -> (p: Palette)
    ensures
        p == theme_palette(theme),
{
    match theme {
        Theme::Contrast => Palette {
            bg_canvas: Rgb { r: 12, g: 14, b: 12 },
            bg_selection: Rgb { r: 26, g: 30, b: 38 },
            bg_highlight: Rgb { r: 34, g: 40, b: 50 },
            border_dim: Rgb { r: 74, g: 84, b: 98 },
            border_active: Rgb { r: 122, g: 201, b: 255 },
            text_faint: Rgb { r: 126, g: 138, b: 155 },
            text_dim: Rgb { r: 164, g: 176, b: 193 },
            text_muted: Rgb { r: 194, g: 205, b: 220 },
            text: Rgb { r: 226, g: 234, b: 245 },
            text_bright: Rgb { r: 248, g: 251, b: 255 },
            amber_dim: Rgb { r: 214, g: 160, b: 75 },
            amber_glow: Rgb { r: 255, g: 216, b: 127 },
        },
        Theme::Late => Palette {
            bg_canvas: Rgb { r: 0, g: 0, b: 0 },
            bg_selection: Rgb { r: 30, g: 25, b: 22 },
            bg_highlight: Rgb { r: 40, g: 33, b: 28 },
            border_dim: Rgb { r: 50, g: 42, b: 36 },
            border_active: Rgb { r: 160, g: 105, b: 42 },
            text_faint: Rgb { r: 78, g: 65, b: 54 },
            text_dim: Rgb { r: 105, g: 88, b: 72 },
            text_muted: Rgb { r: 138, g: 118, b: 96 },
            text: Rgb { r: 175, g: 158, b: 138 },
            text_bright: Rgb { r: 200, g: 182, b: 158 },
            amber_dim: Rgb { r: 130, g: 88, b: 38 },
            amber_glow: Rgb { r: 210, g: 148, b: 54 },
        },
        Theme::Purple => Palette {
            bg_canvas: Rgb { r: 55, g: 57, b: 76 },
            bg_selection: Rgb { r: 44, g: 26, b: 66 },
            bg_highlight: Rgb { r: 58, g: 35, b: 84 },
            border_dim: Rgb { r: 92, g: 72, b: 122 },
            border_active: Rgb { r: 255, g: 171, b: 247 },
            text_faint: Rgb { r: 176, g: 157, b: 199 },
            text_dim: Rgb { r: 201, g: 184, b: 222 },
            text_muted: Rgb { r: 220, g: 207, b: 236 },
            text: Rgb { r: 236, g: 226, b: 248 },
            text_bright: Rgb { r: 248, g: 242, b: 255 },
            amber_dim: Rgb { r: 200, g: 140, b: 220 },
            amber_glow: Rgb { r: 240, g: 180, b: 255 },
        },
        Theme::Mocha => Palette {
            bg_canvas: Rgb { r: 30, g: 30, b: 46 },
            bg_selection: Rgb { r: 69, g: 71, b: 90 },
            bg_highlight: Rgb { r: 24, g: 24, b: 37 },
            border_dim: Rgb { r: 49, g: 50, b: 68 },
            border_active: Rgb { r: 203, g: 166, b: 247 },
            text_faint: Rgb { r: 108, g: 112, b: 134 },
            text_dim: Rgb { r: 147, g: 153, b: 178 },
            text_muted: Rgb { r: 166, g: 173, b: 200 },
            text: Rgb { r: 205, g: 214, b: 244 },
            text_bright: Rgb { r: 245, g: 224, b: 220 },
            amber_dim: Rgb { r: 200, g: 129, b: 35 },
            amber_glow: Rgb { r: 249, g: 226, b: 175 },
        },
        Theme::Gruvbox => Palette {
            bg_canvas: Rgb { r: 40, g: 40, b: 40 },
            bg_selection: Rgb { r: 60, g: 56, b: 54 },
            bg_highlight: Rgb { r: 29, g: 32, b: 33 },
            border_dim: Rgb { r: 80, g: 73, b: 69 },
            border_active: Rgb { r: 214, g: 93, b: 14 },
            text_faint: Rgb { r: 146, g: 131, b: 116 },
            text_dim: Rgb { r: 168, g: 153, b: 132 },
            text_muted: Rgb { r: 189, g: 174, b: 147 },
            text: Rgb { r: 235, g: 219, b: 178 },
            text_bright: Rgb { r: 251, g: 241, b: 199 },
            amber_dim: Rgb { r: 175, g: 124, b: 12 },
            amber_glow: Rgb { r: 250, g: 189, b: 47 },
        },
        Theme::Dracula => Palette {
            bg_canvas: Rgb { r: 40, g: 42, b: 54 },
            bg_selection: Rgb { r: 68, g: 71, b: 90 },
            bg_highlight: Rgb { r: 33, g: 34, b: 44 },
            border_dim: Rgb { r: 68, g: 71, b: 90 },
            border_active: Rgb { r: 189, g: 147, b: 249 },
            text_faint: Rgb { r: 98, g: 114, b: 164 },
            text_dim: Rgb { r: 139, g: 151, b: 189 },
            text_muted: Rgb { r: 248, g: 248, b: 242 },
            text: Rgb { r: 248, g: 248, b: 242 },
            text_bright: Rgb { r: 255, g: 121, b: 198 },
            amber_dim: Rgb { r: 191, g: 200, b: 90 },
            amber_glow: Rgb { r: 241, g: 250, b: 140 },
        },
    }
}

/// Makes `theme` the current theme held in `current`.
pub fn set(current: &mut Theme, theme: Theme)
    ensures
        *final(current) == theme,
{
    *current = theme;
}

/// The color of the canvas background in the current theme.
#[allow(non_snake_case)]
pub fn BG_CANVAS(theme: Theme) -> (c: Rgb)
    ensures
        c == theme_palette(theme).bg_canvas,
{
    current(theme).bg_canvas
}

/// The color of the background of the selected item in the current theme.
#[allow(non_snake_case)]
pub fn BG_SELECTION(theme: Theme) -> (c: Rgb)
    ensures
        c == theme_palette(theme).bg_selection,
{
    current(theme).bg_selection
}

/// The color of the highlight background in the current theme.
#[allow(non_snake_case)]
pub fn BG_HIGHLIGHT(theme: Theme) -> (c: Rgb)
    ensures
        c == theme_palette(theme).bg_highlight,
{
    current(theme).bg_highlight
}

/// The color of the dim border in the current theme.
#[allow(non_snake_case)]
pub fn BORDER_DIM(theme: Theme) -> (c: Rgb)
    ensures
        c == theme_palette(theme).border_dim,
{
    current(theme).border_dim
}

/// The color of the active border in the current theme.
#[allow(non_snake_case)]
pub fn BORDER_ACTIVE(theme: Theme) -> (c: Rgb)
    ensures
        c == theme_palette(theme).border_active,
{
    current(theme).border_active
}

/// The color of the faint text in the current theme.
#[allow(non_snake_case)]
pub fn TEXT_FAINT(theme: Theme) -> (c: Rgb)
    ensures
        c == theme_palette(theme).text_faint,
{
    current(theme).text_faint
}

/// The color of the dim text in the current theme.
#[allow(non_snake_case)]
pub fn TEXT_DIM(theme: Theme) -> (c: Rgb)
    ensures
        c == theme_palette(theme).text_dim,
{
    current(theme).text_dim
}

/// The color of the muted text in the current theme.
#[allow(non_snake_case)]
pub fn TEXT_MUTED(theme: Theme) -> (c: Rgb)
    ensures
        c == theme_palette(theme).text_muted,
{
    current(theme).text_muted
}

/// The color of the text in the current theme.
#[allow(non_snake_case)]
pub fn TEXT(theme: Theme) -> (c: Rgb)
    ensures
        c == theme_palette(theme).text,
{
    current(theme).text
}

/// The color of the bright text in the current theme.
#[allow(non_snake_case)]
pub fn TEXT_BRIGHT(theme: Theme) -> (c: Rgb)
    ensures
        c == theme_palette(theme).text_bright,
{
    current(theme).text_bright
}

/// The color of the dim accent in the current theme.
#[allow(non_snake_case)]
pub fn AMBER_DIM(theme: Theme) -> (c: Rgb)
    ensures
        c == theme_palette(theme).amber_dim,
{
    current(theme).amber_dim
}

/// The color of the glowing accent in the current theme.
#[allow(non_snake_case)]
pub fn AMBER_GLOW(theme: Theme) -> (c: Rgb)
    ensures
        c == theme_palette(theme).amber_glow,
{
    current(theme).amber_glow
}

/// Equality up to ASCII case is symmetric and transitive.
pub proof fn lemma_eq_ignore_ascii_case_equiv(a: Seq<char>, b: Seq<char>, c: Seq<char>)
    ensures
        eq_ignore_ascii_case(a, b) ==> eq_ignore_ascii_case(b, a),
        eq_ignore_ascii_case(a, b) && eq_ignore_ascii_case(b, c) ==> eq_ignore_ascii_case(a, c),
{
    if eq_ignore_ascii_case(a, b) && eq_ignore_ascii_case(b, c) {
        assert forall|i: int| 0 <= i < a.len() implies #[trigger] ascii_fold(a[i]) == ascii_fold(
            c[i],
        ) by {
            assert(ascii_fold(a[i]) == ascii_fold(b[i]));
            assert(ascii_fold(b[i]) == ascii_fold(c[i]));
        }
    }
}

/// The name of every theme reads back as that theme, both as a value name
/// (exactly or ignoring case) and through `Theme::from_str`.
pub proof fn lemma_theme_name_round_trip(t: Theme, ignore_case: bool)
    ensures
        theme_from_value(theme_name(t), ignore_case) == Some(t),
        theme_from_key(trimmed(theme_name(t))) == t,
{
    reveal_strlit("contrast");
    reveal_strlit("late");
    reveal_strlit("purple");
    reveal_strlit("mocha");
    reveal_strlit("gruvbox");
    reveal_strlit("dracula");
    let n = theme_name(t);
    assert(!is_white_space(n[0]) && !is_white_space(n.last()));
    assert(trim_start(n) == n);
    assert(trim_end(n) == n);
    assert(eq_ignore_ascii_case(n, n));
    let g = theme_name(Theme::Gruvbox);
    let d = theme_name(Theme::Dracula);
    assert(ascii_fold(g[0]) != ascii_fold(d[0]));
    assert(!eq_ignore_ascii_case(g, d) && !eq_ignore_ascii_case(d, g));
}

/// `Theme::from_str` reads two texts alike when, once leading and trailing
/// white space is removed, they differ at most in ASCII case.
pub proof fn lemma_from_str_ignores_case_and_space(a: Seq<char>, b: Seq<char>)
    requires
        eq_ignore_ascii_case(trimmed(a), trimmed(b)),
    ensures
        theme_from_key(trimmed(a)) == theme_from_key(trimmed(b)),
{
    let (ka, kb) = (trimmed(a), trimmed(b));
    lemma_eq_ignore_ascii_case_equiv(ka, kb, kb);
    let themes = theme_order();
    assert forall|i: int| 0 <= i < 6 implies eq_ignore_ascii_case(ka, #[trigger] theme_name(themes[i]))
        == eq_ignore_ascii_case(kb, theme_name(themes[i])) by {
        lemma_eq_ignore_ascii_case_equiv(kb, ka, theme_name(themes[i]));
        lemma_eq_ignore_ascii_case_equiv(ka, kb, theme_name(themes[i]));
    }
    assert(themes[1] == Theme::Late && themes[2] == Theme::Purple && themes[3] == Theme::Mocha
        && themes[4] == Theme::Gruvbox && themes[5] == Theme::Dracula);
}

/// Texts equal up to ASCII case agree on which names they match up to ASCII case.
pub proof fn lemma_eq_ignore_ascii_case_class(a: Seq<char>, b: Seq<char>, n: Seq<char>)
    requires
        eq_ignore_ascii_case(a, b),
    ensures
        eq_ignore_ascii_case(n, a) == eq_ignore_ascii_case(n, b),
{
    lemma_eq_ignore_ascii_case_equiv(a, b, n);
    lemma_eq_ignore_ascii_case_equiv(b, a, n);
    lemma_eq_ignore_ascii_case_equiv(n, a, b);
    lemma_eq_ignore_ascii_case_equiv(n, b, a);
}

/// Read ignoring ASCII case, any spelling of a theme's name in upper or
/// lower case names that theme.
pub proof fn lemma_theme_value_ignores_case(s: Seq<char>, t: Theme)
    requires
        eq_ignore_ascii_case(s, theme_name(t)),
    ensures
        theme_from_value(s, true) == Some(t),
{
    lemma_theme_name_round_trip(t, true);
    let n = theme_name(t);
    lemma_eq_ignore_ascii_case_class(s, n, theme_name(Theme::Contrast));
    lemma_eq_ignore_ascii_case_class(s, n, theme_name(Theme::Late));
    lemma_eq_ignore_ascii_case_class(s, n, theme_name(Theme::Purple));
    lemma_eq_ignore_ascii_case_class(s, n, theme_name(Theme::Mocha));
    lemma_eq_ignore_ascii_case_class(s, n, theme_name(Theme::Gruvbox));
    lemma_eq_ignore_ascii_case_class(s, n, theme_name(Theme::Dracula));
}

/// `Theme::from_str` reads a text as it reads the text trimmed, and as it
/// reads the text in ASCII upper or lower case.
pub proof fn lemma_from_str_trim_and_case(s: Seq<char>)
    ensures
        theme_from_key(trimmed(s)) == theme_from_key(trimmed(trimmed(s))),
        theme_from_key(trimmed(s)) == theme_from_key(trimmed(ascii_uppercase(s))),
        theme_from_key(trimmed(s)) == theme_from_key(trimmed(ascii_lowercase(s))),
{
    lemma_trimmed_idempotent(s);
    lemma_trimmed_case(s);
    lemma_case_mapping_eq_ignore_ascii_case(trimmed(s));
    lemma_eq_ignore_ascii_case_equiv(ascii_uppercase(trimmed(s)), trimmed(s), trimmed(s));
    lemma_eq_ignore_ascii_case_equiv(ascii_lowercase(trimmed(s)), trimmed(s), trimmed(s));
    lemma_from_str_ignores_case_and_space(s, ascii_uppercase(s));
    lemma_from_str_ignores_case_and_space(s, ascii_lowercase(s));
}

/// The six themes, each exactly once, with names that no two share.
pub proof fn lemma_every_theme_once(t: Theme)
    ensures
        theme_order().contains(t),
        theme_order().len() == 6,
        forall|i: int, j: int| 0 <= i < j < 6 ==> theme_order()[i] != theme_order()[j],
        forall|u: Theme| #[trigger] theme_name(u) == theme_name(t) ==> u == t,
{
    let k: int = match t {
        Theme::Contrast => 0,
        Theme::Late => 1,
        Theme::Purple => 2,
        Theme::Mocha => 3,
        Theme::Gruvbox => 4,
        Theme::Dracula => 5,
    };
    assert(theme_order()[k] == t);
    assert forall|u: Theme| #[trigger] theme_name(u) == theme_name(t) implies u == t by {
        lemma_theme_name_round_trip(u, false);
        lemma_theme_name_round_trip(t, false);
    }
}

/// `Theme::from_str` gives a theme other than `Contrast` only for a text that
/// spells that theme's name, once trimmed, up to ASCII case; a text that
/// spells no theme's name gives `Contrast`.
pub proof fn lemma_from_str_falls_back(s: Seq<char>)
    ensures
        theme_from_key(trimmed(s)) == Theme::Contrast || eq_ignore_ascii_case(
            trimmed(s),
            theme_name(theme_from_key(trimmed(s))),
        ),
        (forall|t: Theme| !eq_ignore_ascii_case(trimmed(s), #[trigger] theme_name(t)))
            ==> theme_from_key(trimmed(s)) == Theme::Contrast,
{
}

} // verus!
