//! The icon sets (tabs) of the picker and its search modes: their names, how a
//! name is read, and how a list of tab names becomes the enabled tabs in order.
use vstd::prelude::*;

use crate::text::{ascii_fold, concat3, eq_ignore_ascii_case, string_views};
use crate::theme::{
    invalid_variant, invalid_variant_message, lemma_eq_ignore_ascii_case_class, value_matches,
    value_name_matches,
};

verus! {

/// An icon set shown as a tab of the picker.
#[derive(Clone, Copy, Debug, PartialEq, Eq, Structural)]
pub enum IconPickerTab {
    All,
    Emoji,
    Kaomoji,
    Unicode,
    NerdFont,
}

/// How the search box matches icon names.
#[derive(Clone, Copy, Debug, PartialEq, Eq, Structural)]
pub enum SearchMode {
    Simple,
    Fuzzy,
}

/// The canonical name of tab `t`.
pub open spec fn tab_name(t: IconPickerTab) -> Seq<char> {
    match t {
        IconPickerTab::All => "all"@,
        IconPickerTab::Emoji => "emoji"@,
        IconPickerTab::Kaomoji => "kaomoji"@,
        IconPickerTab::Unicode => "unicode"@,
        IconPickerTab::NerdFont => "nerd-font"@,
    }
}

/// The second name that `NerdFont` answers to.
pub open spec fn nerd_font_alias() -> Seq<char> {
    "nerd"@
}

/// `input` names tab `t` by its name or its alias.
pub open spec fn tab_matches(input: Seq<char>, t: IconPickerTab, ignore_case: bool) -> bool {
    ||| value_matches(input, tab_name(t), ignore_case)
    ||| (t == IconPickerTab::NerdFont && value_matches(input, nerd_font_alias(), ignore_case))
}

/// The tabs in their declared order.
pub open spec fn tab_order() -> Seq<IconPickerTab> {
    seq![
        IconPickerTab::All,
        IconPickerTab::Emoji,
        IconPickerTab::Kaomoji,
        IconPickerTab::Unicode,
        IconPickerTab::NerdFont,
    ]
}

/// The first tab, in declared order, that `input` names.
pub open spec fn tab_from_value(input: Seq<char>, ignore_case: bool) -> Option<IconPickerTab> {
    if tab_matches(input, IconPickerTab::All, ignore_case) {
        Some(IconPickerTab::All)
    } else if tab_matches(input, IconPickerTab::Emoji, ignore_case) {
        Some(IconPickerTab::Emoji)
    } else if tab_matches(input, IconPickerTab::Kaomoji, ignore_case) {
        Some(IconPickerTab::Kaomoji)
    } else if tab_matches(input, IconPickerTab::Unicode, ignore_case) {
        Some(IconPickerTab::Unicode)
    } else if tab_matches(input, IconPickerTab::NerdFont, ignore_case) {
        Some(IconPickerTab::NerdFont)
    } else {
        None
    }
}

/// The title of tab `t`.
pub open spec fn tab_label(t: IconPickerTab) -> Seq<char> {
    match t {
        IconPickerTab::All => "All"@,
        IconPickerTab::Emoji => "Emoji"@,
        IconPickerTab::Kaomoji => "Kaomoji"@,
        IconPickerTab::Unicode => "Unicode"@,
        IconPickerTab::NerdFont => "Nerd Font"@,
    }
}

/// The canonical name of search mode `m`.
pub open spec fn search_mode_name(m: SearchMode) -> Seq<char> {
    match m {
        SearchMode::Simple => "simple"@,
        SearchMode::Fuzzy => "fuzzy"@,
    }
}

/// The first search mode, in declared order, that `input` names.
pub open spec fn search_mode_from_value(input: Seq<char>, ignore_case: bool) -> Option<SearchMode> {
    if value_matches(input, search_mode_name(SearchMode::Simple), ignore_case) {
        Some(SearchMode::Simple)
    } else if value_matches(input, search_mode_name(SearchMode::Fuzzy), ignore_case) {
        Some(SearchMode::Fuzzy)
    } else {
        None
    }
}

/// The message for a tab name that names no tab.
pub open spec fn unknown_tab_message(name: Seq<char>) -> Seq<char> {
    "unknown tab '"@ + name + "'"@
}

/// The message for a tab named a second time.
pub open spec fn duplicate_tab_message(name: Seq<char>) -> Seq<char> {
    "tab '"@ + name + "' is listed more than once"@
}

/// The message for an empty list of tabs.
pub open spec fn no_tabs_message() -> Seq<char> {
    "no tabs given"@
}

/// Reads the tab names `names` in order, ignoring ASCII case: the tabs they
/// name, or the message for the first name that names no tab or a tab
/// already read.
pub open spec fn tabs_from_names(names: Seq<Seq<char>>) -> Result<Seq<IconPickerTab>, Seq<char>>
    decreases names.len(),
{
    if names.len() == 0 {
        Ok(seq![])
    } else {
        match tabs_from_names(names.drop_last()) {
            Err(m) => Err(m),
            Ok(prefix) => match tab_from_value(names.last(), true) {
                None => Err(unknown_tab_message(names.last())),
                Some(t) => if prefix.contains(t) {
                    Err(duplicate_tab_message(names.last()))
                } else {
                    Ok(prefix.push(t))
                },
            },
        }
    }
}

/// What `IconPickerTab::parse_tabs` gives for the tab names `names`.
pub open spec fn parse_tabs_result(names: Seq<Seq<char>>) -> Result<Seq<IconPickerTab>, Seq<char>> {
    if names.len() == 0 {
        Err(no_tabs_message())
    } else {
        tabs_from_names(names)
    }
}

/// A list of names that reads as tabs reads name by name: one tab per name,
/// in the order of the names, each one named at most once.
pub proof fn lemma_tabs_from_names_ok(names: Seq<Seq<char>>)
    ensures
        tabs_from_names(names) matches Ok(tabs) ==> {
            &&& tabs.len() == names.len()
            &&& forall|i: int| 0 <= i < names.len() ==> tab_from_value(#[trigger] names[i], true)
                == Some(tabs[i])
            &&& forall|i: int, j: int| 0 <= i < j < tabs.len() ==> tabs[i] != tabs[j]
        },
    decreases names.len(),
{
    if names.len() > 0 {
        let init = names.drop_last();
        lemma_tabs_from_names_ok(init);
        if let Ok(tabs) = tabs_from_names(names) {
            let prefix = tabs_from_names(init)->Ok_0;
            assert forall|i: int| 0 <= i < names.len() implies tab_from_value(#[trigger] names[i], true)
                == Some(tabs[i]) by {
                if i < init.len() {
                    assert(names[i] == init[i]);
                }
            }
            assert forall|i: int, j: int| 0 <= i < j < tabs.len() implies tabs[i] != tabs[j] by {
                if j == tabs.len() - 1 {
                    if tabs[i] == tabs[j] {
                        assert(prefix[i] == tabs[i]);
                        assert(prefix.contains(tabs[j]));
                    }
                }
            }
        }
    }
}

/// A list of names, each naming a tab and no two naming the same tab, reads
/// as exactly those tabs, one per name, in the order of the names.
proof fn lemma_tabs_from_names_complete(names: Seq<Seq<char>>)
    requires
        forall|i: int| 0 <= i < names.len() ==> (#[trigger] tab_from_value(names[i], true)) is Some,
        forall|i: int, j: int|
            0 <= i < j < names.len() ==> tab_from_value(#[trigger] names[i], true) != tab_from_value(
                #[trigger] names[j],
                true,
            ),
    ensures
        tabs_from_names(names) matches Ok(tabs) && tabs.len() == names.len() && forall|i: int|
            0 <= i < names.len() ==> Some(#[trigger] tabs[i]) == tab_from_value(names[i], true),
    decreases names.len(),
{
    if names.len() > 0 {
        let init = names.drop_last();
        assert forall|i: int| 0 <= i < init.len() implies (#[trigger] tab_from_value(init[i], true)) is Some by {
            assert(init[i] == names[i]);
        }
        assert forall|i: int, j: int| 0 <= i < j < init.len() implies tab_from_value(#[trigger] init[i], true)
            != tab_from_value(#[trigger] init[j], true) by {
            assert(init[i] == names[i] && init[j] == names[j]);
        }
        lemma_tabs_from_names_complete(init);
        let prefix = tabs_from_names(init)->Ok_0;
        let last = names.len() - 1;
        assert(tab_from_value(names[last], true) is Some);
        let t = tab_from_value(names.last(), true)->Some_0;
        if prefix.contains(t) {
            let k = choose|k: int| 0 <= k < prefix.len() && prefix[k] == t;
            assert(Some(prefix[k]) == tab_from_value(init[k], true));
            assert(init[k] == names[k]);
            assert(tab_from_value(names[k], true) != tab_from_value(names[last], true));
        }
        let tabs = prefix.push(t);
        assert forall|i: int| 0 <= i < names.len() implies Some(#[trigger] tabs[i]) == tab_from_value(
            names[i],
            true,
        ) by {
            if i < init.len() {
                assert(init[i] == names[i]);
                assert(Some(prefix[i]) == tab_from_value(init[i], true));
            }
        }
    }
}

/// Every non-empty list of names, each naming a tab (ignoring ASCII case) and
/// no two naming the same tab, is accepted and reads as exactly those tabs,
/// one per name, in the order of the names: any subset of the tabs, in any
/// order, can be enabled.
pub proof fn lemma_parse_tabs_complete(names: Seq<Seq<char>>)
    requires
        names.len() > 0,
        forall|i: int| 0 <= i < names.len() ==> (#[trigger] tab_from_value(names[i], true)) is Some,
        forall|i: int, j: int|
            0 <= i < j < names.len() ==> tab_from_value(#[trigger] names[i], true) != tab_from_value(
                #[trigger] names[j],
                true,
            ),
    ensures
        parse_tabs_result(names) matches Ok(tabs) && tabs.len() == names.len() && forall|i: int|
            0 <= i < names.len() ==> Some(#[trigger] tabs[i]) == tab_from_value(names[i], true),
{
    lemma_tabs_from_names_complete(names);
}

/// The five tabs, each exactly once: `all`, `emoji`, `kaomoji`, `unicode`
/// and `nerd-font`.
pub proof fn lemma_every_tab_once(t: IconPickerTab)
    ensures
        tab_order().contains(t),
        tab_order().len() == 5,
        forall|i: int, j: int| 0 <= i < j < 5 ==> tab_order()[i] != tab_order()[j],
{
    let k: int = match t {
        IconPickerTab::All => 0,
        IconPickerTab::Emoji => 1,
        IconPickerTab::Kaomoji => 2,
        IconPickerTab::Unicode => 3,
        IconPickerTab::NerdFont => 4,
    };
    assert(tab_order()[k] == t);
}

/// Once a prefix of the names fails to read, the whole list fails with the
/// same message.
proof fn lemma_tabs_from_names_err(names: Seq<Seq<char>>, i: int)
    requires
        0 <= i <= names.len(),
        tabs_from_names(names.take(i)) is Err,
    ensures
        tabs_from_names(names) == tabs_from_names(names.take(i)),
    decreases names.len() - i,
{
    if i < names.len() {
        assert(names.take(i + 1).drop_last() =~= names.take(i));
        lemma_tabs_from_names_err(names, i + 1);
    } else {
        assert(names.take(i) =~= names);
    }
}

/// Tests whether `t` is among `tabs`.
pub fn contains_tab(tabs: &Vec<IconPickerTab>, t: IconPickerTab) -> (r: bool)
    ensures
        r == tabs@.contains(t),
{
    let mut i: usize = 0;
    while i < tabs.len()
        invariant
            i <= tabs.len(),
            forall|k: int| 0 <= k < i ==> tabs@[k] != t,
        decreases tabs.len() - i,
    {
        if tabs[i] == t {
            return true;
        }
        i = i + 1;
    }
    false
}

impl IconPickerTab {
    /// The title of this tab.
    pub fn label(&self) -> (r: &'static str)
        ensures
            r@ == tab_label(*self),
    {
        match self {
            IconPickerTab::All => "All",
            IconPickerTab::Emoji => "Emoji",
            IconPickerTab::Kaomoji => "Kaomoji",
            IconPickerTab::Unicode => "Unicode",
            IconPickerTab::NerdFont => "Nerd Font",
        }
    }

    /// The canonical name of this tab.
    pub fn name(&self) -> (r: &'static str)
        ensures
            r@ == tab_name(*self),
    {
        match self {
            IconPickerTab::All => "all",
            IconPickerTab::Emoji => "emoji",
            IconPickerTab::Kaomoji => "kaomoji",
            IconPickerTab::Unicode => "unicode",
            IconPickerTab::NerdFont => "nerd-font",
        }
    }

    /// Every tab, in declared order.
    pub fn all() -> (r: Vec<IconPickerTab>)
        ensures
            r@ == tab_order(),
    {
        let r = vec![
            IconPickerTab::All,
            IconPickerTab::Emoji,
            IconPickerTab::Kaomoji,
            IconPickerTab::Unicode,
            IconPickerTab::NerdFont,
        ];
        assert(r@ =~= tab_order());
        r
    }

    /// The tabs named by `names`, in that order, each name read ignoring ASCII
    /// case; an error when the list is empty, when a name names no tab, or
    /// when a tab is named twice.
    pub fn parse_tabs(names: &Vec<String>) -> (r: Result<Vec<IconPickerTab>, String>)
        ensures
            r is Ok <==> parse_tabs_result(string_views(names@)) is Ok,
            r matches Ok(tabs) ==> Ok::<Seq<IconPickerTab>, Seq<char>>(tabs@) == parse_tabs_result(
                string_views(names@),
            ),
            r matches Err(e) ==> Err::<Seq<IconPickerTab>, Seq<char>>(e@) == parse_tabs_result(
                string_views(names@),
            ),
            r matches Ok(tabs) ==> {
                &&& tabs.len() == names.len()
                &&& forall|i: int| 0 <= i < names.len() ==> tab_from_value(#[trigger] names@[i]@, true)
                    == Some(tabs@[i])
                &&& forall|i: int, j: int| 0 <= i < j < tabs.len() ==> tabs@[i] != tabs@[j]
            },
    {
        let ghost views = string_views(names@);
        if names.len() == 0 {
            return Err(String::from_str("no tabs given"));
        }
        let mut tabs: Vec<IconPickerTab> = Vec::new();
        let mut i: usize = 0;
        assert(views.take(0) =~= Seq::<Seq<char>>::empty());
        while i < names.len()
            invariant
                views == string_views(names@),
                i <= names.len(),
                tabs_from_names(views.take(i as int)) == Ok::<Seq<IconPickerTab>, Seq<char>>(tabs@),
            decreases names.len() - i,
        {
            let name = names[i].as_str();
            assert(views.take(i + 1).drop_last() =~= views.take(i as int));
            assert(views.take(i + 1).last() == name@);
            match Self::from_value_name(name, true) {
                Err(_) => {
                    proof {
                        lemma_tabs_from_names_err(views, i + 1);
                    }
                    return Err(concat3("unknown tab '", name, "'"));
                },
                Ok(t) => {
                    if contains_tab(&tabs, t) {
                        proof {
                            lemma_tabs_from_names_err(views, i + 1);
                        }
                        return Err(concat3("tab '", name, "' is listed more than once"));
                    }
                    tabs.push(t);
                },
            }
            i = i + 1;
        }
        assert(views.take(names.len() as int) =~= views);
        proof {
            lemma_tabs_from_names_ok(views);
            assert forall|k: int| 0 <= k < names.len() implies tab_from_value(#[trigger] names@[k]@, true)
                == Some(tabs@[k]) by {
                assert(views[k] == names@[k]@);
            }
        }
        Ok(tabs)
    }

    /// The first tab that `input` names (exactly, or up to ASCII case when
    /// `ignore_case` holds); an `invalid variant` message when none does.
    pub fn from_value_name(input: &str, ignore_case: bool) -> (r: Result<IconPickerTab, String>)
        ensures
            tab_from_value(input@, ignore_case) matches Some(t) ==> r == Ok::<IconPickerTab, String>(t),
            tab_from_value(input@, ignore_case) is None ==> (r matches Err(e) && e@
                == invalid_variant_message(input@)),
    {
        if value_name_matches(input, "all", ignore_case) {
            Ok(IconPickerTab::All)
        } else if value_name_matches(input, "emoji", ignore_case) {
            Ok(IconPickerTab::Emoji)
        } else if value_name_matches(input, "kaomoji", ignore_case) {
            Ok(IconPickerTab::Kaomoji)
        } else if value_name_matches(input, "unicode", ignore_case) {
            Ok(IconPickerTab::Unicode)
        } else if value_name_matches(input, "nerd-font", ignore_case) || value_name_matches(
            input,
            "nerd",
            ignore_case,
        ) {
            Ok(IconPickerTab::NerdFont)
        } else {
            Err(invalid_variant(input))
        }
    }
}

impl SearchMode {
    /// The canonical name of this search mode.
    pub fn name(&self) -> (r: &'static str)
        ensures
            r@ == search_mode_name(*self),
    {
        match self {
            SearchMode::Simple => "simple",
            SearchMode::Fuzzy => "fuzzy",
        }
    }

    /// The first search mode that `input` names (exactly, or up to ASCII case
    /// when `ignore_case` holds); an `invalid variant` message when none does.
    pub fn from_value_name(input: &str, ignore_case: bool) -> (r: Result<SearchMode, String>)
        ensures
            search_mode_from_value(input@, ignore_case) matches Some(m) ==> r == Ok::<
                SearchMode,
                String,
            >(m),
            search_mode_from_value(input@, ignore_case) is None ==> (r matches Err(e) && e@
                == invalid_variant_message(input@)),
    {
        if value_name_matches(input, "simple", ignore_case) {
            Ok(SearchMode::Simple)
        } else if value_name_matches(input, "fuzzy", ignore_case) {
            Ok(SearchMode::Fuzzy)
        } else {
            Err(invalid_variant(input))
        }
    }
}

/// The name and the alias of every tab read back as that tab, and the name of
/// every search mode as that mode, exactly or ignoring ASCII case.
pub proof fn lemma_value_names_round_trip(t: IconPickerTab, m: SearchMode, ignore_case: bool)
    ensures
        tab_from_value(tab_name(t), ignore_case) == Some(t),
        tab_from_value(nerd_font_alias(), ignore_case) == Some(IconPickerTab::NerdFont),
        search_mode_from_value(search_mode_name(m), ignore_case) == Some(m),
{
    reveal_strlit("all");
    reveal_strlit("emoji");
    reveal_strlit("kaomoji");
    reveal_strlit("unicode");
    reveal_strlit("nerd-font");
    reveal_strlit("nerd");
    reveal_strlit("simple");
    reveal_strlit("fuzzy");
    let n = tab_name(t);
    assert(eq_ignore_ascii_case(n, n));
    assert(eq_ignore_ascii_case(nerd_font_alias(), nerd_font_alias()));
    assert(eq_ignore_ascii_case(search_mode_name(m), search_mode_name(m)));
    let e = tab_name(IconPickerTab::Emoji);
    let u = tab_name(IconPickerTab::Unicode);
    let k = tab_name(IconPickerTab::Kaomoji);
    let nerd = nerd_font_alias();
    let a = tab_name(IconPickerTab::All);
    assert(ascii_fold(e[0]) != ascii_fold(nerd[0]));
    assert(ascii_fold(a[0]) != ascii_fold(nerd[0]));
    assert(!eq_ignore_ascii_case(e, nerd) && !eq_ignore_ascii_case(a, nerd));
    assert(ascii_fold(u[0]) != ascii_fold(k[0]));
    assert(!eq_ignore_ascii_case(u, k) && !eq_ignore_ascii_case(k, u));
    let si = search_mode_name(SearchMode::Simple);
    let fu = search_mode_name(SearchMode::Fuzzy);
    assert(ascii_fold(si[0]) != ascii_fold(fu[0]));
    assert(!eq_ignore_ascii_case(si, fu) && !eq_ignore_ascii_case(fu, si));
}

/// Read ignoring ASCII case, any spelling of a tab's name or alias in upper or
/// lower case names that tab.
pub proof fn lemma_tab_value_ignores_case(s: Seq<char>, t: IconPickerTab)
    requires
        eq_ignore_ascii_case(s, tab_name(t)) || (t == IconPickerTab::NerdFont && eq_ignore_ascii_case(
            s,
            nerd_font_alias(),
        )),
    ensures
        tab_from_value(s, true) == Some(t),
{
    let n = if eq_ignore_ascii_case(s, tab_name(t)) {
        tab_name(t)
    } else {
        nerd_font_alias()
    };
    lemma_value_names_round_trip(t, SearchMode::Simple, true);
    lemma_eq_ignore_ascii_case_class(s, n, tab_name(IconPickerTab::All));
    lemma_eq_ignore_ascii_case_class(s, n, tab_name(IconPickerTab::Emoji));
    lemma_eq_ignore_ascii_case_class(s, n, tab_name(IconPickerTab::Kaomoji));
    lemma_eq_ignore_ascii_case_class(s, n, tab_name(IconPickerTab::Unicode));
    lemma_eq_ignore_ascii_case_class(s, n, tab_name(IconPickerTab::NerdFont));
    lemma_eq_ignore_ascii_case_class(s, n, nerd_font_alias());
}

} // verus!
