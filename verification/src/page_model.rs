use vstd::prelude::*;

verus! {

/// The settings files a setting can be written to.
#[derive(Clone, Copy, Debug, PartialEq, Eq)]
pub enum SettingFiles {
    /// The user's settings file only.
    User,
    /// The user's settings file or a project's.
    UserAndProject,
}

/// A setting shown on a settings page: its title, its description, where it
/// lives in the settings JSON, the files it can be written to, and whether
/// the page can edit it yet (`unimplemented` settings are only shown).
#[derive(Clone, Copy, Debug, PartialEq, Eq)]
pub struct SettingItemInfo {
    pub title: &'static str,
    pub description: &'static str,
    pub json_path: Option<&'static str>,
    pub files: SettingFiles,
    pub unimplemented: bool,
}

/// The kind of page a link opens.
#[derive(Clone, Copy, Debug, PartialEq, Eq)]
pub enum SubPageType {
    /// A page of its own kind (the default).
    Standard,
    /// A language's settings page.
    Language,
}

/// A link to a page of its own; `in_json` tells whether its settings can be
/// opened in the settings JSON.
#[derive(Clone, Copy, Debug, PartialEq, Eq)]
pub struct SubPageInfo {
    pub title: &'static str,
    pub description: Option<&'static str>,
    pub json_path: Option<&'static str>,
    pub files: SettingFiles,
    pub in_json: bool,
    pub link_type: SubPageType,
}

/// A button that runs an action.
#[derive(Clone, Copy, Debug, PartialEq, Eq)]
pub struct ActionInfo {
    pub title: &'static str,
    pub description: Option<&'static str>,
    pub button_text: &'static str,
    pub files: SettingFiles,
}

/// An entry of a settings page, in page order.
#[derive(Clone, Copy, Debug, PartialEq, Eq)]
pub enum PageItem {
    SectionHeader(&'static str),
    Setting(SettingItemInfo),
    /// A setting whose value picks one of several variants; the settings of
    /// the variants follow it as `VariantSetting` entries.
    VariantPicker(SettingItemInfo),
    /// A setting shown only while the preceding picker holds the named
    /// variant (its variant name, or its position where the variants are
    /// positional).
    VariantSetting(&'static str, SettingItemInfo),
    SubPageLink(SubPageInfo),
    ActionLink(ActionInfo),
}

/// The JSON path of an entry, if it has one.
pub open spec fn item_json_path(item: PageItem) -> Option<&'static str> {
    match item {
        PageItem::SectionHeader(_) => None,
        PageItem::Setting(s) => s.json_path,
        PageItem::VariantPicker(s) => s.json_path,
        PageItem::VariantSetting(_, s) => s.json_path,
        PageItem::SubPageLink(l) => l.json_path,
        PageItem::ActionLink(_) => None,
    }
}

/// No two entries of `items` share a JSON path.
pub open spec fn json_paths_distinct(items: Seq<PageItem>) -> bool {
    forall|i: int, j: int|
        0 <= i < j < items.len() && item_json_path(items[i]) is Some ==> item_json_path(items[i])
            != item_json_path(items[j])
}

/// No entry of `a` shares a JSON path with an entry of `b`.
pub open spec fn json_paths_disjoint(a: Seq<PageItem>, b: Seq<PageItem>) -> bool {
    forall|i: int, j: int|
        0 <= i < a.len() && 0 <= j < b.len() && item_json_path(a[i]) is Some ==> item_json_path(a[i])
            != item_json_path(b[j])
}

/// Two lists without repeated paths and without a path in common make a
/// list without repeated paths.
pub proof fn lemma_distinct_concat(a: Seq<PageItem>, b: Seq<PageItem>)
    requires
        json_paths_distinct(a),
        json_paths_distinct(b),
        json_paths_disjoint(a, b),
    ensures
        json_paths_distinct(a + b),
{
    assert forall|i: int, j: int|
        0 <= i < j < (a + b).len() && item_json_path((a + b)[i]) is Some implies item_json_path((a + b)[i])
            != item_json_path((a + b)[j]) by {
        if j < a.len() {
            assert((a + b)[i] == a[i] && (a + b)[j] == a[j]);
        } else if i < a.len() {
            assert((a + b)[i] == a[i] && (a + b)[j] == b[j - a.len()]);
        } else {
            assert((a + b)[i] == b[i - a.len()] && (a + b)[j] == b[j - a.len()]);
        }
    }
}

} // verus!
