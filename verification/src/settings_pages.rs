use vstd::prelude::*;
use crate::tool_permissions::{entry_index, find_entry};

verus! {

/// The value of a language setting as the settings page shows it: the
/// active language's own value where that language has an entry with the
/// field set, else the value for all languages.
pub open spec fn language_field_spec<T>(
    languages: Seq<(String, Option<T>)>,
    defaults: Option<T>,
    active: Option<Seq<char>>,
) -> Option<T> {
    match active {
        Some(name) => {
            let k = entry_index(languages, name);
            if k >= 0 && languages[k].1 is Some {
                languages[k].1
            } else {
                defaults
            }
        },
        None => defaults,
    }
}

/// The value of a language setting as the page shows it. `languages` holds
/// each configured language with its value of the field, `defaults` the
/// value for all languages, `active` the language being edited, if any.
pub fn language_settings_field<T: Copy>(
    languages: &Vec<(String, Option<T>)>,
    defaults: Option<T>,
    active: Option<&str>,
) -> (r: Option<T>)
    ensures
        r == language_field_spec(
            languages@,
            defaults,
            match active {
                Some(a) => Some(a@),
                None => None,
            },
        ),
{
    match active {
        Some(name) => match find_entry(languages, name) {
            Some(k) => match languages[k].1 {
                Some(v) => Some(v),
                None => defaults,
            },
            None => defaults,
        },
        None => defaults,
    }
}

/// Writes a language setting from the page: to the active language's entry,
/// created where the language has none, or to the value for all languages
/// when no language is being edited.
pub fn language_settings_field_mut<T>(
    languages: &mut Vec<(String, Option<T>)>,
    defaults: &mut Option<T>,
    active: Option<&str>,
    value: Option<T>,
)
    ensures
        match active {
            Some(name) => {
                &&& *final(defaults) == *old(defaults)
                &&& entry_index(old(languages)@, name@) >= 0 ==> final(languages)@ == old(languages)@.update(
                    entry_index(old(languages)@, name@),
                    (old(languages)@[entry_index(old(languages)@, name@)].0, value),
                )
                &&& entry_index(old(languages)@, name@) < 0 ==> {
                    &&& final(languages)@.len() == old(languages)@.len() + 1
                    &&& final(languages)@.take(old(languages)@.len() as int) == old(languages)@
                    &&& final(languages)@.last().0@ == name@
                    &&& final(languages)@.last().1 == value
                }
            },
            None => *final(languages) == *old(languages) && *final(defaults) == value,
        },
{
    match active {
        Some(name) => match find_entry(languages, name) {
            Some(k) => {
                let (key, _) = languages.remove(k);
                languages.insert(k, (key, value));
                assert(languages@ =~= old(languages)@.update(k as int, (old(languages)@[k as int].0, value)));
            },
            None => {
                languages.push((String::from_str(name), value));
                assert(languages@.take(old(languages)@.len() as int) =~= old(languages)@);
            },
        },
        None => {
            *defaults = value;
        },
    }
}

/// The scrollbar visibility a panel shows: its own where set, else the
/// editor's.
pub fn show_scrollbar_or_editor<T: Copy>(show: Option<T>, editor_show: Option<T>) -> (r: Option<T>)
    ensures
        r == if show is Some {
            show
        } else {
            editor_show
        },
{
    match show {
        Some(v) => Some(v),
        None => editor_show,
    }
}

/// The titles of the settings pages, in order; the developer page comes
/// last and only for staff or debug builds.
pub open spec fn page_titles_spec(include_developer: bool) -> Seq<Seq<char>> {
    let base = seq![
        "通用"@,
        "外观"@,
        "按键映射"@,
        "编辑器"@,
        "编程语言与工具"@,
        "搜索与文件"@,
        "窗口与布局"@,
        "面板设置"@,
        "调试器"@,
        "终端"@,
        "版本控制"@,
        "协作"@,
        "AI"@,
        "网络"@,
    ];
    if include_developer {
        base.push("开发者"@)
    } else {
        base
    }
}

/// The titles of the settings pages, in order.
pub fn settings_page_titles(include_developer: bool) -> (r: Vec<&'static str>)
    ensures
        r@.map_values(|t: &'static str| t@) == page_titles_spec(include_developer),
{
    let mut pages: Vec<&'static str> = Vec::new();
    pages.push("通用");
    pages.push("外观");
    pages.push("按键映射");
    pages.push("编辑器");
    pages.push("编程语言与工具");
    pages.push("搜索与文件");
    pages.push("窗口与布局");
    pages.push("面板设置");
    pages.push("调试器");
    pages.push("终端");
    pages.push("版本控制");
    pages.push("协作");
    pages.push("AI");
    pages.push("网络");
    if include_developer {
        pages.push("开发者");
    }
    assert(pages@.map_values(|t: &'static str| t@) =~= page_titles_spec(include_developer));
    pages
}

} // verus!
