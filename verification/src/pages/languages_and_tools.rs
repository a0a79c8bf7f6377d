use vstd::prelude::*;
use crate::page_model::{PageItem, SettingItemInfo, SubPageInfo, SubPageType, ActionInfo, SettingFiles, json_paths_distinct};
use crate::pages::language_settings::{non_editor_language_settings_items, non_editor_language_settings_spec};

verus! {

/// The "文件类型" section.
pub open spec fn file_types_section_spec() -> Seq<PageItem> {
    seq![
        PageItem::SectionHeader("文件类型"),
        PageItem::Setting(SettingItemInfo { title: "文件类型关联", description: "将编程语言与对应文件/文件扩展名进行映射，使编辑器按该语言处理文件。", json_path: Some("file_type_associations"), files: SettingFiles::UserAndProject, unimplemented: true }),
    ]
}

fn file_types_section() -> (r: Vec<PageItem>)
    ensures
        r@ == file_types_section_spec(),
{
    let mut v: Vec<PageItem> = Vec::new();
    v.push(PageItem::SectionHeader("文件类型"));
    v.push(PageItem::Setting(SettingItemInfo { title: "文件类型关联", description: "将编程语言与对应文件/文件扩展名进行映射，使编辑器按该语言处理文件。", json_path: Some("file_type_associations"), files: SettingFiles::UserAndProject, unimplemented: true }));
    assert(v@ =~= file_types_section_spec());
    v
}

/// The "代码诊断" section.
pub open spec fn diagnostics_section_spec() -> Seq<PageItem> {
    seq![
        PageItem::SectionHeader("代码诊断"),
        PageItem::Setting(SettingItemInfo { title: "最高诊断级别", description: "用于过滤编辑器中显示的诊断信息的级别阈值。", json_path: Some("diagnostics_max_severity"), files: SettingFiles::User, unimplemented: false }),
        PageItem::Setting(SettingItemInfo { title: "包含警告信息", description: "默认是否显示警告类诊断信息。", json_path: Some("diagnostics.include_warnings"), files: SettingFiles::User, unimplemented: false }),
    ]
}

fn diagnostics_section() -> (r: Vec<PageItem>)
    ensures
        r@ == diagnostics_section_spec(),
{
    let mut v: Vec<PageItem> = Vec::new();
    v.push(PageItem::SectionHeader("代码诊断"));
    v.push(PageItem::Setting(SettingItemInfo { title: "最高诊断级别", description: "用于过滤编辑器中显示的诊断信息的级别阈值。", json_path: Some("diagnostics_max_severity"), files: SettingFiles::User, unimplemented: false }));
    v.push(PageItem::Setting(SettingItemInfo { title: "包含警告信息", description: "默认是否显示警告类诊断信息。", json_path: Some("diagnostics.include_warnings"), files: SettingFiles::User, unimplemented: false }));
    assert(v@ =~= diagnostics_section_spec());
    v
}

/// The "行内代码诊断" section.
pub open spec fn inline_diagnostics_section_spec() -> Seq<PageItem> {
    seq![
        PageItem::SectionHeader("行内代码诊断"),
        PageItem::Setting(SettingItemInfo { title: "启用行内诊断", description: "是否在代码行内直接显示诊断提示。", json_path: Some("diagnostics.inline.enabled"), files: SettingFiles::User, unimplemented: false }),
        PageItem::Setting(SettingItemInfo { title: "更新防抖延迟", description: "最后一次诊断更新后，显示行内诊断的延迟时间（毫秒）。", json_path: Some("diagnostics.inline.update_debounce_ms"), files: SettingFiles::User, unimplemented: false }),
        PageItem::Setting(SettingItemInfo { title: "行内间距", description: "代码行末尾与行内诊断信息之间的间距。", json_path: Some("diagnostics.inline.padding"), files: SettingFiles::User, unimplemented: false }),
        PageItem::Setting(SettingItemInfo { title: "最小显示列数", description: "显示行内诊断信息的最小列位置。", json_path: Some("diagnostics.inline.min_column"), files: SettingFiles::User, unimplemented: false }),
    ]
}

fn inline_diagnostics_section() -> (r: Vec<PageItem>)
    ensures
        r@ == inline_diagnostics_section_spec(),
{
    let mut v: Vec<PageItem> = Vec::new();
    v.push(PageItem::SectionHeader("行内代码诊断"));
    v.push(PageItem::Setting(SettingItemInfo { title: "启用行内诊断", description: "是否在代码行内直接显示诊断提示。", json_path: Some("diagnostics.inline.enabled"), files: SettingFiles::User, unimplemented: false }));
    v.push(PageItem::Setting(SettingItemInfo { title: "更新防抖延迟", description: "最后一次诊断更新后，显示行内诊断的延迟时间（毫秒）。", json_path: Some("diagnostics.inline.update_debounce_ms"), files: SettingFiles::User, unimplemented: false }));
    v.push(PageItem::Setting(SettingItemInfo { title: "行内间距", description: "代码行末尾与行内诊断信息之间的间距。", json_path: Some("diagnostics.inline.padding"), files: SettingFiles::User, unimplemented: false }));
    v.push(PageItem::Setting(SettingItemInfo { title: "最小显示列数", description: "显示行内诊断信息的最小列位置。", json_path: Some("diagnostics.inline.min_column"), files: SettingFiles::User, unimplemented: false }));
    assert(v@ =~= inline_diagnostics_section_spec());
    v
}

/// The "LSP 主动拉取诊断" section.
pub open spec fn lsp_pull_diagnostics_section_spec() -> Seq<PageItem> {
    seq![
        PageItem::SectionHeader("LSP 主动拉取诊断"),
        PageItem::Setting(SettingItemInfo { title: "启用主动拉取", description: "是否从语言服务器主动拉取诊断信息。", json_path: Some("diagnostics.lsp_pull_diagnostics.enabled"), files: SettingFiles::User, unimplemented: false }),
        PageItem::Setting(SettingItemInfo { title: "拉取防抖延迟", description: "从语言服务器拉取诊断信息的最小等待时间。", json_path: Some("diagnostics.lsp_pull_diagnostics.debounce_ms"), files: SettingFiles::User, unimplemented: false }),
    ]
}

fn lsp_pull_diagnostics_section() -> (r: Vec<PageItem>)
    ensures
        r@ == lsp_pull_diagnostics_section_spec(),
{
    let mut v: Vec<PageItem> = Vec::new();
    v.push(PageItem::SectionHeader("LSP 主动拉取诊断"));
    v.push(PageItem::Setting(SettingItemInfo { title: "启用主动拉取", description: "是否从语言服务器主动拉取诊断信息。", json_path: Some("diagnostics.lsp_pull_diagnostics.enabled"), files: SettingFiles::User, unimplemented: false }));
    v.push(PageItem::Setting(SettingItemInfo { title: "拉取防抖延迟", description: "从语言服务器拉取诊断信息的最小等待时间。", json_path: Some("diagnostics.lsp_pull_diagnostics.debounce_ms"), files: SettingFiles::User, unimplemented: false }));
    assert(v@ =~= lsp_pull_diagnostics_section_spec());
    v
}

/// The "LSP 语法高亮" section.
pub open spec fn lsp_highlights_section_spec() -> Seq<PageItem> {
    seq![
        PageItem::SectionHeader("LSP 语法高亮"),
        PageItem::Setting(SettingItemInfo { title: "高亮查询防抖", description: "向语言服务查询高亮信息前的防抖延迟。", json_path: Some("lsp_highlight_debounce"), files: SettingFiles::User, unimplemented: false }),
    ]
}

fn lsp_highlights_section() -> (r: Vec<PageItem>)
    ensures
        r@ == lsp_highlights_section_spec(),
{
    let mut v: Vec<PageItem> = Vec::new();
    v.push(PageItem::SectionHeader("LSP 语法高亮"));
    v.push(PageItem::Setting(SettingItemInfo { title: "高亮查询防抖", description: "向语言服务查询高亮信息前的防抖延迟。", json_path: Some("lsp_highlight_debounce"), files: SettingFiles::User, unimplemented: false }));
    assert(v@ =~= lsp_highlights_section_spec());
    v
}

/// The header of the list of languages.
pub open spec fn languages_header_spec() -> Seq<PageItem> {
    seq![
        PageItem::SectionHeader("编程语言"),
    ]
}

fn languages_header() -> (r: Vec<PageItem>)
    ensures
        r@ == languages_header_spec(),
{
    let mut v: Vec<PageItem> = Vec::new();
    v.push(PageItem::SectionHeader("编程语言"));
    assert(v@ =~= languages_header_spec());
    v
}

/// The entries of the "编程语言与工具" page, up to the header of its list of languages; `language_links` gives the list.
pub open spec fn languages_and_tools_page_spec() -> Seq<PageItem> {
    non_editor_language_settings_spec()
        + file_types_section_spec()
        + diagnostics_section_spec()
        + inline_diagnostics_section_spec()
        + lsp_pull_diagnostics_section_spec()
        + lsp_highlights_section_spec()
        + languages_header_spec()
}

/// The entries of the "编程语言与工具" page, up to the header of its list of languages; `language_links` gives the list.
pub fn languages_and_tools_page_items() -> (r: Vec<PageItem>)
    ensures
        r@ == languages_and_tools_page_spec(),
{
    let mut items = non_editor_language_settings_items();
    let mut next = file_types_section();
    items.append(&mut next);
    let mut next = diagnostics_section();
    items.append(&mut next);
    let mut next = inline_diagnostics_section();
    items.append(&mut next);
    let mut next = lsp_pull_diagnostics_section();
    items.append(&mut next);
    let mut next = lsp_highlights_section();
    items.append(&mut next);
    let mut next = languages_header();
    items.append(&mut next);
    items
}

/// No two entries of `languages_and_tools_page_spec` share a JSON path.
pub proof fn lemma_languages_and_tools_page_paths_distinct()
    ensures
        json_paths_distinct(languages_and_tools_page_spec()),
{
}

/// A link to a language's own settings page.
pub struct LanguageLink {
    pub title: String,
    pub description: Option<&'static str>,
    pub json_path: String,
    pub files: SettingFiles,
    pub in_json: bool,
    pub link_type: SubPageType,
}

/// The link of language `name`: titled by the name, without description, at
/// JSON path `languages.<name>`, writable to the user's or a project's
/// settings, open in the JSON, of the language kind.
pub open spec fn is_language_link(l: LanguageLink, name: Seq<char>) -> bool {
    &&& l.title@ == name
    &&& l.description is None
    &&& l.json_path@ == "languages."@ + name
    &&& l.files == SettingFiles::UserAndProject
    &&& l.in_json
    &&& l.link_type == SubPageType::Language
}

/// The links of the list of languages, one per language name, in the order
/// given.
pub fn language_links(names: &Vec<String>) -> (r: Vec<LanguageLink>)
    ensures
        r@.len() == names@.len(),
        forall|i: int| 0 <= i < r@.len() ==> is_language_link(#[trigger] r@[i], names@[i]@),
{
    let mut out: Vec<LanguageLink> = Vec::new();
    let mut i: usize = 0;
    while i < names.len()
        invariant
            i <= names@.len(),
            out@.len() == i,
            forall|t: int| 0 <= t < i ==> is_language_link(#[trigger] out@[t], names@[t]@),
        decreases names@.len() - i,
    {
        let mut path = String::from_str("languages.");
        path.append(names[i].as_str());
        out.push(
            LanguageLink {
                title: names[i].clone(),
                description: None,
                json_path: path,
                files: SettingFiles::UserAndProject,
                in_json: true,
                link_type: SubPageType::Language,
            },
        );
        i = i + 1;
    }
    out
}

/// An entry of the "编程语言与工具" page: a fixed entry or a language's link.
pub enum LanguagesPageEntry {
    Fixed(PageItem),
    Language(LanguageLink),
}

/// The entry is the link of language `name`.
pub open spec fn is_language_entry(e: LanguagesPageEntry, name: Seq<char>) -> bool {
    match e {
        LanguagesPageEntry::Language(l) => is_language_link(l, name),
        LanguagesPageEntry::Fixed(_) => false,
    }
}

/// The "编程语言与工具" page as the page shows it: its fixed entries, ending
/// with the header of the list of languages, then one link per language
/// name, in the order given.
pub fn languages_and_tools_page_entries(names: &Vec<String>) -> (r: Vec<LanguagesPageEntry>)
    ensures
        r@.len() == languages_and_tools_page_spec().len() + names@.len(),
        forall|i: int|
            0 <= i < languages_and_tools_page_spec().len() ==> (#[trigger] r@[i]) == LanguagesPageEntry::Fixed(
                languages_and_tools_page_spec()[i],
            ),
        forall|i: int|
            0 <= i < names@.len() ==> is_language_entry(
                #[trigger] r@[languages_and_tools_page_spec().len() + i],
                names@[i]@,
            ),
{
    let fixed = languages_and_tools_page_items();
    let links = language_links(names);
    let ghost n = fixed@.len();
    let mut out: Vec<LanguagesPageEntry> = Vec::new();
    let mut i: usize = 0;
    while i < fixed.len()
        invariant
            fixed@ == languages_and_tools_page_spec(),
            i <= fixed@.len(),
            out@.len() == i,
            forall|t: int| 0 <= t < i ==> (#[trigger] out@[t]) == LanguagesPageEntry::Fixed(fixed@[t]),
        decreases fixed@.len() - i,
    {
        out.push(LanguagesPageEntry::Fixed(fixed[i]));
        i = i + 1;
    }
    let mut rest = links;
    let ghost all = rest@;
    let ghost mut k: int = 0;
    while rest.len() > 0
        invariant
            fixed@ == languages_and_tools_page_spec(),
            n == fixed@.len(),
            all.len() == names@.len(),
            forall|t: int| 0 <= t < all.len() ==> is_language_link(#[trigger] all[t], names@[t]@),
            0 <= k <= all.len(),
            rest@ == all.skip(k),
            out@.len() == n + k,
            forall|t: int| 0 <= t < n ==> (#[trigger] out@[t]) == LanguagesPageEntry::Fixed(fixed@[t]),
            forall|t: int|
                0 <= t < k ==> is_language_entry(#[trigger] out@[n + t], names@[t]@),
        decreases rest@.len(),
    {
        let l = rest.remove(0);
        proof {
            assert(l == all[k]);
            assert(all.skip(k + 1) =~= all.skip(k).drop_first());
        }
        out.push(LanguagesPageEntry::Language(l));
        proof {
            assert(out@[n + k] == LanguagesPageEntry::Language(all[k]));
            k = k + 1;
        }
    }
    out
}

} // verus!
