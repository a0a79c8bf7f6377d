use vstd::prelude::*;
use crate::page_model::{PageItem, SettingItemInfo, SubPageInfo, SubPageType, ActionInfo, SettingFiles, json_paths_distinct};

verus! {

/// The "搜索" section.
pub open spec fn search_section_spec() -> Seq<PageItem> {
    seq![
        PageItem::SectionHeader("搜索"),
        PageItem::Setting(SettingItemInfo { title: "全词匹配", description: "默认使用全词匹配搜索。", json_path: Some("search.whole_word"), files: SettingFiles::User, unimplemented: false }),
        PageItem::Setting(SettingItemInfo { title: "区分大小写", description: "默认使用区分大小写搜索。", json_path: Some("search.case_sensitive"), files: SettingFiles::User, unimplemented: false }),
        PageItem::Setting(SettingItemInfo { title: "智能大小写搜索", description: "根据搜索内容自动启用区分大小写搜索。", json_path: Some("use_smartcase_search"), files: SettingFiles::User, unimplemented: false }),
        PageItem::Setting(SettingItemInfo { title: "包含忽略文件", description: "默认在搜索结果中包含被忽略的文件。", json_path: Some("search.include_ignored"), files: SettingFiles::User, unimplemented: false }),
        PageItem::Setting(SettingItemInfo { title: "正则表达式", description: "默认使用正则表达式搜索。", json_path: Some("search.regex"), files: SettingFiles::User, unimplemented: false }),
        PageItem::Setting(SettingItemInfo { title: "循环搜索", description: "编辑器搜索结果是否循环显示。", json_path: Some("search_wrap"), files: SettingFiles::User, unimplemented: false }),
        PageItem::Setting(SettingItemInfo { title: "匹配结果居中", description: "是否将当前匹配结果在编辑器中居中显示。", json_path: Some("editor.search.center_on_match"), files: SettingFiles::User, unimplemented: false }),
        PageItem::Setting(SettingItemInfo { title: "光标处文本预填充搜索", description: "新建搜索时，使用光标下的文本填充搜索框。", json_path: Some("seed_search_query_from_cursor"), files: SettingFiles::User, unimplemented: false }),
    ]
}

fn search_section() -> (r: Vec<PageItem>)
    ensures
        r@ == search_section_spec(),
{
    let mut v: Vec<PageItem> = Vec::new();
    v.push(PageItem::SectionHeader("搜索"));
    v.push(PageItem::Setting(SettingItemInfo { title: "全词匹配", description: "默认使用全词匹配搜索。", json_path: Some("search.whole_word"), files: SettingFiles::User, unimplemented: false }));
    v.push(PageItem::Setting(SettingItemInfo { title: "区分大小写", description: "默认使用区分大小写搜索。", json_path: Some("search.case_sensitive"), files: SettingFiles::User, unimplemented: false }));
    v.push(PageItem::Setting(SettingItemInfo { title: "智能大小写搜索", description: "根据搜索内容自动启用区分大小写搜索。", json_path: Some("use_smartcase_search"), files: SettingFiles::User, unimplemented: false }));
    v.push(PageItem::Setting(SettingItemInfo { title: "包含忽略文件", description: "默认在搜索结果中包含被忽略的文件。", json_path: Some("search.include_ignored"), files: SettingFiles::User, unimplemented: false }));
    v.push(PageItem::Setting(SettingItemInfo { title: "正则表达式", description: "默认使用正则表达式搜索。", json_path: Some("search.regex"), files: SettingFiles::User, unimplemented: false }));
    v.push(PageItem::Setting(SettingItemInfo { title: "循环搜索", description: "编辑器搜索结果是否循环显示。", json_path: Some("search_wrap"), files: SettingFiles::User, unimplemented: false }));
    v.push(PageItem::Setting(SettingItemInfo { title: "匹配结果居中", description: "是否将当前匹配结果在编辑器中居中显示。", json_path: Some("editor.search.center_on_match"), files: SettingFiles::User, unimplemented: false }));
    v.push(PageItem::Setting(SettingItemInfo { title: "光标处文本预填充搜索", description: "新建搜索时，使用光标下的文本填充搜索框。", json_path: Some("seed_search_query_from_cursor"), files: SettingFiles::User, unimplemented: false }));
    assert(v@ =~= search_section_spec());
    v
}

/// The "文件查找器" section.
pub open spec fn file_finder_section_spec() -> Seq<PageItem> {
    seq![
        PageItem::SectionHeader("文件查找器"),
        PageItem::Setting(SettingItemInfo { title: "搜索包含忽略文件", description: "在文件搜索时包含被 git 忽略的文件。", json_path: Some("file_finder.include_ignored"), files: SettingFiles::User, unimplemented: false }),
        PageItem::Setting(SettingItemInfo { title: "文件图标", description: "在文件查找器中显示文件图标。", json_path: Some("file_finder.file_icons"), files: SettingFiles::User, unimplemented: false }),
        PageItem::Setting(SettingItemInfo { title: "弹窗最大宽度", description: "设置文件查找器相对于窗口宽度的最大占用比例。", json_path: Some("file_finder.modal_max_width"), files: SettingFiles::User, unimplemented: false }),
        PageItem::Setting(SettingItemInfo { title: "跳过激活文件焦点", description: "文件查找器是否跳过对搜索结果中已激活文件的聚焦。", json_path: Some("file_finder.skip_focus_for_active_in_search"), files: SettingFiles::User, unimplemented: false }),
    ]
}

fn file_finder_section() -> (r: Vec<PageItem>)
    ensures
        r@ == file_finder_section_spec(),
{
    let mut v: Vec<PageItem> = Vec::new();
    v.push(PageItem::SectionHeader("文件查找器"));
    v.push(PageItem::Setting(SettingItemInfo { title: "搜索包含忽略文件", description: "在文件搜索时包含被 git 忽略的文件。", json_path: Some("file_finder.include_ignored"), files: SettingFiles::User, unimplemented: false }));
    v.push(PageItem::Setting(SettingItemInfo { title: "文件图标", description: "在文件查找器中显示文件图标。", json_path: Some("file_finder.file_icons"), files: SettingFiles::User, unimplemented: false }));
    v.push(PageItem::Setting(SettingItemInfo { title: "弹窗最大宽度", description: "设置文件查找器相对于窗口宽度的最大占用比例。", json_path: Some("file_finder.modal_max_width"), files: SettingFiles::User, unimplemented: false }));
    v.push(PageItem::Setting(SettingItemInfo { title: "跳过激活文件焦点", description: "文件查找器是否跳过对搜索结果中已激活文件的聚焦。", json_path: Some("file_finder.skip_focus_for_active_in_search"), files: SettingFiles::User, unimplemented: false }));
    assert(v@ =~= file_finder_section_spec());
    v
}

/// The "文件扫描" section.
pub open spec fn file_scan_section_spec() -> Seq<PageItem> {
    seq![
        PageItem::SectionHeader("文件扫描"),
        PageItem::Setting(SettingItemInfo { title: "文件扫描排除项", description: "编辑器将完全忽略的文件或通配符，文件扫描、搜索和项目树均不显示。优先级高于「文件扫描包含项」。", json_path: Some("file_scan_exclusions"), files: SettingFiles::User, unimplemented: true }),
        PageItem::Setting(SettingItemInfo { title: "文件扫描包含项", description: "即使被 git 忽略，仍会被编辑器包含的文件或通配符。注意：过宽的通配符可能降低扫描速度。「文件扫描排除项」优先级更高。", json_path: Some("file_scan_inclusions"), files: SettingFiles::User, unimplemented: true }),
        PageItem::Setting(SettingItemInfo { title: "恢复文件状态", description: "重新打开文件时恢复上次的编辑状态。", json_path: Some("restore_on_file_reopen"), files: SettingFiles::User, unimplemented: false }),
        PageItem::Setting(SettingItemInfo { title: "文件删除时自动关闭", description: "自动关闭已被删除的文件标签。", json_path: Some("close_on_file_delete"), files: SettingFiles::User, unimplemented: false }),
    ]
}

fn file_scan_section() -> (r: Vec<PageItem>)
    ensures
        r@ == file_scan_section_spec(),
{
    let mut v: Vec<PageItem> = Vec::new();
    v.push(PageItem::SectionHeader("文件扫描"));
    v.push(PageItem::Setting(SettingItemInfo { title: "文件扫描排除项", description: "编辑器将完全忽略的文件或通配符，文件扫描、搜索和项目树均不显示。优先级高于「文件扫描包含项」。", json_path: Some("file_scan_exclusions"), files: SettingFiles::User, unimplemented: true }));
    v.push(PageItem::Setting(SettingItemInfo { title: "文件扫描包含项", description: "即使被 git 忽略，仍会被编辑器包含的文件或通配符。注意：过宽的通配符可能降低扫描速度。「文件扫描排除项」优先级更高。", json_path: Some("file_scan_inclusions"), files: SettingFiles::User, unimplemented: true }));
    v.push(PageItem::Setting(SettingItemInfo { title: "恢复文件状态", description: "重新打开文件时恢复上次的编辑状态。", json_path: Some("restore_on_file_reopen"), files: SettingFiles::User, unimplemented: false }));
    v.push(PageItem::Setting(SettingItemInfo { title: "文件删除时自动关闭", description: "自动关闭已被删除的文件标签。", json_path: Some("close_on_file_delete"), files: SettingFiles::User, unimplemented: false }));
    assert(v@ =~= file_scan_section_spec());
    v
}

/// The entries of the "搜索与文件" page.
pub open spec fn search_and_files_page_spec() -> Seq<PageItem> {
    search_section_spec()
        + file_finder_section_spec()
        + file_scan_section_spec()
}

/// The entries of the "搜索与文件" page.
pub fn search_and_files_page_items() -> (r: Vec<PageItem>)
    ensures
        r@ == search_and_files_page_spec(),
{
    let mut items = search_section();
    let mut next = file_finder_section();
    items.append(&mut next);
    let mut next = file_scan_section();
    items.append(&mut next);
    items
}

/// No two entries of `search_and_files_page_spec` share a JSON path.
pub proof fn lemma_search_and_files_page_paths_distinct()
    ensures
        json_paths_distinct(search_and_files_page_spec()),
{
}

} // verus!
