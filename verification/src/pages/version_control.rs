use vstd::prelude::*;
use crate::page_model::{PageItem, SettingItemInfo, SubPageInfo, SubPageType, ActionInfo, SettingFiles, json_paths_distinct};

verus! {

/// The "Git 集成" section.
pub open spec fn git_integration_section_spec() -> Seq<PageItem> {
    seq![
        PageItem::SectionHeader("Git 集成"),
        PageItem::VariantPicker(SettingItemInfo { title: "禁用 Git 集成", description: "禁用 Zed 中所有 Git 集成相关功能。", json_path: Some("git.disable_git"), files: SettingFiles::User, unimplemented: false }),
        PageItem::VariantSetting("1", SettingItemInfo { title: "启用 Git 状态", description: "在编辑器中显示 Git 状态信息。", json_path: Some("git.enable_status"), files: SettingFiles::User, unimplemented: false }),
        PageItem::VariantSetting("1", SettingItemInfo { title: "启用 Git 差异", description: "在编辑器中显示文件差异（diff）信息。", json_path: Some("git.enable_diff"), files: SettingFiles::User, unimplemented: false }),
    ]
}

fn git_integration_section() -> (r: Vec<PageItem>)
    ensures
        r@ == git_integration_section_spec(),
{
    let mut v: Vec<PageItem> = Vec::new();
    v.push(PageItem::SectionHeader("Git 集成"));
    v.push(PageItem::VariantPicker(SettingItemInfo { title: "禁用 Git 集成", description: "禁用 Zed 中所有 Git 集成相关功能。", json_path: Some("git.disable_git"), files: SettingFiles::User, unimplemented: false }));
    v.push(PageItem::VariantSetting("1", SettingItemInfo { title: "启用 Git 状态", description: "在编辑器中显示 Git 状态信息。", json_path: Some("git.enable_status"), files: SettingFiles::User, unimplemented: false }));
    v.push(PageItem::VariantSetting("1", SettingItemInfo { title: "启用 Git 差异", description: "在编辑器中显示文件差异（diff）信息。", json_path: Some("git.enable_diff"), files: SettingFiles::User, unimplemented: false }));
    assert(v@ =~= git_integration_section_spec());
    v
}

/// The "Git 侧边标识" section.
pub open spec fn git_gutter_section_spec() -> Seq<PageItem> {
    seq![
        PageItem::SectionHeader("Git 侧边标识"),
        PageItem::Setting(SettingItemInfo { title: "显示状态", description: "控制是否在编辑器侧边栏显示 Git 变更标识。", json_path: Some("git.git_gutter"), files: SettingFiles::User, unimplemented: false }),
        PageItem::Setting(SettingItemInfo { title: "防抖延迟", description: "Git 侧边标识更新的防抖阈值，单位为毫秒。", json_path: Some("git.gutter_debounce"), files: SettingFiles::User, unimplemented: false }),
    ]
}

fn git_gutter_section() -> (r: Vec<PageItem>)
    ensures
        r@ == git_gutter_section_spec(),
{
    let mut v: Vec<PageItem> = Vec::new();
    v.push(PageItem::SectionHeader("Git 侧边标识"));
    v.push(PageItem::Setting(SettingItemInfo { title: "显示状态", description: "控制是否在编辑器侧边栏显示 Git 变更标识。", json_path: Some("git.git_gutter"), files: SettingFiles::User, unimplemented: false }));
    v.push(PageItem::Setting(SettingItemInfo { title: "防抖延迟", description: "Git 侧边标识更新的防抖阈值，单位为毫秒。", json_path: Some("git.gutter_debounce"), files: SettingFiles::User, unimplemented: false }));
    assert(v@ =~= git_gutter_section_spec());
    v
}

/// The "行内 Git 追溯" section.
pub open spec fn inline_git_blame_section_spec() -> Seq<PageItem> {
    seq![
        PageItem::SectionHeader("行内 Git 追溯"),
        PageItem::Setting(SettingItemInfo { title: "启用", description: "是否在当前聚焦行显示行内 Git 追溯信息。", json_path: Some("git.inline_blame.enabled"), files: SettingFiles::User, unimplemented: false }),
        PageItem::Setting(SettingItemInfo { title: "显示延迟", description: "行内追溯信息显示的延迟时间。", json_path: Some("git.inline_blame.delay_ms"), files: SettingFiles::User, unimplemented: false }),
        PageItem::Setting(SettingItemInfo { title: "内边距", description: "代码行末尾与追溯信息之间的列数间距。", json_path: Some("git.inline_blame.padding"), files: SettingFiles::User, unimplemented: false }),
        PageItem::Setting(SettingItemInfo { title: "最小显示列数", description: "显示行内追溯信息的最小列数。", json_path: Some("git.inline_blame.min_column"), files: SettingFiles::User, unimplemented: false }),
        PageItem::Setting(SettingItemInfo { title: "显示提交摘要", description: "在行内追溯中显示提交说明。", json_path: Some("git.inline_blame.show_commit_summary"), files: SettingFiles::User, unimplemented: false }),
    ]
}

fn inline_git_blame_section() -> (r: Vec<PageItem>)
    ensures
        r@ == inline_git_blame_section_spec(),
{
    let mut v: Vec<PageItem> = Vec::new();
    v.push(PageItem::SectionHeader("行内 Git 追溯"));
    v.push(PageItem::Setting(SettingItemInfo { title: "启用", description: "是否在当前聚焦行显示行内 Git 追溯信息。", json_path: Some("git.inline_blame.enabled"), files: SettingFiles::User, unimplemented: false }));
    v.push(PageItem::Setting(SettingItemInfo { title: "显示延迟", description: "行内追溯信息显示的延迟时间。", json_path: Some("git.inline_blame.delay_ms"), files: SettingFiles::User, unimplemented: false }));
    v.push(PageItem::Setting(SettingItemInfo { title: "内边距", description: "代码行末尾与追溯信息之间的列数间距。", json_path: Some("git.inline_blame.padding"), files: SettingFiles::User, unimplemented: false }));
    v.push(PageItem::Setting(SettingItemInfo { title: "最小显示列数", description: "显示行内追溯信息的最小列数。", json_path: Some("git.inline_blame.min_column"), files: SettingFiles::User, unimplemented: false }));
    v.push(PageItem::Setting(SettingItemInfo { title: "显示提交摘要", description: "在行内追溯中显示提交说明。", json_path: Some("git.inline_blame.show_commit_summary"), files: SettingFiles::User, unimplemented: false }));
    assert(v@ =~= inline_git_blame_section_spec());
    v
}

/// The "Git 追溯面板" section.
pub open spec fn git_blame_view_section_spec() -> Seq<PageItem> {
    seq![
        PageItem::SectionHeader("Git 追溯面板"),
        PageItem::Setting(SettingItemInfo { title: "显示头像", description: "显示提交作者的头像。", json_path: Some("git.blame.show_avatar"), files: SettingFiles::User, unimplemented: false }),
    ]
}

fn git_blame_view_section() -> (r: Vec<PageItem>)
    ensures
        r@ == git_blame_view_section_spec(),
{
    let mut v: Vec<PageItem> = Vec::new();
    v.push(PageItem::SectionHeader("Git 追溯面板"));
    v.push(PageItem::Setting(SettingItemInfo { title: "显示头像", description: "显示提交作者的头像。", json_path: Some("git.blame.show_avatar"), files: SettingFiles::User, unimplemented: false }));
    assert(v@ =~= git_blame_view_section_spec());
    v
}

/// The "分支选择器" section.
pub open spec fn branch_picker_section_spec() -> Seq<PageItem> {
    seq![
        PageItem::SectionHeader("分支选择器"),
        PageItem::Setting(SettingItemInfo { title: "显示作者名称", description: "在分支选择器的提交信息中显示作者名称。", json_path: Some("git.branch_picker.show_author_name"), files: SettingFiles::User, unimplemented: false }),
    ]
}

fn branch_picker_section() -> (r: Vec<PageItem>)
    ensures
        r@ == branch_picker_section_spec(),
{
    let mut v: Vec<PageItem> = Vec::new();
    v.push(PageItem::SectionHeader("分支选择器"));
    v.push(PageItem::Setting(SettingItemInfo { title: "显示作者名称", description: "在分支选择器的提交信息中显示作者名称。", json_path: Some("git.branch_picker.show_author_name"), files: SettingFiles::User, unimplemented: false }));
    assert(v@ =~= branch_picker_section_spec());
    v
}

/// The "Git 变更块" section.
pub open spec fn git_hunks_section_spec() -> Seq<PageItem> {
    seq![
        PageItem::SectionHeader("Git 变更块"),
        PageItem::Setting(SettingItemInfo { title: "变更块样式", description: "编辑器中 Git 变更块的视觉显示方式。", json_path: Some("git.hunk_style"), files: SettingFiles::User, unimplemented: false }),
        PageItem::Setting(SettingItemInfo { title: "路径显示样式", description: "在 Git 视图中优先显示文件名还是完整路径。", json_path: Some("git.path_style"), files: SettingFiles::User, unimplemented: false }),
    ]
}

fn git_hunks_section() -> (r: Vec<PageItem>)
    ensures
        r@ == git_hunks_section_spec(),
{
    let mut v: Vec<PageItem> = Vec::new();
    v.push(PageItem::SectionHeader("Git 变更块"));
    v.push(PageItem::Setting(SettingItemInfo { title: "变更块样式", description: "编辑器中 Git 变更块的视觉显示方式。", json_path: Some("git.hunk_style"), files: SettingFiles::User, unimplemented: false }));
    v.push(PageItem::Setting(SettingItemInfo { title: "路径显示样式", description: "在 Git 视图中优先显示文件名还是完整路径。", json_path: Some("git.path_style"), files: SettingFiles::User, unimplemented: false }));
    assert(v@ =~= git_hunks_section_spec());
    v
}

/// The entries of the "版本控制" page.
pub open spec fn version_control_page_spec() -> Seq<PageItem> {
    git_integration_section_spec()
        + git_gutter_section_spec()
        + inline_git_blame_section_spec()
        + git_blame_view_section_spec()
        + branch_picker_section_spec()
        + git_hunks_section_spec()
}

/// The entries of the "版本控制" page.
pub fn version_control_page_items() -> (r: Vec<PageItem>)
    ensures
        r@ == version_control_page_spec(),
{
    let mut items = git_integration_section();
    let mut next = git_gutter_section();
    items.append(&mut next);
    let mut next = inline_git_blame_section();
    items.append(&mut next);
    let mut next = git_blame_view_section();
    items.append(&mut next);
    let mut next = branch_picker_section();
    items.append(&mut next);
    let mut next = git_hunks_section();
    items.append(&mut next);
    items
}

/// No two entries of `version_control_page_spec` share a JSON path.
pub proof fn lemma_version_control_page_paths_distinct()
    ensures
        json_paths_distinct(version_control_page_spec()),
{
}

} // verus!
