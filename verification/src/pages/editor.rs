use vstd::prelude::*;
use crate::page_model::{PageItem, SettingItemInfo, SubPageInfo, SubPageType, ActionInfo, SettingFiles, json_paths_distinct};
use crate::page_model::{json_paths_disjoint, lemma_distinct_concat};
use crate::pages::language_settings::{language_settings_items, language_settings_spec, lemma_language_settings_paths_distinct};

verus! {

/// The "自动保存" section.
pub open spec fn auto_save_section_spec() -> Seq<PageItem> {
    seq![
        PageItem::SectionHeader("自动保存"),
        PageItem::VariantPicker(SettingItemInfo { title: "自动保存模式", description: "何时自动保存缓冲区更改。", json_path: Some("autosave$"), files: SettingFiles::User, unimplemented: false }),
        PageItem::VariantSetting("AfterDelay", SettingItemInfo { title: "延迟（毫秒）", description: "闲置指定时间后保存（单位：毫秒）。", json_path: Some("autosave.after_delay.milliseconds"), files: SettingFiles::User, unimplemented: false }),
    ]
}

fn auto_save_section() -> (r: Vec<PageItem>)
    ensures
        r@ == auto_save_section_spec(),
{
    let mut v: Vec<PageItem> = Vec::new();
    v.push(PageItem::SectionHeader("自动保存"));
    v.push(PageItem::VariantPicker(SettingItemInfo { title: "自动保存模式", description: "何时自动保存缓冲区更改。", json_path: Some("autosave$"), files: SettingFiles::User, unimplemented: false }));
    v.push(PageItem::VariantSetting("AfterDelay", SettingItemInfo { title: "延迟（毫秒）", description: "闲置指定时间后保存（单位：毫秒）。", json_path: Some("autosave.after_delay.milliseconds"), files: SettingFiles::User, unimplemented: false }));
    assert(v@ =~= auto_save_section_spec());
    v
}

/// The "按键提示菜单" section.
pub open spec fn which_key_section_spec() -> Seq<PageItem> {
    seq![
        PageItem::SectionHeader("按键提示菜单"),
        PageItem::Setting(SettingItemInfo { title: "显示按键提示菜单", description: "在多按键绑定等待时显示匹配的按键提示菜单。", json_path: Some("which_key.enabled"), files: SettingFiles::User, unimplemented: false }),
        PageItem::Setting(SettingItemInfo { title: "菜单延迟", description: "按键提示菜单显示前的延迟（毫秒）。", json_path: Some("which_key.delay_ms"), files: SettingFiles::User, unimplemented: false }),
    ]
}

fn which_key_section() -> (r: Vec<PageItem>)
    ensures
        r@ == which_key_section_spec(),
{
    let mut v: Vec<PageItem> = Vec::new();
    v.push(PageItem::SectionHeader("按键提示菜单"));
    v.push(PageItem::Setting(SettingItemInfo { title: "显示按键提示菜单", description: "在多按键绑定等待时显示匹配的按键提示菜单。", json_path: Some("which_key.enabled"), files: SettingFiles::User, unimplemented: false }));
    v.push(PageItem::Setting(SettingItemInfo { title: "菜单延迟", description: "按键提示菜单显示前的延迟（毫秒）。", json_path: Some("which_key.delay_ms"), files: SettingFiles::User, unimplemented: false }));
    assert(v@ =~= which_key_section_spec());
    v
}

/// The "多缓冲区" section.
pub open spec fn multibuffer_section_spec() -> Seq<PageItem> {
    seq![
        PageItem::SectionHeader("多缓冲区"),
        PageItem::Setting(SettingItemInfo { title: "多缓冲区双击行为", description: "在多缓冲区的摘录中双击时执行的操作。", json_path: Some("double_click_in_multibuffer"), files: SettingFiles::User, unimplemented: false }),
        PageItem::Setting(SettingItemInfo { title: "默认展开摘录行数", description: "多缓冲区摘录默认展开的行数。", json_path: Some("expand_excerpt_lines"), files: SettingFiles::User, unimplemented: false }),
        PageItem::Setting(SettingItemInfo { title: "摘录上下文行数", description: "多缓冲区摘录默认提供的上下文行数。", json_path: Some("excerpt_context_lines"), files: SettingFiles::User, unimplemented: false }),
        PageItem::Setting(SettingItemInfo { title: "大纲默认展开深度", description: "当前文件中大纲项目默认展开的深度。", json_path: Some("outline_panel.expand_outlines_with_depth"), files: SettingFiles::User, unimplemented: false }),
        PageItem::Setting(SettingItemInfo { title: "差异视图样式", description: "编辑器中差异内容的显示方式。", json_path: Some("diff_view_style"), files: SettingFiles::User, unimplemented: false }),
        PageItem::Setting(SettingItemInfo { title: "最小分栏差异宽度", description: "启用分栏差异视图的最小宽度（列）。编辑器更窄时自动切换为统一视图。设为 0 禁用。", json_path: Some("minimum_split_diff_width"), files: SettingFiles::User, unimplemented: false }),
    ]
}

fn multibuffer_section() -> (r: Vec<PageItem>)
    ensures
        r@ == multibuffer_section_spec(),
{
    let mut v: Vec<PageItem> = Vec::new();
    v.push(PageItem::SectionHeader("多缓冲区"));
    v.push(PageItem::Setting(SettingItemInfo { title: "多缓冲区双击行为", description: "在多缓冲区的摘录中双击时执行的操作。", json_path: Some("double_click_in_multibuffer"), files: SettingFiles::User, unimplemented: false }));
    v.push(PageItem::Setting(SettingItemInfo { title: "默认展开摘录行数", description: "多缓冲区摘录默认展开的行数。", json_path: Some("expand_excerpt_lines"), files: SettingFiles::User, unimplemented: false }));
    v.push(PageItem::Setting(SettingItemInfo { title: "摘录上下文行数", description: "多缓冲区摘录默认提供的上下文行数。", json_path: Some("excerpt_context_lines"), files: SettingFiles::User, unimplemented: false }));
    v.push(PageItem::Setting(SettingItemInfo { title: "大纲默认展开深度", description: "当前文件中大纲项目默认展开的深度。", json_path: Some("outline_panel.expand_outlines_with_depth"), files: SettingFiles::User, unimplemented: false }));
    v.push(PageItem::Setting(SettingItemInfo { title: "差异视图样式", description: "编辑器中差异内容的显示方式。", json_path: Some("diff_view_style"), files: SettingFiles::User, unimplemented: false }));
    v.push(PageItem::Setting(SettingItemInfo { title: "最小分栏差异宽度", description: "启用分栏差异视图的最小宽度（列）。编辑器更窄时自动切换为统一视图。设为 0 禁用。", json_path: Some("minimum_split_diff_width"), files: SettingFiles::User, unimplemented: false }));
    assert(v@ =~= multibuffer_section_spec());
    v
}

/// The "滚动" section.
pub open spec fn scrolling_section_spec() -> Seq<PageItem> {
    seq![
        PageItem::SectionHeader("滚动"),
        PageItem::Setting(SettingItemInfo { title: "滚动超过最后一行", description: "编辑器是否允许滚动到最后一行之后。", json_path: Some("scroll_beyond_last_line"), files: SettingFiles::User, unimplemented: false }),
        PageItem::Setting(SettingItemInfo { title: "垂直滚动边距", description: "自动滚动时，光标上下保留的行数。", json_path: Some("vertical_scroll_margin"), files: SettingFiles::User, unimplemented: false }),
        PageItem::Setting(SettingItemInfo { title: "水平滚动边距", description: "鼠标滚动时，光标左右保留的字符数。", json_path: Some("horizontal_scroll_margin"), files: SettingFiles::User, unimplemented: false }),
        PageItem::Setting(SettingItemInfo { title: "滚动灵敏度", description: "水平和垂直滚动的灵敏度系数。", json_path: Some("scroll_sensitivity"), files: SettingFiles::User, unimplemented: false }),
        PageItem::Setting(SettingItemInfo { title: "鼠标滚轮缩放", description: "按住主修饰键时，是否通过鼠标滚轮缩放编辑器字号。", json_path: Some("mouse_wheel_zoom"), files: SettingFiles::User, unimplemented: false }),
        PageItem::Setting(SettingItemInfo { title: "快速滚动灵敏度", description: "水平和垂直快速滚动的灵敏度系数。", json_path: Some("fast_scroll_sensitivity"), files: SettingFiles::User, unimplemented: false }),
        PageItem::Setting(SettingItemInfo { title: "点击自动滚动", description: "点击可见文本区域边缘时是否滚动。", json_path: Some("autoscroll_on_clicks"), files: SettingFiles::User, unimplemented: false }),
        PageItem::Setting(SettingItemInfo { title: "粘性滚动", description: "是否将作用域固定在编辑器顶部。", json_path: Some("sticky_scroll.enabled"), files: SettingFiles::User, unimplemented: false }),
    ]
}

fn scrolling_section() -> (r: Vec<PageItem>)
    ensures
        r@ == scrolling_section_spec(),
{
    let mut v: Vec<PageItem> = Vec::new();
    v.push(PageItem::SectionHeader("滚动"));
    v.push(PageItem::Setting(SettingItemInfo { title: "滚动超过最后一行", description: "编辑器是否允许滚动到最后一行之后。", json_path: Some("scroll_beyond_last_line"), files: SettingFiles::User, unimplemented: false }));
    v.push(PageItem::Setting(SettingItemInfo { title: "垂直滚动边距", description: "自动滚动时，光标上下保留的行数。", json_path: Some("vertical_scroll_margin"), files: SettingFiles::User, unimplemented: false }));
    v.push(PageItem::Setting(SettingItemInfo { title: "水平滚动边距", description: "鼠标滚动时，光标左右保留的字符数。", json_path: Some("horizontal_scroll_margin"), files: SettingFiles::User, unimplemented: false }));
    v.push(PageItem::Setting(SettingItemInfo { title: "滚动灵敏度", description: "水平和垂直滚动的灵敏度系数。", json_path: Some("scroll_sensitivity"), files: SettingFiles::User, unimplemented: false }));
    v.push(PageItem::Setting(SettingItemInfo { title: "鼠标滚轮缩放", description: "按住主修饰键时，是否通过鼠标滚轮缩放编辑器字号。", json_path: Some("mouse_wheel_zoom"), files: SettingFiles::User, unimplemented: false }));
    v.push(PageItem::Setting(SettingItemInfo { title: "快速滚动灵敏度", description: "水平和垂直快速滚动的灵敏度系数。", json_path: Some("fast_scroll_sensitivity"), files: SettingFiles::User, unimplemented: false }));
    v.push(PageItem::Setting(SettingItemInfo { title: "点击自动滚动", description: "点击可见文本区域边缘时是否滚动。", json_path: Some("autoscroll_on_clicks"), files: SettingFiles::User, unimplemented: false }));
    v.push(PageItem::Setting(SettingItemInfo { title: "粘性滚动", description: "是否将作用域固定在编辑器顶部。", json_path: Some("sticky_scroll.enabled"), files: SettingFiles::User, unimplemented: false }));
    assert(v@ =~= scrolling_section_spec());
    v
}

/// The "函数签名提示" section.
pub open spec fn signature_help_section_spec() -> Seq<PageItem> {
    seq![
        PageItem::SectionHeader("函数签名提示"),
        PageItem::Setting(SettingItemInfo { title: "自动显示签名提示", description: "自动弹出函数签名提示框。", json_path: Some("auto_signature_help"), files: SettingFiles::User, unimplemented: false }),
        PageItem::Setting(SettingItemInfo { title: "编辑后显示签名提示", description: "插入补全或括号对后显示签名提示框。", json_path: Some("show_signature_help_after_edits"), files: SettingFiles::User, unimplemented: false }),
        PageItem::Setting(SettingItemInfo { title: "代码片段排序", description: "代码片段相对于其他补全项的排序方式。", json_path: Some("snippet_sort_order"), files: SettingFiles::User, unimplemented: false }),
    ]
}

fn signature_help_section() -> (r: Vec<PageItem>)
    ensures
        r@ == signature_help_section_spec(),
{
    let mut v: Vec<PageItem> = Vec::new();
    v.push(PageItem::SectionHeader("函数签名提示"));
    v.push(PageItem::Setting(SettingItemInfo { title: "自动显示签名提示", description: "自动弹出函数签名提示框。", json_path: Some("auto_signature_help"), files: SettingFiles::User, unimplemented: false }));
    v.push(PageItem::Setting(SettingItemInfo { title: "编辑后显示签名提示", description: "插入补全或括号对后显示签名提示框。", json_path: Some("show_signature_help_after_edits"), files: SettingFiles::User, unimplemented: false }));
    v.push(PageItem::Setting(SettingItemInfo { title: "代码片段排序", description: "代码片段相对于其他补全项的排序方式。", json_path: Some("snippet_sort_order"), files: SettingFiles::User, unimplemented: false }));
    assert(v@ =~= signature_help_section_spec());
    v
}

/// The "悬停提示框" section.
pub open spec fn hover_popover_section_spec() -> Seq<PageItem> {
    seq![
        PageItem::SectionHeader("悬停提示框"),
        PageItem::Setting(SettingItemInfo { title: "启用", description: "鼠标悬停在编辑器符号上时显示信息提示框。", json_path: Some("hover_popover_enabled"), files: SettingFiles::User, unimplemented: false }),
        PageItem::Setting(SettingItemInfo { title: "显示延迟", description: "显示信息提示框前的等待时间（毫秒）。", json_path: Some("hover_popover_delay"), files: SettingFiles::User, unimplemented: false }),
        PageItem::Setting(SettingItemInfo { title: "粘性提示", description: "鼠标向提示框移动时是否保持显示，允许交互内容。", json_path: Some("hover_popover_sticky"), files: SettingFiles::User, unimplemented: false }),
        PageItem::Setting(SettingItemInfo { title: "隐藏延迟", description: "鼠标移开后隐藏提示框的等待时间（毫秒）。", json_path: Some("hover_popover_hiding_delay"), files: SettingFiles::User, unimplemented: false }),
    ]
}

fn hover_popover_section() -> (r: Vec<PageItem>)
    ensures
        r@ == hover_popover_section_spec(),
{
    let mut v: Vec<PageItem> = Vec::new();
    v.push(PageItem::SectionHeader("悬停提示框"));
    v.push(PageItem::Setting(SettingItemInfo { title: "启用", description: "鼠标悬停在编辑器符号上时显示信息提示框。", json_path: Some("hover_popover_enabled"), files: SettingFiles::User, unimplemented: false }));
    v.push(PageItem::Setting(SettingItemInfo { title: "显示延迟", description: "显示信息提示框前的等待时间（毫秒）。", json_path: Some("hover_popover_delay"), files: SettingFiles::User, unimplemented: false }));
    v.push(PageItem::Setting(SettingItemInfo { title: "粘性提示", description: "鼠标向提示框移动时是否保持显示，允许交互内容。", json_path: Some("hover_popover_sticky"), files: SettingFiles::User, unimplemented: false }));
    v.push(PageItem::Setting(SettingItemInfo { title: "隐藏延迟", description: "鼠标移开后隐藏提示框的等待时间（毫秒）。", json_path: Some("hover_popover_hiding_delay"), files: SettingFiles::User, unimplemented: false }));
    assert(v@ =~= hover_popover_section_spec());
    v
}

/// The "拖拽选择" section.
pub open spec fn drag_and_drop_selection_section_spec() -> Seq<PageItem> {
    seq![
        PageItem::SectionHeader("拖拽选择"),
        PageItem::Setting(SettingItemInfo { title: "启用", description: "启用拖拽选择功能。", json_path: Some("drag_and_drop_selection.enabled"), files: SettingFiles::User, unimplemented: false }),
        PageItem::Setting(SettingItemInfo { title: "延迟", description: "拖拽选择开始前的延迟（毫秒）。", json_path: Some("drag_and_drop_selection.delay"), files: SettingFiles::User, unimplemented: false }),
    ]
}

fn drag_and_drop_selection_section() -> (r: Vec<PageItem>)
    ensures
        r@ == drag_and_drop_selection_section_spec(),
{
    let mut v: Vec<PageItem> = Vec::new();
    v.push(PageItem::SectionHeader("拖拽选择"));
    v.push(PageItem::Setting(SettingItemInfo { title: "启用", description: "启用拖拽选择功能。", json_path: Some("drag_and_drop_selection.enabled"), files: SettingFiles::User, unimplemented: false }));
    v.push(PageItem::Setting(SettingItemInfo { title: "延迟", description: "拖拽选择开始前的延迟（毫秒）。", json_path: Some("drag_and_drop_selection.delay"), files: SettingFiles::User, unimplemented: false }));
    assert(v@ =~= drag_and_drop_selection_section_spec());
    v
}

/// The "行号栏" section.
pub open spec fn gutter_section_spec() -> Seq<PageItem> {
    seq![
        PageItem::SectionHeader("行号栏"),
        PageItem::Setting(SettingItemInfo { title: "显示行号", description: "在行号栏中显示行号。", json_path: Some("gutter.line_numbers"), files: SettingFiles::User, unimplemented: false }),
        PageItem::Setting(SettingItemInfo { title: "相对行号", description: "控制行号栏的行号显示方式。disabled：绝对行号；enabled：相对行号；wrapped：所有行显示相对行号。", json_path: Some("relative_line_numbers"), files: SettingFiles::User, unimplemented: false }),
        PageItem::Setting(SettingItemInfo { title: "显示可运行项", description: "在行号栏显示可运行按钮。", json_path: Some("gutter.runnables"), files: SettingFiles::User, unimplemented: false }),
        PageItem::Setting(SettingItemInfo { title: "显示断点", description: "在行号栏显示断点。", json_path: Some("gutter.breakpoints"), files: SettingFiles::User, unimplemented: false }),
        PageItem::Setting(SettingItemInfo { title: "显示书签", description: "在行号栏显示书签。", json_path: Some("gutter.bookmarks"), files: SettingFiles::User, unimplemented: false }),
        PageItem::Setting(SettingItemInfo { title: "显示折叠控件", description: "在行号栏显示代码折叠控件。", json_path: Some("gutter.folds"), files: SettingFiles::User, unimplemented: false }),
        PageItem::Setting(SettingItemInfo { title: "行号最小位数", description: "行号栏预留的最小字符宽度。", json_path: Some("gutter.min_line_number_digits"), files: SettingFiles::User, unimplemented: false }),
        PageItem::Setting(SettingItemInfo { title: "行内代码操作", description: "在缓冲区行首显示代码操作按钮。", json_path: Some("inline_code_actions"), files: SettingFiles::User, unimplemented: false }),
    ]
}

fn gutter_section() -> (r: Vec<PageItem>)
    ensures
        r@ == gutter_section_spec(),
{
    let mut v: Vec<PageItem> = Vec::new();
    v.push(PageItem::SectionHeader("行号栏"));
    v.push(PageItem::Setting(SettingItemInfo { title: "显示行号", description: "在行号栏中显示行号。", json_path: Some("gutter.line_numbers"), files: SettingFiles::User, unimplemented: false }));
    v.push(PageItem::Setting(SettingItemInfo { title: "相对行号", description: "控制行号栏的行号显示方式。disabled：绝对行号；enabled：相对行号；wrapped：所有行显示相对行号。", json_path: Some("relative_line_numbers"), files: SettingFiles::User, unimplemented: false }));
    v.push(PageItem::Setting(SettingItemInfo { title: "显示可运行项", description: "在行号栏显示可运行按钮。", json_path: Some("gutter.runnables"), files: SettingFiles::User, unimplemented: false }));
    v.push(PageItem::Setting(SettingItemInfo { title: "显示断点", description: "在行号栏显示断点。", json_path: Some("gutter.breakpoints"), files: SettingFiles::User, unimplemented: false }));
    v.push(PageItem::Setting(SettingItemInfo { title: "显示书签", description: "在行号栏显示书签。", json_path: Some("gutter.bookmarks"), files: SettingFiles::User, unimplemented: false }));
    v.push(PageItem::Setting(SettingItemInfo { title: "显示折叠控件", description: "在行号栏显示代码折叠控件。", json_path: Some("gutter.folds"), files: SettingFiles::User, unimplemented: false }));
    v.push(PageItem::Setting(SettingItemInfo { title: "行号最小位数", description: "行号栏预留的最小字符宽度。", json_path: Some("gutter.min_line_number_digits"), files: SettingFiles::User, unimplemented: false }));
    v.push(PageItem::Setting(SettingItemInfo { title: "行内代码操作", description: "在缓冲区行首显示代码操作按钮。", json_path: Some("inline_code_actions"), files: SettingFiles::User, unimplemented: false }));
    assert(v@ =~= gutter_section_spec());
    v
}

/// The "滚动条" section.
pub open spec fn scrollbar_section_spec() -> Seq<PageItem> {
    seq![
        PageItem::SectionHeader("滚动条"),
        PageItem::Setting(SettingItemInfo { title: "显示时机", description: "编辑器中滚动条的显示时机。", json_path: Some("scrollbar"), files: SettingFiles::User, unimplemented: false }),
        PageItem::Setting(SettingItemInfo { title: "显示光标位置", description: "在滚动条中显示光标位置。", json_path: Some("scrollbar.cursors"), files: SettingFiles::User, unimplemented: false }),
        PageItem::Setting(SettingItemInfo { title: "显示Git差异", description: "在滚动条中显示Git差异标记。", json_path: Some("scrollbar.git_diff"), files: SettingFiles::User, unimplemented: false }),
        PageItem::Setting(SettingItemInfo { title: "显示搜索结果", description: "在滚动条中显示缓冲区搜索结果标记。", json_path: Some("scrollbar.search_results"), files: SettingFiles::User, unimplemented: false }),
        PageItem::Setting(SettingItemInfo { title: "显示选中文本", description: "在滚动条中显示选中文本的所有位置。", json_path: Some("scrollbar.selected_text"), files: SettingFiles::User, unimplemented: false }),
        PageItem::Setting(SettingItemInfo { title: "显示选中符号", description: "在滚动条中显示选中符号的所有位置。", json_path: Some("scrollbar.selected_symbol"), files: SettingFiles::User, unimplemented: false }),
        PageItem::Setting(SettingItemInfo { title: "显示诊断信息", description: "在滚动条中显示的诊断信息类型。", json_path: Some("scrollbar.diagnostics"), files: SettingFiles::User, unimplemented: false }),
        PageItem::Setting(SettingItemInfo { title: "水平滚动条", description: "禁用时强制关闭水平滚动条。", json_path: Some("scrollbar.axes.horizontal"), files: SettingFiles::User, unimplemented: false }),
        PageItem::Setting(SettingItemInfo { title: "垂直滚动条", description: "禁用时强制关闭垂直滚动条。", json_path: Some("scrollbar.axes.vertical"), files: SettingFiles::User, unimplemented: false }),
    ]
}

fn scrollbar_section() -> (r: Vec<PageItem>)
    ensures
        r@ == scrollbar_section_spec(),
{
    let mut v: Vec<PageItem> = Vec::new();
    v.push(PageItem::SectionHeader("滚动条"));
    v.push(PageItem::Setting(SettingItemInfo { title: "显示时机", description: "编辑器中滚动条的显示时机。", json_path: Some("scrollbar"), files: SettingFiles::User, unimplemented: false }));
    v.push(PageItem::Setting(SettingItemInfo { title: "显示光标位置", description: "在滚动条中显示光标位置。", json_path: Some("scrollbar.cursors"), files: SettingFiles::User, unimplemented: false }));
    v.push(PageItem::Setting(SettingItemInfo { title: "显示Git差异", description: "在滚动条中显示Git差异标记。", json_path: Some("scrollbar.git_diff"), files: SettingFiles::User, unimplemented: false }));
    v.push(PageItem::Setting(SettingItemInfo { title: "显示搜索结果", description: "在滚动条中显示缓冲区搜索结果标记。", json_path: Some("scrollbar.search_results"), files: SettingFiles::User, unimplemented: false }));
    v.push(PageItem::Setting(SettingItemInfo { title: "显示选中文本", description: "在滚动条中显示选中文本的所有位置。", json_path: Some("scrollbar.selected_text"), files: SettingFiles::User, unimplemented: false }));
    v.push(PageItem::Setting(SettingItemInfo { title: "显示选中符号", description: "在滚动条中显示选中符号的所有位置。", json_path: Some("scrollbar.selected_symbol"), files: SettingFiles::User, unimplemented: false }));
    v.push(PageItem::Setting(SettingItemInfo { title: "显示诊断信息", description: "在滚动条中显示的诊断信息类型。", json_path: Some("scrollbar.diagnostics"), files: SettingFiles::User, unimplemented: false }));
    v.push(PageItem::Setting(SettingItemInfo { title: "水平滚动条", description: "禁用时强制关闭水平滚动条。", json_path: Some("scrollbar.axes.horizontal"), files: SettingFiles::User, unimplemented: false }));
    v.push(PageItem::Setting(SettingItemInfo { title: "垂直滚动条", description: "禁用时强制关闭垂直滚动条。", json_path: Some("scrollbar.axes.vertical"), files: SettingFiles::User, unimplemented: false }));
    assert(v@ =~= scrollbar_section_spec());
    v
}

/// The "小地图" section.
pub open spec fn minimap_section_spec() -> Seq<PageItem> {
    seq![
        PageItem::SectionHeader("小地图"),
        PageItem::Setting(SettingItemInfo { title: "显示时机", description: "编辑器中小地图的显示时机。", json_path: Some("minimap.show"), files: SettingFiles::User, unimplemented: false }),
        PageItem::Setting(SettingItemInfo { title: "显示位置", description: "小地图在编辑器中的显示位置。", json_path: Some("minimap.display_in"), files: SettingFiles::User, unimplemented: false }),
        PageItem::Setting(SettingItemInfo { title: "滑块显示", description: "小地图滑块的显示时机。", json_path: Some("minimap.thumb"), files: SettingFiles::User, unimplemented: false }),
        PageItem::Setting(SettingItemInfo { title: "滑块边框", description: "小地图滚动条滑块的边框样式。", json_path: Some("minimap.thumb_border"), files: SettingFiles::User, unimplemented: false }),
        PageItem::Setting(SettingItemInfo { title: "当前行高亮", description: "小地图中当前行的高亮方式，未设置则继承编辑器配置。", json_path: Some("minimap.current_line_highlight"), files: SettingFiles::User, unimplemented: false }),
        PageItem::Setting(SettingItemInfo { title: "最大显示列数", description: "小地图中显示的最大列数。", json_path: Some("minimap.max_width_columns"), files: SettingFiles::User, unimplemented: false }),
    ]
}

fn minimap_section() -> (r: Vec<PageItem>)
    ensures
        r@ == minimap_section_spec(),
{
    let mut v: Vec<PageItem> = Vec::new();
    v.push(PageItem::SectionHeader("小地图"));
    v.push(PageItem::Setting(SettingItemInfo { title: "显示时机", description: "编辑器中小地图的显示时机。", json_path: Some("minimap.show"), files: SettingFiles::User, unimplemented: false }));
    v.push(PageItem::Setting(SettingItemInfo { title: "显示位置", description: "小地图在编辑器中的显示位置。", json_path: Some("minimap.display_in"), files: SettingFiles::User, unimplemented: false }));
    v.push(PageItem::Setting(SettingItemInfo { title: "滑块显示", description: "小地图滑块的显示时机。", json_path: Some("minimap.thumb"), files: SettingFiles::User, unimplemented: false }));
    v.push(PageItem::Setting(SettingItemInfo { title: "滑块边框", description: "小地图滚动条滑块的边框样式。", json_path: Some("minimap.thumb_border"), files: SettingFiles::User, unimplemented: false }));
    v.push(PageItem::Setting(SettingItemInfo { title: "当前行高亮", description: "小地图中当前行的高亮方式，未设置则继承编辑器配置。", json_path: Some("minimap.current_line_highlight"), files: SettingFiles::User, unimplemented: false }));
    v.push(PageItem::Setting(SettingItemInfo { title: "最大显示列数", description: "小地图中显示的最大列数。", json_path: Some("minimap.max_width_columns"), files: SettingFiles::User, unimplemented: false }));
    assert(v@ =~= minimap_section_spec());
    v
}

/// The "工具栏" section.
pub open spec fn toolbar_section_spec() -> Seq<PageItem> {
    seq![
        PageItem::SectionHeader("工具栏"),
        PageItem::Setting(SettingItemInfo { title: "路径导航", description: "显示文件路径导航。", json_path: Some("toolbar.breadcrumbs"), files: SettingFiles::User, unimplemented: false }),
        PageItem::Setting(SettingItemInfo { title: "快捷操作", description: "显示快捷操作按钮（搜索、选择、编辑器控制等）。", json_path: Some("toolbar.quick_actions"), files: SettingFiles::User, unimplemented: false }),
        PageItem::Setting(SettingItemInfo { title: "选择菜单", description: "在编辑器工具栏显示选择菜单。", json_path: Some("toolbar.selections_menu"), files: SettingFiles::User, unimplemented: false }),
        PageItem::Setting(SettingItemInfo { title: "助手审阅", description: "在编辑器工具栏显示助手审阅按钮。", json_path: Some("toolbar.agent_review"), files: SettingFiles::User, unimplemented: false }),
        PageItem::Setting(SettingItemInfo { title: "代码操作", description: "在编辑器工具栏显示代码操作按钮。", json_path: Some("toolbar.code_actions"), files: SettingFiles::User, unimplemented: false }),
    ]
}

fn toolbar_section() -> (r: Vec<PageItem>)
    ensures
        r@ == toolbar_section_spec(),
{
    let mut v: Vec<PageItem> = Vec::new();
    v.push(PageItem::SectionHeader("工具栏"));
    v.push(PageItem::Setting(SettingItemInfo { title: "路径导航", description: "显示文件路径导航。", json_path: Some("toolbar.breadcrumbs"), files: SettingFiles::User, unimplemented: false }));
    v.push(PageItem::Setting(SettingItemInfo { title: "快捷操作", description: "显示快捷操作按钮（搜索、选择、编辑器控制等）。", json_path: Some("toolbar.quick_actions"), files: SettingFiles::User, unimplemented: false }));
    v.push(PageItem::Setting(SettingItemInfo { title: "选择菜单", description: "在编辑器工具栏显示选择菜单。", json_path: Some("toolbar.selections_menu"), files: SettingFiles::User, unimplemented: false }));
    v.push(PageItem::Setting(SettingItemInfo { title: "助手审阅", description: "在编辑器工具栏显示助手审阅按钮。", json_path: Some("toolbar.agent_review"), files: SettingFiles::User, unimplemented: false }));
    v.push(PageItem::Setting(SettingItemInfo { title: "代码操作", description: "在编辑器工具栏显示代码操作按钮。", json_path: Some("toolbar.code_actions"), files: SettingFiles::User, unimplemented: false }));
    assert(v@ =~= toolbar_section_spec());
    v
}

/// The "Vim" section.
pub open spec fn vim_settings_section_spec() -> Seq<PageItem> {
    seq![
        PageItem::SectionHeader("Vim"),
        PageItem::Setting(SettingItemInfo { title: "默认模式", description: "Vim启动时的默认模式。", json_path: Some("vim.default_mode"), files: SettingFiles::User, unimplemented: false }),
        PageItem::Setting(SettingItemInfo { title: "切换相对行号", description: "在Vim模式下切换相对行号显示。", json_path: Some("vim.toggle_relative_line_numbers"), files: SettingFiles::User, unimplemented: false }),
        PageItem::Setting(SettingItemInfo { title: "使用系统剪贴板", description: "控制Vim模式下使用系统剪贴板的时机。", json_path: Some("vim.use_system_clipboard"), files: SettingFiles::User, unimplemented: false }),
        PageItem::Setting(SettingItemInfo { title: "智能大小写查找", description: "在Vim模式下启用智能大小写搜索。", json_path: Some("vim.use_smartcase_find"), files: SettingFiles::User, unimplemented: false }),
        PageItem::Setting(SettingItemInfo { title: "全局替换默认", description: "启用后，:substitute 默认替换行内所有匹配项，g 标志反转此行为。", json_path: Some("vim.gdefault"), files: SettingFiles::User, unimplemented: false }),
        PageItem::Setting(SettingItemInfo { title: "复制高亮时长", description: "Vim模式下复制文本高亮持续时间（毫秒）。", json_path: Some("vim.highlight_on_yank_duration"), files: SettingFiles::User, unimplemented: false }),
        PageItem::Setting(SettingItemInfo { title: "正则搜索", description: "Vim搜索默认使用正则表达式。", json_path: Some("vim.use_regex_search"), files: SettingFiles::User, unimplemented: false }),
        PageItem::Setting(SettingItemInfo { title: "普通模式光标形状", description: "普通模式下的光标形状。", json_path: Some("vim.cursor_shape.normal"), files: SettingFiles::User, unimplemented: false }),
        PageItem::Setting(SettingItemInfo { title: "插入模式光标形状", description: "插入模式下的光标形状，继承则使用编辑器默认。", json_path: Some("vim.cursor_shape.insert"), files: SettingFiles::User, unimplemented: false }),
        PageItem::Setting(SettingItemInfo { title: "替换模式光标形状", description: "替换模式下的光标形状。", json_path: Some("vim.cursor_shape.replace"), files: SettingFiles::User, unimplemented: false }),
        PageItem::Setting(SettingItemInfo { title: "可视模式光标形状", description: "可视模式下的光标形状。", json_path: Some("vim.cursor_shape.visual"), files: SettingFiles::User, unimplemented: false }),
        PageItem::Setting(SettingItemInfo { title: "自定义双联字符", description: "Vim模式下的自定义双联字符映射。", json_path: Some("vim.custom_digraphs"), files: SettingFiles::User, unimplemented: true }),
    ]
}

fn vim_settings_section() -> (r: Vec<PageItem>)
    ensures
        r@ == vim_settings_section_spec(),
{
    let mut v: Vec<PageItem> = Vec::new();
    v.push(PageItem::SectionHeader("Vim"));
    v.push(PageItem::Setting(SettingItemInfo { title: "默认模式", description: "Vim启动时的默认模式。", json_path: Some("vim.default_mode"), files: SettingFiles::User, unimplemented: false }));
    v.push(PageItem::Setting(SettingItemInfo { title: "切换相对行号", description: "在Vim模式下切换相对行号显示。", json_path: Some("vim.toggle_relative_line_numbers"), files: SettingFiles::User, unimplemented: false }));
    v.push(PageItem::Setting(SettingItemInfo { title: "使用系统剪贴板", description: "控制Vim模式下使用系统剪贴板的时机。", json_path: Some("vim.use_system_clipboard"), files: SettingFiles::User, unimplemented: false }));
    v.push(PageItem::Setting(SettingItemInfo { title: "智能大小写查找", description: "在Vim模式下启用智能大小写搜索。", json_path: Some("vim.use_smartcase_find"), files: SettingFiles::User, unimplemented: false }));
    v.push(PageItem::Setting(SettingItemInfo { title: "全局替换默认", description: "启用后，:substitute 默认替换行内所有匹配项，g 标志反转此行为。", json_path: Some("vim.gdefault"), files: SettingFiles::User, unimplemented: false }));
    v.push(PageItem::Setting(SettingItemInfo { title: "复制高亮时长", description: "Vim模式下复制文本高亮持续时间（毫秒）。", json_path: Some("vim.highlight_on_yank_duration"), files: SettingFiles::User, unimplemented: false }));
    v.push(PageItem::Setting(SettingItemInfo { title: "正则搜索", description: "Vim搜索默认使用正则表达式。", json_path: Some("vim.use_regex_search"), files: SettingFiles::User, unimplemented: false }));
    v.push(PageItem::Setting(SettingItemInfo { title: "普通模式光标形状", description: "普通模式下的光标形状。", json_path: Some("vim.cursor_shape.normal"), files: SettingFiles::User, unimplemented: false }));
    v.push(PageItem::Setting(SettingItemInfo { title: "插入模式光标形状", description: "插入模式下的光标形状，继承则使用编辑器默认。", json_path: Some("vim.cursor_shape.insert"), files: SettingFiles::User, unimplemented: false }));
    v.push(PageItem::Setting(SettingItemInfo { title: "替换模式光标形状", description: "替换模式下的光标形状。", json_path: Some("vim.cursor_shape.replace"), files: SettingFiles::User, unimplemented: false }));
    v.push(PageItem::Setting(SettingItemInfo { title: "可视模式光标形状", description: "可视模式下的光标形状。", json_path: Some("vim.cursor_shape.visual"), files: SettingFiles::User, unimplemented: false }));
    v.push(PageItem::Setting(SettingItemInfo { title: "自定义双联字符", description: "Vim模式下的自定义双联字符映射。", json_path: Some("vim.custom_digraphs"), files: SettingFiles::User, unimplemented: true }));
    assert(v@ =~= vim_settings_section_spec());
    v
}

/// The entries of the "编辑器" page, ending with the language settings.
pub open spec fn editor_page_spec(has_active_language: bool) -> Seq<PageItem> {
    auto_save_section_spec()
        + which_key_section_spec()
        + multibuffer_section_spec()
        + scrolling_section_spec()
        + signature_help_section_spec()
        + hover_popover_section_spec()
        + drag_and_drop_selection_section_spec()
        + gutter_section_spec()
        + scrollbar_section_spec()
        + minimap_section_spec()
        + toolbar_section_spec()
        + vim_settings_section_spec()
        + language_settings_spec(has_active_language)
}

/// The entries of the "编辑器" page, ending with the language settings.
pub fn editor_page_items(has_active_language: bool) -> (r: Vec<PageItem>)
    ensures
        r@ == editor_page_spec(has_active_language),
{
    let mut items = auto_save_section();
    let mut next = which_key_section();
    items.append(&mut next);
    let mut next = multibuffer_section();
    items.append(&mut next);
    let mut next = scrolling_section();
    items.append(&mut next);
    let mut next = signature_help_section();
    items.append(&mut next);
    let mut next = hover_popover_section();
    items.append(&mut next);
    let mut next = drag_and_drop_selection_section();
    items.append(&mut next);
    let mut next = gutter_section();
    items.append(&mut next);
    let mut next = scrollbar_section();
    items.append(&mut next);
    let mut next = minimap_section();
    items.append(&mut next);
    let mut next = toolbar_section();
    items.append(&mut next);
    let mut next = vim_settings_section();
    items.append(&mut next);
    let mut next = language_settings_items(has_active_language);
    items.append(&mut next);
    items
}

/// The editor's own entries, before the language settings.
pub open spec fn editor_own_spec() -> Seq<PageItem> {
    auto_save_section_spec()
        + which_key_section_spec()
        + multibuffer_section_spec()
        + scrolling_section_spec()
        + signature_help_section_spec()
        + hover_popover_section_spec()
        + drag_and_drop_selection_section_spec()
        + gutter_section_spec()
        + scrollbar_section_spec()
        + minimap_section_spec()
        + toolbar_section_spec()
        + vim_settings_section_spec()
}

proof fn lemma_editor_own_distinct()
    ensures
        json_paths_distinct(editor_own_spec()),
{
}

#[verifier::rlimit(100)]
proof fn lemma_editor_language_disjoint(has_active_language: bool)
    ensures
        json_paths_disjoint(editor_own_spec(), language_settings_spec(has_active_language)),
{
    if has_active_language {
        assert(json_paths_disjoint(editor_own_spec(), language_settings_spec(true)));
    } else {
        assert(json_paths_disjoint(editor_own_spec(), language_settings_spec(false)));
    }
}

/// No two entries of `editor_page_spec` share a JSON path.
pub proof fn lemma_editor_page_paths_distinct(has_active_language: bool)
    ensures
        json_paths_distinct(editor_page_spec(has_active_language)),
{
    lemma_editor_own_distinct();
    lemma_language_settings_paths_distinct(has_active_language);
    lemma_editor_language_disjoint(has_active_language);
    lemma_distinct_concat(editor_own_spec(), language_settings_spec(has_active_language));
    assert(editor_page_spec(has_active_language) =~= editor_own_spec() + language_settings_spec(has_active_language));
}

} // verus!
