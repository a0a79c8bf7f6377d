use vstd::prelude::*;
use crate::page_model::{PageItem, SettingItemInfo, SubPageInfo, SubPageType, ActionInfo, SettingFiles, json_paths_distinct};

verus! {

/// The "状态栏" section.
pub open spec fn status_bar_section_spec() -> Seq<PageItem> {
    seq![
        PageItem::SectionHeader("状态栏"),
        PageItem::Setting(SettingItemInfo { title: "项目面板按钮", description: "在状态栏中显示项目面板按钮。", json_path: Some("project_panel.button"), files: SettingFiles::User, unimplemented: false }),
        PageItem::Setting(SettingItemInfo { title: "当前语言按钮", description: "在状态栏中显示当前使用的语言按钮。", json_path: Some("status_bar.active_language_button"), files: SettingFiles::User, unimplemented: false }),
        PageItem::Setting(SettingItemInfo { title: "当前编码按钮", description: "控制在状态栏中显示文件编码的时机。", json_path: Some("status_bar.active_encoding_button"), files: SettingFiles::User, unimplemented: false }),
        PageItem::Setting(SettingItemInfo { title: "光标位置按钮", description: "在状态栏中显示光标位置按钮。", json_path: Some("status_bar.cursor_position_button"), files: SettingFiles::User, unimplemented: false }),
        PageItem::Setting(SettingItemInfo { title: "终端按钮", description: "在状态栏中显示终端按钮。", json_path: Some("terminal.button"), files: SettingFiles::User, unimplemented: false }),
        PageItem::Setting(SettingItemInfo { title: "代码诊断按钮", description: "在状态栏中显示项目代码诊断按钮。", json_path: Some("diagnostics.button"), files: SettingFiles::User, unimplemented: false }),
        PageItem::Setting(SettingItemInfo { title: "项目搜索按钮", description: "在状态栏中显示项目搜索按钮。", json_path: Some("search.button"), files: SettingFiles::User, unimplemented: false }),
        PageItem::Setting(SettingItemInfo { title: "调试器按钮", description: "在状态栏中显示调试器按钮。", json_path: Some("debugger.button"), files: SettingFiles::User, unimplemented: false }),
        PageItem::Setting(SettingItemInfo { title: "当前文件名", description: "在状态栏中显示当前打开的文件名。", json_path: Some("status_bar.show_active_file"), files: SettingFiles::User, unimplemented: false }),
    ]
}

fn status_bar_section() -> (r: Vec<PageItem>)
    ensures
        r@ == status_bar_section_spec(),
{
    let mut v: Vec<PageItem> = Vec::new();
    v.push(PageItem::SectionHeader("状态栏"));
    v.push(PageItem::Setting(SettingItemInfo { title: "项目面板按钮", description: "在状态栏中显示项目面板按钮。", json_path: Some("project_panel.button"), files: SettingFiles::User, unimplemented: false }));
    v.push(PageItem::Setting(SettingItemInfo { title: "当前语言按钮", description: "在状态栏中显示当前使用的语言按钮。", json_path: Some("status_bar.active_language_button"), files: SettingFiles::User, unimplemented: false }));
    v.push(PageItem::Setting(SettingItemInfo { title: "当前编码按钮", description: "控制在状态栏中显示文件编码的时机。", json_path: Some("status_bar.active_encoding_button"), files: SettingFiles::User, unimplemented: false }));
    v.push(PageItem::Setting(SettingItemInfo { title: "光标位置按钮", description: "在状态栏中显示光标位置按钮。", json_path: Some("status_bar.cursor_position_button"), files: SettingFiles::User, unimplemented: false }));
    v.push(PageItem::Setting(SettingItemInfo { title: "终端按钮", description: "在状态栏中显示终端按钮。", json_path: Some("terminal.button"), files: SettingFiles::User, unimplemented: false }));
    v.push(PageItem::Setting(SettingItemInfo { title: "代码诊断按钮", description: "在状态栏中显示项目代码诊断按钮。", json_path: Some("diagnostics.button"), files: SettingFiles::User, unimplemented: false }));
    v.push(PageItem::Setting(SettingItemInfo { title: "项目搜索按钮", description: "在状态栏中显示项目搜索按钮。", json_path: Some("search.button"), files: SettingFiles::User, unimplemented: false }));
    v.push(PageItem::Setting(SettingItemInfo { title: "调试器按钮", description: "在状态栏中显示调试器按钮。", json_path: Some("debugger.button"), files: SettingFiles::User, unimplemented: false }));
    v.push(PageItem::Setting(SettingItemInfo { title: "当前文件名", description: "在状态栏中显示当前打开的文件名。", json_path: Some("status_bar.show_active_file"), files: SettingFiles::User, unimplemented: false }));
    assert(v@ =~= status_bar_section_spec());
    v
}

/// The "标题栏" section.
pub open spec fn title_bar_section_spec() -> Seq<PageItem> {
    seq![
        PageItem::SectionHeader("标题栏"),
        PageItem::Setting(SettingItemInfo { title: "显示分支状态图标", description: "在标题栏的分支图标上显示 Git 状态指示。", json_path: Some("title_bar.show_branch_status_icon"), files: SettingFiles::User, unimplemented: false }),
        PageItem::Setting(SettingItemInfo { title: "显示分支名称", description: "在标题栏中显示分支名称按钮。", json_path: Some("title_bar.show_branch_name"), files: SettingFiles::User, unimplemented: false }),
        PageItem::Setting(SettingItemInfo { title: "显示项目信息", description: "在标题栏中显示项目主机和名称。", json_path: Some("title_bar.show_project_items"), files: SettingFiles::User, unimplemented: false }),
        PageItem::Setting(SettingItemInfo { title: "显示新功能横幅", description: "在标题栏中显示新功能介绍横幅。", json_path: Some("title_bar.show_onboarding_banner"), files: SettingFiles::User, unimplemented: false }),
        PageItem::Setting(SettingItemInfo { title: "显示登录按钮", description: "在标题栏中显示登录按钮。", json_path: Some("title_bar.show_sign_in"), files: SettingFiles::User, unimplemented: false }),
        PageItem::Setting(SettingItemInfo { title: "显示用户菜单", description: "在标题栏中显示用户菜单按钮。", json_path: Some("title_bar.show_user_menu"), files: SettingFiles::User, unimplemented: false }),
        PageItem::Setting(SettingItemInfo { title: "显示用户头像", description: "在标题栏中显示用户头像。", json_path: Some("title_bar.show_user_picture"), files: SettingFiles::User, unimplemented: false }),
        PageItem::Setting(SettingItemInfo { title: "显示菜单", description: "在标题栏中显示菜单。", json_path: Some("title_bar.show_menus"), files: SettingFiles::User, unimplemented: false }),
        PageItem::VariantPicker(SettingItemInfo { title: "按钮布局", description: "（仅 Linux）选择标题栏中窗口控制按钮的排列方式。", json_path: Some("title_bar.button_layout$"), files: SettingFiles::User, unimplemented: false }),
        PageItem::VariantSetting("Custom", SettingItemInfo { title: "自定义按钮布局", description: "GNOME 风格布局字符串，例如 \"close:minimize,maximize\"。", json_path: Some("title_bar.button_layout"), files: SettingFiles::User, unimplemented: false }),
    ]
}

fn title_bar_section() -> (r: Vec<PageItem>)
    ensures
        r@ == title_bar_section_spec(),
{
    let mut v: Vec<PageItem> = Vec::new();
    v.push(PageItem::SectionHeader("标题栏"));
    v.push(PageItem::Setting(SettingItemInfo { title: "显示分支状态图标", description: "在标题栏的分支图标上显示 Git 状态指示。", json_path: Some("title_bar.show_branch_status_icon"), files: SettingFiles::User, unimplemented: false }));
    v.push(PageItem::Setting(SettingItemInfo { title: "显示分支名称", description: "在标题栏中显示分支名称按钮。", json_path: Some("title_bar.show_branch_name"), files: SettingFiles::User, unimplemented: false }));
    v.push(PageItem::Setting(SettingItemInfo { title: "显示项目信息", description: "在标题栏中显示项目主机和名称。", json_path: Some("title_bar.show_project_items"), files: SettingFiles::User, unimplemented: false }));
    v.push(PageItem::Setting(SettingItemInfo { title: "显示新功能横幅", description: "在标题栏中显示新功能介绍横幅。", json_path: Some("title_bar.show_onboarding_banner"), files: SettingFiles::User, unimplemented: false }));
    v.push(PageItem::Setting(SettingItemInfo { title: "显示登录按钮", description: "在标题栏中显示登录按钮。", json_path: Some("title_bar.show_sign_in"), files: SettingFiles::User, unimplemented: false }));
    v.push(PageItem::Setting(SettingItemInfo { title: "显示用户菜单", description: "在标题栏中显示用户菜单按钮。", json_path: Some("title_bar.show_user_menu"), files: SettingFiles::User, unimplemented: false }));
    v.push(PageItem::Setting(SettingItemInfo { title: "显示用户头像", description: "在标题栏中显示用户头像。", json_path: Some("title_bar.show_user_picture"), files: SettingFiles::User, unimplemented: false }));
    v.push(PageItem::Setting(SettingItemInfo { title: "显示菜单", description: "在标题栏中显示菜单。", json_path: Some("title_bar.show_menus"), files: SettingFiles::User, unimplemented: false }));
    v.push(PageItem::VariantPicker(SettingItemInfo { title: "按钮布局", description: "（仅 Linux）选择标题栏中窗口控制按钮的排列方式。", json_path: Some("title_bar.button_layout$"), files: SettingFiles::User, unimplemented: false }));
    v.push(PageItem::VariantSetting("Custom", SettingItemInfo { title: "自定义按钮布局", description: "GNOME 风格布局字符串，例如 \"close:minimize,maximize\"。", json_path: Some("title_bar.button_layout"), files: SettingFiles::User, unimplemented: false }));
    assert(v@ =~= title_bar_section_spec());
    v
}

/// The "标签栏" section.
pub open spec fn tab_bar_section_spec() -> Seq<PageItem> {
    seq![
        PageItem::SectionHeader("标签栏"),
        PageItem::Setting(SettingItemInfo { title: "显示标签栏", description: "在编辑器中显示标签栏。", json_path: Some("tab_bar.show"), files: SettingFiles::User, unimplemented: false }),
        PageItem::Setting(SettingItemInfo { title: "标签显示 Git 状态", description: "在标签项上显示文件的 Git 状态。", json_path: Some("tabs.git_status"), files: SettingFiles::User, unimplemented: false }),
        PageItem::Setting(SettingItemInfo { title: "标签显示文件图标", description: "在标签上显示对应文件的图标。", json_path: Some("tabs.file_icons"), files: SettingFiles::User, unimplemented: false }),
        PageItem::Setting(SettingItemInfo { title: "关闭按钮位置", description: "标签页中关闭按钮的位置。", json_path: Some("tabs.close_position"), files: SettingFiles::User, unimplemented: false }),
        PageItem::Setting(SettingItemInfo { title: "最大标签数量", description: "面板中最多打开的标签数，不会关闭未保存的标签。", json_path: Some("max_tabs"), files: SettingFiles::User, unimplemented: true }),
        PageItem::Setting(SettingItemInfo { title: "显示历史导航按钮", description: "在标签栏中显示前进/后退导航按钮。", json_path: Some("tab_bar.show_nav_history_buttons"), files: SettingFiles::User, unimplemented: false }),
        PageItem::Setting(SettingItemInfo { title: "显示标签栏功能按钮", description: "显示标签栏功能按钮（新建、分割面板、缩放）。", json_path: Some("tab_bar.show_tab_bar_buttons"), files: SettingFiles::User, unimplemented: false }),
        PageItem::Setting(SettingItemInfo { title: "固定标签独立排列", description: "将固定标签显示在普通标签上方的独立行中。", json_path: Some("tab_bar.show_pinned_tabs_in_separate_row"), files: SettingFiles::User, unimplemented: false }),
    ]
}

fn tab_bar_section() -> (r: Vec<PageItem>)
    ensures
        r@ == tab_bar_section_spec(),
{
    let mut v: Vec<PageItem> = Vec::new();
    v.push(PageItem::SectionHeader("标签栏"));
    v.push(PageItem::Setting(SettingItemInfo { title: "显示标签栏", description: "在编辑器中显示标签栏。", json_path: Some("tab_bar.show"), files: SettingFiles::User, unimplemented: false }));
    v.push(PageItem::Setting(SettingItemInfo { title: "标签显示 Git 状态", description: "在标签项上显示文件的 Git 状态。", json_path: Some("tabs.git_status"), files: SettingFiles::User, unimplemented: false }));
    v.push(PageItem::Setting(SettingItemInfo { title: "标签显示文件图标", description: "在标签上显示对应文件的图标。", json_path: Some("tabs.file_icons"), files: SettingFiles::User, unimplemented: false }));
    v.push(PageItem::Setting(SettingItemInfo { title: "关闭按钮位置", description: "标签页中关闭按钮的位置。", json_path: Some("tabs.close_position"), files: SettingFiles::User, unimplemented: false }));
    v.push(PageItem::Setting(SettingItemInfo { title: "最大标签数量", description: "面板中最多打开的标签数，不会关闭未保存的标签。", json_path: Some("max_tabs"), files: SettingFiles::User, unimplemented: true }));
    v.push(PageItem::Setting(SettingItemInfo { title: "显示历史导航按钮", description: "在标签栏中显示前进/后退导航按钮。", json_path: Some("tab_bar.show_nav_history_buttons"), files: SettingFiles::User, unimplemented: false }));
    v.push(PageItem::Setting(SettingItemInfo { title: "显示标签栏功能按钮", description: "显示标签栏功能按钮（新建、分割面板、缩放）。", json_path: Some("tab_bar.show_tab_bar_buttons"), files: SettingFiles::User, unimplemented: false }));
    v.push(PageItem::Setting(SettingItemInfo { title: "固定标签独立排列", description: "将固定标签显示在普通标签上方的独立行中。", json_path: Some("tab_bar.show_pinned_tabs_in_separate_row"), files: SettingFiles::User, unimplemented: false }));
    assert(v@ =~= tab_bar_section_spec());
    v
}

/// The "标签设置" section.
pub open spec fn tab_settings_section_spec() -> Seq<PageItem> {
    seq![
        PageItem::SectionHeader("标签设置"),
        PageItem::Setting(SettingItemInfo { title: "关闭后激活标签", description: "关闭当前标签后要激活的目标标签。", json_path: Some("tabs.activate_on_close"), files: SettingFiles::User, unimplemented: false }),
        PageItem::Setting(SettingItemInfo { title: "标签显示诊断标记", description: "在标签上标记包含诊断错误/警告的文件。", json_path: Some("tabs.show_diagnostics"), files: SettingFiles::User, unimplemented: false }),
        PageItem::Setting(SettingItemInfo { title: "显示关闭按钮", description: "控制标签关闭按钮的显示行为。", json_path: Some("tabs.show_close_button"), files: SettingFiles::User, unimplemented: false }),
    ]
}

fn tab_settings_section() -> (r: Vec<PageItem>)
    ensures
        r@ == tab_settings_section_spec(),
{
    let mut v: Vec<PageItem> = Vec::new();
    v.push(PageItem::SectionHeader("标签设置"));
    v.push(PageItem::Setting(SettingItemInfo { title: "关闭后激活标签", description: "关闭当前标签后要激活的目标标签。", json_path: Some("tabs.activate_on_close"), files: SettingFiles::User, unimplemented: false }));
    v.push(PageItem::Setting(SettingItemInfo { title: "标签显示诊断标记", description: "在标签上标记包含诊断错误/警告的文件。", json_path: Some("tabs.show_diagnostics"), files: SettingFiles::User, unimplemented: false }));
    v.push(PageItem::Setting(SettingItemInfo { title: "显示关闭按钮", description: "控制标签关闭按钮的显示行为。", json_path: Some("tabs.show_close_button"), files: SettingFiles::User, unimplemented: false }));
    assert(v@ =~= tab_settings_section_spec());
    v
}

/// The "预览标签" section.
pub open spec fn preview_tabs_section_spec() -> Seq<PageItem> {
    seq![
        PageItem::SectionHeader("预览标签"),
        PageItem::Setting(SettingItemInfo { title: "启用预览标签", description: "将打开的编辑器显示为预览标签。", json_path: Some("preview_tabs.enabled"), files: SettingFiles::User, unimplemented: false }),
        PageItem::Setting(SettingItemInfo { title: "项目面板单击预览", description: "在项目面板中单击文件时，以预览模式打开标签。", json_path: Some("preview_tabs.enable_preview_from_project_panel"), files: SettingFiles::User, unimplemented: false }),
        PageItem::Setting(SettingItemInfo { title: "文件查找器预览", description: "从文件查找器选择文件时，以预览模式打开标签。", json_path: Some("preview_tabs.enable_preview_from_file_finder"), files: SettingFiles::User, unimplemented: false }),
        PageItem::Setting(SettingItemInfo { title: "多缓冲区预览", description: "从多缓冲区打开文件时，以预览模式打开标签。", json_path: Some("preview_tabs.enable_preview_from_multibuffer"), files: SettingFiles::User, unimplemented: false }),
        PageItem::Setting(SettingItemInfo { title: "代码导航多缓冲预览", description: "通过代码导航打开多缓冲区时，以预览模式打开标签。", json_path: Some("preview_tabs.enable_preview_multibuffer_from_code_navigation"), files: SettingFiles::User, unimplemented: false }),
        PageItem::Setting(SettingItemInfo { title: "代码导航文件预览", description: "通过代码导航打开单个文件时，以预览模式打开标签。", json_path: Some("preview_tabs.enable_preview_file_from_code_navigation"), files: SettingFiles::User, unimplemented: false }),
        PageItem::Setting(SettingItemInfo { title: "代码导航保留预览状态", description: "通过代码导航离开时，保持标签为预览状态。若同时启用了导航预览，新标签可能会替换现有预览标签。", json_path: Some("preview_tabs.enable_keep_preview_on_code_navigation"), files: SettingFiles::User, unimplemented: false }),
    ]
}

fn preview_tabs_section() -> (r: Vec<PageItem>)
    ensures
        r@ == preview_tabs_section_spec(),
{
    let mut v: Vec<PageItem> = Vec::new();
    v.push(PageItem::SectionHeader("预览标签"));
    v.push(PageItem::Setting(SettingItemInfo { title: "启用预览标签", description: "将打开的编辑器显示为预览标签。", json_path: Some("preview_tabs.enabled"), files: SettingFiles::User, unimplemented: false }));
    v.push(PageItem::Setting(SettingItemInfo { title: "项目面板单击预览", description: "在项目面板中单击文件时，以预览模式打开标签。", json_path: Some("preview_tabs.enable_preview_from_project_panel"), files: SettingFiles::User, unimplemented: false }));
    v.push(PageItem::Setting(SettingItemInfo { title: "文件查找器预览", description: "从文件查找器选择文件时，以预览模式打开标签。", json_path: Some("preview_tabs.enable_preview_from_file_finder"), files: SettingFiles::User, unimplemented: false }));
    v.push(PageItem::Setting(SettingItemInfo { title: "多缓冲区预览", description: "从多缓冲区打开文件时，以预览模式打开标签。", json_path: Some("preview_tabs.enable_preview_from_multibuffer"), files: SettingFiles::User, unimplemented: false }));
    v.push(PageItem::Setting(SettingItemInfo { title: "代码导航多缓冲预览", description: "通过代码导航打开多缓冲区时，以预览模式打开标签。", json_path: Some("preview_tabs.enable_preview_multibuffer_from_code_navigation"), files: SettingFiles::User, unimplemented: false }));
    v.push(PageItem::Setting(SettingItemInfo { title: "代码导航文件预览", description: "通过代码导航打开单个文件时，以预览模式打开标签。", json_path: Some("preview_tabs.enable_preview_file_from_code_navigation"), files: SettingFiles::User, unimplemented: false }));
    v.push(PageItem::Setting(SettingItemInfo { title: "代码导航保留预览状态", description: "通过代码导航离开时，保持标签为预览状态。若同时启用了导航预览，新标签可能会替换现有预览标签。", json_path: Some("preview_tabs.enable_keep_preview_on_code_navigation"), files: SettingFiles::User, unimplemented: false }));
    assert(v@ =~= preview_tabs_section_spec());
    v
}

/// The "布局" section.
pub open spec fn layout_section_spec() -> Seq<PageItem> {
    seq![
        PageItem::SectionHeader("布局"),
        PageItem::Setting(SettingItemInfo { title: "底部停靠布局", description: "底部面板的布局模式。", json_path: Some("bottom_dock_layout"), files: SettingFiles::User, unimplemented: false }),
        PageItem::Setting(SettingItemInfo { title: "居中布局左侧内边距", description: "居中布局的左侧内边距。", json_path: Some("centered_layout.left_padding"), files: SettingFiles::User, unimplemented: false }),
        PageItem::Setting(SettingItemInfo { title: "居中布局右侧内边距", description: "居中布局的右侧内边距。", json_path: Some("centered_layout.right_padding"), files: SettingFiles::User, unimplemented: false }),
        PageItem::Setting(SettingItemInfo { title: "鼠标悬停聚焦", description: "鼠标悬停在面板上时自动切换焦点。", json_path: Some("focus_follows_mouse.enabled"), files: SettingFiles::User, unimplemented: false }),
        PageItem::Setting(SettingItemInfo { title: "鼠标聚焦防抖延迟", description: "切换焦点前的等待时间（毫秒）。", json_path: Some("focus_follows_mouse.debounce_ms"), files: SettingFiles::User, unimplemented: false }),
    ]
}

fn layout_section() -> (r: Vec<PageItem>)
    ensures
        r@ == layout_section_spec(),
{
    let mut v: Vec<PageItem> = Vec::new();
    v.push(PageItem::SectionHeader("布局"));
    v.push(PageItem::Setting(SettingItemInfo { title: "底部停靠布局", description: "底部面板的布局模式。", json_path: Some("bottom_dock_layout"), files: SettingFiles::User, unimplemented: false }));
    v.push(PageItem::Setting(SettingItemInfo { title: "居中布局左侧内边距", description: "居中布局的左侧内边距。", json_path: Some("centered_layout.left_padding"), files: SettingFiles::User, unimplemented: false }));
    v.push(PageItem::Setting(SettingItemInfo { title: "居中布局右侧内边距", description: "居中布局的右侧内边距。", json_path: Some("centered_layout.right_padding"), files: SettingFiles::User, unimplemented: false }));
    v.push(PageItem::Setting(SettingItemInfo { title: "鼠标悬停聚焦", description: "鼠标悬停在面板上时自动切换焦点。", json_path: Some("focus_follows_mouse.enabled"), files: SettingFiles::User, unimplemented: false }));
    v.push(PageItem::Setting(SettingItemInfo { title: "鼠标聚焦防抖延迟", description: "切换焦点前的等待时间（毫秒）。", json_path: Some("focus_follows_mouse.debounce_ms"), files: SettingFiles::User, unimplemented: false }));
    assert(v@ =~= layout_section_spec());
    v
}

/// The "窗口" section.
pub open spec fn window_section_spec() -> Seq<PageItem> {
    seq![
        PageItem::SectionHeader("窗口"),
        PageItem::Setting(SettingItemInfo { title: "使用系统窗口标签", description: "（仅 macOS）是否允许窗口合并标签显示。", json_path: Some("use_system_window_tabs"), files: SettingFiles::User, unimplemented: false }),
        PageItem::Setting(SettingItemInfo { title: "窗口装饰样式", description: "（仅 Linux）由编辑器还是系统渲染窗口边框。", json_path: Some("window_decorations"), files: SettingFiles::User, unimplemented: false }),
    ]
}

fn window_section() -> (r: Vec<PageItem>)
    ensures
        r@ == window_section_spec(),
{
    let mut v: Vec<PageItem> = Vec::new();
    v.push(PageItem::SectionHeader("窗口"));
    v.push(PageItem::Setting(SettingItemInfo { title: "使用系统窗口标签", description: "（仅 macOS）是否允许窗口合并标签显示。", json_path: Some("use_system_window_tabs"), files: SettingFiles::User, unimplemented: false }));
    v.push(PageItem::Setting(SettingItemInfo { title: "窗口装饰样式", description: "（仅 Linux）由编辑器还是系统渲染窗口边框。", json_path: Some("window_decorations"), files: SettingFiles::User, unimplemented: false }));
    assert(v@ =~= window_section_spec());
    v
}

/// The "面板修饰" section.
pub open spec fn pane_modifiers_section_spec() -> Seq<PageItem> {
    seq![
        PageItem::SectionHeader("面板修饰"),
        PageItem::Setting(SettingItemInfo { title: "非活动面板透明度", description: "非活动面板的透明度（0.0 - 1.0）。", json_path: Some("active_pane_modifiers.inactive_opacity"), files: SettingFiles::User, unimplemented: false }),
        PageItem::Setting(SettingItemInfo { title: "激活面板边框大小", description: "活动面板周围的边框宽度。", json_path: Some("active_pane_modifiers.border_size"), files: SettingFiles::User, unimplemented: false }),
        PageItem::Setting(SettingItemInfo { title: "缩放面板内边距", description: "为缩放后的面板显示内边距。", json_path: Some("zoomed_padding"), files: SettingFiles::User, unimplemented: false }),
    ]
}

fn pane_modifiers_section() -> (r: Vec<PageItem>)
    ensures
        r@ == pane_modifiers_section_spec(),
{
    let mut v: Vec<PageItem> = Vec::new();
    v.push(PageItem::SectionHeader("面板修饰"));
    v.push(PageItem::Setting(SettingItemInfo { title: "非活动面板透明度", description: "非活动面板的透明度（0.0 - 1.0）。", json_path: Some("active_pane_modifiers.inactive_opacity"), files: SettingFiles::User, unimplemented: false }));
    v.push(PageItem::Setting(SettingItemInfo { title: "激活面板边框大小", description: "活动面板周围的边框宽度。", json_path: Some("active_pane_modifiers.border_size"), files: SettingFiles::User, unimplemented: false }));
    v.push(PageItem::Setting(SettingItemInfo { title: "缩放面板内边距", description: "为缩放后的面板显示内边距。", json_path: Some("zoomed_padding"), files: SettingFiles::User, unimplemented: false }));
    assert(v@ =~= pane_modifiers_section_spec());
    v
}

/// The "面板分割方向" section.
pub open spec fn pane_split_direction_section_spec() -> Seq<PageItem> {
    seq![
        PageItem::SectionHeader("面板分割方向"),
        PageItem::Setting(SettingItemInfo { title: "垂直分割方向", description: "垂直分割面板的方向。", json_path: Some("pane_split_direction_vertical"), files: SettingFiles::User, unimplemented: false }),
        PageItem::Setting(SettingItemInfo { title: "水平分割方向", description: "水平分割面板的方向。", json_path: Some("pane_split_direction_horizontal"), files: SettingFiles::User, unimplemented: false }),
    ]
}

fn pane_split_direction_section() -> (r: Vec<PageItem>)
    ensures
        r@ == pane_split_direction_section_spec(),
{
    let mut v: Vec<PageItem> = Vec::new();
    v.push(PageItem::SectionHeader("面板分割方向"));
    v.push(PageItem::Setting(SettingItemInfo { title: "垂直分割方向", description: "垂直分割面板的方向。", json_path: Some("pane_split_direction_vertical"), files: SettingFiles::User, unimplemented: false }));
    v.push(PageItem::Setting(SettingItemInfo { title: "水平分割方向", description: "水平分割面板的方向。", json_path: Some("pane_split_direction_horizontal"), files: SettingFiles::User, unimplemented: false }));
    assert(v@ =~= pane_split_direction_section_spec());
    v
}

/// The entries of the "窗口与布局" page.
pub open spec fn window_and_layout_page_spec() -> Seq<PageItem> {
    status_bar_section_spec()
        + title_bar_section_spec()
        + tab_bar_section_spec()
        + tab_settings_section_spec()
        + preview_tabs_section_spec()
        + layout_section_spec()
        + window_section_spec()
        + pane_modifiers_section_spec()
        + pane_split_direction_section_spec()
}

/// The entries of the "窗口与布局" page.
pub fn window_and_layout_page_items() -> (r: Vec<PageItem>)
    ensures
        r@ == window_and_layout_page_spec(),
{
    let mut items = status_bar_section();
    let mut next = title_bar_section();
    items.append(&mut next);
    let mut next = tab_bar_section();
    items.append(&mut next);
    let mut next = tab_settings_section();
    items.append(&mut next);
    let mut next = preview_tabs_section();
    items.append(&mut next);
    let mut next = layout_section();
    items.append(&mut next);
    let mut next = window_section();
    items.append(&mut next);
    let mut next = pane_modifiers_section();
    items.append(&mut next);
    let mut next = pane_split_direction_section();
    items.append(&mut next);
    items
}

/// No two entries of `window_and_layout_page_spec` share a JSON path.
pub proof fn lemma_window_and_layout_page_paths_distinct()
    ensures
        json_paths_distinct(window_and_layout_page_spec()),
{
}

} // verus!
