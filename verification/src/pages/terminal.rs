use vstd::prelude::*;
use crate::page_model::{PageItem, SettingItemInfo, SubPageInfo, SubPageType, ActionInfo, SettingFiles, json_paths_distinct};

verus! {

/// The "环境设置" section.
pub open spec fn environment_section_spec() -> Seq<PageItem> {
    seq![
        PageItem::SectionHeader("环境设置"),
        PageItem::VariantPicker(SettingItemInfo { title: "终端 Shell", description: "打开终端时使用的命令行 Shell。", json_path: Some("terminal.shell$"), files: SettingFiles::UserAndProject, unimplemented: false }),
        PageItem::VariantSetting("Program", SettingItemInfo { title: "程序路径", description: "要使用的 Shell 程序。", json_path: Some("terminal.shell"), files: SettingFiles::UserAndProject, unimplemented: false }),
        PageItem::VariantSetting("WithArguments", SettingItemInfo { title: "程序路径", description: "要运行的 Shell 程序。", json_path: Some("terminal.shell.program"), files: SettingFiles::UserAndProject, unimplemented: false }),
        PageItem::VariantSetting("WithArguments", SettingItemInfo { title: "启动参数", description: "传递给 Shell 程序的参数。", json_path: Some("terminal.shell.args"), files: SettingFiles::UserAndProject, unimplemented: true }),
        PageItem::VariantSetting("WithArguments", SettingItemInfo { title: "自定义标题", description: "可选，用于覆盖终端标签页标题。", json_path: Some("terminal.shell.title_override"), files: SettingFiles::UserAndProject, unimplemented: false }),
        PageItem::VariantPicker(SettingItemInfo { title: "工作目录", description: "启动终端时使用的工作目录。", json_path: Some("terminal.working_directory$"), files: SettingFiles::UserAndProject, unimplemented: false }),
        PageItem::VariantSetting("Always", SettingItemInfo { title: "目录路径", description: "要使用的目录路径（支持 Shell 变量展开）。", json_path: Some("terminal.working_directory.always"), files: SettingFiles::UserAndProject, unimplemented: false }),
        PageItem::Setting(SettingItemInfo { title: "环境变量", description: "添加到终端环境的键值对变量。", json_path: Some("terminal.env"), files: SettingFiles::UserAndProject, unimplemented: true }),
        PageItem::Setting(SettingItemInfo { title: "自动检测虚拟环境", description: "在终端工作目录中自动激活检测到的 Python 虚拟环境。", json_path: Some("terminal.detect_venv"), files: SettingFiles::UserAndProject, unimplemented: true }),
    ]
}

fn environment_section() -> (r: Vec<PageItem>)
    ensures
        r@ == environment_section_spec(),
{
    let mut v: Vec<PageItem> = Vec::new();
    v.push(PageItem::SectionHeader("环境设置"));
    v.push(PageItem::VariantPicker(SettingItemInfo { title: "终端 Shell", description: "打开终端时使用的命令行 Shell。", json_path: Some("terminal.shell$"), files: SettingFiles::UserAndProject, unimplemented: false }));
    v.push(PageItem::VariantSetting("Program", SettingItemInfo { title: "程序路径", description: "要使用的 Shell 程序。", json_path: Some("terminal.shell"), files: SettingFiles::UserAndProject, unimplemented: false }));
    v.push(PageItem::VariantSetting("WithArguments", SettingItemInfo { title: "程序路径", description: "要运行的 Shell 程序。", json_path: Some("terminal.shell.program"), files: SettingFiles::UserAndProject, unimplemented: false }));
    v.push(PageItem::VariantSetting("WithArguments", SettingItemInfo { title: "启动参数", description: "传递给 Shell 程序的参数。", json_path: Some("terminal.shell.args"), files: SettingFiles::UserAndProject, unimplemented: true }));
    v.push(PageItem::VariantSetting("WithArguments", SettingItemInfo { title: "自定义标题", description: "可选，用于覆盖终端标签页标题。", json_path: Some("terminal.shell.title_override"), files: SettingFiles::UserAndProject, unimplemented: false }));
    v.push(PageItem::VariantPicker(SettingItemInfo { title: "工作目录", description: "启动终端时使用的工作目录。", json_path: Some("terminal.working_directory$"), files: SettingFiles::UserAndProject, unimplemented: false }));
    v.push(PageItem::VariantSetting("Always", SettingItemInfo { title: "目录路径", description: "要使用的目录路径（支持 Shell 变量展开）。", json_path: Some("terminal.working_directory.always"), files: SettingFiles::UserAndProject, unimplemented: false }));
    v.push(PageItem::Setting(SettingItemInfo { title: "环境变量", description: "添加到终端环境的键值对变量。", json_path: Some("terminal.env"), files: SettingFiles::UserAndProject, unimplemented: true }));
    v.push(PageItem::Setting(SettingItemInfo { title: "自动检测虚拟环境", description: "在终端工作目录中自动激活检测到的 Python 虚拟环境。", json_path: Some("terminal.detect_venv"), files: SettingFiles::UserAndProject, unimplemented: true }));
    assert(v@ =~= environment_section_spec());
    v
}

/// The "字体设置" section.
pub open spec fn font_section_spec() -> Seq<PageItem> {
    seq![
        PageItem::SectionHeader("字体设置"),
        PageItem::Setting(SettingItemInfo { title: "字体大小", description: "终端文本字体大小，未设置时默认使用编辑器字体大小。", json_path: Some("terminal.font_size"), files: SettingFiles::User, unimplemented: false }),
        PageItem::Setting(SettingItemInfo { title: "字体", description: "终端文本字体，未设置时默认使用编辑器字体。", json_path: Some("terminal.font_family"), files: SettingFiles::User, unimplemented: false }),
        PageItem::Setting(SettingItemInfo { title: "备用字体", description: "终端文本备用字体，未设置时默认使用编辑器备用字体。", json_path: Some("terminal.font_fallbacks"), files: SettingFiles::User, unimplemented: true }),
        PageItem::Setting(SettingItemInfo { title: "字体粗细", description: "终端文本字体粗细（CSS 粗细单位，100-900）。", json_path: Some("terminal.font_weight"), files: SettingFiles::User, unimplemented: false }),
        PageItem::Setting(SettingItemInfo { title: "字体特性", description: "终端文本的字体特性（连字、变体等）。", json_path: Some("terminal.font_features"), files: SettingFiles::User, unimplemented: true }),
    ]
}

fn font_section() -> (r: Vec<PageItem>)
    ensures
        r@ == font_section_spec(),
{
    let mut v: Vec<PageItem> = Vec::new();
    v.push(PageItem::SectionHeader("字体设置"));
    v.push(PageItem::Setting(SettingItemInfo { title: "字体大小", description: "终端文本字体大小，未设置时默认使用编辑器字体大小。", json_path: Some("terminal.font_size"), files: SettingFiles::User, unimplemented: false }));
    v.push(PageItem::Setting(SettingItemInfo { title: "字体", description: "终端文本字体，未设置时默认使用编辑器字体。", json_path: Some("terminal.font_family"), files: SettingFiles::User, unimplemented: false }));
    v.push(PageItem::Setting(SettingItemInfo { title: "备用字体", description: "终端文本备用字体，未设置时默认使用编辑器备用字体。", json_path: Some("terminal.font_fallbacks"), files: SettingFiles::User, unimplemented: true }));
    v.push(PageItem::Setting(SettingItemInfo { title: "字体粗细", description: "终端文本字体粗细（CSS 粗细单位，100-900）。", json_path: Some("terminal.font_weight"), files: SettingFiles::User, unimplemented: false }));
    v.push(PageItem::Setting(SettingItemInfo { title: "字体特性", description: "终端文本的字体特性（连字、变体等）。", json_path: Some("terminal.font_features"), files: SettingFiles::User, unimplemented: true }));
    assert(v@ =~= font_section_spec());
    v
}

/// The "显示设置" section.
pub open spec fn display_settings_section_spec() -> Seq<PageItem> {
    seq![
        PageItem::SectionHeader("显示设置"),
        PageItem::Setting(SettingItemInfo { title: "行高", description: "终端文本的行高。", json_path: Some("terminal.line_height"), files: SettingFiles::User, unimplemented: true }),
        PageItem::Setting(SettingItemInfo { title: "光标形状", description: "终端默认光标形状（竖线、方块、下划线、空心）。", json_path: Some("terminal.cursor_shape"), files: SettingFiles::User, unimplemented: false }),
        PageItem::Setting(SettingItemInfo { title: "光标闪烁", description: "设置终端光标的闪烁行为。", json_path: Some("terminal.blinking"), files: SettingFiles::User, unimplemented: false }),
        PageItem::Setting(SettingItemInfo { title: "交替滚动", description: "默认启用交替滚动模式（在 Vim 等工具中将鼠标滚动转为方向键）。", json_path: Some("terminal.alternate_scroll"), files: SettingFiles::User, unimplemented: false }),
        PageItem::Setting(SettingItemInfo { title: "最低对比度", description: "前景色与背景色的最低 APCA 感知对比度（0-106）。", json_path: Some("terminal.minimum_contrast"), files: SettingFiles::User, unimplemented: false }),
    ]
}

fn display_settings_section() -> (r: Vec<PageItem>)
    ensures
        r@ == display_settings_section_spec(),
{
    let mut v: Vec<PageItem> = Vec::new();
    v.push(PageItem::SectionHeader("显示设置"));
    v.push(PageItem::Setting(SettingItemInfo { title: "行高", description: "终端文本的行高。", json_path: Some("terminal.line_height"), files: SettingFiles::User, unimplemented: true }));
    v.push(PageItem::Setting(SettingItemInfo { title: "光标形状", description: "终端默认光标形状（竖线、方块、下划线、空心）。", json_path: Some("terminal.cursor_shape"), files: SettingFiles::User, unimplemented: false }));
    v.push(PageItem::Setting(SettingItemInfo { title: "光标闪烁", description: "设置终端光标的闪烁行为。", json_path: Some("terminal.blinking"), files: SettingFiles::User, unimplemented: false }));
    v.push(PageItem::Setting(SettingItemInfo { title: "交替滚动", description: "默认启用交替滚动模式（在 Vim 等工具中将鼠标滚动转为方向键）。", json_path: Some("terminal.alternate_scroll"), files: SettingFiles::User, unimplemented: false }));
    v.push(PageItem::Setting(SettingItemInfo { title: "最低对比度", description: "前景色与背景色的最低 APCA 感知对比度（0-106）。", json_path: Some("terminal.minimum_contrast"), files: SettingFiles::User, unimplemented: false }));
    assert(v@ =~= display_settings_section_spec());
    v
}

/// The "行为设置" section.
pub open spec fn behavior_settings_section_spec() -> Seq<PageItem> {
    seq![
        PageItem::SectionHeader("行为设置"),
        PageItem::Setting(SettingItemInfo { title: "Option 键作为 Meta 键", description: "将 Option 键作为 Meta 功能键使用。", json_path: Some("terminal.option_as_meta"), files: SettingFiles::User, unimplemented: false }),
        PageItem::Setting(SettingItemInfo { title: "选中即复制", description: "在终端中选中文本时自动复制到系统剪贴板。", json_path: Some("terminal.copy_on_select"), files: SettingFiles::User, unimplemented: false }),
        PageItem::Setting(SettingItemInfo { title: "复制后保持选中", description: "复制文本到剪贴板后保持文本选中状态。", json_path: Some("terminal.keep_selection_on_copy"), files: SettingFiles::User, unimplemented: false }),
        PageItem::Setting(SettingItemInfo { title: "响铃提示音", description: "输出 BEL 字符（\\a, 0x07）时播放提示音。", json_path: Some("terminal.bell"), files: SettingFiles::User, unimplemented: false }),
    ]
}

fn behavior_settings_section() -> (r: Vec<PageItem>)
    ensures
        r@ == behavior_settings_section_spec(),
{
    let mut v: Vec<PageItem> = Vec::new();
    v.push(PageItem::SectionHeader("行为设置"));
    v.push(PageItem::Setting(SettingItemInfo { title: "Option 键作为 Meta 键", description: "将 Option 键作为 Meta 功能键使用。", json_path: Some("terminal.option_as_meta"), files: SettingFiles::User, unimplemented: false }));
    v.push(PageItem::Setting(SettingItemInfo { title: "选中即复制", description: "在终端中选中文本时自动复制到系统剪贴板。", json_path: Some("terminal.copy_on_select"), files: SettingFiles::User, unimplemented: false }));
    v.push(PageItem::Setting(SettingItemInfo { title: "复制后保持选中", description: "复制文本到剪贴板后保持文本选中状态。", json_path: Some("terminal.keep_selection_on_copy"), files: SettingFiles::User, unimplemented: false }));
    v.push(PageItem::Setting(SettingItemInfo { title: "响铃提示音", description: "输出 BEL 字符（\\a, 0x07）时播放提示音。", json_path: Some("terminal.bell"), files: SettingFiles::User, unimplemented: false }));
    assert(v@ =~= behavior_settings_section_spec());
    v
}

/// The "布局设置" section.
pub open spec fn layout_settings_section_spec() -> Seq<PageItem> {
    seq![
        PageItem::SectionHeader("布局设置"),
        PageItem::Setting(SettingItemInfo { title: "默认宽度", description: "终端停靠在左侧/右侧时的默认宽度（像素）。", json_path: Some("terminal.default_width"), files: SettingFiles::User, unimplemented: false }),
        PageItem::Setting(SettingItemInfo { title: "默认高度", description: "终端停靠在底部时的默认高度（像素）。", json_path: Some("terminal.default_height"), files: SettingFiles::User, unimplemented: false }),
    ]
}

fn layout_settings_section() -> (r: Vec<PageItem>)
    ensures
        r@ == layout_settings_section_spec(),
{
    let mut v: Vec<PageItem> = Vec::new();
    v.push(PageItem::SectionHeader("布局设置"));
    v.push(PageItem::Setting(SettingItemInfo { title: "默认宽度", description: "终端停靠在左侧/右侧时的默认宽度（像素）。", json_path: Some("terminal.default_width"), files: SettingFiles::User, unimplemented: false }));
    v.push(PageItem::Setting(SettingItemInfo { title: "默认高度", description: "终端停靠在底部时的默认高度（像素）。", json_path: Some("terminal.default_height"), files: SettingFiles::User, unimplemented: false }));
    assert(v@ =~= layout_settings_section_spec());
    v
}

/// The "高级设置" section.
pub open spec fn advanced_settings_section_spec() -> Seq<PageItem> {
    seq![
        PageItem::SectionHeader("高级设置"),
        PageItem::Setting(SettingItemInfo { title: "最大滚动历史行数", description: "滚动历史最大保留行数（最大值：100000；0 表示禁用滚动）。", json_path: Some("terminal.max_scroll_history_lines"), files: SettingFiles::User, unimplemented: false }),
        PageItem::Setting(SettingItemInfo { title: "滚动倍数", description: "鼠标滚轮在终端中的滚动速度倍数。", json_path: Some("terminal.scroll_multiplier"), files: SettingFiles::User, unimplemented: false }),
    ]
}

fn advanced_settings_section() -> (r: Vec<PageItem>)
    ensures
        r@ == advanced_settings_section_spec(),
{
    let mut v: Vec<PageItem> = Vec::new();
    v.push(PageItem::SectionHeader("高级设置"));
    v.push(PageItem::Setting(SettingItemInfo { title: "最大滚动历史行数", description: "滚动历史最大保留行数（最大值：100000；0 表示禁用滚动）。", json_path: Some("terminal.max_scroll_history_lines"), files: SettingFiles::User, unimplemented: false }));
    v.push(PageItem::Setting(SettingItemInfo { title: "滚动倍数", description: "鼠标滚轮在终端中的滚动速度倍数。", json_path: Some("terminal.scroll_multiplier"), files: SettingFiles::User, unimplemented: false }));
    assert(v@ =~= advanced_settings_section_spec());
    v
}

/// The "工具栏" section.
pub open spec fn toolbar_section_spec() -> Seq<PageItem> {
    seq![
        PageItem::SectionHeader("工具栏"),
        PageItem::Setting(SettingItemInfo { title: "路径导航", description: "在终端面板内显示终端标题的路径导航。", json_path: Some("terminal.toolbar.breadcrumbs"), files: SettingFiles::User, unimplemented: false }),
    ]
}

fn toolbar_section() -> (r: Vec<PageItem>)
    ensures
        r@ == toolbar_section_spec(),
{
    let mut v: Vec<PageItem> = Vec::new();
    v.push(PageItem::SectionHeader("工具栏"));
    v.push(PageItem::Setting(SettingItemInfo { title: "路径导航", description: "在终端面板内显示终端标题的路径导航。", json_path: Some("terminal.toolbar.breadcrumbs"), files: SettingFiles::User, unimplemented: false }));
    assert(v@ =~= toolbar_section_spec());
    v
}

/// The "滚动条" section.
pub open spec fn scrollbar_section_spec() -> Seq<PageItem> {
    seq![
        PageItem::SectionHeader("滚动条"),
        PageItem::Setting(SettingItemInfo { title: "显示滚动条", description: "设置终端滚动条的显示时机。", json_path: Some("terminal.scrollbar.show"), files: SettingFiles::User, unimplemented: false }),
    ]
}

fn scrollbar_section() -> (r: Vec<PageItem>)
    ensures
        r@ == scrollbar_section_spec(),
{
    let mut v: Vec<PageItem> = Vec::new();
    v.push(PageItem::SectionHeader("滚动条"));
    v.push(PageItem::Setting(SettingItemInfo { title: "显示滚动条", description: "设置终端滚动条的显示时机。", json_path: Some("terminal.scrollbar.show"), files: SettingFiles::User, unimplemented: false }));
    assert(v@ =~= scrollbar_section_spec());
    v
}

/// The entries of the "终端" page.
pub open spec fn terminal_page_spec() -> Seq<PageItem> {
    environment_section_spec()
        + font_section_spec()
        + display_settings_section_spec()
        + behavior_settings_section_spec()
        + layout_settings_section_spec()
        + advanced_settings_section_spec()
        + toolbar_section_spec()
        + scrollbar_section_spec()
}

/// The entries of the "终端" page.
pub fn terminal_page_items() -> (r: Vec<PageItem>)
    ensures
        r@ == terminal_page_spec(),
{
    let mut items = environment_section();
    let mut next = font_section();
    items.append(&mut next);
    let mut next = display_settings_section();
    items.append(&mut next);
    let mut next = behavior_settings_section();
    items.append(&mut next);
    let mut next = layout_settings_section();
    items.append(&mut next);
    let mut next = advanced_settings_section();
    items.append(&mut next);
    let mut next = toolbar_section();
    items.append(&mut next);
    let mut next = scrollbar_section();
    items.append(&mut next);
    items
}

/// No two entries of `terminal_page_spec` share a JSON path.
pub proof fn lemma_terminal_page_paths_distinct()
    ensures
        json_paths_distinct(terminal_page_spec()),
{
}

} // verus!
