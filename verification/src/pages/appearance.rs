use vstd::prelude::*;
use crate::page_model::{PageItem, SettingItemInfo, SubPageInfo, SubPageType, ActionInfo, SettingFiles, json_paths_distinct};

verus! {

/// The "主题" section.
pub open spec fn theme_section_spec() -> Seq<PageItem> {
    seq![
        PageItem::SectionHeader("主题"),
        PageItem::VariantPicker(SettingItemInfo { title: "主题模式", description: "选择固定主题，或根据系统外观/明暗模式自动切换主题。", json_path: Some("theme$"), files: SettingFiles::User, unimplemented: false }),
        PageItem::VariantSetting("Static", SettingItemInfo { title: "主题名称", description: "你选择的主题名称。", json_path: Some("theme"), files: SettingFiles::User, unimplemented: false }),
        PageItem::VariantSetting("Dynamic", SettingItemInfo { title: "模式", description: "选择使用明/暗主题，或跟随系统外观配置。", json_path: Some("theme.mode"), files: SettingFiles::User, unimplemented: false }),
        PageItem::VariantSetting("Dynamic", SettingItemInfo { title: "浅色主题", description: "模式为浅色/系统浅色时使用的主题。", json_path: Some("theme.light"), files: SettingFiles::User, unimplemented: false }),
        PageItem::VariantSetting("Dynamic", SettingItemInfo { title: "深色主题", description: "模式为深色/系统深色时使用的主题。", json_path: Some("theme.dark"), files: SettingFiles::User, unimplemented: false }),
        PageItem::VariantPicker(SettingItemInfo { title: "图标主题", description: "Zed 用于文件和目录的自定义图标集。", json_path: Some("icon_theme$"), files: SettingFiles::User, unimplemented: false }),
        PageItem::VariantSetting("Static", SettingItemInfo { title: "图标主题名称", description: "你选择的图标主题名称。", json_path: Some("icon_theme$string"), files: SettingFiles::User, unimplemented: false }),
        PageItem::VariantSetting("Dynamic", SettingItemInfo { title: "模式", description: "选择使用明/暗图标主题，或跟随系统外观配置。", json_path: Some("icon_theme"), files: SettingFiles::User, unimplemented: false }),
        PageItem::VariantSetting("Dynamic", SettingItemInfo { title: "浅色图标主题", description: "模式为浅色/系统浅色时使用的图标主题。", json_path: Some("icon_theme.light"), files: SettingFiles::User, unimplemented: false }),
        PageItem::VariantSetting("Dynamic", SettingItemInfo { title: "深色图标主题", description: "模式为深色/系统深色时使用的图标主题。", json_path: Some("icon_theme.dark"), files: SettingFiles::User, unimplemented: false }),
    ]
}

fn theme_section() -> (r: Vec<PageItem>)
    ensures
        r@ == theme_section_spec(),
{
    let mut v: Vec<PageItem> = Vec::new();
    v.push(PageItem::SectionHeader("主题"));
    v.push(PageItem::VariantPicker(SettingItemInfo { title: "主题模式", description: "选择固定主题，或根据系统外观/明暗模式自动切换主题。", json_path: Some("theme$"), files: SettingFiles::User, unimplemented: false }));
    v.push(PageItem::VariantSetting("Static", SettingItemInfo { title: "主题名称", description: "你选择的主题名称。", json_path: Some("theme"), files: SettingFiles::User, unimplemented: false }));
    v.push(PageItem::VariantSetting("Dynamic", SettingItemInfo { title: "模式", description: "选择使用明/暗主题，或跟随系统外观配置。", json_path: Some("theme.mode"), files: SettingFiles::User, unimplemented: false }));
    v.push(PageItem::VariantSetting("Dynamic", SettingItemInfo { title: "浅色主题", description: "模式为浅色/系统浅色时使用的主题。", json_path: Some("theme.light"), files: SettingFiles::User, unimplemented: false }));
    v.push(PageItem::VariantSetting("Dynamic", SettingItemInfo { title: "深色主题", description: "模式为深色/系统深色时使用的主题。", json_path: Some("theme.dark"), files: SettingFiles::User, unimplemented: false }));
    v.push(PageItem::VariantPicker(SettingItemInfo { title: "图标主题", description: "Zed 用于文件和目录的自定义图标集。", json_path: Some("icon_theme$"), files: SettingFiles::User, unimplemented: false }));
    v.push(PageItem::VariantSetting("Static", SettingItemInfo { title: "图标主题名称", description: "你选择的图标主题名称。", json_path: Some("icon_theme$string"), files: SettingFiles::User, unimplemented: false }));
    v.push(PageItem::VariantSetting("Dynamic", SettingItemInfo { title: "模式", description: "选择使用明/暗图标主题，或跟随系统外观配置。", json_path: Some("icon_theme"), files: SettingFiles::User, unimplemented: false }));
    v.push(PageItem::VariantSetting("Dynamic", SettingItemInfo { title: "浅色图标主题", description: "模式为浅色/系统浅色时使用的图标主题。", json_path: Some("icon_theme.light"), files: SettingFiles::User, unimplemented: false }));
    v.push(PageItem::VariantSetting("Dynamic", SettingItemInfo { title: "深色图标主题", description: "模式为深色/系统深色时使用的图标主题。", json_path: Some("icon_theme.dark"), files: SettingFiles::User, unimplemented: false }));
    assert(v@ =~= theme_section_spec());
    v
}

/// The "编辑器字体" section.
pub open spec fn buffer_font_section_spec() -> Seq<PageItem> {
    seq![
        PageItem::SectionHeader("编辑器字体"),
        PageItem::Setting(SettingItemInfo { title: "字体", description: "编辑器文本的字体族。", json_path: Some("buffer_font_family"), files: SettingFiles::User, unimplemented: false }),
        PageItem::Setting(SettingItemInfo { title: "字号", description: "编辑器文本的字体大小。", json_path: Some("buffer_font_size"), files: SettingFiles::User, unimplemented: false }),
        PageItem::Setting(SettingItemInfo { title: "字重", description: "编辑器文本的字重（100-900）。", json_path: Some("buffer_font_weight"), files: SettingFiles::User, unimplemented: false }),
        PageItem::VariantPicker(SettingItemInfo { title: "行高", description: "编辑器文本的行高。", json_path: Some("buffer_line_height$"), files: SettingFiles::User, unimplemented: false }),
        PageItem::VariantSetting("Custom", SettingItemInfo { title: "自定义行高", description: "自定义行高值（至少为 1.0）。", json_path: Some("buffer_line_height"), files: SettingFiles::User, unimplemented: false }),
        PageItem::Setting(SettingItemInfo { title: "字体特性", description: "文本缓冲区渲染时启用的 OpenType 特性。", json_path: Some("buffer_font_features"), files: SettingFiles::User, unimplemented: true }),
        PageItem::Setting(SettingItemInfo { title: "备用字体", description: "文本缓冲区渲染时使用的备用字体。", json_path: Some("buffer_font_fallbacks"), files: SettingFiles::User, unimplemented: true }),
    ]
}

fn buffer_font_section() -> (r: Vec<PageItem>)
    ensures
        r@ == buffer_font_section_spec(),
{
    let mut v: Vec<PageItem> = Vec::new();
    v.push(PageItem::SectionHeader("编辑器字体"));
    v.push(PageItem::Setting(SettingItemInfo { title: "字体", description: "编辑器文本的字体族。", json_path: Some("buffer_font_family"), files: SettingFiles::User, unimplemented: false }));
    v.push(PageItem::Setting(SettingItemInfo { title: "字号", description: "编辑器文本的字体大小。", json_path: Some("buffer_font_size"), files: SettingFiles::User, unimplemented: false }));
    v.push(PageItem::Setting(SettingItemInfo { title: "字重", description: "编辑器文本的字重（100-900）。", json_path: Some("buffer_font_weight"), files: SettingFiles::User, unimplemented: false }));
    v.push(PageItem::VariantPicker(SettingItemInfo { title: "行高", description: "编辑器文本的行高。", json_path: Some("buffer_line_height$"), files: SettingFiles::User, unimplemented: false }));
    v.push(PageItem::VariantSetting("Custom", SettingItemInfo { title: "自定义行高", description: "自定义行高值（至少为 1.0）。", json_path: Some("buffer_line_height"), files: SettingFiles::User, unimplemented: false }));
    v.push(PageItem::Setting(SettingItemInfo { title: "字体特性", description: "文本缓冲区渲染时启用的 OpenType 特性。", json_path: Some("buffer_font_features"), files: SettingFiles::User, unimplemented: true }));
    v.push(PageItem::Setting(SettingItemInfo { title: "备用字体", description: "文本缓冲区渲染时使用的备用字体。", json_path: Some("buffer_font_fallbacks"), files: SettingFiles::User, unimplemented: true }));
    assert(v@ =~= buffer_font_section_spec());
    v
}

/// The "界面字体" section.
pub open spec fn ui_font_section_spec() -> Seq<PageItem> {
    seq![
        PageItem::SectionHeader("界面字体"),
        PageItem::Setting(SettingItemInfo { title: "字体", description: "界面元素的字体族。", json_path: Some("ui_font_family"), files: SettingFiles::User, unimplemented: false }),
        PageItem::Setting(SettingItemInfo { title: "字号", description: "界面元素的字体大小。", json_path: Some("ui_font_size"), files: SettingFiles::User, unimplemented: false }),
        PageItem::Setting(SettingItemInfo { title: "字重", description: "界面元素的字重（100-900）。", json_path: Some("ui_font_weight"), files: SettingFiles::User, unimplemented: false }),
        PageItem::Setting(SettingItemInfo { title: "字体特性", description: "界面元素渲染时启用的 OpenType 特性。", json_path: Some("ui_font_features"), files: SettingFiles::User, unimplemented: true }),
        PageItem::Setting(SettingItemInfo { title: "备用字体", description: "界面渲染时使用的备用字体。", json_path: Some("ui_font_fallbacks"), files: SettingFiles::User, unimplemented: true }),
    ]
}

fn ui_font_section() -> (r: Vec<PageItem>)
    ensures
        r@ == ui_font_section_spec(),
{
    let mut v: Vec<PageItem> = Vec::new();
    v.push(PageItem::SectionHeader("界面字体"));
    v.push(PageItem::Setting(SettingItemInfo { title: "字体", description: "界面元素的字体族。", json_path: Some("ui_font_family"), files: SettingFiles::User, unimplemented: false }));
    v.push(PageItem::Setting(SettingItemInfo { title: "字号", description: "界面元素的字体大小。", json_path: Some("ui_font_size"), files: SettingFiles::User, unimplemented: false }));
    v.push(PageItem::Setting(SettingItemInfo { title: "字重", description: "界面元素的字重（100-900）。", json_path: Some("ui_font_weight"), files: SettingFiles::User, unimplemented: false }));
    v.push(PageItem::Setting(SettingItemInfo { title: "字体特性", description: "界面元素渲染时启用的 OpenType 特性。", json_path: Some("ui_font_features"), files: SettingFiles::User, unimplemented: true }));
    v.push(PageItem::Setting(SettingItemInfo { title: "备用字体", description: "界面渲染时使用的备用字体。", json_path: Some("ui_font_fallbacks"), files: SettingFiles::User, unimplemented: true }));
    assert(v@ =~= ui_font_section_spec());
    v
}

/// The "助手面板字体" section.
pub open spec fn agent_panel_font_section_spec() -> Seq<PageItem> {
    seq![
        PageItem::SectionHeader("助手面板字体"),
        PageItem::Setting(SettingItemInfo { title: "界面字号", description: "助手面板中响应文本的字号，未设置则使用常规界面字号。", json_path: Some("agent_ui_font_size"), files: SettingFiles::User, unimplemented: false }),
        PageItem::Setting(SettingItemInfo { title: "编辑器字号", description: "助手面板中用户消息文本的字号。", json_path: Some("agent_buffer_font_size"), files: SettingFiles::User, unimplemented: false }),
    ]
}

fn agent_panel_font_section() -> (r: Vec<PageItem>)
    ensures
        r@ == agent_panel_font_section_spec(),
{
    let mut v: Vec<PageItem> = Vec::new();
    v.push(PageItem::SectionHeader("助手面板字体"));
    v.push(PageItem::Setting(SettingItemInfo { title: "界面字号", description: "助手面板中响应文本的字号，未设置则使用常规界面字号。", json_path: Some("agent_ui_font_size"), files: SettingFiles::User, unimplemented: false }));
    v.push(PageItem::Setting(SettingItemInfo { title: "编辑器字号", description: "助手面板中用户消息文本的字号。", json_path: Some("agent_buffer_font_size"), files: SettingFiles::User, unimplemented: false }));
    assert(v@ =~= agent_panel_font_section_spec());
    v
}

/// The "文本渲染" section.
pub open spec fn text_rendering_section_spec() -> Seq<PageItem> {
    seq![
        PageItem::SectionHeader("文本渲染"),
        PageItem::Setting(SettingItemInfo { title: "文本渲染模式", description: "使用的文本渲染模式。", json_path: Some("text_rendering_mode"), files: SettingFiles::User, unimplemented: false }),
    ]
}

fn text_rendering_section() -> (r: Vec<PageItem>)
    ensures
        r@ == text_rendering_section_spec(),
{
    let mut v: Vec<PageItem> = Vec::new();
    v.push(PageItem::SectionHeader("文本渲染"));
    v.push(PageItem::Setting(SettingItemInfo { title: "文本渲染模式", description: "使用的文本渲染模式。", json_path: Some("text_rendering_mode"), files: SettingFiles::User, unimplemented: false }));
    assert(v@ =~= text_rendering_section_spec());
    v
}

/// The "光标" section.
pub open spec fn cursor_section_spec() -> Seq<PageItem> {
    seq![
        PageItem::SectionHeader("光标"),
        PageItem::Setting(SettingItemInfo { title: "多光标修饰键", description: "添加多光标时使用的修饰键。", json_path: Some("multi_cursor_modifier"), files: SettingFiles::User, unimplemented: false }),
        PageItem::Setting(SettingItemInfo { title: "光标闪烁", description: "编辑器中光标是否闪烁。", json_path: Some("cursor_blink"), files: SettingFiles::User, unimplemented: false }),
        PageItem::Setting(SettingItemInfo { title: "光标形状", description: "编辑器的光标形状。", json_path: Some("cursor_shape"), files: SettingFiles::User, unimplemented: false }),
        PageItem::Setting(SettingItemInfo { title: "隐藏鼠标", description: "隐藏鼠标光标的时机。", json_path: Some("hide_mouse"), files: SettingFiles::User, unimplemented: false }),
    ]
}

fn cursor_section() -> (r: Vec<PageItem>)
    ensures
        r@ == cursor_section_spec(),
{
    let mut v: Vec<PageItem> = Vec::new();
    v.push(PageItem::SectionHeader("光标"));
    v.push(PageItem::Setting(SettingItemInfo { title: "多光标修饰键", description: "添加多光标时使用的修饰键。", json_path: Some("multi_cursor_modifier"), files: SettingFiles::User, unimplemented: false }));
    v.push(PageItem::Setting(SettingItemInfo { title: "光标闪烁", description: "编辑器中光标是否闪烁。", json_path: Some("cursor_blink"), files: SettingFiles::User, unimplemented: false }));
    v.push(PageItem::Setting(SettingItemInfo { title: "光标形状", description: "编辑器的光标形状。", json_path: Some("cursor_shape"), files: SettingFiles::User, unimplemented: false }));
    v.push(PageItem::Setting(SettingItemInfo { title: "隐藏鼠标", description: "隐藏鼠标光标的时机。", json_path: Some("hide_mouse"), files: SettingFiles::User, unimplemented: false }));
    assert(v@ =~= cursor_section_spec());
    v
}

/// The "高亮显示" section.
pub open spec fn highlighting_section_spec() -> Seq<PageItem> {
    seq![
        PageItem::SectionHeader("高亮显示"),
        PageItem::Setting(SettingItemInfo { title: "无用代码淡化", description: "无用代码的淡化程度（0.0 - 0.9）。", json_path: Some("unnecessary_code_fade"), files: SettingFiles::User, unimplemented: false }),
        PageItem::Setting(SettingItemInfo { title: "当前行高亮", description: "当前行的高亮方式。", json_path: Some("current_line_highlight"), files: SettingFiles::User, unimplemented: false }),
        PageItem::Setting(SettingItemInfo { title: "选区高亮", description: "高亮显示所选文本的所有匹配项。", json_path: Some("selection_highlight"), files: SettingFiles::User, unimplemented: false }),
        PageItem::Setting(SettingItemInfo { title: "圆角选区", description: "文本选区是否使用圆角样式。", json_path: Some("rounded_selection"), files: SettingFiles::User, unimplemented: false }),
        PageItem::Setting(SettingItemInfo { title: "高亮最小对比度", description: "文本在高亮背景上渲染时需保持的最小 APCA 感知对比度。", json_path: Some("minimum_contrast_for_highlights"), files: SettingFiles::User, unimplemented: false }),
    ]
}

fn highlighting_section() -> (r: Vec<PageItem>)
    ensures
        r@ == highlighting_section_spec(),
{
    let mut v: Vec<PageItem> = Vec::new();
    v.push(PageItem::SectionHeader("高亮显示"));
    v.push(PageItem::Setting(SettingItemInfo { title: "无用代码淡化", description: "无用代码的淡化程度（0.0 - 0.9）。", json_path: Some("unnecessary_code_fade"), files: SettingFiles::User, unimplemented: false }));
    v.push(PageItem::Setting(SettingItemInfo { title: "当前行高亮", description: "当前行的高亮方式。", json_path: Some("current_line_highlight"), files: SettingFiles::User, unimplemented: false }));
    v.push(PageItem::Setting(SettingItemInfo { title: "选区高亮", description: "高亮显示所选文本的所有匹配项。", json_path: Some("selection_highlight"), files: SettingFiles::User, unimplemented: false }));
    v.push(PageItem::Setting(SettingItemInfo { title: "圆角选区", description: "文本选区是否使用圆角样式。", json_path: Some("rounded_selection"), files: SettingFiles::User, unimplemented: false }));
    v.push(PageItem::Setting(SettingItemInfo { title: "高亮最小对比度", description: "文本在高亮背景上渲染时需保持的最小 APCA 感知对比度。", json_path: Some("minimum_contrast_for_highlights"), files: SettingFiles::User, unimplemented: false }));
    assert(v@ =~= highlighting_section_spec());
    v
}

/// The "辅助线" section.
pub open spec fn guides_section_spec() -> Seq<PageItem> {
    seq![
        PageItem::SectionHeader("辅助线"),
        PageItem::Setting(SettingItemInfo { title: "显示换行辅助线", description: "显示换行辅助线（垂直标尺）。", json_path: Some("show_wrap_guides"), files: SettingFiles::UserAndProject, unimplemented: false }),
        PageItem::Setting(SettingItemInfo { title: "换行辅助线位置", description: "显示换行辅助线的字符列数。", json_path: Some("wrap_guides"), files: SettingFiles::UserAndProject, unimplemented: true }),
    ]
}

fn guides_section() -> (r: Vec<PageItem>)
    ensures
        r@ == guides_section_spec(),
{
    let mut v: Vec<PageItem> = Vec::new();
    v.push(PageItem::SectionHeader("辅助线"));
    v.push(PageItem::Setting(SettingItemInfo { title: "显示换行辅助线", description: "显示换行辅助线（垂直标尺）。", json_path: Some("show_wrap_guides"), files: SettingFiles::UserAndProject, unimplemented: false }));
    v.push(PageItem::Setting(SettingItemInfo { title: "换行辅助线位置", description: "显示换行辅助线的字符列数。", json_path: Some("wrap_guides"), files: SettingFiles::UserAndProject, unimplemented: true }));
    assert(v@ =~= guides_section_spec());
    v
}

/// The entries of the "外观" page.
pub open spec fn appearance_page_spec() -> Seq<PageItem> {
    theme_section_spec()
        + buffer_font_section_spec()
        + ui_font_section_spec()
        + agent_panel_font_section_spec()
        + text_rendering_section_spec()
        + cursor_section_spec()
        + highlighting_section_spec()
        + guides_section_spec()
}

/// The entries of the "外观" page.
pub fn appearance_page_items() -> (r: Vec<PageItem>)
    ensures
        r@ == appearance_page_spec(),
{
    let mut items = theme_section();
    let mut next = buffer_font_section();
    items.append(&mut next);
    let mut next = ui_font_section();
    items.append(&mut next);
    let mut next = agent_panel_font_section();
    items.append(&mut next);
    let mut next = text_rendering_section();
    items.append(&mut next);
    let mut next = cursor_section();
    items.append(&mut next);
    let mut next = highlighting_section();
    items.append(&mut next);
    let mut next = guides_section();
    items.append(&mut next);
    items
}

/// No two entries of `appearance_page_spec` share a JSON path.
pub proof fn lemma_appearance_page_paths_distinct()
    ensures
        json_paths_distinct(appearance_page_spec()),
{
}

} // verus!
