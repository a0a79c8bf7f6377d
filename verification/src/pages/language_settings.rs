use vstd::prelude::*;
use crate::page_model::{PageItem, SettingItemInfo, SubPageInfo, SubPageType, ActionInfo, SettingFiles, json_paths_distinct};

verus! {

/// The "缩进" section.
pub open spec fn indentation_section_spec() -> Seq<PageItem> {
    seq![
        PageItem::SectionHeader("缩进"),
        PageItem::Setting(SettingItemInfo { title: "制表符宽度", description: "一个制表符占用的列数。", json_path: Some("languages.$(language).tab_size"), files: SettingFiles::UserAndProject, unimplemented: false }),
        PageItem::Setting(SettingItemInfo { title: "使用制表符缩进", description: "是否使用制表符进行缩进，而非多个空格。", json_path: Some("languages.$(language).hard_tabs"), files: SettingFiles::UserAndProject, unimplemented: false }),
        PageItem::Setting(SettingItemInfo { title: "自动缩进", description: "控制输入时的自动缩进行为。", json_path: Some("languages.$(language).auto_indent"), files: SettingFiles::UserAndProject, unimplemented: false }),
        PageItem::Setting(SettingItemInfo { title: "粘贴时自动缩进", description: "是否根据上下文调整粘贴内容的缩进。", json_path: Some("languages.$(language).auto_indent_on_paste"), files: SettingFiles::UserAndProject, unimplemented: false }),
    ]
}

fn indentation_section() -> (r: Vec<PageItem>)
    ensures
        r@ == indentation_section_spec(),
{
    let mut v: Vec<PageItem> = Vec::new();
    v.push(PageItem::SectionHeader("缩进"));
    v.push(PageItem::Setting(SettingItemInfo { title: "制表符宽度", description: "一个制表符占用的列数。", json_path: Some("languages.$(language).tab_size"), files: SettingFiles::UserAndProject, unimplemented: false }));
    v.push(PageItem::Setting(SettingItemInfo { title: "使用制表符缩进", description: "是否使用制表符进行缩进，而非多个空格。", json_path: Some("languages.$(language).hard_tabs"), files: SettingFiles::UserAndProject, unimplemented: false }));
    v.push(PageItem::Setting(SettingItemInfo { title: "自动缩进", description: "控制输入时的自动缩进行为。", json_path: Some("languages.$(language).auto_indent"), files: SettingFiles::UserAndProject, unimplemented: false }));
    v.push(PageItem::Setting(SettingItemInfo { title: "粘贴时自动缩进", description: "是否根据上下文调整粘贴内容的缩进。", json_path: Some("languages.$(language).auto_indent_on_paste"), files: SettingFiles::UserAndProject, unimplemented: false }));
    assert(v@ =~= indentation_section_spec());
    v
}

/// The "自动换行" section.
pub open spec fn wrapping_section_spec() -> Seq<PageItem> {
    seq![
        PageItem::SectionHeader("自动换行"),
        PageItem::Setting(SettingItemInfo { title: "软换行", description: "长文本行的软换行方式。", json_path: Some("languages.$(language).soft_wrap"), files: SettingFiles::UserAndProject, unimplemented: false }),
        PageItem::Setting(SettingItemInfo { title: "显示换行辅助线", description: "在编辑器中显示换行辅助线。", json_path: Some("languages.$(language).show_wrap_guides"), files: SettingFiles::UserAndProject, unimplemented: false }),
        PageItem::Setting(SettingItemInfo { title: "首选行长度", description: "启用软换行的缓冲区，执行软换行的列数。", json_path: Some("languages.$(language).preferred_line_length"), files: SettingFiles::UserAndProject, unimplemented: false }),
        PageItem::Setting(SettingItemInfo { title: "换行辅助线位置", description: "编辑器中显示换行辅助线的字符计数位置。", json_path: Some("languages.$(language).wrap_guides"), files: SettingFiles::UserAndProject, unimplemented: true }),
        PageItem::Setting(SettingItemInfo { title: "允许重新换行", description: "控制该语言是否允许使用 editor::rewrap 操作。", json_path: Some("languages.$(language).allow_rewrap"), files: SettingFiles::UserAndProject, unimplemented: false }),
    ]
}

fn wrapping_section() -> (r: Vec<PageItem>)
    ensures
        r@ == wrapping_section_spec(),
{
    let mut v: Vec<PageItem> = Vec::new();
    v.push(PageItem::SectionHeader("自动换行"));
    v.push(PageItem::Setting(SettingItemInfo { title: "软换行", description: "长文本行的软换行方式。", json_path: Some("languages.$(language).soft_wrap"), files: SettingFiles::UserAndProject, unimplemented: false }));
    v.push(PageItem::Setting(SettingItemInfo { title: "显示换行辅助线", description: "在编辑器中显示换行辅助线。", json_path: Some("languages.$(language).show_wrap_guides"), files: SettingFiles::UserAndProject, unimplemented: false }));
    v.push(PageItem::Setting(SettingItemInfo { title: "首选行长度", description: "启用软换行的缓冲区，执行软换行的列数。", json_path: Some("languages.$(language).preferred_line_length"), files: SettingFiles::UserAndProject, unimplemented: false }));
    v.push(PageItem::Setting(SettingItemInfo { title: "换行辅助线位置", description: "编辑器中显示换行辅助线的字符计数位置。", json_path: Some("languages.$(language).wrap_guides"), files: SettingFiles::UserAndProject, unimplemented: true }));
    v.push(PageItem::Setting(SettingItemInfo { title: "允许重新换行", description: "控制该语言是否允许使用 editor::rewrap 操作。", json_path: Some("languages.$(language).allow_rewrap"), files: SettingFiles::UserAndProject, unimplemented: false }));
    assert(v@ =~= wrapping_section_spec());
    v
}

/// The "缩进辅助线" section.
pub open spec fn indent_guides_section_spec() -> Seq<PageItem> {
    seq![
        PageItem::SectionHeader("缩进辅助线"),
        PageItem::Setting(SettingItemInfo { title: "启用", description: "在编辑器中显示缩进辅助线。", json_path: Some("languages.$(language).indent_guides.enabled"), files: SettingFiles::UserAndProject, unimplemented: false }),
        PageItem::Setting(SettingItemInfo { title: "线条宽度", description: "缩进辅助线的像素宽度，取值范围1-10。", json_path: Some("languages.$(language).indent_guides.line_width"), files: SettingFiles::UserAndProject, unimplemented: false }),
        PageItem::Setting(SettingItemInfo { title: "激活线条宽度", description: "激活状态缩进辅助线的像素宽度，取值范围1-10。", json_path: Some("languages.$(language).indent_guides.active_line_width"), files: SettingFiles::UserAndProject, unimplemented: false }),
        PageItem::Setting(SettingItemInfo { title: "着色模式", description: "设置缩进辅助线的着色方式。", json_path: Some("languages.$(language).indent_guides.coloring"), files: SettingFiles::UserAndProject, unimplemented: false }),
        PageItem::Setting(SettingItemInfo { title: "背景着色", description: "设置缩进辅助线背景的着色方式。", json_path: Some("languages.$(language).indent_guides.background_coloring"), files: SettingFiles::UserAndProject, unimplemented: false }),
    ]
}

fn indent_guides_section() -> (r: Vec<PageItem>)
    ensures
        r@ == indent_guides_section_spec(),
{
    let mut v: Vec<PageItem> = Vec::new();
    v.push(PageItem::SectionHeader("缩进辅助线"));
    v.push(PageItem::Setting(SettingItemInfo { title: "启用", description: "在编辑器中显示缩进辅助线。", json_path: Some("languages.$(language).indent_guides.enabled"), files: SettingFiles::UserAndProject, unimplemented: false }));
    v.push(PageItem::Setting(SettingItemInfo { title: "线条宽度", description: "缩进辅助线的像素宽度，取值范围1-10。", json_path: Some("languages.$(language).indent_guides.line_width"), files: SettingFiles::UserAndProject, unimplemented: false }));
    v.push(PageItem::Setting(SettingItemInfo { title: "激活线条宽度", description: "激活状态缩进辅助线的像素宽度，取值范围1-10。", json_path: Some("languages.$(language).indent_guides.active_line_width"), files: SettingFiles::UserAndProject, unimplemented: false }));
    v.push(PageItem::Setting(SettingItemInfo { title: "着色模式", description: "设置缩进辅助线的着色方式。", json_path: Some("languages.$(language).indent_guides.coloring"), files: SettingFiles::UserAndProject, unimplemented: false }));
    v.push(PageItem::Setting(SettingItemInfo { title: "背景着色", description: "设置缩进辅助线背景的着色方式。", json_path: Some("languages.$(language).indent_guides.background_coloring"), files: SettingFiles::UserAndProject, unimplemented: false }));
    assert(v@ =~= indent_guides_section_spec());
    v
}

/// The "代码格式化" section.
pub open spec fn formatting_section_spec() -> Seq<PageItem> {
    seq![
        PageItem::SectionHeader("代码格式化"),
        PageItem::Setting(SettingItemInfo { title: "保存时格式化", description: "保存文件前是否执行缓冲区格式化。", json_path: Some("languages.$(language).format_on_save"), files: SettingFiles::UserAndProject, unimplemented: false }),
        PageItem::Setting(SettingItemInfo { title: "保存时移除行尾空格", description: "保存文件前是否移除缓冲区行尾的所有空格。", json_path: Some("languages.$(language).remove_trailing_whitespace_on_save"), files: SettingFiles::UserAndProject, unimplemented: false }),
        PageItem::Setting(SettingItemInfo { title: "保存时确保末尾换行", description: "保存文件时是否确保缓冲区末尾有且仅有一个换行符。", json_path: Some("languages.$(language).ensure_final_newline_on_save"), files: SettingFiles::UserAndProject, unimplemented: false }),
        PageItem::Setting(SettingItemInfo { title: "行尾符", description: "新文件以及格式化、保存操作时的行尾符处理方式。", json_path: Some("languages.$(language).line_ending"), files: SettingFiles::UserAndProject, unimplemented: false }),
        PageItem::Setting(SettingItemInfo { title: "格式化工具", description: "执行缓冲区格式化的方式。", json_path: Some("languages.$(language).formatter"), files: SettingFiles::UserAndProject, unimplemented: true }),
        PageItem::Setting(SettingItemInfo { title: "启用输入时格式化", description: "是否在输入每个触发符号后，使用LSP查询额外格式化代码，由LSP服务能力定义", json_path: Some("languages.$(language).use_on_type_format"), files: SettingFiles::UserAndProject, unimplemented: false }),
        PageItem::Setting(SettingItemInfo { title: "格式化时执行代码操作", description: "格式化时运行的额外代码操作。", json_path: Some("languages.$(language).code_actions_on_format"), files: SettingFiles::UserAndProject, unimplemented: true }),
    ]
}

fn formatting_section() -> (r: Vec<PageItem>)
    ensures
        r@ == formatting_section_spec(),
{
    let mut v: Vec<PageItem> = Vec::new();
    v.push(PageItem::SectionHeader("代码格式化"));
    v.push(PageItem::Setting(SettingItemInfo { title: "保存时格式化", description: "保存文件前是否执行缓冲区格式化。", json_path: Some("languages.$(language).format_on_save"), files: SettingFiles::UserAndProject, unimplemented: false }));
    v.push(PageItem::Setting(SettingItemInfo { title: "保存时移除行尾空格", description: "保存文件前是否移除缓冲区行尾的所有空格。", json_path: Some("languages.$(language).remove_trailing_whitespace_on_save"), files: SettingFiles::UserAndProject, unimplemented: false }));
    v.push(PageItem::Setting(SettingItemInfo { title: "保存时确保末尾换行", description: "保存文件时是否确保缓冲区末尾有且仅有一个换行符。", json_path: Some("languages.$(language).ensure_final_newline_on_save"), files: SettingFiles::UserAndProject, unimplemented: false }));
    v.push(PageItem::Setting(SettingItemInfo { title: "行尾符", description: "新文件以及格式化、保存操作时的行尾符处理方式。", json_path: Some("languages.$(language).line_ending"), files: SettingFiles::UserAndProject, unimplemented: false }));
    v.push(PageItem::Setting(SettingItemInfo { title: "格式化工具", description: "执行缓冲区格式化的方式。", json_path: Some("languages.$(language).formatter"), files: SettingFiles::UserAndProject, unimplemented: true }));
    v.push(PageItem::Setting(SettingItemInfo { title: "启用输入时格式化", description: "是否在输入每个触发符号后，使用LSP查询额外格式化代码，由LSP服务能力定义", json_path: Some("languages.$(language).use_on_type_format"), files: SettingFiles::UserAndProject, unimplemented: false }));
    v.push(PageItem::Setting(SettingItemInfo { title: "格式化时执行代码操作", description: "格式化时运行的额外代码操作。", json_path: Some("languages.$(language).code_actions_on_format"), files: SettingFiles::UserAndProject, unimplemented: true }));
    assert(v@ =~= formatting_section_spec());
    v
}

/// The "自动闭合" section.
pub open spec fn autoclose_section_spec() -> Seq<PageItem> {
    seq![
        PageItem::SectionHeader("自动闭合"),
        PageItem::Setting(SettingItemInfo { title: "启用自动闭合", description: "是否自动输入闭合字符。例如输入'('时，自动在正确位置添加闭合的')'。", json_path: Some("languages.$(language).use_autoclose"), files: SettingFiles::UserAndProject, unimplemented: false }),
        PageItem::Setting(SettingItemInfo { title: "启用自动包裹", description: "是否自动用字符包裹文本。例如选中文本后输入'('，自动用()包裹文本。", json_path: Some("languages.$(language).use_auto_surround"), files: SettingFiles::UserAndProject, unimplemented: false }),
        PageItem::Setting(SettingItemInfo { title: "始终将括号视为自动闭合", description: "控制无论以何种方式插入闭合字符，是否始终跳过并自动移除。", json_path: Some("languages.$(language).always_treat_brackets_as_autoclosed"), files: SettingFiles::UserAndProject, unimplemented: false }),
        PageItem::Setting(SettingItemInfo { title: "JSX标签自动闭合", description: "是否自动闭合JSX标签。", json_path: Some("languages.$(language).jsx_tag_auto_close"), files: SettingFiles::UserAndProject, unimplemented: false }),
    ]
}

fn autoclose_section() -> (r: Vec<PageItem>)
    ensures
        r@ == autoclose_section_spec(),
{
    let mut v: Vec<PageItem> = Vec::new();
    v.push(PageItem::SectionHeader("自动闭合"));
    v.push(PageItem::Setting(SettingItemInfo { title: "启用自动闭合", description: "是否自动输入闭合字符。例如输入'('时，自动在正确位置添加闭合的')'。", json_path: Some("languages.$(language).use_autoclose"), files: SettingFiles::UserAndProject, unimplemented: false }));
    v.push(PageItem::Setting(SettingItemInfo { title: "启用自动包裹", description: "是否自动用字符包裹文本。例如选中文本后输入'('，自动用()包裹文本。", json_path: Some("languages.$(language).use_auto_surround"), files: SettingFiles::UserAndProject, unimplemented: false }));
    v.push(PageItem::Setting(SettingItemInfo { title: "始终将括号视为自动闭合", description: "控制无论以何种方式插入闭合字符，是否始终跳过并自动移除。", json_path: Some("languages.$(language).always_treat_brackets_as_autoclosed"), files: SettingFiles::UserAndProject, unimplemented: false }));
    v.push(PageItem::Setting(SettingItemInfo { title: "JSX标签自动闭合", description: "是否自动闭合JSX标签。", json_path: Some("languages.$(language).jsx_tag_auto_close"), files: SettingFiles::UserAndProject, unimplemented: false }));
    assert(v@ =~= autoclose_section_spec());
    v
}

/// The "空白字符" section.
pub open spec fn whitespace_section_spec() -> Seq<PageItem> {
    seq![
        PageItem::SectionHeader("空白字符"),
        PageItem::Setting(SettingItemInfo { title: "显示空白字符", description: "是否在编辑器中显示制表符和空格。", json_path: Some("languages.$(language).show_whitespaces"), files: SettingFiles::UserAndProject, unimplemented: false }),
        PageItem::Setting(SettingItemInfo { title: "空格显示符号", description: "启用空白字符显示时，用于渲染空格的可见字符（默认：\"•\"）", json_path: Some("languages.$(language).whitespace_map.space"), files: SettingFiles::UserAndProject, unimplemented: true }),
        PageItem::Setting(SettingItemInfo { title: "制表符显示符号", description: "启用空白字符显示时，用于渲染制表符的可见字符（默认：\"→\"）", json_path: Some("languages.$(language).whitespace_map.tab"), files: SettingFiles::UserAndProject, unimplemented: true }),
    ]
}

fn whitespace_section() -> (r: Vec<PageItem>)
    ensures
        r@ == whitespace_section_spec(),
{
    let mut v: Vec<PageItem> = Vec::new();
    v.push(PageItem::SectionHeader("空白字符"));
    v.push(PageItem::Setting(SettingItemInfo { title: "显示空白字符", description: "是否在编辑器中显示制表符和空格。", json_path: Some("languages.$(language).show_whitespaces"), files: SettingFiles::UserAndProject, unimplemented: false }));
    v.push(PageItem::Setting(SettingItemInfo { title: "空格显示符号", description: "启用空白字符显示时，用于渲染空格的可见字符（默认：\"•\"）", json_path: Some("languages.$(language).whitespace_map.space"), files: SettingFiles::UserAndProject, unimplemented: true }));
    v.push(PageItem::Setting(SettingItemInfo { title: "制表符显示符号", description: "启用空白字符显示时，用于渲染制表符的可见字符（默认：\"→\"）", json_path: Some("languages.$(language).whitespace_map.tab"), files: SettingFiles::UserAndProject, unimplemented: true }));
    assert(v@ =~= whitespace_section_spec());
    v
}

/// The "代码补全" section.
pub open spec fn completions_section_spec() -> Seq<PageItem> {
    seq![
        PageItem::SectionHeader("代码补全"),
        PageItem::Setting(SettingItemInfo { title: "输入时显示补全菜单", description: "在编辑器中输入时是否自动弹出补全菜单，无需手动触发。", json_path: Some("languages.$(language).show_completions_on_input"), files: SettingFiles::UserAndProject, unimplemented: false }),
        PageItem::Setting(SettingItemInfo { title: "显示补全文档", description: "是否在补全菜单中显示项目的内联及旁侧文档。", json_path: Some("languages.$(language).show_completion_documentation"), files: SettingFiles::UserAndProject, unimplemented: false }),
        PageItem::Setting(SettingItemInfo { title: "单词补全", description: "控制单词的补全方式。", json_path: Some("languages.$(language).completions.words"), files: SettingFiles::UserAndProject, unimplemented: false }),
        PageItem::Setting(SettingItemInfo { title: "单词补全最小长度", description: "自动显示单词补全所需的输入字符数。", json_path: Some("languages.$(language).completions.words_min_length"), files: SettingFiles::UserAndProject, unimplemented: false }),
        PageItem::Setting(SettingItemInfo { title: "补全菜单滚动条", description: "补全菜单中滚动条的显示时机。", json_path: Some("editor.completion_menu_scrollbar"), files: SettingFiles::User, unimplemented: false }),
        PageItem::Setting(SettingItemInfo { title: "补全详情对齐方式", description: "代码补全上下文菜单中详情文本的左/右对齐方式。", json_path: Some("editor.completion_detail_alignment"), files: SettingFiles::User, unimplemented: false }),
    ]
}

fn completions_section() -> (r: Vec<PageItem>)
    ensures
        r@ == completions_section_spec(),
{
    let mut v: Vec<PageItem> = Vec::new();
    v.push(PageItem::SectionHeader("代码补全"));
    v.push(PageItem::Setting(SettingItemInfo { title: "输入时显示补全菜单", description: "在编辑器中输入时是否自动弹出补全菜单，无需手动触发。", json_path: Some("languages.$(language).show_completions_on_input"), files: SettingFiles::UserAndProject, unimplemented: false }));
    v.push(PageItem::Setting(SettingItemInfo { title: "显示补全文档", description: "是否在补全菜单中显示项目的内联及旁侧文档。", json_path: Some("languages.$(language).show_completion_documentation"), files: SettingFiles::UserAndProject, unimplemented: false }));
    v.push(PageItem::Setting(SettingItemInfo { title: "单词补全", description: "控制单词的补全方式。", json_path: Some("languages.$(language).completions.words"), files: SettingFiles::UserAndProject, unimplemented: false }));
    v.push(PageItem::Setting(SettingItemInfo { title: "单词补全最小长度", description: "自动显示单词补全所需的输入字符数。", json_path: Some("languages.$(language).completions.words_min_length"), files: SettingFiles::UserAndProject, unimplemented: false }));
    v.push(PageItem::Setting(SettingItemInfo { title: "补全菜单滚动条", description: "补全菜单中滚动条的显示时机。", json_path: Some("editor.completion_menu_scrollbar"), files: SettingFiles::User, unimplemented: false }));
    v.push(PageItem::Setting(SettingItemInfo { title: "补全详情对齐方式", description: "代码补全上下文菜单中详情文本的左/右对齐方式。", json_path: Some("editor.completion_detail_alignment"), files: SettingFiles::User, unimplemented: false }));
    assert(v@ =~= completions_section_spec());
    v
}

/// The "内嵌提示" section.
pub open spec fn inlay_hints_section_spec() -> Seq<PageItem> {
    seq![
        PageItem::SectionHeader("内嵌提示"),
        PageItem::Setting(SettingItemInfo { title: "启用", description: "全局开关，控制提示的显示与隐藏。", json_path: Some("languages.$(language).inlay_hints.enabled"), files: SettingFiles::UserAndProject, unimplemented: false }),
        PageItem::Setting(SettingItemInfo { title: "显示值提示", description: "全局开关，调试时控制内联值的显示与隐藏。", json_path: Some("languages.$(language).inlay_hints.show_value_hints"), files: SettingFiles::UserAndProject, unimplemented: false }),
        PageItem::Setting(SettingItemInfo { title: "显示类型提示", description: "是否显示类型提示。", json_path: Some("languages.$(language).inlay_hints.show_type_hints"), files: SettingFiles::UserAndProject, unimplemented: false }),
        PageItem::Setting(SettingItemInfo { title: "显示参数提示", description: "是否显示参数提示。", json_path: Some("languages.$(language).inlay_hints.show_parameter_hints"), files: SettingFiles::UserAndProject, unimplemented: false }),
        PageItem::Setting(SettingItemInfo { title: "显示其他提示", description: "是否显示其他提示。", json_path: Some("languages.$(language).inlay_hints.show_other_hints"), files: SettingFiles::UserAndProject, unimplemented: false }),
        PageItem::Setting(SettingItemInfo { title: "显示背景", description: "为内嵌提示显示背景。", json_path: Some("languages.$(language).inlay_hints.show_background"), files: SettingFiles::UserAndProject, unimplemented: false }),
        PageItem::Setting(SettingItemInfo { title: "编辑防抖延迟(毫秒)", description: "缓冲区编辑后是否防抖更新内嵌提示（设为0禁用防抖）。", json_path: Some("languages.$(language).inlay_hints.edit_debounce_ms"), files: SettingFiles::UserAndProject, unimplemented: false }),
        PageItem::Setting(SettingItemInfo { title: "滚动防抖延迟(毫秒)", description: "缓冲区滚动后是否防抖更新内嵌提示（设为0禁用防抖）。", json_path: Some("languages.$(language).inlay_hints.scroll_debounce_ms"), files: SettingFiles::UserAndProject, unimplemented: false }),
        PageItem::Setting(SettingItemInfo { title: "按修饰键切换显示", description: "按下指定修饰键时切换内嵌提示的显示/隐藏状态。", json_path: Some("languages.$(language).inlay_hints.toggle_on_modifiers_press"), files: SettingFiles::UserAndProject, unimplemented: true }),
    ]
}

fn inlay_hints_section() -> (r: Vec<PageItem>)
    ensures
        r@ == inlay_hints_section_spec(),
{
    let mut v: Vec<PageItem> = Vec::new();
    v.push(PageItem::SectionHeader("内嵌提示"));
    v.push(PageItem::Setting(SettingItemInfo { title: "启用", description: "全局开关，控制提示的显示与隐藏。", json_path: Some("languages.$(language).inlay_hints.enabled"), files: SettingFiles::UserAndProject, unimplemented: false }));
    v.push(PageItem::Setting(SettingItemInfo { title: "显示值提示", description: "全局开关，调试时控制内联值的显示与隐藏。", json_path: Some("languages.$(language).inlay_hints.show_value_hints"), files: SettingFiles::UserAndProject, unimplemented: false }));
    v.push(PageItem::Setting(SettingItemInfo { title: "显示类型提示", description: "是否显示类型提示。", json_path: Some("languages.$(language).inlay_hints.show_type_hints"), files: SettingFiles::UserAndProject, unimplemented: false }));
    v.push(PageItem::Setting(SettingItemInfo { title: "显示参数提示", description: "是否显示参数提示。", json_path: Some("languages.$(language).inlay_hints.show_parameter_hints"), files: SettingFiles::UserAndProject, unimplemented: false }));
    v.push(PageItem::Setting(SettingItemInfo { title: "显示其他提示", description: "是否显示其他提示。", json_path: Some("languages.$(language).inlay_hints.show_other_hints"), files: SettingFiles::UserAndProject, unimplemented: false }));
    v.push(PageItem::Setting(SettingItemInfo { title: "显示背景", description: "为内嵌提示显示背景。", json_path: Some("languages.$(language).inlay_hints.show_background"), files: SettingFiles::UserAndProject, unimplemented: false }));
    v.push(PageItem::Setting(SettingItemInfo { title: "编辑防抖延迟(毫秒)", description: "缓冲区编辑后是否防抖更新内嵌提示（设为0禁用防抖）。", json_path: Some("languages.$(language).inlay_hints.edit_debounce_ms"), files: SettingFiles::UserAndProject, unimplemented: false }));
    v.push(PageItem::Setting(SettingItemInfo { title: "滚动防抖延迟(毫秒)", description: "缓冲区滚动后是否防抖更新内嵌提示（设为0禁用防抖）。", json_path: Some("languages.$(language).inlay_hints.scroll_debounce_ms"), files: SettingFiles::UserAndProject, unimplemented: false }));
    v.push(PageItem::Setting(SettingItemInfo { title: "按修饰键切换显示", description: "按下指定修饰键时切换内嵌提示的显示/隐藏状态。", json_path: Some("languages.$(language).inlay_hints.toggle_on_modifiers_press"), files: SettingFiles::UserAndProject, unimplemented: true }));
    assert(v@ =~= inlay_hints_section_spec());
    v
}

/// The "任务" section.
pub open spec fn tasks_section_spec() -> Seq<PageItem> {
    seq![
        PageItem::SectionHeader("任务"),
        PageItem::Setting(SettingItemInfo { title: "启用", description: "是否为该语言启用任务功能。", json_path: Some("languages.$(language).tasks.enabled"), files: SettingFiles::UserAndProject, unimplemented: false }),
        PageItem::Setting(SettingItemInfo { title: "变量", description: "为特定语言设置的额外任务变量。", json_path: Some("languages.$(language).tasks.variables"), files: SettingFiles::UserAndProject, unimplemented: true }),
        PageItem::Setting(SettingItemInfo { title: "优先使用LSP任务", description: "使用LSP任务而非Zed语言扩展任务。", json_path: Some("languages.$(language).tasks.prefer_lsp"), files: SettingFiles::UserAndProject, unimplemented: false }),
    ]
}

fn tasks_section() -> (r: Vec<PageItem>)
    ensures
        r@ == tasks_section_spec(),
{
    let mut v: Vec<PageItem> = Vec::new();
    v.push(PageItem::SectionHeader("任务"));
    v.push(PageItem::Setting(SettingItemInfo { title: "启用", description: "是否为该语言启用任务功能。", json_path: Some("languages.$(language).tasks.enabled"), files: SettingFiles::UserAndProject, unimplemented: false }));
    v.push(PageItem::Setting(SettingItemInfo { title: "变量", description: "为特定语言设置的额外任务变量。", json_path: Some("languages.$(language).tasks.variables"), files: SettingFiles::UserAndProject, unimplemented: true }));
    v.push(PageItem::Setting(SettingItemInfo { title: "优先使用LSP任务", description: "使用LSP任务而非Zed语言扩展任务。", json_path: Some("languages.$(language).tasks.prefer_lsp"), files: SettingFiles::UserAndProject, unimplemented: false }));
    assert(v@ =~= tasks_section_spec());
    v
}

/// The "杂项" section.
pub open spec fn miscellaneous_section_spec() -> Seq<PageItem> {
    seq![
        PageItem::SectionHeader("杂项"),
        PageItem::Setting(SettingItemInfo { title: "启用单词差异高亮", description: "是否在编辑器中启用单词差异高亮。启用后，修改行内的变更单词会高亮显示具体变更内容。", json_path: Some("languages.$(language).word_diff_enabled"), files: SettingFiles::UserAndProject, unimplemented: false }),
        PageItem::Setting(SettingItemInfo { title: "调试器", description: "该语言的首选调试器。", json_path: Some("languages.$(language).debuggers"), files: SettingFiles::UserAndProject, unimplemented: true }),
        PageItem::Setting(SettingItemInfo { title: "鼠标中键粘贴", description: "在Linux系统中启用鼠标中键粘贴。", json_path: Some("languages.$(language).editor.middle_click_paste"), files: SettingFiles::User, unimplemented: false }),
        PageItem::Setting(SettingItemInfo { title: "换行自动延续注释", description: "当前行为注释时，新行是否自动以注释开头。", json_path: Some("languages.$(language).extend_comment_on_newline"), files: SettingFiles::UserAndProject, unimplemented: false }),
        PageItem::Setting(SettingItemInfo { title: "括号着色", description: "是否在编辑器中为括号着色。", json_path: Some("languages.$(language).colorize_brackets"), files: SettingFiles::UserAndProject, unimplemented: false }),
        PageItem::Setting(SettingItemInfo { title: "Vim/Emacs模式行支持", description: "搜索模式行的行数（设为0禁用）。", json_path: Some("modeline_lines"), files: SettingFiles::UserAndProject, unimplemented: false }),
    ]
}

fn miscellaneous_section() -> (r: Vec<PageItem>)
    ensures
        r@ == miscellaneous_section_spec(),
{
    let mut v: Vec<PageItem> = Vec::new();
    v.push(PageItem::SectionHeader("杂项"));
    v.push(PageItem::Setting(SettingItemInfo { title: "启用单词差异高亮", description: "是否在编辑器中启用单词差异高亮。启用后，修改行内的变更单词会高亮显示具体变更内容。", json_path: Some("languages.$(language).word_diff_enabled"), files: SettingFiles::UserAndProject, unimplemented: false }));
    v.push(PageItem::Setting(SettingItemInfo { title: "调试器", description: "该语言的首选调试器。", json_path: Some("languages.$(language).debuggers"), files: SettingFiles::UserAndProject, unimplemented: true }));
    v.push(PageItem::Setting(SettingItemInfo { title: "鼠标中键粘贴", description: "在Linux系统中启用鼠标中键粘贴。", json_path: Some("languages.$(language).editor.middle_click_paste"), files: SettingFiles::User, unimplemented: false }));
    v.push(PageItem::Setting(SettingItemInfo { title: "换行自动延续注释", description: "当前行为注释时，新行是否自动以注释开头。", json_path: Some("languages.$(language).extend_comment_on_newline"), files: SettingFiles::UserAndProject, unimplemented: false }));
    v.push(PageItem::Setting(SettingItemInfo { title: "括号着色", description: "是否在编辑器中为括号着色。", json_path: Some("languages.$(language).colorize_brackets"), files: SettingFiles::UserAndProject, unimplemented: false }));
    v.push(PageItem::Setting(SettingItemInfo { title: "Vim/Emacs模式行支持", description: "搜索模式行的行数（设为0禁用）。", json_path: Some("modeline_lines"), files: SettingFiles::UserAndProject, unimplemented: false }));
    assert(v@ =~= miscellaneous_section_spec());
    v
}

/// The entries of `global_only_miscellaneous_sub_section`.
pub open spec fn global_only_miscellaneous_sub_section_spec() -> Seq<PageItem> {
    seq![
        PageItem::Setting(SettingItemInfo { title: "图片查看器", description: "图片文件大小的单位。", json_path: Some("image_viewer.unit"), files: SettingFiles::User, unimplemented: false }),
        PageItem::Setting(SettingItemInfo { title: "自动替换表情符号短码", description: "是否自动将表情符号短码替换为表情符号字符。", json_path: Some("message_editor.auto_replace_emoji_shortcode"), files: SettingFiles::User, unimplemented: false }),
        PageItem::Setting(SettingItemInfo { title: "拖放目标大小", description: "编辑器中拖放文件以分屏打开的目标区域相对大小。", json_path: Some("drop_target_size"), files: SettingFiles::User, unimplemented: false }),
    ]
}

fn global_only_miscellaneous_sub_section() -> (r: Vec<PageItem>)
    ensures
        r@ == global_only_miscellaneous_sub_section_spec(),
{
    let mut v: Vec<PageItem> = Vec::new();
    v.push(PageItem::Setting(SettingItemInfo { title: "图片查看器", description: "图片文件大小的单位。", json_path: Some("image_viewer.unit"), files: SettingFiles::User, unimplemented: false }));
    v.push(PageItem::Setting(SettingItemInfo { title: "自动替换表情符号短码", description: "是否自动将表情符号短码替换为表情符号字符。", json_path: Some("message_editor.auto_replace_emoji_shortcode"), files: SettingFiles::User, unimplemented: false }));
    v.push(PageItem::Setting(SettingItemInfo { title: "拖放目标大小", description: "编辑器中拖放文件以分屏打开的目标区域相对大小。", json_path: Some("drop_target_size"), files: SettingFiles::User, unimplemented: false }));
    assert(v@ =~= global_only_miscellaneous_sub_section_spec());
    v
}

/// The entries of `code_lens_item`.
pub open spec fn code_lens_item_spec() -> Seq<PageItem> {
    seq![
        PageItem::Setting(SettingItemInfo { title: "代码透镜", description: "是否以及如何显示语言服务器提供的代码透镜。", json_path: Some("code_lens"), files: SettingFiles::User, unimplemented: false }),
    ]
}

fn code_lens_item() -> (r: Vec<PageItem>)
    ensures
        r@ == code_lens_item_spec(),
{
    let mut v: Vec<PageItem> = Vec::new();
    v.push(PageItem::Setting(SettingItemInfo { title: "代码透镜", description: "是否以及如何显示语言服务器提供的代码透镜。", json_path: Some("code_lens"), files: SettingFiles::User, unimplemented: false }));
    assert(v@ =~= code_lens_item_spec());
    v
}

/// The entries of `lsp_document_colors_item`.
pub open spec fn lsp_document_colors_item_spec() -> Seq<PageItem> {
    seq![
        PageItem::Setting(SettingItemInfo { title: "LSP文档颜色", description: "编辑器中LSP颜色预览的渲染方式。", json_path: Some("lsp_document_colors"), files: SettingFiles::User, unimplemented: false }),
    ]
}

fn lsp_document_colors_item() -> (r: Vec<PageItem>)
    ensures
        r@ == lsp_document_colors_item_spec(),
{
    let mut v: Vec<PageItem> = Vec::new();
    v.push(PageItem::Setting(SettingItemInfo { title: "LSP文档颜色", description: "编辑器中LSP颜色预览的渲染方式。", json_path: Some("lsp_document_colors"), files: SettingFiles::User, unimplemented: false }));
    assert(v@ =~= lsp_document_colors_item_spec());
    v
}

/// The language settings shown on the editor page and on a language's page.
/// With no language being edited they apply to all languages, and the
/// document-color setting and the global-only group are shown too.
pub open spec fn language_settings_spec(has_active_language: bool) -> Seq<PageItem> {
    if has_active_language {
        indentation_section_spec()
            + wrapping_section_spec()
            + indent_guides_section_spec()
            + formatting_section_spec()
            + autoclose_section_spec()
            + whitespace_section_spec()
            + completions_section_spec()
            + inlay_hints_section_spec()
            + code_lens_item_spec()
            + tasks_section_spec()
            + miscellaneous_section_spec()
    } else {
        indentation_section_spec()
            + wrapping_section_spec()
            + indent_guides_section_spec()
            + formatting_section_spec()
            + autoclose_section_spec()
            + whitespace_section_spec()
            + completions_section_spec()
            + inlay_hints_section_spec()
            + code_lens_item_spec()
            + lsp_document_colors_item_spec()
            + tasks_section_spec()
            + miscellaneous_section_spec()
            + global_only_miscellaneous_sub_section_spec()
    }
}

/// The language settings entries (see `language_settings_spec`).
pub fn language_settings_items(has_active_language: bool) -> (r: Vec<PageItem>)
    ensures
        r@ == language_settings_spec(has_active_language),
{
    if has_active_language {
        let mut items = indentation_section();
        let mut next = wrapping_section();
        items.append(&mut next);
        let mut next = indent_guides_section();
        items.append(&mut next);
        let mut next = formatting_section();
        items.append(&mut next);
        let mut next = autoclose_section();
        items.append(&mut next);
        let mut next = whitespace_section();
        items.append(&mut next);
        let mut next = completions_section();
        items.append(&mut next);
        let mut next = inlay_hints_section();
        items.append(&mut next);
        let mut next = code_lens_item();
        items.append(&mut next);
        let mut next = tasks_section();
        items.append(&mut next);
        let mut next = miscellaneous_section();
        items.append(&mut next);
        items
    } else {
        let mut items = indentation_section();
        let mut next = wrapping_section();
        items.append(&mut next);
        let mut next = indent_guides_section();
        items.append(&mut next);
        let mut next = formatting_section();
        items.append(&mut next);
        let mut next = autoclose_section();
        items.append(&mut next);
        let mut next = whitespace_section();
        items.append(&mut next);
        let mut next = completions_section();
        items.append(&mut next);
        let mut next = inlay_hints_section();
        items.append(&mut next);
        let mut next = code_lens_item();
        items.append(&mut next);
        let mut next = lsp_document_colors_item();
        items.append(&mut next);
        let mut next = tasks_section();
        items.append(&mut next);
        let mut next = miscellaneous_section();
        items.append(&mut next);
        let mut next = global_only_miscellaneous_sub_section();
        items.append(&mut next);
        items
    }
}

/// No two entries of `language_settings_spec` share a JSON path.
#[verifier::rlimit(100)]
pub proof fn lemma_language_settings_paths_distinct(has_active_language: bool)
    ensures
        json_paths_distinct(language_settings_spec(has_active_language)),
{
    if has_active_language {
        assert(json_paths_distinct(language_settings_spec(true)));
    } else {
        assert(json_paths_distinct(language_settings_spec(false)));
    }
}

/// The "语言服务协议(LSP)" section.
pub open spec fn lsp_section_spec() -> Seq<PageItem> {
    seq![
        PageItem::SectionHeader("语言服务协议(LSP)"),
        PageItem::Setting(SettingItemInfo { title: "启用语言服务器", description: "是否使用语言服务器提供代码智能提示功能。", json_path: Some("languages.$(language).enable_language_server"), files: SettingFiles::UserAndProject, unimplemented: false }),
        PageItem::Setting(SettingItemInfo { title: "语言服务器列表", description: "该语言要使用（或禁用）的语言服务器列表。", json_path: Some("languages.$(language).language_servers"), files: SettingFiles::UserAndProject, unimplemented: true }),
        PageItem::Setting(SettingItemInfo { title: "关联编辑", description: "如果语言服务器支持，是否对关联范围执行关联编辑。例如，编辑开始的 <html> 标签时，结束的 </html> 标签内容也会同步编辑。", json_path: Some("languages.$(language).linked_edits"), files: SettingFiles::UserAndProject, unimplemented: false }),
        PageItem::Setting(SettingItemInfo { title: "转到定义备用方案", description: "是否处理语言服务器返回空结果的转到定义请求。", json_path: Some("go_to_definition_fallback"), files: SettingFiles::User, unimplemented: false }),
        PageItem::Setting(SettingItemInfo { title: "语义标记", description: "", json_path: Some("languages.$(language).semantic_tokens"), files: SettingFiles::UserAndProject, unimplemented: false }),
        PageItem::Setting(SettingItemInfo { title: "LSP折叠范围", description: "启用后，使用语言服务器提供的折叠范围，而非基于缩进的折叠方式。", json_path: Some("languages.$(language).document_folding_ranges"), files: SettingFiles::UserAndProject, unimplemented: false }),
        PageItem::Setting(SettingItemInfo { title: "LSP文档符号", description: "启用后，使用语言服务器的文档符号生成大纲和面包屑，而非树 sitter。", json_path: Some("languages.$(language).document_symbols"), files: SettingFiles::UserAndProject, unimplemented: false }),
    ]
}

fn lsp_section() -> (r: Vec<PageItem>)
    ensures
        r@ == lsp_section_spec(),
{
    let mut v: Vec<PageItem> = Vec::new();
    v.push(PageItem::SectionHeader("语言服务协议(LSP)"));
    v.push(PageItem::Setting(SettingItemInfo { title: "启用语言服务器", description: "是否使用语言服务器提供代码智能提示功能。", json_path: Some("languages.$(language).enable_language_server"), files: SettingFiles::UserAndProject, unimplemented: false }));
    v.push(PageItem::Setting(SettingItemInfo { title: "语言服务器列表", description: "该语言要使用（或禁用）的语言服务器列表。", json_path: Some("languages.$(language).language_servers"), files: SettingFiles::UserAndProject, unimplemented: true }));
    v.push(PageItem::Setting(SettingItemInfo { title: "关联编辑", description: "如果语言服务器支持，是否对关联范围执行关联编辑。例如，编辑开始的 <html> 标签时，结束的 </html> 标签内容也会同步编辑。", json_path: Some("languages.$(language).linked_edits"), files: SettingFiles::UserAndProject, unimplemented: false }));
    v.push(PageItem::Setting(SettingItemInfo { title: "转到定义备用方案", description: "是否处理语言服务器返回空结果的转到定义请求。", json_path: Some("go_to_definition_fallback"), files: SettingFiles::User, unimplemented: false }));
    v.push(PageItem::Setting(SettingItemInfo { title: "语义标记", description: "", json_path: Some("languages.$(language).semantic_tokens"), files: SettingFiles::UserAndProject, unimplemented: false }));
    v.push(PageItem::Setting(SettingItemInfo { title: "LSP折叠范围", description: "启用后，使用语言服务器提供的折叠范围，而非基于缩进的折叠方式。", json_path: Some("languages.$(language).document_folding_ranges"), files: SettingFiles::UserAndProject, unimplemented: false }));
    v.push(PageItem::Setting(SettingItemInfo { title: "LSP文档符号", description: "启用后，使用语言服务器的文档符号生成大纲和面包屑，而非树 sitter。", json_path: Some("languages.$(language).document_symbols"), files: SettingFiles::UserAndProject, unimplemented: false }));
    assert(v@ =~= lsp_section_spec());
    v
}

/// The "LSP代码补全" section.
pub open spec fn lsp_completions_section_spec() -> Seq<PageItem> {
    seq![
        PageItem::SectionHeader("LSP代码补全"),
        PageItem::Setting(SettingItemInfo { title: "启用", description: "是否获取LSP代码补全内容。", json_path: Some("languages.$(language).completions.lsp"), files: SettingFiles::UserAndProject, unimplemented: false }),
        PageItem::Setting(SettingItemInfo { title: "获取超时时间(毫秒)", description: "获取LSP代码补全时，等待指定服务器响应的时长（设为0表示无限等待）。", json_path: Some("languages.$(language).completions.lsp_fetch_timeout_ms"), files: SettingFiles::UserAndProject, unimplemented: false }),
        PageItem::Setting(SettingItemInfo { title: "插入模式", description: "控制LSP代码补全的插入方式。", json_path: Some("languages.$(language).completions.lsp_insert_mode"), files: SettingFiles::UserAndProject, unimplemented: false }),
    ]
}

fn lsp_completions_section() -> (r: Vec<PageItem>)
    ensures
        r@ == lsp_completions_section_spec(),
{
    let mut v: Vec<PageItem> = Vec::new();
    v.push(PageItem::SectionHeader("LSP代码补全"));
    v.push(PageItem::Setting(SettingItemInfo { title: "启用", description: "是否获取LSP代码补全内容。", json_path: Some("languages.$(language).completions.lsp"), files: SettingFiles::UserAndProject, unimplemented: false }));
    v.push(PageItem::Setting(SettingItemInfo { title: "获取超时时间(毫秒)", description: "获取LSP代码补全时，等待指定服务器响应的时长（设为0表示无限等待）。", json_path: Some("languages.$(language).completions.lsp_fetch_timeout_ms"), files: SettingFiles::UserAndProject, unimplemented: false }));
    v.push(PageItem::Setting(SettingItemInfo { title: "插入模式", description: "控制LSP代码补全的插入方式。", json_path: Some("languages.$(language).completions.lsp_insert_mode"), files: SettingFiles::UserAndProject, unimplemented: false }));
    assert(v@ =~= lsp_completions_section_spec());
    v
}

/// The "调试器" section.
pub open spec fn debugger_section_spec() -> Seq<PageItem> {
    seq![
        PageItem::SectionHeader("调试器"),
        PageItem::Setting(SettingItemInfo { title: "调试器", description: "该语言的首选调试器。", json_path: Some("languages.$(language).debuggers"), files: SettingFiles::UserAndProject, unimplemented: true }),
    ]
}

fn debugger_section() -> (r: Vec<PageItem>)
    ensures
        r@ == debugger_section_spec(),
{
    let mut v: Vec<PageItem> = Vec::new();
    v.push(PageItem::SectionHeader("调试器"));
    v.push(PageItem::Setting(SettingItemInfo { title: "调试器", description: "该语言的首选调试器。", json_path: Some("languages.$(language).debuggers"), files: SettingFiles::UserAndProject, unimplemented: true }));
    assert(v@ =~= debugger_section_spec());
    v
}

/// The "Prettier格式化" section.
pub open spec fn prettier_section_spec() -> Seq<PageItem> {
    seq![
        PageItem::SectionHeader("Prettier格式化"),
        PageItem::Setting(SettingItemInfo { title: "允许使用", description: "为指定语言启用或禁用Prettier格式化。", json_path: Some("languages.$(language).prettier.allowed"), files: SettingFiles::UserAndProject, unimplemented: false }),
        PageItem::Setting(SettingItemInfo { title: "解析器", description: "强制Prettier在格式化该语言文件时使用指定的解析器。", json_path: Some("languages.$(language).prettier.parser"), files: SettingFiles::UserAndProject, unimplemented: false }),
        PageItem::Setting(SettingItemInfo { title: "插件", description: "强制Prettier在格式化该语言文件时使用指定的插件。", json_path: Some("languages.$(language).prettier.plugins"), files: SettingFiles::UserAndProject, unimplemented: true }),
        PageItem::Setting(SettingItemInfo { title: "配置选项", description: "Prettier默认配置选项，格式与package.json中Prettier配置段一致。", json_path: Some("languages.$(language).prettier.options"), files: SettingFiles::UserAndProject, unimplemented: true }),
    ]
}

fn prettier_section() -> (r: Vec<PageItem>)
    ensures
        r@ == prettier_section_spec(),
{
    let mut v: Vec<PageItem> = Vec::new();
    v.push(PageItem::SectionHeader("Prettier格式化"));
    v.push(PageItem::Setting(SettingItemInfo { title: "允许使用", description: "为指定语言启用或禁用Prettier格式化。", json_path: Some("languages.$(language).prettier.allowed"), files: SettingFiles::UserAndProject, unimplemented: false }));
    v.push(PageItem::Setting(SettingItemInfo { title: "解析器", description: "强制Prettier在格式化该语言文件时使用指定的解析器。", json_path: Some("languages.$(language).prettier.parser"), files: SettingFiles::UserAndProject, unimplemented: false }));
    v.push(PageItem::Setting(SettingItemInfo { title: "插件", description: "强制Prettier在格式化该语言文件时使用指定的插件。", json_path: Some("languages.$(language).prettier.plugins"), files: SettingFiles::UserAndProject, unimplemented: true }));
    v.push(PageItem::Setting(SettingItemInfo { title: "配置选项", description: "Prettier默认配置选项，格式与package.json中Prettier配置段一致。", json_path: Some("languages.$(language).prettier.options"), files: SettingFiles::UserAndProject, unimplemented: true }));
    assert(v@ =~= prettier_section_spec());
    v
}

/// The language settings shown on the languages page rather than the editor page.
pub open spec fn non_editor_language_settings_spec() -> Seq<PageItem> {
    lsp_section_spec()
        + lsp_completions_section_spec()
        + debugger_section_spec()
        + prettier_section_spec()
}

/// The language settings shown on the languages page rather than the editor page.
pub fn non_editor_language_settings_items() -> (r: Vec<PageItem>)
    ensures
        r@ == non_editor_language_settings_spec(),
{
    let mut items = lsp_section();
    let mut next = lsp_completions_section();
    items.append(&mut next);
    let mut next = debugger_section();
    items.append(&mut next);
    let mut next = prettier_section();
    items.append(&mut next);
    items
}

/// No two entries of `non_editor_language_settings_spec` share a JSON path.
pub proof fn lemma_non_editor_language_settings_paths_distinct()
    ensures
        json_paths_distinct(non_editor_language_settings_spec()),
{
}

/// The "编辑预测" section.
pub open spec fn edit_prediction_section_spec() -> Seq<PageItem> {
    seq![
        PageItem::SectionHeader("编辑预测"),
        PageItem::SubPageLink(SubPageInfo { title: "配置服务提供方", description: Some("配置额外的编辑预测服务提供方，作为Zed内置Zeta模型的补充。"), json_path: Some("edit_predictions.providers"), files: SettingFiles::User, in_json: false, link_type: SubPageType::Standard }),
        PageItem::Setting(SettingItemInfo { title: "数据收集", description: "控制Zed在使用编辑预测功能时是否可以收集训练数据。仅会为检测为开源的项目文件收集数据。默认值使用此前通过状态栏开关设置的偏好，若未存储过偏好则为false。", json_path: Some("edit_predictions.allow_data_collection"), files: SettingFiles::User, unimplemented: false }),
        PageItem::Setting(SettingItemInfo { title: "显示编辑预测", description: "控制编辑预测是自动显示还是手动触发显示。", json_path: Some("languages.$(language).show_edit_predictions"), files: SettingFiles::UserAndProject, unimplemented: false }),
        PageItem::Setting(SettingItemInfo { title: "指定语言作用域禁用", description: "控制在指定的语言作用域中是否显示编辑预测。", json_path: Some("languages.$(language).edit_predictions_disabled_in"), files: SettingFiles::UserAndProject, unimplemented: true }),
    ]
}

fn edit_prediction_section() -> (r: Vec<PageItem>)
    ensures
        r@ == edit_prediction_section_spec(),
{
    let mut v: Vec<PageItem> = Vec::new();
    v.push(PageItem::SectionHeader("编辑预测"));
    v.push(PageItem::SubPageLink(SubPageInfo { title: "配置服务提供方", description: Some("配置额外的编辑预测服务提供方，作为Zed内置Zeta模型的补充。"), json_path: Some("edit_predictions.providers"), files: SettingFiles::User, in_json: false, link_type: SubPageType::Standard }));
    v.push(PageItem::Setting(SettingItemInfo { title: "数据收集", description: "控制Zed在使用编辑预测功能时是否可以收集训练数据。仅会为检测为开源的项目文件收集数据。默认值使用此前通过状态栏开关设置的偏好，若未存储过偏好则为false。", json_path: Some("edit_predictions.allow_data_collection"), files: SettingFiles::User, unimplemented: false }));
    v.push(PageItem::Setting(SettingItemInfo { title: "显示编辑预测", description: "控制编辑预测是自动显示还是手动触发显示。", json_path: Some("languages.$(language).show_edit_predictions"), files: SettingFiles::UserAndProject, unimplemented: false }));
    v.push(PageItem::Setting(SettingItemInfo { title: "指定语言作用域禁用", description: "控制在指定的语言作用域中是否显示编辑预测。", json_path: Some("languages.$(language).edit_predictions_disabled_in"), files: SettingFiles::UserAndProject, unimplemented: true }));
    assert(v@ =~= edit_prediction_section_spec());
    v
}

/// The edit-prediction settings of a language.
pub fn edit_prediction_language_settings_items() -> (r: Vec<PageItem>)
    ensures
        r@ == edit_prediction_section_spec(),
{
    edit_prediction_section()
}

/// No two entries of `edit_prediction_section_spec` share a JSON path.
pub proof fn lemma_edit_prediction_section_paths_distinct()
    ensures
        json_paths_distinct(edit_prediction_section_spec()),
{
}

/// The entries of a language's own page: its language settings, then the
/// settings kept off the editor page, then its edit-prediction settings. The
/// debugger setting of the language is listed twice, in the miscellaneous
/// group and in the debugger group.
pub open spec fn language_page_spec(has_active_language: bool) -> Seq<PageItem> {
    language_settings_spec(has_active_language) + non_editor_language_settings_spec() + edit_prediction_section_spec()
}

/// The entries of a language's own page.
pub fn language_page_items(has_active_language: bool) -> (r: Vec<PageItem>)
    ensures
        r@ == language_page_spec(has_active_language),
{
    let mut items = language_settings_items(has_active_language);
    let mut next = non_editor_language_settings_items();
    items.append(&mut next);
    let mut next = edit_prediction_language_settings_items();
    items.append(&mut next);
    items
}

} // verus!
