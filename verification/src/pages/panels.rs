use vstd::prelude::*;
use crate::page_model::{PageItem, SettingItemInfo, SubPageInfo, SubPageType, ActionInfo, SettingFiles, json_paths_distinct};

verus! {

/// The "项目面板" section.
pub open spec fn project_panel_section_spec() -> Seq<PageItem> {
    seq![
        PageItem::SectionHeader("项目面板"),
        PageItem::Setting(SettingItemInfo { title: "项目面板停靠位置", description: "设置项目面板的停靠位置。", json_path: Some("project_panel.dock"), files: SettingFiles::User, unimplemented: false }),
        PageItem::Setting(SettingItemInfo { title: "项目面板默认宽度", description: "项目面板的默认宽度（像素）。", json_path: Some("project_panel.default_width"), files: SettingFiles::User, unimplemented: false }),
        PageItem::Setting(SettingItemInfo { title: "隐藏 .gitignore 文件", description: "是否在项目面板中隐藏被 git 忽略的文件。", json_path: Some("project_panel.hide_gitignore"), files: SettingFiles::User, unimplemented: false }),
        PageItem::Setting(SettingItemInfo { title: "条目间距", description: "项目面板中文件/文件夹条目之间的间距。", json_path: Some("project_panel.entry_spacing"), files: SettingFiles::User, unimplemented: false }),
        PageItem::Setting(SettingItemInfo { title: "文件图标", description: "在项目面板中显示文件图标。", json_path: Some("project_panel.file_icons"), files: SettingFiles::User, unimplemented: false }),
        PageItem::Setting(SettingItemInfo { title: "文件夹图标", description: "为目录显示文件夹图标或折叠箭头。", json_path: Some("project_panel.folder_icons"), files: SettingFiles::User, unimplemented: false }),
        PageItem::Setting(SettingItemInfo { title: "Git 状态", description: "在项目面板中显示文件 Git 状态。", json_path: Some("project_panel.git_status"), files: SettingFiles::User, unimplemented: false }),
        PageItem::Setting(SettingItemInfo { title: "缩进大小", description: "嵌套项目的缩进宽度。", json_path: Some("project_panel.indent_size"), files: SettingFiles::User, unimplemented: false }),
        PageItem::Setting(SettingItemInfo { title: "自动定位条目", description: "打开文件时，自动在项目面板中定位并显示该文件。", json_path: Some("project_panel.auto_reveal_entries"), files: SettingFiles::User, unimplemented: false }),
        PageItem::Setting(SettingItemInfo { title: "启动时自动打开", description: "启动编辑器时自动打开项目面板。", json_path: Some("project_panel.starts_open"), files: SettingFiles::User, unimplemented: false }),
        PageItem::Setting(SettingItemInfo { title: "自动折叠目录", description: "自动折叠仅包含单个子目录的文件夹，显示紧凑结构。", json_path: Some("project_panel.auto_fold_dirs"), files: SettingFiles::User, unimplemented: false }),
        PageItem::Setting(SettingItemInfo { title: "文件夹名称加粗", description: "在项目面板中加粗显示文件夹名称。", json_path: Some("project_panel.bold_folder_labels"), files: SettingFiles::User, unimplemented: false }),
        PageItem::Setting(SettingItemInfo { title: "显示滚动条", description: "在项目面板中显示滚动条。", json_path: Some("project_panel.scrollbar.show"), files: SettingFiles::User, unimplemented: false }),
        PageItem::Setting(SettingItemInfo { title: "水平滚动", description: "是否允许项目面板水平滚动。禁用后视图固定靠左，长文件名会被截断。", json_path: Some("project_panel.scrollbar.horizontal_scroll"), files: SettingFiles::User, unimplemented: false }),
        PageItem::Setting(SettingItemInfo { title: "显示诊断标记", description: "在项目面板中标记包含错误/警告的文件。", json_path: Some("project_panel.show_diagnostics"), files: SettingFiles::User, unimplemented: false }),
        PageItem::Setting(SettingItemInfo { title: "诊断数量角标", description: "在文件名旁显示错误和警告数量角标。", json_path: Some("project_panel.diagnostic_badges"), files: SettingFiles::User, unimplemented: false }),
        PageItem::Setting(SettingItemInfo { title: "Git 状态指示器", description: "在文件名旁显示 Git 状态指示器。", json_path: Some("project_panel.git_status_indicator"), files: SettingFiles::User, unimplemented: false }),
        PageItem::Setting(SettingItemInfo { title: "粘性滚动", description: "将父目录固定在项目面板顶部。", json_path: Some("project_panel.sticky_scroll"), files: SettingFiles::User, unimplemented: false }),
        PageItem::Setting(SettingItemInfo { title: "显示缩进辅助线", description: "在项目面板中显示层级缩进辅助线。", json_path: Some("project_panel.indent_guides.show"), files: SettingFiles::User, unimplemented: false }),
        PageItem::Setting(SettingItemInfo { title: "拖拽操作", description: "是否在项目面板中启用文件拖拽功能。", json_path: Some("project_panel.drag_and_drop"), files: SettingFiles::User, unimplemented: false }),
        PageItem::Setting(SettingItemInfo { title: "隐藏根目录", description: "窗口仅打开一个文件夹时，隐藏根目录条目。", json_path: Some("project_panel.hide_root"), files: SettingFiles::User, unimplemented: false }),
        PageItem::Setting(SettingItemInfo { title: "隐藏隐藏文件", description: "是否在项目面板中隐藏隐藏文件。", json_path: Some("project_panel.hide_hidden"), files: SettingFiles::User, unimplemented: false }),
        PageItem::Setting(SettingItemInfo { title: "排序模式", description: "项目面板中条目的排序方式。", json_path: Some("project_panel.sort_mode"), files: SettingFiles::User, unimplemented: false }),
        PageItem::Setting(SettingItemInfo { title: "排序规则", description: "项目面板中文件和文件夹名称是否区分大小写排序。", json_path: Some("project_panel.sort_order"), files: SettingFiles::User, unimplemented: false }),
        PageItem::Setting(SettingItemInfo { title: "创建后自动打开文件", description: "新建文件后是否自动在编辑器中打开。", json_path: Some("project_panel.auto_open.on_create"), files: SettingFiles::User, unimplemented: false }),
        PageItem::Setting(SettingItemInfo { title: "粘贴后自动打开文件", description: "粘贴或复制文件后是否自动打开。", json_path: Some("project_panel.auto_open.on_paste"), files: SettingFiles::User, unimplemented: false }),
        PageItem::Setting(SettingItemInfo { title: "拖入后自动打开文件", description: "拖入外部文件后是否自动打开。", json_path: Some("project_panel.auto_open.on_drop"), files: SettingFiles::User, unimplemented: false }),
        PageItem::Setting(SettingItemInfo { title: "隐藏文件规则", description: "匹配将被视为「隐藏」并可在项目面板中隐藏的文件通配符。", json_path: Some("worktree.hidden_files"), files: SettingFiles::User, unimplemented: true }),
    ]
}

fn project_panel_section() -> (r: Vec<PageItem>)
    ensures
        r@ == project_panel_section_spec(),
{
    let mut v: Vec<PageItem> = Vec::new();
    v.push(PageItem::SectionHeader("项目面板"));
    v.push(PageItem::Setting(SettingItemInfo { title: "项目面板停靠位置", description: "设置项目面板的停靠位置。", json_path: Some("project_panel.dock"), files: SettingFiles::User, unimplemented: false }));
    v.push(PageItem::Setting(SettingItemInfo { title: "项目面板默认宽度", description: "项目面板的默认宽度（像素）。", json_path: Some("project_panel.default_width"), files: SettingFiles::User, unimplemented: false }));
    v.push(PageItem::Setting(SettingItemInfo { title: "隐藏 .gitignore 文件", description: "是否在项目面板中隐藏被 git 忽略的文件。", json_path: Some("project_panel.hide_gitignore"), files: SettingFiles::User, unimplemented: false }));
    v.push(PageItem::Setting(SettingItemInfo { title: "条目间距", description: "项目面板中文件/文件夹条目之间的间距。", json_path: Some("project_panel.entry_spacing"), files: SettingFiles::User, unimplemented: false }));
    v.push(PageItem::Setting(SettingItemInfo { title: "文件图标", description: "在项目面板中显示文件图标。", json_path: Some("project_panel.file_icons"), files: SettingFiles::User, unimplemented: false }));
    v.push(PageItem::Setting(SettingItemInfo { title: "文件夹图标", description: "为目录显示文件夹图标或折叠箭头。", json_path: Some("project_panel.folder_icons"), files: SettingFiles::User, unimplemented: false }));
    v.push(PageItem::Setting(SettingItemInfo { title: "Git 状态", description: "在项目面板中显示文件 Git 状态。", json_path: Some("project_panel.git_status"), files: SettingFiles::User, unimplemented: false }));
    v.push(PageItem::Setting(SettingItemInfo { title: "缩进大小", description: "嵌套项目的缩进宽度。", json_path: Some("project_panel.indent_size"), files: SettingFiles::User, unimplemented: false }));
    v.push(PageItem::Setting(SettingItemInfo { title: "自动定位条目", description: "打开文件时，自动在项目面板中定位并显示该文件。", json_path: Some("project_panel.auto_reveal_entries"), files: SettingFiles::User, unimplemented: false }));
    v.push(PageItem::Setting(SettingItemInfo { title: "启动时自动打开", description: "启动编辑器时自动打开项目面板。", json_path: Some("project_panel.starts_open"), files: SettingFiles::User, unimplemented: false }));
    v.push(PageItem::Setting(SettingItemInfo { title: "自动折叠目录", description: "自动折叠仅包含单个子目录的文件夹，显示紧凑结构。", json_path: Some("project_panel.auto_fold_dirs"), files: SettingFiles::User, unimplemented: false }));
    v.push(PageItem::Setting(SettingItemInfo { title: "文件夹名称加粗", description: "在项目面板中加粗显示文件夹名称。", json_path: Some("project_panel.bold_folder_labels"), files: SettingFiles::User, unimplemented: false }));
    v.push(PageItem::Setting(SettingItemInfo { title: "显示滚动条", description: "在项目面板中显示滚动条。", json_path: Some("project_panel.scrollbar.show"), files: SettingFiles::User, unimplemented: false }));
    v.push(PageItem::Setting(SettingItemInfo { title: "水平滚动", description: "是否允许项目面板水平滚动。禁用后视图固定靠左，长文件名会被截断。", json_path: Some("project_panel.scrollbar.horizontal_scroll"), files: SettingFiles::User, unimplemented: false }));
    v.push(PageItem::Setting(SettingItemInfo { title: "显示诊断标记", description: "在项目面板中标记包含错误/警告的文件。", json_path: Some("project_panel.show_diagnostics"), files: SettingFiles::User, unimplemented: false }));
    v.push(PageItem::Setting(SettingItemInfo { title: "诊断数量角标", description: "在文件名旁显示错误和警告数量角标。", json_path: Some("project_panel.diagnostic_badges"), files: SettingFiles::User, unimplemented: false }));
    v.push(PageItem::Setting(SettingItemInfo { title: "Git 状态指示器", description: "在文件名旁显示 Git 状态指示器。", json_path: Some("project_panel.git_status_indicator"), files: SettingFiles::User, unimplemented: false }));
    v.push(PageItem::Setting(SettingItemInfo { title: "粘性滚动", description: "将父目录固定在项目面板顶部。", json_path: Some("project_panel.sticky_scroll"), files: SettingFiles::User, unimplemented: false }));
    v.push(PageItem::Setting(SettingItemInfo { title: "显示缩进辅助线", description: "在项目面板中显示层级缩进辅助线。", json_path: Some("project_panel.indent_guides.show"), files: SettingFiles::User, unimplemented: false }));
    v.push(PageItem::Setting(SettingItemInfo { title: "拖拽操作", description: "是否在项目面板中启用文件拖拽功能。", json_path: Some("project_panel.drag_and_drop"), files: SettingFiles::User, unimplemented: false }));
    v.push(PageItem::Setting(SettingItemInfo { title: "隐藏根目录", description: "窗口仅打开一个文件夹时，隐藏根目录条目。", json_path: Some("project_panel.hide_root"), files: SettingFiles::User, unimplemented: false }));
    v.push(PageItem::Setting(SettingItemInfo { title: "隐藏隐藏文件", description: "是否在项目面板中隐藏隐藏文件。", json_path: Some("project_panel.hide_hidden"), files: SettingFiles::User, unimplemented: false }));
    v.push(PageItem::Setting(SettingItemInfo { title: "排序模式", description: "项目面板中条目的排序方式。", json_path: Some("project_panel.sort_mode"), files: SettingFiles::User, unimplemented: false }));
    v.push(PageItem::Setting(SettingItemInfo { title: "排序规则", description: "项目面板中文件和文件夹名称是否区分大小写排序。", json_path: Some("project_panel.sort_order"), files: SettingFiles::User, unimplemented: false }));
    v.push(PageItem::Setting(SettingItemInfo { title: "创建后自动打开文件", description: "新建文件后是否自动在编辑器中打开。", json_path: Some("project_panel.auto_open.on_create"), files: SettingFiles::User, unimplemented: false }));
    v.push(PageItem::Setting(SettingItemInfo { title: "粘贴后自动打开文件", description: "粘贴或复制文件后是否自动打开。", json_path: Some("project_panel.auto_open.on_paste"), files: SettingFiles::User, unimplemented: false }));
    v.push(PageItem::Setting(SettingItemInfo { title: "拖入后自动打开文件", description: "拖入外部文件后是否自动打开。", json_path: Some("project_panel.auto_open.on_drop"), files: SettingFiles::User, unimplemented: false }));
    v.push(PageItem::Setting(SettingItemInfo { title: "隐藏文件规则", description: "匹配将被视为「隐藏」并可在项目面板中隐藏的文件通配符。", json_path: Some("worktree.hidden_files"), files: SettingFiles::User, unimplemented: true }));
    assert(v@ =~= project_panel_section_spec());
    v
}

/// The "终端面板" section.
pub open spec fn terminal_panel_section_spec() -> Seq<PageItem> {
    seq![
        PageItem::SectionHeader("终端面板"),
        PageItem::Setting(SettingItemInfo { title: "终端面板停靠位置", description: "设置终端面板的停靠位置。", json_path: Some("terminal.dock"), files: SettingFiles::User, unimplemented: false }),
        PageItem::Setting(SettingItemInfo { title: "终端面板自适应大小", description: "终端面板停靠在左侧/右侧时，使用自适应（比例）大小。", json_path: Some("terminal.flexible"), files: SettingFiles::User, unimplemented: false }),
        PageItem::Setting(SettingItemInfo { title: "显示数量角标", description: "在终端面板图标上显示打开的终端数量角标。", json_path: Some("terminal.show_count_badge"), files: SettingFiles::User, unimplemented: false }),
    ]
}

fn terminal_panel_section() -> (r: Vec<PageItem>)
    ensures
        r@ == terminal_panel_section_spec(),
{
    let mut v: Vec<PageItem> = Vec::new();
    v.push(PageItem::SectionHeader("终端面板"));
    v.push(PageItem::Setting(SettingItemInfo { title: "终端面板停靠位置", description: "设置终端面板的停靠位置。", json_path: Some("terminal.dock"), files: SettingFiles::User, unimplemented: false }));
    v.push(PageItem::Setting(SettingItemInfo { title: "终端面板自适应大小", description: "终端面板停靠在左侧/右侧时，使用自适应（比例）大小。", json_path: Some("terminal.flexible"), files: SettingFiles::User, unimplemented: false }));
    v.push(PageItem::Setting(SettingItemInfo { title: "显示数量角标", description: "在终端面板图标上显示打开的终端数量角标。", json_path: Some("terminal.show_count_badge"), files: SettingFiles::User, unimplemented: false }));
    assert(v@ =~= terminal_panel_section_spec());
    v
}

/// The "大纲面板" section.
pub open spec fn outline_panel_section_spec() -> Seq<PageItem> {
    seq![
        PageItem::SectionHeader("大纲面板"),
        PageItem::Setting(SettingItemInfo { title: "大纲面板按钮", description: "在状态栏中显示大纲面板按钮。", json_path: Some("outline_panel.button"), files: SettingFiles::User, unimplemented: false }),
        PageItem::Setting(SettingItemInfo { title: "大纲面板停靠位置", description: "设置大纲面板的停靠位置。", json_path: Some("outline_panel.dock"), files: SettingFiles::User, unimplemented: false }),
        PageItem::Setting(SettingItemInfo { title: "大纲面板默认宽度", description: "大纲面板的默认宽度（像素）。", json_path: Some("outline_panel.default_width"), files: SettingFiles::User, unimplemented: false }),
        PageItem::Setting(SettingItemInfo { title: "文件图标", description: "在大纲面板中显示文件图标。", json_path: Some("outline_panel.file_icons"), files: SettingFiles::User, unimplemented: false }),
        PageItem::Setting(SettingItemInfo { title: "文件夹图标", description: "为目录显示文件夹图标或折叠箭头。", json_path: Some("outline_panel.folder_icons"), files: SettingFiles::User, unimplemented: false }),
        PageItem::Setting(SettingItemInfo { title: "Git 状态", description: "在大纲面板中显示文件 Git 状态。", json_path: Some("outline_panel.git_status"), files: SettingFiles::User, unimplemented: false }),
        PageItem::Setting(SettingItemInfo { title: "缩进大小", description: "嵌套项目的缩进宽度。", json_path: Some("outline_panel.indent_size"), files: SettingFiles::User, unimplemented: false }),
        PageItem::Setting(SettingItemInfo { title: "自动定位条目", description: "打开文件时，自动在大纲面板中定位并显示该文件。", json_path: Some("outline_panel.auto_reveal_entries"), files: SettingFiles::User, unimplemented: false }),
        PageItem::Setting(SettingItemInfo { title: "自动折叠目录", description: "自动折叠仅包含单个子目录的文件夹。", json_path: Some("outline_panel.auto_fold_dirs"), files: SettingFiles::User, unimplemented: false }),
        PageItem::Setting(SettingItemInfo { title: "显示缩进辅助线", description: "在大纲面板中显示层级缩进辅助线。", json_path: Some("outline_panel.indent_guides.show"), files: SettingFiles::User, unimplemented: false }),
    ]
}

fn outline_panel_section() -> (r: Vec<PageItem>)
    ensures
        r@ == outline_panel_section_spec(),
{
    let mut v: Vec<PageItem> = Vec::new();
    v.push(PageItem::SectionHeader("大纲面板"));
    v.push(PageItem::Setting(SettingItemInfo { title: "大纲面板按钮", description: "在状态栏中显示大纲面板按钮。", json_path: Some("outline_panel.button"), files: SettingFiles::User, unimplemented: false }));
    v.push(PageItem::Setting(SettingItemInfo { title: "大纲面板停靠位置", description: "设置大纲面板的停靠位置。", json_path: Some("outline_panel.dock"), files: SettingFiles::User, unimplemented: false }));
    v.push(PageItem::Setting(SettingItemInfo { title: "大纲面板默认宽度", description: "大纲面板的默认宽度（像素）。", json_path: Some("outline_panel.default_width"), files: SettingFiles::User, unimplemented: false }));
    v.push(PageItem::Setting(SettingItemInfo { title: "文件图标", description: "在大纲面板中显示文件图标。", json_path: Some("outline_panel.file_icons"), files: SettingFiles::User, unimplemented: false }));
    v.push(PageItem::Setting(SettingItemInfo { title: "文件夹图标", description: "为目录显示文件夹图标或折叠箭头。", json_path: Some("outline_panel.folder_icons"), files: SettingFiles::User, unimplemented: false }));
    v.push(PageItem::Setting(SettingItemInfo { title: "Git 状态", description: "在大纲面板中显示文件 Git 状态。", json_path: Some("outline_panel.git_status"), files: SettingFiles::User, unimplemented: false }));
    v.push(PageItem::Setting(SettingItemInfo { title: "缩进大小", description: "嵌套项目的缩进宽度。", json_path: Some("outline_panel.indent_size"), files: SettingFiles::User, unimplemented: false }));
    v.push(PageItem::Setting(SettingItemInfo { title: "自动定位条目", description: "打开文件时，自动在大纲面板中定位并显示该文件。", json_path: Some("outline_panel.auto_reveal_entries"), files: SettingFiles::User, unimplemented: false }));
    v.push(PageItem::Setting(SettingItemInfo { title: "自动折叠目录", description: "自动折叠仅包含单个子目录的文件夹。", json_path: Some("outline_panel.auto_fold_dirs"), files: SettingFiles::User, unimplemented: false }));
    v.push(PageItem::Setting(SettingItemInfo { title: "显示缩进辅助线", description: "在大纲面板中显示层级缩进辅助线。", json_path: Some("outline_panel.indent_guides.show"), files: SettingFiles::User, unimplemented: false }));
    assert(v@ =~= outline_panel_section_spec());
    v
}

/// The "Git 面板" section.
pub open spec fn git_panel_section_spec() -> Seq<PageItem> {
    seq![
        PageItem::SectionHeader("Git 面板"),
        PageItem::Setting(SettingItemInfo { title: "Git 面板按钮", description: "在状态栏中显示 Git 面板按钮。", json_path: Some("git_panel.button"), files: SettingFiles::User, unimplemented: false }),
        PageItem::Setting(SettingItemInfo { title: "Git 面板停靠位置", description: "设置 Git 面板的停靠位置。", json_path: Some("git_panel.dock"), files: SettingFiles::User, unimplemented: false }),
        PageItem::Setting(SettingItemInfo { title: "Git 面板默认宽度", description: "Git 面板的默认宽度（像素）。", json_path: Some("git_panel.default_width"), files: SettingFiles::User, unimplemented: false }),
        PageItem::Setting(SettingItemInfo { title: "Git 状态显示样式", description: "文件状态在面板中的展示方式。", json_path: Some("git_panel.status_style"), files: SettingFiles::User, unimplemented: false }),
        PageItem::Setting(SettingItemInfo { title: "默认分支名称", description: "Git 未配置 init.defaultbranch 时使用的默认分支名。", json_path: Some("git_panel.fallback_branch_name"), files: SettingFiles::User, unimplemented: false }),
        PageItem::Setting(SettingItemInfo { title: "按路径排序", description: "启用则按路径排序，禁用则按状态排序。", json_path: Some("git_panel.sort_by_path"), files: SettingFiles::User, unimplemented: false }),
        PageItem::Setting(SettingItemInfo { title: "折叠未跟踪文件差异", description: "在差异面板中折叠未跟踪文件。", json_path: Some("git_panel.collapse_untracked_diff"), files: SettingFiles::User, unimplemented: false }),
        PageItem::Setting(SettingItemInfo { title: "树状视图", description: "启用则以树状结构显示，禁用则以扁平列表显示。", json_path: Some("git_panel.tree_view"), files: SettingFiles::User, unimplemented: false }),
        PageItem::Setting(SettingItemInfo { title: "文件图标", description: "在 Git 状态图标旁显示文件图标。", json_path: Some("git_panel.file_icons"), files: SettingFiles::User, unimplemented: false }),
        PageItem::Setting(SettingItemInfo { title: "文件夹图标", description: "为目录显示文件夹图标或折叠箭头。", json_path: Some("git_panel.folder_icons"), files: SettingFiles::User, unimplemented: false }),
        PageItem::Setting(SettingItemInfo { title: "显示差异统计", description: "在每个文件旁显示新增/删除行数统计。", json_path: Some("git_panel.diff_stats"), files: SettingFiles::User, unimplemented: false }),
        PageItem::Setting(SettingItemInfo { title: "显示未提交变更角标", description: "在 Git 面板图标上显示未提交更改数量角标。", json_path: Some("git_panel.show_count_badge"), files: SettingFiles::User, unimplemented: false }),
        PageItem::Setting(SettingItemInfo { title: "提交标题最大长度", description: "提交信息标题的最大长度，超出显示警告。设为 0 禁用。", json_path: Some("git_panel.commit_title_max_length"), files: SettingFiles::User, unimplemented: false }),
        PageItem::Setting(SettingItemInfo { title: "滚动条", description: "滚动条的显示方式和时机。", json_path: Some("git_panel.scrollbar.show"), files: SettingFiles::User, unimplemented: false }),
    ]
}

fn git_panel_section() -> (r: Vec<PageItem>)
    ensures
        r@ == git_panel_section_spec(),
{
    let mut v: Vec<PageItem> = Vec::new();
    v.push(PageItem::SectionHeader("Git 面板"));
    v.push(PageItem::Setting(SettingItemInfo { title: "Git 面板按钮", description: "在状态栏中显示 Git 面板按钮。", json_path: Some("git_panel.button"), files: SettingFiles::User, unimplemented: false }));
    v.push(PageItem::Setting(SettingItemInfo { title: "Git 面板停靠位置", description: "设置 Git 面板的停靠位置。", json_path: Some("git_panel.dock"), files: SettingFiles::User, unimplemented: false }));
    v.push(PageItem::Setting(SettingItemInfo { title: "Git 面板默认宽度", description: "Git 面板的默认宽度（像素）。", json_path: Some("git_panel.default_width"), files: SettingFiles::User, unimplemented: false }));
    v.push(PageItem::Setting(SettingItemInfo { title: "Git 状态显示样式", description: "文件状态在面板中的展示方式。", json_path: Some("git_panel.status_style"), files: SettingFiles::User, unimplemented: false }));
    v.push(PageItem::Setting(SettingItemInfo { title: "默认分支名称", description: "Git 未配置 init.defaultbranch 时使用的默认分支名。", json_path: Some("git_panel.fallback_branch_name"), files: SettingFiles::User, unimplemented: false }));
    v.push(PageItem::Setting(SettingItemInfo { title: "按路径排序", description: "启用则按路径排序，禁用则按状态排序。", json_path: Some("git_panel.sort_by_path"), files: SettingFiles::User, unimplemented: false }));
    v.push(PageItem::Setting(SettingItemInfo { title: "折叠未跟踪文件差异", description: "在差异面板中折叠未跟踪文件。", json_path: Some("git_panel.collapse_untracked_diff"), files: SettingFiles::User, unimplemented: false }));
    v.push(PageItem::Setting(SettingItemInfo { title: "树状视图", description: "启用则以树状结构显示，禁用则以扁平列表显示。", json_path: Some("git_panel.tree_view"), files: SettingFiles::User, unimplemented: false }));
    v.push(PageItem::Setting(SettingItemInfo { title: "文件图标", description: "在 Git 状态图标旁显示文件图标。", json_path: Some("git_panel.file_icons"), files: SettingFiles::User, unimplemented: false }));
    v.push(PageItem::Setting(SettingItemInfo { title: "文件夹图标", description: "为目录显示文件夹图标或折叠箭头。", json_path: Some("git_panel.folder_icons"), files: SettingFiles::User, unimplemented: false }));
    v.push(PageItem::Setting(SettingItemInfo { title: "显示差异统计", description: "在每个文件旁显示新增/删除行数统计。", json_path: Some("git_panel.diff_stats"), files: SettingFiles::User, unimplemented: false }));
    v.push(PageItem::Setting(SettingItemInfo { title: "显示未提交变更角标", description: "在 Git 面板图标上显示未提交更改数量角标。", json_path: Some("git_panel.show_count_badge"), files: SettingFiles::User, unimplemented: false }));
    v.push(PageItem::Setting(SettingItemInfo { title: "提交标题最大长度", description: "提交信息标题的最大长度，超出显示警告。设为 0 禁用。", json_path: Some("git_panel.commit_title_max_length"), files: SettingFiles::User, unimplemented: false }));
    v.push(PageItem::Setting(SettingItemInfo { title: "滚动条", description: "滚动条的显示方式和时机。", json_path: Some("git_panel.scrollbar.show"), files: SettingFiles::User, unimplemented: false }));
    assert(v@ =~= git_panel_section_spec());
    v
}

/// The "调试器面板" section.
pub open spec fn debugger_panel_section_spec() -> Seq<PageItem> {
    seq![
        PageItem::SectionHeader("调试器面板"),
        PageItem::Setting(SettingItemInfo { title: "调试器面板停靠位置", description: "调试面板的停靠位置。", json_path: Some("debugger.dock"), files: SettingFiles::User, unimplemented: false }),
    ]
}

fn debugger_panel_section() -> (r: Vec<PageItem>)
    ensures
        r@ == debugger_panel_section_spec(),
{
    let mut v: Vec<PageItem> = Vec::new();
    v.push(PageItem::SectionHeader("调试器面板"));
    v.push(PageItem::Setting(SettingItemInfo { title: "调试器面板停靠位置", description: "调试面板的停靠位置。", json_path: Some("debugger.dock"), files: SettingFiles::User, unimplemented: false }));
    assert(v@ =~= debugger_panel_section_spec());
    v
}

/// The "协作面板" section.
pub open spec fn collaboration_panel_section_spec() -> Seq<PageItem> {
    seq![
        PageItem::SectionHeader("协作面板"),
        PageItem::Setting(SettingItemInfo { title: "协作面板按钮", description: "在状态栏中显示协作面板按钮。", json_path: Some("collaboration_panel.button"), files: SettingFiles::User, unimplemented: false }),
        PageItem::Setting(SettingItemInfo { title: "协作面板停靠位置", description: "设置协作面板的停靠位置。", json_path: Some("collaboration_panel.dock"), files: SettingFiles::User, unimplemented: false }),
        PageItem::Setting(SettingItemInfo { title: "协作面板默认宽度", description: "协作面板的默认宽度（像素）。", json_path: Some("collaboration_panel.default_width"), files: SettingFiles::User, unimplemented: false }),
    ]
}

fn collaboration_panel_section() -> (r: Vec<PageItem>)
    ensures
        r@ == collaboration_panel_section_spec(),
{
    let mut v: Vec<PageItem> = Vec::new();
    v.push(PageItem::SectionHeader("协作面板"));
    v.push(PageItem::Setting(SettingItemInfo { title: "协作面板按钮", description: "在状态栏中显示协作面板按钮。", json_path: Some("collaboration_panel.button"), files: SettingFiles::User, unimplemented: false }));
    v.push(PageItem::Setting(SettingItemInfo { title: "协作面板停靠位置", description: "设置协作面板的停靠位置。", json_path: Some("collaboration_panel.dock"), files: SettingFiles::User, unimplemented: false }));
    v.push(PageItem::Setting(SettingItemInfo { title: "协作面板默认宽度", description: "协作面板的默认宽度（像素）。", json_path: Some("collaboration_panel.default_width"), files: SettingFiles::User, unimplemented: false }));
    assert(v@ =~= collaboration_panel_section_spec());
    v
}

/// The "AI 助手面板" section.
pub open spec fn agent_panel_section_spec() -> Seq<PageItem> {
    seq![
        PageItem::SectionHeader("AI 助手面板"),
        PageItem::Setting(SettingItemInfo { title: "AI 助手面板按钮", description: "在状态栏中显示 AI 助手面板按钮。", json_path: Some("agent.button"), files: SettingFiles::User, unimplemented: false }),
        PageItem::Setting(SettingItemInfo { title: "AI 助手面板停靠位置", description: "设置 AI 助手面板的停靠位置。", json_path: Some("agent.dock"), files: SettingFiles::User, unimplemented: false }),
        PageItem::Setting(SettingItemInfo { title: "AI 助手面板自适应大小", description: "AI 助手面板停靠在左侧/右侧时，使用自适应（比例）大小。", json_path: Some("agent.flexible"), files: SettingFiles::User, unimplemented: false }),
        PageItem::Setting(SettingItemInfo { title: "AI 助手面板默认宽度", description: "AI 助手面板停靠在左侧/右侧时的默认宽度。", json_path: Some("agent.default_width"), files: SettingFiles::User, unimplemented: false }),
        PageItem::Setting(SettingItemInfo { title: "AI 助手面板默认高度", description: "AI 助手面板停靠在底部时的默认高度。", json_path: Some("agent.default_height"), files: SettingFiles::User, unimplemented: false }),
        PageItem::VariantPicker(SettingItemInfo { title: "限制内容宽度", description: "是否将 AI 助手面板内容限制在最大宽度内，过宽时居中以提升可读性。", json_path: Some("agent.limit_content_width"), files: SettingFiles::User, unimplemented: false }),
        PageItem::VariantSetting("1", SettingItemInfo { title: "最大内容宽度", description: "内容最大宽度（像素），面板超出此宽度时内容居中。", json_path: Some("agent.max_content_width"), files: SettingFiles::User, unimplemented: false }),
    ]
}

fn agent_panel_section() -> (r: Vec<PageItem>)
    ensures
        r@ == agent_panel_section_spec(),
{
    let mut v: Vec<PageItem> = Vec::new();
    v.push(PageItem::SectionHeader("AI 助手面板"));
    v.push(PageItem::Setting(SettingItemInfo { title: "AI 助手面板按钮", description: "在状态栏中显示 AI 助手面板按钮。", json_path: Some("agent.button"), files: SettingFiles::User, unimplemented: false }));
    v.push(PageItem::Setting(SettingItemInfo { title: "AI 助手面板停靠位置", description: "设置 AI 助手面板的停靠位置。", json_path: Some("agent.dock"), files: SettingFiles::User, unimplemented: false }));
    v.push(PageItem::Setting(SettingItemInfo { title: "AI 助手面板自适应大小", description: "AI 助手面板停靠在左侧/右侧时，使用自适应（比例）大小。", json_path: Some("agent.flexible"), files: SettingFiles::User, unimplemented: false }));
    v.push(PageItem::Setting(SettingItemInfo { title: "AI 助手面板默认宽度", description: "AI 助手面板停靠在左侧/右侧时的默认宽度。", json_path: Some("agent.default_width"), files: SettingFiles::User, unimplemented: false }));
    v.push(PageItem::Setting(SettingItemInfo { title: "AI 助手面板默认高度", description: "AI 助手面板停靠在底部时的默认高度。", json_path: Some("agent.default_height"), files: SettingFiles::User, unimplemented: false }));
    v.push(PageItem::VariantPicker(SettingItemInfo { title: "限制内容宽度", description: "是否将 AI 助手面板内容限制在最大宽度内，过宽时居中以提升可读性。", json_path: Some("agent.limit_content_width"), files: SettingFiles::User, unimplemented: false }));
    v.push(PageItem::VariantSetting("1", SettingItemInfo { title: "最大内容宽度", description: "内容最大宽度（像素），面板超出此宽度时内容居中。", json_path: Some("agent.max_content_width"), files: SettingFiles::User, unimplemented: false }));
    assert(v@ =~= agent_panel_section_spec());
    v
}

/// The entries of the "面板设置" page.
pub open spec fn panels_page_spec() -> Seq<PageItem> {
    project_panel_section_spec()
        + terminal_panel_section_spec()
        + outline_panel_section_spec()
        + git_panel_section_spec()
        + debugger_panel_section_spec()
        + collaboration_panel_section_spec()
        + agent_panel_section_spec()
}

/// The entries of the "面板设置" page.
pub fn panels_page_items() -> (r: Vec<PageItem>)
    ensures
        r@ == panels_page_spec(),
{
    let mut items = project_panel_section();
    let mut next = terminal_panel_section();
    items.append(&mut next);
    let mut next = outline_panel_section();
    items.append(&mut next);
    let mut next = git_panel_section();
    items.append(&mut next);
    let mut next = debugger_panel_section();
    items.append(&mut next);
    let mut next = collaboration_panel_section();
    items.append(&mut next);
    let mut next = agent_panel_section();
    items.append(&mut next);
    items
}

/// No two entries of `panels_page_spec` share a JSON path.
pub proof fn lemma_panels_page_paths_distinct()
    ensures
        json_paths_distinct(panels_page_spec()),
{
}

} // verus!
