use vstd::prelude::*;
use crate::page_model::{PageItem, SettingItemInfo, SubPageInfo, SubPageType, ActionInfo, SettingFiles, json_paths_distinct};

verus! {

/// The "通用设置" section.
pub open spec fn general_settings_section_spec() -> Seq<PageItem> {
    seq![
        PageItem::SectionHeader("通用设置"),
        PageItem::Setting(SettingItemInfo { title: "无标签页时关闭操作", description: "在无标签页时使用“关闭激活项”操作的执行逻辑。", json_path: Some("when_closing_with_no_tabs"), files: SettingFiles::User, unimplemented: false }),
        PageItem::Setting(SettingItemInfo { title: "关闭最后一个窗口时", description: "关闭最后一个窗口时的执行逻辑。", json_path: Some("on_last_window_closed"), files: SettingFiles::User, unimplemented: false }),
        PageItem::Setting(SettingItemInfo { title: "使用系统路径选择对话框", description: "使用操作系统原生对话框进行“打开”和“另存为”操作。", json_path: Some("use_system_path_prompts"), files: SettingFiles::User, unimplemented: false }),
        PageItem::Setting(SettingItemInfo { title: "使用系统确认对话框", description: "使用操作系统原生对话框进行确认操作。", json_path: Some("use_system_prompts"), files: SettingFiles::User, unimplemented: false }),
        PageItem::Setting(SettingItemInfo { title: "隐藏私有变量值", description: "隐藏私有文件中变量的具体取值。", json_path: Some("redact_private_values"), files: SettingFiles::User, unimplemented: false }),
        PageItem::Setting(SettingItemInfo { title: "私有文件匹配规则", description: "用于匹配文件路径以判定文件是否为私有文件的通配规则。", json_path: Some("worktree.private_files"), files: SettingFiles::User, unimplemented: true }),
        PageItem::Setting(SettingItemInfo { title: "命令行默认打开行为", description: "未指定标志时，`zed <路径>` 打开目录的方式。", json_path: Some("cli_default_open_behavior"), files: SettingFiles::User, unimplemented: false }),
    ]
}

fn general_settings_section() -> (r: Vec<PageItem>)
    ensures
        r@ == general_settings_section_spec(),
{
    let mut v: Vec<PageItem> = Vec::new();
    v.push(PageItem::SectionHeader("通用设置"));
    v.push(PageItem::Setting(SettingItemInfo { title: "无标签页时关闭操作", description: "在无标签页时使用“关闭激活项”操作的执行逻辑。", json_path: Some("when_closing_with_no_tabs"), files: SettingFiles::User, unimplemented: false }));
    v.push(PageItem::Setting(SettingItemInfo { title: "关闭最后一个窗口时", description: "关闭最后一个窗口时的执行逻辑。", json_path: Some("on_last_window_closed"), files: SettingFiles::User, unimplemented: false }));
    v.push(PageItem::Setting(SettingItemInfo { title: "使用系统路径选择对话框", description: "使用操作系统原生对话框进行“打开”和“另存为”操作。", json_path: Some("use_system_path_prompts"), files: SettingFiles::User, unimplemented: false }));
    v.push(PageItem::Setting(SettingItemInfo { title: "使用系统确认对话框", description: "使用操作系统原生对话框进行确认操作。", json_path: Some("use_system_prompts"), files: SettingFiles::User, unimplemented: false }));
    v.push(PageItem::Setting(SettingItemInfo { title: "隐藏私有变量值", description: "隐藏私有文件中变量的具体取值。", json_path: Some("redact_private_values"), files: SettingFiles::User, unimplemented: false }));
    v.push(PageItem::Setting(SettingItemInfo { title: "私有文件匹配规则", description: "用于匹配文件路径以判定文件是否为私有文件的通配规则。", json_path: Some("worktree.private_files"), files: SettingFiles::User, unimplemented: true }));
    v.push(PageItem::Setting(SettingItemInfo { title: "命令行默认打开行为", description: "未指定标志时，`zed <路径>` 打开目录的方式。", json_path: Some("cli_default_open_behavior"), files: SettingFiles::User, unimplemented: false }));
    assert(v@ =~= general_settings_section_spec());
    v
}

/// The "安全" section.
pub open spec fn security_section_spec() -> Seq<PageItem> {
    seq![
        PageItem::SectionHeader("安全"),
        PageItem::Setting(SettingItemInfo { title: "默认信任所有项目", description: "打开Zed时自动信任所有项目以避免受限模式，无需为新项目授权即可使用全部功能。", json_path: Some("session.trust_all_projects"), files: SettingFiles::User, unimplemented: false }),
    ]
}

fn security_section() -> (r: Vec<PageItem>)
    ensures
        r@ == security_section_spec(),
{
    let mut v: Vec<PageItem> = Vec::new();
    v.push(PageItem::SectionHeader("安全"));
    v.push(PageItem::Setting(SettingItemInfo { title: "默认信任所有项目", description: "打开Zed时自动信任所有项目以避免受限模式，无需为新项目授权即可使用全部功能。", json_path: Some("session.trust_all_projects"), files: SettingFiles::User, unimplemented: false }));
    assert(v@ =~= security_section_spec());
    v
}

/// The "工作区恢复" section.
pub open spec fn workspace_restoration_section_spec() -> Seq<PageItem> {
    seq![
        PageItem::SectionHeader("工作区恢复"),
        PageItem::Setting(SettingItemInfo { title: "恢复未保存的缓冲区", description: "重启时是否恢复未保存的缓冲区。", json_path: Some("session.restore_unsaved_buffers"), files: SettingFiles::User, unimplemented: false }),
        PageItem::Setting(SettingItemInfo { title: "启动时恢复内容", description: "打开Zed时从上次会话中恢复的内容。", json_path: Some("restore_on_startup"), files: SettingFiles::User, unimplemented: false }),
    ]
}

fn workspace_restoration_section() -> (r: Vec<PageItem>)
    ensures
        r@ == workspace_restoration_section_spec(),
{
    let mut v: Vec<PageItem> = Vec::new();
    v.push(PageItem::SectionHeader("工作区恢复"));
    v.push(PageItem::Setting(SettingItemInfo { title: "恢复未保存的缓冲区", description: "重启时是否恢复未保存的缓冲区。", json_path: Some("session.restore_unsaved_buffers"), files: SettingFiles::User, unimplemented: false }));
    v.push(PageItem::Setting(SettingItemInfo { title: "启动时恢复内容", description: "打开Zed时从上次会话中恢复的内容。", json_path: Some("restore_on_startup"), files: SettingFiles::User, unimplemented: false }));
    assert(v@ =~= workspace_restoration_section_spec());
    v
}

/// The "作用域设置" section.
pub open spec fn scoped_settings_section_spec() -> Seq<PageItem> {
    seq![
        PageItem::SectionHeader("作用域设置"),
        PageItem::Setting(SettingItemInfo { title: "预览通道", description: "仅在Zed预览版中生效的设置项。", json_path: Some("preview_channel_settings"), files: SettingFiles::User, unimplemented: true }),
        PageItem::Setting(SettingItemInfo { title: "设置配置文件", description: "可临时覆盖用户基础设置的多个配置文件。", json_path: Some("settings_profiles"), files: SettingFiles::User, unimplemented: true }),
    ]
}

fn scoped_settings_section() -> (r: Vec<PageItem>)
    ensures
        r@ == scoped_settings_section_spec(),
{
    let mut v: Vec<PageItem> = Vec::new();
    v.push(PageItem::SectionHeader("作用域设置"));
    v.push(PageItem::Setting(SettingItemInfo { title: "预览通道", description: "仅在Zed预览版中生效的设置项。", json_path: Some("preview_channel_settings"), files: SettingFiles::User, unimplemented: true }));
    v.push(PageItem::Setting(SettingItemInfo { title: "设置配置文件", description: "可临时覆盖用户基础设置的多个配置文件。", json_path: Some("settings_profiles"), files: SettingFiles::User, unimplemented: true }));
    assert(v@ =~= scoped_settings_section_spec());
    v
}

/// The "隐私" section.
pub open spec fn privacy_section_spec() -> Seq<PageItem> {
    seq![
        PageItem::SectionHeader("隐私"),
        PageItem::Setting(SettingItemInfo { title: "遥测诊断数据", description: "发送崩溃报告等调试信息。", json_path: Some("telemetry.diagnostics"), files: SettingFiles::User, unimplemented: false }),
        PageItem::Setting(SettingItemInfo { title: "遥测统计数据", description: "发送匿名使用数据，例如使用Zed编辑的编程语言类型。", json_path: Some("telemetry.metrics"), files: SettingFiles::User, unimplemented: false }),
    ]
}

fn privacy_section() -> (r: Vec<PageItem>)
    ensures
        r@ == privacy_section_spec(),
{
    let mut v: Vec<PageItem> = Vec::new();
    v.push(PageItem::SectionHeader("隐私"));
    v.push(PageItem::Setting(SettingItemInfo { title: "遥测诊断数据", description: "发送崩溃报告等调试信息。", json_path: Some("telemetry.diagnostics"), files: SettingFiles::User, unimplemented: false }));
    v.push(PageItem::Setting(SettingItemInfo { title: "遥测统计数据", description: "发送匿名使用数据，例如使用Zed编辑的编程语言类型。", json_path: Some("telemetry.metrics"), files: SettingFiles::User, unimplemented: false }));
    assert(v@ =~= privacy_section_spec());
    v
}

/// The "自动更新" section.
pub open spec fn auto_update_section_spec() -> Seq<PageItem> {
    seq![
        PageItem::SectionHeader("自动更新"),
        PageItem::Setting(SettingItemInfo { title: "自动更新", description: "是否自动检查软件更新。", json_path: Some("auto_update"), files: SettingFiles::User, unimplemented: false }),
    ]
}

fn auto_update_section() -> (r: Vec<PageItem>)
    ensures
        r@ == auto_update_section_spec(),
{
    let mut v: Vec<PageItem> = Vec::new();
    v.push(PageItem::SectionHeader("自动更新"));
    v.push(PageItem::Setting(SettingItemInfo { title: "自动更新", description: "是否自动检查软件更新。", json_path: Some("auto_update"), files: SettingFiles::User, unimplemented: false }));
    assert(v@ =~= auto_update_section_spec());
    v
}

/// The entries of the "通用" page.
pub open spec fn general_page_spec() -> Seq<PageItem> {
    general_settings_section_spec()
        + security_section_spec()
        + workspace_restoration_section_spec()
        + scoped_settings_section_spec()
        + privacy_section_spec()
        + auto_update_section_spec()
}

/// The entries of the "通用" page.
pub fn general_page_items() -> (r: Vec<PageItem>)
    ensures
        r@ == general_page_spec(),
{
    let mut items = general_settings_section();
    let mut next = security_section();
    items.append(&mut next);
    let mut next = workspace_restoration_section();
    items.append(&mut next);
    let mut next = scoped_settings_section();
    items.append(&mut next);
    let mut next = privacy_section();
    items.append(&mut next);
    let mut next = auto_update_section();
    items.append(&mut next);
    items
}

/// No two entries of `general_page_spec` share a JSON path.
pub proof fn lemma_general_page_paths_distinct()
    ensures
        json_paths_distinct(general_page_spec()),
{
}

} // verus!
