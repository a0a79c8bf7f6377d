use vstd::prelude::*;
use crate::page_model::{PageItem, SettingItemInfo, SubPageInfo, SubPageType, ActionInfo, SettingFiles, json_paths_distinct};
use crate::pages::language_settings::{edit_prediction_language_settings_items, edit_prediction_section_spec};

verus! {

/// The "通用设置" section.
pub open spec fn general_section_spec() -> Seq<PageItem> {
    seq![
        PageItem::SectionHeader("通用设置"),
        PageItem::Setting(SettingItemInfo { title: "禁用 AI 功能", description: "是否禁用 Zed 中所有人工智能相关功能。", json_path: Some("disable_ai"), files: SettingFiles::UserAndProject, unimplemented: false }),
        PageItem::Setting(SettingItemInfo { title: "对话侧边栏位置", description: "设置对话侧边栏显示在窗口的哪一侧。", json_path: Some("agent.sidebar_side"), files: SettingFiles::User, unimplemented: false }),
    ]
}

fn general_section() -> (r: Vec<PageItem>)
    ensures
        r@ == general_section_spec(),
{
    let mut v: Vec<PageItem> = Vec::new();
    v.push(PageItem::SectionHeader("通用设置"));
    v.push(PageItem::Setting(SettingItemInfo { title: "禁用 AI 功能", description: "是否禁用 Zed 中所有人工智能相关功能。", json_path: Some("disable_ai"), files: SettingFiles::UserAndProject, unimplemented: false }));
    v.push(PageItem::Setting(SettingItemInfo { title: "对话侧边栏位置", description: "设置对话侧边栏显示在窗口的哪一侧。", json_path: Some("agent.sidebar_side"), files: SettingFiles::User, unimplemented: false }));
    assert(v@ =~= general_section_spec());
    v
}

/// The "AI 助手配置" section.
pub open spec fn agent_configuration_section_spec() -> Seq<PageItem> {
    seq![
        PageItem::SectionHeader("AI 助手配置"),
        PageItem::SubPageLink(SubPageInfo { title: "工具权限", description: Some("设置正则表达式规则，对特定工具输入进行自动允许、自动拒绝或始终请求确认。"), json_path: Some("agent.tool_permissions"), files: SettingFiles::User, in_json: true, link_type: SubPageType::Standard }),
        PageItem::Setting(SettingItemInfo { title: "新建对话位置", description: "选择在当前本地项目或新的 Git 工作树中开始新对话。", json_path: Some("agent.new_thread_location"), files: SettingFiles::User, unimplemented: false }),
        PageItem::Setting(SettingItemInfo { title: "单文件审阅模式", description: "启用后，AI 编辑内容将在单文件缓冲区中展示以便审阅。", json_path: Some("agent.single_file_review"), files: SettingFiles::User, unimplemented: false }),
        PageItem::Setting(SettingItemInfo { title: "启用反馈按钮", description: "显示点赞/点踩按钮，用于对 AI 编辑结果进行反馈。", json_path: Some("agent.enable_feedback"), files: SettingFiles::User, unimplemented: false }),
        PageItem::Setting(SettingItemInfo { title: "AI 等待时通知", description: "当 AI 完成响应或需要确认执行工具操作时，显示通知的位置。", json_path: Some("agent.notify_when_agent_waiting"), files: SettingFiles::User, unimplemented: false }),
        PageItem::Setting(SettingItemInfo { title: "AI 完成时播放提示音", description: "当 AI 完成响应或需要用户输入时，播放提示音的时机。", json_path: Some("agent.play_sound_when_agent_done"), files: SettingFiles::User, unimplemented: false }),
        PageItem::Setting(SettingItemInfo { title: "自动展开编辑卡片", description: "是否在 AI 面板中自动展开编辑卡片，显示差异预览。", json_path: Some("agent.expand_edit_card"), files: SettingFiles::User, unimplemented: false }),
        PageItem::Setting(SettingItemInfo { title: "自动展开终端卡片", description: "是否在 AI 面板中自动展开终端卡片，显示完整命令输出。", json_path: Some("agent.expand_terminal_card"), files: SettingFiles::User, unimplemented: false }),
        PageItem::Setting(SettingItemInfo { title: "思考过程显示方式", description: "思考块默认显示方式。自动：流式输出时展开，完成后折叠；预览：流式输出时限制高度展开；始终展开：显示全部内容；始终折叠：保持折叠状态。", json_path: Some("agent.thinking_display"), files: SettingFiles::User, unimplemented: false }),
        PageItem::Setting(SettingItemInfo { title: "停止终端时取消生成", description: "点击运行中终端工具的停止按钮时，是否同时取消 AI 生成。仅对停止按钮生效，不影响终端内的 Ctrl+C。", json_path: Some("agent.cancel_generation_on_terminal_stop"), files: SettingFiles::User, unimplemented: false }),
        PageItem::Setting(SettingItemInfo { title: "使用修饰键发送消息", description: "是否始终使用 Cmd+Enter（或 Ctrl+Enter）发送消息。", json_path: Some("agent.use_modifier_to_send"), files: SettingFiles::User, unimplemented: false }),
        PageItem::Setting(SettingItemInfo { title: "消息编辑器最小行数", description: "AI 消息编辑器显示的最小行数。", json_path: Some("agent.message_editor_min_lines"), files: SettingFiles::User, unimplemented: false }),
        PageItem::Setting(SettingItemInfo { title: "显示对话统计信息", description: "是否显示对话统计信息，如生成耗时、最终对话时长。", json_path: Some("agent.show_turn_stats"), files: SettingFiles::User, unimplemented: false }),
        PageItem::Setting(SettingItemInfo { title: "显示合并冲突指示器", description: "是否在状态栏显示合并冲突指示器，提供使用 AI 解决冲突的选项。", json_path: Some("agent.show_merge_conflict_indicator"), files: SettingFiles::User, unimplemented: false }),
    ]
}

fn agent_configuration_section() -> (r: Vec<PageItem>)
    ensures
        r@ == agent_configuration_section_spec(),
{
    let mut v: Vec<PageItem> = Vec::new();
    v.push(PageItem::SectionHeader("AI 助手配置"));
    v.push(PageItem::SubPageLink(SubPageInfo { title: "工具权限", description: Some("设置正则表达式规则，对特定工具输入进行自动允许、自动拒绝或始终请求确认。"), json_path: Some("agent.tool_permissions"), files: SettingFiles::User, in_json: true, link_type: SubPageType::Standard }));
    v.push(PageItem::Setting(SettingItemInfo { title: "新建对话位置", description: "选择在当前本地项目或新的 Git 工作树中开始新对话。", json_path: Some("agent.new_thread_location"), files: SettingFiles::User, unimplemented: false }));
    v.push(PageItem::Setting(SettingItemInfo { title: "单文件审阅模式", description: "启用后，AI 编辑内容将在单文件缓冲区中展示以便审阅。", json_path: Some("agent.single_file_review"), files: SettingFiles::User, unimplemented: false }));
    v.push(PageItem::Setting(SettingItemInfo { title: "启用反馈按钮", description: "显示点赞/点踩按钮，用于对 AI 编辑结果进行反馈。", json_path: Some("agent.enable_feedback"), files: SettingFiles::User, unimplemented: false }));
    v.push(PageItem::Setting(SettingItemInfo { title: "AI 等待时通知", description: "当 AI 完成响应或需要确认执行工具操作时，显示通知的位置。", json_path: Some("agent.notify_when_agent_waiting"), files: SettingFiles::User, unimplemented: false }));
    v.push(PageItem::Setting(SettingItemInfo { title: "AI 完成时播放提示音", description: "当 AI 完成响应或需要用户输入时，播放提示音的时机。", json_path: Some("agent.play_sound_when_agent_done"), files: SettingFiles::User, unimplemented: false }));
    v.push(PageItem::Setting(SettingItemInfo { title: "自动展开编辑卡片", description: "是否在 AI 面板中自动展开编辑卡片，显示差异预览。", json_path: Some("agent.expand_edit_card"), files: SettingFiles::User, unimplemented: false }));
    v.push(PageItem::Setting(SettingItemInfo { title: "自动展开终端卡片", description: "是否在 AI 面板中自动展开终端卡片，显示完整命令输出。", json_path: Some("agent.expand_terminal_card"), files: SettingFiles::User, unimplemented: false }));
    v.push(PageItem::Setting(SettingItemInfo { title: "思考过程显示方式", description: "思考块默认显示方式。自动：流式输出时展开，完成后折叠；预览：流式输出时限制高度展开；始终展开：显示全部内容；始终折叠：保持折叠状态。", json_path: Some("agent.thinking_display"), files: SettingFiles::User, unimplemented: false }));
    v.push(PageItem::Setting(SettingItemInfo { title: "停止终端时取消生成", description: "点击运行中终端工具的停止按钮时，是否同时取消 AI 生成。仅对停止按钮生效，不影响终端内的 Ctrl+C。", json_path: Some("agent.cancel_generation_on_terminal_stop"), files: SettingFiles::User, unimplemented: false }));
    v.push(PageItem::Setting(SettingItemInfo { title: "使用修饰键发送消息", description: "是否始终使用 Cmd+Enter（或 Ctrl+Enter）发送消息。", json_path: Some("agent.use_modifier_to_send"), files: SettingFiles::User, unimplemented: false }));
    v.push(PageItem::Setting(SettingItemInfo { title: "消息编辑器最小行数", description: "AI 消息编辑器显示的最小行数。", json_path: Some("agent.message_editor_min_lines"), files: SettingFiles::User, unimplemented: false }));
    v.push(PageItem::Setting(SettingItemInfo { title: "显示对话统计信息", description: "是否显示对话统计信息，如生成耗时、最终对话时长。", json_path: Some("agent.show_turn_stats"), files: SettingFiles::User, unimplemented: false }));
    v.push(PageItem::Setting(SettingItemInfo { title: "显示合并冲突指示器", description: "是否在状态栏显示合并冲突指示器，提供使用 AI 解决冲突的选项。", json_path: Some("agent.show_merge_conflict_indicator"), files: SettingFiles::User, unimplemented: false }));
    assert(v@ =~= agent_configuration_section_spec());
    v
}

/// The "上下文服务器" section.
pub open spec fn context_servers_section_spec() -> Seq<PageItem> {
    seq![
        PageItem::SectionHeader("上下文服务器"),
        PageItem::Setting(SettingItemInfo { title: "上下文服务器超时时间", description: "上下文服务器工具调用的默认超时时间（秒）。可在上下文服务器配置中为每个服务器单独覆盖。", json_path: Some("context_server_timeout"), files: SettingFiles::UserAndProject, unimplemented: false }),
    ]
}

fn context_servers_section() -> (r: Vec<PageItem>)
    ensures
        r@ == context_servers_section_spec(),
{
    let mut v: Vec<PageItem> = Vec::new();
    v.push(PageItem::SectionHeader("上下文服务器"));
    v.push(PageItem::Setting(SettingItemInfo { title: "上下文服务器超时时间", description: "上下文服务器工具调用的默认超时时间（秒）。可在上下文服务器配置中为每个服务器单独覆盖。", json_path: Some("context_server_timeout"), files: SettingFiles::UserAndProject, unimplemented: false }));
    assert(v@ =~= context_servers_section_spec());
    v
}

/// The entries of `edit_prediction_display_sub_section`.
pub open spec fn edit_prediction_display_sub_section_spec() -> Seq<PageItem> {
    seq![
        PageItem::Setting(SettingItemInfo { title: "显示模式", description: "何时在缓冲区中显示编辑预测预览。主动模式直接内联显示，微妙模式仅在按住修饰键时显示。", json_path: Some("edit_prediction.display_mode"), files: SettingFiles::User, unimplemented: false }),
    ]
}

fn edit_prediction_display_sub_section() -> (r: Vec<PageItem>)
    ensures
        r@ == edit_prediction_display_sub_section_spec(),
{
    let mut v: Vec<PageItem> = Vec::new();
    v.push(PageItem::Setting(SettingItemInfo { title: "显示模式", description: "何时在缓冲区中显示编辑预测预览。主动模式直接内联显示，微妙模式仅在按住修饰键时显示。", json_path: Some("edit_prediction.display_mode"), files: SettingFiles::User, unimplemented: false }));
    assert(v@ =~= edit_prediction_display_sub_section_spec());
    v
}

/// The entries of the "AI" page.
pub open spec fn ai_page_spec() -> Seq<PageItem> {
    general_section_spec()
        + agent_configuration_section_spec()
        + context_servers_section_spec()
        + edit_prediction_section_spec()
        + edit_prediction_display_sub_section_spec()
}

/// The entries of the "AI" page.
pub fn ai_page_items() -> (r: Vec<PageItem>)
    ensures
        r@ == ai_page_spec(),
{
    let mut items = general_section();
    let mut next = agent_configuration_section();
    items.append(&mut next);
    let mut next = context_servers_section();
    items.append(&mut next);
    let mut next = edit_prediction_language_settings_items();
    items.append(&mut next);
    let mut next = edit_prediction_display_sub_section();
    items.append(&mut next);
    items
}

/// No two entries of `ai_page_spec` share a JSON path.
pub proof fn lemma_ai_page_paths_distinct()
    ensures
        json_paths_distinct(ai_page_spec()),
{
}

} // verus!
