use vstd::prelude::*;
use crate::page_model::{PageItem, SettingItemInfo, SubPageInfo, SubPageType, ActionInfo, SettingFiles, json_paths_distinct};

verus! {

/// The "通用设置" section.
pub open spec fn general_section_spec() -> Seq<PageItem> {
    seq![
        PageItem::SectionHeader("通用设置"),
        PageItem::Setting(SettingItemInfo { title: "单步执行粒度", description: "设置调试操作的单步执行粒度。", json_path: Some("debugger.stepping_granularity"), files: SettingFiles::User, unimplemented: false }),
        PageItem::Setting(SettingItemInfo { title: "保存断点", description: "是否在 Zed 会话之间保留断点设置。", json_path: Some("debugger.save_breakpoints"), files: SettingFiles::User, unimplemented: false }),
        PageItem::Setting(SettingItemInfo { title: "连接超时", description: "连接 TCP 调试适配器时的超时时间，单位为毫秒。", json_path: Some("debugger.timeout"), files: SettingFiles::User, unimplemented: false }),
        PageItem::Setting(SettingItemInfo { title: "记录 DAP 通信日志", description: "是否记录调试适配器与 Zed 之间的交互消息。", json_path: Some("debugger.log_dap_communications"), files: SettingFiles::User, unimplemented: false }),
        PageItem::Setting(SettingItemInfo { title: "格式化 DAP 日志消息", description: "是否将 DAP 消息格式化后写入调试适配器日志。", json_path: Some("debugger.format_dap_log_messages"), files: SettingFiles::User, unimplemented: false }),
    ]
}

fn general_section() -> (r: Vec<PageItem>)
    ensures
        r@ == general_section_spec(),
{
    let mut v: Vec<PageItem> = Vec::new();
    v.push(PageItem::SectionHeader("通用设置"));
    v.push(PageItem::Setting(SettingItemInfo { title: "单步执行粒度", description: "设置调试操作的单步执行粒度。", json_path: Some("debugger.stepping_granularity"), files: SettingFiles::User, unimplemented: false }));
    v.push(PageItem::Setting(SettingItemInfo { title: "保存断点", description: "是否在 Zed 会话之间保留断点设置。", json_path: Some("debugger.save_breakpoints"), files: SettingFiles::User, unimplemented: false }));
    v.push(PageItem::Setting(SettingItemInfo { title: "连接超时", description: "连接 TCP 调试适配器时的超时时间，单位为毫秒。", json_path: Some("debugger.timeout"), files: SettingFiles::User, unimplemented: false }));
    v.push(PageItem::Setting(SettingItemInfo { title: "记录 DAP 通信日志", description: "是否记录调试适配器与 Zed 之间的交互消息。", json_path: Some("debugger.log_dap_communications"), files: SettingFiles::User, unimplemented: false }));
    v.push(PageItem::Setting(SettingItemInfo { title: "格式化 DAP 日志消息", description: "是否将 DAP 消息格式化后写入调试适配器日志。", json_path: Some("debugger.format_dap_log_messages"), files: SettingFiles::User, unimplemented: false }));
    assert(v@ =~= general_section_spec());
    v
}

/// The entries of the "调试器" page.
pub open spec fn debugger_page_spec() -> Seq<PageItem> {
    general_section_spec()
}

/// The entries of the "调试器" page.
pub fn debugger_page_items() -> (r: Vec<PageItem>)
    ensures
        r@ == debugger_page_spec(),
{
    let items = general_section();
    items
}

/// No two entries of `debugger_page_spec` share a JSON path.
pub proof fn lemma_debugger_page_paths_distinct()
    ensures
        json_paths_distinct(debugger_page_spec()),
{
}

} // verus!
