use vstd::prelude::*;
use crate::page_model::{PageItem, SettingItemInfo, SubPageInfo, SubPageType, ActionInfo, SettingFiles, json_paths_distinct};

verus! {

/// The "功能开关" section.
pub open spec fn developer_section_spec() -> Seq<PageItem> {
    seq![
        PageItem::SectionHeader("功能开关"),
        PageItem::SubPageLink(SubPageInfo { title: "功能开关", description: None, json_path: Some("feature_flags"), files: SettingFiles::User, in_json: true, link_type: SubPageType::Standard }),
        PageItem::SectionHeader("检测工具"),
        PageItem::Setting(SettingItemInfo { title: "性能分析器", description: "收集前台和后台执行器任务的计时数据，以便通过 `zed: open performance profiler` 进行检查。可能会导致内存使用量增加。", json_path: Some("instrumentation.performance_profiler.enabled"), files: SettingFiles::User, unimplemented: false }),
    ]
}

fn developer_section() -> (r: Vec<PageItem>)
    ensures
        r@ == developer_section_spec(),
{
    let mut v: Vec<PageItem> = Vec::new();
    v.push(PageItem::SectionHeader("功能开关"));
    v.push(PageItem::SubPageLink(SubPageInfo { title: "功能开关", description: None, json_path: Some("feature_flags"), files: SettingFiles::User, in_json: true, link_type: SubPageType::Standard }));
    v.push(PageItem::SectionHeader("检测工具"));
    v.push(PageItem::Setting(SettingItemInfo { title: "性能分析器", description: "收集前台和后台执行器任务的计时数据，以便通过 `zed: open performance profiler` 进行检查。可能会导致内存使用量增加。", json_path: Some("instrumentation.performance_profiler.enabled"), files: SettingFiles::User, unimplemented: false }));
    assert(v@ =~= developer_section_spec());
    v
}

/// The entries of the "开发者" page.
pub open spec fn developer_page_spec() -> Seq<PageItem> {
    developer_section_spec()
}

/// The entries of the "开发者" page.
pub fn developer_page_items() -> (r: Vec<PageItem>)
    ensures
        r@ == developer_page_spec(),
{
    let items = developer_section();
    items
}

/// No two entries of `developer_page_spec` share a JSON path.
pub proof fn lemma_developer_page_paths_distinct()
    ensures
        json_paths_distinct(developer_page_spec()),
{
}

} // verus!
