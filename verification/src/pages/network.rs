use vstd::prelude::*;
use crate::page_model::{PageItem, SettingItemInfo, SubPageInfo, SubPageType, ActionInfo, SettingFiles, json_paths_distinct};

verus! {

/// The "网络" section.
pub open spec fn network_section_spec() -> Seq<PageItem> {
    seq![
        PageItem::SectionHeader("网络"),
        PageItem::Setting(SettingItemInfo { title: "代理", description: "网络请求所使用的代理。", json_path: Some("proxy"), files: SettingFiles::User, unimplemented: false }),
        PageItem::Setting(SettingItemInfo { title: "服务器地址", description: "要连接的 Zed 服务器地址。", json_path: Some("server_url"), files: SettingFiles::User, unimplemented: false }),
    ]
}

fn network_section() -> (r: Vec<PageItem>)
    ensures
        r@ == network_section_spec(),
{
    let mut v: Vec<PageItem> = Vec::new();
    v.push(PageItem::SectionHeader("网络"));
    v.push(PageItem::Setting(SettingItemInfo { title: "代理", description: "网络请求所使用的代理。", json_path: Some("proxy"), files: SettingFiles::User, unimplemented: false }));
    v.push(PageItem::Setting(SettingItemInfo { title: "服务器地址", description: "要连接的 Zed 服务器地址。", json_path: Some("server_url"), files: SettingFiles::User, unimplemented: false }));
    assert(v@ =~= network_section_spec());
    v
}

/// The entries of the "网络" page.
pub open spec fn network_page_spec() -> Seq<PageItem> {
    network_section_spec()
}

/// The entries of the "网络" page.
pub fn network_page_items() -> (r: Vec<PageItem>)
    ensures
        r@ == network_page_spec(),
{
    let items = network_section();
    items
}

/// No two entries of `network_page_spec` share a JSON path.
pub proof fn lemma_network_page_paths_distinct()
    ensures
        json_paths_distinct(network_page_spec()),
{
}

} // verus!
