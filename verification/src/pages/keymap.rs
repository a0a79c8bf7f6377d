use vstd::prelude::*;
use crate::page_model::{PageItem, SettingItemInfo, SubPageInfo, SubPageType, ActionInfo, SettingFiles, json_paths_distinct};

verus! {

/// The "按键绑定" section.
pub open spec fn keybindings_section_spec() -> Seq<PageItem> {
    seq![
        PageItem::SectionHeader("按键绑定"),
        PageItem::ActionLink(ActionInfo { title: "编辑按键绑定", description: Some("在按键映射编辑器中自定义按键绑定。"), button_text: "打开按键映射", files: SettingFiles::User }),
    ]
}

fn keybindings_section() -> (r: Vec<PageItem>)
    ensures
        r@ == keybindings_section_spec(),
{
    let mut v: Vec<PageItem> = Vec::new();
    v.push(PageItem::SectionHeader("按键绑定"));
    v.push(PageItem::ActionLink(ActionInfo { title: "编辑按键绑定", description: Some("在按键映射编辑器中自定义按键绑定。"), button_text: "打开按键映射", files: SettingFiles::User }));
    assert(v@ =~= keybindings_section_spec());
    v
}

/// The "基础按键映射" section.
pub open spec fn base_keymap_section_spec() -> Seq<PageItem> {
    seq![
        PageItem::SectionHeader("基础按键映射"),
        PageItem::Setting(SettingItemInfo { title: "基础按键映射", description: "要使用的基础按键绑定集名称。", json_path: Some("base_keymap"), files: SettingFiles::User, unimplemented: false }),
    ]
}

fn base_keymap_section() -> (r: Vec<PageItem>)
    ensures
        r@ == base_keymap_section_spec(),
{
    let mut v: Vec<PageItem> = Vec::new();
    v.push(PageItem::SectionHeader("基础按键映射"));
    v.push(PageItem::Setting(SettingItemInfo { title: "基础按键映射", description: "要使用的基础按键绑定集名称。", json_path: Some("base_keymap"), files: SettingFiles::User, unimplemented: false }));
    assert(v@ =~= base_keymap_section_spec());
    v
}

/// The "模态编辑" section.
pub open spec fn modal_editing_section_spec() -> Seq<PageItem> {
    seq![
        PageItem::SectionHeader("模态编辑"),
        PageItem::Setting(SettingItemInfo { title: "Vim 模式", description: "启用 Vim 模式及对应按键绑定。", json_path: Some("vim_mode"), files: SettingFiles::User, unimplemented: false }),
        PageItem::Setting(SettingItemInfo { title: "Helix 模式", description: "启用 Helix 模式及对应按键绑定。", json_path: Some("helix_mode"), files: SettingFiles::User, unimplemented: false }),
    ]
}

fn modal_editing_section() -> (r: Vec<PageItem>)
    ensures
        r@ == modal_editing_section_spec(),
{
    let mut v: Vec<PageItem> = Vec::new();
    v.push(PageItem::SectionHeader("模态编辑"));
    v.push(PageItem::Setting(SettingItemInfo { title: "Vim 模式", description: "启用 Vim 模式及对应按键绑定。", json_path: Some("vim_mode"), files: SettingFiles::User, unimplemented: false }));
    v.push(PageItem::Setting(SettingItemInfo { title: "Helix 模式", description: "启用 Helix 模式及对应按键绑定。", json_path: Some("helix_mode"), files: SettingFiles::User, unimplemented: false }));
    assert(v@ =~= modal_editing_section_spec());
    v
}

/// The entries of the "按键映射" page.
pub open spec fn keymap_page_spec() -> Seq<PageItem> {
    keybindings_section_spec()
        + base_keymap_section_spec()
        + modal_editing_section_spec()
}

/// The entries of the "按键映射" page.
pub fn keymap_page_items() -> (r: Vec<PageItem>)
    ensures
        r@ == keymap_page_spec(),
{
    let mut items = keybindings_section();
    let mut next = base_keymap_section();
    items.append(&mut next);
    let mut next = modal_editing_section();
    items.append(&mut next);
    items
}

/// No two entries of `keymap_page_spec` share a JSON path.
pub proof fn lemma_keymap_page_paths_distinct()
    ensures
        json_paths_distinct(keymap_page_spec()),
{
}

} // verus!
