use zed_ui_logic::page_model::{PageItem, SettingFiles, SettingItemInfo, SubPageInfo, SubPageType};
use zed_ui_logic::pages::ai::ai_page_items;
use zed_ui_logic::pages::appearance::appearance_page_items;
use zed_ui_logic::pages::collaboration::collaboration_page_items;
use zed_ui_logic::pages::debugger::debugger_page_items;
use zed_ui_logic::pages::developer::developer_page_items;
use zed_ui_logic::pages::editor::editor_page_items;
use zed_ui_logic::pages::general::general_page_items;
use zed_ui_logic::pages::keymap::keymap_page_items;
use zed_ui_logic::pages::language_settings::{
    edit_prediction_language_settings_items, language_page_items, language_settings_items,
    non_editor_language_settings_items,
};
use zed_ui_logic::pages::languages_and_tools::{
    language_links, languages_and_tools_page_entries, languages_and_tools_page_items, LanguagesPageEntry,
};
use zed_ui_logic::pages::network::network_page_items;
use zed_ui_logic::pages::panels::panels_page_items;
use zed_ui_logic::pages::search_and_files::search_and_files_page_items;
use zed_ui_logic::pages::terminal::terminal_page_items;
use zed_ui_logic::pages::version_control::version_control_page_items;
use zed_ui_logic::pages::window_and_layout::window_and_layout_page_items;

fn path(item: &PageItem) -> Option<&'static str> {
    match item {
        PageItem::SectionHeader(_) | PageItem::ActionLink(_) => None,
        PageItem::Setting(s) | PageItem::VariantPicker(s) | PageItem::VariantSetting(_, s) => s.json_path,
        PageItem::SubPageLink(l) => l.json_path,
    }
}

fn assert_paths_distinct(items: &[PageItem]) {
    let paths: Vec<&str> = items.iter().filter_map(path).collect();
    for (i, a) in paths.iter().enumerate() {
        assert!(!paths[i + 1..].contains(a), "path {a} listed twice");
    }
}

fn setting(items: &[PageItem], json_path: &str) -> SettingItemInfo {
    items
        .iter()
        .find_map(|i| match i {
            PageItem::Setting(s) | PageItem::VariantPicker(s) | PageItem::VariantSetting(_, s)
                if s.json_path == Some(json_path) =>
            {
                Some(*s)
            },
            _ => None,
        })
        .unwrap()
}

#[test]
fn page_sizes_and_headers() {
    let pages: Vec<(Vec<PageItem>, usize, &'static str)> = vec![
        (general_page_items(), 21, "通用设置"),
        (appearance_page_items(), 44, "主题"),
        (keymap_page_items(), 7, "按键绑定"),
        (search_and_files_page_items(), 19, "搜索"),
        (window_and_layout_page_items(), 58, "状态栏"),
        (panels_page_items(), 73, "项目面板"),
        (debugger_page_items(), 6, "通用设置"),
        (terminal_page_items(), 37, "环境设置"),
        (version_control_page_items(), 20, "Git 集成"),
        (collaboration_page_items(), 6, "语音通话"),
        (network_page_items(), 3, "网络"),
    ];
    for (items, len, header) in &pages {
        assert_eq!(items.len(), *len);
        assert_eq!(items[0], PageItem::SectionHeader(*header));
        assert_paths_distinct(items);
    }
    assert_eq!(pages[10].0[0], PageItem::SectionHeader("网络"));
    assert_eq!(pages[0].0[0], PageItem::SectionHeader("通用设置"));
    assert_eq!(developer_page_items().len(), 4);
}

#[test]
fn editor_page_ends_with_language_settings() {
    let global = editor_page_items(false);
    let local = editor_page_items(true);
    assert_eq!(global.len(), 79 + 67);
    assert_eq!(local.len(), 79 + 63);
    assert_eq!(&global[79..], &language_settings_items(false)[..]);
    assert_eq!(&local[79..], &language_settings_items(true)[..]);
    assert_eq!(global[0], PageItem::SectionHeader("自动保存"));
    assert_paths_distinct(&global);
    assert_paths_distinct(&local);
}

#[test]
fn language_settings_depend_on_active_language() {
    let global = language_settings_items(false);
    let local = language_settings_items(true);
    let has = |items: &[PageItem], p: &str| items.iter().any(|i| path(i) == Some(p));
    assert!(has(&global, "lsp_document_colors"));
    assert!(!has(&local, "lsp_document_colors"));
    assert!(has(&global, "code_lens") && has(&local, "code_lens"));
    assert!(has(&global, "drop_target_size"));
    assert!(!has(&local, "drop_target_size"));
    let toggle = setting(&global, "languages.$(language).inlay_hints.toggle_on_modifiers_press");
    assert!(toggle.unimplemented);
    assert_eq!(toggle.files, SettingFiles::UserAndProject);

    let page = language_page_items(true);
    assert_eq!(page.len(), 63 + 19 + 5);
    assert_eq!(non_editor_language_settings_items().len(), 19);
    assert_eq!(edit_prediction_language_settings_items().len(), 5);
}

#[test]
fn dynamic_settings_and_links() {
    let editor = editor_page_items(false);
    let autosave = editor.iter().position(|i| matches!(i, PageItem::VariantPicker(s) if s.json_path == Some("autosave$"))).unwrap();
    assert!(matches!(editor[autosave + 1], PageItem::VariantSetting("AfterDelay", s) if s.json_path == Some("autosave.after_delay.milliseconds")));

    let panels = panels_page_items();
    let width = setting(&panels, "collaboration_panel.default_width");
    assert_eq!(width.title, "协作面板默认宽度");
    assert_eq!(setting(&panels, "collaboration_panel.dock").title, "协作面板停靠位置");

    let ai = ai_page_items();
    assert!(ai.iter().any(|i| matches!(i, PageItem::SubPageLink(SubPageInfo { json_path: Some("agent.tool_permissions"), .. }))));
    assert_eq!(ai.len(), 26);

    let vc = version_control_page_items();
    assert!(vc.iter().any(|i| matches!(i, PageItem::VariantSetting("1", s) if s.json_path == Some("git.enable_status"))));

    let lt = languages_and_tools_page_items();
    assert_eq!(lt.len(), 35);
    assert_eq!(lt[lt.len() - 1], PageItem::SectionHeader("编程语言"));
    let links = language_links(&vec!["Rust".to_string(), "Go".to_string()]);
    assert_eq!(links.len(), 2);
    assert_eq!(links[0].title, "Rust");
    assert_eq!(links[1].json_path, "languages.Go");
    assert_eq!(links[1].files, SettingFiles::UserAndProject);
}

#[test]
fn languages_page_as_one_list() {
    let names = vec!["Rust".to_string(), "Go".to_string()];
    let entries = languages_and_tools_page_entries(&names);
    let fixed = languages_and_tools_page_items();
    assert_eq!(entries.len(), fixed.len() + 2);
    for (i, item) in fixed.iter().enumerate() {
        assert!(matches!(&entries[i], LanguagesPageEntry::Fixed(x) if x == item));
    }
    match &entries[fixed.len() + 1] {
        LanguagesPageEntry::Language(l) => {
            assert_eq!(l.title, "Go");
            assert_eq!(l.json_path, "languages.Go");
            assert_eq!(l.description, None);
            assert!(l.in_json);
            assert_eq!(l.link_type, SubPageType::Language);
        },
        LanguagesPageEntry::Fixed(_) => panic!("expected a language link"),
    }
    let links = language_links(&names);
    assert_eq!(links[0].link_type, SubPageType::Language);

    // The edit-prediction providers link does not open in the JSON.
    let providers = edit_prediction_language_settings_items()
        .into_iter()
        .find_map(|i| match i {
            PageItem::SubPageLink(l) => Some(l),
            _ => None,
        })
        .unwrap();
    assert_eq!(providers.json_path, Some("edit_predictions.providers"));
    assert!(!providers.in_json);
    assert_eq!(providers.link_type, SubPageType::Standard);
}
