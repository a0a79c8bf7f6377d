use vstd::prelude::*;
use crate::page_model::{PageItem, SettingItemInfo, SubPageInfo, SubPageType, ActionInfo, SettingFiles, json_paths_distinct};

verus! {

/// The "语音通话" section.
pub open spec fn calls_section_spec() -> Seq<PageItem> {
    seq![
        PageItem::SectionHeader("语音通话"),
        PageItem::Setting(SettingItemInfo { title: "加入时静音", description: "加入频道或通话时是否自动静音麦克风。", json_path: Some("calls.mute_on_join"), files: SettingFiles::User, unimplemented: false }),
        PageItem::Setting(SettingItemInfo { title: "加入时共享项目", description: "加入空频道时是否自动共享当前打开的项目。", json_path: Some("calls.share_on_join"), files: SettingFiles::User, unimplemented: false }),
    ]
}

fn calls_section() -> (r: Vec<PageItem>)
    ensures
        r@ == calls_section_spec(),
{
    let mut v: Vec<PageItem> = Vec::new();
    v.push(PageItem::SectionHeader("语音通话"));
    v.push(PageItem::Setting(SettingItemInfo { title: "加入时静音", description: "加入频道或通话时是否自动静音麦克风。", json_path: Some("calls.mute_on_join"), files: SettingFiles::User, unimplemented: false }));
    v.push(PageItem::Setting(SettingItemInfo { title: "加入时共享项目", description: "加入空频道时是否自动共享当前打开的项目。", json_path: Some("calls.share_on_join"), files: SettingFiles::User, unimplemented: false }));
    assert(v@ =~= calls_section_spec());
    v
}

/// The entries of `audio_settings`.
pub open spec fn audio_settings_spec() -> Seq<PageItem> {
    seq![
        PageItem::ActionLink(ActionInfo { title: "测试音频", description: Some("测试你的麦克风和扬声器设备"), button_text: "测试音频", files: SettingFiles::User }),
        PageItem::Setting(SettingItemInfo { title: "音频输出设备", description: "选择音频输出设备", json_path: Some("audio.experimental.output_audio_device"), files: SettingFiles::User, unimplemented: false }),
        PageItem::Setting(SettingItemInfo { title: "音频输入设备", description: "选择音频输入设备", json_path: Some("audio.experimental.input_audio_device"), files: SettingFiles::User, unimplemented: false }),
    ]
}

fn audio_settings() -> (r: Vec<PageItem>)
    ensures
        r@ == audio_settings_spec(),
{
    let mut v: Vec<PageItem> = Vec::new();
    v.push(PageItem::ActionLink(ActionInfo { title: "测试音频", description: Some("测试你的麦克风和扬声器设备"), button_text: "测试音频", files: SettingFiles::User }));
    v.push(PageItem::Setting(SettingItemInfo { title: "音频输出设备", description: "选择音频输出设备", json_path: Some("audio.experimental.output_audio_device"), files: SettingFiles::User, unimplemented: false }));
    v.push(PageItem::Setting(SettingItemInfo { title: "音频输入设备", description: "选择音频输入设备", json_path: Some("audio.experimental.input_audio_device"), files: SettingFiles::User, unimplemented: false }));
    assert(v@ =~= audio_settings_spec());
    v
}

/// The entries of the "协作" page.
pub open spec fn collaboration_page_spec() -> Seq<PageItem> {
    calls_section_spec()
        + audio_settings_spec()
}

/// The entries of the "协作" page.
pub fn collaboration_page_items() -> (r: Vec<PageItem>)
    ensures
        r@ == collaboration_page_spec(),
{
    let mut items = calls_section();
    let mut next = audio_settings();
    items.append(&mut next);
    items
}

/// No two entries of `collaboration_page_spec` share a JSON path.
pub proof fn lemma_collaboration_page_paths_distinct()
    ensures
        json_paths_distinct(collaboration_page_spec()),
{
}

} // verus!
