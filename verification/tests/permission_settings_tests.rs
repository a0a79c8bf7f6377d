use zed_ui_logic::permission_settings::{
    delete_pattern, save_pattern, set_default_mode, set_global_default_permission, update_pattern,
    ToolPermissionsContent, ToolRegexRule, ToolRulesContent,
};
use zed_ui_logic::rule_preview::{
    confirm_new_pattern, confirm_pattern_edit, decision_to_mode, denied_text, invalid_rule_label, invalid_rule_mode,
    matched_pattern_label, mode_display_label, pattern_error_message, reason_text, verdict_color,
    verification_preview, LabelColor, PreviewLine, ToolPermissionDecision,
};
use zed_ui_logic::settings_pages::{
    language_settings_field, language_settings_field_mut, settings_page_titles, show_scrollbar_or_editor,
};
use zed_ui_logic::tool_permissions::{CompiledRule, MatchedPattern, ToolPermissionMode, ToolPermissions, ToolRules};

fn patterns(settings: &Option<ToolPermissionsContent>, tool: &str, mode: ToolPermissionMode) -> Vec<String> {
    let Some(p) = settings else { return vec![] };
    let Some((_, rules)) = p.tools.iter().find(|(n, _)| n == tool) else { return vec![] };
    let list = match mode {
        ToolPermissionMode::Allow => &rules.always_allow,
        ToolPermissionMode::Deny => &rules.always_deny,
        ToolPermissionMode::Confirm => &rules.always_confirm,
    };
    list.as_ref().map(|l| l.iter().map(|r| r.pattern.clone()).collect()).unwrap_or_default()
}

fn empty_rules() -> ToolRulesContent {
    ToolRulesContent { default: None, always_allow: None, always_deny: None, always_confirm: None }
}

#[test]
fn save_creates_section_tool_and_list() {
    let mut settings: Option<ToolPermissionsContent> = None;
    save_pattern(&mut settings, "terminal", ToolPermissionMode::Allow, "^ls".to_string());
    let p = settings.as_ref().unwrap();
    assert_eq!(p.default, None);
    assert_eq!(p.tools.len(), 1);
    assert_eq!(p.tools[0].0, "terminal");
    let list = p.tools[0].1.always_allow.as_ref().unwrap();
    assert_eq!(list.len(), 1);
    assert_eq!(list[0].pattern, "^ls");
    assert_eq!(list[0].case_sensitive, None);
    assert!(p.tools[0].1.always_deny.is_none());
    assert!(p.tools[0].1.always_confirm.is_none());
}

#[test]
fn save_is_idempotent_and_appends() {
    let mut settings: Option<ToolPermissionsContent> = None;
    save_pattern(&mut settings, "terminal", ToolPermissionMode::Deny, "rm".to_string());
    save_pattern(&mut settings, "terminal", ToolPermissionMode::Deny, "rm".to_string());
    assert_eq!(patterns(&settings, "terminal", ToolPermissionMode::Deny), vec!["rm"]);
    save_pattern(&mut settings, "terminal", ToolPermissionMode::Deny, "sudo".to_string());
    assert_eq!(patterns(&settings, "terminal", ToolPermissionMode::Deny), vec!["rm", "sudo"]);
    // Other lists and tools are untouched.
    save_pattern(&mut settings, "fetch", ToolPermissionMode::Confirm, "http".to_string());
    assert_eq!(patterns(&settings, "terminal", ToolPermissionMode::Deny), vec!["rm", "sudo"]);
    assert!(patterns(&settings, "terminal", ToolPermissionMode::Confirm).is_empty());
    assert_eq!(patterns(&settings, "fetch", ToolPermissionMode::Confirm), vec!["http"]);
    assert_eq!(settings.as_ref().unwrap().tools.len(), 2);
}

#[test]
fn save_keeps_existing_rule_settings() {
    let mut rules = empty_rules();
    rules.default = Some(ToolPermissionMode::Allow);
    rules.always_allow = Some(vec![ToolRegexRule { pattern: "^git".to_string(), case_sensitive: Some(true) }]);
    let mut settings = Some(ToolPermissionsContent {
        default: Some(ToolPermissionMode::Deny),
        tools: vec![("terminal".to_string(), rules)],
    });
    save_pattern(&mut settings, "terminal", ToolPermissionMode::Allow, "^git".to_string());
    save_pattern(&mut settings, "terminal", ToolPermissionMode::Allow, "^ls".to_string());
    let p = settings.as_ref().unwrap();
    assert_eq!(p.default, Some(ToolPermissionMode::Deny));
    assert_eq!(p.tools[0].1.default, Some(ToolPermissionMode::Allow));
    let list = p.tools[0].1.always_allow.as_ref().unwrap();
    assert_eq!(list.len(), 2);
    assert_eq!(list[0].case_sensitive, Some(true));
    assert_eq!(list[1].pattern, "^ls");
}

#[test]
fn delete_removes_every_copy_and_undoes_save() {
    let mut rules = empty_rules();
    rules.always_confirm = Some(vec![
        ToolRegexRule { pattern: "a".to_string(), case_sensitive: None },
        ToolRegexRule { pattern: "b".to_string(), case_sensitive: None },
        ToolRegexRule { pattern: "a".to_string(), case_sensitive: Some(false) },
    ]);
    let mut settings = Some(ToolPermissionsContent { default: None, tools: vec![("fetch".to_string(), rules)] });
    delete_pattern(&mut settings, "fetch", ToolPermissionMode::Confirm, "a");
    assert_eq!(patterns(&settings, "fetch", ToolPermissionMode::Confirm), vec!["b"]);

    save_pattern(&mut settings, "fetch", ToolPermissionMode::Confirm, "c".to_string());
    delete_pattern(&mut settings, "fetch", ToolPermissionMode::Confirm, "c");
    assert_eq!(patterns(&settings, "fetch", ToolPermissionMode::Confirm), vec!["b"]);

    // Deleting from a tool or list that is absent changes nothing but
    // creates the section.
    let mut none: Option<ToolPermissionsContent> = None;
    delete_pattern(&mut none, "fetch", ToolPermissionMode::Allow, "x");
    let p = none.unwrap();
    assert!(p.tools.is_empty());
    delete_pattern(&mut settings, "fetch", ToolPermissionMode::Deny, "b");
    assert!(settings.as_ref().unwrap().tools[0].1.always_deny.is_none());
    assert_eq!(patterns(&settings, "fetch", ToolPermissionMode::Confirm), vec!["b"]);
}

fn effective(tool: &str, allow: &[&str]) -> ToolPermissions {
    ToolPermissions {
        default: ToolPermissionMode::Confirm,
        tools: vec![(
            tool.to_string(),
            ToolRules {
                default: None,
                always_allow: allow
                    .iter()
                    .map(|p| CompiledRule { pattern: p.to_string(), case_sensitive: false })
                    .collect(),
                always_deny: vec![],
                always_confirm: vec![],
                invalid_patterns: vec![],
            },
        )],
    }
}

#[test]
fn update_renames_first_occurrence() {
    let mut rules = empty_rules();
    rules.always_allow = Some(vec![
        ToolRegexRule { pattern: "x".to_string(), case_sensitive: Some(true) },
        ToolRegexRule { pattern: "y".to_string(), case_sensitive: None },
        ToolRegexRule { pattern: "x".to_string(), case_sensitive: None },
    ]);
    let mut settings = Some(ToolPermissionsContent { default: None, tools: vec![("grep".to_string(), rules)] });
    let eff = effective("grep", &["x", "y"]);
    assert!(update_pattern(&eff, &mut settings, "grep", ToolPermissionMode::Allow, "x", "z".to_string()));
    assert_eq!(patterns(&settings, "grep", ToolPermissionMode::Allow), vec!["z", "y", "x"]);
    let list = settings.as_ref().unwrap().tools[0].1.always_allow.as_ref().unwrap();
    assert_eq!(list[0].case_sensitive, Some(true));

    // The settings in effect already list the new pattern: refused.
    let before = patterns(&settings, "grep", ToolPermissionMode::Allow);
    assert!(!update_pattern(&eff, &mut settings, "grep", ToolPermissionMode::Allow, "z", "y".to_string()));
    assert_eq!(patterns(&settings, "grep", ToolPermissionMode::Allow), before);

    // The file already lists it: accepted, nothing changes.
    let eff_other = effective("grep", &[]);
    assert!(update_pattern(&eff_other, &mut settings, "grep", ToolPermissionMode::Allow, "z", "y".to_string()));
    assert_eq!(patterns(&settings, "grep", ToolPermissionMode::Allow), before);

    // The old pattern is not listed: accepted, nothing changes.
    assert!(update_pattern(&eff_other, &mut settings, "grep", ToolPermissionMode::Allow, "q", "w".to_string()));
    assert_eq!(patterns(&settings, "grep", ToolPermissionMode::Allow), before);
}

#[test]
fn defaults_are_written() {
    let mut settings: Option<ToolPermissionsContent> = None;
    set_global_default_permission(&mut settings, ToolPermissionMode::Allow);
    assert_eq!(settings.as_ref().unwrap().default, Some(ToolPermissionMode::Allow));
    assert!(settings.as_ref().unwrap().tools.is_empty());

    set_default_mode(&mut settings, "fetch", ToolPermissionMode::Deny);
    save_pattern(&mut settings, "fetch", ToolPermissionMode::Allow, "a".to_string());
    set_default_mode(&mut settings, "fetch", ToolPermissionMode::Confirm);
    let p = settings.as_ref().unwrap();
    assert_eq!(p.tools.len(), 1);
    assert_eq!(p.tools[0].1.default, Some(ToolPermissionMode::Confirm));
    assert_eq!(patterns(&settings, "fetch", ToolPermissionMode::Allow), vec!["a"]);
    assert_eq!(settings.as_ref().unwrap().default, Some(ToolPermissionMode::Allow));
}

#[test]
fn labels_and_colors() {
    assert_eq!(mode_display_label(ToolPermissionMode::Allow), "允许");
    assert_eq!(mode_display_label(ToolPermissionMode::Deny), "拒绝");
    assert_eq!(mode_display_label(ToolPermissionMode::Confirm), "确认");
    assert_eq!(verdict_color(ToolPermissionMode::Allow), LabelColor::Success);
    assert_eq!(verdict_color(ToolPermissionMode::Deny), LabelColor::Error);
    assert_eq!(verdict_color(ToolPermissionMode::Confirm), LabelColor::Warning);
    assert_eq!(decision_to_mode(&ToolPermissionDecision::Allow), ToolPermissionMode::Allow);
    assert_eq!(decision_to_mode(&ToolPermissionDecision::Deny("x".to_string())), ToolPermissionMode::Deny);
    assert_eq!(decision_to_mode(&ToolPermissionDecision::Confirm), ToolPermissionMode::Confirm);

    let p = MatchedPattern { pattern: "x".to_string(), rule_type: ToolPermissionMode::Deny, is_overridden: false };
    assert_eq!(matched_pattern_label(&p), ("始终拒绝", LabelColor::Error));
    let p = MatchedPattern { pattern: "x".to_string(), rule_type: ToolPermissionMode::Allow, is_overridden: true };
    assert_eq!(matched_pattern_label(&p), ("始终允许", LabelColor::Muted));
    let p = MatchedPattern { pattern: "x".to_string(), rule_type: ToolPermissionMode::Confirm, is_overridden: false };
    assert_eq!(matched_pattern_label(&p), ("始终确认", LabelColor::Warning));

    assert_eq!(invalid_rule_label("always_allow"), "始终允许");
    assert_eq!(invalid_rule_label("always_deny"), "始终拒绝");
    assert_eq!(invalid_rule_label("always_confirm"), "始终确认");
    assert_eq!(invalid_rule_label("something_else"), "something_else");
    assert_eq!(invalid_rule_mode("always_allow"), ToolPermissionMode::Allow);
    assert_eq!(invalid_rule_mode("always_deny"), ToolPermissionMode::Deny);
    assert_eq!(invalid_rule_mode("always_confirm"), ToolPermissionMode::Confirm);
    assert_eq!(invalid_rule_mode("bogus"), ToolPermissionMode::Confirm);

    assert_eq!(denied_text("too risky"), "已拒绝：too risky");
    assert_eq!(reason_text("too risky"), "原因：too risky");
}

fn matched(rule_type: ToolPermissionMode, is_overridden: bool) -> MatchedPattern {
    MatchedPattern { pattern: "p".to_string(), rule_type, is_overridden }
}

#[test]
fn preview_without_decision_is_empty() {
    let r = verification_preview(&None, &vec![], ToolPermissionMode::Confirm);
    assert_eq!(r.outcome, None);
    assert!(r.patterns_agree);
    assert!(r.lines.is_empty());
}

#[test]
fn preview_agreeing_outcomes() {
    let r = verification_preview(&Some(ToolPermissionDecision::Confirm), &vec![], ToolPermissionMode::Confirm);
    assert_eq!(r.outcome, Some(ToolPermissionMode::Confirm));
    assert!(r.patterns_agree);
    assert_eq!(r.lines, vec![PreviewLine::NoMatch, PreviewLine::Outcome(ToolPermissionMode::Confirm)]);

    let m = vec![matched(ToolPermissionMode::Allow, false)];
    let r = verification_preview(&Some(ToolPermissionDecision::Allow), &m, ToolPermissionMode::Confirm);
    assert_eq!(r.lines, vec![PreviewLine::MatchedPatterns, PreviewLine::Outcome(ToolPermissionMode::Allow)]);

    let m = vec![matched(ToolPermissionMode::Deny, false)];
    let d = Some(ToolPermissionDecision::Deny("matches a deny rule".to_string()));
    let r = verification_preview(&d, &m, ToolPermissionMode::Allow);
    assert_eq!(r.denial_reason, Some("matches a deny rule".to_string()));
    assert!(!r.is_hardcoded_denial);
    assert_eq!(
        r.lines,
        vec![PreviewLine::MatchedPatterns, PreviewLine::Outcome(ToolPermissionMode::Deny), PreviewLine::Reason]
    );
}

#[test]
fn preview_disagreeing_outcomes() {
    // A denial by the built-in rules that no pattern explains.
    let d = Some(ToolPermissionDecision::Deny("被内置安全规则阻止".to_string()));
    let r = verification_preview(&d, &vec![], ToolPermissionMode::Allow);
    assert!(r.is_hardcoded_denial);
    assert!(!r.patterns_agree);
    assert_eq!(r.denial_reason, None);
    assert_eq!(r.lines, vec![PreviewLine::HardcodedRules, PreviewLine::Outcome(ToolPermissionMode::Deny)]);

    // The same denial, when the default is deny, agrees.
    let r = verification_preview(&d, &vec![], ToolPermissionMode::Deny);
    assert_eq!(
        r.lines,
        vec![PreviewLine::NoMatch, PreviewLine::HardcodedRules, PreviewLine::Outcome(ToolPermissionMode::Deny)]
    );

    // Another denial that no pattern explains.
    let d = Some(ToolPermissionDecision::Deny("invalid pattern".to_string()));
    let r = verification_preview(&d, &vec![], ToolPermissionMode::Allow);
    assert_eq!(r.lines, vec![PreviewLine::Denied, PreviewLine::Outcome(ToolPermissionMode::Deny)]);

    // An empty reason gives the plain disagreement note.
    let d = Some(ToolPermissionDecision::Deny(String::new()));
    let r = verification_preview(&d, &vec![], ToolPermissionMode::Allow);
    assert_eq!(r.denial_reason, None);
    assert_eq!(r.lines, vec![PreviewLine::Disagreement, PreviewLine::Outcome(ToolPermissionMode::Deny)]);

    let m = vec![matched(ToolPermissionMode::Allow, true)];
    let r = verification_preview(&Some(ToolPermissionDecision::Allow), &m, ToolPermissionMode::Confirm);
    assert!(!r.patterns_agree);
    assert_eq!(r.lines, vec![PreviewLine::Disagreement, PreviewLine::Outcome(ToolPermissionMode::Allow)]);
}

#[test]
fn pattern_error_messages() {
    assert_eq!(pattern_error_message(None), None);
    assert_eq!(
        pattern_error_message(Some("oops".to_string())),
        Some("无效的正则表达式：oops。模式已保存，但在修复或删除之前将阻止此工具。".to_string())
    );
}

#[test]
fn confirm_new_pattern_saves_trimmed() {
    let mut settings: Option<ToolPermissionsContent> = None;
    assert_eq!(confirm_new_pattern(&mut settings, "fetch", ToolPermissionMode::Allow, None), None);
    assert_eq!(confirm_new_pattern(&mut settings, "fetch", ToolPermissionMode::Allow, Some("  \t".to_string())), None);
    assert!(settings.is_none());

    let r = confirm_new_pattern(&mut settings, "fetch", ToolPermissionMode::Allow, Some("  ^https://  ".to_string()));
    assert_eq!(r, Some(None));
    assert_eq!(patterns(&settings, "fetch", ToolPermissionMode::Allow), vec!["^https://"]);

    // A pattern that does not compile is saved, with a warning.
    let r = confirm_new_pattern(&mut settings, "fetch", ToolPermissionMode::Allow, Some("(".to_string()));
    let expected = regex::Regex::new("(").unwrap_err().to_string();
    assert_eq!(
        r,
        Some(Some(format!("无效的正则表达式：{expected}。模式已保存，但在修复或删除之前将阻止此工具。")))
    );
    assert_eq!(patterns(&settings, "fetch", ToolPermissionMode::Allow), vec!["^https://", "("]);
}

#[test]
fn confirm_pattern_edit_outcomes() {
    let mut rules = empty_rules();
    rules.always_deny = Some(vec![
        ToolRegexRule { pattern: "rm".to_string(), case_sensitive: None },
        ToolRegexRule { pattern: "sudo".to_string(), case_sensitive: None },
    ]);
    let mut settings = Some(ToolPermissionsContent { default: None, tools: vec![("terminal".to_string(), rules)] });
    let eff = ToolPermissions {
        default: ToolPermissionMode::Confirm,
        tools: vec![(
            "terminal".to_string(),
            ToolRules {
                default: None,
                always_allow: vec![],
                always_deny: vec![
                    CompiledRule { pattern: "rm".to_string(), case_sensitive: false },
                    CompiledRule { pattern: "sudo".to_string(), case_sensitive: false },
                ],
                always_confirm: vec![],
                invalid_patterns: vec![],
            },
        )],
    };
    // Unchanged text: nothing happens.
    assert_eq!(
        confirm_pattern_edit(&eff, &mut settings, "terminal", ToolPermissionMode::Deny, "rm", Some(" rm ".to_string())),
        None
    );
    assert_eq!(
        confirm_pattern_edit(&eff, &mut settings, "terminal", ToolPermissionMode::Deny, "rm", Some(" ".to_string())),
        None
    );
    // A duplicate: refused with a message.
    assert_eq!(
        confirm_pattern_edit(&eff, &mut settings, "terminal", ToolPermissionMode::Deny, "rm", Some("sudo".to_string())),
        Some(Some("此规则列表中已存在同名模式。".to_string()))
    );
    assert_eq!(patterns(&settings, "terminal", ToolPermissionMode::Deny), vec!["rm", "sudo"]);
    // A valid rename.
    assert_eq!(
        confirm_pattern_edit(&eff, &mut settings, "terminal", ToolPermissionMode::Deny, "rm", Some(" rm -rf".to_string())),
        Some(None)
    );
    assert_eq!(patterns(&settings, "terminal", ToolPermissionMode::Deny), vec!["rm -rf", "sudo"]);
    // A rename to a pattern that does not compile.
    let r = confirm_pattern_edit(&eff, &mut settings, "terminal", ToolPermissionMode::Deny, "sudo", Some("[".to_string()));
    assert!(matches!(r, Some(Some(ref m)) if m.starts_with("无效的正则表达式：")));
    assert_eq!(patterns(&settings, "terminal", ToolPermissionMode::Deny), vec!["rm -rf", "["]);
}

#[test]
fn language_field_lookup() {
    let langs = vec![("Rust".to_string(), Some(4u32)), ("Go".to_string(), None)];
    assert_eq!(language_settings_field(&langs, Some(2), Some("Rust")), Some(4));
    assert_eq!(language_settings_field(&langs, Some(2), Some("Go")), Some(2));
    assert_eq!(language_settings_field(&langs, Some(2), Some("Python")), Some(2));
    assert_eq!(language_settings_field(&langs, None, None), None);
    assert_eq!(language_settings_field(&langs, Some(8), None), Some(8));
}

#[test]
fn language_field_write() {
    let mut langs = vec![("Rust".to_string(), Some(4u32))];
    let mut defaults: Option<u32> = Some(2);
    language_settings_field_mut(&mut langs, &mut defaults, Some("Rust"), Some(3));
    assert_eq!(langs, vec![("Rust".to_string(), Some(3))]);
    language_settings_field_mut(&mut langs, &mut defaults, Some("Go"), Some(8));
    assert_eq!(langs, vec![("Rust".to_string(), Some(3)), ("Go".to_string(), Some(8))]);
    assert_eq!(defaults, Some(2));
    language_settings_field_mut(&mut langs, &mut defaults, None, None);
    assert_eq!(defaults, None);
    assert_eq!(langs.len(), 2);
}

#[test]
fn scrollbar_fallback() {
    assert_eq!(show_scrollbar_or_editor(Some(1), Some(2)), Some(1));
    assert_eq!(show_scrollbar_or_editor(None, Some(2)), Some(2));
    assert_eq!(show_scrollbar_or_editor::<u8>(None, None), None);
}

#[test]
fn page_titles() {
    let base = settings_page_titles(false);
    assert_eq!(base.len(), 14);
    assert_eq!(base[0], "通用");
    assert_eq!(base[13], "网络");
    let all = settings_page_titles(true);
    assert_eq!(all.len(), 15);
    assert_eq!(all[14], "开发者");
    assert_eq!(&all[..14], &base[..]);
}
