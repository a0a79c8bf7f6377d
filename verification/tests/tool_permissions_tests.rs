use zed_ui_logic::tool_permissions::{matched_patterns_from_outcomes, tool_list_row, tool_list_rows};
use zed_ui_logic::tool_permissions::{
    find_entry, find_matched_patterns, get_tool_render_fn, get_tool_rules, implied_mode_from_patterns,
    render_inline_code_markdown, rule_summary, shows_hardcoded_banner, tool_index, tool_info, tool_list_summary,
    tool_page_title, CodeRange, CompiledRule, InvalidPattern, MatchedPattern, ToolPermissionMode,
    ToolPermissions, ToolRules, ToolRulesView, HARDCODED_RULES_DESCRIPTION, TOOL_COUNT,
};

#[test]
fn test_all_tools_are_in_tool_info_or_excluded() {
    // Tools deliberately left off the permissions page.
    let excluded_tools: &[&str] = &[
        "diagnostics",
        "find_path",
        "grep",
        "list_directory",
        "now",
        "open",
        "read_file",
        "thinking",
        "streaming_edit_file",
        "spawn_agent",
        "update_plan",
    ];
    // The agent's built-in tools.
    let all_tool_names: &[&str] = &[
        "terminal",
        "edit_file",
        "delete_path",
        "copy_path",
        "move_path",
        "create_directory",
        "save_file",
        "fetch",
        "search_web",
        "restore_file_from_disk",
        "diagnostics",
        "find_path",
        "grep",
        "list_directory",
        "now",
        "open",
        "read_file",
        "thinking",
        "streaming_edit_file",
        "spawn_agent",
        "update_plan",
    ];

    let tool_info_ids: Vec<&str> = (0..TOOL_COUNT).map(|i| tool_info(i).id).collect();

    for tool_name in all_tool_names {
        if excluded_tools.contains(tool_name) {
            assert!(
                !tool_info_ids.contains(tool_name),
                "工具 '{}' 同时出现在 EXCLUDED_TOOLS 和 TOOLS 中——请选择其一。",
                tool_name,
            );
            continue;
        }
        assert!(tool_info_ids.contains(tool_name), "工具 '{}' 在 ALL_TOOL_NAMES 中，但在 TOOLS 中没有条目", tool_name);
    }

    for tool_id in &tool_info_ids {
        assert!(
            all_tool_names.contains(tool_id),
            "TOOLS 中包含 '{}'，但它不在 ALL_TOOL_NAMES 中。这真的是一个有效的内建工具吗？",
            tool_id,
        );
    }
}

#[test]
fn tool_table_entries() {
    let t = tool_info(0);
    assert_eq!(t.id, "terminal");
    assert_eq!(t.name, "终端");
    assert_eq!(t.description, "在终端中执行的命令");
    let t = tool_info(9);
    assert_eq!(t.id, "restore_file_from_disk");
    assert_eq!(t.name, "从磁盘恢复文件");
    let t = tool_info(8);
    assert_eq!(t.id, "search_web");
    assert_eq!(t.regex_explanation, "对搜索查询进行模式匹配。");
}

#[test]
fn tool_index_and_render_fn() {
    assert_eq!(tool_index("terminal"), 0);
    assert_eq!(tool_index("fetch"), 7);
    assert_eq!(tool_index("restore_file_from_disk"), 9);
    assert_eq!(get_tool_render_fn("move_path"), 4);
    assert_eq!(get_tool_render_fn("search_web"), 8);
    // Unknown ids fall back to the terminal.
    assert_eq!(get_tool_render_fn("grep"), 0);
    assert_eq!(get_tool_render_fn(""), 0);
}

#[test]
fn inline_code_markdown_ranges() {
    let (plain, ranges) = render_inline_code_markdown("run `ls` now");
    assert_eq!(plain, "run ls now");
    assert_eq!(ranges, vec![CodeRange { start: 4, end: 6 }]);

    // Ranges are byte offsets into the text without backticks.
    let (plain, ranges) = render_inline_code_markdown(HARDCODED_RULES_DESCRIPTION);
    assert_eq!(plain, "rm -rf 命令在 $HOME、~、.、.. 或 / 上运行时始终被阻止");
    assert_eq!(ranges.len(), 6);
    assert_eq!(&plain[ranges[0].start..ranges[0].end], "rm -rf");
    assert_eq!(&plain[ranges[1].start..ranges[1].end], "$HOME");
    assert_eq!(&plain[ranges[2].start..ranges[2].end], "~");
    assert_eq!(&plain[ranges[5].start..ranges[5].end], "/");

    // An unmatched backtick opens no range.
    let (plain, ranges) = render_inline_code_markdown("a `b` `c");
    assert_eq!(plain, "a b c");
    assert_eq!(ranges, vec![CodeRange { start: 2, end: 3 }]);

    let (plain, ranges) = render_inline_code_markdown("");
    assert_eq!(plain, "");
    assert!(ranges.is_empty());
}

#[test]
fn rule_summary_texts() {
    assert_eq!(rule_summary(0, 0), None);
    assert_eq!(rule_summary(1, 0), Some("1 条规则".to_string()));
    assert_eq!(rule_summary(12, 0), Some("12 条规则".to_string()));
    assert_eq!(rule_summary(0, 3), Some("3 个无效".to_string()));
    assert_eq!(rule_summary(2, 1), Some("2 条规则，1 个无效".to_string()));
    assert_eq!(rule_summary(105, 20), Some("105 条规则，20 个无效".to_string()));
}

fn rule(pattern: &str, case_sensitive: bool) -> CompiledRule {
    CompiledRule { pattern: pattern.to_string(), case_sensitive }
}

fn rules(allow: Vec<CompiledRule>, deny: Vec<CompiledRule>, confirm: Vec<CompiledRule>) -> ToolRules {
    ToolRules { default: None, always_allow: allow, always_deny: deny, always_confirm: confirm, invalid_patterns: Vec::new() }
}

fn permissions(tools: Vec<(&str, ToolRules)>) -> ToolPermissions {
    ToolPermissions {
        default: ToolPermissionMode::Confirm,
        tools: tools.into_iter().map(|(n, r)| (n.to_string(), r)).collect(),
    }
}

fn summary(patterns: &[MatchedPattern]) -> Vec<(String, ToolPermissionMode, bool)> {
    patterns.iter().map(|p| (p.pattern.clone(), p.rule_type, p.is_overridden)).collect()
}

#[test]
fn find_entry_takes_first() {
    let entries = vec![("a".to_string(), 1), ("b".to_string(), 2), ("a".to_string(), 3)];
    assert_eq!(find_entry(&entries, "a"), Some(0));
    assert_eq!(find_entry(&entries, "b"), Some(1));
    assert_eq!(find_entry(&entries, "c"), None);
}

#[test]
fn matched_patterns_for_unknown_tool_are_empty() {
    let p = permissions(vec![("fetch", rules(vec![rule("x", true)], vec![], vec![]))]);
    assert!(find_matched_patterns(&p, "edit_file", "x", None).is_empty());
}

#[test]
fn matched_patterns_deny_overrides_others() {
    let p = permissions(vec![(
        "edit_file",
        rules(vec![rule("src", true)], vec![rule("secret", true)], vec![rule("\\.rs$", true)]),
    )]);
    let m = find_matched_patterns(&p, "edit_file", "src/secret.rs", None);
    assert_eq!(
        summary(&m),
        vec![
            ("secret".to_string(), ToolPermissionMode::Deny, false),
            ("\\.rs$".to_string(), ToolPermissionMode::Confirm, true),
            ("src".to_string(), ToolPermissionMode::Allow, true),
        ]
    );
    assert_eq!(implied_mode_from_patterns(&m, ToolPermissionMode::Allow), ToolPermissionMode::Deny);

    // Without the deny match the confirm rule wins.
    let m = find_matched_patterns(&p, "edit_file", "src/main.rs", None);
    assert_eq!(
        summary(&m),
        vec![
            ("\\.rs$".to_string(), ToolPermissionMode::Confirm, false),
            ("src".to_string(), ToolPermissionMode::Allow, true),
        ]
    );
    assert_eq!(implied_mode_from_patterns(&m, ToolPermissionMode::Deny), ToolPermissionMode::Confirm);

    // Only the allow rule: it is active.
    let m = find_matched_patterns(&p, "edit_file", "src/main.txt", None);
    assert_eq!(summary(&m), vec![("src".to_string(), ToolPermissionMode::Allow, false)]);
    assert_eq!(implied_mode_from_patterns(&m, ToolPermissionMode::Deny), ToolPermissionMode::Allow);

    // Nothing matches: the default holds.
    let m = find_matched_patterns(&p, "edit_file", "docs/readme", None);
    assert!(m.is_empty());
    assert_eq!(implied_mode_from_patterns(&m, ToolPermissionMode::Confirm), ToolPermissionMode::Confirm);
}

#[test]
fn matched_patterns_case_sensitivity() {
    let p = permissions(vec![(
        "fetch",
        rules(vec![rule("example\\.com", false)], vec![rule("EVIL", true)], vec![]),
    )]);
    let m = find_matched_patterns(&p, "fetch", "https://EXAMPLE.com/evil", None);
    assert_eq!(summary(&m), vec![("example\\.com".to_string(), ToolPermissionMode::Allow, false)]);
    let m = find_matched_patterns(&p, "fetch", "https://example.com/EVIL", None);
    assert_eq!(
        summary(&m),
        vec![
            ("EVIL".to_string(), ToolPermissionMode::Deny, false),
            ("example\\.com".to_string(), ToolPermissionMode::Allow, true),
        ]
    );
}

#[test]
fn matched_patterns_terminal_commands() {
    let p = permissions(vec![(
        "terminal",
        rules(vec![rule("^ls", true), rule("^git status", true)], vec![], vec![]),
    )]);
    // Every command is allowed: the allow rules are active.
    let cmds = Some(vec!["ls -la".to_string(), "git status".to_string()]);
    let m = find_matched_patterns(&p, "terminal", "ls -la && git status", cmds);
    assert_eq!(
        summary(&m),
        vec![
            ("^ls".to_string(), ToolPermissionMode::Allow, false),
            ("^git status".to_string(), ToolPermissionMode::Allow, false),
        ]
    );
    // One command is not allowed: the allow matches are overridden.
    let cmds = Some(vec!["ls".to_string(), "rm x".to_string()]);
    let m = find_matched_patterns(&p, "terminal", "ls; rm x", cmds);
    assert_eq!(summary(&m), vec![("^ls".to_string(), ToolPermissionMode::Allow, true)]);
    // The input cannot be split: allow rules are off.
    let m = find_matched_patterns(&p, "terminal", "ls (", None);
    assert_eq!(summary(&m), vec![("^ls".to_string(), ToolPermissionMode::Allow, true)]);
    // An invalid pattern matches nothing.
    let p = permissions(vec![("terminal", rules(vec![rule("(", true)], vec![], vec![]))]);
    let m = find_matched_patterns(&p, "terminal", "(", Some(vec!["(".to_string()]));
    assert!(m.is_empty());
}

#[test]
fn tool_rules_view() {
    let mut r = rules(vec![rule("a", true), rule("b", true)], vec![rule("c", false)], vec![]);
    r.default = Some(ToolPermissionMode::Allow);
    r.invalid_patterns.push(InvalidPattern {
        pattern: "(".to_string(),
        rule_type: "always_deny".to_string(),
        error: "unclosed group".to_string(),
    });
    let p = permissions(vec![("copy_path", r)]);
    let v = get_tool_rules(&p, "copy_path");
    assert_eq!(v.default, ToolPermissionMode::Allow);
    assert_eq!(v.always_allow, vec!["a".to_string(), "b".to_string()]);
    assert_eq!(v.always_deny, vec!["c".to_string()]);
    assert!(v.always_confirm.is_empty());
    assert_eq!(v.invalid_patterns.len(), 1);
    assert_eq!(v.invalid_patterns[0].pattern, "(");
    assert_eq!(tool_list_summary(&v), Some("3 条规则，1 个无效".to_string()));

    let v = get_tool_rules(&p, "move_path");
    assert_eq!(v.default, ToolPermissionMode::Confirm);
    assert!(v.always_allow.is_empty() && v.always_deny.is_empty() && v.always_confirm.is_empty());
    assert_eq!(tool_list_summary(&v), None);

    let empty = ToolRulesView {
        default: ToolPermissionMode::Deny,
        always_allow: vec![],
        always_deny: vec!["x".to_string()],
        always_confirm: vec![],
        invalid_patterns: vec![],
    };
    assert_eq!(tool_list_summary(&empty), Some("1 条规则".to_string()));
}

#[test]
fn page_title_and_banner() {
    assert_eq!(tool_page_title("终端"), "终端 工具");
    assert!(shows_hardcoded_banner("terminal"));
    assert!(!shows_hardcoded_banner("edit_file"));
    assert!(!shows_hardcoded_banner("Terminal"));
}

#[test]
fn matched_patterns_from_given_outcomes() {
    let r = rules(vec![rule("a", true), rule("b", true)], vec![rule("d", true)], vec![rule("c", true)]);
    // Two inputs; the allow rules cover both, nothing denies or confirms.
    let deny = vec![vec![false, false]];
    let confirm = vec![vec![false, false]];
    let allow = vec![vec![true, false], vec![false, true]];
    let m = matched_patterns_from_outcomes(&r, &deny, &confirm, &allow, 2, true);
    assert_eq!(
        summary(&m),
        vec![("a".to_string(), ToolPermissionMode::Allow, false), ("b".to_string(), ToolPermissionMode::Allow, false)]
    );
    // The second input is not allowed: the allow matches are overridden.
    let allow = vec![vec![true, false], vec![false, false]];
    let m = matched_patterns_from_outcomes(&r, &deny, &confirm, &allow, 2, true);
    assert_eq!(summary(&m), vec![("a".to_string(), ToolPermissionMode::Allow, true)]);
    // A confirm hit overrides allow; a deny hit overrides confirm.
    let confirm = vec![vec![false, true]];
    let deny = vec![vec![true, false]];
    let allow = vec![vec![true, true], vec![false, false]];
    let m = matched_patterns_from_outcomes(&r, &deny, &confirm, &allow, 2, true);
    assert_eq!(
        summary(&m),
        vec![
            ("d".to_string(), ToolPermissionMode::Deny, false),
            ("c".to_string(), ToolPermissionMode::Confirm, true),
            ("a".to_string(), ToolPermissionMode::Allow, true),
        ]
    );
    // Allow rules off.
    let none = vec![vec![false, false]];
    let m = matched_patterns_from_outcomes(&r, &none, &none, &vec![vec![true, true], vec![false, false]], 2, false);
    assert_eq!(summary(&m), vec![("a".to_string(), ToolPermissionMode::Allow, true)]);
}

#[test]
fn setup_page_rows() {
    let empty = ToolRulesView {
        default: ToolPermissionMode::Confirm,
        always_allow: vec![],
        always_deny: vec![],
        always_confirm: vec![],
        invalid_patterns: vec![],
    };
    let some = ToolRulesView {
        default: ToolPermissionMode::Confirm,
        always_allow: vec!["a".to_string(), "b".to_string()],
        always_deny: vec!["c".to_string()],
        always_confirm: vec![],
        invalid_patterns: vec![
            InvalidPattern { pattern: "(".to_string(), rule_type: "always_allow".to_string(), error: "e".to_string() },
            InvalidPattern { pattern: "[".to_string(), rule_type: "always_deny".to_string(), error: "e".to_string() },
        ],
    };
    let row = tool_list_row(3, &some);
    assert_eq!(row.name, "复制路径");
    assert_eq!(row.button_id, "configure-copy_path");
    assert_eq!(row.button_label, "配置");
    assert_eq!(row.tab_index, 3);
    assert_eq!(row.summary, Some("3 条规则，2 个无效".to_string()));
    assert!(row.divider_after);
    let all: Vec<ToolRulesView> = (0..TOOL_COUNT)
        .map(|_| ToolRulesView {
            default: ToolPermissionMode::Confirm,
            always_allow: vec![],
            always_deny: vec![],
            always_confirm: vec![],
            invalid_patterns: vec![],
        })
        .collect();
    let rows = tool_list_rows(&all);
    assert_eq!(rows.len(), TOOL_COUNT);
    for (i, r) in rows.iter().enumerate() {
        assert_eq!(r.tab_index, i);
        assert_eq!(r.button_id, format!("configure-{}", tool_info(i).id));
        assert_eq!(r.divider_after, i + 1 < TOOL_COUNT);
        assert_eq!(r.summary, None);
    }
    assert_eq!(tool_list_row(9, &empty).button_id, "configure-restore_file_from_disk");
}
