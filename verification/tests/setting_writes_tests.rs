use zed_ui_logic::permission_settings::{delete_pattern, ToolPermissionsContent, ToolRegexRule, ToolRulesContent};
use zed_ui_logic::setting_writes::{
    autosave_after_write, autosave_delay_after_write, autosave_kind, button_layout_after_write,
    content_width_discriminant, git_enabled_discriminant, icon_theme_after_write, shell_after_write,
    theme_after_write, theme_field_after_write, shell_field_after_write, always_directory_after_write, ShellField, working_directory_after_write, AutosaveKind, AutosaveSetting,
    ButtonLayout, ButtonLayoutKind, GitEnabled, SelectionKind, Shell, ShellKind, ThemeAppearanceMode, ThemeField,
    ThemeSelection, WorkingDirectory, WorkingDirectoryKind,
};
use zed_ui_logic::tab_switcher::uses_git_status_color;
use zed_ui_logic::text::usize_to_decimal;
use zed_ui_logic::tool_permissions::{
    divider_after_tool_row, rule_section_text, tool_page_sections, InvalidPattern, ToolPageSection,
    ToolPermissionMode, ToolRulesView,
};

#[test]
fn autosave_modes() {
    let delay = Some(AutosaveSetting::AfterDelay { milliseconds: 250 });
    assert_eq!(autosave_after_write(delay, Some(AutosaveKind::AfterDelay)), delay);
    assert_eq!(
        autosave_after_write(Some(AutosaveSetting::Off), Some(AutosaveKind::AfterDelay)),
        Some(AutosaveSetting::AfterDelay { milliseconds: 1000 })
    );
    assert_eq!(
        autosave_after_write(None, Some(AutosaveKind::AfterDelay)),
        Some(AutosaveSetting::AfterDelay { milliseconds: 1000 })
    );
    assert_eq!(autosave_after_write(delay, Some(AutosaveKind::OnFocusChange)), Some(AutosaveSetting::OnFocusChange));
    assert_eq!(autosave_after_write(delay, None), None);
    assert_eq!(autosave_kind(delay), Some(AutosaveKind::AfterDelay));
    assert_eq!(autosave_kind(None), None);
    assert_eq!(autosave_delay_after_write(delay, Some(500)), Some(AutosaveSetting::AfterDelay { milliseconds: 500 }));
    assert_eq!(autosave_delay_after_write(Some(AutosaveSetting::Off), Some(500)), Some(AutosaveSetting::Off));
    assert_eq!(autosave_delay_after_write(delay, None), None);
}

fn dynamic(mode: ThemeAppearanceMode) -> ThemeSelection {
    ThemeSelection::Dynamic { mode, light: "One Light".to_string(), dark: "One Dark".to_string() }
}

#[test]
fn theme_modes() {
    let default = dynamic(ThemeAppearanceMode::System);
    let st = |n: &str| Some(ThemeSelection::Static(n.to_string()));
    assert_eq!(theme_after_write(Some(dynamic(ThemeAppearanceMode::Light)), Some(SelectionKind::Static), false, default.clone()), st("One Light"));
    assert_eq!(theme_after_write(Some(dynamic(ThemeAppearanceMode::Dark)), Some(SelectionKind::Static), true, default.clone()), st("One Dark"));
    assert_eq!(theme_after_write(Some(dynamic(ThemeAppearanceMode::System)), Some(SelectionKind::Static), true, default.clone()), st("One Light"));
    assert_eq!(theme_after_write(Some(dynamic(ThemeAppearanceMode::System)), Some(SelectionKind::Static), false, default.clone()), st("One Dark"));
    assert_eq!(
        theme_after_write(st("Ayu"), Some(SelectionKind::Dynamic), false, default.clone()),
        Some(ThemeSelection::Dynamic { mode: ThemeAppearanceMode::System, light: "Ayu".to_string(), dark: "Ayu".to_string() })
    );
    assert_eq!(theme_after_write(st("Ayu"), Some(SelectionKind::Static), false, default.clone()), st("Ayu"));
    assert_eq!(theme_after_write(None, Some(SelectionKind::Dynamic), false, default.clone()), Some(default.clone()));
    assert_eq!(theme_after_write(st("Ayu"), None, false, default.clone()), None);
    // The icon theme's system mode follows the system's appearance too.
    assert_eq!(icon_theme_after_write(Some(dynamic(ThemeAppearanceMode::System)), Some(SelectionKind::Static), true, "Zed".to_string()), st("One Light"));
    assert_eq!(icon_theme_after_write(None, Some(SelectionKind::Dynamic), true, "Zed".to_string()),
        Some(ThemeSelection::Dynamic { mode: ThemeAppearanceMode::System, light: "Zed".to_string(), dark: "Zed".to_string() }));

    assert_eq!(theme_field_after_write(st("Ayu"), Some(ThemeField::Name("Gruvbox".to_string())), None), st("Gruvbox"));
    assert_eq!(theme_field_after_write(st("Ayu"), Some(ThemeField::Light("x".to_string())), None), st("Ayu"));
    assert_eq!(theme_field_after_write(None, Some(ThemeField::Mode(ThemeAppearanceMode::Dark)), None), None);
    assert_eq!(
        theme_field_after_write(None, Some(ThemeField::Mode(ThemeAppearanceMode::Dark)), Some(default.clone())),
        Some(dynamic(ThemeAppearanceMode::Dark))
    );
    assert_eq!(theme_field_after_write(st("Ayu"), None, Some(default)), st("Ayu"));
}

#[test]
fn shell_modes() {
    let prog = |p: &str| Shell::Program(p.to_string());
    assert_eq!(shell_after_write(Some(prog("zsh")), Some(ShellKind::Program), false, Shell::System), Some(prog("zsh")));
    assert_eq!(shell_after_write(Some(Shell::System), Some(ShellKind::Program), false, Shell::System), Some(prog("sh")));
    assert_eq!(shell_after_write(None, Some(ShellKind::Program), true, Shell::System), Some(prog("powershell.exe")));
    let with = Shell::WithArguments { program: "bash".to_string(), args: vec!["-l".to_string()], title_override: Some("b".to_string()) };
    assert_eq!(shell_after_write(Some(with.clone()), Some(ShellKind::Program), false, Shell::System), Some(prog("bash")));
    assert_eq!(shell_after_write(Some(with.clone()), Some(ShellKind::WithArguments), false, Shell::System), Some(with));
    assert_eq!(
        shell_after_write(Some(prog("fish")), Some(ShellKind::WithArguments), false, Shell::System),
        Some(Shell::WithArguments { program: "fish".to_string(), args: vec![], title_override: None })
    );
    assert_eq!(shell_after_write(Some(prog("fish")), Some(ShellKind::System), false, Shell::System), Some(Shell::System));
    assert_eq!(shell_after_write(Some(prog("fish")), None, false, Shell::System), None);
}

#[test]
fn working_directory_and_buttons() {
    let always = Some(WorkingDirectory::Always { directory: "/tmp".to_string() });
    assert_eq!(working_directory_after_write(always.clone(), Some(WorkingDirectoryKind::Always)), always);
    assert_eq!(
        working_directory_after_write(None, Some(WorkingDirectoryKind::Always)),
        Some(WorkingDirectory::Always { directory: String::new() })
    );
    assert_eq!(working_directory_after_write(always, Some(WorkingDirectoryKind::AlwaysHome)), Some(WorkingDirectory::AlwaysHome));
    assert_eq!(working_directory_after_write(None, None), None);

    let custom = Some(ButtonLayout::Custom("minimize:close".to_string()));
    assert_eq!(button_layout_after_write(custom.clone(), Some(ButtonLayoutKind::Custom)), custom);
    assert_eq!(
        button_layout_after_write(Some(ButtonLayout::Standard), Some(ButtonLayoutKind::Custom)),
        Some(ButtonLayout::Custom("close:minimize,maximize".to_string()))
    );
    assert_eq!(button_layout_after_write(custom, Some(ButtonLayoutKind::Standard)), Some(ButtonLayout::Standard));
    assert_eq!(button_layout_after_write(None, None), None);
}

#[test]
fn switch_discriminants() {
    assert_eq!(git_enabled_discriminant(None), None);
    let g = |d| Some(GitEnabled { disable_git: d, enable_status: None, enable_diff: None });
    assert_eq!(git_enabled_discriminant(g(Some(true))), Some(0));
    assert_eq!(git_enabled_discriminant(g(Some(false))), Some(1));
    assert_eq!(git_enabled_discriminant(g(None)), Some(1));
    assert_eq!(content_width_discriminant(false, Some(true)), None);
    assert_eq!(content_width_discriminant(true, None), Some(1));
    assert_eq!(content_width_discriminant(true, Some(false)), Some(0));
    assert!(uses_git_status_color(true, true));
    assert!(!uses_git_status_color(true, false));
    assert!(!uses_git_status_color(false, true));
}

#[test]
fn tool_page_layout() {
    let mut rules = ToolRulesView {
        default: ToolPermissionMode::Confirm,
        always_allow: vec![],
        always_deny: vec![],
        always_confirm: vec![],
        invalid_patterns: vec![],
    };
    assert_eq!(
        tool_page_sections("fetch", false, &rules),
        vec![
            ToolPageSection::Header,
            ToolPageSection::Verification,
            ToolPageSection::DefaultMode,
            ToolPageSection::Divider,
            ToolPageSection::Rules(ToolPermissionMode::Deny),
            ToolPageSection::Divider,
            ToolPageSection::Rules(ToolPermissionMode::Allow),
            ToolPageSection::Divider,
            ToolPageSection::Rules(ToolPermissionMode::Confirm),
        ]
    );
    rules.invalid_patterns.push(InvalidPattern { pattern: "(".to_string(), rule_type: "always_deny".to_string(), error: "e".to_string() });
    let s = tool_page_sections("terminal", true, &rules);
    assert_eq!(&s[..4], &[ToolPageSection::Header, ToolPageSection::HardcodedRulesBanner, ToolPageSection::Verification, ToolPageSection::ValidationWarning]);
    assert_eq!(&s[s.len() - 2..], &[ToolPageSection::Divider, ToolPageSection::InvalidPatterns]);
    assert_eq!(rule_section_text(ToolPermissionMode::Deny).0, "始终拒绝");
    assert_eq!(rule_section_text(ToolPermissionMode::Confirm).1, "如果其中任何一个正则表达式匹配，将显示确认提示，除非同时存在“始终拒绝”匹配。");
    assert!(divider_after_tool_row(0));
    assert!(divider_after_tool_row(8));
    assert!(!divider_after_tool_row(9));
}

#[test]
fn delete_twice_is_delete_once() {
    let rules = ToolRulesContent {
        default: None,
        always_allow: Some(vec![
            ToolRegexRule { pattern: "a".to_string(), case_sensitive: None },
            ToolRegexRule { pattern: "b".to_string(), case_sensitive: None },
        ]),
        always_deny: None,
        always_confirm: None,
    };
    let mut settings = Some(ToolPermissionsContent { default: None, tools: vec![("grep".to_string(), rules)] });
    delete_pattern(&mut settings, "grep", ToolPermissionMode::Allow, "a");
    let once: Vec<String> = settings.as_ref().unwrap().tools[0].1.always_allow.as_ref().unwrap().iter().map(|r| r.pattern.clone()).collect();
    delete_pattern(&mut settings, "grep", ToolPermissionMode::Allow, "a");
    let twice: Vec<String> = settings.as_ref().unwrap().tools[0].1.always_allow.as_ref().unwrap().iter().map(|r| r.pattern.clone()).collect();
    assert_eq!(once, vec!["b"]);
    assert_eq!(once, twice);
}

#[test]
fn decimal_formatting() {
    for n in [0usize, 7, 10, 99, 12345, usize::MAX] {
        assert_eq!(usize_to_decimal(n), n.to_string());
    }
}

#[test]
fn shell_and_directory_fields() {
    let with = Shell::WithArguments { program: "bash".to_string(), args: vec![], title_override: Some("t".to_string()) };
    assert_eq!(
        shell_field_after_write(Some(with.clone()), ShellField::TitleOverride(Some(String::new()))),
        Some(Shell::WithArguments { program: "bash".to_string(), args: vec![], title_override: None })
    );
    assert_eq!(
        shell_field_after_write(Some(with.clone()), ShellField::Arguments(Some(vec!["-l".to_string()]))),
        Some(Shell::WithArguments { program: "bash".to_string(), args: vec!["-l".to_string()], title_override: Some("t".to_string()) })
    );
    assert_eq!(shell_field_after_write(Some(with.clone()), ShellField::Arguments(None)), Some(with.clone()));
    assert_eq!(shell_field_after_write(Some(with.clone()), ShellField::ProgramPath(Some("zsh".to_string()))), Some(with));
    assert_eq!(
        shell_field_after_write(Some(Shell::Program("sh".to_string())), ShellField::ProgramPath(Some("zsh".to_string()))),
        Some(Shell::Program("zsh".to_string()))
    );
    assert_eq!(shell_field_after_write(None, ShellField::ProgramPath(Some("zsh".to_string()))), None);

    let always = Some(WorkingDirectory::Always { directory: "/a".to_string() });
    assert_eq!(always_directory_after_write(always.clone(), None), Some(WorkingDirectory::Always { directory: String::new() }));
    assert_eq!(always_directory_after_write(always, Some("/b".to_string())), Some(WorkingDirectory::Always { directory: "/b".to_string() }));
    assert_eq!(always_directory_after_write(Some(WorkingDirectory::AlwaysHome), Some("/b".to_string())), Some(WorkingDirectory::AlwaysHome));
}
