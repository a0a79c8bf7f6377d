use zed_ui_logic::label_order::{labelled_order, text_less};
use zed_ui_logic::ordering::stable_order;
use zed_ui_logic::tasks_modal::{
    candidates_from_inventory, combine_candidates, partition_recent, rerun_last_task_label, sort_lsp_group,
    string_match_candidates, tags_line, tooltip_label, Footer, FooterAction, LspTask, LspTaskGroup, MatchEntry,
    ResolvedTaskView, RevealTarget, TaskCandidate, TaskChoice, TaskIcon, TaskOverrides, TaskSourceKind,
    TasksModal, TasksModalDelegate, MAX_TAGS_LINE_LEN,
};
use zed_ui_logic::text::{str_contains, trim, truncate_and_trailoff};

fn task(label: &str, command: &str, tags: &[&str]) -> ResolvedTaskView {
    ResolvedTaskView {
        id: format!("id-{label}"),
        resolved_label: label.to_string(),
        display_label: label.to_string(),
        original_label: label.to_string(),
        command_label: command.to_string(),
        tags: tags.iter().map(|t| t.to_string()).collect(),
        reveal_target: RevealTarget::Dock,
    }
}

fn candidate(kind: TaskSourceKind, label: &str) -> TaskCandidate {
    TaskCandidate { kind, task: task(label, label, &[]) }
}

fn labels(c: &[TaskCandidate]) -> Vec<String> {
    c.iter().map(|c| c.task.resolved_label.clone()).collect()
}

fn hit(candidate_id: usize) -> MatchEntry {
    MatchEntry { candidate_id, string: String::new(), positions: vec![] }
}

fn match_ids(m: &[MatchEntry]) -> Vec<usize> {
    m.iter().map(|m| m.candidate_id).collect()
}

#[test]
fn placeholders() {
    assert_eq!(TasksModalDelegate::new(None).placeholder_text(), "查找任务，或运行命令");
    let center = Some(TaskOverrides { reveal_target: Some(RevealTarget::Center) });
    assert_eq!(TasksModalDelegate::new(center).placeholder_text(), "查找任务，或在中央面板运行命令");
    let dock = Some(TaskOverrides { reveal_target: Some(RevealTarget::Dock) });
    assert_eq!(TasksModal::new(dock).delegate.placeholder_text(), "查找任务，或运行命令");
}

#[test]
fn loaded_candidates_order() {
    let mut modal = TasksModal::new(None);
    modal.tasks_loaded(
        vec![candidate(TaskSourceKind::Lsp { language_name: "Rust".to_string() }, "lsp")],
        vec![candidate(TaskSourceKind::UserInput, "echo 1"), candidate(TaskSourceKind::Worktree, "used")],
        vec![
            candidate(TaskSourceKind::Worktree, "tree"),
            candidate(TaskSourceKind::Language { name: "Rust".to_string() }, "lang"),
            candidate(TaskSourceKind::AbsPath, "global"),
        ],
        false,
    );
    let c = modal.delegate.candidates.as_ref().unwrap();
    assert_eq!(labels(c), vec!["echo 1", "used", "lsp", "tree", "global"]);
    assert_eq!(modal.delegate.last_used_candidate_index, Some(1));

    let mut modal = TasksModal::new(None);
    modal.tasks_loaded(vec![], vec![], vec![candidate(TaskSourceKind::Language { name: "Go".to_string() }, "g")], true);
    assert_eq!(labels(modal.delegate.candidates.as_ref().unwrap()), vec!["g"]);
    assert_eq!(modal.delegate.last_used_candidate_index, None);

    let c = combine_candidates(vec![], vec![], vec![candidate(TaskSourceKind::Language { name: "Go".to_string() }, "g")], false);
    assert!(c.is_empty());
}

#[test]
fn recent_matches_first_with_divider() {
    let mut d = TasksModalDelegate::new(None);
    d.last_used_candidate_index = Some(1);
    d.selected_index = 9;
    d.set_matches(vec![hit(3), hit(0), hit(2), hit(1)], "ta".to_string());
    assert_eq!(match_ids(&d.matches), vec![0, 1, 3, 2]);
    assert_eq!(d.divider_index, Some(1));
    assert_eq!(d.separators_after_indices(), vec![1]);
    assert_eq!(d.selected_index, 3);
    assert_eq!(d.prompt, "ta");

    // No recent match: no divider.
    d.set_matches(vec![hit(5), hit(4)], String::new());
    assert_eq!(match_ids(&d.matches), vec![5, 4]);
    assert_eq!(d.divider_index, None);
    assert!(d.separators_after_indices().is_empty());

    // Nothing used recently: the matcher's order.
    let mut d = TasksModalDelegate::new(None);
    d.set_matches(vec![hit(2), hit(0)], String::new());
    assert_eq!(match_ids(&d.matches), vec![2, 0]);
    d.set_matches(vec![], String::new());
    assert_eq!(d.selected_index, 0);

    assert_eq!(match_ids(&partition_recent(vec![hit(4), hit(1), hit(2), hit(0)], 1)), vec![1, 0, 4, 2]);
}

#[test]
fn oneshot_from_prompt() {
    let mut d = TasksModalDelegate::new(None);
    d.prompt = "   ".to_string();
    assert!(d.spawn_oneshot().is_none());
    assert!(d.confirm_input(false).is_none());
    d.prompt = "echo 4".to_string();
    let t = d.spawn_oneshot().unwrap();
    assert_eq!(t.label, "echo 4");
    assert_eq!(t.command, "echo 4");
    assert_eq!(t.reveal_target, RevealTarget::Dock);
    let (t, omit) = d.confirm_input(true).unwrap();
    assert_eq!(t.label, "echo 4");
    assert!(omit);

    let mut d = TasksModalDelegate::new(Some(TaskOverrides { reveal_target: Some(RevealTarget::Center) }));
    d.prompt = "ls".to_string();
    assert_eq!(d.spawn_oneshot().unwrap().reveal_target, RevealTarget::Center);
}

fn loaded_delegate(overrides: Option<TaskOverrides>) -> TasksModalDelegate {
    let mut modal = TasksModal::new(overrides);
    let mut center_task = candidate(TaskSourceKind::Worktree, "serve");
    center_task.task.reveal_target = RevealTarget::Center;
    center_task.task.command_label = "npm run serve".to_string();
    modal.tasks_loaded(
        vec![],
        vec![candidate(TaskSourceKind::UserInput, "echo 40")],
        vec![center_task, candidate(TaskSourceKind::AbsPath, "global")],
        true,
    );
    modal.delegate.set_matches(vec![hit(0), hit(1), hit(2)], String::new());
    modal.delegate
}

#[test]
fn confirm_selected_task() {
    let mut d = loaded_delegate(None);
    assert_eq!(d.divider_index, Some(0));
    d.set_selected_index(1);
    assert_eq!(
        d.confirm(false),
        Some(TaskChoice { candidate_index: 1, reveal_target: RevealTarget::Center, omit_history_entry: false })
    );
    assert_eq!(d.confirm_completion(), Some("npm run serve".to_string()));

    let mut d = loaded_delegate(Some(TaskOverrides { reveal_target: Some(RevealTarget::Dock) }));
    d.set_selected_index(1);
    assert_eq!(
        d.confirm(true),
        Some(TaskChoice { candidate_index: 1, reveal_target: RevealTarget::Dock, omit_history_entry: true })
    );
    d.set_selected_index(7);
    assert_eq!(d.confirm(false), None);
    assert_eq!(d.confirm_completion(), None);
}

#[test]
fn forget_recent_tasks() {
    let mut d = loaded_delegate(None);
    assert_eq!(d.last_used_candidate_index, Some(0));
    assert_eq!(d.forget_recent_task(0), Some("id-echo 40".to_string()));
    assert_eq!(labels(d.candidates.as_ref().unwrap()), vec!["serve", "global"]);
    assert_eq!(d.last_used_candidate_index, None);
    assert_eq!(d.delete_previously_used(5), None);
    assert_eq!(d.delete_previously_used(1), Some("id-global".to_string()));
    assert_eq!(labels(d.candidates.as_ref().unwrap()), vec!["serve"]);
    let mut empty = TasksModalDelegate::new(None);
    assert_eq!(empty.delete_previously_used(0), None);
    assert_eq!(empty.forget_recent_task(0), None);
}

#[test]
fn rows_show_source_and_history() {
    let d = loaded_delegate(None);
    let row = d.render_match(0).unwrap();
    assert!(matches!(row.icon, TaskIcon::Terminal));
    assert!(row.history_icon);
    assert!(row.deletable);
    assert!(!row.lsp_indicator);
    // A typed command's tooltip is its label.
    assert_eq!(row.tooltip, Some("echo 40".to_string()));

    let row = d.render_match(1).unwrap();
    assert!(matches!(row.icon, TaskIcon::FileTree));
    assert!(!row.history_icon);
    assert!(!row.deletable);
    assert_eq!(row.tooltip, Some("npm run serve".to_string()));

    let row = d.render_match(2).unwrap();
    assert!(matches!(row.icon, TaskIcon::Settings));
    assert_eq!(row.tooltip, None);
    assert_eq!(row.tags_line, "");
    assert!(d.render_match(3).is_none());

    let mut d = loaded_delegate(None);
    d.matches[0].string = "echo 40".to_string();
    d.matches[0].positions = vec![0, 1];
    let row = d.render_match(0).unwrap();
    assert_eq!(row.label, "echo 40");
    assert_eq!(row.highlight_positions, vec![0, 1]);

    let mut modal = TasksModal::new(None);
    modal.tasks_loaded(vec![candidate(TaskSourceKind::Lsp { language_name: "Rust".to_string() }, "check")], vec![], vec![], true);
    modal.delegate.set_matches(vec![hit(0)], String::new());
    let row = modal.delegate.render_match(0).unwrap();
    assert!(row.lsp_indicator);
    assert!(matches!(row.icon, TaskIcon::LanguageFile { ref language_name } if language_name == "Rust"));
}

#[test]
fn tooltips_and_tags() {
    let t = task("build", "cargo build", &["rust", "ci"]);
    assert_eq!(tooltip_label(&TaskSourceKind::Worktree, &t), Some("cargo build\n\n#rust\n#ci".to_string()));
    let mut t2 = task("build $ZED_FILE", "make", &[]);
    t2.resolved_label = "build a.rs".to_string();
    t2.original_label = "build $ZED_FILE".to_string();
    t2.display_label = "build a.rs".to_string();
    assert_eq!(tooltip_label(&TaskSourceKind::Worktree, &t2), Some("build a.rs\nmake".to_string()));
    let t3 = task("same", "same", &[]);
    assert_eq!(tooltip_label(&TaskSourceKind::Worktree, &t3), None);
    assert_eq!(tooltip_label(&TaskSourceKind::UserInput, &t3), Some("same".to_string()));

    assert_eq!(tags_line(&vec![]), "");
    assert_eq!(tags_line(&vec!["a".to_string(), "b".to_string()]), "#a #b");
    let long = vec!["abcdefghij".to_string(), "klmnopqrst".to_string(), "uvwxyz".to_string()];
    let line = tags_line(&long);
    assert_eq!(line.chars().count(), MAX_TAGS_LINE_LEN + 1);
    assert_eq!(line, "#abcdefghij #klmnopqrst #uvwxy…");
}

#[test]
fn footer_buttons() {
    let mut d = loaded_delegate(None);
    assert_eq!(d.footer(false, false, None), None);
    d.set_selected_index(0);
    assert_eq!(
        d.footer(false, false, Some(true)),
        Some(Footer { rerun_last_task: true, action: FooterAction::Run { omit_history: false, rerun: true } })
    );
    d.set_selected_index(2);
    assert_eq!(
        d.footer(false, true, Some(false)),
        Some(Footer { rerun_last_task: false, action: FooterAction::Run { omit_history: true, rerun: false } })
    );
    d.set_matches(vec![hit(1)], "echo".to_string());
    assert_eq!(
        d.footer(true, false, Some(false)),
        Some(Footer { rerun_last_task: false, action: FooterAction::SpawnOneshot { omit_history: false } })
    );
    assert_eq!(FooterAction::SpawnOneshot { omit_history: true }.label(), "运行一次性命令（不记录）");
    assert_eq!(FooterAction::Run { omit_history: false, rerun: true }.label(), "重新运行");
    assert_eq!(FooterAction::Run { omit_history: false, rerun: false }.label(), "运行");
    assert_eq!(rerun_last_task_label(), "重新运行上一个任务");
}

#[test]
fn lsp_tasks_sorted() {
    let group = LspTaskGroup {
        kind: TaskSourceKind::Lsp { language_name: "Rust".to_string() },
        tasks: vec![
            LspTask { has_location: false, task: task("b", "b", &[]) },
            LspTask { has_location: true, task: task("z", "z", &[]) },
            LspTask { has_location: false, task: task("a", "a", &[]) },
            LspTask { has_location: true, task: task("c", "c", &[]) },
        ],
    };
    assert_eq!(labels(&sort_lsp_group(group)), vec!["c", "z", "a", "b"]);

    let groups = vec![
        LspTaskGroup {
            kind: TaskSourceKind::Lsp { language_name: "Rust".to_string() },
            tasks: vec![LspTask { has_location: false, task: task("r2", "r2", &[]) }, LspTask {
                has_location: false,
                task: task("r1", "r1", &[]),
            }],
        },
        LspTaskGroup { kind: TaskSourceKind::Lsp { language_name: "Go".to_string() }, tasks: vec![] },
    ];
    let (c, last) = candidates_from_inventory(
        vec![candidate(TaskSourceKind::UserInput, "u")],
        groups,
        vec![candidate(TaskSourceKind::Language { name: "Rust".to_string() }, "lang"), candidate(TaskSourceKind::Worktree, "w")],
        true,
    );
    assert_eq!(labels(&c), vec!["u", "r1", "r2", "w"]);
    assert_eq!(last, Some(0));

    let (c, last) = candidates_from_inventory(
        vec![],
        vec![],
        vec![candidate(TaskSourceKind::Language { name: "Rust".to_string() }, "lang")],
        true,
    );
    assert_eq!(labels(&c), vec!["lang"]);
    assert_eq!(last, None);

    let s = string_match_candidates(&c);
    assert_eq!(s, vec![(0, "lang".to_string())]);
}

#[test]
fn orders_and_text_helpers() {
    assert_eq!(stable_order(&vec![3, 1, 2, 1]), vec![1, 3, 2, 0]);
    assert_eq!(
        labelled_order(&vec![true, false, false], &vec!["a".to_string(), "y".to_string(), "x".to_string()]),
        vec![2, 1, 0]
    );
    assert!(text_less("ab", "b"));
    assert!(text_less("a", "ab"));
    assert!(!text_less("b", "b"));
    assert!(text_less("Z", "a"));
    assert_eq!(trim("  a b \n"), "a b");
    assert_eq!(trim("\u{3000}x\u{a0}"), "x");
    assert!(str_contains("被内置安全规则阻止", "内置安全规则"));
    assert!(!str_contains("abc", "abd"));
    assert!(str_contains("abc", ""));
    assert_eq!(truncate_and_trailoff("héllo wörld", 5), "héllo…");
    assert_eq!(truncate_and_trailoff("short", 5), "short");
}
