use std::collections::HashMap;
use zed_ui_logic::tab_switcher::{order_by_recency, recency_lookup};
use zed_ui_logic::tab_switcher::{
    dedup_matches_by_path, keep_diagnostic_decoration, most_severe_diagnostic_level, open_in_active_pane,
    order_pane_items, position_of_item, target_pane, CloseRequest, IconDecorationKind, MatchesUpdate, Modifiers,
    ModifiersOutcome, OpenInActivePane, PaneItem, ShowDiagnostics, SwitcherAction, SwitcherStep, TabActivation,
    TabMatch, TabSwitcher, TabSwitcherDelegate, Toggle, respond_to_workspace_change, WorkspaceChange,
    ChangeResponse,
};

fn item(item_id: u64, project_path: Option<u64>) -> PaneItem {
    PaneItem { item_id, project_path, detail: 0, preview: false }
}

fn ids(matches: &[TabMatch]) -> Vec<u64> {
    matches.iter().map(|m| m.item_id).collect()
}

fn delegate(select_last: bool, is_all_panes: bool, open_in_active_pane: bool) -> TabSwitcherDelegate {
    TabSwitcherDelegate::new(select_last, 1, is_all_panes, open_in_active_pane, vec![(1, 0), (2, 3)])
}

#[test]
fn pane_tabs_ordered_by_history() {
    let items = vec![item(10, Some(100)), item(20, Some(200)), item(30, None)];
    let ordered = order_pane_items(1, &vec![10, 30], &items);
    assert_eq!(ids(&ordered), vec![30, 10, 20]);
    assert_eq!(ordered.iter().map(|m| m.item_index).collect::<Vec<_>>(), vec![2, 0, 1]);
    assert!(ordered.iter().all(|m| m.pane == 1));

    // An id listed twice ranks by its oldest entry; unvisited tabs come
    // after all visited ones, in pane order.
    let ordered = order_pane_items(1, &vec![10, 20, 10], &items);
    assert_eq!(ids(&ordered), vec![20, 10, 30]);

    // No history: pane order.
    let ordered = order_pane_items(1, &vec![], &items);
    assert_eq!(ids(&ordered), vec![10, 20, 30]);
}

#[test]
fn update_matches_selects_second_and_previews_it() {
    let mut d = delegate(false, false, false);
    let items = vec![item(10, None), item(20, None), item(30, None)];
    let r = d.update_matches(Some(items.clone()), &vec![10, 30]);
    assert_eq!(ids(&d.matches), vec![30, 10, 20]);
    assert_eq!(d.selected_index, 1);
    assert_eq!(r, MatchesUpdate::Updated(Some(TabActivation { pane: 1, item_id: 10 })));

    // The selected tab stays selected when the list changes.
    let r = d.update_matches(Some(items), &vec![30, 10]);
    assert_eq!(ids(&d.matches), vec![10, 30, 20]);
    assert_eq!(d.selected_index, 0);
    assert_eq!(r, MatchesUpdate::Updated(None));

    // The selected tab was closed: the index is kept, clamped to the list.
    d.selected_index = 1;
    let r = d.update_matches(Some(vec![item(10, None)]), &vec![]);
    assert_eq!(d.selected_index, 0);
    assert_eq!(r, MatchesUpdate::Updated(None));

    // The pane is gone: the list empties.
    let r = d.update_matches(None, &vec![]);
    assert!(d.matches.is_empty());
    assert_eq!(r, MatchesUpdate::Updated(None));
}

#[test]
fn update_matches_select_last_and_single() {
    let mut d = delegate(true, false, false);
    d.update_matches(Some(vec![item(1, None), item(2, None), item(3, None)]), &vec![]);
    assert_eq!(d.selected_index, 2);

    let mut d = delegate(false, false, false);
    let r = d.update_matches(Some(vec![item(7, None)]), &vec![]);
    assert_eq!(d.selected_index, 0);
    assert_eq!(r, MatchesUpdate::Updated(None));

    // Opening in the active pane never previews.
    let mut d = delegate(false, false, true);
    let r = d.update_matches(Some(vec![item(1, None), item(2, None)]), &vec![]);
    assert_eq!(d.selected_index, 1);
    assert_eq!(r, MatchesUpdate::Updated(None));

    let mut d = delegate(false, true, false);
    assert_eq!(d.update_matches(Some(vec![item(1, None)]), &vec![]), MatchesUpdate::DeferredToAllPanes);
    assert!(d.matches.is_empty());
}

#[test]
fn all_panes_by_recency_and_query() {
    let panes = vec![(1, vec![item(10, Some(5)), item(20, Some(6))]), (2, vec![item(40, Some(5))])];
    let mut d = delegate(false, true, false);
    let r = d.update_all_pane_matches(Some(panes.clone()), "", &HashMap::from([(40, 5), (10, 3)]), &vec![]);
    assert_eq!(ids(&d.matches), vec![40, 10, 20]);
    assert_eq!(d.matches.iter().map(|m| (m.pane, m.item_index)).collect::<Vec<_>>(), vec![(2, 2), (1, 0), (1, 1)]);
    assert_eq!(d.selected_index, 1);
    assert_eq!(r, Some(TabActivation { pane: 1, item_id: 10 }));

    // With a query, the fuzzy matcher's picks in its order.
    let mut d = delegate(false, true, false);
    d.update_all_pane_matches(Some(panes.clone()), "x", &HashMap::new(), &vec![2, 0]);
    assert_eq!(ids(&d.matches), vec![40, 10]);

    // Opening in the active pane keeps one tab per path.
    let mut d = delegate(false, true, true);
    let r = d.update_all_pane_matches(Some(panes.clone()), "", &HashMap::from([(40, 5), (10, 3)]), &vec![]);
    assert_eq!(ids(&d.matches), vec![40, 20]);
    assert_eq!(r, None);

    // The workspace is gone: nothing changes.
    let before = d.matches.clone();
    assert_eq!(d.update_all_pane_matches(None, "", &HashMap::new(), &vec![]), None);
    assert_eq!(d.matches, before);
}

#[test]
fn dedup_keeps_first_of_each_path() {
    let m = |item_id: u64, project_path: Option<u64>| TabMatch {
        pane: 1,
        item_index: 0,
        item_id,
        project_path,
        detail: 0,
        preview: false,
    };
    let s = vec![m(1, Some(7)), m(2, None), m(3, Some(7)), m(4, None), m(5, Some(8))];
    assert_eq!(ids(&dedup_matches_by_path(&s)), vec![1, 2, 4, 5]);
    assert_eq!(position_of_item(&s, 3), Some(2));
    assert_eq!(position_of_item(&s, 9), None);
}

#[test]
fn sync_close_confirm_dismiss() {
    let mut d = delegate(false, false, false);
    d.update_matches(Some(vec![item(10, Some(1)), item(20, None), item(30, Some(3))]), &vec![]);
    d.sync_selected_index(Some(30));
    assert_eq!(d.selected_index, 2);
    d.sync_selected_index(Some(99));
    assert_eq!(d.selected_index, 2);
    assert_eq!(d.selected_item_id(), Some(30));
    assert!(d.shows_close_button(2));
    assert!(!d.shows_close_button(1));

    assert_eq!(d.close_item_at(0), Some(CloseRequest::PaneItem { pane: 1, item_id: 10 }));
    assert_eq!(d.close_item_at(5), None);

    let c = d.confirm().unwrap();
    assert_eq!(c.chosen.item_id, 30);
    assert_eq!(c.restore, vec![(1, 0), (2, 3)]);
    assert!(!c.in_active_pane);
    // After a confirmation, dismissing restores nothing.
    assert_eq!(d.dismissed(), None);

    let d = delegate(false, false, false);
    assert_eq!(d.dismissed(), Some(vec![(1, 0), (2, 3)]));

    let mut d = delegate(false, false, true);
    d.update_matches(Some(vec![item(10, Some(1)), item(20, None)]), &vec![]);
    assert_eq!(d.close_item_at(0), Some(CloseRequest::ItemsWithPath { project_path: 1 }));
    assert_eq!(d.close_item_at(1), Some(CloseRequest::PaneItem { pane: 1, item_id: 20 }));
    let mut empty = delegate(false, false, false);
    assert!(empty.confirm().is_none());
}

#[test]
fn delegate_texts() {
    let d = delegate(false, false, false);
    assert_eq!(d.placeholder_text(), "搜索所有标签页…");
    assert_eq!(d.no_matches_text(), Some("无匹配标签页"));
    assert_eq!(d.match_count(), 0);
    assert!(d.separators_after_indices().is_empty());
}

#[test]
fn set_selected_index_previews() {
    let mut d = delegate(false, false, false);
    d.update_matches(Some(vec![item(10, None), item(20, None)]), &vec![]);
    assert_eq!(d.set_selected_index(0), Some(TabActivation { pane: 1, item_id: 10 }));
    assert_eq!(d.selected_index(), 0);
    assert_eq!(d.set_selected_index(4), None);
    let mut d = delegate(false, false, true);
    d.update_matches(Some(vec![item(10, None), item(20, None)]), &vec![]);
    assert_eq!(d.set_selected_index(0), None);
}

#[test]
fn modifiers_release_confirms() {
    let ctrl = Modifiers { control: true, ..Default::default() };
    let none = Modifiers::default();
    let ctrl_shift = Modifiers { control: true, shift: true, ..Default::default() };

    let mut s = TabSwitcher::new(delegate(false, false, false), false, ctrl);
    assert_eq!(s.init_modifiers, Some(ctrl));
    s.delegate.update_matches(Some(vec![item(1, None)]), &vec![]);
    assert_eq!(s.handle_modifiers_changed(ctrl_shift), ModifiersOutcome::Nothing);
    assert_eq!(s.handle_modifiers_changed(none), ModifiersOutcome::Confirm);
    assert_eq!(s.init_modifiers, None);
    assert_eq!(s.handle_modifiers_changed(none), ModifiersOutcome::Nothing);

    let mut s = TabSwitcher::new(delegate(false, false, false), false, ctrl);
    assert_eq!(s.handle_modifiers_changed(Modifiers { alt: true, ..Default::default() }), ModifiersOutcome::Dismiss);

    // Global switchers and switchers opened without modifiers ignore them.
    assert_eq!(TabSwitcher::new(delegate(false, true, false), true, ctrl).init_modifiers, None);
    assert_eq!(TabSwitcher::new(delegate(false, false, false), false, none).init_modifiers, None);
    let s = TabSwitcher::new(delegate(false, false, false), false, none);
    assert_eq!(s.handle_close_selected_item(), None);
}

#[test]
fn register_and_open() {
    assert_eq!(
        TabSwitcher::register(SwitcherAction::Toggle(Toggle { select_last: true }), false),
        SwitcherStep::Open { select_last: true, is_global: false, open_in_active_pane: false }
    );
    assert_eq!(
        TabSwitcher::register(SwitcherAction::ToggleAll, false),
        SwitcherStep::Open { select_last: false, is_global: true, open_in_active_pane: false }
    );
    assert_eq!(
        TabSwitcher::register(SwitcherAction::OpenInActivePane, false),
        SwitcherStep::Open { select_last: false, is_global: true, open_in_active_pane: true }
    );
    assert_eq!(TabSwitcher::register(SwitcherAction::ToggleAll, true), SwitcherStep::CycleSelection);

    assert_eq!(TabSwitcher::open(5, &vec![None, None, None]), 5);
    assert_eq!(TabSwitcher::open(5, &vec![Some(7), None, None]), 7);
    assert_eq!(TabSwitcher::open(5, &vec![Some(7), Some(8), None]), 8);
}

#[test]
fn active_pane_targets() {
    assert_eq!(target_pane(Some(3), &vec![1, 3], Some(1)), Some(3));
    assert_eq!(target_pane(Some(4), &vec![1, 3], Some(1)), Some(1));
    assert_eq!(target_pane(None, &vec![1, 3], None), None);
    assert_eq!(open_in_active_pane(3, Some(2), true, true, Some(1)), OpenInActivePane::Activate { pane: 3, index: 2 });
    assert_eq!(open_in_active_pane(3, None, true, true, Some(1)), OpenInActivePane::CloneInto { pane: 3 });
    assert_eq!(open_in_active_pane(3, None, true, false, Some(1)), OpenInActivePane::MoveInto { from: 1, to: 3 });
    assert_eq!(open_in_active_pane(3, None, false, true, None), OpenInActivePane::Nothing);
}

#[test]
fn diagnostics_on_icons() {
    assert_eq!(most_severe_diagnostic_level(ShowDiagnostics::Off, &vec![1, 2]), None);
    assert_eq!(most_severe_diagnostic_level(ShowDiagnostics::All, &vec![]), None);
    assert_eq!(most_severe_diagnostic_level(ShowDiagnostics::All, &vec![2, 1, 3]), Some(1));
    assert_eq!(most_severe_diagnostic_level(ShowDiagnostics::Errors, &vec![4, 2]), Some(2));
    assert!(!keep_diagnostic_decoration(IconDecorationKind::Triangle, ShowDiagnostics::Errors));
    assert!(keep_diagnostic_decoration(IconDecorationKind::Triangle, ShowDiagnostics::All));
    assert!(keep_diagnostic_decoration(IconDecorationKind::X, ShowDiagnostics::Errors));
    assert!(keep_diagnostic_decoration(IconDecorationKind::Dot, ShowDiagnostics::Errors));
}

#[test]
fn workspace_changes() {
    assert_eq!(
        respond_to_workspace_change(WorkspaceChange::ItemAdded),
        ChangeResponse { refresh_matches: true, sync_selection: false }
    );
    assert_eq!(
        respond_to_workspace_change(WorkspaceChange::PaneRemoved),
        ChangeResponse { refresh_matches: true, sync_selection: false }
    );
    assert_eq!(
        respond_to_workspace_change(WorkspaceChange::ItemRemoved),
        ChangeResponse { refresh_matches: true, sync_selection: true }
    );
    assert_eq!(
        respond_to_workspace_change(WorkspaceChange::Other),
        ChangeResponse { refresh_matches: false, sync_selection: false }
    );
}

#[test]
fn recency_and_history_lookups() {
    let recent = HashMap::from([(7u64, 2usize), (9, 5)]);
    assert_eq!(recency_lookup(&recent, 7), Some(2));
    assert_eq!(recency_lookup(&recent, 8), None);
    let m = |item_id: u64, item_index: usize| TabMatch { pane: 1, item_index, item_id, project_path: None, detail: 0, preview: false };
    let all = vec![m(7, 0), m(8, 1), m(9, 2)];
    assert_eq!(ids(&order_by_recency(&recent, &all)), vec![9, 7, 8]);
}
