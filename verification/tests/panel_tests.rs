use workspace_panels::panel::{
    cloned_pane_working_directory, ensure_terminals_supported, load_plan, next_pane_index,
    position_from_settings, prev_pane_index, settings_from_position, DockPosition, LoadPlan,
    PaneModel, TerminalDockPosition, TerminalItem, TerminalPanel, TerminalPanelError,
};

fn item(id: u64) -> TerminalItem {
    TerminalItem {
        item_id: id,
        task_label: None,
    }
}

fn panel_with_items(counts: &[usize]) -> TerminalPanel {
    let mut panel = TerminalPanel::new(1);
    panel.panes.clear();
    for (p, n) in counts.iter().enumerate() {
        let mut pane = PaneModel::new(p as u64 + 1);
        for k in 0..*n {
            pane.add_item(item((p * 100 + k) as u64));
        }
        panel.panes.push(pane);
    }
    panel
}

#[test]
fn new_panel_is_fresh() {
    let panel = TerminalPanel::new(7);
    assert_eq!(panel.panes.len(), 1);
    assert_eq!(panel.panes[0].pane_id, 7);
    assert!(panel.panes[0].items.is_empty());
    assert_eq!(panel.active_pane, 0);
    assert_eq!(panel.width, None);
    assert_eq!(panel.height, None);
    assert_eq!(panel.pending_terminals_to_add, 0);
    assert!(!panel.assistant_enabled());
}

#[test]
fn assistant_toggle_controls_button() {
    let mut panel = TerminalPanel::new(1);
    panel.asssistant_enabled(true);
    assert!(panel.assistant_enabled());
    assert!(panel.assistant_tab_bar_button);
    panel.asssistant_enabled(false);
    assert!(!panel.assistant_enabled());
    assert!(!panel.assistant_tab_bar_button);
}

#[test]
fn has_no_terminals_reads_active_pane_and_pending() {
    let mut panel = TerminalPanel::new(1);
    assert!(panel.has_no_terminals());
    panel.pending_terminals_to_add = 1;
    assert!(!panel.has_no_terminals());
    panel.pending_terminals_to_add = 0;
    panel.panes[0].add_item(item(4));
    assert!(!panel.has_no_terminals());
}

#[test]
fn icon_label_counts_all_panes() {
    let panel = panel_with_items(&[2, 0, 3]);
    assert_eq!(panel.icon_label(), Some("5".to_string()));
    let empty = panel_with_items(&[0, 0]);
    assert_eq!(empty.icon_label(), None);
}

#[test]
fn icon_visible_rules() {
    let panel = TerminalPanel::new(1);
    assert!(panel.icon_visible(true, true));
    assert!(!panel.icon_visible(true, false));
    assert!(!panel.icon_visible(false, true));
    let busy = panel_with_items(&[1]);
    assert!(busy.icon_visible(false, true));
}

#[test]
fn size_prefers_saved_dimension() {
    let mut panel = TerminalPanel::new(1);
    assert_eq!(panel.size(DockPosition::Left, 240, 320), 240);
    assert_eq!(panel.size(DockPosition::Bottom, 240, 320), 320);
    panel.set_size(Some(500), DockPosition::Right);
    assert_eq!(panel.width, Some(500));
    assert_eq!(panel.size(DockPosition::Right, 240, 320), 500);
    assert_eq!(panel.size(DockPosition::Bottom, 240, 320), 320);
    panel.set_size(Some(111), DockPosition::Bottom);
    assert_eq!(panel.height, Some(111));
    assert_eq!(panel.size(DockPosition::Bottom, 240, 320), 111);
}

#[test]
fn zoom_covers_every_pane() {
    let mut panel = panel_with_items(&[1, 1]);
    panel.set_zoomed(true);
    assert!(panel.panes.iter().all(|p| p.zoomed));
    assert!(panel.is_zoomed());
    panel.set_zoomed(false);
    assert!(panel.panes.iter().all(|p| !p.zoomed));
    assert!(!panel.is_zoomed());
}

#[test]
fn default_terminal_spawns_only_when_active_and_empty() {
    let panel = TerminalPanel::new(1);
    assert!(panel.should_spawn_default_terminal(true));
    assert!(!panel.should_spawn_default_terminal(false));
    let busy = panel_with_items(&[1]);
    assert!(!busy.should_spawn_default_terminal(true));
}

#[test]
fn begin_add_terminal_gates_and_counts() {
    let mut panel = TerminalPanel::new(1);
    assert_eq!(
        panel.begin_add_terminal(false),
        Err(TerminalPanelError::NotSupported)
    );
    assert_eq!(panel.pending_terminals_to_add, 0);
    assert_eq!(panel.begin_add_terminal(true), Ok(()));
    assert_eq!(panel.pending_terminals_to_add, 1);
    panel.finish_add_terminal();
    assert_eq!(panel.pending_terminals_to_add, 0);
    panel.finish_add_terminal();
    assert_eq!(panel.pending_terminals_to_add, 0);
}

#[test]
fn not_supported_message() {
    assert_eq!(
        TerminalPanelError::NotSupported.message(),
        "terminal not yet supported for remote projects"
    );
}

#[test]
fn alive_item_ids_in_pane_order() {
    let panel = panel_with_items(&[2, 1]);
    assert_eq!(panel.alive_item_ids(), vec![0, 1, 100]);
}

#[test]
fn serialized_snapshot() {
    let mut panel = panel_with_items(&[2, 1]);
    panel.width = Some(300);
    let s = panel.serialized();
    assert_eq!(s.items, vec![vec![0, 1], vec![100]]);
    assert_eq!(s.active_item_id, None);
    assert_eq!(s.width, Some(300));
    assert_eq!(s.height, None);
}

#[test]
fn dock_position_mappings() {
    assert_eq!(
        position_from_settings(TerminalDockPosition::Left),
        DockPosition::Left
    );
    assert_eq!(
        position_from_settings(TerminalDockPosition::Bottom),
        DockPosition::Bottom
    );
    assert_eq!(
        position_from_settings(TerminalDockPosition::Right),
        DockPosition::Right
    );
    assert_eq!(
        settings_from_position(DockPosition::Left),
        TerminalDockPosition::Left
    );
    assert_eq!(
        settings_from_position(DockPosition::Bottom),
        TerminalDockPosition::Bottom
    );
    assert_eq!(
        settings_from_position(DockPosition::Right),
        TerminalDockPosition::Right
    );
}

#[test]
fn pane_navigation_wraps() {
    assert_eq!(next_pane_index(0, 3), 1);
    assert_eq!(next_pane_index(2, 3), 0);
    assert_eq!(prev_pane_index(0, 3), 2);
    assert_eq!(prev_pane_index(2, 3), 1);
    assert_eq!(next_pane_index(0, 1), 0);
    assert_eq!(prev_pane_index(0, 1), 0);
}

#[test]
fn cloned_pane_directory_prefers_active() {
    assert_eq!(
        cloned_pane_working_directory(Some("/a".to_string()), Some("/b".to_string())),
        Some("/a".to_string())
    );
    assert_eq!(
        cloned_pane_working_directory(None, Some("/b".to_string())),
        Some("/b".to_string())
    );
    assert_eq!(cloned_pane_working_directory(None, None), None);
}

#[test]
fn load_plan_needs_both() {
    assert_eq!(load_plan(true, true), LoadPlan::Restore);
    assert_eq!(load_plan(true, false), LoadPlan::Fresh);
    assert_eq!(load_plan(false, true), LoadPlan::Fresh);
    assert_eq!(load_plan(false, false), LoadPlan::Fresh);
}

#[test]
fn supported_gate() {
    assert_eq!(ensure_terminals_supported(true), Ok(()));
    assert_eq!(
        ensure_terminals_supported(false),
        Err(TerminalPanelError::NotSupported)
    );
}

#[test]
fn activate_item_moves_highlight() {
    let mut pane = PaneModel::new(1);
    pane.add_item(item(10));
    pane.add_item(item(11));
    assert_eq!(pane.active_item, 1);
    pane.activate_item(0);
    assert_eq!(pane.active_item, 0);
}
