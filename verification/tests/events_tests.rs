use workspace_panels::events::{
    terminal_drop_plan, ActivatePanePlan, DropPlan, DroppedItem, PaneEvent, PanelEffect,
};
use workspace_panels::panel::{PaneModel, SplitDirection, TerminalItem, TerminalPanel};

fn three_pane_panel() -> TerminalPanel {
    let mut panel = TerminalPanel::new(1);
    panel.panes.push(PaneModel::new(2));
    panel.panes.push(PaneModel::new(3));
    panel
}

#[test]
fn activate_and_removed_items_serialize() {
    let mut panel = three_pane_panel();
    let effects = panel.handle_pane_event(0, &PaneEvent::ActivateItem);
    assert_eq!(effects, vec![PanelEffect::Serialize]);
    let effects = panel.handle_pane_event(1, &PaneEvent::RemovedItem);
    assert_eq!(effects, vec![PanelEffect::Serialize]);
    assert_eq!(panel.panes.len(), 3);
}

#[test]
fn removing_last_pane_closes_panel() {
    let mut panel = TerminalPanel::new(9);
    panel.panes[0].zoomed = true;
    let effects = panel.handle_pane_event(0, &PaneEvent::Remove { focus_on_pane: None });
    assert_eq!(effects, vec![PanelEffect::ClosePanel]);
    assert_eq!(panel.panes.len(), 1);
    assert!(!panel.panes[0].zoomed);
}

#[test]
fn removing_one_of_many_focuses_survivor() {
    let mut panel = three_pane_panel();
    panel.active_pane = 2;
    let effects = panel.handle_pane_event(1, &PaneEvent::Remove { focus_on_pane: None });
    assert_eq!(effects, vec![PanelEffect::FocusPane(3)]);
    assert_eq!(
        panel.panes.iter().map(|p| p.pane_id).collect::<Vec<_>>(),
        vec![1, 3]
    );
    assert_eq!(panel.active_pane, 1);

    let mut panel = three_pane_panel();
    let effects = panel.handle_pane_event(
        2,
        &PaneEvent::Remove {
            focus_on_pane: Some(1),
        },
    );
    assert_eq!(effects, vec![PanelEffect::FocusPane(1)]);
    assert_eq!(panel.panes.len(), 2);
}

#[test]
fn zoom_events_touch_every_pane() {
    let mut panel = three_pane_panel();
    let effects = panel.handle_pane_event(0, &PaneEvent::ZoomIn);
    assert_eq!(effects, vec![PanelEffect::EmitZoomIn]);
    assert!(panel.panes.iter().all(|p| p.zoomed));
    let effects = panel.handle_pane_event(0, &PaneEvent::ZoomOut);
    assert_eq!(effects, vec![PanelEffect::EmitZoomOut]);
    assert!(panel.panes.iter().all(|p| !p.zoomed));
}

#[test]
fn add_item_registers_and_serializes() {
    let mut panel = three_pane_panel();
    let effects = panel.handle_pane_event(0, &PaneEvent::AddItem { item_id: 42 });
    assert_eq!(
        effects,
        vec![
            PanelEffect::ItemAddedToWorkspace(42),
            PanelEffect::Serialize
        ]
    );
}

#[test]
fn split_event_asks_for_cloned_pane() {
    let mut panel = three_pane_panel();
    let effects = panel.handle_pane_event(1, &PaneEvent::Split(SplitDirection::Down));
    assert_eq!(
        effects,
        vec![PanelEffect::SpawnSplit {
            origin_pane: 2,
            direction: SplitDirection::Down
        }]
    );
}

#[test]
fn focus_event_moves_active_pane() {
    let mut panel = three_pane_panel();
    let effects = panel.handle_pane_event(2, &PaneEvent::Focus);
    assert!(effects.is_empty());
    assert_eq!(panel.active_pane, 2);
}

#[test]
fn split_pane_inserts_by_direction() {
    let mut panel = three_pane_panel();
    panel.active_pane = 2;
    panel.split_pane(0, PaneModel::new(10), SplitDirection::Right);
    assert_eq!(
        panel.panes.iter().map(|p| p.pane_id).collect::<Vec<_>>(),
        vec![1, 10, 2, 3]
    );
    assert_eq!(panel.active_pane, 3);
    panel.split_pane(2, PaneModel::new(11), SplitDirection::Up);
    assert_eq!(
        panel.panes.iter().map(|p| p.pane_id).collect::<Vec<_>>(),
        vec![1, 10, 11, 2, 3]
    );
}

#[test]
fn swap_panes_exchanges_positions() {
    let mut panel = three_pane_panel();
    panel.active_pane = 0;
    panel.swap_panes(0, 2);
    assert_eq!(
        panel.panes.iter().map(|p| p.pane_id).collect::<Vec<_>>(),
        vec![3, 2, 1]
    );
    assert_eq!(panel.active_pane, 2);
}

#[test]
fn activate_pane_plan_focuses_or_splits() {
    let panel = three_pane_panel();
    assert_eq!(panel.activate_pane_plan(1), ActivatePanePlan::Focus(2));
    assert_eq!(panel.activate_pane_plan(5), ActivatePanePlan::SplitActive);
}

#[test]
fn drag_away_rules() {
    // A drag from outside the panel may always leave.
    assert!(TerminalPanel::can_drag_terminal_away(false, 1, true, 1));
    // Several panes: the tab may leave any of them.
    assert!(TerminalPanel::can_drag_terminal_away(true, 2, true, 1));
    // A single pane keeps its last tab when dragged within itself.
    assert!(!TerminalPanel::can_drag_terminal_away(true, 1, true, 1));
    assert!(TerminalPanel::can_drag_terminal_away(true, 1, true, 2));
    assert!(TerminalPanel::can_drag_terminal_away(true, 1, false, 1));
}

#[test]
fn drop_plans() {
    assert!(matches!(
        terminal_drop_plan(
            DroppedItem::TerminalTab,
            Some(SplitDirection::Left),
            true
        ),
        DropPlan::SplitAndMoveTab(SplitDirection::Left)
    ));
    assert!(matches!(
        terminal_drop_plan(DroppedItem::TerminalTab, None, true),
        DropPlan::DefaultTabDrop
    ));
    match terminal_drop_plan(
        DroppedItem::OtherTab {
            absolute_path: Some("/src/main.rs".to_string()),
        },
        None,
        true,
    ) {
        DropPlan::PastePaths(paths) => assert_eq!(paths, vec!["/src/main.rs".to_string()]),
        other => panic!("unexpected plan: {other:?}"),
    }
    assert!(matches!(
        terminal_drop_plan(
            DroppedItem::ProjectEntry {
                absolute_path: None
            },
            None,
            true
        ),
        DropPlan::Ignore
    ));
    match terminal_drop_plan(
        DroppedItem::ExternalPaths(vec!["/a".to_string(), "/b".to_string()]),
        None,
        true,
    ) {
        DropPlan::PastePaths(paths) => {
            assert_eq!(paths, vec!["/a".to_string(), "/b".to_string()])
        }
        other => panic!("unexpected plan: {other:?}"),
    }
    assert!(matches!(
        terminal_drop_plan(DroppedItem::ExternalPaths(vec!["/a".to_string()]), None, false),
        DropPlan::Ignore
    ));
}

#[test]
fn remove_keeps_items() {
    let mut panel = three_pane_panel();
    panel.panes[0].add_item(TerminalItem {
        item_id: 5,
        task_label: None,
    });
    panel.handle_pane_event(1, &PaneEvent::Remove { focus_on_pane: None });
    assert_eq!(panel.panes[0].items.len(), 1);
}
