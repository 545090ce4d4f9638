use workspace_panels::panel::{PaneModel, TerminalItem, TerminalPanel};
use workspace_panels::shell::{
    RevealStrategy, RevealTarget, Shell, SpawnInTerminal, TaskId,
};
use workspace_panels::tasks::{
    reveal_effect, spawn_task_strategy, NewTerminalPlacement, RevealEffect, SpawnStrategy,
    TerminalKind,
};

fn task_item(id: u64, label: &str) -> TerminalItem {
    TerminalItem {
        item_id: id,
        task_label: Some(label.to_string()),
    }
}

fn plain_item(id: u64) -> TerminalItem {
    TerminalItem {
        item_id: id,
        task_label: None,
    }
}

fn pane(id: u64, items: Vec<TerminalItem>) -> PaneModel {
    PaneModel {
        pane_id: id,
        items,
        active_item: 0,
        zoomed: false,
    }
}

#[test]
fn terminals_for_task_filters_and_sorts() {
    let mut panel = TerminalPanel::new(1);
    panel.panes.clear();
    panel.panes.push(pane(
        1,
        vec![task_item(9, "build"), plain_item(2), task_item(3, "test")],
    ));
    panel.panes.push(pane(2, vec![task_item(5, "build")]));
    let workspace_panes = vec![pane(7, vec![task_item(1, "build")])];

    let found = panel.terminals_for_task("build", &workspace_panes);
    // Sorted by item id; entries are (item index, pane id, item id).
    assert_eq!(found, vec![(0, 7, 1), (0, 2, 5), (0, 1, 9)]);

    let none = panel.terminals_for_task("deploy", &workspace_panes);
    assert!(none.is_empty());
}

#[test]
fn strategy_prefers_new_terminal() {
    let running = vec![(0usize, 1u64, 5u64)];
    assert_eq!(
        spawn_task_strategy(true, true, &running),
        SpawnStrategy::NewTerminal
    );
    assert_eq!(
        spawn_task_strategy(false, false, &Vec::new()),
        SpawnStrategy::NewTerminal
    );
}

#[test]
fn strategy_reuses_newest_terminal() {
    let running = vec![(0usize, 1u64, 5u64), (2usize, 3u64, 8u64)];
    assert_eq!(
        spawn_task_strategy(true, false, &running),
        SpawnStrategy::ReplaceNow {
            pane_id: 3,
            item_index: 2,
            item_id: 8
        }
    );
    assert_eq!(
        spawn_task_strategy(false, false, &running),
        SpawnStrategy::Deferred {
            spawn_new: false,
            pane_id: 3,
            item_index: 2,
            item_id: 8
        }
    );
    assert_eq!(
        spawn_task_strategy(false, true, &running),
        SpawnStrategy::Deferred {
            spawn_new: true,
            pane_id: 3,
            item_index: 2,
            item_id: 8
        }
    );
}

#[test]
fn reveal_effects_cover_every_strategy() {
    assert_eq!(
        reveal_effect(RevealStrategy::Always, RevealTarget::Center, 1, 0),
        RevealEffect::FocusCenterActiveItem
    );
    assert_eq!(
        reveal_effect(RevealStrategy::Always, RevealTarget::Dock, 1, 4),
        RevealEffect::FocusDockItem {
            pane_id: 1,
            item_index: 4
        }
    );
    assert_eq!(
        reveal_effect(RevealStrategy::NoFocus, RevealTarget::Center, 1, 0),
        RevealEffect::FocusCenterActivePane
    );
    assert_eq!(
        reveal_effect(RevealStrategy::NoFocus, RevealTarget::Dock, 2, 3),
        RevealEffect::ShowDockItem {
            pane_id: 2,
            item_index: 3
        }
    );
    assert_eq!(
        reveal_effect(RevealStrategy::Never, RevealTarget::Center, 1, 0),
        RevealEffect::Silent
    );
    assert_eq!(
        reveal_effect(RevealStrategy::Never, RevealTarget::Dock, 1, 0),
        RevealEffect::Silent
    );
}

#[test]
fn new_terminal_placement_follows_target() {
    let spawn = SpawnInTerminal {
        id: TaskId("t".to_string()),
        full_label: "build".to_string(),
        command: "make".to_string(),
        args: Vec::new(),
        command_label: "make".to_string(),
        use_new_terminal: true,
        allow_concurrent_runs: false,
        reveal: RevealStrategy::NoFocus,
        reveal_target: RevealTarget::Center,
        shell: Shell::System,
    };
    let (kind, placement) = TerminalPanel::spawn_in_new_terminal(spawn.clone());
    assert!(matches!(kind, TerminalKind::Task(t) if t.full_label == "build"));
    assert_eq!(placement, NewTerminalPlacement::Center);

    let mut docked = spawn;
    docked.reveal_target = RevealTarget::Dock;
    let (_, placement) = TerminalPanel::spawn_in_new_terminal(docked);
    assert_eq!(
        placement,
        NewTerminalPlacement::Dock(RevealStrategy::NoFocus)
    );
}

#[test]
fn open_terminal_builds_shell_kind() {
    let (kind, reveal) = TerminalPanel::open_terminal("/work".to_string());
    assert!(matches!(kind, TerminalKind::Shell(Some(d)) if d == "/work"));
    assert_eq!(reveal, RevealStrategy::Always);
}
