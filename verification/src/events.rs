//! How the terminal panel reacts to its panes' events and to the pane-area
//! actions: serializing, closing, zooming, splitting, removing and focusing
//! panes. Each reaction is a change of the panel's state plus a list of
//! effects for the host framework to carry out.

use vstd::prelude::*;

use crate::panel::{PaneModel, SplitDirection, TerminalPanel};

verus! {

/// An event one of the panel's panes emits.
#[derive(Clone, Copy, Debug)]
pub enum PaneEvent {
    /// The pane's active item changed.
    ActivateItem,
    /// An item was removed from the pane.
    RemovedItem,
    /// The pane asks to be removed; focus should then move to the named
    /// pane, where one is named.
    Remove { focus_on_pane: Option<u64> },
    /// The pane asks to be zoomed.
    ZoomIn,
    /// The pane asks to leave zoom.
    ZoomOut,
    /// An item was added to the pane.
    AddItem { item_id: u64 },
    /// The pane asks to be split in the given direction.
    Split(SplitDirection),
    /// The pane took focus.
    Focus,
}

/// An effect the host framework carries out for the panel.
#[derive(Clone, Copy, Debug, PartialEq, Eq, Structural)]
pub enum PanelEffect {
    /// Save the panel's state, debounced.
    Serialize,
    /// Close the panel.
    ClosePanel,
    /// Move focus to the pane with this identifier.
    FocusPane(u64),
    /// Tell the dock the panel zoomed.
    EmitZoomIn,
    /// Tell the dock the panel left zoom.
    EmitZoomOut,
    /// Let the workspace register the freshly added item.
    ItemAddedToWorkspace(u64),
    /// Build a terminal cloned from the active one and split it off the
    /// named pane in the given direction.
    SpawnSplit { origin_pane: u64, direction: SplitDirection },
}

/// What the pane area does when pane number `requested` is asked for.
#[derive(Clone, Copy, Debug, PartialEq, Eq, Structural)]
pub enum ActivatePanePlan {
    /// Move focus to the pane with this identifier.
    Focus(u64),
    /// No such pane: split a terminal cloned from the active one off to the
    /// right of the active pane.
    SplitActive,
}

impl TerminalPanel {
    /// React to an event of the pane at index `pane`: update the panel's
    /// state and say what the host framework must do.
    ///
    /// Removing the only pane closes the panel (the pane itself stays, with
    /// zoom reset). Removing one of several panes drops it and moves focus
    /// to the named pane, or to the last pane; the active index keeps
    /// following the pane it pointed at, or its neighbour when that pane is
    /// the one removed.
    pub fn handle_pane_event(&mut self, pane: usize, event: &PaneEvent) -> (effects: Vec<
        PanelEffect,
    >)
        requires
            old(self).wf(),
            pane < old(self).panes@.len(),
        ensures
            final(self).wf(),
            match *event {
                PaneEvent::ActivateItem | PaneEvent::RemovedItem => {
                    &&& *final(self) == *old(self)
                    &&& effects@ == seq![PanelEffect::Serialize]
                },
                PaneEvent::Remove { focus_on_pane } => {
                    if old(self).panes@.len() == 1 {
                        &&& final(self).panes@.len() == 1
                        &&& final(self).panes@[0].zoomed == false
                        &&& final(self).panes@[0].pane_id == old(self).panes@[0].pane_id
                        &&& final(self).panes@[0].items@ == old(self).panes@[0].items@
                        &&& final(self).panes@[0].active_item == old(self).panes@[0].active_item
                        &&& final(self).active_pane == old(self).active_pane
                        &&& effects@ == seq![PanelEffect::ClosePanel]
                    } else {
                        &&& final(self).panes@ == old(self).panes@.remove(pane as int)
                        &&& final(self).active_pane == if old(self).active_pane > pane {
                            old(self).active_pane - 1
                        } else if old(self).active_pane == pane && pane == old(self).panes@.len()
                            - 1 {
                            old(self).panes@.len() - 2
                        } else {
                            old(self).active_pane as int
                        }
                        &&& effects@ == seq![
                            PanelEffect::FocusPane(
                                match focus_on_pane {
                                    Some(id) => id,
                                    None => old(self).panes@.remove(pane as int).last().pane_id,
                                },
                            ),
                        ]
                    }
                },
                PaneEvent::ZoomIn => {
                    &&& final(self).panes@.len() == old(self).panes@.len()
                    &&& forall|i: int|
                        0 <= i < old(self).panes@.len() ==> {
                            let p = #[trigger] final(self).panes@[i];
                            &&& p.zoomed == true
                            &&& p.pane_id == old(self).panes@[i].pane_id
                            &&& p.items@ == old(self).panes@[i].items@
                            &&& p.active_item == old(self).panes@[i].active_item
                        }
                    &&& final(self).active_pane == old(self).active_pane
                    &&& effects@ == seq![PanelEffect::EmitZoomIn]
                },
                PaneEvent::ZoomOut => {
                    &&& final(self).panes@.len() == old(self).panes@.len()
                    &&& forall|i: int|
                        0 <= i < old(self).panes@.len() ==> {
                            let p = #[trigger] final(self).panes@[i];
                            &&& p.zoomed == false
                            &&& p.pane_id == old(self).panes@[i].pane_id
                            &&& p.items@ == old(self).panes@[i].items@
                            &&& p.active_item == old(self).panes@[i].active_item
                        }
                    &&& final(self).active_pane == old(self).active_pane
                    &&& effects@ == seq![PanelEffect::EmitZoomOut]
                },
                PaneEvent::AddItem { item_id } => {
                    &&& *final(self) == *old(self)
                    &&& effects@ == seq![
                        PanelEffect::ItemAddedToWorkspace(item_id),
                        PanelEffect::Serialize,
                    ]
                },
                PaneEvent::Split(direction) => {
                    &&& *final(self) == *old(self)
                    &&& effects@ == seq![
                        PanelEffect::SpawnSplit {
                            origin_pane: old(self).panes@[pane as int].pane_id,
                            direction,
                        },
                    ]
                },
                PaneEvent::Focus => {
                    &&& final(self).panes@ == old(self).panes@
                    &&& final(self).active_pane == pane
                    &&& effects@.len() == 0
                },
            },
            final(self).width == old(self).width,
            final(self).height == old(self).height,
            final(self).pending_terminals_to_add == old(self).pending_terminals_to_add,
            final(self).assistant_enabled == old(self).assistant_enabled,
            final(self).assistant_tab_bar_button == old(self).assistant_tab_bar_button,
    {
        let mut effects: Vec<PanelEffect> = Vec::new();
        match event {
            PaneEvent::ActivateItem => {
                effects.push(PanelEffect::Serialize);
                proof {
                    assert(effects@ =~= seq![PanelEffect::Serialize]);
                }
            },
            PaneEvent::RemovedItem => {
                effects.push(PanelEffect::Serialize);
                proof {
                    assert(effects@ =~= seq![PanelEffect::Serialize]);
                }
            },
            PaneEvent::Remove { focus_on_pane } => {
                if self.panes.len() == 1 {
                    self.panes[0].zoomed = false;
                    effects.push(PanelEffect::ClosePanel);
                    proof {
                        assert(effects@ =~= seq![PanelEffect::ClosePanel]);
                    }
                } else {
                    let _removed = self.panes.remove(pane);
                    let target: u64 = match focus_on_pane {
                        Some(id) => *id,
                        None => self.panes[self.panes.len() - 1].pane_id,
                    };
                    if self.active_pane > pane {
                        self.active_pane = self.active_pane - 1;
                    } else if self.active_pane == pane && self.active_pane >= self.panes.len() {
                        self.active_pane = self.panes.len() - 1;
                    }
                    effects.push(PanelEffect::FocusPane(target));
                    proof {
                        assert(effects@ =~= seq![PanelEffect::FocusPane(target)]);
                        assert forall|i: int, j: int|
                            0 <= i < j < self.panes@.len() implies self.panes@[i].pane_id
                            != self.panes@[j].pane_id by {
                            assert(self.panes@[i] == if i < pane {
                                old(self).panes@[i]
                            } else {
                                old(self).panes@[i + 1]
                            });
                            assert(self.panes@[j] == if j < pane {
                                old(self).panes@[j]
                            } else {
                                old(self).panes@[j + 1]
                            });
                        }
                        assert(self.panes@.last() == old(self).panes@.remove(pane as int).last());
                    }
                }
            },
            PaneEvent::ZoomIn => {
                self.set_zoomed(true);
                effects.push(PanelEffect::EmitZoomIn);
                proof {
                    assert(effects@ =~= seq![PanelEffect::EmitZoomIn]);
                }
            },
            PaneEvent::ZoomOut => {
                self.set_zoomed(false);
                effects.push(PanelEffect::EmitZoomOut);
                proof {
                    assert(effects@ =~= seq![PanelEffect::EmitZoomOut]);
                }
            },
            PaneEvent::AddItem { item_id } => {
                effects.push(PanelEffect::ItemAddedToWorkspace(*item_id));
                effects.push(PanelEffect::Serialize);
                proof {
                    assert(effects@ =~= seq![
                        PanelEffect::ItemAddedToWorkspace(*item_id),
                        PanelEffect::Serialize,
                    ]);
                }
            },
            PaneEvent::Split(direction) => {
                effects.push(
                    PanelEffect::SpawnSplit {
                        origin_pane: self.panes[pane].pane_id,
                        direction: *direction,
                    },
                );
                proof {
                    assert(effects@ =~= seq![
                        PanelEffect::SpawnSplit {
                            origin_pane: old(self).panes@[pane as int].pane_id,
                            direction: *direction,
                        },
                    ]);
                }
            },
            PaneEvent::Focus => {
                self.active_pane = pane;
            },
        }
        effects
    }

    /// Insert a freshly built pane next to the pane at `origin`: after it
    /// for a split to the right or below, before it for a split to the left
    /// or above. The active index keeps following the pane it pointed at.
    pub fn split_pane(&mut self, origin: usize, new_pane: PaneModel, direction: SplitDirection)
        requires
            old(self).wf(),
            origin < old(self).panes@.len(),
            new_pane.wf(),
            old(self).panes@.len() < usize::MAX,
            forall|i: int|
                0 <= i < old(self).panes@.len() ==> (#[trigger] old(self).panes@[i]).pane_id
                    != new_pane.pane_id,
        ensures
            final(self).wf(),
            ({
                let at = match direction {
                    SplitDirection::Right | SplitDirection::Down => origin + 1,
                    SplitDirection::Left | SplitDirection::Up => origin as int,
                };
                &&& final(self).panes@ == old(self).panes@.insert(at, new_pane)
                &&& final(self).active_pane == if old(self).active_pane >= at {
                    old(self).active_pane + 1
                } else {
                    old(self).active_pane as int
                }
            }),
            final(self).width == old(self).width,
            final(self).height == old(self).height,
            final(self).pending_terminals_to_add == old(self).pending_terminals_to_add,
            final(self).assistant_enabled == old(self).assistant_enabled,
            final(self).assistant_tab_bar_button == old(self).assistant_tab_bar_button,
    {
        let at: usize = match direction {
            SplitDirection::Right | SplitDirection::Down => origin + 1,
            SplitDirection::Left | SplitDirection::Up => origin,
        };
        self.panes.insert(at, new_pane);
        if self.active_pane >= at {
            self.active_pane = self.active_pane + 1;
        }
        proof {
            assert forall|i: int, j: int|
                0 <= i < j < self.panes@.len() implies self.panes@[i].pane_id
                != self.panes@[j].pane_id by {
                assert(self.panes@[i] == if i < at {
                    old(self).panes@[i]
                } else if i == at {
                    new_pane
                } else {
                    old(self).panes@[i - 1]
                });
                assert(self.panes@[j] == if j < at {
                    old(self).panes@[j]
                } else if j == at {
                    new_pane
                } else {
                    old(self).panes@[j - 1]
                });
            }
        }
    }

    /// Exchange the panes at `a` and `b`; the active index keeps following
    /// the pane it pointed at.
    pub fn swap_panes(&mut self, a: usize, b: usize)
        requires
            old(self).wf(),
            a < old(self).panes@.len(),
            b < old(self).panes@.len(),
        ensures
            final(self).wf(),
            final(self).panes@ == old(self).panes@.update(a as int, old(self).panes@[b as int]).update(
                b as int,
                old(self).panes@[a as int],
            ),
            final(self).active_pane == if old(self).active_pane == a {
                b as int
            } else if old(self).active_pane == b {
                a as int
            } else {
                old(self).active_pane as int
            },
            final(self).width == old(self).width,
            final(self).height == old(self).height,
            final(self).pending_terminals_to_add == old(self).pending_terminals_to_add,
            final(self).assistant_enabled == old(self).assistant_enabled,
            final(self).assistant_tab_bar_button == old(self).assistant_tab_bar_button,
    {
        if a == b {
            proof {
                assert(old(self).panes@.update(a as int, old(self).panes@[b as int]).update(
                    b as int,
                    old(self).panes@[a as int],
                ) =~= old(self).panes@);
            }
            return ;
        }
        let lo: usize = if a < b {
            a
        } else {
            b
        };
        let hi: usize = if a < b {
            b
        } else {
            a
        };
        let pane_hi = self.panes.remove(hi);
        let pane_lo = self.panes.remove(lo);
        self.panes.insert(lo, pane_hi);
        self.panes.insert(hi, pane_lo);
        if self.active_pane == a {
            self.active_pane = b;
        } else if self.active_pane == b {
            self.active_pane = a;
        }
        proof {
            assert(self.panes@ =~= old(self).panes@.update(a as int, old(self).panes@[b as int]).update(
                b as int,
                old(self).panes@[a as int],
            ));
        }
    }

    /// What the pane area does when pane number `requested` is asked for:
    /// focus it where it exists, else split the active pane.
    pub fn activate_pane_plan(&self, requested: usize) -> (r: ActivatePanePlan)
        requires
            self.wf(),
        ensures
            r == if requested < self.panes@.len() {
                ActivatePanePlan::Focus(self.panes@[requested as int].pane_id)
            } else {
                ActivatePanePlan::SplitActive
            },
    {
        if requested < self.panes.len() {
            ActivatePanePlan::Focus(self.panes[requested].pane_id)
        } else {
            ActivatePanePlan::SplitActive
        }
    }

    /// Whether a tab dragged from `source_pane` may leave it for a new
    /// split: always when the source lies outside this panel or the panel
    /// has several panes; from the panel's single pane only when the drag
    /// crosses panes or the pane keeps at least one other tab.
    pub fn can_drag_terminal_away(
        panel_contains_source: bool,
        panel_pane_count: usize,
        source_is_current_pane: bool,
        current_pane_items: usize,
    ) -> (r: bool)
        ensures
            r == (!panel_contains_source || panel_pane_count > 1 || (!source_is_current_pane
                || current_pane_items > 1)),
    {
        !panel_contains_source || panel_pane_count > 1 || (!source_is_current_pane
            || current_pane_items > 1)
    }
}

/// What was dropped on a terminal pane, as far as the decision reads it.
#[derive(Clone, Debug)]
pub enum DroppedItem {
    /// A dragged tab whose item is a terminal.
    TerminalTab,
    /// A dragged tab whose item is no terminal, with the absolute path of
    /// the item's project entry, where it has one.
    OtherTab { absolute_path: Option<String> },
    /// A project entry, with its absolute path, where it has one.
    ProjectEntry { absolute_path: Option<String> },
    /// Paths dragged in from outside the editor.
    ExternalPaths(Vec<String>),
}

/// What a terminal pane does with a dropped item.
#[derive(Clone, Debug)]
pub enum DropPlan {
    /// Split the pane in the given direction and move the dragged tab into
    /// the new pane.
    SplitAndMoveTab(SplitDirection),
    /// No split is under way: leave the tab to the pane's own drop handler.
    DefaultTabDrop,
    /// Paste the given paths into the pane's active terminal.
    PastePaths(Vec<String>),
    /// Nothing to do.
    Ignore,
}

/// Decide what a terminal pane does with a dropped item: a dragged terminal
/// tab moves into a new split (or falls back to the pane's own handler when
/// no split is under way); any other tab or project entry with an absolute
/// path, and external paths on a local project, are pasted into the active
/// terminal.
pub fn terminal_drop_plan(
    dropped: DroppedItem,
    drag_split_direction: Option<SplitDirection>,
    is_local: bool,
) -> (r: DropPlan)
    ensures
        match dropped {
            DroppedItem::TerminalTab => r == match drag_split_direction {
                Some(direction) => DropPlan::SplitAndMoveTab(direction),
                None => DropPlan::DefaultTabDrop,
            },
            DroppedItem::OtherTab { absolute_path } | DroppedItem::ProjectEntry {
                absolute_path,
            } => match absolute_path {
                Some(path) => r matches DropPlan::PastePaths(v) && v.deep_view() == seq![path@],
                None => r matches DropPlan::Ignore,
            },
            DroppedItem::ExternalPaths(paths) => {
                if is_local {
                    r matches DropPlan::PastePaths(v) && v.deep_view() == paths.deep_view()
                } else {
                    r matches DropPlan::Ignore
                }
            },
        },
{
    match dropped {
        DroppedItem::TerminalTab => match drag_split_direction {
            Some(direction) => DropPlan::SplitAndMoveTab(direction),
            None => DropPlan::DefaultTabDrop,
        },
        DroppedItem::OtherTab { absolute_path } | DroppedItem::ProjectEntry { absolute_path } => {
            match absolute_path {
                Some(path) => {
                    let mut paths: Vec<String> = Vec::new();
                    let ghost gpath = path@;
                    paths.push(path);
                    proof {
                        assert(paths.deep_view() =~= seq![gpath]);
                    }
                    DropPlan::PastePaths(paths)
                },
                None => DropPlan::Ignore,
            }
        },
        DroppedItem::ExternalPaths(paths) => {
            if is_local {
                DropPlan::PastePaths(paths)
            } else {
                DropPlan::Ignore
            }
        },
    }
}

} // verus!
