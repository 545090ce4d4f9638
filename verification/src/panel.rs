//! The terminal panel's state: a group of terminal panes docked at one edge
//! of the workspace, one of them active, each holding a row of terminal
//! items. The panel decides how pane events, task spawns and dock settings
//! change this state; the host framework carries the decisions out.

use vstd::prelude::*;

use crate::text::{decimal_digits, usize_to_decimal};

verus! {

/// The edge of the workspace a panel is docked at.
#[derive(Clone, Copy, Debug, PartialEq, Eq, Structural)]
pub enum DockPosition {
    Left,
    Bottom,
    Right,
}

/// The dock edge named by the terminal settings.
#[derive(Clone, Copy, Debug, PartialEq, Eq, Structural)]
pub enum TerminalDockPosition {
    Left,
    Bottom,
    Right,
}

/// A direction in which a pane can be split.
#[derive(Clone, Copy, Debug, PartialEq, Eq, Structural)]
pub enum SplitDirection {
    Up,
    Down,
    Left,
    Right,
}

/// Why the panel refuses to add a terminal.
#[derive(Clone, Copy, Debug, PartialEq, Eq, Structural)]
pub enum TerminalPanelError {
    /// The project does not support terminals (a remote project).
    NotSupported,
}

impl TerminalPanelError {
    /// The error's message.
    pub fn message(&self) -> (r: String)
        ensures
            r@ == "terminal not yet supported for remote projects"@,
    {
        String::from_str("terminal not yet supported for remote projects")
    }
}

/// One terminal item held by a pane. A terminal that runs a task remembers
/// the task's full label; a plain shell terminal has none.
#[derive(Clone, Debug)]
pub struct TerminalItem {
    /// The item's identifier, unique within the window.
    pub item_id: u64,
    /// The full label of the task the terminal runs, if any.
    pub task_label: Option<String>,
}

/// One pane of the terminal panel: an ordered row of terminal items, one of
/// them active.
#[derive(Clone, Debug)]
pub struct PaneModel {
    /// The pane's identifier, unique within the panel.
    pub pane_id: u64,
    /// The terminal items the pane holds, in tab order.
    pub items: Vec<TerminalItem>,
    /// Index of the active item; 0 when the pane is empty.
    pub active_item: usize,
    /// Whether the pane is zoomed to fill the panel.
    pub zoomed: bool,
}

impl PaneModel {
    /// A pane is well formed when its active-item index points at an item,
    /// or at 0 while the pane is empty.
    pub open spec fn wf(self) -> bool {
        if self.items@.len() == 0 {
            self.active_item == 0
        } else {
            self.active_item < self.items@.len()
        }
    }

    /// A fresh, empty, unzoomed pane.
    pub fn new(pane_id: u64) -> (r: PaneModel)
        ensures
            r.wf(),
            r.pane_id == pane_id,
            r.items@.len() == 0,
            r.active_item == 0,
            !r.zoomed,
    {
        PaneModel { pane_id, items: Vec::new(), active_item: 0, zoomed: false }
    }

    /// Add an item at the end of the row and make it the active one, as a
    /// pane does when a terminal is added with activation.
    pub fn add_item(&mut self, item: TerminalItem)
        requires
            old(self).wf(),
            old(self).items@.len() < usize::MAX,
        ensures
            final(self).wf(),
            final(self).items@ == old(self).items@.push(item),
            final(self).active_item == old(self).items@.len(),
            final(self).pane_id == old(self).pane_id,
            final(self).zoomed == old(self).zoomed,
    {
        self.items.push(item);
        self.active_item = self.items.len() - 1;
    }

    /// Make the item at `item_index` the active one.
    pub fn activate_item(&mut self, item_index: usize)
        requires
            old(self).wf(),
            item_index < old(self).items@.len(),
        ensures
            final(self).wf(),
            final(self).active_item == item_index,
            final(self).items@ == old(self).items@,
            final(self).pane_id == old(self).pane_id,
            final(self).zoomed == old(self).zoomed,
    {
        self.active_item = item_index;
    }
}

/// The terminal panel: a dockable group of terminal panes.
#[derive(Clone, Debug)]
pub struct TerminalPanel {
    /// The panes of the panel, in layout order. Never empty.
    pub panes: Vec<PaneModel>,
    /// Index of the pane that has focus.
    pub active_pane: usize,
    /// Width the user gave the panel when docked left or right.
    pub width: Option<u32>,
    /// Height the user gave the panel when docked at the bottom.
    pub height: Option<u32>,
    /// Terminals whose creation has been started but not finished.
    pub pending_terminals_to_add: usize,
    /// Whether the inline assistant is enabled for terminals.
    pub assistant_enabled: bool,
    /// Whether the tab bar shows the inline-assistant button.
    pub assistant_tab_bar_button: bool,
}

impl TerminalPanel {
    /// The panel is well formed when it has at least one pane, the active
    /// index points at a pane, every pane is well formed and pane
    /// identifiers are distinct.
    pub open spec fn wf(self) -> bool {
        &&& self.panes@.len() >= 1
        &&& self.active_pane < self.panes@.len()
        &&& forall|i: int| 0 <= i < self.panes@.len() ==> (#[trigger] self.panes@[i]).wf()
        &&& forall|i: int, j: int|
            0 <= i < j < self.panes@.len() ==> self.panes@[i].pane_id != self.panes@[j].pane_id
    }

    /// A fresh panel: one empty pane, focused, with no saved size, nothing
    /// pending and the assistant off.
    pub fn new(pane_id: u64) -> (r: TerminalPanel)
        ensures
            r.wf(),
            r.panes@.len() == 1,
            r.panes@[0].pane_id == pane_id,
            r.panes@[0].items@.len() == 0,
            !r.panes@[0].zoomed,
            r.active_pane == 0,
            r.width is None,
            r.height is None,
            r.pending_terminals_to_add == 0,
            !r.assistant_enabled,
            !r.assistant_tab_bar_button,
    {
        let pane = PaneModel::new(pane_id);
        let mut panes: Vec<PaneModel> = Vec::new();
        panes.push(pane);
        TerminalPanel {
            panes,
            active_pane: 0,
            width: None,
            height: None,
            pending_terminals_to_add: 0,
            assistant_enabled: false,
            assistant_tab_bar_button: false,
        }
    }

    /// Turn the inline assistant on or off; the tab-bar button is shown
    /// exactly while the assistant is enabled.
    pub fn asssistant_enabled(&mut self, enabled: bool)
        requires
            old(self).wf(),
        ensures
            final(self).wf(),
            final(self).assistant_enabled == enabled,
            final(self).assistant_tab_bar_button == enabled,
            final(self).panes@ == old(self).panes@,
            final(self).active_pane == old(self).active_pane,
            final(self).width == old(self).width,
            final(self).height == old(self).height,
            final(self).pending_terminals_to_add == old(self).pending_terminals_to_add,
    {
        self.assistant_enabled = enabled;
        self.assistant_tab_bar_button = enabled;
    }

    /// Whether the inline assistant is enabled.
    pub fn assistant_enabled(&self) -> (r: bool)
        ensures
            r == self.assistant_enabled,
    {
        self.assistant_enabled
    }

    /// The panel counts as empty when its active pane holds no terminal and
    /// none is on the way.
    pub open spec fn spec_has_no_terminals(self) -> bool {
        self.panes@[self.active_pane as int].items@.len() == 0 && self.pending_terminals_to_add
            == 0
    }

    /// Whether the panel holds no terminal and none is on the way.
    pub fn has_no_terminals(&self) -> (r: bool)
        requires
            self.wf(),
        ensures
            r == self.spec_has_no_terminals(),
    {
        self.panes[self.active_pane].items.len() == 0 && self.pending_terminals_to_add == 0
    }

    /// Whether the dock button shows the terminal icon: the panel is usable
    /// or still holds terminals, and the settings ask for a button.
    pub fn icon_visible(&self, enabled: bool, button_setting: bool) -> (r: bool)
        requires
            self.wf(),
        ensures
            r == ((enabled || !self.spec_has_no_terminals()) && button_setting),
    {
        (enabled || !self.has_no_terminals()) && button_setting
    }

    /// The label on the dock button: the number of terminals held, in
    /// decimal, or nothing when there are none.
    pub fn icon_label(&self) -> (r: Option<String>)
        requires
            self.wf(),
            items_in_panes(self.panes@) <= usize::MAX,
        ensures
            match r {
                None => items_in_panes(self.panes@) == 0,
                Some(s) => items_in_panes(self.panes@) > 0 && s@ == decimal_digits(
                    items_in_panes(self.panes@) as nat,
                ),
            },
    {
        proof {
            assert(self.panes@.skip(0) =~= self.panes@);
        }
        let mut count: usize = 0;
        let mut i: usize = 0;
        while i < self.panes.len()
            invariant
                i <= self.panes@.len(),
                items_in_panes(self.panes@) <= usize::MAX,
                count + items_in_panes(self.panes@.skip(i as int)) == items_in_panes(self.panes@),
            decreases self.panes@.len() - i,
        {
            proof {
                let rest = self.panes@.skip(i as int);
                assert(rest.drop_first() =~= self.panes@.skip(i as int + 1));
                lemma_items_in_panes_nonneg(rest.drop_first());
            }
            count = count + self.panes[i].items.len();
            i = i + 1;
        }
        proof {
            assert(self.panes@.skip(self.panes@.len() as int) =~= Seq::<PaneModel>::empty());
        }
        if count == 0 {
            None
        } else {
            Some(usize_to_decimal(count))
        }
    }

    /// The panel's size along the dock's axis: the saved width when docked
    /// left or right and the saved height when docked at the bottom, else
    /// the default from the settings.
    pub fn size(&self, position: DockPosition, default_width: u32, default_height: u32) -> (r:
        u32)
        ensures
            r == match position {
                DockPosition::Left | DockPosition::Right => match self.width {
                    Some(w) => w,
                    None => default_width,
                },
                DockPosition::Bottom => match self.height {
                    Some(h) => h,
                    None => default_height,
                },
            },
    {
        match position {
            DockPosition::Left | DockPosition::Right => match self.width {
                Some(w) => w,
                None => default_width,
            },
            DockPosition::Bottom => match self.height {
                Some(h) => h,
                None => default_height,
            },
        }
    }

    /// Save a size for the dock's current axis: the width when docked left
    /// or right, the height when docked at the bottom.
    pub fn set_size(&mut self, size: Option<u32>, position: DockPosition)
        requires
            old(self).wf(),
        ensures
            final(self).wf(),
            match position {
                DockPosition::Left | DockPosition::Right => final(self).width == size
                    && final(self).height == old(self).height,
                DockPosition::Bottom => final(self).height == size
                    && final(self).width == old(self).width,
            },
            final(self).panes@ == old(self).panes@,
            final(self).active_pane == old(self).active_pane,
            final(self).pending_terminals_to_add == old(self).pending_terminals_to_add,
            final(self).assistant_enabled == old(self).assistant_enabled,
            final(self).assistant_tab_bar_button == old(self).assistant_tab_bar_button,
    {
        match position {
            DockPosition::Left | DockPosition::Right => {
                self.width = size;
            },
            DockPosition::Bottom => {
                self.height = size;
            },
        }
    }

    /// Whether the panel shows zoomed: its active pane is.
    pub fn is_zoomed(&self) -> (r: bool)
        requires
            self.wf(),
        ensures
            r == self.panes@[self.active_pane as int].zoomed,
    {
        self.panes[self.active_pane].zoomed
    }

    /// Zoom or unzoom every pane of the panel.
    pub fn set_zoomed(&mut self, zoomed: bool)
        requires
            old(self).wf(),
        ensures
            final(self).wf(),
            final(self).panes@.len() == old(self).panes@.len(),
            forall|i: int|
                0 <= i < old(self).panes@.len() ==> {
                    let p = #[trigger] final(self).panes@[i];
                    &&& p.zoomed == zoomed
                    &&& p.pane_id == old(self).panes@[i].pane_id
                    &&& p.items@ == old(self).panes@[i].items@
                    &&& p.active_item == old(self).panes@[i].active_item
                },
            final(self).active_pane == old(self).active_pane,
            final(self).width == old(self).width,
            final(self).height == old(self).height,
            final(self).pending_terminals_to_add == old(self).pending_terminals_to_add,
            final(self).assistant_enabled == old(self).assistant_enabled,
            final(self).assistant_tab_bar_button == old(self).assistant_tab_bar_button,
    {
        let mut i: usize = 0;
        while i < self.panes.len()
            invariant
                i <= self.panes@.len(),
                self.panes@.len() == old(self).panes@.len(),
                forall|j: int|
                    0 <= j < i ==> {
                        let p = #[trigger] self.panes@[j];
                        &&& p.zoomed == zoomed
                        &&& p.pane_id == old(self).panes@[j].pane_id
                        &&& p.items@ == old(self).panes@[j].items@
                        &&& p.active_item == old(self).panes@[j].active_item
                    },
                forall|j: int|
                    i <= j < self.panes@.len() ==> self.panes@[j] == old(self).panes@[j],
                self.active_pane == old(self).active_pane,
                self.width == old(self).width,
                self.height == old(self).height,
                self.pending_terminals_to_add == old(self).pending_terminals_to_add,
                self.assistant_enabled == old(self).assistant_enabled,
                self.assistant_tab_bar_button == old(self).assistant_tab_bar_button,
            decreases self.panes@.len() - i,
        {
            self.panes[i].zoomed = zoomed;
            i = i + 1;
        }
    }

    /// Whether activating the panel should open a default shell terminal:
    /// only when it becomes active while holding nothing.
    pub fn should_spawn_default_terminal(&self, active: bool) -> (r: bool)
        requires
            self.wf(),
        ensures
            r == (active && self.spec_has_no_terminals()),
    {
        active && self.has_no_terminals()
    }

    /// Record that a terminal's creation has started.
    pub fn begin_add_terminal(&mut self, enabled: bool) -> (r: Result<(), TerminalPanelError>)
        requires
            old(self).wf(),
            old(self).pending_terminals_to_add < usize::MAX,
        ensures
            final(self).wf(),
            enabled ==> {
                &&& r is Ok
                &&& final(self).pending_terminals_to_add == old(self).pending_terminals_to_add + 1
            },
            !enabled ==> {
                &&& r == Result::<(), TerminalPanelError>::Err(TerminalPanelError::NotSupported)
                &&& *final(self) == *old(self)
            },
            final(self).panes@ == old(self).panes@,
            final(self).active_pane == old(self).active_pane,
            final(self).width == old(self).width,
            final(self).height == old(self).height,
            final(self).assistant_enabled == old(self).assistant_enabled,
            final(self).assistant_tab_bar_button == old(self).assistant_tab_bar_button,
    {
        if !enabled {
            return Err(TerminalPanelError::NotSupported);
        }
        self.pending_terminals_to_add = self.pending_terminals_to_add + 1;
        Ok(())
    }

    /// Record that a terminal's creation has finished (successfully or
    /// not); the count never goes below zero.
    pub fn finish_add_terminal(&mut self)
        requires
            old(self).wf(),
        ensures
            final(self).wf(),
            final(self).pending_terminals_to_add == if old(self).pending_terminals_to_add > 0 {
                old(self).pending_terminals_to_add - 1
            } else {
                0
            },
            final(self).panes@ == old(self).panes@,
            final(self).active_pane == old(self).active_pane,
            final(self).width == old(self).width,
            final(self).height == old(self).height,
            final(self).assistant_enabled == old(self).assistant_enabled,
            final(self).assistant_tab_bar_button == old(self).assistant_tab_bar_button,
    {
        if self.pending_terminals_to_add > 0 {
            self.pending_terminals_to_add = self.pending_terminals_to_add - 1;
        }
    }

    /// The identifiers of every terminal item the panel still holds, pane
    /// by pane; anything else in the saved state may be cleaned up.
    pub fn alive_item_ids(&self) -> (r: Vec<u64>)
        requires
            self.wf(),
        ensures
            r@ == all_item_ids(self.panes@),
    {
        proof {
            assert(self.panes@.skip(0) =~= self.panes@);
        }
        let mut r: Vec<u64> = Vec::new();
        let mut i: usize = 0;
        while i < self.panes.len()
            invariant
                i <= self.panes@.len(),
                r@ + all_item_ids(self.panes@.skip(i as int)) == all_item_ids(self.panes@),
            decreases self.panes@.len() - i,
        {
            proof {
                let rest = self.panes@.skip(i as int);
                assert(rest.drop_first() =~= self.panes@.skip(i as int + 1));
            }
            let ghost r_before = r@;
            let items = &self.panes[i].items;
            let mut j: usize = 0;
            while j < items.len()
                invariant
                    j <= items@.len(),
                    items@ == self.panes@[i as int].items@,
                    i < self.panes@.len(),
                    r@ == r_before + pane_item_ids(items@).take(j as int),
                decreases items@.len() - j,
            {
                r.push(items[j].item_id);
                proof {
                    assert(pane_item_ids(items@).take(j as int).push(items@[j as int].item_id)
                        =~= pane_item_ids(items@).take(j as int + 1));
                }
                j = j + 1;
            }
            proof {
                assert(pane_item_ids(self.panes@[i as int].items@).take(
                    self.panes@[i as int].items@.len() as int,
                ) =~= pane_item_ids(self.panes@[i as int].items@));
                assert(r@ + all_item_ids(self.panes@.skip(i as int + 1)) == all_item_ids(
                    self.panes@,
                )) by {
                    assert(r@ =~= r_before + pane_item_ids(self.panes@[i as int].items@));
                    assert(r_before + pane_item_ids(self.panes@[i as int].items@) + all_item_ids(
                        self.panes@.skip(i as int + 1),
                    ) =~= r_before + (pane_item_ids(self.panes@[i as int].items@) + all_item_ids(
                        self.panes@.skip(i as int + 1),
                    )));
                }
            }
            i = i + 1;
        }
        proof {
            assert(self.panes@.skip(self.panes@.len() as int) =~= Seq::<PaneModel>::empty());
            assert(r@ + Seq::<u64>::empty() =~= r@);
        }
        r
    }
}

/// The panel's serialized form, as saved in the workspace database.
#[derive(Clone, Debug)]
pub struct SerializedTerminalPanel {
    /// Each pane's item identifiers, in tab order.
    pub items: Vec<Vec<u64>>,
    /// The saved active item; the panel does not record one.
    pub active_item_id: Option<u64>,
    /// The saved width, for a left or right dock.
    pub width: Option<u32>,
    /// The saved height, for a bottom dock.
    pub height: Option<u32>,
}

impl TerminalPanel {
    /// The panel's serialized form: every pane's item identifiers and the
    /// saved sizes, with no active item recorded.
    pub fn serialized(&self) -> (r: SerializedTerminalPanel)
        requires
            self.wf(),
        ensures
            r.items.deep_view() == self.panes@.map_values(
                |p: PaneModel| pane_item_ids(p.items@),
            ),
            r.active_item_id is None,
            r.width == self.width,
            r.height == self.height,
    {
        let mut items: Vec<Vec<u64>> = Vec::new();
        let mut i: usize = 0;
        while i < self.panes.len()
            invariant
                i <= self.panes@.len(),
                items@.len() == i,
                forall|k: int|
                    0 <= k < i ==> (#[trigger] items@[k])@ == pane_item_ids(
                        self.panes@[k].items@,
                    ),
            decreases self.panes@.len() - i,
        {
            let pane_items = &self.panes[i].items;
            let mut ids: Vec<u64> = Vec::new();
            let mut j: usize = 0;
            while j < pane_items.len()
                invariant
                    j <= pane_items@.len(),
                    ids@.len() == j,
                    forall|l: int| 0 <= l < j ==> ids@[l] == pane_items@[l].item_id,
                decreases pane_items@.len() - j,
            {
                ids.push(pane_items[j].item_id);
                j = j + 1;
            }
            proof {
                assert(ids@ =~= pane_item_ids(self.panes@[i as int].items@));
            }
            items.push(ids);
            i = i + 1;
        }
        proof {
            assert(items.deep_view() =~~= self.panes@.map_values(
                |p: PaneModel| pane_item_ids(p.items@),
            ));
        }
        SerializedTerminalPanel {
            items,
            active_item_id: None,
            width: self.width,
            height: self.height,
        }
    }
}

/// The number of terminal items held across the given panes.
pub open spec fn items_in_panes(panes: Seq<PaneModel>) -> int
    decreases panes.len(),
{
    if panes.len() == 0 {
        0
    } else {
        panes[0].items@.len() + items_in_panes(panes.drop_first())
    }
}

proof fn lemma_items_in_panes_nonneg(panes: Seq<PaneModel>)
    ensures
        items_in_panes(panes) >= 0,
    decreases panes.len(),
{
    if panes.len() > 0 {
        lemma_items_in_panes_nonneg(panes.drop_first());
    }
}

/// The identifiers of a pane's items, in tab order.
pub open spec fn pane_item_ids(items: Seq<TerminalItem>) -> Seq<u64> {
    items.map_values(|it: TerminalItem| it.item_id)
}

/// The identifiers of every item across the given panes, pane by pane.
pub open spec fn all_item_ids(panes: Seq<PaneModel>) -> Seq<u64>
    decreases panes.len(),
{
    if panes.len() == 0 {
        Seq::empty()
    } else {
        pane_item_ids(panes[0].items@) + all_item_ids(panes.drop_first())
    }
}

/// The dock edge meant by a terminal setting.
pub fn position_from_settings(dock: TerminalDockPosition) -> (r: DockPosition)
    ensures
        r == match dock {
            TerminalDockPosition::Left => DockPosition::Left,
            TerminalDockPosition::Bottom => DockPosition::Bottom,
            TerminalDockPosition::Right => DockPosition::Right,
        },
{
    match dock {
        TerminalDockPosition::Left => DockPosition::Left,
        TerminalDockPosition::Bottom => DockPosition::Bottom,
        TerminalDockPosition::Right => DockPosition::Right,
    }
}

/// The terminal setting that records a dock edge.
pub fn settings_from_position(position: DockPosition) -> (r: TerminalDockPosition)
    ensures
        r == match position {
            DockPosition::Left => TerminalDockPosition::Left,
            DockPosition::Bottom => TerminalDockPosition::Bottom,
            DockPosition::Right => TerminalDockPosition::Right,
        },
{
    match position {
        DockPosition::Left => TerminalDockPosition::Left,
        DockPosition::Bottom => TerminalDockPosition::Bottom,
        DockPosition::Right => TerminalDockPosition::Right,
    }
}

/// Writing a dock edge to the settings and reading it back gives the same
/// edge, and the other way round.
pub proof fn lemma_dock_position_round_trip(position: DockPosition, dock: TerminalDockPosition)
    ensures
        position == match (match position {
            DockPosition::Left => TerminalDockPosition::Left,
            DockPosition::Bottom => TerminalDockPosition::Bottom,
            DockPosition::Right => TerminalDockPosition::Right,
        }) {
            TerminalDockPosition::Left => DockPosition::Left,
            TerminalDockPosition::Bottom => DockPosition::Bottom,
            TerminalDockPosition::Right => DockPosition::Right,
        },
        dock == match (match dock {
            TerminalDockPosition::Left => DockPosition::Left,
            TerminalDockPosition::Bottom => DockPosition::Bottom,
            TerminalDockPosition::Right => DockPosition::Right,
        }) {
            DockPosition::Left => TerminalDockPosition::Left,
            DockPosition::Bottom => TerminalDockPosition::Bottom,
            DockPosition::Right => TerminalDockPosition::Right,
        },
{
}

/// The pane focused after the active one, wrapping around.
pub fn next_pane_index(ix: usize, len: usize) -> (r: usize)
    requires
        len > 0,
        ix < len,
    ensures
        r == if ix + 1 == len {
            0int
        } else {
            ix + 1
        },
{
    proof {
        if ix + 1 == len {
            assert((ix + 1) as int % len as int == 0) by (nonlinear_arith)
                requires
                    len > 0,
                    ix + 1 == len,
            ;
        } else {
            vstd::arithmetic::div_mod::lemma_small_mod((ix + 1) as nat, len as nat);
        }
    }
    (ix + 1) % len
}

/// The pane focused before the active one, wrapping around.
pub fn prev_pane_index(ix: usize, len: usize) -> (r: usize)
    requires
        len > 0,
        ix < len,
    ensures
        r == if ix == 0 {
            len - 1
        } else {
            ix - 1
        },
{
    if ix == 0 {
        len - 1
    } else {
        ix - 1
    }
}

/// Stepping to the next pane and then to the previous one returns to the
/// starting pane, and the other way round.
pub proof fn lemma_pane_navigation_round_trip(ix: int, len: int)
    requires
        0 <= ix < len,
    ensures
        ({
            let next = if ix + 1 == len {
                0int
            } else {
                ix + 1
            };
            (if next == 0 {
                len - 1
            } else {
                next - 1
            }) == ix
        }),
        ({
            let prev = if ix == 0 {
                len - 1
            } else {
                ix - 1
            };
            (if prev + 1 == len {
                0int
            } else {
                prev + 1
            }) == ix
        }),
{
}

/// The working directory for a pane cloned from the active terminal: that
/// terminal's directory where it has one, else the workspace's default.
pub fn cloned_pane_working_directory(active: Option<String>, fallback: Option<String>) -> (r:
    Option<String>)
    ensures
        match active {
            Some(_) => r == active,
            None => r == fallback,
        },
{
    match active {
        Some(d) => Some(d),
        None => fallback,
    }
}

/// How a panel comes up when the workspace loads.
#[derive(Clone, Copy, Debug, PartialEq, Eq, Structural)]
pub enum LoadPlan {
    /// Rebuild the panel from its serialized form.
    Restore,
    /// Start from a fresh panel with one empty pane.
    Fresh,
}

/// A panel is restored only when both a serialized form and the workspace's
/// database id are at hand; anything less starts fresh.
pub fn load_plan(has_serialized_panel: bool, has_database_id: bool) -> (r: LoadPlan)
    ensures
        r == if has_serialized_panel && has_database_id {
            LoadPlan::Restore
        } else {
            LoadPlan::Fresh
        },
{
    if has_serialized_panel && has_database_id {
        LoadPlan::Restore
    } else {
        LoadPlan::Fresh
    }
}

/// Terminals can be added only where the project supports them; otherwise
/// the caller reports the standard error.
pub fn ensure_terminals_supported(supported: bool) -> (r: Result<(), TerminalPanelError>)
    ensures
        supported <==> r is Ok,
        !supported ==> r == Result::<(), TerminalPanelError>::Err(TerminalPanelError::NotSupported),
{
    if supported {
        Ok(())
    } else {
        Err(TerminalPanelError::NotSupported)
    }
}

} // verus!
