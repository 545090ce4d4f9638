//! Task terminals: finding the terminals that already run a task, deciding
//! whether a spawn reuses one of them, and how the result is revealed.

use vstd::prelude::*;

use itertools::Itertools;

use crate::panel::{PaneModel, TerminalPanel};
use crate::shell::{RevealStrategy, RevealTarget, SpawnInTerminal};
use crate::text::str_eq;

verus! {

/// A terminal that runs a task: the item's index within its pane, the
/// pane's identifier, and the item's identifier.
pub type TaskTerminalEntry = (usize, u64, u64);

/// The entries of one pane's items from index `i` on whose task label is
/// `label`, in tab order.
pub open spec fn pane_task_entries_from(
    pane: PaneModel,
    label: Seq<char>,
    i: int,
) -> Seq<TaskTerminalEntry>
    decreases pane.items@.len() - i,
{
    if i < 0 || i >= pane.items@.len() {
        Seq::empty()
    } else {
        let rest = pane_task_entries_from(pane, label, i + 1);
        match pane.items@[i].task_label {
            Some(l) => if l@ == label {
                seq![(i as usize, pane.pane_id, pane.items@[i].item_id)] + rest
            } else {
                rest
            },
            None => rest,
        }
    }
}

/// The entries of every terminal among the given panes whose task label is
/// `label`, pane by pane, each pane's in tab order.
pub open spec fn task_entries(panes: Seq<PaneModel>, label: Seq<char>) -> Seq<TaskTerminalEntry>
    decreases panes.len(),
{
    if panes.len() == 0 {
        Seq::empty()
    } else {
        pane_task_entries_from(panes[0], label, 0) + task_entries(panes.drop_first(), label)
    }
}

/// Relies on itertools' `sorted_by_key`: a stable sort of the entries in
/// ascending key order; the key here is the entry's item identifier.
#[verifier::external_body]
fn sort_entries_by_item_id(entries: Vec<TaskTerminalEntry>) -> (r: Vec<TaskTerminalEntry>)
    ensures
        r@.to_multiset() == entries@.to_multiset(),
        r@.len() == entries@.len(),
        forall|i: int, j: int| 0 <= i < j < r@.len() ==> r@[i].2 <= r@[j].2,
{
    entries.into_iter().sorted_by_key(|entry| entry.2).collect()
}

/// Collect the entries of the panes' terminals whose task label is `label`,
/// in pane order.
fn collect_task_entries(
    panes: &Vec<PaneModel>,
    label: &str,
    acc: &mut Vec<TaskTerminalEntry>,
)
    ensures
        final(acc)@ == old(acc)@ + task_entries(panes@, label@),
{
    proof {
        assert(panes@.skip(0) =~= panes@);
    }
    let mut i: usize = 0;
    while i < panes.len()
        invariant
            i <= panes@.len(),
            acc@ + task_entries(panes@.skip(i as int), label@) == old(acc)@ + task_entries(
                panes@,
                label@,
            ),
        decreases panes@.len() - i,
    {
        proof {
            let rest = panes@.skip(i as int);
            assert(rest.drop_first() =~= panes@.skip(i as int + 1));
        }
        let ghost acc_at_pane = acc@;
        let pane = &panes[i];
        let mut j: usize = 0;
        while j < pane.items.len()
            invariant
                j <= pane.items@.len(),
                pane == panes@[i as int],
                i < panes@.len(),
                acc@ + pane_task_entries_from(panes@[i as int], label@, j as int) == acc_at_pane
                    + pane_task_entries_from(panes@[i as int], label@, 0),
            decreases pane.items@.len() - j,
        {
            let matches_label: bool = match &pane.items[j].task_label {
                Some(l) => str_eq(l.as_str(), label),
                None => false,
            };
            if matches_label {
                acc.push((j, pane.pane_id, pane.items[j].item_id));
                proof {
                    let entry = (j, panes@[i as int].pane_id, panes@[i as int].items@[j as int].item_id);
                    assert(pane_task_entries_from(panes@[i as int], label@, j as int) =~= seq![
                        entry,
                    ] + pane_task_entries_from(panes@[i as int], label@, j as int + 1));
                    assert(acc@ + pane_task_entries_from(panes@[i as int], label@, j as int + 1)
                        =~= (acc@.drop_last() + pane_task_entries_from(
                        panes@[i as int],
                        label@,
                        j as int,
                    )));
                }
            }
            j = j + 1;
        }
        proof {
            assert(pane_task_entries_from(panes@[i as int], label@, pane.items@.len() as int)
                =~= Seq::<TaskTerminalEntry>::empty());
            assert(acc@ =~= acc_at_pane + pane_task_entries_from(panes@[i as int], label@, 0));
            assert(acc_at_pane + pane_task_entries_from(panes@[i as int], label@, 0)
                + task_entries(panes@.skip(i as int + 1), label@) =~= acc_at_pane + (
            pane_task_entries_from(panes@[i as int], label@, 0) + task_entries(
                panes@.skip(i as int + 1),
                label@,
            )));
        }
        i = i + 1;
    }
    proof {
        assert(panes@.skip(panes@.len() as int) =~= Seq::<PaneModel>::empty());
        assert(acc@ + Seq::<TaskTerminalEntry>::empty() =~= acc@);
    }
}

impl TerminalPanel {
    /// Every terminal, in this panel's panes and then in the workspace's,
    /// whose task label is `label`, sorted by ascending item identifier.
    pub fn terminals_for_task(
        &self,
        label: &str,
        workspace_panes: &Vec<PaneModel>,
    ) -> (r: Vec<TaskTerminalEntry>)
        requires
            self.wf(),
        ensures
            r@.to_multiset() == (task_entries(self.panes@, label@) + task_entries(
                workspace_panes@,
                label@,
            )).to_multiset(),
            r@.len() == task_entries(self.panes@, label@).len() + task_entries(
                workspace_panes@,
                label@,
            ).len(),
            forall|i: int, j: int| 0 <= i < j < r@.len() ==> r@[i].2 <= r@[j].2,
    {
        let mut entries: Vec<TaskTerminalEntry> = Vec::new();
        collect_task_entries(&self.panes, label, &mut entries);
        collect_task_entries(workspace_panes, label, &mut entries);
        proof {
            assert(Seq::<TaskTerminalEntry>::empty() + task_entries(self.panes@, label@)
                + task_entries(workspace_panes@, label@) =~= task_entries(self.panes@, label@)
                + task_entries(workspace_panes@, label@));
        }
        let sorted = sort_entries_by_item_id(entries);
        proof {
            entries@.to_multiset_ensures();
            sorted@.to_multiset_ensures();
            assert(entries@.len() == (task_entries(self.panes@, label@) + task_entries(
                workspace_panes@,
                label@,
            )).len());
        }
        sorted
    }
}

/// How a task spawn proceeds, given the terminals that already run the
/// task.
#[derive(Clone, Copy, Debug, PartialEq, Eq, Structural)]
pub enum SpawnStrategy {
    /// Spawn into a fresh terminal at once.
    NewTerminal,
    /// Replace the given terminal's contents at once.
    ReplaceNow { pane_id: u64, item_index: usize, item_id: u64 },
    /// Wait for every terminal that runs the task to finish, then spawn a
    /// fresh terminal or replace the given one.
    Deferred { spawn_new: bool, pane_id: u64, item_index: usize, item_id: u64 },
}

/// Decide how a task spawn proceeds. A fresh terminal is used when the task
/// allows concurrent runs and asks for a new terminal, or when no terminal
/// runs the task yet; otherwise the last entry — the one with the greatest
/// item identifier — is reused: at once when concurrent runs are allowed,
/// else after every running instance of the task has finished.
pub fn spawn_task_strategy(
    allow_concurrent_runs: bool,
    use_new_terminal: bool,
    terminals_for_task: &Vec<TaskTerminalEntry>,
) -> (r: SpawnStrategy)
    ensures
        r == if allow_concurrent_runs && use_new_terminal {
            SpawnStrategy::NewTerminal
        } else if terminals_for_task@.len() == 0 {
            SpawnStrategy::NewTerminal
        } else {
            let last = terminals_for_task@.last();
            if allow_concurrent_runs {
                SpawnStrategy::ReplaceNow { pane_id: last.1, item_index: last.0, item_id: last.2 }
            } else {
                SpawnStrategy::Deferred {
                    spawn_new: use_new_terminal,
                    pane_id: last.1,
                    item_index: last.0,
                    item_id: last.2,
                }
            }
        },
{
    if allow_concurrent_runs && use_new_terminal {
        return SpawnStrategy::NewTerminal;
    }
    if terminals_for_task.len() == 0 {
        return SpawnStrategy::NewTerminal;
    }
    let last = terminals_for_task[terminals_for_task.len() - 1];
    if allow_concurrent_runs {
        SpawnStrategy::ReplaceNow { pane_id: last.1, item_index: last.0, item_id: last.2 }
    } else {
        SpawnStrategy::Deferred {
            spawn_new: use_new_terminal,
            pane_id: last.1,
            item_index: last.0,
            item_id: last.2,
        }
    }
}

/// The terminal reused for a task — the last entry after sorting — carries
/// the greatest item identifier among the matching terminals.
pub proof fn lemma_reused_terminal_is_newest(entries: Seq<TaskTerminalEntry>)
    requires
        entries.len() > 0,
        forall|i: int, j: int| 0 <= i < j < entries.len() ==> entries[i].2 <= entries[j].2,
    ensures
        forall|i: int| 0 <= i < entries.len() ==> entries[i].2 <= entries.last().2,
{
}

/// Two entry lists that hold the same terminals and are both sorted by item
/// identifier are the same list, as long as the identifiers are distinct —
/// which they are, being entity identifiers. So the contract of
/// `terminals_for_task` pins its result.
pub proof fn lemma_sorted_entries_unique(a: Seq<TaskTerminalEntry>, b: Seq<TaskTerminalEntry>)
    requires
        a.to_multiset() == b.to_multiset(),
        forall|i: int, j: int| 0 <= i < j < a.len() ==> a[i].2 <= a[j].2,
        forall|i: int, j: int| 0 <= i < j < b.len() ==> b[i].2 <= b[j].2,
        forall|i: int, j: int| 0 <= i < j < a.len() ==> a[i].2 != a[j].2,
    ensures
        a == b,
    decreases a.len(),
{
    a.to_multiset_ensures();
    b.to_multiset_ensures();
    if a.len() == 0 {
        assert(b.len() == 0);
        assert(a =~= b);
    } else {
        assert(a.len() == b.len());
        // The two heads carry each list's least identifier, so they agree.
        assert(a.contains(a[0]));
        assert(b.to_multiset().count(a[0]) > 0);
        assert(b.contains(a[0]));
        let j = choose|j: int| 0 <= j < b.len() && b[j] == a[0];
        if j > 0 {
            assert(b[0].2 <= b[j].2);
        }
        assert(b.contains(b[0]));
        assert(a.to_multiset().count(b[0]) > 0);
        assert(a.contains(b[0]));
        let i = choose|i: int| 0 <= i < a.len() && a[i] == b[0];
        if i > 0 {
            assert(a[0].2 <= a[i].2);
            assert(a[0].2 != a[i].2);
            assert(false);
        }
        assert(a[0] == b[0]);
        // The tails hold the same terminals, still sorted and distinct.
        let a1 = a.drop_first();
        let b1 = b.drop_first();
        assert(a.remove(0) =~= a1);
        assert(b.remove(0) =~= b1);
        assert(a.remove(0).to_multiset() =~= a.to_multiset().remove(a[0]));
        assert(b.remove(0).to_multiset() =~= b.to_multiset().remove(b[0]));
        assert(a1.to_multiset() == b1.to_multiset());
        assert(forall|p: int, q: int| 0 <= p < q < a1.len() ==> a1[p].2 <= a1[q].2) by {
            assert(forall|p: int| 0 <= p < a1.len() ==> a1[p] == a[p + 1]);
        }
        assert(forall|p: int, q: int| 0 <= p < q < b1.len() ==> b1[p].2 <= b1[q].2) by {
            assert(forall|p: int| 0 <= p < b1.len() ==> b1[p] == b[p + 1]);
        }
        assert(forall|p: int, q: int| 0 <= p < q < a1.len() ==> a1[p].2 != a1[q].2) by {
            assert(forall|p: int| 0 <= p < a1.len() ==> a1[p] == a[p + 1]);
        }
        lemma_sorted_entries_unique(a1, b1);
        assert forall|p: int| 0 <= p < a.len() implies a[p] == b[p] by {
            if p > 0 {
                assert(a1[p - 1] == b1[p - 1]);
            }
        }
        assert(a =~= b);
    }
}

/// What the workspace does once a task's terminal has been replaced,
/// depending on the task's reveal strategy and target.
#[derive(Clone, Copy, Debug, PartialEq, Eq, Structural)]
pub enum RevealEffect {
    /// Focus the workspace's active item.
    FocusCenterActiveItem,
    /// Activate the replaced terminal's tab with focus, then focus the
    /// panel.
    FocusDockItem { pane_id: u64, item_index: usize },
    /// Re-focus the workspace's active pane.
    FocusCenterActivePane,
    /// Activate the replaced terminal's tab without focus, then open the
    /// panel without focusing it.
    ShowDockItem { pane_id: u64, item_index: usize },
    /// Reveal nothing.
    Silent,
}

/// Decide what the workspace does once the terminal at `item_index` of the
/// pane `pane_id` has been given a task's fresh terminal.
pub fn reveal_effect(
    reveal: RevealStrategy,
    target: RevealTarget,
    pane_id: u64,
    item_index: usize,
) -> (r: RevealEffect)
    ensures
        r == match (reveal, target) {
            (RevealStrategy::Always, RevealTarget::Center) => RevealEffect::FocusCenterActiveItem,
            (RevealStrategy::Always, RevealTarget::Dock) => RevealEffect::FocusDockItem {
                pane_id,
                item_index,
            },
            (RevealStrategy::NoFocus, RevealTarget::Center) => RevealEffect::FocusCenterActivePane,
            (RevealStrategy::NoFocus, RevealTarget::Dock) => RevealEffect::ShowDockItem {
                pane_id,
                item_index,
            },
            (RevealStrategy::Never, _) => RevealEffect::Silent,
        },
{
    match (reveal, target) {
        (RevealStrategy::Always, RevealTarget::Center) => RevealEffect::FocusCenterActiveItem,
        (RevealStrategy::Always, RevealTarget::Dock) => RevealEffect::FocusDockItem {
            pane_id,
            item_index,
        },
        (RevealStrategy::NoFocus, RevealTarget::Center) => RevealEffect::FocusCenterActivePane,
        (RevealStrategy::NoFocus, RevealTarget::Dock) => RevealEffect::ShowDockItem {
            pane_id,
            item_index,
        },
        (RevealStrategy::Never, _) => RevealEffect::Silent,
    }
}

/// What kind of terminal is created in the project.
#[derive(Clone, Debug)]
pub enum TerminalKind {
    /// A plain shell, optionally in a given working directory.
    Shell(Option<String>),
    /// A terminal that runs a task.
    Task(SpawnInTerminal),
}

/// Where a fresh task terminal is placed.
#[derive(Clone, Copy, Debug, PartialEq, Eq, Structural)]
pub enum NewTerminalPlacement {
    /// In the workspace's central pane area.
    Center,
    /// In the panel's dock, revealed per the given strategy.
    Dock(RevealStrategy),
}

impl TerminalPanel {
    /// An explicit open-terminal action: a shell in the given working
    /// directory, revealed and focused.
    pub fn open_terminal(working_directory: String) -> (r: (TerminalKind, RevealStrategy))
        ensures
            r.0 == TerminalKind::Shell(Some(working_directory)),
            r.1 == RevealStrategy::Always,
    {
        (TerminalKind::Shell(Some(working_directory)), RevealStrategy::Always)
    }

    /// Turn a filled task spawn into the terminal to create and where it
    /// goes: the workspace centre, or this panel's dock revealed per the
    /// task's strategy.
    pub fn spawn_in_new_terminal(spawn_task: SpawnInTerminal) -> (r: (
        TerminalKind,
        NewTerminalPlacement,
    ))
        ensures
            r.0 == TerminalKind::Task(spawn_task),
            r.1 == match spawn_task.reveal_target {
                RevealTarget::Center => NewTerminalPlacement::Center,
                RevealTarget::Dock => NewTerminalPlacement::Dock(spawn_task.reveal),
            },
    {
        let placement = match spawn_task.reveal_target {
            RevealTarget::Center => NewTerminalPlacement::Center,
            RevealTarget::Dock => NewTerminalPlacement::Dock(spawn_task.reveal),
        };
        (TerminalKind::Task(spawn_task), placement)
    }
}

} // verus!
