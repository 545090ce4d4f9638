//! The theme picker: a modal list of themes, light ones first and sorted by
//! name, filtered by a query, with live preview. Picking a theme keeps it;
//! leaving the picker any other way restores the theme it opened with.

use vstd::multiset::Multiset;
use vstd::prelude::*;

use crate::text::{lemma_lex_leq_total, lemma_lex_leq_transitive, lex_leq, str_eq, str_lex_leq};

verus! {

/// What a theme registry knows of one theme.
#[derive(Clone, Debug)]
pub struct ThemeMeta {
    /// The theme's name.
    pub name: String,
    /// Whether it is a light theme.
    pub is_light: bool,
}

/// A theme offered to the query matcher.
#[derive(Clone, Debug)]
pub struct StringMatchCandidate {
    /// The candidate's position in the theme list.
    pub id: usize,
    /// The theme's name.
    pub string: String,
}

/// One entry of the filtered theme list.
#[derive(Clone, Debug)]
pub struct StringMatch {
    /// The matched candidate's identifier.
    pub candidate_id: usize,
    /// The theme's name.
    pub string: String,
    /// The character positions the query matched, for highlighting.
    pub positions: Vec<usize>,
}

/// What the picker tells the workspace.
#[derive(Clone, Copy, Debug, PartialEq, Eq, Structural)]
pub enum Event {
    /// The picker is done and its modal should close.
    Dismissed,
}

/// The order of the theme list: light themes before dark ones, and by name
/// within each group.
pub open spec fn theme_leq(a: ThemeMeta, b: ThemeMeta) -> bool {
    if a.is_light != b.is_light {
        a.is_light
    } else {
        lex_leq(a.name@, b.name@)
    }
}

/// The theme-list order relates every pair of themes, one way or the other.
pub proof fn lemma_theme_leq_total(a: ThemeMeta, b: ThemeMeta)
    ensures
        theme_leq(a, b) || theme_leq(b, a),
{
    if a.is_light == b.is_light {
        lemma_lex_leq_total(a.name@, b.name@);
    }
}

/// The theme-list order is transitive.
pub proof fn lemma_theme_leq_transitive(a: ThemeMeta, b: ThemeMeta, c: ThemeMeta)
    requires
        theme_leq(a, b),
        theme_leq(b, c),
    ensures
        theme_leq(a, c),
{
    if a.is_light == b.is_light && b.is_light == c.is_light {
        lemma_lex_leq_transitive(a.name@, b.name@, c.name@);
    }
}

/// Compare two themes in the theme list's order.
fn theme_leq_exec(a: &ThemeMeta, b: &ThemeMeta) -> (r: bool)
    ensures
        r == theme_leq(*a, *b),
{
    if a.is_light != b.is_light {
        a.is_light
    } else {
        str_lex_leq(a.name.as_str(), b.name.as_str())
    }
}

/// Sort themes for the picker's list: light themes first, then by name.
/// The result holds exactly the given themes.
pub fn sort_theme_metas(themes: Vec<ThemeMeta>) -> (r: Vec<ThemeMeta>)
    ensures
        r@.to_multiset() == themes@.to_multiset(),
        r@.len() == themes@.len(),
        forall|i: int, j: int| 0 <= i < j < r@.len() ==> theme_leq(r@[i], r@[j]),
{
    broadcast use vstd::seq_lib::group_to_multiset_ensures;
    broadcast use vstd::seq_lib::to_multiset_insert;

    let mut rest = themes;
    let mut sorted_list: Vec<ThemeMeta> = Vec::new();
    proof {
        assert(sorted_list@.to_multiset() =~= Multiset::<ThemeMeta>::empty());
        assert(sorted_list@.to_multiset().add(rest@.to_multiset()) =~= themes@.to_multiset());
    }
    while rest.len() > 0
        invariant
            sorted_list@.to_multiset().add(rest@.to_multiset()) == themes@.to_multiset(),
            sorted_list@.len() + rest@.len() == themes@.len(),
            forall|i: int, j: int|
                0 <= i < j < sorted_list@.len() ==> theme_leq(sorted_list@[i], sorted_list@[j]),
        decreases rest@.len(),
    {
        let ghost rest_before = rest@;
        let t = rest.remove(0);
        let mut k: usize = 0;
        while k < sorted_list.len() && theme_leq_exec(&sorted_list[k], &t)
            invariant
                k <= sorted_list@.len(),
                forall|j: int| 0 <= j < k ==> theme_leq(#[trigger] sorted_list@[j], t),
                forall|i: int, j: int|
                    0 <= i < j < sorted_list@.len() ==> theme_leq(
                        sorted_list@[i],
                        sorted_list@[j],
                    ),
            decreases sorted_list@.len() - k,
        {
            k = k + 1;
        }
        proof {
            if k < sorted_list@.len() {
                lemma_theme_leq_total(sorted_list@[k as int], t);
            }
        }
        let ghost sorted_before = sorted_list@;
        let ghost kk: int = k as int;
        sorted_list.insert(k, t);
        proof {
            assert forall|i: int, j: int|
                0 <= i < j < sorted_list@.len() implies theme_leq(
                sorted_list@[i],
                sorted_list@[j],
            ) by {
                let vi = sorted_list@[i];
                let vj = sorted_list@[j];
                if i != kk && j != kk {
                    let oi = if i < kk {
                        i
                    } else {
                        i - 1
                    };
                    let oj = if j < kk {
                        j
                    } else {
                        j - 1
                    };
                    assert(vi == sorted_before[oi]);
                    assert(vj == sorted_before[oj]);
                } else if i == kk && j > kk {
                    assert(vj == sorted_before[j - 1]);
                    if kk < sorted_before.len() {
                        assert(!theme_leq(sorted_before[kk], t));
                        lemma_theme_leq_total(sorted_before[kk], t);
                        if j - 1 > kk {
                            lemma_theme_leq_transitive(t, sorted_before[kk], sorted_before[j - 1]);
                        }
                    }
                } else if j == kk {
                    assert(vi == sorted_before[i]);
                    assert(theme_leq(sorted_before[i], t));
                }
            }
            assert(sorted_list@.to_multiset().add(rest@.to_multiset()) =~= themes@.to_multiset())
                by {
                vstd::seq_lib::to_multiset_insert(sorted_before, kk, t);
                assert(sorted_list@ == sorted_before.insert(kk, t));
                rest_before.to_multiset_ensures();
                assert(rest@ == rest_before.remove(0));
                assert(rest_before[0] == t);
                assert(rest@.to_multiset() == rest_before.to_multiset().remove(t));
                assert(rest_before.to_multiset().count(t) > 0) by {
                    assert(rest_before.contains(t)) by {
                        assert(rest_before[0] == t);
                    }
                }
            }
        }
    }
    proof {
        assert(rest@.to_multiset() =~= Multiset::<ThemeMeta>::empty());
        assert(sorted_list@.to_multiset().add(Multiset::<ThemeMeta>::empty())
            =~= sorted_list@.to_multiset());
    }
    sorted_list
}

/// The theme picker's state.
#[derive(Clone, Debug)]
pub struct ThemeSelector {
    /// The themes offered, light ones first, sorted by name.
    pub theme_data: Vec<ThemeMeta>,
    /// The entries of the filtered list currently shown.
    pub matches: Vec<StringMatch>,
    /// The name of the theme in use when the picker opened.
    pub original_theme_name: String,
    /// Whether a selection has been confirmed (or dismissal handled).
    pub selection_completed: bool,
    /// Index of the highlighted entry.
    pub selected_index: usize,
}

/// The matches shown before any query is typed: every theme, in list order,
/// with nothing highlighted. Each entry's candidate id is 0, as the picker
/// fills it only for real query matches.
pub open spec fn initial_matches_ok(themes: Seq<ThemeMeta>, matches: Seq<StringMatch>) -> bool {
    &&& matches.len() == themes.len()
    &&& forall|i: int|
        0 <= i < themes.len() ==> {
            let m = #[trigger] matches[i];
            &&& m.candidate_id == 0
            &&& m.string@ == themes[i].name@
            &&& m.positions@.len() == 0
        }
}

/// The first index among the matches whose name is `name`; `fallback` when
/// none matches.
pub open spec fn index_of_match(matches: Seq<StringMatch>, name: Seq<char>, fallback: int) -> int
    decreases matches.len(),
{
    if matches.len() == 0 {
        fallback
    } else if matches[0].string@ == name {
        0
    } else {
        let rest = index_of_match(matches.drop_first(), name, fallback - 1);
        if rest == fallback - 1 {
            fallback
        } else {
            rest + 1
        }
    }
}

impl ThemeSelector {
    /// The selector is well formed when the highlighted index points at a
    /// match, or at 0 while no query match exists.
    pub open spec fn wf(self) -> bool {
        self.matches@.len() == 0 || self.selected_index < self.matches@.len()
    }

    /// Open the picker over the given themes, remembering the theme in use:
    /// the list holds every theme, light ones first and sorted by name, no
    /// entry highlighted for a query, and the current theme selected where
    /// it appears in the list.
    pub fn new(themes: Vec<ThemeMeta>, original_theme_name: String) -> (r: ThemeSelector)
        ensures
            r.wf(),
            r.theme_data@.to_multiset() == themes@.to_multiset(),
            r.theme_data@.len() == themes@.len(),
            forall|i: int, j: int|
                0 <= i < j < r.theme_data@.len() ==> theme_leq(r.theme_data@[i], r.theme_data@[j]),
            initial_matches_ok(r.theme_data@, r.matches@),
            r.original_theme_name@ == original_theme_name@,
            !r.selection_completed,
            r.selected_index == index_of_match(r.matches@, original_theme_name@, 0),
    {
        let theme_data = sort_theme_metas(themes);
        let mut matches: Vec<StringMatch> = Vec::new();
        let mut i: usize = 0;
        while i < theme_data.len()
            invariant
                i <= theme_data@.len(),
                matches@.len() == i,
                forall|j: int|
                    0 <= j < i ==> {
                        let m = #[trigger] matches@[j];
                        &&& m.candidate_id == 0
                        &&& m.string@ == theme_data@[j].name@
                        &&& m.positions@.len() == 0
                    },
            decreases theme_data@.len() - i,
        {
            let name = theme_data[i].name.clone();
            matches.push(StringMatch { candidate_id: 0, string: name, positions: Vec::new() });
            i = i + 1;
        }
        let mut this = ThemeSelector {
            theme_data,
            matches,
            original_theme_name,
            selection_completed: false,
            selected_index: 0,
        };
        let original = this.original_theme_name.clone();
        this.select_if_matching(original.as_str());
        this
    }

    /// Highlight the first entry whose name is `theme_name`; where none
    /// matches, the highlight stays put.
    pub fn select_if_matching(&mut self, theme_name: &str)
        requires
            old(self).wf(),
        ensures
            final(self).wf(),
            final(self).selected_index == index_of_match(
                old(self).matches@,
                theme_name@,
                old(self).selected_index as int,
            ),
            final(self).theme_data@ == old(self).theme_data@,
            final(self).matches@ == old(self).matches@,
            final(self).original_theme_name@ == old(self).original_theme_name@,
            final(self).selection_completed == old(self).selection_completed,
    {
        let mut i: usize = 0;
        while i < self.matches.len()
            invariant
                i <= self.matches@.len(),
                self == old(self),
                forall|j: int| 0 <= j < i ==> (#[trigger] self.matches@[j]).string@ != theme_name@,
            decreases self.matches@.len() - i,
        {
            if str_eq(self.matches[i].string.as_str(), theme_name) {
                proof {
                    lemma_index_of_match_found(old(self).matches@, theme_name@, old(self).selected_index as int, i as int);
                    
                }
                self.selected_index = i;
                return ;
            }
            i = i + 1;
        }
        proof {
            lemma_index_of_match_missing(old(self).matches@, theme_name@, old(self).selected_index as int);
        }
    }

    /// How many entries the filtered list shows.
    pub fn match_count(&self) -> (r: usize)
        ensures
            r == self.matches@.len(),
    {
        self.matches.len()
    }

    /// The highlighted entry's index.
    pub fn selected_index(&self) -> (r: usize)
        ensures
            r == self.selected_index,
    {
        self.selected_index
    }

    /// The name of the theme the highlight sits on, to be previewed and
    /// persisted; nothing while the filtered list is empty.
    pub fn selected_theme_name(&self) -> (r: Option<String>)
        ensures
            match r {
                Some(name) => self.selected_index < self.matches@.len() && name@
                    == self.matches@[self.selected_index as int].string@,
                None => self.selected_index >= self.matches@.len(),
            },
    {
        if self.selected_index < self.matches.len() {
            Some(self.matches[self.selected_index].string.clone())
        } else {
            None
        }
    }

    /// Move the highlight to `ix`; the caller then previews the theme the
    /// highlight sits on.
    pub fn set_selected_index(&mut self, ix: usize)
        requires
            old(self).matches@.len() == 0 && ix == 0 || ix < old(self).matches@.len(),
        ensures
            final(self).wf(),
            final(self).selected_index == ix,
            final(self).theme_data@ == old(self).theme_data@,
            final(self).matches@ == old(self).matches@,
            final(self).original_theme_name@ == old(self).original_theme_name@,
            final(self).selection_completed == old(self).selection_completed,
    {
        self.selected_index = ix;
    }

    /// Keep the previewed theme: the selection is complete and the modal
    /// closes.
    pub fn confirm(&mut self) -> (e: Event)
        ensures
            final(self).selection_completed,
            final(self).theme_data@ == old(self).theme_data@,
            final(self).matches@ == old(self).matches@,
            final(self).original_theme_name@ == old(self).original_theme_name@,
            final(self).selected_index == old(self).selected_index,
            e == Event::Dismissed,
    {
        self.selection_completed = true;
        Event::Dismissed
    }

    /// Leave the picker without keeping the preview: the theme to restore
    /// is returned exactly when no selection was completed, and the modal
    /// closes.
    pub fn dismiss(&mut self) -> (r: (Option<String>, Event))
        ensures
            final(self).selection_completed,
            match r.0 {
                Some(name) => !old(self).selection_completed && name@ == old(
                    self,
                ).original_theme_name@,
                None => old(self).selection_completed,
            },
            r.1 == Event::Dismissed,
            final(self).theme_data@ == old(self).theme_data@,
            final(self).matches@ == old(self).matches@,
            final(self).original_theme_name@ == old(self).original_theme_name@,
            final(self).selected_index == old(self).selected_index,
    {
        if !self.selection_completed {
            self.selection_completed = true;
            (Some(self.original_theme_name.clone()), Event::Dismissed)
        } else {
            (None, Event::Dismissed)
        }
    }

    /// When the picker is dropped, the theme to restore is returned exactly
    /// when no selection was completed.
    pub fn release(&self) -> (r: Option<String>)
        ensures
            match r {
                Some(name) => !self.selection_completed && name@ == self.original_theme_name@,
                None => self.selection_completed,
            },
    {
        if !self.selection_completed {
            Some(self.original_theme_name.clone())
        } else {
            None
        }
    }

    /// The candidates handed to the query matcher: one per theme, numbered
    /// by position.
    pub fn candidates(&self) -> (r: Vec<StringMatchCandidate>)
        ensures
            r@.len() == self.theme_data@.len(),
            forall|i: int|
                0 <= i < r@.len() ==> {
                    let c = #[trigger] r@[i];
                    &&& c.id == i
                    &&& c.string@ == self.theme_data@[i].name@
                },
    {
        let mut r: Vec<StringMatchCandidate> = Vec::new();
        let mut i: usize = 0;
        while i < self.theme_data.len()
            invariant
                i <= self.theme_data@.len(),
                r@.len() == i,
                forall|j: int|
                    0 <= j < i ==> {
                        let c = #[trigger] r@[j];
                        &&& c.id == j
                        &&& c.string@ == self.theme_data@[j].name@
                    },
            decreases self.theme_data@.len() - i,
        {
            r.push(StringMatchCandidate { id: i, string: self.theme_data[i].name.clone() });
            i = i + 1;
        }
        r
    }

    /// The matches shown for an empty query: every candidate, in order,
    /// with nothing highlighted.
    pub fn empty_query_matches(candidates: Vec<StringMatchCandidate>) -> (r: Vec<StringMatch>)
        ensures
            r@.len() == candidates@.len(),
            forall|i: int|
                0 <= i < r@.len() ==> {
                    let m = #[trigger] r@[i];
                    &&& m.candidate_id == i
                    &&& m.string@ == candidates@[i].string@
                    &&& m.positions@.len() == 0
                },
    {
        let mut r: Vec<StringMatch> = Vec::new();
        let mut i: usize = 0;
        while i < candidates.len()
            invariant
                i <= candidates@.len(),
                r@.len() == i,
                forall|j: int|
                    0 <= j < i ==> {
                        let m = #[trigger] r@[j];
                        &&& m.candidate_id == j
                        &&& m.string@ == candidates@[j].string@
                        &&& m.positions@.len() == 0
                    },
            decreases candidates@.len() - i,
        {
            let c = &candidates[i];
            r.push(StringMatch { candidate_id: i, string: c.string.clone(), positions: Vec::new() });
            i = i + 1;
        }
        r
    }

    /// Show a fresh list of matches — the query matcher's answer, or the
    /// empty-query list — and clamp the highlight to it.
    pub fn apply_matches(&mut self, matches: Vec<StringMatch>)
        ensures
            final(self).wf(),
            final(self).matches@ == matches@,
            final(self).selected_index == if old(self).selected_index as int <= matches@.len() - 1 {
                old(self).selected_index as int
            } else if matches@.len() == 0 {
                0int
            } else {
                matches@.len() - 1
            },
            final(self).theme_data@ == old(self).theme_data@,
            final(self).original_theme_name@ == old(self).original_theme_name@,
            final(self).selection_completed == old(self).selection_completed,
    {
        let limit: usize = if matches.len() == 0 {
            0
        } else {
            matches.len() - 1
        };
        self.matches = matches;
        if self.selected_index > limit {
            self.selected_index = limit;
        }
    }
}

/// What a registry reload does to the theme in use.
#[derive(Clone, Debug)]
pub enum ReloadOutcome {
    /// Apply the freshly loaded theme of this name.
    Apply(String),
    /// The theme of this name failed to load; keep what is shown and report
    /// the failure.
    Keep(String),
}

impl ThemeSelector {
    /// After the theme registry is cleared and reloaded, the theme in use is
    /// looked up again by name: it is applied afresh where the lookup
    /// succeeded, else kept as it is and the failure reported.
    pub fn reload(current_theme_name: String, lookup_succeeded: bool) -> (r: ReloadOutcome)
        ensures
            r == if lookup_succeeded {
                ReloadOutcome::Apply(current_theme_name)
            } else {
                ReloadOutcome::Keep(current_theme_name)
            },
    {
        if lookup_succeeded {
            ReloadOutcome::Apply(current_theme_name)
        } else {
            ReloadOutcome::Keep(current_theme_name)
        }
    }
}

/// Where the name is found, `index_of_match` names its first occurrence.
proof fn lemma_index_of_match_found(
    matches: Seq<StringMatch>,
    name: Seq<char>,
    fallback: int,
    i: int,
)
    requires
        0 <= i < matches.len(),
        matches[i].string@ == name,
        forall|j: int| 0 <= j < i ==> (#[trigger] matches[j]).string@ != name,
    ensures
        index_of_match(matches, name, fallback) == i,
    decreases i,
{
    if i > 0 {
        lemma_index_of_match_found(matches.drop_first(), name, fallback - 1, i - 1);
    }
}

/// Where the name is missing, `index_of_match` gives the fallback.
proof fn lemma_index_of_match_missing(matches: Seq<StringMatch>, name: Seq<char>, fallback: int)
    requires
        forall|j: int| 0 <= j < matches.len() ==> (#[trigger] matches[j]).string@ != name,
    ensures
        index_of_match(matches, name, fallback) == fallback,
    decreases matches.len(),
{
    if matches.len() > 0 {
        lemma_index_of_match_missing(matches.drop_first(), name, fallback - 1);
    }
}


} // verus!
