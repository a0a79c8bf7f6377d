use vstd::prelude::*;
use crate::ordering::{stable_order, stable_order_of, is_stable_order};
use std::collections::{HashMap, HashSet};

verus! {

/// Opens the tab switcher, or cycles its selection when it is open.
#[derive(Clone, Copy, Debug, PartialEq, Eq, Structural, Default)]
pub struct Toggle {
    pub select_last: bool,
}

/// The keyboard modifiers held down.
#[derive(Clone, Copy, Debug, PartialEq, Eq, Structural, Default)]
pub struct Modifiers {
    pub control: bool,
    pub alt: bool,
    pub shift: bool,
    pub platform: bool,
    pub function: bool,
}

impl Modifiers {
    /// At least one modifier is held.
    pub open spec fn is_modified(self) -> bool {
        self.control || self.alt || self.shift || self.platform || self.function
    }

    /// Every modifier held in `self` is also held in `other`.
    pub open spec fn subset_of(self, other: Modifiers) -> bool {
        &&& self.control ==> other.control
        &&& self.alt ==> other.alt
        &&& self.shift ==> other.shift
        &&& self.platform ==> other.platform
        &&& self.function ==> other.function
    }

    /// Whether at least one modifier is held.
    pub fn modified(&self) -> (r: bool)
        ensures
            r == self.is_modified(),
    {
        self.control || self.alt || self.shift || self.platform || self.function
    }

    /// Whether every modifier held in `self` is held in `other`.
    pub fn is_subset_of(&self, other: &Modifiers) -> (r: bool)
        ensures
            r == self.subset_of(*other),
    {
        (!self.control || other.control) && (!self.alt || other.alt) && (!self.shift
            || other.shift) && (!self.platform || other.platform) && (!self.function
            || other.function)
    }
}

/// One tab of a pane, as the pane reports it.
#[derive(Clone, Copy, Debug, PartialEq, Eq, Structural)]
pub struct PaneItem {
    /// The item's entity id.
    pub item_id: u64,
    /// The item's project path, interned to an integer; `None` for items without a path.
    pub project_path: Option<u64>,
    /// How many path components the tab label needs to be told apart.
    pub detail: usize,
    /// The item is the pane's active preview item.
    pub preview: bool,
}

/// A tab offered by the switcher.
#[derive(Clone, Copy, Debug, PartialEq, Eq, Structural)]
pub struct TabMatch {
    /// The pane holding the tab.
    pub pane: u64,
    /// The tab's position among the tabs that were collected.
    pub item_index: usize,
    pub item_id: u64,
    pub project_path: Option<u64>,
    pub detail: usize,
    pub preview: bool,
}

/// The match built from the `index`-th item of `pane`.
pub open spec fn match_of(pane: u64, index: int, item: PaneItem) -> TabMatch {
    TabMatch {
        pane,
        item_index: index as usize,
        item_id: item.item_id,
        project_path: item.project_path,
        detail: item.detail,
        preview: item.preview,
    }
}

/// Index of the first occurrence of `id` in `s`, or -1.
pub open spec fn first_occurrence(s: Seq<u64>, id: u64) -> int
    decreases s.len(),
{
    if s.len() == 0 {
        -1
    } else {
        let r = first_occurrence(s.drop_last(), id);
        if r >= 0 {
            r
        } else if s.last() == id {
            s.len() - 1
        } else {
            -1
        }
    }
}

/// Number of distinct ids in `s`.
pub open spec fn distinct_count(s: Seq<u64>) -> nat
    decreases s.len(),
{
    if s.len() == 0 {
        0
    } else if s.drop_last().contains(s.last()) {
        distinct_count(s.drop_last())
    } else {
        distinct_count(s.drop_last()) + 1
    }
}

/// Sort score of a pane's tab: its rank in the activation history, most recent
/// first (an id listed more than once is ranked by its oldest entry); tabs
/// never activated come after all of those, in pane order.
pub open spec fn pane_score(history: Seq<u64>, item_id: u64, item_index: int) -> int {
    let k = first_occurrence(history, item_id);
    if k >= 0 {
        history.len() - 1 - k
    } else {
        item_index + distinct_count(history)
    }
}

/// The scores of the items of a pane, as sort keys.
pub open spec fn pane_keys(history: Seq<u64>, items: Seq<PaneItem>) -> Seq<u128> {
    Seq::new(items.len(), |i: int| pane_score(history, items[i].item_id, i) as u128)
}

/// The pane's tabs, ordered by most recent activation.
pub open spec fn pane_matches(pane: u64, history: Seq<u64>, items: Seq<PaneItem>) -> Seq<TabMatch> {
    let order = stable_order_of(pane_keys(history, items));
    Seq::new(items.len(), |i: int| match_of(pane, order[i] as int, items[order[i] as int]))
}

proof fn lemma_first_occurrence(s: Seq<u64>, id: u64, k: int)
    requires
        0 <= k <= s.len(),
        forall|t: int| 0 <= t < k ==> s[t] != id,
        k < s.len() ==> s[k] == id,
    ensures
        first_occurrence(s, id) == (if k < s.len() { k } else { -1 }),
    decreases s.len(),
{
    if s.len() > 0 {
        if k < s.len() - 1 {
            lemma_first_occurrence(s.drop_last(), id, k);
        } else if k == s.len() - 1 {
            lemma_first_occurrence(s.drop_last(), id, k);
        } else {
            lemma_first_occurrence(s.drop_last(), id, k - 1);
        }
    }
}

/// The number of distinct ids is the size of their set.
proof fn lemma_distinct_count_set(s: Seq<u64>)
    ensures
        s.to_set().finite(),
        distinct_count(s) == s.to_set().len(),
    decreases s.len(),
{
    broadcast use vstd::seq_lib::seq_to_set_is_finite;
    if s.len() > 0 {
        let init = s.drop_last();
        lemma_distinct_count_set(init);
        assert(s.to_set() =~= init.to_set().insert(s.last())) by {
            assert forall|a: u64| s.to_set().contains(a) == init.to_set().insert(s.last()).contains(a) by {
                if s.contains(a) {
                    let k = choose|k: int| 0 <= k < s.len() && s[k] == a;
                    if k < s.len() - 1 {
                        assert(init[k] == a);
                    }
                }
                if init.contains(a) {
                    let k = choose|k: int| 0 <= k < init.len() && init[k] == a;
                    assert(s[k] == a);
                }
            }
        }
        assert(init.contains(s.last()) == init.to_set().contains(s.last()));
    } else {
        assert(s.to_set() =~= Set::<u64>::empty());
    }
}

/// The history's ids mapped to their position counted from the most recent
/// entry, the oldest entry of an id winning, as the pane's history yields
/// them newest first into a map.
fn history_indices(history: &Vec<u64>) -> (m: HashMap<u64, usize>)
    ensures
        forall|id: u64| m@.contains_key(id) == (first_occurrence(history@, id) >= 0),
        forall|id: u64|
            #[trigger] m@.contains_key(id) ==> m@[id] == history@.len() - 1 - first_occurrence(history@, id),
        m@.len() == distinct_count(history@),
{
    broadcast use vstd::std_specs::hash::group_hash_axioms;
    let n = history.len();
    let mut m: HashMap<u64, usize> = HashMap::new();
    let mut t: usize = 0;
    while t < n
        invariant
            n == history@.len(),
            t <= n,
            forall|id: u64|
                m@.contains_key(id) == (exists|q: int| n - t <= q < n && #[trigger] history@[q] == id),
            forall|id: u64|
                #[trigger] m@.contains_key(id) ==> {
                    let q = n - 1 - m@[id];
                    &&& n - t <= q < n
                    &&& history@[q] == id
                    &&& forall|r: int| n - t <= r < q ==> history@[r] != id
                },
        decreases n - t,
    {
        let p = n - 1 - t;
        let id0 = history[p];
        m.insert(id0, t);
        proof {
            assert forall|id: u64|
                m@.contains_key(id) == (exists|q: int| n - (t + 1) <= q < n && #[trigger] history@[q] == id) by {
                if exists|q: int| n - (t + 1) <= q < n && #[trigger] history@[q] == id {
                    let q = choose|q: int| n - (t + 1) <= q < n && #[trigger] history@[q] == id;
                    if q != p {
                        assert(n - t <= q);
                    }
                }
            }
        }
        t = t + 1;
    }
    proof {
        assert forall|id: u64| m@.contains_key(id) == (first_occurrence(history@, id) >= 0) by {
            if m@.contains_key(id) {
                let q = n - 1 - m@[id];
                lemma_first_occurrence(history@, id, q);
            } else {
                assert forall|r: int| 0 <= r < n implies history@[r] != id by {
                    if history@[r] == id {
                        assert(exists|q: int| n - t <= q < n && #[trigger] history@[q] == id);
                    }
                }
                lemma_first_occurrence(history@, id, n as int);
            }
        }
        assert forall|id: u64|
            #[trigger] m@.contains_key(id) implies m@[id] == history@.len() - 1 - first_occurrence(history@, id) by {
            let q = n - 1 - m@[id];
            lemma_first_occurrence(history@, id, q);
        }
        lemma_distinct_count_set(history@);
        assert(m@.dom() =~= history@.to_set()) by {
            assert forall|id: u64| m@.dom().contains(id) == history@.to_set().contains(id) by {
                if history@.contains(id) {
                    let q = choose|q: int| 0 <= q < n && history@[q] == id;
                    assert(exists|q: int| n - t <= q < n && #[trigger] history@[q] == id);
                }
                if m@.contains_key(id) {
                    let q = choose|q: int| n - t <= q < n && #[trigger] history@[q] == id;
                    assert(history@.contains(id));
                }
            }
        }
    }
    m
}

/// What happens to the tab that becomes selected while the switcher is open.
#[derive(Clone, Copy, Debug, PartialEq, Eq, Structural)]
pub struct TabActivation {
    pub pane: u64,
    pub item_id: u64,
}

/// The index the switcher selects after its matches changed: the previously
/// selected tab if it is still listed; else, when a tab was selected, the old
/// index clamped to the list; else the last tab when asked to select it, the
/// second one when there are several, or the first.
pub open spec fn selected_index_rule(
    matches: Seq<TabMatch>,
    prev: Option<u64>,
    old_index: usize,
    select_last: bool,
    r: usize,
) -> bool {
    if matches.len() == 0 {
        r == 0
    } else {
        match prev {
            Some(id) => if exists|i: int| 0 <= i < matches.len() && #[trigger] matches[i].item_id == id {
                &&& r < matches.len()
                &&& matches[r as int].item_id == id
                &&& forall|j: int| 0 <= j < r ==> matches[j].item_id != id
            } else {
                r == (if old_index < matches.len() - 1 { old_index as int } else { matches.len() - 1 })
            },
            None => if select_last {
                r == matches.len() - 1
            } else if matches.len() > 1 {
                r == 1
            } else {
                r == 0
            },
        }
    }
}

/// After the matches change, the selection points at a listed tab whenever
/// there is one.
pub proof fn lemma_selection_in_bounds(
    matches: Seq<TabMatch>,
    prev: Option<u64>,
    old_index: usize,
    select_last: bool,
    r: usize,
)
    requires
        selected_index_rule(matches, prev, old_index, select_last, r),
        matches.len() > 0,
    ensures
        r < matches.len(),
{
}

/// When the selected tab is no longer listed, the selection keeps its
/// position: an index still inside the list stays as it was, and one past the
/// end moves to the last tab. It never moves anywhere else.
pub proof fn lemma_selection_keeps_position_when_tab_gone(
    matches: Seq<TabMatch>,
    prev_id: u64,
    old_index: usize,
    select_last: bool,
    r: usize,
)
    requires
        selected_index_rule(matches, Some(prev_id), old_index, select_last, r),
        matches.len() > 0,
        forall|j: int| 0 <= j < matches.len() ==> matches[j].item_id != prev_id,
    ensures
        old_index < matches.len() ==> r == old_index,
        old_index >= matches.len() ==> r == matches.len() - 1,
        r <= old_index,
{
}

/// When the selected tab is still listed, the selection follows it: the new
/// index points at that tab, at its first listing.
pub proof fn lemma_selection_follows_tab(
    matches: Seq<TabMatch>,
    prev_id: u64,
    old_index: usize,
    select_last: bool,
    r: usize,
    k: int,
)
    requires
        selected_index_rule(matches, Some(prev_id), old_index, select_last, r),
        0 <= k < matches.len(),
        matches[k].item_id == prev_id,
    ensures
        r < matches.len(),
        matches[r as int].item_id == prev_id,
        r <= k,
{
}

/// With no selection before (the switcher just opened), the last tab is
/// selected when the switcher selects the last, else the second tab when
/// there are two or more, else the only one.
pub proof fn lemma_selection_on_open(matches: Seq<TabMatch>, old_index: usize, select_last: bool, r: usize)
    requires
        selected_index_rule(matches, None, old_index, select_last, r),
        matches.len() > 0,
    ensures
        select_last ==> r + 1 == matches.len(),
        !select_last && matches.len() >= 2 ==> r == 1,
        !select_last && matches.len() == 1 ==> r == 0,
{
}

/// The first position in `matches` of the tab with item id `id`.
pub fn position_of_item(matches: &Vec<TabMatch>, id: u64) -> (r: Option<usize>)
    ensures
        match r {
            Some(i) => i < matches@.len() && matches@[i as int].item_id == id && forall|j: int|
                0 <= j < i ==> matches@[j].item_id != id,
            None => forall|j: int| 0 <= j < matches@.len() ==> matches@[j].item_id != id,
        },
{
    let n = matches.len();
    let mut i: usize = 0;
    while i < n
        invariant
            n == matches@.len(),
            i <= n,
            forall|j: int| 0 <= j < i ==> matches@[j].item_id != id,
        decreases n - i,
    {
        if matches[i].item_id == id {
            return Some(i);
        }
        i = i + 1;
    }
    None
}

/// The tabs of all panes, pane after pane, numbered in that order.
pub open spec fn flatten_panes(panes: Seq<(u64, Vec<PaneItem>)>) -> Seq<TabMatch>
    decreases panes.len(),
{
    if panes.len() == 0 {
        Seq::empty()
    } else {
        let before = flatten_panes(panes.drop_last());
        let (pane, items) = panes.last();
        before + Seq::new(
            items@.len(),
            |j: int| match_of(pane, before.len() + j, items@[j]),
        )
    }
}

/// The activation stamp recorded for `id`, if any.
pub open spec fn recency_of(recent: Map<u64, usize>, id: u64) -> Option<usize> {
    if recent.contains_key(id) {
        Some(recent[id])
    } else {
        None
    }
}

/// Sort key of a tab when all panes are listed: most recently activated first,
/// never activated last.
pub open spec fn recency_key(stamp: Option<usize>) -> u128 {
    match stamp {
        Some(t) => (usize::MAX - t) as u128,
        None => (usize::MAX as int + 1) as u128,
    }
}

/// Each key is the recency key of the corresponding tab.
pub open spec fn recency_keys(recent: Map<u64, usize>, all: Seq<TabMatch>) -> Seq<u128> {
    Seq::new(all.len(), |i: int| recency_key(recency_of(recent, all[i].item_id)))
}

/// The tabs of all panes, most recently activated first.
pub open spec fn by_recency(recent: Map<u64, usize>, all: Seq<TabMatch>) -> Seq<TabMatch> {
    let order = stable_order_of(recency_keys(recent, all));
    Seq::new(all.len(), |i: int| all[order[i] as int])
}

/// The tabs picked by the fuzzy matcher, in the order it ranked them.
pub open spec fn picked(all: Seq<TabMatch>, hits: Seq<usize>) -> Seq<TabMatch> {
    Seq::new(hits.len(), |i: int| all[hits[i] as int])
}

/// An earlier tab has the same project path as `m`.
pub open spec fn path_seen_before(before: Seq<TabMatch>, m: TabMatch) -> bool {
    m.project_path is Some && exists|j: int|
        0 <= j < before.len() && #[trigger] before[j].project_path == m.project_path
}

/// The tabs, keeping only the first tab of each project path; tabs without a
/// path are all kept.
pub open spec fn dedup_by_path(s: Seq<TabMatch>) -> Seq<TabMatch>
    decreases s.len(),
{
    if s.len() == 0 {
        s
    } else {
        let kept = dedup_by_path(s.drop_last());
        if path_seen_before(s.drop_last(), s.last()) {
            kept
        } else {
            kept.push(s.last())
        }
    }
}

/// Every tab kept by `dedup_by_path` comes from its input.
pub proof fn lemma_dedup_from_input(s: Seq<TabMatch>)
    ensures
        forall|i: int| 0 <= i < dedup_by_path(s).len() ==> s.contains(#[trigger] dedup_by_path(s)[i]),
    decreases s.len(),
{
    if s.len() > 0 {
        lemma_dedup_from_input(s.drop_last());
        let kept = dedup_by_path(s.drop_last());
        assert forall|i: int| 0 <= i < dedup_by_path(s).len() implies s.contains(#[trigger] dedup_by_path(s)[i]) by {
            if i < kept.len() {
                let x = kept[i];
                assert(s.drop_last().contains(x));
                let j = choose|j: int| 0 <= j < s.drop_last().len() && s.drop_last()[j] == x;
                assert(s[j] == x);
            } else {
                assert(s[s.len() - 1] == s.last());
            }
        }
    }
}

/// After deduplication no project path is listed twice.
pub proof fn lemma_dedup_paths_unique(s: Seq<TabMatch>)
    ensures
        forall|i: int, j: int|
            0 <= i < j < dedup_by_path(s).len() && (#[trigger] dedup_by_path(s)[i]).project_path is Some
                ==> dedup_by_path(s)[i].project_path != (#[trigger] dedup_by_path(s)[j]).project_path,
    decreases s.len(),
{
    if s.len() > 0 {
        lemma_dedup_paths_unique(s.drop_last());
        lemma_dedup_from_input(s.drop_last());
        let kept = dedup_by_path(s.drop_last());
        let r = dedup_by_path(s);
        assert forall|i: int, j: int|
            0 <= i < j < r.len() && (#[trigger] r[i]).project_path is Some implies r[i].project_path
                != (#[trigger] r[j]).project_path by {
            if j >= kept.len() {
                assert(r[j] == s.last());
                assert(!path_seen_before(s.drop_last(), s.last()));
                assert(r[i] == kept[i]);
                assert(s.drop_last().contains(kept[i]));
                let t = choose|t: int| 0 <= t < s.drop_last().len() && s.drop_last()[t] == kept[i];
                if r[i].project_path == r[j].project_path {
                    assert(s.drop_last()[t].project_path == s.last().project_path);
                }
            } else {
                assert(r[i] == kept[i] && r[j] == kept[j]);
            }
        }
    }
}

/// The project paths of the tabs in `s`.
pub open spec fn paths_in(s: Seq<TabMatch>) -> Set<u64> {
    Set::new(|p: u64| exists|t: int| 0 <= t < s.len() && #[trigger] s[t].project_path == Some(p))
}

/// Keeps the first tab of each project path, and every tab without one:
/// a tab stays when its path is first entered into the set of paths seen.
pub fn dedup_matches_by_path(s: &Vec<TabMatch>) -> (r: Vec<TabMatch>)
    ensures
        r@ == dedup_by_path(s@),
{
    broadcast use vstd::std_specs::hash::group_hash_axioms;
    let mut seen: HashSet<u64> = HashSet::new();
    let mut out: Vec<TabMatch> = Vec::new();
    let mut i: usize = 0;
    while i < s.len()
        invariant
            i <= s@.len(),
            out@ == dedup_by_path(s@.take(i as int)),
            seen@ == paths_in(s@.take(i as int)),
        decreases s@.len() - i,
    {
        let ghost pre = s@.take(i as int);
        let ghost next = s@.take(i + 1);
        proof {
            assert(next.drop_last() =~= pre);
            assert(next.last() == s@[i as int]);
        }
        let m = s[i];
        match m.project_path {
            None => {
                out.push(m);
            },
            Some(p) => {
                let fresh = seen.insert(p);
                proof {
                    if paths_in(pre).contains(p) {
                        let t = choose|t: int| 0 <= t < pre.len() && #[trigger] pre[t].project_path == Some(p);
                        assert(pre[t].project_path == m.project_path);
                    }
                    if path_seen_before(pre, m) {
                        let t = choose|t: int| 0 <= t < pre.len() && #[trigger] pre[t].project_path == m.project_path;
                        assert(paths_in(pre).contains(p));
                    }
                }
                if fresh {
                    out.push(m);
                }
            },
        }
        proof {
            assert forall|q: u64| seen@.contains(q) == paths_in(next).contains(q) by {
                if paths_in(next).contains(q) {
                    let t = choose|t: int| 0 <= t < next.len() && #[trigger] next[t].project_path == Some(q);
                    if t < i {
                        assert(pre[t] == next[t]);
                    }
                }
                if paths_in(pre).contains(q) {
                    let t = choose|t: int| 0 <= t < pre.len() && #[trigger] pre[t].project_path == Some(q);
                    assert(next[t] == pre[t]);
                }
                if m.project_path == Some(q) {
                    assert(next[i as int].project_path == Some(q));
                }
            }
            assert(seen@ =~= paths_in(next));
        }
        i = i + 1;
    }
    assert(s@.take(i as int) =~= s@);
    out
}

/// What the pane list update did.
#[derive(Clone, Copy, Debug, PartialEq, Eq, Structural)]
pub enum MatchesUpdate {
    /// The switcher lists all panes: the update is to be run later through
    /// `update_all_pane_matches`.
    DeferredToAllPanes,
    /// The matches were recomputed; the selection may have previewed a tab.
    Updated(Option<TabActivation>),
}

/// How a tab is closed from the switcher.
#[derive(Clone, Copy, Debug, PartialEq, Eq, Structural)]
pub enum CloseRequest {
    /// Close every tab of this project path, in all panes.
    ItemsWithPath { project_path: u64 },
    /// Close this item in this pane.
    PaneItem { pane: u64, item_id: u64 },
}

/// What confirming the selection asks for.
pub struct TabConfirm {
    /// Each pane to return to the item it had active when the switcher opened.
    pub restore: Vec<(u64, usize)>,
    /// The chosen tab.
    pub chosen: TabMatch,
    /// Open the chosen tab in the active pane, rather than activating it where it is.
    pub in_active_pane: bool,
}

/// How the chosen tab reaches the active pane.
#[derive(Clone, Copy, Debug, PartialEq, Eq, Structural)]
pub enum OpenInActivePane {
    /// The pane already holds the item: activate it there.
    Activate { pane: u64, index: usize },
    /// Clone the item into the pane.
    CloneInto { pane: u64 },
    /// Move the item from its pane to the end of this pane.
    MoveInto { from: u64, to: u64 },
    /// Nothing can be done.
    Nothing,
}

/// The pane that receives the chosen tab: the switcher's pane while the
/// workspace still has it, else the chosen tab's pane if it still exists.
pub open spec fn active_target_pane(
    own_pane: Option<u64>,
    workspace_panes: Seq<u64>,
    chosen_pane: Option<u64>,
) -> Option<u64> {
    match own_pane {
        Some(p) => if workspace_panes.contains(p) {
            Some(p)
        } else {
            chosen_pane
        },
        None => chosen_pane,
    }
}

/// Which pane receives the chosen tab when tabs open in the active pane.
/// `own_pane` is the switcher's pane if it still exists, `chosen_pane` the
/// chosen tab's pane if it still exists.
pub fn target_pane(own_pane: Option<u64>, workspace_panes: &Vec<u64>, chosen_pane: Option<u64>) -> (r:
    Option<u64>)
    ensures
        r == active_target_pane(own_pane, workspace_panes@, chosen_pane),
{
    match own_pane {
        Some(p) => {
            let mut i: usize = 0;
            while i < workspace_panes.len()
                invariant
                    own_pane == Some(p),
                    i <= workspace_panes@.len(),
                    forall|t: int| 0 <= t < i ==> workspace_panes@[t] != p,
                decreases workspace_panes@.len() - i,
            {
                if workspace_panes[i] == p {
                    assert(workspace_panes@[i as int] == p);
                    return Some(p);
                }
                i = i + 1;
            }
            chosen_pane
        },
        None => chosen_pane,
    }
}

/// How the chosen tab is opened in `current_pane`: activated where the pane
/// already holds it, cloned when it has a project path and can be split, else
/// moved over from its own pane if that still exists.
pub fn open_in_active_pane(
    current_pane: u64,
    index_in_current: Option<usize>,
    has_project_path: bool,
    can_split: bool,
    source_pane: Option<u64>,
) -> (r: OpenInActivePane)
    ensures
        r == (match index_in_current {
            Some(index) => OpenInActivePane::Activate { pane: current_pane, index },
            None => if has_project_path && can_split {
                OpenInActivePane::CloneInto { pane: current_pane }
            } else {
                match source_pane {
                    Some(from) => OpenInActivePane::MoveInto { from, to: current_pane },
                    None => OpenInActivePane::Nothing,
                }
            },
        }),
{
    match index_in_current {
        Some(index) => OpenInActivePane::Activate { pane: current_pane, index },
        None => {
            if has_project_path && can_split {
                OpenInActivePane::CloneInto { pane: current_pane }
            } else {
                match source_pane {
                    Some(from) => OpenInActivePane::MoveInto { from, to: current_pane },
                    None => OpenInActivePane::Nothing,
                }
            }
        },
    }
}

/// The item id of the tab at `index`, if there is one.
pub open spec fn item_at(matches: Seq<TabMatch>, index: usize) -> Option<u64> {
    if index < matches.len() {
        Some(matches[index as int].item_id)
    } else {
        None
    }
}

/// Recomputing the selection previews the newly selected tab exactly when no
/// tab was selected before, the rule picks the last or the second entry, and
/// tabs do not open in the active pane.
pub open spec fn selection_preview(
    matches: Seq<TabMatch>,
    prev: Option<u64>,
    select_last: bool,
    open_in_active_pane: bool,
    index: usize,
) -> Option<TabActivation> {
    if !open_in_active_pane && matches.len() > 0 && prev is None && (select_last || matches.len() > 1) {
        Some(TabActivation { pane: matches[index as int].pane, item_id: matches[index as int].item_id })
    } else {
        None
    }
}

/// A copy of `v`.
pub fn copy_vec<T: Copy>(v: &Vec<T>) -> (r: Vec<T>)
    ensures
        r@ == v@,
{
    let mut out: Vec<T> = Vec::new();
    let mut i: usize = 0;
    while i < v.len()
        invariant
            i <= v@.len(),
            out@ == v@.take(i as int),
        decreases v@.len() - i,
    {
        out.push(v[i]);
        assert(v@.take(i + 1) =~= v@.take(i as int).push(v@[i as int]));
        i = i + 1;
    }
    assert(v@.take(i as int) =~= v@);
    out
}

/// The tabs of one pane, most recently activated first.
pub fn order_pane_items(pane: u64, history: &Vec<u64>, items: &Vec<PaneItem>) -> (r: Vec<TabMatch>)
    ensures
        r@ == pane_matches(pane, history@, items@),
{
    let n = items.len();
    let indices = history_indices(history);
    let distinct = indices.len();
    proof {
        broadcast use vstd::std_specs::hash::group_hash_axioms;
    }
    let mut keys: Vec<u128> = Vec::new();
    let mut i: usize = 0;
    while i < n
        invariant
            n == items@.len(),
            distinct == distinct_count(history@),
            forall|id: u64| indices@.contains_key(id) == (first_occurrence(history@, id) >= 0),
            forall|id: u64|
                #[trigger] indices@.contains_key(id) ==> indices@[id] == history@.len() - 1 - first_occurrence(
                    history@,
                    id,
                ),
            i <= n,
            keys@.len() == i,
            forall|t: int| 0 <= t < i ==> keys@[t] == #[trigger] pane_keys(history@, items@)[t],
        decreases n - i,
    {
        broadcast use vstd::std_specs::hash::group_hash_axioms;
        let key: u128 = match indices.get(&items[i].item_id) {
            Some(k) => *k as u128,
            None => (i as u128) + (distinct as u128),
        };
        keys.push(key);
        i = i + 1;
    }
    assert(keys@ =~= pane_keys(history@, items@));
    let order = stable_order(&keys);
    let mut out: Vec<TabMatch> = Vec::new();
    let mut j: usize = 0;
    while j < n
        invariant
            n == items@.len(),
            keys@.len() == n,
            is_stable_order(keys@, order@),
            order@ == stable_order_of(pane_keys(history@, items@)),
            j <= n,
            out@.len() == j,
            forall|t: int| 0 <= t < j ==> out@[t] == #[trigger] pane_matches(pane, history@, items@)[t],
        decreases n - j,
    {
        let k = order[j];
        let it = items[k];
        out.push(
            TabMatch {
                pane,
                item_index: k,
                item_id: it.item_id,
                project_path: it.project_path,
                detail: it.detail,
                preview: it.preview,
            },
        );
        j = j + 1;
    }
    assert(out@ =~= pane_matches(pane, history@, items@));
    out
}

/// Number of tabs over all panes.
pub open spec fn total_items(panes: Seq<(u64, Vec<PaneItem>)>) -> nat
    decreases panes.len(),
{
    if panes.len() == 0 {
        0
    } else {
        total_items(panes.drop_last()) + panes.last().1@.len()
    }
}

proof fn lemma_flatten_len(panes: Seq<(u64, Vec<PaneItem>)>)
    ensures
        flatten_panes(panes).len() == total_items(panes),
    decreases panes.len(),
{
    if panes.len() > 0 {
        lemma_flatten_len(panes.drop_last());
    }
}

proof fn lemma_total_prefix(panes: Seq<(u64, Vec<PaneItem>)>, k: int)
    requires
        0 <= k <= panes.len(),
    ensures
        total_items(panes.take(k)) <= total_items(panes),
    decreases panes.len() - k,
{
    if k < panes.len() {
        lemma_total_prefix(panes, k + 1);
        assert(panes.take(k + 1).drop_last() =~= panes.take(k));
    } else {
        assert(panes.take(k) =~= panes);
    }
}

/// The tabs of all panes, pane after pane, numbered in that order.
pub fn collect_all_panes(panes: &Vec<(u64, Vec<PaneItem>)>) -> (r: Vec<TabMatch>)
    requires
        total_items(panes@) <= usize::MAX,
    ensures
        r@ == flatten_panes(panes@),
{
    let mut out: Vec<TabMatch> = Vec::new();
    let mut p: usize = 0;
    while p < panes.len()
        invariant
            p <= panes@.len(),
            total_items(panes@) <= usize::MAX,
            out@ == flatten_panes(panes@.take(p as int)),
        decreases panes@.len() - p,
    {
        let pane = panes[p].0;
        let items = &panes[p].1;
        proof {
            lemma_total_prefix(panes@, p + 1);
            lemma_flatten_len(panes@.take(p + 1));
            lemma_flatten_len(panes@.take(p as int));
            assert(panes@.take(p + 1).drop_last() =~= panes@.take(p as int));
            assert(panes@.take(p + 1).last() == panes@[p as int]);
        }
        let ghost before = out@;
        let mut j: usize = 0;
        while j < items.len()
            invariant
                j <= items@.len(),
                before.len() + items@.len() <= usize::MAX,
                out@.len() == before.len() + j,
                forall|t: int| 0 <= t < before.len() ==> out@[t] == before[t],
                forall|t: int| 0 <= t < j ==> #[trigger] out@[before.len() + t] == match_of(pane, before.len() + t, items@[t]),
            decreases items@.len() - j,
        {
            let it = items[j];
            out.push(
                TabMatch {
                    pane,
                    item_index: out.len(),
                    item_id: it.item_id,
                    project_path: it.project_path,
                    detail: it.detail,
                    preview: it.preview,
                },
            );
            j = j + 1;
        }
        proof {
            let target = flatten_panes(panes@.take(p + 1));
            assert forall|t: int| 0 <= t < target.len() implies out@[t] == #[trigger] target[t] by {
                if t >= before.len() {
                    let u = t - before.len();
                    assert(out@[before.len() + u] == match_of(pane, before.len() + u, items@[u]));
                }
            }
            assert(out@ =~= target);
        }
        p = p + 1;
    }
    assert(panes@.take(p as int) =~= panes@);
    out
}

/// The activation stamp recorded for `id`.
pub fn recency_lookup(recent: &HashMap<u64, usize>, id: u64) -> (r: Option<usize>)
    ensures
        r == recency_of(recent@, id),
{
    broadcast use vstd::std_specs::hash::group_hash_axioms;
    match recent.get(&id) {
        Some(t) => Some(*t),
        None => None,
    }
}

/// All tabs ordered most recently activated first.
pub fn order_by_recency(recent: &HashMap<u64, usize>, all: &Vec<TabMatch>) -> (r: Vec<TabMatch>)
    ensures
        r@ == by_recency(recent@, all@),
{
    let n = all.len();
    let mut keys: Vec<u128> = Vec::new();
    let mut i: usize = 0;
    while i < n
        invariant
            n == all@.len(),
            i <= n,
            keys@.len() == i,
            forall|t: int| 0 <= t < i ==> keys@[t] == #[trigger] recency_keys(recent@, all@)[t],
        decreases n - i,
    {
        let key: u128 = match recency_lookup(recent, all[i].item_id) {
            Some(t) => (usize::MAX - t) as u128,
            None => (usize::MAX as u128) + 1,
        };
        keys.push(key);
        i = i + 1;
    }
    assert(keys@ =~= recency_keys(recent@, all@));
    let order = stable_order(&keys);
    let mut out: Vec<TabMatch> = Vec::new();
    let mut j: usize = 0;
    while j < n
        invariant
            n == all@.len(),
            keys@.len() == n,
            is_stable_order(keys@, order@),
            order@ == stable_order_of(recency_keys(recent@, all@)),
            j <= n,
            out@.len() == j,
            forall|t: int| 0 <= t < j ==> out@[t] == #[trigger] by_recency(recent@, all@)[t],
        decreases n - j,
    {
        out.push(all[order[j]]);
        j = j + 1;
    }
    assert(out@ =~= by_recency(recent@, all@));
    out
}

/// The tabs the fuzzy matcher picked, in its order.
pub fn pick_hits(all: &Vec<TabMatch>, hits: &Vec<usize>) -> (r: Vec<TabMatch>)
    requires
        forall|i: int| 0 <= i < hits@.len() ==> #[trigger] hits@[i] < all@.len(),
    ensures
        r@ == picked(all@, hits@),
{
    let mut out: Vec<TabMatch> = Vec::new();
    let mut i: usize = 0;
    while i < hits.len()
        invariant
            forall|t: int| 0 <= t < hits@.len() ==> #[trigger] hits@[t] < all@.len(),
            i <= hits@.len(),
            out@.len() == i,
            forall|t: int| 0 <= t < i ==> out@[t] == #[trigger] picked(all@, hits@)[t],
        decreases hits@.len() - i,
    {
        out.push(all[hits[i]]);
        i = i + 1;
    }
    assert(out@ =~= picked(all@, hits@));
    out
}

/// The tab switcher's list of tabs and its selection.
pub struct TabSwitcherDelegate {
    pub select_last: bool,
    pub selected_index: usize,
    /// The pane the switcher lists when it does not list all panes.
    pub pane: u64,
    pub matches: Vec<TabMatch>,
    /// Each pane with the index of its active item when the switcher opened.
    pub original_items: Vec<(u64, usize)>,
    pub is_all_panes: bool,
    pub open_in_active_pane: bool,
    pub restored_items: bool,
}

impl TabSwitcherDelegate {
    /// A switcher with no matches yet, the first entry selected.
    pub fn new(
        select_last: bool,
        pane: u64,
        is_all_panes: bool,
        open_in_active_pane: bool,
        original_items: Vec<(u64, usize)>,
    ) -> (r: Self)
        ensures
            r.select_last == select_last,
            r.selected_index == 0,
            r.pane == pane,
            r.matches@.len() == 0,
            r.original_items@ == original_items@,
            r.is_all_panes == is_all_panes,
            r.open_in_active_pane == open_in_active_pane,
            !r.restored_items,
    {
        TabSwitcherDelegate {
            select_last,
            selected_index: 0,
            pane,
            matches: Vec::new(),
            original_items,
            is_all_panes,
            open_in_active_pane,
            restored_items: false,
        }
    }

    /// The hint of the empty query field.
    pub fn placeholder_text(&self) -> (r: &'static str)
        ensures
            r@ == "搜索所有标签页…"@,
    {
        "搜索所有标签页…"
    }

    /// The text shown when nothing matches.
    pub fn no_matches_text(&self) -> (r: Option<&'static str>)
        ensures
            r is Some && r->0@ == "无匹配标签页"@,
    {
        Some("无匹配标签页")
    }

    /// Number of listed tabs.
    pub fn match_count(&self) -> (r: usize)
        ensures
            r == self.matches@.len(),
    {
        self.matches.len()
    }

    /// The selected entry.
    pub fn selected_index(&self) -> (r: usize)
        ensures
            r == self.selected_index,
    {
        self.selected_index
    }

    /// The switcher draws no separators.
    pub fn separators_after_indices(&self) -> (r: Vec<usize>)
        ensures
            r@.len() == 0,
    {
        Vec::new()
    }

    /// The item id of the selected tab, if the selection points at one.
    pub fn selected_item_id(&self) -> (r: Option<u64>)
        ensures
            r == (if self.selected_index < self.matches@.len() {
                Some(self.matches@[self.selected_index as int].item_id)
            } else {
                None
            }),
    {
        if self.selected_index < self.matches.len() {
            Some(self.matches[self.selected_index].item_id)
        } else {
            None
        }
    }

    /// Selects entry `ix`. Unless tabs open in the active pane, the selected
    /// tab is previewed in its pane: the result names it.
    pub fn set_selected_index(&mut self, ix: usize) -> (r: Option<TabActivation>)
        ensures
            final(self).selected_index == ix,
            final(self).matches == old(self).matches,
            final(self).original_items == old(self).original_items,
            final(self).select_last == old(self).select_last,
            final(self).pane == old(self).pane,
            final(self).is_all_panes == old(self).is_all_panes,
            final(self).open_in_active_pane == old(self).open_in_active_pane,
            final(self).restored_items == old(self).restored_items,
            r == (if !old(self).open_in_active_pane && ix < old(self).matches@.len() {
                Some(
                    TabActivation {
                        pane: old(self).matches@[ix as int].pane,
                        item_id: old(self).matches@[ix as int].item_id,
                    },
                )
            } else {
                None
            }),
    {
        self.selected_index = ix;
        if !self.open_in_active_pane && ix < self.matches.len() {
            let m = self.matches[ix];
            Some(TabActivation { pane: m.pane, item_id: m.item_id })
        } else {
            None
        }
    }

    /// The index to select after the matches changed (see `selected_index_rule`);
    /// when it picks the last or the second entry it selects it, which may preview it.
    pub fn compute_selected_index(&mut self, prev_selected_item_id: Option<u64>) -> (r: (
        usize,
        Option<TabActivation>,
    ))
        ensures
            selected_index_rule(
                old(self).matches@,
                prev_selected_item_id,
                old(self).selected_index,
                old(self).select_last,
                r.0,
            ),
            final(self).matches == old(self).matches,
            final(self).original_items == old(self).original_items,
            final(self).select_last == old(self).select_last,
            final(self).pane == old(self).pane,
            final(self).is_all_panes == old(self).is_all_panes,
            final(self).open_in_active_pane == old(self).open_in_active_pane,
            final(self).restored_items == old(self).restored_items,
            r.1 == selection_preview(
                old(self).matches@,
                prev_selected_item_id,
                old(self).select_last,
                old(self).open_in_active_pane,
                r.0,
            ),
            final(self).selected_index == (if r.1 is Some || (old(self).matches@.len() > 0
                && prev_selected_item_id is None && (old(self).select_last || old(self).matches@.len() > 1)) {
                r.0
            } else {
                old(self).selected_index
            }),
    {
        let n = self.matches.len();
        if n == 0 {
            return (0, None);
        }
        match prev_selected_item_id {
            Some(id) => {
                match position_of_item(&self.matches, id) {
                    Some(i) => (i, None),
                    None => {
                        let r = if self.selected_index < n - 1 {
                            self.selected_index
                        } else {
                            n - 1
                        };
                        (r, None)
                    },
                }
            },
            None => {
                if self.select_last {
                    let last = n - 1;
                    let a = self.set_selected_index(last);
                    return (last, a);
                }
                if n > 1 {
                    let a = self.set_selected_index(1);
                    return (1, a);
                }
                (0, None)
            },
        }
    }

    /// Refills the list with the tabs of the switcher's pane, most recently
    /// activated first (`pane_items` is `None` when the pane is gone, which
    /// leaves the list empty), and reselects.
    pub fn update_matches(&mut self, pane_items: Option<Vec<PaneItem>>, activation_history: &Vec<u64>) -> (r:
        MatchesUpdate)
        ensures
            final(self).select_last == old(self).select_last,
            final(self).pane == old(self).pane,
            final(self).original_items == old(self).original_items,
            final(self).is_all_panes == old(self).is_all_panes,
            final(self).open_in_active_pane == old(self).open_in_active_pane,
            final(self).restored_items == old(self).restored_items,
            old(self).is_all_panes ==> r == MatchesUpdate::DeferredToAllPanes && final(self).matches@
                == old(self).matches@ && final(self).selected_index == old(self).selected_index,
            !old(self).is_all_panes && pane_items is None ==> r == MatchesUpdate::Updated(None)
                && final(self).matches@.len() == 0 && final(self).selected_index == old(self).selected_index,
            !old(self).is_all_panes && pane_items is Some ==> {
                let m = pane_matches(old(self).pane, activation_history@, pane_items->0@);
                let prev = item_at(old(self).matches@, old(self).selected_index);
                &&& final(self).matches@ == m
                &&& selected_index_rule(
                    m,
                    prev,
                    old(self).selected_index,
                    old(self).select_last,
                    final(self).selected_index,
                )
                &&& r == MatchesUpdate::Updated(
                    selection_preview(
                        m,
                        prev,
                        old(self).select_last,
                        old(self).open_in_active_pane,
                        final(self).selected_index,
                    ),
                )
            },
    {
        if self.is_all_panes {
            return MatchesUpdate::DeferredToAllPanes;
        }
        let prev = self.selected_item_id();
        self.matches = Vec::new();
        match pane_items {
            None => MatchesUpdate::Updated(None),
            Some(items) => {
                self.matches = order_pane_items(self.pane, activation_history, &items);
                let (index, preview) = self.compute_selected_index(prev);
                self.selected_index = index;
                MatchesUpdate::Updated(preview)
            },
        }
    }

    /// Refills the list with the tabs of all panes (`panes` is `None` when the
    /// workspace is gone, which changes nothing): with an empty query, most
    /// recently activated first; otherwise the tabs that the fuzzy matcher
    /// picked, in its order. When tabs open in the active pane, only the first
    /// tab of each project path stays. Then reselects.
    pub fn update_all_pane_matches(
        &mut self,
        panes: Option<Vec<(u64, Vec<PaneItem>)>>,
        query: &str,
        recently_activated: &HashMap<u64, usize>,
        fuzzy_hits: &Vec<usize>,
    ) -> (r: Option<TabActivation>)
        requires
            panes is Some ==> total_items(panes->0@) <= usize::MAX,
            panes is Some && query@.len() > 0 ==> forall|i: int|
                0 <= i < fuzzy_hits@.len() ==> #[trigger] fuzzy_hits@[i] < total_items(panes->0@),
        ensures
            final(self).select_last == old(self).select_last,
            final(self).pane == old(self).pane,
            final(self).original_items == old(self).original_items,
            final(self).is_all_panes == old(self).is_all_panes,
            final(self).open_in_active_pane == old(self).open_in_active_pane,
            final(self).restored_items == old(self).restored_items,
            panes is None ==> r is None && final(self).matches@ == old(self).matches@
                && final(self).selected_index == old(self).selected_index,
            panes is Some ==> {
                let all = flatten_panes(panes->0@);
                let listed = if query@.len() == 0 {
                    by_recency(recently_activated@, all)
                } else {
                    picked(all, fuzzy_hits@)
                };
                let m = if old(self).open_in_active_pane {
                    dedup_by_path(listed)
                } else {
                    listed
                };
                let prev = item_at(old(self).matches@, old(self).selected_index);
                &&& final(self).matches@ == m
                &&& selected_index_rule(
                    m,
                    prev,
                    old(self).selected_index,
                    old(self).select_last,
                    final(self).selected_index,
                )
                &&& r == selection_preview(
                    m,
                    prev,
                    old(self).select_last,
                    old(self).open_in_active_pane,
                    final(self).selected_index,
                )
            },
    {
        let panes = match panes {
            None => return None,
            Some(p) => p,
        };
        let all = collect_all_panes(&panes);
        proof {
            lemma_flatten_len(panes@);
        }
        let listed = if query.is_empty() {
            order_by_recency(recently_activated, &all)
        } else {
            pick_hits(&all, fuzzy_hits)
        };
        let matches = if self.open_in_active_pane {
            dedup_matches_by_path(&listed)
        } else {
            listed
        };
        let prev = self.selected_item_id();
        self.matches = matches;
        let (index, preview) = self.compute_selected_index(prev);
        self.selected_index = index;
        preview
    }

    /// Points the selection at the active item when it is listed.
    pub fn sync_selected_index(&mut self, active_item: Option<u64>)
        ensures
            final(self).matches == old(self).matches,
            final(self).select_last == old(self).select_last,
            final(self).pane == old(self).pane,
            final(self).original_items == old(self).original_items,
            final(self).is_all_panes == old(self).is_all_panes,
            final(self).open_in_active_pane == old(self).open_in_active_pane,
            final(self).restored_items == old(self).restored_items,
            match active_item {
                Some(id) => if exists|i: int| 0 <= i < old(self).matches@.len() && #[trigger] old(self).matches@[i].item_id == id {
                    &&& final(self).selected_index < old(self).matches@.len()
                    &&& old(self).matches@[final(self).selected_index as int].item_id == id
                    &&& forall|j: int| 0 <= j < final(self).selected_index ==> old(self).matches@[j].item_id != id
                } else {
                    final(self).selected_index == old(self).selected_index
                },
                None => final(self).selected_index == old(self).selected_index,
            },
    {
        if let Some(id) = active_item {
            if let Some(index) = position_of_item(&self.matches, id) {
                self.selected_index = index;
            }
        }
    }

    /// How to close the tab at `ix`, if it is listed: every tab of its project
    /// path when tabs open in the active pane and it has one, else the item in its pane.
    pub fn close_item_at(&self, ix: usize) -> (r: Option<CloseRequest>)
        ensures
            ix >= self.matches@.len() ==> r is None,
            ix < self.matches@.len() ==> {
                let m = self.matches@[ix as int];
                r == Some(
                    if self.open_in_active_pane && m.project_path is Some {
                        CloseRequest::ItemsWithPath { project_path: m.project_path->0 }
                    } else {
                        CloseRequest::PaneItem { pane: m.pane, item_id: m.item_id }
                    },
                )
            },
    {
        if ix >= self.matches.len() {
            return None;
        }
        let m = self.matches[ix];
        if self.open_in_active_pane {
            if let Some(project_path) = m.project_path {
                return Some(CloseRequest::ItemsWithPath { project_path });
            }
        }
        Some(CloseRequest::PaneItem { pane: m.pane, item_id: m.item_id })
    }

    /// Confirms the selected tab, if the selection points at one: every pane
    /// returns to the item it had active, then the chosen tab is opened.
    pub fn confirm(&mut self) -> (r: Option<TabConfirm>)
        ensures
            final(self).matches == old(self).matches,
            final(self).selected_index == old(self).selected_index,
            final(self).select_last == old(self).select_last,
            final(self).pane == old(self).pane,
            final(self).original_items == old(self).original_items,
            final(self).is_all_panes == old(self).is_all_panes,
            final(self).open_in_active_pane == old(self).open_in_active_pane,
            old(self).selected_index >= old(self).matches@.len() ==> r is None && final(self).restored_items == old(self).restored_items,
            old(self).selected_index < old(self).matches@.len() ==> {
                &&& final(self).restored_items
                &&& r is Some
                &&& r->0.restore@ == old(self).original_items@
                &&& r->0.chosen == old(self).matches@[old(self).selected_index as int]
                &&& r->0.in_active_pane == old(self).open_in_active_pane
            },
    {
        if self.selected_index >= self.matches.len() {
            return None;
        }
        let chosen = self.matches[self.selected_index];
        self.restored_items = true;
        Some(
            TabConfirm {
                restore: copy_vec(&self.original_items),
                chosen,
                in_active_pane: self.open_in_active_pane,
            },
        )
    }

    /// On dismissal the panes return to the items they had active, unless a
    /// confirmation already did so.
    pub fn dismissed(&self) -> (r: Option<Vec<(u64, usize)>>)
        ensures
            self.restored_items ==> r is None,
            !self.restored_items ==> r is Some && r->0@ == self.original_items@,
    {
        if self.restored_items {
            None
        } else {
            Some(copy_vec(&self.original_items))
        }
    }

    /// The selected row shows its close button; the others show their
    /// indicator, and the close button only on hover.
    pub fn shows_close_button(&self, ix: usize) -> (r: bool)
        ensures
            r == (self.selected_index == ix),
    {
        self.selected_index == ix
    }
}


/// What a change of the held modifiers does to a switcher opened with a
/// modifier held.
#[derive(Clone, Copy, Debug, PartialEq, Eq, Structural)]
pub enum ModifiersOutcome {
    /// Nothing happens.
    Nothing,
    /// The switcher closes: there is nothing to confirm.
    Dismiss,
    /// The selected tab is confirmed.
    Confirm,
}

/// The switcher's actions.
#[derive(Clone, Copy, Debug, PartialEq, Eq, Structural)]
pub enum SwitcherAction {
    Toggle(Toggle),
    /// Lists the tabs of all panes.
    ToggleAll,
    /// Lists the tabs of all panes once per path and opens the choice in the active pane.
    OpenInActivePane,
}

/// What an action does.
#[derive(Clone, Copy, Debug, PartialEq, Eq, Structural)]
pub enum SwitcherStep {
    /// The switcher is open: move the selection on.
    CycleSelection,
    /// Open the switcher.
    Open { select_last: bool, is_global: bool, open_in_active_pane: bool },
}

/// How diagnostics are shown on tab icons.
#[derive(Clone, Copy, Debug, PartialEq, Eq, Structural)]
pub enum ShowDiagnostics {
    Off,
    Errors,
    All,
}

/// The shapes drawn over an icon.
#[derive(Clone, Copy, Debug, PartialEq, Eq, Structural)]
pub enum IconDecorationKind {
    X,
    Dot,
    Triangle,
}

/// The tab switcher: its list and, when it was opened with a modifier held,
/// that modifier.
pub struct TabSwitcher {
    pub init_modifiers: Option<Modifiers>,
    pub delegate: TabSwitcherDelegate,
}

impl TabSwitcher {
    /// A switcher over `delegate`. Unless it lists all panes, it remembers the
    /// modifiers held when it opened, if any.
    pub fn new(delegate: TabSwitcherDelegate, is_global: bool, window_modifiers: Modifiers) -> (r:
        Self)
        ensures
            r.delegate == delegate,
            r.init_modifiers == (if !is_global && window_modifiers.is_modified() {
                Some(window_modifiers)
            } else {
                None
            }),
    {
        let init_modifiers = if is_global {
            None
        } else if window_modifiers.modified() {
            Some(window_modifiers)
        } else {
            None
        };
        TabSwitcher { init_modifiers, delegate }
    }

    /// Releasing the modifiers the switcher was opened with confirms the
    /// selection, or closes the switcher when it lists nothing; after that the
    /// modifiers are forgotten.
    pub fn handle_modifiers_changed(&mut self, event: Modifiers) -> (r: ModifiersOutcome)
        ensures
            final(self).delegate == old(self).delegate,
            match old(self).init_modifiers {
                None => r == ModifiersOutcome::Nothing && final(self).init_modifiers is None,
                Some(init) => if !event.is_modified() || !init.subset_of(event) {
                    &&& final(self).init_modifiers is None
                    &&& r == (if old(self).delegate.matches@.len() == 0 {
                        ModifiersOutcome::Dismiss
                    } else {
                        ModifiersOutcome::Confirm
                    })
                } else {
                    r == ModifiersOutcome::Nothing && final(self).init_modifiers == old(self).init_modifiers
                },
            },
    {
        let init = match self.init_modifiers {
            None => return ModifiersOutcome::Nothing,
            Some(m) => m,
        };
        if !event.modified() || !init.is_subset_of(&event) {
            self.init_modifiers = None;
            if self.delegate.matches.len() == 0 {
                ModifiersOutcome::Dismiss
            } else {
                ModifiersOutcome::Confirm
            }
        } else {
            ModifiersOutcome::Nothing
        }
    }

    /// How to close the selected tab.
    pub fn handle_close_selected_item(&self) -> (r: Option<CloseRequest>)
        ensures
            self.delegate.selected_index >= self.delegate.matches@.len() ==> r is None,
            self.delegate.selected_index < self.delegate.matches@.len() ==> {
                let m = self.delegate.matches@[self.delegate.selected_index as int];
                r == Some(
                    if self.delegate.open_in_active_pane && m.project_path is Some {
                        CloseRequest::ItemsWithPath { project_path: m.project_path->0 }
                    } else {
                        CloseRequest::PaneItem { pane: m.pane, item_id: m.item_id }
                    },
                )
            },
    {
        self.delegate.close_item_at(self.delegate.selected_index)
    }

    /// What an action does: an open switcher moves its selection on; otherwise
    /// the action opens one, listing one pane (`Toggle`) or all panes.
    pub fn register(action: SwitcherAction, already_open: bool) -> (r: SwitcherStep)
        ensures
            already_open ==> r == SwitcherStep::CycleSelection,
            !already_open ==> r == (match action {
                SwitcherAction::Toggle(t) => SwitcherStep::Open {
                    select_last: t.select_last,
                    is_global: false,
                    open_in_active_pane: false,
                },
                SwitcherAction::ToggleAll => SwitcherStep::Open {
                    select_last: false,
                    is_global: true,
                    open_in_active_pane: false,
                },
                SwitcherAction::OpenInActivePane => SwitcherStep::Open {
                    select_last: false,
                    is_global: true,
                    open_in_active_pane: true,
                },
            }),
    {
        if already_open {
            return SwitcherStep::CycleSelection;
        }
        match action {
            SwitcherAction::Toggle(t) => SwitcherStep::Open {
                select_last: t.select_last,
                is_global: false,
                open_in_active_pane: false,
            },
            SwitcherAction::ToggleAll => SwitcherStep::Open {
                select_last: false,
                is_global: true,
                open_in_active_pane: false,
            },
            SwitcherAction::OpenInActivePane => SwitcherStep::Open {
                select_last: false,
                is_global: true,
                open_in_active_pane: true,
            },
        }
    }

    /// The pane a new switcher lists: the workspace's active pane, unless a
    /// dock's focused panel has a pane (the left, bottom and right docks are
    /// asked in turn; the last that has one wins).
    pub fn open(active_pane: u64, focused_dock_panes: &Vec<Option<u64>>) -> (r: u64)
        ensures
            (forall|i: int| 0 <= i < focused_dock_panes@.len() ==> #[trigger] focused_dock_panes@[i] is None)
                ==> r == active_pane,
            forall|i: int|
                0 <= i < focused_dock_panes@.len() && #[trigger] focused_dock_panes@[i] is Some && (forall|j: int|
                    i < j < focused_dock_panes@.len() ==> focused_dock_panes@[j] is None) ==> r
                    == focused_dock_panes@[i]->0,
    {
        let mut pane = active_pane;
        let mut last: usize = 0;
        let mut found = false;
        let mut i: usize = 0;
        while i < focused_dock_panes.len()
            invariant
                i <= focused_dock_panes@.len(),
                !found ==> pane == active_pane && forall|t: int| 0 <= t < i ==> focused_dock_panes@[t] is None,
                found ==> last < i && focused_dock_panes@[last as int] == Some(pane) && forall|t: int|
                    last < t < i ==> focused_dock_panes@[t] is None,
            decreases focused_dock_panes@.len() - i,
        {
            if let Some(p) = focused_dock_panes[i] {
                pane = p;
                last = i;
                found = true;
            }
            i = i + 1;
        }
        proof {
            assert forall|k: int|
                0 <= k < focused_dock_panes@.len() && #[trigger] focused_dock_panes@[k] is Some && (forall|j: int|
                    k < j < focused_dock_panes@.len() ==> focused_dock_panes@[j] is None) implies pane
                    == focused_dock_panes@[k]->0 by {
                if found {
                    if k < last {
                        assert(focused_dock_panes@[last as int] is Some);
                    }
                }
            }
        }
        pane
    }
}

/// The most severe diagnostic of a tab's buffer (the lowest severity number),
/// unless diagnostics are not shown.
pub fn most_severe_diagnostic_level(show: ShowDiagnostics, severities: &Vec<i32>) -> (r: Option<i32>)
    ensures
        show == ShowDiagnostics::Off ==> r is None,
        show != ShowDiagnostics::Off ==> (r is None <==> severities@.len() == 0),
        r matches Some(v) ==> severities@.contains(v) && forall|i: int|
            0 <= i < severities@.len() ==> v <= #[trigger] severities@[i],
{
    if show == ShowDiagnostics::Off {
        return None;
    }
    if severities.len() == 0 {
        return None;
    }
    let mut best = severities[0];
    let mut i: usize = 1;
    while i < severities.len()
        invariant
            1 <= i <= severities@.len(),
            severities@.contains(best),
            forall|t: int| 0 <= t < i ==> best <= #[trigger] severities@[t],
        decreases severities@.len() - i,
    {
        if severities[i] < best {
            best = severities[i];
        }
        i = i + 1;
    }
    Some(best)
}

/// A warning triangle is dropped when only errors are shown; every other
/// decoration stays.
pub fn keep_diagnostic_decoration(kind: IconDecorationKind, show: ShowDiagnostics) -> (r: bool)
    ensures
        r == (kind != IconDecorationKind::Triangle || show != ShowDiagnostics::Errors),
{
    kind != IconDecorationKind::Triangle || show != ShowDiagnostics::Errors
}

/// The workspace events an open switcher listens to.
#[derive(Clone, Copy, Debug, PartialEq, Eq, Structural)]
pub enum WorkspaceChange {
    ItemAdded,
    PaneRemoved,
    ItemRemoved,
    /// Any other workspace event.
    Other,
}

/// What an open switcher does on a workspace event.
#[derive(Clone, Copy, Debug, PartialEq, Eq, Structural)]
pub struct ChangeResponse {
    /// Recompute the matches for the current query.
    pub refresh_matches: bool,
    /// Then point the selection at the active item (`sync_selected_index`).
    pub sync_selection: bool,
}

/// What an open switcher does on a workspace event: an added item or a
/// removed pane refreshes the list; a removed item refreshes it and then
/// resynchronizes the selection; anything else is ignored.
pub fn respond_to_workspace_change(change: WorkspaceChange) -> (r: ChangeResponse)
    ensures
        r.refresh_matches == (change != WorkspaceChange::Other),
        r.sync_selection == (change == WorkspaceChange::ItemRemoved),
{
    match change {
        WorkspaceChange::ItemAdded | WorkspaceChange::PaneRemoved => ChangeResponse {
            refresh_matches: true,
            sync_selection: false,
        },
        WorkspaceChange::ItemRemoved => ChangeResponse { refresh_matches: true, sync_selection: true },
        WorkspaceChange::Other => ChangeResponse { refresh_matches: false, sync_selection: false },
    }
}

/// A tab's icon takes the color of its file's git status exactly when the
/// git-status setting is on and the tab's project path has an entry in the
/// project.
pub fn uses_git_status_color(git_status_enabled: bool, has_project_entry: bool) -> (r: bool)
    ensures
        r == (git_status_enabled && has_project_entry),
{
    git_status_enabled && has_project_entry
}

} // verus!
