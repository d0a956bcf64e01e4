//! The pane layout: a binary split tree whose leaves are panes, each pane
//! bound to one data category and one owned snapshot. The tree supports
//! split, close and resize; the container in `view` keeps the leaf count
//! between one and two.
use vstd::prelude::*;

use crate::snapshot::{snapshot_wf, AllData};

verus! {

/// The data category a pane can be bound to; `Empty` is the unbound state.
#[derive(Clone, Copy, Debug, PartialEq)]
pub enum TypeData {
    Cpu,
    Gpu,
    Dram,
    Ram,
    Os,
    Network,
    Empty,
}

/// One display unit: a category selector and an owned snapshot captured
/// when the pane was made.
#[derive(Clone, Debug)]
pub struct Pane {
    pub data: AllData,
    pub type_data: TypeData,
}

impl Pane {
    /// A pane bound to the given category, holding a fresh snapshot.
    pub fn new(type_data: TypeData) -> (r: Pane)
        ensures
            r.type_data == type_data,
            snapshot_wf(r.data),
    {
        Pane { data: AllData::new(), type_data }
    }
}

/// The error for a message that names a pane or split not in the tree.
#[derive(Clone, Copy, Debug, PartialEq, Eq)]
pub enum PaneError {
    InvalidPaneReference,
}

/// The axis along which a split divides its region.
#[derive(Clone, Copy, Debug, PartialEq, Eq)]
pub enum Axis {
    Horizontal,
    Vertical,
}

/// A resize ratio in thousandths of the whole span, given to the first
/// child of the split; stored ratios are always clamped to this range.
pub const RATIO_UNIT: u32 = 1000;

/// Clamps a requested ratio into the stored range: anything below zero
/// becomes zero, anything above one full unit becomes one full unit.
pub open spec fn clamp_ratio(r: i64) -> u32 {
    if r < 0 {
        0
    } else if r > RATIO_UNIT {
        RATIO_UNIT
    } else {
        r as u32
    }
}

/// Clamps a requested ratio into the stored range.
pub fn clamp_ratio_exec(r: i64) -> (c: u32)
    ensures
        c == clamp_ratio(r),
        c <= RATIO_UNIT,
{
    if r < 0 {
        0
    } else if r > 1000 {
        1000
    } else {
        r as u32
    }
}

/// The layout tree: a leaf is one pane, a split holds an axis, a ratio and
/// two subtrees. Leaves and splits carry identities from one namespace.
pub enum PaneTree {
    Leaf { id: u64, pane: Pane },
    Split { id: u64, axis: Axis, ratio: u32, left: Box<PaneTree>, right: Box<PaneTree> },
}

impl PaneTree {
    /// How many panes the tree shows.
    pub open spec fn leaf_count(self) -> nat
        decreases self,
    {
        match self {
            PaneTree::Leaf { .. } => 1,
            PaneTree::Split { left, right, .. } => left.leaf_count() + right.leaf_count(),
        }
    }

    /// Whether some pane in the tree has this identity.
    pub open spec fn contains_leaf(self, x: u64) -> bool
        decreases self,
    {
        match self {
            PaneTree::Leaf { id, .. } => id == x,
            PaneTree::Split { left, right, .. } => left.contains_leaf(x) || right.contains_leaf(x),
        }
    }

    /// Whether some split in the tree has this identity.
    pub open spec fn contains_split(self, x: u64) -> bool
        decreases self,
    {
        match self {
            PaneTree::Leaf { .. } => false,
            PaneTree::Split { id, left, right, .. } => id == x || left.contains_split(x)
                || right.contains_split(x),
        }
    }

    /// Every identity in the tree, leaves and splits together.
    pub open spec fn id_set(self) -> Set<u64>
        decreases self,
    {
        match self {
            PaneTree::Leaf { id, .. } => Set::empty().insert(id),
            PaneTree::Split { id, left, right, .. } => left.id_set().union(right.id_set()).insert(
                id,
            ),
        }
    }

    /// No identity occurs twice anywhere in the tree.
    pub open spec fn ids_unique(self) -> bool
        decreases self,
    {
        match self {
            PaneTree::Leaf { .. } => true,
            PaneTree::Split { id, left, right, .. } => {
                &&& left.ids_unique()
                &&& right.ids_unique()
                &&& !left.id_set().contains(id)
                &&& !right.id_set().contains(id)
                &&& left.id_set().disjoint(right.id_set())
            },
        }
    }

    /// Every stored ratio is inside the clamped range.
    pub open spec fn ratios_ok(self) -> bool
        decreases self,
    {
        match self {
            PaneTree::Leaf { .. } => true,
            PaneTree::Split { ratio, left, right, .. } => ratio <= RATIO_UNIT && left.ratios_ok()
                && right.ratios_ok(),
        }
    }

    /// The tree with the named split's ratio set; a missing identity
    /// leaves the tree as it was.
    pub open spec fn spec_resize(self, split: u64, ratio: u32) -> PaneTree
        decreases self,
    {
        match self {
            PaneTree::Leaf { .. } => self,
            PaneTree::Split { id, axis, ratio: old_ratio, left, right } => {
                if id == split {
                    PaneTree::Split { id, axis, ratio, left, right }
                } else {
                    PaneTree::Split {
                        id,
                        axis,
                        ratio: old_ratio,
                        left: Box::new(left.spec_resize(split, ratio)),
                        right: Box::new(right.spec_resize(split, ratio)),
                    }
                }
            },
        }
    }

    /// The ratio stored at the named split, if the tree has it.
    pub open spec fn ratio_of(self, split: u64) -> Option<u32>
        decreases self,
    {
        match self {
            PaneTree::Leaf { .. } => None,
            PaneTree::Split { id, ratio, left, right, .. } => {
                if id == split {
                    Some(ratio)
                } else {
                    match left.ratio_of(split) {
                        Some(r) => Some(r),
                        None => right.ratio_of(split),
                    }
                }
            },
        }
    }

    /// The tree after splitting the named pane: the pane keeps its place
    /// and content as the first child, and a new pane becomes the second
    /// child, under a vertical split at half the span.
    pub open spec fn spec_split(self, target: u64, split_id: u64, new_id: u64, pane: Pane) -> PaneTree
        decreases self,
    {
        match self {
            PaneTree::Leaf { id, pane: old_pane } => {
                if id == target {
                    PaneTree::Split {
                        id: split_id,
                        axis: Axis::Vertical,
                        ratio: 500,
                        left: Box::new(PaneTree::Leaf { id, pane: old_pane }),
                        right: Box::new(PaneTree::Leaf { id: new_id, pane }),
                    }
                } else {
                    self
                }
            },
            PaneTree::Split { id, axis, ratio, left, right } => PaneTree::Split {
                id,
                axis,
                ratio,
                left: Box::new(left.spec_split(target, split_id, new_id, pane)),
                right: Box::new(right.spec_split(target, split_id, new_id, pane)),
            },
        }
    }

    /// The tree after closing the named pane: its sibling takes the place
    /// of the enclosing split. Closing the only pane leaves the tree as it
    /// was.
    pub open spec fn spec_close(self, target: u64) -> PaneTree
        decreases self,
    {
        match self {
            PaneTree::Leaf { .. } => self,
            PaneTree::Split { id, axis, ratio, left, right } => {
                if (*left) matches PaneTree::Leaf { id: lid, .. } && lid == target {
                    *right
                } else if (*right) matches PaneTree::Leaf { id: rid, .. } && rid == target {
                    *left
                } else {
                    PaneTree::Split {
                        id,
                        axis,
                        ratio,
                        left: Box::new(left.spec_close(target)),
                        right: Box::new(right.spec_close(target)),
                    }
                }
            },
        }
    }

    /// The pane encountered last in traversal order whose identity is not
    /// the given one.
    pub open spec fn last_leaf_excluding(self, x: u64) -> Option<u64>
        decreases self,
    {
        match self {
            PaneTree::Leaf { id, .. } => if id != x {
                Some(id)
            } else {
                None
            },
            PaneTree::Split { left, right, .. } => match right.last_leaf_excluding(x) {
                Some(id) => Some(id),
                None => left.last_leaf_excluding(x),
            },
        }
    }

    /// Whether some pane in the tree has this identity.
    pub fn has_leaf(&self, x: u64) -> (r: bool)
        ensures
            r == self.contains_leaf(x),
        decreases *self,
    {
        match self {
            PaneTree::Leaf { id, .. } => *id == x,
            PaneTree::Split { left, right, .. } => left.has_leaf(x) || right.has_leaf(x),
        }
    }

    /// Whether some split in the tree has this identity.
    pub fn has_split(&self, x: u64) -> (r: bool)
        ensures
            r == self.contains_split(x),
        decreases *self,
    {
        match self {
            PaneTree::Leaf { .. } => false,
            PaneTree::Split { id, left, right, .. } => *id == x || left.has_split(x)
                || right.has_split(x),
        }
    }

    /// The ratio stored at the named split, if the tree has it.
    pub fn split_ratio(&self, split: u64) -> (r: Option<u32>)
        ensures
            r == self.ratio_of(split),
        decreases *self,
    {
        match self {
            PaneTree::Leaf { .. } => None,
            PaneTree::Split { id, ratio, left, right, .. } => {
                if *id == split {
                    Some(*ratio)
                } else {
                    match left.split_ratio(split) {
                        Some(r) => Some(r),
                        None => right.split_ratio(split),
                    }
                }
            },
        }
    }

    /// The pane encountered last in traversal order whose identity is not
    /// the given one.
    pub fn find_last_leaf_excluding(&self, x: u64) -> (r: Option<u64>)
        ensures
            r == self.last_leaf_excluding(x),
        decreases *self,
    {
        match self {
            PaneTree::Leaf { id, .. } => if *id != x {
                Some(*id)
            } else {
                None
            },
            PaneTree::Split { left, right, .. } => match right.find_last_leaf_excluding(x) {
                Some(id) => Some(id),
                None => left.find_last_leaf_excluding(x),
            },
        }
    }

    /// Sets the named split's ratio, leaving everything else in place.
    pub fn resize_tree(self, split: u64, ratio: u32) -> (r: PaneTree)
        ensures
            r == self.spec_resize(split, ratio),
        decreases self,
    {
        match self {
            PaneTree::Leaf { id, pane } => PaneTree::Leaf { id, pane },
            PaneTree::Split { id, axis, ratio: old_ratio, left, right } => {
                if id == split {
                    PaneTree::Split { id, axis, ratio, left, right }
                } else {
                    let l = (*left).resize_tree(split, ratio);
                    let r2 = (*right).resize_tree(split, ratio);
                    PaneTree::Split {
                        id,
                        axis,
                        ratio: old_ratio,
                        left: Box::new(l),
                        right: Box::new(r2),
                    }
                }
            },
        }
    }
}

impl PaneTree {
    /// Splits the named pane: it keeps its place and content as the first
    /// child, and the given pane becomes the second child. A missing
    /// identity leaves the tree as it was.
    pub fn split_tree(self, target: u64, split_id: u64, new_id: u64, pane: Pane) -> (r: PaneTree)
        requires
            self.ids_unique(),
        ensures
            r == self.spec_split(target, split_id, new_id, pane),
        decreases self,
    {
        match self {
            PaneTree::Leaf { id, pane: old_pane } => {
                if id == target {
                    PaneTree::Split {
                        id: split_id,
                        axis: Axis::Vertical,
                        ratio: 500,
                        left: Box::new(PaneTree::Leaf { id, pane: old_pane }),
                        right: Box::new(PaneTree::Leaf { id: new_id, pane }),
                    }
                } else {
                    PaneTree::Leaf { id, pane: old_pane }
                }
            },
            PaneTree::Split { id, axis, ratio, left, right } => {
                if left.has_leaf(target) {
                    proof {
                        lemma_contains_in_ids(*left, target);
                        lemma_contains_in_ids(*right, target);
                        lemma_split_noop(*right, target, split_id, new_id, pane);
                    }
                    let l = (*left).split_tree(target, split_id, new_id, pane);
                    PaneTree::Split { id, axis, ratio, left: Box::new(l), right }
                } else {
                    proof {
                        lemma_split_noop(*left, target, split_id, new_id, pane);
                    }
                    let r2 = (*right).split_tree(target, split_id, new_id, pane);
                    PaneTree::Split { id, axis, ratio, left, right: Box::new(r2) }
                }
            },
        }
    }

    /// Closes the named pane: its sibling takes the place of the enclosing
    /// split. A missing identity, or the only pane, leaves the tree as it
    /// was.
    pub fn close_tree(self, target: u64) -> (r: PaneTree)
        ensures
            r == self.spec_close(target),
        decreases self,
    {
        match self {
            PaneTree::Leaf { id, pane } => PaneTree::Leaf { id, pane },
            PaneTree::Split { id, axis, ratio, left, right } => {
                let left_hit = match &*left {
                    PaneTree::Leaf { id: lid, .. } => *lid == target,
                    _ => false,
                };
                if left_hit {
                    *right
                } else {
                    let right_hit = match &*right {
                        PaneTree::Leaf { id: rid, .. } => *rid == target,
                        _ => false,
                    };
                    if right_hit {
                        *left
                    } else {
                        let l = (*left).close_tree(target);
                        let r2 = (*right).close_tree(target);
                        PaneTree::Split { id, axis, ratio, left: Box::new(l), right: Box::new(r2) }
                    }
                }
            },
        }
    }
}

/// Every tree shows at least one pane.
pub proof fn lemma_leaf_count_pos(t: PaneTree)
    ensures
        t.leaf_count() >= 1,
        t matches PaneTree::Split { .. } ==> t.leaf_count() >= 2,
    decreases t,
{
    match t {
        PaneTree::Leaf { .. } => {},
        PaneTree::Split { left, right, .. } => {
            lemma_leaf_count_pos(*left);
            lemma_leaf_count_pos(*right);
        },
    }
}

/// A pane or split identity the tree contains is in its identity set.
pub proof fn lemma_contains_in_ids(t: PaneTree, x: u64)
    ensures
        t.contains_leaf(x) ==> t.id_set().contains(x),
        t.contains_split(x) ==> t.id_set().contains(x),
    decreases t,
{
    match t {
        PaneTree::Leaf { .. } => {},
        PaneTree::Split { left, right, .. } => {
            lemma_contains_in_ids(*left, x);
            lemma_contains_in_ids(*right, x);
        },
    }
}

/// Some pane identity is always contained.
pub proof fn lemma_some_leaf(t: PaneTree)
    ensures
        exists|y: u64| t.contains_leaf(y),
    decreases t,
{
    match t {
        PaneTree::Leaf { id, .. } => {
            assert(t.contains_leaf(id));
        },
        PaneTree::Split { left, right, .. } => {
            lemma_some_leaf(*left);
            let y = choose|y: u64| left.contains_leaf(y);
            assert(t.contains_leaf(y));
        },
    }
}

/// Splitting a pane the tree does not contain changes nothing.
pub proof fn lemma_split_noop(t: PaneTree, target: u64, sid: u64, nid: u64, pane: Pane)
    requires
        !t.contains_leaf(target),
    ensures
        t.spec_split(target, sid, nid, pane) == t,
    decreases t,
{
    match t {
        PaneTree::Leaf { .. } => {},
        PaneTree::Split { left, right, .. } => {
            lemma_split_noop(*left, target, sid, nid, pane);
            lemma_split_noop(*right, target, sid, nid, pane);
        },
    }
}

/// What splitting a contained pane at fresh identities does: one more
/// pane, the new identities joining the set, uniqueness and the ratio
/// range kept, and the shown panes being exactly the old ones plus the
/// new one.
pub proof fn lemma_split_props(t: PaneTree, target: u64, sid: u64, nid: u64, pane: Pane)
    requires
        t.ids_unique(),
        t.contains_leaf(target),
        !t.id_set().contains(sid),
        !t.id_set().contains(nid),
        sid != nid,
    ensures
        t.spec_split(target, sid, nid, pane).ids_unique(),
        t.spec_split(target, sid, nid, pane).id_set() == t.id_set().insert(sid).insert(nid),
        t.spec_split(target, sid, nid, pane).leaf_count() == t.leaf_count() + 1,
        forall|x: u64|
            t.spec_split(target, sid, nid, pane).contains_leaf(x) <==> (t.contains_leaf(x) || x
                == nid),
        t.ratios_ok() ==> t.spec_split(target, sid, nid, pane).ratios_ok(),
    decreases t,
{
    reveal_with_fuel(PaneTree::ids_unique, 3);
    reveal_with_fuel(PaneTree::leaf_count, 3);
    reveal_with_fuel(PaneTree::contains_leaf, 3);
    reveal_with_fuel(PaneTree::ratios_ok, 3);
    reveal_with_fuel(PaneTree::id_set, 3);
    match t {
        PaneTree::Leaf { id, .. } => {
            assert(t.spec_split(target, sid, nid, pane).id_set() =~= t.id_set().insert(sid).insert(
                nid,
            ));
            assert forall|x: u64|
                t.spec_split(target, sid, nid, pane).contains_leaf(x) <==> (t.contains_leaf(x) || x
                    == nid) by {
                assert(t.spec_split(target, sid, nid, pane).contains_leaf(x) == (id == x || nid
                    == x));
            }
        },
        PaneTree::Split { id, left, right, .. } => {
            lemma_contains_in_ids(*left, target);
            lemma_contains_in_ids(*right, target);
            if left.contains_leaf(target) {
                lemma_split_props(*left, target, sid, nid, pane);
                lemma_split_noop(*right, target, sid, nid, pane);
            } else {
                lemma_split_props(*right, target, sid, nid, pane);
                lemma_split_noop(*left, target, sid, nid, pane);
            }
            assert(t.spec_split(target, sid, nid, pane).id_set() =~= t.id_set().insert(sid).insert(
                nid,
            ));
            assert forall|x: u64|
                t.spec_split(target, sid, nid, pane).contains_leaf(x) <==> (t.contains_leaf(x) || x
                    == nid) by {
                if left.contains_leaf(target) {
                    assert(left.spec_split(target, sid, nid, pane).contains_leaf(x) <==> (
                    left.contains_leaf(x) || x == nid));
                } else {
                    assert(right.spec_split(target, sid, nid, pane).contains_leaf(x) <==> (
                    right.contains_leaf(x) || x == nid));
                }
            }
        },
    }
}

/// Closing a pane the tree does not contain changes nothing.
pub proof fn lemma_close_noop(t: PaneTree, target: u64)
    requires
        !t.contains_leaf(target),
    ensures
        t.spec_close(target) == t,
    decreases t,
{
    match t {
        PaneTree::Leaf { .. } => {},
        PaneTree::Split { left, right, .. } => {
            lemma_close_noop(*left, target);
            lemma_close_noop(*right, target);
        },
    }
}

/// What closing a contained pane of a tree with at least two panes does:
/// exactly one pane fewer, no identity added, uniqueness and the ratio
/// range kept, every other pane still shown, the closed one gone.
pub proof fn lemma_close_props(t: PaneTree, target: u64)
    requires
        t.ids_unique(),
        t.contains_leaf(target),
        t.leaf_count() >= 2,
    ensures
        t.spec_close(target).ids_unique(),
        t.spec_close(target).id_set().subset_of(t.id_set()),
        t.spec_close(target).leaf_count() == t.leaf_count() - 1,
        forall|x: u64| x != target ==> (t.spec_close(target).contains_leaf(x) <==> t.contains_leaf(x)),
        !t.spec_close(target).contains_leaf(target),
        t.ratios_ok() ==> t.spec_close(target).ratios_ok(),
    decreases t,
{
    reveal_with_fuel(PaneTree::ids_unique, 3);
    reveal_with_fuel(PaneTree::leaf_count, 3);
    reveal_with_fuel(PaneTree::contains_leaf, 3);
    reveal_with_fuel(PaneTree::ratios_ok, 3);
    reveal_with_fuel(PaneTree::id_set, 3);
    match t {
        PaneTree::Leaf { .. } => {},
        PaneTree::Split { id, left, right, .. } => {
            lemma_leaf_count_pos(*left);
            lemma_leaf_count_pos(*right);
            lemma_contains_in_ids(*left, target);
            lemma_contains_in_ids(*right, target);
            if (*left) matches PaneTree::Leaf { id: lid, .. } && lid == target {
                assert(t.spec_close(target).id_set().subset_of(t.id_set()));
                assert forall|x: u64| x != target implies (t.spec_close(target).contains_leaf(x)
                    <==> t.contains_leaf(x)) by {
                    assert(!left.contains_leaf(x));
                }
            } else if (*right) matches PaneTree::Leaf { id: rid, .. } && rid == target {
                assert(t.spec_close(target).id_set().subset_of(t.id_set()));
                assert forall|x: u64| x != target implies (t.spec_close(target).contains_leaf(x)
                    <==> t.contains_leaf(x)) by {
                    assert(!right.contains_leaf(x));
                }
            } else {
                if left.contains_leaf(target) {
                    lemma_close_props(*left, target);
                    lemma_close_noop(*right, target);
                } else {
                    lemma_close_props(*right, target);
                    lemma_close_noop(*left, target);
                }
                assert(t.spec_close(target).id_set().subset_of(t.id_set()));
                assert forall|x: u64| x != target implies (t.spec_close(target).contains_leaf(x)
                    <==> t.contains_leaf(x)) by {
                    if left.contains_leaf(target) {
                        assert(left.spec_close(target).contains_leaf(x) <==> left.contains_leaf(x));
                        assert(right.spec_close(target) == *right);
                    } else {
                        assert(right.spec_close(target).contains_leaf(x) <==> right.contains_leaf(
                            x,
                        ));
                        assert(left.spec_close(target) == *left);
                    }
                }
            }
        },
    }
}

/// What the last-pane-excluding search returns: a contained pane other
/// than the excluded one, or nothing only when every pane is the excluded
/// one.
pub proof fn lemma_last_leaf(t: PaneTree, x: u64)
    ensures
        match t.last_leaf_excluding(x) {
            Some(id) => t.contains_leaf(id) && id != x,
            None => forall|y: u64| t.contains_leaf(y) ==> y == x,
        },
    decreases t,
{
    match t {
        PaneTree::Leaf { .. } => {},
        PaneTree::Split { left, right, .. } => {
            lemma_last_leaf(*left, x);
            lemma_last_leaf(*right, x);
            if t.last_leaf_excluding(x) is None {
                assert forall|y: u64| t.contains_leaf(y) implies y == x by {
                    assert(left.contains_leaf(y) ==> y == x);
                    assert(right.contains_leaf(y) ==> y == x);
                }
            }
        },
    }
}

/// A tree with unique identities whose every pane is one identity shows
/// only one pane.
pub proof fn lemma_all_one_leaf(t: PaneTree, x: u64)
    requires
        t.ids_unique(),
        forall|y: u64| t.contains_leaf(y) ==> y == x,
    ensures
        t.leaf_count() <= 1,
    decreases t,
{
    match t {
        PaneTree::Leaf { .. } => {},
        PaneTree::Split { left, right, .. } => {
            lemma_some_leaf(*left);
            lemma_some_leaf(*right);
            let yl = choose|y: u64| left.contains_leaf(y);
            let yr = choose|y: u64| right.contains_leaf(y);
            assert(t.contains_leaf(yl) && t.contains_leaf(yr));
            lemma_contains_in_ids(*left, yl);
            lemma_contains_in_ids(*right, yr);
            assert(left.id_set().contains(x) && right.id_set().contains(x));
            assert(false);
        },
    }
}

/// A tree with unique identities and at least two panes always offers a
/// pane to close that is not the one being split.
pub proof fn lemma_last_leaf_some(t: PaneTree, x: u64)
    requires
        t.ids_unique(),
        t.leaf_count() >= 2,
    ensures
        t.last_leaf_excluding(x) is Some,
    decreases t,
{
    match t {
        PaneTree::Leaf { .. } => {},
        PaneTree::Split { left, right, .. } => {
            lemma_leaf_count_pos(*left);
            lemma_leaf_count_pos(*right);
            lemma_last_leaf(*left, x);
            lemma_last_leaf(*right, x);
            if right.last_leaf_excluding(x) is None {
                lemma_all_one_leaf(*right, x);
                if left.last_leaf_excluding(x) is None {
                    lemma_all_one_leaf(*left, x);
                    lemma_some_leaf(*left);
                    lemma_some_leaf(*right);
                    let yl = choose|y: u64| left.contains_leaf(y);
                    let yr = choose|y: u64| right.contains_leaf(y);
                    lemma_contains_in_ids(*left, yl);
                    lemma_contains_in_ids(*right, yr);
                    assert(left.id_set().contains(x) && right.id_set().contains(x));
                    assert(false);
                }
            }
        },
    }
}

/// What setting a split's ratio does: the panes, the identities and every
/// other split stay as they were; the named split, if contained, now holds
/// the given ratio; a missing identity changes nothing.
pub proof fn lemma_resize_props(t: PaneTree, s: u64, c: u32)
    ensures
        t.spec_resize(s, c).leaf_count() == t.leaf_count(),
        t.spec_resize(s, c).id_set() == t.id_set(),
        t.ids_unique() ==> t.spec_resize(s, c).ids_unique(),
        forall|x: u64| t.spec_resize(s, c).contains_leaf(x) <==> t.contains_leaf(x),
        forall|x: u64| t.spec_resize(s, c).contains_split(x) <==> t.contains_split(x),
        (t.ratios_ok() && c <= RATIO_UNIT) ==> t.spec_resize(s, c).ratios_ok(),
        t.contains_split(s) ==> t.spec_resize(s, c).ratio_of(s) == Some(c),
        !t.contains_split(s) ==> (t.spec_resize(s, c) == t && t.ratio_of(s) is None),
    decreases t,
{
    reveal_with_fuel(PaneTree::ids_unique, 3);
    reveal_with_fuel(PaneTree::leaf_count, 3);
    reveal_with_fuel(PaneTree::contains_leaf, 3);
    reveal_with_fuel(PaneTree::contains_split, 3);
    reveal_with_fuel(PaneTree::ratios_ok, 3);
    reveal_with_fuel(PaneTree::ratio_of, 3);
    reveal_with_fuel(PaneTree::id_set, 3);
    reveal_with_fuel(PaneTree::spec_resize, 3);
    match t {
        PaneTree::Leaf { .. } => {},
        PaneTree::Split { id, left, right, .. } => {
            lemma_resize_props(*left, s, c);
            lemma_resize_props(*right, s, c);
            assert(t.spec_resize(s, c).id_set() =~= t.id_set());
            assert forall|x: u64| t.spec_resize(s, c).contains_leaf(x) <==> t.contains_leaf(x) by {
                assert(left.spec_resize(s, c).contains_leaf(x) <==> left.contains_leaf(x));
                assert(right.spec_resize(s, c).contains_leaf(x) <==> right.contains_leaf(x));
            }
            assert forall|x: u64| t.spec_resize(s, c).contains_split(x) <==> t.contains_split(
                x,
            ) by {
                assert(left.spec_resize(s, c).contains_split(x) <==> left.contains_split(x));
                assert(right.spec_resize(s, c).contains_split(x) <==> right.contains_split(x));
            }
        },
    }
}

/// Setting the same ratio twice leaves the same tree as setting it once.
pub proof fn lemma_resize_twice(t: PaneTree, s: u64, c: u32)
    ensures
        t.spec_resize(s, c).spec_resize(s, c) == t.spec_resize(s, c),
    decreases t,
{
    match t {
        PaneTree::Leaf { .. } => {},
        PaneTree::Split { left, right, .. } => {
            lemma_resize_twice(*left, s, c);
            lemma_resize_twice(*right, s, c);
        },
    }
}

} // verus!
