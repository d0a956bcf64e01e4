//! The view container: the single entry point that routes category
//! requests and resize events to the pane tree, keeps the leaf count
//! between one and two, and projects the tree for presentation.
use vstd::prelude::*;

use crate::layout::{
    clamp_ratio, clamp_ratio_exec, lemma_close_props, lemma_last_leaf, lemma_last_leaf_some,
    lemma_leaf_count_pos, lemma_resize_props, lemma_resize_twice, lemma_split_props, Pane,
    PaneError, PaneTree, TypeData,
};
use crate::snapshot::{
    AllData, ComponentsData, CpuData, DramData, GpuData, NetworkData, OperationSystem, RamData,
};

verus! {

/// A message from the presentation layer: bind a pane to a category, or
/// move a split's divider (the ratio in thousandths, clamped on receipt).
#[derive(Clone, Debug)]
pub enum Message {
    Data(u64, TypeData),
    Resized(u64, i64),
}

/// The top-level controller: the pane tree and a mirror of its leaf count.
pub struct ViewContainer {
    pub panes: PaneTree,
    pub count: i32,
}

/// A snapshot with every reading at its neutral default, used only as the
/// momentary stand-in while the tree is rebuilt in place.
fn neutral_data() -> AllData {
    AllData {
        cpu_data: CpuData {
            count_physical_cores: 0,
            count_logical_cores: 0,
            cpu_brand: String::new(),
            cpu_arch: String::new(),
            global_cpu_usage: 0,
            speed: 0,
            cpu_temp: 0,
        },
        gpu_data: GpuData { gpu_data_vulcan: Vec::new() },
        dram_data: DramData { disks: Vec::new() },
        ram_data: RamData {
            total_memory: 0,
            used_memory: 0,
            total_swap: 0,
            free_swap: 0,
            used_swap: 0,
            available_memory: 0,
        },
        os_data: OperationSystem {
            os_type: String::new(),
            name_os: None,
            kernel_version: None,
            os_version: None,
            distribution: String::new(),
            host_name: None,
            cpu_arch: String::new(),
        },
        network_data: NetworkData { data_network: Vec::new(), network_len: 0 },
        components_data: ComponentsData { component_data_v: Vec::new() },
    }
}

/// Two identities that differ from the given one and from each other.
fn fresh_two(a: u64) -> (r: (u64, u64))
    ensures
        r.0 != a,
        r.1 != a,
        r.0 != r.1,
{
    if a == 0 {
        (1, 2)
    } else if a == 1 {
        (0, 2)
    } else {
        (0, 1)
    }
}

impl ViewContainer {
    /// The container is sound: identities unique, ratios clamped, the
    /// counter mirroring the tree, and one or two panes shown.
    pub open spec fn wf(self) -> bool {
        &&& self.panes.ids_unique()
        &&& self.panes.ratios_ok()
        &&& self.count == self.panes.leaf_count()
        &&& 1 <= self.count <= 2
    }

    /// The pane a category request would close when the tree is at the
    /// cap: the last pane in traversal order other than the request's
    /// target.
    pub open spec fn eviction_victim(self, target: u64) -> u64 {
        match self.panes.last_leaf_excluding(target) {
            Some(id) => id,
            None => 0,
        }
    }

    /// The tree a category request splits: the current tree below the
    /// cap, the tree with the victim closed at the cap.
    pub open spec fn split_base(self, target: u64) -> PaneTree {
        if self.count < 2 {
            self.panes
        } else {
            self.panes.spec_close(self.eviction_victim(target))
        }
    }

    fn new(prev_count: i32, data_type: TypeData) -> (r: ViewContainer)
        requires
            prev_count < i32::MAX,
        ensures
            r.count == prev_count + 1,
            (r.panes matches PaneTree::Leaf { id, pane } && id == 0 && pane.type_data == data_type
                && crate::snapshot::snapshot_wf(pane.data)),
    {
        ViewContainer { panes: PaneTree::Leaf { id: 0, pane: Pane::new(data_type) }, count: prev_count + 1 }
    }

    /// Routes one message to the tree. A category request splits its
    /// target pane — closing the last other pane first when two are
    /// already shown — and binds the new pane to the category with a fresh
    /// snapshot; a resize clamps and stores the ratio. A message naming an
    /// identity the tree does not have fails and changes nothing.
    pub fn update(&mut self, message: Message) -> (res: Result<(), PaneError>)
        requires
            old(self).wf(),
        ensures
            final(self).wf(),
            message matches Message::Resized(split, ratio) ==> {
                &&& (res is Ok <==> old(self).panes.contains_split(split))
                &&& final(self).panes == old(self).panes.spec_resize(split, clamp_ratio(ratio))
                &&& final(self).count == old(self).count
                &&& (old(self).panes.contains_split(split) ==> final(self).panes.ratio_of(split)
                    == Some(clamp_ratio(ratio)))
                &&& (!old(self).panes.contains_split(split) ==> *final(self) == *old(self))
            },
            message matches Message::Data(target, _category) ==> {
                &&& (res is Ok <==> old(self).panes.contains_leaf(target))
                &&& (!old(self).panes.contains_leaf(target) ==> *final(self) == *old(self))
                &&& (old(self).panes.contains_leaf(target) ==> final(self).count == 2
                    && final(self).panes.contains_leaf(target))
            },
            message matches Message::Data(target, category) ==> (old(
                self,
            ).panes.contains_leaf(target) ==> exists|sid: u64, nid: u64, pane: Pane|
                {
                    &&& pane.type_data == category
                    &&& crate::snapshot::snapshot_wf(pane.data)
                    &&& !old(self).split_base(target).id_set().contains(sid)
                    &&& !old(self).split_base(target).id_set().contains(nid)
                    &&& sid != nid
                    &&& final(self).panes == #[trigger] old(self).split_base(target).spec_split(
                        target,
                        sid,
                        nid,
                        pane,
                    )
                }),
    {
        match message {
            Message::Resized(split, ratio) => {
                let c = clamp_ratio_exec(ratio);
                let found = self.panes.has_split(split);
                let mut tree = PaneTree::Leaf {
                    id: 0,
                    pane: Pane { data: neutral_data(), type_data: TypeData::Empty },
                };
                core::mem::swap(&mut self.panes, &mut tree);
                proof {
                    lemma_resize_props(tree, split, c);
                }
                let resized = tree.resize_tree(split, c);
                self.panes = resized;
                if found {
                    Ok(())
                } else {
                    Err(PaneError::InvalidPaneReference)
                }
            },
            Message::Data(target, category) => {
                if !self.panes.has_leaf(target) {
                    return Err(PaneError::InvalidPaneReference);
                }
                let mut tree = PaneTree::Leaf {
                    id: 0,
                    pane: Pane { data: neutral_data(), type_data: TypeData::Empty },
                };
                core::mem::swap(&mut self.panes, &mut tree);
                let at_cap = self.count >= 2;
                if at_cap {
                    proof {
                        lemma_last_leaf_some(tree, target);
                        lemma_last_leaf(tree, target);
                    }
                    let victim = match tree.find_last_leaf_excluding(target) {
                        Some(v) => v,
                        None => 0,
                    };
                    proof {
                        lemma_close_props(tree, victim);
                    }
                    tree = tree.close_tree(victim);
                }
                // One pane remains, so the tree is a single leaf.
                proof {
                    if tree matches PaneTree::Split { .. } {
                        lemma_leaf_count_pos(tree);
                        assert(false);
                    }
                }
                let base_id = match &tree {
                    PaneTree::Leaf { id, .. } => *id,
                    PaneTree::Split { .. } => vstd::pervasive::unreached(),
                };
                let ghost base = tree;
                let ids = fresh_two(base_id);
                let pane = Pane::new(category);
                proof {
                    assert(base.id_set() =~= Set::empty().insert(base_id));
                    lemma_split_props(base, target, ids.0, ids.1, pane);
                }
                let split_done = tree.split_tree(target, ids.0, ids.1, pane);
                self.panes = split_done;
                if !at_cap {
                    self.count = self.count + 1;
                }
                Ok(())
            },
        }
    }
}

impl Default for ViewContainer {
    /// The initial container: one unbound pane holding a fresh snapshot.
    fn default() -> (r: Self)
        ensures
            r.wf(),
            r.count == 1,
            (r.panes matches PaneTree::Leaf { id, pane } && id == 0 && pane.type_data
                == TypeData::Empty && crate::snapshot::snapshot_wf(pane.data)),
    {
        ViewContainer::new(0, TypeData::Empty)
    }
}

/// Two category requests in a row never leave more than two panes, and a
/// sound container never shows fewer than one: soundness is preserved by
/// every message, and it bounds the pane count on both sides.
pub proof fn lemma_count_bounds(v: ViewContainer)
    requires
        v.wf(),
    ensures
        1 <= v.panes.leaf_count() <= 2,
{
}

/// Resizing twice with one ratio leaves the same container state as
/// resizing once: the tree transform for a repeated resize is idempotent,
/// and a resize never touches the count.
pub proof fn lemma_resize_idempotent(v: ViewContainer, split: u64, ratio: i64)
    ensures
        (ViewContainer {
            panes: v.panes.spec_resize(split, clamp_ratio(ratio)).spec_resize(
                split,
                clamp_ratio(ratio),
            ),
            count: v.count,
        }) == (ViewContainer { panes: v.panes.spec_resize(split, clamp_ratio(ratio)), count: v.count }),
{
    lemma_resize_twice(v.panes, split, clamp_ratio(ratio));
}

/// The texts of a volume table's entries, one per volume: its name and
/// its record's canonical lines.
pub open spec fn dram_item_texts(entries: Seq<(Seq<char>, crate::snapshot::DiskV)>) -> Seq<
    Seq<char>,
> {
    entries.map_values(
        |e: (Seq<char>, crate::snapshot::DiskV)|
            "name - "@ + e.0 + "\n"@ + crate::snapshot::disk_text(e.1),
    )
}

/// The canonical texts of a sequence of interface records.
pub open spec fn net_item_texts(ns: Seq<crate::snapshot::NetV>) -> Seq<Seq<char>> {
    ns.map_values(|n: crate::snapshot::NetV| crate::snapshot::net_text(n))
}

/// The textual content a pane presents, line by line, fixed by its
/// category and its snapshot; an unbound pane presents no data lines.
pub open spec fn pane_lines_spec(p: Pane) -> Seq<Seq<char>> {
    match p.type_data {
        TypeData::Cpu => seq![
            "count logical cores: "@ + crate::text::dec_digits(
                p.data.cpu_data.count_logical_cores as nat,
            ),
            "count physical cores: "@ + crate::text::dec_digits(
                p.data.cpu_data.count_physical_cores as nat,
            ),
            "cpu brand: "@ + p.data.cpu_data.cpu_brand@,
            "cpu architecture: "@ + p.data.cpu_data.cpu_arch@,
            "count cpu_usage: "@ + crate::text::dec_int(p.data.cpu_data.global_cpu_usage as int),
            "cpu frequency: "@ + crate::text::dec_digits(p.data.cpu_data.speed as nat) + "Mhz"@,
            "cpu temperature: "@ + crate::text::dec_int(p.data.cpu_data.cpu_temp as int) + "°C"@,
        ],
        TypeData::Gpu => seq![
            "gpu informations: "@ + crate::text::join_texts(
                crate::text::text_views(p.data.gpu_data.gpu_data_vulcan@),
                ","@,
            ),
        ],
        TypeData::Dram => seq![
            crate::text::join_texts(
                dram_item_texts(p.data.dram_data@),
                "\n*************************\n"@,
            ),
        ],
        TypeData::Ram => seq![
            "total memory: "@ + crate::text::dec_digits((p.data.ram_data.total_memory / 1024000) as nat)
                + "Mb"@,
            "used memory: "@ + crate::text::dec_digits((p.data.ram_data.used_memory / 1024000) as nat)
                + "Mb"@,
            "total swap: "@ + crate::text::dec_digits((p.data.ram_data.total_swap / 1024000) as nat)
                + "Mb"@,
            "free swap: "@ + crate::text::dec_digits((p.data.ram_data.free_swap / 1024000) as nat)
                + "Mb"@,
            "used swap: "@ + crate::text::dec_digits((p.data.ram_data.used_swap / 1024000) as nat)
                + "Mb"@,
            "available memory: "@ + crate::text::dec_digits(
                (p.data.ram_data.available_memory / 1024000) as nat,
            ) + "Mb"@,
        ],
        TypeData::Os => seq![
            "os type: "@ + p.data.os_data.os_type@,
            "name os: "@ + (match p.data.os_data.name_os {
                Some(s) => s@,
                None => "unknown"@,
            }),
            "kernel version: "@ + (match p.data.os_data.kernel_version {
                Some(s) => s@,
                None => "unknown"@,
            }),
            "os version: "@ + (match p.data.os_data.os_version {
                Some(s) => s@,
                None => "unknown"@,
            }),
            "distribution: "@ + p.data.os_data.distribution@,
            "host name: "@ + (match p.data.os_data.host_name {
                Some(s) => s@,
                None => "unknown"@,
            }),
            "cpu arch: "@ + p.data.os_data.cpu_arch@,
        ],
        TypeData::Network => seq![
            "network informations: "@ + crate::text::join_texts(
                net_item_texts(p.data.network_data@),
                ","@,
            ),
        ],
        TypeData::Empty => seq![],
    }
}

/// The read-only structural description of the current layout handed to
/// the presentation layer: split axes and ratios, and per pane its
/// category and textual field values.
pub enum LayoutNode {
    Split { id: u64, axis: crate::layout::Axis, ratio: u32, first: Box<LayoutNode>, second: Box<LayoutNode> },
    Pane { id: u64, category: TypeData, lines: Vec<String> },
}

/// Whether a layout description mirrors a tree exactly: same shape, same
/// identities, axes and ratios, and for each pane its category and its
/// canonical lines.
pub open spec fn projects(n: LayoutNode, t: PaneTree) -> bool
    decreases t,
{
    match t {
        PaneTree::Leaf { id, pane } => n matches LayoutNode::Pane { id: nid, category, lines }
            && nid == id && category == pane.type_data && crate::text::text_views(lines@)
            == pane_lines_spec(pane),
        PaneTree::Split { id, axis, ratio, left, right } => n matches LayoutNode::Split {
            id: nid,
            axis: naxis,
            ratio: nratio,
            first,
            second,
        } && nid == id && naxis == axis && nratio == ratio && projects(*first, *left) && projects(
            *second,
            *right,
        ),
    }
}

/// Builds the line texts a pane presents.
pub fn pane_lines(p: &Pane) -> (r: Vec<String>)
    ensures
        crate::text::text_views(r@) == pane_lines_spec(*p),
{
    let mut lines: Vec<String> = Vec::new();
    match &p.type_data {
        TypeData::Cpu => {
            let mut l = String::from_str("count logical cores: ");
            let d0 = crate::text::u64_to_dec(p.data.cpu_data.count_logical_cores as u64);
            l.append(d0.as_str());
            lines.push(l);
            let mut l1 = String::from_str("count physical cores: ");
            let d1 = crate::text::u64_to_dec(p.data.cpu_data.count_physical_cores as u64);
            l1.append(d1.as_str());
            lines.push(l1);
            let mut l2 = String::from_str("cpu brand: ");
            l2.append(p.data.cpu_data.cpu_brand.as_str());
            lines.push(l2);
            let mut l3 = String::from_str("cpu architecture: ");
            l3.append(p.data.cpu_data.cpu_arch.as_str());
            lines.push(l3);
            let mut l4 = String::from_str("count cpu_usage: ");
            let d4 = crate::text::i64_to_dec(p.data.cpu_data.global_cpu_usage as i64);
            l4.append(d4.as_str());
            lines.push(l4);
            let mut l5 = String::from_str("cpu frequency: ");
            let d5 = crate::text::u64_to_dec(p.data.cpu_data.speed);
            l5.append(d5.as_str());
            l5.append("Mhz");
            lines.push(l5);
            let mut l6 = String::from_str("cpu temperature: ");
            let d6 = crate::text::i64_to_dec(p.data.cpu_data.cpu_temp as i64);
            l6.append(d6.as_str());
            l6.append("°C");
            lines.push(l6);
            proof {
                assert(crate::text::text_views(lines@) =~= pane_lines_spec(*p));
            }
        },
        TypeData::Gpu => {
            let mut l = String::from_str("gpu informations: ");
            let joined = crate::text::join_with(&p.data.gpu_data.gpu_data_vulcan, ",");
            l.append(joined.as_str());
            lines.push(l);
            proof {
                assert(crate::text::text_views(lines@) =~= pane_lines_spec(*p));
            }
        },
        TypeData::Dram => {
            let mut items: Vec<String> = Vec::new();
            let disks = &p.data.dram_data.disks;
            let mut j: usize = 0;
            while j < disks.len()
                invariant
                    j <= disks@.len(),
                    items@.len() == j,
                    forall|k: int|
                        0 <= k < j ==> items@[k]@ == "name - "@ + disks@[k].0@ + "\n"@
                            + crate::snapshot::disk_text(disks@[k].1@),
                decreases disks@.len() - j,
            {
                let mut it = String::from_str("name - ");
                it.append(disks[j].0.as_str());
                it.append("\n");
                let dt = disks[j].1.to_string();
                it.append(dt.as_str());
                items.push(it);
                j += 1;
            }
            proof {
                assert forall|k: int| 0 <= k < items@.len() implies crate::text::text_views(
                    items@,
                )[k] == dram_item_texts(p.data.dram_data@)[k] by {
                    assert(crate::snapshot::entry_views(disks@)[k] == (
                        disks@[k].0@,
                        disks@[k].1@,
                    ));
                }
                assert(crate::text::text_views(items@) =~= dram_item_texts(p.data.dram_data@));
            }
            let joined = crate::text::join_with(&items, "\n*************************\n");
            lines.push(joined);
            proof {
                assert(crate::text::text_views(lines@) =~= pane_lines_spec(*p));
            }
        },
        TypeData::Ram => {
            let mut l = String::from_str("total memory: ");
            let d0 = crate::text::u64_to_dec(p.data.ram_data.total_memory / 1024000);
            l.append(d0.as_str());
            l.append("Mb");
            lines.push(l);
            let mut l1 = String::from_str("used memory: ");
            let d1 = crate::text::u64_to_dec(p.data.ram_data.used_memory / 1024000);
            l1.append(d1.as_str());
            l1.append("Mb");
            lines.push(l1);
            let mut l2 = String::from_str("total swap: ");
            let d2 = crate::text::u64_to_dec(p.data.ram_data.total_swap / 1024000);
            l2.append(d2.as_str());
            l2.append("Mb");
            lines.push(l2);
            let mut l3 = String::from_str("free swap: ");
            let d3 = crate::text::u64_to_dec(p.data.ram_data.free_swap / 1024000);
            l3.append(d3.as_str());
            l3.append("Mb");
            lines.push(l3);
            let mut l4 = String::from_str("used swap: ");
            let d4 = crate::text::u64_to_dec(p.data.ram_data.used_swap / 1024000);
            l4.append(d4.as_str());
            l4.append("Mb");
            lines.push(l4);
            let mut l5 = String::from_str("available memory: ");
            let d5 = crate::text::u64_to_dec(p.data.ram_data.available_memory / 1024000);
            l5.append(d5.as_str());
            l5.append("Mb");
            lines.push(l5);
            proof {
                assert(crate::text::text_views(lines@) =~= pane_lines_spec(*p));
            }
        },
        TypeData::Os => {
            let mut l = String::from_str("os type: ");
            l.append(p.data.os_data.os_type.as_str());
            lines.push(l);
            let mut l1 = String::from_str("name os: ");
            match &p.data.os_data.name_os {
                Some(s) => l1.append(s.as_str()),
                None => l1.append("unknown"),
            }
            lines.push(l1);
            let mut l2 = String::from_str("kernel version: ");
            match &p.data.os_data.kernel_version {
                Some(s) => l2.append(s.as_str()),
                None => l2.append("unknown"),
            }
            lines.push(l2);
            let mut l3 = String::from_str("os version: ");
            match &p.data.os_data.os_version {
                Some(s) => l3.append(s.as_str()),
                None => l3.append("unknown"),
            }
            lines.push(l3);
            let mut l4 = String::from_str("distribution: ");
            l4.append(p.data.os_data.distribution.as_str());
            lines.push(l4);
            let mut l5 = String::from_str("host name: ");
            match &p.data.os_data.host_name {
                Some(s) => l5.append(s.as_str()),
                None => l5.append("unknown"),
            }
            lines.push(l5);
            let mut l6 = String::from_str("cpu arch: ");
            l6.append(p.data.os_data.cpu_arch.as_str());
            lines.push(l6);
            proof {
                assert(crate::text::text_views(lines@) =~= pane_lines_spec(*p));
            }
        },
        TypeData::Network => {
            let mut items: Vec<String> = Vec::new();
            let nets = &p.data.network_data.data_network;
            let mut j: usize = 0;
            while j < nets.len()
                invariant
                    j <= nets@.len(),
                    items@.len() == j,
                    forall|k: int|
                        0 <= k < j ==> items@[k]@ == crate::snapshot::net_text(nets@[k]@),
                decreases nets@.len() - j,
            {
                let it = nets[j].to_string();
                items.push(it);
                j += 1;
            }
            proof {
                assert forall|k: int| 0 <= k < items@.len() implies crate::text::text_views(
                    items@,
                )[k] == net_item_texts(p.data.network_data@)[k] by {
                    assert(crate::snapshot::net_views(nets@)[k] == nets@[k]@);
                }
                assert(crate::text::text_views(items@) =~= net_item_texts(p.data.network_data@));
            }
            let mut l = String::from_str("network informations: ");
            let joined = crate::text::join_with(&items, ",");
            l.append(joined.as_str());
            lines.push(l);
            proof {
                assert(crate::text::text_views(lines@) =~= pane_lines_spec(*p));
            }
        },
        TypeData::Empty => {
            proof {
                assert(crate::text::text_views(lines@) =~= pane_lines_spec(*p));
            }
        },
    }
    lines
}

/// Projects a tree into its layout description.
fn project_tree(t: &PaneTree) -> (r: LayoutNode)
    ensures
        projects(r, *t),
    decreases *t,
{
    match t {
        PaneTree::Leaf { id, pane } => LayoutNode::Pane {
            id: *id,
            category: pane.type_data,
            lines: pane_lines(pane),
        },
        PaneTree::Split { id, axis, ratio, left, right } => {
            let first = project_tree(left);
            let second = project_tree(right);
            LayoutNode::Split {
                id: *id,
                axis: *axis,
                ratio: *ratio,
                first: Box::new(first),
                second: Box::new(second),
            }
        },
    }
}

impl ViewContainer {
    /// A read-only structural description of the current layout for the
    /// presentation layer.
    pub fn view(&self) -> (r: LayoutNode)
        ensures
            projects(r, self.panes),
    {
        project_tree(&self.panes)
    }
}

} // verus!
