use sysmon::layout::{PaneError, PaneTree, TypeData};
use sysmon::view::{LayoutNode, Message, ViewContainer};

fn leaf_count(n: &LayoutNode) -> usize {
    match n {
        LayoutNode::Pane { .. } => 1,
        LayoutNode::Split { first, second, .. } => leaf_count(first) + leaf_count(second),
    }
}

fn leaf_categories(n: &LayoutNode, out: &mut Vec<TypeData>) {
    match n {
        LayoutNode::Pane { category, .. } => out.push(*category),
        LayoutNode::Split { first, second, .. } => {
            leaf_categories(first, out);
            leaf_categories(second, out);
        }
    }
}

fn root_split_id(n: &LayoutNode) -> u64 {
    match n {
        LayoutNode::Split { id, .. } => *id,
        LayoutNode::Pane { .. } => panic!("expected a split at the root"),
    }
}

fn flatten(n: &LayoutNode, out: &mut Vec<(u64, Option<u32>, Vec<String>)>) {
    match n {
        LayoutNode::Pane { id, lines, .. } => out.push((*id, None, lines.clone())),
        LayoutNode::Split { id, ratio, first, second, .. } => {
            out.push((*id, Some(*ratio), Vec::new()));
            flatten(first, out);
            flatten(second, out);
        }
    }
}

#[test]
fn initial_container_shows_one_unbound_pane() {
    let v = ViewContainer::default();
    assert_eq!(v.count, 1);
    let view = v.view();
    assert_eq!(leaf_count(&view), 1);
    let mut cats = Vec::new();
    leaf_categories(&view, &mut cats);
    assert_eq!(cats, vec![TypeData::Empty]);
}

#[test]
fn first_request_splits_into_two_panes() {
    let mut v = ViewContainer::default();
    let res = v.update(Message::Data(0, TypeData::Cpu));
    assert_eq!(res, Ok(()));
    assert_eq!(v.count, 2);
    let view = v.view();
    assert_eq!(leaf_count(&view), 2);
    let mut cats = Vec::new();
    leaf_categories(&view, &mut cats);
    assert_eq!(cats, vec![TypeData::Empty, TypeData::Cpu]);
    // The bound pane carries processor content.
    match &view {
        LayoutNode::Split { second, .. } => match &**second {
            LayoutNode::Pane { lines, .. } => {
                assert_eq!(lines.len(), 7);
                assert!(lines[0].starts_with("count logical cores: "));
            }
            _ => panic!("expected a pane"),
        },
        _ => panic!("expected a split"),
    }
}

#[test]
fn request_at_the_cap_evicts_exactly_one_pane() {
    let mut v = ViewContainer::default();
    assert_eq!(v.update(Message::Data(0, TypeData::Cpu)), Ok(()));
    // The unbound pane keeps its identity through the split.
    let res = v.update(Message::Data(0, TypeData::Ram));
    assert_eq!(res, Ok(()));
    assert_eq!(v.count, 2);
    let view = v.view();
    assert_eq!(leaf_count(&view), 2);
    let mut cats = Vec::new();
    leaf_categories(&view, &mut cats);
    assert_eq!(cats.len(), 2);
    assert!(cats.contains(&TypeData::Ram));
}

#[test]
fn pane_count_never_leaves_its_bounds() {
    let mut v = ViewContainer::default();
    let requests = [
        TypeData::Cpu,
        TypeData::Gpu,
        TypeData::Dram,
        TypeData::Ram,
        TypeData::Os,
        TypeData::Network,
    ];
    for cat in requests.iter() {
        let _ = v.update(Message::Data(0, *cat));
        assert!(1 <= v.count && v.count <= 2);
        let view = v.view();
        assert_eq!(leaf_count(&view) as i32, v.count);
    }
}

#[test]
fn request_naming_a_missing_pane_fails_and_changes_nothing() {
    let mut v = ViewContainer::default();
    assert_eq!(v.update(Message::Data(0, TypeData::Cpu)), Ok(()));
    let mut before = Vec::new();
    flatten(&v.view(), &mut before);
    let count_before = v.count;
    let res = v.update(Message::Data(99, TypeData::Os));
    assert_eq!(res, Err(PaneError::InvalidPaneReference));
    assert_eq!(v.count, count_before);
    let mut after = Vec::new();
    flatten(&v.view(), &mut after);
    assert_eq!(before, after);
}

#[test]
fn resize_clamps_low_ratios_to_zero() {
    let mut v = ViewContainer::default();
    assert_eq!(v.update(Message::Data(0, TypeData::Cpu)), Ok(()));
    let split = root_split_id(&v.view());
    assert_eq!(v.update(Message::Resized(split, -500)), Ok(()));
    assert_eq!(v.panes.split_ratio(split), Some(0));
}

#[test]
fn resize_clamps_high_ratios_to_the_unit() {
    let mut v = ViewContainer::default();
    assert_eq!(v.update(Message::Data(0, TypeData::Cpu)), Ok(()));
    let split = root_split_id(&v.view());
    assert_eq!(v.update(Message::Resized(split, 1700)), Ok(()));
    assert_eq!(v.panes.split_ratio(split), Some(1000));
}

#[test]
fn resize_stores_in_range_ratios_as_given() {
    let mut v = ViewContainer::default();
    assert_eq!(v.update(Message::Data(0, TypeData::Cpu)), Ok(()));
    let split = root_split_id(&v.view());
    assert_eq!(v.panes.split_ratio(split), Some(500));
    assert_eq!(v.update(Message::Resized(split, 250)), Ok(()));
    assert_eq!(v.panes.split_ratio(split), Some(250));
}

#[test]
fn resize_twice_equals_resize_once() {
    let mut v = ViewContainer::default();
    assert_eq!(v.update(Message::Data(0, TypeData::Cpu)), Ok(()));
    let split = root_split_id(&v.view());
    assert_eq!(v.update(Message::Resized(split, 300)), Ok(()));
    let mut once = Vec::new();
    flatten(&v.view(), &mut once);
    let count_once = v.count;
    assert_eq!(v.update(Message::Resized(split, 300)), Ok(()));
    let mut twice = Vec::new();
    flatten(&v.view(), &mut twice);
    assert_eq!(once, twice);
    assert_eq!(v.count, count_once);
}

#[test]
fn resize_naming_a_missing_split_fails_and_changes_nothing() {
    let mut v = ViewContainer::default();
    assert_eq!(v.update(Message::Data(0, TypeData::Cpu)), Ok(()));
    let split = root_split_id(&v.view());
    let mut before = Vec::new();
    flatten(&v.view(), &mut before);
    let res = v.update(Message::Resized(split + 40, 250));
    assert_eq!(res, Err(PaneError::InvalidPaneReference));
    let mut after = Vec::new();
    flatten(&v.view(), &mut after);
    assert_eq!(before, after);
}

#[test]
fn split_keeps_the_target_pane_and_its_content() {
    let mut v = ViewContainer::default();
    assert_eq!(v.update(Message::Data(0, TypeData::Cpu)), Ok(()));
    match &v.panes {
        PaneTree::Split { left, right, ratio, .. } => {
            assert_eq!(*ratio, 500);
            match &**left {
                PaneTree::Leaf { id, pane } => {
                    assert_eq!(*id, 0);
                    assert_eq!(pane.type_data, TypeData::Empty);
                }
                _ => panic!("expected the retained pane on the first side"),
            }
            match &**right {
                PaneTree::Leaf { pane, .. } => assert_eq!(pane.type_data, TypeData::Cpu),
                _ => panic!("expected the new pane on the second side"),
            }
        }
        _ => panic!("expected a split"),
    }
}
