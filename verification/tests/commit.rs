use aquariwm::geometry::Orientation;
use aquariwm::layout::{GroupNode, Node, WindowNode};
use std::cell::RefCell;

fn leaf(id: u32, width: u32, height: u32) -> Node<u32> {
    Node::Window(WindowNode { window: id, width, height })
}

fn accept(_: &u32, _: u32, _: u32) -> Result<(), String> {
    Ok(())
}

#[test]
fn three_leaves_share_a_horizontal_group_then_one_is_replaced() {
    let mut group: GroupNode<u32> = GroupNode::new(Orientation::LeftToRight, 900, 300);
    group.push_window(1);
    group.push_window(2);
    group.push_window(3);
    assert_eq!(group.apply_changes(&accept), Ok(()));
    assert_eq!(group.nodes, vec![leaf(1, 300, 300), leaf(2, 300, 300), leaf(3, 300, 300)]);
    assert_eq!(group.total_node_primary, 900);
    assert!(!group.changes_made());

    let removed = group.remove(1);
    assert_eq!(removed, leaf(2, 300, 300));
    group.push_window(4);
    // Baseline 900 - 300 = 600; the addition gets 900 / 3 = 300; the two old
    // leaves share 900 - 300 = 600: each 300 * 600 / 600 = 300.
    assert_eq!(group.apply_changes(&accept), Ok(()));
    assert_eq!(group.nodes, vec![leaf(1, 300, 300), leaf(3, 300, 300), leaf(4, 300, 300)]);
    assert_eq!(group.total_node_primary, 900);
    assert_eq!(group.total_removed_primary, 0);
    assert!(group.additions.is_empty());
}

#[test]
fn shares_give_each_childs_primary_and_the_total() {
    let mut group: GroupNode<u32> = GroupNode::new(Orientation::LeftToRight, 900, 300);
    group.push_window(1);
    group.push_window(2);
    assert_eq!(group.shares(), (vec![450, 450], 900));
    assert_eq!(group.apply_changes(&accept), Ok(()));
    group.insert_window(1, 3);
    // The addition gets 900 / 3 = 300; each old leaf 450 * 600 / 900 = 300.
    assert_eq!(group.shares(), (vec![300, 300, 300], 900));
    group.set_width(1000);
    // The addition gets 1000 / 3 = 333; each old leaf 450 * 667 / 900 = 333.
    assert_eq!(group.shares(), (vec![333, 333, 333], 999));
}

#[test]
fn rounding_is_down_and_the_rest_is_lost() {
    let mut group: GroupNode<u32> = GroupNode::new(Orientation::LeftToRight, 100, 10);
    group.push_window(1);
    group.push_window(2);
    group.push_window(3);
    assert_eq!(group.apply_changes(&accept), Ok(()));
    assert_eq!(group.nodes, vec![leaf(1, 33, 10), leaf(2, 33, 10), leaf(3, 33, 10)]);
    assert_eq!(group.total_node_primary, 99);
    group.set_width(200);
    // Each old leaf: 33 * 200 / 99 = 66.
    assert_eq!(group.apply_changes(&accept), Ok(()));
    assert_eq!(group.nodes, vec![leaf(1, 66, 10), leaf(2, 66, 10), leaf(3, 66, 10)]);
    assert_eq!(group.total_node_primary, 198);
    assert_eq!(group.width, 200);
}

#[test]
fn uneven_old_children_are_scaled_in_proportion() {
    let mut group: GroupNode<u32> = GroupNode::new(Orientation::LeftToRight, 1000, 100);
    group.push_window(1);
    group.push_window(2);
    assert_eq!(group.apply_changes(&accept), Ok(()));
    group.push_window(3);
    assert_eq!(group.apply_changes(&accept), Ok(()));
    // First: 500 each. Then the addition gets 1000 / 3 = 333 and each old
    // leaf 500 * 667 / 1000 = 333.
    assert_eq!(group.nodes, vec![leaf(1, 333, 100), leaf(2, 333, 100), leaf(3, 333, 100)]);
    assert_eq!(group.total_node_primary, 999);
    let _ = group.remove(0);
    let _ = group.remove(0);
    group.push_window(4);
    group.push_window(5);
    // Baseline 999 - 666 = 333; each addition gets 1000 / 3 = 333; the old
    // leaf gets 333 * (1000 - 666) / 333 = 334.
    assert_eq!(group.apply_changes(&accept), Ok(()));
    assert_eq!(group.nodes, vec![leaf(3, 334, 100), leaf(4, 333, 100), leaf(5, 333, 100)]);
    assert_eq!(group.total_node_primary, 1000);
}

#[test]
fn commit_without_changes_changes_nothing() {
    let mut group: GroupNode<u32> = GroupNode::new(Orientation::TopToBottom, 100, 90);
    group.push_window(1);
    group.push_group(Orientation::LeftToRight);
    group.push_window(2);
    assert_eq!(group.apply_changes(&accept), Ok(()));
    match group.get_mut(1) {
        Some(Node::Group(nested)) => {
            nested.push_window(3);
            assert_eq!(nested.apply_changes(&accept), Ok(()));
        },
        _ => panic!("a group was pushed"),
    }
    let calls = RefCell::new(0u32);
    let count = |_: &u32, _: u32, _: u32| -> Result<(), String> {
        *calls.borrow_mut() += 1;
        Ok(())
    };
    let snapshot = format!("{:?}", group);
    assert_eq!(group.apply_changes(&count), Ok(()));
    assert_eq!(format!("{:?}", group), snapshot);
    assert_eq!(*calls.borrow(), 0);
}

#[test]
fn every_child_gets_the_secondary_extent_of_the_group() {
    let mut group: GroupNode<u32> = GroupNode::new(Orientation::TopToBottom, 640, 480);
    group.push_window(1);
    group.push_group(Orientation::LeftToRight);
    group.push_window(2);
    assert_eq!(group.apply_changes(&accept), Ok(()));
    for node in group.nodes.iter() {
        assert_eq!(node.width(), 640);
        assert_eq!(node.height(), 160);
    }
    group.set_width(700);
    assert_eq!(group.apply_changes(&accept), Ok(()));
    for node in group.nodes.iter() {
        assert_eq!(node.width(), 700);
        assert_eq!(node.height(), 160);
    }
}

#[test]
fn a_turn_rescales_from_the_extents_along_the_old_axis() {
    let mut group: GroupNode<u32> = GroupNode::new(Orientation::LeftToRight, 900, 300);
    group.push_window(1);
    group.push_window(2);
    group.push_window(3);
    assert_eq!(group.apply_changes(&accept), Ok(()));
    group.rotate_by(1);
    // Vertical now: the group's primary is 300; each old leaf had 300 along
    // the old axis out of 900, and gets 300 * 300 / 900 = 100.
    assert_eq!(group.apply_changes(&accept), Ok(()));
    assert_eq!(group.orientation, Orientation::TopToBottom);
    assert_eq!(group.nodes, vec![leaf(1, 900, 100), leaf(2, 900, 100), leaf(3, 900, 100)]);
    assert_eq!(group.total_node_primary, 300);
}

#[test]
fn the_callback_gets_each_window_with_primary_and_secondary_in_logical_order() {
    let calls = RefCell::new(Vec::new());
    let record = |window: &u32, primary: u32, secondary: u32| -> Result<(), String> {
        calls.borrow_mut().push((*window, primary, secondary));
        Ok(())
    };
    let mut group: GroupNode<u32> = GroupNode::new(Orientation::BottomToTop, 50, 400);
    group.push_window(1);
    group.push_window(2);
    group.push_window(3);
    group.push_window(4);
    assert_eq!(group.apply_changes(&record), Ok(()));
    assert_eq!(*calls.borrow(), vec![(1, 100, 50), (2, 100, 50), (3, 100, 50), (4, 100, 50)]);
    assert_eq!(group.nodes[3], leaf(1, 50, 100));
}

#[test]
fn a_nested_group_is_sized_by_its_parent_and_then_committed() {
    let calls = RefCell::new(Vec::new());
    let record = |window: &u32, primary: u32, secondary: u32| -> Result<(), String> {
        calls.borrow_mut().push((*window, primary, secondary));
        Ok(())
    };
    let mut group: GroupNode<u32> = GroupNode::new(Orientation::LeftToRight, 800, 600);
    group.push_window(1);
    group.push_group(Orientation::TopToBottom);
    match group.get_mut(1) {
        Some(Node::Group(nested)) => {
            nested.push_window(2);
            nested.push_window(3);
        },
        _ => panic!("a group was pushed"),
    }
    assert_eq!(group.apply_changes(&record), Ok(()));
    assert_eq!(*calls.borrow(), vec![(1, 400, 600), (2, 300, 400), (3, 300, 400)]);
    assert_eq!(group.nodes[0], leaf(1, 400, 600));
    match &group.nodes[1] {
        Node::Group(nested) => {
            assert_eq!((nested.width, nested.height), (400, 600));
            assert_eq!(nested.nodes, vec![leaf(2, 400, 300), leaf(3, 400, 300)]);
            assert_eq!(nested.total_node_primary, 600);
            assert!(!nested.changes_made());
        },
        Node::Window(_) => panic!("a group was pushed"),
    }
    assert_eq!(group.total_node_primary, 800);
}

#[test]
fn a_quiet_parent_still_commits_the_groups_below_it() {
    let mut group: GroupNode<u32> = GroupNode::new(Orientation::LeftToRight, 800, 600);
    group.push_group(Orientation::TopToBottom);
    assert_eq!(group.apply_changes(&accept), Ok(()));
    match group.get_mut(0) {
        Some(Node::Group(nested)) => nested.push_window(7),
        _ => panic!("a group was pushed"),
    }
    assert!(!group.changes_made());
    assert_eq!(group.apply_changes(&accept), Ok(()));
    match &group.nodes[0] {
        Node::Group(nested) => assert_eq!(nested.nodes, vec![leaf(7, 800, 600)]),
        Node::Window(_) => panic!("a group was pushed"),
    }
}

#[test]
fn the_first_error_ends_the_commit_and_nothing_is_rolled_back() {
    let refuse_second = |window: &u32, _: u32, _: u32| -> Result<(), String> {
        if *window == 2 {
            Err(String::from("refused"))
        } else {
            Ok(())
        }
    };
    let mut group: GroupNode<u32> = GroupNode::new(Orientation::LeftToRight, 900, 300);
    group.push_window(1);
    group.push_window(2);
    group.push_window(3);
    assert_eq!(group.apply_changes(&refuse_second), Err(String::from("refused")));
    assert_eq!(group.nodes[0], leaf(1, 300, 300));
    assert_eq!(group.nodes[1], leaf(2, 300, 300));
    assert_eq!(group.nodes[2], leaf(3, 0, 0));
    assert_eq!(group.len(), 3);
    assert!(group.additions.is_empty());
    assert_eq!(group.total_node_primary, 0);
}

#[test]
fn an_error_below_is_handed_up() {
    let refuse = |_: &u32, _: u32, _: u32| -> Result<(), u8> { Err(7) };
    let mut group: GroupNode<u32> = GroupNode::new(Orientation::LeftToRight, 800, 600);
    group.push_group(Orientation::TopToBottom);
    match group.get_mut(0) {
        Some(Node::Group(nested)) => nested.push_window(1),
        _ => panic!("a group was pushed"),
    }
    assert_eq!(group.apply_changes(&refuse), Err(7));
}

#[test]
fn an_empty_group_with_changes_commits_without_dividing() {
    let mut group: GroupNode<u32> = GroupNode::new(Orientation::LeftToRight, 900, 300);
    group.set_width(100);
    group.set_height(200);
    group.rotate_by(3);
    assert_eq!(group.shares(), (Vec::new(), 0));
    assert_eq!(group.apply_changes(&accept), Ok(()));
    assert_eq!((group.width, group.height), (100, 200));
    assert_eq!(group.orientation, Orientation::BottomToTop);
    assert_eq!(group.total_node_primary, 0);
    assert_eq!((group.new_width, group.new_height, group.new_orientation), (None, None, None));

    group.push_window(1);
    let _ = group.remove(0);
    assert!(!group.changes_made());
    assert_eq!(group.apply_changes(&accept), Ok(()));
}

#[test]
fn old_children_of_a_baseline_of_nothing_get_nothing() {
    let mut group: GroupNode<u32> = GroupNode::new(Orientation::LeftToRight, 2, 10);
    group.push_window(1);
    group.push_window(2);
    group.push_window(3);
    assert_eq!(group.apply_changes(&accept), Ok(()));
    assert_eq!(group.total_node_primary, 0);
    group.set_width(300);
    assert_eq!(group.apply_changes(&accept), Ok(()));
    assert_eq!(group.nodes, vec![leaf(1, 0, 10), leaf(2, 0, 10), leaf(3, 0, 10)]);
    assert_eq!(group.total_node_primary, 0);
}

#[test]
fn the_sum_of_the_shares_never_exceeds_the_group() {
    let mut group: GroupNode<u32> = GroupNode::new(Orientation::LeftToRight, u32::MAX, 7);
    for id in 0..7 {
        group.push_window(id);
    }
    assert_eq!(group.apply_changes(&accept), Ok(()));
    // 4294967295 / 7 = 613566756, seven times 4294967292.
    assert_eq!(group.total_node_primary, 4294967292);
    let _ = group.remove(3);
    group.insert_window(2, 9);
    group.insert_window(5, 10);
    assert_eq!(group.apply_changes(&accept), Ok(()));
    let sum: u64 = group.nodes.iter().map(|node| u64::from(node.width())).sum();
    assert_eq!(sum, u64::from(group.total_node_primary));
    assert!(sum <= u64::from(u32::MAX));
    // Each addition: 4294967295 / 8 = 536870911. Budget 4294967295 -
    // 1073741822 = 3221225473, baseline 4294967292 - 613566756 = 3681400536;
    // each old leaf: 613566756 * 3221225473 / 3681400536 = 536870912.
    assert_eq!(group.nodes[2].width(), 536870911);
    assert_eq!(group.nodes[0].width(), 536870912);
    assert_eq!(group.total_node_primary, 2 * 536870911 + 6 * 536870912);
}
