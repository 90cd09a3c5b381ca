use mctk::node::NodeIdTree;

fn leaf(id: u64) -> NodeIdTree {
    NodeIdTree { id, children: vec![] }
}

fn sample() -> NodeIdTree {
    NodeIdTree {
        id: 0,
        children: vec![
            NodeIdTree { id: 1, children: vec![leaf(3), leaf(4)] },
            NodeIdTree { id: 2, children: vec![leaf(5), NodeIdTree { id: 6, children: vec![leaf(7)] }] },
        ],
    }
}

#[test]
fn target_stack_finds_nodes() {
    let t = sample();
    assert_eq!(t.get_target_stack(0), Some(vec![]));
    assert_eq!(t.get_target_stack(4), Some(vec![0, 1]));
    assert_eq!(t.get_target_stack(7), Some(vec![1, 1, 0]));
    assert_eq!(t.get_target_stack(9), None);
}

#[test]
fn target_stack_leads_back_to_target() {
    let t = sample();
    for id in 0..8 {
        let stack = t.get_target_stack(id).unwrap();
        assert_eq!(t.get_target_from_stack(&stack).id, id);
    }
}

#[test]
fn target_stack_prefers_first_in_depth_first_order() {
    let t = NodeIdTree {
        id: 0,
        children: vec![NodeIdTree { id: 1, children: vec![leaf(9)] }, leaf(9)],
    };
    assert_eq!(t.get_target_stack(9), Some(vec![0, 0]));
}

#[test]
fn children_take_over_by_first_matching_key() {
    let previous = [7u64, 3, 7, 9];
    assert_eq!(mctk::node::matching_child(&previous, 7), Some(0));
    assert_eq!(mctk::node::matching_child(&previous, 9), Some(3));
    assert_eq!(mctk::node::matching_child(&previous, 4), None);
    assert_eq!(mctk::node::matching_child(&[], 4), None);
    let m = mctk::node::match_children(&previous, &[9, 4, 7, 3]);
    assert_eq!(m, vec![Some(3), None, Some(0), Some(1)]);
}

use mctk::node::{
    bubble_paths, new_node_id, place_view_child, reconcile, ViewAction, ViewError, ViewNode,
};

fn vnode(key: u64, props: u64, regs: Vec<u64>, children: Vec<ViewNode>) -> ViewNode {
    ViewNode { id: 0, key, props_hash: props, registrations: regs, children }
}

#[test]
fn fresh_tree_takes_fresh_ids_and_registers_children_first() {
    let mut root = vnode(0, 1, vec![10], vec![vnode(1, 2, vec![20], vec![]), vnode(2, 3, vec![30, 31], vec![])]);
    let mut next = 5u64;
    let mut regs = vec![];
    let actions = reconcile(&mut root, None, &mut next, &mut regs);
    assert_eq!(root.id, 5);
    assert_eq!(root.children[0].id, 6);
    assert_eq!(root.children[1].id, 7);
    assert_eq!(next, 8);
    assert_eq!(actions, vec![ViewAction::Init(5), ViewAction::Init(6), ViewAction::Init(7)]);
    assert_eq!(regs, vec![(20, 6), (30, 7), (31, 7), (10, 5)]);
}

#[test]
fn rebuilt_tree_keeps_ids_by_key_and_reports_new_props() {
    let mut prev = vnode(0, 1, vec![], vec![vnode(1, 2, vec![], vec![]), vnode(2, 3, vec![], vec![])]);
    let mut next = 1u64;
    let mut regs = vec![];
    reconcile(&mut prev, None, &mut next, &mut regs);
    // The children come back swapped, one with new properties, and a new one joins.
    let mut root = vnode(0, 1, vec![], vec![
        vnode(2, 3, vec![], vec![]),
        vnode(1, 9, vec![], vec![]),
        vnode(4, 0, vec![], vec![]),
    ]);
    let mut regs = vec![];
    let actions = reconcile(&mut root, Some(&prev), &mut next, &mut regs);
    assert_eq!(root.id, prev.id);
    assert_eq!(root.children[0].id, prev.children[1].id);
    assert_eq!(root.children[1].id, prev.children[0].id);
    assert_eq!(root.children[2].id, 4);
    assert_eq!(next, 5);
    assert_eq!(actions, vec![
        ViewAction::TakeState(1),
        ViewAction::TakeState(3),
        ViewAction::TakeState(2),
        ViewAction::NewProps(2),
        ViewAction::Init(4),
    ]);
}

#[test]
fn view_children_go_where_the_container_says() {
    // Not a container: the viewed child is the only child.
    let mut n = vnode(0, 0, vec![], vec![]);
    assert_eq!(place_view_child(&mut n, vnode(7, 0, vec![], vec![]), None), Ok(()));
    assert_eq!(n.children.len(), 1);
    assert_eq!(n.children[0].key, 7);
    // Children pushed onto a node that is not a container.
    let mut n = vnode(0, 0, vec![], vec![vnode(1, 0, vec![], vec![])]);
    assert_eq!(place_view_child(&mut n, vnode(7, 0, vec![], vec![]), None), Err(ViewError::NotAContainer));
    assert_eq!(n.children.len(), 1);
    // An empty path: the viewed child first, then the pushed ones.
    let mut n = vnode(0, 0, vec![], vec![vnode(1, 0, vec![], vec![]), vnode(2, 0, vec![], vec![])]);
    assert_eq!(place_view_child(&mut n, vnode(7, 0, vec![], vec![]), Some(&[])), Ok(()));
    let keys: Vec<u64> = n.children.iter().map(|c| c.key).collect();
    assert_eq!(keys, vec![7, 1, 2]);
    // A path into the viewed child: the pushed children go there.
    let mut n = vnode(0, 0, vec![], vec![vnode(1, 0, vec![], vec![])]);
    let child = vnode(7, 0, vec![], vec![vnode(8, 0, vec![], vec![]), vnode(9, 0, vec![], vec![])]);
    assert_eq!(place_view_child(&mut n, child, Some(&[0, 1])), Ok(()));
    assert_eq!(n.children.len(), 1);
    assert_eq!(n.children[0].children[1].children.len(), 1);
    assert_eq!(n.children[0].children[1].children[0].key, 1);
    // A path that does not start at 0, or leads nowhere.
    let mut n = vnode(0, 0, vec![], vec![vnode(1, 0, vec![], vec![])]);
    assert_eq!(place_view_child(&mut n, vnode(7, 0, vec![], vec![]), Some(&[1])), Err(ViewError::BadContainerPath));
    assert_eq!(place_view_child(&mut n, vnode(7, 0, vec![], vec![]), Some(&[0, 3])), Err(ViewError::BadContainerPath));
    assert_eq!(n.children.len(), 1);
    assert_eq!(n.children[0].key, 1);
}

#[test]
fn node_ids_count_up_and_wrap() {
    let mut next = 1u64;
    assert_eq!(new_node_id(&mut next), 1);
    assert_eq!(new_node_id(&mut next), 2);
    let mut last = u64::MAX;
    assert_eq!(new_node_id(&mut last), u64::MAX);
    assert_eq!(last, 0);
}

#[test]
fn messages_bubble_up_to_the_root() {
    let paths = bubble_paths(&vec![2, 0, 1]);
    assert_eq!(paths, vec![vec![2, 0, 1], vec![2, 0], vec![2], vec![]]);
    assert_eq!(bubble_paths(&vec![]), vec![Vec::<usize>::new()]);
}
