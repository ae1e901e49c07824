use adabraka_gpui::a11y::{A11yActivation, A11yNode, A11yNodeBuilder, TreeUpdate, ROOT_NODE_ID};
use adabraka_gpui::a11y::repair_tree_update;
use adabraka_gpui::a11y_debug::debug_id;
use adabraka_gpui::a11y_debug::{debug_label, sorted_node_ids};

#[test]
fn finalizes_tree_with_root_and_focus() {
    let mut builder: A11yNodeBuilder<&'static str> = A11yNodeBuilder::new();
    let child_id = 1;

    builder.begin_frame("Window");
    assert!(builder.push(child_id, "Button"));
    builder.set_focus(child_id);
    builder.pop();

    let update = builder.finalize();

    assert_eq!(update.root, ROOT_NODE_ID);
    assert_eq!(update.focus, child_id);
    assert!(update.nodes.iter().any(|(id, _)| *id == ROOT_NODE_ID));
    assert!(update.nodes.iter().any(|(id, _)| *id == child_id));
}

#[test]
fn active_flag_is_snapshotted_until_sync() {
    let mut active_flag = false;
    let mut a11y = A11yActivation::new(false);

    a11y.sync_active_flag(active_flag);
    assert!(!a11y.is_active());

    active_flag = true;
    assert!(!a11y.is_active());

    a11y.sync_active_flag(active_flag);
    assert!(a11y.is_active());
}

#[test]
fn force_disabled_ignores_active_flag() {
    let active_flag = true;
    let mut a11y = A11yActivation::new(true);

    a11y.sync_active_flag(active_flag);

    assert!(!a11y.is_active());
}

#[test]
fn invalid_focus_falls_back_to_root() {
    let mut builder: A11yNodeBuilder<&'static str> = A11yNodeBuilder::new();

    builder.begin_frame("Window");
    builder.set_focus(999);

    let update = builder.finalize();

    assert_eq!(update.focus, ROOT_NODE_ID);
}

#[test]
fn debug_ids_remain_short_after_z() {
    assert_eq!(debug_id(0), "a");
    assert_eq!(debug_id(25), "z");
    assert_eq!(debug_id(26), "aa");
    assert_eq!(debug_id(27), "ab");
}

#[test]
fn debug_ids_continue_in_bijective_base_26() {
    assert_eq!(debug_id(51), "az");
    assert_eq!(debug_id(52), "ba");
    assert_eq!(debug_id(701), "zz");
    assert_eq!(debug_id(702), "aaa");
}

#[test]
fn duplicate_ids_are_rejected_and_children_are_recorded() {
    let mut builder: A11yNodeBuilder<u8> = A11yNodeBuilder::new();
    builder.begin_frame(0);
    assert!(builder.push(5, 1));
    assert!(builder.push(6, 2));
    builder.pop();
    builder.pop();
    assert!(!builder.push(5, 3));
    assert!(builder.has_node(ROOT_NODE_ID));
    assert!(builder.has_node(6));
    assert!(!builder.has_node(7));
    let update = builder.finalize();
    let ids: Vec<u64> = update.nodes.iter().map(|(id, _)| *id).collect();
    assert_eq!(ids, vec![6, 5, ROOT_NODE_ID]);
    let root = &update.nodes[2].1;
    assert_eq!(root.children, vec![5]);
    assert_eq!(update.nodes[1].1.children, vec![6]);
}

#[test]
fn unbalanced_frames_are_closed_at_finalize() {
    let mut builder: A11yNodeBuilder<u8> = A11yNodeBuilder::new();
    builder.begin_frame(0);
    assert!(builder.push(1, 1));
    assert!(builder.push(2, 2));
    builder.set_focus(2);
    let update = builder.finalize();
    let ids: Vec<u64> = update.nodes.iter().map(|(id, _)| *id).collect();
    assert_eq!(ids, vec![2, 1, ROOT_NODE_ID]);
    assert_eq!(update.focus, 2);
}

#[test]
fn repair_drops_children_that_are_not_in_the_tree() {
    let update = TreeUpdate {
        nodes: vec![
            (0, A11yNode { data: 'r', children: vec![1, 9, 2] }),
            (1, A11yNode { data: 'a', children: vec![] }),
            (2, A11yNode { data: 'b', children: vec![8] }),
        ],
        root: ROOT_NODE_ID,
        focus: 8,
    };
    let repaired = repair_tree_update(update);
    assert_eq!(repaired.focus, ROOT_NODE_ID);
    assert_eq!(repaired.nodes[0].1.children, vec![1, 2]);
    assert_eq!(repaired.nodes[2].1.children, Vec::<u64>::new());
    assert_eq!(repaired.nodes[1].1.data, 'a');
}

#[test]
fn dump_labels_follow_sorted_node_ids() {
    let sorted = sorted_node_ids(&vec![42, 7, 1000, 0]);
    assert_eq!(sorted, vec![0, 7, 42, 1000]);
    assert_eq!(debug_label(0, &sorted), "a");
    assert_eq!(debug_label(42, &sorted), "c");
    assert_eq!(debug_label(1000, &sorted), "d");
    assert_eq!(debug_label(999, &sorted), "999");
    let many: Vec<u64> = (0..30).collect();
    assert_eq!(debug_label(27, &sorted_node_ids(&many)), "ab");
}

#[test]
fn finalized_frames_name_each_node_once() {
    let mut builder: A11yNodeBuilder<&'static str> = A11yNodeBuilder::new();
    builder.begin_frame("Window");
    assert!(builder.push(5, "Toolbar"));
    assert!(builder.push(6, "Button"));
    builder.pop();
    assert!(!builder.push(6, "Button again"));
    assert!(builder.push(7, "Label"));
    builder.pop();
    builder.pop();
    assert!(builder.push(8, "Footer"));
    let update = builder.finalize();

    let mut ids: Vec<u64> = update.nodes.iter().map(|(id, _)| *id).collect();
    assert_eq!(ids.len(), 5);
    ids.sort_unstable();
    ids.dedup();
    assert_eq!(ids, vec![ROOT_NODE_ID, 5, 6, 7, 8]);
}

#[test]
fn repair_leaves_the_root_of_the_update_alone() {
    let update = TreeUpdate {
        nodes: vec![(5, A11yNode { data: 'r', children: vec![6, 7] }), (6, A11yNode { data: 'a', children: vec![] })],
        root: 5,
        focus: 6,
    };
    let repaired = repair_tree_update(update);
    assert_eq!(repaired.root, 5);
    assert_eq!(repaired.focus, 6);
    assert_eq!(repaired.nodes[0].1.children, vec![6]);
}

#[test]
fn debug_ids_read_back_as_the_index_plus_one() {
    for index in [0usize, 1, 25, 26, 51, 52, 675, 701, 702, 18277, 18278, 123456] {
        let id = debug_id(index);
        assert!(!id.is_empty());
        assert!(id.bytes().all(|c| c.is_ascii_lowercase()));
        let value = id.bytes().fold(0usize, |v, c| v * 26 + (c - b'a' + 1) as usize);
        assert_eq!(value, index + 1);
    }
    assert_eq!(debug_id(702), "aaa");
}
