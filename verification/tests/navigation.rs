use pipemind_rust::navigation::{NavigationItem, NavigationState, NavigationTree};

fn sample() -> NavigationTree {
    NavigationTree::new(vec![
        NavigationItem::new("One"),
        NavigationItem::with_submenu(
            "Two",
            vec![
                NavigationItem::new("a"),
                NavigationItem::new("b"),
                NavigationItem::new("c"),
                NavigationItem::new("d"),
            ],
        ),
        NavigationItem::with_submenu("Three", vec![]),
    ])
}

#[test]
fn item_constructors() {
    let leaf = NavigationItem::new("Home");
    assert_eq!(leaf.name, "Home");
    assert!(leaf.submenu.is_none());
    let parent = NavigationItem::with_submenu("Tools", vec![NavigationItem::new("Open")]);
    assert_eq!(parent.name, "Tools");
    let children = parent.submenu.expect("a submenu");
    assert_eq!(children.len(), 1);
    assert_eq!(children[0].name, "Open");
}

#[test]
fn new_tree_starts_at_root() {
    let tree = sample();
    assert_eq!(tree.state(), NavigationState::Main);
    assert_eq!(tree.selection(), 0);
    assert_eq!(tree.current_count(), 3);
    assert_eq!(tree.current_items(), vec!["One", "Two", "Three"]);
    assert!(!tree.is_in_submenu());
    assert_eq!(tree.parent_name(), None);
}

#[test]
fn empty_catalog_is_inert() {
    let mut tree = NavigationTree::new(Vec::new());
    assert_eq!(tree.current_count(), 0);
    assert!(tree.current_items().is_empty());
    tree.select(7);
    assert_eq!(tree.selection(), 0);
    tree.move_selection(1);
    assert_eq!(tree.selection(), 0);
    tree.move_selection(-1);
    assert_eq!(tree.selection(), 0);
    assert!(!tree.enter_submenu());
    assert!(!tree.exit_submenu());
    assert_eq!(tree.state(), NavigationState::Main);
}

#[test]
fn select_clamps() {
    let mut tree = sample();
    tree.select(2);
    assert_eq!(tree.selection(), 2);
    tree.select(3);
    assert_eq!(tree.selection(), 2);
    tree.select(usize::MAX);
    assert_eq!(tree.selection(), 2);
    tree.select(0);
    assert_eq!(tree.selection(), 0);
}

#[test]
fn move_selection_never_wraps() {
    let mut tree = sample();
    tree.move_selection(1);
    assert_eq!(tree.selection(), 1);
    tree.move_selection(1);
    tree.move_selection(1);
    assert_eq!(tree.selection(), 2);
    tree.move_selection(1);
    assert_eq!(tree.selection(), 2);
    tree.move_selection(-1);
    assert_eq!(tree.selection(), 1);
    tree.move_selection(-1);
    tree.move_selection(-1);
    assert_eq!(tree.selection(), 0);
    tree.move_selection(-1);
    assert_eq!(tree.selection(), 0);
    tree.move_selection(isize::MAX);
    assert_eq!(tree.selection(), 2);
    tree.move_selection(isize::MIN);
    assert_eq!(tree.selection(), 0);
}

#[test]
fn enter_and_exit_round_trip() {
    let mut tree = sample();
    tree.select(1);
    assert!(tree.enter_submenu());
    assert_eq!(tree.state(), NavigationState::Submenu { parent_index: 1 });
    assert_eq!(tree.selection(), 0);
    assert!(tree.is_in_submenu());
    assert_eq!(tree.current_count(), 4);
    assert_eq!(tree.current_items(), vec!["a", "b", "c", "d"]);
    assert_eq!(tree.parent_name(), Some("Two".to_string()));
    assert!(tree.exit_submenu());
    assert_eq!(tree.state(), NavigationState::Main);
    assert_eq!(tree.selection(), 1);
}

#[test]
fn exit_restores_parent_even_from_a_far_entry() {
    let mut tree = sample();
    tree.select(1);
    tree.enter_submenu();
    tree.select(3);
    assert_eq!(tree.selection(), 3);
    tree.exit_submenu();
    assert_eq!(tree.selection(), 1);
    assert_eq!(tree.current_count(), 3);
}

#[test]
fn enter_is_refused_on_leaf_and_on_empty_submenu() {
    let mut tree = sample();
    assert!(!tree.enter_submenu());
    assert_eq!(tree.state(), NavigationState::Main);
    tree.select(2);
    assert!(!tree.enter_submenu());
    assert_eq!(tree.state(), NavigationState::Main);
    assert_eq!(tree.selection(), 2);
}

#[test]
fn enter_inside_submenu_is_refused() {
    let mut tree = sample();
    tree.select(1);
    tree.enter_submenu();
    tree.select(1);
    assert!(!tree.enter_submenu());
    assert_eq!(tree.state(), NavigationState::Submenu { parent_index: 1 });
    assert_eq!(tree.selection(), 1);
}

#[test]
fn exit_at_root_is_refused() {
    let mut tree = sample();
    tree.select(2);
    assert!(!tree.exit_submenu());
    assert_eq!(tree.selection(), 2);
}

#[test]
fn entries_below_a_submenu_are_out_of_reach() {
    let deep = NavigationItem::with_submenu("inner", vec![NavigationItem::new("hidden")]);
    let mut tree = NavigationTree::new(vec![NavigationItem::with_submenu("outer", vec![deep])]);
    assert!(tree.enter_submenu());
    assert_eq!(tree.current_items(), vec!["inner"]);
    assert!(!tree.enter_submenu());
    assert_eq!(tree.current_items(), vec!["inner"]);
    assert_eq!(tree.state(), NavigationState::Submenu { parent_index: 0 });
}
