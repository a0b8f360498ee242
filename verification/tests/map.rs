use darknode::map::app::App;
use darknode::map::info::NodeExtra;
use darknode::map::nodes::NodeMap;

#[test]
fn titles_carry_the_number() {
    let ids = App::get_node_id();
    assert_eq!(ids.len(), 99);
    assert_eq!(ids[0], "\nNode 1\n");
    assert_eq!(ids[8], "\nNode 9\n");
    assert_eq!(ids[9], "\nNode 10\n");
    assert_eq!(ids[98], "\nNode 99\n");
}

#[test]
fn infos_are_empty() {
    let infos = App::get_node_info();
    assert_eq!(infos.len(), 99);
    assert!(infos.iter().all(|info| info == ""));
}

#[test]
fn new_app_lists_every_node_once() {
    let app = App::new();
    assert_eq!(app.node_list.nodes.len(), 99);
    for num in 1..100 {
        let title = format!("\nNode {}\n", num);
        assert_eq!(app.node_list.nodes.get(&title).map(|info| info.as_str()), Some(""));
    }
    assert_eq!(app.node_list.nodes.get("\nNode 0\n"), None);
    assert_eq!(app.node_list.nodes.get("\nNode 100\n"), None);
    assert_eq!(app.node_list.nodes.get("Node 1"), None);
    assert_eq!(app.node_list.node_info, NodeExtra::new());
}

#[test]
fn nodes_can_be_walked() {
    let app = App::new();
    let mut titles = app.node_list.nodes.titles().clone();
    let mut ids = App::get_node_id();
    titles.sort();
    ids.sort();
    assert_eq!(titles, ids);
}

#[test]
fn last_text_of_a_node_is_shown() {
    let mut nodes = NodeMap::new();
    assert_eq!(nodes.len(), 0);
    nodes.insert("a".to_string(), "1".to_string());
    nodes.insert("b".to_string(), "2".to_string());
    nodes.insert("a".to_string(), "3".to_string());
    assert_eq!(nodes.len(), 2);
    assert_eq!(nodes.get("a").map(|info| info.as_str()), Some("3"));
    assert_eq!(nodes.get("b").map(|info| info.as_str()), Some("2"));
    assert_eq!(nodes.get("c"), None);
    assert_eq!(nodes.titles().len(), 2);
}

#[test]
fn clone_shows_the_same_and_is_apart() {
    let mut app = App::new();
    app.node_list.nodes.insert("x".to_string(), "up".to_string());
    let copy = app.clone();
    app.node_list.nodes.insert("x".to_string(), "down".to_string());
    assert_eq!(copy.node_list.nodes.len(), 100);
    for title in copy.node_list.nodes.titles() {
        let info = copy.node_list.nodes.get(title).unwrap();
        assert_eq!(info, if title == "x" { "up" } else { "" });
    }
    assert_eq!(copy.node_list.node_info, app.node_list.node_info);
}
