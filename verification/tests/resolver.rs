use alternating_tiler::container::{Container, Kind};
use alternating_tiler::resolver::find_focused_window;

fn window(focus: bool, w: u64, h: u64) -> Container {
    Container {
        kind: Kind::Window,
        kind_tag: Some("window".to_owned()),
        has_focus: Some(focus),
        width: Some(w),
        height: Some(h),
        children: Vec::new(),
    }
}

fn split(children: Vec<Container>) -> Container {
    Container {
        kind: Kind::SplitContainer,
        kind_tag: Some("split".to_owned()),
        has_focus: None,
        width: None,
        height: None,
        children,
    }
}

#[test]
fn finds_the_single_focused_window() {
    let tree = split(vec![window(false, 1, 1), split(vec![window(false, 2, 2), window(true, 300, 700)]), window(false, 4, 4)]);
    let found = find_focused_window(tree).expect("a focused window exists");
    assert_eq!(found.width, Some(300));
    assert_eq!(found.height, Some(700));
    assert_eq!(found.has_focus, Some(true));
    assert_eq!(found.kind, Kind::Window);
}

#[test]
fn nothing_when_no_window_has_focus() {
    let tree = split(vec![window(false, 1, 1), split(vec![window(false, 2, 2)])]);
    assert!(find_focused_window(tree).is_none());
}

#[test]
fn root_window_itself_can_be_the_match() {
    let tree = window(true, 640, 480);
    let found = find_focused_window(tree).expect("the root is focused");
    assert_eq!(found.width, Some(640));
    assert_eq!(found.height, Some(480));
}

#[test]
fn focused_non_window_nodes_do_not_match() {
    // A workspace that claims focus is not a focused *window*.
    let mut ws = split(vec![window(true, 10, 20)]);
    ws.kind = Kind::Workspace;
    ws.kind_tag = Some("workspace".to_owned());
    ws.has_focus = Some(true);
    let found = find_focused_window(ws).expect("the window inside matches");
    assert_eq!(found.width, Some(10));
    assert_eq!(found.height, Some(20));
}

#[test]
fn first_in_pre_order_wins() {
    // Two focused windows break the window manager's invariant; the search
    // still answers deterministically with the first in pre-order.
    let tree = split(vec![split(vec![window(true, 111, 222)]), window(true, 333, 444)]);
    let found = find_focused_window(tree).expect("a focused window exists");
    assert_eq!(found.width, Some(111));
    assert_eq!(found.height, Some(222));
}

#[test]
fn survives_a_very_deep_tree() {
    let mut tree = window(true, 123, 456);
    for _ in 0..100_000 {
        tree = split(vec![tree]);
    }
    let found = find_focused_window(tree).expect("the deep leaf is focused");
    assert_eq!(found.width, Some(123));
    assert_eq!(found.height, Some(456));
}
