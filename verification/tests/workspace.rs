use hadlock::geometry::{Position, Rect, Size};
use hadlock::layout::{layout_from_tag, LayoutTag};
use hadlock::models::windowwrapper::WindowWrapper;
use hadlock::models::workspace::Workspace;

#[test]
fn cycle_layout() {
    let mut ws = Workspace {
        tag: 0,
        focus_w: 0,
        clients: Default::default(),
        layout: layout_from_tag(LayoutTag::Floating),
        available_layouts: vec![LayoutTag::Floating, LayoutTag::ColumnMaster],
        current_tag: LayoutTag::Floating,
    };

    ws.cycle_layout();
    assert_eq!(LayoutTag::ColumnMaster, ws.layout.get_type())
}

#[test]
fn cycle_layout_twice_gives_the_layout_back() {
    let mut ws = Workspace::with_layout(1, 0, LayoutTag::ColumnMaster);
    ws.cycle_layout();
    assert_eq!(LayoutTag::Floating, ws.get_current_layout());
    ws.cycle_layout();
    assert_eq!(LayoutTag::ColumnMaster, ws.get_current_layout());
    assert_eq!(LayoutTag::ColumnMaster, ws.layout.get_type());
}

#[test]
fn add_then_remove_gives_the_window_back() {
    let mut ws = Workspace::new(2, 0);
    let a = WindowWrapper::new_at(7, Rect::new(Position { x: 1, y: 2 }, Size { width: 3, height: 4 }), false, 5);
    let b = WindowWrapper::new_at(8, Rect::new(Position { x: 1, y: 2 }, Size { width: 3, height: 4 }), false, 9);
    ws.add_window(7, a);
    let before = ws.client_keys();
    ws.add_window(8, b);
    assert_eq!(Some(b), ws.get_client(8));
    assert_eq!(Some(b), ws.remove_window(8));
    assert_eq!(before, ws.client_keys());
    assert_eq!(None, ws.remove_window(8));
    assert_eq!(1, ws.len());
}

#[test]
fn update_client_keeps_the_place() {
    let mut ws = Workspace::new(2, 0);
    let a = WindowWrapper::new_at(7, Rect::new(Position { x: 1, y: 2 }, Size { width: 3, height: 4 }), false, 5);
    let b = WindowWrapper::new_at(8, Rect::new(Position { x: 1, y: 2 }, Size { width: 3, height: 4 }), false, 5);
    ws.add_window(7, a);
    ws.add_window(8, b);
    let moved = WindowWrapper { hidden: true, ..a };
    assert!(ws.update_client(7, moved));
    assert_eq!(vec![7, 8], ws.client_keys());
    assert_eq!(Some(moved), ws.get_client(7));
    assert!(!ws.update_client(9, moved));
}
