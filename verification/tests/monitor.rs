use hadlock::geometry::{Position, Rect, Size};
use hadlock::models::monitor::Monitor;
use hadlock::models::screen::Screen;
use hadlock::models::windowwrapper::WindowWrapper;
use hadlock::models::workspace::Workspace;
use hadlock::models::WindowState;

const ROOT: u64 = 111;

fn setup_mon(amount_ws: u32) -> Monitor {
    let screen = Screen::new(ROOT, 1920, 1080, 0, 0);
    let mut mon = Monitor::new(0, screen, Workspace::new(0, 0));
    for i in 0..(amount_ws - 1) {
        mon.add_ws(Workspace::new(i + 1, 0))
    }
    mon
}

/// A reading of the clock that stamps new windows.
fn now() -> u64 {
    WindowWrapper::new(0, Rect::new(Position { x: 0, y: 0 }, Size { width: 1, height: 1 }), false).toc
}

fn base() -> WindowWrapper {
    WindowWrapper::new(1, Rect::new(Position { x: 0, y: 0 }, Size { width: 200, height: 200 }), false)
}

#[test]
fn add_window() {
    let mut mon = setup_mon(1);
    let base_ww = base();
    mon.add_window(base_ww.window(), base_ww.clone());

    assert_eq!(Some(base_ww), mon.get_client(base_ww.window()))
}

#[test]
fn remove_window_pass() {
    let mut mon = setup_mon(1);
    let base_ww = base();
    mon.add_window(base_ww.window(), base_ww.clone());
    assert_eq!(Some(base_ww.clone()), mon.remove_window(base_ww.window()))
}

#[test]
fn remove_window_fail() {
    let mut mon = setup_mon(1);
    let base_ww = base();
    mon.add_window(base_ww.window(), base_ww.clone());
    let tested = WindowWrapper { window: 12, ..base_ww };
    assert_eq!(None, mon.remove_window(tested.window()))
}

#[test]
fn get_newest_pass() {
    let mut mon = setup_mon(1);
    let base_ww = base();
    mon.add_window(base_ww.window(), base_ww.clone());
    let tested_win = 12;
    let tested = WindowWrapper { window: tested_win, toc: now(), ..base_ww };
    mon.add_window(tested.window(), tested.clone());
    assert_eq!(Some((tested_win, tested)), mon.get_newest())
}

#[test]
fn get_newest_fail() {
    let mon = setup_mon(1);
    assert_eq!(None, mon.get_newest())
}

#[test]
fn get_previous_pass() {
    let mut mon = setup_mon(1);
    let base_ww = base();
    let tested = base_ww.clone();
    mon.add_window(base_ww.window(), base_ww.clone());
    let second_win = 12;
    let second = WindowWrapper { window: second_win, toc: now(), ..base_ww };
    mon.add_window(second.window(), second);
    assert_eq!(Some(tested), mon.get_previous(second_win))
}

#[test]
fn get_previous_fail() {
    let mut mon = setup_mon(1);
    let base_ww = base();
    let tested = base_ww.clone();
    mon.add_window(base_ww.window(), base_ww.clone());
    assert_eq!(None, mon.get_previous(tested.window()))
}

#[test]
fn get_next_pass() {
    let mut mon = setup_mon(1);
    let base_ww = base();
    let first = base_ww.clone();
    mon.add_window(base_ww.window(), base_ww.clone());
    let next_win = 12;
    let next = WindowWrapper { window: next_win, toc: now(), ..base_ww };
    mon.add_window(next_win, next.clone());

    let tested_win = next_win + 1;
    let tested = WindowWrapper::new(tested_win, base_ww.window_rect, false);
    mon.add_window(tested_win + 1, tested);
    assert_eq!(Some(next), mon.get_next(first.window()))
}

#[test]
fn get_next_fail() {
    let mut mon = setup_mon(1);
    let base_ww = base();
    let tested = base_ww.clone();
    mon.add_window(base_ww.window(), base_ww.clone());
    assert_eq!(None, mon.get_next(tested.window()))
}

#[test]
fn swap_window_pass() {
    let mut mon = setup_mon(1);
    let base_ww = base();
    mon.add_window(base_ww.window(), base_ww.clone());

    let tested = WindowWrapper { current_state: WindowState::Maximized, ..base_ww };

    mon.swap_window(1, |_mon, ww| WindowWrapper { current_state: WindowState::Maximized, ..ww });

    assert_eq!(Some(tested), mon.get_client(tested.window()))
}

#[test]
fn swap_window_fail() {
    let mut mon = setup_mon(1);
    let base_ww = base();
    mon.add_window(base_ww.window(), base_ww.clone());

    let tested = WindowWrapper { window: 10, current_state: WindowState::Maximized, ..base_ww };

    mon.swap_window(10, |_mon, ww| WindowWrapper { current_state: WindowState::Maximized, ..ww });

    assert_eq!(None, mon.get_client(tested.window()))
}

#[test]
fn monitor_contains_and_finds_window_in_hidden_workspace() {
    let mut mon = setup_mon(2);
    let ww = base();
    mon.add_window_non_current(5, ww, 1);
    assert!(mon.contains_window(5));
    assert_eq!(Some(1), mon.get_ws_by_window(5));
    assert_eq!(None, mon.get_client(5));
    assert_eq!(Some(ww), mon.remove_window_non_current(5, 1));
    assert!(!mon.contains_window(5));
}

#[test]
fn monitor_keeps_clients_sorted_by_time() {
    let mut mon = setup_mon(1);
    let a = WindowWrapper::new_at(3, Rect::new(Position { x: 0, y: 0 }, Size { width: 10, height: 10 }), false, 30);
    let b = WindowWrapper::new_at(4, Rect::new(Position { x: 0, y: 0 }, Size { width: 10, height: 10 }), false, 10);
    let c = WindowWrapper::new_at(5, Rect::new(Position { x: 0, y: 0 }, Size { width: 10, height: 10 }), false, 20);
    mon.add_window(3, a);
    mon.add_window(4, b);
    mon.add_window(5, c);
    assert_eq!(vec![4, 5, 3], mon.get_client_keys());
    assert_eq!(Some((3, a)), mon.get_newest());
}
