use hadlock::config::Config;
use hadlock::geometry::{Geometry, Rect, Window};
use hadlock::models::monitor::Monitor;
use hadlock::models::screen::Screen;
use hadlock::models::windowwrapper::WindowWrapper;
use hadlock::models::workspace::Workspace;
use hadlock::models::WindowState;
use hadlock::wm;

const ROOT: Window = 1;
const SCREEN_1: Screen = Screen { root: ROOT, x: 0, y: 0, width: 1920, height: 1080 };
const WIN_GEOM: Geometry = Geometry { width: 100, height: 100, x: 10, y: 10 };

#[test]
fn window_inside_screen_pass() {
    assert!(wm::window_inside_screen(&WIN_GEOM, &SCREEN_1))
}

#[test]
fn window_inside_screen_fail() {
    let win_geom = Geometry { width: 100, height: 100, x: -10, y: -10 };
    assert_ne!(true, wm::window_inside_screen(&win_geom, &SCREEN_1))
}

#[test]
fn toggle_maximize_to_maximized() {
    let ws = Workspace::new(1, 0);
    let mon = Monitor::new(1, SCREEN_1, ws);

    let before = WindowWrapper::new(12, Rect::from_geometry(WIN_GEOM), false);

    let tested = wm::toggle_maximize(&Config::default(), &mon, before.clone());

    assert_eq!(
        WindowState::Maximized,
        tested.current_state,
        "Wrong state: {:?}, should have been {:?}",
        tested.current_state,
        WindowState::Maximized
    );
    assert_eq!(
        before.current_state, tested.previous_state,
        "{:?}, should have been {:?}",
        tested.previous_state, before.current_state
    );
    assert_eq!(
        before.get_position(),
        tested.restore_position,
        "{:?}, should have been: {:?}",
        tested.restore_position,
        before.get_position()
    );
    assert_eq!(
        before.get_size(),
        tested.restore_size,
        "{:?}, should have been {:?}",
        tested.restore_size,
        before.get_size()
    );
}

#[test]
fn toggle_maximize_twice_restores_the_window() {
    let cfg = Config::default();
    let mon = Monitor::new(1, SCREEN_1, Workspace::new(1, 0));
    let before = WindowWrapper::new_at(12, Rect::from_geometry(WIN_GEOM), false, 3);
    let maxed = wm::toggle_maximize(&cfg, &mon, before);
    assert_eq!(1920, maxed.get_size().width);
    assert_eq!(1080, maxed.get_size().height);
    let back = wm::toggle_maximize(&cfg, &mon, maxed);
    assert_eq!(before.window_rect, back.window_rect);
    assert_eq!(before.current_state, back.current_state);
    assert_eq!(WindowState::Maximized, back.previous_state);
}

#[test]
fn toggle_monocle_twice_restores_the_window() {
    let cfg = Config::default();
    let mon = Monitor::new(1, SCREEN_1, Workspace::new(1, 0));
    let before = WindowWrapper::new_at(12, Rect::from_geometry(WIN_GEOM), false, 3);
    let mono = wm::toggle_monocle(&cfg, &mon, before);
    assert_eq!(WindowState::Monocle, mono.current_state);
    assert_eq!(0, mono.get_position().x);
    assert_eq!(0, mono.get_position().y);
    assert_eq!(1920, mono.get_size().width);
    assert_eq!(1080, mono.get_size().height);
    let back = wm::toggle_monocle(&cfg, &mon, mono);
    assert_eq!(before.window_rect, back.window_rect);
    assert_eq!(WindowState::Free, back.current_state);
}

#[test]
fn tiled_toggle_on_empty_workspace_leaves_the_window() {
    let cfg = Config::default();
    let ws = Workspace::with_layout(1, 0, hadlock::layout::LayoutTag::ColumnMaster);
    let mon = Monitor::new(1, SCREEN_1, ws);
    let before = WindowWrapper::new_at(12, Rect::from_geometry(WIN_GEOM), false, 3);
    assert_eq!(before, wm::toggle_maximize(&cfg, &mon, before));
}

#[test]
fn point_is_inside_includes_the_edges() {
    let state = hadlock::state::State::new(ROOT, &vec![SCREEN_1], &Config::default());
    assert!(wm::point_is_inside(&state, &SCREEN_1, 1920, 1080));
    assert!(!wm::point_is_inside(&state, &SCREEN_1, 1921, 0));
    assert!(!wm::window_inside_screen(&Geometry { x: 1920, y: 0, width: 1, height: 1 }, &SCREEN_1));
}
