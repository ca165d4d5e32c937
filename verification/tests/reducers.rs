use hadlock::action::{Action, WindowChanges};
use hadlock::config::{Config, Key, KeyAction, KeyEffect, MOD4_MASK, SHIFT_MASK};
use hadlock::models::Direction;
use hadlock::geometry::{Geometry, Position, Rect, Size, Window};
use hadlock::layout::LayoutTag;
use hadlock::models::dockarea::DockArea;
use hadlock::models::screen::Screen;
use hadlock::models::window_type::WindowType;
use hadlock::models::WindowState;
use hadlock::reactor::HdlReactor;
use hadlock::reducers::button_press::{button_press, ButtonPress};
use hadlock::reducers::button_release::button_release;
use hadlock::reducers::client_message_request::{client_message_request, ClientMessageRequest, NetAtoms};
use hadlock::reducers::configure_request::{configure_request, ConfigurationRequest};
use hadlock::reducers::destroy::destroy;
use hadlock::reducers::destroy_notify::destroy_notify;
use hadlock::reducers::enter_notify::enter_notify;
use hadlock::reducers::key_press::{keycode_to_ws, key_press, KeyPress};
use hadlock::reducers::map_request::{dock_monitor, map_request, map_request_at, MapRequest};
use hadlock::reducers::motion_notify::{motion_notify, MotionNotify};
use hadlock::reducers::unmap_notify::unmap_notify;
use hadlock::reducers::update_layout::update_layout;
use hadlock::state::State;

const ROOT: Window = 1;
const SCREEN: Screen = Screen { root: ROOT, x: 0, y: 0, width: 1920, height: 1080 };

fn setup(layout: LayoutTag) -> (State, Config) {
    let mut cfg = Config::default();
    cfg.default_layout = layout;
    let state = State::new(ROOT, &vec![SCREEN], &cfg);
    (state, cfg)
}

fn request(win: Window) -> MapRequest {
    MapRequest {
        win,
        parent: ROOT,
        transient_for: None,
        window_type: WindowType::Normal,
        should_be_managed: true,
        size: Size { width: 200, height: 100 },
        strut: None,
        geometry: Geometry { x: 0, y: 0, width: 200, height: 100 },
    }
}

fn client(state: &State, w: Window) -> Option<hadlock::models::windowwrapper::WindowWrapper> {
    state.monitors.get(&state.current_monitor).unwrap().get_client(w)
}

fn press(keycode: u8, bindings: usize, win: Window) -> KeyPress {
    KeyPress {
        win,
        state: MOD4_MASK,
        keycode,
        is_xf86: false,
        ws_keys: vec![10, 11, 12, 13, 14, 15, 16, 17, 18],
        bindings: vec![(0, Some(36)); bindings],
    }
}

#[test]
fn floating_map_places_and_focuses_the_window() {
    let (mut state, cfg) = setup(LayoutTag::Floating);
    let mut actions = Vec::new();
    map_request_at(&mut state, &cfg, &request(10), 5, &mut actions);
    let ww = client(&state, 10).unwrap();
    assert_eq!(Rect::new(Position { x: 192, y: 216 }, Size { width: 1536, height: 648 }), ww.window_rect);
    assert_eq!(WindowState::Free, ww.current_state);
    assert_eq!(5, ww.toc);
    assert_eq!(10, state.focus_w);
    assert!(actions.is_empty());
}

#[test]
fn column_map_splits_master_and_column() {
    let (mut state, cfg) = setup(LayoutTag::ColumnMaster);
    let mut actions = Vec::new();
    map_request_at(&mut state, &cfg, &request(10), 5, &mut actions);
    let first = client(&state, 10).unwrap();
    assert_eq!(Rect::new(Position { x: 0, y: 0 }, Size { width: 1920, height: 1080 }), first.window_rect);
    assert_eq!(WindowState::Maximized, first.current_state);
    map_request_at(&mut state, &cfg, &request(11), 6, &mut actions);
    let first = client(&state, 10).unwrap();
    let master = client(&state, 11).unwrap();
    assert_eq!(Rect::new(Position { x: 960, y: 0 }, Size { width: 956, height: 1076 }), first.window_rect);
    assert_eq!(WindowState::Free, first.current_state);
    assert_eq!(WindowState::Maximized, first.previous_state);
    assert_eq!(Rect::new(Position { x: 0, y: 0 }, Size { width: 956, height: 1076 }), master.window_rect);
    assert_eq!(WindowState::Free, master.current_state);
    assert_eq!(11, state.focus_w);
}

#[test]
fn map_request_takes_the_time_of_mapping() {
    let (mut state, cfg) = setup(LayoutTag::Floating);
    let mut actions = Vec::new();
    map_request(&mut state, &cfg, &request(10), &mut actions);
    assert!(client(&state, 10).is_some());
    assert_eq!(10, state.focus_w);
}

#[test]
fn transient_window_is_centred_on_the_screen() {
    let (mut state, cfg) = setup(LayoutTag::Floating);
    let mut actions = Vec::new();
    let ev = MapRequest { transient_for: Some(ROOT), ..request(20) };
    map_request_at(&mut state, &cfg, &ev, 1, &mut actions);
    let ww = client(&state, 20).unwrap();
    assert!(ww.is_trans);
    assert_eq!(Position { x: 860, y: 490 }, ww.get_position());
    assert_eq!(Size { width: 200, height: 100 }, ww.get_size());
    assert_eq!(ROOT, state.focus_w);
}

#[test]
fn transient_window_is_centred_over_its_parent() {
    let (mut state, cfg) = setup(LayoutTag::Floating);
    let mut actions = Vec::new();
    map_request_at(&mut state, &cfg, &request(10), 1, &mut actions);
    let ev = MapRequest { window_type: WindowType::Dialog, parent: 10, ..request(21) };
    map_request_at(&mut state, &cfg, &ev, 2, &mut actions);
    let ww = client(&state, 21).unwrap();
    assert_eq!(Position { x: 192 + 768 - 100, y: 216 + 324 - 50 }, ww.get_position());
}

#[test]
fn dock_reserves_its_area() {
    let (mut state, cfg) = setup(LayoutTag::Floating);
    let mut actions = Vec::new();
    let dock = DockArea { top: 30, top_end_x: 1920, ..DockArea::default() };
    let ev = MapRequest { window_type: WindowType::Dock, strut: Some(dock), ..request(30) };
    assert_eq!(Some(0), dock_monitor(&state, &cfg, &ev.geometry));
    map_request_at(&mut state, &cfg, &ev, 1, &mut actions);
    assert_eq!(vec![Action::SelectDockInput(30), Action::MapWindow(30)], actions);
    assert_eq!(dock, state.monitors.get(&0).unwrap().dock_area);
    assert_eq!(None, client(&state, 30));
}

#[test]
fn child_of_a_client_is_mapped_unmanaged() {
    let (mut state, cfg) = setup(LayoutTag::Floating);
    let mut actions = Vec::new();
    map_request_at(&mut state, &cfg, &request(10), 1, &mut actions);
    let ev = MapRequest { parent: 10, ..request(11) };
    map_request_at(&mut state, &cfg, &ev, 2, &mut actions);
    assert_eq!(vec![Action::MapWindow(11), Action::TakeFocus(11)], actions);
    assert_eq!(None, client(&state, 11));
}

#[test]
fn window_that_asks_not_to_be_managed_is_left() {
    let (mut state, cfg) = setup(LayoutTag::Floating);
    let mut actions = Vec::new();
    let ev = MapRequest { should_be_managed: false, ..request(10) };
    map_request_at(&mut state, &cfg, &ev, 1, &mut actions);
    assert_eq!(None, client(&state, 10));
    assert!(actions.is_empty());
}

#[test]
fn key_binding_opens_the_terminal() {
    let (mut state, mut cfg) = setup(LayoutTag::Floating);
    cfg.key_bindings = vec![KeyAction { mod_key: None, key: Key::Letter("Return".to_string()), effect: KeyEffect::OpenTerm }];
    let mut actions = Vec::new();
    key_press(&mut state, &cfg, &press(36, 1, ROOT), &mut actions);
    assert_eq!(vec![Action::Spawn("xterm".to_string(), vec![])], actions);
}

#[test]
fn key_press_without_the_mod_key_does_nothing() {
    let (mut state, mut cfg) = setup(LayoutTag::Floating);
    cfg.key_bindings = vec![KeyAction { mod_key: None, key: Key::Letter("Return".to_string()), effect: KeyEffect::Exit }];
    let mut actions = Vec::new();
    let ev = KeyPress { state: 0, ..press(36, 1, ROOT) };
    key_press(&mut state, &cfg, &ev, &mut actions);
    assert!(actions.is_empty());
}

#[test]
fn number_key_changes_the_workspace() {
    let (mut state, mut cfg) = setup(LayoutTag::Floating);
    cfg.key_bindings = vec![KeyAction { mod_key: None, key: Key::Number, effect: KeyEffect::ChangeCurrentWorkspace }];
    let mut actions = Vec::new();
    key_press(&mut state, &cfg, &press(13, 1, ROOT), &mut actions);
    assert_eq!(3, keycode_to_ws(13));
    assert_eq!(3, state.monitors.get(&0).unwrap().current_ws);
    assert!(state.mouse_follow);
    assert!(!state.monitors.get(&0).unwrap().contains_ws(0));
}

#[test]
fn number_key_moves_the_window_to_the_workspace() {
    let (mut state, mut cfg) = setup(LayoutTag::Floating);
    cfg.key_bindings = vec![KeyAction { mod_key: None, key: Key::Number, effect: KeyEffect::MoveToWorkspace }];
    let mut actions = Vec::new();
    map_request_at(&mut state, &cfg, &request(10), 1, &mut actions);
    key_press(&mut state, &cfg, &press(12, 1, 10), &mut actions);
    assert_eq!(vec![Action::UnmapWindow(10)], actions);
    let mon = state.monitors.get(&0).unwrap();
    assert_eq!(2, mon.current_ws);
    assert_eq!(Some(2), mon.get_ws_by_window(10));
}

#[test]
fn kill_marks_the_focused_window() {
    let (mut state, mut cfg) = setup(LayoutTag::Floating);
    cfg.key_bindings = vec![KeyAction { mod_key: None, key: Key::Letter("q".to_string()), effect: KeyEffect::Kill }];
    let mut actions = Vec::new();
    map_request_at(&mut state, &cfg, &request(10), 1, &mut actions);
    key_press(&mut state, &cfg, &press(36, 1, 10), &mut actions);
    let ww = client(&state, 10).unwrap();
    assert_eq!(WindowState::Destroy, ww.current_state);
    assert_eq!(WindowState::Free, ww.previous_state);
}

#[test]
fn circulate_layout_tells_and_tiles() {
    let (mut state, mut cfg) = setup(LayoutTag::Floating);
    cfg.key_bindings = vec![KeyAction { mod_key: None, key: Key::Letter("l".to_string()), effect: KeyEffect::CirculateLayout }];
    let mut actions = Vec::new();
    map_request_at(&mut state, &cfg, &request(10), 1, &mut actions);
    key_press(&mut state, &cfg, &press(36, 1, 10), &mut actions);
    assert_eq!(vec![Action::NotifyLayout(LayoutTag::ColumnMaster)], actions);
    let ww = client(&state, 10).unwrap();
    assert_eq!(WindowState::Maximized, ww.current_state);
    assert_eq!(Rect::new(Position { x: 0, y: 0 }, Size { width: 1920, height: 1080 }), ww.window_rect);
}

#[test]
fn swap_master_makes_the_focused_window_newest() {
    let (mut state, mut cfg) = setup(LayoutTag::ColumnMaster);
    cfg.key_bindings = vec![KeyAction { mod_key: None, key: Key::Letter("m".to_string()), effect: KeyEffect::SwapMaster }];
    let mut actions = Vec::new();
    map_request_at(&mut state, &cfg, &request(10), 1, &mut actions);
    map_request_at(&mut state, &cfg, &request(11), 2, &mut actions);
    state.focus_w = 10;
    key_press(&mut state, &cfg, &press(36, 1, 10), &mut actions);
    let mon = state.monitors.get(&0).unwrap();
    assert_eq!(Some(10), mon.get_newest().map(|(w, _)| w));
    assert_eq!(Position { x: 0, y: 0 }, client(&state, 10).unwrap().get_position());
    assert_eq!(Position { x: 960, y: 0 }, client(&state, 11).unwrap().get_position());
}

#[test]
fn unmap_moves_the_focus_to_the_previous_window() {
    let (mut state, cfg) = setup(LayoutTag::Floating);
    let mut actions = Vec::new();
    map_request_at(&mut state, &cfg, &request(10), 1, &mut actions);
    map_request_at(&mut state, &cfg, &request(11), 2, &mut actions);
    unmap_notify(&mut state, &cfg, 11);
    assert_eq!(None, client(&state, 11));
    assert_eq!(10, state.focus_w);
    // The newest window is read before the window leaves, so the focus
    // stays on the window unmapped when it was the last one.
    unmap_notify(&mut state, &cfg, 10);
    assert_eq!(None, client(&state, 10));
    assert_eq!(10, state.focus_w);
}

#[test]
fn destroy_and_destroy_notify_remove_the_window() {
    let (mut state, cfg) = setup(LayoutTag::Floating);
    let mut actions = Vec::new();
    map_request_at(&mut state, &cfg, &request(10), 1, &mut actions);
    map_request_at(&mut state, &cfg, &request(11), 2, &mut actions);
    destroy(&mut state, &cfg, 11);
    assert_eq!(None, client(&state, 11));
    assert_eq!(10, state.focus_w);
    destroy_notify(&mut state, &cfg, 10);
    assert_eq!(None, client(&state, 10));
    destroy(&mut state, &cfg, ROOT);
    assert_eq!(10, state.focus_w);
}

#[test]
fn enter_focuses_the_window() {
    let (mut state, cfg) = setup(LayoutTag::Floating);
    let mut actions = Vec::new();
    map_request_at(&mut state, &cfg, &request(10), 1, &mut actions);
    map_request_at(&mut state, &cfg, &request(11), 2, &mut actions);
    enter_notify(&mut state, &cfg, 10, Position { x: 5, y: 5 });
    assert_eq!(10, state.focus_w);
    assert_eq!(Position { x: 5, y: 5 }, state.latest_cursor_pos);
    enter_notify(&mut state, &cfg, 11, Position { x: 5, y: 5 });
    assert_eq!(10, state.focus_w);
}

#[test]
fn drag_moves_a_floating_window() {
    let (mut state, cfg) = setup(LayoutTag::Floating);
    let mut actions = Vec::new();
    map_request_at(&mut state, &cfg, &request(10), 1, &mut actions);
    let press_ev = ButtonPress {
        win: 10,
        x_root: 300,
        y_root: 300,
        button: 1,
        state: 64,
        geometry: Geometry { x: 192, y: 216, width: 1536, height: 648 },
    };
    button_press(&mut state, &cfg, &press_ev, &mut actions);
    assert_eq!(vec![Action::RaiseWindow(10)], actions);
    assert_eq!((300, 300), state.drag_start_pos);
    motion_notify(&mut state, &cfg, &MotionNotify { win: 10, x_root: 310, y_root: 280, state: 256 | MOD4_MASK });
    let ww = client(&state, 10).unwrap();
    assert_eq!(Position { x: 202, y: 196 }, ww.get_position());
    assert_eq!(Position { x: 192, y: 216 }, ww.restore_position);
    button_release(&mut state, &cfg, 10);
    assert_eq!(Position { x: 202, y: 196 }, client(&state, 10).unwrap().get_position());
}

#[test]
fn configure_request_of_a_client_keeps_its_rectangle() {
    let (mut state, cfg) = setup(LayoutTag::Floating);
    let mut actions = Vec::new();
    map_request_at(&mut state, &cfg, &request(10), 1, &mut actions);
    let changes = WindowChanges { x: 1, y: 2, width: 3, height: 4, border_width: 5, sibling: 0, stack_mode: 0 };
    configure_request(&mut state, &cfg, &ConfigurationRequest { win: 10, value_mask: 15, changes }, &mut actions);
    let kept = WindowChanges { x: 192, y: 216, width: 1536, height: 648, ..changes };
    assert_eq!(vec![Action::ConfigureWindow(10, 15, kept)], actions);
    actions.clear();
    configure_request(&mut state, &cfg, &ConfigurationRequest { win: 99, value_mask: 15, changes }, &mut actions);
    assert_eq!(vec![Action::ConfigureWindow(99, 15, changes)], actions);
}

#[test]
fn fullscreen_message_sets_the_states_and_monocle() {
    let (mut state, cfg) = setup(LayoutTag::Floating);
    let mut actions = Vec::new();
    map_request_at(&mut state, &cfg, &request(10), 1, &mut actions);
    let atoms = NetAtoms { wm_state: 100, wm_state_hidden: 101, wm_state_fullscreen: 102, current_desktop: 103 };
    let ev = ClientMessageRequest { win: 10, message_type: 100, data: vec![1, 102, 0], atoms, states: vec![105, 102, 104] };
    client_message_request(&mut state, &cfg, &ev, &mut actions);
    assert_eq!(vec![Action::SetWindowStates(10, vec![102, 104, 105])], actions);
    assert_eq!(WindowState::Monocle, client(&state, 10).unwrap().current_state);
    actions.clear();
    let off = ClientMessageRequest { data: vec![0, 102, 0], states: vec![102, 104], ..ev.clone() };
    client_message_request(&mut state, &cfg, &off, &mut actions);
    assert_eq!(vec![Action::SetWindowStates(10, vec![104])], actions);
    assert_eq!(WindowState::Free, client(&state, 10).unwrap().current_state);
}

#[test]
fn hidden_message_removes_and_desktop_message_switches() {
    let (mut state, cfg) = setup(LayoutTag::Floating);
    let mut actions = Vec::new();
    map_request_at(&mut state, &cfg, &request(10), 1, &mut actions);
    let atoms = NetAtoms { wm_state: 100, wm_state_hidden: 101, wm_state_fullscreen: 102, current_desktop: 103 };
    let hide = ClientMessageRequest { win: 10, message_type: 100, data: vec![1, 101, 0], atoms, states: vec![] };
    client_message_request(&mut state, &cfg, &hide, &mut actions);
    assert_eq!(vec![Action::UpdateLayout], actions);
    assert_eq!(None, client(&state, 10));
    let desk = ClientMessageRequest { win: ROOT, message_type: 103, data: vec![4, 0, 0], atoms, states: vec![] };
    client_message_request(&mut state, &cfg, &desk, &mut actions);
    assert_eq!(4, state.monitors.get(&0).unwrap().current_ws);
}

#[test]
fn update_layout_tiles_a_tiling_workspace() {
    let (mut state, cfg) = setup(LayoutTag::ColumnMaster);
    let mut actions = Vec::new();
    map_request_at(&mut state, &cfg, &request(10), 1, &mut actions);
    update_layout(&mut state, &cfg);
    let ww = client(&state, 10).unwrap();
    assert_eq!(WindowState::Maximized, ww.current_state);
    assert_eq!(Size { width: 1920, height: 1080 }, ww.get_size());
}

#[test]
fn reactor_sets_up_a_new_window() {
    let (mut state, cfg) = setup(LayoutTag::Floating);
    let mut reactor = HdlReactor::new(state.duplicate());
    let mut actions = Vec::new();
    map_request_at(&mut state, &cfg, &request(10), 1, &mut actions);
    assert!(reactor.react(&mut state, &cfg, &mut actions).is_ok());
    let pos = Position { x: 192, y: 216 };
    let size = Size { width: 1536, height: 648 };
    assert_eq!(
        vec![
            Action::AddToSaveSet(10),
            Action::AddToRootNetClientList(10),
            Action::SetBorderWidth(10, 0),
            Action::SetBorderColor(10, cfg.background_color.clone()),
            Action::MoveWindow(10, pos),
            Action::ResizeWindow(10, size),
            Action::SubscribeToEvents(10),
            Action::MapWindow(10),
            Action::SetFocus(10, true),
        ],
        actions
    );
    actions.clear();
    assert!(reactor.react(&mut state, &cfg, &mut actions).is_ok());
    assert_eq!(vec![Action::MoveWindow(10, pos)], actions);
}

#[test]
fn reactor_kills_a_window_marked_to_be_destroyed() {
    let (mut state, mut cfg) = setup(LayoutTag::Floating);
    cfg.key_bindings = vec![KeyAction { mod_key: None, key: Key::Letter("q".to_string()), effect: KeyEffect::Kill }];
    let mut actions = Vec::new();
    map_request_at(&mut state, &cfg, &request(10), 1, &mut actions);
    let mut reactor = HdlReactor::new(state.duplicate());
    key_press(&mut state, &cfg, &press(36, 1, 10), &mut actions);
    assert!(reactor.react(&mut state, &cfg, &mut actions).is_ok());
    assert_eq!(Some(&Action::KillWindow(10)), actions.last());
}

/// The key codes of a common keyboard for the keys the default bindings name.
fn code_of(name: &str) -> Option<u8> {
    match name {
        "Return" => Some(36),
        "Right" => Some(114),
        "Left" => Some(113),
        "Down" => Some(116),
        "Up" => Some(111),
        "l" => Some(46),
        "h" => Some(43),
        "j" => Some(44),
        "k" => Some(45),
        "m" => Some(58),
        _ => None,
    }
}

fn default_press(cfg: &Config, state: u32, keycode: u8, win: Window) -> KeyPress {
    let bindings = cfg
        .key_bindings
        .iter()
        .map(|b| {
            let mask = match &b.mod_key {
                Some(name) => hadlock::config::into_mod(name),
                None => 0,
            };
            let code = match &b.key {
                Key::Letter(name) => code_of(name),
                Key::Number => None,
            };
            (mask, code)
        })
        .collect();
    KeyPress { win, state, keycode, is_xf86: false, ws_keys: vec![10, 11, 12, 13, 14, 15, 16, 17, 18], bindings }
}

#[test]
fn default_bindings_follow_the_keybindings_of_the_readme() {
    let cfg = Config::default();
    assert_eq!(MOD4_MASK, cfg.mod_key);
    assert_eq!(17, cfg.key_bindings.len());
    assert_eq!(KeyAction { mod_key: None, key: Key::Number, effect: KeyEffect::ChangeCurrentWorkspace }, cfg.key_bindings[0]);
    assert_eq!(
        KeyAction { mod_key: Some("Shift".to_string()), key: Key::Number, effect: KeyEffect::MoveToWorkspace },
        cfg.key_bindings[1]
    );
}

#[test]
fn default_mod_return_opens_the_terminal() {
    let (mut state, cfg) = setup(LayoutTag::Floating);
    let mut actions = Vec::new();
    key_press(&mut state, &cfg, &default_press(&cfg, MOD4_MASK, 36, ROOT), &mut actions);
    assert_eq!(vec![Action::Spawn("xterm".to_string(), vec![])], actions);
}

#[test]
fn default_mod_number_changes_the_workspace() {
    let (mut state, cfg) = setup(LayoutTag::Floating);
    let mut actions = Vec::new();
    key_press(&mut state, &cfg, &default_press(&cfg, MOD4_MASK, 14, ROOT), &mut actions);
    assert_eq!(4, state.monitors.get(&0).unwrap().current_ws);
}

#[test]
fn default_shift_mod_number_moves_the_window() {
    let (mut state, cfg) = setup(LayoutTag::Floating);
    let mut actions = Vec::new();
    map_request_at(&mut state, &cfg, &request(10), 1, &mut actions);
    key_press(&mut state, &cfg, &default_press(&cfg, MOD4_MASK | SHIFT_MASK, 12, 10), &mut actions);
    assert_eq!(vec![Action::UnmapWindow(10)], actions);
    let mon = state.monitors.get(&0).unwrap();
    assert_eq!(2, mon.current_ws);
    assert!(mon.get_client(10).is_some());
}

#[test]
fn default_shift_mod_arrows_resize_by_ten() {
    let (mut state, cfg) = setup(LayoutTag::Floating);
    let mut actions = Vec::new();
    map_request_at(&mut state, &cfg, &request(10), 1, &mut actions);
    let before = client(&state, 10).unwrap().get_size();
    key_press(&mut state, &cfg, &default_press(&cfg, MOD4_MASK | SHIFT_MASK, 114, 10), &mut actions);
    let after = client(&state, 10).unwrap().get_size();
    assert_eq!(before.width + 10, after.width);
    assert_eq!(before.height, after.height);
    key_press(&mut state, &cfg, &default_press(&cfg, MOD4_MASK | SHIFT_MASK, 111, 10), &mut actions);
    assert_eq!(before.height - 10, client(&state, 10).unwrap().get_size().height);
}

#[test]
fn default_mod_arrow_snaps_the_window() {
    let (mut state, cfg) = setup(LayoutTag::Floating);
    let mut actions = Vec::new();
    map_request_at(&mut state, &cfg, &request(10), 1, &mut actions);
    key_press(&mut state, &cfg, &default_press(&cfg, MOD4_MASK, 114, 10), &mut actions);
    assert_eq!(WindowState::Snapped(Direction::East), client(&state, 10).unwrap().current_state);
}

#[test]
fn reactor_refuses_a_state_without_its_current_monitor() {
    let (mut state, _cfg) = setup(LayoutTag::Floating);
    let cfg = Config::default();
    let mut reactor = HdlReactor::new(state.duplicate());
    state.current_monitor = 99;
    let mut actions = Vec::new();
    assert_eq!(Err(hadlock::reactor::NoCurrentMonitor), reactor.react(&mut state, &cfg, &mut actions));
    assert!(actions.is_empty());
    assert_eq!(0, reactor.prev_state.current_monitor);
}
