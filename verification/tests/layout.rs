use hadlock::config::Config;
use hadlock::geometry::{Position, Rect, Size};
use hadlock::layout::column_master::ColumnMaster;
use hadlock::layout::floating::Floating;
use hadlock::models::dockarea::DockArea;
use hadlock::models::screen::Screen;
use hadlock::models::windowwrapper::WindowWrapper;

const SCREEN: Screen = Screen { root: 1, x: 0, y: 0, width: 1920, height: 1080 };

fn many(n: u64) -> Vec<WindowWrapper> {
    (0..n)
        .map(|i| WindowWrapper::new_at(i + 2, Rect::new(Position { x: 0, y: 0 }, Size { width: 10, height: 10 }), false, i))
        .collect()
}

#[test]
fn floating_stacks_twenty_thousand_windows() {
    let cfg = Config::default();
    let windows = many(20_000);
    let r = Floating::default().reorder(&cfg, 2, &SCREEN, &DockArea::default(), &windows);
    assert_eq!(20_000, r.len());
    // the last window comes first, in the middle of the screen
    assert_eq!(20_001, r[0].0);
    assert_eq!(Position { x: 482, y: 272 }, r[0].1.get_position());
    // the step is 482 / 20000 = 0, so every window stays in the middle
    assert_eq!(Position { x: 482, y: 272 }, r[19_999].1.get_position());
}

#[test]
fn column_heights_for_many_windows() {
    let mut cfg = Config::default();
    cfg.inner_gap = 5;
    let cm = ColumnMaster::default();
    // (1080 / n) - 2 * 2 - ((n - 1) * 5) / n
    assert_eq!(1080 / 3 - 4 - 10 / 3, cm.column_height(&cfg, &SCREEN, &DockArea::default(), 3));
    assert_eq!(-4 - 4, cm.column_height(&cfg, &SCREEN, &DockArea::default(), 50_000));
    assert_eq!(-4 - 4, cm.column_height(&cfg, &SCREEN, &DockArea::default(), 3_000_000_000));
}

#[test]
fn column_places_fifteen_thousand_windows() {
    let cfg = Config::default();
    let windows = many(15_000);
    let r = ColumnMaster::default().reorder(&cfg, 2, &SCREEN, &DockArea::default(), &windows);
    assert_eq!(15_000, r.len());
    // the newest window is the master, last in the list
    assert_eq!(15_001, r[14_999].0);
}
