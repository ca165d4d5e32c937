use vstd::prelude::*;
use crate::geometry::{in_range, Position, Rect, Size};
use crate::models::dockarea::DockArea;
use crate::models::screen::Screen;
use crate::models::Direction;

verus! {

/// Side of the square regions in the corners.
pub const REGION_SIDE: i32 = 50;

/// Long side of the regions in the middle of an edge.
pub const REGION_LONG: i32 = 150;

/// Short side of the regions in the middle of the top and bottom edges.
pub const REGION_SHORT_HORIZONTAL: i32 = 40;

/// Short side of the regions in the middle of the left and right edges.
pub const REGION_SHORT_VERTICAL: i32 = 40;

/// An area of a screen: a window dropped there snaps to `dir`.
#[derive(Clone, Copy, Debug, PartialEq, Eq, Structural)]
pub struct SnappingRegion {
    pub dir: Direction,
    pub region: Rect,
}

/// The size of the dock's rectangle, zero without a dock.
pub open spec fn dock_size(screen: Screen, dock_area: DockArea) -> Size {
    match dock_area.spec_as_rect(screen) {
        Some(area) => area.sz(),
        None => Size { width: 0, height: 0 },
    }
}

/// The region of a screen that snaps toward `direction`.
pub open spec fn region_rect(screen: Screen, dock_area: DockArea, direction: Direction) -> Rect {
    let d = dock_size(screen, dock_area);
    let corner = Size { width: REGION_SIDE, height: REGION_SIDE };
    let horizontal = Size { width: REGION_LONG, height: REGION_SHORT_HORIZONTAL };
    let vertical = Size { width: REGION_SHORT_VERTICAL, height: REGION_LONG };
    match direction {
        Direction::North => Rect::mk(
            Position {
                x: (div_half(screen.width as int) - REGION_LONG / 2) as i32,
                y: (screen.y + d.height) as i32,
            },
            horizontal,
        ),
        Direction::NorthEast => Rect::mk(
            Position { x: (screen.width - REGION_SIDE) as i32, y: (screen.y + d.height) as i32 },
            corner,
        ),
        Direction::East => Rect::mk(
            Position {
                x: (screen.width - REGION_SHORT_VERTICAL) as i32,
                y: (div_half(screen.height as int) - REGION_LONG / 2) as i32,
            },
            vertical,
        ),
        Direction::SouthEast => Rect::mk(
            Position {
                x: (screen.width - REGION_SIDE) as i32,
                y: (screen.height - REGION_SIDE) as i32,
            },
            corner,
        ),
        Direction::South => Rect::mk(
            Position {
                x: (div_half(screen.width as int) - REGION_LONG / 2) as i32,
                y: (screen.height - REGION_SHORT_HORIZONTAL) as i32,
            },
            horizontal,
        ),
        Direction::SouthWest => Rect::mk(
            Position { x: screen.x, y: ((screen.height - d.height) - REGION_SIDE) as i32 },
            corner,
        ),
        Direction::West => Rect::mk(
            Position { x: screen.x, y: (div_half(screen.height as int) - REGION_LONG / 2) as i32 },
            vertical,
        ),
        Direction::NorthWest => Rect::mk(
            Position { x: screen.x, y: (screen.y + d.height) as i32 },
            corner,
        ),
    }
}

/// Half of `v`, rounded toward zero.
pub open spec fn div_half(v: int) -> int {
    crate::geometry::div_trunc(v, 2)
}

/// The directions in the order in which `from_screen` lists the regions.
pub open spec fn region_directions() -> Seq<Direction> {
    seq![
        Direction::North,
        Direction::NorthEast,
        Direction::East,
        Direction::SouthEast,
        Direction::South,
        Direction::SouthWest,
        Direction::West,
        Direction::NorthWest,
    ]
}

impl SnappingRegion {
    pub fn new(screen: &Screen, dock_area: &DockArea, direction: Direction) -> (r: SnappingRegion)
        ensures
            r.dir == direction,
            r.region == region_rect(*screen, *dock_area, direction),
    {
        let dock_size = if let Some(area) = dock_area.as_rect(screen) {
            area.get_size()
        } else {
            Size { width: 0, height: 0 }
        };
        let corner = Size { width: REGION_SIDE, height: REGION_SIDE };
        let horizontal = Size { width: REGION_LONG, height: REGION_SHORT_HORIZONTAL };
        let vertical = Size { width: REGION_SHORT_VERTICAL, height: REGION_LONG };
        let width = screen.width as i64;
        let height = screen.height as i64;
        let top = (screen.y as i64) + (dock_size.height as i64);
        let rect = match direction {
            Direction::North => {
                let pos = Position::new(((width / 2) - (REGION_LONG / 2) as i64) as i32, top as i32);
                Rect::new(pos, horizontal)
            },
            Direction::NorthEast => {
                let pos = Position::new((width - REGION_SIDE as i64) as i32, top as i32);
                Rect::new(pos, corner)
            },
            Direction::East => {
                let pos = Position::new(
                    (width - REGION_SHORT_VERTICAL as i64) as i32,
                    ((height / 2) - (REGION_LONG / 2) as i64) as i32,
                );
                Rect::new(pos, vertical)
            },
            Direction::SouthEast => {
                let pos = Position::new((width - REGION_SIDE as i64) as i32, (height - REGION_SIDE as i64) as i32);
                Rect::new(pos, corner)
            },
            Direction::South => {
                let pos = Position::new(
                    ((width / 2) - (REGION_LONG / 2) as i64) as i32,
                    (height - REGION_SHORT_HORIZONTAL as i64) as i32,
                );
                Rect::new(pos, horizontal)
            },
            Direction::SouthWest => {
                let pos = Position::new(screen.x, ((height - dock_size.height as i64) - REGION_SIDE as i64) as i32);
                Rect::new(pos, corner)
            },
            Direction::West => {
                let pos = Position::new(screen.x, ((height / 2) - (REGION_LONG / 2) as i64) as i32);
                Rect::new(pos, vertical)
            },
            Direction::NorthWest => {
                let pos = Position::new(screen.x, top as i32);
                Rect::new(pos, corner)
            },
        };
        SnappingRegion { dir: direction, region: rect }
    }

    /// The eight regions of a screen, one per direction, in the order
    /// north, north east, east, south east, south, south west, west,
    /// north west.
    pub fn from_screen(screen: &Screen, dock_area: &DockArea) -> (v: Vec<SnappingRegion>)
        ensures
            v@.len() == 8,
            forall|i: int|
                0 <= i < 8 ==> #[trigger] v@[i] == (SnappingRegion {
                    dir: region_directions()[i],
                    region: region_rect(*screen, *dock_area, region_directions()[i]),
                }),
    {
        let v = vec![
            Self::new(screen, dock_area, Direction::North),
            Self::new(screen, dock_area, Direction::NorthEast),
            Self::new(screen, dock_area, Direction::East),
            Self::new(screen, dock_area, Direction::SouthEast),
            Self::new(screen, dock_area, Direction::South),
            Self::new(screen, dock_area, Direction::SouthWest),
            Self::new(screen, dock_area, Direction::West),
            Self::new(screen, dock_area, Direction::NorthWest),
        ];
        v
    }

    /// The point lies in the region, edges included.
    pub open spec fn spec_contains(self, pos: Position) -> bool {
        let p = self.region.pos();
        let s = self.region.sz();
        &&& p.x <= pos.x <= p.x + s.width
        &&& p.y <= pos.y <= p.y + s.height
    }

    pub fn contains(&self, pos: Position) -> (r: bool)
        requires
            self.region.in_range(),
        ensures
            r == self.spec_contains(pos),
    {
        let region_pos = self.region.get_position();
        let region_size = self.region.get_size();
        let x_bound = pos.x >= region_pos.x && pos.x <= region_pos.x + region_size.width;
        let y_bound = pos.y >= region_pos.y && pos.y <= region_pos.y + region_size.height;
        x_bound && y_bound
    }
}

} // verus!
