//! The viewport, the cursor and how events move them.
//!
//! A `ViewState` is what events change. `ViewState::step` is the whole state
//! machine: from a state and an event to the next state and to what has to be
//! drawn again. Nothing here touches a map's tiles or a drawing surface; the
//! size of the map and of the surface are all that is read of them.

use vstd::prelude::*;
use vstd::std_specs::ops::DivSpec;
use crate::event::Event;
use crate::geometry::Rectangle;
use crate::geometry::Vector;
use crate::scalar::lemma_bounded_products;
use crate::scalar::lemma_div_fraction;
use crate::scalar::lemma_div_whole;
use crate::scalar::lemma_mul_whole;
use crate::scalar::lemma_operands_fit;
use crate::scalar::lemma_whole_div_whole;
use crate::scalar::lemma_whole_sub;
use crate::scalar::lemma_whole_sub_whole;
use crate::scalar::whole;
use crate::scalar::MapDistance;
use crate::scalar::MouseDistance;
use crate::scalar::PixelDistance;
use crate::scalar::ScreenDistance;
use crate::time::duration_between;
use crate::time::nanoseconds;
use crate::time::span_between;
use crate::time::Instant;

verus! {

broadcast use ScreenDistance::lemma_fraction;

/// How long the viewport rests after the pointer has panned it, in
/// nanoseconds.
pub const MOUSE_PAN_DELAY: u64 = 100_000_000;

/// What events change: where the cursor is, which part of the map is shown,
/// and when the pointer last panned the viewport.
#[derive(Clone, Copy, Debug, PartialEq, Eq, Structural)]
pub struct ViewState {
    pub cursor_pos: Vector<MapDistance>,
    pub screen: Rectangle<MapDistance>,
    pub last_mouse_pan: Instant,
}

/// What has to be drawn again after an event.
#[derive(Clone, Copy, Debug, PartialEq, Eq, Structural)]
pub struct Redraw {
    /// Whether every visible tile and both overlays are drawn again. Where the
    /// cursor also moved, this comes first, with the cursor still in its old
    /// place.
    pub full: bool,
    /// Where the cursor was, if it was moved inside the viewport: the terrain
    /// there is drawn again, then the cursor in its new place, then the
    /// infobar.
    pub cursor_from: Option<Vector<MapDistance>>,
}

/// A side of the viewport.
#[derive(Clone, Copy, Debug, PartialEq, Eq, Structural)]
pub enum Side {
    Top,
    Bottom,
    Left,
    Right,
}

/// The extent of one tile on a surface that shows `size` tiles: the
/// surface's extent over the number of tiles, axis by axis.
pub open spec fn tile_size_spec(
    surface: Vector<PixelDistance>,
    size: Vector<MapDistance>,
) -> Vector<ScreenDistance> {
    Vector {
        x: ScreenDistance::fraction(surface.x as int, size.x as int),
        y: ScreenDistance::fraction(surface.y as int, size.y as int),
    }
}

/// Where the tile at `pos` lies on the surface: as many tile extents from the
/// surface's origin as `pos` is tiles from the viewport's, and one tile
/// large.
pub open spec fn screen_pos_spec(
    surface: Vector<PixelDistance>,
    screen: Rectangle<MapDistance>,
    pos: Vector<MapDistance>,
) -> Rectangle<ScreenDistance> {
    Rectangle {
        top_left: Vector {
            x: ScreenDistance::fraction(
                surface.x * (pos.x - screen.top_left.x),
                screen.size.x as int,
            ),
            y: ScreenDistance::fraction(
                surface.y * (pos.y - screen.top_left.y),
                screen.size.y as int,
            ),
        },
        size: tile_size_spec(surface, screen.size),
    }
}

/// Half the extent of one tile.
pub open spec fn half_tile_spec(
    surface: Vector<PixelDistance>,
    size: Vector<MapDistance>,
) -> Vector<ScreenDistance> {
    Vector {
        x: ScreenDistance::fraction(surface.x as int, size.x * 2),
        y: ScreenDistance::fraction(surface.y as int, size.y * 2),
    }
}

/// The point half a tile before the far corner of the surface.
pub open spec fn near_end_spec(
    surface: Vector<PixelDistance>,
    size: Vector<MapDistance>,
) -> Vector<ScreenDistance> {
    Vector {
        x: ScreenDistance::fraction(surface.x * (size.x * 2) - surface.x, size.x * 2),
        y: ScreenDistance::fraction(surface.y * (size.y * 2) - surface.y, size.y * 2),
    }
}

/// The tile under the point `at` of the surface: `at` divided by the tile
/// extent, its integer part taken, and the viewport's origin added. Nothing
/// where the quotient does not exist or cannot be held, where its integer
/// part is no tile count, or where the sum is none.
pub open spec fn screen_to_map_spec(
    surface: Vector<PixelDistance>,
    screen: Rectangle<MapDistance>,
    at: Vector<ScreenDistance>,
) -> Option<Vector<MapDistance>> {
    let tile = tile_size_spec(surface, screen.size);
    if at.x.div_req(tile.x) && at.y.div_req(tile.y) {
        let on_screen = Vector { x: at.x.div_spec(tile.x), y: at.y.div_spec(tile.y) };
        match on_screen.lossy_cast_spec() {
            Some(tiles) => if tiles.x + screen.top_left.x <= MapDistance::MAX && tiles.y
                + screen.top_left.y <= MapDistance::MAX {
                Some(
                    Vector {
                        x: (tiles.x + screen.top_left.x) as MapDistance,
                        y: (tiles.y + screen.top_left.y) as MapDistance,
                    },
                )
            } else {
                None
            },
            None => None,
        }
    } else {
        None
    }
}

/// The tile under the pointer at `pos`.
pub open spec fn map_pos_spec(
    surface: Vector<PixelDistance>,
    screen: Rectangle<MapDistance>,
    pos: Vector<MouseDistance>,
) -> Option<Vector<MapDistance>> {
    screen_to_map_spec(
        surface,
        screen,
        Vector { x: whole(pos.x as int), y: whole(pos.y as int) },
    )
}

/// Toward which side the pointer at `pos` pans the viewport, if any: the
/// first of top, bottom, left, right that the pointer is within half a tile
/// of, while the map goes on beyond the viewport on that side.
pub open spec fn pan_side_spec(
    screen: Rectangle<MapDistance>,
    map_size: Vector<MapDistance>,
    surface: Vector<PixelDistance>,
    pos: Vector<MouseDistance>,
) -> Option<Side> {
    let half = half_tile_spec(surface, screen.size);
    let near_end = near_end_spec(surface, screen.size);
    let at = Vector { x: whole(pos.x as int), y: whole(pos.y as int) };
    if at.y.lt_spec(half.y) && screen.top_left.y > 0 {
        Some(Side::Top)
    } else if near_end.y.lt_spec(at.y) && screen.top_left.y + screen.size.y < map_size.y {
        Some(Side::Bottom)
    } else if at.x.lt_spec(half.x) && screen.top_left.x > 0 {
        Some(Side::Left)
    } else if near_end.x.lt_spec(at.x) && screen.top_left.x + screen.size.x < map_size.x {
        Some(Side::Right)
    } else {
        None
    }
}

/// The viewport one tile further toward `side`.
pub open spec fn shifted(screen: Rectangle<MapDistance>, side: Side) -> Rectangle<MapDistance> {
    let origin = screen.top_left;
    Rectangle {
        top_left: match side {
            Side::Top => Vector { x: origin.x, y: (origin.y - 1) as MapDistance },
            Side::Bottom => Vector { x: origin.x, y: (origin.y + 1) as MapDistance },
            Side::Left => Vector { x: (origin.x - 1) as MapDistance, y: origin.y },
            Side::Right => Vector { x: (origin.x + 1) as MapDistance, y: origin.y },
        },
        size: screen.size,
    }
}

/// The tile next to `pos` toward `side`.
pub open spec fn neighbour(pos: Vector<MapDistance>, side: Side) -> Vector<MapDistance> {
    match side {
        Side::Top => Vector { x: pos.x, y: (pos.y - 1) as MapDistance },
        Side::Bottom => Vector { x: pos.x, y: (pos.y + 1) as MapDistance },
        Side::Left => Vector { x: (pos.x - 1) as MapDistance, y: pos.y },
        Side::Right => Vector { x: (pos.x + 1) as MapDistance, y: pos.y },
    }
}

/// Whether `pos` lies on the edge of the map toward `side`.
pub open spec fn at_map_edge(
    pos: Vector<MapDistance>,
    map_size: Vector<MapDistance>,
    side: Side,
) -> bool {
    match side {
        Side::Top => pos.y == 0,
        Side::Bottom => pos.y + 1 >= map_size.y,
        Side::Left => pos.x == 0,
        Side::Right => pos.x + 1 >= map_size.x,
    }
}

/// Whether `pos` lies in the last row or column of the viewport toward
/// `side`.
pub open spec fn at_screen_edge(
    pos: Vector<MapDistance>,
    screen: Rectangle<MapDistance>,
    side: Side,
) -> bool {
    match side {
        Side::Top => pos.y == screen.top_left.y,
        Side::Bottom => pos.y + 1 == screen.top_left.y + screen.size.y,
        Side::Left => pos.x == screen.top_left.x,
        Side::Right => pos.x + 1 == screen.top_left.x + screen.size.x,
    }
}

/// One axis of a viewport: where it starts, how many tiles it shows, where
/// the cursor is and how many tiles the map has.
#[derive(Clone, Copy, Debug, PartialEq, Eq, Structural)]
pub struct Axis {
    pub origin: MapDistance,
    pub extent: MapDistance,
    pub cursor: MapDistance,
    pub map: MapDistance,
}

/// The axis after zooming in along it: one tile less, unless it shows a single
/// one. The tile goes from the start where the cursor lies past the middle of
/// what is left, else from the end.
pub open spec fn shrunk(axis: Axis) -> (MapDistance, MapDistance) {
    if axis.extent > 1 {
        let extent = (axis.extent - 1) as MapDistance;
        if axis.cursor - axis.origin > extent / 2 {
            ((axis.origin + 1) as MapDistance, extent)
        } else {
            (axis.origin, extent)
        }
    } else {
        (axis.origin, axis.extent)
    }
}

/// The axis after zooming out along it: one tile more, unless it shows the
/// whole map. The tile comes before the start where the cursor lies past the
/// middle of what was shown, or where the map ends with the viewport; it
/// comes after the end where the viewport starts with the map, or else.
pub open spec fn grown(axis: Axis) -> (MapDistance, MapDistance) {
    if axis.extent < axis.map {
        let extent = (axis.extent + 1) as MapDistance;
        if axis.origin > 0 && (axis.cursor - axis.origin > axis.extent / 2 || axis.origin
            + axis.extent >= axis.map) {
            ((axis.origin - 1) as MapDistance, extent)
        } else {
            (axis.origin, extent)
        }
    } else {
        (axis.origin, axis.extent)
    }
}

impl Redraw {
    /// Nothing is drawn.
    pub open spec fn nothing() -> Redraw {
        Redraw { full: false, cursor_from: None }
    }

    /// Everything is drawn again.
    pub open spec fn everything() -> Redraw {
        Redraw { full: true, cursor_from: None }
    }

    /// The cursor moved away from `from` inside the viewport.
    pub open spec fn cursor(from: Vector<MapDistance>) -> Redraw {
        Redraw { full: false, cursor_from: Some(from) }
    }
}

impl ViewState {
    /// The state in which a map of `map_size` tiles is first shown: all of
    /// it, the cursor in its first tile.
    pub open spec fn initial(map_size: Vector<MapDistance>, now: Instant) -> ViewState {
        ViewState {
            cursor_pos: Vector { x: 0, y: 0 },
            screen: Rectangle { top_left: Vector { x: 0, y: 0 }, size: map_size },
            last_mouse_pan: now,
        }
    }

    /// Whether the viewport shows at least one tile each way and lies on the
    /// map.
    pub open spec fn viewport_contained(self, map_size: Vector<MapDistance>) -> bool {
        &&& self.screen.size.x >= 1
        &&& self.screen.size.y >= 1
        &&& self.screen.top_left.x + self.screen.size.x <= map_size.x
        &&& self.screen.top_left.y + self.screen.size.y <= map_size.y
    }

    /// Whether the cursor lies on the map.
    pub open spec fn cursor_on_map(self, map_size: Vector<MapDistance>) -> bool {
        self.cursor_pos.x < map_size.x && self.cursor_pos.y < map_size.y
    }

    /// Whether the viewport holds the cursor.
    pub open spec fn cursor_visible(self) -> bool {
        &&& self.screen.top_left.x <= self.cursor_pos.x < self.screen.top_left.x
            + self.screen.size.x
        &&& self.screen.top_left.y <= self.cursor_pos.y < self.screen.top_left.y
            + self.screen.size.y
    }

    /// What every event relies on and keeps: the cursor is on the map, and
    /// the viewport is not empty and lies on the map.
    pub open spec fn wf(self, map_size: Vector<MapDistance>) -> bool {
        self.cursor_on_map(map_size) && self.viewport_contained(map_size)
    }

    /// The horizontal axis of the viewport.
    pub open spec fn horizontal(self, map_size: Vector<MapDistance>) -> Axis {
        Axis {
            origin: self.screen.top_left.x,
            extent: self.screen.size.x,
            cursor: self.cursor_pos.x,
            map: map_size.x,
        }
    }

    /// The vertical axis of the viewport.
    pub open spec fn vertical(self, map_size: Vector<MapDistance>) -> Axis {
        Axis {
            origin: self.screen.top_left.y,
            extent: self.screen.size.y,
            cursor: self.cursor_pos.y,
            map: map_size.y,
        }
    }

    /// The state with the viewport's two axes replaced, each given as where it
    /// starts and how many tiles it shows.
    pub open spec fn with_axes(
        self,
        horizontal: (MapDistance, MapDistance),
        vertical: (MapDistance, MapDistance),
    ) -> ViewState {
        ViewState {
            cursor_pos: self.cursor_pos,
            screen: Rectangle {
                top_left: Vector { x: horizontal.0, y: vertical.0 },
                size: Vector { x: horizontal.1, y: vertical.1 },
            },
            last_mouse_pan: self.last_mouse_pan,
        }
    }

    /// A move of the cursor by one tile toward `side`. On the map's edge
    /// nothing happens. On the viewport's edge the viewport goes along and
    /// everything is drawn again. Else only the cursor moves.
    pub open spec fn move_spec(self, map_size: Vector<MapDistance>, side: Side) -> (
        ViewState,
        Redraw,
    ) {
        if at_map_edge(self.cursor_pos, map_size, side) {
            (self, Redraw::nothing())
        } else if at_screen_edge(self.cursor_pos, self.screen, side) {
            (
                ViewState {
                    cursor_pos: neighbour(self.cursor_pos, side),
                    screen: shifted(self.screen, side),
                    last_mouse_pan: self.last_mouse_pan,
                },
                Redraw::everything(),
            )
        } else {
            (
                ViewState {
                    cursor_pos: neighbour(self.cursor_pos, side),
                    screen: self.screen,
                    last_mouse_pan: self.last_mouse_pan,
                },
                Redraw::cursor(self.cursor_pos),
            )
        }
    }

    /// Whether a tile is at least as high as it is wide.
    pub open spec fn tiles_tall(self, surface: Vector<PixelDistance>) -> bool {
        let tile = tile_size_spec(surface, self.screen.size);
        tile.x.le_spec(tile.y)
    }

    /// Whether a tile is at least as wide as it is high.
    pub open spec fn tiles_wide(self, surface: Vector<PixelDistance>) -> bool {
        let tile = tile_size_spec(surface, self.screen.size);
        tile.y.le_spec(tile.x)
    }

    /// Zooming in: the viewport loses a row where tiles are at least as high
    /// as wide, and a column where they are at least as wide as high, both as
    /// the tiles were before the event. Everything is drawn again.
    pub open spec fn zoom_in_spec(
        self,
        map_size: Vector<MapDistance>,
        surface: Vector<PixelDistance>,
    ) -> (ViewState, Redraw) {
        let horizontal = self.horizontal(map_size);
        let vertical = self.vertical(map_size);
        (
            self.with_axes(
                if self.tiles_wide(surface) {
                    shrunk(horizontal)
                } else {
                    (horizontal.origin, horizontal.extent)
                },
                if self.tiles_tall(surface) {
                    shrunk(vertical)
                } else {
                    (vertical.origin, vertical.extent)
                },
            ),
            Redraw::everything(),
        )
    }

    /// Zooming out: the viewport gains a row where tiles are at least as high
    /// as wide, and a column where they are at least as wide as high, both as
    /// the tiles were before the event. Everything is drawn again.
    pub open spec fn zoom_out_spec(
        self,
        map_size: Vector<MapDistance>,
        surface: Vector<PixelDistance>,
    ) -> (ViewState, Redraw) {
        let horizontal = self.horizontal(map_size);
        let vertical = self.vertical(map_size);
        (
            self.with_axes(
                if self.tiles_wide(surface) {
                    grown(horizontal)
                } else {
                    (horizontal.origin, horizontal.extent)
                },
                if self.tiles_tall(surface) {
                    grown(vertical)
                } else {
                    (vertical.origin, vertical.extent)
                },
            ),
            Redraw::everything(),
        )
    }

    /// Whether the viewport has rested long enough at `now` for the pointer
    /// to pan it again.
    pub open spec fn pan_due(self, now: Instant) -> bool {
        span_between(self.last_mouse_pan, now).nanos > MOUSE_PAN_DELAY
    }

    /// The state after the pointer at `pos` has had its chance to pan the
    /// viewport, and whether it did.
    pub open spec fn pan_spec(
        self,
        map_size: Vector<MapDistance>,
        surface: Vector<PixelDistance>,
        pos: Vector<MouseDistance>,
        now: Instant,
    ) -> (ViewState, bool) {
        if self.pan_due(now) {
            match pan_side_spec(self.screen, map_size, surface, pos) {
                Some(side) => (
                    ViewState {
                        cursor_pos: self.cursor_pos,
                        screen: shifted(self.screen, side),
                        last_mouse_pan: now,
                    },
                    true,
                ),
                None => (self, false),
            }
        } else {
            (self, false)
        }
    }

    /// The tile that the pointer at `pos` puts the cursor on, if any: the
    /// tile under the pointer, where that is a tile of the map.
    pub open spec fn tracked_spec(
        self,
        map_size: Vector<MapDistance>,
        surface: Vector<PixelDistance>,
        pos: Vector<MouseDistance>,
    ) -> Option<Vector<MapDistance>> {
        match map_pos_spec(surface, self.screen, pos) {
            Some(tile) => if tile.x < map_size.x && tile.y < map_size.y {
                Some(tile)
            } else {
                None
            },
            None => None,
        }
    }

    /// A move of the pointer to `pos`: first it may pan the viewport, then the
    /// cursor goes to the tile under it, in the viewport as it then is.
    pub open spec fn mouse_move_spec(
        self,
        map_size: Vector<MapDistance>,
        surface: Vector<PixelDistance>,
        pos: Vector<MouseDistance>,
        now: Instant,
    ) -> (ViewState, Redraw) {
        let (panned, full) = self.pan_spec(map_size, surface, pos, now);
        match panned.tracked_spec(map_size, surface, pos) {
            Some(tile) => (
                ViewState {
                    cursor_pos: tile,
                    screen: panned.screen,
                    last_mouse_pan: panned.last_mouse_pan,
                },
                Redraw { full, cursor_from: Some(self.cursor_pos) },
            ),
            None => (panned, Redraw { full, cursor_from: None }),
        }
    }

    /// The state after `event`, and what has to be drawn again.
    pub open spec fn step_spec(
        self,
        event: Event<MouseDistance>,
        map_size: Vector<MapDistance>,
        surface: Vector<PixelDistance>,
        now: Instant,
    ) -> (ViewState, Redraw) {
        match event {
            Event::Right => self.move_spec(map_size, Side::Right),
            Event::Left => self.move_spec(map_size, Side::Left),
            Event::Up => self.move_spec(map_size, Side::Top),
            Event::Down => self.move_spec(map_size, Side::Bottom),
            Event::ZoomIn => self.zoom_in_spec(map_size, surface),
            Event::ZoomOut => self.zoom_out_spec(map_size, surface),
            Event::MouseMove(pos) => self.mouse_move_spec(map_size, surface, pos, now),
        }
    }
}

/// The extent of one tile on a surface that shows `size` tiles.
pub fn tile_size(surface: Vector<PixelDistance>, size: Vector<MapDistance>) -> (r: Vector<
    ScreenDistance,
>)
    requires
        size.x >= 1,
        size.y >= 1,
    ensures
        r == tile_size_spec(surface, size),
{
    proof {
        lemma_whole_div_whole(surface.x as int, size.x as int);
        lemma_whole_div_whole(surface.y as int, size.y as int);
    }
    surface.cast::<ScreenDistance>().piecewise_divide(size.cast::<ScreenDistance>())
}

/// Where the tile at `pos` lies on a surface that shows the tiles of
/// `screen`.
pub fn screen_pos(
    surface: Vector<PixelDistance>,
    screen: Rectangle<MapDistance>,
    pos: Vector<MapDistance>,
) -> (r: Rectangle<ScreenDistance>)
    requires
        screen.size.x >= 1,
        screen.size.y >= 1,
    ensures
        r == screen_pos_spec(surface, screen, pos),
{
    let tile = tile_size(surface, screen.size);
    let offset = pos.cast::<ScreenDistance>() - screen.top_left.cast::<ScreenDistance>();
    proof {
        let dx = pos.x - screen.top_left.x;
        let dy = pos.y - screen.top_left.y;
        lemma_whole_sub_whole(pos.x as int, screen.top_left.x as int);
        lemma_whole_sub_whole(pos.y as int, screen.top_left.y as int);
        lemma_mul_whole(surface.x as int, screen.size.x as int, dx);
        lemma_mul_whole(surface.y as int, screen.size.y as int, dy);
        lemma_operands_fit(tile.x, whole(dx), 0x1_0000_0000, 0x1_0000_0000);
        lemma_operands_fit(tile.y, whole(dy), 0x1_0000_0000, 0x1_0000_0000);
    }
    Rectangle { top_left: tile.piecewise_multiply(offset), size: tile }
}

/// The tile under the point `at` of a surface that shows the tiles of
/// `screen`, if there is one.
pub fn screen_to_map(
    surface: Vector<PixelDistance>,
    screen: Rectangle<MapDistance>,
    at: Vector<ScreenDistance>,
) -> (r: Option<Vector<MapDistance>>)
    requires
        screen.size.x >= 1,
        screen.size.y >= 1,
    ensures
        r == screen_to_map_spec(surface, screen, at),
{
    let tile = tile_size(surface, screen.size);
    match (at.x.checked_div(tile.x), at.y.checked_div(tile.y)) {
        (Some(x), Some(y)) => {
            let on_screen = Vector { x, y };
            match on_screen.lossy_cast() {
                Some(tiles) => {
                    match (
                        tiles.x.checked_add(screen.top_left.x),
                        tiles.y.checked_add(screen.top_left.y),
                    ) {
                        (Some(x), Some(y)) => Some(Vector { x, y }),
                        _ => None,
                    }
                },
                None => None,
            }
        },
        _ => None,
    }
}

/// The tile under the pointer at `pos`, if there is one.
pub fn map_pos(
    surface: Vector<PixelDistance>,
    screen: Rectangle<MapDistance>,
    pos: Vector<MouseDistance>,
) -> (r: Option<Vector<MapDistance>>)
    requires
        screen.size.x >= 1,
        screen.size.y >= 1,
    ensures
        r == map_pos_spec(surface, screen, pos),
{
    screen_to_map(surface, screen, pos.cast::<ScreenDistance>())
}

/// Toward which side the pointer at `pos` pans the viewport, if any.
pub fn pan_side(
    screen: Rectangle<MapDistance>,
    map_size: Vector<MapDistance>,
    surface: Vector<PixelDistance>,
    pos: Vector<MouseDistance>,
) -> (r: Option<Side>)
    requires
        screen.size.x >= 1,
        screen.size.y >= 1,
        screen.top_left.x + screen.size.x <= map_size.x,
        screen.top_left.y + screen.size.y <= map_size.y,
    ensures
        r == pan_side_spec(screen, map_size, surface, pos),
{
    let at = pos.cast::<ScreenDistance>();
    let tile = tile_size(surface, screen.size);
    proof {
        lemma_div_whole(surface.x as int, screen.size.x as int, 2);
        lemma_div_whole(surface.y as int, screen.size.y as int, 2);
        lemma_operands_fit(tile.x, whole(2), 0x1_0000_0000, 2);
        lemma_operands_fit(tile.y, whole(2), 0x1_0000_0000, 2);
    }
    let half = tile / ScreenDistance::from(2u32);
    proof {
        lemma_whole_sub(surface.x as int, surface.x as int, screen.size.x * 2);
        lemma_whole_sub(surface.y as int, surface.y as int, screen.size.y * 2);
        lemma_bounded_products(
            surface.x as int,
            surface.y as int,
            screen.size.x * 2,
            screen.size.y * 2,
            0x1_0000_0000,
            0x2_0000_0000,
        );
        lemma_operands_fit(whole(surface.x as int), half.x, 0x1_0000_0000, 0x2_0000_0000);
        lemma_operands_fit(whole(surface.y as int), half.y, 0x1_0000_0000, 0x2_0000_0000);
    }
    let near_end = surface.cast::<ScreenDistance>() - half;
    proof {
        lemma_operands_fit(at.x, half.x, 0x1_0000_0000, 0x2_0000_0000);
        lemma_operands_fit(at.y, half.y, 0x1_0000_0000, 0x2_0000_0000);
        lemma_operands_fit(at.x, near_end.x, 0x1_0000_0000, 0x4_0000_0000_0000_0000);
        lemma_operands_fit(at.y, near_end.y, 0x1_0000_0000, 0x4_0000_0000_0000_0000);
    }
    if at.y.lt(half.y) && screen.top() > 0 {
        Some(Side::Top)
    } else if at.y.gt(near_end.y) && screen.bottom() < map_size.y {
        Some(Side::Bottom)
    } else if at.x.lt(half.x) && screen.left() > 0 {
        Some(Side::Left)
    } else if at.x.gt(near_end.x) && screen.right() < map_size.x {
        Some(Side::Right)
    } else {
        None
    }
}

/// One axis after zooming in along it.
pub fn shrink(axis: Axis) -> (r: (MapDistance, MapDistance))
    requires
        axis.origin + axis.extent <= axis.map,
    ensures
        r == shrunk(axis),
{
    if axis.extent > 1 {
        let extent = axis.extent - 1;
        if axis.cursor as i64 - axis.origin as i64 > (extent / 2) as i64 {
            (axis.origin + 1, extent)
        } else {
            (axis.origin, extent)
        }
    } else {
        (axis.origin, axis.extent)
    }
}

/// One axis after zooming out along it.
pub fn grow(axis: Axis) -> (r: (MapDistance, MapDistance))
    requires
        axis.origin + axis.extent <= axis.map,
    ensures
        r == grown(axis),
{
    if axis.extent < axis.map {
        let extent = axis.extent + 1;
        if axis.origin > 0 && (axis.cursor as i64 - axis.origin as i64 > (axis.extent / 2) as i64
            || axis.origin + axis.extent >= axis.map) {
            (axis.origin - 1, extent)
        } else {
            (axis.origin, extent)
        }
    } else {
        (axis.origin, axis.extent)
    }
}

impl Side {
    /// The tile next to `pos` toward this side.
    fn step_from(self, pos: Vector<MapDistance>) -> (r: Vector<MapDistance>)
        requires
            self == Side::Top ==> pos.y > 0,
            self == Side::Left ==> pos.x > 0,
            self == Side::Bottom ==> pos.y < MapDistance::MAX,
            self == Side::Right ==> pos.x < MapDistance::MAX,
        ensures
            r == neighbour(pos, self),
    {
        match self {
            Side::Top => Vector { x: pos.x, y: pos.y - 1 },
            Side::Bottom => Vector { x: pos.x, y: pos.y + 1 },
            Side::Left => Vector { x: pos.x - 1, y: pos.y },
            Side::Right => Vector { x: pos.x + 1, y: pos.y },
        }
    }
}

impl ViewState {
    /// The state in which a map of `map_size` tiles is first shown.
    pub fn new(map_size: Vector<MapDistance>, now: Instant) -> (r: ViewState)
        ensures
            r == ViewState::initial(map_size, now),
    {
        ViewState {
            cursor_pos: Vector { x: 0, y: 0 },
            screen: Rectangle { top_left: Vector { x: 0, y: 0 }, size: map_size },
            last_mouse_pan: now,
        }
    }

    /// Whether this is a state that events can be applied to, on a map of
    /// `map_size` tiles.
    pub fn is_valid(&self, map_size: Vector<MapDistance>) -> (r: bool)
        ensures
            r == self.wf(map_size),
    {
        self.cursor_pos.x < map_size.x && self.cursor_pos.y < map_size.y && self.screen.size.x
            >= 1 && self.screen.size.y >= 1 && self.screen.size.x <= map_size.x
            && self.screen.top_left.x <= map_size.x - self.screen.size.x && self.screen.size.y
            <= map_size.y && self.screen.top_left.y <= map_size.y - self.screen.size.y
    }

    /// Whether the cursor lies on the edge of the map toward `side`.
    fn cursor_at_map_edge(&self, map_size: Vector<MapDistance>, side: Side) -> (r: bool)
        requires
            self.wf(map_size),
        ensures
            r == at_map_edge(self.cursor_pos, map_size, side),
    {
        match side {
            Side::Top => self.cursor_pos.y == 0,
            Side::Bottom => self.cursor_pos.y + 1 >= map_size.y,
            Side::Left => self.cursor_pos.x == 0,
            Side::Right => self.cursor_pos.x + 1 >= map_size.x,
        }
    }

    /// Whether the cursor lies in the last row or column of the viewport
    /// toward `side`.
    fn cursor_at_screen_edge(&self, map_size: Vector<MapDistance>, side: Side) -> (r: bool)
        requires
            self.wf(map_size),
        ensures
            r == at_screen_edge(self.cursor_pos, self.screen, side),
    {
        match side {
            Side::Top => self.cursor_pos.y == self.screen.top(),
            Side::Bottom => self.cursor_pos.y + 1 == self.screen.bottom(),
            Side::Left => self.cursor_pos.x == self.screen.left(),
            Side::Right => self.cursor_pos.x + 1 == self.screen.right(),
        }
    }

    /// Moves the cursor by one tile toward `side`.
    pub fn move_toward(self, map_size: Vector<MapDistance>, side: Side) -> (r: (ViewState, Redraw))
        requires
            self.wf(map_size),
        ensures
            r == self.move_spec(map_size, side),
            r.0.wf(map_size),
    {
        if self.cursor_at_map_edge(map_size, side) {
            (self, Redraw { full: false, cursor_from: None })
        } else if self.cursor_at_screen_edge(map_size, side) {
            (
                ViewState {
                    cursor_pos: side.step_from(self.cursor_pos),
                    screen: Rectangle {
                        top_left: side.step_from(self.screen.top_left),
                        size: self.screen.size,
                    },
                    last_mouse_pan: self.last_mouse_pan,
                },
                Redraw { full: true, cursor_from: None },
            )
        } else {
            (
                ViewState {
                    cursor_pos: side.step_from(self.cursor_pos),
                    screen: self.screen,
                    last_mouse_pan: self.last_mouse_pan,
                },
                Redraw { full: false, cursor_from: Some(self.cursor_pos) },
            )
        }
    }

    /// Whether a tile is at least as high as wide, and whether it is at least
    /// as wide as high.
    fn tile_shape(&self, map_size: Vector<MapDistance>, surface: Vector<PixelDistance>) -> (r: (
        bool,
        bool,
    ))
        requires
            self.wf(map_size),
        ensures
            r.0 == self.tiles_tall(surface),
            r.1 == self.tiles_wide(surface),
    {
        let tile = tile_size(surface, self.screen.size);
        proof {
            lemma_operands_fit(tile.x, tile.y, 0x1_0000_0000, 0x1_0000_0000);
        }
        (tile.y.ge(tile.x), tile.x.ge(tile.y))
    }

    /// The state with the viewport's two axes replaced.
    fn replace_axes(
        self,
        horizontal: (MapDistance, MapDistance),
        vertical: (MapDistance, MapDistance),
    ) -> (r: ViewState)
        ensures
            r == self.with_axes(horizontal, vertical),
    {
        ViewState {
            cursor_pos: self.cursor_pos,
            screen: Rectangle {
                top_left: Vector { x: horizontal.0, y: vertical.0 },
                size: Vector { x: horizontal.1, y: vertical.1 },
            },
            last_mouse_pan: self.last_mouse_pan,
        }
    }

    /// The horizontal axis of the viewport.
    fn horizontal_axis(&self, map_size: Vector<MapDistance>) -> (r: Axis)
        ensures
            r == self.horizontal(map_size),
    {
        Axis {
            origin: self.screen.top_left.x,
            extent: self.screen.size.x,
            cursor: self.cursor_pos.x,
            map: map_size.x,
        }
    }

    /// The vertical axis of the viewport.
    fn vertical_axis(&self, map_size: Vector<MapDistance>) -> (r: Axis)
        ensures
            r == self.vertical(map_size),
    {
        Axis {
            origin: self.screen.top_left.y,
            extent: self.screen.size.y,
            cursor: self.cursor_pos.y,
            map: map_size.y,
        }
    }

    /// Shows one tile less along the axes that the shape of the tiles picks.
    pub fn zoom_in(self, map_size: Vector<MapDistance>, surface: Vector<PixelDistance>) -> (r: (
        ViewState,
        Redraw,
    ))
        requires
            self.wf(map_size),
        ensures
            r == self.zoom_in_spec(map_size, surface),
            r.0.wf(map_size),
    {
        let (tall, wide) = self.tile_shape(map_size, surface);
        let horizontal = self.horizontal_axis(map_size);
        let vertical = self.vertical_axis(map_size);
        let columns = if wide {
            shrink(horizontal)
        } else {
            (horizontal.origin, horizontal.extent)
        };
        let rows = if tall {
            shrink(vertical)
        } else {
            (vertical.origin, vertical.extent)
        };
        (self.replace_axes(columns, rows), Redraw { full: true, cursor_from: None })
    }

    /// Shows one tile more along the axes that the shape of the tiles picks.
    pub fn zoom_out(self, map_size: Vector<MapDistance>, surface: Vector<PixelDistance>) -> (r: (
        ViewState,
        Redraw,
    ))
        requires
            self.wf(map_size),
        ensures
            r == self.zoom_out_spec(map_size, surface),
            r.0.wf(map_size),
    {
        let (tall, wide) = self.tile_shape(map_size, surface);
        let horizontal = self.horizontal_axis(map_size);
        let vertical = self.vertical_axis(map_size);
        let columns = if wide {
            grow(horizontal)
        } else {
            (horizontal.origin, horizontal.extent)
        };
        let rows = if tall {
            grow(vertical)
        } else {
            (vertical.origin, vertical.extent)
        };
        (self.replace_axes(columns, rows), Redraw { full: true, cursor_from: None })
    }

    /// Lets the pointer at `pos` pan the viewport, if it is due and the
    /// pointer is near a side beyond which the map goes on.
    fn pan(
        self,
        map_size: Vector<MapDistance>,
        surface: Vector<PixelDistance>,
        pos: Vector<MouseDistance>,
        now: Instant,
    ) -> (r: (ViewState, bool))
        requires
            self.wf(map_size),
        ensures
            r == self.pan_spec(map_size, surface, pos, now),
            r.0.wf(map_size),
    {
        if duration_between(self.last_mouse_pan, now).longer_than(nanoseconds(MOUSE_PAN_DELAY)) {
            match pan_side(self.screen, map_size, surface, pos) {
                Some(side) => (
                    ViewState {
                        cursor_pos: self.cursor_pos,
                        screen: Rectangle {
                            top_left: side.step_from(self.screen.top_left),
                            size: self.screen.size,
                        },
                        last_mouse_pan: now,
                    },
                    true,
                ),
                None => (self, false),
            }
        } else {
            (self, false)
        }
    }

    /// Handles a move of the pointer to `pos` at the time `now`.
    pub fn mouse_move(
        self,
        map_size: Vector<MapDistance>,
        surface: Vector<PixelDistance>,
        pos: Vector<MouseDistance>,
        now: Instant,
    ) -> (r: (ViewState, Redraw))
        requires
            self.wf(map_size),
        ensures
            r == self.mouse_move_spec(map_size, surface, pos, now),
            r.0.wf(map_size),
    {
        let (panned, full) = self.pan(map_size, surface, pos, now);
        match map_pos(surface, panned.screen, pos) {
            Some(tile) => {
                if tile.x < map_size.x && tile.y < map_size.y {
                    (
                        ViewState {
                            cursor_pos: tile,
                            screen: panned.screen,
                            last_mouse_pan: panned.last_mouse_pan,
                        },
                        Redraw { full, cursor_from: Some(self.cursor_pos) },
                    )
                } else {
                    (panned, Redraw { full, cursor_from: None })
                }
            },
            None => (panned, Redraw { full, cursor_from: None }),
        }
    }

    /// Applies `event`, which arrives at the time `now` while the drawing
    /// surface is `surface` pixels large.
    pub fn step(
        self,
        event: Event<MouseDistance>,
        map_size: Vector<MapDistance>,
        surface: Vector<PixelDistance>,
        now: Instant,
    ) -> (r: (ViewState, Redraw))
        requires
            self.wf(map_size),
        ensures
            r == self.step_spec(event, map_size, surface, now),
            r.0.wf(map_size),
    {
        match event {
            Event::Right => self.move_toward(map_size, Side::Right),
            Event::Left => self.move_toward(map_size, Side::Left),
            Event::Up => self.move_toward(map_size, Side::Top),
            Event::Down => self.move_toward(map_size, Side::Bottom),
            Event::ZoomIn => self.zoom_in(map_size, surface),
            Event::ZoomOut => self.zoom_out(map_size, surface),
            Event::MouseMove(pos) => self.mouse_move(map_size, surface, pos, now),
        }
    }
}

/// One event as it reaches the viewer: the event, the size of the drawing
/// surface at that moment, and the time.
#[derive(Clone, Copy, Debug)]
pub struct Input {
    pub event: Event<MouseDistance>,
    pub surface: Vector<PixelDistance>,
    pub now: Instant,
}

impl Input {
    /// Whether the event, if it is a move of the pointer, has the pointer on
    /// the drawing surface.
    pub open spec fn pointer_on_surface(self) -> bool {
        match self.event {
            Event::MouseMove(pos) => 0 <= pos.x < self.surface.x && 0 <= pos.y < self.surface.y,
            _ => true,
        }
    }
}

/// The state that `inputs`, applied in turn, lead to from `start`.
pub open spec fn run_spec(
    start: ViewState,
    map_size: Vector<MapDistance>,
    inputs: Seq<Input>,
) -> ViewState
    decreases inputs.len(),
{
    if inputs.len() == 0 {
        start
    } else {
        let input = inputs.last();
        run_spec(start, map_size, inputs.drop_last()).step_spec(
            input.event,
            map_size,
            input.surface,
            input.now,
        ).0
    }
}

/// A number of tiles scaled to the surface and back is the same number.
proof fn lemma_round_trip(extent: int, tiles: int, count: int)
    by (nonlinear_arith)
    requires
        extent > 0,
        tiles > 0,
        count >= 0,
    ensures
        ((extent * count) * tiles) / (tiles * extent) == count,
{
    assert((extent * count) * tiles == count * (tiles * extent));
}

/// A point of the surface lies on one of the tiles that the surface shows.
proof fn lemma_point_on_tile(point: int, tiles: int, extent: int)
    by (nonlinear_arith)
    requires
        0 <= point < extent,
        tiles >= 1,
    ensures
        0 <= (point * tiles) / extent < tiles,
{
    assert(point * tiles < extent * tiles);
}

/// A pointer on the surface is over a tile of the viewport.
proof fn lemma_pointer_in_viewport(
    surface: Vector<PixelDistance>,
    screen: Rectangle<MapDistance>,
    pos: Vector<MouseDistance>,
)
    requires
        screen.size.x >= 1,
        screen.size.y >= 1,
        screen.top_left.x + screen.size.x <= MapDistance::MAX,
        screen.top_left.y + screen.size.y <= MapDistance::MAX,
        0 <= pos.x < surface.x,
        0 <= pos.y < surface.y,
    ensures
        map_pos_spec(surface, screen, pos) matches Some(tile) && screen.top_left.x <= tile.x
            < screen.top_left.x + screen.size.x && screen.top_left.y <= tile.y
            < screen.top_left.y + screen.size.y,
{
    let tile = tile_size_spec(surface, screen.size);
    let at = Vector { x: whole(pos.x as int), y: whole(pos.y as int) };
    lemma_operands_fit(at.x, tile.x, 0x1_0000_0000, 0x1_0000_0000);
    lemma_operands_fit(at.y, tile.y, 0x1_0000_0000, 0x1_0000_0000);
    lemma_div_fraction(pos.x as int, 1, surface.x as int, screen.size.x as int);
    lemma_div_fraction(pos.y as int, 1, surface.y as int, screen.size.y as int);
    lemma_bounded_products(
        pos.x as int,
        pos.y as int,
        screen.size.x as int,
        screen.size.y as int,
        0x1_0000_0000,
        0x1_0000_0000,
    );
    lemma_point_on_tile(pos.x as int, screen.size.x as int, surface.x as int);
    lemma_point_on_tile(pos.y as int, screen.size.y as int, surface.y as int);
    lemma_bounded_products(pos.x as int, pos.y as int, 1, 1, 0x1_0000_0000, 1);
}

/// An axis that lies on the map and is not empty is so after a zoom, and
/// holds the cursor after it if it did before.
proof fn lemma_zoomed_axis(axis: Axis)
    requires
        axis.extent >= 1,
        axis.origin + axis.extent <= axis.map,
    ensures
        shrunk(axis).1 >= 1,
        shrunk(axis).0 + shrunk(axis).1 <= axis.map,
        grown(axis).1 >= 1,
        grown(axis).0 + grown(axis).1 <= axis.map,
        axis.origin <= axis.cursor < axis.origin + axis.extent ==> {
            &&& shrunk(axis).0 <= axis.cursor < shrunk(axis).0 + shrunk(axis).1
            &&& grown(axis).0 <= axis.cursor < grown(axis).0 + grown(axis).1
        },
{
}

/// A move of the cursor keeps it on the map and the viewport on the map, and
/// keeps the cursor in the viewport if it was there.
proof fn lemma_move_keeps(state: ViewState, map_size: Vector<MapDistance>, side: Side)
    requires
        state.wf(map_size),
    ensures
        state.move_spec(map_size, side).0.wf(map_size),
        state.cursor_visible() ==> state.move_spec(map_size, side).0.cursor_visible(),
{
}

/// A zoom keeps the cursor on the map and the viewport on the map, and keeps
/// the cursor in the viewport if it was there.
proof fn lemma_zoom_keeps(
    state: ViewState,
    map_size: Vector<MapDistance>,
    surface: Vector<PixelDistance>,
)
    requires
        state.wf(map_size),
    ensures
        state.zoom_in_spec(map_size, surface).0.wf(map_size),
        state.zoom_out_spec(map_size, surface).0.wf(map_size),
        state.cursor_visible() ==> {
            &&& state.zoom_in_spec(map_size, surface).0.cursor_visible()
            &&& state.zoom_out_spec(map_size, surface).0.cursor_visible()
        },
{
    lemma_zoomed_axis(state.horizontal(map_size));
    lemma_zoomed_axis(state.vertical(map_size));
}

/// A pan keeps the cursor on the map and the viewport on the map.
proof fn lemma_pan_keeps(
    state: ViewState,
    map_size: Vector<MapDistance>,
    surface: Vector<PixelDistance>,
    pos: Vector<MouseDistance>,
    now: Instant,
)
    requires
        state.wf(map_size),
    ensures
        state.pan_spec(map_size, surface, pos, now).0.wf(map_size),
{
}

/// A move of the pointer keeps the cursor on the map and the viewport on the
/// map.
proof fn lemma_mouse_move_keeps(
    state: ViewState,
    map_size: Vector<MapDistance>,
    surface: Vector<PixelDistance>,
    pos: Vector<MouseDistance>,
    now: Instant,
)
    requires
        state.wf(map_size),
    ensures
        state.mouse_move_spec(map_size, surface, pos, now).0.wf(map_size),
{
    lemma_pan_keeps(state, map_size, surface, pos, now);
}

/// Every event leaves the cursor on the map, and the viewport on the map and
/// at least one tile large each way.
pub proof fn lemma_step_keeps_viewport_contained(
    state: ViewState,
    event: Event<MouseDistance>,
    map_size: Vector<MapDistance>,
    surface: Vector<PixelDistance>,
    now: Instant,
)
    requires
        state.wf(map_size),
    ensures
        state.step_spec(event, map_size, surface, now).0.cursor_on_map(map_size),
        state.step_spec(event, map_size, surface, now).0.viewport_contained(map_size),
{
    match event {
        Event::Right => lemma_move_keeps(state, map_size, Side::Right),
        Event::Left => lemma_move_keeps(state, map_size, Side::Left),
        Event::Up => lemma_move_keeps(state, map_size, Side::Top),
        Event::Down => lemma_move_keeps(state, map_size, Side::Bottom),
        Event::ZoomIn => lemma_zoom_keeps(state, map_size, surface),
        Event::ZoomOut => lemma_zoom_keeps(state, map_size, surface),
        Event::MouseMove(pos) => lemma_mouse_move_keeps(state, map_size, surface, pos, now),
    }
}

/// Every event leaves the cursor inside the viewport, but for a move of the
/// pointer to a place off the drawing surface.
pub proof fn lemma_step_keeps_cursor_visible(
    state: ViewState,
    input: Input,
    map_size: Vector<MapDistance>,
)
    requires
        state.wf(map_size),
        state.cursor_visible(),
        input.pointer_on_surface(),
    ensures
        state.step_spec(input.event, map_size, input.surface, input.now).0.cursor_visible(),
{
    match input.event {
        Event::Right => lemma_move_keeps(state, map_size, Side::Right),
        Event::Left => lemma_move_keeps(state, map_size, Side::Left),
        Event::Up => lemma_move_keeps(state, map_size, Side::Top),
        Event::Down => lemma_move_keeps(state, map_size, Side::Bottom),
        Event::ZoomIn => lemma_zoom_keeps(state, map_size, input.surface),
        Event::ZoomOut => lemma_zoom_keeps(state, map_size, input.surface),
        Event::MouseMove(pos) => {
            let panned = state.pan_spec(map_size, input.surface, pos, input.now).0;
            lemma_pan_keeps(state, map_size, input.surface, pos, input.now);
            lemma_pointer_in_viewport(input.surface, panned.screen, pos);
        },
    }
}

/// Whatever events arrive after a map of at least one tile is first shown,
/// the cursor stays on the map, and the viewport stays on the map and at
/// least one tile large each way.
pub proof fn lemma_viewport_always_contained(
    map_size: Vector<MapDistance>,
    start: Instant,
    inputs: Seq<Input>,
)
    requires
        map_size.x >= 1,
        map_size.y >= 1,
    ensures
        run_spec(ViewState::initial(map_size, start), map_size, inputs).wf(map_size),
    decreases inputs.len(),
{
    if inputs.len() > 0 {
        let input = inputs.last();
        lemma_viewport_always_contained(map_size, start, inputs.drop_last());
        lemma_step_keeps_viewport_contained(
            run_spec(ViewState::initial(map_size, start), map_size, inputs.drop_last()),
            input.event,
            map_size,
            input.surface,
            input.now,
        );
    }
}

/// Whatever events arrive after a map of at least one tile is first shown,
/// the cursor stays inside the viewport, as long as the pointer never moves
/// off the drawing surface.
pub proof fn lemma_cursor_always_visible(
    map_size: Vector<MapDistance>,
    start: Instant,
    inputs: Seq<Input>,
)
    requires
        map_size.x >= 1,
        map_size.y >= 1,
        forall|i: int| 0 <= i < inputs.len() ==> (#[trigger] inputs[i]).pointer_on_surface(),
    ensures
        run_spec(ViewState::initial(map_size, start), map_size, inputs).cursor_visible(),
    decreases inputs.len(),
{
    if inputs.len() > 0 {
        let before = inputs.drop_last();
        assert forall|i: int| 0 <= i < before.len() implies (#[trigger] before[i]).pointer_on_surface() by {
            assert(before[i] == inputs[i]);
        }
        lemma_cursor_always_visible(map_size, start, before);
        lemma_viewport_always_contained(map_size, start, before);
        lemma_step_keeps_cursor_visible(
            run_spec(ViewState::initial(map_size, start), map_size, before),
            inputs.last(),
            map_size,
        );
    }
}

/// A move toward an edge of the map on which the cursor already lies changes
/// nothing and draws nothing.
pub proof fn lemma_move_at_map_edge(
    state: ViewState,
    map_size: Vector<MapDistance>,
    surface: Vector<PixelDistance>,
    now: Instant,
)
    ensures
        state.cursor_pos.x + 1 >= map_size.x ==> state.step_spec(
            Event::Right,
            map_size,
            surface,
            now,
        ) == (state, Redraw::nothing()),
        state.cursor_pos.x == 0 ==> state.step_spec(Event::Left, map_size, surface, now) == (
            state,
            Redraw::nothing(),
        ),
        state.cursor_pos.y == 0 ==> state.step_spec(Event::Up, map_size, surface, now) == (
            state,
            Redraw::nothing(),
        ),
        state.cursor_pos.y + 1 >= map_size.y ==> state.step_spec(
            Event::Down,
            map_size,
            surface,
            now,
        ) == (state, Redraw::nothing()),
{
}

/// A tile that lies at or after the viewport's origin is found again under
/// the corner of the place where it is drawn, on any surface that is not
/// empty.
pub proof fn lemma_screen_pos_round_trip(
    surface: Vector<PixelDistance>,
    screen: Rectangle<MapDistance>,
    tile: Vector<MapDistance>,
)
    requires
        surface.x > 0,
        surface.y > 0,
        screen.size.x >= 1,
        screen.size.y >= 1,
        screen.top_left.x <= tile.x,
        screen.top_left.y <= tile.y,
    ensures
        screen_to_map_spec(surface, screen, screen_pos_spec(surface, screen, tile).top_left)
            == Some(tile),
{
    let extent = tile_size_spec(surface, screen.size);
    let at = screen_pos_spec(surface, screen, tile).top_left;
    let dx = tile.x - screen.top_left.x;
    let dy = tile.y - screen.top_left.y;
    lemma_bounded_products(
        surface.x as int,
        surface.y as int,
        dx,
        dy,
        0x1_0000_0000,
        0x1_0000_0000,
    );
    lemma_operands_fit(at.x, extent.x, 0x1_0000_0000_0000_0000, 0x1_0000_0000);
    lemma_operands_fit(at.y, extent.y, 0x1_0000_0000_0000_0000, 0x1_0000_0000);
    lemma_div_fraction(surface.x * dx, screen.size.x as int, surface.x as int, screen.size.x as int);
    lemma_div_fraction(surface.y * dy, screen.size.y as int, surface.y as int, screen.size.y as int);
    lemma_bounded_products(
        surface.x * dx,
        surface.y * dy,
        screen.size.x as int,
        screen.size.y as int,
        0x1_0000_0000_0000_0000,
        0x1_0000_0000,
    );
    lemma_bounded_products(
        surface.x as int,
        surface.y as int,
        screen.size.x as int,
        screen.size.y as int,
        0x1_0000_0000,
        0x1_0000_0000,
    );
    lemma_round_trip(surface.x as int, screen.size.x as int, dx);
    lemma_round_trip(surface.y as int, screen.size.y as int, dy);
}

} // verus!
