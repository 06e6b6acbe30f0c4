use alemian_saga_core::controller::grow;
use alemian_saga_core::controller::map_pos;
use alemian_saga_core::controller::pan_side;
use alemian_saga_core::controller::screen_pos;
use alemian_saga_core::controller::screen_to_map;
use alemian_saga_core::controller::shrink;
use alemian_saga_core::controller::tile_size;
use alemian_saga_core::controller::Axis;
use alemian_saga_core::controller::Redraw;
use alemian_saga_core::controller::Side;
use alemian_saga_core::controller::ViewState;
use alemian_saga_core::controller::MOUSE_PAN_DELAY;
use alemian_saga_core::event::Event;
use alemian_saga_core::geometry::Rectangle;
use alemian_saga_core::geometry::Vector;
use alemian_saga_core::scalar::ScreenDistance;
use alemian_saga_core::time::Instant;

const MS: u64 = 1_000_000;

fn sd(num: i128, den: i128) -> ScreenDistance {
    ScreenDistance::new(num, den).unwrap()
}

fn v(x: u32, y: u32) -> Vector<u32> {
    Vector { x, y }
}

fn rect(x: u32, y: u32, w: u32, h: u32) -> Rectangle<u32> {
    Rectangle { top_left: v(x, y), size: v(w, h) }
}

fn state(cursor: (u32, u32), screen: Rectangle<u32>, pan: u64) -> ViewState {
    ViewState { cursor_pos: v(cursor.0, cursor.1), screen, last_mouse_pan: Instant { nanos: pan } }
}

fn nothing() -> Redraw {
    Redraw { full: false, cursor_from: None }
}

fn everything() -> Redraw {
    Redraw { full: true, cursor_from: None }
}

fn contained(s: &ViewState, map: Vector<u32>) -> bool {
    s.screen.size.x >= 1
        && s.screen.size.y >= 1
        && s.screen.top_left.x + s.screen.size.x <= map.x
        && s.screen.top_left.y + s.screen.size.y <= map.y
}

fn visible(s: &ViewState) -> bool {
    s.screen.top_left.x <= s.cursor_pos.x
        && s.cursor_pos.x < s.screen.top_left.x + s.screen.size.x
        && s.screen.top_left.y <= s.cursor_pos.y
        && s.cursor_pos.y < s.screen.top_left.y + s.screen.size.y
}

#[test]
fn initial_state_shows_the_whole_map() {
    let s = ViewState::new(v(4, 3), Instant { nanos: 9 });
    assert_eq!(s, state((0, 0), rect(0, 0, 4, 3), 9));
    assert!(s.is_valid(v(4, 3)));
}

#[test]
fn is_valid_tells_states_apart() {
    let map = v(4, 3);
    assert!(state((3, 2), rect(1, 1, 3, 2), 0).is_valid(map));
    assert!(!state((4, 2), rect(1, 1, 3, 2), 0).is_valid(map));
    assert!(!state((0, 0), rect(2, 0, 3, 2), 0).is_valid(map));
    assert!(!state((0, 0), rect(0, 0, 0, 2), 0).is_valid(map));
    assert!(!state((0, 0), rect(0, 2, 1, 2), 0).is_valid(map));
    assert!(state((0, 0), rect(3, 2, 1, 1), 0).is_valid(map));
}

#[test]
fn right_moves_inside_the_viewport_then_stops_at_the_edge() {
    let map = v(3, 3);
    let surface = v(300, 300);
    let now = Instant { nanos: 0 };
    let s0 = ViewState::new(map, now);
    let (s1, r1) = s0.step(Event::Right, map, surface, now);
    assert_eq!(s1.cursor_pos, v(1, 0));
    assert_eq!(s1.screen, rect(0, 0, 3, 3));
    assert_eq!(r1, Redraw { full: false, cursor_from: Some(v(0, 0)) });
    let (s2, r2) = s1.step(Event::Right, map, surface, now);
    assert_eq!(s2.cursor_pos, v(2, 0));
    assert_eq!(s2.screen, rect(0, 0, 3, 3));
    assert_eq!(r2, Redraw { full: false, cursor_from: Some(v(1, 0)) });
    let (s3, r3) = s2.step(Event::Right, map, surface, now);
    assert_eq!(s3, s2);
    assert_eq!(r3, nothing());
}

#[test]
fn moves_at_each_map_edge_change_nothing() {
    let map = v(3, 3);
    let surface = v(300, 300);
    let now = Instant { nanos: 0 };
    let corner = state((0, 0), rect(0, 0, 3, 3), 0);
    assert_eq!(corner.step(Event::Left, map, surface, now), (corner, nothing()));
    assert_eq!(corner.step(Event::Up, map, surface, now), (corner, nothing()));
    let far = state((2, 2), rect(1, 1, 2, 2), 0);
    assert_eq!(far.step(Event::Right, map, surface, now), (far, nothing()));
    assert_eq!(far.step(Event::Down, map, surface, now), (far, nothing()));
    assert_eq!(far.move_toward(map, Side::Right), (far, nothing()));
    assert_eq!(far.move_toward(map, Side::Bottom), (far, nothing()));
}

#[test]
fn move_on_the_viewport_edge_takes_the_viewport_along() {
    let map = v(5, 5);
    let surface = v(300, 300);
    let now = Instant { nanos: 0 };
    let s = state((3, 3), rect(1, 1, 3, 3), 7);
    assert_eq!(
        s.step(Event::Right, map, surface, now),
        (state((4, 3), rect(2, 1, 3, 3), 7), everything())
    );
    assert_eq!(
        s.step(Event::Down, map, surface, now),
        (state((3, 4), rect(1, 2, 3, 3), 7), everything())
    );
    let t = state((1, 1), rect(1, 1, 3, 3), 7);
    assert_eq!(
        t.step(Event::Left, map, surface, now),
        (state((0, 1), rect(0, 1, 3, 3), 7), everything())
    );
    assert_eq!(
        t.step(Event::Up, map, surface, now),
        (state((1, 0), rect(1, 0, 3, 3), 7), everything())
    );
}

#[test]
fn move_inside_the_viewport_moves_only_the_cursor() {
    let map = v(5, 5);
    let surface = v(300, 300);
    let now = Instant { nanos: 0 };
    let s = state((2, 2), rect(1, 1, 3, 3), 7);
    assert_eq!(
        s.step(Event::Left, map, surface, now),
        (state((1, 2), rect(1, 1, 3, 3), 7), Redraw { full: false, cursor_from: Some(v(2, 2)) })
    );
    assert_eq!(
        s.step(Event::Up, map, surface, now),
        (state((2, 1), rect(1, 1, 3, 3), 7), Redraw { full: false, cursor_from: Some(v(2, 2)) })
    );
    assert_eq!(
        s.step(Event::Down, map, surface, now),
        (state((2, 3), rect(1, 1, 3, 3), 7), Redraw { full: false, cursor_from: Some(v(2, 2)) })
    );
}

#[test]
fn shrink_takes_a_tile_from_the_end_or_from_the_start() {
    assert_eq!(shrink(Axis { origin: 2, extent: 5, cursor: 3, map: 10 }), (2, 4));
    assert_eq!(shrink(Axis { origin: 2, extent: 5, cursor: 4, map: 10 }), (2, 4));
    assert_eq!(shrink(Axis { origin: 2, extent: 5, cursor: 5, map: 10 }), (3, 4));
    assert_eq!(shrink(Axis { origin: 2, extent: 2, cursor: 3, map: 10 }), (3, 1));
    assert_eq!(shrink(Axis { origin: 2, extent: 2, cursor: 2, map: 10 }), (2, 1));
    assert_eq!(shrink(Axis { origin: 2, extent: 4, cursor: 0, map: 10 }), (2, 3));
}

#[test]
fn shrink_never_goes_below_one_tile() {
    assert_eq!(shrink(Axis { origin: 2, extent: 1, cursor: 2, map: 10 }), (2, 1));
}

#[test]
fn grow_adds_a_tile_before_or_after() {
    assert_eq!(grow(Axis { origin: 2, extent: 4, cursor: 3, map: 10 }), (2, 5));
    assert_eq!(grow(Axis { origin: 2, extent: 4, cursor: 4, map: 10 }), (2, 5));
    assert_eq!(grow(Axis { origin: 2, extent: 4, cursor: 5, map: 10 }), (1, 5));
    assert_eq!(grow(Axis { origin: 0, extent: 4, cursor: 3, map: 10 }), (0, 5));
    assert_eq!(grow(Axis { origin: 6, extent: 4, cursor: 6, map: 10 }), (5, 5));
}

#[test]
fn grow_is_capped_at_the_map() {
    assert_eq!(grow(Axis { origin: 0, extent: 10, cursor: 3, map: 10 }), (0, 10));
}

#[test]
fn zoom_in_at_one_tile_keeps_the_size_and_redraws() {
    let map = v(3, 3);
    let s = state((1, 1), rect(1, 1, 1, 1), 0);
    let now = Instant { nanos: 5 };
    assert_eq!(s.step(Event::ZoomIn, map, v(300, 300), now), (s, everything()));
    assert_eq!(s.step(Event::ZoomIn, map, v(300, 200), now), (s, everything()));
    assert_eq!(s.step(Event::ZoomIn, map, v(200, 300), now), (s, everything()));
    let row = state((1, 1), rect(0, 1, 3, 1), 0);
    let (zoomed, redraw) = row.step(Event::ZoomIn, map, v(100, 300), now);
    assert_eq!(zoomed.screen.size, v(3, 1));
    assert_eq!(redraw, everything());
}

#[test]
fn zoom_in_with_square_tiles_shrinks_both_axes() {
    let map = v(3, 3);
    let s = state((2, 2), rect(0, 0, 3, 3), 0);
    let (zoomed, redraw) = s.zoom_in(map, v(300, 300));
    assert_eq!(zoomed, state((2, 2), rect(1, 1, 2, 2), 0));
    assert_eq!(redraw, everything());
    let t = state((0, 1), rect(0, 0, 3, 3), 0);
    assert_eq!(t.zoom_in(map, v(300, 300)).0, state((0, 1), rect(0, 0, 2, 2), 0));
}

#[test]
fn zoom_in_shrinks_the_axis_along_which_tiles_are_larger() {
    let map = v(3, 3);
    let s = state((0, 0), rect(0, 0, 3, 3), 0);
    assert_eq!(s.zoom_in(map, v(300, 600)).0.screen, rect(0, 0, 3, 2));
    assert_eq!(s.zoom_in(map, v(600, 300)).0.screen, rect(0, 0, 2, 3));
}

#[test]
fn zoom_out_grows_the_axis_along_which_tiles_are_larger() {
    let map = v(5, 5);
    let s = state((2, 2), rect(1, 1, 3, 3), 0);
    assert_eq!(s.zoom_out(map, v(300, 600)), (state((2, 2), rect(1, 1, 3, 4), 0), everything()));
    assert_eq!(s.zoom_out(map, v(600, 300)), (state((2, 2), rect(1, 1, 4, 3), 0), everything()));
    assert_eq!(s.zoom_out(map, v(300, 300)).0.screen, rect(1, 1, 4, 4));
    let late = state((3, 3), rect(1, 1, 3, 3), 0);
    assert_eq!(late.zoom_out(map, v(300, 300)).0.screen, rect(0, 0, 4, 4));
}

#[test]
fn zoom_out_is_capped_at_the_map_and_still_redraws() {
    let map = v(3, 3);
    let s = state((1, 1), rect(0, 0, 3, 3), 0);
    assert_eq!(s.step(Event::ZoomOut, map, v(300, 300), Instant { nanos: 1 }), (s, everything()));
    let t = state((2, 2), rect(1, 1, 2, 2), 0);
    assert_eq!(t.zoom_out(map, v(300, 300)).0.screen, rect(0, 0, 3, 3));
}

#[test]
fn tile_size_is_the_surface_over_the_tiles() {
    assert_eq!(tile_size(v(300, 200), v(3, 4)), Vector { x: sd(300, 3), y: sd(200, 4) });
    assert_eq!(tile_size(v(10, 7), v(3, 2)), Vector { x: sd(10, 3), y: sd(7, 2) });
}

#[test]
fn screen_pos_counts_tiles_from_the_viewport_origin() {
    let screen = rect(1, 2, 3, 4);
    let r = screen_pos(v(300, 200), screen, v(2, 5));
    assert_eq!(r.top_left, Vector { x: sd(300, 3), y: sd(600, 4) });
    assert_eq!(r.size, Vector { x: sd(300, 3), y: sd(200, 4) });
    let before = screen_pos(v(300, 200), screen, v(0, 2));
    assert_eq!(before.top_left, Vector { x: sd(-300, 3), y: sd(0, 4) });
}

#[test]
fn map_pos_is_the_tile_under_the_pointer() {
    let screen = rect(1, 2, 3, 4);
    let surface = v(300, 200);
    assert_eq!(map_pos(surface, screen, Vector { x: 0, y: 0 }), Some(v(1, 2)));
    assert_eq!(map_pos(surface, screen, Vector { x: 99, y: 49 }), Some(v(1, 2)));
    assert_eq!(map_pos(surface, screen, Vector { x: 100, y: 50 }), Some(v(2, 3)));
    assert_eq!(map_pos(surface, screen, Vector { x: 299, y: 199 }), Some(v(3, 5)));
    assert_eq!(map_pos(surface, screen, Vector { x: 300, y: 200 }), Some(v(4, 6)));
}

#[test]
fn map_pos_is_nothing_where_no_tile_count_comes_out() {
    let screen = rect(1, 2, 3, 4);
    let surface = v(300, 200);
    assert_eq!(map_pos(surface, screen, Vector { x: -1, y: 0 }), Some(v(1, 2)));
    assert_eq!(map_pos(surface, screen, Vector { x: -100, y: 0 }), None);
    assert_eq!(map_pos(surface, screen, Vector { x: 0, y: -50 }), None);
    assert_eq!(map_pos(v(0, 200), screen, Vector { x: 10, y: 10 }), None);
    assert_eq!(map_pos(v(300, 0), screen, Vector { x: 10, y: 10 }), None);
    let far = rect(u32::MAX - 2, 0, 3, 4);
    assert_eq!(map_pos(surface, far, Vector { x: 299, y: 0 }), Some(v(u32::MAX, 0)));
    assert_eq!(map_pos(surface, far, Vector { x: 300, y: 0 }), None);
}

#[test]
fn round_trip_from_tile_to_screen_and_back() {
    let screen = rect(1, 2, 3, 4);
    for surface in [v(300, 200), v(10, 7), v(1, 1), v(1920, 1079)] {
        for x in 1..8u32 {
            for y in 2..9u32 {
                let at = screen_pos(surface, screen, v(x, y)).top_left;
                assert_eq!(screen_to_map(surface, screen, at), Some(v(x, y)));
            }
        }
    }
}

#[test]
fn round_trip_through_whole_pixels() {
    let screen = rect(1, 2, 3, 4);
    let surface = v(300, 200);
    let at = screen_pos(surface, screen, v(3, 4)).top_left;
    let pointer: Vector<i32> = Vector { x: at.x.trunc() as i32, y: at.y.trunc() as i32 };
    assert_eq!(pointer, Vector { x: 200, y: 100 });
    assert_eq!(map_pos(surface, screen, pointer), Some(v(3, 4)));
}

#[test]
fn round_trip_fails_before_the_viewport_origin_and_on_an_empty_surface() {
    let screen = rect(1, 2, 3, 4);
    let at = screen_pos(v(300, 200), screen, v(0, 2)).top_left;
    assert_eq!(screen_to_map(v(300, 200), screen, at), None);
    let on_nothing = screen_pos(v(0, 200), screen, v(1, 2)).top_left;
    assert_eq!(screen_to_map(v(0, 200), screen, on_nothing), None);
}

#[test]
fn pan_side_goes_by_priority_top_bottom_left_right() {
    let map = v(5, 5);
    let surface = v(300, 300);
    let screen = rect(1, 1, 3, 3);
    assert_eq!(pan_side(screen, map, surface, Vector { x: 10, y: 10 }), Some(Side::Top));
    assert_eq!(pan_side(screen, map, surface, Vector { x: 10, y: 290 }), Some(Side::Bottom));
    assert_eq!(pan_side(screen, map, surface, Vector { x: 10, y: 150 }), Some(Side::Left));
    assert_eq!(pan_side(screen, map, surface, Vector { x: 290, y: 150 }), Some(Side::Right));
    assert_eq!(pan_side(screen, map, surface, Vector { x: 150, y: 150 }), None);
}

#[test]
fn pan_side_is_within_half_a_tile_strictly() {
    let map = v(5, 5);
    let surface = v(300, 300);
    let screen = rect(1, 1, 3, 3);
    assert_eq!(pan_side(screen, map, surface, Vector { x: 49, y: 150 }), Some(Side::Left));
    assert_eq!(pan_side(screen, map, surface, Vector { x: 50, y: 150 }), None);
    assert_eq!(pan_side(screen, map, surface, Vector { x: 250, y: 150 }), None);
    assert_eq!(pan_side(screen, map, surface, Vector { x: 251, y: 150 }), Some(Side::Right));
    assert_eq!(pan_side(screen, map, surface, Vector { x: 150, y: 49 }), Some(Side::Top));
    assert_eq!(pan_side(screen, map, surface, Vector { x: 150, y: 50 }), None);
    assert_eq!(pan_side(screen, map, surface, Vector { x: 150, y: 251 }), Some(Side::Bottom));
    assert_eq!(pan_side(v_rect_odd(), v(5, 5), v(10, 10), Vector { x: 1, y: 5 }), Some(Side::Left));
    assert_eq!(pan_side(v_rect_odd(), v(5, 5), v(10, 10), Vector { x: 2, y: 5 }), None);
}

fn v_rect_odd() -> Rectangle<u32> {
    rect(1, 1, 3, 3)
}

#[test]
fn pan_side_skips_a_side_where_the_map_ends() {
    let map = v(5, 5);
    let surface = v(300, 300);
    assert_eq!(pan_side(rect(1, 0, 3, 3), map, surface, Vector { x: 10, y: 10 }), Some(Side::Left));
    assert_eq!(pan_side(rect(0, 0, 3, 3), map, surface, Vector { x: 10, y: 10 }), None);
    assert_eq!(pan_side(rect(2, 2, 3, 3), map, surface, Vector { x: 290, y: 290 }), None);
    assert_eq!(pan_side(rect(2, 1, 3, 3), map, surface, Vector { x: 290, y: 290 }), Some(Side::Bottom));
}

#[test]
fn pan_waits_for_the_delay() {
    let map = v(5, 5);
    let surface = v(300, 500);
    let t0 = 1_000 * MS;
    let s = state((2, 2), rect(1, 0, 3, 5), t0);
    let pointer: Vector<i32> = Vector { x: 10, y: 250 };
    let (early, redraw) = s.step(Event::MouseMove(pointer), map, surface, Instant { nanos: t0 + 50 * MS });
    assert_eq!(early.screen, rect(1, 0, 3, 5));
    assert_eq!(early.last_mouse_pan, Instant { nanos: t0 });
    assert_eq!(early.cursor_pos, v(1, 2));
    assert_eq!(redraw, Redraw { full: false, cursor_from: Some(v(2, 2)) });
    let (late, redraw) = early.step(Event::MouseMove(pointer), map, surface, Instant { nanos: t0 + 150 * MS });
    assert_eq!(late.screen, rect(0, 0, 3, 5));
    assert_eq!(late.last_mouse_pan, Instant { nanos: t0 + 150 * MS });
    assert_eq!(late.cursor_pos, v(0, 2));
    assert_eq!(redraw, Redraw { full: true, cursor_from: Some(v(1, 2)) });
}

#[test]
fn pan_needs_more_than_the_delay() {
    assert_eq!(MOUSE_PAN_DELAY, 100_000_000);
    let map = v(5, 5);
    let surface = v(300, 500);
    let s = state((2, 2), rect(1, 0, 3, 5), 1_000);
    let pointer: Vector<i32> = Vector { x: 10, y: 250 };
    let at = s.mouse_move(map, surface, pointer, Instant { nanos: 1_000 + MOUSE_PAN_DELAY }).0;
    assert_eq!(at.screen, rect(1, 0, 3, 5));
    let after = s.mouse_move(map, surface, pointer, Instant { nanos: 1_001 + MOUSE_PAN_DELAY }).0;
    assert_eq!(after.screen, rect(0, 0, 3, 5));
    let before = s.mouse_move(map, surface, pointer, Instant { nanos: 0 }).0;
    assert_eq!(before.screen, rect(1, 0, 3, 5));
}

#[test]
fn mouse_move_off_the_map_leaves_the_cursor() {
    let map = v(3, 3);
    let surface = v(300, 300);
    let s = state((1, 1), rect(0, 0, 2, 2), 0);
    let (next, redraw) = s.mouse_move(map, surface, Vector { x: 299, y: 450 }, Instant { nanos: 0 });
    assert_eq!(next, s);
    assert_eq!(redraw, nothing());
    let (next, redraw) = s.mouse_move(map, surface, Vector { x: -500, y: 10 }, Instant { nanos: 0 });
    assert_eq!(next, s);
    assert_eq!(redraw, nothing());
}

#[test]
fn mouse_move_onto_the_cursor_still_redraws_it() {
    let map = v(3, 3);
    let s = state((1, 1), rect(0, 0, 3, 3), 0);
    let (next, redraw) = s.mouse_move(map, v(300, 300), Vector { x: 150, y: 150 }, Instant { nanos: 0 });
    assert_eq!(next, s);
    assert_eq!(redraw, Redraw { full: false, cursor_from: Some(v(1, 1)) });
}

#[test]
fn pan_off_the_surface_can_leave_the_cursor_outside_the_viewport() {
    let map = v(3, 3);
    let s = state((0, 2), rect(0, 1, 2, 2), 0);
    let now = Instant { nanos: 200 * MS };
    let (next, redraw) = s.step(Event::MouseMove(Vector { x: 5, y: -1000 }), map, v(100, 100), now);
    assert_eq!(next, state((0, 2), rect(0, 0, 2, 2), 200 * MS));
    assert_eq!(redraw, everything());
    assert!(contained(&next, map));
    assert!(!visible(&next));
}

#[test]
fn every_event_keeps_viewport_and_cursor_where_they_belong() {
    let map = v(4, 3);
    let surfaces = [v(400, 300), v(300, 400), v(7, 5), v(1, 1)];
    let mut events: Vec<Event<i32>> = vec![
        Event::Right,
        Event::Left,
        Event::Up,
        Event::Down,
        Event::ZoomIn,
        Event::ZoomOut,
    ];
    for x in [0, 1, 3, 6] {
        for y in [0, 2, 4] {
            events.push(Event::MouseMove(Vector { x, y }));
        }
    }
    let mut states = vec![ViewState::new(map, Instant { nanos: 0 })];
    let mut seen = 0;
    while seen < states.len() && states.len() < 400 {
        let s = states[seen];
        seen += 1;
        for surface in surfaces {
            for event in events.iter() {
                if let Event::MouseMove(p) = event {
                    if p.x as u32 >= surface.x || p.y as u32 >= surface.y {
                        continue;
                    }
                }
                let now = Instant { nanos: s.last_mouse_pan.nanos + 150 * MS };
                let (next, _) = s.step(*event, map, surface, now);
                assert!(next.is_valid(map));
                assert!(contained(&next, map));
                assert!(visible(&next));
                let known = ViewState { last_mouse_pan: Instant { nanos: 0 }, ..next };
                if !states.contains(&known) {
                    states.push(known);
                }
            }
        }
    }
    assert!(states.len() > 20);
}
