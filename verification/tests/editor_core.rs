use glyphedit::editor::{get_contour_start_or_end, is_point_selected, move_point, Editor, SelectPointInfo};
use glyphedit::events::{
    mouse_moved_move, mouse_moved_select, mouse_pressed_select, mouse_released_select,
    mouse_released_zoom, update_mousepos, update_viewport, zoom_in_factor, zoom_out_factor,
    MouseButton, State,
};
use glyphedit::geometry::{Contour, Handle, Point, WhichHandle};
use glyphedit::hit::clicked_point_or_handle;
use glyphedit::measure::Measure;
use glyphedit::pos::RatPos;
use glyphedit::project::nearest_point_on_curve;
use glyphedit::select::{build_box_selection, Rect};
use glyphedit::tool::{EditorEvent, MouseEventType, MouseInfo, Tool};
use glyphedit::viewport::Viewport;

fn plain_point(x: i64, y: i64) -> Point {
    Point { x, y, a: Handle::Colocated, b: Handle::Colocated }
}

fn square_outline() -> Vec<Contour> {
    vec![Contour {
        points: vec![
            plain_point(0, 0),
            plain_point(10, 0),
            plain_point(10, 10),
            plain_point(0, 10),
        ],
        closed: true,
    }]
}

fn viewport_unit() -> Viewport {
    Viewport { winsize: (800, 600), offset: (0, 0), factor: 100 }
}

fn editor_with(outline: Vec<Contour>) -> Editor {
    Editor { outline, contour_idx: None, point_idx: None, selected: Vec::new() }
}

fn state_unit() -> State {
    State {
        viewport: viewport_unit(),
        mousepos: RatPos { xn: 0, yn: 0, den: 1 },
        absolute_mousepos: (0, 0),
        mousedown: false,
        show_sel_box: false,
        corner_one: None,
        corner_two: None,
    }
}

fn doc(x: i64, y: i64) -> RatPos {
    RatPos { xn: x as i128, yn: y as i128, den: 1 }
}

#[test]
fn hit_inside_own_square_returns_point() {
    let v = editor_with(square_outline());
    let vp = viewport_unit();
    let r = clicked_point_or_handle(&v, &vp, &doc(1, 1), None);
    assert_eq!(r, Some((0, 0, WhichHandle::Neither)));
}

#[test]
fn hit_with_mask_on_only_match_returns_none() {
    let v = editor_with(square_outline());
    let vp = viewport_unit();
    let r = clicked_point_or_handle(&v, &vp, &doc(1, 1), Some((0, 0)));
    assert_eq!(r, None);
}

#[test]
fn hit_scales_with_zoom() {
    let v = editor_with(square_outline());
    let near = RatPos { xn: 3, yn: 0, den: 1 };
    let vp1 = viewport_unit();
    assert_eq!(clicked_point_or_handle(&v, &vp1, &near, None), Some((0, 0, WhichHandle::Neither)));
    let vp2 = Viewport { winsize: (800, 600), offset: (0, 0), factor: 200 };
    assert_eq!(clicked_point_or_handle(&v, &vp2, &near, None), None);
}

#[test]
fn hit_finds_free_handle() {
    let mut outline = square_outline();
    outline[0].points[1].a = Handle::At(20, 20);
    let v = editor_with(outline);
    let vp = viewport_unit();
    let r = clicked_point_or_handle(&v, &vp, &doc(21, 19), None);
    assert_eq!(r, Some((0, 1, WhichHandle::A)));
}

#[test]
fn box_select_is_monotonic_and_corner_order_free() {
    let outline = square_outline();
    let already = vec![(7usize, 9usize)];
    let c1 = doc(-1, -1);
    let c2 = RatPos { xn: 110, yn: 110, den: 10 }; // (11, 11)
    let normal = build_box_selection(&already, &Rect { c1, c2 }, &outline);
    let flipped = build_box_selection(&already, &Rect { c1: c2, c2: c1 }, &outline);
    assert!(normal.contains(&(7, 9)));
    for pr in &normal {
        assert!(flipped.contains(pr));
    }
    for pr in &flipped {
        assert!(normal.contains(pr));
    }
    for pi in 0..4usize {
        assert!(normal.contains(&(0, pi)));
    }
}

#[test]
fn box_select_edges_are_inclusive() {
    let outline = square_outline();
    let r = Rect { c1: doc(0, 0), c2: doc(10, 10) };
    let sel = build_box_selection(&Vec::new(), &r, &outline);
    assert!(sel.contains(&(0, 0)));
    assert!(sel.contains(&(0, 2)));
    assert_eq!(sel.len(), 4);
}

#[test]
fn transform_round_trips_exactly() {
    let vp = Viewport { winsize: (800, 600), offset: (7, -3), factor: 250 };
    let p = RatPos { xn: 123, yn: -456, den: 1 };
    let d = vp.to_document(&p);
    let b = vp.to_device(&d);
    assert_eq!(b.xn * p.den, p.xn * b.den);
    assert_eq!(b.yn * p.den, p.yn * b.den);
    let q = RatPos { xn: 555, yn: -77, den: 250 };
    let e = vp.to_device(&q);
    let back = vp.to_document(&e);
    assert_eq!(back.xn * q.den, q.xn * back.den);
    assert_eq!(back.yn * q.den, q.yn * back.den);
}

#[test]
fn zoom_out_respects_floor_and_round_trips() {
    let mut st = state_unit();
    st.viewport.factor = 7;
    assert_eq!(zoom_out_factor(7, &st), 7);
    st.viewport.factor = 10;
    assert_eq!(zoom_out_factor(10, &st), 5);
    st.viewport.factor = 105;
    assert_eq!(zoom_out_factor(105, &st), 100);
    st.viewport.factor = 100;
    let up = zoom_in_factor(100, &st);
    assert_eq!(up, 105);
    st.viewport.factor = up;
    assert_eq!(zoom_out_factor(up, &st), 100);
}

#[test]
fn update_viewport_clamps_factor() {
    let mut st = state_unit();
    update_viewport(None, Some(1), &mut st);
    assert_eq!(st.viewport.factor, 5);
    update_viewport(Some((40, -40)), Some(1_000_000), &mut st);
    assert_eq!(st.viewport.factor, 10_000);
    assert_eq!(st.viewport.offset, (40, -40));
}

#[test]
fn project_midpoint_of_line_returns_half() {
    let outline = vec![Contour {
        points: vec![plain_point(0, 0), plain_point(10, 0)],
        closed: false,
    }];
    let v = editor_with(outline);
    let vp = viewport_unit();
    let r = nearest_point_on_curve(&v, &vp, &doc(5, 0)).expect("midpoint is on the curve");
    assert_eq!(r.t.num, 16);
    assert_eq!(r.t.den, 32);
    assert_eq!(r.contour_idx, 0);
    assert_eq!(r.seg_idx, 0);
    assert_eq!(r.point.xn * 1, 5 * r.point.den);
    assert_eq!(r.point.yn, 0);
}

#[test]
fn project_near_square_edge() {
    let v = editor_with(square_outline());
    let vp = viewport_unit();
    let q = RatPos { xn: 50, yn: 1, den: 10 }; // (5, 0.1)
    assert_eq!(clicked_point_or_handle(&v, &vp, &q, None), None);
    let r = nearest_point_on_curve(&v, &vp, &q).expect("within 3.5 units of segment 0");
    assert_eq!(r.contour_idx, 0);
    assert_eq!(r.seg_idx, 0);
    assert_eq!(r.t.num, 16);
    assert_eq!(r.t.den, 32);
    assert_eq!(r.point.xn, 5 * r.point.den);
    assert_eq!(r.point.yn, 0);
}

#[test]
fn project_far_away_returns_none() {
    let v = editor_with(square_outline());
    let vp = viewport_unit();
    assert!(nearest_point_on_curve(&v, &vp, &doc(500, 500)).is_none());
}

#[test]
fn select_drag_selects_box_corners() {
    let outline = square_outline();
    let mut st = state_unit();
    update_mousepos((0, 0), &mut st, false);
    mouse_pressed_select((0, 0), &mut st, MouseButton::Left);
    assert!(st.show_sel_box);
    mouse_moved_select((10, 10), &mut st);
    let done = mouse_released_select((10, 10), &mut st, MouseButton::Left);
    assert!(done);
    assert!(!st.show_sel_box);
    let c1 = st.corner_one.expect("press opened the box");
    let c2 = st.corner_two.expect("motion tracked the box");
    let sel = build_box_selection(&Vec::new(), &Rect { c1, c2 }, &outline);
    assert!(sel.contains(&(0, 0)));
    assert!(sel.contains(&(0, 2)));
}

#[test]
fn pan_accumulates_delta_only_while_down() {
    let mut st = state_unit();
    st.absolute_mousepos = (100, 100);
    assert!(!mouse_moved_move((130, 90), &mut st));
    assert_eq!(st.viewport.offset, (0, 0));
    st.mousedown = true;
    assert!(mouse_moved_move((160, 80), &mut st));
    assert_eq!(st.viewport.offset, (30, -10));
}

#[test]
fn zoom_release_steps_and_recenters() {
    let mut st = state_unit();
    st.absolute_mousepos = (200, 300);
    assert!(mouse_released_zoom((200, 300), &mut st, MouseButton::Left));
    assert_eq!(st.viewport.factor, 105);
    assert_eq!(st.viewport.offset, (-100, -150));
    assert!(mouse_released_zoom((200, 300), &mut st, MouseButton::Right));
    assert_eq!(st.viewport.factor, 100);
}

#[test]
fn measure_tool_reports_exact_measurement() {
    let mut m = Measure::new();
    let mut st = state_unit();
    let mut ed = editor_with(square_outline());
    assert!(m.current_measurement(&st).is_none());
    let press = EditorEvent::MouseEvent {
        event_type: MouseEventType::Pressed,
        meta: MouseInfo { position: (0, 0), button: MouseButton::Left },
    };
    m.handle_event(&mut ed, &mut st, press);
    st.absolute_mousepos = (30, 40);
    let info = m.current_measurement(&st).expect("anchored");
    assert_eq!(info.delta, (30, 40));
    assert_eq!((info.midpoint.xn, info.midpoint.yn, info.midpoint.den), (30, 40, 2));
    assert_eq!(info.distance_squared.num, 2500 * 10_000);
    assert_eq!(info.distance_squared.den, 10_000);
    let release = EditorEvent::MouseEvent {
        event_type: MouseEventType::Released,
        meta: MouseInfo { position: (30, 40), button: MouseButton::Left },
    };
    m.handle_event(&mut ed, &mut st, release);
    assert!(m.current_measurement(&st).is_none());
}

#[test]
fn move_point_carries_free_handles() {
    let mut outline = square_outline();
    outline[0].points[0].a = Handle::At(2, 3);
    move_point(&mut outline, 0, 0, 5, 5);
    let p = outline[0].points[0];
    assert_eq!((p.x, p.y), (5, 5));
    assert_eq!(p.a, Handle::At(7, 8));
    assert_eq!(p.b, Handle::Colocated);
    assert_eq!(outline[0].points[1], plain_point(10, 0));
}

#[test]
fn contour_start_end_queries() {
    let v = editor_with(square_outline());
    assert_eq!(get_contour_start_or_end(&v, 0, 0), Some(SelectPointInfo::Start));
    assert_eq!(get_contour_start_or_end(&v, 0, 3), Some(SelectPointInfo::End));
    assert_eq!(get_contour_start_or_end(&v, 0, 1), None);
}

#[test]
fn selection_queries_prefer_primary() {
    let mut ed = editor_with(square_outline());
    assert_eq!(ed.selected(), None);
    ed.selected.push((0, 2));
    assert_eq!(ed.selected(), Some((0, 2)));
    ed.contour_idx = Some(0);
    ed.point_idx = Some(1);
    assert_eq!(ed.selected(), Some((0, 1)));
    assert!(is_point_selected(&ed, 0, 1));
    assert!(is_point_selected(&ed, 0, 2));
    assert!(!is_point_selected(&ed, 0, 0));
}
