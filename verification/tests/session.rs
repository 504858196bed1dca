//! Scenario tests driving a session the way the host would: selection,
//! reselection, resize and the two engine passes.

use render_session::math::Rect;
use render_session::render::RenderError;
use render_session::state::State;
use render_session::viewbox::Viewbox;

const ID_A: u128 = 0x0123_4567_89ab_cdef_0123_4567_89ab_cdef;
const ID_B: u128 = 0xfeed_f00d_dead_beef_feed_f00d_dead_beef;

#[test]
fn fresh_session_has_no_current_shape() {
    let mut s = State::new(800, 600, 16);
    assert_eq!(s.current_id, None);
    assert!(s.current_shape().is_none());
}

#[test]
fn use_shape_selects_and_stores_the_shape() {
    let mut s = State::new(800, 600, 16);
    s.use_shape(ID_A);
    assert_eq!(s.current_id, Some(ID_A));
    let cur = s.current_shape().expect("a shape is selected");
    assert_eq!(cur.id, ID_A);
}

#[test]
fn use_shape_on_present_id_keeps_the_shape_contents() {
    let mut s = State::new(800, 600, 16);
    s.use_shape(ID_A);
    {
        let cur = s.current_shape().expect("a shape is selected");
        cur.selrect = Rect { left: 1, top: 2, right: 3, bottom: 4 };
    }
    s.use_shape(ID_A);
    let cur = s.current_shape().expect("a shape is selected");
    assert_eq!(cur.selrect, Rect { left: 1, top: 2, right: 3, bottom: 4 });
}

#[test]
fn reselection_finds_the_original_shape() {
    let mut s = State::new(800, 600, 16);
    s.use_shape(ID_A);
    assert!(s.current_shape().is_some());
    assert_eq!(s.current_id, Some(ID_A));
    {
        let cur = s.current_shape().expect("a shape is selected");
        cur.selrect = Rect { left: 10, top: 20, right: 30, bottom: 40 };
    }
    s.use_shape(ID_B);
    assert_eq!(s.current_id, Some(ID_B));
    {
        let cur = s.current_shape().expect("a shape is selected");
        assert_eq!(cur.id, ID_B);
        assert_eq!(cur.selrect, Rect { left: 0, top: 0, right: 0, bottom: 0 });
    }
    s.use_shape(ID_A);
    let cur = s.current_shape().expect("a shape is selected");
    assert_eq!(cur.id, ID_A);
    assert_eq!(cur.selrect, Rect { left: 10, top: 20, right: 30, bottom: 40 });
}

#[test]
fn resize_updates_viewport_and_engine_together() {
    let mut s = State::new(100, 100, 0);
    s.resize(200, 150);
    assert_eq!(s.viewbox.width, 200);
    assert_eq!(s.viewbox.height, 150);
    assert_eq!(s.render_state.width, 200);
    assert_eq!(s.render_state.height, 150);
    assert_eq!(s.viewbox.pan_x, 0);
    assert_eq!(s.viewbox.pan_y, 0);
    assert_eq!(s.viewbox.zoom, 1);
}

#[test]
fn resize_is_idempotent() {
    let mut once = State::new(100, 100, 0);
    once.resize(200, 150);
    let mut twice = State::new(100, 100, 0);
    twice.resize(200, 150);
    twice.resize(200, 150);
    assert_eq!(once.viewbox, twice.viewbox);
    assert_eq!(once.render_state.width, twice.render_state.width);
    assert_eq!(once.render_state.height, twice.render_state.height);
    assert_eq!(once.current_id, twice.current_id);
}

#[test]
fn navigate_hands_the_engine_the_current_viewport() {
    let mut s = State::new(640, 480, 4);
    s.use_shape(ID_A);
    assert_eq!(s.render_state.last_layout_viewbox, None);
    let r = s.navigate();
    assert_eq!(r, Ok(()));
    let expected = Viewbox {
        pan_x: 0,
        pan_y: 0,
        zoom: 1,
        width: 640,
        height: 480,
        area: Rect { left: 0, top: 0, right: 0, bottom: 0 },
    };
    assert_eq!(s.render_state.last_layout_viewbox, Some(expected));
}

#[test]
fn navigate_surfaces_the_engine_error() {
    let mut s = State::new(0, 0, 0);
    let r = s.navigate();
    assert_eq!(r, Err(RenderError::InvalidViewport));
    assert_eq!(s.render_state.last_layout_viewbox, None);
    assert_eq!(s.current_id, None);
}

#[test]
fn render_all_records_inputs_and_cache_request() {
    let mut s = State::new(320, 240, 2);
    s.use_shape(ID_B);
    s.render_all(true);
    assert!(s.render_state.cached_surface_image);
    let vb = s.viewbox;
    assert_eq!(s.render_state.last_render_viewbox, Some(vb));
    s.render_all(false);
    assert!(!s.render_state.cached_surface_image);
}

#[test]
fn render_state_handle_reaches_the_engine() {
    let mut s = State::new(50, 60, 0);
    let rs = s.render_state();
    assert_eq!(rs.width, 50);
    assert_eq!(rs.height, 60);
    assert!(!rs.cached_surface_image);
}
