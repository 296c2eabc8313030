use gantt_plan::view::{full_bounds, BoundsRequest, ViewState};

#[test]
fn new_view_requests_whole_linear_range() {
    let v = ViewState::new();
    assert!(!v.log_scale && !v.old_log_scale);
    assert_eq!(v.zoom_band, None);
    assert_eq!(v.force_bounds_x, Some(BoundsRequest { start: 20, end: 6000, log_scale: false }));
    assert_eq!(full_bounds(true), BoundsRequest { start: 20, end: 6000, log_scale: true });
}

#[test]
fn scale_switch_drops_zoom() {
    let mut v = ViewState::new();
    v.take_forced_bounds();
    v.select_band(2);
    assert_eq!(v.zoom_band, Some(2));
    v.take_forced_bounds();
    v.log_scale = true;
    v.sync_log_scale();
    assert!(v.old_log_scale);
    assert_eq!(v.zoom_band, None);
    assert_eq!(v.force_bounds_x, Some(BoundsRequest { start: 20, end: 6000, log_scale: true }));
}

#[test]
fn sync_without_switch_changes_nothing() {
    let mut v = ViewState::new();
    v.select_band(4);
    v.sync_log_scale();
    assert_eq!(v.zoom_band, Some(4));
    assert_eq!(v.force_bounds_x, Some(BoundsRequest { start: 2400, end: 6000, log_scale: false }));
    v.sync_log_scale();
    assert_eq!(v.zoom_band, Some(4));
}

#[test]
fn band_request_uses_current_scale() {
    let mut v = ViewState::new();
    v.log_scale = true;
    v.sync_log_scale();
    v.select_band(0);
    assert_eq!(v.force_bounds_x, Some(BoundsRequest { start: 20, end: 500, log_scale: true }));
    v.select_band(2);
    assert_eq!(v.force_bounds_x, Some(BoundsRequest { start: 960, end: 1215, log_scale: true }));
}

#[test]
fn select_all_and_take_once() {
    let mut v = ViewState::new();
    v.select_band(1);
    v.select_all();
    assert_eq!(v.zoom_band, None);
    assert_eq!(v.take_forced_bounds(), Some(BoundsRequest { start: 20, end: 6000, log_scale: false }));
    assert_eq!(v.take_forced_bounds(), None);
    assert_eq!(v.force_bounds_x, None);
}
