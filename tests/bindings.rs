use leptos_leaflet::map::{element_id, LeafletMap, LocateRequest, MapPhase, MapSession};
use leptos_leaflet::marker::{resolve_icon, DragCall, IconChoice, MarkerPhase, MarkerSync};
use leptos_leaflet::transform::{rotation_property, rotation_transform};

fn whole_degrees(r: f64) -> Option<i64> {
    Some(r.trunc() as i64)
}

#[test]
fn element_id_for_element_without_id() {
    assert_eq!(element_id("", 42), Some("map-42".to_string()));
    assert_eq!(element_id("", 0), Some("map-0".to_string()));
    assert_eq!(element_id("", 1234567890), Some("map-1234567890".to_string()));
    assert_eq!(
        element_id("", u64::MAX),
        Some("map-18446744073709551615".to_string())
    );
}

#[test]
fn element_id_keeps_existing_id() {
    assert_eq!(element_id("my-map", 42), None);
}

#[test]
fn element_loaded_draws_an_id_once() {
    let mut s = MapSession::new(false, false, false, false);
    let id = s.element_loaded("").expect("an id for an element without one");
    assert!(id.starts_with("map-"));
    assert!(id.len() > 4);
    assert!(id[4..].chars().all(|c| c.is_ascii_digit()));
    assert_eq!(s.phase, MapPhase::DomMounted);
    assert_eq!(s.element_loaded(""), None);
    assert_eq!(s.phase, MapPhase::DomMounted);
}

#[test]
fn element_loaded_keeps_given_id() {
    let mut s = MapSession::new(false, false, false, false);
    assert_eq!(s.element_loaded("given"), None);
    assert_eq!(s.phase, MapPhase::DomMounted);
}

#[test]
fn map_created_then_recentred_at_mount() {
    // center 51.5,-0.12 zoom 12; then the centre moves to 48.85,2.35
    let mut s = MapSession::new(false, false, false, false);
    assert!(!s.center_changed());
    s.element_loaded("map");
    assert!(!s.center_changed());
    let setup = s.element_mounted().expect("the map is made at mount");
    assert!(setup.locate.is_none());
    assert_eq!(s.phase, MapPhase::Active);
    assert!(s.center_changed());
    assert!(s.element_mounted().is_none());
}

#[test]
fn map_locate_options_passed_on() {
    let mut s = MapSession::new(true, true, false, true);
    s.element_loaded("map");
    let setup = s.element_mounted().unwrap();
    assert_eq!(
        setup.locate,
        Some(LocateRequest { enable_high_accuracy: true, set_view: false, watch: true })
    );
}

#[test]
fn map_mount_before_load_does_nothing() {
    let mut s = MapSession::new(false, false, false, false);
    assert!(s.element_mounted().is_none());
    assert_eq!(s.phase, MapPhase::Unmounted);
}

#[test]
fn map_teardown_removes_once() {
    let mut s = MapSession::new(false, false, false, false);
    s.element_loaded("map");
    s.element_mounted();
    assert!(s.teardown());
    assert_eq!(s.phase, MapPhase::Disposed);
    assert!(!s.teardown());
    assert!(!s.center_changed());
}

#[test]
fn map_teardown_before_mount_removes_nothing() {
    let mut s = MapSession::new(false, false, false, false);
    assert!(!s.teardown());
    assert_eq!(s.phase, MapPhase::Disposed);
    assert_eq!(s.element_loaded(""), None);
}

#[test]
fn create_then_teardown_leaves_no_timer() {
    let mut m = MapSession::new(false, false, false, false);
    m.element_loaded("");
    m.element_mounted();
    let mut k = MarkerSync::new(None);
    assert!(k.map_ready());
    assert!(k.poll_tick());
    assert!(k.teardown());
    assert!(m.teardown());
    assert_eq!(k.phase, MarkerPhase::Disposed);
    assert!(!k.poll_tick());
    assert!(!k.teardown());
    assert!(!k.map_ready());
}

#[test]
fn leaflet_map_starts_empty() {
    assert!(LeafletMap::new().map.is_none());
    assert!(LeafletMap::default().map.is_none());
}

#[test]
fn icon_url_takes_precedence() {
    let r = resolve_icon(Some("pin.png".to_string()), Some("pin-class".to_string()));
    assert!(matches!(r, IconChoice::Image(ref u) if u == "pin.png"));
}

#[test]
fn icon_class_without_url() {
    let r = resolve_icon(None, Some("pin-class".to_string()));
    assert!(matches!(r, IconChoice::ClassName(ref c) if c == "pin-class"));
}

#[test]
fn icon_default_without_either() {
    assert!(matches!(resolve_icon(None, None), IconChoice::LibraryDefault));
}

#[test]
fn marker_made_once_map_is_ready() {
    let mut k = MarkerSync::new(None);
    assert!(!k.position_changed(true));
    assert!(!k.poll_tick());
    assert!(k.map_ready());
    assert!(!k.map_ready());
    assert_eq!(k.phase, MarkerPhase::Live);
}

#[test]
fn position_change_updates_once() {
    let mut k = MarkerSync::new(None);
    k.map_ready();
    let old = (51.5f64, -0.12f64);
    let new = (48.85f64, 2.35f64);
    assert!(k.position_changed(old != new));
    assert!(!k.position_changed(new != new));
}

#[test]
fn opacity_applied_only_when_set() {
    let mut k = MarkerSync::new(None);
    assert!(!k.opacity_changed(true));
    k.map_ready();
    assert!(k.opacity_changed(true));
    assert!(!k.opacity_changed(false));
}

#[test]
fn draggable_toggle_enables_then_disables() {
    let mut k = MarkerSync::new(None);
    k.map_ready();
    let calls: Vec<DragCall> = [true, false]
        .iter()
        .filter_map(|&d| k.draggable_changed(d))
        .collect();
    assert_eq!(calls, vec![DragCall::Enable, DragCall::Disable]);
}

#[test]
fn draggable_before_marker_makes_no_call() {
    let k = MarkerSync::new(None);
    assert_eq!(k.draggable_changed(true), None);
}

#[test]
fn rotation_same_whole_degrees_not_reapplied() {
    let mut k = MarkerSync::new(None);
    k.map_ready();
    assert!(k.rotation_changed(whole_degrees(45.2)));
    assert!(!k.rotation_changed(whole_degrees(45.7)));
    assert!(k.rotation_changed(whole_degrees(46.0)));
}

#[test]
fn rotation_unset_not_applied() {
    let mut k = MarkerSync::new(Some(10));
    k.map_ready();
    assert!(!k.rotation_changed(None));
    assert!(k.rotation_changed(Some(10)));
    assert!(!k.rotation_changed(Some(10)));
}

#[test]
fn rotation_seen_before_marker_counts() {
    let mut k = MarkerSync::new(None);
    assert!(!k.rotation_changed(Some(30)));
    k.map_ready();
    assert!(!k.rotation_changed(Some(30)));
    assert!(k.rotation_changed(Some(31)));
}

#[test]
fn rotation_after_teardown_ignored() {
    let mut k = MarkerSync::new(None);
    k.map_ready();
    k.teardown();
    assert!(!k.rotation_changed(Some(5)));
    assert_eq!(k.last_rotation, None);
}

#[test]
fn rotation_property_value() {
    assert_eq!(rotation_property("45.2"), "45.2deg");
}

#[test]
fn transform_rotation_replaced() {
    assert_eq!(
        rotation_transform("translate3d(10px, 20px, 0px) rotate(10deg)", "45.2"),
        "translate3d(10px, 20px, 0px) rotate(45.2deg)"
    );
}

#[test]
fn transform_rotation_appended() {
    assert_eq!(
        rotation_transform("translate3d(1px, 2px, 0px)", "45"),
        "translate3d(1px, 2px, 0px) rotate(45deg)"
    );
    assert_eq!(rotation_transform("", "45"), " rotate(45deg)");
}

#[test]
fn transform_spaces_collapsed_when_replacing() {
    assert_eq!(
        rotation_transform("  a\t rotate(1deg)\n\u{3000}b  rotate(2deg) ", "9"),
        "a rotate(9deg) b rotate(9deg)"
    );
}

#[test]
fn transform_rotate_inside_word_kept() {
    assert_eq!(rotation_transform("xrotate(1deg) y", "9"), "xrotate(1deg) y");
}
