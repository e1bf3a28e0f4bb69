use native_list_item::item::is_odd_index;
use native_list_item::paint::intersect_region;
use native_list_item::paint::transform_region;
use native_list_item::paint::ClipRegion;
use native_list_item::paint::PaintEngine;
use native_list_item::paint::Rect;
use native_list_item::paint::Transform;
use native_list_item::style::resolve_mode;
use native_list_item::style::RenderMode;
use native_list_item::style::StyleHints;

#[test]
fn mode_needs_both_the_flag_and_the_hint() {
    let popup = StyleHints { popup_as_menu: true, show_decoration_selected: false };
    let plain = StyleHints { popup_as_menu: false, show_decoration_selected: false };
    assert_eq!(resolve_mode(true, &popup), RenderMode::PopupMenu);
    assert_eq!(resolve_mode(true, &plain), RenderMode::Row);
    assert_eq!(resolve_mode(false, &popup), RenderMode::Row);
    assert_eq!(resolve_mode(false, &plain), RenderMode::Row);
}

#[test]
fn odd_index_rule_matches_parity() {
    assert!(is_odd_index(1));
    assert!(!is_odd_index(0));
    assert!(is_odd_index(-7));
    assert!(!is_odd_index(-8));
    assert!(is_odd_index(i32::MAX));
    assert!(!is_odd_index(i32::MIN));
}

#[test]
fn transform_scales_then_translates() {
    let t = Transform { scale: 2, dx: 6, dy: 8 };
    let r = ClipRegion::Area(Rect { x: 1, y: 1, width: 200, height: 100 });
    assert_eq!(
        transform_region(&r, &t),
        ClipRegion::Area(Rect { x: 8, y: 10, width: 400, height: 200 })
    );
    assert_eq!(transform_region(&ClipRegion::Null, &t), ClipRegion::Null);
}

#[test]
fn intersection_of_overlapping_areas() {
    let a = ClipRegion::Area(Rect { x: 0, y: 0, width: 10, height: 10 });
    let b = ClipRegion::Area(Rect { x: 5, y: 5, width: 10, height: 10 });
    assert_eq!(
        intersect_region(&a, &b),
        ClipRegion::Area(Rect { x: 5, y: 5, width: 5, height: 5 })
    );
}

#[test]
fn intersection_of_disjoint_areas_is_null() {
    let a = ClipRegion::Area(Rect { x: 0, y: 0, width: 10, height: 10 });
    let b = ClipRegion::Area(Rect { x: 20, y: 0, width: 10, height: 10 });
    assert_eq!(intersect_region(&a, &b), ClipRegion::Null);
    assert_eq!(intersect_region(&a, &ClipRegion::Null), ClipRegion::Null);
}

#[test]
fn clip_installation_scales_by_the_device_pixel_ratio() {
    // The modeled host defect, visible in isolation.
    let mut unit = PaintEngine::new(1);
    let r = ClipRegion::Area(Rect { x: 3, y: 4, width: 5, height: 6 });
    unit.set_system_clip(r);
    assert_eq!(unit.system_clip(), r);
    let mut doubled = PaintEngine::new(2);
    doubled.set_system_clip(r);
    assert_eq!(
        doubled.system_clip(),
        ClipRegion::Area(Rect { x: 6, y: 8, width: 10, height: 12 })
    );
}
