use transcendia::config::Region;
use transcendia::errors::TranscendiaError;
use transcendia::monitors::{
    crop_window, find_monitor, monitor_summaries, plan_capture, resolve, resolve_on,
    select_monitor, AbsoluteRect, CropWindow, MonitorChoice, MonitorRef, ScaleFactor,
};

fn monitor(id: u32, x: i32, y: i32, milli: u32) -> MonitorRef {
    MonitorRef {
        id,
        name: format!("display-{}", id),
        origin_x: x,
        origin_y: y,
        scale: ScaleFactor { milli },
        width: 1920,
        height: 1080,
    }
}

#[test]
fn resolve_scales_region_and_origin() {
    let region = Region { x: 10, y: 20, w: 100, h: 50 };
    let rect = resolve_on(&region, &monitor(1, 1920, 0, 2000));
    assert_eq!(rect, AbsoluteRect { x: 3840 + 20, y: 40, w: 200, h: 100 });
}

#[test]
fn resolve_with_unit_scale_is_identity_plus_origin() {
    let region = Region { x: 0, y: 0, w: 100, h: 50 };
    let rect = resolve_on(&region, &monitor(0, 0, 0, 1000));
    assert_eq!(rect, AbsoluteRect { x: 0, y: 0, w: 100, h: 50 });
}

#[test]
fn resolve_rounds_toward_zero() {
    let region = Region { x: 3, y: 1, w: 5, h: 7 };
    let rect = resolve_on(&region, &monitor(0, -3, -1, 1500));
    // -3 * 1.5 = -4.5 -> -4 ; 3 * 1.5 = 4.5 -> 4 ; 5 * 1.5 = 7.5 -> 7 ; 7 * 1.5 = 10.5 -> 10
    assert_eq!(rect, AbsoluteRect { x: -4 + 4, y: -1 + 1, w: 7, h: 10 });
}

#[test]
fn resolve_handles_extreme_values() {
    let region = Region { x: u32::MAX, y: 0, w: u32::MAX, h: 1 };
    let rect = resolve_on(&region, &monitor(0, i32::MIN, i32::MAX, u32::MAX));
    let big = (u32::MAX as u128 * u32::MAX as u128 / 1000) as u64;
    assert_eq!(rect.w, big);
    let ox = -((2147483648u128 * u32::MAX as u128 / 1000) as i64);
    assert_eq!(rect.x, ox + big as i64);
    assert_eq!(rect.y, (i32::MAX as u128 * u32::MAX as u128 / 1000) as i64);
    assert_eq!(rect.h, (u32::MAX as u64) / 1000);
}

#[test]
fn resolve_reports_missing_monitor() {
    let region = Region { x: 0, y: 0, w: 10, h: 10 };
    let monitors = vec![monitor(1, 0, 0, 1000), monitor(2, 1920, 0, 1000)];
    assert_eq!(resolve(&region, 7, &monitors), Err(TranscendiaError::MonitorNotFound));
    assert_eq!(resolve(&region, 7, &Vec::new()), Err(TranscendiaError::MonitorNotFound));
    assert_eq!(
        resolve(&region, 2, &monitors),
        Ok(AbsoluteRect { x: 1920, y: 0, w: 10, h: 10 })
    );
}

#[test]
fn find_monitor_returns_first_match() {
    let monitors = vec![monitor(5, 0, 0, 1000), monitor(3, 0, 0, 1000), monitor(3, 9, 9, 1000)];
    assert_eq!(find_monitor(&monitors, 3), Some(1));
    assert_eq!(find_monitor(&monitors, 5), Some(0));
    assert_eq!(find_monitor(&monitors, 4), None);
}

#[test]
fn select_monitor_falls_back_to_first() {
    let monitors = vec![monitor(5, 0, 0, 1000), monitor(3, 0, 0, 1000)];
    assert_eq!(select_monitor(&monitors, 3), Ok(MonitorChoice { index: 1, substituted: false }));
    assert_eq!(select_monitor(&monitors, 8), Ok(MonitorChoice { index: 0, substituted: true }));
    assert_eq!(select_monitor(&Vec::new(), 8), Err(TranscendiaError::MonitorNotFound));
}

#[test]
fn crop_window_scales_and_clamps() {
    let region = Region { x: 10, y: 20, w: 100, h: 50 };
    assert_eq!(
        crop_window(&region, ScaleFactor { milli: 1250 }),
        CropWindow { x: 12, y: 25, w: 125, h: 62 }
    );
    let huge = Region { x: u32::MAX, y: 1, w: 4_000_000_000, h: 0 };
    assert_eq!(
        crop_window(&huge, ScaleFactor { milli: 2000 }),
        CropWindow { x: u32::MAX, y: 2, w: u32::MAX, h: 0 }
    );
}

#[test]
fn plan_capture_uses_current_monitor_list() {
    let region = Region { x: 1, y: 2, w: 3, h: 4 };
    let before = vec![monitor(1, 0, 0, 1000), monitor(2, 100, 0, 2000)];
    let plan = plan_capture(&before, 2, &region).unwrap();
    assert_eq!(plan.choice, MonitorChoice { index: 1, substituted: false });
    assert_eq!(plan.window, CropWindow { x: 2, y: 4, w: 6, h: 8 });
    assert_eq!(plan.rect, AbsoluteRect { x: 202, y: 4, w: 6, h: 8 });
    // the display was unplugged between two ticks
    let after = vec![monitor(1, 0, 0, 1000)];
    let plan = plan_capture(&after, 2, &region).unwrap();
    assert_eq!(plan.choice, MonitorChoice { index: 0, substituted: true });
    assert_eq!(plan.window, CropWindow { x: 1, y: 2, w: 3, h: 4 });
    assert_eq!(plan_capture(&Vec::new(), 2, &region), Err(TranscendiaError::MonitorNotFound));
}

#[test]
fn monitor_summaries_keep_order() {
    let monitors = vec![monitor(5, 0, 0, 1000), monitor(3, 0, 0, 1000)];
    let list = monitor_summaries(&monitors);
    assert_eq!(list.len(), 2);
    assert_eq!(list[0].id, 5);
    assert_eq!(list[0].name, "display-5");
    assert_eq!(list[1].id, 3);
    assert_eq!(list[1].name, "display-3");
}
