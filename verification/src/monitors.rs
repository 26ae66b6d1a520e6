//! Displays, and the geometry that maps a selected region onto one of them.

use vstd::prelude::*;
use crate::config::Region;
use crate::errors::TranscendiaError;

verus! {

/// How many device pixels one logical pixel covers, in thousandths:
/// `1000` is a factor of one, `1500` a factor of one and a half.
#[derive(Clone, Copy, Debug, PartialEq, Eq, Structural)]
pub struct ScaleFactor {
    pub milli: u32,
}

/// What the user interface is told about a display.
#[derive(Clone, Debug)]
pub struct BaseTranscendiaMonitor {
    pub name: String,
    pub id: u32,
}

/// A display as the capture provider reports it.
#[derive(Clone, Debug)]
pub struct MonitorRef {
    pub id: u32,
    pub name: String,
    /// Origin of the display, in logical pixels.
    pub origin_x: i32,
    pub origin_y: i32,
    pub scale: ScaleFactor,
    /// Size of the display, in logical pixels.
    pub width: u32,
    pub height: u32,
}

/// A rectangle in device pixels, measured from the origin of the desktop.
#[derive(Clone, Copy, Debug, PartialEq, Eq, Structural)]
pub struct AbsoluteRect {
    pub x: i64,
    pub y: i64,
    pub w: u64,
    pub h: u64,
}

/// A rectangle in device pixels inside the bitmap of one display.
#[derive(Clone, Copy, Debug, PartialEq, Eq, Structural)]
pub struct CropWindow {
    pub x: u32,
    pub y: u32,
    pub w: u32,
    pub h: u32,
}

/// The display chosen for a request, and whether it is a stand-in.
#[derive(Clone, Copy, Debug, PartialEq, Eq, Structural)]
pub struct MonitorChoice {
    /// Position of the chosen display in the list.
    pub index: usize,
    /// True when the requested display was absent and the first one of the
    /// list was taken in its place. The caller reports such a substitution.
    pub substituted: bool,
}

/// A logical length times a scale factor, rounded toward zero.
pub open spec fn scaled(v: int, milli: int) -> int {
    if v >= 0 {
        (v * milli) / 1000
    } else {
        -(((-v) * milli) / 1000)
    }
}

/// `scaled`, held to the range of `u32`.
pub open spec fn scaled_clamped(v: int, milli: int) -> int {
    if scaled(v, milli) > u32::MAX {
        u32::MAX as int
    } else {
        scaled(v, milli)
    }
}

/// Position of the first display with the given id, if there is one.
pub open spec fn first_with_id(monitors: Seq<MonitorRef>, id: u32) -> Option<int>
    decreases monitors.len(),
{
    if monitors.len() == 0 {
        None
    } else if monitors[0].id == id {
        Some(0)
    } else {
        match first_with_id(monitors.drop_first(), id) {
            Some(i) => Some(i + 1),
            None => None,
        }
    }
}

/// The rectangle that a region covers on a display.
pub open spec fn rect_on(region: Region, monitor: MonitorRef) -> AbsoluteRect {
    AbsoluteRect {
        x: (scaled(monitor.origin_x as int, monitor.scale.milli as int) + scaled(
            region.x as int,
            monitor.scale.milli as int,
        )) as i64,
        y: (scaled(monitor.origin_y as int, monitor.scale.milli as int) + scaled(
            region.y as int,
            monitor.scale.milli as int,
        )) as i64,
        w: scaled(region.w as int, monitor.scale.milli as int) as u64,
        h: scaled(region.h as int, monitor.scale.milli as int) as u64,
    }
}

/// The display that is worked on when the one with the given id is asked
/// for: that display, or else the first of the list as a substitute;
/// `None` for an empty list.
pub open spec fn choice_of(monitors: Seq<MonitorRef>, id: u32) -> Option<MonitorChoice> {
    match first_with_id(monitors, id) {
        Some(i) => Some(MonitorChoice { index: i as usize, substituted: false }),
        None => if monitors.len() > 0 {
            Some(MonitorChoice { index: 0, substituted: true })
        } else {
            None
        },
    }
}

/// What `first_with_id` finds is the first position that holds the id.
pub proof fn first_with_id_is_first(monitors: Seq<MonitorRef>, id: u32)
    ensures
        match first_with_id(monitors, id) {
            Some(i) => 0 <= i < monitors.len() && monitors[i].id == id && forall|j: int|
                0 <= j < i ==> monitors[j].id != id,
            None => forall|j: int| 0 <= j < monitors.len() ==> monitors[j].id != id,
        },
    decreases monitors.len(),
{
    if monitors.len() != 0 && monitors[0].id != id {
        let rest = monitors.drop_first();
        first_with_id_is_first(rest, id);
        assert(forall|j: int| 0 <= j < rest.len() ==> rest[j] == monitors[j + 1]);
        match first_with_id(rest, id) {
            Some(i) => {
                assert forall|j: int| 0 <= j < i + 1 implies monitors[j].id != id by {
                    if j > 0 {
                        assert(rest[j - 1] == monitors[j]);
                    }
                }
            },
            None => {
                assert forall|j: int| 0 <= j < monitors.len() implies monitors[j].id != id by {
                    if j > 0 {
                        assert(rest[j - 1] == monitors[j]);
                    }
                }
            },
        }
    }
}

proof fn scaled_bounds(v: int, milli: int)
    requires
        0 <= milli <= u32::MAX,
        -0x8000_0000 <= v <= u32::MAX,
    ensures
        v >= 0 ==> 0 <= v * milli <= 0xFFFF_FFFE_0000_0001,
        v >= 0 ==> 0 <= scaled(v, milli) <= 18446744065119617,
        v < 0 ==> 0 <= (-v) * milli <= 0x7FFF_FFFF_8000_0000,
        v < 0 ==> -9223372034707293 <= scaled(v, milli) <= 0,
{
    if v >= 0 {
        assert(0 <= v * milli <= 0xFFFF_FFFF * 0xFFFF_FFFF) by (nonlinear_arith)
            requires
                0 <= v <= 0xFFFF_FFFF,
                0 <= milli <= 0xFFFF_FFFF,
        ;
    } else {
        assert(0 <= (-v) * milli <= 0x8000_0000 * 0xFFFF_FFFF) by (nonlinear_arith)
            requires
                0 <= -v <= 0x8000_0000,
                0 <= milli <= 0xFFFF_FFFF,
        ;
    }
}

fn scale_length(v: u32, scale: ScaleFactor) -> (r: u64)
    ensures
        r == scaled(v as int, scale.milli as int),
        r <= 18446744065119617,
{
    proof {
        scaled_bounds(v as int, scale.milli as int);
    }
    (v as u64) * (scale.milli as u64) / 1000
}

fn scale_offset(v: i32, scale: ScaleFactor) -> (r: i64)
    ensures
        r == scaled(v as int, scale.milli as int),
        -9223372034707293 <= r <= 18446744065119617,
{
    proof {
        scaled_bounds(v as int, scale.milli as int);
    }
    if v >= 0 {
        ((v as u64) * (scale.milli as u64) / 1000) as i64
    } else {
        let m: u64 = (-(v as i64)) as u64;
        -((m * (scale.milli as u64) / 1000) as i64)
    }
}

/// The rectangle, in device pixels, that `region` covers on `monitor`:
/// the scaled origin of the display plus the scaled offset of the region,
/// and the scaled size of the region.
pub fn resolve_on(region: &Region, monitor: &MonitorRef) -> (rect: AbsoluteRect)
    ensures
        rect == rect_on(*region, *monitor),
        rect.x == scaled(monitor.origin_x as int, monitor.scale.milli as int) + scaled(
            region.x as int,
            monitor.scale.milli as int,
        ),
        rect.y == scaled(monitor.origin_y as int, monitor.scale.milli as int) + scaled(
            region.y as int,
            monitor.scale.milli as int,
        ),
        rect.w == scaled(region.w as int, monitor.scale.milli as int),
        rect.h == scaled(region.h as int, monitor.scale.milli as int),
{
    let ox: i64 = scale_offset(monitor.origin_x, monitor.scale);
    let oy: i64 = scale_offset(monitor.origin_y, monitor.scale);
    let dx: u64 = scale_length(region.x, monitor.scale);
    let dy: u64 = scale_length(region.y, monitor.scale);
    AbsoluteRect {
        x: ox + (dx as i64),
        y: oy + (dy as i64),
        w: scale_length(region.w, monitor.scale),
        h: scale_length(region.h, monitor.scale),
    }
}

/// Position of the first display of the list that has the given id.
pub fn find_monitor(monitors: &Vec<MonitorRef>, id: u32) -> (found: Option<usize>)
    ensures
        match found {
            Some(i) => first_with_id(monitors@, id) == Some(i as int),
            None => first_with_id(monitors@, id) is None,
        },
{
    let mut i: usize = 0;
    while i < monitors.len()
        invariant
            i <= monitors.len(),
            forall|j: int| 0 <= j < i ==> monitors@[j].id != id,
        decreases monitors.len() - i,
    {
        if monitors[i].id == id {
            proof {
                first_with_id_is_first(monitors@, id);
            }
            return Some(i);
        }
        i += 1;
    }
    proof {
        first_with_id_is_first(monitors@, id);
    }
    None
}

/// Maps a region onto the display with the given id.
///
/// Fails with `MonitorNotFound` exactly when no display of the list has that
/// id; `select_monitor` is the fallback for that case.
pub fn resolve(region: &Region, monitor_id: u32, monitors: &Vec<MonitorRef>) -> (r: Result<
    AbsoluteRect,
    TranscendiaError,
>)
    ensures
        match first_with_id(monitors@, monitor_id) {
            Some(i) => r == Ok::<AbsoluteRect, TranscendiaError>(rect_on(*region, monitors@[i])),
            None => r == Err::<AbsoluteRect, TranscendiaError>(TranscendiaError::MonitorNotFound),
        },
{
    match find_monitor(monitors, monitor_id) {
        Some(i) => {
            proof {
                first_with_id_is_first(monitors@, monitor_id);
            }
            Ok(resolve_on(region, &monitors[i]))
        },
        None => Err(TranscendiaError::MonitorNotFound),
    }
}

/// Chooses the display to work on: the one with the given id, or else the
/// first of the list, marked as a substitute. Fails with `MonitorNotFound`
/// exactly when the list is empty.
pub fn select_monitor(monitors: &Vec<MonitorRef>, monitor_id: u32) -> (r: Result<
    MonitorChoice,
    TranscendiaError,
>)
    ensures
        match choice_of(monitors@, monitor_id) {
            Some(choice) => r == Ok::<MonitorChoice, TranscendiaError>(choice),
            None => r == Err::<MonitorChoice, TranscendiaError>(TranscendiaError::MonitorNotFound),
        },
        r matches Ok(c) ==> c.index < monitors@.len(),
{
    proof {
        first_with_id_is_first(monitors@, monitor_id);
    }
    match find_monitor(monitors, monitor_id) {
        Some(i) => Ok(MonitorChoice { index: i, substituted: false }),
        None => {
            if monitors.len() > 0 {
                Ok(MonitorChoice { index: 0, substituted: true })
            } else {
                Err(TranscendiaError::MonitorNotFound)
            }
        },
    }
}

fn clamp_to_u32(v: u64) -> (r: u32)
    ensures
        r == if v > u32::MAX { u32::MAX as int } else { v as int },
{
    if v > 0xFFFF_FFFF {
        0xFFFF_FFFF
    } else {
        v as u32
    }
}

/// The part of a display's bitmap that a region covers: offset and size of
/// the region times the scale factor, each held to the range of `u32`.
pub fn crop_window(region: &Region, scale: ScaleFactor) -> (win: CropWindow)
    ensures
        win == window_on(*region, scale),
        win.x == scaled_clamped(region.x as int, scale.milli as int),
        win.y == scaled_clamped(region.y as int, scale.milli as int),
        win.w == scaled_clamped(region.w as int, scale.milli as int),
        win.h == scaled_clamped(region.h as int, scale.milli as int),
{
    CropWindow {
        x: clamp_to_u32(scale_length(region.x, scale)),
        y: clamp_to_u32(scale_length(region.y, scale)),
        w: clamp_to_u32(scale_length(region.w, scale)),
        h: clamp_to_u32(scale_length(region.h, scale)),
    }
}

/// What one tick captures: the display, the part of its bitmap that is
/// cut out, and where that part lies on the desktop.
#[derive(Clone, Copy, Debug, PartialEq, Eq, Structural)]
pub struct CapturePlan {
    pub choice: MonitorChoice,
    pub window: CropWindow,
    pub rect: AbsoluteRect,
}

/// The part of a display's bitmap that a region covers.
pub open spec fn window_on(region: Region, scale: ScaleFactor) -> CropWindow {
    CropWindow {
        x: scaled_clamped(region.x as int, scale.milli as int) as u32,
        y: scaled_clamped(region.y as int, scale.milli as int) as u32,
        w: scaled_clamped(region.w as int, scale.milli as int) as u32,
        h: scaled_clamped(region.h as int, scale.milli as int) as u32,
    }
}

/// Plans the capture of one tick from the list of displays as it is now.
/// The display is looked up anew on every call: the one with the given id,
/// or else the first of the list as a substitute. Fails with
/// `MonitorNotFound` exactly when the list is empty.
pub fn plan_capture(monitors: &Vec<MonitorRef>, monitor_id: u32, region: &Region) -> (r: Result<
    CapturePlan,
    TranscendiaError,
>)
    ensures
        match choice_of(monitors@, monitor_id) {
            Some(choice) => r == Ok::<CapturePlan, TranscendiaError>(
                (CapturePlan {
                    choice,
                    window: window_on(*region, monitors@[choice.index as int].scale),
                    rect: rect_on(*region, monitors@[choice.index as int]),
                }),
            ),
            None => r == Err::<CapturePlan, TranscendiaError>(TranscendiaError::MonitorNotFound),
        },
{
    match select_monitor(monitors, monitor_id) {
        Ok(choice) => {
            let monitor = &monitors[choice.index];
            Ok(
                CapturePlan {
                    choice,
                    window: crop_window(region, monitor.scale),
                    rect: resolve_on(region, monitor),
                },
            )
        },
        Err(e) => Err(e),
    }
}

/// What the user interface is shown of each display, in the order of the list.
pub fn monitor_summaries(monitors: &Vec<MonitorRef>) -> (list: Vec<BaseTranscendiaMonitor>)
    ensures
        list@.len() == monitors@.len(),
        forall|i: int|
            0 <= i < list@.len() ==> list@[i].id == monitors@[i].id && list@[i].name@
                == monitors@[i].name@,
{
    let mut list: Vec<BaseTranscendiaMonitor> = Vec::new();
    let mut i: usize = 0;
    while i < monitors.len()
        invariant
            i <= monitors.len(),
            list@.len() == i,
            forall|j: int|
                0 <= j < i ==> list@[j].id == monitors@[j].id && list@[j].name@
                    == monitors@[j].name@,
        decreases monitors.len() - i,
    {
        list.push(BaseTranscendiaMonitor { name: monitors[i].name.clone(), id: monitors[i].id });
        i += 1;
    }
    list
}

/// For a valid region and any scale factor, the resolved rectangle has the
/// scaled width and height of the region, and lies at the scaled offset of
/// the region from the scaled origin of the display.
pub proof fn resolved_rect_is_scaled_region(region: Region, monitor: MonitorRef)
    requires
        region.is_valid(),
    ensures
        rect_on(region, monitor).w == scaled(region.w as int, monitor.scale.milli as int),
        rect_on(region, monitor).h == scaled(region.h as int, monitor.scale.milli as int),
        rect_on(region, monitor).x - scaled(monitor.origin_x as int, monitor.scale.milli as int)
            == scaled(region.x as int, monitor.scale.milli as int),
        rect_on(region, monitor).y - scaled(monitor.origin_y as int, monitor.scale.milli as int)
            == scaled(region.y as int, monitor.scale.milli as int),
{
    let m = monitor.scale.milli as int;
    scaled_bounds(region.x as int, m);
    scaled_bounds(region.y as int, m);
    scaled_bounds(region.w as int, m);
    scaled_bounds(region.h as int, m);
    scaled_bounds(monitor.origin_x as int, m);
    scaled_bounds(monitor.origin_y as int, m);
}

/// With a whole scale factor `k`, scaling is multiplication by `k`.
pub proof fn scaled_by_whole_factor(v: int, k: int)
    requires
        v >= 0,
        k >= 0,
    ensures
        scaled(v, 1000 * k) == v * k,
{
    assert(v * (1000 * k) == (v * k) * 1000) by (nonlinear_arith);
    assert(((v * k) * 1000) / 1000 == v * k) by (nonlinear_arith);
}

/// The scaled length is the product rounded down: it is the one whole number
/// `r` with `1000 * r <= v * milli < 1000 * (r + 1)`.
pub proof fn scaled_rounds_down(v: int, milli: int)
    requires
        v >= 0,
        milli >= 0,
    ensures
        1000 * scaled(v, milli) <= v * milli < 1000 * (scaled(v, milli) + 1),
{
    let p = v * milli;
    assert(1000 * (p / 1000) <= p < 1000 * (p / 1000 + 1)) by (nonlinear_arith);
}

} // verus!
