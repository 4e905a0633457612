//! Geometry of the compact widget and of its detail panel: where the panel
//! opens next to the widget, where the widget docks on a taskbar, and how
//! far a point lies from a rectangle.
use vstd::prelude::*;

verus! {

/// Width of the compact widget, in logical pixels (scale factor 1).
pub const COMPACT_WIDTH: u32 = 306;

/// Height of the compact widget, in logical pixels (scale factor 1).
pub const COMPACT_HEIGHT: u32 = 64;

/// Width of the detail panel, in logical pixels (scale factor 1).
pub const DETAIL_WIDTH: u32 = 306;

/// Height of the detail panel, in logical pixels (scale factor 1).
pub const DETAIL_HEIGHT: u32 = 496;

/// Where the compact widget lives: docked on the taskbar or free on the desktop.
#[derive(Clone, Copy, Debug, PartialEq, Eq, Structural)]
pub enum PlacementMode {
    Taskbar,
    Overlay,
}

/// The name under which a placement mode is stored and reported.
pub open spec fn placement_name(mode: PlacementMode) -> Seq<char> {
    match mode {
        PlacementMode::Taskbar => "taskbar"@,
        PlacementMode::Overlay => "overlay"@,
    }
}

impl Default for PlacementMode {
    fn default() -> (mode: Self)
        ensures
            mode == PlacementMode::Taskbar,
    {
        PlacementMode::Taskbar
    }
}

impl PlacementMode {
    pub fn as_str(self) -> (name: &'static str)
        ensures
            name@ == placement_name(self),
    {
        match self {
            PlacementMode::Taskbar => "taskbar",
            PlacementMode::Overlay => "overlay",
        }
    }

    /// Reads a placement mode from its name; any other name is refused.
    pub fn parse(name: &str) -> (mode: Option<PlacementMode>)
        ensures
            mode == (if name@ == "taskbar"@ {
                Some(PlacementMode::Taskbar)
            } else if name@ == "overlay"@ {
                Some(PlacementMode::Overlay)
            } else {
                None::<PlacementMode>
            }),
    {
        if crate::text::str_equals(name, "taskbar") {
            Some(PlacementMode::Taskbar)
        } else if crate::text::str_equals(name, "overlay") {
            Some(PlacementMode::Overlay)
        } else {
            None
        }
    }
}

/// Reading back the name of a placement mode gives that mode again.
pub proof fn lemma_placement_name_round_trip(mode: PlacementMode)
    ensures
        (if placement_name(mode) == "taskbar"@ {
            Some(PlacementMode::Taskbar)
        } else if placement_name(mode) == "overlay"@ {
            Some(PlacementMode::Overlay)
        } else {
            None::<PlacementMode>
        }) == Some(mode),
{
    reveal_strlit("taskbar");
    reveal_strlit("overlay");
    assert("taskbar"@[0] != "overlay"@[0]);
}

/// A screen rectangle in physical pixels; `right` and `bottom` are exclusive.
#[derive(Clone, Copy, Debug)]
pub struct Bounds {
    pub left: i32,
    pub top: i32,
    pub right: i32,
    pub bottom: i32,
}

/// A taskbar window: its handle and where it stands on screen.
#[derive(Clone, Copy, Debug)]
pub struct TaskbarWindow {
    pub hwnd: isize,
    pub bounds: Bounds,
}

pub open spec fn fits_i32(v: int) -> bool {
    i32::MIN <= v <= i32::MAX
}

/// `v` brought into `[lo, hi]`, as `Ord::clamp` does.
pub open spec fn clamp_int(v: int, lo: int, hi: int) -> int {
    if v < lo {
        lo
    } else if v > hi {
        hi
    } else {
        v
    }
}

pub open spec fn max_int(a: int, b: int) -> int {
    if a >= b {
        a
    } else {
        b
    }
}

pub open spec fn min_int(a: int, b: int) -> int {
    if a <= b {
        a
    } else {
        b
    }
}

fn clamp_i32(v: i32, lo: i32, hi: i32) -> (r: i32)
    requires
        lo <= hi,
    ensures
        r == clamp_int(v as int, lo as int, hi as int),
{
    if v < lo {
        lo
    } else if v > hi {
        hi
    } else {
        v
    }
}

fn max_i32(a: i32, b: i32) -> (r: i32)
    ensures
        r == max_int(a as int, b as int),
{
    if a >= b {
        a
    } else {
        b
    }
}

fn min_i32(a: i32, b: i32) -> (r: i32)
    ensures
        r == min_int(a as int, b as int),
{
    if a <= b {
        a
    } else {
        b
    }
}

// ---------------------------------------------------------------------------
// Distance from a point to a rectangle

/// Horizontal gap between `x` and the span `[lo, hi]` (zero inside it).
pub open spec fn gap(v: int, lo: int, hi: int) -> int {
    if v < lo {
        lo - v
    } else if v > hi {
        v - hi
    } else {
        0
    }
}

/// Squared Euclidean distance from the point `(x, y)` to `bounds`.
pub open spec fn spec_distance(x: int, y: int, bounds: Bounds) -> int {
    let dx = gap(x, bounds.left as int, bounds.right as int);
    let dy = gap(y, bounds.top as int, bounds.bottom as int);
    dx * dx + dy * dy
}

/// The gaps of a point to a rectangle fit in `i32`, as the computation needs.
pub open spec fn distance_defined(x: int, y: int, bounds: Bounds) -> bool {
    &&& fits_i32(gap(x, bounds.left as int, bounds.right as int))
    &&& fits_i32(gap(y, bounds.top as int, bounds.bottom as int))
}

pub fn distance_to_bounds(x: i32, y: i32, bounds: Bounds) -> (d: i64)
    requires
        distance_defined(x as int, y as int, bounds),
    ensures
        d == spec_distance(x as int, y as int, bounds),
        d >= 0,
{
    let dx: i32 = if x < bounds.left {
        bounds.left - x
    } else if x > bounds.right {
        x - bounds.right
    } else {
        0
    };
    let dy: i32 = if y < bounds.top {
        bounds.top - y
    } else if y > bounds.bottom {
        y - bounds.bottom
    } else {
        0
    };
    let dx64: i64 = dx as i64;
    let dy64: i64 = dy as i64;
    assert(0 <= dx64 * dx64 <= 0x3fff_ffff_0000_0001) by (nonlinear_arith)
        requires
            0 <= dx64 <= 0x7fff_ffff,
    ;
    assert(0 <= dy64 * dy64 <= 0x3fff_ffff_0000_0001) by (nonlinear_arith)
        requires
            0 <= dy64 <= 0x7fff_ffff,
    ;
    dx64 * dx64 + dy64 * dy64
}

/// A point at distance zero from a rectangle lies inside it (edges included).
pub proof fn lemma_distance_zero_iff_inside(x: int, y: int, bounds: Bounds)
    ensures
        spec_distance(x, y, bounds) == 0 <==> (bounds.left <= x <= bounds.right && bounds.top
            <= y <= bounds.bottom),
{
    let dx = gap(x, bounds.left as int, bounds.right as int);
    let dy = gap(y, bounds.top as int, bounds.bottom as int);
    assert(dx >= 0 && dy >= 0);
    if dx != 0 {
        assert(dx * dx > 0) by (nonlinear_arith)
            requires
                dx > 0,
        ;
        assert(dy * dy >= 0) by (nonlinear_arith);
    }
    if dy != 0 {
        assert(dy * dy > 0) by (nonlinear_arith)
            requires
                dy > 0,
        ;
        assert(dx * dx >= 0) by (nonlinear_arith);
    }
}


// ---------------------------------------------------------------------------
// Placement of the detail panel next to the compact widget

/// `w` reinterpreted as `i32`, as `w as i32` does (wrapping above `i32::MAX`).
pub open spec fn signed(w: u32) -> int {
    (w as i32) as int
}

/// Height of the detail panel: the desired height, but no more than the
/// work area is tall (counting a flat work area as one pixel).
pub open spec fn panel_height(work_area: Bounds, desired_height: u32) -> int {
    min_int(desired_height as int, max_int(work_area.bottom - work_area.top, 1))
}

/// The anchor's top edge, brought into the work area's vertical span.
pub open spec fn anchor_top(main: Bounds, work_area: Bounds) -> int {
    clamp_int(main.top as int, work_area.top as int, work_area.bottom as int)
}

/// The anchor's bottom edge, brought into the work area's vertical span.
pub open spec fn anchor_bottom(main: Bounds, work_area: Bounds) -> int {
    clamp_int(main.bottom as int, work_area.top as int, work_area.bottom as int)
}

/// Room between the work area's top and the anchor.
pub open spec fn room_above(main: Bounds, work_area: Bounds) -> int {
    max_int(anchor_top(main, work_area) - work_area.top, 0)
}

/// Room between the anchor and the work area's bottom.
pub open spec fn room_below(main: Bounds, work_area: Bounds) -> int {
    max_int(work_area.bottom - anchor_bottom(main, work_area), 0)
}

/// Left edge of a panel opened above or below: the anchor's left edge, kept
/// inside the work area as far as the panel's width allows.
pub open spec fn vertical_x(main: Bounds, work_area: Bounds, width: u32) -> int {
    clamp_int(
        main.left as int,
        work_area.left as int,
        max_int(work_area.right - signed(width), work_area.left as int),
    )
}

/// The panel fits below the anchor.
pub open spec fn opens_below(main: Bounds, work_area: Bounds, width: u32, desired_height: u32) -> bool {
    room_below(main, work_area) >= panel_height(work_area, desired_height)
}

/// The panel does not fit below the anchor but fits above it.
pub open spec fn opens_above(main: Bounds, work_area: Bounds, width: u32, desired_height: u32) -> bool {
    !opens_below(main, work_area, width, desired_height) && room_above(main, work_area)
        >= panel_height(work_area, desired_height)
}

/// Room right of the anchor, up to the work area's right edge.
pub open spec fn room_right(main: Bounds, work_area: Bounds) -> int {
    max_int(work_area.right - main.right, 0)
}

/// Room left of the anchor, down to the work area's left edge.
pub open spec fn room_left(main: Bounds, work_area: Bounds) -> int {
    max_int(main.left - work_area.left, 0)
}

/// A panel that fits neither above nor below opens on the right when it fits
/// there or when the right has at least as much room as the left.
pub open spec fn opens_right(main: Bounds, work_area: Bounds, width: u32) -> bool {
    room_right(main, work_area) >= signed(width) || room_right(main, work_area) >= room_left(
        main,
        work_area,
    )
}

/// Top edge of a panel opened beside the anchor: the anchor's top, kept
/// inside the work area as far as the panel's height allows.
pub open spec fn side_y(main: Bounds, work_area: Bounds, desired_height: u32) -> int {
    clamp_int(
        main.top as int,
        work_area.top as int,
        max_int(work_area.bottom - panel_height(work_area, desired_height), work_area.top as int),
    )
}

/// The placement `(x, y, width, height)` of the detail panel.
pub open spec fn detail_placement(main: Bounds, work_area: Bounds, width: u32, desired_height: u32) -> (
    int,
    int,
    int,
    int,
) {
    let h = panel_height(work_area, desired_height);
    if opens_below(main, work_area, width, desired_height) {
        (vertical_x(main, work_area, width), anchor_bottom(main, work_area), width as int, h)
    } else if opens_above(main, work_area, width, desired_height) {
        (vertical_x(main, work_area, width), anchor_top(main, work_area) - h, width as int, h)
    } else {
        let x = if opens_right(main, work_area, width) {
            main.right as int
        } else {
            main.left - signed(width)
        };
        (x, side_y(main, work_area, desired_height), width as int, h)
    }
}

/// The inputs on which the placement is computed without a panic: an ordered
/// work area and no `i32` overflow on the path taken.
pub open spec fn detail_layout_defined(
    main: Bounds,
    work_area: Bounds,
    width: u32,
    desired_height: u32,
) -> bool {
    &&& work_area.top <= work_area.bottom
    &&& fits_i32(work_area.bottom - work_area.top)
    &&& fits_i32(work_area.right - signed(width))
    &&& !opens_below(main, work_area, width, desired_height) && !opens_above(
        main,
        work_area,
        width,
        desired_height,
    ) ==> {
        &&& fits_i32(work_area.right - main.right)
        &&& fits_i32(main.left - work_area.left)
        &&& !opens_right(main, work_area, width) ==> fits_i32(main.left - signed(width))
        &&& fits_i32(work_area.bottom - panel_height(work_area, desired_height))
    }
}

/// Where the detail panel opens for a compact widget at `main_bounds` on a
/// monitor whose work area is `work_area`: below the widget when it fits,
/// else above it, else beside it; `width` and `desired_height` are the
/// panel's size in physical pixels.
pub fn detail_layout(main_bounds: Bounds, work_area: Bounds, width: u32, desired_height: u32) -> (r: (
    i32,
    i32,
    u32,
    u32,
))
    requires
        detail_layout_defined(main_bounds, work_area, width, desired_height),
    ensures
        (r.0 as int, r.1 as int, r.2 as int, r.3 as int) == detail_placement(
            main_bounds,
            work_area,
            width,
            desired_height,
        ),
{
    let extent: i32 = max_i32(work_area.bottom - work_area.top, 1);
    let height: u32 = if desired_height <= extent as u32 {
        desired_height
    } else {
        extent as u32
    };
    assert(height as int == panel_height(work_area, desired_height));
    let h: i32 = height as i32;
    let anchor_top: i32 = clamp_i32(main_bounds.top, work_area.top, work_area.bottom);
    let anchor_bottom: i32 = clamp_i32(main_bounds.bottom, work_area.top, work_area.bottom);
    let available_above: i32 = max_i32(anchor_top - work_area.top, 0);
    let available_below: i32 = max_i32(work_area.bottom - anchor_bottom, 0);
    let w: i32 = width as i32;
    let vertical_x: i32 = clamp_i32(
        main_bounds.left,
        work_area.left,
        max_i32(work_area.right - w, work_area.left),
    );

    if available_below >= h {
        return (vertical_x, anchor_bottom, width, height);
    }
    if available_above >= h {
        return (vertical_x, anchor_top - h, width, height);
    }

    let available_right: i32 = max_i32(work_area.right - main_bounds.right, 0);
    let available_left: i32 = max_i32(main_bounds.left - work_area.left, 0);
    let x: i32 = if available_right >= w || available_right >= available_left {
        main_bounds.right
    } else {
        main_bounds.left - w
    };
    let y: i32 = clamp_i32(main_bounds.top, work_area.top, max_i32(work_area.bottom - h, work_area.top));
    (x, y, width, height)
}

/// In a work area at least one pixel tall, the detail panel lies within the
/// work area's vertical span.
pub proof fn lemma_detail_panel_within_work_area(
    main: Bounds,
    work_area: Bounds,
    width: u32,
    desired_height: u32,
)
    requires
        detail_layout_defined(main, work_area, width, desired_height),
        work_area.top < work_area.bottom,
    ensures
        ({
            let p = detail_placement(main, work_area, width, desired_height);
            work_area.top <= p.1 && p.1 + p.3 <= work_area.bottom
        }),
{
}

/// The detail panel touches the compact widget without a gap: its top is the
/// widget's (clamped) bottom when it opens below, its bottom the widget's
/// (clamped) top when it opens above, and otherwise one of its sides is a
/// side of the widget.
pub proof fn lemma_detail_panel_touches_anchor(
    main: Bounds,
    work_area: Bounds,
    width: u32,
    desired_height: u32,
)
    requires
        detail_layout_defined(main, work_area, width, desired_height),
    ensures
        ({
            let p = detail_placement(main, work_area, width, desired_height);
            if opens_below(main, work_area, width, desired_height) {
                p.1 == anchor_bottom(main, work_area)
            } else if opens_above(main, work_area, width, desired_height) {
                p.1 + p.3 == anchor_top(main, work_area)
            } else {
                p.0 == main.right || p.0 + signed(width) == main.left
            }
        }),
{
}

/// A panel opened above or below stays within the work area's horizontal span
/// whenever the work area is at least as wide as the panel.
pub proof fn lemma_detail_panel_within_work_area_horizontally(
    main: Bounds,
    work_area: Bounds,
    width: u32,
    desired_height: u32,
)
    requires
        detail_layout_defined(main, work_area, width, desired_height),
        width <= i32::MAX,
        width <= work_area.right - work_area.left,
        opens_below(main, work_area, width, desired_height) || opens_above(
            main,
            work_area,
            width,
            desired_height,
        ),
    ensures
        ({
            let p = detail_placement(main, work_area, width, desired_height);
            work_area.left <= p.0 && p.0 + p.2 <= work_area.right
        }),
{
    assert(signed(width) == width as int);
}


/// A panel that fits neither below nor above the widget opens on the right
/// of the widget whenever it fits between the widget and the work area's
/// right edge; it opens on the left only when it does not fit on the right
/// and the left has strictly more room, and then it ends at the widget's
/// left edge.
pub proof fn lemma_detail_panel_side(main: Bounds, work_area: Bounds, width: u32, desired_height: u32)
    requires
        detail_layout_defined(main, work_area, width, desired_height),
        width <= i32::MAX,
        work_area.bottom - clamp_int(main.bottom as int, work_area.top as int, work_area.bottom as int)
            < min_int(desired_height as int, max_int(work_area.bottom - work_area.top, 1)),
        clamp_int(main.top as int, work_area.top as int, work_area.bottom as int) - work_area.top
            < min_int(desired_height as int, max_int(work_area.bottom - work_area.top, 1)),
    ensures
        work_area.right - main.right >= width ==> detail_placement(
            main,
            work_area,
            width,
            desired_height,
        ).0 == main.right,
        detail_placement(main, work_area, width, desired_height).0 != main.right ==> {
            &&& work_area.right - main.right < width
            &&& main.left - work_area.left > work_area.right - main.right
            &&& main.left - work_area.left > 0
            &&& detail_placement(main, work_area, width, desired_height).0 + width == main.left
        },
        detail_placement(main, work_area, width, desired_height).2 == width,
{
    assert(signed(width) == width as int);
}

// ---------------------------------------------------------------------------
// Docking the compact widget on the nearest taskbar

/// Half of `d`, rounded toward zero as integer division does.
pub open spec fn half_toward_zero(d: int) -> int {
    if d >= 0 {
        d / 2
    } else {
        -((-d) / 2)
    }
}

/// Midpoint of the span `[lo, hi]`, as `lo + (hi - lo) / 2` computes it.
pub open spec fn midpoint(lo: int, hi: int) -> int {
    lo + half_toward_zero(hi - lo)
}

/// `i` is the first index of a taskbar at least as near to `(x, y)` as every
/// other one, which `Iterator::min_by_key` picks.
pub open spec fn is_first_nearest(taskbars: Seq<Bounds>, x: int, y: int, i: int) -> bool {
    &&& 0 <= i < taskbars.len()
    &&& forall|j: int|
        0 <= j < taskbars.len() ==> spec_distance(x, y, taskbars[i]) <= spec_distance(
            x,
            y,
            #[trigger] taskbars[j],
        )
    &&& forall|j: int|
        0 <= j < i ==> spec_distance(x, y, taskbars[i]) < spec_distance(x, y, #[trigger] taskbars[j])
}

/// The widget's bounds when docked on `taskbar`: on a horizontal taskbar it
/// takes the taskbar's full height and `width` pixels from `offset` past the
/// left edge; on a vertical one the full width and `height` pixels from
/// `offset` below the top edge; it is kept inside the taskbar where it fits.
pub open spec fn docked_on(taskbar: Bounds, offset: int, width: int, height: int) -> Bounds {
    let taskbar_width = max_int(taskbar.right - taskbar.left, 1);
    let taskbar_height = max_int(taskbar.bottom - taskbar.top, 1);
    if taskbar_width >= taskbar_height {
        let w = min_int(width, taskbar_width);
        let x = clamp_int(
            taskbar.left + offset,
            taskbar.left as int,
            max_int(taskbar.right - w, taskbar.left as int),
        );
        Bounds { left: x as i32, top: taskbar.top, right: (x + w) as i32, bottom: taskbar.bottom }
    } else {
        let h = min_int(height, taskbar_height);
        let y = clamp_int(
            taskbar.top + offset,
            taskbar.top as int,
            max_int(taskbar.bottom - h, taskbar.top as int),
        );
        Bounds { left: taskbar.left, top: y as i32, right: taskbar.right, bottom: (y + h) as i32 }
    }
}

/// The docking arithmetic on `taskbar` stays within `i32`.
pub open spec fn docking_defined(taskbar: Bounds, offset: int, width: int, height: int) -> bool {
    let taskbar_width = max_int(taskbar.right - taskbar.left, 1);
    let taskbar_height = max_int(taskbar.bottom - taskbar.top, 1);
    &&& fits_i32(taskbar.right - taskbar.left)
    &&& fits_i32(taskbar.bottom - taskbar.top)
    &&& if taskbar_width >= taskbar_height {
        let w = min_int(width, taskbar_width);
        let x = clamp_int(
            taskbar.left + offset,
            taskbar.left as int,
            max_int(taskbar.right - w, taskbar.left as int),
        );
        fits_i32(taskbar.left + offset) && fits_i32(taskbar.right - w) && fits_i32(x + w)
    } else {
        let h = min_int(height, taskbar_height);
        let y = clamp_int(
            taskbar.top + offset,
            taskbar.top as int,
            max_int(taskbar.bottom - h, taskbar.top as int),
        );
        fits_i32(taskbar.top + offset) && fits_i32(taskbar.bottom - h) && fits_i32(y + h)
    }
}

/// The inputs on which docking runs without a panic.
pub open spec fn dock_defined(
    taskbars: Seq<Bounds>,
    current: Bounds,
    offset: int,
    width: int,
    height: int,
) -> bool {
    let x = midpoint(current.left as int, current.right as int);
    let y = midpoint(current.top as int, current.bottom as int);
    &&& fits_i32(current.right - current.left)
    &&& fits_i32(current.bottom - current.top)
    &&& forall|i: int| 0 <= i < taskbars.len() ==> distance_defined(x, y, #[trigger] taskbars[i])
    &&& forall|i: int|
        is_first_nearest(taskbars, x, y, i) ==> docking_defined(taskbars[i], offset, width, height)
}

fn docked_bounds(taskbar: Bounds, offset: i32, width: i32, height: i32) -> (b: Bounds)
    requires
        docking_defined(taskbar, offset as int, width as int, height as int),
    ensures
        b == docked_on(taskbar, offset as int, width as int, height as int),
{
    let taskbar_width: i32 = max_i32(taskbar.right - taskbar.left, 1);
    let taskbar_height: i32 = max_i32(taskbar.bottom - taskbar.top, 1);
    if taskbar_width >= taskbar_height {
        let w: i32 = min_i32(width, taskbar_width);
        let x: i32 = clamp_i32(
            taskbar.left + offset,
            taskbar.left,
            max_i32(taskbar.right - w, taskbar.left),
        );
        Bounds { left: x, top: taskbar.top, right: x + w, bottom: taskbar.bottom }
    } else {
        let h: i32 = min_i32(height, taskbar_height);
        let y: i32 = clamp_i32(
            taskbar.top + offset,
            taskbar.top,
            max_i32(taskbar.bottom - h, taskbar.top),
        );
        Bounds { left: taskbar.left, top: y, right: taskbar.right, bottom: y + h }
    }
}

/// Where the compact widget docks: on the taskbar nearest to the centre of
/// the widget's current bounds, per `docked_on`; `None` when there is no
/// taskbar. `offset`, `width` and `height` are in physical pixels.
pub fn taskbar_dock_bounds(
    taskbars: &Vec<Bounds>,
    current: Bounds,
    offset: i32,
    width: i32,
    height: i32,
) -> (b: Option<Bounds>)
    requires
        dock_defined(taskbars@, current, offset as int, width as int, height as int),
    ensures
        b is None <==> taskbars@.len() == 0,
        b matches Some(b) ==> exists|i: int|
            is_first_nearest(
                taskbars@,
                midpoint(current.left as int, current.right as int),
                midpoint(current.top as int, current.bottom as int),
                i,
            ) && b == docked_on(#[trigger] taskbars@[i], offset as int, width as int, height as int),
{
    if taskbars.len() == 0 {
        return None;
    }
    let center_x: i32 = current.left + (current.right - current.left) / 2;
    let center_y: i32 = current.top + (current.bottom - current.top) / 2;
    let ghost x = midpoint(current.left as int, current.right as int);
    let ghost y = midpoint(current.top as int, current.bottom as int);
    assert(center_x == x);
    assert(center_y == y);
    let mut best: usize = 0;
    let mut best_distance: i64 = distance_to_bounds(center_x, center_y, taskbars[0]);
    let mut i: usize = 1;
    while i < taskbars.len()
        invariant
            1 <= i <= taskbars@.len(),
            best < i,
            center_x == x,
            center_y == y,
            forall|k: int| 0 <= k < taskbars@.len() ==> distance_defined(x, y, #[trigger] taskbars@[k]),
            best_distance == spec_distance(x, y, taskbars@[best as int]),
            forall|j: int| 0 <= j < i ==> best_distance <= spec_distance(x, y, #[trigger] taskbars@[j]),
            forall|j: int| 0 <= j < best ==> best_distance < spec_distance(x, y, #[trigger] taskbars@[j]),
        decreases taskbars@.len() - i,
    {
        let d: i64 = distance_to_bounds(center_x, center_y, taskbars[i]);
        if d < best_distance {
            best = i;
            best_distance = d;
        }
        i = i + 1;
    }
    assert(is_first_nearest(taskbars@, x, y, best as int));
    Some(docked_bounds(taskbars[best], offset, width, height))
}

/// The docked widget lies within its taskbar, spanning the taskbar's full
/// height on a horizontal taskbar and its full width on a vertical one,
/// whenever the taskbar is not empty and the requested size is not negative.
pub proof fn lemma_docked_within_taskbar(taskbar: Bounds, offset: int, width: int, height: int)
    requires
        docking_defined(taskbar, offset, width, height),
        taskbar.left < taskbar.right,
        taskbar.top < taskbar.bottom,
        width >= 0,
        height >= 0,
    ensures
        ({
            let b = docked_on(taskbar, offset, width, height);
            &&& taskbar.left <= b.left <= b.right <= taskbar.right
            &&& taskbar.top <= b.top <= b.bottom <= taskbar.bottom
            &&& (taskbar.right - taskbar.left >= taskbar.bottom - taskbar.top) ==> (b.top
                == taskbar.top && b.bottom == taskbar.bottom)
            &&& (taskbar.right - taskbar.left < taskbar.bottom - taskbar.top) ==> (b.left
                == taskbar.left && b.right == taskbar.right)
        }),
{
}

/// Size `(width, height)` of the docked window for `bounds`, at least one
/// pixel each way.
pub fn docked_size(bounds: Bounds) -> (size: (u32, u32))
    requires
        fits_i32(bounds.right - bounds.left),
        fits_i32(bounds.bottom - bounds.top),
    ensures
        size.0 == max_int(bounds.right - bounds.left, 1),
        size.1 == max_int(bounds.bottom - bounds.top, 1),
{
    let width: i32 = max_i32(bounds.right - bounds.left, 1);
    let height: i32 = max_i32(bounds.bottom - bounds.top, 1);
    (width as u32, height as u32)
}

/// Top-left corner of the free-floating widget: `margin` pixels in from the
/// work area's left edge, its bottom `margin` pixels above the work area's
/// bottom, but never above the work area's top.
pub fn overlay_origin(work_area: Bounds, margin: i32, height: u32) -> (origin: (i32, i32))
    requires
        fits_i32(work_area.left + margin),
        fits_i32(work_area.bottom - margin),
        fits_i32(work_area.bottom - margin - signed(height)),
    ensures
        origin.0 == work_area.left + margin,
        origin.1 == max_int(work_area.bottom - margin - signed(height), work_area.top as int),
{
    let x: i32 = work_area.left + margin;
    let bottom: i32 = work_area.bottom - margin;
    let y: i32 = max_i32(bottom - height as i32, work_area.top);
    (x, y)
}

/// The rectangle with top-left corner `(x, y)` and the given size.
pub fn bounds_from_rect(x: i32, y: i32, width: u32, height: u32) -> (b: Bounds)
    requires
        fits_i32(x + signed(width)),
        fits_i32(y + signed(height)),
    ensures
        b.left == x,
        b.top == y,
        b.right == x + signed(width),
        b.bottom == y + signed(height),
{
    Bounds { left: x, top: y, right: x + width as i32, bottom: y + height as i32 }
}

/// The work area of the monitor nearest to `bounds`, where no monitor list
/// is available: the bounds themselves.
pub fn monitor_work_area_for_bounds(bounds: Bounds) -> (area: Option<Bounds>)
    ensures
        area == Some(bounds),
{
    Some(bounds)
}

/// The taskbar windows where the platform offers none to enumerate.
pub fn taskbar_windows_all() -> (windows: Vec<TaskbarWindow>)
    ensures
        windows@.len() == 0,
{
    Vec::new()
}

/// The screen bounds of each taskbar window, in order.
pub fn taskbar_bounds_all(windows: &Vec<TaskbarWindow>) -> (bounds: Vec<Bounds>)
    ensures
        bounds@.len() == windows@.len(),
        forall|i: int| 0 <= i < windows@.len() ==> #[trigger] bounds@[i] == windows@[i].bounds,
{
    let mut bounds: Vec<Bounds> = Vec::new();
    let mut i: usize = 0;
    while i < windows.len()
        invariant
            i <= windows@.len(),
            bounds@.len() == i,
            forall|k: int| 0 <= k < i ==> #[trigger] bounds@[k] == windows@[k].bounds,
        decreases windows@.len() - i,
    {
        bounds.push(windows[i].bounds);
        i = i + 1;
    }
    bounds
}


// ---------------------------------------------------------------------------
// Deciding ahead of a call whether it is defined

fn fits(v: i64) -> (b: bool)
    ensures
        b == fits_i32(v as int),
{
    i32::MIN as i64 <= v && v <= i32::MAX as i64
}

fn clamp_i64(v: i64, lo: i64, hi: i64) -> (r: i64)
    ensures
        r == clamp_int(v as int, lo as int, hi as int),
{
    if v < lo {
        lo
    } else if v > hi {
        hi
    } else {
        v
    }
}

fn max_i64(a: i64, b: i64) -> (r: i64)
    ensures
        r == max_int(a as int, b as int),
{
    if a >= b {
        a
    } else {
        b
    }
}

fn min_i64(a: i64, b: i64) -> (r: i64)
    ensures
        r == min_int(a as int, b as int),
{
    if a <= b {
        a
    } else {
        b
    }
}

/// Whether `detail_layout` is defined on these inputs, for callers that
/// cannot know it in advance.
pub fn detail_layout_is_defined(main: Bounds, work_area: Bounds, width: u32, desired_height: u32) -> (ok:
    bool)
    ensures
        ok == detail_layout_defined(main, work_area, width, desired_height),
{
    let top = work_area.top as i64;
    let bottom = work_area.bottom as i64;
    let left = work_area.left as i64;
    let right = work_area.right as i64;
    let w = (width as i32) as i64;
    if !(top <= bottom) || !fits(bottom - top) || !fits(right - w) {
        return false;
    }
    let h = min_i64(desired_height as i64, max_i64(bottom - top, 1));
    assert(h == panel_height(work_area, desired_height));
    let anchor_top = clamp_i64(main.top as i64, top, bottom);
    let anchor_bottom = clamp_i64(main.bottom as i64, top, bottom);
    let above = max_i64(anchor_top - top, 0);
    let below = max_i64(bottom - anchor_bottom, 0);
    if below >= h || above >= h {
        return true;
    }
    if !fits(right - main.right as i64) || !fits(main.left as i64 - left) {
        return false;
    }
    let room_right = max_i64(right - main.right as i64, 0);
    let room_left = max_i64(main.left as i64 - left, 0);
    let right_side = room_right >= w || room_right >= room_left;
    if !right_side && !fits(main.left as i64 - w) {
        return false;
    }
    fits(bottom - h)
}

/// The first nearest taskbar is unique.
proof fn lemma_first_nearest_unique(taskbars: Seq<Bounds>, x: int, y: int, i: int, j: int)
    requires
        is_first_nearest(taskbars, x, y, i),
        is_first_nearest(taskbars, x, y, j),
    ensures
        i == j,
{
    if i < j {
        assert(spec_distance(x, y, taskbars[j]) < spec_distance(x, y, taskbars[i]));
        assert(spec_distance(x, y, taskbars[i]) <= spec_distance(x, y, taskbars[j]));
    } else if j < i {
        assert(spec_distance(x, y, taskbars[i]) < spec_distance(x, y, taskbars[j]));
        assert(spec_distance(x, y, taskbars[j]) <= spec_distance(x, y, taskbars[i]));
    }
}

fn gap_fits(v: i64, lo: i64, hi: i64) -> (b: bool)
    requires
        fits_i32(v as int),
        fits_i32(lo as int),
        fits_i32(hi as int),
    ensures
        b == fits_i32(gap(v as int, lo as int, hi as int)),
{
    if v < lo {
        fits(lo - v)
    } else if v > hi {
        fits(v - hi)
    } else {
        true
    }
}

fn docking_is_defined(taskbar: Bounds, offset: i32, width: i32, height: i32) -> (ok: bool)
    ensures
        ok == docking_defined(taskbar, offset as int, width as int, height as int),
{
    let l = taskbar.left as i64;
    let r = taskbar.right as i64;
    let t = taskbar.top as i64;
    let b = taskbar.bottom as i64;
    if !fits(r - l) || !fits(b - t) {
        return false;
    }
    let tw = max_i64(r - l, 1);
    let th = max_i64(b - t, 1);
    if tw >= th {
        let w = min_i64(width as i64, tw);
        let x = clamp_i64(l + offset as i64, l, max_i64(r - w, l));
        fits(l + offset as i64) && fits(r - w) && fits(x + w)
    } else {
        let h = min_i64(height as i64, th);
        let y = clamp_i64(t + offset as i64, t, max_i64(b - h, t));
        fits(t + offset as i64) && fits(b - h) && fits(y + h)
    }
}

/// Whether `taskbar_dock_bounds` is defined on these inputs, for callers
/// that cannot know it in advance.
pub fn taskbar_dock_is_defined(
    taskbars: &Vec<Bounds>,
    current: Bounds,
    offset: i32,
    width: i32,
    height: i32,
) -> (ok: bool)
    ensures
        ok == dock_defined(taskbars@, current, offset as int, width as int, height as int),
{
    let span_x = current.right as i64 - current.left as i64;
    let span_y = current.bottom as i64 - current.top as i64;
    if !fits(span_x) || !fits(span_y) {
        return false;
    }
    let center_x: i32 = current.left + (current.right - current.left) / 2;
    let center_y: i32 = current.top + (current.bottom - current.top) / 2;
    let ghost x = midpoint(current.left as int, current.right as int);
    let ghost y = midpoint(current.top as int, current.bottom as int);
    assert(center_x == x && center_y == y);
    let mut i: usize = 0;
    while i < taskbars.len()
        invariant
            i <= taskbars@.len(),
            x == midpoint(current.left as int, current.right as int),
            y == midpoint(current.top as int, current.bottom as int),
            center_x == x,
            center_y == y,
            forall|k: int| 0 <= k < i ==> distance_defined(x, y, #[trigger] taskbars@[k]),
        decreases taskbars@.len() - i,
    {
        let t = taskbars[i];
        if !gap_fits(center_x as i64, t.left as i64, t.right as i64) || !gap_fits(
            center_y as i64,
            t.top as i64,
            t.bottom as i64,
        ) {
            assert(!distance_defined(x, y, taskbars@[i as int]));
            assert(!dock_defined(taskbars@, current, offset as int, width as int, height as int));
            return false;
        }
        i = i + 1;
    }
    if taskbars.len() == 0 {
        return true;
    }
    let mut best: usize = 0;
    let mut best_distance: i64 = distance_to_bounds(center_x, center_y, taskbars[0]);
    let mut k: usize = 1;
    while k < taskbars.len()
        invariant
            1 <= k <= taskbars@.len(),
            best < k,
            forall|m: int| 0 <= m < taskbars@.len() ==> distance_defined(x, y, #[trigger] taskbars@[m]),
            center_x == x,
            center_y == y,
            best_distance == spec_distance(x, y, taskbars@[best as int]),
            forall|j: int| 0 <= j < k ==> best_distance <= spec_distance(x, y, #[trigger] taskbars@[j]),
            forall|j: int| 0 <= j < best ==> best_distance < spec_distance(x, y, #[trigger] taskbars@[j]),
        decreases taskbars@.len() - k,
    {
        let d: i64 = distance_to_bounds(center_x, center_y, taskbars[k]);
        if d < best_distance {
            best = k;
            best_distance = d;
        }
        k = k + 1;
    }
    assert(is_first_nearest(taskbars@, x, y, best as int));
    let ok = docking_is_defined(taskbars[best], offset, width, height);
    proof {
        assert forall|j: int| is_first_nearest(taskbars@, x, y, j) implies j == best by {
            lemma_first_nearest_unique(taskbars@, x, y, j, best as int);
        }
    }
    ok
}

} // verus!
