use vstd::math::{max, min};
use vstd::prelude::*;

verus! {

/// Width of the widget window, in pixels.
pub const WINDOW_WIDTH: i32 = 300;

/// Height of the widget window, in pixels.
pub const WINDOW_HEIGHT: i32 = 420;

/// Gap that the top-right placement keeps to the right edge of the work area.
pub const TOP_RIGHT_MARGIN: i32 = 10;

/// Gap that the top-right placement keeps to the top edge of the work area.
pub const TOP_MARGIN: i32 = 50;

/// Screen width assumed when the display cannot be queried.
pub const FALLBACK_SCREEN_WIDTH: i32 = 1920;

/// Screen height assumed when the display cannot be queried.
pub const FALLBACK_SCREEN_HEIGHT: i32 = 1080;

/// Whether four edges describe a rectangle that a [`WorkArea`] can hold: the
/// rectangle is not inverted, and the window can be aligned against its right
/// and bottom edges without leaving the range of `i32`.
pub open spec fn usable_edges(left: int, top: int, right: int, bottom: int) -> bool {
    &&& left <= right
    &&& top <= bottom
    &&& i32::MIN <= right - WINDOW_WIDTH
    &&& i32::MIN <= bottom - WINDOW_HEIGHT
}

/// The part of one monitor that is free for application windows: the screen
/// without task bars and docked bars, given by its edges in screen
/// coordinates.
///
/// Every value of this type has usable edges (see [`usable_edges`]). It may
/// still be smaller than the window.
#[derive(Clone, Copy, Debug, PartialEq, Eq, Structural)]
pub struct WorkArea {
    left: i32,
    top: i32,
    right: i32,
    bottom: i32,
}

impl WorkArea {
    /// The left edge.
    pub closed spec fn left(&self) -> int {
        self.left as int
    }

    /// The top edge.
    pub closed spec fn top(&self) -> int {
        self.top as int
    }

    /// The right edge.
    pub closed spec fn right(&self) -> int {
        self.right as int
    }

    /// The bottom edge.
    pub closed spec fn bottom(&self) -> int {
        self.bottom as int
    }

    /// The four edges in the order left, top, right, bottom.
    pub open spec fn spec_edges(&self) -> (int, int, int, int) {
        (self.left(), self.top(), self.right(), self.bottom())
    }

    /// Holds of every work area that executable code can get hold of.
    pub open spec fn wf(&self) -> bool {
        usable_edges(self.left(), self.top(), self.right(), self.bottom())
    }

    /// Whether the window fits into the area in both directions.
    pub open spec fn holds_window(&self) -> bool {
        &&& self.right() - self.left() >= WINDOW_WIDTH
        &&& self.bottom() - self.top() >= WINDOW_HEIGHT
    }

    #[verifier::type_invariant]
    spec fn edges_are_usable(self) -> bool {
        self.wf()
    }

    /// The work area with the given edges, or `None` where they are not
    /// usable.
    pub fn new(left: i32, top: i32, right: i32, bottom: i32) -> (area: Option<WorkArea>)
        ensures
            area is Some <==> usable_edges(left as int, top as int, right as int, bottom as int),
            area matches Some(w) ==> w.wf() && w.spec_edges() == (
                left as int,
                top as int,
                right as int,
                bottom as int,
            ),
    {
        if left <= right && top <= bottom && right >= i32::MIN + WINDOW_WIDTH && bottom >= i32::MIN
            + WINDOW_HEIGHT {
            Some(WorkArea { left, top, right, bottom })
        } else {
            None
        }
    }

    /// The area assumed when nothing can be learnt from the display: a screen
    /// of 1920 by 1080 with its origin at (0, 0).
    pub fn fallback() -> (area: WorkArea)
        ensures
            area.wf(),
            area.spec_edges() == (
                0int,
                0int,
                FALLBACK_SCREEN_WIDTH as int,
                FALLBACK_SCREEN_HEIGHT as int,
            ),
    {
        WorkArea { left: 0, top: 0, right: FALLBACK_SCREEN_WIDTH, bottom: FALLBACK_SCREEN_HEIGHT }
    }

    /// The four edges in the order left, top, right, bottom.
    pub fn edges(&self) -> (e: (i32, i32, i32, i32))
        ensures
            self.wf(),
            (e.0 as int, e.1 as int, e.2 as int, e.3 as int) == self.spec_edges(),
    {
        proof {
            use_type_invariant(self);
        }
        (self.left, self.top, self.right, self.bottom)
    }
}

/// Whether the window with its top-left corner at (x, y) lies inside the work
/// area with all four edges.
pub open spec fn fits_inside(x: int, y: int, work: WorkArea) -> bool {
    &&& work.left() <= x <= work.right() - WINDOW_WIDTH
    &&& work.top() <= y <= work.bottom() - WINDOW_HEIGHT
}

/// One coordinate after each of its two edges was tested on its own: a window
/// that sticks out beyond `high` is aligned against `high`, else one that
/// begins before `low` is aligned against `low`, else it stays. The far edge
/// is tested last, so it wins where both edges stick out.
pub open spec fn snapped(pos: int, size: int, low: int, high: int) -> int {
    if pos + size > high {
        high - size
    } else if pos < low {
        low
    } else {
        pos
    }
}

/// The position that [`validate_and_fix_position`] gives for the candidate
/// (x, y) on the work area `work`.
pub open spec fn fixed_position(x: int, y: int, work: WorkArea) -> (int, int) {
    (
        snapped(x, WINDOW_WIDTH as int, work.left(), work.right()),
        snapped(y, WINDOW_HEIGHT as int, work.top(), work.bottom()),
    )
}

/// `v` raised to `low` where it is below, and then lowered to `high` where it
/// is above.
pub open spec fn clamped(v: int, low: int, high: int) -> int {
    min(max(v, low), high)
}

/// The position that [`get_top_right_position`] gives on the work area `work`.
pub open spec fn top_right_position(work: WorkArea) -> (int, int) {
    (
        clamped(
            work.right() - WINDOW_WIDTH - TOP_RIGHT_MARGIN,
            work.left(),
            work.right() - WINDOW_WIDTH,
        ),
        clamped(work.top() + TOP_MARGIN, work.top(), work.bottom() - WINDOW_HEIGHT),
    )
}

/// Half of `n`, rounded towards zero.
pub open spec fn half(n: int) -> int {
    if n >= 0 {
        n / 2
    } else {
        -((-n) / 2)
    }
}

/// The position that [`get_center_position`] gives on the work area `work`.
pub open spec fn center_position(work: WorkArea) -> (int, int) {
    (
        work.left() + half(work.right() - work.left() - WINDOW_WIDTH),
        work.top() + half(work.bottom() - work.top() - WINDOW_HEIGHT),
    )
}

/// The edges of a report, as integers.
pub open spec fn report_edges(report: (i32, i32, i32, i32)) -> (int, int, int, int) {
    let (left, top, right, bottom) = report;
    (left as int, top as int, right as int, bottom as int)
}

/// Whether a query gave an answer, and one with usable edges.
pub open spec fn usable_report(report: Option<(i32, i32, i32, i32)>) -> bool {
    match report {
        Some((left, top, right, bottom)) => usable_edges(
            left as int,
            top as int,
            right as int,
            bottom as int,
        ),
        None => false,
    }
}

/// The edges that [`get_primary_monitor_work_area`] settles on: the reported
/// work area where there is one and it is usable, else the assumed screen of
/// 1920 by 1080.
pub open spec fn primary_edges(reported: Option<(i32, i32, i32, i32)>) -> (int, int, int, int) {
    if usable_report(reported) {
        report_edges(reported.unwrap())
    } else {
        (0, 0, FALLBACK_SCREEN_WIDTH as int, FALLBACK_SCREEN_HEIGHT as int)
    }
}

/// The edges that [`get_monitor_work_area_at_point`] settles on: those
/// reported for the point where there are any and they are usable, else those
/// of the primary work area.
pub open spec fn edges_at_point(
    at_point: Option<(i32, i32, i32, i32)>,
    primary: WorkArea,
) -> (int, int, int, int) {
    if usable_report(at_point) {
        report_edges(at_point.unwrap())
    } else {
        primary.spec_edges()
    }
}

/// The work area of the primary monitor, from what the display reported.
///
/// `reported` holds the edges of the primary work area, or `None` where the
/// query failed. The result never fails: where nothing usable was reported,
/// it is the assumed screen. See [`primary_edges`].
pub fn get_primary_monitor_work_area(reported: Option<(i32, i32, i32, i32)>) -> (work: WorkArea)
    ensures
        work.wf(),
        work.spec_edges() == primary_edges(reported),
{
    if let Some((left, top, right, bottom)) = reported {
        if let Some(area) = WorkArea::new(left, top, right, bottom) {
            return area;
        }
    }
    WorkArea::fallback()
}

/// The work area to use for a point of the screen.
///
/// `at_point` holds the edges of the work area of the monitor that contains
/// the point, or `None` where the point lies on no monitor or the query
/// failed. The result is that area where it is usable, else the primary work
/// area.
pub fn get_monitor_work_area_at_point(
    at_point: Option<(i32, i32, i32, i32)>,
    primary: &WorkArea,
) -> (work: WorkArea)
    ensures
        work.wf(),
        work.spec_edges() == edges_at_point(at_point, *primary),
{
    proof {
        use_type_invariant(primary);
    }
    if let Some((left, top, right, bottom)) = at_point {
        if let Some(area) = WorkArea::new(left, top, right, bottom) {
            return area;
        }
    }
    *primary
}

/// The centre of the window whose top-left corner is at (x, y): the point by
/// which the window's monitor is looked up. `None` where the centre lies
/// beyond the range of `i32`.
pub fn window_center(x: i32, y: i32) -> (center: Option<(i32, i32)>)
    ensures
        center is Some <==> x + WINDOW_WIDTH / 2 <= i32::MAX && y + WINDOW_HEIGHT / 2 <= i32::MAX,
        center matches Some(c) ==> c.0 == x + WINDOW_WIDTH / 2 && c.1 == y + WINDOW_HEIGHT / 2,
{
    let center_x = x.checked_add(WINDOW_WIDTH / 2);
    let center_y = y.checked_add(WINDOW_HEIGHT / 2);
    match (center_x, center_y) {
        (Some(cx), Some(cy)) => Some((cx, cy)),
        _ => None,
    }
}

/// The default position on first run: near the top-right corner of the work
/// area, 10 pixels from its right edge and 50 from its top, then clamped to
/// the range in which the window lies inside the area.
pub fn get_top_right_position(work: &WorkArea) -> (pos: (i32, i32))
    ensures
        (pos.0 as int, pos.1 as int) == top_right_position(*work),
        work.holds_window() ==> fits_inside(pos.0 as int, pos.1 as int, *work),
{
    proof {
        use_type_invariant(work);
    }
    let left: i64 = work.left as i64;
    let top: i64 = work.top as i64;
    let right: i64 = work.right as i64;
    let bottom: i64 = work.bottom as i64;
    let width: i64 = WINDOW_WIDTH as i64;
    let height: i64 = WINDOW_HEIGHT as i64;

    let x: i64 = right - width - TOP_RIGHT_MARGIN as i64;
    let y: i64 = top + TOP_MARGIN as i64;

    let raised_x: i64 = if x < left { left } else { x };
    let final_x: i64 = if raised_x > right - width { right - width } else { raised_x };
    let raised_y: i64 = if y < top { top } else { y };
    let final_y: i64 = if raised_y > bottom - height { bottom - height } else { raised_y };

    (final_x as i32, final_y as i32)
}

/// The position that centres the window in the work area. A difference that
/// is odd is halved towards zero.
pub fn get_center_position(work: &WorkArea) -> (pos: (i32, i32))
    ensures
        (pos.0 as int, pos.1 as int) == center_position(*work),
        work.holds_window() ==> fits_inside(pos.0 as int, pos.1 as int, *work),
{
    proof {
        use_type_invariant(work);
    }
    let left: i64 = work.left as i64;
    let top: i64 = work.top as i64;
    let right: i64 = work.right as i64;
    let bottom: i64 = work.bottom as i64;

    let x: i64 = left + (right - left - WINDOW_WIDTH as i64) / 2;
    let y: i64 = top + (bottom - top - WINDOW_HEIGHT as i64) / 2;

    (x as i32, y as i32)
}

/// Brings a candidate position back onto the work area.
///
/// Each of the four edges of the window is tested on its own, in the order
/// left, right, top, bottom, and an edge that sticks out is aligned against
/// the edge of the area that it crossed; the other coordinate is left alone.
/// On an area that holds the window the result lies inside it, and a
/// position that lies inside already is returned as it is.
pub fn validate_and_fix_position(x: i32, y: i32, work: &WorkArea) -> (fixed: (i32, i32))
    ensures
        (fixed.0 as int, fixed.1 as int) == fixed_position(x as int, y as int, *work),
        work.holds_window() ==> fits_inside(fixed.0 as int, fixed.1 as int, *work),
        fits_inside(x as int, y as int, *work) ==> fixed == (x, y),
{
    proof {
        use_type_invariant(work);
    }
    let mut fixed_x: i32 = x;
    let mut fixed_y: i32 = y;

    if x < work.left {
        fixed_x = work.left;
    }
    if x as i64 + WINDOW_WIDTH as i64 > work.right as i64 {
        fixed_x = work.right - WINDOW_WIDTH;
    }
    if y < work.top {
        fixed_y = work.top;
    }
    if y as i64 + WINDOW_HEIGHT as i64 > work.bottom as i64 {
        fixed_y = work.bottom - WINDOW_HEIGHT;
    }

    (fixed_x, fixed_y)
}

/// On a work area that holds the window, every fixed position lies inside the
/// area.
pub proof fn lemma_fixed_position_fits(x: int, y: int, work: WorkArea)
    requires
        work.holds_window(),
    ensures
        fits_inside(fixed_position(x, y, work).0, fixed_position(x, y, work).1, work),
{
}

/// Fixing is idempotent: on a work area that holds the window, fixing a fixed
/// position changes nothing.
pub proof fn lemma_fixing_is_idempotent(x: int, y: int, work: WorkArea)
    requires
        work.holds_window(),
    ensures
        fixed_position(fixed_position(x, y, work).0, fixed_position(x, y, work).1, work)
            == fixed_position(x, y, work),
{
}

/// The centre of a window at a fixed position lies on the work area that
/// the position was fixed on, where that area holds the window. So the
/// monitor that is found under the centre of the fixed window is the one
/// whose work area was used.
pub proof fn lemma_fixed_window_is_centred_on_its_area(x: int, y: int, work: WorkArea)
    requires
        work.holds_window(),
    ensures
        work.left() <= fixed_position(x, y, work).0 + WINDOW_WIDTH / 2 <= work.right(),
        work.top() <= fixed_position(x, y, work).1 + WINDOW_HEIGHT / 2 <= work.bottom(),
{
}

/// A position at which the window lies inside the work area is its own fixed
/// position.
pub proof fn lemma_inside_is_unchanged(x: int, y: int, work: WorkArea)
    requires
        fits_inside(x, y, work),
    ensures
        fixed_position(x, y, work) == (x, y),
{
}

/// On a work area that holds the window, both default positions lie inside
/// the area.
pub proof fn lemma_defaults_fit(work: WorkArea)
    requires
        work.holds_window(),
    ensures
        fits_inside(top_right_position(work).0, top_right_position(work).1, work),
        fits_inside(center_position(work).0, center_position(work).1, work),
{
}

} // verus!
