//! Screen areas of the terminal client: where a centered pop-up and the
//! message-type list go. The splitting itself is ratatui's.

use vstd::prelude::*;
use ratatui::layout::{Constraint, Direction, Layout, Rect};

verus! {

/// A rectangle of terminal cells.
#[derive(PartialEq, Eq, Debug, Clone, Copy)]
pub struct Area {
    pub x: u16,
    pub y: u16,
    pub width: u16,
    pub height: u16,
}

/// The direction in which an area is split.
#[derive(PartialEq, Eq, Debug, Clone, Copy)]
pub enum Axis {
    /// Parts stacked top to bottom.
    Vertical,
    /// Parts side by side, left to right.
    Horizontal,
}

/// How much of a split area one part asks for.
#[derive(PartialEq, Eq, Debug, Clone, Copy)]
pub enum SizeRule {
    /// This percentage of the area.
    Percentage(u16),
    /// A share, of this weight, of what the other parts leave.
    Fill(u16),
    /// Exactly this many cells.
    Length(u16),
    /// At most this many cells.
    Max(u16),
}

/// `part` lies inside `area` along `axis` and spans all of `area` across
/// it: for a vertical split, the same columns and a run of `area`'s rows;
/// for a horizontal split, the same rows and a run of `area`'s columns.
pub open spec fn part_of(axis: Axis, part: Area, area: Area) -> bool {
    match axis {
        Axis::Vertical => {
            &&& part.x == area.x
            &&& part.width == area.width
            &&& area.y <= part.y
            &&& part.y + part.height <= area.y + area.height
        },
        Axis::Horizontal => {
            &&& part.y == area.y
            &&& part.height == area.height
            &&& area.x <= part.x
            &&& part.x + part.width <= area.x + area.width
        },
    }
}

/// `inner` lies wholly inside `outer`.
pub open spec fn inside(inner: Area, outer: Area) -> bool {
    &&& outer.x <= inner.x
    &&& inner.x + inner.width <= outer.x + outer.width
    &&& outer.y <= inner.y
    &&& inner.y + inner.height <= outer.y + outer.height
}

/// Where `area` starts along `axis`.
pub open spec fn axis_start(axis: Axis, area: Area) -> int {
    match axis {
        Axis::Vertical => area.y as int,
        Axis::Horizontal => area.x as int,
    }
}

/// How long `area` is along `axis`.
pub open spec fn axis_len(axis: Axis, area: Area) -> int {
    match axis {
        Axis::Vertical => area.height as int,
        Axis::Horizontal => area.width as int,
    }
}

/// The cells of `area` along `axis` that ratatui divides: its length, cut
/// short where the far edge would pass the last coordinate, 65535.
pub open spec fn axis_span(axis: Axis, area: Area) -> int {
    if axis_start(axis, area) + axis_len(axis, area) <= 65535 {
        axis_len(axis, area)
    } else {
        65535 - axis_start(axis, area)
    }
}

/// The cell at which `percent` percent of `span` cells from `start` ends,
/// rounded to the nearest cell, halves away from `start`.
pub open spec fn boundary(start: int, span: int, percent: int) -> int {
    start + (span * percent + 50) / 100
}

/// A boundary is the cell nearest to the exact point `percent` percent of
/// the way along `span` cells from `start`, a point exactly halfway between
/// two cells going to the farther one: in hundredths of a cell, it lies less
/// than half a cell before the exact point, or at most half a cell after it.
/// Over a whole span, the boundary at 0 percent is the start and the one at
/// 100 percent is the end.
pub proof fn lemma_boundary_nearest(start: int, span: int, percent: int)
    requires
        span >= 0,
        percent >= 0,
    ensures
        -50 < 100 * (boundary(start, span, percent) - start) - span * percent <= 50,
        boundary(start, span, 0) == start,
        boundary(start, span, 100) == start + span,
{
    let q = (span * percent + 50) / 100;
    assert(0 <= span * percent) by (nonlinear_arith)
        requires
            span >= 0,
            percent >= 0,
    ;
    assert(100 * q <= span * percent + 50 < 100 * q + 100);
    assert((span * 100 + 50) / 100 == span);
}

/// Every rule is a percentage.
pub open spec fn all_percentages(rules: Seq<SizeRule>) -> bool {
    forall|i: int| 0 <= i < rules.len() ==> #[trigger] rules[i] is Percentage
}

/// The sum of the percentages of the first `n` rules.
pub open spec fn percent_before(rules: Seq<SizeRule>, n: int) -> int
    decreases n,
{
    if n <= 0 {
        0
    } else {
        percent_before(rules, n - 1) + match rules[n - 1] {
            SizeRule::Percentage(p) => p as int,
            _ => 0,
        }
    }
}

/// Two rules that share the area equally: two fills of the same weight.
pub open spec fn equal_halves(rules: Seq<SizeRule>) -> bool {
    &&& rules.len() == 2
    &&& rules[0] is Fill
    &&& rules[1] is Fill
    &&& rules[0]->Fill_0 == rules[1]->Fill_0
}

/// `part` runs along `axis` from the boundary at `from` percent of `area`
/// to the boundary at `to` percent.
pub open spec fn runs_between(axis: Axis, part: Area, area: Area, from: int, to: int) -> bool {
    let start = axis_start(axis, area);
    let span = axis_span(axis, area);
    &&& axis_start(axis, part) == boundary(start, span, from)
    &&& axis_start(axis, part) + axis_len(axis, part) == boundary(start, span, to)
}

/// Splits `area` along `axis` by `rules`.
///
/// Trusted: calls ratatui's `Layout::split` on a default layout (no margin,
/// no spacing, parts packed from the start) with this direction and these
/// constraints. ratatui solves the constraints with a solver whose choices
/// may differ from call to call when rules conflict, so only what its source
/// fixes for every outcome is stated:
/// - one part for each rule (one segment per constraint);
/// - each part keeps the area's extent across the axis (`changes_to_rects`);
/// - each part starts and ends within the area along the axis (the required
///   constraints that keep every boundary between the area's start and its
///   end, the end clamped at 65535);
/// - when every rule is a percentage and they add up to at most 100, the
///   percentage sizes (strength STRONG) outweigh every constraint that pulls
///   against them (the last gap's growth, MEDIUM / 10, and equal growth of
///   all parts, WEAK), while the gaps before and between parts are held
///   empty (REQUIRED - 1 and REQUIRED / 10): part `i` runs from the boundary
///   at the sum of the percentages before it to the boundary at that sum
///   with its own, each boundary computed in hundredths of a cell and
///   rounded to the nearest cell (`changes_to_rects`);
/// - when the rules are two fills of equal weight, both grow (MEDIUM) until
///   the gaps are empty and are held equal (MEDIUM / 10): they run from the
///   start to the boundary at 50 percent and from there to the end.
/// Where the parts lie for other rules is not stated.
#[verifier::external_body]
fn split_area(axis: Axis, rules: &Vec<SizeRule>, area: Area) -> (parts: Vec<Area>)
    ensures
        parts@.len() == rules@.len(),
        forall|i: int| 0 <= i < parts@.len() ==> part_of(axis, #[trigger] parts@[i], area),
        all_percentages(rules@) && percent_before(rules@, rules@.len() as int) <= 100 ==> forall|i: int|
            0 <= i < parts@.len() ==> runs_between(
                axis,
                #[trigger] parts@[i],
                area,
                percent_before(rules@, i),
                percent_before(rules@, i + 1),
            ),
        equal_halves(rules@) ==> runs_between(axis, parts@[0], area, 0, 50) && runs_between(
            axis,
            parts@[1],
            area,
            50,
            100,
        ),
{
    let direction = match axis {
        Axis::Vertical => Direction::Vertical,
        Axis::Horizontal => Direction::Horizontal,
    };
    let constraints = rules.iter().map(|r| match *r {
        SizeRule::Percentage(p) => Constraint::Percentage(p),
        SizeRule::Fill(w) => Constraint::Fill(w),
        SizeRule::Length(n) => Constraint::Length(n),
        SizeRule::Max(n) => Constraint::Max(n),
    });
    let rect = Rect { x: area.x, y: area.y, width: area.width, height: area.height };
    let parts = Layout::default().direction(direction).constraints(constraints).split(rect);
    parts.iter().map(|r| Area { x: r.x, y: r.y, width: r.width, height: r.height }).collect()
}

/// The percentage on each side of a middle of `percent` percent: half the
/// rest, rounded down.
pub open spec fn side_percent(percent: u16) -> u16 {
    ((100 - percent) / 2) as u16
}

/// The rules that put `percent` of an area in the middle, with the rest
/// shared equally (rounded down) on both sides.
pub open spec fn centered_rules(percent: u16) -> Seq<SizeRule> {
    let side = side_percent(percent);
    seq![SizeRule::Percentage(side), SizeRule::Percentage(percent), SizeRule::Percentage(side)]
}

/// The three rules of a centered split are percentages adding up to at most
/// 100, and the middle one runs from `side` percent to `side + percent`.
proof fn lemma_centered_rules(percent: u16)
    requires
        percent <= 100,
    ensures
        all_percentages(centered_rules(percent)),
        percent_before(centered_rules(percent), 1) == side_percent(percent),
        percent_before(centered_rules(percent), 2) == side_percent(percent) + percent,
        percent_before(centered_rules(percent), 3) <= 100,
{
    let rules = centered_rules(percent);
    assert(percent_before(rules, 0) == 0);
    assert(percent_before(rules, 1) == side_percent(percent));
    assert(percent_before(rules, 2) == side_percent(percent) + percent);
    assert(percent_before(rules, 3) == 2 * side_percent(percent) + percent);
}

/// The three rules of [`centered_rules`].
fn make_centered_rules(percent: u16) -> (rules: Vec<SizeRule>)
    requires
        percent <= 100,
    ensures
        rules@ == centered_rules(percent),
{
    let side = (100 - percent) / 2;
    let mut rules: Vec<SizeRule> = Vec::new();
    rules.push(SizeRule::Percentage(side));
    rules.push(SizeRule::Percentage(percent));
    rules.push(SizeRule::Percentage(side));
    assert(rules@ =~= centered_rules(percent));
    rules
}

/// The area `percent_x` percent of the width and `percent_y` percent of the
/// height in the middle of `r`: the middle of three rows of `r` (split by
/// [`centered_rules`] of `percent_y`), split again side by side (by
/// [`centered_rules`] of `percent_x`), its middle part. Across and down, it
/// runs from the boundary at the side percentage to the boundary at the side
/// percentage plus the middle one.
pub fn centered_rect(percent_x: u16, percent_y: u16, r: Area) -> (c: Area)
    requires
        percent_x <= 100,
        percent_y <= 100,
    ensures
        inside(c, r),
        runs_between(
            Axis::Horizontal,
            c,
            r,
            side_percent(percent_x) as int,
            side_percent(percent_x) + percent_x,
        ),
        runs_between(
            Axis::Vertical,
            c,
            r,
            side_percent(percent_y) as int,
            side_percent(percent_y) + percent_y,
        ),
{
    proof {
        lemma_centered_rules(percent_x);
        lemma_centered_rules(percent_y);
    }
    let rows = split_area(Axis::Vertical, &make_centered_rules(percent_y), r);
    let cols = split_area(Axis::Horizontal, &make_centered_rules(percent_x), rows[1]);
    assert(part_of(Axis::Vertical, rows@[1], r));
    assert(part_of(Axis::Horizontal, cols@[1], rows@[1]));
    cols[1]
}

/// The area of the message-type list: the lower of two equal rows of the
/// lower of two equal rows of `area`. It spans the full width of `area`,
/// starts at the halfway boundary of the lower half, and ends at the bottom
/// of `area` (clamped at 65535).
pub fn message_type_list(area: Area) -> (l: Area)
    ensures
        part_of(Axis::Vertical, l, area),
        ({
            let half = boundary(area.y as int, axis_span(Axis::Vertical, area), 50);
            let bottom = area.y + axis_span(Axis::Vertical, area);
            &&& l.y == boundary(half, bottom - half, 50)
            &&& l.y + l.height == bottom
        }),
{
    let mut rules: Vec<SizeRule> = Vec::new();
    rules.push(SizeRule::Fill(1));
    rules.push(SizeRule::Fill(1));
    let outer = split_area(Axis::Vertical, &rules, area);
    let inner = split_area(Axis::Vertical, &rules, outer[1]);
    proof {
        let span = axis_span(Axis::Vertical, area);
        assert((span * 100 + 50) / 100 == span) by (nonlinear_arith)
            requires span >= 0;
        assert(axis_span(Axis::Vertical, outer@[1]) == outer@[1].height);
    }
    inner[1]
}

} // verus!
