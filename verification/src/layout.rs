//! Where the model selector is drawn: a band of rows centred in the
//! terminal and its sections, split out of the screen with ratatui's layout
//! solver.
use vstd::prelude::*;
use ratatui::layout::Constraint::{Length, Min, Percentage};
use ratatui::layout::Direction::{Horizontal, Vertical};
use ratatui::layout::{Layout, Rect};

verus! {

/// A rectangle of terminal cells.
#[derive(Debug, Clone, Copy, PartialEq, Eq, Structural)]
pub struct Area {
    pub x: u16,
    pub y: u16,
    pub width: u16,
    pub height: u16,
}

/// The direction a layout splits an area in.
#[derive(Debug, Clone, Copy, PartialEq, Eq, Structural)]
pub enum Axis {
    Vertical,
    Horizontal,
}

/// How much of the split direction a part of a layout takes.
#[derive(Debug, Clone, Copy, PartialEq, Eq, Structural)]
pub enum Bound {
    /// Exactly this many cells.
    Length(u16),
    /// This percentage of the area.
    Percentage(u16),
    /// At least this many cells.
    Min(u16),
}

/// The area's far edges stay within the terminal's coordinates.
pub open spec fn fits(a: Area) -> bool {
    a.x + a.width <= u16::MAX && a.y + a.height <= u16::MAX
}

/// `p` lies within `a` along `axis` and spans all of `a` across it.
pub open spec fn part_of(p: Area, a: Area, axis: Axis) -> bool {
    match axis {
        Axis::Vertical => p.x == a.x && p.width == a.width && a.y <= p.y && p.y + p.height <= a.y
            + a.height,
        Axis::Horizontal => p.y == a.y && p.height == a.height && a.x <= p.x && p.x + p.width <= a.x
            + a.width,
    }
}

/// `p` ends where `q` starts or before, along `axis`.
pub open spec fn ends_before(p: Area, q: Area, axis: Axis) -> bool {
    match axis {
        Axis::Vertical => p.y + p.height <= q.y,
        Axis::Horizontal => p.x + p.width <= q.x,
    }
}

/// `p` lies within `a` on both axes.
pub open spec fn inside(p: Area, a: Area) -> bool {
    a.x <= p.x && p.x + p.width <= a.x + a.width && a.y <= p.y && p.y + p.height <= a.y + a.height
}

/// Where a part starts along `axis`.
pub open spec fn origin(a: Area, axis: Axis) -> int {
    match axis {
        Axis::Vertical => a.y as int,
        Axis::Horizontal => a.x as int,
    }
}

/// How many cells a part takes along `axis`.
pub open spec fn extent(a: Area, axis: Axis) -> int {
    match axis {
        Axis::Vertical => a.height as int,
        Axis::Horizontal => a.width as int,
    }
}

/// `p` starts `start` cells into `a` along `axis` and takes `size` cells.
pub open spec fn placed(p: Area, a: Area, axis: Axis, start: int, size: int) -> bool {
    origin(p, axis) == origin(a, axis) + start && extent(p, axis) == size
}

/// `n` hundredths, rounded to the nearest whole number, halves up.
pub open spec fn div100_round(n: int) -> int {
    (n + 50) / 100
}

/// Where the solver puts the parts when the constraints fit in the area:
/// lengths are met exactly and a `Min` part takes what the lengths leave;
/// percentages are met exactly before rounding to whole cells, the edges
/// being rounded (not the sizes), and what they leave stays unused at the
/// end. The combinations of bounds this library does not use are left open.
pub open spec fn solved(area: Area, axis: Axis, first: Bound, middle: Bound, last: Bound, r: (
    Area,
    Area,
    Area,
)) -> bool {
    let e = extent(area, axis);
    match (first, middle, last) {
        (Bound::Length(a), Bound::Length(b), Bound::Min(c)) => a + b + c <= e ==> placed(
            r.0,
            area,
            axis,
            0,
            a as int,
        ) && placed(r.1, area, axis, a as int, b as int) && placed(r.2, area, axis, a + b, e - a - b),
        (Bound::Length(a), Bound::Min(c), Bound::Length(b)) => a + b + c <= e ==> placed(
            r.0,
            area,
            axis,
            0,
            a as int,
        ) && placed(r.1, area, axis, a as int, e - a - b) && placed(r.2, area, axis, e - b, b as int),
        (Bound::Percentage(p), Bound::Percentage(q), Bound::Percentage(s)) => p + q + s <= 100 ==> {
            let one = div100_round(e * p);
            let two = div100_round(e * (p + q));
            let three = div100_round(e * (p + q + s));
            placed(r.0, area, axis, 0, one) && placed(r.1, area, axis, one, two - one) && placed(
                r.2,
                area,
                axis,
                two,
                three - two,
            )
        },
        _ => true,
    }
}

/// `ratatui::layout::Layout::split` of `area` along `axis` with the three
/// constraints given (`Bound` maps one for one onto ratatui's `Constraint`),
/// with the default layout: no margin, no spacing, parts packed from the
/// start.
///
/// The solver (cassowary) minimises the weighted sum of the errors of its
/// constraints. Required are only the area's bounds, every edge within
/// them, and each part's start at or before its end; so every part lies
/// within the area and keeps the area's extent across the split. The parts
/// stay in order because the gap between two neighbours is asked to be
/// zero at a strength (`REQUIRED / 10`) that outweighs, cell for cell, every
/// other constraint: `Min` (`STRONG * 100`), `Length` (`STRONG * 10`),
/// `Percentage` (`STRONG`). When the constraints fit in the area the
/// optimum is unique and meets them all: the first gap is held empty, a
/// `Min` part is pulled to grow (`MEDIUM`) more strongly than the trailing
/// gap (`MEDIUM / 10`), so it takes the rest, and otherwise the rest goes
/// to the trailing gap; the pull for equal parts (`WEAK`) is too weak to
/// move any of this. Edges are solved in hundredths of a cell and each
/// edge is rounded to the nearest cell, halves up, which `solved` states.
/// All this holds for an area that `fits`, which `Rect::new` then leaves as
/// it is. The call panics only if the solver reports a conflict; the
/// required constraints can always be met together.
#[verifier::external_body]
fn split_three(area: Area, axis: Axis, first: Bound, middle: Bound, last: Bound) -> (r: (
    Area,
    Area,
    Area,
))
    ensures
        fits(area) ==> part_of(r.0, area, axis) && part_of(r.1, area, axis) && part_of(
            r.2,
            area,
            axis,
        ),
        fits(area) ==> ends_before(r.0, r.1, axis) && ends_before(r.1, r.2, axis),
        fits(area) ==> solved(area, axis, first, middle, last, r),
{
    let to = |b: Bound| match b {
        Bound::Length(n) => Length(n),
        Bound::Percentage(n) => Percentage(n),
        Bound::Min(n) => Min(n),
    };
    let direction = match axis {
        Axis::Vertical => Vertical,
        Axis::Horizontal => Horizontal,
    };
    let parts = Layout::default().direction(direction).constraints([to(first), to(middle), to(last)])
        .split(Rect::new(area.x, area.y, area.width, area.height));
    let back = |p: Rect| Area { x: p.x, y: p.y, width: p.width, height: p.height };
    (back(parts[0]), back(parts[1]), back(parts[2]))
}

pub open spec fn spec_band_height(height: u16, area_height: u16) -> u16 {
    let room: int = if area_height >= 2 {
        area_height - 2
    } else {
        0
    };
    let h: int = if height <= room {
        height as int
    } else {
        room
    };
    if h >= 3 {
        h as u16
    } else {
        3
    }
}

/// The rows the band takes: as asked, but leaving two rows of the screen
/// free, and never fewer than three.
pub fn band_height(height: u16, area_height: u16) -> (r: u16)
    ensures
        r == spec_band_height(height, area_height),
{
    let room = area_height.saturating_sub(2);
    let h = if height <= room {
        height
    } else {
        room
    };
    if h >= 3 {
        h
    } else {
        3
    }
}

pub open spec fn spec_band_margin(area_height: u16, band: u16) -> u16 {
    if area_height >= band {
        ((area_height - band) / 2) as u16
    } else {
        0
    }
}

/// The rows above the band: half of what the band leaves free.
pub fn band_margin(area_height: u16, band: u16) -> (r: u16)
    ensures
        r == spec_band_margin(area_height, band),
{
    area_height.saturating_sub(band) / 2
}

/// Half of what a band of `width_percent` percent leaves of the width, in
/// percent: the columns on either side of the band.
pub open spec fn band_side(width_percent: u16) -> int {
    (100 - width_percent) / 2
}

/// A band of `height` rows (kept within the screen) and `width_percent`
/// percent of the width, centred in `area`: the screen is split into rows
/// (`band_margin`, `band_height`, the rest) and the band into columns (side,
/// `width_percent`, side), `side` being half of what the band leaves. The
/// band starts `band_margin` rows down and is `band_height` rows high
/// wherever the screen has room for it (three rows or more); across, it
/// runs from the rounded `side` percent of the width to the rounded
/// `side + width_percent` percent.
pub fn centered_rect(width_percent: u16, height: u16, area: Area) -> (r: Area)
    requires
        width_percent <= 100,
    ensures
        fits(area) ==> inside(r, area),
        fits(area) && area.height >= 3 ==> r.y == area.y + spec_band_margin(
            area.height,
            spec_band_height(height, area.height),
        ) && r.height == spec_band_height(height, area.height),
        fits(area) ==> r.x == area.x + div100_round(area.width * band_side(width_percent))
            && r.width == div100_round(area.width * (band_side(width_percent) + width_percent))
            - div100_round(area.width * band_side(width_percent)),
{
    let h = band_height(height, area.height);
    let margin = band_margin(area.height, h);
    let rows = split_three(area, Axis::Vertical, Bound::Length(margin), Bound::Length(h), Bound::Min(0));
    let row = rows.1;
    let side = (100 - width_percent) / 2;
    let cols = split_three(
        row,
        Axis::Horizontal,
        Bound::Percentage(side),
        Bound::Percentage(width_percent),
        Bound::Percentage(side),
    );
    cols.1
}

/// The selector's three sections, top to bottom: a three-row header, the
/// list (at least three rows) and a two-row footer. They lie within the
/// area, span its width, and do not overlap; on an area of eight rows or
/// more the header takes the first three rows, the footer the last two and
/// the list everything between.
pub fn selector_sections(area: Area) -> (r: (Area, Area, Area))
    ensures
        fits(area) ==> part_of(r.0, area, Axis::Vertical) && part_of(r.1, area, Axis::Vertical)
            && part_of(r.2, area, Axis::Vertical),
        fits(area) ==> ends_before(r.0, r.1, Axis::Vertical) && ends_before(r.1, r.2, Axis::Vertical),
        fits(area) && area.height >= 8 ==> r.0.y == area.y && r.0.height == 3 && r.1.y == area.y + 3
            && r.1.height == area.height - 5 && r.2.y == area.y + area.height - 2 && r.2.height == 2,
{
    split_three(area, Axis::Vertical, Bound::Length(3), Bound::Min(3), Bound::Length(2))
}

} // verus!
