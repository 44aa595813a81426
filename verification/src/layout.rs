//! Areas of the terminal, and how the screen is divided into rows.
//!
//! The rows themselves are computed by `tui`'s constraint solver. What this
//! module adds is the test that tells whether the solver can be asked at all:
//! it computes in 16 bits and panics where that overflows. Of the rows it
//! is known how many they are, that each is as wide as what was divided, and
//! that they begin at its upper edge and end at its lower edge. How the
//! height is shared out among them is the solver's answer.

use tui::layout::{Direction, Layout, Rect};
use vstd::prelude::*;

verus! {

/// A rectangle of cells of the terminal.
#[derive(Clone, Copy, Debug, PartialEq, Eq, Structural)]
pub struct Area {
    pub x: u16,
    pub y: u16,
    pub width: u16,
    pub height: u16,
}

/// What is asked of the height of one row.
#[derive(Clone, Copy, Debug, PartialEq, Eq, Structural)]
pub enum Constraint {
    /// So many hundredths of the height that is there to divide.
    Percentage(u16),
    /// So many cells.
    Length(u16),
    /// At least so many cells.
    Min(u16),
}

impl Area {
    /// What is left of the area inside a margin of `margin` cells on every
    /// side: the empty area at the origin where the margin does not fit.
    pub open spec fn inner(self, margin: u16) -> Area {
        if self.width < 2 * margin || self.height < 2 * margin {
            Area { x: 0, y: 0, width: 0, height: 0 }
        } else {
            Area {
                x: (self.x + margin) as u16,
                y: (self.y + margin) as u16,
                width: (self.width - 2 * margin) as u16,
                height: (self.height - 2 * margin) as u16,
            }
        }
    }

    /// Whether the area reaches no further to the right and no further down
    /// than `bounds` does, nor than 16 bits can address.
    pub open spec fn ends_within(self, bounds: Area) -> bool {
        &&& self.x + self.width <= bounds.x + bounds.width
        &&& self.x + self.width <= u16::MAX
        &&& self.y + self.height <= bounds.y + bounds.height
        &&& self.y + self.height <= u16::MAX
    }
}

/// The line below the last line of `bounds`, or the last that 16 bits can
/// address where that lies nearer.
pub open spec fn lower_edge(bounds: Area) -> int {
    if bounds.y + bounds.height <= u16::MAX {
        bounds.y + bounds.height
    } else {
        u16::MAX as int
    }
}

/// Whether `rows` are laid into `bounds` from top to bottom: each as far
/// left and as wide as `bounds`, the first at its upper edge, the last down
/// to its lower edge.
pub open spec fn stacked_in(rows: Seq<Area>, bounds: Area) -> bool {
    &&& forall|i: int|
        0 <= i < rows.len() ==> (#[trigger] rows[i]).x == bounds.x && rows[i].width
            == bounds.width
    &&& rows.len() > 0 ==> rows[0].y == bounds.y
    &&& rows.len() > 0 ==> rows[rows.len() - 1].y + rows[rows.len() - 1].height == lower_edge(
        bounds,
    )
}

/// Whether the height `height` can be divided by `constraint` in 16 bits.
pub open spec fn fits(constraint: Constraint, height: u16) -> bool {
    match constraint {
        Constraint::Percentage(p) => p * height <= u16::MAX,
        _ => true,
    }
}

/// Whether `area`, less the margin, can be divided into rows: neither the
/// margin, nor the corners of what is left inside it, nor the share of a
/// percentage may leave 16 bits.
pub open spec fn splittable(area: Area, margin: u16, constraints: Seq<Constraint>) -> bool {
    &&& 2 * margin <= u16::MAX
    &&& area.width >= 2 * margin && area.height >= 2 * margin ==> area.x + margin <= u16::MAX
        && area.y + margin <= u16::MAX
    &&& constraints.len() > 0 ==> area.inner(margin).x + area.inner(margin).width <= u16::MAX
    &&& forall|i: int|
        0 <= i < constraints.len() ==> fits(#[trigger] constraints[i], area.inner(margin).height)
}

/// Tests whether `area` can be divided.
pub fn can_split(area: Area, margin: u16, constraints: &Vec<Constraint>) -> (ok: bool)
    ensures
        ok == splittable(area, margin, constraints@),
{
    if margin > u16::MAX / 2 {
        return false;
    }
    let fitted = area.width >= 2 * margin && area.height >= 2 * margin;
    if fitted && (area.x > u16::MAX - margin || area.y > u16::MAX - margin) {
        return false;
    }
    let inner = if fitted {
        Area {
            x: area.x + margin,
            y: area.y + margin,
            width: area.width - 2 * margin,
            height: area.height - 2 * margin,
        }
    } else {
        Area { x: 0, y: 0, width: 0, height: 0 }
    };
    assert(inner == area.inner(margin));
    if constraints.len() > 0 && inner.x > u16::MAX - inner.width {
        return false;
    }
    let mut i: usize = 0;
    while i < constraints.len()
        invariant
            i <= constraints.len(),
            inner == area.inner(margin),
            forall|j: int| 0 <= j < i ==> fits(#[trigger] constraints@[j], inner.height),
        decreases constraints.len() - i,
    {
        match constraints[i] {
            Constraint::Percentage(p) => {
                assert(p * inner.height <= 0xffff * 0xffff) by (nonlinear_arith)
                    requires
                        p <= 0xffff,
                        inner.height <= 0xffff,
                ;
                let share: u32 = (p as u32) * (inner.height as u32);
                if share > 0xffff {
                    assert(!fits(constraints@[i as int], inner.height));
                    return false;
                }
            },
            _ => {},
        }
        i += 1;
    }
    true
}

/// `tui::layout::Layout::split`, on a layout that stacks its rows from top
/// to bottom, with `margin` on every side and one row for each constraint.
///
/// Claimed of it: on an area that is `splittable` it returns, and with one
/// area for each constraint, in their order. Of their places, what `split`
/// fixes whatever the solver shares out:
/// - every row has the left edge and the width of the area inside the
///   margin, and the first row its upper edge: `split` asks each as an
///   equality of the strength that the solver documents as never violated,
///   and these meet whole numbers only;
/// - the last row ends at the lower edge of the area inside the margin, or
///   at 65535 where that lies beyond: `split` sets its height so, in whole
///   numbers, after the solver has answered;
/// - no row reaches beyond the right or the lower edge: both are asked at
///   the same strength, and a number that comes back is cut down to a whole
///   one.
/// The heights, and with them where a row after the first begins, are left
/// open: the solver walks hash maps, so they are not a function of the
/// arguments that could be written down.
#[verifier::external_body]
fn solve_rows(area: Area, margin: u16, constraints: &Vec<Constraint>) -> (rows: Vec<Area>)
    requires
        splittable(area, margin, constraints@),
    ensures
        rows@.len() == constraints@.len(),
        stacked_in(rows@, area.inner(margin)),
        forall|i: int|
            0 <= i < rows@.len() ==> (#[trigger] rows@[i]).ends_within(area.inner(margin)),
{
    let rules: Vec<tui::layout::Constraint> = constraints.iter().map(|c| match *c {
        Constraint::Percentage(p) => tui::layout::Constraint::Percentage(p),
        Constraint::Length(n) => tui::layout::Constraint::Length(n),
        Constraint::Min(n) => tui::layout::Constraint::Min(n),
    }).collect();
    let rect = Rect { x: area.x, y: area.y, width: area.width, height: area.height };
    let layout = Layout::default().direction(Direction::Vertical).margin(margin);
    let rects = layout.constraints(rules).split(rect);
    rects.into_iter().map(|r| Area { x: r.x, y: r.y, width: r.width, height: r.height }).collect()
}

/// Divides `area`, less a margin of `margin` cells on every side, into rows
/// from top to bottom, one for each constraint. `None` where the area is
/// not `splittable`.
pub fn split(area: Area, margin: u16, constraints: &Vec<Constraint>) -> (rows: Option<Vec<Area>>)
    ensures
        rows is Some <==> splittable(area, margin, constraints@),
        rows matches Some(r) ==> {
            &&& r@.len() == constraints@.len()
            &&& stacked_in(r@, area.inner(margin))
            &&& forall|i: int|
                0 <= i < r@.len() ==> (#[trigger] r@[i]).ends_within(area.inner(margin))
        },
{
    if can_split(area, margin, constraints) {
        Some(solve_rows(area, margin, constraints))
    } else {
        None
    }
}

/// A row of one division can be divided again: an area that ends within 16
/// bits is `splittable` by lengths and minima, with any margin that fits 16
/// bits twice.
pub proof fn lemma_row_is_splittable(
    row: Area,
    bounds: Area,
    margin: u16,
    constraints: Seq<Constraint>,
)
    requires
        row.ends_within(bounds),
        2 * margin <= u16::MAX,
        forall|i: int| 0 <= i < constraints.len() ==> !(#[trigger] constraints[i] is Percentage),
    ensures
        splittable(row, margin, constraints),
{
}

} // verus!
