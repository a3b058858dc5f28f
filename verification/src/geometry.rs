//! Rectangles of terminal cells, and how one is divided into rows or columns.

use vstd::prelude::*;

verus! {

/// A rectangle of terminal cells.
#[derive(Clone, Copy, Debug, PartialEq, Eq, Structural)]
pub struct Rect {
    pub x: u16,
    pub y: u16,
    pub width: u16,
    pub height: u16,
}

/// The rectangle at (`x`, `y`), with its width and height cut so that its edges
/// are coordinates.
pub open spec fn rect(x: u16, y: u16, width: u16, height: u16) -> Rect {
    Rect {
        x,
        y,
        width: if x + width > u16::MAX {
            (u16::MAX - x) as u16
        } else {
            width
        },
        height: if y + height > u16::MAX {
            (u16::MAX - y) as u16
        } else {
            height
        },
    }
}

impl Rect {
    /// The rectangle at (`x`, `y`), with its width and height cut so that its
    /// edges are coordinates.
    pub fn new(x: u16, y: u16, width: u16, height: u16) -> (r: Rect)
        ensures
            r == rect(x, y, width, height),
    {
        Rect {
            x,
            y,
            width: if width > u16::MAX - x {
                u16::MAX - x
            } else {
                width
            },
            height: if height > u16::MAX - y {
                u16::MAX - y
            } else {
                height
            },
        }
    }
}

/// Columns that a row too narrow for its buttons may take past its left end.
pub const SPILL: u16 = 8;

/// Whether `area` lies inside the coordinates, and so far from the last one that
/// the buttons of a narrow row do, too.
pub open spec fn on_screen(area: Rect) -> bool {
    &&& area.x + area.width < u16::MAX
    &&& area.x + SPILL <= u16::MAX
    &&& area.y + area.height <= u16::MAX
}

/// Whether `part` lies inside `area`.
pub open spec fn inside(part: Rect, area: Rect) -> bool {
    &&& area.x <= part.x
    &&& part.x + part.width <= area.x + area.width
    &&& area.y <= part.y
    &&& part.y + part.height <= area.y + area.height
}

/// Whether every one of `rects` lies inside `area` and is as wide as it.
pub open spec fn rows_inside(rects: Seq<Rect>, area: Rect) -> bool {
    forall|i: int|
        0 <= i < rects.len() ==> inside(#[trigger] rects[i], area) && rects[i].x == area.x
            && rects[i].width == area.width
}

/// Whether every one of `rects` lies inside `area` and is as high as it.
pub open spec fn columns_inside(rects: Seq<Rect>, area: Rect) -> bool {
    forall|i: int|
        0 <= i < rects.len() ==> inside(#[trigger] rects[i], area) && rects[i].y == area.y
            && rects[i].height == area.height
}

/// How long one part of a divided rectangle wants to be.
#[derive(Clone, Copy, Debug, PartialEq, Eq, Structural)]
pub enum Constraint {
    /// Exactly this many cells.
    Length(u16),
    /// At least this many cells.
    Min(u16),
}

/// One constraint of one cell for each of `n` rows.
pub open spec fn single_rows(n: nat) -> Seq<Constraint> {
    Seq::new(n, |i: int| Constraint::Length(1))
}

/// One constraint of one cell for each of `n` rows.
pub fn one_cell_each(n: usize) -> (r: Vec<Constraint>)
    ensures
        r@ == single_rows(n as nat),
{
    let mut r: Vec<Constraint> = Vec::new();
    let mut i: usize = 0;
    while i < n
        invariant
            i <= n,
            r@ =~= single_rows(i as nat),
        decreases n - i,
    {
        r.push(Constraint::Length(1));
        i = i + 1;
    }
    r
}

/// The cells that a part asks for.
pub open spec fn amount(c: Constraint) -> u16 {
    match c {
        Constraint::Length(n) => n,
        Constraint::Min(n) => n,
    }
}

/// The cells that all parts together ask for.
pub open spec fn total(constraints: Seq<Constraint>) -> nat
    decreases constraints.len(),
{
    if constraints.len() == 0 {
        0
    } else {
        total(constraints.drop_last()) + amount(constraints.last()) as nat
    }
}

/// How many parts take what is left over.
pub open spec fn growing(constraints: Seq<Constraint>) -> nat
    decreases constraints.len(),
{
    if constraints.len() == 0 {
        0
    } else {
        growing(constraints.drop_last()) + if constraints.last() is Min {
            1nat
        } else {
            0nat
        }
    }
}

/// The most parts, the most of them that take what is left over, and the largest
/// amount, for which it is stated what the layout solver does with parts that
/// fit.
pub const MOST_PARTS: u16 = 1000;

pub const MOST_GROWING: u16 = 3;

pub const LARGEST_AMOUNT: u16 = 32767;

/// Whether the parts fit into `size` cells that start at `start`.
pub open spec fn fits(constraints: Seq<Constraint>, start: u16, size: u16) -> bool {
    &&& constraints.len() <= MOST_PARTS
    &&& growing(constraints) <= MOST_GROWING
    &&& total(constraints) <= size
    &&& start + size <= u16::MAX
    &&& forall|i: int|
        0 <= i < constraints.len() ==> amount(#[trigger] constraints[i]) <= LARGEST_AMOUNT
}

/// Whether a part of `size` cells has what it asks for.
pub open spec fn grants(c: Constraint, size: u16) -> bool {
    match c {
        Constraint::Length(n) => size == n,
        Constraint::Min(n) => size >= n,
    }
}

/// Whether any part takes what is left over.
pub open spec fn fills(constraints: Seq<Constraint>) -> bool {
    exists|i: int| 0 <= i < constraints.len() && (#[trigger] constraints[i]) is Min
}

/// Whether part `i` starts where the part above it ends.
pub open spec fn right_below(rects: Seq<Rect>, i: int) -> bool {
    rects[i].y == rects[i - 1].y + rects[i - 1].height
}

/// Whether part `i` starts where the part left of it ends.
pub open spec fn right_beside(rects: Seq<Rect>, i: int) -> bool {
    rects[i].x == rects[i - 1].x + rects[i - 1].width
}

/// Whether the parts stand one right below the other from the top of `area` on,
/// each with what it asks for, and down to the bottom if any part takes what is
/// left over.
pub open spec fn stacked(area: Rect, constraints: Seq<Constraint>, rects: Seq<Rect>) -> bool {
    &&& rects.len() > 0 ==> rects[0].y == area.y
    &&& forall|i: int| 0 < i < rects.len() ==> #[trigger] right_below(rects, i)
    &&& forall|i: int|
        0 <= i < rects.len() ==> grants(constraints[i], (#[trigger] rects[i]).height)
    &&& fills(constraints) ==> rects.last().y + rects.last().height == area.y + area.height
}

/// Whether the parts stand side by side from the left end of `area` on, each
/// with what it asks for, and up to the right end if any part takes what is left
/// over.
pub open spec fn lined_up(area: Rect, constraints: Seq<Constraint>, rects: Seq<Rect>) -> bool {
    &&& rects.len() > 0 ==> rects[0].x == area.x
    &&& forall|i: int| 0 < i < rects.len() ==> #[trigger] right_beside(rects, i)
    &&& forall|i: int|
        0 <= i < rects.len() ==> grants(constraints[i], (#[trigger] rects[i]).width)
    &&& fills(constraints) ==> rects.last().x + rects.last().width == area.x + area.width
}

/// `rects` is a way in which the layout solver divides `area`, from top to
/// bottom, into one part for each of `constraints`. The solver may choose
/// between several ways, so this is a relation and no function.
pub uninterp spec fn solves_rows(
    area: Rect,
    constraints: Seq<Constraint>,
    rects: Seq<Rect>,
) -> bool;

/// `rects` is a way in which the layout solver divides `area`, from left to
/// right, into one part for each of `constraints`.
pub uninterp spec fn solves_columns(
    area: Rect,
    constraints: Seq<Constraint>,
    rects: Seq<Rect>,
) -> bool;

/// `rects` are rows of `area`, one for each of `constraints`, as the layout
/// solver divides it: inside `area`, and stacked where all of them fit.
pub open spec fn divides_into_rows(
    area: Rect,
    constraints: Seq<Constraint>,
    rects: Seq<Rect>,
) -> bool {
    &&& solves_rows(area, constraints, rects)
    &&& rects.len() == constraints.len()
    &&& rows_inside(rects, area)
    &&& fits(constraints, area.y, area.height) ==> stacked(area, constraints, rects)
}

/// `rects` are columns of `area`, one for each of `constraints`, as the layout
/// solver divides it: inside `area`, and side by side where all of them fit.
pub open spec fn divides_into_columns(
    area: Rect,
    constraints: Seq<Constraint>,
    rects: Seq<Rect>,
) -> bool {
    &&& solves_columns(area, constraints, rects)
    &&& rects.len() == constraints.len()
    &&& columns_inside(rects, area)
    &&& fits(constraints, area.x, area.width) ==> lined_up(area, constraints, rects)
}

/// One row of `area` for each of `constraints`, from top to bottom.
///
/// Calls `ratatui::layout::Layout::vertical(..).split(..)`. Stated of the
/// result: it is one of the solver's ways to divide `area`; it has one
/// rectangle per constraint; each lies inside `area` and spans its whole width;
/// and where the constraints fit, and at most three of them are `Min`, the parts
/// stand one below the other without a gap, `Length` gets what it asks for,
/// `Min` no less, and what is left over goes to the `Min` parts. Not stated:
/// what the solver does where the constraints do not fit, or how several `Min`
/// parts share what is left over, for it walks hash maps whose order is not
/// fixed.
#[verifier::external_body]
pub(crate) fn split_rows(area: Rect, constraints: &Vec<Constraint>) -> (rects: Vec<Rect>)
    ensures
        solves_rows(area, constraints@, rects@),
        divides_into_rows(area, constraints@, rects@),
{
    let parts = constraints.iter().map(|c| match c {
        Constraint::Length(n) => ratatui::layout::Constraint::Length(*n),
        Constraint::Min(n) => ratatui::layout::Constraint::Min(*n),
    });
    ratatui::layout::Layout::vertical(parts)
        .split(ratatui::layout::Rect { x: area.x, y: area.y, width: area.width, height: area.height })
        .iter()
        .map(|r| Rect { x: r.x, y: r.y, width: r.width, height: r.height })
        .collect()
}

/// One column of `area` for each of `constraints`, from left to right.
///
/// Calls `ratatui::layout::Layout::horizontal(..).split(..)`. Stated of the
/// result: it is one of the solver's ways to divide `area`; it has one
/// rectangle per constraint; each lies inside `area` and spans its whole height;
/// and where the constraints fit, and at most three of them are `Min`, the parts
/// stand side by side without a gap, `Length` gets what it asks for, `Min` no
/// less, and what is left over goes to the `Min` parts. Not stated: what the
/// solver does where the constraints do not fit, or how several `Min` parts
/// share what is left over, for it walks hash maps whose order is not fixed.
#[verifier::external_body]
pub(crate) fn split_columns(area: Rect, constraints: &Vec<Constraint>) -> (rects: Vec<Rect>)
    ensures
        solves_columns(area, constraints@, rects@),
        divides_into_columns(area, constraints@, rects@),
{
    let parts = constraints.iter().map(|c| match c {
        Constraint::Length(n) => ratatui::layout::Constraint::Length(*n),
        Constraint::Min(n) => ratatui::layout::Constraint::Min(*n),
    });
    ratatui::layout::Layout::horizontal(parts)
        .split(ratatui::layout::Rect { x: area.x, y: area.y, width: area.width, height: area.height })
        .iter()
        .map(|r| Rect { x: r.x, y: r.y, width: r.width, height: r.height })
        .collect()
}

// ---- Parts that fit ----

/// Parts ask for as much together as apart, and as many of them grow.
pub proof fn totals_add_up(a: Seq<Constraint>, b: Seq<Constraint>)
    ensures
        total(a + b) == total(a) + total(b),
        growing(a + b) == growing(a) + growing(b),
    decreases b.len(),
{
    if b.len() == 0 {
        assert(a + b =~= a);
    } else {
        assert((a + b).drop_last() =~= a + b.drop_last());
        totals_add_up(a, b.drop_last());
    }
}

/// Rows of one cell each ask for as many cells as there are rows, and none of
/// them grows.
pub proof fn single_rows_ask_for_one_cell_each(n: nat)
    ensures
        total(single_rows(n)) == n,
        growing(single_rows(n)) == 0,
    decreases n,
{
    if n > 0 {
        assert(single_rows(n).drop_last() =~= single_rows((n - 1) as nat));
        single_rows_ask_for_one_cell_each((n - 1) as nat);
    }
}

/// Where the parts fit, none lies over another.
pub proof fn rows_that_fit_do_not_overlap(
    area: Rect,
    constraints: Seq<Constraint>,
    rects: Seq<Rect>,
    i: int,
    j: int,
)
    requires
        divides_into_rows(area, constraints, rects),
        fits(constraints, area.y, area.height),
        0 <= i < j < rects.len(),
    ensures
        rects[i].y + rects[i].height <= rects[j].y,
    decreases j,
{
    assert(right_below(rects, j));
    if i < j - 1 {
        rows_that_fit_do_not_overlap(area, constraints, rects, i, j - 1);
    }
}

/// Where the parts fit and the first `n` are rows of one cell, these are the
/// first `n` rows of `area`.
pub proof fn single_rows_come_first(
    area: Rect,
    constraints: Seq<Constraint>,
    rects: Seq<Rect>,
    n: int,
    i: int,
)
    requires
        divides_into_rows(area, constraints, rects),
        fits(constraints, area.y, area.height),
        n <= constraints.len(),
        forall|k: int| 0 <= k < n ==> #[trigger] constraints[k] == Constraint::Length(1),
        0 <= i < n,
    ensures
        rects[i].y == area.y + i,
        rects[i] == (Rect { x: area.x, y: (area.y + i) as u16, width: area.width, height: 1 }),
    decreases i,
{
    assert(grants(constraints[i], rects[i].height));
    if i > 0 {
        assert(right_below(rects, i));
        single_rows_come_first(area, constraints, rects, n, i - 1);
    }
}

/// Where the parts fit and one takes what is left over, a last row of one cell
/// is the last row of `area`.
pub proof fn a_last_row_is_at_the_bottom(
    area: Rect,
    constraints: Seq<Constraint>,
    rects: Seq<Rect>,
)
    requires
        divides_into_rows(area, constraints, rects),
        fits(constraints, area.y, area.height),
        fills(constraints),
        constraints.last() == Constraint::Length(1),
    ensures
        rects.last() == (Rect {
            x: area.x,
            y: (area.y + area.height - 1) as u16,
            width: area.width,
            height: 1,
        }),
{
    assert(grants(constraints[constraints.len() - 1], rects[rects.len() - 1].height));
}

} // verus!
