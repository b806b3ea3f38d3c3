use ratatui::layout::{Constraint, Direction, Layout, Rect};
use vstd::prelude::*;

verus! {

/// Cells per grid division along one side.
pub const CELL_SPAN: u32 = 25;

/// Lengths below this are split by remainder rather than by quotient.
pub const SMALL_LEN: u32 = 100;

/// The number of colored divisions along a side of `len` cells.
pub open spec fn divisions(len: u32) -> u32 {
    if len < SMALL_LEN {
        (len % CELL_SPAN) as u32
    } else {
        (len / CELL_SPAN) as u32
    }
}

/// A rectangle of terminal cells: its top left corner and its size.
#[derive(Clone, Copy, Debug, PartialEq, Eq, Structural)]
pub struct Area {
    pub x: u16,
    pub y: u16,
    pub width: u16,
    pub height: u16,
}

/// The direction along which an area is divided.
#[derive(Clone, Copy, Debug, PartialEq, Eq, Structural)]
pub enum Axis {
    /// Side by side: columns.
    Horizontal,
    /// Stacked: rows.
    Vertical,
}

/// `n` equal shares of one `n`-th each.
pub open spec fn even_ratios(n: u32) -> Seq<(u32, u32)> {
    Seq::new(n as nat, |i: int| (1u32, n))
}

/// The `parts` equal parts that ratatui's layout solver cuts `area` into
/// along `axis`.
pub uninterp spec fn even_split(area: Area, parts: u32, axis: Axis) -> Seq<Area>;

/// Relies on ratatui's Layout::split with Constraint::from_ratios over
/// `parts` shares of one `parts`-th each: one part per share, in order.
#[verifier::external_body]
fn split_evenly(area: Area, ratios: &Vec<(u32, u32)>, parts: u32, axis: Axis) -> (r: Vec<Area>)
    requires
        ratios@ == even_ratios(parts),
    ensures
        r@ == even_split(area, parts, axis),
        r@.len() == parts,
{
    let direction = match axis {
        Axis::Horizontal => Direction::Horizontal,
        Axis::Vertical => Direction::Vertical,
    };
    let rect = Rect { x: area.x, y: area.y, width: area.width, height: area.height };
    Layout::default()
        .direction(direction)
        .constraints(Constraint::from_ratios(ratios.iter().copied()))
        .split(rect)
        .iter()
        .map(|p| Area { x: p.x, y: p.y, width: p.width, height: p.height })
        .collect()
}

/// The cells of the wall for `area`: the columns that an even split of the
/// area gives, each split evenly into rows.
pub open spec fn wall_cells(area: Area) -> Seq<Seq<Area>> {
    let columns = even_split(area, divisions(area.width as u32), Axis::Horizontal);
    Seq::new(columns.len(), |i: int| even_split(columns[i], divisions(area.height as u32), Axis::Vertical))
}

/// The wall of randomly colored cells that fills the screen.
#[derive(Clone, Copy, Debug, PartialEq, Eq, Structural)]
pub struct ColorWall;

impl ColorWall {
    /// The number of divisions along a side of `len` cells.
    pub fn limit_size(len: u32) -> (r: u32)
        ensures
            r == divisions(len),
    {
        if len < SMALL_LEN {
            len % CELL_SPAN
        } else {
            len / CELL_SPAN
        }
    }

    /// The number of columns and rows of the grid for an area of `width` by
    /// `height` cells.
    pub fn column_and_row(width: u16, height: u16) -> (r: (u32, u32))
        ensures
            r == (divisions(width as u32), divisions(height as u32)),
    {
        (Self::limit_size(width as u32), Self::limit_size(height as u32))
    }

    /// `n` equal shares of one `n`-th each.
    fn even(n: u32) -> (r: Vec<(u32, u32)>)
        ensures
            r@ == even_ratios(n),
    {
        let mut r: Vec<(u32, u32)> = Vec::new();
        let mut i: u32 = 0;
        while i < n
            invariant
                i <= n,
                r@ == Seq::new(i as nat, |k: int| (1u32, n)),
            decreases n - i,
        {
            r.push((1, n));
            i = i + 1;
            assert(r@ =~= Seq::new(i as nat, |k: int| (1u32, n)));
        }
        assert(r@ =~= even_ratios(n));
        r
    }

    /// The grid of the wall for `area`: one list of cells per column, each
    /// column divided into the same number of rows.
    pub fn layout(area: Area) -> (r: Vec<Vec<Area>>)
        ensures
            r@.len() == divisions(area.width as u32),
            forall|i: int| 0 <= i < r@.len() ==> (#[trigger] r@[i])@ == wall_cells(area)[i],
            forall|i: int| 0 <= i < r@.len() ==> (#[trigger] r@[i])@.len() == divisions(area.height as u32),
    {
        let (column, row) = Self::column_and_row(area.width, area.height);
        let col_ratios = Self::even(column);
        let row_ratios = Self::even(row);
        let columns = split_evenly(area, &col_ratios, column, Axis::Horizontal);
        let mut r: Vec<Vec<Area>> = Vec::new();
        let mut i: usize = 0;
        while i < columns.len()
            invariant
                i <= columns@.len(),
                columns@ == even_split(area, column, Axis::Horizontal),
                row_ratios@ == even_ratios(row),
                column == divisions(area.width as u32),
                row == divisions(area.height as u32),
                r@.len() == i,
                forall|j: int| 0 <= j < i ==> (#[trigger] r@[j])@ == wall_cells(area)[j],
                forall|j: int| 0 <= j < i ==> (#[trigger] r@[j])@.len() == row,
            decreases columns@.len() - i,
        {
            let cells = split_evenly(columns[i], &row_ratios, row, Axis::Vertical);
            r.push(cells);
            i = i + 1;
        }
        r
    }
}

} // verus!
