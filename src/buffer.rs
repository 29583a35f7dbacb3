use vstd::prelude::*;
use crate::geometry::Rect;
use crate::style::Style;

verus! {

/// One terminal cell: the glyph drawn there and its style. A wide glyph
/// occupies its own cell plus continuation cells holding an empty symbol.
#[derive(Clone, Debug)]
pub struct Cell {
    pub symbol: String,
    pub style: Style,
}

/// A rectangular grid of cells addressed by absolute coordinates inside `area`,
/// stored row by row.
pub struct Buffer {
    pub area: Rect,
    pub content: Vec<Cell>,
}

/// Position of the cell `(x, y)` in the row-major storage of a grid over `area`.
pub open spec fn cell_index(area: Rect, x: int, y: int) -> int {
    (y - area.y) * area.width + (x - area.x)
}

impl Buffer {
    pub open spec fn wf(&self) -> bool {
        self.content@.len() == self.area.width * self.area.height
    }

    /// The grid's cells as (glyph, style) pairs, row by row.
    pub open spec fn cells(&self) -> Seq<(Seq<char>, Style)> {
        self.content@.map_values(|c: Cell| (c.symbol@, c.style))
    }

    /// The cell at `(x, y)`, meaningful when the cell lies inside the area.
    pub open spec fn cell_at(&self, x: int, y: int) -> Cell {
        self.content@[cell_index(self.area, x, y)]
    }

    /// A grid over `area` filled with blank cells in the default style.
    pub fn empty(area: Rect) -> (r: Buffer)
        requires
            area.width * area.height <= usize::MAX,
        ensures
            r.area == area,
            r.wf(),
            forall|i: int| 0 <= i < r.cells().len() ==> #[trigger] r.cells()[i] == (seq![' '], Style::plain_spec()),
    {
        let n: usize = area.width as usize * area.height as usize;
        let mut content: Vec<Cell> = Vec::new();
        let mut i: usize = 0;
        while i < n
            invariant
                i <= n,
                content@.len() == i,
                forall|j: int| 0 <= j < i ==> #[trigger] content@[j].symbol@ == seq![' '] && content@[j].style == Style::plain_spec(),
            decreases n - i,
        {
            content.push(Cell { symbol: blank_symbol(), style: Style::plain() });
            i = i + 1;
        }
        let r = Buffer { area, content };
        assert forall|i: int| 0 <= i < r.cells().len() implies #[trigger] r.cells()[i] == (seq![' '], Style::plain_spec()) by {
            assert(r.content@[i].symbol@ == seq![' ']);
        }
        r
    }

    /// The cell at `(x, y)`, which must lie inside the area.
    pub fn get(&self, x: u16, y: u16) -> (r: &Cell)
        requires
            self.wf(),
            self.area.contains_spec(x as int, y as int),
        ensures
            *r == self.cell_at(x as int, y as int),
    {
        let _n = self.content.len();
        proof {
            lemma_index_in_bounds(self.area, x as int, y as int);
        }
        let idx = (y - self.area.y) as usize * self.area.width as usize + (x - self.area.x) as usize;
        &self.content[idx]
    }

    /// Writes `cell` at `(x, y)`; a position outside the area is ignored.
    pub fn set(&mut self, x: u32, y: u32, cell: Cell)
        requires
            old(self).wf(),
        ensures
            final(self).wf(),
            final(self).area == old(self).area,
            final(self).cells() == written(old(self).cells(), old(self).area, x as int, y as int, (cell.symbol@, cell.style)),
    {
        let a = self.area;
        if x >= a.x as u32 && y >= a.y as u32 && x < a.x as u32 + a.width as u32 && y < a.y as u32
            + a.height as u32 {
            let _n = self.content.len();
            proof {
                lemma_index_in_bounds(a, x as int, y as int);
            }
            let idx = (y - a.y as u32) as usize * a.width as usize + (x - a.x as u32) as usize;
            let ghost c = (cell.symbol@, cell.style);
            self.content.set(idx, cell);
            assert(self.cells() =~= old(self).cells().update(idx as int, c));
        }
    }
}

/// The cells after writing `c` at `(x, y)` of a grid over `area`; writes outside the area are dropped.
pub open spec fn written(cells: Seq<(Seq<char>, Style)>, area: Rect, x: int, y: int, c: (Seq<char>, Style)) -> Seq<(Seq<char>, Style)> {
    if area.contains_spec(x, y) {
        cells.update(cell_index(area, x, y), c)
    } else {
        cells
    }
}

/// Cells inside the area map into the storage.
pub proof fn lemma_index_in_bounds(area: Rect, x: int, y: int)
    requires
        area.contains_spec(x, y),
    ensures
        0 <= cell_index(area, x, y) < area.width * area.height,
        0 <= (y - area.y) * area.width <= cell_index(area, x, y),
{
    let dy = y - area.y;
    let dx = x - area.x;
    let w = area.width as int;
    let h = area.height as int;
    assert(0 <= dy * w + dx < w * h) by (nonlinear_arith)
        requires
            0 <= dy < h,
            0 <= dx < w,
    {
        assert(dy * w <= (h - 1) * w);
    }
    assert(0 <= dy * w) by (nonlinear_arith)
        requires
            0 <= dy,
            0 <= w,
    ;
}

fn blank_symbol() -> (r: String)
    ensures
        r@ == seq![' '],
{
    let s = String::from_str(" ");
    proof {
        reveal_strlit(" ");
    }
    s
}

} // verus!
