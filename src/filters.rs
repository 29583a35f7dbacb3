use vstd::prelude::*;
use crate::buffer::Buffer;
use crate::fmt::{decimal, push_decimal};
use crate::geometry::Rect;
use crate::input::MouseButton;
use crate::style::{Color, Style};
use crate::text::{CJKText, paint, runs_glyphs, runs_height, sat16, COORD_MAX};
use crate::widgets::Cells;

verus! {

/// What a click on the filter list means.
#[derive(Clone, Copy, Debug, PartialEq, Eq, Structural)]
pub enum FilterListEvent {
    Toggle(usize),
}

/// One checkbox row per category: a mark, the label, and a live count when known.
pub struct FilterList {
    pub tabs: Vec<String>,
    pub state: Vec<bool>,
    pub count: Option<Vec<usize>>,
    pub bound: Rect,
}

/// Whether row `i` is checked.
pub open spec fn checked(state: Seq<bool>, i: int) -> bool {
    0 <= i < state.len() && state[i]
}

/// The count shown on row `i`, if any.
pub open spec fn count_of(count: Option<Vec<usize>>, i: int) -> Option<usize> {
    match count {
        Some(c) => if 0 <= i < c@.len() { Some(c@[i]) } else { None },
        None => None,
    }
}

/// The text runs of a row: the label (white when checked), then the count in parentheses.
pub open spec fn row_runs(label: Seq<char>, on: bool, count: Option<usize>) -> Seq<(Seq<char>, Style)> {
    let st = if on { Style { fg: Some(Color::White), bold: false } } else { Style::plain_spec() };
    match count {
        Some(n) => seq![
            (label, st),
            (" "@, Style::plain_spec()),
            ("("@ + decimal(n as nat) + ")"@, Style { fg: Some(Color::Yellow), bold: false }),
        ],
        None => seq![(label, st)],
    }
}

/// The mark of a row.
pub open spec fn mark_runs(on: bool) -> Seq<(Seq<char>, Style)> {
    seq![(if on { "✓"@ } else { "☐"@ }, Style { fg: Some(Color::Red), bold: false })]
}

/// `a - b`, stopping at zero.
pub open spec fn sub0(a: int, b: int) -> int {
    if a > b { a - b } else { 0 }
}

impl FilterList {
    pub fn with(tabs: Vec<String>, state: Vec<bool>) -> (r: FilterList)
        ensures
            r.tabs@ == tabs@,
            r.state@ == state@,
            r.count is None,
            r.bound == (Rect { x: 0, y: 0, width: 0, height: 0 }),
    {
        FilterList { tabs, state, count: None, bound: Rect::new(0, 0, 0, 0) }
    }

    /// The list with counts shown.
    pub fn counting(self, c: Vec<usize>) -> (r: FilterList)
        ensures
            r.tabs@ == self.tabs@,
            r.state@ == self.state@,
            r.count matches Some(v) && v@ == c@,
            r.bound == self.bound,
    {
        FilterList { tabs: self.tabs, state: self.state, count: Some(c), bound: self.bound }
    }

    pub fn set_bound(&mut self, area: Rect)
        ensures
            final(self).bound == area,
            final(self).tabs == old(self).tabs,
            final(self).state == old(self).state,
            final(self).count == old(self).count,
    {
        self.bound = area;
    }

    /// Runs of row `i`.
    pub open spec fn row_spec(&self, i: int) -> Seq<(Seq<char>, Style)> {
        row_runs(self.tabs@[i]@, checked(self.state@, i), count_of(self.count, i))
    }

    fn row_text(&self, i: usize) -> (r: CJKText)
        requires
            i < self.tabs@.len(),
        ensures
            r.holds_runs(self.row_spec(i as int)),
    {
        let on = i < self.state.len() && self.state[i];
        let st = if on { Style::plain().fg(Color::White) } else { Style::plain() };
        let mut runs: Vec<(String, Style)> = Vec::new();
        runs.push((self.tabs[i].clone(), st));
        let c: Option<usize> = match &self.count {
            Some(v) => if i < v.len() { Some(v[i]) } else { None },
            None => None,
        };
        if let Some(n) = c {
            runs.push((String::from_str(" "), Style::plain()));
            let mut t = String::from_str("(");
            push_decimal(&mut t, n as u64);
            t.append(")");
            runs.push((t, Style::plain().fg(Color::Yellow)));
        }
        assert(runs@.map_values(|p: (String, Style)| (p.0@, p.1)) =~= self.row_spec(i as int));
        CJKText::raw(runs)
    }

    /// Rows the list takes above row `n` at text width `w`.
    pub open spec fn rows_above(&self, n: int, w: int) -> int
        decreases n,
    {
        if n <= 0 {
            0
        } else {
            self.rows_above(n - 1, w) + runs_height(self.row_spec(n - 1), w)
        }
    }

    /// Index of the row covering line `dy` of the list at text width `w`, or -1.
    pub open spec fn row_at(&self, dy: int, w: int, n: int) -> int
        decreases n,
    {
        if n <= 0 {
            -1
        } else {
            let r = self.row_at(dy, w, n - 1);
            if r >= 0 {
                r
            } else if self.rows_above(n, w) > dy {
                n - 1
            } else {
                -1
            }
        }
    }

    /// A click on line `y` toggles the row there.
    pub fn intercept(&self, _x: u16, y: u16, _btn: MouseButton) -> (r: Option<FilterListEvent>)
        ensures
            y < self.bound.y ==> r is None,
            y >= self.bound.y ==> ({
                let i = self.row_at(y - self.bound.y, sub0(self.bound.width as int, 2), self.tabs@.len() as int);
                if i >= 0 { r == Some(FilterListEvent::Toggle(i as usize)) } else { r is None }
            }),
    {
        if y < self.bound.y {
            return None;
        }
        let dy: u64 = (y - self.bound.y) as u64;
        let w: u16 = if self.bound.width > 2 { self.bound.width - 2 } else { 0 };
        let mut counter: u64 = 0;
        let mut i: usize = 0;
        while i < self.tabs.len()
            invariant
                0 <= i <= self.tabs@.len(),
                w == sub0(self.bound.width as int, 2),
                counter == self.rows_above(i as int, w as int),
                counter <= dy,
                dy <= 65535,
                self.row_at(dy as int, w as int, i as int) < 0,
                dy == y - self.bound.y,
            decreases self.tabs@.len() - i,
        {
            let text = self.row_text(i);
            proof {
                text.lemma_metrics_of_runs(self.row_spec(i as int));
            }
            let h = text.height(w);
            counter = counter + h as u64;
            if counter > dy {
                proof { lemma_row_at_prefix(self, dy as int, w as int, i + 1, self.tabs@.len() as int); }
                return Some(FilterListEvent::Toggle(i));
            }
            i = i + 1;
        }
        None
    }
}

proof fn lemma_row_at_prefix(f: &FilterList, dy: int, w: int, n: int, m: int)
    requires
        0 < n <= m,
        f.row_at(dy, w, n) >= 0,
    ensures
        f.row_at(dy, w, m) == f.row_at(dy, w, n),
    decreases m - n,
{
    if n < m {
        lemma_row_at_prefix(f, dy, w, n, m - 1);
    }
}

impl FilterList {
    /// Cells after drawing the first `n` rows into `vp`, one below the other: the
    /// mark in the first two columns, the text wrapped to the rest.
    pub open spec fn paint_rows(&self, cells: Cells, ba: Rect, vp: Rect, n: int) -> Cells
        decreases n,
    {
        if n <= 0 {
            cells
        } else {
            let w = sub0(vp.width as int, 2);
            let prev = self.paint_rows(cells, ba, vp, n - 1);
            let y = sat16(vp.y + self.rows_above(n - 1, w)) as u16;
            let c1 = paint(prev, ba, Rect { x: vp.x, y, width: 2, height: 1 }, runs_glyphs(mark_runs(checked(self.state@, n - 1))));
            let h = runs_height(self.row_spec(n - 1), w);
            paint(c1, ba, Rect { x: sat16(vp.x + 2) as u16, y, width: w as u16, height: h as u16 }, runs_glyphs(self.row_spec(n - 1)))
        }
    }

    /// Draws one row per category into `vp`.
    pub fn draw(&self, vp: Rect, buf: &mut Buffer)
        requires
            old(buf).wf(),
        ensures
            final(buf).wf(),
            final(buf).area == old(buf).area,
            final(buf).cells() == self.paint_rows(old(buf).cells(), old(buf).area, vp, self.tabs@.len() as int),
    {
        let w: u16 = if vp.width > 2 { vp.width - 2 } else { 0 };
        let x2: u16 = if vp.x as u32 + 2 > 65535 { COORD_MAX } else { vp.x + 2 };
        let mut dy: u32 = 0;
        let mut i: usize = 0;
        while i < self.tabs.len()
            invariant
                0 <= i <= self.tabs@.len(),
                w == sub0(vp.width as int, 2),
                x2 == sat16(vp.x + 2),
                dy == if self.rows_above(i as int, w as int) > 65536 { 65536 } else { self.rows_above(i as int, w as int) },
                self.rows_above(i as int, w as int) >= 0,
                buf.wf(),
                buf.area == old(buf).area,
                buf.cells() == self.paint_rows(old(buf).cells(), old(buf).area, vp, i as int),
            decreases self.tabs@.len() - i,
        {
            let on = i < self.state.len() && self.state[i];
            let mut runs: Vec<(String, Style)> = Vec::new();
            runs.push((String::from_str(if on { "✓" } else { "☐" }), Style::plain().fg(Color::Red)));
            assert(runs@.map_values(|p: (String, Style)| (p.0@, p.1)) =~= mark_runs(checked(self.state@, i as int)));
            let mark = CJKText::raw(runs);
            let yy: u32 = vp.y as u32 + dy;
            let y: u16 = if yy > 65535 { COORD_MAX } else { yy as u16 };
            proof {
                mark.lemma_glyphs_of_runs(mark_runs(checked(self.state@, i as int)));
            }
            mark.draw(Rect::new(vp.x, y, 2, 1), buf);
            let text = self.row_text(i);
            proof {
                text.lemma_glyphs_of_runs(self.row_spec(i as int));
                text.lemma_metrics_of_runs(self.row_spec(i as int));
                crate::text::lemma_row_range(crate::text::runs_metrics(self.row_spec(i as int)), w as int);
            }
            let h = text.height(w);
            text.draw(Rect::new(x2, y, w, h), buf);
            dy = if dy + h as u32 > 65536 { 65536 } else { dy + h as u32 };
            i = i + 1;
        }
    }
}

} // verus!
