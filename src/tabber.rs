use vstd::prelude::*;
use crate::buffer::{Buffer, Cell, written};
use crate::focus::ScrollState;
use crate::geometry::Rect;
use crate::input::MouseButton;
use crate::scroll::{capped_offset, into_view_offset};
use crate::style::{Color, Style};
use crate::text::{CJKText, display_width, paint, runs_glyphs, sat16, sum_widths};
use crate::widgets::Cells;

verus! {

/// What a pointer event on the tab bar means.
#[derive(Clone, Copy, Debug, PartialEq, Eq, Structural)]
pub enum TabberEvent {
    Select(usize),
    Close(usize),
    ScrollLeft,
    ScrollRight,
}

/// A row of tab titles, two columns apart, scrolled horizontally.
pub struct Tabber {
    pub tabs: Vec<String>,
    pub selected: Option<usize>,
    pub bound: Rect,
    pub scroll: ScrollState,
}

/// Columns a title takes.
pub open spec fn label_width(l: Seq<char>) -> int {
    sat16(display_width(l) as int)
}

/// Columns the first `n` titles take, with their gaps.
pub open spec fn spans(ls: Seq<String>, n: int) -> int
    decreases n,
{
    if n <= 0 {
        0
    } else {
        spans(ls, n - 1) + label_width(ls[n - 1]@) + 2
    }
}

/// Index of the first title whose span reaches past column `dx`, among the first `n`, or -1.
pub open spec fn tab_at(ls: Seq<String>, dx: int, n: int) -> int
    decreases n,
{
    if n <= 0 {
        -1
    } else {
        let r = tab_at(ls, dx, n - 1);
        if r >= 0 {
            r
        } else if spans(ls, n) > dx {
            n - 1
        } else {
            -1
        }
    }
}

proof fn lemma_tab_at_prefix(ls: Seq<String>, dx: int, n: int, m: int)
    requires
        0 < n <= m,
        tab_at(ls, dx, n) >= 0,
    ensures
        tab_at(ls, dx, m) == tab_at(ls, dx, n),
    decreases m - n,
{
    if n < m {
        lemma_tab_at_prefix(ls, dx, n, m - 1);
    }
}

proof fn lemma_spans_nonneg(ls: Seq<String>, n: int)
    ensures
        spans(ls, n) >= 0,
    decreases n,
{
    if n > 0 {
        lemma_spans_nonneg(ls, n - 1);
    }
}

fn title_width(l: &String) -> (r: u16)
    ensures
        r == label_width(l@),
{
    let t = CJKText::new(l.as_str());
    let r = t.oneline_min_width();
    assert(t.run_widths@.len() == 1);
    assert(t.run_widths@[0] == sat16(display_width(l@) as int));
    assert(sum_widths(t.run_widths@.drop_last()) == 0);
    assert(t.run_widths@.last() == t.run_widths@[0]);
    r
}

impl Tabber {
    pub fn with(tabs: Vec<String>, scroll: ScrollState) -> (r: Tabber)
        ensures
            r.tabs@ == tabs@,
            r.selected is None,
            r.scroll == scroll,
            r.bound == (Rect { x: 0, y: 0, width: 0, height: 0 }),
    {
        Tabber { tabs, selected: None, bound: Rect::new(0, 0, 0, 0), scroll }
    }

    /// The bar with tab `index` highlighted.
    pub fn select(self, index: usize) -> (r: Tabber)
        ensures
            r.selected == Some(index),
            r.tabs@ == self.tabs@,
            r.scroll == self.scroll,
            r.bound == self.bound,
    {
        Tabber { tabs: self.tabs, selected: Some(index), bound: self.bound, scroll: self.scroll }
    }

    pub fn set_bound(&mut self, area: Rect)
        ensures
            final(self).bound == area,
            final(self).tabs == old(self).tabs,
            final(self).selected == old(self).selected,
            final(self).scroll == old(self).scroll,
    {
        self.bound = area;
    }

    /// The current offset.
    pub fn get_scroll(&self) -> (r: ScrollState)
        ensures
            r == self.scroll,
    {
        self.scroll
    }

    fn start_of(&self, n: usize) -> (r: u16)
        requires
            n <= self.tabs@.len(),
        ensures
            r == sat16(spans(self.tabs@, n as int)),
    {
        let mut acc: u16 = 0;
        let mut i: usize = 0;
        while i < n
            invariant
                0 <= i <= n <= self.tabs@.len(),
                acc == sat16(spans(self.tabs@, i as int)),
                spans(self.tabs@, i as int) >= 0,
            decreases n - i,
        {
            let w = title_width(&self.tabs[i]);
            acc = acc.saturating_add(w).saturating_add(2);
            i = i + 1;
        }
        acc
    }

    /// Columns all titles take, with their gaps, capped at the largest coordinate.
    pub fn inner_width(&self) -> (r: u16)
        ensures
            r == sat16(spans(self.tabs@, self.tabs@.len() as int)),
    {
        self.start_of(self.tabs.len())
    }

    /// Brings the offset back inside the titles for the current bound.
    pub fn cap_bound(&mut self)
        ensures
            final(self).tabs == old(self).tabs,
            final(self).bound == old(self).bound,
            final(self).selected == old(self).selected,
            final(self).scroll.scroll == capped_offset(
                sat16(spans(old(self).tabs@, old(self).tabs@.len() as int)),
                old(self).bound.width as int,
                old(self).scroll.scroll as int,
            ),
    {
        let tot = self.inner_width();
        let vw = self.bound.width;
        if tot <= vw {
            self.scroll.set(0);
        } else if tot as u32 <= vw as u32 + self.scroll.get() as u32 {
            self.scroll.set(tot - vw);
        }
    }

    /// Scrolls so that title `index` (the last, for an index past the end) shows.
    pub fn scroll_into_view(&mut self, index: usize)
        ensures
            final(self).tabs == old(self).tabs,
            final(self).bound == old(self).bound,
            final(self).selected == old(self).selected,
            old(self).tabs@.len() == 0 ==> final(self).scroll == old(self).scroll,
            old(self).tabs@.len() > 0 ==> ({
                let i = if index >= old(self).tabs@.len() { old(self).tabs@.len() - 1 } else { index as int };
                let start = sat16(spans(old(self).tabs@, i));
                let end = sat16(start + label_width(old(self).tabs@[i]@) + 2);
                final(self).scroll.scroll == into_view_offset(start, end, old(self).scroll.scroll as int, old(self).bound.width as int)
            }),
    {
        let n = self.tabs.len();
        if n == 0 {
            return;
        }
        let index = if index >= n { n - 1 } else { index };
        let start = self.start_of(index);
        let end = start.saturating_add(title_width(&self.tabs[index])).saturating_add(2);
        let off = self.scroll.get();
        let vw = self.bound.width;
        let new_offset = if start < off {
            start
        } else if end as u32 > off as u32 + vw as u32 {
            end - vw
        } else {
            off
        };
        self.scroll.set(new_offset);
    }

    /// What a pointer event at column `x` means: wheel turns scroll; a left click
    /// selects the title under it and a middle click closes it.
    #[verifier::loop_isolation(false)]
    pub fn intercept(&self, x: u16, _y: u16, btn: MouseButton) -> (r: Option<TabberEvent>)
        ensures
            btn == MouseButton::WheelUp ==> r == Some(TabberEvent::ScrollLeft),
            btn == MouseButton::WheelDown ==> r == Some(TabberEvent::ScrollRight),
            (btn == MouseButton::Left || btn == MouseButton::Middle) ==> ({
                let i = tab_at(self.tabs@, x - self.bound.x + self.scroll.scroll, self.tabs@.len() as int);
                if x < self.bound.x || i < 0 {
                    r is None
                } else if btn == MouseButton::Left {
                    r == Some(TabberEvent::Select(i as usize))
                } else {
                    r == Some(TabberEvent::Close(i as usize))
                }
            }),
            btn == MouseButton::Right ==> r is None,
    {
        match btn {
            MouseButton::WheelUp => { return Some(TabberEvent::ScrollLeft); },
            MouseButton::WheelDown => { return Some(TabberEvent::ScrollRight); },
            MouseButton::Right => { return None; },
            _ => {},
        }
        if x < self.bound.x {
            return None;
        }
        let dx: u32 = (x - self.bound.x) as u32 + self.scroll.get() as u32;
        let mut counter: u32 = 0;
        let mut i: usize = 0;
        while i < self.tabs.len()
            invariant
                0 <= i <= self.tabs@.len(),
                counter == spans(self.tabs@, i as int),
                counter <= dx,
                dx <= 2 * 65535,
                tab_at(self.tabs@, dx as int, i as int) < 0,
            decreases self.tabs@.len() - i,
        {
            let w = title_width(&self.tabs[i]);
            counter = counter + w as u32 + 2;
            if counter > dx {
                proof { lemma_tab_at_prefix(self.tabs@, dx as int, i + 1, self.tabs@.len() as int); }
                return if btn == MouseButton::Left { Some(TabberEvent::Select(i)) } else { Some(TabberEvent::Close(i)) };
            }
            i = i + 1;
        }
        None
    }
}

/// The runs of a title: green when selected.
pub open spec fn title_runs(l: Seq<char>, sel: bool) -> Seq<(Seq<char>, Style)> {
    seq![(l, if sel { Style { fg: Some(Color::Green), bold: false } } else { Style::plain_spec() })]
}

/// The cells of a title drawn on its own, `width` wide and `h` tall.
pub open spec fn title_cells(l: Seq<char>, sel: bool, width: int, h: int) -> Cells {
    let r = Rect { x: 0, y: 0, width: width as u16, height: h as u16 };
    paint(crate::scroll::blank(width * h), r, r, runs_glyphs(title_runs(l, sel)))
}

/// Cells, and whether only continuation cells were met so far, after copying columns
/// `0 .. n` of row `y` of a title's cells `sub` (`width` wide) placed at bar column `dx`;
/// columns scrolled off the left are skipped, and a continuation cell met before any
/// glyph shows as a blank.
pub open spec fn title_row(cells: Cells, ba: Rect, vp: Rect, sub: Cells, width: int, y: int, dx: int, scroll: int, n: int) -> (Cells, bool)
    decreases n,
{
    if n <= 0 {
        (cells, true)
    } else {
        let (c, st) = title_row(cells, ba, vp, sub, width, y, dx, scroll, n - 1);
        let x = n - 1;
        if x + dx < scroll {
            (c, st)
        } else {
            let cell = sub[y * width + x];
            let tx = x + dx + vp.x - scroll;
            let ty = y + vp.y;
            if st && cell.0.len() == 0 {
                (written(c, ba, tx, ty, (" "@, cell.1)), true)
            } else {
                (written(c, ba, tx, ty, cell), false)
            }
        }
    }
}

/// Cells after copying rows `0 .. n` of a title's cells.
pub open spec fn title_rows(cells: Cells, ba: Rect, vp: Rect, sub: Cells, width: int, dx: int, scroll: int, n: int) -> Cells
    decreases n,
{
    if n <= 0 {
        cells
    } else {
        title_row(title_rows(cells, ba, vp, sub, width, dx, scroll, n - 1), ba, vp, sub, width, n - 1, dx, scroll, width).0
    }
}

/// Cells and the next title's column after drawing the first `n` titles into `vp`
/// scrolled by `scroll`; titles are cut at the right edge, and those past it are dropped.
pub open spec fn bar_paint(cells: Cells, ba: Rect, vp: Rect, ls: Seq<String>, selected: Option<usize>, scroll: int, n: int) -> (Cells, int)
    decreases n,
{
    if n <= 0 {
        (cells, 1)
    } else {
        let (c, dx) = bar_paint(cells, ba, vp, ls, selected, scroll, n - 1);
        let i = n - 1;
        if vp.width + scroll <= dx {
            (c, dx)
        } else {
            let w0 = label_width(ls[i]@);
            let width = if w0 < vp.width + scroll - dx { w0 } else { vp.width + scroll - dx };
            let sel = selected == Some(i as usize);
            (title_rows(c, ba, vp, title_cells(ls[i]@, sel, width, vp.height as int), width, dx, scroll, vp.height as int), dx + width + 2)
        }
    }
}

impl Tabber {
    /// Draws the titles into `vp`, scrolled by the offset, the selected one in green.
    pub fn draw(&self, vp: Rect, buf: &mut Buffer)
        requires
            old(buf).wf(),
        ensures
            final(buf).wf(),
            final(buf).area == old(buf).area,
            final(buf).cells() == bar_paint(old(buf).cells(), old(buf).area, vp, self.tabs@, self.selected, self.scroll.scroll as int, self.tabs@.len() as int).0,
    {
        let scroll: u32 = self.scroll.get() as u32;
        let ghost ba = buf.area;
        let mut dx: u32 = 1;
        let mut i: usize = 0;
        while i < self.tabs.len()
            invariant
                0 <= i <= self.tabs@.len(),
                scroll == self.scroll.scroll,
                buf.wf(),
                buf.area == ba,
                ba == old(buf).area,
                1 <= dx <= vp.width + scroll + 2,
                (buf.cells(), dx as int) == bar_paint(old(buf).cells(), ba, vp, self.tabs@, self.selected, scroll as int, i as int),
            decreases self.tabs@.len() - i,
        {
            if (vp.width as u32) + scroll > dx {
                let w0 = title_width(&self.tabs[i]);
                let room: u32 = vp.width as u32 + scroll - dx;
                let width: u16 = if (w0 as u32) < room { w0 } else { room as u16 };
                let sel = match self.selected { Some(s) => s == i, None => false };
                let style = if sel { Style::plain().fg(Color::Green) } else { Style::plain() };
                let mut runs: Vec<(String, Style)> = Vec::new();
                runs.push((self.tabs[i].clone(), style));
                assert(runs@.map_values(|p: (String, Style)| (p.0@, p.1)) =~= title_runs(self.tabs@[i as int]@, sel));
                let text = CJKText::raw(runs);
                proof { text.lemma_glyphs_of_runs(title_runs(self.tabs@[i as int]@, sel)); }
                let vh = vp.height;
                let area = Rect::new(0, 0, width, vh);
                assert(width * vh <= 65535 * 65535) by (nonlinear_arith)
                    requires width <= 65535, vh <= 65535;
                let mut sub = Buffer::empty(area);
                proof { assert(sub.cells() =~= crate::scroll::blank(width * vh)); }
                text.draw(area, &mut sub);
                let ghost subc = sub.cells();
                assert(subc == title_cells(self.tabs@[i as int]@, sel, width as int, vh as int));
                let ghost base = buf.cells();
                let mut y: u16 = 0;
                while y < vh
                    invariant
                        0 <= y <= vh,
                        vh == vp.height,
                        area == (Rect { x: 0, y: 0, width, height: vh }),
                        sub.wf(),
                        sub.area == area,
                        sub.cells() == subc,
                        buf.wf(),
                        buf.area == ba,
                        dx <= 3 * 65535,
                        scroll <= 65535,
                        dx + width <= vp.width + scroll,
                        buf.cells() == title_rows(base, ba, vp, subc, width as int, dx as int, scroll as int, y as int),
                    decreases vh - y,
                {
                    let ghost row_base = buf.cells();
                    let mut is_start = true;
                    let mut x: u16 = 0;
                    while x < width
                        invariant
                            0 <= x <= width,
                            y < vh,
                            area == (Rect { x: 0, y: 0, width, height: vh }),
                            sub.wf(),
                            sub.area == area,
                            sub.cells() == subc,
                            buf.wf(),
                            buf.area == ba,
                            dx <= 3 * 65535,
                            scroll <= 65535,
                            dx + width <= vp.width + scroll,
                            (buf.cells(), is_start) == title_row(row_base, ba, vp, subc, width as int, y as int, dx as int, scroll as int, x as int),
                        decreases width - x,
                    {
                        if x as u32 + dx >= scroll {
                            let c = sub.get(x, y);
                            proof {
                                crate::buffer::lemma_index_in_bounds(area, x as int, y as int);
                                assert(crate::buffer::cell_index(area, x as int, y as int) == y * width + x);
                            }
                            let tx: u32 = x as u32 + dx + vp.x as u32 - scroll;
                            let ty: u32 = y as u32 + vp.y as u32;
                            if is_start && c.symbol.as_str().unicode_len() == 0 {
                                buf.set(tx, ty, Cell { symbol: String::from_str(" "), style: c.style });
                            } else {
                                buf.set(tx, ty, Cell { symbol: c.symbol.clone(), style: c.style });
                                is_start = false;
                            }
                        }
                        x = x + 1;
                    }
                    y = y + 1;
                }
                dx = dx + width as u32 + 2;
            }
            i = i + 1;
        }
    }
}

} // verus!
