use vstd::prelude::*;
use crate::fmt::{decimal, push_decimal, to_decimal};
use crate::model::{CollectionEntry, SubjectSmall, SubjectType};
use crate::style::{Color, Style};
use crate::buffer::{Buffer, Cell, written};
use crate::geometry::Rect;
use crate::text::{CJKText, metrics, paint, runs_height, sat16, text_height, COORD_MAX};

verus! {

/// A progress bar: `current` of `total` units, the total possibly unknown.
#[derive(Clone, Copy, Debug, PartialEq, Eq, Structural)]
pub struct ViewProgress {
    pub total: Option<u64>,
    pub current: u64,
}

/// The caption of a progress bar: `current / total`, or `current / ?`.
pub open spec fn hint_text(total: Option<u64>, current: u64) -> Seq<char> {
    decimal(current as nat) + " / "@ + match total {
        Some(t) => decimal(t as nat),
        None => "?"@,
    }
}

/// Number of unit cells a progress bar shows: the total, or one past the
/// current count when the total is unknown.
pub open spec fn unit_cells(total: Option<u64>, current: u64) -> int {
    sat16(
        match total {
            Some(t) => t as int,
            None => current + 1,
        },
    )
}

/// `a / b` rounded up.
pub open spec fn div_ceil(a: int, b: int) -> int {
    (a + b - 1) / b
}

impl ViewProgress {
    pub fn new(total: Option<u64>, current: u64) -> (r: ViewProgress)
        ensures
            r == (ViewProgress { total, current }),
    {
        ViewProgress { total, current }
    }

    /// The caption of the bar.
    pub fn text_hint(&self) -> (r: String)
        ensures
            r@ == hint_text(self.total, self.current),
    {
        let mut s = to_decimal(self.current);
        s.append(" / ");
        match self.total {
            Some(t) => push_decimal(&mut s, t),
            None => s.append("?"),
        }
        s
    }

    /// Number of unit cells shown.
    pub fn cells(&self) -> (r: u16)
        ensures
            r == unit_cells(self.total, self.current),
    {
        let n: u64 = match self.total {
            Some(t) => t,
            None => self.current.saturating_add(1),
        };
        if n > 65535 {
            COORD_MAX
        } else {
            n as u16
        }
    }

    pub open spec fn height_spec(&self, width: int) -> int {
        if width == 0 {
            0
        } else {
            sat16(
                runs_height(seq![(hint_text(self.total, self.current), Style::plain_spec())], width)
                    + div_ceil(unit_cells(self.total, self.current), width),
            )
        }
    }

    /// Rows taken at `width` columns: the caption, then the unit cells wrapped to the width.
    pub fn height(&self, width: u16) -> (r: u16)
        ensures
            r == self.height_spec(width as int),
    {
        if width == 0 {
            return 0;
        }
        let hint = self.text_hint();
        let text = CJKText::new(hint.as_str());
        proof {
            text.lemma_metrics_of_runs(seq![(hint@, Style::plain_spec())]);
        }
        let th = text.height(width);
        let n = self.cells();
        let rows: u32 = (n as u32 + width as u32 - 1) / width as u32;
        let total: u32 = th as u32 + rows;
        if total > 65535 {
            COORD_MAX
        } else {
            total as u16
        }
    }
}

/// What clicking an entry card means: the card was clicked.
#[derive(Clone, Copy, Debug, PartialEq, Eq, Structural)]
pub enum ViewingEntryEvent {
    Click,
}

/// A card showing a subject, with the user's progress when it is in the collection.
pub struct ViewingEntry {
    pub subject: SubjectSmall,
    pub coll: Option<CollectionEntry>,
    pub selected: bool,
}

/// The progress a card shows: volumes for a book, episodes otherwise.
pub open spec fn progress_of(subject: SubjectSmall, coll: Option<CollectionEntry>) -> Option<ViewProgress> {
    match coll {
        Some(c) => Some(
            if subject.subject_type == SubjectType::Book {
                ViewProgress { total: subject.vols_count, current: c.vol_status }
            } else {
                ViewProgress { total: subject.eps_count, current: c.ep_status }
            },
        ),
        None => None,
    }
}

/// The title runs of a card: kind and id, a blank line, the name and the translated name.
pub open spec fn title_runs(s: SubjectSmall) -> Seq<(Seq<char>, Style)> {
    seq![
        (kind_label(s.subject_type), Style { fg: Some(Color::Blue), bold: false }),
        (" "@, Style::plain_spec()),
        (decimal(s.id as nat), Style::plain_spec()),
        ("\n\n"@, Style::plain_spec()),
        (s.name@, Style { fg: Some(Color::Yellow), bold: false }),
        ("\n"@, Style::plain_spec()),
        (s.name_cn@, Style { fg: Some(Color::White), bold: false }),
    ]
}

/// The label of a collection status.
pub open spec fn status_label(s: crate::model::CollectionStatus) -> Seq<char> {
    match s {
        crate::model::CollectionStatus::Wished => "打算做"@,
        crate::model::CollectionStatus::Doing => "在做了"@,
        crate::model::CollectionStatus::Done => "完成！"@,
        crate::model::CollectionStatus::OnHold => "摸了"@,
        crate::model::CollectionStatus::Dropped => "没得了"@,
    }
}

/// The label of a subject kind.
pub open spec fn kind_label(t: SubjectType) -> Seq<char> {
    match t {
        SubjectType::Anime => "动画骗"@,
        SubjectType::Book => "书籍"@,
        SubjectType::Real => "三次元"@,
        SubjectType::Game => "游戏"@,
        SubjectType::Music => "音乐"@,
    }
}

impl ViewingEntry {
    /// A card for an entry of the collection, with its progress.
    pub fn with_coll(ent: &CollectionEntry) -> (r: ViewingEntry)
        ensures
            r.subject == ent.subject,
            r.coll == Some(*ent),
            !r.selected,
    {
        ViewingEntry { subject: ent.subject.duplicate(), coll: Some(ent.duplicate()), selected: false }
    }

    /// A card for a subject outside the collection.
    pub fn with_subject(sub: &SubjectSmall) -> (r: ViewingEntry)
        ensures
            r.subject == *sub,
            r.coll is None,
            !r.selected,
    {
        ViewingEntry { subject: sub.duplicate(), coll: None, selected: false }
    }

    pub fn select(&mut self, s: bool)
        ensures
            final(self).selected == s,
            final(self).subject == old(self).subject,
            final(self).coll == old(self).coll,
    {
        self.selected = s;
    }

    /// The progress the card shows, if the subject is in the collection.
    pub fn progress(&self) -> (r: Option<ViewProgress>)
        ensures
            r == progress_of(self.subject, self.coll),
    {
        match &self.coll {
            Some(c) => Some(
                if self.subject.subject_type == SubjectType::Book {
                    ViewProgress::new(self.subject.vols_count, c.vol_status)
                } else {
                    ViewProgress::new(self.subject.eps_count, c.ep_status)
                },
            ),
            None => None,
        }
    }

    /// The title text of the card.
    pub fn apply_text(&self) -> (r: CJKText)
        ensures
            r.holds_runs(title_runs(self.subject)),
    {
        let mut runs: Vec<(String, Style)> = Vec::new();
        let kind = self.subject.subject_type.disp();
        runs.push((String::from_str(kind), Style::plain().fg(Color::Blue)));
        runs.push((String::from_str(" "), Style::plain()));
        runs.push((to_decimal(self.subject.id), Style::plain()));
        runs.push((String::from_str("\n\n"), Style::plain()));
        runs.push((self.subject.name.clone(), Style::plain().fg(Color::Yellow)));
        runs.push((String::from_str("\n"), Style::plain()));
        runs.push((self.subject.name_cn.clone(), Style::plain().fg(Color::White)));
        let ghost rv = runs@.map_values(|p: (String, Style)| (p.0@, p.1));
        assert(rv =~= title_runs(self.subject));
        CJKText::raw(runs)
    }

    pub open spec fn height_spec(&self, width: int) -> int {
        if width <= 2 {
            0
        } else {
            sat16(
                2 + runs_height(title_runs(self.subject), width - 2) + match progress_of(self.subject, self.coll) {
                    Some(p) => p.height_spec(width - 2) + 1,
                    None => 0,
                },
            )
        }
    }

    /// Rows taken at `width` columns: a border row above and below, the title,
    /// and the progress bar after a blank row.
    pub fn height(&self, width: u16) -> (r: u16)
        ensures
            r == self.height_spec(width as int),
    {
        if width <= 2 {
            return 0;
        }
        let text = self.apply_text();
        proof {
            text.lemma_metrics_of_runs(title_runs(self.subject));
        }
        let th = text.height(width - 2);
        let ph: u32 = match self.progress() {
            Some(p) => p.height(width - 2) as u32 + 1,
            None => 0,
        };
        let total: u32 = 2 + th as u32 + ph;
        if total > 65535 {
            COORD_MAX
        } else {
            total as u16
        }
    }

    /// A click anywhere on the card.
    pub fn intercept(&self, _x: u16, _y: u16, _btn: crate::input::MouseButton) -> (r: Option<ViewingEntryEvent>)
        ensures
            r == Some(ViewingEntryEvent::Click),
    {
        Some(ViewingEntryEvent::Click)
    }
}

/// A child of a scroll container.
pub enum Widget {
    Text(CJKText),
    Entry(ViewingEntry),
}

impl Widget {
    pub open spec fn height_spec(&self, width: int) -> int {
        match self {
            Widget::Text(t) => crate::text::text_height(crate::text::metrics(t.tokens@), width),
            Widget::Entry(e) => e.height_spec(width),
        }
    }

    /// Rows the child takes at `width` columns.
    pub fn height(&self, width: u16) -> (r: u16)
        ensures
            r == self.height_spec(width as int),
    {
        match self {
            Widget::Text(t) => t.height(width),
            Widget::Entry(e) => e.height(width),
        }
    }
}

/// Cells as (glyph, style) pairs.
pub type Cells = Seq<(Seq<char>, Style)>;

/// Cells after writing `(sym, st)` on the `n` cells right of `(x, y)`, from left to right.
pub open spec fn hline(cells: Cells, ba: Rect, x: int, y: int, n: int, sym: Seq<char>, st: Style) -> Cells
    decreases n,
{
    if n <= 0 {
        cells
    } else {
        written(hline(cells, ba, x, y, n - 1, sym, st), ba, x + n - 1, y, (sym, st))
    }
}

/// Cells after writing `(sym, st)` on the `n` cells below `(x, y)`, from top to bottom.
pub open spec fn vline(cells: Cells, ba: Rect, x: int, y: int, n: int, sym: Seq<char>, st: Style) -> Cells
    decreases n,
{
    if n <= 0 {
        cells
    } else {
        written(vline(cells, ba, x, y, n - 1, sym, st), ba, x, y + n - 1, (sym, st))
    }
}

/// Cells after drawing a box along the edges of `area`: the left, top, right and
/// bottom lines, then the four corners.
pub open spec fn border(cells: Cells, ba: Rect, area: Rect, st: Style) -> Cells {
    let (x, y, w, h) = (area.x as int, area.y as int, area.width as int, area.height as int);
    let c1 = vline(cells, ba, x, y, h, "│"@, st);
    let c2 = hline(c1, ba, x, y, w, "─"@, st);
    let c3 = vline(c2, ba, x + w - 1, y, h, "│"@, st);
    let c4 = hline(c3, ba, x, y + h - 1, w, "─"@, st);
    let c5 = written(c4, ba, x, y, ("┌"@, st));
    let c6 = written(c5, ba, x + w - 1, y, ("┐"@, st));
    let c7 = written(c6, ba, x, y + h - 1, ("└"@, st));
    written(c7, ba, x + w - 1, y + h - 1, ("┘"@, st))
}

fn symbol(s: &str) -> (r: String)
    ensures
        r@ == s@,
{
    String::from_str(s)
}

fn draw_hline(buf: &mut Buffer, x: u32, y: u32, n: u32, sym: &str, st: Style)
    requires
        old(buf).wf(),
        x + n <= 0x1_0000_0000,
    ensures
        final(buf).wf(),
        final(buf).area == old(buf).area,
        final(buf).cells() == hline(old(buf).cells(), old(buf).area, x as int, y as int, n as int, sym@, st),
{
    let mut k: u32 = 0;
    while k < n
        invariant
            0 <= k <= n,
            x + n <= 0x1_0000_0000,
            buf.wf(),
            buf.area == old(buf).area,
            buf.cells() == hline(old(buf).cells(), old(buf).area, x as int, y as int, k as int, sym@, st),
        decreases n - k,
    {
        buf.set(x + k, y, Cell { symbol: symbol(sym), style: st });
        k = k + 1;
    }
}

fn draw_vline(buf: &mut Buffer, x: u32, y: u32, n: u32, sym: &str, st: Style)
    requires
        old(buf).wf(),
        y + n <= 0x1_0000_0000,
    ensures
        final(buf).wf(),
        final(buf).area == old(buf).area,
        final(buf).cells() == vline(old(buf).cells(), old(buf).area, x as int, y as int, n as int, sym@, st),
{
    let mut k: u32 = 0;
    while k < n
        invariant
            0 <= k <= n,
            y + n <= 0x1_0000_0000,
            buf.wf(),
            buf.area == old(buf).area,
            buf.cells() == vline(old(buf).cells(), old(buf).area, x as int, y as int, k as int, sym@, st),
        decreases n - k,
    {
        buf.set(x, y + k, Cell { symbol: symbol(sym), style: st });
        k = k + 1;
    }
}

/// Draws a box along the edges of `area`.
pub fn draw_border(area: Rect, st: Style, buf: &mut Buffer)
    requires
        old(buf).wf(),
        area.width >= 1,
        area.height >= 1,
    ensures
        final(buf).wf(),
        final(buf).area == old(buf).area,
        final(buf).cells() == border(old(buf).cells(), old(buf).area, area, st),
{
    let x = area.x as u32;
    let y = area.y as u32;
    let w = area.width as u32;
    let h = area.height as u32;
    draw_vline(buf, x, y, h, "│", st);
    draw_hline(buf, x, y, w, "─", st);
    draw_vline(buf, x + w - 1, y, h, "│", st);
    draw_hline(buf, x, y + h - 1, w, "─", st);
    buf.set(x, y, Cell { symbol: symbol("┌"), style: st });
    buf.set(x + w - 1, y, Cell { symbol: symbol("┐"), style: st });
    buf.set(x, y + h - 1, Cell { symbol: symbol("└"), style: st });
    buf.set(x + w - 1, y + h - 1, Cell { symbol: symbol("┘"), style: st });
}

/// The glyph and style of unit cell `i` of a bar at `current`: filled below it, shaded from it on.
pub open spec fn unit_cell(i: int, current: u64) -> (Seq<char>, Style) {
    if i < current {
        ("█"@, Style { fg: Some(Color::White), bold: false })
    } else {
        ("▒"@, Style::plain_spec())
    }
}

/// Cells after drawing the first `n` unit cells of a bar into `vp`, wrapped to its
/// width, below a caption `th` rows tall; cells past the last row are dropped.
pub open spec fn units(cells: Cells, ba: Rect, vp: Rect, th: int, n: int, current: u64) -> Cells
    decreases n,
{
    if n <= 0 || vp.width == 0 {
        cells
    } else {
        let prev = units(cells, ba, vp, th, n - 1, current);
        let i = n - 1;
        let dy = i / (vp.width as int);
        let dx = i % (vp.width as int);
        if dy + th >= vp.height {
            prev
        } else {
            written(prev, ba, vp.x + dx, vp.y + th + dy, unit_cell(i, current))
        }
    }
}

impl ViewProgress {
    /// Cells after drawing the bar into `vp`: the caption, then the unit cells.
    pub open spec fn paint_spec(&self, cells: Cells, ba: Rect, vp: Rect) -> Cells {
        if vp.width == 0 {
            cells
        } else {
            let caption = seq![(hint_text(self.total, self.current), Style::plain_spec())];
            units(
                paint(cells, ba, vp, crate::text::runs_glyphs(caption)),
                ba,
                vp,
                runs_height(caption, vp.width as int),
                unit_cells(self.total, self.current),
                self.current,
            )
        }
    }
}

impl ViewProgress {
    /// Draws the caption into `vp`, then the unit cells below it, wrapped to the
    /// width; unit cells past the last row are dropped.
    pub fn draw(&self, vp: Rect, buf: &mut Buffer)
        requires
            old(buf).wf(),
        ensures
            final(buf).wf(),
            final(buf).area == old(buf).area,
            final(buf).cells() == self.paint_spec(old(buf).cells(), old(buf).area, vp),
    {
        if vp.width == 0 {
            return;
        }
        let hint = self.text_hint();
        let text = CJKText::new(hint.as_str());
        let ghost caption = seq![(hint@, Style::plain_spec())];
        proof {
            text.lemma_glyphs_of_runs(caption);
            text.lemma_metrics_of_runs(caption);
        }
        text.draw(vp, buf);
        let th = text.height(vp.width);
        let n = self.cells();
        let ghost base = buf.cells();
        let w: u32 = vp.width as u32;
        let mut i: u32 = 0;
        while i < n as u32
            invariant
                0 <= i <= n,
                n <= 65535,
                w == vp.width,
                w > 0,
                buf.wf(),
                buf.area == old(buf).area,
                buf.cells() == units(base, old(buf).area, vp, th as int, i as int, self.current),
            decreases n - i,
        {
            let dy = i / w;
            let dx = i % w;
            if dy + (th as u32) < vp.height as u32 {
                let (sym, st) = if (i as u64) < self.current {
                    (symbol("█"), Style::plain().fg(Color::White))
                } else {
                    (symbol("▒"), Style::plain())
                };
                buf.set(vp.x as u32 + dx, vp.y as u32 + th as u32 + dy, Cell { symbol: sym, style: st });
            }
            i = i + 1;
        }
    }
}

/// The rectangle inside a box drawn along the edges of `area`.
pub open spec fn inner_rect(area: Rect) -> Rect {
    if area.width < 2 || area.height < 2 {
        Rect { x: 0, y: 0, width: 0, height: 0 }
    } else {
        Rect { x: (area.x + 1) as u16, y: (area.y + 1) as u16, width: (area.width - 2) as u16, height: (area.height - 2) as u16 }
    }
}

/// The rectangle inside a box drawn along the edges of `area`.
pub fn inner(area: Rect) -> (r: Rect)
    requires
        area.x + area.width <= u16::MAX,
        area.y + area.height <= u16::MAX,
    ensures
        r == inner_rect(area),
{
    if area.width < 2 || area.height < 2 {
        Rect::new(0, 0, 0, 0)
    } else {
        Rect::new(area.x + 1, area.y + 1, area.width - 2, area.height - 2)
    }
}

/// The area left to the progress bar of a card whose inner area is `inner` and
/// whose title takes `occupied` rows with the blank row after it.
pub open spec fn below(inner: Rect, occupied: int) -> Rect {
    Rect {
        x: inner.x,
        y: sat16(inner.y + occupied) as u16,
        width: inner.width,
        height: if inner.height > occupied { (inner.height - occupied) as u16 } else { 0 },
    }
}

impl ViewingEntry {
    /// Cells after drawing the card into `area`: its box (green when selected), the
    /// title inside, and the progress bar below the title after a blank row.
    pub open spec fn paint_spec(&self, cells: Cells, ba: Rect, area: Rect) -> Cells {
        if area.width <= 2 || area.height == 0 {
            cells
        } else {
            let st = if self.selected { Style { fg: Some(Color::Green), bold: false } } else { Style::plain_spec() };
            let inn = inner_rect(area);
            let c1 = paint(border(cells, ba, area, st), ba, inn, crate::text::runs_glyphs(title_runs(self.subject)));
            let occupied = runs_height(title_runs(self.subject), inn.width as int) + 1;
            match progress_of(self.subject, self.coll) {
                Some(p) => p.paint_spec(c1, ba, below(inn, occupied)),
                None => c1,
            }
        }
    }

    /// Draws the card into `area`.
    pub fn draw(&self, area: Rect, buf: &mut Buffer)
        requires
            old(buf).wf(),
            area.x + area.width <= u16::MAX,
            area.y + area.height <= u16::MAX,
        ensures
            final(buf).wf(),
            final(buf).area == old(buf).area,
            final(buf).cells() == self.paint_spec(old(buf).cells(), old(buf).area, area),
    {
        if area.width <= 2 || area.height == 0 {
            return;
        }
        let st = if self.selected { Style::plain().fg(Color::Green) } else { Style::plain() };
        draw_border(area, st, buf);
        let inn = inner(area);
        let text = self.apply_text();
        proof {
            text.lemma_glyphs_of_runs(title_runs(self.subject));
            text.lemma_metrics_of_runs(title_runs(self.subject));
        }
        text.draw(inn, buf);
        let occupied: u32 = text.height(inn.width) as u32 + 1;
        if let Some(p) = self.progress() {
            let y: u32 = inn.y as u32 + occupied;
            let y16: u16 = if y > 65535 { COORD_MAX } else { y as u16 };
            let h: u16 = if inn.height as u32 > occupied { (inn.height as u32 - occupied) as u16 } else { 0 };
            p.draw(Rect::new(inn.x, y16, inn.width, h), buf);
        }
    }
}

impl Widget {
    /// Cells after drawing the child into `area`.
    pub open spec fn paint_spec(&self, cells: Cells, ba: Rect, area: Rect) -> Cells {
        match self {
            Widget::Text(t) => paint(cells, ba, area, crate::text::glyphs(t.tokens@)),
            Widget::Entry(e) => e.paint_spec(cells, ba, area),
        }
    }

    /// Draws the child into `area`.
    pub fn draw(&self, area: Rect, buf: &mut Buffer)
        requires
            old(buf).wf(),
            area.x + area.width <= u16::MAX,
            area.y + area.height <= u16::MAX,
        ensures
            final(buf).wf(),
            final(buf).area == old(buf).area,
            final(buf).cells() == self.paint_spec(old(buf).cells(), old(buf).area, area),
    {
        match self {
            Widget::Text(t) => t.draw(area, buf),
            Widget::Entry(e) => e.draw(area, buf),
        }
    }
}

/// A single glyph, drawn over whatever style the cell has.
pub struct SingleCell {
    pub symbol: String,
}

impl SingleCell {
    pub fn new(symbol: &str) -> (r: SingleCell)
        ensures
            r.symbol@ == symbol@,
    {
        SingleCell { symbol: String::from_str(symbol) }
    }

    /// Puts the glyph in the top-left cell of `vp`, keeping that cell's style.
    pub fn draw(&self, vp: Rect, buf: &mut Buffer)
        requires
            old(buf).wf(),
        ensures
            final(buf).wf(),
            final(buf).area == old(buf).area,
            old(buf).area.contains_spec(vp.x as int, vp.y as int) ==> final(buf).cells() == old(buf).cells().update(
                crate::buffer::cell_index(old(buf).area, vp.x as int, vp.y as int),
                (self.symbol@, old(buf).cells()[crate::buffer::cell_index(old(buf).area, vp.x as int, vp.y as int)].1),
            ),
            !old(buf).area.contains_spec(vp.x as int, vp.y as int) ==> final(buf).cells() == old(buf).cells(),
    {
        if buf.area.contains(vp.x, vp.y) {
            let st = buf.get(vp.x, vp.y).style;
            proof { crate::buffer::lemma_index_in_bounds(buf.area, vp.x as int, vp.y as int); }
            buf.set(vp.x as u32, vp.y as u32, Cell { symbol: self.symbol.clone(), style: st });
        }
    }
}

/// Something that knows how many rows it takes at a given width.
pub trait DynHeight {
    fn height(&self, width: u16) -> u16;
}

impl DynHeight for CJKText {
    fn height(&self, width: u16) -> (r: u16)
        ensures
            r == text_height(metrics(self.tokens@), width as int),
    {
        CJKText::height(self, width)
    }
}

impl DynHeight for ViewProgress {
    fn height(&self, width: u16) -> (r: u16)
        ensures
            r == self.height_spec(width as int),
    {
        ViewProgress::height(self, width)
    }
}

impl DynHeight for ViewingEntry {
    fn height(&self, width: u16) -> (r: u16)
        ensures
            r == self.height_spec(width as int),
    {
        ViewingEntry::height(self, width)
    }
}

impl DynHeight for Widget {
    fn height(&self, width: u16) -> (r: u16)
        ensures
            r == self.height_spec(width as int),
    {
        Widget::height(self, width)
    }
}

} // verus!
