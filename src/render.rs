use vstd::prelude::*;
use crate::buffer::Buffer;
use crate::cache::{after_read, entry_of, page_range, search_entry, starts_fetch, AppState, FetchResult};
use crate::filters::{FilterList, FilterListEvent};
use crate::fmt::{push_decimal, to_decimal};
use crate::focus::{FocusState, ScrollState};
use crate::geometry::Rect;
use crate::help::help_database;
use crate::input::MouseButton;
use crate::scroll::{Scroll, ScrollEvent};
use crate::style::{Color, Style};
use crate::tabber::{Tabber, TabberEvent};
use crate::text::CJKText;
use crate::ui::{filter_counts, PendingUIEvent, Tab, UIState, SELECTS};
use crate::widgets::{draw_border, inner, ViewingEntry, Widget};
use tui::layout::{Constraint, Direction, Layout};

verus! {

/// Relies on tui's `Layout::split`: one rectangle per constraint (kind 0: a fixed
/// length, 1: a minimum, 2: a percentage). Which rectangles come out is left open:
/// the solver may pick any of several optimal layouts.
#[verifier::external_body]
fn split_layout(area: Rect, vertical: bool, cs: &Vec<(u8, u16)>) -> (r: Vec<Rect>)
    requires
        area.x + area.width <= u16::MAX,
        area.y + area.height <= u16::MAX,
        forall|i: int| 0 <= i < cs@.len() ==> #[trigger] cs@[i].0 <= 2,
        forall|i: int| 0 <= i < cs@.len() && cs@[i].0 == 2 ==> cs@[i].1 * (if vertical { area.height } else { area.width }) <= u16::MAX,
    ensures
        r@.len() == cs@.len(),
{
    let constraints: Vec<Constraint> = cs.iter().map(|c| match c.0 {
        0 => Constraint::Length(c.1),
        1 => Constraint::Min(c.1),
        _ => Constraint::Percentage(c.1),
    }).collect();
    let dir = if vertical { Direction::Vertical } else { Direction::Horizontal };
    let a = tui::layout::Rect::new(area.x, area.y, area.width, area.height);
    Layout::default().direction(dir).constraints(constraints).split(a).iter().map(|r| Rect { x: r.x, y: r.y, width: r.width, height: r.height }).collect()
}

/// Whether `area` can be laid out: its edges fit the coordinate range.
pub open spec fn fits(area: Rect) -> bool {
    area.x + area.width <= u16::MAX && area.y + area.height <= u16::MAX
}

fn fits_exec(area: Rect) -> (r: bool)
    ensures
        r == fits(area),
{
    (area.x as u32 + area.width as u32) <= 65535 && (area.y as u32 + area.height as u32) <= 65535
}

/// Splits `area` into two parts; where the solver cannot be asked (percentages past
/// the coordinate range), the whole area goes to the first part.
fn split2(area: Rect, vertical: bool, a: (u8, u16), b: (u8, u16)) -> (r: (Rect, Rect))
{
    let mut cs: Vec<(u8, u16)> = Vec::new();
    cs.push(a);
    cs.push(b);
    let dim: u32 = if vertical { area.height as u32 } else { area.width as u32 };
    let (av, bv, d) = (a.1 as u64, b.1 as u64, dim as u64);
    assert(av * d <= 65535 * 65535) by (nonlinear_arith)
        requires av <= 65535, d <= 65535;
    assert(bv * d <= 65535 * 65535) by (nonlinear_arith)
        requires bv <= 65535, d <= 65535;
    if fits_exec(area) && a.0 <= 2 && b.0 <= 2 && (a.0 != 2 || av * d <= 65535) && (b.0 != 2 || bv * d <= 65535) {
        let v = split_layout(area, vertical, &cs);
        (v[0], v[1])
    } else {
        (area, Rect::new(area.x, area.y, 0, 0))
    }
}

/// The pending click, when it lands inside `area`.
pub open spec fn click_in(pending: Option<PendingUIEvent>, area: Rect) -> Option<(u16, u16, MouseButton)> {
    match pending {
        Some(PendingUIEvent::Click(x, y, b)) => if area.contains_spec(x as int, y as int) { Some((x, y, b)) } else { None },
        _ => None,
    }
}

fn clicked(pending: Option<PendingUIEvent>, area: Rect) -> (r: Option<(u16, u16, MouseButton)>)
    ensures
        r == click_in(pending, area),
{
    match pending {
        Some(PendingUIEvent::Click(x, y, b)) => if area.contains(x, y) { Some((x, y, b)) } else { None },
        _ => None,
    }
}

/// Applies a scroll event to an offset; hands back the child picked by a click.
pub fn apply_scroll(ev: Option<ScrollEvent>, state: &mut ScrollState) -> (r: Option<usize>)
    ensures
        ev matches Some(ScrollEvent::ScrollTo(p)) ==> final(state).scroll == p && r is None,
        ev == Some(ScrollEvent::ScrollUp) ==> final(state).scroll == crate::focus::clamp_offset(old(state).scroll - 1) && r is None,
        ev == Some(ScrollEvent::ScrollDown) ==> final(state).scroll == crate::focus::clamp_offset(old(state).scroll + 1) && r is None,
        ev matches Some(ScrollEvent::Sub(i)) ==> *final(state) == *old(state) && r == Some(i),
        ev is None ==> *final(state) == *old(state) && r is None,
{
    match ev {
        Some(ScrollEvent::ScrollTo(p)) => state.set(p),
        Some(ScrollEvent::ScrollUp) => state.delta(-1),
        Some(ScrollEvent::ScrollDown) => state.delta(1),
        Some(ScrollEvent::Sub(i)) => { return Some(i); },
        None => {},
    }
    None
}

/// What a click on the tab bar does: select the tab under it (the last one for an
/// index past the end), close it, or scroll the bar by a column.
pub open spec fn tab_click_effect(ev: Option<TabberEvent>, u0: UIState, u1: UIState) -> bool {
    match ev {
        Some(TabberEvent::Select(i)) => u1.tabs == u0.tabs && u1.pending == u0.pending && (u0.tabs@.len() > 0 ==> u1.tab == (
        if i >= u0.tabs@.len() { u0.tabs@.len() - 1 } else { i as int })),
        Some(TabberEvent::Close(i)) => (i < u0.tabs@.len() ==> u1.tabs@ == u0.tabs@.remove(i as int)) && (i >= u0.tabs@.len()
            ==> u1.tabs == u0.tabs) && u1.pending == (if u1.tabs@.len() == 0 { Some(PendingUIEvent::Quit) } else { u0.pending }),
        Some(TabberEvent::ScrollLeft) => u1.tabs == u0.tabs && u1.tab == u0.tab && u1.pending == u0.pending
            && u1.tab_scroll.scroll == crate::focus::clamp_offset(u0.tab_scroll.scroll - 1),
        Some(TabberEvent::ScrollRight) => u1.tabs == u0.tabs && u1.tab == u0.tab && u1.pending == u0.pending
            && u1.tab_scroll.scroll == crate::focus::clamp_offset(u0.tab_scroll.scroll + 1),
        None => u1.tabs == u0.tabs && u1.tab == u0.tab && u1.pending == u0.pending,
    }
}

/// Acts on a click on the tab bar: select or close the tab under it, or scroll the bar.
pub fn route_tab_click(ui: &mut UIState, ev: Option<TabberEvent>)
    requires
        old(ui).wf(),
    ensures
        final(ui).wf(),
        final(ui).command == old(ui).command,
        tab_click_effect(ev, *old(ui), *final(ui)),
{
    match ev {
        Some(TabberEvent::Select(i)) => if ui.tabs.len() > 0 { ui.select_tab(i) },
        Some(TabberEvent::Close(i)) => ui.close_tab(i),
        Some(TabberEvent::ScrollLeft) => ui.tab_scroll.delta(-1),
        Some(TabberEvent::ScrollRight) => ui.tab_scroll.delta(1),
        None => {},
    }
}

/// Acts on a click on card `i` of the collection: a second click on the focused card
/// within the double-click time opens its detail tab, any other click focuses it.
pub fn route_card_click(ui: &mut UIState, i: usize, double: bool, id: u64)
    requires
        old(ui).wf(),
    ensures
        final(ui).wf(),
        final(ui).command == old(ui).command,
        final(ui).pending == old(ui).pending,
        final(ui).tabs@.len() >= old(ui).tabs@.len(),
        (old(ui).focus.focus == Some(i) && double) ==> final(ui).focus == old(ui).focus
            && final(ui).tab == (if crate::ui::first_subject_tab(old(ui).tabs@, id) >= 0 {
                crate::ui::first_subject_tab(old(ui).tabs@, id)
            } else if old(ui).tabs@.len() == 0 { 0 } else { old(ui).tab + 1 }),
        !(old(ui).focus.focus == Some(i) && double) ==> final(ui).focus.focus == crate::focus::clamp_focus(Some(i), old(ui).focus.limit)
            && final(ui).tabs == old(ui).tabs && final(ui).tab == old(ui).tab,
{
    if ui.focus.get() == Some(i) && double {
        ui.goto_detail(id);
    } else {
        ui.focus.set(Some(i));
    }
}

fn boxed(area: Rect, buf: &mut Buffer) -> (r: Rect)
    requires
        old(buf).wf(),
    ensures
        final(buf).wf(),
        final(buf).area == old(buf).area,
        fits(r),
{
    if area.width >= 1 && area.height >= 1 && fits_exec(area) {
        draw_border(area, Style::plain(), buf);
        inner(area)
    } else {
        Rect::new(0, 0, 0, 0)
    }
}

/// Draws the glyph `sym` at `(x, y)`, keeping that cell's style.
fn joint(x: u16, y: u16, sym: &str, buf: &mut Buffer)
    requires
        old(buf).wf(),
    ensures
        final(buf).wf(),
        final(buf).area == old(buf).area,
{
    crate::widgets::SingleCell::new(sym).draw(Rect::new(x, y, 1, 1), buf);
}

/// A box under the tab bar: its top line is the tab bar's bottom line, joined at
/// both ends.
fn boxed_below(area: Rect, buf: &mut Buffer) -> (r: Rect)
    requires
        old(buf).wf(),
    ensures
        final(buf).wf(),
        final(buf).area == old(buf).area,
        fits(r),
{
    if area.y == 0 || area.width == 0 || !fits_exec(area) {
        return boxed(area, buf);
    }
    let raised = Rect::new(area.x, area.y - 1, area.width, area.height + 1);
    let r = boxed(raised, buf);
    joint(area.x, area.y - 1, "├", buf);
    joint(area.x + area.width - 1, area.y - 1, "┤", buf);
    r
}

fn plain_run(t: &str) -> (r: (String, Style))
{
    (String::from_str(t), Style::plain())
}

fn styled_run(t: &str, st: Style) -> (r: (String, Style))
{
    (String::from_str(t), st)
}

fn join_comma(tags: &Vec<String>) -> (r: String)
{
    let mut r = String::new();
    let mut i: usize = 0;
    while i < tags.len()
        decreases tags@.len() - i,
    {
        if i > 0 {
            r.append(", ");
        }
        r.append(tags[i].as_str());
        i = i + 1;
    }
    r
}

/// What drawing tab `t` reads from the cache, taking it from `a0` to `a1`: the
/// collection for the collection tab, the record and then the subject for a detail
/// tab, the page of results for a result tab, nothing for a search tab.
pub open spec fn view_reads(t: Tab, a0: AppState, a1: AppState) -> bool {
    match t {
        Tab::Collection => a1.collection == after_read(a0.collection, a0.next_ticket) && a1.subject == a0.subject
            && a1.collection_detail == a0.collection_detail && a1.search == a0.search,
        Tab::Subject { id, .. } => {
            let e = entry_of(a0.collection_detail@, id);
            let t1 = if starts_fetch(e) { a0.next_ticket.wrapping_add(1) } else { a0.next_ticket };
            &&& entry_of(a1.collection_detail@, id) == after_read(e, a0.next_ticket)
            &&& entry_of(a1.subject@, id) == after_read(entry_of(a0.subject@, id), t1)
            &&& a1.collection == a0.collection
            &&& a1.search == a0.search
        },
        Tab::Search { .. } => a1 == a0,
        Tab::SearchResult { search, index, .. } => {
            let e = search_entry(a0.search@, search@, index);
            &&& a1.collection == a0.collection
            &&& a1.subject == a0.subject
            &&& a1.collection_detail == a0.collection_detail
            &&& starts_fetch(e) ==> a1.requests@.len() == a0.requests@.len() + 1 && (a1.requests@.last() matches crate::cache::Request::Search { query, page, .. } && query@ == search@ && page == index)
            &&& !starts_fetch(e) ==> a1.requests == a0.requests
        },
    }
}

/// One paint: draws the interface for `ui` and `app` into a grid over `size`, then
/// acts on the pending pointer event against what was drawn; a pending request to
/// bring a row into view moves the offset of the list it names.
pub fn paint(ui: &mut UIState, app: &mut AppState, size: Rect, double: bool) -> (buf: Buffer)
    requires
        old(ui).wf(),
        size.width * size.height <= usize::MAX,
    ensures
        buf.wf(),
        buf.area == size,
        final(ui).wf(),
        final(ui).command == old(ui).command,
        crate::reducer::quit_if_empty(*old(ui)) ==> crate::reducer::quit_if_empty(*final(ui)),
        !(old(ui).pending matches Some(PendingUIEvent::Click(_, _, _))) ==> final(ui).tabs@.len() == old(ui).tabs@.len(),
        (old(ui).tabs@.len() > 0 && !(old(ui).pending matches Some(PendingUIEvent::Click(_, _, _)))) ==> view_reads(
            old(ui).tabs@[old(ui).tab as int], *old(app), *final(app)),
{
    let pending = ui.pending;
    let mut buf = Buffer::empty(size);
    let primary = if ui.help && ui.tabs.len() > 0 {
        let (main, side) = split2(size, false, (2, 80), (2, 20));
        let area = if side.x < 65535 { side.padding_left(1) } else { side };
        let mut scroll = Scroll::with(ui.help_scroll);
        let db = help_database();
        let mut i: usize = 0;
        while i < db.len()
            invariant
                ui.wf(),
                ui.tabs@.len() > 0,
                scroll.content@.len() <= i,
            decreases db@.len() - i,
        {
            if db[i].pred(ui) {
                scroll.push(Widget::Text(db[i].text()));
            }
            i = i + 1;
        }
        scroll.set_bound(area);
        ui.help_scroll = scroll.get_scroll();
        if (scroll.content.len() as u64) < 0x1_0000_0000u64 {
            scroll.draw(area, &mut buf);
        }
        if let Some((x, y, b)) = clicked(pending, area) {
            let _ = apply_scroll(scroll.intercept(x, y, b), &mut ui.help_scroll);
        }
        main
    } else {
        size
    };
    let (top, rest) = split2(primary, true, (0, 3), (1, 0));
    let (main, status_row) = split2(rest, true, (1, 0), (0, 1));

    let tab_inner = boxed(top, &mut buf);
    if top.width > 2 && top.height > 0 && top.x < 65535 {
        CJKText::new("bgmTTY").draw(Rect::new(top.x + 1, top.y, top.width - 2, 1), &mut buf);
    }
    let mut titles: Vec<String> = Vec::new();
    let mut i: usize = 0;
    while i < ui.tabs.len()
        decreases ui.tabs@.len() - i,
    {
        titles.push(ui.tabs[i].disp());
        i = i + 1;
    }
    let mut tabber = Tabber::with(titles, ui.tab_scroll).select(ui.tab);
    tabber.set_bound(tab_inner);
    tabber.cap_bound();
    if pending == Some(PendingUIEvent::KBTabSelect) {
        tabber.scroll_into_view(ui.tab);
    }
    ui.tab_scroll = tabber.get_scroll();
    tabber.draw(tab_inner, &mut buf);
    if let Some((x, y, b)) = clicked(pending, tab_inner) {
        route_tab_click(ui, tabber.intercept(x, y, b));
    }

    let status = match ui.command.prompt() {
        Some(p) => p,
        None => if ui.needs_help() { String::from_str("按 h 可以打开帮助哦") } else { app.last_message() },
    };
    if status_row.x < 65535 {
        CJKText::new(status.as_str()).draw(status_row.padding_hoz(1), &mut buf);
    }

    if ui.tabs.len() == 0 {
        return buf;
    }
    let t = ui.tab;
    match &ui.tabs[t] {
        Tab::Collection => collection(ui, app, main, pending, double, &mut buf),
        Tab::Search { text } => {
            let area = boxed_below(main, &mut buf);
            let hint = if text.as_str().unicode_len() == 0 {
                CJKText::new("按 e 或 Enter 开始输入，然后双击 Enter 搜索")
            } else {
                let mut h = CJKText::new(text.as_str());
                h.set_style(Style::plain().fg(Color::White));
                h
            };
            hint.draw(area, &mut buf);
        },
        Tab::Subject { id, scroll } => {
            let (id, state) = (*id, *scroll);
            subject(ui, app, id, state, main, pending, &mut buf);
        },
        Tab::SearchResult { search, index, scroll, focus } => {
            let (search, index, state, focus) = (search.clone(), *index, *scroll, *focus);
            results(ui, app, search, index, state, focus, main, pending, double, &mut buf);
        },
    }
    buf
}

fn collection(ui: &mut UIState, app: &mut AppState, main: Rect, pending: Option<PendingUIEvent>, double: bool, buf: &mut Buffer)
    requires
        old(ui).wf(),
        old(ui).tabs@.len() > 0,
        old(buf).wf(),
    ensures
        view_reads(Tab::Collection, *old(app), *final(app)),
        final(ui).wf(),
        final(ui).tabs@.len() > 0,
        final(ui).command == old(ui).command,
        !(pending matches Some(PendingUIEvent::Click(_, _, _))) ==> final(ui).tabs@.len() == old(ui).tabs@.len(),
        final(buf).wf(),
        final(buf).area == old(buf).area,
{
    let (left, right) = split2(main, false, (1, 20), (2, 100));
    let b = boxed_below(left, buf);
    let filter_area = if b.x as u32 + 1 <= 65535 { b.padding_hoz(1) } else { b };
    let mut names: Vec<String> = Vec::new();
    let mut flags: Vec<bool> = Vec::new();
    let mut k: usize = 0;
    while k < 3
        decreases 3 - k,
    {
        names.push(String::from_str(SELECTS[k].disp()));
        flags.push(ui.filters[k]);
        k = k + 1;
    }
    let collection = app.fetch_collection().into_option();
    let mut filters = FilterList::with(names, flags);
    if let Some(entries) = &collection {
        filters = filters.counting(filter_counts(entries));
    }
    filters.set_bound(filter_area);
    filters.draw(filter_area, buf);
    if let Some((x, y, btn)) = clicked(pending, filter_area) {
        if let Some(FilterListEvent::Toggle(i)) = filters.intercept(x, y, btn) {
            ui.toggle_filter(i, &collection);
        }
    }
    let area = if right.x > 0 && right.y > 0 && right.width > 0 && fits_exec(right) {
        let r = boxed(Rect::new(right.x - 1, right.y - 1, right.width + 1, right.height + 1), buf);
        joint(right.x - 1, right.y - 1, "┬", buf);
        joint(right.x - 1, right.y + right.height - 1, "┴", buf);
        joint(right.x + right.width - 1, right.y - 1, "┤", buf);
        r
    } else {
        boxed(right, buf)
    };
    if collection.is_none() {
        CJKText::new("Loading...").draw(area, buf);
        return;
    }
    let shown = ui.do_filter(&collection);
    ui.focus.set_limit(shown.len());
    let mut scroll = Scroll::with(ui.scroll);
    let mut i: usize = 0;
    while i < shown.len()
        invariant
            scroll.content@.len() == i,
            i <= shown@.len(),
        decreases shown@.len() - i,
    {
        let mut card = ViewingEntry::with_coll(&shown[i]);
        card.select(ui.focus.get() == Some(i));
        scroll.push(Widget::Entry(card));
        i = i + 1;
    }
    scroll.set_bound(area);
    if let Some(PendingUIEvent::ScrollIntoView(i)) = pending {
        scroll.scroll_into_view(i);
    }
    ui.scroll = scroll.get_scroll();
    if (scroll.content.len() as u64) < 0x1_0000_0000u64 {
        scroll.draw(area, buf);
    }
    if let Some((x, y, b)) = clicked(pending, area) {
        if let Some(i) = apply_scroll(scroll.intercept(x, y, b), &mut ui.scroll) {
            if i < shown.len() {
                route_card_click(ui, i, double, shown[i].subject.id);
            }
        }
    }
}

fn subject(ui: &mut UIState, app: &mut AppState, id: u64, state: ScrollState, main: Rect, pending: Option<PendingUIEvent>, buf: &mut Buffer)
    requires
        old(ui).wf(),
        old(ui).tabs@.len() > 0,
        old(buf).wf(),
    ensures
        view_reads(Tab::Subject { id, scroll: state }, *old(app), *final(app)),
        final(ui).wf(),
        final(ui).tabs@.len() > 0,
        final(ui).command == old(ui).command,
        !(pending matches Some(PendingUIEvent::Click(_, _, _))) ==> final(ui).tabs@.len() == old(ui).tabs@.len(),
        final(buf).wf(),
        final(buf).area == old(buf).area,
{
    let b = boxed_below(main, buf);
    let area = if b.x < 65535 { b.padding_left(1) } else { b };
    let detail = app.fetch_collection_detail(id);
    let subject = app.fetch_subject(id);
    let (detail, subject) = match detail.join(subject) {
        FetchResult::Direct(pair) => pair,
        FetchResult::Deferred => {
            let mut m = String::from_str("猫咪检索中... ID: ");
            push_decimal(&mut m, id);
            CJKText::new(m.as_str()).draw(area, buf);
            return;
        },
    };
    let blue = Style::plain().fg(Color::Blue);
    let mut scroll = Scroll::with(state);
    let mut head: Vec<(String, Style)> = Vec::new();
    head.push((subject.name.clone(), Style::plain().fg(Color::Yellow)));
    head.push(plain_run("\n"));
    head.push((subject.name_cn.clone(), Style::plain().fg(Color::White)));
    head.push(plain_run("\n\n"));
    head.push((subject.summary.clone(), Style::plain()));
    head.push(plain_run("\n\n"));
    scroll.push(Widget::Text(CJKText::raw(head)));
    match detail {
        Some(d) => {
            let score = if d.rating == 0 { String::from_str("未评分") } else {
                let mut s = to_decimal(d.rating as u64);
                s.append(" / 10");
                s
            };
            let mut runs: Vec<(String, Style)> = Vec::new();
            runs.push(styled_run("状态: ", blue));
            runs.push(plain_run(d.status.disp()));
            runs.push(plain_run("\n"));
            runs.push(styled_run("评分: ", blue));
            runs.push((score, Style::plain()));
            runs.push(plain_run("\n"));
            runs.push(styled_run("标签: ", blue));
            runs.push((join_comma(&d.tag), Style::plain()));
            runs.push(plain_run("\n\n"));
            runs.push(styled_run("评论: ", blue));
            scroll.push(Widget::Text(CJKText::raw(runs)));
            scroll.push(Widget::Text(CJKText::new(d.comment.as_str())));
        },
        None => {
            let mut runs: Vec<(String, Style)> = Vec::new();
            runs.push(styled_run("状态: ", blue));
            runs.push(plain_run("没打算"));
            scroll.push(Widget::Text(CJKText::raw(runs)));
        },
    }
    scroll.set_bound(area);
    scroll.draw(area, buf);
    let mut st = scroll.get_scroll();
    if let Some((x, y, b)) = clicked(pending, area) {
        let _ = apply_scroll(scroll.intercept(x, y, b), &mut st);
    }
    let t = ui.tab;
    ui.tabs.set(t, Tab::Subject { id, scroll: st });
}

fn results(
    ui: &mut UIState,
    app: &mut AppState,
    search: String,
    index: usize,
    state: ScrollState,
    focus: FocusState,
    main: Rect,
    pending: Option<PendingUIEvent>,
    double: bool,
    buf: &mut Buffer,
)
    requires
        old(ui).wf(),
        old(ui).tabs@.len() > 0,
        old(buf).wf(),
    ensures
        view_reads(Tab::SearchResult { search, index, scroll: state, focus }, *old(app), *final(app)),
        final(ui).wf(),
        final(ui).tabs@.len() > 0,
        final(ui).command == old(ui).command,
        !(pending matches Some(PendingUIEvent::Click(_, _, _))) ==> final(ui).tabs@.len() == old(ui).tabs@.len(),
        final(buf).wf(),
        final(buf).area == old(buf).area,
{
    let b = boxed_below(main, buf);
    let area = if b.x < 65535 { b.padding_left(1) } else { b };
    let result = match app.fetch_search(search.as_str(), index) {
        FetchResult::Direct(r) => r,
        FetchResult::Deferred => {
            CJKText::new("Loading...").draw(area, buf);
            return;
        },
    };
    let mut focus = focus;
    focus.set_limit(result.list.len());
    let green = Style::plain().fg(Color::Green);
    let yellow = Style::plain().fg(Color::Yellow);
    let mut scroll = Scroll::with(state);
    let mut head: Vec<(String, Style)> = Vec::new();
    head.push((search.clone(), green));
    head.push(plain_run("\n"));
    if result.count == 0 {
        head.push(plain_run("这里是"));
        head.push(styled_run("没有猫咪", yellow));
        head.push(plain_run("的荒原\n\n是不是越界了?"));
    } else {
        let (first, last) = page_range(result.count, index);
        head.push((to_decimal(result.count as u64), yellow));
        head.push(plain_run(" 结果，"));
        head.push((to_decimal(first as u64), yellow));
        head.push(plain_run(" - "));
        head.push((to_decimal(last as u64), yellow));
        head.push(plain_run("，"));
        head.push((to_decimal(result.list.len() as u64), yellow));
        head.push(plain_run(" 可见"));
    }
    scroll.push(Widget::Text(CJKText::raw(head)));
    let mut i: usize = 0;
    while i < result.list.len()
        invariant
            scroll.content@.len() == i + 1,
            i <= result.list@.len(),
        decreases result.list@.len() - i,
    {
        let mut card = ViewingEntry::with_subject(&result.list[i]);
        card.select(focus.get() == Some(i));
        scroll.push(Widget::Entry(card));
        i = i + 1;
    }
    scroll.set_bound(area);
    if let Some(PendingUIEvent::ScrollIntoView(i)) = pending {
        scroll.scroll_into_view(i.saturating_add(1));
    }
    let mut st = scroll.get_scroll();
    if (scroll.content.len() as u64) < 0x1_0000_0000u64 {
        scroll.draw(area, buf);
    }
    let mut target: Option<u64> = None;
    if let Some((x, y, b)) = clicked(pending, area) {
        if let Some(i) = apply_scroll(scroll.intercept(x, y, b), &mut st) {
            if i > 0 && i - 1 < result.list.len() {
                if focus.get() == Some(i - 1) && double {
                    target = Some(result.list[i - 1].id);
                } else {
                    focus.set(Some(i - 1));
                }
            }
        }
    }
    let t = ui.tab;
    ui.tabs.set(t, Tab::SearchResult { search, index, scroll: st, focus });
    if let Some(id) = target {
        ui.goto_detail(id);
    }
}

} // verus!
