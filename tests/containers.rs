use bgmtty::buffer::Buffer;
use bgmtty::filters::{FilterList, FilterListEvent};
use bgmtty::focus::{FocusState, ScrollState};
use bgmtty::geometry::Rect;
use bgmtty::input::MouseButton;
use bgmtty::scroll::{Scroll, ScrollEvent};
use bgmtty::tabber::{Tabber, TabberEvent};
use bgmtty::text::CJKText;
use bgmtty::widgets::{ViewProgress, Widget};

fn lines(n: usize) -> Widget {
    let mut s = String::new();
    for i in 0..n {
        if i > 0 {
            s.push('\n');
        }
        s.push('x');
    }
    Widget::Text(CJKText::new(&s))
}

fn scroll_of(heights: &[usize], offset: u16) -> Scroll {
    let mut s = Scroll::with(ScrollState { scroll: offset });
    for h in heights {
        s.push(lines(*h));
    }
    s
}

#[test]
fn inner_height_sums_children() {
    let s = scroll_of(&[3, 2, 4], 0);
    assert_eq!(s.inner_height(5), 9);
    assert_eq!(s.inner_height(0), 0);
}

#[test]
fn set_bound_keeps_offset_in_range() {
    for offset in [0u16, 1, 3, 5, 9, 100] {
        for vh in [0u16, 1, 4, 9, 20] {
            let mut s = scroll_of(&[3, 2, 4], offset);
            s.set_bound(Rect::new(0, 0, 6, vh));
            let h: u16 = 9;
            let max = if h > vh { h - vh } else { 0 };
            assert!(s.get_scroll().scroll <= max);
        }
    }
    let mut s = scroll_of(&[3, 2, 4], 7);
    s.set_bound(Rect::new(0, 0, 6, 4));
    assert_eq!(s.get_scroll().scroll, 5);
    let mut s = scroll_of(&[3, 2, 4], 2);
    s.set_bound(Rect::new(0, 0, 6, 4));
    assert_eq!(s.get_scroll().scroll, 2);
    let mut s = scroll_of(&[3, 2, 4], 2);
    s.set_bound(Rect::new(0, 0, 6, 10));
    assert_eq!(s.get_scroll().scroll, 0);
}

#[test]
fn scroll_into_view_shows_the_child() {
    let heights = [3usize, 2, 4, 1, 3];
    for i in 0..heights.len() {
        for offset in 0u16..10 {
            let mut s = scroll_of(&heights, offset);
            s.set_bound(Rect::new(0, 0, 6, 4));
            let before = s.get_scroll().scroll;
            s.scroll_into_view(i);
            let start: usize = heights[..i].iter().sum();
            let end = start + heights[i];
            let off = s.get_scroll().scroll as usize;
            assert!(off <= start);
            assert!(end <= off + 4);
            if start >= before as usize && end <= before as usize + 4 {
                assert_eq!(off, before as usize);
            }
        }
    }
}

#[test]
fn scroll_into_view_past_the_end_uses_the_last_child() {
    let mut s = scroll_of(&[3, 2, 4], 0);
    s.set_bound(Rect::new(0, 0, 6, 4));
    s.scroll_into_view(10);
    assert_eq!(s.get_scroll().scroll, 5);
}

#[test]
fn intercept_maps_pointer_events() {
    let mut s = scroll_of(&[3, 2, 4], 0);
    s.set_bound(Rect::new(10, 20, 6, 4));
    assert_eq!(s.intercept(11, 21, MouseButton::WheelUp), Some(ScrollEvent::ScrollUp));
    assert_eq!(s.intercept(0, 0, MouseButton::WheelDown), Some(ScrollEvent::ScrollDown));
    assert_eq!(s.intercept(11, 20, MouseButton::Left), Some(ScrollEvent::Sub(0)));
    assert_eq!(s.intercept(11, 23, MouseButton::Left), Some(ScrollEvent::Sub(1)));
    assert_eq!(s.intercept(15, 20, MouseButton::Left), Some(ScrollEvent::ScrollTo(0)));
    assert_eq!(s.intercept(15, 23, MouseButton::Left), Some(ScrollEvent::ScrollTo(5)));
    assert_eq!(s.intercept(15, 21, MouseButton::Left), Some(ScrollEvent::ScrollTo(2)));
    let mut s = scroll_of(&[3, 2, 4], 3);
    s.set_bound(Rect::new(10, 20, 6, 4));
    assert_eq!(s.intercept(11, 22, MouseButton::Left), Some(ScrollEvent::Sub(2)));
}

#[test]
fn draw_clips_children_and_shows_the_thumb() {
    let mut s = Scroll::with(ScrollState { scroll: 2 });
    s.push(Widget::Text(CJKText::new("a\nb\nc")));
    s.push(Widget::Text(CJKText::new("d\ne\nf")));
    let area = Rect::new(0, 0, 4, 3);
    s.set_bound(area);
    let mut buf = Buffer::empty(area);
    s.draw(area, &mut buf);
    assert_eq!(buf.get(0, 0).symbol, "c");
    assert_eq!(buf.get(0, 1).symbol, "d");
    assert_eq!(buf.get(0, 2).symbol, "e");
    assert_eq!(buf.get(3, 0).symbol, "│");
    assert_eq!(buf.get(3, 1).symbol, "█");
    assert_eq!(buf.get(3, 2).symbol, "█");
}

#[test]
fn focus_limit_clamps_the_selection() {
    let mut f = FocusState::default();
    f.set_limit(5);
    f.set(Some(4));
    f.set_limit(3);
    assert_eq!(f.get(), Some(2));
    f.set_limit(0);
    assert_eq!(f.get(), None);
    f.set_limit(2);
    f.next();
    assert_eq!(f.get(), Some(0));
    f.next();
    f.next();
    assert_eq!(f.get(), Some(1));
    f.prev();
    f.prev();
    assert_eq!(f.get(), Some(0));
    f.set(Some(usize::MAX));
    assert_eq!(f.get(), Some(1));
}

#[test]
fn scroll_delta_stops_at_zero() {
    let mut s = ScrollState::default();
    s.delta(-3);
    assert_eq!(s.get(), 0);
    s.delta(5);
    assert_eq!(s.get(), 5);
    s.set(65530);
    s.delta(100);
    assert_eq!(s.get(), 65535);
}

#[test]
fn progress_caption_and_height() {
    let p = ViewProgress::new(Some(12), 5);
    assert_eq!(p.text_hint(), "5 / 12");
    assert_eq!(p.height(5), 2 + 3);
    let q = ViewProgress::new(None, 3);
    assert_eq!(q.text_hint(), "3 / ?");
    assert_eq!(q.height(10), 1 + 1);
    assert_eq!(q.height(0), 0);
    let mut buf = Buffer::empty(Rect::new(0, 0, 6, 3));
    p.draw(Rect::new(0, 0, 6, 3), &mut buf);
    assert_eq!(buf.get(0, 1).symbol, "█");
    assert_eq!(buf.get(4, 1).symbol, "█");
    assert_eq!(buf.get(5, 1).symbol, "▒");
    assert_eq!(buf.get(0, 2).symbol, "▒");
}

#[test]
fn tab_bar_hit_testing_and_scrolling() {
    let labels = vec!["格子".to_string(), "搜索".to_string(), "条目: 42".to_string()];
    let mut t = Tabber::with(labels, ScrollState::default()).select(1);
    assert_eq!(t.inner_width(), 6 + 6 + 10);
    t.set_bound(Rect::new(2, 0, 10, 1));
    assert_eq!(t.intercept(2, 0, MouseButton::Left), Some(TabberEvent::Select(0)));
    assert_eq!(t.intercept(8, 0, MouseButton::Middle), Some(TabberEvent::Close(1)));
    assert_eq!(t.intercept(8, 0, MouseButton::Right), None);
    assert_eq!(t.intercept(8, 0, MouseButton::WheelUp), Some(TabberEvent::ScrollLeft));
    t.scroll_into_view(2);
    assert_eq!(t.get_scroll().scroll, 12);
    t.cap_bound();
    assert_eq!(t.get_scroll().scroll, 12);
    let mut buf = Buffer::empty(Rect::new(0, 0, 12, 1));
    let t2 = Tabber::with(vec!["ab".to_string(), "cd".to_string()], ScrollState::default()).select(1);
    t2.draw(Rect::new(0, 0, 12, 1), &mut buf);
    assert_eq!(buf.get(1, 0).symbol, "a");
    assert_eq!(buf.get(5, 0).symbol, "c");
    assert_eq!(buf.get(5, 0).style.fg, Some(bgmtty::style::Color::Green));
}

#[test]
fn tab_bar_blanks_cut_wide_glyphs() {
    let mut buf = Buffer::empty(Rect::new(0, 0, 6, 1));
    let t = Tabber::with(vec!["你好".to_string()], ScrollState { scroll: 2 });
    t.draw(Rect::new(0, 0, 6, 1), &mut buf);
    assert_eq!(buf.get(0, 0).symbol, " ");
    assert_eq!(buf.get(1, 0).symbol, "好");
}

#[test]
fn filter_rows_toggle_on_click() {
    let names = vec!["动画骗".to_string(), "书籍".to_string(), "三次元".to_string()];
    let mut f = FilterList::with(names, vec![true, false, true]).counting(vec![3, 0, 12]);
    f.set_bound(Rect::new(0, 5, 20, 3));
    assert_eq!(f.intercept(0, 5, MouseButton::Left), Some(FilterListEvent::Toggle(0)));
    assert_eq!(f.intercept(0, 7, MouseButton::Left), Some(FilterListEvent::Toggle(2)));
    assert_eq!(f.intercept(0, 9, MouseButton::Left), None);
    let mut buf = Buffer::empty(Rect::new(0, 5, 20, 3));
    f.draw(Rect::new(0, 5, 20, 3), &mut buf);
    assert_eq!(buf.get(0, 5).symbol, "✓");
    assert_eq!(buf.get(0, 6).symbol, "☐");
    assert_eq!(buf.get(2, 7).symbol, "三");
    assert_eq!(buf.get(10, 7).symbol, "1");
}

#[test]
fn thumb_shows_in_a_two_row_viewport() {
    let mut s = Scroll::with(ScrollState { scroll: 2 });
    s.push(lines(8));
    let area = Rect::new(0, 0, 4, 2);
    s.set_bound(area);
    let mut buf = Buffer::empty(area);
    s.draw(area, &mut buf);
    assert_eq!(buf.get(3, 0).symbol, "█");
    assert_eq!(buf.get(3, 1).symbol, "█");
}

#[test]
fn wide_glyphs_are_cut_at_the_area_edge() {
    let t = CJKText::new("你");
    let mut buf = Buffer::empty(Rect::new(0, 0, 3, 2));
    t.draw(Rect::new(0, 0, 1, 2), &mut buf);
    assert_eq!(buf.get(0, 0).symbol, " ");
    assert_eq!(buf.get(0, 1).symbol, "你");
    assert_eq!(buf.get(1, 1).symbol, " ");
}
