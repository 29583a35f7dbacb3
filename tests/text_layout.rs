use bgmtty::buffer::Buffer;
use bgmtty::geometry::Rect;
use bgmtty::style::{Color, Style};
use bgmtty::text::CJKText;

fn symbol_at(buf: &Buffer, x: u16, y: u16) -> String {
    buf.get(x, y).symbol.clone()
}

#[test]
fn height_counts_wrapped_rows() {
    let t = CJKText::new("abcdef");
    assert_eq!(t.height(4), 2);
    assert_eq!(t.height(6), 1);
    assert_eq!(t.height(1), 6);
}

#[test]
fn wide_glyphs_take_two_columns() {
    let t = CJKText::new("你好");
    assert_eq!(t.oneline_min_width(), 4);
    assert_eq!(t.height(3), 2);
    let mut buf = Buffer::empty(Rect::new(0, 0, 3, 2));
    t.draw(Rect::new(0, 0, 3, 2), &mut buf);
    assert_eq!(symbol_at(&buf, 0, 0), "你");
    assert_eq!(symbol_at(&buf, 1, 0), "");
    assert_eq!(symbol_at(&buf, 2, 0), " ");
    assert_eq!(symbol_at(&buf, 0, 1), "好");
    assert_eq!(symbol_at(&buf, 1, 1), "");
}

#[test]
fn graphemes_are_single_cells() {
    let t = CJKText::new("e\u{301}x");
    assert_eq!(t.tokens.len(), 2);
    assert_eq!(t.tokens[0].symbol, "e\u{301}");
    assert_eq!(t.tokens[0].width, 1);
    assert_eq!(t.height(2), 1);
}

#[test]
fn line_breaks_collapse_after_a_break_at_column_zero() {
    assert_eq!(CJKText::new("a\nb").height(10), 2);
    assert_eq!(CJKText::new("a\n\nb").height(10), 2);
    assert_eq!(CJKText::new("\nb").height(10), 2);
    assert_eq!(CJKText::new("\nabc").height(10), 2);
    assert_eq!(CJKText::new("a\n\n\nb").height(10), 2);
    assert_eq!(CJKText::new("a\n").height(10), 2);
}

#[test]
fn height_matches_rows_drawn() {
    let t = CJKText::raw(vec![
        ("动画".to_string(), Style::plain().fg(Color::Blue)),
        (" 42\n\n".to_string(), Style::plain()),
        ("Some long title".to_string(), Style::plain()),
    ]);
    let w: u16 = 6;
    let h = t.height(w);
    assert_eq!(h, 5);
    let area = Rect::new(0, 0, w, h);
    let mut buf = Buffer::empty(area);
    t.draw(area, &mut buf);
    assert_eq!(symbol_at(&buf, 0, 0), "动");
    assert_eq!(symbol_at(&buf, 0, 1), "2");
    assert_eq!(symbol_at(&buf, 0, 2), "S");
    assert_eq!(symbol_at(&buf, 4, 3), "t");
    assert_eq!(symbol_at(&buf, 2, 4), "e");
    let mut last_row_used = false;
    for x in 0..w {
        if symbol_at(&buf, x, h - 1) != " " {
            last_row_used = true;
        }
    }
    assert!(last_row_used);
}

#[test]
fn drawing_stops_below_the_area() {
    let t = CJKText::new("abcdef");
    let mut buf = Buffer::empty(Rect::new(0, 0, 3, 3));
    t.draw(Rect::new(0, 0, 3, 1), &mut buf);
    assert_eq!(symbol_at(&buf, 2, 0), "c");
    assert_eq!(symbol_at(&buf, 0, 1), " ");
}

#[test]
fn zero_width_area_draws_nothing() {
    let t = CJKText::new("abc");
    let mut buf = Buffer::empty(Rect::new(0, 0, 3, 1));
    t.draw(Rect::new(0, 0, 0, 1), &mut buf);
    assert_eq!(symbol_at(&buf, 0, 0), " ");
}

#[test]
fn set_style_restyles_every_run() {
    let mut t = CJKText::raw(vec![("a".to_string(), Style::plain()), ("b".to_string(), Style::plain().bolded())]);
    t.set_style(Style::plain().fg(Color::Green));
    let mut buf = Buffer::empty(Rect::new(0, 0, 2, 1));
    t.draw(Rect::new(0, 0, 2, 1), &mut buf);
    assert_eq!(buf.get(1, 0).style, Style::plain().fg(Color::Green));
    assert_eq!(t.oneline_min_width(), 2);
}

#[test]
fn draws_at_the_area_offset() {
    let t = CJKText::new("xy");
    let mut buf = Buffer::empty(Rect::new(10, 5, 4, 2));
    t.draw(Rect::new(11, 6, 3, 1), &mut buf);
    assert_eq!(symbol_at(&buf, 11, 6), "x");
    assert_eq!(symbol_at(&buf, 12, 6), "y");
    assert_eq!(symbol_at(&buf, 10, 5), " ");
}
