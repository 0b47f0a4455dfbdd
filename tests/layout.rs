use cursive_layout::align::{HAlign, VAlign};
use cursive_layout::button::Style;
use cursive_layout::button::{Button, ENTER};
use cursive_layout::event::{Event, EventResult, Key};
use cursive_layout::scroll::ScrollBase;
use cursive_layout::size_cache::SizeCache;
use cursive_layout::text_view::TextView;
use cursive_layout::vec::Vec2;
use cursive_layout::wrap::{wrap, wrap_with};

fn widths(content: &str, width: usize) -> Vec<usize> {
    wrap(content, width).iter().map(|r| r.width).collect()
}

#[test]
fn short_content_single_row() {
    let mut v = TextView::new("hi");
    assert_eq!(v.get_min_size(Vec2::new(80, 1)), Vec2::new(2, 1));
    assert_eq!(v.rows().len(), 1);
    assert_eq!(v.rows()[0].width, 2);
    v.layout(Vec2::new(80, 1));
    assert!(!v.take_focus());
    assert!(matches!(v.on_event::<()>(Event::Key(Key::Down)), EventResult::Ignored));
}

#[test]
fn forced_wrap_without_spaces() {
    assert_eq!(widths("aaaaaaaaaa", 4), vec![4, 4, 2]);
    let rows = wrap("aaaaaaaaaa", 4);
    assert_eq!((rows[0].start, rows[0].end), (0, 4));
    assert_eq!((rows[1].start, rows[1].end), (4, 8));
    assert_eq!((rows[2].start, rows[2].end), (8, 10));
}

#[test]
fn soft_wrap_drops_the_space() {
    let rows = wrap("hello world foo", 11);
    assert_eq!(rows.len(), 2);
    assert_eq!((rows[0].start, rows[0].end, rows[0].width), (0, 11, 11));
    assert_eq!((rows[1].start, rows[1].end, rows[1].width), (12, 15, 3));
    let rows = wrap("ab cd ef", 5);
    assert_eq!((rows[0].start, rows[0].end), (0, 5));
    assert_eq!((rows[1].start, rows[1].end), (6, 8));
}

#[test]
fn hard_breaks_start_rows() {
    let rows = wrap("a\n\nbc", 10);
    assert_eq!(rows.len(), 3);
    assert_eq!((rows[1].start, rows[1].end, rows[1].width), (2, 2, 0));
    assert_eq!((rows[2].start, rows[2].end), (3, 5));
}

#[test]
fn empty_content_no_rows() {
    assert_eq!(wrap("", 5).len(), 0);
    let mut v = TextView::new("\n");
    assert_eq!(v.get_content(), "");
    assert_eq!(v.get_min_size(Vec2::new(5, 5)), Vec2::new(0, 0));
}

#[test]
fn wide_characters_are_measured() {
    assert_eq!(widths("日本語", 4), vec![4, 2]);
}

#[test]
fn zero_width_gives_empty_layout() {
    let mut v = TextView::new("abc");
    assert_eq!(v.get_min_size(Vec2::new(0, 3)), Vec2::new(0, 0));
    assert!(v.needs_relayout());
}

#[test]
fn scroll_clamp() {
    let mut s = ScrollBase::new();
    s.set_heights(3, 10);
    s.scroll_down(100);
    assert_eq!(s.start_line, 7);
    s.scroll_up(100);
    assert_eq!(s.start_line, 0);
    s.scroll_bottom();
    assert_eq!(s.start_line, 7);
    s.set_heights(8, 10);
    assert_eq!(s.start_line, 2);
    s.set_heights(20, 10);
    assert_eq!(s.start_line, 0);
}

#[test]
fn button_activation() {
    let b = Button::new("OK", |n: &mut i32| *n += 1);
    match b.on_key_event(ENTER) {
        EventResult::Consumed(Some(cb)) => {
            let mut n = 0;
            cb(&mut n);
            assert_eq!(n, 1);
        }
        _ => panic!("enter must hand out the callback"),
    }
    assert!(matches!(b.on_key_event(32), EventResult::Ignored));
    assert_eq!(b.get_min_size(Vec2::new(0, 0)), Vec2::new(4, 1));
    assert!(b.take_focus());
}

#[test]
fn non_scrollable_ignores_navigation() {
    let mut v = TextView::new("a\nb\nc\nd\ne\nf\ng\nh\ni\nj");
    v.layout(Vec2::new(10, 3));
    assert!(v.take_focus());
    v.set_scrollable(false);
    assert!(matches!(v.on_event::<()>(Event::Key(Key::Down)), EventResult::Ignored));
    assert_eq!(v.scroll_base().start_line, 0);
    assert_eq!(v.get_min_size(Vec2::new(10, 3)), Vec2::new(1, 10));
}

#[test]
fn scrollable_view_scrolls_and_reserves_bar() {
    let mut v = TextView::new("a\nb\nc\nd\ne\nf\ng\nh\ni\nj");
    assert_eq!(v.get_min_size(Vec2::new(10, 3)), Vec2::new(3, 3));
    v.layout(Vec2::new(10, 3));
    assert!(matches!(v.on_event::<()>(Event::Key(Key::Down)), EventResult::Consumed(None)));
    assert_eq!(v.scroll_base().start_line, 1);
    assert!(matches!(v.on_event::<()>(Event::Key(Key::PageDown)), EventResult::Consumed(None)));
    assert_eq!(v.scroll_base().start_line, 7);
    assert!(matches!(v.on_event::<()>(Event::Key(Key::Down)), EventResult::Ignored));
    assert!(matches!(v.on_event::<()>(Event::Key(Key::Home)), EventResult::Consumed(None)));
    assert_eq!(v.scroll_base().start_line, 0);
    assert!(matches!(v.on_event::<()>(Event::Char('x')), EventResult::Ignored));
}

#[test]
fn min_size_idempotent_and_cached() {
    let mut v = TextView::new("hello world foo");
    let a = v.get_min_size(Vec2::new(11, 5));
    assert!(!v.needs_relayout());
    let b = v.get_min_size(Vec2::new(11, 5));
    assert_eq!(a, b);
    assert_eq!(a, Vec2::new(11, 2));
    assert!(!v.needs_relayout());
    let c = v.get_min_size(Vec2::new(11, 9));
    assert_eq!(c, Vec2::new(11, 2));
    v.set_content("x");
    assert!(v.needs_relayout());
    assert_eq!(v.get_min_size(Vec2::new(11, 9)), Vec2::new(1, 1));
}

#[test]
fn size_cache_acceptance() {
    let c = SizeCache::build(Vec2::new(5, 2), Vec2::new(10, 2));
    assert!(c.accept(Vec2::new(10, 2)));
    assert!(c.accept(Vec2::new(6, 2)));
    assert!(!c.accept(Vec2::new(4, 2)));
    assert!(!c.accept(Vec2::new(10, 3)));
}

#[test]
fn vec2_min_max() {
    let a = Vec2::new(1, 5);
    let b = Vec2::new(3, 2);
    assert_eq!(a.min(b), Vec2::new(1, 2));
    assert_eq!(a.max(b), Vec2::new(3, 5));
}

#[test]
fn draw_places_visible_rows() {
    let mut v = TextView::new("ab\ncdef").h_align(HAlign::Right).v_align(VAlign::Bottom);
    v.layout(Vec2::new(6, 4));
    let (lines, bar) = v.draw(Vec2::new(6, 4));
    assert!(bar.is_empty());
    assert_eq!(lines.len(), 2);
    assert_eq!((lines[0].x, lines[0].y, lines[0].text.as_str()), (4, 2, "ab"));
    assert_eq!((lines[1].x, lines[1].y, lines[1].text.as_str()), (2, 3, "cdef"));
}

#[test]
fn draw_scrolled_window() {
    let mut v = TextView::new("a\nb\nc\nd\ne");
    v.layout(Vec2::new(5, 2));
    v.on_event::<()>(Event::Key(Key::End));
    let (lines, bar) = v.draw(Vec2::new(5, 2));
    assert_eq!(lines.len(), 2);
    assert_eq!((lines[0].x, lines[0].y, lines[0].text.as_str()), (0, 0, "d"));
    assert_eq!((lines[1].y, lines[1].text.as_str()), (1, "e"));
    assert_eq!(v.scroll_base().scrollbar(), Some((1, 1)));
    assert_eq!(bar.len(), 2);
    assert_eq!((bar[0].x, bar[0].y, bar[0].text.as_str()), (4, 0, "|"));
    assert_eq!((bar[1].x, bar[1].y, bar[1].text.as_str()), (4, 1, "#"));
}

#[test]
fn scrollbar_thumb() {
    let mut s = ScrollBase::new();
    s.set_heights(3, 10);
    assert_eq!(s.scrollbar(), Some((0, 1)));
    s.scroll_bottom();
    assert_eq!(s.scrollbar(), Some((2, 1)));
    s.set_heights(10, 10);
    assert_eq!(s.scrollbar(), None);
    assert_eq!(s.visible_end(), 10);
}

#[test]
fn button_draw_frames_label() {
    let b = Button::new("OK", |_: &mut i32| {});
    let (style, prints) = b.draw(Vec2::new(4, 1), true);
    assert_eq!(style, Style::Highlight);
    assert_eq!(prints[0].text, "OK");
    assert_eq!((prints[2].x, prints[2].text.as_str()), (3, ">"));
    let (style, _) = b.draw(Vec2::new(4, 1), false);
    assert_eq!(style, Style::Primary);
}

#[test]
fn builders_keep_content() {
    let v = TextView::new("x\n").center().scrollable(false);
    assert_eq!(v.get_content(), "x");
    assert!(v.needs_relayout());
}

#[test]
fn zero_width_drops_earlier_rows() {
    let mut v = TextView::new("ab");
    assert_eq!(v.get_min_size(Vec2::new(10, 10)), Vec2::new(2, 1));
    assert_eq!(v.get_min_size(Vec2::new(0, 3)), Vec2::new(0, 0));
    assert_eq!(v.rows().len(), 0);
}

#[test]
fn no_room_after_new_content_gives_empty_size() {
    let mut v = TextView::new("aa");
    v.layout(Vec2::new(10, 10));
    v.set_content("aaa");
    assert_eq!(v.get_min_size(Vec2::new(1, 1)), Vec2::new(0, 0));
    let mut f = TextView::new("aaa");
    assert_eq!(f.get_min_size(Vec2::new(1, 1)), Vec2::new(0, 0));
}

#[test]
fn centered_row_uses_string_width() {
    let mut v = TextView::new("日本").h_align(HAlign::Center);
    v.layout(Vec2::new(8, 1));
    let (lines, _) = v.draw(Vec2::new(8, 1));
    assert_eq!(lines[0].x, 2);
}

#[test]
fn button_hands_out_its_own_callback() {
    let b = Button::new("Go", |n: &mut i32| *n += 5);
    if let EventResult::Consumed(Some(cb)) = b.on_key_event(ENTER) {
        let mut n = 1;
        cb(&mut n);
        assert_eq!(n, 6);
    } else {
        panic!("enter must hand out the callback");
    }
}

#[test]
fn wrap_over_width_table() {
    let rows = wrap_with("abcd", &vec![2, 2, 1, 1], 3);
    assert_eq!(rows.len(), 3);
    assert_eq!((rows[2].start, rows[2].end, rows[2].width), (3, 4, 1));
    assert_eq!((rows[0].start, rows[0].end, rows[0].width), (0, 1, 2));
    assert_eq!((rows[1].start, rows[1].end, rows[1].width), (1, 3, 3));
    let rows = wrap_with("ab cd", &vec![1, 1, 1, 1, 1], 4);
    assert_eq!((rows[0].start, rows[0].end, rows[0].width), (0, 2, 2));
    assert_eq!((rows[1].start, rows[1].end, rows[1].width), (3, 5, 2));
    let rows = wrap_with("xy", &vec![5, 1], 3);
    assert_eq!((rows[0].start, rows[0].end, rows[0].width), (0, 1, 5));
    assert_eq!((rows[1].start, rows[1].end, rows[1].width), (1, 2, 1));
}
