use vstd::prelude::*;
use vstd::string::*;
use crate::align::{Align, HAlign, VAlign};
use crate::event::{Event, EventResult, Key};
use crate::scroll::ScrollBase;
use crate::size_cache::SizeCache;
use crate::vec::Vec2;
use crate::wrap::{str_width_of, text_width, wrap, wrap_spec, Row};

verus! {

/// A view showing a fixed text, wrapped to its width and scrollable when it
/// is taller than the space it gets.
pub struct TextView {
    content: String,
    rows: Vec<Row>,
    align: Align,
    scrollable: bool,
    scrollbase: ScrollBase,
    last_size: Option<SizeCache>,
    width: Option<usize>,
}

/// What a text view holds, as plain values.
pub struct TextState {
    pub content: Seq<char>,
    pub rows: Seq<Row>,
    pub align: Align,
    pub scrollable: bool,
    pub scroll: ScrollBase,
    pub last_size: Option<SizeCache>,
    pub width: Option<usize>,
}

/// The text without one trailing line break, if it has one.
pub open spec fn strip_newline(s: Seq<char>) -> Seq<char> {
    if s.len() > 0 && s.last() == '\n' {
        s.drop_last()
    } else {
        s
    }
}

/// The width of the widest row, 0 when there is none.
pub open spec fn widest(rows: Seq<Row>) -> usize
    decreases rows.len(),
{
    if rows.len() == 0 {
        0
    } else if rows.last().width >= widest(rows.drop_last()) {
        rows.last().width
    } else {
        widest(rows.drop_last())
    }
}

pub open spec fn sat_add(a: usize, b: usize) -> usize {
    if a + b > usize::MAX {
        usize::MAX
    } else {
        (a + b) as usize
    }
}

/// The height asked for by `n` rows under a constraint of height `h`.
pub open spec fn clamp_height(scrollable: bool, n: nat, h: usize) -> usize {
    if scrollable && n > h {
        h
    } else {
        n as usize
    }
}

pub open spec fn cache_valid(m: TextState, size: Vec2) -> bool {
    m.last_size is Some && m.last_size->0.accepts(size)
}

/// The state once `rows` are taken, with `bar` columns kept for a scrollbar.
pub open spec fn settled(m: TextState, rows: Seq<Row>, bar: usize, size: Vec2) -> TextState {
    let width = if rows.len() == 0 {
        None
    } else {
        Some(sat_add(widest(rows), bar))
    };
    let value = Vec2 {
        x: match width {
            Some(w) => w,
            None => 0,
        },
        y: clamp_height(m.scrollable, rows.len(), size.y),
    };
    TextState {
        rows,
        width,
        last_size: Some(SizeCache { value, constraint: size }),
        ..m
    }
}

/// The state after the rows are computed for the constraint `size`.
pub open spec fn computed(m: TextState, size: Vec2) -> TextState {
    if cache_valid(m, size) {
        m
    } else if size.x == 0 {
        TextState { rows: Seq::empty(), width: None, last_size: None, ..m }
    } else if m.scrollable && wrap_spec(m.content, size.x as nat).len() > size.y {
        if size.x < 2 {
            TextState { rows: Seq::empty(), width: None, last_size: None, ..m }
        } else {
            settled(m, wrap_spec(m.content, (size.x - 2) as nat), 2, size)
        }
    } else {
        settled(m, wrap_spec(m.content, size.x as nat), 0, size)
    }
}

/// The size asked for in state `m` under the constraint `size`.
pub open spec fn asked_size(m: TextState, size: Vec2) -> Vec2 {
    Vec2 {
        x: match m.width {
            Some(w) => w,
            None => 0,
        },
        y: clamp_height(m.scrollable, m.rows.len(), size.y),
    }
}

/// A remembered size is the one the rows and width give under the
/// constraint it was built for.
pub open spec fn consistent(m: TextState) -> bool {
    m.last_size is Some ==> m.last_size->0.value == asked_size(m, m.last_size->0.constraint)
}

/// The window after an event, or `None` when the event is ignored: always
/// when scrolling is turned off or the text fits.
pub open spec fn scrolled(scrollable: bool, sb: ScrollBase, event: Event) -> Option<ScrollBase> {
    if !scrollable || !sb.is_scrollable() {
        None
    } else {
        match event {
            Event::Key(Key::Home) => Some(ScrollBase { start_line: 0, ..sb }),
            Event::Key(Key::End) => Some(ScrollBase { start_line: sb.max_start() as usize, ..sb }),
            Event::Key(Key::Up) => if sb.start_line > 0 {
                Some(sb.up_by(1))
            } else {
                None
            },
            Event::Key(Key::Down) => if sb.start_line + sb.view_height < sb.content_height {
                Some(sb.down_by(1))
            } else {
                None
            },
            Event::Key(Key::PageDown) => Some(sb.down_by(10)),
            Event::Key(Key::PageUp) => Some(sb.up_by(10)),
            _ => None,
        }
    }
}

/// Asking twice for the size under the same constraint, with nothing
/// changed in between, gives the same size and leaves the state, and so
/// whether a relayout is needed, as the first call left it.
pub proof fn lemma_min_size_idempotent(m: TextState, size: Vec2)
    ensures
        computed(computed(m, size), size) == computed(m, size),
        asked_size(computed(computed(m, size), size), size) == asked_size(computed(m, size), size),
{
    let m1 = computed(m, size);
    if m1.last_size is Some {
        crate::size_cache::lemma_accepts_own_constraint(m1.last_size->0);
    }
}

/// Once a size `s1` has been asked for under `c1` and remembered, a
/// constraint `c2` that on each axis holds `s1` and either equals `c1` or
/// where `c1` gave more room than `s1` used, reuses the rows without
/// wrapping again and asks for the same size.
pub proof fn lemma_cache_reused(m: TextState, c1: Vec2, c2: Vec2)
    requires
        consistent(m),
        computed(m, c1).last_size is Some,
        c2.x >= asked_size(computed(m, c1), c1).x,
        c2.y >= asked_size(computed(m, c1), c1).y,
        c2.x == c1.x || asked_size(computed(m, c1), c1).x < c1.x,
        c2.y == c1.y || asked_size(computed(m, c1), c1).y < c1.y,
    ensures
        computed(computed(m, c1), c2) == computed(m, c1),
        asked_size(computed(m, c1), c2) == asked_size(computed(m, c1), c1),
        consistent(computed(m, c1)),
{
}

/// Text placed at a column and a row of the drawing area.
pub struct Print {
    pub x: usize,
    pub y: usize,
    pub text: String,
}

/// The characters of a row, or nothing when the row does not lie in `s`.
pub open spec fn row_text(s: Seq<char>, r: Row) -> Seq<char> {
    if r.start <= r.end <= s.len() {
        s.subrange(r.start as int, r.end as int)
    } else {
        Seq::empty()
    }
}

/// Columns left for the text when a scrollbar takes two.
pub open spec fn text_columns(sb: ScrollBase, width: usize) -> usize {
    if sb.is_scrollable() && width >= 2 {
        (width - 2) as usize
    } else if sb.is_scrollable() {
        0
    } else {
        width
    }
}

impl View for TextView {
    type V = TextState;

    closed spec fn view(&self) -> TextState {
        TextState {
            content: self.content@,
            rows: self.rows@,
            align: self.align,
            scrollable: self.scrollable,
            scroll: self.scrollbase,
            last_size: self.last_size,
            width: self.width,
        }
    }
}

/// The text without one trailing line break.
fn strip_last_newline(content: &str) -> (r: String)
    ensures
        r@ == strip_newline(content@),
{
    let n = content.unicode_len();
    if n > 0 && content.get_char(n - 1) == '\n' {
        let r = content.substring_char(0, n - 1).to_owned();
        proof {
            assert(r@ =~= content@.drop_last());
        }
        r
    } else {
        content.to_owned()
    }
}

fn widest_row(rows: &Vec<Row>) -> (r: usize)
    ensures
        r == widest(rows@),
{
    let mut best: usize = 0;
    let mut i: usize = 0;
    while i < rows.len()
        invariant
            i <= rows@.len(),
            best == widest(rows@.subrange(0, i as int)),
        decreases rows@.len() - i,
    {
        proof {
            assert(rows@.subrange(0, i + 1).drop_last() =~= rows@.subrange(0, i as int));
        }
        if rows[i].width >= best {
            best = rows[i].width;
        }
        i = i + 1;
    }
    proof {
        assert(rows@.subrange(0, i as int) =~= rows@);
    }
    best
}

impl TextView {
    /// The remembered size matches the rows, and the window is in bounds.
    pub open spec fn wf(&self) -> bool {
        consistent(self@) && self@.scroll.wf()
    }

    pub open spec fn is_fresh(m: TextState, content: Seq<char>) -> bool {
        &&& m.content == strip_newline(content)
        &&& m.rows.len() == 0
        &&& m.scrollable
        &&& m.scroll == (ScrollBase { start_line: 0, view_height: 0, content_height: 0 })
        &&& m.align == (Align { h: HAlign::Left, v: VAlign::Top })
        &&& m.last_size is None
        &&& m.width is None
    }

    /// A view of the given text, less one trailing line break.
    pub fn new(content: &str) -> (r: TextView)
        ensures
            Self::is_fresh(r@, content@),
            r.wf(),
    {
        TextView {
            content: strip_last_newline(content),
            rows: Vec::new(),
            align: Align::top_left(),
            scrollable: true,
            scrollbase: ScrollBase::new(),
            last_size: None,
            width: None,
        }
    }

    /// Turns scrolling on or off; without it the view asks for its full
    /// height. The size computed before is dropped.
    pub fn set_scrollable(&mut self, scrollable: bool)
        requires
            old(self).wf(),
        ensures
            final(self).wf(),
            final(self)@ == (TextState { scrollable, last_size: None, ..old(self)@ }),
    {
        self.scrollable = scrollable;
        self.invalidate();
    }

    /// Chainable form of `set_scrollable`.
    pub fn scrollable(self, scrollable: bool) -> (r: TextView)
        requires
            self.wf(),
        ensures
            r.wf(),
            r@ == (TextState { scrollable, last_size: None, ..self@ }),
    {
        let mut s = self;
        s.set_scrollable(scrollable);
        s
    }

    /// Sets the horizontal alignment.
    pub fn h_align(self, h: HAlign) -> (r: TextView)
        requires
            self.wf(),
        ensures
            r.wf(),
            r@ == (TextState { align: Align { h, v: self@.align.v }, last_size: None, ..self@ }),
    {
        let mut s = self;
        s.align.h = h;
        s.invalidate();
        s
    }

    /// Sets the vertical alignment.
    pub fn v_align(self, v: VAlign) -> (r: TextView)
        requires
            self.wf(),
        ensures
            r.wf(),
            r@ == (TextState { align: Align { h: self@.align.h, v }, last_size: None, ..self@ }),
    {
        let mut s = self;
        s.align.v = v;
        s.invalidate();
        s
    }

    /// Sets both alignments.
    pub fn align(self, a: Align) -> (r: TextView)
        requires
            self.wf(),
        ensures
            r.wf(),
            r@ == (TextState { align: a, last_size: None, ..self@ }),
    {
        let mut s = self;
        s.align = a;
        s.invalidate();
        s
    }

    /// Centers the text both ways.
    pub fn center(self) -> (r: TextView)
        requires
            self.wf(),
        ensures
            r.wf(),
            r@ == (TextState {
                align: Align { h: HAlign::Center, v: VAlign::Center },
                last_size: None,
                ..self@
            }),
    {
        self.align(Align::center())
    }

    /// Replaces the text, less one trailing line break, and drops the size
    /// computed before.
    pub fn set_content(&mut self, content: &str)
        requires
            old(self).wf(),
        ensures
            final(self).wf(),
            final(self)@ == (TextState {
                content: strip_newline(content@),
                last_size: None,
                ..old(self)@
            }),
    {
        self.content = strip_last_newline(content);
        self.invalidate();
    }

    /// The text shown.
    pub fn get_content(&self) -> (r: &str)
        ensures
            r@ == self@.content,
    {
        self.content.as_str()
    }

    fn is_cache_valid(&self, size: Vec2) -> (r: bool)
        ensures
            r == cache_valid(self@, size),
    {
        match &self.last_size {
            None => false,
            Some(last) => last.accept(size),
        }
    }

    fn settle(&mut self, rows: Vec<Row>, bar: usize, size: Vec2)
        ensures
            final(self)@ == settled(old(self)@, rows@, bar, size),
    {
        let w = widest_row(&rows);
        let n = rows.len();
        self.width = if n == 0 {
            None
        } else if w > usize::MAX - bar {
            Some(usize::MAX)
        } else {
            Some(w + bar)
        };
        self.rows = rows;
        let h = if self.scrollable && n > size.y {
            size.y
        } else {
            n
        };
        let x = match self.width {
            Some(w) => w,
            None => 0,
        };
        self.last_size = Some(SizeCache::build(Vec2::new(x, h), size));
    }

    fn compute_rows(&mut self, size: Vec2)
        ensures
            final(self)@ == computed(old(self)@, size),
    {
        if self.is_cache_valid(size) {
            return;
        }
        self.last_size = None;
        if size.x == 0 {
            self.rows = Vec::new();
            self.width = None;
            return;
        }
        let rows = wrap(self.content.as_str(), size.x);
        if self.scrollable && rows.len() > size.y {
            if size.x < 2 {
                self.rows = Vec::new();
                self.width = None;
                return;
            }
            let narrower = wrap(self.content.as_str(), size.x - 2);
            self.settle(narrower, 2, size);
        } else {
            self.settle(rows, 0, size);
        }
    }

    fn invalidate(&mut self)
        ensures
            final(self)@ == (TextState { last_size: None, ..old(self)@ }),
    {
        self.last_size = None;
    }

    /// Reacts to the navigation keys by scrolling; ignores every event when
    /// scrolling is turned off or the text does not need to scroll.
    pub fn on_event<C>(&mut self, event: Event) -> (r: EventResult<C>)
        requires
            old(self).wf(),
        ensures
            final(self).wf(),
            scrolled(old(self)@.scrollable, old(self)@.scroll, event) is None ==> r is Ignored && final(self)@
                == old(self)@,
            scrolled(old(self)@.scrollable, old(self)@.scroll, event) is Some ==> r is Consumed && r->Consumed_0 is None
                && final(self)@ == (TextState {
                scroll: scrolled(old(self)@.scrollable, old(self)@.scroll, event)->0,
                ..old(self)@
            }),
    {
        if !self.scrollable || !self.scrollbase.scrollable() {
            return EventResult::Ignored;
        }
        match event {
            Event::Key(Key::Home) => self.scrollbase.scroll_top(),
            Event::Key(Key::End) => self.scrollbase.scroll_bottom(),
            Event::Key(Key::Up) => {
                if self.scrollbase.can_scroll_up() {
                    self.scrollbase.scroll_up(1)
                } else {
                    return EventResult::Ignored;
                }
            },
            Event::Key(Key::Down) => {
                if self.scrollbase.can_scroll_down() {
                    self.scrollbase.scroll_down(1)
                } else {
                    return EventResult::Ignored;
                }
            },
            Event::Key(Key::PageDown) => self.scrollbase.scroll_down(10),
            Event::Key(Key::PageUp) => self.scrollbase.scroll_up(10),
            _ => return EventResult::Ignored,
        }
        EventResult::Consumed(None)
    }

    /// Whether the size computed before has been dropped.
    pub fn needs_relayout(&self) -> (r: bool)
        ensures
            r == (self@.last_size is None),
    {
        self.last_size.is_none()
    }

    /// The size the text asks for under the constraint `size`. Computes the
    /// rows, or keeps those of a previous call whose constraint still holds.
    pub fn get_min_size(&mut self, size: Vec2) -> (r: Vec2)
        requires
            old(self).wf(),
        ensures
            final(self).wf(),
            final(self)@ == computed(old(self)@, size),
            r == asked_size(final(self)@, size),
    {
        self.compute_rows(size);
        let x = match self.width {
            Some(w) => w,
            None => 0,
        };
        let n = self.rows.len();
        let y = if self.scrollable && n > size.y {
            size.y
        } else {
            n
        };
        Vec2::new(x, y)
    }

    /// The view takes focus exactly when its text needs to scroll.
    pub fn take_focus(&self) -> (r: bool)
        ensures
            r == self@.scroll.is_scrollable(),
    {
        self.scrollbase.scrollable()
    }

    /// Fixes the rows and the scroll window for the final size.
    pub fn layout(&mut self, size: Vec2)
        requires
            old(self).wf(),
        ensures
            final(self).wf(),
            final(self)@ == (TextState {
                scroll: computed(old(self)@, size).scroll.resized(
                    size.y,
                    computed(old(self)@, size).rows.len() as usize,
                ),
                ..computed(old(self)@, size)
            }),
    {
        self.compute_rows(size);
        let n = self.rows.len();
        self.scrollbase.set_heights(size.y, n);
    }

    /// The rows in view, in an area of the given size: the visible rows of
    /// the scroll window, one per line, placed by the alignment, and, when
    /// the text scrolls, a scrollbar in the last column whose thumb is
    /// drawn `#` and the rest `|`. Rows that no longer lie in the text are
    /// drawn empty.
    pub fn draw(&self, size: Vec2) -> (r: (Vec<Print>, Vec<Print>))
        requires
            self.wf(),
            self@.scroll.content_height == self@.rows.len(),
            self@.scroll.view_height == size.y,
        ensures
            r.0@.len() == self@.scroll.visible_count(),
            forall|k: int|
                0 <= k < r.0@.len() ==> {
                    let row = self@.rows[self@.scroll.start_line + k];
                    &&& (#[trigger] r.0@[k]).text@ == row_text(self@.content, row)
                    &&& r.0@[k].y == self@.align.v.offset_of(self@.rows.len() as usize, size.y) + k
                    &&& r.0@[k].x == self@.align.h.offset_of(
                        str_width_of(row_text(self@.content, row)),
                        text_columns(self@.scroll, size.x),
                    )
                },
            r.1@.len() == if self@.scroll.thumb() is Some && size.x >= 1 {
                size.y as int
            } else {
                0
            },
            forall|k: int|
                0 <= k < r.1@.len() ==> {
                    let t = self@.scroll.thumb()->0;
                    &&& (#[trigger] r.1@[k]).x == size.x - 1
                    &&& r.1@[k].y == k
                    &&& r.1@[k].text@ == if t.0 <= k < t.0 + t.1 {
                        seq!['#']
                    } else {
                        seq!['|']
                    }
                },
    {
        let top = self.align.v.get_offset(self.rows.len(), size.y);
        let columns: usize = if self.scrollbase.scrollable() {
            if size.x >= 2 {
                size.x - 2
            } else {
                0
            }
        } else {
            size.x
        };
        let first = self.scrollbase.start_line;
        let last = self.scrollbase.visible_end();
        let n = self.content.as_str().unicode_len();
        let mut out: Vec<Print> = Vec::new();
        let mut i: usize = first;
        while i < last
            invariant
                first <= i <= last <= self.rows@.len(),
                first == self@.scroll.start_line,
                last == first + self@.scroll.visible_count(),
                n == self@.content.len(),
                out@.len() == i - first,
                top == self@.align.v.offset_of(self@.rows.len() as usize, size.y),
                top == 0 || top + self.rows@.len() <= size.y,
                columns == text_columns(self@.scroll, size.x),
                forall|k: int|
                    0 <= k < out@.len() ==> {
                        let row = self@.rows[self@.scroll.start_line + k];
                        &&& (#[trigger] out@[k]).text@ == row_text(self@.content, row)
                        &&& out@[k].y == top + k
                        &&& out@[k].x == self@.align.h.offset_of(
                            str_width_of(row_text(self@.content, row)),
                            columns,
                        )
                    },
            decreases last - i,
        {
            let row = self.rows[i];
            let text = if row.start <= row.end && row.end <= n {
                self.content.as_str().substring_char(row.start, row.end).to_owned()
            } else {
                String::new()
            };
            let x = self.align.h.get_offset(text_width(text.as_str()), columns);
            out.push(Print { x, y: top + (i - first), text });
            i = i + 1;
        }
        let mut bar: Vec<Print> = Vec::new();
        let thumb = self.scrollbase.scrollbar();
        if size.x >= 1 {
            if let Some((ts, th)) = thumb {
                let mut k: usize = 0;
                while k < size.y
                    invariant
                        k <= size.y,
                        size.x >= 1,
                        thumb == Some((ts, th)),
                        ts + th <= size.y,
                        bar@.len() == k,
                        forall|j: int|
                            0 <= j < bar@.len() ==> {
                                &&& (#[trigger] bar@[j]).x == size.x - 1
                                &&& bar@[j].y == j
                                &&& bar@[j].text@ == if ts <= j < ts + th {
                                    seq!['#']
                                } else {
                                    seq!['|']
                                }
                            },
                    decreases size.y - k,
                {
                    let text = if ts <= k && k < ts + th {
                        let t = "#".to_owned();
                        proof {
                            reveal_strlit("#");
                        }
                        t
                    } else {
                        let t = "|".to_owned();
                        proof {
                            reveal_strlit("|");
                        }
                        t
                    };
                    bar.push(Print { x: size.x - 1, y: k, text });
                    k = k + 1;
                }
            }
        }
        (out, bar)
    }

    /// The scroll window.
    pub fn scroll_base(&self) -> (r: ScrollBase)
        ensures
            r == self@.scroll,
    {
        self.scrollbase
    }

    /// The rows computed last.
    pub fn rows(&self) -> (r: &Vec<Row>)
        ensures
            r@ == self@.rows,
    {
        &self.rows
    }
}

} // verus!
