use vstd::prelude::*;
use vstd::string::*;
use unicode_width::{UnicodeWidthChar, UnicodeWidthStr};

verus! {

/// Display columns of one character, `None` for a control character.
pub uninterp spec fn char_width_of(c: char) -> Option<usize>;

/// Relies on unicode_width's `UnicodeWidthChar::width`: the number of
/// columns a character takes on a terminal.
#[verifier::external_body]
fn char_width(c: char) -> (r: Option<usize>)
    ensures
        r == char_width_of(c),
{
    UnicodeWidthChar::width(c)
}

/// Display columns of a string.
pub uninterp spec fn str_width_of(s: Seq<char>) -> usize;

/// Relies on unicode_width's `UnicodeWidthStr::width`: the number of
/// columns a string takes on a terminal.
#[verifier::external_body]
pub(crate) fn text_width(s: &str) -> (r: usize)
    ensures
        r == str_width_of(s@),
{
    UnicodeWidthStr::width(s)
}

/// Columns taken by one character; a control character takes none.
pub open spec fn columns(c: char) -> nat {
    match char_width_of(c) {
        Some(n) => n as nat,
        None => 0,
    }
}

/// Columns taken by the characters `s[a..b]`.
pub open spec fn span_width(s: Seq<char>, ws: Seq<usize>, a: int, b: int) -> nat
    decreases b - a,
{
    if b <= a {
        0
    } else {
        span_width(s, ws, a, b - 1) + ws[b - 1] as nat
    }
}

/// Position of the first line break at or after `i`, or the end of `s`.
pub open spec fn line_end(s: Seq<char>, i: int) -> int
    decreases s.len() - i,
{
    if i >= s.len() {
        s.len() as int
    } else if s[i] == '\n' {
        i
    } else {
        line_end(s, i + 1)
    }
}

/// The last space in `(start, q]` such that the text from `start` up to it
/// fits in `w` columns, or `start` if there is none.
pub open spec fn soft_break(s: Seq<char>, ws: Seq<usize>, start: int, q: int, w: nat) -> int
    decreases q - start,
{
    if q <= start {
        start
    } else if s[q] == ' ' && span_width(s, ws, start, q) <= w {
        q
    } else {
        soft_break(s, ws, start, q - 1, w)
    }
}

/// The longest prefix end, from `q` on and at most `e`, whose text from
/// `start` fits in `w` columns.
pub open spec fn hard_break(s: Seq<char>, ws: Seq<usize>, start: int, q: int, e: int, w: nat) -> int
    decreases e - q,
{
    if q < e && span_width(s, ws, start, q + 1) <= w {
        hard_break(s, ws, start, q + 1, e, w)
    } else {
        q
    }
}

/// Where the row that begins at `start` ends, and where the next one begins.
/// A line that fits is kept whole; a longer one is cut at its last fitting
/// space, which is dropped; a line with no such space is cut after the
/// longest fitting prefix, of at least one character.
pub open spec fn cut(s: Seq<char>, ws: Seq<usize>, start: int, w: nat) -> (int, int) {
    let e = line_end(s, start);
    if span_width(s, ws, start, e) <= w {
        (e, e + 1)
    } else if soft_break(s, ws, start, e - 1, w) > start {
        (soft_break(s, ws, start, e - 1, w), soft_break(s, ws, start, e - 1, w) + 1)
    } else {
        (hard_break(s, ws, start, start + 1, e, w), hard_break(s, ws, start, start + 1, e, w))
    }
}

/// One displayed row: the characters `start..end` of the content, and their
/// width in columns.
#[derive(Clone, Copy, Debug, PartialEq, Eq, Structural)]
pub struct Row {
    pub start: usize,
    pub end: usize,
    pub width: usize,
}

pub open spec fn row_of(s: Seq<char>, ws: Seq<usize>, start: int, end: int) -> Row {
    Row { start: start as usize, end: end as usize, width: span_width(s, ws, start, end) as usize }
}

/// The rows of `s` from position `start` on, wrapped to `w` columns.
pub open spec fn wrap_from(s: Seq<char>, ws: Seq<usize>, start: int, w: nat) -> Seq<Row>
    decreases s.len() + 1 - start,
{
    if start < 0 || start >= s.len() {
        seq![]
    } else if start < cut(s, ws, start, w).1 <= s.len() + 1 {
        seq![row_of(s, ws, start, cut(s, ws, start, w).0)] + wrap_from(s, ws, cut(s, ws, start, w).1, w)
    } else {
        seq![row_of(s, ws, start, cut(s, ws, start, w).0)]
    }
}

/// The rows of `s`, whose characters take `ws` columns, wrapped to `w`.
pub open spec fn wrap_table(s: Seq<char>, ws: Seq<usize>, w: nat) -> Seq<Row> {
    wrap_from(s, ws, 0, w)
}

/// The columns each character of `s` takes.
pub open spec fn char_widths(s: Seq<char>) -> Seq<usize> {
    Seq::new(s.len(), |i: int| columns(s[i]) as usize)
}

/// The rows of `s` wrapped to `w` columns.
pub open spec fn wrap_spec(s: Seq<char>, w: nat) -> Seq<Row> {
    wrap_table(s, char_widths(s), w)
}

pub proof fn lemma_span_mono(s: Seq<char>, ws: Seq<usize>, a: int, b: int, c: int)
    requires
        a <= b <= c,
    ensures
        span_width(s, ws, a, b) <= span_width(s, ws, a, c),
    decreases c - b,
{
    if b < c {
        lemma_span_mono(s, ws, a, b, c - 1);
    }
}

proof fn lemma_line_end_bounds(s: Seq<char>, i: int)
    requires
        0 <= i <= s.len(),
    ensures
        i <= line_end(s, i) <= s.len(),
        line_end(s, i) < s.len() ==> s[line_end(s, i)] == '\n',
        forall|k: int| i <= k < line_end(s, i) ==> s[k] != '\n',
    decreases s.len() - i,
{
    if i < s.len() && s[i] != '\n' {
        lemma_line_end_bounds(s, i + 1);
    }
}

proof fn lemma_soft_break_stable(s: Seq<char>, ws: Seq<usize>, start: int, p: int, q: int, w: nat)
    requires
        start <= p <= q,
        span_width(s, ws, start, p + 1) > w,
    ensures
        soft_break(s, ws, start, q, w) == soft_break(s, ws, start, p, w),
    decreases q - p,
{
    if q > p {
        lemma_span_mono(s, ws, start, p + 1, q);
        lemma_soft_break_stable(s, ws, start, p, q - 1, w);
    }
}

proof fn lemma_soft_break_bounds(s: Seq<char>, ws: Seq<usize>, start: int, q: int, w: nat)
    ensures
        start <= soft_break(s, ws, start, q, w),
        q >= start ==> soft_break(s, ws, start, q, w) <= q,
        soft_break(s, ws, start, q, w) > start ==> s[soft_break(s, ws, start, q, w)] == ' '
            && span_width(s, ws, start, soft_break(s, ws, start, q, w)) <= w,
    decreases q - start,
{
    if q > start {
        lemma_soft_break_bounds(s, ws, start, q - 1, w);
    }
}

proof fn lemma_hard_break_at(s: Seq<char>, ws: Seq<usize>, start: int, q: int, p: int, e: int, w: nat)
    requires
        start < q <= p < e,
        span_width(s, ws, start, p) <= w,
        span_width(s, ws, start, p + 1) > w,
    ensures
        hard_break(s, ws, start, q, e, w) == p,
    decreases p - q,
{
    if q < p {
        lemma_span_mono(s, ws, start, q + 1, p);
        lemma_hard_break_at(s, ws, start, q + 1, p, e, w);
    }
}


/// Every character of `s` fits in `w` columns.
pub open spec fn narrow(s: Seq<char>, ws: Seq<usize>, w: nat) -> bool {
    forall|k: int| 0 <= k < s.len() ==> #[trigger] ws[k] <= w
}

/// A row covers a stretch of `s`, is measured, is empty only on a line
/// break, and fits in `w` columns when every character does.
pub open spec fn row_ok(s: Seq<char>, ws: Seq<usize>, r: Row, w: nat) -> bool {
    &&& r.start <= r.end <= s.len()
    &&& r.start < s.len()
    &&& r.width == span_width(s, ws, r.start as int, r.end as int) as usize
    &&& r.start == r.end ==> s[r.start as int] == '\n'
    &&& narrow(s, ws, w) ==> span_width(s, ws, r.start as int, r.end as int) <= w
}

/// Row `b` follows row `a`, after at most one space or line break.
pub open spec fn joined(s: Seq<char>, a: Row, b: Row) -> bool {
    &&& a.end <= b.start <= a.end + 1
    &&& b.start == a.end + 1 ==> (s[a.end as int] == ' ' || s[a.end as int] == '\n')
}

/// The last row reaches the end of `s`, but for one space or line break.
pub open spec fn ends_at_end(s: Seq<char>, r: Row) -> bool {
    r.end == s.len() || (r.end + 1 == s.len() && (s[r.end as int] == ' ' || s[r.end as int]
        == '\n'))
}

proof fn lemma_hard_break_fits(s: Seq<char>, ws: Seq<usize>, start: int, q: int, e: int, w: nat)
    requires
        q <= e,
        span_width(s, ws, start, q) <= w,
    ensures
        q <= hard_break(s, ws, start, q, e, w) <= e,
        span_width(s, ws, start, hard_break(s, ws, start, q, e, w)) <= w,
    decreases e - q,
{
    if q < e && span_width(s, ws, start, q + 1) <= w {
        lemma_hard_break_fits(s, ws, start, q + 1, e, w);
    }
}

proof fn lemma_cut(s: Seq<char>, ws: Seq<usize>, start: int, w: nat)
    requires
        0 <= start < s.len(),
    ensures
        ({
            let (end, next) = cut(s, ws, start, w);
            &&& start <= end <= s.len()
            &&& end <= next <= end + 1
            &&& start < next
            &&& next == end + 1 && end < s.len() ==> (s[end] == ' ' || s[end] == '\n')
            &&& next > s.len() ==> end == s.len()
            &&& end == start ==> s[start] == '\n'
            &&& narrow(s, ws, w) ==> span_width(s, ws, start, end) <= w
        }),
{
    let e = line_end(s, start);
    lemma_line_end_bounds(s, start);
    if span_width(s, ws, start, e) > w {
        assert(e > start) by {
            if e == start {
                assert(span_width(s, ws, start, start) == 0);
            }
        }
        lemma_soft_break_bounds(s, ws, start, e - 1, w);
        if soft_break(s, ws, start, e - 1, w) <= start {
            assert(start + 1 <= hard_break(s, ws, start, start + 1, e, w) <= e) by {
                if start + 1 < e && span_width(s, ws, start, start + 2) <= w {
                    lemma_hard_break_fits(s, ws, start, start + 2, e, w);
                }
            }
            if narrow(s, ws, w) {
                assert(ws[start] <= w);
                assert(span_width(s, ws, start, start + 1) == ws[start]) by {
                    assert(span_width(s, ws, start, start) == 0);
                }
                lemma_hard_break_fits(s, ws, start, start + 1, e, w);
            }
        }
    }
}

proof fn lemma_wrap_from(s: Seq<char>, ws: Seq<usize>, start: int, w: nat)
    requires
        0 <= start <= s.len(),
        s.len() <= usize::MAX,
    ensures
        ({
            let rs = wrap_from(s, ws, start, w);
            &&& (rs.len() == 0 <==> start == s.len())
            &&& rs.len() > 0 ==> rs[0].start == start && ends_at_end(s, rs.last())
            &&& forall|i: int| 0 <= i < rs.len() ==> row_ok(s, ws, #[trigger] rs[i], w)
            &&& forall|i: int| 0 <= i < rs.len() - 1 ==> joined(s, #[trigger] rs[i], rs[i + 1])
        }),
    decreases s.len() + 1 - start,
{
    if start < s.len() {
        lemma_cut(s, ws, start, w);
        let (end, next) = cut(s, ws, start, w);
        let r0 = row_of(s, ws, start, end);
        let rest = wrap_from(s, ws, next, w);
        let rs = wrap_from(s, ws, start, w);
        assert(rs == seq![r0] + rest);
        assert(row_ok(s, ws, r0, w));
        if next <= s.len() {
            lemma_wrap_from(s, ws, next, w);
        } else {
            assert(rest.len() == 0);
        }
        assert forall|i: int| 0 <= i < rs.len() implies row_ok(s, ws, #[trigger] rs[i], w) by {
            if i > 0 {
                assert(rs[i] == rest[i - 1]);
            }
        }
        assert forall|i: int| 0 <= i < rs.len() - 1 implies joined(
            s,
            #[trigger] rs[i],
            rs[i + 1],
        ) by {
            if i > 0 {
                assert(rs[i] == rest[i - 1]);
                assert(rs[i + 1] == rest[i]);
            } else {
                assert(rs[1] == rest[0]);
            }
        }
        if rest.len() == 0 {
            assert(rs.last() == r0);
        } else {
            assert(rs.last() == rest.last());
        }
    }
}

/// The rows of `s` wrapped to `w` columns, read in order with the one space
/// or line break between two rows put back, give `s` again, but for one
/// trailing space or line break. Each row is measured, is empty only on a
/// line break, and fits in `w` columns when every character does. There are
/// no rows exactly when `s` is empty.
pub proof fn lemma_wrap_correct(s: Seq<char>, ws: Seq<usize>, w: nat)
    requires
        s.len() <= usize::MAX,
    ensures
        (wrap_table(s, ws, w).len() == 0 <==> s.len() == 0),
        wrap_table(s, ws, w).len() > 0 ==> wrap_table(s, ws, w)[0].start == 0 && ends_at_end(
            s,
            wrap_table(s, ws, w).last(),
        ),
        forall|i: int|
            0 <= i < wrap_table(s, ws, w).len() ==> row_ok(s, ws, #[trigger] wrap_table(s, ws, w)[i], w),
        forall|i: int|
            0 <= i < wrap_table(s, ws, w).len() - 1 ==> joined(
                s,
                #[trigger] wrap_table(s, ws, w)[i],
                wrap_table(s, ws, w)[i + 1],
            ),
{
    lemma_wrap_from(s, ws, 0, w);
}

/// What one scan of a line finds: whether it fits, and where to cut it.
struct Scan {
    fits: bool,
    width: usize,
    space: usize,
    space_width: usize,
    first: usize,
    stop: usize,
}

/// Scans the line `s[start..e]`, measuring it until it no longer fits.
fn scan_line(s: &str, widths: &Vec<usize>, start: usize, e: usize, w: usize) -> (r: Scan)
    requires
        start <= e <= s@.len(),
        widths@.len() == s@.len(),
    ensures
        r.fits ==> r.width == span_width(s@, widths@, start as int, e as int) && r.width <= w,
        !r.fits ==> span_width(s@, widths@, start as int, e as int) > w,
        !r.fits ==> start <= r.stop < e,
        !r.fits ==> r.width == span_width(s@, widths@, start as int, r.stop as int),
        !r.fits ==> span_width(s@, widths@, start as int, r.stop as int) <= w,
        !r.fits ==> span_width(s@, widths@, start as int, r.stop + 1) > w,
        !r.fits ==> r.space == soft_break(s@, widths@, start as int, e - 1, w as nat),
        !r.fits ==> r.space_width == span_width(s@, widths@, start as int, r.space as int),
        !r.fits && r.stop == start ==> r.first == widths@[start as int],
{
    let mut p: usize = start;
    let mut acc: usize = 0;
    let mut space: usize = start;
    let mut space_width: usize = 0;
    while p < e
        invariant
            start <= p <= e <= s@.len(),
            widths@.len() == s@.len(),
            acc == span_width(s@, widths@, start as int, p as int),
            acc <= w,
            space == soft_break(s@, widths@, start as int, p - 1, w as nat),
            space_width == span_width(s@, widths@, start as int, space as int),
        decreases e - p,
    {
        let c = s.get_char(p);
        if p > start && c == ' ' {
            space = p;
            space_width = acc;
        }
        let cw: usize = widths[p];
        if cw > w - acc {
            proof {
                lemma_soft_break_stable(s@, widths@, start as int, p as int, e - 1, w as nat);
                lemma_span_mono(s@, widths@, start as int, p + 1, e as int);
            }
            return Scan { fits: false, width: acc, space, space_width, first: cw, stop: p };
        }
        acc = acc + cw;
        p = p + 1;
    }
    Scan { fits: true, width: acc, space, space_width, first: 0, stop: e }
}

/// Where the line that holds `start` ends.
fn find_line_end(s: &str, n: usize, start: usize) -> (e: usize)
    requires
        n == s@.len(),
        start <= n,
    ensures
        e == line_end(s@, start as int),
{
    let mut i: usize = start;
    while i < n
        invariant
            start <= i <= n,
            n == s@.len(),
            line_end(s@, i as int) == line_end(s@, start as int),
        decreases n - i,
    {
        if s.get_char(i) == '\n' {
            return i;
        }
        i = i + 1;
    }
    i
}

/// Splits `content`, whose characters take `widths` columns, into the
/// rows it takes on a screen `width` columns wide: hard line breaks always start a row, a long line is cut at its last
/// fitting space, and a word too long for a row is cut inside.
pub fn wrap_with(content: &str, widths: &Vec<usize>, width: usize) -> (rows: Vec<Row>)
    requires
        widths@.len() == content@.len(),
    ensures
        rows@ == wrap_table(content@, widths@, width as nat),
{
    let n = content.unicode_len();
    let mut rows: Vec<Row> = Vec::new();
    let mut start: usize = 0;
    let ghost s = content@;
    let ghost w = width as nat;
    let ghost ws = widths@;
    while start < n
        invariant
            n == s.len(),
            s == content@,
            w == width as nat,
            ws == widths@,
            ws.len() == n,
            start <= n,
            rows@ + wrap_from(s, ws, start as int, w) == wrap_table(s, ws, w),
        decreases n - start,
    {
        let e = find_line_end(content, n, start);
        proof {
            lemma_line_end_bounds(s, start as int);
        }
        let sc = scan_line(content, widths, start, e, width);
        let end: usize;
        let width_of: usize;
        let next: usize;
        if sc.fits {
            end = e;
            width_of = sc.width;
            next = if e < n { e + 1 } else { n };
        } else if sc.space > start {
            proof {
                lemma_soft_break_bounds(s, ws, start as int, e - 1, w);
            }
            end = sc.space;
            width_of = sc.space_width;
            next = sc.space + 1;
        } else if sc.stop > start {
            end = sc.stop;
            width_of = sc.width;
            next = sc.stop;
            proof {
                lemma_hard_break_at(s, ws, start as int, start + 1, sc.stop as int, e as int, w);
            }
        } else {
            end = start + 1;
            width_of = sc.first;
            next = start + 1;
            proof {
                if start + 1 < e {
                    lemma_span_mono(s, ws, start as int, start + 1, start + 2);
                }
                assert(span_width(s, ws, start as int, start + 1) == ws[start as int]) by {
                    assert(span_width(s, ws, start as int, start as int) == 0);
                }
            }
        }
        let row = Row { start, end, width: width_of };
        proof {
            let c = cut(s, ws, start as int, w);
            assert(c.0 == end);
            assert(row == row_of(s, ws, start as int, end as int));
            assert(wrap_from(s, ws, c.1, w) == wrap_from(s, ws, next as int, w));
            assert(rows@.push(row) + wrap_from(s, ws, next as int, w) =~= rows@ + wrap_from(
                s,
                ws,
                start as int,
                w,
            ));
        }
        rows.push(row);
        start = next;
    }
    proof {
        assert(rows@ =~= rows@ + wrap_from(s, ws, start as int, w));
    }
    rows
}

/// The columns each character of `content` takes.
fn measure(content: &str) -> (ws: Vec<usize>)
    ensures
        ws@ == char_widths(content@),
{
    let n = content.unicode_len();
    let mut ws: Vec<usize> = Vec::new();
    let mut i: usize = 0;
    while i < n
        invariant
            i <= n,
            n == content@.len(),
            ws@ =~= char_widths(content@).subrange(0, i as int),
        decreases n - i,
    {
        let cw: usize = match char_width(content.get_char(i)) {
            Some(c) => c,
            None => 0,
        };
        ws.push(cw);
        i = i + 1;
    }
    ws
}

/// Splits `content` into the rows it takes on a screen `width` columns
/// wide, each character measured by its display width.
pub fn wrap(content: &str, width: usize) -> (rows: Vec<Row>)
    ensures
        rows@ == wrap_spec(content@, width as nat),
{
    let ws = measure(content);
    wrap_with(content, &ws, width)
}

} // verus!
