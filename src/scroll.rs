use vstd::prelude::*;

verus! {

/// A window of `view_height` rows over `content_height` rows, whose first
/// visible row is `start_line`.
#[derive(Clone, Copy, Debug, PartialEq, Eq, Structural)]
pub struct ScrollBase {
    pub start_line: usize,
    pub view_height: usize,
    pub content_height: usize,
}

impl ScrollBase {
    /// The largest allowed offset.
    pub open spec fn max_start(self) -> nat {
        if self.content_height > self.view_height {
            (self.content_height - self.view_height) as nat
        } else {
            0
        }
    }

    pub open spec fn wf(self) -> bool {
        self.start_line <= self.max_start()
    }

    /// The window after `set_heights(view, content)`.
    pub open spec fn resized(self, view: usize, content: usize) -> ScrollBase {
        let r = ScrollBase { start_line: self.start_line, view_height: view, content_height: content };
        if self.start_line <= r.max_start() {
            r
        } else {
            ScrollBase { start_line: r.max_start() as usize, ..r }
        }
    }

    /// The window after `scroll_down(n)`.
    pub open spec fn down_by(self, n: usize) -> ScrollBase {
        if self.start_line + n <= self.max_start() {
            ScrollBase { start_line: (self.start_line + n) as usize, ..self }
        } else {
            ScrollBase { start_line: self.max_start() as usize, ..self }
        }
    }

    /// The window after `scroll_up(n)`.
    pub open spec fn up_by(self, n: usize) -> ScrollBase {
        if n <= self.start_line {
            ScrollBase { start_line: (self.start_line - n) as usize, ..self }
        } else {
            ScrollBase { start_line: 0, ..self }
        }
    }

    /// How many rows are in view.
    pub open spec fn visible_count(self) -> nat {
        if self.start_line + self.view_height <= self.content_height {
            self.view_height as nat
        } else if self.start_line <= self.content_height {
            (self.content_height - self.start_line) as nat
        } else {
            0
        }
    }

    pub open spec fn is_scrollable(self) -> bool {
        self.content_height > self.view_height
    }

    pub fn new() -> (r: ScrollBase)
        ensures
            r.start_line == 0,
            r.view_height == 0,
            r.content_height == 0,
            r.wf(),
    {
        ScrollBase { start_line: 0, view_height: 0, content_height: 0 }
    }

    fn max_start_exec(&self) -> (r: usize)
        ensures
            r == self.max_start(),
    {
        if self.content_height > self.view_height {
            self.content_height - self.view_height
        } else {
            0
        }
    }

    /// Sets both heights and clamps the offset into the new range.
    pub fn set_heights(&mut self, view_height: usize, content_height: usize)
        ensures
            *final(self) == old(self).resized(view_height, content_height),
            final(self).wf(),
    {
        self.view_height = view_height;
        self.content_height = content_height;
        let m = self.max_start_exec();
        if self.start_line > m {
            self.start_line = m;
        }
    }

    pub fn scrollable(&self) -> (r: bool)
        ensures
            r == self.is_scrollable(),
    {
        self.view_height < self.content_height
    }

    pub fn can_scroll_up(&self) -> (r: bool)
        ensures
            r == (self.start_line > 0),
    {
        self.start_line > 0
    }

    pub fn can_scroll_down(&self) -> (r: bool)
        ensures
            r == (self.start_line + self.view_height < self.content_height),
    {
        self.start_line < self.content_height && self.view_height < self.content_height
            - self.start_line
    }

    pub fn scroll_top(&mut self)
        requires
            old(self).wf(),
        ensures
            *final(self) == (ScrollBase { start_line: 0, ..*old(self) }),
            final(self).wf(),
    {
        self.start_line = 0;
    }

    pub fn scroll_bottom(&mut self)
        requires
            old(self).wf(),
        ensures
            *final(self) == (ScrollBase { start_line: old(self).max_start() as usize, ..*old(self) }),
            final(self).wf(),
    {
        self.start_line = self.max_start_exec();
    }

    /// Moves the window down by `n` rows, stopping at the last position.
    pub fn scroll_down(&mut self, n: usize)
        requires
            old(self).wf(),
        ensures
            *final(self) == old(self).down_by(n),
            final(self).wf(),
    {
        let m = self.max_start_exec();
        if n <= m - self.start_line {
            self.start_line = self.start_line + n;
        } else {
            self.start_line = m;
        }
    }

    /// Moves the window up by `n` rows, stopping at the first position.
    pub fn scroll_up(&mut self, n: usize)
        requires
            old(self).wf(),
        ensures
            *final(self) == old(self).up_by(n),
            final(self).wf(),
    {
        if n <= self.start_line {
            self.start_line = self.start_line - n;
        } else {
            self.start_line = 0;
        }
    }

    /// Height of the scrollbar's thumb: the share of the rows in view, at
    /// least one row.
    pub open spec fn thumb_height(self) -> int {
        let h = (self.view_height * self.view_height) / (self.content_height as int);
        if h < 1 {
            1
        } else {
            h
        }
    }

    /// First row of the thumb, in proportion to how far the window went down.
    pub open spec fn thumb_start(self) -> int {
        ((self.view_height - self.thumb_height()) * self.start_line) / ((self.content_height
            - self.view_height) as int)
    }

    /// The thumb, when the rows do not all fit and at least one is in view.
    pub open spec fn thumb(self) -> Option<(usize, usize)> {
        if self.is_scrollable() && self.view_height > 0 {
            Some((self.thumb_start() as usize, self.thumb_height() as usize))
        } else {
            None
        }
    }

    /// The scrollbar's thumb as its first row and its height, when the rows
    /// do not all fit and at least one is in view.
    pub fn scrollbar(&self) -> (r: Option<(usize, usize)>)
        requires
            self.wf(),
        ensures
            r == self.thumb(),
            match r {
                Some(t) => t.0 + t.1 <= self.view_height,
                None => true,
            },
    {
        if !(self.view_height < self.content_height) || self.view_height == 0 {
            return None;
        }
        let v = self.view_height as u128;
        let c = self.content_height as u128;
        let s = self.start_line as u128;
        proof {
            assert(v * v <= usize::MAX * usize::MAX) by (nonlinear_arith)
                requires
                    v <= usize::MAX,
            ;
            assert((v * v) / (c as int) <= v) by (nonlinear_arith)
                requires
                    0 < v < c,
            ;
        }
        let q = (v * v) / c;
        let h: u128 = if q < 1 {
            1
        } else {
            q
        };
        let m = c - v;
        proof {
            assert((v - h) * s <= (v - h) * m) by (nonlinear_arith)
                requires
                    h <= v,
                    s <= m,
            ;
            assert((v - h) * m <= v * m) by (nonlinear_arith)
                requires
                    h <= v,
            ;
            assert(v * m <= usize::MAX * usize::MAX) by (nonlinear_arith)
                requires
                    v <= usize::MAX,
                    m <= usize::MAX,
            ;
            assert(((v - h) * s) / (m as int) <= v - h) by (nonlinear_arith)
                requires
                    (v - h) * s <= (v - h) * m,
                    m > 0,
            ;
        }
        let start = ((v - h) * s) / m;
        Some((start as usize, h as usize))
    }

    /// Indices of the rows in view: `start_line` up to, not including, the
    /// returned bound.
    pub fn visible_end(&self) -> (r: usize)
        ensures
            r == if self.start_line + self.view_height <= self.content_height {
                self.start_line + self.view_height
            } else if self.start_line <= self.content_height {
                self.content_height as int
            } else {
                self.start_line as int
            },
    {
        if self.start_line > self.content_height {
            self.start_line
        } else if self.view_height <= self.content_height - self.start_line {
            self.start_line + self.view_height
        } else {
            self.content_height
        }
    }
}

} // verus!
