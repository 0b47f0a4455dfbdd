use vstd::prelude::*;

verus! {

#[derive(Clone, Copy, Debug, PartialEq, Eq, Structural)]
pub enum HAlign {
    Left,
    Center,
    Right,
}

#[derive(Clone, Copy, Debug, PartialEq, Eq, Structural)]
pub enum VAlign {
    Top,
    Center,
    Bottom,
}

#[derive(Clone, Copy, Debug, PartialEq, Eq, Structural)]
pub struct Align {
    pub h: HAlign,
    pub v: VAlign,
}

/// The free space left when `content` is placed in `container`.
pub open spec fn slack(content: usize, container: usize) -> int {
    if content >= container { 0 } else { container - content }
}

impl HAlign {
    pub open spec fn offset_of(self, content: usize, container: usize) -> int {
        match self {
            HAlign::Left => 0,
            HAlign::Center => slack(content, container) / 2,
            HAlign::Right => slack(content, container),
        }
    }

    /// Column at which content of the given width starts inside the container.
    pub fn get_offset(&self, content: usize, container: usize) -> (r: usize)
        ensures
            r == self.offset_of(content, container),
    {
        let free: usize = if content >= container { 0 } else { container - content };
        match self {
            HAlign::Left => 0,
            HAlign::Center => free / 2,
            HAlign::Right => free,
        }
    }
}

impl VAlign {
    pub open spec fn offset_of(self, content: usize, container: usize) -> int {
        match self {
            VAlign::Top => 0,
            VAlign::Center => slack(content, container) / 2,
            VAlign::Bottom => slack(content, container),
        }
    }

    /// Row at which content of the given height starts inside the container.
    pub fn get_offset(&self, content: usize, container: usize) -> (r: usize)
        ensures
            r == self.offset_of(content, container),
    {
        let free: usize = if content >= container { 0 } else { container - content };
        match self {
            VAlign::Top => 0,
            VAlign::Center => free / 2,
            VAlign::Bottom => free,
        }
    }
}

impl Align {
    pub fn top_left() -> (r: Align)
        ensures
            r == (Align { h: HAlign::Left, v: VAlign::Top }),
    {
        Align { h: HAlign::Left, v: VAlign::Top }
    }

    pub fn center() -> (r: Align)
        ensures
            r == (Align { h: HAlign::Center, v: VAlign::Center }),
    {
        Align { h: HAlign::Center, v: VAlign::Center }
    }
}

} // verus!
