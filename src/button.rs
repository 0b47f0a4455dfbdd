use vstd::prelude::*;
use vstd::string::*;
use std::rc::Rc;
use crate::event::EventResult;
use crate::text_view::{sat_add, Print};
use crate::vec::Vec2;

verus! {

/// A one-line label that hands out its callback when Enter is pressed.
pub struct Button<F> {
    label: String,
    callback: Rc<F>,
}

/// The two styles of the palette that widgets pick from.
#[derive(Clone, Copy, Debug, PartialEq, Eq, Structural)]
pub enum Style {
    Primary,
    Highlight,
}

/// The key code of Enter.
pub const ENTER: i32 = 10;

impl<F> Button<F> {
    pub closed spec fn label_view(&self) -> Seq<char> {
        self.label@
    }

    /// The callback the button holds.
    pub closed spec fn callback_view(&self) -> F {
        *self.callback
    }

    /// A button showing `label` and holding `cb`.
    pub fn new(label: &str, cb: F) -> (r: Button<F>)
        ensures
            r.label_view() == label@,
            r.callback_view() == cb,
    {
        Button { label: label.to_owned(), callback: Rc::new(cb) }
    }

    /// The label framed by two brackets, on one line, whatever the space.
    pub fn get_min_size(&self, _size: Vec2) -> (r: Vec2)
        ensures
            r == (Vec2 { x: sat_add(self.label_view().len() as usize, 2), y: 1 }),
    {
        let n = self.label.as_str().unicode_len();
        let x = if n > usize::MAX - 2 {
            usize::MAX
        } else {
            n + 2
        };
        Vec2::new(x, 1)
    }

    /// The label between brackets at both ends of a line `size.x` wide,
    /// highlighted when the button has focus.
    pub fn draw(&self, size: Vec2, focused: bool) -> (r: (Style, Vec<Print>))
        requires
            size.x >= 1,
        ensures
            r.0 == if focused {
                Style::Highlight
            } else {
                Style::Primary
            },
            r.1@.len() == 3,
            r.1@[0].x == 1 && r.1@[0].y == 0 && r.1@[0].text@ == self.label_view(),
            r.1@[1].x == 0 && r.1@[1].y == 0 && r.1@[1].text@ == seq!['<'],
            r.1@[2].x == size.x - 1 && r.1@[2].y == 0 && r.1@[2].text@ == seq!['>'],
    {
        let style = if focused {
            Style::Highlight
        } else {
            Style::Primary
        };
        let mut out: Vec<Print> = Vec::new();
        out.push(Print { x: 1, y: 0, text: self.label.clone() });
        let open = "<".to_owned();
        let close = ">".to_owned();
        proof {
            reveal_strlit("<");
            reveal_strlit(">");
        }
        out.push(Print { x: 0, y: 0, text: open });
        out.push(Print { x: size.x - 1, y: 0, text: close });
        (style, out)
    }

    /// Enter consumes the event and hands out the callback; any other key
    /// is ignored.
    pub fn on_key_event(&self, ch: i32) -> (r: EventResult<F>)
        ensures
            ch == ENTER ==> r is Consumed && r->Consumed_0 is Some && *r->Consumed_0->0
                == self.callback_view(),
            ch != ENTER ==> r is Ignored,
    {
        if ch == ENTER {
            EventResult::Consumed(Some(Rc::clone(&self.callback)))
        } else {
            EventResult::Ignored
        }
    }

    /// A button always accepts focus.
    pub fn take_focus(&self) -> (r: bool)
        ensures
            r,
    {
        true
    }
}

} // verus!
