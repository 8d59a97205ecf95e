//! The desktop: the top-level container of windows, over a patterned background.
use vstd::prelude::*;
use crate::draw::Cell;
use crate::event::Event;
use crate::geometry::Rect;
use crate::group::Group;
use crate::label::fill_rect;
use crate::palette::{Attr, TvColor};
use crate::terminal::Terminal;
use crate::view::{Context, Widget, is_command_set_changed};
use crate::window::Window;

verus! {

pub struct Desktop {
    bounds: Rect,
    children: Group<Window>,
}

impl Desktop {
    pub closed spec fn windows(&self) -> Group<Window> {
        self.children
    }

    pub closed spec fn spec_desktop_bounds(&self) -> Rect {
        self.bounds
    }

    pub open spec fn wf(&self) -> bool {
        self.windows().wf()
    }

    pub fn new(bounds: Rect) -> (r: Desktop)
        ensures
            r.wf(),
            r.spec_desktop_bounds() == bounds,
            r.windows().group_bounds() == bounds,
            r.windows().kids().len() == 0,
    {
        Desktop { bounds, children: Group::new(bounds) }
    }

    /// Adds a window (bounds relative to the desktop's origin) and gives it the focus.
    pub fn add(&mut self, view: Window)
        requires
            old(self).wf(),
            view.wf(),
        ensures
            final(self).wf(),
            final(self).spec_desktop_bounds() == old(self).spec_desktop_bounds(),
            final(self).windows().kids().len() == old(self).windows().kids().len() + 1,
            final(self).windows().focus_index() == old(self).windows().kids().len(),
            final(self).windows().kids().last().spec_focused(),
            final(self).windows().kids().last().spec_bounds() == view.spec_bounds().spec_moved(
                old(self).windows().group_bounds().a.x as int,
                old(self).windows().group_bounds().a.y as int,
            ),
            forall|i: int| 0 <= i < old(self).windows().kids().len() ==> (#[trigger] final(self).windows().kids()[i]).spec_bounds()
                == old(self).windows().kids()[i].spec_bounds(),
            forall|i: int| 0 <= i < old(self).windows().kids().len() ==> !(#[trigger] final(self).windows().kids()[i]).spec_focused(),
    {
        self.children.add(view);
        let last = self.children.len() - 1;
        if self.children.child_at(last).can_focus() {
            self.children.clear_all_focus();
            self.children.set_focus_to(last);
        }
    }

    pub fn child_count(&self) -> (r: usize)
        ensures
            r == self.windows().kids().len(),
    {
        self.children.len()
    }

    pub fn child_at(&self, index: usize) -> (r: &Window)
        requires
            index < self.windows().kids().len(),
        ensures
            *r == self.windows().kids()[index as int],
    {
        self.children.child_at(index)
    }

    pub fn bounds(&self) -> (r: Rect)
        ensures
            r == self.spec_desktop_bounds(),
    {
        self.bounds
    }

    pub fn set_bounds(&mut self, bounds: Rect)
        requires
            old(self).wf(),
        ensures
            final(self).wf(),
            final(self).spec_desktop_bounds() == bounds,
    {
        self.bounds = bounds;
        self.children.set_bounds(bounds);
    }

    /// `t1` is `pre` with the desktop's bounds filled with its pattern where the clip admits.
    pub open spec fn pattern_filled(&self, pre: Terminal, t1: Terminal) -> bool {
        &&& pre.drawn_into(t1)
        &&& forall|x: int, y: int|
            pre.in_screen(x, y) ==> #[trigger] t1.cell(x, y) == if pre.writable(x, y) && self.spec_desktop_bounds().spec_contains(x, y) {
                Cell { ch: '\u{2591}', attr: Attr { fg: TvColor::LightGray, bg: TvColor::DarkGray } }
            } else {
                pre.cell(x, y)
            }
    }

    /// Drawing the desktop: its pattern, then its windows as a container draws them.
    pub open spec fn spec_drawn(&self, pre: Terminal, post: Terminal) -> bool {
        exists|t1: Terminal| #[trigger] self.pattern_filled(pre, t1) && self.windows().group_drawn(t1, post)
    }

    /// The background pattern, then the windows in order.
    pub fn draw(&self, terminal: &mut Terminal)
        requires
            self.wf(),
            old(terminal).wf(),
        ensures
            old(terminal).drawn_into(*final(terminal)),
            self.spec_drawn(*old(terminal), *final(terminal)),
    {
        let ghost t0 = *terminal;
        fill_rect(terminal, self.bounds, '\u{2591}', Attr::new(TvColor::LightGray, TvColor::DarkGray));
        let ghost t1 = *terminal;
        self.children.draw_clipped(terminal);
        proof {
            Terminal::lemma_drawn_into_trans(t0, t1, *terminal);
        }
        assert(self.pattern_filled(t0, t1));
    }

    pub fn update_cursor(&self, terminal: &mut Terminal)
        requires
            self.wf(),
            old(terminal).wf(),
        ensures
            old(terminal).cursor_moved_into(*final(terminal)),
    {
        self.children.update_cursor(terminal);
    }

    /// Routes the event through the windows as a container does.
    pub fn handle_event(&mut self, event: &mut Event, ctx: &mut Context)
        requires
            old(self).wf(),
        ensures
            final(self).wf(),
            final(self).spec_desktop_bounds() == old(self).spec_desktop_bounds(),
            final(ctx).commands == old(ctx).commands,
            is_command_set_changed(*old(event)) ==> final(self).windows().synced(old(ctx).commands),
            old(self).windows().group_handled(final(self).windows(), *old(event), *final(event), old(ctx).commands),
    {
        self.children.handle_event(event, ctx);
    }
}

} // verus!
