//! The container: an ordered list of owned children with one focus index,
//! clipped drawing, focus traversal and event routing.
use vstd::prelude::*;
use crate::command::{CommandId, CommandSet};
use crate::draw::{Cell, DrawBuffer};
use crate::label::fill_rect;
use crate::event::{Event, EventType, KB_SHIFT_TAB, KB_TAB, is_mouse, nothing_event};
use crate::geometry::{Point, Rect};
use crate::palette::Attr;
use crate::terminal::Terminal;
use crate::view::{Context, StateFlags, Widget, is_command_set_changed};

verus! {

/// `x` brought back into `0..n` after a step of at most `n` forwards.
pub open spec fn wrap_fwd(n: int, x: int) -> int {
    if x >= n {
        x - n
    } else {
        x
    }
}

/// `x` brought back into `0..n` after a step of at most `n` backwards.
pub open spec fn wrap_back(n: int, x: int) -> int {
    if x < 0 {
        x + n
    } else {
        x
    }
}

/// Whether handling `ev0` can take `a` to `b`, whatever the event becomes.
pub open spec fn handles_some<V: Widget>(a: V, b: V, ev0: Event, cmds: CommandSet) -> bool {
    exists|e: Event| #[trigger] a.handled(b, ev0, e, cmds)
}

/// Two states of one child that differ at most in focus.
pub open spec fn same_but_focus<V: Widget>(a: V, b: V) -> bool {
    &&& b.inv()
    &&& b.spec_command() == a.spec_command()
    &&& b.spec_is_default() == a.spec_is_default()
    &&& b.spec_text() == a.spec_text()
    &&& b.spec_bounds() == a.spec_bounds()
    &&& b.spec_can_focus() == a.spec_can_focus()
}

/// A container of child views. Children are stored in insertion order; `focused`
/// is the index of the current child.
pub struct Group<V> {
    bounds: Rect,
    children: Vec<V>,
    focused: usize,
    background: Option<Attr>,
    selected: bool,
    state: StateFlags,
}

impl<V: Widget> Group<V> {
    pub closed spec fn kids(&self) -> Seq<V> {
        self.children@
    }

    pub closed spec fn focus_index(&self) -> int {
        self.focused as int
    }

    pub closed spec fn group_bounds(&self) -> Rect {
        self.bounds
    }

    pub closed spec fn selected_flag(&self) -> bool {
        self.selected
    }

    /// Every child is well formed, the focus index names a child when there is
    /// one, and no child but the current one holds focus.
    pub open spec fn wf(&self) -> bool {
        &&& forall|i: int| 0 <= i < self.kids().len() ==> (#[trigger] self.kids()[i]).inv()
        &&& (self.kids().len() > 0 ==> 0 <= self.focus_index() < self.kids().len())
        &&& (self.kids().len() == 0 ==> self.focus_index() == 0)
        &&& forall|i: int|
            0 <= i < self.kids().len() && i != self.focus_index() ==> !(#[trigger] self.kids()[
                i
            ]).spec_focused()
    }

    /// No two children hold focus at once.
    pub open spec fn at_most_one_focused(&self) -> bool {
        forall|i: int, j: int|
            0 <= i < self.kids().len() && 0 <= j < self.kids().len() && i != j ==> !(
            #[trigger] self.kids()[i].spec_focused() && #[trigger] self.kids()[j].spec_focused())
    }

    /// Whether `d` is the distance forwards from `cur` to the next focusable child.
    pub open spec fn next_focus_at(&self, cur: int, d: int) -> bool {
        let n = self.kids().len() as int;
        &&& 1 <= d <= n
        &&& self.kids()[wrap_fwd(n, cur + d)].spec_can_focus()
        &&& forall|e: int| 1 <= e < d ==> !#[trigger] self.kids()[wrap_fwd(n, cur + e)].spec_can_focus()
    }

    /// Whether `d` is the distance backwards from `cur` to the previous focusable child.
    pub open spec fn prev_focus_at(&self, cur: int, d: int) -> bool {
        let n = self.kids().len() as int;
        &&& 1 <= d <= n
        &&& self.kids()[wrap_back(n, cur - d)].spec_can_focus()
        &&& forall|e: int| 1 <= e < d ==> !#[trigger] self.kids()[wrap_back(n, cur - e)].spec_can_focus()
    }

    pub open spec fn any_focusable(&self) -> bool {
        exists|i: int| 0 <= i < self.kids().len() && #[trigger] self.kids()[i].spec_can_focus()
    }

    /// `post` has the same children as this group up to focus, and exactly the
    /// child at `idx` holds focus.
    pub open spec fn refocused(&self, post: Group<V>, idx: int) -> bool {
        &&& post.wf()
        &&& post.group_bounds() == self.group_bounds()
        &&& post.selected_flag() == self.selected_flag()
        &&& post.spec_state() == self.spec_state()
        &&& post.spec_background() == self.spec_background()
        &&& post.kids().len() == self.kids().len()
        &&& post.focus_index() == idx
        &&& forall|i: int| 0 <= i < self.kids().len() ==> same_but_focus(self.kids()[i], #[trigger] post.kids()[i])
        &&& forall|i: int| 0 <= i < self.kids().len() ==> (#[trigger] post.kids()[i]).spec_focused() == (i == idx)
    }

    pub closed spec fn spec_state(&self) -> StateFlags {
        self.state
    }

    /// Whether child `k` is the first child whose bounds hold `p`.
    pub open spec fn first_hit(&self, p: Point, k: int) -> bool {
        &&& 0 <= k < self.kids().len()
        &&& self.kids()[k].spec_bounds().spec_contains(p.x as int, p.y as int)
        &&& forall|j: int| 0 <= j < k ==> !(#[trigger] self.kids()[j]).spec_bounds().spec_contains(p.x as int, p.y as int)
    }

    pub open spec fn any_hit(&self, p: Point) -> bool {
        exists|k: int| 0 <= k < self.kids().len() && (#[trigger] self.kids()[k]).spec_bounds().spec_contains(p.x as int, p.y as int)
    }

    /// `post` is this group after child `k` alone handled `ev0`, turning it into `ev1`.
    pub open spec fn delivered(&self, post: Group<V>, k: int, ev0: Event, ev1: Event, cmds: CommandSet) -> bool {
        &&& post.wf()
        &&& post.group_bounds() == self.group_bounds()
        &&& post.selected_flag() == self.selected_flag()
        &&& post.spec_state() == self.spec_state()
        &&& post.spec_background() == self.spec_background()
        &&& post.focus_index() == self.focus_index()
        &&& post.kids().len() == self.kids().len()
        &&& forall|j: int| 0 <= j < self.kids().len() && j != k ==> #[trigger] post.kids()[j] == self.kids()[j]
        &&& self.kids()[k].handled(post.kids()[k], ev0, ev1, cmds)
    }

    /// Event handling of a group: Tab and Shift-Tab move the focus and are
    /// consumed; a mouse event goes to the first child under the pointer, which
    /// a press focuses first when it can take focus; a broadcast goes to every
    /// child; any other event goes to the current child alone.
    pub open spec fn group_handled(&self, post: Group<V>, ev0: Event, ev1: Event, cmds: CommandSet) -> bool {
        let n = self.kids().len() as int;
        let f = self.focus_index();
        if ev0.what == EventType::Keyboard && ev0.key_code == KB_TAB {
            &&& ev1 == nothing_event()
            &&& post.spec_state() == self.spec_state()
            &&& post.spec_background() == self.spec_background()
            &&& if self.any_focusable() {
                exists|d: int| self.next_focus_at(f, d) && #[trigger] self.refocused(post, wrap_fwd(n, f + d))
            } else {
                post == *self
            }
        } else if ev0.what == EventType::Keyboard && ev0.key_code == KB_SHIFT_TAB {
            &&& ev1 == nothing_event()
            &&& post.spec_state() == self.spec_state()
            &&& post.spec_background() == self.spec_background()
            &&& if self.any_focusable() {
                exists|d: int| self.prev_focus_at(f, d) && #[trigger] self.refocused(post, wrap_back(n, f - d))
            } else {
                post == *self
            }
        } else if is_mouse(ev0.what) && self.any_hit(ev0.mouse.pos) {
            exists|k: int, mid: Group<V>|
                self.first_hit(ev0.mouse.pos, k) && (if ev0.what == EventType::MouseDown && self.kids()[k].spec_can_focus() {
                    self.refocused(mid, k) && mid.spec_state() == self.spec_state() && mid.spec_background() == self.spec_background()
                } else {
                    mid == *self
                }) && #[trigger] mid.delivered(post, k, ev0, ev1, cmds)
        } else if ev0.what == EventType::Broadcast {
            &&& ev1 == ev0
            &&& post.wf()
            &&& post.group_bounds() == self.group_bounds()
            &&& post.selected_flag() == self.selected_flag()
            &&& post.spec_state() == self.spec_state()
            &&& post.spec_background() == self.spec_background()
            &&& post.focus_index() == f
            &&& post.kids().len() == n
            &&& forall|i: int| 0 <= i < n ==> #[trigger] handles_some(self.kids()[i], post.kids()[i], ev0, cmds)
        } else if 0 <= f < n {
            self.delivered(post, f, ev0, ev1, cmds)
        } else {
            post == *self && ev1 == ev0
        }
    }

    /// Each group satisfying `wf` has at most one focused child.
    pub proof fn lemma_wf_at_most_one_focused(&self)
        requires
            self.wf(),
        ensures
            self.at_most_one_focused(),
    {
    }

    pub fn new(bounds: Rect) -> (r: Group<V>)
        ensures
            r.wf(),
            r.kids().len() == 0,
            r.group_bounds() == bounds,
            !r.selected_flag(),
    {
        Group { bounds, children: Vec::new(), focused: 0, background: None, selected: false, state: 0 }
    }

    /// A group that fills its bounds with `background` before drawing its children.
    pub fn with_background(bounds: Rect, background: Attr) -> (r: Group<V>)
        ensures
            r.wf(),
            r.kids().len() == 0,
            r.group_bounds() == bounds,
            !r.selected_flag(),
    {
        Group {
            bounds,
            children: Vec::new(),
            focused: 0,
            background: Some(background),
            selected: false,
            state: 0,
        }
    }

    pub fn len(&self) -> (r: usize)
        ensures
            r == self.kids().len(),
    {
        self.children.len()
    }

    pub fn is_empty(&self) -> (r: bool)
        ensures
            r == (self.kids().len() == 0),
    {
        self.children.len() == 0
    }

    /// The index of the current child.
    pub fn focused_index(&self) -> (r: usize)
        ensures
            r == self.focus_index(),
    {
        self.focused
    }

    pub fn child_at(&self, index: usize) -> (r: &V)
        requires
            index < self.kids().len(),
        ensures
            *r == self.kids()[index as int],
    {
        &self.children[index]
    }

    /// Mutable access to one child; the caller keeps the group well formed.
    pub fn child_at_mut(&mut self, index: usize) -> (r: &mut V)
        requires
            index < old(self).kids().len(),
        ensures
            *r == old(self).kids()[index as int],
            final(self).kids() == old(self).kids().update(index as int, *final(r)),
            final(self).focus_index() == old(self).focus_index(),
            final(self).group_bounds() == old(self).group_bounds(),
            final(self).selected_flag() == old(self).selected_flag(),
    {
        &mut self.children[index]
    }

    /// Adds a child whose bounds are relative to this group's origin; they are
    /// made absolute once, here.
    pub fn add(&mut self, view: V)
        requires
            old(self).wf(),
            view.inv(),
        ensures
            final(self).wf(),
            final(self).group_bounds() == old(self).group_bounds(),
            final(self).selected_flag() == old(self).selected_flag(),
            final(self).focus_index() == old(self).focus_index(),
            final(self).kids().len() == old(self).kids().len() + 1,
            forall|i: int| 0 <= i < old(self).kids().len() ==> #[trigger] final(self).kids()[i] == old(self).kids()[i],
            final(self).kids().last().spec_bounds() == view.spec_bounds().spec_moved(
                old(self).group_bounds().a.x as int,
                old(self).group_bounds().a.y as int,
            ),
            final(self).kids().last().spec_can_focus() == view.spec_can_focus(),
            final(self).kids().last().spec_command() == view.spec_command(),
            final(self).kids().last().spec_is_default() == view.spec_is_default(),
            final(self).kids().last().spec_text() == view.spec_text(),
    {
        let mut view = view;
        let b = view.bounds();
        let moved = b.moved(self.bounds.a.x as i32, self.bounds.a.y as i32);
        view.set_bounds(moved);
        if self.children.len() > 0 && view.is_focused() {
            view.set_focus(false);
        }
        self.children.push(view);
    }

    /// Hands an event to one child.
    fn dispatch_to(&mut self, i: usize, event: &mut Event, ctx: &mut Context)
        requires
            old(self).wf(),
            i < old(self).kids().len(),
        ensures
            final(self).wf(),
            final(self).group_bounds() == old(self).group_bounds(),
            final(self).selected_flag() == old(self).selected_flag(),
            final(self).focus_index() == old(self).focus_index(),
            final(self).kids().len() == old(self).kids().len(),
            forall|j: int| 0 <= j < old(self).kids().len() && j != i ==> #[trigger] final(self).kids()[j] == old(self).kids()[j],
            final(self).kids()[i as int].spec_bounds() == old(self).kids()[i as int].spec_bounds(),
            final(ctx).commands == old(ctx).commands,
            is_command_set_changed(*old(event)) ==> final(self).kids()[i as int].synced(old(ctx).commands),
            old(self).delivered(*final(self), i as int, *old(event), *final(event), old(ctx).commands),
    {
        self.children[i].handle_event(event, ctx);
    }

    fn unfocus_current(&mut self)
        requires
            old(self).wf(),
        ensures
            final(self).wf(),
            final(self).group_bounds() == old(self).group_bounds(),
            final(self).selected_flag() == old(self).selected_flag(),
            final(self).spec_state() == old(self).spec_state(),
            final(self).spec_background() == old(self).spec_background(),
            final(self).focus_index() == old(self).focus_index(),
            final(self).kids().len() == old(self).kids().len(),
            forall|i: int| 0 <= i < old(self).kids().len() ==> same_but_focus(old(self).kids()[i], #[trigger] final(self).kids()[i]),
            forall|i: int| 0 <= i < old(self).kids().len() ==> !(#[trigger] final(self).kids()[i]).spec_focused(),
    {
        if self.focused < self.children.len() {
            let f = self.focused;
            self.children[f].set_focus(false);
        }
    }

    fn focus_child(&mut self, idx: usize)
        requires
            old(self).wf(),
            idx < old(self).kids().len(),
        ensures
            old(self).refocused(*final(self), idx as int),
    {
        let ghost g0 = *self;
        self.unfocus_current();
        self.focused = idx;
        self.children[idx].set_focus(true);
        assert forall|i: int| 0 <= i < g0.kids().len() implies same_but_focus(g0.kids()[i], #[trigger] self.kids()[i]) by {}
    }

    /// Focuses the first focusable child, if there is one.
    pub fn set_initial_focus(&mut self)
        requires
            old(self).wf(),
        ensures
            final(self).wf(),
            old(self).any_focusable() ==> exists|i: int| {
                &&& 0 <= i < old(self).kids().len()
                &&& old(self).kids()[i].spec_can_focus()
                &&& forall|j: int| 0 <= j < i ==> !#[trigger] old(self).kids()[j].spec_can_focus()
                &&& old(self).refocused(*final(self), i)
            },
            !old(self).any_focusable() ==> *final(self) == *old(self),
    {
        let n = self.children.len();
        let mut i: usize = 0;
        while i < n
            invariant
                n == self.kids().len(),
                i <= n,
                *self == *old(self),
                old(self).wf(),
                forall|j: int| 0 <= j < i ==> !#[trigger] self.kids()[j].spec_can_focus(),
            decreases n - i,
        {
            if self.children[i].can_focus() {
                self.focus_child(i);
                return;
            }
            i = i + 1;
        }
    }

    /// Takes focus from every child.
    pub fn clear_all_focus(&mut self)
        requires
            old(self).wf(),
        ensures
            final(self).wf(),
            final(self).group_bounds() == old(self).group_bounds(),
            final(self).selected_flag() == old(self).selected_flag(),
            final(self).spec_state() == old(self).spec_state(),
            final(self).spec_background() == old(self).spec_background(),
            final(self).focus_index() == old(self).focus_index(),
            final(self).kids().len() == old(self).kids().len(),
            forall|i: int| 0 <= i < old(self).kids().len() ==> same_but_focus(old(self).kids()[i], #[trigger] final(self).kids()[i]),
            forall|i: int| 0 <= i < old(self).kids().len() ==> !(#[trigger] final(self).kids()[i]).spec_focused(),
    {
        let n = self.children.len();
        let mut i: usize = 0;
        while i < n
            invariant
                n == self.kids().len(),
                n == old(self).kids().len(),
                i <= n,
                self.wf(),
                self.group_bounds() == old(self).group_bounds(),
                self.selected_flag() == old(self).selected_flag(),
                self.spec_state() == old(self).spec_state(),
                self.spec_background() == old(self).spec_background(),
                self.focus_index() == old(self).focus_index(),
                forall|j: int| 0 <= j < n ==> same_but_focus(old(self).kids()[j], #[trigger] self.kids()[j]),
                forall|j: int| 0 <= j < i ==> !(#[trigger] self.kids()[j]).spec_focused(),
                forall|j: int| i <= j < n ==> (#[trigger] self.kids()[j]) == old(self).kids()[j],
            decreases n - i,
        {
            self.children[i].set_focus(false);
            i = i + 1;
        }
    }

    /// Makes the child at `index` the current one and focuses it; an index out
    /// of range is ignored.
    pub fn set_focus_to(&mut self, index: usize)
        requires
            old(self).wf(),
        ensures
            index < old(self).kids().len() ==> old(self).refocused(*final(self), index as int),
            index >= old(self).kids().len() ==> *final(self) == *old(self),
    {
        if index < self.children.len() {
            self.focus_child(index);
        }
    }

    /// Focuses the next focusable child after the current one, wrapping around;
    /// with no focusable child nothing changes.
    pub fn select_next(&mut self)
        requires
            old(self).wf(),
        ensures
            final(self).wf(),
            !old(self).any_focusable() ==> *final(self) == *old(self),
            old(self).any_focusable() ==> exists|d: int|
                old(self).next_focus_at(old(self).focus_index(), d) && old(self).refocused(
                    *final(self),
                    wrap_fwd(old(self).kids().len() as int, old(self).focus_index() + d),
                ),
    {
        let n = self.children.len();
        if n == 0 {
            return;
        }
        let cur = self.focused;
        let mut k: usize = 0;
        while k < n
            invariant
                n == self.kids().len(),
                cur == self.focus_index(),
                cur < n,
                k <= n,
                *self == *old(self),
                old(self).wf(),
                forall|e: int| 1 <= e <= k ==> !#[trigger] self.kids()[wrap_fwd(n as int, cur + e)].spec_can_focus(),
            decreases n - k,
        {
            let d = k + 1;
            let idx = if d >= n - cur { d - (n - cur) } else { cur + d };
            if self.children[idx].can_focus() {
                assert(self.next_focus_at(cur as int, d as int));
                self.focus_child(idx);
                return;
            }
            k = d;
        }
        assert forall|i: int| 0 <= i < n implies !#[trigger] self.kids()[i].spec_can_focus() by {
            let e = if i > cur { i - cur } else { i + n - cur };
            assert(wrap_fwd(n as int, cur + e) == i);
        }
    }

    /// Focuses the previous focusable child before the current one, wrapping
    /// around; with no focusable child nothing changes.
    pub fn select_previous(&mut self)
        requires
            old(self).wf(),
        ensures
            final(self).wf(),
            !old(self).any_focusable() ==> *final(self) == *old(self),
            old(self).any_focusable() ==> exists|d: int|
                old(self).prev_focus_at(old(self).focus_index(), d) && old(self).refocused(
                    *final(self),
                    wrap_back(old(self).kids().len() as int, old(self).focus_index() - d),
                ),
    {
        let n = self.children.len();
        if n == 0 {
            return;
        }
        let cur = self.focused;
        let mut k: usize = 0;
        while k < n
            invariant
                n == self.kids().len(),
                cur == self.focus_index(),
                cur < n,
                k <= n,
                *self == *old(self),
                old(self).wf(),
                forall|e: int| 1 <= e <= k ==> !#[trigger] self.kids()[wrap_back(n as int, cur - e)].spec_can_focus(),
            decreases n - k,
        {
            let d = k + 1;
            let idx = if cur < d { n - (d - cur) } else { cur - d };
            if self.children[idx].can_focus() {
                assert(self.prev_focus_at(cur as int, d as int));
                self.focus_child(idx);
                return;
            }
            k = d;
        }
        assert forall|i: int| 0 <= i < n implies !#[trigger] self.kids()[i].spec_can_focus() by {
            let e = if i < cur { cur - i } else { cur + n - i };
            assert(wrap_back(n as int, cur - e) == i);
        }
    }
}

impl<V: Widget> Group<V> {
    pub closed spec fn spec_background(&self) -> Option<Attr> {
        self.background
    }

    /// `t0` is `pre` with the group's bounds pushed on the clip stack and its
    /// background, if it has one, painted over the cells that the clip admits.
    pub open spec fn painted_background(&self, pre: Terminal, t0: Terminal) -> bool {
        &&& t0.wf()
        &&& t0.spec_width() == pre.spec_width()
        &&& t0.spec_height() == pre.spec_height()
        &&& t0.clips().len() == pre.clips().len() + 1
        &&& t0.clips().drop_last() == pre.clips()
        &&& t0.cursor_request() == pre.cursor_request()
        &&& t0.active_bounds() == pre.active_bounds()
        &&& forall|x: int, y: int| #[trigger] t0.writable(x, y) == (pre.writable(x, y) && self.group_bounds().spec_contains(x, y))
        &&& forall|x: int, y: int| #[trigger] t0.prev_cell(x, y) == pre.prev_cell(x, y)
        &&& forall|x: int, y: int|
            pre.in_screen(x, y) ==> #[trigger] t0.cell(x, y) == match self.spec_background() {
                Some(a) => if pre.writable(x, y) && self.group_bounds().spec_contains(x, y) {
                    Cell { ch: ' ', attr: a }
                } else {
                    pre.cell(x, y)
                },
                None => pre.cell(x, y),
            }
    }

    /// `ts[i + 1]` is `ts[i]` after the draw of child `i` when that child meets
    /// the group's bounds, and `ts[i]` itself when it does not.
    pub open spec fn children_drawn(&self, ts: Seq<Terminal>) -> bool {
        &&& ts.len() == self.kids().len() + 1
        &&& forall|i: int|
            0 <= i < self.kids().len() ==> if self.group_bounds().spec_intersects(#[trigger] self.kids()[i].spec_bounds()) {
                ts[i].drawn_into(ts[i + 1]) && self.kids()[i].drawn(ts[i], ts[i + 1])
            } else {
                ts[i + 1] == ts[i]
            }
    }

    /// Drawing a group: the background, then the children that meet the
    /// bounds in order, all clipped to the bounds; no cell outside them changes.
    pub open spec fn group_drawn(&self, pre: Terminal, post: Terminal) -> bool {
        &&& pre.drawn_into(post)
        &&& forall|x: int, y: int|
            pre.in_screen(x, y) && !self.group_bounds().spec_contains(x, y) ==> #[trigger] post.cell(x, y) == pre.cell(x, y)
        &&& exists|ts: Seq<Terminal>|
            self.painted_background(pre, ts[0]) && self.children_drawn(ts) && forall|x: int, y: int|
                #[trigger] post.cell(x, y) == ts.last().cell(x, y)
    }

    /// Moves the group to `bounds` and every child by the same offset.
    pub fn move_to(&mut self, bounds: Rect)
        requires
            old(self).wf(),
        ensures
            final(self).wf(),
            final(self).group_bounds() == bounds,
            final(self).selected_flag() == old(self).selected_flag(),
            final(self).spec_state() == old(self).spec_state(),
            final(self).spec_background() == old(self).spec_background(),
            final(self).focus_index() == old(self).focus_index(),
            final(self).kids().len() == old(self).kids().len(),
            forall|i: int| 0 <= i < old(self).kids().len() ==> (#[trigger] final(self).kids()[i]).spec_bounds()
                == old(self).kids()[i].spec_bounds().spec_moved(
                    bounds.a.x - old(self).group_bounds().a.x,
                    bounds.a.y - old(self).group_bounds().a.y,
                ),
            forall|i: int| 0 <= i < old(self).kids().len() ==> (#[trigger] final(self).kids()[i]).spec_focused()
                == old(self).kids()[i].spec_focused() && final(self).kids()[i].spec_can_focus() == old(self).kids()[i].spec_can_focus(),
            old(self).moved_to(*final(self), bounds),
    {
        let dx = bounds.a.x as i32 - self.bounds.a.x as i32;
        let dy = bounds.a.y as i32 - self.bounds.a.y as i32;
        self.bounds = bounds;
        let n = self.children.len();
        let mut i: usize = 0;
        while i < n
            invariant
                n == self.kids().len(),
                n == old(self).kids().len(),
                i <= n,
                self.wf(),
                self.bounds == bounds,
                self.selected == old(self).selected,
                self.state == old(self).state,
                self.background == old(self).background,
                self.focused == old(self).focused,
                dx == bounds.a.x - old(self).bounds.a.x,
                dy == bounds.a.y - old(self).bounds.a.y,
                -65536 <= dx <= 65536,
                -65536 <= dy <= 65536,
                forall|j: int| 0 <= j < i ==> (#[trigger] self.kids()[j]).spec_bounds() == old(self).kids()[j].spec_bounds().spec_moved(dx as int, dy as int),
                forall|j: int| 0 <= j < i ==> #[trigger] old(self).kids()[j].moved_to(self.kids()[j], old(self).kids()[j].spec_bounds().spec_moved(dx as int, dy as int)),
                forall|j: int| 0 <= j < n ==> (#[trigger] self.kids()[j]).spec_focused() == old(self).kids()[j].spec_focused()
                    && self.kids()[j].spec_can_focus() == old(self).kids()[j].spec_can_focus(),
                forall|j: int| i <= j < n ==> #[trigger] self.kids()[j] == old(self).kids()[j],
            decreases n - i,
        {
            let b = self.children[i].bounds();
            let moved = b.moved(dx, dy);
            let ghost before = self.kids();
            self.children[i].set_bounds(moved);
            assert(forall|j: int| 0 <= j < n && j != i ==> self.kids()[j] == before[j]);
            assert(old(self).kids()[i as int].moved_to(self.kids()[i as int], old(self).kids()[i as int].spec_bounds().spec_moved(dx as int, dy as int)));
            i = i + 1;
        }
    }

    /// Fills the background if there is one, then draws each child that meets
    /// the group's bounds, all clipped to those bounds.
    pub fn draw_clipped(&self, terminal: &mut Terminal)
        requires
            self.wf(),
            old(terminal).wf(),
        ensures
            self.group_drawn(*old(terminal), *final(terminal)),
    {
        let ghost t0 = *terminal;
        terminal.push_clip(self.bounds);
        let ghost t1 = *terminal;
        proof {
            t1.lemma_drawn_into_refl();
        }
        match self.background {
            Some(attr) => {
                fill_rect(terminal, self.bounds, ' ', attr);
            },
            None => {},
        }
        let ghost tb = *terminal;
        proof {
            assert forall|x: int, y: int| t0.in_screen(x, y) implies #[trigger] tb.cell(x, y) == match self.spec_background() {
                Some(a) => if t0.writable(x, y) && self.group_bounds().spec_contains(x, y) {
                    Cell { ch: ' ', attr: a }
                } else {
                    t0.cell(x, y)
                },
                None => t0.cell(x, y),
            } by {
                assert(t1.writable(x, y) == (t0.writable(x, y) && self.bounds.spec_contains(x, y)));
                assert(t1.cell(x, y) == t0.cell(x, y));
            }
            assert(self.painted_background(t0, tb));
            if self.background.is_none() {
                tb.lemma_drawn_into_refl();
            }
        }
        let ghost mut ts: Seq<Terminal> = seq![tb];
        let n = self.children.len();
        let mut i: usize = 0;
        while i < n
            invariant
                n == self.kids().len(),
                i <= n,
                self.wf(),
                t1.drawn_into(*terminal),
                ts.len() == i + 1,
                ts[0] == tb,
                ts.last() == *terminal,
                forall|j: int|
                    0 <= j < i ==> if self.group_bounds().spec_intersects(#[trigger] self.kids()[j].spec_bounds()) {
                        ts[j].drawn_into(ts[j + 1]) && self.kids()[j].drawn(ts[j], ts[j + 1])
                    } else {
                        ts[j + 1] == ts[j]
                    },
            decreases n - i,
        {
            let ghost tp = *terminal;
            let cb = self.children[i].bounds();
            if self.bounds.intersects(&cb) {
                self.children[i].draw(terminal);
                proof {
                    Terminal::lemma_drawn_into_trans(t1, tp, *terminal);
                }
            }
            proof {
                let old_ts = ts;
                ts = ts.push(*terminal);
                assert forall|j: int|
                    0 <= j < i + 1 implies if self.group_bounds().spec_intersects(#[trigger] self.kids()[j].spec_bounds()) {
                        ts[j].drawn_into(ts[j + 1]) && self.kids()[j].drawn(ts[j], ts[j + 1])
                    } else {
                        ts[j + 1] == ts[j]
                    } by {
                    assert(ts[j] == old_ts[j] || j == i + 1);
                    if j < i {
                        assert(ts[j + 1] == old_ts[j + 1]);
                    } else {
                        assert(ts[j] == tp);
                    }
                }
            }
            i = i + 1;
        }
        let ghost t2 = *terminal;
        terminal.pop_clip();
        proof {
            Terminal::lemma_same_clips(t0, *terminal);
            assert(t1.clips().drop_last() == t0.clips());
            assert forall|x: int, y: int|
                t0.in_screen(x, y) && (!t0.writable(x, y) || !self.bounds.spec_contains(x, y))
                    implies #[trigger] terminal.cell(x, y) == t0.cell(x, y) by {
                assert(!t1.writable(x, y));
                assert(t2.cell(x, y) == t1.cell(x, y));
            }
            assert(self.children_drawn(ts));
            assert(forall|x: int, y: int| #[trigger] terminal.cell(x, y) == ts.last().cell(x, y));
        }
    }
}

impl<V: Widget> Widget for Group<V> {
    open spec fn inv(&self) -> bool {
        self.wf()
    }

    open spec fn spec_bounds(&self) -> Rect {
        self.group_bounds()
    }

    open spec fn spec_can_focus(&self) -> bool {
        false
    }

    open spec fn spec_focused(&self) -> bool {
        self.selected_flag()
    }

    open spec fn synced(&self, cmds: CommandSet) -> bool {
        forall|i: int| 0 <= i < self.kids().len() ==> (#[trigger] self.kids()[i]).synced(cmds)
    }

    open spec fn handled(&self, post: Self, ev0: Event, ev1: Event, cmds: CommandSet) -> bool {
        self.group_handled(post, ev0, ev1, cmds)
    }

    open spec fn drawn(&self, pre: Terminal, post: Terminal) -> bool {
        self.group_drawn(pre, post)
    }

    open spec fn spec_flags(&self) -> StateFlags {
        self.spec_state()
    }

    open spec fn spec_is_default(&self) -> bool {
        false
    }

    open spec fn spec_command(&self) -> Option<CommandId> {
        None
    }

    /// A group moves with every child shifted by the same offset.
    open spec fn moved_to(&self, post: Self, bounds: Rect) -> bool {
        &&& post.group_bounds() == bounds
        &&& post.selected_flag() == self.selected_flag()
        &&& post.spec_state() == self.spec_state()
        &&& post.spec_background() == self.spec_background()
        &&& post.focus_index() == self.focus_index()
        &&& post.kids().len() == self.kids().len()
        &&& forall|i: int| 0 <= i < self.kids().len() ==> #[trigger] self.kids()[i].moved_to(post.kids()[i],
            self.kids()[i].spec_bounds().spec_moved(bounds.a.x - self.group_bounds().a.x, bounds.a.y - self.group_bounds().a.y))
    }

    open spec fn spec_text(&self) -> Option<Seq<char>> {
        None
    }

    fn bounds(&self) -> (r: Rect) {
        self.bounds
    }

    /// Moves the group and every child by the same offset.
    fn set_bounds(&mut self, bounds: Rect) {
        self.move_to(bounds);
    }

    fn can_focus(&self) -> (r: bool) {
        false
    }

    fn is_focused(&self) -> (r: bool) {
        self.selected
    }

    fn set_focus(&mut self, focused: bool) {
        self.selected = focused;
    }

    fn draw(&self, terminal: &mut Terminal) {
        self.draw_clipped(terminal);
    }

    /// Hides the cursor, then lets the current child place it.
    fn update_cursor(&self, terminal: &mut Terminal) {
        let ghost t0 = *terminal;
        terminal.hide_cursor();
        if self.focused < self.children.len() {
            let ghost t1 = *terminal;
            self.children[self.focused].update_cursor(terminal);
            proof {
                Terminal::lemma_cursor_moved_trans(t0, t1, *terminal);
            }
        }
    }

    /// Tab and Shift-Tab move the focus; a mouse event goes to the first child
    /// under the pointer (a press focuses it first, if it can take focus); a
    /// broadcast goes to every child; anything else to the current child.
    fn handle_event(&mut self, event: &mut Event, ctx: &mut Context) {
        if event.what == EventType::Keyboard {
            if event.key_code == KB_TAB {
                self.select_next();
                event.clear();
                return;
            } else if event.key_code == KB_SHIFT_TAB {
                self.select_previous();
                event.clear();
                return;
            }
        }
        let n = self.children.len();
        if event.what == EventType::MouseDown || event.what == EventType::MouseMove
            || event.what == EventType::MouseUp {
            let pos = event.mouse.pos;
            let mut i: usize = 0;
            while i < n
                invariant
                    n == self.kids().len(),
                    i <= n,
                    *self == *old(self),
                    old(self).wf(),
                    *ctx == *old(ctx),
                    *event == *old(event),
                    is_mouse(event.what),
                    pos == old(event).mouse.pos,
                    forall|j: int| 0 <= j < i ==> !(#[trigger] self.kids()[j]).spec_bounds().spec_contains(pos.x as int, pos.y as int),
                decreases n - i,
            {
                let cb = self.children[i].bounds();
                if cb.contains(pos) {
                    assert(old(self).first_hit(pos, i as int));
                    assert(old(self).any_hit(pos));
                    if event.what == EventType::MouseDown && self.children[i].can_focus() {
                        self.focus_child(i);
                    }
                    let ghost mid = *self;
                    let ghost c1 = ctx.commands;
                    assert(!is_command_set_changed(*old(event)));
                    self.dispatch_to(i, event, ctx);
                    assert(ctx.commands == c1);
                    assert(c1 == old(ctx).commands);
                    assert(mid.delivered(*self, i as int, *old(event), *event, old(ctx).commands));
                    return;
                }
                i = i + 1;
            }
            assert(!old(self).any_hit(pos));
        }
        if event.what == EventType::Broadcast {
            let ghost e0 = *event;
            let ghost c0 = ctx.commands;
            assert(e0 == *old(event));
            assert(c0 == old(ctx).commands);
            let mut i: usize = 0;
            while i < n
                invariant
                    n == self.kids().len(),
                    i <= n,
                    self.wf(),
                    self.bounds == old(self).bounds,
                    self.selected == old(self).selected,
                    self.state == old(self).state,
                    self.background == old(self).background,
                    self.focused == old(self).focused,
                    self.kids().len() == n,
                    old(self).kids().len() == n,
                    ctx.commands == c0,
                    *event == e0,
                    is_command_set_changed(e0) ==> forall|j: int| 0 <= j < i ==> (#[trigger] self.kids()[j]).synced(c0),
                    forall|j: int| i <= j < n ==> #[trigger] self.kids()[j] == old(self).kids()[j],
                    forall|j: int| 0 <= j < i ==> #[trigger] handles_some(old(self).kids()[j], self.kids()[j], e0, c0),
                decreases n - i,
            {
                let mut e = *event;
                let ghost before = self.kids();
                self.dispatch_to(i, &mut e, ctx);
                assert(forall|j: int| 0 <= j < i ==> self.kids()[j] == before[j]);
                assert(old(self).kids()[i as int].handled(self.kids()[i as int], e0, e, c0));
                assert forall|j: int| 0 <= j < i + 1 implies #[trigger] handles_some(old(self).kids()[j], self.kids()[j], e0, c0) by {
                    if j == i {
                        assert(old(self).kids()[j].handled(self.kids()[j], e0, e, c0));
                    } else {
                        assert(self.kids()[j] == before[j]);
                    }
                }
                i = i + 1;
            }
            assert(ctx.commands == c0);
            assert(c0 == old(ctx).commands);
            return;
        }
        if self.focused < n {
            let f = self.focused;
            let ghost c1 = ctx.commands;
            self.dispatch_to(f, event, ctx);
            assert(ctx.commands == c1);
            assert(c1 == old(ctx).commands);
        } else {
            assert(ctx.commands == old(ctx).commands);
            assert(!is_command_set_changed(*old(event)));
        }
    }

    fn is_default_button(&self) -> (r: bool) {
        false
    }

    fn button_command(&self) -> (r: Option<CommandId>) {
        None
    }

    fn state(&self) -> (r: StateFlags) {
        self.state
    }

    fn set_state(&mut self, state: StateFlags) {
        self.state = state;
    }
}

/// Tab from the last focusable child wraps to the first focusable child.
pub proof fn lemma_tab_wraps<V: Widget>(g: Group<V>, post: Group<V>, first: int, d: int)
    requires
        g.wf(),
        g.kids().len() > 0,
        0 <= first < g.kids().len(),
        g.kids()[first].spec_can_focus(),
        forall|j: int| 0 <= j < first ==> !#[trigger] g.kids()[j].spec_can_focus(),
        forall|j: int| g.focus_index() < j < g.kids().len() ==> !#[trigger] g.kids()[j].spec_can_focus(),
        g.next_focus_at(g.focus_index(), d),
        g.refocused(post, wrap_fwd(g.kids().len() as int, g.focus_index() + d)),
    ensures
        post.focus_index() == first,
{
    let n = g.kids().len() as int;
    let cur = g.focus_index();
    let idx = wrap_fwd(n, cur + d);
    if cur + d < n {
        assert(!g.kids()[cur + d].spec_can_focus());
    } else {
        if idx > first {
            let e = n - cur + first;
            assert(1 <= e < d);
            assert(wrap_fwd(n, cur + e) == first);
            assert(!g.kids()[wrap_fwd(n, cur + e)].spec_can_focus());
        }
    }
}

} // verus!
