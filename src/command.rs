//! Command identifiers and the command enablement set.
use vstd::prelude::*;

verus! {

/// A small integer naming a user intention; its meaning is per dispatch context.
pub type CommandId = u16;

pub const CM_QUIT: CommandId = 1;
pub const CM_CLOSE: CommandId = 4;
pub const CM_OK: CommandId = 10;
pub const CM_CANCEL: CommandId = 11;
pub const CM_YES: CommandId = 12;
pub const CM_NO: CommandId = 13;
pub const CM_DEFAULT: CommandId = 14;
pub const CM_CUT: CommandId = 20;
pub const CM_COPY: CommandId = 21;
pub const CM_PASTE: CommandId = 22;
pub const CM_UNDO: CommandId = 23;
pub const CM_CLEAR: CommandId = 24;
pub const CM_REDO: CommandId = 25;
pub const CM_NEW: CommandId = 30;
pub const CM_OPEN: CommandId = 31;
pub const CM_SAVE: CommandId = 32;
/// The broadcast that tells every view to re-read the enablement set.
pub const CM_COMMAND_SET_CHANGED: CommandId = 52;

proof fn lemma_contains_push(s: Seq<CommandId>, v: CommandId)
    ensures
        forall|x: CommandId| #[trigger] s.push(v).contains(x) <==> (s.contains(x) || x == v),
{
    assert forall|x: CommandId| #[trigger] s.push(v).contains(x) <==> (s.contains(x) || x == v) by {
        if s.contains(x) {
            let i = choose|i: int| 0 <= i < s.len() && s[i] == x;
            assert(s.push(v)[i] == x);
        }
        if x == v {
            assert(s.push(v)[s.len() as int] == x);
        }
        if s.push(v).contains(x) {
            let i = choose|i: int| 0 <= i < s.push(v).len() && s.push(v)[i] == x;
            if i < s.len() {
                assert(s[i] == x);
            }
        }
    }
}

/// Which commands are enabled (all, unless disabled), and whether that changed
/// since the last broadcast.
pub struct CommandSet {
    disabled: Vec<CommandId>,
    changed: bool,
}

impl CommandSet {
    pub closed spec fn spec_enabled(&self, id: CommandId) -> bool {
        !self.disabled@.contains(id)
    }

    pub closed spec fn spec_changed(&self) -> bool {
        self.changed
    }

    /// A set in which every command is enabled and nothing has changed.
    pub fn new() -> (r: CommandSet)
        ensures
            forall|id: CommandId| #[trigger] r.spec_enabled(id),
            !r.spec_changed(),
    {
        CommandSet { disabled: Vec::new(), changed: false }
    }

    pub fn is_enabled(&self, id: CommandId) -> (r: bool)
        ensures
            r == self.spec_enabled(id),
    {
        let mut i: usize = 0;
        while i < self.disabled.len()
            invariant
                i <= self.disabled@.len(),
                forall|k: int| 0 <= k < i ==> self.disabled@[k] != id,
            decreases self.disabled@.len() - i,
        {
            if self.disabled[i] == id {
                return false;
            }
            i = i + 1;
        }
        true
    }

    /// Enables `id` and marks the set changed.
    pub fn enable_command(&mut self, id: CommandId)
        ensures
            final(self).spec_enabled(id),
            forall|c: CommandId| c != id ==> #[trigger] final(self).spec_enabled(c) == old(self).spec_enabled(c),
            final(self).spec_changed(),
    {
        let mut kept: Vec<CommandId> = Vec::new();
        let mut i: usize = 0;
        while i < self.disabled.len()
            invariant
                i <= self.disabled@.len(),
                forall|c: CommandId| #[trigger] kept@.contains(c) <==> (c != id && self.disabled@.subrange(0, i as int).contains(c)),
            decreases self.disabled@.len() - i,
        {
            let c = self.disabled[i];
            proof {
                lemma_contains_push(kept@, c);
                lemma_contains_push(self.disabled@.subrange(0, i as int), c);
            }
            if c != id {
                kept.push(c);
            }
            assert(self.disabled@.subrange(0, i + 1) =~= self.disabled@.subrange(0, i as int).push(c));
            i = i + 1;
        }
        assert(self.disabled@.subrange(0, i as int) =~= self.disabled@);
        self.disabled = kept;
        self.changed = true;
    }

    /// Disables `id` and marks the set changed.
    pub fn disable_command(&mut self, id: CommandId)
        ensures
            !final(self).spec_enabled(id),
            forall|c: CommandId| c != id ==> #[trigger] final(self).spec_enabled(c) == old(self).spec_enabled(c),
            final(self).spec_changed(),
    {
        proof {
            lemma_contains_push(self.disabled@, id);
        }
        if self.is_enabled(id) {
            self.disabled.push(id);
        }
        self.changed = true;
    }

    /// Whether the set changed since the last call of `clear_command_set_changed`.
    pub fn command_set_changed(&self) -> (r: bool)
        ensures
            r == self.spec_changed(),
    {
        self.changed
    }

    pub fn clear_command_set_changed(&mut self)
        ensures
            !final(self).spec_changed(),
            forall|c: CommandId| #[trigger] final(self).spec_enabled(c) == old(self).spec_enabled(c),
    {
        self.changed = false;
    }
}

} // verus!
