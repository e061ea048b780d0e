//! The table of buttons currently visible on the device, keyed by context.
use vstd::prelude::*;
use crate::control::ControlType;
use crate::settings::{get_text, text_of, Settings};
use crate::text::text_eq;

verus! {

/// One visible button and what was last rendered on it.
pub struct ActionInstance {
    pub context: String,
    pub control: ControlType,
    pub title: String,
    pub state: u8,
    pub value: i64,
    pub settings: Settings,
}

/// Some button in `s` has context `ctx`.
pub open spec fn visible(s: Seq<ActionInstance>, ctx: Seq<char>) -> bool {
    exists|i: int| 0 <= i < s.len() && s[i].context@ == ctx
}

/// No two buttons in `s` share a context.
pub open spec fn unique_contexts(s: Seq<ActionInstance>) -> bool {
    forall|i: int, j: int| 0 <= i < j < s.len() ==> s[i].context@ != s[j].context@
}

/// `b` is the button that an appearance of `ctx` registers: baseline state and
/// value, no title, the given settings.
pub open spec fn is_fresh(b: ActionInstance, ctx: Seq<char>, control: ControlType, settings: Settings) -> bool {
    &&& b.context@ == ctx
    &&& b.control == control
    &&& b.title@.len() == 0
    &&& b.state == 0
    &&& b.value == 0
    &&& b.settings == settings
}

/// The registry after an appearance of `ctx`.
pub open spec fn appeared(old: Seq<ActionInstance>, new: Seq<ActionInstance>, ctx: Seq<char>, control: ControlType, settings: Settings) -> bool {
    if visible(old, ctx) {
        new == old
    } else {
        &&& new.len() == old.len() + 1
        &&& new.subrange(0, old.len() as int) == old
        &&& is_fresh(new[old.len() as int], ctx, control, settings)
    }
}

/// The registry after a disappearance of `ctx`.
pub open spec fn disappeared(old: Seq<ActionInstance>, new: Seq<ActionInstance>, ctx: Seq<char>) -> bool {
    &&& !visible(new, ctx)
    &&& !visible(old, ctx) ==> new == old
    &&& forall|i: int| 0 <= i < old.len() && old[i].context@ == ctx ==> new == old.remove(i)
}

/// The registry after new settings for `ctx`: replaced wholesale if present.
pub open spec fn settings_replaced(old: Seq<ActionInstance>, new: Seq<ActionInstance>, ctx: Seq<char>, settings: Settings) -> bool {
    &&& !visible(old, ctx) ==> new == old
    &&& forall|i: int| 0 <= i < old.len() && old[i].context@ == ctx
        ==> new == old.update(i, ActionInstance { settings: settings, ..old[i] })
}

/// The registry after new title parameters for `ctx`: the title is taken
/// from the `title` text, if the payload has one.
pub open spec fn title_taken(old: Seq<ActionInstance>, new: Seq<ActionInstance>, ctx: Seq<char>, settings: Settings) -> bool {
    match text_of(settings.entries@, "title"@) {
        Some(t) => {
            &&& !visible(old, ctx) ==> new == old
            &&& forall|i: int| 0 <= i < old.len() && old[i].context@ == ctx
                ==> new == old.update(i, ActionInstance { title: t, ..old[i] })
        },
        None => new == old,
    }
}

/// The table of visible buttons.
pub struct Registry {
    buttons: Vec<ActionInstance>,
}

impl View for Registry {
    type V = Seq<ActionInstance>;

    closed spec fn view(&self) -> Seq<ActionInstance> {
        self.buttons@
    }
}

impl Registry {
    /// At most one button per context.
    pub open spec fn wf(&self) -> bool {
        unique_contexts(self@)
    }

    /// An empty registry.
    pub fn new() -> (r: Registry)
        ensures
            r.wf(),
            r@.len() == 0,
    {
        Registry { buttons: Vec::new() }
    }

    /// Number of visible buttons.
    pub fn len(&self) -> (r: usize)
        ensures
            r == self@.len(),
    {
        self.buttons.len()
    }

    /// Index of the button with context `ctx`, if one is visible.
    pub fn find(&self, ctx: &str) -> (r: Option<usize>)
        ensures
            match r {
                Some(i) => i < self@.len() && self@[i as int].context@ == ctx@,
                None => !visible(self@, ctx@),
            },
    {
        let mut i: usize = 0;
        while i < self.buttons.len()
            invariant
                i <= self.buttons@.len(),
                forall|j: int| 0 <= j < i ==> self.buttons@[j].context@ != ctx@,
            decreases self.buttons@.len() - i,
        {
            if text_eq(self.buttons[i].context.as_str(), ctx) {
                return Some(i);
            }
            i = i + 1;
        }
        None
    }

    /// Whether a button with context `ctx` is visible.
    pub fn contains(&self, ctx: &str) -> (r: bool)
        ensures
            r == visible(self@, ctx@),
    {
        self.find(ctx).is_some()
    }

    /// The button at position `i`.
    pub fn at(&self, i: usize) -> (r: &ActionInstance)
        requires
            i < self@.len(),
        ensures
            *r == self@[i as int],
    {
        &self.buttons[i]
    }

    /// The button with context `ctx`, if visible.
    pub fn get(&self, ctx: &str) -> (r: Option<&ActionInstance>)
        ensures
            match r {
                Some(b) => visible(self@, ctx@) && b.context@ == ctx@
                    && exists|i: int| 0 <= i < self@.len() && self@[i] == *b,
                None => !visible(self@, ctx@),
            },
    {
        match self.find(ctx) {
            Some(i) => Some(self.at(i)),
            None => None,
        }
    }

    /// Registers a button that became visible, unless its context is already
    /// present. Returns whether it was added.
    pub fn upsert_on_appear(&mut self, ctx: String, control: ControlType, settings: Settings) -> (added: bool)
        requires
            old(self).wf(),
        ensures
            final(self).wf(),
            added == !visible(old(self)@, ctx@),
            appeared(old(self)@, final(self)@, ctx@, control, settings),
    {
        if self.contains(ctx.as_str()) {
            return false;
        }
        let b = ActionInstance { context: ctx, control, title: String::new(), state: 0, value: 0, settings };
        let ghost before = self.buttons@;
        self.buttons.push(b);
        assert(self.buttons@.subrange(0, before.len() as int) =~= before);
        true
    }

    /// Forgets the button with context `ctx`, if present.
    pub fn remove_on_disappear(&mut self, ctx: &str)
        requires
            old(self).wf(),
        ensures
            final(self).wf(),
            disappeared(old(self)@, final(self)@, ctx@),
    {
        match self.find(ctx) {
            Some(i) => {
                let ghost before = self.buttons@;
                let _ = self.buttons.remove(i);
                assert(self.buttons@ =~= before.remove(i as int));
                assert forall|j: int| 0 <= j < before.len() && before[j].context@ == ctx@ implies self.buttons@ == before.remove(j) by {
                    if j != i {
                        assert(before[j].context@ == before[i as int].context@);
                    }
                }
                assert(!visible(self.buttons@, ctx@)) by {
                    assert forall|k: int| 0 <= k < self.buttons@.len() implies self.buttons@[k].context@ != ctx@ by {
                        if k < i {
                            assert(self.buttons@[k] == before[k]);
                        } else {
                            assert(self.buttons@[k] == before[k + 1]);
                        }
                    }
                }
            },
            None => {},
        }
    }

    /// Replaces the settings of the button with context `ctx`, if present.
    pub fn update_settings(&mut self, ctx: &str, settings: Settings)
        requires
            old(self).wf(),
        ensures
            final(self).wf(),
            settings_replaced(old(self)@, final(self)@, ctx@, settings),
    {
        match self.find(ctx) {
            Some(i) => {
                let ghost before = self.buttons@;
                self.buttons[i].settings = settings;
                assert(self.buttons@ =~= before.update(i as int, ActionInstance { settings: settings, ..before[i as int] }));
                assert forall|j: int| 0 <= j < before.len() && before[j].context@ == ctx@ implies
                    self.buttons@ == before.update(j, ActionInstance { settings: settings, ..before[j] }) by {
                    if j != i {
                        assert(before[j].context@ == before[i as int].context@);
                    }
                }
            },
            None => {},
        }
    }

    /// Takes the title text of a title-parameters payload onto the button
    /// with context `ctx`, if present and if the payload has one.
    pub fn update_title_field(&mut self, ctx: &str, settings: &Settings)
        requires
            old(self).wf(),
        ensures
            final(self).wf(),
            title_taken(old(self)@, final(self)@, ctx@, *settings),
    {
        let t = get_text(settings, "title");
        match t {
            Some(t) => {
                match self.find(ctx) {
                    Some(i) => {
                        let ghost before = self.buttons@;
                        let ghost tt = t;
                        self.buttons[i].title = t;
                        assert(self.buttons@ =~= before.update(i as int, ActionInstance { title: tt, ..before[i as int] }));
                        assert forall|j: int| 0 <= j < before.len() && before[j].context@ == ctx@ implies
                            self.buttons@ == before.update(j, ActionInstance { title: tt, ..before[j] }) by {
                            if j != i {
                                assert(before[j].context@ == before[i as int].context@);
                            }
                        }
                    },
                    None => {},
                }
            },
            None => {},
        }
    }

    /// Records `state` as rendered on the button at position `i`.
    pub fn set_state_at(&mut self, i: usize, state: u8)
        requires
            old(self).wf(),
            i < old(self)@.len(),
        ensures
            final(self).wf(),
            final(self)@ == old(self)@.update(i as int, ActionInstance { state: state, ..old(self)@[i as int] }),
    {
        self.buttons[i].state = state;
        assert(self.buttons@ =~= old(self)@.update(i as int, ActionInstance { state: state, ..old(self)@[i as int] }));
    }

    /// Records `value` as rendered on the button at position `i`.
    pub fn set_value_at(&mut self, i: usize, value: i64)
        requires
            old(self).wf(),
            i < old(self)@.len(),
        ensures
            final(self).wf(),
            final(self)@ == old(self)@.update(i as int, ActionInstance { value: value, ..old(self)@[i as int] }),
    {
        self.buttons[i].value = value;
        assert(self.buttons@ =~= old(self)@.update(i as int, ActionInstance { value: value, ..old(self)@[i as int] }));
    }
}

} // verus!
