//! Global keyboard shortcuts: the fixed default bindings and the bookkeeping
//! of what is registered, keyed by action. Registering the shortcuts with the
//! window system, and reacting to key presses, is host work.

use vstd::prelude::*;

verus! {

use crate::strutil;
use vstd::string::StringExecFns;

/// One shortcut binding: the action it triggers and its key combination.
#[derive(Debug)]
pub struct Shortcut {
    pub action: String,
    pub keys: String,
}

impl Shortcut {
    /// A field-for-field copy of the binding.
    pub fn duplicate(&self) -> (r: Shortcut)
        ensures
            r == *self,
    {
        Shortcut { action: self.action.clone(), keys: self.keys.clone() }
    }
}

/// The index of the first binding carrying `action`, if any.
pub open spec fn bound_at(bindings: Seq<Shortcut>, action: Seq<char>, i: int) -> bool {
    &&& 0 <= i < bindings.len()
    &&& bindings[i].action@ == action
    &&& forall|j: int| 0 <= j < i ==> (#[trigger] bindings[j]).action@ != action
}

/// The default bindings, in their fixed order: toggle the main window, start
/// a new message, flip Do Not Disturb, toggle fullscreen.
pub fn default_shortcuts() -> (r: Vec<Shortcut>)
    ensures
        r@.len() == 4,
        r@[0].action@ == "toggle_window"@ && r@[0].keys@ == "CommandOrControl+Shift+M"@,
        r@[1].action@ == "new_message"@ && r@[1].keys@ == "CommandOrControl+N"@,
        r@[2].action@ == "dnd"@ && r@[2].keys@ == "CommandOrControl+Shift+D"@,
        r@[3].action@ == "fullscreen"@ && r@[3].keys@ == "F11"@,
{
    let mut v: Vec<Shortcut> = Vec::new();
    v.push(Shortcut {
        action: String::from_str("toggle_window"),
        keys: String::from_str("CommandOrControl+Shift+M"),
    });
    v.push(Shortcut {
        action: String::from_str("new_message"),
        keys: String::from_str("CommandOrControl+N"),
    });
    v.push(Shortcut {
        action: String::from_str("dnd"),
        keys: String::from_str("CommandOrControl+Shift+D"),
    });
    v.push(Shortcut { action: String::from_str("fullscreen"), keys: String::from_str("F11") });
    v
}

/// Owns the registered bindings, at most one per action.
pub struct ShortcutManager {
    pub registered: Vec<Shortcut>,
}

impl ShortcutManager {
    /// A manager with nothing registered yet.
    pub fn new() -> (r: Self)
        ensures
            r.registered@.len() == 0,
    {
        ShortcutManager { registered: Vec::new() }
    }

    /// Records a binding for `action`, replacing the binding it had before,
    /// if any; reports whether an old binding was replaced.
    pub fn register_shortcut(&mut self, action: String, keys: String) -> (r: bool)
        ensures
            r ==> exists|i: int|
                #[trigger] bound_at(old(self).registered@, action@, i) && final(self).registered@
                    == old(self).registered@.update(i, (Shortcut { action, keys })),
            !r ==> (forall|i: int|
                0 <= i < old(self).registered@.len() ==> (#[trigger] old(
                    self,
                ).registered@[i]).action@ != action@) && final(self).registered@ == old(
                self,
            ).registered@.push((Shortcut { action, keys })),
    {
        let mut i: usize = 0;
        while i < self.registered.len()
            invariant
                *self == *old(self),
                i <= self.registered@.len(),
                forall|j: int| 0 <= j < i ==> (#[trigger] self.registered@[j]).action@ != action@,
            decreases self.registered@.len() - i,
        {
            if strutil::str_eq(self.registered[i].action.as_str(), action.as_str()) {
                proof {
                    assert(bound_at(old(self).registered@, action@, i as int));
                }
                self.registered[i] = Shortcut { action, keys };
                return true;
            }
            i = i + 1;
        }
        self.registered.push(Shortcut { action, keys });
        false
    }

    /// The keys bound to `action`, if any.
    pub fn lookup(&self, action: &str) -> (r: Option<String>)
        ensures
            r is None ==> (forall|i: int|
                0 <= i < self.registered@.len() ==> (#[trigger] self.registered@[i]).action@
                    != action@),
            r matches Some(keys) ==> exists|i: int|
                #[trigger] bound_at(self.registered@, action@, i) && keys@
                    == self.registered@[i].keys@,
    {
        let mut i: usize = 0;
        while i < self.registered.len()
            invariant
                i <= self.registered@.len(),
                forall|j: int| 0 <= j < i ==> (#[trigger] self.registered@[j]).action@ != action@,
            decreases self.registered@.len() - i,
        {
            if strutil::str_eq(self.registered[i].action.as_str(), action) {
                proof {
                    assert(bound_at(self.registered@, action@, i as int));
                }
                return Some(self.registered[i].keys.clone());
            }
            i = i + 1;
        }
        None
    }

    /// Forgets every binding and hands them back so the host can unregister
    /// them with the window system.
    pub fn unregister_all(&mut self) -> (r: Vec<Shortcut>)
        ensures
            final(self).registered@.len() == 0,
            r == old(self).registered,
    {
        let mut out: Vec<Shortcut> = Vec::new();
        core::mem::swap(&mut out, &mut self.registered);
        out
    }
}

} // verus!
