//! The constructor accepts hooks from the user before serving begins;
//! a handler is generated from it.

use vstd::prelude::*;

use crate::hook::Hook;
use crate::text::str_eq;

verus! {

/// Registry of hooks: a mapping from event pattern to a single hook,
/// where re-registering a pattern silently overwrites.
pub struct HookRegistry {
    entries: Vec<Hook>,
}

/// The hook registered for `pattern`, if any: the last registration
/// wins.
pub open spec fn registry_get(reg: Seq<Hook>, pattern: Seq<char>) -> Option<Hook>
    decreases reg.len(),
{
    if reg.len() == 0 {
        None
    } else if reg.last().event@ == pattern {
        Some(reg.last())
    } else {
        registry_get(reg.drop_last(), pattern)
    }
}

impl View for HookRegistry {
    type V = Seq<Hook>;

    closed spec fn view(&self) -> Seq<Hook> {
        self.entries@
    }
}

impl HookRegistry {
    /// An empty registry.
    pub fn new() -> (r: HookRegistry)
        ensures
            r@ == Seq::<Hook>::empty(),
    {
        let r = HookRegistry { entries: Vec::new() };
        proof {
            assert(r@ =~= Seq::<Hook>::empty());
        }
        r
    }

    /// Register a hook under its event pattern, shadowing any earlier
    /// hook registered under the same pattern.
    pub fn insert(&mut self, hook: Hook)
        ensures
            final(self)@ == old(self)@.push(hook),
    {
        self.entries.push(hook);
    }

    /// The hook registered for `pattern`, if any.
    pub fn get(&self, pattern: &str) -> (r: Option<&Hook>)
        ensures
            match r {
                Some(h) => registry_get(self@, pattern@) == Some(*h),
                None => registry_get(self@, pattern@) is None,
            },
    {
        let n = self.entries.len();
        let mut i: usize = n;
        proof {
            assert(self@.take(n as int) =~= self@);
        }
        while i > 0
            invariant
                n == self.entries.len(),
                0 <= i <= n,
                self@.len() == n,
                registry_get(self@, pattern@) == registry_get(self@.take(i as int), pattern@),
            decreases i,
        {
            i = i - 1;
            let entry = &self.entries[i];
            proof {
                assert(self@.take(i + 1).last() == self@[i as int]);
                assert(self@.take(i + 1).drop_last() =~= self@.take(i as int));
            }
            if str_eq(entry.event, pattern) {
                return Some(entry);
            }
        }
        proof {
            assert(self@.take(0) =~= Seq::<Hook>::empty());
        }
        None
    }
}

impl Clone for HookRegistry {
    /// The copy holds the same hooks, sharing their callbacks.
    fn clone(&self) -> (r: Self)
        ensures
            r@ == self@,
    {
        let entries = self.entries.clone();
        proof {
            assert(entries@ =~= self.entries@);
        }
        HookRegistry { entries }
    }
}

/// Registering a hook makes it the one found under its pattern and
/// leaves every other pattern's lookup unchanged: the last write wins.
pub proof fn lemma_register_last_write_wins(reg: Seq<Hook>, hook: Hook, pattern: Seq<char>)
    ensures
        registry_get(reg.push(hook), pattern) == (if hook.event@ == pattern {
            Some(hook)
        } else {
            registry_get(reg, pattern)
        }),
{
    assert(reg.push(hook).last() == hook);
    assert(reg.push(hook).drop_last() =~= reg);
}

/// Constructor of the service: collects hooks, then hands the registry
/// to the serving side.
pub struct Constructor {
    pub hooks: HookRegistry,
}

impl Constructor {
    /// Create a new, empty constructor.
    pub fn new() -> (r: Constructor)
        ensures
            r.hooks@ == Seq::<Hook>::empty(),
    {
        Constructor { hooks: HookRegistry::new() }
    }

    /// Register a hook; re-registering its pattern overwrites silently.
    pub fn register(&mut self, hook: Hook)
        ensures
            final(self).hooks@ == old(self).hooks@.push(hook),
    {
        self.hooks.insert(hook);
    }
}

impl Clone for Constructor {
    /// The copy holds the same hooks, sharing their callbacks.
    fn clone(&self) -> (r: Self)
        ensures
            r.hooks@ == self.hooks@,
    {
        Constructor { hooks: self.hooks.clone() }
    }
}

impl Default for Constructor {
    /// An empty constructor.
    fn default() -> (r: Constructor)
        ensures
            r.hooks@ == Seq::<Hook>::empty(),
    {
        Constructor::new()
    }
}

} // verus!
