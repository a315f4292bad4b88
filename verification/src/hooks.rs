//! Registration hooks and their chaining.
//!
//! A registration hook is any value that, given mutable access to the lint
//! registry, appends lint definitions to it: both the caller's Registration
//! Callback and whatever hook the compiler's configuration already carried
//! satisfy this contract. The interceptor never replaces a pre-existing hook;
//! it chains the two into a [`CombinedHook`] that runs the pre-existing hook
//! first, in full, and the caller's callback second.

use vstd::prelude::*;

use crate::registry::LintRegistry;

verus! {

/// A lint-registration hook: a function value, invoked with mutable access to
/// the registry, that adds lint definitions to it. The hook is never mutated,
/// only invoked, so its registry mutation is a function of the registry
/// contents alone, named by `effect`.
pub trait LintHook: Sized {
    /// The registry mutation this hook performs: contents before the
    /// invocation to contents after it.
    spec fn effect(&self, before: Seq<Seq<char>>) -> Seq<Seq<char>>;

    /// A hook only adds definitions: everything registered before its
    /// invocation is still registered afterwards, at the same position.
    proof fn effect_appends(&self, before: Seq<Seq<char>>)
        ensures
            before.is_prefix_of(self.effect(before));

    /// Invoke the hook on the registry.
    fn register(&self, registry: &mut LintRegistry)
        ensures
            final(registry)@ == self.effect(old(registry)@);
}

/// A hook that registers a fixed list of lint names, in order: the simplest
/// useful Registration Callback.
pub struct NamedLints {
    /// The names to register, in the order they will be registered.
    pub names: Vec<String>,
}

impl LintHook for NamedLints {
    open spec fn effect(&self, before: Seq<Seq<char>>) -> Seq<Seq<char>> {
        before + self.names.deep_view()
    }

    proof fn effect_appends(&self, before: Seq<Seq<char>>) {
        assert(before =~= (before + self.names.deep_view()).subrange(0, before.len() as int));
    }

    fn register(&self, registry: &mut LintRegistry) {
        let mut i: usize = 0;
        while i < self.names.len()
            invariant
                i <= self.names.len(),
                registry@ == old(registry)@ + self.names.deep_view().take(i as int),
            decreases self.names.len() - i,
        {
            registry.register(self.names[i].clone());
            proof {
                assert(registry@ =~= old(registry)@ + self.names.deep_view().take(i + 1 as int));
            }
            i += 1;
        }
        proof {
            assert(self.names.deep_view().take(self.names@.len() as int) =~= self.names.deep_view());
        }
    }
}

/// The combined registration hook the interceptor installs: the caller's
/// callback alone, or the pre-existing hook chained strictly before it.
pub enum CombinedHook<H, C> {
    /// No pre-existing hook: the callback runs alone.
    Unchained(C),
    /// A pre-existing hook was present: it runs first, in full, with the
    /// registry it would have received anyway; the callback runs second.
    Chained(H, C),
}

impl<H: LintHook, C: LintHook> CombinedHook<H, C> {
    /// Chain an optional pre-existing hook with the caller's callback,
    /// keeping the pre-existing hook first.
    pub fn combine(previous: Option<H>, callback: C) -> (combined: CombinedHook<H, C>)
        ensures
            previous is Some ==> combined == CombinedHook::Chained(previous->Some_0, callback),
            previous is None ==> combined == CombinedHook::<H, C>::Unchained(callback),
    {
        match previous {
            Some(h) => CombinedHook::Chained(h, callback),
            None => CombinedHook::Unchained(callback),
        }
    }
}

impl<H: LintHook, C: LintHook> LintHook for CombinedHook<H, C> {
    /// The pre-existing hook's mutations first, if any, then the callback's:
    /// chaining is strictly additive, never substitutive.
    open spec fn effect(&self, before: Seq<Seq<char>>) -> Seq<Seq<char>> {
        match self {
            CombinedHook::Unchained(c) => c.effect(before),
            CombinedHook::Chained(h, c) => c.effect(h.effect(before)),
        }
    }

    proof fn effect_appends(&self, before: Seq<Seq<char>>) {
        match self {
            CombinedHook::Unchained(c) => {
                c.effect_appends(before);
            },
            CombinedHook::Chained(h, c) => {
                h.effect_appends(before);
                c.effect_appends(h.effect(before));
                let middle = h.effect(before);
                let after = c.effect(middle);
                assert forall|j: int| 0 <= j < before.len() implies before[j] == after[j] by {
                    assert(before[j] == middle.subrange(0, before.len() as int)[j]);
                    assert(middle[j] == after.subrange(0, middle.len() as int)[j]);
                }
                assert(before =~= after.subrange(0, before.len() as int));
            },
        }
    }

    fn register(&self, registry: &mut LintRegistry) {
        match self {
            CombinedHook::Unchained(c) => {
                c.register(registry);
            },
            CombinedHook::Chained(h, c) => {
                h.register(registry);
                c.register(registry);
            },
        }
    }
}

/// Law: invoking a chained combined hook produces the same registry mutations
/// as invoking the pre-existing hook first and the callback second, in that
/// order — never callback-then-previous, never one of the two alone.
pub proof fn lemma_chained_effect<H: LintHook, C: LintHook>(
    previous: H,
    callback: C,
    before: Seq<Seq<char>>,
)
    ensures
        CombinedHook::Chained(previous, callback).effect(before) == callback.effect(
            previous.effect(before),
        ),
{
}

/// Law: when no pre-existing hook exists, invoking the combined hook produces
/// exactly the mutations the callback would produce alone.
pub proof fn lemma_unchained_effect<H: LintHook, C: LintHook>(callback: C, before: Seq<Seq<char>>)
    ensures
        CombinedHook::<H, C>::Unchained(callback).effect(before) == callback.effect(before),
{
}

} // verus!
