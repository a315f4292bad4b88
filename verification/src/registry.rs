//! The lint registry: the compiler-owned ordered collection of active lint
//! rules for one run. Registration hooks receive mutable access to it and
//! append lint definitions; this model keeps the registered names in order,
//! so that contracts can speak about *which* lints are registered and in
//! *what* order.

use vstd::prelude::*;

verus! {

/// The mutable collection of active lint rules for one compiler run,
/// identified by their names in registration order.
pub struct LintRegistry {
    names: Vec<String>,
}

impl View for LintRegistry {
    type V = Seq<Seq<char>>;

    closed spec fn view(&self) -> Seq<Seq<char>> {
        self.names.deep_view()
    }
}

impl LintRegistry {
    /// An empty registry, with no lint registered yet.
    pub fn new() -> (registry: LintRegistry)
        ensures
            registry@ == Seq::<Seq<char>>::empty(),
    {
        let registry = LintRegistry { names: Vec::new() };
        proof {
            assert(registry@ =~= Seq::<Seq<char>>::empty());
        }
        registry
    }

    /// Add one lint definition at the end of the registry.
    pub fn register(&mut self, name: String)
        ensures
            final(self)@ == old(self)@.push(name@),
    {
        self.names.push(name);
        proof {
            assert(self@ =~= old(self)@.push(name@));
        }
    }

    /// How many lints are registered.
    pub fn len(&self) -> (n: usize)
        ensures
            n == self@.len(),
    {
        self.names.len()
    }

    /// The name of the lint at position `i` in registration order.
    pub fn get(&self, i: usize) -> (name: &String)
        requires
            i < self@.len(),
        ensures
            name@ == self@[i as int],
    {
        &self.names[i]
    }

    /// Whether a lint with this name has been registered.
    pub fn contains_name(&self, name: &String) -> (present: bool)
        ensures
            present == self@.contains(name@),
    {
        let mut i: usize = 0;
        while i < self.names.len()
            invariant
                i <= self.names.len(),
                forall|j: int| 0 <= j < i ==> self@[j] != name@,
            decreases self.names.len() - i,
        {
            if *name == self.names[i] {
                proof {
                    assert(self@[i as int] == name@);
                }
                return true;
            }
            i += 1;
        }
        proof {
            assert(!self@.contains(name@));
        }
        false
    }
}

} // verus!
