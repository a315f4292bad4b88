//! The dependency record and the Dependency Injector.
//!
//! The compiler keeps a set of file paths considered inputs of the current
//! run; external build tooling consults it for staleness checks. The injector
//! merges the caller's Tracked File Set into that record when the compiler
//! creates its parse session, so that the build system re-runs the analysis
//! whenever one of the tracked files changes.

use vstd::prelude::*;

verus! {

/// The compiler-owned set of file paths considered inputs of the current run.
/// Insertion is idempotent: the record is a set, each path held at most once.
pub struct DepRecord {
    paths: Vec<String>,
}

impl DepRecord {
    #[verifier::type_invariant]
    spec fn wf(self) -> bool {
        self.paths.deep_view().no_duplicates()
    }
}

impl View for DepRecord {
    type V = Set<Seq<char>>;

    closed spec fn view(&self) -> Set<Seq<char>> {
        self.paths.deep_view().to_set()
    }
}

impl DepRecord {
    /// An empty record, holding no path.
    pub fn new() -> (record: DepRecord)
        ensures
            record@ == Set::<Seq<char>>::empty(),
    {
        let record = DepRecord { paths: Vec::new() };
        proof {
            assert(record@ =~= Set::<Seq<char>>::empty());
        }
        record
    }

    /// Whether a path is already in the record.
    pub fn contains(&self, path: &String) -> (present: bool)
        ensures
            present == self@.contains(path@),
    {
        let mut i: usize = 0;
        while i < self.paths.len()
            invariant
                i <= self.paths.len(),
                forall|j: int| 0 <= j < i ==> self.paths.deep_view()[j] != path@,
            decreases self.paths.len() - i,
        {
            if *path == self.paths[i] {
                proof {
                    assert(self.paths.deep_view()[i as int] == path@);
                    assert(self.paths.deep_view().contains(path@));
                }
                return true;
            }
            i += 1;
        }
        proof {
            assert(!self.paths.deep_view().contains(path@));
        }
        false
    }

    /// How many paths the record holds.
    pub fn len(&self) -> (n: usize)
        ensures
            n == self@.len(),
    {
        proof {
            use_type_invariant(&*self);
            self.paths.deep_view().unique_seq_to_set();
        }
        self.paths.len()
    }

    /// Intern one path into the record; a path already present is left alone.
    /// Returns whether the path was newly added.
    pub fn insert(&mut self, path: String) -> (added: bool)
        ensures
            final(self)@ == old(self)@.insert(path@),
            added == !old(self)@.contains(path@),
    {
        proof {
            use_type_invariant(&*self);
        }
        if self.contains(&path) {
            proof {
                assert(old(self)@.insert(path@) =~= old(self)@);
            }
            false
        } else {
            let ghost old_dv = self.paths.deep_view();
            let mut paths: Vec<String> = Vec::new();
            std::mem::swap(&mut paths, &mut self.paths);
            paths.push(path);
            proof {
                let new_dv = paths.deep_view();
                assert(new_dv =~= old_dv.push(path@));
                assert forall|k: int| 0 <= k < old_dv.len() implies old_dv[k] != path@ by {
                    if old_dv[k] == path@ {
                        assert(old_dv.contains(path@));
                    }
                }
                assert forall|a: int, b: int|
                    0 <= a < new_dv.len() && 0 <= b < new_dv.len() && a != b implies new_dv[a]
                    != new_dv[b] by {
                    if a < old_dv.len() && b < old_dv.len() {
                        assert(old_dv[a] != old_dv[b]);
                    }
                }
                assert(new_dv.no_duplicates());
            }
            self.paths = paths;
            proof {
                assert(self.paths.deep_view() =~= old_dv.push(path@));
                old_dv.lemma_push_to_set_commute(path@);
                assert(self@ =~= old(self)@.insert(path@));
            }
            true
        }
    }
}

/// The Dependency Injector: merge the Tracked File Set into the compiler's
/// dependency record, so that the record ends up a superset of the tracked
/// set whatever its order or duplicates. An empty tracked set short-circuits
/// and performs no insertion at all. Returns how many insertions were
/// performed: one for each distinct tracked path not already in the record.
pub fn inject_dependencies(record: &mut DepRecord, tracked_files: &Vec<String>) -> (insertions:
    usize)
    ensures
        final(record)@ == old(record)@.union(tracked_files.deep_view().to_set()),
        forall|p: Seq<char>| #[trigger]
            tracked_files.deep_view().contains(p) ==> final(record)@.contains(p),
        insertions == tracked_files.deep_view().to_set().difference(old(record)@).len(),
        tracked_files@.len() == 0 ==> insertions == 0 && *final(record) == *old(record),
        insertions <= tracked_files@.len(),
{
    if tracked_files.len() == 0 {
        proof {
            assert(old(record)@.union(tracked_files.deep_view().to_set()) =~= old(record)@);
            assert(tracked_files.deep_view().to_set().difference(old(record)@)
                =~= Set::<Seq<char>>::empty());
        }
        return 0;
    }
    let ghost files = tracked_files.deep_view();
    proof {
        assert(files.take(0).to_set() =~= Set::<Seq<char>>::empty());
        assert(Set::<Seq<char>>::empty().difference(old(record)@) =~= Set::<Seq<char>>::empty());
    }
    let mut insertions: usize = 0;
    let mut i: usize = 0;
    while i < tracked_files.len()
        invariant
            i <= tracked_files@.len(),
            insertions <= i,
            files == tracked_files.deep_view(),
            record@ == old(record)@.union(files.take(i as int).to_set()),
            insertions == files.take(i as int).to_set().difference(old(record)@).len(),
        decreases tracked_files@.len() - i,
    {
        let added = record.insert(tracked_files[i].clone());
        if added {
            insertions += 1;
        }
        proof {
            broadcast use vstd::seq_lib::seq_to_set_is_finite;
            broadcast use vstd::set_lib::lemma_set_subset_finite;

            let p = files[i as int];
            let prev_set = files.take(i as int).to_set();
            let next_set = files.take(i + 1 as int).to_set();
            assert(files.take(i + 1 as int) =~= files.take(i as int).push(p));
            files.take(i as int).lemma_push_to_set_commute(p);
            assert(record@ =~= old(record)@.union(next_set));
            let prev_diff = prev_set.difference(old(record)@);
            let next_diff = next_set.difference(old(record)@);
            assert(prev_diff.subset_of(prev_set));
            assert(prev_diff.finite());
            if added {
                // The path was in neither the record nor the prefix already
                // injected, so it counts once.
                assert(next_diff =~= prev_diff.insert(p));
                vstd::set::axiom_set_insert_len(prev_diff, p);
            } else {
                // The path was already present, either from the record or
                // from an earlier duplicate: the distinct-new set is the same.
                assert(next_diff =~= prev_diff);
            }
        }
        i += 1;
    }
    proof {
        assert(files.take(files.len() as int) =~= files);
        assert forall|p: Seq<char>| #[trigger] files.contains(p) implies record@.contains(
            p,
        ) by {
            assert(record@ == old(record)@.union(files.to_set()));
        }
    }
    insertions
}

} // verus!
