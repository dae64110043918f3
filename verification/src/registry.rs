//! The map registry: the ordered, duplicate-free pool of map names that a
//! veto draws from, bounded by a configurable operational ceiling.
//!
//! Mutations are administrative (authorized at dispatch) and the caller persists
//! a snapshot to durable storage after every successful mutation.

use vstd::prelude::*;

use crate::session::{distinct, find_name, lemma_distinct_push, lemma_remove_value_distinct};

verus! {

/// Registry constraint violations: user-facing and non-fatal.
#[derive(Clone, Copy, PartialEq, Eq, Structural, Debug)]
pub enum RegistryError {
    /// The pool already holds the configured maximum number of maps.
    PoolFull,
    /// The map is already in the pool (names match case-sensitively).
    Duplicate,
    /// No map of that name is in the pool.
    NotFound,
}

/// The operational ceiling the coordinator runs with by default.
pub const DEFAULT_POOL_BOUND: usize = 26;

/// Ghost model of the registry: the name pool and its ceiling.
#[verifier::ext_equal]
pub ghost struct RegistryModel {
    pub names: Seq<Seq<char>>,
    pub bound: nat,
}

impl RegistryModel {
    /// Registry invariant: no duplicate names, and the pool never exceeds
    /// its ceiling.
    pub open spec fn wf(self) -> bool {
        distinct(self.names) && self.names.len() <= self.bound
    }
}

/// The map pool, bounded at `bound` entries.
pub struct MapRegistry {
    names: Vec<String>,
    bound: usize,
}

impl View for MapRegistry {
    type V = RegistryModel;

    closed spec fn view(&self) -> RegistryModel {
        RegistryModel { names: self.names.deep_view(), bound: self.bound as nat }
    }
}

impl MapRegistry {
    /// An empty registry with the given ceiling.
    pub fn new(bound: usize) -> (r: MapRegistry)
        ensures
            r@.names == Seq::<Seq<char>>::empty(),
            r@.bound == bound as nat,
            r@.wf(),
    {
        let names: Vec<String> = Vec::new();
        proof {
            assert(names.deep_view() =~= Seq::<Seq<char>>::empty());
        }
        MapRegistry { names, bound }
    }

    /// Adopt a pool read back from durable storage, if it is a valid one:
    /// within the ceiling and free of duplicates.
    pub fn load(names: Vec<String>, bound: usize) -> (r: Option<MapRegistry>)
        ensures
            r is Some <==> (distinct(names.deep_view()) && names.deep_view().len() <= bound as nat),
            r matches Some(reg) ==> reg@.names == names.deep_view() && reg@.bound == bound as nat
                && reg@.wf(),
    {
        if names.len() > bound {
            return None;
        }
        let n = names.len();
        let mut k: usize = 0;
        while k < n
            invariant
                k <= n,
                n == names@.len(),
                forall|i: int, j: int| 0 <= i < j < k ==> names.deep_view()[i] != names.deep_view()[j],
            decreases n - k,
        {
            let mut j: usize = 0;
            while j < k
                invariant
                    j <= k < n,
                    n == names@.len(),
                    forall|i: int| 0 <= i < j ==> names.deep_view()[i] != names.deep_view()[k as int],
                decreases k - j,
            {
                if names[j].eq(&names[k]) {
                    proof {
                        assert(names.deep_view()[j as int] == names.deep_view()[k as int]);
                        assert(!distinct(names.deep_view()));
                    }
                    return None;
                }
                j = j + 1;
            }
            k = k + 1;
        }
        Some(MapRegistry { names, bound })
    }

    /// How many maps the pool holds.
    pub fn len(&self) -> (n: usize)
        ensures
            n == self@.names.len(),
    {
        self.names.len()
    }

    /// The configured ceiling.
    pub fn bound(&self) -> (b: usize)
        ensures
            b as nat == self@.bound,
    {
        self.bound
    }

    /// The pool itself, in order.
    pub fn names(&self) -> (r: &Vec<String>)
        ensures
            r.deep_view() == self@.names,
    {
        &self.names
    }

    /// A copy of the pool, for the veto to consume as its starting set.
    pub fn snapshot(&self) -> (r: Vec<String>)
        ensures
            r.deep_view() == self@.names,
    {
        let mut r: Vec<String> = Vec::new();
        let mut k: usize = 0;
        while k < self.names.len()
            invariant
                k <= self.names@.len(),
                r@.len() == k,
                forall|j: int| 0 <= j < k ==> r@[j] == self.names@[j],
            decreases self.names@.len() - k,
        {
            r.push(self.names[k].clone());
            k = k + 1;
        }
        proof {
            assert(r@ =~= self.names@);
            assert(r.deep_view() =~= self.names.deep_view());
        }
        r
    }

    /// Add a map to the pool.  A full pool always refuses, whatever the
    /// name; a name already present (case-sensitive) is a duplicate;
    /// otherwise the name is appended at the end.
    pub fn add_map(&mut self, name: String) -> (r: Result<(), RegistryError>)
        requires
            old(self)@.wf(),
        ensures
            final(self)@.wf(),
            final(self)@.bound == old(self)@.bound,
            old(self)@.names.len() >= old(self)@.bound ==> r == Err::<(), RegistryError>(
                RegistryError::PoolFull,
            ) && final(self)@ == old(self)@,
            old(self)@.names.len() < old(self)@.bound && old(self)@.names.contains(name@) ==> r
                == Err::<(), RegistryError>(RegistryError::Duplicate) && final(self)@ == old(self)@,
            old(self)@.names.len() < old(self)@.bound && !old(self)@.names.contains(name@) ==> r
                == Ok::<(), RegistryError>(()) && final(self)@.names == old(self)@.names.push(
                name@,
            ),
    {
        if self.names.len() >= self.bound {
            return Err(RegistryError::PoolFull);
        }
        match find_name(&self.names, &name) {
            Some(_) => {
                proof {
                    self.names.deep_view().index_of_first_ensures(name@);
                }
                Err(RegistryError::Duplicate)
            },
            None => {
                proof {
                    self.names.deep_view().index_of_first_ensures(name@);
                    lemma_distinct_push(self.names.deep_view(), name@);
                }
                let ghost old_names = self.names.deep_view();
                self.names.push(name);
                proof {
                    assert(self.names.deep_view() =~= old_names.push(name@));
                }
                Ok(())
            },
        }
    }

    /// Remove a map from the pool; the order of the others is kept.
    pub fn remove_map(&mut self, name: &String) -> (r: Result<(), RegistryError>)
        requires
            old(self)@.wf(),
        ensures
            final(self)@.wf(),
            final(self)@.bound == old(self)@.bound,
            !old(self)@.names.contains(name@) ==> r == Err::<(), RegistryError>(
                RegistryError::NotFound,
            ) && final(self)@ == old(self)@,
            old(self)@.names.contains(name@) ==> r == Ok::<(), RegistryError>(())
                && final(self)@.names == old(self)@.names.remove_value(name@),
    {
        match find_name(&self.names, name) {
            None => {
                proof {
                    self.names.deep_view().index_of_first_ensures(name@);
                }
                Err(RegistryError::NotFound)
            },
            Some(i) => {
                let ghost old_names = self.names.deep_view();
                let ghost old_strs = self.names@;
                proof {
                    old_names.index_of_first_ensures(name@);
                    lemma_remove_value_distinct(old_names, name@);
                }
                self.names.remove(i);
                proof {
                    old_strs.remove_ensures(i as int);
                    old_names.remove_ensures(i as int);
                    assert(self.names.deep_view() =~= old_names.remove(i as int));
                }
                Ok(())
            },
        }
    }
}

} // verus!
