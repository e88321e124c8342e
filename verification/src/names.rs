//! The set of file names seen in one directory.

use vstd::prelude::*;
use crate::bytes::{
    copy_bytes, lemma_precedes_is_strict, lemma_precedes_is_transitive, names_of, place_of,
    precedes, Place,
};

verus! {

/// A set of file names. The names are kept in order, so that one is found in
/// a few steps however many there are.
#[derive(Debug)]
pub struct NameSet {
    names: Vec<Vec<u8>>,
}

impl View for NameSet {
    type V = Set<Seq<u8>>;

    closed spec fn view(&self) -> Set<Seq<u8>> {
        names_of(self.names@).to_set()
    }
}

/// Each name comes before all that follow it.
pub open spec fn ascending(names: Seq<Seq<u8>>) -> bool {
    forall|i: int, j: int| 0 <= i < j < names.len() ==> precedes(#[trigger] names[i], #[trigger] names[j])
}

impl NameSet {
    /// The names are in order, none twice.
    #[verifier::type_invariant]
    closed spec fn in_order(&self) -> bool {
        ascending(names_of(self.names@))
    }

    /// The empty set.
    pub fn new() -> (set: NameSet)
        ensures
            set@ == Set::<Seq<u8>>::empty(),
    {
        let set = NameSet { names: Vec::new() };
        assert(names_of(set.names@) =~= Seq::<Seq<u8>>::empty());
        assert(set@ =~= Set::<Seq<u8>>::empty());
        set
    }

    /// Where `name` is, if it is in the set, and where it belongs if not.
    fn find(&self, name: &[u8]) -> (spot: (bool, usize))
        ensures
            spot.1 <= self.names@.len(),
            spot.0 ==> spot.1 < self.names@.len() && self.names@[spot.1 as int]@ == name@,
            !spot.0 ==> forall|i: int|
                0 <= i < self.names@.len() ==> if i < spot.1 {
                    precedes(#[trigger] names_of(self.names@)[i], name@)
                } else {
                    precedes(name@, names_of(self.names@)[i])
                },
    {
        proof {
            use_type_invariant(self);
        }
        let ghost all = names_of(self.names@);
        let mut low: usize = 0;
        let mut high: usize = self.names.len();
        while low < high
            invariant
                low <= high <= self.names@.len(),
                all == names_of(self.names@),
                ascending(all),
                forall|i: int| 0 <= i < low ==> precedes(#[trigger] all[i], name@),
                forall|i: int| high <= i < all.len() ==> precedes(name@, #[trigger] all[i]),
            decreases high - low,
        {
            let mid = low + (high - low) / 2;
            assert(all[mid as int] == self.names@[mid as int]@);
            match place_of(self.names[mid].as_slice(), name) {
                Place::Same => {
                    return (true, mid);
                },
                Place::Before => {
                    assert forall|i: int| 0 <= i < mid + 1 implies precedes(
                        #[trigger] all[i],
                        name@,
                    ) by {
                        if i < mid {
                            lemma_precedes_is_transitive(all[i], all[mid as int], name@);
                        }
                    }
                    low = mid + 1;
                },
                Place::After => {
                    assert forall|i: int| mid <= i < all.len() implies precedes(
                        name@,
                        #[trigger] all[i],
                    ) by {
                        if mid < i {
                            lemma_precedes_is_transitive(name@, all[mid as int], all[i]);
                        }
                    }
                    high = mid;
                },
            }
        }
        (false, low)
    }

    /// Whether `name` is in the set.
    pub fn contains(&self, name: &[u8]) -> (found: bool)
        ensures
            found == self@.contains(name@),
    {
        let (found, at) = self.find(name);
        proof {
            let all = names_of(self.names@);
            if found {
                assert(all[at as int] == name@);
            } else {
                assert forall|i: int| 0 <= i < all.len() implies all[i] != name@ by {
                    if i < at {
                        lemma_precedes_is_strict(all[i], name@);
                    } else {
                        lemma_precedes_is_strict(name@, all[i]);
                    }
                }
            }
        }
        found
    }

    /// Puts `name` into the set.
    pub fn insert(&mut self, name: &[u8])
        ensures
            final(self)@ == old(self)@.insert(name@),
    {
        proof {
            use_type_invariant(&*self);
        }
        let (found, at) = self.find(name);
        let ghost before = names_of(self.names@);
        if found {
            assert(before[at as int] == name@);
            assert(self@.insert(name@) =~= self@);
            return ;
        }
        let mut taken = NameSet { names: Vec::new() };
        assert(names_of(taken.names@) =~= Seq::<Seq<u8>>::empty());
        std::mem::swap(self, &mut taken);
        let NameSet { names } = taken;
        let mut names = names;
        names.insert(at, copy_bytes(name));
        let ghost after = names_of(names@);
        proof {
            assert(after =~= before.insert(at as int, name@));
            assert forall|i: int, j: int| 0 <= i < j < after.len() implies precedes(
                #[trigger] after[i],
                #[trigger] after[j],
            ) by {
                let oi = if i < at { i } else { i - 1 };
                let oj = if j < at { j } else { j - 1 };
                if i == at {
                    assert(after[j] == before[oj]);
                    assert(precedes(name@, before[oj]));
                } else if j == at {
                    assert(after[i] == before[oi]);
                    assert(precedes(before[oi], name@));
                } else {
                    assert(after[i] == before[oi]);
                    assert(after[j] == before[oj]);
                }
            }
            assert(after.to_set() =~= before.to_set().insert(name@)) by {
                assert forall|x: Seq<u8>| after.contains(x) <==> (before.contains(x) || x
                    == name@) by {
                    if after.contains(x) {
                        let k = choose|k: int| 0 <= k < after.len() && after[k] == x;
                        if k < at {
                            assert(before[k] == x);
                        } else if k > at {
                            assert(before[k - 1] == x);
                        }
                    }
                    if before.contains(x) {
                        let k = choose|k: int| 0 <= k < before.len() && before[k] == x;
                        if k < at {
                            assert(after[k] == x);
                        } else {
                            assert(after[k + 1] == x);
                        }
                    }
                    if x == name@ {
                        assert(after[at as int] == x);
                    }
                }
            }
        }
        *self = NameSet { names };
    }

    /// How many names the set holds.
    pub fn len(&self) -> (n: usize)
        ensures
            n == self@.len(),
            self@.finite(),
    {
        proof {
            use_type_invariant(self);
            let all = names_of(self.names@);
            assert(all.no_duplicates()) by {
                assert forall|i: int, j: int| 0 <= i < all.len() && 0 <= j < all.len() && i
                    != j implies all[i] != all[j] by {
                    if i < j {
                        lemma_precedes_is_strict(all[i], all[j]);
                    } else {
                        lemma_precedes_is_strict(all[j], all[i]);
                    }
                }
            }
            all.unique_seq_to_set();
        }
        self.names.len()
    }
}

} // verus!
