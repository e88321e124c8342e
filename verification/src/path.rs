//! Paths relative to the two roots of a synchronisation.

use vstd::prelude::*;
use crate::bytes::{copy_bytes, names_of};

verus! {

/// A path below the source root and, equally, below the target root: the file
/// names to walk through, outermost first. The empty path is the roots themselves.
#[derive(Debug)]
pub struct RelPath {
    components: Vec<Vec<u8>>,
}

impl View for RelPath {
    type V = Seq<Seq<u8>>;

    closed spec fn view(&self) -> Seq<Seq<u8>> {
        names_of(self.components@)
    }
}

impl RelPath {
    /// The empty path.
    pub fn root() -> (path: RelPath)
        ensures
            path@ == Seq::<Seq<u8>>::empty(),
    {
        let path = RelPath { components: Vec::new() };
        assert(path@ =~= Seq::<Seq<u8>>::empty());
        path
    }

    /// The path of the entry called `name` in the directory `self`.
    pub fn join(&self, name: &[u8]) -> (child: RelPath)
        ensures
            child@ == self@.push(name@),
    {
        let mut components = self.copy_components();
        components.push(copy_bytes(name));
        let child = RelPath { components };
        assert(child@ =~= self@.push(name@));
        child
    }

    /// A copy of this path.
    pub fn duplicate(&self) -> (copy: RelPath)
        ensures
            copy@ == self@,
    {
        RelPath { components: self.copy_components() }
    }

    /// How many names the path holds.
    pub fn depth(&self) -> (n: usize)
        ensures
            n == self@.len(),
    {
        self.components.len()
    }

    /// The name at position `i`, counted from the outermost.
    pub fn component(&self, i: usize) -> (name: &[u8])
        requires
            i < self@.len(),
        ensures
            name@ == self@[i as int],
    {
        self.components[i].as_slice()
    }

    fn copy_components(&self) -> (copy: Vec<Vec<u8>>)
        ensures
            names_of(copy@) == names_of(self.components@),
    {
        let n = self.components.len();
        let mut copy: Vec<Vec<u8>> = Vec::with_capacity(n);
        let mut i: usize = 0;
        while i < n
            invariant
                n == self.components@.len(),
                i <= n,
                copy@.len() == i,
                forall|k: int| 0 <= k < i ==> copy@[k]@ == self.components@[k]@,
            decreases n - i,
        {
            copy.push(copy_bytes(self.components[i].as_slice()));
            i = i + 1;
        }
        assert(names_of(copy@) =~= names_of(self.components@));
        copy
    }
}

} // verus!
