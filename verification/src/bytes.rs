//! Byte strings: file names and attribute names are compared and copied as raw bytes.

use vstd::prelude::*;

verus! {

/// The names held in a list of byte strings, in order.
pub open spec fn names_of(list: Seq<Vec<u8>>) -> Seq<Seq<u8>> {
    Seq::new(list.len(), |i: int| list[i]@)
}

/// Whether two byte strings hold the same bytes.
pub fn bytes_equal(a: &[u8], b: &[u8]) -> (equal: bool)
    ensures
        equal == (a@ == b@),
{
    if a.len() != b.len() {
        return false;
    }
    let n = a.len();
    let mut i: usize = 0;
    while i < n
        invariant
            n == a@.len(),
            n == b@.len(),
            i <= n,
            forall|k: int| 0 <= k < i ==> a@[k] == b@[k],
        decreases n - i,
    {
        if a[i] != b[i] {
            return false;
        }
        i = i + 1;
    }
    assert(a@ =~= b@);
    true
}

/// A fresh copy of a byte string.
pub fn copy_bytes(a: &[u8]) -> (copy: Vec<u8>)
    ensures
        copy@ == a@,
{
    let n = a.len();
    let mut copy: Vec<u8> = Vec::with_capacity(n);
    let mut i: usize = 0;
    while i < n
        invariant
            n == a@.len(),
            i <= n,
            copy@ == a@.subrange(0, i as int),
        decreases n - i,
    {
        copy.push(a[i]);
        i = i + 1;
    }
    assert(a@.subrange(0, n as int) =~= a@);
    copy
}

/// Whether `prefix` is what `a` starts with.
pub fn starts_with(a: &[u8], prefix: &[u8]) -> (found: bool)
    ensures
        found == (prefix@.len() <= a@.len() && a@.subrange(0, prefix@.len() as int) == prefix@),
{
    let n = prefix.len();
    if a.len() < n {
        return false;
    }
    let mut i: usize = 0;
    while i < n
        invariant
            n == prefix@.len(),
            n <= a@.len(),
            i <= n,
            forall|k: int| 0 <= k < i ==> a@[k] == prefix@[k],
        decreases n - i,
    {
        if a[i] != prefix[i] {
            assert(a@.subrange(0, n as int)[i as int] != prefix@[i as int]);
            return false;
        }
        i = i + 1;
    }
    assert(a@.subrange(0, n as int) =~= prefix@);
    true
}

/// Whether `name` occurs in `list`.
pub fn contains_name(list: &Vec<Vec<u8>>, name: &[u8]) -> (found: bool)
    ensures
        found == names_of(list@).contains(name@),
{
    let n = list.len();
    let mut i: usize = 0;
    while i < n
        invariant
            n == list@.len(),
            i <= n,
            forall|k: int| 0 <= k < i ==> list@[k]@ != name@,
        decreases n - i,
    {
        if bytes_equal(list[i].as_slice(), name) {
            assert(names_of(list@)[i as int] == name@);
            return true;
        }
        i = i + 1;
    }
    assert forall|k: int| 0 <= k < names_of(list@).len() implies names_of(list@)[k] != name@ by {
        assert(names_of(list@)[k] == list@[k]@);
    }
    false
}

/// Whether `a` and `b` hold the same bytes at their first `k` places.
pub open spec fn agree_upto(a: Seq<u8>, b: Seq<u8>, k: int) -> bool {
    &&& 0 <= k <= a.len()
    &&& k <= b.len()
    &&& forall|i: int| 0 <= i < k ==> a[i] == b[i]
}

/// Whether `a` comes before `b` when byte strings are put in order as words
/// are in a dictionary: at the first place where they differ `a` holds the
/// smaller byte, or `a` ends there and `b` goes on.
pub open spec fn precedes(a: Seq<u8>, b: Seq<u8>) -> bool {
    exists|k: int| #[trigger] agree_upto(a, b, k) && k < b.len() && (k == a.len() || a[k] < b[k])
}

/// How one byte string stands to another in that order.
#[derive(Clone, Copy, Debug, PartialEq, Eq, Structural)]
pub enum Place {
    Before,
    Same,
    After,
}

/// Where `a` stands to `b`.
pub fn place_of(a: &[u8], b: &[u8]) -> (place: Place)
    ensures
        (place == Place::Before) == precedes(a@, b@),
        (place == Place::Same) == (a@ == b@),
        (place == Place::After) == precedes(b@, a@),
{
    let n = a.len();
    let m = b.len();
    let mut i: usize = 0;
    while i < n && i < m
        invariant
            n == a@.len(),
            m == b@.len(),
            agree_upto(a@, b@, i as int),
        decreases n - i,
    {
        if a[i] < b[i] {
            proof {
                lemma_precedes_is_strict(a@, b@);
            }
            return Place::Before;
        }
        if a[i] > b[i] {
            proof {
                assert(agree_upto(b@, a@, i as int));
                lemma_precedes_is_strict(b@, a@);
            }
            return Place::After;
        }
        i = i + 1;
    }
    if i < m {
        proof {
            lemma_precedes_is_strict(a@, b@);
        }
        Place::Before
    } else if i < n {
        proof {
            assert(agree_upto(b@, a@, i as int));
            lemma_precedes_is_strict(b@, a@);
        }
        Place::After
    } else {
        proof {
            assert(a@ =~= b@);
            if precedes(a@, a@) {
                lemma_precedes_is_strict(a@, a@);
            }
        }
        Place::Same
    }
}

/// No byte string comes before itself.
pub proof fn lemma_precedes_is_strict(a: Seq<u8>, b: Seq<u8>)
    requires
        precedes(a, b),
    ensures
        a != b,
        !precedes(b, a),
{
    let k = choose|k: int| #[trigger] agree_upto(a, b, k) && k < b.len() && (k == a.len() || a[k]
        < b[k]);
    if precedes(b, a) {
        let j = choose|j: int| #[trigger]
            agree_upto(b, a, j) && j < a.len() && (j == b.len() || b[j] < a[j]);
        if j < k {
            assert(a[j] == b[j]);
        } else if k < j {
            assert(b[k] == a[k]);
        }
    }
}

/// What comes before something that comes before a third, comes before the
/// third.
pub proof fn lemma_precedes_is_transitive(a: Seq<u8>, b: Seq<u8>, c: Seq<u8>)
    requires
        precedes(a, b),
        precedes(b, c),
    ensures
        precedes(a, c),
{
    let k = choose|k: int| #[trigger] agree_upto(a, b, k) && k < b.len() && (k == a.len() || a[k]
        < b[k]);
    let j = choose|j: int| #[trigger] agree_upto(b, c, j) && j < c.len() && (j == b.len() || b[j]
        < c[j]);
    if k < j {
        assert(b[k] == c[k]);
        assert(agree_upto(a, c, k));
    } else if j < k {
        assert(a[j] == b[j]);
        assert(agree_upto(a, c, j));
    } else {
        assert(agree_upto(a, c, k));
    }
}

} // verus!
