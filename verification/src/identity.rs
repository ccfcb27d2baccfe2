//! Parties on the host ledger.

use vstd::prelude::*;

verus! {

/// A party on the host ledger, named by the bytes of its address. Two
/// identities are the same party exactly when their bytes agree.
#[derive(Debug)]
pub struct Identity {
    key: Vec<u8>,
}

impl View for Identity {
    type V = Seq<u8>;

    closed spec fn view(&self) -> Seq<u8> {
        self.key@
    }
}

impl Identity {
    /// The party that `key` names.
    pub fn new(key: Vec<u8>) -> (id: Identity)
        ensures
            id@ == key@,
    {
        Identity { key }
    }

    /// The bytes that name this party.
    pub fn as_bytes(&self) -> (key: &Vec<u8>)
        ensures
            key@ == self@,
    {
        &self.key
    }

    /// Whether `self` and `other` name the same party.
    pub fn same(&self, other: &Identity) -> (r: bool)
        ensures
            r == (self@ == other@),
    {
        if self.key.len() != other.key.len() {
            return false;
        }
        let n: usize = self.key.len();
        let mut i: usize = 0;
        while i < n
            invariant
                n == self.key@.len(),
                n == other.key@.len(),
                i <= n,
                forall|j: int| 0 <= j < i ==> self.key@[j] == other.key@[j],
            decreases n - i,
        {
            if self.key[i] != other.key[i] {
                return false;
            }
            i += 1;
        }
        assert(self.key@ =~= other.key@);
        true
    }
}

impl Clone for Identity {
    fn clone(&self) -> (c: Identity)
        ensures
            c@ == self@,
    {
        let n: usize = self.key.len();
        let mut key: Vec<u8> = Vec::new();
        let mut i: usize = 0;
        while i < n
            invariant
                n == self.key@.len(),
                i <= n,
                key@ == self.key@.subrange(0, i as int),
            decreases n - i,
        {
            key.push(self.key[i]);
            assert(key@ =~= self.key@.subrange(0, i + 1));
            i += 1;
        }
        assert(key@ =~= self.key@);
        Identity { key }
    }
}

impl PartialEq for Identity {
    fn eq(&self, other: &Identity) -> (r: bool) {
        self.same(other)
    }
}

impl Eq for Identity {
}

impl vstd::std_specs::cmp::PartialEqSpecImpl for Identity {
    open spec fn obeys_eq_spec() -> bool {
        true
    }

    open spec fn eq_spec(&self, other: &Identity) -> bool {
        self@ == other@
    }
}

} // verus!
