//! The identity of a caller: an account or a contract package, each named by
//! a 32-byte hash.

use vstd::prelude::*;

verus! {

/// Length of the hash that names an account or a contract package.
pub const HASH_LENGTH: usize = 32;

/// A caller identity, as resolved by the execution environment.
#[derive(Clone, Copy, Debug, PartialEq, Eq, Hash)]
pub enum Address {
    /// An account, named by its account hash.
    Account([u8; 32]),
    /// A contract, named by its package hash.
    Contract([u8; 32]),
}

impl Address {
    /// Whether this identity names a contract package.
    pub open spec fn spec_is_contract(self) -> bool {
        self is Contract
    }

    /// The 32-byte hash that names this identity.
    pub open spec fn spec_hash(self) -> Seq<u8> {
        match self {
            Address::Account(h) => h@,
            Address::Contract(h) => h@,
        }
    }

    /// Whether this identity names a contract package.
    pub fn is_contract(&self) -> (r: bool)
        ensures
            r == self.spec_is_contract(),
    {
        match self {
            Address::Account(_) => false,
            Address::Contract(_) => true,
        }
    }

    /// The 32-byte hash that names this identity.
    pub fn hash(&self) -> (r: [u8; 32])
        ensures
            r@ == self.spec_hash(),
    {
        match self {
            Address::Account(h) => *h,
            Address::Contract(h) => *h,
        }
    }

    /// Two identities are equal exactly when their kinds and hashes are.
    pub proof fn lemma_eq_by_parts(self, other: Address)
        ensures
            self == other <==> (self.spec_is_contract() == other.spec_is_contract()
                && self.spec_hash() == other.spec_hash()),
    {
        match (self, other) {
            (Address::Account(a), Address::Account(b)) => {
                if a@ == b@ {
                    assert(a@ =~= b@);
                    assert(a == b);
                }
            },
            (Address::Contract(a), Address::Contract(b)) => {
                if a@ == b@ {
                    assert(a@ =~= b@);
                    assert(a == b);
                }
            },
            _ => {},
        }
    }

    /// Compares two identities: same kind and same hash.
    pub fn same_as(&self, other: &Address) -> (r: bool)
        ensures
            r == (*self == *other),
    {
        proof {
            self.lemma_eq_by_parts(*other);
        }
        let a = self.hash();
        let b = other.hash();
        if self.is_contract() != other.is_contract() {
            return false;
        }
        let mut i: usize = 0;
        while i < HASH_LENGTH
            invariant
                0 <= i <= HASH_LENGTH,
                a@.len() == HASH_LENGTH,
                b@.len() == HASH_LENGTH,
                a@ == self.spec_hash(),
                b@ == other.spec_hash(),
                forall|j: int| 0 <= j < i ==> a@[j] == b@[j],
            decreases HASH_LENGTH - i,
        {
            if a[i] != b[i] {
                proof {
                    self.lemma_eq_by_parts(*other);
                }
                assert(a@[i as int] != b@[i as int]);
                return false;
            }
            i = i + 1;
        }
        assert(a@ =~= b@);
        true
    }
}

} // verus!
