use vstd::prelude::*;

verus! {

broadcast use vstd::array::group_array_axioms;

/// A 32-byte account address.
#[derive(Clone, Copy, Debug, PartialEq, Eq)]
pub struct AccountId(pub [u8; 32]);

/// Whether `a` is the address that PSP22 treats as "nobody": all bytes zero.
pub open spec fn is_zero_address(a: AccountId) -> bool {
    forall|i: int| 0 <= i < 32 ==> a.0[i] == 0
}

/// A 32-byte code hash of a deployed contract.
#[derive(Clone, Copy, Debug, PartialEq, Eq)]
pub struct CodeHash(pub [u8; 32]);

impl CodeHash {
    /// Compares two hashes byte by byte.
    pub fn same(&self, other: &CodeHash) -> (r: bool)
        ensures
            r == (*self == *other),
    {
        let mut i: usize = 0;
        while i < 32
            invariant
                0 <= i <= 32,
                forall|j: int| 0 <= j < i ==> self.0[j] == other.0[j],
            decreases 32 - i,
        {
            if self.0[i] != other.0[i] {
                return false;
            }
            i = i + 1;
        }
        assert(self.0 =~= other.0);
        true
    }

    /// The all-zero hash.
    pub fn zero() -> (h: CodeHash)
        ensures
            forall|i: int| 0 <= i < 32 ==> h.0[i] == 0,
    {
        CodeHash([0u8; 32])
    }
}

impl AccountId {
    /// An address with all 32 bytes equal to `b`.
    pub fn filled(b: u8) -> (a: AccountId)
        ensures
            forall|i: int| 0 <= i < 32 ==> a.0[i] == b,
    {
        AccountId([b; 32])
    }

    /// Whether this is the all-zero address.
    pub fn is_zero(&self) -> (r: bool)
        ensures
            r == is_zero_address(*self),
    {
        let mut i: usize = 0;
        while i < 32
            invariant
                0 <= i <= 32,
                forall|j: int| 0 <= j < i ==> self.0[j] == 0,
            decreases 32 - i,
        {
            if self.0[i] != 0 {
                return false;
            }
            i = i + 1;
        }
        true
    }

    /// Compares two addresses byte by byte.
    pub fn same(&self, other: &AccountId) -> (r: bool)
        ensures
            r == (*self == *other),
    {
        let mut i: usize = 0;
        while i < 32
            invariant
                0 <= i <= 32,
                forall|j: int| 0 <= j < i ==> self.0[j] == other.0[j],
            decreases 32 - i,
        {
            if self.0[i] != other.0[i] {
                return false;
            }
            i = i + 1;
        }
        assert(self.0 =~= other.0);
        true
    }
}

} // verus!
