//! Fixed-size byte strings and the addresses made of them.

use vstd::prelude::*;

verus! {

/// A value that a [`crate::table::Table`] can be keyed by.
pub trait Key: Copy {
    /// Whether the two keys are the same value.
    fn same(&self, other: &Self) -> (result: bool)
        ensures
            result == (*self == *other),
    ;
}

/// A byte string of exactly `N` bytes.
#[derive(Clone, Copy, Debug, PartialEq, Eq)]
pub struct BytesN<const N: usize> {
    pub bytes: [u8; N],
}

impl<const N: usize> BytesN<N> {
    /// The byte string that holds `bytes`.
    pub fn from_array(bytes: &[u8; N]) -> (result: Self)
        ensures
            result.bytes == *bytes,
    {
        BytesN { bytes: *bytes }
    }

    /// The bytes of the string.
    pub fn to_array(&self) -> (result: [u8; N])
        ensures
            result == self.bytes,
    {
        self.bytes
    }
}

impl<const N: usize> Key for BytesN<N> {
    fn same(&self, other: &Self) -> (result: bool) {
        let mut i: usize = 0;
        while i < N
            invariant
                i <= N,
                forall|j: int| 0 <= j < i ==> self.bytes[j] == other.bytes[j],
            decreases N - i,
        {
            if self.bytes[i] != other.bytes[i] {
                return false;
            }
            i += 1;
        }
        assert(self.bytes =~= other.bytes);
        true
    }
}

/// The address of an account or of a contract, as the 56 characters of its
/// strkey text.
#[derive(Clone, Copy, Debug, PartialEq, Eq)]
pub struct Address {
    pub strkey: BytesN<56>,
}

impl Address {
    /// The address whose strkey text is `strkey`.
    pub fn from_strkey(strkey: &[u8; 56]) -> (result: Self)
        ensures
            result.strkey.bytes == *strkey,
    {
        Address { strkey: BytesN::from_array(strkey) }
    }
}

impl Key for Address {
    fn same(&self, other: &Self) -> (result: bool) {
        self.strkey.same(&other.strkey)
    }
}

} // verus!
