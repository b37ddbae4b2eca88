//! Account and contract identities, held by their Stellar strkey.

use vstd::prelude::*;

verus! {

/// Length in bytes of a Stellar strkey for an account (`G...`) or a
/// contract (`C...`).
pub const STRKEY_LEN: usize = 56;

/// A Stellar address (account or contract), held as its strkey bytes.
///
/// Two addresses are the same party exactly when their strkeys agree, so
/// the library compares parties by [`AccountId::same_as`].
#[derive(Clone, Copy, Debug, PartialEq, Eq)]
pub struct AccountId {
    pub strkey: [u8; 56],
}

impl View for AccountId {
    type V = Seq<u8>;

    open spec fn view(&self) -> Seq<u8> {
        self.strkey@
    }
}

impl AccountId {
    /// Wraps the strkey bytes of an address.
    pub fn from_strkey(strkey: [u8; 56]) -> (a: AccountId)
        ensures
            a.strkey == strkey,
    {
        AccountId { strkey }
    }

    /// Whether `self` and `other` name the same party.
    pub fn same_as(&self, other: &AccountId) -> (r: bool)
        ensures
            r == (self@ == other@),
    {
        let mut i: usize = 0;
        while i < STRKEY_LEN
            invariant
                0 <= i <= STRKEY_LEN,
                self@.len() == STRKEY_LEN,
                other@.len() == STRKEY_LEN,
                forall|j: int| 0 <= j < i ==> self@[j] == other@[j],
            decreases STRKEY_LEN - i,
        {
            if self.strkey[i] != other.strkey[i] {
                return false;
            }
            i = i + 1;
        }
        assert(self@ =~= other@);
        true
    }
}

} // verus!
