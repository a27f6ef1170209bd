use vstd::prelude::*;

verus! {

/// An account on the chain: its 32-byte public identifier.
pub type AccountId = [u8; 32];

/// The all-zero account, which the PSP22 ledger refuses as a sender or recipient.
pub open spec fn spec_is_zero(account: AccountId) -> bool {
    forall|i: int| 0 <= i < 32 ==> account[i] == 0u8
}

/// Whether `account` is the all-zero account.
pub fn is_zero(account: &AccountId) -> (r: bool)
    ensures
        r == spec_is_zero(*account),
{
    let mut i: usize = 0;
    while i < 32
        invariant
            i <= 32,
            forall|j: int| 0 <= j < i ==> account[j] == 0u8,
        decreases 32 - i,
    {
        if account[i] != 0 {
            return false;
        }
        i = i + 1;
    }
    true
}

/// A key of a [`crate::table::Table`]: a plain value with an executable equality
/// that agrees with equality of values.
pub trait TableKey: Copy {
    fn same_key(&self, other: &Self) -> (r: bool)
        ensures
            r == (*self == *other),
    ;
}

impl TableKey for AccountId {
    fn same_key(&self, other: &Self) -> (r: bool) {
        broadcast use vstd::array::group_array_axioms;

        let mut i: usize = 0;
        while i < 32
            invariant
                i <= 32,
                forall|j: int| 0 <= j < i ==> self[j] == other[j],
            decreases 32 - i,
        {
            if self[i] != other[i] {
                return false;
            }
            i = i + 1;
        }
        assert(*self =~= *other);
        true
    }
}

/// The key of an allowance: the owner of the funds and the spender allowed to move them.
#[derive(Clone, Copy, Debug)]
pub struct AllowanceKey {
    pub owner: AccountId,
    pub spender: AccountId,
}

impl TableKey for AllowanceKey {
    fn same_key(&self, other: &Self) -> (r: bool) {
        self.owner.same_key(&other.owner) && self.spender.same_key(&other.spender)
    }
}

} // verus!
