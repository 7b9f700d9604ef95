//! Storage cells backed by `ink_storage`: a lazily loaded number and a map
//! from account to number. Each is held in a private field that Verus does not
//! look into; what it holds is given a name, and every operation the library
//! uses is stated over that name.
use vstd::prelude::*;

verus! {

/// An account identity: an opaque 32-byte token.
pub type AccountId = [u8; 32];

/// A number held in an `ink_storage::Lazy` cell.
#[verifier::external_body]
pub struct LazyNumber {
    cell: ink_storage::Lazy<u32>,
}

/// The number that a lazy cell holds once it is loaded.
pub uninterp spec fn lazy_value(l: LazyNumber) -> u32;

impl LazyNumber {
    /// Relies on ink_storage::Lazy::new: the cell is created already holding
    /// `value` (its cache is populated, so it never reads contract storage).
    #[verifier::external_body]
    pub(crate) fn new(value: u32) -> (r: LazyNumber)
        ensures
            lazy_value(r) == value,
    {
        LazyNumber { cell: ink_storage::Lazy::new(value) }
    }

    /// Relies on ink_storage::Lazy::get: loads the cell if it was not loaded
    /// and returns the value it holds. It cannot fail on a cell made by `new`,
    /// which always holds a value.
    #[verifier::external_body]
    pub(crate) fn get(&self) -> (r: u32)
        ensures
            r == lazy_value(*self),
    {
        *ink_storage::Lazy::get(&self.cell)
    }

    /// Relies on ink_storage::Lazy::set: the cell holds `value` afterwards.
    #[verifier::external_body]
    pub(crate) fn set(&mut self, value: u32)
        ensures
            lazy_value(*final(self)) == value,
    {
        ink_storage::Lazy::set(&mut self.cell, value)
    }
}

/// A map from account to number held in an `ink_storage` hash map.
#[verifier::external_body]
pub struct AccountNumbers {
    map: ink_storage::collections::HashMap<AccountId, u32>,
}

/// The entries of an account map.
pub uninterp spec fn account_entries(m: AccountNumbers) -> Map<AccountId, u32>;

impl AccountNumbers {
    /// Relies on ink_storage::collections::HashMap::new: the map starts empty.
    #[verifier::external_body]
    pub(crate) fn new() -> (r: AccountNumbers)
        ensures
            account_entries(r).dom() == Set::<AccountId>::empty(),
    {
        AccountNumbers { map: ink_storage::collections::HashMap::new() }
    }

    /// Relies on ink_storage::collections::HashMap::get: the value stored for
    /// `who`, or `None` when there is no entry for it. The map is not changed.
    #[verifier::external_body]
    pub(crate) fn get(&self, who: &AccountId) -> (r: Option<u32>)
        ensures
            r == (if account_entries(*self).contains_key(*who) {
                Some(account_entries(*self)[*who])
            } else {
                None::<u32>
            }),
    {
        self.map.get(who).copied()
    }

    /// Relies on ink_storage::collections::HashMap::insert: the entry for `who`
    /// is created or overwritten, and no other entry changes. A new key goes
    /// into the map's key stash, whose `u32` length must not overflow.
    #[verifier::external_body]
    pub(crate) fn insert(&mut self, who: AccountId, value: u32)
        requires
            account_entries(*old(self)).contains_key(who)
                || account_entries(*old(self)).len() < u32::MAX,
        ensures
            account_entries(*final(self)) == account_entries(*old(self)).insert(who, value),
    {
        self.map.insert(who, value);
    }
}

} // verus!
