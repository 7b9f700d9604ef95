//! The account-counter state and its operations.
use vstd::prelude::*;

use crate::storage::{account_entries, lazy_value, AccountId, AccountNumbers, LazyNumber};

verus! {

/// A monetary value.
pub type Balance = u128;

/// Counter addition, wrapping around at 2^32. Every counter of the state adds
/// this way: the eager one, the lazy one and the per-account ones.
pub open spec fn wrap_add(a: u32, b: u32) -> u32 {
    ((a + b) % 0x1_0000_0000) as u32
}

/// Counter addition as executed: `u32::wrapping_add`.
fn counter_add(a: u32, b: u32) -> (r: u32)
    ensures
        r == wrap_add(a, b),
{
    a.wrapping_add(b)
}

/// What the state holds, as mathematical values.
pub struct IncrementerView {
    pub flag: bool,
    pub number: u32,
    pub lazy_number: u32,
    pub accounts: Map<AccountId, u32>,
    pub balance: Balance,
}

impl IncrementerView {
    /// The counter of `who`: its entry, or zero where it has none.
    pub open spec fn number_of(self, who: AccountId) -> u32 {
        if self.accounts.contains_key(who) {
            self.accounts[who]
        } else {
            0
        }
    }

    /// The entry of `who` can be written: it exists already, or there is room
    /// for one more key (the map counts its keys in a `u32`).
    pub open spec fn can_write(self, who: AccountId) -> bool {
        self.accounts.contains_key(who) || self.accounts.len() < u32::MAX
    }

    /// The state with the flag negated.
    pub open spec fn flipped(self) -> IncrementerView {
        IncrementerView { flag: !self.flag, ..self }
    }

    /// The state with the eager counter set to `v`.
    pub open spec fn with_number(self, v: u32) -> IncrementerView {
        IncrementerView { number: v, ..self }
    }

    /// The state with `by` added to the eager counter.
    pub open spec fn incremented(self, by: u32) -> IncrementerView {
        self.with_number(wrap_add(self.number, by))
    }

    /// The state with the lazy counter set to `v`.
    pub open spec fn with_lazy_number(self, v: u32) -> IncrementerView {
        IncrementerView { lazy_number: v, ..self }
    }

    /// The state with `by` added to the lazy counter.
    pub open spec fn lazy_incremented(self, by: u32) -> IncrementerView {
        self.with_lazy_number(wrap_add(self.lazy_number, by))
    }

    /// The state with the entry of `who` set to `v`, created if absent.
    pub open spec fn with_account(self, who: AccountId, v: u32) -> IncrementerView {
        IncrementerView { accounts: self.accounts.insert(who, v), ..self }
    }

    /// The state with `v` added to the counter of `who`.
    pub open spec fn account_added(self, who: AccountId, v: u32) -> IncrementerView {
        self.with_account(who, wrap_add(self.number_of(who), v))
    }
}

/// The state: a flag, an eager counter, a lazily loaded counter, a counter
/// per account, and a balance fixed at construction.
pub struct Incrementer {
    bool_value: bool,
    number: u32,
    lazy_number: LazyNumber,
    account_number_map: AccountNumbers,
    balance: Balance,
}

impl View for Incrementer {
    type V = IncrementerView;

    closed spec fn view(&self) -> IncrementerView {
        IncrementerView {
            flag: self.bool_value,
            number: self.number,
            lazy_number: lazy_value(self.lazy_number),
            accounts: account_entries(self.account_number_map),
            balance: self.balance,
        }
    }
}

impl Incrementer {
    /// A state holding the given values and no account entries.
    pub fn new(init_value: bool, init_number: u32, init_lazy_number: u32, init_balance: Balance) -> (r: Self)
        ensures
            r@.flag == init_value,
            r@.number == init_number,
            r@.lazy_number == init_lazy_number,
            r@.accounts == (Map::<AccountId, u32>::empty()),
            r@.balance == init_balance,
    {
        let account_number_map = AccountNumbers::new();
        let r = Incrementer {
            bool_value: init_value,
            number: init_number,
            lazy_number: LazyNumber::new(init_lazy_number),
            account_number_map,
            balance: init_balance,
        };
        assert(r@.accounts =~= Map::empty());
        r
    }

    /// A state holding `false`, zeros and no account entries.
    pub fn default() -> (r: Self)
        ensures
            r@.flag == false,
            r@.number == 0,
            r@.lazy_number == 0,
            r@.accounts == (Map::<AccountId, u32>::empty()),
            r@.balance == 0,
    {
        Self::new(false, 0, 0, 0)
    }

    /// Negates the flag.
    pub fn flip(&mut self)
        ensures
            final(self)@ == old(self)@.flipped(),
    {
        self.bool_value = !self.bool_value;
    }

    pub fn get_bool(&self) -> (r: bool)
        ensures
            r == self@.flag,
    {
        self.bool_value
    }

    pub fn get_number(&self) -> (r: u32)
        ensures
            r == self@.number,
    {
        self.number
    }

    pub fn set_number(&mut self, new_value: u32)
        ensures
            final(self)@ == old(self)@.with_number(new_value),
    {
        self.number = new_value;
    }

    /// Adds `by` to the eager counter, wrapping around at 2^32.
    pub fn inc(&mut self, by: u32)
        ensures
            final(self)@ == old(self)@.incremented(by),
    {
        self.number = counter_add(self.number, by);
    }

    /// Reads the lazy counter, loading it on first access.
    pub fn get_number_lazy(&mut self) -> (r: u32)
        ensures
            r == old(self)@.lazy_number,
            final(self)@ == old(self)@,
    {
        self.lazy_number.get()
    }

    pub fn set_number_lazy(&mut self, new_value: u32)
        ensures
            final(self)@ == old(self)@.with_lazy_number(new_value),
    {
        self.lazy_number.set(new_value);
    }

    /// Adds `by` to the lazy counter (loading it first), wrapping around at 2^32.
    pub fn inc_lazy(&mut self, by: u32)
        ensures
            final(self)@ == old(self)@.lazy_incremented(by),
    {
        let cur = self.lazy_number.get();
        self.lazy_number.set(counter_add(cur, by));
    }

    /// The counter of the account `of`, zero where it has no entry.
    pub fn get(&self, of: AccountId) -> (r: u32)
        ensures
            r == self@.number_of(of),
    {
        self.my_number_or_zero(&of)
    }

    /// The counter of the calling account, zero where it has no entry.
    pub fn get_my_number(&self, caller: AccountId) -> (r: u32)
        ensures
            r == self@.number_of(caller),
    {
        self.my_number_or_zero(&caller)
    }

    /// Sets the counter of the calling account, creating its entry if absent.
    pub fn set_my_number(&mut self, caller: AccountId, value: u32)
        requires
            old(self)@.can_write(caller),
        ensures
            final(self)@ == old(self)@.with_account(caller, value),
    {
        self.account_number_map.insert(caller, value);
    }

    /// Adds `value` to the counter of the calling account (zero where it has
    /// no entry), wrapping around at 2^32, in one write.
    pub fn add_my_number(&mut self, caller: AccountId, value: u32)
        requires
            old(self)@.can_write(caller),
        ensures
            final(self)@ == old(self)@.account_added(caller, value),
    {
        let my_number = self.my_number_or_zero(&caller);
        self.account_number_map.insert(caller, counter_add(my_number, value));
    }

    fn my_number_or_zero(&self, of: &AccountId) -> (r: u32)
        ensures
            r == self@.number_of(*of),
    {
        match self.account_number_map.get(of) {
            Some(value) => value,
            None => 0,
        }
    }

    pub fn get_balance(&self) -> (r: Balance)
        ensures
            r == self@.balance,
    {
        self.balance
    }
}

} // verus!
