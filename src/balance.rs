//! An account's available and held funds.
use vstd::prelude::*;

use crate::amount::{representable, Amount};

verus! {

/// Whether an available and a held balance, and their total, are all in the
/// range of an amount.
pub open spec fn balances_fit(available: int, held: int) -> bool {
    &&& representable(available)
    &&& representable(held)
    &&& representable(available + held)
}

/// Available and held funds. The total is never stored: it is always their
/// sum.
#[derive(Debug)]
pub struct AccountBalance {
    available: Amount,
    held: Amount,
}

impl AccountBalance {
    #[verifier::type_invariant]
    spec fn total_fits(self) -> bool {
        balances_fit(self.available.units(), self.held.units())
    }

    pub closed spec fn available_units(self) -> int {
        self.available.units()
    }

    pub closed spec fn held_units(self) -> int {
        self.held.units()
    }

    /// A zero balance.
    pub fn new() -> (r: AccountBalance)
        ensures
            r.available_units() == 0,
            r.held_units() == 0,
    {
        AccountBalance { available: Amount::zero(), held: Amount::zero() }
    }

    /// The balance of the two amounts, or `None` where their total lies out of
    /// range.
    pub fn from_amounts(available: Amount, held: Amount) -> (r: Option<AccountBalance>)
        ensures
            match r {
                Some(b) => {
                    &&& balances_fit(available.units(), held.units())
                    &&& b.available_units() == available.units()
                    &&& b.held_units() == held.units()
                },
                None => !balances_fit(available.units(), held.units()),
            },
    {
        available.is_in_range();
        held.is_in_range();
        match available.checked_add(held) {
            Some(_) => Some(AccountBalance { available, held }),
            None => None,
        }
    }

    pub fn available(&self) -> (r: Amount)
        ensures
            r.units() == self.available_units(),
    {
        self.available
    }

    pub fn held(&self) -> (r: Amount)
        ensures
            r.units() == self.held_units(),
    {
        self.held
    }

    /// Available plus held funds; always in range.
    pub fn total(&self) -> (r: Amount)
        ensures
            r.units() == self.available_units() + self.held_units(),
    {
        proof {
            use_type_invariant(self);
        }
        match self.available.checked_add(self.held) {
            Some(t) => t,
            None => Amount::zero(),
        }
    }

    /// Both balances, and their total, lie in the range of an amount; this
    /// call makes that known where the balance is used.
    pub(crate) fn in_range(&self) -> (r: bool)
        ensures
            r,
            balances_fit(self.available_units(), self.held_units()),
    {
        proof {
            use_type_invariant(self);
        }
        true
    }
}

impl Default for AccountBalance {
    fn default() -> (r: AccountBalance)
        ensures
            r.available_units() == 0,
            r.held_units() == 0,
    {
        AccountBalance::new()
    }
}

} // verus!
