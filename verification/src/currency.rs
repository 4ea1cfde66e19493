//! The currency collaborator, modelled as part of the ledger state: one free
//! and one reserved balance per account.  Reserving moves funds from free to
//! reserved and is the only operation that can be refused; releasing and
//! capturing reservations are total, moving at most what is actually reserved
//! and saturating credits at the balance type's maximum, as the hosting
//! ledger's arithmetic does.

use vstd::prelude::*;
use crate::store::KeyedStore;
use crate::types::Error;

verus! {

/// The two balances an account holds.
#[derive(Clone, Copy, PartialEq, Eq, Structural, Debug)]
pub struct AccountBalance {
    /// Funds the account may spend or reserve.
    pub free: u64,
    /// Funds locked behind outstanding reservations.
    pub reserved: u64,
}

/// Addition that stops at the largest representable balance.
pub open spec fn sat_add(x: u64, y: u64) -> u64 {
    if x + y <= u64::MAX {
        (x + y) as u64
    } else {
        u64::MAX
    }
}

/// The smaller of two amounts.
pub open spec fn min_u64(x: u64, y: u64) -> u64 {
    if x <= y {
        x
    } else {
        y
    }
}

/// The balances of all accounts.  An account with no record holds zero.
pub struct Currency {
    accounts: KeyedStore<AccountBalance>,
}

impl View for Currency {
    type V = Map<u64, AccountBalance>;

    closed spec fn view(&self) -> Map<u64, AccountBalance> {
        self.accounts@
    }
}

/// The free balance `a` holds in the account map `m`.
pub open spec fn free_in(m: Map<u64, AccountBalance>, a: u64) -> u64 {
    if m.contains_key(a) {
        m[a].free
    } else {
        0
    }
}

/// The reserved balance `a` holds in the account map `m`.
pub open spec fn reserved_in(m: Map<u64, AccountBalance>, a: u64) -> u64 {
    if m.contains_key(a) {
        m[a].reserved
    } else {
        0
    }
}

impl Currency {
    /// The free balance of `a`.
    pub open spec fn free_of(&self, a: u64) -> u64 {
        free_in(self@, a)
    }

    /// The reserved balance of `a`.
    pub open spec fn reserved_of(&self, a: u64) -> u64 {
        reserved_in(self@, a)
    }

    /// A currency with no accounts.
    pub fn new() -> (s: Self)
        ensures
            s@ == Map::<u64, AccountBalance>::empty(),
    {
        Currency { accounts: KeyedStore::new() }
    }

    /// Reads the balances of `a`, zero where no record exists.
    pub fn balance(&self, a: u64) -> (r: AccountBalance)
        ensures
            r.free == self.free_of(a),
            r.reserved == self.reserved_of(a),
    {
        match self.accounts.get(a) {
            Some(b) => *b,
            None => AccountBalance { free: 0, reserved: 0 },
        }
    }

    /// Issues `amount` of new funds into `a`'s free balance, saturating at
    /// the maximum.  Stands for the host's issuance mechanism; it is how
    /// accounts are funded before they take part in auctions.
    pub fn deposit(&mut self, a: u64, amount: u64)
        ensures
            final(self)@ == old(self)@.insert(
                a,
                AccountBalance {
                    free: sat_add(old(self).free_of(a), amount),
                    reserved: old(self).reserved_of(a),
                },
            ),
    {
        let b = self.balance(a);
        let free = if amount <= u64::MAX - b.free {
            b.free + amount
        } else {
            u64::MAX
        };
        self.accounts.set(a, AccountBalance { free, reserved: b.reserved });
    }

    /// Moves `amount` from `a`'s free balance into its reserved balance.
    /// Refused, with the state unchanged, exactly when the free balance does
    /// not cover the amount.
    pub fn reserve(&mut self, a: u64, amount: u64) -> (r: Result<(), Error>)
        ensures
            match r {
                Ok(()) => old(self).free_of(a) >= amount && final(self)@ == (if amount == 0 {
                    old(self)@
                } else {
                    old(self)@.insert(
                        a,
                        AccountBalance {
                            free: (old(self).free_of(a) - amount) as u64,
                            reserved: sat_add(old(self).reserved_of(a), amount),
                        },
                    )
                }),
                Err(e) => e == Error::InsufficientFunds && old(self).free_of(a) < amount
                    && *final(self) == *old(self),
            },
    {
        if amount == 0 {
            return Ok(());
        }
        let b = self.balance(a);
        if b.free < amount {
            return Err(Error::InsufficientFunds);
        }
        let reserved = if amount <= u64::MAX - b.reserved {
            b.reserved + amount
        } else {
            u64::MAX
        };
        self.accounts.set(a, AccountBalance { free: b.free - amount, reserved });
        Ok(())
    }

    /// Releases up to `amount` of `a`'s reserved balance back into its free
    /// balance, returning how much actually moved: the reserved balance where
    /// it is smaller than `amount`.
    pub fn unreserve(&mut self, a: u64, amount: u64) -> (actual: u64)
        ensures
            actual == min_u64(amount, old(self).reserved_of(a)),
            final(self)@ == (if actual == 0 {
                old(self)@
            } else {
                old(self)@.insert(
                    a,
                    AccountBalance {
                        free: sat_add(old(self).free_of(a), actual),
                        reserved: (old(self).reserved_of(a) - actual) as u64,
                    },
                )
            }),
    {
        let b = self.balance(a);
        let actual = if amount <= b.reserved {
            amount
        } else {
            b.reserved
        };
        if actual == 0 {
            return 0;
        }
        let free = if actual <= u64::MAX - b.free {
            b.free + actual
        } else {
            u64::MAX
        };
        self.accounts.set(a, AccountBalance { free, reserved: b.reserved - actual });
        actual
    }

    /// Captures up to `amount` of `from`'s reserved balance as a payment into
    /// `to`'s free balance, returning how much actually moved.
    pub fn transfer_reserved(&mut self, from: u64, to: u64, amount: u64) -> (actual: u64)
        requires
            from != to,
        ensures
            actual == min_u64(amount, old(self).reserved_of(from)),
            final(self)@ == (if actual == 0 {
                old(self)@
            } else {
                old(self)@.insert(
                    from,
                    AccountBalance {
                        free: old(self).free_of(from),
                        reserved: (old(self).reserved_of(from) - actual) as u64,
                    },
                ).insert(
                    to,
                    AccountBalance {
                        free: sat_add(old(self).free_of(to), actual),
                        reserved: old(self).reserved_of(to),
                    },
                )
            }),
    {
        let fb = self.balance(from);
        let actual = if amount <= fb.reserved {
            amount
        } else {
            fb.reserved
        };
        if actual == 0 {
            return 0;
        }
        self.accounts.set(from, AccountBalance { free: fb.free, reserved: fb.reserved - actual });
        let tb = self.balance(to);
        let free = if actual <= u64::MAX - tb.free {
            tb.free + actual
        } else {
            u64::MAX
        };
        self.accounts.set(to, AccountBalance { free, reserved: tb.reserved });
        actual
    }
}

} // verus!
