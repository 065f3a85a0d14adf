//! The LINGO token: balances, allowances, minting and burning.
use vstd::prelude::*;
use std::collections::HashMap;
use crate::host::Identity;

verus! {

broadcast use vstd::std_specs::hash::group_hash_axioms;

/// Places after the decimal point in amounts shown to people.
pub const TOKEN_DECIMALS: u32 = 7;

/// Something that happened on the ledger, as the host announces it.
pub enum LingoTokenEvent {
    Transfer { from: Identity, to: Identity, amount: u64 },
    Mint { to: Identity, amount: u64 },
    Burn { from: Identity, amount: u64 },
    Approval { owner: Identity, spender: Identity, amount: u64 },
}

#[derive(Clone, Copy, Debug, PartialEq, Eq, Structural)]
pub enum Error {
    InsufficientBalance,
    InsufficientAllowance,
    Unauthorized,
    InvalidAmount,
}

pub open spec fn error_code(e: Error) -> u32 {
    match e {
        Error::InsufficientBalance => 1,
        Error::InsufficientAllowance => 2,
        Error::Unauthorized => 3,
        Error::InvalidAmount => 4,
    }
}

impl Error {
    /// The number under which the host reports this error.
    pub fn code(&self) -> (r: u32)
        ensures
            r == error_code(*self),
    {
        match self {
            Error::InsufficientBalance => 1,
            Error::InsufficientAllowance => 2,
            Error::Unauthorized => 3,
            Error::InvalidAmount => 4,
        }
    }
}

/// The amount stored under `k`; an account never written holds nothing.
pub open spec fn amount_at(m: Map<u64, u64>, k: u64) -> u64 {
    if m.contains_key(k) {
        m[k]
    } else {
        0
    }
}

/// `m` with `x` taken from the amount under `k`.
pub open spec fn debited(m: Map<u64, u64>, k: u64, x: u64) -> Map<u64, u64> {
    m.insert(k, (amount_at(m, k) - x) as u64)
}

/// `m` with `x` added to the amount under `k`.
pub open spec fn credited(m: Map<u64, u64>, k: u64, x: u64) -> Map<u64, u64> {
    m.insert(k, (amount_at(m, k) + x) as u64)
}

/// The ledger as a value. Allowances are keyed by owner, then by spender.
pub struct TokenView {
    pub admin: Option<Identity>,
    pub total_supply: u64,
    pub balances: Map<u64, u64>,
    pub allowances: Map<u64, Map<u64, u64>>,
}

impl TokenView {
    pub open spec fn balance_of(self, account: Identity) -> u64 {
        amount_at(self.balances, account.id)
    }

    pub open spec fn allowances_of(self, owner: Identity) -> Map<u64, u64> {
        if self.allowances.contains_key(owner.id) {
            self.allowances[owner.id]
        } else {
            Map::empty()
        }
    }

    pub open spec fn allowance_of(self, owner: Identity, spender: Identity) -> u64 {
        amount_at(self.allowances_of(owner), spender.id)
    }

    /// `self` with the allowance of `spender` over `owner`'s tokens set to `amount`.
    pub open spec fn with_allowance(self, owner: Identity, spender: Identity, amount: u64) -> TokenView {
        TokenView {
            allowances: self.allowances.insert(
                owner.id,
                self.allowances_of(owner).insert(spender.id, amount),
            ),
            ..self
        }
    }

    /// `self` with `amount` moved from `from` to `to`.
    pub open spec fn moved(self, from: Identity, to: Identity, amount: u64) -> TokenView {
        TokenView { balances: credited(debited(self.balances, from.id, amount), to.id, amount), ..self }
    }

    pub open spec fn is_admin(self, who: Identity) -> bool {
        self.admin == Some(who)
    }
}

pub struct LingoTokenContract {
    admin: Option<Identity>,
    total_supply: u64,
    balances: HashMap<u64, u64>,
    allowances: HashMap<u64, HashMap<u64, u64>>,
}

impl View for LingoTokenContract {
    type V = TokenView;

    closed spec fn view(&self) -> TokenView {
        TokenView {
            admin: self.admin,
            total_supply: self.total_supply,
            balances: self.balances@,
            allowances: self.allowances@.map_values(|m: HashMap<u64, u64>| m@),
        }
    }
}

impl LingoTokenContract {
    /// A ledger with no admin, no supply and no accounts.
    pub fn new() -> (r: Self)
        ensures
            r@.admin is None,
            r@.total_supply == 0,
            r@.balances == Map::<u64, u64>::empty(),
            r@.allowances == Map::<u64, Map<u64, u64>>::empty(),
    {
        let r = LingoTokenContract {
            admin: None,
            total_supply: 0,
            balances: HashMap::new(),
            allowances: HashMap::new(),
        };
        assert(r@.allowances =~= Map::<u64, Map<u64, u64>>::empty());
        r
    }

    /// Makes `admin` the admin, sets the supply to `initial_supply` and
    /// credits all of it to the admin.
    pub fn initialize(&mut self, admin: Identity, initial_supply: u64) -> (r: Result<(), Error>)
        ensures
            r is Ok,
            final(self)@ == (TokenView {
                admin: Some(admin),
                total_supply: initial_supply,
                balances: old(self)@.balances.insert(admin.id, initial_supply),
                ..old(self)@
            }),
    {
        self.admin = Some(admin);
        self.total_supply = initial_supply;
        self.balances.insert(admin.id, initial_supply);
        Ok(())
    }

    pub fn name(&self) -> (r: String)
        ensures
            r@ == "LINGO"@,
    {
        "LINGO".to_owned()
    }

    pub fn symbol(&self) -> (r: String)
        ensures
            r@ == "LINGO"@,
    {
        "LINGO".to_owned()
    }

    pub fn decimals(&self) -> (r: u32)
        ensures
            r == TOKEN_DECIMALS,
    {
        TOKEN_DECIMALS
    }

    pub fn total_supply(&self) -> (r: u64)
        ensures
            r == self@.total_supply,
    {
        self.total_supply
    }

    pub fn balance(&self, account: Identity) -> (r: u64)
        ensures
            r == self@.balance_of(account),
    {
        match self.balances.get(&account.id) {
            Some(b) => *b,
            None => 0,
        }
    }

    /// Moves `amount` from `from` to `to`.
    pub fn transfer(&mut self, from: Identity, to: Identity, amount: u64) -> (r: Result<(), Error>)
        requires
            from != to ==> old(self)@.balance_of(to) + amount <= u64::MAX,
        ensures
            amount == 0 ==> r == Err::<(), Error>(Error::InvalidAmount),
            amount > 0 && old(self)@.balance_of(from) < amount ==> r == Err::<(), Error>(
                Error::InsufficientBalance,
            ),
            amount > 0 && old(self)@.balance_of(from) >= amount ==> r is Ok,
            r is Ok ==> final(self)@ == old(self)@.moved(from, to, amount),
            r is Err ==> final(self)@ == old(self)@,
    {
        if amount == 0 {
            return Err(Error::InvalidAmount);
        }
        let from_balance = self.balance(from);
        if from_balance < amount {
            return Err(Error::InsufficientBalance);
        }
        self.move_tokens(from, to, amount);
        Ok(())
    }

    /// Debits `from` and then credits `to`.
    fn move_tokens(&mut self, from: Identity, to: Identity, amount: u64)
        requires
            old(self)@.balance_of(from) >= amount,
            from != to ==> old(self)@.balance_of(to) + amount <= u64::MAX,
        ensures
            final(self)@ == old(self)@.moved(from, to, amount),
    {
        let from_balance = self.balance(from);
        self.balances.insert(from.id, from_balance - amount);
        let to_balance = self.balance(to);
        self.balances.insert(to.id, to_balance + amount);
    }

    /// Lets `spender` move up to `amount` of `owner`'s tokens.
    pub fn approve(&mut self, owner: Identity, spender: Identity, amount: u64) -> (r: Result<(), Error>)
        ensures
            r is Ok,
            final(self)@ == old(self)@.with_allowance(owner, spender, amount),
    {
        self.set_allowance(owner, spender, amount);
        Ok(())
    }

    fn set_allowance(&mut self, owner: Identity, spender: Identity, amount: u64)
        ensures
            final(self)@ == old(self)@.with_allowance(owner, spender, amount),
    {
        let mut granted: HashMap<u64, u64> = match self.allowances.get(&owner.id) {
            Some(m) => m.clone(),
            None => HashMap::new(),
        };
        granted.insert(spender.id, amount);
        let ghost before = self@;
        self.allowances.insert(owner.id, granted);
        assert(self@.allowances =~= before.with_allowance(owner, spender, amount).allowances);
    }

    pub fn allowance(&self, owner: Identity, spender: Identity) -> (r: u64)
        ensures
            r == self@.allowance_of(owner, spender),
    {
        match self.allowances.get(&owner.id) {
            Some(m) => match m.get(&spender.id) {
                Some(a) => *a,
                None => 0,
            },
            None => 0,
        }
    }

    /// `spender` moves `amount` of `from`'s tokens to `to`, using up as much
    /// of its allowance.
    pub fn transfer_from(&mut self, spender: Identity, from: Identity, to: Identity, amount: u64) -> (r:
        Result<(), Error>)
        requires
            from != to ==> old(self)@.balance_of(to) + amount <= u64::MAX,
        ensures
            amount == 0 ==> r == Err::<(), Error>(Error::InvalidAmount),
            amount > 0 && old(self)@.allowance_of(from, spender) < amount ==> r == Err::<(), Error>(
                Error::InsufficientAllowance,
            ),
            amount > 0 && old(self)@.allowance_of(from, spender) >= amount && old(self)@.balance_of(
                from,
            ) < amount ==> r == Err::<(), Error>(Error::InsufficientBalance),
            amount > 0 && old(self)@.allowance_of(from, spender) >= amount && old(self)@.balance_of(
                from,
            ) >= amount ==> r is Ok,
            r is Ok ==> final(self)@ == old(self)@.with_allowance(
                from,
                spender,
                (old(self)@.allowance_of(from, spender) - amount) as u64,
            ).moved(from, to, amount),
            r is Err ==> final(self)@ == old(self)@,
    {
        if amount == 0 {
            return Err(Error::InvalidAmount);
        }
        let current_allowance = self.allowance(from, spender);
        if current_allowance < amount {
            return Err(Error::InsufficientAllowance);
        }
        let from_balance = self.balance(from);
        if from_balance < amount {
            return Err(Error::InsufficientBalance);
        }
        self.set_allowance(from, spender, current_allowance - amount);
        self.move_tokens(from, to, amount);
        Ok(())
    }

    /// Creates `amount` new tokens for `to`; only the admin may.
    pub fn mint(&mut self, admin: Identity, to: Identity, amount: u64) -> (r: Result<(), Error>)
        requires
            old(self)@.total_supply + amount <= u64::MAX,
            old(self)@.balance_of(to) + amount <= u64::MAX,
        ensures
            !old(self)@.is_admin(admin) ==> r == Err::<(), Error>(Error::Unauthorized),
            old(self)@.is_admin(admin) && amount == 0 ==> r == Err::<(), Error>(
                Error::InvalidAmount,
            ),
            old(self)@.is_admin(admin) && amount > 0 ==> r is Ok,
            r is Ok ==> final(self)@ == (TokenView {
                total_supply: (old(self)@.total_supply + amount) as u64,
                balances: credited(old(self)@.balances, to.id, amount),
                ..old(self)@
            }),
            r is Err ==> final(self)@ == old(self)@,
    {
        match self.admin {
            Some(a) => {
                if a != admin {
                    return Err(Error::Unauthorized);
                }
            },
            None => return Err(Error::Unauthorized),
        }
        if amount == 0 {
            return Err(Error::InvalidAmount);
        }
        self.total_supply = self.total_supply + amount;
        let to_balance = self.balance(to);
        self.balances.insert(to.id, to_balance + amount);
        Ok(())
    }

    /// Destroys `amount` of `from`'s tokens.
    pub fn burn(&mut self, from: Identity, amount: u64) -> (r: Result<(), Error>)
        requires
            old(self)@.balance_of(from) >= amount ==> old(self)@.total_supply >= amount,
        ensures
            amount == 0 ==> r == Err::<(), Error>(Error::InvalidAmount),
            amount > 0 && old(self)@.balance_of(from) < amount ==> r == Err::<(), Error>(
                Error::InsufficientBalance,
            ),
            amount > 0 && old(self)@.balance_of(from) >= amount ==> r is Ok,
            r is Ok ==> final(self)@ == (TokenView {
                total_supply: (old(self)@.total_supply - amount) as u64,
                balances: debited(old(self)@.balances, from.id, amount),
                ..old(self)@
            }),
            r is Err ==> final(self)@ == old(self)@,
    {
        if amount == 0 {
            return Err(Error::InvalidAmount);
        }
        let from_balance = self.balance(from);
        if from_balance < amount {
            return Err(Error::InsufficientBalance);
        }
        self.total_supply = self.total_supply - amount;
        self.balances.insert(from.id, from_balance - amount);
        Ok(())
    }

    pub fn get_admin(&self) -> (r: Option<Identity>)
        ensures
            r == self@.admin,
    {
        self.admin
    }

    /// Hands the admin role to `new_admin`; only the admin may.
    pub fn transfer_admin(&mut self, current_admin: Identity, new_admin: Identity) -> (r: Result<(), Error>)
        ensures
            !old(self)@.is_admin(current_admin) ==> r == Err::<(), Error>(Error::Unauthorized)
                && final(self)@ == old(self)@,
            old(self)@.is_admin(current_admin) ==> r is Ok && final(self)@ == (TokenView {
                admin: Some(new_admin),
                ..old(self)@
            }),
    {
        match self.admin {
            Some(a) => {
                if a != current_admin {
                    return Err(Error::Unauthorized);
                }
            },
            None => return Err(Error::Unauthorized),
        }
        self.admin = Some(new_admin);
        Ok(())
    }
}

} // verus!
