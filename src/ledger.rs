//! The asset ledger the escrow moves funds through: registered assets, and
//! one holding account per (owner, asset) pair with an unsigned balance.
use std::collections::HashMap;
use vstd::prelude::*;

use crate::address::{by_pair, lemma_by_pair_empty, lemma_by_pair_insert, pack, pack_key};
use crate::error::EscrowError;

verus! {

broadcast use vstd::std_specs::hash::group_hash_axioms;

/// Names the holding account of `owner` for the asset `mint`.
#[derive(PartialEq, Eq, Structural, Clone, Copy, Debug)]
pub struct TokenAccountRef {
    pub owner: u64,
    pub mint: u64,
}

impl TokenAccountRef {
    /// The pair that keys this account in a ledger's balances.
    pub open spec fn key(self) -> (u64, u64) {
        (self.owner, self.mint)
    }
}

/// The abstract content of a ledger.
pub struct LedgerView {
    /// The registered assets, each with its number of decimals.
    pub assets: Map<u64, u8>,
    /// The existing holding accounts, keyed by (owner, asset), with their balances.
    pub balances: Map<(u64, u64), u64>,
}

/// The balances after opening the account `k` if it is absent; an existing
/// account is left as it is.
pub open spec fn open_if_absent(b: Map<(u64, u64), u64>, k: (u64, u64)) -> Map<(u64, u64), u64> {
    if b.contains_key(k) {
        b
    } else {
        b.insert(k, 0)
    }
}

/// The balances after taking `amount` out of the account `k`.
pub open spec fn debit_spec(b: Map<(u64, u64), u64>, k: (u64, u64), amount: u64) -> Result<
    Map<(u64, u64), u64>,
    EscrowError,
> {
    if !b.contains_key(k) {
        Err(EscrowError::InvalidAccount)
    } else if b[k] < amount {
        Err(EscrowError::InsufficientFunds)
    } else {
        Ok(b.insert(k, (b[k] - amount) as u64))
    }
}

/// The balances after adding `amount` to the account `k`.
pub open spec fn credit_spec(b: Map<(u64, u64), u64>, k: (u64, u64), amount: u64) -> Result<
    Map<(u64, u64), u64>,
    EscrowError,
> {
    if !b.contains_key(k) {
        Err(EscrowError::InvalidAccount)
    } else if b[k] + amount > u64::MAX {
        Err(EscrowError::Overflow)
    } else {
        Ok(b.insert(k, (b[k] + amount) as u64))
    }
}

/// The balances after a checked transfer of `amount` of `mint`, stated with
/// `decimals` decimals, from `from` to `to`.
pub open spec fn transfer_spec(
    l: LedgerView,
    from: TokenAccountRef,
    to: TokenAccountRef,
    mint: u64,
    decimals: u8,
    amount: u64,
) -> Result<Map<(u64, u64), u64>, EscrowError> {
    if from.mint != mint || to.mint != mint || !l.assets.contains_key(mint) || l.assets[mint]
        != decimals {
        Err(EscrowError::AssetMismatch)
    } else {
        match debit_spec(l.balances, from.key(), amount) {
            Err(e) => Err(e),
            Ok(b) => credit_spec(b, to.key(), amount),
        }
    }
}

/// A ledger of holding accounts.
pub struct Ledger {
    assets: HashMap<u64, u8>,
    accounts: HashMap<u128, u64>,
}

impl View for Ledger {
    type V = LedgerView;

    closed spec fn view(&self) -> LedgerView {
        LedgerView { assets: self.assets@, balances: by_pair(self.accounts@) }
    }
}

impl Ledger {
    /// A ledger with no asset and no account.
    pub fn new() -> (r: Ledger)
        ensures
            r@.assets == Map::<u64, u8>::empty(),
            r@.balances == Map::<(u64, u64), u64>::empty(),
    {
        proof {
            lemma_by_pair_empty::<u64>();
        }
        Ledger { assets: HashMap::new(), accounts: HashMap::new() }
    }

    /// A copy of this ledger.
    pub fn snapshot(&self) -> (r: Ledger)
        ensures
            r@ == self@,
    {
        Ledger { assets: self.assets.clone(), accounts: self.accounts.clone() }
    }

    /// Registers the asset `mint` with `decimals` decimals.
    pub fn add_asset(&mut self, mint: u64, decimals: u8)
        ensures
            final(self)@.assets == old(self)@.assets.insert(mint, decimals),
            final(self)@.balances == old(self)@.balances,
    {
        self.assets.insert(mint, decimals);
    }

    /// The decimals of `mint`, if it is a registered asset.
    pub fn decimals(&self, mint: u64) -> (r: Option<u8>)
        ensures
            r == (if self@.assets.contains_key(mint) {
                Some(self@.assets[mint])
            } else {
                None
            }),
    {
        match self.assets.get(&mint) {
            Some(d) => Some(*d),
            None => None,
        }
    }

    /// The balance of the account of `owner` for `mint`, if that account exists.
    pub fn balance(&self, owner: u64, mint: u64) -> (r: Option<u64>)
        ensures
            r == (if self@.balances.contains_key((owner, mint)) {
                Some(self@.balances[(owner, mint)])
            } else {
                None
            }),
    {
        let k = pack_key(owner, mint);
        match self.accounts.get(&k) {
            Some(v) => Some(*v),
            None => None,
        }
    }

    /// Opens the account of `owner` for `mint` with a zero balance, unless it
    /// already exists; fails when `mint` is not a registered asset.
    pub fn open_account(&mut self, owner: u64, mint: u64) -> (r: Result<(), EscrowError>)
        ensures
            final(self)@.assets == old(self)@.assets,
            r is Err <==> !old(self)@.assets.contains_key(mint),
            r is Err ==> r == Err::<(), EscrowError>(EscrowError::AssetMismatch) && final(self)@
                == old(self)@,
            r is Ok ==> final(self)@.balances == open_if_absent(old(self)@.balances, (owner, mint)),
    {
        if !self.assets.contains_key(&mint) {
            return Err(EscrowError::AssetMismatch);
        }
        let k = pack_key(owner, mint);
        if !self.accounts.contains_key(&k) {
            proof {
                lemma_by_pair_insert(self.accounts@, owner, mint, 0u64);
            }
            self.accounts.insert(k, 0);
        }
        Ok(())
    }

    /// Adds `amount` of `mint` to the existing account of `owner`.
    pub fn credit(&mut self, owner: u64, mint: u64, amount: u64) -> (r: Result<(), EscrowError>)
        ensures
            final(self)@.assets == old(self)@.assets,
            match credit_spec(old(self)@.balances, (owner, mint), amount) {
                Ok(b) => r is Ok && final(self)@.balances == b,
                Err(e) => r == Err::<(), EscrowError>(e) && final(self)@ == old(self)@,
            },
    {
        let k = pack_key(owner, mint);
        let cur: u64 = match self.accounts.get(&k) {
            Some(v) => *v,
            None => {
                return Err(EscrowError::InvalidAccount);
            },
        };
        if cur > u64::MAX - amount {
            return Err(EscrowError::Overflow);
        }
        proof {
            lemma_by_pair_insert(self.accounts@, owner, mint, (cur + amount) as u64);
        }
        self.accounts.insert(k, cur + amount);
        Ok(())
    }

    /// Takes `amount` out of the existing account `from`.
    pub(crate) fn debit(&mut self, from: TokenAccountRef, amount: u64) -> (r: Result<(), EscrowError>)
        ensures
            final(self)@.assets == old(self)@.assets,
            match debit_spec(old(self)@.balances, from.key(), amount) {
                Ok(b) => r is Ok && final(self)@.balances == b,
                Err(e) => r == Err::<(), EscrowError>(e) && final(self)@ == old(self)@,
            },
    {
        let k = pack_key(from.owner, from.mint);
        let cur: u64 = match self.accounts.get(&k) {
            Some(v) => *v,
            None => {
                return Err(EscrowError::InvalidAccount);
            },
        };
        if cur < amount {
            return Err(EscrowError::InsufficientFunds);
        }
        proof {
            lemma_by_pair_insert(self.accounts@, from.owner, from.mint, (cur - amount) as u64);
        }
        self.accounts.insert(k, cur - amount);
        Ok(())
    }

    /// Moves `amount` of `mint` from `from` to `to`. Both accounts must hold
    /// `mint`, which must be registered with `decimals` decimals; the paying
    /// account must hold the amount.
    pub fn transfer_checked(
        &mut self,
        from: TokenAccountRef,
        to: TokenAccountRef,
        mint: u64,
        decimals: u8,
        amount: u64,
    ) -> (r: Result<(), EscrowError>)
        ensures
            final(self)@.assets == old(self)@.assets,
            match transfer_spec(old(self)@, from, to, mint, decimals, amount) {
                Ok(b) => r is Ok && final(self)@.balances == b,
                Err(e) => r == Err::<(), EscrowError>(e) && final(self)@ == old(self)@,
            },
    {
        if from.mint != mint || to.mint != mint {
            return Err(EscrowError::AssetMismatch);
        }
        match self.assets.get(&mint) {
            Some(d) => {
                if *d != decimals {
                    return Err(EscrowError::AssetMismatch);
                }
            },
            None => {
                return Err(EscrowError::AssetMismatch);
            },
        }
        let fk = pack_key(from.owner, from.mint);
        let tk = pack_key(to.owner, to.mint);
        let fb: u64 = match self.accounts.get(&fk) {
            Some(v) => *v,
            None => {
                return Err(EscrowError::InvalidAccount);
            },
        };
        if fb < amount {
            return Err(EscrowError::InsufficientFunds);
        }
        proof {
            crate::address::lemma_pack_injective(from.owner, from.mint, to.owner, to.mint);
        }
        let tb: u64 = match self.accounts.get(&tk) {
            Some(v) => *v,
            None => {
                return Err(EscrowError::InvalidAccount);
            },
        };
        if fk == tk {
            proof {
                let b = old(self)@.balances;
                assert(b.insert(from.key(), (b[from.key()] - amount) as u64).insert(
                    to.key(),
                    b[from.key()] as u64,
                ) =~= b);
            }
            return Ok(());
        }
        if tb > u64::MAX - amount {
            return Err(EscrowError::Overflow);
        }
        proof {
            lemma_by_pair_insert(self.accounts@, from.owner, from.mint, (fb - amount) as u64);
            lemma_by_pair_insert(
                self.accounts@.insert(fk, (fb - amount) as u64),
                to.owner,
                to.mint,
                (tb + amount) as u64,
            );
        }
        self.accounts.insert(fk, fb - amount);
        self.accounts.insert(tk, tb + amount);
        Ok(())
    }
}

} // verus!
