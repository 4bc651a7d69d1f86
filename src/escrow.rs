//! The escrow itself: offer records, the vaults they own, and the two
//! operations that create and consume an offer.
use std::collections::HashMap;
use vstd::prelude::*;

use crate::address::{by_pair, lemma_by_pair_empty, lemma_by_pair_insert, lemma_by_pair_remove, pack_key};
use crate::error::EscrowError;
use crate::ledger::{
    credit_spec, debit_spec, open_if_absent, transfer_spec, Ledger, LedgerView, TokenAccountRef,
};

verus! {

broadcast use vstd::std_specs::hash::group_hash_axioms;

/// The record of one outstanding offer: the maker gave the content of the
/// offer's vault, in `token_mint_a`, and asks `token_b_wanted` of `token_mint_b`.
#[derive(PartialEq, Eq, Structural, Clone, Copy, Debug)]
pub struct Offer {
    pub id: u64,
    pub maker: u64,
    pub token_mint_a: u64,
    pub token_mint_b: u64,
    pub token_b_wanted: u64,
}

/// The address of an offer record, derived from its maker and id.
#[derive(PartialEq, Eq, Structural, Clone, Copy, Debug)]
pub struct OfferAddress {
    pub maker: u64,
    pub id: u64,
}

impl OfferAddress {
    /// The pair that keys the record in an escrow.
    pub open spec fn key(self) -> (u64, u64) {
        (self.maker, self.id)
    }
}

/// The accounts a maker supplies to open an offer.
#[derive(PartialEq, Eq, Structural, Clone, Copy, Debug)]
pub struct MakeOffer {
    pub maker: u64,
    pub token_mint_a: u64,
    pub token_mint_b: u64,
    pub maker_token_account_a: TokenAccountRef,
}

/// The accounts a taker supplies to take an offer.
#[derive(PartialEq, Eq, Structural, Clone, Copy, Debug)]
pub struct TakeOffer {
    pub taker: u64,
    pub maker: u64,
    pub token_mint_a: u64,
    pub token_mint_b: u64,
    pub taker_token_a_account: TokenAccountRef,
    pub taker_token_b_account: TokenAccountRef,
    pub maker_token_b_account: TokenAccountRef,
    pub offer: OfferAddress,
}

/// The abstract content of an escrow.
pub struct EscrowView {
    /// The ledger of holding accounts.
    pub ledger: LedgerView,
    /// The outstanding offer records, keyed by (maker, id).
    pub offers: Map<(u64, u64), Offer>,
    /// The balance of each offer's vault, in the offer's `token_mint_a`.
    pub vaults: Map<(u64, u64), u64>,
}

impl EscrowView {
    /// Every record has a vault, and each record is stored at the address
    /// derived from its own maker and id.
    pub open spec fn wf(self) -> bool {
        &&& self.offers.dom().subset_of(self.vaults.dom())
        &&& forall|k: (u64, u64)| #[trigger]
            self.offers.contains_key(k) ==> self.offers[k].maker == k.0 && self.offers[k].id == k.1
    }

    /// The same escrow with other balances.
    pub open spec fn with_balances(self, b: Map<(u64, u64), u64>) -> EscrowView {
        EscrowView { ledger: LedgerView { assets: self.ledger.assets, balances: b }, ..self }
    }
}

/// The escrow after the maker's deposit of `amount` into the new vault of the
/// offer `(c.maker, id)`. A deposit of nothing is refused.
pub open spec fn deposit_spec(s: EscrowView, c: MakeOffer, id: u64, amount: u64) -> Result<
    EscrowView,
    EscrowError,
> {
    let k = (c.maker, id);
    if amount == 0 {
        Err(EscrowError::ZeroDeposit)
    } else if c.maker_token_account_a.key() != (c.maker, c.token_mint_a) {
        Err(EscrowError::InvalidAccount)
    } else if s.vaults.contains_key(k) {
        Err(EscrowError::AddressCollision)
    } else if !s.ledger.assets.contains_key(c.token_mint_a) {
        Err(EscrowError::AssetMismatch)
    } else {
        match debit_spec(s.ledger.balances, (c.maker, c.token_mint_a), amount) {
            Err(e) => Err(e),
            Ok(b) => Ok(EscrowView { vaults: s.vaults.insert(k, amount), ..s.with_balances(b) }),
        }
    }
}

/// The record that `make_offer` writes.
pub open spec fn record_of(c: MakeOffer, id: u64, wanted: u64) -> Offer {
    Offer {
        id,
        maker: c.maker,
        token_mint_a: c.token_mint_a,
        token_mint_b: c.token_mint_b,
        token_b_wanted: wanted,
    }
}

/// The escrow after writing the record of the offer `(c.maker, id)`, which
/// needs a vault at that address that holds something.
pub open spec fn save_spec(s: EscrowView, c: MakeOffer, id: u64, wanted: u64) -> Result<
    EscrowView,
    EscrowError,
> {
    if s.offers.contains_key((c.maker, id)) {
        Err(EscrowError::AddressCollision)
    } else if !s.vaults.contains_key((c.maker, id)) || s.vaults[(c.maker, id)] == 0 {
        Err(EscrowError::InvalidAccount)
    } else if !s.ledger.assets.contains_key(c.token_mint_b) {
        Err(EscrowError::AssetMismatch)
    } else {
        Ok(EscrowView { offers: s.offers.insert((c.maker, id), record_of(c, id, wanted)), ..s })
    }
}

/// The escrow after a whole `make_offer`: the deposit, then the record.
pub open spec fn make_offer_spec(
    s: EscrowView,
    c: MakeOffer,
    id: u64,
    amount_in: u64,
    wanted: u64,
) -> Result<EscrowView, EscrowError> {
    match deposit_spec(s, c, id, amount_in) {
        Err(e) => Err(e),
        Ok(s1) => save_spec(s1, c, id, wanted),
    }
}

/// The supplied accounts are those the record `o` and the taker call for.
pub open spec fn accounts_match(o: Offer, c: TakeOffer) -> bool {
    &&& o.maker == c.maker
    &&& o.token_mint_a == c.token_mint_a
    &&& o.token_mint_b == c.token_mint_b
    &&& c.offer == OfferAddress { maker: c.maker, id: o.id }
    &&& c.taker_token_a_account == TokenAccountRef { owner: c.taker, mint: c.token_mint_a }
    &&& c.taker_token_b_account == TokenAccountRef { owner: c.taker, mint: c.token_mint_b }
    &&& c.maker_token_b_account == TokenAccountRef { owner: c.maker, mint: c.token_mint_b }
}

/// The escrow after the taker pays the maker what the record asks.
pub open spec fn pay_maker_spec(s: EscrowView, c: TakeOffer) -> Result<EscrowView, EscrowError> {
    let k = c.offer.key();
    if !s.offers.contains_key(k) {
        Err(EscrowError::NotFound)
    } else {
        match transfer_spec(
            s.ledger,
            c.taker_token_b_account,
            c.maker_token_b_account,
            c.token_mint_b,
            s.ledger.assets[c.token_mint_b],
            s.offers[k].token_b_wanted,
        ) {
            Err(e) => Err(e),
            Ok(b) => Ok(s.with_balances(b)),
        }
    }
}

/// The escrow after the whole vault goes to the taker and the vault and the
/// record are closed.
pub open spec fn release_spec(s: EscrowView, c: TakeOffer) -> Result<EscrowView, EscrowError> {
    let k = c.offer.key();
    if !s.offers.contains_key(k) || !s.vaults.contains_key(k) {
        Err(EscrowError::NotFound)
    } else if c.taker_token_a_account.mint != s.offers[k].token_mint_a {
        Err(EscrowError::AssetMismatch)
    } else {
        match credit_spec(s.ledger.balances, c.taker_token_a_account.key(), s.vaults[k]) {
            Err(e) => Err(e),
            Ok(b) => Ok(
                EscrowView {
                    offers: s.offers.remove(k),
                    vaults: s.vaults.remove(k),
                    ..s.with_balances(b)
                },
            ),
        }
    }
}

/// The escrow after a whole `take_offer`: checks, opening the destination
/// accounts where absent, the payment to the maker, then the release.
pub open spec fn take_offer_spec(s: EscrowView, c: TakeOffer) -> Result<EscrowView, EscrowError> {
    let k = c.offer.key();
    if !s.offers.contains_key(k) || !s.vaults.contains_key(k) {
        Err(EscrowError::NotFound)
    } else if !accounts_match(s.offers[k], c) {
        Err(EscrowError::AccountMismatch)
    } else if !s.ledger.assets.contains_key(c.token_mint_a) || !s.ledger.assets.contains_key(
        c.token_mint_b,
    ) {
        Err(EscrowError::AssetMismatch)
    } else {
        let opened = open_if_absent(
            open_if_absent(s.ledger.balances, (c.taker, c.token_mint_a)),
            (c.maker, c.token_mint_b),
        );
        match pay_maker_spec(s.with_balances(opened), c) {
            Err(e) => Err(e),
            Ok(s2) => release_spec(s2, c),
        }
    }
}

/// An escrow over a ledger.
pub struct Escrow {
    ledger: Ledger,
    offers: HashMap<u128, Offer>,
    vaults: HashMap<u128, u64>,
}

impl View for Escrow {
    type V = EscrowView;

    closed spec fn view(&self) -> EscrowView {
        EscrowView { ledger: self.ledger@, offers: by_pair(self.offers@), vaults: by_pair(self.vaults@) }
    }
}

impl Escrow {
    /// An escrow with no offer over `ledger`.
    pub fn new(ledger: Ledger) -> (r: Escrow)
        ensures
            r@.ledger == ledger@,
            r@.offers == Map::<(u64, u64), Offer>::empty(),
            r@.vaults == Map::<(u64, u64), u64>::empty(),
            r@.wf(),
    {
        proof {
            lemma_by_pair_empty::<Offer>();
            lemma_by_pair_empty::<u64>();
        }
        let r = Escrow { ledger, offers: HashMap::new(), vaults: HashMap::new() };
        assert(r@.offers.dom() =~= r@.vaults.dom());
        r
    }

    /// The ledger the escrow works on.
    pub fn ledger(&self) -> (r: &Ledger)
        ensures
            r@ == self@.ledger,
    {
        &self.ledger
    }

    /// The record of the offer `(maker, id)`, if it is outstanding.
    pub fn offer(&self, maker: u64, id: u64) -> (r: Option<Offer>)
        ensures
            r == (if self@.offers.contains_key((maker, id)) {
                Some(self@.offers[(maker, id)])
            } else {
                None
            }),
    {
        match self.offers.get(&pack_key(maker, id)) {
            Some(o) => Some(*o),
            None => None,
        }
    }

    /// The balance of the vault of the offer `(maker, id)`, if it exists.
    pub fn vault_balance(&self, maker: u64, id: u64) -> (r: Option<u64>)
        ensures
            r == (if self@.vaults.contains_key((maker, id)) {
                Some(self@.vaults[(maker, id)])
            } else {
                None
            }),
    {
        match self.vaults.get(&pack_key(maker, id)) {
            Some(v) => Some(*v),
            None => None,
        }
    }

    /// A copy of this escrow, kept to undo a unit of work that fails half way.
    fn snapshot(&self) -> (r: Escrow)
        ensures
            r@ == self@,
    {
        Escrow {
            ledger: self.ledger.snapshot(),
            offers: self.offers.clone(),
            vaults: self.vaults.clone(),
        }
    }
}

/// Moves `token_a_amount_in` of the maker's asset A into a new vault owned by
/// the offer `(ctx.maker, id)`.
pub fn send_offered_tokens_to_vault(
    escrow: &mut Escrow,
    ctx: &MakeOffer,
    id: u64,
    token_a_amount_in: u64,
) -> (r: Result<(), EscrowError>)
    ensures
        match deposit_spec(old(escrow)@, *ctx, id, token_a_amount_in) {
            Ok(v) => r is Ok && final(escrow)@ == v,
            Err(e) => r == Err::<(), EscrowError>(e) && final(escrow)@ == old(escrow)@,
        },
{
    if token_a_amount_in == 0 {
        return Err(EscrowError::ZeroDeposit);
    }
    if ctx.maker_token_account_a != (TokenAccountRef { owner: ctx.maker, mint: ctx.token_mint_a }) {
        return Err(EscrowError::InvalidAccount);
    }
    let k = pack_key(ctx.maker, id);
    if escrow.vaults.contains_key(&k) {
        return Err(EscrowError::AddressCollision);
    }
    if escrow.ledger.decimals(ctx.token_mint_a).is_none() {
        return Err(EscrowError::AssetMismatch);
    }
    match escrow.ledger.debit(ctx.maker_token_account_a, token_a_amount_in) {
        Err(e) => {
            return Err(e);
        },
        Ok(()) => {},
    }
    proof {
        lemma_by_pair_insert(escrow.vaults@, ctx.maker, id, token_a_amount_in);
    }
    escrow.vaults.insert(k, token_a_amount_in);
    Ok(())
}

/// Writes the record of the offer `(ctx.maker, id)`, asking
/// `token_b_wanted_amount` of asset B.
pub fn save_offer(escrow: &mut Escrow, ctx: &MakeOffer, id: u64, token_b_wanted_amount: u64) -> (r:
    Result<(), EscrowError>)
    ensures
        match save_spec(old(escrow)@, *ctx, id, token_b_wanted_amount) {
            Ok(v) => r is Ok && final(escrow)@ == v,
            Err(e) => r == Err::<(), EscrowError>(e) && final(escrow)@ == old(escrow)@,
        },
{
    let k = pack_key(ctx.maker, id);
    if escrow.offers.contains_key(&k) {
        return Err(EscrowError::AddressCollision);
    }
    match escrow.vaults.get(&k) {
        Some(v) => {
            if *v == 0 {
                return Err(EscrowError::InvalidAccount);
            }
        },
        None => {
            return Err(EscrowError::InvalidAccount);
        },
    }
    if escrow.ledger.decimals(ctx.token_mint_b).is_none() {
        return Err(EscrowError::AssetMismatch);
    }
    let record = Offer {
        id,
        maker: ctx.maker,
        token_mint_a: ctx.token_mint_a,
        token_mint_b: ctx.token_mint_b,
        token_b_wanted: token_b_wanted_amount,
    };
    proof {
        lemma_by_pair_insert(escrow.offers@, ctx.maker, id, record);
    }
    escrow.offers.insert(k, record);
    Ok(())
}

/// Opens the offer `(ctx.maker, id)`: the maker's `token_a_amount_in` of asset
/// A goes into the offer's vault, then the record asking
/// `token_b_amount_wanted` of asset B is written. All or nothing.
pub fn make_offer(
    escrow: &mut Escrow,
    ctx: &MakeOffer,
    id: u64,
    token_a_amount_in: u64,
    token_b_amount_wanted: u64,
) -> (r: Result<(), EscrowError>)
    ensures
        match make_offer_spec(old(escrow)@, *ctx, id, token_a_amount_in, token_b_amount_wanted) {
            Ok(v) => r is Ok && final(escrow)@ == v,
            Err(e) => r == Err::<(), EscrowError>(e) && final(escrow)@ == old(escrow)@,
        },
        r is Ok ==> token_a_amount_in > 0,
        token_a_amount_in == 0 ==> r == Err::<(), EscrowError>(EscrowError::ZeroDeposit),
{
    let saved = escrow.snapshot();
    match send_offered_tokens_to_vault(escrow, ctx, id, token_a_amount_in) {
        Err(e) => {
            return Err(e);
        },
        Ok(()) => {},
    }
    match save_offer(escrow, ctx, id, token_b_amount_wanted) {
        Err(e) => {
            *escrow = saved;
            Err(e)
        },
        Ok(()) => Ok(()),
    }
}

/// Pays the maker the amount of asset B that the offer asks, from the taker's
/// account.
pub fn send_tokens_to_maker(escrow: &mut Escrow, ctx: &TakeOffer) -> (r: Result<(), EscrowError>)
    ensures
        match pay_maker_spec(old(escrow)@, *ctx) {
            Ok(v) => r is Ok && final(escrow)@ == v,
            Err(e) => r == Err::<(), EscrowError>(e) && final(escrow)@ == old(escrow)@,
        },
{
    let k = pack_key(ctx.offer.maker, ctx.offer.id);
    let wanted: u64 = match escrow.offers.get(&k) {
        Some(o) => o.token_b_wanted,
        None => {
            return Err(EscrowError::NotFound);
        },
    };
    let decimals: u8 = match escrow.ledger.decimals(ctx.token_mint_b) {
        Some(d) => d,
        None => {
            return Err(EscrowError::AssetMismatch);
        },
    };
    escrow.ledger.transfer_checked(
        ctx.taker_token_b_account,
        ctx.maker_token_b_account,
        ctx.token_mint_b,
        decimals,
        wanted,
    )
}

/// Moves the whole vault of the offer to the taker's asset A account, then
/// closes the vault and the record.
pub fn pull_tokens_from_vault(escrow: &mut Escrow, ctx: &TakeOffer) -> (r: Result<(), EscrowError>)
    ensures
        match release_spec(old(escrow)@, *ctx) {
            Ok(v) => r is Ok && final(escrow)@ == v,
            Err(e) => r == Err::<(), EscrowError>(e) && final(escrow)@ == old(escrow)@,
        },
{
    let k = pack_key(ctx.offer.maker, ctx.offer.id);
    let mint_a: u64 = match escrow.offers.get(&k) {
        Some(o) => o.token_mint_a,
        None => {
            return Err(EscrowError::NotFound);
        },
    };
    let held: u64 = match escrow.vaults.get(&k) {
        Some(v) => *v,
        None => {
            return Err(EscrowError::NotFound);
        },
    };
    if ctx.taker_token_a_account.mint != mint_a {
        return Err(EscrowError::AssetMismatch);
    }
    match escrow.ledger.credit(ctx.taker_token_a_account.owner, ctx.taker_token_a_account.mint, held) {
        Err(e) => {
            return Err(e);
        },
        Ok(()) => {},
    }
    proof {
        lemma_by_pair_remove(escrow.vaults@, ctx.offer.maker, ctx.offer.id);
        lemma_by_pair_remove(escrow.offers@, ctx.offer.maker, ctx.offer.id);
    }
    escrow.vaults.remove(&k);
    escrow.offers.remove(&k);
    Ok(())
}

/// Takes the offer at `ctx.offer`: checks the supplied accounts against the
/// record, opens the taker's asset A and the maker's asset B accounts where
/// absent, pays the maker, then hands the whole vault to the taker and closes
/// the vault and the record. All or nothing.
pub fn take_offer(escrow: &mut Escrow, ctx: &TakeOffer) -> (r: Result<(), EscrowError>)
    ensures
        match take_offer_spec(old(escrow)@, *ctx) {
            Ok(v) => r is Ok && final(escrow)@ == v,
            Err(e) => r == Err::<(), EscrowError>(e) && final(escrow)@ == old(escrow)@,
        },
{
    let k = pack_key(ctx.offer.maker, ctx.offer.id);
    let o: Offer = match escrow.offers.get(&k) {
        Some(o) => *o,
        None => {
            return Err(EscrowError::NotFound);
        },
    };
    if !escrow.vaults.contains_key(&k) {
        return Err(EscrowError::NotFound);
    }
    if !(o.maker == ctx.maker && o.token_mint_a == ctx.token_mint_a && o.token_mint_b
        == ctx.token_mint_b && ctx.offer == (OfferAddress { maker: ctx.maker, id: o.id })
        && ctx.taker_token_a_account == (TokenAccountRef {
        owner: ctx.taker,
        mint: ctx.token_mint_a,
    }) && ctx.taker_token_b_account == (TokenAccountRef {
        owner: ctx.taker,
        mint: ctx.token_mint_b,
    }) && ctx.maker_token_b_account == (TokenAccountRef {
        owner: ctx.maker,
        mint: ctx.token_mint_b,
    })) {
        return Err(EscrowError::AccountMismatch);
    }
    if escrow.ledger.decimals(ctx.token_mint_a).is_none() || escrow.ledger.decimals(
        ctx.token_mint_b,
    ).is_none() {
        return Err(EscrowError::AssetMismatch);
    }
    let saved = escrow.snapshot();
    match escrow.ledger.open_account(ctx.taker, ctx.token_mint_a) {
        Err(e) => {
            *escrow = saved;
            return Err(e);
        },
        Ok(()) => {},
    }
    match escrow.ledger.open_account(ctx.maker, ctx.token_mint_b) {
        Err(e) => {
            *escrow = saved;
            return Err(e);
        },
        Ok(()) => {},
    }
    match send_tokens_to_maker(escrow, ctx) {
        Err(e) => {
            *escrow = saved;
            return Err(e);
        },
        Ok(()) => {},
    }
    match pull_tokens_from_vault(escrow, ctx) {
        Err(e) => {
            *escrow = saved;
            Err(e)
        },
        Ok(()) => Ok(()),
    }
}

} // verus!
