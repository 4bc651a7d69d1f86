//! Properties of the escrow that hold of every state and every call.
use vstd::prelude::*;

use crate::escrow::{
    accounts_match, deposit_spec, make_offer_spec, pay_maker_spec, release_spec, save_spec,
    take_offer_spec, EscrowView, MakeOffer, TakeOffer,
};
use crate::error::EscrowError;

verus! {

/// The balance of the account `k`, counting an absent account as empty.
pub open spec fn balance_or_zero(b: Map<(u64, u64), u64>, k: (u64, u64)) -> int {
    if b.contains_key(k) {
        b[k] as int
    } else {
        0
    }
}

/// Every outstanding record has a vault that holds some of its asset.
pub open spec fn funded(s: EscrowView) -> bool {
    &&& s.wf()
    &&& forall|k: (u64, u64)| #[trigger] s.offers.contains_key(k) ==> s.vaults[k] > 0
}

/// A successful take, between a taker and a maker who differ and over two
/// different assets, gives the taker exactly the vault's balance of asset A,
/// gives the maker exactly the amount of asset B the record asks, takes that
/// same amount from the taker, and leaves every other account as it was.
pub proof fn lemma_take_conserves(s: EscrowView, c: TakeOffer, s2: EscrowView)
    requires
        take_offer_spec(s, c) == Ok::<EscrowView, EscrowError>(s2),
        c.taker != c.maker,
        c.token_mint_a != c.token_mint_b,
    ensures
        ({
            let k = c.offer.key();
            let b = s.ledger.balances;
            let b2 = s2.ledger.balances;
            &&& b2.contains_key((c.taker, c.token_mint_a))
            &&& b2[(c.taker, c.token_mint_a)] == balance_or_zero(b, (c.taker, c.token_mint_a))
                + s.vaults[k]
            &&& b2.contains_key((c.maker, c.token_mint_b))
            &&& b2[(c.maker, c.token_mint_b)] == balance_or_zero(b, (c.maker, c.token_mint_b))
                + s.offers[k].token_b_wanted
            &&& b.contains_key((c.taker, c.token_mint_b))
            &&& b2[(c.taker, c.token_mint_b)] == b[(c.taker, c.token_mint_b)]
                - s.offers[k].token_b_wanted
            &&& forall|a: (u64, u64)|
                a != (c.taker, c.token_mint_a) && a != (c.maker, c.token_mint_b) && a != (
                    c.taker,
                    c.token_mint_b,
                ) ==> (#[trigger] b2.contains_key(a) == b.contains_key(a) && (b.contains_key(a)
                    ==> b2[a] == b[a]))
        }),
{
}

/// Once a take of an offer succeeded, every later take at the same address
/// fails with `NotFound`.
pub proof fn lemma_take_at_most_once(s: EscrowView, c: TakeOffer, s2: EscrowView, c2: TakeOffer)
    requires
        take_offer_spec(s, c) == Ok::<EscrowView, EscrowError>(s2),
        c2.offer == c.offer,
    ensures
        take_offer_spec(s2, c2) == Err::<EscrowView, EscrowError>(EscrowError::NotFound),
{
}

/// An escrow with no offer is funded.
pub proof fn lemma_empty_funded(s: EscrowView)
    requires
        s.offers == Map::<(u64, u64), crate::escrow::Offer>::empty(),
        s.vaults == Map::<(u64, u64), u64>::empty(),
    ensures
        funded(s),
{
}

/// A successful make keeps every record funded: the new record's vault holds
/// exactly the deposit, which is positive, of the record's asset A. A failed
/// make changes nothing (see `make_offer`).
pub proof fn lemma_make_offer_funds(
    s: EscrowView,
    c: MakeOffer,
    id: u64,
    amount_in: u64,
    wanted: u64,
)
    requires
        funded(s),
    ensures
        make_offer_spec(s, c, id, amount_in, wanted) matches Ok(s2) ==> {
            &&& funded(s2)
            &&& s2.offers.contains_key((c.maker, id))
            &&& amount_in > 0
            &&& s2.vaults[(c.maker, id)] == amount_in
            &&& s2.offers[(c.maker, id)].token_mint_a == c.token_mint_a
        },
{
}

/// Each step of a make, taken alone, keeps every record funded: a deposit
/// only adds a vault, and a record is only written over a vault that holds
/// something.
pub proof fn lemma_offer_steps_fund(s: EscrowView, c: MakeOffer, id: u64, amount: u64, wanted: u64)
    requires
        funded(s),
    ensures
        deposit_spec(s, c, id, amount) matches Ok(s2) ==> funded(s2),
        save_spec(s, c, id, wanted) matches Ok(s2) ==> funded(s2),
{
}

/// A successful take keeps every remaining record funded.
pub proof fn lemma_take_offer_funds(s: EscrowView, c: TakeOffer)
    requires
        funded(s),
    ensures
        take_offer_spec(s, c) matches Ok(s2) ==> funded(s2),
{
}

/// Each step of a take, taken alone, keeps every record funded: the payment
/// touches no vault, and a release closes the vault and its record together.
pub proof fn lemma_take_steps_fund(s: EscrowView, c: TakeOffer)
    requires
        funded(s),
    ensures
        pay_maker_spec(s, c) matches Ok(s2) ==> funded(s2),
        release_spec(s, c) matches Ok(s2) ==> funded(s2),
{
}

/// A take whose supplied maker, assets or derived accounts differ from what
/// the outstanding record calls for fails with `AccountMismatch`.
pub proof fn lemma_take_checks_accounts(s: EscrowView, c: TakeOffer)
    requires
        funded(s),
        s.offers.contains_key(c.offer.key()),
        !accounts_match(s.offers[c.offer.key()], c),
    ensures
        take_offer_spec(s, c) == Err::<EscrowView, EscrowError>(EscrowError::AccountMismatch),
{
}

/// Where the taker already holds an account of asset A, a take with matching
/// accounts succeeds exactly when both assets are registered and the payment
/// and the two credits can be made:
/// the existing account is reused, credited with the whole vault, and the only
/// account that may be added is the maker's account of asset B.
pub proof fn lemma_take_reuses_destination(s: EscrowView, c: TakeOffer)
    requires
        funded(s),
        s.offers.contains_key(c.offer.key()),
        accounts_match(s.offers[c.offer.key()], c),
        s.ledger.balances.contains_key((c.taker, c.token_mint_a)),
        c.taker != c.maker,
        c.token_mint_a != c.token_mint_b,
    ensures
        ({
            let k = c.offer.key();
            let b = s.ledger.balances;
            let wanted = s.offers[k].token_b_wanted;
            &&& take_offer_spec(s, c) is Ok <==> {
                &&& s.ledger.assets.contains_key(c.token_mint_a)
                &&& s.ledger.assets.contains_key(c.token_mint_b)
                &&& b.contains_key((c.taker, c.token_mint_b))
                &&& b[(c.taker, c.token_mint_b)] >= wanted
                &&& balance_or_zero(b, (c.maker, c.token_mint_b)) + wanted <= u64::MAX
                &&& b[(c.taker, c.token_mint_a)] + s.vaults[k] <= u64::MAX
            }
            &&& take_offer_spec(s, c) matches Ok(s2) ==> {
                &&& s2.ledger.balances.dom() == b.dom().insert((c.maker, c.token_mint_b))
                &&& s2.ledger.balances[(c.taker, c.token_mint_a)] == b[(c.taker, c.token_mint_a)]
                    + s.vaults[k]
            }
        }),
{
    if let Ok(s2) = take_offer_spec(s, c) {
        assert(s2.ledger.balances.dom() =~= s.ledger.balances.dom().insert(
            (c.maker, c.token_mint_b),
        ));
    }
}

} // verus!
