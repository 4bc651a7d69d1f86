//! A two-party token-swap escrow: a maker locks an amount of one asset in a
//! vault owned by an offer record, and a taker who pays the requested amount of
//! a second asset receives the whole vault in one all-or-nothing step.
pub mod address;
pub mod error;
pub mod ledger;
pub mod escrow;
pub mod laws;

pub use error::EscrowError;
pub use escrow::{
    make_offer, pull_tokens_from_vault, save_offer, send_offered_tokens_to_vault,
    send_tokens_to_maker, take_offer, Escrow, MakeOffer, Offer, OfferAddress, TakeOffer,
};
pub use ledger::{Ledger, TokenAccountRef};
