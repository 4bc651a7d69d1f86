//! The reasons an escrow operation can fail.
use vstd::prelude::*;

verus! {

/// Why an operation was refused. A refused operation changes nothing.
#[derive(PartialEq, Eq, Structural, Clone, Copy, Debug)]
pub enum EscrowError {
    /// A holding account that the operation needs does not exist, or is not
    /// the one derived for its owner and asset.
    InvalidAccount,
    /// The paying account holds less than the amount asked for.
    InsufficientFunds,
    /// An offer with the same maker and id is still outstanding.
    AddressCollision,
    /// An asset is not registered, or an account holds another asset than the
    /// one the transfer names.
    AssetMismatch,
    /// The accounts supplied to take an offer do not match the offer record.
    AccountMismatch,
    /// No offer is recorded at the given address.
    NotFound,
    /// A credit would take a balance past the largest representable amount.
    Overflow,
    /// An offer was opened with nothing to put in its vault.
    ZeroDeposit,
}

impl EscrowError {
    /// A short name of the error.
    pub fn name(&self) -> (r: &'static str)
        ensures
            r@ == match *self {
                EscrowError::InvalidAccount => "InvalidAccount"@,
                EscrowError::InsufficientFunds => "InsufficientFunds"@,
                EscrowError::AddressCollision => "AddressCollision"@,
                EscrowError::AssetMismatch => "AssetMismatch"@,
                EscrowError::AccountMismatch => "AccountMismatch"@,
                EscrowError::NotFound => "NotFound"@,
                EscrowError::Overflow => "Overflow"@,
                EscrowError::ZeroDeposit => "ZeroDeposit"@,
            },
    {
        match self {
            EscrowError::InvalidAccount => "InvalidAccount",
            EscrowError::InsufficientFunds => "InsufficientFunds",
            EscrowError::AddressCollision => "AddressCollision",
            EscrowError::AssetMismatch => "AssetMismatch",
            EscrowError::AccountMismatch => "AccountMismatch",
            EscrowError::NotFound => "NotFound",
            EscrowError::Overflow => "Overflow",
            EscrowError::ZeroDeposit => "ZeroDeposit",
        }
    }
}

} // verus!
