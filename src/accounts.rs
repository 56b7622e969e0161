use vstd::prelude::*;
use crate::identity::Identity;

verus! {

/// The sale configuration: a singleton stored at a fixed derived address.
#[derive(Clone, Copy, Debug, PartialEq, Eq, Structural)]
pub struct PresaleAccount {
    pub start_time: u128,
    pub end_time: u128,
    pub token_price: u128,
    pub tokens_to_sell: u128,
    pub tokens_sold: u128,
    pub owner: Identity,
}

impl PresaleAccount {
    /// The configuration's invariant: an ordered timeline, a positive price
    /// and cap, and no more sold than the cap.
    pub open spec fn valid(&self) -> bool {
        &&& self.start_time < self.end_time
        &&& self.token_price > 0
        &&& self.tokens_to_sell > 0
        &&& self.tokens_sold <= self.tokens_to_sell
    }

    pub fn is_valid(&self) -> (r: bool)
        ensures
            r == self.valid(),
    {
        self.start_time < self.end_time && self.token_price > 0 && self.tokens_to_sell > 0
            && self.tokens_sold <= self.tokens_to_sell
    }
}

/// A buyer's record: what this buyer has purchased so far.
#[derive(Clone, Copy, Debug, PartialEq, Eq, Structural)]
pub struct UserAccount {
    pub bought_amount: u128,
}

/// Why a handler refused to act. Every refusal leaves the ledger unchanged.
#[derive(Clone, Copy, Debug, PartialEq, Eq, Structural)]
pub enum PresaleErrors {
    /// The timeline is not ordered, or does not start in the future.
    InvalidTime,
    /// A price or a supply cap of zero.
    ZeroParams,
    /// A new supply cap that does not exceed what is already sold.
    InvalidTokenSaleNumbers,
    /// The buyer cannot pay the amount due.
    InsufficientLamports,
    /// The purchase would sell more than the supply cap.
    InsufficientTokens,
    /// The payment recipient is not the sale's owner.
    ToAddressNotOwner,
    /// The caller of an administrative handler is not the sale's owner.
    NotOwner,
    /// The sale configuration exists already.
    AlreadyInitialized,
    /// The sale configuration does not exist yet.
    NotInitialized,
    /// An amount does not fit its integer type.
    ArithmeticOverflow,
}

/// The signer of `initialize`, who becomes the sale's owner.
#[derive(Clone, Copy, Debug, PartialEq, Eq, Structural)]
pub struct Init {
    pub owner: Identity,
}

/// The signer of an administrative handler.
#[derive(Clone, Copy, Debug, PartialEq, Eq, Structural)]
pub struct UpdatePresale {
    pub owner: Identity,
}

/// The parties to a purchase: `from` signs and pays, `to` receives the payment.
#[derive(Clone, Copy, Debug, PartialEq, Eq, Structural)]
pub struct TransferLamportsAndBuyTokens {
    pub from: Identity,
    pub to: Identity,
}

} // verus!
