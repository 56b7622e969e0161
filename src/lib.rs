//! State transitions of a fixed-price, time-boxed token presale: one sale
//! configuration, per-buyer purchase records, and the movement of funds from
//! buyer to sale owner, each handler all-or-nothing.

mod accounts;
mod identity;
mod laws;
mod ledger;
mod presale;
mod table;

pub use accounts::{
    Init, PresaleAccount, PresaleErrors, TransferLamportsAndBuyTokens, UpdatePresale, UserAccount,
};
pub use identity::Identity;
pub use laws::{
    lemma_buy_step, lemma_buys_accumulate, lemma_run_wf, run_buys, units_asked, within_cap, Purchase,
};
pub use ledger::{Ledger, LedgerModel};
pub use presale::{
    amount_due, buy, buy_result, initialize, owner_check, transfer_ownership, transfer_result, update_token_price,
    update_tokens_to_sell, updateimeline, with_sale,
};
pub use table::IdTable;
