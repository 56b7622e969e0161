use vstd::prelude::*;
use crate::accounts::PresaleErrors;
use crate::identity::Identity;
use crate::ledger::LedgerModel;
use crate::presale::buy_result;

verus! {

/// One purchase: who buys, whom they pay, and how many units.
#[derive(Clone, Copy, Debug, PartialEq, Eq, Structural)]
pub struct Purchase {
    pub buyer: Identity,
    pub recipient: Identity,
    pub tokens_to_buy: u128,
}

/// The ledger after `purchases` run one after another from `m`; the first
/// failure ends the run.
pub open spec fn run_buys(m: LedgerModel, purchases: Seq<Purchase>) -> Result<LedgerModel, PresaleErrors>
    decreases purchases.len(),
{
    if purchases.len() == 0 {
        Ok(m)
    } else {
        match run_buys(m, purchases.drop_last()) {
            Ok(before) => {
                let p = purchases.last();
                buy_result(before, p.buyer, p.recipient, p.tokens_to_buy)
            },
            Err(e) => Err(e),
        }
    }
}

/// The units that `purchases` ask for, all told.
pub open spec fn units_asked(purchases: Seq<Purchase>) -> int
    decreases purchases.len(),
{
    if purchases.len() == 0 {
        0
    } else {
        units_asked(purchases.drop_last()) + purchases.last().tokens_to_buy
    }
}

/// The outcome succeeded, sold no more than its cap, and kept the cap at
/// `cap`.
pub open spec fn within_cap(outcome: Result<LedgerModel, PresaleErrors>, cap: u128) -> bool {
    outcome matches Ok(after) && after.presale_account matches Some(t) && t.tokens_sold
        <= t.tokens_to_sell && t.tokens_to_sell == cap
}

/// A successful purchase keeps the ledger's invariant, adds its units to
/// the sold count and leaves the rest of the configuration as it was.
pub proof fn lemma_buy_step(m: LedgerModel, buyer: Identity, recipient: Identity, tokens_to_buy: u128)
    requires
        m.wf(),
        buy_result(m, buyer, recipient, tokens_to_buy) is Ok,
    ensures
        ({
            let after = buy_result(m, buyer, recipient, tokens_to_buy)->Ok_0;
            &&& after.wf()
            &&& m.presale_account matches Some(s) && after.presale_account matches Some(t) && {
                &&& t.tokens_sold == s.tokens_sold + tokens_to_buy
                &&& t.tokens_to_sell == s.tokens_to_sell
                &&& t.token_price == s.token_price
                &&& t.owner == s.owner
            }
            &&& after.bought_of(buyer) == m.bought_of(buyer) + tokens_to_buy
        }),
{
}

/// After any run of purchases that all succeed, the sold count has grown by
/// exactly the units they asked for, and after every prefix of the run it is
/// still within the supply cap, which the run leaves unchanged.
pub proof fn lemma_buys_accumulate(m: LedgerModel, purchases: Seq<Purchase>)
    requires
        m.wf(),
        m.presale_account is Some,
        run_buys(m, purchases) is Ok,
    ensures
        run_buys(m, purchases)->Ok_0.presale_account matches Some(t) && {
            &&& t.tokens_sold == m.presale_account->Some_0.tokens_sold + units_asked(purchases)
            &&& t.tokens_to_sell == m.presale_account->Some_0.tokens_to_sell
        },
        forall|k: int|
            0 <= k <= purchases.len() ==> within_cap(
                #[trigger] run_buys(m, purchases.take(k)),
                m.presale_account->Some_0.tokens_to_sell,
            ),
    decreases purchases.len(),
{
    if purchases.len() > 0 {
        let rest = purchases.drop_last();
        lemma_buys_accumulate(m, rest);
        let before = run_buys(m, rest)->Ok_0;
        lemma_run_wf(m, rest);
        let p = purchases.last();
        lemma_buy_step(before, p.buyer, p.recipient, p.tokens_to_buy);
        lemma_run_wf(m, purchases);
        assert forall|k: int| 0 <= k <= purchases.len() implies within_cap(
            #[trigger] run_buys(m, purchases.take(k)),
            m.presale_account->Some_0.tokens_to_sell,
        ) by {
            if k == purchases.len() {
                assert(purchases.take(k) =~= purchases);
            } else {
                assert(purchases.take(k) =~= rest.take(k));
            }
        }
    } else {
        assert forall|k: int| 0 <= k <= purchases.len() implies within_cap(
            #[trigger] run_buys(m, purchases.take(k)),
            m.presale_account->Some_0.tokens_to_sell,
        ) by {
            assert(purchases.take(k) =~= purchases);
        }
    }
}

/// A run of purchases that succeeds keeps the ledger's invariant.
pub proof fn lemma_run_wf(m: LedgerModel, purchases: Seq<Purchase>)
    requires
        m.wf(),
        run_buys(m, purchases) is Ok,
    ensures
        run_buys(m, purchases)->Ok_0.wf(),
    decreases purchases.len(),
{
    if purchases.len() > 0 {
        let rest = purchases.drop_last();
        lemma_run_wf(m, rest);
        let p = purchases.last();
        lemma_buy_step(run_buys(m, rest)->Ok_0, p.buyer, p.recipient, p.tokens_to_buy);
    }
}

} // verus!
