use vstd::prelude::*;
use crate::accounts::{
    Init, PresaleAccount, PresaleErrors, TransferLamportsAndBuyTokens, UpdatePresale, UserAccount,
};
use crate::identity::Identity;
use crate::ledger::{Ledger, LedgerModel};

verus! {

/// What the owner-only handlers demand: the sale must exist and the
/// caller must be its owner.
pub open spec fn owner_check(m: LedgerModel, caller: Identity) -> Result<PresaleAccount, PresaleErrors> {
    match m.presale_account {
        None => Err(PresaleErrors::NotInitialized),
        Some(s) => if s.owner == caller {
            Ok(s)
        } else {
            Err(PresaleErrors::NotOwner)
        },
    }
}

/// `m` with its sale configuration replaced by `s`.
pub open spec fn with_sale(m: LedgerModel, s: PresaleAccount) -> LedgerModel {
    LedgerModel { presale_account: Some(s), ..m }
}

/// The balances after moving `amount` from `from` to `to`, or why that
/// cannot be done. A payment to oneself changes nothing.
pub open spec fn transfer_result(m: LedgerModel, from: Identity, to: Identity, amount: u64) -> Result<
    Map<Identity, u64>,
    PresaleErrors,
> {
    if m.lamports_of(from) < amount {
        Err(PresaleErrors::InsufficientLamports)
    } else if from == to {
        Ok(m.lamports)
    } else if m.lamports_of(to) + amount > u64::MAX {
        Err(PresaleErrors::ArithmeticOverflow)
    } else {
        Ok(
            m.lamports.insert(from, (m.lamports_of(from) - amount) as u64).insert(
                to,
                (m.lamports_of(to) + amount) as u64,
            ),
        )
    }
}

/// The ledger after `from` buys `tokens_to_buy` units, paying `to`, or the
/// first check that fails.
pub open spec fn buy_result(m: LedgerModel, from: Identity, to: Identity, tokens_to_buy: u128) -> Result<
    LedgerModel,
    PresaleErrors,
> {
    match m.presale_account {
        None => Err(PresaleErrors::NotInitialized),
        Some(s) => {
            let due = s.token_price * tokens_to_buy;
            let bought = m.bought_of(from) + tokens_to_buy;
            if due > u64::MAX {
                Err(PresaleErrors::ArithmeticOverflow)
            } else if s.tokens_sold + tokens_to_buy > s.tokens_to_sell {
                Err(PresaleErrors::InsufficientTokens)
            } else if to != s.owner {
                Err(PresaleErrors::ToAddressNotOwner)
            } else if bought > u128::MAX {
                Err(PresaleErrors::ArithmeticOverflow)
            } else {
                match transfer_result(m, from, to, due as u64) {
                    Err(e) => Err(e),
                    Ok(lamports) => Ok(
                        LedgerModel {
                            presale_account: Some(
                                PresaleAccount {
                                    tokens_sold: (s.tokens_sold + tokens_to_buy) as u128,
                                    ..s
                                },
                            ),
                            user_accounts: m.user_accounts.insert(
                                from,
                                UserAccount { bought_amount: bought as u128 },
                            ),
                            lamports,
                        },
                    ),
                }
            }
        },
    }
}

/// Creates the sale configuration, owned by the signer, with nothing sold.
/// The start must lie after `now` and before the end; price and cap must be
/// positive. A configuration that exists already is never overwritten.
pub fn initialize(
    ledger: &mut Ledger,
    ctx: &Init,
    now: i64,
    start_time: u128,
    end_time: u128,
    token_price: u128,
    tokens_to_sell: u128,
) -> (r: Result<(), PresaleErrors>)
    requires
        old(ledger).wf(),
    ensures
        final(ledger).wf(),
        old(ledger)@.presale_account is Some ==> r == Err::<(), _>(PresaleErrors::AlreadyInitialized),
        old(ledger)@.presale_account is None ==> (r == Err::<(), _>(PresaleErrors::InvalidTime) <==> !(
        now < start_time && start_time < end_time)),
        old(ledger)@.presale_account is None && now < start_time && start_time < end_time ==> (r
            == Err::<(), _>(PresaleErrors::ZeroParams) <==> (token_price == 0 || tokens_to_sell
            == 0)),
        r is Ok <==> (old(ledger)@.presale_account is None && now < start_time && start_time
            < end_time && token_price > 0 && tokens_to_sell > 0),
        r is Ok ==> final(ledger)@ == with_sale(
            old(ledger)@,
            PresaleAccount {
                start_time,
                end_time,
                token_price,
                tokens_to_sell,
                tokens_sold: 0,
                owner: ctx.owner,
            },
        ),
        r is Err ==> final(ledger)@ == old(ledger)@,
{
    if ledger.presale_account().is_some() {
        return Err(PresaleErrors::AlreadyInitialized);
    }
    let starts_later = now < 0 || (now as u128) < start_time;
    if !(starts_later && start_time < end_time) {
        return Err(PresaleErrors::InvalidTime);
    }
    if !(token_price > 0 && tokens_to_sell > 0) {
        return Err(PresaleErrors::ZeroParams);
    }
    let account = PresaleAccount {
        start_time,
        end_time,
        token_price,
        tokens_to_sell,
        tokens_sold: 0,
        owner: ctx.owner,
    };
    ledger.put_presale_account(account);
    assert(final(ledger)@ == with_sale(old(ledger)@, account));
    Ok(())
}

/// What `tokens_to_buy` units cost at `token_price`, or `None` where that
/// does not fit a balance.
pub fn amount_due(token_price: u128, tokens_to_buy: u128) -> (r: Option<u64>)
    ensures
        r is Some <==> token_price * tokens_to_buy <= u64::MAX,
        r matches Some(d) ==> d == token_price * tokens_to_buy,
{
    match token_price.checked_mul(tokens_to_buy) {
        Some(d) => if d <= u64::MAX as u128 {
            Some(d as u64)
        } else {
            None
        },
        None => None,
    }
}

fn owned_sale(ledger: &Ledger, caller: &Identity) -> (r: Result<PresaleAccount, PresaleErrors>)
    requires
        ledger.wf(),
    ensures
        r == owner_check(ledger@, *caller),
        r matches Ok(s) ==> s.valid(),
{
    match ledger.presale_account() {
        None => Err(PresaleErrors::NotInitialized),
        Some(s) => if s.owner == *caller {
            Ok(s)
        } else {
            Err(PresaleErrors::NotOwner)
        },
    }
}

/// Hands the sale to `new_owner`. Only the current owner may do so.
pub fn transfer_ownership(ledger: &mut Ledger, ctx: &UpdatePresale, new_owner: Identity) -> (r:
    Result<(), PresaleErrors>)
    requires
        old(ledger).wf(),
    ensures
        final(ledger).wf(),
        r is Ok <==> owner_check(old(ledger)@, ctx.owner) is Ok,
        owner_check(old(ledger)@, ctx.owner) matches Err(e) ==> r == Err::<(), _>(e),
        owner_check(old(ledger)@, ctx.owner) matches Ok(s) ==> final(ledger)@ == with_sale(
            old(ledger)@,
            PresaleAccount { owner: new_owner, ..s },
        ),
        r is Err ==> final(ledger)@ == old(ledger)@,
{
    let s = match owned_sale(ledger, &ctx.owner) {
        Ok(s) => s,
        Err(e) => return Err(e),
    };
    let account = PresaleAccount { owner: new_owner, ..s };
    ledger.put_presale_account(account);
    assert(final(ledger)@ == with_sale(old(ledger)@, account));
    Ok(())
}

/// Moves the sale's window to `[start_time, end_time]`. Only the owner may
/// do so, and the window must stay ordered (`InvalidTime` otherwise), so
/// that the configuration keeps its invariant.
pub fn updateimeline(ledger: &mut Ledger, ctx: &UpdatePresale, start_time: u128, end_time: u128) -> (r:
    Result<(), PresaleErrors>)
    requires
        old(ledger).wf(),
    ensures
        final(ledger).wf(),
        r is Ok <==> owner_check(old(ledger)@, ctx.owner) is Ok && start_time < end_time,
        owner_check(old(ledger)@, ctx.owner) matches Err(e) ==> r == Err::<(), _>(e),
        owner_check(old(ledger)@, ctx.owner) is Ok && start_time >= end_time ==> r == Err::<(), _>(
            PresaleErrors::InvalidTime,
        ),
        r is Ok ==> (owner_check(old(ledger)@, ctx.owner) matches Ok(s) && final(ledger)@
            == with_sale(old(ledger)@, PresaleAccount { start_time, end_time, ..s })),
        r is Err ==> final(ledger)@ == old(ledger)@,
{
    let s = match owned_sale(ledger, &ctx.owner) {
        Ok(s) => s,
        Err(e) => return Err(e),
    };
    if start_time >= end_time {
        return Err(PresaleErrors::InvalidTime);
    }
    let account = PresaleAccount { start_time, end_time, ..s };
    ledger.put_presale_account(account);
    assert(final(ledger)@ == with_sale(old(ledger)@, account));
    Ok(())
}

/// Sets the price per unit. Only the owner may do so, and the price must
/// stay positive (`ZeroParams` otherwise).
pub fn update_token_price(ledger: &mut Ledger, ctx: &UpdatePresale, token_price: u128) -> (r:
    Result<(), PresaleErrors>)
    requires
        old(ledger).wf(),
    ensures
        final(ledger).wf(),
        r is Ok <==> owner_check(old(ledger)@, ctx.owner) is Ok && token_price > 0,
        owner_check(old(ledger)@, ctx.owner) matches Err(e) ==> r == Err::<(), _>(e),
        owner_check(old(ledger)@, ctx.owner) is Ok && token_price == 0 ==> r == Err::<(), _>(
            PresaleErrors::ZeroParams,
        ),
        r is Ok ==> (owner_check(old(ledger)@, ctx.owner) matches Ok(s) && final(ledger)@
            == with_sale(old(ledger)@, PresaleAccount { token_price, ..s })),
        r is Err ==> final(ledger)@ == old(ledger)@,
{
    let s = match owned_sale(ledger, &ctx.owner) {
        Ok(s) => s,
        Err(e) => return Err(e),
    };
    if token_price == 0 {
        return Err(PresaleErrors::ZeroParams);
    }
    let account = PresaleAccount { token_price, ..s };
    ledger.put_presale_account(account);
    assert(final(ledger)@ == with_sale(old(ledger)@, account));
    Ok(())
}

/// Sets the supply cap. Only the owner may do so, and the new cap must
/// exceed what is already sold (`InvalidTokenSaleNumbers` otherwise).
pub fn update_tokens_to_sell(ledger: &mut Ledger, ctx: &UpdatePresale, tokens_to_sell: u128) -> (r:
    Result<(), PresaleErrors>)
    requires
        old(ledger).wf(),
    ensures
        final(ledger).wf(),
        r is Ok <==> (owner_check(old(ledger)@, ctx.owner) matches Ok(s) && s.tokens_sold
            < tokens_to_sell),
        owner_check(old(ledger)@, ctx.owner) matches Err(e) ==> r == Err::<(), _>(e),
        owner_check(old(ledger)@, ctx.owner) matches Ok(s) && tokens_to_sell <= s.tokens_sold ==> r
            == Err::<(), _>(PresaleErrors::InvalidTokenSaleNumbers),
        r is Ok ==> (owner_check(old(ledger)@, ctx.owner) matches Ok(s) && final(ledger)@
            == with_sale(old(ledger)@, PresaleAccount { tokens_to_sell, ..s })),
        r is Err ==> final(ledger)@ == old(ledger)@,
{
    let s = match owned_sale(ledger, &ctx.owner) {
        Ok(s) => s,
        Err(e) => return Err(e),
    };
    if s.tokens_sold >= tokens_to_sell {
        return Err(PresaleErrors::InvalidTokenSaleNumbers);
    }
    let account = PresaleAccount { tokens_to_sell, ..s };
    ledger.put_presale_account(account);
    assert(final(ledger)@ == with_sale(old(ledger)@, account));
    Ok(())
}

/// `ctx.from` buys `tokens_to_buy` units at the sale's price and pays
/// `ctx.to`, who must be the sale's owner. Checks, in order: the amount due
/// fits a balance, the cap is not passed, the recipient is the owner, the
/// buyer's total fits, the buyer can pay. Only when all pass are the buyer
/// record (created at zero if absent), the sold count and both balances
/// written; otherwise nothing changes.
pub fn buy(ledger: &mut Ledger, ctx: &TransferLamportsAndBuyTokens, tokens_to_buy: u128) -> (r:
    Result<(), PresaleErrors>)
    requires
        old(ledger).wf(),
    ensures
        final(ledger).wf(),
        match buy_result(old(ledger)@, ctx.from, ctx.to, tokens_to_buy) {
            Ok(m) => r is Ok && final(ledger)@ == m,
            Err(e) => r == Err::<(), _>(e) && final(ledger)@ == old(ledger)@,
        },
        old(ledger)@.presale_account matches Some(s) ==> (s.token_price * tokens_to_buy
            <= u64::MAX ==> (r == Err::<(), _>(PresaleErrors::InsufficientTokens) <==> s.tokens_sold
            + tokens_to_buy > s.tokens_to_sell)),
        r is Ok ==> (old(ledger)@.presale_account matches Some(s) && {
            &&& final(ledger)@.presale_account == Some(
                PresaleAccount { tokens_sold: (s.tokens_sold + tokens_to_buy) as u128, ..s },
            )
            &&& final(ledger)@.bought_of(ctx.from) == old(ledger)@.bought_of(ctx.from)
                + tokens_to_buy
            &&& ctx.from != ctx.to ==> final(ledger)@.lamports_of(ctx.from) == old(
                ledger,
            )@.lamports_of(ctx.from) - s.token_price * tokens_to_buy
            &&& ctx.from != ctx.to ==> final(ledger)@.lamports_of(ctx.to) == old(
                ledger,
            )@.lamports_of(ctx.to) + s.token_price * tokens_to_buy
        }),
        r is Err ==> final(ledger)@ == old(ledger)@,
{
    let s = match ledger.presale_account() {
        Some(s) => s,
        None => return Err(PresaleErrors::NotInitialized),
    };
    let due = match amount_due(s.token_price, tokens_to_buy) {
        Some(d) => d,
        None => return Err(PresaleErrors::ArithmeticOverflow),
    };
    if tokens_to_buy > s.tokens_to_sell - s.tokens_sold {
        return Err(PresaleErrors::InsufficientTokens);
    }
    if ctx.to != s.owner {
        return Err(PresaleErrors::ToAddressNotOwner);
    }
    let bought = match ledger.user_account(&ctx.from) {
        Some(u) => u.bought_amount,
        None => 0,
    };
    let bought = match bought.checked_add(tokens_to_buy) {
        Some(b) => b,
        None => return Err(PresaleErrors::ArithmeticOverflow),
    };
    let from_lamports = ledger.lamports(&ctx.from);
    if from_lamports < due {
        return Err(PresaleErrors::InsufficientLamports);
    }
    if ctx.from != ctx.to {
        let to_lamports = match ledger.lamports(&ctx.to).checked_add(due) {
            Some(b) => b,
            None => return Err(PresaleErrors::ArithmeticOverflow),
        };
        ledger.set_lamports(ctx.from, from_lamports - due);
        ledger.set_lamports(ctx.to, to_lamports);
    }
    ledger.set_user_account(ctx.from, UserAccount { bought_amount: bought });
    ledger.put_presale_account(PresaleAccount { tokens_sold: s.tokens_sold + tokens_to_buy, ..s });
    assert(final(ledger)@ == buy_result(old(ledger)@, ctx.from, ctx.to, tokens_to_buy)->Ok_0);
    Ok(())
}

} // verus!
