use vstd::prelude::*;
use crate::accounts::{PresaleAccount, UserAccount};
use crate::identity::Identity;
use crate::table::IdTable;

verus! {

/// What a ledger holds, as mathematics: the sale configuration if it was
/// created, the buyer records, and each identity's balance in base-currency
/// units (lamports).
pub struct LedgerModel {
    pub presale_account: Option<PresaleAccount>,
    pub user_accounts: Map<Identity, UserAccount>,
    pub lamports: Map<Identity, u64>,
}

impl LedgerModel {
    pub open spec fn wf(&self) -> bool {
        self.presale_account matches Some(s) ==> s.valid()
    }

    /// A balance; an identity the ledger has never seen holds nothing.
    pub open spec fn lamports_of(&self, id: Identity) -> u64 {
        if self.lamports.contains_key(id) {
            self.lamports[id]
        } else {
            0
        }
    }

    /// What `id` has bought; no record counts as zero.
    pub open spec fn bought_of(&self, id: Identity) -> u128 {
        if self.user_accounts.contains_key(id) {
            self.user_accounts[id].bought_amount
        } else {
            0
        }
    }
}

/// The state that the handlers read and write.
pub struct Ledger {
    presale_account: Option<PresaleAccount>,
    user_accounts: IdTable<UserAccount>,
    lamports: IdTable<u64>,
}

impl View for Ledger {
    type V = LedgerModel;

    closed spec fn view(&self) -> LedgerModel {
        LedgerModel {
            presale_account: self.presale_account,
            user_accounts: self.user_accounts@,
            lamports: self.lamports@,
        }
    }
}

impl Ledger {
    /// The tables keep one entry per identity.
    pub closed spec fn tables_wf(&self) -> bool {
        &&& self.user_accounts.wf()
        &&& self.lamports.wf()
    }

    pub open spec fn wf(&self) -> bool {
        &&& self.tables_wf()
        &&& self@.wf()
    }

    /// A ledger with no sale, no buyer records and no balances.
    pub fn new() -> (r: Ledger)
        ensures
            r.wf(),
            r@.presale_account is None,
            r@.user_accounts == Map::<Identity, UserAccount>::empty(),
            r@.lamports == Map::<Identity, u64>::empty(),
    {
        Ledger { presale_account: None, user_accounts: IdTable::new(), lamports: IdTable::new() }
    }

    /// A ledger that holds a stored sale configuration, or `None` where that
    /// configuration breaks its invariant.
    pub fn with_presale_account(account: PresaleAccount) -> (r: Option<Ledger>)
        ensures
            r is Some <==> account.valid(),
            r matches Some(l) ==> {
                &&& l.wf()
                &&& l@.presale_account == Some(account)
                &&& l@.user_accounts == Map::<Identity, UserAccount>::empty()
                &&& l@.lamports == Map::<Identity, u64>::empty()
            },
    {
        if account.is_valid() {
            Some(
                Ledger {
                    presale_account: Some(account),
                    user_accounts: IdTable::new(),
                    lamports: IdTable::new(),
                },
            )
        } else {
            None
        }
    }

    pub fn presale_account(&self) -> (r: Option<PresaleAccount>)
        ensures
            r == self@.presale_account,
    {
        self.presale_account
    }

    /// The buyer record of `id`, if one was created.
    pub fn user_account(&self, id: &Identity) -> (r: Option<UserAccount>)
        requires
            self.wf(),
        ensures
            r == (if self@.user_accounts.contains_key(*id) {
                Some(self@.user_accounts[*id])
            } else {
                None::<UserAccount>
            }),
    {
        self.user_accounts.get(id)
    }

    /// The balance of `id`.
    pub fn lamports(&self, id: &Identity) -> (r: u64)
        requires
            self.wf(),
        ensures
            r == self@.lamports_of(*id),
    {
        match self.lamports.get(id) {
            Some(v) => v,
            None => 0,
        }
    }

    /// Records the balance that the host ledger reports for `id`.
    pub fn set_lamports(&mut self, id: Identity, amount: u64)
        requires
            old(self).wf(),
        ensures
            final(self).wf(),
            final(self)@.presale_account == old(self)@.presale_account,
            final(self)@.user_accounts == old(self)@.user_accounts,
            final(self)@.lamports == old(self)@.lamports.insert(id, amount),
    {
        self.lamports.set(id, amount);
    }

    /// Records a stored buyer record for `id`.
    pub fn set_user_account(&mut self, id: Identity, account: UserAccount)
        requires
            old(self).wf(),
        ensures
            final(self).wf(),
            final(self)@.presale_account == old(self)@.presale_account,
            final(self)@.user_accounts == old(self)@.user_accounts.insert(id, account),
            final(self)@.lamports == old(self)@.lamports,
    {
        self.user_accounts.set(id, account);
    }

    pub(crate) fn put_presale_account(&mut self, account: PresaleAccount)
        requires
            old(self).wf(),
            account.valid(),
        ensures
            final(self).wf(),
            final(self)@.presale_account == Some(account),
            final(self)@.user_accounts == old(self)@.user_accounts,
            final(self)@.lamports == old(self)@.lamports,
    {
        self.presale_account = Some(account);
    }
}

} // verus!
