use crate::identity::Identity;
use vstd::prelude::*;

verus! {

/// One record of the ledger, as the executor sees it for the length of a
/// call: where it lives, what it holds, which program owns it, and its
/// storage.
#[derive(Clone, Debug, PartialEq, Eq)]
pub struct Account {
    pub address: Identity,
    pub balance: u64,
    pub owner_program: Identity,
    pub data: Vec<u8>,
}

/// The mathematical content of an [`Account`].
pub struct AccountModel {
    pub address: Seq<u8>,
    pub balance: nat,
    pub owner_program: Seq<u8>,
    pub data: Seq<u8>,
}

impl View for Account {
    type V = AccountModel;

    open spec fn view(&self) -> AccountModel {
        AccountModel {
            address: self.address@,
            balance: self.balance as nat,
            owner_program: self.owner_program@,
            data: self.data@,
        }
    }
}

/// The content of a list of accounts, record by record.
pub open spec fn ledger_view(accounts: Seq<Account>) -> Seq<AccountModel> {
    accounts.map_values(|account: Account| account@)
}

/// An account without storage does not exist on the ledger yet.
pub open spec fn lacks_storage(account: AccountModel) -> bool {
    account.data.len() == 0
}

impl Account {
    /// An account that the ledger has not created yet: it has a balance and
    /// an owner, and no storage.
    pub fn new(address: Identity, balance: u64, owner_program: Identity) -> (account: Account)
        ensures
            account.address == address,
            account.balance == balance,
            account.owner_program == owner_program,
            account.data@ == Seq::<u8>::empty(),
            lacks_storage(account@),
    {
        Account { address, balance, owner_program, data: Vec::new() }
    }

    /// Whether the ledger has yet to create this account.
    pub fn lacks_storage(&self) -> (r: bool)
        ensures
            r == lacks_storage(self@),
    {
        self.data.len() == 0
    }
}

} // verus!
