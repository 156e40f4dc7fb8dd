use crate::account::{ledger_view, lacks_storage, Account, AccountModel};
use crate::derivation::{
    derives, is_canonical, law_derivation_deterministic, on_curve, AuthorityProof,
};
use crate::error::TransferError;
use crate::identity::Identity;
use crate::payload::{decode, decoded, encoded, law_round_trip, InstructionData};
use vstd::prelude::*;

verus! {

/// The seed tag of every vault: the bytes of `recipient`.
pub const VAULT_SEED_TAG: [u8; 9] = [114, 101, 99, 105, 112, 105, 101, 110, 116];

/// Bytes of storage that a new vault is given.
pub const VAULT_SPACE: usize = 1024;

/// Lamports that creating a vault costs its source.
pub const VAULT_FUNDING: u64 = 1_000_000;

/// Position of the vault in the account list.
pub const VAULT_INDEX: usize = 0;

/// Position of the source in the account list.
pub const SOURCE_INDEX: usize = 1;

/// Accounts that a transfer needs: the vault, the source and the system
/// ledger's own, in this order.
pub const ACCOUNTS_NEEDED: usize = 3;

/// What the ledger answered to a request to create the vault.
#[derive(Clone, Copy, Debug, PartialEq, Eq, Structural)]
pub enum LedgerReply {
    Created,
    Rejected,
}

/// What creating the vault costs the source: nothing where the vault already
/// has storage.
pub open spec fn creation_cost(vault: AccountModel) -> nat {
    if lacks_storage(vault) {
        VAULT_FUNDING as nat
    } else {
        0
    }
}

/// Why a transfer is refused, if it is. The checks come in a fixed order and
/// the first one that fails names the error: the payload decodes, three
/// accounts are there, the vault and the bump are the derived ones
/// (`authorized`), the source covers the amount and the cost of creating the
/// vault, and the ledger creates the vault where it has no storage.
pub open spec fn refusal(
    pre: Seq<AccountModel>,
    payload: Seq<u8>,
    authorized: bool,
    reply: LedgerReply,
) -> Option<TransferError> {
    if decoded(payload) is None {
        Some(TransferError::MalformedPayload)
    } else if pre.len() < 3 {
        Some(TransferError::AccountMissing)
    } else if !authorized {
        Some(TransferError::BumpMismatch)
    } else if decoded(payload)->0.transfer_amount + creation_cost(pre[0]) > pre[1].balance {
        Some(TransferError::InsufficientFunds)
    } else if lacks_storage(pre[0]) && reply == LedgerReply::Rejected {
        Some(TransferError::LedgerCreateFailed)
    } else {
        None
    }
}

/// The accounts after the ledger has created the vault: the vault has its
/// storage, zeroed, and belongs to `program`; the source has paid for it.
pub open spec fn created(program: Seq<u8>, pre: Seq<AccountModel>) -> Seq<AccountModel> {
    pre.update(
        0,
        AccountModel {
            owner_program: program,
            data: Seq::new(VAULT_SPACE as nat, |i: int| 0u8),
            ..pre[0]
        },
    ).update(1, AccountModel { balance: (pre[1].balance - VAULT_FUNDING) as nat, ..pre[1] })
}

/// The accounts after `amount` has moved from the source to the vault.
pub open spec fn moved(pre: Seq<AccountModel>, amount: nat) -> Seq<AccountModel> {
    pre.update(0, AccountModel { balance: pre[0].balance + amount, ..pre[0] }).update(
        1,
        AccountModel { balance: (pre[1].balance - amount) as nat, ..pre[1] },
    )
}

/// The accounts after a transfer that was not refused: the vault created
/// where it had no storage, then the amount of the payload moved.
pub open spec fn settled(program: Seq<u8>, pre: Seq<AccountModel>, payload: Seq<u8>) -> Seq<
    AccountModel,
> {
    let ready = if lacks_storage(pre[0]) {
        created(program, pre)
    } else {
        pre
    };
    moved(ready, decoded(payload)->0.transfer_amount as nat)
}

/// The one thing that the machine asks of a transfer: where it is not
/// refused, the vault's balance with the amount added still fits the
/// ledger's 64-bit count. A refused transfer adds nothing and always
/// passes.
pub open spec fn within_limit(
    pre: Seq<AccountModel>,
    payload: Seq<u8>,
    authorized: bool,
    reply: LedgerReply,
) -> bool {
    refusal(pre, payload, authorized, reply) is None ==> pre[0].balance + decoded(
        payload,
    )->0.transfer_amount <= u64::MAX
}

/// Moves `amount` lamports from the source to the vault, the first two
/// accounts of the list. Both balances change or neither does: where the
/// source holds less than `amount` the call fails with `InsufficientFunds`,
/// and with `AccountMissing` where the list is shorter than two.
pub fn move_funds(accounts: &mut Vec<Account>, amount: u64) -> (r: Result<(), TransferError>)
    requires
        old(accounts)@.len() >= 2 && amount <= old(accounts)@[1].balance ==> old(
            accounts,
        )@[0].balance + amount <= u64::MAX,
    ensures
        final(accounts)@.len() == old(accounts)@.len(),
        match r {
            Ok(()) => {
                &&& old(accounts)@.len() >= 2
                &&& amount <= old(accounts)@[1].balance
                &&& ledger_view(final(accounts)@) == moved(
                    ledger_view(old(accounts)@),
                    amount as nat,
                )
            },
            Err(e) => {
                &&& final(accounts)@ == old(accounts)@
                &&& e == if old(accounts)@.len() < 2 {
                    TransferError::AccountMissing
                } else {
                    TransferError::InsufficientFunds
                }
                &&& old(accounts)@.len() < 2 || amount > old(accounts)@[1].balance
            },
        },
{
    if accounts.len() < 2 {
        return Err(TransferError::AccountMissing);
    }
    if amount > accounts[1].balance {
        return Err(TransferError::InsufficientFunds);
    }
    accounts[0].balance = accounts[0].balance + amount;
    accounts[1].balance = accounts[1].balance - amount;
    assert(ledger_view(accounts@) =~= moved(ledger_view(old(accounts)@), amount as nat));
    Ok(())
}

/// What the checks of a transfer established: the bump and the amount of the
/// payload, and whether the ledger must create the vault before the amount
/// can move.
#[derive(Clone, Copy, Debug, PartialEq, Eq, Structural)]
pub struct TransferPlan {
    pub bump: u8,
    pub amount: u64,
    pub create_vault: bool,
}

/// Runs every check that needs no answer from the ledger, in the order of
/// [`refusal`], and changes nothing. `authorized` says whether the vault and
/// the payload's bump are the derived ones; it is read only where the payload
/// decodes and three accounts are there.
pub fn validate(accounts: &Vec<Account>, instruction_data: &[u8], authorized: bool) -> (r: Result<
    TransferPlan,
    TransferError,
>)
    ensures
        match r {
            Ok(plan) => {
                &&& refusal(
                    ledger_view(accounts@),
                    instruction_data@,
                    authorized,
                    LedgerReply::Created,
                ) is None
                &&& decoded(instruction_data@) == Some(
                    InstructionData {
                        vault_bump_seed: plan.bump,
                        transfer_amount: plan.amount,
                    },
                )
                &&& plan.create_vault == lacks_storage(accounts@[0]@)
            },
            Err(e) => refusal(
                ledger_view(accounts@),
                instruction_data@,
                authorized,
                LedgerReply::Created,
            ) == Some(e),
        },
{
    let data = match decode(instruction_data) {
        Ok(data) => data,
        Err(e) => {
            return Err(e);
        },
    };
    if accounts.len() < ACCOUNTS_NEEDED {
        return Err(TransferError::AccountMissing);
    }
    if !authorized {
        return Err(TransferError::BumpMismatch);
    }
    let create_vault = accounts[VAULT_INDEX].lacks_storage();
    let available = accounts[SOURCE_INDEX].balance;
    if data.transfer_amount > available {
        return Err(TransferError::InsufficientFunds);
    }
    if create_vault && available - data.transfer_amount < VAULT_FUNDING {
        return Err(TransferError::InsufficientFunds);
    }
    Ok(TransferPlan { bump: data.vault_bump_seed, amount: data.transfer_amount, create_vault })
}

/// Gives the vault its storage and its owner and charges the source, as the
/// ledger does when it creates the account.
fn create_vault(program_id: &Identity, accounts: &mut Vec<Account>)
    requires
        old(accounts)@.len() >= 2,
        old(accounts)@[1].balance >= VAULT_FUNDING,
    ensures
        ledger_view(final(accounts)@) == created(program_id@, ledger_view(old(accounts)@)),
{
    accounts[VAULT_INDEX].data = vec![0u8; VAULT_SPACE];
    accounts[VAULT_INDEX].owner_program = *program_id;
    accounts[SOURCE_INDEX].balance = accounts[SOURCE_INDEX].balance - VAULT_FUNDING;
    assert(accounts@[0]@.data =~= Seq::new(VAULT_SPACE as nat, |i: int| 0u8));
    assert(ledger_view(accounts@) =~= created(program_id@, ledger_view(old(accounts)@)));
}

/// Executes a transfer on the accounts `[vault, source, system ledger]`,
/// given the two facts that only the outside can supply: whether the vault
/// and the payload's bump are the derived ones (`authorized`) and what the
/// ledger answered to the request to create the vault (`reply`, read only
/// where the vault has no storage).
///
/// The transfer is refused exactly as [`refusal`] says, and a refused
/// transfer leaves every account as it was. Otherwise the vault is created
/// where it had no storage, at the source's cost, and the amount moves from
/// the source to the vault; no other account changes.
pub fn execute(
    program_id: &Identity,
    accounts: &mut Vec<Account>,
    instruction_data: &[u8],
    authorized: bool,
    reply: LedgerReply,
) -> (r: Result<(), TransferError>)
    requires
        within_limit(ledger_view(old(accounts)@), instruction_data@, authorized, reply),
    ensures
        final(accounts)@.len() == old(accounts)@.len(),
        match r {
            Ok(()) => {
                &&& refusal(ledger_view(old(accounts)@), instruction_data@, authorized, reply) is None
                &&& ledger_view(final(accounts)@) == settled(
                    program_id@,
                    ledger_view(old(accounts)@),
                    instruction_data@,
                )
            },
            Err(e) => {
                &&& refusal(ledger_view(old(accounts)@), instruction_data@, authorized, reply)
                    == Some(e)
                &&& final(accounts)@ == old(accounts)@
            },
        },
{
    let plan = match validate(accounts, instruction_data, authorized) {
        Ok(plan) => plan,
        Err(e) => {
            return Err(e);
        },
    };
    let ghost pre = ledger_view(accounts@);
    if plan.create_vault {
        match reply {
            LedgerReply::Rejected => {
                return Err(TransferError::LedgerCreateFailed);
            },
            LedgerReply::Created => {
                create_vault(program_id, accounts);
            },
        }
    }
    let ghost ready = ledger_view(accounts@);
    assert(ready == if lacks_storage(pre[0]) {
        created(program_id@, pre)
    } else {
        pre
    });
    assert(ready[0].balance == pre[0].balance);
    assert(ready[1].balance == pre[1].balance - creation_cost(pre[0]));
    move_funds(accounts, plan.amount)
}

/// What the executor asks of the ledger before it can fill a vault that has
/// no storage: an account at the vault's address, paid for by the source,
/// of a fixed size, owned by the program, and authorised by the vault's
/// derivation in place of a signature.
#[derive(Clone, Debug, PartialEq, Eq)]
pub struct CreateRequest {
    pub funder: Identity,
    pub account: Identity,
    pub lamports: u64,
    pub space: u64,
    pub owner: Identity,
    pub authority: AuthorityProof,
}

/// `request` is the one request that a transfer with this payload makes for
/// these accounts under `program`.
pub open spec fn is_creation_request(
    request: CreateRequest,
    program: Seq<u8>,
    pre: Seq<AccountModel>,
    payload: Seq<u8>,
) -> bool {
    &&& request.funder@ == pre[1].address
    &&& request.account@ == pre[0].address
    &&& request.lamports == VAULT_FUNDING
    &&& request.space == VAULT_SPACE
    &&& request.owner@ == program
    &&& request.authority.seed_tag@ == VAULT_SEED_TAG@
    &&& request.authority.source@ == pre[1].address
    &&& request.authority.bump == decoded(payload)->0.vault_bump_seed
}

/// The seed tag as an owned buffer.
pub fn vault_seed_tag() -> (tag: Vec<u8>)
    ensures
        tag@ == VAULT_SEED_TAG@,
{
    let mut tag: Vec<u8> = Vec::new();
    let mut i: usize = 0;
    while i < 9
        invariant
            i <= 9,
            tag@ == VAULT_SEED_TAG@.subrange(0, i as int),
        decreases 9 - i,
    {
        tag.push(VAULT_SEED_TAG[i]);
        i = i + 1;
    }
    tag
}

/// Says what the ledger must do before [`execute`] can succeed: create the
/// vault, where the transfer passes every check and the vault has no
/// storage; nothing, where it passes them and the vault exists. A transfer
/// that fails a check is refused here as it is there.
pub fn plan_creation(
    program_id: &Identity,
    accounts: &Vec<Account>,
    instruction_data: &[u8],
    authorized: bool,
) -> (r: Result<Option<CreateRequest>, TransferError>)
    ensures
        match r {
            Ok(Some(request)) => {
                &&& refusal(
                    ledger_view(accounts@),
                    instruction_data@,
                    authorized,
                    LedgerReply::Created,
                ) is None
                &&& lacks_storage(accounts@[0]@)
                &&& is_creation_request(
                    request,
                    program_id@,
                    ledger_view(accounts@),
                    instruction_data@,
                )
            },
            Ok(None) => {
                &&& refusal(
                    ledger_view(accounts@),
                    instruction_data@,
                    authorized,
                    LedgerReply::Created,
                ) is None
                &&& !lacks_storage(accounts@[0]@)
            },
            Err(e) => refusal(
                ledger_view(accounts@),
                instruction_data@,
                authorized,
                LedgerReply::Created,
            ) == Some(e),
        },
{
    let plan = match validate(accounts, instruction_data, authorized) {
        Ok(plan) => plan,
        Err(e) => {
            return Err(e);
        },
    };
    if !plan.create_vault {
        return Ok(None);
    }
    let source = accounts[SOURCE_INDEX].address;
    Ok(
        Some(
            CreateRequest {
                funder: source,
                account: accounts[VAULT_INDEX].address,
                lamports: VAULT_FUNDING,
                space: VAULT_SPACE as u64,
                owner: *program_id,
                authority: AuthorityProof { seed_tag: vault_seed_tag(), source, bump: plan.bump },
            },
        ),
    )
}

/// The payload decodes, three accounts are there, and the derivation from
/// the seed tag, the source's address and `program` yields the vault's
/// address together with the payload's bump. No other bump passes for any
/// vault, also where it has an address of its own, and no other vault passes
/// for any bump.
pub open spec fn authorized(program: Seq<u8>, pre: Seq<AccountModel>, payload: Seq<u8>) -> bool {
    &&& decoded(payload) is Some
    &&& pre.len() >= 3
    &&& is_canonical(
        VAULT_SEED_TAG@,
        pre[1].address,
        program,
        pre[0].address,
        decoded(payload)->0.vault_bump_seed,
    )
}

/// Checks the vault and the payload's bump by running the derivation again
/// on the seed tag, the source's address and the program, and comparing
/// both with what it yields. A vault that passes is off the curve.
pub fn is_authorized(program_id: &Identity, accounts: &Vec<Account>, instruction_data: &[u8]) -> (r:
    bool)
    ensures
        r == authorized(program_id@, ledger_view(accounts@), instruction_data@),
        r ==> !on_curve(accounts@[0].address@),
{
    if accounts.len() < ACCOUNTS_NEEDED {
        return false;
    }
    match decode(instruction_data) {
        Ok(data) => {
            let proof = AuthorityProof {
                seed_tag: vault_seed_tag(),
                source: accounts[SOURCE_INDEX].address,
                bump: data.vault_bump_seed,
            };
            proof.authorizes(program_id, &accounts[VAULT_INDEX].address)
        },
        Err(_) => false,
    }
}

/// Whether a transfer stays within the ledger's 64-bit count, which is what
/// [`execute`] asks of its callers.
pub fn check_within_limit(
    accounts: &Vec<Account>,
    instruction_data: &[u8],
    authorized: bool,
    reply: LedgerReply,
) -> (r: bool)
    ensures
        r == within_limit(ledger_view(accounts@), instruction_data@, authorized, reply),
{
    match validate(accounts, instruction_data, authorized) {
        Ok(plan) => {
            let rejected = match reply {
                LedgerReply::Rejected => plan.create_vault,
                LedgerReply::Created => false,
            };
            rejected || accounts[VAULT_INDEX].balance <= u64::MAX - plan.amount
        },
        Err(_) => true,
    }
}

/// Processes one transfer instruction for `program_id` on the accounts
/// `[vault, source, system ledger]`: decodes the payload, checks the vault
/// and the bump against the derivation, run again here, and executes the
/// transfer as [`execute`] does. `reply` is the ledger's answer to the
/// request that [`creation_request`] made for the same arguments.
///
/// A transfer that succeeds went into the derived vault, with the derived
/// bump, and that vault is off the curve. Any other bump and any other vault
/// is refused with `BumpMismatch`, whatever the amount, and a refused
/// transfer changes nothing.
pub fn process_instruction(
    program_id: &Identity,
    accounts: &mut Vec<Account>,
    instruction_data: &[u8],
    reply: LedgerReply,
) -> (r: Result<(), TransferError>)
    requires
        within_limit(
            ledger_view(old(accounts)@),
            instruction_data@,
            authorized(program_id@, ledger_view(old(accounts)@), instruction_data@),
            reply,
        ),
    ensures
        final(accounts)@.len() == old(accounts)@.len(),
        match r {
            Ok(()) => {
                &&& refusal(
                    ledger_view(old(accounts)@),
                    instruction_data@,
                    authorized(program_id@, ledger_view(old(accounts)@), instruction_data@),
                    reply,
                ) is None
                &&& ledger_view(final(accounts)@) == settled(
                    program_id@,
                    ledger_view(old(accounts)@),
                    instruction_data@,
                )
                &&& derives(
                    VAULT_SEED_TAG@,
                    old(accounts)@[1].address@,
                    program_id@,
                    Some(
                        (old(accounts)@[0].address@, decoded(instruction_data@)->0.vault_bump_seed),
                    ),
                )
                &&& !on_curve(old(accounts)@[0].address@)
            },
            Err(e) => {
                &&& refusal(
                    ledger_view(old(accounts)@),
                    instruction_data@,
                    authorized(program_id@, ledger_view(old(accounts)@), instruction_data@),
                    reply,
                ) == Some(e)
                &&& final(accounts)@ == old(accounts)@
            },
        },
{
    let authorized = is_authorized(program_id, accounts, instruction_data);
    execute(program_id, accounts, instruction_data, authorized, reply)
}

/// Processes a transfer instruction as [`process_instruction`] does,
/// wherever the transfer stays within the ledger's 64-bit count. Where it
/// does not, which takes a transfer that nothing else refuses into a vault
/// that cannot hold the amount, the answer is `None` and nothing changes.
pub fn try_process_instruction(
    program_id: &Identity,
    accounts: &mut Vec<Account>,
    instruction_data: &[u8],
    reply: LedgerReply,
) -> (r: Option<Result<(), TransferError>>)
    ensures
        final(accounts)@.len() == old(accounts)@.len(),
        r is Some <==> within_limit(
            ledger_view(old(accounts)@),
            instruction_data@,
            authorized(program_id@, ledger_view(old(accounts)@), instruction_data@),
            reply,
        ),
        match r {
            Some(Ok(())) => {
                &&& refusal(
                    ledger_view(old(accounts)@),
                    instruction_data@,
                    authorized(program_id@, ledger_view(old(accounts)@), instruction_data@),
                    reply,
                ) is None
                &&& ledger_view(final(accounts)@) == settled(
                    program_id@,
                    ledger_view(old(accounts)@),
                    instruction_data@,
                )
                &&& derives(
                    VAULT_SEED_TAG@,
                    old(accounts)@[1].address@,
                    program_id@,
                    Some(
                        (old(accounts)@[0].address@, decoded(instruction_data@)->0.vault_bump_seed),
                    ),
                )
                &&& !on_curve(old(accounts)@[0].address@)
            },
            Some(Err(e)) => {
                &&& refusal(
                    ledger_view(old(accounts)@),
                    instruction_data@,
                    authorized(program_id@, ledger_view(old(accounts)@), instruction_data@),
                    reply,
                ) == Some(e)
                &&& final(accounts)@ == old(accounts)@
            },
            None => {
                &&& refusal(
                    ledger_view(old(accounts)@),
                    instruction_data@,
                    authorized(program_id@, ledger_view(old(accounts)@), instruction_data@),
                    reply,
                ) is None
                &&& final(accounts)@ == old(accounts)@
            },
        },
{
    let authorized = is_authorized(program_id, accounts, instruction_data);
    if !check_within_limit(accounts, instruction_data, authorized, reply) {
        return None;
    }
    Some(process_instruction(program_id, accounts, instruction_data, reply))
}

/// The request that the ledger must serve before [`process_instruction`]
/// can succeed on the same arguments, if there is one. None is made for a
/// transfer that a check refuses: not for a bump or a vault other than the
/// derived ones, and not for an amount that the source cannot cover.
pub fn creation_request(
    program_id: &Identity,
    accounts: &Vec<Account>,
    instruction_data: &[u8],
) -> (r: Result<Option<CreateRequest>, TransferError>)
    ensures
        match r {
            Ok(Some(request)) => {
                &&& refusal(
                    ledger_view(accounts@),
                    instruction_data@,
                    authorized(program_id@, ledger_view(accounts@), instruction_data@),
                    LedgerReply::Created,
                ) is None
                &&& lacks_storage(accounts@[0]@)
                &&& is_creation_request(
                    request,
                    program_id@,
                    ledger_view(accounts@),
                    instruction_data@,
                )
                &&& request.authority.proves(program_id@, request.account@)
            },
            Ok(None) => {
                &&& refusal(
                    ledger_view(accounts@),
                    instruction_data@,
                    authorized(program_id@, ledger_view(accounts@), instruction_data@),
                    LedgerReply::Created,
                ) is None
                &&& !lacks_storage(accounts@[0]@)
            },
            Err(e) => refusal(
                ledger_view(accounts@),
                instruction_data@,
                authorized(program_id@, ledger_view(accounts@), instruction_data@),
                LedgerReply::Created,
            ) == Some(e),
        },
{
    let authorized = is_authorized(program_id, accounts, instruction_data);
    plan_creation(program_id, accounts, instruction_data, authorized)
}

/// Moving an amount that the source holds takes it from the source, adds it
/// to the vault and leaves the sum of the two balances, and every other
/// account, as they were.
pub proof fn law_move_conserves(pre: Seq<AccountModel>, amount: nat)
    requires
        pre.len() >= 2,
        amount <= pre[1].balance,
    ensures
        moved(pre, amount).len() == pre.len(),
        moved(pre, amount)[0].balance - pre[0].balance == amount,
        pre[1].balance - moved(pre, amount)[1].balance == amount,
        moved(pre, amount)[0].balance + moved(pre, amount)[1].balance == pre[0].balance
            + pre[1].balance,
        forall|i: int| 2 <= i < pre.len() ==> moved(pre, amount)[i] == pre[i],
{
}

/// A transfer that is not refused moves exactly the payload's amount: the
/// vault gains it, the source loses it and, where the vault had to be
/// created, the cost of that besides. The two balances together lose that
/// cost and nothing else, and no other account changes.
pub proof fn law_conservation(
    program: Seq<u8>,
    pre: Seq<AccountModel>,
    payload: Seq<u8>,
    authorized: bool,
    reply: LedgerReply,
)
    requires
        refusal(pre, payload, authorized, reply) is None,
    ensures
        ({
            let post = settled(program, pre, payload);
            let amount = decoded(payload)->0.transfer_amount;
            &&& post.len() == pre.len()
            &&& post[0].balance - pre[0].balance == amount
            &&& pre[1].balance - post[1].balance == amount + creation_cost(pre[0])
            &&& post[0].balance + post[1].balance + creation_cost(pre[0]) == pre[0].balance
                + pre[1].balance
            &&& post[0].address == pre[0].address
            &&& post[1] == AccountModel { balance: post[1].balance, ..pre[1] }
            &&& forall|i: int| 2 <= i < pre.len() ==> post[i] == pre[i]
        }),
{
}

/// An amount above what the source holds is always refused, whatever the
/// ledger answers: with `InsufficientFunds` where the vault and the bump
/// are the derived ones, and for the bump, which is checked first, where
/// they are not.
pub proof fn law_insufficient_funds(
    pre: Seq<AccountModel>,
    payload: Seq<u8>,
    authorized: bool,
    reply: LedgerReply,
)
    requires
        decoded(payload) is Some,
        pre.len() >= 3,
        decoded(payload)->0.transfer_amount > pre[1].balance,
    ensures
        refusal(pre, payload, authorized, reply) == Some(
            if authorized {
                TransferError::InsufficientFunds
            } else {
                TransferError::BumpMismatch
            },
        ),
{
}

/// A payload with another bump than the derived one is refused with
/// `BumpMismatch`, whichever vault is supplied with it and whatever the
/// amount and the balances are: where the derivation from the seed tag, the
/// source's address and the program yields `bump`, every other bump fails.
pub proof fn law_bump_mismatch(
    program: Seq<u8>,
    pre: Seq<AccountModel>,
    payload: Seq<u8>,
    vault: Seq<u8>,
    bump: u8,
    reply: LedgerReply,
)
    requires
        decoded(payload) is Some,
        pre.len() >= 3,
        is_canonical(VAULT_SEED_TAG@, pre[1].address, program, vault, bump),
        decoded(payload)->0.vault_bump_seed != bump,
    ensures
        !authorized(program, pre, payload),
        refusal(pre, payload, authorized(program, pre, payload), reply) == Some(
            TransferError::BumpMismatch,
        ),
{
    if authorized(program, pre, payload) {
        law_derivation_deterministic(
            VAULT_SEED_TAG@,
            pre[1].address,
            program,
            Some((vault, bump)),
            Some((pre[0].address, decoded(payload)->0.vault_bump_seed)),
        );
    }
}

/// A transfer passes the bump check only for what the derivation yields:
/// whatever the derivation's outcome for the seed tag, the source's address
/// and the program is, a transfer is authorized exactly where that outcome
/// is the supplied vault with the payload's bump. So a vault other than the
/// derived one is refused with any bump, and every transfer is refused
/// where the derivation is exhausted.
pub proof fn law_authorized_is_derived(
    program: Seq<u8>,
    pre: Seq<AccountModel>,
    payload: Seq<u8>,
    outcome: Option<(Seq<u8>, u8)>,
)
    requires
        decoded(payload) is Some,
        pre.len() >= 3,
        derives(VAULT_SEED_TAG@, pre[1].address, program, outcome),
    ensures
        authorized(program, pre, payload) <==> outcome == Some(
            (pre[0].address, decoded(payload)->0.vault_bump_seed),
        ),
{
    if authorized(program, pre, payload) {
        law_derivation_deterministic(
            VAULT_SEED_TAG@,
            pre[1].address,
            program,
            outcome,
            Some((pre[0].address, decoded(payload)->0.vault_bump_seed)),
        );
    }
}

/// The derived bump, encoded into the payload, passes the bump check for the
/// derived vault.
pub proof fn law_derived_bump_accepted(
    program: Seq<u8>,
    pre: Seq<AccountModel>,
    bump: u8,
    amount: u64,
)
    requires
        pre.len() >= 3,
        is_canonical(VAULT_SEED_TAG@, pre[1].address, program, pre[0].address, bump),
    ensures
        authorized(program, pre, encoded(bump, amount)),
{
    law_round_trip(bump, amount);
}

} // verus!
