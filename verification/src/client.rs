use crate::derivation::{derives, on_curve};
use crate::error::TransferError;
use crate::executor::{vault_seed_tag, VAULT_SEED_TAG};
use crate::identity::Identity;
use crate::payload::{encode, encoded};
use vstd::prelude::*;

verus! {

/// One entry of the account list that goes with an instruction: the
/// account's address, whether it signs the transaction and whether the
/// instruction may write to it.
#[derive(Clone, Copy, Debug, PartialEq, Eq)]
pub struct AccountMeta {
    pub address: Identity,
    pub is_signer: bool,
    pub is_writable: bool,
}

/// What a client submits for one transfer: the program to run, the accounts
/// it works on and the encoded payload.
#[derive(Clone, Debug, PartialEq, Eq)]
pub struct TransferRequest {
    pub program: Identity,
    pub accounts: Vec<AccountMeta>,
    pub payload: Vec<u8>,
}

/// `request` is the request for moving `amount` from `source` into `vault`
/// with `bump`: the accounts are the vault, the source and the system
/// ledger's account, in this order and all writable; only the source signs;
/// the payload is the encoding of the bump and the amount.
pub open spec fn is_transfer_request(
    request: TransferRequest,
    program: Identity,
    vault: Identity,
    bump: u8,
    source: Identity,
    system_ledger: Identity,
    amount: u64,
) -> bool {
    &&& request.program == program
    &&& request.accounts@ == seq![
        AccountMeta { address: vault, is_signer: false, is_writable: true },
        AccountMeta { address: source, is_signer: true, is_writable: true },
        AccountMeta { address: system_ledger, is_signer: false, is_writable: true },
    ]
    &&& request.payload@ == encoded(bump, amount)
}

/// Assembles the request for a vault and a bump that are already known.
pub fn assemble(
    program: &Identity,
    vault: &Identity,
    bump: u8,
    source: &Identity,
    system_ledger: &Identity,
    amount: u64,
) -> (request: TransferRequest)
    ensures
        is_transfer_request(request, *program, *vault, bump, *source, *system_ledger, amount),
        request.payload@.len() == 9,
{
    let mut accounts: Vec<AccountMeta> = Vec::new();
    accounts.push(AccountMeta { address: *vault, is_signer: false, is_writable: true });
    accounts.push(AccountMeta { address: *source, is_signer: true, is_writable: true });
    accounts.push(AccountMeta { address: *system_ledger, is_signer: false, is_writable: true });
    let request = TransferRequest { program: *program, accounts, payload: encode(bump, amount) };
    assert(request.accounts@ =~= seq![
        AccountMeta { address: *vault, is_signer: false, is_writable: true },
        AccountMeta { address: *source, is_signer: true, is_writable: true },
        AccountMeta { address: *system_ledger, is_signer: false, is_writable: true },
    ]);
    request
}

/// Prepares the transfer of `amount` lamports from `source` into its vault
/// under `program`: derives the vault and its bump from the seed tag and
/// assembles the request for them. The vault of the request is off the
/// curve. Fails with `DerivationExhausted` exactly where the derivation
/// does.
pub fn prepare_transfer(
    program: &Identity,
    source: &Identity,
    system_ledger: &Identity,
    amount: u64,
) -> (r: Result<TransferRequest, TransferError>)
    ensures
        match r {
            Ok(request) => {
                &&& request.accounts@.len() == 3
                &&& request.payload@.len() == 9
                &&& derives(
                    VAULT_SEED_TAG@,
                    source@,
                    program@,
                    Some((request.accounts@[0].address@, request.payload@[0])),
                )
                &&& !on_curve(request.accounts@[0].address@)
                &&& is_transfer_request(
                    request,
                    *program,
                    request.accounts@[0].address,
                    request.payload@[0],
                    *source,
                    *system_ledger,
                    amount,
                )
            },
            Err(e) => {
                &&& e == TransferError::DerivationExhausted
                &&& derives(VAULT_SEED_TAG@, source@, program@, None)
            },
        },
{
    let tag = vault_seed_tag();
    match crate::derivation::derive(tag.as_slice(), source, program) {
        Ok((vault, bump)) => Ok(assemble(program, &vault, bump, source, system_ledger, amount)),
        Err(e) => Err(e),
    }
}

} // verus!
