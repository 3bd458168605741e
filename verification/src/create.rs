//! The escrow creation handler: validates the request, derives the canonical
//! escrow address, and models the external creation primitive that allocates,
//! funds, and assigns the escrow account before the record is written.
use crate::addr::derive_escrow_address;
use crate::addr::escrow_seeds;
use crate::addr::find_pda;
use crate::codec::bytes_eq;
use crate::codec::copy_bytes;
use crate::codec::record_bytes;
use crate::codec::serialize_record;
use crate::codec::CreateEscrowInstruction;
use crate::codec::EscrowAccount;
use crate::state::same_but_lamports;
use crate::state::AccountState;
use crate::state::EscrowError;
use vstd::prelude::*;

verus! {

/// The decision the creation handler makes, checked in order: a zero amount,
/// a payer that did not sign, and an escrow address that is not the derived
/// address each refuse the request; then the total funding must fit in 64
/// bits, and the creation primitive itself refuses a target account that
/// already holds a balance or a payer that cannot fund the total.
pub open spec fn create_outcome(
    pid: Seq<u8>,
    payer: AccountState,
    escrow: AccountState,
    repo_hash: Seq<u8>,
    issue_number: u64,
    amount: u64,
    rent_minimum: u64,
) -> Result<(), EscrowError> {
    if amount == 0 {
        Err(EscrowError::InvalidAmount)
    } else if !payer.is_signer {
        Err(EscrowError::MissingSignature)
    } else {
        match find_pda(escrow_seeds(repo_hash, issue_number), pid) {
            None => Err(EscrowError::InvalidDerivedAddress),
            Some((pda, bump)) => {
                if pda != escrow.key@ {
                    Err(EscrowError::InvalidDerivedAddress)
                } else if rent_minimum + amount > u64::MAX {
                    Err(EscrowError::ArithmeticError)
                } else if escrow.lamports != 0 {
                    Err(EscrowError::CreationFailed)
                } else if payer.lamports < rent_minimum + amount {
                    Err(EscrowError::CreationFailed)
                } else {
                    Ok(())
                }
            },
        }
    }
}

/// What a successful creation does: the payer funds the escrow account with
/// the rent minimum plus the escrow amount, the account becomes owned by the
/// program, and its buffer holds the initialized record. Nothing else about
/// either account changes.
pub open spec fn create_effect(
    pid: Seq<u8>,
    payer0: AccountState,
    escrow0: AccountState,
    payer1: AccountState,
    escrow1: AccountState,
    repo_hash: Seq<u8>,
    issue_number: u64,
    amount: u64,
    rent_minimum: u64,
) -> bool {
    &&& escrow1.key == escrow0.key
    &&& escrow1.is_signer == escrow0.is_signer
    &&& escrow1.lamports == rent_minimum + amount
    &&& escrow1.owner@ == pid
    &&& escrow1.data@ == record_bytes(true, repo_hash, issue_number, amount)
    &&& same_but_lamports(payer1, payer0)
    &&& payer1.lamports == payer0.lamports - (rent_minimum + amount)
}

/// Creates the escrow account for the request's repository/issue pair,
/// funding it from the payer with the rent minimum plus the escrow amount
/// and writing the initialized record into its buffer. The result equals
/// `create_outcome`, a refused request mutates nothing, and a successful one
/// performs exactly `create_effect`.
pub fn create_escrow(
    program_id: &Vec<u8>,
    payer: &mut AccountState,
    escrow_account: &mut AccountState,
    instruction: &CreateEscrowInstruction,
    rent_minimum: u64,
) -> (r: Result<(), EscrowError>)
    requires
        program_id@.len() == 32,
        instruction.repo_hash@.len() == 32,
    ensures
        r == create_outcome(
            program_id@,
            *old(payer),
            *old(escrow_account),
            instruction.repo_hash@,
            instruction.issue_number,
            instruction.amount,
            rent_minimum,
        ),
        r is Err ==> *final(payer) == *old(payer) && *final(escrow_account) == *old(
            escrow_account,
        ),
        r is Ok ==> create_effect(
            program_id@,
            *old(payer),
            *old(escrow_account),
            *final(payer),
            *final(escrow_account),
            instruction.repo_hash@,
            instruction.issue_number,
            instruction.amount,
            rent_minimum,
        ),
        r is Ok ==> final(escrow_account).wf(),
{
    if instruction.amount == 0 {
        return Err(EscrowError::InvalidAmount);
    }
    if !payer.is_signer {
        return Err(EscrowError::MissingSignature);
    }
    let derived = derive_escrow_address(program_id, &instruction.repo_hash, instruction.issue_number);
    match derived {
        None => Err(EscrowError::InvalidDerivedAddress),
        Some((pda, _bump)) => {
            if !bytes_eq(&pda, &escrow_account.key) {
                return Err(EscrowError::InvalidDerivedAddress);
            }
            if rent_minimum > u64::MAX - instruction.amount {
                return Err(EscrowError::ArithmeticError);
            }
            let total = rent_minimum + instruction.amount;
            if escrow_account.lamports != 0 {
                return Err(EscrowError::CreationFailed);
            }
            if payer.lamports < total {
                return Err(EscrowError::CreationFailed);
            }
            payer.lamports = payer.lamports - total;
            escrow_account.lamports = total;
            escrow_account.owner = copy_bytes(program_id);
            let record = EscrowAccount {
                is_initialized: true,
                repo_hash: copy_bytes(&instruction.repo_hash),
                issue_number: instruction.issue_number,
                amount: instruction.amount,
            };
            escrow_account.data = serialize_record(&record);
            Ok(())
        },
    }
}

/// Creation with a zero amount always fails with `InvalidAmount`, whatever
/// the accounts and the rest of the request hold.
pub proof fn lemma_zero_amount_refused(
    pid: Seq<u8>,
    payer: AccountState,
    escrow: AccountState,
    repo_hash: Seq<u8>,
    issue_number: u64,
    rent_minimum: u64,
)
    ensures
        create_outcome(pid, payer, escrow, repo_hash, issue_number, 0, rent_minimum) == Err::<
            (),
            EscrowError,
        >(EscrowError::InvalidAmount),
{
}

/// Creation against an escrow account whose address is not the derived
/// address fails with `InvalidDerivedAddress`, for any positive amount and
/// any balances, once the earlier checks (a nonzero amount, a signing payer)
/// pass.
pub proof fn lemma_wrong_address_refused(
    pid: Seq<u8>,
    payer: AccountState,
    escrow: AccountState,
    repo_hash: Seq<u8>,
    issue_number: u64,
    amount: u64,
    rent_minimum: u64,
)
    requires
        amount != 0,
        payer.is_signer,
        match find_pda(escrow_seeds(repo_hash, issue_number), pid) {
            Some((pda, bump)) => pda != escrow.key@,
            None => true,
        },
    ensures
        create_outcome(pid, payer, escrow, repo_hash, issue_number, amount, rent_minimum) == Err::<
            (),
            EscrowError,
        >(EscrowError::InvalidDerivedAddress),
{
}

} // verus!
