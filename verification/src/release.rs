//! The escrow release handler: validates the request against the stored
//! record, transfers the held value to the recipient, and returns the
//! residual deposit to the authority, closing the escrow account at a zero
//! balance.
use crate::addr::derive_escrow_address;
use crate::addr::escrow_seeds;
use crate::addr::find_pda;
use crate::codec::bytes_eq;
use crate::codec::parse_record;
use crate::codec::parse_record_spec;
use crate::codec::ReleaseEscrowInstruction;
use crate::state::same_but_lamports;
use crate::state::AccountState;
use crate::state::EscrowError;
use vstd::prelude::*;

verus! {

/// The decision the release handler makes, checked in order: a zero balance
/// means the escrow was already released; the authority must sign; the
/// escrow account must sit at the derived address and be owned by the
/// program; its stored record must decode, be initialized, and corroborate
/// the request's issue number and repository hash; and the two credits must
/// fit in 64-bit balances.
pub open spec fn release_outcome(
    pid: Seq<u8>,
    escrow: AccountState,
    recipient: AccountState,
    authority: AccountState,
    repo_hash: Seq<u8>,
    issue_number: u64,
) -> Result<(), EscrowError> {
    if escrow.lamports == 0 {
        Err(EscrowError::AlreadyReleased)
    } else if !authority.is_signer {
        Err(EscrowError::MissingSignature)
    } else {
        match find_pda(escrow_seeds(repo_hash, issue_number), pid) {
            None => Err(EscrowError::InvalidDerivedAddress),
            Some((pda, bump)) => {
                if pda != escrow.key@ {
                    Err(EscrowError::InvalidDerivedAddress)
                } else if escrow.owner@ != pid {
                    Err(EscrowError::NotOwnedByProgram)
                } else {
                    match parse_record_spec(escrow.data@) {
                        None => Err(EscrowError::RecordDecodeFailed),
                        Some((initialized, stored_repo, stored_issue, amount)) => {
                            if !initialized {
                                Err(EscrowError::UninitializedRecord)
                            } else if stored_issue != issue_number {
                                Err(EscrowError::IssueMismatch)
                            } else if stored_repo != repo_hash {
                                Err(EscrowError::RepoHashMismatch)
                            } else if amount > escrow.lamports {
                                Err(EscrowError::ArithmeticError)
                            } else if recipient.lamports + amount > u64::MAX {
                                Err(EscrowError::ArithmeticError)
                            } else if authority.lamports + (escrow.lamports - amount)
                                > u64::MAX {
                                Err(EscrowError::ArithmeticError)
                            } else {
                                Ok(())
                            }
                        },
                    }
                }
            },
        }
    }
}

/// The value a valid stored record holds in escrow.
pub open spec fn stored_amount(escrow: AccountState) -> u64 {
    parse_record_spec(escrow.data@)->Some_0.3
}

/// What a successful release does: the recipient gains exactly the stored
/// amount, the authority gains the rest of the escrow account's pre-release
/// balance, and the escrow account ends at balance zero with its bytes left
/// in place. Nothing else about the three accounts changes.
pub open spec fn release_effect(
    escrow0: AccountState,
    recipient0: AccountState,
    authority0: AccountState,
    escrow1: AccountState,
    recipient1: AccountState,
    authority1: AccountState,
    amount: u64,
) -> bool {
    &&& same_but_lamports(escrow1, escrow0)
    &&& escrow1.lamports == 0
    &&& same_but_lamports(recipient1, recipient0)
    &&& recipient1.lamports == recipient0.lamports + amount
    &&& same_but_lamports(authority1, authority0)
    &&& authority1.lamports == authority0.lamports + (escrow0.lamports - amount)
}

/// Releases the escrow: transfers the stored amount to the recipient and the
/// residual deposit to the authority, leaving the escrow account at balance
/// zero. The result equals `release_outcome`, a refused request mutates
/// nothing, and a successful one performs exactly `release_effect` with the
/// stored amount.
pub fn release_escrow(
    program_id: &Vec<u8>,
    escrow_account: &mut AccountState,
    recipient: &mut AccountState,
    authority: &mut AccountState,
    instruction: &ReleaseEscrowInstruction,
) -> (r: Result<(), EscrowError>)
    requires
        program_id@.len() == 32,
        instruction.repo_hash@.len() == 32,
    ensures
        r == release_outcome(
            program_id@,
            *old(escrow_account),
            *old(recipient),
            *old(authority),
            instruction.repo_hash@,
            instruction.issue_number,
        ),
        r is Err ==> *final(escrow_account) == *old(escrow_account) && *final(recipient) == *old(
            recipient,
        ) && *final(authority) == *old(authority),
        r is Ok ==> release_effect(
            *old(escrow_account),
            *old(recipient),
            *old(authority),
            *final(escrow_account),
            *final(recipient),
            *final(authority),
            stored_amount(*old(escrow_account)),
        ),
{
    if escrow_account.lamports == 0 {
        return Err(EscrowError::AlreadyReleased);
    }
    if !authority.is_signer {
        return Err(EscrowError::MissingSignature);
    }
    let derived = derive_escrow_address(program_id, &instruction.repo_hash, instruction.issue_number);
    match derived {
        None => Err(EscrowError::InvalidDerivedAddress),
        Some((pda, _bump)) => {
            if !bytes_eq(&pda, &escrow_account.key) {
                return Err(EscrowError::InvalidDerivedAddress);
            }
            if !bytes_eq(&escrow_account.owner, program_id) {
                return Err(EscrowError::NotOwnedByProgram);
            }
            match parse_record(escrow_account.data.as_slice()) {
                None => Err(EscrowError::RecordDecodeFailed),
                Some(record) => {
                    if !record.is_initialized {
                        return Err(EscrowError::UninitializedRecord);
                    }
                    if record.issue_number != instruction.issue_number {
                        return Err(EscrowError::IssueMismatch);
                    }
                    if !bytes_eq(&record.repo_hash, &instruction.repo_hash) {
                        return Err(EscrowError::RepoHashMismatch);
                    }
                    if record.amount > escrow_account.lamports {
                        return Err(EscrowError::ArithmeticError);
                    }
                    if recipient.lamports > u64::MAX - record.amount {
                        return Err(EscrowError::ArithmeticError);
                    }
                    let after_bounty = escrow_account.lamports - record.amount;
                    if authority.lamports > u64::MAX - after_bounty {
                        return Err(EscrowError::ArithmeticError);
                    }
                    recipient.lamports = recipient.lamports + record.amount;
                    authority.lamports = authority.lamports + after_bounty;
                    escrow_account.lamports = 0;
                    Ok(())
                },
            }
        },
    }
}

/// An escrow account as a successful creation leaves it — holding the rent
/// minimum plus the amount, and storing the initialized record — corroborates
/// a release request for the same repository hash and issue number: once the
/// release's account-level checks hold (a signing authority, the derived
/// address, program ownership) and the two credits fit in 64-bit balances,
/// the release succeeds and pays out exactly the created amount.
pub proof fn lemma_create_then_release(
    pid: Seq<u8>,
    escrow: AccountState,
    recipient: AccountState,
    authority: AccountState,
    repo_hash: Seq<u8>,
    issue_number: u64,
    amount: u64,
    rent_minimum: u64,
)
    requires
        repo_hash.len() == 32,
        amount > 0,
        rent_minimum + amount <= u64::MAX,
        escrow.lamports == rent_minimum + amount,
        escrow.data@ == crate::codec::record_bytes(true, repo_hash, issue_number, amount),
        authority.is_signer,
        match find_pda(escrow_seeds(repo_hash, issue_number), pid) {
            Some((pda, bump)) => pda == escrow.key@,
            None => false,
        },
        escrow.owner@ == pid,
        recipient.lamports + amount <= u64::MAX,
        authority.lamports + rent_minimum <= u64::MAX,
    ensures
        release_outcome(pid, escrow, recipient, authority, repo_hash, issue_number) == Ok::<
            (),
            EscrowError,
        >(()),
        stored_amount(escrow) == amount,
{
    crate::codec::lemma_record_round_trip(true, repo_hash, issue_number, amount);
}

/// Release on a zero-balance escrow always fails with `AlreadyReleased`,
/// whatever the request and the other accounts hold.
pub proof fn lemma_released_is_final(
    pid: Seq<u8>,
    escrow: AccountState,
    recipient: AccountState,
    authority: AccountState,
    repo_hash: Seq<u8>,
    issue_number: u64,
)
    requires
        escrow.lamports == 0,
    ensures
        release_outcome(pid, escrow, recipient, authority, repo_hash, issue_number) == Err::<
            (),
            EscrowError,
        >(EscrowError::AlreadyReleased),
{
}

/// A stored record that does not corroborate the request fails with the
/// matching error — `IssueMismatch` when the issue numbers differ, and
/// `RepoHashMismatch` when the issue numbers agree but the repository hashes
/// differ — once the account-level checks (balance, signer, address, owner,
/// a decoded and initialized record) pass.
pub proof fn lemma_mismatch_refused(
    pid: Seq<u8>,
    escrow: AccountState,
    recipient: AccountState,
    authority: AccountState,
    repo_hash: Seq<u8>,
    issue_number: u64,
)
    requires
        escrow.lamports != 0,
        authority.is_signer,
        match find_pda(escrow_seeds(repo_hash, issue_number), pid) {
            Some((pda, bump)) => pda == escrow.key@,
            None => false,
        },
        escrow.owner@ == pid,
        parse_record_spec(escrow.data@) is Some,
        parse_record_spec(escrow.data@)->Some_0.0,
        parse_record_spec(escrow.data@)->Some_0.2 != issue_number || parse_record_spec(
            escrow.data@,
        )->Some_0.1 != repo_hash,
    ensures
        parse_record_spec(escrow.data@)->Some_0.2 != issue_number ==> release_outcome(
            pid,
            escrow,
            recipient,
            authority,
            repo_hash,
            issue_number,
        ) == Err::<(), EscrowError>(EscrowError::IssueMismatch),
        parse_record_spec(escrow.data@)->Some_0.2 == issue_number && parse_record_spec(
            escrow.data@,
        )->Some_0.1 != repo_hash ==> release_outcome(
            pid,
            escrow,
            recipient,
            authority,
            repo_hash,
            issue_number,
        ) == Err::<(), EscrowError>(EscrowError::RepoHashMismatch),
{
}

} // verus!
