//! The instruction dispatcher: reads the first byte of the request buffer as
//! an opcode, decodes the opcode's payload, and routes to the creation or
//! release handler. Anything unrecognized is refused before a handler runs.
use crate::codec::parse_create_instruction;
use crate::codec::parse_create_spec;
use crate::codec::parse_release_instruction;
use crate::codec::parse_release_spec;
use crate::create::create_effect;
use crate::create::create_escrow;
use crate::create::create_outcome;
use crate::release::release_effect;
use crate::release::release_escrow;
use crate::release::release_outcome;
use crate::release::stored_amount;
use crate::state::AccountState;
use crate::state::EscrowError;
use vstd::prelude::*;
use vstd::slice::slice_subrange;

verus! {

/// The decision one invocation makes. An empty buffer, an unknown opcode, or
/// a payload of the wrong size is `MalformedRequest`; opcode 0 decides as
/// the creation handler with accounts (payer, escrow, unused); opcode 1 as
/// the release handler with accounts (escrow, recipient, authority).
pub open spec fn dispatch_outcome(
    pid: Seq<u8>,
    account_a: AccountState,
    account_b: AccountState,
    account_c: AccountState,
    data: Seq<u8>,
    rent_minimum: u64,
) -> Result<(), EscrowError> {
    if data.len() == 0 {
        Err(EscrowError::MalformedRequest)
    } else if data[0] == 0u8 {
        match parse_create_spec(data.skip(1)) {
            None => Err(EscrowError::MalformedRequest),
            Some((repo_hash, issue_number, amount)) => create_outcome(
                pid,
                account_a,
                account_b,
                repo_hash,
                issue_number,
                amount,
                rent_minimum,
            ),
        }
    } else if data[0] == 1u8 {
        match parse_release_spec(data.skip(1)) {
            None => Err(EscrowError::MalformedRequest),
            Some((repo_hash, issue_number)) => release_outcome(
                pid,
                account_a,
                account_b,
                account_c,
                repo_hash,
                issue_number,
            ),
        }
    } else {
        Err(EscrowError::MalformedRequest)
    }
}

/// Processes one request against the three accounts named with it, in the
/// fixed order the opcode assigns: create names (payer, escrow, collaborator)
/// and release names (escrow, recipient, authority). The result equals
/// `dispatch_outcome`; a refused request mutates nothing; a successful create
/// performs exactly `create_effect` on the first two accounts and a
/// successful release exactly `release_effect` on the three.
pub fn process_instruction(
    program_id: &Vec<u8>,
    account_a: &mut AccountState,
    account_b: &mut AccountState,
    account_c: &mut AccountState,
    instruction_data: &[u8],
    rent_minimum: u64,
) -> (r: Result<(), EscrowError>)
    requires
        program_id@.len() == 32,
    ensures
        r == dispatch_outcome(
            program_id@,
            *old(account_a),
            *old(account_b),
            *old(account_c),
            instruction_data@,
            rent_minimum,
        ),
        r is Err ==> *final(account_a) == *old(account_a) && *final(account_b) == *old(account_b)
            && *final(account_c) == *old(account_c),
        r is Ok && instruction_data@[0] == 0u8 ==> *final(account_c) == *old(account_c),
        r is Ok && instruction_data@[0] == 0u8 ==> create_effect(
            program_id@,
            *old(account_a),
            *old(account_b),
            *final(account_a),
            *final(account_b),
            parse_create_spec(instruction_data@.skip(1))->Some_0.0,
            parse_create_spec(instruction_data@.skip(1))->Some_0.1,
            parse_create_spec(instruction_data@.skip(1))->Some_0.2,
            rent_minimum,
        ),
        r is Ok && instruction_data@[0] == 1u8 ==> release_effect(
            *old(account_a),
            *old(account_b),
            *old(account_c),
            *final(account_a),
            *final(account_b),
            *final(account_c),
            stored_amount(*old(account_a)),
        ),
{
    if instruction_data.len() == 0 {
        return Err(EscrowError::MalformedRequest);
    }
    let opcode = *vstd::slice::slice_index_get(instruction_data, 0);
    let payload = slice_subrange(instruction_data, 1, instruction_data.len());
    if opcode == 0 {
        match parse_create_instruction(payload) {
            None => Err(EscrowError::MalformedRequest),
            Some(instruction) => create_escrow(
                program_id,
                account_a,
                account_b,
                &instruction,
                rent_minimum,
            ),
        }
    } else if opcode == 1 {
        match parse_release_instruction(payload) {
            None => Err(EscrowError::MalformedRequest),
            Some(instruction) => release_escrow(
                program_id,
                account_a,
                account_b,
                account_c,
                &instruction,
            ),
        }
    } else {
        Err(EscrowError::MalformedRequest)
    }
}

} // verus!
