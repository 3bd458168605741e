//! The ledger model the handlers work on: each named account is a plain
//! value with an address, a balance, an owner tag, a data buffer, and a flag
//! saying whether it signed the current request. The caller reads these from
//! the runtime before a handler runs and writes the changes back after.
use vstd::prelude::*;

verus! {

/// The state of one ledger account as the escrow logic sees it.
pub struct AccountState {
    /// The account's 32-byte address.
    pub key: Vec<u8>,
    /// Balance in native value units.
    pub lamports: u64,
    /// 32-byte identity of the program that owns the account.
    pub owner: Vec<u8>,
    /// The account's raw data buffer.
    pub data: Vec<u8>,
    /// Whether this account signed the request being processed.
    pub is_signer: bool,
}

impl AccountState {
    /// Addresses and owner tags are 32-byte values.
    pub open spec fn wf(self) -> bool {
        self.key@.len() == 32 && self.owner@.len() == 32
    }
}

/// Two account states that agree on everything except, possibly, the balance.
pub open spec fn same_but_lamports(a: AccountState, b: AccountState) -> bool {
    &&& a.key == b.key
    &&& a.owner == b.owner
    &&& a.data == b.data
    &&& a.is_signer == b.is_signer
}

/// Why a request was refused. Every failure is terminal and synchronous, and
/// a handler that fails mutates no account.
#[derive(Clone, Copy, Debug, PartialEq, Eq, Structural)]
pub enum EscrowError {
    /// Unknown opcode, or a payload that fails to decode.
    MalformedRequest,
    /// Creation requested with zero value.
    InvalidAmount,
    /// A required signer did not sign.
    MissingSignature,
    /// The supplied escrow account is not the derived address for the
    /// identity pair, or no address can be derived for it.
    InvalidDerivedAddress,
    /// Release requested on a zero-balance (already closed) account.
    AlreadyReleased,
    /// The escrow account's owner tag is not this program.
    NotOwnedByProgram,
    /// The stored bytes do not decode as an escrow record.
    RecordDecodeFailed,
    /// The stored record has its initialized flag cleared.
    UninitializedRecord,
    /// The stored issue number differs from the request's.
    IssueMismatch,
    /// The stored repository hash differs from the request's.
    RepoHashMismatch,
    /// The external creation primitive refuses the call: the target account
    /// is already funded, or the payer cannot fund it.
    CreationFailed,
    /// A balance computation would overflow or underflow a 64-bit counter.
    ArithmeticError,
}

} // verus!
