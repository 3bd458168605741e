//! The wire layout shared by requests and the persisted escrow record: a
//! one-byte boolean flag, 32-byte opaque hashes, and little-endian 64-bit
//! integers, concatenated in field order with no padding.
use vstd::prelude::*;
use vstd::bytes::lemma_auto_spec_u64_to_from_le_bytes;
use vstd::bytes::spec_u64_from_le_bytes;
use vstd::bytes::spec_u64_to_le_bytes;
use vstd::bytes::u64_from_le_bytes;
use vstd::bytes::u64_to_le_bytes;
use vstd::slice::slice_subrange;

verus! {

/// Payload of a request to create an escrow: the repository hash, the issue
/// number, and the value to hold in escrow.
pub struct CreateEscrowInstruction {
    pub repo_hash: Vec<u8>,
    pub issue_number: u64,
    pub amount: u64,
}

/// Payload of a request to release an escrow: the repository hash and the
/// issue number the stored record must corroborate.
pub struct ReleaseEscrowInstruction {
    pub repo_hash: Vec<u8>,
    pub issue_number: u64,
}

/// The escrow record as persisted in the escrow account's data buffer.
pub struct EscrowAccount {
    pub is_initialized: bool,
    pub repo_hash: Vec<u8>,
    pub issue_number: u64,
    pub amount: u64,
}

/// Serialized size of an `EscrowAccount`: 1 + 32 + 8 + 8 bytes.
pub const ESCROW_RECORD_LEN: usize = 49;

/// The serialized form of an escrow record: flag byte, repository hash,
/// then the two integers in little-endian order.
pub open spec fn record_bytes(
    initialized: bool,
    repo_hash: Seq<u8>,
    issue_number: u64,
    amount: u64,
) -> Seq<u8> {
    seq![if initialized { 1u8 } else { 0u8 }] + repo_hash + spec_u64_to_le_bytes(issue_number)
        + spec_u64_to_le_bytes(amount)
}

/// Decoding of a stored record: defined exactly on 49-byte buffers whose
/// flag byte is 0 or 1; yields (initialized, repo_hash, issue_number, amount).
pub open spec fn parse_record_spec(s: Seq<u8>) -> Option<(bool, Seq<u8>, u64, u64)> {
    if s.len() == 49 && (s[0] == 0u8 || s[0] == 1u8) {
        Some(
            (
                s[0] == 1u8,
                s.subrange(1, 33),
                spec_u64_from_le_bytes(s.subrange(33, 41)),
                spec_u64_from_le_bytes(s.subrange(41, 49)),
            ),
        )
    } else {
        None
    }
}

/// Decoding of a create request payload: defined exactly on 48-byte buffers;
/// yields (repo_hash, issue_number, amount).
pub open spec fn parse_create_spec(s: Seq<u8>) -> Option<(Seq<u8>, u64, u64)> {
    if s.len() == 48 {
        Some(
            (
                s.subrange(0, 32),
                spec_u64_from_le_bytes(s.subrange(32, 40)),
                spec_u64_from_le_bytes(s.subrange(40, 48)),
            ),
        )
    } else {
        None
    }
}

/// Decoding of a release request payload: defined exactly on 40-byte buffers;
/// yields (repo_hash, issue_number).
pub open spec fn parse_release_spec(s: Seq<u8>) -> Option<(Seq<u8>, u64)> {
    if s.len() == 40 {
        Some((s.subrange(0, 32), spec_u64_from_le_bytes(s.subrange(32, 40))))
    } else {
        None
    }
}

/// Byte-for-byte equality of two byte vectors.
pub fn bytes_eq(a: &Vec<u8>, b: &Vec<u8>) -> (r: bool)
    ensures
        r == (a@ == b@),
{
    if a.len() != b.len() {
        return false;
    }
    let mut i: usize = 0;
    while i < a.len()
        invariant
            i <= a@.len(),
            a@.len() == b@.len(),
            forall|j: int| 0 <= j < i ==> a@[j] == b@[j],
        decreases a@.len() - i,
    {
        if *a.get(i).unwrap() != *b.get(i).unwrap() {
            return false;
        }
        i += 1;
    }
    proof {
        assert(a@ =~= b@);
    }
    true
}

/// A fresh copy of a byte vector.
pub fn copy_bytes(src: &Vec<u8>) -> (r: Vec<u8>)
    ensures
        r@ == src@,
{
    copy_byte_slice(src.as_slice())
}

/// A fresh vector holding the bytes of a slice.
pub fn copy_byte_slice(src: &[u8]) -> (r: Vec<u8>)
    ensures
        r@ == src@,
{
    let mut out: Vec<u8> = Vec::new();
    let mut i: usize = 0;
    while i < src.len()
        invariant
            i <= src@.len(),
            out@ == src@.subrange(0, i as int),
        decreases src@.len() - i,
    {
        out.push(*slice_index(src, i));
        i += 1;
        proof {
            assert(out@ =~= src@.subrange(0, i as int));
        }
    }
    proof {
        assert(src@.subrange(0, src@.len() as int) =~= src@);
    }
    out
}

/// One element of a slice.
fn slice_index(s: &[u8], i: usize) -> (r: &u8)
    requires
        i < s@.len(),
    ensures
        *r == s@[i as int],
{
    vstd::slice::slice_index_get(s, i)
}

/// Appends the bytes of a slice to a vector.
fn push_bytes(out: &mut Vec<u8>, src: &[u8])
    ensures
        final(out)@ == old(out)@ + src@,
{
    let mut extra = copy_byte_slice(src);
    out.append(&mut extra);
}

/// Encodes a record in its 49-byte persisted form.
pub fn serialize_record(rec: &EscrowAccount) -> (out: Vec<u8>)
    requires
        rec.repo_hash@.len() == 32,
    ensures
        out@ == record_bytes(rec.is_initialized, rec.repo_hash@, rec.issue_number, rec.amount),
        out@.len() == 49,
{
    let mut out: Vec<u8> = Vec::new();
    let flag: u8 = if rec.is_initialized {
        1
    } else {
        0
    };
    out.push(flag);
    push_bytes(&mut out, rec.repo_hash.as_slice());
    let mut issue = u64_to_le_bytes(rec.issue_number);
    out.append(&mut issue);
    let mut amount = u64_to_le_bytes(rec.amount);
    out.append(&mut amount);
    proof {
        lemma_auto_spec_u64_to_from_le_bytes();
        assert(out@ =~= record_bytes(
            rec.is_initialized,
            rec.repo_hash@,
            rec.issue_number,
            rec.amount,
        ));
    }
    out
}

/// Decodes a stored record; `None` exactly where `parse_record_spec` is
/// undefined (wrong length or an invalid flag byte).
pub fn parse_record(data: &[u8]) -> (r: Option<EscrowAccount>)
    ensures
        match r {
            Some(rec) => {
                &&& parse_record_spec(data@) is Some
                &&& rec.is_initialized == parse_record_spec(data@)->Some_0.0
                &&& rec.repo_hash@ == parse_record_spec(data@)->Some_0.1
                &&& rec.issue_number == parse_record_spec(data@)->Some_0.2
                &&& rec.amount == parse_record_spec(data@)->Some_0.3
                &&& rec.repo_hash@.len() == 32
            },
            None => parse_record_spec(data@) is None,
        },
{
    if data.len() != 49 {
        return None;
    }
    let flag = *slice_index(data, 0);
    if flag > 1 {
        return None;
    }
    let is_initialized = flag == 1;
    let repo_hash = copy_byte_slice(slice_subrange(data, 1, 33));
    let issue_number = u64_from_le_bytes(slice_subrange(data, 33, 41));
    let amount = u64_from_le_bytes(slice_subrange(data, 41, 49));
    Some(EscrowAccount { is_initialized, repo_hash, issue_number, amount })
}

/// Decodes a create request payload; `None` exactly on buffers that are not
/// 48 bytes long.
pub fn parse_create_instruction(data: &[u8]) -> (r: Option<CreateEscrowInstruction>)
    ensures
        match r {
            Some(instr) => {
                &&& parse_create_spec(data@) is Some
                &&& instr.repo_hash@ == parse_create_spec(data@)->Some_0.0
                &&& instr.issue_number == parse_create_spec(data@)->Some_0.1
                &&& instr.amount == parse_create_spec(data@)->Some_0.2
                &&& instr.repo_hash@.len() == 32
            },
            None => parse_create_spec(data@) is None,
        },
{
    if data.len() != 48 {
        return None;
    }
    let repo_hash = copy_byte_slice(slice_subrange(data, 0, 32));
    let issue_number = u64_from_le_bytes(slice_subrange(data, 32, 40));
    let amount = u64_from_le_bytes(slice_subrange(data, 40, 48));
    Some(CreateEscrowInstruction { repo_hash, issue_number, amount })
}

/// Decodes a release request payload; `None` exactly on buffers that are not
/// 40 bytes long.
pub fn parse_release_instruction(data: &[u8]) -> (r: Option<ReleaseEscrowInstruction>)
    ensures
        match r {
            Some(instr) => {
                &&& parse_release_spec(data@) is Some
                &&& instr.repo_hash@ == parse_release_spec(data@)->Some_0.0
                &&& instr.issue_number == parse_release_spec(data@)->Some_0.1
                &&& instr.repo_hash@.len() == 32
            },
            None => parse_release_spec(data@) is None,
        },
{
    if data.len() != 40 {
        return None;
    }
    let repo_hash = copy_byte_slice(slice_subrange(data, 0, 32));
    let issue_number = u64_from_le_bytes(slice_subrange(data, 32, 40));
    Some(ReleaseEscrowInstruction { repo_hash, issue_number })
}

/// Decoding inverts encoding: a well-formed record read back from its own
/// serialized bytes is the record itself.
pub proof fn lemma_record_round_trip(
    initialized: bool,
    repo_hash: Seq<u8>,
    issue_number: u64,
    amount: u64,
)
    requires
        repo_hash.len() == 32,
    ensures
        parse_record_spec(record_bytes(initialized, repo_hash, issue_number, amount)) == Some(
            (initialized, repo_hash, issue_number, amount),
        ),
{
    lemma_auto_spec_u64_to_from_le_bytes();
    let s = record_bytes(initialized, repo_hash, issue_number, amount);
    assert(s.len() == 49);
    assert(s.subrange(1, 33) =~= repo_hash);
    assert(s.subrange(33, 41) =~= spec_u64_to_le_bytes(issue_number));
    assert(s.subrange(41, 49) =~= spec_u64_to_le_bytes(amount));
}

} // verus!
