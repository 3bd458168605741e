//! Deterministic escrow address derivation: the escrow account's address is
//! the program-derived address of the seed tag, the repository hash, and the
//! little-endian issue number, under the program's identity.
use crate::codec::copy_bytes;
use vstd::bytes::spec_u64_to_le_bytes;
use vstd::bytes::u64_to_le_bytes;
use vstd::prelude::*;

verus! {

/// What the outside derivation primitive returns for a given seed list and
/// program identity: either an address with its canonicalization bump seed,
/// or nothing when no bump seed yields a valid address.
pub uninterp spec fn find_pda(seeds: Seq<Seq<u8>>, program_id: Seq<u8>) -> Option<(Seq<u8>, u8)>;

/// The returned value agrees with `find_pda`: same presence, and on success
/// the same 32-byte address and the same bump seed.
pub open spec fn pda_result_matches(r: Option<(Vec<u8>, u8)>, s: Option<(Seq<u8>, u8)>) -> bool {
    match (r, s) {
        (Some((addr, bump)), Some((s_addr, s_bump))) => {
            &&& addr@ == s_addr
            &&& addr@.len() == 32
            &&& bump == s_bump
        },
        (None, None) => true,
        _ => false,
    }
}

/// Relies on solana_program's `Pubkey::try_find_program_address`: the address
/// and bump seed are computed by hashing the seed bytes and the program id
/// alone, so the result is a function of these arguments.
#[verifier::external_body]
fn find_program_address_raw(seeds: &Vec<Vec<u8>>, program_id: &Vec<u8>) -> (r: Option<
    (Vec<u8>, u8),
>)
    requires
        program_id@.len() == 32,
    ensures
        pda_result_matches(r, find_pda(seeds@.map_values(|s: Vec<u8>| s@), program_id@)),
{
    let mut arr = [0u8; 32];
    arr.copy_from_slice(program_id.as_slice());
    let pid = solana_program::pubkey::Pubkey::new_from_array(arr);
    let seed_slices: Vec<&[u8]> = seeds.iter().map(|s| s.as_slice()).collect();
    solana_program::pubkey::Pubkey::try_find_program_address(&seed_slices, &pid)
        .map(|(pk, bump)| (pk.to_bytes().to_vec(), bump))
}

/// The seed tag that starts every escrow seed list: the bytes of "escrow".
pub open spec fn seed_tag() -> Seq<u8> {
    seq![101u8, 115u8, 99u8, 114u8, 111u8, 119u8]
}

/// The seed list that identifies one escrow: the tag, the repository hash,
/// and the issue number in little-endian bytes.
pub open spec fn escrow_seeds(repo_hash: Seq<u8>, issue_number: u64) -> Seq<Seq<u8>> {
    seq![seed_tag(), repo_hash, spec_u64_to_le_bytes(issue_number)]
}

/// Derives the canonical escrow address for a repository/issue pair under
/// the given program identity.
pub fn derive_escrow_address(program_id: &Vec<u8>, repo_hash: &Vec<u8>, issue_number: u64) -> (r:
    Option<(Vec<u8>, u8)>)
    requires
        program_id@.len() == 32,
    ensures
        pda_result_matches(r, find_pda(escrow_seeds(repo_hash@, issue_number), program_id@)),
{
    let mut tag: Vec<u8> = Vec::new();
    tag.push(101);
    tag.push(115);
    tag.push(99);
    tag.push(114);
    tag.push(111);
    tag.push(119);
    proof {
        assert(tag@ =~= seed_tag());
    }
    let mut seeds: Vec<Vec<u8>> = Vec::new();
    seeds.push(tag);
    seeds.push(copy_bytes(repo_hash));
    seeds.push(u64_to_le_bytes(issue_number));
    proof {
        assert(seeds@.map_values(|s: Vec<u8>| s@) =~~= escrow_seeds(repo_hash@, issue_number));
    }
    find_program_address_raw(&seeds, program_id)
}

/// The derived escrow address is a pure deterministic function: deriving
/// twice from equal repository hashes, issue numbers and program identities
/// yields the same address and the same bump seed.
pub proof fn lemma_derivation_deterministic(
    repo_a: Seq<u8>,
    issue_a: u64,
    pid_a: Seq<u8>,
    repo_b: Seq<u8>,
    issue_b: u64,
    pid_b: Seq<u8>,
)
    requires
        repo_a == repo_b,
        issue_a == issue_b,
        pid_a == pid_b,
    ensures
        find_pda(escrow_seeds(repo_a, issue_a), pid_a) == find_pda(
            escrow_seeds(repo_b, issue_b),
            pid_b,
        ),
{
}

} // verus!
