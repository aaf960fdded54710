//! Derivation of the vault address that belongs to an owner.
//!
//! An owner's vault lives at the address that the host's derivation scheme
//! gives for the seeds `"vault"` and the owner's key. The search itself is the
//! host library's; this module fixes the seeds and states what is handed to it.

use vstd::prelude::*;

verus! {

/// Number of bytes in an account key.
pub const KEY_BYTES: usize = 32;

/// The key of the program that owns the vaults.
pub const PROGRAM_ID: [u8; 32] = [
    15, 30, 107, 20, 33, 192, 74, 7, 4, 49, 38, 92, 25, 197, 187, 238,
    25, 146, 186, 232, 175, 209, 205, 7, 142, 248, 175, 112, 71, 220, 17, 247,
];

/// What the derivation search of the host's address scheme returns for a list
/// of seeds and a program id: an address that no signing key maps to together
/// with the bump that produced it, or `None` when the search finds none.
pub uninterp spec fn program_address(seeds: Seq<Seq<u8>>, program_id: Seq<u8>) -> Option<(Seq<u8>, u8)>;

/// The tag that starts every vault's seeds: the ASCII bytes of `vault`.
pub open spec fn vault_tag() -> Seq<u8> {
    seq![118u8, 97u8, 117u8, 108u8, 116u8]
}

/// The seeds a vault's address is searched from: the tag, then the owner's key.
pub open spec fn vault_seeds(owner: Seq<u8>) -> Seq<Seq<u8>> {
    seq![vault_tag(), owner]
}

/// The seeds that stand in for the vault's signature: the tag, the owner's key
/// and the bump found when the address was resolved.
pub open spec fn signer_seeds(owner: Seq<u8>, bump: u8) -> Seq<Seq<u8>> {
    seq![vault_tag(), owner, seq![bump]]
}

/// The vault address and bump of an owner under a program.
pub open spec fn vault_address(owner: Seq<u8>, program_id: Seq<u8>) -> Option<(Seq<u8>, u8)> {
    program_address(vault_seeds(owner), program_id)
}

/// A derivation result with the address read as a sequence of bytes.
pub open spec fn derived_view(r: Option<([u8; 32], u8)>) -> Option<(Seq<u8>, u8)> {
    match r {
        Some((address, bump)) => Some((address@, bump)),
        None => None,
    }
}

/// Calls `Pubkey::try_find_program_address` of `anchor_lang`. The call is a
/// pure search over the seeds and the program id, so its result is the named
/// value `program_address` of those arguments; nothing more is claimed of it.
#[verifier::external_body]
fn find_program_address(seeds: &Vec<Vec<u8>>, program_id: &[u8; 32]) -> (r: Option<([u8; 32], u8)>)
    ensures
        derived_view(r) == program_address(seeds.deep_view(), program_id@),
{
    let parts: Vec<&[u8]> = seeds.iter().map(|s| s.as_slice()).collect();
    let program = anchor_lang::prelude::Pubkey::new_from_array(*program_id);
    match anchor_lang::prelude::Pubkey::try_find_program_address(&parts, &program) {
        Some((address, bump)) => Some((address.to_bytes(), bump)),
        None => None,
    }
}

/// The tag as owned bytes.
pub fn tag_bytes() -> (tag: Vec<u8>)
    ensures
        tag@ == vault_tag(),
{
    let mut tag: Vec<u8> = Vec::new();
    tag.push(118u8);
    tag.push(97u8);
    tag.push(117u8);
    tag.push(108u8);
    tag.push(116u8);
    assert(tag@ =~= vault_tag());
    tag
}

/// A key as owned bytes.
pub fn key_bytes(key: &[u8; 32]) -> (bytes: Vec<u8>)
    ensures
        bytes@ == key@,
{
    let mut bytes: Vec<u8> = Vec::new();
    let mut i: usize = 0;
    while i < KEY_BYTES
        invariant
            i <= KEY_BYTES,
            bytes@.len() == i,
            forall|j: int| 0 <= j < i ==> bytes@[j] == key@[j],
        decreases KEY_BYTES - i,
    {
        bytes.push(key[i]);
        i += 1;
    }
    assert(bytes@ =~= key@);
    bytes
}

/// Whether two keys hold the same bytes.
pub fn same_key(a: &[u8; 32], b: &[u8; 32]) -> (same: bool)
    ensures
        same == (a@ == b@),
        same == (*a == *b),
{
    let mut i: usize = 0;
    while i < KEY_BYTES
        invariant
            i <= KEY_BYTES,
            forall|j: int| 0 <= j < i ==> a@[j] == b@[j],
        decreases KEY_BYTES - i,
    {
        if a[i] != b[i] {
            return false;
        }
        i += 1;
    }
    assert(a@ =~= b@);
    assert(*a =~= *b);
    true
}

/// Builds the seeds from which an owner's vault address is searched.
pub fn seeds_for(owner: &[u8; 32]) -> (seeds: Vec<Vec<u8>>)
    ensures
        seeds.deep_view() == vault_seeds(owner@),
{
    let mut seeds: Vec<Vec<u8>> = Vec::new();
    seeds.push(tag_bytes());
    seeds.push(key_bytes(owner));
    assert(seeds.deep_view() =~~= vault_seeds(owner@));
    seeds
}

/// Builds the seeds that authorize a transfer out of an owner's vault.
pub fn signer_seeds_for(owner: &[u8; 32], bump: u8) -> (seeds: Vec<Vec<u8>>)
    ensures
        seeds.deep_view() == signer_seeds(owner@, bump),
{
    let mut last: Vec<u8> = Vec::new();
    last.push(bump);
    assert(last@ =~= seq![bump]);
    let mut seeds: Vec<Vec<u8>> = Vec::new();
    seeds.push(tag_bytes());
    seeds.push(key_bytes(owner));
    seeds.push(last);
    assert(seeds.deep_view() =~~= signer_seeds(owner@, bump));
    seeds
}

/// Resolves the vault of `owner` under `program_id`: its address and bump, or
/// `None` when the derivation search finds no address for these seeds. The
/// result depends on the two keys alone.
pub fn resolve_vault(owner: &[u8; 32], program_id: &[u8; 32]) -> (r: Option<([u8; 32], u8)>)
    ensures
        derived_view(r) == vault_address(owner@, program_id@),
{
    let seeds = seeds_for(owner);
    find_program_address(&seeds, program_id)
}

} // verus!
