use vstd::prelude::*;
use anchor_lang::solana_program::pubkey::Pubkey;
use crate::key::{Key, le_bytes, to_le_bytes};

verus! {

/// The most seeds an address derivation accepts.
pub const MAX_SEEDS: usize = 16;

/// The longest seed an address derivation accepts, in bytes.
pub const MAX_SEED_LEN: usize = 32;

/// The highest bump tried when searching for an address.
pub const MAX_BUMP: u8 = 255;

/// The address derived from `seeds` (the bump already appended) under `program`,
/// or `None` when the hash of the seeds lies on the curve.
pub uninterp spec fn program_address(seeds: Seq<Seq<u8>>, program: Seq<u8>) -> Option<Seq<u8>>;

/// Seeds that a derivation accepts: at most sixteen, each of at most 32 bytes.
pub open spec fn seeds_fit(seeds: Seq<Seq<u8>>) -> bool {
    &&& seeds.len() <= MAX_SEEDS
    &&& forall|i: int| 0 <= i < seeds.len() ==> (#[trigger] seeds[i]).len() <= MAX_SEED_LEN
}

/// The first bump, counting down from `bump` to 1, whose seeds give an address;
/// with that address.
pub open spec fn bump_search(seeds: Seq<Seq<u8>>, program: Seq<u8>, bump: int) -> Option<(Seq<u8>, u8)>
    decreases bump,
{
    if bump < 1 {
        None
    } else {
        match program_address(seeds.push(seq![bump as u8]), program) {
            Some(a) => Some((a, bump as u8)),
            None => bump_search(seeds, program, bump - 1),
        }
    }
}

/// The canonical address of `seeds` and its bump, as the search finds them.
pub open spec fn canonical_address(seeds: Seq<Seq<u8>>, program: Seq<u8>) -> Option<(Seq<u8>, u8)> {
    if seeds_fit(seeds.push(seq![0u8])) {
        bump_search(seeds, program, MAX_BUMP as int)
    } else {
        None
    }
}

/// Whether `bump` appended to `seeds` reproduces `address`.
pub open spec fn bump_reproduces(seeds: Seq<Seq<u8>>, program: Seq<u8>, bump: u8, address: Seq<u8>) -> bool {
    &&& seeds_fit(seeds.push(seq![bump]))
    &&& program_address(seeds.push(seq![bump]), program) == Some(address)
}

pub open spec fn seeds_view(seeds: &Vec<Vec<u8>>) -> Seq<Seq<u8>> {
    seeds@.map_values(|s: Vec<u8>| s@)
}

/// Relies on `Pubkey::create_program_address`: it refuses more than sixteen seeds
/// or a seed over 32 bytes, and otherwise returns the hash of the seeds and the
/// program id unless that hash lies on the curve.
#[verifier::external_body]
fn create_address(seeds: &Vec<Vec<u8>>, program: &Key) -> (r: Option<Key>)
    ensures
        !seeds_fit(seeds_view(seeds)) ==> r is None,
        seeds_fit(seeds_view(seeds)) ==> match r {
            Some(k) => program_address(seeds_view(seeds), program@) == Some(k@),
            None => program_address(seeds_view(seeds), program@) is None,
        },
{
    let slices: Vec<&[u8]> = seeds.iter().map(|s| s.as_slice()).collect();
    Pubkey::create_program_address(&slices, &Pubkey::new_from_array(program.bytes))
        .ok()
        .map(|p| Key { bytes: p.to_bytes() })
}

/// Relies on `Pubkey::try_find_program_address`: it appends each bump from 255
/// down to 1 and returns the first address that `create_program_address` gives,
/// or `None` when the seeds are refused or no bump works.
#[verifier::external_body]
fn find_address(seeds: &Vec<Vec<u8>>, program: &Key) -> (r: Option<(Key, u8)>)
    ensures
        match r {
            Some((k, b)) => canonical_address(seeds_view(seeds), program@) == Some((k@, b)),
            None => canonical_address(seeds_view(seeds), program@) is None,
        },
{
    let slices: Vec<&[u8]> = seeds.iter().map(|s| s.as_slice()).collect();
    Pubkey::try_find_program_address(&slices, &Pubkey::new_from_array(program.bytes))
        .map(|(p, b)| (Key { bytes: p.to_bytes() }, b))
}

/// The namespace tag of profiles: the ASCII bytes of `user_profile`.
pub open spec fn profile_tag() -> Seq<u8> {
    seq![117u8, 115, 101, 114, 95, 112, 114, 111, 102, 105, 108, 101]
}

/// The namespace tag of journal entries: the ASCII bytes of `journal_entry`.
pub open spec fn entry_tag() -> Seq<u8> {
    seq![106u8, 111, 117, 114, 110, 97, 108, 95, 101, 110, 116, 114, 121]
}

/// The seeds of an owner's profile: the profile tag and the owner's key.
pub open spec fn profile_seeds(owner: Seq<u8>) -> Seq<Seq<u8>> {
    seq![profile_tag(), owner]
}

/// The seeds of an owner's entry: the entry tag, the owner's key and the sequence number.
pub open spec fn entry_seeds(owner: Seq<u8>, sequence: u64) -> Seq<Seq<u8>> {
    seq![entry_tag(), owner, le_bytes(sequence)]
}

/// The address of `owner`'s profile under `program`, with its bump.
pub open spec fn profile_address(program: Seq<u8>, owner: Seq<u8>) -> Option<(Seq<u8>, u8)> {
    canonical_address(profile_seeds(owner), program)
}

/// The address of `owner`'s entry `sequence` under `program`, with its bump.
pub open spec fn entry_address(program: Seq<u8>, owner: Seq<u8>, sequence: u64) -> Option<(Seq<u8>, u8)> {
    canonical_address(entry_seeds(owner, sequence), program)
}

fn profile_seed_vec(owner: &Key) -> (r: Vec<Vec<u8>>)
    ensures
        seeds_view(&r) == profile_seeds(owner@),
{
    let tag: Vec<u8> = vec![117u8, 115, 101, 114, 95, 112, 114, 111, 102, 105, 108, 101];
    let r: Vec<Vec<u8>> = vec![tag, owner.to_vec()];
    assert(tag@ =~= profile_tag());
    assert(seeds_view(&r) =~= profile_seeds(owner@));
    r
}

fn entry_seed_vec(owner: &Key, sequence: u64) -> (r: Vec<Vec<u8>>)
    ensures
        seeds_view(&r) == entry_seeds(owner@, sequence),
{
    let tag: Vec<u8> = vec![106u8, 111, 117, 114, 110, 97, 108, 95, 101, 110, 116, 114, 121];
    let r: Vec<Vec<u8>> = vec![tag, owner.to_vec(), to_le_bytes(sequence)];
    assert(tag@ =~= entry_tag());
    assert(seeds_view(&r) =~= entry_seeds(owner@, sequence));
    r
}

/// Finds the address of `owner`'s profile and its bump.
pub fn find_profile_address(program: &Key, owner: &Key) -> (r: Option<(Key, u8)>)
    ensures
        match r {
            Some((k, b)) => profile_address(program@, owner@) == Some((k@, b)),
            None => profile_address(program@, owner@) is None,
        },
{
    find_address(&profile_seed_vec(owner), program)
}

/// Finds the address of `owner`'s entry `sequence` and its bump.
pub fn find_entry_address(program: &Key, owner: &Key, sequence: u64) -> (r: Option<(Key, u8)>)
    ensures
        match r {
            Some((k, b)) => entry_address(program@, owner@, sequence) == Some((k@, b)),
            None => entry_address(program@, owner@, sequence) is None,
        },
{
    find_address(&entry_seed_vec(owner, sequence), program)
}

/// Whether a stored bump reproduces `address` from `seeds`.
fn verify_bump(seeds: Vec<Vec<u8>>, program: &Key, bump: u8, address: &Key) -> (r: bool)
    ensures
        r == bump_reproduces(seeds_view(&seeds), program@, bump, address@),
{
    let mut with_bump = seeds;
    let ghost before = seeds_view(&with_bump);
    let bump_seed: Vec<u8> = vec![bump];
    assert(bump_seed@ =~= seq![bump]);
    with_bump.push(bump_seed);
    assert(seeds_view(&with_bump) =~= before.push(seq![bump]));
    match create_address(&with_bump, program) {
        Some(k) => k.same_as(address),
        None => false,
    }
}

/// Whether a profile's stored bump reproduces `address` for `owner`.
pub fn verify_profile_bump(program: &Key, owner: &Key, bump: u8, address: &Key) -> (r: bool)
    ensures
        r == bump_reproduces(profile_seeds(owner@), program@, bump, address@),
{
    verify_bump(profile_seed_vec(owner), program, bump, address)
}

/// Whether an entry's stored bump reproduces `address` for `owner` and `sequence`.
pub fn verify_entry_bump(program: &Key, owner: &Key, sequence: u64, bump: u8, address: &Key) -> (r: bool)
    ensures
        r == bump_reproduces(entry_seeds(owner@, sequence), program@, bump, address@),
{
    verify_bump(entry_seed_vec(owner, sequence), program, bump, address)
}

} // verus!
