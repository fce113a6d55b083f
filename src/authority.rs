//! Derivation of a pool's custodial authority: an address that the program
//! controls without holding a key, computed from pool-specific seeds.
use vstd::prelude::*;
use vstd::slice::{slice_subrange, slice_to_vec};
use vstd::string::StringSliceAdditionalSpecFns;

use crate::NAME_MAX_LEN;

verus! {

/// What `Pubkey::create_program_address` returns for the given seeds and
/// program id: the 32 bytes of the address, or `None` where the seeds are
/// refused or the hash lies on the curve.
pub uninterp spec fn program_address_of(seeds: Seq<Seq<u8>>, program_id: Seq<u8>) -> Option<Seq<u8>>;

/// The bytes of `"pool_authority"`, the tag that opens every authority's seeds.
pub open spec fn pool_authority_tag() -> Seq<u8> {
    seq![112u8, 111, 111, 108, 95, 97, 117, 116, 104, 111, 114, 105, 116, 121]
}

/// The part of a pool name's bytes that takes part in derivation: at most its
/// first `NAME_MAX_LEN` bytes.
pub open spec fn truncated_name(name: Seq<u8>) -> Seq<u8> {
    if name.len() > NAME_MAX_LEN {
        name.take(NAME_MAX_LEN as int)
    } else {
        name
    }
}

/// Seeds of a pool's authority: tag, truncated name, pool record identity, bump.
pub open spec fn authority_seeds_of(name: Seq<u8>, pool_key: Seq<u8>, bump: u8) -> Seq<Seq<u8>> {
    seq![pool_authority_tag(), truncated_name(name), pool_key, seq![bump]]
}

/// The custodial authority of the pool record `pool_key`, named `name`
/// (as bytes), under `bump` and the program `program_id`.
pub open spec fn authority_of(program_id: Seq<u8>, name: Seq<u8>, pool_key: Seq<u8>, bump: u8) -> Option<Seq<u8>> {
    program_address_of(authority_seeds_of(name, pool_key, bump), program_id)
}

/// Relies on `Pubkey::create_program_address` of solana-program: the address
/// depends on the seeds and the program id alone; more than 16 seeds, or a seed
/// longer than 32 bytes, are refused.
#[verifier::external_body]
pub(crate) fn create_program_address(seeds: &Vec<Vec<u8>>, program_id: &[u8; 32]) -> (r: Option<[u8; 32]>)
    ensures
        match r {
            Some(k) => program_address_of(seeds.deep_view(), program_id@) == Some(k@),
            None => program_address_of(seeds.deep_view(), program_id@) is None,
        },
        (seeds@.len() > 16 || exists|i: int| 0 <= i < seeds@.len() && seeds@[i]@.len() > 32) ==> r is None,
{
    let parts: Vec<&[u8]> = seeds.iter().map(|s| s.as_slice()).collect();
    let program = anchor_lang::prelude::Pubkey::new_from_array(*program_id);
    anchor_lang::prelude::Pubkey::create_program_address(&parts, &program).ok().map(|k| k.to_bytes())
}

/// The bytes of `name` that take part in deriving the pool's authority: all of
/// them, or the first `NAME_MAX_LEN` where the name is longer.
pub fn name_seed(name: &str) -> (r: &[u8])
    ensures
        r@ == truncated_name(name.spec_bytes()),
{
    let b = name.as_bytes();
    if b.len() > NAME_MAX_LEN {
        slice_subrange(b, 0, NAME_MAX_LEN)
    } else {
        b
    }
}

/// The seeds from which the authority of pool record `pool_key`, named
/// `name`, is derived under `bump`; the same seeds sign for the authority.
pub fn authority_seeds(name: &str, pool_key: &[u8; 32], bump: u8) -> (r: Vec<Vec<u8>>)
    ensures
        r.deep_view() == authority_seeds_of(name.spec_bytes(), pool_key@, bump),
{
    let tag: Vec<u8> = vec![112u8, 111, 111, 108, 95, 97, 117, 116, 104, 111, 114, 105, 116, 121];
    let name_part = slice_to_vec(name_seed(name));
    let key_part = slice_to_vec(pool_key.as_slice());
    let bump_part: Vec<u8> = vec![bump];
    assert(tag@ =~= pool_authority_tag());
    assert(bump_part@ =~= seq![bump]);
    let mut seeds: Vec<Vec<u8>> = Vec::new();
    seeds.push(tag);
    seeds.push(name_part);
    seeds.push(key_part);
    seeds.push(bump_part);
    assert(seeds@[0].deep_view() =~= seeds@[0]@);
    assert(seeds@[1].deep_view() =~= seeds@[1]@);
    assert(seeds@[2].deep_view() =~= seeds@[2]@);
    assert(seeds@[3].deep_view() =~= seeds@[3]@);
    assert(seeds.deep_view() =~= authority_seeds_of(name.spec_bytes(), pool_key@, bump));
    seeds
}

/// The custodial authority of pool record `pool_key`, named `name`, under
/// `bump` and the program `program_id`; `None` where that bump gives no valid
/// authority.
pub fn derive_pool_authority(program_id: &[u8; 32], name: &str, pool_key: &[u8; 32], bump: u8) -> (r: Option<[u8; 32]>)
    ensures
        match r {
            Some(k) => authority_of(program_id@, name.spec_bytes(), pool_key@, bump) == Some(k@),
            None => authority_of(program_id@, name.spec_bytes(), pool_key@, bump) is None,
        },
{
    let seeds = authority_seeds(name, pool_key, bump);
    create_program_address(&seeds, program_id)
}

/// Deriving an authority twice from the same program, name, pool record and
/// bump gives the same result; and a name longer than `NAME_MAX_LEN` bytes
/// gives the same authority as its first `NAME_MAX_LEN` bytes passed alone.
pub proof fn lemma_authority_reproducible(program_id: Seq<u8>, name: Seq<u8>, pool_key: Seq<u8>, bump: u8)
    ensures
        authority_of(program_id, name, pool_key, bump) == authority_of(program_id, name, pool_key, bump),
        name.len() > NAME_MAX_LEN ==> authority_of(program_id, name, pool_key, bump)
            == authority_of(program_id, name.take(NAME_MAX_LEN as int), pool_key, bump),
{
    if name.len() > NAME_MAX_LEN {
        let prefix = name.take(NAME_MAX_LEN as int);
        assert(truncated_name(prefix) =~= truncated_name(name));
        assert(authority_seeds_of(name, pool_key, bump) =~= authority_seeds_of(prefix, pool_key, bump));
    }
}

} // verus!
