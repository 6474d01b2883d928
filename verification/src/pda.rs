//! Address derivation. These seeds must stay in step with the seeds the
//! on-chain program declares for its site and contract accounts.
//!
//! A program address is found by hashing the seeds with a bump byte, from
//! 255 down, until the hash is not a point on the curve. That search is
//! `solana_pubkey`'s; what this module adds is which seeds, under which
//! deployment.

use vstd::prelude::*;

use solana_pubkey::Pubkey;

use crate::ids::Address;
use crate::program::{canonical_program, Program};

verus! {

/// `b"site"`
pub const SITE_SEED: [u8; 4] = [115, 105, 116, 101];

/// `b"contract"`
pub const CONTRACT_SEED: [u8; 8] = [99, 111, 110, 116, 114, 97, 99, 116];

/// The program address and bump that `solana_pubkey` finds for `seeds`
/// under `program_id`, or `None` when no bump gives an address off the
/// curve.
pub uninterp spec fn program_address(seeds: Seq<Seq<u8>>, program_id: Seq<u8>) -> Option<(Seq<u8>, u8)>;

/// The address `solana_pubkey` makes of `seeds`, which end in the bump,
/// under `program_id`, or `None` when the hash lands on the curve or the
/// seeds are too many or too long.
pub uninterp spec fn created_program_address(seeds: Seq<Seq<u8>>, program_id: Seq<u8>) -> Option<
    Seq<u8>,
>;

/// The seeds of a site account: `b"site"` and its authority.
pub open spec fn site_seeds(authority: Address) -> Seq<Seq<u8>> {
    seq![SITE_SEED@, authority@]
}

/// The seeds of a contract account: `b"contract"`, its site and its payer.
pub open spec fn contract_seeds(site: Address, payer: Address) -> Seq<Seq<u8>> {
    seq![CONTRACT_SEED@, site@, payer@]
}

/// The seeds of a contract account followed by its bump.
pub open spec fn contract_seeds_with_bump(site: Address, payer: Address, bump: u8) -> Seq<Seq<u8>> {
    contract_seeds(site, payer).push(seq![bump])
}

/// Where the site of `authority` lives under the deployment of `p`.
pub open spec fn site_pda(p: Program, authority: Address) -> Option<(Seq<u8>, u8)> {
    program_address(site_seeds(authority), p.deployment()@)
}

/// Where the contract of `payer` with `site` lives under the deployment of
/// `p`.
pub open spec fn contract_pda(p: Program, site: Address, payer: Address) -> Option<(Seq<u8>, u8)> {
    program_address(contract_seeds(site, payer), p.deployment()@)
}

/// `Pubkey::try_find_program_address`: the first bump, from 255 down, whose
/// hash with the seeds and the program id is off the curve, with the
/// address it gives; `None` in the improbable case that no bump does. The
/// result depends on the seeds and the program id alone; what it is, is
/// left to the name `program_address`. The address it finds is the one
/// `create_program_address` makes of the seeds with the bump appended,
/// since that is how the search computes it.
#[verifier::external_body]
fn find_program_address(seeds: &Vec<Vec<u8>>, program_id: &Address) -> (r: Option<(Address, u8)>)
    ensures
        r matches Some((a, b)) ==> program_address(seeds.deep_view(), program_id@) == Some(
            (a@, b),
        ),
        r matches Some((a, b)) ==> created_program_address(
            seeds.deep_view().push(seq![b]),
            program_id@,
        ) == Some(a@),
        r is None ==> program_address(seeds.deep_view(), program_id@) is None,
{
    let refs: Vec<&[u8]> = seeds.iter().map(|s| s.as_slice()).collect();
    let found = Pubkey::try_find_program_address(&refs, &Pubkey::new_from_array(program_id.0));
    match found {
        Some((key, bump)) => Some((Address(key.to_bytes()), bump)),
        None => None,
    }
}

/// `Pubkey::create_program_address`: the hash of the seeds, which end in
/// the bump, the program id and the program-address marker, unless it
/// lands on the curve or the seeds are too many or too long, in which case
/// it reports an error. The result depends on the seeds and the program id
/// alone; what it is, is left to the name `created_program_address`.
#[verifier::external_body]
fn create_program_address(seeds: &Vec<Vec<u8>>, program_id: &Address) -> (r: Option<Address>)
    ensures
        r matches Some(a) ==> created_program_address(seeds.deep_view(), program_id@) == Some(a@),
        r is None ==> created_program_address(seeds.deep_view(), program_id@) is None,
{
    let refs: Vec<&[u8]> = seeds.iter().map(|s| s.as_slice()).collect();
    match Pubkey::create_program_address(&refs, &Pubkey::new_from_array(program_id.0)) {
        Ok(key) => Some(Address(key.to_bytes())),
        Err(_) => None,
    }
}

/// The bytes of `b`, as a vector.
fn byte_vec(b: &[u8]) -> (r: Vec<u8>)
    ensures
        r@ == b@,
{
    vstd::slice::slice_to_vec(b)
}

impl Program {
    /// The site account of `authority` under this deployment, and its bump;
    /// `None` in the improbable case that no bump derives an address.
    pub fn site_address(&self, authority: &Address) -> (r: Option<(Address, u8)>)
        ensures
            r matches Some((a, b)) ==> site_pda(*self, *authority) == Some((a@, b)),
            r is None ==> site_pda(*self, *authority) is None,
    {
        let tag = byte_vec(&SITE_SEED);
        let key = byte_vec(&authority.0);
        assert(tag.deep_view() =~= SITE_SEED@);
        assert(key.deep_view() =~= authority@);
        let seeds = vec![tag, key];
        assert(seeds.deep_view() =~= site_seeds(*authority));
        find_program_address(&seeds, &self.id())
    }

    /// The contract account of `payer` with `site` under this deployment,
    /// and its bump; `None` in the improbable case that no bump derives an
    /// address.
    pub fn contract_address(&self, site: &Address, payer: &Address) -> (r: Option<(Address, u8)>)
        ensures
            r matches Some((a, b)) ==> contract_pda(*self, *site, *payer) == Some((a@, b)),
            r matches Some((a, b)) ==> created_program_address(
                contract_seeds_with_bump(*site, *payer, b),
                self.deployment()@,
            ) == Some(a@),
            r is None ==> contract_pda(*self, *site, *payer) is None,
    {
        let tag = byte_vec(&CONTRACT_SEED);
        let site_key = byte_vec(&site.0);
        let payer_key = byte_vec(&payer.0);
        assert(tag.deep_view() =~= CONTRACT_SEED@);
        assert(site_key.deep_view() =~= site@);
        assert(payer_key.deep_view() =~= payer@);
        let seeds = vec![tag, site_key, payer_key];
        assert(seeds.deep_view() =~= contract_seeds(*site, *payer));
        find_program_address(&seeds, &self.id())
    }
}

/// The address of the contract of `payer` with `site` at `bump`, under the
/// program at `program_id`: what the program checks a contract account's
/// address against, with the bump the contract records.
pub fn contract_address_with_bump(program_id: &Address, site: &Address, payer: &Address, bump: u8) -> (r:
    Option<Address>)
    ensures
        r matches Some(a) ==> created_program_address(
            contract_seeds_with_bump(*site, *payer, bump),
            program_id@,
        ) == Some(a@),
        r is None ==> created_program_address(
            contract_seeds_with_bump(*site, *payer, bump),
            program_id@,
        ) is None,
{
    let tag = byte_vec(&CONTRACT_SEED);
    let site_key = byte_vec(&site.0);
    let payer_key = byte_vec(&payer.0);
    let bump_seed = byte_vec(&[bump]);
    assert(tag.deep_view() =~= CONTRACT_SEED@);
    assert(site_key.deep_view() =~= site@);
    assert(payer_key.deep_view() =~= payer@);
    assert(bump_seed.deep_view() =~= seq![bump]);
    let seeds = vec![tag, site_key, payer_key, bump_seed];
    assert(seeds.deep_view() =~= contract_seeds_with_bump(*site, *payer, bump));
    create_program_address(&seeds, program_id)
}

/// The site account of `authority` under the canonical deployment.
pub fn site_address(authority: &Address) -> (r: Option<(Address, u8)>)
    ensures
        r matches Some((a, b)) ==> site_pda(canonical_program(), *authority) == Some((a@, b)),
        r is None ==> site_pda(canonical_program(), *authority) is None,
{
    Program::canonical().site_address(authority)
}

/// The contract account of `payer` with `site` under the canonical
/// deployment.
pub fn contract_address(site: &Address, payer: &Address) -> (r: Option<(Address, u8)>)
    ensures
        r matches Some((a, b)) ==> contract_pda(canonical_program(), *site, *payer) == Some(
            (a@, b),
        ),
        r is None ==> contract_pda(canonical_program(), *site, *payer) is None,
{
    Program::canonical().contract_address(site, payer)
}

/// Derivation depends on the deployment alone: two handles for the same
/// deployment, whatever their token programs, derive the same site and
/// contract accounts.
pub proof fn lemma_derivation_ignores_the_token_program(
    p: Program,
    q: Program,
    authority: Address,
    site: Address,
    payer: Address,
)
    requires
        p.deployment() == q.deployment(),
    ensures
        site_pda(p, authority) == site_pda(q, authority),
        contract_pda(p, site, payer) == contract_pda(q, site, payer),
{
}

} // verus!
