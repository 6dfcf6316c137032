use vstd::prelude::*;
use crate::identity::Identity;

verus! {

/// The address that `program` derives from the seeds `seed` and `[bump]`,
/// or `None` where that hash lies on the curve.
pub uninterp spec fn program_address(seed: Seq<u8>, bump: u8, program: Seq<u8>) -> Option<Seq<u8>>;

/// The first address and bump, counting the bump down from 255, that
/// `program` derives from `seed`, or `None` where no bump gives one.
pub uninterp spec fn found_program_address(seed: Seq<u8>, program: Seq<u8>) -> Option<(Seq<u8>, u8)>;

/// The domain tag of the gateway record's address.
pub open spec fn gateway_seed_spec() -> Seq<u8> {
    seq![103u8, 97u8, 116u8, 101u8, 119u8, 97u8, 121u8]
}

/// The bytes of `"gateway"`.
pub fn gateway_seed() -> (r: Vec<u8>)
    ensures
        r@ == gateway_seed_spec(),
{
    let r: Vec<u8> = vec![103u8, 97u8, 116u8, 101u8, 119u8, 97u8, 121u8];
    assert(r@ =~= gateway_seed_spec());
    r
}

/// Relies on `Pubkey::create_program_address` of solana_program: hashes the
/// seeds `seed` and `[bump]` with `program` and fails where the hash lies on
/// the curve; the result depends on its arguments alone.
#[verifier::external_body]
fn create_address(seed: &Vec<u8>, bump: u8, program: &[u8; 32]) -> (r: Option<[u8; 32]>)
    ensures
        match r {
            Some(a) => program_address(seed@, bump, program@) == Some(a@),
            None => program_address(seed@, bump, program@) is None,
        },
{
    let program_id = anchor_lang::solana_program::pubkey::Pubkey::new_from_array(*program);
    let bump_seed = [bump];
    let seeds: [&[u8]; 2] = [seed.as_slice(), &bump_seed];
    anchor_lang::solana_program::pubkey::Pubkey::create_program_address(&seeds, &program_id)
        .ok()
        .map(|a| a.to_bytes())
}

/// Relies on `Pubkey::try_find_program_address` of solana_program: it tries
/// `create_program_address` with the bumps 255 down to 1 and returns the
/// first address found with its bump.
#[verifier::external_body]
fn find_address(seed: &Vec<u8>, program: &[u8; 32]) -> (r: Option<([u8; 32], u8)>)
    ensures
        match r {
            Some((a, b)) => found_program_address(seed@, program@) == Some((a@, b))
                && program_address(seed@, b, program@) == Some(a@),
            None => found_program_address(seed@, program@) is None,
        },
{
    let program_id = anchor_lang::solana_program::pubkey::Pubkey::new_from_array(*program);
    let seeds: [&[u8]; 1] = [seed.as_slice()];
    anchor_lang::solana_program::pubkey::Pubkey::try_find_program_address(&seeds, &program_id)
        .map(|(a, b)| (a.to_bytes(), b))
}

/// Whether `bump` re-derives `address` from the gateway's domain tag under
/// `program`.
pub fn verify_gateway_address(program: &Identity, bump: u8, address: &Identity) -> (r: bool)
    ensures
        r == (program_address(gateway_seed_spec(), bump, program@) == Some(address@)),
{
    let seed = gateway_seed();
    match create_address(&seed, bump, &program.bytes) {
        Some(a) => {
            let derived = Identity::new(a);
            derived == *address
        },
        None => false,
    }
}

/// The gateway's canonical address and bump under `program`.
pub fn derive_gateway_address(program: &Identity) -> (r: Option<(Identity, u8)>)
    ensures
        match r {
            Some((a, b)) => found_program_address(gateway_seed_spec(), program@) == Some((a@, b))
                && program_address(gateway_seed_spec(), b, program@) == Some(a@),
            None => found_program_address(gateway_seed_spec(), program@) is None,
        },
{
    let seed = gateway_seed();
    match find_address(&seed, &program.bytes) {
        Some((a, b)) => Some((Identity::new(a), b)),
        None => None,
    }
}

} // verus!
