use anchor_lang::prelude::Pubkey;
use vstd::prelude::*;

verus! {

/// The program-derived address for `seed` under `program`, as the ledger
/// computes it: `None` when no bump seed gives an address off the curve.
pub uninterp spec fn program_address_of(seed: Seq<u8>, program: Seq<u8>) -> Option<Seq<u8>>;

/// The single seed from which the config address is derived: `b"config"`.
pub open spec fn config_seed() -> Seq<u8> {
    seq![99u8, 111u8, 110u8, 102u8, 105u8, 103u8]
}

/// Relies on `Pubkey::try_find_program_address` (solana-program): a hash of
/// the seeds, a bump byte and the program id, tried from bump 255 downwards;
/// the result depends on its arguments alone.
#[verifier::external_body]
fn find_program_address(seed: &[u8], program: &[u8; 32]) -> (r: Option<[u8; 32]>)
    ensures
        match r {
            Some(a) => program_address_of(seed@, program@) == Some(a@),
            None => program_address_of(seed@, program@) is None,
        },
{
    Pubkey::try_find_program_address(&[seed], &Pubkey::new_from_array(*program)).map(
        |(key, _bump)| key.to_bytes(),
    )
}

/// The address of the config record of `program`.
pub fn config_address(program: &[u8; 32]) -> (r: Option<[u8; 32]>)
    ensures
        match r {
            Some(a) => program_address_of(config_seed(), program@) == Some(a@),
            None => program_address_of(config_seed(), program@) is None,
        },
{
    let seed: [u8; 6] = [99u8, 111u8, 110u8, 102u8, 105u8, 103u8];
    assert(seed@ =~= config_seed());
    find_program_address(&seed, program)
}

} // verus!
