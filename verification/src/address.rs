use vstd::prelude::*;

verus! {

/// What the host's program-derived-address computation yields for one
/// label seed, a bump byte and a 32-byte program id: `Some` of the 32-byte
/// address, or `None` for the derivations the host refuses. The
/// computation is a digest of its arguments, so the result is a function
/// of them alone.
pub uninterp spec fn derived_address_of(
    seed: Seq<u8>,
    bump: u8,
    program_id: Seq<u8>,
) -> Option<Seq<u8>>;

/// Relies on `solana_program::pubkey::Pubkey::create_program_address`: the
/// derived address is the SHA-256 digest of the seeds, the bump, the
/// program id and a fixed marker, and the call answers `Err` exactly when
/// a seed is over the host's length cap or the digest lands on the
/// ed25519 curve. Either way the answer depends on the arguments alone
/// and the call does not panic.
#[verifier::external_body]
fn derive_address(seed: &[u8], bump: u8, program_id: &[u8; 32]) -> (r: Option<[u8; 32]>)
    ensures
        match r {
            Some(address) => derived_address_of(seed@, bump, program_id@) == Some(address@),
            None => derived_address_of(seed@, bump, program_id@) is None,
        },
{
    let id = solana_program::pubkey::Pubkey::new_from_array(*program_id);
    match solana_program::pubkey::Pubkey::create_program_address(&[seed, &[bump]], &id) {
        Ok(address) => Some(address.to_bytes()),
        Err(_) => None,
    }
}

/// The label seed of the escrow account: the bytes of `"escrow"`.
pub open spec fn escrow_seed() -> Seq<u8> {
    seq![101u8, 115u8, 99u8, 114u8, 111u8, 119u8]
}

/// The label seed of the price record: the bytes of `"sol_price"`.
pub open spec fn price_record_seed() -> Seq<u8> {
    seq![115u8, 111u8, 108u8, 95u8, 112u8, 114u8, 105u8, 99u8, 101u8]
}

/// The label seed of the mint authority: the bytes of `"mint-authority"`.
pub open spec fn mint_authority_seed() -> Seq<u8> {
    seq![
        109u8,
        105u8,
        110u8,
        116u8,
        45u8,
        97u8,
        117u8,
        116u8,
        104u8,
        111u8,
        114u8,
        105u8,
        116u8,
        121u8,
    ]
}

/// The escrow account's derived address within a deployment: the fixed
/// label `"escrow"` plus the caller-supplied bump.
pub fn derive_escrow_address(program_id: &[u8; 32], bump: u8) -> (r: Option<[u8; 32]>)
    ensures
        match r {
            Some(address) => derived_address_of(escrow_seed(), bump, program_id@) == Some(
                address@,
            ),
            None => derived_address_of(escrow_seed(), bump, program_id@) is None,
        },
{
    let seed: [u8; 6] = [101, 115, 99, 114, 111, 119];
    proof {
        assert(seed@ =~= escrow_seed());
    }
    derive_address(seed.as_slice(), bump, program_id)
}

/// The price record's derived address within a deployment: the fixed
/// label `"sol_price"` plus the caller-supplied bump.
pub fn derive_price_record_address(program_id: &[u8; 32], bump: u8) -> (r: Option<[u8; 32]>)
    ensures
        match r {
            Some(address) => derived_address_of(price_record_seed(), bump, program_id@) == Some(
                address@,
            ),
            None => derived_address_of(price_record_seed(), bump, program_id@) is None,
        },
{
    let seed: [u8; 9] = [115, 111, 108, 95, 112, 114, 105, 99, 101];
    proof {
        assert(seed@ =~= price_record_seed());
    }
    derive_address(seed.as_slice(), bump, program_id)
}

/// The mint authority's derived address within a deployment: the fixed
/// label `"mint-authority"` plus the caller-supplied bump.
pub fn derive_mint_authority_address(program_id: &[u8; 32], bump: u8) -> (r: Option<[u8; 32]>)
    ensures
        match r {
            Some(address) => derived_address_of(mint_authority_seed(), bump, program_id@) == Some(
                address@,
            ),
            None => derived_address_of(mint_authority_seed(), bump, program_id@) is None,
        },
{
    let seed: [u8; 14] = [109, 105, 110, 116, 45, 97, 117, 116, 104, 111, 114, 105, 116, 121];
    proof {
        assert(seed@ =~= mint_authority_seed());
    }
    derive_address(seed.as_slice(), bump, program_id)
}

/// Derived-address determinism: any two derivations with the same label
/// seed, bump and program id yield the same answer.
pub proof fn lemma_derivation_deterministic(
    seed: Seq<u8>,
    bump: u8,
    program_id: Seq<u8>,
    first: Option<Seq<u8>>,
    second: Option<Seq<u8>>,
)
    requires
        first == derived_address_of(seed, bump, program_id),
        second == derived_address_of(seed, bump, program_id),
    ensures
        first == second,
{
}

} // verus!
