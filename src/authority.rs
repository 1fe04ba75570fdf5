use vstd::prelude::*;

use crate::address::Address;

verus! {

/// The fixed seed from which the escrow's authority address is derived
/// (the bytes of "escrow").
pub open spec fn escrow_seed() -> Seq<u8> {
    seq![101u8, 115u8, 99u8, 114u8, 111u8, 119u8]
}

/// The program-derived address, with its bump, that a single seed and a
/// program identity give; `None` where no bump yields an off-curve address.
pub uninterp spec fn program_address_of(seed: Seq<u8>, program_id: Seq<u8>) -> Option<(Seq<u8>, u8)>;

/// A program-derived address and the bump that proves it.
#[derive(Clone, Copy, Debug)]
pub struct DerivedAuthority {
    pub address: Address,
    pub bump: u8,
}

pub open spec fn authority_view(r: Option<DerivedAuthority>) -> Option<(Seq<u8>, u8)> {
    match r {
        Some(d) => Some((d.address@, d.bump)),
        None => None,
    }
}

/// Relies on Pubkey::try_find_program_address: a deterministic search over
/// bump seeds for an address derived from the seeds and the program id, `None`
/// where none is found.
#[verifier::external_body]
fn try_find_program_address(seed: &[u8], program_id: &Address) -> (r: Option<DerivedAuthority>)
    ensures
        authority_view(r) == program_address_of(seed@, program_id@),
{
    let id = anchor_lang::prelude::Pubkey::new_from_array(program_id.bytes);
    anchor_lang::prelude::Pubkey::try_find_program_address(&[seed], &id).map(
        |(k, b)| DerivedAuthority { address: Address { bytes: k.to_bytes() }, bump: b },
    )
}

/// The escrow authority of `program_id`: the same program id always gives
/// the same address and bump.
pub fn escrow_authority(program_id: &Address) -> (r: Option<DerivedAuthority>)
    ensures
        authority_view(r) == program_address_of(escrow_seed(), program_id@),
{
    let seed: [u8; 6] = [101u8, 115u8, 99u8, 114u8, 111u8, 119u8];
    assert(seed@ =~= escrow_seed());
    try_find_program_address(seed.as_slice(), program_id)
}

} // verus!
