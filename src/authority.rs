//! Derivation and verification of a check's signing authority.

use vstd::prelude::*;
use anchor_lang::prelude::Pubkey;
use crate::address::Address;
use crate::error::ErrorCode;

verus! {

/// The program derived address for the seeds `[seed, [salt]]` under
/// `program_id`, or `None` where that hash lies on the ed25519 curve.
pub uninterp spec fn program_address(seed: Seq<u8>, salt: u8, program_id: Seq<u8>) -> Option<
    Seq<u8>,
>;

/// Relies on `Pubkey::create_program_address` (anchor_lang's re-export of
/// solana's address type): its result is a function of the seeds and the
/// program id alone, and an address is 32 bytes. Two seeds of at most 32
/// bytes each stay within its seed limits, so its only failure here is a
/// hash that lies on the curve.
#[verifier::external_body]
pub(crate) fn create_program_address(seed: &Address, salt: u8, program_id: &Address) -> (r: Option<Address>)
    ensures
        r matches Some(a) ==> program_address(seed@, salt, program_id@) == Some(a@),
        r is None ==> program_address(seed@, salt, program_id@) is None,
{
    let salt_seed = [salt];
    let seeds: [&[u8]; 2] = [&seed.bytes, &salt_seed];
    match Pubkey::create_program_address(&seeds, &Pubkey::new_from_array(program_id.bytes)) {
        Ok(key) => Some(Address { bytes: key.to_bytes() }),
        Err(_) => None,
    }
}

/// The outcome of holding a claimed authority against a derivation.
pub open spec fn authority_outcome(derived: Option<Seq<u8>>, claimed: Seq<u8>) -> Result<
    Seq<u8>,
    ErrorCode,
> {
    match derived {
        None => Err(ErrorCode::InvalidCheckNonce),
        Some(a) => if a == claimed {
            Ok(a)
        } else {
            Err(ErrorCode::InvalidCheckSigner)
        },
    }
}

/// An address result seen as bytes.
pub open spec fn result_view(r: Result<Address, ErrorCode>) -> Result<Seq<u8>, ErrorCode> {
    match r {
        Ok(a) => Ok(a@),
        Err(e) => Err(e),
    }
}

/// An optional address seen as bytes.
pub open spec fn option_view(o: Option<Address>) -> Option<Seq<u8>> {
    match o {
        Some(a) => Some(a@),
        None => None,
    }
}

/// What `derive` returns for a check, a nonce and a program.
pub open spec fn derive_result(check: Seq<u8>, salt: u8, program_id: Seq<u8>) -> Result<
    Seq<u8>,
    ErrorCode,
> {
    match program_address(check, salt, program_id) {
        Some(a) => Ok(a),
        None => Err(ErrorCode::InvalidCheckNonce),
    }
}

/// The authority that controls the vault of the check at `check` with
/// nonce `salt`; fails with `InvalidCheckNonce` where no address derives.
pub fn derive(check: &Address, salt: u8, program_id: &Address) -> (r: Result<Address, ErrorCode>)
    ensures
        result_view(r) == derive_result(check@, salt, program_id@),
{
    match create_program_address(check, salt, program_id) {
        Some(a) => Ok(a),
        None => Err(ErrorCode::InvalidCheckNonce),
    }
}

/// Holds a claimed authority against the derived one (`None` where the
/// derivation failed).
pub fn authority_matches(derived: Option<Address>, claimed: &Address) -> (r: Result<
    Address,
    ErrorCode,
>)
    ensures
        r matches Ok(a) ==> a@ == claimed@,
        result_view(r) == authority_outcome(option_view(derived), claimed@),
{
    match derived {
        None => Err(ErrorCode::InvalidCheckNonce),
        Some(a) => if a.same(claimed) {
            Ok(a)
        } else {
            Err(ErrorCode::InvalidCheckSigner)
        },
    }
}

/// Recomputes the authority of `(check, salt)` and holds `claimed` against it.
pub fn verify(claimed: &Address, check: &Address, salt: u8, program_id: &Address) -> (r: Result<
    Address,
    ErrorCode,
>)
    ensures
        result_view(r) == authority_outcome(
            program_address(check@, salt, program_id@),
            claimed@,
        ),
{
    authority_matches(create_program_address(check, salt, program_id), claimed)
}

/// Derivation is deterministic: two results of `derive` on the same check,
/// nonce and program are the same authority, or the same failure.
pub proof fn derive_is_deterministic(
    check: Seq<u8>,
    salt: u8,
    program_id: Seq<u8>,
    first: Result<Address, ErrorCode>,
    second: Result<Address, ErrorCode>,
)
    requires
        result_view(first) == derive_result(check, salt, program_id),
        result_view(second) == derive_result(check, salt, program_id),
    ensures
        result_view(first) == result_view(second),
        first matches Ok(a) ==> second matches Ok(b) && a@ == b@,
{
}

} // verus!
