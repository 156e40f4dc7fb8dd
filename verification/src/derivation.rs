use crate::error::TransferError;
use crate::identity::Identity;
use solana_program::pubkey::{Pubkey, PubkeyError};
use vstd::prelude::*;

verus! {

/// The error of `solana_program`'s address derivation, carried through as an
/// opaque value.
#[verifier::external_type_specification]
#[verifier::external_body]
pub struct ExPubkeyError(solana_program::pubkey::PubkeyError);

/// The address that `Pubkey::create_program_address` gives for the seeds
/// `[seed_tag, source, [bump]]` under `program`, or `None` where it gives an
/// error.
pub uninterp spec fn candidate_address(
    seed_tag: Seq<u8>,
    source: Seq<u8>,
    bump: u8,
    program: Seq<u8>,
) -> Option<Seq<u8>>;

/// Whether `Pubkey::is_on_curve` holds of the address with these bytes: they
/// encode a point of the ed25519 curve, so that a signing key may exist for
/// them.
pub uninterp spec fn on_curve(address: Seq<u8>) -> bool;

/// Longest seed that the derivation accepts.
pub const MAX_SEED_LEN: usize = 32;

/// Calls `Pubkey::create_program_address` on the seeds
/// `[seed_tag, source, [bump]]` and `program`. Trusted: the outcome is
/// [`candidate_address`] of the arguments, and an address that comes back is
/// off the curve, because the function answers `InvalidSeeds` for a hash that
/// is a curve point.
#[verifier::external_body]
fn create_candidate(seed_tag: &[u8], source: &Identity, bump: u8, program: &Identity) -> (r: Result<
    Identity,
    PubkeyError,
>)
    ensures
        match r {
            Ok(address) => candidate_address(seed_tag@, source@, bump, program@) == Some(address@),
            Err(_) => candidate_address(seed_tag@, source@, bump, program@) is None,
        },
        r matches Ok(address) ==> !on_curve(address@),
{
    let program_id = Pubkey::new_from_array(program.bytes);
    match Pubkey::create_program_address(&[seed_tag, &source.bytes, &[bump]], &program_id) {
        Ok(key) => Ok(Identity { bytes: key.to_bytes() }),
        Err(e) => Err(e),
    }
}

/// Calls `Pubkey::is_on_curve` on the address. Trusted: the answer is
/// [`on_curve`] of its bytes.
#[verifier::external_body]
fn curve_point(address: &Identity) -> (r: bool)
    ensures
        r == on_curve(address@),
{
    Pubkey::new_from_array(address.bytes).is_on_curve()
}

/// `bump` is the canonical bump of the seeds and `vault` its address: the
/// candidate at `bump` is `vault`, and no higher bump has a candidate. Bump 0
/// is never canonical: the search stops at 1.
pub open spec fn is_canonical(
    seed_tag: Seq<u8>,
    source: Seq<u8>,
    program: Seq<u8>,
    vault: Seq<u8>,
    bump: u8,
) -> bool {
    &&& bump >= 1
    &&& candidate_address(seed_tag, source, bump, program) == Some(vault)
    &&& forall|higher: u8|
        bump < higher ==> (#[trigger] candidate_address(seed_tag, source, higher, program)) is None
}

/// Some bump from 255 down to 1 has a candidate address.
pub open spec fn derivable(seed_tag: Seq<u8>, source: Seq<u8>, program: Seq<u8>) -> bool {
    exists|bump: u8|
        bump >= 1 && (#[trigger] candidate_address(seed_tag, source, bump, program)) is Some
}

/// `outcome` is what the derivation yields for these seeds: the canonical
/// bump with its address, or nothing where no bump has an address.
pub open spec fn derives(
    seed_tag: Seq<u8>,
    source: Seq<u8>,
    program: Seq<u8>,
    outcome: Option<(Seq<u8>, u8)>,
) -> bool {
    match outcome {
        Some((vault, bump)) => is_canonical(seed_tag, source, program, vault, bump),
        None => !derivable(seed_tag, source, program),
    }
}

/// The derivation is a function of its inputs: two outcomes for the same
/// seed tag, source and program are the same outcome, address and bump.
pub proof fn law_derivation_deterministic(
    seed_tag: Seq<u8>,
    source: Seq<u8>,
    program: Seq<u8>,
    first: Option<(Seq<u8>, u8)>,
    second: Option<(Seq<u8>, u8)>,
)
    requires
        derives(seed_tag, source, program, first),
        derives(seed_tag, source, program, second),
    ensures
        first == second,
{
    match (first, second) {
        (Some((v1, b1)), Some((v2, b2))) => {
            if b1 < b2 {
                assert(candidate_address(seed_tag, source, b2, program) is None);
            }
            if b2 < b1 {
                assert(candidate_address(seed_tag, source, b1, program) is None);
            }
        },
        (Some((v1, b1)), None) => {
            assert(candidate_address(seed_tag, source, b1, program) is Some);
        },
        (None, Some((v2, b2))) => {
            assert(candidate_address(seed_tag, source, b2, program) is Some);
        },
        (None, None) => {},
    }
}

/// Calls `Pubkey::try_find_program_address` on the seeds `[seed_tag, source]`
/// and `program`. Trusted: the function tries the bumps from 255 down to 1,
/// each by `Pubkey::create_program_address` on the seeds with the bump
/// appended, and answers with the first address that comes back and its bump;
/// it answers `None` where no bump of these has an address. An address that
/// comes back is off the curve. A seed of more than 32 bytes is refused with
/// every bump, before anything is hashed, and ends the search with `None`.
#[verifier::external_body]
fn search_candidates(seed_tag: &[u8], source: &Identity, program: &Identity) -> (r: Option<
    (Identity, u8),
>)
    ensures
        match r {
            Some((vault, bump)) => {
                &&& bump >= 1
                &&& candidate_address(seed_tag@, source@, bump, program@) == Some(vault@)
                &&& forall|higher: u8|
                    bump < higher ==> (#[trigger] candidate_address(
                        seed_tag@,
                        source@,
                        higher,
                        program@,
                    )) is None
                &&& !on_curve(vault@)
            },
            None => forall|bump: u8|
                bump >= 1 ==> (#[trigger] candidate_address(seed_tag@, source@, bump, program@))
                    is None,
        },
        seed_tag@.len() > MAX_SEED_LEN ==> r is None,
{
    let program_id = Pubkey::new_from_array(program.bytes);
    match Pubkey::try_find_program_address(&[seed_tag, &source.bytes], &program_id) {
        Some((key, bump)) => Some((Identity { bytes: key.to_bytes() }, bump)),
        None => None,
    }
}

/// Derives the vault of `source` under `program` for the given seed tag: the
/// address and the bump that gives it. The bumps are searched from 255 down
/// to 1 and the first one with an address that is off the curve wins, so the
/// result is the same on every call and the vault has no signing key. Fails
/// with `DerivationExhausted` exactly where no bump has such an address,
/// which includes every seed tag of more than 32 bytes.
pub fn derive(seed_tag: &[u8], source: &Identity, program: &Identity) -> (r: Result<
    (Identity, u8),
    TransferError,
>)
    ensures
        match r {
            Ok((vault, bump)) => {
                &&& derives(seed_tag@, source@, program@, Some((vault@, bump)))
                &&& !on_curve(vault@)
            },
            Err(e) => {
                &&& e == TransferError::DerivationExhausted
                &&& derives(seed_tag@, source@, program@, None)
            },
        },
        seed_tag@.len() > MAX_SEED_LEN ==> r is Err,
{
    match search_candidates(seed_tag, source, program) {
        Some((vault, bump)) => Ok((vault, bump)),
        None => Err(TransferError::DerivationExhausted),
    }
}

/// The right to act for a vault without a signature: the seeds that the
/// vault was derived from and the bump that goes with them. It is checked by
/// running the derivation again, never by a key.
#[derive(Clone, Debug, PartialEq, Eq)]
pub struct AuthorityProof {
    pub seed_tag: Vec<u8>,
    pub source: Identity,
    pub bump: u8,
}

impl AuthorityProof {
    /// The derivation from the proof's seeds under `program` yields `vault`
    /// with the proof's bump, and so no other bump and no other address.
    pub open spec fn proves(self, program: Seq<u8>, vault: Seq<u8>) -> bool {
        is_canonical(self.seed_tag@, self.source@, program, vault, self.bump)
    }

    /// Checks the proof for `vault` under `program` by running the
    /// derivation once more on the proof's seeds: it passes where the
    /// derivation yields this very vault together with the proof's bump. A
    /// bump that the search does not stop at is refused, also where it has
    /// an address of its own. A vault that passes is off the curve.
    ///
    /// The proof's own bump is tried first: where it does not give the
    /// vault, one hash has settled the refusal and the search is not run.
    pub fn authorizes(&self, program: &Identity, vault: &Identity) -> (r: bool)
        ensures
            r == self.proves(program@, vault@),
            r ==> !on_curve(vault@),
    {
        match create_candidate(self.seed_tag.as_slice(), &self.source, self.bump, program) {
            Ok(address) => {
                if !(address == *vault) {
                    return false;
                }
            },
            Err(_) => {
                return false;
            },
        }
        match derive(self.seed_tag.as_slice(), &self.source, program) {
            Ok((address, bump)) => {
                proof {
                    if self.proves(program@, vault@) {
                        law_derivation_deterministic(
                            self.seed_tag@,
                            self.source@,
                            program@,
                            Some((address@, bump)),
                            Some((vault@, self.bump)),
                        );
                    }
                }
                address == *vault && bump == self.bump
            },
            Err(_) => {
                proof {
                    if self.proves(program@, vault@) {
                        law_derivation_deterministic(
                            self.seed_tag@,
                            self.source@,
                            program@,
                            None,
                            Some((vault@, self.bump)),
                        );
                    }
                }
                false
            },
        }
    }
}

impl Identity {
    /// Whether the address is a point of the curve, so that a signing key may
    /// exist for it. A derived vault never is. This is a question for a
    /// client: a program on the ledger has no means to answer it.
    pub fn is_on_curve(&self) -> (r: bool)
        ensures
            r == on_curve(self@),
    {
        curve_point(self)
    }
}

} // verus!
