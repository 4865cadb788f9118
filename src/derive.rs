use vstd::prelude::*;
use solana_sdk::pubkey::Pubkey;
use crate::error::CoreError;
use crate::identity::{Identity, on_curve};

verus! {

/// The longest seed that a derivation admits.
pub const MAX_SEED_LEN: usize = 32;

/// The candidate address hashed from a seed, a bump byte, a program identity
/// and the derivation marker.
pub uninterp spec fn candidate_address(seed: Seq<u8>, bump: u8, program: Seq<u8>) -> Seq<u8>;

/// Relies on `Pubkey::create_program_address` with the seeds `[seed, [bump]]`:
/// it hashes them with the program identity and returns the hash, unless the
/// hash lies on the curve, where it fails.
#[verifier::external_body]
fn create_program_address(seed: &[u8], bump: u8, program: &Identity) -> (r: Option<Identity>)
    requires
        seed@.len() <= MAX_SEED_LEN,
    ensures
        r matches Some(k) ==> k@ == candidate_address(seed@, bump, program@) && !on_curve(k@),
        r is None ==> on_curve(candidate_address(seed@, bump, program@)),
{
    let bump_seed = [bump];
    Pubkey::create_program_address(&[seed, &bump_seed], &Pubkey::new_from_array(program.bytes))
        .ok()
        .map(|k| Identity { bytes: k.to_bytes() })
}

/// The search over the bumps below `n`, highest first: the first one whose
/// candidate lies off the curve, with that candidate.
pub open spec fn bump_search(seed: Seq<u8>, program: Seq<u8>, n: int) -> Option<(Seq<u8>, u8)>
    decreases n,
{
    if n <= 0 {
        None
    } else if !on_curve(candidate_address(seed, (n - 1) as u8, program)) {
        Some((candidate_address(seed, (n - 1) as u8, program), (n - 1) as u8))
    } else {
        bump_search(seed, program, n - 1)
    }
}

/// The canonical program-owned address of a seed, with its bump byte.
pub open spec fn derivation(program: Seq<u8>, seed: Seq<u8>) -> Result<(Seq<u8>, u8), CoreError> {
    if seed.len() > MAX_SEED_LEN {
        Err(CoreError::SeedTooLong)
    } else {
        match bump_search(seed, program, 256) {
            Some(found) => Ok(found),
            None => Err(CoreError::DerivationExhausted),
        }
    }
}

pub open spec fn derivation_view(r: Result<(Identity, u8), CoreError>) -> Result<(Seq<u8>, u8), CoreError> {
    match r {
        Ok((k, b)) => Ok((k@, b)),
        Err(e) => Err(e),
    }
}

proof fn lemma_bump_search(seed: Seq<u8>, program: Seq<u8>, n: int)
    requires
        0 <= n <= 256,
    ensures
        bump_search(seed, program, n) matches Some((a, b)) ==> b < n && a == candidate_address(
            seed,
            b,
            program,
        ) && !on_curve(a) && forall|c: u8|
            b < c < n ==> #[trigger] on_curve(candidate_address(seed, c, program)),
        bump_search(seed, program, n) is None ==> forall|c: u8|
            c < n ==> #[trigger] on_curve(candidate_address(seed, c, program)),
    decreases n,
{
    if n > 0 {
        lemma_bump_search(seed, program, n - 1);
        let top = (n - 1) as u8;
        if on_curve(candidate_address(seed, top, program)) {
            match bump_search(seed, program, n - 1) {
                Some((a, b)) => {
                    assert forall|c: u8| b < c < n implies #[trigger] on_curve(
                        candidate_address(seed, c, program),
                    ) by {
                        if c == n - 1 {
                            assert(c == top);
                        }
                    }
                },
                None => {
                    assert forall|c: u8| c < n implies #[trigger] on_curve(
                        candidate_address(seed, c, program),
                    ) by {
                        if c == n - 1 {
                            assert(c == top);
                        }
                    }
                },
            }
        }
    }
}

/// Derivation gives the same address and bump for the same program and seed:
/// any two results that meet [`derive_address`]'s contract are equal.
pub proof fn lemma_derivation_deterministic(
    program: Seq<u8>,
    seed: Seq<u8>,
    r1: Result<(Identity, u8), CoreError>,
    r2: Result<(Identity, u8), CoreError>,
)
    requires
        derivation_view(r1) == derivation(program, seed),
        derivation_view(r2) == derivation(program, seed),
    ensures
        derivation_view(r1) == derivation_view(r2),
{
}

/// A derived address is never on the signing curve; its bump is the highest
/// that gives such an address; and derivation fails with
/// `DerivationExhausted` only where every bump gives a point of the curve.
pub proof fn lemma_derived_off_curve(program: Seq<u8>, seed: Seq<u8>)
    ensures
        derivation(program, seed) matches Ok((a, b)) ==> !on_curve(a) && a == candidate_address(
            seed,
            b,
            program,
        ) && forall|c: u8| b < c ==> #[trigger] on_curve(candidate_address(seed, c, program)),
        derivation(program, seed) == Err::<(Seq<u8>, u8), CoreError>(
            CoreError::DerivationExhausted,
        ) ==> forall|c: u8| #[trigger] on_curve(candidate_address(seed, c, program)),
{
    lemma_bump_search(seed, program, 256);
}

/// Finds the program-owned address of `seed` under `program`: bumps are tried
/// from 255 down to 0 and the first whose candidate lies off the curve wins.
pub fn derive_address(program: &Identity, seed: &[u8]) -> (r: Result<(Identity, u8), CoreError>)
    ensures
        derivation_view(r) == derivation(program@, seed@),
{
    if seed.len() > MAX_SEED_LEN {
        return Err(CoreError::SeedTooLong);
    }
    let mut n: u16 = 256;
    while n > 0
        invariant
            n <= 256,
            seed@.len() <= MAX_SEED_LEN,
            bump_search(seed@, program@, 256) == bump_search(seed@, program@, n as int),
        decreases n,
    {
        let bump = (n - 1) as u8;
        match create_program_address(seed, bump, program) {
            Some(k) => {
                return Ok((k, bump));
            },
            None => {},
        }
        n = n - 1;
    }
    Err(CoreError::DerivationExhausted)
}

} // verus!
