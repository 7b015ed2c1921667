//! Payload types of the reclaim-proof producer: a signed claim about
//! an off-chain fact, as such a producer submits it for verification.
//! Field casing follows the verifier contract's JSON wire format.

use vstd::prelude::*;

verus! {

/// What was claimed: the data provider, the request parameters, and
/// the session context.
#[derive(Clone, Debug)]
pub struct ClaimInfo {
    pub provider: String,
    pub parameters: String,
    pub context: String,
}

/// The witnessed claim record.
#[derive(Clone, Debug)]
#[allow(non_snake_case)]
pub struct CompleteClaimData {
    pub identifier: String,
    pub owner: String,
    pub epoch: u64,
    pub timestampS: u64,
}

/// A claim together with the witnesses' signatures over it.
#[derive(Clone, Debug)]
pub struct SignedClaim {
    pub claim: CompleteClaimData,
    pub signatures: Vec<String>,
}

/// A full reclaim proof: the claim description and the signed claim
/// record.
#[derive(Clone, Debug)]
#[allow(non_snake_case)]
pub struct Proof {
    pub claimInfo: ClaimInfo,
    pub signedClaim: SignedClaim,
}

} // verus!
