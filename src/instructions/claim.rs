use vstd::prelude::*;
use crate::address::Address;
use crate::instructions::{BuildError, Instruction, Transaction};
use crate::state::{
    chosen_option_of, payout_of, ClaimData, DistributionInfo, UserPreferences, payout_address,
};

verus! {

/// The claim instruction for a claimant, or why there is none: the chosen
/// option's wallet pays out to the claimant's payout address.
pub open spec fn claim_instruction(
    user: Address,
    distribution: DistributionInfo,
    payer: Address,
    preferences: Option<UserPreferences>,
    default_payout: Address,
    claim: ClaimData,
) -> Result<Instruction, BuildError> {
    match chosen_option_of(claim, distribution.account) {
        None => Err(BuildError::MissingOption),
        Some(option) => Ok(
            Instruction::Claim {
                user,
                distribution: distribution.address,
                realm: distribution.account.realm,
                wallet: option.wallet,
                payout: payout_of(preferences, default_payout),
                payer,
            },
        ),
    }
}

/// Whether `r` is what the claim builder owes for these inputs: one claim
/// instruction signed by the payer, or the build error.
pub open spec fn is_claim_build(
    user: Address,
    distribution: DistributionInfo,
    payer: Address,
    preferences: Option<UserPreferences>,
    default_payout: Address,
    claim: ClaimData,
    r: Result<Transaction, BuildError>,
) -> bool {
    match claim_instruction(user, distribution, payer, preferences, default_payout, claim) {
        Err(e) => r == Err::<Transaction, BuildError>(e),
        Ok(ix) => r matches Ok(tx) && tx.instructions@ == seq![ix] && tx.signers@ == seq![payer],
    }
}

/// Builds the transaction that pays a claimant the option they chose.
/// `default_payout` is where a claimant without a preference record is paid.
pub fn build_claim(
    user: &Address,
    distribution: &DistributionInfo,
    payer: &Address,
    preferences: &Option<UserPreferences>,
    default_payout: &Address,
    claim: &ClaimData,
) -> (r: Result<Transaction, BuildError>)
    ensures
        is_claim_build(*user, *distribution, *payer, *preferences, *default_payout, *claim, r),
{
    let chosen = claim.chosen_option(&distribution.account);
    match chosen {
        None => Err(BuildError::MissingOption),
        Some(option) => {
            let payout = payout_address(preferences, default_payout);
            let ix = Instruction::Claim {
                user: *user,
                distribution: distribution.address,
                realm: distribution.account.realm,
                wallet: option.wallet,
                payout,
                payer: *payer,
            };
            let mut instructions: Vec<Instruction> = Vec::new();
            instructions.push(ix);
            let mut signers: Vec<Address> = Vec::new();
            signers.push(*payer);
            assert(instructions@ == seq![ix]);
            assert(signers@ == seq![*payer]);
            Ok(Transaction { instructions, signers })
        },
    }
}

/// Building a claim twice from the same inputs gives the same ordered
/// instructions, the same payout address and the same signers.
pub proof fn lemma_claim_build_deterministic(
    user: Address,
    distribution: DistributionInfo,
    payer: Address,
    preferences: Option<UserPreferences>,
    default_payout: Address,
    claim: ClaimData,
    first: Result<Transaction, BuildError>,
    second: Result<Transaction, BuildError>,
)
    requires
        is_claim_build(user, distribution, payer, preferences, default_payout, claim, first),
        is_claim_build(user, distribution, payer, preferences, default_payout, claim, second),
    ensures
        first is Ok <==> second is Ok,
        first is Err ==> first == second,
        first is Ok ==> {
            &&& first->Ok_0.instructions@ == second->Ok_0.instructions@
            &&& first->Ok_0.signers@ == second->Ok_0.signers@
        },
{
}

} // verus!
