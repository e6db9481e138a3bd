use vstd::prelude::*;
use crate::address::Address;

verus! {

/// One payout slot of a distribution: the token mint and the custodial
/// wallet that holds the tokens.
#[derive(Debug, Clone, Copy, PartialEq, Eq)]
pub struct DistributionOption {
    pub mint: Address,
    pub wallet: Address,
}

/// The configuration of one reward round, read once per run.
#[derive(Debug, Clone, PartialEq, Eq)]
pub struct Distribution {
    pub realm: Address,
    pub registrar: Option<Address>,
    pub distribution_options: Vec<Option<DistributionOption>>,
}

/// A distribution together with its address: the snapshot that every entity
/// of a batch is built against.
#[derive(Debug, Clone, PartialEq, Eq)]
pub struct DistributionInfo {
    pub address: Address,
    pub account: Distribution,
}

/// A claimant's record: the index of the option they chose.
#[derive(Debug, Clone, Copy, PartialEq, Eq)]
pub struct ClaimData {
    pub chosen_option: u8,
}

/// A claimant's payout preference: the wallet to pay out to.
#[derive(Debug, Clone, Copy, PartialEq, Eq)]
pub struct UserPreferences {
    pub payout_wallet: Address,
}

/// The option that a claim chose, if its slot exists and is populated.
pub open spec fn chosen_option_of(claim: ClaimData, distribution: Distribution) -> Option<DistributionOption> {
    if (claim.chosen_option as int) < distribution.distribution_options@.len() {
        distribution.distribution_options@[claim.chosen_option as int]
    } else {
        None
    }
}

/// The populated option slots of a distribution, in order.
pub open spec fn populated_options(slots: Seq<Option<DistributionOption>>) -> Seq<DistributionOption>
    decreases slots.len(),
{
    if slots.len() == 0 {
        Seq::empty()
    } else {
        let rest = populated_options(slots.drop_last());
        match slots.last() {
            Some(o) => rest.push(o),
            None => rest,
        }
    }
}

/// Where a claimant is paid: their preferred wallet, or the default address
/// when they have no preference record.
pub open spec fn payout_of(preferences: Option<UserPreferences>, default_payout: Address) -> Address {
    match preferences {
        Some(p) => p.payout_wallet,
        None => default_payout,
    }
}

impl ClaimData {
    /// The option this claim chose in the distribution.
    pub fn chosen_option(&self, distribution: &Distribution) -> (r: Option<DistributionOption>)
        ensures
            r == chosen_option_of(*self, *distribution),
    {
        let i = self.chosen_option as usize;
        if i < distribution.distribution_options.len() {
            distribution.distribution_options[i]
        } else {
            None
        }
    }
}

impl Distribution {
    /// The populated option slots, in order.
    pub fn options(&self) -> (r: Vec<DistributionOption>)
        ensures
            r@ == populated_options(self.distribution_options@),
    {
        let mut r: Vec<DistributionOption> = Vec::new();
        let mut i: usize = 0;
        while i < self.distribution_options.len()
            invariant
                i <= self.distribution_options@.len(),
                r@ == populated_options(self.distribution_options@.subrange(0, i as int)),
            decreases self.distribution_options@.len() - i,
        {
            let ghost slots = self.distribution_options@;
            assert(slots.subrange(0, i + 1).drop_last() == slots.subrange(0, i as int));
            match self.distribution_options[i] {
                Some(o) => r.push(o),
                None => {},
            }
            i = i + 1;
        }
        assert(self.distribution_options@.subrange(0, i as int) == self.distribution_options@);
        r
    }
}

/// The payout address of a claimant.
pub fn payout_address(preferences: &Option<UserPreferences>, default_payout: &Address) -> (r: Address)
    ensures
        r == payout_of(*preferences, *default_payout),
{
    match preferences {
        Some(p) => p.payout_wallet,
        None => *default_payout,
    }
}

} // verus!
