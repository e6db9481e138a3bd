use vstd::prelude::*;
use crate::address::Address;

pub mod claim;
pub mod reclaim;
pub mod register;

verus! {

/// One instruction of a crank transaction, with the addresses it names.
#[derive(Debug, Clone, Copy, PartialEq, Eq)]
pub enum Instruction {
    /// Refreshes a voter's weight record in the voter stake registry.
    UpdateVoterWeightRecord { registrar: Address, voter: Address, voter_weight_record: Address },
    /// Registers a voter against a distribution.
    Register {
        user: Address,
        distribution: Address,
        realm: Address,
        voter_weight_record: Address,
        payer: Address,
    },
    /// Pays a claimant their chosen option.
    Claim {
        user: Address,
        distribution: Address,
        realm: Address,
        wallet: Address,
        payout: Address,
        payer: Address,
    },
    /// Sweeps what is left of an option's custodial wallet back to the admin.
    ReclaimFunds { distribution: Address, admin: Address, wallet: Address, to: Address },
}

/// An ordered list of instructions and the identities that sign them.
#[derive(Debug, Clone, PartialEq, Eq)]
pub struct Transaction {
    pub instructions: Vec<Instruction>,
    pub signers: Vec<Address>,
}

/// Why no transaction could be built for an entity.
#[derive(Debug, Clone, Copy, PartialEq, Eq, Structural)]
pub enum BuildError {
    /// The distribution names no registrar.
    MissingRegistrar,
    /// No program address could be derived from the seeds.
    NoProgramAddress,
    /// The claim's option slot does not exist or is empty.
    MissingOption,
}

} // verus!
