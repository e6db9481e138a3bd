use vstd::prelude::*;
use crate::address::{Address, program_address_of, seeds_view, try_find_program_address};
use crate::instructions::{BuildError, Instruction, Transaction};
use crate::state::DistributionInfo;

verus! {

/// The seed label of a voter weight record: the bytes of "voter-weight-record".
pub open spec fn voter_weight_record_label() -> Seq<u8> {
    seq![118u8, 111, 116, 101, 114, 45, 119, 101, 105, 103, 104, 116, 45, 114, 101, 99, 111, 114, 100]
}

/// The seed label of a voter: the bytes of "voter".
pub open spec fn voter_label() -> Seq<u8> {
    seq![118u8, 111, 116, 101, 114]
}

/// The seeds of a voter's weight record under a registrar.
pub open spec fn voter_weight_record_seeds(registrar: Address, user: Address) -> Seq<Seq<u8>> {
    seq![registrar@, voter_weight_record_label(), user@]
}

/// The seeds of a voter's record under a registrar.
pub open spec fn voter_seeds(registrar: Address, user: Address) -> Seq<Seq<u8>> {
    seq![registrar@, voter_label(), user@]
}

/// Whether `r` is what the register builder owes for these inputs: a weight
/// refresh followed by the registration that reads the refreshed record, both
/// signed by the payer; or the build error.
pub open spec fn is_register_build(
    user: Address,
    distribution: DistributionInfo,
    realm: Address,
    payer: Address,
    voter_stake_program: Address,
    r: Result<Transaction, BuildError>,
) -> bool {
    match distribution.account.registrar {
        None => r == Err::<Transaction, BuildError>(BuildError::MissingRegistrar),
        Some(registrar) => {
            let vwr = program_address_of(voter_weight_record_seeds(registrar, user), voter_stake_program@);
            let voter = program_address_of(voter_seeds(registrar, user), voter_stake_program@);
            if vwr is None || voter is None {
                r == Err::<Transaction, BuildError>(BuildError::NoProgramAddress)
            } else {
                r matches Ok(tx) && {
                    &&& tx.signers@ == seq![payer]
                    &&& tx.instructions@.len() == 2
                    &&& tx.instructions@[0] matches Instruction::UpdateVoterWeightRecord {
                        registrar: reg,
                        voter: v,
                        voter_weight_record: w,
                    } && reg == registrar && Some(v@) == voter && Some(w@) == vwr
                        && tx.instructions@[1] == (Instruction::Register {
                        user,
                        distribution: distribution.address,
                        realm,
                        voter_weight_record: w,
                        payer,
                    })
                }
            }
        },
    }
}

/// The three seeds `registrar`, `label`, `user`.
fn seeds(registrar: &Address, label: &[u8], user: &Address) -> (r: Vec<Vec<u8>>)
    ensures
        seeds_view(r@) == seq![registrar@, label@, user@],
{
    let mut l: Vec<u8> = Vec::new();
    let mut i: usize = 0;
    while i < label.len()
        invariant
            i <= label@.len(),
            l@ == label@.subrange(0, i as int),
        decreases label@.len() - i,
    {
        l.push(label[i]);
        assert(label@.subrange(0, i + 1) == label@.subrange(0, i as int).push(label@[i as int]));
        i = i + 1;
    }
    assert(label@.subrange(0, label@.len() as int) == label@);
    let mut r: Vec<Vec<u8>> = Vec::new();
    r.push(registrar.to_vec());
    r.push(l);
    r.push(user.to_vec());
    assert(seeds_view(r@) =~= seq![registrar@, label@, user@]);
    r
}

/// Builds the transaction that registers a voter against the distribution:
/// it refreshes the voter's weight record, then registers the voter with it.
pub fn build_register(
    user: &Address,
    distribution: &DistributionInfo,
    realm: &Address,
    payer: &Address,
    voter_stake_program: &Address,
) -> (r: Result<Transaction, BuildError>)
    ensures
        is_register_build(*user, *distribution, *realm, *payer, *voter_stake_program, r),
{
    let registrar = match distribution.account.registrar {
        Some(registrar) => registrar,
        None => return Err(BuildError::MissingRegistrar),
    };
    let vwr_label: [u8; 19] = [118, 111, 116, 101, 114, 45, 119, 101, 105, 103, 104, 116, 45, 114, 101, 99, 111, 114, 100];
    let voter_label_bytes: [u8; 5] = [118, 111, 116, 101, 114];
    assert(vwr_label@ == voter_weight_record_label());
    assert(voter_label_bytes@ == voter_label());
    let vwr_seeds = seeds(&registrar, &vwr_label, user);
    let voter_seeds = seeds(&registrar, &voter_label_bytes, user);
    let vwr = try_find_program_address(&vwr_seeds, voter_stake_program);
    let voter = try_find_program_address(&voter_seeds, voter_stake_program);
    match (vwr, voter) {
        (Some(vwr), Some(voter)) => {
            let refresh = Instruction::UpdateVoterWeightRecord {
                registrar,
                voter,
                voter_weight_record: vwr,
            };
            let register = Instruction::Register {
                user: *user,
                distribution: distribution.address,
                realm: *realm,
                voter_weight_record: vwr,
                payer: *payer,
            };
            let mut instructions: Vec<Instruction> = Vec::new();
            instructions.push(refresh);
            instructions.push(register);
            let mut signers: Vec<Address> = Vec::new();
            signers.push(*payer);
            assert(signers@ == seq![*payer]);
            Ok(Transaction { instructions, signers })
        },
        _ => Err(BuildError::NoProgramAddress),
    }
}

} // verus!
