use vstd::prelude::*;
use crate::address::{Address, associated_token_address, associated_token_address_of};
use crate::failure::{assessment, Failure, RemoteError};
use crate::instructions::{Instruction, Transaction};
use crate::state::{DistributionInfo, DistributionOption};

verus! {

/// Relies on `anchor_lang::error::ERROR_CODE_OFFSET`: the first code number
/// of a program's own errors, 6000.
#[verifier::external_body]
fn error_code_offset() -> (r: u32)
    ensures
        r == 6000,
{
    anchor_lang::error::ERROR_CODE_OFFSET
}

/// Whether a rejection says that the option's funds were already reclaimed:
/// a program error whose number, past the offset of program errors, is the
/// program's `already_reclaimed` error.
pub open spec fn already_reclaimed(err: RemoteError, already_reclaimed_code: u32) -> bool {
    match err {
        RemoteError::AnchorError { code: Some(code) } => code >= 6000 && code - 6000 == already_reclaimed_code,
        _ => false,
    }
}

/// What one reclaim submission means for the sweep over options: success and
/// an already-reclaimed option add nothing to the degradation count; any
/// other error is classified like every remote failure, so a possible
/// degradation counts one, a skip counts nothing and a fatal error ends the
/// sweep.
pub open spec fn reclaim_result(result: Result<(), RemoteError>, already_reclaimed_code: u32) -> Result<usize, Failure<RemoteError>> {
    match result {
        Ok(_) => Ok(0),
        Err(e) => if already_reclaimed(e, already_reclaimed_code) {
            Ok(0)
        } else {
            assessment(Err::<(), RemoteError>(e))
        },
    }
}

/// Whether the error is the program's rejection of an option that was
/// already reclaimed, `already_reclaimed_code` being that error's number.
pub fn is_already_claimed_err(err: &RemoteError, already_reclaimed_code: u32) -> (r: bool)
    ensures
        r == already_reclaimed(*err, already_reclaimed_code),
{
    let offset = error_code_offset();
    match err {
        RemoteError::AnchorError { code: Some(code) } => *code >= offset && *code - offset == already_reclaimed_code,
        _ => false,
    }
}

/// Decides on the result of one option's reclaim: the increment of the
/// sweep's degradation count, or the fatal failure that ends the sweep.
pub fn reclaim_outcome(result: Result<(), RemoteError>, already_reclaimed_code: u32) -> (r: Result<usize, Failure<RemoteError>>)
    ensures
        r == reclaim_result(result, already_reclaimed_code),
{
    match result {
        Ok(()) => Ok(0),
        Err(e) => if is_already_claimed_err(&e, already_reclaimed_code) {
            Ok(0)
        } else {
            Failure::assess(Err::<(), RemoteError>(e))
        },
    }
}

/// Builds the transaction that sweeps an option's custodial wallet to the
/// admin's token account for the option's mint, signed by the admin.
pub fn build_reclaim(admin: &Address, option: &DistributionOption, distribution: &DistributionInfo) -> (r: Transaction)
    ensures
        r.signers@ == seq![*admin],
        r.instructions@.len() == 1,
        r.instructions@[0] matches Instruction::ReclaimFunds { distribution: d, admin: a, wallet: w, to: t }
            && d == distribution.address && a == *admin && w == option.wallet
            && t@ == associated_token_address_of(admin@, option.mint@),
{
    let to = associated_token_address(admin, &option.mint);
    let ix = Instruction::ReclaimFunds { distribution: distribution.address, admin: *admin, wallet: option.wallet, to };
    let mut instructions: Vec<Instruction> = Vec::new();
    instructions.push(ix);
    let mut signers: Vec<Address> = Vec::new();
    signers.push(*admin);
    assert(signers@ == seq![*admin]);
    Transaction { instructions, signers }
}

} // verus!
