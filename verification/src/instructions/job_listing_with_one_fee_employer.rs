use vstd::prelude::*;

use crate::constants::{LISTING_DISPUTE_FEE, LISTING_FEE};
use crate::errors::GigContractError;
use crate::key::Pubkey;
use crate::state::{HourlyContract, JobContractStatus};
use crate::transfer::TokenTransfer;

verus! {

/// What a paid listing reads and writes: the signing employer, the hourly
/// contract, and the token accounts of employer and program.
#[derive(Clone, Copy, Debug)]
pub struct JobListingWithFeesEmployerContext {
    pub employer: Pubkey,
    pub contract: HourlyContract,
    pub employer_token_account: Pubkey,
    pub program_token_account: Pubkey,
}

/// A fee paid by the employer into the program's token account.
pub open spec fn employer_fee(ctx: JobListingWithFeesEmployerContext, fee: u64) -> TokenTransfer {
    TokenTransfer {
        from: ctx.employer_token_account,
        to: ctx.program_token_account,
        authority: ctx.employer,
        amount: fee,
        contract_signs: false,
    }
}

/// The fees of a listing: the listing fee, then the dispute fee if asked for.
pub open spec fn listing_transfers(ctx: JobListingWithFeesEmployerContext, with_dispute: bool) -> Seq<TokenTransfer> {
    if with_dispute {
        seq![employer_fee(ctx, LISTING_FEE), employer_fee(ctx, LISTING_DISPUTE_FEE)]
    } else {
        seq![employer_fee(ctx, LISTING_FEE)]
    }
}

/// The employer of an hourly contract lists it, paying the listing fee and,
/// `with_dispute`, the dispute fee. Only the employer recorded on the
/// contract may do so.
pub fn job_listing_with_fees_employer(
    ctx: &mut JobListingWithFeesEmployerContext,
    with_dispute: bool,
) -> (r: Result<Vec<TokenTransfer>, GigContractError>)
    ensures
        if old(ctx).employer@ != old(ctx).contract.employer@ {
            &&& r == Err::<Vec<TokenTransfer>, GigContractError>(GigContractError::InvalidActivator)
            &&& *final(ctx) == *old(ctx)
        } else {
            &&& r matches Ok(ts) && ts@ == listing_transfers(*old(ctx), with_dispute)
            &&& *final(ctx) == (JobListingWithFeesEmployerContext {
                contract: HourlyContract { status: JobContractStatus::Listed, ..old(ctx).contract },
                ..*old(ctx)
            })
            &&& final(ctx).contract.status == JobContractStatus::Listed
            &&& r matches Ok(ts) && {
                &&& ts@.len() == if with_dispute { 2int } else { 1int }
                &&& forall|i: int| 0 <= i < ts@.len() ==> {
                    &&& (#[trigger] ts@[i]).from == old(ctx).employer_token_account
                    &&& ts@[i].to == old(ctx).program_token_account
                    &&& ts@[i].authority == old(ctx).employer
                    &&& !ts@[i].contract_signs
                }
                &&& ts@[0].amount == LISTING_FEE
                &&& with_dispute ==> ts@[1].amount == LISTING_DISPUTE_FEE
            }
        },
{
    if !ctx.employer.key_eq(&ctx.contract.employer) {
        return Err(GigContractError::InvalidActivator);
    }
    let mut transfers: Vec<TokenTransfer> = Vec::new();
    transfers.push(
        TokenTransfer {
            from: ctx.employer_token_account,
            to: ctx.program_token_account,
            authority: ctx.employer,
            amount: LISTING_FEE,
            contract_signs: false,
        },
    );
    if with_dispute {
        transfers.push(
            TokenTransfer {
                from: ctx.employer_token_account,
                to: ctx.program_token_account,
                authority: ctx.employer,
                amount: LISTING_DISPUTE_FEE,
                contract_signs: false,
            },
        );
    }
    ctx.contract.status = JobContractStatus::Listed;
    proof {
        assert(transfers@ =~= listing_transfers(*old(ctx), with_dispute));
    }
    Ok(transfers)
}

} // verus!
