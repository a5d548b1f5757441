use vstd::prelude::*;

use crate::constants::{
    FEATURED_FEE_FOURTEEN_DAYS, FEATURED_FEE_ONE_DAY, FEATURED_FEE_SEVEN_DAYS,
    FEATURED_FEE_THIRTY_DAYS, FEATURED_FEE_THREE_DAYS,
};
use crate::errors::GigContractError;
use crate::key::Pubkey;
use crate::state::{JobContract, JobContractStatus};
use crate::transfer::TokenTransfer;

verus! {

/// What a featured listing reads and writes: the signing employer, the new
/// job account, and the token accounts of employer and contract.
#[derive(Clone, Debug)]
pub struct JobListingWithFeatureEmployerContext {
    pub employer: Pubkey,
    pub job_contract: JobContract,
    pub employer_ata: Pubkey,
    pub contract_ata: Pubkey,
}

/// The fee for featuring a job for `featured_day` days, for the periods that
/// are offered.
pub open spec fn spec_featured_listing_fee(featured_day: u8) -> Option<u64> {
    if featured_day == 1 {
        Some(FEATURED_FEE_ONE_DAY)
    } else if featured_day == 3 {
        Some(FEATURED_FEE_THREE_DAYS)
    } else if featured_day == 7 {
        Some(FEATURED_FEE_SEVEN_DAYS)
    } else if featured_day == 14 {
        Some(FEATURED_FEE_FOURTEEN_DAYS)
    } else if featured_day == 30 {
        Some(FEATURED_FEE_THIRTY_DAYS)
    } else {
        None
    }
}

/// The fee for featuring a job for `featured_day` days: 24 hours, 3, 7, 14 or
/// 30 days are offered, any other period is refused.
pub fn featured_listing_fee(featured_day: u8) -> (r: Result<u64, GigContractError>)
    ensures
        match spec_featured_listing_fee(featured_day) {
            Some(fee) => r == Ok::<u64, GigContractError>(fee),
            None => r == Err::<u64, GigContractError>(GigContractError::InvalidFeaturedDay),
        },
{
    match featured_day {
        1 => Ok(FEATURED_FEE_ONE_DAY),
        3 => Ok(FEATURED_FEE_THREE_DAYS),
        7 => Ok(FEATURED_FEE_SEVEN_DAYS),
        14 => Ok(FEATURED_FEE_FOURTEEN_DAYS),
        30 => Ok(FEATURED_FEE_THIRTY_DAYS),
        _ => Err(GigContractError::InvalidFeaturedDay),
    }
}

/// The job after it is listed as featured.
pub open spec fn featured_job(c: JobContract, contract_id: String, featured_day: u8) -> JobContract {
    JobContract { contract_id, status: JobContractStatus::Created, featured: true, featured_day, ..c }
}

/// The fee transfer of a featured listing.
pub open spec fn featured_fee_transfer(ctx: JobListingWithFeatureEmployerContext, fee: u64) -> TokenTransfer {
    TokenTransfer {
        from: ctx.employer_ata,
        to: ctx.contract_ata,
        authority: ctx.employer,
        amount: fee,
        contract_signs: false,
    }
}

/// The employer lists a job featured for `featured_day` days and pays the
/// fee for that period into the contract's token account.
pub fn job_listing_with_feature_employer(
    ctx: &mut JobListingWithFeatureEmployerContext,
    contract_id: String,
    featured_day: u8,
) -> (r: Result<Vec<TokenTransfer>, GigContractError>)
    ensures
        match spec_featured_listing_fee(featured_day) {
            None => {
                &&& r == Err::<Vec<TokenTransfer>, GigContractError>(GigContractError::InvalidFeaturedDay)
                &&& *final(ctx) == *old(ctx)
            },
            Some(fee) => {
                &&& r matches Ok(ts) && ts@ == seq![featured_fee_transfer(*old(ctx), fee)]
                &&& *final(ctx) == (JobListingWithFeatureEmployerContext {
                    job_contract: featured_job(old(ctx).job_contract, contract_id, featured_day),
                    ..*old(ctx)
                })
                &&& final(ctx).job_contract.featured
                &&& final(ctx).job_contract.featured_day == featured_day
                &&& final(ctx).job_contract.contract_id == contract_id
                &&& final(ctx).job_contract.status == JobContractStatus::Created
                &&& r matches Ok(ts) && ts@.len() == 1 && ts@[0].amount == fee
                    && ts@[0].from == old(ctx).employer_ata && ts@[0].to == old(ctx).contract_ata
                    && ts@[0].authority == old(ctx).employer
            },
        },
{
    let listing_fee = match featured_listing_fee(featured_day) {
        Ok(fee) => fee,
        Err(e) => {
            return Err(e);
        },
    };
    let transfers = vec![
        TokenTransfer {
            from: ctx.employer_ata,
            to: ctx.contract_ata,
            authority: ctx.employer,
            amount: listing_fee,
            contract_signs: false,
        },
    ];
    ctx.job_contract.contract_id = contract_id;
    ctx.job_contract.status = JobContractStatus::Created;
    ctx.job_contract.featured = true;
    ctx.job_contract.featured_day = featured_day;
    Ok(transfers)
}

} // verus!
