use gig_basic_contract::errors::GigContractError;
use gig_basic_contract::instructions::job_listing_with_feature_employer::{
    featured_listing_fee, job_listing_with_feature_employer, JobListingWithFeatureEmployerContext,
};
use gig_basic_contract::instructions::job_listing_with_one_fee_employer::{
    job_listing_with_fees_employer, JobListingWithFeesEmployerContext,
};
use gig_basic_contract::key::Pubkey;
use gig_basic_contract::state::{HourlyContract, JobContract, JobContractStatus};
use gig_basic_contract::transfer::TokenTransfer;

fn key(b: u8) -> Pubkey {
    Pubkey::new_from_array([b; 32])
}

fn featured_context() -> JobListingWithFeatureEmployerContext {
    JobListingWithFeatureEmployerContext {
        employer: key(1),
        job_contract: JobContract::new(),
        employer_ata: key(2),
        contract_ata: key(3),
    }
}

#[test]
fn featured_fee_table() {
    assert_eq!(featured_listing_fee(1), Ok(21_000_000));
    assert_eq!(featured_listing_fee(3), Ok(36_000_000));
    assert_eq!(featured_listing_fee(7), Ok(71_000_000));
    assert_eq!(featured_listing_fee(14), Ok(100_000_000));
    assert_eq!(featured_listing_fee(30), Ok(150_000_000));
    for day in [0u8, 2, 4, 8, 15, 29, 31, 255] {
        assert_eq!(featured_listing_fee(day), Err(GigContractError::InvalidFeaturedDay));
    }
}

#[test]
fn featured_fee_grows_with_period() {
    let days = [1u8, 3, 7, 14, 30];
    for w in days.windows(2) {
        assert!(featured_listing_fee(w[0]).unwrap() < featured_listing_fee(w[1]).unwrap());
    }
}

#[test]
fn featured_listing_pays_fee_and_marks_job() {
    let mut ctx = featured_context();
    let transfers = job_listing_with_feature_employer(&mut ctx, "job-3".to_string(), 7).unwrap();
    assert_eq!(
        transfers,
        vec![TokenTransfer { from: key(2), to: key(3), authority: key(1), amount: 71_000_000, contract_signs: false }]
    );
    assert_eq!(ctx.job_contract.contract_id, "job-3");
    assert_eq!(ctx.job_contract.status, JobContractStatus::Created);
    assert!(ctx.job_contract.featured);
    assert_eq!(ctx.job_contract.featured_day, 7);
}

#[test]
fn featured_listing_with_unoffered_period_is_refused() {
    let mut ctx = featured_context();
    let r = job_listing_with_feature_employer(&mut ctx, "job-3".to_string(), 5);
    assert_eq!(r, Err(GigContractError::InvalidFeaturedDay));
    assert_eq!(ctx.job_contract.contract_id, "");
    assert!(!ctx.job_contract.featured);
}

fn hourly_context(signer: u8) -> JobListingWithFeesEmployerContext {
    JobListingWithFeesEmployerContext {
        employer: key(signer),
        contract: HourlyContract { employer: key(1), status: JobContractStatus::Created },
        employer_token_account: key(2),
        program_token_account: key(3),
    }
}

#[test]
fn paid_listing_without_dispute_fee() {
    let mut ctx = hourly_context(1);
    let transfers = job_listing_with_fees_employer(&mut ctx, false).unwrap();
    assert_eq!(
        transfers,
        vec![TokenTransfer { from: key(2), to: key(3), authority: key(1), amount: 1_000_000, contract_signs: false }]
    );
    assert_eq!(ctx.contract.status, JobContractStatus::Listed);
}

#[test]
fn paid_listing_with_dispute_fee() {
    let mut ctx = hourly_context(1);
    let transfers = job_listing_with_fees_employer(&mut ctx, true).unwrap();
    assert_eq!(transfers.len(), 2);
    assert_eq!(transfers[0].amount, 1_000_000);
    assert_eq!(transfers[1].amount, 1_000_000);
    assert_eq!(transfers[1].to, key(3));
    assert_eq!(ctx.contract.status, JobContractStatus::Listed);
}

#[test]
fn paid_listing_by_other_signer_is_refused() {
    let mut ctx = hourly_context(4);
    assert_eq!(job_listing_with_fees_employer(&mut ctx, true), Err(GigContractError::InvalidActivator));
    assert_eq!(ctx.contract.status, JobContractStatus::Created);
}
