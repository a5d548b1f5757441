use gig_basic_contract::errors::GigContractError;
use gig_basic_contract::instructions::release_funds::{
    release_funds, release_payout_fits, ReleaseFundsContext,
};
use gig_basic_contract::key::Pubkey;
use gig_basic_contract::state::{Contract, ContractStatus};
use gig_basic_contract::transfer::TokenTransfer;

fn key(b: u8) -> Pubkey {
    Pubkey::new_from_array([b; 32])
}

fn context(status: ContractStatus, seller_approved: bool, dispute: u64, balance: u64) -> ReleaseFundsContext {
    let mut contract = Contract::new();
    contract.contract_id = "job-1".to_string();
    contract.buyer = key(1);
    contract.seller = key(2);
    contract.amount = 9_000_000;
    contract.dispute = dispute;
    contract.status = status;
    contract.seller_approved = seller_approved;
    ReleaseFundsContext {
        buyer: key(1),
        contract,
        contract_key: key(10),
        seller_ata: key(12),
        buyer_ata: key(11),
        admin_ata: key(13),
        contract_ata: key(14),
        contract_ata_amount: balance,
    }
}

#[test]
fn release_after_seller_approval_splits_balance() {
    let mut ctx = context(ContractStatus::Active, true, 500_000, 10_000_000);
    let transfers = release_funds(&mut ctx).unwrap();
    assert_eq!(
        transfers,
        vec![
            TokenTransfer { from: key(14), to: key(12), authority: key(10), amount: 9_050_000, contract_signs: true },
            TokenTransfer { from: key(14), to: key(11), authority: key(10), amount: 500_000, contract_signs: true },
            TokenTransfer { from: key(14), to: key(13), authority: key(10), amount: 450_000, contract_signs: true },
        ]
    );
    assert_eq!(ctx.contract.status, ContractStatus::Completed);
    assert!(ctx.contract.buyer_approved);
}

#[test]
fn release_before_seller_approval_only_records_approval() {
    let mut ctx = context(ContractStatus::Active, false, 500_000, 10_000_000);
    let transfers = release_funds(&mut ctx).unwrap();
    assert!(transfers.is_empty());
    assert_eq!(ctx.contract.status, ContractStatus::Pending);
    assert!(ctx.contract.buyer_approved);
    assert!(!ctx.contract.seller_approved);
}

#[test]
fn release_from_pending_is_accepted() {
    let mut ctx = context(ContractStatus::Pending, true, 0, 101);
    let transfers = release_funds(&mut ctx).unwrap();
    // 101 * 95 / 100 = 95, 101 * 5 / 100 = 5: one unit stays behind.
    assert_eq!(transfers[0].amount, 95);
    assert_eq!(transfers[1].amount, 0);
    assert_eq!(transfers[2].amount, 5);
    assert_eq!(ctx.contract.status, ContractStatus::Completed);
}

#[test]
fn release_of_created_contract_is_refused() {
    let mut ctx = context(ContractStatus::Created, true, 500_000, 10_000_000);
    assert_eq!(release_funds(&mut ctx), Err(GigContractError::CantRelease));
    assert_eq!(ctx.contract.status, ContractStatus::Created);
    assert!(!ctx.contract.buyer_approved);
}

#[test]
fn release_of_completed_contract_is_refused() {
    let mut ctx = context(ContractStatus::Completed, true, 500_000, 10_000_000);
    assert_eq!(release_funds(&mut ctx), Err(GigContractError::CantRelease));
}

#[test]
fn release_by_other_signer_is_refused() {
    let mut ctx = context(ContractStatus::Active, true, 500_000, 10_000_000);
    ctx.buyer = key(7);
    assert_eq!(release_funds(&mut ctx), Err(GigContractError::InvalidBuyer));
    assert_eq!(ctx.contract.status, ContractStatus::Active);
    assert!(!ctx.contract.buyer_approved);
}

#[test]
fn status_is_checked_before_signer() {
    let mut ctx = context(ContractStatus::Created, true, 500_000, 10_000_000);
    ctx.buyer = key(7);
    assert_eq!(release_funds(&mut ctx), Err(GigContractError::CantRelease));
}

#[test]
fn second_release_after_completion_is_refused() {
    let mut ctx = context(ContractStatus::Active, true, 500_000, 10_000_000);
    assert_eq!(release_funds(&mut ctx).unwrap().len(), 3);
    assert_eq!(release_funds(&mut ctx), Err(GigContractError::CantRelease));
}

#[test]
fn repeated_release_before_seller_approval_changes_nothing() {
    let mut ctx = context(ContractStatus::Active, false, 500_000, 10_000_000);
    assert!(release_funds(&mut ctx).unwrap().is_empty());
    assert!(release_funds(&mut ctx).unwrap().is_empty());
    assert_eq!(ctx.contract.status, ContractStatus::Pending);
    assert!(ctx.contract.buyer_approved);
}

#[test]
fn payout_fits_detects_small_balance() {
    let ctx = context(ContractStatus::Active, true, 500_000, 999_999);
    assert!(!release_payout_fits(&ctx));
    let ctx = context(ContractStatus::Active, true, 500_000, 1_000_000);
    assert!(release_payout_fits(&ctx));
    let ctx = context(ContractStatus::Active, false, 500_000, 0);
    assert!(release_payout_fits(&ctx));
    let ctx = context(ContractStatus::Active, true, 0, u64::MAX);
    assert!(!release_payout_fits(&ctx));
    let ctx = context(ContractStatus::Active, true, 0, u64::MAX / 95);
    assert!(release_payout_fits(&ctx));
}

#[test]
fn payouts_never_exceed_balance() {
    for balance in [1_000_000u64, 1_000_001, 1_000_099, 12_345_678, 10_000_000] {
        let mut ctx = context(ContractStatus::Active, true, 500_000, balance);
        let transfers = release_funds(&mut ctx).unwrap();
        let paid: u64 = transfers.iter().map(|t| t.amount).sum();
        assert!(paid <= balance);
        assert!(balance - paid <= 1);
    }
}
