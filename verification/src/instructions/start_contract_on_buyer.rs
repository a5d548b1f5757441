use vstd::prelude::*;

use crate::constants::BUYER_DISPUTE_STAKE;
use crate::errors::GigContractError;
use crate::instructions::start_contract::{escrow_deposit, start_time_from, start_time_of};
use crate::key::{default_referral, default_referral_bytes, Pubkey};
use crate::state::{Contract, ContractStatus};
use crate::transfer::TokenTransfer;

verus! {

/// What starting a contract on the buyer side reads and writes: the signing
/// buyer, the new contract account, the seller, an optional referrer of the
/// buyer, the mint of the payment token, the token accounts of buyer and
/// contract, and the native balances of buyer and contract.
#[derive(Clone, Debug)]
pub struct StartContractOnBuyerContext {
    pub buyer: Pubkey,
    pub contract: Contract,
    pub seller: Pubkey,
    pub buyer_referral: Option<Pubkey>,
    pub pay_token_mint: Pubkey,
    pub buyer_ata: Pubkey,
    pub contract_ata: Pubkey,
    pub buyer_lamports: u64,
    pub contract_lamports: u64,
}

/// Payment in the program's token.
pub open spec fn pays_in_token(payment_method: String) -> bool {
    payment_method@ == "USDC"@
}

/// Payment in the chain's native currency.
pub open spec fn pays_in_native(payment_method: String) -> bool {
    payment_method@ == "SOL"@
}

/// The error a buyer-side start is refused with, if any.
pub open spec fn buyer_start_error(
    pay_token_mint: Pubkey,
    pay_token_mint_address: Pubkey,
    dispute: u64,
) -> Option<GigContractError> {
    if pay_token_mint@ != pay_token_mint_address@ {
        Some(GigContractError::PayTokenMintError)
    } else if dispute != BUYER_DISPUTE_STAKE {
        Some(GigContractError::InvalidDisputeAmount)
    } else {
        None
    }
}

/// Checks the payment token's mint and the dispute stake of a buyer-side
/// start, in that order.
pub fn buyer_start_check(
    pay_token_mint: &Pubkey,
    pay_token_mint_address: &Pubkey,
    dispute: u64,
) -> (r: Option<GigContractError>)
    ensures
        r == buyer_start_error(*pay_token_mint, *pay_token_mint_address, dispute),
{
    if !pay_token_mint.key_eq(pay_token_mint_address) {
        Some(GigContractError::PayTokenMintError)
    } else if dispute != BUYER_DISPUTE_STAKE {
        Some(GigContractError::InvalidDisputeAmount)
    } else {
        None
    }
}

/// The escrow can be funded without an arithmetic overflow or underflow.
pub open spec fn buyer_deposit_fits(
    ctx: StartContractOnBuyerContext,
    amount: u64,
    dispute: u64,
    payment_method: String,
) -> bool {
    &&& pays_in_token(payment_method) ==> amount + dispute <= u64::MAX
    &&& pays_in_native(payment_method) ==> {
        &&& amount + dispute <= u64::MAX
        &&& ctx.contract_lamports + amount + dispute <= u64::MAX
        &&& amount + dispute <= ctx.buyer_lamports
    }
}

/// Whether a buyer-side start with these inputs funds the escrow without an
/// arithmetic overflow or underflow.
pub fn buyer_deposit_fits_check(
    ctx: &StartContractOnBuyerContext,
    amount: u64,
    dispute: u64,
    payment_method: &String,
) -> (r: bool)
    ensures
        r == buyer_deposit_fits(*ctx, amount, dispute, *payment_method),
{
    let usdc = "USDC".to_owned();
    let sol = "SOL".to_owned();
    let fits_sum = amount <= u64::MAX - dispute;
    proof {
        reveal_strlit("USDC");
        reveal_strlit("SOL");
        assert("USDC"@.len() == 4);
        assert("SOL"@.len() == 3);
        assert("USDC"@ != "SOL"@);
    }
    if *payment_method == usdc {
        fits_sum
    } else if *payment_method == sol {
        fits_sum && amount + dispute <= u64::MAX - ctx.contract_lamports && amount + dispute
            <= ctx.buyer_lamports
    } else {
        true
    }
}

/// The contract after a buyer-side start, except for its two referral
/// addresses.
pub open spec fn buyer_started_fields(
    c: Contract,
    old_c: Contract,
    contract_id: String,
    buyer: Pubkey,
    seller: Pubkey,
    start_time: u32,
    amount: u64,
    dispute: u64,
    deadline: u32,
    payment_method: String,
) -> bool {
    &&& c.contract_id == contract_id
    &&& c.buyer == buyer
    &&& c.seller == seller
    &&& c.start_time == start_time
    &&& c.amount == amount
    &&& c.dispute == dispute
    &&& c.deadline == deadline
    &&& c.status == ContractStatus::Created
    &&& c.payment_method == payment_method
    &&& c.buyer_approved == old_c.buyer_approved
    &&& c.seller_approved == old_c.seller_approved
}

/// The referral recorded for the buyer: the given referrer, or the default.
pub open spec fn buyer_referral_bytes(referral: Option<Pubkey>) -> Seq<u8> {
    match referral {
        Some(k) => k@,
        None => default_referral_bytes(),
    }
}

/// The buyer opens a contract with a seller and pays `amount` plus the fixed
/// dispute stake into escrow, in the program's token (`"USDC"`) or in native
/// currency (`"SOL"`); any other payment method escrows nothing. The payment
/// token's mint must be `pay_token_mint_address`. Both referrals default to
/// the platform's address; the buyer's is the given referrer, if any.
pub fn start_contract_on_buyer(
    ctx: &mut StartContractOnBuyerContext,
    contract_id: String,
    amount: u64,
    dispute: u64,
    deadline: u32,
    payment_method: String,
    unix_timestamp: i64,
    pay_token_mint_address: Pubkey,
) -> (r: Result<Vec<TokenTransfer>, GigContractError>)
    requires
        buyer_start_error(old(ctx).pay_token_mint, pay_token_mint_address, dispute) is None
            ==> buyer_deposit_fits(*old(ctx), amount, dispute, payment_method),
    ensures
        match buyer_start_error(old(ctx).pay_token_mint, pay_token_mint_address, dispute) {
            Some(e) => {
                &&& r == Err::<Vec<TokenTransfer>, GigContractError>(e)
                &&& *final(ctx) == *old(ctx)
            },
            None => {
                &&& buyer_started_fields(
                    final(ctx).contract,
                    old(ctx).contract,
                    contract_id,
                    old(ctx).buyer,
                    old(ctx).seller,
                    start_time_of(unix_timestamp),
                    amount,
                    dispute,
                    deadline,
                    payment_method,
                )
                &&& final(ctx).contract.buyer == old(ctx).buyer
                &&& final(ctx).contract.seller == old(ctx).seller
                &&& final(ctx).contract.contract_id == contract_id
                &&& final(ctx).contract.amount == amount
                &&& final(ctx).contract.dispute == dispute
                &&& final(ctx).contract.deadline == deadline
                &&& final(ctx).contract.status == ContractStatus::Created
                &&& final(ctx).contract.buyer_referral@ == buyer_referral_bytes(old(ctx).buyer_referral)
                &&& final(ctx).contract.seller_referral@ == default_referral_bytes()
                &&& final(ctx).buyer == old(ctx).buyer
                &&& final(ctx).seller == old(ctx).seller
                &&& final(ctx).buyer_referral == old(ctx).buyer_referral
                &&& final(ctx).pay_token_mint == old(ctx).pay_token_mint
                &&& final(ctx).buyer_ata == old(ctx).buyer_ata
                &&& final(ctx).contract_ata == old(ctx).contract_ata
                &&& final(ctx).buyer_lamports + final(ctx).contract_lamports
                    == old(ctx).buyer_lamports + old(ctx).contract_lamports
                &&& r matches Ok(ts) && if pays_in_token(payment_method) {
                    &&& ts@ == seq![escrow_deposit(old(ctx).buyer, old(ctx).buyer_ata, old(ctx).contract_ata, amount, dispute)]
                    &&& ts@[0].amount == amount + dispute
                    &&& ts@[0].from == old(ctx).buyer_ata && ts@[0].to == old(ctx).contract_ata
                    &&& ts@[0].authority == old(ctx).buyer && !ts@[0].contract_signs
                    &&& final(ctx).buyer_lamports == old(ctx).buyer_lamports
                    &&& final(ctx).contract_lamports == old(ctx).contract_lamports
                } else if pays_in_native(payment_method) {
                    &&& ts@ == Seq::<TokenTransfer>::empty()
                    &&& final(ctx).buyer_lamports == old(ctx).buyer_lamports - (amount + dispute)
                    &&& final(ctx).contract_lamports == old(ctx).contract_lamports + (amount + dispute)
                } else {
                    &&& ts@ == Seq::<TokenTransfer>::empty()
                    &&& final(ctx).buyer_lamports == old(ctx).buyer_lamports
                    &&& final(ctx).contract_lamports == old(ctx).contract_lamports
                }
            },
        },
{
    match buyer_start_check(&ctx.pay_token_mint, &pay_token_mint_address, dispute) {
        Some(e) => {
            return Err(e);
        },
        None => {},
    }
    let current_timestamp = start_time_from(unix_timestamp);

    ctx.contract.contract_id = contract_id;
    ctx.contract.buyer = ctx.buyer;
    ctx.contract.seller = ctx.seller;
    ctx.contract.start_time = current_timestamp;
    ctx.contract.amount = amount;
    ctx.contract.dispute = dispute;
    ctx.contract.deadline = deadline;
    ctx.contract.status = ContractStatus::Created;

    ctx.contract.buyer_referral = default_referral();
    ctx.contract.seller_referral = default_referral();

    ctx.contract.payment_method = payment_method;

    match ctx.buyer_referral {
        Some(referral) => {
            ctx.contract.buyer_referral = referral;
        },
        None => {},
    }

    let usdc = "USDC".to_owned();
    let sol = "SOL".to_owned();
    let mut transfers: Vec<TokenTransfer> = Vec::new();
    if ctx.contract.payment_method == usdc {
        transfers.push(
            TokenTransfer {
                from: ctx.buyer_ata,
                to: ctx.contract_ata,
                authority: ctx.buyer,
                amount: amount + dispute,
                contract_signs: false,
            },
        );
    } else if ctx.contract.payment_method == sol {
        let lamports_to_transfer = amount + dispute;
        ctx.contract_lamports = ctx.contract_lamports + lamports_to_transfer;
        ctx.buyer_lamports = ctx.buyer_lamports - lamports_to_transfer;
    }
    proof {
        assert(transfers@.len() == 0 ==> transfers@ =~= Seq::<TokenTransfer>::empty());
    }
    Ok(transfers)
}

} // verus!
