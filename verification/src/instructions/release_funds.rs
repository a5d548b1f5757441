use vstd::prelude::*;

use crate::constants::{PLATFORM_SHARE_PERCENT, SELLER_SHARE_PERCENT};
use crate::errors::GigContractError;
use crate::key::Pubkey;
use crate::laws::lemma_release_pays_each_party;
use crate::state::{Contract, ContractStatus};
use crate::transfer::TokenTransfer;

verus! {

/// What a release reads and writes: the signing buyer, the contract, the
/// contract's token account and its balance, and the token accounts paid out.
#[derive(Clone, Debug)]
pub struct ReleaseFundsContext {
    pub buyer: Pubkey,
    pub contract: Contract,
    /// Address of the contract account, which owns `contract_ata`.
    pub contract_key: Pubkey,
    pub seller_ata: Pubkey,
    pub buyer_ata: Pubkey,
    pub admin_ata: Pubkey,
    pub contract_ata: Pubkey,
    /// Token balance held by `contract_ata`.
    pub contract_ata_amount: u64,
}

/// Funds can be released only from an active or pending contract.
pub open spec fn is_releasable(status: ContractStatus) -> bool {
    status == ContractStatus::Active || status == ContractStatus::Pending
}

/// The error a release is refused with, if any.
pub open spec fn release_error(c: Contract, signer: Pubkey) -> Option<GigContractError> {
    if !is_releasable(c.status) {
        Some(GigContractError::CantRelease)
    } else if signer@ != c.buyer@ {
        Some(GigContractError::InvalidBuyer)
    } else {
        None
    }
}

/// The contract after the buyer approves: completed if the seller had already
/// approved, pending otherwise.
pub open spec fn released_contract(c: Contract) -> Contract {
    Contract {
        status: if c.seller_approved {
            ContractStatus::Completed
        } else {
            ContractStatus::Pending
        },
        buyer_approved: true,
        ..c
    }
}

/// Part of the balance that is price rather than the two dispute stakes.
pub open spec fn net_price(total: int, dispute: int) -> int {
    total - 2 * dispute
}

/// What the seller receives: its share of the price plus its dispute stake.
pub open spec fn seller_payout(total: int, dispute: int) -> int {
    net_price(total, dispute) * (SELLER_SHARE_PERCENT as int) / 100 + dispute
}

/// What the platform receives: its share of the price.
pub open spec fn platform_fee(total: int, dispute: int) -> int {
    net_price(total, dispute) * (PLATFORM_SHARE_PERCENT as int) / 100
}

/// The balance can be split without an arithmetic overflow or underflow.
pub open spec fn payout_fits(total: int, dispute: int) -> bool {
    &&& 2 * dispute <= total
    &&& net_price(total, dispute) * (SELLER_SHARE_PERCENT as int) <= u64::MAX
}

/// The transfers a release makes: none until both parties approved, then the
/// seller's payout, the buyer's dispute stake back, and the platform fee.
pub open spec fn release_transfers(ctx: ReleaseFundsContext) -> Seq<TokenTransfer> {
    let total = ctx.contract_ata_amount as int;
    let dispute = ctx.contract.dispute as int;
    if ctx.contract.seller_approved {
        seq![
            (TokenTransfer {
                from: ctx.contract_ata,
                to: ctx.seller_ata,
                authority: ctx.contract_key,
                amount: seller_payout(total, dispute) as u64,
                contract_signs: true,
            }),
            (TokenTransfer {
                from: ctx.contract_ata,
                to: ctx.buyer_ata,
                authority: ctx.contract_key,
                amount: ctx.contract.dispute,
                contract_signs: true,
            }),
            (TokenTransfer {
                from: ctx.contract_ata,
                to: ctx.admin_ata,
                authority: ctx.contract_key,
                amount: platform_fee(total, dispute) as u64,
                contract_signs: true,
            }),
        ]
    } else {
        seq![]
    }
}

/// Whether a release of `ctx` goes as far as splitting the balance.
pub open spec fn release_pays_out(ctx: ReleaseFundsContext) -> bool {
    release_error(ctx.contract, ctx.buyer) is None && ctx.contract.seller_approved
}

/// Whether a release of `ctx` runs without an arithmetic overflow or
/// underflow: it does unless it splits a balance smaller than the two dispute
/// stakes, or one whose price share overflows.
pub fn release_payout_fits(ctx: &ReleaseFundsContext) -> (r: bool)
    ensures
        r == (release_pays_out(*ctx) ==> payout_fits(
            ctx.contract_ata_amount as int,
            ctx.contract.dispute as int,
        )),
{
    let status = ctx.contract.status;
    if !(status == ContractStatus::Active || status == ContractStatus::Pending) {
        return true;
    }
    if !ctx.buyer.key_eq(&ctx.contract.buyer) || !ctx.contract.seller_approved {
        return true;
    }
    let dispute = ctx.contract.dispute;
    let total = ctx.contract_ata_amount;
    if dispute > total / 2 {
        return false;
    }
    let net = total - 2 * dispute;
    net <= u64::MAX / SELLER_SHARE_PERCENT
}

/// The buyer approves the work. The buyer must have signed and the contract
/// must be active or pending. The contract becomes pending with the buyer's
/// approval recorded; if the seller had approved too, it is completed and the
/// contract's balance is split between seller, buyer and platform.
pub fn release_funds(ctx: &mut ReleaseFundsContext) -> (r: Result<Vec<TokenTransfer>, GigContractError>)
    requires
        release_pays_out(*old(ctx)) ==> payout_fits(
            old(ctx).contract_ata_amount as int,
            old(ctx).contract.dispute as int,
        ),
    ensures
        match release_error(old(ctx).contract, old(ctx).buyer) {
            Some(e) => {
                &&& r == Err::<Vec<TokenTransfer>, GigContractError>(e)
                &&& *final(ctx) == *old(ctx)
            },
            None => {
                &&& r matches Ok(ts) && ts@ == release_transfers(*old(ctx))
                &&& *final(ctx) == (ReleaseFundsContext {
                    contract: released_contract(old(ctx).contract),
                    ..*old(ctx)
                })
            },
        },
        release_pays_out(*old(ctx)) ==> (r matches Ok(ts) && {
            &&& ts@.len() == 3
            &&& ts@[0].from == old(ctx).contract_ata && ts@[0].to == old(ctx).seller_ata
            &&& ts@[1].from == old(ctx).contract_ata && ts@[1].to == old(ctx).buyer_ata
            &&& ts@[1].amount == old(ctx).contract.dispute
            &&& ts@[2].from == old(ctx).contract_ata && ts@[2].to == old(ctx).admin_ata
            &&& ts@[0].amount + ts@[1].amount + ts@[2].amount <= old(ctx).contract_ata_amount
            &&& old(ctx).contract_ata_amount - (ts@[0].amount + ts@[1].amount + ts@[2].amount) <= 1
            &&& ts@[0].amount >= old(ctx).contract.dispute
            &&& final(ctx).contract.status == ContractStatus::Completed
        }),
        release_error(old(ctx).contract, old(ctx).buyer) is None && !old(ctx).contract.seller_approved
            ==> (r matches Ok(ts) && ts@.len() == 0 && final(ctx).contract.status
            == ContractStatus::Pending),
        release_error(old(ctx).contract, old(ctx).buyer) is None ==> final(ctx).contract.buyer_approved,
{
    let status = ctx.contract.status;
    if !(status == ContractStatus::Active || status == ContractStatus::Pending) {
        return Err(GigContractError::CantRelease);
    }
    if !ctx.buyer.key_eq(&ctx.contract.buyer) {
        return Err(GigContractError::InvalidBuyer);
    }
    ctx.contract.status = ContractStatus::Pending;
    ctx.contract.buyer_approved = true;

    let total_balance = ctx.contract_ata_amount;
    let mut transfers: Vec<TokenTransfer> = Vec::new();

    if ctx.contract.seller_approved {
        ctx.contract.status = ContractStatus::Completed;
        let dispute = ctx.contract.dispute;
        let net = total_balance - 2 * dispute;
        assert(net * 95 / 100 <= net && net * 5 / 100 <= net) by (nonlinear_arith)
            requires
                net * 95 <= u64::MAX,
        ;
        let seller_amount = net * SELLER_SHARE_PERCENT / 100 + dispute;
        let platform_amount = net * PLATFORM_SHARE_PERCENT / 100;
        transfers.push(
            TokenTransfer {
                from: ctx.contract_ata,
                to: ctx.seller_ata,
                authority: ctx.contract_key,
                amount: seller_amount,
                contract_signs: true,
            },
        );
        transfers.push(
            TokenTransfer {
                from: ctx.contract_ata,
                to: ctx.buyer_ata,
                authority: ctx.contract_key,
                amount: dispute,
                contract_signs: true,
            },
        );
        transfers.push(
            TokenTransfer {
                from: ctx.contract_ata,
                to: ctx.admin_ata,
                authority: ctx.contract_key,
                amount: platform_amount,
                contract_signs: true,
            },
        );
    }
    proof {
        assert(transfers@ =~= release_transfers(*old(ctx)));
        if ctx.contract.seller_approved {
            lemma_release_pays_each_party(*old(ctx));
        }
    }
    Ok(transfers)
}

} // verus!
