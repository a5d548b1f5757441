use vstd::prelude::*;

use crate::errors::GigContractError;
use crate::constants::{LISTING_DISPUTE_FEE, LISTING_FEE};
use crate::instructions::job_listing_with_feature_employer::{
    featured_fee_transfer, featured_job, spec_featured_listing_fee,
    JobListingWithFeatureEmployerContext,
};
use crate::instructions::job_listing_with_one_fee_employer::{
    listing_transfers, JobListingWithFeesEmployerContext,
};
use crate::instructions::release_funds::{
    is_releasable, net_price, payout_fits, platform_fee, release_error, release_pays_out,
    release_transfers, released_contract, seller_payout, ReleaseFundsContext,
};
use crate::instructions::start_contract::{escrow_deposit, started_contract};
use crate::instructions::start_contract_on_buyer::buyer_started_fields;
use crate::key::Pubkey;
use crate::state::{Contract, ContractStatus, JobContract};

verus! {

/// Splitting a released balance never pays out more than the balance holds:
/// seller, buyer and platform together receive the whole balance except for
/// at most one unit lost to rounding, the seller gets at least its dispute
/// stake back, and every amount fits in a `u64`.
pub proof fn lemma_release_split_conserves_balance(total: u64, dispute: u64)
    requires
        payout_fits(total as int, dispute as int),
    ensures
        seller_payout(total as int, dispute as int) + dispute + platform_fee(total as int, dispute as int) <= total,
        total - (seller_payout(total as int, dispute as int) + dispute + platform_fee(total as int, dispute as int)) <= 1,
        seller_payout(total as int, dispute as int) >= dispute,
        0 <= platform_fee(total as int, dispute as int),
        seller_payout(total as int, dispute as int) <= u64::MAX,
{
    let x = net_price(total as int, dispute as int);
    let a = x * 95 / 100;
    let b = x * 5 / 100;
    assert(0 <= x);
    assert(a + b <= x && x <= a + b + 1 && 0 <= a && 0 <= b) by (nonlinear_arith)
        requires
            0 <= x,
            a == x * 95 / 100,
            b == x * 5 / 100,
    ;
}

/// A release that pays out, from an active or a pending contract alike, makes
/// three transfers out of the contract's token account: first to the seller,
/// at least its dispute stake; then to the buyer, exactly its dispute stake
/// back; then to the platform. Together they take the whole balance except
/// for at most one unit.
pub proof fn lemma_release_pays_each_party(ctx: ReleaseFundsContext)
    requires
        release_pays_out(ctx),
        payout_fits(ctx.contract_ata_amount as int, ctx.contract.dispute as int),
    ensures
        ({
            let ts = release_transfers(ctx);
            &&& ts.len() == 3
            &&& ts[0].from == ctx.contract_ata && ts[0].to == ctx.seller_ata
            &&& ts[1].from == ctx.contract_ata && ts[1].to == ctx.buyer_ata
            &&& ts[1].amount == ctx.contract.dispute
            &&& ts[2].from == ctx.contract_ata && ts[2].to == ctx.admin_ata
            &&& ts[0].authority == ctx.contract_key && ts[0].contract_signs
            &&& ts[1].authority == ctx.contract_key && ts[1].contract_signs
            &&& ts[2].authority == ctx.contract_key && ts[2].contract_signs
            &&& ts[0].amount >= ctx.contract.dispute
            &&& ts[0].amount + ts[1].amount + ts[2].amount <= ctx.contract_ata_amount
            &&& ctx.contract_ata_amount - (ts[0].amount + ts[1].amount + ts[2].amount) <= 1
        }),
{
    lemma_release_split_conserves_balance(ctx.contract_ata_amount, ctx.contract.dispute);
}

/// Once a release completes a contract, no later release can pay out again:
/// every further release is refused.
pub proof fn lemma_completed_contract_pays_once(c: Contract, signer: Pubkey, next_signer: Pubkey)
    requires
        release_error(c, signer) is None,
        c.seller_approved,
    ensures
        released_contract(c).status == ContractStatus::Completed,
        release_error(released_contract(c), next_signer) == Some(GigContractError::CantRelease),
{
}

/// Only the buyer recorded on a contract can have a release accepted.
pub proof fn lemma_only_buyer_releases(c: Contract, signer: Pubkey)
    ensures
        release_error(c, signer) is None ==> signer@ == c.buyer@,
        is_releasable(c.status) && signer@ != c.buyer@ ==> release_error(c, signer) == Some(
            GigContractError::InvalidBuyer,
        ),
{
}

/// The buyer's approval sticks: after an accepted release it is recorded, and
/// while the seller has not approved, the buyer may release again, which
/// changes nothing further.
pub proof fn lemma_buyer_approval_sticks(c: Contract, signer: Pubkey)
    requires
        release_error(c, signer) is None,
    ensures
        released_contract(c).buyer_approved,
        !c.seller_approved ==> release_error(released_contract(c), signer) is None,
        !c.seller_approved ==> released_contract(released_contract(c)) == released_contract(c),
{
}

/// A contract that has just been started, on either path, is not yet active:
/// releasing it is refused.
pub proof fn lemma_started_contract_cannot_be_released(
    c: Contract,
    contract_id: String,
    buyer: Pubkey,
    seller: Pubkey,
    start_time: u32,
    amount: u64,
    dispute: u64,
    deadline: u32,
    signer: Pubkey,
)
    ensures
        release_error(
            started_contract(c, contract_id, buyer, seller, start_time, amount, dispute, deadline),
            signer,
        ) == Some(GigContractError::CantRelease),
{
}

/// The same holds of a contract started on the buyer side.
pub proof fn lemma_buyer_started_contract_cannot_be_released(
    c: Contract,
    old_c: Contract,
    contract_id: String,
    buyer: Pubkey,
    seller: Pubkey,
    start_time: u32,
    amount: u64,
    dispute: u64,
    deadline: u32,
    payment_method: String,
    signer: Pubkey,
)
    requires
        buyer_started_fields(
            c,
            old_c,
            contract_id,
            buyer,
            seller,
            start_time,
            amount,
            dispute,
            deadline,
            payment_method,
        ),
    ensures
        release_error(c, signer) == Some(GigContractError::CantRelease),
{
}

/// A longer featured period always costs more than a shorter one.
pub proof fn lemma_featured_fee_grows_with_period(day1: u8, day2: u8)
    requires
        spec_featured_listing_fee(day1) is Some,
        spec_featured_listing_fee(day2) is Some,
        day1 < day2,
    ensures
        spec_featured_listing_fee(day1)->0 < spec_featured_listing_fee(day2)->0,
{
}

/// A started contract records the signing buyer as buyer and the given seller
/// as seller, with the agreed price and stake, and the escrow deposit that
/// funds it moves exactly price plus stake from the buyer's token account,
/// signed by the buyer, into the contract's token account.
pub proof fn lemma_start_records_parties_and_escrows_price_and_stake(
    c: Contract,
    contract_id: String,
    buyer: Pubkey,
    seller: Pubkey,
    buyer_ata: Pubkey,
    contract_ata: Pubkey,
    start_time: u32,
    amount: u64,
    dispute: u64,
    deadline: u32,
)
    requires
        amount + dispute <= u64::MAX,
    ensures
        ({
            let s = started_contract(c, contract_id, buyer, seller, start_time, amount, dispute, deadline);
            let t = escrow_deposit(buyer, buyer_ata, contract_ata, amount, dispute);
            &&& s.buyer == buyer && s.seller == seller
            &&& s.amount == amount && s.dispute == dispute
            &&& s.status == ContractStatus::Created
            &&& t.amount == amount + dispute
            &&& t.amount == s.amount + s.dispute
            &&& t.from == buyer_ata && t.to == contract_ata
            &&& t.authority == buyer && !t.contract_signs
        }),
{
}

/// A buyer-side start records the signing buyer as buyer and the given
/// seller as seller, never the other way round, with the agreed terms.
pub proof fn lemma_buyer_start_records_parties(
    c: Contract,
    old_c: Contract,
    contract_id: String,
    buyer: Pubkey,
    seller: Pubkey,
    start_time: u32,
    amount: u64,
    dispute: u64,
    deadline: u32,
    payment_method: String,
)
    requires
        buyer_started_fields(
            c,
            old_c,
            contract_id,
            buyer,
            seller,
            start_time,
            amount,
            dispute,
            deadline,
            payment_method,
        ),
    ensures
        c.buyer == buyer,
        c.seller == seller,
        c.contract_id == contract_id,
        c.amount == amount,
        c.dispute == dispute,
        c.deadline == deadline,
        c.start_time == start_time,
        c.status == ContractStatus::Created,
{
}

/// An accepted featured listing marks the job as featured for the requested
/// period under the given id, and charges the employer, from its own token
/// account and on its own signature, the fee of that period.
pub proof fn lemma_featured_listing_marks_job(
    ctx: JobListingWithFeatureEmployerContext,
    c: JobContract,
    contract_id: String,
    featured_day: u8,
)
    requires
        spec_featured_listing_fee(featured_day) is Some,
    ensures
        featured_job(c, contract_id, featured_day).featured,
        featured_job(c, contract_id, featured_day).featured_day == featured_day,
        featured_job(c, contract_id, featured_day).contract_id == contract_id,
        ({
            let fee = spec_featured_listing_fee(featured_day)->0;
            let t = featured_fee_transfer(ctx, fee);
            &&& t.amount == fee
            &&& fee > 0
            &&& t.from == ctx.employer_ata && t.to == ctx.contract_ata
            &&& t.authority == ctx.employer && !t.contract_signs
        }),
{
}

/// Every transfer of a paid listing debits the employer's token account,
/// credits the program's, and is signed by the employer; the employer pays the
/// listing fee, plus the dispute fee when asked for, and nothing else.
pub proof fn lemma_paid_listing_charges_employer(ctx: JobListingWithFeesEmployerContext, with_dispute: bool)
    ensures
        ({
            let ts = listing_transfers(ctx, with_dispute);
            &&& ts.len() == if with_dispute { 2int } else { 1int }
            &&& forall|i: int| 0 <= i < ts.len() ==> {
                &&& (#[trigger] ts[i]).from == ctx.employer_token_account
                &&& ts[i].to == ctx.program_token_account
                &&& ts[i].authority == ctx.employer
                &&& !ts[i].contract_signs
            }
            &&& ts[0].amount == LISTING_FEE
            &&& with_dispute ==> ts[1].amount == LISTING_DISPUTE_FEE
            &&& with_dispute ==> ts[0].amount + ts[1].amount == LISTING_FEE + LISTING_DISPUTE_FEE
        }),
{
}

} // verus!
