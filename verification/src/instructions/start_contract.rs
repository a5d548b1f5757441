use vstd::prelude::*;

use crate::key::Pubkey;
use crate::state::{Contract, ContractStatus};
use crate::transfer::TokenTransfer;

verus! {

/// What starting a contract reads and writes: the signing buyer, the new
/// contract account, the seller, and the token accounts of buyer and contract.
#[derive(Clone, Debug)]
pub struct StartContractContext {
    pub buyer: Pubkey,
    pub contract: Contract,
    pub seller: Pubkey,
    pub buyer_ata: Pubkey,
    pub contract_ata: Pubkey,
}

/// The start time recorded on a contract: the clock's Unix timestamp cut to
/// its low 32 bits.
pub open spec fn start_time_of(unix_timestamp: i64) -> u32 {
    unix_timestamp as u32
}

/// The contract after it is started.
pub open spec fn started_contract(
    c: Contract,
    contract_id: String,
    buyer: Pubkey,
    seller: Pubkey,
    start_time: u32,
    amount: u64,
    dispute: u64,
    deadline: u32,
) -> Contract {
    Contract {
        contract_id,
        buyer,
        seller,
        start_time,
        amount,
        dispute,
        deadline,
        status: ContractStatus::Created,
        ..c
    }
}

/// The deposit that funds a contract: price and dispute stake, from the
/// buyer's token account into the contract's.
pub open spec fn escrow_deposit(buyer: Pubkey, buyer_ata: Pubkey, contract_ata: Pubkey, amount: u64, dispute: u64) -> TokenTransfer {
    TokenTransfer {
        from: buyer_ata,
        to: contract_ata,
        authority: buyer,
        amount: (amount + dispute) as u64,
        contract_signs: false,
    }
}

/// Cuts a Unix timestamp to the 32 bits a contract records.
pub fn start_time_from(unix_timestamp: i64) -> (t: u32)
    ensures
        t == start_time_of(unix_timestamp),
{
    unix_timestamp as u32
}

/// The buyer opens a contract with a seller for `amount`, with a dispute
/// stake of `dispute`, due by `deadline`, and escrows both in the contract's
/// token account.
pub fn start_contract(
    ctx: &mut StartContractContext,
    contract_id: String,
    amount: u64,
    dispute: u64,
    deadline: u32,
    unix_timestamp: i64,
) -> (r: Vec<TokenTransfer>)
    requires
        amount + dispute <= u64::MAX,
    ensures
        *final(ctx) == (StartContractContext {
            contract: started_contract(
                old(ctx).contract,
                contract_id,
                old(ctx).buyer,
                old(ctx).seller,
                start_time_of(unix_timestamp),
                amount,
                dispute,
                deadline,
            ),
            ..*old(ctx)
        }),
        r@ == seq![escrow_deposit(old(ctx).buyer, old(ctx).buyer_ata, old(ctx).contract_ata, amount, dispute)],
        r@.len() == 1,
        r@[0].amount == amount + dispute,
        r@[0].amount == final(ctx).contract.amount + final(ctx).contract.dispute,
        r@[0].from == old(ctx).buyer_ata && r@[0].to == old(ctx).contract_ata,
        r@[0].authority == old(ctx).buyer && !r@[0].contract_signs,
        final(ctx).contract.buyer == old(ctx).buyer,
        final(ctx).contract.seller == old(ctx).seller,
        final(ctx).contract.amount == amount,
        final(ctx).contract.dispute == dispute,
        final(ctx).contract.deadline == deadline,
        final(ctx).contract.status == ContractStatus::Created,
{
    let current_timestamp = start_time_from(unix_timestamp);
    ctx.contract.contract_id = contract_id;
    ctx.contract.buyer = ctx.buyer;
    ctx.contract.seller = ctx.seller;
    ctx.contract.start_time = current_timestamp;
    ctx.contract.amount = amount;
    ctx.contract.dispute = dispute;
    ctx.contract.deadline = deadline;
    ctx.contract.status = ContractStatus::Created;

    let transfers = vec![
        TokenTransfer {
            from: ctx.buyer_ata,
            to: ctx.contract_ata,
            authority: ctx.buyer,
            amount: amount + dispute,
            contract_signs: false,
        },
    ];
    transfers
}

} // verus!
