use vstd::prelude::*;

use crate::key::Pubkey;

verus! {

/// Lifecycle of a buyer/seller contract.
#[derive(Clone, Copy, Debug, PartialEq, Eq, Structural)]
pub enum ContractStatus {
    Created,
    Active,
    Pending,
    Completed,
}

/// Lifecycle of a job listing.
#[derive(Clone, Copy, Debug, PartialEq, Eq, Structural)]
pub enum JobContractStatus {
    Created,
    Listed,
}

/// The escrow contract between a buyer and a seller.
#[derive(Clone, Debug)]
pub struct Contract {
    pub contract_id: String,
    pub buyer: Pubkey,
    pub seller: Pubkey,
    pub start_time: u32,
    pub amount: u64,
    pub dispute: u64,
    pub deadline: u32,
    pub status: ContractStatus,
    pub buyer_approved: bool,
    pub seller_approved: bool,
    pub buyer_referral: Pubkey,
    pub seller_referral: Pubkey,
    pub payment_method: String,
}

/// A job listed by an employer.
#[derive(Clone, Debug)]
pub struct JobContract {
    pub contract_id: String,
    pub status: JobContractStatus,
    pub featured: bool,
    pub featured_day: u8,
}

/// An hourly contract offered by an employer.
#[derive(Clone, Copy, Debug)]
pub struct HourlyContract {
    pub employer: Pubkey,
    pub status: JobContractStatus,
}

impl Contract {
    /// A freshly allocated contract account: every field zero or empty.
    pub fn new() -> (c: Contract)
        ensures
            c.contract_id@ == Seq::<char>::empty(),
            c.buyer@ == Seq::new(32, |i: int| 0u8),
            c.seller@ == Seq::new(32, |i: int| 0u8),
            c.start_time == 0,
            c.amount == 0,
            c.dispute == 0,
            c.deadline == 0,
            c.status == ContractStatus::Created,
            !c.buyer_approved,
            !c.seller_approved,
            c.buyer_referral@ == Seq::new(32, |i: int| 0u8),
            c.seller_referral@ == Seq::new(32, |i: int| 0u8),
            c.payment_method@ == Seq::<char>::empty(),
    {
        Contract {
            contract_id: String::new(),
            buyer: Pubkey::default(),
            seller: Pubkey::default(),
            start_time: 0,
            amount: 0,
            dispute: 0,
            deadline: 0,
            status: ContractStatus::Created,
            buyer_approved: false,
            seller_approved: false,
            buyer_referral: Pubkey::default(),
            seller_referral: Pubkey::default(),
            payment_method: String::new(),
        }
    }
}

impl JobContract {
    /// A freshly allocated job account: every field zero or empty.
    pub fn new() -> (c: JobContract)
        ensures
            c.contract_id@ == Seq::<char>::empty(),
            c.status == JobContractStatus::Created,
            !c.featured,
            c.featured_day == 0,
    {
        JobContract {
            contract_id: String::new(),
            status: JobContractStatus::Created,
            featured: false,
            featured_day: 0,
        }
    }
}

} // verus!
